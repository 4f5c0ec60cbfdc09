//! What the platform's APIs exchange: the ports of a project, the credentials
//! sent with each call, and the agent header that names this tool.
use vstd::prelude::*;
use vstd::string::*;
use crate::text::find_char;
use crate::text::index_from;

verus! {

/// The version of this tool, as sent to the platform.
pub const CLI_VERSION: &'static str = "0.1.0";

/// The agent header's value: `dmtr-cli/<version>`.
pub open spec fn agent_header(version: Seq<char>) -> Seq<char> {
    "dmtr-cli/"@ + version
}

/// The agent header sent with every request.
pub fn build_agent_header() -> (r: String)
    ensures
        r@ == agent_header(CLI_VERSION@),
{
    String::from_str("dmtr-cli/").concat(CLI_VERSION)
}

/// The management API's account endpoint under `base_url`.
pub fn build_api_url(base_url: &str) -> (r: String)
    ensures
        r@ == base_url@ + "/mgmt/account"@,
{
    String::from_str(base_url).concat("/mgmt/account")
}

/// Credentials attached to a call of the platform's services.
pub enum Credential {
    /// A bearer token of the identity provider.
    Auth0(String),
    /// A project id and the secret API key of that project.
    Secret((String, String)),
}

/// A port of a project, as the management API describes it.
pub struct PortInfo {
    pub id: String,
    pub kind: String,
    pub key: String,
    pub name: String,
    pub network: String,
    pub tier: String,
    pub version: String,
    pub instance: Instance,
}

/// How a port is reached; its shape depends on the kind of port.
pub enum Instance {
    Postgres(PostgresPortInstance),
    Http(HttpPortInstance),
    Node(NodePortInstance),
}

pub struct PostgresPortInstance {
    pub hostname: String,
    pub database: String,
    pub port: u16,
    pub username: String,
    pub password: String,
    pub connection_string: String,
}

pub struct HttpPortInstance {
    pub api_key: String,
    pub endpoint: String,
    pub authenticated_endpoint: String,
}

pub struct NodePortInstance {
    pub api_key: String,
    pub authenticated_endpoint: String,
}

/// How resources are printed.
#[derive(Clone, Copy, Debug, Default, PartialEq, Eq, Structural)]
pub enum OutputFormat {
    #[default]
    Table,
    Json,
}

/// A field of a resource's spec that the tool knows how to read.
#[derive(Clone, Copy, Debug, PartialEq, Eq, Structural)]
pub enum KnownField {
    Network,
    OperatorVersion,
}

/// The name was not one of the known fields.
#[derive(Clone, Copy, Debug, PartialEq, Eq, Structural)]
pub struct UnknownField;

impl KnownField {
    /// Reads `network` or `operatorVersion`.
    pub fn from_str(s: &str) -> (r: Result<KnownField, UnknownField>)
        ensures
            s@ == "network"@ ==> r == Ok::<KnownField, UnknownField>(KnownField::Network),
            s@ == "operatorVersion"@ ==> r == Ok::<KnownField, UnknownField>(
                KnownField::OperatorVersion,
            ),
            s@ != "network"@ && s@ != "operatorVersion"@ ==> r == Err::<KnownField, UnknownField>(
                UnknownField,
            ),
    {
        proof {
            reveal_strlit("network");
            reveal_strlit("operatorVersion");
            assert("network"@.len() != "operatorVersion"@.len());
        }
        if crate::text::str_eq(s, "network") {
            Ok(KnownField::Network)
        } else if crate::text::str_eq(s, "operatorVersion") {
            Ok(KnownField::OperatorVersion)
        } else {
            Err(UnknownField)
        }
    }
}

/// The kind and id of an instance written `kind/id`: the text before the
/// first `/`, and the text between it and the next `/` (or the end).
pub open spec fn instance_parts(s: Seq<char>) -> (Seq<char>, Seq<char>) {
    let i = index_from(s, '/', 0);
    let j = index_from(s, '/', i + 1);
    (s.subrange(0, i), s.subrange(i + 1, j))
}

/// Splits an instance written `kind/id` into its kind and id.
pub fn get_instance_parts(instance: &str) -> (r: (String, String))
    requires
        instance@.contains('/'),
    ensures
        r.0@ == instance_parts(instance@).0,
        r.1@ == instance_parts(instance@).1,
{
    let i = find_char(instance, '/', 0);
    if i == instance.unicode_len() {
        proof {
            let k = choose|k: int| 0 <= k < instance@.len() && instance@[k] == '/';
            lemma_index_bound(instance@, '/', 0, k);
        }
    }
    let j = find_char(instance, '/', i + 1);
    let kind = String::from_str(instance.substring_char(0, i));
    let id = String::from_str(instance.substring_char(i + 1, j));
    (kind, id)
}

proof fn lemma_index_bound(s: Seq<char>, c: char, from: int, k: int)
    requires
        0 <= from <= k < s.len(),
        s[k] == c,
    ensures
        index_from(s, c, from) <= k,
    decreases k - from,
{
    if from < k && s[from] != c {
        lemma_index_bound(s, c, from + 1, k);
    }
}

/// A project of the platform: its id, the namespace it lives in, and its name.
pub struct ProjectRef {
    pub id: String,
    pub namespace: String,
    pub name: String,
}

pub fn parse_project_ref(id: String, namespace: String, name: String) -> (r: ProjectRef)
    ensures
        r.id@ == id@,
        r.namespace@ == namespace@,
        r.name@ == name@,
{
    ProjectRef { id, namespace, name }
}

/// A project as stored locally: its id, API key and cloud.
pub struct Project {
    pub id: String,
    pub api_key: String,
    pub cloud: String,
}

} // verus!
