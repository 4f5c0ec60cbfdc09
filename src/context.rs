//! Who the command-line tool works for: a namespace and the credentials used
//! there, taken from the command line or from a stored context.
use vstd::prelude::*;
use vstd::string::*;
use crate::dirs::Dirs;

verus! {

/// A namespace of the platform, with an optional human-readable caption.
pub struct Namespace {
    pub name: String,
    pub caption: Option<String>,
}

impl Namespace {
    pub fn new(name: &str, caption: Option<String>) -> (r: Namespace)
        ensures
            r.name@ == name@,
            r.caption == caption,
    {
        Namespace { name: String::from_str(name), caption }
    }
}

/// How requests are authenticated.
pub struct Auth {
    pub name: String,
    pub method: String,
    pub token: String,
}

impl Auth {
    /// Authentication by an API key, under the name `default`.
    pub fn api_key(token: &str) -> (r: Auth)
        ensures
            r.name@ == "default"@,
            r.method@ == "ApiKey"@,
            r.token@ == token@,
    {
        Auth {
            name: String::from_str("default"),
            method: String::from_str("ApiKey"),
            token: String::from_str(token),
        }
    }
}

/// A namespace together with the credentials used in it.
pub struct Context {
    pub namespace: Namespace,
    pub auth: Auth,
}

impl Context {
    /// A context that is used for one invocation and stored nowhere.
    pub fn ephemeral(namespace: &str, api_key: &str) -> (r: Context)
        ensures
            r.namespace.name@ == namespace@,
            r.namespace.caption is None,
            r.auth.name@ == "default"@,
            r.auth.method@ == "ApiKey"@,
            r.auth.token@ == api_key@,
    {
        Context { namespace: Namespace::new(namespace, None), auth: Auth::api_key(api_key) }
    }
}

/// The cloud that hosts the platform.
pub struct Cloud {
    pub name: String,
}

impl Default for Cloud {
    fn default() -> (r: Cloud)
        ensures
            r.name@ == "cloud0.txpipe.io"@,
    {
        Cloud { name: String::from_str("cloud0.txpipe.io") }
    }
}

/// The operator that runs the platform, and the entrypoint of its services.
pub struct Operator {
    pub name: String,
    pub entrypoint: String,
}

impl Default for Operator {
    fn default() -> (r: Operator)
        ensures
            r.name@ == "TxPipe"@,
            r.entrypoint@ == "us1.demeter.run"@,
    {
        Operator {
            name: String::from_str("TxPipe"),
            entrypoint: String::from_str("us1.demeter.run"),
        }
    }
}

/// What one invocation of the tool works with.
pub struct Cli {
    pub dirs: Dirs,
    pub context: Option<Context>,
}

/// Where the context of an invocation comes from.
pub enum ContextSource {
    /// Built from a namespace and an API key given on the command line.
    Ephemeral(Context),
    /// The stored context of this name.
    ByName(String),
    /// The stored default context, if any.
    Default,
}

/// Why no context could be settled on.
#[derive(Clone, Copy, Debug, PartialEq, Eq, Structural)]
pub enum ContextError {
    /// An API key was given without a namespace.
    MissingNamespace,
    /// A namespace was given without an API key.
    MissingApiKey,
}

/// Settles where the context comes from. A context name wins; a namespace
/// and an API key together make an ephemeral context; one of the two alone
/// is an error; nothing at all means the default context.
pub fn infer_context(name: Option<&str>, namespace: Option<&str>, api_key: Option<&str>) -> (r:
    Result<ContextSource, ContextError>)
    ensures
        name is Some ==> r is Ok && r->Ok_0 is ByName && r->Ok_0->ByName_0@ == name->Some_0@,
        name is None && namespace is Some && api_key is Some ==> r is Ok && r->Ok_0 is Ephemeral
            && r->Ok_0->Ephemeral_0.namespace.name@ == namespace->Some_0@
            && r->Ok_0->Ephemeral_0.auth.token@ == api_key->Some_0@,
        name is None && namespace is None && api_key is Some ==> r == Err::<
            ContextSource,
            ContextError,
        >(ContextError::MissingNamespace),
        name is None && namespace is Some && api_key is None ==> r == Err::<
            ContextSource,
            ContextError,
        >(ContextError::MissingApiKey),
        name is None && namespace is None && api_key is None ==> r is Ok && r->Ok_0 is Default,
{
    match (name, namespace, api_key) {
        (Some(n), _, _) => Ok(ContextSource::ByName(String::from_str(n))),
        (None, Some(ns), Some(ak)) => Ok(ContextSource::Ephemeral(Context::ephemeral(ns, ak))),
        (None, None, Some(_)) => Err(ContextError::MissingNamespace),
        (None, Some(_), None) => Err(ContextError::MissingApiKey),
        (None, None, None) => Ok(ContextSource::Default),
    }
}

/// The management API's project endpoints under `base_url`.
pub open spec fn project_url(base_url: Seq<char>) -> Seq<char> {
    base_url + "/mgmt/project"@
}

/// The API key, the namespace, and the project endpoint of the invocation's context.
pub fn extract_context_data(cli: &Cli, base_url: &str) -> (r: (String, String, String))
    requires
        cli.context is Some,
    ensures
        r.0@ == cli.context->Some_0.auth.token@,
        r.1@ == cli.context->Some_0.namespace.name@,
        r.2@ == project_url(base_url@),
{
    let ctx = cli.context.as_ref().unwrap();
    let api_key = ctx.auth.token.clone();
    let namespace = ctx.namespace.name.clone();
    let url = String::from_str(base_url).concat("/mgmt/project");
    (api_key, namespace, url)
}

} // verus!
