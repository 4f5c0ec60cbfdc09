//! Choosing the node port that a tunnel serves, among the resources of a
//! project, and the remote host that serves it.
use vstd::prelude::*;
use vstd::string::*;
use crate::dial::{node_port_hostname, port_host};
use crate::text::str_eq;

verus! {

/// The kind of resource that a tunnel can serve.
pub const CARDANO_NODE_KIND: &'static str = "CardanoNodePort";

/// A resource of a project: its id, kind and name, and its spec as JSON text.
pub struct Resource {
    pub id: String,
    pub kind: String,
    pub name: String,
    pub spec: String,
}

/// Why no node port could be settled on.
#[derive(Clone, Copy, Debug, PartialEq, Eq, Structural)]
pub enum PortError {
    /// The project has no resource of the node-port kind.
    NoNodePorts,
    /// No node port has the name asked for.
    PortNotFound,
    /// The port's spec holds no authentication token.
    MissingAuthToken,
}

/// The outcome of choosing a port.
#[derive(Clone, Debug, PartialEq, Eq)]
pub enum PortChoice {
    /// The resource at this index, picked by name.
    Chosen(usize),
    /// No name was given: the operator picks among the resources at these indices.
    Prompt(Vec<usize>),
}

/// Whether a resource is a node port.
pub open spec fn is_node_port(r: Resource) -> bool {
    r.kind@ == CARDANO_NODE_KIND@
}

/// Whether a resource is the node port of this name.
pub open spec fn is_named_port(r: Resource, name: Seq<char>) -> bool {
    is_node_port(r) && r.name@ == name
}

/// The indices of the node ports among `rs`, in order.
pub open spec fn node_indices(rs: Seq<Resource>) -> Seq<int>
    decreases rs.len(),
{
    if rs.len() == 0 {
        Seq::empty()
    } else if is_node_port(rs.last()) {
        node_indices(rs.drop_last()).push(rs.len() - 1)
    } else {
        node_indices(rs.drop_last())
    }
}

proof fn lemma_node_indices_empty(rs: Seq<Resource>)
    ensures
        node_indices(rs).len() == 0 <==> forall|k: int| 0 <= k < rs.len() ==> !is_node_port(
            #[trigger] rs[k],
        ),
    decreases rs.len(),
{
    if rs.len() > 0 {
        lemma_node_indices_empty(rs.drop_last());
        if node_indices(rs).len() == 0 {
            assert forall|k: int| 0 <= k < rs.len() implies !is_node_port(#[trigger] rs[k]) by {
                if k < rs.len() - 1 {
                    assert(rs[k] == rs.drop_last()[k]);
                }
            }
        } else if !is_node_port(rs.last()) {
            let k = choose|k: int| 0 <= k < rs.drop_last().len() && is_node_port(
                #[trigger] rs.drop_last()[k],
            );
            assert(rs[k] == rs.drop_last()[k]);
        }
    }
}

/// Picks the node port to serve. Without resources of the node-port kind
/// this fails; with a name, it is the first node port of that name; without
/// one, every node port is offered to the operator, in order.
pub fn define_port(resources: &Vec<Resource>, port_name: Option<&str>) -> (r: Result<
    PortChoice,
    PortError,
>)
    ensures
        node_indices(resources@).len() == 0 ==> r == Err::<PortChoice, PortError>(
            PortError::NoNodePorts,
        ),
        node_indices(resources@).len() > 0 && port_name is None ==> r is Ok && r->Ok_0 is Prompt
            && r->Ok_0->Prompt_0@.map_values(|i: usize| i as int) == node_indices(resources@),
        node_indices(resources@).len() > 0 && port_name is Some ==> match r {
            Ok(PortChoice::Chosen(k)) => k < resources@.len() && is_named_port(
                resources@[k as int],
                port_name->Some_0@,
            ) && forall|j: int| 0 <= j < k ==> !is_named_port(resources@[j], port_name->Some_0@),
            Err(e) => e == PortError::PortNotFound && forall|j: int|
                0 <= j < resources@.len() ==> !is_named_port(resources@[j], port_name->Some_0@),
            _ => false,
        },
{
    let mut available: Vec<usize> = Vec::new();
    let mut found: Option<usize> = None;
    let mut i: usize = 0;
    while i < resources.len()
        invariant
            0 <= i <= resources@.len(),
            available@.map_values(|x: usize| x as int) == node_indices(resources@.take(i as int)),
            port_name is Some ==> match found {
                Some(k) => k < i && is_named_port(resources@[k as int], port_name->Some_0@)
                    && forall|j: int| 0 <= j < k ==> !is_named_port(resources@[j], port_name->Some_0@),
                None => forall|j: int| 0 <= j < i ==> !is_named_port(resources@[j], port_name->Some_0@),
            },
        decreases resources@.len() - i,
    {
        let res = &resources[i];
        let node = str_eq(res.kind.as_str(), CARDANO_NODE_KIND);
        proof {
            assert(resources@.take(i as int + 1).drop_last() =~= resources@.take(i as int));
            assert(resources@.take(i as int + 1).last() == resources@[i as int]);
        }
        if node {
            available.push(i);
            proof {
                assert(available@.map_values(|x: usize| x as int) =~= node_indices(
                    resources@.take(i as int),
                ).push(i as int));
            }
            match (port_name, found) {
                (Some(name), None) => {
                    if str_eq(res.name.as_str(), name) {
                        found = Some(i);
                    }
                },
                _ => {},
            }
        }
        i = i + 1;
    }
    proof {
        assert(resources@.take(resources@.len() as int) =~= resources@);
        lemma_node_indices_empty(resources@);
    }
    if available.len() == 0 {
        proof {
            assert(node_indices(resources@).len() == 0);
        }
        return Err(PortError::NoNodePorts);
    }
    match port_name {
        Some(_) => match found {
            Some(k) => Ok(PortChoice::Chosen(k)),
            None => Err(PortError::PortNotFound),
        },
        None => Ok(PortChoice::Prompt(available)),
    }
}

/// The string member `key` of the JSON object in `text`, when `text` parses
/// as JSON and that member exists and is a string.
pub uninterp spec fn json_str_member(text: Seq<char>, key: Seq<char>) -> Option<Seq<char>>;

/// Relies on `serde_json::from_str` into a `serde_json::Value`, then
/// `Value::get` and `Value::as_str`: the string member `key` of the object
/// that `text` holds, which depends on the two texts alone.
#[verifier::external_body]
fn json_string_member(text: &str, key: &str) -> (r: Option<String>)
    ensures
        match r {
            Some(s) => json_str_member(text@, key@) == Some(s@),
            None => json_str_member(text@, key@) is None,
        },
{
    let value: serde_json::Value = serde_json::from_str(text).ok()?;
    value.get(key).and_then(|v| v.as_str()).map(|s| s.to_string())
}

/// The host that serves a node port, from the `authToken` member of its spec.
pub fn node_port_host(spec: &str) -> (r: Result<String, PortError>)
    ensures
        match json_str_member(spec@, "authToken"@) {
            Some(t) => r is Ok && r->Ok_0@ == port_host(t),
            None => r == Err::<String, PortError>(PortError::MissingAuthToken),
        },
{
    match json_string_member(spec, "authToken") {
        Some(token) => Ok(node_port_hostname(token.as_str())),
        None => Err(PortError::MissingAuthToken),
    }
}

/// How a node port is shown to the operator: `kind: name - network`.
pub open spec fn port_label(kind: Seq<char>, name: Seq<char>, network: Option<Seq<char>>) -> Seq<
    char,
> {
    kind + ": "@ + name + " - "@ + match network {
        Some(n) => n,
        None => "unknown"@,
    }
}

impl Resource {
    /// The line that offers this port to the operator; the network comes
    /// from the `network` member of the spec, `unknown` when there is none.
    pub fn label(&self) -> (r: String)
        ensures
            r@ == port_label(self.kind@, self.name@, json_str_member(self.spec@, "network"@)),
    {
        let mut s = self.kind.clone();
        s.append(": ");
        s.append(self.name.as_str());
        s.append(" - ");
        match json_string_member(self.spec.as_str(), "network") {
            Some(n) => s.append(n.as_str()),
            None => s.append("unknown"),
        }
        s
    }
}

} // verus!
