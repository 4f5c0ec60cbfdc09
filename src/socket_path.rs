//! Where the tunnel's Unix socket lives: an explicit path, or one derived
//! from a base directory and a name. A path that already exists is refused.
use vstd::prelude::*;
use vstd::string::*;
use crate::server::TunnelError;
use crate::text::join;
use crate::text::join_path;

verus! {

/// The socket path derived from a directory and a name: `<dir>/<name>.socket`.
pub open spec fn derived_socket_path(dir: Seq<char>, name: Seq<char>) -> Seq<char> {
    join_path(dir, name + ".socket"@)
}

/// The path the socket will be bound at: the explicit one verbatim when
/// given, else `<dir>/<name>.socket`.
pub open spec fn socket_path_of(explicit: Option<Seq<char>>, dir: Seq<char>, name: Seq<char>) -> Seq<
    char,
> {
    match explicit {
        Some(p) => p,
        None => derived_socket_path(dir, name),
    }
}

/// Writes `<dir>/<name>.socket`.
pub fn default_socket_path(dir: &str, name: &str) -> (r: String)
    ensures
        r@ == derived_socket_path(dir@, name@),
{
    let file = String::from_str(name).concat(".socket");
    join(dir, file.as_str())
}

/// The path the socket will be bound at.
pub fn resolve_socket_path(explicit: Option<String>, dir: &str, name: &str) -> (r: String)
    ensures
        r@ == socket_path_of(
            match explicit {
                Some(p) => Some(p@),
                None => None,
            },
            dir@,
            name@,
        ),
{
    match explicit {
        Some(p) => p,
        None => default_socket_path(dir, name),
    }
}

/// Accepts `path` for binding only when nothing exists there yet.
pub fn check_socket_path(path: String, exists: bool) -> (r: Result<String, TunnelError>)
    ensures
        exists ==> r == Err::<String, TunnelError>(TunnelError::PathAlreadyExists),
        !exists ==> r is Ok && r->Ok_0@ == path@,
{
    if exists {
        Err(TunnelError::PathAlreadyExists)
    } else {
        Ok(path)
    }
}

} // verus!
