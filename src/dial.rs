//! The remote endpoint of a tunnel and the decisions of dialing it: open TCP,
//! tune the socket, load the trust store, check the server name, shake hands.
//! The first step that fails decides the error, and nothing is retried.
use vstd::prelude::*;
use vstd::string::*;
use crate::text::{decimal, decimal_string};

verus! {

/// The remote port used when no override is given.
pub const DEFAULT_REMOTE_PORT: u16 = 9443;

/// The port to dial: the explicit override when there is one, the default otherwise.
pub fn define_remote_port(explicit: Option<u16>) -> (r: u16)
    ensures
        r == match explicit {
            Some(p) => p,
            None => DEFAULT_REMOTE_PORT,
        },
{
    match explicit {
        Some(p) => p,
        None => DEFAULT_REMOTE_PORT,
    }
}

/// The host name under which a node instance of a project is served.
pub open spec fn node_host(instance: Seq<char>, project: Seq<char>, entrypoint: Seq<char>) -> Seq<
    char,
> {
    "cardanonode-"@ + instance + "-n2c-"@ + project + "."@ + entrypoint
}

/// The host to dial: the explicit override when there is one, else the host
/// of the node instance `instance` of `project` behind `entrypoint`.
pub fn define_remote_host(
    explicit: Option<String>,
    instance: &str,
    project: &str,
    entrypoint: &str,
) -> (r: String)
    ensures
        r@ == match explicit {
            Some(h) => h@,
            None => node_host(instance@, project@, entrypoint@),
        },
{
    match explicit {
        Some(h) => h,
        None => {
            let mut s = String::from_str("cardanonode-");
            s.append(instance);
            s.append("-n2c-");
            s.append(project);
            s.append(".");
            s.append(entrypoint);
            s
        },
    }
}

/// The host of a node port, named by its authentication token.
pub open spec fn port_host(auth_token: Seq<char>) -> Seq<char> {
    auth_token + ".cnode-m1.demeter.run"@
}

/// The host that serves the node port whose token is `auth_token`.
pub fn node_port_hostname(auth_token: &str) -> (r: String)
    ensures
        r@ == port_host(auth_token@),
{
    let mut s = String::from_str(auth_token);
    s.append(".cnode-m1.demeter.run");
    s
}

/// The address that a TCP connection is opened to: `host:port`.
pub open spec fn address(host: Seq<char>, port: u16) -> Seq<char> {
    host + ":"@ + decimal(port as nat)
}

/// Writes `host:port`.
pub fn remote_address(host: &str, port: u16) -> (r: String)
    ensures
        r@ == address(host@, port),
{
    let mut s = String::from_str(host);
    s.append(":");
    s.append(decimal_string(port as u32).as_str());
    s
}

/// Whether the TLS layer takes `host` as a server name (a DNS name or an IP address).
pub uninterp spec fn server_name_accepts(host: Seq<char>) -> bool;

/// Relies on `TryFrom<&str>` for `rustls::pki_types::ServerName`: it accepts a
/// valid DNS name or an IP address, by the text alone, and refuses empty text.
#[verifier::external_body]
fn server_name_ok(host: &str) -> (r: bool)
    ensures
        r == server_name_accepts(host@),
        host@.len() == 0 ==> !r,
{
    tokio_rustls::rustls::pki_types::ServerName::try_from(host).is_ok()
}

/// The steps of a dial, in the order in which they run.
#[derive(Clone, Copy, Debug, PartialEq, Eq, Structural)]
pub enum DialStep {
    /// Open the TCP connection to `host:port`.
    Connect,
    /// Disable Nagle buffering and enable keepalive on the socket.
    Tune,
    /// Load the system's root certificates.
    LoadCerts,
    /// Take the host as the TLS server name.
    CheckName,
    /// Perform the TLS handshake.
    Handshake,
}

/// Why a dial failed.
#[derive(Clone, Copy, Debug, PartialEq, Eq, Structural)]
pub enum DialError {
    Unreachable,
    SocketTuning,
    CertLoad,
    InvalidDomain,
    TlsHandshake,
}

/// Where a dial stands.
#[derive(Clone, Copy, Debug, PartialEq, Eq, Structural)]
pub enum DialState {
    /// The step to run next.
    Pending(DialStep),
    /// A secure stream is established.
    Connected,
    /// The dial failed, and stays failed.
    Failed(DialError),
}

/// The error that a failure of each step gives.
pub open spec fn step_error(s: DialStep) -> DialError {
    match s {
        DialStep::Connect => DialError::Unreachable,
        DialStep::Tune => DialError::SocketTuning,
        DialStep::LoadCerts => DialError::CertLoad,
        DialStep::CheckName => DialError::InvalidDomain,
        DialStep::Handshake => DialError::TlsHandshake,
    }
}

/// Where a dial goes once step `s` has succeeded.
pub open spec fn after_step(s: DialStep) -> DialState {
    match s {
        DialStep::Connect => DialState::Pending(DialStep::Tune),
        DialStep::Tune => DialState::Pending(DialStep::LoadCerts),
        DialStep::LoadCerts => DialState::Pending(DialStep::CheckName),
        DialStep::CheckName => DialState::Pending(DialStep::Handshake),
        DialStep::Handshake => DialState::Connected,
    }
}

/// One step of a dial, with its outcome.
pub open spec fn dial_step(st: DialState, ok: bool) -> DialState {
    match st {
        DialState::Pending(s) => if ok { after_step(s) } else { DialState::Failed(step_error(s)) },
        _ => st,
    }
}

/// A dial driven by a run of step outcomes, in order.
pub open spec fn dial_run(st: DialState, outcomes: Seq<bool>) -> DialState
    decreases outcomes.len(),
{
    if outcomes.len() == 0 {
        st
    } else {
        dial_run(dial_step(st, outcomes[0]), outcomes.drop_first())
    }
}

/// The step that follows `step`, once it ended with `ok`.
pub fn advance(step: DialStep, ok: bool) -> (r: DialState)
    ensures
        r == dial_step(DialState::Pending(step), ok),
{
    if !ok {
        DialState::Failed(
            match step {
                DialStep::Connect => DialError::Unreachable,
                DialStep::Tune => DialError::SocketTuning,
                DialStep::LoadCerts => DialError::CertLoad,
                DialStep::CheckName => DialError::InvalidDomain,
                DialStep::Handshake => DialError::TlsHandshake,
            },
        )
    } else {
        match step {
            DialStep::Connect => DialState::Pending(DialStep::Tune),
            DialStep::Tune => DialState::Pending(DialStep::LoadCerts),
            DialStep::LoadCerts => DialState::Pending(DialStep::CheckName),
            DialStep::CheckName => DialState::Pending(DialStep::Handshake),
            DialStep::Handshake => DialState::Connected,
        }
    }
}

/// Runs the server-name step for `host`.
pub fn check_server_name(host: &str) -> (r: Result<(), DialError>)
    ensures
        r is Ok <==> server_name_accepts(host@),
        r is Err ==> r == Err::<(), DialError>(DialError::InvalidDomain),
        host@.len() == 0 ==> r is Err,
{
    if server_name_ok(host) {
        Ok(())
    } else {
        Err(DialError::InvalidDomain)
    }
}

/// A dial that has ended stays where it ended, whatever comes after.
pub proof fn lemma_dial_settled(st: DialState, outcomes: Seq<bool>)
    requires
        !(st is Pending),
    ensures
        dial_run(st, outcomes) == st,
    decreases outcomes.len(),
{
    if outcomes.len() > 0 {
        lemma_dial_settled(dial_step(st, outcomes[0]), outcomes.drop_first());
    }
}

/// A failed TCP connection fails the dial as unreachable: no later step runs
/// and no stream comes back.
pub proof fn lemma_unreachable_fails(outcomes: Seq<bool>)
    requires
        outcomes.len() > 0,
        !outcomes[0],
    ensures
        dial_run(DialState::Pending(DialStep::Connect), outcomes) == DialState::Failed(
            DialError::Unreachable,
        ),
{
    lemma_dial_settled(DialState::Failed(DialError::Unreachable), outcomes.drop_first());
}

/// The order of the steps, from the TCP connection to the handshake.
pub open spec fn step_at(i: int) -> DialStep {
    if i == 0 {
        DialStep::Connect
    } else if i == 1 {
        DialStep::Tune
    } else if i == 2 {
        DialStep::LoadCerts
    } else if i == 3 {
        DialStep::CheckName
    } else {
        DialStep::Handshake
    }
}

/// The first step to fail decides the error; a dial whose five steps all
/// succeed is connected.
pub proof fn lemma_first_failure_decides(outcomes: Seq<bool>, k: int)
    requires
        0 <= k < 5,
        k < outcomes.len(),
        !outcomes[k],
        forall|i: int| 0 <= i < k ==> outcomes[i],
    ensures
        dial_run(DialState::Pending(DialStep::Connect), outcomes) == DialState::Failed(
            step_error(step_at(k)),
        ),
{
    lemma_run_from(outcomes, 0, k);
    assert(outcomes.subrange(0, outcomes.len() as int) =~= outcomes);
}

proof fn lemma_run_from(outcomes: Seq<bool>, j: int, k: int)
    requires
        0 <= j <= k < 5,
        k < outcomes.len(),
        !outcomes[k],
        forall|i: int| 0 <= i < k ==> outcomes[i],
    ensures
        dial_run(DialState::Pending(step_at(j)), outcomes.subrange(j, outcomes.len() as int))
            == DialState::Failed(step_error(step_at(k))),
    decreases k - j,
{
    let rest = outcomes.subrange(j, outcomes.len() as int);
    assert(rest[0] == outcomes[j]);
    assert(rest.drop_first() =~= outcomes.subrange(j + 1, outcomes.len() as int));
    if j == k {
        lemma_dial_settled(DialState::Failed(step_error(step_at(k))), rest.drop_first());
    } else {
        assert(after_step(step_at(j)) == DialState::Pending(step_at(j + 1)));
        lemma_run_from(outcomes, j + 1, k);
    }
}

/// A dial whose five steps all succeed is connected.
pub proof fn lemma_all_steps_connect(outcomes: Seq<bool>)
    requires
        outcomes.len() == 5,
        forall|i: int| 0 <= i < 5 ==> outcomes[i],
    ensures
        dial_run(DialState::Pending(DialStep::Connect), outcomes) == DialState::Connected,
{
    lemma_connect_from(outcomes, 0);
    assert(outcomes.subrange(0, 5) =~= outcomes);
}

proof fn lemma_connect_from(outcomes: Seq<bool>, j: int)
    requires
        0 <= j < 5,
        outcomes.len() == 5,
        forall|i: int| 0 <= i < 5 ==> outcomes[i],
    ensures
        dial_run(DialState::Pending(step_at(j)), outcomes.subrange(j, 5)) == DialState::Connected,
    decreases 5 - j,
{
    let rest = outcomes.subrange(j, 5);
    assert(rest[0] == outcomes[j]);
    assert(rest.drop_first() =~= outcomes.subrange(j + 1, 5));
    if j == 4 {
        assert(rest.drop_first().len() == 0);
        assert(step_at(j) == DialStep::Handshake);
        assert(dial_run(DialState::Connected, rest.drop_first()) == DialState::Connected);
    } else {
        assert(after_step(step_at(j)) == DialState::Pending(step_at(j + 1)));
        lemma_connect_from(outcomes, j + 1);
    }
}

} // verus!
