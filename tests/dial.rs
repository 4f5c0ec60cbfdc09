use dmtrctl::dial::{
    advance, check_server_name, define_remote_host, define_remote_port, node_port_hostname,
    remote_address, DialError, DialState, DialStep, DEFAULT_REMOTE_PORT,
};

#[test]
fn unreachable_host_fails_dial() {
    assert_eq!(advance(DialStep::Connect, false), DialState::Failed(DialError::Unreachable));
}

#[test]
fn each_step_has_its_error() {
    assert_eq!(advance(DialStep::Tune, false), DialState::Failed(DialError::SocketTuning));
    assert_eq!(advance(DialStep::LoadCerts, false), DialState::Failed(DialError::CertLoad));
    assert_eq!(advance(DialStep::CheckName, false), DialState::Failed(DialError::InvalidDomain));
    assert_eq!(advance(DialStep::Handshake, false), DialState::Failed(DialError::TlsHandshake));
}

#[test]
fn steps_run_in_order() {
    let mut st = DialState::Pending(DialStep::Connect);
    let mut seen = Vec::new();
    while let DialState::Pending(step) = st {
        seen.push(step);
        st = advance(step, true);
    }
    assert_eq!(st, DialState::Connected);
    assert_eq!(
        seen,
        vec![
            DialStep::Connect,
            DialStep::Tune,
            DialStep::LoadCerts,
            DialStep::CheckName,
            DialStep::Handshake
        ]
    );
}

#[test]
fn server_names() {
    assert_eq!(check_server_name("abc123.cnode-m1.demeter.run"), Ok(()));
    assert_eq!(check_server_name("127.0.0.1"), Ok(()));
    assert_eq!(check_server_name(""), Err(DialError::InvalidDomain));
    assert_eq!(check_server_name("not a host"), Err(DialError::InvalidDomain));
}

#[test]
fn default_port() {
    assert_eq!(DEFAULT_REMOTE_PORT, 9443);
    assert_eq!(define_remote_port(None), 9443);
    assert_eq!(define_remote_port(Some(443)), 443);
}

#[test]
fn remote_hosts() {
    assert_eq!(
        define_remote_host(None, "preview-1", "acme", "us1.demeter.run"),
        "cardanonode-preview-1-n2c-acme.us1.demeter.run"
    );
    assert_eq!(
        define_remote_host(Some("node.example.com".to_string()), "x", "y", "z"),
        "node.example.com"
    );
    assert_eq!(node_port_hostname("tok3n"), "tok3n.cnode-m1.demeter.run");
}

#[test]
fn addresses() {
    assert_eq!(remote_address("example.com", 9443), "example.com:9443");
    assert_eq!(remote_address("h", 0), "h:0");
    assert_eq!(remote_address("h", 65535), "h:65535");
}
