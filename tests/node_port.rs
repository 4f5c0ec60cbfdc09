use dmtrctl::node_port::{define_port, node_port_host, PortChoice, PortError, Resource};

fn res(kind: &str, name: &str, spec: &str) -> Resource {
    Resource {
        id: format!("id-{name}"),
        kind: kind.to_string(),
        name: name.to_string(),
        spec: spec.to_string(),
    }
}

fn sample() -> Vec<Resource> {
    vec![
        res("KupoPort", "kupo-1", "{}"),
        res("CardanoNodePort", "node-a", r#"{"network":"mainnet","authToken":"tokA"}"#),
        res("CardanoNodePort", "node-b", r#"{"authToken":"tokB"}"#),
        res("CardanoNodePort", "node-a", "{}"),
    ]
}

#[test]
fn no_resources_no_ports() {
    assert_eq!(define_port(&Vec::new(), None), Err(PortError::NoNodePorts));
    assert_eq!(define_port(&vec![res("KupoPort", "k", "{}")], Some("k")), Err(PortError::NoNodePorts));
}

#[test]
fn port_by_name_is_first_match() {
    assert_eq!(define_port(&sample(), Some("node-a")), Ok(PortChoice::Chosen(1)));
    assert_eq!(define_port(&sample(), Some("node-b")), Ok(PortChoice::Chosen(2)));
    assert_eq!(define_port(&sample(), Some("kupo-1")), Err(PortError::PortNotFound));
}

#[test]
fn port_prompt_lists_node_ports() {
    assert_eq!(define_port(&sample(), None), Ok(PortChoice::Prompt(vec![1, 2, 3])));
}

#[test]
fn port_host_from_token() {
    assert_eq!(
        node_port_host(r#"{"authToken":"abc"}"#),
        Ok("abc.cnode-m1.demeter.run".to_string())
    );
    assert_eq!(node_port_host(r#"{"authToken":7}"#), Err(PortError::MissingAuthToken));
    assert_eq!(node_port_host("not json"), Err(PortError::MissingAuthToken));
    assert_eq!(node_port_host("{}"), Err(PortError::MissingAuthToken));
}

#[test]
fn port_labels() {
    let rs = sample();
    assert_eq!(rs[1].label(), "CardanoNodePort: node-a - mainnet");
    assert_eq!(rs[2].label(), "CardanoNodePort: node-b - unknown");
}
