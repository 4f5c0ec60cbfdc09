use dmtrctl::api::{
    build_agent_header, build_api_url, get_instance_parts, parse_project_ref, KnownField,
    OutputFormat, UnknownField,
};
use dmtrctl::context::{
    extract_context_data, infer_context, Auth, Cli, Cloud, Context, ContextError, ContextSource,
    Namespace, Operator,
};
use dmtrctl::dirs::Dirs;

#[test]
fn ephemeral_context() {
    let c = Context::ephemeral("ns", "key");
    assert_eq!(c.namespace.name, "ns");
    assert_eq!(c.namespace.caption, None);
    assert_eq!(c.auth.name, "default");
    assert_eq!(c.auth.method, "ApiKey");
    assert_eq!(c.auth.token, "key");
}

#[test]
fn constructors() {
    let n = Namespace::new("a", Some("b".to_string()));
    assert_eq!(n.name, "a");
    assert_eq!(n.caption.as_deref(), Some("b"));
    let a = Auth::api_key("t");
    assert_eq!(a.token, "t");
    assert_eq!(Cloud::default().name, "cloud0.txpipe.io");
    let o = Operator::default();
    assert_eq!(o.name, "TxPipe");
    assert_eq!(o.entrypoint, "us1.demeter.run");
    let p = parse_project_ref("1".to_string(), "ns".to_string(), "n".to_string());
    assert_eq!((p.id.as_str(), p.namespace.as_str(), p.name.as_str()), ("1", "ns", "n"));
}

#[test]
fn context_inference() {
    assert!(matches!(infer_context(Some("c"), None, None), Ok(ContextSource::ByName(n)) if n == "c"));
    assert!(matches!(infer_context(Some("c"), Some("n"), Some("k")), Ok(ContextSource::ByName(_))));
    match infer_context(None, Some("n"), Some("k")) {
        Ok(ContextSource::Ephemeral(c)) => {
            assert_eq!(c.namespace.name, "n");
            assert_eq!(c.auth.token, "k");
        }
        _ => panic!("expected an ephemeral context"),
    }
    assert!(matches!(infer_context(None, None, Some("k")), Err(ContextError::MissingNamespace)));
    assert!(matches!(infer_context(None, Some("n"), None), Err(ContextError::MissingApiKey)));
    assert!(matches!(infer_context(None, None, None), Ok(ContextSource::Default)));
}

#[test]
fn context_data() {
    let cli = Cli { dirs: Dirs::new("/r".to_string()), context: Some(Context::ephemeral("ns", "k")) };
    let (key, ns, url) = extract_context_data(&cli, "https://console.us1.demeter.run");
    assert_eq!(key, "k");
    assert_eq!(ns, "ns");
    assert_eq!(url, "https://console.us1.demeter.run/mgmt/project");
}

#[test]
fn api_strings() {
    assert_eq!(build_agent_header(), "dmtr-cli/0.1.0");
    assert_eq!(build_api_url("https://x"), "https://x/mgmt/account");
}

#[test]
fn instance_parts() {
    assert_eq!(
        get_instance_parts("kupo/mainnet-222222"),
        ("kupo".to_string(), "mainnet-222222".to_string())
    );
    assert_eq!(get_instance_parts("a/b/c"), ("a".to_string(), "b".to_string()));
    assert_eq!(get_instance_parts("/x"), ("".to_string(), "x".to_string()));
}

#[test]
fn known_fields() {
    assert_eq!(KnownField::from_str("network"), Ok(KnownField::Network));
    assert_eq!(KnownField::from_str("operatorVersion"), Ok(KnownField::OperatorVersion));
    assert_eq!(KnownField::from_str("Network"), Err(UnknownField));
    assert_eq!(OutputFormat::default(), OutputFormat::Table);
}
