use dmtrctl::server::TunnelError;
use dmtrctl::dirs::Dirs;
use dmtrctl::socket_path::{check_socket_path, default_socket_path, resolve_socket_path};
use dmtrctl::text::{decimal_string, join, str_eq};

#[test]
fn derived_socket_path() {
    assert_eq!(default_socket_path("/tmp/ns", "node-1"), "/tmp/ns/node-1.socket");
    assert_eq!(default_socket_path("/tmp/ns/", "node-1"), "/tmp/ns/node-1.socket");
    assert_eq!(resolve_socket_path(None, "/run", "a"), "/run/a.socket");
}

#[test]
fn explicit_socket_path_verbatim() {
    assert_eq!(
        resolve_socket_path(Some("./my sock".to_string()), "/run", "a"),
        "./my sock"
    );
}

#[test]
fn existing_socket_path_refused() {
    assert_eq!(
        check_socket_path("/tmp/x.socket".to_string(), true),
        Err(TunnelError::PathAlreadyExists)
    );
    assert_eq!(
        check_socket_path("/tmp/x.socket".to_string(), false),
        Ok("/tmp/x.socket".to_string())
    );
}

#[test]
fn dirs_layout() {
    let d = Dirs::new("/home/u/.dmtr".to_string());
    assert_eq!(d.root_dir(), "/home/u/.dmtr");
    assert_eq!(d.tmp_dir("ns1"), "/home/u/.dmtr/tmp/ns1");
    assert_eq!(d.config_file(), "/home/u/.dmtr/config.toml");
}

#[test]
fn text_helpers() {
    assert_eq!(decimal_string(0), "0");
    assert_eq!(decimal_string(4294967295), "4294967295");
    assert!(str_eq("abc", "abc"));
    assert!(!str_eq("abc", "abd"));
    assert!(!str_eq("abc", "ab"));
    assert_eq!(join("", "x"), "x");
    assert_eq!(join("a", "x"), "a/x");
}
