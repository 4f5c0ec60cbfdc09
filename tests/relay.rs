use dmtrctl::relay::{Direction, Relay, RelayError};

#[test]
fn ping_pong_relayed() {
    let mut relay = Relay::new();
    let up = relay.on_data(Direction::Upstream, b"PING".to_vec());
    assert_eq!(up, Some(b"PING".to_vec()));
    let down = relay.on_data(Direction::Downstream, b"PONG".to_vec());
    assert_eq!(down, Some(b"PONG".to_vec()));
    assert!(relay.is_running());
}

#[test]
fn bytes_forwarded_unchanged() {
    let mut relay = Relay::new();
    let all: Vec<u8> = (0..=255u8).collect();
    let mut delivered = Vec::new();
    for chunk in all.chunks(7) {
        let out = relay.on_data(Direction::Upstream, chunk.to_vec()).unwrap();
        delivered.extend_from_slice(&out);
    }
    assert_eq!(delivered, all);
    let empty = relay.on_data(Direction::Downstream, Vec::new());
    assert_eq!(empty, Some(Vec::new()));
}

#[test]
fn first_end_stops_relay() {
    let mut relay = Relay::new();
    assert_eq!(relay.on_end(Direction::Downstream, false), Some(Ok(())));
    assert!(!relay.is_running());
    assert_eq!(relay.on_data(Direction::Upstream, b"late".to_vec()), None);
    assert_eq!(relay.on_end(Direction::Upstream, false), None);
    assert_eq!(relay.on_end(Direction::Upstream, true), None);
}

#[test]
fn failed_direction_gives_relay_error() {
    let mut relay = Relay::new();
    assert_eq!(relay.on_data(Direction::Upstream, vec![1, 2, 3]), Some(vec![1, 2, 3]));
    assert_eq!(
        relay.on_end(Direction::Upstream, true),
        Some(Err(RelayError { direction: Direction::Upstream }))
    );
    assert_eq!(relay.on_data(Direction::Downstream, vec![4]), None);
}
