use dmtrctl::registry::ClientCounter;

#[test]
fn counts_after_three_relays() {
    let mut c = ClientCounter::new();
    c.increase();
    c.increase();
    c.decrease();
    c.increase();
    c.decrease();
    c.decrease();
    assert_eq!(c.snapshot(), (0, 3));
    assert_eq!(c.current(), 0);
    assert_eq!(c.total(), 3);
}

#[test]
fn fresh_counter_is_zero() {
    let c = ClientCounter::new();
    assert_eq!(c.snapshot(), (0, 0));
    assert_eq!(c.status_text(), "total clients: 0, active clients 0");
}

#[test]
fn status_text_formats_counts() {
    let mut c = ClientCounter::new();
    for _ in 0..12 {
        c.increase();
    }
    for _ in 0..2 {
        c.decrease();
    }
    assert_eq!(c.status_text(), "total clients: 12, active clients 10");
}
