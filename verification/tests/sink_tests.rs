use builder_monitor::sink::BoundedLog;

#[test]
fn capacity_three_keeps_last_three() {
    let mut log = BoundedLog::new(3);
    log.record("a".to_string());
    log.record("b".to_string());
    log.record("c".to_string());
    log.record("d".to_string());
    assert_eq!(log.entries().as_slice(), ["b", "c", "d"]);
    assert_eq!(log.len(), 3);
}

#[test]
fn length_never_exceeds_capacity() {
    let mut log = BoundedLog::new(2);
    for i in 0..5 {
        log.record(format!("line {}", i));
        assert!(log.len() <= 2);
    }
    assert_eq!(log.entries().as_slice(), ["line 3", "line 4"]);
}

#[test]
fn under_capacity_keeps_everything_in_order() {
    let mut log = BoundedLog::new(10);
    log.record("first".to_string());
    log.record("second".to_string());
    assert_eq!(log.entries().as_slice(), ["first", "second"]);
}

#[test]
fn set_capacity_does_not_truncate_retroactively() {
    let mut log = BoundedLog::new(3);
    log.record("a".to_string());
    log.record("b".to_string());
    log.record("c".to_string());
    log.set_capacity(1);
    assert_eq!(log.len(), 3);
    assert_eq!(log.capacity(), 1);
    log.record("d".to_string());
    assert_eq!(log.entries().as_slice(), ["d"]);
}

#[test]
fn zero_capacity_retains_nothing() {
    let mut log = BoundedLog::new(0);
    log.record("a".to_string());
    assert_eq!(log.len(), 0);
}
