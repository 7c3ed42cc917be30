use yasb_core::debounce::Debouncer;
use yasb_core::events::{classify, ChangeKind, RawEventKind};

#[test]
fn classify_narrows_raw_kinds() {
    assert_eq!(classify(RawEventKind::Write), Some(ChangeKind::Written));
    assert_eq!(classify(RawEventKind::Remove), Some(ChangeKind::Removed));
    assert_eq!(classify(RawEventKind::Create), None);
    assert_eq!(classify(RawEventKind::Rename), None);
    assert_eq!(classify(RawEventKind::Chmod), None);
    assert_eq!(classify(RawEventKind::Rescan), None);
    assert_eq!(classify(RawEventKind::Other), None);
}

#[test]
fn rapid_writes_collapse_into_one_event() {
    let mut d = Debouncer::new(200);
    d.observe(0, RawEventKind::Write);
    d.observe(50, RawEventKind::Write);
    d.observe(100, RawEventKind::Write);
    // Not yet settled: the last write pushed the deadline to 300.
    assert_eq!(d.poll(150), None);
    assert_eq!(d.poll(299), None);
    // Exactly one logical event is delivered once the window has passed.
    assert_eq!(d.poll(300), Some(ChangeKind::Written));
    assert_eq!(d.poll(301), None);
    assert_eq!(d.poll(10_000), None);
}

#[test]
fn last_kind_of_the_burst_wins() {
    let mut d = Debouncer::new(100);
    d.observe(0, RawEventKind::Write);
    d.observe(10, RawEventKind::Write);
    d.observe(20, RawEventKind::Remove);
    assert_eq!(d.poll(120), Some(ChangeKind::Removed));
    assert_eq!(d.poll(121), None);
}

#[test]
fn insignificant_kinds_do_not_wake_the_debouncer() {
    let mut d = Debouncer::new(100);
    d.observe(0, RawEventKind::Chmod);
    d.observe(10, RawEventKind::Rescan);
    d.observe(20, RawEventKind::Rename);
    assert_eq!(d.poll(500), None);
}

#[test]
fn separate_bursts_deliver_separate_events() {
    let mut d = Debouncer::new(100);
    d.observe(0, RawEventKind::Write);
    assert_eq!(d.poll(100), Some(ChangeKind::Written));
    d.observe(300, RawEventKind::Remove);
    assert_eq!(d.poll(350), None);
    assert_eq!(d.poll(400), Some(ChangeKind::Removed));
    assert_eq!(d.poll(401), None);
}
