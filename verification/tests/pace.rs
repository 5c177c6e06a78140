use sparrow::pollers::{
    pace_offsets, Event, PaceAction, PaceEvent, PacePoller, PaceStep, SAMPLE_PERIOD_MICROS,
};
use sparrow::hdmem::MemError;

fn feed(p: &mut PacePoller, ev: PaceEvent) -> (Option<Event>, PaceAction) {
    match p.step(ev) {
        PaceStep::Continue { emit, action } => (emit, action),
        PaceStep::Failed(e) => panic!("poller failed unexpectedly: {:?}", e),
    }
}

/// The pace chain starts at the module base, takes the fixed root offset,
/// and dereferences three times.
#[test]
fn pace_chain_offsets() {
    assert_eq!(pace_offsets(0x40_0000), vec![0x40_0000, 0x385790, 0x00, 0x78, 0xb8]);
}

#[test]
fn sampling_cadence_is_about_120hz() {
    assert_eq!(SAMPLE_PERIOD_MICROS, 8333);
}

/// Discovery tolerates the structure not existing: any number of "not
/// found" outcomes emits nothing, fails nothing, and just retries.
#[test]
fn discovery_retries_on_not_found() {
    let mut p = PacePoller::new(0x40_0000);
    assert_eq!(p.first_action(), PaceAction::ResolveChain);
    for _ in 0..100 {
        let (emit, action) = feed(&mut p, PaceEvent::Chain(None));
        assert_eq!(emit, None);
        assert_eq!(action, PaceAction::ResolveChain);
    }
}

/// A resolved chain fixes the record address (resolved + 0x228) and the
/// first sampling action reads the length field at +0x18 from it.
#[test]
fn discovery_resolves_to_sampling() {
    let mut p = PacePoller::new(0x40_0000);
    let (emit, action) = feed(&mut p, PaceEvent::Chain(Some(0x9000)));
    assert_eq!(emit, None);
    assert_eq!(action, PaceAction::ReadLen(0x9000 + 0x228 + 0x18));
}

/// The change-detection scenario: lengths 0, 3, 3, 5 produce exactly two
/// payload events — one for the transition to 3 and one for the
/// transition to 5.
#[test]
fn length_changes_emit_exactly_twice() {
    let mut p = PacePoller::new(0x40_0000);
    feed(&mut p, PaceEvent::Chain(Some(0x9000)));
    let record = 0x9000 + 0x228;
    let mut payloads = Vec::new();

    // length 0: unchanged from the fresh poller's empty sample
    let (emit, action) = feed(&mut p, PaceEvent::Len(0));
    assert_eq!(emit, None);
    assert_eq!(action, PaceAction::Sleep);
    feed(&mut p, PaceEvent::Slept);

    // length 3: changed; the element base is read, then 3 elements
    let (emit, action) = feed(&mut p, PaceEvent::Len(3));
    assert_eq!(emit, None);
    assert_eq!(action, PaceAction::ReadAddr(record));
    let (emit, action) = feed(&mut p, PaceEvent::Addr(0xaa00));
    assert_eq!(emit, None);
    assert_eq!(action, PaceAction::ReadData { addr: 0xaa00, len: 3 });
    let (emit, action) = feed(&mut p, PaceEvent::Data(vec![10, 20, 30]));
    assert_eq!(action, PaceAction::Sleep);
    if let Some(e) = emit {
        payloads.push(e);
    }
    feed(&mut p, PaceEvent::Slept);

    // length 3 again: unchanged, zero additional payload events
    let (emit, action) = feed(&mut p, PaceEvent::Len(3));
    assert_eq!(emit, None);
    assert_eq!(action, PaceAction::Sleep);
    feed(&mut p, PaceEvent::Slept);

    // length 5: changed again
    let (emit, action) = feed(&mut p, PaceEvent::Len(5));
    assert_eq!(emit, None);
    assert_eq!(action, PaceAction::ReadAddr(record));
    let (emit, action) = feed(&mut p, PaceEvent::Addr(0xbb00));
    assert_eq!(emit, None);
    assert_eq!(action, PaceAction::ReadData { addr: 0xbb00, len: 5 });
    let (emit, action) = feed(&mut p, PaceEvent::Data(vec![1, 2, 3, 4, 5]));
    assert_eq!(action, PaceAction::Sleep);
    if let Some(e) = emit {
        payloads.push(e);
    }

    assert_eq!(
        payloads,
        vec![Event::Pace(vec![10, 20, 30]), Event::Pace(vec![1, 2, 3, 4, 5])]
    );
}

/// Re-reading an unchanged length any number of times emits nothing.
#[test]
fn unchanged_length_is_idempotent() {
    let mut p = PacePoller::new(0x40_0000);
    feed(&mut p, PaceEvent::Chain(Some(0x9000)));
    feed(&mut p, PaceEvent::Len(4));
    feed(&mut p, PaceEvent::Addr(0xcc00));
    let (emit, _) = feed(&mut p, PaceEvent::Data(vec![7, 7, 7, 7]));
    assert!(matches!(emit, Some(Event::Pace(_))));
    for _ in 0..50 {
        feed(&mut p, PaceEvent::Slept);
        let (emit, action) = feed(&mut p, PaceEvent::Len(4));
        assert_eq!(emit, None);
        assert_eq!(action, PaceAction::Sleep);
    }
}

/// A read failure in either phase is the poller's terminal outcome,
/// surfaced immediately and unchanged.
#[test]
fn read_failure_terminates_poller() {
    let mut p = PacePoller::new(0x40_0000);
    let r = p.step(PaceEvent::ReadFailed(MemError::ReadFailure));
    assert_eq!(r, PaceStep::Failed(MemError::ReadFailure));

    let mut q = PacePoller::new(0x40_0000);
    feed(&mut q, PaceEvent::Chain(Some(0x9000)));
    let r = q.step(PaceEvent::ReadFailed(MemError::ReadFailure));
    assert_eq!(r, PaceStep::Failed(MemError::ReadFailure));
}
