use lockctl::control::ControlLoop;
use lockctl::decoder::SentenceDecoder;
use lockctl::decoder::SentenceKind;
use lockctl::line::UnconfiguredLine;
use lockctl::lock::Lock;
use lockctl::lock::LockTag;

const GGA_WITH_FIX: &[u8] =
    b"$GPGGA,145659.00,5956.695396,N,03022.454999,E,2,07,0.6,9.0,M,18.0,M,,*62\r\n";

fn fresh_loop() -> ControlLoop {
    ControlLoop::new(Lock::new(UnconfiguredLine { pad: 31 }), SentenceDecoder::new())
}

#[test]
fn press_hold_release_scenario() {
    // Pressed for 3 consecutive iterations, then released: the lock opens
    // on iteration 1, stays open untouched on iterations 2 and 3, and
    // closes on iteration 4.
    let mut cl = fresh_loop();
    cl.step(true, None);
    assert_eq!(cl.lock.current_tag(), LockTag::Open);
    let after_first = cl.lock;
    cl.step(true, None);
    assert_eq!(cl.lock, after_first);
    cl.step(true, None);
    assert_eq!(cl.lock, after_first);
    cl.step(false, None);
    assert_eq!(cl.lock.current_tag(), LockTag::Locked);
}

#[test]
fn lock_state_follows_most_recent_sample() {
    // Level-driven convergence over an arbitrary interleaving of samples.
    let samples = [true, false, true, true, false, false, true];
    let mut cl = fresh_loop();
    for pressed in samples {
        cl.step(pressed, None);
        assert_eq!(cl.lock.is_open(), pressed);
        assert_eq!(cl.lock.is_locked(), !pressed);
    }
}

#[test]
fn step_drains_received_bytes() {
    let mut cl = fresh_loop();
    let events = cl.step(true, Some(GGA_WITH_FIX));
    assert_eq!(events.len(), 1);
    assert_eq!(events[0].kind(), SentenceKind::PositionalFix);
    assert_eq!(cl.lock.current_tag(), LockTag::Open);
}

#[test]
fn serial_error_keeps_decoder_accumulation() {
    // A serial fault between two deliveries discards nothing already
    // accumulated: a sentence split across the fault still completes.
    let mut cl = fresh_loop();
    let first = cl.step(false, Some(&GGA_WITH_FIX[..30]));
    assert!(first.is_empty());
    let during_fault = cl.step(true, None);
    assert!(during_fault.is_empty());
    let rest = cl.step(false, Some(&GGA_WITH_FIX[30..]));
    assert_eq!(rest.len(), 1);
    assert_eq!(rest[0].kind(), SentenceKind::PositionalFix);
    assert_eq!(cl.lock.current_tag(), LockTag::Locked);
}

#[test]
fn lock_decision_is_independent_of_parsing() {
    // No data flows from parsing back into locking: the commanded state
    // depends on the sample alone, whatever the serial link delivered.
    let mut with_bytes = fresh_loop();
    let mut without_bytes = fresh_loop();
    with_bytes.step(true, Some(GGA_WITH_FIX));
    without_bytes.step(true, None);
    assert_eq!(with_bytes.lock, without_bytes.lock);
}
