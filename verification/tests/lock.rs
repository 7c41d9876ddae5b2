use lockctl::board::Button;
use lockctl::board::Led;
use lockctl::line::UnconfiguredLine;
use lockctl::lock::Lock;
use lockctl::lock::LockTag;

#[test]
fn lock_starts_locked() {
    let lock = Lock::new(UnconfiguredLine { pad: 31 });
    assert_eq!(lock.current_tag(), LockTag::Locked);
    assert!(lock.is_locked());
    assert!(!lock.is_open());
}

#[test]
fn lock_sequence_follows_last_request() {
    // The tag after any sequence of requests is decided by the last request.
    let mut lock = Lock::new(UnconfiguredLine { pad: 31 });
    lock.open();
    assert_eq!(lock.current_tag(), LockTag::Open);
    lock.open();
    lock.lock();
    lock.open();
    lock.lock();
    lock.lock();
    assert_eq!(lock.current_tag(), LockTag::Locked);
    lock.lock();
    lock.open();
    assert_eq!(lock.current_tag(), LockTag::Open);
}

#[test]
fn lock_transitions_are_idempotent() {
    let mut lock = Lock::new(UnconfiguredLine { pad: 31 });
    lock.open();
    let after_first = lock;
    lock.open();
    assert_eq!(lock, after_first);
    lock.lock();
    let after_lock = lock;
    lock.lock();
    assert_eq!(lock, after_lock);
}

#[test]
fn lock_modes_are_mutually_exclusive() {
    let mut lock = Lock::new(UnconfiguredLine { pad: 31 });
    for _ in 0..4 {
        assert!(lock.is_locked() != lock.is_open());
        lock.open();
        assert!(lock.is_locked() != lock.is_open());
        lock.lock();
    }
}

#[test]
fn lock_open_drives_low_and_keeps_pad() {
    let mut lock = Lock::new(UnconfiguredLine { pad: 31 });
    lock.open();
    match lock {
        Lock::Open(line) => {
            assert_eq!(line.pad, 31);
            assert_eq!(line.level, false);
        },
        Lock::Locked(_) => panic!("lock did not open"),
    }
    lock.lock();
    match lock {
        Lock::Locked(line) => assert_eq!(line.pad, 31),
        Lock::Open(_) => panic!("lock did not close"),
    }
}

#[test]
fn led_enable_is_inverted() {
    let mut led = Led::new(UnconfiguredLine { pad: 6 });
    // Fresh LED is dark: the line idles at logic high.
    assert_eq!(led.line.level, true);
    led.enable();
    // Enabled means illuminated, which means logic low.
    assert_eq!(led.line.level, false);
    led.disable();
    assert_eq!(led.line.level, true);
    assert_eq!(led.line.pad, 6);
}

#[test]
fn button_sample_levels() {
    let pressed = Button::new(UnconfiguredLine { pad: 38 }, false);
    assert!(pressed.is_pressed());
    assert!(!pressed.is_released());
    let released = Button::new(UnconfiguredLine { pad: 38 }, true);
    assert!(!released.is_pressed());
    assert!(released.is_released());
    assert_eq!(released.line.pad, 38);
}
