use uacpi::{EventCounter, MutexState, ThreadId, Timeout, WaitStep};
use uacpi::sync::wait_step;

#[test]
fn timeout_sentinel_is_infinite() {
    assert_eq!(Timeout::from_raw(0xFFFF), Timeout::Infinite);
    assert_eq!(Timeout::from_raw(0), Timeout::Millis(0));
    assert_eq!(Timeout::from_raw(0xFFFE), Timeout::Millis(0xFFFE));
    assert_eq!(Timeout::Infinite.as_raw(), 0xFFFF);
    assert_eq!(Timeout::Millis(10).as_raw(), 10);
}

#[test]
fn infinite_wait_never_times_out() {
    for elapsed in [0u64, 1, 1000, u64::MAX] {
        assert_eq!(wait_step(false, Timeout::Infinite, elapsed), WaitStep::Block);
        assert_eq!(wait_step(true, Timeout::Infinite, elapsed), WaitStep::Acquired);
    }
}

#[test]
fn zero_timeout_fails_at_once() {
    assert_eq!(wait_step(false, Timeout::from_raw(0), 0), WaitStep::TimedOut);
    assert_eq!(wait_step(true, Timeout::from_raw(0), 0), WaitStep::Acquired);
}

#[test]
fn finite_timeout_blocks_until_it_passes() {
    assert_eq!(wait_step(false, Timeout::Millis(10), 9), WaitStep::Block);
    assert_eq!(wait_step(false, Timeout::Millis(10), 10), WaitStep::TimedOut);
}

#[test]
fn event_counts_signals() {
    let mut e = EventCounter::new();
    assert!(!e.try_take());
    e.signal();
    e.signal();
    assert_eq!(e.count(), 2);
    assert!(e.try_take());
    assert_eq!(e.count(), 1);
    e.reset();
    assert_eq!(e.count(), 0);
    assert!(!e.try_take());
}

/// An event waiter driven by the decision function, with time standing still while
/// another party signals after a given number of blocks.
fn run_wait(event: &mut EventCounter, timeout: Timeout, signal_after: Option<u64>) -> (bool, u64) {
    let mut elapsed: u64 = 0;
    loop {
        match wait_step(event.count() > 0, timeout, elapsed) {
            WaitStep::Acquired => {
                assert!(event.try_take());
                return (true, elapsed);
            }
            WaitStep::TimedOut => return (false, elapsed),
            WaitStep::Block => {
                elapsed += 1;
                if signal_after == Some(elapsed) {
                    event.signal();
                }
            }
        }
    }
}

#[test]
fn infinite_wait_returns_only_when_signalled() {
    let mut e = EventCounter::new();
    assert_eq!(run_wait(&mut e, Timeout::from_raw(0xFFFF), Some(5000)), (true, 5000));
    assert_eq!(e.count(), 0);
}

#[test]
fn finite_wait_gives_up() {
    let mut e = EventCounter::new();
    assert_eq!(run_wait(&mut e, Timeout::from_raw(3), None), (false, 3));
}

#[test]
fn mutex_is_not_recursive() {
    let mut m = MutexState::new();
    let t1 = ThreadId::new(1);
    let t2 = ThreadId::new(2);
    assert!(m.try_acquire(t1));
    assert!(m.is_held());
    assert!(!m.try_acquire(t1));
    assert!(!m.try_acquire(t2));
    assert_eq!(wait_step(!m.is_held(), Timeout::from_raw(0), 0), WaitStep::TimedOut);
    m.release();
    assert!(!m.is_held());
    assert_eq!(wait_step(!m.is_held(), Timeout::from_raw(0xFFFF), 0), WaitStep::Acquired);
    assert!(m.try_acquire(t2));
}
