use net_mux::flow::window::{AcquireOutcome, RecvWindow, SendWindow};

#[test]
fn recv_window_threshold() {
    let mut w = RecvWindow::new(100);
    assert_eq!(w.on_consume(10), None);
    assert_eq!(w.on_consume(10), None);
    // 20 + 30 = 50 >= 50 (threshold)
    assert_eq!(w.on_consume(30), Some(50));
    // counter reset
    assert_eq!(w.on_consume(10), None);
}

#[test]
fn recv_window_zero_bytes_noop() {
    let mut w = RecvWindow::new(100);
    assert_eq!(w.on_consume(0), None);
}

#[test]
fn send_window_basic() {
    let mut w = SendWindow::new(100);
    assert_eq!(w.poll_acquire(30), AcquireOutcome::Acquired(30));
    assert_eq!(w.poll_acquire(200), AcquireOutcome::Acquired(70));
}

#[test]
fn send_window_pending_then_grant() {
    let mut w = SendWindow::new(0);
    assert_eq!(w.poll_acquire(16), AcquireOutcome::Pending);
    assert!(w.grant(8));
    assert_eq!(w.poll_acquire(16), AcquireOutcome::Acquired(8));
}

#[test]
fn send_window_close_wakes() {
    let mut w = SendWindow::new(0);
    assert_eq!(w.poll_acquire(16), AcquireOutcome::Pending);
    w.close();
    assert_eq!(w.poll_acquire(16), AcquireOutcome::Closed);
}

#[test]
fn send_window_grant_saturates() {
    let mut w = SendWindow::new(u32::MAX - 5);
    assert!(w.grant(100));
    assert_eq!(w.available(), u32::MAX);
    assert!(!w.grant(0));
}

#[test]
fn send_window_credit_is_conserved() {
    let mut w = SendWindow::new(50);
    let mut got = 0u32;
    while let AcquireOutcome::Acquired(n) = w.poll_acquire(7) {
        got += n;
    }
    assert_eq!(got, 50);
    assert_eq!(w.available(), 0);
}

#[test]
fn recv_window_small_initial_threshold_is_one() {
    let mut w = RecvWindow::new(1);
    assert_eq!(w.on_consume(1), Some(1));
    assert_eq!(w.pending(), 0);
}

#[test]
fn recv_window_returns_everything_consumed() {
    let mut w = RecvWindow::new(64);
    let mut returned = 0u32;
    for _ in 0..10 {
        if let Some(d) = w.on_consume(7) {
            returned += d;
        }
    }
    assert_eq!(returned + w.pending(), 70);
}

#[test]
fn recv_window_tally_saturates() {
    let mut w = RecvWindow::new(u32::MAX);
    assert_eq!(w.on_consume(u32::MAX / 2 - 1), None);
    assert_eq!(w.on_consume(u32::MAX), Some(u32::MAX));
    assert_eq!(w.pending(), 0);
}
