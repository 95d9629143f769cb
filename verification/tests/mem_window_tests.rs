use microbench::mem_window::MemWindow;

#[test]
fn reset_read_round_trip() {
    let mut w = MemWindow::new();
    w.record_alloc(4096);
    w.reset();
    assert_eq!(w.read_peak(), 0);
}

#[test]
fn alloc_raises_peak() {
    let mut w = MemWindow::new();
    w.reset();
    w.record_alloc(1234);
    assert!(w.read_peak() >= 1234);
    assert_eq!(w.read_peak(), 1234);
}

#[test]
fn dealloc_keeps_peak() {
    let mut w = MemWindow::new();
    w.record_alloc(100);
    w.record_alloc(50);
    w.record_dealloc(120);
    assert_eq!(w.read_peak(), 150);
    assert_eq!(w.current, 30);
}

#[test]
fn peak_is_maximum_of_current() {
    let mut w = MemWindow::new();
    w.record_alloc(100);
    w.record_dealloc(100);
    w.record_alloc(60);
    assert_eq!(w.read_peak(), 100);
    assert_eq!(w.current, 60);
}

#[test]
fn dealloc_saturates_at_zero() {
    let mut w = MemWindow::new();
    w.record_alloc(10);
    w.record_dealloc(25);
    assert_eq!(w.current, 0);
    assert_eq!(w.read_peak(), 10);
}
