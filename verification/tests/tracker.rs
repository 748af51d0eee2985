use mousestick::samples::MouseSampleQueue;

// Window eviction keeps exactly the samples aged at most the window: at
// time 30000 with a 20000 microsecond window, a sample from time 0 goes,
// one aged exactly the window stays.
#[test]
fn eviction_trims_exactly_the_stale_prefix() {
    let mut q = MouseSampleQueue::new();
    q.record(1, 0, 0);
    q.record(2, 0, 10000);
    q.record(3, 0, 25000);
    q.evict(30000, 20000);
    assert_eq!(q.len(), 2);
    q.evict(30001, 20000);
    assert_eq!(q.len(), 1);
}

#[test]
fn eviction_of_empty_buffer_is_a_no_op() {
    let mut q = MouseSampleQueue::new();
    q.evict(1000, 20);
    assert_eq!(q.len(), 0);
}

// The velocity numerator is the exact windowed sum times sensitivity
// times 100 (denominator: window_us * 32768).
#[test]
fn velocity_is_exact_sum_times_sensitivity() {
    let mut q = MouseSampleQueue::new();
    q.record(3, -2, 1000);
    let (vx, vy) = q.velocity(1000, 20000, 163840);
    assert_eq!(vx, 3 * 163840 * 100);
    assert_eq!(vy, -2 * 163840 * 100);
}

// Velocity scaling is linear: doubling the sensitivity doubles the
// velocity for a fixed window and sample set.
#[test]
fn velocity_doubles_with_sensitivity() {
    let mut q1 = MouseSampleQueue::new();
    let mut q2 = MouseSampleQueue::new();
    for t in 0..5u64 {
        q1.record(7, -3, t * 100);
        q2.record(7, -3, t * 100);
    }
    let (ax, ay) = q1.velocity(500, 20000, 81920);
    let (bx, by) = q2.velocity(500, 20000, 163840);
    assert_eq!(bx, 2 * ax);
    assert_eq!(by, 2 * ay);
}

// Velocity only sums what survives the window.
#[test]
fn velocity_ignores_evicted_samples() {
    let mut q = MouseSampleQueue::new();
    q.record(100, 100, 0);
    q.record(5, -5, 50000);
    let (vx, vy) = q.velocity(60000, 20000, 32768);
    assert_eq!(vx, 5 * 32768 * 100);
    assert_eq!(vy, -5 * 32768 * 100);
    assert_eq!(q.len(), 1);
}
