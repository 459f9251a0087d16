use rwr::fence::Fence;

#[test]
fn fence_starts_above_completed() {
    let f = Fence::new();
    assert_eq!(f.value, 1);
    assert_eq!(f.completed, 0);
}

#[test]
fn checkpoints_increase_by_exactly_one() {
    let mut f = Fence::new();
    let mut previous = f.value;
    for _ in 0..10 {
        let next = f.signal_and_wait();
        assert_eq!(next, previous + 1);
        previous = next;
    }
}

#[test]
fn wait_observes_signaled_value() {
    let mut f = Fence::new();
    for _ in 0..5 {
        let signaled = f.value;
        let _ = f.signal_and_wait();
        // The wait does not return before the completed value reaches the
        // value that was signaled.
        assert!(f.completed >= signaled);
    }
}
