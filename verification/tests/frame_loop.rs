use halcore::driver::{
    execute_frame_plan, AcquireOutcome, FrameDriver, FrameOp, FrameRing, PresentOutcome,
};
use halcore::ring::{slot_of, FRAMES_IN_FLIGHT};

/// Drive one full acquire-submit-present cycle with the given present
/// outcome, checking the plan along the way.
fn run_cycle(driver: &mut FrameDriver, ring: &mut FrameRing, outcome: PresentOutcome) {
    let slot = slot_of(driver.frame_counter);
    let plan = driver.on_acquire(AcquireOutcome::Acquired).unwrap();
    assert_eq!(
        plan,
        vec![
            FrameOp::WaitFence { slot },
            FrameOp::ResetFence { slot },
            FrameOp::ResetPool { slot },
            FrameOp::RecordCommands { slot },
            FrameOp::SubmitCommands { slot },
            FrameOp::PresentImage { slot },
        ]
    );
    execute_frame_plan(ring, &plan, slot);
    driver.on_present(outcome);
}

#[test]
fn slots_cycle_through_the_ring() {
    assert_eq!(FRAMES_IN_FLIGHT, 3);
    let expected: Vec<usize> = vec![0, 1, 2, 0, 1, 2, 0];
    for (counter, want) in expected.into_iter().enumerate() {
        assert_eq!(slot_of(counter as u64), want);
    }
    // Across any window of three consecutive frames each slot appears once.
    for base in 0u64..8 {
        let mut seen = [false; 3];
        for i in 0..3 {
            seen[slot_of(base + i)] = true;
        }
        assert_eq!(seen, [true, true, true]);
    }
}

#[test]
fn completed_cycles_advance_the_counter_by_one() {
    let mut driver = FrameDriver::new();
    let mut ring = FrameRing::new();
    assert_eq!(driver.frame_counter, 0);
    for expected in 1u64..=4 {
        run_cycle(&mut driver, &mut ring, PresentOutcome::Presented);
        assert_eq!(driver.frame_counter, expected);
        assert!(!driver.needs_recreate);
    }
}

#[test]
fn acquire_failure_aborts_frame_without_advancing() {
    // Scenario: acquire fails on frame 5.
    let mut driver = FrameDriver::new();
    let mut ring = FrameRing::new();
    for _ in 0..5 {
        run_cycle(&mut driver, &mut ring, PresentOutcome::Presented);
    }
    assert_eq!(driver.frame_counter, 5);

    let plan = driver.on_acquire(AcquireOutcome::Failed);
    assert!(plan.is_none());
    assert_eq!(driver.frame_counter, 5);
    assert!(driver.needs_recreate);

    // The host reconfigures the swapchain once, then the next iteration's
    // acquire is retried from scratch.
    driver.on_recreate(true);
    assert!(!driver.needs_recreate);
    run_cycle(&mut driver, &mut ring, PresentOutcome::Presented);
    assert_eq!(driver.frame_counter, 6);
}

#[test]
fn suboptimal_present_advances_and_schedules_recreation() {
    // Scenario: present reports "suboptimal" on frame 10.
    let mut driver = FrameDriver::new();
    let mut ring = FrameRing::new();
    for _ in 0..10 {
        run_cycle(&mut driver, &mut ring, PresentOutcome::Presented);
    }
    assert_eq!(driver.frame_counter, 10);

    // The frame's commands were submitted, so the counter advances to 11,
    // and recreation is scheduled before frame 11's acquire.
    run_cycle(&mut driver, &mut ring, PresentOutcome::Suboptimal);
    assert_eq!(driver.frame_counter, 11);
    assert!(driver.needs_recreate);
    driver.on_recreate(true);
    assert!(!driver.needs_recreate);
}

#[test]
fn failed_present_advances_and_schedules_recreation() {
    let mut driver = FrameDriver::new();
    let mut ring = FrameRing::new();
    run_cycle(&mut driver, &mut ring, PresentOutcome::Failed);
    assert_eq!(driver.frame_counter, 1);
    assert!(driver.needs_recreate);
}

#[test]
fn failed_recreation_is_retried() {
    // A zero-area window keeps the configure attempt failing; recreation
    // stays pending until one succeeds.
    let mut driver = FrameDriver::new();
    driver.on_acquire(AcquireOutcome::Failed);
    assert!(driver.needs_recreate);
    driver.on_recreate(false);
    assert!(driver.needs_recreate);
    driver.on_recreate(false);
    assert!(driver.needs_recreate);
    driver.on_recreate(true);
    assert!(!driver.needs_recreate);
}

#[test]
fn fresh_ring_has_no_pending_slot_and_submission_marks_one() {
    let ring = FrameRing::new();
    assert_eq!(ring.pending, vec![false, false, false]);

    let mut driver = FrameDriver::new();
    let mut ring = FrameRing::new();
    let plan = driver.on_acquire(AcquireOutcome::Acquired).unwrap();
    execute_frame_plan(&mut ring, &plan, 0);
    // Slot 0 now carries the in-flight submission; the others are untouched.
    assert_eq!(ring.pending, vec![true, false, false]);
    driver.on_present(PresentOutcome::Presented);

    // The next frame runs on slot 1; slot 0 stays pending until its own
    // fence is waited on two frames later.
    let plan = driver.on_acquire(AcquireOutcome::Acquired).unwrap();
    execute_frame_plan(&mut ring, &plan, 1);
    assert_eq!(ring.pending, vec![true, true, false]);
}

#[test]
fn counter_wraps_at_integer_width() {
    let mut driver = FrameDriver {
        frame_counter: u64::MAX,
        in_frame: true,
        needs_recreate: false,
    };
    driver.on_present(PresentOutcome::Presented);
    assert_eq!(driver.frame_counter, 0);
}
