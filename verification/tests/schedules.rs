use arb_detector::schedule::{limit_message, Next, Schedule, Wakeup};

/// Runs the loop and counts its detections.
fn detections(limit: Option<u64>, wakeups: &[Wakeup]) -> u64 {
    let mut schedule = Schedule::new(limit);
    for w in wakeups {
        match schedule.woken(*w) {
            Next::Detect => {
                if schedule.detected().is_some() {
                    break;
                }
            }
            Next::Stop => break,
        }
    }
    schedule.iterations
}

#[test]
fn the_limit_is_kept() {
    assert_eq!(detections(Some(3), &[Wakeup::Tick; 10]), 3);
    assert_eq!(detections(Some(1), &[Wakeup::Tick; 10]), 1);
    assert_eq!(detections(Some(20), &[Wakeup::Tick; 10]), 10);
}

#[test]
fn without_a_limit_every_tick_counts() {
    assert_eq!(detections(None, &[Wakeup::Tick; 10]), 10);
}

#[test]
fn an_interrupt_ends_the_loop() {
    let wakeups = [Wakeup::Tick, Wakeup::Tick, Wakeup::Interrupt, Wakeup::Tick];
    assert_eq!(detections(None, &wakeups), 2);
    assert_eq!(detections(Some(5), &wakeups), 2);
    assert_eq!(detections(None, &[Wakeup::Interrupt]), 0);
}

#[test]
fn a_detection_that_reaches_the_limit_tells_it() {
    let mut schedule = Schedule::new(Some(2));
    assert_eq!(schedule.woken(Wakeup::Tick), Next::Detect);
    assert_eq!(schedule.detected(), None);
    assert_eq!(schedule.woken(Wakeup::Tick), Next::Detect);
    assert_eq!(schedule.detected(), Some(2));
    assert_eq!(schedule.woken(Wakeup::Interrupt), Next::Stop);
    assert_eq!(schedule.iterations, 2);
}

#[test]
fn the_limit_is_named_at_the_end() {
    assert_eq!(limit_message(25), "Reached MAX_ITERS (25). Exiting.");
}
