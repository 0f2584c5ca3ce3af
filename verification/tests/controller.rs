use zipf_coherence::control::{EstimatorControl, StepAction, StepEvent};

#[test]
fn accept_and_reject_move_the_damping_exponent() {
    let mut c = EstimatorControl::new();
    assert!(c.running());
    assert_eq!(c.iterations_used(), 0);
    assert_eq!(c.damping_exponent(), 0);

    assert!(matches!(c.step(StepEvent::Improved), StepAction::Accept));
    assert_eq!(c.damping_exponent(), -1);
    assert_eq!(c.iterations_used(), 1);

    assert!(matches!(c.step(StepEvent::NotImproved), StepAction::Revert));
    assert_eq!(c.damping_exponent(), 0);
    assert_eq!(c.iterations_used(), 2);

    assert!(matches!(c.step(StepEvent::Negligible), StepAction::Stop));
    assert_eq!(c.damping_exponent(), 0);
    assert_eq!(c.iterations_used(), 3);
    assert!(!c.running());
}

#[test]
fn exponent_tracks_the_tenfold_damping_factor() {
    // The damping factor starts at 0.001 and moves tenfold per decision;
    // the controller's exponent reproduces it exactly.
    let events = [
        StepEvent::Improved,
        StepEvent::Improved,
        StepEvent::NotImproved,
        StepEvent::Improved,
        StepEvent::NotImproved,
        StepEvent::NotImproved,
        StepEvent::NotImproved,
    ];
    let mut c = EstimatorControl::new();
    let mut lambda = 0.001f64;
    for e in events {
        match c.step(e) {
            StepAction::Accept => lambda /= 10.0,
            StepAction::Revert => lambda *= 10.0,
            StepAction::Stop => unreachable!(),
        }
        assert_eq!(lambda, 0.001 * 10f64.powi(c.damping_exponent()));
    }
}

#[test]
fn budget_is_one_hundred_iterations() {
    let mut c = EstimatorControl::new();
    let mut steps = 0usize;
    while c.running() {
        let a = c.step(StepEvent::NotImproved);
        assert!(matches!(a, StepAction::Revert));
        steps += 1;
        assert!(steps <= 100);
    }
    assert_eq!(steps, 100);
    assert_eq!(c.iterations_used(), 100);
    assert_eq!(c.damping_exponent(), 100);
    assert!(!c.running());
}

#[test]
fn convergence_stops_the_run_early() {
    let mut c = EstimatorControl::new();
    for _ in 0..5 {
        c.step(StepEvent::Improved);
    }
    assert!(matches!(c.step(StepEvent::Negligible), StepAction::Stop));
    assert!(!c.running());
    assert_eq!(c.iterations_used(), 6);
    assert_eq!(c.damping_exponent(), -5);
}

#[test]
fn identical_event_sequences_give_identical_runs() {
    let events = [
        StepEvent::Improved,
        StepEvent::NotImproved,
        StepEvent::Improved,
        StepEvent::Improved,
        StepEvent::NotImproved,
        StepEvent::Negligible,
    ];
    let mut first: Vec<(i32, usize, bool)> = Vec::new();
    let mut second: Vec<(i32, usize, bool)> = Vec::new();
    for out in [&mut first, &mut second] {
        let mut c = EstimatorControl::new();
        for e in events {
            c.step(e);
            out.push((c.damping_exponent(), c.iterations_used(), c.running()));
        }
    }
    assert_eq!(first, second);
}
