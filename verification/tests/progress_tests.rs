use cpx::progress::Phase;
use cpx::progress::ProgressState;
use cpx::progress::percent_hundredths;

#[test]
fn deltas_sum_to_final_current() {
    let mut p = ProgressState::new();
    p.init(100);
    let mut handed_out = 0u64;
    for current in [10u64, 50, 50, 100] {
        handed_out += p.tick(current);
    }
    assert_eq!(handed_out, 100);
    assert_eq!(p.delta_sum, 100);
    assert_eq!(p.last, 100);
    p.finish();
    assert_eq!(p.phase, Phase::Finished);
    assert_eq!(p.total, 100);
}

#[test]
fn individual_deltas_are_the_distances() {
    let mut p = ProgressState::new();
    p.init(100);
    assert_eq!(p.tick(10), 10);
    assert_eq!(p.tick(50), 40);
    assert_eq!(p.tick(50), 0);
    assert_eq!(p.tick(100), 50);
}

#[test]
fn regressing_tick_is_clamped_to_zero() {
    let mut p = ProgressState::new();
    p.init(100);
    assert_eq!(p.tick(50), 50);
    assert_eq!(p.tick(30), 0);
    assert_eq!(p.last, 30);
    assert_eq!(p.delta_sum, 50);
    // Progress resumes from the regressed position.
    assert_eq!(p.tick(60), 30);
}

#[test]
fn fresh_state_is_idle_and_empty() {
    let p = ProgressState::new();
    assert_eq!(p.phase, Phase::Idle);
    assert_eq!(p.total, 0);
    assert_eq!(p.last, 0);
    assert_eq!(p.delta_sum, 0);
}

#[test]
fn init_announces_the_total() {
    let mut p = ProgressState::new();
    p.init(42);
    assert_eq!(p.phase, Phase::Running);
    assert_eq!(p.total, 42);
    assert_eq!(p.last, 0);
    assert_eq!(p.delta_sum, 0);
}

#[test]
fn percentage_is_rendered_in_hundredths() {
    assert_eq!(percent_hundredths(50, 200), Some(2500));
    assert_eq!(percent_hundredths(1, 3), Some(3333));
    assert_eq!(percent_hundredths(7, 7), Some(10000));
    assert_eq!(percent_hundredths(0, 5), Some(0));
    assert_eq!(percent_hundredths(1, 10000), Some(1));
}

#[test]
fn percentage_of_zero_total_is_a_placeholder() {
    assert_eq!(percent_hundredths(0, 0), None);
    assert_eq!(percent_hundredths(17, 0), None);
}

#[test]
fn percentage_clamps_at_one_hundred() {
    assert_eq!(percent_hundredths(10, 4), Some(10000));
    assert_eq!(percent_hundredths(u64::MAX, 1), Some(10000));
}
