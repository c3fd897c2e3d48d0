use rgb_pwm::driver::{Rgb, StepTiming};
use rgb_pwm::shared::SharedState;
use rgb_pwm::LEVELS;

fn step_duration(t: &StepTiming) -> u64 {
    let high = if t.drive_high { t.on_time } else { 0 };
    let low = if t.wait_low { t.off_time } else { 0 };
    high + low
}

fn driver_at(levels: [u32; 3], frame_rate: u64) -> (Rgb<u8>, [StepTiming; 3]) {
    let mut shared = SharedState::new();
    shared.store_rgb_levels(levels);
    let mut rgb = Rgb::new([0u8, 1u8, 2u8], frame_rate);
    let plan = rgb.cycle(&shared);
    (rgb, plan)
}

#[test]
fn tick_time_at_100_hz() {
    assert_eq!(Rgb::<u8>::frame_tick_time(100), 208);
}

#[test]
fn tick_time_at_1_hz() {
    assert_eq!(Rgb::<u8>::frame_tick_time(1), 20_833);
}

#[test]
fn tick_time_at_60_hz() {
    assert_eq!(Rgb::<u8>::frame_tick_time(60), 347);
}

#[test]
fn tick_time_last_nonzero_rate() {
    assert_eq!(Rgb::<u8>::frame_tick_time(20_833), 1);
}

#[test]
fn tick_time_truncates_to_zero() {
    assert_eq!(Rgb::<u8>::frame_tick_time(20_834), 0);
    assert_eq!(Rgb::<u8>::frame_tick_time(100_000), 0);
}

#[test]
fn tick_time_huge_rate() {
    assert_eq!(Rgb::<u8>::frame_tick_time(u64::MAX), 0);
}

#[test]
fn new_driver_is_dark() {
    let rgb = Rgb::new([7u8, 8u8, 9u8], 100);
    assert_eq!(rgb.levels(), [0, 0, 0]);
    assert_eq!(rgb.tick_time(), 208);
    assert_eq!(rgb.rgb, [7, 8, 9]);
}

#[test]
fn every_level_takes_levels_ticks() {
    for level in 0..LEVELS {
        let (rgb, plan) = driver_at([level, level, level], 100);
        for step in plan.iter() {
            assert_eq!(step_duration(step), LEVELS as u64 * rgb.tick_time());
            assert_eq!(step.on_time, level as u64 * 208);
            assert_eq!(step.off_time, (LEVELS - level) as u64 * 208);
        }
    }
}

#[test]
fn level_zero_is_all_low() {
    let (_, plan) = driver_at([0, 0, 0], 100);
    assert!(!plan[0].drive_high);
    assert_eq!(plan[0].on_time, 0);
    assert!(plan[0].wait_low);
    assert_eq!(plan[0].off_time, 16 * 208);
}

#[test]
fn highest_level_is_low_one_tick() {
    let (_, plan) = driver_at([15, 15, 15], 100);
    assert!(plan[1].drive_high);
    assert_eq!(plan[1].on_time, 15 * 208);
    assert!(plan[1].wait_low);
    assert_eq!(plan[1].off_time, 208);
}

#[test]
fn cycle_steps_follow_channels() {
    let (rgb, plan) = driver_at([3, 0, 15], 100);
    assert_eq!(rgb.levels(), [3, 0, 15]);
    assert_eq!(
        plan[0],
        StepTiming { drive_high: true, on_time: 624, wait_low: true, off_time: 2704 }
    );
    assert_eq!(
        plan[1],
        StepTiming { drive_high: false, on_time: 0, wait_low: true, off_time: 3328 }
    );
    assert_eq!(
        plan[2],
        StepTiming { drive_high: true, on_time: 3120, wait_low: true, off_time: 208 }
    );
}

#[test]
fn step_reads_shadow_level() {
    let (rgb, _) = driver_at([1, 2, 3], 100);
    assert_eq!(rgb.step(2).on_time, 3 * 208);
    assert_eq!(rgb.step(0).off_time, 15 * 208);
}

#[test]
fn writes_between_refreshes_coalesce() {
    let mut shared = SharedState::new();
    let mut rgb = Rgb::new([0u8, 1u8, 2u8], 100);
    rgb.cycle(&shared);
    shared.store_rgb_levels([5, 6, 7]);
    shared.store_rgb_levels([9, 1, 2]);
    let plan = rgb.cycle(&shared);
    assert_eq!(rgb.levels(), [9, 1, 2]);
    assert_eq!(plan[0].on_time, 9 * 208);
}

#[test]
fn change_mid_cycle_waits_for_next_refresh() {
    let mut shared = SharedState::new();
    shared.store_rgb_levels([4, 4, 4]);
    let mut rgb = Rgb::new([0u8, 1u8, 2u8], 100);
    rgb.cycle(&shared);
    shared.store_rgb_levels([8, 8, 8]);
    assert_eq!(rgb.levels(), [4, 4, 4]);
    assert_eq!(rgb.step(1).on_time, 4 * 208);
    rgb.refresh(&shared);
    assert_eq!(rgb.levels(), [8, 8, 8]);
}

#[test]
fn degenerate_rate_runs_with_zero_waits() {
    let (rgb, plan) = driver_at([0, 7, 15], 100_000);
    assert_eq!(rgb.tick_time(), 0);
    for step in plan.iter() {
        assert_eq!(step.on_time, 0);
        assert_eq!(step.off_time, 0);
        assert_eq!(step_duration(step), 0);
    }
    assert!(plan[1].drive_high);
}
