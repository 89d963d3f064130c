use burrboard::controller::{Controller, Render, Sleep, INITIAL_BRIGHTNESS, MAX_SPEED, MIN_SPEED};
use burrboard::pattern::{FlameClock, Frame, ModeDiscriminants, DEFAULT_SPEED};
use burrboard::runner::{amount, faster, slower, STEP_LIMIT};

#[test]
fn amount_is_a_tenth_rounded_up() {
    assert_eq!(amount(0), 1);
    assert_eq!(amount(1), 1);
    assert_eq!(amount(10), 1);
    assert_eq!(amount(11), 2);
    assert_eq!(amount(70), 7);
    assert_eq!(amount(128), 13);
}

#[test]
fn speed_steps_examples() {
    assert_eq!(faster(128), 115);
    assert_eq!(faster(2), 1);
    assert_eq!(faster(1), 1);
    assert_eq!(slower(128), 141);
    assert_eq!(slower(STEP_LIMIT), STEP_LIMIT);
    assert_eq!(slower(STEP_LIMIT - 1), STEP_LIMIT);
}

#[test]
fn new_controller_starts_after_off() {
    let c = Controller::starting_at(60, 0);
    assert_eq!(c.mode.kind(), ModeDiscriminants::Fire);
    assert_eq!(c.brightness, INITIAL_BRIGHTNESS);
    assert_eq!(c.speed, DEFAULT_SPEED);
    assert_eq!(c.speed, 128);
    assert!(c.sleep.is_none());
    assert_eq!(c.len, 60);
}

#[test]
fn new_controller_reads_the_clock() {
    let c = Controller::new(8);
    assert_eq!(c.mode.kind(), ModeDiscriminants::Fire);
    assert_eq!(c.len, 8);
}

#[test]
fn controller_next_then_prev_restores_pattern() {
    let mut c = Controller::starting_at(60, 0);
    for _ in 0..4 {
        let before = c.mode.kind();
        c.next_at(10);
        c.prev_at(20);
        assert_eq!(c.mode.kind(), before);
        c.next_at(30);
    }
    c.mode_at(ModeDiscriminants::RainbowPart, 0);
    c.next_at(0);
    assert_eq!(c.mode.kind(), ModeDiscriminants::Off);
    c.prev_at(0);
    assert_eq!(c.mode.kind(), ModeDiscriminants::RainbowPart);
}

#[test]
fn repeated_faster_descends_to_minimum() {
    let mut c = Controller::starting_at(60, 0);
    let mut last = c.speed;
    for _ in 0..60 {
        c.faster();
        if last > MIN_SPEED {
            assert!(c.speed < last);
        } else {
            assert_eq!(c.speed, MIN_SPEED);
        }
        assert!(c.speed >= MIN_SPEED);
        last = c.speed;
    }
    assert_eq!(c.speed, MIN_SPEED);
}

#[test]
fn repeated_slower_climbs_to_maximum() {
    let mut c = Controller::starting_at(60, 0);
    let mut last = c.speed;
    for _ in 0..30 {
        c.slower();
        if last < MAX_SPEED {
            assert!(c.speed > last);
        } else {
            assert_eq!(c.speed, MAX_SPEED);
        }
        last = c.speed;
    }
    assert_eq!(c.speed, MAX_SPEED);
    c.reset_speed();
    assert_eq!(c.speed, 128);
}

#[test]
fn brightness_steps_and_clamps() {
    let mut c = Controller::starting_at(60, 0);
    c.lighter();
    assert_eq!(c.brightness, 17);
    c.reset_brightness();
    for _ in 0..20 {
        c.darker();
    }
    assert_eq!(c.brightness, 0);
    for _ in 0..300 {
        c.lighter();
    }
    assert_eq!(c.brightness, 255);
    c.reset_brightness();
    assert_eq!(c.brightness, 16);
}

#[test]
fn sleep_ramp_examples() {
    let s = Sleep { start: 0, duration: 300_000, min: 0, max: 16 };
    assert_eq!(s.remaining(0), 16);
    assert_eq!(s.remaining(150_000), 8);
    assert_eq!(s.remaining(300_000), 0);
    assert_eq!(s.remaining(350_000), 0);
}

#[test]
fn sleep_ramp_is_linear_and_rounded() {
    let s = Sleep::starting_at(0, 16, 1600, 1000);
    assert_eq!(s.remaining(500), 16);
    assert_eq!(s.remaining(1000), 16);
    assert_eq!(s.remaining(1100), 15);
    assert_eq!(s.remaining(1050), 16);
    assert_eq!(s.remaining(1049), 16);
    assert_eq!(s.remaining(2550), 1);
    assert_eq!(s.remaining(2551), 0);
    let mut last = 16;
    for t in 1000..=2600 {
        let b = s.remaining(t);
        assert!(b <= last);
        last = b;
    }
    assert_eq!(s.remaining(2600), 0);
    assert_eq!(s.remaining(u64::MAX), 0);
    assert_eq!(s.remaining_ms_at(1600), 1000);
    assert_eq!(s.remaining_ms_at(2600), 0);
}

#[test]
fn sleep_of_zero_duration_is_dark_from_its_start() {
    let s = Sleep::starting_at(0, 16, 0, 100);
    assert_eq!(s.remaining(99), 16);
    assert_eq!(s.remaining(100), 0);
}

#[test]
fn tick_uses_sleep_ramp_while_set() {
    let mut c = Controller::starting_at(10, 0);
    c.mode_at(ModeDiscriminants::RainbowPart, 0);
    c.lighter();
    let r = c.tick_at(50).unwrap();
    assert_eq!(r.brightness, 17);
    c.start_sleep_at(1000, 100);
    assert_eq!(c.remaining_sleep_ms_at(600), Some(500));
    assert_eq!(c.tick_at(600).unwrap().brightness, 8);
    assert_eq!(c.tick_at(1100).unwrap().brightness, 0);
    assert_eq!(c.tick_at(5000).unwrap().brightness, 0);
    assert!(c.sleep.is_some());
    c.stop_sleep();
    assert_eq!(c.remaining_sleep_ms_at(6000), None);
    assert_eq!(c.tick_at(6000).unwrap().brightness, 17);
}

#[test]
fn off_pattern_writes_nothing() {
    let mut c = Controller::starting_at(10, 0);
    c.mode_at(ModeDiscriminants::Off, 0);
    assert_eq!(c.tick_at(50), None);
    assert_eq!(c.last_run, 50);
}

#[test]
fn flame_ticks_follow_cumulative_time() {
    let mut c = Controller::starting_at(60, 0);
    c.mode_at(ModeDiscriminants::Off, 0);
    assert_eq!(c.speed, 128);
    assert_eq!(c.brightness, 16);
    c.mode_at(ModeDiscriminants::Fire, 0);
    let mut frames = Vec::new();
    for k in 1..=10u64 {
        if let Some(r) = c.tick_at(50 * k) {
            frames.push(r);
        }
    }
    assert_eq!(frames.len(), 10);
    for (i, r) in frames.iter().enumerate() {
        let now = 50 * (i as u64 + 1);
        assert_eq!(
            *r,
            Render { frame: Frame::Fire(FlameClock { ticks: now / 128, halvings: 0 }), brightness: 16 }
        );
    }
    assert_eq!(frames[9].frame, Frame::Fire(FlameClock { ticks: 3, halvings: 0 }));
    assert_eq!(c.last_run, 500);
}
