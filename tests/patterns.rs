use burrboard::pattern::{
    Context, FlameClock, Fire, Frame, Mode, ModeDiscriminants, Rainbow, Rgb, DE, UA,
};

const ALL: [ModeDiscriminants; 4] = [
    ModeDiscriminants::Off,
    ModeDiscriminants::Fire,
    ModeDiscriminants::Rainbow,
    ModeDiscriminants::RainbowPart,
];

#[test]
fn next_walks_the_cycle_and_wraps() {
    assert_eq!(ModeDiscriminants::Off.next(), ModeDiscriminants::Fire);
    assert_eq!(ModeDiscriminants::Fire.next(), ModeDiscriminants::Rainbow);
    assert_eq!(ModeDiscriminants::Rainbow.next(), ModeDiscriminants::RainbowPart);
    assert_eq!(ModeDiscriminants::RainbowPart.next(), ModeDiscriminants::Off);
}

#[test]
fn prev_walks_the_cycle_backwards_and_wraps() {
    assert_eq!(ModeDiscriminants::Off.prev(), ModeDiscriminants::RainbowPart);
    assert_eq!(ModeDiscriminants::Fire.prev(), ModeDiscriminants::Off);
    assert_eq!(ModeDiscriminants::Rainbow.prev(), ModeDiscriminants::Fire);
    assert_eq!(ModeDiscriminants::RainbowPart.prev(), ModeDiscriminants::Rainbow);
}

#[test]
fn next_then_prev_is_identity_for_every_pattern() {
    for m in ALL {
        assert_eq!(m.next().prev(), m);
        assert_eq!(m.prev().next(), m);
    }
}

#[test]
fn step_length_follows_speed() {
    assert_eq!(Rainbow::tick_len_ms(0), 0);
    assert_eq!(Rainbow::tick_len_ms(1), 1);
    assert_eq!(Rainbow::tick_len_ms(64), 125);
    assert_eq!(Rainbow::tick_len_ms(127), 248);
    assert_eq!(Rainbow::tick_len_ms(128), 250);
    assert_eq!(Rainbow::tick_len_ms(192), 625);
    assert_eq!(Rainbow::tick_len_ms(255), 994);
}

#[test]
fn rainbow_turns_by_whole_steps_of_elapsed_time() {
    let mut r = Rainbow::new(10, 1000);
    let ctx = Context { speed: 128, delta: 50, now: 1100 };
    assert!(!r.tick(ctx));
    assert_eq!(r.offset, 0);
    assert_eq!(r.last_shift, 1000);
    let ctx = Context { speed: 128, delta: 500, now: 1600 };
    assert!(r.tick(ctx));
    assert_eq!(r.offset, 2);
    assert_eq!(r.last_shift, 1500);
    // The remainder is carried: 1500 + 250 is due at 1750.
    let ctx = Context { speed: 128, delta: 150, now: 1750 };
    assert_eq!(r.need_update(ctx), 1);
    assert_eq!(r.offset, 3);
}

#[test]
fn rainbow_offset_wraps_round_the_ring() {
    let mut r = Rainbow::new(4, 0);
    let ctx = Context { speed: 1, delta: 7, now: 7 };
    assert_eq!(r.need_update(ctx), 7);
    assert_eq!(r.offset, 3);
}

#[test]
fn mode_tick_reports_frames() {
    let mut off = ModeDiscriminants::Off.new(10, 0);
    assert_eq!(off.tick(Context { speed: 128, delta: 50, now: 50 }), None);

    let mut fire = ModeDiscriminants::Fire.new(10, 0);
    assert_eq!(
        fire.tick(Context { speed: 100, delta: 50, now: 1050 }),
        Some(Frame::Fire(FlameClock { ticks: 10, halvings: 28 }))
    );

    let mut part = ModeDiscriminants::RainbowPart.new(10, 0);
    assert_eq!(
        part.tick(Context { speed: 40, delta: 50, now: 77 }),
        Some(Frame::RainbowPart { now: 77, speed: 40 })
    );

    let mut rainbow = ModeDiscriminants::Rainbow.new(10, 0);
    assert_eq!(rainbow.tick(Context { speed: 128, delta: 100, now: 100 }), None);
    assert_eq!(
        rainbow.tick(Context { speed: 128, delta: 400, now: 500 }),
        Some(Frame::Rainbow { offset: 2 })
    );
    assert!(matches!(rainbow, Mode::Rainbow(_)));
    assert_eq!(rainbow.kind(), ModeDiscriminants::Rainbow);
}

#[test]
fn flame_clock_uses_time_over_speed() {
    let mut f = Fire::new();
    assert_eq!(
        f.tick(Context { speed: 128, delta: 0, now: 500 }),
        FlameClock { ticks: 3, halvings: 0 }
    );
    assert_eq!(
        f.tick(Context { speed: 255, delta: 0, now: 1000 }),
        FlameClock { ticks: 3, halvings: 0 }
    );
    assert_eq!(
        f.tick(Context { speed: 1, delta: 0, now: 9 }),
        FlameClock { ticks: 9, halvings: 127 }
    );
}

#[test]
fn ua_stripes_in_pairs_and_turn_right() {
    let blue = Rgb::new(0, 0, 0xFF);
    let yellow = Rgb::new(0xFF, 0xFF, 0);
    let mut pixels = vec![Rgb::new(1, 2, 3); 6];
    let mut ua = UA::new(&mut pixels);
    assert_eq!(pixels, vec![blue, blue, yellow, yellow, blue, blue]);
    ua.tick(&mut pixels);
    assert_eq!(pixels, vec![blue, blue, blue, yellow, yellow, blue]);
}

#[test]
fn de_stripes_in_pairs_and_turn_left() {
    let black = Rgb::new(0, 0, 0);
    let red = Rgb::new(0xFF, 0, 0);
    let gold = Rgb::new(0xFF, 0xFF, 0);
    let mut pixels = vec![Rgb::new(1, 2, 3); 7];
    let mut de = DE::new(&mut pixels);
    assert_eq!(pixels, vec![black, black, red, red, gold, gold, black]);
    de.tick(&mut pixels);
    assert_eq!(pixels, vec![black, red, red, gold, gold, black, black]);
}

#[test]
fn static_patterns_leave_an_empty_strip_alone() {
    let mut pixels: Vec<Rgb> = Vec::new();
    let mut ua = UA::new(&mut pixels);
    ua.tick(&mut pixels);
    let mut de = DE::new(&mut pixels);
    de.tick(&mut pixels);
    assert!(pixels.is_empty());
}
