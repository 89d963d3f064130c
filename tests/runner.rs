use burrboard::control::{Action, ControlEvent, Event};
use burrboard::pattern::{ModeDiscriminants, Rgb};
use burrboard::runner::{Msg, Runner, SleepConfig, State, SLEEP_DEFAULT_MS};

fn ev(action: Action, event: Event) -> ControlEvent {
    ControlEvent::from((action, event))
}

#[test]
fn translation_table() {
    assert_eq!(Msg::try_from(ev(Action::A, Event::Increase)), Ok(Msg::Next));
    assert_eq!(Msg::try_from(ev(Action::A, Event::Decrease)), Ok(Msg::Prev));
    assert_eq!(
        Msg::try_from(ev(Action::A, Event::Reset)),
        Ok(Msg::SetMode(ModeDiscriminants::Fire))
    );
    assert_eq!(Msg::try_from(ev(Action::B, Event::Increase)), Ok(Msg::Faster));
    assert_eq!(Msg::try_from(ev(Action::B, Event::Decrease)), Ok(Msg::Slower));
    assert_eq!(Msg::try_from(ev(Action::B, Event::Reset)), Ok(Msg::ResetSpeed));
    assert_eq!(Msg::try_from(ev(Action::C, Event::Increase)), Ok(Msg::Lighter));
    assert_eq!(Msg::try_from(ev(Action::C, Event::Decrease)), Ok(Msg::Darker));
    assert_eq!(Msg::try_from(ev(Action::C, Event::Reset)), Ok(Msg::ResetBrightness));
    for e in [Event::Start, Event::Stop, Event::Increase, Event::Decrease, Event::Reset] {
        assert_eq!(Msg::try_from(ev(Action::D, e)), Ok(Msg::SleepConfig(e)));
    }
    for a in [Action::A, Action::B, Action::C] {
        assert_eq!(Msg::try_from(ev(a, Event::Start)), Err(()));
        assert_eq!(Msg::try_from(ev(a, Event::Stop)), Err(()));
    }
}

#[test]
fn sleep_config_steps_and_clamps() {
    let mut cfg = SleepConfig { current_ms: 3_400_000 };
    cfg.increase();
    assert_eq!(cfg.current_ms, 3_600_000);
    cfg.increase();
    assert_eq!(cfg.current_ms, 3_600_000);
    let mut cfg = SleepConfig { current_ms: 100_000 };
    cfg.decrease();
    assert_eq!(cfg.current_ms, 0);
    cfg.decrease();
    assert_eq!(cfg.current_ms, 0);
    let mut cfg = SleepConfig { current_ms: 5_000_000 };
    cfg.increase();
    assert_eq!(cfg.current_ms, 3_600_000);
}

#[test]
fn gauge_is_red_then_dark() {
    let red = Rgb::new(0xFF, 0, 0);
    let black = Rgb::new(0, 0, 0);
    let cfg = SleepConfig { current_ms: 900_000 };
    assert_eq!(cfg.lit(60), 15);
    let frame = cfg.render(8);
    assert_eq!(frame, vec![red, red, black, black, black, black, black, black]);
    assert_eq!(SleepConfig { current_ms: 0 }.render(3), vec![black; 3]);
    assert_eq!(SleepConfig { current_ms: 9_000_000 }.render(3), vec![red; 3]);
    assert_eq!(SleepConfig { current_ms: 3_599_999 }.lit(60), 59);
    assert!(SleepConfig { current_ms: 900_000 }.render(0).is_empty());
}

#[test]
fn sleep_config_cancelled_when_drafted_to_zero() {
    let mut r = Runner::starting_at(60, 0);
    assert_eq!(r.state, State::Running);
    let shown = r.on_message_at(Msg::SleepConfig(Event::Start), 10).unwrap();
    assert_eq!(r.state, State::ConfigureSleep(SleepConfig { current_ms: 900_000 }));
    assert_eq!(shown.len(), 60);
    assert_eq!(shown.iter().filter(|p| **p == Rgb::new(0xFF, 0, 0)).count(), 15);
    for _ in 0..3 {
        assert!(r.on_message_at(Msg::SleepConfig(Event::Decrease), 20).is_some());
    }
    assert_eq!(r.state, State::ConfigureSleep(SleepConfig { current_ms: 0 }));
    assert_eq!(r.on_message_at(Msg::SleepConfig(Event::Stop), 30), None);
    assert!(r.controller.sleep.is_none());
    assert_eq!(r.state, State::Running);
}

#[test]
fn sleep_config_commits_a_positive_draft() {
    let mut r = Runner::starting_at(60, 0);
    r.on_message_at(Msg::SleepConfig(Event::Start), 10);
    r.on_message_at(Msg::SleepConfig(Event::Increase), 20);
    r.on_message_at(Msg::Next, 25);
    r.on_message_at(Msg::SleepConfig(Event::Reset), 26);
    assert_eq!(r.controller.mode.kind(), ModeDiscriminants::Fire);
    assert_eq!(r.state, State::ConfigureSleep(SleepConfig { current_ms: 1_200_000 }));
    assert_eq!(r.on_tick_at(40), None);
    r.on_message_at(Msg::SleepConfig(Event::Stop), 1000);
    assert_eq!(r.state, State::Running);
    let s = r.controller.sleep.unwrap();
    assert_eq!((s.start, s.duration, s.min, s.max), (1000, 1_200_000, 0, 16));
}

#[test]
fn sleep_config_seeded_from_running_sleep() {
    let mut r = Runner::starting_at(60, 0);
    r.on_message_at(Msg::StartSleep(600_000), 0);
    r.on_message_at(Msg::SleepConfig(Event::Start), 100_000);
    assert_eq!(r.state, State::ConfigureSleep(SleepConfig { current_ms: 500_000 }));
    r.on_message_at(Msg::SleepConfig(Event::Stop), 100_000);
    r.on_message_at(Msg::StopSleep, 100_000);
    r.on_message_at(Msg::SleepConfig(Event::Start), 200_000);
    assert_eq!(r.state, State::ConfigureSleep(SleepConfig { current_ms: SLEEP_DEFAULT_MS }));
}

#[test]
fn running_applies_controller_messages() {
    let mut r = Runner::starting_at(60, 0);
    assert_eq!(r.on_message_at(Msg::Next, 1), None);
    assert_eq!(r.controller.mode.kind(), ModeDiscriminants::Rainbow);
    r.on_message_at(Msg::Prev, 2);
    r.on_message_at(Msg::Prev, 3);
    assert_eq!(r.controller.mode.kind(), ModeDiscriminants::Off);
    r.on_message_at(Msg::SetMode(ModeDiscriminants::RainbowPart), 4);
    assert_eq!(r.controller.mode.kind(), ModeDiscriminants::RainbowPart);
    r.on_message_at(Msg::Faster, 5);
    assert_eq!(r.controller.speed, 115);
    r.on_message_at(Msg::Slower, 6);
    assert_eq!(r.controller.speed, 127);
    r.on_message_at(Msg::ResetSpeed, 7);
    assert_eq!(r.controller.speed, 128);
    r.on_message_at(Msg::Lighter, 8);
    r.on_message_at(Msg::Lighter, 8);
    r.on_message_at(Msg::Darker, 9);
    assert_eq!(r.controller.brightness, 17);
    r.on_message_at(Msg::ResetBrightness, 10);
    assert_eq!(r.controller.brightness, 16);
    r.on_message_at(Msg::StartSleep(1000), 11);
    assert!(r.controller.sleep.is_some());
    r.on_message_at(Msg::SleepConfig(Event::Reset), 12);
    assert!(r.controller.sleep.is_none());
    r.on_message_at(Msg::SleepConfig(Event::Increase), 13);
    assert_eq!(r.state, State::Running);
    let tick = r.on_tick_at(50).unwrap();
    assert_eq!(tick.brightness, 16);
}
