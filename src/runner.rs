use vstd::prelude::*;

use crate::control::{Action, ControlEvent, Event};
use crate::controller::{Controller, Render};
use crate::pattern::{black, red, ModeDiscriminants, Rgb};

verus! {

/// What the runner is told, by the buttons or over the air.
#[derive(Clone, Copy, Debug, PartialEq, Eq, Structural)]
pub enum Msg {
    Next,
    Prev,
    Faster,
    Slower,
    ResetSpeed,
    SetMode(ModeDiscriminants),
    /// Start a fade to dark over the given milliseconds.
    StartSleep(u64),
    StopSleep,
    SleepConfig(Event),
    Lighter,
    Darker,
    ResetBrightness,
}

impl Msg {
    /// The message a button event stands for: channel A picks the pattern, B
    /// the speed, C the brightness, and D drives the sleep setting; a start or
    /// stop on A, B or C stands for none.
    pub open spec fn spec_from_control(value: ControlEvent) -> Option<Msg> {
        match (value.action, value.event) {
            (Action::A, Event::Increase) => Some(Msg::Next),
            (Action::A, Event::Decrease) => Some(Msg::Prev),
            (Action::A, Event::Reset) => Some(Msg::SetMode(ModeDiscriminants::Off.spec_next())),
            (Action::B, Event::Increase) => Some(Msg::Faster),
            (Action::B, Event::Decrease) => Some(Msg::Slower),
            (Action::B, Event::Reset) => Some(Msg::ResetSpeed),
            (Action::C, Event::Increase) => Some(Msg::Lighter),
            (Action::C, Event::Decrease) => Some(Msg::Darker),
            (Action::C, Event::Reset) => Some(Msg::ResetBrightness),
            (Action::D, event) => Some(Msg::SleepConfig(event)),
            _ => None,
        }
    }

    pub fn try_from(value: ControlEvent) -> (r: Result<Msg, ()>)
        ensures
            r is Ok <==> Msg::spec_from_control(value) is Some,
            r is Ok ==> r->Ok_0 == Msg::spec_from_control(value)->0,
    {
        match (value.action, value.event) {
            (Action::A, Event::Increase) => Ok(Msg::Next),
            (Action::A, Event::Decrease) => Ok(Msg::Prev),
            (Action::A, Event::Reset) => Ok(Msg::SetMode(ModeDiscriminants::Off.next())),
            (Action::B, Event::Increase) => Ok(Msg::Faster),
            (Action::B, Event::Decrease) => Ok(Msg::Slower),
            (Action::B, Event::Reset) => Ok(Msg::ResetSpeed),
            (Action::C, Event::Increase) => Ok(Msg::Lighter),
            (Action::C, Event::Decrease) => Ok(Msg::Darker),
            (Action::C, Event::Reset) => Ok(Msg::ResetBrightness),
            (Action::D, event) => Ok(Msg::SleepConfig(event)),
            _ => Err(()),
        }
    }
}

/// Longest sleep that can be set with the buttons, in milliseconds (an hour).
pub const SLEEP_MAX_MS: u64 = 3_600_000;

/// Sleep offered when none is running, in milliseconds (a quarter hour).
pub const SLEEP_DEFAULT_MS: u64 = 900_000;

/// One press of the sleep setting, in milliseconds (five minutes).
pub const SLEEP_STEP_MS: u64 = 300_000;

/// Relies on itertools::repeat_n: an iterator that yields `n` clones of `x`.
#[verifier::external_body]
fn repeat_n(x: Rgb, n: usize) -> (r: Vec<Rgb>)
    ensures
        r@ == Seq::new(n as nat, |_i: int| x),
{
    itertools::repeat_n(x, n).collect()
}

/// The sleep duration being picked, in milliseconds.
#[derive(Clone, Copy, Debug, PartialEq, Eq, Structural)]
pub struct SleepConfig {
    pub current_ms: u64,
}

impl SleepConfig {
    pub open spec fn spec_increase(self) -> SleepConfig {
        SleepConfig {
            current_ms: if self.current_ms + SLEEP_STEP_MS > SLEEP_MAX_MS {
                SLEEP_MAX_MS
            } else {
                (self.current_ms + SLEEP_STEP_MS) as u64
            },
        }
    }

    pub open spec fn spec_decrease(self) -> SleepConfig {
        SleepConfig {
            current_ms: if self.current_ms >= SLEEP_STEP_MS {
                (self.current_ms - SLEEP_STEP_MS) as u64
            } else {
                0
            },
        }
    }

    /// Pixels lit in a gauge of `len` pixels: the share of the longest sleep,
    /// rounded down, and all of them from the longest on.
    pub open spec fn spec_lit(self, len: usize) -> usize {
        if self.current_ms >= SLEEP_MAX_MS {
            len
        } else {
            (self.current_ms * len / (SLEEP_MAX_MS as int)) as usize
        }
    }

    /// The gauge: lit pixels red from the start, the rest dark.
    pub open spec fn spec_gauge(self, len: usize) -> Seq<Rgb> {
        let lit = self.spec_lit(len);
        Seq::new(lit as nat, |_i: int| red()) + Seq::new((len - lit) as nat, |_i: int| black())
    }

    /// Five minutes more, up to the hour.
    pub fn increase(&mut self)
        ensures
            *final(self) == old(self).spec_increase(),
    {
        if self.current_ms > SLEEP_MAX_MS - SLEEP_STEP_MS {
            self.current_ms = SLEEP_MAX_MS;
        } else {
            self.current_ms = self.current_ms + SLEEP_STEP_MS;
        }
    }

    /// Five minutes less, down to zero.
    pub fn decrease(&mut self)
        ensures
            *final(self) == old(self).spec_decrease(),
    {
        if self.current_ms >= SLEEP_STEP_MS {
            self.current_ms = self.current_ms - SLEEP_STEP_MS;
        } else {
            self.current_ms = 0;
        }
    }

    pub fn lit(&self, len: usize) -> (n: usize)
        ensures
            n == self.spec_lit(len),
            n <= len,
    {
        if self.current_ms >= SLEEP_MAX_MS {
            return len;
        }
        let cur: u128 = self.current_ms as u128;
        let l: u128 = len as u128;
        assert(cur * l <= SLEEP_MAX_MS * l) by (nonlinear_arith)
            requires
                cur < SLEEP_MAX_MS,
        ;
        let max: u128 = SLEEP_MAX_MS as u128;
        let n: u128 = cur * l / max;
        assert(n <= l) by (nonlinear_arith)
            requires
                n as int == (cur * l) as int / (max as int),
                cur < max,
        ;
        n as usize
    }

    /// The frame that shows the setting on a strip of `len` pixels.
    pub fn render(&self, len: usize) -> (frame: Vec<Rgb>)
        ensures
            frame@ == self.spec_gauge(len),
    {
        let lit = self.lit(len);
        let mut frame = repeat_n(Rgb::new(0xFF, 0, 0), lit);
        let mut rest = repeat_n(Rgb::new(0, 0, 0), len - lit);
        frame.append(&mut rest);
        frame
    }
}

/// The runner is either showing patterns or letting the user pick a sleep
/// duration, which it then shows as a gauge.
#[derive(Clone, Copy, Debug, PartialEq, Eq, Structural)]
pub enum State {
    Running,
    ConfigureSleep(SleepConfig),
}

/// Owns the controller and decides, message by message and tick by tick,
/// what is shown.
pub struct Runner {
    pub controller: Controller,
    pub state: State,
}

impl Runner {
    pub open spec fn wf(&self) -> bool {
        self.controller.wf()
    }

    /// The runner after `msg` arrives at `now`.
    pub open spec fn spec_on_message(self, msg: Msg, now: u64) -> Runner {
        let c = self.controller;
        match self.state {
            State::Running => match msg {
                Msg::Next => Runner { controller: c.spec_next_at(now), ..self },
                Msg::Prev => Runner { controller: c.spec_prev_at(now), ..self },
                Msg::SetMode(id) => Runner { controller: c.spec_mode_at(id, now), ..self },
                Msg::StartSleep(d) => Runner { controller: c.spec_start_sleep_at(d, now), ..self },
                Msg::StopSleep => Runner { controller: c.spec_stop_sleep(), ..self },
                Msg::SleepConfig(Event::Reset) => Runner { controller: c.spec_stop_sleep(), ..self },
                Msg::SleepConfig(Event::Start) => Runner {
                    state: State::ConfigureSleep(
                        SleepConfig {
                            current_ms: match c.spec_remaining_sleep_ms(now) {
                                Some(ms) => ms,
                                None => SLEEP_DEFAULT_MS,
                            },
                        },
                    ),
                    ..self
                },
                Msg::SleepConfig(_) => self,
                Msg::Faster => Runner { controller: c.spec_faster(), ..self },
                Msg::Slower => Runner { controller: c.spec_slower(), ..self },
                Msg::ResetSpeed => Runner { controller: c.spec_reset_speed(), ..self },
                Msg::Lighter => Runner { controller: c.spec_lighter(), ..self },
                Msg::Darker => Runner { controller: c.spec_darker(), ..self },
                Msg::ResetBrightness => Runner { controller: c.spec_reset_brightness(), ..self },
            },
            State::ConfigureSleep(cfg) => match msg {
                Msg::SleepConfig(Event::Stop) => Runner {
                    controller: if cfg.current_ms > 0 {
                        c.spec_start_sleep_at(cfg.current_ms, now)
                    } else {
                        c.spec_stop_sleep()
                    },
                    state: State::Running,
                },
                Msg::SleepConfig(Event::Increase) => Runner {
                    state: State::ConfigureSleep(cfg.spec_increase()),
                    ..self
                },
                Msg::SleepConfig(Event::Decrease) => Runner {
                    state: State::ConfigureSleep(cfg.spec_decrease()),
                    ..self
                },
                _ => self,
            },
        }
    }

    /// What the runner shows in a state: the gauge while a sleep is picked.
    pub open spec fn spec_shown(self) -> Option<Seq<Rgb>> {
        match self.state {
            State::Running => None,
            State::ConfigureSleep(cfg) => Some(cfg.spec_gauge(self.controller.len)),
        }
    }

    pub fn starting_at(len: usize, now: u64) -> (r: Runner)
        ensures
            r.wf(),
            r.controller == Controller::spec_starting_at(len, now),
            r.state == State::Running,
    {
        Runner { controller: Controller::starting_at(len, now), state: State::Running }
    }

    pub fn new(len: usize) -> (r: Runner)
        ensures
            r.wf(),
            exists|t: u64| r.controller == Controller::spec_starting_at(len, t),
            r.state == State::Running,
    {
        Runner { controller: Controller::new(len), state: State::Running }
    }

    /// Handles `msg`, arriving at `now`. While a sleep is being picked, returns
    /// the gauge frame to write.
    pub fn on_message_at(&mut self, msg: Msg, now: u64) -> (shown: Option<Vec<Rgb>>)
        requires
            old(self).wf(),
        ensures
            final(self).wf(),
            *final(self) == old(self).spec_on_message(msg, now),
            match final(self).spec_shown() {
                Some(g) => shown is Some && shown->0@ == g,
                None => shown is None,
            },
    {
        match self.state {
            State::Running => {
                match msg {
                    Msg::Next => self.controller.next_at(now),
                    Msg::Prev => self.controller.prev_at(now),
                    Msg::SetMode(id) => self.controller.mode_at(id, now),
                    Msg::StartSleep(d) => self.controller.start_sleep_at(d, now),
                    Msg::StopSleep => self.controller.stop_sleep(),
                    Msg::SleepConfig(Event::Reset) => self.controller.stop_sleep(),
                    Msg::SleepConfig(Event::Start) => {
                        let current_ms = match self.controller.remaining_sleep_ms_at(now) {
                            Some(ms) => ms,
                            None => SLEEP_DEFAULT_MS,
                        };
                        self.state = State::ConfigureSleep(SleepConfig { current_ms });
                    },
                    Msg::SleepConfig(_) => {},
                    Msg::Faster => self.controller.faster(),
                    Msg::Slower => self.controller.slower(),
                    Msg::ResetSpeed => self.controller.reset_speed(),
                    Msg::Lighter => self.controller.lighter(),
                    Msg::Darker => self.controller.darker(),
                    Msg::ResetBrightness => self.controller.reset_brightness(),
                }
            },
            State::ConfigureSleep(cfg) => {
                let mut cfg = cfg;
                match msg {
                    Msg::SleepConfig(Event::Stop) => {
                        if cfg.current_ms > 0 {
                            self.controller.start_sleep_at(cfg.current_ms, now);
                        } else {
                            self.controller.stop_sleep();
                        }
                        self.state = State::Running;
                    },
                    Msg::SleepConfig(Event::Increase) => {
                        cfg.increase();
                        self.state = State::ConfigureSleep(cfg);
                    },
                    Msg::SleepConfig(Event::Decrease) => {
                        cfg.decrease();
                        self.state = State::ConfigureSleep(cfg);
                    },
                    _ => {},
                }
            },
        }
        match self.state {
            State::Running => None,
            State::ConfigureSleep(cfg) => Some(cfg.render(self.controller.len)),
        }
    }

    /// Handles `msg` against the clock.
    pub fn on_message(&mut self, msg: Msg) -> (shown: Option<Vec<Rgb>>)
        requires
            old(self).wf(),
        ensures
            final(self).wf(),
            exists|t: u64| *final(self) == old(self).spec_on_message(msg, t),
            match final(self).spec_shown() {
                Some(g) => shown is Some && shown->0@ == g,
                None => shown is None,
            },
    {
        let t = crate::clock::now_ms();
        self.on_message_at(msg, t)
    }

    /// The runner after the periodic tick at `now`, and what the tick
    /// writes: while running the controller renders; while a sleep is picked
    /// nothing changes and nothing is drawn.
    pub open spec fn spec_on_tick_at(self, now: u64) -> (Runner, Option<Render>) {
        match self.state {
            State::Running => {
                let (c, f) = self.controller.spec_tick_at(now);
                (Runner { controller: c, ..self }, f)
            },
            State::ConfigureSleep(_) => (self, None),
        }
    }

    pub fn on_tick_at(&mut self, now: u64) -> (r: Option<Render>)
        requires
            old(self).wf(),
        ensures
            final(self).wf(),
            (*final(self), r) == old(self).spec_on_tick_at(now),
    {
        match self.state {
            State::Running => self.controller.tick_at(now),
            State::ConfigureSleep(_) => None,
        }
    }

    /// The periodic tick against the clock.
    pub fn on_tick(&mut self) -> (r: Option<Render>)
        requires
            old(self).wf(),
        ensures
            final(self).wf(),
            exists|t: u64| (*final(self), r) == old(self).spec_on_tick_at(t),
    {
        let t = crate::clock::now_ms();
        self.on_tick_at(t)
    }
}

/// Largest value the speed-step functions hand out.
pub const STEP_LIMIT: u64 = 0xFFFF_FFFF;

/// A tenth of `current`, rounded up, and at least 1.
pub open spec fn spec_amount(current: int) -> int {
    if current <= 0 {
        1
    } else {
        (current + 9) / 10
    }
}

/// One step faster: a smaller value by about a tenth, never below 1.
pub open spec fn spec_faster(current: int) -> int {
    if current > spec_amount(current) {
        current - spec_amount(current)
    } else {
        1
    }
}

/// One step slower: a larger value by about a tenth, never above `STEP_LIMIT`.
pub open spec fn spec_slower(current: int) -> int {
    if current + spec_amount(current) < STEP_LIMIT {
        current + spec_amount(current)
    } else {
        STEP_LIMIT as int
    }
}

/// The size of one speed step from `current`.
pub fn amount(current: u64) -> (a: u64)
    ensures
        a == spec_amount(current as int),
{
    if current == 0 {
        1
    } else {
        let tenth = current / 10;
        if current % 10 == 0 {
            tenth
        } else {
            tenth + 1
        }
    }
}

pub fn faster(current: u64) -> (r: u64)
    ensures
        r == spec_faster(current as int),
{
    let dec = amount(current);
    if current > dec {
        current - dec
    } else {
        1
    }
}

pub fn slower(current: u64) -> (r: u64)
    ensures
        r == spec_slower(current as int),
{
    if current >= STEP_LIMIT {
        return STEP_LIMIT;
    }
    let inc = amount(current);
    if current + inc < STEP_LIMIT {
        current + inc
    } else {
        STEP_LIMIT
    }
}

/// A step faster goes strictly down while above 1 and stays at 1 there; a
/// step slower goes strictly up while below the limit and stays there.
pub proof fn speed_steps_are_monotone(s: int)
    requires
        1 <= s <= STEP_LIMIT,
    ensures
        1 <= spec_faster(s) <= s,
        s > 1 ==> spec_faster(s) < s,
        s == 1 ==> spec_faster(s) == 1,
        s <= spec_slower(s) <= STEP_LIMIT,
        s < STEP_LIMIT ==> spec_slower(s) > s,
        s == STEP_LIMIT ==> spec_slower(s) == STEP_LIMIT,
{
}

} // verus!
