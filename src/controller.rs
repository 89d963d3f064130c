use vstd::prelude::*;

use crate::clock::now_ms;
use crate::pattern::{prev_undoes_next, Context, Frame, Mode, ModeDiscriminants, DEFAULT_SPEED};
use crate::runner::{faster, slower, spec_faster, spec_slower, speed_steps_are_monotone};

verus! {

/// Brightness at start-up and after a reset.
pub const INITIAL_BRIGHTNESS: u8 = 16;

/// The speed setting is kept in `[MIN_SPEED, MAX_SPEED]`; smaller is quicker.
pub const MIN_SPEED: u8 = 1;

pub const MAX_SPEED: u8 = 255;

/// Brightness at which a sleep ramp starts.
pub const SLEEP_START_BRIGHTNESS: u8 = 16;

/// Brightness at which a sleep ramp ends.
pub const SLEEP_END_BRIGHTNESS: u8 = 0;

/// A fade to dark: from `max` at `start` to `min` at `start + duration`, in
/// milliseconds.
#[derive(Clone, Copy, Debug, PartialEq, Eq, Structural)]
pub struct Sleep {
    pub start: u64,
    pub duration: u64,
    pub min: u8,
    pub max: u8,
}

/// `a / b` rounded to the nearest integer, halves upward.
pub open spec fn div_round(a: int, b: int) -> int {
    (2 * a + b) / (2 * b)
}

impl Sleep {
    pub open spec fn end(self) -> int {
        self.start + self.duration
    }

    /// The brightness at `now`: `max` up to the start, then `max` scaled by the
    /// share of the duration that is left, rounded, and `min` from the end on.
    pub open spec fn spec_remaining(self, now: u64) -> u8 {
        if now >= self.end() {
            self.min
        } else if self.end() - now > self.duration {
            self.max
        } else {
            div_round((self.end() - now) * self.max, self.duration as int) as u8
        }
    }

    /// Milliseconds until the end, zero once it has passed, at most `u64::MAX`.
    pub open spec fn spec_remaining_ms(self, now: u64) -> u64 {
        if now >= self.end() {
            0
        } else if self.end() - now > u64::MAX {
            u64::MAX
        } else {
            (self.end() - now) as u64
        }
    }

    pub fn starting_at(min: u8, max: u8, duration: u64, start: u64) -> (s: Sleep)
        ensures
            s == (Sleep { start, duration, min, max }),
    {
        Sleep { start, duration, min, max }
    }

    /// A ramp that starts now.
    pub fn now(min: u8, max: u8, duration: u64) -> (s: Sleep)
        ensures
            s.duration == duration,
            s.min == min,
            s.max == max,
    {
        Sleep::starting_at(min, max, duration, now_ms())
    }

    pub fn remaining(&self, now: u64) -> (b: u8)
        ensures
            b == self.spec_remaining(now),
    {
        let end: u128 = self.start as u128 + self.duration as u128;
        if now as u128 >= end {
            return self.min;
        }
        let rem: u128 = end - now as u128;
        if rem > self.duration as u128 {
            return self.max;
        }
        let d: u128 = self.duration as u128;
        let m: u128 = self.max as u128;
        assert(rem * m <= d * 255) by (nonlinear_arith)
            requires
                rem <= d,
                m <= 255,
        ;
        let scaled: u128 = rem * m;
        let v: u128 = (2 * scaled + d) / (2 * d);
        assert(v <= m) by (nonlinear_arith)
            requires
                v == (2 * scaled + d) / (2 * d),
                scaled == rem * m,
                rem <= d,
                d > 0,
        ;
        v as u8
    }

    pub fn remaining_now(&self) -> (b: u8)
        ensures
            exists|t: u64| b == self.spec_remaining(t),
    {
        let t = now_ms();
        let b = self.remaining(t);
        assert(b == self.spec_remaining(t));
        b
    }

    pub fn remaining_ms_at(&self, now: u64) -> (ms: u64)
        ensures
            ms == self.spec_remaining_ms(now),
    {
        let end: u128 = self.start as u128 + self.duration as u128;
        if now as u128 >= end {
            return 0;
        }
        let rem: u128 = end - now as u128;
        if rem > u64::MAX as u128 {
            u64::MAX
        } else {
            rem as u64
        }
    }

    /// Milliseconds until the end of the ramp, read against the clock.
    pub fn remaining_ms(&self) -> (ms: u64)
        ensures
            exists|t: u64| ms == self.spec_remaining_ms(t),
    {
        let t = now_ms();
        let ms = self.remaining_ms_at(t);
        assert(ms == self.spec_remaining_ms(t));
        ms
    }
}

/// The sleep ramp of any positive duration `d` that starts at `t` and falls to
/// zero: full brightness at `t`, the rounded share of the time left in between,
/// never rising as time passes, and zero at `t + d` and after.
pub proof fn sleep_ramp(s: Sleep, now: u64, later: u64)
    requires
        s.duration > 0,
        s.min == 0,
    ensures
        s.spec_remaining(s.start) == s.max,
        s.start <= now < s.end() ==> s.spec_remaining(now) == div_round(
            (s.end() - now) * s.max,
            s.duration as int,
        ),
        now >= s.end() ==> s.spec_remaining(now) == 0,
        s.start <= now <= later ==> s.spec_remaining(later) <= s.spec_remaining(now),
{
    let d = s.duration as int;
    let m = s.max as int;
    assert(div_round(d * m, d) == m) by (nonlinear_arith)
        requires
            d > 0,
    ;
    if s.start <= now && now < s.end() {
        let b = (s.end() - now) * m;
        assert(0 <= div_round(b, d) <= m) by (nonlinear_arith)
            requires
                b == (s.end() - now) * m,
                0 < s.end() - now <= d,
                0 <= m,
                d > 0,
        ;
    }
    if s.start <= now && now <= later && later < s.end() {
        let a = (s.end() - later) * m;
        let b = (s.end() - now) * m;
        assert(a <= b) by (nonlinear_arith)
            requires
                a == (s.end() - later) * m,
                b == (s.end() - now) * m,
                now <= later,
                m >= 0,
        ;
        assert(div_round(a, d) <= div_round(b, d)) by (nonlinear_arith)
            requires
                a <= b,
                d > 0,
        ;
        assert(div_round(b, d) <= m) by (nonlinear_arith)
            requires
                b == (s.end() - now) * m,
                s.end() - now <= d,
                m >= 0,
                d > 0,
        ;
    }
}

/// What one tick asks to be written: a frame and the brightness to show it at.
#[derive(Clone, Copy, Debug, PartialEq, Eq, Structural)]
pub struct Render {
    pub frame: Frame,
    pub brightness: u8,
}

/// Owns what is shown, how fast and how bright, and the sleep ramp.
pub struct Controller {
    pub mode: Mode,
    /// The number of pixels in the strip.
    pub len: usize,
    pub sleep: Option<Sleep>,
    pub brightness: u8,
    pub speed: u8,
    /// When the previous tick ran.
    pub last_run: u64,
}

impl Controller {
    pub open spec fn wf(&self) -> bool {
        &&& self.mode.wf()
        &&& self.speed >= MIN_SPEED
    }

    pub open spec fn mode_id(&self) -> ModeDiscriminants {
        self.mode.id()
    }

    /// The brightness a tick at `now` shows: the sleep ramp while one is set,
    /// else the brightness setting.
    pub open spec fn spec_brightness_at(&self, now: u64) -> u8 {
        match self.sleep {
            Some(s) => s.spec_remaining(now),
            None => self.brightness,
        }
    }

    pub open spec fn spec_starting_at(len: usize, now: u64) -> Controller {
        Controller {
            mode: ModeDiscriminants::Off.spec_next().new_spec(len, now),
            len,
            sleep: None,
            brightness: INITIAL_BRIGHTNESS,
            speed: DEFAULT_SPEED,
            last_run: now,
        }
    }

    pub open spec fn spec_mode_at(self, id: ModeDiscriminants, now: u64) -> Controller {
        Controller { mode: id.new_spec(self.len, now), ..self }
    }

    pub open spec fn spec_next_at(self, now: u64) -> Controller {
        self.spec_mode_at(self.mode_id().spec_next(), now)
    }

    pub open spec fn spec_prev_at(self, now: u64) -> Controller {
        self.spec_mode_at(self.mode_id().spec_prev(), now)
    }

    /// The controller after a tick at `now`, and what the tick writes.
    pub open spec fn spec_tick_at(self, now: u64) -> (Controller, Option<Render>) {
        let ctx = Context {
            speed: self.speed,
            delta: if now >= self.last_run { (now - self.last_run) as u64 } else { 0 },
            now,
        };
        let (m, f) = self.mode.spec_tick(ctx);
        (
            Controller { mode: m, last_run: now, ..self },
            match f {
                Some(frame) => Some(Render { frame, brightness: self.spec_brightness_at(now) }),
                None => None,
            },
        )
    }

    pub open spec fn spec_start_sleep_at(self, duration: u64, now: u64) -> Controller {
        Controller {
            sleep: Some(
                Sleep { start: now, duration, min: SLEEP_END_BRIGHTNESS, max: SLEEP_START_BRIGHTNESS },
            ),
            ..self
        }
    }

    pub open spec fn spec_stop_sleep(self) -> Controller {
        Controller { sleep: None, ..self }
    }

    pub open spec fn spec_lighter(self) -> Controller {
        Controller {
            brightness: if self.brightness < u8::MAX { (self.brightness + 1) as u8 } else { self.brightness },
            ..self
        }
    }

    pub open spec fn spec_darker(self) -> Controller {
        Controller {
            brightness: if self.brightness > u8::MIN { (self.brightness - 1) as u8 } else { self.brightness },
            ..self
        }
    }

    pub open spec fn spec_reset_brightness(self) -> Controller {
        Controller { brightness: INITIAL_BRIGHTNESS, ..self }
    }

    pub open spec fn spec_faster(self) -> Controller {
        Controller { speed: spec_faster(self.speed as int) as u8, ..self }
    }

    pub open spec fn spec_slower(self) -> Controller {
        Controller { speed: vstd::math::min(spec_slower(self.speed as int), MAX_SPEED as int) as u8, ..self }
    }

    pub open spec fn spec_reset_speed(self) -> Controller {
        Controller { speed: DEFAULT_SPEED, ..self }
    }

    /// Milliseconds left of the sleep ramp at `now`, if one is set.
    pub open spec fn spec_remaining_sleep_ms(&self, now: u64) -> Option<u64> {
        match self.sleep {
            Some(s) => Some(s.spec_remaining_ms(now)),
            None => None,
        }
    }

    /// A controller for a strip of `len` pixels whose clock reads `now`; it
    /// starts on the pattern after `Off`.
    pub fn starting_at(len: usize, now: u64) -> (c: Controller)
        ensures
            c.wf(),
            c == Controller::spec_starting_at(len, now),
    {
        let mut c = Controller {
            mode: Mode::Off,
            len,
            sleep: None,
            brightness: INITIAL_BRIGHTNESS,
            speed: DEFAULT_SPEED,
            last_run: now,
        };
        c.next_at(now);
        c
    }

    /// A controller for a strip of `len` pixels, started against the clock.
    pub fn new(len: usize) -> (c: Controller)
        ensures
            c.wf(),
            exists|t: u64| c == Controller::spec_starting_at(len, t),
    {
        let t = now_ms();
        Controller::starting_at(len, t)
    }

    /// Switches to the pattern `id`, started afresh at `now`.
    pub fn mode_at(&mut self, id: ModeDiscriminants, now: u64)
        requires
            old(self).wf(),
        ensures
            final(self).wf(),
            *final(self) == old(self).spec_mode_at(id, now),
    {
        self.mode = id.new(self.len, now);
    }

    pub fn mode(&mut self, id: ModeDiscriminants)
        requires
            old(self).wf(),
        ensures
            final(self).wf(),
            exists|t: u64| *final(self) == old(self).spec_mode_at(id, t),
    {
        let t = now_ms();
        self.mode_at(id, t);
    }

    pub fn next_at(&mut self, now: u64)
        requires
            old(self).wf(),
        ensures
            final(self).wf(),
            *final(self) == old(self).spec_next_at(now),
    {
        let id = self.mode.kind().next();
        self.mode_at(id, now);
    }

    pub fn next(&mut self)
        requires
            old(self).wf(),
        ensures
            final(self).wf(),
            exists|t: u64| *final(self) == old(self).spec_next_at(t),
    {
        let t = now_ms();
        self.next_at(t);
    }

    pub fn prev_at(&mut self, now: u64)
        requires
            old(self).wf(),
        ensures
            final(self).wf(),
            *final(self) == old(self).spec_prev_at(now),
    {
        let id = self.mode.kind().prev();
        self.mode_at(id, now);
    }

    pub fn prev(&mut self)
        requires
            old(self).wf(),
        ensures
            final(self).wf(),
            exists|t: u64| *final(self) == old(self).spec_prev_at(t),
    {
        let t = now_ms();
        self.prev_at(t);
    }

    /// Runs one tick at `now`: advances the pattern with the time since the
    /// previous tick, and returns the frame to write, if any, with the
    /// brightness to write it at.
    pub fn tick_at(&mut self, now: u64) -> (r: Option<Render>)
        requires
            old(self).wf(),
        ensures
            final(self).wf(),
            (*final(self), r) == old(self).spec_tick_at(now),
    {
        let brightness = match &self.sleep {
            Some(s) => s.remaining(now),
            None => self.brightness,
        };
        let delta = if now >= self.last_run {
            now - self.last_run
        } else {
            0
        };
        self.last_run = now;
        let ctx = Context { speed: self.speed, delta, now };
        match self.mode.tick(ctx) {
            Some(frame) => Some(Render { frame, brightness }),
            None => None,
        }
    }

    /// Runs one tick against the clock.
    pub fn tick(&mut self) -> (r: Option<Render>)
        requires
            old(self).wf(),
        ensures
            final(self).wf(),
            exists|t: u64| (*final(self), r) == old(self).spec_tick_at(t),
    {
        let t = now_ms();
        self.tick_at(t)
    }

    /// Starts a fade to dark over `duration` milliseconds from `now`.
    pub fn start_sleep_at(&mut self, duration: u64, now: u64)
        requires
            old(self).wf(),
        ensures
            final(self).wf(),
            *final(self) == old(self).spec_start_sleep_at(duration, now),
    {
        self.sleep = Some(Sleep::starting_at(SLEEP_END_BRIGHTNESS, SLEEP_START_BRIGHTNESS, duration, now));
    }

    /// Starts a fade to dark over `duration` milliseconds from the clock's time.
    pub fn start_sleep(&mut self, duration: u64)
        requires
            old(self).wf(),
        ensures
            final(self).wf(),
            exists|t: u64| *final(self) == old(self).spec_start_sleep_at(duration, t),
    {
        let t = now_ms();
        self.start_sleep_at(duration, t);
    }

    pub fn stop_sleep(&mut self)
        requires
            old(self).wf(),
        ensures
            final(self).wf(),
            *final(self) == old(self).spec_stop_sleep(),
    {
        self.sleep = None;
    }

    pub fn remaining_sleep_ms_at(&self, now: u64) -> (r: Option<u64>)
        ensures
            r == self.spec_remaining_sleep_ms(now),
    {
        match &self.sleep {
            Some(s) => Some(s.remaining_ms_at(now)),
            None => None,
        }
    }

    /// Milliseconds left of the sleep ramp, if one is set.
    pub fn remaining_sleep_ms(&self) -> (r: Option<u64>)
        ensures
            exists|t: u64| r == self.spec_remaining_sleep_ms(t),
    {
        let t = now_ms();
        self.remaining_sleep_ms_at(t)
    }

    pub fn lighter(&mut self)
        requires
            old(self).wf(),
        ensures
            final(self).wf(),
            *final(self) == old(self).spec_lighter(),
    {
        if self.brightness < u8::MAX {
            self.brightness = self.brightness + 1;
        }
    }

    pub fn darker(&mut self)
        requires
            old(self).wf(),
        ensures
            final(self).wf(),
            *final(self) == old(self).spec_darker(),
    {
        if self.brightness > u8::MIN {
            self.brightness = self.brightness - 1;
        }
    }

    pub fn reset_brightness(&mut self)
        requires
            old(self).wf(),
        ensures
            final(self).wf(),
            *final(self) == old(self).spec_reset_brightness(),
    {
        self.brightness = INITIAL_BRIGHTNESS;
    }

    /// One proportional step quicker: a smaller speed value, never below
    /// `MIN_SPEED`.
    pub fn faster(&mut self)
        requires
            old(self).wf(),
        ensures
            final(self).wf(),
            *final(self) == old(self).spec_faster(),
    {
        let s = faster(self.speed as u64);
        self.speed = s as u8;
    }

    /// One proportional step slower: a larger speed value, never above
    /// `MAX_SPEED`.
    pub fn slower(&mut self)
        requires
            old(self).wf(),
        ensures
            final(self).wf(),
            *final(self) == old(self).spec_slower(),
    {
        let s = slower(self.speed as u64);
        if s > MAX_SPEED as u64 {
            self.speed = MAX_SPEED;
        } else {
            self.speed = s as u8;
        }
    }

    pub fn reset_speed(&mut self)
        requires
            old(self).wf(),
        ensures
            final(self).wf(),
            *final(self) == old(self).spec_reset_speed(),
    {
        self.speed = DEFAULT_SPEED;
    }
}

/// From any speed in range, `faster` lowers the speed until it reaches
/// `MIN_SPEED` and then stays there, and `slower` raises it until it reaches
/// `MAX_SPEED` and then stays there; neither leaves the range.
pub proof fn controller_speed_steps(c: Controller)
    requires
        c.wf(),
    ensures
        MIN_SPEED <= c.spec_faster().speed <= c.speed,
        c.speed > MIN_SPEED ==> c.spec_faster().speed < c.speed,
        c.speed == MIN_SPEED ==> c.spec_faster().speed == MIN_SPEED,
        c.speed <= c.spec_slower().speed <= MAX_SPEED,
        c.speed < MAX_SPEED ==> c.spec_slower().speed > c.speed,
        c.speed == MAX_SPEED ==> c.spec_slower().speed == MAX_SPEED,
{
    speed_steps_are_monotone(c.speed as int);
}

/// On the controller, `next` followed by `prev`, or `prev` followed by
/// `next`, at any times, returns to the pattern it started on, whichever that
/// is, across both ends of the cycle; nothing else that the two calls touch
/// changes but the animation state of the fresh pattern.
pub proof fn controller_next_then_prev(c: Controller, t1: u64, t2: u64)
    ensures
        c.spec_next_at(t1).spec_prev_at(t2).mode_id() == c.mode_id(),
        c.spec_prev_at(t1).spec_next_at(t2).mode_id() == c.mode_id(),
        c.spec_next_at(t1).spec_prev_at(t2).speed == c.speed,
        c.spec_next_at(t1).spec_prev_at(t2).brightness == c.brightness,
        c.spec_next_at(t1).spec_prev_at(t2).sleep == c.sleep,
{
    prev_undoes_next(c.mode_id());
}

/// After `start_sleep` of any positive duration `d` at time `t`, the
/// brightness each tick shows is 16 at `t`, the rounded share of 16 for the
/// time left in between, never rising, and 0 from `t + d` on, for as long as
/// the ramp stays set.
pub proof fn controller_sleep_ramp(c: Controller, d: u64, t: u64, now: u64, later: u64)
    requires
        d > 0,
    ensures
        ({
            let s = c.spec_start_sleep_at(d, t);
            &&& s.spec_brightness_at(t) == SLEEP_START_BRIGHTNESS
            &&& t <= now < t + d ==> s.spec_brightness_at(now) == div_round(
                (t + d - now) * SLEEP_START_BRIGHTNESS,
                d as int,
            )
            &&& now >= t + d ==> s.spec_brightness_at(now) == 0
            &&& t <= now <= later ==> s.spec_brightness_at(later) <= s.spec_brightness_at(now)
        }),
{
    let r = Sleep { start: t, duration: d, min: SLEEP_END_BRIGHTNESS, max: SLEEP_START_BRIGHTNESS };
    sleep_ramp(r, now, later);
}

/// The speed after `n` calls of `faster` from `s`.
pub open spec fn faster_times(s: int, n: nat) -> int
    decreases n,
{
    if n == 0 {
        s
    } else {
        spec_faster(faster_times(s, (n - 1) as nat))
    }
}

/// The speed after `n` calls of `slower` from `s`, within the controller's range.
pub open spec fn slower_times(s: int, n: nat) -> int
    decreases n,
{
    if n == 0 {
        s
    } else {
        vstd::math::min(spec_slower(slower_times(s, (n - 1) as nat)), MAX_SPEED as int)
    }
}

/// Repeating `faster` goes strictly down, call after call, until it reaches
/// `MIN_SPEED`, and never below it; repeating `slower` goes strictly up until it
/// reaches `MAX_SPEED`, and never above it.
pub proof fn repeated_speed_steps(s: int, n: nat)
    requires
        MIN_SPEED <= s <= MAX_SPEED,
    ensures
        MIN_SPEED <= faster_times(s, n + 1) <= faster_times(s, n) <= MAX_SPEED,
        faster_times(s, n) > MIN_SPEED ==> faster_times(s, n + 1) < faster_times(s, n),
        MIN_SPEED <= slower_times(s, n) <= slower_times(s, n + 1) <= MAX_SPEED,
        slower_times(s, n) < MAX_SPEED ==> slower_times(s, n + 1) > slower_times(s, n),
    decreases n,
{
    if n > 0 {
        repeated_speed_steps(s, (n - 1) as nat);
    }
    speed_steps_are_monotone(faster_times(s, n));
    speed_steps_are_monotone(slower_times(s, n));
}

} // verus!
