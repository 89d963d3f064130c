use vstd::prelude::*;

verus! {

/// One pixel of the strip, eight bits per channel.
#[derive(Clone, Copy, Debug, PartialEq, Eq, Structural)]
pub struct Rgb {
    pub r: u8,
    pub g: u8,
    pub b: u8,
}

impl Rgb {
    pub fn new(r: u8, g: u8, b: u8) -> (c: Rgb)
        ensures
            c == (Rgb { r, g, b }),
    {
        Rgb { r, g, b }
    }
}

pub open spec fn black() -> Rgb {
    Rgb { r: 0, g: 0, b: 0 }
}

pub open spec fn red() -> Rgb {
    Rgb { r: 0xFF, g: 0, b: 0 }
}

pub open spec fn blue() -> Rgb {
    Rgb { r: 0, g: 0, b: 0xFF }
}

pub open spec fn yellow() -> Rgb {
    Rgb { r: 0xFF, g: 0xFF, b: 0 }
}

/// Speed at the middle of the range; patterns are tuned around it.
pub const DEFAULT_SPEED: u8 = 128;

/// The number of patterns in the cycle.
pub const MODE_COUNT: u8 = 4;

/// Per-tick input of a pattern: the speed setting, the time since the previous
/// tick and the current time, both in milliseconds.
#[derive(Clone, Copy, Debug, PartialEq, Eq, Structural)]
pub struct Context {
    pub speed: u8,
    pub delta: u64,
    pub now: u64,
}

/// The identity of a pattern, in the order of the cycle.
#[derive(Clone, Copy, Debug, PartialEq, Eq, Structural)]
pub enum ModeDiscriminants {
    Off,
    Fire,
    Rainbow,
    RainbowPart,
}

impl ModeDiscriminants {
    /// Position in the cycle.
    pub open spec fn index(self) -> int {
        match self {
            ModeDiscriminants::Off => 0,
            ModeDiscriminants::Fire => 1,
            ModeDiscriminants::Rainbow => 2,
            ModeDiscriminants::RainbowPart => 3,
        }
    }

    pub open spec fn at_index(i: int) -> ModeDiscriminants {
        if i == 0 {
            ModeDiscriminants::Off
        } else if i == 1 {
            ModeDiscriminants::Fire
        } else if i == 2 {
            ModeDiscriminants::Rainbow
        } else {
            ModeDiscriminants::RainbowPart
        }
    }

    pub open spec fn spec_next(self) -> ModeDiscriminants {
        Self::at_index((self.index() + 1) % (MODE_COUNT as int))
    }

    pub open spec fn spec_prev(self) -> ModeDiscriminants {
        Self::at_index((self.index() + MODE_COUNT - 1) % (MODE_COUNT as int))
    }

    /// The following pattern, wrapping from the last to `Off`.
    pub fn next(&self) -> (r: ModeDiscriminants)
        ensures
            r == self.spec_next(),
    {
        match self {
            ModeDiscriminants::Off => ModeDiscriminants::Fire,
            ModeDiscriminants::Fire => ModeDiscriminants::Rainbow,
            ModeDiscriminants::Rainbow => ModeDiscriminants::RainbowPart,
            ModeDiscriminants::RainbowPart => ModeDiscriminants::Off,
        }
    }

    /// The preceding pattern, wrapping from `Off` to the last.
    pub fn prev(&self) -> (r: ModeDiscriminants)
        ensures
            r == self.spec_prev(),
    {
        match self {
            ModeDiscriminants::Off => ModeDiscriminants::RainbowPart,
            ModeDiscriminants::Fire => ModeDiscriminants::Off,
            ModeDiscriminants::Rainbow => ModeDiscriminants::Fire,
            ModeDiscriminants::RainbowPart => ModeDiscriminants::Rainbow,
        }
    }

    pub open spec fn new_spec(self, len: usize, now: u64) -> Mode {
        match self {
            ModeDiscriminants::Off => Mode::Off,
            ModeDiscriminants::Fire => Mode::Fire(Fire),
            ModeDiscriminants::Rainbow => Mode::Rainbow(Rainbow::spec_new(len, now)),
            ModeDiscriminants::RainbowPart => Mode::RainbowPart(RainbowPart { len }),
        }
    }

    /// A fresh instance of the pattern, its animation phase starting at `now`.
    pub fn new(&self, len: usize, now: u64) -> (m: Mode)
        ensures
            m == self.new_spec(len, now),
            m.id() == *self,
            m.wf(),
    {
        match self {
            ModeDiscriminants::Off => Mode::Off,
            ModeDiscriminants::Fire => Mode::Fire(Fire::new()),
            ModeDiscriminants::Rainbow => Mode::Rainbow(Rainbow::new(len, now)),
            ModeDiscriminants::RainbowPart => Mode::RainbowPart(RainbowPart::new(len)),
        }
    }
}

/// Stepping forward then back, or back then forward, returns to the same pattern,
/// for every pattern including the two ends of the cycle.
pub proof fn prev_undoes_next(m: ModeDiscriminants)
    ensures
        m.spec_next().spec_prev() == m,
        m.spec_prev().spec_next() == m,
{
}

/// A running pattern with its animation state.
pub enum Mode {
    Off,
    Fire(Fire),
    Rainbow(Rainbow),
    RainbowPart(RainbowPart),
}

/// What a pattern hands to the strip on one tick.
#[derive(Clone, Copy, Debug, PartialEq, Eq, Structural)]
pub enum Frame {
    /// The evenly hued ring, rotated left by `offset` positions.
    Rainbow { offset: usize },
    /// The flame at the given point of its clock.
    Fire(FlameClock),
    /// The partial sweep at time `now` and the given speed.
    RainbowPart { now: u64, speed: u8 },
}

impl Mode {
    pub open spec fn id(&self) -> ModeDiscriminants {
        match self {
            Mode::Off => ModeDiscriminants::Off,
            Mode::Fire(_) => ModeDiscriminants::Fire,
            Mode::Rainbow(_) => ModeDiscriminants::Rainbow,
            Mode::RainbowPart(_) => ModeDiscriminants::RainbowPart,
        }
    }

    pub open spec fn wf(&self) -> bool {
        match self {
            Mode::Rainbow(r) => r.wf(),
            _ => true,
        }
    }

    /// The pattern after one tick with `ctx`, and the frame it writes, if any.
    pub open spec fn spec_tick(self, ctx: Context) -> (Mode, Option<Frame>) {
        match self {
            Mode::Off => (self, None),
            Mode::Fire(_) => (self, Some(Frame::Fire(Fire::clock(ctx.speed, ctx.now)))),
            Mode::RainbowPart(_) => (self, Some(Frame::RainbowPart { now: ctx.now, speed: ctx.speed })),
            Mode::Rainbow(r) => {
                let (r2, steps) = r.spec_step(ctx.speed, ctx.now);
                (Mode::Rainbow(r2), if steps > 0 { Some(Frame::Rainbow { offset: r2.offset }) } else { None })
            },
        }
    }

    pub fn kind(&self) -> (r: ModeDiscriminants)
        ensures
            r == self.id(),
    {
        match self {
            Mode::Off => ModeDiscriminants::Off,
            Mode::Fire(_) => ModeDiscriminants::Fire,
            Mode::Rainbow(_) => ModeDiscriminants::Rainbow,
            Mode::RainbowPart(_) => ModeDiscriminants::RainbowPart,
        }
    }

    /// Advances the pattern by one tick and says what to write to the strip,
    /// if anything.
    pub fn tick(&mut self, ctx: Context) -> (f: Option<Frame>)
        requires
            old(self).wf(),
            ctx.speed >= 1,
        ensures
            final(self).wf(),
            final(self).id() == old(self).id(),
            (*final(self), f) == old(self).spec_tick(ctx),
    {
        match self {
            Mode::Off => None,
            Mode::Fire(fire) => Some(Frame::Fire(fire.tick(ctx))),
            Mode::RainbowPart(part) => {
                part.tick(ctx);
                Some(Frame::RainbowPart { now: ctx.now, speed: ctx.speed })
            },
            Mode::Rainbow(rainbow) => {
                if rainbow.tick(ctx) {
                    Some(Frame::Rainbow { offset: rainbow.offset })
                } else {
                    None
                }
            },
        }
    }
}

/// The point a flame animation has reached: its phase is
/// `ticks * 2 / 2^halvings`, from which each pixel's colour is shaded.
#[derive(Clone, Copy, Debug, PartialEq, Eq, Structural)]
pub struct FlameClock {
    pub ticks: u64,
    pub halvings: u8,
}

/// Flickering flame; its state is the clock alone.
pub struct Fire;

impl Fire {
    /// The flame clock at time `now`: the time divided by the speed, and one
    /// halving of the phase rate for each step the speed lies below the default.
    pub open spec fn clock(speed: u8, now: u64) -> FlameClock {
        FlameClock {
            ticks: (now / (speed as u64)) as u64,
            halvings: (if speed < DEFAULT_SPEED { DEFAULT_SPEED - speed } else { 0 }) as u8,
        }
    }

    pub fn new() -> (f: Fire) {
        Fire
    }

    pub fn tick(&mut self, ctx: Context) -> (c: FlameClock)
        requires
            ctx.speed >= 1,
        ensures
            c == Fire::clock(ctx.speed, ctx.now),
    {
        let halvings: u8 = if ctx.speed < DEFAULT_SPEED {
            DEFAULT_SPEED - ctx.speed
        } else {
            0
        };
        FlameClock { ticks: ctx.now / (ctx.speed as u64), halvings }
    }
}

/// The evenly hued ring, turned one position per step; the time a step takes
/// follows the speed.
#[derive(Clone, Copy, Debug, PartialEq, Eq, Structural)]
pub struct Rainbow {
    /// When the last step was due.
    pub last_shift: u64,
    /// How far the ring has turned, in positions, modulo its length.
    pub offset: usize,
    /// The number of pixels in the ring.
    pub len: usize,
}

impl Rainbow {
    pub open spec fn wf(&self) -> bool {
        self.len == 0 || self.offset < self.len
    }

    /// Milliseconds per step: below the midpoint `250 * speed / 128`, from 0 to
    /// 250; from the midpoint on `250 + 750 * (speed - 128) / 128`, from 250 to
    /// 1000.
    pub open spec fn spec_tick_len_ms(speed: u8) -> u64 {
        if speed < DEFAULT_SPEED {
            (250 * speed / 128) as u64
        } else {
            (250 + 750 * (speed - 128) / 128) as u64
        }
    }

    pub open spec fn spec_new(len: usize, now: u64) -> Rainbow {
        Rainbow { last_shift: now, offset: 0, len }
    }

    /// The steps due at `now`, and the state once they are taken: whole steps
    /// only, the remainder of the time carried to the next call.
    pub open spec fn spec_step(self, speed: u8, now: u64) -> (Rainbow, u64) {
        let step = Self::spec_tick_len_ms(speed);
        let elapsed: int = if now >= self.last_shift { now - self.last_shift } else { 0 };
        let steps = (elapsed / (step as int)) as u64;
        let offset = if self.len == 0 {
            self.offset
        } else {
            ((self.offset + steps % (self.len as u64)) % (self.len as int)) as usize
        };
        (Rainbow { last_shift: (self.last_shift + steps * step) as u64, offset, len: self.len }, steps)
    }

    pub fn new(len: usize, now: u64) -> (r: Rainbow)
        ensures
            r == Rainbow::spec_new(len, now),
            r.wf(),
    {
        Rainbow { last_shift: now, offset: 0, len }
    }

    pub fn tick_len_ms(speed: u8) -> (ms: u64)
        ensures
            ms == Rainbow::spec_tick_len_ms(speed),
            speed >= 1 ==> ms >= 1,
    {
        if speed < DEFAULT_SPEED {
            (250 * (speed as u64)) / 128
        } else {
            250 + (750 * ((speed - 128) as u64)) / 128
        }
    }

    /// Takes the steps due at `ctx.now` and returns how many there were.
    pub fn need_update(&mut self, ctx: Context) -> (steps: u64)
        requires
            old(self).wf(),
            ctx.speed >= 1,
        ensures
            (*final(self), steps) == old(self).spec_step(ctx.speed, ctx.now),
            final(self).wf(),
    {
        let step = Self::tick_len_ms(ctx.speed);
        let elapsed = if ctx.now >= self.last_shift {
            ctx.now - self.last_shift
        } else {
            0
        };
        let steps = elapsed / step;
        assert(steps * step <= elapsed) by (nonlinear_arith)
            requires
                steps == elapsed / step,
                step >= 1,
        ;
        self.last_shift = self.last_shift + steps * step;
        if self.len > 0 {
            let turn = (steps % (self.len as u64)) as usize;
            let start = self.offset;
            let room = self.len - start;
            if turn >= room {
                self.offset = turn - room;
            } else {
                self.offset = self.offset + turn;
            }
            let len = self.len;
            let end = self.offset;
            assert(end == (start + turn) % (len as int)) by (nonlinear_arith)
                requires
                    start < len,
                    turn < len,
                    room == len - start,
                    turn >= room ==> end == turn - room,
                    turn < room ==> end == start + turn,
            ;
        }
        steps
    }

    /// Turns the ring by the steps due; true when it turned, and a frame is due.
    pub fn tick(&mut self, ctx: Context) -> (written: bool)
        requires
            old(self).wf(),
            ctx.speed >= 1,
        ensures
            final(self).wf(),
            *final(self) == old(self).spec_step(ctx.speed, ctx.now).0,
            written == (old(self).spec_step(ctx.speed, ctx.now).1 > 0),
    {
        let steps = self.need_update(ctx);
        steps > 0
    }
}

/// Number of positions that a half turn of hue is spread over.
pub const PART_SPAN: usize = 200;

/// A comet-like sweep over part of the hue circle; its hue follows the time
/// directly, so it keeps no animation state, only the strip length.
pub struct RainbowPart {
    pub len: usize,
}

impl RainbowPart {
    pub fn new(len: usize) -> (p: RainbowPart)
        ensures
            p.len == len,
    {
        RainbowPart { len }
    }

    /// The sweep has no state to advance; its frame is a function of the time.
    pub fn tick(&mut self, ctx: Context)
        ensures
            *final(self) == *old(self),
    {
    }
}

/// Colour of pixel `i` in the blue-and-yellow pattern: pairs alternate.
pub open spec fn ua_color(i: int) -> Rgb {
    if (i / 2) % 2 == 0 {
        blue()
    } else {
        yellow()
    }
}

/// Colour of pixel `i` in the black, red and gold pattern: pairs in turn.
pub open spec fn de_color(i: int) -> Rgb {
    if (i / 2) % 3 == 0 {
        black()
    } else if (i / 2) % 3 == 1 {
        red()
    } else {
        yellow()
    }
}

/// The sequence turned one position to the right: the last element comes first.
pub open spec fn rotated_right(s: Seq<Rgb>) -> Seq<Rgb> {
    if s.len() == 0 {
        s
    } else {
        seq![s.last()] + s.drop_last()
    }
}

/// The sequence turned one position to the left: the first element goes last.
pub open spec fn rotated_left(s: Seq<Rgb>) -> Seq<Rgb> {
    if s.len() == 0 {
        s
    } else {
        s.drop_first().push(s[0])
    }
}

/// Static blue-and-yellow stripes that travel one pixel per tick.
pub struct UA;

impl UA {
    pub fn new(pixels: &mut Vec<Rgb>) -> (p: UA)
        ensures
            final(pixels)@.len() == old(pixels)@.len(),
            forall|i: int| 0 <= i < final(pixels)@.len() ==> final(pixels)@[i] == ua_color(i),
    {
        let n = pixels.len();
        let mut i: usize = 0;
        while i < n
            invariant
                i <= n,
                pixels@.len() == n,
                forall|j: int| 0 <= j < i ==> pixels@[j] == ua_color(j),
            decreases n - i,
        {
            let c = if (i / 2) % 2 == 0 {
                Rgb::new(0, 0, 0xFF)
            } else {
                Rgb::new(0xFF, 0xFF, 0)
            };
            pixels.set(i, c);
            i = i + 1;
        }
        UA
    }

    pub fn tick(&mut self, pixels: &mut Vec<Rgb>)
        ensures
            final(pixels)@ == rotated_right(old(pixels)@),
    {
        if pixels.len() > 0 {
            let last = pixels.pop().unwrap();
            pixels.insert(0, last);
            assert(pixels@ =~= rotated_right(old(pixels)@));
        }
    }
}

/// Static black, red and gold stripes that travel one pixel per tick.
pub struct DE;

impl DE {
    pub fn new(pixels: &mut Vec<Rgb>) -> (p: DE)
        ensures
            final(pixels)@.len() == old(pixels)@.len(),
            forall|i: int| 0 <= i < final(pixels)@.len() ==> final(pixels)@[i] == de_color(i),
    {
        let n = pixels.len();
        let mut i: usize = 0;
        while i < n
            invariant
                i <= n,
                pixels@.len() == n,
                forall|j: int| 0 <= j < i ==> pixels@[j] == de_color(j),
            decreases n - i,
        {
            let band = (i / 2) % 3;
            let c = if band == 0 {
                Rgb::new(0, 0, 0)
            } else if band == 1 {
                Rgb::new(0xFF, 0, 0)
            } else {
                Rgb::new(0xFF, 0xFF, 0)
            };
            pixels.set(i, c);
            i = i + 1;
        }
        DE
    }

    pub fn tick(&mut self, pixels: &mut Vec<Rgb>)
        ensures
            final(pixels)@ == rotated_left(old(pixels)@),
    {
        if pixels.len() > 0 {
            let first = pixels.remove(0);
            pixels.push(first);
            assert(pixels@ =~= rotated_left(old(pixels)@));
        }
    }
}

} // verus!
