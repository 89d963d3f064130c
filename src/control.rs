use vstd::prelude::*;

verus! {

/// One per button: the control channel a gesture works on.
#[derive(Clone, Copy, Debug, PartialEq, Eq, Structural)]
pub enum Action {
    A,
    B,
    C,
    D,
}

/// What happens on a channel.
///
/// `Reset` is the chord: a secondary press confirmed while the channel's
/// increment button and one of its decrement buttons are held together.
#[derive(Clone, Copy, Debug, PartialEq, Eq, Structural)]
pub enum Event {
    Start,
    Stop,
    Increase,
    Decrease,
    Reset,
}

#[derive(Clone, Copy, Debug, PartialEq, Eq, Structural)]
pub struct ControlEvent {
    pub action: Action,
    pub event: Event,
}

impl ControlEvent {
    pub fn from(pair: (Action, Event)) -> (e: ControlEvent)
        ensures
            e == (ControlEvent { action: pair.0, event: pair.1 }),
    {
        ControlEvent { action: pair.0, event: pair.1 }
    }
}

/// Time a press must be held before it counts, in milliseconds.
pub const DEBOUNCE_DELAY_MS: u64 = 50;

/// Time between repeats of a held secondary button, in milliseconds.
pub const REPEAT_DELAY_MS: u64 = 250;

/// Latest time the decoder accepts, so that every deadline it sets fits.
pub const TIME_LIMIT: u64 = 0xFFFF_FFFF_FFFF_FF00;

/// One value per button.
#[derive(Clone, Copy, Debug, PartialEq, Eq, Structural)]
pub struct Quad<T> {
    pub a: T,
    pub b: T,
    pub c: T,
    pub d: T,
}

impl<T: Copy> Quad<T> {
    pub open spec fn at(self, x: Action) -> T {
        match x {
            Action::A => self.a,
            Action::B => self.b,
            Action::C => self.c,
            Action::D => self.d,
        }
    }

    pub open spec fn with(self, x: Action, v: T) -> Quad<T> {
        match x {
            Action::A => Quad { a: v, ..self },
            Action::B => Quad { b: v, ..self },
            Action::C => Quad { c: v, ..self },
            Action::D => Quad { d: v, ..self },
        }
    }

    pub fn new(a: T, b: T, c: T, d: T) -> (q: Quad<T>)
        ensures
            q == (Quad { a, b, c, d }),
    {
        Quad { a, b, c, d }
    }

    pub fn get(&self, x: Action) -> (v: T)
        ensures
            v == self.at(x),
    {
        match x {
            Action::A => self.a,
            Action::B => self.b,
            Action::C => self.c,
            Action::D => self.d,
        }
    }
}

/// The button after `x`, going round clockwise: A, B, C, D, A.
pub open spec fn spec_clockwise(x: Action) -> Action {
    match x {
        Action::A => Action::B,
        Action::B => Action::C,
        Action::C => Action::D,
        Action::D => Action::A,
    }
}

pub fn clockwise(x: Action) -> (y: Action)
    ensures
        y == spec_clockwise(x),
{
    match x {
        Action::A => Action::B,
        Action::B => Action::C,
        Action::C => Action::D,
        Action::D => Action::A,
    }
}

/// The buttons that serve a channel while its own button is held.
#[derive(Clone, Copy, Debug, PartialEq, Eq, Structural)]
pub struct Topology {
    pub increment: Action,
    pub first_decrement: Action,
    pub second_decrement: Action,
}

/// Each channel's increment button is its clockwise neighbour; the other two
/// buttons decrement.
pub open spec fn spec_topology(x: Action) -> Topology {
    let inc = spec_clockwise(x);
    let d1 = spec_clockwise(inc);
    Topology { increment: inc, first_decrement: d1, second_decrement: spec_clockwise(d1) }
}

pub fn topology(x: Action) -> (t: Topology)
    ensures
        t == spec_topology(x),
{
    let inc = clockwise(x);
    let d1 = clockwise(inc);
    Topology { increment: inc, first_decrement: d1, second_decrement: clockwise(d1) }
}

/// Where one button stands in the decoder.
#[derive(Clone, Copy, Debug, PartialEq, Eq, Structural)]
pub enum LineState {
    /// Held from before; it must be released before it can count.
    WaitRelease,
    /// Released; waiting for a press.
    WaitPress,
    /// Pressed at `t - DEBOUNCE_DELAY_MS` and held since; it counts if still
    /// held at `t`.
    Debounce(u64),
    /// Held through the last event; it fires again if still held at `t`.
    Repeat(u64),
}

impl LineState {
    pub open spec fn deadline(self) -> Option<u64> {
        match self {
            LineState::Debounce(t) => Some(t),
            LineState::Repeat(t) => Some(t),
            _ => None,
        }
    }

    /// The button counts at `now`: held, with its deadline reached.
    pub open spec fn ready(self, pressed: bool, now: u64) -> bool {
        pressed && match self.deadline() {
            Some(t) => now >= t,
            None => false,
        }
    }

    /// The button's next state when nothing fires: a release drops any pending
    /// press, and a press from rest starts the debounce window.
    pub open spec fn advance(self, pressed: bool, now: u64) -> LineState {
        if !pressed {
            LineState::WaitPress
        } else {
            match self {
                LineState::WaitPress => LineState::Debounce((now + DEBOUNCE_DELAY_MS) as u64),
                _ => self,
            }
        }
    }

    /// A secondary button as the channel (re)starts: a held one waits a full
    /// repeat interval, a released one waits for a press.
    pub open spec fn rearm(pressed: bool, now: u64) -> LineState {
        if pressed {
            LineState::Repeat((now + REPEAT_DELAY_MS) as u64)
        } else {
            LineState::WaitPress
        }
    }

    /// A button as the decoder goes back to waiting for a new gesture: a held
    /// one must first be released.
    pub open spec fn reopen(pressed: bool) -> LineState {
        if pressed {
            LineState::WaitRelease
        } else {
            LineState::WaitPress
        }
    }

    pub fn ready_exec(&self, pressed: bool, now: u64) -> (r: bool)
        ensures
            r == self.ready(pressed, now),
    {
        if !pressed {
            return false;
        }
        match self {
            LineState::Debounce(t) => now >= *t,
            LineState::Repeat(t) => now >= *t,
            _ => false,
        }
    }

    pub fn advance_exec(&self, pressed: bool, now: u64) -> (r: LineState)
        requires
            now <= TIME_LIMIT,
        ensures
            r == self.advance(pressed, now),
    {
        if !pressed {
            LineState::WaitPress
        } else {
            match self {
                LineState::WaitPress => LineState::Debounce(now + DEBOUNCE_DELAY_MS),
                _ => *self,
            }
        }
    }

    pub fn rearm_exec(pressed: bool, now: u64) -> (r: LineState)
        requires
            now <= TIME_LIMIT,
        ensures
            r == LineState::rearm(pressed, now),
    {
        if pressed {
            LineState::Repeat(now + REPEAT_DELAY_MS)
        } else {
            LineState::WaitPress
        }
    }

    pub fn reopen_exec(pressed: bool) -> (r: LineState)
        ensures
            r == LineState::reopen(pressed),
    {
        if pressed {
            LineState::WaitRelease
        } else {
            LineState::WaitPress
        }
    }
}

/// Button levels: `true` where a button is held.
pub type Levels = Quad<bool>;

/// Turns the four buttons into gestures. While no button is held as the
/// channel's own (`session` is `None`) each button waits for a debounced press;
/// the first to count opens its channel. While a channel is open its own button
/// is watched for release and the other three act as increment and decrement.
#[derive(Clone, Copy, Debug, PartialEq, Eq, Structural)]
pub struct Decoder {
    pub lines: Quad<LineState>,
    pub session: Option<Action>,
}

/// The first of the candidates, in order, that counts at `now`.
pub open spec fn first_ready(
    lines: Quad<LineState>,
    levels: Levels,
    now: u64,
    order: Seq<Action>,
) -> Option<Action>
    decreases order.len(),
{
    if order.len() == 0 {
        None
    } else if lines.at(order[0]).ready(levels.at(order[0]), now) {
        Some(order[0])
    } else {
        first_ready(lines, levels, now, order.drop_first())
    }
}

pub open spec fn all_buttons() -> Seq<Action> {
    seq![Action::A, Action::B, Action::C, Action::D]
}

pub open spec fn secondaries(x: Action) -> Seq<Action> {
    let t = spec_topology(x);
    seq![t.increment, t.first_decrement, t.second_decrement]
}

pub open spec fn advance_all(lines: Quad<LineState>, levels: Levels, now: u64) -> Quad<LineState> {
    Quad {
        a: lines.a.advance(levels.a, now),
        b: lines.b.advance(levels.b, now),
        c: lines.c.advance(levels.c, now),
        d: lines.d.advance(levels.d, now),
    }
}

pub open spec fn reopen_all(levels: Levels) -> Quad<LineState> {
    Quad {
        a: LineState::reopen(levels.a),
        b: LineState::reopen(levels.b),
        c: LineState::reopen(levels.c),
        d: LineState::reopen(levels.d),
    }
}

/// Lines as channel `x` opens or fires: its own button is only watched for
/// release, the others are rearmed.
pub open spec fn rearm_all(x: Action, levels: Levels, now: u64) -> Quad<LineState> {
    let r = Quad {
        a: LineState::rearm(levels.a, now),
        b: LineState::rearm(levels.b, now),
        c: LineState::rearm(levels.c, now),
        d: LineState::rearm(levels.d, now),
    };
    r.with(x, LineState::WaitRelease)
}

/// The event a secondary button fires on channel `x`.
pub open spec fn secondary_event(x: Action, y: Action, levels: Levels) -> Event {
    let t = spec_topology(x);
    if levels.at(t.increment) && (levels.at(t.first_decrement) || levels.at(t.second_decrement)) {
        Event::Reset
    } else if y == t.increment {
        Event::Increase
    } else {
        Event::Decrease
    }
}

impl Decoder {
    /// Every button must be seen released before its first press counts.
    pub open spec fn spec_new() -> Decoder {
        Decoder {
            lines: Quad {
                a: LineState::WaitRelease,
                b: LineState::WaitRelease,
                c: LineState::WaitRelease,
                d: LineState::WaitRelease,
            },
            session: None,
        }
    }

    /// One step: at time `now` the buttons are at `levels`.
    pub open spec fn spec_step(self, now: u64, levels: Levels) -> (Decoder, Option<ControlEvent>) {
        match self.session {
            None => match first_ready(self.lines, levels, now, all_buttons()) {
                Some(x) => (
                    Decoder { lines: rearm_all(x, levels, now), session: Some(x) },
                    Some(ControlEvent { action: x, event: Event::Start }),
                ),
                None => (Decoder { lines: advance_all(self.lines, levels, now), session: None }, None),
            },
            Some(x) => if !levels.at(x) {
                (
                    Decoder { lines: reopen_all(levels), session: None },
                    Some(ControlEvent { action: x, event: Event::Stop }),
                )
            } else {
                match first_ready(self.lines, levels, now, secondaries(x)) {
                    Some(y) => (
                        Decoder { lines: rearm_all(x, levels, now), session: Some(x) },
                        Some(ControlEvent { action: x, event: secondary_event(x, y, levels) }),
                    ),
                    None => (
                        Decoder {
                            lines: advance_all(self.lines, levels, now).with(x, LineState::WaitRelease),
                            session: Some(x),
                        },
                        None,
                    ),
                }
            },
        }
    }

    pub fn new() -> (d: Decoder)
        ensures
            d == Decoder::spec_new(),
    {
        let w = LineState::WaitRelease;
        Decoder { lines: Quad::new(w, w, w, w), session: None }
    }

    /// Feeds the decoder the button levels seen at time `now`, and returns the
    /// event they give, if any. The caller reports every change of a level,
    /// and calls again at the time `next_deadline` gives.
    pub fn step(&mut self, now: u64, levels: Levels) -> (e: Option<ControlEvent>)
        requires
            now <= TIME_LIMIT,
        ensures
            (*final(self), e) == old(self).spec_step(now, levels),
    {
        match self.session {
            None => {
                let found = first_ready_exec(&self.lines, &levels, now, Action::A, Action::B, Action::C, Action::D);
                assert(seq![Action::A, Action::B, Action::C, Action::D] =~= all_buttons());
                match found {
                    Some(x) => {
                        self.lines = rearm_all_exec(x, &levels, now);
                        self.session = Some(x);
                        Some(ControlEvent { action: x, event: Event::Start })
                    },
                    None => {
                        self.lines = advance_all_exec(&self.lines, &levels, now);
                        None
                    },
                }
            },
            Some(x) => {
                if !levels.get(x) {
                    self.lines = reopen_all_exec(&levels);
                    self.session = None;
                    Some(ControlEvent { action: x, event: Event::Stop })
                } else {
                    let t = topology(x);
                    let found = first_ready_exec3(&self.lines, &levels, now, t.increment, t.first_decrement, t.second_decrement);
                    match found {
                        Some(y) => {
                            let inc = levels.get(t.increment);
                            let dec = levels.get(t.first_decrement) || levels.get(t.second_decrement);
                            let event = if inc && dec {
                                Event::Reset
                            } else if y == t.increment {
                                Event::Increase
                            } else {
                                Event::Decrease
                            };
                            self.lines = rearm_all_exec(x, &levels, now);
                            Some(ControlEvent { action: x, event })
                        },
                        None => {
                            let mut lines = advance_all_exec(&self.lines, &levels, now);
                            set_line(&mut lines, x, LineState::WaitRelease);
                            self.lines = lines;
                            None
                        },
                    }
                }
            },
        }
    }

    /// The earliest time at which a held button may count without any level
    /// changing; the caller steps the decoder then.
    pub fn next_deadline(&self) -> (t: Option<u64>)
        ensures
            t is Some <==> exists|x: Action| (#[trigger] self.lines.at(x)).deadline() is Some,
            forall|x: Action|
                #![trigger self.lines.at(x)]
                self.lines.at(x).deadline() is Some ==> t is Some && t->0 <= self.lines.at(x).deadline()->0,
            t is Some ==> exists|x: Action| (#[trigger] self.lines.at(x)).deadline() == t,
    {
        let mut best: Option<u64> = None;
        best = earlier(best, deadline_of(&self.lines.a));
        best = earlier(best, deadline_of(&self.lines.b));
        best = earlier(best, deadline_of(&self.lines.c));
        best = earlier(best, deadline_of(&self.lines.d));
        assert(self.lines.at(Action::A) == self.lines.a);
        assert(self.lines.at(Action::B) == self.lines.b);
        assert(self.lines.at(Action::C) == self.lines.c);
        assert(self.lines.at(Action::D) == self.lines.d);
        assert forall|x: Action| #![trigger self.lines.at(x)]
            self.lines.at(x).deadline() is Some implies best is Some && best->0 <= self.lines.at(x).deadline()->0
        by {
            match x {
                Action::A => {},
                Action::B => {},
                Action::C => {},
                Action::D => {},
            }
        }
        best
    }
}

fn deadline_of(s: &LineState) -> (t: Option<u64>)
    ensures
        t == s.deadline(),
{
    match s {
        LineState::Debounce(t) => Some(*t),
        LineState::Repeat(t) => Some(*t),
        _ => None,
    }
}

fn earlier(a: Option<u64>, b: Option<u64>) -> (r: Option<u64>)
    ensures
        r is Some <==> (a is Some || b is Some),
        a is Some ==> r is Some && r->0 <= a->0,
        b is Some ==> r is Some && r->0 <= b->0,
        r is Some ==> r == a || r == b,
{
    match (a, b) {
        (Some(x), Some(y)) => if x <= y {
            Some(x)
        } else {
            Some(y)
        },
        (Some(x), None) => Some(x),
        (None, y) => y,
    }
}

fn set_line(lines: &mut Quad<LineState>, x: Action, v: LineState)
    ensures
        *final(lines) == old(lines).with(x, v),
{
    match x {
        Action::A => lines.a = v,
        Action::B => lines.b = v,
        Action::C => lines.c = v,
        Action::D => lines.d = v,
    }
}

fn first_ready_exec(
    lines: &Quad<LineState>,
    levels: &Levels,
    now: u64,
    p: Action,
    q: Action,
    r: Action,
    s: Action,
) -> (f: Option<Action>)
    ensures
        f == first_ready(*lines, *levels, now, seq![p, q, r, s]),
{
    assert(seq![p, q, r, s].drop_first() =~= seq![q, r, s]);
    if lines.get(p).ready_exec(levels.get(p), now) {
        Some(p)
    } else {
        first_ready_exec3(lines, levels, now, q, r, s)
    }
}

fn first_ready_exec3(
    lines: &Quad<LineState>,
    levels: &Levels,
    now: u64,
    q: Action,
    r: Action,
    s: Action,
) -> (f: Option<Action>)
    ensures
        f == first_ready(*lines, *levels, now, seq![q, r, s]),
{
    assert(seq![q, r, s].drop_first() =~= seq![r, s]);
    assert(seq![r, s].drop_first() =~= seq![s]);
    assert(seq![s].drop_first() =~= Seq::<Action>::empty());
    proof {
        reveal_with_fuel(first_ready, 4);
    }
    if lines.get(q).ready_exec(levels.get(q), now) {
        Some(q)
    } else if lines.get(r).ready_exec(levels.get(r), now) {
        Some(r)
    } else if lines.get(s).ready_exec(levels.get(s), now) {
        Some(s)
    } else {
        None
    }
}

fn advance_all_exec(lines: &Quad<LineState>, levels: &Levels, now: u64) -> (r: Quad<LineState>)
    requires
        now <= TIME_LIMIT,
    ensures
        r == advance_all(*lines, *levels, now),
{
    Quad {
        a: lines.a.advance_exec(levels.a, now),
        b: lines.b.advance_exec(levels.b, now),
        c: lines.c.advance_exec(levels.c, now),
        d: lines.d.advance_exec(levels.d, now),
    }
}

fn reopen_all_exec(levels: &Levels) -> (r: Quad<LineState>)
    ensures
        r == reopen_all(*levels),
{
    Quad {
        a: LineState::reopen_exec(levels.a),
        b: LineState::reopen_exec(levels.b),
        c: LineState::reopen_exec(levels.c),
        d: LineState::reopen_exec(levels.d),
    }
}

fn rearm_all_exec(x: Action, levels: &Levels, now: u64) -> (r: Quad<LineState>)
    requires
        now <= TIME_LIMIT,
    ensures
        r == rearm_all(x, *levels, now),
{
    let mut r = Quad {
        a: LineState::rearm_exec(levels.a, now),
        b: LineState::rearm_exec(levels.b, now),
        c: LineState::rearm_exec(levels.c, now),
        d: LineState::rearm_exec(levels.d, now),
    };
    set_line(&mut r, x, LineState::WaitRelease);
    r
}

/// The decoder after each of `steps`, a time and the levels seen then, in turn.
pub open spec fn run(d: Decoder, steps: Seq<(u64, Levels)>) -> Decoder
    decreases steps.len(),
{
    if steps.len() == 0 {
        d
    } else {
        run(d, steps.drop_last()).spec_step(steps.last().0, steps.last().1).0
    }
}

/// The event the last of `steps` gives.
pub open spec fn last_event(d: Decoder, steps: Seq<(u64, Levels)>) -> Option<ControlEvent> {
    run(d, steps.drop_last()).spec_step(steps.last().0, steps.last().1).1
}

/// Button `x` was seen held in every one of `steps` from index `k` on.
pub open spec fn held_from(steps: Seq<(u64, Levels)>, x: Action, k: int) -> bool {
    forall|i: int| k <= i < steps.len() ==> (#[trigger] steps[i]).1.at(x)
}

/// While no channel is open, a pending press of `x` began at a step where `x`
/// was held, the debounce delay before its deadline, and `x` has been held since.
pub open spec fn pending_press_held(d: Decoder, steps: Seq<(u64, Levels)>, x: Action) -> bool {
    d.session is None ==> match d.lines.at(x) {
        LineState::Debounce(t) => exists|k: int|
            0 <= k < steps.len() && (#[trigger] steps[k]).0 + DEBOUNCE_DELAY_MS == t && held_from(
                steps,
                x,
                k,
            ),
        LineState::Repeat(_) => false,
        _ => true,
    }
}

proof fn first_ready_is_ready(lines: Quad<LineState>, levels: Levels, now: u64, order: Seq<Action>)
    ensures
        first_ready(lines, levels, now, order) matches Some(y) ==> lines.at(y).ready(levels.at(y), now)
            && order.contains(y),
    decreases order.len(),
{
    if order.len() > 0 {
        first_ready_is_ready(lines, levels, now, order.drop_first());
        if let Some(y) = first_ready(lines, levels, now, order.drop_first()) {
            if !lines.at(order[0]).ready(levels.at(order[0]), now) {
                let i = choose|i: int| 0 <= i < order.drop_first().len() && order.drop_first()[i] == y;
                assert(order[i + 1] == y);
            }
        }
    }
}

proof fn lines_at(lines: Quad<LineState>, levels: Levels, now: u64, x: Action)
    ensures
        advance_all(lines, levels, now).at(x) == lines.at(x).advance(levels.at(x), now),
        reopen_all(levels).at(x) == LineState::reopen(levels.at(x)),
{
    match x {
        Action::A => {},
        Action::B => {},
        Action::C => {},
        Action::D => {},
    }
}

/// Every step's time leaves room for the deadlines the decoder sets.
pub open spec fn times_in_range(steps: Seq<(u64, Levels)>) -> bool {
    forall|i: int| 0 <= i < steps.len() ==> (#[trigger] steps[i]).0 <= TIME_LIMIT
}

proof fn pending_press_invariant(d: Decoder, steps: Seq<(u64, Levels)>, x: Action)
    requires
        d.session is None ==> d.lines.at(x).deadline() is None,
        times_in_range(steps),
    ensures
        pending_press_held(run(d, steps), steps, x),
    decreases steps.len(),
{
    if steps.len() > 0 {
        let prev = steps.drop_last();
        assert forall|i: int| 0 <= i < prev.len() implies (#[trigger] prev[i]).0 <= TIME_LIMIT by {
            assert(prev[i] == steps[i]);
        }
        pending_press_invariant(d, prev, x);
        let pre = run(d, prev);
        let (now, levels) = steps.last();
        let post = run(d, steps);
        assert(post == pre.spec_step(now, levels).0);
        let n = steps.len() - 1;
        assert(steps[n] == steps.last());
        lines_at(pre.lines, levels, now, x);
        if post.session is None && pre.session is None {
            first_ready_is_ready(pre.lines, levels, now, all_buttons());
            if first_ready(pre.lines, levels, now, all_buttons()) is None {
                match pre.lines.at(x) {
                    LineState::Debounce(t) => {
                        if levels.at(x) {
                            let k = choose|k: int|
                                0 <= k < prev.len() && (#[trigger] prev[k]).0 + DEBOUNCE_DELAY_MS == t
                                    && held_from(prev, x, k);
                            assert(steps[k] == prev[k]);
                            assert forall|i: int| k <= i < steps.len() implies (#[trigger] steps[i]).1.at(x) by {
                                if i < n {
                                    assert(steps[i] == prev[i]);
                                }
                            }
                        }
                    },
                    LineState::WaitPress => {
                        if levels.at(x) {
                            assert(steps[n] == steps.last());
                            assert forall|i: int| n <= i < steps.len() implies (#[trigger] steps[i]).1.at(x) by {
                                assert(i == n);
                            }
                        }
                    },
                    _ => {},
                }
            }
        }
    }
}

/// A channel opens only on a press that was seen held, with no release in
/// between, from at least the debounce delay before up to the step that opens
/// it: a press shorter than the delay gives no `Start`. This holds for every
/// sequence of steps from a decoder with no press pending, such as a new one.
pub proof fn start_needs_debounced_press(d: Decoder, steps: Seq<(u64, Levels)>, x: Action)
    requires
        d.session is None ==> forall|y: Action| (#[trigger] d.lines.at(y)).deadline() is None,
        steps.len() > 0,
        times_in_range(steps),
        last_event(d, steps) == Some(ControlEvent { action: x, event: Event::Start }),
    ensures
        exists|k: int|
            0 <= k < steps.len() && (#[trigger] steps[k]).0 + DEBOUNCE_DELAY_MS <= steps.last().0
                && held_from(steps, x, k),
{
    let prev = steps.drop_last();
    let pre = run(d, prev);
    let (now, levels) = steps.last();
    let n = steps.len() - 1;
    assert forall|i: int| 0 <= i < prev.len() implies (#[trigger] prev[i]).0 <= TIME_LIMIT by {
        assert(prev[i] == steps[i]);
    }
    pending_press_invariant(d, prev, x);
    assert(pre.session is None) by {
        if pre.session is Some {
            let w = pre.session->0;
            if levels.at(w) {
                if let Some(y) = first_ready(pre.lines, levels, now, secondaries(w)) {
                } else {
                }
            }
        }
    }
    first_ready_is_ready(pre.lines, levels, now, all_buttons());
    let t = pre.lines.at(x)->Debounce_0;
    let k = choose|k: int|
        0 <= k < prev.len() && (#[trigger] prev[k]).0 + DEBOUNCE_DELAY_MS == t && held_from(prev, x, k);
    assert(steps[k] == prev[k]);
    assert forall|i: int| k <= i < steps.len() implies (#[trigger] steps[i]).1.at(x) by {
        if i < n {
            assert(steps[i] == prev[i]);
        } else {
            assert(steps[i] == steps.last());
        }
    }
}

/// When a channel opens, each other button that is held waits a full repeat
/// interval before it can fire, and each released one waits for a new press:
/// no event follows `Start` at once.
pub proof fn start_arms_full_repeat(d: Decoder, now: u64, levels: Levels, x: Action, y: Action)
    requires
        d.spec_step(now, levels).1 == Some(ControlEvent { action: x, event: Event::Start }),
        y != x,
    ensures
        d.spec_step(now, levels).0.session == Some(x),
        d.spec_step(now, levels).0.lines.at(y) == (if levels.at(y) {
            LineState::Repeat((now + REPEAT_DELAY_MS) as u64)
        } else {
            LineState::WaitPress
        }),
{
    if d.session is Some {
        let w = d.session->0;
        if levels.at(w) {
            if let Some(z) = first_ready(d.lines, levels, now, secondaries(w)) {
            } else {
            }
        }
    }
}

/// In an open channel whose own button stays held, a secondary button `y`
/// held alone repeats exactly every repeat interval: before its deadline
/// nothing fires; at or after it, `y` fires its event and is due again one
/// full interval later.
pub proof fn held_button_repeats(d: Decoder, now: u64, levels: Levels, x: Action, y: Action, t: u64)
    requires
        d.session == Some(x),
        levels.at(x),
        secondaries(x).contains(y),
        d.lines.at(y) == LineState::Repeat(t),
        levels.at(y),
        forall|z: Action| z != x && z != y ==> !(#[trigger] levels.at(z)),
        now <= TIME_LIMIT,
    ensures
        now < t ==> d.spec_step(now, levels).1 is None && d.spec_step(now, levels).0.lines.at(y)
            == LineState::Repeat(t),
        now >= t ==> d.spec_step(now, levels).1 == Some(
            ControlEvent {
                action: x,
                event: if y == spec_topology(x).increment {
                    Event::Increase
                } else {
                    Event::Decrease
                },
            },
        ) && d.spec_step(now, levels).0.lines.at(y) == LineState::Repeat((now + REPEAT_DELAY_MS) as u64),
{
    let order = secondaries(x);
    let top = spec_topology(x);
    reveal_with_fuel(first_ready, 4);
    assert(order.drop_first() =~= seq![top.first_decrement, top.second_decrement]);
    assert(order.drop_first().drop_first() =~= seq![top.second_decrement]);
    assert(order.drop_first().drop_first().drop_first() =~= Seq::<Action>::empty());
    assert(levels.at(top.increment) == (y == top.increment));
    assert(levels.at(top.first_decrement) == (y == top.first_decrement));
    assert(levels.at(top.second_decrement) == (y == top.second_decrement));
}

} // verus!
