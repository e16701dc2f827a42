//! The emitter of one connection: a state machine that the caller drives.
//!
//! The session tells the caller what to do next (draw a value, wait, write a
//! line); the caller does it and reports what happened. The session decides
//! when a value may go out, counts what was written, and closes on the first
//! write that fails.

use crate::rate::is_period;
use crate::rate::RateLimiter;
use crate::rate::NANOS_AT_UNIT_RATE;
use vstd::prelude::*;

verus! {

/// Where a session stands.
#[derive(Clone, Copy, Debug, PartialEq, Eq, Structural)]
pub enum Phase {
    /// A value is to be drawn.
    Sampling,
    /// A value is drawn and waits for the limiter.
    RateGated,
    /// The limiter has let the value pass; it is to be written.
    Writing,
    /// A write has failed. Nothing follows.
    Closed,
}

/// What the caller reports.
#[derive(Clone, Copy, Debug, PartialEq, Eq, Structural)]
pub enum Event {
    /// The value that was drawn.
    Sampled(u64),
    /// The time, after a wait.
    Clock(u64),
    /// The line was written.
    Written,
    /// The line could not be written, at the given time.
    WriteFailed(u64),
}

/// What the caller is to do.
#[derive(Clone, Copy, Debug, PartialEq, Eq, Structural)]
pub enum Action {
    /// Draw a value and report it.
    Sample,
    /// Wait until the given time and report the time.
    WaitUntil(u64),
    /// Write the line of the given value and report how it went.
    Write(u64),
    /// Stop: the session is closed.
    Stop,
}

/// A session, as the contracts see it.
pub struct SessionView {
    pub phase: Phase,
    pub limiter: RateLimiter,
    /// The value that waits or is being written.
    pub value: u64,
    /// The number of lines written.
    pub emitted: u64,
    /// When the session started.
    pub started: u64,
    /// When the session closed; the start until then.
    pub ended: u64,
    /// When the limiter first let a value pass, if it has.
    pub first: Option<u64>,
    /// How many values the limiter has let pass.
    pub opened: nat,
}

impl SessionView {
    /// The session as it starts at `now`.
    pub open spec fn initial(period: u64, now: u64) -> SessionView {
        SessionView {
            phase: Phase::Sampling,
            limiter: RateLimiter { period, last: None },
            value: 0,
            emitted: 0,
            started: now,
            ended: now,
            first: None,
            opened: 0,
        }
    }

    /// What holds of every session: no more lines are written than values
    /// have passed the limiter, and the values that passed lie a period apart
    /// or more.
    pub open spec fn wf(self) -> bool {
        &&& self.emitted <= self.opened
        &&& self.phase == Phase::Writing ==> self.emitted < self.opened
        &&& (self.opened == 0) == (self.limiter.last is None)
        &&& (self.opened == 0) == (self.first is None)
        &&& self.opened > 0 ==> {
            &&& self.first->0 <= self.limiter.last->0
            &&& (self.opened - 1) * self.limiter.period <= self.limiter.last->0 - self.first->0
        }
    }

    /// What the caller is to do in this state.
    pub open spec fn pending(self) -> Action {
        match self.phase {
            Phase::Sampling => Action::Sample,
            Phase::RateGated => Action::WaitUntil(
                if self.limiter.due_at() <= u64::MAX {
                    self.limiter.due_at() as u64
                } else {
                    u64::MAX
                },
            ),
            Phase::Writing => Action::Write(self.value),
            Phase::Closed => Action::Stop,
        }
    }

    /// The state that follows on an event. An event that the phase does not
    /// wait for changes nothing. The count of written lines stops at the
    /// greatest number that 64 bits hold.
    pub open spec fn next(self, event: Event) -> SessionView {
        match (self.phase, event) {
            (Phase::Sampling, Event::Sampled(value)) => SessionView {
                phase: Phase::RateGated,
                value,
                ..self
            },
            (Phase::RateGated, Event::Clock(now)) => if self.limiter.due_at() <= now {
                SessionView {
                    phase: Phase::Writing,
                    limiter: self.limiter.passed(now),
                    first: if self.first is None {
                        Some(now)
                    } else {
                        self.first
                    },
                    opened: self.opened + 1,
                    ..self
                }
            } else {
                self
            },
            (Phase::Writing, Event::Written) => SessionView {
                phase: Phase::Sampling,
                emitted: if self.emitted < u64::MAX {
                    (self.emitted + 1) as u64
                } else {
                    self.emitted
                },
                ..self
            },
            (Phase::Writing, Event::WriteFailed(now)) => SessionView {
                phase: Phase::Closed,
                ended: now,
                ..self
            },
            _ => self,
        }
    }

    /// The time from the start to the close, in nanoseconds.
    pub open spec fn elapsed(self) -> int {
        if self.ended >= self.started {
            self.ended - self.started
        } else {
            0
        }
    }
}

/// Every step keeps what holds of every session.
pub proof fn lemma_step_keeps_wf(s: SessionView, event: Event)
    requires
        s.wf(),
    ensures
        s.next(event).wf(),
{
    let t = s.next(event);
    match (s.phase, event) {
        (Phase::RateGated, Event::Clock(now)) => {
            if s.limiter.due_at() <= now {
                if s.opened > 0 {
                    assert(s.opened * s.limiter.period == (s.opened - 1) * s.limiter.period
                        + s.limiter.period) by (nonlinear_arith);
                } else {
                    assert(0 * s.limiter.period == 0) by (nonlinear_arith);
                }
            }
        },
        _ => {},
    }
}

/// A session never runs faster than its rate: from the first value that
/// passed the limiter to the last, at least one period went by for each line
/// written but one.
pub proof fn lemma_never_faster(s: SessionView)
    requires
        s.wf(),
        s.emitted >= 1,
    ensures
        s.first is Some,
        s.limiter.last is Some,
        (s.emitted - 1) * s.limiter.period <= s.limiter.last->0 - s.first->0,
{
    assert((s.emitted - 1) * s.limiter.period <= (s.opened - 1) * s.limiter.period) by (nonlinear_arith)
        requires
            1 <= s.emitted <= s.opened,
            0 <= s.limiter.period,
    ;
}

/// A session keeps its rate: the lines written but one, each at the time one
/// value takes at `rate` thousandths per second, fit between the first value
/// that passed the limiter and the last.
pub proof fn lemma_rate_is_kept(s: SessionView, rate: u64)
    requires
        s.wf(),
        s.emitted >= 1,
        is_period(s.limiter.period, rate),
    ensures
        (s.emitted - 1) * NANOS_AT_UNIT_RATE <= (s.limiter.last->0 - s.first->0) * rate,
{
    lemma_never_faster(s);
    let n = s.emitted - 1;
    let span = s.limiter.last->0 - s.first->0;
    let period = s.limiter.period as int;
    assert(n * NANOS_AT_UNIT_RATE <= n * (period * rate)) by (nonlinear_arith)
        requires
            0 <= n,
            NANOS_AT_UNIT_RATE <= period * rate,
    ;
    assert(n * (period * rate) == (n * period) * rate) by (nonlinear_arith);
    assert((n * period) * rate <= span * rate) by (nonlinear_arith)
        requires
            n * period <= span,
            0 <= rate,
    ;
}

/// The state that a session is in after the events of `events`, in order.
pub open spec fn after(s: SessionView, events: Seq<Event>) -> SessionView
    decreases events.len(),
{
    if events.len() == 0 {
        s
    } else {
        after(s, events.drop_last()).next(events.last())
    }
}

/// Whatever is reported to a session, and in whatever order, it never runs
/// faster than its rate and never changes its period.
pub proof fn lemma_every_run_keeps_the_rate(period: u64, now: u64, events: Seq<Event>)
    ensures
        ({
            let s = after(SessionView::initial(period, now), events);
            &&& s.wf()
            &&& s.limiter.period == period
            &&& s.emitted >= 1 ==> (s.emitted - 1) * period <= s.limiter.last->0 - s.first->0
        }),
    decreases events.len(),
{
    let start = SessionView::initial(period, now);
    if events.len() > 0 {
        lemma_every_run_keeps_the_rate(period, now, events.drop_last());
        lemma_step_keeps_wf(after(start, events.drop_last()), events.last());
    }
    let s = after(start, events);
    if s.emitted >= 1 {
        lemma_never_faster(s);
    }
}

/// A waiting value is asked to wait no longer than until one period after the
/// value before it, and not at all if there was none before it.
pub proof fn lemma_wait_is_one_period(s: SessionView)
    requires
        s.phase == Phase::RateGated,
    ensures
        s.pending() matches Action::WaitUntil(t) && t <= s.limiter.due_at() && (s.limiter.last is None
            ==> t == 0) && (s.limiter.last is Some && t < u64::MAX ==> t == s.limiter.last->0
            + s.limiter.period),
{
}

/// A closed session stays closed, whatever is reported.
pub proof fn lemma_closed_is_final(s: SessionView, event: Event)
    requires
        s.phase == Phase::Closed,
    ensures
        s.next(event) == s,
{
}

/// A session closes on a failed write and on nothing else.
pub proof fn lemma_closes_on_failed_write(s: SessionView, event: Event)
    requires
        s.phase != Phase::Closed,
    ensures
        s.next(event).phase == Phase::Closed <==> s.phase == Phase::Writing
            && event is WriteFailed,
{
}

/// The session of one connection.
pub struct Session {
    phase: Phase,
    limiter: RateLimiter,
    value: u64,
    emitted: u64,
    started: u64,
    ended: u64,
    first: Option<u64>,
    opened: Ghost<nat>,
}

impl View for Session {
    type V = SessionView;

    closed spec fn view(&self) -> SessionView {
        SessionView {
            phase: self.phase,
            limiter: self.limiter,
            value: self.value,
            emitted: self.emitted,
            started: self.started,
            ended: self.ended,
            first: self.first,
            opened: self.opened@,
        }
    }
}

impl Session {
    #[verifier::type_invariant]
    spec fn inv(&self) -> bool {
        self@.wf()
    }

    /// Starts a session at `now` whose values go out `period` nanoseconds
    /// apart or more.
    pub fn start(period: u64, now: u64) -> (s: Session)
        ensures
            s@ == SessionView::initial(period, now),
            s@.wf(),
    {
        Session {
            phase: Phase::Sampling,
            limiter: RateLimiter::new(period),
            value: 0,
            emitted: 0,
            started: now,
            ended: now,
            first: None,
            opened: Ghost(0),
        }
    }

    /// What the caller is to do now.
    pub fn pending(&self) -> (a: Action)
        ensures
            a == self@.pending(),
            self@.wf(),
    {
        proof {
            use_type_invariant(self);
        }
        match self.phase {
            Phase::Sampling => Action::Sample,
            Phase::RateGated => Action::WaitUntil(self.limiter.due()),
            Phase::Writing => Action::Write(self.value),
            Phase::Closed => Action::Stop,
        }
    }

    /// Takes the caller's report and says what to do next.
    pub fn step(&mut self, event: Event) -> (a: Action)
        ensures
            final(self)@ == old(self)@.next(event),
            a == final(self)@.pending(),
            final(self)@.wf(),
    {
        proof {
            use_type_invariant(&*self);
            lemma_step_keeps_wf(self@, event);
        }
        let ghost opened = self.opened@;
        match (self.phase, event) {
            (Phase::Sampling, Event::Sampled(value)) => {
                *self = Session {
                    phase: Phase::RateGated,
                    limiter: self.limiter,
                    value,
                    emitted: self.emitted,
                    started: self.started,
                    ended: self.ended,
                    first: self.first,
                    opened: Ghost(opened),
                };
            },
            (Phase::RateGated, Event::Clock(now)) => {
                if self.limiter.ready(now) {
                    *self = Session {
                        phase: Phase::Writing,
                        limiter: RateLimiter { period: self.limiter.period, last: Some(now) },
                        value: self.value,
                        emitted: self.emitted,
                        started: self.started,
                        ended: self.ended,
                        first: if self.first.is_none() {
                            Some(now)
                        } else {
                            self.first
                        },
                        opened: Ghost(opened + 1),
                    };
                }
            },
            (Phase::Writing, Event::Written) => {
                *self = Session {
                    phase: Phase::Sampling,
                    limiter: self.limiter,
                    value: self.value,
                    emitted: if self.emitted < u64::MAX {
                        self.emitted + 1
                    } else {
                        self.emitted
                    },
                    started: self.started,
                    ended: self.ended,
                    first: self.first,
                    opened: Ghost(opened),
                };
            },
            (Phase::Writing, Event::WriteFailed(now)) => {
                *self = Session {
                    phase: Phase::Closed,
                    limiter: self.limiter,
                    value: self.value,
                    emitted: self.emitted,
                    started: self.started,
                    ended: now,
                    first: self.first,
                    opened: Ghost(opened),
                };
            },
            _ => {},
        }
        self.pending()
    }

    /// Where the session stands.
    pub fn phase(&self) -> (p: Phase)
        ensures
            p == self@.phase,
    {
        self.phase
    }

    /// The number of lines written.
    pub fn emitted(&self) -> (n: u64)
        ensures
            n == self@.emitted,
    {
        self.emitted
    }

    /// The time from the start to the close, in nanoseconds; zero while the
    /// session is open.
    pub fn elapsed(&self) -> (nanos: u64)
        ensures
            nanos == self@.elapsed(),
    {
        if self.ended >= self.started {
            self.ended - self.started
        } else {
            0
        }
    }

    /// The lines written per second over the whole session, in thousandths
    /// and rounded down. There is none for a session that took no time.
    pub fn throughput(&self) -> (t: Option<u128>)
        ensures
            t == throughput_of(self@.emitted, self@.elapsed()),
    {
        throughput_milli(self.emitted, self.elapsed())
    }
}

/// The nanoseconds in a thousand seconds.
pub const NANOS_PER_KILOSECOND: u128 = 1_000_000_000_000;

/// `emitted` values in `elapsed` nanoseconds, as values per second in
/// thousandths, rounded down.
pub open spec fn throughput_of(emitted: u64, elapsed: int) -> Option<u128> {
    if elapsed <= 0 {
        None
    } else {
        Some((emitted * NANOS_PER_KILOSECOND / elapsed) as u128)
    }
}

/// The throughput of `emitted` values in `elapsed` nanoseconds, as values per
/// second in thousandths, rounded down; none where no time went by.
pub fn throughput_milli(emitted: u64, elapsed: u64) -> (t: Option<u128>)
    ensures
        t == throughput_of(emitted, elapsed as int),
{
    if elapsed == 0 {
        None
    } else {
        assert(emitted * NANOS_PER_KILOSECOND <= 0xffff_ffff_ffff_ffff * 1_000_000_000_000)
            by (nonlinear_arith)
            requires
                emitted <= 0xffff_ffff_ffff_ffff,
                NANOS_PER_KILOSECOND == 1_000_000_000_000,
        ;
        let scaled: u128 = (emitted as u128) * NANOS_PER_KILOSECOND;
        assert(0 <= scaled as int / elapsed as int <= scaled) by (nonlinear_arith)
            requires
                elapsed >= 1,
                scaled >= 0,
        ;
        Some(scaled / (elapsed as u128))
    }
}

/// The decimal digits of `n`, as ASCII bytes, without leading zeros.
pub open spec fn decimal(n: nat) -> Seq<u8>
    decreases n,
{
    if n < 10 {
        seq![(0x30 + n) as u8]
    } else {
        decimal(n / 10).push((0x30 + n % 10) as u8)
    }
}

/// The line that carries `value`: its decimal digits and a line feed.
pub open spec fn line_of(value: u64) -> Seq<u8> {
    decimal(value as nat).push(0x0a)
}

/// Renders a value as the line to send: base ten, then a line feed.
pub fn render_line(value: u64) -> (line: Vec<u8>)
    ensures
        line@ == line_of(value),
{
    let mut low_first: Vec<u8> = Vec::new();
    let mut n: u64 = value;
    while n >= 10
        invariant
            decimal(value as nat) == decimal(n as nat) + low_first@.reverse(),
        decreases n,
    {
        let digit: u8 = 0x30 + (n % 10) as u8;
        let ghost before = low_first@;
        low_first.push(digit);
        proof {
            assert(low_first@.reverse() =~= seq![digit] + before.reverse());
            assert(decimal(n as nat) == decimal((n / 10) as nat).push(digit));
            assert(decimal((n / 10) as nat).push(digit) + before.reverse() =~= decimal(
                (n / 10) as nat,
            ) + (seq![digit] + before.reverse()));
        }
        n = n / 10;
    }
    let digit: u8 = 0x30 + n as u8;
    let ghost before = low_first@;
    low_first.push(digit);
    proof {
        assert(low_first@.reverse() =~= seq![digit] + before.reverse());
        assert(decimal(n as nat) =~= seq![digit]);
    }
    let mut line: Vec<u8> = Vec::new();
    let mut i: usize = low_first.len();
    while i > 0
        invariant
            i <= low_first@.len(),
            line@ == low_first@.reverse().take(low_first@.len() - i),
        decreases i,
    {
        i = i - 1;
        let ghost so_far = line@;
        line.push(low_first[i]);
        proof {
            let r = low_first@.reverse();
            let k = low_first@.len() - i;
            assert(r[k - 1] == low_first@[i as int]);
            assert(line@ =~= r.take(k));
        }
    }
    proof {
        assert(low_first@.reverse().take(low_first@.len() as int) =~= low_first@.reverse());
    }
    line.push(0x0a);
    line
}

} // verus!
