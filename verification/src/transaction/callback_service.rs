//! Bounded execution of completion callbacks.
//!
//! A place is reserved at admission and held until the callback has ended; a
//! callback that is out of time, or that a drain stopped, keeps its place until
//! its task is joined. A reservation whose callback could not be started comes
//! back.

use vstd::prelude::*;

verus! {

/// Time for a callback when none is configured: 50 ms.
pub const FALLBACK_DEADLINE_NANOS: u128 = 50_000_000;

/// Abstract state of the service.
pub struct CallbackModel {
    /// Places in all.
    pub max: usize,
    /// Places free.
    pub available: usize,
    /// Places reserved and not yet used.
    pub reserved: usize,
    /// Callbacks that use a place, those out of time among them.
    pub inflight: usize,
    /// Callbacks that were told to stop and whose task has not been joined.
    pub retained: usize,
    /// Time for a callback, unless something else is said.
    pub default_deadline: u128,
}

/// Every place is free, reserved or used by a callback.
pub open spec fn places_add_up(m: CallbackModel) -> bool {
    &&& m.available + m.reserved + m.inflight == m.max
    &&& m.retained <= m.inflight
}

/// A reserved place.
pub struct CallbackReservation(());

/// How a scheduled callback went.
#[derive(Clone, Copy, Debug, PartialEq, Eq, Structural)]
pub enum CallbackRun {
    /// It panicked or ended.
    Over,
    /// It is out of time and was told to stop.
    TimedOut,
}

/// Bounded completion callback executor.
pub struct CallbackService {
    max: usize,
    available: usize,
    reserved: usize,
    inflight: usize,
    retained: usize,
    default_deadline: u128,
}

impl View for CallbackService {
    type V = CallbackModel;

    closed spec fn view(&self) -> CallbackModel {
        CallbackModel {
            max: self.max,
            available: self.available,
            reserved: self.reserved,
            inflight: self.inflight,
            retained: self.retained,
            default_deadline: self.default_deadline,
        }
    }
}

/// A callback was scheduled on a reserved place.
pub open spec fn scheduled(m: CallbackModel) -> CallbackModel {
    CallbackModel {
        reserved: (m.reserved - 1) as usize,
        inflight: (m.inflight + 1) as usize,
        ..m
    }
}

/// A scheduled callback could not be started: its place is reserved again.
pub open spec fn unscheduled(m: CallbackModel) -> CallbackModel {
    CallbackModel {
        reserved: (m.reserved + 1) as usize,
        inflight: (m.inflight - 1) as usize,
        ..m
    }
}

/// Callbacks out of time whose tasks have ended give their places back.
pub open spec fn reaped(m: CallbackModel, finished: usize) -> CallbackModel {
    CallbackModel {
        available: (m.available + finished) as usize,
        inflight: (m.inflight - finished) as usize,
        retained: (m.retained - finished) as usize,
        ..m
    }
}

impl CallbackReservation {
    /// Release without scheduling.
    pub fn release(self, service: &mut CallbackService)
        requires
            old(service).wf(),
            old(service)@.reserved > 0,
        ensures
            final(service).wf(),
            final(service)@ == (CallbackModel {
                available: (old(service)@.available + 1) as usize,
                reserved: (old(service)@.reserved - 1) as usize,
                ..old(service)@
            }),
    {
        service.reserved = service.reserved - 1;
        service.available = service.available + 1;
    }
}

impl CallbackService {
    /// Internal consistency: the places add up.
    pub closed spec fn wf(&self) -> bool {
        places_add_up(self@)
    }

    /// The places add up.
    pub proof fn adds_up(&self)
        requires
            self.wf(),
        ensures
            places_add_up(self@),
    {
    }

    /// Create with a maximum number of concurrent callbacks; 0 counts as 1,
    /// and a deadline of 0 as 50 ms.
    pub fn new(max_concurrent: usize, default_deadline: u128) -> (r: Self)
        ensures
            r.wf(),
            ({
                let max: usize = if max_concurrent == 0 {
                    1
                } else {
                    max_concurrent
                };
                r@ == (CallbackModel {
                    max,
                    available: max,
                    reserved: 0,
                    inflight: 0,
                    retained: 0,
                    default_deadline: if default_deadline == 0 {
                        FALLBACK_DEADLINE_NANOS
                    } else {
                        default_deadline
                    },
                })
            }),
    {
        let max: usize = if max_concurrent == 0 {
            1
        } else {
            max_concurrent
        };
        CallbackService {
            max,
            available: max,
            reserved: 0,
            inflight: 0,
            retained: 0,
            default_deadline: if default_deadline == 0 {
                FALLBACK_DEADLINE_NANOS
            } else {
                default_deadline
            },
        }
    }

    /// Number of callbacks currently executing (including retained).
    pub fn inflight(&self) -> (r: usize)
        ensures
            r == self@.inflight,
    {
        self.inflight
    }

    /// Reserved and inflight callback slots: what the bound on admission counts.
    pub fn reserved(&self) -> (r: usize)
        requires
            self.wf(),
        ensures
            r == self@.reserved + self@.inflight,
    {
        self.reserved + self.inflight
    }

    /// Tasks of callbacks out of time have ended.
    pub fn reap_retained(&mut self, finished: usize)
        requires
            old(self).wf(),
            finished <= old(self)@.retained,
        ensures
            final(self).wf(),
            final(self)@ == reaped(old(self)@, finished),
    {
        self.available = self.available + finished;
        self.inflight = self.inflight - finished;
        self.retained = self.retained - finished;
    }

    /// Reserve one callback slot at admission; `finished` tasks of callbacks
    /// out of time are found ended first.
    pub fn try_reserve(&mut self, finished: usize) -> (r: Option<CallbackReservation>)
        requires
            old(self).wf(),
            finished <= old(self)@.retained,
        ensures
            final(self).wf(),
            ({
                let m = reaped(old(self)@, finished);
                &&& r is Some <==> m.available > 0
                &&& r is Some ==> final(self)@ == (CallbackModel {
                    available: (m.available - 1) as usize,
                    reserved: (m.reserved + 1) as usize,
                    ..m
                })
                &&& r is None ==> final(self)@ == m
            }),
    {
        self.reap_retained(finished);
        if self.available == 0 {
            return None;
        }
        self.available = self.available - 1;
        self.reserved = self.reserved + 1;
        Some(CallbackReservation(()))
    }

    /// Schedule a callback on a reserved place; answers the time that it gets.
    /// While nothing may be started the reservation comes back. Where the
    /// executor then refuses to start it, [`Self::start_refused`] gives the
    /// reservation back.
    pub fn schedule_reserved(
        &mut self,
        reservation: CallbackReservation,
        finished: usize,
        gate_open: bool,
        deadline: Option<u128>,
    ) -> (r: Result<u128, CallbackReservation>)
        requires
            old(self).wf(),
            finished <= old(self)@.retained,
            old(self)@.reserved > 0,
        ensures
            final(self).wf(),
            ({
                let m = reaped(old(self)@, finished);
                if gate_open {
                    &&& r == Ok::<u128, CallbackReservation>(
                        match deadline {
                            Some(d) => d,
                            None => m.default_deadline,
                        },
                    )
                    &&& final(self)@ == scheduled(m)
                } else {
                    r == Err::<u128, CallbackReservation>(reservation) && final(self)@ == m
                }
            }),
    {
        self.reap_retained(finished);
        if !gate_open {
            return Err(reservation);
        }
        self.reserved = self.reserved - 1;
        self.inflight = self.inflight + 1;
        Ok(
            match deadline {
                Some(d) => d,
                None => self.default_deadline,
            },
        )
    }

    /// The executor refused to start a scheduled callback: the reservation
    /// comes back.
    pub fn start_refused(&mut self) -> (r: CallbackReservation)
        requires
            old(self).wf(),
            old(self)@.inflight > old(self)@.retained,
        ensures
            final(self).wf(),
            final(self)@ == (CallbackModel {
                reserved: (old(self)@.reserved + 1) as usize,
                inflight: (old(self)@.inflight - 1) as usize,
                ..old(self)@
            }),
            final(self)@ == unscheduled(old(self)@),
    {
        self.inflight = self.inflight - 1;
        self.reserved = self.reserved + 1;
        CallbackReservation(())
    }

    /// Schedule a callback without a reservation; answers the time that it
    /// gets, or `None` where it is dropped: no place is left, or nothing may be
    /// started. Where the executor then refuses to start it,
    /// [`Self::start_refused`] gives a reservation back that can be released.
    pub fn schedule(&mut self, finished: usize, gate_open: bool, deadline: Option<u128>) -> (r:
        Option<u128>)
        requires
            old(self).wf(),
            finished <= old(self)@.retained,
        ensures
            final(self).wf(),
            ({
                let m = reaped(old(self)@, finished);
                if m.available > 0 && gate_open {
                    &&& r == Some(
                        match deadline {
                            Some(d) => d,
                            None => m.default_deadline,
                        },
                    )
                    &&& final(self)@ == (CallbackModel {
                        available: (m.available - 1) as usize,
                        inflight: (m.inflight + 1) as usize,
                        ..m
                    })
                } else {
                    r is None && final(self)@ == m
                }
            }),
    {
        let reservation = match self.try_reserve(finished) {
            Some(held) => held,
            None => {
                return None;
            },
        };
        match self.schedule_reserved(reservation, 0, gate_open, deadline) {
            Ok(time) => Some(time),
            Err(held) => {
                held.release(self);
                None
            },
        }
    }

    /// A scheduled callback is over, or out of time and retained.
    pub fn ran(&mut self, run: CallbackRun)
        requires
            old(self).wf(),
            old(self)@.inflight > old(self)@.retained,
        ensures
            final(self).wf(),
            final(self)@ == (match run {
                CallbackRun::Over => CallbackModel {
                    available: (old(self)@.available + 1) as usize,
                    inflight: (old(self)@.inflight - 1) as usize,
                    ..old(self)@
                },
                CallbackRun::TimedOut => CallbackModel {
                    retained: (old(self)@.retained + 1) as usize,
                    ..old(self)@
                },
            }),
    {
        match run {
            CallbackRun::Over => {
                self.available = self.available + 1;
                self.inflight = self.inflight - 1;
            },
            CallbackRun::TimedOut => {
                self.retained = self.retained + 1;
            },
        }
    }

    /// Running callbacks were told to stop: `ended` of their tasks were joined,
    /// and `kept` were not.
    fn stopped(&mut self, ended: usize, kept: usize)
        requires
            old(self).wf(),
            ended + kept <= old(self)@.inflight - old(self)@.retained,
        ensures
            final(self).wf(),
            final(self)@ == after_stop(old(self)@, ended, kept),
    {
        self.available = self.available + ended;
        self.inflight = self.inflight - ended;
        self.retained = self.retained + kept;
    }

    /// Begins to wait until no callback is executing, or until `deadline`.
    pub fn drain(&self, deadline: u128) -> (r: CallbackDrain)
        ensures
            r == (CallbackDrain { deadline, phase: DrainPhase::Waiting }),
    {
        CallbackDrain { deadline, phase: DrainPhase::Waiting }
    }
}

/// Time between two looks of a drain: 5 ms.
pub const DRAIN_INTERVAL_NANOS: u128 = 5_000_000;

/// Running callbacks were told to stop: `ended` of their tasks were joined and
/// give their places back; `kept` were not, and keep theirs.
pub open spec fn after_stop(m: CallbackModel, ended: usize, kept: usize) -> CallbackModel {
    CallbackModel {
        available: (m.available + ended) as usize,
        inflight: (m.inflight - ended) as usize,
        retained: (m.retained + kept) as usize,
        ..m
    }
}

/// What is left of a time.
pub open spec fn time_left(deadline: u128, elapsed: u128) -> u128 {
    if elapsed < deadline {
        (deadline - elapsed) as u128
    } else {
        0
    }
}

/// Where a drain stands.
#[derive(Clone, Copy, Debug, PartialEq, Eq, Structural)]
pub enum DrainPhase {
    /// Waits for callbacks to end by themselves.
    Waiting,
    /// Waited; wants to know how late it is.
    Timing,
    /// Stops the tasks that run callbacks.
    Stopping,
    /// Joins the tasks that were told to stop and have not been joined.
    Joining {
        /// Tasks that it took.
        taken: usize,
        /// Time for each of them.
        budget: u128,
    },
    /// Over.
    Over,
}

/// What a drain is told.
#[derive(Clone, Copy, Debug, PartialEq, Eq, Structural)]
pub enum DrainInput {
    /// A look at the tasks of callbacks out of time, and at the clock.
    Looked {
        /// Tasks found ended since the last look.
        finished: usize,
        /// Time since the drain began.
        elapsed: u128,
    },
    /// The clock.
    Clock {
        /// Time since the drain began.
        elapsed: u128,
    },
    /// Every task that ran a callback was told to stop.
    Stopped {
        /// Those that were joined before their callback was over.
        ended: usize,
        /// Those that were not joined.
        kept: usize,
        /// Time since the drain began.
        elapsed: u128,
    },
    /// The tasks that were not joined were told to stop once more.
    Joined {
        /// Those that ended in time.
        joined: usize,
    },
}

/// What a drain does.
#[derive(Clone, Copy, Debug, PartialEq, Eq, Structural)]
pub enum DrainAction {
    /// Sleep, then look again.
    Sleep {
        /// For how long.
        nanos: u128,
    },
    /// Look at the clock.
    ReadClock,
    /// Stop each task that runs a callback, and wait for it.
    Stop {
        /// For how long; 0: not at all.
        budget: u128,
    },
    /// Stop each of the tasks that were not joined, and wait for it.
    Join {
        /// How many there are.
        taken: usize,
        /// For how long; 0: not at all.
        budget: u128,
    },
    /// Nothing more.
    Done,
}

/// Waiting until no callback is executing.
#[derive(Clone, Copy, Debug, PartialEq, Eq, Structural)]
pub struct CallbackDrain {
    /// Time in all.
    pub deadline: u128,
    /// Where it stands.
    pub phase: DrainPhase,
}

/// Whether an input can come.
pub open spec fn drain_expects(d: CallbackDrain, m: CallbackModel, input: DrainInput) -> bool {
    match (d.phase, input) {
        (DrainPhase::Waiting, DrainInput::Looked { finished, .. }) => finished <= m.retained,
        (DrainPhase::Timing, DrainInput::Clock { .. }) => true,
        (DrainPhase::Stopping, DrainInput::Stopped { ended, kept, .. }) => ended + kept
            <= m.inflight - m.retained,
        (DrainPhase::Joining { taken, budget }, DrainInput::Joined { joined }) => {
            &&& joined <= taken
            &&& joined <= m.retained
            &&& budget == 0 ==> joined == 0
        },
        _ => false,
    }
}

/// A step of a drain.
pub open spec fn drain_next(d: CallbackDrain, m: CallbackModel, input: DrainInput) -> (
    DrainPhase,
    CallbackModel,
    DrainAction,
) {
    match (d.phase, input) {
        (DrainPhase::Waiting, DrainInput::Looked { finished, elapsed }) => {
            if m.inflight == 0 {
                (DrainPhase::Timing, m, DrainAction::ReadClock)
            } else if elapsed < d.deadline {
                (
                    DrainPhase::Waiting,
                    reaped(m, finished),
                    DrainAction::Sleep { nanos: DRAIN_INTERVAL_NANOS },
                )
            } else {
                (DrainPhase::Timing, reaped(m, finished), DrainAction::ReadClock)
            }
        },
        (DrainPhase::Timing, DrainInput::Clock { elapsed }) => (
            DrainPhase::Stopping,
            m,
            DrainAction::Stop { budget: time_left(d.deadline, elapsed) },
        ),
        (DrainPhase::Stopping, DrainInput::Stopped { ended, kept, elapsed }) => {
            let after = after_stop(m, ended, kept);
            let taken = after.retained;
            let budget = time_left(d.deadline, elapsed);
            (DrainPhase::Joining { taken, budget }, after, DrainAction::Join { taken, budget })
        },
        (DrainPhase::Joining { .. }, DrainInput::Joined { joined }) => (
            DrainPhase::Over,
            reaped(m, joined),
            DrainAction::Done,
        ),
        _ => (d.phase, m, DrainAction::Done),
    }
}

impl CallbackDrain {
    /// What is left of the time.
    fn left(&self, elapsed: u128) -> (r: u128)
        ensures
            r == time_left(self.deadline, elapsed),
    {
        if elapsed < self.deadline {
            self.deadline - elapsed
        } else {
            0
        }
    }

    /// Takes one input.
    pub fn step(&mut self, service: &mut CallbackService, input: DrainInput) -> (r: DrainAction)
        requires
            old(service).wf(),
            drain_expects(*old(self), old(service)@, input),
        ensures
            final(service).wf(),
            final(self).deadline == old(self).deadline,
            (final(self).phase, final(service)@, r) == drain_next(
                *old(self),
                old(service)@,
                input,
            ),
    {
        match (self.phase, input) {
            (DrainPhase::Waiting, DrainInput::Looked { finished, elapsed }) => {
                if service.inflight() == 0 {
                    self.phase = DrainPhase::Timing;
                    return DrainAction::ReadClock;
                }
                service.reap_retained(finished);
                if elapsed < self.deadline {
                    return DrainAction::Sleep { nanos: DRAIN_INTERVAL_NANOS };
                }
                self.phase = DrainPhase::Timing;
                DrainAction::ReadClock
            },
            (DrainPhase::Timing, DrainInput::Clock { elapsed }) => {
                self.phase = DrainPhase::Stopping;
                DrainAction::Stop { budget: self.left(elapsed) }
            },
            (DrainPhase::Stopping, DrainInput::Stopped { ended, kept, elapsed }) => {
                service.stopped(ended, kept);
                let taken: usize = service.retained;
                let budget: u128 = self.left(elapsed);
                self.phase = DrainPhase::Joining { taken, budget };
                DrainAction::Join { taken, budget }
            },
            (DrainPhase::Joining { .. }, DrainInput::Joined { joined }) => {
                service.reap_retained(joined);
                self.phase = DrainPhase::Over;
                DrainAction::Done
            },
            _ => DrainAction::Done,
        }
    }
}

/// A drain does not sleep once its time is up, nor when nothing executes.
pub proof fn drain_keeps_its_time(d: CallbackDrain, m: CallbackModel, input: DrainInput)
    requires
        drain_expects(d, m, input),
        drain_next(d, m, input).2 is Sleep,
    ensures
        input matches DrainInput::Looked { elapsed, .. } && elapsed < d.deadline,
        m.inflight > 0,
{
}

/// Callbacks whose tasks a drain found ended, or joined, in a step.
pub open spec fn joined_in(m: CallbackModel, input: DrainInput) -> usize {
    match input {
        DrainInput::Looked { finished, .. } => if m.inflight == 0 {
            0
        } else {
            finished
        },
        DrainInput::Clock { .. } => 0,
        DrainInput::Stopped { ended, .. } => ended,
        DrainInput::Joined { joined } => joined,
    }
}

/// No callback is let go of while it may run: a drain frees a place only where
/// a task was joined, and every other callback still has its place and still
/// counts as executing.
pub proof fn unjoined_callbacks_keep_their_places(
    d: CallbackDrain,
    m: CallbackModel,
    input: DrainInput,
)
    requires
        places_add_up(m),
        drain_expects(d, m, input),
    ensures
        ({
            let after = drain_next(d, m, input).1;
            &&& after.available == m.available + joined_in(m, input)
            &&& after.inflight == m.inflight - joined_in(m, input)
            &&& after.reserved == m.reserved
        }),
{
}

/// A callback that could not be started leaves everything as it was before it
/// was scheduled: the reservation is there, and nothing is executing for it.
pub proof fn refused_start_restores(m: CallbackModel)
    requires
        places_add_up(m),
        m.reserved > 0,
    ensures
        unscheduled(scheduled(m)) == m,
{
}

/// A drain keeps the account of places.
pub proof fn drain_keeps_places(d: CallbackDrain, m: CallbackModel, input: DrainInput)
    requires
        places_add_up(m),
        drain_expects(d, m, input),
    ensures
        places_add_up(drain_next(d, m, input).1),
        drain_next(d, m, input).1.max == m.max,
{
}

/// A reservation is refused only when every place is reserved or in use.
pub proof fn refusal_means_full(m: CallbackModel)
    requires
        places_add_up(m),
        m.available == 0,
    ensures
        m.reserved + m.inflight == m.max,
{
}

} // verus!
