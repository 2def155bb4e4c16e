//! The runtime's owner and handle: start, shutdown, termination.

use crate::identity::{is_random_uuid, TransactionId};
use crate::text::utf8_len;
use crate::transaction::bootstrap::{config_fault, RuntimeConfig};
use crate::transaction::channel_registry::{ChannelBinding, ChannelKind, ChannelRegistry};
use crate::transaction::error::StartupError;
use crate::transaction::host_tools::{HostToolRegistry, RegisteredTool, ToolSpec};
use crate::transaction::lifecycle::admission::{
    admit_transaction, admitted_or_refused, AdmissionError, AdmissionReceipt, AdmissionRules,
    TransactionSubmitRequest,
};
use crate::transaction::lifecycle::capacity::{
    listed_slots, some_zero, PoolModel, ReservationPool, ReservationPoolError,
};
use crate::transaction::lifecycle::ledger::{holds_session, session_held, LedgerEntry};
use crate::transaction::lifecycle::shared::{
    RuntimeCounters, RuntimeShared, RuntimeState, ShutdownReport, ShutdownSnapshot,
};
use crate::transaction::lifecycle::shutdown::ShutdownTicket;
use crate::transaction::lifecycle::supervisor::ControlCommand;
use crate::transaction::limits::{LimitsError, TransactionLimits};
use crate::transaction::types::{ChannelId, SessionKey, TransactionEndKind};
use vstd::prelude::*;

verus! {

/// What is known of a channel once its connector was built.
#[derive(Clone, Debug)]
pub struct ChannelFacts {
    /// What is wrong with its capabilities, in words.
    pub capability_fault: Option<String>,
    /// Why its connector could not be built, in words.
    pub build_error: Option<String>,
    /// Whether the connector keeps sessions.
    pub has_sessions: bool,
}

/// Sizes that a start settles.
#[derive(Clone, Copy, Debug, PartialEq, Eq, Structural)]
pub struct StartSizes {
    /// Start queue.
    pub start: usize,
    /// Control queue.
    pub control: usize,
    /// Worker queue.
    pub worker: usize,
    /// Spawn queue.
    pub spawn: usize,
    /// Tools running at a time.
    pub tools: usize,
    /// Gateway routes.
    pub mcp_routes: usize,
    /// Tools of a transaction.
    pub max_tools: usize,
}

/// Channels that were checked so far, with their places.
pub struct StartBuilder {
    pairs: Vec<(ChannelId, usize)>,
}

/// Largest of two sizes.
pub open spec fn larger(a: usize, b: usize) -> usize {
    if a > b {
        a
    } else {
        b
    }
}

/// Product of two sizes; the largest machine number is never exceeded.
pub open spec fn sat_product(a: usize, b: usize) -> usize {
    if a * b > usize::MAX {
        usize::MAX
    } else {
        (a * b) as usize
    }
}

/// Whether any tool's schema is too large.
pub open spec fn schema_too_large(tools: Seq<RegisteredTool>, max: usize) -> bool {
    exists|i: int|
        0 <= i < tools.len() && utf8_len((#[trigger] tools[i]).tool().input_schema@) > max
}

/// What is wrong with configuration and tools, if anything.
pub open spec fn start_fault(
    config: RuntimeConfig,
    limits: Result<(), LimitsError>,
    tools: Seq<RegisteredTool>,
) -> Option<StartupError> {
    if config_fault(config, limits) is Some {
        config_fault(config, limits)
    } else if schema_too_large(tools, larger(config.transaction_limits.max_tool_schema_bytes, 1)) {
        Some(StartupError::InvalidConfig("tool schema exceeds max_tool_schema_bytes"))
    } else {
        None
    }
}

/// Places of a channel: its own bound and that of the runtime, the smaller.
pub open spec fn channel_places(config: RuntimeConfig, binding: ChannelBinding) -> usize {
    if binding.limits.max_active_transactions < config.transaction_limits.max_active_per_channel {
        binding.limits.max_active_transactions
    } else {
        config.transaction_limits.max_active_per_channel
    }
}

/// What is wrong with a channel, if anything.
pub open spec fn channel_fault(
    config: RuntimeConfig,
    binding: ChannelBinding,
    facts: ChannelFacts,
) -> Option<StartupError> {
    if facts.capability_fault is Some {
        Some(StartupError::ChannelCapability(facts.capability_fault->0))
    } else if facts.build_error is Some {
        Some(StartupError::ConnectorBuild(facts.build_error->0))
    } else if binding.kind == ChannelKind::ExternalAgent && !facts.has_sessions {
        Some(StartupError::SessionAdapterMismatch("ExternalAgent requires SessionAdapter"))
    } else if binding.kind == ChannelKind::DirectLlm && facts.has_sessions {
        Some(StartupError::SessionAdapterMismatch("DirectLlm must not carry SessionAdapter"))
    } else if channel_places(config, binding) == 0 {
        Some(StartupError::InvalidConfig("channel max_active_transactions must be nonzero"))
    } else {
        None
    }
}

/// Sizes that a start settles.
pub open spec fn start_sizes(config: RuntimeConfig, default_routes: usize) -> StartSizes {
    let n = config.transaction_limits.max_active_transactions;
    StartSizes {
        start: n,
        control: larger(config.transaction_limits.max_actor_commands, 1),
        worker: if n + 8 > usize::MAX {
            usize::MAX
        } else {
            (n + 8) as usize
        },
        spawn: larger(sat_product(n, 8), 32),
        tools: larger(sat_product(n, 4), 8),
        mcp_routes: larger(sat_product(n, 2), default_routes),
        max_tools: config.transaction_limits.max_tools_per_transaction,
    }
}

fn times(a: usize, b: usize) -> (r: usize)
    ensures
        r == sat_product(a, b),
{
    match a.checked_mul(b) {
        Some(p) => p,
        None => usize::MAX,
    }
}

fn at_least(a: usize, b: usize) -> (r: usize)
    ensures
        r == larger(a, b),
{
    if a > b {
        a
    } else {
        b
    }
}

proof fn lemma_listed_free(channels: Seq<(ChannelId, usize)>)
    ensures
        forall|c: Seq<char>| #[trigger]
            listed_slots(channels).dom().contains(c) ==> listed_slots(channels)[c].active == 0,
    decreases channels.len(),
{
    if channels.len() > 0 {
        lemma_listed_free(channels.drop_last());
        let m = listed_slots(channels);
        assert forall|c: Seq<char>| #[trigger] m.dom().contains(c) implies m[c].active == 0 by {
            assert(c == channels.last().0@ || listed_slots(channels.drop_last()).dom().contains(c));
        }
    }
}

impl StartBuilder {
    /// Channels that were checked so far, with their places.
    pub closed spec fn listed(&self) -> Seq<(ChannelId, usize)> {
        self.pairs@
    }

    /// Checks configuration and tools; `limits` is what the limits themselves
    /// were found to be.
    pub fn begin(
        config: &RuntimeConfig,
        limits: Result<(), LimitsError>,
        tools: &HostToolRegistry,
    ) -> (r: Result<Self, StartupError>)
        ensures
            match start_fault(*config, limits, tools@) {
                Some(e) => r == Err::<Self, StartupError>(e),
                None => r is Ok && r->Ok_0.listed().len() == 0,
            },
    {
        match config.validate(limits) {
            Err(e) => {
                return Err(e);
            },
            Ok(()) => {},
        }
        let max: usize = at_least(config.transaction_limits.max_tool_schema_bytes, 1);
        let specs = tools.specs_sorted();
        let ghost places = choose|places: Seq<int>|
            #[trigger] crate::transaction::host_tools::rearranges(specs@, tools@, places);
        let mut i: usize = 0;
        while i < specs.len()
            invariant
                i <= specs.len(),
                crate::transaction::host_tools::rearranges(specs@, tools@, places),
                forall|j: int| 0 <= j < i ==> utf8_len((#[trigger] specs@[j]).input_schema@) <= max,
                max == larger(config.transaction_limits.max_tool_schema_bytes, 1),
                config_fault(*config, limits) is None,
            decreases specs.len() - i,
        {
            if specs[i].input_schema.as_str().len() > max {
                proof {
                    let p = places[i as int];
                    assert(utf8_len(tools@[p].tool().input_schema@) > max);
                    assert(schema_too_large(tools@, max));
                }
                return Err(StartupError::InvalidConfig("tool schema exceeds max_tool_schema_bytes"));
            }
            i = i + 1;
        }
        proof {
            if schema_too_large(tools@, max) {
                let k = choose|k: int|
                    0 <= k < tools@.len() && utf8_len(
                        (#[trigger] tools@[k]).tool().input_schema@,
                    ) > max;
                lemma_onto(places, tools@.len() as int, k);
                let j = choose|j: int| 0 <= j < places.len() && places[j] == k;
                assert(specs@[j].input_schema@ == tools@[k].tool().input_schema@);
            }
        }
        Ok(StartBuilder { pairs: Vec::new() })
    }

    /// Checks one channel once its connector was built, and notes its places.
    pub fn add_channel(
        &mut self,
        config: &RuntimeConfig,
        binding: &ChannelBinding,
        facts: ChannelFacts,
    ) -> (r: Result<(), StartupError>)
        ensures
            match channel_fault(*config, *binding, facts) {
                Some(e) => r == Err::<(), StartupError>(e) && final(self).listed() == old(
                    self).listed(),
                None => r is Ok && final(self).listed() == old(self).listed().push(
                    (binding.id, channel_places(*config, *binding)),
                ),
            },
    {
        match facts.capability_fault {
            Some(e) => {
                return Err(StartupError::ChannelCapability(e));
            },
            None => {},
        }
        match facts.build_error {
            Some(e) => {
                return Err(StartupError::ConnectorBuild(e));
            },
            None => {},
        }
        match binding.kind {
            ChannelKind::ExternalAgent => {
                if !facts.has_sessions {
                    return Err(
                        StartupError::SessionAdapterMismatch(
                            "ExternalAgent requires SessionAdapter",
                        ),
                    );
                }
            },
            ChannelKind::DirectLlm => {
                if facts.has_sessions {
                    return Err(
                        StartupError::SessionAdapterMismatch(
                            "DirectLlm must not carry SessionAdapter",
                        ),
                    );
                }
            },
        }
        let places: usize = if binding.limits.max_active_transactions
            < config.transaction_limits.max_active_per_channel {
            binding.limits.max_active_transactions
        } else {
            config.transaction_limits.max_active_per_channel
        };
        if places == 0 {
            return Err(
                StartupError::InvalidConfig("channel max_active_transactions must be nonzero"),
            );
        }
        self.pairs.push((binding.id.clone(), places));
        Ok(())
    }

    /// Settles the sizes and the shared state of a runtime that is starting.
    pub fn finish(self, config: &RuntimeConfig, default_routes: usize) -> (r: Result<
        (RuntimeShared, StartSizes),
        StartupError,
    >)
        ensures
            match r {
                Err(StartupError::InvalidConfig(m)) => if config.transaction_limits.max_active_transactions
                    == 0 {
                    m == "max_active_transactions must be nonzero"
                } else {
                    m == "channel capacity must be nonzero" && some_zero(self.listed())
                },
                Err(_) => false,
                Ok(started) => {
                    &&& config.transaction_limits.max_active_transactions > 0
                    &&& !some_zero(self.listed())
                    &&& started.1 == start_sizes(*config, default_routes)
                    &&& started.0.wf()
                    &&& started.0.state == RuntimeState::Starting
                    &&& started.0.ledger@ == Map::<TransactionId, LedgerEntry>::empty()
                    &&& started.0.pool@ == (PoolModel {
                        max_global: config.transaction_limits.max_active_transactions,
                        global_active: 0,
                        ledger_active: 0,
                        channels: listed_slots(self.listed()),
                    })
                    &&& started.0.shutdown_generation == 0
                    &&& started.0.counters == (RuntimeCounters {
                        completions_published: 0,
                        completions_receiver_dropped: 0,
                        completions_invariant_failed: 0,
                        runtime_shutdown_terminals: 0,
                    })
                    &&& started.0.owned_tasks == 0
                    &&& !started.0.drain_complete
                    &&& started.0.shutdown_report is None
                },
            },
    {
        let max_active: usize = config.transaction_limits.max_active_transactions;
        if max_active == 0 {
            return Err(StartupError::InvalidConfig("max_active_transactions must be nonzero"));
        }
        let pool = match ReservationPool::try_new(max_active, &self.pairs) {
            Ok(pool) => pool,
            Err(ReservationPoolError::ZeroGlobal) => {
                return Err(StartupError::InvalidConfig("max_active_transactions must be nonzero"));
            },
            Err(ReservationPoolError::ZeroChannel) => {
                return Err(StartupError::InvalidConfig("channel capacity must be nonzero"));
            },
        };
        proof {
            lemma_listed_free(self.pairs@);
        }
        let sizes = StartSizes {
            start: max_active,
            control: at_least(config.transaction_limits.max_actor_commands, 1),
            worker: max_active.saturating_add(8),
            spawn: at_least(times(max_active, 8), 32),
            tools: at_least(times(max_active, 4), 8),
            mcp_routes: at_least(times(max_active, 2), default_routes),
            max_tools: config.transaction_limits.max_tools_per_transaction,
        };
        Ok((RuntimeShared::new(pool), sizes))
    }
}

/// A list of `n` different numbers below `n` holds every one of them.
proof fn lemma_onto(s: Seq<int>, n: int, k: int)
    requires
        s.no_duplicates(),
        s.len() == n,
        forall|i: int| 0 <= i < s.len() ==> 0 <= #[trigger] s[i] < n,
        0 <= k < n,
    ensures
        s.contains(k),
{
    let all = vstd::set_lib::set_int_range(0, n);
    vstd::set_lib::lemma_int_range(0, n);
    s.unique_seq_to_set();
    assert(s.to_set().subset_of(all)) by {
        assert forall|x: int| s.to_set().contains(x) implies all.contains(x) by {
            let i = choose|i: int| 0 <= i < s.len() && s[i] == x;
            assert(0 <= s[i] < n);
        }
    }
    if !s.contains(k) {
        assert(s.to_set().subset_of(all.remove(k)));
        vstd::set_lib::lemma_len_subset(s.to_set(), all.remove(k));
    }
}

/// The runtime opens: it was starting, and everything it needs is there.
pub fn open_admission(shared: &mut RuntimeShared)
    requires
        old(shared).wf(),
    ensures
        final(shared).wf(),
        *final(shared) == (RuntimeShared { state: RuntimeState::Accepting, ..*old(shared) }),
{
    shared.state = RuntimeState::Accepting;
}

/// State once a shutdown was asked for.
pub open spec fn asked_to_shut_down(state: RuntimeState) -> RuntimeState {
    if state == RuntimeState::Stopped {
        RuntimeState::Stopped
    } else {
        RuntimeState::Quiescing
    }
}

/// Generation once a shutdown was asked for: the first request makes it 1.
pub open spec fn shutdown_generation(generation: u64) -> u64 {
    if generation == 0 {
        1
    } else {
        generation
    }
}

/// Begin shutdown (idempotent): admission closes at once.
pub fn begin_shutdown(shared: &mut RuntimeShared) -> (r: ShutdownTicket)
    requires
        old(shared).wf(),
    ensures
        final(shared).wf(),
        *final(shared) == (RuntimeShared {
            state: asked_to_shut_down(old(shared).state),
            shutdown_generation: shutdown_generation(old(shared).shutdown_generation),
            ..*old(shared)
        }),
        r.generation == final(shared).shutdown_generation,
        r.generation == 1,
{
    if shared.state == RuntimeState::Accepting || shared.state == RuntimeState::Starting {
        shared.state = RuntimeState::Quiescing;
    }
    if shared.shutdown_generation == 0 {
        shared.shutdown_generation = 1;
    }
    ShutdownTicket { generation: shared.shutdown_generation }
}

/// Outcome of waiting for the runtime to stop.
#[derive(Clone, Copy, Debug, PartialEq, Eq, Structural)]
pub enum ShutdownWaitOutcome {
    /// It stopped.
    Stopped(ShutdownReport),
    /// Out of time; it still winds down.
    TimedOut(ShutdownSnapshot),
}

/// The report that a waiter gets.
pub open spec fn report_of(shared: RuntimeShared) -> ShutdownReport {
    match shared.shutdown_report {
        Some(r) => r,
        None => ShutdownReport {
            completions_published: shared.counters.completions_published,
            completions_receiver_dropped: shared.counters.completions_receiver_dropped,
            completions_invariant_failed: shared.counters.completions_invariant_failed,
            runtime_shutdown_terminals: shared.counters.runtime_shutdown_terminals,
        },
    }
}

fn report(shared: &RuntimeShared) -> (r: ShutdownReport)
    ensures
        r == report_of(*shared),
{
    match shared.shutdown_report {
        Some(r) => r,
        None => shared.final_report(),
    }
}

/// Begins to wait: an open runtime is shut down first. Answers at once only
/// where the runtime is stopped and its executor was joined.
pub fn wait_begin(shared: &mut RuntimeShared, executor_joined: bool) -> (r: Option<
    ShutdownWaitOutcome,
>)
    requires
        old(shared).wf(),
    ensures
        final(shared).wf(),
        *final(shared) == (if old(shared).state == RuntimeState::Accepting {
            RuntimeShared {
                state: RuntimeState::Quiescing,
                shutdown_generation: shutdown_generation(old(shared).shutdown_generation),
                ..*old(shared)
            }
        } else {
            *old(shared)
        }),
        r == (if old(shared).state == RuntimeState::Stopped && executor_joined {
            Some(ShutdownWaitOutcome::Stopped(report_of(*old(shared))))
        } else {
            None
        }),
{
    if shared.state == RuntimeState::Accepting {
        let _ticket = begin_shutdown(shared);
    }
    if shared.state == RuntimeState::Stopped && executor_joined {
        return Some(ShutdownWaitOutcome::Stopped(report(shared)));
    }
    None
}

/// Time that is left of a deadline.
pub fn remaining_budget(deadline: u128, elapsed: u128) -> (r: u128)
    ensures
        r == (if elapsed > deadline {
            0
        } else {
            deadline - elapsed
        }),
{
    if elapsed > deadline {
        0
    } else {
        deadline - elapsed
    }
}

/// The executor ended in time or did not. The runtime is stopped only once its
/// executor has ended.
pub fn executor_answered(
    shared: &mut RuntimeShared,
    exited: bool,
    snapshot: ShutdownSnapshot,
) -> (r: ShutdownWaitOutcome)
    requires
        old(shared).wf(),
    ensures
        final(shared).wf(),
        exited ==> r == ShutdownWaitOutcome::Stopped(report_of(*old(shared))) && *final(shared) == (
        RuntimeShared { state: RuntimeState::Stopped, ..*old(shared) }),
        !exited ==> r == ShutdownWaitOutcome::TimedOut(snapshot) && *final(shared) == *old(shared),
{
    if !exited {
        return ShutdownWaitOutcome::TimedOut(snapshot);
    }
    shared.state = RuntimeState::Stopped;
    ShutdownWaitOutcome::Stopped(report(shared))
}

/// The owner goes away: a runtime that is not stopped is shut down; answers
/// whether the supervisor has to be told.
pub fn owner_dropped(shared: &mut RuntimeShared) -> (r: bool)
    requires
        old(shared).wf(),
    ensures
        final(shared).wf(),
        r == (old(shared).state != RuntimeState::Stopped),
        r ==> *final(shared) == (RuntimeShared {
            state: RuntimeState::Quiescing,
            shutdown_generation: shutdown_generation(old(shared).shutdown_generation),
            ..*old(shared)
        }),
        !r ==> *final(shared) == *old(shared),
{
    if shared.state != RuntimeState::Stopped {
        let _ticket = begin_shutdown(shared);
        true
    } else {
        false
    }
}

/// The executor was joined: the runtime is stopped.
pub fn executor_joined(shared: &mut RuntimeShared)
    requires
        old(shared).wf(),
    ensures
        final(shared).wf(),
        *final(shared) == (RuntimeShared { state: RuntimeState::Stopped, ..*old(shared) }),
{
    shared.state = RuntimeState::Stopped;
}

/// Which transaction is meant.
#[derive(Clone, Debug)]
pub enum TransactionSelector {
    /// By its identity.
    Transaction(TransactionId),
    /// By its session.
    Session(SessionKey),
}

/// How a transaction is to end.
#[derive(Clone, Copy, Debug, PartialEq, Eq, Structural)]
pub enum TerminationMode {
    /// Cooperatively.
    Cancel,
    /// By force.
    ForceTerminate,
}

/// Answer to a request to end a transaction.
#[derive(Clone, Copy, Debug, PartialEq, Eq, Structural)]
pub enum TerminationDisposition {
    /// The supervisor was told.
    Accepted,
    /// It has a terminal.
    AlreadyTerminal,
    /// There is no such transaction.
    NotFound,
    /// The control queue is full.
    ControlCapacityExceeded,
    /// The runtime is gone.
    RuntimeClosed,
}

/// What the control queue did with a command.
#[derive(Clone, Copy, Debug, PartialEq, Eq, Structural)]
pub enum ControlSend {
    /// It took it.
    Sent,
    /// It is full.
    Full,
    /// It is closed.
    Closed,
}

/// Whether a request to end a transaction has something to do: there is no
/// terminal, or a cancellation that force upgrades.
pub open spec fn can_end(e: LedgerEntry, mode: TerminationMode) -> bool {
    match e.terminal {
        None => true,
        Some(t) => mode == TerminationMode::ForceTerminate && t.kind
            == TransactionEndKind::Cancelled,
    }
}

/// The command for a mode.
pub open spec fn command_for(tx: TransactionId, mode: TerminationMode) -> ControlCommand {
    match mode {
        TerminationMode::Cancel => ControlCommand::Cancel(tx),
        TerminationMode::ForceTerminate => ControlCommand::ForceTerminate(tx),
    }
}

/// Answer for a transaction that was found or not, before the queue is asked.
pub open spec fn termination_of(
    rows: Map<TransactionId, LedgerEntry>,
    tx: TransactionId,
    mode: TerminationMode,
) -> Result<ControlCommand, TerminationDisposition> {
    if !rows.dom().contains(tx) {
        Err(TerminationDisposition::NotFound)
    } else if can_end(rows[tx], mode) {
        Ok(command_for(tx, mode))
    } else {
        Err(TerminationDisposition::AlreadyTerminal)
    }
}

/// Whether an answer is that to a request to end the transaction that is meant.
pub open spec fn is_termination_answer(
    rows: Map<TransactionId, LedgerEntry>,
    selector: TransactionSelector,
    mode: TerminationMode,
    r: Result<ControlCommand, TerminationDisposition>,
) -> bool {
    match selector {
        TransactionSelector::Transaction(tx) => r == termination_of(rows, tx, mode),
        TransactionSelector::Session(key) => if session_held(rows, key@) {
            exists|tx: TransactionId| #[trigger]
                holds_session(rows, tx, key@) && r == termination_of(rows, tx, mode)
        } else {
            r == Err::<ControlCommand, TerminationDisposition>(TerminationDisposition::NotFound)
        },
    }
}

/// Request cancellation or forced termination: the command for the control
/// queue, or the answer where there is nothing to send.
pub fn terminate(
    shared: &RuntimeShared,
    selector: TransactionSelector,
    mode: TerminationMode,
) -> (r: Result<ControlCommand, TerminationDisposition>)
    requires
        shared.wf(),
    ensures
        is_termination_answer(shared.ledger@, selector, mode, r),
{
    let tx: TransactionId = match selector {
        TransactionSelector::Transaction(tx) => tx,
        TransactionSelector::Session(key) => match shared.ledger.transaction_for_session(&key) {
            Some(tx) => {
                assert(holds_session(shared.ledger@, tx, key@));
                tx
            },
            None => {
                return Err(TerminationDisposition::NotFound);
            },
        },
    };
    match shared.ledger.get(&tx) {
        None => Err(TerminationDisposition::NotFound),
        Some(entry) => {
            let open: bool = match entry.terminal {
                None => true,
                Some(t) => mode == TerminationMode::ForceTerminate && t.kind
                    == TransactionEndKind::Cancelled,
            };
            if !open {
                return Err(TerminationDisposition::AlreadyTerminal);
            }
            match mode {
                TerminationMode::Cancel => Ok(ControlCommand::Cancel(tx)),
                TerminationMode::ForceTerminate => Ok(ControlCommand::ForceTerminate(tx)),
            }
        },
    }
}

/// Answer once the control queue was asked.
pub fn termination_sent(sent: ControlSend) -> (r: TerminationDisposition)
    ensures
        r == (match sent {
            ControlSend::Sent => TerminationDisposition::Accepted,
            ControlSend::Full => TerminationDisposition::ControlCapacityExceeded,
            ControlSend::Closed => TerminationDisposition::RuntimeClosed,
        }),
{
    match sent {
        ControlSend::Sent => TerminationDisposition::Accepted,
        ControlSend::Full => TerminationDisposition::ControlCapacityExceeded,
        ControlSend::Closed => TerminationDisposition::RuntimeClosed,
    }
}

/// The runtime, as its owner and its handles see it.
pub struct RuntimeOwner {
    /// Shared state.
    pub shared: RuntimeShared,
    /// Channels.
    pub channels: ChannelRegistry,
    /// Host tools.
    pub tools: HostToolRegistry,
    /// Tools of a transaction.
    pub max_tools: usize,
    /// Bounds.
    pub limits: TransactionLimits,
}

impl RuntimeOwner {
    /// Current lifecycle state.
    pub fn state(&self) -> (r: RuntimeState)
        ensures
            r == self.shared.state,
    {
        self.shared.runtime_state()
    }

    /// Active ledger entry count.
    pub fn ledger_len(&self) -> (r: usize)
        requires
            self.shared.wf(),
        ensures
            r == self.shared.ledger@.dom().len(),
    {
        self.shared.ledger.len()
    }

    /// Supervisor-owned task count.
    pub fn owned_task_count(&self) -> (r: u32)
        ensures
            r == self.shared.owned_tasks,
    {
        self.shared.owned_tasks
    }

    /// Global reservation count.
    pub fn global_reservations(&self) -> (r: usize)
        ensures
            r == self.shared.pool@.global_active,
    {
        self.shared.pool.global_active()
    }

    /// Channel reservation count; none on an unknown channel.
    pub fn channel_reservations(&self, channel: &ChannelId) -> (r: usize)
        requires
            self.shared.wf(),
        ensures
            r == (if self.shared.pool@.channels.dom().contains(channel@) {
                self.shared.pool@.channels[channel@].active
            } else {
                0
            }),
    {
        self.shared.pool.channel_active(channel)
    }

    /// Number of channels of this runtime.
    pub fn channel_count(&self) -> (r: usize)
        ensures
            r == self.channels@.len(),
    {
        self.channels.len()
    }

    /// Begin shutdown (idempotent): admission closes at once.
    pub fn begin_shutdown(&mut self) -> (r: ShutdownTicket)
        requires
            old(self).shared.wf(),
        ensures
            final(self).shared.wf(),
            *final(self) == (RuntimeOwner {
                shared: RuntimeShared {
                    state: asked_to_shut_down(old(self).shared.state),
                    shutdown_generation: shutdown_generation(old(self).shared.shutdown_generation),
                    ..old(self).shared
                },
                ..*old(self)
            }),
            r.generation == final(self).shared.shutdown_generation,
            r.generation == 1,
    {
        begin_shutdown(&mut self.shared)
    }

    /// Submit a transaction; the receipt is good once the start queue took it.
    pub fn submit(
        &mut self,
        request: &TransactionSubmitRequest,
        input_bytes: Option<usize>,
    ) -> (r: Result<AdmissionReceipt, AdmissionError>)
        requires
            old(self).shared.wf(),
        ensures
            final(self).shared.wf(),
            *final(self) == (RuntimeOwner { shared: final(self).shared, ..*old(self) }),
            exists|tx: TransactionId|
                is_random_uuid(tx.value) && #[trigger] admitted_or_refused(
                    old(self).shared,
                    final(self).shared,
                    old(self).rules(),
                    *request,
                    input_bytes,
                    tx,
                    r,
                ),
    {
        let rules = AdmissionRules {
            channels: &self.channels,
            tools: &self.tools,
            max_tools: self.max_tools,
            limits: self.limits,
        };
        assert(rules == old(self).rules());
        let r = admit_transaction(&mut self.shared, &rules, request, input_bytes);
        let ghost tx = choose|tx: TransactionId|
            is_random_uuid(tx.value) && #[trigger] admitted_or_refused(
                old(self).shared,
                self.shared,
                rules,
                *request,
                input_bytes,
                tx,
                r,
            );
        assert(admitted_or_refused(
            old(self).shared,
            self.shared,
            old(self).rules(),
            *request,
            input_bytes,
            tx,
            r,
        ));
        r
    }

    /// What admission is measured by.
    pub open spec fn rules(&self) -> AdmissionRules<'_> {
        AdmissionRules {
            channels: &self.channels,
            tools: &self.tools,
            max_tools: self.max_tools,
            limits: self.limits,
        }
    }

    /// Request cancellation or forced termination.
    pub fn terminate(&self, selector: TransactionSelector, mode: TerminationMode) -> (r: Result<
        ControlCommand,
        TerminationDisposition,
    >)
        requires
            self.shared.wf(),
        ensures
            is_termination_answer(self.shared.ledger@, selector, mode, r),
    {
        terminate(&self.shared, selector, mode)
    }
}

/// Everyone who asks for a shutdown gets generation 1, and asking again changes
/// nothing. A runtime that was asked is never open again, so it admits nothing.
pub proof fn shutdown_tickets_agree(shared: RuntimeShared)
    requires
        shared.wf(),
    ensures
        ({
            let asked = RuntimeShared {
                state: asked_to_shut_down(shared.state),
                shutdown_generation: shutdown_generation(shared.shutdown_generation),
                ..shared
            };
            &&& asked.wf()
            &&& asked.shutdown_generation == 1
            &&& shutdown_generation(asked.shutdown_generation) == asked.shutdown_generation
            &&& asked_to_shut_down(asked.state) == asked.state
            &&& asked.state != RuntimeState::Accepting
            &&& asked.state != RuntimeState::Starting
        }),
{
}

} // verus!
