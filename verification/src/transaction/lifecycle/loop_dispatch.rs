//! Running the loop over the units of one exchange, and turning its output
//! into tool results and transaction events.

use crate::contracts::{
    CanonicalUnit, CanonicalUnitEvent, CanonicalUnitSnapshot, LoopEndKind, LoopOutputEvent,
    OutboundToolOutcome, OutboundToolResult, ToolRequestState, ToolUnit,
};
use crate::identity::{ExchangeId, TransactionId};
use crate::json::{json_compact, opt_json, JsonText};
use crate::text::{first_chars, head, utf8_len};
use crate::transaction::lifecycle::session_identity::{
    exchange_action, provider_part, provider_tool_call_id_from_action, tool_action_id_for_exchange,
};
use crate::transaction::types::{
    CanonicalToolError, CanonicalToolOutput, CanonicalToolResult, CanonicalToolResultOutcome,
    SessionKey,
};
use vstd::prelude::*;
use vstd::string::StringExecFns;

verus! {

/// Retries against a busy supervisor.
pub const BUSY_RETRIES: u32 = 8;

/// Characters of a payload that a failure message keeps.
pub const MAX_FAILURE_CHARS: usize = 128;

/// Bytes of a failure message.
pub const MAX_FAILURE_BYTES: usize = 256;

/// Report of one pass.
#[derive(Clone, Debug)]
pub struct LoopDispatchReport {
    /// Tools resolved unavailable.
    pub tools_unavailable: u32,
    /// Outbound results observed.
    pub outbound_results: u32,
    /// Tools that answered.
    pub tools_completed: u32,
    /// Results, in the order in which the loop gave them.
    pub tool_results: Vec<CanonicalToolResult>,
}

/// Error driving the loop.
#[derive(Clone, Copy, Debug, PartialEq, Eq, Structural)]
pub enum LoopDispatchError {
    /// Cancelled.
    Cancelled,
    /// Publish / feed failed.
    PublishFailed,
    /// Loop start failed.
    StartFailed,
    /// Loop ended with a failure.
    LoopFailed,
}

/// Whether a unit is a complete tool request, with name and payload.
pub open spec fn is_ready(u: CanonicalUnitEvent) -> bool {
    match u.unit_snapshot().unit {
        CanonicalUnit::Tool(t) => t.request_state == ToolRequestState::Ready && t.tool_name is Some
            && t.request_payload is Some,
        _ => false,
    }
}

/// Whether a unit is a complete tool request, with name and payload.
pub fn ready_unit(unit: &CanonicalUnitEvent) -> (r: bool)
    ensures
        r == is_ready(*unit),
{
    match &unit.snapshot().unit {
        CanonicalUnit::Tool(t) => t.request_state == ToolRequestState::Ready
            && t.tool_name.is_some() && t.request_payload.is_some(),
        _ => false,
    }
}

/// True if any unit is a complete tool request.
pub fn needs_loop_dispatch(units: &Vec<CanonicalUnitEvent>) -> (r: bool)
    ensures
        r == exists|i: int| 0 <= i < units@.len() && is_ready(#[trigger] units@[i]),
{
    let mut i: usize = 0;
    while i < units.len()
        invariant
            i <= units.len(),
            forall|j: int| 0 <= j < i ==> !is_ready(#[trigger] units@[j]),
        decreases units.len() - i,
    {
        if ready_unit(&units[i]) {
            assert(is_ready(units@[i as int]));
            return true;
        }
        i = i + 1;
    }
    false
}

/// Identity of an action within an exchange: as it is where it is the
/// exchange's already, else the exchange's own.
pub open spec fn scoped_action(exchange_id: ExchangeId, action: Seq<char>) -> Seq<char> {
    if provider_part(exchange_id, action) is Some {
        action
    } else {
        exchange_action(exchange_id, action)
    }
}

/// Whether a tool is another one whose action belongs to an exchange.
pub open spec fn is_scoped_tool(after: ToolUnit, before: ToolUnit, exchange_id: ExchangeId) -> bool {
    &&& after.tool_action_id@ == scoped_action(exchange_id, before.tool_action_id@)
    &&& after == (ToolUnit { tool_action_id: after.tool_action_id, ..before })
}

/// Whether a snapshot is another one whose action belongs to an exchange.
pub open spec fn is_scoped_snapshot(
    after: CanonicalUnitSnapshot,
    before: CanonicalUnitSnapshot,
    exchange_id: ExchangeId,
) -> bool {
    match before.unit {
        CanonicalUnit::Tool(t) => after.unit is Tool && is_scoped_tool(
            after.unit->Tool_0,
            t,
            exchange_id,
        ) && after == (CanonicalUnitSnapshot { unit: after.unit, ..before }),
        _ => after == before,
    }
}

/// Whether an event is another one whose action belongs to an exchange.
pub open spec fn is_scoped_event(
    after: CanonicalUnitEvent,
    before: CanonicalUnitEvent,
    exchange_id: ExchangeId,
) -> bool {
    &&& after is Created == before is Created
    &&& after is Advanced == before is Advanced
    &&& after is Completed == before is Completed
    &&& is_scoped_snapshot(after.unit_snapshot(), before.unit_snapshot(), exchange_id)
}

fn scope_snapshot(snap: CanonicalUnitSnapshot, exchange_id: ExchangeId) -> (r:
    CanonicalUnitSnapshot)
    ensures
        is_scoped_snapshot(r, snap, exchange_id),
{
    let mut snap = snap;
    let mut unit = CanonicalUnit::Usage;
    core::mem::swap(&mut unit, &mut snap.unit);
    snap.unit = match unit {
        CanonicalUnit::Tool(tool) => {
            let mut tool = tool;
            if provider_tool_call_id_from_action(
                exchange_id,
                tool.tool_action_id.as_str(),
            ).is_none() {
                tool.tool_action_id = tool_action_id_for_exchange(
                    exchange_id,
                    tool.tool_action_id.as_str(),
                );
            }
            CanonicalUnit::Tool(tool)
        },
        other => other,
    };
    snap
}

/// Makes the action of a unit belong to an exchange.
pub fn scope_one_tool_unit(event: CanonicalUnitEvent, exchange_id: ExchangeId) -> (r:
    CanonicalUnitEvent)
    ensures
        is_scoped_event(r, event, exchange_id),
{
    match event {
        CanonicalUnitEvent::Created(s) => CanonicalUnitEvent::Created(
            scope_snapshot(s, exchange_id),
        ),
        CanonicalUnitEvent::Advanced(s) => CanonicalUnitEvent::Advanced(
            scope_snapshot(s, exchange_id),
        ),
        CanonicalUnitEvent::Completed(s) => CanonicalUnitEvent::Completed(
            scope_snapshot(s, exchange_id),
        ),
        CanonicalUnitEvent::Incomplete(s) => CanonicalUnitEvent::Incomplete(
            scope_snapshot(s, exchange_id),
        ),
    }
}

/// Makes the actions of all units belong to an exchange.
pub fn scope_tool_units_for_exchange(
    units: Vec<CanonicalUnitEvent>,
    exchange_id: ExchangeId,
) -> (r: Vec<CanonicalUnitEvent>)
    ensures
        r@.len() == units@.len(),
        forall|i: int|
            0 <= i < r@.len() ==> is_scoped_event(#[trigger] r@[i], units@[i], exchange_id),
{
    let ghost all = units@;
    let mut rest: Vec<CanonicalUnitEvent> = units;
    let mut back: Vec<CanonicalUnitEvent> = Vec::new();
    while rest.len() > 0
        invariant
            rest@.len() + back@.len() == all.len(),
            rest@ == all.take(rest@.len() as int),
            forall|i: int|
                0 <= i < back@.len() ==> is_scoped_event(
                    #[trigger] back@[i],
                    all[all.len() - 1 - i],
                    exchange_id,
                ),
        decreases rest.len(),
    {
        let ghost n = rest@.len() as int;
        match rest.pop() {
            Some(u) => {
                assert(u == all[n - 1]);
                back.push(scope_one_tool_unit(u, exchange_id));
                assert(rest@ =~= all.take(n - 1));
            },
            None => {},
        }
    }
    let ghost reversed = back@;
    let mut out: Vec<CanonicalUnitEvent> = Vec::new();
    while back.len() > 0
        invariant
            reversed.len() == all.len(),
            back@.len() + out@.len() == all.len(),
            back@ == reversed.take(back@.len() as int),
            forall|i: int|
                0 <= i < reversed.len() ==> is_scoped_event(
                    #[trigger] reversed[i],
                    all[all.len() - 1 - i],
                    exchange_id,
                ),
            forall|i: int|
                0 <= i < out@.len() ==> is_scoped_event(#[trigger] out@[i], all[i], exchange_id),
        decreases back.len(),
    {
        let ghost n = back@.len() as int;
        match back.pop() {
            Some(u) => {
                assert(u == reversed[n - 1]);
                out.push(u);
                assert(back@ =~= reversed.take(n - 1));
            },
            None => {},
        }
    }
    out
}

/// Scoping an action twice is scoping it once.
pub proof fn scoping_is_idempotent(exchange_id: ExchangeId, action: Seq<char>)
    ensures
        scoped_action(exchange_id, scoped_action(exchange_id, action)) == scoped_action(
            exchange_id,
            action,
        ),
{
    crate::transaction::lifecycle::session_identity::provider_identity_is_recoverable(
        exchange_id,
        action,
    );
}

/// The provider's identity of a call, as results carry it.
pub open spec fn provider_identity(exchange_id: ExchangeId, action: Seq<char>) -> Seq<char> {
    match provider_part(exchange_id, action) {
        Some(p) => p,
        None => action,
    }
}

/// The provider's identity of a call, as results carry it.
pub fn provider_id_for_result(exchange_id: ExchangeId, action: &String) -> (r: String)
    ensures
        r@ == provider_identity(exchange_id, action@),
{
    match provider_tool_call_id_from_action(exchange_id, action.as_str()) {
        Some(p) => p,
        None => action.clone(),
    }
}

/// What a pass is about.
#[derive(Clone, Debug)]
pub struct PassSetting {
    /// Transaction.
    pub transaction_id: TransactionId,
    /// Session of the results.
    pub session_key: SessionKey,
    /// Exchange.
    pub exchange_id: ExchangeId,
}

/// Whether a result belongs to a pass and an outbound result.
pub open spec fn belongs(
    result: CanonicalToolResult,
    s: PassSetting,
    r: OutboundToolResult,
    ordinal: u32,
) -> bool {
    &&& result.transaction_id == s.transaction_id
    &&& result.session_key == s.session_key
    &&& result.exchange_id == s.exchange_id
    &&& result.tool_action_id == r.tool_action_id
    &&& result.request_ordinal == ordinal
}

/// Message of a failed tool: the head of its payload, or a word where even
/// that is too long.
pub open spec fn failure_message(payload: Seq<char>) -> Seq<char> {
    let h = head(payload, MAX_FAILURE_CHARS as nat);
    if utf8_len(h) <= MAX_FAILURE_BYTES {
        h
    } else {
        "failed"@
    }
}

/// Whether an outcome is a domain failure with this code and message.
pub open spec fn is_failure(
    o: CanonicalToolResultOutcome,
    code: Seq<char>,
    message: Seq<char>,
) -> bool {
    match o {
        CanonicalToolResultOutcome::DomainFailed(e) => e.code@ == code && e.message@ == message
            && e.data is None,
        _ => false,
    }
}

/// Whether an outcome is an answer with this payload: JSON where it is JSON,
/// else text. `parsed` is the compact JSON of the payload.
pub open spec fn is_answer(
    o: CanonicalToolResultOutcome,
    payload: String,
    parsed: Option<Seq<char>>,
) -> bool {
    match o {
        CanonicalToolResultOutcome::Succeeded(CanonicalToolOutput::Json(t)) => parsed == Some(t@),
        CanonicalToolResultOutcome::Succeeded(CanonicalToolOutput::Text(t)) => parsed is None && t
            == payload,
        _ => false,
    }
}

/// Whether a result is what an outbound result comes to. `decoded` is the
/// result that its payload holds, where it holds one, and `parsed` the compact
/// JSON of its payload.
pub open spec fn is_result_of(
    result: CanonicalToolResult,
    s: PassSetting,
    r: OutboundToolResult,
    decoded: Option<CanonicalToolResult>,
    parsed: Option<Seq<char>>,
    ordinal: u32,
) -> bool {
    let provider = provider_identity(s.exchange_id, r.tool_action_id@);
    &&& belongs(result, s, r, ordinal)
    &&& match r.outcome {
        OutboundToolOutcome::ToolUnavailable => {
            &&& result.tool_id@ == "unavailable"@
            &&& result.provider_tool_call_id@ == provider
            &&& is_failure(result.outcome, "tool_unavailable"@, "no_registered_tool"@)
        },
        OutboundToolOutcome::Success | OutboundToolOutcome::ExecutionFailed => match decoded {
            Some(d) => {
                &&& result.tool_id == d.tool_id
                &&& result.outcome == d.outcome
                &&& result.provider_tool_call_id@ == (if d.provider_tool_call_id@.len() == 0 {
                    provider
                } else {
                    d.provider_tool_call_id@
                })
            },
            None => {
                &&& result.provider_tool_call_id@ == provider
                &&& if r.outcome == OutboundToolOutcome::Success {
                    result.tool_id@ == "completed"@ && is_answer(result.outcome, r.payload, parsed)
                } else {
                    result.tool_id@ == "failed"@ && is_failure(
                        result.outcome,
                        "tool_execution_failed"@,
                        failure_message(r.payload@),
                    )
                }
            },
        },
        OutboundToolOutcome::DispatchRejected
        | OutboundToolOutcome::Cancelled
        | OutboundToolOutcome::ExecutionLost => {
            &&& result.tool_id@ == "failed"@
            &&& result.provider_tool_call_id@ == provider
            &&& is_failure(
                result.outcome,
                "tool_execution_failed"@,
                failure_message(r.payload@),
            )
        },
    }
}

/// Whether an outbound result counts as an answered tool.
pub open spec fn counts_as_completed(
    r: OutboundToolResult,
    decoded: Option<CanonicalToolResult>,
) -> bool {
    match r.outcome {
        OutboundToolOutcome::Success | OutboundToolOutcome::ExecutionFailed => match decoded {
            Some(d) => d.outcome is Succeeded,
            None => r.outcome == OutboundToolOutcome::Success,
        },
        _ => false,
    }
}

fn failed_outcome(payload: &String) -> (r: CanonicalToolResultOutcome)
    ensures
        is_failure(r, "tool_execution_failed"@, failure_message(payload@)),
{
    let message: String = first_chars(payload.as_str(), MAX_FAILURE_CHARS);
    match CanonicalToolError::try_new(
        "tool_execution_failed",
        message.as_str(),
        None,
        MAX_FAILURE_BYTES,
    ) {
        Some(e) => CanonicalToolResultOutcome::DomainFailed(e),
        None => CanonicalToolResultOutcome::DomainFailed(
            CanonicalToolError {
                code: String::from_str("tool_execution_failed"),
                message: String::from_str("failed"),
                data: None,
            },
        ),
    }
}

/// The result that an outbound result comes to.
pub fn result_for(
    s: &PassSetting,
    r: &OutboundToolResult,
    decoded: Option<CanonicalToolResult>,
    ordinal: u32,
) -> (result: CanonicalToolResult)
    ensures
        is_result_of(result, *s, *r, decoded, json_compact(r.payload@), ordinal),
{
    let parsed = JsonText::parse(r.payload.as_str());
    result_for_parsed(s, r, decoded, parsed, ordinal)
}

/// The result that an outbound result comes to, once its payload was read;
/// `parsed` is the compact JSON of its payload.
pub fn result_for_parsed(
    s: &PassSetting,
    r: &OutboundToolResult,
    decoded: Option<CanonicalToolResult>,
    parsed: Option<JsonText>,
    ordinal: u32,
) -> (result: CanonicalToolResult)
    ensures
        is_result_of(result, *s, *r, decoded, opt_json(parsed), ordinal),
{
    let provider: String = provider_id_for_result(s.exchange_id, &r.tool_action_id);
    let unavailable: bool = match r.outcome {
        OutboundToolOutcome::ToolUnavailable => true,
        _ => false,
    };
    let ran: bool = match r.outcome {
        OutboundToolOutcome::Success | OutboundToolOutcome::ExecutionFailed => true,
        _ => false,
    };
    let (tool_id, provider_tool_call_id, outcome) = if unavailable {
        (
            String::from_str("unavailable"),
            provider,
            CanonicalToolResultOutcome::DomainFailed(
                CanonicalToolError {
                    code: String::from_str("tool_unavailable"),
                    message: String::from_str("no_registered_tool"),
                    data: None,
                },
            ),
        )
    } else if ran {
        match decoded {
            Some(d) => {
                let id: String = if d.provider_tool_call_id.as_str().is_empty() {
                    provider
                } else {
                    d.provider_tool_call_id
                };
                (d.tool_id, id, d.outcome)
            },
            None => {
                if r.outcome == OutboundToolOutcome::Success {
                    let output = match parsed {
                        Some(json) => CanonicalToolOutput::Json(json),
                        None => CanonicalToolOutput::Text(r.payload.clone()),
                    };
                    (
                        String::from_str("completed"),
                        provider,
                        CanonicalToolResultOutcome::Succeeded(output),
                    )
                } else {
                    (String::from_str("failed"), provider, failed_outcome(&r.payload))
                }
            },
        }
    } else {
        (String::from_str("failed"), provider, failed_outcome(&r.payload))
    };
    CanonicalToolResult {
        transaction_id: s.transaction_id,
        session_key: s.session_key.clone(),
        exchange_id: s.exchange_id,
        tool_action_id: r.tool_action_id.clone(),
        tool_id,
        provider_tool_call_id,
        request_ordinal: ordinal,
        outcome,
    }
}

/// How handing the loop to the supervisor went.
#[derive(Clone, Copy, Debug, PartialEq, Eq, Structural)]
pub enum PassSpawn {
    /// The supervisor owns it.
    Taken,
    /// The supervisor stayed busy; it came back.
    Busy,
    /// The supervisor is closed, or the transaction was cancelled.
    Rejected {
        /// Whether it was cancelled.
        cancelled: bool,
    },
    /// It is lost.
    Orphaned,
}

/// How a step that a cancellation can interrupt went.
#[derive(Clone, Copy, Debug, PartialEq, Eq, Structural)]
pub enum Interruptible {
    /// It worked.
    Done,
    /// It failed.
    Failed,
    /// Cancelled.
    Cancelled,
}

/// How driving the loop here went.
#[derive(Clone, Copy, Debug, PartialEq, Eq, Structural)]
pub struct InlineDrive {
    /// Whether a cancellation was seen.
    pub saw_cancel: bool,
    /// How feeding went; `None` where the loop ended before.
    pub fed: Option<Interruptible>,
}

/// What a pass waits for.
#[derive(Clone, Copy, Debug, PartialEq, Eq, Structural)]
pub enum PassPhase {
    /// The loop to be handed over.
    Spawning,
    /// A unit to be fed, by its position.
    Feeding(usize),
    /// The loop to be driven here.
    Driving,
    /// Whether the transaction was cancelled.
    CheckingCancel,
    /// An output of the loop.
    Reading,
    /// A result to be published.
    Publishing,
    /// The end of a loop that was cancelled.
    Cancelling(LoopDispatchError),
    /// The end of the loop.
    AwaitingEnd,
    /// Nothing.
    Done,
}

/// What the driver reports, but for outputs of the loop.
#[derive(Clone, Copy, Debug, PartialEq, Eq, Structural)]
pub enum PassInput {
    /// How handing over went.
    Spawned(PassSpawn),
    /// How feeding a unit went.
    Fed(Interruptible),
    /// How driving the loop here went.
    Drove(InlineDrive),
    /// Whether the transaction was cancelled.
    CancelState(bool),
    /// The transaction was cancelled.
    Cancelled,
    /// The output is closed, or the loop said that it ended.
    OutputEnded,
    /// An output that needs no answer.
    OutputIgnored,
    /// How publishing went.
    Published(Interruptible),
    /// The loop ended; `None` means that waiting was cancelled.
    Ended(Option<LoopEndKind>),
}

/// What the driver has to do.
#[derive(Clone, Copy, Debug, PartialEq, Eq, Structural)]
pub enum PassAction {
    /// Feed the unit at a position.
    Feed(usize),
    /// Drive the loop here, and feed it.
    DriveInline,
    /// Close the feed, and look whether the transaction was cancelled.
    CheckCancel,
    /// Read an output.
    Read,
    /// Cancel the loop, and wait for its end.
    CancelAndAwait,
    /// Wait for the end of the loop.
    AwaitEnd,
    /// Cancel the loop, and stop.
    CancelAndFinish(LoopDispatchError),
    /// Stop.
    Finish(PassResult),
    /// Nothing.
    Ignore,
}

/// Result of a pass.
#[derive(Clone, Copy, Debug, PartialEq, Eq, Structural)]
pub enum PassResult {
    /// The report stands.
    Reported,
    /// It failed.
    Failed(LoopDispatchError),
}

/// Feeding the next unit, or the end of feeding.
pub open spec fn feed_from(i: usize, count: usize) -> (PassPhase, PassAction) {
    if i < count {
        (PassPhase::Feeding(i), PassAction::Feed(i))
    } else {
        (PassPhase::CheckingCancel, PassAction::CheckCancel)
    }
}

/// The loop is cancelled and waited for.
pub open spec fn cancelling(e: LoopDispatchError) -> (PassPhase, PassAction) {
    (PassPhase::Cancelling(e), PassAction::CancelAndAwait)
}

/// What driving the loop here comes to.
pub open spec fn drove(d: InlineDrive) -> (PassPhase, PassAction) {
    if d.saw_cancel {
        cancelling(LoopDispatchError::Cancelled)
    } else {
        match d.fed {
            Some(Interruptible::Done) => (PassPhase::CheckingCancel, PassAction::CheckCancel),
            Some(Interruptible::Failed) => cancelling(LoopDispatchError::PublishFailed),
            Some(Interruptible::Cancelled) => cancelling(LoopDispatchError::Cancelled),
            None => cancelling(LoopDispatchError::Cancelled),
        }
    }
}

/// The whole machine, but for results: next phase and action for each report.
pub open spec fn next(phase: PassPhase, count: usize, input: PassInput) -> (PassPhase, PassAction) {
    match (phase, input) {
        (PassPhase::Spawning, PassInput::Spawned(s)) => match s {
            PassSpawn::Taken => feed_from(0, count),
            PassSpawn::Busy => (PassPhase::Driving, PassAction::DriveInline),
            PassSpawn::Rejected { cancelled } => (
                PassPhase::Done,
                PassAction::CancelAndFinish(
                    if cancelled {
                        LoopDispatchError::Cancelled
                    } else {
                        LoopDispatchError::StartFailed
                    },
                ),
            ),
            PassSpawn::Orphaned => (
                PassPhase::Done,
                PassAction::CancelAndFinish(LoopDispatchError::StartFailed),
            ),
        },
        (PassPhase::Feeding(i), PassInput::Fed(r)) => match r {
            Interruptible::Done => feed_from(
                if i < usize::MAX {
                    (i + 1) as usize
                } else {
                    i
                },
                count,
            ),
            Interruptible::Failed => cancelling(LoopDispatchError::PublishFailed),
            Interruptible::Cancelled => cancelling(LoopDispatchError::Cancelled),
        },
        (PassPhase::Driving, PassInput::Drove(d)) => drove(d),
        (PassPhase::CheckingCancel, PassInput::CancelState(cancelled)) => if cancelled {
            cancelling(LoopDispatchError::Cancelled)
        } else {
            (PassPhase::Reading, PassAction::Read)
        },
        (PassPhase::Reading, PassInput::Cancelled) => cancelling(LoopDispatchError::Cancelled),
        (PassPhase::Reading, PassInput::OutputEnded) => (
            PassPhase::AwaitingEnd,
            PassAction::AwaitEnd,
        ),
        (PassPhase::Reading, PassInput::OutputIgnored) => (PassPhase::Reading, PassAction::Read),
        (PassPhase::Publishing, PassInput::Published(r)) => match r {
            Interruptible::Done => (PassPhase::Reading, PassAction::Read),
            Interruptible::Failed => cancelling(LoopDispatchError::PublishFailed),
            Interruptible::Cancelled => cancelling(LoopDispatchError::Cancelled),
        },
        (PassPhase::Cancelling(e), PassInput::Ended(_)) => (
            PassPhase::Done,
            PassAction::Finish(PassResult::Failed(e)),
        ),
        (PassPhase::AwaitingEnd, PassInput::Ended(end)) => (
            PassPhase::Done,
            PassAction::Finish(
                match end {
                    Some(LoopEndKind::Drained) => PassResult::Reported,
                    Some(LoopEndKind::Cancelled) => PassResult::Failed(LoopDispatchError::Cancelled),
                    None => PassResult::Failed(LoopDispatchError::Cancelled),
                    Some(_) => PassResult::Failed(LoopDispatchError::LoopFailed),
                },
            ),
        ),
        _ => (phase, PassAction::Ignore),
    }
}

/// One pass over the units of an exchange.
pub struct LoopPass {
    setting: PassSetting,
    count: usize,
    phase: PassPhase,
    report: LoopDispatchReport,
}

/// One more; the last machine number is its own successor.
pub open spec fn counted(n: u32) -> u32 {
    if n == u32::MAX {
        n
    } else {
        (n + 1) as u32
    }
}

impl LoopPass {
    /// What the pass is about.
    pub closed spec fn about(&self) -> PassSetting {
        self.setting
    }

    /// Number of units.
    pub closed spec fn unit_count(&self) -> usize {
        self.count
    }

    /// What the pass waits for.
    pub closed spec fn waits_for(&self) -> PassPhase {
        self.phase
    }

    /// Report so far.
    pub closed spec fn so_far(&self) -> LoopDispatchReport {
        self.report
    }

    /// A pass whose loop is to be handed over.
    pub fn new(setting: PassSetting, count: usize) -> (r: Self)
        ensures
            r.about() == setting,
            r.unit_count() == count,
            r.waits_for() == PassPhase::Spawning,
            r.so_far().tools_unavailable == 0,
            r.so_far().outbound_results == 0,
            r.so_far().tools_completed == 0,
            r.so_far().tool_results@.len() == 0,
    {
        LoopPass {
            setting,
            count,
            phase: PassPhase::Spawning,
            report: LoopDispatchReport {
                tools_unavailable: 0,
                outbound_results: 0,
                tools_completed: 0,
                tool_results: Vec::new(),
            },
        }
    }

    /// The report.
    pub fn report(self) -> (r: LoopDispatchReport)
        ensures
            r == self.so_far(),
    {
        self.report
    }

    fn feed(&mut self, i: usize) -> (r: PassAction)
        ensures
            final(self).about() == old(self).about(),
            final(self).unit_count() == old(self).unit_count(),
            final(self).so_far() == old(self).so_far(),
            (final(self).waits_for(), r) == feed_from(i, old(self).unit_count()),
    {
        if i < self.count {
            self.phase = PassPhase::Feeding(i);
            PassAction::Feed(i)
        } else {
            self.phase = PassPhase::CheckingCancel;
            PassAction::CheckCancel
        }
    }

    fn cancel(&mut self, e: LoopDispatchError) -> (r: PassAction)
        ensures
            final(self).about() == old(self).about(),
            final(self).unit_count() == old(self).unit_count(),
            final(self).so_far() == old(self).so_far(),
            (final(self).waits_for(), r) == cancelling(e),
    {
        self.phase = PassPhase::Cancelling(e);
        PassAction::CancelAndAwait
    }

    /// One step of the machine.
    pub fn step(&mut self, input: PassInput) -> (r: PassAction)
        ensures
            final(self).about() == old(self).about(),
            final(self).unit_count() == old(self).unit_count(),
            final(self).so_far() == old(self).so_far(),
            (final(self).waits_for(), r) == next(
                old(self).waits_for(),
                old(self).unit_count(),
                input,
            ),
    {
        match (self.phase, input) {
            (PassPhase::Spawning, PassInput::Spawned(s)) => match s {
                PassSpawn::Taken => self.feed(0),
                PassSpawn::Busy => {
                    self.phase = PassPhase::Driving;
                    PassAction::DriveInline
                },
                PassSpawn::Rejected { cancelled } => {
                    self.phase = PassPhase::Done;
                    PassAction::CancelAndFinish(
                        if cancelled {
                            LoopDispatchError::Cancelled
                        } else {
                            LoopDispatchError::StartFailed
                        },
                    )
                },
                PassSpawn::Orphaned => {
                    self.phase = PassPhase::Done;
                    PassAction::CancelAndFinish(LoopDispatchError::StartFailed)
                },
            },
            (PassPhase::Feeding(i), PassInput::Fed(fed)) => match fed {
                Interruptible::Done => self.feed(i.saturating_add(1)),
                Interruptible::Failed => self.cancel(LoopDispatchError::PublishFailed),
                Interruptible::Cancelled => self.cancel(LoopDispatchError::Cancelled),
            },
            (PassPhase::Driving, PassInput::Drove(d)) => {
                if d.saw_cancel {
                    return self.cancel(LoopDispatchError::Cancelled);
                }
                match d.fed {
                    Some(Interruptible::Done) => {
                        self.phase = PassPhase::CheckingCancel;
                        PassAction::CheckCancel
                    },
                    Some(Interruptible::Failed) => self.cancel(LoopDispatchError::PublishFailed),
                    Some(Interruptible::Cancelled) => self.cancel(LoopDispatchError::Cancelled),
                    None => self.cancel(LoopDispatchError::Cancelled),
                }
            },
            (PassPhase::CheckingCancel, PassInput::CancelState(cancelled)) => {
                if cancelled {
                    self.cancel(LoopDispatchError::Cancelled)
                } else {
                    self.phase = PassPhase::Reading;
                    PassAction::Read
                }
            },
            (PassPhase::Reading, PassInput::Cancelled) => self.cancel(LoopDispatchError::Cancelled),
            (PassPhase::Reading, PassInput::OutputEnded) => {
                self.phase = PassPhase::AwaitingEnd;
                PassAction::AwaitEnd
            },
            (PassPhase::Reading, PassInput::OutputIgnored) => PassAction::Read,
            (PassPhase::Publishing, PassInput::Published(published)) => match published {
                Interruptible::Done => {
                    self.phase = PassPhase::Reading;
                    PassAction::Read
                },
                Interruptible::Failed => self.cancel(LoopDispatchError::PublishFailed),
                Interruptible::Cancelled => self.cancel(LoopDispatchError::Cancelled),
            },
            (PassPhase::Cancelling(e), PassInput::Ended(_)) => {
                self.phase = PassPhase::Done;
                PassAction::Finish(PassResult::Failed(e))
            },
            (PassPhase::AwaitingEnd, PassInput::Ended(end)) => {
                self.phase = PassPhase::Done;
                PassAction::Finish(
                    match end {
                        Some(LoopEndKind::Drained) => PassResult::Reported,
                        Some(LoopEndKind::Cancelled) | None => PassResult::Failed(
                            LoopDispatchError::Cancelled,
                        ),
                        Some(_) => PassResult::Failed(LoopDispatchError::LoopFailed),
                    },
                )
            },
            _ => PassAction::Ignore,
        }
    }

    /// The loop said that a tool is unavailable.
    pub fn on_unavailable(&mut self)
        ensures
            final(self).about() == old(self).about(),
            final(self).unit_count() == old(self).unit_count(),
            final(self).waits_for() == old(self).waits_for(),
            final(self).so_far() == (LoopDispatchReport {
                tools_unavailable: counted(old(self).so_far().tools_unavailable),
                ..old(self).so_far()
            }),
    {
        self.report.tools_unavailable = self.report.tools_unavailable.saturating_add(1);
    }

    /// The loop gave an outbound result: it is noted in the report and has to
    /// be published. Outside reading there is nothing to publish.
    pub fn on_result(
        &mut self,
        outbound: &OutboundToolResult,
        decoded: Option<CanonicalToolResult>,
    ) -> (r: Option<CanonicalToolResult>)
        ensures
            final(self).about() == old(self).about(),
            final(self).unit_count() == old(self).unit_count(),
            if old(self).waits_for() == PassPhase::Reading {
                &&& r is Some
                &&& is_result_of(
                    r->0,
                    old(self).about(),
                    *outbound,
                    decoded,
                    json_compact(outbound.payload@),
                    old(self).so_far().tool_results@.len() as u32,
                )
                &&& final(self).waits_for() == PassPhase::Publishing
                &&& final(self).so_far().tool_results@ == old(self).so_far().tool_results@.push(
                    r->0,
                )
                &&& final(self).so_far().outbound_results == counted(
                    old(self).so_far().outbound_results,
                )
                &&& final(self).so_far().tools_completed == (if counts_as_completed(
                    *outbound,
                    decoded,
                ) {
                    counted(old(self).so_far().tools_completed)
                } else {
                    old(self).so_far().tools_completed
                })
                &&& final(self).so_far().tools_unavailable == old(self).so_far().tools_unavailable
            } else {
                r is None && final(self).waits_for() == old(self).waits_for() && final(
                    self).so_far() == old(self).so_far()
            },
    {
        match self.phase {
            PassPhase::Reading => {},
            _ => {
                return None;
            },
        }
        let n: usize = self.report.tool_results.len();
        let ordinal: u32 = #[verifier::truncate]
        (n as u32);
        let completed: bool = match outbound.outcome {
            OutboundToolOutcome::Success | OutboundToolOutcome::ExecutionFailed => match &decoded {
                Some(d) => match d.outcome {
                    CanonicalToolResultOutcome::Succeeded(_) => true,
                    CanonicalToolResultOutcome::DomainFailed(_) => false,
                },
                None => match outbound.outcome {
                    OutboundToolOutcome::Success => true,
                    _ => false,
                },
            },
            _ => false,
        };
        self.report.outbound_results = self.report.outbound_results.saturating_add(1);
        if completed {
            self.report.tools_completed = self.report.tools_completed.saturating_add(1);
        }
        let result = result_for(&self.setting, outbound, decoded, ordinal);
        self.report.tool_results.push(result.clone());
        self.phase = PassPhase::Publishing;
        Some(result)
    }
}

/// A pass that gives its report has read all output of a loop that drained.
pub proof fn report_needs_a_drained_loop(phase: PassPhase, count: usize, input: PassInput)
    requires
        next(phase, count, input).1 == PassAction::Finish(PassResult::Reported),
    ensures
        phase == PassPhase::AwaitingEnd,
        input == PassInput::Ended(Some(LoopEndKind::Drained)),
{
}

/// Once the loop was handed over, a pass that fails cancels it and waits for its end.
pub proof fn failing_pass_ends_its_loop(phase: PassPhase, count: usize, input: PassInput)
    requires
        next(phase, count, input).1 matches PassAction::Finish(r) && r is Failed,
    ensures
        phase is Cancelling || phase == PassPhase::AwaitingEnd,
{
}

} // verus!
