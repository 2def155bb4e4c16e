//! Answering tool requests when there are no tools: each complete request gets
//! one unavailable result, and nothing is ever started.

use crate::contracts::{CanonicalUnit, CanonicalUnitEvent, ToolRequestState};
use crate::identity::{ExchangeId, TransactionId};
use crate::registry::{EmptyToolRegistry, ResolveToolRequest, ToolResolution};
use crate::text::list_contains;
use crate::text::texts;
use crate::transaction::lifecycle::loop_dispatch::{is_failure, is_ready, ready_unit};
use crate::transaction::types::{
    CanonicalToolError, CanonicalToolResult, CanonicalToolResultOutcome, SessionKey,
};
use vstd::prelude::*;
use vstd::string::StringExecFns;

verus! {

/// Outcome of one pass over exchange units.
#[derive(Clone, Copy, Debug, PartialEq, Eq, Structural)]
pub struct EmptyToolPassReport {
    /// Complete requests that were considered.
    pub ready_seen: u32,
    /// Unavailable results published.
    pub unavailable_published: u32,
    /// Tool units that are not complete.
    pub non_ready_ignored: u32,
}

/// Empty-tool pass failure.
#[derive(Clone, Copy, Debug, PartialEq, Eq, Structural)]
pub enum EmptyToolPassError {
    /// Cancelled cooperatively.
    Cancelled,
    /// Registry returned an error.
    RegistryFailed,
    /// Event publish failed.
    PublishFailed,
    /// The empty registry returned a tool.
    InvariantFailed,
}

/// How publishing a result went.
#[derive(Clone, Copy, Debug, PartialEq, Eq, Structural)]
pub enum PublishOutcome {
    /// It worked.
    Published,
    /// It failed.
    Failed,
    /// Cancelled.
    Cancelled,
}

/// True if any unit is a complete tool request with name and payload.
pub fn has_ready_tool_units(units: &Vec<CanonicalUnitEvent>) -> (r: bool)
    ensures
        r == exists|i: int| 0 <= i < units@.len() && is_ready(#[trigger] units@[i]),
{
    crate::transaction::lifecycle::loop_dispatch::needs_loop_dispatch(units)
}

/// Identity of the action of a tool unit.
pub open spec fn action_of(u: CanonicalUnitEvent) -> Seq<char> {
    u.unit_snapshot().unit->Tool_0.tool_action_id@
}

/// Whether a unit is the first complete request of its action.
pub open spec fn is_first_request(units: Seq<CanonicalUnitEvent>, i: int) -> bool {
    &&& 0 <= i < units.len()
    &&& is_ready(units[i])
    &&& forall|j: int|
        0 <= j < i && is_ready(#[trigger] units[j]) ==> action_of(units[j]) != action_of(units[i])
}

/// Whether a unit is a tool unit whose request is not complete.
pub open spec fn is_unready_tool(u: CanonicalUnitEvent) -> bool {
    match u.unit_snapshot().unit {
        CanonicalUnit::Tool(t) => t.request_state != ToolRequestState::Ready,
        _ => false,
    }
}

/// Tool units with incomplete requests, counted on from a number.
pub open spec fn plus_unready(start: u32, units: Seq<CanonicalUnitEvent>) -> u32
    decreases units.len(),
{
    if units.len() == 0 {
        start
    } else {
        let n = plus_unready(start, units.drop_last());
        if is_unready_tool(units.last()) && n < u32::MAX {
            (n + 1) as u32
        } else {
            n
        }
    }
}

/// First complete requests of an action among the first `n` units.
pub open spec fn first_requests(units: Seq<CanonicalUnitEvent>, n: int) -> nat
    decreases n,
{
    if n <= 0 {
        0
    } else if is_first_request(units, n - 1) {
        first_requests(units, n - 1) + 1
    } else {
        first_requests(units, n - 1)
    }
}

/// A count as a report holds it: it stops at the largest number.
pub open spec fn as_reported(n: nat) -> int {
    if n > u32::MAX {
        u32::MAX as int
    } else {
        n as int
    }
}

/// What a pass is about.
#[derive(Clone, Debug)]
pub struct EmptyPassSetting {
    /// Transaction.
    pub transaction_id: TransactionId,
    /// Session of the results.
    pub session_key: SessionKey,
    /// Exchange.
    pub exchange_id: ExchangeId,
}

/// Whether a result tells that the tool of a unit is unavailable. `id_ok` says
/// whether the name of the tool can be a tool's identity.
pub open spec fn is_unavailable_result(
    r: CanonicalToolResult,
    s: EmptyPassSetting,
    u: CanonicalUnitEvent,
    id_ok: bool,
) -> bool {
    let snap = u.unit_snapshot();
    let tool = snap.unit->Tool_0;
    &&& r.transaction_id == s.transaction_id
    &&& r.session_key == s.session_key
    &&& r.exchange_id == s.exchange_id
    &&& r.tool_action_id == tool.tool_action_id
    &&& r.tool_id@ == (if id_ok {
        tool.tool_name->0@
    } else {
        "unavailable"@
    })
    &&& r.provider_tool_call_id == tool.tool_action_id
    &&& r.request_ordinal == (if snap.lane_ordinal > u32::MAX {
        u32::MAX as int
    } else {
        snap.lane_ordinal as int
    })
    &&& is_failure(r.outcome, "tool_unavailable"@, "no_registered_tool"@)
}

/// A pass over the units of an exchange.
pub struct EmptyToolPass {
    setting: EmptyPassSetting,
    position: usize,
    seen: Vec<String>,
    report: EmptyToolPassReport,
}

impl EmptyToolPass {
    /// What the pass is about.
    pub closed spec fn about(&self) -> EmptyPassSetting {
        self.setting
    }

    /// Units that are behind the pass.
    pub closed spec fn at(&self) -> usize {
        self.position
    }

    /// Report so far.
    pub closed spec fn so_far(&self) -> EmptyToolPassReport {
        self.report
    }

    /// Internal consistency: the pass remembers the actions of the complete
    /// requests behind it.
    pub closed spec fn wf(&self, units: Seq<CanonicalUnitEvent>) -> bool {
        &&& self.position <= units.len()
        &&& forall|a: Seq<char>| #[trigger]
            texts(self.seen@).contains(a) <==> exists|j: int|
                0 <= j < self.position && is_ready(#[trigger] units[j]) && action_of(units[j]) == a
        &&& self.report.ready_seen == as_reported(first_requests(units, self.position as int))
        &&& self.report.non_ready_ignored == plus_unready(0, units.take(self.position as int))
    }

    /// A pass counts every action behind it whose request is complete once,
    /// and every tool unit whose request is not.
    pub proof fn counts_what_it_saw(&self, units: Seq<CanonicalUnitEvent>)
        requires
            self.wf(units),
        ensures
            self.at() <= units.len(),
            self.so_far().ready_seen == as_reported(first_requests(units, self.at() as int)),
            self.so_far().non_ready_ignored == plus_unready(0, units.take(self.at() as int)),
    {
    }

    /// A pass at its beginning.
    pub fn new(setting: EmptyPassSetting) -> (r: Self)
        ensures
            r.about() == setting,
            r.at() == 0,
            r.so_far() == (EmptyToolPassReport {
                ready_seen: 0,
                unavailable_published: 0,
                non_ready_ignored: 0,
            }),
            forall|units: Seq<CanonicalUnitEvent>| #[trigger] r.wf(units),
    {
        let r = EmptyToolPass {
            setting,
            position: 0,
            seen: Vec::new(),
            report: EmptyToolPassReport {
                ready_seen: 0,
                unavailable_published: 0,
                non_ready_ignored: 0,
            },
        };
        assert(texts(r.seen@) =~= Seq::<Seq<char>>::empty());
        assert forall|units: Seq<CanonicalUnitEvent>| #[trigger] r.wf(units) by {
            assert(units.take(0) =~= Seq::<CanonicalUnitEvent>::empty());
        }
        r
    }

    /// Goes on to the next first request of an action; `None` at the end.
    pub fn advance(&mut self, units: &Vec<CanonicalUnitEvent>) -> (r: Option<usize>)
        requires
            old(self).wf(units@),
        ensures
            final(self).wf(units@),
            final(self).about() == old(self).about(),
            final(self).so_far().unavailable_published == old(self).so_far().unavailable_published,
            ({
                let stop = match r {
                    Some(i) => i as int,
                    None => units@.len() as int,
                };
                &&& old(self).at() <= stop
                &&& forall|k: int| old(self).at() <= k < stop ==> !is_first_request(units@, k)
                &&& final(self).so_far().non_ready_ignored == plus_unready(
                    old(self).so_far().non_ready_ignored,
                    units@.subrange(old(self).at() as int, stop),
                )
            }),
            match r {
                Some(i) => {
                    &&& is_first_request(units@, i as int)
                    &&& final(self).at() == i + 1
                    &&& final(self).so_far().ready_seen == (if old(self).so_far().ready_seen
                        == u32::MAX {
                        u32::MAX as int
                    } else {
                        old(self).so_far().ready_seen + 1
                    })
                },
                None => final(self).at() == units@.len() && final(self).so_far().ready_seen == old(
                    self).so_far().ready_seen,
            },
    {
        let ghost start = self.position as int;
        let ghost unready0 = self.report.non_ready_ignored;
        assert(units@.subrange(start, start) =~= Seq::<CanonicalUnitEvent>::empty());
        while self.position < units.len()
            invariant
                self.wf(units@),
                start <= self.position,
                start == old(self).at(),
                unready0 == old(self).so_far().non_ready_ignored,
                self.about() == old(self).about(),
                self.report.unavailable_published == old(self).so_far().unavailable_published,
                self.report.ready_seen == old(self).so_far().ready_seen,
                self.report.non_ready_ignored == plus_unready(
                    unready0,
                    units@.subrange(start, self.position as int),
                ),
                forall|k: int| start <= k < self.position ==> !is_first_request(units@, k),
            decreases units.len() - self.position,
        {
            let i: usize = self.position;
            let unit = &units[i];
            let ghost seen0 = self.seen@;
            let ready: bool = ready_unit(unit);
            proof {
                assert(units@.take(i as int + 1).drop_last() =~= units@.take(i as int));
            }
            if ready {
                let action: String = match &unit.snapshot().unit {
                    CanonicalUnit::Tool(t) => t.tool_action_id.clone(),
                    _ => String::new(),
                };
                assert(action@ == action_of(units@[i as int]));
                if !list_contains(&self.seen, &action) {
                    self.seen.push(action);
                    self.position = i + 1;
                    self.report.ready_seen = self.report.ready_seen.saturating_add(1);
                    proof {
                        lemma_seen_grows(seen0, action, units@, i as int);
                        assert(is_first_request(units@, i as int)) by {
                            assert forall|j: int|
                                0 <= j < i && is_ready(#[trigger] units@[j]) implies action_of(
                                units@[j],
                            ) != action_of(units@[i as int]) by {
                                if action_of(units@[j]) == action@ {
                                    assert(texts(seen0).contains(action@));
                                }
                            }
                        }
                    }
                    return Some(i);
                }
                proof {
                    assert(texts(seen0).contains(action@));
                    let j = choose|j: int|
                        0 <= j < i && is_ready(#[trigger] units@[j]) && action_of(units@[j])
                            == action@;
                    assert(!is_first_request(units@, i as int));
                    assert forall|a: Seq<char>| #[trigger] texts(self.seen@).contains(a)
                        <==> exists|k: int|
                        0 <= k < i + 1 && is_ready(#[trigger] units@[k]) && action_of(units@[k])
                            == a by {
                        if texts(self.seen@).contains(a) {
                            let k = choose|k: int|
                                0 <= k < i && is_ready(#[trigger] units@[k]) && action_of(
                                    units@[k],
                                ) == a;
                            assert(is_ready(units@[k]));
                        }
                        if exists|k: int|
                            0 <= k < i + 1 && is_ready(#[trigger] units@[k]) && action_of(units@[k])
                                == a {
                            let k = choose|k: int|
                                0 <= k < i + 1 && is_ready(#[trigger] units@[k]) && action_of(
                                    units@[k],
                                ) == a;
                            if k == i {
                                assert(a == action@);
                            }
                        }
                    }
                }
            } else {
                let unready: bool = match &unit.snapshot().unit {
                    CanonicalUnit::Tool(t) => t.request_state != ToolRequestState::Ready,
                    _ => false,
                };
                if unready {
                    self.report.non_ready_ignored = self.report.non_ready_ignored.saturating_add(1);
                }
                proof {
                    assert forall|a: Seq<char>| #[trigger] texts(self.seen@).contains(a)
                        <==> exists|k: int|
                        0 <= k < i + 1 && is_ready(#[trigger] units@[k]) && action_of(units@[k])
                            == a by {
                        if texts(self.seen@).contains(a) {
                            let k = choose|k: int|
                                0 <= k < i && is_ready(#[trigger] units@[k]) && action_of(
                                    units@[k],
                                ) == a;
                            assert(is_ready(units@[k]));
                        }
                    }
                }
            }
            proof {
                let t = units@.subrange(start, i as int + 1);
                assert(t.drop_last() =~= units@.subrange(start, i as int));
                assert(t.last() == units@[i as int]);
            }
            self.position = i + 1;
        }
        None
    }

    /// The result for a complete request: no tool is ever found.
    pub fn answer(&self, unit: &CanonicalUnitEvent, id_ok: bool) -> (r: Result<
        CanonicalToolResult,
        EmptyToolPassError,
    >)
        requires
            is_ready(*unit),
        ensures
            r is Ok,
            is_unavailable_result(r->Ok_0, self.about(), *unit, id_ok),
    {
        let snap = unit.snapshot();
        let tool = match &snap.unit {
            CanonicalUnit::Tool(t) => t,
            _ => {
                return Err(EmptyToolPassError::InvariantFailed);
            },
        };
        let (name, payload): (String, String) = match (&tool.tool_name, &tool.request_payload) {
            (Some(n), Some(p)) => (n.clone(), p.clone()),
            _ => {
                return Err(EmptyToolPassError::InvariantFailed);
            },
        };
        let tool_id: String = if id_ok {
            name.clone()
        } else {
            String::from_str("unavailable")
        };
        match EmptyToolRegistry::new().resolve(
            &ResolveToolRequest {
                tool_action_id: tool.tool_action_id.clone(),
                tool_name: name,
                request_payload: payload,
            },
        ) {
            Err(_) => Err(EmptyToolPassError::RegistryFailed),
            Ok(ToolResolution::Available(_)) => Err(EmptyToolPassError::InvariantFailed),
            Ok(ToolResolution::Unavailable(_)) => {
                let ordinal: u32 = if snap.lane_ordinal > 0xFFFF_FFFF {
                    0xFFFF_FFFF
                } else {
                    snap.lane_ordinal as u32
                };
                Ok(
                    CanonicalToolResult {
                        transaction_id: self.setting.transaction_id,
                        session_key: self.setting.session_key.clone(),
                        exchange_id: self.setting.exchange_id,
                        tool_action_id: tool.tool_action_id.clone(),
                        tool_id,
                        provider_tool_call_id: tool.tool_action_id.clone(),
                        request_ordinal: ordinal,
                        outcome: CanonicalToolResultOutcome::DomainFailed(
                            CanonicalToolError {
                                code: String::from_str("tool_unavailable"),
                                message: String::from_str("no_registered_tool"),
                                data: None,
                            },
                        ),
                    },
                )
            },
        }
    }

    /// The result was published, or the pass stops.
    pub fn published(&mut self, outcome: PublishOutcome) -> (r: Result<(), EmptyToolPassError>)
        ensures
            final(self).about() == old(self).about(),
            final(self).at() == old(self).at(),
            forall|units: Seq<CanonicalUnitEvent>|
                old(self).wf(units) ==> #[trigger] final(self).wf(units),
            match outcome {
                PublishOutcome::Published => r is Ok && final(self).so_far() == (
                EmptyToolPassReport {
                    unavailable_published: if old(self).so_far().unavailable_published
                        == u32::MAX {
                        u32::MAX
                    } else {
                        (old(self).so_far().unavailable_published + 1) as u32
                    },
                    ..old(self).so_far()
                }),
                PublishOutcome::Failed => r == Err::<(), EmptyToolPassError>(
                    EmptyToolPassError::PublishFailed,
                ) && final(self).so_far() == old(self).so_far(),
                PublishOutcome::Cancelled => r == Err::<(), EmptyToolPassError>(
                    EmptyToolPassError::Cancelled,
                ) && final(self).so_far() == old(self).so_far(),
            },
    {
        match outcome {
            PublishOutcome::Published => {
                self.report.unavailable_published =
                self.report.unavailable_published.saturating_add(1);
                Ok(())
            },
            PublishOutcome::Failed => Err(EmptyToolPassError::PublishFailed),
            PublishOutcome::Cancelled => Err(EmptyToolPassError::Cancelled),
        }
    }

    /// The report.
    pub fn report(&self) -> (r: EmptyToolPassReport)
        ensures
            r == self.so_far(),
    {
        self.report
    }
}

proof fn lemma_seen_grows(
    seen: Seq<String>,
    action: String,
    units: Seq<CanonicalUnitEvent>,
    i: int,
)
    requires
        0 <= i < units.len(),
        is_ready(units[i]),
        action_of(units[i]) == action@,
        forall|a: Seq<char>| #[trigger]
            texts(seen).contains(a) <==> exists|j: int|
                0 <= j < i && is_ready(#[trigger] units[j]) && action_of(units[j]) == a,
    ensures
        forall|a: Seq<char>| #[trigger]
            texts(seen.push(action)).contains(a) <==> exists|j: int|
                0 <= j < i + 1 && is_ready(#[trigger] units[j]) && action_of(units[j]) == a,
{
    let after = texts(seen.push(action));
    let before = texts(seen);
    assert(after =~= before.push(action@));
    assert forall|a: Seq<char>| #[trigger] after.contains(a) <==> exists|j: int|
        0 <= j < i + 1 && is_ready(#[trigger] units[j]) && action_of(units[j]) == a by {
        if after.contains(a) {
            let k = choose|k: int| 0 <= k < after.len() && after[k] == a;
            if k < before.len() {
                assert(before[k] == a);
                assert(before.contains(a));
                let j = choose|j: int|
                    0 <= j < i && is_ready(#[trigger] units[j]) && action_of(units[j]) == a;
                assert(is_ready(units[j]));
            } else {
                assert(is_ready(units[i]));
            }
        }
        if exists|j: int|
            0 <= j < i + 1 && is_ready(#[trigger] units[j]) && action_of(units[j]) == a {
            let j = choose|j: int|
                0 <= j < i + 1 && is_ready(#[trigger] units[j]) && action_of(units[j]) == a;
            if j < i {
                assert(before.contains(a));
                let k = choose|k: int| 0 <= k < before.len() && before[k] == a;
                assert(after[k] == a);
            } else {
                assert(after[before.len() as int] == a);
            }
        }
    }
}

/// A request that no tool is there for is answered as that: for its own action and
/// in its own place, as a failure and never as an answer.
pub proof fn request_without_tools_is_answered(
    r: CanonicalToolResult,
    s: EmptyPassSetting,
    u: CanonicalUnitEvent,
    id_ok: bool,
)
    requires
        is_unavailable_result(r, s, u, id_ok),
        is_ready(u),
    ensures
        r.transaction_id == s.transaction_id,
        r.session_key == s.session_key,
        r.exchange_id == s.exchange_id,
        u.unit_snapshot().unit matches CanonicalUnit::Tool(t) && r.tool_action_id
            == t.tool_action_id && r.provider_tool_call_id == t.tool_action_id && (id_ok
            ==> t.tool_name is Some && r.tool_id@ == t.tool_name->0@),
        u.unit_snapshot().lane_ordinal <= u32::MAX ==> r.request_ordinal
            == u.unit_snapshot().lane_ordinal,
        r.outcome matches CanonicalToolResultOutcome::DomainFailed(e) && e.code@
            == "tool_unavailable"@ && e.message@ == "no_registered_tool"@ && e.data is None,
{
}

} // verus!
