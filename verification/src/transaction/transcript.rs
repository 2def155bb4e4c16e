//! Transcript of a transaction that goes on after tool calls: the model's
//! calls and the tools' results, appended once for each round.

use crate::contracts::{
    CanonicalUnit, CanonicalUnitEvent, TextChannel, ToolActionId, ToolRequestState, ToolUnit,
};
use crate::identity::ExchangeId;
use crate::json::{json_compact, opt_json, opt_jsons, quote, quoted, JsonText};
use crate::messages::{fits_part, CanonicalAssistantToolCall, CanonicalMessage, TextPart};
use crate::text::{trim, trimmed};
use crate::transaction::lifecycle::loop_dispatch::{is_ready, ready_unit};
use crate::transaction::lifecycle::session_identity::{
    exchange_action, provider_part, provider_tool_call_id_from_action, tool_action_id_for_exchange,
};
use crate::transaction::types::{
    CanonicalToolError, CanonicalToolOutput, CanonicalToolResult, CanonicalToolResultOutcome,
};
use vstd::prelude::*;
use vstd::string::StringExecFns;

verus! {

/// Most bytes of a part of the transcript.
pub const MAX_TRANSCRIPT_PART_BYTES: usize = 262144;

/// A tool call, as text.
pub struct CallText {
    /// Identity that the provider gave to the call.
    pub id: Seq<char>,
    /// Name of the tool.
    pub name: Seq<char>,
    /// Compact JSON of the arguments.
    pub arguments: Seq<char>,
}

/// A tool call of a message, as text.
pub open spec fn call_text(c: CanonicalAssistantToolCall) -> CallText {
    CallText { id: c.tool_call_id@, name: c.tool_name@, arguments: c.arguments@ }
}

/// Tool calls of a message, as text.
pub open spec fn call_texts(cs: Seq<CanonicalAssistantToolCall>) -> Seq<CallText> {
    Seq::new(cs.len(), |i: int| call_text(cs[i]))
}

/// A ready tool request.
#[derive(Clone, Debug)]
pub struct ReadyTool {
    /// Identity of the action, unique across exchanges.
    pub action_id: ToolActionId,
    /// Name of the tool.
    pub name: String,
    /// Arguments as the model stated them.
    pub payload: String,
    /// Identity that the provider gave to the call.
    pub provider_id: String,
}

/// Whether a tool was read off a unit.
pub open spec fn is_read_off(t: ReadyTool, exchange_id: ExchangeId, u: CanonicalUnitEvent) -> bool {
    let tool = u.unit_snapshot().unit->Tool_0;
    &&& t.action_id@ == exchange_action(exchange_id, tool.tool_action_id@)
    &&& t.name == tool.tool_name->0
    &&& t.payload == tool.request_payload->0
    &&& t.provider_id == tool.tool_action_id
}

/// Positions of the complete requests, in order.
pub open spec fn ready_places(units: Seq<CanonicalUnitEvent>) -> Seq<int>
    decreases units.len(),
{
    if units.len() == 0 {
        Seq::empty()
    } else {
        let before = ready_places(units.drop_last());
        if is_ready(units.last()) {
            before.push(units.len() - 1)
        } else {
            before
        }
    }
}

/// Whether tools were read off the units at these places.
pub open spec fn all_read_off(
    tools: Seq<ReadyTool>,
    exchange_id: ExchangeId,
    units: Seq<CanonicalUnitEvent>,
    places: Seq<int>,
) -> bool {
    &&& tools.len() == places.len()
    &&& forall|k: int|
        0 <= k < tools.len() ==> 0 <= #[trigger] places[k] && places[k] < units.len()
            && is_read_off(tools[k], exchange_id, units[places[k]])
}

/// The complete requests of an exchange, in order.
pub fn collect_ready_tools(exchange_id: ExchangeId, units: &Vec<CanonicalUnitEvent>) -> (r: Vec<
    ReadyTool,
>)
    ensures
        all_read_off(r@, exchange_id, units@, ready_places(units@)),
{
    let mut out: Vec<ReadyTool> = Vec::new();
    let mut i: usize = 0;
    assert(units@.take(0) =~= Seq::<CanonicalUnitEvent>::empty());
    while i < units.len()
        invariant
            i <= units.len(),
            all_read_off(out@, exchange_id, units@, ready_places(units@.take(i as int))),
        decreases units.len() - i,
    {
        let ghost before = out@;
        let ghost places = ready_places(units@.take(i as int));
        proof {
            let t = units@.take(i as int + 1);
            assert(t.drop_last() =~= units@.take(i as int));
            assert(t.last() == units@[i as int]);
        }
        if ready_unit(&units[i]) {
            match &units[i].snapshot().unit {
                CanonicalUnit::Tool(tool) => match (&tool.tool_name, &tool.request_payload) {
                    (Some(name), Some(payload)) => {
                        out.push(
                            ReadyTool {
                                action_id: tool_action_id_for_exchange(
                                    exchange_id,
                                    tool.tool_action_id.as_str(),
                                ),
                                name: name.clone(),
                                payload: payload.clone(),
                                provider_id: tool.tool_action_id.clone(),
                            },
                        );
                    },
                    _ => {},
                },
                _ => {},
            }
        }
        proof {
            let after = ready_places(units@.take(i as int + 1));
            assert forall|k: int| 0 <= k < out@.len() implies 0 <= #[trigger] after[k] && after[k]
                < units@.len() && is_read_off(out@[k], exchange_id, units@[after[k]]) by {
                if k < before.len() {
                    assert(after[k] == places[k]);
                }
            }
            assert(all_read_off(out@, exchange_id, units@, after));
        }
        i = i + 1;
    }
    assert(units@.take(i as int) =~= units@);
    out
}

/// Whether a tool's request is marked as complete.
pub open spec fn marked_ready(t: ToolUnit) -> bool {
    t.request_state == ToolRequestState::Ready
}

/// Identity of the call that an action answers: that of its result, else the
/// provider's part of the action, else the action itself.
pub open spec fn call_identity(results: Seq<CanonicalToolResult>, action: Seq<char>) -> Seq<char>
    decreases results.len(),
{
    if results.len() == 0 {
        action
    } else {
        match matching_result(results, action) {
            Some(id) => id,
            None => match provider_part(results[0].exchange_id, action) {
                Some(p) => p,
                None => action,
            },
        }
    }
}

/// Provider's identity in the first result of an action.
pub open spec fn matching_result(results: Seq<CanonicalToolResult>, action: Seq<char>) -> Option<
    Seq<char>,
>
    decreases results.len(),
{
    if results.len() == 0 {
        None
    } else if results[0].tool_action_id@ == action {
        Some(results[0].provider_tool_call_id@)
    } else {
        matching_result(results.drop_first(), action)
    }
}

/// The compact JSON of a unit's request, where it is a tool's, has a payload,
/// and the payload is JSON.
pub open spec fn payload_json(u: CanonicalUnitEvent) -> Option<Seq<char>> {
    match u.unit_snapshot().unit {
        CanonicalUnit::Tool(t) => match t.request_payload {
            Some(p) => json_compact(p@),
            None => None,
        },
        _ => None,
    }
}

/// The compact JSON of each unit's request.
pub open spec fn payloads_json(units: Seq<CanonicalUnitEvent>) -> Seq<Option<Seq<char>>> {
    Seq::new(units.len(), |i: int| payload_json(units[i]))
}

/// Reads the payload of each unit's request.
pub fn parse_payloads(units: &Vec<CanonicalUnitEvent>) -> (r: Vec<Option<JsonText>>)
    ensures
        opt_jsons(r@) == payloads_json(units@),
{
    let mut out: Vec<Option<JsonText>> = Vec::new();
    let mut i: usize = 0;
    while i < units.len()
        invariant
            i <= units.len(),
            out@.len() == i,
            forall|j: int| 0 <= j < i ==> opt_json(#[trigger] out@[j]) == payload_json(units@[j]),
        decreases units.len() - i,
    {
        let parsed: Option<JsonText> = match &units[i].snapshot().unit {
            CanonicalUnit::Tool(t) => match &t.request_payload {
                Some(p) => JsonText::parse(p.as_str()),
                None => None,
            },
            _ => None,
        };
        out.push(parsed);
        i = i + 1;
    }
    assert(opt_jsons(out@) =~= payloads_json(units@));
    out
}

/// Calls of one round, or `None` where a complete request lacks name or
/// payload, its payload is no JSON, or its name is no tool's name. `parsed`
/// holds the compact JSON of each unit's request.
pub open spec fn round_calls(
    units: Seq<CanonicalUnitEvent>,
    results: Seq<CanonicalToolResult>,
    names_ok: Seq<bool>,
    parsed: Seq<Option<Seq<char>>>,
) -> Option<Seq<CallText>>
    decreases units.len(),
{
    if units.len() == 0 {
        Some(Seq::empty())
    } else {
        match round_calls(units.drop_last(), results, names_ok, parsed) {
            None => None,
            Some(calls) => match units.last().unit_snapshot().unit {
                CanonicalUnit::Tool(t) => if !marked_ready(t) {
                    Some(calls)
                } else if t.tool_name is None || t.request_payload is None || parsed[units.len() - 1]
                    is None || !names_ok[units.len() - 1] {
                    None
                } else {
                    Some(
                        calls.push(
                            CallText {
                                id: call_identity(results, t.tool_action_id@),
                                name: t.tool_name->0@,
                                arguments: parsed[units.len() - 1]->0,
                            },
                        ),
                    )
                },
                _ => Some(calls),
            },
        }
    }
}

/// The JSON text of a tool's error.
pub open spec fn error_text(e: CanonicalToolError) -> Seq<char> {
    "{\"error\":{\"code\":"@ + quoted(e.code@) + ",\"data\":"@ + (match e.data {
        Some(d) => d@,
        None => "null"@,
    }) + ",\"message\":"@ + quoted(e.message@) + "}}"@
}

/// The text of a result.
pub open spec fn result_text(r: CanonicalToolResult) -> Seq<char> {
    match r.outcome {
        CanonicalToolResultOutcome::Succeeded(CanonicalToolOutput::Json(t)) => t@,
        CanonicalToolResultOutcome::Succeeded(CanonicalToolOutput::Text(t)) => t@,
        CanonicalToolResultOutcome::DomainFailed(e) => error_text(e),
    }
}

/// Whether a message carries one text for a call.
pub open spec fn is_tool_message(m: CanonicalMessage, call: Seq<char>, text: Seq<char>) -> bool {
    match m {
        CanonicalMessage::Tool { tool_call_id, content } => tool_call_id@ == call && content@.len()
            == 1 && content@[0].text@ == text,
        _ => false,
    }
}

/// Whether a message carries the model's text, where there is any, and calls.
pub open spec fn is_assistant_message(
    m: CanonicalMessage,
    text: Option<Seq<char>>,
    calls: Seq<CallText>,
) -> bool {
    match m {
        CanonicalMessage::Assistant { content, tool_calls } => {
            &&& call_texts(tool_calls@) == calls
            &&& match text {
                None => content@.len() == 0,
                Some(t) => content@.len() == 1 && content@[0].text@ == t,
            }
        },
        _ => false,
    }
}

/// Whether a transcript is another one with one round more.
pub open spec fn is_next_round(
    after: Seq<CanonicalMessage>,
    before: Seq<CanonicalMessage>,
    text: Option<Seq<char>>,
    calls: Seq<CallText>,
    results: Seq<CanonicalToolResult>,
    texts: spec_fn(CanonicalToolResult) -> Seq<char>,
) -> bool {
    let n = before.len() as int;
    &&& after.len() == n + 1 + results.len()
    &&& after.take(n) == before
    &&& is_assistant_message(after[n], text, calls)
    &&& forall|k: int|
        0 <= k < results.len() ==> is_tool_message(
            #[trigger] after[n + 1 + k],
            results[k].provider_tool_call_id@,
            texts(results[k]),
        )
}

fn result_identity(results: &Vec<CanonicalToolResult>, action: &ToolActionId) -> (r: String)
    ensures
        r@ == call_identity(results@, action@),
{
    if results.len() == 0 {
        return action.clone();
    }
    let mut i: usize = 0;
    assert(results@.skip(0) =~= results@);
    while i < results.len()
        invariant
            results.len() > 0,
            i <= results.len(),
            matching_result(results@, action@) == matching_result(
                results@.skip(i as int),
                action@,
            ),
        decreases results.len() - i,
    {
        if results[i].tool_action_id == *action {
            assert(results@.skip(i as int)[0] == results@[i as int]);
            return results[i].provider_tool_call_id.clone();
        }
        assert(results@.skip(i as int).drop_first() =~= results@.skip(i as int + 1));
        i = i + 1;
    }
    match provider_tool_call_id_from_action(results[0].exchange_id, action.as_str()) {
        Some(p) => p,
        None => action.clone(),
    }
}

fn collect_round_calls(
    units: &Vec<CanonicalUnitEvent>,
    results: &Vec<CanonicalToolResult>,
    names_ok: &Vec<bool>,
    parsed: &Vec<Option<JsonText>>,
) -> (r: Option<Vec<CanonicalAssistantToolCall>>)
    requires
        names_ok.len() == units.len(),
        parsed.len() == units.len(),
    ensures
        match r {
            None => round_calls(units@, results@, names_ok@, opt_jsons(parsed@)) is None,
            Some(calls) => round_calls(units@, results@, names_ok@, opt_jsons(parsed@)) == Some(
                call_texts(calls@),
            ),
        },
{
    let mut calls: Vec<CanonicalAssistantToolCall> = Vec::new();
    let mut i: usize = 0;
    assert(units@.take(0) =~= Seq::<CanonicalUnitEvent>::empty());
    assert(call_texts(calls@) =~= Seq::<CallText>::empty());
    while i < units.len()
        invariant
            i <= units.len(),
            names_ok.len() == units.len(),
            parsed.len() == units.len(),
            round_calls(units@.take(i as int), results@, names_ok@, opt_jsons(parsed@)) == Some(
                call_texts(calls@),
            ),
        decreases units.len() - i,
    {
        proof {
            let t = units@.take(i as int + 1);
            assert(t.drop_last() =~= units@.take(i as int));
            assert(t.last() == units@[i as int]);
        }
        match &units[i].snapshot().unit {
            CanonicalUnit::Tool(t) => {
                if t.request_state == ToolRequestState::Ready {
                    let call: Option<CanonicalAssistantToolCall> = match (
                        &t.tool_name,
                        &t.request_payload,
                    ) {
                        (Some(name), Some(_)) => match &parsed[i] {
                            Some(arguments) => {
                                if names_ok[i] {
                                    Some(
                                        CanonicalAssistantToolCall {
                                            tool_call_id: result_identity(
                                                results,
                                                &t.tool_action_id,
                                            ),
                                            tool_name: name.clone(),
                                            arguments: arguments.clone(),
                                        },
                                    )
                                } else {
                                    None
                                }
                            },
                            None => None,
                        },
                        _ => None,
                    };
                    match call {
                        Some(call) => {
                            let ghost before = calls@;
                            calls.push(call);
                            assert(call_texts(calls@) =~= call_texts(before).push(
                                call_text(call),
                            ));
                        },
                        None => {
                            proof {
                                lemma_round_fails(
                                    units@,
                                    results@,
                                    names_ok@,
                                    opt_jsons(parsed@),
                                    i as int + 1,
                                );
                            }
                            return None;
                        },
                    }
                }
            },
            _ => {},
        }
        i = i + 1;
    }
    assert(units@.take(i as int) =~= units@);
    Some(calls)
}

proof fn lemma_round_fails(
    units: Seq<CanonicalUnitEvent>,
    results: Seq<CanonicalToolResult>,
    names_ok: Seq<bool>,
    parsed: Seq<Option<Seq<char>>>,
    n: int,
)
    requires
        0 <= n <= units.len(),
        round_calls(units.take(n), results, names_ok, parsed) is None,
    ensures
        round_calls(units, results, names_ok, parsed) is None,
    decreases units.len() - n,
{
    if n == units.len() {
        assert(units.take(n) =~= units);
    } else {
        assert(units.take(n + 1).drop_last() =~= units.take(n));
        lemma_round_fails(units, results, names_ok, parsed, n + 1);
    }
}

fn error_json(e: &CanonicalToolError) -> (r: String)
    ensures
        r@ == error_text(*e),
{
    let mut s: String = String::from_str("{\"error\":{\"code\":");
    s.append(quote(e.code.as_str()).as_str());
    s.append(",\"data\":");
    match &e.data {
        Some(d) => {
            s.append(d.as_str());
        },
        None => {
            s.append("null");
        },
    }
    s.append(",\"message\":");
    s.append(quote(e.message.as_str()).as_str());
    s.append("}}");
    s
}

/// Whether every result's text can be a part.
pub open spec fn results_fit(
    results: Seq<CanonicalToolResult>,
    texts: spec_fn(CanonicalToolResult) -> Seq<char>,
    max_bytes: usize,
) -> bool {
    forall|k: int| 0 <= k < results.len() ==> fits_part(texts(#[trigger] results[k]), max_bytes)
}

/// Appends the calls and results of one round. A round without calls, with a
/// request that cannot be read, or with a result that does not fit is refused,
/// and the transcript stays as it is.
pub fn append_tool_round(
    messages: &mut Vec<CanonicalMessage>,
    units: &Vec<CanonicalUnitEvent>,
    results: &Vec<CanonicalToolResult>,
    names_ok: &Vec<bool>,
    max_part_bytes: usize,
) -> (r: bool)
    requires
        names_ok.len() == units.len(),
    ensures
        ({
            let calls = round_calls(units@, results@, names_ok@, payloads_json(units@));
            let texts = |t: CanonicalToolResult| result_text(t);
            &&& r == (calls is Some && calls->0.len() > 0 && results_fit(
                results@,
                texts,
                max_part_bytes,
            ))
            &&& !r ==> final(messages)@ == old(messages)@
            &&& r ==> is_next_round(
                final(messages)@,
                old(messages)@,
                None,
                calls->0,
                results@,
                texts,
            )
        }),
{
    let parsed = parse_payloads(units);
    assert(parsed@.len() == opt_jsons(parsed@).len());
    append_parsed_round(messages, units, results, names_ok, &parsed, max_part_bytes)
}

/// Appends the calls and results of one round whose payloads were read;
/// `parsed` holds the compact JSON of each unit's request.
pub fn append_parsed_round(
    messages: &mut Vec<CanonicalMessage>,
    units: &Vec<CanonicalUnitEvent>,
    results: &Vec<CanonicalToolResult>,
    names_ok: &Vec<bool>,
    parsed: &Vec<Option<JsonText>>,
    max_part_bytes: usize,
) -> (r: bool)
    requires
        names_ok.len() == units.len(),
        parsed.len() == units.len(),
    ensures
        ({
            let calls = round_calls(units@, results@, names_ok@, opt_jsons(parsed@));
            let texts = |t: CanonicalToolResult| result_text(t);
            &&& r == (calls is Some && calls->0.len() > 0 && results_fit(
                results@,
                texts,
                max_part_bytes,
            ))
            &&& !r ==> final(messages)@ == old(messages)@
            &&& r ==> is_next_round(
                final(messages)@,
                old(messages)@,
                None,
                calls->0,
                results@,
                texts,
            )
        }),
{
    let ghost texts = |t: CanonicalToolResult| result_text(t);
    let tool_calls: Vec<CanonicalAssistantToolCall> = match collect_round_calls(
        units,
        results,
        names_ok,
        parsed,
    ) {
        Some(calls) => calls,
        None => {
            return false;
        },
    };
    if tool_calls.len() == 0 {
        return false;
    }
    let mut tail: Vec<CanonicalMessage> = Vec::new();
    let mut k: usize = 0;
    while k < results.len()
        invariant
            k <= results.len(),
            texts == (|t: CanonicalToolResult| result_text(t)),
            tail@.len() == k,
            forall|j: int|
                0 <= j < k ==> fits_part(texts(#[trigger] results@[j]), max_part_bytes),
            forall|j: int|
                0 <= j < k ==> is_tool_message(
                    #[trigger] tail@[j],
                    results@[j].provider_tool_call_id@,
                    texts(results@[j]),
                ),
        decreases results.len() - k,
    {
        let text: String = match &results[k].outcome {
            CanonicalToolResultOutcome::Succeeded(CanonicalToolOutput::Json(t)) => t.to_text(),
            CanonicalToolResultOutcome::Succeeded(CanonicalToolOutput::Text(t)) => t.clone(),
            CanonicalToolResultOutcome::DomainFailed(e) => error_json(e),
        };
        assert(text@ == texts(results@[k as int]));
        match TextPart::try_new(text.as_str(), max_part_bytes) {
            Some(part) => {
                let mut content: Vec<TextPart> = Vec::new();
                content.push(part);
                tail.push(
                    CanonicalMessage::Tool {
                        tool_call_id: results[k].provider_tool_call_id.clone(),
                        content,
                    },
                );
            },
            None => {
                assert(!fits_part(texts(results@[k as int]), max_part_bytes));
                return false;
            },
        }
        k = k + 1;
    }
    let ghost before = messages@;
    let ghost tail_all = tail@;
    messages.push(CanonicalMessage::Assistant { content: Vec::new(), tool_calls });
    messages.append(&mut tail);
    proof {
        let n = before.len() as int;
        assert(messages@.take(n) =~= before);
        assert forall|j: int| 0 <= j < results@.len() implies is_tool_message(
            #[trigger] messages@[n + 1 + j],
            results@[j].provider_tool_call_id@,
            texts(results@[j]),
        ) by {
            assert(messages@[n + 1 + j] == tail_all[j]);
        }
    }
    true
}

/// The model's own words in an exchange, each followed by a space.
pub open spec fn spoken(units: Seq<CanonicalUnitEvent>) -> Seq<char>
    decreases units.len(),
{
    if units.len() == 0 {
        Seq::empty()
    } else {
        let before = spoken(units.drop_last());
        match units.last().unit_snapshot().unit {
            CanonicalUnit::Text(t) => if t.channel == TextChannel::PublicResponse {
                before + t.content@ + " "@
            } else {
                before
            },
            _ => before,
        }
    }
}

/// Arguments of a request: none where it has no payload that is JSON.
pub open spec fn lenient_arguments(parsed: Option<Seq<char>>) -> Seq<char> {
    match parsed {
        Some(a) => a,
        None => "{}"@,
    }
}

/// Calls of one exchange, or `None` where a complete request has no name, or
/// one that is no tool's name. `parsed` holds the compact JSON of each unit's
/// request.
pub open spec fn exchange_calls(
    units: Seq<CanonicalUnitEvent>,
    names_ok: Seq<bool>,
    parsed: Seq<Option<Seq<char>>>,
) -> Option<Seq<CallText>>
    decreases units.len(),
{
    if units.len() == 0 {
        Some(Seq::empty())
    } else {
        match exchange_calls(units.drop_last(), names_ok, parsed) {
            None => None,
            Some(calls) => match units.last().unit_snapshot().unit {
                CanonicalUnit::Tool(t) => if !marked_ready(t) {
                    Some(calls)
                } else if t.tool_name is None || !names_ok[units.len() - 1] {
                    None
                } else {
                    Some(
                        calls.push(
                            CallText {
                                id: t.tool_action_id@,
                                name: t.tool_name->0@,
                                arguments: lenient_arguments(parsed[units.len() - 1]),
                            },
                        ),
                    )
                },
                _ => Some(calls),
            },
        }
    }
}

/// The body of a result: its text, a failure's message, or a word where it is empty.
pub open spec fn result_body(r: CanonicalToolResult) -> Seq<char> {
    let body = match r.outcome {
        CanonicalToolResultOutcome::Succeeded(CanonicalToolOutput::Text(t)) => t@,
        CanonicalToolResultOutcome::Succeeded(CanonicalToolOutput::Json(t)) => t@,
        CanonicalToolResultOutcome::DomainFailed(e) => e.message@,
    };
    if body.len() == 0 {
        "ok"@
    } else {
        body
    }
}

/// The model's own words as a part, where there are any.
pub open spec fn spoken_part(units: Seq<CanonicalUnitEvent>) -> Option<Seq<char>> {
    if trimmed(spoken(units)).len() == 0 {
        None
    } else {
        Some(trimmed(spoken(units)))
    }
}

proof fn lemma_exchange_fails(
    units: Seq<CanonicalUnitEvent>,
    names_ok: Seq<bool>,
    parsed: Seq<Option<Seq<char>>>,
    n: int,
)
    requires
        0 <= n <= units.len(),
        exchange_calls(units.take(n), names_ok, parsed) is None,
    ensures
        exchange_calls(units, names_ok, parsed) is None,
    decreases units.len() - n,
{
    if n == units.len() {
        assert(units.take(n) =~= units);
    } else {
        assert(units.take(n + 1).drop_last() =~= units.take(n));
        lemma_exchange_fails(units, names_ok, parsed, n + 1);
    }
}

fn arguments_of(parsed: &Option<JsonText>) -> (r: JsonText)
    ensures
        r@ == lenient_arguments(opt_json(*parsed)),
{
    match parsed {
        Some(a) => a.clone(),
        None => JsonText::empty_object(),
    }
}

fn collect_exchange(
    units: &Vec<CanonicalUnitEvent>,
    names_ok: &Vec<bool>,
    parsed: &Vec<Option<JsonText>>,
) -> (r: Option<(String, Vec<CanonicalAssistantToolCall>)>)
    requires
        names_ok.len() == units.len(),
        parsed.len() == units.len(),
    ensures
        match r {
            None => exchange_calls(units@, names_ok@, opt_jsons(parsed@)) is None,
            Some(read) => read.0@ == spoken(units@) && exchange_calls(
                units@,
                names_ok@,
                opt_jsons(parsed@),
            ) == Some(call_texts(read.1@)),
        },
{
    let mut text: String = String::new();
    let mut calls: Vec<CanonicalAssistantToolCall> = Vec::new();
    let mut i: usize = 0;
    assert(units@.take(0) =~= Seq::<CanonicalUnitEvent>::empty());
    assert(call_texts(calls@) =~= Seq::<CallText>::empty());
    while i < units.len()
        invariant
            i <= units.len(),
            names_ok.len() == units.len(),
            parsed.len() == units.len(),
            text@ == spoken(units@.take(i as int)),
            exchange_calls(units@.take(i as int), names_ok@, opt_jsons(parsed@)) == Some(
                call_texts(calls@),
            ),
        decreases units.len() - i,
    {
        proof {
            let t = units@.take(i as int + 1);
            assert(t.drop_last() =~= units@.take(i as int));
            assert(t.last() == units@[i as int]);
        }
        match &units[i].snapshot().unit {
            CanonicalUnit::Text(t) => {
                if t.channel == TextChannel::PublicResponse {
                    text.append(t.content.as_str());
                    text.append(" ");
                }
            },
            CanonicalUnit::Tool(t) => {
                if t.request_state == ToolRequestState::Ready {
                    match &t.tool_name {
                        Some(name) => {
                            if !names_ok[i] {
                                proof {
                                    lemma_exchange_fails(
                                        units@,
                                        names_ok@,
                                        opt_jsons(parsed@),
                                        i as int + 1,
                                    );
                                }
                                return None;
                            }
                            let call = CanonicalAssistantToolCall {
                                tool_call_id: t.tool_action_id.clone(),
                                tool_name: name.clone(),
                                arguments: arguments_of(&parsed[i]),
                            };
                            let ghost before = calls@;
                            calls.push(call);
                            assert(call_texts(calls@) =~= call_texts(before).push(
                                call_text(call),
                            ));
                        },
                        None => {
                            proof {
                                lemma_exchange_fails(
                                        units@,
                                        names_ok@,
                                        opt_jsons(parsed@),
                                        i as int + 1,
                                    );
                            }
                            return None;
                        },
                    }
                }
            },
            _ => {},
        }
        i = i + 1;
    }
    assert(units@.take(i as int) =~= units@);
    Some((text, calls))
}

/// Appends one exchange: the model's words and calls, and the results. An
/// exchange with neither words nor calls, with a request that has no proper
/// name, or with a text that does not fit is refused, and the transcript stays
/// as it is.
pub fn append_exchange_to_transcript(
    messages: &mut Vec<CanonicalMessage>,
    units: &Vec<CanonicalUnitEvent>,
    results: &Vec<CanonicalToolResult>,
    names_ok: &Vec<bool>,
) -> (r: bool)
    requires
        names_ok.len() == units.len(),
    ensures
        ({
            let calls = exchange_calls(units@, names_ok@, payloads_json(units@));
            let words = spoken_part(units@);
            let texts = |t: CanonicalToolResult| result_body(t);
            &&& r == (calls is Some && (calls->0.len() > 0 || words is Some) && (words is Some
                ==> fits_part(words->0, MAX_TRANSCRIPT_PART_BYTES)) && results_fit(
                results@,
                texts,
                MAX_TRANSCRIPT_PART_BYTES,
            ))
            &&& !r ==> final(messages)@ == old(messages)@
            &&& r ==> is_next_round(
                final(messages)@,
                old(messages)@,
                words,
                calls->0,
                results@,
                texts,
            )
        }),
{
    let parsed = parse_payloads(units);
    assert(parsed@.len() == opt_jsons(parsed@).len());
    append_parsed_exchange(messages, units, results, names_ok, &parsed)
}

/// Appends one exchange whose payloads were read; `parsed` holds the compact
/// JSON of each unit's request.
pub fn append_parsed_exchange(
    messages: &mut Vec<CanonicalMessage>,
    units: &Vec<CanonicalUnitEvent>,
    results: &Vec<CanonicalToolResult>,
    names_ok: &Vec<bool>,
    parsed: &Vec<Option<JsonText>>,
) -> (r: bool)
    requires
        names_ok.len() == units.len(),
        parsed.len() == units.len(),
    ensures
        ({
            let calls = exchange_calls(units@, names_ok@, opt_jsons(parsed@));
            let words = spoken_part(units@);
            let texts = |t: CanonicalToolResult| result_body(t);
            &&& r == (calls is Some && (calls->0.len() > 0 || words is Some) && (words is Some
                ==> fits_part(words->0, MAX_TRANSCRIPT_PART_BYTES)) && results_fit(
                results@,
                texts,
                MAX_TRANSCRIPT_PART_BYTES,
            ))
            &&& !r ==> final(messages)@ == old(messages)@
            &&& r ==> is_next_round(
                final(messages)@,
                old(messages)@,
                words,
                calls->0,
                results@,
                texts,
            )
        }),
{
    let ghost texts = |t: CanonicalToolResult| result_body(t);
    let (text, tool_calls): (String, Vec<CanonicalAssistantToolCall>) = match collect_exchange(
        units,
        names_ok,
        parsed,
    ) {
        Some(read) => read,
        None => {
            return false;
        },
    };
    let words: String = trim(text.as_str());
    let mut content: Vec<TextPart> = Vec::new();
    if !words.as_str().is_empty() {
        match TextPart::try_new(words.as_str(), MAX_TRANSCRIPT_PART_BYTES) {
            Some(part) => {
                content.push(part);
            },
            None => {
                return false;
            },
        }
    }
    if content.len() == 0 && tool_calls.len() == 0 {
        return false;
    }
    let mut tail: Vec<CanonicalMessage> = Vec::new();
    let mut k: usize = 0;
    while k < results.len()
        invariant
            k <= results.len(),
            texts == (|t: CanonicalToolResult| result_body(t)),
            tail@.len() == k,
            forall|j: int|
                0 <= j < k ==> fits_part(
                    texts(#[trigger] results@[j]),
                    MAX_TRANSCRIPT_PART_BYTES,
                ),
            forall|j: int|
                0 <= j < k ==> is_tool_message(
                    #[trigger] tail@[j],
                    results@[j].provider_tool_call_id@,
                    texts(results@[j]),
                ),
        decreases results.len() - k,
    {
        let mut body: String = match &results[k].outcome {
            CanonicalToolResultOutcome::Succeeded(CanonicalToolOutput::Text(t)) => t.clone(),
            CanonicalToolResultOutcome::Succeeded(CanonicalToolOutput::Json(t)) => t.to_text(),
            CanonicalToolResultOutcome::DomainFailed(e) => e.message.clone(),
        };
        if body.as_str().is_empty() {
            body = String::from_str("ok");
        }
        assert(body@ == texts(results@[k as int]));
        match TextPart::try_new(body.as_str(), MAX_TRANSCRIPT_PART_BYTES) {
            Some(part) => {
                let mut parts: Vec<TextPart> = Vec::new();
                parts.push(part);
                tail.push(
                    CanonicalMessage::Tool {
                        tool_call_id: results[k].provider_tool_call_id.clone(),
                        content: parts,
                    },
                );
            },
            None => {
                assert(!fits_part(texts(results@[k as int]), MAX_TRANSCRIPT_PART_BYTES));
                return false;
            },
        }
        k = k + 1;
    }
    let ghost before = messages@;
    let ghost tail_all = tail@;
    messages.push(CanonicalMessage::Assistant { content, tool_calls });
    messages.append(&mut tail);
    proof {
        let n = before.len() as int;
        assert(messages@.take(n) =~= before);
        assert forall|j: int| 0 <= j < results@.len() implies is_tool_message(
            #[trigger] messages@[n + 1 + j],
            results@[j].provider_tool_call_id@,
            texts(results@[j]),
        ) by {
            assert(messages@[n + 1 + j] == tail_all[j]);
        }
    }
    true
}

/// Whether a unit is a tool's and its request is complete.
pub open spec fn asks(u: CanonicalUnitEvent) -> bool {
    u.unit_snapshot().unit matches CanonicalUnit::Tool(t) && t.request_state
        == ToolRequestState::Ready
}

/// The tool of a unit.
pub open spec fn tool_of(u: CanonicalUnitEvent) -> ToolUnit {
    u.unit_snapshot().unit->Tool_0
}

/// Whether places are those of all units that ask, in order.
pub open spec fn are_askers(places: Seq<int>, units: Seq<CanonicalUnitEvent>) -> bool {
    &&& forall|k: int|
        0 <= k < places.len() ==> 0 <= #[trigger] places[k] < units.len() && asks(units[places[k]])
    &&& forall|j: int, k: int|
        0 <= j < k < places.len() ==> #[trigger] places[j] < #[trigger] places[k]
    &&& forall|i: int|
        0 <= i < units.len() && asks(#[trigger] units[i]) ==> places.contains(i)
}

proof fn lemma_more_askers(places: Seq<int>, units: Seq<CanonicalUnitEvent>) -> (more: Seq<int>)
    requires
        units.len() > 0,
        are_askers(places, units.drop_last()),
    ensures
        are_askers(more, units),
        asks(units.last()) ==> more == places.push(units.len() - 1),
        !asks(units.last()) ==> more == places,
{
    let n = units.len() - 1;
    let before = units.drop_last();
    let more = if asks(units.last()) {
        places.push(n)
    } else {
        places
    };
    assert forall|k: int| 0 <= k < more.len() implies 0 <= #[trigger] more[k] < units.len() && asks(
        units[more[k]],
    ) by {
        if k < places.len() {
            assert(more[k] == places[k]);
            assert(before[places[k]] == units[places[k]]);
        }
    }
    assert forall|j: int, k: int| 0 <= j < k < more.len() implies #[trigger] more[j]
        < #[trigger] more[k] by {
        assert(more[j] == places[j]);
        if k < places.len() {
            assert(more[k] == places[k]);
        }
    }
    assert forall|i: int| 0 <= i < units.len() && asks(#[trigger] units[i]) implies more.contains(
        i,
    ) by {
        if i < n {
            assert(before[i] == units[i]);
            let k = choose|k: int| 0 <= k < places.len() && places[k] == i;
            assert(more[k] == i);
        } else {
            assert(more[places.len() as int] == i);
        }
    }
    more
}

/// What the model said is what its public texts say, one after the other: the
/// words of two lists of units are the words of the first and then those of the
/// second, a public text says its content and a space, and nothing else says
/// anything.
pub proof fn words_are_those_of_every_public_text(
    a: Seq<CanonicalUnitEvent>,
    b: Seq<CanonicalUnitEvent>,
    one: CanonicalUnitEvent,
)
    ensures
        spoken(Seq::<CanonicalUnitEvent>::empty()) == Seq::<char>::empty(),
        spoken(a + b) == spoken(a) + spoken(b),
        one.unit_snapshot().unit matches CanonicalUnit::Text(t) && t.channel
            == TextChannel::PublicResponse ==> spoken(seq![one])
            == one.unit_snapshot().unit->Text_0.content@ + " "@,
        !(one.unit_snapshot().unit matches CanonicalUnit::Text(t) && t.channel
            == TextChannel::PublicResponse) ==> spoken(seq![one]) == Seq::<char>::empty(),
    decreases b.len(),
{
    let single = seq![one];
    assert(single.drop_last() =~= Seq::<CanonicalUnitEvent>::empty());
    assert(spoken(single.drop_last()) =~= Seq::<char>::empty());
    assert(single.last() == one);
    match one.unit_snapshot().unit {
        CanonicalUnit::Text(t) => {
            assert(Seq::<char>::empty() + t.content@ + " "@ =~= t.content@ + " "@);
        },
        _ => {},
    }
    if b.len() == 0 {
        assert(a + b =~= a);
        assert(spoken(a) + spoken(b) =~= spoken(a));
    } else {
        words_are_those_of_every_public_text(a, b.drop_last(), one);
        assert((a + b).drop_last() =~= a + b.drop_last());
        assert((a + b).last() == b.last());
        assert(spoken(a + b) =~= spoken(a) + spoken(b));
    }
}

/// The words go into the transcript, trimmed, wherever there are any but white
/// space.
pub proof fn words_are_kept(units: Seq<CanonicalUnitEvent>)
    ensures
        spoken_part(units) is None <==> forall|i: int|
            0 <= i < spoken(units).len() ==> crate::text::white_space(#[trigger] spoken(units)[i]),
        spoken_part(units) is Some ==> spoken_part(units)->0 == trimmed(spoken(units)),
{
    crate::text::trimmed_is_empty_iff_blank(spoken(units));
}

proof fn lemma_exchange_calls(
    units: Seq<CanonicalUnitEvent>,
    names_ok: Seq<bool>,
    parsed: Seq<Option<Seq<char>>>,
) -> (places: Seq<int>)
    requires
        units.len() <= names_ok.len(),
        units.len() <= parsed.len(),
    ensures
        are_askers(places, units),
        match exchange_calls(units, names_ok, parsed) {
            None => exists|i: int|
                0 <= i < units.len() && asks(#[trigger] units[i]) && (tool_of(
                    units[i],
                ).tool_name is None || !names_ok[i]),
            Some(calls) => {
                &&& forall|i: int|
                    0 <= i < units.len() && asks(#[trigger] units[i]) ==> tool_of(
                        units[i],
                    ).tool_name is Some && names_ok[i]
                &&& calls.len() == places.len()
                &&& forall|k: int|
                    0 <= k < calls.len() ==> {
                        let i = places[k];
                        &&& (#[trigger] calls[k]).id == tool_of(units[i]).tool_action_id@
                        &&& calls[k].name == tool_of(units[i]).tool_name->0@
                        &&& calls[k].arguments == (match parsed[i] {
                            Some(read) => read,
                            None => "{}"@,
                        })
                    }
            },
        },
    decreases units.len(),
{
    if units.len() == 0 {
        Seq::empty()
    } else {
        let before = units.drop_last();
        let n = units.len() - 1;
        let had = lemma_exchange_calls(before, names_ok, parsed);
        let places = lemma_more_askers(had, units);
        match exchange_calls(before, names_ok, parsed) {
            None => {
                let i = choose|i: int|
                    0 <= i < before.len() && asks(#[trigger] before[i]) && (tool_of(
                        before[i],
                    ).tool_name is None || !names_ok[i]);
                assert(units[i] == before[i]);
            },
            Some(calls) => {
                assert forall|i: int| 0 <= i < n && asks(#[trigger] units[i]) implies tool_of(
                    units[i],
                ).tool_name is Some && names_ok[i] by {
                    assert(before[i] == units[i]);
                }
                assert(asks(units[n]) == asks(units.last()));
                if exchange_calls(units, names_ok, parsed) is Some {
                    let now = exchange_calls(units, names_ok, parsed)->0;
                    assert forall|k: int| 0 <= k < now.len() implies ({
                        let i = places[k];
                        &&& (#[trigger] now[k]).id == tool_of(units[i]).tool_action_id@
                        &&& now[k].name == tool_of(units[i]).tool_name->0@
                        &&& now[k].arguments == (match parsed[i] {
                            Some(read) => read,
                            None => "{}"@,
                        })
                    }) by {
                        if k < calls.len() {
                            assert(now[k] == calls[k]);
                            assert(places[k] == had[k]);
                            assert(before[had[k]] == units[had[k]]);
                        }
                    }
                }
            },
        }
        places
    }
}

/// The calls of an exchange are its complete requests: one for each, in order,
/// with the provider's identity, the name, and the arguments that were read, or
/// none where nothing could be read. They are refused exactly where a complete
/// request has no proper name.
pub proof fn exchange_calls_are_the_requests(
    units: Seq<CanonicalUnitEvent>,
    names_ok: Seq<bool>,
    parsed: Seq<Option<Seq<char>>>,
)
    requires
        units.len() == names_ok.len(),
        units.len() == parsed.len(),
    ensures
        exchange_calls(units, names_ok, parsed) is Some <==> forall|i: int|
            0 <= i < units.len() && asks(#[trigger] units[i]) ==> tool_of(units[i]).tool_name
                is Some && names_ok[i],
        exchange_calls(units, names_ok, parsed) matches Some(calls) ==> exists|places: Seq<int>|
            {
                &&& #[trigger] are_askers(places, units)
                &&& calls.len() == places.len()
                &&& forall|k: int|
                    0 <= k < calls.len() ==> {
                        let i = places[k];
                        &&& (#[trigger] calls[k]).id == tool_of(units[i]).tool_action_id@
                        &&& calls[k].name == tool_of(units[i]).tool_name->0@
                        &&& calls[k].arguments == (match parsed[i] {
                            Some(read) => read,
                            None => "{}"@,
                        })
                    }
            },
{
    let places = lemma_exchange_calls(units, names_ok, parsed);
    assert(are_askers(places, units));
}

/// Whether a complete request can be a call of a round.
pub open spec fn can_be_called(
    t: ToolUnit,
    name_ok: bool,
    parsed: Option<Seq<char>>,
) -> bool {
    t.tool_name is Some && t.request_payload is Some && parsed is Some && name_ok
}

proof fn lemma_round_calls(
    units: Seq<CanonicalUnitEvent>,
    results: Seq<CanonicalToolResult>,
    names_ok: Seq<bool>,
    parsed: Seq<Option<Seq<char>>>,
) -> (places: Seq<int>)
    requires
        units.len() <= names_ok.len(),
        units.len() <= parsed.len(),
    ensures
        are_askers(places, units),
        match round_calls(units, results, names_ok, parsed) {
            None => exists|i: int|
                0 <= i < units.len() && asks(#[trigger] units[i]) && !can_be_called(
                    tool_of(units[i]),
                    names_ok[i],
                    parsed[i],
                ),
            Some(calls) => {
                &&& forall|i: int|
                    0 <= i < units.len() && asks(#[trigger] units[i]) ==> can_be_called(
                        tool_of(units[i]),
                        names_ok[i],
                        parsed[i],
                    )
                &&& calls.len() == places.len()
                &&& forall|k: int|
                    0 <= k < calls.len() ==> {
                        let i = places[k];
                        &&& (#[trigger] calls[k]).id == call_identity(
                            results,
                            tool_of(units[i]).tool_action_id@,
                        )
                        &&& calls[k].name == tool_of(units[i]).tool_name->0@
                        &&& calls[k].arguments == parsed[i]->0
                    }
            },
        },
    decreases units.len(),
{
    if units.len() == 0 {
        Seq::empty()
    } else {
        let before = units.drop_last();
        let n = units.len() - 1;
        let had = lemma_round_calls(before, results, names_ok, parsed);
        let places = lemma_more_askers(had, units);
        match round_calls(before, results, names_ok, parsed) {
            None => {
                let i = choose|i: int|
                    0 <= i < before.len() && asks(#[trigger] before[i]) && !can_be_called(
                        tool_of(before[i]),
                        names_ok[i],
                        parsed[i],
                    );
                assert(units[i] == before[i]);
            },
            Some(calls) => {
                assert forall|i: int| 0 <= i < n && asks(#[trigger] units[i]) implies can_be_called(
                    tool_of(units[i]),
                    names_ok[i],
                    parsed[i],
                ) by {
                    assert(before[i] == units[i]);
                }
                assert(asks(units[n]) == asks(units.last()));
                if round_calls(units, results, names_ok, parsed) is Some {
                    let now = round_calls(units, results, names_ok, parsed)->0;
                    assert forall|k: int| 0 <= k < now.len() implies ({
                        let i = places[k];
                        &&& (#[trigger] now[k]).id == call_identity(
                            results,
                            tool_of(units[i]).tool_action_id@,
                        )
                        &&& now[k].name == tool_of(units[i]).tool_name->0@
                        &&& now[k].arguments == parsed[i]->0
                    }) by {
                        if k < calls.len() {
                            assert(now[k] == calls[k]);
                            assert(places[k] == had[k]);
                            assert(before[had[k]] == units[had[k]]);
                        }
                    }
                }
            },
        }
        places
    }
}

/// The calls of a round are its complete requests: one for each, in order, under
/// the identity by which the provider knows it, with its name and the arguments
/// that were read. A round is refused exactly where one of them has no proper
/// name or no arguments that can be read.
pub proof fn round_calls_are_the_requests(
    units: Seq<CanonicalUnitEvent>,
    results: Seq<CanonicalToolResult>,
    names_ok: Seq<bool>,
    parsed: Seq<Option<Seq<char>>>,
)
    requires
        units.len() == names_ok.len(),
        units.len() == parsed.len(),
    ensures
        round_calls(units, results, names_ok, parsed) is Some <==> forall|i: int|
            0 <= i < units.len() && asks(#[trigger] units[i]) ==> can_be_called(
                tool_of(units[i]),
                names_ok[i],
                parsed[i],
            ),
        round_calls(units, results, names_ok, parsed) matches Some(calls) ==> exists|
            places: Seq<int>,
        |
            {
                &&& #[trigger] are_askers(places, units)
                &&& calls.len() == places.len()
                &&& forall|k: int|
                    0 <= k < calls.len() ==> {
                        let i = places[k];
                        &&& (#[trigger] calls[k]).id == call_identity(
                            results,
                            tool_of(units[i]).tool_action_id@,
                        )
                        &&& calls[k].name == tool_of(units[i]).tool_name->0@
                        &&& calls[k].arguments == parsed[i]->0
                    }
            },
{
    let places = lemma_round_calls(units, results, names_ok, parsed);
    assert(are_askers(places, units));
}

/// A call goes by the identity in the first result of its action; without one,
/// by the provider's part of the action; else by the action itself.
pub proof fn call_goes_by_its_result(
    results: Seq<CanonicalToolResult>,
    action: Seq<char>,
    k: int,
    provider: Seq<char>,
)
    ensures
        0 <= k < results.len() && results[k].tool_action_id@ == action && (forall|j: int|
            0 <= j < k ==> (#[trigger] results[j]).tool_action_id@ != action) ==> call_identity(
            results,
            action,
        ) == results[k].provider_tool_call_id@,
        results.len() > 0 && (forall|j: int|
            0 <= j < results.len() ==> (#[trigger] results[j]).tool_action_id@ != action)
            && action == exchange_action(results[0].exchange_id, provider) ==> call_identity(
            results,
            action,
        ) == provider,
        results.len() == 0 ==> call_identity(results, action) == action,
{
    if 0 <= k < results.len() && results[k].tool_action_id@ == action && (forall|j: int|
        0 <= j < k ==> (#[trigger] results[j]).tool_action_id@ != action) {
        lemma_matching_result(results, action, k);
    }
    if results.len() > 0 && (forall|j: int|
        0 <= j < results.len() ==> (#[trigger] results[j]).tool_action_id@ != action) {
        lemma_no_matching_result(results, action);
        if action == exchange_action(results[0].exchange_id, provider) {
            crate::transaction::lifecycle::session_identity::provider_identity_is_recoverable(
                results[0].exchange_id,
                provider,
            );
        }
    }
}

proof fn lemma_matching_result(results: Seq<CanonicalToolResult>, action: Seq<char>, k: int)
    requires
        0 <= k < results.len(),
        results[k].tool_action_id@ == action,
        forall|j: int| 0 <= j < k ==> (#[trigger] results[j]).tool_action_id@ != action,
    ensures
        matching_result(results, action) == Some(results[k].provider_tool_call_id@),
    decreases results.len(),
{
    if k > 0 {
        let rest = results.drop_first();
        assert forall|j: int| 0 <= j < k - 1 implies (#[trigger] rest[j]).tool_action_id@
            != action by {
            assert(rest[j] == results[j + 1]);
        }
        assert(results[0].tool_action_id@ != action);
        lemma_matching_result(rest, action, k - 1);
    }
}

proof fn lemma_no_matching_result(results: Seq<CanonicalToolResult>, action: Seq<char>)
    requires
        forall|j: int|
            0 <= j < results.len() ==> (#[trigger] results[j]).tool_action_id@ != action,
    ensures
        matching_result(results, action) is None,
    decreases results.len(),
{
    if results.len() > 0 {
        let rest = results.drop_first();
        assert forall|j: int| 0 <= j < rest.len() implies (#[trigger] rest[j]).tool_action_id@
            != action by {
            assert(rest[j] == results[j + 1]);
        }
        assert(results[0].tool_action_id@ != action);
        lemma_no_matching_result(rest, action);
    }
}

/// A round adds to the transcript and changes nothing of it: after what was there
/// comes one message of the model with its words, where there are any, and its
/// calls, and then one message for each result, in order, which answers the call
/// of that result and says its text.
pub proof fn round_is_carried_over(
    after: Seq<CanonicalMessage>,
    before: Seq<CanonicalMessage>,
    text: Option<Seq<char>>,
    calls: Seq<CallText>,
    results: Seq<CanonicalToolResult>,
    texts: spec_fn(CanonicalToolResult) -> Seq<char>,
)
    requires
        is_next_round(after, before, text, calls, results, texts),
    ensures
        after.len() == before.len() + 1 + results.len(),
        forall|i: int| 0 <= i < before.len() ==> #[trigger] after[i] == before[i],
        after[before.len() as int] matches CanonicalMessage::Assistant { content, tool_calls } && {
            &&& tool_calls@.len() == calls.len()
            &&& forall|k: int|
                0 <= k < calls.len() ==> (#[trigger] tool_calls@[k]).tool_call_id@ == calls[k].id
                    && tool_calls@[k].tool_name@ == calls[k].name && tool_calls@[k].arguments@
                    == calls[k].arguments
            &&& text is None ==> content@.len() == 0
            &&& text matches Some(t) ==> content@.len() == 1 && content@[0].text@ == t
        },
        forall|k: int|
            0 <= k < results.len() ==> (#[trigger] after[before.len() + 1 + k] matches
                CanonicalMessage::Tool { tool_call_id, content } && tool_call_id@
                == results[k].provider_tool_call_id@ && content@.len() == 1 && content@[0].text@
                == texts(results[k])),
{
    let n = before.len() as int;
    assert forall|i: int| 0 <= i < n implies #[trigger] after[i] == before[i] by {
        assert(after.take(n)[i] == before[i]);
    }
    let said = after[n];
    match said {
        CanonicalMessage::Assistant { content, tool_calls } => {
            assert(call_texts(tool_calls@).len() == calls.len());
            assert forall|k: int| 0 <= k < calls.len() implies (
            #[trigger] tool_calls@[k]).tool_call_id@ == calls[k].id && tool_calls@[k].tool_name@
                == calls[k].name && tool_calls@[k].arguments@ == calls[k].arguments by {
                assert(call_texts(tool_calls@)[k] == calls[k]);
            }
        },
        _ => {},
    }
    assert forall|k: int| 0 <= k < results.len() implies (#[trigger] after[n + 1 + k] matches
        CanonicalMessage::Tool { tool_call_id, content } && tool_call_id@
        == results[k].provider_tool_call_id@ && content@.len() == 1 && content@[0].text@ == texts(
        results[k],
    )) by {
        assert(is_tool_message(
            after[n + 1 + k],
            results[k].provider_tool_call_id@,
            texts(results[k]),
        ));
    }
}

/// What a tool answered is told word for word; a failure of its own is told with
/// its code, its data and its message, or by its message alone. Only an answer
/// without a word is told as something else.
pub proof fn result_is_told(r: CanonicalToolResult)
    ensures
        r.outcome matches CanonicalToolResultOutcome::Succeeded(CanonicalToolOutput::Text(t))
            ==> result_text(r) == t@ && (t@.len() > 0 ==> result_body(r) == t@),
        r.outcome matches CanonicalToolResultOutcome::Succeeded(CanonicalToolOutput::Json(t))
            ==> result_text(r) == t@ && (t@.len() > 0 ==> result_body(r) == t@),
        r.outcome matches CanonicalToolResultOutcome::DomainFailed(e) ==> {
            &&& result_text(r) == "{\"error\":{\"code\":"@ + quoted(e.code@) + ",\"data\":"@ + (
            match e.data {
                Some(d) => d@,
                None => "null"@,
            }) + ",\"message\":"@ + quoted(e.message@) + "}}"@
            &&& e.message@.len() > 0 ==> result_body(r) == e.message@
        },
        result_body(r).len() > 0,
{
    reveal_strlit("ok");
}

proof fn lemma_ready_places(units: Seq<CanonicalUnitEvent>)
    ensures
        forall|k: int|
            0 <= k < ready_places(units).len() ==> 0 <= #[trigger] ready_places(units)[k]
                < units.len() && is_ready(units[ready_places(units)[k]]),
        forall|j: int, k: int|
            0 <= j < k < ready_places(units).len() ==> #[trigger] ready_places(units)[j]
                < #[trigger] ready_places(units)[k],
        forall|i: int|
            0 <= i < units.len() && is_ready(#[trigger] units[i]) ==> ready_places(units).contains(
                i,
            ),
    decreases units.len(),
{
    if units.len() > 0 {
        let before = units.drop_last();
        lemma_ready_places(before);
        let had = ready_places(before);
        let now = ready_places(units);
        assert forall|k: int| 0 <= k < now.len() implies 0 <= #[trigger] now[k] < units.len()
            && is_ready(units[now[k]]) by {
            if k < had.len() {
                assert(now[k] == had[k]);
                assert(before[had[k]] == units[had[k]]);
            }
        }
        assert forall|j: int, k: int| 0 <= j < k < now.len() implies #[trigger] now[j]
            < #[trigger] now[k] by {
            assert(now[j] == had[j]);
            if k < had.len() {
                assert(now[k] == had[k]);
            }
        }
        assert forall|i: int| 0 <= i < units.len() && is_ready(
            #[trigger] units[i],
        ) implies now.contains(i) by {
            if i < before.len() {
                assert(before[i] == units[i]);
                let k = choose|k: int| 0 <= k < had.len() && had[k] == i;
                assert(now[k] == i);
            } else {
                assert(now[had.len() as int] == i);
            }
        }
    }
}

/// Every complete request of an exchange is collected, once and in order: the
/// places are those, and only those, of the tool units that are complete and have
/// a name and a payload.
pub proof fn every_ready_request_is_collected(units: Seq<CanonicalUnitEvent>)
    ensures
        forall|i: int|
            0 <= i < units.len() ==> (ready_places(units).contains(i) <==> (asks(
                #[trigger] units[i],
            ) && tool_of(units[i]).tool_name is Some && tool_of(units[i]).request_payload is Some)),
        forall|k: int|
            0 <= k < ready_places(units).len() ==> 0 <= #[trigger] ready_places(units)[k]
                < units.len(),
        forall|j: int, k: int|
            0 <= j < k < ready_places(units).len() ==> #[trigger] ready_places(units)[j]
                < #[trigger] ready_places(units)[k],
{
    lemma_ready_places(units);
}

/// A collected request is that of its unit: its name, its payload and the
/// provider's identity as they are, and an action of the exchange from which the
/// provider's identity can be read.
pub proof fn collected_request_is_that_of_its_unit(
    t: ReadyTool,
    exchange_id: ExchangeId,
    u: CanonicalUnitEvent,
)
    requires
        is_ready(u),
        is_read_off(t, exchange_id, u),
    ensures
        Some(t.name) == tool_of(u).tool_name,
        Some(t.payload) == tool_of(u).request_payload,
        t.provider_id == tool_of(u).tool_action_id,
        provider_part(exchange_id, t.action_id@) == Some(t.provider_id@),
{
    crate::transaction::lifecycle::session_identity::provider_identity_is_recoverable(
        exchange_id,
        t.provider_id@,
    );
}

} // verus!
