//! The synthetic exchange: one complete text unit, with no provider behind it.

use crate::contracts::{
    CanonicalUnit, CanonicalUnitEvent, CanonicalUnitSnapshot, TextChannel, TextUnit,
};
use crate::identity::{fresh_id_text, is_random_uuid, uuid_text};
use crate::transaction::types::TransactionEndKind;
use vstd::prelude::*;

verus! {

/// What a synthetic exchange comes to.
pub struct SyntheticOutcome {
    /// Units observed.
    pub units: Vec<CanonicalUnitEvent>,
    /// Proposed kind.
    pub terminal: TransactionEndKind,
}

/// Whether a text is a fresh random identifier.
pub open spec fn is_fresh_id(s: Seq<char>) -> bool {
    exists|v: u128| is_random_uuid(v) && s == #[trigger] uuid_text(v)
}

/// Whether an event is the completion of the synthetic text unit.
pub open spec fn is_synthetic_unit(e: CanonicalUnitEvent, flow_id: String, lane_id: String) -> bool {
    match e {
        CanonicalUnitEvent::Completed(s) => {
            &&& s.unit_generation == 1
            &&& s.lane_ordinal == 1
            &&& s.external_session_id is None
            &&& s.flow_id == flow_id
            &&& s.lane_id == lane_id
            &&& is_fresh_id(s.unit_id@)
            &&& is_fresh_id(s.interpretation_id@)
            &&& is_fresh_id(s.connection_id@)
            &&& s.unit matches CanonicalUnit::Text(t) && t.channel == TextChannel::PublicResponse
                && t.content@ == "ok."@
        },
        _ => false,
    }
}

/// Runs the synthetic exchange on a flow and a lane: nothing where it was
/// cancelled, else one complete unit.
pub fn run_direct_llm_exchange(cancelled: bool, flow_id: String, lane_id: String) -> (r:
    SyntheticOutcome)
    ensures
        cancelled ==> r.units@.len() == 0 && r.terminal == TransactionEndKind::Cancelled,
        !cancelled ==> r.units@.len() == 1 && is_synthetic_unit(r.units@[0], flow_id, lane_id)
            && r.terminal == TransactionEndKind::Completed,
{
    if cancelled {
        return SyntheticOutcome {
            units: Vec::new(),
            terminal: TransactionEndKind::Cancelled,
        };
    }
    let snapshot = CanonicalUnitSnapshot {
        interpretation_id: fresh_id_text(),
        connection_id: fresh_id_text(),
        external_session_id: None,
        unit_id: fresh_id_text(),
        flow_id,
        lane_id,
        lane_ordinal: 1,
        unit_generation: 1,
        unit: CanonicalUnit::Text(
            TextUnit { channel: TextChannel::PublicResponse, content: String::from_str("ok.") },
        ),
    };
    let mut units: Vec<CanonicalUnitEvent> = Vec::new();
    units.push(CanonicalUnitEvent::Completed(snapshot));
    SyntheticOutcome { units, terminal: TransactionEndKind::Completed }
}

} // verus!
