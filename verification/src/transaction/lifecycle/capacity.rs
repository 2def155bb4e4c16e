//! Reservations for admitted transactions: one place in the runtime, one on
//! the channel and one in the ledger, taken together or not at all.

use crate::assoc::AssocMap;
use crate::transaction::types::ChannelId;
use vstd::prelude::*;

verus! {

/// Places on one channel.
#[derive(Clone, Copy, Debug, PartialEq, Eq, Structural)]
pub struct ChannelSlot {
    /// Places in all.
    pub max: usize,
    /// Places taken.
    pub active: usize,
}

/// Invalid reservation-pool construction.
#[derive(Clone, Copy, Debug, PartialEq, Eq, Structural)]
pub enum ReservationPoolError {
    /// Global capacity was zero.
    ZeroGlobal,
    /// A per-channel capacity was zero.
    ZeroChannel,
}

/// Abstract state of a pool.
pub struct PoolModel {
    /// Places in the runtime, and as many in the ledger.
    pub max_global: usize,
    /// Places taken in the runtime.
    pub global_active: usize,
    /// Places taken in the ledger.
    pub ledger_active: usize,
    /// Channels.
    pub channels: Map<Seq<char>, ChannelSlot>,
}

/// The bounds that a pool never leaves. Places in the runtime and in the ledger
/// are taken and given back together.
pub open spec fn within_bounds(m: PoolModel) -> bool {
    &&& m.max_global > 0
    &&& m.global_active <= m.max_global
    &&& m.ledger_active == m.global_active
    &&& forall|c: Seq<char>| #[trigger]
        m.channels.dom().contains(c) ==> m.channels[c].active <= m.channels[c].max
            && m.channels[c].max > 0
}

/// Whether one more reservation fits.
pub open spec fn has_place(m: PoolModel, channel: Seq<char>) -> bool {
    &&& m.channels.dom().contains(channel)
    &&& m.global_active < m.max_global
    &&& m.channels[channel].active < m.channels[channel].max
    &&& m.ledger_active < m.max_global
}

/// The pool with one more reservation.
pub open spec fn reserved(m: PoolModel, channel: Seq<char>) -> PoolModel {
    let slot = m.channels[channel];
    PoolModel {
        global_active: (m.global_active + 1) as usize,
        ledger_active: (m.ledger_active + 1) as usize,
        channels: m.channels.insert(
            channel,
            ChannelSlot { active: (slot.active + 1) as usize, ..slot },
        ),
        ..m
    }
}

/// Whether a reservation on a channel can be given back.
pub open spec fn holds(m: PoolModel, channel: Seq<char>) -> bool {
    &&& m.global_active > 0
    &&& m.ledger_active > 0
    &&& m.channels.dom().contains(channel)
    &&& m.channels[channel].active > 0
}

/// The pool with one reservation fewer.
pub open spec fn released(m: PoolModel, channel: Seq<char>) -> PoolModel {
    let slot = m.channels[channel];
    PoolModel {
        global_active: (m.global_active - 1) as usize,
        ledger_active: (m.ledger_active - 1) as usize,
        channels: m.channels.insert(
            channel,
            ChannelSlot { active: (slot.active - 1) as usize, ..slot },
        ),
        ..m
    }
}

/// Whether any listed capacity is zero.
pub open spec fn some_zero(channels: Seq<(ChannelId, usize)>) -> bool {
    exists|i: int| 0 <= i < channels.len() && (#[trigger] channels[i]).1 == 0
}

/// The places that a list describes; a later mention of a channel wins.
pub open spec fn listed_slots(channels: Seq<(ChannelId, usize)>) -> Map<Seq<char>, ChannelSlot>
    decreases channels.len(),
{
    if channels.len() == 0 {
        Map::empty()
    } else {
        listed_slots(channels.drop_last()).insert(
            channels.last().0@,
            ChannelSlot { max: channels.last().1, active: 0 },
        )
    }
}

/// The places held for one admitted transaction.
pub struct TransactionReservations {
    channel_id: ChannelId,
}

impl TransactionReservations {
    /// Channel this reservation was taken for.
    pub closed spec fn channel(&self) -> Seq<char> {
        self.channel_id@
    }

    /// Channel this reservation was taken for.
    pub fn channel_id(&self) -> (r: &ChannelId)
        ensures
            r@ == self.channel(),
    {
        &self.channel_id
    }

    /// Gives the places back.
    pub fn release(self, pool: &mut ReservationPool)
        requires
            old(pool).wf(),
            holds(old(pool)@, self.channel()),
        ensures
            final(pool).wf(),
            final(pool)@ == released(old(pool)@, self.channel()),
    {
        pool.release_channel(&self.channel_id)
    }
}

/// Runtime-wide reservation pool.
pub struct ReservationPool {
    max_global: usize,
    global_active: usize,
    ledger_active: usize,
    per_channel: AssocMap<ChannelId, ChannelSlot>,
}

impl View for ReservationPool {
    type V = PoolModel;

    closed spec fn view(&self) -> PoolModel {
        PoolModel {
            max_global: self.max_global,
            global_active: self.global_active,
            ledger_active: self.ledger_active,
            channels: self.per_channel@,
        }
    }
}

impl ReservationPool {
    /// Internal consistency: every count is within its bound.
    pub closed spec fn wf(&self) -> bool {
        &&& self.per_channel.wf()
        &&& within_bounds(self@)
    }

    /// The counts of a pool are within their bounds.
    pub proof fn bounded(&self)
        requires
            self.wf(),
        ensures
            within_bounds(self@),
    {
    }

    /// Build from global and per-channel maxima. Ledger capacity equals global.
    /// Any zero is refused.
    pub fn try_new(max_global: usize, channels: &Vec<(ChannelId, usize)>) -> (r: Result<
        Self,
        ReservationPoolError,
    >)
        ensures
            match r {
                Err(ReservationPoolError::ZeroGlobal) => max_global == 0,
                Err(ReservationPoolError::ZeroChannel) => max_global > 0 && some_zero(channels@),
                Ok(pool) => max_global > 0 && !some_zero(channels@) && pool.wf() && pool@ == (
                PoolModel {
                    max_global,
                    global_active: 0,
                    ledger_active: 0,
                    channels: listed_slots(channels@),
                }),
            },
    {
        if max_global == 0 {
            return Err(ReservationPoolError::ZeroGlobal);
        }
        let mut per_channel: AssocMap<ChannelId, ChannelSlot> = AssocMap::new();
        let mut i: usize = 0;
        while i < channels.len()
            invariant
                i <= channels.len(),
                max_global > 0,
                per_channel.wf(),
                per_channel@ == listed_slots(channels@.take(i as int)),
                forall|j: int| 0 <= j < i ==> (#[trigger] channels@[j]).1 != 0,
                forall|c: Seq<char>| #[trigger]
                    per_channel@.dom().contains(c) ==> per_channel@[c].active == 0
                        && per_channel@[c].max > 0,
            decreases channels.len() - i,
        {
            if channels[i].1 == 0 {
                assert(channels@[i as int].1 == 0);
                return Err(ReservationPoolError::ZeroChannel);
            }
            per_channel.insert(
                channels[i].0.clone(),
                ChannelSlot { max: channels[i].1, active: 0 },
            );
            proof {
                let t = channels@.take(i as int + 1);
                assert(t.drop_last() =~= channels@.take(i as int));
            }
            i = i + 1;
        }
        proof {
            assert(channels@.take(i as int) =~= channels@);
        }
        Ok(ReservationPool { max_global, global_active: 0, ledger_active: 0, per_channel })
    }

    /// Global active reservations.
    pub fn global_active(&self) -> (r: usize)
        ensures
            r == self@.global_active,
    {
        self.global_active
    }

    /// Ledger entries reserved.
    pub fn ledger_active(&self) -> (r: usize)
        ensures
            r == self@.ledger_active,
    {
        self.ledger_active
    }

    /// Active reservations for one channel; an unknown one has none.
    pub fn channel_active(&self, id: &ChannelId) -> (r: usize)
        requires
            self.wf(),
        ensures
            r == (if self@.channels.dom().contains(id@) {
                self@.channels[id@].active
            } else {
                0
            }),
    {
        match self.per_channel.get(id) {
            Some(slot) => slot.active,
            None => 0,
        }
    }

    /// Configured global maximum.
    pub fn max_global(&self) -> (r: usize)
        ensures
            r == self@.max_global,
    {
        self.max_global
    }

    /// Try to acquire the full reservation bundle without waiting. Where any
    /// part is missing, nothing is taken.
    pub fn try_reserve(&mut self, channel: &ChannelId) -> (r: Option<TransactionReservations>)
        requires
            old(self).wf(),
        ensures
            final(self).wf(),
            match r {
                Some(held) => has_place(old(self)@, channel@) && held.channel() == channel@
                    && final(self)@ == reserved(old(self)@, channel@),
                None => !has_place(old(self)@, channel@) && final(self)@ == old(self)@,
            },
    {
        let slot: ChannelSlot = match self.per_channel.get(channel) {
            Some(slot) => *slot,
            None => {
                return None;
            },
        };
        if self.global_active >= self.max_global || slot.active >= slot.max || self.ledger_active
            >= self.max_global {
            return None;
        }
        self.global_active = self.global_active + 1;
        self.ledger_active = self.ledger_active + 1;
        let active: usize = slot.active + 1;
        self.per_channel.insert(channel.clone(), ChannelSlot { max: slot.max, active });
        assert forall|c: Seq<char>| #[trigger] self@.channels.dom().contains(c) implies
            self@.channels[c].active <= self@.channels[c].max && self@.channels[c].max > 0 by {
            assert(c == channel@ || old(self)@.channels.dom().contains(c));
        }
        Some(TransactionReservations { channel_id: channel.clone() })
    }

    fn release_channel(&mut self, channel: &ChannelId)
        requires
            old(self).wf(),
            holds(old(self)@, channel@),
        ensures
            final(self).wf(),
            final(self)@ == released(old(self)@, channel@),
    {
        self.global_active = self.global_active - 1;
        self.ledger_active = self.ledger_active - 1;
        match self.per_channel.get_mut(channel) {
            Some(slot) => {
                slot.active = slot.active - 1;
            },
            None => {},
        }
    }
}

/// Giving back a reservation that was just taken restores the pool.
pub proof fn release_undoes_reserve(m: PoolModel, channel: Seq<char>)
    requires
        has_place(m, channel),
    ensures
        holds(reserved(m, channel), channel),
        released(reserved(m, channel), channel) == m,
{
    assert(released(reserved(m, channel), channel).channels =~= m.channels);
}

/// A pool filled to its global bound has no place on any channel.
pub proof fn full_pool_has_no_place(m: PoolModel, channel: Seq<char>)
    requires
        m.global_active == m.max_global,
    ensures
        !has_place(m, channel),
{
}

} // verus!
