//! Places for transactions, in all and on each channel.

use crate::assoc::AssocMap;
use crate::transaction::lifecycle::capacity::{listed_slots, ChannelSlot};
use crate::transaction::types::ChannelId;
use vstd::prelude::*;

verus! {

/// Abstract state of the managers.
pub struct CapacityModel {
    /// Places in all.
    pub max_global: usize,
    /// Places taken in all.
    pub global_active: usize,
    /// Channels.
    pub channels: Map<Seq<char>, ChannelSlot>,
}

/// The bounds that are never left.
pub open spec fn within_bounds(m: CapacityModel) -> bool {
    &&& m.global_active <= m.max_global
    &&& forall|c: Seq<char>| #[trigger]
        m.channels.dom().contains(c) ==> m.channels[c].active <= m.channels[c].max
}

/// Whether one more transaction fits.
pub open spec fn has_place(m: CapacityModel, channel: Seq<char>) -> bool {
    &&& m.channels.dom().contains(channel)
    &&& m.global_active < m.max_global
    &&& m.channels[channel].active < m.channels[channel].max
}

/// One more place is taken.
pub open spec fn taken(m: CapacityModel, channel: Seq<char>) -> CapacityModel {
    let slot = m.channels[channel];
    CapacityModel {
        global_active: (m.global_active + 1) as usize,
        channels: m.channels.insert(
            channel,
            ChannelSlot { active: (slot.active + 1) as usize, ..slot },
        ),
        ..m
    }
}

/// One place is given back; an unknown channel counts in all only.
pub open spec fn given_back(m: CapacityModel, channel: Seq<char>) -> CapacityModel {
    CapacityModel {
        global_active: (m.global_active - 1) as usize,
        channels: if m.channels.dom().contains(channel) {
            let slot = m.channels[channel];
            m.channels.insert(
                channel,
                ChannelSlot { active: (slot.active - 1) as usize, ..slot },
            )
        } else {
            m.channels
        },
        ..m
    }
}

/// Places for transactions.
pub struct CapacityManagers {
    max_global: usize,
    global_active: usize,
    per_channel: AssocMap<ChannelId, ChannelSlot>,
}

impl View for CapacityManagers {
    type V = CapacityModel;

    closed spec fn view(&self) -> CapacityModel {
        CapacityModel {
            max_global: self.max_global,
            global_active: self.global_active,
            channels: self.per_channel@,
        }
    }
}

impl CapacityManagers {
    /// Internal consistency: every count is within its bound.
    pub closed spec fn wf(&self) -> bool {
        &&& self.per_channel.wf()
        &&& within_bounds(self@)
    }

    /// The counts are within their bounds.
    pub proof fn bounded(&self)
        requires
            self.wf(),
        ensures
            within_bounds(self@),
    {
    }

    /// Build managers from runtime and channel limits.
    pub fn new(max_global: usize, channels: &Vec<(ChannelId, usize)>) -> (r: Self)
        ensures
            r.wf(),
            r@ == (CapacityModel {
                max_global,
                global_active: 0,
                channels: listed_slots(channels@),
            }),
    {
        let mut per_channel: AssocMap<ChannelId, ChannelSlot> = AssocMap::new();
        let mut i: usize = 0;
        while i < channels.len()
            invariant
                i <= channels.len(),
                per_channel.wf(),
                per_channel@ == listed_slots(channels@.take(i as int)),
                forall|c: Seq<char>| #[trigger]
                    per_channel@.dom().contains(c) ==> per_channel@[c].active == 0,
            decreases channels.len() - i,
        {
            let ghost before = per_channel@;
            per_channel.insert(
                channels[i].0.clone(),
                ChannelSlot { max: channels[i].1, active: 0 },
            );
            proof {
                let t = channels@.take(i as int + 1);
                assert(t.drop_last() =~= channels@.take(i as int));
                assert forall|c: Seq<char>| #[trigger] per_channel@.dom().contains(c) implies
                    per_channel@[c].active == 0 by {
                    assert(c == channels@[i as int].0@ || before.dom().contains(c));
                }
            }
            i = i + 1;
        }
        proof {
            assert(channels@.take(i as int) =~= channels@);
        }
        CapacityManagers { max_global, global_active: 0, per_channel }
    }

    /// Global active count.
    pub fn global_active(&self) -> (r: usize)
        ensures
            r == self@.global_active,
    {
        self.global_active
    }

    /// Per-channel active count.
    pub fn channel_active(&self, id: &ChannelId) -> (r: Option<usize>)
        requires
            self.wf(),
        ensures
            r == (if self@.channels.dom().contains(id@) {
                Some(self@.channels[id@].active)
            } else {
                None
            }),
    {
        match self.per_channel.get(id) {
            Some(slot) => Some(slot.active),
            None => None,
        }
    }

    /// Configured global max.
    pub fn max_global(&self) -> (r: usize)
        ensures
            r == self@.max_global,
    {
        self.max_global
    }

    /// Try reserve one global + channel slot; both or none.
    pub fn try_reserve(&mut self, channel: &ChannelId) -> (r: bool)
        requires
            old(self).wf(),
        ensures
            final(self).wf(),
            r == has_place(old(self)@, channel@),
            r ==> final(self)@ == taken(old(self)@, channel@),
            !r ==> final(self)@ == old(self)@,
    {
        let slot: ChannelSlot = match self.per_channel.get(channel) {
            Some(slot) => *slot,
            None => {
                return false;
            },
        };
        if self.global_active >= self.max_global || slot.active >= slot.max {
            return false;
        }
        self.global_active = self.global_active + 1;
        let active: usize = slot.active + 1;
        self.per_channel.insert(channel.clone(), ChannelSlot { max: slot.max, active });
        assert forall|c: Seq<char>| #[trigger] self@.channels.dom().contains(c) implies
            self@.channels[c].active <= self@.channels[c].max by {
            assert(c == channel@ || old(self)@.channels.dom().contains(c));
        }
        true
    }

    /// Release a prior reservation.
    pub fn release(&mut self, channel: &ChannelId)
        requires
            old(self).wf(),
            old(self)@.global_active > 0,
            old(self)@.channels.dom().contains(channel@) ==> old(self)@.channels[channel@].active
                > 0,
        ensures
            final(self).wf(),
            final(self)@ == given_back(old(self)@, channel@),
    {
        match self.per_channel.get_mut(channel) {
            Some(slot) => {
                slot.active = slot.active - 1;
            },
            None => {},
        }
        self.global_active = self.global_active - 1;
        assert forall|c: Seq<char>| #[trigger] self@.channels.dom().contains(c) implies
            self@.channels[c].active <= self@.channels[c].max by {
            assert(old(self)@.channels.dom().contains(c));
        }
    }
}

/// Giving back a place that was just taken restores the counts.
pub proof fn give_back_undoes_take(m: CapacityModel, channel: Seq<char>)
    requires
        has_place(m, channel),
    ensures
        given_back(taken(m, channel), channel) == m,
{
    assert(given_back(taken(m, channel), channel).channels =~= m.channels);
}

} // verus!
