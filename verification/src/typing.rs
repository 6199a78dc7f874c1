//! The channels in which the gateway shows that it is typing.
use std::collections::HashMap;
use vstd::prelude::*;

verus! {

broadcast use vstd::std_specs::hash::group_hash_axioms;

/// For each channel in which typing is shown, what it takes to stop it.
#[derive(Debug)]
pub struct TypingIndicators<T> {
    active: HashMap<u64, T>,
}

impl<T> View for TypingIndicators<T> {
    type V = Map<u64, T>;

    closed spec fn view(&self) -> Map<u64, T> {
        self.active@
    }
}

impl<T> TypingIndicators<T> {
    /// No channel shows typing.
    pub fn new() -> (r: Self)
        ensures
            r@ == Map::<u64, T>::empty(),
    {
        TypingIndicators { active: HashMap::new() }
    }

    /// Shows typing in a channel: calls `start` where none is shown there yet, and
    /// only there.
    pub fn start_typing<F: FnOnce() -> T>(&mut self, channel_id: u64, start: F)
        requires
            !old(self)@.contains_key(channel_id) ==> start.requires(()),
        ensures
            old(self)@.contains_key(channel_id) ==> final(self)@ == old(self)@,
            !old(self)@.contains_key(channel_id) ==> exists|indicator: T| #[trigger]
                start.ensures((), indicator) && final(self)@ == old(self)@.insert(
                    channel_id,
                    indicator,
                ),
    {
        if !self.active.contains_key(&channel_id) {
            let indicator = start();
            self.active.insert(channel_id, indicator);
        }
    }

    /// Takes out what it takes to stop showing typing in a channel.
    pub fn stop_typing(&mut self, channel_id: u64) -> (indicator: Option<T>)
        ensures
            final(self)@ == old(self)@.remove(channel_id),
            indicator == (if old(self)@.contains_key(channel_id) {
                Some(old(self)@[channel_id])
            } else {
                None
            }),
    {
        self.active.remove(&channel_id)
    }
}

/// Starting in a channel and then stopping there leaves typing shown in the other
/// channels as before and in this one not at all. What stopping hands out is what
/// was there before, or else what starting put there.
pub proof fn law_stop_undoes_start<T>(
    before: Map<u64, T>,
    started: Map<u64, T>,
    channel_id: u64,
    indicator: T,
)
    requires
        started == (if before.contains_key(channel_id) {
            before
        } else {
            before.insert(channel_id, indicator)
        }),
    ensures
        started.contains_key(channel_id),
        started[channel_id] == (if before.contains_key(channel_id) {
            before[channel_id]
        } else {
            indicator
        }),
        started.remove(channel_id) == before.remove(channel_id),
        !before.contains_key(channel_id) ==> started.remove(channel_id) == before,
{
    assert(started.remove(channel_id) =~= before.remove(channel_id));
    if !before.contains_key(channel_id) {
        assert(before.remove(channel_id) =~= before);
    }
}

} // verus!
