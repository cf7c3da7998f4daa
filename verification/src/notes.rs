//! A bounded per-account note counter.
//!
//! Each account may add at most a configured number of notes; past the quota
//! every further attempt fails and changes nothing. The count is created
//! implicitly at zero the first time an account is seen, only ever grows,
//! and each successful addition announces itself with a [`Event::NoteAdded`]
//! notification.

use vstd::prelude::*;
use std::collections::HashMap;
use crate::AccountId;

verus! {

/// Runtime-wide configuration of the note counter, fixed for the lifetime of
/// the instance.
#[derive(Clone, Copy, Debug, PartialEq, Eq, Structural)]
pub struct Config {
    /// Reserved bound on a note's length; the current logic does not read it.
    pub max_note_len: u32,
    /// How many notes one account may hold at most.
    pub max_notes_per_account: u32,
}

/// Notification emitted on every successful state change.
#[derive(Clone, Copy, Debug, PartialEq, Eq, Structural)]
pub enum Event {
    /// `who` added a note; their count now stands at `total`.
    NoteAdded { who: AccountId, total: u32 },
}

/// Rejected-call outcome of a note operation.
#[derive(Clone, Copy, Debug, PartialEq, Eq, Structural)]
pub enum Error {
    /// The account's quota is already saturated.
    TooManyNotes,
}

/// The note count `counts` holds for `who`; an unobserved account counts zero.
pub open spec fn count_in(counts: Map<AccountId, u32>, who: AccountId) -> u32 {
    if counts.contains_key(who) {
        counts[who]
    } else {
        0
    }
}

/// Whether one more note from `who` is within the quota `max`.
pub open spec fn add_note_permitted(counts: Map<AccountId, u32>, who: AccountId, max: u32) -> bool {
    count_in(counts, who) < max
}

/// The count map after one successful note addition by `who`.
pub open spec fn counts_after_add(counts: Map<AccountId, u32>, who: AccountId) -> Map<
    AccountId,
    u32,
> {
    counts.insert(who, (count_in(counts, who) + 1) as u32)
}

/// The count map after `k` successive successful note additions by `who`.
pub open spec fn counts_after_adds(counts: Map<AccountId, u32>, who: AccountId, k: nat) -> Map<
    AccountId,
    u32,
>
    decreases k,
{
    if k == 0 {
        counts
    } else {
        counts_after_add(counts_after_adds(counts, who, (k - 1) as nat), who)
    }
}

/// Starting from an account with no notes, every one of `k` successive note
/// additions within the quota is permitted, the count afterwards is exactly
/// `k`, and once the quota is reached the next addition is refused — which,
/// by [`Pallet::add_note`]'s contract, leaves the count unchanged.
pub proof fn lemma_quota(counts: Map<AccountId, u32>, who: AccountId, max: u32, k: nat)
    requires
        count_in(counts, who) == 0,
        k <= max,
    ensures
        count_in(counts_after_adds(counts, who, k), who) == k,
        forall|j: nat| j < k ==> add_note_permitted(counts_after_adds(counts, who, j), who, max),
        k == max ==> !add_note_permitted(counts_after_adds(counts, who, k), who, max),
    decreases k,
{
    if k > 0 {
        lemma_quota(counts, who, max, (k - 1) as nat);
        assert forall|j: nat| j < k implies add_note_permitted(
            counts_after_adds(counts, who, j),
            who,
            max,
        ) by {
            if j == k - 1 {
                assert(count_in(counts_after_adds(counts, who, j), who) == j);
            }
        }
    }
}

/// A note addition never lowers any account's count: the caller's count
/// grows by one and every other account's stays as it was.
pub proof fn lemma_add_never_decreases(counts: Map<AccountId, u32>, who: AccountId, a: AccountId)
    requires
        count_in(counts, who) < u32::MAX,
    ensures
        count_in(counts_after_add(counts, who), a) >= count_in(counts, a),
{
}

/// The note counter: per-account counts, the configuration they are bounded
/// by, and the stream of notifications emitted so far.
pub struct Pallet {
    config: Config,
    notes_count: HashMap<AccountId, u32>,
    events: Vec<Event>,
}

impl Pallet {
    /// The configuration this instance was built with.
    pub closed spec fn spec_config(&self) -> Config {
        self.config
    }

    /// The per-account count map.
    pub closed spec fn counts(&self) -> Map<AccountId, u32> {
        self.notes_count@
    }

    /// Every notification emitted so far, oldest first.
    pub closed spec fn spec_events(&self) -> Seq<Event> {
        self.events@
    }

    /// The note count of `who`.
    pub open spec fn note_count_of(&self, who: AccountId) -> u32 {
        count_in(self.counts(), who)
    }

    /// Invariant: no account is ever counted past the quota.
    pub open spec fn wf(&self) -> bool {
        forall|a: AccountId|
            #[trigger] count_in(self.counts(), a) <= self.spec_config().max_notes_per_account
    }

    /// A fresh counter: nobody has any notes, nothing has been announced.
    pub fn new(config: Config) -> (p: Pallet)
        ensures
            p.wf(),
            p.spec_config() == config,
            p.counts() == Map::<AccountId, u32>::empty(),
            p.spec_events() == Seq::<Event>::empty(),
    {
        Pallet { config, notes_count: HashMap::new(), events: Vec::new() }
    }

    /// The note count of `who`; zero for an account never seen.
    pub fn notes_count(&self, who: AccountId) -> (n: u32)
        ensures
            n == self.note_count_of(who),
    {
        match self.notes_count.get(&who) {
            Some(n) => *n,
            None => 0,
        }
    }

    /// The notifications emitted so far, oldest first.
    pub fn events(&self) -> (r: &Vec<Event>)
        ensures
            r@ == self.spec_events(),
    {
        &self.events
    }

    /// Add one note for `who`.
    ///
    /// Fails with [`Error::TooManyNotes`] and changes nothing once the quota
    /// is reached; otherwise advances the count by exactly one and emits
    /// [`Event::NoteAdded`] carrying the new total. No count ever decreases.
    pub fn add_note(&mut self, who: AccountId) -> (r: Result<(), Error>)
        requires
            old(self).wf(),
        ensures
            final(self).wf(),
            final(self).spec_config() == old(self).spec_config(),
            r is Ok <==> add_note_permitted(
                old(self).counts(),
                who,
                old(self).spec_config().max_notes_per_account,
            ),
            r is Ok ==> {
                &&& final(self).counts() == counts_after_add(old(self).counts(), who)
                &&& final(self).note_count_of(who) == old(self).note_count_of(who) + 1
                &&& final(self).spec_events() == old(self).spec_events().push(
                    Event::NoteAdded { who, total: (old(self).note_count_of(who) + 1) as u32 },
                )
            },
            r is Err ==> r == Err::<(), Error>(Error::TooManyNotes) && *final(self) == *old(self),
            forall|a: AccountId|
                #[trigger] count_in(final(self).counts(), a) >= count_in(old(self).counts(), a),
    {
        let n = self.notes_count(who);
        if n >= self.config.max_notes_per_account {
            return Err(Error::TooManyNotes);
        }
        let total = n + 1;
        self.notes_count.insert(who, total);
        self.events.push(Event::NoteAdded { who, total });
        proof {
            assert forall|a: AccountId|
                #[trigger] count_in(self.counts(), a)
                    <= self.spec_config().max_notes_per_account by {
                if a != who {
                    assert(count_in(self.counts(), a) == count_in(old(self).counts(), a));
                }
            }
        }
        Ok(())
    }
}

} // verus!
