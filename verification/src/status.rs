//! The status ledger: the effects that weigh on a player, and the rule by
//! which a missed go eats a turn.

use vstd::prelude::*;
use crate::cards::AdviceType;

verus! {

/// An effect on a player.
#[derive(Debug, Clone, Copy, PartialEq, Eq, Structural)]
pub enum StatusType {
    /// The player misses this many of their next goes.
    MissGo(u8),
    /// Reserved: no rule reads it yet.
    NoCountries(u8),
    /// Reserved: no rule reads it yet.
    BadAdvice(AdviceType),
    /// Reserved: no rule reads it yet.
    VisaProblem,
}

/// The test that an entry differs from `status`.
pub open spec fn differs_from(status: StatusType) -> spec_fn(StatusType) -> bool {
    |entry: StatusType| entry != status
}

/// The entries of `ledger` that differ from `status`, in order.
pub open spec fn without(ledger: Seq<StatusType>, status: StatusType) -> Seq<StatusType> {
    ledger.filter(differs_from(status))
}

/// The ledger without its spent entries, those that stand at `MissGo(0)`.
pub open spec fn swept(ledger: Seq<StatusType>) -> Seq<StatusType> {
    without(ledger, StatusType::MissGo(0))
}

/// Whether some entry makes the player miss a go.
pub open spec fn has_miss(ledger: Seq<StatusType>) -> bool {
    exists|i: int| 0 <= i < ledger.len() && ledger[i] is MissGo
}

/// Whether `i` is the place of the oldest `MissGo` entry.
pub open spec fn is_first_miss(ledger: Seq<StatusType>, i: int) -> bool {
    &&& 0 <= i < ledger.len()
    &&& ledger[i] is MissGo
    &&& forall|j: int| 0 <= j < i ==> !(ledger[j] is MissGo)
}

/// The place of the oldest `MissGo` entry, where there is one.
pub open spec fn first_miss(ledger: Seq<StatusType>) -> int {
    choose|i: int| is_first_miss(ledger, i)
}

/// The goes still to be missed on the oldest `MissGo` entry, if there is one.
pub open spec fn pending_miss(ledger: Seq<StatusType>) -> Option<u8> {
    if has_miss(ledger) {
        Some(ledger[first_miss(ledger)]->MissGo_0)
    } else {
        None
    }
}

/// The ledger once a turn has been asked of it: the oldest `MissGo` entry
/// counts one go less and spent entries are dropped; a ledger without a
/// `MissGo` entry stays as it is.
pub open spec fn after_turn(ledger: Seq<StatusType>) -> Seq<StatusType> {
    if has_miss(ledger) {
        let i = first_miss(ledger);
        swept(ledger.update(i, StatusType::MissGo((ledger[i]->MissGo_0 - 1) as u8)))
    } else {
        ledger
    }
}

/// The oldest `MissGo` entry is at one place only.
pub proof fn lemma_first_miss_unique(ledger: Seq<StatusType>, i: int)
    requires
        is_first_miss(ledger, i),
    ensures
        has_miss(ledger),
        first_miss(ledger) == i,
{
    let k = first_miss(ledger);
    assert(is_first_miss(ledger, k));
    if k < i {
        assert(!(ledger[k] is MissGo));
    }
    if i < k {
        assert(!(ledger[i] is MissGo));
    }
}

/// The effects on one player, oldest first.
#[derive(Debug)]
pub struct StatusHandler {
    types: Vec<StatusType>,
}

impl View for StatusHandler {
    type V = Seq<StatusType>;

    closed spec fn view(&self) -> Seq<StatusType> {
        self.types@
    }
}

impl StatusHandler {
    /// A ledger without entries.
    pub fn empty() -> (ledger: StatusHandler)
        ensures
            ledger@ == Seq::<StatusType>::empty(),
    {
        StatusHandler { types: Vec::new() }
    }

    /// Appends an entry. Entries are neither merged nor deduplicated.
    pub fn add_status(&mut self, status: StatusType)
        ensures
            final(self)@ == old(self)@.push(status),
    {
        self.types.push(status);
    }

    /// Removes every entry equal to `status`.
    pub fn remove_status(&mut self, status: StatusType)
        ensures
            final(self)@ == without(old(self)@, status),
    {
        let ghost before = self.types@;
        let mut kept: Vec<StatusType> = Vec::new();
        let n = self.types.len();
        let mut i: usize = 0;
        proof {
            reveal_with_fuel(Seq::filter, 1);
            assert(before.take(0) =~= Seq::<StatusType>::empty());
        }
        while i < n
            invariant
                i <= n,
                n == before.len(),
                self.types@ == before,
                kept@ == without(before.take(i as int), status),
            decreases n - i,
        {
            let entry = self.types[i];
            proof {
                before.lemma_take_succ_push(i as int);
                before.take(i as int).lemma_filter_push(entry, differs_from(status));
            }
            if entry != status {
                kept.push(entry);
            }
            i += 1;
        }
        proof {
            before.lemma_take_len();
        }
        self.types = kept;
    }

    /// The goes still to be missed on the oldest `MissGo` entry, if any.
    pub fn missed_goes(&self) -> (pending: Option<u8>)
        ensures
            pending == pending_miss(self@),
    {
        let n = self.types.len();
        let mut i: usize = 0;
        while i < n
            invariant
                i <= n,
                n == self.types@.len(),
                forall|j: int| 0 <= j < i ==> !(self.types@[j] is MissGo),
            decreases n - i,
        {
            if let StatusType::MissGo(gos) = self.types[i] {
                proof {
                    lemma_first_miss_unique(self.types@, i as int);
                }
                return Some(gos);
            }
            i += 1;
        }
        None
    }

    /// Asks the ledger for a turn. Where an entry makes the player miss a
    /// go, the oldest such entry counts one go less, spent entries are
    /// dropped, and the turn is lost: the answer is `true`. Otherwise the
    /// ledger is untouched and the answer is `false`.
    pub fn no_turn(&mut self) -> (skipped: bool)
        requires
            pending_miss(old(self)@) != Some(0u8),
        ensures
            skipped == has_miss(old(self)@),
            final(self)@ == after_turn(old(self)@),
    {
        let n = self.types.len();
        let mut i: usize = 0;
        while i < n
            invariant
                i <= n,
                n == self.types@.len(),
                self.types@ == old(self).types@,
                pending_miss(old(self)@) != Some(0u8),
                forall|j: int| 0 <= j < i ==> !(self.types@[j] is MissGo),
            decreases n - i,
        {
            let entry = self.types[i];
            if let StatusType::MissGo(gos) = entry {
                proof {
                    lemma_first_miss_unique(self.types@, i as int);
                }
                self.types.set(i, StatusType::MissGo(gos - 1));
                self.cleanup();
                return true;
            }
            i += 1;
        }
        false
    }

    /// Drops the spent entries.
    pub fn cleanup(&mut self)
        ensures
            final(self)@ == swept(old(self)@),
    {
        self.remove_status(StatusType::MissGo(0));
    }

    /// The entries, oldest first.
    pub fn types(&self) -> (entries: &Vec<StatusType>)
        ensures
            entries@ == self@,
    {
        &self.types
    }
}

} // verus!
