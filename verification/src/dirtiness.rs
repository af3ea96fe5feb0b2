//! The tri-state flag that says how much work the next draw owes.

use vstd::prelude::*;

verus! {

/// How far the staged bytes and the last draw lag behind the live
/// instances.
#[derive(Clone, Copy, Debug, PartialEq, Eq, Structural)]
pub enum Dirtiness {
    /// Nothing changed since the last draw.
    Clean,
    /// Instances were appended; the staged bytes are still good.
    RedrawRequired,
    /// An instance was handed out for writing or removed; the staged bytes
    /// must be regenerated.
    RebuildRequired,
}

/// What a caller can do to the store between two draws.
pub enum Change {
    Insert,
    Mutate,
    Remove,
}

impl Dirtiness {
    /// Rank of the state: more work ranks higher.
    pub open spec fn level(self) -> nat {
        match self {
            Dirtiness::Clean => 0,
            Dirtiness::RedrawRequired => 1,
            Dirtiness::RebuildRequired => 2,
        }
    }

    /// The state after an insertion: at least `RedrawRequired`.
    pub open spec fn after_insert(self) -> Dirtiness {
        match self {
            Dirtiness::RebuildRequired => Dirtiness::RebuildRequired,
            _ => Dirtiness::RedrawRequired,
        }
    }

    /// The state after one change.
    pub open spec fn after(self, change: Change) -> Dirtiness {
        match change {
            Change::Insert => self.after_insert(),
            Change::Mutate => Dirtiness::RebuildRequired,
            Change::Remove => Dirtiness::RebuildRequired,
        }
    }

    /// The state after a run of changes, first to last.
    pub open spec fn after_all(self, changes: Seq<Change>) -> Dirtiness
        decreases changes.len(),
    {
        if changes.len() == 0 {
            self
        } else {
            self.after_all(changes.drop_last()).after(changes.last())
        }
    }

    /// Whether a draw is owed.
    pub fn is_dirty(self) -> (dirty: bool)
        ensures
            dirty == (self != Dirtiness::Clean),
    {
        match self {
            Dirtiness::Clean => false,
            _ => true,
        }
    }

    /// One change never lowers the state.
    pub proof fn lemma_change_escalates(self, change: Change)
        ensures
            self.after(change).level() >= self.level(),
    {
    }

    /// Between two draws the state only escalates: after any run of
    /// changes it ranks at least as high as after any shorter beginning of
    /// that run.
    pub proof fn lemma_only_escalates(self, changes: Seq<Change>, shorter: int)
        requires
            0 <= shorter <= changes.len(),
        ensures
            self.after_all(changes.take(shorter)).level() <= self.after_all(changes).level(),
        decreases changes.len(),
    {
        if shorter == changes.len() {
            assert(changes.take(shorter) =~= changes);
        } else {
            let front = changes.drop_last();
            assert(front.take(shorter) =~= changes.take(shorter));
            self.lemma_only_escalates(front, shorter);
            self.after_all(front).lemma_change_escalates(changes.last());
        }
    }
}

} // verus!
