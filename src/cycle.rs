use vstd::prelude::*;
use crate::turns::{IntersectionID, TurnID, TurnPriority};

verus! {

/// Length of a freshly created cycle, in seconds.
pub const DEFAULT_CYCLE_SECONDS: u64 = 30;

/// The priorities that a list of entries grants: later entries override
/// earlier ones for the same turn, and a turn that ends up banned is absent.
pub open spec fn granted(s: Seq<(TurnID, TurnPriority)>) -> Map<TurnID, TurnPriority>
    decreases s.len(),
{
    if s.len() == 0 {
        Map::empty()
    } else {
        let m = granted(s.drop_last());
        let e = s.last();
        if e.1 == TurnPriority::Banned {
            m.remove(e.0)
        } else {
            m.insert(e.0, e.1)
        }
    }
}

/// The priority of a turn under a map of granted priorities.
pub open spec fn priority_under(m: Map<TurnID, TurnPriority>, t: TurnID) -> TurnPriority {
    if m.contains_key(t) {
        m[t]
    } else {
        TurnPriority::Banned
    }
}

/// A map of granted priorities after one turn is set.
pub open spec fn with_priority(m: Map<TurnID, TurnPriority>, t: TurnID, p: TurnPriority) -> Map<
    TurnID,
    TurnPriority,
> {
    if p == TurnPriority::Banned {
        m.remove(t)
    } else {
        m.insert(t, p)
    }
}

/// What a cycle means: whose it is, its place, its length in seconds, and the
/// turns that it does not ban.
pub ghost struct CycleView {
    pub parent: IntersectionID,
    pub idx: usize,
    pub duration: u64,
    pub granted: Map<TurnID, TurnPriority>,
}

/// One phase of a signal plan: a priority for each turn (a turn without an
/// entry is banned) and a duration in whole seconds.
#[derive(Clone, Debug)]
pub struct Cycle {
    pub parent: IntersectionID,
    pub idx: usize,
    pub turns: Vec<(TurnID, TurnPriority)>,
    pub duration: u64,
}

impl View for Cycle {
    type V = CycleView;

    open spec fn view(&self) -> CycleView {
        CycleView {
            parent: self.parent,
            idx: self.idx,
            duration: self.duration,
            granted: granted(self.turns@),
        }
    }
}

/// A cycle of the given intersection that bans every turn.
pub open spec fn empty_cycle(parent: IntersectionID, idx: usize) -> CycleView {
    CycleView { parent, idx, duration: DEFAULT_CYCLE_SECONDS, granted: Map::empty() }
}

impl Cycle {
    /// A new cycle that bans every turn and lasts the default length.
    pub fn new(parent: IntersectionID, idx: usize) -> (r: Cycle)
        ensures
            r@ == empty_cycle(parent, idx),
    {
        Cycle { parent, idx, turns: Vec::new(), duration: DEFAULT_CYCLE_SECONDS }
    }

    /// The priority of a turn in this cycle.
    pub fn get_priority(&self, t: TurnID) -> (r: TurnPriority)
        ensures
            r == priority_under(self@.granted, t),
    {
        let mut r = TurnPriority::Banned;
        let mut i: usize = 0;
        while i < self.turns.len()
            invariant
                i <= self.turns@.len(),
                r == priority_under(granted(self.turns@.take(i as int)), t),
            decreases self.turns@.len() - i,
        {
            assert(self.turns@.take(i + 1).drop_last() =~= self.turns@.take(i as int));
            if self.turns[i].0 == t {
                r = self.turns[i].1;
            }
            i += 1;
        }
        assert(self.turns@.take(i as int) =~= self.turns@);
        r
    }

    /// Sets the priority of one turn, leaving every other turn as it was.
    pub fn edit_turn(&mut self, t: TurnID, pri: TurnPriority)
        ensures
            final(self)@ == (CycleView {
                granted: with_priority(old(self)@.granted, t, pri),
                ..old(self)@
            }),
    {
        let mut kept: Vec<(TurnID, TurnPriority)> = Vec::new();
        let mut i: usize = 0;
        while i < self.turns.len()
            invariant
                i <= self.turns@.len(),
                granted(kept@) =~= granted(self.turns@.take(i as int)).remove(t),
            decreases self.turns@.len() - i,
        {
            let e = self.turns[i];
            assert(self.turns@.take(i + 1).drop_last() =~= self.turns@.take(i as int));
            if e.0 != t {
                let ghost before = kept@;
                kept.push(e);
                assert(kept@.drop_last() =~= before);
            }
            i += 1;
        }
        assert(self.turns@.take(i as int) =~= self.turns@);
        if pri != TurnPriority::Banned {
            let ghost before = kept@;
            kept.push((t, pri));
            assert(kept@.drop_last() =~= before);
        }
        assert(granted(kept@) =~= with_priority(old(self)@.granted, t, pri));
        self.turns = kept;
    }
}

} // verus!
