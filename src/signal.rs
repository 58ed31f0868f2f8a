use vstd::prelude::*;
use crate::cycle::{priority_under, with_priority, Cycle, CycleView, DEFAULT_CYCLE_SECONDS};
use crate::turns::{IntersectionID, Turn, TurnID, TurnPriority, TurnType};

verus! {

/// What a signal plan means: its intersection and its cycles in order.
pub ghost struct SignalView {
    pub id: IntersectionID,
    pub cycles: Seq<CycleView>,
}

/// The signal plan of one intersection: its cycles, in the order they run.
#[derive(Clone, Debug)]
pub struct ControlTrafficSignal {
    pub id: IntersectionID,
    pub cycles: Vec<Cycle>,
}

pub open spec fn cycle_views(s: Seq<Cycle>) -> Seq<CycleView> {
    s.map_values(|c: Cycle| c@)
}

impl View for ControlTrafficSignal {
    type V = SignalView;

    open spec fn view(&self) -> SignalView {
        SignalView { id: self.id, cycles: cycle_views(self.cycles@) }
    }
}

impl ControlTrafficSignal {
    /// A plan always keeps at least one cycle.
    pub open spec fn well_formed(&self) -> bool {
        self.cycles@.len() >= 1
    }

    /// Exchanges the cycle at `i` with the one after it.
    pub fn swap_with_next(&mut self, i: usize)
        requires
            i + 1 < old(self).cycles@.len(),
        ensures
            final(self).cycles@.len() == old(self).cycles@.len(),
            final(self)@ == (SignalView {
                cycles: old(self)@.cycles.update(i as int, old(self)@.cycles[i + 1]).update(
                    i + 1,
                    old(self)@.cycles[i as int],
                ),
                ..old(self)@
            }),
    {
        let n = self.cycles.len();
        assert(i + 1 < n);
        let c = self.cycles.remove(i + 1);
        self.cycles.insert(i, c);
        assert(self@.cycles =~= old(self)@.cycles.update(i as int, old(self)@.cycles[i + 1]).update(
            i + 1,
            old(self)@.cycles[i as int],
        ));
    }

    /// Takes out the cycle at `i`.
    pub fn remove_cycle(&mut self, i: usize)
        requires
            i < old(self).cycles@.len(),
        ensures
            final(self).cycles@.len() == old(self).cycles@.len() - 1,
            final(self)@ == (SignalView { cycles: old(self)@.cycles.remove(i as int), ..old(self)@ }),
    {
        let _ = self.cycles.remove(i);
        assert(self@.cycles =~= old(self)@.cycles.remove(i as int));
    }

    /// Sets the duration of the cycle at `i`, in seconds.
    pub fn set_cycle_duration(&mut self, i: usize, seconds: u64)
        requires
            i < old(self).cycles@.len(),
        ensures
            final(self).cycles@.len() == old(self).cycles@.len(),
            final(self)@ == (SignalView {
                cycles: old(self)@.cycles.update(
                    i as int,
                    CycleView { duration: seconds, ..old(self)@.cycles[i as int] },
                ),
                ..old(self)@
            }),
    {
        let mut c = self.cycles.remove(i);
        c.duration = seconds;
        self.cycles.insert(i, c);
        assert(self@.cycles =~= old(self)@.cycles.update(
            i as int,
            CycleView { duration: seconds, ..old(self)@.cycles[i as int] },
        ));
    }

    /// Sets the priority of one turn in the cycle at `i`.
    pub fn edit_turn_in_cycle(&mut self, i: usize, t: TurnID, pri: TurnPriority)
        requires
            i < old(self).cycles@.len(),
        ensures
            final(self).cycles@.len() == old(self).cycles@.len(),
            final(self)@ == (SignalView {
                cycles: old(self)@.cycles.update(
                    i as int,
                    CycleView {
                        granted: with_priority(old(self)@.cycles[i as int].granted, t, pri),
                        ..old(self)@.cycles[i as int]
                    },
                ),
                ..old(self)@
            }),
    {
        let mut c = self.cycles.remove(i);
        c.edit_turn(t, pri);
        self.cycles.insert(i, c);
        assert(self@.cycles =~= old(self)@.cycles.update(
            i as int,
            CycleView {
                granted: with_priority(old(self)@.cycles[i as int].granted, t, pri),
                ..old(self)@.cycles[i as int]
            },
        ));
    }

    /// Puts a cycle in at `i`, shifting the later ones back.
    pub fn insert_cycle(&mut self, i: usize, c: Cycle)
        requires
            i <= old(self).cycles@.len(),
        ensures
            final(self).cycles@.len() == old(self).cycles@.len() + 1,
            final(self)@ == (SignalView { cycles: old(self)@.cycles.insert(i as int, c@), ..old(self)@ }),
    {
        self.cycles.insert(i, c);
        assert(self@.cycles =~= old(self)@.cycles.insert(i as int, c@));
    }
}

/// Whether a pedestrian scramble gives a turn priority: every sidewalk corner,
/// and of each crossing the one direction that runs from the lower lane id.
pub open spec fn in_scramble(t: Turn) -> bool {
    t.turn_type == TurnType::SharedSidewalkCorner || (t.turn_type == TurnType::Crosswalk
        && t.id.src < t.id.dst)
}

/// The priorities that a pedestrian scramble over these turns grants.
pub open spec fn scramble_grants(turns: Seq<Turn>) -> Map<TurnID, TurnPriority>
    decreases turns.len(),
{
    if turns.len() == 0 {
        Map::empty()
    } else {
        let m = scramble_grants(turns.drop_last());
        if in_scramble(turns.last()) {
            m.insert(turns.last().id, TurnPriority::Priority)
        } else {
            m
        }
    }
}

/// A cycle that lets every crossing movement go at once and bans the rest.
pub fn pedestrian_scramble_cycle(parent: IntersectionID, idx: usize, turns: &Vec<Turn>) -> (r:
    Cycle)
    ensures
        r@ == (CycleView {
            parent,
            idx,
            duration: DEFAULT_CYCLE_SECONDS,
            granted: scramble_grants(turns@),
        }),
{
    let mut cycle = Cycle::new(parent, idx);
    let mut i: usize = 0;
    while i < turns.len()
        invariant
            i <= turns@.len(),
            cycle@ == (CycleView {
                parent,
                idx,
                duration: DEFAULT_CYCLE_SECONDS,
                granted: scramble_grants(turns@.take(i as int)),
            }),
        decreases turns@.len() - i,
    {
        let t = turns[i];
        assert(turns@.take(i + 1).drop_last() =~= turns@.take(i as int));
        if t.turn_type == TurnType::SharedSidewalkCorner || (t.turn_type == TurnType::Crosswalk
            && t.id.src < t.id.dst) {
            cycle.edit_turn(t.id, TurnPriority::Priority);
        }
        i += 1;
    }
    assert(turns@.take(i as int) =~= turns@);
    cycle
}

/// A pedestrian scramble gives priority to exactly the turns that qualify,
/// and bans every other turn.
pub proof fn lemma_scramble_priority(turns: Seq<Turn>, t: TurnID)
    ensures
        priority_under(scramble_grants(turns), t) == if exists|k: int|
            0 <= k < turns.len() && #[trigger] turns[k].id == t && in_scramble(turns[k]) {
            TurnPriority::Priority
        } else {
            TurnPriority::Banned
        },
    decreases turns.len(),
{
    if turns.len() > 0 {
        let prev = turns.drop_last();
        lemma_scramble_priority(prev, t);
        if exists|k: int| 0 <= k < prev.len() && #[trigger] prev[k].id == t && in_scramble(prev[k]) {
            let k = choose|k: int| 0 <= k < prev.len() && #[trigger] prev[k].id == t && in_scramble(prev[k]);
            assert(turns[k] == prev[k]);
        }
        if exists|k: int| 0 <= k < turns.len() && #[trigger] turns[k].id == t && in_scramble(turns[k]) {
            let k = choose|k: int| 0 <= k < turns.len() && #[trigger] turns[k].id == t && in_scramble(turns[k]);
            if k < turns.len() - 1 {
                assert(prev[k] == turns[k]);
            }
        }
    }
}

/// In a scramble over a sidewalk corner and both directions of one crossing,
/// the corner and the direction from the lower lane id get priority, and the
/// other direction stays banned.
pub proof fn lemma_scramble_one_direction_per_crossing(corner: Turn, there: Turn, back: Turn)
    requires
        corner.turn_type == TurnType::SharedSidewalkCorner,
        there.turn_type == TurnType::Crosswalk,
        back.turn_type == TurnType::Crosswalk,
        back.id.src == there.id.dst,
        back.id.dst == there.id.src,
        back.id.parent == there.id.parent,
        there.id.src < there.id.dst,
        corner.id != back.id,
    ensures
        priority_under(scramble_grants(seq![corner, there, back]), corner.id)
            == TurnPriority::Priority,
        priority_under(scramble_grants(seq![corner, there, back]), there.id)
            == TurnPriority::Priority,
        priority_under(scramble_grants(seq![corner, there, back]), back.id)
            == TurnPriority::Banned,
{
    let s = seq![corner, there, back];
    lemma_scramble_priority(s, corner.id);
    lemma_scramble_priority(s, there.id);
    lemma_scramble_priority(s, back.id);
    assert(s[0].id == corner.id && in_scramble(s[0]));
    assert(s[1].id == there.id && in_scramble(s[1]));
    assert forall|k: int| 0 <= k < s.len() && #[trigger] s[k].id == back.id implies !in_scramble(
        s[k],
    ) by {
        if k == 1 {
            assert(there.id != back.id);
        }
    }
}

} // verus!
