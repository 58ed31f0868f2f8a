use vstd::prelude::*;

verus! {

/// Identifies an intersection of the map.
pub type IntersectionID = usize;

/// Identifies a lane of the map.
pub type LaneID = usize;

/// A movement from one lane into another through an intersection.
#[derive(Clone, Copy, Debug, PartialEq, Eq, Structural)]
pub struct TurnID {
    pub parent: IntersectionID,
    pub src: LaneID,
    pub dst: LaneID,
}

/// How the map classifies a turn.
#[derive(Clone, Copy, Debug, PartialEq, Eq, Structural)]
pub enum TurnType {
    SharedSidewalkCorner,
    Crosswalk,
    Straight,
    LaneChangeLeft,
    LaneChangeRight,
    Right,
    Left,
}

/// A turn as the map supplies it: its identity and its classification.
#[derive(Clone, Copy, Debug, PartialEq, Eq, Structural)]
pub struct Turn {
    pub id: TurnID,
    pub turn_type: TurnType,
}

/// Permission level of a turn inside a signal cycle. A stop sign's `Stop`
/// has no place in a cycle, so it is not a value of this type.
#[derive(Clone, Copy, Debug, PartialEq, Eq, Structural)]
pub enum TurnPriority {
    Banned,
    Yield,
    Priority,
}

impl Turn {
    pub open spec fn spec_between_sidewalks(&self) -> bool {
        self.turn_type == TurnType::SharedSidewalkCorner || self.turn_type == TurnType::Crosswalk
    }

    /// Whether the turn connects two sidewalks.
    #[verifier::when_used_as_spec(spec_between_sidewalks)]
    pub fn between_sidewalks(&self) -> (r: bool)
        ensures
            r == self.spec_between_sidewalks(),
    {
        match self.turn_type {
            TurnType::SharedSidewalkCorner | TurnType::Crosswalk => true,
            _ => false,
        }
    }
}

/// The state that one press of the toggle key moves a turn to, or `None`
/// where no move is legal.
pub open spec fn toggled(
    current: TurnPriority,
    is_crosswalk: bool,
    could_be_priority: bool,
) -> Option<TurnPriority> {
    match current {
        TurnPriority::Banned => if is_crosswalk {
            if could_be_priority {
                Some(TurnPriority::Priority)
            } else {
                None
            }
        } else {
            Some(TurnPriority::Yield)
        },
        TurnPriority::Yield => if could_be_priority {
            Some(TurnPriority::Priority)
        } else {
            Some(TurnPriority::Banned)
        },
        TurnPriority::Priority => Some(TurnPriority::Banned),
    }
}

/// Computes the next priority of a turn under the toggle key. `could_be_priority`
/// is the conflict oracle's answer for this turn in the cycle being edited.
pub fn next_priority(current: TurnPriority, turn_type: TurnType, could_be_priority: bool) -> (r:
    Option<TurnPriority>)
    ensures
        r == toggled(current, turn_type == TurnType::Crosswalk, could_be_priority),
{
    match current {
        TurnPriority::Banned => {
            if turn_type == TurnType::Crosswalk {
                if could_be_priority {
                    Some(TurnPriority::Priority)
                } else {
                    None
                }
            } else {
                Some(TurnPriority::Yield)
            }
        },
        TurnPriority::Yield => {
            if could_be_priority {
                Some(TurnPriority::Priority)
            } else {
                Some(TurnPriority::Banned)
            }
        },
        TurnPriority::Priority => Some(TurnPriority::Banned),
    }
}

/// A turn that is not a crosswalk goes from banned to yield, never straight
/// to priority, whatever the conflict oracle says.
pub proof fn lemma_banned_non_crosswalk_yields(t: Turn, could_be_priority: bool)
    requires
        t.turn_type != TurnType::Crosswalk,
    ensures
        toggled(TurnPriority::Banned, t.turn_type == TurnType::Crosswalk, could_be_priority)
            == Some(TurnPriority::Yield),
{
}

/// A turn with priority always goes straight to banned, whatever the turn is
/// and whatever the conflict oracle says.
pub proof fn lemma_priority_toggles_to_banned(t: Turn, could_be_priority: bool)
    ensures
        toggled(TurnPriority::Priority, t.turn_type == TurnType::Crosswalk, could_be_priority)
            == Some(TurnPriority::Banned),
{
}

} // verus!
