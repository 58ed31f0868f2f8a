use vstd::prelude::*;
use vstd::string::StringExecFns;
use std::collections::BTreeMap;
use crate::signal::ControlTrafficSignal;
use crate::turns::{IntersectionID, LaneID};

verus! {

/// What a lane is used for.
#[derive(Clone, Copy, Debug, PartialEq, Eq, Structural)]
pub enum LaneType {
    Driving,
    Parking,
    Sidewalk,
    Biking,
    Bus,
}

/// The override of a stop-sign intersection; its per-turn rules are kept by
/// the map model.
#[derive(Clone, Copy, Debug, PartialEq, Eq, Structural)]
pub struct ControlStopSign {
    pub id: IntersectionID,
}

/// A named set of changes to a map: lane types, stop signs and signal plans,
/// each keyed by what it replaces.
#[derive(Clone, Debug)]
pub struct MapEdits {
    pub map_name: String,
    pub edits_name: String,
    pub lane_overrides: BTreeMap<LaneID, LaneType>,
    pub stop_sign_overrides: BTreeMap<IntersectionID, ControlStopSign>,
    pub traffic_signal_overrides: BTreeMap<IntersectionID, ControlTrafficSignal>,
}

/// The character of a decimal digit.
pub open spec fn digit_char(d: nat) -> char {
    if d == 0 {
        '0'
    } else if d == 1 {
        '1'
    } else if d == 2 {
        '2'
    } else if d == 3 {
        '3'
    } else if d == 4 {
        '4'
    } else if d == 5 {
        '5'
    } else if d == 6 {
        '6'
    } else if d == 7 {
        '7'
    } else if d == 8 {
        '8'
    } else {
        '9'
    }
}

/// A number written in decimal, without leading zeros.
pub open spec fn decimal(n: nat) -> Seq<char>
    decreases n,
{
    if n < 10 {
        seq![digit_char(n)]
    } else {
        decimal(n / 10) + seq![digit_char(n % 10)]
    }
}

/// The one-line summary of an edit set.
pub open spec fn summary(name: Seq<char>, lanes: nat, stop_signs: nat, signals: nat) -> Seq<char> {
    "map edits \""@ + name + "\" ("@ + decimal(lanes) + " lanes, "@ + decimal(stop_signs)
        + " stop signs, "@ + decimal(signals) + " traffic signals)"@
}

fn digit_str(d: u64) -> (r: &'static str)
    requires
        d < 10,
    ensures
        r@ == seq![digit_char(d as nat)],
{
    if d == 0 {
        proof { reveal_strlit("0"); }
        "0"
    } else if d == 1 {
        proof { reveal_strlit("1"); }
        "1"
    } else if d == 2 {
        proof { reveal_strlit("2"); }
        "2"
    } else if d == 3 {
        proof { reveal_strlit("3"); }
        "3"
    } else if d == 4 {
        proof { reveal_strlit("4"); }
        "4"
    } else if d == 5 {
        proof { reveal_strlit("5"); }
        "5"
    } else if d == 6 {
        proof { reveal_strlit("6"); }
        "6"
    } else if d == 7 {
        proof { reveal_strlit("7"); }
        "7"
    } else if d == 8 {
        proof { reveal_strlit("8"); }
        "8"
    } else {
        proof { reveal_strlit("9"); }
        "9"
    }
}

/// Appends a number in decimal.
pub fn push_decimal(s: &mut String, n: u64)
    ensures
        final(s)@ == old(s)@ + decimal(n as nat),
    decreases n,
{
    if n < 10 {
        s.append(digit_str(n));
    } else {
        push_decimal(s, n / 10);
        s.append(digit_str(n % 10));
        assert(final(s)@ =~= old(s)@ + decimal(n as nat));
    }
}

/// A number in decimal.
pub fn decimal_string(n: u64) -> (r: String)
    ensures
        r@ == decimal(n as nat),
{
    let mut s = String::new();
    push_decimal(&mut s, n);
    assert(s@ =~= decimal(n as nat));
    s
}

impl MapEdits {
    /// An empty edit set for the named map, called "no_edits" until it is
    /// given a name.
    pub fn new(map_name: String) -> (r: MapEdits)
        ensures
            r.map_name@ == map_name@,
            r.edits_name@ == "no_edits"@,
            r.lane_overrides@ == Map::<LaneID, LaneType>::empty(),
            r.stop_sign_overrides@ == Map::<IntersectionID, ControlStopSign>::empty(),
            r.traffic_signal_overrides@ == Map::<IntersectionID, ControlTrafficSignal>::empty(),
    {
        proof { reveal_strlit("no_edits"); }
        MapEdits {
            map_name,
            edits_name: String::from_str("no_edits"),
            lane_overrides: BTreeMap::new(),
            stop_sign_overrides: BTreeMap::new(),
            traffic_signal_overrides: BTreeMap::new(),
        }
    }

    /// A summary such as `map edits "x" (1 lanes, 0 stop signs, 2 traffic signals)`.
    pub fn describe(&self) -> (r: String)
        ensures
            r@ == summary(
                self.edits_name@,
                self.lane_overrides@.len(),
                self.stop_sign_overrides@.len(),
                self.traffic_signal_overrides@.len(),
            ),
    {
        let mut s = String::from_str("map edits \"");
        s.append(self.edits_name.as_str());
        s.append("\" (");
        push_decimal(&mut s, self.lane_overrides.len() as u64);
        s.append(" lanes, ");
        push_decimal(&mut s, self.stop_sign_overrides.len() as u64);
        s.append(" stop signs, ");
        push_decimal(&mut s, self.traffic_signal_overrides.len() as u64);
        s.append(" traffic signals)");
        proof {
            reveal_strlit("map edits \"");
            reveal_strlit("\" (");
            reveal_strlit(" lanes, ");
            reveal_strlit(" stop signs, ");
            reveal_strlit(" traffic signals)");
        }
        assert(s@ =~= summary(
            self.edits_name@,
            self.lane_overrides@.len(),
            self.stop_sign_overrides@.len(),
            self.traffic_signal_overrides@.len(),
        ));
        s
    }

    /// Writes a signal plan into the overlay under intersection `i`,
    /// replacing whatever plan stood there.
    pub fn commit_signal(&mut self, i: IntersectionID, signal: ControlTrafficSignal)
        ensures
            final(self).traffic_signal_overrides@ == old(self).traffic_signal_overrides@.insert(
                i,
                signal,
            ),
            final(self).map_name == old(self).map_name,
            final(self).edits_name == old(self).edits_name,
            final(self).lane_overrides == old(self).lane_overrides,
            final(self).stop_sign_overrides == old(self).stop_sign_overrides,
    {
        let _ = self.traffic_signal_overrides.insert(i, signal);
    }
}

/// Committing the same plan twice leaves the overlay as one commit does.
pub proof fn lemma_commit_idempotent(
    overrides: Map<IntersectionID, ControlTrafficSignal>,
    i: IntersectionID,
    signal: ControlTrafficSignal,
)
    ensures
        overrides.insert(i, signal).insert(i, signal) == overrides.insert(i, signal),
{
    assert(overrides.insert(i, signal).insert(i, signal) =~= overrides.insert(i, signal));
}

} // verus!
