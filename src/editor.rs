use vstd::prelude::*;
use crate::cycle::{empty_cycle, priority_under, with_priority, Cycle, CycleView, DEFAULT_CYCLE_SECONDS};
use crate::edits::{decimal, decimal_string, MapEdits};
use crate::signal::{pedestrian_scramble_cycle, scramble_grants, ControlTrafficSignal, SignalView};
use crate::turns::{next_priority, toggled, IntersectionID, Turn, TurnID, TurnPriority, TurnType};

verus! {

/// Which flow owns the input: plain editing, or one of the two wizards.
#[derive(Clone, Copy, Debug, PartialEq, Eq, Structural)]
pub enum EditorMode {
    Editing,
    DurationEntry,
    PresetSelection,
}

/// What the operator has selected on the map this tick.
#[derive(Clone, Copy, Debug, PartialEq, Eq, Structural)]
pub enum Selection {
    Nothing,
    Turn(Turn),
    Other,
}

/// The named action the operator invoked this tick, if any.
#[derive(Clone, Copy, Debug, PartialEq, Eq, Structural)]
pub enum Action {
    Nothing,
    Quit,
    SelectPreviousCycle,
    SelectNextCycle,
    ChangeCycleDuration,
    ChoosePreset,
    MoveCycleUp,
    MoveCycleDown,
    DeleteCycle,
    AddEmptyCycle,
    AddScrambleCycle,
    TogglePriority,
}

/// What the open wizard reports this tick.
#[derive(Clone, Debug)]
pub enum WizardInput {
    /// Still waiting for the operator.
    Pending,
    /// The operator backed out.
    Aborted,
    /// The duration-entry wizard was confirmed with this many seconds.
    Seconds(u64),
    /// The preset wizard was confirmed with this plan.
    Preset(ControlTrafficSignal),
}

/// Everything one input tick hands the editor.
#[derive(Clone, Debug)]
pub struct Tick {
    pub selection: Selection,
    pub action: Action,
    /// The conflict oracle's answer: whether the selected turn could have
    /// priority in the active cycle.
    pub could_be_priority: bool,
    pub wizard: WizardInput,
}

/// The session state of the signal editor for one intersection.
#[derive(Clone, Copy, Debug, PartialEq, Eq, Structural)]
pub struct TrafficSignalEditor {
    pub i: IntersectionID,
    pub current_cycle: usize,
    pub mode: EditorMode,
    pub icon_selected: Option<TurnID>,
}

/// Whether some turn of the intersection runs between sidewalks.
pub open spec fn has_sidewalks(turns: Seq<Turn>) -> bool {
    exists|k: int| 0 <= k < turns.len() && (#[trigger] turns[k]).spec_between_sidewalks()
}

/// Whether an action is offered to the operator, given the editor state, the
/// number of cycles and the intersection's turns. Toggling is offered only
/// while a turn is selected, which is decided apart.
pub open spec fn offered(ed: TrafficSignalEditor, len: nat, turns: Seq<Turn>, a: Action) -> bool {
    match a {
        Action::Nothing => false,
        Action::Quit => true,
        Action::SelectPreviousCycle => ed.current_cycle != 0,
        Action::SelectNextCycle => ed.current_cycle + 1 != len,
        Action::ChangeCycleDuration => true,
        Action::ChoosePreset => true,
        Action::MoveCycleUp => ed.current_cycle != 0,
        Action::MoveCycleDown => ed.current_cycle + 1 != len,
        Action::DeleteCycle => len > 1,
        Action::AddEmptyCycle => true,
        Action::AddScrambleCycle => has_sidewalks(turns),
        Action::TogglePriority => false,
    }
}

/// The scramble cycle that is inserted into a plan of `len` cycles.
pub open spec fn scramble_cycle(i: IntersectionID, len: nat, turns: Seq<Turn>) -> CycleView {
    CycleView { parent: i, idx: len as usize, duration: DEFAULT_CYCLE_SECONDS, granted: scramble_grants(turns) }
}

/// One offered modal action applied: the new editor state, the new plan, and
/// whether the session goes on.
pub open spec fn apply_action(ed: TrafficSignalEditor, sig: SignalView, turns: Seq<Turn>, a: Action) -> (
    TrafficSignalEditor,
    SignalView,
    bool,
) {
    let cur = ed.current_cycle as int;
    let len = sig.cycles.len();
    match a {
        Action::Quit => (ed, sig, false),
        Action::SelectPreviousCycle => (
            TrafficSignalEditor { current_cycle: (cur - 1) as usize, ..ed },
            sig,
            true,
        ),
        Action::SelectNextCycle => (
            TrafficSignalEditor { current_cycle: (cur + 1) as usize, ..ed },
            sig,
            true,
        ),
        Action::ChangeCycleDuration => (
            TrafficSignalEditor { mode: EditorMode::DurationEntry, ..ed },
            sig,
            true,
        ),
        Action::ChoosePreset => (
            TrafficSignalEditor { mode: EditorMode::PresetSelection, ..ed },
            sig,
            true,
        ),
        Action::MoveCycleUp => (
            TrafficSignalEditor { current_cycle: (cur - 1) as usize, ..ed },
            SignalView {
                cycles: sig.cycles.update(cur - 1, sig.cycles[cur]).update(cur, sig.cycles[cur - 1]),
                ..sig
            },
            true,
        ),
        Action::MoveCycleDown => (
            TrafficSignalEditor { current_cycle: (cur + 1) as usize, ..ed },
            SignalView {
                cycles: sig.cycles.update(cur, sig.cycles[cur + 1]).update(cur + 1, sig.cycles[cur]),
                ..sig
            },
            true,
        ),
        Action::DeleteCycle => (
            TrafficSignalEditor {
                current_cycle: if cur == len - 1 { (cur - 1) as usize } else { cur as usize },
                ..ed
            },
            SignalView { cycles: sig.cycles.remove(cur), ..sig },
            true,
        ),
        Action::AddEmptyCycle => (
            ed,
            SignalView { cycles: sig.cycles.insert(cur, empty_cycle(ed.i, len as usize)), ..sig },
            true,
        ),
        Action::AddScrambleCycle => (
            ed,
            SignalView { cycles: sig.cycles.insert(cur, scramble_cycle(ed.i, len, turns)), ..sig },
            true,
        ),
        _ => (ed, sig, true),
    }
}

/// The plan after the active cycle's turn `t` is set to `p`.
pub open spec fn plan_with_priority(sig: SignalView, cur: int, t: TurnID, p: TurnPriority) -> SignalView {
    SignalView {
        cycles: sig.cycles.update(
            cur,
            CycleView { granted: with_priority(sig.cycles[cur].granted, t, p), ..sig.cycles[cur] },
        ),
        ..sig
    }
}

/// One tick of the editor: the new editor state, the new working plan, and
/// whether the session goes on.
pub open spec fn tick_result(ed: TrafficSignalEditor, sig: SignalView, turns: Seq<Turn>, tick: Tick) -> (
    TrafficSignalEditor,
    SignalView,
    bool,
) {
    let cur = ed.current_cycle as int;
    let editing = TrafficSignalEditor { mode: EditorMode::Editing, ..ed };
    if ed.mode == EditorMode::DurationEntry {
        match tick.wizard {
            WizardInput::Seconds(n) => (
                editing,
                SignalView {
                    cycles: sig.cycles.update(cur, CycleView { duration: n, ..sig.cycles[cur] }),
                    ..sig
                },
                true,
            ),
            WizardInput::Aborted => (editing, sig, true),
            _ => (ed, sig, true),
        }
    } else if ed.mode == EditorMode::PresetSelection {
        match tick.wizard {
            WizardInput::Preset(p) => (
                TrafficSignalEditor {
                    current_cycle: if cur < p.cycles@.len() { cur as usize } else { 0 },
                    ..editing
                },
                p@,
                true,
            ),
            WizardInput::Aborted => (editing, sig, true),
            _ => (ed, sig, true),
        }
    } else {
        match tick.selection {
            Selection::Turn(t) if t.id.parent == ed.i => {
                let selected = TrafficSignalEditor { icon_selected: Some(t.id), ..ed };
                let now = priority_under(sig.cycles[cur].granted, t.id);
                match toggled(now, t.turn_type == TurnType::Crosswalk, tick.could_be_priority) {
                    Some(p) => if tick.action == Action::TogglePriority {
                        (selected, plan_with_priority(sig, cur, t.id, p), true)
                    } else {
                        (selected, sig, true)
                    },
                    None => (selected, sig, true),
                }
            },
            _ => {
                let cleared = TrafficSignalEditor { icon_selected: None, ..ed };
                if offered(cleared, sig.cycles.len(), turns, tick.action) {
                    apply_action(cleared, sig, turns, tick.action)
                } else {
                    (cleared, sig, true)
                }
            },
        }
    }
}

/// Whether a preset plan handed over by a tick keeps at least one cycle.
pub open spec fn tick_well_formed(tick: Tick) -> bool {
    match tick.wizard {
        WizardInput::Preset(p) => p.well_formed(),
        _ => true,
    }
}

/// Whether some turn of the list runs between sidewalks.
pub fn any_between_sidewalks(turns: &Vec<Turn>) -> (r: bool)
    ensures
        r == has_sidewalks(turns@),
{
    let mut i: usize = 0;
    while i < turns.len()
        invariant
            i <= turns@.len(),
            forall|k: int| 0 <= k < i ==> !(#[trigger] turns@[k]).spec_between_sidewalks(),
        decreases turns@.len() - i,
    {
        if turns[i].between_sidewalks() {
            return true;
        }
        i += 1;
    }
    false
}

impl TrafficSignalEditor {
    /// Opens the editor on the selected intersection when the simulation is
    /// empty, the intersection has a traffic signal, and the operator asked to
    /// edit it; otherwise no editor is opened.
    pub fn new(
        selected: Option<IntersectionID>,
        sim_is_empty: bool,
        has_traffic_signal: bool,
        edit_requested: bool,
    ) -> (r: Option<TrafficSignalEditor>)
        ensures
            r.is_some() <==> (selected.is_some() && sim_is_empty && has_traffic_signal
                && edit_requested),
            r.is_some() ==> r.unwrap() == (TrafficSignalEditor {
                i: selected.unwrap(),
                current_cycle: 0,
                mode: EditorMode::Editing,
                icon_selected: None,
            }),
    {
        match selected {
            Some(id) => {
                if sim_is_empty && has_traffic_signal && edit_requested {
                    Some(
                        TrafficSignalEditor {
                            i: id,
                            current_cycle: 0,
                            mode: EditorMode::Editing,
                            icon_selected: None,
                        },
                    )
                } else {
                    None
                }
            },
            None => None,
        }
    }

    /// Whether turn icons are shown for intersection `id`: only for the one
    /// being edited.
    pub fn show_turn_icons(&self, id: IntersectionID) -> (r: bool)
        ensures
            r == (self.i == id),
    {
        self.i == id
    }

    /// The editor's state fits a plan: the active cycle exists.
    pub open spec fn fits(&self, signal: ControlTrafficSignal) -> bool {
        signal.well_formed() && self.current_cycle < signal.cycles@.len()
    }

    /// Whether a modal action is offered now.
    pub fn action_offered(&self, signal: &ControlTrafficSignal, turns: &Vec<Turn>, a: Action) -> (r:
        bool)
        ensures
            r == offered(*self, signal.cycles@.len(), turns@, a),
    {
        let n = signal.cycles.len();
        match a {
            Action::Nothing => false,
            Action::Quit => true,
            Action::SelectPreviousCycle => self.current_cycle != 0,
            Action::SelectNextCycle => self.current_cycle as u128 + 1 != n as u128,
            Action::ChangeCycleDuration => true,
            Action::ChoosePreset => true,
            Action::MoveCycleUp => self.current_cycle != 0,
            Action::MoveCycleDown => self.current_cycle as u128 + 1 != n as u128,
            Action::DeleteCycle => n > 1,
            Action::AddEmptyCycle => true,
            Action::AddScrambleCycle => any_between_sidewalks(turns),
            Action::TogglePriority => false,
        }
    }

    /// The text the duration wizard starts with: the active cycle's duration
    /// in seconds.
    pub fn duration_prefill(&self, signal: &ControlTrafficSignal) -> (r: String)
        requires
            self.fits(*signal),
        ensures
            r@ == decimal(signal@.cycles[self.current_cycle as int].duration as nat),
    {
        decimal_string(signal.cycles[self.current_cycle].duration)
    }

    /// The priority class a turn is drawn in: the priority it has in the
    /// active cycle, or `None` for a turn of another intersection.
    pub fn color_for(&self, signal: &ControlTrafficSignal, t: TurnID) -> (r: Option<TurnPriority>)
        requires
            self.fits(*signal),
        ensures
            r == (if t.parent != self.i {
                None
            } else {
                Some(priority_under(signal@.cycles[self.current_cycle as int].granted, t))
            }),
    {
        if t.parent != self.i {
            None
        } else {
            Some(signal.cycles[self.current_cycle].get_priority(t))
        }
    }

    /// Interprets one input tick on the working plan.
    pub fn step(&mut self, signal: &mut ControlTrafficSignal, turns: &Vec<Turn>, tick: Tick) -> (r:
        bool)
        requires
            old(self).fits(*old(signal)),
            tick_well_formed(tick),
        ensures
            (*final(self), final(signal)@, r) == tick_result(*old(self), old(signal)@, turns@, tick),
            final(self).fits(*final(signal)),
    {
        let cur = self.current_cycle;
        let ghost sig0 = signal@;
        let ghost ed0 = *self;
        let ghost tick0 = tick;
        match self.mode {
            EditorMode::DurationEntry => {
                match tick.wizard {
                    WizardInput::Seconds(n) => {
                        signal.set_cycle_duration(cur, n);
                        self.mode = EditorMode::Editing;
                    },
                    WizardInput::Aborted => {
                        self.mode = EditorMode::Editing;
                    },
                    _ => {},
                }
                return true;
            },
            EditorMode::PresetSelection => {
                match tick.wizard {
                    WizardInput::Preset(p) => {
                        *signal = p;
                        if self.current_cycle >= signal.cycles.len() {
                            self.current_cycle = 0;
                        }
                        self.mode = EditorMode::Editing;
                    },
                    WizardInput::Aborted => {
                        self.mode = EditorMode::Editing;
                    },
                    _ => {},
                }
                return true;
            },
            EditorMode::Editing => {},
        }
        match tick.selection {
            Selection::Turn(t) => {
                if t.id.parent == self.i {
                    self.icon_selected = Some(t.id);
                    let now = signal.cycles[cur].get_priority(t.id);
                    match next_priority(now, t.turn_type, tick.could_be_priority) {
                        Some(p) => {
                            if tick.action == Action::TogglePriority {
                                signal.edit_turn_in_cycle(cur, t.id, p);
                            }
                        },
                        None => {},
                    }
                    return true;
                }
            },
            _ => {},
        }
        self.icon_selected = None;
        if !self.action_offered(signal, turns, tick.action) {
            return true;
        }
        let n = signal.cycles.len();
        match tick.action {
            Action::Quit => {
                return false;
            },
            Action::SelectPreviousCycle => {
                self.current_cycle = cur - 1;
            },
            Action::SelectNextCycle => {
                self.current_cycle = cur + 1;
            },
            Action::ChangeCycleDuration => {
                self.mode = EditorMode::DurationEntry;
            },
            Action::ChoosePreset => {
                self.mode = EditorMode::PresetSelection;
            },
            Action::MoveCycleUp => {
                signal.swap_with_next(cur - 1);
                self.current_cycle = cur - 1;
            },
            Action::MoveCycleDown => {
                signal.swap_with_next(cur);
                self.current_cycle = cur + 1;
            },
            Action::DeleteCycle => {
                signal.remove_cycle(cur);
                if cur == signal.cycles.len() {
                    self.current_cycle = cur - 1;
                }
            },
            Action::AddEmptyCycle => {
                let c = Cycle::new(self.i, n);
                signal.insert_cycle(cur, c);
            },
            Action::AddScrambleCycle => {
                let c = pedestrian_scramble_cycle(self.i, n, turns);
                signal.insert_cycle(cur, c);
            },
            _ => {},
        }
        true
    }

    /// Runs one tick on the intersection's current plan and commits the
    /// resulting plan to the overlay under the edited intersection, whether or
    /// not anything changed. Returns whether the session goes on.
    pub fn blocking_event(
        &mut self,
        signal: ControlTrafficSignal,
        turns: &Vec<Turn>,
        tick: Tick,
        edits: &mut MapEdits,
    ) -> (r: bool)
        requires
            old(self).fits(signal),
            tick_well_formed(tick),
        ensures
            ({
                let (ed, plan, going) = tick_result(*old(self), signal@, turns@, tick);
                &&& *final(self) == ed
                &&& r == going
                &&& final(edits).traffic_signal_overrides@.dom()
                    == old(edits).traffic_signal_overrides@.dom().insert(old(self).i)
                &&& final(edits).traffic_signal_overrides@[old(self).i]@ == plan
                &&& forall|j: IntersectionID|
                    j != old(self).i ==> #[trigger] final(edits).traffic_signal_overrides@.index(j)
                        == old(edits).traffic_signal_overrides@.index(j)
            }),
            final(self).fits(final(edits).traffic_signal_overrides@[old(self).i]),
            final(edits).map_name == old(edits).map_name,
            final(edits).edits_name == old(edits).edits_name,
            final(edits).lane_overrides == old(edits).lane_overrides,
            final(edits).stop_sign_overrides == old(edits).stop_sign_overrides,
    {
        let mut working = signal;
        let going = self.step(&mut working, turns, tick);
        edits.commit_signal(self.i, working);
        going
    }
}

/// A tick in plain editing mode with nothing of this intersection selected.
pub open spec fn modal_tick(ed: TrafficSignalEditor, tick: Tick) -> bool {
    &&& ed.mode == EditorMode::Editing
    &&& match tick.selection {
        Selection::Turn(t) => t.id.parent != ed.i,
        _ => true,
    }
}

/// Moving the first cycle up, or the last cycle down, is never offered, and
/// asking for it anyway changes neither the plan nor the active cycle.
pub proof fn lemma_move_not_offered_at_ends(
    ed: TrafficSignalEditor,
    sig: SignalView,
    turns: Seq<Turn>,
    tick: Tick,
)
    requires
        sig.cycles.len() >= 2,
        ed.current_cycle < sig.cycles.len(),
        modal_tick(ed, tick),
    ensures
        ed.current_cycle == 0 ==> !offered(ed, sig.cycles.len(), turns, Action::MoveCycleUp),
        ed.current_cycle == sig.cycles.len() - 1 ==> !offered(
            ed,
            sig.cycles.len(),
            turns,
            Action::MoveCycleDown,
        ),
        (ed.current_cycle == 0 && tick.action == Action::MoveCycleUp) || (ed.current_cycle
            == sig.cycles.len() - 1 && tick.action == Action::MoveCycleDown) ==> {
            let (ed2, sig2, going) = tick_result(ed, sig, turns, tick);
            &&& sig2 == sig
            &&& ed2.current_cycle == ed.current_cycle
            &&& going
        },
{
}

/// Deleting is not offered while one cycle is left, so the plan stays as it
/// is; with two or more cycles a delete takes out exactly one, and the active
/// cycle still exists afterwards.
pub proof fn lemma_delete_keeps_a_cycle(
    ed: TrafficSignalEditor,
    sig: SignalView,
    turns: Seq<Turn>,
    tick: Tick,
)
    requires
        sig.cycles.len() >= 1,
        ed.current_cycle < sig.cycles.len(),
        modal_tick(ed, tick),
        tick.action == Action::DeleteCycle,
    ensures
        sig.cycles.len() == 1 ==> !offered(ed, sig.cycles.len(), turns, Action::DeleteCycle),
        sig.cycles.len() == 1 ==> tick_result(ed, sig, turns, tick).1 == sig,
        sig.cycles.len() >= 2 ==> tick_result(ed, sig, turns, tick).1.cycles.len()
            == sig.cycles.len() - 1,
        tick_result(ed, sig, turns, tick).0.current_cycle < tick_result(
            ed,
            sig,
            turns,
            tick,
        ).1.cycles.len(),
{
}

/// Whatever a tick does, the active cycle exists in the plan it leaves.
pub proof fn lemma_tick_keeps_active_cycle(
    ed: TrafficSignalEditor,
    signal: ControlTrafficSignal,
    turns: Seq<Turn>,
    tick: Tick,
)
    requires
        ed.fits(signal),
        tick_well_formed(tick),
    ensures
        tick_result(ed, signal@, turns, tick).1.cycles.len() >= 1,
        tick_result(ed, signal@, turns, tick).0.current_cycle < tick_result(
            ed,
            signal@,
            turns,
            tick,
        ).1.cycles.len(),
{
}

} // verus!
