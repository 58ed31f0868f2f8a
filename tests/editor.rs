use signal_editor::cycle::{Cycle, DEFAULT_CYCLE_SECONDS};
use signal_editor::edits::MapEdits;
use signal_editor::editor::{Action, EditorMode, Selection, Tick, TrafficSignalEditor, WizardInput};
use signal_editor::presets::{choose_preset, preset_choices};
use signal_editor::signal::{pedestrian_scramble_cycle, ControlTrafficSignal};
use signal_editor::turns::{next_priority, Turn, TurnID, TurnPriority, TurnType};

const I: usize = 7;

fn plan(n: usize) -> ControlTrafficSignal {
    let mut cycles = Vec::new();
    for k in 0..n {
        let mut c = Cycle::new(I, k);
        c.duration = 10 + k as u64;
        cycles.push(c);
    }
    ControlTrafficSignal { id: I, cycles }
}

fn editor_at(cur: usize) -> TrafficSignalEditor {
    TrafficSignalEditor { i: I, current_cycle: cur, mode: EditorMode::Editing, icon_selected: None }
}

fn tick(action: Action) -> Tick {
    Tick { selection: Selection::Nothing, action, could_be_priority: false, wizard: WizardInput::Pending }
}

fn wizard(w: WizardInput) -> Tick {
    Tick { selection: Selection::Nothing, action: Action::Nothing, could_be_priority: false, wizard: w }
}

fn turn(src: usize, dst: usize, turn_type: TurnType) -> Turn {
    Turn { id: TurnID { parent: I, src, dst }, turn_type }
}

fn durations(p: &ControlTrafficSignal) -> Vec<u64> {
    p.cycles.iter().map(|c| c.duration).collect()
}

#[test]
fn banned_vehicle_turn_toggles_to_yield() {
    for t in [TurnType::Straight, TurnType::Left, TurnType::Right, TurnType::SharedSidewalkCorner] {
        assert_eq!(next_priority(TurnPriority::Banned, t, true), Some(TurnPriority::Yield));
        assert_eq!(next_priority(TurnPriority::Banned, t, false), Some(TurnPriority::Yield));
    }
}

#[test]
fn priority_toggles_to_banned() {
    for t in [TurnType::Crosswalk, TurnType::Straight, TurnType::LaneChangeLeft] {
        assert_eq!(next_priority(TurnPriority::Priority, t, true), Some(TurnPriority::Banned));
        assert_eq!(next_priority(TurnPriority::Priority, t, false), Some(TurnPriority::Banned));
    }
}

#[test]
fn crosswalk_and_yield_toggles_follow_oracle() {
    assert_eq!(next_priority(TurnPriority::Banned, TurnType::Crosswalk, true), Some(TurnPriority::Priority));
    assert_eq!(next_priority(TurnPriority::Banned, TurnType::Crosswalk, false), None);
    assert_eq!(next_priority(TurnPriority::Yield, TurnType::Left, true), Some(TurnPriority::Priority));
    assert_eq!(next_priority(TurnPriority::Yield, TurnType::Left, false), Some(TurnPriority::Banned));
}

#[test]
fn toggle_applies_only_when_confirmed() {
    let t = turn(1, 2, TurnType::Left);
    let mut ed = editor_at(0);
    let mut p = plan(2);
    let hint = Tick { selection: Selection::Turn(t), action: Action::Nothing, could_be_priority: false, wizard: WizardInput::Pending };
    assert!(ed.step(&mut p, &vec![t], hint));
    assert_eq!(ed.icon_selected, Some(t.id));
    assert_eq!(p.cycles[0].get_priority(t.id), TurnPriority::Banned);
    let go = Tick { selection: Selection::Turn(t), action: Action::TogglePriority, could_be_priority: false, wizard: WizardInput::Pending };
    assert!(ed.step(&mut p, &vec![t], go));
    assert_eq!(p.cycles[0].get_priority(t.id), TurnPriority::Yield);
    assert_eq!(p.cycles[1].get_priority(t.id), TurnPriority::Banned);
    assert_eq!(ed.color_for(&p, t.id), Some(TurnPriority::Yield));
    assert_eq!(ed.color_for(&p, TurnID { parent: I + 1, src: 1, dst: 2 }), None);
}

#[test]
fn banned_crosswalk_without_oracle_stays_banned() {
    let t = turn(3, 4, TurnType::Crosswalk);
    let mut ed = editor_at(0);
    let mut p = plan(1);
    let go = Tick { selection: Selection::Turn(t), action: Action::TogglePriority, could_be_priority: false, wizard: WizardInput::Pending };
    assert!(ed.step(&mut p, &vec![t], go));
    assert_eq!(p.cycles[0].get_priority(t.id), TurnPriority::Banned);
}

#[test]
fn move_not_offered_at_ends() {
    let p = plan(3);
    let turns = Vec::new();
    assert!(!editor_at(0).action_offered(&p, &turns, Action::MoveCycleUp));
    assert!(!editor_at(2).action_offered(&p, &turns, Action::MoveCycleDown));
    assert!(editor_at(1).action_offered(&p, &turns, Action::MoveCycleUp));
    let mut ed = editor_at(0);
    let mut q = plan(3);
    assert!(ed.step(&mut q, &turns, tick(Action::MoveCycleUp)));
    assert_eq!(ed.current_cycle, 0);
    assert_eq!(durations(&q), vec![10, 11, 12]);
    let mut ed = editor_at(2);
    assert!(ed.step(&mut q, &turns, tick(Action::MoveCycleDown)));
    assert_eq!(ed.current_cycle, 2);
    assert_eq!(durations(&q), vec![10, 11, 12]);
}

#[test]
fn move_swaps_with_neighbour() {
    let mut ed = editor_at(1);
    let mut p = plan(3);
    assert!(ed.step(&mut p, &Vec::new(), tick(Action::MoveCycleDown)));
    assert_eq!(ed.current_cycle, 2);
    assert_eq!(durations(&p), vec![10, 12, 11]);
    assert!(ed.step(&mut p, &Vec::new(), tick(Action::MoveCycleUp)));
    assert_eq!(ed.current_cycle, 1);
    assert_eq!(durations(&p), vec![10, 11, 12]);
}

#[test]
fn delete_refused_with_one_cycle() {
    let mut ed = editor_at(0);
    let mut p = plan(1);
    assert!(!ed.action_offered(&p, &Vec::new(), Action::DeleteCycle));
    assert!(ed.step(&mut p, &Vec::new(), tick(Action::DeleteCycle)));
    assert_eq!(p.cycles.len(), 1);
    assert_eq!(ed.current_cycle, 0);
}

#[test]
fn delete_last_cycle_moves_index_back() {
    let mut ed = editor_at(2);
    let mut p = plan(3);
    assert!(ed.step(&mut p, &Vec::new(), tick(Action::DeleteCycle)));
    assert_eq!(durations(&p), vec![10, 11]);
    assert_eq!(ed.current_cycle, 1);
    let mut ed = editor_at(0);
    assert!(ed.step(&mut p, &Vec::new(), tick(Action::DeleteCycle)));
    assert_eq!(durations(&p), vec![11]);
    assert_eq!(ed.current_cycle, 0);
}

#[test]
fn add_empty_cycle_at_active_index() {
    let mut ed = editor_at(1);
    let mut p = plan(2);
    assert!(ed.step(&mut p, &Vec::new(), tick(Action::AddEmptyCycle)));
    assert_eq!(durations(&p), vec![10, DEFAULT_CYCLE_SECONDS, 11]);
    assert_eq!(p.cycles[1].idx, 2);
    assert_eq!(ed.current_cycle, 1);
}

#[test]
fn scramble_grants_one_crossing_direction() {
    let a = turn(5, 6, TurnType::SharedSidewalkCorner);
    let x = turn(1, 2, TurnType::Crosswalk);
    let y = turn(2, 1, TurnType::Crosswalk);
    let v = turn(8, 9, TurnType::Straight);
    let turns = vec![a, x, y, v];
    let c = pedestrian_scramble_cycle(I, 0, &turns);
    assert_eq!(c.get_priority(a.id), TurnPriority::Priority);
    assert_eq!(c.get_priority(x.id), TurnPriority::Priority);
    assert_eq!(c.get_priority(y.id), TurnPriority::Banned);
    assert_eq!(c.get_priority(v.id), TurnPriority::Banned);
}

#[test]
fn scramble_offered_only_with_sidewalks() {
    let mut ed = editor_at(0);
    let mut p = plan(1);
    let cars = vec![turn(8, 9, TurnType::Straight)];
    assert!(!ed.action_offered(&p, &cars, Action::AddScrambleCycle));
    assert!(ed.step(&mut p, &cars, tick(Action::AddScrambleCycle)));
    assert_eq!(p.cycles.len(), 1);
    let walks = vec![turn(1, 2, TurnType::Crosswalk), turn(2, 1, TurnType::Crosswalk)];
    assert!(ed.step(&mut p, &walks, tick(Action::AddScrambleCycle)));
    assert_eq!(p.cycles.len(), 2);
    assert_eq!(p.cycles[0].get_priority(walks[0].id), TurnPriority::Priority);
    assert_eq!(p.cycles[0].get_priority(walks[1].id), TurnPriority::Banned);
}

#[test]
fn select_previous_cycle_stops_at_first() {
    let mut ed = editor_at(1);
    let mut p = plan(3);
    assert!(ed.step(&mut p, &Vec::new(), tick(Action::SelectPreviousCycle)));
    assert_eq!(ed.current_cycle, 0);
    assert!(!ed.action_offered(&p, &Vec::new(), Action::SelectPreviousCycle));
    assert!(ed.step(&mut p, &Vec::new(), tick(Action::SelectPreviousCycle)));
    assert_eq!(ed.current_cycle, 0);
}

#[test]
fn select_next_cycle_stops_at_last() {
    let mut ed = editor_at(1);
    let mut p = plan(3);
    assert!(ed.step(&mut p, &Vec::new(), tick(Action::SelectNextCycle)));
    assert_eq!(ed.current_cycle, 2);
    assert!(ed.step(&mut p, &Vec::new(), tick(Action::SelectNextCycle)));
    assert_eq!(ed.current_cycle, 2);
}

#[test]
fn duration_wizard_confirm_and_abort() {
    let mut p = plan(1);
    p.cycles[0].duration = 15;
    let mut ed = editor_at(0);
    assert!(ed.step(&mut p, &Vec::new(), tick(Action::ChangeCycleDuration)));
    assert_eq!(ed.mode, EditorMode::DurationEntry);
    assert_eq!(ed.duration_prefill(&p), "15");
    assert!(ed.step(&mut p, &Vec::new(), wizard(WizardInput::Pending)));
    assert_eq!(ed.mode, EditorMode::DurationEntry);
    assert!(ed.step(&mut p, &Vec::new(), wizard(WizardInput::Aborted)));
    assert_eq!(ed.mode, EditorMode::Editing);
    assert_eq!(p.cycles[0].duration, 15);
    assert!(ed.step(&mut p, &Vec::new(), tick(Action::ChangeCycleDuration)));
    assert!(ed.step(&mut p, &Vec::new(), wizard(WizardInput::Seconds(30))));
    assert_eq!(ed.mode, EditorMode::Editing);
    assert_eq!(p.cycles[0].duration, 30);
}

#[test]
fn wizard_owns_the_tick() {
    let mut ed = editor_at(1);
    ed.mode = EditorMode::DurationEntry;
    let mut p = plan(3);
    assert!(ed.step(&mut p, &Vec::new(), tick(Action::Quit)));
    assert!(ed.step(&mut p, &Vec::new(), tick(Action::DeleteCycle)));
    assert_eq!(p.cycles.len(), 3);
    assert_eq!(ed.current_cycle, 1);
}

#[test]
fn preset_arbitrary_always_offered_and_replaces_plan() {
    let choices = preset_choices(None, None, None, plan(1));
    assert_eq!(choices.len(), 1);
    assert_eq!(choices[0].0, "arbitrary assignment");
    let chosen = choose_preset(choices, 0).unwrap();
    let mut ed = editor_at(2);
    let mut p = plan(3);
    assert!(ed.step(&mut p, &Vec::new(), tick(Action::ChoosePreset)));
    assert_eq!(ed.mode, EditorMode::PresetSelection);
    assert!(ed.step(&mut p, &Vec::new(), wizard(WizardInput::Preset(chosen))));
    assert_eq!(ed.mode, EditorMode::Editing);
    assert_eq!(p.cycles.len(), 1);
    assert_eq!(ed.current_cycle, 0);
}

#[test]
fn preset_choices_in_catalog_order() {
    let choices = preset_choices(Some(plan(4)), None, Some(plan(3)), plan(1));
    let labels: Vec<&str> = choices.iter().map(|c| c.0.as_str()).collect();
    assert_eq!(labels, vec!["four-phase", "three-phase", "arbitrary assignment"]);
    assert_eq!(choices[1].1.cycles.len(), 3);
    assert!(choose_preset(choices, 3).is_none());
}

#[test]
fn preset_keeps_index_in_range() {
    let mut ed = editor_at(1);
    ed.mode = EditorMode::PresetSelection;
    let mut p = plan(2);
    assert!(ed.step(&mut p, &Vec::new(), wizard(WizardInput::Preset(plan(4)))));
    assert_eq!(ed.current_cycle, 1);
    assert_eq!(p.cycles.len(), 4);
}

#[test]
fn preset_abort_keeps_plan() {
    let mut ed = editor_at(1);
    ed.mode = EditorMode::PresetSelection;
    let mut p = plan(2);
    assert!(ed.step(&mut p, &Vec::new(), wizard(WizardInput::Aborted)));
    assert_eq!(ed.mode, EditorMode::Editing);
    assert_eq!(durations(&p), vec![10, 11]);
}

#[test]
fn quit_ends_session_and_still_commits() {
    let mut ed = editor_at(0);
    let mut edits = MapEdits::new("m".to_string());
    assert!(!ed.blocking_event(plan(2), &Vec::new(), tick(Action::Quit), &mut edits));
    assert_eq!(edits.traffic_signal_overrides.len(), 1);
    assert_eq!(edits.traffic_signal_overrides[&I].cycles.len(), 2);
}

#[test]
fn committing_unchanged_plan_twice_is_one_commit() {
    let mut ed = editor_at(0);
    let mut edits = MapEdits::new("m".to_string());
    assert!(ed.blocking_event(plan(2), &Vec::new(), tick(Action::Nothing), &mut edits));
    let once = edits.describe();
    let current = edits.traffic_signal_overrides[&I].clone();
    assert!(ed.blocking_event(current, &Vec::new(), tick(Action::Nothing), &mut edits));
    assert_eq!(edits.describe(), once);
    assert_eq!(durations(&edits.traffic_signal_overrides[&I]), vec![10, 11]);
}

#[test]
fn new_editor_needs_every_condition() {
    let ed = TrafficSignalEditor::new(Some(3), true, true, true).unwrap();
    assert_eq!(ed.i, 3);
    assert_eq!(ed.current_cycle, 0);
    assert_eq!(ed.mode, EditorMode::Editing);
    assert!(ed.show_turn_icons(3));
    assert!(!ed.show_turn_icons(4));
    assert!(TrafficSignalEditor::new(None, true, true, true).is_none());
    assert!(TrafficSignalEditor::new(Some(3), false, true, true).is_none());
    assert!(TrafficSignalEditor::new(Some(3), true, false, true).is_none());
    assert!(TrafficSignalEditor::new(Some(3), true, true, false).is_none());
}
