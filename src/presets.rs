use vstd::prelude::*;
use vstd::string::StringExecFns;
use crate::signal::ControlTrafficSignal;

verus! {

/// A labelled entry for an offered preset, or none for a preset the map
/// could not produce.
pub open spec fn entry(label: Seq<char>, plan: Option<ControlTrafficSignal>) -> Seq<
    (Seq<char>, ControlTrafficSignal),
> {
    match plan {
        Some(p) => seq![(label, p)],
        None => Seq::empty(),
    }
}

/// The presets offered, in order: four-phase, two-phase and three-phase where
/// the map produced them, and the arbitrary assignment always.
pub open spec fn catalog(
    four_phase: Option<ControlTrafficSignal>,
    two_phase: Option<ControlTrafficSignal>,
    three_way: Option<ControlTrafficSignal>,
    arbitrary: ControlTrafficSignal,
) -> Seq<(Seq<char>, ControlTrafficSignal)> {
    entry("four-phase"@, four_phase) + entry("two-phase"@, two_phase) + entry(
        "three-phase"@,
        three_way,
    ) + seq![("arbitrary assignment"@, arbitrary)]
}

/// The list holds exactly the labelled plans of `c`, in order.
pub open spec fn lists(v: Seq<(String, ControlTrafficSignal)>, c: Seq<(Seq<char>, ControlTrafficSignal)>) -> bool {
    &&& v.len() == c.len()
    &&& forall|k: int| 0 <= k < v.len() ==> (#[trigger] v[k]).0@ == c[k].0 && v[k].1 == c[k].1
}

fn push_entry(
    choices: &mut Vec<(String, ControlTrafficSignal)>,
    label: &str,
    plan: Option<ControlTrafficSignal>,
    Ghost(prefix): Ghost<Seq<(Seq<char>, ControlTrafficSignal)>>,
)
    requires
        lists(old(choices)@, prefix),
    ensures
        lists(final(choices)@, prefix + entry(label@, plan)),
{
    match plan {
        Some(p) => {
            choices.push((String::from_str(label), p));
        },
        None => {},
    }
    assert(lists(choices@, prefix + entry(label@, plan)));
}

/// Lists the presets to choose from, labelled, in the catalog's order.
pub fn preset_choices(
    four_phase: Option<ControlTrafficSignal>,
    two_phase: Option<ControlTrafficSignal>,
    three_way: Option<ControlTrafficSignal>,
    arbitrary: ControlTrafficSignal,
) -> (r: Vec<(String, ControlTrafficSignal)>)
    ensures
        lists(r@, catalog(four_phase, two_phase, three_way, arbitrary)),
{
    let ghost c = catalog(four_phase, two_phase, three_way, arbitrary);
    let ghost e1 = entry("four-phase"@, four_phase);
    let ghost e2 = entry("two-phase"@, two_phase);
    let ghost e3 = entry("three-phase"@, three_way);
    proof {
        reveal_strlit("four-phase");
        reveal_strlit("two-phase");
        reveal_strlit("three-phase");
        reveal_strlit("arbitrary assignment");
    }
    let mut choices: Vec<(String, ControlTrafficSignal)> = Vec::new();
    push_entry(&mut choices, "four-phase", four_phase, Ghost(Seq::empty()));
    assert(Seq::<(Seq<char>, ControlTrafficSignal)>::empty() + e1 =~= e1);
    push_entry(&mut choices, "two-phase", two_phase, Ghost(e1));
    push_entry(&mut choices, "three-phase", three_way, Ghost(e1 + e2));
    choices.push((String::from_str("arbitrary assignment"), arbitrary));
    assert(lists(choices@, c));
    choices
}

/// The plan of the chosen entry, or `None` where the choice is not in the list.
pub fn choose_preset(choices: Vec<(String, ControlTrafficSignal)>, choice: usize) -> (r: Option<
    ControlTrafficSignal,
>)
    ensures
        r == (if choice < choices@.len() {
            Some(choices@[choice as int].1)
        } else {
            None
        }),
{
    let mut choices = choices;
    if choice < choices.len() {
        let (_, plan) = choices.remove(choice);
        Some(plan)
    } else {
        None
    }
}

/// Whatever the map produced, the arbitrary assignment is offered, as the
/// last choice.
pub proof fn lemma_arbitrary_always_offered(
    four_phase: Option<ControlTrafficSignal>,
    two_phase: Option<ControlTrafficSignal>,
    three_way: Option<ControlTrafficSignal>,
    arbitrary: ControlTrafficSignal,
)
    ensures
        catalog(four_phase, two_phase, three_way, arbitrary).len() >= 1,
        catalog(four_phase, two_phase, three_way, arbitrary).last() == ("arbitrary assignment"@,
        arbitrary),
{
}

} // verus!
