use roguelike::bindings::keybindings;
use roguelike::schedule::{
    all_steps, gate_of, phase_of, pre_update_jobs, set_of, set_order, startup_jobs, waits_for,
    Earlier, Gate, Job, Phase, RoguelikeSet, Step,
};

#[test]
fn keybindings_are_listed_in_order() {
    let list = keybindings();
    let keys: Vec<&str> = list.iter().map(|b| b.key).collect();
    assert_eq!(
        keys,
        vec!["WASD / ↑↓←→", "IJKL", "C", "V", "R", "F", "T", "G", "E", "1-6", "Q"]
    );
    assert_eq!(list[0].name, "Move (3 ticks)");
    assert_eq!(
        list[0].docs,
        "Move the player one tile. Physical movement costs 3 ticks and 2 stamina."
    );
    assert_eq!(list[10].docs, "Toggle pause menu");
}

#[test]
fn categories_are_those_of_the_menu() {
    for entry in keybindings() {
        assert!(["Movement", "Combat", "Inventory", "Other"].contains(&entry.category));
    }
}

#[test]
fn sets_run_in_order() {
    assert_eq!(
        set_order(),
        vec![
            RoguelikeSet::Index,
            RoguelikeSet::Action,
            RoguelikeSet::Consequence,
            RoguelikeSet::Render,
        ]
    );
}

#[test]
fn jobs_of_the_start_and_before_the_frame() {
    assert_eq!(startup_jobs(), vec![Job::SpawnPlayer, Job::SpawnMonsters]);
    assert_eq!(pre_update_jobs(), vec![Job::Input, Job::Restart]);
    for job in startup_jobs() {
        assert_eq!(phase_of(job), Phase::Startup);
    }
    for job in pre_update_jobs() {
        assert_eq!(phase_of(job), Phase::PreUpdate);
    }
    assert_eq!(phase_of(Job::Frame(Step::Draw)), Phase::Update);
}

#[test]
fn steps_come_behind_what_they_wait_for() {
    let steps = all_steps();
    assert_eq!(steps.len(), 28);
    for (place, step) in steps.iter().enumerate() {
        for earlier in waits_for(*step) {
            for (other_place, other) in steps.iter().enumerate() {
                let awaited = match earlier {
                    Earlier::OneStep(awaited) => *other == awaited,
                    Earlier::WholeSet(set) => set_of(*other) == Some(set),
                };
                assert!(!awaited || other_place < place);
            }
        }
    }
}

#[test]
fn gates() {
    assert_eq!(gate_of(Step::Movement), Gate::Playing);
    assert_eq!(gate_of(Step::Visibility), Gate::Playing);
    assert_eq!(gate_of(Step::Draw), Gate::Always);
    assert_eq!(gate_of(Step::EndPlayerTurn), Gate::PlayerTurn);
    assert_eq!(gate_of(Step::Fire), Gate::WorldTurn);
    assert_eq!(set_of(Step::VictoryCheck), Some(RoguelikeSet::Action));
    assert_eq!(set_of(Step::Ai), None);
    assert_eq!(waits_for(Step::Movement), vec![]);
}
