use churl::keymap::{Action, KeyMap};

#[test]
fn run_sequence_shows_submenu_chord() {
    let keymap = KeyMap::default();
    assert_eq!(keymap.leader_combos_for(Action::RunSequence), vec!["s r"]);
    assert!(
        keymap.iter_leader().iter().any(|(_, a)| *a == Action::RunSequence),
        "iter_leader must traverse the submenu maps"
    );
}
