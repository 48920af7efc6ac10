use bevy::prelude::KeyCode;
use bevy_editor_pls::controls::{Action, BindingCondition, Button, EditorControls, UserInput};
use scene_bootstrap::editor::{editor_controls, flycam_vertical_keys, rebind_play_pause, FlycamKeys, HotKey};

fn is_escape_unless_typing(controls: &EditorControls) -> bool {
    let bindings = &controls.actions[&Action::PlayPauseEditor];
    bindings.len() == 1
        && matches!(bindings[0].input, UserInput::Single(Button::Keyboard(KeyCode::Escape)))
        && bindings[0].conditions.len() == 1
        && matches!(bindings[0].conditions[0], BindingCondition::ListeningForText(false))
}

#[test]
fn play_pause_is_bound_to_escape_only() {
    let controls = editor_controls();
    assert!(is_escape_unless_typing(&controls));
    assert_eq!(controls.actions.len(), 4);
    assert_eq!(controls.actions[&Action::SelectMesh].len(), 2);
    assert_eq!(controls.actions[&Action::PauseUnpauseTime].len(), 1);
    assert_eq!(controls.actions[&Action::FocusSelected].len(), 1);
}

#[test]
fn stock_play_pause_binding_is_removed() {
    let stock = EditorControls::default_bindings();
    assert!(matches!(
        stock.actions[&Action::PlayPauseEditor][0].input,
        UserInput::Single(Button::Keyboard(KeyCode::E))
    ));
    let controls = editor_controls();
    let bound_to_e = controls.actions[&Action::PlayPauseEditor]
        .iter()
        .any(|b| matches!(b.input, UserInput::Single(Button::Keyboard(KeyCode::E))));
    assert!(!bound_to_e);
}

#[test]
fn rebinding_an_empty_map_adds_escape() {
    let mut controls = EditorControls::default();
    rebind_play_pause(&mut controls);
    assert!(is_escape_unless_typing(&controls));
    assert_eq!(controls.actions.len(), 1);
}

#[test]
fn rebinding_twice_still_binds_once() {
    let mut controls = editor_controls();
    rebind_play_pause(&mut controls);
    assert!(is_escape_unless_typing(&controls));
}

#[test]
fn flycam_rises_on_e_and_sinks_on_q() {
    assert_eq!(flycam_vertical_keys(), FlycamKeys { up: HotKey::E, down: HotKey::Q });
}
