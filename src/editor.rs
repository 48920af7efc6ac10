//! The in-process editor's hotkeys: play/pause moves from its default key to
//! Escape, and the free camera rises and sinks on E and Q.
use vstd::prelude::*;
use bevy::prelude::KeyCode;
use bevy_editor_pls::controls::{
    Action, Binding, BindingCondition, Button, EditorControls, UserInput,
};

verus! {

#[verifier::external_type_specification]
#[verifier::external_body]
pub struct ExEditorControls(bevy_editor_pls::controls::EditorControls);

/// The editor actions that bindings trigger.
#[derive(Clone, Copy, Debug, PartialEq, Eq, Structural)]
pub enum EditorAction {
    PlayPauseEditor,
    SelectMesh,
    PauseUnpauseTime,
    FocusSelected,
}

/// The keyboard keys that this library binds.
#[derive(Clone, Copy, Debug, PartialEq, Eq, Structural)]
pub enum HotKey {
    Escape,
    E,
    Q,
}

/// A binding to one key, active only while a UI field is (or is not)
/// listening for text.
#[derive(Clone, Copy, Debug, PartialEq, Eq, Structural)]
pub struct KeyBinding {
    pub key: HotKey,
    pub listening_for_text: bool,
}

/// What `c` holds: for each action that has bindings, its bindings in the
/// order they were inserted. A binding to a single key of `HotKey` whose one
/// condition is on text input shows as `Some`; any other binding as `None`.
pub uninterp spec fn bindings_of(c: EditorControls) -> Map<EditorAction, Seq<Option<KeyBinding>>>;

/// The editor's stock bindings: Ctrl+Return pauses time, two mouse bindings
/// select a mesh, E plays or pauses the editor, F focuses the selection.
pub open spec fn stock_bindings() -> Map<EditorAction, Seq<Option<KeyBinding>>> {
    map![
        EditorAction::PauseUnpauseTime => seq![None],
        EditorAction::SelectMesh => seq![None, None],
        EditorAction::PlayPauseEditor => seq![
            Some(KeyBinding { key: HotKey::E, listening_for_text: false }),
        ],
        EditorAction::FocusSelected => seq![None],
    ]
}

/// The bindings of `a` in `m`, none if it has no entry.
pub open spec fn bindings_for(
    m: Map<EditorAction, Seq<Option<KeyBinding>>>,
    a: EditorAction,
) -> Seq<Option<KeyBinding>> {
    if m.contains_key(a) {
        m[a]
    } else {
        Seq::empty()
    }
}

/// Escape, unless a UI field is listening for text.
pub open spec fn escape_binding() -> KeyBinding {
    KeyBinding { key: HotKey::Escape, listening_for_text: false }
}

/// `m` with every play/pause binding dropped and Escape bound in their place.
pub open spec fn play_pause_on_escape(
    m: Map<EditorAction, Seq<Option<KeyBinding>>>,
) -> Map<EditorAction, Seq<Option<KeyBinding>>> {
    m.remove(EditorAction::PlayPauseEditor).insert(
        EditorAction::PlayPauseEditor,
        seq![Some(escape_binding())],
    )
}

/// Relies on `EditorControls::default_bindings`, which inserts the five stock
/// bindings one by one into an empty map.
#[verifier::external_body]
fn stock_controls() -> (r: EditorControls)
    ensures
        bindings_of(r) == stock_bindings(),
{
    EditorControls::default_bindings()
}

/// Relies on `EditorControls::unbind`, which removes the action's entry.
#[verifier::external_body]
fn unbind(c: &mut EditorControls, a: EditorAction)
    ensures
        bindings_of(*final(c)) == bindings_of(*old(c)).remove(a),
{
    c.unbind(
        match a {
            EditorAction::PlayPauseEditor => Action::PlayPauseEditor,
            EditorAction::SelectMesh => Action::SelectMesh,
            EditorAction::PauseUnpauseTime => Action::PauseUnpauseTime,
            EditorAction::FocusSelected => Action::FocusSelected,
        },
    )
}

/// Relies on `EditorControls::insert`, which appends the binding to the
/// action's list, creating the list if the action has none.
#[verifier::external_body]
fn insert(c: &mut EditorControls, a: EditorAction, b: KeyBinding)
    ensures
        bindings_of(*final(c)) == bindings_of(*old(c)).insert(
            a,
            bindings_for(bindings_of(*old(c)), a).push(Some(b)),
        ),
{
    let action = match a {
        EditorAction::PlayPauseEditor => Action::PlayPauseEditor,
        EditorAction::SelectMesh => Action::SelectMesh,
        EditorAction::PauseUnpauseTime => Action::PauseUnpauseTime,
        EditorAction::FocusSelected => Action::FocusSelected,
    };
    let key = match b.key {
        HotKey::Escape => KeyCode::Escape,
        HotKey::E => KeyCode::E,
        HotKey::Q => KeyCode::Q,
    };
    let conditions = vec![BindingCondition::ListeningForText(b.listening_for_text)];
    c.insert(action, Binding { input: UserInput::Single(Button::Keyboard(key)), conditions })
}

/// Moves play/pause to Escape: drops whatever bound it and binds Escape,
/// active while no UI field is listening for text. Other actions keep theirs.
pub fn rebind_play_pause(controls: &mut EditorControls)
    ensures
        bindings_of(*final(controls)) == play_pause_on_escape(bindings_of(*old(controls))),
{
    unbind(controls, EditorAction::PlayPauseEditor);
    let escape = KeyBinding { key: HotKey::Escape, listening_for_text: false };
    insert(controls, EditorAction::PlayPauseEditor, escape);
    assert(bindings_of(*controls) =~= play_pause_on_escape(bindings_of(*old(controls))));
}

/// The editor's stock bindings, with play/pause moved to Escape.
pub fn editor_controls() -> (r: EditorControls)
    ensures
        bindings_of(r) == play_pause_on_escape(stock_bindings()),
{
    let mut controls = stock_controls();
    rebind_play_pause(&mut controls);
    controls
}

/// After the rebinding, play/pause has exactly one binding, Escape while no
/// UI field listens for text; the binding it had before is gone, and every
/// other action keeps its bindings.
pub proof fn play_pause_bound_once(m: Map<EditorAction, Seq<Option<KeyBinding>>>)
    ensures
        play_pause_on_escape(m)[EditorAction::PlayPauseEditor] == seq![Some(escape_binding())],
        forall|b: KeyBinding|
            play_pause_on_escape(m)[EditorAction::PlayPauseEditor].contains(Some(b)) ==> b
                == escape_binding(),
        forall|a: EditorAction|
            a != EditorAction::PlayPauseEditor ==> bindings_for(play_pause_on_escape(m), a)
                == bindings_for(m, a),
{
    let s = play_pause_on_escape(m)[EditorAction::PlayPauseEditor];
    assert forall|b: KeyBinding| s.contains(Some(b)) implies b == escape_binding() by {
        let i = choose|i: int| 0 <= i < s.len() && s[i] == Some(b);
        assert(s[i] == Some(escape_binding()));
    }
}

/// In the editor's bindings the stock E binding for play/pause is gone.
pub proof fn stock_play_pause_unbound()
    ensures
        !play_pause_on_escape(stock_bindings())[EditorAction::PlayPauseEditor].contains(
            Some(KeyBinding { key: HotKey::E, listening_for_text: false }),
        ),
{
    play_pause_bound_once(stock_bindings());
}

/// The keys that move the editor's free camera up and down.
#[derive(Clone, Copy, Debug, PartialEq, Eq, Structural)]
pub struct FlycamKeys {
    pub up: HotKey,
    pub down: HotKey,
}

/// E rises and Q sinks.
pub fn flycam_vertical_keys() -> (r: FlycamKeys)
    ensures
        r == (FlycamKeys { up: HotKey::E, down: HotKey::Q }),
{
    FlycamKeys { up: HotKey::E, down: HotKey::Q }
}

} // verus!
