//! A small 3D scene bootstrap: the scene that startup spawns, the editor's
//! hotkey bindings, and the engine configuration, described with plain values.
pub mod scene;
pub mod scene_facts;
pub mod editor;
pub mod bootstrap;
