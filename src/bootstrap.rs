//! The application's engine configuration: window, assets and renderer
//! settings, the plugins to register and the startup steps to run. The
//! editor build differs only in the lists it produces.
use vstd::prelude::*;

verus! {

/// Frame pacing of the window's swap chain.
#[derive(Clone, Copy, Debug, PartialEq, Eq, Structural)]
pub enum PresentMode {
    /// Wait for vertical sync.
    Fifo,
}

pub struct WindowSettings {
    /// Width in pixels.
    pub width: u32,
    /// Height in pixels.
    pub height: u32,
    pub title: String,
    pub present_mode: PresentMode,
    pub resizable: bool,
    pub decorations: bool,
}

pub struct EngineSettings {
    pub window: WindowSettings,
    /// Reload asset files when they change on disk.
    pub watch_for_changes: bool,
    /// Enable the renderer's line polygon mode, for wireframes.
    pub polygon_mode_line: bool,
}

/// The engine plugins this application registers.
#[derive(Clone, Copy, Debug, PartialEq, Eq, Structural)]
pub enum EnginePlugin {
    /// The engine's standard rendering, windowing and input set.
    Defaults,
    /// Rigid-body physics, without user data on colliders.
    RapierPhysics,
    FrameTimeDiagnostics,
    EntityCountDiagnostics,
    /// The in-process scene editor, with its controls rebound.
    Editor,
    LookTransform,
    FpsCamera,
}

/// The steps run once at startup, before the first frame.
#[derive(Clone, Copy, Debug, PartialEq, Eq, Structural)]
pub enum StartupStep {
    /// Rebind the editor free camera's up and down keys.
    FlycamKeys,
    /// Spawn the scene's entities.
    SpawnScene,
}

pub open spec fn window_title() -> Seq<char> {
    "Bevy Jam 2.0 - Combine"@
}

/// Plugins in registration order; the editor build adds diagnostics and
/// the editor between physics and the camera plugins.
pub open spec fn plugin_order(editor: bool) -> Seq<EnginePlugin> {
    if editor {
        seq![
            EnginePlugin::Defaults,
            EnginePlugin::RapierPhysics,
            EnginePlugin::FrameTimeDiagnostics,
            EnginePlugin::EntityCountDiagnostics,
            EnginePlugin::Editor,
            EnginePlugin::LookTransform,
            EnginePlugin::FpsCamera,
        ]
    } else {
        seq![
            EnginePlugin::Defaults,
            EnginePlugin::RapierPhysics,
            EnginePlugin::LookTransform,
            EnginePlugin::FpsCamera,
        ]
    }
}

/// Startup steps in the order they are added.
pub open spec fn startup_order(editor: bool) -> Seq<StartupStep> {
    if editor {
        seq![StartupStep::FlycamKeys, StartupStep::SpawnScene]
    } else {
        seq![StartupStep::SpawnScene]
    }
}

/// A fixed 1280 x 720 window without decorations, vsync, hot reload of
/// assets and wireframe support.
pub fn engine_settings() -> (r: EngineSettings)
    ensures
        r.window.width == 1280,
        r.window.height == 720,
        r.window.title@ == window_title(),
        r.window.present_mode == PresentMode::Fifo,
        !r.window.resizable,
        !r.window.decorations,
        r.watch_for_changes,
        r.polygon_mode_line,
{
    let title = "Bevy Jam 2.0 - Combine".to_owned();
    proof {
        reveal_strlit("Bevy Jam 2.0 - Combine");
    }
    EngineSettings {
        window: WindowSettings {
            width: 1280,
            height: 720,
            title,
            present_mode: PresentMode::Fifo,
            resizable: false,
            decorations: false,
        },
        watch_for_changes: true,
        polygon_mode_line: true,
    }
}

/// The plugins to register, in order, for the editor build or the plain one.
pub fn plugins(editor: bool) -> (r: Vec<EnginePlugin>)
    ensures
        r@ == plugin_order(editor),
{
    let mut r: Vec<EnginePlugin> = Vec::new();
    r.push(EnginePlugin::Defaults);
    r.push(EnginePlugin::RapierPhysics);
    if editor {
        r.push(EnginePlugin::FrameTimeDiagnostics);
        r.push(EnginePlugin::EntityCountDiagnostics);
        r.push(EnginePlugin::Editor);
    }
    r.push(EnginePlugin::LookTransform);
    r.push(EnginePlugin::FpsCamera);
    assert(r@ =~= plugin_order(editor));
    r
}

/// The startup steps to run, in order.
pub fn startup_steps(editor: bool) -> (r: Vec<StartupStep>)
    ensures
        r@ == startup_order(editor),
{
    let mut r: Vec<StartupStep> = Vec::new();
    if editor {
        r.push(StartupStep::FlycamKeys);
    }
    r.push(StartupStep::SpawnScene);
    assert(r@ =~= startup_order(editor));
    r
}

} // verus!
