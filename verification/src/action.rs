//! Actions: what an input event or a console command asks the
//! application to do.

use vstd::prelude::*;

verus! {

/// Switches that the application reads each tick.
#[derive(Clone, Copy, Debug, PartialEq, Eq, Structural)]
pub struct AppConfig {
    pub hide_debug_overlay: bool,
    pub hide_volumes: bool,
    pub should_exit: bool,
}

impl Default for AppConfig {
    fn default() -> (config: Self)
        ensures
            config == (AppConfig {
                hide_debug_overlay: false,
                hide_volumes: false,
                should_exit: false,
            }),
    {
        AppConfig { hide_debug_overlay: false, hide_volumes: false, should_exit: false }
    }
}

/// An action scoped to the application state.
#[derive(Clone, Copy, Debug, PartialEq, Eq, Structural)]
pub enum ConfigAction {
    /// Show & hide collider volume wireframes.
    ToglePaintColliderVolumes,
    /// Show & hide the debugging overlay.
    ToggleDebugOverlay,
    /// Exit the application.
    RequestClose,
}

impl ConfigAction {
    /// The configuration after the action.
    pub open spec fn performed(self, config: AppConfig) -> AppConfig {
        match self {
            ConfigAction::RequestClose => AppConfig { should_exit: true, ..config },
            ConfigAction::ToggleDebugOverlay => AppConfig {
                hide_debug_overlay: !config.hide_debug_overlay,
                ..config
            },
            ConfigAction::ToglePaintColliderVolumes => AppConfig {
                hide_volumes: !config.hide_volumes,
                ..config
            },
        }
    }

    /// Perform & consume the action.
    pub fn perform(self, config: &mut AppConfig)
        ensures
            *final(config) == self.performed(*old(config)),
    {
        match self {
            ConfigAction::RequestClose => {
                config.should_exit = true;
            },
            ConfigAction::ToggleDebugOverlay => {
                config.hide_debug_overlay = !config.hide_debug_overlay;
            },
            ConfigAction::ToglePaintColliderVolumes => {
                config.hide_volumes = !config.hide_volumes;
            },
        }
    }
}

/// An action scoped to the window.
#[derive(Clone, Copy, Debug, PartialEq, Eq, Structural)]
pub enum WindowAction {
    /// Grab cursor & make it invisible.
    GrabCursor,
    /// Ungrab cursor & make it visible.
    UngrabCursor,
}

/// An action scoped to the console.
#[derive(Clone, Copy, Debug, PartialEq, Eq, Structural)]
pub enum ConsoleAction {
    /// Show the console.
    Show,
    /// Hide the console.
    Hide,
    /// Insert a printable ASCII character, given by its code, into the console.
    Insert(u8),
    /// Remove a character from the console at the cursor position.
    Backspace,
    /// Submit the contents of the console & perform the resulting action.
    Submit,
    /// Navigate backwards in the console submission history.
    NavigateBackwards,
    /// Navigate forwards in the console submission history.
    NavigateForwards,
    /// Shift the cursor one character to the left.
    ShiftLeft,
    /// Shift the cursor one character to the right.
    ShiftRight,
    /// Shift the cursor to the beginning of the line.
    ShiftHome,
    /// Shift the cursor to the end of the line.
    ShiftEnd,
}

/// An action scoped to the scene: a movement key went down or up, or the
/// view was panned.
#[derive(Clone, Copy)]
pub enum SceneAction<Pan> {
    Forward(bool),
    Backward(bool),
    Left(bool),
    Right(bool),
    Up(bool),
    Down(bool),
    Pan(Pan),
}

/// Any action, by scope.
#[derive(Clone, Copy)]
pub enum Action<Pan> {
    /// An action scoped to the application state.
    Config(ConfigAction),
    /// An action scoped to the console.
    Console(ConsoleAction),
    /// An action scoped to the scene.
    Scene(SceneAction<Pan>),
    /// An action scoped to the window.
    Window(WindowAction),
}

/// An action on the application state as an action.
impl<Pan> From<ConfigAction> for Action<Pan> {
    fn from(action: ConfigAction) -> (converted: Self) {
        Action::Config(action)
    }
}

impl<Pan> vstd::std_specs::convert::FromSpecImpl<ConfigAction> for Action<Pan> {
    open spec fn obeys_from_spec() -> bool {
        true
    }

    open spec fn from_spec(action: ConfigAction) -> Self {
        Action::Config(action)
    }
}

/// An action on the console as an action.
impl<Pan> From<ConsoleAction> for Action<Pan> {
    fn from(action: ConsoleAction) -> (converted: Self) {
        Action::Console(action)
    }
}

impl<Pan> vstd::std_specs::convert::FromSpecImpl<ConsoleAction> for Action<Pan> {
    open spec fn obeys_from_spec() -> bool {
        true
    }

    open spec fn from_spec(action: ConsoleAction) -> Self {
        Action::Console(action)
    }
}

/// An action on the scene as an action.
impl<Pan> From<SceneAction<Pan>> for Action<Pan> {
    fn from(action: SceneAction<Pan>) -> (converted: Self) {
        Action::Scene(action)
    }
}

impl<Pan> vstd::std_specs::convert::FromSpecImpl<SceneAction<Pan>> for Action<Pan> {
    open spec fn obeys_from_spec() -> bool {
        true
    }

    open spec fn from_spec(action: SceneAction<Pan>) -> Self {
        Action::Scene(action)
    }
}

/// An action on the window as an action.
impl<Pan> From<WindowAction> for Action<Pan> {
    fn from(action: WindowAction) -> (converted: Self) {
        Action::Window(action)
    }
}

impl<Pan> vstd::std_specs::convert::FromSpecImpl<WindowAction> for Action<Pan> {
    open spec fn obeys_from_spec() -> bool {
        true
    }

    open spec fn from_spec(action: WindowAction) -> Self {
        Action::Window(action)
    }
}

} // verus!
