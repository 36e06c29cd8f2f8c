use vstd::prelude::*;

verus! {

/// The entries of the title screen.
#[derive(Debug, Clone, Copy, PartialEq, Eq, Structural)]
pub enum MainMenuButton {
    Start,
    Downloads,
    Multiplayer,
    Options,
    Exit,
    Update,
    Challenges,
}

/// The functions the title screen script calls, each naming the entry it picks.
pub struct Bindings;

impl Bindings {
    pub fn start() -> (b: MainMenuButton)
        ensures
            b == MainMenuButton::Start,
    {
        MainMenuButton::Start
    }

    pub fn d_l_screen() -> (b: MainMenuButton)
        ensures
            b == MainMenuButton::Downloads,
    {
        MainMenuButton::Downloads
    }

    pub fn multiplayer() -> (b: MainMenuButton)
        ensures
            b == MainMenuButton::Multiplayer,
    {
        MainMenuButton::Multiplayer
    }

    pub fn exit() -> (b: MainMenuButton)
        ensures
            b == MainMenuButton::Exit,
    {
        MainMenuButton::Exit
    }

    pub fn settings() -> (b: MainMenuButton)
        ensures
            b == MainMenuButton::Options,
    {
        MainMenuButton::Options
    }

    pub fn update() -> (b: MainMenuButton)
        ensures
            b == MainMenuButton::Update,
    {
        MainMenuButton::Update
    }

    pub fn challenges() -> (b: MainMenuButton)
        ensures
            b == MainMenuButton::Challenges,
    {
        MainMenuButton::Challenges
    }
}

/// What the game does when a title screen entry is picked.
#[derive(Debug, Clone, Copy, PartialEq, Eq, Structural)]
pub enum MenuAction {
    /// Suspend the title screen and play the transition to the next screen.
    Transition,
    /// Close every screen, which ends the game.
    CloseAll,
    /// Open the settings screen over the title screen.
    OpenSettings,
    Nothing,
}

/// Start and multiplayer move on through a transition, exit closes everything, options
/// opens the settings; the other entries do nothing yet.
pub fn menu_action(button: MainMenuButton) -> (a: MenuAction)
    ensures
        a == match button {
            MainMenuButton::Start | MainMenuButton::Multiplayer => MenuAction::Transition,
            MainMenuButton::Exit => MenuAction::CloseAll,
            MainMenuButton::Options => MenuAction::OpenSettings,
            _ => MenuAction::Nothing,
        },
{
    match button {
        MainMenuButton::Start => MenuAction::Transition,
        MainMenuButton::Multiplayer => MenuAction::Transition,
        MainMenuButton::Downloads => MenuAction::Nothing,
        MainMenuButton::Exit => MenuAction::CloseAll,
        MainMenuButton::Options => MenuAction::OpenSettings,
        _ => MenuAction::Nothing,
    }
}

/// A mouse button, as the window reports it.
#[derive(Debug, Clone, Copy, PartialEq, Eq, Structural)]
pub enum MouseButton {
    Left,
    Right,
    Middle,
    Back,
    Forward,
    Other(u16),
}

/// The number a skin script receives for a mouse button: 0 left, 1 middle, 2 right,
/// 3 forward, 4 back, and its own number for any other button.
pub fn mouse_button_code(button: MouseButton) -> (n: u16)
    ensures
        n == match button {
            MouseButton::Left => 0,
            MouseButton::Middle => 1,
            MouseButton::Right => 2,
            MouseButton::Forward => 3,
            MouseButton::Back => 4,
            MouseButton::Other(b) => b,
        },
{
    match button {
        MouseButton::Left => 0,
        MouseButton::Right => 2,
        MouseButton::Middle => 1,
        MouseButton::Forward => 3,
        MouseButton::Back => 4,
        MouseButton::Other(b) => b,
    }
}

} // verus!
