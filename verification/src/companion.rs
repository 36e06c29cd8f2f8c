use vstd::prelude::*;
use crate::buttons::UscButton;

verus! {

/// What the game tells a companion app about the screen it shows, with the song-select
/// filter and sort kinds as `F` and `S`.
#[derive(Debug, Clone)]
pub enum GameState<F, S> {
    NoState,
    TitleScreen,
    SongSelect {
        search_string: String,
        level_filter: u8,
        folder_filter_index: usize,
        sort_index: usize,
        filters: Vec<F>,
        sorts: Vec<S>,
    },
}

/// A request of a companion app.
#[derive(Debug, Clone)]
pub enum ClientEvent<F, S> {
    /// A message that could not be read, as it came.
    Invalid(String),
    Start,
    Back,
    SetSearch(String),
    SetLevelFilter(u8),
    SetSongFilterType(F),
    SetSongSort(S),
}

/// What the game does with a companion request: press and release a button, or hand the
/// request to the current screen.
#[derive(Debug, Clone)]
pub enum CompanionInput<F, S> {
    Click(UscButton),
    Forward(ClientEvent<F, S>),
}

/// Start and back become clicks of those buttons; every other request goes to the screen
/// as it is.
pub fn companion_input<F, S>(e: ClientEvent<F, S>) -> (r: CompanionInput<F, S>)
    ensures
        e is Start ==> r == CompanionInput::<F, S>::Click(UscButton::Start),
        e is Back ==> r == CompanionInput::<F, S>::Click(UscButton::Back),
        !(e is Start || e is Back) ==> r == CompanionInput::<F, S>::Forward(e),
{
    match e {
        ClientEvent::Start => CompanionInput::Click(UscButton::Start),
        ClientEvent::Back => CompanionInput::Click(UscButton::Back),
        e => CompanionInput::Forward(e),
    }
}

} // verus!
