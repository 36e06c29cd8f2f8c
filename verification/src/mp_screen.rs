use vstd::prelude::*;

verus! {

/// Whether the multiplayer service is connected to its server.
#[derive(Debug, Clone, Copy, PartialEq, Eq, Structural)]
pub enum MultiplayerState {
    Disconnected,
    Connected,
}

/// The screens of the multiplayer lobby, with the text being typed where there is one.
#[derive(Debug, Clone, PartialEq)]
pub enum MultiplayerScreenState {
    SetUsername(String),
    RoomList,
    /// (password, room id)
    PasswordScreen(String, String),
    NewRoomName(String),
    /// (password, name)
    NewRoomPassword(String, String),
    InRoom,
}

/// The kind of a lobby screen, without its text.
#[derive(Debug, Clone, Copy, PartialEq, Eq, Structural)]
pub enum MultiplayerScreenStateDiscriminants {
    SetUsername,
    RoomList,
    PasswordScreen,
    NewRoomName,
    NewRoomPassword,
    InRoom,
}

/// A lobby screen with its text as character sequences.
pub enum ScreenView {
    SetUsername(Seq<char>),
    RoomList,
    PasswordScreen(Seq<char>, Seq<char>),
    NewRoomName(Seq<char>),
    NewRoomPassword(Seq<char>, Seq<char>),
    InRoom,
}

impl View for MultiplayerScreenState {
    type V = ScreenView;

    open spec fn view(&self) -> ScreenView {
        match self {
            MultiplayerScreenState::SetUsername(t) => ScreenView::SetUsername(t@),
            MultiplayerScreenState::RoomList => ScreenView::RoomList,
            MultiplayerScreenState::PasswordScreen(p, r) => ScreenView::PasswordScreen(p@, r@),
            MultiplayerScreenState::NewRoomName(n) => ScreenView::NewRoomName(n@),
            MultiplayerScreenState::NewRoomPassword(p, n) => ScreenView::NewRoomPassword(p@, n@),
            MultiplayerScreenState::InRoom => ScreenView::InRoom,
        }
    }
}

/// A command the lobby script sends.
#[derive(Clone, Debug)]
pub enum MpScreenCommand {
    OpenSettings,
    SelectSong,
    BeginJoinWithPassword(String),
    JoinWithPassword,
    JoinWithoutPassword(String),
    NewRoomStep,
    SaveUsername,
    Exit,
}

/// A lobby command with its text as character sequences.
pub enum CommandView {
    OpenSettings,
    SelectSong,
    BeginJoinWithPassword(Seq<char>),
    JoinWithPassword,
    JoinWithoutPassword(Seq<char>),
    NewRoomStep,
    SaveUsername,
    Exit,
}

impl View for MpScreenCommand {
    type V = CommandView;

    open spec fn view(&self) -> CommandView {
        match self {
            MpScreenCommand::OpenSettings => CommandView::OpenSettings,
            MpScreenCommand::SelectSong => CommandView::SelectSong,
            MpScreenCommand::BeginJoinWithPassword(r) => CommandView::BeginJoinWithPassword(r@),
            MpScreenCommand::JoinWithPassword => CommandView::JoinWithPassword,
            MpScreenCommand::JoinWithoutPassword(r) => CommandView::JoinWithoutPassword(r@),
            MpScreenCommand::NewRoomStep => CommandView::NewRoomStep,
            MpScreenCommand::SaveUsername => CommandView::SaveUsername,
            MpScreenCommand::Exit => CommandView::Exit,
        }
    }
}

/// The functions the lobby script calls, each naming the command it sends.
pub struct MpScreen;

impl MpScreen {
    pub fn open_settings() -> (c: MpScreenCommand)
        ensures
            c@ == CommandView::OpenSettings,
    {
        MpScreenCommand::OpenSettings
    }

    pub fn select_song() -> (c: MpScreenCommand)
        ensures
            c@ == CommandView::SelectSong,
    {
        MpScreenCommand::SelectSong
    }

    /// With a room id, asks for that room's password; without one, joins with the
    /// password typed so far.
    pub fn join_with_password(room_id: Option<String>) -> (c: MpScreenCommand)
        ensures
            c@ == match room_id {
                Some(r) => CommandView::BeginJoinWithPassword(r@),
                None => CommandView::JoinWithPassword,
            },
    {
        match room_id {
            Some(room_id) => MpScreenCommand::BeginJoinWithPassword(room_id),
            None => MpScreenCommand::JoinWithPassword,
        }
    }

    pub fn join_without_password(room_id: String) -> (c: MpScreenCommand)
        ensures
            c@ == CommandView::JoinWithoutPassword(room_id@),
    {
        MpScreenCommand::JoinWithoutPassword(room_id)
    }

    pub fn new_room_step() -> (c: MpScreenCommand)
        ensures
            c@ == CommandView::NewRoomStep,
    {
        MpScreenCommand::NewRoomStep
    }

    pub fn save_username() -> (c: MpScreenCommand)
        ensures
            c@ == CommandView::SaveUsername,
    {
        MpScreenCommand::SaveUsername
    }

    pub fn exit() -> (c: MpScreenCommand)
        ensures
            c@ == CommandView::Exit,
    {
        MpScreenCommand::Exit
    }
}

/// What the lobby does in answer to a command, besides changing screen.
#[derive(Clone, Debug)]
pub enum ScreenAction {
    Nothing,
    ShowSongDialog,
    /// Ask the server to join a room, with a password or without one.
    JoinRoom { id: String, password: Option<String> },
    /// Ask the server to create a room, with a password or without one.
    NewRoom { name: String, password: Option<String> },
    /// Store the user name in the configuration and log in with it.
    SaveUsername(String),
    Close,
}

/// An action with its text as character sequences.
pub enum ActionView {
    Nothing,
    ShowSongDialog,
    JoinRoom { id: Seq<char>, password: Option<Seq<char>> },
    NewRoom { name: Seq<char>, password: Option<Seq<char>> },
    SaveUsername(Seq<char>),
    Close,
}

pub open spec fn opt_view(o: Option<String>) -> Option<Seq<char>> {
    match o {
        Some(s) => Some(s@),
        None => None,
    }
}

impl View for ScreenAction {
    type V = ActionView;

    open spec fn view(&self) -> ActionView {
        match self {
            ScreenAction::Nothing => ActionView::Nothing,
            ScreenAction::ShowSongDialog => ActionView::ShowSongDialog,
            ScreenAction::JoinRoom { id, password } => ActionView::JoinRoom {
                id: id@,
                password: opt_view(*password),
            },
            ScreenAction::NewRoom { name, password } => ActionView::NewRoom {
                name: name@,
                password: opt_view(*password),
            },
            ScreenAction::SaveUsername(n) => ActionView::SaveUsername(n@),
            ScreenAction::Close => ActionView::Close,
        }
    }
}

/// The screen and action that a lobby command leads to.
pub open spec fn command_step(s: ScreenView, c: CommandView) -> (ScreenView, ActionView) {
    match (c, s) {
        (CommandView::OpenSettings, _) => (s, ActionView::Nothing),
        (CommandView::SelectSong, _) => (s, ActionView::ShowSongDialog),
        (CommandView::BeginJoinWithPassword(room_id), ScreenView::RoomList) => (
            ScreenView::PasswordScreen(seq![], room_id),
            ActionView::Nothing,
        ),
        (CommandView::JoinWithPassword, ScreenView::PasswordScreen(password, room_id)) => (
            s,
            ActionView::JoinRoom { id: room_id, password: Some(password) },
        ),
        (CommandView::JoinWithoutPassword(room_id), ScreenView::RoomList) => (
            s,
            ActionView::JoinRoom { id: room_id, password: None },
        ),
        (CommandView::NewRoomStep, ScreenView::NewRoomName(name)) => (
            ScreenView::NewRoomPassword(seq![], name),
            ActionView::Nothing,
        ),
        (CommandView::NewRoomStep, ScreenView::NewRoomPassword(password, name)) => (
            ScreenView::RoomList,
            ActionView::NewRoom {
                name,
                password: if password.len() == 0 {
                    None
                } else {
                    Some(password)
                },
            },
        ),
        (CommandView::NewRoomStep, _) => (ScreenView::NewRoomName(seq![]), ActionView::Nothing),
        (CommandView::SaveUsername, ScreenView::SetUsername(name)) => (
            s,
            if name.len() > 0 {
                ActionView::SaveUsername(name)
            } else {
                ActionView::Nothing
            },
        ),
        (CommandView::Exit, _) => (s, ActionView::Close),
        _ => (s, ActionView::Nothing),
    }
}

/// The screen and action that confirming the typed text leads to.
pub open spec fn submit_step(s: ScreenView) -> (ScreenView, ActionView) {
    match s {
        ScreenView::SetUsername(name) => (ScreenView::RoomList, ActionView::SaveUsername(name)),
        ScreenView::PasswordScreen(password, id) => (
            s,
            ActionView::JoinRoom { id, password: Some(password) },
        ),
        _ => (s, ActionView::Nothing),
    }
}

/// The text being typed on a screen, if it has one.
pub open spec fn typed_text(s: ScreenView) -> Option<Seq<char>> {
    match s {
        ScreenView::SetUsername(t) => Some(t),
        ScreenView::PasswordScreen(t, _) => Some(t),
        ScreenView::NewRoomName(t) => Some(t),
        ScreenView::NewRoomPassword(t, _) => Some(t),
        _ => None,
    }
}

impl MultiplayerScreenState {
    /// The screen's name as the lobby script knows it.
    pub fn as_str(&self) -> (s: &'static str)
        ensures
            s@ == match self@ {
                ScreenView::SetUsername(_) => "setUsername"@,
                ScreenView::RoomList => "roomList"@,
                ScreenView::PasswordScreen(..) => "passwordScreen"@,
                ScreenView::NewRoomName(_) => "newRoomName"@,
                ScreenView::NewRoomPassword(..) => "newRoomPassword"@,
                ScreenView::InRoom => "inRoom"@,
            },
    {
        match self {
            MultiplayerScreenState::SetUsername(_) => "setUsername",
            MultiplayerScreenState::RoomList => "roomList",
            MultiplayerScreenState::PasswordScreen(..) => "passwordScreen",
            MultiplayerScreenState::NewRoomName(_) => "newRoomName",
            MultiplayerScreenState::NewRoomPassword(..) => "newRoomPassword",
            MultiplayerScreenState::InRoom => "inRoom",
        }
    }

    /// Whether the screen takes typed text.
    pub fn text_state(&self) -> (b: bool)
        ensures
            b == typed_text(self@) is Some,
    {
        match self {
            MultiplayerScreenState::SetUsername(_) => true,
            MultiplayerScreenState::RoomList => false,
            MultiplayerScreenState::PasswordScreen(..) => true,
            MultiplayerScreenState::NewRoomName(_) => true,
            MultiplayerScreenState::NewRoomPassword(..) => true,
            MultiplayerScreenState::InRoom => false,
        }
    }

    /// The kind of the screen.
    pub fn discriminant(&self) -> (d: MultiplayerScreenStateDiscriminants)
        ensures
            d == match self@ {
                ScreenView::SetUsername(_) => MultiplayerScreenStateDiscriminants::SetUsername,
                ScreenView::RoomList => MultiplayerScreenStateDiscriminants::RoomList,
                ScreenView::PasswordScreen(..) => MultiplayerScreenStateDiscriminants::PasswordScreen,
                ScreenView::NewRoomName(_) => MultiplayerScreenStateDiscriminants::NewRoomName,
                ScreenView::NewRoomPassword(..) => MultiplayerScreenStateDiscriminants::NewRoomPassword,
                ScreenView::InRoom => MultiplayerScreenStateDiscriminants::InRoom,
            },
    {
        match self {
            MultiplayerScreenState::SetUsername(_) => MultiplayerScreenStateDiscriminants::SetUsername,
            MultiplayerScreenState::RoomList => MultiplayerScreenStateDiscriminants::RoomList,
            MultiplayerScreenState::PasswordScreen(..) => MultiplayerScreenStateDiscriminants::PasswordScreen,
            MultiplayerScreenState::NewRoomName(_) => MultiplayerScreenStateDiscriminants::NewRoomName,
            MultiplayerScreenState::NewRoomPassword(..) => MultiplayerScreenStateDiscriminants::NewRoomPassword,
            MultiplayerScreenState::InRoom => MultiplayerScreenStateDiscriminants::InRoom,
        }
    }

    /// The text being typed on this screen, if it takes text.
    pub fn text_input(&self) -> (t: Option<String>)
        ensures
            opt_view(t) == typed_text(self@),
    {
        match self {
            MultiplayerScreenState::SetUsername(t) => Some(t.clone()),
            MultiplayerScreenState::PasswordScreen(t, _) => Some(t.clone()),
            MultiplayerScreenState::NewRoomName(t) => Some(t.clone()),
            MultiplayerScreenState::NewRoomPassword(t, _) => Some(t.clone()),
            _ => None,
        }
    }
}

/// Applies a command of the lobby script: returns the next screen and what to do.
pub fn process_lua_command(state: MultiplayerScreenState, cmd: MpScreenCommand) -> (r: (
    MultiplayerScreenState,
    ScreenAction,
))
    ensures
        (r.0@, r.1@) == command_step(state@, cmd@),
{
    match (cmd, state) {
        (MpScreenCommand::OpenSettings, s) => (s, ScreenAction::Nothing),
        (MpScreenCommand::SelectSong, s) => (s, ScreenAction::ShowSongDialog),
        (MpScreenCommand::BeginJoinWithPassword(room_id), MultiplayerScreenState::RoomList) => {
            (MultiplayerScreenState::PasswordScreen(String::new(), room_id), ScreenAction::Nothing)
        },
        (
            MpScreenCommand::JoinWithPassword,
            MultiplayerScreenState::PasswordScreen(password, room_id),
        ) => {
            let action = ScreenAction::JoinRoom {
                id: room_id.clone(),
                password: Some(password.clone()),
            };
            (MultiplayerScreenState::PasswordScreen(password, room_id), action)
        },
        (MpScreenCommand::JoinWithoutPassword(room_id), MultiplayerScreenState::RoomList) => {
            (
                MultiplayerScreenState::RoomList,
                ScreenAction::JoinRoom { id: room_id, password: None },
            )
        },
        (MpScreenCommand::NewRoomStep, MultiplayerScreenState::NewRoomName(name)) => {
            (MultiplayerScreenState::NewRoomPassword(String::new(), name), ScreenAction::Nothing)
        },
        (MpScreenCommand::NewRoomStep, MultiplayerScreenState::NewRoomPassword(password, name)) => {
            let password = if password.as_str().is_empty() {
                None
            } else {
                Some(password)
            };
            (MultiplayerScreenState::RoomList, ScreenAction::NewRoom { name, password })
        },
        (MpScreenCommand::NewRoomStep, _) => {
            (MultiplayerScreenState::NewRoomName(String::new()), ScreenAction::Nothing)
        },
        (MpScreenCommand::SaveUsername, MultiplayerScreenState::SetUsername(name)) => {
            let action = if !name.as_str().is_empty() {
                ScreenAction::SaveUsername(name.clone())
            } else {
                ScreenAction::Nothing
            };
            (MultiplayerScreenState::SetUsername(name), action)
        },
        (MpScreenCommand::Exit, s) => (s, ScreenAction::Close),
        (_, s) => (s, ScreenAction::Nothing),
    }
}

/// Confirms the typed text: a user name is saved and the room list shown; a password
/// is sent to join the room.
pub fn submit(state: MultiplayerScreenState) -> (r: (MultiplayerScreenState, ScreenAction))
    ensures
        (r.0@, r.1@) == submit_step(state@),
{
    match state {
        MultiplayerScreenState::SetUsername(name) => {
            (MultiplayerScreenState::RoomList, ScreenAction::SaveUsername(name))
        },
        MultiplayerScreenState::PasswordScreen(password, id) => {
            let action = ScreenAction::JoinRoom { id: id.clone(), password: Some(password.clone()) };
            (MultiplayerScreenState::PasswordScreen(password, id), action)
        },
        s => (s, ScreenAction::Nothing),
    }
}

/// A message from the multiplayer server, as far as the lobby screen depends on it.
#[derive(Debug, Clone, Copy, PartialEq, Eq, Structural)]
pub enum ServerMessageKind {
    Info,
    Rooms,
    Joined,
    Other,
}

/// The lobby screen after a message from the server: the room list after a list of
/// rooms, the room after joining it.
pub fn screen_after_server_message(state: MultiplayerScreenState, msg: ServerMessageKind) -> (r:
    MultiplayerScreenState)
    ensures
        r@ == match msg {
            ServerMessageKind::Rooms => ScreenView::RoomList,
            ServerMessageKind::Joined => ScreenView::InRoom,
            _ => state@,
        },
{
    match msg {
        ServerMessageKind::Rooms => MultiplayerScreenState::RoomList,
        ServerMessageKind::Joined => MultiplayerScreenState::InRoom,
        _ => state,
    }
}

/// The difficulty selected after moving the selection by `step` among `diff_count`
/// difficulties: no move keeps it, otherwise it moves without wrapping and stays on the
/// list (the first entry when the list is empty).
pub open spec fn moved_selection(selected: usize, step: isize, diff_count: usize) -> int {
    if step == 0 {
        selected as int
    } else if diff_count == 0 {
        0
    } else {
        let moved = selected + step;
        let clamped = if moved < 0 {
            0
        } else if moved > usize::MAX {
            usize::MAX as int
        } else {
            moved
        };
        if clamped > diff_count - 1 {
            diff_count - 1
        } else {
            clamped
        }
    }
}

/// Moves the selected difficulty by `step`.
pub fn advance_selection(selected: usize, step: isize, diff_count: usize) -> (r: usize)
    ensures
        r == moved_selection(selected, step, diff_count),
{
    if step == 0 {
        return selected;
    }
    if diff_count == 0 {
        return 0;
    }
    let moved: usize = if step < 0 {
        let back = (0 - (step as i128)) as u128;
        if back >= selected as u128 {
            0
        } else {
            (selected as u128 - back) as usize
        }
    } else {
        let fwd = step as u128;
        if selected as u128 + fwd > usize::MAX as u128 {
            usize::MAX
        } else {
            (selected as u128 + fwd) as usize
        }
    };
    let last = diff_count - 1;
    if moved > last {
        last
    } else {
        moved
    }
}

/// The selection never leaves a non-empty list of difficulties.
pub proof fn law_selection_stays_on_list(selected: usize, step: isize, diff_count: usize)
    requires
        diff_count > 0,
        selected < diff_count,
    ensures
        0 <= moved_selection(selected, step, diff_count) < diff_count,
{
}

/// Every screen that takes text reports so, and starting a room or a password prompt
/// starts with empty text.
pub proof fn law_new_prompts_start_empty(s: ScreenView, c: CommandView)
    ensures
        command_step(s, c).0 matches ScreenView::PasswordScreen(p, _) ==> (p.len() == 0
            || s is PasswordScreen),
        command_step(s, c).0 matches ScreenView::NewRoomName(n) ==> (n.len() == 0
            || s is NewRoomName),
        command_step(s, c).0 matches ScreenView::NewRoomPassword(p, _) ==> (p.len() == 0
            || s is NewRoomPassword),
{
}

/// Creating a room takes two steps from any screen but the room-name and password
/// screens: the first asks for a name, the second for a password, and the third sends
/// the request and returns to the room list.
pub proof fn law_new_room_flow(s: ScreenView)
    requires
        !(s is NewRoomName),
        !(s is NewRoomPassword),
    ensures
        command_step(s, CommandView::NewRoomStep).0 matches ScreenView::NewRoomName(n) && n.len()
            == 0,
        ({
            let s1 = command_step(s, CommandView::NewRoomStep).0;
            let s2 = command_step(s1, CommandView::NewRoomStep).0;
            let r3 = command_step(s2, CommandView::NewRoomStep);
            &&& s2 matches ScreenView::NewRoomPassword(p, n) && p.len() == 0 && n.len() == 0
            &&& r3.0 is RoomList
            &&& r3.1 matches ActionView::NewRoom { name, password } && name.len() == 0
                && password is None
        }),
{
}

/// A lobby command sends a join request exactly in two cases: on the room list a join
/// without password asks for that room with no password, and on a password screen a
/// join asks for its room with the typed password; the screen stays. Leaving always
/// closes the lobby, and choosing a song always opens the song dialog.
pub proof fn law_lobby_requests(s: ScreenView, c: CommandView)
    ensures
        c is JoinWithoutPassword && s is RoomList ==> command_step(s, c) == (
            ScreenView::RoomList,
            ActionView::JoinRoom { id: c->JoinWithoutPassword_0, password: None },
        ),
        s is PasswordScreen && c is JoinWithPassword ==> command_step(s, c) == (
            s,
            ActionView::JoinRoom { id: s->PasswordScreen_1, password: Some(s->PasswordScreen_0) },
        ),
        command_step(s, c).1 matches ActionView::JoinRoom { id, password } ==> (
        (c == CommandView::JoinWithoutPassword(id) && s is RoomList && password is None) || (
        c is JoinWithPassword && s == ScreenView::PasswordScreen(password->0, id)
            && password is Some)),
        c is Exit ==> command_step(s, c) == (s, ActionView::Close),
        command_step(s, c).1 is Close <==> c is Exit,
        c is SelectSong ==> command_step(s, c) == (s, ActionView::ShowSongDialog),
        command_step(s, c).1 is ShowSongDialog <==> c is SelectSong,
        s is RoomList && c is BeginJoinWithPassword ==> command_step(s, c) == (
            ScreenView::PasswordScreen(seq![], c->BeginJoinWithPassword_0),
            ActionView::Nothing,
        ),
        s is NewRoomPassword && c is NewRoomStep ==> command_step(s, c) == (
            ScreenView::RoomList,
            ActionView::NewRoom {
                name: s->NewRoomPassword_1,
                password: if s->NewRoomPassword_0.len() == 0 {
                    None
                } else {
                    Some(s->NewRoomPassword_0)
                },
            },
        ),
        command_step(s, c).1 is NewRoom ==> s is NewRoomPassword && c is NewRoomStep,
        s is SetUsername && c is SaveUsername ==> command_step(s, c) == (
            s,
            if s->SetUsername_0.len() > 0 {
                ActionView::SaveUsername(s->SetUsername_0)
            } else {
                ActionView::Nothing
            },
        ),
        command_step(s, c).1 is SaveUsername ==> s is SetUsername && c is SaveUsername,
        c is OpenSettings ==> command_step(s, c) == (s, ActionView::Nothing),
{
}

} // verus!
