use vstd::prelude::*;
use vstd::string::StringExecFns;
use std::collections::HashMap;

use crate::action_stack::ActionStack;

verus! {

/// What the "new chart" dialog asks for.
#[derive(Default, Clone, Debug)]
pub struct NewChartOptions {
    pub audio: String,
    pub filename: String,
    pub destination: Option<String>,
}

impl NewChartOptions {
    /// Whether the dialog can be confirmed: an audio file and a file name are given.
    pub fn can_create(&self) -> (b: bool)
        ensures
            b == (self.audio@.len() > 0 && self.filename@.len() > 0),
    {
        !self.audio.as_str().is_empty() && !self.filename.as_str().is_empty()
    }
}

/// The tools of the chart editor.
#[derive(Debug, PartialEq, Eq, Copy, Clone, Structural)]
pub enum ChartTool {
    NoTool,
    BT,
    FX,
    RLaser,
    LLaser,
    BPM,
    TimeSig,
    Camera,
}

/// The commands of the chart editor's interface.
#[derive(Clone, Debug)]
pub enum GuiEvent {
    NewChart(NewChartOptions),
    New,
    Open,
    Save,
    SaveAs,
    Metadata,
    MusicInfo,
    ToolChanged(ChartTool),
    Play,
    Undo,
    Redo,
    Home,
    End,
    Next,
    Previous,
    ExportKsh,
    Preferences,
}

/// The modifier keys held with a key.
#[derive(Debug, Hash, PartialEq, Eq, Copy, Clone, Structural)]
pub struct Modifiers {
    pub alt: bool,
    pub ctrl: bool,
    pub shift: bool,
    pub mac_cmd: bool,
    pub command: bool,
}

/// The names of the held modifiers, in the order ctrl, alt, shift: off macOS alt is
/// "alt" and the command key is not shown; on macOS (`macos`) alt is "opt" and the
/// command key is shown last as "cmd".
pub open spec fn modifier_names(m: Modifiers, macos: bool) -> Seq<Seq<char>> {
    let a: Seq<Seq<char>> = if m.ctrl {
        seq!["ctrl"@]
    } else {
        seq![]
    };
    let b: Seq<Seq<char>> = if m.alt {
        a.push(if macos { "opt"@ } else { "alt"@ })
    } else {
        a
    };
    let c: Seq<Seq<char>> = if m.shift {
        b.push("shift"@)
    } else {
        b
    };
    if macos && m.command {
        c.push("cmd"@)
    } else {
        c
    }
}

/// The names joined with `" + "` between them.
pub open spec fn join_names(names: Seq<Seq<char>>) -> Seq<char>
    decreases names.len(),
{
    if names.len() == 0 {
        seq![]
    } else if names.len() == 1 {
        names[0]
    } else {
        join_names(names.drop_last()) + " + "@ + names.last()
    }
}

impl Modifiers {
    /// No modifier held.
    pub fn new() -> (m: Self)
        ensures
            m == (Modifiers { alt: false, ctrl: false, shift: false, mac_cmd: false, command: false }),
    {
        Self { alt: false, command: false, ctrl: false, mac_cmd: false, shift: false }
    }

    /// These modifiers and alt.
    pub fn alt(self) -> (m: Self)
        ensures
            m == (Modifiers { alt: true, ..self }),
    {
        let mut s = self;
        s.alt = true;
        s
    }

    /// These modifiers and the platform's command key.
    pub fn command(self) -> (m: Self)
        ensures
            m == (Modifiers { command: true, ..self }),
    {
        let mut s = self;
        s.command = true;
        s
    }

    /// These modifiers and ctrl, which is also the command key off macOS (`macos`
    /// false); on macOS ctrl is only ctrl.
    pub fn ctrl(self, macos: bool) -> (m: Self)
        ensures
            m == (if macos {
                Modifiers { ctrl: true, ..self }
            } else {
                Modifiers { ctrl: true, command: true, ..self }
            }),
    {
        let mut s = self;
        s.ctrl = true;
        if !macos {
            s.command = true;
        }
        s
    }

    /// These modifiers and the Mac command key.
    pub fn mac_cmd(self) -> (m: Self)
        ensures
            m == (Modifiers { mac_cmd: true, ..self }),
    {
        let mut s = self;
        s.mac_cmd = true;
        s
    }

    /// These modifiers and shift.
    pub fn shift(self) -> (m: Self)
        ensures
            m == (Modifiers { shift: true, ..self }),
    {
        let mut s = self;
        s.shift = true;
        s
    }

    /// Whether any modifier is held.
    pub fn any(self) -> (b: bool)
        ensures
            b == any_held(self),
    {
        self.alt || self.command || self.ctrl || self.mac_cmd || self.shift
    }

    /// The held modifiers as shown to the user, such as `"ctrl + shift"`, as on macOS
    /// when `macos`.
    pub fn to_display_string(&self, macos: bool) -> (s: String)
        ensures
            s@ == join_names(modifier_names(*self, macos)),
    {
        let mut names: Vec<&'static str> = Vec::new();
        if self.ctrl {
            names.push("ctrl");
        }
        if self.alt {
            if macos {
                names.push("opt");
            } else {
                names.push("alt");
            }
        }
        if self.shift {
            names.push("shift");
        }
        if macos && self.command {
            names.push("cmd");
        }
        let ghost want = modifier_names(*self, macos);
        assert(names@.map_values(|n: &str| n@) =~= want);
        let mut s = String::new();
        let mut i: usize = 0;
        while i < names.len()
            invariant
                i <= names@.len(),
                names@.map_values(|n: &str| n@) == want,
                s@ == join_names(want.take(i as int)),
            decreases names@.len() - i,
        {
            let ghost pre = want.take(i as int);
            assert(want.take(i + 1).drop_last() =~= pre);
            assert(want.take(i + 1).last() == names@[i as int]@);
            if i > 0 {
                s.append(" + ");
            } else {
                assert(pre =~= Seq::<Seq<char>>::empty());
            }
            s.append(names[i]);
            i = i + 1;
        }
        assert(want.take(names@.len() as int) =~= want);
        s
    }
}

/// Whether any modifier is held.
pub open spec fn any_held(m: Modifiers) -> bool {
    m.alt || m.command || m.ctrl || m.mac_cmd || m.shift
}

/// After any of the builders, some modifier is held; only `new` holds none.
pub proof fn law_builders_hold_a_modifier(m: Modifiers)
    ensures
        any_held(Modifiers { alt: true, ..m }),
        any_held(Modifiers { command: true, ..m }),
        any_held(Modifiers { ctrl: true, command: true, ..m }),
        any_held(Modifiers { ctrl: true, ..m }),
        any_held(Modifiers { mac_cmd: true, ..m }),
        any_held(Modifiers { shift: true, ..m }),
        !any_held(Modifiers { alt: false, ctrl: false, shift: false, mac_cmd: false, command: false }),
{
}

/// With no modifier held, nothing is shown.
pub proof fn law_no_modifier_shows_nothing(macos: bool)
    ensures
        join_names(
            modifier_names(
                Modifiers { alt: false, ctrl: false, shift: false, mac_cmd: false, command: false },
                macos,
            ),
        ) == Seq::<char>::empty(),
{
}

/// How the camera preview blends what it draws.
#[derive(Debug, Copy, Clone, PartialEq, Eq, Structural)]
pub enum BlendMode {
    Normal,
    Add,
    Min,
}

/// A key of the keyboard, as far as the editor's shortcuts tell keys apart; every other
/// key is `Other` with a number of its own.
#[derive(Debug, Clone, Copy, PartialEq, Eq, Hash, Structural)]
pub enum Key {
    Num0,
    Num1,
    Num2,
    Num3,
    Num4,
    Num5,
    Num6,
    Num7,
    M,
    N,
    O,
    P,
    S,
    T,
    Y,
    Z,
    Space,
    Home,
    End,
    PageUp,
    PageDown,
    Other(u32),
}

/// A key pressed with modifiers.
#[derive(Debug, Clone, Copy, PartialEq, Eq, Hash, Structural)]
pub struct KeyCombo {
    pub key: Key,
    pub modifiers: Modifiers,
}

impl KeyCombo {
    pub fn new(key: Key, modifiers: Modifiers) -> (c: Self)
        ensures
            c == (KeyCombo { key, modifiers }),
    {
        KeyCombo { key, modifiers }
    }
}

/// The editor's keyboard shortcuts: which command a key combination gives.
pub struct KeyBindings {
    bindings: HashMap<u64, GuiEvent>,
}

pub open spec fn no_mods() -> Modifiers {
    Modifiers { alt: false, ctrl: false, shift: false, mac_cmd: false, command: false }
}

/// Ctrl, which is also the command key off macOS.
pub open spec fn ctrl_mods(macos: bool) -> Modifiers {
    if macos {
        Modifiers { ctrl: true, ..no_mods() }
    } else {
        Modifiers { ctrl: true, command: true, ..no_mods() }
    }
}

pub open spec fn ctrl_shift_mods(macos: bool) -> Modifiers {
    Modifiers { shift: true, ..ctrl_mods(macos) }
}

/// The shortcuts the editor starts with: ctrl with S, N, P, T, M, O, Z, Y for save, new,
/// preferences, metadata, music info, open, undo and redo, ctrl+shift+S for save as,
/// the number keys 0 to 7 for the tools, space to play, and home, end, page down and
/// page up to move through the chart.
pub open spec fn default_bindings(macos: bool) -> Seq<(KeyCombo, GuiEvent)> {
    seq![
        (KeyCombo { key: Key::S, modifiers: ctrl_mods(macos) }, GuiEvent::Save),
        (KeyCombo { key: Key::N, modifiers: ctrl_mods(macos) }, GuiEvent::New),
        (KeyCombo { key: Key::P, modifiers: ctrl_mods(macos) }, GuiEvent::Preferences),
        (KeyCombo { key: Key::T, modifiers: ctrl_mods(macos) }, GuiEvent::Metadata),
        (KeyCombo { key: Key::M, modifiers: ctrl_mods(macos) }, GuiEvent::MusicInfo),
        (KeyCombo { key: Key::S, modifiers: ctrl_shift_mods(macos) }, GuiEvent::SaveAs),
        (KeyCombo { key: Key::O, modifiers: ctrl_mods(macos) }, GuiEvent::Open),
        (KeyCombo { key: Key::Z, modifiers: ctrl_mods(macos) }, GuiEvent::Undo),
        (KeyCombo { key: Key::Y, modifiers: ctrl_mods(macos) }, GuiEvent::Redo),
        (KeyCombo { key: Key::Num0, modifiers: no_mods() }, GuiEvent::ToolChanged(ChartTool::NoTool)),
        (KeyCombo { key: Key::Num1, modifiers: no_mods() }, GuiEvent::ToolChanged(ChartTool::BT)),
        (KeyCombo { key: Key::Num2, modifiers: no_mods() }, GuiEvent::ToolChanged(ChartTool::FX)),
        (KeyCombo { key: Key::Num3, modifiers: no_mods() }, GuiEvent::ToolChanged(ChartTool::LLaser)),
        (KeyCombo { key: Key::Num4, modifiers: no_mods() }, GuiEvent::ToolChanged(ChartTool::RLaser)),
        (KeyCombo { key: Key::Num5, modifiers: no_mods() }, GuiEvent::ToolChanged(ChartTool::BPM)),
        (KeyCombo { key: Key::Num6, modifiers: no_mods() }, GuiEvent::ToolChanged(ChartTool::TimeSig)),
        (KeyCombo { key: Key::Num7, modifiers: no_mods() }, GuiEvent::ToolChanged(ChartTool::Camera)),
        (KeyCombo { key: Key::Space, modifiers: no_mods() }, GuiEvent::Play),
        (KeyCombo { key: Key::Home, modifiers: no_mods() }, GuiEvent::Home),
        (KeyCombo { key: Key::End, modifiers: no_mods() }, GuiEvent::End),
        (KeyCombo { key: Key::PageDown, modifiers: no_mods() }, GuiEvent::Next),
        (KeyCombo { key: Key::PageUp, modifiers: no_mods() }, GuiEvent::Previous),
    ]
}

/// A number of its own for every key: the named keys first, then every other key.
pub open spec fn key_number(k: Key) -> u64 {
    match k {
        Key::Num0 => 0,
        Key::Num1 => 1,
        Key::Num2 => 2,
        Key::Num3 => 3,
        Key::Num4 => 4,
        Key::Num5 => 5,
        Key::Num6 => 6,
        Key::Num7 => 7,
        Key::M => 8,
        Key::N => 9,
        Key::O => 10,
        Key::P => 11,
        Key::S => 12,
        Key::T => 13,
        Key::Y => 14,
        Key::Z => 15,
        Key::Space => 16,
        Key::Home => 17,
        Key::End => 18,
        Key::PageUp => 19,
        Key::PageDown => 20,
        Key::Other(c) => (21 + c) as u64,
    }
}

/// The held modifiers as bits: alt 1, ctrl 2, shift 4, Mac command 8, command 16.
pub open spec fn modifier_bits(m: Modifiers) -> u64 {
    ((if m.alt { 1int } else { 0 }) + (if m.ctrl { 2int } else { 0 }) + (if m.shift { 4int } else { 0 })
        + (if m.mac_cmd { 8int } else { 0 }) + (if m.command { 16int } else { 0 })) as u64
}

/// A number of its own for every key combination.
pub open spec fn combo_code(c: KeyCombo) -> u64 {
    (key_number(c.key) * 32 + modifier_bits(c.modifiers)) as u64
}

proof fn lemma_split_code(a: int, x: int, b: int, y: int)
    by (nonlinear_arith)
    requires
        0 <= x < 32,
        0 <= y < 32,
        a * 32 + x == b * 32 + y,
    ensures
        a == b,
        x == y,
{
}

/// Distinct key combinations have distinct numbers.
pub proof fn lemma_combo_code_injective(a: KeyCombo, b: KeyCombo)
    ensures
        combo_code(a) == combo_code(b) ==> a == b,
{
    if combo_code(a) == combo_code(b) {
        lemma_split_code(
            key_number(a.key) as int,
            modifier_bits(a.modifiers) as int,
            key_number(b.key) as int,
            modifier_bits(b.modifiers) as int,
        );
    }
}

fn combo_code_of(c: KeyCombo) -> (n: u64)
    ensures
        n == combo_code(c),
{
    let k: u64 = match c.key {
        Key::Num0 => 0,
        Key::Num1 => 1,
        Key::Num2 => 2,
        Key::Num3 => 3,
        Key::Num4 => 4,
        Key::Num5 => 5,
        Key::Num6 => 6,
        Key::Num7 => 7,
        Key::M => 8,
        Key::N => 9,
        Key::O => 10,
        Key::P => 11,
        Key::S => 12,
        Key::T => 13,
        Key::Y => 14,
        Key::Z => 15,
        Key::Space => 16,
        Key::Home => 17,
        Key::End => 18,
        Key::PageUp => 19,
        Key::PageDown => 20,
        Key::Other(code) => 21 + code as u64,
    };
    let m = c.modifiers;
    let bits: u64 = (if m.alt { 1 } else { 0 }) + (if m.ctrl { 2 } else { 0 }) + (if m.shift { 4 } else { 0 })
        + (if m.mac_cmd { 8 } else { 0 }) + (if m.command { 16 } else { 0 });
    k * 32 + bits
}

/// The bindings of `s` entered in turn, a later entry for a combination replacing an
/// earlier one.
pub open spec fn map_of(s: Seq<(KeyCombo, GuiEvent)>) -> Map<KeyCombo, GuiEvent>
    decreases s.len(),
{
    if s.len() == 0 {
        Map::empty()
    } else {
        map_of(s.drop_last()).insert(s.last().0, s.last().1)
    }
}

impl KeyBindings {
    /// The command each bound key combination gives.
    pub closed spec fn bindings_map(&self) -> Map<KeyCombo, GuiEvent> {
        Map::new(
            |c: KeyCombo| self.bindings@.contains_key(combo_code(c)),
            |c: KeyCombo| self.bindings@[combo_code(c)],
        )
    }

    /// The shortcuts the editor starts with, with ctrl as on macOS when `macos`.
    pub fn new(macos: bool) -> (b: Self)
        ensures
            b.bindings_map() == map_of(default_bindings(macos)),
    {
        let nomod = Modifiers::new();
        let ctrl = Modifiers::new().ctrl(macos);
        let ctrl_shift = Modifiers::new().ctrl(macos).shift();
        let mut v: Vec<(KeyCombo, GuiEvent)> = Vec::new();
        v.push((KeyCombo::new(Key::S, ctrl), GuiEvent::Save));
        v.push((KeyCombo::new(Key::N, ctrl), GuiEvent::New));
        v.push((KeyCombo::new(Key::P, ctrl), GuiEvent::Preferences));
        v.push((KeyCombo::new(Key::T, ctrl), GuiEvent::Metadata));
        v.push((KeyCombo::new(Key::M, ctrl), GuiEvent::MusicInfo));
        v.push((KeyCombo::new(Key::S, ctrl_shift), GuiEvent::SaveAs));
        v.push((KeyCombo::new(Key::O, ctrl), GuiEvent::Open));
        v.push((KeyCombo::new(Key::Z, ctrl), GuiEvent::Undo));
        v.push((KeyCombo::new(Key::Y, ctrl), GuiEvent::Redo));
        v.push((KeyCombo::new(Key::Num0, nomod), GuiEvent::ToolChanged(ChartTool::NoTool)));
        v.push((KeyCombo::new(Key::Num1, nomod), GuiEvent::ToolChanged(ChartTool::BT)));
        v.push((KeyCombo::new(Key::Num2, nomod), GuiEvent::ToolChanged(ChartTool::FX)));
        v.push((KeyCombo::new(Key::Num3, nomod), GuiEvent::ToolChanged(ChartTool::LLaser)));
        v.push((KeyCombo::new(Key::Num4, nomod), GuiEvent::ToolChanged(ChartTool::RLaser)));
        v.push((KeyCombo::new(Key::Num5, nomod), GuiEvent::ToolChanged(ChartTool::BPM)));
        v.push((KeyCombo::new(Key::Num6, nomod), GuiEvent::ToolChanged(ChartTool::TimeSig)));
        v.push((KeyCombo::new(Key::Num7, nomod), GuiEvent::ToolChanged(ChartTool::Camera)));
        v.push((KeyCombo::new(Key::Space, nomod), GuiEvent::Play));
        v.push((KeyCombo::new(Key::Home, nomod), GuiEvent::Home));
        v.push((KeyCombo::new(Key::End, nomod), GuiEvent::End));
        v.push((KeyCombo::new(Key::PageDown, nomod), GuiEvent::Next));
        v.push((KeyCombo::new(Key::PageUp, nomod), GuiEvent::Previous));
        let ghost d = default_bindings(macos);
        assert(v@ =~= d);
        let mut b = KeyBindings { bindings: HashMap::new() };
        let n = v.len();
        let mut i: usize = 0;
        assert(b.bindings_map() =~= map_of(d.take(0)));
        while i < n
            invariant
                n == d.len(),
                i <= n,
                v@ == d.skip(i as int),
                b.bindings_map() == map_of(d.take(i as int)),
            decreases n - i,
        {
            let (c, e) = v.remove(0);
            proof {
                assert(d.take(i + 1).drop_last() =~= d.take(i as int));
                assert(d.take(i + 1).last() == d[i as int]);
                assert(d.skip(i as int)[0] == d[i as int]);
                assert(d.skip(i as int).remove(0) =~= d.skip(i + 1));
            }
            b.insert(c, e);
            i = i + 1;
        }
        assert(d.take(n as int) =~= d);
        b
    }

    /// The command bound to `combo`, if any.
    pub fn get(&self, combo: KeyCombo) -> (r: Option<&GuiEvent>)
        ensures
            r matches Some(e) ==> self.bindings_map().contains_key(combo) && *e
                == self.bindings_map()[combo],
            r is None ==> !self.bindings_map().contains_key(combo),
    {
        broadcast use vstd::std_specs::hash::group_hash_axioms;

        let code = combo_code_of(combo);
        self.bindings.get(&code)
    }

    /// Binds `combo` to `event`, in place of the command it had, if any; every other
    /// combination keeps its command.
    pub fn insert(&mut self, combo: KeyCombo, event: GuiEvent)
        ensures
            final(self).bindings_map() == old(self).bindings_map().insert(combo, event),
    {
        broadcast use vstd::std_specs::hash::group_hash_axioms;

        let ghost e = event;
        let code = combo_code_of(combo);
        self.bindings.insert(code, event);
        proof {
            assert forall|x: KeyCombo| #[trigger] combo_code(x) == code implies x == combo by {
                lemma_combo_code_injective(x, combo);
            }
            assert(self.bindings_map() =~= old(self).bindings_map().insert(combo, e));
        }
    }
}

/// In a list of bindings where no combination occurs twice, each combination gives the
/// command it was listed with, and only listed combinations are bound.
pub proof fn law_distinct_bindings_map(s: Seq<(KeyCombo, GuiEvent)>)
    requires
        forall|i: int, j: int| 0 <= i < j < s.len() ==> #[trigger] s[i].0 != #[trigger] s[j].0,
    ensures
        forall|i: int| 0 <= i < s.len() ==> map_of(s).contains_key(#[trigger] s[i].0) && map_of(s)[s[i].0] == s[i].1,
        forall|c: KeyCombo| #[trigger] map_of(s).contains_key(c) ==> exists|i: int| 0 <= i < s.len() && s[i].0 == c,
    decreases s.len(),
{
    if s.len() > 0 {
        let t = s.drop_last();
        assert forall|i: int, j: int| 0 <= i < j < t.len() implies #[trigger] t[i].0 != #[trigger] t[j].0 by {
            assert(t[i] == s[i] && t[j] == s[j]);
        }
        law_distinct_bindings_map(t);
        assert forall|i: int| 0 <= i < s.len() implies map_of(s).contains_key(#[trigger] s[i].0) && map_of(s)[s[i].0] == s[i].1 by {
            if i < s.len() - 1 {
                assert(t[i] == s[i]);
                assert(s[i].0 != s[s.len() - 1].0);
            }
        }
        assert forall|c: KeyCombo| #[trigger] map_of(s).contains_key(c) implies exists|i: int| 0 <= i < s.len() && s[i].0 == c by {
            if c != s.last().0 {
                assert(map_of(t).contains_key(c));
                let i = choose|i: int| 0 <= i < t.len() && t[i].0 == c;
                assert(s[i] == t[i]);
            } else {
                assert(s[s.len() - 1].0 == c);
            }
        }
    }
}

/// No key combination is bound twice among the shortcuts the editor starts with, so each
/// gives the command it was bound to.
pub proof fn law_default_bindings_distinct(macos: bool)
    ensures
        forall|i: int, j: int|
            0 <= i < j < default_bindings(macos).len() ==> #[trigger] default_bindings(macos)[i].0
                != #[trigger] default_bindings(macos)[j].0,
        forall|i: int|
            0 <= i < default_bindings(macos).len() ==> map_of(default_bindings(macos)).contains_key(
                #[trigger] default_bindings(macos)[i].0,
            ) && map_of(default_bindings(macos))[default_bindings(macos)[i].0]
                == default_bindings(macos)[i].1,
{
    law_distinct_bindings_map(default_bindings(macos));
}

/// What a key press in the editor leads to.
#[derive(Clone, Debug)]
pub enum KeyOutcome {
    Ignored,
    OpenNewChartDialog,
    ShowPreferences,
    EditMetadata,
    EditMusicInfo,
    Queue(GuiEvent),
}

/// What a key event does: nothing when it is a release, when a text field has the
/// keyboard or when the combination is unbound; the dialogs open directly (the new-chart
/// dialog only when it is not open yet); every other command is queued for the editor.
pub open spec fn key_outcome_spec(
    bindings: Map<KeyCombo, GuiEvent>,
    combo: KeyCombo,
    pressed: bool,
    wants_keyboard_input: bool,
    new_chart_open: bool,
) -> KeyOutcome {
    if !pressed || wants_keyboard_input || !bindings.contains_key(combo) {
        KeyOutcome::Ignored
    } else {
        match bindings[combo] {
            GuiEvent::New => if new_chart_open {
                KeyOutcome::Ignored
            } else {
                KeyOutcome::OpenNewChartDialog
            },
            GuiEvent::Preferences => KeyOutcome::ShowPreferences,
            GuiEvent::Metadata => KeyOutcome::EditMetadata,
            GuiEvent::MusicInfo => KeyOutcome::EditMusicInfo,
            e => KeyOutcome::Queue(e),
        }
    }
}

/// A copy of `e`.
fn copy_event(e: &GuiEvent) -> (r: GuiEvent)
    ensures
        r == *e,
{
    match e {
        GuiEvent::NewChart(o) => GuiEvent::NewChart(
            NewChartOptions {
                audio: o.audio.clone(),
                filename: o.filename.clone(),
                destination: match &o.destination {
                    Some(d) => Some(d.clone()),
                    None => None,
                },
            },
        ),
        GuiEvent::New => GuiEvent::New,
        GuiEvent::Open => GuiEvent::Open,
        GuiEvent::Save => GuiEvent::Save,
        GuiEvent::SaveAs => GuiEvent::SaveAs,
        GuiEvent::Metadata => GuiEvent::Metadata,
        GuiEvent::MusicInfo => GuiEvent::MusicInfo,
        GuiEvent::ToolChanged(t) => GuiEvent::ToolChanged(*t),
        GuiEvent::Play => GuiEvent::Play,
        GuiEvent::Undo => GuiEvent::Undo,
        GuiEvent::Redo => GuiEvent::Redo,
        GuiEvent::Home => GuiEvent::Home,
        GuiEvent::End => GuiEvent::End,
        GuiEvent::Next => GuiEvent::Next,
        GuiEvent::Previous => GuiEvent::Previous,
        GuiEvent::ExportKsh => GuiEvent::ExportKsh,
        GuiEvent::Preferences => GuiEvent::Preferences,
    }
}

impl KeyBindings {
    /// What a key event with `combo` does in the editor.
    pub fn key_outcome(
        &self,
        combo: KeyCombo,
        pressed: bool,
        wants_keyboard_input: bool,
        new_chart_open: bool,
    ) -> (r: KeyOutcome)
        ensures
            r == key_outcome_spec(
                self.bindings_map(),
                combo,
                pressed,
                wants_keyboard_input,
                new_chart_open,
            ),
    {
        if !pressed || wants_keyboard_input {
            return KeyOutcome::Ignored;
        }
        match self.get(combo) {
            Some(GuiEvent::New) => if new_chart_open {
                KeyOutcome::Ignored
            } else {
                KeyOutcome::OpenNewChartDialog
            },
            Some(GuiEvent::Preferences) => KeyOutcome::ShowPreferences,
            Some(GuiEvent::Metadata) => KeyOutcome::EditMetadata,
            Some(GuiEvent::MusicInfo) => KeyOutcome::EditMusicInfo,
            Some(e) => KeyOutcome::Queue(copy_event(e)),
            None => KeyOutcome::Ignored,
        }
    }
}

/// What the editor has done outside its history when it handles an event: the file,
/// playback and scrolling work that follows.
#[derive(Clone, Debug)]
pub enum EditorCommand {
    Nothing,
    OpenChart,
    Save,
    SaveAs,
    SetTool(ChartTool),
    CreateChart(NewChartOptions),
    ExportKsh,
    TogglePlayback,
    ScrollHome,
    ScrollEnd,
    NextPage,
    PreviousPage,
}

/// The command for `event` when the current tool is `tool`: a tool change only when the
/// tool differs, nothing for undo and redo (they act on the history) and for the events
/// the key handling deals with itself.
pub open spec fn event_command(tool: ChartTool, event: GuiEvent) -> EditorCommand {
    match event {
        GuiEvent::Open => EditorCommand::OpenChart,
        GuiEvent::Save => EditorCommand::Save,
        GuiEvent::SaveAs => EditorCommand::SaveAs,
        GuiEvent::ToolChanged(t) => if t != tool {
            EditorCommand::SetTool(t)
        } else {
            EditorCommand::Nothing
        },
        GuiEvent::NewChart(o) => EditorCommand::CreateChart(o),
        GuiEvent::ExportKsh => EditorCommand::ExportKsh,
        GuiEvent::Play => EditorCommand::TogglePlayback,
        GuiEvent::Home => EditorCommand::ScrollHome,
        GuiEvent::End => EditorCommand::ScrollEnd,
        GuiEvent::Next => EditorCommand::NextPage,
        GuiEvent::Previous => EditorCommand::PreviousPage,
        _ => EditorCommand::Nothing,
    }
}

/// Handles one queued editor event: undo and redo act on the history, a tool change
/// selects the tool, and the rest is handed back as a command.
pub fn handle_event<T: Clone, F: Fn(&mut T) -> Result<(), anyhow::Error>>(
    tool: &mut ChartTool,
    actions: &mut ActionStack<T, F>,
    event: GuiEvent,
) -> (c: EditorCommand)
    requires
        old(actions)@.wf(),
    ensures
        final(actions)@ == (match event {
            GuiEvent::Undo => old(actions)@.undone(),
            GuiEvent::Redo => old(actions)@.redone(),
            _ => old(actions)@,
        }),
        final(actions)@.wf(),
        *final(tool) == (match event {
            GuiEvent::ToolChanged(t) => t,
            _ => *old(tool),
        }),
        c == event_command(*old(tool), event),
{
    match event {
        GuiEvent::Open => EditorCommand::OpenChart,
        GuiEvent::Save => EditorCommand::Save,
        GuiEvent::SaveAs => EditorCommand::SaveAs,
        GuiEvent::ToolChanged(t) => {
            if t != *tool {
                *tool = t;
                EditorCommand::SetTool(t)
            } else {
                EditorCommand::Nothing
            }
        },
        GuiEvent::Undo => {
            actions.undo();
            EditorCommand::Nothing
        },
        GuiEvent::Redo => {
            actions.redo();
            EditorCommand::Nothing
        },
        GuiEvent::NewChart(o) => EditorCommand::CreateChart(o),
        GuiEvent::ExportKsh => EditorCommand::ExportKsh,
        GuiEvent::Play => EditorCommand::TogglePlayback,
        GuiEvent::Home => EditorCommand::ScrollHome,
        GuiEvent::End => EditorCommand::ScrollEnd,
        GuiEvent::Next => EditorCommand::NextPage,
        GuiEvent::Previous => EditorCommand::PreviousPage,
        _ => EditorCommand::Nothing,
    }
}

/// A released key, or one typed into a text field, never does anything.
pub proof fn law_key_release_ignored(
    bindings: Map<KeyCombo, GuiEvent>,
    combo: KeyCombo,
    wants_keyboard_input: bool,
    new_chart_open: bool,
)
    ensures
        key_outcome_spec(bindings, combo, false, wants_keyboard_input, new_chart_open) is Ignored,
        key_outcome_spec(bindings, combo, true, true, new_chart_open) is Ignored,
{
}

/// Each editor command comes from its own event, for every current tool: scrolling to
/// the start only from Home, to the end only from End, a page on only from Next and a
/// page back only from Previous; opening, saving, saving under a new name, exporting
/// and playback from their own events; a tool is selected only when the event asks for
/// a different tool, and a new chart is created with exactly the options it was asked
/// with.
pub proof fn law_commands_follow_events(tool: ChartTool, event: GuiEvent)
    ensures
        event_command(tool, event) is ScrollHome <==> event is Home,
        event_command(tool, event) is ScrollEnd <==> event is End,
        event_command(tool, event) is NextPage <==> event is Next,
        event_command(tool, event) is PreviousPage <==> event is Previous,
        event_command(tool, event) is OpenChart <==> event is Open,
        event_command(tool, event) is Save <==> event is Save,
        event_command(tool, event) is SaveAs <==> event is SaveAs,
        event_command(tool, event) is ExportKsh <==> event is ExportKsh,
        event_command(tool, event) is TogglePlayback <==> event is Play,
        event_command(tool, event) is SetTool <==> (event is ToolChanged
            && event->ToolChanged_0 != tool),
        event_command(tool, event) is SetTool ==> event_command(tool, event)->SetTool_0
            == event->ToolChanged_0,
        event_command(tool, event) is CreateChart <==> event is NewChart,
        event is NewChart ==> event_command(tool, event) == EditorCommand::CreateChart(
            event->NewChart_0,
        ),
{
}

/// A pressed key that no text field takes opens the dialog its command names (the
/// new-chart dialog only while it is closed) and queues every other bound command
/// unchanged; nothing else comes of a key.
pub proof fn law_keys_follow_bindings(
    bindings: Map<KeyCombo, GuiEvent>,
    combo: KeyCombo,
    pressed: bool,
    wants_keyboard_input: bool,
    new_chart_open: bool,
)
    ensures
        ({
            let r = key_outcome_spec(bindings, combo, pressed, wants_keyboard_input, new_chart_open);
            let live = pressed && !wants_keyboard_input && bindings.contains_key(combo);
            &&& r is OpenNewChartDialog <==> (live && bindings[combo] is New && !new_chart_open)
            &&& r is ShowPreferences <==> (live && bindings[combo] is Preferences)
            &&& r is EditMetadata <==> (live && bindings[combo] is Metadata)
            &&& r is EditMusicInfo <==> (live && bindings[combo] is MusicInfo)
            &&& r is Queue <==> (live && !(bindings[combo] is New) && !(bindings[combo] is Preferences)
                && !(bindings[combo] is Metadata) && !(bindings[combo] is MusicInfo))
            &&& r is Queue ==> r->Queue_0 == bindings[combo]
        }),
{
}

} // verus!
