use vstd::prelude::*;
use vstd::std_specs::convert::FromSpecImpl;
use std::collections::HashMap;

verus! {

/// One of the four BT lanes.
#[derive(Debug, Clone, Copy, Hash, PartialEq, Eq, Structural)]
pub enum BtLane {
    A,
    B,
    C,
    D,
}

/// Left or right (FX buttons, lasers).
#[derive(Debug, Clone, Copy, Hash, PartialEq, Eq, Structural)]
pub enum Side {
    Left,
    Right,
}

/// The buttons of a game controller, by their conventional position.
#[derive(Debug, Clone, Copy, PartialEq, Eq, Structural)]
pub enum GamepadButton {
    South,
    East,
    North,
    West,
    C,
    Z,
    LeftTrigger,
    LeftTrigger2,
    RightTrigger,
    RightTrigger2,
    Select,
    Start,
    Mode,
    LeftThumb,
    RightThumb,
    DPadUp,
    DPadDown,
    DPadLeft,
    DPadRight,
    Unknown,
}

/// A button of the game's controller layout.
#[derive(Debug, Clone, Copy, PartialEq, Eq, Structural)]
pub enum UscButton {
    BT(BtLane),
    FX(Side),
    Start,
    Back,
    Other(GamepadButton),
}

/// The number a button has on the wire and in skins: 0-3 for BT A-D, 4-5 for FX L/R,
/// 6 for start, 7 for back and 255 for anything else.
pub open spec fn button_number(b: UscButton) -> u8 {
    match b {
        UscButton::BT(BtLane::A) => 0,
        UscButton::BT(BtLane::B) => 1,
        UscButton::BT(BtLane::C) => 2,
        UscButton::BT(BtLane::D) => 3,
        UscButton::FX(Side::Left) => 4,
        UscButton::FX(Side::Right) => 5,
        UscButton::Start => 6,
        UscButton::Back => 7,
        UscButton::Other(_) => 255,
    }
}

/// The button with the number `n`; numbers above 7 give an unknown controller button.
pub open spec fn button_from_number(n: u8) -> UscButton {
    if n == 0 {
        UscButton::BT(BtLane::A)
    } else if n == 1 {
        UscButton::BT(BtLane::B)
    } else if n == 2 {
        UscButton::BT(BtLane::C)
    } else if n == 3 {
        UscButton::BT(BtLane::D)
    } else if n == 4 {
        UscButton::FX(Side::Left)
    } else if n == 5 {
        UscButton::FX(Side::Right)
    } else if n == 6 {
        UscButton::Start
    } else if n == 7 {
        UscButton::Back
    } else {
        UscButton::Other(GamepadButton::Unknown)
    }
}

/// The controller button a game button is read from.
pub open spec fn gamepad_of(b: UscButton) -> GamepadButton {
    match b {
        UscButton::BT(BtLane::A) => GamepadButton::South,
        UscButton::BT(BtLane::B) => GamepadButton::East,
        UscButton::BT(BtLane::C) => GamepadButton::North,
        UscButton::BT(BtLane::D) => GamepadButton::West,
        UscButton::FX(Side::Left) => GamepadButton::LeftTrigger,
        UscButton::FX(Side::Right) => GamepadButton::RightTrigger,
        UscButton::Start => GamepadButton::Start,
        UscButton::Back => GamepadButton::Select,
        UscButton::Other(c) => c,
    }
}

/// The game button a controller button stands for.
pub open spec fn button_of_gamepad(c: GamepadButton) -> UscButton {
    match c {
        GamepadButton::South => UscButton::BT(BtLane::A),
        GamepadButton::East => UscButton::BT(BtLane::B),
        GamepadButton::North => UscButton::BT(BtLane::C),
        GamepadButton::West => UscButton::BT(BtLane::D),
        GamepadButton::LeftTrigger => UscButton::FX(Side::Left),
        GamepadButton::RightTrigger => UscButton::FX(Side::Right),
        GamepadButton::Select => UscButton::Back,
        GamepadButton::Start => UscButton::Start,
        other => UscButton::Other(other),
    }
}

/// The raw button code of the default controller mapping: 1-4 for BT A-D, 5-6 for
/// FX L/R, 0 for start and 255 for anything else.
pub open spec fn gilrs_code(b: UscButton) -> u32 {
    match b {
        UscButton::BT(BtLane::A) => 1,
        UscButton::BT(BtLane::B) => 2,
        UscButton::BT(BtLane::C) => 3,
        UscButton::BT(BtLane::D) => 4,
        UscButton::FX(Side::Left) => 5,
        UscButton::FX(Side::Right) => 6,
        UscButton::Start => 0,
        UscButton::Back => 255,
        UscButton::Other(_) => 255,
    }
}

/// A game button that is one of the eight named buttons (not `Other`).
pub open spec fn is_named(b: UscButton) -> bool {
    !(b is Other)
}

impl UscButton {
    /// The raw button code of the default controller mapping.
    pub fn to_gilrs_code_u32(&self) -> (code: u32)
        ensures
            code == gilrs_code(*self),
    {
        match self {
            UscButton::BT(bt) => match bt {
                BtLane::A => 1,
                BtLane::B => 2,
                BtLane::C => 3,
                BtLane::D => 4,
            },
            UscButton::FX(side) => match side {
                Side::Left => 5,
                Side::Right => 6,
            },
            UscButton::Start => 0,
            UscButton::Back => 255,
            UscButton::Other(_) => 255,
        }
    }
}

impl From<u8> for UscButton {
    fn from(value: u8) -> (b: Self) {
        match value {
            0 => Self::BT(BtLane::A),
            1 => Self::BT(BtLane::B),
            2 => Self::BT(BtLane::C),
            3 => Self::BT(BtLane::D),
            4 => Self::FX(Side::Left),
            5 => Self::FX(Side::Right),
            6 => Self::Start,
            7 => Self::Back,
            _ => Self::Other(GamepadButton::Unknown),
        }
    }
}

impl FromSpecImpl<u8> for UscButton {
    open spec fn obeys_from_spec() -> bool {
        true
    }

    open spec fn from_spec(v: u8) -> Self {
        button_from_number(v)
    }
}

impl From<UscButton> for u8 {
    fn from(val: UscButton) -> (n: Self) {
        match val {
            UscButton::BT(bt) => match bt {
                BtLane::A => 0,
                BtLane::B => 1,
                BtLane::C => 2,
                BtLane::D => 3,
            },
            UscButton::FX(side) => match side {
                Side::Left => 4,
                Side::Right => 5,
            },
            UscButton::Start => 6,
            UscButton::Back => 7,
            UscButton::Other(_) => 255,
        }
    }
}

impl FromSpecImpl<UscButton> for u8 {
    open spec fn obeys_from_spec() -> bool {
        true
    }

    open spec fn from_spec(v: UscButton) -> Self {
        button_number(v)
    }
}

impl From<GamepadButton> for UscButton {
    fn from(c: GamepadButton) -> (b: Self) {
        match c {
            GamepadButton::South => UscButton::BT(BtLane::A),
            GamepadButton::East => UscButton::BT(BtLane::B),
            GamepadButton::North => UscButton::BT(BtLane::C),
            GamepadButton::West => UscButton::BT(BtLane::D),
            GamepadButton::LeftTrigger => UscButton::FX(Side::Left),
            GamepadButton::RightTrigger => UscButton::FX(Side::Right),
            GamepadButton::Select => UscButton::Back,
            GamepadButton::Start => UscButton::Start,
            other => UscButton::Other(other),
        }
    }
}

impl FromSpecImpl<GamepadButton> for UscButton {
    open spec fn obeys_from_spec() -> bool {
        true
    }

    open spec fn from_spec(v: GamepadButton) -> Self {
        button_of_gamepad(v)
    }
}

impl From<UscButton> for GamepadButton {
    fn from(val: UscButton) -> (c: Self) {
        match val {
            UscButton::BT(bt) => match bt {
                BtLane::A => GamepadButton::South,
                BtLane::B => GamepadButton::East,
                BtLane::C => GamepadButton::North,
                BtLane::D => GamepadButton::West,
            },
            UscButton::FX(side) => match side {
                Side::Left => GamepadButton::LeftTrigger,
                Side::Right => GamepadButton::RightTrigger,
            },
            UscButton::Start => GamepadButton::Start,
            UscButton::Back => GamepadButton::Select,
            UscButton::Other(c) => c,
        }
    }
}

impl FromSpecImpl<UscButton> for GamepadButton {
    open spec fn obeys_from_spec() -> bool {
        true
    }

    open spec fn from_spec(v: UscButton) -> Self {
        gamepad_of(v)
    }
}

/// A named game button survives the trip to its number and back.
pub proof fn law_number_round_trip(b: UscButton)
    requires
        is_named(b),
    ensures
        button_from_number(button_number(b)) == b,
{
}

/// Every number below 8 survives the trip to its button and back; every larger number
/// comes back as 255.
pub proof fn law_number_round_trip_from_code(n: u8)
    ensures
        n < 8 ==> button_number(button_from_number(n)) == n,
        n >= 8 ==> button_number(button_from_number(n)) == 255,
{
}

/// A game button survives the trip to its controller button and back, unless it wraps
/// a controller button that stands for a named game button.
pub proof fn law_gamepad_round_trip(b: UscButton)
    requires
        is_named(b) || button_of_gamepad(gamepad_of(b)) is Other,
    ensures
        button_of_gamepad(gamepad_of(b)) == b,
{
}

/// Every controller button survives the trip to its game button and back.
pub proof fn law_gamepad_round_trip_from_controller(c: GamepadButton)
    ensures
        gamepad_of(button_of_gamepad(c)) == c,
{
}

/// The raw controller code of a BT or FX button is its number plus one.
pub proof fn law_gilrs_code_is_number_plus_one(b: UscButton)
    requires
        b is BT || b is FX,
    ensures
        gilrs_code(b) == button_number(b) + 1,
{
}

/// The controller button a raw button code stands for in the default mapping of
/// controllers without a mapping of their own: 0 start, 1-4 the face buttons (south,
/// east, north, west), 5-6 the shoulder buttons.
pub open spec fn default_mapping(code: u32) -> Option<GamepadButton> {
    if code == 0 {
        Some(GamepadButton::Start)
    } else if code == 1 {
        Some(GamepadButton::South)
    } else if code == 2 {
        Some(GamepadButton::East)
    } else if code == 3 {
        Some(GamepadButton::North)
    } else if code == 4 {
        Some(GamepadButton::West)
    } else if code == 5 {
        Some(GamepadButton::LeftTrigger)
    } else if code == 6 {
        Some(GamepadButton::RightTrigger)
    } else {
        None
    }
}

/// The mapping of raw button codes for controllers the controller library has no
/// mapping for.
pub struct RuscFilter {
    button_map: HashMap<u32, GamepadButton>,
    axis_map: HashMap<u32, (GamepadAxis, bool)>,
}

/// The controller axes the default mapping produces.
#[derive(Debug, Clone, Copy, PartialEq, Eq, Structural)]
pub enum GamepadAxis {
    LeftStickX,
    RightStickX,
}

/// The controller axis a raw axis code stands for in the default mapping, and whether
/// its direction is reversed: raw axes are marked by bit 16; axis 0 is the left knob,
/// axis 1 the right knob, turned the other way.
pub open spec fn default_axis_mapping(code: u32) -> Option<(GamepadAxis, bool)> {
    if code == 0x1_0000 {
        Some((GamepadAxis::LeftStickX, false))
    } else if code == 0x1_0001 {
        Some((GamepadAxis::RightStickX, true))
    } else {
        None
    }
}

/// The kinds of controller events.
#[derive(Debug, Clone, Copy, PartialEq, Eq, Structural)]
pub enum PadEventKind {
    ButtonPressed,
    ButtonRepeated,
    ButtonReleased,
    ButtonChanged,
    AxisChanged,
    Connected,
    Disconnected,
    Dropped,
}

/// What becomes of a controller event: passed on as it is, passed on as the given
/// button or axis (reversed or not), or dropped.
#[derive(Debug, Clone, Copy, PartialEq, Eq, Structural)]
pub enum FilterAction {
    Pass,
    Button(GamepadButton),
    Axis(GamepadAxis, bool),
    Drop,
}

/// What becomes of a controller event: events of controllers that have a mapping of
/// their own, and connection events, pass; button and axis events are mapped by their
/// raw code, and dropped when the code has no mapping.
pub open spec fn filter_action(has_mapping: bool, kind: PadEventKind, code: u32) -> FilterAction {
    if has_mapping {
        FilterAction::Pass
    } else {
        match kind {
            PadEventKind::ButtonPressed | PadEventKind::ButtonRepeated
            | PadEventKind::ButtonReleased | PadEventKind::ButtonChanged => match default_mapping(
                code,
            ) {
                Some(b) => FilterAction::Button(b),
                None => FilterAction::Drop,
            },
            PadEventKind::AxisChanged => match default_axis_mapping(code) {
                Some((a, reversed)) => FilterAction::Axis(a, reversed),
                None => FilterAction::Drop,
            },
            _ => FilterAction::Pass,
        }
    }
}

impl RuscFilter {
    #[verifier::type_invariant]
    closed spec fn holds_default_mapping(self) -> bool {
        &&& forall|code: u32|
            #![trigger self.button_map@.contains_key(code)]
            (self.button_map@.contains_key(code) <==> default_mapping(code) is Some) && (
            self.button_map@.contains_key(code) ==> Some(self.button_map@[code])
                == default_mapping(code))
        &&& forall|code: u32|
            #![trigger self.axis_map@.contains_key(code)]
            (self.axis_map@.contains_key(code) <==> default_axis_mapping(code) is Some) && (
            self.axis_map@.contains_key(code) ==> Some(self.axis_map@[code])
                == default_axis_mapping(code))
    }

    /// The controller button this filter maps a raw button code to.
    pub closed spec fn button_for(&self, code: u32) -> Option<GamepadButton> {
        if self.button_map@.contains_key(code) {
            Some(self.button_map@[code])
        } else {
            None
        }
    }

    /// The controller axis (and whether it is reversed) this filter maps a raw axis code
    /// to.
    pub closed spec fn axis_for(&self, code: u32) -> Option<(GamepadAxis, bool)> {
        if self.axis_map@.contains_key(code) {
            Some(self.axis_map@[code])
        } else {
            None
        }
    }

    /// The filter with the default mapping: codes 0 to 6 for start, the four face
    /// buttons and the two shoulder buttons, and the two knob axes.
    pub fn new() -> (r: Self)
        ensures
            forall|code: u32| #[trigger] r.button_for(code) == default_mapping(code),
            forall|code: u32| #[trigger] r.axis_for(code) == default_axis_mapping(code),
    {
        broadcast use vstd::std_specs::hash::group_hash_axioms;

        let mut button_map: HashMap<u32, GamepadButton> = HashMap::new();
        button_map.insert(0, GamepadButton::Start);
        button_map.insert(1, GamepadButton::South);
        button_map.insert(2, GamepadButton::East);
        button_map.insert(3, GamepadButton::North);
        button_map.insert(4, GamepadButton::West);
        button_map.insert(5, GamepadButton::LeftTrigger);
        button_map.insert(6, GamepadButton::RightTrigger);
        let mut axis_map: HashMap<u32, (GamepadAxis, bool)> = HashMap::new();
        axis_map.insert(0x1_0000, (GamepadAxis::LeftStickX, false));
        axis_map.insert(0x1_0001, (GamepadAxis::RightStickX, true));
        let r = RuscFilter { button_map, axis_map };
        assert forall|code: u32| #[trigger] r.button_for(code) == default_mapping(code) by {
            let _ = r.button_map@.contains_key(code);
        }
        assert forall|code: u32| #[trigger] r.axis_for(code) == default_axis_mapping(code) by {
            let _ = r.axis_map@.contains_key(code);
        }
        r
    }

    /// The controller button a raw button code stands for, if the mapping has one.
    pub fn map_button(&self, code: u32) -> (b: Option<GamepadButton>)
        ensures
            b == default_mapping(code),
    {
        broadcast use vstd::std_specs::hash::group_hash_axioms;

        proof {
            use_type_invariant(self);
            let _ = self.button_map@.contains_key(code);
        }
        match self.button_map.get(&code) {
            Some(b) => Some(*b),
            None => None,
        }
    }
}

impl RuscFilter {
    /// The controller axis a raw axis code stands for, and whether it is reversed, if the
    /// mapping has one.
    pub fn map_axis(&self, code: u32) -> (a: Option<(GamepadAxis, bool)>)
        ensures
            a == default_axis_mapping(code),
    {
        broadcast use vstd::std_specs::hash::group_hash_axioms;

        proof {
            use_type_invariant(self);
            let _ = self.axis_map@.contains_key(code);
        }
        match self.axis_map.get(&code) {
            Some(a) => Some(*a),
            None => None,
        }
    }

    /// What becomes of a controller event of the given kind and raw code;
    /// `has_mapping` tells whether the controller has a mapping of its own.
    pub fn filter(&self, has_mapping: bool, kind: PadEventKind, code: u32) -> (r: FilterAction)
        ensures
            r == filter_action(has_mapping, kind, code),
    {
        if has_mapping {
            return FilterAction::Pass;
        }
        match kind {
            PadEventKind::ButtonPressed | PadEventKind::ButtonRepeated
            | PadEventKind::ButtonReleased | PadEventKind::ButtonChanged => {
                match self.map_button(code) {
                    Some(b) => FilterAction::Button(b),
                    None => FilterAction::Drop,
                }
            },
            PadEventKind::AxisChanged => match self.map_axis(code) {
                Some((a, reversed)) => FilterAction::Axis(a, reversed),
                None => FilterAction::Drop,
            },
            _ => FilterAction::Pass,
        }
    }
}

/// The default mapping reads each BT and FX button and the start button from the raw
/// code the game gives that button.
pub proof fn law_default_mapping_matches_codes(b: UscButton)
    requires
        b is BT || b is FX || b is Start,
    ensures
        default_mapping(gilrs_code(b)) == Some(gamepad_of(b)),
        button_of_gamepad(gamepad_of(b)) == b,
{
}

} // verus!
