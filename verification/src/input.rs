use vstd::prelude::*;

use std::collections::HashMap;

use crate::buttons::{BtLane, GamepadButton, Side, UscButton};

verus! {

/// Whether a button went down or up.
#[derive(Debug, Clone, Copy, PartialEq, Eq, Structural)]
pub enum ElementState {
    Pressed,
    Released,
}

/// An axis reading of one knob, tagged with its side.
#[derive(Debug, Clone, Copy, PartialEq, Eq)]
pub enum LaserSideAxis<A> {
    Left(A),
    Right(A),
}

impl<A: Copy> LaserSideAxis<A> {
    /// The reading, whichever side it is from.
    pub fn axis(self) -> (a: A)
        ensures
            a == match self {
                LaserSideAxis::Left(l) => l,
                LaserSideAxis::Right(r) => r,
            },
    {
        match self {
            LaserSideAxis::Left(l) => l,
            LaserSideAxis::Right(r) => r,
        }
    }
}

/// The readings (`A`) of the left and the right knob.
#[derive(Debug, Clone, Copy, PartialEq, Eq, Default)]
pub struct LaserState<A>(pub A, pub A);

impl<A: Copy> LaserState<A> {
    /// The reading of the knob on `side`, tagged with the side.
    pub fn get(&self, side: Side) -> (r: LaserSideAxis<A>)
        ensures
            r == match side {
                Side::Left => LaserSideAxis::Left(self.0),
                Side::Right => LaserSideAxis::Right(self.1),
            },
    {
        match side {
            Side::Left => LaserSideAxis::Left(self.0),
            Side::Right => LaserSideAxis::Right(self.1),
        }
    }

    /// The reading of the knob on `side`.
    pub fn get_axis(&self, side: Side) -> (a: A)
        ensures
            a == match side {
                Side::Left => self.0,
                Side::Right => self.1,
            },
    {
        match side {
            Side::Left => self.0,
            Side::Right => self.1,
        }
    }
}

/// The number of a controller button among all controller buttons.
pub open spec fn gamepad_index(g: GamepadButton) -> u32 {
    match g {
        GamepadButton::South => 0,
        GamepadButton::East => 1,
        GamepadButton::North => 2,
        GamepadButton::West => 3,
        GamepadButton::C => 4,
        GamepadButton::Z => 5,
        GamepadButton::LeftTrigger => 6,
        GamepadButton::LeftTrigger2 => 7,
        GamepadButton::RightTrigger => 8,
        GamepadButton::RightTrigger2 => 9,
        GamepadButton::Select => 10,
        GamepadButton::Start => 11,
        GamepadButton::Mode => 12,
        GamepadButton::LeftThumb => 13,
        GamepadButton::RightThumb => 14,
        GamepadButton::DPadUp => 15,
        GamepadButton::DPadDown => 16,
        GamepadButton::DPadLeft => 17,
        GamepadButton::DPadRight => 18,
        GamepadButton::Unknown => 19,
    }
}

/// A number of its own for every game button: 0 to 7 for the named buttons, from 8 on
/// for the other controller buttons.
pub open spec fn button_key(b: UscButton) -> u32 {
    match b {
        UscButton::BT(BtLane::A) => 0,
        UscButton::BT(BtLane::B) => 1,
        UscButton::BT(BtLane::C) => 2,
        UscButton::BT(BtLane::D) => 3,
        UscButton::FX(Side::Left) => 4,
        UscButton::FX(Side::Right) => 5,
        UscButton::Start => 6,
        UscButton::Back => 7,
        UscButton::Other(g) => (8 + gamepad_index(g)) as u32,
    }
}

/// Distinct buttons have distinct numbers.
pub proof fn lemma_button_key_injective(a: UscButton, b: UscButton)
    ensures
        button_key(a) == button_key(b) ==> a == b,
{
}

fn gamepad_index_of(g: GamepadButton) -> (n: u32)
    ensures
        n == gamepad_index(g),
{
    match g {
        GamepadButton::South => 0,
        GamepadButton::East => 1,
        GamepadButton::North => 2,
        GamepadButton::West => 3,
        GamepadButton::C => 4,
        GamepadButton::Z => 5,
        GamepadButton::LeftTrigger => 6,
        GamepadButton::LeftTrigger2 => 7,
        GamepadButton::RightTrigger => 8,
        GamepadButton::RightTrigger2 => 9,
        GamepadButton::Select => 10,
        GamepadButton::Start => 11,
        GamepadButton::Mode => 12,
        GamepadButton::LeftThumb => 13,
        GamepadButton::RightThumb => 14,
        GamepadButton::DPadUp => 15,
        GamepadButton::DPadDown => 16,
        GamepadButton::DPadLeft => 17,
        GamepadButton::DPadRight => 18,
        GamepadButton::Unknown => 19,
    }
}

fn button_key_of(b: UscButton) -> (n: u32)
    ensures
        n == button_key(b),
{
    match b {
        UscButton::BT(BtLane::A) => 0,
        UscButton::BT(BtLane::B) => 1,
        UscButton::BT(BtLane::C) => 2,
        UscButton::BT(BtLane::D) => 3,
        UscButton::FX(Side::Left) => 4,
        UscButton::FX(Side::Right) => 5,
        UscButton::Start => 6,
        UscButton::Back => 7,
        UscButton::Other(g) => 8 + gamepad_index_of(g),
    }
}

/// The input the game tracks between events: the buttons held down, each with the
/// moment (`T`) it went down, and whether typed text goes to a text field.
pub struct InputState<T> {
    buttons_held: HashMap<u32, T>,
    text_input_active: bool,
}

impl<T: Copy> InputState<T> {
    /// The buttons held down and the moment each went down.
    pub closed spec fn held_map(&self) -> Map<UscButton, T> {
        Map::new(
            |x: UscButton| self.buttons_held@.contains_key(button_key(x)),
            |x: UscButton| self.buttons_held@[button_key(x)],
        )
    }

    /// No button held and no text field active.
    pub fn new() -> (r: Self)
        ensures
            r.held_map() == Map::<UscButton, T>::empty(),
            !r.text_input_active_spec(),
    {
        let r = InputState { buttons_held: HashMap::new(), text_input_active: false };
        assert(r.held_map() =~= Map::<UscButton, T>::empty());
        r
    }

    /// Whether typed text goes to a text field.
    pub closed spec fn text_input_active_spec(&self) -> bool {
        self.text_input_active
    }

    /// Whether typed text goes to a text field.
    pub fn text_input_active(&self) -> (b: bool)
        ensures
            b == self.text_input_active_spec(),
    {
        self.text_input_active
    }

    /// Sets whether typed text goes to a text field; the held buttons stay as they are.
    pub fn set_text_input_active(&mut self, text_input_active: bool)
        ensures
            final(self).text_input_active_spec() == text_input_active,
            final(self).held_map() == old(self).held_map(),
    {
        self.text_input_active = text_input_active;
    }

    /// When `button` went down, if it is held.
    pub fn is_button_held(&self, button: UscButton) -> (r: Option<T>)
        ensures
            r == self.held_map().get(button),
    {
        broadcast use vstd::std_specs::hash::group_hash_axioms;

        let key = button_key_of(button);
        match self.buttons_held.get(&key) {
            Some(t) => Some(*t),
            None => None,
        }
    }

    /// Records that `button` went down at `time`; a button already held takes the new
    /// time.
    pub fn press(&mut self, button: UscButton, time: T)
        ensures
            final(self).held_map() == old(self).held_map().insert(button, time),
            final(self).text_input_active_spec() == old(self).text_input_active_spec(),
    {
        broadcast use vstd::std_specs::hash::group_hash_axioms;

        let key = button_key_of(button);
        self.buttons_held.insert(key, time);
        proof {
            assert forall|x: UscButton| #[trigger] button_key(x) == key implies x == button by {
                lemma_button_key_injective(x, button);
            }
            assert(self.held_map() =~= old(self).held_map().insert(button, time));
        }
    }

    /// Records that `button` went up.
    pub fn release(&mut self, button: UscButton)
        ensures
            final(self).held_map() == old(self).held_map().remove(button),
            final(self).text_input_active_spec() == old(self).text_input_active_spec(),
    {
        broadcast use vstd::std_specs::hash::group_hash_axioms;

        let key = button_key_of(button);
        self.buttons_held.remove(&key);
        proof {
            assert forall|x: UscButton| #[trigger] button_key(x) == key implies x == button by {
                lemma_button_key_injective(x, button);
            }
            assert(self.held_map() =~= old(self).held_map().remove(button));
        }
    }

    /// Whether a key event for `button` is passed on as a button event: a release always
    /// is; a press only when the button is not held already, so key repeat is dropped.
    pub fn forwards_key_event(&self, button: UscButton, state: ElementState) -> (b: bool)
        ensures
            b == (state is Released || !self.held_map().contains_key(button)),
    {
        match state {
            ElementState::Released => true,
            ElementState::Pressed => self.is_button_held(button).is_none(),
        }
    }

    /// Records a button going down or up.
    pub fn update(&mut self, button: UscButton, state: ElementState, time: T)
        ensures
            final(self).held_map() == match state {
                ElementState::Pressed => old(self).held_map().insert(button, time),
                ElementState::Released => old(self).held_map().remove(button),
            },
            final(self).text_input_active_spec() == old(self).text_input_active_spec(),
    {
        match state {
            ElementState::Pressed => self.press(button, time),
            ElementState::Released => self.release(button),
        }
    }
}

/// A read gives back the last write: after a press the button is held since that
/// moment, after a release it is not held; other buttons are untouched either way. A
/// second press of a held button is not passed on.
pub proof fn law_press_release<T>(held: Map<UscButton, T>, b: UscButton, other: UscButton, t: T)
    requires
        other != b,
    ensures
        held.insert(b, t).get(b) == Some(t),
        held.remove(b).get(b) is None,
        held.insert(b, t).get(other) == held.get(other),
        held.remove(b).get(other) == held.get(other),
        held.insert(b, t).contains_key(b),
{
}

} // verus!
