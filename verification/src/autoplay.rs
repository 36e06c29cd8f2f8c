use vstd::prelude::*;

verus! {

/// Which inputs the game plays by itself.
#[derive(Debug, Clone, Copy, PartialEq, Eq, Structural)]
pub enum AutoPlay {
    Off,
    Buttons,
    Lasers,
    All,
}

impl AutoPlay {
    /// Whether anything is played automatically.
    pub fn any(&self) -> (b: bool)
        ensures
            b == !(*self is Off),
    {
        !matches!(self, AutoPlay::Off)
    }

    /// Whether the buttons are played automatically.
    pub fn auto_buttons(&self) -> (b: bool)
        ensures
            b == (*self is All || *self is Buttons),
    {
        matches!(self, AutoPlay::All | AutoPlay::Buttons)
    }

    /// Whether the lasers are played automatically.
    pub fn auto_lasers(&self) -> (b: bool)
        ensures
            b == (*self is All || *self is Lasers),
    {
        matches!(self, AutoPlay::All | AutoPlay::Lasers)
    }

    /// The autoplay bits reported with a result: 1 for buttons, 2 for lasers.
    pub fn auto_flags(&self) -> (flags: i32)
        ensures
            flags == (if self.auto_buttons_spec() { 1i32 } else { 0 }) + (if self.auto_lasers_spec() {
                2i32
            } else {
                0
            }),
    {
        match self {
            AutoPlay::Off => 0,
            AutoPlay::Buttons => 1,
            AutoPlay::Lasers => 2,
            AutoPlay::All => 3,
        }
    }

    pub open spec fn auto_buttons_spec(&self) -> bool {
        *self is All || *self is Buttons
    }

    pub open spec fn auto_lasers_spec(&self) -> bool {
        *self is All || *self is Lasers
    }
}

/// Something is played automatically exactly when the buttons or the lasers are.
pub proof fn law_any_is_buttons_or_lasers(a: AutoPlay)
    ensures
        !(a is Off) == (a.auto_buttons_spec() || a.auto_lasers_spec()),
{
}

} // verus!
