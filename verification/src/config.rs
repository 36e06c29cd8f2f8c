use vstd::prelude::*;

use crate::buttons::{BtLane, Side, UscButton};

verus! {

/// How the score is shown during play.
#[derive(Debug, Clone, Copy, Default, PartialEq, Eq, Structural)]
pub enum ScoreDisplayMode {
    #[default]
    Additive,
    Subtractive,
    Average,
}

impl ScoreDisplayMode {
    /// The name shown for this mode.
    pub fn name(&self) -> (s: &'static str)
        ensures
            s@ == match *self {
                ScoreDisplayMode::Additive => "Additive"@,
                ScoreDisplayMode::Subtractive => "Subtractive"@,
                ScoreDisplayMode::Average => "Average"@,
            },
    {
        match self {
            ScoreDisplayMode::Additive => "Additive",
            ScoreDisplayMode::Subtractive => "Subtractive",
            ScoreDisplayMode::Average => "Average",
        }
    }
}

/// When a screenshot of the result screen is taken.
#[derive(Debug, Clone, Copy, Default, PartialEq, Eq, Structural)]
pub enum ScoreScreenshot {
    #[default]
    Never,
    Highscores,
    Always,
}

impl ScoreScreenshot {
    /// The name shown for this setting.
    pub fn name(&self) -> (s: &'static str)
        ensures
            s@ == match *self {
                ScoreScreenshot::Never => "Never"@,
                ScoreScreenshot::Highscores => "Highscores"@,
                ScoreScreenshot::Always => "Always"@,
            },
    {
        match self {
            ScoreScreenshot::Never => "Never",
            ScoreScreenshot::Highscores => "Highscores",
            ScoreScreenshot::Always => "Always",
        }
    }
}

/// The multiplayer server and the name the player goes by there.
#[derive(Debug, Clone)]
pub struct MultiplayerSettings {
    pub server: String,
    pub name: String,
}

impl Default for MultiplayerSettings {
    fn default() -> (s: Self)
        ensures
            s.server@ == "usc-multi.drewol.me:39079"@,
            s.name@ == Seq::<char>::empty(),
    {
        Self { server: "usc-multi.drewol.me:39079".to_owned(), name: String::new() }
    }
}

/// Command line arguments of the game.
#[derive(Debug, Default, Clone)]
pub struct Args {
    pub chart: Option<String>,
    pub debug: bool,
    pub sound_test: bool,
    pub profiling: bool,
    pub notitle: bool,
    pub camera_test: bool,
    pub settings: bool,
    pub companion_schema: Option<String>,
}

/// The folder `dir` if it holds a game installation, that is both a `fonts` and a
/// `skins` folder (`has_fonts`, `has_skins`, as found on disk).
pub fn is_install_dir(dir: String, has_fonts: bool, has_skins: bool) -> (r: Option<String>)
    ensures
        r is Some <==> (has_fonts && has_skins),
        r matches Some(d) ==> d@ == dir@,
{
    if has_fonts && has_skins {
        Some(dir)
    } else {
        None
    }
}

/// How long a frame may take, in nanoseconds, for a target frame rate: a second divided
/// by the rate (whole nanoseconds), counting rates below 30 as 30; no target means
/// no wait (1 ns).
pub fn get_frame_duration(target_fps: u32) -> (nanos: u64)
    ensures
        nanos == if target_fps == 0 {
            1
        } else if target_fps < 30 {
            1_000_000_000int / 30
        } else {
            1_000_000_000int / (target_fps as int)
        },
        nanos <= 1_000_000_000int / 30,
{
    let fps = target_fps as u64;
    if fps == 0 {
        1
    } else {
        let rate = if fps < 30 {
            30
        } else {
            fps
        };
        assert(1_000_000_000int / (rate as int) <= 1_000_000_000int / 30) by (nonlinear_arith)
            requires
                rate >= 30,
        ;
        1_000_000_000 / rate
    }
}

/// What song select remembers between visits: the sorting (`S`), the filter (`F`) and the
/// last chart played (`D`).
#[derive(Debug, Clone, Default)]
pub struct SongSelectSettings<S, F, D> {
    pub sorting: S,
    pub filter: F,
    pub last_played: D,
}

/// What a keyboard key can be bound to: a game button, the refresh key, or one
/// direction (second side) of one knob (first side).
#[derive(Debug, Clone, Copy, PartialEq, Eq, Structural)]
pub enum BoundInput {
    Button(UscButton),
    Refresh,
    Laser(Side, Side),
}

/// The keyboard keys (as key codes) bound to the game's inputs.
#[derive(Debug, Clone, Copy)]
pub struct Keybinds {
    pub bt_a: u32,
    pub bt_b: u32,
    pub bt_c: u32,
    pub bt_d: u32,
    pub fx_l: u32,
    pub fx_r: u32,
    pub start: u32,
    pub back: u32,
    pub refresh: u32,
    pub laser_l: (u32, u32),
    pub laser_r: (u32, u32),
    pub reload_scripts: u32,
}

impl Keybinds {
    /// The key bound to an input; controller buttons other than the named ones have none.
    pub open spec fn key_of(self, b: BoundInput) -> Option<u32> {
        match b {
            BoundInput::Button(UscButton::BT(BtLane::A)) => Some(self.bt_a),
            BoundInput::Button(UscButton::BT(BtLane::B)) => Some(self.bt_b),
            BoundInput::Button(UscButton::BT(BtLane::C)) => Some(self.bt_c),
            BoundInput::Button(UscButton::BT(BtLane::D)) => Some(self.bt_d),
            BoundInput::Button(UscButton::FX(Side::Left)) => Some(self.fx_l),
            BoundInput::Button(UscButton::FX(Side::Right)) => Some(self.fx_r),
            BoundInput::Button(UscButton::Start) => Some(self.start),
            BoundInput::Button(UscButton::Back) => Some(self.back),
            BoundInput::Button(UscButton::Other(_)) => None,
            BoundInput::Refresh => Some(self.refresh),
            BoundInput::Laser(Side::Left, Side::Left) => Some(self.laser_l.0),
            BoundInput::Laser(Side::Left, Side::Right) => Some(self.laser_l.1),
            BoundInput::Laser(Side::Right, Side::Left) => Some(self.laser_r.0),
            BoundInput::Laser(Side::Right, Side::Right) => Some(self.laser_r.1),
        }
    }

    /// The key bound to an input, if it can have one.
    pub fn get(&self, button: BoundInput) -> (k: Option<u32>)
        ensures
            k == self.key_of(button),
    {
        match button {
            BoundInput::Button(UscButton::BT(lane)) => Some(match lane {
                BtLane::A => self.bt_a,
                BtLane::B => self.bt_b,
                BtLane::C => self.bt_c,
                BtLane::D => self.bt_d,
            }),
            BoundInput::Button(UscButton::FX(side)) => Some(match side {
                Side::Left => self.fx_l,
                Side::Right => self.fx_r,
            }),
            BoundInput::Button(UscButton::Start) => Some(self.start),
            BoundInput::Button(UscButton::Back) => Some(self.back),
            BoundInput::Button(UscButton::Other(_)) => None,
            BoundInput::Refresh => Some(self.refresh),
            BoundInput::Laser(side, dir) => Some(match (side, dir) {
                (Side::Left, Side::Left) => self.laser_l.0,
                (Side::Left, Side::Right) => self.laser_l.1,
                (Side::Right, Side::Left) => self.laser_r.0,
                (Side::Right, Side::Right) => self.laser_r.1,
            }),
        }
    }

    /// Binds `key` to an input that can have a key; the other inputs keep theirs, and the
    /// key for reloading scripts stays.
    pub fn set(&mut self, button: BoundInput, key: u32)
        ensures
            forall|b: BoundInput| #[trigger] final(self).key_of(b) == if b == button && old(self).key_of(button) is Some {
                Some(key)
            } else {
                old(self).key_of(b)
            },
            final(self).reload_scripts == old(self).reload_scripts,
    {
        match button {
            BoundInput::Button(UscButton::BT(lane)) => match lane {
                BtLane::A => self.bt_a = key,
                BtLane::B => self.bt_b = key,
                BtLane::C => self.bt_c = key,
                BtLane::D => self.bt_d = key,
            },
            BoundInput::Button(UscButton::FX(side)) => match side {
                Side::Left => self.fx_l = key,
                Side::Right => self.fx_r = key,
            },
            BoundInput::Button(UscButton::Start) => self.start = key,
            BoundInput::Button(UscButton::Back) => self.back = key,
            BoundInput::Button(UscButton::Other(_)) => {},
            BoundInput::Refresh => self.refresh = key,
            BoundInput::Laser(side, dir) => match (side, dir) {
                (Side::Left, Side::Left) => self.laser_l.0 = key,
                (Side::Left, Side::Right) => self.laser_l.1 = key,
                (Side::Right, Side::Left) => self.laser_r.0 = key,
                (Side::Right, Side::Right) => self.laser_r.1 = key,
            },
        }
    }

    /// Whether `key` reloads the skin scripts.
    pub fn is_reload_script(&self, key: u32) -> (b: bool)
        ensures
            b == (key == self.reload_scripts),
    {
        key == self.reload_scripts
    }

    /// The input `key` is bound to, checked in the order BT A to D, FX left and right,
    /// start, back, refresh, left knob left and right, right knob left and right.
    pub open spec fn input_of(self, key: u32) -> Option<BoundInput> {
        if key == self.bt_a {
            Some(BoundInput::Button(UscButton::BT(BtLane::A)))
        } else if key == self.bt_b {
            Some(BoundInput::Button(UscButton::BT(BtLane::B)))
        } else if key == self.bt_c {
            Some(BoundInput::Button(UscButton::BT(BtLane::C)))
        } else if key == self.bt_d {
            Some(BoundInput::Button(UscButton::BT(BtLane::D)))
        } else if key == self.fx_l {
            Some(BoundInput::Button(UscButton::FX(Side::Left)))
        } else if key == self.fx_r {
            Some(BoundInput::Button(UscButton::FX(Side::Right)))
        } else if key == self.start {
            Some(BoundInput::Button(UscButton::Start))
        } else if key == self.back {
            Some(BoundInput::Button(UscButton::Back))
        } else if key == self.refresh {
            Some(BoundInput::Refresh)
        } else if key == self.laser_l.0 {
            Some(BoundInput::Laser(Side::Left, Side::Left))
        } else if key == self.laser_l.1 {
            Some(BoundInput::Laser(Side::Left, Side::Right))
        } else if key == self.laser_r.0 {
            Some(BoundInput::Laser(Side::Right, Side::Left))
        } else if key == self.laser_r.1 {
            Some(BoundInput::Laser(Side::Right, Side::Right))
        } else {
            None
        }
    }

    /// The input `key` is bound to, if any.
    pub fn match_button(&self, key: u32) -> (b: Option<BoundInput>)
        ensures
            b == self.input_of(key),
    {
        if key == self.bt_a {
            Some(BoundInput::Button(UscButton::BT(BtLane::A)))
        } else if key == self.bt_b {
            Some(BoundInput::Button(UscButton::BT(BtLane::B)))
        } else if key == self.bt_c {
            Some(BoundInput::Button(UscButton::BT(BtLane::C)))
        } else if key == self.bt_d {
            Some(BoundInput::Button(UscButton::BT(BtLane::D)))
        } else if key == self.fx_l {
            Some(BoundInput::Button(UscButton::FX(Side::Left)))
        } else if key == self.fx_r {
            Some(BoundInput::Button(UscButton::FX(Side::Right)))
        } else if key == self.start {
            Some(BoundInput::Button(UscButton::Start))
        } else if key == self.back {
            Some(BoundInput::Button(UscButton::Back))
        } else if key == self.refresh {
            Some(BoundInput::Refresh)
        } else if key == self.laser_l.0 {
            Some(BoundInput::Laser(Side::Left, Side::Left))
        } else if key == self.laser_l.1 {
            Some(BoundInput::Laser(Side::Left, Side::Right))
        } else if key == self.laser_r.0 {
            Some(BoundInput::Laser(Side::Right, Side::Left))
        } else if key == self.laser_r.1 {
            Some(BoundInput::Laser(Side::Right, Side::Right))
        } else {
            None
        }
    }

    /// No two inputs share a key.
    pub open spec fn distinct(self) -> bool {
        let ks = seq![
            self.bt_a, self.bt_b, self.bt_c, self.bt_d, self.fx_l, self.fx_r, self.start,
            self.back, self.refresh, self.laser_l.0, self.laser_l.1, self.laser_r.0,
            self.laser_r.1,
        ];
        forall|i: int, j: int| 0 <= i < j < ks.len() ==> ks[i] != ks[j]
    }
}

/// With no key bound twice, the key bound to an input leads back to that input.
pub proof fn law_match_inverts_get(k: Keybinds, b: BoundInput)
    requires
        k.distinct(),
        k.key_of(b) is Some,
    ensures
        k.input_of(k.key_of(b)->0) == Some(b),
{
    let ks = seq![
        k.bt_a, k.bt_b, k.bt_c, k.bt_d, k.fx_l, k.fx_r, k.start, k.back, k.refresh,
        k.laser_l.0, k.laser_l.1, k.laser_r.0, k.laser_r.1,
    ];
    assert(ks[0] == k.bt_a && ks[1] == k.bt_b && ks[2] == k.bt_c && ks[3] == k.bt_d);
    assert(ks[4] == k.fx_l && ks[5] == k.fx_r && ks[6] == k.start && ks[7] == k.back);
    assert(ks[8] == k.refresh && ks[9] == k.laser_l.0 && ks[10] == k.laser_l.1);
    assert(ks[11] == k.laser_r.0 && ks[12] == k.laser_r.1);
    assert(forall|i: int, j: int| 0 <= i < j < 13 ==> ks[i] != ks[j]);
}

} // verus!
