use vstd::prelude::*;
use crate::buttons::{BtLane, Side};

verus! {

/// A colour channel of a controller light.
#[derive(Debug, Clone, Copy, Hash, PartialEq, Eq, Structural, Default)]
pub enum Channel {
    #[default]
    R,
    G,
    B,
}

/// A colour with one value per channel.
#[derive(Debug, Clone, Copy, PartialEq, Eq, Default)]
pub struct Rgb<T> {
    pub r: T,
    pub g: T,
    pub b: T,
}

impl Channel {
    /// The channel's name as shown in the settings.
    pub fn name(&self) -> (s: &'static str)
        ensures
            s@ == match *self {
                Channel::R => "Red"@,
                Channel::G => "Green"@,
                Channel::B => "Blue"@,
            },
    {
        match self {
            Channel::R => "Red",
            Channel::G => "Green",
            Channel::B => "Blue",
        }
    }

    /// The value of this channel in a colour.
    pub fn get<T: Copy>(&self, rgb: Rgb<T>) -> (v: T)
        ensures
            v == match *self {
                Channel::R => rgb.r,
                Channel::G => rgb.g,
                Channel::B => rgb.b,
            },
    {
        match self {
            Channel::R => rgb.r,
            Channel::G => rgb.g,
            Channel::B => rgb.b,
        }
    }
}

/// A light of the controller that can be mapped to a device output.
#[derive(Debug, Clone, Copy, Hash, PartialEq, Eq, Structural)]
pub enum LightingTarget {
    Start,
    Bt(BtLane),
    Fx(Side),
    Top(Side, Channel),
    Middle(Side, Channel),
    Bottom(Side, Channel),
    Base(Channel),
}

/// Where a light sits on a device: the report and the first bit of its output.
#[derive(Debug, Clone, Copy, Hash, PartialEq, Eq, Structural)]
pub struct MappedTarget {
    pub report_id: u32,
    pub start_bit: u32,
    pub target: LightingTarget,
}

/// The number of lights a controller has.
pub const TARGET_COUNT: usize = 28;

pub open spec fn lane_number(l: BtLane) -> int {
    match l {
        BtLane::A => 0,
        BtLane::B => 1,
        BtLane::C => 2,
        BtLane::D => 3,
    }
}

pub open spec fn side_number(s: Side) -> int {
    match s {
        Side::Left => 0,
        Side::Right => 1,
    }
}

pub open spec fn channel_number(c: Channel) -> int {
    match c {
        Channel::R => 0,
        Channel::G => 1,
        Channel::B => 2,
    }
}

/// The place of a light in the listing of all lights: start, the BT lanes, the FX
/// buttons, then top, middle and bottom by side and channel, then the base channels.
pub open spec fn target_index(t: LightingTarget) -> int {
    match t {
        LightingTarget::Start => 0,
        LightingTarget::Bt(l) => 1 + lane_number(l),
        LightingTarget::Fx(s) => 5 + side_number(s),
        LightingTarget::Top(s, c) => 7 + 3 * side_number(s) + channel_number(c),
        LightingTarget::Middle(s, c) => 13 + 3 * side_number(s) + channel_number(c),
        LightingTarget::Bottom(s, c) => 19 + 3 * side_number(s) + channel_number(c),
        LightingTarget::Base(c) => 25 + channel_number(c),
    }
}

fn lane_at(i: usize) -> (l: BtLane)
    requires
        i < 4,
    ensures
        lane_number(l) == i,
{
    if i == 0 {
        BtLane::A
    } else if i == 1 {
        BtLane::B
    } else if i == 2 {
        BtLane::C
    } else {
        BtLane::D
    }
}

fn side_at(i: usize) -> (s: Side)
    requires
        i < 2,
    ensures
        side_number(s) == i,
{
    if i == 0 {
        Side::Left
    } else {
        Side::Right
    }
}

fn channel_at(i: usize) -> (c: Channel)
    requires
        i < 3,
    ensures
        channel_number(c) == i,
{
    if i == 0 {
        Channel::R
    } else if i == 1 {
        Channel::G
    } else {
        Channel::B
    }
}

fn target_at(i: usize) -> (t: LightingTarget)
    requires
        i < TARGET_COUNT,
    ensures
        target_index(t) == i,
{
    if i == 0 {
        LightingTarget::Start
    } else if i < 5 {
        LightingTarget::Bt(lane_at(i - 1))
    } else if i < 7 {
        LightingTarget::Fx(side_at(i - 5))
    } else if i < 13 {
        LightingTarget::Top(side_at((i - 7) / 3), channel_at((i - 7) % 3))
    } else if i < 19 {
        LightingTarget::Middle(side_at((i - 13) / 3), channel_at((i - 13) % 3))
    } else if i < 25 {
        LightingTarget::Bottom(side_at((i - 19) / 3), channel_at((i - 19) % 3))
    } else {
        LightingTarget::Base(channel_at(i - 25))
    }
}

impl LightingTarget {
    /// Whether the light is a colour light, with one output per channel.
    pub fn is_rgb(&self) -> (b: bool)
        ensures
            b == (self is Top || self is Middle || self is Bottom || self is Base),
    {
        match self {
            LightingTarget::Top(..) => true,
            LightingTarget::Middle(..) => true,
            LightingTarget::Bottom(..) => true,
            LightingTarget::Base(..) => true,
            _ => false,
        }
    }

    /// Every light of the controller, each at its place in the listing.
    pub fn iter() -> (v: Vec<LightingTarget>)
        ensures
            v.len() == TARGET_COUNT,
            forall|i: int| 0 <= i < v.len() ==> target_index(#[trigger] v@[i]) == i,
    {
        let mut v: Vec<LightingTarget> = Vec::new();
        let mut i: usize = 0;
        while i < TARGET_COUNT
            invariant
                i <= TARGET_COUNT,
                v.len() == i,
                forall|k: int| 0 <= k < v.len() ==> target_index(#[trigger] v@[k]) == k,
            decreases TARGET_COUNT - i,
        {
            v.push(target_at(i));
            i = i + 1;
        }
        v
    }
}

/// The listing of all lights holds every light exactly once.
pub proof fn law_each_target_listed_once(v: Seq<LightingTarget>, t: LightingTarget)
    requires
        v.len() == TARGET_COUNT,
        forall|i: int| 0 <= i < v.len() ==> target_index(#[trigger] v[i]) == i,
    ensures
        0 <= target_index(t) < v.len(),
        v[target_index(t)] == t,
        forall|i: int| 0 <= i < v.len() && #[trigger] v[i] == t ==> i == target_index(t),
{
    let k = target_index(t);
    let u = v[k];
    assert(target_index(u) == k);
    assert(u == t) by {
        match t {
            LightingTarget::Start => {},
            LightingTarget::Bt(_) => {},
            LightingTarget::Fx(_) => {},
            LightingTarget::Top(_, _) => {},
            LightingTarget::Middle(_, _) => {},
            LightingTarget::Bottom(_, _) => {},
            LightingTarget::Base(_) => {},
        }
    }
}

} // verus!
