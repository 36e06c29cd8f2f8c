use vstd::prelude::*;

verus! {

/// Identifies a Lua state by its address.
#[derive(Debug, Clone, Copy, PartialEq, Eq, Structural)]
pub struct LuaKey(usize);

impl LuaKey {
    /// The key of the Lua state at `address`.
    pub fn from_address(address: usize) -> (k: Self)
        ensures
            k.view() == address,
    {
        LuaKey(address)
    }

    pub closed spec fn view(&self) -> usize {
        self.0
    }

    /// The address the key was made from.
    pub fn key(&self) -> (k: usize)
        ensures
            k == self.view(),
    {
        self.0
    }
}

/// The levels a skin script can log at.
#[derive(Debug, Clone, Copy, PartialEq, Eq, Structural)]
pub enum LuaLogLevel {
    Debug,
    Info,
    Warn,
    Error,
}

/// The functions of the game data table that skin scripts call.
pub struct GameDataLua;

impl GameDataLua {
    /// The level of a script's log message: 0 debug, 1 and 2 info, 3 warning, 4 error,
    /// anything else debug.
    pub fn log_level(severity: i32) -> (l: LuaLogLevel)
        ensures
            l == (if severity == 1 || severity == 2 {
                LuaLogLevel::Info
            } else if severity == 3 {
                LuaLogLevel::Warn
            } else if severity == 4 {
                LuaLogLevel::Error
            } else {
                LuaLogLevel::Debug
            }),
    {
        match severity {
            0 => LuaLogLevel::Debug,
            1 => LuaLogLevel::Info,
            2 => LuaLogLevel::Info,
            3 => LuaLogLevel::Warn,
            4 => LuaLogLevel::Error,
            _ => LuaLogLevel::Debug,
        }
    }
}

} // verus!
