use vstd::prelude::*;

pub mod action_stack;
pub mod buttons;
pub mod timing;
pub mod config;
pub mod scoring;
pub mod autoplay;
pub mod gauge;
pub mod results;
pub mod shader;
pub mod editor;
pub mod screen;
pub mod mp_screen;
pub mod lighting;
pub mod main_menu;
pub mod ir;
pub mod companion;
pub mod lua;
pub mod play;
pub mod input;
pub mod tools;
pub mod lua_http;
pub mod camera;
pub mod songs_db;

verus! {

} // verus!
