//! Gameplay logic of an osu!standard client: keyboard input bookkeeping,
//! replay frame normalisation, the gameplay clock, skin configuration
//! parsing and the judgement vocabulary shared by the game and the replay
//! viewer.

pub mod input;
pub mod timer;
pub mod replay_log;
pub mod processor;
pub mod replay;
pub mod text;
pub mod rgb;
pub mod skin_ini;
pub mod hit_objects;
pub mod screens;
pub mod osu_db;
pub mod replay_viewer;
