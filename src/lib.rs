//! Simulation core of a tile-based platformer: the spatial partition index,
//! tile behaviours and their resolution, the control and gravity latches,
//! the level and screen transition rules, the input snapshot and the render
//! job registry, and the level editor's model.

pub mod consts;
pub mod controls;
pub mod editor;
pub mod game;
pub mod input;
pub mod levels;
pub mod object;
pub mod partition_map;
pub mod render;
