//! Integer constants of the simulation.
use vstd::prelude::*;

verus! {

/// Number of partition bands along each axis (at most 63, one bit each).
pub const NUM_PARTITIONS: u32 = 8;

/// Substeps simulated per rendered frame.
pub const NUM_TIMES: u32 = 32;

/// Substeps during which a gravity flipper cannot flip the player again.
pub const FLIP_COOLDOWN: u32 = 10;

/// Side of a tile in pixels.
pub const GRID_PIXELS: u32 = 15;

/// Tiles along each side of a screen.
pub const TILES: usize = 50;

/// Tiles along each side of a screen.
pub const TILES_U32: u32 = 50;

/// Width of the window in pixels.
pub const WINDOW_X: u32 = GRID_PIXELS * TILES_U32;

/// Height of the window in pixels.
pub const WINDOW_Y: u32 = GRID_PIXELS * TILES_U32;

/// Tiles along each side of the editor's board.
pub const MEDIT_TILES: u32 = 52;

/// Extra columns of tiles right of the editor's board.
pub const MEDIT_EXTRA_ROOM: u32 = 12;

/// Columns of the editor's palette of tile kinds.
pub const MEDIT_GUIDE_SIZE: u32 = 3;

/// Mouse button masks.
pub const LEFT_MOUSE: u8 = 1;
pub const RIGHT_MOUSE: u8 = 2;
pub const MIDDLE_MOUSE: u8 = 4;
pub const ANY_MOUSE: u8 = 255;

/// Bits of a render job id that select its layer.
pub const LAYER_DEPTH: u32 = 3;

/// Number of render layers.
pub const LAYERS: u64 = 8;

/// Ids available in each layer: the layer of an id is the id divided by this.
pub const LAYER_SIZE: u64 = 2305843009213693952;

/// The layer drawn last.
pub const FRONT_LAYER: u64 = LAYERS - 1;

/// The layer drawn first.
pub const BACK_LAYER: u64 = 0;

/// The layer of tiles.
pub const CONTENT_LAYER: u64 = LAYERS / 2;

/// The layer of the interface.
pub const UI_LAYER: u64 = 3 * LAYERS / 4;

/// Visual indicator slots of the player's composite job.
pub const PLAYER_L_INDICATOR: usize = 1;
pub const PLAYER_R_INDICATOR: usize = 2;
pub const PLAYER_U_INDICATOR: usize = 3;
pub const PLAYER_D_INDICATOR: usize = 4;

} // verus!
