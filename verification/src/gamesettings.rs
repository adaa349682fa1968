//! The dimensions that the game is built with.

use vstd::prelude::*;

verus! {

/// Number of columns of the default grid.
pub const GRID_X_SIZE: u32 = 40;

/// Number of rows of the default grid.
pub const GRID_Y_SIZE: u32 = 30;

/// Edge of one grid cell on screen, in pixels.
pub const DOT_SIZE_IN_PXS: u32 = 20;

/// The smallest width or height of a grid on which the opening snake fits.
pub const MIN_GRID_SIZE: u32 = 4;

} // verus!
