//! Thread-hierarchy shapes: how many blocks make up a grid, and how many
//! threads make up a block, along each of three axes.
//!
//! Both shapes are plain triples. Nothing here rejects a zero or an oversized
//! axis: device limits differ between devices, so the driver is the one to
//! judge a shape when it is launched.

use vstd::prelude::*;

verus! {

/// Number of threads in one block along each axis.
#[derive(Debug, Clone, Copy, PartialEq, Eq, Structural)]
pub struct Block {
    pub x: u32,
    pub y: u32,
    pub z: u32,
}

impl Block {
    /// One-dimensional block: `x` threads in a row.
    pub fn x(x: u32) -> (b: Self)
        ensures
            b == (Block { x: x, y: 1, z: 1 }),
    {
        Block { x: x, y: 1, z: 1 }
    }

    /// Two-dimensional block: `x` by `y` threads.
    pub fn xy(x: u32, y: u32) -> (b: Self)
        ensures
            b == (Block { x: x, y: y, z: 1 }),
    {
        Block { x: x, y: y, z: 1 }
    }

    /// Three-dimensional block: `x` by `y` by `z` threads.
    pub fn xyz(x: u32, y: u32, z: u32) -> (b: Self)
        ensures
            b == (Block { x: x, y: y, z: z }),
    {
        Block { x: x, y: y, z: z }
    }
}

/// Number of blocks in the grid along each axis.
#[derive(Debug, Clone, Copy, PartialEq, Eq, Structural)]
pub struct Grid {
    pub x: u32,
    pub y: u32,
    pub z: u32,
}

impl Grid {
    /// One-dimensional grid: `x` blocks in a row.
    pub fn x(x: u32) -> (g: Self)
        ensures
            g == (Grid { x: x, y: 1, z: 1 }),
    {
        Grid { x: x, y: 1, z: 1 }
    }

    /// Two-dimensional grid: `x` by `y` blocks.
    pub fn xy(x: u32, y: u32) -> (g: Self)
        ensures
            g == (Grid { x: x, y: y, z: 1 }),
    {
        Grid { x: x, y: y, z: 1 }
    }

    /// Three-dimensional grid: `x` by `y` by `z` blocks.
    pub fn xyz(x: u32, y: u32, z: u32) -> (g: Self)
        ensures
            g == (Grid { x: x, y: y, z: z }),
    {
        Grid { x: x, y: y, z: z }
    }
}

} // verus!
