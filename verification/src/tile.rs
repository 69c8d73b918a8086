use vstd::prelude::*;

verus! {

/// A (row, column) cell address inside the puzzle grid. The same type also
/// serves as a tile's home position: the cell it occupies in the solved state.
#[derive(Clone, Copy, Debug, PartialEq, Eq, Structural)]
pub struct Coord {
    pub row: usize,
    pub col: usize,
}

/// A clockwise quarter-turn rotation: one of four states.
#[derive(Clone, Copy, Debug, PartialEq, Eq, Structural)]
pub enum CwRotation {
    R0,
    R90,
    R180,
    R270,
}

impl CwRotation {
    /// The rotation one quarter turn clockwise from this one.
    pub open spec fn spec_rotate_cw(self) -> CwRotation {
        match self {
            CwRotation::R0 => CwRotation::R90,
            CwRotation::R90 => CwRotation::R180,
            CwRotation::R180 => CwRotation::R270,
            CwRotation::R270 => CwRotation::R0,
        }
    }

    /// The rotation one quarter turn counter-clockwise from this one.
    pub open spec fn spec_rotate_ccw(self) -> CwRotation {
        match self {
            CwRotation::R0 => CwRotation::R270,
            CwRotation::R90 => CwRotation::R0,
            CwRotation::R180 => CwRotation::R90,
            CwRotation::R270 => CwRotation::R180,
        }
    }

    pub fn rotate_cw(&self) -> (r: CwRotation)
        ensures
            r == self.spec_rotate_cw(),
    {
        match self {
            CwRotation::R0 => CwRotation::R90,
            CwRotation::R90 => CwRotation::R180,
            CwRotation::R180 => CwRotation::R270,
            CwRotation::R270 => CwRotation::R0,
        }
    }

    pub fn rotate_ccw(&self) -> (r: CwRotation)
        ensures
            r == self.spec_rotate_ccw(),
    {
        match self {
            CwRotation::R0 => CwRotation::R270,
            CwRotation::R90 => CwRotation::R0,
            CwRotation::R180 => CwRotation::R90,
            CwRotation::R270 => CwRotation::R180,
        }
    }
}

/// One puzzle piece: its home position in the image and its current
/// orientation (two flip axes and a quarter-turn rotation).
#[derive(Clone, Copy, Debug, PartialEq, Eq)]
pub struct Tile {
    /// Handle to this tile's representation in the view layer, if it has one.
    /// The puzzle never looks inside it; it only stores and returns it.
    pub entity: Option<u64>,
    /// Whether the tile image is flipped on the X axis relative to its initial state.
    pub flipped_x: bool,
    /// Whether the tile image is flipped on the Y axis relative to its initial state.
    pub flipped_y: bool,
    /// The tile image's clockwise rotation relative to its initial state.
    pub rotation: CwRotation,
    /// The (row, column) position of this tile within the original image:
    /// the cell it must occupy for the puzzle to be solved.
    pub position: Coord,
    /// The full (rows, columns) size of the puzzle this tile belongs to.
    pub puzzle_size: Coord,
}

impl Tile {
    /// An orientation is neutral exactly when it is visually indistinguishable
    /// from the untouched state: either nothing was changed, or the tile was
    /// flipped on both axes and given a half turn, which cancel out.
    pub open spec fn spec_is_neutral(self) -> bool {
        ||| (!self.flipped_x && !self.flipped_y && self.rotation == CwRotation::R0)
        ||| (self.flipped_x && self.flipped_y && self.rotation == CwRotation::R180)
    }

    /// A freshly cut tile: no view-layer handle yet, neutral orientation,
    /// sitting at its home position.
    pub open spec fn spec_new(position: Coord, puzzle_size: Coord) -> Tile {
        Tile {
            entity: None,
            flipped_x: false,
            flipped_y: false,
            rotation: CwRotation::R0,
            position,
            puzzle_size,
        }
    }

    pub fn new(position: Coord, puzzle_size: Coord) -> (t: Tile)
        ensures
            t == Tile::spec_new(position, puzzle_size),
            t.spec_is_neutral(),
    {
        Tile {
            entity: None,
            flipped_x: false,
            flipped_y: false,
            rotation: CwRotation::R0,
            position,
            puzzle_size,
        }
    }

    pub fn flip_x(&mut self)
        ensures
            *final(self) == (Tile { flipped_x: !old(self).flipped_x, ..*old(self) }),
    {
        self.flipped_x = !self.flipped_x;
    }

    pub fn flip_y(&mut self)
        ensures
            *final(self) == (Tile { flipped_y: !old(self).flipped_y, ..*old(self) }),
    {
        self.flipped_y = !self.flipped_y;
    }

    pub fn rotate_cw(&mut self)
        ensures
            *final(self) == (Tile { rotation: old(self).rotation.spec_rotate_cw(), ..*old(self) }),
    {
        self.rotation = self.rotation.rotate_cw();
    }

    pub fn rotate_ccw(&mut self)
        ensures
            *final(self) == (Tile { rotation: old(self).rotation.spec_rotate_ccw(), ..*old(self) }),
    {
        self.rotation = self.rotation.rotate_ccw();
    }

    /// True if this tile is neither flipped nor rotated, counting the
    /// double-flip half-turn combination as untouched.
    pub fn is_correctly_oriented(&self) -> (r: bool)
        ensures
            r == self.spec_is_neutral(),
    {
        (!self.flipped_x && !self.flipped_y && matches!(self.rotation, CwRotation::R0))
            || (self.flipped_x && self.flipped_y && matches!(self.rotation, CwRotation::R180))
    }

    /// True if a flip contributes to this tile being out of orientation.
    pub fn is_flipped(&self) -> (r: bool)
        ensures
            r == (!self.spec_is_neutral() && (self.flipped_x || self.flipped_y)),
    {
        !self.is_correctly_oriented() && (self.flipped_x || self.flipped_y)
    }

    /// True if a rotation contributes to this tile being out of orientation.
    pub fn is_rotated(&self) -> (r: bool)
        ensures
            r == (!self.spec_is_neutral() && self.rotation != CwRotation::R0),
    {
        !self.is_correctly_oriented() && !matches!(self.rotation, CwRotation::R0)
    }
}

/// Prepared state for the view layer's mesh flip animation: the tile
/// being flipped, which screen axes the animation runs on, and whether the
/// halfway point (where the texture switches sides) has passed. The
/// interpolation itself is engine work; the core only sets the state up.
pub struct MeshFlippingLens {
    pub tile: Tile,
    pub flip_x: bool,
    pub flip_y: bool,
    pub flipped: bool,
}

impl MeshFlippingLens {
    /// An animation state for a flip along the screen X axis.
    pub fn new_flip_x(tile: Tile) -> (r: MeshFlippingLens)
        ensures
            r.tile == tile,
            r.flip_x,
            !r.flip_y,
            !r.flipped,
    {
        MeshFlippingLens { flip_x: true, flip_y: false, flipped: false, tile }
    }

    /// An animation state for a flip along the screen Y axis.
    pub fn new_flip_y(tile: Tile) -> (r: MeshFlippingLens)
        ensures
            r.tile == tile,
            !r.flip_x,
            r.flip_y,
            !r.flipped,
    {
        MeshFlippingLens { flip_x: false, flip_y: true, flipped: false, tile }
    }
}

} // verus!
