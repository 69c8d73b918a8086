use vstd::prelude::*;

use crate::action::MoveOutcome;
use crate::action::OutlineStatus;
use crate::action::PuzzleAction;
use crate::action::is_active_move;
use crate::action::is_directional_move;
use crate::action::is_hole_move;
use crate::tile::Coord;
use crate::tile::CwRotation;
use crate::tile::Tile;
use crate::tile_grid::TileGrid;
use crate::rng::rng_below;
use crate::rng::rng_ratio;
use crate::view::PuzzleView;
use crate::view::all_coords;
use crate::view::lemma_after_active_move_wf;
use crate::view::lemma_after_move_wf;
use crate::view::lemma_move_target_in_bounds;
use crate::view::lemma_after_flip_wf;
use crate::view::lemma_after_rotate_wf;
use crate::view::lemma_home_set_same_positions;
use crate::view::local_flip_is_x;
use crate::view::lemma_move_legal_characterizes;
use crate::view::lemma_replace_tile_wf;
use crate::view::spec_dist_of_1;

verus! {

/// True when the two coordinates are orthogonally adjacent: exactly one
/// step apart along exactly one axis.
pub fn dist_of_1(p1: Coord, p2: Coord) -> (r: bool)
    ensures
        r == spec_dist_of_1(p1, p2),
{
    let dr = if p1.row >= p2.row {
        p1.row - p2.row
    } else {
        p2.row - p1.row
    };
    let dc = if p1.col >= p2.col {
        p1.col - p2.col
    } else {
        p2.col - p1.col
    };
    (dr == 0 && dc == 1) || (dr == 1 && dc == 0)
}

/// The initial content of cell `c` in a fresh puzzle with the given hole.
pub open spec fn initial_cell(c: Coord, hole: Coord, size: Coord) -> Option<Tile> {
    if c == hole {
        None
    } else {
        Some(Tile::spec_new(c, size))
    }
}

/// The sliding-tile puzzle: a grid of tiles with one hole, an active cursor
/// for orientation edits, a derived solved flag and a move counter. All
/// mutation goes through the action entry points, which keep `hole` in
/// lock-step with the grid's one empty cell.
pub struct Puzzle {
    /// Opaque handle to the picture the tiles are cut from; stored for the
    /// view layer and never examined.
    pub image: u64,
    /// The cursor cell that orientation edits target. May equal the hole.
    pub active: Coord,
    /// The coordinate of the one empty cell.
    pub hole: Coord,
    /// The tiles themselves.
    pub tiles: TileGrid,
    /// Whether every tile sits on its home cell with neutral orientation;
    /// recomputed after every processed action, never set directly.
    pub is_solved: bool,
    /// Whether misplaced and misoriented tiles are highlighted.
    pub show_errors: bool,
    /// Opaque view-layer handle for the hole cell, threaded through.
    pub hole_entity: Option<u64>,
    /// Opaque view-layer handle for the action tip, threaded through.
    pub action_tip_entity: Option<u64>,
    /// How many counted actions were applied so far.
    pub actions_count: usize,
}

impl View for Puzzle {
    type V = PuzzleView;

    open spec fn view(&self) -> PuzzleView {
        PuzzleView {
            cells: self.tiles.contents(),
            rows: self.tiles.spec_rows(),
            cols: self.tiles.spec_cols(),
            hole: self.hole,
            active: self.active,
            is_solved: self.is_solved,
            show_errors: self.show_errors,
            actions_count: self.actions_count as nat,
        }
    }
}

impl Puzzle {
    /// Well-formed: the grid is well-shaped and the state invariants of the
    /// view hold (one hole, every other cell occupied, homes distinct).
    pub open spec fn wf(self) -> bool {
        self.tiles.wf() && self@.wf()
    }

    /// Builds a height x width puzzle with every tile on its home cell. The
    /// hole starts at the top-right cell (row 0, last column), or at a
    /// random cell when `random_hole` is set; the cursor starts on the hole.
    pub fn new(
        image: u64,
        width: usize,
        height: usize,
        random_hole: bool,
        rng: &mut rand::rngs::StdRng,
    ) -> (p: Puzzle)
        requires
            width >= 1,
            height >= 1,
            height * width <= usize::MAX,
        ensures
            p.wf(),
            p@.rows == height,
            p@.cols == width,
            p@.in_bounds(p@.hole),
            !random_hole ==> p@.hole == (Coord { row: 0, col: (width - 1) as usize }),
            p@.active == p@.hole,
            !p@.is_solved,
            !p@.show_errors,
            p@.actions_count == 0,
            p.image == image,
            p.hole_entity is None,
            p.action_tip_entity is None,
            forall|c: Coord|
                p@.in_bounds(c) ==> p@.cell(c) == #[trigger] initial_cell(
                    c,
                    p@.hole,
                    Coord { row: height, col: width },
                ),
            p@.home_set() == all_coords(height as nat, width as nat).remove(p@.hole),
    {
        let hole = if random_hole {
            Coord { row: rng_below(rng, height), col: rng_below(rng, width) }
        } else {
            Coord { row: 0, col: width - 1 }
        };
        let size = Coord { row: height, col: width };
        let mut cells: Vec<Option<Tile>> = Vec::new();
        let mut y: usize = 0;
        while y < height
            invariant
                y <= height,
                width >= 1,
                height >= 1,
                height * width <= usize::MAX,
                hole.row < height,
                hole.col < width,
                cells@.len() == y * width,
                forall|c: Coord|
                    c.row < y && c.col < width ==> cells@[c.row * width + c.col]
                        == #[trigger] initial_cell(c, hole, size),
            decreases height - y,
        {
            let mut x: usize = 0;
            proof {
                assert(y * width + width <= height * width) by (nonlinear_arith)
                    requires
                        y < height,
                        width >= 1,
                ;
            }
            while x < width
                invariant
                    x <= width,
                    y < height,
                    width >= 1,
                    y * width + width <= height * width <= usize::MAX,
                    hole.row < height,
                    hole.col < width,
                    cells@.len() == y * width + x,
                    forall|c: Coord|
                        (c.row < y || (c.row == y && c.col < x)) && c.col < width ==> cells@[c.row
                            * width + c.col] == #[trigger] initial_cell(c, hole, size),
                decreases width - x,
            {
                if y == hole.row && x == hole.col {
                    cells.push(None);
                } else {
                    cells.push(Some(Tile::new(Coord { row: y, col: x }, size)));
                }
                x = x + 1;
                proof {
                    assert forall|c: Coord|
                        (c.row < y || (c.row == y && c.col < x)) && c.col
                            < width implies cells@[c.row * width + c.col] == #[trigger] initial_cell(
                        c,
                        hole,
                        size,
                    ) by {
                        if c.row == y && c.col == x - 1 {
                            assert(c.row * width + c.col == cells@.len() - 1);
                        } else {
                            assert(c.row * width + c.col < y * width + (x - 1))
                                by (nonlinear_arith)
                                requires
                                    (c.row < y || (c.row == y && c.col < x - 1)),
                                    c.col < width,
                                    width >= 1,
                                    x >= 1,
                            ;
                        }
                    }
                }
            }
            proof {
                assert((y + 1) * width == y * width + width) by (nonlinear_arith);
            }
            y = y + 1;
        }
        proof {
            assert(height * width > 0) by (nonlinear_arith)
                requires
                    height >= 1,
                    width >= 1,
            ;
            vstd::arithmetic::div_mod::lemma_mod_multiples_basic(height as int, width as int);
        }
        let tiles = TileGrid::from_vec(cells, width);
        proof {
            crate::tile_grid::lemma_rows_from_dims(
                height as nat,
                width as nat,
                tiles.contents().len(),
            );
        }
        let p = Puzzle {
            image,
            active: hole,
            hole,
            tiles,
            is_solved: false,
            show_errors: false,
            hole_entity: None,
            action_tip_entity: None,
            actions_count: 0,
        };
        proof {
            assert forall|c: Coord| p@.in_bounds(c) implies p@.cell(c) == #[trigger] initial_cell(
                c,
                hole,
                size,
            ) by {}
            assert(p@.cell(hole) == initial_cell(hole, hole, size));
            assert(p@.cell(hole) is None);
            assert forall|c: Coord|
                p@.in_bounds(c) && c != p@.hole implies (#[trigger] p@.cell(c)) is Some by {
                assert(p@.cell(c) == initial_cell(c, hole, size));
            }
            assert forall|c: Coord|
                p@.in_bounds(c) && (#[trigger] p@.cell(c)) is Some implies {
                let t = p@.cell(c).unwrap();
                &&& p@.in_bounds(t.position)
                &&& t.puzzle_size.row == p@.rows
                &&& t.puzzle_size.col == p@.cols
            } by {
                assert(p@.cell(c) == initial_cell(c, hole, size));
            }
            assert forall|a: Coord, b: Coord|
                p@.in_bounds(a) && p@.in_bounds(b) && a != b && (#[trigger] p@.cell(a)) is Some
                    && (#[trigger] p@.cell(b)) is Some implies p@.cell(a).unwrap().position
                != p@.cell(b).unwrap().position by {
                assert(p@.cell(a) == initial_cell(a, hole, size));
                assert(p@.cell(b) == initial_cell(b, hole, size));
            }
            assert(p@.wf());
            assert forall|h: Coord|
                p@.home_set().contains(h) implies all_coords(height as nat, width as nat).remove(
                hole,
            ).contains(h) by {
                let c = choose|c: Coord|
                    p@.in_bounds(c) && (#[trigger] p@.cell(c)) is Some && p@.cell(
                        c,
                    ).unwrap().position == h;
                assert(p@.cell(c) == initial_cell(c, hole, size));
            }
            assert forall|h: Coord|
                all_coords(height as nat, width as nat).remove(hole).contains(
                    h,
                ) implies p@.home_set().contains(h) by {
                assert(p@.cell(h) == initial_cell(h, hole, size));
                assert(p@.in_bounds(h) && p@.cell(h) is Some && p@.cell(h).unwrap().position == h);
            }
            assert(p@.home_set() =~= all_coords(height as nat, width as nat).remove(hole));
        }
        p
    }

    /// The (rows, columns) size of the puzzle.
    pub fn size(&self) -> (r: Coord)
        requires
            self.wf(),
        ensures
            r.row == self@.rows,
            r.col == self@.cols,
    {
        let (rows, cols) = self.tiles.size();
        Coord { row: rows, col: cols }
    }

    /// The content of the active cell: the active tile, or None when the
    /// cursor sits on the hole.
    pub fn get_active_tile(&self) -> (r: Option<Tile>)
        requires
            self.wf(),
        ensures
            r == self@.cell(self@.active),
            r is None <==> self@.active == self@.hole,
    {
        match self.tiles.get(self.active) {
            Some(cell) => cell,
            None => None,
        }
    }

    /// Applies a hole move: the event names which neighbouring tile slides
    /// into the hole (or MoveActive for the tile under the cursor). A move
    /// clamped at a boundary, or a MoveActive with the cursor not bordering
    /// the hole, changes nothing. Returns the moved tile's handle with its
    /// destination and source for the view layer; `(None, hole, hole)` when
    /// nothing moved. The homes on the grid are conserved either way.
    pub fn apply_move_event(&mut self, event: PuzzleAction) -> (r: (Option<u64>, Coord, Coord))
        requires
            old(self).wf(),
            is_hole_move(event),
        ensures
            final(self).wf(),
            final(self)@ == old(self)@.after_move(event),
            final(self)@.home_set() == old(self)@.home_set(),
            final(self).image == old(self).image,
            final(self).hole_entity == old(self).hole_entity,
            final(self).action_tip_entity == old(self).action_tip_entity,
            old(self)@.move_displaces(event) ==> r == (
                old(self)@.cell(old(self)@.move_target(event)).unwrap().entity,
                old(self)@.hole,
                old(self)@.move_target(event),
            ) && r.1 != r.2,
            !old(self)@.move_displaces(event) ==> r == (
                None::<u64>,
                old(self)@.hole,
                old(self)@.hole,
            ),
    {
        let size = self.size();
        let mut position = self.hole;
        match event {
            PuzzleAction::MoveLeft => {
                position.col = if position.col + 1 < size.col {
                    position.col + 1
                } else {
                    size.col - 1
                };
            },
            PuzzleAction::MoveRight => {
                position.col = if position.col >= 1 {
                    position.col - 1
                } else {
                    0
                };
            },
            PuzzleAction::MoveUp => {
                position.row = if position.row >= 1 {
                    position.row - 1
                } else {
                    0
                };
            },
            PuzzleAction::MoveDown => {
                position.row = if position.row + 1 < size.row {
                    position.row + 1
                } else {
                    size.row - 1
                };
            },
            PuzzleAction::MoveActive => {
                position = self.active;
            },
            _ => {},
        }
        proof {
            assert(position == old(self)@.move_target(event));
            lemma_move_target_in_bounds(old(self)@, event);
        }
        if !dist_of_1(self.hole, position) {
            proof {
                lemma_after_move_wf(old(self)@, event);
            }
            return (None, self.hole, self.hole);
        }
        let taken = self.tiles.take(position);
        match taken {
            Ok(Some(tile)) => {
                let destination = self.hole;
                self.active = destination;
                let entity = tile.entity;
                proof {
                    crate::tile_grid::lemma_row_major_index_injective(
                        position,
                        old(self).hole,
                        old(self)@.cols,
                    );
                    crate::tile_grid::lemma_row_major_index_bounds(
                        old(self).hole,
                        old(self)@.rows,
                        old(self)@.cols,
                    );
                    crate::tile_grid::lemma_row_major_index_bounds(
                        position,
                        old(self)@.rows,
                        old(self)@.cols,
                    );
                }
                let put_result = self.tiles.put(destination, tile);
                proof {
                    assert(put_result is Ok);
                }
                self.hole = position;
                proof {
                    assert(self@.cells =~= old(self)@.after_move(event).cells);
                    assert(self@ == old(self)@.after_move(event));
                    lemma_after_move_wf(old(self)@, event);
                }
                (entity, destination, position)
            },
            _ => {
                proof {
                    assert(position != old(self).hole);
                    assert(old(self)@.cell(position) is Some);
                    assert(false);
                }
                (None, self.hole, self.hole)
            },
        }
    }

    /// Moves the active cursor one step in the named direction, clamped to
    /// the grid bounds. Pure bookkeeping: the grid, the counters and the
    /// solved flag stay as they are.
    pub fn apply_move_active_event(&mut self, event: PuzzleAction)
        requires
            old(self).wf(),
            is_active_move(event),
        ensures
            final(self).wf(),
            final(self)@ == old(self)@.after_active_move(event),
            final(self)@.home_set() == old(self)@.home_set(),
            final(self).image == old(self).image,
            final(self).hole_entity == old(self).hole_entity,
            final(self).action_tip_entity == old(self).action_tip_entity,
    {
        let size = self.size();
        let mut position = self.active;
        match event {
            PuzzleAction::MoveActiveLeft => {
                position.col = if position.col >= 1 {
                    position.col - 1
                } else {
                    0
                };
            },
            PuzzleAction::MoveActiveRight => {
                position.col = if position.col + 1 < size.col {
                    position.col + 1
                } else {
                    size.col - 1
                };
            },
            PuzzleAction::MoveActiveUp => {
                position.row = if position.row + 1 < size.row {
                    position.row + 1
                } else {
                    size.row - 1
                };
            },
            PuzzleAction::MoveActiveDown => {
                position.row = if position.row >= 1 {
                    position.row - 1
                } else {
                    0
                };
            },
            _ => {},
        }
        self.active = position;
        proof {
            assert(position == old(self)@.active_target(event));
            lemma_after_active_move_wf(old(self)@, event);
            assert(self@ == old(self)@.after_active_move(event));
        }
    }

    /// Resolves MoveActive to the directional move whose target is the
    /// active cell when the cursor borders the hole orthogonally, and to
    /// NoAction when it does not; every other action passes through.
    pub fn convert_action(&self, action: PuzzleAction) -> (r: PuzzleAction)
        requires
            self.wf(),
        ensures
            r == self@.spec_convert_action(action),
    {
        match action {
            PuzzleAction::MoveActive => {
                let h = self.hole;
                let a = self.active;
                if h.row == a.row && a.col + 1 == h.col {
                    PuzzleAction::MoveRight
                } else if h.row == a.row && h.col + 1 == a.col {
                    PuzzleAction::MoveLeft
                } else if h.col == a.col && a.row + 1 == h.row {
                    PuzzleAction::MoveUp
                } else if h.col == a.col && h.row + 1 == a.row {
                    PuzzleAction::MoveDown
                } else {
                    PuzzleAction::NoAction
                }
            },
            _ => action,
        }
    }

    /// Recomputes the solved flag by scanning every cell: the puzzle is
    /// solved exactly when each tile sits on its home cell with neutral
    /// orientation. Called once after every processed action, never patched
    /// incrementally.
    pub fn compute_solved(&mut self)
        requires
            old(self).wf(),
        ensures
            final(self).wf(),
            final(self)@ == old(self)@.with_solved_recomputed(),
            final(self)@.home_set() == old(self)@.home_set(),
            final(self).image == old(self).image,
            final(self).hole_entity == old(self).hole_entity,
            final(self).action_tip_entity == old(self).action_tip_entity,
    {
        let size = self.size();
        let height = size.row;
        let width = size.col;
        let mut all_ok = true;
        let mut y: usize = 0;
        while y < height
            invariant
                self == old(self),
                self.wf(),
                height == self@.rows,
                width == self@.cols,
                y <= height,
                all_ok ==> forall|c: Coord|
                    c.row < y && c.col < width ==> #[trigger] spec_cell_correct(self@, c),
                !all_ok ==> !self@.all_correct(),
            decreases height - y,
        {
            let mut x: usize = 0;
            while x < width
                invariant
                    self == old(self),
                    self.wf(),
                    height == self@.rows,
                    width == self@.cols,
                    y < height,
                    x <= width,
                    all_ok ==> forall|c: Coord|
                        (c.row < y || (c.row == y && c.col < x)) && c.col < width
                            ==> #[trigger] spec_cell_correct(self@, c),
                    !all_ok ==> !self@.all_correct(),
                decreases width - x,
            {
                let cc = Coord { row: y, col: x };
                match self.tiles.get(cc) {
                    Some(Some(tile)) => {
                        if !(tile.position.row == y && tile.position.col == x)
                            || !tile.is_correctly_oriented() {
                            all_ok = false;
                            proof {
                                assert(!spec_cell_correct(self@, cc));
                                assert(!self@.all_correct());
                            }
                        }
                    },
                    _ => {},
                }
                x = x + 1;
                proof {
                    if all_ok {
                        assert forall|c: Coord|
                            (c.row < y || (c.row == y && c.col < x)) && c.col
                                < width implies #[trigger] spec_cell_correct(self@, c) by {
                            if c.row == y && c.col == x - 1 {
                                assert(spec_cell_correct(self@, cc));
                            }
                        }
                    }
                }
            }
            y = y + 1;
        }
        self.is_solved = all_ok;
        proof {
            if all_ok {
                assert forall|c: Coord|
                    old(self)@.in_bounds(c) && (#[trigger] old(self)@.cell(c)) is Some implies {
                    let t = old(self)@.cell(c).unwrap();
                    t.position == c && t.spec_is_neutral()
                } by {
                    assert(spec_cell_correct(old(self)@, c));
                }
                assert(old(self)@.all_correct());
            }
            assert(self@ == old(self)@.with_solved_recomputed());
            crate::view::lemma_solved_recompute_wf(old(self)@);
        }
    }

    /// Replaces the tile on an occupied cell with one that keeps its home
    /// position and size: how orientation edits write a tile back.
    fn set_cell_tile(&mut self, c: Coord, t: Tile)
        requires
            old(self).wf(),
            old(self)@.in_bounds(c),
            old(self)@.cell(c) is Some,
            t.position == old(self)@.cell(c).unwrap().position,
            t.puzzle_size == old(self)@.cell(c).unwrap().puzzle_size,
        ensures
            final(self).wf(),
            final(self)@ == (PuzzleView {
                cells: old(self)@.cells.update(old(self)@.idx(c), Some(t)),
                ..old(self)@
            }),
            final(self)@.home_set() == old(self)@.home_set(),
            final(self).image == old(self).image,
            final(self).hole_entity == old(self).hole_entity,
            final(self).action_tip_entity == old(self).action_tip_entity,
    {
        proof {
            crate::tile_grid::lemma_row_major_index_bounds(c, old(self)@.rows, old(self)@.cols);
        }
        let taken = self.tiles.take(c);
        let put_result = self.tiles.put(c, t);
        proof {
            assert(taken is Ok);
            assert(put_result is Ok);
            assert(self@.cells =~= old(self)@.cells.update(old(self)@.idx(c), Some(t)));
            assert(self@ == (PuzzleView {
                cells: old(self)@.cells.update(old(self)@.idx(c), Some(t)),
                ..old(self)@
            }));
            lemma_replace_tile_wf(old(self)@, c, t);
            assert(self@.wf());
            assert(self.tiles.wf());
        }
    }

    /// Makes the tile carrying the given view-layer handle the active one:
    /// scans the grid row by row and moves the cursor to the first match.
    /// A no-op when no tile carries the handle.
    pub fn set_active_entity(&mut self, ref_entity: u64)
        requires
            old(self).wf(),
        ensures
            final(self).wf(),
            final(self)@ == old(self)@.after_set_active(ref_entity),
            final(self)@.home_set() == old(self)@.home_set(),
            final(self).image == old(self).image,
            final(self).hole_entity == old(self).hole_entity,
            final(self).action_tip_entity == old(self).action_tip_entity,
    {
        let size = self.size();
        let height = size.row;
        let width = size.col;
        let mut found: Option<Coord> = None;
        let mut y: usize = 0;
        while y < height
            invariant
                self == old(self),
                self.wf(),
                height == self@.rows,
                width == self@.cols,
                y <= height,
                (match found {
                    Some(c) => self@.find_entity_at(ref_entity, 0, 0) == Some(c),
                    None => self@.find_entity_at(ref_entity, 0, 0) == self@.find_entity_at(
                        ref_entity,
                        y as nat,
                        0,
                    ),
                }),
            decreases height - y,
        {
            let mut x: usize = 0;
            while x < width
                invariant
                    self == old(self),
                    self.wf(),
                    height == self@.rows,
                    width == self@.cols,
                    y < height,
                    x <= width,
                    (match found {
                        Some(c) => self@.find_entity_at(ref_entity, 0, 0) == Some(c),
                        None => self@.find_entity_at(ref_entity, 0, 0) == self@.find_entity_at(
                            ref_entity,
                            y as nat,
                            x as nat,
                        ),
                    }),
                decreases width - x,
            {
                let cc = Coord { row: y, col: x };
                if found.is_none() {
                    match self.tiles.get(cc) {
                        Some(Some(tile)) => {
                            let matches_handle = match tile.entity {
                                Some(e) => e == ref_entity,
                                None => false,
                            };
                            if matches_handle {
                                found = Some(cc);
                            }
                        },
                        _ => {},
                    }
                }
                x = x + 1;
            }
            y = y + 1;
        }
        match found {
            Some(c) => {
                proof {
                    crate::view::lemma_find_entity_props(old(self)@, ref_entity, 0, 0);
                }
                self.active = c;
            },
            None => {},
        }
        proof {
            crate::view::lemma_after_set_active_wf(old(self)@, ref_entity);
            assert(self@ == old(self)@.after_set_active(ref_entity));
        }
    }

    /// The directional hole moves that are legal now: those whose edge the
    /// hole does not already sit on. On a grid with at least two rows and
    /// two columns there are always at least two of them.
    fn get_valid_moves(&self) -> (r: Vec<PuzzleAction>)
        requires
            self.wf(),
        ensures
            forall|a: PuzzleAction| #[trigger]
                r@.contains(a) <==> (is_directional_move(a) && self@.move_legal(a)),
            r@.no_duplicates(),
            self@.rows >= 2 && self@.cols >= 2 ==> r@.len() >= 2,
    {
        broadcast use vstd::seq_lib::lemma_seq_contains_after_push;

        let size = self.size();
        let mut actions: Vec<PuzzleAction> = Vec::new();
        assert(forall|a: PuzzleAction| !actions@.contains(a));
        if self.hole.row > 0 {
            actions.push(PuzzleAction::MoveUp);
        }
        let ghost s1 = actions@;
        assert(forall|a: PuzzleAction| #[trigger]
            s1.contains(a) <==> (a == PuzzleAction::MoveUp && self.hole.row > 0));
        if self.hole.row + 1 < size.row {
            actions.push(PuzzleAction::MoveDown);
        }
        let ghost s2 = actions@;
        assert(forall|a: PuzzleAction| #[trigger]
            s2.contains(a) <==> (s1.contains(a) || (a == PuzzleAction::MoveDown && self.hole.row
                + 1 < self@.rows)));
        if self.hole.col > 0 {
            actions.push(PuzzleAction::MoveRight);
        }
        let ghost s3 = actions@;
        assert(forall|a: PuzzleAction| #[trigger]
            s3.contains(a) <==> (s2.contains(a) || (a == PuzzleAction::MoveRight && self.hole.col
                > 0)));
        if self.hole.col + 1 < size.col {
            actions.push(PuzzleAction::MoveLeft);
        }
        let ghost s4 = actions@;
        assert(forall|a: PuzzleAction| #[trigger]
            s4.contains(a) <==> (s3.contains(a) || (a == PuzzleAction::MoveLeft && self.hole.col
                + 1 < self@.cols)));
        proof {
            assert(s1.no_duplicates());
            assert(s2.no_duplicates()) by {
                assert(!s1.contains(PuzzleAction::MoveDown));
            }
            assert(s3.no_duplicates()) by {
                assert(!s2.contains(PuzzleAction::MoveRight));
            }
            assert(s4.no_duplicates()) by {
                assert(!s3.contains(PuzzleAction::MoveLeft));
            }
            if self@.rows >= 2 && self@.cols >= 2 {
                let vertical = if self.hole.row > 0 {
                    PuzzleAction::MoveUp
                } else {
                    PuzzleAction::MoveDown
                };
                let horizontal = if self.hole.col > 0 {
                    PuzzleAction::MoveRight
                } else {
                    PuzzleAction::MoveLeft
                };
                assert(s4.contains(vertical));
                assert(s4.contains(horizontal));
                let i = choose|i: int| 0 <= i < s4.len() && s4[i] == vertical;
                let j = choose|j: int| 0 <= j < s4.len() && s4[j] == horizontal;
                assert(i != j);
            }
        }
        actions
    }

    /// Scrambles the puzzle with a random walk of `n_moves` hole moves.
    /// Each step chooses uniformly among the legal directional moves minus
    /// the one that would exactly undo the previous step, applies it, and
    /// then perturbs the moved tile's orientation: with probability
    /// flip_ratio.0/flip_ratio.1 a random nonzero flip combination, with
    /// probability rotation_ratio.0/rotation_ratio.1 one to three clockwise
    /// quarter turns. The walk never counts towards the move counter.
    ///
    /// Afterwards the cursor is put back on the hole and the puzzle is
    /// flagged unsolved unconditionally: a walk that happens to land on the
    /// solved arrangement still shows as unsolved until the next processed
    /// action recomputes the flag. That mirrors the gameplay policy of
    /// treating a just-shuffled board as in progress.
    ///
    /// Returns the moves of the walk, in which no move is immediately
    /// followed by its reverse. On a grid with at least two rows and two
    /// columns the walk always succeeds; a single line can run out of
    /// non-reversing moves and a single cell has none at all: then the walk
    /// stops early with an error, leaving a well-formed partly shuffled
    /// state.
    pub fn shuffle(
        &mut self,
        n_moves: usize,
        flip_ratio: (u32, u32),
        rotation_ratio: (u32, u32),
        rng: &mut rand::rngs::StdRng,
    ) -> (r: Result<Vec<PuzzleAction>, ShuffleError>)
        requires
            old(self).wf(),
            flip_ratio.1 > 0,
            flip_ratio.0 <= flip_ratio.1,
            rotation_ratio.1 > 0,
            rotation_ratio.0 <= rotation_ratio.1,
        ensures
            final(self).wf(),
            final(self)@.home_set() == old(self)@.home_set(),
            final(self)@.rows == old(self)@.rows,
            final(self)@.cols == old(self)@.cols,
            final(self).active == final(self).hole,
            !final(self).is_solved,
            final(self).show_errors == old(self).show_errors,
            final(self).actions_count == old(self).actions_count,
            final(self).image == old(self).image,
            final(self).hole_entity == old(self).hole_entity,
            final(self).action_tip_entity == old(self).action_tip_entity,
            (match r {
                Ok(moves) => {
                    &&& moves@.len() == n_moves
                    &&& forall|i: int|
                        0 <= i < moves@.len() ==> is_directional_move(#[trigger] moves@[i])
                    &&& forall|i: int|
                        1 <= i < moves@.len() ==> #[trigger] moves@[i] != moves@[i
                            - 1].spec_reverse()
                },
                Err(e) => {
                    &&& e == ShuffleError::NoLegalMove
                    &&& (old(self)@.rows < 2 || old(self)@.cols < 2)
                },
            }),
            old(self)@.rows >= 2 && old(self)@.cols >= 2 ==> r is Ok,
    {
        let mut moves: Vec<PuzzleAction> = Vec::new();
        let mut reverse_move: Option<PuzzleAction> = None;
        let mut i: usize = 0;
        while i < n_moves
            invariant
                self.wf(),
                flip_ratio.1 > 0,
                flip_ratio.0 <= flip_ratio.1,
                rotation_ratio.1 > 0,
                rotation_ratio.0 <= rotation_ratio.1,
                i <= n_moves,
                self@.rows == old(self)@.rows,
                self@.cols == old(self)@.cols,
                self@.home_set() == old(self)@.home_set(),
                self.show_errors == old(self).show_errors,
                self.actions_count == old(self).actions_count,
                self.image == old(self).image,
                self.hole_entity == old(self).hole_entity,
                self.action_tip_entity == old(self).action_tip_entity,
                moves@.len() == i,
                forall|j: int| 0 <= j < moves@.len() ==> is_directional_move(#[trigger] moves@[j]),
                forall|j: int|
                    1 <= j < moves@.len() ==> #[trigger] moves@[j] != moves@[j
                        - 1].spec_reverse(),
                (match reverse_move {
                    Some(rm) => i >= 1 && rm == moves@[i - 1].spec_reverse(),
                    None => i == 0,
                }),
            decreases n_moves - i,
        {
            let valid = self.get_valid_moves();
            let mut possible: Vec<PuzzleAction> = Vec::new();
            let mut k: usize = 0;
            while k < valid.len()
                invariant
                    k <= valid@.len(),
                    forall|a: PuzzleAction| #[trigger]
                        possible@.contains(a) ==> valid@.contains(a),
                    (match reverse_move {
                        Some(rm) => forall|a: PuzzleAction| #[trigger]
                            possible@.contains(a) ==> a != rm,
                        None => true,
                    }),
                    forall|j: int|
                        0 <= j < k ==> ((match reverse_move {
                            Some(rm) => valid@[j] == rm,
                            None => false,
                        }) || possible@.contains(#[trigger] valid@[j])),
                decreases valid@.len() - k,
            {
                broadcast use vstd::seq_lib::lemma_seq_contains_after_push;

                let a = valid[k];
                let keep = match reverse_move {
                    Some(rm) => a != rm,
                    None => true,
                };
                if keep {
                    possible.push(a);
                }
                k = k + 1;
            }
            if possible.len() == 0 {
                proof {
                    if self@.rows >= 2 && self@.cols >= 2 {
                        let vertical = if self.hole.row > 0 {
                            PuzzleAction::MoveUp
                        } else {
                            PuzzleAction::MoveDown
                        };
                        let horizontal = if self.hole.col > 0 {
                            PuzzleAction::MoveRight
                        } else {
                            PuzzleAction::MoveLeft
                        };
                        assert(valid@.contains(vertical));
                        assert(valid@.contains(horizontal));
                        let iv = choose|iv: int| 0 <= iv < valid@.len() && valid@[iv] == vertical;
                        let ih = choose|ih: int|
                            0 <= ih < valid@.len() && valid@[ih] == horizontal;
                        assert(false);
                    }
                }
                let ghost before = self@;
                self.active = self.hole;
                self.is_solved = false;
                proof {
                    assert forall|d: Coord| self@.in_bounds(d) implies #[trigger] self@.cell(d)
                        == before.cell(d) by {}
                    assert(self@.wf());
                    lemma_home_set_same_positions(before, self@);
                }
                return Err(ShuffleError::NoLegalMove);
            }
            let pick = rng_below(rng, possible.len());
            let action = possible[pick];
            proof {
                assert(possible@[pick as int] == action);
                assert(possible@.contains(action));
                assert(valid@.contains(action));
                lemma_move_legal_characterizes(self@, action);
            }
            reverse_move = Some(action.reverse());
            let _descriptor = self.apply_move_event(action);
            moves.push(action);
            let active_tile = self.get_active_tile();
            match active_tile {
                Some(tile) => {
                    let mut t2 = tile;
                    if rng_ratio(rng, flip_ratio.0, flip_ratio.1) {
                        let what = rng_below(rng, 3);
                        if what == 0 || what == 2 {
                            t2.flip_x();
                        }
                        if what == 1 || what == 2 {
                            t2.flip_y();
                        }
                    }
                    if rng_ratio(rng, rotation_ratio.0, rotation_ratio.1) {
                        let turns = rng_below(rng, 3) + 1;
                        let mut j: usize = 0;
                        while j < turns
                            invariant
                                j <= turns,
                                turns <= 3,
                                t2.position == tile.position,
                                t2.puzzle_size == tile.puzzle_size,
                            decreases turns - j,
                        {
                            t2.rotate_cw();
                            j = j + 1;
                        }
                    }
                    let cursor = self.active;
                    self.set_cell_tile(cursor, t2);
                },
                None => {},
            }
            i = i + 1;
        }
        let ghost before = self@;
        self.active = self.hole;
        self.is_solved = false;
        proof {
            assert forall|d: Coord| self@.in_bounds(d) implies #[trigger] self@.cell(d)
                == before.cell(d) by {}
            assert(self@.wf());
            lemma_home_set_same_positions(before, self@);
        }
        Ok(moves)
    }

    /// The single action entry point: dispatches one action, recomputes the
    /// solved flag, and reports what happened for the view layer. Actions
    /// arriving on a solved puzzle are ignored (soft-terminal state). Hole
    /// moves and orientation edits on an occupied active cell count towards
    /// the move counter; clamped moves and edits on the hole do not. Flip
    /// requests name screen axes and are remapped onto the tile's local
    /// axes according to its rotation. The homes on the grid are conserved
    /// by every action.
    pub fn apply(&mut self, action: PuzzleAction) -> (r: MoveOutcome)
        requires
            old(self).wf(),
            old(self).actions_count < usize::MAX,
        ensures
            final(self).wf(),
            final(self)@.home_set() == old(self)@.home_set(),
            final(self).image == old(self).image,
            final(self).hole_entity == old(self).hole_entity,
            final(self).action_tip_entity == old(self).action_tip_entity,
            old(self).is_solved ==> final(self)@ == old(self)@ && r == MoveOutcome::NoChange,
            !old(self).is_solved ==> {
                &&& (action is NoAction ==> final(self)@ == old(self)@.with_solved_recomputed()
                    && r == MoveOutcome::NoChange)
                &&& (is_hole_move(action) ==> final(self)@ == old(self)@.after_move_counted(
                    action,
                ).with_solved_recomputed() && r == (if old(self)@.move_displaces(action) {
                    MoveOutcome::Moved {
                        entity: old(self)@.entity_of(old(self)@.move_target(action)),
                        destination: old(self)@.hole,
                        source: old(self)@.move_target(action),
                    }
                } else {
                    MoveOutcome::NoChange
                }))
                &&& (is_active_move(action) ==> final(self)@ == old(self)@.after_active_move(
                    action,
                ).with_solved_recomputed() && r == MoveOutcome::ActiveChanged)
                &&& (action matches PuzzleAction::SetActive(e) ==> final(self)@ == old(
                    self,
                )@.after_set_active(e).with_solved_recomputed() && r
                    == MoveOutcome::ActiveChanged)
                &&& (action is ActiveFlipX ==> final(self)@ == old(self)@.after_flip(
                    true,
                ).with_solved_recomputed() && r == spec_flip_outcome(old(self)@, true))
                &&& (action is ActiveFlipY ==> final(self)@ == old(self)@.after_flip(
                    false,
                ).with_solved_recomputed() && r == spec_flip_outcome(old(self)@, false))
                &&& (action is ActiveRotateCW ==> final(self)@ == old(self)@.after_rotate(
                    true,
                ).with_solved_recomputed() && r == spec_rotate_outcome(old(self)@, true))
                &&& (action is ActiveRotateCCW ==> final(self)@ == old(self)@.after_rotate(
                    false,
                ).with_solved_recomputed() && r == spec_rotate_outcome(old(self)@, false))
            },
    {
        if self.is_solved {
            return MoveOutcome::NoChange;
        }
        let outcome: MoveOutcome = match action {
            PuzzleAction::NoAction => MoveOutcome::NoChange,
            PuzzleAction::MoveLeft
            | PuzzleAction::MoveRight
            | PuzzleAction::MoveUp
            | PuzzleAction::MoveDown
            | PuzzleAction::MoveActive => {
                let (entity, destination, source) = self.apply_move_event(action);
                if destination != source {
                    let ghost mid = self@;
                    self.actions_count = self.actions_count + 1;
                    proof {
                        crate::view::lemma_wf_bookkeeping(mid, self@);
                    }
                    MoveOutcome::Moved { entity, destination, source }
                } else {
                    MoveOutcome::NoChange
                }
            },
            PuzzleAction::MoveActiveLeft
            | PuzzleAction::MoveActiveRight
            | PuzzleAction::MoveActiveUp
            | PuzzleAction::MoveActiveDown => {
                self.apply_move_active_event(action);
                MoveOutcome::ActiveChanged
            },
            PuzzleAction::SetActive(e) => {
                self.set_active_entity(e);
                MoveOutcome::ActiveChanged
            },
            PuzzleAction::ActiveFlipX | PuzzleAction::ActiveFlipY => {
                let request_x = matches!(action, PuzzleAction::ActiveFlipX);
                match self.get_active_tile() {
                    Some(tile) => {
                        self.actions_count = self.actions_count + 1;
                        proof {
                            crate::view::lemma_wf_bookkeeping(old(self)@, self@);
                        }
                        let local_x = match tile.rotation {
                            CwRotation::R0 | CwRotation::R180 => request_x,
                            CwRotation::R90 | CwRotation::R270 => !request_x,
                        };
                        let mut t2 = tile;
                        if local_x {
                            t2.flip_x();
                        } else {
                            t2.flip_y();
                        }
                        let entity = t2.entity;
                        let cursor = self.active;
                        self.set_cell_tile(cursor, t2);
                        proof {
                            lemma_after_flip_wf(old(self)@, request_x);
                            assert(self@ == old(self)@.after_flip(request_x));
                        }
                        MoveOutcome::Flipped { entity, local_x }
                    },
                    None => MoveOutcome::NoChange,
                }
            },
            PuzzleAction::ActiveRotateCW | PuzzleAction::ActiveRotateCCW => {
                let clockwise = matches!(action, PuzzleAction::ActiveRotateCW);
                match self.get_active_tile() {
                    Some(tile) => {
                        self.actions_count = self.actions_count + 1;
                        proof {
                            crate::view::lemma_wf_bookkeeping(old(self)@, self@);
                        }
                        let mut t2 = tile;
                        if clockwise {
                            t2.rotate_cw();
                        } else {
                            t2.rotate_ccw();
                        }
                        let entity = t2.entity;
                        let rotation = t2.rotation;
                        let cursor = self.active;
                        self.set_cell_tile(cursor, t2);
                        proof {
                            lemma_after_rotate_wf(old(self)@, clockwise);
                            assert(self@ == old(self)@.after_rotate(clockwise));
                        }
                        MoveOutcome::Rotated { entity, rotation }
                    },
                    None => MoveOutcome::NoChange,
                }
            },
        };
        self.compute_solved();
        outcome
    }

    /// The feedback classification of every cell, row by row, paired with
    /// the cell's view-layer handle; and whether the hole marker shows (the
    /// cursor sits on the hole). A pure read: the policy of what counts as
    /// an error lives here, the colours live in the view layer.
    pub fn show_outlines(&self) -> (r: (Vec<(Option<u64>, OutlineStatus)>, bool))
        requires
            self.wf(),
        ensures
            r.0@.len() == self@.rows * self@.cols,
            forall|c: Coord|
                self@.in_bounds(c) ==> r.0@[self@.idx(c)] == (
                    self@.entity_of(c),
                    #[trigger] self@.outline_of(c),
                ),
            r.1 == (self@.hole == self@.active),
    {
        let size = self.size();
        let height = size.row;
        let width = size.col;
        let mut out: Vec<(Option<u64>, OutlineStatus)> = Vec::new();
        let mut y: usize = 0;
        while y < height
            invariant
                self.wf(),
                height == self@.rows,
                width == self@.cols,
                y <= height,
                out@.len() == y * width,
                forall|c: Coord|
                    c.row < y && c.col < width ==> out@[c.row * width + c.col] == (
                        self@.entity_of(c),
                        #[trigger] self@.outline_of(c),
                    ),
            decreases height - y,
        {
            let mut x: usize = 0;
            proof {
                assert(y * width + width <= height * width) by (nonlinear_arith)
                    requires
                        y < height,
                        width >= 1,
                ;
            }
            while x < width
                invariant
                    self.wf(),
                    height == self@.rows,
                    width == self@.cols,
                    y < height,
                    x <= width,
                    y * width + width <= height * width,
                    out@.len() == y * width + x,
                    forall|c: Coord|
                        (c.row < y || (c.row == y && c.col < x)) && c.col < width ==> out@[c.row
                            * width + c.col] == (
                            self@.entity_of(c),
                            #[trigger] self@.outline_of(c),
                        ),
                decreases width - x,
            {
                let cc = Coord { row: y, col: x };
                let entry: (Option<u64>, OutlineStatus) = match self.tiles.get(cc) {
                    Some(Some(tile)) => {
                        let misplaced = self.show_errors && !(tile.position.row == y
                            && tile.position.col == x);
                        let misoriented = self.show_errors && !tile.is_correctly_oriented();
                        let status = if self.is_solved {
                            OutlineStatus::Hidden
                        } else if misplaced && misoriented {
                            OutlineStatus::MisplacedAndMisoriented
                        } else if misplaced {
                            OutlineStatus::Misplaced
                        } else if misoriented {
                            OutlineStatus::Misoriented
                        } else if self.active.row == y && self.active.col == x {
                            OutlineStatus::Active
                        } else {
                            OutlineStatus::Hidden
                        };
                        (tile.entity, status)
                    },
                    _ => (None, OutlineStatus::Hidden),
                };
                out.push(entry);
                x = x + 1;
                proof {
                    assert forall|c: Coord|
                        (c.row < y || (c.row == y && c.col < x)) && c.col < width implies out@[c.row
                        * width + c.col] == (
                        self@.entity_of(c),
                        #[trigger] self@.outline_of(c),
                    ) by {
                        if c.row == y && c.col == x - 1 {
                            assert(c.row * width + c.col == out@.len() - 1);
                            assert(out@[c.row * width + c.col] == entry);
                        } else {
                            assert(c.row * width + c.col < y * width + (x - 1))
                                by (nonlinear_arith)
                                requires
                                    (c.row < y || (c.row == y && c.col < x - 1)),
                                    c.col < width,
                                    width >= 1,
                                    x >= 1,
                            ;
                        }
                    }
                }
            }
            proof {
                assert((y + 1) * width == y * width + width) by (nonlinear_arith);
            }
            y = y + 1;
        }
        let hole_active = self.hole.row == self.active.row && self.hole.col == self.active.col;
        (out, hole_active)
    }
}

/// The outcome a flip request reports: the affected tile's handle and the
/// local axis it toggled, or no change when the cursor sat on the hole.
pub open spec fn spec_flip_outcome(v: PuzzleView, request_x: bool) -> MoveOutcome {
    if v.cell(v.active) is Some {
        MoveOutcome::Flipped {
            entity: v.cell(v.active).unwrap().entity,
            local_x: local_flip_is_x(v.cell(v.active).unwrap().rotation, request_x),
        }
    } else {
        MoveOutcome::NoChange
    }
}

/// The outcome a rotation request reports: the affected tile's handle and
/// its new rotation, or no change when the cursor sat on the hole.
pub open spec fn spec_rotate_outcome(v: PuzzleView, clockwise: bool) -> MoveOutcome {
    if v.cell(v.active) is Some {
        MoveOutcome::Rotated {
            entity: v.cell(v.active).unwrap().entity,
            rotation: (if clockwise {
                v.cell(v.active).unwrap().rotation.spec_rotate_cw()
            } else {
                v.cell(v.active).unwrap().rotation.spec_rotate_ccw()
            }),
        }
    } else {
        MoveOutcome::NoChange
    }
}

/// Why a shuffle stopped early instead of panicking or spinning.
#[derive(Clone, Copy, Debug, PartialEq, Eq, Structural)]
pub enum ShuffleError {
    /// No legal non-reversing move was available: the grid is a single
    /// cell, or a single line whose walk ran into its own trail.
    NoLegalMove,
}

/// Whether the tile on cell `c` (if any) sits on its home with neutral
/// orientation.
pub open spec fn spec_cell_correct(v: PuzzleView, c: Coord) -> bool {
    v.cell(c) is Some ==> {
        let t = v.cell(c).unwrap();
        t.position == c && t.spec_is_neutral()
    }
}

} // verus!
