use vstd::prelude::*;

use crate::action::OutlineStatus;
use crate::action::PuzzleAction;
use crate::action::is_directional_move;
use crate::action::is_hole_move;
use crate::tile::Coord;
use crate::tile::CwRotation;
use crate::tile::Tile;

verus! {

/// The absolute difference of two integers.
pub open spec fn abs_diff(a: int, b: int) -> int {
    if a >= b {
        a - b
    } else {
        b - a
    }
}

/// True when two coordinates are orthogonally adjacent: they differ by
/// exactly one step along exactly one axis.
pub open spec fn spec_dist_of_1(p1: Coord, p2: Coord) -> bool {
    ||| (abs_diff(p1.row as int, p2.row as int) == 0 && abs_diff(p1.col as int, p2.col as int) == 1)
    ||| (abs_diff(p1.row as int, p2.row as int) == 1 && abs_diff(p1.col as int, p2.col as int) == 0)
}

/// The set of all coordinates of a rows x cols grid.
pub open spec fn all_coords(rows: nat, cols: nat) -> Set<Coord> {
    Set::new(|c: Coord| c.row < rows && c.col < cols)
}

/// A coordinate from mathematical row and column values.
pub open spec fn coord(row: int, col: int) -> Coord {
    Coord { row: row as usize, col: col as usize }
}

/// The flip axis in the tile's local frame for a screen-axis flip request.
/// A quarter-turned tile has its axes swapped, so the request crosses over;
/// an upright or half-turned tile takes the request as it stands.
pub open spec fn local_flip_is_x(rotation: CwRotation, request_x: bool) -> bool {
    match rotation {
        CwRotation::R0 | CwRotation::R180 => request_x,
        CwRotation::R90 | CwRotation::R270 => !request_x,
    }
}

/// The abstract state of a puzzle: its cells row by row, its shape, and its
/// bookkeeping fields. Every contract of the concrete puzzle type is stated
/// over this view.
pub struct PuzzleView {
    pub cells: Seq<Option<Tile>>,
    pub rows: nat,
    pub cols: nat,
    pub hole: Coord,
    pub active: Coord,
    pub is_solved: bool,
    pub show_errors: bool,
    pub actions_count: nat,
}

impl PuzzleView {
    /// The row-major position of coordinate `c` in `cells`.
    pub open spec fn idx(self, c: Coord) -> int {
        crate::tile_grid::row_major_index(c, self.cols)
    }

    pub open spec fn in_bounds(self, c: Coord) -> bool {
        c.row < self.rows && c.col < self.cols
    }

    pub open spec fn cell(self, c: Coord) -> Option<Tile>
        recommends
            self.in_bounds(c),
    {
        self.cells[self.idx(c)]
    }

    /// Well-formedness. Besides shape, it pins the two central invariants:
    /// the hole coordinate names the one empty cell while every other cell
    /// holds a tile, and no two tiles claim the same home position.
    pub open spec fn wf(self) -> bool {
        &&& self.rows > 0
        &&& self.cols > 0
        &&& self.rows <= usize::MAX
        &&& self.cols <= usize::MAX
        &&& self.cells.len() == self.rows * self.cols
        &&& self.in_bounds(self.hole)
        &&& self.in_bounds(self.active)
        &&& self.cell(self.hole) is None
        &&& forall|c: Coord|
            self.in_bounds(c) && c != self.hole ==> (#[trigger] self.cell(c)) is Some
        &&& forall|c: Coord|
            self.in_bounds(c) && (#[trigger] self.cell(c)) is Some ==> {
                let t = self.cell(c).unwrap();
                &&& self.in_bounds(t.position)
                &&& t.puzzle_size.row == self.rows
                &&& t.puzzle_size.col == self.cols
            }
        &&& forall|a: Coord, b: Coord|
            self.in_bounds(a) && self.in_bounds(b) && a != b && (#[trigger] self.cell(a)) is Some
                && (#[trigger] self.cell(b)) is Some ==> self.cell(a).unwrap().position
                != self.cell(b).unwrap().position
    }

    /// The set of home positions of the tiles now on the grid. Hole moves
    /// rearrange the cells but never change this set: no tile is duplicated
    /// or lost.
    pub open spec fn home_set(self) -> Set<Coord> {
        Set::new(
            |h: Coord|
                exists|c: Coord|
                    self.in_bounds(c) && (#[trigger] self.cell(c)) is Some && self.cell(
                        c,
                    ).unwrap().position == h,
        )
    }

    /// Every tile sits on its home cell with neutral orientation.
    pub open spec fn all_correct(self) -> bool {
        forall|c: Coord|
            self.in_bounds(c) && (#[trigger] self.cell(c)) is Some ==> {
                let t = self.cell(c).unwrap();
                t.position == c && t.spec_is_neutral()
            }
    }

    /// The view after the solved flag is recomputed from the arrangement.
    pub open spec fn with_solved_recomputed(self) -> PuzzleView {
        PuzzleView { is_solved: self.all_correct(), ..self }
    }

    /// The cell whose tile a hole move would slide into the hole: one step
    /// from the hole, clamped to the grid bounds, or the active cell for
    /// MoveActive.
    pub open spec fn move_target(self, action: PuzzleAction) -> Coord {
        let h = self.hole;
        match action {
            PuzzleAction::MoveLeft => coord(
                h.row as int,
                if h.col + 1 < self.cols {
                    h.col + 1
                } else {
                    self.cols - 1
                },
            ),
            PuzzleAction::MoveRight => coord(
                h.row as int,
                if h.col >= 1 {
                    h.col - 1
                } else {
                    0
                },
            ),
            PuzzleAction::MoveUp => coord(
                if h.row >= 1 {
                    h.row - 1
                } else {
                    0
                },
                h.col as int,
            ),
            PuzzleAction::MoveDown => coord(
                if h.row + 1 < self.rows {
                    h.row + 1
                } else {
                    self.rows - 1
                },
                h.col as int,
            ),
            PuzzleAction::MoveActive => self.active,
            _ => h,
        }
    }

    /// True when the hole move would actually displace a tile (its clamped
    /// target is adjacent to the hole and occupied).
    pub open spec fn move_displaces(self, action: PuzzleAction) -> bool {
        let target = self.move_target(action);
        spec_dist_of_1(self.hole, target) && self.in_bounds(target) && self.cell(target) is Some
    }

    /// The state after a hole move: a clamped or vacuous move leaves the
    /// state unchanged; otherwise the target tile slides onto the hole cell,
    /// the hole takes the target's place, and the moved tile becomes active.
    pub open spec fn after_move(self, action: PuzzleAction) -> PuzzleView {
        let target = self.move_target(action);
        if !self.move_displaces(action) {
            self
        } else {
            let t = self.cell(target).unwrap();
            PuzzleView {
                cells: self.cells.update(self.idx(target), None).update(
                    self.idx(self.hole),
                    Some(t),
                ),
                hole: target,
                active: self.hole,
                ..self
            }
        }
    }

    /// A hole move together with the move-count policy: the counter advances
    /// exactly when a tile was displaced.
    pub open spec fn after_move_counted(self, action: PuzzleAction) -> PuzzleView {
        let m = self.after_move(action);
        if self.move_displaces(action) {
            PuzzleView { actions_count: (self.actions_count + 1) as nat, ..m }
        } else {
            m
        }
    }

    /// Where an active-cursor move puts the cursor: one step, clamped to the
    /// grid bounds.
    pub open spec fn active_target(self, action: PuzzleAction) -> Coord {
        let a = self.active;
        match action {
            PuzzleAction::MoveActiveLeft => coord(
                a.row as int,
                if a.col >= 1 {
                    a.col - 1
                } else {
                    0
                },
            ),
            PuzzleAction::MoveActiveRight => coord(
                a.row as int,
                if a.col + 1 < self.cols {
                    a.col + 1
                } else {
                    self.cols - 1
                },
            ),
            PuzzleAction::MoveActiveUp => coord(
                if a.row + 1 < self.rows {
                    a.row + 1
                } else {
                    self.rows - 1
                },
                a.col as int,
            ),
            PuzzleAction::MoveActiveDown => coord(
                if a.row >= 1 {
                    a.row - 1
                } else {
                    0
                },
                a.col as int,
            ),
            _ => a,
        }
    }

    /// The state after an active-cursor move: pure bookkeeping, the grid and
    /// the counters stay as they are.
    pub open spec fn after_active_move(self, action: PuzzleAction) -> PuzzleView {
        PuzzleView { active: self.active_target(action), ..self }
    }

    /// The state after a screen-axis flip request on the active cell: a
    /// no-op when the cursor sits on the hole; otherwise the flip flag of
    /// the tile-local axis toggles and the action counts.
    pub open spec fn after_flip(self, request_x: bool) -> PuzzleView {
        if self.active == self.hole || !(self.in_bounds(self.active) && self.cell(self.active)
            is Some) {
            self
        } else {
            let t = self.cell(self.active).unwrap();
            let t2 = if local_flip_is_x(t.rotation, request_x) {
                Tile { flipped_x: !t.flipped_x, ..t }
            } else {
                Tile { flipped_y: !t.flipped_y, ..t }
            };
            PuzzleView {
                cells: self.cells.update(self.idx(self.active), Some(t2)),
                actions_count: (self.actions_count + 1) as nat,
                ..self
            }
        }
    }

    /// The state after a rotation request on the active cell: a no-op when
    /// the cursor sits on the hole; otherwise the active tile turns one
    /// quarter turn and the action counts.
    pub open spec fn after_rotate(self, clockwise: bool) -> PuzzleView {
        if self.active == self.hole || !(self.in_bounds(self.active) && self.cell(self.active)
            is Some) {
            self
        } else {
            let t = self.cell(self.active).unwrap();
            let t2 = Tile {
                rotation: if clockwise {
                    t.rotation.spec_rotate_cw()
                } else {
                    t.rotation.spec_rotate_ccw()
                },
                ..t
            };
            PuzzleView {
                cells: self.cells.update(self.idx(self.active), Some(t2)),
                actions_count: (self.actions_count + 1) as nat,
                ..self
            }
        }
    }

    /// Scans row by row, starting at (row, col), for the first cell whose
    /// tile carries the view-layer handle `e`.
    pub open spec fn find_entity_at(self, e: u64, row: nat, col: nat) -> Option<Coord>
        decreases self.rows - row, self.cols - col,
    {
        if row >= self.rows || self.cols == 0 {
            None
        } else if col >= self.cols {
            self.find_entity_at(e, row + 1, 0)
        } else if {
            let cc = coord(row as int, col as int);
            self.cell(cc) is Some && self.cell(cc).unwrap().entity == Some(e)
        } {
            Some(coord(row as int, col as int))
        } else {
            self.find_entity_at(e, row, col + 1)
        }
    }

    /// The state after a set-active request: the cursor lands on the first
    /// cell (in row-major order) whose tile carries the handle, and stays
    /// put when no tile does.
    pub open spec fn after_set_active(self, e: u64) -> PuzzleView {
        match self.find_entity_at(e, 0, 0) {
            Some(c) => PuzzleView { active: c, ..self },
            None => self,
        }
    }

    /// MoveActive resolves to the directional move whose target is the
    /// active cell when it borders the hole orthogonally, else to no action;
    /// every other action passes through unchanged.
    pub open spec fn spec_convert_action(self, action: PuzzleAction) -> PuzzleAction {
        if action is MoveActive {
            let dr = self.hole.row - self.active.row;
            let dc = self.hole.col - self.active.col;
            if dr == 0 && dc == 1 {
                PuzzleAction::MoveRight
            } else if dr == 0 && dc == -1 {
                PuzzleAction::MoveLeft
            } else if dr == 1 && dc == 0 {
                PuzzleAction::MoveUp
            } else if dr == -1 && dc == 0 {
                PuzzleAction::MoveDown
            } else {
                PuzzleAction::NoAction
            }
        } else {
            action
        }
    }

    /// A directional hole move is legal exactly when the hole is not already
    /// on the edge it would run into, so the move displaces a tile.
    pub open spec fn move_legal(self, action: PuzzleAction) -> bool {
        match action {
            PuzzleAction::MoveUp => self.hole.row > 0,
            PuzzleAction::MoveDown => self.hole.row + 1 < self.rows,
            PuzzleAction::MoveRight => self.hole.col > 0,
            PuzzleAction::MoveLeft => self.hole.col + 1 < self.cols,
            _ => false,
        }
    }

    /// The view-layer handle of the tile on cell `c`, if both exist.
    pub open spec fn entity_of(self, c: Coord) -> Option<u64> {
        if self.cell(c) is Some {
            self.cell(c).unwrap().entity
        } else {
            None
        }
    }

    /// The feedback classification of one cell: error highlights only when
    /// error display is switched on, the active highlight only on an
    /// otherwise clean cell, and nothing once the puzzle is solved.
    pub open spec fn outline_of(self, c: Coord) -> OutlineStatus {
        if self.is_solved || !(self.cell(c) is Some) {
            OutlineStatus::Hidden
        } else {
            let t = self.cell(c).unwrap();
            let misplaced = self.show_errors && t.position != c;
            let misoriented = self.show_errors && !t.spec_is_neutral();
            if misplaced && misoriented {
                OutlineStatus::MisplacedAndMisoriented
            } else if misplaced {
                OutlineStatus::Misplaced
            } else if misoriented {
                OutlineStatus::Misoriented
            } else if self.active == c {
                OutlineStatus::Active
            } else {
                OutlineStatus::Hidden
            }
        }
    }
}

/// Two views with the same shape whose cells agree on occupancy and on tile
/// homes have the same home set: orientation edits never create or destroy
/// a tile.
pub proof fn lemma_home_set_same_positions(v1: PuzzleView, v2: PuzzleView)
    requires
        v1.rows == v2.rows,
        v1.cols == v2.cols,
        forall|c: Coord|
            v1.in_bounds(c) ==> ((#[trigger] v1.cell(c)) is Some <==> (#[trigger] v2.cell(c))
                is Some),
        forall|c: Coord|
            v1.in_bounds(c) && (#[trigger] v1.cell(c)) is Some ==> v1.cell(c).unwrap().position
                == v2.cell(c).unwrap().position,
    ensures
        v1.home_set() == v2.home_set(),
{
    assert forall|h: Coord| v1.home_set().contains(h) implies v2.home_set().contains(h) by {
        let c = choose|c: Coord|
            v1.in_bounds(c) && (#[trigger] v1.cell(c)) is Some && v1.cell(c).unwrap().position
                == h;
        assert(v2.in_bounds(c) && v2.cell(c) is Some && v2.cell(c).unwrap().position == h);
    }
    assert forall|h: Coord| v2.home_set().contains(h) implies v1.home_set().contains(h) by {
        let c = choose|c: Coord|
            v2.in_bounds(c) && (#[trigger] v2.cell(c)) is Some && v2.cell(c).unwrap().position
                == h;
        assert(v1.in_bounds(c) && v1.cell(c) is Some && v1.cell(c).unwrap().position == h);
    }
    assert(v1.home_set() =~= v2.home_set());
}

/// A move that slides one tile from `src` onto `dst` and empties `src`
/// leaves the home set as it was.
pub proof fn lemma_home_set_swap(v1: PuzzleView, v2: PuzzleView, src: Coord, dst: Coord)
    requires
        v1.rows == v2.rows,
        v1.cols == v2.cols,
        v1.in_bounds(src),
        v1.in_bounds(dst),
        v1.cell(src) is Some,
        v2.cell(src) is None,
        v1.cell(dst) is None,
        v2.cell(dst) is Some,
        v2.cell(dst).unwrap().position == v1.cell(src).unwrap().position,
        forall|c: Coord|
            v1.in_bounds(c) && c != src && c != dst ==> #[trigger] v2.cell(c) == v1.cell(c),
    ensures
        v1.home_set() == v2.home_set(),
{
    assert forall|h: Coord| v1.home_set().contains(h) implies v2.home_set().contains(h) by {
        let c = choose|c: Coord|
            v1.in_bounds(c) && (#[trigger] v1.cell(c)) is Some && v1.cell(c).unwrap().position
                == h;
        if c == src {
            assert(v2.cell(dst) is Some && v2.cell(dst).unwrap().position == h);
        } else {
            assert(v2.cell(c) == v1.cell(c));
        }
    }
    assert forall|h: Coord| v2.home_set().contains(h) implies v1.home_set().contains(h) by {
        let c = choose|c: Coord|
            v2.in_bounds(c) && (#[trigger] v2.cell(c)) is Some && v2.cell(c).unwrap().position
                == h;
        if c == dst {
            assert(v1.cell(src) is Some && v1.cell(src).unwrap().position == h);
        } else {
            assert(v1.cell(c) == v2.cell(c));
        }
    }
    assert(v1.home_set() =~= v2.home_set());
}

/// The clamped target of any hole move stays on the grid.
pub proof fn lemma_move_target_in_bounds(v: PuzzleView, action: PuzzleAction)
    requires
        v.wf(),
        is_hole_move(action),
    ensures
        v.in_bounds(v.move_target(action)),
{
}

/// The clamped target of any active-cursor move stays on the grid.
pub proof fn lemma_active_target_in_bounds(v: PuzzleView, action: PuzzleAction)
    requires
        v.wf(),
    ensures
        v.in_bounds(v.active_target(action)),
{
}

/// Replacing the tile on an occupied cell with one that keeps its home
/// position and size preserves well-formedness and the home set.
pub proof fn lemma_replace_tile_wf(v: PuzzleView, c: Coord, t: Tile)
    requires
        v.wf(),
        v.in_bounds(c),
        v.cell(c) is Some,
        t.position == v.cell(c).unwrap().position,
        t.puzzle_size == v.cell(c).unwrap().puzzle_size,
    ensures
        (PuzzleView { cells: v.cells.update(v.idx(c), Some(t)), ..v }).wf(),
        (PuzzleView { cells: v.cells.update(v.idx(c), Some(t)), ..v }).home_set() == v.home_set(),
{
    let w = PuzzleView { cells: v.cells.update(v.idx(c), Some(t)), ..v };
    crate::tile_grid::lemma_row_major_index_bounds(c, v.rows, v.cols);
    assert forall|d: Coord| v.in_bounds(d) && d != c implies #[trigger] w.cell(d) == v.cell(d) by {
        crate::tile_grid::lemma_row_major_index_injective(d, c, v.cols);
        crate::tile_grid::lemma_row_major_index_bounds(d, v.rows, v.cols);
    }
    assert(w.cell(c) == Some(t));
    assert(c != v.hole);
    assert(w.cell(w.hole) is None);
    assert forall|d: Coord| w.in_bounds(d) && d != w.hole implies (#[trigger] w.cell(d)) is Some by {
        if d != c {
            assert(w.cell(d) == v.cell(d));
        }
    }
    assert forall|d: Coord| w.in_bounds(d) && (#[trigger] w.cell(d)) is Some implies {
        let tt = w.cell(d).unwrap();
        &&& w.in_bounds(tt.position)
        &&& tt.puzzle_size.row == w.rows
        &&& tt.puzzle_size.col == w.cols
    } by {
        if d != c {
            assert(w.cell(d) == v.cell(d));
        }
    }
    assert forall|a: Coord, b: Coord|
        w.in_bounds(a) && w.in_bounds(b) && a != b && (#[trigger] w.cell(a)) is Some
            && (#[trigger] w.cell(b)) is Some implies w.cell(a).unwrap().position
        != w.cell(b).unwrap().position by {
        if a != c {
            assert(w.cell(a) == v.cell(a));
        }
        if b != c {
            assert(w.cell(b) == v.cell(b));
        }
    }
    assert(w.wf());
    lemma_home_set_same_positions(v, w);
}

/// A hole move keeps the state well-formed and conserves the homes of the
/// tiles on the grid: nothing is duplicated and nothing is lost.
pub proof fn lemma_after_move_wf(v: PuzzleView, action: PuzzleAction)
    requires
        v.wf(),
        is_hole_move(action),
    ensures
        v.after_move(action).wf(),
        v.after_move(action).home_set() == v.home_set(),
{
    lemma_move_target_in_bounds(v, action);
    let target = v.move_target(action);
    let w = v.after_move(action);
    if v.move_displaces(action) {
        let t = v.cell(target).unwrap();
        assert(target != v.hole);
        crate::tile_grid::lemma_row_major_index_bounds(target, v.rows, v.cols);
        crate::tile_grid::lemma_row_major_index_bounds(v.hole, v.rows, v.cols);
        crate::tile_grid::lemma_row_major_index_injective(target, v.hole, v.cols);
        assert(w.cell(target) is None);
        assert(w.cell(v.hole) == Some(t));
        assert forall|d: Coord|
            v.in_bounds(d) && d != target && d != v.hole implies #[trigger] w.cell(d) == v.cell(
            d,
        ) by {
            crate::tile_grid::lemma_row_major_index_injective(d, target, v.cols);
            crate::tile_grid::lemma_row_major_index_injective(d, v.hole, v.cols);
            crate::tile_grid::lemma_row_major_index_bounds(d, v.rows, v.cols);
        }
        assert forall|d: Coord|
            w.in_bounds(d) && d != w.hole implies (#[trigger] w.cell(d)) is Some by {
            if d == v.hole {
            } else if d != target {
                assert(w.cell(d) == v.cell(d));
            }
        }
        assert forall|d: Coord| w.in_bounds(d) && (#[trigger] w.cell(d)) is Some implies {
            let tt = w.cell(d).unwrap();
            &&& w.in_bounds(tt.position)
            &&& tt.puzzle_size.row == w.rows
            &&& tt.puzzle_size.col == w.cols
        } by {
            if d == v.hole {
                assert(w.cell(d) == Some(t));
            } else if d != target {
                assert(w.cell(d) == v.cell(d));
            }
        }
        assert forall|a: Coord, b: Coord|
            w.in_bounds(a) && w.in_bounds(b) && a != b && (#[trigger] w.cell(a)) is Some
                && (#[trigger] w.cell(b)) is Some implies w.cell(a).unwrap().position != w.cell(
            b,
        ).unwrap().position by {
            let oa = if a == v.hole {
                target
            } else {
                a
            };
            let ob = if b == v.hole {
                target
            } else {
                b
            };
            assert(a != target && b != target);
            assert(w.cell(a).unwrap().position == v.cell(oa).unwrap().position);
            assert(w.cell(b).unwrap().position == v.cell(ob).unwrap().position);
        }
        assert(w.wf());
        lemma_home_set_swap(v, w, target, v.hole);
    } else {
        assert(w == v);
    }
}

/// An active-cursor move keeps the state well-formed and leaves the cells,
/// and so the home set, untouched.
pub proof fn lemma_after_active_move_wf(v: PuzzleView, action: PuzzleAction)
    requires
        v.wf(),
    ensures
        v.after_active_move(action).wf(),
        v.after_active_move(action).home_set() == v.home_set(),
{
    lemma_active_target_in_bounds(v, action);
    let w = v.after_active_move(action);
    assert forall|d: Coord| v.in_bounds(d) implies #[trigger] w.cell(d) == v.cell(d) by {}
    assert(w.wf());
    lemma_home_set_same_positions(v, w);
}

/// A flip request keeps the state well-formed and conserves the home set.
pub proof fn lemma_after_flip_wf(v: PuzzleView, request_x: bool)
    requires
        v.wf(),
    ensures
        v.after_flip(request_x).wf(),
        v.after_flip(request_x).home_set() == v.home_set(),
{
    if v.active == v.hole || !(v.in_bounds(v.active) && v.cell(v.active) is Some) {
    } else {
        let t = v.cell(v.active).unwrap();
        let t2 = if local_flip_is_x(t.rotation, request_x) {
            Tile { flipped_x: !t.flipped_x, ..t }
        } else {
            Tile { flipped_y: !t.flipped_y, ..t }
        };
        lemma_replace_tile_wf(v, v.active, t2);
        assert(v.after_flip(request_x) == (PuzzleView {
            cells: v.cells.update(v.idx(v.active), Some(t2)),
            actions_count: (v.actions_count + 1) as nat,
            ..v
        }));
        let w0 = PuzzleView { cells: v.cells.update(v.idx(v.active), Some(t2)), ..v };
        let w = v.after_flip(request_x);
        assert forall|d: Coord| v.in_bounds(d) implies #[trigger] w.cell(d) == w0.cell(d) by {}
        assert(w.wf());
        lemma_home_set_same_positions(w0, w);
    }
}

/// A rotation request keeps the state well-formed and conserves the home set.
pub proof fn lemma_after_rotate_wf(v: PuzzleView, clockwise: bool)
    requires
        v.wf(),
    ensures
        v.after_rotate(clockwise).wf(),
        v.after_rotate(clockwise).home_set() == v.home_set(),
{
    if v.active == v.hole || !(v.in_bounds(v.active) && v.cell(v.active) is Some) {
    } else {
        let t = v.cell(v.active).unwrap();
        let t2 = Tile {
            rotation: if clockwise {
                t.rotation.spec_rotate_cw()
            } else {
                t.rotation.spec_rotate_ccw()
            },
            ..t
        };
        lemma_replace_tile_wf(v, v.active, t2);
        let w0 = PuzzleView { cells: v.cells.update(v.idx(v.active), Some(t2)), ..v };
        let w = v.after_rotate(clockwise);
        assert forall|d: Coord| v.in_bounds(d) implies #[trigger] w.cell(d) == w0.cell(d) by {}
        assert(w.wf());
        lemma_home_set_same_positions(w0, w);
    }
}

/// Whatever the entity scan finds is an occupied in-bounds cell whose tile
/// carries the handle.
pub proof fn lemma_find_entity_props(v: PuzzleView, e: u64, row: nat, col: nat)
    requires
        v.wf(),
    ensures
        v.find_entity_at(e, row, col) matches Some(c) ==> v.in_bounds(c) && v.cell(c) is Some
            && v.cell(c).unwrap().entity == Some(e),
    decreases v.rows - row, v.cols - col,
{
    if row >= v.rows || v.cols == 0 {
    } else if col >= v.cols {
        lemma_find_entity_props(v, e, row + 1, 0);
    } else if {
        let cc = coord(row as int, col as int);
        v.cell(cc) is Some && v.cell(cc).unwrap().entity == Some(e)
    } {
    } else {
        lemma_find_entity_props(v, e, row, col + 1);
    }
}

/// A set-active request keeps the state well-formed and leaves the cells,
/// and so the home set, untouched.
pub proof fn lemma_after_set_active_wf(v: PuzzleView, e: u64)
    requires
        v.wf(),
    ensures
        v.after_set_active(e).wf(),
        v.after_set_active(e).home_set() == v.home_set(),
{
    lemma_find_entity_props(v, e, 0, 0);
    let w = v.after_set_active(e);
    assert forall|d: Coord| v.in_bounds(d) implies #[trigger] w.cell(d) == v.cell(d) by {}
    assert(w.wf());
    lemma_home_set_same_positions(v, w);
}

/// Recomputing the solved flag keeps the state well-formed and leaves the
/// cells, and so the home set, untouched.
pub proof fn lemma_solved_recompute_wf(v: PuzzleView)
    requires
        v.wf(),
    ensures
        v.with_solved_recomputed().wf(),
        v.with_solved_recomputed().home_set() == v.home_set(),
{
    let w = v.with_solved_recomputed();
    assert forall|d: Coord| v.in_bounds(d) implies #[trigger] w.cell(d) == v.cell(d) by {}
    assert(w.wf());
    lemma_home_set_same_positions(v, w);
}

/// A legal directional move displaces a tile; an illegal one is clamped on
/// the spot, so the whole state is left exactly as it was.
pub proof fn lemma_move_legal_characterizes(v: PuzzleView, action: PuzzleAction)
    requires
        v.wf(),
        is_directional_move(action),
    ensures
        v.move_legal(action) ==> v.move_displaces(action),
        !v.move_legal(action) ==> v.move_target(action) == v.hole && !v.move_displaces(action)
            && v.after_move(action) == v && v.after_move_counted(action) == v,
{
    if v.move_legal(action) {
        let target = v.move_target(action);
        assert(spec_dist_of_1(v.hole, target));
        assert(v.in_bounds(target)) by {
            lemma_move_target_in_bounds(v, action);
        }
        assert(target != v.hole);
        assert(v.cell(target) is Some);
    }
}

/// Changing only the cursor, the counters or the flags of a well-formed
/// view keeps it well-formed and leaves the home set alone, as long as the
/// cursor stays on the grid.
pub proof fn lemma_wf_bookkeeping(v: PuzzleView, w: PuzzleView)
    requires
        v.wf(),
        w.cells == v.cells,
        w.rows == v.rows,
        w.cols == v.cols,
        w.hole == v.hole,
        v.in_bounds(w.active),
    ensures
        w.wf(),
        w.home_set() == v.home_set(),
{
    assert forall|d: Coord| w.in_bounds(d) implies #[trigger] w.cell(d) == v.cell(d) by {}
    assert(w.wf());
    lemma_home_set_same_positions(v, w);
}

} // verus!
