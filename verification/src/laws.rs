use vstd::prelude::*;

use crate::action::PuzzleAction;
use crate::action::is_directional_move;
use crate::tile::Coord;
use crate::tile::CwRotation;
use crate::tile::Tile;
use crate::view::PuzzleView;
use crate::view::lemma_after_move_wf;
use crate::view::lemma_move_legal_characterizes;
use crate::view::lemma_move_target_in_bounds;
use crate::view::local_flip_is_x;

verus! {

/// A rotation one way and then the other lands back on the start.
pub proof fn lemma_rotation_involution(r: CwRotation)
    ensures
        r.spec_rotate_cw().spec_rotate_ccw() == r,
        r.spec_rotate_ccw().spec_rotate_cw() == r,
{
}

/// A legal directional move followed by its reverse restores the grid
/// exactly: same cells, same hole. (The counters are not restored; and a
/// move clamped at a boundary has no such guarantee, since its reverse may
/// displace a tile from an unchanged state.)
pub proof fn lemma_reverse_move_round_trip(v: PuzzleView, action: PuzzleAction)
    requires
        v.wf(),
        is_directional_move(action),
        v.move_legal(action),
    ensures
        v.after_move(action).after_move(action.spec_reverse()).cells == v.cells,
        v.after_move(action).after_move(action.spec_reverse()).hole == v.hole,
{
    lemma_move_legal_characterizes(v, action);
    lemma_move_target_in_bounds(v, action);
    lemma_after_move_wf(v, action);
    let target = v.move_target(action);
    let t = v.cell(target).unwrap();
    let w = v.after_move(action);
    let back = action.spec_reverse();
    assert(w.move_target(back) == v.hole);
    crate::tile_grid::lemma_row_major_index_bounds(target, v.rows, v.cols);
    crate::tile_grid::lemma_row_major_index_bounds(v.hole, v.rows, v.cols);
    crate::tile_grid::lemma_row_major_index_injective(target, v.hole, v.cols);
    assert(w.cell(v.hole) == Some(t));
    assert(w.move_displaces(back));
    let u = w.after_move(back);
    assert(u.hole == v.hole);
    assert forall|i: int| 0 <= i < v.cells.len() implies u.cells[i] == v.cells[i] by {}
    assert(u.cells =~= v.cells);
}

/// A rotation request one way and then the other restores the grid exactly
/// (and moves neither hole nor cursor); only the move counter remembers the
/// pair.
pub proof fn lemma_reverse_rotation_round_trip(v: PuzzleView, clockwise: bool)
    requires
        v.wf(),
    ensures
        v.after_rotate(clockwise).after_rotate(!clockwise).cells == v.cells,
        v.after_rotate(clockwise).after_rotate(!clockwise).hole == v.hole,
        v.after_rotate(clockwise).after_rotate(!clockwise).active == v.active,
{
    if v.active == v.hole || !(v.in_bounds(v.active) && v.cell(v.active) is Some) {
    } else {
        let t = v.cell(v.active).unwrap();
        lemma_rotation_involution(t.rotation);
        crate::tile_grid::lemma_row_major_index_bounds(v.active, v.rows, v.cols);
        let w = v.after_rotate(clockwise);
        let t2 = w.cell(v.active).unwrap();
        assert(t2.rotation == (if clockwise {
            t.rotation.spec_rotate_cw()
        } else {
            t.rotation.spec_rotate_ccw()
        }));
        let u = w.after_rotate(!clockwise);
        assert(u.cell(v.active) == Some(t));
        assert forall|i: int| 0 <= i < v.cells.len() implies u.cells[i] == v.cells[i] by {}
        assert(u.cells =~= v.cells);
    }
}

/// Flip requests name screen axes, but act in tile-local axes: on a tile
/// turned a quarter (90 or 270 degrees) an X request toggles the Y flip
/// flag and an Y request the X flag, while on an upright or half-turned
/// tile each request toggles its own flag. Nothing else of the tile
/// changes.
pub proof fn lemma_flip_axis_remapping(v: PuzzleView, request_x: bool)
    requires
        v.wf(),
        v.active != v.hole,
    ensures
        ({
            let t = v.cell(v.active).unwrap();
            let t2 = v.after_flip(request_x).cell(v.active).unwrap();
            &&& (t.rotation is R90 || t.rotation is R270) ==> (request_x ==> t2.flipped_y
                == !t.flipped_y && t2.flipped_x == t.flipped_x) && (!request_x ==> t2.flipped_x
                == !t.flipped_x && t2.flipped_y == t.flipped_y)
            &&& (t.rotation is R0 || t.rotation is R180) ==> (request_x ==> t2.flipped_x
                == !t.flipped_x && t2.flipped_y == t.flipped_y) && (!request_x ==> t2.flipped_y
                == !t.flipped_y && t2.flipped_x == t.flipped_x)
            &&& t2.rotation == t.rotation
            &&& t2.position == t.position
            &&& t2.entity == t.entity
        }),
{
    let t = v.cell(v.active).unwrap();
    crate::tile_grid::lemma_row_major_index_bounds(v.active, v.rows, v.cols);
    let w = v.after_flip(request_x);
    if local_flip_is_x(t.rotation, request_x) {
        assert(w.cell(v.active) == Some(Tile { flipped_x: !t.flipped_x, ..t }));
    } else {
        assert(w.cell(v.active) == Some(Tile { flipped_y: !t.flipped_y, ..t }));
    }
}

/// A directional move that would push the hole past its edge is clamped on
/// the spot and leaves everything unchanged, the hole and the move counter
/// included.
pub proof fn lemma_boundary_clamp_idempotent(v: PuzzleView, action: PuzzleAction)
    requires
        v.wf(),
        is_directional_move(action),
        !v.move_legal(action),
    ensures
        v.after_move(action) == v,
        v.after_move_counted(action) == v,
        v.after_move_counted(action).with_solved_recomputed() == (PuzzleView {
            is_solved: v.all_correct(),
            ..v
        }),
{
    lemma_move_legal_characterizes(v, action);
}

} // verus!
