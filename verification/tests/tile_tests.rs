use taquin::Coord;
use taquin::CwRotation;
use taquin::MeshFlippingLens;
use taquin::Tile;

fn tile() -> Tile {
    Tile::new(
        Coord { row: 1, col: 2 },
        Coord { row: 3, col: 3 },
    )
}

#[test]
fn fresh_tile_is_neutral() {
    let t = tile();
    assert!(t.is_correctly_oriented());
    assert!(!t.is_flipped());
    assert!(!t.is_rotated());
    assert_eq!(t.rotation, CwRotation::R0);
    assert_eq!(t.entity, None);
    assert_eq!(t.position, Coord { row: 1, col: 2 });
}

#[test]
fn double_flip_half_turn_is_neutral() {
    // Flipping both axes and rotating a half turn is indistinguishable
    // from the untouched tile.
    let mut t = tile();
    t.flip_x();
    t.flip_y();
    t.rotate_cw();
    t.rotate_cw();
    assert_eq!(t.rotation, CwRotation::R180);
    assert!(t.is_correctly_oriented());
    assert!(!t.is_flipped());
    assert!(!t.is_rotated());
}

#[test]
fn single_flip_is_not_neutral() {
    let mut t = tile();
    t.flip_x();
    assert!(!t.is_correctly_oriented());
    assert!(t.is_flipped());
    assert!(!t.is_rotated());
}

#[test]
fn single_rotation_is_not_neutral() {
    let mut t = tile();
    t.rotate_cw();
    assert!(!t.is_correctly_oriented());
    assert!(!t.is_flipped());
    assert!(t.is_rotated());
}

#[test]
fn rotation_cycles_clockwise() {
    assert_eq!(CwRotation::R0.rotate_cw(), CwRotation::R90);
    assert_eq!(CwRotation::R90.rotate_cw(), CwRotation::R180);
    assert_eq!(CwRotation::R180.rotate_cw(), CwRotation::R270);
    assert_eq!(CwRotation::R270.rotate_cw(), CwRotation::R0);
}

#[test]
fn rotation_cycles_counter_clockwise() {
    assert_eq!(CwRotation::R0.rotate_ccw(), CwRotation::R270);
    assert_eq!(CwRotation::R270.rotate_ccw(), CwRotation::R180);
    assert_eq!(CwRotation::R180.rotate_ccw(), CwRotation::R90);
    assert_eq!(CwRotation::R90.rotate_ccw(), CwRotation::R0);
}

#[test]
fn rotate_back_and_forth_restores() {
    let mut t = tile();
    t.rotate_cw();
    t.rotate_ccw();
    assert_eq!(t.rotation, CwRotation::R0);
    assert!(t.is_correctly_oriented());
}

#[test]
fn mesh_flipping_lens_constructors() {
    let a = MeshFlippingLens::new_flip_x(tile());
    assert!(a.flip_x);
    assert!(!a.flip_y);
    assert!(!a.flipped);
    assert_eq!(a.tile.position, Coord { row: 1, col: 2 });
    let b = MeshFlippingLens::new_flip_y(tile());
    assert!(!b.flip_x);
    assert!(b.flip_y);
    assert!(!b.flipped);
}
