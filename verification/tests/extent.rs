use kernel_launch::{Block, Grid};

#[test]
fn block_x_sets_other_axes_to_one() {
    assert_eq!(Block::x(128), Block { x: 128, y: 1, z: 1 });
}

#[test]
fn block_xy_sets_z_to_one() {
    assert_eq!(Block::xy(16, 8), Block { x: 16, y: 8, z: 1 });
}

#[test]
fn block_xyz_keeps_all_axes() {
    assert_eq!(Block::xyz(4, 5, 6), Block { x: 4, y: 5, z: 6 });
}

#[test]
fn grid_x_sets_other_axes_to_one() {
    assert_eq!(Grid::x(65535), Grid { x: 65535, y: 1, z: 1 });
}

#[test]
fn grid_xy_sets_z_to_one() {
    assert_eq!(Grid::xy(3, 7), Grid { x: 3, y: 7, z: 1 });
}

#[test]
fn grid_xyz_keeps_all_axes() {
    assert_eq!(Grid::xyz(9, 8, 7), Grid { x: 9, y: 8, z: 7 });
}

#[test]
fn axes_are_kept_in_order() {
    let b = Block::xyz(1, 2, 3);
    assert_eq!((b.x, b.y, b.z), (1, 2, 3));
    let g = Grid::xyz(1, 2, 3);
    assert_eq!((g.x, g.y, g.z), (1, 2, 3));
}

#[test]
fn zero_axes_are_not_rejected() {
    assert_eq!(Block::x(0), Block { x: 0, y: 1, z: 1 });
    assert_eq!(Block::xy(0, 0), Block { x: 0, y: 0, z: 1 });
    assert_eq!(Block::xyz(0, 0, 0), Block { x: 0, y: 0, z: 0 });
    assert_eq!(Grid::x(0), Grid { x: 0, y: 1, z: 1 });
    assert_eq!(Grid::xy(0, 0), Grid { x: 0, y: 0, z: 1 });
    assert_eq!(Grid::xyz(0, 0, 0), Grid { x: 0, y: 0, z: 0 });
}

#[test]
fn largest_axes_are_not_rejected() {
    let m = u32::MAX;
    assert_eq!(Block::x(m), Block { x: m, y: 1, z: 1 });
    assert_eq!(Block::xyz(m, m, m), Block { x: m, y: m, z: m });
    assert_eq!(Grid::xy(m, m), Grid { x: m, y: m, z: 1 });
    assert_eq!(Grid::xyz(m, m, m), Grid { x: m, y: m, z: m });
}

#[test]
fn lower_constructors_agree_with_xyz() {
    assert_eq!(Block::x(5), Block::xyz(5, 1, 1));
    assert_eq!(Block::xy(5, 6), Block::xyz(5, 6, 1));
    assert_eq!(Grid::x(5), Grid::xyz(5, 1, 1));
    assert_eq!(Grid::xy(5, 6), Grid::xyz(5, 6, 1));
}

#[test]
fn extents_are_copied_freely() {
    let b = Block::xy(2, 3);
    let c = b;
    assert_eq!(b, c);
    let g = Grid::xy(2, 3);
    let h = g;
    assert_eq!(g, h);
}
