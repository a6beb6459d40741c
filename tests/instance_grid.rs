use std::collections::HashSet;

use renderer::grid::{
    instance_grid, HalfUnits, Rotation, INSTANCE_COLS, INSTANCE_ROWS, INSTANCE_SPACING,
};

#[test]
fn ten_by_ten_grid_has_unique_positions() {
    let grid = instance_grid(INSTANCE_ROWS, INSTANCE_COLS, INSTANCE_SPACING);
    assert_eq!(grid.len(), 100);
    let mut seen = HashSet::new();
    for inst in &grid {
        assert_eq!(inst.position.y, 0);
        assert!(seen.insert((inst.position.x, inst.position.z)));
        let at_origin = inst.position.x == 0 && inst.position.z == 0;
        assert_eq!(inst.rotation == Rotation::Identity, at_origin);
    }
    let identities = grid.iter().filter(|i| i.rotation == Rotation::Identity).count();
    assert_eq!(identities, 1);
    assert_eq!(grid[55].position, HalfUnits { x: 0, y: 0, z: 0 });
}

#[test]
fn grid_positions_follow_spacing_and_displacement() {
    let grid = instance_grid(10, 10, 3);
    // world units: x = 3 * col - 15, z = 3 * row - 15, stored doubled
    assert_eq!(grid[0].position, HalfUnits { x: -30, y: 0, z: -30 });
    assert_eq!(grid[1].position, HalfUnits { x: -24, y: 0, z: -30 });
    assert_eq!(grid[10].position, HalfUnits { x: -30, y: 0, z: -24 });
    assert_eq!(grid[99].position, HalfUnits { x: 24, y: 0, z: 24 });
    assert_eq!(grid[0].rotation, Rotation::TiltedAboutPosition);
}

#[test]
fn odd_grid_has_no_unrotated_instance() {
    let grid = instance_grid(3, 2, 1);
    assert_eq!(grid.len(), 6);
    assert_eq!(grid[0].position, HalfUnits { x: -2, y: 0, z: -3 });
    assert_eq!(grid[5].position, HalfUnits { x: 0, y: 0, z: 1 });
    assert!(grid.iter().all(|i| i.rotation == Rotation::TiltedAboutPosition));
}

#[test]
fn empty_grid() {
    assert!(instance_grid(0, 10, 3).is_empty());
    assert!(instance_grid(10, 0, 3).is_empty());
}
