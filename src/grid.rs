use vstd::prelude::*;

verus! {

/// Rows of the instance grid drawn by the renderer.
pub const INSTANCE_ROWS: u16 = 10;

/// Columns of the instance grid drawn by the renderer.
pub const INSTANCE_COLS: u16 = 10;

/// Distance between neighbouring instances, in world units.
pub const INSTANCE_SPACING: u16 = 3;

/// A position in half world units, so that a grid centred on the origin has
/// integral coordinates whatever its size.
#[derive(Clone, Copy, PartialEq, Eq, Structural, Debug)]
pub struct HalfUnits {
    pub x: i64,
    pub y: i64,
    pub z: i64,
}

impl HalfUnits {
    pub open spec fn is_zero(self) -> bool {
        self.x == 0 && self.y == 0 && self.z == 0
    }
}

/// An instance's rotation.
#[derive(Clone, Copy, PartialEq, Eq, Structural, Debug)]
pub enum Rotation {
    /// No rotation.
    Identity,
    /// A turn of 45 degrees about the axis through the origin and the
    /// instance's own position.
    TiltedAboutPosition,
}

/// One drawn copy of the model: where it stands and how it is turned.
#[derive(Clone, Copy, PartialEq, Eq, Structural, Debug)]
pub struct Instance {
    pub position: HalfUnits,
    pub rotation: Rotation,
}

/// The position of the instance in column `x` and row `z`: `spacing` apart,
/// shifted by half the grid's extent so that the grid sits round the origin.
pub open spec fn cell_position(rows: int, cols: int, spacing: int, x: int, z: int) -> HalfUnits {
    HalfUnits {
        x: (2 * spacing * x - cols * spacing) as i64,
        y: 0,
        z: (2 * spacing * z - rows * spacing) as i64,
    }
}

/// The `k`-th instance of the grid, counted row by row.
pub open spec fn grid_instance(rows: int, cols: int, spacing: int, k: int) -> Instance {
    let p = cell_position(rows, cols, spacing, k % cols, k / cols);
    Instance {
        position: p,
        rotation: if p.is_zero() {
            Rotation::Identity
        } else {
            Rotation::TiltedAboutPosition
        },
    }
}

proof fn lemma_cell_bounds(n: int, spacing: int, i: int)
    requires
        0 <= i < n <= 0xffff,
        0 <= spacing <= 0xffff,
    ensures
        -0x1_0000_0000 < 2 * spacing * i - n * spacing < 0x2_0000_0000,
        0 <= 2 * spacing * i <= 2 * 0xffff * 0xffff,
        0 <= n * spacing <= 0xffff * 0xffff,
{
    assert(0 <= 2 * spacing * i <= 2 * 0xffff * 0xffff) by (nonlinear_arith)
        requires
            0 <= i < n <= 0xffff,
            0 <= spacing <= 0xffff,
    ;
    assert(0 <= n * spacing <= 0xffff * 0xffff) by (nonlinear_arith)
        requires
            0 <= n <= 0xffff,
            0 <= spacing <= 0xffff,
    ;
}

fn cell_offset(n: u16, spacing: u16, i: u16) -> (r: i64)
    requires
        i < n,
    ensures
        r == 2 * spacing * i - n * spacing,
{
    proof {
        lemma_cell_bounds(n as int, spacing as int, i as int);
    }
    2 * (spacing as i64) * (i as i64) - (n as i64) * (spacing as i64)
}

/// The instance grid: `rows` rows of `cols` instances, row by row, each
/// `spacing` world units from its neighbours and the whole shifted by half
/// its extent. An instance is unrotated iff it stands at the origin; every
/// other one is tilted about its own position.
pub fn instance_grid(rows: u16, cols: u16, spacing: u16) -> (r: Vec<Instance>)
    ensures
        r@.len() == rows * cols,
        forall|k: int|
            0 <= k < r@.len() ==> #[trigger] r@[k] == grid_instance(
                rows as int,
                cols as int,
                spacing as int,
                k,
            ),
{
    proof {
        assert(rows * cols <= 0xffff * 0xffff) by (nonlinear_arith)
            requires
                rows <= 0xffff,
                cols <= 0xffff,
        ;
    }
    let total: u32 = (rows as u32) * (cols as u32);
    let mut r: Vec<Instance> = Vec::new();
    let mut k: u32 = 0;
    while k < total
        invariant
            k <= total,
            total == rows * cols,
            r@.len() == k,
            forall|j: int|
                0 <= j < k ==> #[trigger] r@[j] == grid_instance(
                    rows as int,
                    cols as int,
                    spacing as int,
                    j,
                ),
        decreases total - k,
    {
        proof {
            assert(cols > 0) by (nonlinear_arith)
                requires
                    k < total,
                    total == rows * cols,
                    cols >= 0,
            ;
            assert((k as int) / (cols as int) < rows) by (nonlinear_arith)
                requires
                    0 <= k < rows * cols,
                    cols > 0,
            ;
        }
        let z: u16 = (k / (cols as u32)) as u16;
        let x: u16 = (k % (cols as u32)) as u16;
        let position = HalfUnits {
            x: cell_offset(cols, spacing, x),
            y: 0,
            z: cell_offset(rows, spacing, z),
        };
        let rotation = if position.x == 0 && position.y == 0 && position.z == 0 {
            Rotation::Identity
        } else {
            Rotation::TiltedAboutPosition
        };
        r.push(Instance { position, rotation });
        k = k + 1;
    }
    r
}

/// Within a grid whose spacing is not zero, no two instances share an
/// (x, z) position.
pub proof fn lemma_grid_positions_distinct(rows: u16, cols: u16, spacing: u16, i: int, j: int)
    requires
        spacing > 0,
        0 <= i < rows * cols,
        0 <= j < rows * cols,
        i != j,
    ensures
        grid_instance(rows as int, cols as int, spacing as int, i).position.x != grid_instance(
            rows as int,
            cols as int,
            spacing as int,
            j,
        ).position.x || grid_instance(rows as int, cols as int, spacing as int, i).position.z
            != grid_instance(rows as int, cols as int, spacing as int, j).position.z,
{
    let c = cols as int;
    let n = rows as int;
    let s = spacing as int;
    assert(c > 0) by (nonlinear_arith)
        requires
            0 <= i < n * c,
            c >= 0,
    ;
    vstd::arithmetic::div_mod::lemma_fundamental_div_mod(i, c);
    vstd::arithmetic::div_mod::lemma_fundamental_div_mod(j, c);
    let (xi, zi, xj, zj) = (i % c, i / c, j % c, j / c);
    assert(0 <= xi < c && 0 <= xj < c);
    assert(0 <= zi < n) by (nonlinear_arith)
        requires
            0 <= i < n * c,
            c > 0,
            zi == i / c,
    ;
    assert(0 <= zj < n) by (nonlinear_arith)
        requires
            0 <= j < n * c,
            c > 0,
            zj == j / c,
    ;
    lemma_cell_bounds(c, s, xi);
    lemma_cell_bounds(c, s, xj);
    lemma_cell_bounds(n, s, zi);
    lemma_cell_bounds(n, s, zj);
    if xi == xj && zi == zj {
        assert(i == j);
    } else if xi != xj {
        assert(2 * s * xi != 2 * s * xj) by (nonlinear_arith)
            requires
                s > 0,
                xi != xj,
        ;
    } else {
        assert(2 * s * zi != 2 * s * zj) by (nonlinear_arith)
            requires
                s > 0,
                zi != zj,
        ;
    }
}

/// An instance of the grid is unrotated iff its position is the origin.
pub proof fn lemma_grid_rotation(rows: u16, cols: u16, spacing: u16, k: int)
    ensures
        (grid_instance(rows as int, cols as int, spacing as int, k).rotation == Rotation::Identity)
            == grid_instance(rows as int, cols as int, spacing as int, k).position.is_zero(),
{
}

} // verus!
