//! The starting voxel volume: a signed-distance field of a ground plane and
//! four unit cubes, sampled on a 64 x 64 x 1024 grid at four cells per world
//! unit and quantised to a byte per cell. Distances are carried in
//! quarter-unit fixed point, so every cell's value is an exact function of
//! its coordinates.

use vstd::prelude::*;

verus! {

/// Cells per world unit along each axis.
pub const CELLS_PER_UNIT: usize = 4;

/// Grid cells along the x and y axes.
pub const GRID_XY: usize = 64;

/// Grid cells along the z axis.
pub const GRID_Z: usize = 1024;

/// Cells in the whole volume.
pub const VOXEL_COUNT: usize = 64 * 64 * 1024;

/// The distance range, in world units, that the byte encoding spans.
pub const SDF_RANGE: i64 = 10;

pub open spec fn abs_int(a: int) -> int {
    if a < 0 {
        -a
    } else {
        a
    }
}

pub open spec fn pos_part(a: int) -> int {
    if a > 0 {
        a
    } else {
        0
    }
}

pub open spec fn min_int(a: int, b: int) -> int {
    if a < b {
        a
    } else {
        b
    }
}

pub open spec fn max_int(a: int, b: int) -> int {
    if a > b {
        a
    } else {
        b
    }
}

/// The integer square root, floored.
pub open spec fn spec_isqrt(n: nat) -> nat
    decreases n,
{
    if n == 0 {
        0
    } else {
        let r = spec_isqrt((n - 1) as nat);
        if (r + 1) * (r + 1) <= n {
            (r + 1) as nat
        } else {
            r
        }
    }
}

pub proof fn lemma_isqrt_bounds(n: nat)
    ensures
        spec_isqrt(n) * spec_isqrt(n) <= n,
        n < (spec_isqrt(n) + 1) * (spec_isqrt(n) + 1),
    decreases n,
{
    if n == 0 {
        assert(spec_isqrt(n) == 0);
        assert((spec_isqrt(n) + 1) * (spec_isqrt(n) + 1) == 1) by (nonlinear_arith)
            requires
                spec_isqrt(n) == 0,
        ;
    } else {
        lemma_isqrt_bounds((n - 1) as nat);
        let r = spec_isqrt((n - 1) as nat);
        assert(r * r <= n - 1);
        assert(n - 1 < (r + 1) * (r + 1));
        if (r + 1) * (r + 1) <= n {
            assert(spec_isqrt(n) == r + 1);
            assert((r + 2) * (r + 2) > (r + 1) * (r + 1)) by (nonlinear_arith);
            assert(n < (r + 2) * (r + 2));
            assert(n < (spec_isqrt(n) + 1) * (spec_isqrt(n) + 1));
        } else {
            assert(spec_isqrt(n) == r);
            assert(n < (r + 1) * (r + 1));
            assert(n < (spec_isqrt(n) + 1) * (spec_isqrt(n) + 1));
        }
    }
}

proof fn lemma_isqrt_unique(a: nat, b: nat, n: nat)
    requires
        a * a <= n < (a + 1) * (a + 1),
        b * b <= n < (b + 1) * (b + 1),
    ensures
        a == b,
{
    if a < b {
        assert((a + 1) * (a + 1) <= b * b) by (nonlinear_arith)
            requires
                a + 1 <= b,
        ;
    }
    if b < a {
        assert((b + 1) * (b + 1) <= a * a) by (nonlinear_arith)
            requires
                b + 1 <= a,
        ;
    }
}

/// The integer square root, by bisection.
pub fn isqrt(n: u64) -> (r: u64)
    requires
        n <= 0xffff_ffff,
    ensures
        r * r <= n < (r + 1) * (r + 1),
        r == spec_isqrt(n as nat),
{
    let mut lo: u64 = 0;
    let mut hi: u64 = 0xffff;
    proof {
        assert((0xffffu64 + 1) * (0xffffu64 + 1) > 0xffff_ffff) by (nonlinear_arith);
    }
    while lo < hi
        invariant
            lo <= hi <= 0xffff,
            lo * lo <= n,
            n < (hi + 1) * (hi + 1),
        decreases hi - lo,
    {
        let mid = (lo + hi + 1) / 2;
        proof {
            assert(mid * mid <= 0xffff * 0xffff) by (nonlinear_arith)
                requires
                    mid <= 0xffff,
            ;
        }
        if mid * mid <= n {
            lo = mid;
        } else {
            hi = mid - 1;
        }
    }
    proof {
        lemma_isqrt_bounds(n as nat);
        lemma_isqrt_unique(lo as nat, spec_isqrt(n as nat), n as nat);
    }
    lo
}

/// The distance, in quarter units, from a point to a unit cube centred on the
/// origin, where the point's coordinates are given in quarter units: the
/// length of the point's offset beyond the cube's faces, minus how far inside
/// the farthest face it sits.
pub open spec fn spec_sd_cube(ax: int, ay: int, az: int) -> int {
    let qx = abs_int(ax) - 2;
    let qy = abs_int(ay) - 2;
    let qz = abs_int(az) - 2;
    let l2 = qx * pos_part(qx) + qy * pos_part(qy) + qz * pos_part(qz);
    spec_isqrt(l2 as nat) + min_int(max_int(qx, max_int(qy, qz)), 0)
}

/// The scene's signed distance at a grid cell, in quarter units: the least of
/// the ground plane one unit up and four unit cubes, three side by side with
/// one stacked, centred eight and a half units up.
pub open spec fn spec_voxel_sd(x: int, y: int, z: int) -> int {
    let plane = z - 4;
    let c1 = spec_sd_cube(x - 22, y - 10, z - 34);
    let c2 = spec_sd_cube(x - 14, y - 10, z - 34);
    let c3 = spec_sd_cube(x - 10, y - 10, z - 34);
    let c4 = spec_sd_cube(x - 14, y - 14, z - 34);
    min_int(plane, min_int(c1, min_int(c2, min_int(c3, c4))))
}

/// Division by 44 rounded to the nearest integer, halves away from zero.
pub open spec fn spec_round_div_44(n: int) -> int {
    if n >= 0 {
        (n + 22) / 44
    } else {
        -((-n + 22) / 44)
    }
}

/// A quarter-unit distance quantised to a byte: distances from minus one to
/// ten units map linearly onto 0 to 255, clamped at both ends.
pub open spec fn spec_voxel_value(x: int, y: int, z: int) -> u8 {
    let d = spec_round_div_44(255 * (spec_voxel_sd(x, y, z) + 4));
    if d < 0 {
        0
    } else if d > 255 {
        255
    } else {
        d as u8
    }
}

fn sd_cube(ax: i64, ay: i64, az: i64) -> (r: i64)
    requires
        -2048 <= ax <= 2048,
        -2048 <= ay <= 2048,
        -2048 <= az <= 2048,
    ensures
        r == spec_sd_cube(ax as int, ay as int, az as int),
        -2 <= r <= 4096,
{
    let qx: i64 = if ax < 0 {
        -ax - 2
    } else {
        ax - 2
    };
    let qy: i64 = if ay < 0 {
        -ay - 2
    } else {
        ay - 2
    };
    let qz: i64 = if az < 0 {
        -az - 2
    } else {
        az - 2
    };
    let px: i64 = if qx > 0 {
        qx
    } else {
        0
    };
    let py: i64 = if qy > 0 {
        qy
    } else {
        0
    };
    let pz: i64 = if qz > 0 {
        qz
    } else {
        0
    };
    proof {
        assert(qx * px <= 2048 * 2048 && qx * px >= 0) by (nonlinear_arith)
            requires
                -2 <= qx <= 2046 && px == pos_part(qx as int),
        ;
        assert(qy * py <= 2048 * 2048 && qy * py >= 0) by (nonlinear_arith)
            requires
                -2 <= qy <= 2046 && py == pos_part(qy as int),
        ;
        assert(qz * pz <= 2048 * 2048 && qz * pz >= 0) by (nonlinear_arith)
            requires
                -2 <= qz <= 2046 && pz == pos_part(qz as int),
        ;
    }
    let l2: i64 = qx * px + qy * py + qz * pz;
    let root = isqrt(l2 as u64);
    let mut m: i64 = if qy > qz {
        qy
    } else {
        qz
    };
    if qx > m {
        m = qx;
    }
    if m > 0 {
        m = 0;
    }
    proof {
        let l2i = qx as int * pos_part(qx as int) + qy as int * pos_part(qy as int) + qz as int
            * pos_part(qz as int);
        assert(spec_isqrt(l2i as nat) * spec_isqrt(l2i as nat) <= l2i) by {
            lemma_isqrt_bounds(l2i as nat);
        }
        assert(root <= 4096) by (nonlinear_arith)
            requires
                root * root <= 0xc00000,
        ;
    }
    root as i64 + m
}

/// The byte a grid cell holds, computed exactly in fixed point.
pub fn sdf_voxel(x: usize, y: usize, z: usize) -> (r: u8)
    requires
        x < GRID_XY,
        y < GRID_XY,
        z < GRID_Z,
    ensures
        r == spec_voxel_value(x as int, y as int, z as int),
{
    let xi = x as i64;
    let yi = y as i64;
    let zi = z as i64;
    let plane: i64 = zi - 4;
    let c1 = sd_cube(xi - 22, yi - 10, zi - 34);
    let c2 = sd_cube(xi - 14, yi - 10, zi - 34);
    let c3 = sd_cube(xi - 10, yi - 10, zi - 34);
    let c4 = sd_cube(xi - 14, yi - 14, zi - 34);
    let mut sd: i64 = plane;
    if c1 < sd {
        sd = c1;
    }
    if c2 < sd {
        sd = c2;
    }
    if c3 < sd {
        sd = c3;
    }
    if c4 < sd {
        sd = c4;
    }
    let n: i64 = 255 * (sd + 4);
    let d: i64 = if n >= 0 {
        (n + 22) / 44
    } else {
        -((-n + 22) / 44)
    };
    if d < 0 {
        0
    } else if d > 255 {
        255
    } else {
        d as u8
    }
}

/// Which flat index a cell occupies: x varies fastest, then y, then z.
pub open spec fn spec_voxel_index(x: int, y: int, z: int) -> int {
    z * 4096 + y * 64 + x
}

/// Fill the whole voxel volume with the starting field: afterwards every cell
/// holds exactly the quantised signed distance at its coordinates.
pub fn init_sdf(voxels: &mut Vec<u8>)
    requires
        old(voxels)@.len() == VOXEL_COUNT,
    ensures
        final(voxels)@.len() == VOXEL_COUNT,
        forall|x: int, y: int, z: int|
            0 <= x < 64 && 0 <= y < 64 && 0 <= z < 1024 ==> final(voxels)@[spec_voxel_index(
                x,
                y,
                z,
            )] == spec_voxel_value(x, y, z),
{
    let mut z: usize = 0;
    while z < GRID_Z
        invariant
            0 <= z <= GRID_Z,
            voxels@.len() == VOXEL_COUNT,
            forall|xx: int, yy: int, zz: int|
                0 <= xx < 64 && 0 <= yy < 64 && 0 <= zz < z ==> voxels@[spec_voxel_index(
                    xx,
                    yy,
                    zz,
                )] == spec_voxel_value(xx, yy, zz),
        decreases GRID_Z - z,
    {
        let mut y: usize = 0;
        while y < GRID_XY
            invariant
                0 <= y <= GRID_XY,
                z < GRID_Z,
                voxels@.len() == VOXEL_COUNT,
                forall|xx: int, yy: int, zz: int|
                    0 <= xx < 64 && 0 <= yy < 64 && 0 <= zz < z ==> voxels@[spec_voxel_index(
                        xx,
                        yy,
                        zz,
                    )] == spec_voxel_value(xx, yy, zz),
                forall|xx: int, yy: int|
                    0 <= xx < 64 && 0 <= yy < y ==> voxels@[spec_voxel_index(xx, yy, z as int)]
                        == spec_voxel_value(xx, yy, z as int),
            decreases GRID_XY - y,
        {
            let mut x: usize = 0;
            while x < GRID_XY
                invariant
                    0 <= x <= GRID_XY,
                    y < GRID_XY,
                    z < GRID_Z,
                    voxels@.len() == VOXEL_COUNT,
                    forall|xx: int, yy: int, zz: int|
                        0 <= xx < 64 && 0 <= yy < 64 && 0 <= zz < z ==> voxels@[spec_voxel_index(
                            xx,
                            yy,
                            zz,
                        )] == spec_voxel_value(xx, yy, zz),
                    forall|xx: int, yy: int|
                        0 <= xx < 64 && 0 <= yy < y ==> voxels@[spec_voxel_index(xx, yy, z as int)]
                            == spec_voxel_value(xx, yy, z as int),
                    forall|xx: int|
                        0 <= xx < x ==> voxels@[spec_voxel_index(xx, y as int, z as int)]
                            == spec_voxel_value(xx, y as int, z as int),
                decreases GRID_XY - x,
            {
                let idx: usize = z * 4096 + y * 64 + x;
                voxels[idx] = sdf_voxel(x, y, z);
                x += 1;
            }
            y += 1;
        }
        z += 1;
    }
}

} // verus!
