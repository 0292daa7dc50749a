//! Triangle indices of a latitude/longitude sphere mesh.
//!
//! The vertex grid has `lat_segments + 1` rows of `long_segments + 1` vertices
//! each; every grid cell becomes two triangles. The vertex positions are
//! floating point and belong to the renderer; the index pattern is computed
//! and pinned down here.

use vstd::prelude::*;

verus! {

/// The vertex index that position `t` of the index buffer holds, for a grid
/// of `long_segments` cells per row: six indices per cell, two triangles
/// winding over the cell's corners.
pub open spec fn sphere_index_at(t: int, long_segments: int) -> int {
    let cell = t / 6;
    let rem = t % 6;
    let y = cell / long_segments;
    let x = cell % long_segments;
    let i0 = y * (long_segments + 1) + x;
    if rem == 0 {
        i0
    } else if rem == 1 {
        i0 + long_segments + 1
    } else if rem == 2 {
        i0 + 1
    } else if rem == 3 {
        i0 + 1
    } else if rem == 4 {
        i0 + long_segments + 1
    } else {
        i0 + long_segments + 2
    }
}

/// Generates the index buffer of the sphere mesh: six indices for each of the
/// `lat_segments * long_segments` grid cells, row by row.
pub fn sphere_indices(lat_segments: u32, long_segments: u32) -> (r: Vec<u16>)
    requires
        lat_segments >= 1,
        long_segments >= 1,
        (lat_segments + 1) * (long_segments + 1) <= 65536,
    ensures
        r.len() == 6 * lat_segments * long_segments,
        forall|t: int| 0 <= t < r.len()
            ==> (#[trigger] r[t]) as int == sphere_index_at(t, long_segments as int),
{
    let mut r: Vec<u16> = Vec::new();
    let mut y: u32 = 0;
    proof {
        assert((lat_segments as int) * (long_segments as int) <= 65536) by (nonlinear_arith)
            requires
                lat_segments >= 1,
                long_segments >= 1,
                (lat_segments + 1) * (long_segments + 1) <= 65536;
    }
    while y < lat_segments
        invariant
            y <= lat_segments,
            lat_segments >= 1,
            long_segments >= 1,
            (lat_segments + 1) * (long_segments + 1) <= 65536,
            (lat_segments as int) * (long_segments as int) <= 65536,
            r.len() == 6 * ((y as int) * (long_segments as int)),
            forall|t: int| 0 <= t < r.len()
                ==> (#[trigger] r[t]) as int == sphere_index_at(t, long_segments as int),
        decreases lat_segments - y,
    {
        let mut x: u32 = 0;
        while x < long_segments
            invariant
                x <= long_segments,
                y < lat_segments,
                lat_segments >= 1,
                long_segments >= 1,
                (lat_segments + 1) * (long_segments + 1) <= 65536,
                (lat_segments as int) * (long_segments as int) <= 65536,
                r.len() == 6 * ((y as int) * (long_segments as int) + (x as int)),
                forall|t: int| 0 <= t < r.len()
                    ==> (#[trigger] r[t]) as int == sphere_index_at(t, long_segments as int),
            decreases long_segments - x,
        {
            let ghost cell = (y as int) * (long_segments as int) + (x as int);
            proof {
                assert(cell < (lat_segments as int) * (long_segments as int)
                    && 0 <= cell) by (nonlinear_arith)
                    requires
                        cell == (y as int) * (long_segments as int) + (x as int),
                        0 <= y < lat_segments,
                        0 <= x < long_segments;
                assert((y as int) * ((long_segments as int) + 1) + (x as int)
                    + (long_segments as int) + 2
                    <= (lat_segments + 1) * ((long_segments as int) + 1) - 1)
                    by (nonlinear_arith)
                    requires
                        0 <= y < lat_segments,
                        0 <= x < long_segments;
                assert(cell / (long_segments as int) == y as int
                    && cell % (long_segments as int) == x as int) by (nonlinear_arith)
                    requires
                        cell == (y as int) * (long_segments as int) + (x as int),
                        0 <= x < long_segments,
                        0 <= y;
            }
            let i0: u32 = y * (long_segments + 1) + x;
            let i1: u32 = i0 + 1;
            let i2: u32 = i0 + long_segments + 1;
            let i3: u32 = i2 + 1;
            proof {
                assert((6 * cell + 0) / 6 == cell && (6 * cell + 0) % 6 == 0
                    && (6 * cell + 1) / 6 == cell && (6 * cell + 1) % 6 == 1
                    && (6 * cell + 2) / 6 == cell && (6 * cell + 2) % 6 == 2
                    && (6 * cell + 3) / 6 == cell && (6 * cell + 3) % 6 == 3
                    && (6 * cell + 4) / 6 == cell && (6 * cell + 4) % 6 == 4
                    && (6 * cell + 5) / 6 == cell && (6 * cell + 5) % 6 == 5)
                    by (nonlinear_arith)
                    requires 0 <= cell;
            }
            r.push(i0 as u16);
            r.push(i2 as u16);
            r.push(i1 as u16);
            r.push(i1 as u16);
            r.push(i2 as u16);
            r.push(i3 as u16);
            x += 1;
        }
        proof {
            assert(6 * (((y as int) + 1) * (long_segments as int))
                == 6 * ((y as int) * (long_segments as int) + (long_segments as int)))
                by (nonlinear_arith);
        }
        y += 1;
    }
    proof {
        assert(6 * (lat_segments as int) * (long_segments as int)
            == 6 * ((lat_segments as int) * (long_segments as int))) by (nonlinear_arith);
    }
    r
}

} // verus!
