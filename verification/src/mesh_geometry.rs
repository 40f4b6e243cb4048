//! Tessellation of the primitive shapes.
//!
//! A shape is a list of vertices and an index buffer that groups them into
//! triangles. Everything here is the combinatorial half of that: which
//! vertices exist, in which order, and which triples form the triangles. A
//! caller scales the unit corners and lattice points by its own sizes to get
//! coordinates.

use vstd::prelude::*;
use vstd::arithmetic::div_mod::lemma_fundamental_div_mod_converse;

verus! {

/// Every entry of `indices` names one of `vertex_count` vertices.
pub open spec fn indices_in_range(indices: Seq<u32>, vertex_count: int) -> bool {
    forall|k: int| 0 <= k < indices.len() ==> (#[trigger] indices[k]) < vertex_count
}

/// The subdivision count a circle or sphere is built with when `iterations`
/// is asked for: anything below four is raised to four.
pub open spec fn fixed_iterations(iterations: int) -> int {
    if iterations <= 3 {
        4
    } else {
        iterations
    }
}

/// The subdivision count to build a circle or a sphere with.
pub fn fix_iterations(iterations: i32) -> (fixed: i32)
    ensures
        fixed == fixed_iterations(iterations as int),
        fixed >= 4,
{
    if iterations <= 3 {
        4
    } else {
        iterations
    }
}

/// A vertex of the unit quad or of the cuboid, by the cell of the unit grid
/// it sits on, together with its texture coordinate.
#[derive(Clone, Copy, Debug, PartialEq, Eq)]
pub struct Corner {
    pub x: i8,
    pub y: i8,
    pub z: i8,
    pub u: u8,
    pub v: u8,
}

/// A quad has one vertex for each corner.
pub const QUAD_VERTEX_COUNT: usize = 4;

/// Corner `i` of the quad: bottom-left, top-left, bottom-right, top-right.
/// The quad spans `0..=1` on both axes and its texture coordinate is the
/// corner itself.
pub open spec fn quad_corner(i: int) -> Corner {
    Corner { x: (i / 2) as i8, y: (i % 2) as i8, z: 0, u: (i / 2) as u8, v: (i % 2) as u8 }
}

/// The four corners of the quad.
pub fn quad_corners() -> (corners: Vec<Corner>)
    ensures
        corners@.len() == QUAD_VERTEX_COUNT,
        forall|i: int| 0 <= i < 4 ==> #[trigger] corners@[i] == quad_corner(i),
{
    vec![
        Corner { x: 0, y: 0, z: 0, u: 0, v: 0 },
        Corner { x: 0, y: 1, z: 0, u: 0, v: 1 },
        Corner { x: 1, y: 0, z: 0, u: 1, v: 0 },
        Corner { x: 1, y: 1, z: 0, u: 1, v: 1 },
    ]
}

/// The two triangles of a quad: they share the diagonal from bottom-right
/// to top-left.
pub open spec fn quad_index_seq() -> Seq<u32> {
    seq![0u32, 2u32, 1u32, 2u32, 3u32, 1u32]
}

/// The index buffer of the quad.
pub fn quad_indices() -> (indices: Vec<u32>)
    ensures
        indices@ == quad_index_seq(),
        indices_in_range(indices@, QUAD_VERTEX_COUNT as int),
{
    let indices: Vec<u32> = vec![0, 2, 1, 2, 3, 1];
    assert(indices@ =~= quad_index_seq());
    indices
}

/// A triangle has one vertex for each corner.
pub const TRIANGLE_VERTEX_COUNT: usize = 3;

/// The index buffer of the triangle: its three vertices in order.
pub fn triangle_indices() -> (indices: Vec<u32>)
    ensures
        indices@ == seq![0u32, 1u32, 2u32],
        indices_in_range(indices@, TRIANGLE_VERTEX_COUNT as int),
{
    let mut indices: Vec<u32> = Vec::new();
    indices.push(0);
    indices.push(1);
    indices.push(2);
    assert(indices@ =~= seq![0u32, 1u32, 2u32]);
    indices
}

/// Number of triangles in the fan that fills a circle of `iterations` rim
/// vertices.
pub open spec fn circle_triangle_count(iterations: int) -> int {
    if iterations >= 3 {
        iterations - 2
    } else {
        0
    }
}

/// Entry `k` of the circle's index buffer. Triangle `j` is
/// `(0, j + 1, j + 2)`: a fan around vertex 0.
pub open spec fn circle_index(k: int) -> int {
    if k % 3 == 0 {
        0
    } else {
        k / 3 + k % 3
    }
}

/// The index buffer of a circle of `iterations` rim vertices. Fewer than
/// three vertices span no triangle.
pub fn circle_indices(iterations: i32) -> (indices: Vec<u32>)
    ensures
        indices@.len() == 3 * circle_triangle_count(iterations as int),
        forall|k: int| 0 <= k < indices@.len() ==> #[trigger] indices@[k] == circle_index(k),
        indices_in_range(indices@, iterations as int),
{
    let mut indices: Vec<u32> = Vec::new();
    if iterations < 3 {
        return indices;
    }
    let mut i: i32 = 1;
    while i <= iterations - 2
        invariant
            iterations >= 3,
            1 <= i <= iterations - 1,
            indices@.len() == 3 * (i - 1),
            forall|k: int| 0 <= k < indices@.len() ==> #[trigger] indices@[k] == circle_index(k),
            indices_in_range(indices@, iterations as int),
        decreases iterations - i,
    {
        let ghost before = indices@;
        let ghost base = 3 * (i - 1);
        assert(i % iterations == i) by {
            lemma_fundamental_div_mod_converse(i as int, iterations as int, 0, i as int);
        }
        indices.push(0);
        indices.push(i as u32);
        indices.push((i % iterations + 1) as u32);
        proof {
            lemma_fundamental_div_mod_converse(base, 3, i - 1, 0);
            lemma_fundamental_div_mod_converse(base + 1, 3, i - 1, 1);
            lemma_fundamental_div_mod_converse(base + 2, 3, i - 1, 2);
            assert forall|k: int| 0 <= k < indices@.len() implies indices@[k] == circle_index(k)
                && indices@[k] < iterations by {
                if k < base {
                    assert(indices@[k] == before[k]);
                } else if k == base {
                    assert(indices@[k] == 0);
                } else if k == base + 1 {
                    assert(indices@[k] == i);
                } else {
                    assert(k == base + 2);
                    assert(indices@[k] == i + 1);
                }
            }
        }
        i += 1;
    }
    indices
}

/// A cuboid has four vertices for each of its six faces, so that every face
/// has texture coordinates of its own.
pub const CUBOID_VERTEX_COUNT: usize = 24;

/// Corner `i` of the cuboid, which spans `-1..=1` on every axis so that a
/// caller scales it by half its size. Four corners per face, counter-clockwise
/// seen from outside, faces in the order front, back, left, right, top,
/// bottom. The texture coordinate walks the unit square
/// `(0,0) (1,0) (1,1) (0,1)` on every face.
pub open spec fn cuboid_corner(i: int) -> Corner {
    let place = i % 4;
    let u: int = if place == 1 || place == 2 { 1 } else { 0 };
    let v: int = if place >= 2 { 1 } else { 0 };
    let a = 2 * u - 1;
    let b = 2 * v - 1;
    let face = i / 4;
    if face == 0 {
        Corner { x: a as i8, y: b as i8, z: 1, u: u as u8, v: v as u8 }
    } else if face == 1 {
        Corner { x: a as i8, y: b as i8, z: -1i8, u: u as u8, v: v as u8 }
    } else if face == 2 {
        Corner { x: -1i8, y: b as i8, z: a as i8, u: u as u8, v: v as u8 }
    } else if face == 3 {
        Corner { x: 1, y: b as i8, z: a as i8, u: u as u8, v: v as u8 }
    } else if face == 4 {
        Corner { x: a as i8, y: 1, z: b as i8, u: u as u8, v: v as u8 }
    } else {
        Corner { x: a as i8, y: -1i8, z: b as i8, u: u as u8, v: v as u8 }
    }
}

/// Whether `corner` lies in the plane of face `face` of the cuboid.
pub open spec fn on_cuboid_face(corner: Corner, face: int) -> bool {
    if face == 0 {
        corner.z == 1
    } else if face == 1 {
        corner.z == -1
    } else if face == 2 {
        corner.x == -1
    } else if face == 3 {
        corner.x == 1
    } else if face == 4 {
        corner.y == 1
    } else {
        corner.y == -1
    }
}

/// The twenty-four corners of the cuboid, four to a face.
pub fn cuboid_corners() -> (corners: Vec<Corner>)
    ensures
        corners@.len() == CUBOID_VERTEX_COUNT,
        forall|i: int| 0 <= i < 24 ==> #[trigger] corners@[i] == cuboid_corner(i),
        forall|i: int| 0 <= i < 24 ==> on_cuboid_face(#[trigger] corners@[i], i / 4),
{
    let corners: Vec<Corner> = vec![
        // Front face
        Corner { x: -1, y: -1, z: 1, u: 0, v: 0 },
        Corner { x: 1, y: -1, z: 1, u: 1, v: 0 },
        Corner { x: 1, y: 1, z: 1, u: 1, v: 1 },
        Corner { x: -1, y: 1, z: 1, u: 0, v: 1 },
        // Back face
        Corner { x: -1, y: -1, z: -1, u: 0, v: 0 },
        Corner { x: 1, y: -1, z: -1, u: 1, v: 0 },
        Corner { x: 1, y: 1, z: -1, u: 1, v: 1 },
        Corner { x: -1, y: 1, z: -1, u: 0, v: 1 },
        // Left face
        Corner { x: -1, y: -1, z: -1, u: 0, v: 0 },
        Corner { x: -1, y: -1, z: 1, u: 1, v: 0 },
        Corner { x: -1, y: 1, z: 1, u: 1, v: 1 },
        Corner { x: -1, y: 1, z: -1, u: 0, v: 1 },
        // Right face
        Corner { x: 1, y: -1, z: -1, u: 0, v: 0 },
        Corner { x: 1, y: -1, z: 1, u: 1, v: 0 },
        Corner { x: 1, y: 1, z: 1, u: 1, v: 1 },
        Corner { x: 1, y: 1, z: -1, u: 0, v: 1 },
        // Top face
        Corner { x: -1, y: 1, z: -1, u: 0, v: 0 },
        Corner { x: 1, y: 1, z: -1, u: 1, v: 0 },
        Corner { x: 1, y: 1, z: 1, u: 1, v: 1 },
        Corner { x: -1, y: 1, z: 1, u: 0, v: 1 },
        // Bottom face
        Corner { x: -1, y: -1, z: -1, u: 0, v: 0 },
        Corner { x: 1, y: -1, z: -1, u: 1, v: 0 },
        Corner { x: 1, y: -1, z: 1, u: 1, v: 1 },
        Corner { x: -1, y: -1, z: 1, u: 0, v: 1 },
    ];
    corners
}

/// Entry `k` of the cuboid's index buffer: face `f` is the two triangles
/// `(4f, 4f+1, 4f+2)` and `(4f+2, 4f+3, 4f)`.
pub open spec fn cuboid_index(k: int) -> int {
    let place = k % 6;
    let offset: int = if place == 0 || place == 5 {
        0
    } else if place == 1 {
        1
    } else if place == 4 {
        3
    } else {
        2
    };
    4 * (k / 6) + offset
}

/// The index buffer of the cuboid.
pub fn cuboid_indices() -> (indices: Vec<u32>)
    ensures
        indices@.len() == 36,
        forall|k: int| 0 <= k < 36 ==> #[trigger] indices@[k] == cuboid_index(k),
        indices_in_range(indices@, CUBOID_VERTEX_COUNT as int),
{
    let indices: Vec<u32> = vec![
        // Front face
        0, 1, 2,
        2, 3, 0,
        // Back face
        4, 5, 6,
        6, 7, 4,
        // Left face
        8, 9, 10,
        10, 11, 8,
        // Right face
        12, 13, 14,
        14, 15, 12,
        // Top face
        16, 17, 18,
        18, 19, 16,
        // Bottom face
        20, 21, 22,
        22, 23, 20,
    ];
    indices
}

/// Largest subdivision count whose sphere can be indexed: the last vertex
/// index, `(iterations + 1)^2 - 1`, still fits a signed 32-bit integer.
pub const MAX_SPHERE_ITERATIONS: i32 = 46339;

/// Number of lattice points of a sphere: `iterations + 1` rings of
/// `iterations + 1` points, the seam and both poles doubled.
pub open spec fn sphere_vertex_count(iterations: int) -> int {
    if iterations >= 0 {
        (iterations + 1) * (iterations + 1)
    } else {
        0
    }
}

/// Position in the vertex list of lattice point `(lat, lon)`.
pub open spec fn sphere_vertex_index(iterations: int, lat: int, lon: int) -> int {
    lat * (iterations + 1) + lon
}

/// Every position in the vertex list is that of exactly one lattice point:
/// position `k` belongs to ring `k / (iterations + 1)`, place
/// `k % (iterations + 1)`.
pub proof fn sphere_vertex_index_covers_the_list(iterations: int, k: int)
    requires
        0 <= iterations,
        0 <= k < sphere_vertex_count(iterations),
    ensures
        0 <= k / (iterations + 1) <= iterations,
        0 <= k % (iterations + 1) <= iterations,
        sphere_vertex_index(iterations, k / (iterations + 1), k % (iterations + 1)) == k,
{
    let side = iterations + 1;
    vstd::arithmetic::div_mod::lemma_fundamental_div_mod(k, side);
    vstd::arithmetic::div_mod::lemma_mod_bound(k, side);
    let ring = k / side;
    assert(side * ring == ring * side) by (nonlinear_arith);
    assert(0 <= ring <= iterations) by (nonlinear_arith)
        requires
            0 < side,
            side == iterations + 1,
            0 <= k < side * side,
            k == side * ring + k % side,
            0 <= k % side < side,
    ;
}

/// The lattice points `(lat, lon)` of a sphere in vertex order: ring after
/// ring from pole to pole, each ring once around. Point `(lat, lon)` stands
/// at latitude `lat / iterations` of a half turn and longitude
/// `lon / iterations` of a full turn.
pub fn sphere_lattice(iterations: i32) -> (points: Vec<(i32, i32)>)
    ensures
        points@.len() == sphere_vertex_count(iterations as int),
        forall|lat: int, lon: int|
            0 <= lat <= iterations && 0 <= lon <= iterations ==> #[trigger] points@[sphere_vertex_index(
                iterations as int,
                lat,
                lon,
            )] == (lat as i32, lon as i32),
{
    let mut points: Vec<(i32, i32)> = Vec::new();
    if iterations < 0 {
        return points;
    }
    let ghost n = iterations as int;
    let mut lat: i32 = 0;
    loop
        invariant_except_break
            0 <= lat <= iterations,
            n == iterations,
            points@.len() == lat * (n + 1),
            forall|a: int, b: int|
                0 <= a < lat && 0 <= b <= n ==> #[trigger] points@[sphere_vertex_index(n, a, b)] == (
                    a as i32,
                    b as i32,
                ),
        ensures
            n == iterations,
            points@.len() == (n + 1) * (n + 1),
            forall|a: int, b: int|
                0 <= a <= n && 0 <= b <= n ==> #[trigger] points@[sphere_vertex_index(n, a, b)] == (
                    a as i32,
                    b as i32,
                ),
        decreases iterations - lat,
    {
        let ghost row_start = points@.len() as int;
        let ghost rows_before = points@;
        let mut lon: i32 = 0;
        loop
            invariant_except_break
                0 <= lon <= iterations,
                0 <= lat <= iterations,
                n == iterations,
                row_start == lat * (n + 1),
                points@.len() == row_start + lon,
                forall|k: int| 0 <= k < row_start ==> points@[k] == rows_before[k],
                forall|b: int| 0 <= b < lon ==> #[trigger] points@[row_start + b] == (lat, b as i32),
            ensures
                points@.len() == row_start + n + 1,
                forall|k: int| 0 <= k < row_start ==> points@[k] == rows_before[k],
                forall|b: int| 0 <= b <= n ==> #[trigger] points@[row_start + b] == (lat, b as i32),
            decreases iterations - lon,
        {
            points.push((lat, lon));
            if lon == iterations {
                break;
            }
            lon += 1;
        }
        proof {
            assert((lat + 1) * (n + 1) == lat * (n + 1) + n + 1) by (nonlinear_arith);
            assert forall|a: int, b: int| 0 <= a <= lat && 0 <= b <= n implies #[trigger] points@[
                sphere_vertex_index(n, a, b)
            ] == (a as i32, b as i32) by {
                if a < lat {
                    assert(a * (n + 1) + b < lat * (n + 1)) by (nonlinear_arith)
                        requires
                            0 <= a < lat,
                            0 <= b <= n,
                    ;
                    assert(0 <= a * (n + 1) + b) by (nonlinear_arith)
                        requires
                            0 <= a,
                            0 <= b,
                            0 <= n,
                    ;
                    assert(rows_before[sphere_vertex_index(n, a, b)] == (a as i32, b as i32));
                } else {
                    assert(points@[row_start + b] == (lat, b as i32));
                }
            }
        }
        if lat == iterations {
            break;
        }
        lat += 1;
    }
    points
}

/// Number of lattice cells of a sphere; each becomes two triangles.
pub open spec fn sphere_cell_count(iterations: int) -> int {
    if iterations > 0 {
        iterations * iterations
    } else {
        0
    }
}

/// Entry `k` of the sphere's index buffer. Cell `(lat, lon)` is the patch
/// between the lattice points `first = (lat, lon)`, `first + 1 = (lat, lon + 1)`,
/// `second = (lat + 1, lon)` and `second + 1 = (lat + 1, lon + 1)`, cells
/// running ring after ring; its triangles are `(first, second, first + 1)` and
/// `(second, second + 1, first + 1)`.
pub open spec fn sphere_index(iterations: int, k: int) -> int {
    let cell = k / 6;
    let first = sphere_vertex_index(iterations, cell / iterations, cell % iterations);
    let second = first + iterations + 1;
    let place = k % 6;
    if place == 0 {
        first
    } else if place == 1 || place == 3 {
        second
    } else if place == 4 {
        second + 1
    } else {
        first + 1
    }
}

proof fn lemma_sphere_cell(n: int, lat: int, lon: int, place: int)
    requires
        0 < n,
        0 <= lat < n,
        0 <= lon < n,
        0 <= place < 6,
    ensures
        ({
            let k = 6 * (lat * n + lon) + place;
            &&& k / 6 == lat * n + lon
            &&& k % 6 == place
            &&& (k / 6) / n == lat
            &&& (k / 6) % n == lon
        }),
        0 <= lat * (n + 1) + lon,
        lat * (n + 1) + lon + n + 2 < (n + 1) * (n + 1),
        6 * (lat * n + lon) + 6 <= 6 * (n * n),
        0 <= lat * n + lon,
{
    let cell = lat * n + lon;
    assert(0 <= lat * n) by (nonlinear_arith)
        requires
            0 <= lat,
            0 < n,
    ;
    lemma_fundamental_div_mod_converse(6 * cell + place, 6, cell, place);
    lemma_fundamental_div_mod_converse(cell, n, lat, lon);
    assert(lat * (n + 1) + lon + n + 2 < (n + 1) * (n + 1)) by (nonlinear_arith)
        requires
            0 <= lat < n,
            0 <= lon < n,
    ;
    assert(0 <= lat * (n + 1)) by (nonlinear_arith)
        requires
            0 <= lat,
            0 < n,
    ;
    assert(lat * n + lon + 1 <= n * n) by (nonlinear_arith)
        requires
            0 <= lat < n,
            0 <= lon < n,
    ;
}

/// The index buffer of a sphere over the lattice of `iterations`. No
/// positive subdivision count, no cell.
pub fn sphere_indices(iterations: i32) -> (indices: Vec<u32>)
    requires
        iterations <= MAX_SPHERE_ITERATIONS,
    ensures
        indices@.len() == 6 * sphere_cell_count(iterations as int),
        forall|k: int|
            0 <= k < indices@.len() ==> #[trigger] indices@[k] == sphere_index(iterations as int, k),
        indices_in_range(indices@, sphere_vertex_count(iterations as int)),
{
    let mut indices: Vec<u32> = Vec::new();
    if iterations <= 0 {
        return indices;
    }
    let ghost n = iterations as int;
    assert((n + 1) * (n + 1) <= 46340 * 46340) by (nonlinear_arith)
        requires
            0 < n <= 46339,
    ;
    let mut lat: i32 = 0;
    while lat < iterations
        invariant
            0 < iterations <= MAX_SPHERE_ITERATIONS,
            n == iterations,
            (n + 1) * (n + 1) <= 46340 * 46340,
            0 <= lat <= iterations,
            indices@.len() == 6 * (lat * n),
            forall|k: int| 0 <= k < indices@.len() ==> #[trigger] indices@[k] == sphere_index(n, k),
            indices_in_range(indices@, (n + 1) * (n + 1)),
        decreases iterations - lat,
    {
        let mut lon: i32 = 0;
        while lon < iterations
            invariant
                0 < iterations <= MAX_SPHERE_ITERATIONS,
                n == iterations,
                (n + 1) * (n + 1) <= 46340 * 46340,
                0 <= lat < iterations,
                0 <= lon <= iterations,
                indices@.len() == 6 * (lat * n + lon),
                forall|k: int| 0 <= k < indices@.len() ==> #[trigger] indices@[k] == sphere_index(n, k),
                indices_in_range(indices@, (n + 1) * (n + 1)),
            decreases iterations - lon,
        {
            let ghost before = indices@;
            let ghost base = 6 * (lat * n + lon);
            proof {
                lemma_sphere_cell(n, lat as int, lon as int, 0);
            }
            let first: i32 = lat * (iterations + 1) + lon;
            let second: i32 = first + iterations + 1;

            indices.push(first as u32);
            indices.push(second as u32);
            indices.push((first + 1) as u32);

            indices.push(second as u32);
            indices.push((second + 1) as u32);
            indices.push((first + 1) as u32);

            proof {
                lemma_sphere_cell(n, lat as int, lon as int, 1);
                lemma_sphere_cell(n, lat as int, lon as int, 2);
                lemma_sphere_cell(n, lat as int, lon as int, 3);
                lemma_sphere_cell(n, lat as int, lon as int, 4);
                lemma_sphere_cell(n, lat as int, lon as int, 5);
                assert forall|k: int| 0 <= k < indices@.len() implies indices@[k] == sphere_index(n, k)
                    && indices@[k] < (n + 1) * (n + 1) by {
                    if k < base {
                        assert(indices@[k] == before[k]);
                    } else {
                        assert(k == base || k == base + 1 || k == base + 2 || k == base + 3 || k == base
                            + 4 || k == base + 5);
                    }
                }
            }
            lon += 1;
        }
        proof {
            assert(6 * (lat * n + n) == 6 * ((lat + 1) * n)) by (nonlinear_arith);
        }
        lat += 1;
    }
    indices
}

/// The six entries that cell `(lat, lon)` adds to the index buffer name the
/// four lattice points around it: `(lat, lon)`, `(lat + 1, lon)`,
/// `(lat, lon + 1)`, then `(lat + 1, lon)`, `(lat + 1, lon + 1)`, `(lat, lon + 1)`.
pub proof fn sphere_cell_spans_its_lattice_points(iterations: int, lat: int, lon: int)
    requires
        0 < iterations,
        0 <= lat < iterations,
        0 <= lon < iterations,
    ensures
        ({
            let base = 6 * (lat * iterations + lon);
            &&& 0 <= base
            &&& base + 6 <= 6 * sphere_cell_count(iterations)
            &&& sphere_index(iterations, base) == sphere_vertex_index(iterations, lat, lon)
            &&& sphere_index(iterations, base + 1) == sphere_vertex_index(iterations, lat + 1, lon)
            &&& sphere_index(iterations, base + 2) == sphere_vertex_index(iterations, lat, lon + 1)
            &&& sphere_index(iterations, base + 3) == sphere_vertex_index(iterations, lat + 1, lon)
            &&& sphere_index(iterations, base + 4) == sphere_vertex_index(iterations, lat + 1, lon + 1)
            &&& sphere_index(iterations, base + 5) == sphere_vertex_index(iterations, lat, lon + 1)
        }),
{
    lemma_sphere_cell(iterations, lat, lon, 0);
    lemma_sphere_cell(iterations, lat, lon, 1);
    lemma_sphere_cell(iterations, lat, lon, 2);
    lemma_sphere_cell(iterations, lat, lon, 3);
    lemma_sphere_cell(iterations, lat, lon, 4);
    lemma_sphere_cell(iterations, lat, lon, 5);
    assert((lat + 1) * (iterations + 1) == lat * (iterations + 1) + iterations + 1)
        by (nonlinear_arith);
}

/// Where entry `k` of an index buffer of `len` entries comes from when every
/// run of six entries (two triangles) is reversed in place; a shorter last
/// run is reversed as it stands.
pub open spec fn mirrored(len: int, k: int) -> int {
    let start = k - k % 6;
    let end = if start + 6 <= len {
        start + 6
    } else {
        len
    };
    start + end - 1 - k
}

/// `after` is `before` with every run of six entries reversed.
pub open spec fn is_face_reversal(before: Seq<u32>, after: Seq<u32>) -> bool {
    &&& after.len() == before.len()
    &&& forall|k: int|
        0 <= k < after.len() ==> #[trigger] after[k] == before[mirrored(before.len() as int, k)]
}

/// `mirrored` stays inside the buffer and inside the run of `k`, and undoes
/// itself.
pub proof fn mirrored_is_an_involution(len: int, k: int)
    requires
        0 <= k < len,
    ensures
        0 <= mirrored(len, k) < len,
        mirrored(len, k) / 6 == k / 6,
        mirrored(len, mirrored(len, k)) == k,
{
    let start = k - k % 6;
    let q = k / 6;
    assert(start == 6 * q) by {
        vstd::arithmetic::div_mod::lemma_fundamental_div_mod(k, 6);
    }
    let m = mirrored(len, k);
    assert(start <= m < start + 6);
    lemma_fundamental_div_mod_converse(m, 6, q, m - start);
}

/// Reversing the runs of six turns every triangle's winding around and
/// names the same vertices as before.
pub proof fn face_reversal_keeps_indices_in_range(
    before: Seq<u32>,
    after: Seq<u32>,
    vertex_count: int,
)
    requires
        is_face_reversal(before, after),
        indices_in_range(before, vertex_count),
    ensures
        indices_in_range(after, vertex_count),
{
    assert forall|k: int| 0 <= k < after.len() implies (#[trigger] after[k]) < vertex_count by {
        mirrored_is_an_involution(before.len() as int, k);
    }
}

/// Reversing the runs of six twice gives the buffer back.
pub proof fn face_reversal_twice_is_identity(before: Seq<u32>, between: Seq<u32>, after: Seq<u32>)
    requires
        is_face_reversal(before, between),
        is_face_reversal(between, after),
    ensures
        after == before,
{
    assert forall|k: int| 0 <= k < after.len() implies after[k] == before[k] by {
        mirrored_is_an_involution(before.len() as int, k);
        let m = mirrored(before.len() as int, k);
        assert(after[k] == between[m]);
        assert(between[m] == before[mirrored(before.len() as int, m)]);
    }
    assert(after =~= before);
}

/// Reverses every run of six entries of `indices` in place, which flips the
/// winding of the triangles they hold.
pub fn reverse_faces(indices: &mut Vec<u32>)
    ensures
        is_face_reversal(old(indices)@, final(indices)@),
{
    let len: usize = indices.len();
    let mut start: usize = 0;
    while start < len
        invariant_except_break
            start % 6 == 0,
            forall|k: int|
                0 <= k < start && k < len ==> indices@[k] == old(indices)@[mirrored(len as int, k)],
            forall|k: int| start <= k < len ==> indices@[k] == old(indices)@[k],
        invariant
            indices@.len() == len,
            len == old(indices)@.len(),
        ensures
            forall|k: int| 0 <= k < len ==> indices@[k] == old(indices)@[mirrored(len as int, k)],
        decreases len - start,
    {
        let end: usize = if len - start >= 6 {
            start + 6
        } else {
            len
        };
        let mut lo: usize = start;
        let mut hi: usize = end;
        while lo + 1 < hi
            invariant
                indices@.len() == len,
                len == old(indices)@.len(),
                start < len,
                start % 6 == 0,
                end == if start + 6 <= len { start + 6 } else { len as int },
                start <= lo <= hi <= end,
                lo - start == end - hi,
                forall|k: int| 0 <= k < start ==> indices@[k] == old(indices)@[mirrored(len as int, k)],
                forall|k: int| start <= k < lo ==> indices@[k] == old(indices)@[start + end - 1 - k],
                forall|k: int| hi <= k < end ==> indices@[k] == old(indices)@[start + end - 1 - k],
                forall|k: int| lo <= k < hi ==> indices@[k] == old(indices)@[k],
                forall|k: int| end <= k < len ==> indices@[k] == old(indices)@[k],
            decreases hi - lo,
        {
            let low: u32 = indices[lo];
            let high: u32 = indices[hi - 1];
            indices[lo] = high;
            indices[hi - 1] = low;
            lo += 1;
            hi -= 1;
        }
        proof {
            assert forall|k: int| start <= k < end implies indices@[k] == old(indices)@[mirrored(
                len as int,
                k,
            )] by {
                lemma_fundamental_div_mod_converse(k, 6, start as int / 6, k - start);
                vstd::arithmetic::div_mod::lemma_fundamental_div_mod(start as int, 6);
                assert(k - k % 6 == start);
            }
        }
        if len - start < 6 {
            break;
        }
        start += 6;
    }
}

} // verus!
