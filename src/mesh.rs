use vstd::arithmetic::div_mod::lemma_fundamental_div_mod_converse;
use vstd::prelude::*;

verus! {

/// A vertex of static geometry: homogeneous position (w = 1) and normal
/// (w = 0), both as small signed integers.
#[derive(Debug, Clone, Copy)]
pub struct Vertex {
    pub pos: [i8; 4],
    pub normal: [i8; 4],
}

/// A vertex at `pos` with normal `nor`.
pub fn vertex(pos: [i8; 3], nor: [i8; 3]) -> (r: Vertex)
    ensures
        r.pos@ == seq![pos@[0], pos@[1], pos@[2], 1i8],
        r.normal@ == seq![nor@[0], nor@[1], nor@[2], 0i8],
{
    let r = Vertex { pos: [pos[0], pos[1], pos[2], 1], normal: [nor[0], nor[1], nor[2], 0] };
    assert(r.pos@ =~= seq![pos@[0], pos@[1], pos@[2], 1i8]);
    assert(r.normal@ =~= seq![nor@[0], nor@[1], nor@[2], 0i8]);
    r
}

/// The two triangles of a quad whose corners come in the order the
/// `create_quad_*` functions give them.
pub fn create_quad_indices() -> (r: Vec<u16>)
    ensures
        r@ == seq![0u16, 1, 2, 2, 1, 3],
{
    let mut r: Vec<u16> = Vec::new();
    r.push(0);
    r.push(1);
    r.push(2);
    r.push(2);
    r.push(1);
    r.push(3);
    assert(r@ =~= seq![0u16, 1, 2, 2, 1, 3]);
    r
}

/// `[a, b, c, 1]` as a sequence.
pub open spec fn point4(a: int, b: int, c: int) -> Seq<i8> {
    seq![a as i8, b as i8, c as i8, 1i8]
}

fn point(a: i8, b: i8, c: i8) -> (r: [i8; 4])
    ensures
        r@ == point4(a as int, b as int, c as int),
{
    let r = [a, b, c, 1];
    assert(r@ =~= point4(a as int, b as int, c as int));
    r
}

/// The corners of a quad in the XZ plane reaching `x` and `z` either side
/// of the origin.
pub fn create_quad_xz(x: i8, z: i8) -> (r: Vec<[i8; 4]>)
    requires
        x > i8::MIN,
        z > i8::MIN,
    ensures
        r@.len() == 4,
        r@[0]@ == point4(x as int, 0, -z),
        r@[1]@ == point4(x as int, 0, z as int),
        r@[2]@ == point4(-x, 0, -z),
        r@[3]@ == point4(-x, 0, z as int),
{
    let (px, nx) = (x, -x);
    let (pz, nz) = (z, -z);
    let mut r: Vec<[i8; 4]> = Vec::new();
    r.push(point(px, 0, nz));
    r.push(point(px, 0, pz));
    r.push(point(nx, 0, nz));
    r.push(point(nx, 0, pz));
    r
}

/// The corners of a quad in the XY plane reaching `x` and `y` either side
/// of the origin.
pub fn create_quad_xy(x: i8, y: i8) -> (r: Vec<[i8; 4]>)
    requires
        x > i8::MIN,
        y > i8::MIN,
    ensures
        r@.len() == 4,
        r@[0]@ == point4(x as int, -y, 0),
        r@[1]@ == point4(x as int, y as int, 0),
        r@[2]@ == point4(-x, -y, 0),
        r@[3]@ == point4(-x, y as int, 0),
{
    let (px, nx) = (x, -x);
    let (py, ny) = (y, -y);
    let mut r: Vec<[i8; 4]> = Vec::new();
    r.push(point(px, ny, 0));
    r.push(point(px, py, 0));
    r.push(point(nx, ny, 0));
    r.push(point(nx, py, 0));
    r
}

/// The corners of a quad in the YZ plane reaching `y` and `z` either side
/// of the origin.
pub fn create_quad_yz(y: i8, z: i8) -> (r: Vec<[i8; 4]>)
    requires
        y > i8::MIN,
        z > i8::MIN,
    ensures
        r@.len() == 4,
        r@[0]@ == point4(0, y as int, -z),
        r@[1]@ == point4(0, y as int, z as int),
        r@[2]@ == point4(0, -y, -z),
        r@[3]@ == point4(0, -y, z as int),
{
    let (py, ny) = (y, -y);
    let (pz, nz) = (z, -z);
    let mut r: Vec<[i8; 4]> = Vec::new();
    r.push(point(0, py, nz));
    r.push(point(0, py, pz));
    r.push(point(0, ny, nz));
    r.push(point(0, ny, pz));
    r
}

/// Outward normal of face `f` of the cube: +Z, -Z, +X, -X, +Y, -Y.
pub open spec fn face_normal(f: int) -> (int, int, int) {
    if f == 0 {
        (0, 0, 1)
    } else if f == 1 {
        (0, 0, -1)
    } else if f == 2 {
        (1, 0, 0)
    } else if f == 3 {
        (-1, 0, 0)
    } else if f == 4 {
        (0, 1, 0)
    } else {
        (0, -1, 0)
    }
}

/// First in-plane axis of face `f`.
pub open spec fn face_u(f: int) -> (int, int, int) {
    if f <= 1 {
        (1, 0, 0)
    } else if f <= 3 {
        (0, 1, 0)
    } else {
        (-1, 0, 0)
    }
}

/// Second in-plane axis of face `f`.
pub open spec fn face_v(f: int) -> (int, int, int) {
    if f == 0 {
        (0, 1, 0)
    } else if f == 1 {
        (0, -1, 0)
    } else if f == 2 || f == 4 {
        (0, 0, 1)
    } else {
        (0, 0, -1)
    }
}

/// Signs along the two in-plane axes of corner `c` of a face, going round
/// the face.
pub open spec fn corner_signs(c: int) -> (int, int) {
    if c == 0 {
        (-1, -1)
    } else if c == 1 {
        (1, -1)
    } else if c == 2 {
        (1, 1)
    } else {
        (-1, 1)
    }
}

/// Corner `c` of face `f` of the cube with corners at ±1.
pub open spec fn cube_corner(f: int, c: int) -> (int, int, int) {
    let (n, u, v) = (face_normal(f), face_u(f), face_v(f));
    let (s, t) = corner_signs(c);
    (n.0 + s * u.0 + t * v.0, n.1 + s * u.1 + t * v.1, n.2 + s * u.2 + t * v.2)
}

/// Corner of its face that entry `j` of a face's six indices names.
pub open spec fn face_index_corner(j: int) -> int {
    if j == 0 || j == 5 {
        0
    } else if j == 1 {
        1
    } else if j == 2 || j == 3 {
        2
    } else {
        3
    }
}

/// Entry `k` of the cube's index list: two triangles per face.
pub open spec fn cube_index(k: int) -> u16 {
    (4 * (k / 6) + face_index_corner(k % 6)) as u16
}

pub open spec fn sub3(a: (int, int, int), b: (int, int, int)) -> (int, int, int) {
    (a.0 - b.0, a.1 - b.1, a.2 - b.2)
}

pub open spec fn cross3(a: (int, int, int), b: (int, int, int)) -> (int, int, int) {
    (a.1 * b.2 - a.2 * b.1, a.2 * b.0 - a.0 * b.2, a.0 * b.1 - a.1 * b.0)
}

fn face_frame(f: usize) -> (r: ([i8; 3], [i8; 3], [i8; 3]))
    requires
        f < 6,
    ensures
        (r.0@[0] as int, r.0@[1] as int, r.0@[2] as int) == face_normal(f as int),
        (r.1@[0] as int, r.1@[1] as int, r.1@[2] as int) == face_u(f as int),
        (r.2@[0] as int, r.2@[1] as int, r.2@[2] as int) == face_v(f as int),
        forall|i: int| 0 <= i < 3 ==> -1 <= #[trigger] r.0@[i] <= 1,
        forall|i: int| 0 <= i < 3 ==> -1 <= #[trigger] r.1@[i] <= 1,
        forall|i: int| 0 <= i < 3 ==> -1 <= #[trigger] r.2@[i] <= 1,
{
    if f == 0 {
        ([0, 0, 1], [1, 0, 0], [0, 1, 0])
    } else if f == 1 {
        ([0, 0, -1], [1, 0, 0], [0, -1, 0])
    } else if f == 2 {
        ([1, 0, 0], [0, 1, 0], [0, 0, 1])
    } else if f == 3 {
        ([-1, 0, 0], [0, 1, 0], [0, 0, -1])
    } else if f == 4 {
        ([0, 1, 0], [-1, 0, 0], [0, 0, 1])
    } else {
        ([0, -1, 0], [-1, 0, 0], [0, 0, -1])
    }
}

fn corner_sign_pair(c: usize) -> (r: (i8, i8))
    requires
        c < 4,
    ensures
        (r.0 as int, r.1 as int) == corner_signs(c as int),
        -1 <= r.0 <= 1,
        -1 <= r.1 <= 1,
{
    if c == 0 {
        (-1, -1)
    } else if c == 1 {
        (1, -1)
    } else if c == 2 {
        (1, 1)
    } else {
        (-1, 1)
    }
}

fn face_index_corner_exec(j: u16) -> (r: u16)
    requires
        j < 6,
    ensures
        r == face_index_corner(j as int),
{
    if j == 0 || j == 5 {
        0
    } else if j == 1 {
        1
    } else if j == 2 || j == 3 {
        2
    } else {
        3
    }
}

/// The cube with corners at ±1: four vertices per face, with the face's
/// outward normal, going round the face; and two triangles per face.
pub fn create_cube() -> (r: (Vec<Vertex>, Vec<u16>))
    ensures
        r.0@.len() == 24,
        forall|k: int|
            0 <= k < 24 ==> {
                let p = cube_corner(k / 4, k % 4);
                let n = face_normal(k / 4);
                &&& (#[trigger] r.0@[k]).pos@ == point4(p.0, p.1, p.2)
                &&& r.0@[k].normal@ == seq![n.0 as i8, n.1 as i8, n.2 as i8, 0i8]
            },
        r.1@.len() == 36,
        forall|k: int| 0 <= k < 36 ==> #[trigger] r.1@[k] == cube_index(k),
{
    let mut vertices: Vec<Vertex> = Vec::new();
    let mut f: usize = 0;
    while f < 6
        invariant
            0 <= f <= 6,
            vertices@.len() == 4 * f,
            forall|k: int|
                0 <= k < vertices@.len() ==> {
                    let p = cube_corner(k / 4, k % 4);
                    let n = face_normal(k / 4);
                    &&& (#[trigger] vertices@[k]).pos@ == point4(p.0, p.1, p.2)
                    &&& vertices@[k].normal@ == seq![n.0 as i8, n.1 as i8, n.2 as i8, 0i8]
                },
        decreases 6 - f,
    {
        let (n, u, v) = face_frame(f);
        let mut c: usize = 0;
        while c < 4
            invariant
                0 <= c <= 4,
                f < 6,
                (n@[0] as int, n@[1] as int, n@[2] as int) == face_normal(f as int),
                (u@[0] as int, u@[1] as int, u@[2] as int) == face_u(f as int),
                (v@[0] as int, v@[1] as int, v@[2] as int) == face_v(f as int),
                vertices@.len() == 4 * f + c,
                forall|k: int|
                    0 <= k < vertices@.len() ==> {
                        let p = cube_corner(k / 4, k % 4);
                        let n = face_normal(k / 4);
                        &&& (#[trigger] vertices@[k]).pos@ == point4(p.0, p.1, p.2)
                        &&& vertices@[k].normal@ == seq![n.0 as i8, n.1 as i8, n.2 as i8, 0i8]
                    },
            decreases 4 - c,
        {
            let (s, t) = corner_sign_pair(c);
            proof {
                assert forall|a: i8, b: i8| -1 <= a <= 1 && -1 <= b <= 1 implies -1 <= #[trigger] (a
                    * b) <= 1 by {
                    assert(-1 <= a * b <= 1) by (nonlinear_arith)
                        requires -1 <= a <= 1, -1 <= b <= 1;
                }
                assert(-1 <= n@[0] <= 1 && -1 <= n@[1] <= 1 && -1 <= n@[2] <= 1);
                assert(-1 <= u@[0] <= 1 && -1 <= u@[1] <= 1 && -1 <= u@[2] <= 1);
                assert(-1 <= v@[0] <= 1 && -1 <= v@[1] <= 1 && -1 <= v@[2] <= 1);
            }
            let x = n[0] + s * u[0] + t * v[0];
            let y = n[1] + s * u[1] + t * v[1];
            let z = n[2] + s * u[2] + t * v[2];
            let vert = Vertex { pos: point(x, y, z), normal: [n[0], n[1], n[2], 0] };
            proof {
                let k = (4 * f + c) as int;
                lemma_fundamental_div_mod_converse(k, 4, f as int, c as int);
                assert(vert.normal@ =~= seq![n@[0], n@[1], n@[2], 0i8]);
            }
            vertices.push(vert);
            c = c + 1;
        }
        f = f + 1;
    }
    let mut indices: Vec<u16> = Vec::new();
    let mut face: u16 = 0;
    while face < 6
        invariant
            0 <= face <= 6,
            indices@.len() == 6 * face,
            forall|k: int| 0 <= k < indices@.len() ==> #[trigger] indices@[k] == cube_index(k),
        decreases 6 - face,
    {
        let mut j: u16 = 0;
        while j < 6
            invariant
                0 <= j <= 6,
                face < 6,
                indices@.len() == 6 * face + j,
                forall|k: int| 0 <= k < indices@.len() ==> #[trigger] indices@[k] == cube_index(k),
            decreases 6 - j,
        {
            proof {
                lemma_fundamental_div_mod_converse((6 * face + j) as int, 6, face as int, j as int);
            }
            indices.push(4 * face + face_index_corner_exec(j));
            j = j + 1;
        }
        face = face + 1;
    }
    (vertices, indices)
}

/// Both triangles of every cube face wind counter-clockwise seen from
/// outside: their edge cross products point along the face's outward
/// normal.
pub proof fn lemma_cube_faces_wind_outward(f: int)
    requires
        0 <= f < 6,
    ensures
        cross3(
            sub3(cube_corner(f, 1), cube_corner(f, 0)),
            sub3(cube_corner(f, 2), cube_corner(f, 0)),
        ) == (4 * face_normal(f).0, 4 * face_normal(f).1, 4 * face_normal(f).2),
        cross3(
            sub3(cube_corner(f, 3), cube_corner(f, 2)),
            sub3(cube_corner(f, 0), cube_corner(f, 2)),
        ) == (4 * face_normal(f).0, 4 * face_normal(f).1, 4 * face_normal(f).2),
{
    if f == 0 {
        assert(face_normal(f) == (0int, 0int, 1int));
        assert(cube_corner(f, 0) == (-1int, -1int, 1int));
        assert(cube_corner(f, 1) == (1int, -1int, 1int));
        assert(cube_corner(f, 2) == (1int, 1int, 1int));
        assert(cube_corner(f, 3) == (-1int, 1int, 1int));
        assert(cross3((2int, 0int, 0int), (2int, 2int, 0int)) == (0int, 0int, 4int)) by (nonlinear_arith);
        assert(cross3((-2int, 0int, 0int), (-2int, -2int, 0int)) == (0int, 0int, 4int)) by (nonlinear_arith);
    } else if f == 1 {
        assert(face_normal(f) == (0int, 0int, -1int));
        assert(cube_corner(f, 0) == (-1int, 1int, -1int));
        assert(cube_corner(f, 1) == (1int, 1int, -1int));
        assert(cube_corner(f, 2) == (1int, -1int, -1int));
        assert(cube_corner(f, 3) == (-1int, -1int, -1int));
        assert(cross3((2int, 0int, 0int), (2int, -2int, 0int)) == (0int, 0int, -4int)) by (nonlinear_arith);
        assert(cross3((-2int, 0int, 0int), (-2int, 2int, 0int)) == (0int, 0int, -4int)) by (nonlinear_arith);
    } else if f == 2 {
        assert(face_normal(f) == (1int, 0int, 0int));
        assert(cube_corner(f, 0) == (1int, -1int, -1int));
        assert(cube_corner(f, 1) == (1int, 1int, -1int));
        assert(cube_corner(f, 2) == (1int, 1int, 1int));
        assert(cube_corner(f, 3) == (1int, -1int, 1int));
        assert(cross3((0int, 2int, 0int), (0int, 2int, 2int)) == (4int, 0int, 0int)) by (nonlinear_arith);
        assert(cross3((0int, -2int, 0int), (0int, -2int, -2int)) == (4int, 0int, 0int)) by (nonlinear_arith);
    } else if f == 3 {
        assert(face_normal(f) == (-1int, 0int, 0int));
        assert(cube_corner(f, 0) == (-1int, -1int, 1int));
        assert(cube_corner(f, 1) == (-1int, 1int, 1int));
        assert(cube_corner(f, 2) == (-1int, 1int, -1int));
        assert(cube_corner(f, 3) == (-1int, -1int, -1int));
        assert(cross3((0int, 2int, 0int), (0int, 2int, -2int)) == (-4int, 0int, 0int)) by (nonlinear_arith);
        assert(cross3((0int, -2int, 0int), (0int, -2int, 2int)) == (-4int, 0int, 0int)) by (nonlinear_arith);
    } else if f == 4 {
        assert(face_normal(f) == (0int, 1int, 0int));
        assert(cube_corner(f, 0) == (1int, 1int, -1int));
        assert(cube_corner(f, 1) == (-1int, 1int, -1int));
        assert(cube_corner(f, 2) == (-1int, 1int, 1int));
        assert(cube_corner(f, 3) == (1int, 1int, 1int));
        assert(cross3((-2int, 0int, 0int), (-2int, 0int, 2int)) == (0int, 4int, 0int)) by (nonlinear_arith);
        assert(cross3((2int, 0int, 0int), (2int, 0int, -2int)) == (0int, 4int, 0int)) by (nonlinear_arith);
    } else {
        assert(face_normal(f) == (0int, -1int, 0int));
        assert(cube_corner(f, 0) == (1int, -1int, 1int));
        assert(cube_corner(f, 1) == (-1int, -1int, 1int));
        assert(cube_corner(f, 2) == (-1int, -1int, -1int));
        assert(cube_corner(f, 3) == (1int, -1int, -1int));
        assert(cross3((-2int, 0int, 0int), (-2int, 0int, -2int)) == (0int, -4int, 0int)) by (nonlinear_arith);
        assert(cross3((2int, 0int, 0int), (2int, 0int, 2int)) == (0int, -4int, 0int)) by (nonlinear_arith);
    }
}

/// Offsets along Z and X, in rows and columns, of the grid corner that
/// entry `j` of a cell's six indices names.
pub open spec fn cell_corner(j: int) -> (int, int) {
    if j == 0 {
        (1, 0)
    } else if j == 1 || j == 3 {
        (1, 1)
    } else if j == 2 || j == 5 {
        (0, 0)
    } else {
        (0, 1)
    }
}

/// Position of vertex `k` of the terrain grid reaching `x_size` and
/// `z_size` cells either side of the centre, rows of constant Z one after
/// another.
pub open spec fn terrain_vertex_pos(x_size: nat, z_size: nat, k: int) -> Seq<i8> {
    let w = (2 * x_size + 1) as int;
    point4(k % w - x_size, 0, k / w - z_size)
}

/// Entry `k` of the terrain's index list: two triangles per cell, cells
/// row by row.
pub open spec fn terrain_index(x_size: nat, k: int) -> u16 {
    let cells = (2 * x_size) as int;
    let cell = k / 6;
    let (dz, dx) = cell_corner(k % 6);
    ((cell / cells + dz) * (cells + 1) + cell % cells + dx) as u16
}

fn cell_corner_exec(j: usize) -> (r: (usize, usize))
    requires
        j < 6,
    ensures
        (r.0 as int, r.1 as int) == cell_corner(j as int),
        r.0 <= 1,
        r.1 <= 1,
{
    if j == 0 {
        (1, 0)
    } else if j == 1 || j == 3 {
        (1, 1)
    } else if j == 2 || j == 5 {
        (0, 0)
    } else {
        (0, 1)
    }
}

/// A flat terrain grid on the XZ plane reaching `x_size` cells either side
/// of the centre along X and `z_size` along Z, with upward normals, and two
/// triangles per cell.
pub fn create_terrain(x_size: usize, z_size: usize) -> (r: (Vec<Vertex>, Vec<u16>))
    requires
        2 * x_size <= i8::MAX,
        2 * z_size <= i8::MAX,
    ensures
        r.0@.len() == (2 * x_size + 1) * (2 * z_size + 1),
        forall|k: int|
            0 <= k < r.0@.len() ==> {
                &&& (#[trigger] r.0@[k]).pos@ == terrain_vertex_pos(x_size as nat, z_size as nat, k)
                &&& r.0@[k].normal@ == seq![0i8, 1, 0, 0]
            },
        r.1@.len() == 6 * (2 * x_size) * (2 * z_size),
        forall|k: int| 0 <= k < r.1@.len() ==> #[trigger] r.1@[k] == terrain_index(x_size as nat, k),
{
    let cols: usize = x_size * 2;
    let rows: usize = z_size * 2;
    let w: usize = cols + 1;
    let ox = x_size as i8;
    let oz = z_size as i8;
    let mut vertices: Vec<Vertex> = Vec::new();
    let mut z: usize = 0;
    while z <= rows
        invariant
            0 <= z <= rows + 1,
            cols == 2 * x_size,
            rows == 2 * z_size,
            w == cols + 1,
            cols <= 127,
            rows <= 127,
            ox == x_size,
            oz == z_size,
            vertices@.len() == z * w,
            forall|k: int|
                0 <= k < vertices@.len() ==> {
                    &&& (#[trigger] vertices@[k]).pos@ == terrain_vertex_pos(
                        x_size as nat,
                        z_size as nat,
                        k,
                    )
                    &&& vertices@[k].normal@ == seq![0i8, 1, 0, 0]
                },
        decreases rows + 1 - z,
    {
        let mut x: usize = 0;
        while x <= cols
            invariant
                0 <= x <= cols + 1,
                z <= rows,
                cols == 2 * x_size,
                rows == 2 * z_size,
                w == cols + 1,
                cols <= 127,
                rows <= 127,
                ox == x_size,
                oz == z_size,
                vertices@.len() == z * w + x,
                forall|k: int|
                    0 <= k < vertices@.len() ==> {
                        &&& (#[trigger] vertices@[k]).pos@ == terrain_vertex_pos(
                            x_size as nat,
                            z_size as nat,
                            k,
                        )
                        &&& vertices@[k].normal@ == seq![0i8, 1, 0, 0]
                    },
            decreases cols + 1 - x,
        {
            proof {
                lemma_fundamental_div_mod_converse((z * w + x) as int, w as int, z as int, x as int);
            }
            let v = vertex([x as i8 - ox, 0, z as i8 - oz], [0, 1, 0]);
            vertices.push(v);
            x = x + 1;
        }
        proof {
            assert((z + 1) * w == z * w + w) by (nonlinear_arith);
        }
        z = z + 1;
    }
    proof {
        assert((rows + 1) * w == w * (rows + 1)) by (nonlinear_arith);
    }
    let mut indices: Vec<u16> = Vec::new();
    let mut z: usize = 0;
    while z < rows
        invariant
            0 <= z <= rows,
            cols == 2 * x_size,
            rows == 2 * z_size,
            w == cols + 1,
            cols <= 127,
            rows <= 127,
            indices@.len() == 6 * (z * cols),
            forall|k: int|
                0 <= k < indices@.len() ==> #[trigger] indices@[k] == terrain_index(x_size as nat, k),
        decreases rows - z,
    {
        let mut x: usize = 0;
        while x < cols
            invariant
                0 <= x <= cols,
                z < rows,
                cols == 2 * x_size,
                rows == 2 * z_size,
                w == cols + 1,
                cols <= 127,
                rows <= 127,
                indices@.len() == 6 * (z * cols + x),
                forall|k: int|
                    0 <= k < indices@.len() ==> #[trigger] indices@[k] == terrain_index(
                        x_size as nat,
                        k,
                    ),
            decreases cols - x,
        {
            let mut j: usize = 0;
            while j < 6
                invariant
                    0 <= j <= 6,
                    x < cols,
                    z < rows,
                    cols == 2 * x_size,
                    rows == 2 * z_size,
                    w == cols + 1,
                    cols <= 127,
                    rows <= 127,
                    indices@.len() == 6 * (z * cols + x) + j,
                    forall|k: int|
                        0 <= k < indices@.len() ==> #[trigger] indices@[k] == terrain_index(
                            x_size as nat,
                            k,
                        ),
                decreases 6 - j,
            {
                let (dz, dx) = cell_corner_exec(j);
                proof {
                    let cell = (z * cols + x) as int;
                    lemma_fundamental_div_mod_converse(6 * cell + j, 6, cell, j as int);
                    lemma_fundamental_div_mod_converse(cell, cols as int, z as int, x as int);
                    assert((z + dz) * w <= 127 * 128) by (nonlinear_arith)
                        requires z + dz <= 127, w <= 128;
                }
                indices.push(((z + dz) * w + x + dx) as u16);
                j = j + 1;
            }
            x = x + 1;
        }
        proof {
            assert((z + 1) * cols == z * cols + cols) by (nonlinear_arith);
        }
        z = z + 1;
    }
    proof {
        assert(6 * (rows * cols) == 6 * cols * rows) by (nonlinear_arith);
    }
    (vertices, indices)
}

} // verus!
