//! The geometry tables of the landscape: one cube, drawn once per instance.
//!
//! Coordinates are whole numbers; the driver turns them into the floating
//! point records that the GPU reads.

use vstd::prelude::*;

verus! {

/// Half the edge length of a cube.
pub const SIZE: i32 = 10;

/// `SIZE` towards the left, the top or the front.
pub const NEG_SIZE: i32 = -10;

/// Distance between neighbouring instances of the grid.
pub const SPACING: i64 = 20;

/// Position of a triangle corner. X points right, Y down, Z inwards.
#[derive(Clone, Copy, Debug, PartialEq, Eq, Structural)]
pub struct Vertex {
    pub x: i32,
    pub y: i32,
    pub z: i32,
}

/// Normal of a triangle corner.
#[derive(Clone, Copy, Debug, PartialEq, Eq, Structural)]
pub struct Normal {
    pub x: i32,
    pub y: i32,
    pub z: i32,
}

/// Texture coordinate of a triangle corner.
#[derive(Clone, Copy, Debug, PartialEq, Eq, Structural)]
pub struct TexCoord {
    pub u: i32,
    pub v: i32,
}

/// World-space translation of one instance.
#[derive(Clone, Copy, Debug, PartialEq, Eq, Structural)]
pub struct InstanceData {
    pub x: i64,
    pub y: i64,
    pub z: i64,
}

/// Every element of `items` repeated `cnt` times, in order.
pub open spec fn repeated<T>(items: Seq<T>, cnt: nat) -> Seq<T> {
    Seq::new(items.len() * cnt, |i: int| items[i / cnt as int])
}

proof fn lemma_block_index(i: int, j: int, cnt: int)
    by (nonlinear_arith)
    requires
        0 <= i,
        0 <= j < cnt,
    ensures
        (i * cnt + j) / cnt == i,
        i * cnt + cnt == (i + 1) * cnt,
{
}

/// Repeats every element of `items` `cnt` times.
pub fn repeat_element<T: Copy>(items: &Vec<T>, cnt: usize) -> (r: Vec<T>)
    ensures
        r@ == repeated(items@, cnt as nat),
{
    let mut out: Vec<T> = Vec::new();
    let mut i: usize = 0;
    while i < items.len()
        invariant
            i <= items.len(),
            out@.len() == i * cnt,
            forall|k: int| 0 <= k < out@.len() ==> out@[k] == items@[k / cnt as int],
        decreases items.len() - i,
    {
        let mut j: usize = 0;
        while j < cnt
            invariant
                i < items.len(),
                j <= cnt,
                out@.len() == i * cnt + j,
                forall|k: int| 0 <= k < out@.len() ==> out@[k] == items@[k / cnt as int],
            decreases cnt - j,
        {
            proof {
                lemma_block_index(i as int, j as int, cnt as int);
            }
            out.push(items[i]);
            j += 1;
        }
        proof {
            assert(i * cnt + cnt == (i + 1) * cnt) by (nonlinear_arith);
        }
        i += 1;
    }
    assert(out@ =~= repeated(items@, cnt as nat));
    out
}

/// The eight corners of the cube: the front face clockwise from the top
/// left, then the back face in the same order.
pub open spec fn corner_table() -> Seq<Vertex> {
    seq![
        Vertex { x: NEG_SIZE, y: NEG_SIZE, z: NEG_SIZE },
        Vertex { x: SIZE, y: NEG_SIZE, z: NEG_SIZE },
        Vertex { x: SIZE, y: SIZE, z: NEG_SIZE },
        Vertex { x: NEG_SIZE, y: SIZE, z: NEG_SIZE },
        Vertex { x: NEG_SIZE, y: NEG_SIZE, z: SIZE },
        Vertex { x: SIZE, y: NEG_SIZE, z: SIZE },
        Vertex { x: SIZE, y: SIZE, z: SIZE },
        Vertex { x: NEG_SIZE, y: SIZE, z: SIZE },
    ]
}

/// Number of vertices of the cube: three for each corner, one for each face
/// that meets there.
pub const CUBE_VERTEX_COUNT: usize = 24;

/// Number of indices of the cube: six faces of two triangles.
pub const CUBE_INDEX_COUNT: usize = 36;

/// The vertex stream of the cube: every corner three times, for the faces
/// to the side, above or below, and in front or behind, in that order.
pub fn cube_vertices() -> (r: Vec<Vertex>)
    ensures
        r@ == repeated(corner_table(), 3),
        r@.len() == CUBE_VERTEX_COUNT,
{
    let mut corners: Vec<Vertex> = Vec::new();
    corners.push(Vertex { x: NEG_SIZE, y: NEG_SIZE, z: NEG_SIZE });
    corners.push(Vertex { x: SIZE, y: NEG_SIZE, z: NEG_SIZE });
    corners.push(Vertex { x: SIZE, y: SIZE, z: NEG_SIZE });
    corners.push(Vertex { x: NEG_SIZE, y: SIZE, z: NEG_SIZE });
    corners.push(Vertex { x: NEG_SIZE, y: NEG_SIZE, z: SIZE });
    corners.push(Vertex { x: SIZE, y: NEG_SIZE, z: SIZE });
    corners.push(Vertex { x: SIZE, y: SIZE, z: SIZE });
    corners.push(Vertex { x: NEG_SIZE, y: SIZE, z: SIZE });
    assert(corners@ =~= corner_table());
    repeat_element(&corners, 3)
}

/// The normal of the vertex `slot` (0: side, 1: above or below, 2: front or
/// back) of the corner `corner`.
pub open spec fn corner_normal(corner: int, slot: int) -> Normal {
    if slot == 0 {
        // corners 1, 2, 5 and 6 lie on the right
        if corner % 4 == 1 || corner % 4 == 2 {
            Normal { x: SIZE, y: 0, z: 0 }
        } else {
            Normal { x: NEG_SIZE, y: 0, z: 0 }
        }
    } else if slot == 1 {
        // corners 2, 3, 6 and 7 lie at the bottom
        if corner % 4 >= 2 {
            Normal { x: 0, y: SIZE, z: 0 }
        } else {
            Normal { x: 0, y: NEG_SIZE, z: 0 }
        }
    } else {
        // corners 4 to 7 lie at the back
        if corner >= 4 {
            Normal { x: 0, y: 0, z: SIZE }
        } else {
            Normal { x: 0, y: 0, z: NEG_SIZE }
        }
    }
}

/// The normal stream of the cube, vertex by vertex.
pub open spec fn normal_table() -> Seq<Normal> {
    Seq::new(CUBE_VERTEX_COUNT as nat, |i: int| corner_normal(i / 3, i % 3))
}

/// The normal stream of the cube: for every vertex the normal of the face
/// it belongs to.
pub fn cube_normals() -> (r: Vec<Normal>)
    ensures
        r@ == normal_table(),
{
    let mut out: Vec<Normal> = Vec::new();
    let mut corner: usize = 0;
    while corner < 8
        invariant
            corner <= 8,
            out@.len() == corner * 3,
            forall|k: int| 0 <= k < out@.len() ==> out@[k] == corner_normal(k / 3, k % 3),
        decreases 8 - corner,
    {
        let side: i32 = if corner % 4 == 1 || corner % 4 == 2 { SIZE } else { NEG_SIZE };
        let level: i32 = if corner % 4 >= 2 { SIZE } else { NEG_SIZE };
        let depth: i32 = if corner >= 4 { SIZE } else { NEG_SIZE };
        out.push(Normal { x: side, y: 0, z: 0 });
        out.push(Normal { x: 0, y: level, z: 0 });
        out.push(Normal { x: 0, y: 0, z: depth });
        corner += 1;
    }
    assert(out@ =~= normal_table());
    out
}

/// The texture coordinates of the cube, vertex by vertex, as pairs.
pub open spec fn tex_coord_table() -> Seq<(i32, i32)> {
    seq![
        (1i32, 0i32), (0i32, 0i32), (0i32, 0i32),
        (0i32, 0i32), (0i32, 0i32), (1i32, 0i32),
        (0i32, 1i32), (1i32, 0i32), (1i32, 1i32),
        (1i32, 1i32), (0i32, 0i32), (0i32, 1i32),
        (0i32, 0i32), (0i32, 0i32), (1i32, 0i32),
        (1i32, 0i32), (0i32, 0i32), (0i32, 0i32),
        (1i32, 1i32), (0i32, 0i32), (0i32, 1i32),
        (0i32, 1i32), (1i32, 0i32), (1i32, 1i32),
    ]
}

/// The texture coordinate stream of the cube: one coordinate per vertex,
/// each component 0 or 1.
pub fn cube_tex_coords() -> (r: Vec<TexCoord>)
    ensures
        r@.len() == CUBE_VERTEX_COUNT,
        forall|i: int|
            0 <= i < r@.len() ==> r@[i].u == (#[trigger] tex_coord_table()[i]).0 && r@[i].v
                == tex_coord_table()[i].1,
{
    let pairs: [(i32, i32); 24] = [
        (1, 0), (0, 0), (0, 0),
        (0, 0), (0, 0), (1, 0),
        (0, 1), (1, 0), (1, 1),
        (1, 1), (0, 0), (0, 1),
        (0, 0), (0, 0), (1, 0),
        (1, 0), (0, 0), (0, 0),
        (1, 1), (0, 0), (0, 1),
        (0, 1), (1, 0), (1, 1),
    ];
    assert(pairs@ =~= tex_coord_table());
    let mut out: Vec<TexCoord> = Vec::new();
    let mut i: usize = 0;
    while i < 24
        invariant
            i <= 24,
            out@.len() == i,
            pairs@ == tex_coord_table(),
            forall|k: int|
                0 <= k < i ==> out@[k].u == (#[trigger] tex_coord_table()[k]).0 && out@[k].v
                    == tex_coord_table()[k].1,
        decreases 24 - i,
    {
        let pair: (i32, i32) = pairs[i];
        out.push(TexCoord { u: pair.0, v: pair.1 });
        i += 1;
    }
    out
}

/// The index stream of the cube: front, back, left, right, top and bottom
/// face, two triangles each.
pub open spec fn index_table() -> Seq<u16> {
    seq![
        2u16, 5u16, 8u16, 8u16, 11u16, 2u16,
        14u16, 17u16, 20u16, 20u16, 23u16, 14u16,
        0u16, 9u16, 21u16, 0u16, 12u16, 21u16,
        3u16, 6u16, 15u16, 6u16, 15u16, 18u16,
        1u16, 4u16, 13u16, 4u16, 13u16, 16u16,
        7u16, 19u16, 22u16, 7u16, 10u16, 22u16,
    ]
}

/// The index stream of the cube. Every index names one of the cube's
/// vertices.
pub fn cube_indices() -> (r: Vec<u16>)
    ensures
        r@ == index_table(),
        r@.len() == CUBE_INDEX_COUNT,
        forall|i: int| 0 <= i < r@.len() ==> (#[trigger] r@[i]) < CUBE_VERTEX_COUNT,
{
    let table: [u16; 36] = [
        2, 5, 8, 8, 11, 2,
        14, 17, 20, 20, 23, 14,
        0, 9, 21, 0, 12, 21,
        3, 6, 15, 6, 15, 18,
        1, 4, 13, 4, 13, 16,
        7, 19, 22, 7, 10, 22,
    ];
    assert(table@ =~= index_table());
    let mut out: Vec<u16> = Vec::new();
    let mut i: usize = 0;
    while i < 36
        invariant
            i <= 36,
            out@.len() == i,
            table@ == index_table(),
            forall|k: int| 0 <= k < i ==> out@[k] == index_table()[k],
        decreases 36 - i,
    {
        out.push(table[i]);
        i += 1;
    }
    assert(out@ =~= index_table());
    out
}

/// The offsets of a grid of `nx` by `ny` by `nz` instances, the last
/// coordinate running fastest.
pub open spec fn grid_table(nx: u16, ny: u16, nz: u16) -> Seq<InstanceData> {
    Seq::new(
        (nx as nat) * (ny as nat) * (nz as nat),
        |i: int|
            InstanceData {
                x: ((i / (ny as int * nz as int)) * SPACING) as i64,
                y: (((i / nz as int) % ny as int) * SPACING) as i64,
                z: ((i % nz as int) * SPACING) as i64,
            },
    )
}

/// The offsets of a grid of `nx` by `ny` by `nz` instances, `SPACING` apart
/// in every direction.
pub fn instance_grid(nx: u16, ny: u16, nz: u16) -> (r: Vec<InstanceData>)
    ensures
        r@ == grid_table(nx, ny, nz),
{
    assert(ny * nz <= 0xffff * 0xffff) by (nonlinear_arith)
        requires
            ny <= 0xffff,
            nz <= 0xffff,
    ;
    let layer: u64 = ny as u64 * nz as u64;
    assert(layer * nx <= 0xffff * 0xffff * 0xffff && layer * nx == (nx as nat) * (ny as nat) * (
    nz as nat)) by (nonlinear_arith)
        requires
            layer == ny * nz,
            nx <= 0xffff,
            ny <= 0xffff,
            nz <= 0xffff,
    ;
    let total: u64 = layer * nx as u64;
    let mut out: Vec<InstanceData> = Vec::new();
    let mut i: u64 = 0;
    while i < total
        invariant
            i <= total,
            total == (nx as nat) * (ny as nat) * (nz as nat),
            total <= 0xffff * 0xffff * 0xffff,
            layer == ny * nz,
            out@.len() == i,
            forall|k: int| 0 <= k < i ==> out@[k] == grid_table(nx, ny, nz)[k],
        decreases total - i,
    {
        assert(ny > 0 && nz > 0 && layer > 0) by (nonlinear_arith)
            requires
                0 <= i < total,
                total == (nx as nat) * (ny as nat) * (nz as nat),
                layer == ny * nz,
        ;
        let col: u64 = i / layer;
        let row: u64 = (i / nz as u64) % ny as u64;
        let cell: u64 = i % nz as u64;
        assert(col <= i && row < ny) by (nonlinear_arith)
            requires
                col == i / layer,
                row == (i / nz as u64) % ny as u64,
                layer > 0,
                ny > 0,
                nz > 0,
        ;
        out.push(
            InstanceData {
                x: col as i64 * SPACING,
                y: row as i64 * SPACING,
                z: cell as i64 * SPACING,
            },
        );
        i += 1;
    }
    assert(out@ =~= grid_table(nx, ny, nz));
    out
}

} // verus!
