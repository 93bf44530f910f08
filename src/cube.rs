//! The cube: its eight corners at `±1` on each axis, visited by two triangle
//! strips of eight vertices that together cover its six faces.
use vstd::prelude::*;
use crate::mesh::valid_triangles;

verus! {

/// A vertex of the cube: a corner and the texture coordinate that the
/// strip gives it there, both in whole units.
#[derive(Clone, Copy, Debug, PartialEq, Eq)]
pub struct CubeVertex {
    pub position: [i16; 3],
    pub tex_coord: [i16; 2],
}

/// `-1` or `1`, as `bit` is clear or set.
pub open spec fn unit_sign(bit: bool) -> i16 {
    if bit {
        1
    } else {
        -1i16
    }
}

/// Corner `k` of the cube: bits 0, 1 and 2 of `k` say whether x, y and z
/// are `1` rather than `-1`.
pub open spec fn cube_corner(k: int) -> Seq<i16> {
    seq![unit_sign(k % 2 == 1), unit_sign((k / 2) % 2 == 1), unit_sign(k / 4 == 1)]
}

/// The corners that strip `s` visits, in order.
pub open spec fn cube_strip(s: int) -> Seq<usize> {
    if s == 0 {
        seq![0, 2, 4, 6, 5, 7, 1, 3]
    } else {
        seq![4, 5, 0, 1, 2, 3, 6, 7]
    }
}

/// The texture coordinate of the `t`-th vertex of a strip: one column per
/// pair of vertices, the first of each pair on row 1, the second on row 0.
pub open spec fn strip_tex(t: int) -> Seq<i16> {
    seq![(t / 2) as i16, (1 - t % 2) as i16]
}

/// The corners, the two strips and their texture coordinates.
pub fn cube_data() -> (data: (Vec<[i16; 3]>, Vec<[usize; 8]>, Vec<[[i16; 2]; 8]>))
    ensures
        data.0@.len() == 8,
        forall|k: int| 0 <= k < 8 ==> (#[trigger] data.0@[k])@ == cube_corner(k),
        data.1@.len() == 2,
        forall|s: int| 0 <= s < 2 ==> (#[trigger] data.1@[s])@ == cube_strip(s),
        data.2@.len() == 2,
        forall|s: int, t: int| 0 <= s < 2 && 0 <= t < 8 ==> (#[trigger] data.2@[s]@[t])@ == strip_tex(t),
{
    let vertexes: Vec<[i16; 3]> = vec![
        [-1, -1, -1],
        [1, -1, -1],
        [-1, 1, -1],
        [1, 1, -1],
        [-1, -1, 1],
        [1, -1, 1],
        [-1, 1, 1],
        [1, 1, 1],
    ];
    let quad_strips: Vec<[usize; 8]> = vec![[0, 2, 4, 6, 5, 7, 1, 3], [4, 5, 0, 1, 2, 3, 6, 7]];
    let tex: [[i16; 2]; 8] = [[0, 1], [0, 0], [1, 1], [1, 0], [2, 1], [2, 0], [3, 1], [3, 0]];
    let tex_strips: Vec<[[i16; 2]; 8]> = vec![tex, tex];
    proof {
        assert(vertexes@[0]@ =~= cube_corner(0));
    }
    (vertexes, quad_strips, tex_strips)
}

/// Number of vertices in each strip.
pub const STRIP_LEN: usize = 8;

/// The triangles of a strip that ends before vertex `end`, from vertex `j`
/// on: `(j, j+3, j+1)` and `(j, j+2, j+3)`, then the same from `j + 2`,
/// while `j < end - 2`.
pub open spec fn strip_triangles(j: nat, end: nat) -> Seq<u16>
    decreases end - j,
{
    if j + 2 < end {
        seq![j as u16, (j + 3) as u16, (j + 1) as u16, j as u16, (j + 2) as u16, (j + 3) as u16]
            + strip_triangles(j + 2, end)
    } else {
        seq![]
    }
}

/// The triangles of the first `n` strips of the cube, strip `s` holding
/// vertices `8s .. 8s + 8`.
pub open spec fn strips_triangles(n: nat) -> Seq<u16>
    decreases n,
{
    if n == 0 {
        seq![]
    } else {
        strips_triangles((n - 1) as nat) + strip_triangles(8 * (n - 1) as nat, 8 * n)
    }
}

/// The index buffer of the cube: the triangles of both strips.
pub open spec fn cube_triangles() -> Seq<u16> {
    strips_triangles(2)
}

/// The cube as a triangle list: the sixteen strip vertices, strip after
/// strip, and the triangles that each strip's stepping rule gives.
pub fn make_cube() -> (mesh: (Vec<CubeVertex>, Vec<u16>))
    ensures
        mesh.0@.len() == 2 * STRIP_LEN,
        forall|k: int|
            0 <= k < 2 * STRIP_LEN ==> {
                &&& (#[trigger] mesh.0@[k]).position@ == cube_corner(cube_strip(k / 8)[k % 8] as int)
                &&& mesh.0@[k].tex_coord@ == strip_tex(k % 8)
            },
        mesh.1@ == cube_triangles(),
        valid_triangles(mesh.0@.len(), mesh.1@),
{
    let (verts, strips, tex_strips) = cube_data();
    let mut vertexes: Vec<CubeVertex> = Vec::new();
    let mut i: usize = 0;
    while i < strips.len()
        invariant
            verts@.len() == 8,
            forall|k: int| 0 <= k < 8 ==> (#[trigger] verts@[k])@ == cube_corner(k),
            strips@.len() == 2,
            forall|s: int| 0 <= s < 2 ==> (#[trigger] strips@[s])@ == cube_strip(s),
            tex_strips@.len() == 2,
            forall|s: int, t: int| 0 <= s < 2 && 0 <= t < 8 ==> (#[trigger] tex_strips@[s]@[t])@ == strip_tex(t),
            i <= 2,
            vertexes@.len() == STRIP_LEN * i,
            forall|k: int|
                0 <= k < vertexes@.len() ==> {
                    &&& (#[trigger] vertexes@[k]).position@ == cube_corner(cube_strip(k / 8)[k % 8] as int)
                    &&& vertexes@[k].tex_coord@ == strip_tex(k % 8)
                },
        decreases 2 - i,
    {
        let mut j: usize = 0;
        while j < STRIP_LEN
            invariant
                verts@.len() == 8,
                forall|k: int| 0 <= k < 8 ==> (#[trigger] verts@[k])@ == cube_corner(k),
                strips@.len() == 2,
                forall|s: int| 0 <= s < 2 ==> (#[trigger] strips@[s])@ == cube_strip(s),
                tex_strips@.len() == 2,
                forall|s: int, t: int| 0 <= s < 2 && 0 <= t < 8 ==> (#[trigger] tex_strips@[s]@[t])@ == strip_tex(t),
                i < 2,
                j <= STRIP_LEN,
                vertexes@.len() == STRIP_LEN * i + j,
                forall|k: int|
                    0 <= k < vertexes@.len() ==> {
                        &&& (#[trigger] vertexes@[k]).position@ == cube_corner(cube_strip(k / 8)[k % 8] as int)
                        &&& vertexes@[k].tex_coord@ == strip_tex(k % 8)
                    },
            decreases STRIP_LEN - j,
        {
            let strip = strips[i];
            let corner = strip[j];
            assert(strip@ == cube_strip(i as int));
            assert(corner < 8);
            let ghost prev = vertexes@;
            vertexes.push(CubeVertex { position: verts[corner], tex_coord: tex_strips[i][j] });
            assert forall|k: int|
                0 <= k < vertexes@.len() implies {
                    &&& (#[trigger] vertexes@[k]).position@ == cube_corner(cube_strip(k / 8)[k % 8] as int)
                    &&& vertexes@[k].tex_coord@ == strip_tex(k % 8)
                } by {
                if k < prev.len() {
                    assert(vertexes@[k] == prev[k]);
                } else {
                    assert(k / 8 == i && k % 8 == j);
                }
            }
            j += 1;
        }
        i += 1;
    }

    let mut indexes: Vec<u16> = Vec::new();
    let mut j: u16 = 0;
    let mut i: usize = 0;
    while i < strips.len()
        invariant
            strips@.len() == 2,
            i <= 2,
            j == 8 * i,
            indexes@ == strips_triangles(i as nat),
            valid_triangles(16, indexes@),
        decreases 2 - i,
    {
        let k = STRIP_LEN as u16 + j;
        while j < k - 2
            invariant
                i < 2,
                k == 8 * i + 8,
                8 * i <= j <= k - 2,
                j % 2 == 0,
                indexes@ + strip_triangles(j as nat, k as nat) == strips_triangles((i + 1) as nat),
                valid_triangles(16, indexes@),
            decreases k - j,
        {
            let ghost prev = indexes@;
            indexes.push(j);
            indexes.push(j + 3);
            indexes.push(j + 1);
            indexes.push(j);
            indexes.push(j + 2);
            indexes.push(j + 3);
            proof {
                let quad = seq![j, (j + 3) as u16, (j + 1) as u16, j, (j + 2) as u16, (j + 3) as u16];
                assert(indexes@ =~= prev + quad);
                assert(strip_triangles(j as nat, k as nat) == quad + strip_triangles((j + 2) as nat, k as nat));
                assert(indexes@ + strip_triangles((j + 2) as nat, k as nat)
                    =~= prev + strip_triangles(j as nat, k as nat));
                assert forall|n: int| 0 <= n < indexes@.len() implies (#[trigger] indexes@[n]) < 16 by {
                    if n < prev.len() {
                        assert(indexes@[n] == prev[n]);
                    }
                }
            }
            j += 2;
        }
        assert(indexes@ =~= strips_triangles((i + 1) as nat));
        j = k;
        i += 1;
    }

    (vertexes, indexes)
}

/// The cube has two strips of eight vertices, sixteen in all, and its
/// index buffer, written out, is three quads of two triangles per strip:
/// thirty-six indices.
pub proof fn lemma_cube_triangles()
    ensures
        cube_triangles() == seq![
            0u16, 3, 1, 0, 2, 3,
            2, 5, 3, 2, 4, 5,
            4, 7, 5, 4, 6, 7,
            8, 11, 9, 8, 10, 11,
            10, 13, 11, 10, 12, 13,
            12, 15, 13, 12, 14, 15,
        ],
        cube_triangles().len() == 36,
{
    reveal_with_fuel(strip_triangles, 4);
    reveal_with_fuel(strips_triangles, 3);
    assert(cube_triangles() =~= seq![
        0u16, 3, 1, 0, 2, 3,
        2, 5, 3, 2, 4, 5,
        4, 7, 5, 4, 6, 7,
        8, 11, 9, 8, 10, 11,
        10, 13, 11, 10, 12, 13,
        12, 15, 13, 12, 14, 15,
    ]);
}

} // verus!
