//! Surfaces of revolution: a profile curve of `(radius, height)` points
//! turned around the vertical axis in equal angular steps.
//!
//! Profile point `j` at angular step `i` is the lattice sample in row `j`,
//! column `i`. Each ring holds `steps + 1` samples: the first and the last
//! stand at angles `0` and a full turn, the same point, kept apart so that
//! each carries its own texture coordinate at the seam.
use vstd::prelude::*;
use crate::mesh::{
    is_lattice, lattice, lattice_index, lattice_samples, quad_row, quad_rows, valid_triangles, Sample,
    MAX_VERTICES, lemma_lattice_index_bound,
};

verus! {

/// The two triangles between rings `j` and `j + 1` at angular cell `i`, on a
/// surface with `columns` samples per ring: `[j,i]-[j,i+1]-[j+1,i+1]` and
/// `[j,i]-[j+1,i]-[j+1,i+1]`.
pub open spec fn ring_quad(columns: nat, i: nat, j: nat) -> Seq<u16> {
    let a = lattice_index(columns, j, i);
    let b = lattice_index(columns, j, i + 1);
    let c = lattice_index(columns, j + 1, i + 1);
    let d = lattice_index(columns, j + 1, i);
    seq![a as u16, b as u16, c as u16, a as u16, d as u16, c as u16]
}

/// The angular cells of a surface with `columns` samples per ring, as a quad block.
pub open spec fn ring_quads(columns: nat) -> spec_fn(nat, nat) -> Seq<u16> {
    |i: nat, j: nat| ring_quad(columns, i, j)
}

/// The index buffer of a surface of revolution with `steps` angular steps
/// and `profile_len` profile points: each pair of adjacent rings in profile
/// order, each of its `steps` angular cells in turn, two triangles each.
pub open spec fn revolution_triangles(steps: nat, profile_len: nat) -> Seq<u16> {
    quad_rows(ring_quads(steps + 1), steps, (profile_len - 1) as nat)
}

/// The index buffer of a surface of revolution with `steps` angular steps
/// and `profile_len` profile points.
pub fn revolution_indices(steps: u32, profile_len: u32) -> (indexes: Vec<u16>)
    requires
        1 <= steps,
        2 <= profile_len,
        (steps + 1) * profile_len <= MAX_VERTICES,
    ensures
        indexes@ == revolution_triangles(steps as nat, profile_len as nat),
        valid_triangles(((steps + 1) * profile_len) as nat, indexes@),
{
    assert(steps + 1 <= MAX_VERTICES) by (nonlinear_arith)
        requires
            2 <= profile_len,
            (steps + 1) * profile_len <= MAX_VERTICES,
    ;
    let ghost quads = ring_quads((steps + 1) as nat);
    let ghost n = ((steps + 1) * profile_len) as nat;
    let columns = steps + 1;
    let mut indexes: Vec<u16> = Vec::new();
    let mut j: u32 = 0;
    while j < profile_len - 1
        invariant
            1 <= steps,
            2 <= profile_len,
            columns == steps + 1,
            n == columns * profile_len,
            n <= MAX_VERTICES,
            quads == ring_quads(columns as nat),
            j <= profile_len - 1,
            indexes@ == quad_rows(quads, steps as nat, j as nat),
            valid_triangles(n, indexes@),
        decreases profile_len - 1 - j,
    {
        proof {
            lemma_lattice_index_bound(columns as nat, profile_len as nat, j as nat, 0);
            lemma_lattice_index_bound(columns as nat, profile_len as nat, (j + 1) as nat, 0);
        }
        let y = j * columns;
        let y1 = (j + 1) * columns;
        let mut i: u32 = 0;
        while i < steps
            invariant
                1 <= steps,
                2 <= profile_len,
                columns == steps + 1,
                n == columns * profile_len,
                n <= MAX_VERTICES,
                quads == ring_quads(columns as nat),
                j < profile_len - 1,
                y == j * columns,
                y1 == (j + 1) * columns,
                i <= steps,
                indexes@ == quad_rows(quads, steps as nat, j as nat) + quad_row(quads, j as nat, i as nat),
                valid_triangles(n, indexes@),
            decreases steps - i,
        {
            proof {
                lemma_lattice_index_bound(columns as nat, profile_len as nat, (j + 1) as nat, (i + 1) as nat);
                lemma_lattice_index_bound(columns as nat, profile_len as nat, j as nat, (i + 1) as nat);
            }
            let ghost prev = indexes@;
            indexes.push((i + y) as u16);
            indexes.push(((i + 1) + y) as u16);
            indexes.push(((i + 1) + y1) as u16);
            indexes.push((i + y) as u16);
            indexes.push((i + y1) as u16);
            indexes.push(((i + 1) + y1) as u16);
            proof {
                let quad = ring_quad(columns as nat, i as nat, j as nat);
                assert(indexes@ =~= prev + quad);
                assert(quad_row(quads, j as nat, (i + 1) as nat)
                    == quad_row(quads, j as nat, i as nat) + quad);
                assert(indexes@ =~= quad_rows(quads, steps as nat, j as nat)
                    + quad_row(quads, j as nat, (i + 1) as nat));
                assert forall|k: int| 0 <= k < indexes@.len() implies (#[trigger] indexes@[k]) < n by {
                    if k < prev.len() {
                        assert(indexes@[k] == prev[k]);
                    }
                }
            }
            i += 1;
        }
        j += 1;
    }
    indexes
}

/// The mesh of a surface of revolution with `steps` angular steps and
/// `profile_len` profile points: one ring of `steps + 1` samples per profile
/// point, in profile order, and the index buffer that joins adjacent rings.
pub fn revolution_mesh(steps: u32, profile_len: usize) -> (mesh: (Vec<Sample>, Vec<u16>))
    requires
        1 <= steps,
        2 <= profile_len,
        (steps + 1) * profile_len <= MAX_VERTICES,
    ensures
        mesh.0@ == lattice_samples((steps + 1) as nat, profile_len as nat),
        is_lattice(mesh.0@, (steps + 1) as nat, profile_len as nat),
        mesh.0@.len() == profile_len * (steps + 1),
        mesh.1@ == revolution_triangles(steps as nat, profile_len as nat),
        valid_triangles(mesh.0@.len(), mesh.1@),
{
    assert(steps + 1 <= MAX_VERTICES && profile_len <= MAX_VERTICES) by (nonlinear_arith)
        requires
            1 <= steps,
            2 <= profile_len,
            (steps + 1) * profile_len <= MAX_VERTICES,
    ;
    let rings = profile_len as u32;
    let samples = lattice(steps + 1, rings);
    assert(samples@.len() == profile_len * (steps + 1)) by (nonlinear_arith)
        requires samples@.len() == (steps + 1) * profile_len;
    (samples, revolution_indices(steps, rings))
}

/// On every ring of a surface of revolution the first and the last sample
/// belong to the same profile point and lie a full turn apart: their
/// angular indices are `0` and `steps`, so they share a position and their
/// `u` texture coordinates differ by `steps * u_step`.
pub proof fn lemma_seam(samples: Seq<Sample>, steps: nat, profile_len: nat)
    requires
        is_lattice(samples, steps + 1, profile_len),
        (steps + 1) * profile_len <= MAX_VERTICES,
    ensures
        forall|j: nat| #![trigger lattice_index(steps + 1, j, 0)]
            j < profile_len ==> {
                let first = samples[lattice_index(steps + 1, j, 0) as int];
                let last = samples[lattice_index(steps + 1, j, steps) as int];
                &&& first.row == j
                &&& last.row == j
                &&& first.col == 0
                &&& last.col == steps
            },
{
    assert forall|j: nat| #![trigger lattice_index(steps + 1, j, 0)] j < profile_len implies {
        let first = samples[lattice_index(steps + 1, j, 0) as int];
        let last = samples[lattice_index(steps + 1, j, steps) as int];
        &&& first.row == j
        &&& last.row == j
        &&& first.col == 0
        &&& last.col == steps
    } by {
        assert(j < profile_len && steps < steps + 1);
        assert(j <= j * (steps + 1) && j * (steps + 1) + steps < (steps + 1) * profile_len
            && (steps + 1) * profile_len <= MAX_VERTICES) by (nonlinear_arith)
            requires
                j < profile_len,
                (steps + 1) * profile_len <= MAX_VERTICES,
        ;
        assert(samples[lattice_index(steps + 1, j, 0) as int] == (Sample { col: 0, row: j as u32 }));
        assert(samples[lattice_index(steps + 1, j, steps) as int] == (Sample { col: steps as u32, row: j as u32 }));
    }
}

} // verus!
