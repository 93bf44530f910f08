//! Height-field grids: a regular lattice of samples over a rectangle, joined
//! into two triangles per lattice cell.
use vstd::prelude::*;
use crate::mesh::{
    is_lattice, lattice, lattice_index, lattice_samples, quad_row, quad_rows, valid_triangles, Sample,
    MAX_VERTICES, lemma_lattice_index_bound,
};

verus! {

/// The two triangles of grid cell `(ix, iy)` in a grid with `columns`
/// samples per row: `(ix,iy)-(ix+1,iy+1)-(ix,iy+1)` and
/// `(ix,iy)-(ix+1,iy)-(ix+1,iy+1)`, both counter-clockwise seen from above.
pub open spec fn grid_quad(columns: nat, ix: nat, iy: nat) -> Seq<u16> {
    let a = lattice_index(columns, iy, ix);
    let b = lattice_index(columns, iy, ix + 1);
    let c = lattice_index(columns, iy + 1, ix + 1);
    let d = lattice_index(columns, iy + 1, ix);
    seq![a as u16, c as u16, d as u16, a as u16, b as u16, c as u16]
}

/// The cells of a grid with `columns` samples per row, as a quad block.
pub open spec fn grid_quads(columns: nat) -> spec_fn(nat, nat) -> Seq<u16> {
    |ix: nat, iy: nat| grid_quad(columns, ix, iy)
}

/// The index buffer of a grid of `rows` rows of `columns` samples: its cells
/// in row-major order, two triangles each.
pub open spec fn grid_triangles(columns: nat, rows: nat) -> Seq<u16> {
    quad_rows(grid_quads(columns), (columns - 1) as nat, (rows - 1) as nat)
}

/// The index buffer of a grid of `rows` rows of `columns` samples.
pub fn grid_indices(columns: u32, rows: u32) -> (indexes: Vec<u16>)
    requires
        2 <= columns,
        2 <= rows,
        columns * rows <= MAX_VERTICES,
    ensures
        indexes@ == grid_triangles(columns as nat, rows as nat),
        valid_triangles((columns * rows) as nat, indexes@),
{
    let ghost quads = grid_quads(columns as nat);
    let ghost width = (columns - 1) as nat;
    let mut indexes: Vec<u16> = Vec::new();
    let mut iy: u32 = 0;
    while iy < rows - 1
        invariant
            2 <= columns,
            2 <= rows,
            columns * rows <= MAX_VERTICES,
            quads == grid_quads(columns as nat),
            width == columns - 1,
            iy <= rows - 1,
            indexes@ == quad_rows(quads, width, iy as nat),
            valid_triangles((columns * rows) as nat, indexes@),
        decreases rows - 1 - iy,
    {
        proof {
            lemma_lattice_index_bound(columns as nat, rows as nat, iy as nat, 0);
            lemma_lattice_index_bound(columns as nat, rows as nat, (iy + 1) as nat, 0);
        }
        let y = iy * columns;
        let y1 = (iy + 1) * columns;
        let mut ix: u32 = 0;
        while ix < columns - 1
            invariant
                2 <= columns,
                2 <= rows,
                columns * rows <= MAX_VERTICES,
                quads == grid_quads(columns as nat),
                width == columns - 1,
                iy < rows - 1,
                y == iy * columns,
                y1 == (iy + 1) * columns,
                ix <= columns - 1,
                indexes@ == quad_rows(quads, width, iy as nat) + quad_row(quads, iy as nat, ix as nat),
                valid_triangles((columns * rows) as nat, indexes@),
            decreases columns - 1 - ix,
        {
            proof {
                lemma_lattice_index_bound(columns as nat, rows as nat, (iy + 1) as nat, (ix + 1) as nat);
                lemma_lattice_index_bound(columns as nat, rows as nat, iy as nat, (ix + 1) as nat);
            }
            let ghost prev = indexes@;
            indexes.push((ix + y) as u16);
            indexes.push(((ix + 1) + y1) as u16);
            indexes.push((ix + y1) as u16);
            indexes.push((ix + y) as u16);
            indexes.push(((ix + 1) + y) as u16);
            indexes.push(((ix + 1) + y1) as u16);
            proof {
                let quad = grid_quad(columns as nat, ix as nat, iy as nat);
                assert(indexes@ =~= prev + quad);
                assert(quad_row(quads, iy as nat, (ix + 1) as nat)
                    == quad_row(quads, iy as nat, ix as nat) + quad);
                assert(indexes@ =~= quad_rows(quads, width, iy as nat)
                    + quad_row(quads, iy as nat, (ix + 1) as nat));
                assert forall|k: int| 0 <= k < indexes@.len() implies (#[trigger] indexes@[k]) < columns * rows by {
                    if k < prev.len() {
                        assert(indexes@[k] == prev[k]);
                    }
                }
            }
            ix += 1;
        }
        iy += 1;
    }
    indexes
}

/// The mesh of a grid of `rows` rows of `columns` samples: the lattice of
/// samples in row-major order and the index buffer that joins them.
pub fn grid_mesh(columns: u32, rows: u32) -> (mesh: (Vec<Sample>, Vec<u16>))
    requires
        2 <= columns,
        2 <= rows,
        columns * rows <= MAX_VERTICES,
    ensures
        mesh.0@ == lattice_samples(columns as nat, rows as nat),
        is_lattice(mesh.0@, columns as nat, rows as nat),
        mesh.0@.len() == columns * rows,
        mesh.1@ == grid_triangles(columns as nat, rows as nat),
        valid_triangles(mesh.0@.len(), mesh.1@),
{
    (lattice(columns, rows), grid_indices(columns, rows))
}

} // verus!
