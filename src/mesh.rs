//! Vertex records and index-buffer plumbing shared by the generators.
use vstd::prelude::*;
use vstd::arithmetic::div_mod::lemma_fundamental_div_mod_converse;

verus! {

/// Number of vertices that a 16-bit index buffer can address.
pub const MAX_VERTICES: u32 = 65536;

/// A triangle list over `n` vertices: whole triangles, each index naming one
/// of the `n` vertices.
pub open spec fn valid_triangles(n: nat, indices: Seq<u16>) -> bool {
    &&& indices.len() % 3 == 0
    &&& forall|k: int| 0 <= k < indices.len() ==> (#[trigger] indices[k]) < n
}

/// A vertex of a parametric mesh, named by its place on the sampling lattice.
///
/// `col` counts samples along the first parameter (x on a grid, the angle on
/// a surface of revolution) and `row` along the second (y on a grid, the
/// profile point on a surface of revolution). The vertex's texture
/// coordinate is `(col * u_step, 1 - row * v_step)`.
#[derive(Clone, Copy, Debug, PartialEq, Eq, Structural)]
pub struct Sample {
    pub col: u32,
    pub row: u32,
}

/// Where the sample in column `col` of row `row` stands in a row-major
/// lattice with `columns` samples per row.
pub open spec fn lattice_index(columns: nat, row: nat, col: nat) -> nat {
    row * columns + col
}

/// `samples` is the row-major lattice of `rows` rows of `columns` samples.
pub open spec fn is_lattice(samples: Seq<Sample>, columns: nat, rows: nat) -> bool {
    &&& samples.len() == columns * rows
    &&& forall|row: nat, col: nat|
        row < rows && col < columns ==> #[trigger] samples[lattice_index(columns, row, col) as int]
            == (Sample { col: col as u32, row: row as u32 })
}

/// The triangles of the first `n` quads of row `iy` of a block of quads,
/// where `quad(ix, iy)` gives the triangles of the quad in column `ix`.
pub open spec fn quad_row(quad: spec_fn(nat, nat) -> Seq<u16>, iy: nat, n: nat) -> Seq<u16>
    decreases n,
{
    if n == 0 {
        seq![]
    } else {
        quad_row(quad, iy, (n - 1) as nat) + quad((n - 1) as nat, iy)
    }
}

/// The triangles of the first `height` rows of a block of quads that is
/// `width` quads wide, row after row.
pub open spec fn quad_rows(quad: spec_fn(nat, nat) -> Seq<u16>, width: nat, height: nat) -> Seq<u16>
    decreases height,
{
    if height == 0 {
        seq![]
    } else {
        quad_rows(quad, width, (height - 1) as nat) + quad_row(quad, (height - 1) as nat, width)
    }
}

/// The sample at position `k` of a row-major lattice with `columns`
/// samples per row.
pub open spec fn lattice_sample(columns: nat, k: int) -> Sample {
    Sample { col: (k % columns as int) as u32, row: (k / columns as int) as u32 }
}

/// The row-major lattice of `rows` rows of `columns` samples.
pub open spec fn lattice_samples(columns: nat, rows: nat) -> Seq<Sample> {
    Seq::new(columns * rows, |k: int| lattice_sample(columns, k))
}

/// The row-major lattice holds the sample in column `col` of row `row` at
/// position `row * columns + col`.
pub proof fn lemma_lattice_samples(columns: nat, rows: nat)
    ensures
        is_lattice(lattice_samples(columns, rows), columns, rows),
{
    let samples = lattice_samples(columns, rows);
    assert forall|row: nat, col: nat|
        row < rows && col < columns implies #[trigger] samples[lattice_index(columns, row, col) as int]
            == (Sample { col: col as u32, row: row as u32 }) by {
        lemma_lattice_index_bound(columns, rows, row, col);
        lemma_fundamental_div_mod_converse(
            lattice_index(columns, row, col) as int,
            columns as int,
            row as int,
            col as int,
        );
    }
}

/// The row-major lattice of `rows` rows of `columns` samples.
pub fn lattice(columns: u32, rows: u32) -> (samples: Vec<Sample>)
    requires
        columns * rows <= MAX_VERTICES,
    ensures
        samples@ == lattice_samples(columns as nat, rows as nat),
        is_lattice(samples@, columns as nat, rows as nat),
{
    let mut samples: Vec<Sample> = Vec::new();
    let mut row: u32 = 0;
    while row < rows
        invariant
            columns * rows <= MAX_VERTICES,
            row <= rows,
            samples@.len() == row * columns,
            forall|k: int| 0 <= k < samples@.len() ==> #[trigger] samples@[k] == lattice_sample(columns as nat, k),
        decreases rows - row,
    {
        let mut col: u32 = 0;
        while col < columns
            invariant
                columns * rows <= MAX_VERTICES,
                row < rows,
                col <= columns,
                samples@.len() == lattice_index(columns as nat, row as nat, col as nat),
                forall|k: int| 0 <= k < samples@.len() ==> #[trigger] samples@[k] == lattice_sample(columns as nat, k),
            decreases columns - col,
        {
            proof {
                lemma_lattice_index_bound(columns as nat, rows as nat, row as nat, col as nat);
                lemma_fundamental_div_mod_converse(samples@.len() as int, columns as int, row as int, col as int);
            }
            samples.push(Sample { col, row });
            col += 1;
        }
        row += 1;
        assert(samples@.len() == row * columns) by (nonlinear_arith)
            requires samples@.len() == (row - 1) * columns + columns;
    }
    assert(samples@.len() == columns * rows) by (nonlinear_arith)
        requires samples@.len() == rows * columns;
    assert(samples@ =~= lattice_samples(columns as nat, rows as nat));
    proof {
        lemma_lattice_samples(columns as nat, rows as nat);
    }
    samples
}

/// A sample inside a lattice of `rows` rows stands before the end of it.
pub proof fn lemma_lattice_index_bound(columns: nat, rows: nat, row: nat, col: nat)
    requires
        row < rows,
        col < columns,
    ensures
        lattice_index(columns, row, col) < columns * rows,
        row * columns + columns <= columns * rows,
{
    assert(row * columns + col < columns * rows) by (nonlinear_arith)
        requires row < rows, col < columns;
    assert(row * columns + columns <= columns * rows) by (nonlinear_arith)
        requires row < rows;
}

/// Pushes the two triangles of the quad whose corners are `x + y`, `x1 + y`,
/// `x + y1` and `x1 + y1`.
pub fn quad_index(indexes: &mut Vec<u16>, x: u16, y: u16, x1: u16, y1: u16)
    requires
        x + y <= u16::MAX,
        x1 + y <= u16::MAX,
        x + y1 <= u16::MAX,
        x1 + y1 <= u16::MAX,
    ensures
        final(indexes)@ == old(indexes)@ + seq![
            (x + y) as u16,
            (x1 + y) as u16,
            (x + y1) as u16,
            (x + y1) as u16,
            (x1 + y) as u16,
            (x1 + y1) as u16,
        ],
{
    indexes.push(x + y);
    indexes.push(x1 + y);
    indexes.push(x + y1);
    indexes.push(x + y1);
    indexes.push(x1 + y);
    indexes.push(x1 + y1);
    assert(indexes@ =~= old(indexes)@ + seq![
        (x + y) as u16,
        (x1 + y) as u16,
        (x + y1) as u16,
        (x + y1) as u16,
        (x1 + y) as u16,
        (x1 + y1) as u16,
    ]);
}

} // verus!
