//! The generator and the fixed parameters behind each catalogued surface.
use vstd::prelude::*;
use crate::mesh::MAX_VERTICES;

verus! {

/// A height function `z = f(x, y)` sampled by a grid.
#[derive(Clone, Copy, Debug, PartialEq, Eq, Structural)]
pub enum Height {
    /// The flat plane `z = 0`.
    Zero,
    /// The normalised sinc of the distance from the origin, `1` at the origin.
    Sinc,
    /// The Gaussian bump of standard deviation `0.3` about the origin.
    Gauss,
    /// The hyperbolic paraboloid `x² - y²`.
    HyperbolicParaboloid,
}

/// A member of the quadric family `x² = -(a·y² + 2b·y + c)`, named by the
/// surface that turning its profile gives.
#[derive(Clone, Copy, Debug, PartialEq, Eq, Structural)]
pub enum Quadric {
    /// `(a, b, c) = (1, 0, -1)`.
    Sphere,
    /// `(a, b, c) = (0, -1/2, 0)`.
    Paraboloid,
    /// `(a, b, c) = (-1, 0, -1)`: the hyperboloid of one sheet.
    Hyperboloid1,
    /// `(a, b, c) = (-1, 0, 0)`.
    Cone,
    /// `(a, b, c) = (0, 0, -1)`.
    Cylinder,
}

/// The profile curve that a surface of revolution turns.
#[derive(Clone, Copy, Debug, PartialEq, Eq, Structural)]
pub enum Profile {
    /// The branch of a quadric's hyperbola over heights `-1 ..= 1`, where
    /// its radius is real.
    Quadric(Quadric),
    /// A full circle of radius `0.1` whose centre lies at radius `0.5`.
    TorusRing,
}

/// A generator and its fixed parameters.
#[derive(Clone, Copy, Debug, PartialEq, Eq, Structural)]
pub enum Shape {
    /// The cube.
    Cube,
    /// A grid of `size` × `size` samples over `[-1, 1]²`, one texture unit
    /// per sample step.
    Grid { size: u32, height: Height },
    /// A surface of revolution with `steps` angular steps, turning a
    /// profile sampled in `profile_steps` steps (`profile_steps + 1` points
    /// at most), one texture unit per step.
    Revolution { steps: u32, profile_steps: u32, profile: Profile },
}

/// The shape's generator can take its parameters: a grid has two samples a
/// side at least, a surface of revolution one angular step at least, and
/// neither has more vertices than 16-bit indices can name.
pub open spec fn shape_fits(s: Shape) -> bool {
    match s {
        Shape::Cube => true,
        Shape::Grid { size, .. } => 2 <= size && size * size <= MAX_VERTICES,
        Shape::Revolution { steps, profile_steps, .. } => {
            &&& 1 <= steps
            &&& 1 <= profile_steps
            &&& (steps + 1) * (profile_steps + 1) <= MAX_VERTICES
        },
    }
}

} // verus!
