//! The choices a user makes: which surface to draw and how to rasterise it.
use vstd::prelude::*;
use crate::mesh::MAX_VERTICES;
use crate::shape::{Height, Profile, Quadric, Shape, shape_fits};

verus! {

/// The face that counts as the front for culling.
#[derive(Clone, Copy, Debug, PartialEq, Eq, Structural)]
pub enum FrontFace {
    /// Counter-clockwise triangles face front.
    Ccw,
    /// Clockwise triangles face front.
    Cw,
}

impl Default for FrontFace {
    fn default() -> (r: Self)
        ensures
            r == FrontFace::Ccw,
    {
        FrontFace::Ccw
    }
}

/// The face that culling removes.
#[derive(Clone, Copy, Debug, PartialEq, Eq, Structural)]
pub enum Face {
    Front,
    Back,
}

/// How each polygon is rasterised.
#[derive(Clone, Copy, Debug, PartialEq, Eq, Structural)]
pub enum PolygonMode {
    /// Filled.
    Fill,
    /// Edges only.
    Line,
    /// Vertices only.
    Point,
}

impl Default for PolygonMode {
    fn default() -> (r: Self)
        ensures
            r == PolygonMode::Fill,
    {
        PolygonMode::Fill
    }
}

/// The catalogue of surfaces.
#[derive(Clone, Copy, Debug, PartialEq, Eq, Structural)]
pub enum Geometry {
    Cube,
    Grid,
    Sinc,
    Hp,
    Gauss,
    Sphere,
    Paraboloid,
    Hyperboloid1,
    Cone,
    Cylinder,
    Torus,
}

impl Default for Geometry {
    fn default() -> (r: Self)
        ensures
            r == Geometry::Sphere,
    {
        Geometry::Sphere
    }
}

/// The surfaces of revolution turn their profile in eight steps, sampled
/// in eight steps.
pub open spec fn turned(profile: Profile) -> Shape {
    Shape::Revolution { steps: 8, profile_steps: 8, profile }
}

/// The generator and parameters of each catalogued surface.
pub open spec fn geometry_shape(g: Geometry) -> Shape {
    match g {
        Geometry::Cube => Shape::Cube,
        Geometry::Grid => Shape::Grid { size: 11, height: Height::Zero },
        Geometry::Sinc => Shape::Grid { size: 21, height: Height::Sinc },
        Geometry::Hp => Shape::Grid { size: 21, height: Height::HyperbolicParaboloid },
        Geometry::Gauss => Shape::Grid { size: 21, height: Height::Gauss },
        Geometry::Sphere => turned(Profile::Quadric(Quadric::Sphere)),
        Geometry::Paraboloid => turned(Profile::Quadric(Quadric::Paraboloid)),
        Geometry::Hyperboloid1 => turned(Profile::Quadric(Quadric::Hyperboloid1)),
        Geometry::Cone => turned(Profile::Quadric(Quadric::Cone)),
        Geometry::Cylinder => turned(Profile::Quadric(Quadric::Cylinder)),
        Geometry::Torus => turned(Profile::TorusRing),
    }
}

impl Geometry {
    /// The generator that draws this surface, with its fixed parameters.
    pub fn make(&self) -> (shape: Shape)
        ensures
            shape == geometry_shape(*self),
            shape_fits(shape),
    {
        let revolution = |profile: Profile| -> (s: Shape)
            ensures
                s == turned(profile),
            { Shape::Revolution { steps: 8, profile_steps: 8, profile } };
        assert forall|profile: Profile| shape_fits(#[trigger] turned(profile)) by {}
        assert(21 * 21 <= MAX_VERTICES);
        match self {
            Geometry::Cube => Shape::Cube,
            Geometry::Grid => Shape::Grid { size: 11, height: Height::Zero },
            Geometry::Sinc => Shape::Grid { size: 21, height: Height::Sinc },
            Geometry::Hp => Shape::Grid { size: 21, height: Height::HyperbolicParaboloid },
            Geometry::Gauss => Shape::Grid { size: 21, height: Height::Gauss },
            Geometry::Sphere => revolution(Profile::Quadric(Quadric::Sphere)),
            Geometry::Paraboloid => revolution(Profile::Quadric(Quadric::Paraboloid)),
            Geometry::Hyperboloid1 => revolution(Profile::Quadric(Quadric::Hyperboloid1)),
            Geometry::Cone => revolution(Profile::Quadric(Quadric::Cone)),
            Geometry::Cylinder => revolution(Profile::Quadric(Quadric::Cylinder)),
            Geometry::Torus => revolution(Profile::TorusRing),
        }
    }
}

} // verus!
