use triangles::cli::{Face, FrontFace, Geometry, PolygonMode};
use triangles::mesh::MAX_VERTICES;
use triangles::shape::{Height, Profile, Quadric, Shape};

fn turned(profile: Profile) -> Shape {
    Shape::Revolution { steps: 8, profile_steps: 8, profile }
}

#[test]
fn defaults() {
    assert_eq!(Geometry::default(), Geometry::Sphere);
    assert_eq!(FrontFace::default(), FrontFace::Ccw);
    assert_eq!(PolygonMode::default(), PolygonMode::Fill);
    assert_ne!(Face::Front, Face::Back);
}

#[test]
fn grids_of_the_catalogue() {
    assert_eq!(Geometry::Grid.make(), Shape::Grid { size: 11, height: Height::Zero });
    assert_eq!(Geometry::Sinc.make(), Shape::Grid { size: 21, height: Height::Sinc });
    assert_eq!(Geometry::Hp.make(), Shape::Grid { size: 21, height: Height::HyperbolicParaboloid });
    assert_eq!(Geometry::Gauss.make(), Shape::Grid { size: 21, height: Height::Gauss });
}

#[test]
fn revolutions_of_the_catalogue() {
    assert_eq!(Geometry::Sphere.make(), turned(Profile::Quadric(Quadric::Sphere)));
    assert_eq!(Geometry::Paraboloid.make(), turned(Profile::Quadric(Quadric::Paraboloid)));
    assert_eq!(Geometry::Hyperboloid1.make(), turned(Profile::Quadric(Quadric::Hyperboloid1)));
    assert_eq!(Geometry::Cone.make(), turned(Profile::Quadric(Quadric::Cone)));
    assert_eq!(Geometry::Cylinder.make(), turned(Profile::Quadric(Quadric::Cylinder)));
    assert_eq!(Geometry::Torus.make(), turned(Profile::TorusRing));
}

#[test]
fn cube_of_the_catalogue() {
    assert_eq!(Geometry::Cube.make(), Shape::Cube);
}

#[test]
fn every_catalogued_shape_fits_sixteen_bit_indices() {
    let all = [
        Geometry::Cube,
        Geometry::Grid,
        Geometry::Sinc,
        Geometry::Hp,
        Geometry::Gauss,
        Geometry::Sphere,
        Geometry::Paraboloid,
        Geometry::Hyperboloid1,
        Geometry::Cone,
        Geometry::Cylinder,
        Geometry::Torus,
    ];
    for g in all {
        match g.make() {
            Shape::Cube => {}
            Shape::Grid { size, .. } => assert!(size >= 2 && size * size <= MAX_VERTICES),
            Shape::Revolution { steps, profile_steps, .. } => {
                assert!(steps >= 1 && (steps + 1) * (profile_steps + 1) <= MAX_VERTICES)
            }
        }
        assert_eq!(g.make(), g.make());
    }
}
