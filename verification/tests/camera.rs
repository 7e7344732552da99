use raytracer::camera::{CameraBuilder, CameraSettings};
use raytracer::scalar::Scalar;
use raytracer::util::Vec3;

fn s(x: f64) -> Scalar {
    Scalar::from_bits(x.to_bits())
}

fn v(x: f64, y: f64, z: f64) -> Vec3 {
    Vec3::new(s(x), s(y), s(z))
}

fn complete() -> CameraBuilder {
    let mut builder = CameraBuilder::new();
    builder
        .lookfrom(v(13.0, 2.0, 3.0))
        .lookat(v(0.0, 0.0, 0.0))
        .vup(v(0.0, 1.0, 0.0))
        .vfov(s(20.0))
        .aspect_ratio(s(16.0 / 9.0))
        .aperture(s(0.1))
        .focus_dist(s(10.0));
    builder
}

#[test]
fn new_builder_has_nothing_set() {
    let builder = CameraBuilder::new();
    assert_eq!(builder.lookfrom, None);
    assert_eq!(builder.lookat, None);
    assert_eq!(builder.vup, None);
    assert_eq!(builder.vfov, None);
    assert_eq!(builder.aspect_ratio, None);
    assert_eq!(builder.aperture, None);
    assert_eq!(builder.focus_dist, None);
    assert_eq!(builder.build(), None);
}

#[test]
fn complete_builder_builds_what_was_set() {
    assert_eq!(
        complete().build(),
        Some(CameraSettings {
            lookfrom: v(13.0, 2.0, 3.0),
            lookat: v(0.0, 0.0, 0.0),
            vup: v(0.0, 1.0, 0.0),
            vfov: s(20.0),
            aspect_ratio: s(16.0 / 9.0),
            aperture: s(0.1),
            focus_dist: s(10.0),
        })
    );
}

#[test]
fn builder_with_one_field_unset_builds_nothing() {
    assert_eq!(CameraBuilder { lookfrom: None, ..complete() }.build(), None);
    assert_eq!(CameraBuilder { lookat: None, ..complete() }.build(), None);
    assert_eq!(CameraBuilder { vup: None, ..complete() }.build(), None);
    assert_eq!(CameraBuilder { vfov: None, ..complete() }.build(), None);
    assert_eq!(CameraBuilder { aspect_ratio: None, ..complete() }.build(), None);
    assert_eq!(CameraBuilder { aperture: None, ..complete() }.build(), None);
    assert_eq!(CameraBuilder { focus_dist: None, ..complete() }.build(), None);
}

#[test]
fn setter_replaces_its_own_field_only() {
    let mut builder = complete();
    builder.vfov(s(90.0));
    assert_eq!(builder, CameraBuilder { vfov: Some(s(90.0)), ..complete() });
    builder.lookat(v(0.0, 0.0, -1.0)).aperture(s(0.0));
    assert_eq!(
        builder,
        CameraBuilder {
            vfov: Some(s(90.0)),
            lookat: Some(v(0.0, 0.0, -1.0)),
            aperture: Some(s(0.0)),
            ..complete()
        }
    );
}
