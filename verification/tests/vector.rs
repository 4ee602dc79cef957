use ccd_bridge::vector::{ccd_vec3_t, from_foreign, to_foreign, Vector3};
use glam::Vec3;

#[test]
fn components_keep_their_order() {
    let raw: ccd_vec3_t<f32> = to_foreign(Vector3 { x: 1.0f32, y: 2.0, z: 3.0 });
    assert_eq!(raw.v, [1.0, 2.0, 3.0]);
    let back: Vector3<f32> = from_foreign(ccd_vec3_t { v: [4.0f32, 5.0, 6.0] });
    assert_eq!(back, Vector3 { x: 4.0, y: 5.0, z: 6.0 });
}

#[test]
fn vector3_round_trip_is_exact_in_single_precision() {
    let values = [
        Vector3 { x: 0.1f32, y: -0.2, z: 0.3 },
        Vector3 { x: f32::MIN_POSITIVE, y: f32::MAX, z: f32::EPSILON },
        Vector3 { x: -0.0f32, y: 1.0e-30, z: 16777217.0 },
        Vector3 { x: f32::INFINITY, y: f32::NEG_INFINITY, z: 0.0 },
        Vector3 { x: f32::NAN, y: -f32::NAN, z: f32::from_bits(0x7fa0_0001) },
    ];
    for p in values {
        let raw: ccd_vec3_t<f32> = to_foreign(p);
        let back: Vector3<f32> = from_foreign(raw);
        assert_eq!(back.x.to_bits(), p.x.to_bits());
        assert_eq!(back.y.to_bits(), p.y.to_bits());
        assert_eq!(back.z.to_bits(), p.z.to_bits());
    }
}

#[test]
fn vector3_round_trip_is_exact_in_double_precision() {
    let p = Vector3 { x: 0.1f64, y: -1.0e-300, z: 9007199254740993.0 };
    let raw: ccd_vec3_t<f64> = to_foreign(p);
    assert_eq!(raw.v, [0.1f64, -1.0e-300, 9007199254740993.0]);
    let back: Vector3<f64> = from_foreign(raw);
    assert_eq!(back, p);
}

#[test]
fn foreign_round_trip_is_exact() {
    let raw = ccd_vec3_t { v: [7.5f32, -8.25, 9.125] };
    let p: Vector3<f32> = from_foreign(raw);
    let again: ccd_vec3_t<f32> = to_foreign(p);
    assert_eq!(again, raw);
}

#[test]
fn std_conversions_agree_with_the_adapter() {
    let p = Vector3::from([1.5f64, 2.5, 3.5]);
    assert_eq!(p, Vector3 { x: 1.5, y: 2.5, z: 3.5 });
    let v: [f64; 3] = p.into();
    assert_eq!(v, [1.5, 2.5, 3.5]);
}

#[test]
fn a_vector_type_of_the_caller_goes_through() {
    let p = Vec3::new(1.0, -2.0, 0.5);
    let raw: ccd_vec3_t<f32> = to_foreign(p);
    assert_eq!(raw.v, [1.0, -2.0, 0.5]);
    let back: Vec3 = from_foreign(raw);
    assert_eq!(back, p);
}

#[test]
fn copies_of_a_foreign_vector_are_equal() {
    let raw = ccd_vec3_t { v: [1u8, 2, 3] };
    let copy = raw;
    assert_eq!(raw.clone(), copy);
    let p = Vector3 { x: 1i64, y: 2, z: 3 };
    let q = p;
    assert_eq!(p.clone(), q);
}
