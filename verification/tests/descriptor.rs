use ccd_bridge::descriptor::{
    build, ccd_new, ccd_t, Descriptor, FirstDirection, QueryConfig, Tolerance,
    DEFAULT_MAX_ITERATIONS, UNBOUNDED_ITERATIONS,
};

const ONE_IN_TEN_THOUSAND: Tolerance = Tolerance { mantissa: 1, exponent: 4 };
const ONE_IN_A_MILLION: Tolerance = Tolerance { mantissa: 1, exponent: 6 };

fn as_real(t: Tolerance) -> f64 {
    t.mantissa as f64 / 10f64.powi(t.exponent as i32)
}

#[test]
fn a_new_record_holds_the_defaults() {
    let ccd: ccd_t<u8, u16, u32> = ccd_new();
    assert_eq!(ccd.first_dir, FirstDirection::LibraryDefault);
    assert_eq!(ccd.support1, None);
    assert_eq!(ccd.support2, None);
    assert_eq!(ccd.center1, None);
    assert_eq!(ccd.center2, None);
    assert_eq!(ccd.max_iterations, 100);
    assert_eq!(ccd.epa_tolerance, ONE_IN_TEN_THOUSAND);
    assert_eq!(ccd.mpr_tolerance, ONE_IN_TEN_THOUSAND);
    assert_eq!(ccd.dist_tolerance, ONE_IN_A_MILLION);
}

#[test]
fn default_tolerances_as_reals() {
    let ccd: ccd_t<u8, u16, u32> = ccd_new();
    assert_eq!(as_real(ccd.epa_tolerance), 1e-4);
    assert_eq!(as_real(ccd.mpr_tolerance), 1e-4);
    assert_eq!(as_real(ccd.dist_tolerance), 1e-6);
    assert_eq!(as_real(ccd.epa_tolerance) as f32, 0.0001 as f32);
    assert_eq!(as_real(ccd.dist_tolerance) as f32, 1e-6 as f32);
}

#[test]
fn the_default_bound_is_not_the_unbounded_count() {
    assert_eq!(DEFAULT_MAX_ITERATIONS, 100);
    assert_eq!(UNBOUNDED_ITERATIONS, libc::c_ulong::MAX);
    assert_ne!(DEFAULT_MAX_ITERATIONS, UNBOUNDED_ITERATIONS);
}

#[test]
fn default_limits() {
    let config = QueryConfig::default();
    assert_eq!(config.max_iterations(), 100);
    assert_eq!(config.epa_tolerance(), ONE_IN_TEN_THOUSAND);
    assert_eq!(config.mpr_tolerance(), ONE_IN_TEN_THOUSAND);
    assert_eq!(config.dist_tolerance(), ONE_IN_A_MILLION);
}

#[test]
fn limits_of_the_caller() {
    let epa = Tolerance { mantissa: 5, exponent: 3 };
    let mpr = Tolerance { mantissa: 25, exponent: 7 };
    let dist = Tolerance { mantissa: 0, exponent: 0 };
    let config = QueryConfig::new(7, epa, mpr, dist).expect("seven is a bound");
    assert_eq!(config.max_iterations(), 7);
    assert_eq!(config.epa_tolerance(), epa);
    assert_eq!(config.mpr_tolerance(), mpr);
    assert_eq!(config.dist_tolerance(), dist);
    let none = QueryConfig::new(0, epa, mpr, dist).expect("zero is a bound");
    assert_eq!(none.max_iterations(), 0);
    let most = QueryConfig::new(UNBOUNDED_ITERATIONS - 1, epa, mpr, dist).expect("a bound");
    assert_eq!(most.max_iterations(), UNBOUNDED_ITERATIONS - 1);
}

#[test]
fn the_unbounded_count_is_refused() {
    let config = QueryConfig::new(
        UNBOUNDED_ITERATIONS,
        ONE_IN_TEN_THOUSAND,
        ONE_IN_TEN_THOUSAND,
        ONE_IN_A_MILLION,
    );
    assert!(config.is_none());
}

#[test]
fn build_with_defaults() {
    let d: Descriptor<usize, u8, &str, u32> =
        build(None, "trampoline a", "trampoline b", 0x1000, 0x2000, QueryConfig::default());
    assert_eq!(d.context_a, 0x1000);
    assert_eq!(d.context_b, 0x2000);
    assert_eq!(d.ccd.first_dir, FirstDirection::LibraryDefault);
    assert_eq!(d.ccd.support1, Some("trampoline a"));
    assert_eq!(d.ccd.support2, Some("trampoline b"));
    assert_eq!(d.ccd.center1, None);
    assert_eq!(d.ccd.center2, None);
    assert_eq!(d.ccd.max_iterations, 100);
    assert_eq!(d.ccd.epa_tolerance, ONE_IN_TEN_THOUSAND);
    assert_eq!(d.ccd.mpr_tolerance, ONE_IN_TEN_THOUSAND);
    assert_eq!(d.ccd.dist_tolerance, ONE_IN_A_MILLION);
}

#[test]
fn build_with_an_override_and_limits() {
    let epa = Tolerance { mantissa: 2, exponent: 5 };
    let mpr = Tolerance { mantissa: 3, exponent: 5 };
    let dist = Tolerance { mantissa: 4, exponent: 9 };
    let config = QueryConfig::new(12, epa, mpr, dist).expect("twelve is a bound");
    let d: Descriptor<u64, char, i8, ()> = build(Some('d'), -1, -2, 11, 22, config);
    assert_eq!(d.ccd.first_dir, FirstDirection::Override('d'));
    assert_eq!(d.ccd.support1, Some(-1));
    assert_eq!(d.ccd.support2, Some(-2));
    assert_eq!(d.context_a, 11);
    assert_eq!(d.context_b, 22);
    assert_eq!(d.ccd.center1, None);
    assert_eq!(d.ccd.center2, None);
    assert_eq!(d.ccd.max_iterations, 12);
    assert_eq!(d.ccd.epa_tolerance, epa);
    assert_eq!(d.ccd.mpr_tolerance, mpr);
    assert_eq!(d.ccd.dist_tolerance, dist);
}

#[test]
fn swapping_the_shapes_swaps_the_slots() {
    let ab: Descriptor<u8, (), u16, ()> = build(None, 100, 200, 1, 2, QueryConfig::default());
    let ba: Descriptor<u8, (), u16, ()> = build(None, 200, 100, 2, 1, QueryConfig::default());
    assert_eq!(ab.ccd.support1, ba.ccd.support2);
    assert_eq!(ab.ccd.support2, ba.ccd.support1);
    assert_eq!(ab.context_a, ba.context_b);
    assert_eq!(ab.context_b, ba.context_a);
    assert_eq!(ab.ccd.max_iterations, ba.ccd.max_iterations);
}

#[test]
fn every_built_record_has_a_bound() {
    for n in [0, 1, 100, 1_000_000, UNBOUNDED_ITERATIONS - 1] {
        let config = QueryConfig::new(n, ONE_IN_TEN_THOUSAND, ONE_IN_TEN_THOUSAND, ONE_IN_A_MILLION)
            .expect("a bound");
        let d: Descriptor<(), (), (), ()> = build(None, (), (), (), (), config);
        assert_eq!(d.ccd.max_iterations, n);
        assert_ne!(d.ccd.max_iterations, UNBOUNDED_ITERATIONS);
    }
}
