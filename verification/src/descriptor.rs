//! The configuration record that one foreign call consumes.
//!
//! The record holds function pointers and the iteration and tolerance limits
//! of the foreign algorithm. Function pointers and context addresses are
//! carried as values of type parameters: the bridge decides which value goes
//! into which slot and never looks inside one.

use libc::c_ulong;
use vstd::prelude::*;

verus! {

/// The iteration count with which the foreign routine loops without bound.
/// No record built here carries it.
pub const UNBOUNDED_ITERATIONS: c_ulong = c_ulong::MAX;

/// Iteration bound of a query that does not choose its own.
pub const DEFAULT_MAX_ITERATIONS: c_ulong = 100;

/// A tolerance written as a decimal: `mantissa * 10^-exponent`.
#[derive(Clone, Copy, Debug, PartialEq, Eq, Structural)]
pub struct Tolerance {
    pub mantissa: u32,
    pub exponent: u8,
}

/// Default tolerance of the expanding-polytope refinement, 1e-4.
pub open spec fn default_epa_tolerance() -> Tolerance {
    Tolerance { mantissa: 1, exponent: 4 }
}

/// Default tolerance of the portal refinement, 1e-4.
pub open spec fn default_mpr_tolerance() -> Tolerance {
    Tolerance { mantissa: 1, exponent: 4 }
}

/// Default distance tolerance, 1e-6.
pub open spec fn default_dist_tolerance() -> Tolerance {
    Tolerance { mantissa: 1, exponent: 6 }
}

/// Where the foreign routine takes its first search direction from.
#[derive(Debug, PartialEq)]
pub enum FirstDirection<D> {
    /// The heuristic that the foreign library ships.
    LibraryDefault,
    /// A function of the caller's.
    Override(D),
}

/// The record read by the foreign routine, field for field and in its order.
/// `D`, `F` and `C` are the types of first-direction, support and center
/// function pointers.
#[allow(non_camel_case_types)]
#[derive(Debug, PartialEq)]
pub struct ccd_t<D, F, C> {
    pub first_dir: FirstDirection<D>,
    pub support1: Option<F>,
    pub support2: Option<F>,
    pub center1: Option<C>,
    pub center2: Option<C>,
    pub max_iterations: c_ulong,
    pub epa_tolerance: Tolerance,
    pub mpr_tolerance: Tolerance,
    pub dist_tolerance: Tolerance,
}

impl<D, F, C> ccd_t<D, F, C> {
    /// A record that may be handed to the foreign routine: both shapes have
    /// a support function, and the iteration count is a real bound.
    pub open spec fn ready(self) -> bool {
        &&& self.support1 is Some
        &&& self.support2 is Some
        &&& self.max_iterations != UNBOUNDED_ITERATIONS
    }
}

/// A record with every limit at its default and no function of the caller's
/// in it: the library's first-direction heuristic, no support and no center
/// functions, 100 iterations, and tolerances 1e-4, 1e-4 and 1e-6.
pub fn ccd_new<D, F, C>() -> (ccd: ccd_t<D, F, C>)
    ensures
        ccd.first_dir is LibraryDefault,
        ccd.support1 is None,
        ccd.support2 is None,
        ccd.center1 is None,
        ccd.center2 is None,
        ccd.max_iterations == DEFAULT_MAX_ITERATIONS,
        ccd.epa_tolerance == default_epa_tolerance(),
        ccd.mpr_tolerance == default_mpr_tolerance(),
        ccd.dist_tolerance == default_dist_tolerance(),
{
    ccd_t {
        first_dir: FirstDirection::LibraryDefault,
        support1: None,
        support2: None,
        center1: None,
        center2: None,
        max_iterations: DEFAULT_MAX_ITERATIONS,
        epa_tolerance: Tolerance { mantissa: 1, exponent: 4 },
        mpr_tolerance: Tolerance { mantissa: 1, exponent: 4 },
        dist_tolerance: Tolerance { mantissa: 1, exponent: 6 },
    }
}

/// The limits of one query. A value of this type never holds the unbounded
/// iteration count.
#[derive(Clone, Copy, Debug)]
pub struct QueryConfig {
    max_iterations: c_ulong,
    epa_tolerance: Tolerance,
    mpr_tolerance: Tolerance,
    dist_tolerance: Tolerance,
}

impl QueryConfig {
    #[verifier::type_invariant]
    spec fn bounded(self) -> bool {
        self.max_iterations != UNBOUNDED_ITERATIONS
    }

    pub closed spec fn spec_max_iterations(&self) -> c_ulong {
        self.max_iterations
    }

    pub closed spec fn spec_epa_tolerance(&self) -> Tolerance {
        self.epa_tolerance
    }

    pub closed spec fn spec_mpr_tolerance(&self) -> Tolerance {
        self.mpr_tolerance
    }

    pub closed spec fn spec_dist_tolerance(&self) -> Tolerance {
        self.dist_tolerance
    }

    /// The limits as given, unless `max_iterations` is the unbounded count.
    pub fn new(
        max_iterations: c_ulong,
        epa_tolerance: Tolerance,
        mpr_tolerance: Tolerance,
        dist_tolerance: Tolerance,
    ) -> (config: Option<Self>)
        ensures
            config is Some <==> max_iterations != UNBOUNDED_ITERATIONS,
            config matches Some(c) ==> {
                &&& c.spec_max_iterations() == max_iterations
                &&& c.spec_epa_tolerance() == epa_tolerance
                &&& c.spec_mpr_tolerance() == mpr_tolerance
                &&& c.spec_dist_tolerance() == dist_tolerance
            },
    {
        if max_iterations == UNBOUNDED_ITERATIONS {
            None
        } else {
            Some(QueryConfig { max_iterations, epa_tolerance, mpr_tolerance, dist_tolerance })
        }
    }

    #[verifier::when_used_as_spec(spec_max_iterations)]
    pub fn max_iterations(&self) -> (n: c_ulong)
        ensures
            n == self.spec_max_iterations(),
            n != UNBOUNDED_ITERATIONS,
    {
        proof {
            use_type_invariant(self);
        }
        self.max_iterations
    }

    #[verifier::when_used_as_spec(spec_epa_tolerance)]
    pub fn epa_tolerance(&self) -> (t: Tolerance)
        ensures
            t == self.spec_epa_tolerance(),
    {
        self.epa_tolerance
    }

    #[verifier::when_used_as_spec(spec_mpr_tolerance)]
    pub fn mpr_tolerance(&self) -> (t: Tolerance)
        ensures
            t == self.spec_mpr_tolerance(),
    {
        self.mpr_tolerance
    }

    #[verifier::when_used_as_spec(spec_dist_tolerance)]
    pub fn dist_tolerance(&self) -> (t: Tolerance)
        ensures
            t == self.spec_dist_tolerance(),
    {
        self.dist_tolerance
    }
}

impl Default for QueryConfig {
    /// 100 iterations, and tolerances 1e-4, 1e-4 and 1e-6.
    fn default() -> (config: Self)
        ensures
            config.spec_max_iterations() == DEFAULT_MAX_ITERATIONS,
            config.spec_epa_tolerance() == default_epa_tolerance(),
            config.spec_mpr_tolerance() == default_mpr_tolerance(),
            config.spec_dist_tolerance() == default_dist_tolerance(),
    {
        QueryConfig {
            max_iterations: DEFAULT_MAX_ITERATIONS,
            epa_tolerance: Tolerance { mantissa: 1, exponent: 4 },
            mpr_tolerance: Tolerance { mantissa: 1, exponent: 4 },
            dist_tolerance: Tolerance { mantissa: 1, exponent: 6 },
        }
    }
}

/// Everything that one call of the foreign routine is given: the context
/// address of each shape, and the record.
#[derive(Debug, PartialEq)]
pub struct Descriptor<P, D, F, C> {
    pub context_a: P,
    pub context_b: P,
    pub ccd: ccd_t<D, F, C>,
}

impl<P, D, F, C> Descriptor<P, D, F, C> {
    /// The same descriptor with the two shapes in each other's place.
    pub open spec fn swapped(self) -> Self {
        Descriptor {
            context_a: self.context_b,
            context_b: self.context_a,
            ccd: ccd_t {
                first_dir: self.ccd.first_dir,
                support1: self.ccd.support2,
                support2: self.ccd.support1,
                center1: self.ccd.center2,
                center2: self.ccd.center1,
                max_iterations: self.ccd.max_iterations,
                epa_tolerance: self.ccd.epa_tolerance,
                mpr_tolerance: self.ccd.mpr_tolerance,
                dist_tolerance: self.ccd.dist_tolerance,
            },
        }
    }
}

/// The arguments of the foreign call for two shapes. Shape A has the first
/// context and the first support slot, shape B the second of each. The first
/// direction comes from `first_dir_override` where there is one and from the
/// library's heuristic otherwise. No center function is set. The limits are
/// those of `config`.
pub open spec fn built<P, D, F, C>(
    first_dir_override: Option<D>,
    trampoline_a: F,
    trampoline_b: F,
    context_a: P,
    context_b: P,
    config: QueryConfig,
) -> Descriptor<P, D, F, C> {
    Descriptor {
        context_a,
        context_b,
        ccd: ccd_t {
            first_dir: match first_dir_override {
                Some(f) => FirstDirection::Override(f),
                None => FirstDirection::LibraryDefault,
            },
            support1: Some(trampoline_a),
            support2: Some(trampoline_b),
            center1: None,
            center2: None,
            max_iterations: config.spec_max_iterations(),
            epa_tolerance: config.spec_epa_tolerance(),
            mpr_tolerance: config.spec_mpr_tolerance(),
            dist_tolerance: config.spec_dist_tolerance(),
        },
    }
}

/// Assembles the arguments of one foreign call. The record that comes back
/// may be handed to the foreign routine: it has both support functions, and
/// its iteration count is a real bound.
pub fn build<P, D, F, C>(
    first_dir_override: Option<D>,
    trampoline_a: F,
    trampoline_b: F,
    context_a: P,
    context_b: P,
    config: QueryConfig,
) -> (d: Descriptor<P, D, F, C>)
    ensures
        d == built::<P, D, F, C>(
            first_dir_override,
            trampoline_a,
            trampoline_b,
            context_a,
            context_b,
            config,
        ),
        d.ccd.ready(),
{
    let mut ccd: ccd_t<D, F, C> = ccd_new();
    ccd.first_dir =
    match first_dir_override {
        Some(f) => FirstDirection::Override(f),
        None => FirstDirection::LibraryDefault,
    };
    ccd.support1 = Some(trampoline_a);
    ccd.support2 = Some(trampoline_b);
    ccd.max_iterations = config.max_iterations();
    ccd.epa_tolerance = config.epa_tolerance();
    ccd.mpr_tolerance = config.mpr_tolerance();
    ccd.dist_tolerance = config.dist_tolerance();
    Descriptor { context_a, context_b, ccd }
}

/// The builder treats the two shapes alike: with the shapes exchanged it
/// gives the same descriptor with the two contexts and the two support slots
/// exchanged, and nothing else changed.
pub proof fn lemma_build_exchanges_shapes<P, D, F, C>(
    first_dir_override: Option<D>,
    trampoline_a: F,
    trampoline_b: F,
    context_a: P,
    context_b: P,
    config: QueryConfig,
)
    ensures
        built::<P, D, F, C>(
            first_dir_override,
            trampoline_b,
            trampoline_a,
            context_b,
            context_a,
            config,
        ) == built::<P, D, F, C>(
            first_dir_override,
            trampoline_a,
            trampoline_b,
            context_a,
            context_b,
            config,
        ).swapped(),
{
}

} // verus!
