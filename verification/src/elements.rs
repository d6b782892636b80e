//! The three interchangeable orbital-element representations.
//!
//! Every numeric field holds the IEEE-754 bit pattern of a double-precision
//! value (`f64::to_bits` / `f64::from_bits` at the host boundary). The core
//! never computes with the numbers themselves: the trigonometric conversion
//! work is delegated to the outside engine behind the trusted items of
//! [`crate::convert`], and everything this module decides (which conversions
//! exist, when they fail, which fields pass through untouched) is proved.
//!
//! For nonnegative doubles the bit-pattern order agrees with the numeric
//! order, so the one numeric decision made here, "is the eccentricity large
//! enough for a hyperbolic orbit", is an ordinary integer comparison on bits.

use vstd::prelude::*;

use crate::convert::{
    cometary_to_keplerian_raw, equinoctial_of_keplerian, equinoctial_to_keplerian_raw,
    hyperbolic_axis_and_anomaly, keplerian_of_equinoctial, keplerian_to_equinoctial_raw,
};
use crate::errors::ConversionError;

verus! {

/// Bit pattern of the double +infinity; every nonnegative non-NaN double has
/// a bit pattern at or below this value, and the order of those patterns is
/// the numeric order.
pub const F64_INF_BITS: u64 = 0x7FF0000000000000;

/// Bit pattern of the smallest double whose distance from 1.0 is at least
/// 1e-12, the engine's near-parabolic guard band: 1.0 + 4504 * 2^-52.
/// For doubles in [1, 2] subtraction of 1.0 is exact, so the guard
/// `|e - 1.0| < 1e-12` of the cometary conversion holds exactly of the
/// patterns below this one (and of every pattern at or below 1.0 the
/// conversion fails anyway), which makes "the conversion succeeds" a plain
/// comparison: it does if and only if the eccentricity pattern is at least
/// this constant.
pub const MIN_HYPERBOLIC_ECC_BITS: u64 = 0x3FF0000000001198;

/// Classical Keplerian elements (a, e, i, Ω, ω, M) at a reference epoch,
/// each field an IEEE-754 bit pattern.
///
/// Angles are radians, the semi-major axis is in AU, the epoch is MJD (TDB).
/// Singular at e → 0 (ω undefined) and i → 0 (Ω undefined).
#[derive(Clone, Copy, Debug, PartialEq, Eq, Structural)]
pub struct KeplerianElements {
    pub reference_epoch: u64,
    pub semi_major_axis: u64,
    pub eccentricity: u64,
    pub inclination: u64,
    pub ascending_node_longitude: u64,
    pub periapsis_argument: u64,
    pub mean_anomaly: u64,
}

/// Equinoctial elements (a, h, k, p, q, λ) at a reference epoch, each field
/// an IEEE-754 bit pattern: h = e·sin(ω+Ω), k = e·cos(ω+Ω),
/// p = tan(i/2)·sin(Ω), q = tan(i/2)·cos(Ω), λ = M+ω+Ω.
///
/// This representation is free of the e → 0 and i → 0 singularities.
#[derive(Clone, Copy, Debug, PartialEq, Eq, Structural)]
pub struct EquinoctialElements {
    pub reference_epoch: u64,
    pub semi_major_axis: u64,
    pub eccentricity_sin_lon: u64,
    pub eccentricity_cos_lon: u64,
    pub tan_half_incl_sin_node: u64,
    pub tan_half_incl_cos_node: u64,
    pub mean_longitude: u64,
}

/// Cometary elements (q, e, i, Ω, ω, ν) at a reference epoch, each field an
/// IEEE-754 bit pattern: perihelion distance q in AU, true anomaly ν in
/// radians.
///
/// Well defined for every e ≥ 0, including parabolic (e = 1) and hyperbolic
/// (e > 1) orbits; only the hyperbolic ones convert to the other two forms.
#[derive(Clone, Copy, Debug, PartialEq, Eq, Structural)]
pub struct CometaryElements {
    pub reference_epoch: u64,
    pub perihelion_distance: u64,
    pub eccentricity: u64,
    pub inclination: u64,
    pub ascending_node_longitude: u64,
    pub periapsis_argument: u64,
    pub true_anomaly: u64,
}

impl KeplerianElements {
    /// Build an element set from the bit patterns of its seven values.
    pub fn new(
        reference_epoch: u64,
        semi_major_axis: u64,
        eccentricity: u64,
        inclination: u64,
        ascending_node_longitude: u64,
        periapsis_argument: u64,
        mean_anomaly: u64,
    ) -> (r: KeplerianElements)
        ensures
            r == (KeplerianElements {
                reference_epoch,
                semi_major_axis,
                eccentricity,
                inclination,
                ascending_node_longitude,
                periapsis_argument,
                mean_anomaly,
            }),
    {
        KeplerianElements {
            reference_epoch,
            semi_major_axis,
            eccentricity,
            inclination,
            ascending_node_longitude,
            periapsis_argument,
            mean_anomaly,
        }
    }

    pub fn reference_epoch(&self) -> (r: u64)
        ensures
            r == self.reference_epoch,
    {
        self.reference_epoch
    }

    pub fn semi_major_axis(&self) -> (r: u64)
        ensures
            r == self.semi_major_axis,
    {
        self.semi_major_axis
    }

    pub fn eccentricity(&self) -> (r: u64)
        ensures
            r == self.eccentricity,
    {
        self.eccentricity
    }

    pub fn inclination(&self) -> (r: u64)
        ensures
            r == self.inclination,
    {
        self.inclination
    }

    pub fn ascending_node_longitude(&self) -> (r: u64)
        ensures
            r == self.ascending_node_longitude,
    {
        self.ascending_node_longitude
    }

    pub fn periapsis_argument(&self) -> (r: u64)
        ensures
            r == self.periapsis_argument,
    {
        self.periapsis_argument
    }

    pub fn mean_anomaly(&self) -> (r: u64)
        ensures
            r == self.mean_anomaly,
    {
        self.mean_anomaly
    }

    /// Convert to the equinoctial representation. Total: this direction
    /// always succeeds, and the reference epoch and semi-major axis are
    /// carried over bit for bit.
    pub fn to_equinoctial(&self) -> (r: EquinoctialElements)
        ensures
            r == equinoctial_of_keplerian(*self),
            r.reference_epoch == self.reference_epoch,
            r.semi_major_axis == self.semi_major_axis,
    {
        keplerian_to_equinoctial_raw(self)
    }
}

impl EquinoctialElements {
    /// Build an element set from the bit patterns of its seven values.
    pub fn new(
        reference_epoch: u64,
        semi_major_axis: u64,
        eccentricity_sin_lon: u64,
        eccentricity_cos_lon: u64,
        tan_half_incl_sin_node: u64,
        tan_half_incl_cos_node: u64,
        mean_longitude: u64,
    ) -> (r: EquinoctialElements)
        ensures
            r == (EquinoctialElements {
                reference_epoch,
                semi_major_axis,
                eccentricity_sin_lon,
                eccentricity_cos_lon,
                tan_half_incl_sin_node,
                tan_half_incl_cos_node,
                mean_longitude,
            }),
    {
        EquinoctialElements {
            reference_epoch,
            semi_major_axis,
            eccentricity_sin_lon,
            eccentricity_cos_lon,
            tan_half_incl_sin_node,
            tan_half_incl_cos_node,
            mean_longitude,
        }
    }

    pub fn reference_epoch(&self) -> (r: u64)
        ensures
            r == self.reference_epoch,
    {
        self.reference_epoch
    }

    pub fn semi_major_axis(&self) -> (r: u64)
        ensures
            r == self.semi_major_axis,
    {
        self.semi_major_axis
    }

    pub fn eccentricity_sin_lon(&self) -> (r: u64)
        ensures
            r == self.eccentricity_sin_lon,
    {
        self.eccentricity_sin_lon
    }

    pub fn eccentricity_cos_lon(&self) -> (r: u64)
        ensures
            r == self.eccentricity_cos_lon,
    {
        self.eccentricity_cos_lon
    }

    pub fn tan_half_incl_sin_node(&self) -> (r: u64)
        ensures
            r == self.tan_half_incl_sin_node,
    {
        self.tan_half_incl_sin_node
    }

    pub fn tan_half_incl_cos_node(&self) -> (r: u64)
        ensures
            r == self.tan_half_incl_cos_node,
    {
        self.tan_half_incl_cos_node
    }

    pub fn mean_longitude(&self) -> (r: u64)
        ensures
            r == self.mean_longitude,
    {
        self.mean_longitude
    }

    /// Convert back to the Keplerian representation. Total: this direction
    /// always succeeds, and the reference epoch and semi-major axis are
    /// carried over bit for bit.
    pub fn to_keplerian(&self) -> (r: KeplerianElements)
        ensures
            r == keplerian_of_equinoctial(*self),
            r.reference_epoch == self.reference_epoch,
            r.semi_major_axis == self.semi_major_axis,
    {
        equinoctial_to_keplerian_raw(self)
    }
}

impl CometaryElements {
    /// Build an element set from the bit patterns of its seven values.
    pub fn new(
        reference_epoch: u64,
        perihelion_distance: u64,
        eccentricity: u64,
        inclination: u64,
        ascending_node_longitude: u64,
        periapsis_argument: u64,
        true_anomaly: u64,
    ) -> (r: CometaryElements)
        ensures
            r == (CometaryElements {
                reference_epoch,
                perihelion_distance,
                eccentricity,
                inclination,
                ascending_node_longitude,
                periapsis_argument,
                true_anomaly,
            }),
    {
        CometaryElements {
            reference_epoch,
            perihelion_distance,
            eccentricity,
            inclination,
            ascending_node_longitude,
            periapsis_argument,
            true_anomaly,
        }
    }

    pub fn reference_epoch(&self) -> (r: u64)
        ensures
            r == self.reference_epoch,
    {
        self.reference_epoch
    }

    pub fn perihelion_distance(&self) -> (r: u64)
        ensures
            r == self.perihelion_distance,
    {
        self.perihelion_distance
    }

    pub fn eccentricity(&self) -> (r: u64)
        ensures
            r == self.eccentricity,
    {
        self.eccentricity
    }

    pub fn inclination(&self) -> (r: u64)
        ensures
            r == self.inclination,
    {
        self.inclination
    }

    pub fn ascending_node_longitude(&self) -> (r: u64)
        ensures
            r == self.ascending_node_longitude,
    {
        self.ascending_node_longitude
    }

    pub fn periapsis_argument(&self) -> (r: u64)
        ensures
            r == self.periapsis_argument,
    {
        self.periapsis_argument
    }

    pub fn true_anomaly(&self) -> (r: u64)
        ensures
            r == self.true_anomaly,
    {
        self.true_anomaly
    }

    /// Whether the eccentricity pattern denotes a nonnegative double
    /// (possibly +infinity). This is the valid domain of the type, e ≥ 0.
    pub open spec fn ecc_in_domain(self) -> bool {
        self.eccentricity <= F64_INF_BITS
    }

    /// Whether the conversions to the elliptical forms succeed on this
    /// element set: the eccentricity must clear the engine's near-parabolic
    /// guard band above 1.
    pub open spec fn is_hyperbolic(self) -> bool {
        self.eccentricity >= MIN_HYPERBOLIC_ECC_BITS
    }

    /// The Keplerian set a successful conversion returns: the epoch and the
    /// three orientation angles pass through bit for bit, the eccentricity is
    /// kept, and the semi-major axis and mean anomaly are the engine's
    /// hyperbolic solution for (q, e, ν).
    pub open spec fn keplerian_image(self) -> KeplerianElements {
        let (axis, anomaly) = hyperbolic_axis_and_anomaly(
            self.perihelion_distance,
            self.eccentricity,
            self.true_anomaly,
        );
        KeplerianElements {
            reference_epoch: self.reference_epoch,
            semi_major_axis: axis,
            eccentricity: self.eccentricity,
            inclination: self.inclination,
            ascending_node_longitude: self.ascending_node_longitude,
            periapsis_argument: self.periapsis_argument,
            mean_anomaly: anomaly,
        }
    }

    /// Convert to the Keplerian representation.
    ///
    /// Partial: fails with [`ConversionError::NonEllipticalOrbit`] exactly
    /// when the eccentricity does not clear the hyperbolic threshold, since
    /// a finite semi-major axis a = q/(1-e) exists only there. On success
    /// the epoch, eccentricity, inclination, node longitude and periapsis
    /// argument are carried over bit for bit; the semi-major axis and the
    /// (hyperbolic) mean anomaly are computed by the engine from q, e and ν.
    pub fn to_keplerian(&self) -> (r: Result<KeplerianElements, ConversionError>)
        requires
            self.ecc_in_domain(),
        ensures
            r is Ok <==> self.is_hyperbolic(),
            r is Err ==> r->Err_0 == ConversionError::NonEllipticalOrbit,
            r is Ok ==> r->Ok_0 == self.keplerian_image(),
    {
        if self.eccentricity < MIN_HYPERBOLIC_ECC_BITS {
            Err(ConversionError::NonEllipticalOrbit)
        } else {
            match cometary_to_keplerian_raw(self) {
                Ok(k) => Ok(k),
                Err(_) => Err(ConversionError::NonEllipticalOrbit),
            }
        }
    }

    /// Convert to the equinoctial representation, composed through the
    /// Keplerian form.
    ///
    /// Fails exactly where [`CometaryElements::to_keplerian`] fails, and
    /// short-circuits without attempting the second step in that case. On
    /// success the reference epoch is carried over bit for bit and the
    /// result is the equinoctial image of the intermediate Keplerian set.
    pub fn to_equinoctial(&self) -> (r: Result<EquinoctialElements, ConversionError>)
        requires
            self.ecc_in_domain(),
        ensures
            r is Ok <==> self.is_hyperbolic(),
            r is Err ==> r->Err_0 == ConversionError::NonEllipticalOrbit,
            r is Ok ==> r->Ok_0 == equinoctial_of_keplerian(self.keplerian_image()),
            r is Ok ==> r->Ok_0.reference_epoch == self.reference_epoch,
    {
        match self.to_keplerian() {
            Ok(k) => Ok(k.to_equinoctial()),
            Err(e) => Err(e),
        }
    }
}

} // verus!
