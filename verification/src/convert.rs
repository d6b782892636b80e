//! Trusted boundary to the outside orbit engine and to the unit conversions.
//!
//! Every element field travels as the IEEE-754 bit pattern of a double. The
//! bodies below rebuild doubles from those patterns (`from_bits` through the
//! engine's numeric type aliases), call one outside function, and read the
//! result back with `to_bits`. What a call returns is a function of its
//! argument bits alone, so each trigonometric result is given a name (an
//! uninterpreted spec function) that the callers' contracts use exactly;
//! fields that the engine moves unchanged are stated as bit equalities.

use vstd::prelude::*;

use outfit::constants::MJD;
use outfit::orbit_type::cometary_element::CometaryElements as RawCometary;
use outfit::orbit_type::equinoctial_element::EquinoctialElements as RawEquinoctial;
use outfit::orbit_type::keplerian_element::KeplerianElements as RawKeplerian;

use crate::elements::{CometaryElements, EquinoctialElements, KeplerianElements};

verus! {

/// What the engine's Keplerian-to-equinoctial conversion returns for a given
/// set of input bits.
pub uninterp spec fn equinoctial_of_keplerian(k: KeplerianElements) -> EquinoctialElements;

/// What the engine's equinoctial-to-Keplerian conversion returns for a given
/// set of input bits.
pub uninterp spec fn keplerian_of_equinoctial(q: EquinoctialElements) -> KeplerianElements;

/// The (semi-major axis, hyperbolic mean anomaly) pair the engine computes
/// when converting cometary elements with perihelion distance `q`,
/// eccentricity `e` and true anomaly `nu` to Keplerian form.
pub uninterp spec fn hyperbolic_axis_and_anomaly(q: u64, e: u64, nu: u64) -> (u64, u64);

/// The bit pattern of a degree value scaled to radians.
pub uninterp spec fn radians_of_degrees(deg: u64) -> u64;

/// The bit pattern of an arcsecond value scaled to radians.
pub uninterp spec fn radians_of_arcsec(arcsec: u64) -> u64;

/// Relies on outfit's `From<&KeplerianElements> for EquinoctialElements`
/// (`from_kepler_internal`): the reference epoch and the semi-major axis are
/// moved into the result unchanged, and the other five components are
/// computed from the inputs alone.
#[verifier::external_body]
pub(crate) fn keplerian_to_equinoctial_raw(k: &KeplerianElements) -> (r: EquinoctialElements)
    ensures
        r == equinoctial_of_keplerian(*k),
        r.reference_epoch == k.reference_epoch,
        r.semi_major_axis == k.semi_major_axis,
{
    let q = RawEquinoctial::from(&RawKeplerian {
        reference_epoch: MJD::from_bits(k.reference_epoch),
        semi_major_axis: MJD::from_bits(k.semi_major_axis),
        eccentricity: MJD::from_bits(k.eccentricity),
        inclination: MJD::from_bits(k.inclination),
        ascending_node_longitude: MJD::from_bits(k.ascending_node_longitude),
        periapsis_argument: MJD::from_bits(k.periapsis_argument),
        mean_anomaly: MJD::from_bits(k.mean_anomaly),
    });
    EquinoctialElements {
        reference_epoch: q.reference_epoch.to_bits(), semi_major_axis: q.semi_major_axis.to_bits(),
        eccentricity_sin_lon: q.eccentricity_sin_lon.to_bits(), eccentricity_cos_lon: q.eccentricity_cos_lon.to_bits(),
        tan_half_incl_sin_node: q.tan_half_incl_sin_node.to_bits(), tan_half_incl_cos_node: q.tan_half_incl_cos_node.to_bits(),
        mean_longitude: q.mean_longitude.to_bits(),
    }
}

/// Relies on outfit's `From<&EquinoctialElements> for KeplerianElements`
/// (`from_equinoctial_internal`): the reference epoch and the semi-major
/// axis are moved into the result unchanged, and the other five components
/// are computed from the inputs alone.
#[verifier::external_body]
pub(crate) fn equinoctial_to_keplerian_raw(q: &EquinoctialElements) -> (r: KeplerianElements)
    ensures
        r == keplerian_of_equinoctial(*q),
        r.reference_epoch == q.reference_epoch,
        r.semi_major_axis == q.semi_major_axis,
{
    let k = RawKeplerian::from(&RawEquinoctial {
        reference_epoch: MJD::from_bits(q.reference_epoch),
        semi_major_axis: MJD::from_bits(q.semi_major_axis),
        eccentricity_sin_lon: MJD::from_bits(q.eccentricity_sin_lon),
        eccentricity_cos_lon: MJD::from_bits(q.eccentricity_cos_lon),
        tan_half_incl_sin_node: MJD::from_bits(q.tan_half_incl_sin_node),
        tan_half_incl_cos_node: MJD::from_bits(q.tan_half_incl_cos_node),
        mean_longitude: MJD::from_bits(q.mean_longitude),
    });
    KeplerianElements {
        reference_epoch: k.reference_epoch.to_bits(), semi_major_axis: k.semi_major_axis.to_bits(),
        eccentricity: k.eccentricity.to_bits(), inclination: k.inclination.to_bits(),
        ascending_node_longitude: k.ascending_node_longitude.to_bits(),
        periapsis_argument: k.periapsis_argument.to_bits(), mean_anomaly: k.mean_anomaly.to_bits(),
    }
}

/// Relies on outfit's `TryFrom<&CometaryElements> for KeplerianElements`.
/// Its body rejects an eccentricity within 1e-12 of 1.0 and then one at or
/// below 1.0; for doubles in [1, 2] the subtraction `e - 1.0` is exact, so
/// for a nonnegative non-NaN eccentricity it succeeds exactly on the bit
/// patterns at or above [`crate::elements::MIN_HYPERBOLIC_ECC_BITS`], which
/// the caller must establish. On success it moves the epoch and the three
/// orientation angles unchanged, keeps the eccentricity, and computes the
/// semi-major axis and hyperbolic mean anomaly from (q, e, ν) alone.
#[verifier::external_body]
pub(crate) fn cometary_to_keplerian_raw(c: &CometaryElements) -> (r: Result<
    KeplerianElements,
    outfit::outfit_errors::OutfitError,
>)
    requires
        c.ecc_in_domain(),
        c.is_hyperbolic(),
    ensures
        r is Ok,
        r is Ok ==> r->Ok_0 == c.keplerian_image(),
        r is Ok ==> (r->Ok_0.semi_major_axis, r->Ok_0.mean_anomaly) == hyperbolic_axis_and_anomaly(
            c.perihelion_distance,
            c.eccentricity,
            c.true_anomaly,
        ),
{
    let raw = RawCometary {
        reference_epoch: MJD::from_bits(c.reference_epoch),
        perihelion_distance: MJD::from_bits(c.perihelion_distance),
        eccentricity: MJD::from_bits(c.eccentricity),
        inclination: MJD::from_bits(c.inclination),
        ascending_node_longitude: MJD::from_bits(c.ascending_node_longitude),
        periapsis_argument: MJD::from_bits(c.periapsis_argument),
        true_anomaly: MJD::from_bits(c.true_anomaly),
    };
    RawKeplerian::try_from(&raw).map(|k| KeplerianElements {
        reference_epoch: k.reference_epoch.to_bits(), semi_major_axis: k.semi_major_axis.to_bits(),
        eccentricity: k.eccentricity.to_bits(), inclination: k.inclination.to_bits(),
        ascending_node_longitude: k.ascending_node_longitude.to_bits(),
        periapsis_argument: k.periapsis_argument.to_bits(), mean_anomaly: k.mean_anomaly.to_bits(),
    })
}

/// The engine's error type, carried through opaquely where a trusted call
/// hands one back; verified code maps it to an error of the library's own.
#[verifier::external_type_specification]
#[verifier::external_body]
pub struct ExOutfitError(outfit::outfit_errors::OutfitError);

/// Relies on f64::to_radians: degrees scaled by pi/180, a function of the
/// input bits alone.
#[verifier::external_body]
pub(crate) fn degrees_bits_to_radians(deg: u64) -> (r: u64)
    ensures
        r == radians_of_degrees(deg),
{
    outfit::constants::Degree::from_bits(deg).to_radians().to_bits()
}

/// Relies on outfit's `conversion::arcsec_to_rad`: arcseconds scaled by
/// pi/(180*3600), a function of the input bits alone.
#[verifier::external_body]
pub(crate) fn arcsec_bits_to_radians(arcsec: u64) -> (r: u64)
    ensures
        r == radians_of_arcsec(arcsec),
{
    outfit::conversion::arcsec_to_rad(outfit::constants::ArcSec::from_bits(arcsec)).to_bits()
}

} // verus!
