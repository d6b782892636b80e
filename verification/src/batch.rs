//! Observation batch ingestion: five equal-length parallel sequences become
//! validated, unit-normalized raw records, not yet grouped by trajectory.
//!
//! The length precondition is checked up front and a violation rejects the
//! whole call with the exact offending sequence; nothing is truncated or
//! padded. Radian input is taken as it is; degree/arcsecond input has every
//! value converted to radians exactly once, through the trusted unit
//! conversions of [`crate::convert`].

use vstd::prelude::*;

use crate::convert::{
    arcsec_bits_to_radians, degrees_bits_to_radians, radians_of_arcsec, radians_of_degrees,
};
use crate::errors::{BatchField, ValidationError};
use crate::observations::Observation;

verus! {

/// One not-yet-grouped observation, carrying its trajectory identifier.
#[derive(Clone, Copy, Debug, PartialEq, Eq, Structural)]
pub struct RawRecord {
    pub trajectory_id: u32,
    pub observation: Observation,
}

/// A validated batch of raw records, in submission order.
#[derive(Clone, Debug)]
pub struct RawBatch {
    pub records: Vec<RawRecord>,
}

/// The first length mismatch among the angle and epoch sequences, checked
/// against the trajectory-id sequence in the order RA, DEC, time; `None`
/// when all four lengths agree.
pub open spec fn length_check(
    expected: nat,
    ra_len: nat,
    dec_len: nat,
    time_len: nat,
) -> Option<ValidationError> {
    if ra_len != expected {
        Some(
            ValidationError::LengthMismatch {
                expected: expected as usize,
                field: BatchField::Ra,
                actual: ra_len as usize,
            },
        )
    } else if dec_len != expected {
        Some(
            ValidationError::LengthMismatch {
                expected: expected as usize,
                field: BatchField::Dec,
                actual: dec_len as usize,
            },
        )
    } else if time_len != expected {
        Some(
            ValidationError::LengthMismatch {
                expected: expected as usize,
                field: BatchField::Time,
                actual: time_len as usize,
            },
        )
    } else {
        None
    }
}


/// The records a radian-mode ingestion yields: one per position, in order.
pub open spec fn radians_records(
    trajectory_id: Seq<u32>,
    ra: Seq<u64>,
    dec: Seq<u64>,
    error_ra: u64,
    error_dec: u64,
    time: Seq<u64>,
    observer: u16,
) -> Seq<RawRecord> {
    Seq::new(
        trajectory_id.len(),
        |i: int|
            RawRecord {
                trajectory_id: trajectory_id[i],
                observation: Observation {
                    observer,
                    ra: ra[i],
                    error_ra,
                    dec: dec[i],
                    error_dec,
                    time: time[i],
                },
            },
    )
}

/// The records a degree/arcsecond-mode ingestion yields: one per position,
/// in order, each angle and uncertainty scaled to radians.
pub open spec fn degrees_records(
    trajectory_id: Seq<u32>,
    ra_deg: Seq<u64>,
    dec_deg: Seq<u64>,
    error_ra_arcsec: u64,
    error_dec_arcsec: u64,
    time: Seq<u64>,
    observer: u16,
) -> Seq<RawRecord> {
    Seq::new(
        trajectory_id.len(),
        |i: int|
            RawRecord {
                trajectory_id: trajectory_id[i],
                observation: Observation {
                    observer,
                    ra: radians_of_degrees(ra_deg[i]),
                    error_ra: radians_of_arcsec(error_ra_arcsec),
                    dec: radians_of_degrees(dec_deg[i]),
                    error_dec: radians_of_arcsec(error_dec_arcsec),
                    time: time[i],
                },
            },
    )
}

impl RawBatch {
    /// Ingest sequences whose angles and uncertainties are already in
    /// radians and whose epochs are MJD (TT); values are taken bit for bit.
    ///
    /// Fails with the exact first length mismatch and ingests nothing in
    /// that case; on success yields one record per position, in order, each
    /// stamped with the batch's observer handle and the two uniform
    /// uncertainties.
    pub fn from_radians(
        trajectory_id: &Vec<u32>,
        ra: &Vec<u64>,
        dec: &Vec<u64>,
        error_ra: u64,
        error_dec: u64,
        time: &Vec<u64>,
        observer: u16,
    ) -> (r: Result<RawBatch, ValidationError>)
        ensures
            match length_check(trajectory_id@.len(), ra@.len(), dec@.len(), time@.len()) {
                Some(e) => r == Err::<RawBatch, ValidationError>(e),
                None => {
                    &&& r is Ok
                    &&& r->Ok_0.records@ == radians_records(
                        trajectory_id@,
                        ra@,
                        dec@,
                        error_ra,
                        error_dec,
                        time@,
                        observer,
                    )
                },
            },
    {
        let n = trajectory_id.len();
        if ra.len() != n {
            return Err(
                ValidationError::LengthMismatch {
                    expected: n,
                    field: BatchField::Ra,
                    actual: ra.len(),
                },
            );
        }
        if dec.len() != n {
            return Err(
                ValidationError::LengthMismatch {
                    expected: n,
                    field: BatchField::Dec,
                    actual: dec.len(),
                },
            );
        }
        if time.len() != n {
            return Err(
                ValidationError::LengthMismatch {
                    expected: n,
                    field: BatchField::Time,
                    actual: time.len(),
                },
            );
        }
        let mut records: Vec<RawRecord> = Vec::new();
        let mut i: usize = 0;
        while i < n
            invariant
                n == trajectory_id@.len(),
                ra@.len() == n,
                dec@.len() == n,
                time@.len() == n,
                i <= n,
                records@.len() == i,
                forall|j: int|
                    0 <= j < i ==> records@[j] == (RawRecord {
                        trajectory_id: trajectory_id@[j],
                        observation: Observation {
                            observer,
                            ra: ra@[j],
                            error_ra,
                            dec: dec@[j],
                            error_dec,
                            time: time@[j],
                        },
                    }),
            decreases n - i,
        {
            records.push(
                RawRecord {
                    trajectory_id: trajectory_id[i],
                    observation: Observation {
                        observer,
                        ra: ra[i],
                        error_ra,
                        dec: dec[i],
                        error_dec,
                        time: time[i],
                    },
                },
            );
            i = i + 1;
        }
        proof {
            assert(records@ =~= radians_records(
                trajectory_id@,
                ra@,
                dec@,
                error_ra,
                error_dec,
                time@,
                observer,
            ));
        }
        Ok(RawBatch { records })
    }

    /// Ingest sequences whose angles are in degrees and whose uncertainties
    /// are in arcseconds; every value is converted to radians exactly once
    /// during ingestion.
    ///
    /// Fails with the exact first length mismatch and ingests nothing in
    /// that case; on success yields one record per position, in order, with
    /// the converted angles and uncertainties.
    pub fn from_degrees(
        trajectory_id: &Vec<u32>,
        ra_deg: &Vec<u64>,
        dec_deg: &Vec<u64>,
        error_ra_arcsec: u64,
        error_dec_arcsec: u64,
        time: &Vec<u64>,
        observer: u16,
    ) -> (r: Result<RawBatch, ValidationError>)
        ensures
            match length_check(trajectory_id@.len(), ra_deg@.len(), dec_deg@.len(), time@.len()) {
                Some(e) => r == Err::<RawBatch, ValidationError>(e),
                None => {
                    &&& r is Ok
                    &&& r->Ok_0.records@ == degrees_records(
                        trajectory_id@,
                        ra_deg@,
                        dec_deg@,
                        error_ra_arcsec,
                        error_dec_arcsec,
                        time@,
                        observer,
                    )
                },
            },
    {
        let n = trajectory_id.len();
        if ra_deg.len() != n {
            return Err(
                ValidationError::LengthMismatch {
                    expected: n,
                    field: BatchField::Ra,
                    actual: ra_deg.len(),
                },
            );
        }
        if dec_deg.len() != n {
            return Err(
                ValidationError::LengthMismatch {
                    expected: n,
                    field: BatchField::Dec,
                    actual: dec_deg.len(),
                },
            );
        }
        if time.len() != n {
            return Err(
                ValidationError::LengthMismatch {
                    expected: n,
                    field: BatchField::Time,
                    actual: time.len(),
                },
            );
        }
        let error_ra = arcsec_bits_to_radians(error_ra_arcsec);
        let error_dec = arcsec_bits_to_radians(error_dec_arcsec);
        let mut records: Vec<RawRecord> = Vec::new();
        let mut i: usize = 0;
        while i < n
            invariant
                n == trajectory_id@.len(),
                ra_deg@.len() == n,
                dec_deg@.len() == n,
                time@.len() == n,
                i <= n,
                error_ra == radians_of_arcsec(error_ra_arcsec),
                error_dec == radians_of_arcsec(error_dec_arcsec),
                records@.len() == i,
                forall|j: int|
                    0 <= j < i ==> records@[j] == (RawRecord {
                        trajectory_id: trajectory_id@[j],
                        observation: Observation {
                            observer,
                            ra: radians_of_degrees(ra_deg@[j]),
                            error_ra: radians_of_arcsec(error_ra_arcsec),
                            dec: radians_of_degrees(dec_deg@[j]),
                            error_dec: radians_of_arcsec(error_dec_arcsec),
                            time: time@[j],
                        },
                    }),
            decreases n - i,
        {
            records.push(
                RawRecord {
                    trajectory_id: trajectory_id[i],
                    observation: Observation {
                        observer,
                        ra: degrees_bits_to_radians(ra_deg[i]),
                        error_ra,
                        dec: degrees_bits_to_radians(dec_deg[i]),
                        error_dec,
                        time: time[i],
                    },
                },
            );
            i = i + 1;
        }
        proof {
            assert(records@ =~= degrees_records(
                trajectory_id@,
                ra_deg@,
                dec_deg@,
                error_ra_arcsec,
                error_dec_arcsec,
                time@,
                observer,
            ));
        }
        Ok(RawBatch { records })
    }

    /// Number of raw records in the batch.
    pub fn len(&self) -> (r: usize)
        ensures
            r == self.records@.len(),
    {
        self.records.len()
    }
}

} // verus!
