//! Batch ingestion: the length precondition and the one-time unit
//! conversion.

use outfit_core::batch::RawBatch;
use outfit_core::errors::{BatchField, ValidationError};

fn b(x: f64) -> u64 {
    x.to_bits()
}

fn bits_vec(xs: &[f64]) -> Vec<u64> {
    xs.iter().map(|x| x.to_bits()).collect()
}

#[test]
fn mismatched_lengths_are_rejected_with_the_offending_field() {
    let ids: Vec<u32> = (0..10).collect();
    let ten = bits_vec(&[0.0; 10]);
    let nine = bits_vec(&[0.0; 9]);

    let r = RawBatch::from_radians(&ids, &nine, &ten, 0, 0, &ten, 0);
    assert_eq!(
        r.err(),
        Some(ValidationError::LengthMismatch { expected: 10, field: BatchField::Ra, actual: 9 })
    );

    let r = RawBatch::from_radians(&ids, &ten, &nine, 0, 0, &ten, 0);
    assert_eq!(
        r.err(),
        Some(ValidationError::LengthMismatch { expected: 10, field: BatchField::Dec, actual: 9 })
    );

    let r = RawBatch::from_radians(&ids, &ten, &ten, 0, 0, &nine, 0);
    assert_eq!(
        r.err(),
        Some(ValidationError::LengthMismatch { expected: 10, field: BatchField::Time, actual: 9 })
    );

    let r = RawBatch::from_degrees(&ids, &nine, &ten, 0, 0, &ten, 0);
    assert_eq!(
        r.err(),
        Some(ValidationError::LengthMismatch { expected: 10, field: BatchField::Ra, actual: 9 })
    );
}

#[test]
fn the_first_mismatched_field_is_the_one_reported() {
    let ids: Vec<u32> = vec![1, 2];
    let one = bits_vec(&[0.0; 1]);
    let three = bits_vec(&[0.0; 3]);
    // ra, dec and time are all wrong: ra is checked first
    let r = RawBatch::from_radians(&ids, &one, &three, 0, 0, &three, 0);
    assert_eq!(
        r.err(),
        Some(ValidationError::LengthMismatch { expected: 2, field: BatchField::Ra, actual: 1 })
    );
    // ra agrees, so the dec mismatch is the one reported
    let two = bits_vec(&[0.0; 2]);
    let r = RawBatch::from_radians(&ids, &two, &three, 0, 0, &one, 0);
    assert_eq!(
        r.err(),
        Some(ValidationError::LengthMismatch { expected: 2, field: BatchField::Dec, actual: 3 })
    );
}

#[test]
fn radian_ingestion_keeps_every_bit_and_the_order() {
    let ids: Vec<u32> = vec![3, 9, 3];
    let ra = bits_vec(&[1.0, 1.01, 1.02]);
    let dec = bits_vec(&[0.5, 0.51, 0.52]);
    let time = bits_vec(&[59000.0, 59000.01, 59000.02]);
    let batch = RawBatch::from_radians(&ids, &ra, &dec, b(1e-6), b(2e-6), &time, 7).unwrap();
    assert_eq!(batch.len(), 3);
    for i in 0..3 {
        let rec = &batch.records[i];
        assert_eq!(rec.trajectory_id, ids[i]);
        assert_eq!(rec.observation.ra, ra[i]);
        assert_eq!(rec.observation.dec, dec[i]);
        assert_eq!(rec.observation.time, time[i]);
        assert_eq!(rec.observation.error_ra, b(1e-6));
        assert_eq!(rec.observation.error_dec, b(2e-6));
        assert_eq!(rec.observation.observer, 7);
    }
}

#[test]
fn degree_ingestion_converts_each_value_once() {
    let ids: Vec<u32> = vec![1, 2];
    let ra_deg = bits_vec(&[180.0, 45.0]);
    let dec_deg = bits_vec(&[-30.0, 10.5]);
    let time = bits_vec(&[60000.0, 60000.5]);
    let batch =
        RawBatch::from_degrees(&ids, &ra_deg, &dec_deg, b(3600.0), b(1.0), &time, 0).unwrap();
    assert_eq!(batch.len(), 2);
    // angles: exactly the bits of f64::to_radians on each value
    assert_eq!(batch.records[0].observation.ra, 180.0f64.to_radians().to_bits());
    assert_eq!(batch.records[1].observation.ra, 45.0f64.to_radians().to_bits());
    assert_eq!(batch.records[0].observation.dec, (-30.0f64).to_radians().to_bits());
    assert_eq!(batch.records[1].observation.dec, 10.5f64.to_radians().to_bits());
    // the conversion is not the identity
    assert_ne!(batch.records[0].observation.ra, b(180.0));
    // uncertainties: exactly the engine's arcsecond conversion
    assert_eq!(
        batch.records[0].observation.error_ra,
        outfit::conversion::arcsec_to_rad(3600.0).to_bits()
    );
    assert_eq!(
        batch.records[0].observation.error_dec,
        outfit::conversion::arcsec_to_rad(1.0).to_bits()
    );
    // 3600 arcseconds are one degree
    assert!((f64::from_bits(batch.records[0].observation.error_ra) - 1.0f64.to_radians()).abs()
        < 1e-15);
    // epochs pass through untouched
    assert_eq!(batch.records[1].observation.time, b(60000.5));
}
