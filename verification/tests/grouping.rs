//! Trajectory grouping: stability, order preservation, merging and the
//! aggregate queries.

use outfit_core::batch::RawBatch;
use outfit_core::observations::Observation;
use outfit_core::trajectories::{ObjectNumber, TrajectorySet};

fn b(x: f64) -> u64 {
    x.to_bits()
}

fn bits_vec(xs: &[f64]) -> Vec<u64> {
    xs.iter().map(|x| x.to_bits()).collect()
}

/// Ten observations whose ra value encodes their batch position.
fn mixed_ids() -> (Vec<u32>, Vec<u64>, Vec<u64>, Vec<u64>) {
    let ids: Vec<u32> = vec![1, 2, 7, 1, 2, 7, 1, 2, 2, 7];
    let ra: Vec<u64> = (0..10).map(|i| b(i as f64)).collect();
    let dec = bits_vec(&[0.5; 10]);
    let time = bits_vec(&[59000.0; 10]);
    (ids, ra, dec, time)
}

#[test]
fn grouping_preserves_intra_trajectory_order() {
    let (ids, ra, dec, time) = mixed_ids();
    let set = TrajectorySet::from_radians(&ids, &ra, &dec, 0, 0, &time, 0).unwrap();
    // distinct identifiers in first-occurrence order: 1, 2, 7
    assert_eq!(set.number_of_trajectories(), 3);
    assert_eq!(set.trajectory(0).object(), ObjectNumber::Int(1));
    assert_eq!(set.trajectory(1).object(), ObjectNumber::Int(2));
    assert_eq!(set.trajectory(2).object(), ObjectNumber::Int(7));
    // id 7 was submitted at batch positions 2, 5, 9, and keeps that order
    let seven = set.trajectory(2).observations();
    assert_eq!(seven.len(), 3);
    let ras: Vec<u64> = seven.to_arrays().1;
    assert_eq!(ras, vec![b(2.0), b(5.0), b(9.0)]);
    // the other trajectories keep their relative order too
    assert_eq!(set.trajectory(0).observations().to_arrays().1, vec![b(0.0), b(3.0), b(6.0)]);
    assert_eq!(
        set.trajectory(1).observations().to_arrays().1,
        vec![b(1.0), b(4.0), b(7.0), b(8.0)]
    );
}

#[test]
fn one_trajectory_of_three_ordered_observations() {
    let ids: Vec<u32> = vec![4, 4, 4];
    let ra = bits_vec(&[1.0, 1.01, 1.02]);
    let dec = bits_vec(&[0.5, 0.51, 0.52]);
    let time = bits_vec(&[59000.0, 59000.01, 59000.02]);
    let set = TrajectorySet::from_radians(&ids, &ra, &dec, b(1e-6), b(1e-6), &time, 0).unwrap();
    assert_eq!(set.number_of_trajectories(), 1);
    let t = set.trajectory(0);
    assert_eq!(t.observations().len(), 3);
    let rows = t.observations().to_list();
    assert_eq!(
        rows,
        vec![
            (b(59000.0), b(1.0), b(0.5), b(1e-6), b(1e-6)),
            (b(59000.01), b(1.01), b(0.51), b(1e-6), b(1e-6)),
            (b(59000.02), b(1.02), b(0.52), b(1e-6), b(1e-6)),
        ]
    );
}

#[test]
fn rejected_ingestion_builds_no_trajectory_set() {
    let ids: Vec<u32> = (0..10).collect();
    let ten = bits_vec(&[1.0; 10]);
    let nine = bits_vec(&[1.0; 9]);
    let r = TrajectorySet::from_radians(&ids, &ten, &nine, 0, 0, &ten, 0);
    assert!(r.is_err());
}

#[test]
fn merging_batches_appends_to_existing_trajectories() {
    let ids1: Vec<u32> = vec![5, 6];
    let ra1 = bits_vec(&[0.1, 0.2]);
    let dec1 = bits_vec(&[0.0; 2]);
    let t1 = bits_vec(&[59000.0; 2]);
    let batch1 = RawBatch::from_radians(&ids1, &ra1, &dec1, 0, 0, &t1, 0).unwrap();

    let ids2: Vec<u32> = vec![6, 8];
    let ra2 = bits_vec(&[0.3, 0.4]);
    let batch2 = RawBatch::from_radians(&ids2, &ra2, &dec1, 0, 0, &t1, 1).unwrap();

    let mut set = TrajectorySet::from_batch(&batch1);
    set.add_batch(&batch2);

    assert_eq!(set.number_of_trajectories(), 3);
    assert_eq!(set.trajectory(0).id(), 5);
    assert_eq!(set.trajectory(1).id(), 6);
    assert_eq!(set.trajectory(2).id(), 8);
    // trajectory 6 holds its observations from both batches, in call order,
    // each stamped with its own batch's observer handle
    let six = set.trajectory(1).observations();
    assert_eq!(six.len(), 2);
    assert_eq!(six.get_item(0).unwrap().ra, b(0.2));
    assert_eq!(six.get_item(1).unwrap().ra, b(0.3));
    assert_eq!(six.get_item(0).unwrap().observer, 0);
    assert_eq!(six.get_item(1).unwrap().observer, 1);
    // merging accounts for every record exactly once
    assert_eq!(set.total_observations(), 4);
}

#[test]
fn aggregate_queries_count_and_summarize() {
    let (ids, ra, dec, time) = mixed_ids();
    let set = TrajectorySet::from_radians(&ids, &ra, &dec, 0, 0, &time, 0).unwrap();
    assert_eq!(set.total_observations(), 10);
    let stats = set.obs_count_stats().unwrap();
    assert_eq!(stats.trajectories, 3);
    assert_eq!(stats.total, 10);
    assert_eq!(stats.min_count, 3);
    assert_eq!(stats.max_count, 4);

    let empty = TrajectorySet::new();
    assert_eq!(empty.total_observations(), 0);
    assert!(empty.obs_count_stats().is_none());
}

#[test]
fn negative_indices_count_from_the_end() {
    let ids: Vec<u32> = vec![4, 4, 4];
    let ra = bits_vec(&[1.0, 1.01, 1.02]);
    let dec = bits_vec(&[0.5; 3]);
    let time = bits_vec(&[59000.0; 3]);
    let set = TrajectorySet::from_radians(&ids, &ra, &dec, 0, 0, &time, 0).unwrap();
    let obs = set.trajectory(0).observations();
    assert_eq!(obs.get_item(-1).unwrap().ra, b(1.02));
    assert_eq!(obs.get_item(-3).unwrap().ra, b(1.0));
    assert_eq!(obs.get_item(2).unwrap().ra, b(1.02));
    assert!(obs.get_item(3).is_none());
    assert!(obs.get_item(-4).is_none());
}

#[test]
fn to_arrays_splits_the_five_columns() {
    let obs = outfit_core::observations::Observations::new(vec![
        Observation { observer: 0, ra: 1, error_ra: 2, dec: 3, error_dec: 4, time: 5 },
        Observation { observer: 0, ra: 6, error_ra: 7, dec: 8, error_dec: 9, time: 10 },
    ]);
    let (time, ra, dec, sra, sdec) = obs.to_arrays();
    assert_eq!(time, vec![5, 10]);
    assert_eq!(ra, vec![1, 6]);
    assert_eq!(dec, vec![3, 8]);
    assert_eq!(sra, vec![2, 7]);
    assert_eq!(sdec, vec![4, 9]);
}
