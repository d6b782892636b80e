//! The estimation orchestrator: determinism under a fixed seed, cooperative
//! cancellation, and per-trajectory failure isolation.

use outfit_core::elements::KeplerianElements;
use outfit_core::environment::{parse_error_model, ErrorModel};
use outfit_core::errors::EstimationError;
use outfit_core::iod_gauss::GaussResult;
use outfit_core::observations::Observations;
use outfit_core::orchestrator::{CancelAfter, NeverCancel, OrbitSolver, TrajectoryOutcome};
use outfit_core::trajectories::{ObjectNumber, TrajectorySet};

fn b(x: f64) -> u64 {
    x.to_bits()
}

fn bits_vec(xs: &[f64]) -> Vec<u64> {
    xs.iter().map(|x| x.to_bits()).collect()
}

fn sample_set() -> TrajectorySet {
    let ids: Vec<u32> = vec![1, 2, 7, 1, 2, 7, 1, 2, 2, 7];
    let ra: Vec<u64> = (0..10).map(|i| b(i as f64)).collect();
    let dec = bits_vec(&[0.5; 10]);
    let time = bits_vec(&[59000.0; 10]);
    TrajectorySet::from_radians(&ids, &ra, &dec, 0, 0, &time, 0).unwrap()
}

/// A deterministic stand-in for the Gauss engine: solves from the
/// trajectory data alone, and fails the designated object.
struct ScriptedSolver {
    failing: u32,
}

impl OrbitSolver for ScriptedSolver {
    fn solve(
        &mut self,
        _rng: &mut rand::rngs::StdRng,
        object: &ObjectNumber,
        observations: &Observations,
    ) -> TrajectoryOutcome {
        let id = match object {
            ObjectNumber::Int(n) => *n,
            ObjectNumber::String(_) => 0,
        };
        if id == self.failing {
            return Err(EstimationError::new(format!("no convergence for {id}")));
        }
        let n = observations.len() as u64;
        let k = KeplerianElements::new(id as u64, n, 0, 0, 0, 0, 0);
        Ok((GaussResult::from_keplerian(k, None), n))
    }
}

#[test]
fn full_run_accounts_for_every_trajectory_once() {
    let set = sample_set();
    let mut solver = ScriptedSolver { failing: u32::MAX };
    let r = set.estimate_all_orbits(&mut solver, Some(42), &mut NeverCancel);
    assert_eq!(r.len(), 3);
    assert_eq!(r.entry(0).0, ObjectNumber::Int(1));
    assert_eq!(r.entry(1).0, ObjectNumber::Int(2));
    assert_eq!(r.entry(2).0, ObjectNumber::Int(7));
    for i in 0..3 {
        assert!(r.entry(i).1.is_ok());
    }
    // the outcome carries the solved elements and the rms slot
    let (g, rms) = r.entry(1).1.as_ref().unwrap();
    assert_eq!(*rms, 4);
    assert_eq!(g.keplerian().unwrap().semi_major_axis(), 4);
}

#[test]
fn one_failure_never_disturbs_the_siblings() {
    let set = sample_set();
    let mut solver = ScriptedSolver { failing: 2 };
    let r = set.estimate_all_orbits(&mut solver, Some(42), &mut NeverCancel);
    assert_eq!(r.len(), 3);
    assert!(r.entry(0).1.is_ok());
    assert!(r.entry(2).1.is_ok());
    let err = r.entry(1).1.as_ref().unwrap_err();
    assert_eq!(err.message(), "no convergence for 2");
}

#[test]
fn same_seed_and_set_give_identical_runs() {
    let set = sample_set();
    let mut s1 = ScriptedSolver { failing: 7 };
    let mut s2 = ScriptedSolver { failing: 7 };
    let r1 = set.estimate_all_orbits(&mut s1, Some(9), &mut NeverCancel);
    let r2 = set.estimate_all_orbits(&mut s2, Some(9), &mut NeverCancel);
    assert_eq!(r1.entries, r2.entries);
}

#[test]
fn cancellation_yields_the_untouched_prefix() {
    let set = sample_set();
    let mut solver = ScriptedSolver { failing: u32::MAX };
    let full = set.estimate_all_orbits(&mut solver, Some(5), &mut NeverCancel);
    for k in 0..4usize {
        let mut again = ScriptedSolver { failing: u32::MAX };
        let cancelled =
            set.estimate_all_orbits(&mut again, Some(5), &mut CancelAfter { remaining: k });
        let expect = k.min(3);
        assert_eq!(cancelled.len(), expect);
        for i in 0..expect {
            assert_eq!(cancelled.entry(i), full.entry(i));
        }
    }
}

#[test]
fn error_model_names_select_the_model() {
    assert_eq!(parse_error_model("VFCC17"), ErrorModel::Vfcc17);
    assert_eq!(parse_error_model("FCCT14"), ErrorModel::Fcct14);
    assert_eq!(parse_error_model("anything else"), ErrorModel::Fcct14);
    assert_eq!(parse_error_model(""), ErrorModel::Fcct14);
}
