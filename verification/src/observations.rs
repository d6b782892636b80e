//! Validated, unit-normalized astrometric observations.
//!
//! Angle and epoch fields hold IEEE-754 bit patterns of doubles (angles in
//! radians, epochs in MJD, TT). An observation is immutable once built and
//! carries the compact site handle of the observer that produced it.

use vstd::prelude::*;

verus! {

/// One astrometric measurement: right ascension and declination with their
/// one-sigma uncertainties (radian bit patterns) at an epoch (MJD bit
/// pattern), stamped with the observing site's handle.
#[derive(Clone, Copy, Debug, PartialEq, Eq, Structural)]
pub struct Observation {
    pub observer: u16,
    pub ra: u64,
    pub error_ra: u64,
    pub dec: u64,
    pub error_dec: u64,
    pub time: u64,
}

/// The ordered observations of one trajectory.
#[derive(Clone, Debug)]
pub struct Observations {
    pub obs: Vec<Observation>,
}

impl View for Observations {
    type V = Seq<Observation>;

    open spec fn view(&self) -> Seq<Observation> {
        self.obs@
    }
}

impl Observations {
    /// Wrap an already ordered list of observations.
    pub fn new(obs: Vec<Observation>) -> (r: Observations)
        ensures
            r@ == obs@,
    {
        Observations { obs }
    }

    /// Number of observations in this trajectory.
    pub fn len(&self) -> (r: usize)
        ensures
            r == self@.len(),
    {
        self.obs.len()
    }

    /// Random access with negative indices counting from the end, as the
    /// host language does: `-1` is the last observation. `None` exactly when
    /// the index falls outside the trajectory either way.
    pub fn get_item(&self, idx: i64) -> (r: Option<Observation>)
        ensures
            ({
                let n = self@.len() as int;
                let i = if idx < 0 {
                    idx + n
                } else {
                    idx as int
                };
                if 0 <= i < n {
                    r == Some(self@[i])
                } else {
                    r is None
                }
            }),
    {
        let n = self.obs.len();
        if idx >= 0 {
            if (idx as u64) < (n as u64) {
                Some(self.obs[(idx as u64) as usize])
            } else {
                None
            }
        } else {
            let back = (-(idx + 1)) as u64;
            if back < (n as u64) {
                Some(self.obs[n - 1 - (back as usize)])
            } else {
                None
            }
        }
    }

    /// Split into five parallel arrays `(time, ra, dec, error_ra,
    /// error_dec)`, one entry per observation, in trajectory order.
    pub fn to_arrays(&self) -> (r: (Vec<u64>, Vec<u64>, Vec<u64>, Vec<u64>, Vec<u64>))
        ensures
            r.0@.len() == self@.len(),
            r.1@.len() == self@.len(),
            r.2@.len() == self@.len(),
            r.3@.len() == self@.len(),
            r.4@.len() == self@.len(),
            forall|i: int|
                0 <= i < self@.len() ==> {
                    &&& r.0@[i] == self@[i].time
                    &&& r.1@[i] == self@[i].ra
                    &&& r.2@[i] == self@[i].dec
                    &&& r.3@[i] == self@[i].error_ra
                    &&& r.4@[i] == self@[i].error_dec
                },
    {
        let n = self.obs.len();
        let mut mjd: Vec<u64> = Vec::new();
        let mut ra: Vec<u64> = Vec::new();
        let mut dec: Vec<u64> = Vec::new();
        let mut sra: Vec<u64> = Vec::new();
        let mut sdec: Vec<u64> = Vec::new();
        let mut i: usize = 0;
        while i < n
            invariant
                n == self@.len(),
                i <= n,
                mjd@.len() == i,
                ra@.len() == i,
                dec@.len() == i,
                sra@.len() == i,
                sdec@.len() == i,
                forall|j: int|
                    0 <= j < i ==> {
                        &&& mjd@[j] == self@[j].time
                        &&& ra@[j] == self@[j].ra
                        &&& dec@[j] == self@[j].dec
                        &&& sra@[j] == self@[j].error_ra
                        &&& sdec@[j] == self@[j].error_dec
                    },
            decreases n - i,
        {
            let o = self.obs[i];
            mjd.push(o.time);
            ra.push(o.ra);
            dec.push(o.dec);
            sra.push(o.error_ra);
            sdec.push(o.error_dec);
            i = i + 1;
        }
        (mjd, ra, dec, sra, sdec)
    }

    /// The observations as `(time, ra, dec, error_ra, error_dec)` tuples, in
    /// trajectory order.
    pub fn to_list(&self) -> (r: Vec<(u64, u64, u64, u64, u64)>)
        ensures
            r@.len() == self@.len(),
            forall|i: int|
                0 <= i < self@.len() ==> r@[i] == (
                    self@[i].time,
                    self@[i].ra,
                    self@[i].dec,
                    self@[i].error_ra,
                    self@[i].error_dec,
                ),
    {
        let n = self.obs.len();
        let mut out: Vec<(u64, u64, u64, u64, u64)> = Vec::new();
        let mut i: usize = 0;
        while i < n
            invariant
                n == self@.len(),
                i <= n,
                out@.len() == i,
                forall|j: int|
                    0 <= j < i ==> out@[j] == (
                        self@[j].time,
                        self@[j].ra,
                        self@[j].dec,
                        self@[j].error_ra,
                        self@[j].error_dec,
                    ),
            decreases n - i,
        {
            let o = self.obs[i];
            out.push((o.time, o.ra, o.dec, o.error_ra, o.error_dec));
            i = i + 1;
        }
        out
    }
}

} // verus!
