//! Grouping raw records into per-object trajectories.
//!
//! A trajectory set owns one ordered observation sequence per distinct
//! trajectory identifier. Grouping is stable: trajectories appear in the
//! order their identifier first occurs, and the observations of one
//! trajectory keep their submission order. Repeated ingestion calls merge
//! into the same set, appending to existing trajectories.

use vstd::prelude::*;
use vstd::pervasive::VecAdditionalExecFns;

use crate::batch::{RawBatch, RawRecord};
use crate::errors::ValidationError;
use crate::observations::{Observation, Observations};

verus! {

/// Identifier of a solar-system object: an unsigned designation or a
/// string designation such as a provisional name.
#[derive(Clone, Debug, PartialEq, Eq, Hash, PartialOrd, Ord)]
pub enum ObjectNumber {
    Int(u32),
    String(String),
}

/// The ordered observations attributed to one object, with its identifier.
#[derive(Clone, Debug)]
pub struct Trajectory {
    pub(crate) id: u32,
    pub(crate) observations: Observations,
}

impl View for Trajectory {
    type V = (u32, Seq<Observation>);

    closed spec fn view(&self) -> (u32, Seq<Observation>) {
        (self.id, self.observations@)
    }
}

impl Trajectory {
    /// The object identifier this trajectory belongs to.
    pub fn object(&self) -> (r: ObjectNumber)
        ensures
            r == ObjectNumber::Int(self@.0),
    {
        ObjectNumber::Int(self.id)
    }

    /// The trajectory identifier as the raw batch carried it.
    pub fn id(&self) -> (r: u32)
        ensures
            r == self@.0,
    {
        self.id
    }

    /// The observations of this trajectory, in ingestion order.
    pub fn observations(&self) -> (r: &Observations)
        ensures
            r@ == self@.1,
    {
        &self.observations
    }
}

/// Index of the trajectory holding `id`, or -1 when no trajectory does.
/// When several could match (which a well-formed set never allows), the
/// first one counts.
pub open spec fn index_of_id(trajs: Seq<(u32, Seq<Observation>)>, id: u32) -> int
    decreases trajs.len(),
{
    if trajs.len() == 0 {
        -1
    } else if trajs.first().0 == id {
        0
    } else {
        let rest = index_of_id(trajs.drop_first(), id);
        if rest == -1 {
            -1
        } else {
            rest + 1
        }
    }
}

/// Whether some trajectory of the set holds `id`.
pub open spec fn contains_id(trajs: Seq<(u32, Seq<Observation>)>, id: u32) -> bool {
    index_of_id(trajs, id) != -1
}

/// One grouping step: the record's observation is appended to the
/// trajectory holding its identifier, or a new one-observation trajectory
/// is appended at the end.
pub open spec fn group_step(
    trajs: Seq<(u32, Seq<Observation>)>,
    rec: RawRecord,
) -> Seq<(u32, Seq<Observation>)> {
    let i = index_of_id(trajs, rec.trajectory_id);
    if i >= 0 {
        trajs.update(i, (trajs[i].0, trajs[i].1.push(rec.observation)))
    } else {
        trajs.push((rec.trajectory_id, seq![rec.observation]))
    }
}

/// Grouping a whole record sequence into an existing set, record by record,
/// in submission order.
pub open spec fn group_records(
    trajs: Seq<(u32, Seq<Observation>)>,
    records: Seq<RawRecord>,
) -> Seq<(u32, Seq<Observation>)>
    decreases records.len(),
{
    if records.len() == 0 {
        trajs
    } else {
        group_step(group_records(trajs, records.drop_last()), records.last())
    }
}

/// The observations carried by the records with identifier `id`, in
/// submission order.
pub open spec fn observations_for(records: Seq<RawRecord>, id: u32) -> Seq<Observation>
    decreases records.len(),
{
    if records.len() == 0 {
        Seq::empty()
    } else {
        let prefix = observations_for(records.drop_last(), id);
        if records.last().trajectory_id == id {
            prefix.push(records.last().observation)
        } else {
            prefix
        }
    }
}

/// The identifiers of `records` that `trajs` does not hold yet, in the
/// order of their first occurrence, each once.
pub open spec fn new_ids(
    trajs: Seq<(u32, Seq<Observation>)>,
    records: Seq<RawRecord>,
) -> Seq<u32>
    decreases records.len(),
{
    if records.len() == 0 {
        Seq::empty()
    } else {
        let prefix = new_ids(trajs, records.drop_last());
        let id = records.last().trajectory_id;
        if contains_id(trajs, id) || prefix.contains(id) {
            prefix
        } else {
            prefix.push(id)
        }
    }
}

/// The distinct identifiers of `records` in first-occurrence order.
pub open spec fn distinct_ids(records: Seq<RawRecord>) -> Seq<u32> {
    new_ids(Seq::empty(), records)
}

/// No two trajectories share an identifier.
pub open spec fn distinct_trajectory_ids(trajs: Seq<(u32, Seq<Observation>)>) -> bool {
    forall|j1: int, j2: int|
        0 <= j1 < j2 < trajs.len() ==> (#[trigger] trajs[j1]).0 != (#[trigger] trajs[j2]).0
}

/// What `index_of_id` finds: a well-defined index of the first trajectory
/// holding `id`, or -1 exactly when none does.
pub proof fn lemma_index_of_id(trajs: Seq<(u32, Seq<Observation>)>, id: u32)
    ensures
        index_of_id(trajs, id) == -1 ==> forall|j: int|
            0 <= j < trajs.len() ==> (#[trigger] trajs[j]).0 != id,
        index_of_id(trajs, id) != -1 ==> {
            &&& 0 <= index_of_id(trajs, id) < trajs.len()
            &&& trajs[index_of_id(trajs, id)].0 == id
            &&& forall|j: int|
                0 <= j < index_of_id(trajs, id) ==> (#[trigger] trajs[j]).0 != id
        },
    decreases trajs.len(),
{
    if trajs.len() == 0 {
    } else if trajs.first().0 == id {
    } else {
        lemma_index_of_id(trajs.drop_first(), id);
        let rest = index_of_id(trajs.drop_first(), id);
        if rest == -1 {
            assert forall|j: int| 0 <= j < trajs.len() implies (#[trigger] trajs[j]).0 != id by {
                if j > 0 {
                    assert(trajs.drop_first()[j - 1] == trajs[j]);
                }
            }
        } else {
            assert(trajs.drop_first()[rest] == trajs[rest + 1]);
            assert forall|j: int| 0 <= j < rest + 1 implies (#[trigger] trajs[j]).0 != id by {
                if j > 0 {
                    assert(trajs.drop_first()[j - 1] == trajs[j]);
                }
            }
        }
    }
}

/// A grouped, insertion-ordered set of trajectories.
#[derive(Clone, Debug)]
pub struct TrajectorySet {
    pub(crate) trajectories: Vec<Trajectory>,
}

impl View for TrajectorySet {
    type V = Seq<(u32, Seq<Observation>)>;

    closed spec fn view(&self) -> Seq<(u32, Seq<Observation>)> {
        self.trajectories@.map_values(|t: Trajectory| t@)
    }
}

impl TrajectorySet {
    /// No two trajectories of the set share an identifier.
    pub open spec fn wf(&self) -> bool {
        distinct_trajectory_ids(self@)
    }

    /// An empty set, ready to take batches.
    pub fn new() -> (r: TrajectorySet)
        ensures
            r@ == Seq::<(u32, Seq<Observation>)>::empty(),
            r.wf(),
    {
        let r = TrajectorySet { trajectories: Vec::new() };
        proof {
            assert(r@ =~= Seq::<(u32, Seq<Observation>)>::empty());
        }
        r
    }

    /// Number of trajectories in the set.
    pub fn number_of_trajectories(&self) -> (r: usize)
        ensures
            r == self@.len(),
    {
        self.trajectories.len()
    }

    /// The trajectory at a position of the set's insertion order.
    pub fn trajectory(&self, i: usize) -> (r: &Trajectory)
        requires
            i < self@.len(),
        ensures
            r@ == self@[i as int],
    {
        &self.trajectories[i]
    }

    /// Merge a validated batch into the set: each record in submission
    /// order joins the trajectory of its identifier or opens a new one at
    /// the end. Grouping is stable and total: nothing is dropped,
    /// reordered across one trajectory, or duplicated.
    pub fn add_batch(&mut self, batch: &RawBatch)
        requires
            old(self).wf(),
        ensures
            final(self)@ == group_records(old(self)@, batch.records@),
            final(self).wf(),
            spec_total_observations(final(self)@) == spec_total_observations(old(self)@)
                + batch.records@.len(),
    {
        let ghost orig: Seq<(u32, Seq<Observation>)> = self@;
        let n = batch.records.len();
        let mut i: usize = 0;
        while i < n
            invariant
                n == batch.records@.len(),
                i <= n,
                self@ == group_records(orig, batch.records@.take(i as int)),
                distinct_trajectory_ids(self@),
            decreases n - i,
        {
            proof {
                assert(batch.records@.take(i + 1).drop_last() =~= batch.records@.take(i as int));
                assert(batch.records@.take(i + 1).last() == batch.records@[i as int]);
            }
            let rec = batch.records[i];
            let ghost before: Seq<(u32, Seq<Observation>)> = self@;
            proof {
                lemma_index_of_id(before, rec.trajectory_id);
            }
            let m = self.trajectories.len();
            let mut j: usize = 0;
            let mut found: bool = false;
            while j < m && !found
                invariant
                    m == self.trajectories@.len(),
                    self@ == before,
                    j <= m,
                    !found ==> forall|k: int|
                        0 <= k < j ==> (#[trigger] before[k]).0 != rec.trajectory_id,
                    found ==> j < m && before[j as int].0 == rec.trajectory_id && forall|
                        k: int,
                    |
                        0 <= k < j ==> (#[trigger] before[k]).0 != rec.trajectory_id,
                decreases m - j + (if found {
                    0int
                } else {
                    1int
                }),
            {
                if self.trajectories[j].id == rec.trajectory_id {
                    found = true;
                } else {
                    j = j + 1;
                }
            }
            let ghost pre: Seq<Trajectory> = self.trajectories@;
            if found {
                proof {
                    assert(index_of_id(before, rec.trajectory_id) == j as int);
                }
                let mut grown = Trajectory {
                    id: rec.trajectory_id,
                    observations: Observations { obs: Vec::new() },
                };
                self.trajectories.set_and_swap(j, &mut grown);
                grown.observations.obs.push(rec.observation);
                self.trajectories.set(j, grown);
                proof {
                    assert(self.trajectories@[j as int].id == pre[j as int].id);
                    assert(self.trajectories@[j as int].observations@ == pre[
                        j as int
                    ].observations@.push(rec.observation));
                    assert forall|k: int| 0 <= k < self@.len() implies self@[k] == group_step(
                        before,
                        rec,
                    )[k] by {
                        assert(self@[k] == self.trajectories@[k]@);
                        assert(before[k] == pre[k]@);
                    }
                    assert(self@ =~= group_step(before, rec));
                }
            } else {
                proof {
                    assert(index_of_id(before, rec.trajectory_id) == -1);
                }
                let mut single: Vec<Observation> = Vec::new();
                single.push(rec.observation);
                proof {
                    assert(single@ =~= seq![rec.observation]);
                }
                self.trajectories.push(
                    Trajectory { id: rec.trajectory_id, observations: Observations { obs: single } },
                );
                proof {
                    assert forall|k: int| 0 <= k < self@.len() implies self@[k] == group_step(
                        before,
                        rec,
                    )[k] by {
                        assert(self@[k] == self.trajectories@[k]@);
                        if k < pre.len() {
                            assert(before[k] == pre[k]@);
                        }
                    }
                    assert(self@ =~= group_step(before, rec));
                }
            }
            proof {
                lemma_group_step_wf(before, rec);
            }
            i = i + 1;
        }
        proof {
            assert(batch.records@.take(n as int) =~= batch.records@);
            lemma_grouping_preserves_count(orig, batch.records@);
        }
    }

    /// Group a validated batch into a fresh set.
    pub fn from_batch(batch: &RawBatch) -> (r: TrajectorySet)
        ensures
            r@ == group_records(Seq::empty(), batch.records@),
            r.wf(),
            spec_total_observations(r@) == batch.records@.len(),
    {
        let mut r = TrajectorySet::new();
        r.add_batch(batch);
        r
    }

    /// Validate, ingest and group radian-mode sequences in one call: the
    /// length check of [`RawBatch::from_radians`] followed by stable
    /// grouping, with nothing built on a rejected batch.
    pub fn from_radians(
        trajectory_id: &Vec<u32>,
        ra: &Vec<u64>,
        dec: &Vec<u64>,
        error_ra: u64,
        error_dec: u64,
        time: &Vec<u64>,
        observer: u16,
    ) -> (r: Result<TrajectorySet, ValidationError>)
        ensures
            match crate::batch::length_check(
                trajectory_id@.len(),
                ra@.len(),
                dec@.len(),
                time@.len(),
            ) {
                Some(e) => r == Err::<TrajectorySet, ValidationError>(e),
                None => {
                    &&& r is Ok
                    &&& r->Ok_0.wf()
                    &&& spec_total_observations(r->Ok_0@) == trajectory_id@.len()
                    &&& r->Ok_0@ == group_records(
                        Seq::empty(),
                        crate::batch::radians_records(
                            trajectory_id@,
                            ra@,
                            dec@,
                            error_ra,
                            error_dec,
                            time@,
                            observer,
                        ),
                    )
                },
            },
    {
        match RawBatch::from_radians(trajectory_id, ra, dec, error_ra, error_dec, time, observer) {
            Ok(batch) => Ok(TrajectorySet::from_batch(&batch)),
            Err(e) => Err(e),
        }
    }

    /// Validate, ingest and group degree/arcsecond-mode sequences in one
    /// call: the length check of [`RawBatch::from_degrees`], the one-time
    /// unit conversion, then stable grouping.
    pub fn from_degrees(
        trajectory_id: &Vec<u32>,
        ra_deg: &Vec<u64>,
        dec_deg: &Vec<u64>,
        error_ra_arcsec: u64,
        error_dec_arcsec: u64,
        time: &Vec<u64>,
        observer: u16,
    ) -> (r: Result<TrajectorySet, ValidationError>)
        ensures
            match crate::batch::length_check(
                trajectory_id@.len(),
                ra_deg@.len(),
                dec_deg@.len(),
                time@.len(),
            ) {
                Some(e) => r == Err::<TrajectorySet, ValidationError>(e),
                None => {
                    &&& r is Ok
                    &&& r->Ok_0.wf()
                    &&& spec_total_observations(r->Ok_0@) == trajectory_id@.len()
                    &&& r->Ok_0@ == group_records(
                        Seq::empty(),
                        crate::batch::degrees_records(
                            trajectory_id@,
                            ra_deg@,
                            dec_deg@,
                            error_ra_arcsec,
                            error_dec_arcsec,
                            time@,
                            observer,
                        ),
                    )
                },
            },
    {
        match RawBatch::from_degrees(
            trajectory_id,
            ra_deg,
            dec_deg,
            error_ra_arcsec,
            error_dec_arcsec,
            time,
            observer,
        ) {
            Ok(batch) => Ok(TrajectorySet::from_batch(&batch)),
            Err(e) => Err(e),
        }
    }

    /// Total number of observations across all trajectories.
    ///
    /// The bound is a machine limit: the count must fit the platform's
    /// word, which holds of any set that was actually built in memory.
    pub fn total_observations(&self) -> (r: usize)
        requires
            spec_total_observations(self@) <= usize::MAX,
        ensures
            r == spec_total_observations(self@),
    {
        let n = self.trajectories.len();
        let mut total: usize = 0;
        let mut i: usize = 0;
        proof {
            assert(self@.take(0) =~= Seq::<(u32, Seq<Observation>)>::empty());
        }
        while i < n
            invariant
                n == self@.len(),
                i <= n,
                spec_total_observations(self@) <= usize::MAX,
                total == spec_total_observations(self@.take(i as int)),
            decreases n - i,
        {
            proof {
                lemma_total_take_step(self@, i as int);
                lemma_total_take_le(self@, i + 1);
            }
            total = total + self.trajectories[i].observations.obs.len();
            i = i + 1;
        }
        proof {
            assert(self@.take(n as int) =~= self@);
        }
        total
    }

    /// Distribution summary of observations per trajectory, for
    /// diagnostics: `None` exactly when the set is empty, else the count of
    /// trajectories, the total observation count, and the smallest and
    /// largest per-trajectory counts.
    pub fn obs_count_stats(&self) -> (r: Option<TrajectoryStats>)
        requires
            spec_total_observations(self@) <= usize::MAX,
        ensures
            r is None <==> self@.len() == 0,
            r is Some ==> {
                let s = r->0;
                &&& s.trajectories == self@.len()
                &&& s.total == spec_total_observations(self@)
                &&& exists|j: int| 0 <= j < self@.len() && s.min_count == (#[trigger] self@[j]).1.len()
                &&& forall|j: int| 0 <= j < self@.len() ==> s.min_count <= (#[trigger] self@[j]).1.len()
                &&& exists|j: int| 0 <= j < self@.len() && s.max_count == (#[trigger] self@[j]).1.len()
                &&& forall|j: int| 0 <= j < self@.len() ==> s.max_count >= (#[trigger] self@[j]).1.len()
            },
    {
        let n = self.trajectories.len();
        if n == 0 {
            return None;
        }
        let total = self.total_observations();
        let mut min_count: usize = self.trajectories[0].observations.obs.len();
        let mut max_count: usize = min_count;
        let mut i: usize = 1;
        proof {
            assert(self@[0].1.len() == min_count);
        }
        while i < n
            invariant
                n == self@.len(),
                1 <= i <= n,
                exists|j: int| 0 <= j < i && min_count == (#[trigger] self@[j]).1.len(),
                forall|j: int| 0 <= j < i ==> min_count <= (#[trigger] self@[j]).1.len(),
                exists|j: int| 0 <= j < i && max_count == (#[trigger] self@[j]).1.len(),
                forall|j: int| 0 <= j < i ==> max_count >= (#[trigger] self@[j]).1.len(),
            decreases n - i,
        {
            let c = self.trajectories[i].observations.obs.len();
            proof {
                assert(self@[i as int].1.len() == c);
            }
            if c < min_count {
                min_count = c;
            }
            if c > max_count {
                max_count = c;
            }
            i = i + 1;
        }
        Some(TrajectoryStats { trajectories: n, total, min_count, max_count })
    }
}

/// Aggregate facts about a trajectory set, for diagnostics only.
#[derive(Clone, Copy, Debug, PartialEq, Eq, Structural)]
pub struct TrajectoryStats {
    pub trajectories: usize,
    pub total: usize,
    pub min_count: usize,
    pub max_count: usize,
}

/// Total number of observations held across a set's trajectories.
pub open spec fn spec_total_observations(trajs: Seq<(u32, Seq<Observation>)>) -> nat
    decreases trajs.len(),
{
    if trajs.len() == 0 {
        0
    } else {
        spec_total_observations(trajs.drop_last()) + trajs.last().1.len()
    }
}

/// Extending a prefix by one trajectory adds exactly its count.
proof fn lemma_total_take_step(trajs: Seq<(u32, Seq<Observation>)>, i: int)
    requires
        0 <= i < trajs.len(),
    ensures
        spec_total_observations(trajs.take(i + 1)) == spec_total_observations(trajs.take(i))
            + trajs[i].1.len(),
{
    assert(trajs.take(i + 1).drop_last() =~= trajs.take(i));
    assert(trajs.take(i + 1).last() == trajs[i]);
}

/// A prefix never counts more observations than the whole set.
proof fn lemma_total_take_le(trajs: Seq<(u32, Seq<Observation>)>, i: int)
    requires
        0 <= i <= trajs.len(),
    ensures
        spec_total_observations(trajs.take(i)) <= spec_total_observations(trajs),
    decreases trajs.len() - i,
{
    if i == trajs.len() {
        assert(trajs.take(i) =~= trajs);
    } else {
        lemma_total_take_step(trajs, i);
        lemma_total_take_le(trajs, i + 1);
    }
}

/// Replacing one trajectory's observations by themselves plus one more
/// raises the total by exactly one.
proof fn lemma_total_update_push(trajs: Seq<(u32, Seq<Observation>)>, i: int, o: Observation)
    requires
        0 <= i < trajs.len(),
    ensures
        spec_total_observations(trajs.update(i, (trajs[i].0, trajs[i].1.push(o))))
            == spec_total_observations(trajs) + 1,
    decreases trajs.len(),
{
    let u = trajs.update(i, (trajs[i].0, trajs[i].1.push(o)));
    if i == trajs.len() - 1 {
        assert(u.drop_last() =~= trajs.drop_last());
    } else {
        assert(u.drop_last() =~= trajs.drop_last().update(i, (trajs[i].0, trajs[i].1.push(o))));
        lemma_total_update_push(trajs.drop_last(), i, o);
        assert(u.last() == trajs.last());
    }
}

/// Grouping neither drops nor duplicates: the grouped set counts exactly
/// the starting set's observations plus one per submitted record.
pub proof fn lemma_grouping_preserves_count(
    trajs: Seq<(u32, Seq<Observation>)>,
    records: Seq<RawRecord>,
)
    ensures
        spec_total_observations(group_records(trajs, records)) == spec_total_observations(trajs)
            + records.len(),
    decreases records.len(),
{
    if records.len() == 0 {
    } else {
        lemma_grouping_preserves_count(trajs, records.drop_last());
        let prev = group_records(trajs, records.drop_last());
        let rec = records.last();
        lemma_index_of_id(prev, rec.trajectory_id);
        let i = index_of_id(prev, rec.trajectory_id);
        if i >= 0 {
            lemma_total_update_push(prev, i, rec.observation);
        } else {
            let stepped = group_step(prev, rec);
            assert(stepped.drop_last() =~= prev);
            assert(stepped.last().1 =~= seq![rec.observation]);
        }
    }
}

/// The grouping of a record sequence into a fresh set: one trajectory per
/// distinct identifier, in first-occurrence order, holding exactly the
/// observations submitted under that identifier, in submission order.
pub proof fn lemma_grouping_from_empty(records: Seq<RawRecord>)
    ensures
        ({
            let r = group_records(Seq::empty(), records);
            &&& distinct_trajectory_ids(r)
            &&& r.len() == distinct_ids(records).len()
            &&& forall|j: int|
                0 <= j < r.len() ==> (#[trigger] r[j]).0 == distinct_ids(records)[j]
            &&& forall|j: int|
                0 <= j < r.len() ==> (#[trigger] r[j]).1 == observations_for(records, r[j].0)
        }),
{
    lemma_grouping_characterization(Seq::empty(), records);
}

/// What grouping builds, for every identifier at once: identifiers stay
/// distinct; the trajectories of the starting set keep their position and
/// identifier and have exactly the records' observations with their
/// identifier appended, in submission order; after them come one trajectory
/// per identifier the set did not hold, in first-occurrence order, holding
/// exactly the records' observations with that identifier, in submission
/// order; and an identifier absent from the result never occurred.
pub proof fn lemma_grouping_characterization(
    trajs: Seq<(u32, Seq<Observation>)>,
    records: Seq<RawRecord>,
)
    requires
        distinct_trajectory_ids(trajs),
    ensures
        ({
            let r = group_records(trajs, records);
            &&& distinct_trajectory_ids(r)
            &&& r.len() == trajs.len() + new_ids(trajs, records).len()
            &&& forall|j: int| 0 <= j < trajs.len() ==> (#[trigger] r[j]).0 == trajs[j].0
            &&& forall|j: int|
                0 <= j < trajs.len() ==> (#[trigger] r[j]).1 == trajs[j].1 + observations_for(
                    records,
                    trajs[j].0,
                )
            &&& forall|j: int|
                trajs.len() <= j < r.len() ==> (#[trigger] r[j]).0 == new_ids(trajs, records)[j
                    - trajs.len()]
            &&& forall|j: int|
                trajs.len() <= j < r.len() ==> (#[trigger] r[j]).1 == observations_for(
                    records,
                    r[j].0,
                )
            &&& forall|id: u32|
                !contains_id(r, id) ==> observations_for(records, id) == Seq::<
                    Observation,
                >::empty()
        }),
    decreases records.len(),
{
    let r = group_records(trajs, records);
    if records.len() == 0 {
        assert forall|j: int| 0 <= j < trajs.len() implies (#[trigger] r[j]).1 == trajs[j].1
            + observations_for(records, trajs[j].0) by {
            assert(trajs[j].1 + observations_for(records, trajs[j].0) =~= trajs[j].1);
        }
        assert forall|id: u32| !contains_id(r, id) implies observations_for(records, id) == Seq::<
            Observation,
        >::empty() by {
            assert(observations_for(records, id) =~= Seq::<Observation>::empty());
        }
    } else {
        let rs = records.drop_last();
        let rec = records.last();
        let prev = group_records(trajs, rs);
        lemma_grouping_characterization(trajs, rs);
        lemma_group_step_wf(prev, rec);
        lemma_index_of_id(prev, rec.trajectory_id);
        lemma_index_of_id(trajs, rec.trajectory_id);
        let i = index_of_id(prev, rec.trajectory_id);
        let prefix = new_ids(trajs, rs);
        if i >= 0 {
            assert(prev[i].0 == rec.trajectory_id);
            // the identifier is already known, so no new trajectory appears
            if i < trajs.len() {
                assert(trajs[i].0 == rec.trajectory_id);
                assert(index_of_id(trajs, rec.trajectory_id) != -1);
                assert(contains_id(trajs, rec.trajectory_id));
            } else {
                assert(prefix[i - trajs.len()] == rec.trajectory_id);
                assert(prefix.contains(rec.trajectory_id));
            }
            assert(new_ids(trajs, records) == prefix);
            assert(r == prev.update(i, (prev[i].0, prev[i].1.push(rec.observation))));
            assert forall|j: int| 0 <= j < trajs.len() implies (#[trigger] r[j]).1 == trajs[j].1
                + observations_for(records, trajs[j].0) by {
                if j == i {
                    assert(observations_for(records, trajs[j].0) == observations_for(
                        rs,
                        trajs[j].0,
                    ).push(rec.observation));
                    assert((trajs[j].1 + observations_for(rs, trajs[j].0)).push(rec.observation)
                        =~= trajs[j].1 + observations_for(records, trajs[j].0));
                } else {
                    assert(prev[j].0 == trajs[j].0);
                    assert(prev[j].0 != prev[i].0);
                    assert(observations_for(records, trajs[j].0) == observations_for(
                        rs,
                        trajs[j].0,
                    ));
                }
            }
            assert forall|j: int| trajs.len() <= j < r.len() implies (#[trigger] r[j]).1
                == observations_for(records, r[j].0) by {
                if j == i {
                    assert(r[j].0 == prev[j].0);
                    assert(observations_for(records, r[j].0) == observations_for(rs, r[j].0).push(
                        rec.observation,
                    ));
                } else {
                    assert(prev[j].0 != prev[i].0);
                    assert(observations_for(records, r[j].0) == observations_for(rs, r[j].0));
                }
            }
            assert forall|id: u32| !contains_id(r, id) implies observations_for(records, id)
                == Seq::<Observation>::empty() by {
                lemma_index_of_id(r, id);
                lemma_index_of_id(prev, id);
                if index_of_id(prev, id) != -1 {
                    let w = index_of_id(prev, id);
                    assert(r[w].0 == prev[w].0);
                    contains_id_witness(r, id, w);
                }
                assert(!contains_id(prev, id));
                assert(id != rec.trajectory_id);
            }
        } else {
            // a fresh identifier opens a trajectory at the end
            assert(r == prev.push((rec.trajectory_id, seq![rec.observation])));
            if contains_id(trajs, rec.trajectory_id) {
                let w = index_of_id(trajs, rec.trajectory_id);
                assert(prev[w].0 == trajs[w].0);
                contains_id_witness(prev, rec.trajectory_id, w);
            }
            assert(!contains_id(trajs, rec.trajectory_id));
            if prefix.contains(rec.trajectory_id) {
                let m = choose|m: int| 0 <= m < prefix.len() && prefix[m] == rec.trajectory_id;
                assert(prev[trajs.len() + m].0 == rec.trajectory_id);
                contains_id_witness(prev, rec.trajectory_id, trajs.len() + m);
            }
            assert(!prefix.contains(rec.trajectory_id));
            assert(new_ids(trajs, records) == prefix.push(rec.trajectory_id));
            assert(observations_for(rs, rec.trajectory_id) == Seq::<Observation>::empty());
            assert forall|j: int| 0 <= j < trajs.len() implies (#[trigger] r[j]).1 == trajs[j].1
                + observations_for(records, trajs[j].0) by {
                assert(r[j] == prev[j]);
                assert(trajs[j].0 != rec.trajectory_id) by {
                    if trajs[j].0 == rec.trajectory_id {
                        contains_id_witness(trajs, rec.trajectory_id, j);
                    }
                }
                assert(observations_for(records, trajs[j].0) == observations_for(rs, trajs[j].0));
            }
            assert forall|j: int| trajs.len() <= j < r.len() implies (#[trigger] r[j]).0 == new_ids(
                trajs,
                records,
            )[j - trajs.len()] by {
                if j < prev.len() {
                    assert(r[j] == prev[j]);
                    assert(prev[j].0 == prefix[j - trajs.len()]);
                }
            }
            assert forall|j: int| trajs.len() <= j < r.len() implies (#[trigger] r[j]).1
                == observations_for(records, r[j].0) by {
                if j < prev.len() {
                    assert(r[j] == prev[j]);
                    assert(prev[j].0 != rec.trajectory_id) by {
                        if prev[j].0 == rec.trajectory_id {
                            contains_id_witness(prev, rec.trajectory_id, j);
                        }
                    }
                    assert(observations_for(records, r[j].0) == observations_for(rs, r[j].0));
                } else {
                    assert(r[j] == (rec.trajectory_id, seq![rec.observation]));
                    assert(observations_for(records, rec.trajectory_id) == observations_for(
                        rs,
                        rec.trajectory_id,
                    ).push(rec.observation));
                    assert(seq![rec.observation] =~= Seq::<Observation>::empty().push(
                        rec.observation,
                    ));
                }
            }
            assert forall|id: u32| !contains_id(r, id) implies observations_for(records, id)
                == Seq::<Observation>::empty() by {
                lemma_index_of_id(r, id);
                lemma_index_of_id(prev, id);
                if index_of_id(prev, id) != -1 {
                    let w = index_of_id(prev, id);
                    assert(r[w].0 == prev[w].0);
                    contains_id_witness(r, id, w);
                }
                assert(!contains_id(prev, id));
                assert(id != rec.trajectory_id) by {
                    if id == rec.trajectory_id {
                        contains_id_witness(r, id, prev.len() as int);
                    }
                }
            }
        }
    }
}

/// A position holding `id` shows that the set contains it.
proof fn contains_id_witness(trajs: Seq<(u32, Seq<Observation>)>, id: u32, j: int)
    requires
        0 <= j < trajs.len(),
        trajs[j].0 == id,
    ensures
        contains_id(trajs, id),
{
    lemma_index_of_id(trajs, id);
    if index_of_id(trajs, id) == -1 {
        assert(trajs[j].0 != id);
    }
}

/// One grouping step keeps the identifiers distinct.
proof fn lemma_group_step_wf(trajs: Seq<(u32, Seq<Observation>)>, rec: RawRecord)
    requires
        distinct_trajectory_ids(trajs),
    ensures
        distinct_trajectory_ids(group_step(trajs, rec)),
{
    lemma_index_of_id(trajs, rec.trajectory_id);
    let i = index_of_id(trajs, rec.trajectory_id);
    if i >= 0 {
        let r = group_step(trajs, rec);
        assert forall|j1: int, j2: int| 0 <= j1 < j2 < r.len() implies (#[trigger] r[j1]).0 != (
        #[trigger] r[j2]).0 by {
            assert(r[j1].0 == trajs[j1].0);
            assert(r[j2].0 == trajs[j2].0);
        }
    } else {
        let r = group_step(trajs, rec);
        assert forall|j1: int, j2: int| 0 <= j1 < j2 < r.len() implies (#[trigger] r[j1]).0 != (
        #[trigger] r[j2]).0 by {
            if j2 == trajs.len() {
                assert(r[j1].0 == trajs[j1].0);
            } else {
                assert(r[j1].0 == trajs[j1].0);
                assert(r[j2].0 == trajs[j2].0);
            }
        }
    }
}

} // verus!
