//! What a polling cycle leaves behind: the published snapshot, and the table
//! of raw samples that the next cycle compares with.

use vstd::prelude::*;
use crate::sample::TimedContainerStatsResponse;
use crate::sample::TimedContainerStatsResponseView;
use crate::stat::compute_stat;
use crate::stat::computed_stat;
use crate::stat::DockerContainerStat;
use crate::stat::DockerContainerStatView;
use crate::views::lemma_views_push;
use crate::views::lemma_views_take_all;
use crate::views::lemma_views_take_next;
use crate::views::optional_view;
use crate::views::views;

verus! {

/// A published snapshot: the figures of every container of one cycle, in the
/// order in which the runtime listed them, and the time of that cycle.
#[derive(Debug, PartialEq, Eq)]
pub struct LastDockerStats {
    /// Nanoseconds since the Unix epoch; zero before the first cycle.
    pub timestamp: u64,
    pub stats: Vec<DockerContainerStat>,
}

/// The view of a [`LastDockerStats`].
pub struct LastDockerStatsView {
    pub timestamp: u64,
    pub stats: Seq<DockerContainerStatView>,
}

impl View for LastDockerStats {
    type V = LastDockerStatsView;

    open spec fn view(&self) -> LastDockerStatsView {
        LastDockerStatsView { timestamp: self.timestamp, stats: views(self.stats@) }
    }
}

impl Clone for LastDockerStats {
    fn clone(&self) -> (r: Self)
        ensures
            r@ == self@,
    {
        let stats = self.stats.clone();
        proof {
            assert(views(stats@) =~= views(self.stats@));
        }
        LastDockerStats { timestamp: self.timestamp, stats }
    }
}

impl LastDockerStats {
    /// The snapshot that stands until the first cycle has been published:
    /// no container, and a timestamp of zero.
    pub fn placeholder() -> (r: Self)
        ensures
            r@.timestamp == 0,
            r@.stats == Seq::<DockerContainerStatView>::empty(),
    {
        let r = LastDockerStats { timestamp: 0, stats: Vec::new() };
        proof {
            assert(views(r.stats@) =~= Seq::<DockerContainerStatView>::empty());
        }
        r
    }
}

/// The table that a run of samples makes when each is filed under its id, a
/// later sample taking the place of an earlier one with the same id.
pub open spec fn sample_table(samples: Seq<TimedContainerStatsResponseView>) -> Map<
    Seq<char>,
    TimedContainerStatsResponseView,
>
    decreases samples.len(),
{
    if samples.len() == 0 {
        Map::empty()
    } else {
        sample_table(samples.drop_last()).insert(samples.last().id, samples.last())
    }
}

/// The entry of a table under `id`, if it has one.
pub open spec fn table_entry(
    table: Map<Seq<char>, TimedContainerStatsResponseView>,
    id: Seq<char>,
) -> Option<TimedContainerStatsResponseView> {
    if table.contains_key(id) {
        Some(table[id])
    } else {
        None
    }
}

/// Every entry of a table stands under its own id and came from a sample.
pub proof fn lemma_sample_table_entries(
    samples: Seq<TimedContainerStatsResponseView>,
    id: Seq<char>,
)
    requires
        sample_table(samples).contains_key(id),
    ensures
        sample_table(samples)[id].id == id,
        samples.contains(sample_table(samples)[id]),
    decreases samples.len(),
{
    if samples.len() > 0 {
        if samples.last().id == id {
            assert(samples[samples.len() - 1] == samples.last());
        } else {
            lemma_sample_table_entries(samples.drop_last(), id);
            let found = sample_table(samples.drop_last())[id];
            let i = choose|i: int|
                0 <= i < samples.drop_last().len() && samples.drop_last()[i] == found;
            assert(samples[i] == found);
        }
    }
}

/// A table has an entry under the id of each sample it was made from.
pub proof fn lemma_sample_table_covers(samples: Seq<TimedContainerStatsResponseView>, i: int)
    requires
        0 <= i < samples.len(),
    ensures
        sample_table(samples).contains_key(samples[i].id),
    decreases samples.len(),
{
    if i < samples.len() - 1 {
        lemma_sample_table_covers(samples.drop_last(), i);
    }
}

/// The raw samples of the latest cycle, one per container id.
///
/// The next cycle looks a container's previous sample up here. The table is
/// never added to from one cycle to the next: a cycle puts a new table in its
/// place.
#[derive(Debug)]
pub struct SampleStore {
    timestamp: u64,
    samples: Vec<TimedContainerStatsResponse>,
}

impl View for SampleStore {
    type V = Map<Seq<char>, TimedContainerStatsResponseView>;

    closed spec fn view(&self) -> Map<Seq<char>, TimedContainerStatsResponseView> {
        sample_table(views(self.samples@))
    }
}

impl SampleStore {
    /// The time of the cycle that filled the table, in nanoseconds since the
    /// Unix epoch.
    pub closed spec fn spec_timestamp(&self) -> u64 {
        self.timestamp
    }

    /// A table without entries.
    pub fn new(timestamp: u64) -> (r: Self)
        ensures
            r@ == Map::<Seq<char>, TimedContainerStatsResponseView>::empty(),
            r.spec_timestamp() == timestamp,
    {
        let r = SampleStore { timestamp, samples: Vec::new() };
        proof {
            assert(views(r.samples@) =~= Seq::<TimedContainerStatsResponseView>::empty());
        }
        r
    }

    /// The table of the samples of one cycle, each filed under its id.
    pub fn from_samples(timestamp: u64, samples: Vec<TimedContainerStatsResponse>) -> (r: Self)
        ensures
            r@ == sample_table(views(samples@)),
            r.spec_timestamp() == timestamp,
    {
        SampleStore { timestamp, samples }
    }

    /// The time of the cycle that filled the table.
    #[verifier::when_used_as_spec(spec_timestamp)]
    pub fn timestamp(&self) -> (r: u64)
        ensures
            r == self.spec_timestamp(),
    {
        self.timestamp
    }

    /// Files a sample under its id, in place of the entry that the id had.
    pub fn insert(&mut self, sample: TimedContainerStatsResponse)
        ensures
            final(self)@ == old(self)@.insert(sample@.id, sample@),
            final(self).spec_timestamp() == old(self).spec_timestamp(),
    {
        proof {
            lemma_table_push(self.samples@, sample);
        }
        self.samples.push(sample);
    }

    /// The sample filed under `id`, if there is one.
    pub fn get(&self, id: &str) -> (r: Option<&TimedContainerStatsResponse>)
        ensures
            optional_view(r) == table_entry(self@, id@),
    {
        let wanted: String = id.to_owned();
        let mut i: usize = self.samples.len();
        proof {
            lemma_views_take_all(self.samples@);
        }
        while i > 0
            invariant
                i <= self.samples.len(),
                wanted@ == id@,
                table_entry(self@, id@) == table_entry(
                    sample_table(views(self.samples@).take(i as int)),
                    id@,
                ),
            decreases i,
        {
            proof {
                assert(views(self.samples@).take(i as int).drop_last() =~= views(
                    self.samples@,
                ).take(i - 1));
            }
            i -= 1;
            if self.samples[i].id == wanted {
                return Some(&self.samples[i]);
            }
        }
        None
    }
}

/// Appending a sample to a run files it in the run's table.
proof fn lemma_table_push(
    samples: Seq<TimedContainerStatsResponse>,
    sample: TimedContainerStatsResponse,
)
    ensures
        sample_table(views(samples.push(sample))) == sample_table(views(samples)).insert(
            sample@.id,
            sample@,
        ),
{
    assert(views(samples.push(sample)).drop_last() =~= views(samples));
}

/// The figures of every sample of a cycle, each compared with the entry that
/// `table` holds under the sample's id.
pub open spec fn computed_stats(
    samples: Seq<TimedContainerStatsResponseView>,
    table: Map<Seq<char>, TimedContainerStatsResponseView>,
) -> Seq<DockerContainerStatView> {
    Seq::new(samples.len(), |i: int| computed_stat(table_entry(table, samples[i].id), samples[i]))
}

/// The figures of every container sampled in this cycle, in the order of the
/// samples.
///
/// Each sample is compared with the one that `previous` holds for the same
/// container id. A container that `previous` does not know gets its totals
/// and rates of zero.
pub fn compute_all(samples: &Vec<TimedContainerStatsResponse>, previous: &SampleStore) -> (r: Vec<
    DockerContainerStat,
>)
    ensures
        views(r@) == computed_stats(views(samples@), previous@),
        r@.len() == samples@.len(),
{
    let mut parsed: Vec<DockerContainerStat> = Vec::new();
    let mut i: usize = 0;
    while i < samples.len()
        invariant
            i <= samples.len(),
            parsed@.len() == i,
            views(parsed@) == computed_stats(views(samples@).take(i as int), previous@),
        decreases samples.len() - i,
    {
        let sample = &samples[i];
        let before = previous.get(sample.id.as_str());
        let stat = compute_stat(before, sample);
        proof {
            lemma_views_take_next(samples@, i as int);
            lemma_views_push(parsed@, stat);
            let shorter = views(samples@).take(i as int);
            let longer = views(samples@).take(i + 1);
            assert(longer == shorter.push(sample@));
            assert(computed_stats(longer, previous@) =~= computed_stats(shorter, previous@).push(
                stat@,
            ));
        }
        parsed.push(stat);
        i += 1;
    }
    proof {
        lemma_views_take_all(samples@);
    }
    parsed
}

} // verus!
