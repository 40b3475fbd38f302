//! The polling worker: a state machine that goes through one cycle after
//! another, and the cache of results that it keeps for readers.
//!
//! A cycle lists the active containers, samples each of them, computes their
//! figures against the samples of the cycle before, publishes the result, and
//! sleeps. The worker does none of the outside work itself: it says which
//! action it waits for, and is told what came of it. Whoever drives it holds
//! the worker only while it takes a step, never while the action runs, so a
//! reader finds the last published snapshot whole at any time.

use vstd::prelude::*;
use crate::cache::compute_all;
use crate::cache::computed_stats;
use crate::cache::LastDockerStatsView;
use crate::cache::lemma_sample_table_covers;
use crate::cache::lemma_sample_table_entries;
use crate::cache::sample_table;
use crate::cache::SampleStore;
use crate::cache::table_entry;
use crate::docker_stat_metrics::MetricsRegistry;
use crate::docker_stat_metrics::registry_for;
use crate::docker_stat_metrics::registry_of;
use crate::sample::ContainerStats;
use crate::sample::ContainerStatsView;
use crate::sample::TimedContainerStatsResponseView;
use crate::stat::computed_stat;
use crate::stat::DockerContainerStatView;
use crate::stats_source::connect_plan;
use crate::stats_source::ConnectPlan;
use crate::stats_source::ContainerIdentity;
use crate::stats_source::ContainerIdentityView;
use crate::stats_source::ContainerSummary;
use crate::stats_source::ContainerSummaryView;
use crate::stats_source::identities;
use crate::stats_source::listed_identities;
use crate::stats_source::plan_for;
use crate::stats_source::uri_scheme;
use crate::subsequence::is_subsequence;
use crate::subsequence::lemma_subsequence_members;
use crate::subsequence::lemma_subsequence_of_prefix;
use crate::subsequence::lemma_subsequence_push;
use crate::views::lemma_views_push;
use crate::views::optional_view;
use crate::views::views;

pub use crate::cache::LastDockerStats;
pub use crate::sample::TimedContainerStatsResponse;
pub use crate::stat::DockerContainerStat;

verus! {

/// The prefix under which the worker's metrics are registered.
pub const DEFAULT_REGISTRY_PREFIX: &'static str = "container";

/// Where in its cycle the worker stands.
#[derive(Clone, Copy, Debug, PartialEq, Eq, Structural)]
pub enum Phase {
    /// Waiting for the runtime's list of active containers.
    Listing,
    /// Waiting for the counters of one listed container.
    Sampling,
    /// About to compute the figures of the containers sampled.
    Computing,
    /// About to put the computed figures in place of the published ones.
    Publishing,
    /// Waiting for the pause between two cycles to end.
    Sleeping,
}

/// What came of the action that the worker waited for.
#[derive(Debug, PartialEq, Eq)]
pub enum Event {
    /// The runtime listed its active containers.
    Listed(Vec<ContainerSummary>),
    /// The runtime could not be asked, or did not answer, for the list.
    ListingFailed,
    /// The runtime answered for the container asked about, with its counters
    /// or with nothing.
    Fetched(Option<ContainerStats>),
    /// The runtime did not answer for the container asked about.
    FetchFailed,
    /// The worker may go on with a step that needs nothing from outside.
    Proceed,
    /// The pause is over.
    Woke,
}

/// The view of an [`Event`].
pub enum EventView {
    Listed(Seq<ContainerSummaryView>),
    ListingFailed,
    Fetched(Option<ContainerStatsView>),
    FetchFailed,
    Proceed,
    Woke,
}

impl View for Event {
    type V = EventView;

    open spec fn view(&self) -> EventView {
        match *self {
            Event::Listed(listing) => EventView::Listed(views(listing@)),
            Event::ListingFailed => EventView::ListingFailed,
            Event::Fetched(stats) => EventView::Fetched(optional_view(stats)),
            Event::FetchFailed => EventView::FetchFailed,
            Event::Proceed => EventView::Proceed,
            Event::Woke => EventView::Woke,
        }
    }
}

/// What the worker waits for.
#[derive(Debug, PartialEq, Eq)]
pub enum Action {
    /// Connect to the runtime as the plan says and list the active
    /// containers, and answer with [`Event::Listed`] or
    /// [`Event::ListingFailed`].
    List(ConnectPlan),
    /// Ask for the counters of the container with this id, and answer with
    /// [`Event::Fetched`] or [`Event::FetchFailed`].
    Fetch(String),
    /// Nothing to do outside: answer with [`Event::Proceed`].
    Proceed,
    /// Pause for this many milliseconds, and answer with [`Event::Woke`].
    Sleep(u64),
}

/// The view of an [`Action`].
pub enum ActionView {
    List(ConnectPlan),
    Fetch(Seq<char>),
    Proceed,
    Sleep(u64),
}

impl View for Action {
    type V = ActionView;

    open spec fn view(&self) -> ActionView {
        match *self {
            Action::List(plan) => ActionView::List(plan),
            Action::Fetch(id) => ActionView::Fetch(id@),
            Action::Proceed => ActionView::Proceed,
            Action::Sleep(millis) => ActionView::Sleep(millis),
        }
    }
}

/// A lookup in the table of raw samples found nothing under the id.
#[derive(Clone, Copy, Debug, PartialEq, Eq, Structural)]
pub struct NotFound;

/// The view of a [`DockerStatPollingWorker`]: all of its state.
pub struct WorkerView {
    /// The endpoint of the runtime.
    pub docker_host: Seq<char>,
    /// The prefix of the worker's metrics.
    pub prom_registry_prefix: Seq<char>,
    /// Milliseconds to pause between two cycles, from the next pause on.
    pub delay_ms: u64,
    /// The published snapshot.
    pub last_stats: LastDockerStatsView,
    /// The raw samples of the last published cycle, by container id.
    pub last_docker_stats: Map<Seq<char>, TimedContainerStatsResponseView>,
    /// The time of the cycle that filled `last_docker_stats`.
    pub last_docker_stats_time: u64,
    pub phase: Phase,
    /// The containers that this cycle's listing gave.
    pub pending: Seq<ContainerIdentityView>,
    /// How many of `pending` have been asked about.
    pub cursor: nat,
    /// The samples taken in this cycle so far.
    pub samples: Seq<TimedContainerStatsResponseView>,
    /// The figures computed in this cycle, until they are published.
    pub parsed: Seq<DockerContainerStatView>,
    /// The time at which this cycle's figures were computed.
    pub cycle_time: u64,
    /// Milliseconds of the pause that is running.
    pub sleep_ms: u64,
}

/// Whether one of the listed containers has the id.
pub open spec fn lists(pending: Seq<ContainerIdentityView>, id: Seq<char>) -> bool {
    exists|j: int| 0 <= j < pending.len() && (#[trigger] pending[j]).id == id
}

/// The containers that the samples are of, in the order of the samples.
pub open spec fn sample_identities(samples: Seq<TimedContainerStatsResponseView>) -> Seq<
    ContainerIdentityView,
> {
    Seq::new(
        samples.len(),
        |i: int| ContainerIdentityView { id: samples[i].id, name: samples[i].name },
    )
}

/// The containers that the figures are of, in the order of the figures.
pub open spec fn stat_identities(stats: Seq<DockerContainerStatView>) -> Seq<
    ContainerIdentityView,
> {
    Seq::new(stats.len(), |i: int| ContainerIdentityView { id: stats[i].id, name: stats[i].name })
}

impl WorkerView {
    /// What holds of a worker at all times: while it samples, a container is
    /// left to ask about; the samples are of containers that were listed and
    /// asked about, in listing order; and the figures that wait to be
    /// published are those of the samples.
    pub open spec fn consistent(self) -> bool {
        &&& self.cursor <= self.pending.len()
        &&& self.phase == Phase::Sampling ==> self.cursor < self.pending.len()
        &&& is_subsequence(sample_identities(self.samples), self.pending.take(self.cursor as int))
        &&& self.phase == Phase::Publishing ==> self.parsed == computed_stats(
            self.samples,
            self.last_docker_stats,
        )
    }

    /// A worker that has not listed anything yet: it stands at the start of
    /// its first cycle, and what it has published is an empty snapshot with a
    /// timestamp of zero and an empty table of raw samples.
    pub open spec fn initial(host: Seq<char>, polling_millis: u64) -> WorkerView {
        WorkerView {
            docker_host: host,
            prom_registry_prefix: DEFAULT_REGISTRY_PREFIX@,
            delay_ms: polling_millis,
            last_stats: LastDockerStatsView { timestamp: 0, stats: Seq::empty() },
            last_docker_stats: Map::empty(),
            last_docker_stats_time: 0,
            phase: Phase::Listing,
            pending: Seq::empty(),
            cursor: 0,
            samples: Seq::empty(),
            parsed: Seq::empty(),
            cycle_time: 0,
            sleep_ms: polling_millis,
        }
    }

    /// The action that the worker waits for.
    pub open spec fn awaited(self) -> ActionView {
        match self.phase {
            Phase::Listing => ActionView::List(
                plan_for(self.docker_host, uri_scheme(self.docker_host)),
            ),
            Phase::Sampling => ActionView::Fetch(self.pending[self.cursor as int].id),
            Phase::Computing => ActionView::Proceed,
            Phase::Publishing => ActionView::Proceed,
            Phase::Sleeping => ActionView::Sleep(self.sleep_ms),
        }
    }

    /// After the runtime listed its containers: those that can be sampled
    /// are taken down, and sampling starts with the first, if there is one.
    pub open spec fn after_listing(self, listing: Seq<ContainerSummaryView>) -> WorkerView {
        let pending = listed_identities(listing);
        WorkerView {
            pending,
            cursor: 0,
            samples: Seq::empty(),
            phase: if pending.len() > 0 {
                Phase::Sampling
            } else {
                Phase::Computing
            },
            ..self
        }
    }

    /// After the listing failed: the rest of the cycle is left out, and the
    /// pause starts. What was published stays.
    pub open spec fn after_listing_failure(self) -> WorkerView {
        WorkerView { phase: Phase::Sleeping, sleep_ms: self.delay_ms, ..self }
    }

    /// After the runtime was asked about one container: its sample is kept
    /// if there was an answer, and left out of this cycle if there was none;
    /// then the next container is asked about, if one is left.
    pub open spec fn after_fetch(
        self,
        answer: Option<Option<ContainerStatsView>>,
        now: u64,
    ) -> WorkerView {
        let who = self.pending[self.cursor as int];
        let cursor = self.cursor + 1;
        WorkerView {
            samples: match answer {
                Some(stat) => self.samples.push(
                    TimedContainerStatsResponseView {
                        id: who.id,
                        name: who.name,
                        stat,
                        time: now,
                    },
                ),
                None => self.samples,
            },
            cursor: cursor as nat,
            phase: if cursor < self.pending.len() {
                Phase::Sampling
            } else {
                Phase::Computing
            },
            ..self
        }
    }

    /// After computing: the figures of every sample of this cycle wait to be
    /// published, each compared with the sample that the last published cycle
    /// left for the same container.
    pub open spec fn after_computing(self, now: u64) -> WorkerView {
        WorkerView {
            parsed: computed_stats(self.samples, self.last_docker_stats),
            cycle_time: now,
            phase: Phase::Publishing,
            ..self
        }
    }

    /// After publishing: this cycle's figures stand in place of the published
    /// snapshot, this cycle's samples in place of the table of raw samples,
    /// and the pause starts with the delay that is set at this moment.
    pub open spec fn after_publishing(self) -> WorkerView {
        WorkerView {
            last_stats: LastDockerStatsView { timestamp: self.cycle_time, stats: self.parsed },
            last_docker_stats: sample_table(self.samples),
            last_docker_stats_time: self.cycle_time,
            samples: Seq::empty(),
            parsed: Seq::empty(),
            phase: Phase::Sleeping,
            sleep_ms: self.delay_ms,
            ..self
        }
    }

    /// After the pause: the next cycle starts.
    pub open spec fn after_sleeping(self) -> WorkerView {
        WorkerView { phase: Phase::Listing, ..self }
    }

    /// The state that follows when `event` arrives at time `now`. An event
    /// that the worker's phase does not wait for changes nothing.
    pub open spec fn next(self, event: EventView, now: u64) -> WorkerView {
        match (self.phase, event) {
            (Phase::Listing, EventView::Listed(listing)) => self.after_listing(listing),
            (Phase::Listing, EventView::ListingFailed) => self.after_listing_failure(),
            (Phase::Sampling, EventView::Fetched(stat)) => self.after_fetch(Some(stat), now),
            (Phase::Sampling, EventView::FetchFailed) => self.after_fetch(None, now),
            (Phase::Computing, EventView::Proceed) => self.after_computing(now),
            (Phase::Publishing, EventView::Proceed) => self.after_publishing(),
            (Phase::Sleeping, EventView::Woke) => self.after_sleeping(),
            _ => self,
        }
    }
}

/// Whether `event` makes a worker in state `w` publish.
pub open spec fn publishes(w: WorkerView, event: EventView) -> bool {
    w.phase == Phase::Publishing && event is Proceed
}

/// The state after a run of events, each with the time at which it arrived.
pub open spec fn run(w: WorkerView, events: Seq<(EventView, u64)>) -> WorkerView
    decreases events.len(),
{
    if events.len() == 0 {
        w
    } else {
        run(w, events.drop_last()).next(events.last().0, events.last().1)
    }
}

/// Keeping the answer for the next listed container keeps the samples in
/// listing order, and so does leaving that container out.
proof fn lemma_fetch_keeps_listing_order(
    w: WorkerView,
    answer: Option<Option<ContainerStatsView>>,
    now: u64,
)
    requires
        w.consistent(),
        w.phase == Phase::Sampling,
    ensures
        w.after_fetch(answer, now).consistent(),
{
    let after = w.after_fetch(answer, now);
    let asked = w.pending.take(w.cursor as int);
    let who = w.pending[w.cursor as int];
    assert(asked.push(who) =~= w.pending.take(w.cursor as int + 1));
    lemma_subsequence_push(sample_identities(w.samples), asked, who);
    if answer is Some {
        assert(sample_identities(after.samples) =~= sample_identities(w.samples).push(who));
    }
}

/// Every sample of a worker is of a container that the listing named.
proof fn lemma_samples_are_listed(w: WorkerView, i: int)
    requires
        w.consistent(),
        0 <= i < w.samples.len(),
    ensures
        lists(w.pending, w.samples[i].id),
{
    lemma_subsequence_of_prefix(sample_identities(w.samples), w.pending, w.cursor as int);
    lemma_subsequence_members(sample_identities(w.samples), w.pending, i);
    let j = choose|j: int|
        0 <= j < w.pending.len() && #[trigger] w.pending[j] == sample_identities(w.samples)[i];
    assert(w.pending[j].id == w.samples[i].id);
}

/// What holds of a worker at all times holds after every step.
pub proof fn law_consistency_is_kept(w: WorkerView, event: EventView, now: u64)
    requires
        w.consistent(),
    ensures
        w.next(event, now).consistent(),
{
    match (w.phase, event) {
        (Phase::Listing, EventView::Listed(listing)) => {
            assert(sample_identities(Seq::empty()).len() == 0);
        },
        (Phase::Sampling, EventView::Fetched(stat)) => {
            lemma_fetch_keeps_listing_order(w, Some(stat), now);
        },
        (Phase::Sampling, EventView::FetchFailed) => {
            lemma_fetch_keeps_listing_order(w, None, now);
        },
        (Phase::Publishing, EventView::Proceed) => {
            assert(sample_identities(Seq::empty()).len() == 0);
        },
        _ => {},
    }
}

/// A step that does not publish leaves the published snapshot and the table
/// of raw samples as they are.
pub proof fn law_only_publishing_changes_the_cache(w: WorkerView, event: EventView, now: u64)
    requires
        !publishes(w, event),
    ensures
        w.next(event, now).last_stats == w.last_stats,
        w.next(event, now).last_docker_stats == w.last_docker_stats,
{
}

/// Between two publishes a reader is always given the same snapshot: after
/// any run of events none of which publishes, the published timestamp and
/// figures are those from before the run.
pub proof fn law_snapshot_is_stable_between_publishes(w: WorkerView, events: Seq<(EventView, u64)>)
    requires
        forall|k: int|
            0 <= k < events.len() ==> !publishes(
                run(w, #[trigger] events.take(k)),
                events[k].0,
            ),
    ensures
        run(w, events).last_stats == w.last_stats,
        run(w, events).last_docker_stats == w.last_docker_stats,
    decreases events.len(),
{
    if events.len() > 0 {
        let shorter = events.drop_last();
        assert forall|k: int| 0 <= k < shorter.len() implies !publishes(
            run(w, #[trigger] shorter.take(k)),
            shorter[k].0,
        ) by {
            assert(shorter.take(k) =~= events.take(k));
        }
        law_snapshot_is_stable_between_publishes(w, shorter);
        assert(events.take(events.len() - 1) =~= shorter);
        law_only_publishing_changes_the_cache(
            run(w, shorter),
            events.last().0,
            events.last().1,
        );
    }
}

/// A change of the delay does not reach a pause that is running: the worker
/// waits for the same action as before, and pauses for the new delay when it
/// next starts a pause.
pub proof fn law_delay_holds_from_the_next_pause(w: WorkerView, delay_ms: u64)
    ensures
        (WorkerView { delay_ms, ..w }).awaited() == w.awaited(),
        (WorkerView { delay_ms, ..w }).after_listing_failure().awaited() == ActionView::Sleep(
            delay_ms,
        ),
        (WorkerView { delay_ms, ..w }).after_publishing().awaited() == ActionView::Sleep(delay_ms),
{
}

/// Publishing replaces, it does not merge: a container that the listing of
/// this cycle did not name is, once the cycle is published, in neither the
/// table of raw samples nor the snapshot, whatever they held before.
pub proof fn law_publishing_replaces_wholesale(w: WorkerView, now: u64, id: Seq<char>)
    requires
        w.consistent(),
        w.phase == Phase::Publishing,
        !lists(w.pending, id),
    ensures
        !w.next(EventView::Proceed, now).last_docker_stats.contains_key(id),
        forall|i: int|
            0 <= i < w.next(EventView::Proceed, now).last_stats.stats.len() ==> (
            #[trigger] w.next(EventView::Proceed, now).last_stats.stats[i]).id != id,
{
    let after = w.next(EventView::Proceed, now);
    if after.last_docker_stats.contains_key(id) {
        lemma_sample_table_entries(w.samples, id);
        let entry = sample_table(w.samples)[id];
        let i = choose|i: int| 0 <= i < w.samples.len() && w.samples[i] == entry;
        lemma_samples_are_listed(w, i);
    }
    assert forall|i: int| 0 <= i < after.last_stats.stats.len() implies (
    #[trigger] after.last_stats.stats[i]).id != id by {
        assert(after.last_stats.stats[i].id == w.samples[i].id);
        lemma_samples_are_listed(w, i);
    }
}

/// A published snapshot keeps the order of the listing: the containers of
/// its figures are containers of this cycle's listing, in the order in which
/// the runtime listed them, each with the name that the listing gave it.
pub proof fn law_snapshot_keeps_listing_order(w: WorkerView, now: u64)
    requires
        w.consistent(),
        w.phase == Phase::Publishing,
    ensures
        is_subsequence(
            stat_identities(w.next(EventView::Proceed, now).last_stats.stats),
            w.pending,
        ),
{
    let after = w.next(EventView::Proceed, now);
    assert(stat_identities(after.last_stats.stats) =~= sample_identities(w.samples));
    lemma_subsequence_of_prefix(sample_identities(w.samples), w.pending, w.cursor as int);
}

/// Publishing keeps every container that was sampled in this cycle: each has
/// its figures in the snapshot, at the place of its sample, and its sample in
/// the table.
pub proof fn law_publishing_keeps_every_sample(w: WorkerView, now: u64, i: int)
    requires
        w.consistent(),
        w.phase == Phase::Publishing,
        0 <= i < w.samples.len(),
    ensures
        w.next(EventView::Proceed, now).last_stats.stats.len() == w.samples.len(),
        w.next(EventView::Proceed, now).last_stats.stats[i] == computed_stat(
            table_entry(w.last_docker_stats, w.samples[i].id),
            w.samples[i],
        ),
        w.next(EventView::Proceed, now).last_docker_stats.contains_key(w.samples[i].id),
{
    lemma_sample_table_covers(w.samples, i);
}

/// The view of what came of asking about a container: nothing where the
/// runtime did not answer, else the counters that it gave, if any.
pub open spec fn answer_view(answer: Option<Option<ContainerStats>>) -> Option<
    Option<ContainerStatsView>,
> {
    match answer {
        Some(stat) => Some(optional_view(stat)),
        None => None,
    }
}

/// The polling worker and its cache.
#[derive(Debug)]
pub struct DockerStatPollingWorker {
    docker_host: String,
    prom_registry_prefix: String,
    delay_ms: u64,
    /// The last published snapshot.
    last_stats: LastDockerStats,
    /// The raw samples of the last published cycle.
    last_docker_stats: SampleStore,
    phase: Phase,
    pending: Vec<ContainerIdentity>,
    cursor: usize,
    samples: Vec<TimedContainerStatsResponse>,
    parsed: Vec<DockerContainerStat>,
    cycle_time: u64,
    sleep_ms: u64,
}

impl View for DockerStatPollingWorker {
    type V = WorkerView;

    closed spec fn view(&self) -> WorkerView {
        WorkerView {
            docker_host: self.docker_host@,
            prom_registry_prefix: self.prom_registry_prefix@,
            delay_ms: self.delay_ms,
            last_stats: self.last_stats@,
            last_docker_stats: self.last_docker_stats@,
            last_docker_stats_time: self.last_docker_stats.spec_timestamp(),
            phase: self.phase,
            pending: views(self.pending@),
            cursor: self.cursor as nat,
            samples: views(self.samples@),
            parsed: views(self.parsed@),
            cycle_time: self.cycle_time,
            sleep_ms: self.sleep_ms,
        }
    }
}

impl DockerStatPollingWorker {
    #[verifier::type_invariant]
    closed spec fn well_formed(self) -> bool {
        self@.consistent()
    }

    /// A worker for the runtime at `host` that pauses `polling_millis`
    /// milliseconds between two cycles. It stands at the start of its first
    /// cycle; until that cycle is published, the snapshot is empty and its
    /// timestamp is zero.
    pub fn new(host: &str, polling_millis: u64) -> (r: Self)
        ensures
            r@ == WorkerView::initial(host@, polling_millis),
            r@.consistent(),
    {
        let pending: Vec<ContainerIdentity> = Vec::new();
        let samples: Vec<TimedContainerStatsResponse> = Vec::new();
        let parsed: Vec<DockerContainerStat> = Vec::new();
        proof {
            assert(views(pending@) =~= Seq::<ContainerIdentityView>::empty());
            assert(views(samples@) =~= Seq::<TimedContainerStatsResponseView>::empty());
            assert(views(parsed@) =~= Seq::<DockerContainerStatView>::empty());
        }
        DockerStatPollingWorker {
            docker_host: host.to_owned(),
            prom_registry_prefix: DEFAULT_REGISTRY_PREFIX.to_owned(),
            delay_ms: polling_millis,
            last_stats: LastDockerStats::placeholder(),
            last_docker_stats: SampleStore::new(0),
            phase: Phase::Listing,
            pending,
            cursor: 0,
            samples,
            parsed,
            cycle_time: 0,
            sleep_ms: polling_millis,
        }
    }

    /// Where in its cycle the worker stands.
    pub fn phase(&self) -> (r: Phase)
        ensures
            r == self@.phase,
    {
        self.phase
    }

    /// The endpoint of the runtime that the worker polls.
    pub fn docker_host(&self) -> (r: &str)
        ensures
            r@ == self@.docker_host,
    {
        self.docker_host.as_str()
    }

    /// Milliseconds that the worker pauses between two cycles, from the next
    /// pause on.
    pub fn delay_ms(&self) -> (r: u64)
        ensures
            r == self@.delay_ms,
    {
        self.delay_ms
    }

    /// Takes the step that `event` calls for, at time `now` (nanoseconds since
    /// the Unix epoch), and gives the worker after the step with the action
    /// that it waits for next.
    ///
    /// A failed listing leaves out the rest of the cycle and goes to the
    /// pause; a failed fetch leaves out that one container. Computing and
    /// publishing are steps of their own, which need nothing from outside.
    /// Only the publishing step changes what readers see, and it changes all
    /// of it at once. An event that the worker does not wait for changes
    /// nothing, and the same action is asked for again.
    pub fn step(self, event: Event, now: u64) -> (r: (Self, Action))
        ensures
            r.0@ == self@.next(event@, now),
            r.1@ == r.0@.awaited(),
            r.0@.consistent(),
    {
        proof {
            use_type_invariant(&self);
        }
        let after = match (self.phase, event) {
            (Phase::Listing, Event::Listed(listing)) => self.begin_sampling(&listing),
            (Phase::Listing, Event::ListingFailed) => {
                let pause: u64 = self.delay_ms;
                DockerStatPollingWorker { phase: Phase::Sleeping, sleep_ms: pause, ..self }
            },
            (Phase::Sampling, Event::Fetched(stat)) => self.take_answer(Some(stat), now),
            (Phase::Sampling, Event::FetchFailed) => self.take_answer(None, now),
            (Phase::Computing, Event::Proceed) => self.compute(now),
            (Phase::Publishing, Event::Proceed) => self.publish(),
            (Phase::Sleeping, Event::Woke) => DockerStatPollingWorker {
                phase: Phase::Listing,
                ..self
            },
            (_, _) => self,
        };
        let action = after.pending_action();
        (after, action)
    }

    /// Takes down the containers of a listing and starts to sample them.
    fn begin_sampling(self, listing: &Vec<ContainerSummary>) -> (r: Self)
        requires
            self@.phase == Phase::Listing,
        ensures
            r@ == self@.after_listing(views(listing@)),
    {
        let pending = identities(listing);
        let samples: Vec<TimedContainerStatsResponse> = Vec::new();
        proof {
            assert(views(samples@) =~= Seq::<TimedContainerStatsResponseView>::empty());
        }
        let phase = if pending.len() > 0 {
            Phase::Sampling
        } else {
            Phase::Computing
        };
        DockerStatPollingWorker { pending, cursor: 0, samples, phase, ..self }
    }

    /// Keeps the answer for the container that was asked about as its sample
    /// of this cycle, if there is an answer, and goes on to the next listed
    /// container, or to computing after the last.
    fn take_answer(self, answer: Option<Option<ContainerStats>>, now: u64) -> (r: Self)
        requires
            self@.phase == Phase::Sampling,
        ensures
            r@ == self@.after_fetch(answer_view(answer), now),
    {
        proof {
            use_type_invariant(&self);
            lemma_fetch_keeps_listing_order(self@, answer_view(answer), now);
        }
        let listed: usize = self.pending.len();
        assert(self@.pending.len() == listed);
        let cursor: usize = self.cursor + 1;
        let phase = if cursor < listed {
            Phase::Sampling
        } else {
            Phase::Computing
        };
        match answer {
            Some(stat) => {
                let who = &self.pending[self.cursor];
                let sample = TimedContainerStatsResponse {
                    id: who.id.clone(),
                    name: who.name.clone(),
                    stat,
                    time: now,
                };
                proof {
                    lemma_views_push(self.samples@, sample);
                }
                let mut samples = self.samples;
                samples.push(sample);
                DockerStatPollingWorker { samples, cursor, phase, ..self }
            },
            None => DockerStatPollingWorker { cursor, phase, ..self },
        }
    }

    /// Computes the figures of this cycle's samples.
    fn compute(self, now: u64) -> (r: Self)
        requires
            self@.phase == Phase::Computing,
        ensures
            r@ == self@.after_computing(now),
    {
        proof {
            use_type_invariant(&self);
        }
        let parsed = compute_all(&self.samples, &self.last_docker_stats);
        DockerStatPollingWorker { parsed, cycle_time: now, phase: Phase::Publishing, ..self }
    }

    /// Puts this cycle's figures and samples in place of the published ones.
    fn publish(self) -> (r: Self)
        requires
            self@.phase == Phase::Publishing,
        ensures
            r@ == self@.after_publishing(),
    {
        proof {
            use_type_invariant(&self);
        }
        let parsed: Vec<DockerContainerStat> = Vec::new();
        let samples: Vec<TimedContainerStatsResponse> = Vec::new();
        proof {
            assert(views(parsed@) =~= Seq::<DockerContainerStatView>::empty());
            assert(views(samples@) =~= Seq::<TimedContainerStatsResponseView>::empty());
        }
        let pause: u64 = self.delay_ms;
        let stamp: u64 = self.cycle_time;
        DockerStatPollingWorker {
            last_stats: LastDockerStats { timestamp: stamp, stats: self.parsed },
            last_docker_stats: SampleStore::from_samples(stamp, self.samples),
            parsed,
            samples,
            phase: Phase::Sleeping,
            sleep_ms: pause,
            ..self
        }
    }

    /// The raw sample that the last published cycle left for the container
    /// `id`, for diagnosis.
    ///
    /// Fails with [`NotFound`] where that cycle took no sample of such a
    /// container.
    pub fn get_cgroup2_data(&self, id: &str) -> (r: Result<TimedContainerStatsResponse, NotFound>)
        ensures
            r is Ok <==> self@.last_docker_stats.contains_key(id@),
            r matches Ok(sample) ==> sample@ == self@.last_docker_stats[id@],
    {
        match self.last_docker_stats.get(id) {
            Some(sample) => Ok(sample.clone()),
            None => Err(NotFound),
        }
    }

    /// The snapshot that was published last: its timestamp and the figures
    /// of its containers, in listing order.
    ///
    /// The answer depends on nothing but what was published last, so it stays
    /// the same until the worker publishes again.
    pub fn get_last_container_stats(&self) -> (r: LastDockerStats)
        ensures
            r@ == self@.last_stats,
    {
        self.last_stats.clone()
    }

    /// The gauges of the snapshot that was published last, under the worker's
    /// prefix.
    pub fn get_last_container_stats_registry(&self) -> (r: MetricsRegistry)
        ensures
            r@ == registry_of(self@.prom_registry_prefix, self@.last_stats.stats),
    {
        registry_for(self.prom_registry_prefix.as_str(), &self.last_stats.stats)
    }

    /// Sets the pause between two cycles to `millis` milliseconds, of which
    /// the low 64 bits count.
    ///
    /// A pause that is running is not cut short or drawn out: the new delay
    /// holds from the next pause on.
    pub fn set_delay(&mut self, millis: u128)
        ensures
            final(self)@ == (WorkerView {
                delay_ms: (millis % 0x1_0000_0000_0000_0000) as u64,
                ..old(self)@
            }),
            final(self)@.consistent(),
    {
        proof {
            use_type_invariant(&*self);
        }
        let low: u128 = millis % 0x1_0000_0000_0000_0000u128;
        self.delay_ms = low as u64;
    }

    /// The action that the worker waits for.
    pub fn pending_action(&self) -> (r: Action)
        ensures
            r@ == self@.awaited(),
            self@.consistent(),
    {
        proof {
            use_type_invariant(self);
        }
        match self.phase {
            Phase::Listing => Action::List(connect_plan(self.docker_host.as_str())),
            Phase::Sampling => Action::Fetch(self.pending[self.cursor].id.clone()),
            Phase::Computing => Action::Proceed,
            Phase::Publishing => Action::Proceed,
            Phase::Sleeping => Action::Sleep(self.sleep_ms),
        }
    }
}

} // verus!
