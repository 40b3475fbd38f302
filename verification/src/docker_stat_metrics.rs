//! The gauges under which a container's figures are exposed.
//!
//! A registry here is a plain description: which gauges stand under which
//! labels, with which values. Turning it into an exposition text is left to
//! an encoder.

use vstd::prelude::*;
use vstd::string::StringExecFns;
use crate::rate::Rate;
use crate::stat::empty_stat;
use crate::stat::DockerContainerStat;
use crate::stat::DockerContainerStatView;
use crate::views::lemma_views_push;
use crate::views::lemma_views_take_all;
use crate::views::views;

verus! {

/// The unit that a gauge is registered with.
#[derive(Clone, Copy, Debug, PartialEq, Eq, Structural)]
pub enum MetricUnit {
    Ratios,
    Bytes,
}

/// The value of a gauge: a whole number, or an exact fraction.
#[derive(Clone, Copy, Debug, PartialEq, Eq)]
pub enum GaugeValue {
    Count(u64),
    Ratio(Rate),
}

/// One gauge: its name, its help text, its unit if it has one, and its value.
#[derive(Debug, PartialEq, Eq)]
pub struct GaugeDescriptor {
    pub name: String,
    pub help: String,
    pub unit: Option<MetricUnit>,
    pub value: GaugeValue,
}

/// The view of a [`GaugeDescriptor`].
pub struct GaugeDescriptorView {
    pub name: Seq<char>,
    pub help: Seq<char>,
    pub unit: Option<MetricUnit>,
    pub value: GaugeValue,
}

impl View for GaugeDescriptor {
    type V = GaugeDescriptorView;

    open spec fn view(&self) -> GaugeDescriptorView {
        GaugeDescriptorView {
            name: self.name@,
            help: self.help@,
            unit: self.unit,
            value: self.value,
        }
    }
}

/// A label: a name and a value.
#[derive(Debug, PartialEq, Eq)]
pub struct Label {
    pub name: String,
    pub value: String,
}

/// The view of a [`Label`].
pub struct LabelView {
    pub name: Seq<char>,
    pub value: Seq<char>,
}

impl View for Label {
    type V = LabelView;

    open spec fn view(&self) -> LabelView {
        LabelView { name: self.name@, value: self.value@ }
    }
}

/// The gauges of one container, under the labels that tell it from others.
#[derive(Debug, PartialEq, Eq)]
pub struct SubRegistry {
    pub labels: Vec<Label>,
    pub gauges: Vec<GaugeDescriptor>,
}

/// The view of a [`SubRegistry`].
pub struct SubRegistryView {
    pub labels: Seq<LabelView>,
    pub gauges: Seq<GaugeDescriptorView>,
}

impl View for SubRegistry {
    type V = SubRegistryView;

    open spec fn view(&self) -> SubRegistryView {
        SubRegistryView { labels: views(self.labels@), gauges: views(self.gauges@) }
    }
}

/// All gauges of a snapshot: one sub-registry per container, in the order of
/// the snapshot, under a common prefix.
#[derive(Debug, PartialEq, Eq)]
pub struct MetricsRegistry {
    pub prefix: String,
    pub sub_registries: Vec<SubRegistry>,
}

/// The view of a [`MetricsRegistry`].
pub struct MetricsRegistryView {
    pub prefix: Seq<char>,
    pub sub_registries: Seq<SubRegistryView>,
}

impl View for MetricsRegistry {
    type V = MetricsRegistryView;

    open spec fn view(&self) -> MetricsRegistryView {
        MetricsRegistryView {
            prefix: self.prefix@,
            sub_registries: views(self.sub_registries@),
        }
    }
}

impl MetricsRegistry {
    /// A registry without gauges, under `prefix`.
    pub fn with_prefix(prefix: &str) -> (r: Self)
        ensures
            r@.prefix == prefix@,
            r@.sub_registries == Seq::<SubRegistryView>::empty(),
    {
        let r = MetricsRegistry { prefix: prefix.to_owned(), sub_registries: Vec::new() };
        proof {
            assert(views(r.sub_registries@) =~= Seq::<SubRegistryView>::empty());
        }
        r
    }
}

/// The values of the gauges of one container.
#[derive(Debug, PartialEq, Eq)]
pub struct DockerStatContainerMetrics {
    id: String,
    pub cpu_usage: Rate,
    pub mem_usage: u64,
    pub mem_limit: u64,
    pub net_in: u64,
    pub net_out: u64,
    pub net_in_bps: Rate,
    pub net_out_bps: Rate,
    pub blk_in: u64,
    pub blk_out: u64,
    pub blk_in_byteps: Rate,
    pub blk_out_byteps: Rate,
}

/// The view of a [`DockerStatContainerMetrics`].
pub struct DockerStatContainerMetricsView {
    pub id: Seq<char>,
    pub cpu_usage: Rate,
    pub mem_usage: u64,
    pub mem_limit: u64,
    pub net_in: u64,
    pub net_out: u64,
    pub net_in_bps: Rate,
    pub net_out_bps: Rate,
    pub blk_in: u64,
    pub blk_out: u64,
    pub blk_in_byteps: Rate,
    pub blk_out_byteps: Rate,
}

impl View for DockerStatContainerMetrics {
    type V = DockerStatContainerMetricsView;

    closed spec fn view(&self) -> DockerStatContainerMetricsView {
        DockerStatContainerMetricsView {
            id: self.id@,
            cpu_usage: self.cpu_usage,
            mem_usage: self.mem_usage,
            mem_limit: self.mem_limit,
            net_in: self.net_in,
            net_out: self.net_out,
            net_in_bps: self.net_in_bps,
            net_out_bps: self.net_out_bps,
            blk_in: self.blk_in,
            blk_out: self.blk_out,
            blk_in_byteps: self.blk_in_byteps,
            blk_out_byteps: self.blk_out_byteps,
        }
    }
}

/// The gauge values that a container's figures give.
pub open spec fn metrics_of(stat: DockerContainerStatView) -> DockerStatContainerMetricsView {
    DockerStatContainerMetricsView {
        id: stat.id,
        cpu_usage: stat.cpu_usage,
        mem_usage: stat.mem_usage,
        mem_limit: stat.mem_limit,
        net_in: stat.net_in,
        net_out: stat.net_out,
        net_in_bps: stat.net_in_bps,
        net_out_bps: stat.net_out_bps,
        blk_in: stat.blk_in,
        blk_out: stat.blk_out,
        blk_in_byteps: stat.blk_in_byteps,
        blk_out_byteps: stat.blk_out_byteps,
    }
}

/// The value of the `id` label of a container: the path of its control
/// group.
pub open spec fn scope_of(id: Seq<char>) -> Seq<char> {
    "/system.slice/docker-"@ + id + ".scope"@
}

/// The labels of a container's gauges: `id`, then `name`.
pub open spec fn labels_of(id: Seq<char>, name: Seq<char>) -> Seq<LabelView> {
    seq![
        LabelView { name: "id"@, value: scope_of(id) },
        LabelView { name: "name"@, value: name },
    ]
}

/// A gauge of a whole number of bytes.
pub open spec fn bytes_gauge(name: Seq<char>, help: Seq<char>, value: u64) -> GaugeDescriptorView {
    GaugeDescriptorView {
        name,
        help,
        unit: Some(MetricUnit::Bytes),
        value: GaugeValue::Count(value),
    }
}

/// A gauge of a rate, without a unit.
pub open spec fn rate_gauge(name: Seq<char>, help: Seq<char>, value: Rate) -> GaugeDescriptorView {
    GaugeDescriptorView { name, help, unit: None, value: GaugeValue::Ratio(value) }
}

/// The fixed set of gauges of one container, in the order in which they are
/// registered.
pub open spec fn gauges_of(m: DockerStatContainerMetricsView) -> Seq<GaugeDescriptorView> {
    seq![
        GaugeDescriptorView {
            name: "cpu_usage"@,
            help: "Value of container logical CPU usage"@,
            unit: Some(MetricUnit::Ratios),
            value: GaugeValue::Ratio(m.cpu_usage),
        },
        bytes_gauge("memory_usage"@, "Value of container memory usage in bytes"@, m.mem_usage),
        bytes_gauge(
            "memory_limit"@,
            "Value of container memory limitation in bytes"@,
            m.mem_limit,
        ),
        bytes_gauge(
            "network_receive_bytes"@,
            "Value of container received data from network data in bytes"@,
            m.net_in,
        ),
        bytes_gauge(
            "network_transmit_bytes"@,
            "Value of container sent data from network in bytes"@,
            m.net_out,
        ),
        bytes_gauge(
            "blkio_receive_bytes"@,
            "Value of container read data from blkio in bytes"@,
            m.blk_in,
        ),
        bytes_gauge(
            "blkio_transmit_bytes"@,
            "Value of container write data to blkio in bytes"@,
            m.blk_out,
        ),
        rate_gauge(
            "network_receive_bps"@,
            "Value of container network receive throughput in bps"@,
            m.net_in_bps,
        ),
        rate_gauge(
            "network_transmit_bps"@,
            "Value of container network sent throughput in bps"@,
            m.net_out_bps,
        ),
        rate_gauge(
            "blkio_receive_bps"@,
            "Value of container blkio receive throughput in byte per second"@,
            m.blk_in_byteps,
        ),
        rate_gauge(
            "blkio_transmit_bps"@,
            "Value of container blkio sent throughput in byte per second"@,
            m.blk_out_byteps,
        ),
    ]
}

/// The sub-registry of one container: its labels and its gauges.
pub open spec fn sub_registry_of(
    m: DockerStatContainerMetricsView,
    name: Seq<char>,
) -> SubRegistryView {
    SubRegistryView { labels: labels_of(m.id, name), gauges: gauges_of(m) }
}

/// A gauge of a whole number of bytes.
fn make_bytes_gauge(name: &str, help: &str, value: u64) -> (r: GaugeDescriptor)
    ensures
        r@ == bytes_gauge(name@, help@, value),
{
    GaugeDescriptor {
        name: name.to_owned(),
        help: help.to_owned(),
        unit: Some(MetricUnit::Bytes),
        value: GaugeValue::Count(value),
    }
}

/// A gauge of a rate, without a unit.
fn make_rate_gauge(name: &str, help: &str, value: Rate) -> (r: GaugeDescriptor)
    ensures
        r@ == rate_gauge(name@, help@, value),
{
    GaugeDescriptor {
        name: name.to_owned(),
        help: help.to_owned(),
        unit: None,
        value: GaugeValue::Ratio(value),
    }
}

impl Default for DockerStatContainerMetrics {
    /// The gauges of a container without an id, every value zero.
    fn default() -> (r: Self)
        ensures
            r@ == metrics_of(empty_stat(Seq::<char>::empty(), Seq::<char>::empty())),
    {
        DockerStatContainerMetrics {
            id: String::new(),
            cpu_usage: Rate::zero(),
            mem_usage: 0,
            mem_limit: 0,
            net_in: 0,
            net_out: 0,
            net_in_bps: Rate::zero(),
            net_out_bps: Rate::zero(),
            blk_in: 0,
            blk_out: 0,
            blk_in_byteps: Rate::zero(),
            blk_out_byteps: Rate::zero(),
        }
    }
}

impl DockerStatContainerMetrics {
    /// The gauges of the container `id`, every value zero.
    pub fn new(id: &str) -> (r: Self)
        ensures
            r@ == metrics_of(empty_stat(id@, Seq::<char>::empty())),
    {
        let mut metrics = DockerStatContainerMetrics::default();
        metrics.id = id.to_owned();
        metrics
    }

    /// The id of the container whose gauges these are.
    pub fn id(&self) -> (r: &str)
        ensures
            r@ == self@.id,
    {
        self.id.as_str()
    }

    /// The gauges of a container, set to its figures.
    pub fn of_stat(stat: &DockerContainerStat) -> (r: Self)
        ensures
            r@ == metrics_of(stat@),
    {
        let mut metrics = DockerStatContainerMetrics::new(stat.id.as_str());
        metrics.cpu_usage = stat.cpu_usage;
        metrics.mem_usage = stat.mem_usage;
        metrics.mem_limit = stat.mem_limit;
        metrics.net_in = stat.net_in;
        metrics.net_out = stat.net_out;
        metrics.net_in_bps = stat.net_in_bps;
        metrics.net_out_bps = stat.net_out_bps;
        metrics.blk_in = stat.blk_in;
        metrics.blk_out = stat.blk_out;
        metrics.blk_in_byteps = stat.blk_in_byteps;
        metrics.blk_out_byteps = stat.blk_out_byteps;
        metrics
    }

    /// The labels that tell the container's gauges from those of others.
    fn labels(&self, name: &str) -> (r: Vec<Label>)
        ensures
            views(r@) == labels_of(self@.id, name@),
    {
        let mut scope: String = "/system.slice/docker-".to_owned();
        scope.append(self.id.as_str());
        scope.append(".scope");
        let mut labels: Vec<Label> = Vec::new();
        labels.push(Label { name: "id".to_owned(), value: scope });
        labels.push(Label { name: "name".to_owned(), value: name.to_owned() });
        proof {
            assert(views(labels@) =~= labels_of(self@.id, name@));
        }
        labels
    }

    /// The container's gauges, in the order in which they are registered.
    fn gauges(&self) -> (r: Vec<GaugeDescriptor>)
        ensures
            views(r@) == gauges_of(self@),
    {
        let mut gauges: Vec<GaugeDescriptor> = Vec::new();
        gauges.push(
            GaugeDescriptor {
                name: "cpu_usage".to_owned(),
                help: "Value of container logical CPU usage".to_owned(),
                unit: Some(MetricUnit::Ratios),
                value: GaugeValue::Ratio(self.cpu_usage),
            },
        );
        gauges.push(
            make_bytes_gauge(
                "memory_usage",
                "Value of container memory usage in bytes",
                self.mem_usage,
            ),
        );
        gauges.push(
            make_bytes_gauge(
                "memory_limit",
                "Value of container memory limitation in bytes",
                self.mem_limit,
            ),
        );
        gauges.push(
            make_bytes_gauge(
                "network_receive_bytes",
                "Value of container received data from network data in bytes",
                self.net_in,
            ),
        );
        gauges.push(
            make_bytes_gauge(
                "network_transmit_bytes",
                "Value of container sent data from network in bytes",
                self.net_out,
            ),
        );
        gauges.push(
            make_bytes_gauge(
                "blkio_receive_bytes",
                "Value of container read data from blkio in bytes",
                self.blk_in,
            ),
        );
        gauges.push(
            make_bytes_gauge(
                "blkio_transmit_bytes",
                "Value of container write data to blkio in bytes",
                self.blk_out,
            ),
        );
        gauges.push(
            make_rate_gauge(
                "network_receive_bps",
                "Value of container network receive throughput in bps",
                self.net_in_bps,
            ),
        );
        gauges.push(
            make_rate_gauge(
                "network_transmit_bps",
                "Value of container network sent throughput in bps",
                self.net_out_bps,
            ),
        );
        gauges.push(
            make_rate_gauge(
                "blkio_receive_bps",
                "Value of container blkio receive throughput in byte per second",
                self.blk_in_byteps,
            ),
        );
        gauges.push(
            make_rate_gauge(
                "blkio_transmit_bps",
                "Value of container blkio sent throughput in byte per second",
                self.blk_out_byteps,
            ),
        );
        proof {
            assert(views(gauges@) =~= gauges_of(self@));
        }
        gauges
    }

    /// Registers the container's gauges in `registry`, as a sub-registry of
    /// their own under the labels `id` and `name`.
    ///
    /// The `id` label holds the path of the container's control group, the
    /// `name` label holds `name`. What the registry held before stays, in
    /// front of the new sub-registry.
    pub fn register_as_sub_registry(&self, registry: &mut MetricsRegistry, name: &str)
        ensures
            final(registry)@.prefix == old(registry)@.prefix,
            final(registry)@.sub_registries == old(registry)@.sub_registries.push(
                sub_registry_of(self@, name@),
            ),
    {
        let sub = SubRegistry { labels: self.labels(name), gauges: self.gauges() };
        proof {
            lemma_views_push(registry.sub_registries@, sub);
        }
        registry.sub_registries.push(sub);
    }
}

/// A container's name as its gauges show it: without its first character,
/// the slash that the runtime puts in front of a name.
pub open spec fn display_name(name: Seq<char>) -> Seq<char> {
    if name.len() > 0 {
        name.subrange(1, name.len() as int)
    } else {
        name
    }
}

/// A container's name as its gauges show it.
pub fn display_name_of(name: &str) -> (r: String)
    ensures
        r@ == display_name(name@),
{
    let len: usize = name.unicode_len();
    if len > 0 {
        name.substring_char(1, len).to_owned()
    } else {
        name.to_owned()
    }
}

/// The registry of a snapshot's figures: one sub-registry per container, in
/// the order of the snapshot.
pub open spec fn registry_of(
    prefix: Seq<char>,
    stats: Seq<DockerContainerStatView>,
) -> MetricsRegistryView {
    MetricsRegistryView {
        prefix,
        sub_registries: Seq::new(
            stats.len(),
            |i: int| sub_registry_of(metrics_of(stats[i]), display_name(stats[i].name)),
        ),
    }
}

/// Registers the gauges of every container of a snapshot under `prefix`.
pub fn registry_for(prefix: &str, stats: &Vec<DockerContainerStat>) -> (r: MetricsRegistry)
    ensures
        r@ == registry_of(prefix@, views(stats@)),
{
    let mut registry = MetricsRegistry::with_prefix(prefix);
    let mut i: usize = 0;
    proof {
        assert(registry@.sub_registries =~= registry_of(
            prefix@,
            views(stats@).take(0),
        ).sub_registries);
    }
    while i < stats.len()
        invariant
            i <= stats.len(),
            registry@.prefix == prefix@,
            registry@.sub_registries == registry_of(
                prefix@,
                views(stats@).take(i as int),
            ).sub_registries,
        decreases stats.len() - i,
    {
        let metrics = DockerStatContainerMetrics::of_stat(&stats[i]);
        let shown = display_name_of(stats[i].name.as_str());
        metrics.register_as_sub_registry(&mut registry, shown.as_str());
        proof {
            assert(registry@.sub_registries =~= registry_of(
                prefix@,
                views(stats@).take(i + 1),
            ).sub_registries);
        }
        i += 1;
    }
    proof {
        lemma_views_take_all(stats@);
    }
    registry
}

} // verus!
