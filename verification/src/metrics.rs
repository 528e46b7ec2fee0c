use crate::hostcalls::MetricType;
use crate::status::Status;
use std::collections::HashMap;
use vstd::prelude::*;

verus! {

broadcast use vstd::std_specs::hash::group_hash_axioms;

/// The id under which `name` stands in `table`: that of the first entry
/// with the name, if there is one.
pub open spec fn spec_lookup(table: Seq<(String, u32)>, name: Seq<char>) -> Option<u32>
    decreases table.len(),
{
    if table.len() == 0 {
        None
    } else if table[0].0@ == name {
        Some(table[0].1)
    } else {
        spec_lookup(table.subrange(1, table.len() as int), name)
    }
}

/// Looking a name up in a table that has one more entry at its end: the
/// id that the shorter table has for the name, else that of the new entry
/// if it has the name.
proof fn lemma_lookup_push(table: Seq<(String, u32)>, entry: (String, u32), name: Seq<char>)
    ensures
        spec_lookup(table.push(entry), name) == match spec_lookup(table, name) {
            Some(id) => Some(id),
            None => if entry.0@ == name {
                Some(entry.1)
            } else {
                None
            },
        },
    decreases table.len(),
{
    let longer = table.push(entry);
    if table.len() == 0 {
        assert(longer.subrange(1, longer.len() as int) =~= Seq::<(String, u32)>::empty());
        assert(spec_lookup(longer.subrange(1, longer.len() as int), name) is None);
    } else {
        assert(longer[0] == table[0]);
        assert(longer.subrange(1, longer.len() as int) =~= table.subrange(
            1,
            table.len() as int,
        ).push(entry));
        lemma_lookup_push(table.subrange(1, table.len() as int), entry, name);
    }
}

/// The id under which `name` stands in `table`, if it does.
fn lookup(table: &Vec<(String, u32)>, name: &String) -> (r: Option<u32>)
    ensures
        r == spec_lookup(table@, name@),
{
    let mut i: usize = 0;
    assert(table@.subrange(0, table@.len() as int) =~= table@);
    while i < table.len()
        invariant
            i <= table@.len(),
            spec_lookup(table@, name@) == spec_lookup(
                table@.subrange(i as int, table@.len() as int),
                name@,
            ),
        decreases table@.len() - i,
    {
        let ghost rest = table@.subrange(i as int, table@.len() as int);
        assert(rest[0] == table@[i as int]);
        assert(rest.subrange(1, rest.len() as int) =~= table@.subrange(
            i + 1,
            table@.len() as int,
        ));
        if table[i].0 == *name {
            return Some(table[i].1);
        }
        i = i + 1;
    }
    assert(table@.subrange(i as int, table@.len() as int).len() == 0);
    None
}

/// The metrics that one root context has defined, by kind and name, each
/// with the id that the host gave for it.
pub struct MetricsInfo {
    counters: Vec<(String, u32)>,
    gauges: Vec<(String, u32)>,
    histograms: Vec<(String, u32)>,
}

impl MetricsInfo {
    /// The metrics of the kind `kind`, in the order of their definition.
    pub closed spec fn table(&self, kind: MetricType) -> Seq<(String, u32)> {
        match kind {
            MetricType::Counter => self.counters@,
            MetricType::Gauge => self.gauges@,
            MetricType::Histogram => self.histograms@,
        }
    }

    /// The id of the metric of the kind `kind` that was defined as `name`,
    /// if one was.
    pub open spec fn defined(&self, kind: MetricType, name: Seq<char>) -> Option<u32> {
        spec_lookup(self.table(kind), name)
    }

    /// No metric is defined.
    pub fn new() -> (r: Self)
        ensures
            forall|kind: MetricType| #[trigger] r.table(kind) == Seq::<(String, u32)>::empty(),
    {
        MetricsInfo { counters: Vec::new(), gauges: Vec::new(), histograms: Vec::new() }
    }

    /// The id of the metric of the kind `kind` that was defined as `name`,
    /// if one was.
    pub fn get(&self, kind: MetricType, name: &String) -> (r: Option<u32>)
        ensures
            r == self.defined(kind, name@),
    {
        match kind {
            MetricType::Counter => lookup(&self.counters, name),
            MetricType::Gauge => lookup(&self.gauges, name),
            MetricType::Histogram => lookup(&self.histograms, name),
        }
    }

    /// Records that the metric `name` of the kind `kind` is defined with
    /// the id `id`.
    pub fn insert(&mut self, kind: MetricType, name: String, id: u32)
        ensures
            final(self).table(kind) == old(self).table(kind).push((name, id)),
            forall|other: MetricType|
                other != kind ==> #[trigger] final(self).table(other) == old(self).table(other),
    {
        match kind {
            MetricType::Counter => self.counters.push((name, id)),
            MetricType::Gauge => self.gauges.push((name, id)),
            MetricType::Histogram => self.histograms.push((name, id)),
        }
    }

    /// The id of the metric `name` of the kind `kind`: the one it was
    /// defined with before, or else the one that the host, asked through
    /// `define_metric`, gives for it now, which is recorded. Where the
    /// host refuses, the id is 0, and that is recorded too.
    pub fn define<F: FnOnce(MetricType, &str) -> Result<u32, Status>>(
        &mut self,
        kind: MetricType,
        name: &str,
        define_metric: F,
    ) -> (r: u32)
        requires
            call_requires(define_metric, (kind, name)),
        ensures
            old(self).defined(kind, name@) matches Some(id) ==> r == id && forall|
                other: MetricType,
            | #[trigger] final(self).table(other) == old(self).table(other),
            old(self).defined(kind, name@) is None ==> exists|answer: Result<u32, Status>|
                #[trigger] call_ensures(define_metric, (kind, name), answer) && r == granted(
                    answer,
                ),
            old(self).defined(kind, name@) is None ==> {
                &&& final(self).table(kind).len() == old(self).table(kind).len() + 1
                &&& final(self).table(kind).last().0@ == name@
                &&& final(self).table(kind).last().1 == r
                &&& final(self).table(kind).drop_last() == old(self).table(kind)
                &&& forall|other: MetricType|
                    other != kind ==> #[trigger] final(self).table(other) == old(self).table(
                        other,
                    )
            },
            final(self).defined(kind, name@) == Some(r),
    {
        let owned = name.to_owned();
        if let Some(id) = self.get(kind, &owned) {
            return id;
        }
        let out = match define_metric(kind, name) {
            Ok(id) => id,
            Err(_) => 0,
        };
        proof {
            lemma_lookup_push(self.table(kind), (owned, out), name@);
        }
        self.insert(kind, owned, out);
        assert(self.table(kind).drop_last() =~= old(self).table(kind));
        out
    }
}

/// The id that a definition gives: the one in the host's answer, or 0
/// where it refused.
pub open spec fn granted(answer: Result<u32, Status>) -> u32 {
    match answer {
        Ok(id) => id,
        Err(_) => 0,
    }
}

/// The metrics that the root contexts of one instance have defined.
pub struct Metrics {
    roots: HashMap<u32, MetricsInfo>,
}

impl Metrics {
    /// Whether the root `root_id` has a record of its metrics.
    pub closed spec fn has(&self, root_id: u32) -> bool {
        self.roots@.contains_key(root_id)
    }

    /// The record of the metrics of the root `root_id`, if it has one.
    pub closed spec fn info(&self, root_id: u32) -> MetricsInfo {
        self.roots@[root_id]
    }

    /// The id of the metric of the kind `kind` that the root `root_id`
    /// defined as `name`, if it did.
    pub open spec fn defined(&self, root_id: u32, kind: MetricType, name: Seq<char>) -> Option<
        u32,
    > {
        if self.has(root_id) {
            self.info(root_id).defined(kind, name)
        } else {
            None
        }
    }

    /// No root has defined a metric.
    pub fn new() -> (r: Self)
        ensures
            forall|root_id: u32| !r.has(root_id),
    {
        Metrics { roots: HashMap::new() }
    }

    /// The id of the metric `name` of the kind `kind` for the root
    /// `root_id`: the one that the root defined it with before, or else
    /// the one that the host, asked through `define_metric`, gives for it
    /// now (0 where it refuses), which is recorded for the root. What
    /// other roots defined, and what this root defined under other names
    /// or kinds, stays.
    pub fn define<F: FnOnce(MetricType, &str) -> Result<u32, Status>>(
        &mut self,
        root_id: u32,
        kind: MetricType,
        name: &str,
        define_metric: F,
    ) -> (r: u32)
        requires
            call_requires(define_metric, (kind, name)),
        ensures
            old(self).defined(root_id, kind, name@) matches Some(id) ==> r == id,
            old(self).defined(root_id, kind, name@) is None ==> exists|
                answer: Result<u32, Status>,
            | #[trigger] call_ensures(define_metric, (kind, name), answer) && r == granted(answer),
            final(self).defined(root_id, kind, name@) == Some(r),
            forall|other: u32|
                other != root_id ==> final(self).has(other) == old(self).has(other) && (old(
                    self,
                ).has(other) ==> #[trigger] final(self).info(other) == old(self).info(other)),
    {
        let mut info = match self.roots.remove(&root_id) {
            Some(info) => info,
            None => MetricsInfo::new(),
        };
        let out = info.define(kind, name, define_metric);
        self.roots.insert(root_id, info);
        out
    }
}

/// Envoy counter metric handle.
#[derive(Clone, Copy, Debug)]
pub struct Counter(pub u32);

/// A counter known by its name, to be defined when it is first used.
pub struct ConstCounter {
    name: &'static str,
}

impl ConstCounter {
    /// The name of the counter.
    pub closed spec fn name(&self) -> &'static str {
        self.name
    }

    /// The counter with the given name.
    pub fn define(name: &'static str) -> (r: Self)
        ensures
            r.name() == name,
    {
        ConstCounter { name }
    }

    /// The handle of the counter, defined for the root `root_id` if it is
    /// not yet.
    pub fn get<F: FnOnce(MetricType, &str) -> Result<u32, Status>>(
        &self,
        metrics: &mut Metrics,
        root_id: u32,
        define_metric: F,
    ) -> (r: Counter)
        requires
            call_requires(define_metric, (MetricType::Counter, self.name())),
        ensures
            old(metrics).defined(root_id, MetricType::Counter, self.name()@) matches Some(id)
                ==> r.0 == id,
            final(metrics).defined(root_id, MetricType::Counter, self.name()@) == Some(r.0),
    {
        Counter::define(metrics, root_id, self.name, define_metric)
    }
}

impl Counter {
    /// Defines a new counter, reusing an old handle if it already exists.
    /// It is safe to call this multiple times with the same name.
    pub fn define<F: FnOnce(MetricType, &str) -> Result<u32, Status>>(
        metrics: &mut Metrics,
        root_id: u32,
        name: &str,
        define_metric: F,
    ) -> (r: Self)
        requires
            call_requires(define_metric, (MetricType::Counter, name)),
        ensures
            old(metrics).defined(root_id, MetricType::Counter, name@) matches Some(id) ==> r.0
                == id,
            old(metrics).defined(root_id, MetricType::Counter, name@) is None ==> exists|
                answer: Result<u32, Status>,
            |
                #[trigger] call_ensures(define_metric, (MetricType::Counter, name), answer) && r.0
                    == granted(answer),
            final(metrics).defined(root_id, MetricType::Counter, name@) == Some(r.0),
    {
        Counter(metrics.define(root_id, MetricType::Counter, name, define_metric))
    }

    /// Retrieves the current metric value, through `get_metric`.
    pub fn get<F: FnOnce(u32) -> Result<u64, Status>>(&self, get_metric: F) -> (r: Result<
        u64,
        Status,
    >)
        requires
            call_requires(get_metric, (self.0,)),
        ensures
            call_ensures(get_metric, (self.0,), r),
    {
        get_metric(self.0)
    }

    /// Records an absolute count of this metric, through `record_metric`,
    /// and hands the answer of the host back.
    pub fn record<F: FnOnce(u32, u64) -> Result<(), Status>>(
        &self,
        value: u64,
        record_metric: F,
    ) -> (r: Result<(), Status>)
        requires
            call_requires(record_metric, (self.0, value)),
        ensures
            call_ensures(record_metric, (self.0, value), r),
    {
        record_metric(self.0, value)
    }

    /// Increments the count of this metric by `offset`, through
    /// `increment_metric`, and hands the answer of the host back.
    pub fn increment<F: FnOnce(u32, i64) -> Result<(), Status>>(
        &self,
        offset: i64,
        increment_metric: F,
    ) -> (r: Result<(), Status>)
        requires
            call_requires(increment_metric, (self.0, offset)),
        ensures
            call_ensures(increment_metric, (self.0, offset), r),
    {
        increment_metric(self.0, offset)
    }
}

/// Envoy gauge metric handle.
#[derive(Clone, Copy, Debug)]
pub struct Gauge(pub u32);

/// A gauge known by its name, to be defined when it is first used.
pub struct ConstGauge {
    name: &'static str,
}

impl ConstGauge {
    /// The name of the gauge.
    pub closed spec fn name(&self) -> &'static str {
        self.name
    }

    /// The gauge with the given name.
    pub fn define(name: &'static str) -> (r: Self)
        ensures
            r.name() == name,
    {
        ConstGauge { name }
    }

    /// The handle of the gauge, defined for the root `root_id` if it is
    /// not yet.
    pub fn get<F: FnOnce(MetricType, &str) -> Result<u32, Status>>(
        &self,
        metrics: &mut Metrics,
        root_id: u32,
        define_metric: F,
    ) -> (r: Gauge)
        requires
            call_requires(define_metric, (MetricType::Gauge, self.name())),
        ensures
            old(metrics).defined(root_id, MetricType::Gauge, self.name()@) matches Some(id) ==> r.0
                == id,
            final(metrics).defined(root_id, MetricType::Gauge, self.name()@) == Some(r.0),
    {
        Gauge::define(metrics, root_id, self.name, define_metric)
    }
}

impl Gauge {
    /// Defines a new gauge, reusing an old handle if it already exists. It
    /// is safe to call this multiple times with the same name.
    pub fn define<F: FnOnce(MetricType, &str) -> Result<u32, Status>>(
        metrics: &mut Metrics,
        root_id: u32,
        name: &str,
        define_metric: F,
    ) -> (r: Self)
        requires
            call_requires(define_metric, (MetricType::Gauge, name)),
        ensures
            old(metrics).defined(root_id, MetricType::Gauge, name@) matches Some(id) ==> r.0 == id,
            old(metrics).defined(root_id, MetricType::Gauge, name@) is None ==> exists|
                answer: Result<u32, Status>,
            |
                #[trigger] call_ensures(define_metric, (MetricType::Gauge, name), answer) && r.0
                    == granted(answer),
            final(metrics).defined(root_id, MetricType::Gauge, name@) == Some(r.0),
    {
        Gauge(metrics.define(root_id, MetricType::Gauge, name, define_metric))
    }

    /// Retrieves the current metric value, through `get_metric`.
    pub fn get<F: FnOnce(u32) -> Result<u64, Status>>(&self, get_metric: F) -> (r: Result<
        u64,
        Status,
    >)
        requires
            call_requires(get_metric, (self.0,)),
        ensures
            call_ensures(get_metric, (self.0,), r),
    {
        get_metric(self.0)
    }

    /// Records an absolute value of this metric, through `record_metric`,
    /// and hands the answer of the host back.
    pub fn record<F: FnOnce(u32, u64) -> Result<(), Status>>(
        &self,
        value: u64,
        record_metric: F,
    ) -> (r: Result<(), Status>)
        requires
            call_requires(record_metric, (self.0, value)),
        ensures
            call_ensures(record_metric, (self.0, value), r),
    {
        record_metric(self.0, value)
    }

    /// Changes the value of this metric by `offset`, through
    /// `increment_metric`, and hands the answer of the host back.
    pub fn increment<F: FnOnce(u32, i64) -> Result<(), Status>>(
        &self,
        offset: i64,
        increment_metric: F,
    ) -> (r: Result<(), Status>)
        requires
            call_requires(increment_metric, (self.0, offset)),
        ensures
            call_ensures(increment_metric, (self.0, offset), r),
    {
        increment_metric(self.0, offset)
    }
}

/// Envoy histogram metric handle.
#[derive(Clone, Copy, Debug)]
pub struct Histogram(pub u32);

/// A histogram known by its name, to be defined when it is first used.
pub struct ConstHistogram {
    name: &'static str,
}

impl ConstHistogram {
    /// The name of the histogram.
    pub closed spec fn name(&self) -> &'static str {
        self.name
    }

    /// The histogram with the given name.
    pub fn define(name: &'static str) -> (r: Self)
        ensures
            r.name() == name,
    {
        ConstHistogram { name }
    }

    /// The handle of the histogram, defined for the root `root_id` if it
    /// is not yet.
    pub fn get<F: FnOnce(MetricType, &str) -> Result<u32, Status>>(
        &self,
        metrics: &mut Metrics,
        root_id: u32,
        define_metric: F,
    ) -> (r: Histogram)
        requires
            call_requires(define_metric, (MetricType::Histogram, self.name())),
        ensures
            old(metrics).defined(root_id, MetricType::Histogram, self.name()@) matches Some(id)
                ==> r.0 == id,
            final(metrics).defined(root_id, MetricType::Histogram, self.name()@) == Some(r.0),
    {
        Histogram::define(metrics, root_id, self.name, define_metric)
    }
}

impl Histogram {
    /// Defines a new histogram, reusing an old handle if it already
    /// exists. It is safe to call this multiple times with the same name.
    pub fn define<F: FnOnce(MetricType, &str) -> Result<u32, Status>>(
        metrics: &mut Metrics,
        root_id: u32,
        name: &str,
        define_metric: F,
    ) -> (r: Self)
        requires
            call_requires(define_metric, (MetricType::Histogram, name)),
        ensures
            old(metrics).defined(root_id, MetricType::Histogram, name@) matches Some(id) ==> r.0
                == id,
            old(metrics).defined(root_id, MetricType::Histogram, name@) is None ==> exists|
                answer: Result<u32, Status>,
            |
                #[trigger] call_ensures(define_metric, (MetricType::Histogram, name), answer)
                    && r.0 == granted(answer),
            final(metrics).defined(root_id, MetricType::Histogram, name@) == Some(r.0),
    {
        Histogram(metrics.define(root_id, MetricType::Histogram, name, define_metric))
    }

    /// Records a new item for this histogram, through `record_metric`, and
    /// hands the answer of the host back.
    pub fn record<F: FnOnce(u32, u64) -> Result<(), Status>>(
        &self,
        value: u64,
        record_metric: F,
    ) -> (r: Result<(), Status>)
        requires
            call_requires(record_metric, (self.0, value)),
        ensures
            call_ensures(record_metric, (self.0, value), r),
    {
        record_metric(self.0, value)
    }
}

} // verus!
