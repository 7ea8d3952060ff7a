//! The metric registry: a table of named metrics with stable identity.
//!
//! A metric is registered once, under a globally unique name, and then holds
//! one value slot per label tuple. Unlabeled metrics own exactly one slot from
//! the moment they are registered; labeled metrics gain a slot the first time
//! a label tuple is observed, and a slot, once created, is never removed —
//! a value missing from the latest scrape simply goes stale.

use vstd::prelude::*;

verus! {

/// How a metric's value may move: a gauge moves freely, a counter only upward.
#[derive(Clone, Copy, PartialEq, Eq, Structural)]
pub enum MetricKind {
    Gauge,
    Counter,
}

/// A metric value. Readings the daemon reports as integers keep their exact
/// integer; readings it reports as fractional numbers arrive as the caller's
/// decimal rendering and pass through to the exposition text unchanged.
pub enum Value {
    Int(u64),
    Text(String),
}

/// Mathematical image of a [`Value`].
pub enum ValueModel {
    Int(u64),
    Text(Seq<char>),
}

impl View for Value {
    type V = ValueModel;

    open spec fn view(&self) -> ValueModel {
        match self {
            Value::Int(n) => ValueModel::Int(*n),
            Value::Text(s) => ValueModel::Text(s@),
        }
    }
}

impl DeepView for Value {
    type V = ValueModel;

    open spec fn deep_view(&self) -> ValueModel {
        self.view()
    }
}

/// One value slot of a metric: a label tuple and the value last written to it.
pub struct Sample {
    pub labels: Vec<String>,
    pub value: Value,
}

/// Mathematical image of a [`Sample`].
#[verifier::ext_equal]
pub struct SampleModel {
    pub labels: Seq<Seq<char>>,
    pub value: ValueModel,
}

impl View for Sample {
    type V = SampleModel;

    open spec fn view(&self) -> SampleModel {
        SampleModel { labels: self.labels.deep_view(), value: self.value@ }
    }
}

impl DeepView for Sample {
    type V = SampleModel;

    open spec fn deep_view(&self) -> SampleModel {
        self.view()
    }
}

/// A registered metric: its immutable descriptor (name, help text, kind,
/// label-name schema) and the value slots written so far.
pub struct Metric {
    pub name: String,
    pub help: String,
    pub kind: MetricKind,
    pub label_names: Vec<String>,
    pub samples: Vec<Sample>,
}

/// Mathematical image of a [`Metric`].
#[verifier::ext_equal]
pub struct MetricModel {
    pub name: Seq<char>,
    pub help: Seq<char>,
    pub kind: MetricKind,
    pub label_names: Seq<Seq<char>>,
    pub samples: Seq<SampleModel>,
}

impl View for Metric {
    type V = MetricModel;

    open spec fn view(&self) -> MetricModel {
        MetricModel {
            name: self.name@,
            help: self.help@,
            kind: self.kind,
            label_names: self.label_names.deep_view(),
            samples: self.samples.deep_view(),
        }
    }
}

impl DeepView for Metric {
    type V = MetricModel;

    open spec fn deep_view(&self) -> MetricModel {
        self.view()
    }
}

/// Some metric in `r` bears the name `name`.
pub open spec fn has_name(r: Seq<MetricModel>, name: Seq<char>) -> bool {
    exists|i: int| 0 <= i < r.len() && r[i].name == name
}

/// Some sample in `samples` is keyed by the label tuple `labels`.
pub open spec fn has_labels(samples: Seq<SampleModel>, labels: Seq<Seq<char>>) -> bool {
    exists|i: int| 0 <= i < samples.len() && samples[i].labels == labels
}

/// No two samples share a label tuple.
pub open spec fn samples_distinct(samples: Seq<SampleModel>) -> bool {
    forall|i: int, j: int| 0 <= i < j < samples.len() ==> samples[i].labels != samples[j].labels
}

/// A single metric is internally consistent: label tuples are unique, each
/// tuple matches the label-name schema in width, an unlabeled metric owns
/// exactly one slot, and a counter is unlabeled and holds an integer.
pub open spec fn metric_wf(m: MetricModel) -> bool {
    &&& samples_distinct(m.samples)
    &&& forall|i: int|
        0 <= i < m.samples.len() ==> (#[trigger] m.samples[i]).labels.len()
            == m.label_names.len()
    &&& m.label_names.len() == 0 ==> m.samples.len() == 1 && m.samples[0].labels.len() == 0
    &&& m.kind is Counter ==> m.label_names.len() == 0 && m.samples[0].value is Int
}

/// The whole registry is consistent: metric names are unique and every metric
/// is itself well formed.
pub open spec fn registry_wf(r: Seq<MetricModel>) -> bool {
    &&& forall|i: int, j: int| 0 <= i < j < r.len() ==> r[i].name != r[j].name
    &&& forall|i: int| 0 <= i < r.len() ==> metric_wf(#[trigger] r[i])
}

/// Index of the first sample keyed by `labels`, or -1 when no sample is.
pub open spec fn first_with_labels(samples: Seq<SampleModel>, labels: Seq<Seq<char>>) -> int
    decreases samples.len(),
{
    if samples.len() == 0 {
        -1
    } else if samples[0].labels == labels {
        0
    } else {
        let rest = first_with_labels(samples.drop_first(), labels);
        if rest == -1 {
            -1
        } else {
            rest + 1
        }
    }
}

pub proof fn lemma_first_with_labels(samples: Seq<SampleModel>, labels: Seq<Seq<char>>)
    ensures
        first_with_labels(samples, labels) == -1 <==> !has_labels(samples, labels),
        first_with_labels(samples, labels) != -1 ==> 0 <= first_with_labels(samples, labels)
            < samples.len() && samples[first_with_labels(samples, labels)].labels == labels,
        forall|j: int|
            0 <= j < first_with_labels(samples, labels) ==> samples[j].labels != labels,
    decreases samples.len(),
{
    if samples.len() == 0 {
        assert(!has_labels(samples, labels));
    } else if samples[0].labels == labels {
        assert(has_labels(samples, labels));
    } else {
        let rest = samples.drop_first();
        lemma_first_with_labels(rest, labels);
        assert(forall|i: int| 0 <= i < rest.len() ==> rest[i] == samples[i + 1]);
        if first_with_labels(rest, labels) == -1 {
            assert(!has_labels(samples, labels)) by {
                if has_labels(samples, labels) {
                    let w = choose|i: int|
                        0 <= i < samples.len() && samples[i].labels == labels;
                    assert(w != 0);
                    assert(rest[w - 1].labels == labels);
                }
            }
        } else {
            let r = first_with_labels(rest, labels);
            assert(samples[r + 1].labels == labels);
            assert(has_labels(samples, labels));
            assert(forall|j: int|
                1 <= j < r + 1 ==> samples[j].labels == rest[j - 1].labels && samples[j].labels
                    != labels);
        }
    }
}

/// The slot for `labels` after a write of `v`: the existing slot updated in
/// place, or a new slot appended when the tuple is new.
pub open spec fn upsert_sample(
    samples: Seq<SampleModel>,
    labels: Seq<Seq<char>>,
    v: ValueModel,
) -> Seq<SampleModel> {
    let i = first_with_labels(samples, labels);
    if i == -1 {
        samples.push(SampleModel { labels, value: v })
    } else {
        samples.update(i, SampleModel { labels, value: v })
    }
}

/// The registry after a gauge write to metric `h` under `labels`.
pub open spec fn set_value(
    r: Seq<MetricModel>,
    h: int,
    labels: Seq<Seq<char>>,
    v: ValueModel,
) -> Seq<MetricModel> {
    r.update(h, MetricModel { samples: upsert_sample(r[h].samples, labels, v), ..r[h] })
}

/// A counter value after growing by `delta`, saturating at the top of `u64`.
pub open spec fn counter_plus(v: ValueModel, delta: u64) -> ValueModel {
    match v {
        ValueModel::Int(n) => ValueModel::Int(
            if n + delta > u64::MAX {
                u64::MAX
            } else {
                (n + delta) as u64
            },
        ),
        ValueModel::Text(t) => ValueModel::Text(t),
    }
}

/// The registry after counter `h` grows by `delta`.
pub open spec fn inc_value(r: Seq<MetricModel>, h: int, delta: u64) -> Seq<MetricModel> {
    r.update(
        h,
        MetricModel {
            samples: r[h].samples.update(
                0,
                SampleModel {
                    labels: r[h].samples[0].labels,
                    value: counter_plus(r[h].samples[0].value, delta),
                },
            ),
            ..r[h]
        },
    )
}

/// The metric a fresh registration yields: an unlabeled metric starts with
/// its single slot at zero, a labeled one with no slots at all.
pub open spec fn initial_metric(
    name: Seq<char>,
    help: Seq<char>,
    kind: MetricKind,
    label_names: Seq<Seq<char>>,
) -> MetricModel {
    MetricModel {
        name,
        help,
        kind,
        label_names,
        samples: if label_names.len() == 0 {
            seq![SampleModel { labels: seq![], value: ValueModel::Int(0) }]
        } else {
            seq![]
        },
    }
}

/// Registering a name that is already taken fails with this error.
#[derive(Debug)]
pub enum RegistryError {
    DuplicateName,
}

/// True exactly when the two vectors hold the same strings in the same order.
#[verifier::loop_isolation(false)]
pub fn labels_eq(a: &Vec<String>, b: &Vec<String>) -> (r: bool)
    ensures
        r == (a.deep_view() == b.deep_view()),
{
    if a.len() != b.len() {
        assert(a.deep_view().len() != b.deep_view().len());
        return false;
    }
    let n = a.len();
    let mut i: usize = 0;
    while i < n
        invariant
            0 <= i <= n,
            n == a@.len() == b@.len(),
            forall|j: int| 0 <= j < i ==> a.deep_view()[j] == b.deep_view()[j],
        decreases n - i,
    {
        if !(a[i] == b[i]) {
            assert(a.deep_view()[i as int] != b.deep_view()[i as int]);
            return false;
        }
        i += 1;
    }
    proof {
        assert(a.deep_view() =~= b.deep_view());
    }
    true
}

/// The process-wide table of metrics, read by the encoder and written by the
/// collectors. Its view is the ordered sequence of metric models.
pub struct Registry {
    metrics: Vec<Metric>,
}

impl View for Registry {
    type V = Seq<MetricModel>;

    closed spec fn view(&self) -> Seq<MetricModel> {
        self.metrics.deep_view()
    }
}

impl Registry {
    pub open spec fn wf(&self) -> bool {
        registry_wf(self@)
    }

    /// An empty registry.
    pub fn new() -> (r: Registry)
        ensures
            r@ == Seq::<MetricModel>::empty(),
            r.wf(),
    {
        let r = Registry { metrics: Vec::new() };
        proof {
            assert(r@ =~= Seq::<MetricModel>::empty());
        }
        r
    }

    /// How many metrics have been registered.
    pub fn len(&self) -> (n: usize)
        ensures
            n == self@.len(),
    {
        self.metrics.len()
    }

    /// Borrow the metric behind handle `i`.
    pub fn metric_at(&self, i: usize) -> (m: &Metric)
        requires
            i < self@.len(),
        ensures
            m@ == self@[i as int],
    {
        &self.metrics[i]
    }

    /// Register a new metric. Fails exactly when the name is already taken;
    /// otherwise the new metric is appended and its stable handle returned.
    #[verifier::loop_isolation(false)]
    pub fn register(
        &mut self,
        name: String,
        help: String,
        kind: MetricKind,
        label_names: Vec<String>,
    ) -> (res: Result<usize, RegistryError>)
        requires
            old(self).wf(),
            kind is Counter ==> label_names.deep_view().len() == 0,
        ensures
            final(self).wf(),
            match res {
                Ok(h) => {
                    &&& !has_name(old(self)@, name@)
                    &&& h == old(self)@.len()
                    &&& final(self)@ == old(self)@.push(
                        initial_metric(name@, help@, kind, label_names.deep_view()),
                    )
                },
                Err(e) => {
                    &&& e is DuplicateName
                    &&& has_name(old(self)@, name@)
                    &&& final(self)@ == old(self)@
                },
            },
    {
        let n = self.metrics.len();
        let mut i: usize = 0;
        while i < n
            invariant
                0 <= i <= n,
                n == self.metrics@.len(),
                forall|j: int| 0 <= j < i ==> self@[j].name != name@,
            decreases n - i,
        {
            if self.metrics[i].name == name {
                assert(self@[i as int].name == name@);
                return Err(RegistryError::DuplicateName);
            }
            assert(self@[i as int].name != name@);
            i += 1;
        }
        assert(!has_name(self@, name@));
        let samples: Vec<Sample> = if label_names.len() == 0 {
            let mut s: Vec<Sample> = Vec::new();
            s.push(Sample { labels: Vec::new(), value: Value::Int(0) });
            s
        } else {
            Vec::new()
        };
        let ghost prior = self@;
        let m = Metric { name, help, kind, label_names, samples };
        proof {
            assert(m@ =~~= initial_metric(name@, help@, kind, m.label_names.deep_view()));
        }
        self.metrics.push(m);
        proof {
            assert(self@ =~~= prior.push(m@));
            assert forall|a: int, b: int| 0 <= a < b < self@.len() implies self@[a].name
                != self@[b].name by {
                if b < prior.len() {
                } else {
                    assert(self@[b] == m@);
                    assert(!has_name(prior, name@));
                }
            }
            assert(metric_wf(m@));
        }
        Ok(n)
    }

    /// Write `value` to gauge `h` under the label tuple `labels`: the slot for
    /// that tuple is overwritten, or created when the tuple is new. No other
    /// metric and no other slot changes.
    #[verifier::loop_isolation(false)]
    pub fn set(&mut self, h: usize, labels: Vec<String>, value: Value)
        requires
            old(self).wf(),
            h < old(self)@.len(),
            old(self)@[h as int].kind is Gauge,
            labels.deep_view().len() == old(self)@[h as int].label_names.len(),
        ensures
            final(self).wf(),
            final(self)@ == set_value(old(self)@, h as int, labels.deep_view(), value@),
    {
        let ghost prior = self@;
        let ghost lmodel = labels.deep_view();
        let m = &mut self.metrics[h];
        let n = m.samples.len();
        let mut i: usize = 0;
        let mut hit: bool = false;
        while i < n && !hit
            invariant
                0 <= i <= n,
                n == m.samples@.len(),
                m@ == prior[h as int],
                hit ==> i < n && m@.samples[i as int].labels == lmodel,
                !hit ==> forall|j: int| 0 <= j < i ==> m@.samples[j].labels != lmodel,
            decreases n - i + (if hit { 0int } else { 1int }),
        {
            if labels_eq(&m.samples[i].labels, &labels) {
                hit = true;
            } else {
                i += 1;
            }
        }
        proof {
            lemma_first_with_labels(m@.samples, lmodel);
        }
        if hit {
            proof {
                assert(has_labels(m@.samples, lmodel));
                assert(first_with_labels(m@.samples, lmodel) == i) by {
                    let f = first_with_labels(m@.samples, lmodel);
                    assert(m@.samples[f].labels == lmodel);
                    assert(forall|j: int| 0 <= j < f ==> m@.samples[j].labels != lmodel);
                    assert(samples_distinct(m@.samples));
                    if f < i {
                        assert(m@.samples[f].labels != lmodel);
                    }
                    if f > i as int {
                        assert(m@.samples[i as int].labels != lmodel);
                    }
                }
            }
            m.samples[i] = Sample { labels, value };
            proof {
                assert(m@.samples =~~= upsert_sample(prior[h as int].samples, lmodel, value@));
            }
        } else {
            proof {
                assert(!has_labels(m@.samples, lmodel));
            }
            m.samples.push(Sample { labels, value });
            proof {
                assert(m@.samples =~~= upsert_sample(prior[h as int].samples, lmodel, value@));
            }
        }
        proof {
            assert(self@ =~~= set_value(prior, h as int, lmodel, value@));
            assert(registry_wf(self@)) by {
                assert forall|k: int| 0 <= k < self@.len() implies metric_wf(
                    #[trigger] self@[k],
                ) by {
                    if k == h as int {
                        lemma_upsert_wf(prior[h as int], lmodel, value@);
                    } else {
                        assert(self@[k] == prior[k]);
                    }
                }
                assert forall|a: int, b: int| 0 <= a < b < self@.len() implies self@[a].name
                    != self@[b].name by {
                    assert(self@[a].name == prior[a].name);
                    assert(self@[b].name == prior[b].name);
                }
            }
        }
    }

    /// Grow counter `h` by `delta`, saturating at the top of `u64`. The
    /// counter never moves down. No other metric changes.
    pub fn inc(&mut self, h: usize, delta: u64)
        requires
            old(self).wf(),
            h < old(self)@.len(),
            old(self)@[h as int].kind is Counter,
        ensures
            final(self).wf(),
            final(self)@ == inc_value(old(self)@, h as int, delta),
    {
        let ghost prior = self@;
        let m = &mut self.metrics[h];
        proof {
            assert(metric_wf(prior[h as int]));
            assert(m@.samples.len() == 1);
        }
        let cur: u64 = match &m.samples[0].value {
            Value::Int(v) => *v,
            Value::Text(_) => {
                proof {
                    assert(false);
                }
                0
            },
        };
        let next: u64 = if cur > u64::MAX - delta {
            u64::MAX
        } else {
            cur + delta
        };
        let labels: Vec<String> = Vec::new();
        proof {
            assert(m@.samples[0].labels =~~= labels.deep_view());
        }
        m.samples[0] = Sample { labels, value: Value::Int(next) };
        proof {
            assert(self@ =~~= inc_value(prior, h as int, delta));
            assert(registry_wf(self@)) by {
                assert forall|k: int| 0 <= k < self@.len() implies metric_wf(
                    #[trigger] self@[k],
                ) by {
                    if k != h as int {
                        assert(self@[k] == prior[k]);
                    }
                }
                assert forall|a: int, b: int| 0 <= a < b < self@.len() implies self@[a].name
                    != self@[b].name by {
                    assert(self@[a].name == prior[a].name);
                    assert(self@[b].name == prior[b].name);
                }
            }
        }
    }
}

/// A gauge write keeps the metric well formed: tuples stay unique, widths
/// stay right, and an unlabeled metric keeps its single slot.
pub proof fn lemma_upsert_wf(m: MetricModel, labels: Seq<Seq<char>>, v: ValueModel)
    requires
        metric_wf(m),
        m.kind is Gauge,
        labels.len() == m.label_names.len(),
    ensures
        metric_wf(MetricModel { samples: upsert_sample(m.samples, labels, v), ..m }),
{
    lemma_first_with_labels(m.samples, labels);
    let f = first_with_labels(m.samples, labels);
    if f == -1 {
        assert(!has_labels(m.samples, labels));
        let s2 = m.samples.push(SampleModel { labels, value: v });
        assert forall|i: int, j: int| 0 <= i < j < s2.len() implies s2[i].labels
            != s2[j].labels by {
            if j == s2.len() - 1 {
                assert(s2[i] == m.samples[i]);
                if m.samples[i].labels == labels {
                    assert(has_labels(m.samples, labels));
                }
            }
        }
        if m.label_names.len() == 0 {
            assert(m.samples[0].labels.len() == 0);
            assert(labels.len() == 0);
            assert(m.samples[0].labels =~= labels);
            assert(has_labels(m.samples, labels));
        }
    } else {
        let s2 = m.samples.update(f, SampleModel { labels, value: v });
        assert forall|i: int, j: int| 0 <= i < j < s2.len() implies s2[i].labels
            != s2[j].labels by {
            assert(m.samples[f].labels == labels);
        }
    }
}


/// `r2` keeps everything `r` has: as many metrics, at least as many samples
/// per metric, and every label tuple ever written still present.
pub open spec fn samples_preserved(r: Seq<MetricModel>, r2: Seq<MetricModel>) -> bool {
    &&& r2.len() == r.len()
    &&& forall|i: int| 0 <= i < r.len() ==> (#[trigger] r2[i]).samples.len() >= r[i].samples.len()
    &&& forall|i: int, ls: Seq<Seq<char>>|
        0 <= i < r.len() && #[trigger] has_labels(r[i].samples, ls) ==> has_labels(
            r2[i].samples,
            ls,
        )
}

/// Keeping everything is transitive.
pub proof fn lemma_samples_preserved_trans(
    r1: Seq<MetricModel>,
    r2: Seq<MetricModel>,
    r3: Seq<MetricModel>,
)
    requires
        samples_preserved(r1, r2),
        samples_preserved(r2, r3),
    ensures
        samples_preserved(r1, r3),
{
}

/// A gauge write keeps the whole registry well formed and removes nothing:
/// the written tuple's slot is updated or added, every other slot stays, and
/// the tuple itself is present afterwards.
pub proof fn lemma_set_value_preserves(
    r: Seq<MetricModel>,
    h: int,
    labels: Seq<Seq<char>>,
    v: ValueModel,
)
    requires
        registry_wf(r),
        0 <= h < r.len(),
        r[h].kind is Gauge,
        labels.len() == r[h].label_names.len(),
    ensures
        registry_wf(set_value(r, h, labels, v)),
        samples_preserved(r, set_value(r, h, labels, v)),
        has_labels(set_value(r, h, labels, v)[h].samples, labels),
{
    let r2 = set_value(r, h, labels, v);
    lemma_upsert_wf(r[h], labels, v);
    assert forall|a: int, b: int| 0 <= a < b < r2.len() implies r2[a].name != r2[b].name by {
        assert(r2[a].name == r[a].name);
        assert(r2[b].name == r[b].name);
    }
    assert forall|i: int| 0 <= i < r2.len() implies metric_wf(#[trigger] r2[i]) by {
        if i != h {
            assert(r2[i] == r[i]);
        }
    }
    let s = r[h].samples;
    let s2 = r2[h].samples;
    lemma_first_with_labels(s, labels);
    let f = first_with_labels(s, labels);
    if f == -1 {
        assert(s2 == s.push(SampleModel { labels, value: v }));
        assert(s2[s.len() as int].labels == labels);
        assert(has_labels(s2, labels));
        assert forall|ls: Seq<Seq<char>>| has_labels(s, ls) implies has_labels(s2, ls) by {
            let w = choose|k: int| 0 <= k < s.len() && s[k].labels == ls;
            assert(s2[w].labels == ls);
        }
    } else {
        assert(s[f].labels == labels);
        assert(s2 == s.update(f, SampleModel { labels, value: v }));
        assert(s2[f].labels == labels);
        assert(has_labels(s2, labels));
        assert forall|ls: Seq<Seq<char>>| has_labels(s, ls) implies has_labels(s2, ls) by {
            let w = choose|k: int| 0 <= k < s.len() && s[k].labels == ls;
            if w == f {
                assert(s2[f].labels == s[f].labels);
            }
            assert(s2[w].labels == ls);
        }
    }
    assert forall|i: int, ls: Seq<Seq<char>>|
        0 <= i < r.len() && #[trigger] has_labels(r[i].samples, ls) implies has_labels(
        r2[i].samples,
        ls,
    ) by {
        if i != h {
            assert(r2[i] == r[i]);
        }
    }
}

/// A counter bump keeps the registry well formed and removes nothing, and the
/// counter's value never moves down.
pub proof fn lemma_inc_value_preserves(r: Seq<MetricModel>, h: int, delta: u64)
    requires
        registry_wf(r),
        0 <= h < r.len(),
        r[h].kind is Counter,
    ensures
        registry_wf(inc_value(r, h, delta)),
        samples_preserved(r, inc_value(r, h, delta)),
        counter_plus(r[h].samples[0].value, delta) == inc_value(r, h, delta)[h].samples[0].value,
{
    let r2 = inc_value(r, h, delta);
    assert(metric_wf(r[h]));
    assert(r[h].samples.len() == 1);
    let s = r[h].samples;
    let s2 = r2[h].samples;
    assert(s2[0].labels == s[0].labels);
    assert forall|a: int, b: int| 0 <= a < b < r2.len() implies r2[a].name != r2[b].name by {
        assert(r2[a].name == r[a].name);
        assert(r2[b].name == r[b].name);
    }
    assert forall|i: int| 0 <= i < r2.len() implies metric_wf(#[trigger] r2[i]) by {
        if i != h {
            assert(r2[i] == r[i]);
        }
    }
    assert forall|i: int, ls: Seq<Seq<char>>|
        0 <= i < r.len() && #[trigger] has_labels(r[i].samples, ls) implies has_labels(
        r2[i].samples,
        ls,
    ) by {
        if i != h {
            assert(r2[i] == r[i]);
        } else {
            let w = choose|k: int| 0 <= k < s.len() && s[k].labels == ls;
            assert(w == 0);
            assert(s2[0].labels == ls);
        }
    }
}

} // verus!
