//! The counters that the tailers feed.
//!
//! There are two families of counters, one for requests (lines of access
//! logs) and one for errors (lines of error logs). In each family a counter
//! stands under the label `file`, whose value is the label of the log file.
//! A counter comes into being at zero when its file is discovered, so that a
//! file without lines is told apart from a file that is not followed at all.

use prometheus_client::encoding::text::encode;
use prometheus_client::metrics::counter::Counter;
use prometheus_client::metrics::family::Family;
use prometheus_client::registry::Registry;
use vstd::prelude::*;

use crate::log_file_watcher::LogFileKind;
use crate::log_file_watcher::LogFileMetadata;
use crate::log_file_watcher::PreparedFile;

verus! {

#[verifier::external_type_specification]
#[verifier::external_body]
pub struct ExRegistry(prometheus_client::registry::Registry);

/// A family of counters of `prometheus_client`, keyed by a set of one label.
#[verifier::external_body]
pub struct CounterFamily {
    family: Family<[(&'static str, String); 1], Counter>,
}

/// The counters of a family and their values, each under the name and value
/// of its label.
pub uninterp spec fn family_counts(family: CounterFamily) -> Map<(Seq<char>, Seq<char>), u64>;

/// The key under which a label set stands in its family.
pub open spec fn label_key(label_set: [(&'static str, String); 1]) -> (Seq<char>, Seq<char>) {
    (label_set@[0].0@, label_set@[0].1@)
}

/// The key of the counter of the file with the given label.
pub open spec fn file_key(label: Seq<char>) -> (Seq<char>, Seq<char>) {
    ("file"@, label)
}

/// The value of the counter under `key`; a counter that does not exist yet
/// counts as zero.
pub open spec fn count_at(counts: Map<(Seq<char>, Seq<char>), u64>, key: (Seq<char>, Seq<char>)) -> u64 {
    if counts.contains_key(key) {
        counts[key]
    } else {
        0
    }
}

/// The value of a counter after one increment. A counter holds 64 bits and
/// starts again at zero after its highest value.
pub open spec fn bumped(value: u64) -> u64 {
    if value == u64::MAX {
        0
    } else {
        (value + 1) as u64
    }
}

/// The counters of a family after the files with the given labels were
/// registered one after the other: each label's counter exists, with the
/// value it had, or zero where it is new.
pub open spec fn registered_all(counts: Map<(Seq<char>, Seq<char>), u64>, labels: Seq<Seq<char>>) -> Map<
    (Seq<char>, Seq<char>),
    u64,
>
    decreases labels.len(),
{
    if labels.len() == 0 {
        counts
    } else {
        let front = registered_all(counts, labels.drop_last());
        front.insert(file_key(labels.last()), count_at(front, file_key(labels.last())))
    }
}

/// The labels of prepared files, in their order.
pub open spec fn labels_of(files: Seq<PreparedFile>) -> Seq<Seq<char>> {
    files.map_values(|f: PreparedFile| f.metadata.label@)
}

/// No counter at all.
pub open spec fn no_counts() -> Map<(Seq<char>, Seq<char>), u64> {
    Map::empty()
}

/// Makes a family with `Family::default`: it holds no counter.
#[verifier::external_body]
pub(crate) fn new_family() -> (r: CounterFamily)
    ensures
        family_counts(r) == no_counts(),
{
    CounterFamily { family: Family::default() }
}

/// The names under which metrics stand in a registry, in the order in
/// which they were registered.
pub uninterp spec fn registered_names(registry: Registry) -> Seq<Seq<char>>;

/// Makes a registry with `Registry::default`: nothing is registered in it.
#[verifier::external_body]
pub(crate) fn new_registry() -> (r: Registry)
    ensures
        registered_names(r) == Seq::<Seq<char>>::empty(),
{
    <Registry>::default()
}

/// Calls `Registry::register` with a clone of the family, which shares the
/// family's counters. The registry puts the metric behind those it holds,
/// under the name as it was given.
#[verifier::external_body]
pub(crate) fn register_family(registry: &mut Registry, name: &str, help: &str, family: &CounterFamily)
    ensures
        registered_names(*final(registry)) == registered_names(*old(registry)).push(name@),
{
    registry.register(name, help, family.family.clone());
}

/// Calls `Family::get_or_create` and lets the counter go again. Where the
/// family holds no counter under the label set, one is made with
/// `Counter::default`, at zero; a counter that exists is left as it is.
#[verifier::external_body]
pub(crate) fn get_or_create(family: &mut CounterFamily, label_set: &[(&'static str, String); 1])
    ensures
        family_counts(*final(family)) == family_counts(*old(family)).insert(
            label_key(*label_set),
            count_at(family_counts(*old(family)), label_key(*label_set)),
        ),
{
    let _ = family.family.get_or_create(label_set);
}

/// Calls `Family::get_or_create` and `Counter::inc` on the counter it
/// returns. The counter under the label set, made at zero where it did not
/// exist, goes up by one (an atomic addition that wraps around after
/// `u64::MAX`); its value before is returned. No other counter changes.
#[verifier::external_body]
pub(crate) fn increment(family: &mut CounterFamily, label_set: &[(&'static str, String); 1]) -> (previous:
    u64)
    ensures
        previous == count_at(family_counts(*old(family)), label_key(*label_set)),
        family_counts(*final(family)) == family_counts(*old(family)).insert(
            label_key(*label_set),
            bumped(previous),
        ),
{
    family.family.get_or_create(label_set).inc()
}

/// Calls `prometheus_client::encoding::text::encode` into a new string and
/// returns the string, or `None` where the encoder reports an error. The
/// text shows the counters as they stand at the time of the call, so nothing
/// is claimed of it.
#[verifier::external_body]
pub(crate) fn encode_registry(registry: &Registry) -> Option<String> {
    let mut buf = String::new();
    match encode(&mut buf, registry) {
        Ok(()) => Some(buf),
        Err(_) => None,
    }
}

/// The two families of counters.
pub struct Metrics {
    pub requests_total: CounterFamily,
    pub errors_total: CounterFamily,
}

impl Metrics {
    /// The request counters and their values.
    pub open spec fn requests(self) -> Map<(Seq<char>, Seq<char>), u64> {
        family_counts(self.requests_total)
    }

    /// The error counters and their values.
    pub open spec fn errors(self) -> Map<(Seq<char>, Seq<char>), u64> {
        family_counts(self.errors_total)
    }

    /// The counters of the given kind.
    pub open spec fn of_kind(self, kind: LogFileKind) -> Map<(Seq<char>, Seq<char>), u64> {
        match kind {
            LogFileKind::Access => self.requests(),
            LogFileKind::Error => self.errors(),
        }
    }

    /// Makes the two families, empty, and a registry that exposes them as
    /// `apache_requests` and `apache_errors`.
    pub fn new() -> (r: (Registry, Metrics))
        ensures
            r.1.requests() == no_counts(),
            r.1.errors() == no_counts(),
            registered_names(r.0) == seq!["apache_requests"@, "apache_errors"@],
    {
        let mut registry = new_registry();
        let metrics = Metrics { requests_total: new_family(), errors_total: new_family() };
        register_family(
            &mut registry,
            "apache_requests",
            "Number of received requests",
            &metrics.requests_total,
        );
        register_family(
            &mut registry,
            "apache_errors",
            "Number of logged errors",
            &metrics.errors_total,
        );
        (registry, metrics)
    }

    /// Makes sure that both counters of a discovered file exist. A counter
    /// that is new stands at zero; one that exists keeps its value, and no
    /// other counter changes.
    pub fn register_file(&mut self, metadata: &LogFileMetadata)
        ensures
            final(self).requests() == old(self).requests().insert(
                file_key(metadata.label@),
                count_at(old(self).requests(), file_key(metadata.label@)),
            ),
            final(self).errors() == old(self).errors().insert(
                file_key(metadata.label@),
                count_at(old(self).errors(), file_key(metadata.label@)),
            ),
    {
        let label_set = metadata.get_label_set();
        get_or_create(&mut self.requests_total, &label_set);
        get_or_create(&mut self.errors_total, &label_set);
    }

    /// Makes sure that both counters of every one of the files exist: after
    /// the call each file's label stands in both families, a counter that
    /// is new at zero, one that existed with its value, and no value has
    /// changed.
    pub fn register_files(&mut self, files: &Vec<PreparedFile>)
        ensures
            final(self).requests() == registered_all(old(self).requests(), labels_of(files@)),
            final(self).errors() == registered_all(old(self).errors(), labels_of(files@)),
    {
        let ghost labels = labels_of(files@);
        let mut i: usize = 0;
        assert(labels.take(0) =~= Seq::empty());
        while i < files.len()
            invariant
                i <= files.len(),
                labels == labels_of(files@),
                self.requests() == registered_all(old(self).requests(), labels.take(i as int)),
                self.errors() == registered_all(old(self).errors(), labels.take(i as int)),
            decreases files.len() - i,
        {
            proof {
                assert(labels.take(i + 1).drop_last() == labels.take(i as int));
                assert(labels.take(i + 1).last() == files@[i as int].metadata.label@);
            }
            self.register_file(&files[i].metadata);
            i += 1;
        }
        proof {
            assert(labels.take(files.len() as int) == labels);
        }
    }

    /// Counts one line of the file: the counter of the file's kind and label
    /// goes up by one, from zero where it did not exist, and every other
    /// counter stays as it is. Returns the counter's value before.
    pub fn record_line(&mut self, metadata: &LogFileMetadata) -> (previous: u64)
        ensures
            previous == count_at(old(self).of_kind(metadata.kind), file_key(metadata.label@)),
            final(self).of_kind(metadata.kind) == old(self).of_kind(metadata.kind).insert(
                file_key(metadata.label@),
                bumped(previous),
            ),
            metadata.kind == LogFileKind::Access ==> final(self).errors() == old(self).errors(),
            metadata.kind == LogFileKind::Error ==> final(self).requests() == old(self).requests(),
    {
        let label_set = metadata.get_label_set();
        match metadata.kind {
            LogFileKind::Access => increment(&mut self.requests_total, &label_set),
            LogFileKind::Error => increment(&mut self.errors_total, &label_set),
        }
    }
}

/// Recording a line raises the file's counter by exactly one, unless the
/// counter stood at its highest value, and changes the value of no other
/// counter.
pub proof fn recording_changes_one_counter(
    before: Map<(Seq<char>, Seq<char>), u64>,
    key: (Seq<char>, Seq<char>),
    other: (Seq<char>, Seq<char>),
)
    requires
        other != key,
    ensures
        count_at(before, key) < u64::MAX ==> count_at(
            before.insert(key, bumped(count_at(before, key))),
            key,
        ) == count_at(before, key) + 1,
        count_at(before.insert(key, bumped(count_at(before, key))), other) == count_at(
            before,
            other,
        ),
        before.contains_key(other) <==> before.insert(key, bumped(count_at(before, key))).contains_key(
            other,
        ),
{
}

/// Registering files creates the counter of every one of them, changes no
/// value, and creates no counter besides theirs.
pub proof fn registering_keeps_every_value(
    before: Map<(Seq<char>, Seq<char>), u64>,
    labels: Seq<Seq<char>>,
)
    ensures
        forall|i: int|
            0 <= i < labels.len() ==> registered_all(before, labels).contains_key(
                file_key(#[trigger] labels[i]),
            ),
        forall|key: (Seq<char>, Seq<char>)|
            count_at(#[trigger] registered_all(before, labels), key) == count_at(before, key),
        forall|key: (Seq<char>, Seq<char>)| #[trigger]
            registered_all(before, labels).contains_key(key) ==> before.contains_key(key) || exists|
                i: int,
            |
                0 <= i < labels.len() && key == file_key(#[trigger] labels[i]),
    decreases labels.len(),
{
    if labels.len() > 0 {
        let front = labels.drop_last();
        registering_keeps_every_value(before, front);
        let mid = registered_all(before, front);
        let after = registered_all(before, labels);
        assert forall|i: int| 0 <= i < labels.len() implies after.contains_key(
            file_key(#[trigger] labels[i]),
        ) by {
            if i < front.len() {
                assert(front[i] == labels[i]);
            }
        }
        assert forall|key: (Seq<char>, Seq<char>)| #[trigger]
            after.contains_key(key) implies before.contains_key(key) || exists|i: int|
            0 <= i < labels.len() && key == file_key(#[trigger] labels[i]) by {
            if key == file_key(labels.last()) {
                assert(key == file_key(labels[labels.len() - 1]));
            } else {
                assert(mid.contains_key(key));
                if !before.contains_key(key) {
                    let i = choose|i: int| 0 <= i < front.len() && key == file_key(#[trigger] front[i]);
                    assert(front[i] == labels[i]);
                }
            }
        }
    }
}

/// A file that was registered and has had no line yet stands at zero in
/// both families.
pub proof fn registered_file_starts_at_zero(
    before: Map<(Seq<char>, Seq<char>), u64>,
    key: (Seq<char>, Seq<char>),
)
    requires
        !before.contains_key(key),
    ensures
        before.insert(key, count_at(before, key)).contains_key(key),
        before.insert(key, count_at(before, key))[key] == 0,
{
}

} // verus!
