//! Executors and placement matching.
//!
//! An executor is a registered worker process carrying an opaque label map.
//! A compute function declares placement constraints; it may run on an
//! executor exactly when every constraint's key is present in the executor's
//! labels with a matching value (capability-superset matching).

use vstd::prelude::*;

verus! {

/// The identity of a worker process: an opaque string, totally ordered for
/// use as a sort key.
#[derive(Debug, Clone, PartialEq, Eq, PartialOrd, Ord, Hash)]
pub struct ExecutorId(String);

impl View for ExecutorId {
    type V = Seq<char>;

    closed spec fn view(&self) -> Seq<char> {
        self.0@
    }
}

impl ExecutorId {
    pub fn new(id: String) -> (r: Self)
        ensures
            r@ == id@,
    {
        ExecutorId(id)
    }

    /// The identity as text.
    pub fn as_str(&self) -> (r: &str)
        ensures
            r@ == self@,
    {
        self.0.as_str()
    }
}

impl Default for ExecutorId {
    fn default() -> (r: Self)
        ensures
            r@ == Seq::<char>::empty(),
    {
        ExecutorId(String::new())
    }
}

/// A loosely typed label value attached to an executor.
#[derive(Debug, Clone, PartialEq, Eq)]
pub enum LabelValue {
    Null,
    Bool(bool),
    Int(i64),
    Str(String),
}

/// Whether two label values denote the same value.
pub open spec fn label_value_matches(a: LabelValue, b: LabelValue) -> bool {
    match (a, b) {
        (LabelValue::Null, LabelValue::Null) => true,
        (LabelValue::Bool(x), LabelValue::Bool(y)) => x == y,
        (LabelValue::Int(x), LabelValue::Int(y)) => x == y,
        (LabelValue::Str(x), LabelValue::Str(y)) => x@ == y@,
        _ => false,
    }
}

/// Whether two label values denote the same value.
pub fn label_value_eq(a: &LabelValue, b: &LabelValue) -> (r: bool)
    ensures
        r == label_value_matches(*a, *b),
{
    match (a, b) {
        (LabelValue::Null, LabelValue::Null) => true,
        (LabelValue::Bool(x), LabelValue::Bool(y)) => *x == *y,
        (LabelValue::Int(x), LabelValue::Int(y)) => *x == *y,
        (LabelValue::Str(x), LabelValue::Str(y)) => *x == *y,
        _ => false,
    }
}

/// Whether `labels` holds an entry whose key is `key` and whose value
/// matches `value`.
pub open spec fn labels_contain(
    labels: Seq<(String, LabelValue)>,
    key: Seq<char>,
    value: LabelValue,
) -> bool {
    exists|j: int|
        0 <= j < labels.len() && #[trigger] labels[j].0@ == key && label_value_matches(
            labels[j].1,
            value,
        )
}

/// Whether every constraint is satisfied by `labels`.
pub open spec fn filter_matches(
    constraints: Seq<(String, LabelValue)>,
    labels: Seq<(String, LabelValue)>,
) -> bool {
    forall|i: int|
        0 <= i < constraints.len() ==> labels_contain(
            labels,
            #[trigger] constraints[i].0@,
            constraints[i].1,
        )
}

/// The placement constraints a compute function declares: a set of label
/// key/value pairs that an eligible executor's labels must all carry.
#[derive(Debug, Clone, PartialEq)]
pub struct LabelsFilter {
    pub constraints: Vec<(String, LabelValue)>,
}

impl LabelsFilter {
    /// A filter with no constraints; it matches every executor.
    pub fn empty() -> (r: Self)
        ensures
            r.constraints@ == Seq::<(String, LabelValue)>::empty(),
    {
        LabelsFilter { constraints: Vec::new() }
    }

    /// Whether every constraint of this filter is satisfied by `labels`.
    ///
    /// A pure, deterministic function of the constraints and the labels.
    pub fn matches(&self, labels: &Vec<(String, LabelValue)>) -> (r: bool)
        ensures
            r == filter_matches(self.constraints@, labels@),
    {
        let mut i: usize = 0;
        while i < self.constraints.len()
            invariant
                i <= self.constraints.len(),
                forall|k: int|
                    0 <= k < i ==> labels_contain(
                        labels@,
                        #[trigger] self.constraints@[k].0@,
                        self.constraints@[k].1,
                    ),
            decreases self.constraints.len() - i,
        {
            let c = &self.constraints[i];
            if !contains_label(labels, &c.0, &c.1) {
                return false;
            }
            i += 1;
        }
        true
    }
}

/// Whether `labels` holds an entry with this key and a matching value.
pub fn contains_label(
    labels: &Vec<(String, LabelValue)>,
    key: &String,
    value: &LabelValue,
) -> (r: bool)
    ensures
        r == labels_contain(labels@, key@, *value),
{
    let mut j: usize = 0;
    while j < labels.len()
        invariant
            j <= labels.len(),
            forall|m: int|
                0 <= m < j ==> !(#[trigger] labels@[m].0@ == key@ && label_value_matches(
                    labels@[m].1,
                    *value,
                )),
        decreases labels.len() - j,
    {
        let entry = &labels[j];
        if entry.0 == *key && label_value_eq(&entry.1, value) {
            return true;
        }
        j += 1;
    }
    false
}

/// A registered worker: its identity, its address, and its labels, consulted
/// only by placement matching.
#[derive(Debug, Clone)]
pub struct ExecutorMetadata {
    pub id: ExecutorId,
    pub addr: String,
    pub labels: Vec<(String, LabelValue)>,
}

impl Default for ExecutorMetadata {
    fn default() -> (r: Self)
        ensures
            r.id@ == Seq::<char>::empty(),
            r.addr@ == Seq::<char>::empty(),
            r.labels@ == Seq::<(String, LabelValue)>::empty(),
    {
        ExecutorMetadata { id: ExecutorId::default(), addr: String::new(), labels: Vec::new() }
    }
}

} // verus!
