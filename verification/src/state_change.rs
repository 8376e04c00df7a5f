//! The state-change event log: an append-only, monotonically ordered record
//! of domain events that downstream reconciliation consumes.
//!
//! A record's id is an externally assigned monotonic 64-bit counter; its
//! storage key is the counter's fixed-width big-endian bytes, so that
//! byte-lexicographic order in an ordered store equals numeric order.  Each
//! event variant carries exactly the identifiers a consumer needs to
//! re-fetch the affected entity, never the entity itself.

use vstd::prelude::*;
use vstd::string::StringExecFns;

use crate::errors::DataModelError;

verus! {

/// The identity of one log record: a monotonically increasing counter
/// assigned by an external consensus or allocation layer.
#[derive(Clone, Debug, PartialEq, Eq, Structural, Hash, Copy, PartialOrd, Ord)]
pub struct StateChangeId(u64);

/// The big-endian byte of `x` at position `i`, most significant first.
pub open spec fn be_byte(x: u64, i: int) -> u8 {
    (x >> (((7 - i) * 8) as u64)) as u8
}

/// The eight big-endian bytes of `x`, most significant first.
pub open spec fn spec_to_key(x: u64) -> Seq<u8> {
    Seq::new(8, |i: int| be_byte(x, i))
}

/// The 64-bit value read back from eight big-endian bytes.
pub open spec fn spec_from_key(s: Seq<u8>) -> u64
    recommends
        s.len() == 8,
{
    ((s[0] as u64) << 56u64) | ((s[1] as u64) << 48u64) | ((s[2] as u64) << 40u64) | ((
    s[3] as u64) << 32u64) | ((s[4] as u64) << 24u64) | ((s[5] as u64) << 16u64) | ((
    s[6] as u64) << 8u64) | (s[7] as u64)
}

/// Reading back the eight big-endian bytes of any counter value gives the
/// value itself, so the byte key loses nothing.
pub proof fn lemma_key_round_trip(x: u64)
    ensures
        spec_from_key(spec_to_key(x)) == x,
{
    let s = spec_to_key(x);
    assert(s[0] == (x >> 56u64) as u8);
    assert(s[1] == (x >> 48u64) as u8);
    assert(s[2] == (x >> 40u64) as u8);
    assert(s[3] == (x >> 32u64) as u8);
    assert(s[4] == (x >> 24u64) as u8);
    assert(s[5] == (x >> 16u64) as u8);
    assert(s[6] == (x >> 8u64) as u8);
    assert(s[7] == (x >> 0u64) as u8);
    assert((((x >> 56u64) as u8) as u64) << 56u64 | (((x >> 48u64) as u8) as u64) << 48u64 | (((x
        >> 40u64) as u8) as u64) << 40u64 | (((x >> 32u64) as u8) as u64) << 32u64 | (((x
        >> 24u64) as u8) as u64) << 24u64 | (((x >> 16u64) as u8) as u64) << 16u64 | (((x
        >> 8u64) as u8) as u64) << 8u64 | (((x >> 0u64) as u8) as u64) == x) by (bit_vector);
}

/// Strict lexicographic order on two byte strings of equal length: some
/// position holds a smaller byte in `a`, and the bytes before it agree.
pub open spec fn lex_lt(a: Seq<u8>, b: Seq<u8>) -> bool {
    exists|i: int|
        0 <= i < a.len() && i < b.len() && (forall|j: int| 0 <= j < i ==> a[j] == b[j])
            && #[trigger] a[i] < #[trigger] b[i]
}

/// A smaller byte at the first disagreeing position makes the whole value
/// smaller: the bytes are laid out most significant first.
proof fn lemma_byte_order_implies_lt(x: u64, y: u64, i: int)
    requires
        0 <= i < 8,
        forall|j: int| 0 <= j < i ==> be_byte(x, j) == be_byte(y, j),
        be_byte(x, i) < be_byte(y, i),
    ensures
        x < y,
{
    if i == 0 {
        assert(x < y) by (bit_vector)
            requires
                ((x >> 56u64) as u8) < ((y >> 56u64) as u8),
        ;
    } else if i == 1 {
        assert(be_byte(x, 0) == be_byte(y, 0));
        assert(x < y) by (bit_vector)
            requires
                (x >> 56u64) as u8 == (y >> 56u64) as u8,
                ((x >> 48u64) as u8) < ((y >> 48u64) as u8),
        ;
    } else if i == 2 {
        assert(be_byte(x, 0) == be_byte(y, 0));
        assert(be_byte(x, 1) == be_byte(y, 1));
        assert(x < y) by (bit_vector)
            requires
                (x >> 56u64) as u8 == (y >> 56u64) as u8,
                (x >> 48u64) as u8 == (y >> 48u64) as u8,
                ((x >> 40u64) as u8) < ((y >> 40u64) as u8),
        ;
    } else if i == 3 {
        assert(be_byte(x, 0) == be_byte(y, 0));
        assert(be_byte(x, 1) == be_byte(y, 1));
        assert(be_byte(x, 2) == be_byte(y, 2));
        assert(x < y) by (bit_vector)
            requires
                (x >> 56u64) as u8 == (y >> 56u64) as u8,
                (x >> 48u64) as u8 == (y >> 48u64) as u8,
                (x >> 40u64) as u8 == (y >> 40u64) as u8,
                ((x >> 32u64) as u8) < ((y >> 32u64) as u8),
        ;
    } else if i == 4 {
        assert(be_byte(x, 0) == be_byte(y, 0));
        assert(be_byte(x, 1) == be_byte(y, 1));
        assert(be_byte(x, 2) == be_byte(y, 2));
        assert(be_byte(x, 3) == be_byte(y, 3));
        assert(x < y) by (bit_vector)
            requires
                (x >> 56u64) as u8 == (y >> 56u64) as u8,
                (x >> 48u64) as u8 == (y >> 48u64) as u8,
                (x >> 40u64) as u8 == (y >> 40u64) as u8,
                (x >> 32u64) as u8 == (y >> 32u64) as u8,
                ((x >> 24u64) as u8) < ((y >> 24u64) as u8),
        ;
    } else if i == 5 {
        assert(be_byte(x, 0) == be_byte(y, 0));
        assert(be_byte(x, 1) == be_byte(y, 1));
        assert(be_byte(x, 2) == be_byte(y, 2));
        assert(be_byte(x, 3) == be_byte(y, 3));
        assert(be_byte(x, 4) == be_byte(y, 4));
        assert(x < y) by (bit_vector)
            requires
                (x >> 56u64) as u8 == (y >> 56u64) as u8,
                (x >> 48u64) as u8 == (y >> 48u64) as u8,
                (x >> 40u64) as u8 == (y >> 40u64) as u8,
                (x >> 32u64) as u8 == (y >> 32u64) as u8,
                (x >> 24u64) as u8 == (y >> 24u64) as u8,
                ((x >> 16u64) as u8) < ((y >> 16u64) as u8),
        ;
    } else if i == 6 {
        assert(be_byte(x, 0) == be_byte(y, 0));
        assert(be_byte(x, 1) == be_byte(y, 1));
        assert(be_byte(x, 2) == be_byte(y, 2));
        assert(be_byte(x, 3) == be_byte(y, 3));
        assert(be_byte(x, 4) == be_byte(y, 4));
        assert(be_byte(x, 5) == be_byte(y, 5));
        assert(x < y) by (bit_vector)
            requires
                (x >> 56u64) as u8 == (y >> 56u64) as u8,
                (x >> 48u64) as u8 == (y >> 48u64) as u8,
                (x >> 40u64) as u8 == (y >> 40u64) as u8,
                (x >> 32u64) as u8 == (y >> 32u64) as u8,
                (x >> 24u64) as u8 == (y >> 24u64) as u8,
                (x >> 16u64) as u8 == (y >> 16u64) as u8,
                ((x >> 8u64) as u8) < ((y >> 8u64) as u8),
        ;
    } else {
        assert(be_byte(x, 0) == be_byte(y, 0));
        assert(be_byte(x, 1) == be_byte(y, 1));
        assert(be_byte(x, 2) == be_byte(y, 2));
        assert(be_byte(x, 3) == be_byte(y, 3));
        assert(be_byte(x, 4) == be_byte(y, 4));
        assert(be_byte(x, 5) == be_byte(y, 5));
        assert(be_byte(x, 6) == be_byte(y, 6));
        assert(x < y) by (bit_vector)
            requires
                (x >> 56u64) as u8 == (y >> 56u64) as u8,
                (x >> 48u64) as u8 == (y >> 48u64) as u8,
                (x >> 40u64) as u8 == (y >> 40u64) as u8,
                (x >> 32u64) as u8 == (y >> 32u64) as u8,
                (x >> 24u64) as u8 == (y >> 24u64) as u8,
                (x >> 16u64) as u8 == (y >> 16u64) as u8,
                (x >> 8u64) as u8 == (y >> 8u64) as u8,
                ((x >> 0u64) as u8) < ((y >> 0u64) as u8),
        ;
    }
}

/// Values with identical big-endian bytes are identical.
proof fn lemma_equal_bytes_equal_value(x: u64, y: u64)
    requires
        forall|j: int| 0 <= j < 8 ==> be_byte(x, j) == be_byte(y, j),
    ensures
        x == y,
{
    assert(be_byte(x, 0) == be_byte(y, 0));
    assert(be_byte(x, 1) == be_byte(y, 1));
    assert(be_byte(x, 2) == be_byte(y, 2));
    assert(be_byte(x, 3) == be_byte(y, 3));
    assert(be_byte(x, 4) == be_byte(y, 4));
    assert(be_byte(x, 5) == be_byte(y, 5));
    assert(be_byte(x, 6) == be_byte(y, 6));
    assert(be_byte(x, 7) == be_byte(y, 7));
    assert(x == y) by (bit_vector)
        requires
            (x >> 56u64) as u8 == (y >> 56u64) as u8,
            (x >> 48u64) as u8 == (y >> 48u64) as u8,
            (x >> 40u64) as u8 == (y >> 40u64) as u8,
            (x >> 32u64) as u8 == (y >> 32u64) as u8,
            (x >> 24u64) as u8 == (y >> 24u64) as u8,
            (x >> 16u64) as u8 == (y >> 16u64) as u8,
            (x >> 8u64) as u8 == (y >> 8u64) as u8,
            (x >> 0u64) as u8 == (y >> 0u64) as u8,
    ;
}

/// The index of the first position where the big-endian bytes of `x` and
/// `y` disagree, for unequal values.
proof fn first_differing_byte(x: u64, y: u64) -> (i: int)
    requires
        x != y,
    ensures
        0 <= i < 8,
        forall|j: int| 0 <= j < i ==> be_byte(x, j) == be_byte(y, j),
        be_byte(x, i) != be_byte(y, i),
{
    if be_byte(x, 0) != be_byte(y, 0) {
        0
    } else if be_byte(x, 1) != be_byte(y, 1) {
        1
    } else if be_byte(x, 2) != be_byte(y, 2) {
        2
    } else if be_byte(x, 3) != be_byte(y, 3) {
        3
    } else if be_byte(x, 4) != be_byte(y, 4) {
        4
    } else if be_byte(x, 5) != be_byte(y, 5) {
        5
    } else if be_byte(x, 6) != be_byte(y, 6) {
        6
    } else if be_byte(x, 7) != be_byte(y, 7) {
        7
    } else {
        lemma_equal_bytes_equal_value(x, y);
        0
    }
}

/// Byte-lexicographic order of the stored keys equals numeric order of the
/// counters, so a range scan over an ordered store reads the log in
/// creation order.
pub proof fn lemma_key_order_matches_value_order(x: u64, y: u64)
    ensures
        x < y <==> lex_lt(spec_to_key(x), spec_to_key(y)),
{
    let a = spec_to_key(x);
    let b = spec_to_key(y);
    if x < y {
        let i = first_differing_byte(x, y);
        if be_byte(x, i) > be_byte(y, i) {
            lemma_byte_order_implies_lt(y, x, i);
        }
        assert(forall|j: int| 0 <= j < i ==> a[j] == b[j]);
        assert(a[i] < b[i]);
    }
    if lex_lt(a, b) {
        let i = choose|i: int|
            0 <= i < a.len() && i < b.len() && (forall|j: int| 0 <= j < i ==> a[j] == b[j])
                && #[trigger] a[i] < #[trigger] b[i];
        assert forall|j: int| 0 <= j < i implies be_byte(x, j) == be_byte(y, j) by {
            assert(a[j] == b[j]);
        }
        lemma_byte_order_implies_lt(x, y, i);
    }
}

impl StateChangeId {
    /// The counter value behind this id.
    pub closed spec fn spec_value(&self) -> u64 {
        self.0
    }

    pub fn new(id: u64) -> (r: Self)
        ensures
            r.spec_value() == id,
    {
        StateChangeId(id)
    }

    /// The key under which the record is stored in an ordered store: the
    /// counter's eight big-endian bytes, so byte-lexicographic order equals
    /// numeric order.
    pub fn to_key(&self) -> (r: [u8; 8])
        ensures
            r@ == spec_to_key(self.spec_value()),
    {
        let x = self.0;
        let mut r: [u8; 8] = [0; 8];
        r[0] = #[verifier::truncate] ((x >> 56) as u8);
        r[1] = #[verifier::truncate] ((x >> 48) as u8);
        r[2] = #[verifier::truncate] ((x >> 40) as u8);
        r[3] = #[verifier::truncate] ((x >> 32) as u8);
        r[4] = #[verifier::truncate] ((x >> 24) as u8);
        r[5] = #[verifier::truncate] ((x >> 16) as u8);
        r[6] = #[verifier::truncate] ((x >> 8) as u8);
        r[7] = #[verifier::truncate] (x as u8);
        proof {
            assert(x >> 0u64 == x) by (bit_vector);
            assert(r@ =~= spec_to_key(x));
        }
        r
    }

    /// Reads an id back from its stored key.
    pub fn from_key(key: [u8; 8]) -> (r: Self)
        ensures
            r.spec_value() == spec_from_key(key@),
    {
        let x = ((key[0] as u64) << 56u64) | ((key[1] as u64) << 48u64) | ((key[2] as u64)
            << 40u64) | ((key[3] as u64) << 32u64) | ((key[4] as u64) << 24u64) | ((key[5] as u64)
            << 16u64) | ((key[6] as u64) << 8u64) | (key[7] as u64);
        StateChangeId(x)
    }
}

impl From<StateChangeId> for u64 {
    /// The counter value behind the id.
    fn from(value: StateChangeId) -> (r: u64)
        ensures
            r == value.spec_value(),
    {
        value.0
    }
}

impl vstd::std_specs::convert::FromSpecImpl<StateChangeId> for u64 {
    open spec fn obeys_from_spec() -> bool {
        true
    }

    open spec fn from_spec(t: StateChangeId) -> u64 {
        t.spec_value()
    }
}

/// The payload of an event that starts one invocation of a graph.
#[derive(Clone, Debug, PartialEq, Eq)]
pub struct InvokeComputeGraphEvent {
    pub invocation_id: String,
    pub namespace: String,
    pub compute_graph: String,
}

/// The payload of an event that reports one task finished.
#[derive(Clone, Debug, PartialEq, Eq)]
pub struct TaskFinishedEvent {
    pub namespace: String,
    pub compute_graph: String,
    pub compute_fn: String,
    pub task_id: String,
}

impl TaskFinishedEvent {
    /// A readable description of this event.
    pub fn describe(&self) -> (r: String)
        ensures
            r@ == "TaskFinishedEvent(namespace: "@ + self.namespace@ + ", compute_graph: "@
                + self.compute_graph@ + ", compute_fn: "@ + self.compute_fn@ + ", task_id: "@
                + self.task_id@ + ")"@,
    {
        let mut out = String::from_str("TaskFinishedEvent(namespace: ");
        out.append(self.namespace.as_str());
        out.append(", compute_graph: ");
        out.append(self.compute_graph.as_str());
        out.append(", compute_fn: ");
        out.append(self.compute_fn.as_str());
        out.append(", task_id: ");
        out.append(self.task_id.as_str());
        out.append(")");
        out
    }
}

/// The tagged payload of a log record: a closed set of domain events.  A
/// new kind of event requires a new variant, not a generic payload.
#[derive(Clone, Debug, PartialEq, Eq)]
pub enum ChangeType {
    InvokeComputeGraph(InvokeComputeGraphEvent),
    TaskFinished(TaskFinishedEvent),
    TombstoneIngestedData,
    TombstoneComputeGraph,
    ExecutorAdded,
    ExecutorRemoved,
}

impl ChangeType {
    /// The name of this event's kind.
    pub fn kind_name(&self) -> (r: &'static str)
        ensures
            r@ == self.spec_kind_name(),
    {
        match self {
            ChangeType::InvokeComputeGraph(_) => "InvokeComputeGraph",
            ChangeType::TaskFinished(_) => "TaskFinished",
            ChangeType::TombstoneIngestedData => "TombstoneIngestedData",
            ChangeType::TombstoneComputeGraph => "TombstoneComputeGraph",
            ChangeType::ExecutorAdded => "ExecutorAdded",
            ChangeType::ExecutorRemoved => "ExecutorRemoved",
        }
    }

    /// What `kind_name` returns, as a sequence of characters.
    pub open spec fn spec_kind_name(&self) -> Seq<char> {
        match self {
            ChangeType::InvokeComputeGraph(_) => "InvokeComputeGraph"@,
            ChangeType::TaskFinished(_) => "TaskFinished"@,
            ChangeType::TombstoneIngestedData => "TombstoneIngestedData"@,
            ChangeType::TombstoneComputeGraph => "TombstoneComputeGraph"@,
            ChangeType::ExecutorAdded => "ExecutorAdded"@,
            ChangeType::ExecutorRemoved => "ExecutorRemoved"@,
        }
    }
}

/// A faithful copy of a change payload, variant by variant.
fn duplicate_change_type(c: &ChangeType) -> (r: ChangeType)
    ensures
        r == *c,
{
    match c {
        ChangeType::InvokeComputeGraph(e) => ChangeType::InvokeComputeGraph(
            InvokeComputeGraphEvent {
                invocation_id: e.invocation_id.clone(),
                namespace: e.namespace.clone(),
                compute_graph: e.compute_graph.clone(),
            },
        ),
        ChangeType::TaskFinished(e) => ChangeType::TaskFinished(
            TaskFinishedEvent {
                namespace: e.namespace.clone(),
                compute_graph: e.compute_graph.clone(),
                compute_fn: e.compute_fn.clone(),
                task_id: e.task_id.clone(),
            },
        ),
        ChangeType::TombstoneIngestedData => ChangeType::TombstoneIngestedData,
        ChangeType::TombstoneComputeGraph => ChangeType::TombstoneComputeGraph,
        ChangeType::ExecutorAdded => ChangeType::ExecutorAdded,
        ChangeType::ExecutorRemoved => ChangeType::ExecutorRemoved,
    }
}

/// One immutable log record.  Once appended, `id`, `object_id`,
/// `change_type`, and `created_at` never change; `processed_at` is set
/// exactly once by the external consumer that durably acted on the event.
#[derive(Clone, Debug)]
pub struct StateChange {
    pub id: StateChangeId,
    pub object_id: String,
    pub change_type: ChangeType,
    pub created_at: u64,
    pub processed_at: Option<u64>,
}

/// Collects the attributes of a [`StateChange`]; `id`, `object_id`,
/// `change_type`, and `created_at` must be supplied explicitly, with no
/// defaults, and building fails naming the first that was not.
#[derive(Clone, Debug, PartialEq)]
pub struct StateChangeBuilder {
    pub id: Option<StateChangeId>,
    pub object_id: Option<String>,
    pub change_type: Option<ChangeType>,
    pub created_at: Option<u64>,
    pub processed_at: Option<u64>,
}

impl Default for StateChangeBuilder {
    fn default() -> (r: Self)
        ensures
            r == (StateChangeBuilder {
                id: None,
                object_id: None,
                change_type: None,
                created_at: None,
                processed_at: None,
            }),
    {
        StateChangeBuilder {
            id: None,
            object_id: None,
            change_type: None,
            created_at: None,
            processed_at: None,
        }
    }
}

impl StateChangeBuilder {
    /// The error that `build` reports, if a required field is missing:
    /// the first unset field in declaration order.
    pub open spec fn first_missing(&self) -> Option<DataModelError> {
        if self.id is None {
            Some(DataModelError::StateChangeIdMissing)
        } else if self.object_id is None {
            Some(DataModelError::ObjectIdMissing)
        } else if self.change_type is None {
            Some(DataModelError::ChangeTypeMissing)
        } else if self.created_at is None {
            Some(DataModelError::CreatedAtMissing)
        } else {
            None
        }
    }

    pub fn id(self, value: StateChangeId) -> (r: Self)
        ensures
            r == (StateChangeBuilder { id: Some(value), ..self }),
    {
        StateChangeBuilder { id: Some(value), ..self }
    }

    pub fn object_id(self, value: String) -> (r: Self)
        ensures
            r == (StateChangeBuilder { object_id: Some(value), ..self }),
    {
        StateChangeBuilder { object_id: Some(value), ..self }
    }

    pub fn change_type(self, value: ChangeType) -> (r: Self)
        ensures
            r == (StateChangeBuilder { change_type: Some(value), ..self }),
    {
        StateChangeBuilder { change_type: Some(value), ..self }
    }

    pub fn created_at(self, value: u64) -> (r: Self)
        ensures
            r == (StateChangeBuilder { created_at: Some(value), ..self }),
    {
        StateChangeBuilder { created_at: Some(value), ..self }
    }

    pub fn processed_at(self, value: u64) -> (r: Self)
        ensures
            r == (StateChangeBuilder { processed_at: Some(value), ..self }),
    {
        StateChangeBuilder { processed_at: Some(value), ..self }
    }

    /// Builds the record; fails with a field-naming error when a required
    /// field was never supplied.  `processed_at` stays unset unless it was
    /// given.
    pub fn build(&self) -> (r: Result<StateChange, DataModelError>)
        ensures
            r is Ok <==> self.first_missing() is None,
            r matches Ok(sc) ==> {
                &&& Some(sc.id) == self.id
                &&& Some(sc.object_id) == self.object_id
                &&& Some(sc.change_type) == self.change_type
                &&& Some(sc.created_at) == self.created_at
                &&& sc.processed_at == self.processed_at
            },
            r matches Err(e) ==> Some(e) == self.first_missing(),
    {
        let id = match &self.id {
            Some(v) => *v,
            None => {
                return Err(DataModelError::StateChangeIdMissing);
            },
        };
        let object_id = match &self.object_id {
            Some(v) => v.clone(),
            None => {
                return Err(DataModelError::ObjectIdMissing);
            },
        };
        let change_type = match &self.change_type {
            Some(v) => duplicate_change_type(v),
            None => {
                return Err(DataModelError::ChangeTypeMissing);
            },
        };
        let created_at = match &self.created_at {
            Some(v) => *v,
            None => {
                return Err(DataModelError::CreatedAtMissing);
            },
        };
        let processed_at = match &self.processed_at {
            Some(v) => Some(*v),
            None => None,
        };
        Ok(StateChange { id, object_id, change_type, created_at, processed_at })
    }
}

} // verus!
