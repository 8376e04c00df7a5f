//! Tasks: one unit of work for one function within one invocation.
//!
//! A task's id is a deterministic hash of its logical coordinates, so
//! re-issuing a task for the same logical work yields the same id.  A task
//! also carries a human-readable storage key, and an allocation key that
//! routes it to an executor: `executorid_nanosecondsSinceEpoch_taskkey`,
//! built so that an ordered store sorts one executor's allocations by time.

use vstd::prelude::*;
use vstd::slice::slice_index_get;
use vstd::slice::slice_subrange;
use vstd::slice::slice_to_vec;
use vstd::string::StringExecFns;
use vstd::utf8::encode_utf8;
use vstd::utf8::is_ascii_chars;
use vstd::utf8::is_ascii_chars_encode_utf8;

use crate::digits::dec_of;
use crate::digits::lemma_dec_of_digits;
use crate::errors::DataModelError;
use crate::executor::ExecutorId;
use crate::hashing::IdHasher;
use crate::hashing::digest_of_strs;
use crate::keys::push_part;
use crate::keys::sep;

verus! {

/// The byte value of the `_` delimiter that separates the segments of an
/// allocation key.
pub const UNDERSCORE: u8 = 95;

/// The derived identity of a task: a hash of (graph, function, input id,
/// invocation id, namespace), in exactly that order.  The field order is a
/// compatibility contract: recomputing the id for the same logical task
/// must give the same text.
pub open spec fn task_digest(
    cg: Seq<char>,
    f: Seq<char>,
    input: Seq<char>,
    inv: Seq<char>,
    ns: Seq<char>,
) -> Seq<char> {
    digest_of_strs(seq![cg, f, input, inv, ns])
}

/// Repeated derivations from equal coordinates yield the identical task id.
pub proof fn lemma_task_id_deterministic(
    cg1: Seq<char>,
    f1: Seq<char>,
    input1: Seq<char>,
    inv1: Seq<char>,
    ns1: Seq<char>,
    cg2: Seq<char>,
    f2: Seq<char>,
    input2: Seq<char>,
    inv2: Seq<char>,
    ns2: Seq<char>,
)
    requires
        cg1 == cg2,
        f1 == f2,
        input1 == input2,
        inv1 == inv2,
        ns1 == ns2,
    ensures
        task_digest(cg1, f1, input1, inv1, ns1) == task_digest(cg2, f2, input2, inv2, ns2),
{
}

/// A task's identity text.
#[derive(Debug, Clone, PartialEq, Eq, PartialOrd, Ord)]
pub struct TaskId(String);

impl View for TaskId {
    type V = Seq<char>;

    closed spec fn view(&self) -> Seq<char> {
        self.0@
    }
}

impl TaskId {
    /// An identity read back from its text, as a store or a wire codec
    /// hands it over.
    pub fn new(id: String) -> (r: Self)
        ensures
            r@ == id@,
    {
        TaskId(id)
    }

    /// The identity as text.
    pub fn as_str(&self) -> (r: &str)
        ensures
            r@ == self@,
    {
        self.0.as_str()
    }
}

/// The lifecycle state of a task: `Unknown` on creation, then at most one
/// transition to `Success` or `Failure`, never back.
#[derive(Debug, Clone, Copy, PartialEq, Eq, Structural)]
pub enum TaskOutcome {
    Unknown,
    Success,
    Failure,
}

impl TaskOutcome {
    /// The name of this outcome.
    pub fn name(&self) -> (r: &'static str)
        ensures
            r@ == self.spec_name(),
    {
        match self {
            TaskOutcome::Unknown => "Unknown",
            TaskOutcome::Success => "Success",
            TaskOutcome::Failure => "Failure",
        }
    }

    /// What `name` returns, as a sequence of characters.
    pub open spec fn spec_name(&self) -> Seq<char> {
        match self {
            TaskOutcome::Unknown => "Unknown"@,
            TaskOutcome::Success => "Success"@,
            TaskOutcome::Failure => "Failure"@,
        }
    }
}

/// An instant as a count of whole seconds since the Unix epoch plus a
/// subsecond part in nanoseconds.
#[derive(Debug, Clone, Copy, PartialEq, Eq, Structural)]
pub struct EpochTime {
    pub secs: u64,
    pub nanos: u32,
}

impl EpochTime {
    /// The subsecond part names less than one whole second.
    pub open spec fn wf(&self) -> bool {
        self.nanos < 1_000_000_000
    }

    /// This instant as nanoseconds since the epoch.
    pub open spec fn total_nanos(&self) -> nat {
        self.secs as nat * 1_000_000_000 + self.nanos as nat
    }

    /// Reads the current time from the system clock.
    pub fn now() -> (r: EpochTime)
        ensures
            r.wf(),
    {
        let (secs, nanos) = clock_since_epoch();
        EpochTime { secs, nanos }
    }

    /// This instant as nanoseconds since the epoch.
    pub fn as_nanos(&self) -> (r: u128)
        ensures
            r as nat == self.total_nanos(),
    {
        (self.secs as u128) * 1_000_000_000 + (self.nanos as u128)
    }
}

/// Relies on std's `SystemTime`: `now` measured against `UNIX_EPOCH` gives a
/// duration whose subsecond part is below one billion nanoseconds; a clock
/// reading from before the epoch is reported as the epoch itself.
#[verifier::external_body]
fn clock_since_epoch() -> (r: (u64, u32))
    ensures
        r.1 < 1_000_000_000,
{
    match std::time::SystemTime::now().duration_since(std::time::UNIX_EPOCH) {
        Ok(d) => (d.as_secs(), d.subsec_nanos()),
        Err(_) => (0, 0),
    }
}

/// The instant a task's creation time falls back to when none was recorded:
/// the Unix epoch itself, not the current time.
pub fn default_creation_time() -> (r: EpochTime)
    ensures
        r == (EpochTime { secs: 0, nanos: 0 }),
        r.wf(),
{
    EpochTime { secs: 0, nanos: 0 }
}

/// One unit of work for one function within one invocation.
#[derive(Debug, Clone, PartialEq)]
pub struct Task {
    pub id: TaskId,
    pub namespace: String,
    pub compute_fn_name: String,
    pub compute_graph_name: String,
    pub invocation_id: String,
    pub input_data_id: String,
    pub outcome: TaskOutcome,
    pub creation_time: EpochTime,
}

impl Task {
    /// Whether the outcome is terminal.
    pub open spec fn spec_terminal(&self) -> bool {
        self.outcome != TaskOutcome::Unknown
    }

    /// Reports true exactly when the outcome is no longer `Unknown`.
    pub fn terminal_state(&self) -> (r: bool)
        ensures
            r == self.spec_terminal(),
    {
        self.outcome != TaskOutcome::Unknown
    }

    /// The storage key of a task:
    /// `namespace_graph_invocation_fn_taskid`.
    pub open spec fn key_view(&self) -> Seq<char> {
        self.namespace@ + sep() + self.compute_graph_name@ + sep() + self.invocation_id@ + sep()
            + self.compute_fn_name@ + sep() + self.id@
    }

    /// The storage key of a task, used for lookups and range scans by
    /// invocation or by function.
    pub fn key(&self) -> (r: String)
        ensures
            r@ == self.key_view(),
    {
        let mut key = self.namespace.clone();
        push_part(&mut key, self.compute_graph_name.as_str());
        push_part(&mut key, self.invocation_id.as_str());
        push_part(&mut key, self.compute_fn_name.as_str());
        push_part(&mut key, self.id.as_str());
        key
    }

    /// A readable description of the task.
    pub fn describe(&self) -> (r: String)
        ensures
            r@ == "Task(id: "@ + self.id@ + ", compute_fn_name: "@ + self.compute_fn_name@
                + ", compute_graph_name: "@ + self.compute_graph_name@ + ", content_id: "@
                + self.input_data_id@ + ", outcome: "@ + self.outcome.spec_name() + ")"@,
    {
        let mut out = String::from_str("Task(id: ");
        out.append(self.id.as_str());
        out.append(", compute_fn_name: ");
        out.append(self.compute_fn_name.as_str());
        out.append(", compute_graph_name: ");
        out.append(self.compute_graph_name.as_str());
        out.append(", content_id: ");
        out.append(self.input_data_id.as_str());
        out.append(", outcome: ");
        out.append(self.outcome.name());
        out.append(")");
        out
    }

    /// The key under which an allocation of the task to `executor_id` is
    /// stored: `executorid_nanosecondsSinceEpoch_taskkey`.  The embedded
    /// timestamp makes an ordered store sort one executor's allocations by
    /// the tasks' creation times.
    pub fn make_allocation_key(&self, executor_id: &ExecutorId) -> (r: String)
        ensures
            r@ == executor_id@ + sep() + dec_of(self.creation_time.total_nanos()) + sep()
                + self.key_view(),
    {
        let nanos = self.creation_time.as_nanos();
        let stamp = crate::digits::u128_to_dec(nanos);
        let mut key = executor_id.as_str().to_owned();
        push_part(&mut key, stamp.as_str());
        let task_key = self.key();
        push_part(&mut key, task_key.as_str());
        key
    }

    /// Recovers the task key embedded in an allocation key: everything
    /// after the second `_` delimiter, verbatim; fails when fewer than two
    /// delimiters are present.
    pub fn key_from_executor_key(executor_key: &[u8]) -> (r: Result<Vec<u8>, DataModelError>)
        ensures
            match r {
                Ok(v) => task_key_in(executor_key@) == Some(v@),
                Err(e) => task_key_in(executor_key@) is None && e
                    == DataModelError::InvalidExecutorKey,
            },
    {
        let n = executor_key.len();
        let p1 = match find_underscore(executor_key, 0) {
            Some(i) => i,
            None => {
                return Err(DataModelError::InvalidExecutorKey);
            },
        };
        let p2 = match find_underscore(executor_key, p1 + 1) {
            Some(i) => i,
            None => {
                return Err(DataModelError::InvalidExecutorKey);
            },
        };
        let suffix = slice_subrange(executor_key, p2 + 1, n);
        Ok(slice_to_vec(suffix))
    }
}

/// The index of the first occurrence of `b` in `k` at or after `from`,
/// or a negative value when there is none.
pub open spec fn find_byte(k: Seq<u8>, b: u8, from: int) -> int
    decreases k.len() - from,
{
    if from < 0 || from >= k.len() {
        -1
    } else if k[from] == b {
        from
    } else {
        find_byte(k, b, from + 1)
    }
}

/// The task key embedded in an allocation key: everything after the second
/// `_` delimiter, or nothing when fewer than two delimiters are present.
pub open spec fn task_key_in(executor_key: Seq<u8>) -> Option<Seq<u8>> {
    let p1 = find_byte(executor_key, UNDERSCORE, 0);
    if p1 < 0 {
        None
    } else {
        let p2 = find_byte(executor_key, UNDERSCORE, p1 + 1);
        if p2 < 0 {
            None
        } else {
            Some(executor_key.subrange(p2 + 1, executor_key.len() as int))
        }
    }
}

/// Searching from `from` gives the same result as searching from `i` when
/// no occurrence lies between them.
proof fn lemma_find_byte_from(k: Seq<u8>, b: u8, from: int, i: int)
    requires
        0 <= from <= i <= k.len(),
        forall|m: int| from <= m < i ==> k[m] != b,
    ensures
        find_byte(k, b, from) == find_byte(k, b, i),
    decreases i - from,
{
    if from < i {
        lemma_find_byte_from(k, b, from + 1, i);
    }
}

/// Finds the first `_` in `k` at or after `from`.
fn find_underscore(k: &[u8], from: usize) -> (r: Option<usize>)
    requires
        from <= k@.len(),
    ensures
        match r {
            Some(i) => from <= i < k@.len() && k@[i as int] == UNDERSCORE && find_byte(
                k@,
                UNDERSCORE,
                from as int,
            ) == i,
            None => find_byte(k@, UNDERSCORE, from as int) == -1,
        },
{
    let mut i = from;
    while i < k.len()
        invariant
            from <= i <= k@.len(),
            forall|m: int| from <= m < i ==> k@[m] != UNDERSCORE,
        decreases k@.len() - i,
    {
        if *slice_index_get(k, i) == UNDERSCORE {
            proof {
                lemma_find_byte_from(k@, UNDERSCORE, from as int, i as int);
            }
            return Some(i);
        }
        i += 1;
    }
    proof {
        lemma_find_byte_from(k@, UNDERSCORE, from as int, i as int);
    }
    None
}

/// Searching from `from` finds `j` when `k[j]` is the byte sought and no
/// occurrence lies between `from` and `j`.
proof fn lemma_find_byte_hits(k: Seq<u8>, b: u8, from: int, j: int)
    requires
        0 <= from <= j < k.len(),
        k[j] == b,
        forall|m: int| from <= m < j ==> k[m] != b,
    ensures
        find_byte(k, b, from) == j,
{
    lemma_find_byte_from(k, b, from, j);
}

/// Parsing inverts building, at the byte level: whatever task key is
/// appended after an executor id free of `_` and a stamp free of `_`, the
/// parse skips exactly those two segments and returns the task key
/// verbatim.
pub proof fn lemma_allocation_key_round_trip_bytes(
    executor: Seq<u8>,
    stamp: Seq<u8>,
    task_key: Seq<u8>,
)
    requires
        forall|i: int| 0 <= i < executor.len() ==> executor[i] != UNDERSCORE,
        forall|i: int| 0 <= i < stamp.len() ==> stamp[i] != UNDERSCORE,
    ensures
        task_key_in(executor + seq![UNDERSCORE] + stamp + seq![UNDERSCORE] + task_key) == Some(task_key),
{
    let k = executor + seq![UNDERSCORE] + stamp + seq![UNDERSCORE] + task_key;
    let j1 = executor.len() as int;
    let j2 = executor.len() as int + 1 + stamp.len() as int;
    assert(k[j1] == UNDERSCORE);
    assert(k[j2] == UNDERSCORE);
    assert forall|m: int| 0 <= m < j1 implies k[m] != UNDERSCORE by {
        assert(k[m] == executor[m]);
    }
    lemma_find_byte_hits(k, UNDERSCORE, 0, j1);
    assert forall|m: int| j1 + 1 <= m < j2 implies k[m] != UNDERSCORE by {
        assert(k[m] == stamp[m - j1 - 1]);
    }
    lemma_find_byte_hits(k, UNDERSCORE, j1 + 1, j2);
    assert(k.subrange(j2 + 1, k.len() as int) =~= task_key);
}

/// UTF-8 encoding distributes over concatenation.
proof fn lemma_encode_utf8_concat(a: Seq<char>, b: Seq<char>)
    ensures
        encode_utf8(a + b) == encode_utf8(a) + encode_utf8(b),
    decreases a.len(),
{
    if a.len() == 0 {
        assert(a + b =~= b);
        assert(encode_utf8(a) + encode_utf8(b) =~= encode_utf8(b));
    } else {
        assert((a + b).drop_first() =~= a.drop_first() + b);
        assert((a + b)[0] == a[0]);
        lemma_encode_utf8_concat(a.drop_first(), b);
        assert(encode_utf8(a + b) =~= encode_utf8(a) + encode_utf8(b));
    }
}

/// Parsing inverts building for the whole allocation key, whatever the task
/// key holds: for any ASCII executor id without an embedded `_`, any
/// timestamp, and any task key, parsing the UTF-8 bytes of
/// `executorid_nanosecondsSinceEpoch_taskkey` returns exactly the UTF-8
/// bytes of the task key.
pub proof fn lemma_allocation_key_round_trip(
    executor: Seq<char>,
    nanos: nat,
    task_key: Seq<char>,
)
    requires
        is_ascii_chars(executor),
        forall|i: int| 0 <= i < executor.len() ==> executor[i] != '_',
    ensures
        task_key_in(encode_utf8(executor + sep() + dec_of(nanos) + sep() + task_key)) == Some(
            encode_utf8(task_key),
        ),
{
    reveal_strlit("_");
    let stamp = dec_of(nanos);
    lemma_dec_of_digits(nanos);
    assert(is_ascii_chars(stamp));
    assert(is_ascii_chars(sep()));
    let whole = executor + sep() + stamp + sep() + task_key;
    lemma_encode_utf8_concat(executor, sep());
    lemma_encode_utf8_concat(executor + sep(), stamp);
    lemma_encode_utf8_concat(executor + sep() + stamp, sep());
    lemma_encode_utf8_concat(executor + sep() + stamp + sep(), task_key);
    is_ascii_chars_encode_utf8(executor);
    is_ascii_chars_encode_utf8(sep());
    is_ascii_chars_encode_utf8(stamp);
    assert(encode_utf8(sep()) =~= seq![UNDERSCORE]);
    assert forall|i: int| 0 <= i < executor.len() implies encode_utf8(executor)[i] != UNDERSCORE by {
        let c = executor[i];
        assert(encode_utf8(executor)[i] == c as u8);
        let underscore_char = sep()[0];
        let uc: u32 = underscore_char as u32;
        assert(uc == 95);
        if c as u8 == 95 {
            assert(c as u32 == 95);
            vstd::utf8::char_u32_cast(c, c as u32);
            vstd::utf8::char_u32_cast(underscore_char, uc);
            assert(c == underscore_char);
            assert(false);
        }
    }
    assert forall|i: int| 0 <= i < stamp.len() implies encode_utf8(stamp)[i] != UNDERSCORE by {
        assert('0' <= stamp[i] && stamp[i] <= '9');
        assert(encode_utf8(stamp)[i] == stamp[i] as u8);
    }
    lemma_allocation_key_round_trip_bytes(
        encode_utf8(executor),
        encode_utf8(stamp),
        encode_utf8(task_key),
    );
    assert(encode_utf8(whole) =~= encode_utf8(executor) + seq![UNDERSCORE] + encode_utf8(stamp)
        + seq![UNDERSCORE] + encode_utf8(task_key));
}

/// A task reaches a terminal state exactly by leaving `Unknown`: giving a
/// task any outcome other than `Unknown` makes it terminal, whatever its
/// other attributes.
pub proof fn lemma_terminal_after_outcome(t: Task, o: TaskOutcome)
    requires
        o != TaskOutcome::Unknown,
    ensures
        (Task { outcome: o, ..t }).spec_terminal(),
        !(Task { outcome: TaskOutcome::Unknown, ..t }).spec_terminal(),
{
}

/// Collects the attributes of a [`Task`], derives its id, and stamps its
/// creation time; building fails, naming the field, when a required
/// attribute was never supplied.
#[derive(Debug, Clone, PartialEq)]
pub struct TaskBuilder {
    pub namespace: Option<String>,
    pub compute_graph_name: Option<String>,
    pub compute_fn_name: Option<String>,
    pub input_data_id: Option<String>,
    pub invocation_id: Option<String>,
}

impl Default for TaskBuilder {
    fn default() -> (r: Self)
        ensures
            r == (TaskBuilder {
                namespace: None,
                compute_graph_name: None,
                compute_fn_name: None,
                input_data_id: None,
                invocation_id: None,
            }),
    {
        TaskBuilder {
            namespace: None,
            compute_graph_name: None,
            compute_fn_name: None,
            input_data_id: None,
            invocation_id: None,
        }
    }
}

impl TaskBuilder {
    /// The error that `build` reports, if a required field is missing:
    /// the first unset field in declaration order.
    pub open spec fn first_missing(&self) -> Option<DataModelError> {
        if self.namespace is None {
            Some(DataModelError::NamespaceMissing)
        } else if self.compute_graph_name is None {
            Some(DataModelError::ComputeGraphNameMissing)
        } else if self.compute_fn_name is None {
            Some(DataModelError::ComputeFnNameMissing)
        } else if self.input_data_id is None {
            Some(DataModelError::InputDataIdMissing)
        } else if self.invocation_id is None {
            Some(DataModelError::InvocationIdMissing)
        } else {
            None
        }
    }

    pub fn namespace(self, value: String) -> (r: Self)
        ensures
            r == (TaskBuilder { namespace: Some(value), ..self }),
    {
        TaskBuilder { namespace: Some(value), ..self }
    }

    pub fn compute_graph_name(self, value: String) -> (r: Self)
        ensures
            r == (TaskBuilder { compute_graph_name: Some(value), ..self }),
    {
        TaskBuilder { compute_graph_name: Some(value), ..self }
    }

    pub fn compute_fn_name(self, value: String) -> (r: Self)
        ensures
            r == (TaskBuilder { compute_fn_name: Some(value), ..self }),
    {
        TaskBuilder { compute_fn_name: Some(value), ..self }
    }

    pub fn input_data_id(self, value: String) -> (r: Self)
        ensures
            r == (TaskBuilder { input_data_id: Some(value), ..self }),
    {
        TaskBuilder { input_data_id: Some(value), ..self }
    }

    pub fn invocation_id(self, value: String) -> (r: Self)
        ensures
            r == (TaskBuilder { invocation_id: Some(value), ..self }),
    {
        TaskBuilder { invocation_id: Some(value), ..self }
    }

    /// Builds the task: outcome `Unknown`, id derived from (graph,
    /// function, input id, invocation id, namespace), creation time read
    /// from the system clock.  Fails with a field-naming error when a
    /// required field was never supplied.
    pub fn build(&self) -> (r: Result<Task, DataModelError>)
        ensures
            r is Ok <==> self.first_missing() is None,
            r matches Ok(t) ==> {
                &&& Some(t.namespace) == self.namespace
                &&& Some(t.compute_graph_name) == self.compute_graph_name
                &&& Some(t.compute_fn_name) == self.compute_fn_name
                &&& Some(t.input_data_id) == self.input_data_id
                &&& Some(t.invocation_id) == self.invocation_id
                &&& t.outcome == TaskOutcome::Unknown
                &&& !t.spec_terminal()
                &&& t.creation_time.wf()
                &&& t.id@ == task_digest(
                    t.compute_graph_name@,
                    t.compute_fn_name@,
                    t.input_data_id@,
                    t.invocation_id@,
                    t.namespace@,
                )
            },
            r matches Err(e) ==> Some(e) == self.first_missing(),
    {
        let namespace = match &self.namespace {
            Some(v) => v.clone(),
            None => {
                return Err(DataModelError::NamespaceMissing);
            },
        };
        let compute_graph_name = match &self.compute_graph_name {
            Some(v) => v.clone(),
            None => {
                return Err(DataModelError::ComputeGraphNameMissing);
            },
        };
        let compute_fn_name = match &self.compute_fn_name {
            Some(v) => v.clone(),
            None => {
                return Err(DataModelError::ComputeFnNameMissing);
            },
        };
        let input_data_id = match &self.input_data_id {
            Some(v) => v.clone(),
            None => {
                return Err(DataModelError::InputDataIdMissing);
            },
        };
        let invocation_id = match &self.invocation_id {
            Some(v) => v.clone(),
            None => {
                return Err(DataModelError::InvocationIdMissing);
            },
        };
        let mut h = IdHasher::new();
        h.write_str(compute_graph_name.as_str());
        h.write_str(compute_fn_name.as_str());
        h.write_str(input_data_id.as_str());
        h.write_str(invocation_id.as_str());
        h.write_str(namespace.as_str());
        proof {
            assert(h.parts() =~= seq![
                compute_graph_name@,
                compute_fn_name@,
                input_data_id@,
                invocation_id@,
                namespace@,
            ]);
        }
        let id = h.digest();
        Ok(
            Task {
                id: TaskId(id),
                namespace,
                compute_fn_name,
                compute_graph_name,
                invocation_id,
                input_data_id,
                outcome: TaskOutcome::Unknown,
                creation_time: EpochTime::now(),
            },
        )
    }
}

} // verus!
