//! The compute graph: a named, namespaced DAG of functions forming a
//! pipeline.
//!
//! A vertex is either a router (fan-out to named targets) or a compute
//! function.  Creating a task from a vertex routes through the task builder,
//! so the task's id and key follow the same derivation wherever the task is
//! born.  Cycles and dangling edges are not validated at construction time;
//! this layer only stores the structure.

use std::collections::HashMap;
use vstd::prelude::*;
use vstd::string::StringExecFns;

use crate::errors::DataModelError;
use crate::executor::ExecutorMetadata;
use crate::executor::LabelsFilter;
use crate::executor::filter_matches;
use crate::keys::push_part;
use crate::keys::sep;
use crate::task::Task;
use crate::task::TaskBuilder;
use crate::task::TaskOutcome;
use crate::task::task_digest;

verus! {

/// A tenant boundary: namespace names are globally unique among active
/// namespaces.
#[derive(Debug, Clone, PartialEq)]
pub struct Namespace {
    pub name: String,
    pub created_at: u64,
}

/// A routing vertex: fans its source function's output out to the named
/// target functions.  Which targets receive a given output is decided by an
/// external scheduler; this layer stores the static list.
#[derive(Debug, Clone, PartialEq)]
pub struct DynamicEdgeRouter {
    pub name: String,
    pub description: String,
    pub source_fn: String,
    pub target_functions: Vec<String>,
}

/// A compute vertex: one function, with the placement constraints an
/// executor must satisfy to run it.
#[derive(Debug, Clone, PartialEq)]
pub struct ComputeFn {
    pub name: String,
    pub description: String,
    pub placement_constraints: LabelsFilter,
    pub fn_name: String,
}

impl ComputeFn {
    /// Whether this function may run on `executor`: every placement
    /// constraint must be satisfied by the executor's labels.
    pub fn matches_executor(&self, executor: &ExecutorMetadata) -> (r: bool)
        ensures
            r == filter_matches(self.placement_constraints.constraints@, executor.labels@),
    {
        self.placement_constraints.matches(&executor.labels)
    }
}

/// One DAG vertex: a router or a compute function.  A closed set, matched
/// exhaustively at every consumption site.
#[derive(Debug, Clone, PartialEq)]
pub enum Node {
    Router(DynamicEdgeRouter),
    Compute(ComputeFn),
}

impl Node {
    /// The logical name of this vertex, whichever variant it is.
    pub open spec fn node_name(&self) -> Seq<char> {
        match self {
            Node::Router(router) => router.name@,
            Node::Compute(compute) => compute.name@,
        }
    }

    /// Builds the task that runs this vertex's function on one input within
    /// one invocation.  All required attributes are supplied here, so the
    /// build always succeeds; the task starts in the `Unknown` outcome with
    /// its id derived from its logical coordinates.
    pub fn create_task(
        &self,
        namespace: &str,
        compute_graph_name: &str,
        input_id: &str,
        invocation_id: &str,
    ) -> (r: Result<Task, DataModelError>)
        ensures
            r is Ok,
            r matches Ok(t) ==> {
                &&& t.namespace@ == namespace@
                &&& t.compute_graph_name@ == compute_graph_name@
                &&& t.compute_fn_name@ == self.node_name()
                &&& t.input_data_id@ == input_id@
                &&& t.invocation_id@ == invocation_id@
                &&& t.outcome == TaskOutcome::Unknown
                &&& t.creation_time.wf()
                &&& t.id@ == task_digest(
                    compute_graph_name@,
                    self.node_name(),
                    input_id@,
                    invocation_id@,
                    namespace@,
                )
            },
    {
        let name = match self {
            Node::Router(router) => router.name.clone(),
            Node::Compute(compute) => compute.name.clone(),
        };
        TaskBuilder::default().namespace(namespace.to_owned()).compute_fn_name(
            name,
        ).compute_graph_name(compute_graph_name.to_owned()).invocation_id(
            invocation_id.to_owned(),
        ).input_data_id(input_id.to_owned()).build()
    }
}

/// The code artifact a graph runs: where it lives, its size, and the digest
/// of its bytes.
#[derive(Debug, Clone, PartialEq)]
pub struct ComputeGraphCode {
    pub path: String,
    pub size: u64,
    pub sha256_hash: String,
}

/// A named DAG of functions: a start vertex and a map from a vertex's name
/// to its downstream vertices.  Logically immutable once published, except
/// for tombstoning.
#[derive(Debug, Clone)]
pub struct ComputeGraph {
    pub namespace: String,
    pub name: String,
    pub description: String,
    pub code: ComputeGraphCode,
    pub create_at: u64,
    pub tomb_stoned: bool,
    pub start_fn: Node,
    pub edges: HashMap<String, Vec<Node>>,
}

impl ComputeGraph {
    /// The storage key of this graph: `namespace_name`, unique per
    /// namespace.
    pub fn key(&self) -> (r: String)
        ensures
            r@ == self.namespace@ + sep() + self.name@,
    {
        let mut key = self.namespace.clone();
        push_part(&mut key, self.name.as_str());
        key
    }
}

} // verus!
