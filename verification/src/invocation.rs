//! One invocation of a compute graph against one input.
//!
//! An invocation context is created once per invocation, keyed by
//! `namespace_graph_invocation`, and carries the per-function task counters
//! as tasks progress.

use std::collections::HashMap;
use vstd::prelude::*;

use crate::analytics::TaskAnalytics;
use crate::errors::DataModelError;
use crate::keys::push_part;
use crate::keys::sep;

verus! {

/// The context of one invocation of a graph on one input.
#[derive(Debug, Clone)]
pub struct GraphInvocationCtx {
    pub namespace: String,
    pub compute_graph_name: String,
    pub invocation_id: String,
    pub fn_task_analytics: HashMap<String, TaskAnalytics>,
}

impl GraphInvocationCtx {
    /// The storage key of this context: `namespace_graph_invocation`.
    pub fn key(&self) -> (r: String)
        ensures
            r@ == self.namespace@ + sep() + self.compute_graph_name@ + sep()
                + self.invocation_id@,
    {
        let mut key = self.namespace.clone();
        push_part(&mut key, self.compute_graph_name.as_str());
        push_part(&mut key, self.invocation_id.as_str());
        key
    }
}

/// Collects the attributes of a [`GraphInvocationCtx`]; building fails,
/// naming the field, when a required attribute was never supplied.
#[derive(Debug, Clone, PartialEq)]
pub struct GraphInvocationCtxBuilder {
    pub namespace: Option<String>,
    pub compute_graph_name: Option<String>,
    pub invocation_id: Option<String>,
}

impl Default for GraphInvocationCtxBuilder {
    fn default() -> (r: Self)
        ensures
            r == (GraphInvocationCtxBuilder {
                namespace: None,
                compute_graph_name: None,
                invocation_id: None,
            }),
    {
        GraphInvocationCtxBuilder {
            namespace: None,
            compute_graph_name: None,
            invocation_id: None,
        }
    }
}

impl GraphInvocationCtxBuilder {
    /// The error that `build` reports, if a required field is missing:
    /// the first unset field in declaration order.
    pub open spec fn first_missing(&self) -> Option<DataModelError> {
        if self.namespace is None {
            Some(DataModelError::NamespaceMissing)
        } else if self.compute_graph_name is None {
            Some(DataModelError::ComputeGraphNameMissing)
        } else if self.invocation_id is None {
            Some(DataModelError::InvocationIdMissing)
        } else {
            None
        }
    }

    pub fn namespace(self, value: String) -> (r: Self)
        ensures
            r == (GraphInvocationCtxBuilder { namespace: Some(value), ..self }),
    {
        GraphInvocationCtxBuilder { namespace: Some(value), ..self }
    }

    pub fn compute_graph_name(self, value: String) -> (r: Self)
        ensures
            r == (GraphInvocationCtxBuilder { compute_graph_name: Some(value), ..self }),
    {
        GraphInvocationCtxBuilder { compute_graph_name: Some(value), ..self }
    }

    pub fn invocation_id(self, value: String) -> (r: Self)
        ensures
            r == (GraphInvocationCtxBuilder { invocation_id: Some(value), ..self }),
    {
        GraphInvocationCtxBuilder { invocation_id: Some(value), ..self }
    }

    /// Builds the context with no per-function counters yet; fails with a
    /// field-naming error when a required field was never supplied.
    pub fn build(&self) -> (r: Result<GraphInvocationCtx, DataModelError>)
        ensures
            r is Ok <==> self.first_missing() is None,
            r matches Ok(ctx) ==> {
                &&& Some(ctx.namespace) == self.namespace
                &&& Some(ctx.compute_graph_name) == self.compute_graph_name
                &&& Some(ctx.invocation_id) == self.invocation_id
                &&& ctx.fn_task_analytics@ == Map::<String, TaskAnalytics>::empty()
            },
            r matches Err(e) ==> Some(e) == self.first_missing(),
    {
        let namespace = match &self.namespace {
            Some(v) => v.clone(),
            None => {
                return Err(DataModelError::NamespaceMissing);
            },
        };
        let compute_graph_name = match &self.compute_graph_name {
            Some(v) => v.clone(),
            None => {
                return Err(DataModelError::ComputeGraphNameMissing);
            },
        };
        let invocation_id = match &self.invocation_id {
            Some(v) => v.clone(),
            None => {
                return Err(DataModelError::InvocationIdMissing);
            },
        };
        Ok(GraphInvocationCtx {
            namespace,
            compute_graph_name,
            invocation_id,
            fn_task_analytics: HashMap::new(),
        })
    }
}

} // verus!
