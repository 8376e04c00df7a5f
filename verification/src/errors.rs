//! Error values returned by the builders and parsers of this crate.
//!
//! Every builder failure names the field that was missing, so that a caller
//! can tell exactly which attribute it forgot to supply; no builder ever
//! returns a partially defaulted entity.

use vstd::prelude::*;

verus! {

/// The closed set of failures this crate can report.
#[derive(Debug, Clone, Copy, PartialEq, Eq, Structural)]
pub enum DataModelError {
    /// A builder was run without its `namespace` field.
    NamespaceMissing,
    /// A builder was run without its `compute_graph_name` field.
    ComputeGraphNameMissing,
    /// A builder was run without its `compute_fn_name` field.
    ComputeFnNameMissing,
    /// A task builder was run without its `input_data_id` field.
    InputDataIdMissing,
    /// A builder was run without its `invocation_id` field.
    InvocationIdMissing,
    /// A data-object builder was run without its `payload` field.
    PayloadMissing,
    /// A state-change builder was run without its `id` field.
    StateChangeIdMissing,
    /// A state-change builder was run without its `object_id` field.
    ObjectIdMissing,
    /// A state-change builder was run without its `change_type` field.
    ChangeTypeMissing,
    /// A state-change builder was run without its `created_at` field.
    CreatedAtMissing,
    /// An allocation key had fewer than two `_` delimiters.
    InvalidExecutorKey,
}

impl DataModelError {
    /// The human-readable text of this error.
    pub fn message(&self) -> (r: &'static str)
        ensures
            r@ == self.spec_message(),
    {
        match self {
            DataModelError::NamespaceMissing => "namespace is required",
            DataModelError::ComputeGraphNameMissing => "compute_graph_name is required",
            DataModelError::ComputeFnNameMissing => "compute_fn_name is required",
            DataModelError::InputDataIdMissing => "input_data_id is required",
            DataModelError::InvocationIdMissing => "invocation_id is required",
            DataModelError::PayloadMissing => "payload is required",
            DataModelError::StateChangeIdMissing => "id is required",
            DataModelError::ObjectIdMissing => "object_id is required",
            DataModelError::ChangeTypeMissing => "change_type is required",
            DataModelError::CreatedAtMissing => "created_at is required",
            DataModelError::InvalidExecutorKey => "invalid executor key",
        }
    }

    /// What `message` returns, as a sequence of characters.
    pub open spec fn spec_message(&self) -> Seq<char> {
        match self {
            DataModelError::NamespaceMissing => "namespace is required"@,
            DataModelError::ComputeGraphNameMissing => "compute_graph_name is required"@,
            DataModelError::ComputeFnNameMissing => "compute_fn_name is required"@,
            DataModelError::InputDataIdMissing => "input_data_id is required"@,
            DataModelError::InvocationIdMissing => "invocation_id is required"@,
            DataModelError::PayloadMissing => "payload is required"@,
            DataModelError::StateChangeIdMissing => "id is required"@,
            DataModelError::ObjectIdMissing => "object_id is required"@,
            DataModelError::ChangeTypeMissing => "change_type is required"@,
            DataModelError::CreatedAtMissing => "created_at is required"@,
            DataModelError::InvalidExecutorKey => "invalid executor key"@,
        }
    }
}

} // verus!
