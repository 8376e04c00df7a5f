//! Identity, lifecycle, and coordination primitives for a distributed
//! dataflow execution system.
//!
//! A named graph of functions ([`ComputeGraph`]) is invoked per input,
//! fanned out into individually addressable [`Task`]s assigned to executors,
//! and progress is tracked through an append-only [`StateChange`] log.
//! Every entity carries a deterministic, ordering-aware key, because those
//! keys double as both business identity and sort keys in an external
//! ordered key-value store.

pub mod analytics;
pub mod data_object;
pub mod digits;
pub mod errors;
pub mod executor;
pub mod graph;
pub mod hashing;
pub mod invocation;
pub mod keys;
pub mod state_change;
pub mod task;

pub use analytics::TaskAnalytics;
pub use analytics::TaskEvent;
pub use data_object::DataObject;
pub use data_object::DataObjectBuilder;
pub use data_object::DataPayload;
pub use errors::DataModelError;
pub use executor::ExecutorId;
pub use executor::ExecutorMetadata;
pub use executor::LabelValue;
pub use executor::LabelsFilter;
pub use graph::ComputeFn;
pub use graph::ComputeGraph;
pub use graph::ComputeGraphCode;
pub use graph::DynamicEdgeRouter;
pub use graph::Namespace;
pub use graph::Node;
pub use invocation::GraphInvocationCtx;
pub use invocation::GraphInvocationCtxBuilder;
pub use state_change::ChangeType;
pub use state_change::InvokeComputeGraphEvent;
pub use state_change::StateChange;
pub use state_change::StateChangeBuilder;
pub use state_change::StateChangeId;
pub use state_change::TaskFinishedEvent;
pub use task::EpochTime;
pub use task::Task;
pub use task::TaskBuilder;
pub use task::TaskId;
pub use task::TaskOutcome;
pub use task::default_creation_time;
