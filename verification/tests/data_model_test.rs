use std::collections::hash_map::DefaultHasher;
use std::hash::Hash;
use std::hash::Hasher;

use data_model::ChangeType;
use data_model::ComputeFn;
use data_model::DataModelError;
use data_model::DataObjectBuilder;
use data_model::DataPayload;
use data_model::DynamicEdgeRouter;
use data_model::EpochTime;
use data_model::ExecutorId;
use data_model::ExecutorMetadata;
use data_model::GraphInvocationCtxBuilder;
use data_model::InvokeComputeGraphEvent;
use data_model::LabelValue;
use data_model::LabelsFilter;
use data_model::Node;
use data_model::StateChangeBuilder;
use data_model::StateChangeId;
use data_model::Task;
use data_model::TaskBuilder;
use data_model::TaskFinishedEvent;
use data_model::TaskOutcome;
use data_model::default_creation_time;

fn base_task_builder() -> TaskBuilder {
    TaskBuilder::default()
        .namespace("ns1".to_string())
        .compute_graph_name("g1".to_string())
        .compute_fn_name("f1".to_string())
        .input_data_id("in1".to_string())
        .invocation_id("inv1".to_string())
}

fn base_object_builder() -> DataObjectBuilder {
    DataObjectBuilder::default()
        .namespace("ns1".to_string())
        .compute_graph_name("g1".to_string())
        .compute_fn_name("f1".to_string())
        .payload(DataPayload {
            path: "/tmp/blob".to_string(),
            size: 4,
            sha256_hash: "abc123".to_string(),
        })
}

#[test]
fn task_id_is_deterministic() {
    let a = base_task_builder().build().unwrap();
    let b = base_task_builder().build().unwrap();
    assert_eq!(a.id, b.id);
    assert_eq!(a.key(), b.key());
}

#[test]
fn task_id_matches_field_order_hash() {
    let t = base_task_builder().build().unwrap();
    let mut hasher = DefaultHasher::new();
    "g1".hash(&mut hasher);
    "f1".hash(&mut hasher);
    "in1".hash(&mut hasher);
    "inv1".hash(&mut hasher);
    "ns1".hash(&mut hasher);
    let expected = format!("{:x}", hasher.finish());
    assert_eq!(t.id.as_str(), expected.as_str());
}

#[test]
fn task_id_is_sensitive_to_every_field() {
    let base = base_task_builder().build().unwrap();
    let mutated = [
        base_task_builder().namespace("ns2".to_string()),
        base_task_builder().compute_graph_name("g2".to_string()),
        base_task_builder().compute_fn_name("f2".to_string()),
        base_task_builder().input_data_id("in2".to_string()),
        base_task_builder().invocation_id("inv2".to_string()),
    ];
    for builder in mutated.iter() {
        let other = builder.build().unwrap();
        assert_ne!(base.id, other.id);
    }
}

#[test]
fn task_builder_reports_each_missing_field() {
    let b = TaskBuilder::default()
        .compute_graph_name("g1".to_string())
        .compute_fn_name("f1".to_string())
        .input_data_id("in1".to_string())
        .invocation_id("inv1".to_string());
    assert_eq!(b.build().unwrap_err(), DataModelError::NamespaceMissing);

    let b = TaskBuilder::default()
        .namespace("ns1".to_string())
        .compute_fn_name("f1".to_string())
        .input_data_id("in1".to_string())
        .invocation_id("inv1".to_string());
    assert_eq!(b.build().unwrap_err(), DataModelError::ComputeGraphNameMissing);

    let b = TaskBuilder::default()
        .namespace("ns1".to_string())
        .compute_graph_name("g1".to_string())
        .input_data_id("in1".to_string())
        .invocation_id("inv1".to_string());
    assert_eq!(b.build().unwrap_err(), DataModelError::ComputeFnNameMissing);

    let b = TaskBuilder::default()
        .namespace("ns1".to_string())
        .compute_graph_name("g1".to_string())
        .compute_fn_name("f1".to_string())
        .invocation_id("inv1".to_string());
    assert_eq!(b.build().unwrap_err(), DataModelError::InputDataIdMissing);

    let b = TaskBuilder::default()
        .namespace("ns1".to_string())
        .compute_graph_name("g1".to_string())
        .compute_fn_name("f1".to_string())
        .input_data_id("in1".to_string());
    let e = b.build().unwrap_err();
    assert_eq!(e, DataModelError::InvocationIdMissing);
    assert_eq!(e.message(), "invocation_id is required");
}

#[test]
fn task_key_has_documented_format() {
    let t = base_task_builder().build().unwrap();
    let expected = format!("ns1_g1_inv1_f1_{}", t.id.as_str());
    assert_eq!(t.key(), expected);
}

#[test]
fn fresh_task_is_not_terminal() {
    let mut t = base_task_builder().build().unwrap();
    assert_eq!(t.outcome, TaskOutcome::Unknown);
    assert!(!t.terminal_state());
    t.outcome = TaskOutcome::Success;
    assert!(t.terminal_state());
    t.outcome = TaskOutcome::Failure;
    assert!(t.terminal_state());
}

#[test]
fn task_describe_names_fields_and_outcome() {
    let t = base_task_builder().build().unwrap();
    let expected = format!(
        "Task(id: {}, compute_fn_name: f1, compute_graph_name: g1, content_id: in1, outcome: Unknown)",
        t.id.as_str()
    );
    assert_eq!(t.describe(), expected);
}

#[test]
fn allocation_key_round_trips() {
    let t = base_task_builder().build().unwrap();
    let executor = ExecutorId::new("exec1".to_string());
    let alloc_key = t.make_allocation_key(&executor);
    assert!(alloc_key.starts_with("exec1_"));
    assert!(alloc_key.ends_with(&t.key()));
    let recovered = Task::key_from_executor_key(alloc_key.as_bytes()).unwrap();
    assert_eq!(recovered, t.key().into_bytes());
}

#[test]
fn allocation_key_embeds_creation_time_nanos() {
    let t = base_task_builder().build().unwrap();
    let executor = ExecutorId::new("e".to_string());
    let alloc_key = t.make_allocation_key(&executor);
    let nanos: u128 = t.creation_time.as_nanos();
    assert_eq!(alloc_key, format!("e_{}_{}", nanos, t.key()));
}

#[test]
fn allocation_key_round_trips_for_non_ascii_task_keys() {
    let t = TaskBuilder::default()
        .namespace("ns\u{2603}".to_string())
        .compute_graph_name("g1".to_string())
        .compute_fn_name("f\u{e9}".to_string())
        .input_data_id("in1".to_string())
        .invocation_id("inv1".to_string())
        .build()
        .unwrap();
    let executor = ExecutorId::new("exec1".to_string());
    let alloc_key = t.make_allocation_key(&executor);
    let recovered = Task::key_from_executor_key(alloc_key.as_bytes()).unwrap();
    assert_eq!(recovered, t.key().into_bytes());
}

#[test]
fn malformed_executor_keys_are_rejected() {
    let e = Task::key_from_executor_key(b"nodelimiters").unwrap_err();
    assert_eq!(e, DataModelError::InvalidExecutorKey);
    assert_eq!(e.message(), "invalid executor key");
    let e = Task::key_from_executor_key(b"one_delimiter").unwrap_err();
    assert_eq!(e, DataModelError::InvalidExecutorKey);
    let e = Task::key_from_executor_key(b"").unwrap_err();
    assert_eq!(e, DataModelError::InvalidExecutorKey);
    let ok = Task::key_from_executor_key(b"two__suffix").unwrap();
    assert_eq!(ok, b"suffix".to_vec());
    let empty = Task::key_from_executor_key(b"exec_42_").unwrap();
    assert_eq!(empty, Vec::<u8>::new());
}

#[test]
fn epoch_time_totals_nanoseconds() {
    let t = EpochTime { secs: 1, nanos: 5 };
    assert_eq!(t.as_nanos(), 1_000_000_005u128);
    assert_eq!(default_creation_time(), EpochTime { secs: 0, nanos: 0 });
}

#[test]
fn data_object_id_is_deterministic() {
    let a = base_object_builder().build().unwrap();
    let b = base_object_builder().build().unwrap();
    assert_eq!(a.id, b.id);
}

#[test]
fn data_object_id_is_sensitive_to_every_field() {
    let base = base_object_builder().build().unwrap();
    let payload = |path: &str, sha: &str| DataPayload {
        path: path.to_string(),
        size: 4,
        sha256_hash: sha.to_string(),
    };
    let mutated = [
        base_object_builder().namespace("ns2".to_string()),
        base_object_builder().compute_graph_name("g2".to_string()),
        base_object_builder().compute_fn_name("f2".to_string()),
        base_object_builder().payload(payload("/tmp/blob", "other")),
        base_object_builder().payload(payload("/tmp/other", "abc123")),
    ];
    for builder in mutated.iter() {
        let other = builder.build().unwrap();
        assert_ne!(base.id, other.id);
    }
}

#[test]
fn data_object_builder_reports_missing_fields() {
    let e = DataObjectBuilder::default().build().unwrap_err();
    assert_eq!(e, DataModelError::NamespaceMissing);
    assert_eq!(e.message(), "namespace is required");
    assert!(base_object_builder().build().is_ok());
    let b = DataObjectBuilder::default()
        .namespace("ns1".to_string())
        .compute_graph_name("g1".to_string())
        .compute_fn_name("f1".to_string());
    assert_eq!(b.build().unwrap_err(), DataModelError::PayloadMissing);
}

#[test]
fn ingestion_key_has_documented_prefix() {
    let o = base_object_builder().build().unwrap();
    let key = o.ingestion_object_key();
    assert!(key.starts_with("ns1_g1_"));
    let digest = &key["ns1_g1_".len()..];
    assert!(!digest.is_empty());
    assert!(digest.chars().all(|c| c.is_ascii_hexdigit()));
    assert_eq!(key, o.ingestion_object_key());
}

#[test]
fn fn_output_key_folds_in_ingestion_key() {
    let o = base_object_builder().build().unwrap();
    let key = o.fn_output_key("ing42");
    assert!(key.starts_with("ns1_g1_ing42_f1_"));
    let other = o.fn_output_key("ing43");
    assert_ne!(key, other);
}

#[test]
fn invocation_ctx_key_matches_documented_format() {
    let ctx = GraphInvocationCtxBuilder::default()
        .namespace("ns1".to_string())
        .compute_graph_name("g1".to_string())
        .invocation_id("inv1".to_string())
        .build()
        .unwrap();
    assert_eq!(ctx.key(), "ns1_g1_inv1");
    assert!(ctx.fn_task_analytics.is_empty());
}

#[test]
fn invocation_ctx_builder_reports_missing_fields() {
    let e = GraphInvocationCtxBuilder::default().build().unwrap_err();
    assert_eq!(e, DataModelError::NamespaceMissing);
    let e = GraphInvocationCtxBuilder::default()
        .namespace("ns1".to_string())
        .compute_graph_name("g1".to_string())
        .build()
        .unwrap_err();
    assert_eq!(e, DataModelError::InvocationIdMissing);
}

#[test]
fn analytics_counters_follow_events() {
    let mut a = data_model::TaskAnalytics::default();
    a.pending();
    a.pending();
    assert_eq!(a.pending_tasks, 2);
    a.success();
    assert_eq!(a.pending_tasks, 1);
    assert_eq!(a.successful_tasks, 1);
    a.fail();
    assert_eq!(a.pending_tasks, 0);
    assert_eq!(a.failed_tasks, 1);
}

#[test]
fn analytics_never_underflow_at_zero_pending() {
    let mut a = data_model::TaskAnalytics::default();
    a.success();
    a.fail();
    a.fail();
    assert_eq!(a.pending_tasks, 0);
    assert_eq!(a.successful_tasks, 1);
    assert_eq!(a.failed_tasks, 2);
}

#[test]
fn node_create_task_uses_node_name() {
    let compute = Node::Compute(ComputeFn {
        name: "f1".to_string(),
        description: String::new(),
        placement_constraints: LabelsFilter::empty(),
        fn_name: "f1".to_string(),
    });
    let direct = base_task_builder().build().unwrap();
    let from_node = compute.create_task("ns1", "g1", "in1", "inv1").unwrap();
    assert_eq!(from_node.id, direct.id);
    assert_eq!(from_node.compute_fn_name, "f1");
    assert_eq!(from_node.outcome, TaskOutcome::Unknown);

    let router = Node::Router(DynamicEdgeRouter {
        name: "r1".to_string(),
        description: String::new(),
        source_fn: "f1".to_string(),
        target_functions: vec!["f2".to_string()],
    });
    let routed = router.create_task("ns1", "g1", "in1", "inv1").unwrap();
    assert_eq!(routed.compute_fn_name, "r1");
    assert_ne!(routed.id, direct.id);
}

#[test]
fn compute_graph_key_joins_namespace_and_name() {
    let graph = data_model::ComputeGraph {
        namespace: "ns1".to_string(),
        name: "g1".to_string(),
        description: String::new(),
        code: data_model::ComputeGraphCode {
            path: "code".to_string(),
            size: 1,
            sha256_hash: "h".to_string(),
        },
        create_at: 0,
        tomb_stoned: false,
        start_fn: Node::Compute(ComputeFn {
            name: "f1".to_string(),
            description: String::new(),
            placement_constraints: LabelsFilter::empty(),
            fn_name: "f1".to_string(),
        }),
        edges: std::collections::HashMap::new(),
    };
    assert_eq!(graph.key(), "ns1_g1");
}

#[test]
fn placement_matching_requires_every_constraint() {
    let filter = LabelsFilter {
        constraints: vec![
            ("zone".to_string(), LabelValue::Str("eu".to_string())),
            ("gpu".to_string(), LabelValue::Bool(true)),
        ],
    };
    let compute = ComputeFn {
        name: "f1".to_string(),
        description: String::new(),
        placement_constraints: filter,
        fn_name: "f1".to_string(),
    };
    let mut executor = ExecutorMetadata::default();
    executor.labels = vec![
        ("zone".to_string(), LabelValue::Str("eu".to_string())),
        ("gpu".to_string(), LabelValue::Bool(true)),
        ("cores".to_string(), LabelValue::Int(8)),
    ];
    assert!(compute.matches_executor(&executor));

    executor.labels = vec![("zone".to_string(), LabelValue::Str("eu".to_string()))];
    assert!(!compute.matches_executor(&executor));

    executor.labels = vec![
        ("zone".to_string(), LabelValue::Str("us".to_string())),
        ("gpu".to_string(), LabelValue::Bool(true)),
    ];
    assert!(!compute.matches_executor(&executor));
}

#[test]
fn empty_filter_matches_any_executor() {
    let compute = ComputeFn {
        name: "f1".to_string(),
        description: String::new(),
        placement_constraints: LabelsFilter::empty(),
        fn_name: "f1".to_string(),
    };
    let executor = ExecutorMetadata::default();
    assert!(compute.matches_executor(&executor));
}

#[test]
fn state_change_id_key_is_big_endian() {
    let id = StateChangeId::new(0x0102030405060708);
    assert_eq!(id.to_key(), [1, 2, 3, 4, 5, 6, 7, 8]);
    let one = StateChangeId::new(1);
    assert_eq!(one.to_key(), [0, 0, 0, 0, 0, 0, 0, 1]);
    assert_eq!(u64::from(one), 1);
}

#[test]
fn state_change_id_key_round_trips_and_orders() {
    for value in [0u64, 1, 255, 256, 65_535, u64::MAX] {
        let id = StateChangeId::new(value);
        assert_eq!(StateChangeId::from_key(id.to_key()), id);
        assert_eq!(u64::from(StateChangeId::from_key(id.to_key())), value);
    }
    let smaller = StateChangeId::new(255).to_key();
    let larger = StateChangeId::new(256).to_key();
    assert!(smaller < larger);
}

#[test]
fn state_change_builder_requires_core_fields() {
    let e = StateChangeBuilder::default().build().unwrap_err();
    assert_eq!(e, DataModelError::StateChangeIdMissing);
    let e = StateChangeBuilder::default()
        .id(StateChangeId::new(7))
        .object_id("obj".to_string())
        .build()
        .unwrap_err();
    assert_eq!(e, DataModelError::ChangeTypeMissing);
    let sc = StateChangeBuilder::default()
        .id(StateChangeId::new(7))
        .object_id("obj".to_string())
        .change_type(ChangeType::ExecutorAdded)
        .created_at(42)
        .build()
        .unwrap();
    assert_eq!(u64::from(sc.id), 7);
    assert_eq!(sc.object_id, "obj");
    assert_eq!(sc.change_type, ChangeType::ExecutorAdded);
    assert_eq!(sc.created_at, 42);
    assert_eq!(sc.processed_at, None);
}

#[test]
fn change_type_kind_names() {
    let invoke = ChangeType::InvokeComputeGraph(InvokeComputeGraphEvent {
        invocation_id: "inv1".to_string(),
        namespace: "ns1".to_string(),
        compute_graph: "g1".to_string(),
    });
    assert_eq!(invoke.kind_name(), "InvokeComputeGraph");
    let finished = ChangeType::TaskFinished(TaskFinishedEvent {
        namespace: "ns1".to_string(),
        compute_graph: "g1".to_string(),
        compute_fn: "f1".to_string(),
        task_id: "t1".to_string(),
    });
    assert_eq!(finished.kind_name(), "TaskFinished");
    assert_eq!(ChangeType::TombstoneIngestedData.kind_name(), "TombstoneIngestedData");
    assert_eq!(ChangeType::TombstoneComputeGraph.kind_name(), "TombstoneComputeGraph");
    assert_eq!(ChangeType::ExecutorAdded.kind_name(), "ExecutorAdded");
    assert_eq!(ChangeType::ExecutorRemoved.kind_name(), "ExecutorRemoved");
}

#[test]
fn task_finished_event_describes_itself() {
    let finished = TaskFinishedEvent {
        namespace: "ns1".to_string(),
        compute_graph: "g1".to_string(),
        compute_fn: "f1".to_string(),
        task_id: "t1".to_string(),
    };
    assert_eq!(
        finished.describe(),
        "TaskFinishedEvent(namespace: ns1, compute_graph: g1, compute_fn: f1, task_id: t1)"
    );
}

#[test]
fn digit_renderings_are_exact() {
    assert_eq!(data_model::digits::u64_to_hex(0), "0");
    assert_eq!(data_model::digits::u64_to_hex(255), "ff");
    assert_eq!(data_model::digits::u64_to_hex(0xdeadbeef), "deadbeef");
    assert_eq!(data_model::digits::u128_to_dec(0), "0");
    assert_eq!(data_model::digits::u128_to_dec(12345), "12345");
}
