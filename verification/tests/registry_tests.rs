use physical_plan::batch::{Batch, ScalarValue};
use physical_plan::error::PlanError;
use physical_plan::explain::{ExplainExec, StringifiedPlan};
use physical_plan::feed::PushFeedExec;
use physical_plan::plan::PlanNode;
use physical_plan::registry::{
    decode, encode, explain_tag, push_feed_tag, Registry, WireFields, WireNode,
};
use physical_plan::schema::{DataType, Field, Schema};

fn explain_schema() -> Schema {
    Schema::new(vec![
        Field::new("plan_type".to_string(), DataType::Utf8, false),
        Field::new("plan".to_string(), DataType::Utf8, false),
    ])
}

fn sample_explain() -> ExplainExec {
    ExplainExec::new(
        explain_schema(),
        vec![
            StringifiedPlan::new("logical_plan".to_string(), "Projection: a".to_string()),
            StringifiedPlan::new("physical_plan".to_string(), "ExplainExec".to_string()),
        ],
    )
}

fn full_registry() -> Registry {
    let mut registry = Registry::new();
    registry.register(explain_tag());
    registry.register(push_feed_tag());
    registry
}

fn utf8_of(v: &ScalarValue) -> &str {
    match v {
        ScalarValue::Utf8(s) => s.as_str(),
        ScalarValue::Int64(_) => panic!("expected a text cell"),
    }
}

fn same_execute_output(a: &PlanNode, b: &PlanNode, partition: usize) {
    let mut sa = a.execute(partition).unwrap();
    let mut sb = b.execute(partition).unwrap();
    loop {
        match (sa.next(), sb.next()) {
            (None, None) => break,
            (Some(x), Some(y)) => {
                assert!(x.schema().matches(y.schema()));
                assert_eq!(x.num_rows(), y.num_rows());
                assert_eq!(x.num_columns(), y.num_columns());
                for col in 0..x.num_columns() {
                    for row in 0..x.num_rows() {
                        assert_eq!(utf8_of(x.value(col, row)), utf8_of(y.value(col, row)));
                    }
                }
            },
            _ => panic!("streams of the two nodes differ in length"),
        }
    }
}

#[test]
fn explain_round_trips_through_the_registry() {
    let node = PlanNode::Explain(sample_explain());
    let registry = full_registry();
    let wire = encode(&node);
    let decoded = decode(&registry, wire).unwrap();
    assert!(decoded.schema().matches(&node.schema()));
    assert!(decoded.children().is_empty());
    same_execute_output(&node, &decoded, 0);
}

#[test]
fn fed_push_feed_node_round_trips_through_the_registry() {
    let schema = explain_schema();
    let mut fed = PushFeedExec::new(explain_schema(), 1);
    let batch = Batch::try_new(
        schema,
        vec![
            vec![ScalarValue::Utf8("stage".to_string())],
            vec![ScalarValue::Utf8("text".to_string())],
        ],
    )
    .unwrap();
    fed.feed_batches(vec![vec![batch]]).unwrap();
    let node = PlanNode::PushFeed(fed);
    let registry = full_registry();
    let decoded = decode(&registry, encode(&node)).unwrap();
    assert!(decoded.schema().matches(&node.schema()));
    assert_eq!(
        decoded.output_partitioning().partition_count(),
        node.output_partitioning().partition_count()
    );
    same_execute_output(&node, &decoded, 0);
}

#[test]
fn unfed_push_feed_node_round_trips_as_unfed() {
    let node = PlanNode::PushFeed(PushFeedExec::new(explain_schema(), 3));
    let registry = full_registry();
    let decoded = decode(&registry, encode(&node)).unwrap();
    assert_eq!(decoded.output_partitioning().partition_count(), 3);
    assert!(matches!(decoded.execute(0), Err(PlanError::Internal(_))));
}

#[test]
fn decoding_an_unregistered_tag_is_not_supported() {
    let node = PlanNode::Explain(sample_explain());
    let registry = Registry::new();
    assert!(matches!(
        decode(&registry, encode(&node)),
        Err(PlanError::NotSupported(_))
    ));
}

#[test]
fn decoding_an_unknown_tag_is_not_supported() {
    let mut registry = full_registry();
    registry.register("mystery_exec".to_string());
    let wire = WireNode {
        tag: "mystery_exec".to_string(),
        fields: WireFields::Explain {
            schema: explain_schema(),
            stringified_plans: Vec::new(),
        },
    };
    assert!(matches!(
        decode(&registry, wire),
        Err(PlanError::NotSupported(_))
    ));
}

#[test]
fn decoding_mismatched_fields_is_an_invalid_argument() {
    let registry = full_registry();
    let wire = WireNode {
        tag: push_feed_tag(),
        fields: WireFields::Explain {
            schema: explain_schema(),
            stringified_plans: Vec::new(),
        },
    };
    assert!(matches!(
        decode(&registry, wire),
        Err(PlanError::InvalidArgument(_))
    ));
}

#[test]
fn decoding_a_mismatched_explain_schema_is_an_invalid_argument() {
    let registry = full_registry();
    let wire = WireNode {
        tag: explain_tag(),
        fields: WireFields::Explain {
            schema: Schema::new(vec![Field::new("n".to_string(), DataType::Int64, false)]),
            stringified_plans: Vec::new(),
        },
    };
    assert!(matches!(
        decode(&registry, wire),
        Err(PlanError::InvalidArgument(_))
    ));
}

#[test]
fn decoding_inconsistent_fed_contents_is_an_invalid_argument() {
    let registry = full_registry();
    let wire = WireNode {
        tag: push_feed_tag(),
        fields: WireFields::PushFeed {
            schema: explain_schema(),
            partition_count: 2,
            fed: Some(vec![Vec::new()]),
        },
    };
    assert!(matches!(
        decode(&registry, wire),
        Err(PlanError::InvalidArgument(_))
    ));
}

#[test]
fn registration_is_append_only_and_queryable() {
    let mut registry = Registry::new();
    assert!(!registry.is_registered(&"explain_exec".to_string()));
    registry.register(explain_tag());
    assert!(registry.is_registered(&"explain_exec".to_string()));
    registry.register(push_feed_tag());
    assert!(registry.is_registered(&"explain_exec".to_string()));
    assert!(registry.is_registered(&"push_feed_exec".to_string()));
}

#[test]
fn stringified_plans_accessor_returns_the_entries_in_order() {
    let node = sample_explain();
    let plans = node.stringified_plans();
    assert_eq!(plans.len(), 2);
    assert_eq!(plans[0].plan_type, "logical_plan");
    assert_eq!(plans[0].plan, "Projection: a");
    assert_eq!(plans[1].plan_type, "physical_plan");
    assert_eq!(plans[1].plan, "ExplainExec");
}
