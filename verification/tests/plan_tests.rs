use physical_plan::batch::{Batch, ScalarValue};
use physical_plan::error::PlanError;
use physical_plan::explain::{ExplainExec, StringifiedPlan};
use physical_plan::feed::PushFeedExec;
use physical_plan::partitioning::Partitioning;
use physical_plan::plan::{DisplayFormatType, PlanNode};
use physical_plan::schema::{DataType, Field, Schema};
use physical_plan::stream::BatchStream;

fn explain_schema() -> Schema {
    Schema::new(vec![
        Field::new("plan_type".to_string(), DataType::Utf8, false),
        Field::new("plan".to_string(), DataType::Utf8, false),
    ])
}

fn entry(label: &str, text: &str) -> StringifiedPlan {
    StringifiedPlan::new(label.to_string(), text.to_string())
}

fn two_entry_explain() -> ExplainExec {
    ExplainExec::new(
        explain_schema(),
        vec![
            entry("logical_plan", "Projection: a"),
            entry("physical_plan", "ExplainExec"),
        ],
    )
}

fn utf8_of(v: &ScalarValue) -> &str {
    match v {
        ScalarValue::Utf8(s) => s.as_str(),
        ScalarValue::Int64(_) => panic!("expected a text cell"),
    }
}

fn collect(mut stream: BatchStream) -> Vec<Batch> {
    let mut batches = Vec::new();
    while let Some(b) = stream.next() {
        batches.push(b);
    }
    batches
}

#[test]
fn two_entries_render_in_order() {
    let node = two_entry_explain();
    let batches = collect(node.execute(0).unwrap());
    assert_eq!(batches.len(), 1);
    let batch = &batches[0];
    assert_eq!(batch.num_columns(), 2);
    assert_eq!(batch.num_rows(), 2);
    assert_eq!(utf8_of(batch.value(0, 0)), "logical_plan");
    assert_eq!(utf8_of(batch.value(1, 0)), "Projection: a");
    assert_eq!(utf8_of(batch.value(0, 1)), "physical_plan");
    assert_eq!(utf8_of(batch.value(1, 1)), "ExplainExec");
}

#[test]
fn explain_yields_one_batch_with_one_row_per_entry() {
    let node = ExplainExec::new(
        explain_schema(),
        vec![entry("a", "1"), entry("b", "2"), entry("c", "3")],
    );
    let mut stream = node.execute(0).unwrap();
    assert_eq!(stream.batches_left(), 1);
    let batch = stream.next().unwrap();
    assert_eq!(batch.num_rows(), 3);
    assert_eq!(utf8_of(batch.value(0, 2)), "c");
    assert_eq!(utf8_of(batch.value(1, 2)), "3");
    assert!(stream.next().is_none());
}

#[test]
fn explain_with_no_entries_yields_one_empty_batch() {
    let node = ExplainExec::new(explain_schema(), Vec::new());
    let batches = collect(node.execute(0).unwrap());
    assert_eq!(batches.len(), 1);
    assert_eq!(batches[0].num_columns(), 2);
    assert_eq!(batches[0].num_rows(), 0);
}

#[test]
fn explain_rejects_any_nonzero_partition() {
    let node = two_entry_explain();
    assert!(matches!(node.execute(1), Err(PlanError::Internal(_))));
    assert!(matches!(node.execute(7), Err(PlanError::Internal(_))));
}

#[test]
fn stream_batches_carry_the_node_schema() {
    let node = two_entry_explain();
    let schema = node.schema();
    let mut stream = node.execute(0).unwrap();
    assert!(stream.schema().matches(&schema));
    while let Some(batch) = stream.next() {
        assert!(batch.schema().matches(&schema));
    }
}

#[test]
fn with_new_children_accepts_only_the_empty_list() {
    let node = PlanNode::Explain(two_entry_explain());
    let replaced = node.with_new_children(Vec::new()).unwrap();
    assert!(replaced.schema().matches(&node.schema()));
    let before = collect(node.execute(0).unwrap());
    let after = collect(replaced.execute(0).unwrap());
    assert_eq!(before.len(), after.len());
    for (x, y) in before.iter().zip(after.iter()) {
        assert_eq!(x.num_rows(), y.num_rows());
        for col in 0..x.num_columns() {
            for row in 0..x.num_rows() {
                assert_eq!(utf8_of(x.value(col, row)), utf8_of(y.value(col, row)));
            }
        }
    }
    let extra = PlanNode::Explain(two_entry_explain());
    assert!(matches!(
        node.with_new_children(vec![extra]),
        Err(PlanError::Internal(_))
    ));
}

#[test]
fn push_feed_with_new_children_rejects_a_child() {
    let node = PlanNode::PushFeed(PushFeedExec::new(explain_schema(), 1));
    assert!(node.with_new_children(Vec::new()).is_ok());
    let child = PlanNode::Explain(two_entry_explain());
    assert!(matches!(
        node.with_new_children(vec![child]),
        Err(PlanError::InvalidArgument(_))
    ));
}

#[test]
fn node_declares_single_unknown_partition_for_explain() {
    let node = PlanNode::Explain(two_entry_explain());
    assert_eq!(node.output_partitioning().partition_count(), 1);
    assert!(node.children().is_empty());
}

#[test]
fn partition_counts_per_descriptor() {
    assert_eq!(Partitioning::SinglePartition.partition_count(), 1);
    assert_eq!(Partitioning::UnknownPartitioning(5).partition_count(), 5);
    let hash = Partitioning::HashPartitioning(vec!["a".to_string()], 3);
    assert_eq!(hash.partition_count(), 3);
}

#[test]
fn display_names_the_node_kind() {
    let node = PlanNode::Explain(two_entry_explain());
    assert_eq!(node.fmt_as(DisplayFormatType::Default), "ExplainExec");
    let fed = PlanNode::PushFeed(PushFeedExec::new(explain_schema(), 1));
    assert_eq!(fed.fmt_as(DisplayFormatType::Default), "PushFeedExec");
}

#[test]
fn batch_try_new_validates_arity_length_and_type() {
    let schema = explain_schema();
    let wrong_arity = Batch::try_new(
        Schema::new(vec![Field::new("x".to_string(), DataType::Utf8, false)]),
        vec![],
    );
    assert!(matches!(wrong_arity, Err(PlanError::InvalidArgument(_))));
    let ragged = Batch::try_new(
        explain_schema(),
        vec![
            vec![ScalarValue::Utf8("a".to_string())],
            vec![],
        ],
    );
    assert!(matches!(ragged, Err(PlanError::InvalidArgument(_))));
    let wrong_type = Batch::try_new(
        explain_schema(),
        vec![
            vec![ScalarValue::Utf8("a".to_string())],
            vec![ScalarValue::Int64(3)],
        ],
    );
    assert!(matches!(wrong_type, Err(PlanError::InvalidArgument(_))));
    let good = Batch::try_new(
        schema,
        vec![
            vec![ScalarValue::Utf8("a".to_string())],
            vec![ScalarValue::Utf8("b".to_string())],
        ],
    );
    assert!(good.is_ok());
}

#[test]
fn execute_errors_describe_the_invalid_index() {
    let node = two_entry_explain();
    let err = node.execute(3).unwrap_err();
    assert!(matches!(err, PlanError::Internal(_)));
    assert_eq!(err.message(), "ExplainExec invalid partition 3");
    let err = node.execute(40).unwrap_err();
    assert_eq!(err.message(), "ExplainExec invalid partition 40");
    let fed = PushFeedExec::new(explain_schema(), 2);
    let err = fed.execute(7).unwrap_err();
    assert_eq!(err.message(), "PushFeedExec invalid partition 7");
}

#[test]
fn with_new_children_errors_name_the_node() {
    let node = PlanNode::Explain(two_entry_explain());
    let extra = PlanNode::Explain(two_entry_explain());
    let err = node.with_new_children(vec![extra]).unwrap_err();
    assert_eq!(err.message(), "children cannot be replaced in ExplainExec");
    let fed = PlanNode::PushFeed(PushFeedExec::new(explain_schema(), 1));
    let extra = PlanNode::Explain(two_entry_explain());
    let err = fed.with_new_children(vec![extra]).unwrap_err();
    assert_eq!(err.message(), "children cannot be replaced in PushFeedExec");
}

fn one_row_batch(schema: &Schema, label: &str, text: &str) -> Batch {
    Batch::try_new(
        schema.clone(),
        vec![
            vec![ScalarValue::Utf8(label.to_string())],
            vec![ScalarValue::Utf8(text.to_string())],
        ],
    )
    .unwrap()
}

#[test]
fn feeding_then_executing_replays_the_fed_batches() {
    let schema = explain_schema();
    let mut node = PushFeedExec::new(explain_schema(), 2);
    let p0 = vec![
        one_row_batch(&schema, "first", "1"),
        one_row_batch(&schema, "second", "2"),
    ];
    let p1 = vec![one_row_batch(&schema, "third", "3")];
    node.feed_batches(vec![p0, p1]).unwrap();
    let replayed = collect(node.execute(0).unwrap());
    assert_eq!(replayed.len(), 2);
    assert_eq!(utf8_of(replayed[0].value(0, 0)), "first");
    assert_eq!(utf8_of(replayed[1].value(0, 0)), "second");
    let replayed_again = collect(node.execute(0).unwrap());
    assert_eq!(replayed_again.len(), 2);
    let other = collect(node.execute(1).unwrap());
    assert_eq!(other.len(), 1);
    assert_eq!(utf8_of(other[0].value(1, 0)), "3");
}

#[test]
fn feeding_twice_or_badly_fails_and_changes_nothing() {
    let schema = explain_schema();
    let mut node = PushFeedExec::new(explain_schema(), 1);
    assert!(matches!(node.execute(0), Err(PlanError::Internal(_))));
    assert!(matches!(
        node.feed_batches(Vec::new()),
        Err(PlanError::InvalidArgument(_))
    ));
    node.feed_batches(vec![vec![one_row_batch(&schema, "a", "1")]])
        .unwrap();
    assert!(matches!(
        node.feed_batches(vec![vec![]]),
        Err(PlanError::Internal(_))
    ));
    assert!(matches!(node.execute(1), Err(PlanError::Internal(_))));
    assert_eq!(collect(node.execute(0).unwrap()).len(), 1);
}

#[test]
fn feeding_the_explain_node_is_not_supported() {
    let mut node = PlanNode::Explain(two_entry_explain());
    assert!(matches!(
        node.feed_batches(Vec::new()),
        Err(PlanError::NotSupported(_))
    ));
    assert!(matches!(node.execute(0), Ok(_)));
}
