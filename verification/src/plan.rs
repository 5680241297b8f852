//! The plan-node abstraction: the uniform contract every physical operator
//! satisfies.
//!
//! A plan is a tree of nodes. Each node declares a fixed output schema, an
//! ordered child list, and an output partitioning; executing a valid
//! partition index yields an ordered stream of batches under that schema,
//! and any other index is an error, never a panic. `with_new_children`
//! builds a new node rather than mutating shared state, so concurrent
//! readers of an installed tree are never invalidated. The node kinds are
//! a closed set of variants behind one polymorphic type, which a driver
//! manipulates without knowing the concrete kind.

use vstd::prelude::*;
use crate::batch::{Batch, BatchModel};
use crate::error::PlanError;
use crate::explain::{explain_output, ExplainExec, ExplainModel};
use crate::feed::{feed_accepts, partitions_view, PushFeedExec, PushFeedModel};
use crate::partitioning::{spec_partition_count, Partitioning, PartitioningModel};
use crate::schema::{FieldModel, Schema};
use crate::stream::BatchStream;

verus! {

/// The verbosity selected for plan-visualization output.
#[derive(Debug, Clone, Copy)]
pub enum DisplayFormatType {
    /// The standard one-line rendering.
    Default,
}

/// One operator of a physical execution tree: any of the concrete node
/// kinds, behind one type.
#[derive(Debug)]
pub enum PlanNode {
    /// The explain operator.
    Explain(ExplainExec),
    /// The push-feed operator.
    PushFeed(PushFeedExec),
}

/// The mathematical value of a [`PlanNode`].
#[verifier::ext_equal]
pub ghost enum PlanNodeModel {
    Explain(ExplainModel),
    PushFeed(PushFeedModel),
}

impl View for PlanNode {
    type V = PlanNodeModel;

    open spec fn view(&self) -> PlanNodeModel {
        match self {
            PlanNode::Explain(e) => PlanNodeModel::Explain(e@),
            PlanNode::PushFeed(f) => PlanNodeModel::PushFeed(f@),
        }
    }
}

/// The fixed output schema a node declares.
pub open spec fn node_schema(m: PlanNodeModel) -> Seq<FieldModel> {
    match m {
        PlanNodeModel::Explain(e) => e.schema,
        PlanNodeModel::PushFeed(f) => f.schema,
    }
}

/// The partitioning descriptor a node declares.
pub open spec fn node_partitioning(m: PlanNodeModel) -> PartitioningModel {
    match m {
        PlanNodeModel::Explain(_) => PartitioningModel::UnknownPartitioning(1),
        PlanNodeModel::PushFeed(f) => PartitioningModel::UnknownPartitioning(f.partitions),
    }
}

/// The child arity a node was constructed with; `with_new_children`
/// accepts exactly this many replacements. Every current node kind is a
/// leaf.
pub open spec fn node_arity(m: PlanNodeModel) -> int {
    match m {
        PlanNodeModel::Explain(_) => 0,
        PlanNodeModel::PushFeed(_) => 0,
    }
}

/// When `execute(p)` succeeds: `p` must be a declared partition index, and
/// the node must be able to produce it (the explain node always can; a
/// push-feed node must have been fed).
pub open spec fn node_can_execute(m: PlanNodeModel, p: int) -> bool {
    match m {
        PlanNodeModel::Explain(_) => p == 0,
        PlanNodeModel::PushFeed(f) => 0 <= p < f.partitions && f.fed is Some,
    }
}

/// The ordered batches a successful `execute(p)` streams out.
pub open spec fn node_output(m: PlanNodeModel, p: int) -> Seq<BatchModel> {
    match m {
        PlanNodeModel::Explain(e) => seq![explain_output(e)],
        PlanNodeModel::PushFeed(f) => f.fed->Some_0[p],
    }
}

/// The one-line rendering of a node for plan-visualization tooling.
pub open spec fn node_display(m: PlanNodeModel, t: DisplayFormatType) -> Seq<char> {
    match m {
        PlanNodeModel::Explain(_) => "ExplainExec"@,
        PlanNodeModel::PushFeed(_) => "PushFeedExec"@,
    }
}

/// When a push-feed succeeds on a node: only on a kind that supports being
/// fed, and then under that kind's own acceptance condition.
pub open spec fn node_feed_accepts(m: PlanNodeModel, parts: Seq<Seq<BatchModel>>) -> bool {
    match m {
        PlanNodeModel::Explain(_) => false,
        PlanNodeModel::PushFeed(f) => feed_accepts(f, parts),
    }
}

/// The node value after a successful feed installed `parts`.
pub open spec fn node_after_feed(m: PlanNodeModel, parts: Seq<Seq<BatchModel>>) -> PlanNodeModel {
    match m {
        PlanNodeModel::Explain(e) => PlanNodeModel::Explain(e),
        PlanNodeModel::PushFeed(f) => PlanNodeModel::PushFeed(
            PushFeedModel { schema: f.schema, partitions: f.partitions, fed: Option::Some(parts) },
        ),
    }
}

impl PlanNode {
    /// The fixed output schema; equal to the schema of every batch the
    /// node ever emits.
    pub fn schema(&self) -> (s: Schema)
        ensures
            s@ == node_schema(self@),
    {
        match self {
            PlanNode::Explain(e) => e.schema(),
            PlanNode::PushFeed(f) => f.schema(),
        }
    }

    /// The node's direct inputs, in order; empty for a leaf. Every current
    /// node kind is a leaf.
    pub fn children(&self) -> (c: Vec<PlanNode>)
        ensures
            c@.len() == node_arity(self@),
    {
        Vec::new()
    }

    /// How many partitions `execute` supports and how rows distribute over
    /// them; consistent across calls.
    pub fn output_partitioning(&self) -> (p: Partitioning)
        ensures
            p@ == node_partitioning(self@),
    {
        match self {
            PlanNode::Explain(e) => e.output_partitioning(),
            PlanNode::PushFeed(f) => f.output_partitioning(),
        }
    }

    /// A new node identical to `self` but for its children. Succeeds
    /// exactly when the replacement list has the node's arity — the empty
    /// list, for a leaf — and then the returned node carries the same
    /// value as `self`.
    pub fn with_new_children(&self, children: Vec<PlanNode>) -> (r: Result<PlanNode, PlanError>)
        ensures
            r is Ok <==> children@.len() == node_arity(self@),
            r is Ok ==> r->Ok_0@ == self@,
            self@ is Explain && r is Err ==> r->Err_0 is Internal
                && r->Err_0.spec_message() == "children cannot be replaced in ExplainExec"@,
            self@ is PushFeed && r is Err ==> r->Err_0 is InvalidArgument
                && r->Err_0.spec_message() == "children cannot be replaced in PushFeedExec"@,
    {
        match self {
            PlanNode::Explain(e) => e.with_new_children(children),
            PlanNode::PushFeed(f) => f.with_new_children(children),
        }
    }

    /// Begin producing one partition's output. A valid index yields a
    /// stream of the node's batches under the node's schema; an invalid
    /// index fails with an `Internal` error before any data is emitted.
    pub fn execute(&self, partition: usize) -> (r: Result<BatchStream, PlanError>)
        ensures
            r is Ok <==> node_can_execute(self@, partition as int),
            partition >= spec_partition_count(node_partitioning(self@)) ==> r is Err
                && r->Err_0 is Internal,
            r is Ok ==> r->Ok_0@.schema == node_schema(self@),
            r is Ok ==> r->Ok_0@.remaining == node_output(self@, partition as int),
            r is Ok ==> forall|i: int|
                0 <= i < r->Ok_0@.remaining.len() ==> (#[trigger] r->Ok_0@.remaining[i]).schema
                    == node_schema(self@),
    {
        match self {
            PlanNode::Explain(e) => e.execute(partition),
            PlanNode::PushFeed(f) => f.execute(partition),
        }
    }

    /// Render a one-line description for plan-visualization tooling.
    pub fn fmt_as(&self, t: DisplayFormatType) -> (s: String)
        ensures
            s@ == node_display(self@, t),
    {
        match self {
            PlanNode::Explain(e) => e.fmt_as(t),
            PlanNode::PushFeed(f) => f.fmt_as(t),
        }
    }

    /// Supply the node's partition contents from outside instead of
    /// executing children. A node kind that computes its own output — the
    /// explain node — rejects the call with a `NotSupported` error; a kind
    /// that supports feeding installs the contents once, and a failed call
    /// changes nothing.
    pub fn feed_batches(&mut self, partitions: Vec<Vec<Batch>>) -> (r: Result<(), PlanError>)
        ensures
            r is Ok <==> node_feed_accepts(old(self)@, partitions_view(partitions@)),
            r is Ok ==> final(self)@ == node_after_feed(
                old(self)@,
                partitions_view(partitions@),
            ),
            r is Err ==> final(self)@ == old(self)@,
            old(self)@ is Explain ==> r is Err && r->Err_0 is NotSupported,
    {
        match self {
            PlanNode::Explain(e) => e.feed_batches(partitions),
            PlanNode::PushFeed(f) => f.feed_batches(partitions),
        }
    }
}

/// Law: feeding a node that accepts the feed and then executing any of
/// its declared partitions replays exactly the fed batch sequence for
/// that partition, in order. The explain node accepts no feed at all, so
/// this speaks of the node kinds that support feeding.
pub proof fn lemma_feed_then_execute_replays(
    m: PlanNodeModel,
    parts: Seq<Seq<BatchModel>>,
    p: int,
)
    requires
        node_feed_accepts(m, parts),
        0 <= p < spec_partition_count(node_partitioning(node_after_feed(m, parts))),
    ensures
        node_can_execute(node_after_feed(m, parts), p),
        node_output(node_after_feed(m, parts), p) == parts[p],
{
}

impl Clone for PlanNode {
    fn clone(&self) -> (n: PlanNode)
        ensures
            n@ == self@,
    {
        match self {
            PlanNode::Explain(e) => PlanNode::Explain(e.clone()),
            PlanNode::PushFeed(f) => PlanNode::PushFeed(f.clone()),
        }
    }
}

impl ExplainExec {
    /// The explain node is a leaf and has no children.
    pub fn children(&self) -> (c: Vec<PlanNode>)
        ensures
            c@.len() == 0,
    {
        Vec::new()
    }

    /// Children cannot be replaced in this leaf: only the empty list is
    /// accepted, and then the result carries the same value as `self`. A
    /// non-empty list fails with an `Internal` error naming the node.
    pub fn with_new_children(&self, children: Vec<PlanNode>) -> (r: Result<PlanNode, PlanError>)
        ensures
            r is Ok <==> children@.len() == 0,
            r is Ok ==> r->Ok_0@ == PlanNodeModel::Explain(self@),
            r is Err ==> r->Err_0 is Internal && r->Err_0.spec_message()
                == "children cannot be replaced in ExplainExec"@,
    {
        if children.is_empty() {
            Ok(PlanNode::Explain(self.clone()))
        } else {
            Err(
                PlanError::Internal(
                    String::from_str("children cannot be replaced in ExplainExec"),
                ),
            )
        }
    }

    /// The one-line rendering of this node.
    pub fn fmt_as(&self, t: DisplayFormatType) -> (s: String)
        ensures
            s@ == "ExplainExec"@,
    {
        match t {
            DisplayFormatType::Default => String::from_str("ExplainExec"),
        }
    }
}

impl PushFeedExec {
    /// The push-feed node is a leaf and has no children.
    pub fn children(&self) -> (c: Vec<PlanNode>)
        ensures
            c@.len() == 0,
    {
        Vec::new()
    }

    /// Children cannot be replaced in this leaf: only the empty list is
    /// accepted, and then the result carries the same value as `self`. A
    /// non-empty list fails with an `InvalidArgument` error naming the
    /// node.
    pub fn with_new_children(&self, children: Vec<PlanNode>) -> (r: Result<PlanNode, PlanError>)
        ensures
            r is Ok <==> children@.len() == 0,
            r is Ok ==> r->Ok_0@ == PlanNodeModel::PushFeed(self@),
            r is Err ==> r->Err_0 is InvalidArgument && r->Err_0.spec_message()
                == "children cannot be replaced in PushFeedExec"@,
    {
        if children.is_empty() {
            Ok(PlanNode::PushFeed(self.clone()))
        } else {
            Err(
                PlanError::InvalidArgument(
                    String::from_str("children cannot be replaced in PushFeedExec"),
                ),
            )
        }
    }

    /// The one-line rendering of this node.
    pub fn fmt_as(&self, t: DisplayFormatType) -> (s: String)
        ensures
            s@ == "PushFeedExec"@,
    {
        match t {
            DisplayFormatType::Default => String::from_str("PushFeedExec"),
        }
    }
}

} // verus!
