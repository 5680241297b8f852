//! The explain operator: a leaf node that renders the optimizer's
//! stringified plans as a single two-column batch.

use vstd::prelude::*;
use crate::batch::{
    batch_conforms, columns_view, scalar_conforms, spec_num_rows, Batch, BatchModel, ScalarModel,
    ScalarValue,
};
use crate::error::{spec_decimal, decimal_string, PlanError};
use crate::partitioning::{Partitioning, PartitioningModel};
use crate::schema::{FieldModel, Schema};
use crate::stream::BatchStream;

verus! {

/// A (stage label, plan text) pair produced by the optimizer for one
/// optimization stage. Immutable; the explain node preserves the input
/// order of these entries into its output columns.
#[derive(Debug)]
pub struct StringifiedPlan {
    /// The label of the optimization stage that produced the text.
    pub plan_type: String,
    /// The rendered plan text of that stage.
    pub plan: String,
}

/// The mathematical value of a [`StringifiedPlan`].
#[verifier::ext_equal]
pub ghost struct StringifiedPlanModel {
    pub plan_type: Seq<char>,
    pub plan: Seq<char>,
}

impl View for StringifiedPlan {
    type V = StringifiedPlanModel;

    open spec fn view(&self) -> StringifiedPlanModel {
        StringifiedPlanModel { plan_type: self.plan_type@, plan: self.plan@ }
    }
}

impl StringifiedPlan {
    /// Pair a stage label with its plan text.
    pub fn new(plan_type: String, plan: String) -> (p: StringifiedPlan)
        ensures
            p@ == (StringifiedPlanModel { plan_type: plan_type@, plan: plan@ }),
    {
        StringifiedPlan { plan_type, plan }
    }
}

impl Clone for StringifiedPlan {
    fn clone(&self) -> (p: StringifiedPlan)
        ensures
            p@ == self@,
    {
        StringifiedPlan { plan_type: self.plan_type.clone(), plan: self.plan.clone() }
    }
}

/// The two output columns the explain node builds from its entries:
/// column 0 holds each entry's stage label, column 1 its plan text, in
/// the stored order.
pub open spec fn explain_columns(plans: Seq<StringifiedPlanModel>) -> Seq<Seq<ScalarModel>> {
    seq![
        plans.map_values(|p: StringifiedPlanModel| ScalarModel::Utf8(p.plan_type)),
        plans.map_values(|p: StringifiedPlanModel| ScalarModel::Utf8(p.plan)),
    ]
}

/// The mathematical value of an [`ExplainExec`].
#[verifier::ext_equal]
pub ghost struct ExplainModel {
    pub schema: Seq<FieldModel>,
    pub plans: Seq<StringifiedPlanModel>,
}

/// The shape the explain node's schema always has: exactly the two text
/// columns it populates.
pub open spec fn explain_schema_ok(schema: Seq<FieldModel>) -> bool {
    &&& schema.len() == 2
    &&& schema[0].data_type is Utf8
    &&& schema[1].data_type is Utf8
}

/// The explain node can always produce its one batch: under any schema of
/// two text columns, the output conforms.
pub proof fn lemma_explain_output_conforms(m: ExplainModel)
    requires
        explain_schema_ok(m.schema),
    ensures
        batch_conforms(explain_output(m)),
{
    let b = explain_output(m);
    assert(b.columns.len() == 2);
    assert(b.columns[0].len() == m.plans.len());
    assert(b.columns[1].len() == m.plans.len());
    assert forall|i: int, j: int|
        0 <= i < b.columns.len() && 0 <= j < b.columns[i].len() implies scalar_conforms(
        #[trigger] b.columns[i][j],
        b.schema[i].data_type,
    ) by {
        if i == 0 {
            assert(b.columns[0][j] == ScalarModel::Utf8(m.plans[j].plan_type));
        } else {
            assert(b.columns[1][j] == ScalarModel::Utf8(m.plans[j].plan));
        }
    };
}

/// The one batch `execute(0)` emits: both text columns under the node's
/// own schema.
pub open spec fn explain_output(m: ExplainModel) -> BatchModel {
    BatchModel { schema: m.schema, columns: explain_columns(m.plans) }
}

/// Law: the batch the explain node emits has exactly two columns and one
/// row per stringified-plan entry, and row `i`'s two columns hold entry
/// `i`'s stage label and plan text, in input order.
pub proof fn lemma_explain_rows(m: ExplainModel, i: int)
    requires
        0 <= i < m.plans.len(),
    ensures
        explain_output(m).columns.len() == 2,
        spec_num_rows(explain_output(m)) == m.plans.len(),
        explain_output(m).columns[0][i] == ScalarModel::Utf8(m.plans[i].plan_type),
        explain_output(m).columns[1][i] == ScalarModel::Utf8(m.plans[i].plan),
{
}

/// Explain execution plan operator. Holds the string values of the various
/// plans it was given when it was created, and passes them to its output
/// as one two-column batch.
#[derive(Debug)]
pub struct ExplainExec {
    /// The schema that this node outputs.
    schema: Schema,
    /// The strings to be printed, in output order.
    stringified_plans: Vec<StringifiedPlan>,
}

impl View for ExplainExec {
    type V = ExplainModel;

    closed spec fn view(&self) -> ExplainModel {
        ExplainModel {
            schema: self.schema@,
            plans: self.stringified_plans@.map_values(|p: StringifiedPlan| p@),
        }
    }
}

impl ExplainExec {
    #[verifier::type_invariant]
    closed spec fn inv(&self) -> bool {
        explain_schema_ok(self@.schema)
    }

    /// Create a new ExplainExec over a fixed output schema and an ordered
    /// list of stringified plans. The schema is the node's fixed state and
    /// must be the two text columns the node populates.
    pub fn new(schema: Schema, stringified_plans: Vec<StringifiedPlan>) -> (e: ExplainExec)
        requires
            explain_schema_ok(schema@),
        ensures
            e@ == (ExplainModel {
                schema: schema@,
                plans: stringified_plans@.map_values(|p: StringifiedPlan| p@),
            }),
    {
        ExplainExec { schema, stringified_plans }
    }

    /// The strings to be printed.
    pub fn stringified_plans(&self) -> (plans: &[StringifiedPlan])
        ensures
            plans@.map_values(|p: StringifiedPlan| p@) == self@.plans,
    {
        self.stringified_plans.as_slice()
    }

    /// An owned copy of the stringified plans, for callers that rebuild
    /// or serialize the node.
    pub fn plans_owned(&self) -> (v: Vec<StringifiedPlan>)
        ensures
            v@.map_values(|p: StringifiedPlan| p@) == self@.plans,
    {
        let mut plans: Vec<StringifiedPlan> = Vec::new();
        let mut i: usize = 0;
        while i < self.stringified_plans.len()
            invariant
                i <= self.stringified_plans.len(),
                plans@.len() == i,
                forall|j: int| 0 <= j < i ==> #[trigger] plans@[j]@ == self@.plans[j],
            decreases self.stringified_plans.len() - i,
        {
            plans.push(self.stringified_plans[i].clone());
            i += 1;
        }
        proof {
            assert(plans@.map_values(|p: StringifiedPlan| p@) =~= self@.plans);
        }
        plans
    }

    /// The fixed output schema of this node: always the two text columns.
    pub fn schema(&self) -> (s: Schema)
        ensures
            s@ == self@.schema,
            explain_schema_ok(s@),
    {
        proof {
            use_type_invariant(self);
        }
        self.schema.clone()
    }

    /// This node always produces one partition of unknown distribution.
    pub fn output_partitioning(&self) -> (p: Partitioning)
        ensures
            p@ == PartitioningModel::UnknownPartitioning(1),
    {
        Partitioning::UnknownPartitioning(1)
    }

    /// Produce partition `partition`. Only partition `0` exists; any other
    /// index fails with an `Internal` error describing the invalid index,
    /// and emits nothing. On the valid path the node always succeeds: it
    /// builds its two equal-length text columns in entry order, assembles
    /// the one batch under its own schema, and returns a stream that
    /// yields exactly that batch and ends.
    pub fn execute(&self, partition: usize) -> (r: Result<BatchStream, PlanError>)
        ensures
            r is Ok <==> partition == 0,
            partition != 0 ==> r is Err && r->Err_0 is Internal
                && r->Err_0.spec_message() == "ExplainExec invalid partition "@ + spec_decimal(
                partition as int,
            ),
            r is Ok ==> r->Ok_0@.schema == self@.schema,
            r is Ok ==> r->Ok_0@.remaining == seq![explain_output(self@)],
            r is Ok ==> forall|i: int|
                0 <= i < r->Ok_0@.remaining.len() ==> (#[trigger] r->Ok_0@.remaining[i]).schema
                    == self@.schema,
    {
        proof {
            use_type_invariant(self);
            lemma_explain_output_conforms(self@);
        }
        if partition != 0 {
            let mut message = String::from_str("ExplainExec invalid partition ");
            let digits = decimal_string(partition);
            message.append(digits.as_str());
            return Err(PlanError::Internal(message));
        }
        let n = self.stringified_plans.len();
        let mut type_values: Vec<ScalarValue> = Vec::new();
        let mut plan_values: Vec<ScalarValue> = Vec::new();
        let mut i: usize = 0;
        while i < n
            invariant
                n == self.stringified_plans.len(),
                i <= n,
                type_values@.len() == i,
                plan_values@.len() == i,
                forall|j: int|
                    0 <= j < i ==> #[trigger] type_values@[j]@ == ScalarModel::Utf8(
                        self@.plans[j].plan_type,
                    ),
                forall|j: int|
                    0 <= j < i ==> #[trigger] plan_values@[j]@ == ScalarModel::Utf8(
                        self@.plans[j].plan,
                    ),
            decreases n - i,
        {
            let p = &self.stringified_plans[i];
            type_values.push(ScalarValue::Utf8(p.plan_type.clone()));
            plan_values.push(ScalarValue::Utf8(p.plan.clone()));
            i += 1;
        }
        let mut columns: Vec<Vec<ScalarValue>> = Vec::new();
        columns.push(type_values);
        columns.push(plan_values);
        proof {
            assert(columns@[0]@.map_values(|v: ScalarValue| v@) =~= self@.plans.map_values(
                |p: StringifiedPlanModel| ScalarModel::Utf8(p.plan_type),
            ));
            assert(columns@[1]@.map_values(|v: ScalarValue| v@) =~= self@.plans.map_values(
                |p: StringifiedPlanModel| ScalarModel::Utf8(p.plan),
            ));
            assert(columns_view(columns@) =~= explain_columns(self@.plans));
            assert((BatchModel { schema: self.schema@, columns: columns_view(columns@) })
                =~= explain_output(self@));
        }
        let batch = match Batch::try_new(self.schema.clone(), columns) {
            Ok(b) => b,
            Err(e) => {
                proof {
                    assert(false);
                }
                return Err(e);
            },
        };
        let mut batches: Vec<Batch> = Vec::new();
        batches.push(batch);
        let stream = BatchStream::new(self.schema.clone(), batches);
        proof {
            assert(stream@.remaining =~= seq![explain_output(self@)]);
        }
        Ok(stream)
    }

    /// Push-feeding is not supported here: this node always computes its
    /// own single partition. The call fails and changes nothing.
    pub fn feed_batches(&mut self, partitions: Vec<Vec<Batch>>) -> (r: Result<(), PlanError>)
        ensures
            r is Err && r->Err_0 is NotSupported,
            final(self)@ == old(self)@,
    {
        let _ = partitions;
        Err(
            PlanError::NotSupported(
                String::from_str("ExplainExec does not accept fed partitions"),
            ),
        )
    }
}

impl Clone for ExplainExec {
    fn clone(&self) -> (e: ExplainExec)
        ensures
            e@ == self@,
    {
        proof {
            use_type_invariant(self);
        }
        let e = ExplainExec {
            schema: self.schema.clone(),
            stringified_plans: self.plans_owned(),
        };
        proof {
            assert(e@ =~= self@);
        }
        e
    }
}

} // verus!
