//! Batches: immutable, schema-conformant chunks of tabular data.
//!
//! A batch is a list of equal-length columns, one per schema field, each
//! column holding values of its field's data type. Conformance is
//! established when the batch is built and holds for the batch's whole
//! lifetime.

use vstd::prelude::*;
use crate::error::PlanError;
use crate::schema::{DataType, FieldModel, Schema};

verus! {

/// One cell of a column.
#[derive(Debug)]
pub enum ScalarValue {
    /// A text value.
    Utf8(String),
    /// A 64-bit signed integer value.
    Int64(i64),
}

/// The mathematical value of a [`ScalarValue`].
pub ghost enum ScalarModel {
    Utf8(Seq<char>),
    Int64(i64),
}

impl View for ScalarValue {
    type V = ScalarModel;

    open spec fn view(&self) -> ScalarModel {
        match self {
            ScalarValue::Utf8(s) => ScalarModel::Utf8(s@),
            ScalarValue::Int64(v) => ScalarModel::Int64(*v),
        }
    }
}

impl Clone for ScalarValue {
    fn clone(&self) -> (v: ScalarValue)
        ensures
            v@ == self@,
    {
        match self {
            ScalarValue::Utf8(s) => ScalarValue::Utf8(s.clone()),
            ScalarValue::Int64(v) => ScalarValue::Int64(*v),
        }
    }
}

/// Whether a value may sit in a column of type `dt`.
pub open spec fn scalar_conforms(v: ScalarModel, dt: DataType) -> bool {
    match v {
        ScalarModel::Utf8(_) => dt is Utf8,
        ScalarModel::Int64(_) => dt is Int64,
    }
}

/// Runtime check of [`scalar_conforms`].
pub fn scalar_matches(v: &ScalarValue, dt: DataType) -> (r: bool)
    ensures
        r == scalar_conforms(v@, dt),
{
    match v {
        ScalarValue::Utf8(_) => matches!(dt, DataType::Utf8),
        ScalarValue::Int64(_) => matches!(dt, DataType::Int64),
    }
}

/// The mathematical value of a column list.
pub open spec fn columns_view(cols: Seq<Vec<ScalarValue>>) -> Seq<Seq<ScalarModel>> {
    cols.map_values(|c: Vec<ScalarValue>| c@.map_values(|v: ScalarValue| v@))
}

/// The mathematical value of a [`Batch`]: its schema and its columns of
/// cell values.
#[verifier::ext_equal]
pub ghost struct BatchModel {
    pub schema: Seq<FieldModel>,
    pub columns: Seq<Seq<ScalarModel>>,
}

/// The number of rows of a batch: the common length of its columns.
pub open spec fn spec_num_rows(b: BatchModel) -> int {
    if b.columns.len() == 0 {
        0
    } else {
        b.columns[0].len() as int
    }
}

/// Schema conformance: one column per field, all columns of one length,
/// every cell of its column's declared type.
pub open spec fn batch_conforms(b: BatchModel) -> bool {
    &&& b.columns.len() == b.schema.len()
    &&& forall|i: int| 0 <= i < b.columns.len() ==> (#[trigger] b.columns[i]).len() == spec_num_rows(b)
    &&& forall|i: int, j: int|
        0 <= i < b.columns.len() && 0 <= j < b.columns[i].len()
            ==> scalar_conforms(#[trigger] b.columns[i][j], b.schema[i].data_type)
}

/// An immutable tabular chunk: equal-length columns conforming to a schema.
/// Only [`Batch::try_new`] builds one, so every batch in existence conforms
/// to its own schema.
#[derive(Debug)]
pub struct Batch {
    schema: Schema,
    columns: Vec<Vec<ScalarValue>>,
}

impl View for Batch {
    type V = BatchModel;

    closed spec fn view(&self) -> BatchModel {
        BatchModel { schema: self.schema@, columns: columns_view(self.columns@) }
    }
}

impl Batch {
    #[verifier::type_invariant]
    closed spec fn inv(&self) -> bool {
        batch_conforms(self@)
    }

    /// Every batch conforms to its schema; callers holding a batch obtain
    /// this without any precondition.
    pub fn conformance(&self) -> (r: bool)
        ensures
            r,
            batch_conforms(self@),
    {
        proof {
            use_type_invariant(self);
        }
        true
    }

    /// Build a batch from a schema and a column list, validating
    /// conformance first. Succeeds exactly when the columns conform to the
    /// schema; any malformed input is reported as an `InvalidArgument`
    /// error before any batch is assembled.
    pub fn try_new(schema: Schema, columns: Vec<Vec<ScalarValue>>) -> (r: Result<Batch, PlanError>)
        ensures
            r is Ok <==> batch_conforms(
                BatchModel { schema: schema@, columns: columns_view(columns@) },
            ),
            r is Ok ==> r->Ok_0@ == (BatchModel {
                schema: schema@,
                columns: columns_view(columns@),
            }),
            r is Err ==> r->Err_0 is InvalidArgument,
    {
        let ghost m = BatchModel { schema: schema@, columns: columns_view(columns@) };
        if columns.len() != schema.len() {
            return Err(
                PlanError::InvalidArgument(
                    String::from_str("batch columns do not match the schema arity"),
                ),
            );
        }
        let ncols = columns.len();
        let mut i: usize = 0;
        while i < ncols
            invariant
                ncols == columns.len(),
                m == (BatchModel { schema: schema@, columns: columns_view(columns@) }),
                m.columns.len() == m.schema.len(),
                i <= ncols,
                ncols == m.columns.len(),
                forall|a: int| 0 <= a < i ==> (#[trigger] m.columns[a]).len() == spec_num_rows(m),
                forall|a: int, j: int|
                    0 <= a < i && 0 <= j < m.columns[a].len()
                        ==> scalar_conforms(#[trigger] m.columns[a][j], m.schema[a].data_type),
            decreases ncols - i,
        {
            let col = &columns[i];
            if col.len() != columns[0].len() {
                proof {
                    assert(m.columns[i as int].len() != spec_num_rows(m));
                }
                return Err(
                    PlanError::InvalidArgument(
                        String::from_str("batch columns do not share one length"),
                    ),
                );
            }
            let dt = schema.field(i).data_type;
            let nrows = col.len();
            let mut j: usize = 0;
            while j < nrows
                invariant
                    ncols == columns.len(),
                    m == (BatchModel { schema: schema@, columns: columns_view(columns@) }),
                    i < ncols,
                    ncols == m.columns.len(),
                    m.columns.len() == m.schema.len(),
                    nrows == m.columns[i as int].len(),
                    col == &columns[i as int],
                    dt == m.schema[i as int].data_type,
                    j <= nrows,
                    forall|b: int|
                        0 <= b < j
                            ==> scalar_conforms(
                            #[trigger] m.columns[i as int][b],
                            m.schema[i as int].data_type,
                        ),
                decreases nrows - j,
            {
                if !scalar_matches(&col[j], dt) {
                    proof {
                        assert(!scalar_conforms(m.columns[i as int][j as int], m.schema[i as int].data_type));
                    }
                    return Err(
                        PlanError::InvalidArgument(
                            String::from_str("batch cell does not match its column type"),
                        ),
                    );
                }
                j += 1;
            }
            i += 1;
        }
        let b = Batch { schema, columns };
        proof {
            assert(b@ == m);
        }
        Ok(b)
    }

    /// The schema every row of this batch conforms to.
    pub fn schema(&self) -> (s: &Schema)
        ensures
            s@ == self@.schema,
    {
        &self.schema
    }

    /// The number of columns.
    pub fn num_columns(&self) -> (n: usize)
        ensures
            n == self@.columns.len(),
    {
        self.columns.len()
    }

    /// The number of rows: the common length of the columns.
    pub fn num_rows(&self) -> (n: usize)
        ensures
            n == spec_num_rows(self@),
    {
        if self.columns.len() == 0 {
            0
        } else {
            self.columns[0].len()
        }
    }

    /// The cell at column `col`, row `row`.
    pub fn value(&self, col: usize, row: usize) -> (v: &ScalarValue)
        requires
            col < self@.columns.len(),
            row < self@.columns[col as int].len(),
        ensures
            v@ == self@.columns[col as int][row as int],
    {
        &self.columns[col][row]
    }
}

impl Clone for Batch {
    fn clone(&self) -> (b: Batch)
        ensures
            b@ == self@,
    {
        proof {
            use_type_invariant(self);
        }
        let mut columns: Vec<Vec<ScalarValue>> = Vec::new();
        let mut i: usize = 0;
        while i < self.columns.len()
            invariant
                i <= self.columns.len(),
                columns@.len() == i,
                forall|a: int|
                    0 <= a < i
                        ==> #[trigger] columns_view(columns@)[a] == columns_view(self.columns@)[a],
            decreases self.columns.len() - i,
        {
            let col = &self.columns[i];
            let mut values: Vec<ScalarValue> = Vec::new();
            let mut j: usize = 0;
            while j < col.len()
                invariant
                    j <= col.len(),
                    values@.len() == j,
                    forall|b: int| 0 <= b < j ==> #[trigger] values@[b]@ == col@[b]@,
                decreases col.len() - j,
            {
                values.push(col[j].clone());
                j += 1;
            }
            proof {
                assert(values@.map_values(|v: ScalarValue| v@) =~= col@.map_values(
                    |v: ScalarValue| v@,
                ));
            }
            let ghost prev = columns@;
            columns.push(values);
            proof {
                assert forall|a: int| 0 <= a < i + 1 implies #[trigger] columns_view(columns@)[a]
                    == columns_view(self.columns@)[a] by {
                    assert(columns@ == prev.push(columns@[i as int]));
                    if a < i {
                        assert(columns@[a] == prev[a]);
                        assert(columns_view(prev)[a] == columns_view(self.columns@)[a]);
                    } else {
                        assert(columns@[a]@ == values@);
                        assert(columns_view(columns@)[a] == values@.map_values(
                            |v: ScalarValue| v@,
                        ));
                        assert(columns_view(self.columns@)[a] == self.columns@[a]@.map_values(
                            |v: ScalarValue| v@,
                        ));
                    }
                };
            }
            i += 1;
        }
        let b = Batch { schema: self.schema.clone(), columns };
        proof {
            assert(columns_view(b.columns@) =~= columns_view(self.columns@));
            assert(b@ =~= self@);
        }
        b
    }
}

} // verus!
