//! Output schemas: an ordered list of named, typed, nullable columns.
//!
//! A schema is fixed when a node is constructed and never changes; every
//! batch the node emits must conform to it.

use vstd::prelude::*;

verus! {

/// The data type of one column.
#[derive(Debug, Clone, Copy, PartialEq, Eq, Structural)]
pub enum DataType {
    /// Variable-length text.
    Utf8,
    /// 64-bit signed integers.
    Int64,
}

/// One column descriptor: name, data type, and whether values may be null.
#[derive(Debug)]
pub struct Field {
    pub name: String,
    pub data_type: DataType,
    pub nullable: bool,
}

/// The mathematical value of a [`Field`]: the same three components with the
/// name abstracted to its character sequence.
#[verifier::ext_equal]
pub ghost struct FieldModel {
    pub name: Seq<char>,
    pub data_type: DataType,
    pub nullable: bool,
}

impl View for Field {
    type V = FieldModel;

    open spec fn view(&self) -> FieldModel {
        FieldModel { name: self.name@, data_type: self.data_type, nullable: self.nullable }
    }
}

impl Field {
    /// Build a field from its three components.
    pub fn new(name: String, data_type: DataType, nullable: bool) -> (f: Field)
        ensures
            f@ == (FieldModel { name: name@, data_type, nullable }),
    {
        Field { name, data_type, nullable }
    }
}

impl Clone for Field {
    fn clone(&self) -> (f: Field)
        ensures
            f@ == self@,
    {
        Field { name: self.name.clone(), data_type: self.data_type, nullable: self.nullable }
    }
}

/// An ordered list of fields. Immutable once constructed and shared by the
/// node that declares it and by every batch and stream that conforms to it.
#[derive(Debug)]
pub struct Schema {
    fields: Vec<Field>,
}

impl View for Schema {
    type V = Seq<FieldModel>;

    closed spec fn view(&self) -> Seq<FieldModel> {
        self.fields@.map_values(|f: Field| f@)
    }
}

impl Schema {
    /// Build a schema from an ordered list of fields.
    pub fn new(fields: Vec<Field>) -> (s: Schema)
        ensures
            s@ == fields@.map_values(|f: Field| f@),
    {
        Schema { fields }
    }

    /// The number of columns.
    pub fn len(&self) -> (n: usize)
        ensures
            n == self@.len(),
    {
        self.fields.len()
    }

    /// The descriptor of column `i`.
    pub fn field(&self, i: usize) -> (f: &Field)
        requires
            i < self@.len(),
        ensures
            f@ == self@[i as int],
    {
        &self.fields[i]
    }

    /// Whether `self` and `other` describe the same columns, name for name,
    /// type for type, nullability for nullability.
    pub fn matches(&self, other: &Schema) -> (r: bool)
        ensures
            r <==> self@ == other@,
    {
        if self.fields.len() != other.fields.len() {
            proof {
                assert(self@.len() != other@.len());
            }
            return false;
        }
        let n = self.fields.len();
        let mut i: usize = 0;
        while i < n
            invariant
                n == self.fields.len(),
                n == other.fields.len(),
                i <= n,
                forall|j: int| 0 <= j < i ==> self@[j] == other@[j],
            decreases n - i,
        {
            let a = &self.fields[i];
            let b = &other.fields[i];
            if !(a.name == b.name && a.data_type == b.data_type && a.nullable == b.nullable) {
                proof {
                    assert(self@[i as int] != other@[i as int]);
                }
                return false;
            }
            proof {
                assert(self@[i as int] =~= other@[i as int]);
            }
            i += 1;
        }
        proof {
            assert(self@ =~= other@);
        }
        true
    }
}

impl Clone for Schema {
    fn clone(&self) -> (s: Schema)
        ensures
            s@ == self@,
    {
        let mut fields: Vec<Field> = Vec::new();
        let mut i: usize = 0;
        while i < self.fields.len()
            invariant
                i <= self.fields.len(),
                fields@.len() == i,
                forall|j: int| 0 <= j < i ==> #[trigger] fields@[j]@ == self@[j],
            decreases self.fields.len() - i,
        {
            fields.push(self.fields[i].clone());
            i += 1;
        }
        proof {
            assert(fields@.map_values(|f: Field| f@) =~= self@);
        }
        Schema { fields }
    }
}

} // verus!
