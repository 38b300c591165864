//! The logical type of a column.

use vstd::prelude::*;

verus! {

/// The logical type of a column: a scalar, a list of one element type, or a
/// struct of field types.
#[derive(Debug, PartialEq, Eq)]
pub enum DataType {
    Boolean,
    Int16,
    Int32,
    Int64,
    Float32,
    Float64,
    Decimal,
    Date,
    Varchar,
    Time,
    Timestamp,
    Timestampz,
    Interval,
    Struct { fields: Vec<DataType> },
    List { datatype: Box<DataType> },
}

/// The mathematical model of a [`DataType`].
pub enum DataTypeView {
    Boolean,
    Int16,
    Int32,
    Int64,
    Float32,
    Float64,
    Decimal,
    Date,
    Varchar,
    Time,
    Timestamp,
    Timestampz,
    Interval,
    Struct { fields: Seq<DataTypeView> },
    List { datatype: Box<DataTypeView> },
}

impl DataTypeView {
    /// A list or a struct: a type whose column carries nested field descriptors.
    pub open spec fn is_composite(self) -> bool {
        self is Struct || self is List
    }
}

/// The model of `t`, taken field by field.
pub open spec fn data_type_view(t: DataType) -> DataTypeView
    decreases t,
{
    match t {
        DataType::Boolean => DataTypeView::Boolean,
        DataType::Int16 => DataTypeView::Int16,
        DataType::Int32 => DataTypeView::Int32,
        DataType::Int64 => DataTypeView::Int64,
        DataType::Float32 => DataTypeView::Float32,
        DataType::Float64 => DataTypeView::Float64,
        DataType::Decimal => DataTypeView::Decimal,
        DataType::Date => DataTypeView::Date,
        DataType::Varchar => DataTypeView::Varchar,
        DataType::Time => DataTypeView::Time,
        DataType::Timestamp => DataTypeView::Timestamp,
        DataType::Timestampz => DataTypeView::Timestampz,
        DataType::Interval => DataTypeView::Interval,
        DataType::Struct { fields } => DataTypeView::Struct {
            fields: Seq::new(
                fields@.len(),
                |i: int|
                    if 0 <= i < fields@.len() {
                        data_type_view(fields@[i])
                    } else {
                        arbitrary()
                    },
            ),
        },
        DataType::List { datatype } => DataTypeView::List {
            datatype: Box::new(data_type_view(*datatype)),
        },
    }
}

impl View for DataType {
    type V = DataTypeView;

    open spec fn view(&self) -> DataTypeView {
        data_type_view(*self)
    }
}

impl DataType {
    /// Whether this is a list or a struct.
    pub fn is_composite(&self) -> (r: bool)
        ensures
            r == self@.is_composite(),
    {
        match self {
            DataType::Struct { .. } => true,
            DataType::List { .. } => true,
            _ => false,
        }
    }
}

impl Clone for DataType {
    fn clone(&self) -> (r: Self)
        ensures
            r@ == self@,
        decreases self,
    {
        match self {
            DataType::Boolean => DataType::Boolean,
            DataType::Int16 => DataType::Int16,
            DataType::Int32 => DataType::Int32,
            DataType::Int64 => DataType::Int64,
            DataType::Float32 => DataType::Float32,
            DataType::Float64 => DataType::Float64,
            DataType::Decimal => DataType::Decimal,
            DataType::Date => DataType::Date,
            DataType::Varchar => DataType::Varchar,
            DataType::Time => DataType::Time,
            DataType::Timestamp => DataType::Timestamp,
            DataType::Timestampz => DataType::Timestampz,
            DataType::Interval => DataType::Interval,
            DataType::Struct { fields } => {
                let mut copy: Vec<DataType> = Vec::new();
                let mut i: usize = 0;
                while i < fields.len()
                    invariant
                        i <= fields.len(),
                        copy.len() == i,
                        self == (DataType::Struct { fields: *fields }),
                        forall|j: int| 0 <= j < i ==> copy@[j]@ == fields@[j]@,
                    decreases fields.len() - i,
                {
                    proof {
                        assert(decreases_to!(*self => self->Struct_fields));
                    }
                    let item = fields[i].clone();
                    copy.push(item);
                    i = i + 1;
                }
                let r = DataType::Struct { fields: copy };
                assert(r@ == self@) by {
                    assert(r@->Struct_fields =~= self@->Struct_fields);
                }
                r
            },
            DataType::List { datatype } => DataType::List { datatype: Box::new((**datatype).clone()) },
        }
    }
}

} // verus!
