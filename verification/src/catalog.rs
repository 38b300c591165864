//! Identifiers and the generic column descriptor of the catalog.

use vstd::prelude::*;
use crate::data_type::{DataType, DataTypeView};

verus! {

/// The key that names a logical table or source.
#[derive(Clone, Copy, Debug, PartialEq, Eq, Structural, Hash)]
pub struct TableId {
    pub table_id: u32,
}

impl TableId {
    pub fn new(table_id: u32) -> (r: Self)
        ensures
            r.table_id == table_id,
    {
        TableId { table_id }
    }

    pub fn table_id(&self) -> (r: u32)
        ensures
            r == self.table_id,
    {
        self.table_id
    }
}

impl Default for TableId {
    fn default() -> (r: Self)
        ensures
            r.table_id == 0,
    {
        TableId { table_id: 0 }
    }
}

/// The identity of a column, unique within its source.
#[derive(Clone, Copy, Debug, PartialEq, Eq, Structural, Hash)]
pub struct ColumnId {
    pub id: i32,
}

impl ColumnId {
    pub fn new(id: i32) -> (r: Self)
        ensures
            r.id == id,
    {
        ColumnId { id }
    }

    pub fn get_id(&self) -> (r: i32)
        ensures
            r == self.id,
    {
        self.id
    }
}

impl From<i32> for ColumnId {
    fn from(id: i32) -> (r: Self) {
        ColumnId { id }
    }
}

impl vstd::std_specs::convert::FromSpecImpl<i32> for ColumnId {
    open spec fn obeys_from_spec() -> bool {
        true
    }

    open spec fn from_spec(id: i32) -> Self {
        ColumnId { id }
    }
}

/// The catalog's description of one column. `field_descs` holds the nested
/// columns of a composite type; `type_tag` names the type for the engine alone.
#[derive(Debug, PartialEq, Eq)]
pub struct ColumnDesc {
    pub data_type: DataType,
    pub column_id: ColumnId,
    pub name: String,
    pub field_descs: Vec<ColumnDesc>,
    pub type_tag: String,
}

/// The mathematical model of a [`ColumnDesc`].
pub struct ColumnDescView {
    pub data_type: DataTypeView,
    pub column_id: ColumnId,
    pub name: Seq<char>,
    pub field_descs: Seq<ColumnDescView>,
    pub type_tag: Seq<char>,
}

/// The model of `c`, with the nested columns taken in order.
pub open spec fn column_desc_view(c: ColumnDesc) -> ColumnDescView
    decreases c,
{
    ColumnDescView {
        data_type: c.data_type@,
        column_id: c.column_id,
        name: c.name@,
        field_descs: Seq::new(
            c.field_descs@.len(),
            |i: int|
                if 0 <= i < c.field_descs@.len() {
                    column_desc_view(c.field_descs@[i])
                } else {
                    arbitrary()
                },
        ),
        type_tag: c.type_tag@,
    }
}

impl View for ColumnDesc {
    type V = ColumnDescView;

    open spec fn view(&self) -> ColumnDescView {
        column_desc_view(*self)
    }
}

/// The models of a sequence of values, in order.
pub open spec fn views<T: View>(s: Seq<T>) -> Seq<T::V> {
    Seq::new(s.len(), |i: int| s[i]@)
}

/// The nested columns of a column's model are the models of its nested columns.
pub proof fn lemma_field_descs_view(c: ColumnDesc)
    ensures
        c@.field_descs == views(c.field_descs@),
{
}

/// A copy of each column in `columns`, in order.
pub fn clone_column_descs(columns: &Vec<ColumnDesc>) -> (r: Vec<ColumnDesc>)
    ensures
        views(r@) == views(columns@),
{
    let mut copy: Vec<ColumnDesc> = Vec::new();
    let mut i: usize = 0;
    while i < columns.len()
        invariant
            i <= columns.len(),
            copy.len() == i,
            forall|j: int| 0 <= j < i ==> copy@[j]@ == columns@[j]@,
        decreases columns.len() - i,
    {
        copy.push(columns[i].clone());
        i = i + 1;
    }
    copy
}

impl ColumnDesc {
    /// A column of a scalar type without a name.
    pub fn unnamed(column_id: ColumnId, data_type: DataType) -> (r: Self)
        ensures
            r@ == (ColumnDescView {
                data_type: data_type@,
                column_id,
                name: Seq::empty(),
                field_descs: Seq::empty(),
                type_tag: Seq::empty(),
            }),
    {
        let r = ColumnDesc {
            data_type,
            column_id,
            name: String::new(),
            field_descs: Vec::new(),
            type_tag: String::new(),
        };
        assert(r@.field_descs =~= Seq::empty());
        r
    }
}

impl Clone for ColumnDesc {
    fn clone(&self) -> (r: Self)
        ensures
            r@ == self@,
        decreases self,
    {
        let mut fields: Vec<ColumnDesc> = Vec::new();
        let mut i: usize = 0;
        while i < self.field_descs.len()
            invariant
                i <= self.field_descs.len(),
                fields.len() == i,
                forall|j: int| 0 <= j < i ==> fields@[j]@ == self.field_descs@[j]@,
            decreases self.field_descs.len() - i,
        {
            fields.push(self.field_descs[i].clone());
            i = i + 1;
        }
        let r = ColumnDesc {
            data_type: self.data_type.clone(),
            column_id: self.column_id,
            name: self.name.clone(),
            field_descs: fields,
            type_tag: self.type_tag.clone(),
        };
        assert(r@.field_descs =~= self@.field_descs);
        r
    }
}

} // verus!
