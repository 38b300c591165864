//! The description of one column of a source.

use vstd::prelude::*;
use crate::catalog::{clone_column_descs, lemma_field_descs_view, views, ColumnDesc, ColumnDescView, ColumnId};
use crate::data_type::{DataType, DataTypeView};

verus! {

/// One column of a source, as a scan reads it. `skip_parse` marks the row-id
/// column, which the engine fills in itself.
#[derive(Debug, PartialEq, Eq)]
pub struct SourceColumnDesc {
    pub name: String,
    pub data_type: DataType,
    pub column_id: ColumnId,
    pub fields: Vec<ColumnDesc>,
    pub skip_parse: bool,
}

/// The mathematical model of a [`SourceColumnDesc`].
pub struct SourceColumnDescView {
    pub name: Seq<char>,
    pub data_type: DataTypeView,
    pub column_id: ColumnId,
    pub fields: Seq<ColumnDescView>,
    pub skip_parse: bool,
}

impl View for SourceColumnDesc {
    type V = SourceColumnDescView;

    open spec fn view(&self) -> SourceColumnDescView {
        SourceColumnDescView {
            name: self.name@,
            data_type: self.data_type@,
            column_id: self.column_id,
            fields: views(self.fields@),
            skip_parse: self.skip_parse,
        }
    }
}

/// The source column that stands for a catalog column: the same name, type,
/// identity and nested columns, and parsed like any other.
pub open spec fn source_column_of(c: ColumnDescView) -> SourceColumnDescView {
    SourceColumnDescView {
        name: c.name,
        data_type: c.data_type,
        column_id: c.column_id,
        fields: c.field_descs,
        skip_parse: false,
    }
}

/// The catalog column that stands for a source column. Its type tag is empty.
pub open spec fn column_of(s: SourceColumnDescView) -> ColumnDescView {
    ColumnDescView {
        data_type: s.data_type,
        column_id: s.column_id,
        name: s.name,
        field_descs: s.fields,
        type_tag: Seq::empty(),
    }
}

impl SourceColumnDesc {
    /// A column without nested columns. The type must be a scalar: a list or a
    /// struct column needs its nested descriptors, which this constructor
    /// cannot give it. [`DataType::is_composite`] tells the two apart.
    pub fn simple(name: &str, data_type: DataType, column_id: ColumnId) -> (r: Self)
        requires
            !data_type@.is_composite(),
        ensures
            r@ == (SourceColumnDescView {
                name: name@,
                data_type: data_type@,
                column_id,
                fields: Seq::empty(),
                skip_parse: false,
            }),
    {
        let r = SourceColumnDesc {
            name: name.to_owned(),
            data_type,
            column_id,
            fields: Vec::new(),
            skip_parse: false,
        };
        assert(r@.fields =~= Seq::empty());
        r
    }
}

impl<'a> From<&'a ColumnDesc> for SourceColumnDesc {
    /// The source column that stands for the catalog column `c`.
    fn from(c: &'a ColumnDesc) -> (r: Self)
        ensures
            r@ == source_column_of(c@),
    {
        proof {
            lemma_field_descs_view(*c);
        }
        SourceColumnDesc {
            name: c.name.clone(),
            data_type: c.data_type.clone(),
            column_id: c.column_id,
            fields: clone_column_descs(&c.field_descs),
            skip_parse: false,
        }
    }
}

/// What `from` returns is stated over models, in its own `ensures`: a value
/// with a `Vec` in it cannot be written down in a specification.
impl<'a> vstd::std_specs::convert::FromSpecImpl<&'a ColumnDesc> for SourceColumnDesc {
    open spec fn obeys_from_spec() -> bool {
        false
    }

    open spec fn from_spec(c: &'a ColumnDesc) -> Self {
        arbitrary()
    }
}

impl<'a> From<&'a SourceColumnDesc> for ColumnDesc {
    /// The catalog column that stands for the source column `s`. The type tag is
    /// not kept by a source column, so it comes back empty.
    fn from(s: &'a SourceColumnDesc) -> (r: Self)
        ensures
            r@ == column_of(s@),
    {
        let r = ColumnDesc {
            data_type: s.data_type.clone(),
            column_id: s.column_id,
            name: s.name.clone(),
            field_descs: clone_column_descs(&s.fields),
            type_tag: String::new(),
        };
        proof {
            lemma_field_descs_view(r);
        }
        r
    }
}

/// What `from` returns is stated over models, in its own `ensures`.
impl<'a> vstd::std_specs::convert::FromSpecImpl<&'a SourceColumnDesc> for ColumnDesc {
    open spec fn obeys_from_spec() -> bool {
        false
    }

    open spec fn from_spec(s: &'a SourceColumnDesc) -> Self {
        arbitrary()
    }
}

impl Clone for SourceColumnDesc {
    fn clone(&self) -> (r: Self)
        ensures
            r@ == self@,
    {
        SourceColumnDesc {
            name: self.name.clone(),
            data_type: self.data_type.clone(),
            column_id: self.column_id,
            fields: clone_column_descs(&self.fields),
            skip_parse: self.skip_parse,
        }
    }
}

/// Turning a catalog column into a source column and back keeps its name, type,
/// identity and nested columns, and leaves the type tag empty.
pub proof fn lemma_column_round_trip(c: ColumnDescView)
    ensures
        column_of(source_column_of(c)) == (ColumnDescView { type_tag: Seq::empty(), ..c }),
        column_of(source_column_of(c)).name == c.name,
        column_of(source_column_of(c)).column_id == c.column_id,
        column_of(source_column_of(c)).data_type == c.data_type,
        column_of(source_column_of(c)).field_descs == c.field_descs,
        column_of(source_column_of(c)).type_tag == Seq::<char>::empty(),
{
}

/// The other way round, a source column comes back as it was but for the mark
/// of the row-id column, which a catalog column does not carry.
pub proof fn lemma_source_column_round_trip(s: SourceColumnDescView)
    ensures
        source_column_of(column_of(s)) == (SourceColumnDescView { skip_parse: false, ..s }),
{
}

} // verus!
