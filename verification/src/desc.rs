//! The descriptor of a source: what a scan needs to read and parse its rows.

use std::sync::Arc;
use vstd::prelude::*;
use crate::catalog::{views, ColumnDesc, ColumnDescView};
use crate::column::{source_column_of, SourceColumnDesc, SourceColumnDescView};
use crate::wire::{ColumnCatalog, ColumnCatalogView, ColumnIndex, TableSourceInfo, TableSourceInfoView};

verus! {

/// The encoding of a source's rows. A table-backed source has none: `Invalid`.
#[derive(Clone, Copy, Debug, PartialEq, Eq, Structural)]
pub enum SourceFormat {
    Invalid,
    Json,
    Protobuf,
    DebeziumJson,
    Avro,
}

/// An internal, append-only table source.
#[derive(Debug)]
pub struct TableSource {
    pub column_descs: Vec<ColumnDesc>,
}

impl TableSource {
    pub fn new(column_descs: Vec<ColumnDesc>) -> (r: Self)
        ensures
            r.column_descs == column_descs,
    {
        TableSource { column_descs }
    }
}

/// A source fed by an outside connector. `C` is the connector's configuration
/// and `P` the parser of its rows; neither is looked into here.
#[derive(Debug)]
pub struct ConnectorSource<C, P> {
    pub config: C,
    pub columns: Vec<SourceColumnDesc>,
    pub parser: P,
    pub connector_message_buffer_size: usize,
}

/// Where the rows of a source come from.
#[derive(Debug)]
pub enum SourceImpl<C, P> {
    Table(TableSource),
    Connector(ConnectorSource<C, P>),
}

/// The mathematical model of a [`SourceImpl`].
pub enum SourceImplView<C, P> {
    Table { column_descs: Seq<ColumnDescView> },
    Connector {
        config: C,
        columns: Seq<SourceColumnDescView>,
        parser: P,
        connector_message_buffer_size: usize,
    },
}

impl<C, P> View for SourceImpl<C, P> {
    type V = SourceImplView<C, P>;

    open spec fn view(&self) -> SourceImplView<C, P> {
        match *self {
            SourceImpl::Table(t) => SourceImplView::Table { column_descs: views(t.column_descs@) },
            SourceImpl::Connector(c) => SourceImplView::Connector {
                config: c.config,
                columns: views(c.columns@),
                parser: c.parser,
                connector_message_buffer_size: c.connector_message_buffer_size,
            },
        }
    }
}

/// What a scan needs of a source: where its rows come from, how they are
/// encoded, its columns, the metrics it reports to, the position of the row-id
/// column if there is one, and the ids of its primary-key columns.
#[derive(Debug)]
pub struct SourceDesc<M, C, P> {
    pub source: SourceImpl<C, P>,
    pub format: SourceFormat,
    pub columns: Vec<SourceColumnDesc>,
    pub metrics: Arc<M>,
    pub row_id_index: Option<usize>,
    pub pk_column_ids: Vec<i32>,
}

/// The mathematical model of a [`SourceDesc`].
pub struct SourceDescView<M, C, P> {
    pub source: SourceImplView<C, P>,
    pub format: SourceFormat,
    pub columns: Seq<SourceColumnDescView>,
    pub metrics: M,
    pub row_id_index: Option<usize>,
    pub pk_column_ids: Seq<i32>,
}

impl<M, C, P> View for SourceDesc<M, C, P> {
    type V = SourceDescView<M, C, P>;

    open spec fn view(&self) -> SourceDescView<M, C, P> {
        SourceDescView {
            source: self.source@,
            format: self.format,
            columns: views(self.columns@),
            metrics: *self.metrics,
            row_id_index: self.row_id_index,
            pk_column_ids: self.pk_column_ids@,
        }
    }
}

/// Whether `j` is the position of the row-id column.
pub open spec fn is_row_id(row_id_index: Option<usize>, j: int) -> bool {
    row_id_index matches Some(p) && p == j
}

impl<M, C, P> SourceDescView<M, C, P> {
    /// Exactly the row-id column, if there is one among the columns, is left
    /// unparsed.
    pub open spec fn marks_row_id(self) -> bool {
        forall|j: int|
            0 <= j < self.columns.len() ==> ((#[trigger] self.columns[j]).skip_parse <==> is_row_id(
                self.row_id_index,
                j,
            ))
    }

    /// A descriptor of a table source: it has no row format, and exactly its
    /// row-id column is left unparsed.
    pub open spec fn is_table_backed(self) -> bool {
        &&& self.source is Table
        &&& self.format == SourceFormat::Invalid
        &&& self.marks_row_id()
    }

    /// A descriptor of a connector source: it has a row format and a primary
    /// key, the connector reads the descriptor's own columns, the row-id
    /// index, if there is one, is a position in them, and exactly the row-id
    /// column is left unparsed.
    pub open spec fn is_connector_backed(self) -> bool {
        &&& self.source is Connector
        &&& self.format != SourceFormat::Invalid
        &&& self.pk_column_ids.len() > 0
        &&& self.source->Connector_columns == self.columns
        &&& self.row_id_index matches Some(i) ==> i < self.columns.len()
        &&& self.marks_row_id()
    }

    /// What holds of the descriptor behind every handle: it is table-backed
    /// or connector-backed.
    pub open spec fn wf(self) -> bool {
        self.is_table_backed() || self.is_connector_backed()
    }
}

/// The position that a wire column index names.
pub open spec fn row_position(index: Option<ColumnIndex>) -> Option<usize> {
    match index {
        Some(i) => Some(i.index as usize),
        None => None,
    }
}

/// The catalog columns of a wire column list, in order.
pub open spec fn catalog_columns(columns: Seq<ColumnCatalogView>) -> Seq<ColumnDescView> {
    Seq::new(columns.len(), |i: int| columns[i].column_desc)
}

/// The source columns that stand for a wire column list, in order, with the
/// column at `row_id_index`, if there is one, left unparsed and every other
/// column parsed.
pub open spec fn marked_columns(columns: Seq<ColumnCatalogView>, row_id_index: Option<usize>) -> Seq<
    SourceColumnDescView,
> {
    Seq::new(
        columns.len(),
        |j: int|
            SourceColumnDescView {
                skip_parse: is_row_id(row_id_index, j),
                ..source_column_of(columns[j].column_desc)
            },
    )
}

/// The descriptor of the table source that `info` describes: its columns in
/// wire order with the row-id column left unparsed, no row format, and the
/// row-id position and primary key as given.
pub open spec fn table_source_desc<M, C, P>(info: TableSourceInfoView, metrics: M) -> SourceDescView<
    M,
    C,
    P,
> {
    SourceDescView {
        source: SourceImplView::Table { column_descs: catalog_columns(info.columns) },
        format: SourceFormat::Invalid,
        columns: marked_columns(info.columns, row_position(info.row_id_index)),
        metrics,
        row_id_index: row_position(info.row_id_index),
        pk_column_ids: info.pk_column_ids,
    }
}

/// The position that a wire column index names.
pub fn row_position_of(index: &Option<ColumnIndex>) -> (r: Option<usize>)
    ensures
        r == row_position(*index),
{
    match index {
        Some(i) => Some(i.index as usize),
        None => None,
    }
}

/// The catalog columns of a wire column list, in order.
pub fn catalog_columns_of(columns: &Vec<ColumnCatalog>) -> (r: Vec<ColumnDesc>)
    ensures
        views(r@) == catalog_columns(views(columns@)),
{
    let mut out: Vec<ColumnDesc> = Vec::new();
    let mut i: usize = 0;
    while i < columns.len()
        invariant
            i <= columns.len(),
            out.len() == i,
            forall|j: int| 0 <= j < i ==> out@[j]@ == columns@[j]@.column_desc,
        decreases columns.len() - i,
    {
        out.push(columns[i].column_desc.clone());
        i = i + 1;
    }
    out
}

/// The source columns that stand for a wire column list, with the column at
/// `row_id_index`, if there is one, left unparsed.
pub fn marked_columns_of(columns: &Vec<ColumnCatalog>, row_id_index: Option<usize>) -> (r: Vec<
    SourceColumnDesc,
>)
    ensures
        views(r@) == marked_columns(views(columns@), row_id_index),
{
    let mut out: Vec<SourceColumnDesc> = Vec::new();
    let mut i: usize = 0;
    while i < columns.len()
        invariant
            i <= columns.len(),
            out.len() == i,
            forall|j: int| 0 <= j < i ==> out@[j]@ == marked_columns(views(columns@), row_id_index)[j],
        decreases columns.len() - i,
    {
        let mut column = SourceColumnDesc::from(&columns[i].column_desc);
        column.skip_parse = match row_id_index {
            Some(p) => p == i,
            None => false,
        };
        out.push(column);
        i = i + 1;
    }
    out
}

impl<M, C, P> SourceDesc<M, C, P> {
    /// The descriptor of the table source that `info` describes, reporting to
    /// `metrics`. The column at the row-id index is marked as left unparsed; an
    /// index that is no position in the columns marks none.
    pub fn of_table(info: &TableSourceInfo, metrics: Arc<M>) -> (r: Self)
        ensures
            r@ == table_source_desc::<M, C, P>(info@, *metrics),
            r@.is_table_backed(),
    {
        let columns = catalog_columns_of(&info.columns);
        let row_id_index = row_position_of(&info.row_id_index);
        let pk_column_ids = info.pk_column_ids.clone();
        SourceDesc {
            columns: marked_columns_of(&info.columns, row_id_index),
            source: SourceImpl::Table(TableSource::new(columns)),
            format: SourceFormat::Invalid,
            row_id_index,
            pk_column_ids,
            metrics,
        }
    }
}

} // verus!
