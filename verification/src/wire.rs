//! The wire specifications that the catalog hands to the builder.

use std::collections::HashMap;
use vstd::prelude::*;
use crate::catalog::{views, ColumnDesc, ColumnDescView};

verus! {

/// A position in a column list.
#[derive(Clone, Copy, Debug, PartialEq, Eq, Structural)]
pub struct ColumnIndex {
    pub index: u32,
}

/// One entry of a wire column list.
#[derive(Debug, PartialEq, Eq)]
pub struct ColumnCatalog {
    pub column_desc: ColumnDesc,
    pub is_hidden: bool,
}

/// The mathematical model of a [`ColumnCatalog`].
pub struct ColumnCatalogView {
    pub column_desc: ColumnDescView,
    pub is_hidden: bool,
}

impl View for ColumnCatalog {
    type V = ColumnCatalogView;

    open spec fn view(&self) -> ColumnCatalogView {
        ColumnCatalogView { column_desc: self.column_desc@, is_hidden: self.is_hidden }
    }
}

impl Clone for ColumnCatalog {
    fn clone(&self) -> (r: Self)
        ensures
            r@ == self@,
    {
        ColumnCatalog { column_desc: self.column_desc.clone(), is_hidden: self.is_hidden }
    }
}

/// A copy of a wire column list.
pub fn clone_catalogs(columns: &Vec<ColumnCatalog>) -> (r: Vec<ColumnCatalog>)
    ensures
        views(r@) == views(columns@),
{
    let mut copy: Vec<ColumnCatalog> = Vec::new();
    let mut i: usize = 0;
    while i < columns.len()
        invariant
            i <= columns.len(),
            copy.len() == i,
            forall|j: int| 0 <= j < i ==> copy@[j]@ == columns@[j]@,
        decreases columns.len() - i,
    {
        copy.push(columns[i].clone());
        i = i + 1;
    }
    copy
}

/// The wire specification of a table-backed source. `properties` is not read
/// when the descriptor is built.
#[derive(Debug)]
pub struct TableSourceInfo {
    pub row_id_index: Option<ColumnIndex>,
    pub columns: Vec<ColumnCatalog>,
    pub pk_column_ids: Vec<i32>,
    pub properties: HashMap<String, String>,
}

/// The mathematical model of a [`TableSourceInfo`].
pub struct TableSourceInfoView {
    pub row_id_index: Option<ColumnIndex>,
    pub columns: Seq<ColumnCatalogView>,
    pub pk_column_ids: Seq<i32>,
    pub properties: Map<String, String>,
}

impl View for TableSourceInfo {
    type V = TableSourceInfoView;

    open spec fn view(&self) -> TableSourceInfoView {
        TableSourceInfoView {
            row_id_index: self.row_id_index,
            columns: views(self.columns@),
            pk_column_ids: self.pk_column_ids@,
            properties: self.properties@,
        }
    }
}

impl Clone for TableSourceInfo {
    fn clone(&self) -> (r: Self)
        ensures
            r@ == self@,
    {
        TableSourceInfo {
            row_id_index: self.row_id_index,
            columns: clone_catalogs(&self.columns),
            pk_column_ids: self.pk_column_ids.clone(),
            properties: self.properties.clone(),
        }
    }
}

/// How a connector encodes its rows on the wire.
#[derive(Clone, Copy, Debug, PartialEq, Eq, Structural)]
pub enum RowFormatType {
    RowUnspecified,
    Json,
    Protobuf,
    DebeziumJson,
    Avro,
}

/// The wire specification of a connector-backed source.
#[derive(Debug)]
pub struct StreamSourceInfo {
    pub properties: HashMap<String, String>,
    pub row_format: RowFormatType,
    pub row_schema_location: String,
    pub row_id_index: Option<ColumnIndex>,
    pub pk_column_ids: Vec<i32>,
    pub columns: Vec<ColumnCatalog>,
}

/// The mathematical model of a [`StreamSourceInfo`].
pub struct StreamSourceInfoView {
    pub properties: Map<String, String>,
    pub row_format: RowFormatType,
    pub row_schema_location: Seq<char>,
    pub row_id_index: Option<ColumnIndex>,
    pub pk_column_ids: Seq<i32>,
    pub columns: Seq<ColumnCatalogView>,
}

impl View for StreamSourceInfo {
    type V = StreamSourceInfoView;

    open spec fn view(&self) -> StreamSourceInfoView {
        StreamSourceInfoView {
            properties: self.properties@,
            row_format: self.row_format,
            row_schema_location: self.row_schema_location@,
            row_id_index: self.row_id_index,
            pk_column_ids: self.pk_column_ids@,
            columns: views(self.columns@),
        }
    }
}

impl Clone for StreamSourceInfo {
    fn clone(&self) -> (r: Self)
        ensures
            r@ == self@,
    {
        StreamSourceInfo {
            properties: self.properties.clone(),
            row_format: self.row_format,
            row_schema_location: self.row_schema_location.clone(),
            row_id_index: self.row_id_index,
            pk_column_ids: self.pk_column_ids.clone(),
            columns: clone_catalogs(&self.columns),
        }
    }
}

/// A wire specification: of a table-backed source or of a connector-backed one.
#[derive(Debug)]
pub enum SourceInfo {
    TableSource(TableSourceInfo),
    StreamSource(StreamSourceInfo),
}

/// The mathematical model of a [`SourceInfo`].
pub enum SourceInfoView {
    TableSource(TableSourceInfoView),
    StreamSource(StreamSourceInfoView),
}

impl View for SourceInfo {
    type V = SourceInfoView;

    open spec fn view(&self) -> SourceInfoView {
        match *self {
            SourceInfo::TableSource(info) => SourceInfoView::TableSource(info@),
            SourceInfo::StreamSource(info) => SourceInfoView::StreamSource(info@),
        }
    }
}

impl Clone for SourceInfo {
    fn clone(&self) -> (r: Self)
        ensures
            r@ == self@,
    {
        match self {
            SourceInfo::TableSource(info) => SourceInfo::TableSource(info.clone()),
            SourceInfo::StreamSource(info) => SourceInfo::StreamSource(info.clone()),
        }
    }
}

} // verus!
