//! Source descriptors for a streaming engine's ingestion layer: the column and
//! descriptor types, a cache of table-backed descriptors that lives as long as
//! they are held, and the builder that turns a wire specification into a
//! descriptor. A small module reads the trailer of an encoded storage block.

pub mod block;
pub mod builder;
pub mod catalog;
pub mod column;
pub mod data_type;
pub mod desc;
pub mod error;
pub mod manager;
pub mod registry;
pub mod sync;
pub mod wire;

pub use crate::builder::{BuildStep, ParserRequest, ParserStep, SourceDescBuilder};
pub use crate::catalog::{ColumnDesc, ColumnId, TableId};
pub use crate::column::SourceColumnDesc;
pub use crate::data_type::DataType;
pub use crate::desc::{ConnectorSource, SourceDesc, SourceFormat, SourceImpl, TableSource};
pub use crate::error::{ErrorKind, SourceError};
pub use crate::manager::{TableSourceManager, TableSourceManagerRef};
pub use crate::registry::{Lease, SourceDescRef, SourceTable};
pub use crate::wire::{ColumnCatalog, ColumnIndex, RowFormatType, SourceInfo, StreamSourceInfo, TableSourceInfo};
