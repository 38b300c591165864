//! Building a descriptor from a wire specification.
//!
//! A table source is built in one step, through the cache. A connector source
//! needs two things that are made outside this library: the parser of its rows
//! and its connector's configuration. The builder says when each is due and
//! takes the result of making it, so that it decides and its caller performs.

use std::collections::HashMap;
use std::sync::Arc;
use vstd::prelude::*;
use crate::catalog::{views, TableId};
use crate::column::SourceColumnDesc;
use crate::desc::{
    marked_columns, marked_columns_of, row_position, row_position_of, ConnectorSource, SourceDesc,
    SourceDescView, SourceFormat, SourceImpl, SourceImplView,
};
use crate::error::{ErrorKind, SourceError, SourceErrorView};
use crate::manager::{TableSourceManager, TableSourceManagerRef};
use crate::registry::{exhausted_message, SourceDescRef};
use crate::sync::share;
use crate::wire::{
    RowFormatType, SourceInfo, SourceInfoView, StreamSourceInfo, StreamSourceInfoView, TableSourceInfo,
};

verus! {

/// The message for a wire specification without a row format.
pub open spec fn unspecified_format_message() -> Seq<char> {
    "row format not specified"@
}

/// The message for the Protobuf format without a schema location.
pub open spec fn missing_schema_message() -> Seq<char> {
    "protobuf file location not provided"@
}

/// The message for a row-id index that is no position in the column list.
pub open spec fn row_id_out_of_range_message() -> Seq<char> {
    "row id index out of range"@
}

/// The message for a connector source without a primary key.
pub open spec fn missing_pk_message() -> Seq<char> {
    "source should have at least one pk column"@
}

/// The message for a step of a connector source taken on a table source.
pub open spec fn not_a_stream_message() -> Seq<char> {
    "not a stream source"@
}

/// The row format that a wire format names, if it names one.
pub open spec fn source_format_of(format: RowFormatType) -> Option<SourceFormat> {
    match format {
        RowFormatType::RowUnspecified => None,
        RowFormatType::Json => Some(SourceFormat::Json),
        RowFormatType::Protobuf => Some(SourceFormat::Protobuf),
        RowFormatType::DebeziumJson => Some(SourceFormat::DebeziumJson),
        RowFormatType::Avro => Some(SourceFormat::Avro),
    }
}

/// What is wrong with the format of `info`, if anything: it names no row
/// format, or it names Protobuf and gives no schema location.
pub open spec fn format_error(info: StreamSourceInfoView) -> Option<SourceErrorView> {
    if info.row_format == RowFormatType::RowUnspecified {
        Some(SourceErrorView::InternalError(unspecified_format_message()))
    } else if info.row_format == RowFormatType::Protobuf && info.row_schema_location.len() == 0 {
        Some(SourceErrorView::ProtocolError(missing_schema_message()))
    } else {
        None
    }
}

/// What is wrong with the columns of `info`, if anything: its row-id index is
/// no position in the column list, or, failing that, it has no primary key.
pub open spec fn layout_error(info: StreamSourceInfoView) -> Option<SourceErrorView> {
    if info.row_id_index matches Some(i) && i.index >= info.columns.len() {
        Some(SourceErrorView::ProtocolError(row_id_out_of_range_message()))
    } else if info.pk_column_ids.len() == 0 {
        Some(SourceErrorView::ProtocolError(missing_pk_message()))
    } else {
        None
    }
}

/// The descriptor of the connector source that `info` describes, with this
/// row format, parser and configuration.
pub open spec fn stream_source_desc<M, C, P>(
    info: StreamSourceInfoView,
    format: SourceFormat,
    parser: P,
    config: C,
    connector_message_buffer_size: usize,
    metrics: M,
) -> SourceDescView<M, C, P> {
    SourceDescView {
        source: SourceImplView::Connector {
            config,
            columns: marked_columns(info.columns, row_position(info.row_id_index)),
            parser,
            connector_message_buffer_size,
        },
        format,
        columns: marked_columns(info.columns, row_position(info.row_id_index)),
        metrics,
        row_id_index: row_position(info.row_id_index),
        pk_column_ids: info.pk_column_ids,
    }
}

/// What building the connector source that `info` describes comes to, given
/// how making the parser and extracting the configuration went. The checks
/// come in this order, and the first that fails decides: the format, the
/// parser, the columns, the configuration. A parser failure comes back as it
/// is; a configuration failure comes back as a connector error with its
/// message.
pub open spec fn stream_outcome<M, C, P>(
    info: StreamSourceInfoView,
    parser: Result<P, SourceErrorView>,
    config: Result<C, Seq<char>>,
    connector_message_buffer_size: usize,
    metrics: M,
) -> Result<SourceDescView<M, C, P>, SourceErrorView> {
    if let Some(e) = format_error(info) {
        Err(e)
    } else if let Err(e) = parser {
        Err(e)
    } else if let Some(e) = layout_error(info) {
        Err(e)
    } else if let Err(m) = config {
        Err(SourceErrorView::ConnectorError(m))
    } else {
        Ok(
            stream_source_desc(
                info,
                source_format_of(info.row_format)->0,
                parser->Ok_0,
                config->Ok_0,
                connector_message_buffer_size,
                metrics,
            ),
        )
    }
}

/// The Protobuf format without a schema location is a protocol error,
/// however making the parser and extracting the configuration went.
pub proof fn lemma_protobuf_needs_schema_location<M, C, P>(
    info: StreamSourceInfoView,
    parser: Result<P, SourceErrorView>,
    config: Result<C, Seq<char>>,
    connector_message_buffer_size: usize,
    metrics: M,
)
    requires
        info.row_format == RowFormatType::Protobuf,
        info.row_schema_location.len() == 0,
    ensures
        stream_outcome(info, parser, config, connector_message_buffer_size, metrics) == Err::<
            SourceDescView<M, C, P>,
            _,
        >(SourceErrorView::ProtocolError(missing_schema_message())),
{
}

/// A connector source without a primary key is never built: the outcome is an
/// error, and a protocol error if the format is in order and the parser was
/// made.
pub proof fn lemma_stream_source_needs_pk<M, C, P>(
    info: StreamSourceInfoView,
    parser: Result<P, SourceErrorView>,
    config: Result<C, Seq<char>>,
    connector_message_buffer_size: usize,
    metrics: M,
)
    requires
        info.pk_column_ids.len() == 0,
    ensures
        stream_outcome(info, parser, config, connector_message_buffer_size, metrics) is Err,
        format_error(info) is None && parser is Ok ==> stream_outcome(
            info,
            parser,
            config,
            connector_message_buffer_size,
            metrics,
        )->Err_0.kind() == ErrorKind::Protocol,
{
}

/// Whatever is built for a connector source is well formed: an outcome that
/// is a descriptor is connector-backed, so it has a row format and a primary
/// key, and leaves exactly its row-id column unparsed.
pub proof fn lemma_stream_outcome_wf<M, C, P>(
    info: StreamSourceInfoView,
    parser: Result<P, SourceErrorView>,
    config: Result<C, Seq<char>>,
    connector_message_buffer_size: usize,
    metrics: M,
)
    ensures
        stream_outcome(info, parser, config, connector_message_buffer_size, metrics) matches Ok(d)
            ==> d.is_connector_backed(),
{
}

/// What the parser of a connector source is made from.
#[derive(Debug)]
pub struct ParserRequest {
    pub format: SourceFormat,
    pub properties: HashMap<String, String>,
    pub row_schema_location: String,
}

/// What a build asks for first.
#[derive(Debug)]
pub enum BuildStep<M, C, P> {
    /// The build is over.
    Done(Result<SourceDescRef<M, C, P>, SourceError>),
    /// The parser is due: make it and call [`SourceDescBuilder::parser_ready`].
    CreateParser(ParserRequest),
}

/// What a build asks for once the parser was made.
#[derive(Debug)]
pub enum ParserStep<P> {
    /// The build failed.
    Failed(SourceError),
    /// The connector's configuration is due: extract it from `properties` and
    /// call [`SourceDescBuilder::config_ready`] with it and with `parser`.
    ExtractConfig { parser: P, properties: HashMap<String, String> },
}

/// The row format that `format` names, or an internal error if it names none.
pub fn source_format(format: RowFormatType) -> (r: Result<SourceFormat, SourceError>)
    ensures
        match source_format_of(format) {
            Some(f) => r == Ok::<_, SourceError>(f),
            None => r is Err && r->Err_0@ == SourceErrorView::InternalError(unspecified_format_message()),
        },
{
    match format {
        RowFormatType::Json => Ok(SourceFormat::Json),
        RowFormatType::Protobuf => Ok(SourceFormat::Protobuf),
        RowFormatType::DebeziumJson => Ok(SourceFormat::DebeziumJson),
        RowFormatType::Avro => Ok(SourceFormat::Avro),
        RowFormatType::RowUnspecified => Err(
            SourceError::InternalError("row format not specified".to_owned()),
        ),
    }
}

/// Checks the format of `info` and returns its row format.
pub fn check_format(info: &StreamSourceInfo) -> (r: Result<SourceFormat, SourceError>)
    ensures
        match format_error(info@) {
            Some(e) => r is Err && r->Err_0@ == e,
            None => r == Ok::<_, SourceError>(source_format_of(info@.row_format)->0),
        },
{
    let format = match source_format(info.row_format) {
        Ok(format) => format,
        Err(e) => {
            return Err(e);
        },
    };
    if format == SourceFormat::Protobuf && info.row_schema_location.as_str().is_empty() {
        return Err(SourceError::ProtocolError("protobuf file location not provided".to_owned()));
    }
    Ok(format)
}

/// Checks the columns of `info`: the row-id index and the primary key.
pub fn check_layout(info: &StreamSourceInfo) -> (r: Result<(), SourceError>)
    ensures
        match layout_error(info@) {
            Some(e) => r is Err && r->Err_0@ == e,
            None => r is Ok,
        },
{
    if let Some(i) = info.row_id_index {
        if i.index as usize >= info.columns.len() {
            return Err(SourceError::ProtocolError("row id index out of range".to_owned()));
        }
    }
    if info.pk_column_ids.len() == 0 {
        return Err(SourceError::ProtocolError("source should have at least one pk column".to_owned()));
    }
    Ok(())
}

/// A copy of each column in `columns`, in order.
pub fn clone_source_columns(columns: &Vec<SourceColumnDesc>) -> (r: Vec<SourceColumnDesc>)
    ensures
        views(r@) == views(columns@),
{
    let mut copy: Vec<SourceColumnDesc> = Vec::new();
    let mut i: usize = 0;
    while i < columns.len()
        invariant
            i <= columns.len(),
            copy.len() == i,
            forall|j: int| 0 <= j < i ==> copy@[j]@ == columns@[j]@,
        decreases columns.len() - i,
    {
        copy.push(columns[i].clone());
        i = i + 1;
    }
    copy
}

/// The descriptor of the connector source that `info` describes. The checks
/// of [`check_format`] and [`check_layout`] are the caller's.
pub fn assemble_stream_source<M, C, P>(
    info: &StreamSourceInfo,
    format: SourceFormat,
    parser: P,
    config: C,
    connector_message_buffer_size: usize,
    metrics: Arc<M>,
) -> (r: SourceDesc<M, C, P>)
    ensures
        r@ == stream_source_desc(
            info@,
            format,
            parser,
            config,
            connector_message_buffer_size,
            *metrics,
        ),
{
    let row_id_index = row_position_of(&info.row_id_index);
    let columns = marked_columns_of(&info.columns, row_id_index);
    let pk_column_ids = info.pk_column_ids.clone();
    let source = SourceImpl::Connector(
        ConnectorSource {
            config,
            columns: clone_source_columns(&columns),
            parser,
            connector_message_buffer_size,
        },
    );
    SourceDesc { source, format, columns, row_id_index, pk_column_ids, metrics }
}

/// The model of a build's end: the descriptor, or the error.
pub open spec fn built_view<M, C, P>(r: Result<SourceDescRef<M, C, P>, SourceError>) -> Result<
    SourceDescView<M, C, P>,
    SourceErrorView,
> {
    match r {
        Ok(h) => Ok(h@.desc),
        Err(e) => Err(e@),
    }
}

/// The model of what came of making a parser.
pub open spec fn parser_view<P>(r: Result<P, SourceError>) -> Result<P, SourceErrorView> {
    match r {
        Ok(p) => Ok(p),
        Err(e) => Err(e@),
    }
}

/// The model of what came of extracting a configuration.
pub open spec fn config_view<C>(r: Result<C, String>) -> Result<C, Seq<char>> {
    match r {
        Ok(c) => Ok(c),
        Err(m) => Err(m@),
    }
}

/// Builds the descriptor of one source from its wire specification.
#[verifier::reject_recursive_types(M)]
#[verifier::reject_recursive_types(C)]
#[verifier::reject_recursive_types(P)]
pub struct SourceDescBuilder<M, C, P> {
    id: TableId,
    info: SourceInfo,
    mgr: TableSourceManagerRef<M, C, P>,
}

impl<M, C, P> SourceDescBuilder<M, C, P> {
    /// The table id that the descriptor is built for.
    pub closed spec fn spec_id(&self) -> TableId {
        self.id
    }

    /// The wire specification that the descriptor is built from.
    pub closed spec fn spec_info(&self) -> SourceInfoView {
        self.info@
    }

    /// The manager through which the descriptor is built.
    pub closed spec fn spec_mgr(&self) -> TableSourceManager<M, C, P> {
        *self.mgr
    }

    /// A builder for the source `id` that `info` describes, working through
    /// `mgr`.
    pub fn new(id: TableId, info: &SourceInfo, mgr: &TableSourceManagerRef<M, C, P>) -> (r: Self)
        ensures
            r.spec_id() == id,
            r.spec_info() == info@,
            r.spec_mgr() == **mgr,
    {
        SourceDescBuilder { id, info: info.clone(), mgr: share(mgr) }
    }

    /// The table id that the descriptor is built for.
    pub fn id(&self) -> (r: TableId)
        ensures
            r == self.spec_id(),
    {
        self.id
    }

    /// Builds for another table id from now on.
    pub fn set_id(&mut self, id: TableId)
        ensures
            final(self).spec_id() == id,
            final(self).spec_info() == old(self).spec_info(),
            final(self).spec_mgr() == old(self).spec_mgr(),
    {
        self.id = id;
    }

    /// Starts the build. A table source is built at once, through the cache of
    /// the manager: the step is `Done` with what
    /// [`TableSourceManager::insert_source`] returned. A connector source has
    /// its format checked: the step is `Done` with the error of
    /// [`format_error`] if there is one, and else asks for the parser of that
    /// format, with the properties and the schema location of the wire
    /// specification.
    pub fn build(&self) -> (step: BuildStep<M, C, P>)
        ensures
            match self.spec_info() {
                SourceInfoView::TableSource(info) => step matches BuildStep::Done(r) && match r {
                    Ok(h) => h@.lease is Some && h@.lease->0.table_id == self.spec_id()
                        && h@.desc.is_table_backed(),
                    Err(e) => e@ == SourceErrorView::InternalError(exhausted_message()),
                },
                SourceInfoView::StreamSource(info) => match format_error(info) {
                    Some(e) => step matches BuildStep::Done(r) && r is Err && r->Err_0@ == e,
                    None => step matches BuildStep::CreateParser(request) && request.format
                        == source_format_of(info.row_format)->0 && request.properties@
                        == info.properties && request.row_schema_location@
                        == info.row_schema_location,
                },
            },
    {
        match &self.info {
            SourceInfo::TableSource(info) => BuildStep::Done(
                Self::build_table_source(&self.mgr, &self.id, info),
            ),
            SourceInfo::StreamSource(info) => match check_format(info) {
                Err(e) => BuildStep::Done(Err(e)),
                Ok(format) => BuildStep::CreateParser(
                    ParserRequest {
                        format,
                        properties: info.properties.clone(),
                        row_schema_location: info.row_schema_location.clone(),
                    },
                ),
            },
        }
    }

    /// Goes on with the build of a connector source once its parser was made,
    /// or could not be. The step is `Failed` with the first of these that
    /// applies: the error of [`format_error`], the parser's own error as it
    /// came, the error of [`layout_error`]. Else it hands the parser back and
    /// asks for the configuration that the wire properties hold. On a table
    /// source the step is `Failed` with an internal error.
    pub fn parser_ready(&self, parser: Result<P, SourceError>) -> (step: ParserStep<P>)
        ensures
            match self.spec_info() {
                SourceInfoView::TableSource(_) => step matches ParserStep::Failed(e) && e@
                    == SourceErrorView::InternalError(not_a_stream_message()),
                SourceInfoView::StreamSource(info) => {
                    if let Some(e) = format_error(info) {
                        step matches ParserStep::Failed(f) && f@ == e
                    } else if let Err(e) = parser {
                        step matches ParserStep::Failed(f) && f == e
                    } else if let Some(e) = layout_error(info) {
                        step matches ParserStep::Failed(f) && f@ == e
                    } else {
                        step matches ParserStep::ExtractConfig { parser: p, properties } && p
                            == parser->Ok_0 && properties@ == info.properties
                    }
                },
            },
    {
        let info = match &self.info {
            SourceInfo::TableSource(_) => {
                return ParserStep::Failed(SourceError::InternalError("not a stream source".to_owned()));
            },
            SourceInfo::StreamSource(info) => info,
        };
        if let Err(e) = check_format(info) {
            return ParserStep::Failed(e);
        }
        let parser = match parser {
            Ok(parser) => parser,
            Err(e) => {
                return ParserStep::Failed(e);
            },
        };
        if let Err(e) = check_layout(info) {
            return ParserStep::Failed(e);
        }
        ParserStep::ExtractConfig { parser, properties: info.properties.clone() }
    }

    /// Ends the build of a connector source once its configuration was
    /// extracted, or could not be. The result is what [`stream_outcome`] says
    /// of the wire specification, this parser and this configuration, with the
    /// buffer capacity and the metrics of the manager: the checks are made
    /// again, so a step taken out of turn cannot yield a descriptor that breaks
    /// a rule. The descriptor is fresh and not cached: its handle has no lease.
    /// On a table source the result is an internal error.
    pub fn config_ready(&self, parser: P, config: Result<C, String>) -> (r: Result<
        SourceDescRef<M, C, P>,
        SourceError,
    >)
        ensures
            r matches Ok(h) ==> h@.lease is None && h@.desc.is_connector_backed(),
            match self.spec_info() {
                SourceInfoView::TableSource(_) => r is Err && r->Err_0@
                    == SourceErrorView::InternalError(not_a_stream_message()),
                SourceInfoView::StreamSource(info) => built_view(r) == stream_outcome(
                    info,
                    Ok(parser),
                    config_view(config),
                    self.spec_mgr().spec_msg_buf_size(),
                    self.spec_mgr().spec_metrics(),
                ),
            },
    {
        let info = match &self.info {
            SourceInfo::TableSource(_) => {
                return Err(SourceError::InternalError("not a stream source".to_owned()));
            },
            SourceInfo::StreamSource(info) => info,
        };
        Self::build_stream_source(&self.mgr, info, Ok(parser), config)
    }

    fn build_table_source(
        mgr: &TableSourceManagerRef<M, C, P>,
        table_id: &TableId,
        info: &TableSourceInfo,
    ) -> (r: Result<SourceDescRef<M, C, P>, SourceError>)
        ensures
            r matches Ok(h) ==> h@.lease is Some && h@.lease->0.table_id == *table_id
                && h@.desc.is_table_backed(),
            r matches Err(e) ==> e@ == SourceErrorView::InternalError(exhausted_message()),
    {
        mgr.insert_source(table_id, info)
    }

    /// Builds the descriptor of the connector source that `info` describes,
    /// given how making its parser and extracting its configuration went.
    pub fn build_stream_source(
        mgr: &TableSourceManagerRef<M, C, P>,
        info: &StreamSourceInfo,
        parser: Result<P, SourceError>,
        config: Result<C, String>,
    ) -> (r: Result<SourceDescRef<M, C, P>, SourceError>)
        ensures
            built_view(r) == stream_outcome(
                info@,
                parser_view(parser),
                config_view(config),
                mgr.spec_msg_buf_size(),
                mgr.spec_metrics(),
            ),
            r matches Ok(h) ==> h@.lease is None && h@.desc.is_connector_backed(),
    {
        let format = match check_format(info) {
            Ok(format) => format,
            Err(e) => {
                return Err(e);
            },
        };
        let parser = match parser {
            Ok(parser) => parser,
            Err(e) => {
                return Err(e);
            },
        };
        if let Err(e) = check_layout(info) {
            return Err(e);
        }
        let config = match config {
            Ok(config) => config,
            Err(message) => {
                return Err(SourceError::ConnectorError(message));
            },
        };
        let desc = assemble_stream_source(info, format, parser, config, mgr.msg_buf_size(), mgr.metrics());
        Ok(SourceDescRef::detached(desc))
    }
}

impl<M, C, P> Clone for SourceDescBuilder<M, C, P> {
    fn clone(&self) -> (r: Self)
        ensures
            r.spec_id() == self.spec_id(),
            r.spec_info() == self.spec_info(),
            r.spec_mgr() == self.spec_mgr(),
    {
        SourceDescBuilder { id: self.id, info: self.info.clone(), mgr: share(&self.mgr) }
    }
}

} // verus!
