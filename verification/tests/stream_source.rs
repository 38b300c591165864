use std::collections::HashMap;
use std::sync::Arc;

use source_manager::builder::{
    assemble_stream_source, check_format, check_layout, source_format, BuildStep, ParserStep,
    SourceDescBuilder,
};
use source_manager::catalog::{ColumnDesc, ColumnId, TableId};
use source_manager::data_type::DataType;
use source_manager::desc::{marked_columns_of, row_position_of, SourceFormat, SourceImpl};
use source_manager::error::{ErrorKind, SourceError};
use source_manager::manager::{TableSourceManager, TableSourceManagerRef};
use source_manager::registry::SourceDescRef;
use source_manager::wire::{
    ColumnCatalog, ColumnIndex, RowFormatType, SourceInfo, StreamSourceInfo, TableSourceInfo,
};

/// Stands for the configuration of a connector.
#[derive(Debug, PartialEq, Eq)]
struct Config(String);

/// Stands for the parser of a row format.
#[derive(Debug, PartialEq, Eq)]
struct Parser(SourceFormat);

type Manager = TableSourceManager<u32, Config, Parser>;
type ManagerRef = TableSourceManagerRef<u32, Config, Parser>;
type Builder = SourceDescBuilder<u32, Config, Parser>;
type Handle = SourceDescRef<u32, Config, Parser>;

fn demo_properties() -> HashMap<String, String> {
    let mut properties = HashMap::new();
    properties.insert("connector".to_string(), "kinesis".to_string());
    properties.insert("kinesis.stream.name".to_string(), "kinesis_debug".to_string());
    properties
}

fn stream_info(row_format: RowFormatType, location: &str, row_id_index: Option<u32>, pk: Vec<i32>) -> StreamSourceInfo {
    let types = vec![DataType::Int64, DataType::Varchar, DataType::Decimal];
    let mut columns = Vec::new();
    for (i, data_type) in types.into_iter().enumerate() {
        columns.push(ColumnCatalog {
            column_desc: ColumnDesc {
                data_type,
                column_id: ColumnId::new(i as i32),
                name: format!("c{}", i),
                field_descs: vec![],
                type_tag: "tag".to_string(),
            },
            is_hidden: false,
        });
    }
    StreamSourceInfo {
        properties: demo_properties(),
        row_format,
        row_schema_location: location.to_string(),
        row_id_index: row_id_index.map(|index| ColumnIndex { index }),
        pk_column_ids: pk,
        columns,
    }
}

fn manager() -> ManagerRef {
    Arc::new(Manager::new(Arc::new(3), 8))
}

fn builder(info: StreamSourceInfo, mgr: &ManagerRef) -> Builder {
    SourceDescBuilder::new(TableId::new(1), &SourceInfo::StreamSource(info), mgr)
}

/// Runs a build to its end, with a parser and a configuration that are made as
/// the two arguments say.
fn run(b: &Builder, parser: Result<(), SourceError>, config: Result<(), String>) -> Result<Handle, SourceError> {
    let request = match b.build() {
        BuildStep::Done(r) => return r,
        BuildStep::CreateParser(request) => request,
    };
    let parser = parser.map(|_| Parser(request.format));
    match b.parser_ready(parser) {
        ParserStep::Failed(e) => Err(e),
        ParserStep::ExtractConfig { parser, properties } => {
            let config = config.map(|_| Config(properties["connector"].clone()));
            b.config_ready(parser, config)
        }
    }
}

#[test]
fn test_source_v2() {
    let properties = demo_properties();
    let columns = vec![ColumnCatalog {
        column_desc: ColumnDesc::unnamed(ColumnId::from(0), DataType::Int64),
        is_hidden: false,
    }];
    let info = StreamSourceInfo {
        properties,
        row_format: RowFormatType::Json,
        row_schema_location: "".to_string(),
        row_id_index: Some(ColumnIndex { index: 0 }),
        pk_column_ids: vec![0],
        columns,
    };
    let source_id = TableId::default();

    let mem_source_manager: ManagerRef = Arc::new(Manager::default());
    let source_builder = SourceDescBuilder::new(source_id, &SourceInfo::StreamSource(info), &mem_source_manager);
    let source = run(&source_builder, Ok(()), Ok(()));

    assert!(source.is_ok());
}

#[test]
fn stream_source_is_assembled() {
    let mgr = manager();
    let b = builder(stream_info(RowFormatType::Json, "", Some(1), vec![0, 2]), &mgr);
    let h = run(&b, Ok(()), Ok(())).unwrap();
    assert_eq!(h.lease(), None);
    assert_eq!(h.table_id(), None);
    let desc = h.desc();
    assert_eq!(desc.format, SourceFormat::Json);
    assert_eq!(desc.row_id_index, Some(1));
    assert_eq!(desc.pk_column_ids, vec![0, 2]);
    assert!(Arc::ptr_eq(&desc.metrics, &mgr.metrics()));
    assert_eq!(desc.columns.len(), 3);
    let marks: Vec<bool> = desc.columns.iter().map(|c| c.skip_parse).collect();
    assert_eq!(marks, vec![false, true, false]);
    assert_eq!(desc.columns[0].name, "c0");
    assert_eq!(desc.columns[1].data_type, DataType::Varchar);
    assert_eq!(desc.columns[2].column_id, ColumnId::new(2));
    match &desc.source {
        SourceImpl::Connector(c) => {
            assert_eq!(c.config, Config("kinesis".to_string()));
            assert_eq!(c.parser, Parser(SourceFormat::Json));
            assert_eq!(c.connector_message_buffer_size, 8);
            assert_eq!(c.columns, desc.columns);
        }
        SourceImpl::Table(_) => panic!("a connector source is no table"),
    }
    // Nothing was cached.
    assert!(mgr.is_empty());
}

#[test]
fn stream_source_without_row_id_marks_no_column() {
    let mgr = manager();
    let b = builder(stream_info(RowFormatType::Avro, "", None, vec![0]), &mgr);
    let h = run(&b, Ok(()), Ok(())).unwrap();
    assert_eq!(h.desc().row_id_index, None);
    assert!(h.desc().columns.iter().all(|c| !c.skip_parse));
    assert_eq!(h.desc().format, SourceFormat::Avro);
}

#[test]
fn every_build_yields_a_fresh_descriptor() {
    let mgr = manager();
    let b = builder(stream_info(RowFormatType::DebeziumJson, "", Some(0), vec![1]), &mgr);
    let first = run(&b, Ok(()), Ok(())).unwrap();
    let second = run(&b, Ok(()), Ok(())).unwrap();
    assert!(!first.same_instance(&second));
    assert_eq!(first.desc().format, SourceFormat::DebeziumJson);
    assert_eq!(second.desc().columns, first.desc().columns);
    mgr.release(first);
    assert!(mgr.is_empty());
}

#[test]
fn wire_formats_map_to_row_formats() {
    assert_eq!(source_format(RowFormatType::Json), Ok(SourceFormat::Json));
    assert_eq!(source_format(RowFormatType::Protobuf), Ok(SourceFormat::Protobuf));
    assert_eq!(source_format(RowFormatType::DebeziumJson), Ok(SourceFormat::DebeziumJson));
    assert_eq!(source_format(RowFormatType::Avro), Ok(SourceFormat::Avro));
    assert_eq!(
        source_format(RowFormatType::RowUnspecified),
        Err(SourceError::InternalError("row format not specified".to_string()))
    );
}

#[test]
fn parser_request_carries_the_wire_values() {
    let mgr = manager();
    let b = builder(stream_info(RowFormatType::Protobuf, "file:///schema.proto", None, vec![0]), &mgr);
    match b.build() {
        BuildStep::CreateParser(request) => {
            assert_eq!(request.format, SourceFormat::Protobuf);
            assert_eq!(request.row_schema_location, "file:///schema.proto");
            assert_eq!(request.properties, demo_properties());
        }
        BuildStep::Done(_) => panic!("the parser is due"),
    }
}

#[test]
fn protobuf_without_schema_location_is_a_protocol_error() {
    let mgr = manager();
    let b = builder(stream_info(RowFormatType::Protobuf, "", Some(0), vec![0]), &mgr);
    let expected = SourceError::ProtocolError("protobuf file location not provided".to_string());
    match b.build() {
        BuildStep::Done(r) => assert_eq!(r.unwrap_err(), expected),
        BuildStep::CreateParser(_) => panic!("no parser is due"),
    }
    // The later steps say the same, whatever they are given.
    match b.parser_ready(Ok(Parser(SourceFormat::Protobuf))) {
        ParserStep::Failed(e) => assert_eq!(e, expected),
        ParserStep::ExtractConfig { .. } => panic!("no configuration is due"),
    }
    let r = b.config_ready(Parser(SourceFormat::Protobuf), Ok(Config(String::new())));
    assert_eq!(r.unwrap_err(), expected);
    assert_eq!(expected.kind(), ErrorKind::Protocol);
}

#[test]
fn other_formats_need_no_schema_location() {
    for format in [RowFormatType::Json, RowFormatType::DebeziumJson, RowFormatType::Avro] {
        assert!(check_format(&stream_info(format, "", None, vec![0])).is_ok());
    }
    assert_eq!(
        check_format(&stream_info(RowFormatType::Protobuf, "x", None, vec![0])),
        Ok(SourceFormat::Protobuf)
    );
}

#[test]
fn unspecified_format_is_an_internal_error() {
    let mgr = manager();
    let b = builder(stream_info(RowFormatType::RowUnspecified, "", None, vec![0]), &mgr);
    let r = run(&b, Ok(()), Ok(()));
    assert_eq!(r.unwrap_err(), SourceError::InternalError("row format not specified".to_string()));
}

#[test]
fn empty_primary_key_is_a_protocol_error() {
    let mgr = manager();
    let b = builder(stream_info(RowFormatType::Json, "", Some(0), vec![]), &mgr);
    let r = run(&b, Ok(()), Ok(()));
    let expected = SourceError::ProtocolError("source should have at least one pk column".to_string());
    assert_eq!(r.unwrap_err(), expected);
    // The configuration is not asked for, and a step out of turn fails alike.
    let r = b.config_ready(Parser(SourceFormat::Json), Ok(Config(String::new())));
    assert_eq!(r.unwrap_err(), expected);
    assert!(mgr.is_empty());
}

#[test]
fn row_id_index_must_be_a_position() {
    let info = stream_info(RowFormatType::Json, "", Some(3), vec![0]);
    assert_eq!(
        check_layout(&info),
        Err(SourceError::ProtocolError("row id index out of range".to_string()))
    );
    assert_eq!(check_layout(&stream_info(RowFormatType::Json, "", Some(2), vec![0])), Ok(()));
    // It is checked before the primary key.
    let both = stream_info(RowFormatType::Json, "", Some(9), vec![]);
    assert_eq!(
        check_layout(&both),
        Err(SourceError::ProtocolError("row id index out of range".to_string()))
    );
    let mgr = manager();
    let r = run(&builder(info, &mgr), Ok(()), Ok(()));
    assert_eq!(r.unwrap_err().kind(), ErrorKind::Protocol);
}

#[test]
fn parser_failure_comes_back_unchanged() {
    let mgr = manager();
    let failure = SourceError::ConnectorError("schema registry unreachable".to_string());
    // The primary key is empty too: the parser's failure comes first.
    let b = builder(stream_info(RowFormatType::Avro, "", None, vec![]), &mgr);
    let r = run(&b, Err(SourceError::ConnectorError("schema registry unreachable".to_string())), Ok(()));
    assert_eq!(r.unwrap_err(), failure);
    let r = run(&b, Err(SourceError::InternalError("boom".to_string())), Err("bad".to_string()));
    assert_eq!(r.unwrap_err(), SourceError::InternalError("boom".to_string()));
}

#[test]
fn format_error_comes_before_the_parser() {
    let mgr = manager();
    let b = builder(stream_info(RowFormatType::Protobuf, "", None, vec![]), &mgr);
    match b.parser_ready(Err(SourceError::InternalError("boom".to_string()))) {
        ParserStep::Failed(e) => assert_eq!(e.kind(), ErrorKind::Protocol),
        ParserStep::ExtractConfig { .. } => panic!("no configuration is due"),
    }
}

#[test]
fn configuration_failure_is_a_connector_error() {
    let mgr = manager();
    let b = builder(stream_info(RowFormatType::Json, "", Some(0), vec![0]), &mgr);
    let r = run(&b, Ok(()), Err("unknown connector".to_string()));
    assert_eq!(r.unwrap_err(), SourceError::ConnectorError("unknown connector".to_string()));
    // An empty primary key is found before the configuration is looked at.
    let b = builder(stream_info(RowFormatType::Json, "", Some(0), vec![]), &mgr);
    let r = b.config_ready(Parser(SourceFormat::Json), Err("unknown connector".to_string()));
    assert_eq!(r.unwrap_err().kind(), ErrorKind::Protocol);
}

#[test]
fn configuration_request_carries_the_properties() {
    let mgr = manager();
    let b = builder(stream_info(RowFormatType::Json, "", None, vec![4]), &mgr);
    match b.parser_ready(Ok(Parser(SourceFormat::Json))) {
        ParserStep::ExtractConfig { parser, properties } => {
            assert_eq!(parser, Parser(SourceFormat::Json));
            assert_eq!(properties, demo_properties());
        }
        ParserStep::Failed(e) => panic!("unexpected failure: {:?}", e),
    }
}

#[test]
fn stream_steps_on_a_table_source_fail() {
    let mgr = manager();
    let info = TableSourceInfo {
        row_id_index: None,
        columns: vec![],
        pk_column_ids: vec![],
        properties: HashMap::new(),
    };
    let b: Builder = SourceDescBuilder::new(TableId::new(2), &SourceInfo::TableSource(info), &mgr);
    let expected = SourceError::InternalError("not a stream source".to_string());
    match b.parser_ready(Ok(Parser(SourceFormat::Json))) {
        ParserStep::Failed(e) => assert_eq!(e, expected),
        ParserStep::ExtractConfig { .. } => panic!("a table source has no configuration"),
    }
    let r = b.config_ready(Parser(SourceFormat::Json), Ok(Config(String::new())));
    assert_eq!(r.unwrap_err(), expected);
    assert!(mgr.is_empty());
}

#[test]
fn builder_clone_and_id() {
    let mgr = manager();
    let mut b = builder(stream_info(RowFormatType::Json, "", None, vec![0]), &mgr);
    assert_eq!(b.id(), TableId::new(1));
    let c = b.clone();
    b.set_id(TableId::new(5));
    assert_eq!(b.id(), TableId::new(5));
    assert_eq!(c.id(), TableId::new(1));
    assert!(run(&c, Ok(()), Ok(())).is_ok());
}

#[test]
fn build_stream_source_in_one_call() {
    let mgr = manager();
    let info = stream_info(RowFormatType::Json, "", Some(2), vec![1]);
    let h = Builder::build_stream_source(&mgr, &info, Ok(Parser(SourceFormat::Json)), Ok(Config("c".to_string())))
        .unwrap();
    assert_eq!(h.desc().row_id_index, Some(2));
    assert!(h.desc().columns[2].skip_parse);
    let r = Builder::build_stream_source(&mgr, &info, Ok(Parser(SourceFormat::Json)), Err("no".to_string()));
    assert_eq!(r.unwrap_err(), SourceError::ConnectorError("no".to_string()));
}

#[test]
fn stream_columns_drop_the_type_tag_of_the_column() {
    let info = stream_info(RowFormatType::Json, "", Some(0), vec![0]);
    let columns = marked_columns_of(&info.columns, row_position_of(&info.row_id_index));
    assert_eq!(columns.len(), 3);
    assert!(columns[0].skip_parse);
    assert!(!columns[1].skip_parse);
    let back = ColumnDesc::from(&columns[1]);
    assert_eq!(back.type_tag, "");
    assert_eq!(back.name, "c1");
    let desc = assemble_stream_source(&info, SourceFormat::Json, Parser(SourceFormat::Json), Config(String::new()), 2, Arc::new(1u32));
    assert_eq!(desc.columns, columns);
    assert_eq!(desc.pk_column_ids, vec![0]);
}
