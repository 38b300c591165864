use std::collections::HashMap;
use std::sync::Arc;

use source_manager::builder::{BuildStep, SourceDescBuilder};
use source_manager::catalog::{ColumnDesc, ColumnId, TableId};
use source_manager::data_type::DataType;
use source_manager::desc::{SourceFormat, SourceImpl};
use source_manager::error::{ErrorKind, SourceError};
use source_manager::manager::{TableSourceManager, TableSourceManagerRef, DEFAULT_MESSAGE_BUFFER_SIZE};
use source_manager::registry::{SourceDescRef, SourceTable};
use source_manager::wire::{ColumnCatalog, ColumnIndex, SourceInfo, TableSourceInfo};

type Manager = TableSourceManager<u32, (), ()>;
type Handle = SourceDescRef<u32, (), ()>;

fn table_info(types: Vec<DataType>, row_id_index: Option<u32>, pk_column_ids: Vec<i32>) -> TableSourceInfo {
    let mut columns = Vec::new();
    for (i, data_type) in types.into_iter().enumerate() {
        columns.push(ColumnCatalog {
            column_desc: ColumnDesc {
                data_type,
                column_id: ColumnId::from(i as i32), // use column index as column id
                name: String::new(),
                field_descs: vec![],
                type_tag: "".to_string(),
            },
            is_hidden: false,
        });
    }
    TableSourceInfo {
        row_id_index: row_id_index.map(|index| ColumnIndex { index }),
        columns,
        pk_column_ids,
        properties: HashMap::new(),
    }
}

fn decimal_table_info() -> TableSourceInfo {
    table_info(vec![DataType::Decimal, DataType::Decimal], None, vec![1])
}

fn done(step: BuildStep<u32, (), ()>) -> Result<Handle, SourceError> {
    match step {
        BuildStep::Done(r) => r,
        BuildStep::CreateParser(_) => panic!("a table source asks for no parser"),
    }
}

#[test]
fn test_table_source() {
    let table_id = TableId::default();
    let info = decimal_table_info();

    let mem_source_manager: TableSourceManagerRef<u32, (), ()> = Arc::new(Manager::default());
    let mut source_builder =
        SourceDescBuilder::new(table_id, &SourceInfo::TableSource(info), &mem_source_manager);
    let res = done(source_builder.build());
    assert!(res.is_ok());

    // get source
    let get_source_res = mem_source_manager.get_source(&table_id);
    assert!(get_source_res.is_ok());

    {
        let first = res.as_ref().unwrap();
        let second = get_source_res.as_ref().unwrap();
        assert!(first.same_instance(second));
        assert_eq!(first.desc().columns.len(), 2);
        assert_eq!(first.desc().row_id_index, None);
        assert_eq!(first.desc().format, SourceFormat::Invalid);
        assert_eq!(first.desc().pk_column_ids, vec![1]);
        assert!(matches!(first.desc().source, SourceImpl::Table(_)));
    }

    // drop all replicas of TableId(0)
    mem_source_manager.release(res.unwrap());
    mem_source_manager.release(get_source_res.unwrap());
    // failed to get_source
    let result = mem_source_manager.get_source(&table_id);
    assert!(result.is_err());

    source_builder.set_id(TableId::new(1u32));
    let _new_source = done(source_builder.build());

    assert_eq!(mem_source_manager.len(), 1);
    mem_source_manager.clear_sources();
    assert!(mem_source_manager.is_empty());
}

#[test]
fn lookup_before_any_insert_is_not_found() {
    let manager = Manager::default();
    for id in [0u32, 1, 7, u32::MAX] {
        let r = manager.get_source(&TableId::new(id));
        assert_eq!(r.unwrap_err(), SourceError::NotFound(TableId::new(id)));
    }
    assert_eq!(manager.len(), 0);

    let mut table: SourceTable<u32, (), ()> = SourceTable::new();
    let r = table.get_source(&TableId::new(3));
    assert_eq!(r.unwrap_err().kind(), ErrorKind::NotFound);
    assert!(table.is_empty());
}

#[test]
fn lookup_of_another_id_is_not_found() {
    let manager = Manager::default();
    let held = manager.insert_source(&TableId::new(4), &decimal_table_info()).unwrap();
    let r = manager.get_source(&TableId::new(5));
    assert_eq!(r.unwrap_err(), SourceError::NotFound(TableId::new(5)));
    assert_eq!(manager.len(), 1);
    manager.release(held);
}

#[test]
fn insert_twice_returns_the_same_instance() {
    let manager = Manager::new(Arc::new(7), 4);
    let id = TableId::new(9);
    let first = manager.insert_source(&id, &decimal_table_info()).unwrap();
    // The second wire specification differs: it must not be built.
    let other = table_info(vec![DataType::Int32], Some(0), vec![0]);
    let second = manager.insert_source(&id, &other).unwrap();
    assert!(first.same_instance(&second));
    assert_eq!(first.lease(), second.lease());
    assert_eq!(second.desc().columns.len(), 2);
    assert_eq!(second.desc().row_id_index, None);
    assert_eq!(second.desc().pk_column_ids, vec![1]);
    assert_eq!(second.table_id(), Some(id));
    assert_eq!(manager.len(), 1);
}

#[test]
fn insert_after_release_builds_anew() {
    let manager = Manager::default();
    let id = TableId::new(2);
    let first = manager.insert_source(&id, &decimal_table_info()).unwrap();
    let first_lease = first.lease().unwrap();
    manager.release(first);
    let other = table_info(vec![DataType::Int32], Some(0), vec![0]);
    let second = manager.insert_source(&id, &other).unwrap();
    let second_lease = second.lease().unwrap();
    assert_eq!(second_lease.table_id, id);
    assert_ne!(first_lease.instance, second_lease.instance);
    assert_eq!(second.desc().columns.len(), 1);
    assert_eq!(second.desc().row_id_index, Some(0));
    assert_eq!(second.desc().pk_column_ids, vec![0]);
    assert_eq!(second.desc().format, SourceFormat::Invalid);
    assert_eq!(manager.len(), 1);
}

#[test]
fn dead_entry_is_swept_by_the_next_insert() {
    let mut table: SourceTable<u32, (), ()> = SourceTable::new();
    let t1 = TableId::new(1);
    let t2 = TableId::new(2);
    let t3 = TableId::new(3);
    let h1 = table.insert_source(&t1, &decimal_table_info(), Arc::new(0)).unwrap();
    let h3 = table.insert_source(&t3, &decimal_table_info(), Arc::new(0)).unwrap();
    assert_eq!(table.len(), 2);
    table.release(h1);
    // The dead entry is still there until the next insertion.
    assert_eq!(table.len(), 2);
    assert!(!table.is_live(&t1));
    assert!(table.is_live(&t3));
    let h2 = table.insert_source(&t2, &decimal_table_info(), Arc::new(0)).unwrap();
    assert_eq!(table.len(), 2);
    assert!(!table.is_live(&t1));
    assert!(table.is_live(&t2));
    assert!(table.is_live(&t3));
    table.release(h2);
    table.release(h3);
    assert_eq!(table.len(), 2);
    let h1 = table.insert_source(&t1, &decimal_table_info(), Arc::new(0)).unwrap();
    assert_eq!(table.len(), 1);
    assert!(table.is_live(&t1));
    table.release(h1);
}

#[test]
fn lookup_does_not_sweep() {
    let mut table: SourceTable<u32, (), ()> = SourceTable::new();
    let t1 = TableId::new(1);
    let h1 = table.insert_source(&t1, &decimal_table_info(), Arc::new(0)).unwrap();
    table.release(h1);
    assert!(table.get_source(&t1).is_err());
    assert!(table.get_source(&TableId::new(8)).is_err());
    assert_eq!(table.len(), 1);
    assert!(!table.is_empty());
}

#[test]
fn holders_are_counted() {
    let mut table: SourceTable<u32, (), ()> = SourceTable::new();
    let id = TableId::new(5);
    assert_eq!(table.holders(&id), 0);
    let a = table.insert_source(&id, &decimal_table_info(), Arc::new(0)).unwrap();
    assert_eq!(table.holders(&id), 1);
    let b = table.get_source(&id).unwrap();
    let c = table.insert_source(&id, &decimal_table_info(), Arc::new(0)).unwrap();
    assert_eq!(table.holders(&id), 3);
    table.release(b);
    assert_eq!(table.holders(&id), 2);
    table.release(a);
    assert_eq!(table.holders(&id), 1);
    assert!(table.is_live(&id));
    assert!(table.get_source(&TableId::new(6)).is_err());
    assert_eq!(table.holders(&id), 1);
    table.release(c);
    assert_eq!(table.holders(&id), 0);
    assert!(!table.is_live(&id));
    assert_eq!(table.get_source(&id).unwrap_err(), SourceError::NotFound(id));
}

#[test]
fn clear_makes_every_lookup_miss() {
    let manager = Manager::default();
    let a = TableId::new(0);
    let b = TableId::new(1);
    let held_a = manager.insert_source(&a, &decimal_table_info()).unwrap();
    let held_b = manager.insert_source(&b, &decimal_table_info()).unwrap();
    assert_eq!(manager.len(), 2);
    manager.clear_sources();
    assert!(manager.is_empty());
    // Both descriptors are still held, and still readable.
    assert_eq!(held_a.desc().columns.len(), 2);
    assert_eq!(manager.get_source(&a).unwrap_err(), SourceError::NotFound(a));
    assert_eq!(manager.get_source(&b).unwrap_err(), SourceError::NotFound(b));
    assert_eq!(manager.get_source(&TableId::new(2)).unwrap_err().kind(), ErrorKind::NotFound);
    // A new descriptor is built, and it is not the one from before.
    let fresh = manager.insert_source(&a, &decimal_table_info()).unwrap();
    assert!(!fresh.same_instance(&held_a));
    // Giving back a handle from before the reset leaves the new entry alone.
    manager.release(held_a);
    manager.release(held_b);
    let again = manager.get_source(&a).unwrap();
    assert!(again.same_instance(&fresh));
    assert_eq!(manager.len(), 1);
}

#[test]
fn table_descriptor_holds_the_wire_columns() {
    let manager = Manager::new(Arc::new(11), 4);
    let info = table_info(vec![DataType::Int64, DataType::Varchar, DataType::Boolean], Some(2), vec![0, 1]);
    let h = manager.insert_source(&TableId::new(1), &info).unwrap();
    let desc = h.desc();
    assert_eq!(desc.columns.len(), 3);
    assert_eq!(desc.columns[0].data_type, DataType::Int64);
    assert_eq!(desc.columns[1].data_type, DataType::Varchar);
    assert_eq!(desc.columns[2].data_type, DataType::Boolean);
    assert_eq!(desc.columns[1].column_id, ColumnId::new(1));
    // Exactly the row-id column is left unparsed.
    let marks: Vec<bool> = desc.columns.iter().map(|c| c.skip_parse).collect();
    assert_eq!(marks, vec![false, false, true]);
    assert_eq!(desc.row_id_index, Some(2));
    assert_eq!(desc.pk_column_ids, vec![0, 1]);
    assert_eq!(desc.format, SourceFormat::Invalid);
    assert_eq!(*desc.metrics, 11);
    match &desc.source {
        SourceImpl::Table(t) => {
            assert_eq!(t.column_descs.len(), 3);
            assert_eq!(t.column_descs[0], info.columns[0].column_desc);
            assert_eq!(t.column_descs[2], info.columns[2].column_desc);
        }
        SourceImpl::Connector(_) => panic!("a table source has no connector"),
    }
}

#[test]
fn manager_hands_out_its_own_metrics_and_capacity() {
    let metrics = Arc::new(5u32);
    let manager = Manager::new(metrics.clone(), 32);
    assert!(Arc::ptr_eq(&manager.metrics(), &metrics));
    assert_eq!(manager.msg_buf_size(), 32);
    let h = manager.insert_source(&TableId::new(1), &decimal_table_info()).unwrap();
    assert!(Arc::ptr_eq(&h.desc().metrics, &metrics));
    let default_manager = Manager::default();
    assert_eq!(default_manager.msg_buf_size(), 16);
    assert_eq!(DEFAULT_MESSAGE_BUFFER_SIZE, 16);
    assert_eq!(*default_manager.metrics(), 0);
}

#[test]
fn detached_release_changes_nothing() {
    let manager = Manager::default();
    let other = Manager::default();
    let h = manager.insert_source(&TableId::new(1), &decimal_table_info()).unwrap();
    // Another cache has no entry for this handle.
    other.release(h);
    assert!(other.is_empty());
    assert!(manager.get_source(&TableId::new(1)).is_ok());
}

#[test]
fn manager_is_shared_by_reference() {
    let manager: TableSourceManagerRef<u32, (), ()> = Arc::new(Manager::default());
    let first = manager.insert_source(&TableId::new(0), &decimal_table_info()).unwrap();
    for _ in 0..4 {
        let scan = manager.clone();
        for _ in 0..100 {
            let h = scan.insert_source(&TableId::new(0), &decimal_table_info()).unwrap();
            assert!(h.same_instance(&first));
            scan.release(h);
        }
    }
    let again = manager.get_source(&TableId::new(0)).unwrap();
    assert!(again.same_instance(&first));
    assert_eq!(manager.len(), 1);
}

#[test]
fn table_source_marks_exactly_the_row_id_column() {
    let manager = Manager::default();
    for i in 0u32..3 {
        let info = table_info(vec![DataType::Int64, DataType::Varchar, DataType::Boolean], Some(i), vec![0]);
        let h = manager.insert_source(&TableId::new(10 + i), &info).unwrap();
        let desc = h.desc();
        assert_eq!(desc.row_id_index, Some(i as usize));
        for (j, column) in desc.columns.iter().enumerate() {
            assert_eq!(column.skip_parse, j == i as usize);
        }
        // The table itself keeps the catalog columns as they came.
        match &desc.source {
            SourceImpl::Table(t) => assert_eq!(t.column_descs[i as usize], info.columns[i as usize].column_desc),
            SourceImpl::Connector(_) => panic!("a table source has no connector"),
        }
        manager.release(h);
    }
}

#[test]
fn table_source_without_row_id_marks_no_column() {
    let manager = Manager::default();
    let h = manager.insert_source(&TableId::new(1), &decimal_table_info()).unwrap();
    assert_eq!(h.desc().row_id_index, None);
    assert!(h.desc().columns.iter().all(|c| !c.skip_parse));
}

#[test]
fn table_source_with_a_row_id_index_outside_the_columns_marks_none() {
    let manager = Manager::default();
    let info = table_info(vec![DataType::Int64, DataType::Varchar], Some(2), vec![0]);
    let h = manager.insert_source(&TableId::new(1), &info).unwrap();
    assert_eq!(h.desc().row_id_index, Some(2));
    assert!(h.desc().columns.iter().all(|c| !c.skip_parse));
}
