//! The cache of table-backed descriptors as scans share it: behind a lock,
//! together with the metrics handle and the buffer capacity that connector
//! sources are built with.

use std::sync::Arc;
use parking_lot::lock_api::Mutex;
use parking_lot::RawMutex;
use vstd::prelude::*;
use crate::catalog::TableId;
use crate::error::{SourceError, SourceErrorView};
use crate::registry::{exhausted_message, SourceDescRef, SourceTable};
use crate::sync::{guarded, lock, new_mutex, share};
use crate::wire::TableSourceInfo;

verus! {

/// The capacity that a manager made by `default` gives to connector sources.
pub const DEFAULT_MESSAGE_BUFFER_SIZE: usize = 16;

/// The cache of table-backed descriptors behind a lock, so that any number
/// of scans may use it at once. Each operation holds the lock for the lookup,
/// sweep or update alone.
///
/// Another scan may change the cache between any two operations, so an
/// operation promises only what holds of every state it may find; what it
/// does to the state it finds is what the operation of the same name on
/// [`SourceTable`] does.
#[derive(Debug)]
#[verifier::reject_recursive_types(M)]
#[verifier::reject_recursive_types(C)]
#[verifier::reject_recursive_types(P)]
pub struct TableSourceManager<M, C, P> {
    sources: Mutex<RawMutex, SourceTable<M, C, P>>,
    metrics: Arc<M>,
    connector_message_buffer_size: usize,
}

pub type TableSourceManagerRef<M, C, P> = Arc<TableSourceManager<M, C, P>>;

impl<M, C, P> TableSourceManager<M, C, P> {
    /// The metrics that descriptors built through this manager report to.
    pub closed spec fn spec_metrics(&self) -> M {
        *self.metrics
    }

    /// The capacity of the message buffer of connector sources built through
    /// this manager.
    pub closed spec fn spec_msg_buf_size(&self) -> usize {
        self.connector_message_buffer_size
    }

    /// A manager with an empty cache.
    pub fn new(metrics: Arc<M>, connector_message_buffer_size: usize) -> (r: Self)
        ensures
            r.spec_metrics() == *metrics,
            r.spec_msg_buf_size() == connector_message_buffer_size,
    {
        TableSourceManager { sources: new_mutex(SourceTable::new()), metrics, connector_message_buffer_size }
    }

    /// Looks up the descriptor cached under `source_id`. A hit is a handle on
    /// a table-backed descriptor leased under `source_id`; a miss is
    /// [`SourceError::NotFound`] with that id.
    pub fn get_source(&self, source_id: &TableId) -> (r: Result<SourceDescRef<M, C, P>, SourceError>)
        ensures
            r matches Ok(h) ==> h@.lease is Some && h@.lease->0.table_id == *source_id
                && h@.desc.is_table_backed(),
            r matches Err(e) ==> e@ == SourceErrorView::NotFound(*source_id),
    {
        let mut held = lock(&self.sources);
        let table = guarded(&mut held);
        table.get_source(source_id)
    }

    /// Returns the descriptor that is live under `source_id`, or builds one
    /// from `info` and caches it. Either way the result is a handle on a
    /// table-backed descriptor leased under `source_id`. The only failure is
    /// a cache that has numbered `u64::MAX` descriptors.
    pub fn insert_source(&self, source_id: &TableId, info: &TableSourceInfo) -> (r: Result<
        SourceDescRef<M, C, P>,
        SourceError,
    >)
        ensures
            r matches Ok(h) ==> h@.lease is Some && h@.lease->0.table_id == *source_id
                && h@.desc.is_table_backed(),
            r matches Err(e) ==> e@ == SourceErrorView::InternalError(exhausted_message()),
    {
        let metrics = share(&self.metrics);
        let mut held = lock(&self.sources);
        let table = guarded(&mut held);
        table.insert_source(source_id, info, metrics)
    }

    /// Gives a handle back, so that its descriptor can be reclaimed once no
    /// scan holds it.
    pub fn release(&self, handle: SourceDescRef<M, C, P>) {
        let mut held = lock(&self.sources);
        let table = guarded(&mut held);
        table.release(handle);
    }

    /// Empties the cache, for recovery: every later lookup misses until a
    /// descriptor is inserted again.
    pub fn clear_sources(&self) {
        let mut held = lock(&self.sources);
        let table = guarded(&mut held);
        table.clear_sources();
    }

    /// The number of entries in the cache at this moment, dead ones included.
    pub fn len(&self) -> usize {
        let mut held = lock(&self.sources);
        let table = guarded(&mut held);
        table.len()
    }

    /// Whether the cache has no entry at this moment.
    pub fn is_empty(&self) -> bool {
        let mut held = lock(&self.sources);
        let table = guarded(&mut held);
        table.is_empty()
    }

    /// The metrics handle, shared.
    pub fn metrics(&self) -> (r: Arc<M>)
        ensures
            *r == self.spec_metrics(),
    {
        share(&self.metrics)
    }

    /// The capacity of the message buffer of a connector source.
    pub fn msg_buf_size(&self) -> (r: usize)
        ensures
            r == self.spec_msg_buf_size(),
    {
        self.connector_message_buffer_size
    }
}

impl<M: Default, C, P> Default for TableSourceManager<M, C, P> {
    /// A manager with an empty cache, default metrics and a buffer capacity of
    /// [`DEFAULT_MESSAGE_BUFFER_SIZE`].
    fn default() -> (r: Self)
        ensures
            r.spec_msg_buf_size() == DEFAULT_MESSAGE_BUFFER_SIZE,
            M::default.ensures((), r.spec_metrics()),
    {
        TableSourceManager {
            sources: new_mutex(SourceTable::new()),
            metrics: Arc::new(M::default()),
            connector_message_buffer_size: DEFAULT_MESSAGE_BUFFER_SIZE,
        }
    }
}

} // verus!
