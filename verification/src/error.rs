//! The errors that the registry and the builder report.

use vstd::prelude::*;
use crate::catalog::TableId;

verus! {

/// Why a lookup or a build did not yield a descriptor.
#[derive(Debug, PartialEq, Eq)]
pub enum SourceError {
    /// No live descriptor is cached under this table id.
    NotFound(TableId),
    /// The wire specification breaks a structural rule.
    ProtocolError(String),
    /// The connector configuration was refused.
    ConnectorError(String),
    /// A rule was broken that no user input accounts for.
    InternalError(String),
}

/// The kind of a [`SourceError`], without its payload.
#[derive(Clone, Copy, Debug, PartialEq, Eq, Structural)]
pub enum ErrorKind {
    NotFound,
    Protocol,
    Connector,
    Internal,
}

/// The mathematical model of a [`SourceError`].
pub enum SourceErrorView {
    NotFound(TableId),
    ProtocolError(Seq<char>),
    ConnectorError(Seq<char>),
    InternalError(Seq<char>),
}

impl SourceErrorView {
    pub open spec fn kind(self) -> ErrorKind {
        match self {
            SourceErrorView::NotFound(_) => ErrorKind::NotFound,
            SourceErrorView::ProtocolError(_) => ErrorKind::Protocol,
            SourceErrorView::ConnectorError(_) => ErrorKind::Connector,
            SourceErrorView::InternalError(_) => ErrorKind::Internal,
        }
    }
}

impl View for SourceError {
    type V = SourceErrorView;

    open spec fn view(&self) -> SourceErrorView {
        match *self {
            SourceError::NotFound(id) => SourceErrorView::NotFound(id),
            SourceError::ProtocolError(m) => SourceErrorView::ProtocolError(m@),
            SourceError::ConnectorError(m) => SourceErrorView::ConnectorError(m@),
            SourceError::InternalError(m) => SourceErrorView::InternalError(m@),
        }
    }
}

impl SourceError {
    /// The kind of this error.
    pub fn kind(&self) -> (k: ErrorKind)
        ensures
            k == self@.kind(),
    {
        match self {
            SourceError::NotFound(_) => ErrorKind::NotFound,
            SourceError::ProtocolError(_) => ErrorKind::Protocol,
            SourceError::ConnectorError(_) => ErrorKind::Connector,
            SourceError::InternalError(_) => ErrorKind::Internal,
        }
    }
}

} // verus!
