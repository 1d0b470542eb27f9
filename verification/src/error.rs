//! The ways in which an export fails.

use vstd::prelude::*;
use crate::graph::TaskKind;
use crate::project::ProjectTaskKind;

verus! {

/// A failure of an export or of the graph it runs on.
#[derive(Debug, PartialEq, Eq)]
pub enum ExportError {
    /// A task that must have been provided is absent from the graph.
    MissingTask(TaskKind),
    /// A value was provided for a task that already has one.
    AlreadyProvided(TaskKind),
    /// A task asked for its own result while it was being computed.
    CyclicTask(TaskKind),
    /// The kind of project task has no export yet.
    Unimplemented(ProjectTaskKind),
    /// The artifact could not be written to `path`.
    Io { path: String, cause: String },
    /// The document could not be converted.
    Conversion { cause: String },
    /// A task of the surrounding toolchain failed.
    Failed { cause: String },
}

impl ExportError {
    /// A copy of the error.
    pub fn duplicate(&self) -> (r: Self)
        ensures
            r == *self,
    {
        match self {
            ExportError::MissingTask(kind) => ExportError::MissingTask(*kind),
            ExportError::AlreadyProvided(kind) => ExportError::AlreadyProvided(*kind),
            ExportError::CyclicTask(kind) => ExportError::CyclicTask(*kind),
            ExportError::Unimplemented(kind) => ExportError::Unimplemented(*kind),
            ExportError::Io { path, cause } => ExportError::Io {
                path: path.clone(),
                cause: cause.clone(),
            },
            ExportError::Conversion { cause } => ExportError::Conversion { cause: cause.clone() },
            ExportError::Failed { cause } => ExportError::Failed { cause: cause.clone() },
        }
    }
}

} // verus!
