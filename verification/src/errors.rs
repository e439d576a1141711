//! Error types for migration and storage operations.

use vstd::prelude::*;
use crate::text::{concat2, concat3, opt_text};

verus! {

/// File I/O operation kind: which step of a storage operation failed.
#[derive(Debug, Clone, Copy, PartialEq, Eq, Structural)]
pub enum IoOperationKind {
    /// Reading from a file
    Read,
    /// Writing to a file
    Write,
    /// Creating a new file
    Create,
    /// Deleting a file
    Delete,
    /// Renaming/moving a file
    Rename,
    /// Creating a directory
    CreateDir,
    /// Reading directory contents
    ReadDir,
    /// Syncing file contents to disk
    Sync,
}

impl IoOperationKind {
    /// The words that name the operation inside a message.
    pub open spec fn label(self) -> Seq<char> {
        match self {
            IoOperationKind::Read => "read"@,
            IoOperationKind::Write => "write"@,
            IoOperationKind::Create => "create"@,
            IoOperationKind::Delete => "delete"@,
            IoOperationKind::Rename => "rename"@,
            IoOperationKind::CreateDir => "create directory"@,
            IoOperationKind::ReadDir => "read directory"@,
            IoOperationKind::Sync => "sync"@,
        }
    }

    /// Renders the operation as it appears in error messages.
    pub fn to_string(&self) -> (r: String)
        ensures
            r@ == self.label(),
    {
        match self {
            IoOperationKind::Read => String::from_str("read"),
            IoOperationKind::Write => String::from_str("write"),
            IoOperationKind::Create => String::from_str("create"),
            IoOperationKind::Delete => String::from_str("delete"),
            IoOperationKind::Rename => String::from_str("rename"),
            IoOperationKind::CreateDir => String::from_str("create directory"),
            IoOperationKind::ReadDir => String::from_str("read directory"),
            IoOperationKind::Sync => String::from_str("sync"),
        }
    }
}

/// The text of an I/O failure: operation, optional context, path and cause.
pub open spec fn io_error_text(
    operation: IoOperationKind,
    path: Seq<char>,
    context: Option<Seq<char>>,
    error: Seq<char>,
) -> Seq<char> {
    match context {
        Some(ctx) => "Failed to "@ + operation.label() + " "@ + ctx + " at '"@ + path + "': "@
            + error,
        None => "Failed to "@ + operation.label() + " file at '"@ + path + "': "@ + error,
    }
}

/// Format I/O error message with operation, path, context, and error details.
pub fn format_io_error(
    operation: &IoOperationKind,
    path: &str,
    context: &Option<String>,
    error: &str,
) -> (r: String)
    ensures
        r@ == io_error_text(*operation, path@, opt_text(*context), error@),
{
    let mut out = String::from_str("Failed to ");
    let op = operation.to_string();
    out.append(op.as_str());
    match context {
        Some(ctx) => {
            out.append(" ");
            out.append(ctx.as_str());
            out.append(" at '");
        },
        None => {
            out.append(" file at '");
        },
    }
    out.append(path);
    out.append("': ");
    out.append(error);
    out
}

/// What a `MigrationError` holds, with each string as its characters.
pub enum ErrorModel {
    DeserializationError(Seq<char>),
    SerializationError(Seq<char>),
    EntityNotFound(Seq<char>),
    MigrationPathNotDefined { entity: Seq<char>, version: Seq<char> },
    MigrationStepFailed { from: Seq<char>, to: Seq<char>, error: Seq<char> },
    CircularMigrationPath { entity: Seq<char>, path: Seq<char> },
    InvalidVersionOrder { entity: Seq<char>, from: Seq<char>, to: Seq<char> },
    IoError { operation: IoOperationKind, path: Seq<char>, context: Option<Seq<char>>, error: Seq<char> },
    LockError { path: Seq<char>, error: Seq<char> },
    TomlParseError(Seq<char>),
    TomlSerializeError(Seq<char>),
    HomeDirNotFound,
    PathResolution(Seq<char>),
    FilenameEncoding { id: Seq<char>, reason: Seq<char> },
}

impl ErrorModel {
    /// The message shown to a user for this error.
    pub open spec fn message(self) -> Seq<char> {
        match self {
            ErrorModel::DeserializationError(m) => "Failed to deserialize: "@ + m,
            ErrorModel::SerializationError(m) => "Failed to serialize: "@ + m,
            ErrorModel::EntityNotFound(e) => "Entity '"@ + e + "' not found"@,
            ErrorModel::MigrationPathNotDefined { entity, version } =>
                "No migration path defined for entity '"@ + entity + "' version '"@ + version + "'"@,
            ErrorModel::MigrationStepFailed { from, to, error } => "Migration failed from '"@ + from
                + "' to '"@ + to + "': "@ + error,
            ErrorModel::CircularMigrationPath { entity, path } =>
                "Circular migration path detected in entity '"@ + entity + "': "@ + path,
            ErrorModel::InvalidVersionOrder { entity, from, to } =>
                "Invalid version order in entity '"@ + entity + "': '"@ + from + "' -> '"@ + to
                + "' (versions must increase according to semver)"@,
            ErrorModel::IoError { operation, path, context, error } => io_error_text(
                operation,
                path,
                context,
                error,
            ),
            ErrorModel::LockError { path, error } => "Failed to acquire file lock for '"@ + path
                + "': "@ + error,
            ErrorModel::TomlParseError(m) => "Failed to parse TOML: "@ + m,
            ErrorModel::TomlSerializeError(m) => "Failed to serialize to TOML: "@ + m,
            ErrorModel::HomeDirNotFound => "Cannot determine home directory"@,
            ErrorModel::PathResolution(m) => "Failed to resolve path: "@ + m,
            ErrorModel::FilenameEncoding { id, reason } => "Failed to encode filename for ID '"@ + id
                + "': "@ + reason,
        }
    }
}

/// Error types that can occur during migration operations.
#[derive(Debug, Clone)]
#[non_exhaustive]
pub enum MigrationError {
    /// Failed to deserialize the data.
    DeserializationError(String),
    /// Failed to serialize the data.
    SerializationError(String),
    /// The requested entity type was not found in the migrator.
    EntityNotFound(String),
    /// No migration path is defined for the given entity and version.
    MigrationPathNotDefined {
        /// The entity name.
        entity: String,
        /// The version that has no migration path.
        version: String,
    },
    /// A migration step failed during execution.
    MigrationStepFailed {
        /// The source version.
        from: String,
        /// The target version.
        to: String,
        /// The error message.
        error: String,
    },
    /// A circular migration path was detected.
    CircularMigrationPath {
        /// The entity name.
        entity: String,
        /// The path that forms a cycle.
        path: String,
    },
    /// Version ordering is invalid (not following semver rules).
    InvalidVersionOrder {
        /// The entity name.
        entity: String,
        /// The source version.
        from: String,
        /// The target version.
        to: String,
    },
    /// File I/O error with detailed operation context.
    IoError {
        /// The I/O operation that failed.
        operation: IoOperationKind,
        /// The file path where the error occurred.
        path: String,
        /// Additional context (e.g., "temporary file", "after 3 retries").
        context: Option<String>,
        /// The underlying I/O error message.
        error: String,
    },
    /// File locking error.
    LockError {
        /// The file path.
        path: String,
        /// The error message.
        error: String,
    },
    /// TOML parsing error.
    TomlParseError(String),
    /// TOML serialization error.
    TomlSerializeError(String),
    /// Failed to find home directory.
    HomeDirNotFound,
    /// Failed to resolve path.
    PathResolution(String),
    /// Failed to encode filename.
    FilenameEncoding {
        /// The entity ID that failed to encode.
        id: String,
        /// The reason for the encoding failure.
        reason: String,
    },
}

impl View for MigrationError {
    type V = ErrorModel;

    open spec fn view(&self) -> ErrorModel {
        match self {
            MigrationError::DeserializationError(m) => ErrorModel::DeserializationError(m@),
            MigrationError::SerializationError(m) => ErrorModel::SerializationError(m@),
            MigrationError::EntityNotFound(e) => ErrorModel::EntityNotFound(e@),
            MigrationError::MigrationPathNotDefined { entity, version } =>
                ErrorModel::MigrationPathNotDefined { entity: entity@, version: version@ },
            MigrationError::MigrationStepFailed { from, to, error } =>
                ErrorModel::MigrationStepFailed { from: from@, to: to@, error: error@ },
            MigrationError::CircularMigrationPath { entity, path } =>
                ErrorModel::CircularMigrationPath { entity: entity@, path: path@ },
            MigrationError::InvalidVersionOrder { entity, from, to } =>
                ErrorModel::InvalidVersionOrder { entity: entity@, from: from@, to: to@ },
            MigrationError::IoError { operation, path, context, error } => ErrorModel::IoError {
                operation: *operation,
                path: path@,
                context: opt_text(*context),
                error: error@,
            },
            MigrationError::LockError { path, error } => ErrorModel::LockError {
                path: path@,
                error: error@,
            },
            MigrationError::TomlParseError(m) => ErrorModel::TomlParseError(m@),
            MigrationError::TomlSerializeError(m) => ErrorModel::TomlSerializeError(m@),
            MigrationError::HomeDirNotFound => ErrorModel::HomeDirNotFound,
            MigrationError::PathResolution(m) => ErrorModel::PathResolution(m@),
            MigrationError::FilenameEncoding { id, reason } => ErrorModel::FilenameEncoding {
                id: id@,
                reason: reason@,
            },
        }
    }
}

impl MigrationError {
    /// Renders the error as the message a user sees.
    pub fn to_string(&self) -> (r: String)
        ensures
            r@ == self@.message(),
    {
        match self {
            MigrationError::DeserializationError(m) => concat2("Failed to deserialize: ", m.as_str()),
            MigrationError::SerializationError(m) => concat2("Failed to serialize: ", m.as_str()),
            MigrationError::EntityNotFound(e) => concat3("Entity '", e.as_str(), "' not found"),
            MigrationError::MigrationPathNotDefined { entity, version } => {
                let mut out = concat3("No migration path defined for entity '", entity.as_str(), "' version '");
                out.append(version.as_str());
                out.append("'");
                out
            },
            MigrationError::MigrationStepFailed { from, to, error } => {
                let mut out = concat3("Migration failed from '", from.as_str(), "' to '");
                out.append(to.as_str());
                out.append("': ");
                out.append(error.as_str());
                out
            },
            MigrationError::CircularMigrationPath { entity, path } => {
                let mut out = concat3("Circular migration path detected in entity '", entity.as_str(), "': ");
                out.append(path.as_str());
                out
            },
            MigrationError::InvalidVersionOrder { entity, from, to } => {
                let mut out = concat3("Invalid version order in entity '", entity.as_str(), "': '");
                out.append(from.as_str());
                out.append("' -> '");
                out.append(to.as_str());
                out.append("' (versions must increase according to semver)");
                out
            },
            MigrationError::IoError { operation, path, context, error } => format_io_error(
                operation,
                path.as_str(),
                context,
                error.as_str(),
            ),
            MigrationError::LockError { path, error } => {
                let mut out = concat3("Failed to acquire file lock for '", path.as_str(), "': ");
                out.append(error.as_str());
                out
            },
            MigrationError::TomlParseError(m) => concat2("Failed to parse TOML: ", m.as_str()),
            MigrationError::TomlSerializeError(m) => concat2("Failed to serialize to TOML: ", m.as_str()),
            MigrationError::HomeDirNotFound => String::from_str("Cannot determine home directory"),
            MigrationError::PathResolution(m) => concat2("Failed to resolve path: ", m.as_str()),
            MigrationError::FilenameEncoding { id, reason } => {
                let mut out = concat3("Failed to encode filename for ID '", id.as_str(), "': ");
                out.append(reason.as_str());
                out
            },
        }
    }
}

} // verus!
