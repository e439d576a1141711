//! Versioned data with explicit migration paths, and the decisions of a
//! crash-consistent storage layer around it.

pub mod atomic;
pub mod attrs;
pub mod chain;
pub mod codec;
pub mod config;
pub mod dir_storage;
pub mod errors;
pub mod laws;
pub mod listing;
pub mod migrator;
pub mod path;
pub mod paths;
pub mod record;
pub mod storage;
pub mod text;
pub mod traits;
pub mod transform;
pub mod validate;
pub mod value;
pub mod version;

pub use config::ConfigMigrator;
pub use dir_storage::{DirStorage, DirStorageStrategy, FilenameEncoding};
pub use errors::{IoOperationKind, MigrationError};
pub use migrator::{Migrator, MigratorBuilder};
pub use path::{HasFrom, HasSteps, MigrationPath, MigrationPathBuilder, Start};
pub use paths::{AppPaths, PathStrategy, PrefPath};
pub use storage::{
    AtomicWriteConfig, FileStorage, FileStorageStrategy, FormatStrategy, LoadBehavior,
};
pub use traits::{
    FromDomain, FromValue, IntoDomain, LatestVersioned, MigratesTo, Queryable, ToValue, Versioned,
    VersionedWrapper,
};
pub use value::{Json, Node};
