//! Single-file storage: the strategy types, and what a stored document is read and
//! written as.

use vstd::prelude::*;
use crate::codec::{
    content_document, content_text, deserialize_content, encode_json, json_encoding,
    serialize_content, string_result,
};
use crate::config::{config_from, ConfigMigrator, ConfigModel};
use crate::errors::{ErrorModel, IoOperationKind, MigrationError};
use crate::chain::{MigratorModel, list_agrees};
use crate::migrator::{Migrator};
use crate::text::chars_of;
use crate::traits::{FromValue, Queryable, ToValue};

verus! {

/// File format strategy for storage operations.
#[derive(Debug, Clone, Copy, PartialEq, Eq, Structural)]
pub enum FormatStrategy {
    /// TOML format (recommended for human-editable configs)
    Toml,
    /// JSON format
    Json,
}

/// Configuration for atomic write operations.
#[derive(Debug, Clone, Copy, PartialEq, Eq, Structural)]
pub struct AtomicWriteConfig {
    /// Number of times to retry rename operation (default: 3)
    pub retry_count: usize,
    /// Whether to clean up old temporary files (best effort)
    pub cleanup_tmp_files: bool,
}

impl Default for AtomicWriteConfig {
    fn default() -> (r: Self)
        ensures
            r.retry_count == 3,
            r.cleanup_tmp_files,
    {
        Self { retry_count: 3, cleanup_tmp_files: true }
    }
}

/// Behavior when loading a file that doesn't exist.
#[derive(Debug, Clone, Copy, PartialEq, Eq, Structural)]
pub enum LoadBehavior {
    /// Create an empty document if the file is missing
    CreateIfMissing,
    /// Return an error if the file is missing
    ErrorIfMissing,
}

/// Strategy configuration for file storage operations.
#[derive(Debug, Clone, Copy, PartialEq, Eq, Structural)]
pub struct FileStorageStrategy {
    /// File format to use
    pub format: FormatStrategy,
    /// Atomic write configuration
    pub atomic_write: AtomicWriteConfig,
    /// Behavior when file doesn't exist
    pub load_behavior: LoadBehavior,
}

impl Default for FileStorageStrategy {
    fn default() -> (r: Self)
        ensures
            r == (FileStorageStrategy {
                format: FormatStrategy::Toml,
                atomic_write: AtomicWriteConfig { retry_count: 3, cleanup_tmp_files: true },
                load_behavior: LoadBehavior::CreateIfMissing,
            }),
    {
        Self {
            format: FormatStrategy::Toml,
            atomic_write: AtomicWriteConfig::default(),
            load_behavior: LoadBehavior::CreateIfMissing,
        }
    }
}

impl FileStorageStrategy {
    /// Create a new strategy with default values.
    pub fn new() -> (r: Self)
        ensures
            r == (FileStorageStrategy {
                format: FormatStrategy::Toml,
                atomic_write: AtomicWriteConfig { retry_count: 3, cleanup_tmp_files: true },
                load_behavior: LoadBehavior::CreateIfMissing,
            }),
    {
        Self::default()
    }

    /// Set the file format.
    pub fn with_format(self, format: FormatStrategy) -> (r: Self)
        ensures
            r == (FileStorageStrategy { format, ..self }),
    {
        Self { format, atomic_write: self.atomic_write, load_behavior: self.load_behavior }
    }

    /// Set the retry count for atomic writes.
    pub fn with_retry_count(self, count: usize) -> (r: Self)
        ensures
            r == (FileStorageStrategy {
                atomic_write: AtomicWriteConfig { retry_count: count, ..self.atomic_write },
                ..self
            }),
    {
        Self {
            format: self.format,
            atomic_write: AtomicWriteConfig {
                retry_count: count,
                cleanup_tmp_files: self.atomic_write.cleanup_tmp_files,
            },
            load_behavior: self.load_behavior,
        }
    }

    /// Set whether to clean up temporary files.
    pub fn with_cleanup(self, cleanup: bool) -> (r: Self)
        ensures
            r == (FileStorageStrategy {
                atomic_write: AtomicWriteConfig { cleanup_tmp_files: cleanup, ..self.atomic_write },
                ..self
            }),
    {
        Self {
            format: self.format,
            atomic_write: AtomicWriteConfig {
                retry_count: self.atomic_write.retry_count,
                cleanup_tmp_files: cleanup,
            },
            load_behavior: self.load_behavior,
        }
    }

    /// Set the load behavior.
    pub fn with_load_behavior(self, behavior: LoadBehavior) -> (r: Self)
        ensures
            r == (FileStorageStrategy { load_behavior: behavior, ..self }),
    {
        Self { format: self.format, atomic_write: self.atomic_write, load_behavior: behavior }
    }
}


/// Whether a character is white space: the code points that Unicode marks so.
pub open spec fn white_space(c: char) -> bool {
    let n = c as int;
    ||| 0x09 <= n <= 0x0D
    ||| n == 0x20
    ||| n == 0x85
    ||| n == 0xA0
    ||| n == 0x1680
    ||| 0x2000 <= n <= 0x200A
    ||| n == 0x2028
    ||| n == 0x2029
    ||| n == 0x202F
    ||| n == 0x205F
    ||| n == 0x3000
}

/// Whether a text holds nothing but white space.
pub open spec fn is_blank(text: Seq<char>) -> bool {
    forall|i: int| 0 <= i < text.len() ==> white_space(#[trigger] text[i])
}

/// Whether a character is white space.
fn is_white_space(c: char) -> (r: bool)
    ensures
        r == white_space(c),
{
    let n: u32 = c as u32;
    (0x09 <= n && n <= 0x0D) || n == 0x20 || n == 0x85 || n == 0xA0 || n == 0x1680 || (0x2000 <= n
        && n <= 0x200A) || n == 0x2028 || n == 0x2029 || n == 0x202F || n == 0x205F || n == 0x3000
}

/// Whether a text holds nothing but white space.
pub fn blank(text: &str) -> (r: bool)
    ensures
        r == is_blank(text@),
{
    let chars = chars_of(text);
    let mut i: usize = 0;
    while i < chars.len()
        invariant
            i <= chars.len(),
            chars@ == text@,
            forall|j: int| 0 <= j < i ==> white_space(#[trigger] text@[j]),
        decreases chars.len() - i,
    {
        if !is_white_space(chars[i]) {
            assert(!white_space(text@[i as int]));
            return false;
        }
        i += 1;
    }
    true
}

/// The complaint about a file that is required and missing.
pub open spec fn file_not_found(path: Seq<char>) -> ErrorModel {
    ErrorModel::IoError {
        operation: IoOperationKind::Read,
        path,
        context: None,
        error: "File not found"@,
    }
}

/// The JSON text that a storage starts from, given what its file holds, if it exists:
/// an empty document for a missing or blank file, the content itself for JSON, and for
/// TOML the JSON text of the document that the content holds.
pub open spec fn initial_json(
    strategy: FileStorageStrategy,
    path: Seq<char>,
    existing: Option<Seq<char>>,
) -> Result<Seq<char>, ErrorModel> {
    match existing {
        Some(content) => if is_blank(content) {
            Ok("{}"@)
        } else {
            match strategy.format {
                FormatStrategy::Json => Ok(content),
                FormatStrategy::Toml => match content_document(FormatStrategy::Toml, content) {
                    Err(e) => Err(e),
                    Ok(doc) => match json_encoding(doc) {
                        Ok(text) => Ok(text),
                        Err(e) => Err(ErrorModel::SerializationError(e)),
                    },
                },
            }
        },
        None => match strategy.load_behavior {
            LoadBehavior::CreateIfMissing => Ok("{}"@),
            LoadBehavior::ErrorIfMissing => Err(file_not_found(path)),
        },
    }
}

/// What a file storage holds.
pub struct FileStorageModel {
    pub path: Seq<char>,
    pub config: ConfigModel,
    pub strategy: FileStorageStrategy,
}

/// The storage that a file's content and a migrator make.
pub open spec fn opened(
    path: Seq<char>,
    existing: Option<Seq<char>>,
    migrator: MigratorModel,
    strategy: FileStorageStrategy,
) -> Result<FileStorageModel, ErrorModel> {
    match initial_json(strategy, path, existing) {
        Err(e) => Err(e),
        Ok(json) => match config_from(json, migrator) {
            Err(e) => Err(e),
            Ok(config) => Ok(FileStorageModel { path, config, strategy }),
        },
    }
}

/// File storage: one file that holds a whole document, kept in memory.
pub struct FileStorage {
    path: String,
    config: ConfigMigrator,
    strategy: FileStorageStrategy,
}

impl View for FileStorage {
    type V = FileStorageModel;

    closed spec fn view(&self) -> FileStorageModel {
        FileStorageModel { path: self.path@, config: self.config@, strategy: self.strategy }
    }
}

/// The initial JSON text of a storage.
fn initial_json_text(strategy: &FileStorageStrategy, path: &str, existing: Option<&str>) -> (r: Result<
    String,
    MigrationError,
>)
    ensures
        string_result(r) == initial_json(
            *strategy,
            path@,
            match existing {
                Some(c) => Some(c@),
                None => None,
            },
        ),
{
    match existing {
        Some(content) => {
            if blank(content) {
                Ok(String::from_str("{}"))
            } else {
                match strategy.format {
                    FormatStrategy::Json => Ok(String::from_str(content)),
                    FormatStrategy::Toml => {
                        let doc = match deserialize_content(FormatStrategy::Toml, content) {
                            Ok(doc) => doc,
                            Err(e) => {
                                return Err(e);
                            },
                        };
                        match encode_json(&doc) {
                            Ok(text) => Ok(text),
                            Err(e) => Err(MigrationError::SerializationError(e)),
                        }
                    },
                }
            }
        },
        None => match strategy.load_behavior {
            LoadBehavior::CreateIfMissing => Ok(String::from_str("{}")),
            LoadBehavior::ErrorIfMissing => Err(
                MigrationError::IoError {
                    operation: IoOperationKind::Read,
                    path: String::from_str(path),
                    context: None,
                    error: String::from_str("File not found"),
                },
            ),
        },
    }
}

impl FileStorage {
    /// Creates the storage for the file at `path` from what the file holds: `existing`
    /// is its content, or nothing where the file does not exist. A missing file is an
    /// empty document or an error, as the strategy says; a blank file is an empty
    /// document.
    pub fn new(path: &str, existing: Option<&str>, migrator: Migrator, strategy: FileStorageStrategy) -> (r:
        Result<Self, MigrationError>)
        ensures
            match r {
                Ok(s) => opened(
                    path@,
                    match existing {
                        Some(c) => Some(c@),
                        None => None,
                    },
                    migrator@,
                    strategy,
                ) == Ok::<FileStorageModel, ErrorModel>(s@),
                Err(e) => opened(
                    path@,
                    match existing {
                        Some(c) => Some(c@),
                        None => None,
                    },
                    migrator@,
                    strategy,
                ) == Err::<FileStorageModel, ErrorModel>(e@),
            },
    {
        let json_string = match initial_json_text(&strategy, path, existing) {
            Ok(s) => s,
            Err(e) => {
                return Err(e);
            },
        };
        match ConfigMigrator::from(json_string.as_str(), migrator) {
            Ok(config) => Ok(Self { path: String::from_str(path), config, strategy }),
            Err(e) => Err(e),
        }
    }

    /// The content that saving writes to the file: the whole document in the storage's
    /// format. The caller writes it atomically.
    pub fn save(&self) -> (r: Result<String, MigrationError>)
        ensures
            string_result(r) == content_text(self@.strategy.format, self@.config.root),
    {
        serialize_content(self.strategy.format, self.config.as_value())
    }

    /// The path of the file.
    pub fn path(&self) -> (r: &str)
        ensures
            r@ == self@.path,
    {
        self.path.as_str()
    }

    /// The strategy.
    pub fn strategy(&self) -> (r: &FileStorageStrategy)
        ensures
            *r == self@.strategy,
    {
        &self.strategy
    }

    /// The accessor over the document.
    pub fn config(&self) -> (r: &ConfigMigrator)
        ensures
            r@ == self@.config,
    {
        &self.config
    }

    /// The accessor over the document, for changes.
    pub fn config_mut(&mut self) -> (r: &mut ConfigMigrator)
        ensures
            r@ == old(self)@.config,
            final(self)@ == (FileStorageModel { config: final(r)@, ..old(self)@ }),
    {
        &mut self.config
    }

    /// Queries the list under `key` of the document.
    pub fn query<T: Queryable + FromValue>(&self, key: &str) -> (r: Result<Vec<T>, MigrationError>)
        ensures
            list_agrees(r, self@.config.queried::<T>(key@)),
    {
        self.config.query(key)
    }

    /// Replaces the list under `key` of the document in memory.
    pub fn update<T: Queryable + ToValue>(&mut self, key: &str, value: Vec<T>) -> (r: Result<
        (),
        MigrationError,
    >)
        requires
            old(self)@.config.root is Object || old(self)@.config.root is Null,
        ensures
            match r {
                Ok(()) => old(self)@.config.updated::<T>(key@, value@) == Ok::<
                    ConfigModel,
                    ErrorModel,
                >(final(self)@.config),
                Err(e) => old(self)@.config.updated::<T>(key@, value@) == Err::<
                    ConfigModel,
                    ErrorModel,
                >(e@) && final(self)@.config == old(self)@.config,
            },
            final(self)@.path == old(self)@.path,
            final(self)@.strategy == old(self)@.strategy,
    {
        self.config.update(key, value)
    }

    /// Replaces the list under `key` and gives the content that saving then writes.
    pub fn update_and_save<T: Queryable + ToValue>(&mut self, key: &str, value: Vec<T>) -> (r: Result<
        String,
        MigrationError,
    >)
        requires
            old(self)@.config.root is Object || old(self)@.config.root is Null,
        ensures
            match old(self)@.config.updated::<T>(key@, value@) {
                Err(e) => r matches Err(got) && got@ == e && final(self)@.config == old(
                    self,
                )@.config,
                Ok(config) => final(self)@.config == config && string_result(r) == content_text(
                    old(self)@.strategy.format,
                    config.root,
                ),
            },
            final(self)@.path == old(self)@.path,
            final(self)@.strategy == old(self)@.strategy,
    {
        match self.update(key, value) {
            Err(e) => Err(e),
            Ok(()) => self.save(),
        }
    }
}

} // verus!
