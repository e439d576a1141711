//! Directory storage: one file per entity, named after the entity's id.

use vstd::prelude::*;
use crate::codec::{
    content_document, content_text, decode_json, deserialize_content, json_decoding,
    serialize_content, string_result,
};
use crate::errors::{ErrorModel, MigrationError};
use crate::listing::{extension_of, is_sorted, sort_texts, split_file_name, stem_of};
use crate::chain::{MigratorModel, agrees};
use crate::migrator::{Migrator};
use crate::paths::{join_path, joined_path, AppPaths};
use crate::storage::{AtomicWriteConfig, FormatStrategy};
use crate::text::{chars_of, concat3, opt_text, same_text, texts};
use crate::traits::{FromValue, ToValue};
use crate::value::Json;

verus! {

/// Filename encoding strategy for entity ids.
#[derive(Debug, Clone, Copy, PartialEq, Eq, Structural)]
pub enum FilenameEncoding {
    /// Use the id as the filename; only alphanumeric characters, `-` and `_` are allowed.
    Direct,
    /// URL-encode special characters (reserved).
    UrlEncode,
    /// Base64-encode the id (reserved).
    Base64,
}

impl Default for FilenameEncoding {
    fn default() -> (r: Self)
        ensures
            r == FilenameEncoding::Direct,
    {
        Self::Direct
    }
}

/// Strategy configuration for directory-based storage operations.
#[derive(Debug, Clone)]
pub struct DirStorageStrategy {
    /// File format to use (JSON or TOML)
    pub format: FormatStrategy,
    /// Atomic write configuration
    pub atomic_write: AtomicWriteConfig,
    /// Custom file extension (if None, derived from format)
    pub extension: Option<String>,
    /// Filename encoding strategy for ids
    pub filename_encoding: FilenameEncoding,
}

/// What a directory strategy holds.
pub struct DirStrategyModel {
    pub format: FormatStrategy,
    pub atomic_write: AtomicWriteConfig,
    pub extension: Option<Seq<char>>,
    pub filename_encoding: FilenameEncoding,
}

impl DirStrategyModel {
    /// The extension of the files: the custom one, else that of the format.
    pub open spec fn extension_text(self) -> Seq<char> {
        match self.extension {
            Some(ext) => ext,
            None => match self.format {
                FormatStrategy::Json => "json"@,
                FormatStrategy::Toml => "toml"@,
            },
        }
    }
}

impl View for DirStorageStrategy {
    type V = DirStrategyModel;

    open spec fn view(&self) -> DirStrategyModel {
        DirStrategyModel {
            format: self.format,
            atomic_write: self.atomic_write,
            extension: opt_text(self.extension),
            filename_encoding: self.filename_encoding,
        }
    }
}

/// The strategy that storage starts from: JSON, three rename attempts with cleanup, the
/// format's extension, ids used directly.
pub open spec fn default_dir_strategy() -> DirStrategyModel {
    DirStrategyModel {
        format: FormatStrategy::Json,
        atomic_write: AtomicWriteConfig { retry_count: 3, cleanup_tmp_files: true },
        extension: None,
        filename_encoding: FilenameEncoding::Direct,
    }
}

impl Default for DirStorageStrategy {
    fn default() -> (r: Self)
        ensures
            r@ == default_dir_strategy(),
    {
        Self {
            format: FormatStrategy::Json,
            atomic_write: AtomicWriteConfig::default(),
            extension: None,
            filename_encoding: FilenameEncoding::default(),
        }
    }
}

impl DirStorageStrategy {
    /// Create a new strategy with default values.
    pub fn new() -> (r: Self)
        ensures
            r@ == default_dir_strategy(),
    {
        Self::default()
    }

    /// Set the file format.
    pub fn with_format(self, format: FormatStrategy) -> (r: Self)
        ensures
            r@ == (DirStrategyModel { format, ..self@ }),
    {
        Self {
            format,
            atomic_write: self.atomic_write,
            extension: self.extension,
            filename_encoding: self.filename_encoding,
        }
    }

    /// Set a custom file extension.
    pub fn with_extension(self, ext: &str) -> (r: Self)
        ensures
            r@ == (DirStrategyModel { extension: Some(ext@), ..self@ }),
    {
        Self {
            format: self.format,
            atomic_write: self.atomic_write,
            extension: Some(String::from_str(ext)),
            filename_encoding: self.filename_encoding,
        }
    }

    /// Set the filename encoding strategy.
    pub fn with_filename_encoding(self, encoding: FilenameEncoding) -> (r: Self)
        ensures
            r@ == (DirStrategyModel { filename_encoding: encoding, ..self@ }),
    {
        Self {
            format: self.format,
            atomic_write: self.atomic_write,
            extension: self.extension,
            filename_encoding: encoding,
        }
    }

    /// Set the retry count for atomic writes.
    pub fn with_retry_count(self, count: usize) -> (r: Self)
        ensures
            r@ == (DirStrategyModel {
                atomic_write: AtomicWriteConfig { retry_count: count, ..self@.atomic_write },
                ..self@
            }),
    {
        Self {
            format: self.format,
            atomic_write: AtomicWriteConfig {
                retry_count: count,
                cleanup_tmp_files: self.atomic_write.cleanup_tmp_files,
            },
            extension: self.extension,
            filename_encoding: self.filename_encoding,
        }
    }

    /// Set whether to clean up temporary files.
    pub fn with_cleanup(self, cleanup: bool) -> (r: Self)
        ensures
            r@ == (DirStrategyModel {
                atomic_write: AtomicWriteConfig { cleanup_tmp_files: cleanup, ..self@.atomic_write },
                ..self@
            }),
    {
        Self {
            format: self.format,
            atomic_write: AtomicWriteConfig {
                retry_count: self.atomic_write.retry_count,
                cleanup_tmp_files: cleanup,
            },
            extension: self.extension,
            filename_encoding: self.filename_encoding,
        }
    }

    /// Get the file extension: the custom one, else the one derived from the format.
    pub fn get_extension(&self) -> (r: String)
        ensures
            r@ == self@.extension_text(),
    {
        match &self.extension {
            Some(ext) => ext.clone(),
            None => match self.format {
                FormatStrategy::Json => String::from_str("json"),
                FormatStrategy::Toml => String::from_str("toml"),
            },
        }
    }
}


/// Whether a character may stand in an id that is used directly as a file name: an
/// ASCII letter or digit, `-` or `_`.
pub open spec fn safe_id_char(c: char) -> bool {
    ||| ('0' as int) <= (c as int) <= ('9' as int)
    ||| ('A' as int) <= (c as int) <= ('Z' as int)
    ||| ('a' as int) <= (c as int) <= ('z' as int)
    ||| c == '-'
    ||| c == '_'
}

/// Whether every character of an id may stand in a file name.
pub open spec fn safe_id(id: Seq<char>) -> bool {
    forall|i: int| 0 <= i < id.len() ==> safe_id_char(#[trigger] id[i])
}

/// The reason given for an id that cannot be used directly.
pub open spec fn unsafe_id_reason() -> Seq<char> {
    "ID contains invalid characters for Direct encoding. Only alphanumeric, '-', and '_' are allowed."@
}

/// The file name of an id under a strategy that uses ids directly.
pub open spec fn encoded_id(id: Seq<char>) -> Result<Seq<char>, ErrorModel> {
    if safe_id(id) {
        Ok(id)
    } else {
        Err(ErrorModel::FilenameEncoding { id, reason: unsafe_id_reason() })
    }
}

/// The file of an id below a directory: the encoded id, a `.`, and the extension.
pub open spec fn id_path(base: Seq<char>, extension: Seq<char>, id: Seq<char>) -> Result<
    Seq<char>,
    ErrorModel,
> {
    match encoded_id(id) {
        Err(e) => Err(e),
        Ok(name) => Ok(joined_path(base, name + "."@ + extension)),
    }
}

/// The ids of the entries of a directory that carry the extension, in the order of the
/// entries.
pub open spec fn listed_ids(names: Seq<Seq<char>>, extension: Seq<char>) -> Seq<Seq<char>>
    decreases names.len(),
{
    if names.len() == 0 {
        Seq::empty()
    } else if extension_of(names.last()) == Some(extension) {
        listed_ids(names.drop_last(), extension).push(stem_of(names.last()))
    } else {
        listed_ids(names.drop_last(), extension)
    }
}

/// What a directory storage holds.
pub struct DirStorageModel {
    pub base_path: Seq<char>,
    pub migrator: MigratorModel,
    pub strategy: DirStrategyModel,
}

impl DirStorageModel {
    /// The path and the content that saving an entity under an id writes: the entity's
    /// flat document in the storage's format, at the file of the id.
    pub open spec fn save_plan(
        self,
        entity_name: Seq<char>,
        id: Seq<char>,
        written: Result<Json, Seq<char>>,
    ) -> Result<(Seq<char>, Seq<char>), ErrorModel> {
        match self.migrator.saved_domain_flat(entity_name, written) {
            Err(e) => Err(e),
            Ok(json) => match json_decoding(json) {
                Err(e) => Err(ErrorModel::DeserializationError(e)),
                Ok(doc) => match content_text(self.strategy.format, doc) {
                    Err(e) => Err(e),
                    Ok(content) => match id_path(
                        self.base_path,
                        self.strategy.extension_text(),
                        id,
                    ) {
                        Err(e) => Err(e),
                        Ok(path) => Ok((path, content)),
                    },
                },
            },
        }
    }

    /// The domain value that the content of an entity's file holds.
    pub open spec fn loaded_content<D: FromValue>(self, entity_name: Seq<char>, content: Seq<char>) -> Result<
        D,
        ErrorModel,
    > {
        match content_document(self.strategy.format, content) {
            Err(e) => Err(e),
            Ok(doc) => self.migrator.loaded_flat::<D>(entity_name, Ok(doc)),
        }
    }
}

/// The entities loaded from the contents of their files, each with its id, in order; the
/// first file that fails fails them all.
pub open spec fn loaded_files<D: FromValue>(
    storage: DirStorageModel,
    entity_name: Seq<char>,
    files: Seq<(Seq<char>, Seq<char>)>,
) -> Result<Seq<(Seq<char>, D)>, ErrorModel>
    decreases files.len(),
{
    if files.len() == 0 {
        Ok(Seq::empty())
    } else {
        match loaded_files::<D>(storage, entity_name, files.drop_last()) {
            Err(e) => Err(e),
            Ok(done) => match storage.loaded_content::<D>(entity_name, files.last().1) {
                Err(e) => Err(e),
                Ok(entity) => Ok(done.push((files.last().0, entity))),
            },
        }
    }
}

/// The ids and contents of a list of files, as characters.
pub open spec fn files_model(files: Seq<(String, String)>) -> Seq<(Seq<char>, Seq<char>)> {
    Seq::new(files.len(), |i: int| (files[i].0@, files[i].1@))
}

/// The ids of a list of loaded entities as characters, each with its entity.
pub open spec fn loaded_model<D>(items: Seq<(String, D)>) -> Seq<(Seq<char>, D)> {
    Seq::new(items.len(), |i: int| (items[i].0@, items[i].1))
}

/// A failure of a prefix is the failure of the whole list.
proof fn lemma_loaded_files_prefix<D: FromValue>(
    storage: DirStorageModel,
    entity_name: Seq<char>,
    files: Seq<(Seq<char>, Seq<char>)>,
    n: int,
)
    requires
        0 <= n <= files.len(),
        loaded_files::<D>(storage, entity_name, files.take(n)) is Err,
    ensures
        loaded_files::<D>(storage, entity_name, files) == loaded_files::<D>(
            storage,
            entity_name,
            files.take(n),
        ),
    decreases files.len() - n,
{
    if n < files.len() {
        assert(files.take(n + 1).drop_last() =~= files.take(n));
        lemma_loaded_files_prefix::<D>(storage, entity_name, files, n + 1);
    } else {
        assert(files.take(n) =~= files);
    }
}

/// Directory-based entity storage: one file per entity below a base directory.
pub struct DirStorage {
    base_path: String,
    migrator: Migrator,
    strategy: DirStorageStrategy,
}

impl View for DirStorage {
    type V = DirStorageModel;

    closed spec fn view(&self) -> DirStorageModel {
        DirStorageModel {
            base_path: self.base_path@,
            migrator: self.migrator@,
            strategy: self.strategy@,
        }
    }
}

/// Whether a character may stand in an id that is used directly.
fn is_safe_id_char(c: char) -> (r: bool)
    ensures
        r == safe_id_char(c),
{
    (c >= '0' && c <= '9') || (c >= 'A' && c <= 'Z') || (c >= 'a' && c <= 'z') || c == '-' || c
        == '_'
}

/// Whether a result is the pair of texts or the error that a specification names.
pub open spec fn pair_agrees(
    r: Result<(String, String), MigrationError>,
    expected: Result<(Seq<char>, Seq<char>), ErrorModel>,
) -> bool {
    match r {
        Ok((a, b)) => expected == Ok::<(Seq<char>, Seq<char>), ErrorModel>((a@, b@)),
        Err(e) => expected == Err::<(Seq<char>, Seq<char>), ErrorModel>(e@),
    }
}

impl DirStorage {
    /// A storage for the entities of `domain_name` below the data directory of `paths`.
    /// The base directory is not created here: the caller creates it before the first
    /// write.
    pub fn new(paths: &AppPaths, domain_name: &str, migrator: Migrator, strategy: DirStorageStrategy) -> (r:
        Result<Self, MigrationError>)
        ensures
            match r {
                Ok(s) => s@.migrator == migrator@ && s@.strategy == strategy@ && exists|dir: Seq<char>|
                    paths.data_dir_may_be(dir) && s@.base_path == joined_path(dir, domain_name@),
                Err(e) => e@ is HomeDirNotFound && !(paths.data_strategy@ is CustomBase),
            },
    {
        match paths.resolve_data_dir() {
            Err(e) => Err(e),
            Ok(dir) => Ok(Self { base_path: join_path(dir.as_str(), domain_name), migrator, strategy }),
        }
    }

    /// A storage below a base directory that is already known.
    pub fn at(base_path: &str, migrator: Migrator, strategy: DirStorageStrategy) -> (r: Self)
        ensures
            r@ == (DirStorageModel {
                base_path: base_path@,
                migrator: migrator@,
                strategy: strategy@,
            }),
    {
        Self { base_path: String::from_str(base_path), migrator, strategy }
    }

    /// The base directory.
    pub fn base_path(&self) -> (r: &str)
        ensures
            r@ == self@.base_path,
    {
        self.base_path.as_str()
    }

    /// The strategy.
    pub fn strategy(&self) -> (r: &DirStorageStrategy)
        ensures
            r@ == self@.strategy,
    {
        &self.strategy
    }

    /// Encodes an id as a file name. With ids used directly the id must hold only
    /// ASCII letters, digits, `-` and `_`, and is its own file name.
    pub fn encode_id(&self, id: &str) -> (r: Result<String, MigrationError>)
        requires
            self@.strategy.filename_encoding is Direct,
        ensures
            string_result(r) == encoded_id(id@),
    {
        let chars = chars_of(id);
        let mut i: usize = 0;
        while i < chars.len()
            invariant
                i <= chars.len(),
                chars@ == id@,
                forall|j: int| 0 <= j < i ==> safe_id_char(#[trigger] id@[j]),
            decreases chars.len() - i,
        {
            if !is_safe_id_char(chars[i]) {
                assert(!safe_id_char(id@[i as int]));
                return Err(
                    MigrationError::FilenameEncoding {
                        id: String::from_str(id),
                        reason: String::from_str(
                            "ID contains invalid characters for Direct encoding. Only alphanumeric, '-', and '_' are allowed.",
                        ),
                    },
                );
            }
            i += 1;
        }
        Ok(String::from_str(id))
    }

    /// Decodes the stem of a file name to an id. With ids used directly the stem is
    /// the id.
    pub fn decode_id(&self, filename_stem: &str) -> (r: Result<String, MigrationError>)
        requires
            self@.strategy.filename_encoding is Direct,
        ensures
            string_result(r) == Ok::<Seq<char>, ErrorModel>(filename_stem@),
    {
        Ok(String::from_str(filename_stem))
    }

    /// The file of an id: the encoded id with the extension, below the base directory.
    pub fn id_to_path(&self, id: &str) -> (r: Result<String, MigrationError>)
        requires
            self@.strategy.filename_encoding is Direct,
        ensures
            string_result(r) == id_path(self@.base_path, self@.strategy.extension_text(), id@),
    {
        let encoded_id = match self.encode_id(id) {
            Ok(name) => name,
            Err(e) => {
                return Err(e);
            },
        };
        let extension = self.strategy.get_extension();
        let filename = concat3(encoded_id.as_str(), ".", extension.as_str());
        Ok(join_path(self.base_path.as_str(), filename.as_str()))
    }

    /// The id that a file name stands for: its stem, decoded.
    pub fn path_to_id(&self, file_name: &str) -> (r: Result<String, MigrationError>)
        requires
            self@.strategy.filename_encoding is Direct,
        ensures
            string_result(r) == Ok::<Seq<char>, ErrorModel>(stem_of(file_name@)),
    {
        let (stem, _) = split_file_name(file_name);
        self.decode_id(stem.as_str())
    }

    /// The ids of the entities among the files of the base directory, given the names
    /// of its files: those that carry the storage's extension, in lexical order.
    pub fn list_ids(&self, file_names: &Vec<String>) -> (r: Result<Vec<String>, MigrationError>)
        requires
            self@.strategy.filename_encoding is Direct,
        ensures
            r matches Ok(ids) && is_sorted(texts(ids@)) && texts(ids@).to_multiset() == listed_ids(
                texts(file_names@),
                self@.strategy.extension_text(),
            ).to_multiset(),
    {
        let extension = self.strategy.get_extension();
        let mut ids: Vec<String> = Vec::new();
        let mut i: usize = 0;
        assert(texts(ids@) =~= Seq::empty());
        assert(texts(file_names@).take(0) =~= Seq::empty());
        while i < file_names.len()
            invariant
                i <= file_names.len(),
                extension@ == self@.strategy.extension_text(),
                self@.strategy.filename_encoding is Direct,
                texts(ids@) == listed_ids(texts(file_names@).take(i as int), extension@),
            decreases file_names.len() - i,
        {
            let ghost next = texts(file_names@).take(i + 1);
            let ghost before = texts(ids@);
            assert(next.drop_last() =~= texts(file_names@).take(i as int));
            assert(next.last() == file_names@[i as int]@);
            let (stem, ext) = split_file_name(file_names[i].as_str());
            match ext {
                Some(e) => {
                    if same_text(e.as_str(), extension.as_str()) {
                        match self.decode_id(stem.as_str()) {
                            Ok(id) => {
                                ids.push(id);
                                assert(texts(ids@) =~= before.push(stem@));
                            },
                            Err(e) => {
                                return Err(e);
                            },
                        }
                    }
                },
                None => {},
            }
            i += 1;
        }
        assert(texts(file_names@).take(file_names@.len() as int) =~= texts(file_names@));
        Ok(sort_texts(&ids))
    }

    /// What saving an entity under an id writes, and where: the file of the id, and the
    /// entity's flat document in the storage's format. The caller writes the content
    /// to the path atomically.
    pub fn save<T: ToValue>(&self, entity_name: &str, id: &str, entity: T) -> (r: Result<
        (String, String),
        MigrationError,
    >)
        requires
            self@.strategy.filename_encoding is Direct,
        ensures
            pair_agrees(r, self@.save_plan(entity_name@, id@, entity.encoded())),
    {
        let json_string = match self.migrator.save_domain_flat(entity_name, entity) {
            Ok(s) => s,
            Err(e) => {
                return Err(e);
            },
        };
        let versioned_value = match decode_json(json_string.as_str()) {
            Ok(v) => v,
            Err(e) => {
                return Err(MigrationError::DeserializationError(e));
            },
        };
        let content = match serialize_content(self.strategy.format, &versioned_value) {
            Ok(c) => c,
            Err(e) => {
                return Err(e);
            },
        };
        match self.id_to_path(id) {
            Ok(path) => Ok((path, content)),
            Err(e) => Err(e),
        }
    }

    /// Loads every entity from the contents of the files, given as pairs of id and
    /// content in the order of the listing. All or nothing: the first file that fails
    /// fails the call.
    pub fn load_all<D: FromValue>(&self, entity_name: &str, files: &Vec<(String, String)>) -> (r:
        Result<Vec<(String, D)>, MigrationError>)
        ensures
            match r {
                Ok(items) => loaded_files::<D>(self@, entity_name@, files_model(files@)) == Ok::<
                    Seq<(Seq<char>, D)>,
                    ErrorModel,
                >(loaded_model(items@)),
                Err(e) => loaded_files::<D>(self@, entity_name@, files_model(files@)) == Err::<
                    Seq<(Seq<char>, D)>,
                    ErrorModel,
                >(e@),
            },
    {
        let mut results: Vec<(String, D)> = Vec::new();
        let mut i: usize = 0;
        assert(loaded_model(results@) =~= Seq::empty());
        assert(files_model(files@).take(0) =~= Seq::empty());
        while i < files.len()
            invariant
                i <= files.len(),
                loaded_files::<D>(self@, entity_name@, files_model(files@).take(i as int)) == Ok::<
                    Seq<(Seq<char>, D)>,
                    ErrorModel,
                >(loaded_model(results@)),
            decreases files.len() - i,
        {
            let ghost next = files_model(files@).take(i + 1);
            let ghost before = loaded_model(results@);
            assert(next.drop_last() =~= files_model(files@).take(i as int));
            assert(next.last() == (files@[i as int].0@, files@[i as int].1@));
            match self.load::<D>(entity_name, files[i].1.as_str()) {
                Ok(entity) => {
                    results.push((files[i].0.clone(), entity));
                    assert(loaded_model(results@) =~= before.push((files@[i as int].0@, entity)));
                },
                Err(e) => {
                    proof {
                        lemma_loaded_files_prefix::<D>(
                            self@,
                            entity_name@,
                            files_model(files@),
                            i + 1,
                        );
                    }
                    return Err(e);
                },
            }
            i += 1;
        }
        assert(files_model(files@).take(files@.len() as int) =~= files_model(files@));
        Ok(results)
    }

    /// Loads an entity from the content of its file: the content is read in the
    /// storage's format and migrated as a flat document.
    pub fn load<D: FromValue>(&self, entity_name: &str, content: &str) -> (r: Result<
        D,
        MigrationError,
    >)
        ensures
            agrees(r, self@.loaded_content::<D>(entity_name@, content@)),
    {
        let value = match deserialize_content(self.strategy.format, content) {
            Ok(v) => v,
            Err(e) => {
                return Err(e);
            },
        };
        self.migrator.load_flat_from(entity_name, value)
    }
}

} // verus!
