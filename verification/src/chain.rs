//! What loading and saving mean: the walk along a chain, and the documents around it.

use vstd::prelude::*;
use crate::codec::{json_decoding, json_encoding, json_list_decoding};
use crate::errors::{ErrorModel, MigrationError};
use crate::path::{ChainModel, PathModel, SaverModel};
use crate::text::{last_named, names_distinct, without_named};
use crate::traits::{FromDomain, FromValue, LatestVersioned, ToValue, Versioned};
use crate::transform::{StepModel};
use crate::value::{Json, lookup, with_entry, without};

verus! {

/// The field name that counts: the path's own, else the migrator's default, else what
/// the version type declares.
pub open spec fn resolved_key(
    custom: Option<Seq<char>>,
    default: Option<Seq<char>>,
    declared: Seq<char>,
) -> Seq<char> {
    match custom {
        Some(k) => k,
        None => match default {
            Some(k) => k,
            None => declared,
        },
    }
}

/// What a migrator holds: the chains by entity name, the ways back by entity name, and
/// the default field names. A migrator that grew by registration holds each name once.
pub struct MigratorModel {
    pub paths: Seq<(Seq<char>, ChainModel)>,
    pub savers: Seq<(Seq<char>, SaverModel)>,
    pub default_version_key: Option<Seq<char>>,
    pub default_data_key: Option<Seq<char>>,
}

/// A complaint about stored data.
pub open spec fn deser(msg: Seq<char>) -> ErrorModel {
    ErrorModel::DeserializationError(msg)
}

/// A complaint about data to be stored.
pub open spec fn ser(msg: Seq<char>) -> ErrorModel {
    ErrorModel::SerializationError(msg)
}

/// The first position of `version` in the list at or after `start`.
pub open spec fn index_from(versions: Seq<Seq<char>>, version: Seq<char>, start: int) -> Option<int>
    decreases versions.len() - start,
{
    if start < 0 || start >= versions.len() {
        None
    } else if versions[start] == version {
        Some(start)
    } else {
        index_from(versions, version, start + 1)
    }
}

/// The payload after the steps from position `from` on, in order; the first failure
/// ends the walk.
pub open spec fn run_steps(steps: Seq<StepModel>, from: int, data: Json) -> Result<Json, ErrorModel>
    decreases steps.len() - from,
{
    if from < 0 || from >= steps.len() {
        Ok(data)
    } else {
        match (steps[from])(data) {
            Err(e) => Err(e),
            Ok(next) => run_steps(steps, from + 1, next),
        }
    }
}

/// The position in the chain at which a payload tagged `version` enters: that of the
/// version in the list, or past every step for a version that the list lacks.
pub open spec fn entry_point(chain: ChainModel, version: Seq<char>) -> int {
    match index_from(chain.versions, version, 0) {
        Some(i) => i,
        None => chain.steps.len() as int,
    }
}

/// The domain payload for a payload tagged `version`: every step from the version's
/// place in the list on, then the last link.
pub open spec fn walk(chain: ChainModel, version: Seq<char>, data: Json) -> Result<Json, ErrorModel> {
    match run_steps(chain.steps, entry_point(chain, version), data) {
        Err(e) => Err(e),
        Ok(latest) => (chain.finalize)(latest),
    }
}

/// The version and the payload of a nested document.
pub open spec fn extract_nested(chain: ChainModel, doc: Json) -> Result<(Seq<char>, Json), ErrorModel> {
    match doc {
        Json::Object(entries) => match lookup(entries, chain.version_key) {
            Some(Json::Text(version)) => match lookup(entries, chain.data_key) {
                Some(data) => Ok((version, data)),
                None => Err(deser("Missing '"@ + chain.data_key + "' field"@)),
            },
            _ => Err(deser("Missing or invalid '"@ + chain.version_key + "' field"@)),
        },
        _ => Err(deser("Expected object with version and data fields"@)),
    }
}

/// The version and the payload of a flat document: the payload is the document without
/// its version field.
pub open spec fn extract_flat(chain: ChainModel, doc: Json) -> Result<(Seq<char>, Json), ErrorModel> {
    match doc {
        Json::Object(entries) => match lookup(entries, chain.version_key) {
            None => Err(deser("Missing '"@ + chain.version_key + "' field in flat format"@)),
            Some(Json::Text(version)) => Ok(
                (version, Json::Object(without(entries, chain.version_key))),
            ),
            Some(_) => Err(deser("Invalid '"@ + chain.version_key + "' field type"@)),
        },
        _ => Err(deser("Expected object with version field at top level"@)),
    }
}

/// The domain payload of a nested document under a chain.
pub open spec fn migrate_nested(chain: ChainModel, doc: Json) -> Result<Json, ErrorModel> {
    match extract_nested(chain, doc) {
        Err(e) => Err(e),
        Ok((version, data)) => walk(chain, version, data),
    }
}

/// The domain payload of a flat document under a chain.
pub open spec fn migrate_flat(chain: ChainModel, doc: Json) -> Result<Json, ErrorModel> {
    match extract_flat(chain, doc) {
        Err(e) => Err(e),
        Ok((version, data)) => walk(chain, version, data),
    }
}

/// The domain value read from a domain payload.
pub open spec fn to_domain<D: FromValue>(payload: Json) -> Result<D, ErrorModel> {
    match D::decoded(payload) {
        Ok(d) => Ok(d),
        Err(e) => Err(deser("Failed to convert to domain: "@ + e)),
    }
}

impl MigratorModel {
    /// The chain registered for an entity.
    pub open spec fn path(self, entity: Seq<char>) -> Option<ChainModel> {
        last_named(self.paths, entity)
    }

    /// The way back registered for an entity.
    pub open spec fn saver(self, entity: Seq<char>) -> Option<SaverModel> {
        last_named(self.savers, entity)
    }

    /// The last version of an entity's chain.
    pub open spec fn latest_version(self, entity: Seq<char>) -> Option<Seq<char>> {
        match self.path(entity) {
            Some(chain) => if chain.versions.len() > 0 {
                Some(chain.versions.last())
            } else {
                None
            },
            None => None,
        }
    }

    /// The chain that a path is registered as: its field names resolved.
    pub open spec fn resolved(self, path: PathModel) -> ChainModel {
        ChainModel {
            version_key: resolved_key(
                path.custom_version_key,
                self.default_version_key,
                path.chain.version_key,
            ),
            data_key: resolved_key(path.custom_data_key, self.default_data_key, path.chain.data_key),
            ..path.chain
        }
    }

    /// The migrator after a path was registered: the path takes the place of any that
    /// was registered under its name, and so does its way back, where it has one. A way
    /// back that was registered earlier under the name stays where the new path has none.
    pub open spec fn registered(self, path: PathModel) -> MigratorModel {
        MigratorModel {
            paths: without_named(self.paths, path.entity).push(
                (path.entity, self.resolved(path)),
            ),
            savers: match path.reverse {
                Some(f) => without_named(self.savers, path.entity).push((path.entity, f)),
                None => self.savers,
            },
            ..self
        }
    }

    /// Whether no entity name occurs twice, among the paths or among the ways back.
    pub open spec fn distinct_names(self) -> bool {
        names_distinct(self.paths) && names_distinct(self.savers)
    }

    /// The domain payload of a nested document of an entity.
    pub open spec fn migrated(self, entity: Seq<char>, doc: Json) -> Result<Json, ErrorModel> {
        match self.path(entity) {
            None => Err(ErrorModel::EntityNotFound(entity)),
            Some(chain) => migrate_nested(chain, doc),
        }
    }

    /// The domain payload of a flat document of an entity.
    pub open spec fn migrated_flat(self, entity: Seq<char>, doc: Json) -> Result<Json, ErrorModel> {
        match self.path(entity) {
            None => Err(ErrorModel::EntityNotFound(entity)),
            Some(chain) => migrate_flat(chain, doc),
        }
    }

    /// The domain value loaded from what the caller's data was written as, nested.
    pub open spec fn loaded<D: FromValue>(
        self,
        entity: Seq<char>,
        input: Result<Json, Seq<char>>,
    ) -> Result<D, ErrorModel> {
        match input {
            Err(e) => Err(deser("Failed to convert input data to internal format: "@ + e)),
            Ok(doc) => match self.migrated(entity, doc) {
                Err(e) => Err(e),
                Ok(payload) => to_domain::<D>(payload),
            },
        }
    }

    /// The domain value loaded from what the caller's data was written as, flat. The
    /// entity is looked up before the data is considered.
    pub open spec fn loaded_flat<D: FromValue>(
        self,
        entity: Seq<char>,
        input: Result<Json, Seq<char>>,
    ) -> Result<D, ErrorModel> {
        match self.path(entity) {
            None => Err(ErrorModel::EntityNotFound(entity)),
            Some(chain) => match input {
                Err(e) => Err(ser("Failed to convert input: "@ + e)),
                Ok(doc) => match migrate_flat(chain, doc) {
                    Err(e) => Err(e),
                    Ok(payload) => to_domain::<D>(payload),
                },
            },
        }
    }
}

/// Whether a result is the value or the error that a specification names.
pub open spec fn agrees<D>(r: Result<D, MigrationError>, expected: Result<D, ErrorModel>) -> bool {
    match r {
        Ok(d) => expected == Ok::<D, ErrorModel>(d),
        Err(e) => expected == Err::<D, ErrorModel>(e@),
    }
}

/// A payload wrapped with its version: first the version field, then the data field.
pub open spec fn tagged(
    version_key: Seq<char>,
    version: Seq<char>,
    data_key: Seq<char>,
    data: Json,
) -> Json {
    Json::Object(
        with_entry(with_entry(Seq::empty(), version_key, Json::Text(version)), data_key, data),
    )
}

/// An object with the version field set beside its own fields; nothing for a payload
/// that is no object.
pub open spec fn stamped(doc: Json, version_key: Seq<char>, version: Seq<char>) -> Option<Json> {
    match doc {
        Json::Object(entries) => Some(
            Json::Object(with_entry(entries, version_key, Json::Text(version))),
        ),
        _ => None,
    }
}

/// The complaint about a payload that cannot be stored flat.
pub open spec fn not_an_object() -> ErrorModel {
    ser("Data must serialize to a JSON object for flat format"@)
}

/// The text of a document, or the complaint that begins with `context`.
pub open spec fn encoded_text(doc: Json, context: Seq<char>) -> Result<Seq<char>, ErrorModel> {
    match json_encoding(doc) {
        Ok(text) => Ok(text),
        Err(e) => Err(ser(context + e)),
    }
}

/// What wrapping one written value finds: the value nested under its version.
pub open spec fn nested_item(
    written: Result<Json, Seq<char>>,
    version_key: Seq<char>,
    version: Seq<char>,
    data_key: Seq<char>,
    context: Seq<char>,
) -> Result<Json, ErrorModel> {
    match written {
        Err(e) => Err(ser(context + e)),
        Ok(data) => Ok(tagged(version_key, version, data_key, data)),
    }
}

/// What stamping one written value finds: the value with its version beside its fields.
pub open spec fn flat_item(
    written: Result<Json, Seq<char>>,
    version_key: Seq<char>,
    version: Seq<char>,
    context: Seq<char>,
) -> Result<Json, ErrorModel> {
    match written {
        Err(e) => Err(ser(context + e)),
        Ok(data) => match stamped(data, version_key, version) {
            Some(doc) => Ok(doc),
            None => Err(not_an_object()),
        },
    }
}

/// The text that a versioned value is saved as, nested.
pub open spec fn saved<T: Versioned + ToValue>(data: T) -> Result<Seq<char>, ErrorModel> {
    match nested_item(
        data.encoded(),
        T::VERSION_KEY@,
        T::VERSION@,
        T::DATA_KEY@,
        "Failed to serialize data: "@,
    ) {
        Err(e) => Err(e),
        Ok(doc) => encoded_text(doc, "Failed to serialize wrapper: "@),
    }
}

/// The text that a versioned value is saved as, flat.
pub open spec fn saved_flat<T: Versioned + ToValue>(data: T) -> Result<Seq<char>, ErrorModel> {
    match flat_item(data.encoded(), T::VERSION_KEY@, T::VERSION@, "Failed to serialize data: "@) {
        Err(e) => Err(e),
        Ok(doc) => encoded_text(doc, "Failed to serialize flat format: "@),
    }
}

/// The wrapped values of a list, in order; the first value that fails fails the list.
pub open spec fn nested_items<T: Versioned + ToValue>(items: Seq<T>) -> Result<Seq<Json>, ErrorModel>
    decreases items.len(),
{
    if items.len() == 0 {
        Ok(Seq::empty())
    } else {
        match nested_items(items.drop_last()) {
            Err(e) => Err(e),
            Ok(done) => match nested_item(
                items.last().encoded(),
                T::VERSION_KEY@,
                T::VERSION@,
                T::DATA_KEY@,
                "Failed to serialize item: "@,
            ) {
                Err(e) => Err(e),
                Ok(doc) => Ok(done.push(doc)),
            },
        }
    }
}

/// The stamped values of a list, in order; the first value that fails fails the list.
pub open spec fn flat_items<T: Versioned + ToValue>(items: Seq<T>) -> Result<Seq<Json>, ErrorModel>
    decreases items.len(),
{
    if items.len() == 0 {
        Ok(Seq::empty())
    } else {
        match flat_items(items.drop_last()) {
            Err(e) => Err(e),
            Ok(done) => match flat_item(
                items.last().encoded(),
                T::VERSION_KEY@,
                T::VERSION@,
                "Failed to serialize item: "@,
            ) {
                Err(e) => Err(e),
                Ok(doc) => Ok(done.push(doc)),
            },
        }
    }
}

/// The text that a list of versioned values is saved as, nested.
pub open spec fn saved_vec<T: Versioned + ToValue>(items: Seq<T>) -> Result<Seq<char>, ErrorModel> {
    match nested_items(items) {
        Err(e) => Err(e),
        Ok(docs) => encoded_text(Json::Array(docs), "Failed to serialize data array: "@),
    }
}

/// The text that a list of versioned values is saved as, flat.
pub open spec fn saved_vec_flat<T: Versioned + ToValue>(items: Seq<T>) -> Result<
    Seq<char>,
    ErrorModel,
> {
    match flat_items(items) {
        Err(e) => Err(e),
        Ok(docs) => encoded_text(Json::Array(docs), "Failed to serialize flat data array: "@),
    }
}

/// The latest versions of a list of domain values.
pub open spec fn latest_all<E: LatestVersioned>(items: Seq<E>) -> Seq<E::Latest> {
    Seq::new(items.len(), |i: int| <E::Latest as FromDomain<E>>::latest(items[i]))
}

/// The complaint about an entity that has no way back.
pub open spec fn no_saver(entity: Seq<char>) -> ErrorModel {
    ErrorModel::EntityNotFound(
        "Entity '"@ + entity
            + "' is not registered with domain save support. Use into_with_save() when defining the migration path."@,
    )
}

/// The complaint about an entity that has no path.
pub open spec fn no_path(entity: Seq<char>) -> ErrorModel {
    ErrorModel::EntityNotFound("Entity '"@ + entity + "' is not registered"@)
}

/// The values loaded from a list of written inputs, in order; the first input that
/// fails fails the list.
pub open spec fn loaded_all<D: FromValue, T: ToValue>(
    m: MigratorModel,
    entity: Seq<char>,
    items: Seq<T>,
    flat: bool,
) -> Result<Seq<D>, ErrorModel>
    decreases items.len(),
{
    if items.len() == 0 {
        Ok(Seq::empty())
    } else {
        match loaded_all::<D, T>(m, entity, items.drop_last(), flat) {
            Err(e) => Err(e),
            Ok(done) => match (if flat {
                m.loaded_flat::<D>(entity, items.last().encoded())
            } else {
                m.loaded::<D>(entity, items.last().encoded())
            }) {
                Err(e) => Err(e),
                Ok(d) => Ok(done.push(d)),
            },
        }
    }
}

impl MigratorModel {
    /// The domain value loaded from JSON text, nested. The text is parsed before the
    /// entity is looked up.
    pub open spec fn loaded_text<D: FromValue>(self, entity: Seq<char>, text: Seq<char>) -> Result<
        D,
        ErrorModel,
    > {
        match json_decoding(text) {
            Err(e) => Err(deser("Failed to parse JSON: "@ + e)),
            Ok(doc) => match self.migrated(entity, doc) {
                Err(e) => Err(e),
                Ok(payload) => to_domain::<D>(payload),
            },
        }
    }

    /// The domain value loaded from JSON text, flat. The text is parsed before the
    /// entity is looked up.
    pub open spec fn loaded_text_flat<D: FromValue>(
        self,
        entity: Seq<char>,
        text: Seq<char>,
    ) -> Result<D, ErrorModel> {
        match json_decoding(text) {
            Err(e) => Err(deser("Failed to parse JSON: "@ + e)),
            Ok(doc) => match self.migrated_flat(entity, doc) {
                Err(e) => Err(e),
                Ok(payload) => to_domain::<D>(payload),
            },
        }
    }

    /// The text that a domain value of an entity is saved as, nested: the way back,
    /// then the wrapping under the path's field names.
    pub open spec fn saved_domain(self, entity: Seq<char>, written: Result<Json, Seq<char>>) -> Result<
        Seq<char>,
        ErrorModel,
    > {
        match self.saver(entity) {
            None => Err(no_saver(entity)),
            Some(saver) => match self.path(entity) {
                None => Err(no_path(entity)),
                Some(chain) => match written {
                    Err(e) => Err(ser("Failed to serialize entity: "@ + e)),
                    Ok(domain) => match (saver.reverse)(domain) {
                        Err(e) => Err(e),
                        Ok(latest) => encoded_text(
                            tagged(chain.version_key, saver.version, chain.data_key, latest),
                            "Failed to serialize wrapper: "@,
                        ),
                    },
                },
            },
        }
    }

    /// The text that a domain value of an entity is saved as, flat.
    pub open spec fn saved_domain_flat(
        self,
        entity: Seq<char>,
        written: Result<Json, Seq<char>>,
    ) -> Result<Seq<char>, ErrorModel> {
        match self.saver(entity) {
            None => Err(no_saver(entity)),
            Some(saver) => match self.path(entity) {
                None => Err(no_path(entity)),
                Some(chain) => match written {
                    Err(e) => Err(ser("Failed to serialize entity: "@ + e)),
                    Ok(domain) => match (saver.reverse)(domain) {
                        Err(e) => Err(e),
                        Ok(latest) => match stamped(latest, chain.version_key, saver.version) {
                            None => Err(not_an_object()),
                            Some(doc) => encoded_text(doc, "Failed to serialize flat format: "@),
                        },
                    },
                },
            },
        }
    }
}

/// The domain values of a list of documents, each nested or each flat, in order; the
/// first that fails fails the list.
pub open spec fn loaded_docs<D: FromValue>(
    m: MigratorModel,
    entity: Seq<char>,
    docs: Seq<Json>,
    flat: bool,
) -> Result<Seq<D>, ErrorModel>
    decreases docs.len(),
{
    if docs.len() == 0 {
        Ok(Seq::empty())
    } else {
        match loaded_docs::<D>(m, entity, docs.drop_last(), flat) {
            Err(e) => Err(e),
            Ok(done) => match (if flat {
                m.loaded_flat::<D>(entity, Ok(docs.last()))
            } else {
                m.loaded::<D>(entity, Ok(docs.last()))
            }) {
                Err(e) => Err(e),
                Ok(d) => Ok(done.push(d)),
            },
        }
    }
}

/// The complaint about a text that holds no list of documents.
pub open spec fn no_list(text: Seq<char>) -> ErrorModel {
    match json_list_decoding(text) {
        Err(e) => deser("Failed to parse JSON array: "@ + e),
        Ok(_) => deser("Failed to parse JSON array: "@),
    }
}

/// The domain values loaded from the text of a JSON array, each item nested or each
/// flat: the text is read as a document, as for a single load, and each item of the
/// array is then loaded as a single document is. The text is parsed before the entity
/// is looked up.
pub open spec fn loaded_text_all<D: FromValue>(
    m: MigratorModel,
    entity: Seq<char>,
    text: Seq<char>,
    flat: bool,
) -> Result<Seq<D>, ErrorModel> {
    match json_decoding(text) {
        Ok(Json::Array(docs)) => loaded_docs::<D>(m, entity, docs, flat),
        _ => Err(no_list(text)),
    }
}

/// The content of a result that carries text or an error.
pub open spec fn text_result(r: Result<String, MigrationError>) -> Result<Seq<char>, ErrorModel> {
    match r {
        Ok(s) => Ok(s@),
        Err(e) => Err(e@),
    }
}

/// Whether a list of values is the list or the error that a specification names.
pub open spec fn list_agrees<D>(r: Result<Vec<D>, MigrationError>, expected: Result<
    Seq<D>,
    ErrorModel,
>) -> bool {
    match r {
        Ok(items) => expected == Ok::<Seq<D>, ErrorModel>(items@),
        Err(e) => expected == Err::<Seq<D>, ErrorModel>(e@),
    }
}

} // verus!
