//! Access to named lists inside one larger document.

use vstd::prelude::*;
use crate::codec::{
    decode_json, encode_json, encode_json_pretty, json_decoding, json_encoding,
    json_pretty_encoding,
};
use crate::errors::{ErrorModel, MigrationError};
use crate::chain::{MigratorModel, deser, list_agrees, loaded_docs, ser, stamped, text_result};
use crate::migrator::{Migrator, lemma_loaded_nodes, stamp_flat};
use crate::text::concat3;
use crate::traits::{FromValue, Queryable, ToValue};
use crate::value::{entries_model, insert_entry, items_model, with_entry, Json, Node};

verus! {

/// What a partial-document accessor holds: the document and the migrator.
pub struct ConfigModel {
    pub root: Json,
    pub migrator: MigratorModel,
}

/// The member `key` of a document: null where the document is no object or lacks it.
pub open spec fn member(root: Json, key: Seq<char>) -> Json {
    match root.field(key) {
        Some(v) => v,
        None => Json::Null,
    }
}

/// The document with its member `key` set; a null document becomes an object.
pub open spec fn with_member(root: Json, key: Seq<char>, value: Json) -> Json {
    match root {
        Json::Object(entries) => Json::Object(with_entry(entries, key, value)),
        _ => Json::Object(with_entry(Seq::empty(), key, value)),
    }
}

/// One written item with the version set under the name `version`, where it is an
/// object; any other item as it is.
pub open spec fn versioned_item(written: Result<Json, Seq<char>>, version: Seq<char>) -> Result<
    Json,
    ErrorModel,
> {
    match written {
        Err(e) => Err(ser(e)),
        Ok(item) => match stamped(item, "version"@, version) {
            Some(doc) => Ok(doc),
            None => Ok(item),
        },
    }
}

/// The written items of a list with their version set, in order; the first that fails
/// fails the list.
pub open spec fn versioned_items<T: ToValue>(items: Seq<T>, version: Seq<char>) -> Result<
    Seq<Json>,
    ErrorModel,
>
    decreases items.len(),
{
    if items.len() == 0 {
        Ok(Seq::empty())
    } else {
        match versioned_items(items.drop_last(), version) {
            Err(e) => Err(e),
            Ok(done) => match versioned_item(items.last().encoded(), version) {
                Err(e) => Err(e),
                Ok(doc) => Ok(done.push(doc)),
            },
        }
    }
}

impl ConfigModel {
    /// The domain values under `key`: none for a missing or null member, the migrated
    /// items of a list, and a complaint for any other member.
    pub open spec fn queried<T: Queryable + FromValue>(self, key: Seq<char>) -> Result<
        Seq<T>,
        ErrorModel,
    > {
        match member(self.root, key) {
            Json::Null => Ok(Seq::empty()),
            Json::Array(docs) => loaded_docs::<T>(self.migrator, T::ENTITY_NAME@, docs, true),
            _ => Err(deser("Key '"@ + key + "' does not contain an array"@)),
        }
    }

    /// The accessor after the list under `key` was replaced by `items`, each stamped
    /// with the entity's latest version.
    pub open spec fn updated<T: Queryable + ToValue>(self, key: Seq<char>, items: Seq<T>) -> Result<
        ConfigModel,
        ErrorModel,
    > {
        match self.migrator.latest_version(T::ENTITY_NAME@) {
            None => Err(ErrorModel::EntityNotFound(T::ENTITY_NAME@)),
            Some(version) => match versioned_items(items, version) {
                Err(e) => Err(e),
                Ok(docs) => Ok(
                    ConfigModel { root: with_member(self.root, key, Json::Array(docs)), ..self },
                ),
            },
        }
    }
}

/// A whole document of which one named list at a time is read or replaced.
pub struct ConfigMigrator {
    root: Node,
    migrator: Migrator,
}

impl View for ConfigMigrator {
    type V = ConfigModel;

    closed spec fn view(&self) -> ConfigModel {
        ConfigModel { root: self.root@, migrator: self.migrator@ }
    }
}

/// Whether a result is the accessor or the error that a specification names.
pub open spec fn config_agrees(
    r: Result<ConfigMigrator, MigrationError>,
    expected: Result<ConfigModel, ErrorModel>,
) -> bool {
    match r {
        Ok(c) => expected == Ok::<ConfigModel, ErrorModel>(c@),
        Err(e) => expected == Err::<ConfigModel, ErrorModel>(e@),
    }
}

/// The accessor that a JSON text and a migrator make.
pub open spec fn config_from(text: Seq<char>, migrator: MigratorModel) -> Result<
    ConfigModel,
    ErrorModel,
> {
    match json_decoding(text) {
        Err(e) => Err(deser(e)),
        Ok(root) => Ok(ConfigModel { root, migrator }),
    }
}

impl ConfigMigrator {
    /// Creates an accessor over the document that a JSON string holds.
    pub fn from(json: &str, migrator: Migrator) -> (r: Result<Self, MigrationError>)
        ensures
            config_agrees(r, config_from(json@, migrator@)),
    {
        match decode_json(json) {
            Ok(root) => Ok(Self { root, migrator }),
            Err(e) => Err(MigrationError::DeserializationError(e)),
        }
    }

    /// Queries the list under `key`, migrating each item to the domain type whose
    /// entity name selects the path. A missing or null member gives no items.
    pub fn query<T: Queryable + FromValue>(&self, key: &str) -> (r: Result<Vec<T>, MigrationError>)
        ensures
            list_agrees(r, self@.queried::<T>(key@)),
    {
        let value = match self.root.get(key) {
            Some(v) => v,
            None => {
                return Ok(Vec::new());
            },
        };
        if value.is_null() {
            return Ok(Vec::new());
        }
        match value.as_array() {
            None => Err(
                MigrationError::DeserializationError(
                    concat3("Key '", key, "' does not contain an array"),
                ),
            ),
            Some(items) => {
                proof {
                    lemma_loaded_nodes::<T>(self.migrator@, T::ENTITY_NAME@, items@, true);
                }
                self.migrator.load_vec_flat_from_ref(T::ENTITY_NAME, items)
            },
        }
    }

    /// Replaces the list under `key` with `data`, each item stamped with the entity's
    /// latest version under the field name `version`, whatever field name the path
    /// resolved. Items that are no objects are stored as they are. On an error the
    /// document is unchanged.
    pub fn update<T: Queryable + ToValue>(&mut self, key: &str, data: Vec<T>) -> (r: Result<
        (),
        MigrationError,
    >)
        requires
            old(self)@.root is Object || old(self)@.root is Null,
        ensures
            match r {
                Ok(()) => old(self)@.updated::<T>(key@, data@) == Ok::<ConfigModel, ErrorModel>(
                    final(self)@,
                ),
                Err(e) => old(self)@.updated::<T>(key@, data@) == Err::<ConfigModel, ErrorModel>(
                    e@,
                ) && final(self)@ == old(self)@,
            },
    {
        let entity_name = T::ENTITY_NAME;
        let latest_version = match self.migrator.get_latest_version(entity_name) {
            Some(v) => String::from_str(v),
            None => {
                return Err(MigrationError::EntityNotFound(String::from_str(entity_name)));
            },
        };
        let mut items: Vec<Node> = Vec::new();
        let mut i: usize = 0;
        assert(items_model(items@) =~= Seq::empty());
        assert(data@.take(0).len() == 0);
        while i < data.len()
            invariant
                i <= data.len(),
                *self == *old(self),
                self@.migrator.latest_version(T::ENTITY_NAME@) == Some(latest_version@),
                versioned_items::<T>(data@.take(i as int), latest_version@) == Ok::<
                    Seq<Json>,
                    ErrorModel,
                >(items_model(items@)),
            decreases data.len() - i,
        {
            let ghost next = data@.take(i + 1);
            let ghost before = items_model(items@);
            assert(next.drop_last() =~= data@.take(i as int));
            assert(next.last() == data@[i as int]);
            let obj = match data[i].to_value() {
                Ok(v) => v,
                Err(e) => {
                    proof {
                        lemma_versioned_items_fails::<T>(data@, latest_version@, i as int);
                    }
                    return Err(MigrationError::SerializationError(e));
                },
            };
            let doc = match stamp_flat(&obj, "version", latest_version.as_str()) {
                Some(doc) => doc,
                None => obj,
            };
            items.push(doc);
            assert(items_model(items@) =~= before.push(doc@));
            i += 1;
        }
        assert(data@.take(data@.len() as int) =~= data@);
        let entries = match self.root.as_object() {
            Some(entries) => insert_entry(entries, key, Node::Array(items)),
            None => {
                let empty: Vec<(String, Node)> = Vec::new();
                assert(entries_model(empty@) =~= Seq::empty());
                insert_entry(&empty, key, Node::Array(items))
            },
        };
        self.root = Node::Object(entries);
        Ok(())
    }

    /// Writes the whole document as indented JSON.
    pub fn to_string(&self) -> (r: Result<String, MigrationError>)
        ensures
            text_result(r) == match json_pretty_encoding(self@.root) {
                Ok(text) => Ok::<Seq<char>, ErrorModel>(text),
                Err(e) => Err::<Seq<char>, ErrorModel>(ser(e)),
            },
    {
        match encode_json_pretty(&self.root) {
            Ok(text) => Ok(text),
            Err(e) => Err(MigrationError::SerializationError(e)),
        }
    }

    /// Writes the whole document as compact JSON.
    pub fn to_string_compact(&self) -> (r: Result<String, MigrationError>)
        ensures
            text_result(r) == match json_encoding(self@.root) {
                Ok(text) => Ok::<Seq<char>, ErrorModel>(text),
                Err(e) => Err::<Seq<char>, ErrorModel>(ser(e)),
            },
    {
        match encode_json(&self.root) {
            Ok(text) => Ok(text),
            Err(e) => Err(MigrationError::SerializationError(e)),
        }
    }

    /// The whole document.
    pub fn as_value(&self) -> (r: &Node)
        ensures
            r@ == self@.root,
    {
        &self.root
    }
}

proof fn lemma_versioned_items_fails<T: ToValue>(items: Seq<T>, version: Seq<char>, k: int)
    requires
        0 <= k < items.len(),
        versioned_items::<T>(items.take(k), version) is Ok,
        versioned_item(items[k].encoded(), version) is Err,
    ensures
        versioned_items::<T>(items, version) == Err::<Seq<Json>, ErrorModel>(
            versioned_item(items[k].encoded(), version)->Err_0,
        ),
{
    assert(items.take(k + 1).drop_last() =~= items.take(k));
    assert(items.take(k + 1).last() == items[k]);
    lemma_versioned_items_prefix::<T>(items, version, k + 1);
}

proof fn lemma_versioned_items_prefix<T: ToValue>(items: Seq<T>, version: Seq<char>, n: int)
    requires
        0 <= n <= items.len(),
        versioned_items::<T>(items.take(n), version) is Err,
    ensures
        versioned_items::<T>(items, version) == versioned_items::<T>(items.take(n), version),
    decreases items.len() - n,
{
    if n < items.len() {
        assert(items.take(n + 1).drop_last() =~= items.take(n));
        lemma_versioned_items_prefix::<T>(items, version, n + 1);
    } else {
        assert(items.take(n) =~= items);
    }
}

} // verus!
