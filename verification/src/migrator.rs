//! The registry of migration paths, and loading and saving through it.

use vstd::prelude::*;
use crate::chain::{
    MigratorModel, agrees, encoded_text, entry_point, extract_flat, extract_nested, flat_item,
    flat_items, index_from, latest_all, list_agrees, loaded_all, loaded_docs, loaded_text_all,
    nested_item, nested_items, no_path, no_saver, run_steps, saved, saved_flat, saved_vec,
    saved_vec_flat, ser, stamped, tagged, text_result, to_domain, walk,
};
use crate::codec::{decode_json, decode_json_list, encode_json};
use crate::errors::{ErrorModel, MigrationError};
use crate::path::{
    BuilderModel, ChainModel, EntityMigrationPath, MigrationPath, MigrationPathBuilder, Saver,
    SaverModel, Start,
};
use crate::text::{
    concat2, concat3, last_named, lemma_map_without, lemma_replaced_distinct, map_named, named,
    names_distinct, opt_text, remove_named, same_text, texts, without_named,
};
use crate::traits::{FromDomain, FromValue, LatestVersioned, ToValue, Versioned};
use crate::transform::{node_result};
use crate::validate::{
    has_repeat, lemma_validation_sound, strictly_increasing, unit_result, validate_migration_path,
    validation,
};
use crate::value::{Json, Node, entries_model, insert_entry, items_model, remove_entries};

verus! {

/// The content of a list of registered paths.
pub open spec fn paths_model(paths: Seq<(String, EntityMigrationPath)>) -> Seq<
    (Seq<char>, ChainModel),
> {
    Seq::new(paths.len(), |i: int| (paths[i].0@, paths[i].1@))
}

/// The content of a list of registered ways back.
pub open spec fn savers_model(savers: Seq<(String, Saver)>) -> Seq<(Seq<char>, SaverModel)> {
    Seq::new(savers.len(), |i: int| (savers[i].0@, savers[i].1@))
}

/// The content of a list of paths is the content of each path under its name.
proof fn lemma_paths_named(paths: Seq<(String, EntityMigrationPath)>)
    ensures
        paths_model(paths) == map_named(named(paths), |p: EntityMigrationPath| p@),
{
    assert(paths_model(paths) =~= map_named(named(paths), |p: EntityMigrationPath| p@));
}

/// The content of a list of ways back is the content of each under its name.
proof fn lemma_savers_named(savers: Seq<(String, Saver)>)
    ensures
        savers_model(savers) == map_named(named(savers), |s: Saver| s@),
{
    assert(savers_model(savers) =~= map_named(named(savers), |s: Saver| s@));
}

/// The migration manager that orchestrates all migrations.
pub struct Migrator {
    paths: Vec<(String, EntityMigrationPath)>,
    default_version_key: Option<String>,
    default_data_key: Option<String>,
    domain_savers: Vec<(String, Saver)>,
}

impl View for Migrator {
    type V = MigratorModel;

    closed spec fn view(&self) -> MigratorModel {
        MigratorModel {
            paths: paths_model(self.paths@),
            savers: savers_model(self.domain_savers@),
            default_version_key: opt_text(self.default_version_key),
            default_data_key: opt_text(self.default_data_key),
        }
    }
}

/// The first position of `version` in the list.
fn position(versions: &Vec<String>, version: &str) -> (r: Option<usize>)
    ensures
        match r {
            Some(i) => index_from(texts(versions@), version@, 0) == Some(i as int) && i
                < versions.len(),
            None => index_from(texts(versions@), version@, 0) is None,
        },
{
    let mut i: usize = 0;
    while i < versions.len()
        invariant
            i <= versions.len(),
            index_from(texts(versions@), version@, 0) == index_from(
                texts(versions@),
                version@,
                i as int,
            ),
        decreases versions.len() - i,
    {
        assert(texts(versions@)[i as int] == versions@[i as int]@);
        if same_text(versions[i].as_str(), version) {
            return Some(i);
        }
        i += 1;
    }
    None
}

/// Walks a payload tagged `version` to the domain payload.
fn walk_chain(path: &EntityMigrationPath, version: &str, data: Node) -> (r: Result<
    Node,
    MigrationError,
>)
    ensures
        node_result(r) == walk(path@, version@, data@),
{
    let mut i: usize = match position(&path.versions, version) {
        Some(i) => i,
        None => path.steps.len(),
    };
    let mut current = data;
    while i < path.steps.len()
        invariant
            run_steps(path@.steps, entry_point(path@, version@), data@) == run_steps(
                path@.steps,
                i as int,
                current@,
            ),
        decreases path.steps.len() - i,
    {
        assert(path@.steps[i as int] == path.steps@[i as int]@);
        current = match path.steps[i].apply(current) {
            Ok(next) => next,
            Err(e) => {
                return Err(e);
            },
        };
        i += 1;
    }
    path.finalize.apply(current)
}

/// Splits a nested document into its version and payload.
fn split_nested(path: &EntityMigrationPath, doc: &Node) -> (r: Result<(String, Node), MigrationError>)
    ensures
        match r {
            Ok((version, data)) => extract_nested(path@, doc@) == Ok::<
                (Seq<char>, Json),
                ErrorModel,
            >((version@, data@)),
            Err(e) => extract_nested(path@, doc@) == Err::<(Seq<char>, Json), ErrorModel>(e@),
        },
{
    let entries = match doc.as_object() {
        Some(entries) => entries,
        None => {
            return Err(
                MigrationError::DeserializationError(
                    String::from_str("Expected object with version and data fields"),
                ),
            );
        },
    };
    let version = match doc.get(path.version_key.as_str()) {
        Some(Node::Text(v)) => v.clone(),
        _ => {
            return Err(
                MigrationError::DeserializationError(
                    concat3("Missing or invalid '", path.version_key.as_str(), "' field"),
                ),
            );
        },
    };
    match doc.get(path.data_key.as_str()) {
        Some(data) => Ok((version, data.clone())),
        None => Err(
            MigrationError::DeserializationError(
                concat3("Missing '", path.data_key.as_str(), "' field"),
            ),
        ),
    }
}

/// Splits a flat document into its version and the remaining fields.
fn split_flat(path: &EntityMigrationPath, doc: &Node) -> (r: Result<(String, Node), MigrationError>)
    ensures
        match r {
            Ok((version, data)) => extract_flat(path@, doc@) == Ok::<
                (Seq<char>, Json),
                ErrorModel,
            >((version@, data@)),
            Err(e) => extract_flat(path@, doc@) == Err::<(Seq<char>, Json), ErrorModel>(e@),
        },
{
    let entries = match doc.as_object() {
        Some(entries) => entries,
        None => {
            return Err(
                MigrationError::DeserializationError(
                    String::from_str("Expected object with version field at top level"),
                ),
            );
        },
    };
    let version = match doc.get(path.version_key.as_str()) {
        None => {
            return Err(
                MigrationError::DeserializationError(
                    concat3("Missing '", path.version_key.as_str(), "' field in flat format"),
                ),
            );
        },
        Some(Node::Text(v)) => v.clone(),
        Some(_) => {
            return Err(
                MigrationError::DeserializationError(
                    concat3("Invalid '", path.version_key.as_str(), "' field type"),
                ),
            );
        },
    };
    Ok((version, Node::Object(remove_entries(entries, path.version_key.as_str()))))
}

/// Reads the domain value from a domain payload.
fn convert_to_domain<D: FromValue>(payload: Node) -> (r: Result<D, MigrationError>)
    ensures
        agrees(r, to_domain::<D>(payload@)),
{
    match D::from_value(payload) {
        Ok(d) => Ok(d),
        Err(e) => Err(
            MigrationError::DeserializationError(concat2("Failed to convert to domain: ", e.as_str())),
        ),
    }
}

impl Migrator {
    /// Creates a new, empty migrator.
    pub fn new() -> (r: Self)
        ensures
            r@ == (MigratorModel {
                paths: Seq::empty(),
                savers: Seq::empty(),
                default_version_key: None,
                default_data_key: None,
            }),
            r@.distinct_names(),
    {
        let r = Self {
            paths: Vec::new(),
            default_version_key: None,
            default_data_key: None,
            domain_savers: Vec::new(),
        };
        assert(paths_model(r.paths@) =~= Seq::empty());
        assert(savers_model(r.domain_savers@) =~= Seq::empty());
        r
    }

    /// The chain registered for an entity.
    fn find_path(&self, entity: &str) -> (r: Option<&EntityMigrationPath>)
        ensures
            match r {
                Some(p) => self@.path(entity@) == Some(p@),
                None => self@.path(entity@) is None,
            },
    {
        let mut i: usize = self.paths.len();
        assert(paths_model(self.paths@).take(i as int) =~= paths_model(self.paths@));
        while i > 0
            invariant
                i <= self.paths.len(),
                self@.path(entity@) == last_named(paths_model(self.paths@).take(i as int), entity@),
            decreases i,
        {
            let ghost m = paths_model(self.paths@).take(i as int);
            assert(m.drop_last() =~= paths_model(self.paths@).take(i - 1));
            if same_text(self.paths[i - 1].0.as_str(), entity) {
                return Some(&self.paths[i - 1].1);
            }
            i -= 1;
        }
        None
    }

    /// The way back registered for an entity.
    fn find_saver(&self, entity: &str) -> (r: Option<&Saver>)
        ensures
            match r {
                Some(l) => self@.saver(entity@) == Some(l@),
                None => self@.saver(entity@) is None,
            },
    {
        let mut i: usize = self.domain_savers.len();
        assert(savers_model(self.domain_savers@).take(i as int) =~= savers_model(
            self.domain_savers@,
        ));
        while i > 0
            invariant
                i <= self.domain_savers.len(),
                self@.saver(entity@) == last_named(
                    savers_model(self.domain_savers@).take(i as int),
                    entity@,
                ),
            decreases i,
        {
            let ghost m = savers_model(self.domain_savers@).take(i as int);
            assert(m.drop_last() =~= savers_model(self.domain_savers@).take(i - 1));
            if same_text(self.domain_savers[i - 1].0.as_str(), entity) {
                return Some(&self.domain_savers[i - 1].1);
            }
            i -= 1;
        }
        None
    }

    /// Gets the latest version for a given entity: the last of its path, or nothing for
    /// an entity that is not registered.
    pub fn get_latest_version(&self, entity: &str) -> (r: Option<&str>)
        ensures
            match r {
                Some(v) => self@.latest_version(entity@) == Some(v@),
                None => self@.latest_version(entity@) is None,
            },
    {
        match self.find_path(entity) {
            Some(path) => {
                let n = path.versions.len();
                if n > 0 {
                    assert(texts(path.versions@).last() == path.versions@[n - 1]@);
                    Some(path.versions[n - 1].as_str())
                } else {
                    None
                }
            },
            None => None,
        }
    }

    /// Creates a builder for configuring the migrator.
    pub fn builder() -> (r: MigratorBuilder)
        ensures
            r.default_version_key is None,
            r.default_data_key is None,
    {
        MigratorBuilder::new()
    }

    /// Starts defining a migration path for an entity.
    pub fn define(entity: &str) -> (r: MigrationPathBuilder<Start>)
        ensures
            r@ == (BuilderModel {
                entity: entity@,
                versions: Seq::empty(),
                steps: Seq::empty(),
                version_key: "version"@,
                data_key: "data"@,
                custom_version_key: None,
                custom_data_key: None,
            }),
    {
        MigrationPathBuilder::new(String::from_str(entity))
    }

    /// Registers a migration path after validating it.
    ///
    /// Registration succeeds exactly when no version of the path repeats and every
    /// version is a semantic version strictly later than the one before it. A path that
    /// fails leaves the migrator as it was.
    pub fn register<D>(&mut self, path: MigrationPath<D>) -> (r: Result<(), MigrationError>)
        ensures
            unit_result(r) == validation(path@.entity, path@.chain.versions),
            r is Ok <==> !has_repeat(path@.chain.versions) && strictly_increasing(
                path@.chain.versions,
            ),
            r is Ok ==> final(self)@ == old(self)@.registered(path@),
            r is Err ==> final(self)@ == old(self)@,
            old(self)@.distinct_names() ==> final(self)@.distinct_names(),
    {
        proof {
            lemma_validation_sound(path@.entity, path@.chain.versions);
        }
        match validate_migration_path(path.entity.as_str(), &path.inner.versions) {
            Err(e) => {
                return Err(e);
            },
            Ok(()) => {},
        }
        let version_key = match path.custom_version_key {
            Some(k) => k,
            None => match &self.default_version_key {
                Some(k) => k.clone(),
                None => path.inner.version_key,
            },
        };
        let data_key = match path.custom_data_key {
            Some(k) => k,
            None => match &self.default_data_key {
                Some(k) => k.clone(),
                None => path.inner.data_key,
            },
        };
        let entity_name = path.entity.clone();
        let final_path = EntityMigrationPath {
            steps: path.inner.steps,
            finalize: path.inner.finalize,
            versions: path.inner.versions,
            version_key,
            data_key,
        };
        let ghost before_paths = paths_model(self.paths@);
        let ghost before_savers = savers_model(self.domain_savers@);
        assert(final_path@ == old(self)@.resolved(path@));
        proof {
            lemma_paths_named(self.paths@);
            lemma_map_without(
                named(self.paths@),
                |p: EntityMigrationPath| p@,
                entity_name@,
            );
            if names_distinct(before_paths) {
                lemma_replaced_distinct(before_paths, entity_name@, final_path@);
            }
        }
        remove_named(&mut self.paths, entity_name.as_str());
        proof {
            lemma_paths_named(self.paths@);
        }
        let ghost kept_paths = paths_model(self.paths@);
        assert(kept_paths == without_named(before_paths, entity_name@));
        self.paths.push((path.entity, final_path));
        assert(paths_model(self.paths@) =~= kept_paths.push(
            (path@.entity, old(self)@.resolved(path@)),
        ));
        match path.reverse {
            Some(saver) => {
                proof {
                    lemma_savers_named(self.domain_savers@);
                    lemma_map_without(named(self.domain_savers@), |s: Saver| s@, entity_name@);
                    if names_distinct(before_savers) {
                        lemma_replaced_distinct(before_savers, entity_name@, saver@);
                    }
                }
                remove_named(&mut self.domain_savers, entity_name.as_str());
                proof {
                    lemma_savers_named(self.domain_savers@);
                }
                let ghost kept_savers = savers_model(self.domain_savers@);
                assert(kept_savers == without_named(before_savers, entity_name@));
                self.domain_savers.push((entity_name, saver));
                assert(savers_model(self.domain_savers@) =~= kept_savers.push(
                    (path@.entity, saver@),
                ));
            },
            None => {},
        }
        Ok(())
    }

    /// Migrates a nested document of an entity to its domain payload.
    pub fn load_value(&self, entity: &str, doc: &Node) -> (r: Result<Node, MigrationError>)
        ensures
            node_result(r) == self@.migrated(entity@, doc@),
    {
        let path = match self.find_path(entity) {
            Some(p) => p,
            None => {
                return Err(MigrationError::EntityNotFound(String::from_str(entity)));
            },
        };
        match split_nested(path, doc) {
            Err(e) => Err(e),
            Ok((version, data)) => walk_chain(path, version.as_str(), data),
        }
    }

    /// Migrates a flat document of an entity to its domain payload.
    pub fn load_value_flat(&self, entity: &str, doc: &Node) -> (r: Result<Node, MigrationError>)
        ensures
            node_result(r) == self@.migrated_flat(entity@, doc@),
    {
        let path = match self.find_path(entity) {
            Some(p) => p,
            None => {
                return Err(MigrationError::EntityNotFound(String::from_str(entity)));
            },
        };
        match split_flat(path, doc) {
            Err(e) => Err(e),
            Ok((version, data)) => walk_chain(path, version.as_str(), data),
        }
    }

    /// Loads and migrates data that can be written as a node, in the nested shape.
    pub fn load_from<D: FromValue, T: ToValue>(&self, entity: &str, data: T) -> (r: Result<
        D,
        MigrationError,
    >)
        ensures
            agrees(r, self@.loaded::<D>(entity@, data.encoded())),
    {
        self.load_from_ref(entity, &data)
    }

    /// Loads and migrates data that can be written as a node, in the flat shape.
    pub fn load_flat_from<D: FromValue, T: ToValue>(&self, entity: &str, value: T) -> (r: Result<
        D,
        MigrationError,
    >)
        ensures
            agrees(r, self@.loaded_flat::<D>(entity@, value.encoded())),
    {
        self.load_flat_from_ref(entity, &value)
    }
}

/// Builder for a [`Migrator`] with default field names.
pub struct MigratorBuilder {
    pub default_version_key: Option<String>,
    pub default_data_key: Option<String>,
}

impl MigratorBuilder {
    /// A builder with no defaults set.
    pub fn new() -> (r: Self)
        ensures
            r.default_version_key is None,
            r.default_data_key is None,
    {
        Self { default_version_key: None, default_data_key: None }
    }

    /// Sets the default version field name for all entities. A path's own names win
    /// over it.
    pub fn default_version_key(self, key: &str) -> (r: Self)
        ensures
            opt_text(r.default_version_key) == Some(key@),
            r.default_data_key == self.default_data_key,
    {
        Self {
            default_version_key: Some(String::from_str(key)),
            default_data_key: self.default_data_key,
        }
    }

    /// Sets the default data field name for all entities. A path's own names win over
    /// it.
    pub fn default_data_key(self, key: &str) -> (r: Self)
        ensures
            opt_text(r.default_data_key) == Some(key@),
            r.default_version_key == self.default_version_key,
    {
        Self {
            default_version_key: self.default_version_key,
            default_data_key: Some(String::from_str(key)),
        }
    }

    /// Builds the migrator: no path yet, the defaults as set.
    pub fn build(self) -> (r: Migrator)
        ensures
            r@ == (MigratorModel {
                paths: Seq::empty(),
                savers: Seq::empty(),
                default_version_key: opt_text(self.default_version_key),
                default_data_key: opt_text(self.default_data_key),
            }),
            r@.distinct_names(),
    {
        let r = Migrator {
            paths: Vec::new(),
            default_version_key: self.default_version_key,
            default_data_key: self.default_data_key,
            domain_savers: Vec::new(),
        };
        assert(paths_model(r.paths@) =~= Seq::empty());
        assert(savers_model(r.domain_savers@) =~= Seq::empty());
        r
    }
}

/// Loading a list of nodes is loading the list of their contents.
pub proof fn lemma_loaded_nodes<D: FromValue>(
    m: MigratorModel,
    entity: Seq<char>,
    items: Seq<Node>,
    flat: bool,
)
    ensures
        loaded_all::<D, Node>(m, entity, items, flat) == loaded_docs::<D>(
            m,
            entity,
            items_model(items),
            flat,
        ),
    decreases items.len(),
{
    if items.len() > 0 {
        lemma_loaded_nodes::<D>(m, entity, items.drop_last(), flat);
        assert(items_model(items).drop_last() =~= items_model(items.drop_last()));
        assert(items_model(items).last() == items.last()@);
    }
}

/// Wraps a payload with its version.
pub fn wrap_nested(version_key: &str, version: &str, data_key: &str, data: Node) -> (r: Node)
    ensures
        r@ == tagged(version_key@, version@, data_key@, data@),
{
    let empty: Vec<(String, Node)> = Vec::new();
    assert(entries_model(empty@) =~= Seq::empty());
    let first = insert_entry(&empty, version_key, Node::text(version));
    let both = insert_entry(&first, data_key, data);
    Node::Object(both)
}

/// Sets the version field of an object beside its own fields.
pub fn stamp_flat(doc: &Node, version_key: &str, version: &str) -> (r: Option<Node>)
    ensures
        match r {
            Some(out) => stamped(doc@, version_key@, version@) == Some(out@),
            None => stamped(doc@, version_key@, version@) is None,
        },
{
    match doc.as_object() {
        Some(entries) => Some(Node::Object(insert_entry(entries, version_key, Node::text(version)))),
        None => None,
    }
}

/// Writes a document as JSON text; a failure is reported under `context`.
fn encode_with_context(doc: &Node, context: &str) -> (r: Result<String, MigrationError>)
    ensures
        text_result(r) == encoded_text(doc@, context@),
{
    match encode_json(doc) {
        Ok(text) => Ok(text),
        Err(e) => Err(MigrationError::SerializationError(concat2(context, e.as_str()))),
    }
}

/// Writes a value and wraps it with its version.
fn nest_item<T: ToValue>(
    item: &T,
    version_key: &str,
    version: &str,
    data_key: &str,
    context: &str,
) -> (r: Result<Node, MigrationError>)
    ensures
        node_result(r) == nested_item(
            item.encoded(),
            version_key@,
            version@,
            data_key@,
            context@,
        ),
{
    match item.to_value() {
        Err(e) => Err(MigrationError::SerializationError(concat2(context, e.as_str()))),
        Ok(data) => Ok(wrap_nested(version_key, version, data_key, data)),
    }
}

/// Writes a value and sets its version beside its fields.
fn flatten_item<T: ToValue>(item: &T, version_key: &str, version: &str, context: &str) -> (r: Result<
    Node,
    MigrationError,
>)
    ensures
        node_result(r) == flat_item(item.encoded(), version_key@, version@, context@),
{
    match item.to_value() {
        Err(e) => Err(MigrationError::SerializationError(concat2(context, e.as_str()))),
        Ok(data) => match stamp_flat(&data, version_key, version) {
            Some(doc) => Ok(doc),
            None => Err(
                MigrationError::SerializationError(
                    String::from_str("Data must serialize to a JSON object for flat format"),
                ),
            ),
        },
    }
}

/// Turns each domain value into its latest version, in order.
fn into_latest<E: LatestVersioned>(entities: Vec<E>) -> (r: Vec<E::Latest>)
    ensures
        r@ == latest_all::<E>(entities@),
{
    let ghost original = entities@;
    let mut rest = entities;
    let mut reversed: Vec<E::Latest> = Vec::new();
    while rest.len() > 0
        invariant
            rest@.len() + reversed@.len() == original.len(),
            rest@ == original.take(rest@.len() as int),
            forall|j: int|
                0 <= j < reversed@.len() ==> reversed@[j] == <E::Latest as FromDomain<E>>::latest(
                    original[original.len() - 1 - j],
                ),
        decreases rest.len(),
    {
        let ghost n = rest@.len();
        let e = rest.pop().unwrap();
        assert(rest@ =~= original.take(n - 1));
        reversed.push(e.to_latest());
    }
    let ghost all = reversed@;
    let mut out: Vec<E::Latest> = Vec::new();
    while reversed.len() > 0
        invariant
            all.len() == original.len(),
            out@.len() + reversed@.len() == original.len(),
            reversed@ == all.take(reversed@.len() as int),
            forall|j: int|
                0 <= j < all.len() ==> all[j] == <E::Latest as FromDomain<E>>::latest(
                    original[original.len() - 1 - j],
                ),
            forall|j: int|
                0 <= j < out@.len() ==> out@[j] == <E::Latest as FromDomain<E>>::latest(
                    original[j],
                ),
        decreases reversed.len(),
    {
        let ghost n = reversed@.len();
        let v = reversed.pop().unwrap();
        assert(reversed@ =~= all.take(n - 1));
        out.push(v);
    }
    assert(out@ =~= latest_all::<E>(original));
    out
}

impl Migrator {
    /// Loads and migrates data from a JSON string in the nested shape.
    pub fn load<D: FromValue>(&self, entity: &str, json: &str) -> (r: Result<D, MigrationError>)
        ensures
            agrees(r, self@.loaded_text::<D>(entity@, json@)),
    {
        let doc = match decode_json(json) {
            Ok(doc) => doc,
            Err(e) => {
                return Err(
                    MigrationError::DeserializationError(
                        concat2("Failed to parse JSON: ", e.as_str()),
                    ),
                );
            },
        };
        match self.load_value(entity, &doc) {
            Err(e) => Err(e),
            Ok(payload) => convert_to_domain::<D>(payload),
        }
    }

    /// Loads and migrates data from a JSON string in the flat shape.
    pub fn load_flat<D: FromValue>(&self, entity: &str, json: &str) -> (r: Result<
        D,
        MigrationError,
    >)
        ensures
            agrees(r, self@.loaded_text_flat::<D>(entity@, json@)),
    {
        let doc = match decode_json(json) {
            Ok(doc) => doc,
            Err(e) => {
                return Err(
                    MigrationError::DeserializationError(
                        concat2("Failed to parse JSON: ", e.as_str()),
                    ),
                );
            },
        };
        match self.load_value_flat(entity, &doc) {
            Err(e) => Err(e),
            Ok(payload) => convert_to_domain::<D>(payload),
        }
    }

    /// Loads and migrates each item of a list, nested or flat; the first item that
    /// fails fails the whole call.
    fn load_each<D: FromValue, T: ToValue>(&self, entity: &str, data: &Vec<T>, flat: bool) -> (r:
        Result<Vec<D>, MigrationError>)
        ensures
            list_agrees(r, loaded_all::<D, T>(self@, entity@, data@, flat)),
    {
        let mut out: Vec<D> = Vec::new();
        let mut i: usize = 0;
        while i < data.len()
            invariant
                i <= data.len(),
                loaded_all::<D, T>(self@, entity@, data@.take(i as int), flat) == Ok::<
                    Seq<D>,
                    ErrorModel,
                >(out@),
            decreases data.len() - i,
        {
            let ghost next = data@.take(i + 1);
            assert(next.drop_last() =~= data@.take(i as int));
            assert(next.last() == data@[i as int]);
            let loaded: Result<D, MigrationError> = if flat {
                self.load_flat_from_ref(entity, &data[i])
            } else {
                self.load_from_ref(entity, &data[i])
            };
            match loaded {
                Ok(d) => {
                    out.push(d);
                },
                Err(e) => {
                    proof {
                        lemma_loaded_all_fails::<D, T>(self@, entity@, data@, flat, i as int);
                    }
                    return Err(e);
                },
            }
            i += 1;
        }
        assert(data@.take(data@.len() as int) =~= data@);
        Ok(out)
    }

    /// Loads one borrowed input, nested.
    fn load_from_ref<D: FromValue, T: ToValue>(&self, entity: &str, data: &T) -> (r: Result<
        D,
        MigrationError,
    >)
        ensures
            agrees(r, self@.loaded::<D>(entity@, data.encoded())),
    {
        let doc = match data.to_value() {
            Ok(doc) => doc,
            Err(e) => {
                return Err(
                    MigrationError::DeserializationError(
                        concat2("Failed to convert input data to internal format: ", e.as_str()),
                    ),
                );
            },
        };
        match self.load_value(entity, &doc) {
            Err(e) => Err(e),
            Ok(payload) => convert_to_domain::<D>(payload),
        }
    }

    /// Loads one borrowed input, flat.
    fn load_flat_from_ref<D: FromValue, T: ToValue>(&self, entity: &str, value: &T) -> (r: Result<
        D,
        MigrationError,
    >)
        ensures
            agrees(r, self@.loaded_flat::<D>(entity@, value.encoded())),
    {
        if self.find_path(entity).is_none() {
            return Err(MigrationError::EntityNotFound(String::from_str(entity)));
        }
        let doc = match value.to_value() {
            Ok(doc) => doc,
            Err(e) => {
                return Err(
                    MigrationError::SerializationError(
                        concat2("Failed to convert input: ", e.as_str()),
                    ),
                );
            },
        };
        match self.load_value_flat(entity, &doc) {
            Err(e) => Err(e),
            Ok(payload) => convert_to_domain::<D>(payload),
        }
    }

    /// Loads and migrates multiple entities from a JSON array string, each nested; all or
    /// nothing.
    pub fn load_vec<D: FromValue>(&self, entity: &str, json: &str) -> (r: Result<
        Vec<D>,
        MigrationError,
    >)
        ensures
            list_agrees(r, loaded_text_all::<D>(self@, entity@, json@, false)),
    {
        let data = match decode_json_list(json) {
            Ok(items) => items,
            Err(e) => {
                return Err(
                    MigrationError::DeserializationError(
                        concat2("Failed to parse JSON array: ", e.as_str()),
                    ),
                );
            },
        };
        proof {
            lemma_loaded_nodes::<D>(self@, entity@, data@, false);
        }
        self.load_each(entity, &data, false)
    }

    /// Loads and migrates multiple entities from a JSON array string, each flat; all or
    /// nothing.
    pub fn load_vec_flat<D: FromValue>(&self, entity: &str, json: &str) -> (r: Result<
        Vec<D>,
        MigrationError,
    >)
        ensures
            list_agrees(r, loaded_text_all::<D>(self@, entity@, json@, true)),
    {
        let data = match decode_json_list(json) {
            Ok(items) => items,
            Err(e) => {
                return Err(
                    MigrationError::DeserializationError(
                        concat2("Failed to parse JSON array: ", e.as_str()),
                    ),
                );
            },
        };
        proof {
            lemma_loaded_nodes::<D>(self@, entity@, data@, true);
        }
        self.load_each(entity, &data, true)
    }

    /// Validates a version list: no version twice, and each a semantic version strictly
    /// later than the one before it.
    pub fn validate_migration_path(entity: &str, versions: &Vec<String>) -> (r: Result<
        (),
        MigrationError,
    >)
        ensures
            unit_result(r) == validation(entity@, texts(versions@)),
    {
        validate_migration_path(entity, versions)
    }

    /// The number of registered paths. A path registered under the name of an earlier
    /// one replaces it, so in a migrator that grew by registration this is the number of
    /// registered names.
    pub fn registered_count(&self) -> (r: usize)
        ensures
            r == self@.paths.len(),
    {
        self.paths.len()
    }

    /// Loads and migrates each of a borrowed list of flat inputs; all or nothing.
    pub(crate) fn load_vec_flat_from_ref<D: FromValue, T: ToValue>(
        &self,
        entity: &str,
        data: &Vec<T>,
    ) -> (r: Result<Vec<D>, MigrationError>)
        ensures
            list_agrees(r, loaded_all::<D, T>(self@, entity@, data@, true)),
    {
        self.load_each(entity, data, true)
    }

    /// Loads and migrates multiple entities, each nested; all or nothing.
    pub fn load_vec_from<D: FromValue, T: ToValue>(&self, entity: &str, data: Vec<T>) -> (r: Result<
        Vec<D>,
        MigrationError,
    >)
        ensures
            list_agrees(r, loaded_all::<D, T>(self@, entity@, data@, false)),
    {
        self.load_each(entity, &data, false)
    }

    /// Loads and migrates multiple entities, each flat; all or nothing.
    pub fn load_vec_flat_from<D: FromValue, T: ToValue>(&self, entity: &str, data: Vec<T>) -> (r:
        Result<Vec<D>, MigrationError>)
        ensures
            list_agrees(r, loaded_all::<D, T>(self@, entity@, data@, true)),
    {
        self.load_each(entity, &data, true)
    }

    /// Saves versioned data to a JSON string: the data under its data field, beside
    /// its version under the version field, with the field names that its type declares.
    pub fn save<T: Versioned + ToValue>(&self, data: T) -> (r: Result<String, MigrationError>)
        ensures
            text_result(r) == saved::<T>(data),
    {
        match nest_item(&data, T::VERSION_KEY, T::VERSION, T::DATA_KEY, "Failed to serialize data: ") {
            Err(e) => Err(e),
            Ok(doc) => encode_with_context(&doc, "Failed to serialize wrapper: "),
        }
    }

    /// Saves versioned data to a JSON string in the flat shape: the version field
    /// beside the data's own fields.
    pub fn save_flat<T: Versioned + ToValue>(&self, data: T) -> (r: Result<String, MigrationError>)
        ensures
            text_result(r) == saved_flat::<T>(data),
    {
        match flatten_item(&data, T::VERSION_KEY, T::VERSION, "Failed to serialize data: ") {
            Err(e) => Err(e),
            Ok(doc) => encode_with_context(&doc, "Failed to serialize flat format: "),
        }
    }

    /// Saves multiple versioned entities to a JSON array string; all or nothing.
    pub fn save_vec<T: Versioned + ToValue>(&self, data: Vec<T>) -> (r: Result<
        String,
        MigrationError,
    >)
        ensures
            text_result(r) == saved_vec::<T>(data@),
    {
        let mut docs: Vec<Node> = Vec::new();
        let mut i: usize = 0;
        assert(items_model(docs@) =~= Seq::empty());
        assert(data@.take(0).len() == 0);
        while i < data.len()
            invariant
                i <= data.len(),
                nested_items::<T>(data@.take(i as int)) == Ok::<Seq<Json>, ErrorModel>(
                    items_model(docs@),
                ),
            decreases data.len() - i,
        {
            let ghost next = data@.take(i + 1);
            let ghost before = items_model(docs@);
            assert(next.drop_last() =~= data@.take(i as int));
            assert(next.last() == data@[i as int]);
            match nest_item(
                &data[i],
                T::VERSION_KEY,
                T::VERSION,
                T::DATA_KEY,
                "Failed to serialize item: ",
            ) {
                Ok(doc) => {
                    docs.push(doc);
                    assert(items_model(docs@) =~= before.push(doc@));
                },
                Err(e) => {
                    proof {
                        lemma_nested_items_fails::<T>(data@, i as int);
                    }
                    return Err(e);
                },
            }
            i += 1;
        }
        assert(data@.take(data@.len() as int) =~= data@);
        encode_with_context(&Node::Array(docs), "Failed to serialize data array: ")
    }

    /// Saves multiple versioned entities to a JSON array string in the flat shape; all
    /// or nothing.
    pub fn save_vec_flat<T: Versioned + ToValue>(&self, data: Vec<T>) -> (r: Result<
        String,
        MigrationError,
    >)
        ensures
            text_result(r) == saved_vec_flat::<T>(data@),
    {
        let mut docs: Vec<Node> = Vec::new();
        let mut i: usize = 0;
        assert(items_model(docs@) =~= Seq::empty());
        assert(data@.take(0).len() == 0);
        while i < data.len()
            invariant
                i <= data.len(),
                flat_items::<T>(data@.take(i as int)) == Ok::<Seq<Json>, ErrorModel>(
                    items_model(docs@),
                ),
            decreases data.len() - i,
        {
            let ghost next = data@.take(i + 1);
            let ghost before = items_model(docs@);
            assert(next.drop_last() =~= data@.take(i as int));
            assert(next.last() == data@[i as int]);
            match flatten_item(&data[i], T::VERSION_KEY, T::VERSION, "Failed to serialize item: ") {
                Ok(doc) => {
                    docs.push(doc);
                    assert(items_model(docs@) =~= before.push(doc@));
                },
                Err(e) => {
                    proof {
                        lemma_flat_items_fails::<T>(data@, i as int);
                    }
                    return Err(e);
                },
            }
            i += 1;
        }
        assert(data@.take(data@.len() as int) =~= data@);
        encode_with_context(&Node::Array(docs), "Failed to serialize flat data array: ")
    }

    /// Saves a domain entity through its latest version.
    pub fn save_entity<E: LatestVersioned>(&self, entity: E) -> (r: Result<String, MigrationError>)
        ensures
            text_result(r) == saved::<E::Latest>(
                <E::Latest as FromDomain<E>>::latest(entity),
            ),
    {
        let latest = entity.to_latest();
        self.save(latest)
    }

    /// Saves a domain entity through its latest version, in the flat shape.
    pub fn save_entity_flat<E: LatestVersioned>(&self, entity: E) -> (r: Result<
        String,
        MigrationError,
    >)
        ensures
            text_result(r) == saved_flat::<E::Latest>(
                <E::Latest as FromDomain<E>>::latest(entity),
            ),
    {
        let latest = entity.to_latest();
        self.save_flat(latest)
    }

    /// Saves multiple domain entities through their latest versions.
    pub fn save_entity_vec<E: LatestVersioned>(&self, entities: Vec<E>) -> (r: Result<
        String,
        MigrationError,
    >)
        ensures
            text_result(r) == saved_vec::<E::Latest>(latest_all::<E>(entities@)),
    {
        let versioned = into_latest(entities);
        self.save_vec(versioned)
    }

    /// Saves multiple domain entities through their latest versions, in the flat shape.
    pub fn save_entity_vec_flat<E: LatestVersioned>(&self, entities: Vec<E>) -> (r: Result<
        String,
        MigrationError,
    >)
        ensures
            text_result(r) == saved_vec_flat::<E::Latest>(latest_all::<E>(entities@)),
    {
        let versioned = into_latest(entities);
        self.save_vec_flat(versioned)
    }

    /// The payload of a domain value's latest version and the path and version to save
    /// it under.
    fn reverse_domain<T: ToValue>(&self, entity_name: &str, entity: &T) -> (r: Result<
        (Node, &EntityMigrationPath, &Saver),
        MigrationError,
    >)
        ensures
            match r {
                Ok((latest, path, saver)) => self@.saver(entity_name@) == Some(saver@)
                    && self@.path(entity_name@) == Some(path@) && entity.encoded() is Ok && (
                saver@.reverse)(entity.encoded()->Ok_0) == Ok::<Json, ErrorModel>(latest@),
                Err(e) => match self@.saver(entity_name@) {
                    None => e@ == no_saver(entity_name@),
                    Some(saver) => match self@.path(entity_name@) {
                        None => e@ == no_path(entity_name@),
                        Some(chain) => match entity.encoded() {
                            Err(m) => e@ == ser("Failed to serialize entity: "@ + m),
                            Ok(domain) => (saver.reverse)(domain) == Err::<Json, ErrorModel>(e@),
                        },
                    },
                },
            },
    {
        let saver = match self.find_saver(entity_name) {
            Some(s) => s,
            None => {
                return Err(
                    MigrationError::EntityNotFound(
                        concat3(
                            "Entity '",
                            entity_name,
                            "' is not registered with domain save support. Use into_with_save() when defining the migration path.",
                        ),
                    ),
                );
            },
        };
        let path = match self.find_path(entity_name) {
            Some(p) => p,
            None => {
                return Err(
                    MigrationError::EntityNotFound(
                        concat3("Entity '", entity_name, "' is not registered"),
                    ),
                );
            },
        };
        let domain_value = match entity.to_value() {
            Ok(v) => v,
            Err(e) => {
                return Err(
                    MigrationError::SerializationError(
                        concat2("Failed to serialize entity: ", e.as_str()),
                    ),
                );
            },
        };
        match saver.link.apply(domain_value) {
            Ok(latest) => Ok((latest, path, saver)),
            Err(e) => Err(e),
        }
    }

    /// Saves a domain entity by entity name, through the way back that its path was
    /// registered with, under the path's field names.
    pub fn save_domain<T: ToValue>(&self, entity_name: &str, entity: T) -> (r: Result<
        String,
        MigrationError,
    >)
        ensures
            text_result(r) == self@.saved_domain(entity_name@, entity.encoded()),
    {
        match self.reverse_domain(entity_name, &entity) {
            Err(e) => Err(e),
            Ok((latest, path, saver)) => {
                let doc = wrap_nested(
                    path.version_key.as_str(),
                    saver.version.as_str(),
                    path.data_key.as_str(),
                    latest,
                );
                encode_with_context(&doc, "Failed to serialize wrapper: ")
            },
        }
    }

    /// Saves a domain entity by entity name in the flat shape.
    pub fn save_domain_flat<T: ToValue>(&self, entity_name: &str, entity: T) -> (r: Result<
        String,
        MigrationError,
    >)
        ensures
            text_result(r) == self@.saved_domain_flat(entity_name@, entity.encoded()),
    {
        match self.reverse_domain(entity_name, &entity) {
            Err(e) => Err(e),
            Ok((latest, path, saver)) => {
                match stamp_flat(&latest, path.version_key.as_str(), saver.version.as_str()) {
                    None => Err(
                        MigrationError::SerializationError(
                            String::from_str("Data must serialize to a JSON object for flat format"),
                        ),
                    ),
                    Some(doc) => encode_with_context(&doc, "Failed to serialize flat format: "),
                }
            },
        }
    }
}

impl Default for Migrator {
    fn default() -> (r: Self)
        ensures
            r@ == (MigratorModel {
                paths: Seq::empty(),
                savers: Seq::empty(),
                default_version_key: None,
                default_data_key: None,
            }),
            r@.distinct_names(),
    {
        Self::new()
    }
}

/// A list whose item at `k` fails after every earlier item passed fails with that
/// item's error.
proof fn lemma_nested_items_fails<T: Versioned + ToValue>(items: Seq<T>, k: int)
    requires
        0 <= k < items.len(),
        nested_items::<T>(items.take(k)) is Ok,
        nested_item(
            items[k].encoded(),
            T::VERSION_KEY@,
            T::VERSION@,
            T::DATA_KEY@,
            "Failed to serialize item: "@,
        ) is Err,
    ensures
        nested_items::<T>(items) == Err::<Seq<Json>, ErrorModel>(
            nested_item(
                items[k].encoded(),
                T::VERSION_KEY@,
                T::VERSION@,
                T::DATA_KEY@,
                "Failed to serialize item: "@,
            )->Err_0,
        ),
    decreases items.len() - k,
{
    assert(items.take(k + 1).drop_last() =~= items.take(k));
    assert(items.take(k + 1).last() == items[k]);
    lemma_nested_items_prefix::<T>(items, k + 1);
}

/// A failure of a prefix is the failure of the whole list.
proof fn lemma_nested_items_prefix<T: Versioned + ToValue>(items: Seq<T>, n: int)
    requires
        0 <= n <= items.len(),
        nested_items::<T>(items.take(n)) is Err,
    ensures
        nested_items::<T>(items) == nested_items::<T>(items.take(n)),
    decreases items.len() - n,
{
    if n < items.len() {
        assert(items.take(n + 1).drop_last() =~= items.take(n));
        lemma_nested_items_prefix::<T>(items, n + 1);
    } else {
        assert(items.take(n) =~= items);
    }
}

proof fn lemma_flat_items_fails<T: Versioned + ToValue>(items: Seq<T>, k: int)
    requires
        0 <= k < items.len(),
        flat_items::<T>(items.take(k)) is Ok,
        flat_item(items[k].encoded(), T::VERSION_KEY@, T::VERSION@, "Failed to serialize item: "@)
            is Err,
    ensures
        flat_items::<T>(items) == Err::<Seq<Json>, ErrorModel>(
            flat_item(
                items[k].encoded(),
                T::VERSION_KEY@,
                T::VERSION@,
                "Failed to serialize item: "@,
            )->Err_0,
        ),
{
    assert(items.take(k + 1).drop_last() =~= items.take(k));
    assert(items.take(k + 1).last() == items[k]);
    lemma_flat_items_prefix::<T>(items, k + 1);
}

proof fn lemma_flat_items_prefix<T: Versioned + ToValue>(items: Seq<T>, n: int)
    requires
        0 <= n <= items.len(),
        flat_items::<T>(items.take(n)) is Err,
    ensures
        flat_items::<T>(items) == flat_items::<T>(items.take(n)),
    decreases items.len() - n,
{
    if n < items.len() {
        assert(items.take(n + 1).drop_last() =~= items.take(n));
        lemma_flat_items_prefix::<T>(items, n + 1);
    } else {
        assert(items.take(n) =~= items);
    }
}

proof fn lemma_loaded_all_fails<D: FromValue, T: ToValue>(
    m: MigratorModel,
    entity: Seq<char>,
    items: Seq<T>,
    flat: bool,
    k: int,
)
    requires
        0 <= k < items.len(),
        loaded_all::<D, T>(m, entity, items.take(k), flat) is Ok,
        (if flat {
            m.loaded_flat::<D>(entity, items[k].encoded())
        } else {
            m.loaded::<D>(entity, items[k].encoded())
        }) is Err,
    ensures
        loaded_all::<D, T>(m, entity, items, flat) == Err::<Seq<D>, ErrorModel>(
            (if flat {
                m.loaded_flat::<D>(entity, items[k].encoded())
            } else {
                m.loaded::<D>(entity, items[k].encoded())
            })->Err_0,
        ),
{
    assert(items.take(k + 1).drop_last() =~= items.take(k));
    assert(items.take(k + 1).last() == items[k]);
    lemma_loaded_all_prefix::<D, T>(m, entity, items, flat, k + 1);
}

proof fn lemma_loaded_all_prefix<D: FromValue, T: ToValue>(
    m: MigratorModel,
    entity: Seq<char>,
    items: Seq<T>,
    flat: bool,
    n: int,
)
    requires
        0 <= n <= items.len(),
        loaded_all::<D, T>(m, entity, items.take(n), flat) is Err,
    ensures
        loaded_all::<D, T>(m, entity, items, flat) == loaded_all::<D, T>(
            m,
            entity,
            items.take(n),
            flat,
        ),
    decreases items.len() - n,
{
    if n < items.len() {
        assert(items.take(n + 1).drop_last() =~= items.take(n));
        lemma_loaded_all_prefix::<D, T>(m, entity, items, flat, n + 1);
    } else {
        assert(items.take(n) =~= items);
    }
}

} // verus!
