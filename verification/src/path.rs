//! Building a migration path: the earliest version, the steps, and the domain type.

use vstd::prelude::*;
use crate::text::{opt_text, texts};
use crate::traits::{FromDomain, FromValue, IntoDomain, MigratesTo, ToValue, Versioned};
use crate::transform::{
    finalize_link, finalize_model, reverse_link, reverse_model, step_link, step_model, Link,
    StepModel,
};
use std::marker::PhantomData;

verus! {

/// The content of a list of links.
pub open spec fn links(items: Seq<Link>) -> Seq<StepModel> {
    Seq::new(items.len(), |i: int| items[i]@)
}

/// A chain: the versions in order, the step that leaves each version but the last, the
/// last link into the domain, and the names of the version and data fields.
pub struct ChainModel {
    pub versions: Seq<Seq<char>>,
    pub steps: Seq<StepModel>,
    pub finalize: StepModel,
    pub version_key: Seq<char>,
    pub data_key: Seq<char>,
}

/// What a finished path holds: the chain with the field names that its first version
/// declares, the names given with `with_keys`, and the way back where saving by domain
/// value was asked for.
pub struct PathModel {
    pub entity: Seq<char>,
    pub chain: ChainModel,
    pub custom_version_key: Option<Seq<char>>,
    pub custom_data_key: Option<Seq<char>>,
    pub reverse: Option<SaverModel>,
}

/// The way back from a domain value: the link to the latest version's payload, and the
/// version that such a payload is tagged with.
pub struct SaverModel {
    pub version: Seq<char>,
    pub reverse: StepModel,
}

/// What a path under construction holds.
pub struct BuilderModel {
    pub entity: Seq<char>,
    pub versions: Seq<Seq<char>>,
    pub steps: Seq<StepModel>,
    pub version_key: Seq<char>,
    pub data_key: Seq<char>,
    pub custom_version_key: Option<Seq<char>>,
    pub custom_data_key: Option<Seq<char>>,
}

impl BuilderModel {
    /// The builder after a step to a version: one more version, one more link.
    pub open spec fn stepped(self, version: Seq<char>, step: StepModel) -> BuilderModel {
        BuilderModel {
            versions: self.versions.push(version),
            steps: self.steps.push(step),
            ..self
        }
    }

    /// The path that the builder finishes as.
    pub open spec fn finished(self, finalize: StepModel, reverse: Option<SaverModel>) -> PathModel {
        PathModel {
            entity: self.entity,
            chain: ChainModel {
                versions: self.versions,
                steps: self.steps,
                finalize,
                version_key: self.version_key,
                data_key: self.data_key,
            },
            custom_version_key: self.custom_version_key,
            custom_data_key: self.custom_data_key,
            reverse,
        }
    }
}

/// A registered migration path for one entity.
pub struct EntityMigrationPath {
    pub(crate) steps: Vec<Link>,
    pub(crate) finalize: Link,
    pub(crate) versions: Vec<String>,
    pub(crate) version_key: String,
    pub(crate) data_key: String,
}

impl View for EntityMigrationPath {
    type V = ChainModel;

    open(crate) spec fn view(&self) -> ChainModel {
        ChainModel {
            versions: texts(self.versions@),
            steps: links(self.steps@),
            finalize: self.finalize@,
            version_key: self.version_key@,
            data_key: self.data_key@,
        }
    }
}

/// Marker: no version has been declared yet.
pub struct Start;

/// Marker: the earliest version `V` has been declared.
pub struct HasFrom<V>(pub PhantomData<V>);

/// Marker: the chain has steps and currently ends at `V`.
pub struct HasSteps<V>(pub PhantomData<V>);

/// Builder for defining migration paths.
pub struct MigrationPathBuilder<State> {
    entity: String,
    steps: Vec<Link>,
    versions: Vec<String>,
    version_key: String,
    data_key: String,
    custom_version_key: Option<String>,
    custom_data_key: Option<String>,
    _state: PhantomData<State>,
}

impl<State> View for MigrationPathBuilder<State> {
    type V = BuilderModel;

    closed spec fn view(&self) -> BuilderModel {
        BuilderModel {
            entity: self.entity@,
            versions: texts(self.versions@),
            steps: links(self.steps@),
            version_key: self.version_key@,
            data_key: self.data_key@,
            custom_version_key: opt_text(self.custom_version_key),
            custom_data_key: opt_text(self.custom_data_key),
        }
    }
}

/// The way back from a domain value, held without its types.
pub struct Saver {
    pub(crate) version: String,
    pub(crate) link: Link,
}

impl View for Saver {
    type V = SaverModel;

    open(crate) spec fn view(&self) -> SaverModel {
        SaverModel { version: self.version@, reverse: self.link@ }
    }
}

/// A complete migration path from versioned shapes to the domain type `D`.
pub struct MigrationPath<D> {
    pub(crate) entity: String,
    pub(crate) inner: EntityMigrationPath,
    pub(crate) custom_version_key: Option<String>,
    pub(crate) custom_data_key: Option<String>,
    pub(crate) reverse: Option<Saver>,
    pub(crate) _phantom: PhantomData<D>,
}

/// The content of an optional way back.
pub open spec fn opt_saver(saver: Option<Saver>) -> Option<SaverModel> {
    match saver {
        Some(s) => Some(s@),
        None => None,
    }
}

impl<D> View for MigrationPath<D> {
    type V = PathModel;

    open(crate) spec fn view(&self) -> PathModel {
        PathModel {
            entity: self.entity@,
            chain: self.inner@,
            custom_version_key: opt_text(self.custom_version_key),
            custom_data_key: opt_text(self.custom_data_key),
            reverse: opt_saver(self.reverse),
        }
    }
}

impl MigrationPathBuilder<Start> {
    /// A builder for `entity` with no version yet and the usual field names.
    pub(crate) fn new(entity: String) -> (r: Self)
        ensures
            r@ == (BuilderModel {
                entity: entity@,
                versions: Seq::empty(),
                steps: Seq::empty(),
                version_key: "version"@,
                data_key: "data"@,
                custom_version_key: None,
                custom_data_key: None,
            }),
    {
        let r = Self {
            entity,
            steps: Vec::new(),
            versions: Vec::new(),
            version_key: String::from_str("version"),
            data_key: String::from_str("data"),
            custom_version_key: None,
            custom_data_key: None,
            _state: PhantomData,
        };
        assert(texts(r.versions@) =~= Seq::empty());
        assert(links(r.steps@) =~= Seq::empty());
        r
    }

    /// Overrides the names of the version and data fields for this path. These names
    /// win over the migrator's defaults and over what the version type declares.
    pub fn with_keys(self, version_key: &str, data_key: &str) -> (r: Self)
        ensures
            r@ == (BuilderModel {
                custom_version_key: Some(version_key@),
                custom_data_key: Some(data_key@),
                ..self@
            }),
    {
        let r = Self {
            entity: self.entity,
            steps: self.steps,
            versions: self.versions,
            version_key: self.version_key,
            data_key: self.data_key,
            custom_version_key: Some(String::from_str(version_key)),
            custom_data_key: Some(String::from_str(data_key)),
            _state: PhantomData,
        };
        r
    }

    /// Declares the earliest version of the path.
    pub fn from<V: Versioned + FromValue>(self) -> (r: MigrationPathBuilder<HasFrom<V>>)
        ensures
            r@ == (BuilderModel {
                versions: self@.versions.push(V::VERSION@),
                version_key: V::VERSION_KEY@,
                data_key: V::DATA_KEY@,
                ..self@
            }),
    {
        let ghost before = texts(self.versions@);
        let mut versions = self.versions;
        versions.push(String::from_str(V::VERSION));
        assert(texts(versions@) =~= before.push(V::VERSION@));
        MigrationPathBuilder {
            entity: self.entity,
            steps: self.steps,
            versions,
            version_key: String::from_str(V::VERSION_KEY),
            data_key: String::from_str(V::DATA_KEY),
            custom_version_key: self.custom_version_key,
            custom_data_key: self.custom_data_key,
            _state: PhantomData,
        }
    }
}

/// Adds the step from `V` to `Next` to a builder in any state.
fn add_step<
    State,
    V: Versioned + FromValue + MigratesTo<Next> + 'static,
    Next: Versioned + ToValue + 'static,
>(builder: MigrationPathBuilder<State>) -> (r: MigrationPathBuilder<HasSteps<Next>>)
    ensures
        r@ == builder@.stepped(Next::VERSION@, step_model::<V, Next>()),
{
    let ghost before_versions = texts(builder.versions@);
    let ghost before_steps = links(builder.steps@);
    let mut steps = builder.steps;
    let mut versions = builder.versions;
    steps.push(step_link::<V, Next>());
    versions.push(String::from_str(Next::VERSION));
    assert(texts(versions@) =~= before_versions.push(Next::VERSION@));
    assert(links(steps@) =~= before_steps.push(step_model::<V, Next>()));
    MigrationPathBuilder {
        entity: builder.entity,
        steps,
        versions,
        version_key: builder.version_key,
        data_key: builder.data_key,
        custom_version_key: builder.custom_version_key,
        custom_data_key: builder.custom_data_key,
        _state: PhantomData,
    }
}

/// Finishes a builder in any state with the last link and, where wanted, the way back.
fn finish<State, D>(builder: MigrationPathBuilder<State>, finalize: Link, reverse: Option<Saver>) -> (r:
    MigrationPath<D>)
    ensures
        r@ == builder@.finished(finalize@, opt_saver(reverse)),
{
    MigrationPath {
        entity: builder.entity,
        inner: EntityMigrationPath {
            steps: builder.steps,
            finalize,
            versions: builder.versions,
            version_key: builder.version_key,
            data_key: builder.data_key,
        },
        custom_version_key: builder.custom_version_key,
        custom_data_key: builder.custom_data_key,
        reverse,
        _phantom: PhantomData,
    }
}

impl<V: Versioned + FromValue + 'static> MigrationPathBuilder<HasFrom<V>> {
    /// Adds the step to the next version.
    pub fn step<Next: Versioned + FromValue + ToValue + 'static>(self) -> (r: MigrationPathBuilder<
        HasSteps<Next>,
    >) where V: MigratesTo<Next>
        ensures
            r@ == self@.stepped(Next::VERSION@, step_model::<V, Next>()),
    {
        add_step::<HasFrom<V>, V, Next>(self)
    }

    /// Finishes the path with the conversion into the domain type.
    pub fn into<D: FromValue + ToValue + 'static>(self) -> (r: MigrationPath<D>) where
        V: IntoDomain<D>,

        ensures
            r@ == self@.finished(finalize_model::<V, D>(), None),
    {
        finish(self, finalize_link::<V, D>(), None)
    }

    /// Finishes the path with the conversion into the domain type and the way back, so
    /// that domain values can later be saved by entity name.
    pub fn into_with_save<D: FromValue + ToValue + 'static>(self) -> (r: MigrationPath<D>) where
        V: IntoDomain<D> + FromDomain<D>,

        ensures
            r@ == self@.finished(
                finalize_model::<V, D>(),
                Some(SaverModel { version: V::VERSION@, reverse: reverse_model::<V, D>() }),
            ),
    {
        let saver = Saver { version: String::from_str(V::VERSION), link: reverse_link::<V, D>() };
        finish(self, finalize_link::<V, D>(), Some(saver))
    }
}

impl<V: Versioned + FromValue + 'static> MigrationPathBuilder<HasSteps<V>> {
    /// Adds the step to the next version.
    pub fn step<Next: Versioned + FromValue + ToValue + 'static>(self) -> (r: MigrationPathBuilder<
        HasSteps<Next>,
    >) where V: MigratesTo<Next>
        ensures
            r@ == self@.stepped(Next::VERSION@, step_model::<V, Next>()),
    {
        add_step::<HasSteps<V>, V, Next>(self)
    }

    /// Finishes the path with the conversion into the domain type.
    pub fn into<D: FromValue + ToValue + 'static>(self) -> (r: MigrationPath<D>) where
        V: IntoDomain<D>,

        ensures
            r@ == self@.finished(finalize_model::<V, D>(), None),
    {
        finish(self, finalize_link::<V, D>(), None)
    }

    /// Finishes the path with the conversion into the domain type and the way back, so
    /// that domain values can later be saved by entity name.
    pub fn into_with_save<D: FromValue + ToValue + 'static>(self) -> (r: MigrationPath<D>) where
        V: IntoDomain<D> + FromDomain<D>,

        ensures
            r@ == self@.finished(
                finalize_model::<V, D>(),
                Some(SaverModel { version: V::VERSION@, reverse: reverse_model::<V, D>() }),
            ),
    {
        let saver = Saver { version: String::from_str(V::VERSION), link: reverse_link::<V, D>() };
        finish(self, finalize_link::<V, D>(), Some(saver))
    }
}

} // verus!
