//! What a versioned type and a domain type tell the migrator about themselves.
//!
//! Each conversion is a function of its argument alone, and each trait names that
//! function in specifications: `encoded` for `to_value`, `decoded` for `from_value`,
//! and so on. A type that is verified defines the name; for any other type it stays
//! what it is here, some function that nothing more is known of. What the migrator
//! promises is stated over these names, so it holds of an implementation as far as the
//! implementation is such a function: the same argument, the same result.

use vstd::prelude::*;
use crate::value::{Json, Node};

verus! {

/// A type that is one version of an entity's stored shape.
pub trait Versioned {
    /// The semantic version of this shape.
    const VERSION: &'static str;

    /// The name of the field that holds the version in stored data.
    const VERSION_KEY: &'static str = "version";

    /// The name of the field that holds the payload in stored data.
    const DATA_KEY: &'static str = "data";
}

/// A type that can be written as a [`Node`].
pub trait ToValue: Sized {
    /// What [`to_value`](ToValue::to_value) yields: the content, or a message.
    open spec fn encoded(&self) -> Result<Json, Seq<char>> {
        arbitrary::<spec_fn(Self) -> Result<Json, Seq<char>>>()(*self)
    }

    /// Writes the value as a node. The result depends on the value alone.
    fn to_value(&self) -> (r: Result<Node, String>)
        ensures
            match r {
                Ok(v) => self.encoded() == Ok::<Json, Seq<char>>(v@),
                Err(e) => self.encoded() == Err::<Json, Seq<char>>(e@),
            },
    ;
}

/// A type that can be read from a [`Node`].
pub trait FromValue: Sized {
    /// What [`from_value`](FromValue::from_value) yields for a content: the value, or a
    /// message.
    open spec fn decoded(value: Json) -> Result<Self, Seq<char>> {
        arbitrary::<spec_fn(Json) -> Result<Self, Seq<char>>>()(value)
    }

    /// Reads the value from a node. The result depends on the node's content alone.
    fn from_value(value: Node) -> (r: Result<Self, String>)
        ensures
            match r {
                Ok(x) => Self::decoded(value@) == Ok::<Self, Seq<char>>(x),
                Err(e) => Self::decoded(value@) == Err::<Self, Seq<char>>(e@),
            },
    ;
}

/// A version that knows how to become the next one.
pub trait MigratesTo<T: Versioned>: Versioned + Sized {
    /// What [`migrate`](MigratesTo::migrate) yields.
    open spec fn migrated(self) -> T {
        arbitrary::<spec_fn(Self) -> T>()(self)
    }

    /// Turns this version into the next. Total, and a function of the value alone.
    fn migrate(self) -> (r: T)
        ensures
            r == self.migrated(),
    ;
}

/// The latest version, which knows how to become the domain type.
pub trait IntoDomain<D>: Versioned + Sized {
    /// What [`into_domain`](IntoDomain::into_domain) yields.
    open spec fn domain(self) -> D {
        arbitrary::<spec_fn(Self) -> D>()(self)
    }

    /// Turns the latest version into the domain value.
    fn into_domain(self) -> (r: D)
        ensures
            r == self.domain(),
    ;
}

/// The latest version, which can be made from the domain type.
pub trait FromDomain<D>: Versioned + ToValue + Sized {
    /// What [`from_domain`](FromDomain::from_domain) yields.
    open spec fn latest(domain: D) -> Self {
        arbitrary::<spec_fn(D) -> Self>()(domain)
    }

    /// Makes the latest version from a domain value.
    fn from_domain(domain: D) -> (r: Self)
        ensures
            r == Self::latest(domain),
    ;
}

/// A domain type that names its latest version and its entity.
pub trait LatestVersioned: Sized {
    /// The latest versioned shape of this entity.
    type Latest: Versioned + ToValue + FromDomain<Self>;

    /// The entity name that paths are registered under.
    const ENTITY_NAME: &'static str;

    /// Whether saving by domain value is wanted for this entity.
    const SAVE: bool = false;

    /// The latest version of this value.
    fn to_latest(self) -> (r: Self::Latest)
        ensures
            r == <Self::Latest as FromDomain<Self>>::latest(self),
    {
        Self::Latest::from_domain(self)
    }
}

/// A domain type that can be asked for by its entity name.
pub trait Queryable {
    /// The entity name that selects the migration path.
    const ENTITY_NAME: &'static str;
}

/// A payload paired with the version it was written at.
#[derive(Debug, Clone)]
pub struct VersionedWrapper<T> {
    /// The semantic version of the data.
    pub version: String,
    /// The payload.
    pub data: T,
}

impl<T> VersionedWrapper<T> {
    /// Pairs `data` with an explicit version.
    pub fn new(version: String, data: T) -> (r: Self)
        ensures
            r.version == version,
            r.data == data,
    {
        Self { version, data }
    }
}

impl<T: ToValue> ToValue for VersionedWrapper<T> {
    open spec fn encoded(&self) -> Result<Json, Seq<char>> {
        match self.data.encoded() {
            Err(e) => Err(e),
            Ok(data) => Ok(
                Json::Object(seq![("version"@, Json::Text(self.version@)), ("data"@, data)]),
            ),
        }
    }

    fn to_value(&self) -> (r: Result<Node, String>) {
        match self.data.to_value() {
            Err(e) => Err(e),
            Ok(data) => {
                let mut entries: Vec<(String, Node)> = Vec::new();
                entries.push((String::from_str("version"), Node::Text(self.version.clone())));
                entries.push((String::from_str("data"), data));
                assert(crate::value::entries_model(entries@) =~= seq![
                    ("version"@, Json::Text(self.version@)),
                    ("data"@, data@),
                ]);
                Ok(Node::Object(entries))
            },
        }
    }
}

impl<T: FromValue> VersionedWrapper<T> {
    /// Reads a wrapper from an object that holds the version as text under `version` and
    /// the payload under `data`.
    pub fn from_node(value: Node) -> (r: Result<Self, String>)
        ensures
            match r {
                Ok(w) => {
                    &&& value@.field("version"@) == Some(Json::Text(w.version@))
                    &&& value@.field("data"@) is Some
                    &&& T::decoded(value@.field("data"@)->0) == Ok::<T, Seq<char>>(w.data)
                },
                Err(e) => match value@.field("version"@) {
                    Some(Json::Text(_)) => match value@.field("data"@) {
                        Some(data) => T::decoded(data) == Err::<T, Seq<char>>(e@),
                        None => e@ == "missing field `data`"@,
                    },
                    Some(_) => e@ == "invalid type: expected a string"@,
                    None => e@ == "missing field `version`"@,
                },
            },
    {
        let version = match value.get("version") {
            Some(Node::Text(v)) => v.clone(),
            Some(_) => {
                return Err(String::from_str("invalid type: expected a string"));
            },
            None => {
                return Err(String::from_str("missing field `version`"));
            },
        };
        match value.get("data") {
            None => Err(String::from_str("missing field `data`")),
            Some(data) => match T::from_value(data.clone()) {
                Ok(data) => Ok(Self { version, data }),
                Err(e) => Err(e),
            },
        }
    }
}

impl<T: Versioned> VersionedWrapper<T> {
    /// Pairs `data` with the version that its type declares.
    pub fn from_versioned(data: T) -> (r: Self)
        ensures
            r.version@ == T::VERSION@,
            r.data == data,
    {
        Self { version: String::from_str(T::VERSION), data }
    }
}

} // verus!
