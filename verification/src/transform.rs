//! The links of a migration chain: transforms on payloads, held without their types.

use vstd::prelude::*;
use crate::errors::{ErrorModel, MigrationError};
use crate::traits::{FromDomain, FromValue, IntoDomain, MigratesTo, ToValue, Versioned};
use crate::value::{Json, Node};
use std::marker::PhantomData;

verus! {

/// The content of a result that carries a node or an error.
pub open spec fn node_result(r: Result<Node, MigrationError>) -> Result<Json, ErrorModel> {
    match r {
        Ok(v) => Ok(v@),
        Err(e) => Err(e@),
    }
}

/// One link of a chain: a function from payload to payload that may fail.
pub type StepModel = spec_fn(Json) -> Result<Json, ErrorModel>;

/// A transform on payloads.
pub trait Transform {
    /// What [`apply`](Transform::apply) yields for a payload.
    spec fn output(&self, input: Json) -> Result<Json, ErrorModel>;

    /// Applies the transform.
    fn apply(&self, input: Node) -> (r: Result<Node, MigrationError>)
        ensures
            node_result(r) == self.output(input@),
    ;
}

/// A transform held without its types.
pub struct Link {
    pub run: Box<dyn Transform>,
}

impl View for Link {
    type V = StepModel;

    open spec fn view(&self) -> StepModel {
        |input: Json| self.run.output(input)
    }
}

impl Link {
    /// Applies the transform to a payload.
    pub fn apply(&self, input: Node) -> (r: Result<Node, MigrationError>)
        ensures
            node_result(r) == (self@)(input@),
    {
        self.run.apply(input)
    }
}

/// The step from version `V` to version `Next`: read a `V`, migrate it, write the `Next`.
pub open spec fn step_model<V, Next>() -> StepModel where
    V: Versioned + FromValue + MigratesTo<Next>,
    Next: Versioned + ToValue,
 {
    |input: Json|
        match V::decoded(input) {
            Err(e) => Err(
                ErrorModel::DeserializationError(
                    "Failed to deserialize version "@ + V::VERSION@ + ": "@ + e,
                ),
            ),
            Ok(from) => match from.migrated().encoded() {
                Ok(out) => Ok(out),
                Err(e) => Err(
                    ErrorModel::MigrationStepFailed {
                        from: V::VERSION@,
                        to: Next::VERSION@,
                        error: e,
                    },
                ),
            },
        }
}

/// The last link: read the latest version `V`, turn it into the domain value, write that.
pub open spec fn finalize_model<V, D>() -> StepModel where
    V: Versioned + FromValue + IntoDomain<D>,
    D: ToValue,
 {
    |input: Json|
        match V::decoded(input) {
            Err(e) => Err(
                ErrorModel::DeserializationError("Failed to deserialize final version: "@ + e),
            ),
            Ok(latest) => match latest.domain().encoded() {
                Ok(out) => Ok(out),
                Err(e) => Err(
                    ErrorModel::MigrationStepFailed {
                        from: V::VERSION@,
                        to: "domain"@,
                        error: e,
                    },
                ),
            },
        }
}

/// The way back: read a domain value, make the latest version `V` of it, write that.
pub open spec fn reverse_model<V, D>() -> StepModel where V: FromDomain<D>, D: FromValue {
    |input: Json|
        match D::decoded(input) {
            Err(e) => Err(ErrorModel::DeserializationError("Failed to deserialize domain: "@ + e)),
            Ok(domain) => match V::latest(domain).encoded() {
                Ok(out) => Ok(out),
                Err(e) => Err(ErrorModel::SerializationError("Failed to serialize latest: "@ + e)),
            },
        }
}

/// The step from `V` to `Next`, without a value of either.
pub struct StepFn<V, Next>(pub PhantomData<(V, Next)>);

impl<V, Next> Transform for StepFn<V, Next> where
    V: Versioned + FromValue + MigratesTo<Next>,
    Next: Versioned + ToValue,
 {
    open spec fn output(&self, input: Json) -> Result<Json, ErrorModel> {
        step_model::<V, Next>()(input)
    }

    fn apply(&self, input: Node) -> (r: Result<Node, MigrationError>) {
        match V::from_value(input) {
            Err(e) => {
                let mut msg = String::from_str("Failed to deserialize version ");
                msg.append(V::VERSION);
                msg.append(": ");
                msg.append(e.as_str());
                Err(MigrationError::DeserializationError(msg))
            },
            Ok(from) => {
                let to = from.migrate();
                match to.to_value() {
                    Ok(out) => Ok(out),
                    Err(e) => Err(
                        MigrationError::MigrationStepFailed {
                            from: String::from_str(V::VERSION),
                            to: String::from_str(Next::VERSION),
                            error: e,
                        },
                    ),
                }
            },
        }
    }
}

/// The last link from `V` to the domain type `D`, without a value of either.
pub struct FinalizeFn<V, D>(pub PhantomData<(V, D)>);

impl<V, D> Transform for FinalizeFn<V, D> where
    V: Versioned + FromValue + IntoDomain<D>,
    D: ToValue,
 {
    open spec fn output(&self, input: Json) -> Result<Json, ErrorModel> {
        finalize_model::<V, D>()(input)
    }

    fn apply(&self, input: Node) -> (r: Result<Node, MigrationError>) {
        match V::from_value(input) {
            Err(e) => {
                let mut msg = String::from_str("Failed to deserialize final version: ");
                msg.append(e.as_str());
                Err(MigrationError::DeserializationError(msg))
            },
            Ok(latest) => {
                let domain = latest.into_domain();
                match domain.to_value() {
                    Ok(out) => Ok(out),
                    Err(e) => Err(
                        MigrationError::MigrationStepFailed {
                            from: String::from_str(V::VERSION),
                            to: String::from_str("domain"),
                            error: e,
                        },
                    ),
                }
            },
        }
    }
}

/// The way back from the domain type `D` to its latest version `V`.
pub struct ReverseFn<V, D>(pub PhantomData<(V, D)>);

impl<V, D> Transform for ReverseFn<V, D> where V: FromDomain<D>, D: FromValue {
    open spec fn output(&self, input: Json) -> Result<Json, ErrorModel> {
        reverse_model::<V, D>()(input)
    }

    fn apply(&self, input: Node) -> (r: Result<Node, MigrationError>) {
        match D::from_value(input) {
            Err(e) => {
                let mut msg = String::from_str("Failed to deserialize domain: ");
                msg.append(e.as_str());
                Err(MigrationError::DeserializationError(msg))
            },
            Ok(domain) => {
                let latest = V::from_domain(domain);
                match latest.to_value() {
                    Ok(out) => Ok(out),
                    Err(e) => {
                        let mut msg = String::from_str("Failed to serialize latest: ");
                        msg.append(e.as_str());
                        Err(MigrationError::SerializationError(msg))
                    },
                }
            },
        }
    }
}

/// The step from `V` to `Next` as a link.
pub fn step_link<
    V: Versioned + FromValue + MigratesTo<Next> + 'static,
    Next: Versioned + ToValue + 'static,
>() -> (r: Link)
    ensures
        r@ == step_model::<V, Next>(),
{
    let link = Link { run: Box::new(StepFn::<V, Next>(PhantomData)) };
    assert(link@ =~= step_model::<V, Next>());
    link
}

/// The last link from `V` to `D` as a link.
pub fn finalize_link<
    V: Versioned + FromValue + IntoDomain<D> + 'static,
    D: ToValue + 'static,
>() -> (r: Link)
    ensures
        r@ == finalize_model::<V, D>(),
{
    let link = Link { run: Box::new(FinalizeFn::<V, D>(PhantomData)) };
    assert(link@ =~= finalize_model::<V, D>());
    link
}

/// The way back from `D` to `V` as a link.
pub fn reverse_link<V: FromDomain<D> + 'static, D: FromValue + 'static>() -> (r: Link)
    ensures
        r@ == reverse_model::<V, D>(),
{
    let link = Link { run: Box::new(ReverseFn::<V, D>(PhantomData)) };
    assert(link@ =~= reverse_model::<V, D>());
    link
}

} // verus!
