//! What holds of loading and saving whatever the paths and the data are.

use vstd::prelude::*;
use crate::codec::json_decoding;
use crate::errors::ErrorModel;
use crate::chain::{
    MigratorModel, entry_point, extract_nested, index_from, migrate_nested, run_steps, tagged,
    walk,
};
use crate::path::{BuilderModel, ChainModel, PathModel, SaverModel};
use crate::text::{lemma_replaced_distinct, lemma_replaced_named};
use crate::traits::{FromDomain, FromValue, IntoDomain, ToValue, Versioned};
use crate::transform::{finalize_model, reverse_model, StepModel};
use crate::validate::has_repeat;
use crate::value::{lemma_with_entry, with_entry, Json};

verus! {

/// Running the steps from `from` on is running those below `to` first and the rest on
/// what they yield.
pub proof fn lemma_run_steps_split(steps: Seq<StepModel>, from: int, to: int, data: Json)
    requires
        0 <= from <= to <= steps.len(),
    ensures
        run_steps(steps, from, data) == match run_steps(steps.take(to), from, data) {
            Ok(mid) => run_steps(steps, to, mid),
            Err(e) => Err(e),
        },
    decreases to - from,
{
    if from < to {
        assert(steps.take(to)[from] == steps[from]);
        match (steps[from])(data) {
            Ok(next) => {
                lemma_run_steps_split(steps, from + 1, to, next);
            },
            Err(_) => {},
        }
    }
}

/// In a list without repeats each version is found at its own place.
pub proof fn lemma_index_of_distinct(versions: Seq<Seq<char>>, k: int, start: int)
    requires
        !has_repeat(versions),
        0 <= start <= k < versions.len(),
    ensures
        index_from(versions, versions[k], start) == Some(k),
    decreases k - start,
{
    if start < k {
        assert(versions[start] != versions[k]);
        lemma_index_of_distinct(versions, k, start + 1);
    }
}

/// A wrapped payload is split into the version and the payload it was wrapped from.
pub proof fn lemma_extract_tagged(chain: ChainModel, version: Seq<char>, data: Json)
    requires
        chain.version_key != chain.data_key,
    ensures
        extract_nested(chain, tagged(chain.version_key, version, chain.data_key, data)) == Ok::<
            (Seq<char>, Json),
            ErrorModel,
        >((version, data)),
{
    let first = with_entry(Seq::empty(), chain.version_key, Json::Text(version));
    lemma_with_entry(
        Seq::empty(),
        chain.version_key,
        Json::Text(version),
        chain.data_key,
    );
    lemma_with_entry(first, chain.data_key, data, chain.version_key);
}

/// Chain equivalence: a payload tagged at the earliest version, and what the first `k`
/// steps make of it tagged at version `k`, load to the same result.
pub proof fn lemma_chain_equivalence(chain: ChainModel, k: int, data: Json, mid: Json)
    requires
        !has_repeat(chain.versions),
        0 <= k < chain.versions.len(),
        k <= chain.steps.len(),
        run_steps(chain.steps.take(k), 0, data) == Ok::<Json, ErrorModel>(mid),
    ensures
        walk(chain, chain.versions[0], data) == walk(chain, chain.versions[k], mid),
        chain.version_key != chain.data_key ==> migrate_nested(
            chain,
            tagged(chain.version_key, chain.versions[0], chain.data_key, data),
        ) == migrate_nested(
            chain,
            tagged(chain.version_key, chain.versions[k], chain.data_key, mid),
        ),
{
    lemma_index_of_distinct(chain.versions, 0, 0);
    lemma_index_of_distinct(chain.versions, k, 0);
    lemma_run_steps_split(chain.steps, 0, k, data);
    if chain.version_key != chain.data_key {
        lemma_extract_tagged(chain, chain.versions[0], data);
        lemma_extract_tagged(chain, chain.versions[k], mid);
    }
}

/// Loading never surfaces an intermediate version: whatever a load yields is what the
/// last link made of the payload that the steps arrived at.
pub proof fn lemma_load_ends_at_finalize(chain: ChainModel, version: Seq<char>, data: Json)
    ensures
        walk(chain, version, data) matches Ok(out) ==> exists|latest: Json|
            run_steps(chain.steps, entry_point(chain, version), data) == Ok::<Json, ErrorModel>(
                latest,
            ) && (chain.finalize)(latest) == Ok::<Json, ErrorModel>(out),
{
    if walk(chain, version, data) is Ok {
        let latest = run_steps(chain.steps, entry_point(chain, version), data)->Ok_0;
        assert((chain.finalize)(latest) == walk(chain, version, data));
    }
}

/// Round trip on a path of one version: a domain value saved by entity name and loaded
/// again is the value itself, provided the types read back what they write, the way
/// back and the conversion into the domain undo each other on this value, and the text
/// that was written is read back as the document it was written from.
pub proof fn lemma_round_trip<V, D>(m: MigratorModel, entity: Seq<char>, d: D, text: Seq<char>) where
    V: Versioned + FromValue + IntoDomain<D> + FromDomain<D>,
    D: FromValue + ToValue,

    requires
        m.path(entity) matches Some(chain) && chain.steps.len() == 0 && chain.finalize
            == finalize_model::<V, D>() && chain.version_key != chain.data_key,
        m.saver(entity) == Some(
            SaverModel { version: V::VERSION@, reverse: reverse_model::<V, D>() },
        ),
        d.encoded() matches Ok(j) && D::decoded(j) == Ok::<D, Seq<char>>(d),
        V::latest(d).encoded() matches Ok(l) && V::decoded(l) == Ok::<V, Seq<char>>(V::latest(d)),
        V::latest(d).domain() == d,
        m.saved_domain(entity, d.encoded()) == Ok::<Seq<char>, ErrorModel>(text),
        json_decoding(text) == Ok::<Json, Seq<char>>(
            tagged(
                m.path(entity)->0.version_key,
                V::VERSION@,
                m.path(entity)->0.data_key,
                V::latest(d).encoded()->Ok_0,
            ),
        ),
    ensures
        m.loaded_text::<D>(entity, text) == Ok::<D, ErrorModel>(d),
{
    let chain = m.path(entity)->0;
    let l = V::latest(d).encoded()->Ok_0;
    lemma_extract_tagged(chain, V::VERSION@, l);
    assert(run_steps(chain.steps, entry_point(chain, V::VERSION@), l) == Ok::<Json, ErrorModel>(l));
    assert((chain.finalize)(l) == Ok::<Json, ErrorModel>(d.encoded()->Ok_0));
}

/// The path that `define(entity).from::<V>().into_with_save::<D>()` builds: one version,
/// no step, the field names that `V` declares, and the way back.
pub open spec fn single_version_path<V, D>(entity: Seq<char>) -> PathModel where
    V: Versioned + FromValue + IntoDomain<D> + FromDomain<D>,
    D: FromValue + ToValue,
 {
    (BuilderModel {
        entity,
        versions: Seq::<Seq<char>>::empty().push(V::VERSION@),
        steps: Seq::empty(),
        version_key: V::VERSION_KEY@,
        data_key: V::DATA_KEY@,
        custom_version_key: None,
        custom_data_key: None,
    }).finished(
        finalize_model::<V, D>(),
        Some(SaverModel { version: V::VERSION@, reverse: reverse_model::<V, D>() }),
    )
}

/// Round trip after registration: in any migrator, once the single-version path of `V`
/// and `D` is registered under a name, a domain value saved under that name and loaded
/// again is the value itself. The premises are those of [`lemma_round_trip`]: the
/// version field and the data field have different names (with one name for both the
/// data overwrites the version, and nothing can be loaded), the types read back what
/// they write, and the text is read back as the document it was written from.
pub proof fn lemma_round_trip_registered<V, D>(
    before: MigratorModel,
    entity: Seq<char>,
    d: D,
    text: Seq<char>,
) where
    V: Versioned + FromValue + IntoDomain<D> + FromDomain<D>,
    D: FromValue + ToValue,

    requires
        before.resolved(single_version_path::<V, D>(entity)).version_key != before.resolved(
            single_version_path::<V, D>(entity),
        ).data_key,
        d.encoded() matches Ok(j) && D::decoded(j) == Ok::<D, Seq<char>>(d),
        V::latest(d).encoded() matches Ok(l) && V::decoded(l) == Ok::<V, Seq<char>>(V::latest(d)),
        V::latest(d).domain() == d,
        before.registered(single_version_path::<V, D>(entity)).saved_domain(entity, d.encoded())
            == Ok::<Seq<char>, ErrorModel>(text),
        json_decoding(text) == Ok::<Json, Seq<char>>(
            tagged(
                before.resolved(single_version_path::<V, D>(entity)).version_key,
                V::VERSION@,
                before.resolved(single_version_path::<V, D>(entity)).data_key,
                V::latest(d).encoded()->Ok_0,
            ),
        ),
    ensures
        before.registered(single_version_path::<V, D>(entity)).loaded_text::<D>(entity, text)
            == Ok::<D, ErrorModel>(d),
{
    let path = single_version_path::<V, D>(entity);
    let after = before.registered(path);
    lemma_replaced_named(before.paths, entity, before.resolved(path), entity);
    lemma_replaced_named(
        before.savers,
        entity,
        SaverModel { version: V::VERSION@, reverse: reverse_model::<V, D>() },
        entity,
    );
    assert(after.path(entity) == Some(before.resolved(path)));
    lemma_round_trip::<V, D>(after, entity, d, text);
}

/// What was registered last under a name is what the name gives, and registering under
/// one name changes no other name.
pub proof fn lemma_registered_path(before: MigratorModel, path: PathModel, other: Seq<char>)
    ensures
        before.registered(path).path(path.entity) == Some(before.resolved(path)),
        other != path.entity ==> before.registered(path).path(other) == before.path(other),
        path.reverse matches Some(saver) ==> before.registered(path).saver(path.entity) == Some(
            saver,
        ),
        other != path.entity ==> before.registered(path).saver(other) == before.saver(other),
        before.distinct_names() ==> before.registered(path).distinct_names(),
{
    lemma_replaced_named(before.paths, path.entity, before.resolved(path), other);
    if before.distinct_names() {
        lemma_replaced_distinct(before.paths, path.entity, before.resolved(path));
    }
    match path.reverse {
        Some(saver) => {
            lemma_replaced_named(before.savers, path.entity, saver, other);
            if before.distinct_names() {
                lemma_replaced_distinct(before.savers, path.entity, saver);
            }
        },
        None => {},
    }
}

} // verus!
