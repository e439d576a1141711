//! The rules that a version list must meet before its path is registered.

use vstd::prelude::*;
use crate::errors::{ErrorModel, MigrationError};
use crate::text::{concat3, join, joined, same_text, texts};
use crate::version::{is_semver, parse_semver, semver_at_most, semver_le, semver_parsing, version_increases};

verus! {

/// Whether some version occurs twice in the list.
pub open spec fn has_repeat(versions: Seq<Seq<char>>) -> bool {
    exists|i: int, j: int| 0 <= i < j < versions.len() && versions[i] == versions[j]
}

/// The complaint about a text that is no semantic version.
pub open spec fn invalid_semver(text: Seq<char>, reason: Seq<char>) -> ErrorModel {
    ErrorModel::DeserializationError("Invalid semver '"@ + text + "': "@ + reason)
}

/// What the check of one neighbouring pair of versions finds.
pub open spec fn pair_check(entity: Seq<char>, from: Seq<char>, to: Seq<char>) -> Result<
    (),
    ErrorModel,
> {
    match semver_parsing(from) {
        Err(e) => Err(invalid_semver(from, e)),
        Ok(current) => match semver_parsing(to) {
            Err(e) => Err(invalid_semver(to, e)),
            Ok(next) => if semver_at_most(next, current) {
                Err(ErrorModel::InvalidVersionOrder { entity, from, to })
            } else {
                Ok(())
            },
        },
    }
}

/// What the ordering check finds from the pair at `start` on: the complaint about the
/// first pair that fails.
pub open spec fn ordering_from(entity: Seq<char>, versions: Seq<Seq<char>>, start: int) -> Result<
    (),
    ErrorModel,
>
    decreases versions.len() - start,
{
    if start < 0 || start + 1 >= versions.len() {
        Ok(())
    } else {
        match pair_check(entity, versions[start], versions[start + 1]) {
            Err(e) => Err(e),
            Ok(()) => ordering_from(entity, versions, start + 1),
        }
    }
}

/// What the cycle check finds: a repeated version is reported with the whole path.
pub open spec fn cycle_check(entity: Seq<char>, versions: Seq<Seq<char>>) -> Result<
    (),
    ErrorModel,
> {
    if has_repeat(versions) {
        Err(ErrorModel::CircularMigrationPath { entity, path: joined(versions, " -> "@) })
    } else {
        Ok(())
    }
}

/// What validation finds: the cycle check first, then the ordering check.
pub open spec fn validation(entity: Seq<char>, versions: Seq<Seq<char>>) -> Result<
    (),
    ErrorModel,
> {
    match cycle_check(entity, versions) {
        Err(e) => Err(e),
        Ok(()) => ordering_from(entity, versions, 0),
    }
}

/// The content of a result that carries nothing or an error.
pub open spec fn unit_result(r: Result<(), MigrationError>) -> Result<(), ErrorModel> {
    match r {
        Ok(()) => Ok(()),
        Err(e) => Err(e@),
    }
}

/// Checks that no version occurs twice in the path.
pub fn check_circular_path(entity: &str, versions: &Vec<String>) -> (r: Result<
    (),
    MigrationError,
>)
    ensures
        unit_result(r) == cycle_check(entity@, texts(versions@)),
{
    let mut j: usize = 0;
    while j < versions.len()
        invariant
            j <= versions.len(),
            forall|a: int, b: int| 0 <= a < b < j ==> versions@[a]@ != versions@[b]@,
        decreases versions.len() - j,
    {
        let mut i: usize = 0;
        while i < j
            invariant
                i <= j < versions.len(),
                forall|a: int| 0 <= a < i ==> versions@[a]@ != versions@[j as int]@,
            decreases j - i,
        {
            if same_text(versions[i].as_str(), versions[j].as_str()) {
                assert(texts(versions@)[i as int] == texts(versions@)[j as int]);
                return Err(
                    MigrationError::CircularMigrationPath {
                        entity: String::from_str(entity),
                        path: join(versions, " -> "),
                    },
                );
            }
            i += 1;
        }
        j += 1;
    }
    assert(!has_repeat(texts(versions@))) by {
        if has_repeat(texts(versions@)) {
            let (a, b) = choose|a: int, b: int|
                0 <= a < b < texts(versions@).len() && texts(versions@)[a] == texts(versions@)[b];
            assert(versions@[a]@ != versions@[b]@);
        }
    }
    Ok(())
}

/// Checks that each version is a semantic version and strictly later than the one
/// before it.
pub fn check_version_ordering(entity: &str, versions: &Vec<String>) -> (r: Result<
    (),
    MigrationError,
>)
    ensures
        unit_result(r) == ordering_from(entity@, texts(versions@), 0),
{
    let mut i: usize = 0;
    while i < versions.len() && i + 1 < versions.len()
        invariant
            i <= versions.len(),
            ordering_from(entity@, texts(versions@), 0) == ordering_from(
                entity@,
                texts(versions@),
                i as int,
            ),
        decreases versions.len() - i,
    {
        let current = &versions[i];
        let next = &versions[i + 1];
        assert(texts(versions@)[i as int] == current@);
        assert(texts(versions@)[i + 1] == next@);
        let current_ver = match parse_semver(current.as_str()) {
            Ok(v) => v,
            Err(e) => {
                let mut msg = concat3("Invalid semver '", current.as_str(), "': ");
                msg.append(e.as_str());
                return Err(MigrationError::DeserializationError(msg));
            },
        };
        let next_ver = match parse_semver(next.as_str()) {
            Ok(v) => v,
            Err(e) => {
                let mut msg = concat3("Invalid semver '", next.as_str(), "': ");
                msg.append(e.as_str());
                return Err(MigrationError::DeserializationError(msg));
            },
        };
        if semver_le(&next_ver, &current_ver) {
            return Err(
                MigrationError::InvalidVersionOrder {
                    entity: String::from_str(entity),
                    from: current.clone(),
                    to: next.clone(),
                },
            );
        }
        i += 1;
    }
    Ok(())
}

/// Validates a version list: no version twice, and each strictly later than the last.
pub fn validate_migration_path(entity: &str, versions: &Vec<String>) -> (r: Result<
    (),
    MigrationError,
>)
    ensures
        unit_result(r) == validation(entity@, texts(versions@)),
{
    match check_circular_path(entity, versions) {
        Err(e) => Err(e),
        Ok(()) => check_version_ordering(entity, versions),
    }
}

/// Whether every version is strictly later than the one before it, each a semantic
/// version.
pub open spec fn strictly_increasing(versions: Seq<Seq<char>>) -> bool {
    forall|i: int|
        0 <= i && i + 1 < versions.len() ==> version_increases(
            #[trigger] versions[i],
            versions[i + 1],
        )
}

/// The ordering check passes from `start` on exactly when every pair from there on
/// increases.
pub proof fn lemma_ordering_from(entity: Seq<char>, versions: Seq<Seq<char>>, start: int)
    requires
        0 <= start,
    ensures
        ordering_from(entity, versions, start) is Ok <==> forall|i: int|
            start <= i && i + 1 < versions.len() ==> version_increases(
                #[trigger] versions[i],
                versions[i + 1],
            ),
    decreases versions.len() - start,
{
    if start + 1 < versions.len() {
        lemma_ordering_from(entity, versions, start + 1);
        if pair_check(entity, versions[start], versions[start + 1]) is Ok {
            assert(version_increases(versions[start], versions[start + 1]));
        } else {
            assert(!version_increases(versions[start], versions[start + 1]));
        }
    }
}

/// Validation succeeds exactly on lists in which no version repeats and every version
/// is a semantic version strictly later than the one before it. With two or more
/// versions, that is: all of them are semantic versions.
pub proof fn lemma_validation_sound(entity: Seq<char>, versions: Seq<Seq<char>>)
    ensures
        validation(entity, versions) is Ok <==> !has_repeat(versions) && strictly_increasing(
            versions,
        ),
        versions.len() >= 2 && validation(entity, versions) is Ok ==> forall|i: int|
            0 <= i < versions.len() ==> is_semver(#[trigger] versions[i]),
{
    lemma_ordering_from(entity, versions, 0);
    if versions.len() >= 2 && validation(entity, versions) is Ok {
        assert forall|i: int| 0 <= i < versions.len() implies is_semver(
            #[trigger] versions[i],
        ) by {
            if i + 1 < versions.len() {
                assert(version_increases(versions[i], versions[i + 1]));
            } else {
                assert(version_increases(versions[i - 1], versions[i - 1 + 1]));
            }
        }
    }
}

/// A failed validation names its cause: a repeated version gives
/// `CircularMigrationPath`; otherwise the first pair that fails gives
/// `DeserializationError` where one of the two is no semantic version, and
/// `InvalidVersionOrder` where the second is not the later one.
pub proof fn lemma_validation_error_kind(entity: Seq<char>, versions: Seq<Seq<char>>)
    ensures
        has_repeat(versions) ==> validation(entity, versions) == Err::<(), ErrorModel>(
            ErrorModel::CircularMigrationPath { entity, path: joined(versions, " -> "@) },
        ),
        !has_repeat(versions) && !strictly_increasing(versions) ==> exists|k: int|
            0 <= k && k + 1 < versions.len() && first_failure(versions, k) && validation(
                entity,
                versions,
            ) == pair_check(entity, versions[k], versions[k + 1]) && (pair_check(
                entity,
                versions[k],
                versions[k + 1],
            ) matches Err(e) && if is_semver(versions[k]) && is_semver(versions[k + 1]) {
                e is InvalidVersionOrder
            } else {
                e is DeserializationError
            }),
{
    if !has_repeat(versions) && !strictly_increasing(versions) {
        lemma_first_failure(entity, versions, 0);
    }
}

/// Whether the pair at `k` is the first that does not increase.
pub open spec fn first_failure(versions: Seq<Seq<char>>, k: int) -> bool {
    &&& !version_increases(versions[k], versions[k + 1])
    &&& forall|i: int| 0 <= i < k ==> version_increases(#[trigger] versions[i], versions[i + 1])
}

proof fn lemma_first_failure(entity: Seq<char>, versions: Seq<Seq<char>>, start: int)
    requires
        0 <= start,
        forall|i: int| 0 <= i < start ==> version_increases(#[trigger] versions[i], versions[i + 1]),
        exists|i: int|
            start <= i && i + 1 < versions.len() && !version_increases(
                #[trigger] versions[i],
                versions[i + 1],
            ),
    ensures
        exists|k: int|
            start <= k && k + 1 < versions.len() && first_failure(versions, k) && ordering_from(
                entity,
                versions,
                start,
            ) == pair_check(entity, versions[k], versions[k + 1]) && (pair_check(
                entity,
                versions[k],
                versions[k + 1],
            ) matches Err(e) && if is_semver(versions[k]) && is_semver(versions[k + 1]) {
                e is InvalidVersionOrder
            } else {
                e is DeserializationError
            }),
    decreases versions.len() - start,
{
    if version_increases(versions[start], versions[start + 1]) {
        lemma_first_failure(entity, versions, start + 1);
    } else {
        assert(first_failure(versions, start));
    }
}

} // verus!
