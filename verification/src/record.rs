//! Records that carry their version among their fields.
//!
//! A type whose stored shape includes the version field writes itself with
//! [`tag_record`] and reads itself with [`untag_record`].

use vstd::prelude::*;
use crate::chain::index_from;
use crate::text::{concat3, join, joined, same_text, texts};
use crate::value::{entries_model, insert_entry, items_model, with_entry, Json, Node};

verus! {

/// The entries after each field was set, in order.
pub open spec fn with_fields(
    entries: Seq<(Seq<char>, Json)>,
    fields: Seq<(Seq<char>, Json)>,
) -> Seq<(Seq<char>, Json)>
    decreases fields.len(),
{
    if fields.len() == 0 {
        entries
    } else {
        with_entry(with_fields(entries, fields.drop_last()), fields.last().0, fields.last().1)
    }
}

/// The record that holds its version under `version_key` and then its fields.
pub open spec fn tagged_record(
    version_key: Seq<char>,
    version: Seq<char>,
    fields: Seq<(Seq<char>, Json)>,
) -> Json {
    Json::Object(with_fields(seq![(version_key, Json::Text(version))], fields))
}

/// Writes a record with its version: the version field first, then each field in
/// order. Of two fields of one name the later counts.
pub fn tag_record(version_key: &str, version: &str, fields: &Vec<(String, Node)>) -> (r: Node)
    ensures
        r@ == tagged_record(version_key@, version@, entries_model(fields@)),
{
    let mut entries: Vec<(String, Node)> = Vec::new();
    entries.push((String::from_str(version_key), Node::text(version)));
    assert(entries_model(entries@) =~= seq![(version_key@, Json::Text(version@))]);
    let mut i: usize = 0;
    assert(entries_model(fields@).take(0) =~= Seq::empty());
    while i < fields.len()
        invariant
            i <= fields.len(),
            entries_model(entries@) == with_fields(
                seq![(version_key@, Json::Text(version@))],
                entries_model(fields@).take(i as int),
            ),
        decreases fields.len() - i,
    {
        let ghost next = entries_model(fields@).take(i + 1);
        assert(next.drop_last() =~= entries_model(fields@).take(i as int));
        assert(next.last() == (fields@[i as int].0@, fields@[i as int].1@));
        entries = insert_entry(&entries, fields[i].0.as_str(), fields[i].1.clone());
        i += 1;
    }
    assert(entries_model(fields@).take(fields@.len() as int) =~= entries_model(fields@));
    Node::Object(entries)
}

/// The complaint about a field that occurs twice.
pub open spec fn duplicate_field(name: Seq<char>) -> Seq<char> {
    "duplicate field `"@ + name + "`"@
}

/// The complaint about a field that is missing.
pub open spec fn missing_field(name: Seq<char>) -> Seq<char> {
    "missing field `"@ + name + "`"@
}

/// The complaint about a field that the record does not have: it names the fields that
/// it has, the version field first.
pub open spec fn unknown_field(name: Seq<char>, version_key: Seq<char>, names: Seq<Seq<char>>) -> Seq<
    char,
> {
    if names.len() == 0 {
        "unknown field `"@ + name + "`, expected `"@ + version_key + "`"@
    } else {
        "unknown field `"@ + name + "`, expected one of `"@ + joined(
            seq![version_key] + names,
            "`, `"@,
        ) + "`"@
    }
}

/// The complaint about a version other than the record's own.
pub open spec fn version_mismatch(expected: Seq<char>, found: Seq<char>) -> Seq<char> {
    "version mismatch: expected "@ + expected + ", found "@ + found
}

/// What reading the first `n` entries of a record finds: whether the version was seen,
/// and the value of each field seen so far; or the complaint about the first entry that
/// is a duplicate, unknown, or a version that is no text or not the record's own.
pub open spec fn scanned(
    entries: Seq<(Seq<char>, Json)>,
    n: int,
    version_key: Seq<char>,
    version: Seq<char>,
    names: Seq<Seq<char>>,
) -> Result<(bool, Seq<Option<Json>>), Seq<char>>
    decreases n,
{
    if n <= 0 || n > entries.len() {
        Ok((false, Seq::new(names.len(), |i: int| None::<Json>)))
    } else {
        match scanned(entries, n - 1, version_key, version, names) {
            Err(e) => Err(e),
            Ok((seen, values)) => {
                let (key, value) = entries[n - 1];
                if key == version_key {
                    if seen {
                        Err(duplicate_field(version_key))
                    } else {
                        match value {
                            Json::Text(found) => if found == version {
                                Ok((true, values))
                            } else {
                                Err(version_mismatch(version, found))
                            },
                            _ => Err("invalid type: expected a string"@),
                        }
                    }
                } else {
                    match index_from(names, key, 0) {
                        None => Err(unknown_field(key, version_key, names)),
                        Some(i) => if 0 <= i < values.len() && values[i] is None {
                            Ok((seen, values.update(i, Some(value))))
                        } else {
                            Err(duplicate_field(key))
                        },
                    }
                }
            },
        }
    }
}

/// The values of the fields from position `from` on, or the complaint about the first
/// that is missing.
pub open spec fn collected(values: Seq<Option<Json>>, names: Seq<Seq<char>>, from: int) -> Result<
    Seq<Json>,
    Seq<char>,
>
    decreases from,
{
    if from <= 0 || from > values.len() || from > names.len() {
        Ok(Seq::empty())
    } else {
        match collected(values, names, from - 1) {
            Err(e) => Err(e),
            Ok(done) => match values[from - 1] {
                Some(v) => Ok(done.push(v)),
                None => Err(missing_field(names[from - 1])),
            },
        }
    }
}

/// The values of a record's fields, in the order of `names`, read from a document that
/// must hold the record's version under `version_key` and each field once.
pub open spec fn untagged(
    doc: Json,
    version_key: Seq<char>,
    version: Seq<char>,
    names: Seq<Seq<char>>,
) -> Result<Seq<Json>, Seq<char>> {
    match doc {
        Json::Object(entries) => match scanned(
            entries,
            entries.len() as int,
            version_key,
            version,
            names,
        ) {
            Err(e) => Err(e),
            Ok((seen, values)) => if !seen {
                Err(missing_field(version_key))
            } else {
                collected(values, names, names.len() as int)
            },
        },
        _ => Err("invalid type: expected a struct"@),
    }
}

/// The content of a list of optional nodes.
pub open spec fn opt_nodes(values: Seq<Option<Node>>) -> Seq<Option<Json>> {
    Seq::new(
        values.len(),
        |i: int|
            match values[i] {
                Some(v) => Some(v@),
                None => None,
            },
    )
}

/// The position of a name in a list of names.
fn position_of(names: &Vec<String>, name: &str) -> (r: Option<usize>)
    ensures
        match r {
            Some(i) => index_from(texts(names@), name@, 0) == Some(i as int) && i < names.len(),
            None => index_from(texts(names@), name@, 0) is None,
        },
{
    let mut i: usize = 0;
    while i < names.len()
        invariant
            i <= names.len(),
            index_from(texts(names@), name@, 0) == index_from(texts(names@), name@, i as int),
        decreases names.len() - i,
    {
        assert(texts(names@)[i as int] == names@[i as int]@);
        if same_text(names[i].as_str(), name) {
            return Some(i);
        }
        i += 1;
    }
    None
}

/// The complaint about a field that the record does not have.
fn unknown_field_text(name: &str, version_key: &str, names: &Vec<String>) -> (r: String)
    ensures
        r@ == unknown_field(name@, version_key@, texts(names@)),
{
    if names.len() == 0 {
        let mut out = concat3("unknown field `", name, "`, expected `");
        out.append(version_key);
        out.append("`");
        out
    } else {
        let mut all: Vec<String> = Vec::new();
        all.push(String::from_str(version_key));
        let mut i: usize = 0;
        assert(texts(all@) =~= seq![version_key@] + texts(names@).take(0));
        while i < names.len()
            invariant
                i <= names.len(),
                texts(all@) == seq![version_key@] + texts(names@).take(i as int),
            decreases names.len() - i,
        {
            let ghost before = texts(all@);
            all.push(names[i].clone());
            assert(texts(all@) =~= before.push(names@[i as int]@));
            assert(texts(all@) =~= seq![version_key@] + texts(names@).take(i + 1));
            i += 1;
        }
        assert(texts(names@).take(names@.len() as int) =~= texts(names@));
        let list = join(&all, "`, `");
        let mut out = concat3("unknown field `", name, "`, expected one of `");
        out.append(list.as_str());
        out.append("`");
        out
    }
}

/// Reads a record that carries its version: gives the value of each field, in the
/// order of `names`. The document must be an object that holds the version `version`
/// under `version_key` and each named field exactly once, and nothing else.
pub fn untag_record(value: &Node, version_key: &str, version: &str, names: &Vec<String>) -> (r:
    Result<Vec<Node>, String>)
    ensures
        match r {
            Ok(fields) => untagged(value@, version_key@, version@, texts(names@)) == Ok::<
                Seq<Json>,
                Seq<char>,
            >(items_model(fields@)),
            Err(e) => untagged(value@, version_key@, version@, texts(names@)) == Err::<
                Seq<Json>,
                Seq<char>,
            >(e@),
        },
{
    let entries = match value.as_object() {
        Some(entries) => entries,
        None => {
            return Err(String::from_str("invalid type: expected a struct"));
        },
    };
    let ghost model = entries_model(entries@);
    let mut values: Vec<Option<Node>> = Vec::new();
    let mut k: usize = 0;
    while k < names.len()
        invariant
            k <= names.len(),
            values@.len() == k,
            forall|j: int| 0 <= j < k ==> values@[j] is None,
        decreases names.len() - k,
    {
        values.push(None);
        k += 1;
    }
    assert(opt_nodes(values@) =~= Seq::new(texts(names@).len(), |i: int| None::<Json>));
    let mut seen = false;
    let mut i: usize = 0;
    while i < entries.len()
        invariant
            i <= entries.len(),
            model == entries_model(entries@),
            value@ == Json::Object(model),
            values@.len() == names@.len(),
            scanned(model, i as int, version_key@, version@, texts(names@)) == Ok::<
                (bool, Seq<Option<Json>>),
                Seq<char>,
            >((seen, opt_nodes(values@))),
        decreases entries.len() - i,
    {
        let ghost before = opt_nodes(values@);
        assert(model[i as int] == (entries@[i as int].0@, entries@[i as int].1@));
        let key = entries[i].0.as_str();
        if same_text(key, version_key) {
            if seen {
                proof {
                    lemma_scanned_fails(model, i + 1, version_key@, version@, texts(names@));
                }
                return Err(concat3("duplicate field `", version_key, "`"));
            }
            match &entries[i].1 {
                Node::Text(found) => {
                    if same_text(found.as_str(), version) {
                        seen = true;
                    } else {
                        proof {
                            lemma_scanned_fails(model, i + 1, version_key@, version@, texts(names@));
                        }
                        let mut msg = concat3("version mismatch: expected ", version, ", found ");
                        msg.append(found.as_str());
                        return Err(msg);
                    }
                },
                _ => {
                    proof {
                        lemma_scanned_fails(model, i + 1, version_key@, version@, texts(names@));
                    }
                    return Err(String::from_str("invalid type: expected a string"));
                },
            }
        } else {
            match position_of(names, key) {
                None => {
                    proof {
                        lemma_scanned_fails(model, i + 1, version_key@, version@, texts(names@));
                    }
                    return Err(unknown_field_text(key, version_key, names));
                },
                Some(p) => {
                    if values[p].is_some() {
                        proof {
                            lemma_scanned_fails(model, i + 1, version_key@, version@, texts(names@));
                        }
                        return Err(concat3("duplicate field `", key, "`"));
                    }
                    values.set(p, Some(entries[i].1.clone()));
                    assert(opt_nodes(values@) =~= before.update(
                        p as int,
                        Some(entries@[i as int].1@),
                    ));
                },
            }
        }
        i += 1;
    }
    if !seen {
        return Err(concat3("missing field `", version_key, "`"));
    }
    let mut out: Vec<Node> = Vec::new();
    let mut j: usize = 0;
    assert(items_model(out@) =~= Seq::empty());
    while j < names.len()
        invariant
            j <= names.len(),
            values@.len() == names@.len(),
            value@ == Json::Object(model),
            scanned(model, model.len() as int, version_key@, version@, texts(names@)) == Ok::<
                (bool, Seq<Option<Json>>),
                Seq<char>,
            >((true, opt_nodes(values@))),
            collected(opt_nodes(values@), texts(names@), j as int) == Ok::<Seq<Json>, Seq<char>>(
                items_model(out@),
            ),
        decreases names.len() - j,
    {
        let ghost before = items_model(out@);
        assert(texts(names@)[j as int] == names@[j as int]@);
        match &values[j] {
            Some(v) => {
                out.push(v.clone());
                assert(items_model(out@) =~= before.push(v@));
            },
            None => {
                proof {
                    lemma_collected_fails(
                        opt_nodes(values@),
                        texts(names@),
                        j + 1,
                        names@.len() as int,
                    );
                }
                return Err(concat3("missing field `", names[j].as_str(), "`"));
            },
        }
        j += 1;
    }
    Ok(out)
}

/// A complaint about an entry is the complaint about the whole record.
proof fn lemma_scanned_fails(
    entries: Seq<(Seq<char>, Json)>,
    n: int,
    version_key: Seq<char>,
    version: Seq<char>,
    names: Seq<Seq<char>>,
)
    requires
        0 <= n <= entries.len(),
        scanned(entries, n, version_key, version, names) is Err,
    ensures
        scanned(entries, entries.len() as int, version_key, version, names) == scanned(
            entries,
            n,
            version_key,
            version,
            names,
        ),
    decreases entries.len() - n,
{
    if n < entries.len() {
        lemma_scanned_fails(entries, n + 1, version_key, version, names);
    }
}

/// A complaint about a missing field is the complaint about the whole record.
proof fn lemma_collected_fails(values: Seq<Option<Json>>, names: Seq<Seq<char>>, n: int, len: int)
    requires
        0 <= n <= len,
        len == values.len(),
        len == names.len(),
        collected(values, names, n) is Err,
    ensures
        collected(values, names, len) == collected(values, names, n),
    decreases len - n,
{
    if n < len {
        lemma_collected_fails(values, names, n + 1, len);
    }
}

} // verus!
