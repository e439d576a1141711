//! The attributes that a versioned type is declared with: `key = "value"` pairs
//! separated by commas.

use vstd::prelude::*;
use crate::storage::white_space;
use crate::text::{chars_of, concat3, opt_text, texts};
use crate::version::{parse_semver, semver_parsing};

verus! {

/// A text without the white space it begins with.
pub open spec fn trim_start(s: Seq<char>) -> Seq<char>
    decreases s.len(),
{
    if s.len() > 0 && white_space(s[0]) {
        trim_start(s.drop_first())
    } else {
        s
    }
}

/// A text without the white space it ends with.
pub open spec fn trim_end(s: Seq<char>) -> Seq<char>
    decreases s.len(),
{
    if s.len() > 0 && white_space(s.last()) {
        trim_end(s.drop_last())
    } else {
        s
    }
}

/// A text without the white space around it.
pub open spec fn trimmed(s: Seq<char>) -> Seq<char> {
    trim_end(trim_start(s))
}

/// What follows `prefix` in a text that begins with it.
pub open spec fn strip_prefix(s: Seq<char>, prefix: Seq<char>) -> Option<Seq<char>> {
    if prefix.is_prefix_of(s) {
        Some(s.skip(prefix.len() as int))
    } else {
        None
    }
}

/// What stands after `key` and `=` in a token, white space aside; nothing for a token
/// that does not begin with the key or lacks the `=`.
pub open spec fn assigned(token: Seq<char>, key: Seq<char>) -> Option<Seq<char>> {
    match strip_prefix(trimmed(token), key) {
        None => None,
        Some(rest) => match strip_prefix(trimmed(rest), seq!['=']) {
            None => None,
            Some(value) => Some(trimmed(value)),
        },
    }
}

/// The text between the quotes of `key = "text"`; nothing for any other token.
pub open spec fn attr_value(token: Seq<char>, key: Seq<char>) -> Option<Seq<char>> {
    match assigned(token, key) {
        Some(v) => if v.len() >= 2 && v[0] == '"' && v.last() == '"' {
            Some(v.subrange(1, v.len() - 1))
        } else {
            None
        },
        None => None,
    }
}

/// The truth value of `key = true` or `key = false`; nothing for any other token.
pub open spec fn attr_bool_value(token: Seq<char>, key: Seq<char>) -> Option<bool> {
    match assigned(token, key) {
        Some(v) => if v == "true"@ {
            Some(true)
        } else if v == "false"@ {
            Some(false)
        } else {
            None
        },
        None => None,
    }
}

/// The position of the last comma below position `n`.
pub open spec fn last_comma_below(s: Seq<char>, n: int) -> Option<int>
    decreases n,
{
    if n <= 0 || n > s.len() {
        None
    } else if s[n - 1] == ',' {
        Some(n - 1)
    } else {
        last_comma_below(s, n - 1)
    }
}

/// The pieces of a text between its commas, in order; a text without a comma is one
/// piece.
pub open spec fn split_commas(s: Seq<char>) -> Seq<Seq<char>>
    decreases s.len(),
{
    match last_comma_below(s, s.len() as int) {
        None => seq![s],
        Some(i) => if 0 <= i < s.len() {
            split_commas(s.subrange(0, i)).push(s.subrange(i + 1, s.len() as int))
        } else {
            seq![s]
        },
    }
}

/// The attributes of a versioned type.
#[derive(Debug, Clone)]
pub struct VersionedAttributes {
    pub version: Option<String>,
    pub version_key: String,
    pub data_key: String,
    pub auto_tag: bool,
    pub queryable: bool,
    pub queryable_key: Option<String>,
}

/// What a [`VersionedAttributes`] holds.
pub struct AttributesModel {
    pub version: Option<Seq<char>>,
    pub version_key: Seq<char>,
    pub data_key: Seq<char>,
    pub auto_tag: bool,
    pub queryable: bool,
    pub queryable_key: Option<Seq<char>>,
}

impl View for VersionedAttributes {
    type V = AttributesModel;

    open spec fn view(&self) -> AttributesModel {
        AttributesModel {
            version: opt_text(self.version),
            version_key: self.version_key@,
            data_key: self.data_key@,
            auto_tag: self.auto_tag,
            queryable: self.queryable,
            queryable_key: opt_text(self.queryable_key),
        }
    }
}

/// The attributes before any is read: no version, the usual field names, nothing
/// switched on.
pub open spec fn initial_attributes() -> AttributesModel {
    AttributesModel {
        version: None,
        version_key: "version"@,
        data_key: "data"@,
        auto_tag: false,
        queryable: false,
        queryable_key: None,
    }
}

impl AttributesModel {
    /// The attributes after one token: the first key that the token assigns, in the
    /// order `version`, `version_key`, `data_key`, `auto_tag`, `queryable`,
    /// `queryable_key`, is set; any other token changes nothing.
    pub open spec fn with_token(self, token: Seq<char>) -> AttributesModel {
        let part = trimmed(token);
        if attr_value(part, "version"@) is Some {
            AttributesModel { version: attr_value(part, "version"@), ..self }
        } else if attr_value(part, "version_key"@) is Some {
            AttributesModel { version_key: attr_value(part, "version_key"@)->0, ..self }
        } else if attr_value(part, "data_key"@) is Some {
            AttributesModel { data_key: attr_value(part, "data_key"@)->0, ..self }
        } else if attr_bool_value(part, "auto_tag"@) is Some {
            AttributesModel { auto_tag: attr_bool_value(part, "auto_tag"@)->0, ..self }
        } else if attr_bool_value(part, "queryable"@) is Some {
            AttributesModel { queryable: attr_bool_value(part, "queryable"@)->0, ..self }
        } else if attr_value(part, "queryable_key"@) is Some {
            AttributesModel { queryable_key: attr_value(part, "queryable_key"@), ..self }
        } else {
            self
        }
    }

    /// The attributes after each of a list of tokens, in order.
    pub open spec fn with_tokens(self, tokens: Seq<Seq<char>>) -> AttributesModel
        decreases tokens.len(),
    {
        if tokens.len() == 0 {
            self
        } else {
            self.with_tokens(tokens.drop_last()).with_token(tokens.last())
        }
    }

    /// The attributes after each of a list of attribute texts, each split at its commas.
    pub open spec fn with_lists(self, lists: Seq<Seq<char>>) -> AttributesModel
        decreases lists.len(),
    {
        if lists.len() == 0 {
            self
        } else {
            self.with_lists(lists.drop_last()).with_tokens(split_commas(lists.last()))
        }
    }
}

/// The characters of `chars` from `start` to `end` without the white space around them,
/// as a range.
fn trim_range(chars: &Vec<char>, start: usize, end: usize) -> (r: (usize, usize))
    requires
        start <= end <= chars.len(),
    ensures
        start <= r.0 <= r.1 <= end,
        chars@.subrange(r.0 as int, r.1 as int) == trimmed(chars@.subrange(start as int, end as int)),
{
    let mut a = start;
    while a < end && is_ws(chars[a])
        invariant
            start <= a <= end <= chars.len(),
            trim_start(chars@.subrange(start as int, end as int)) == trim_start(
                chars@.subrange(a as int, end as int),
            ),
        decreases end - a,
    {
        assert(chars@.subrange(a as int, end as int).drop_first() =~= chars@.subrange(
            a + 1,
            end as int,
        ));
        a += 1;
    }
    let mut b = end;
    while b > a && is_ws(chars[b - 1])
        invariant
            a <= b <= end <= chars.len(),
            trim_end(chars@.subrange(a as int, end as int)) == trim_end(
                chars@.subrange(a as int, b as int),
            ),
        decreases b - a,
    {
        assert(chars@.subrange(a as int, b as int).drop_last() =~= chars@.subrange(
            a as int,
            b - 1,
        ));
        b -= 1;
    }
    (a, b)
}

/// Whether a character is white space.
fn is_ws(c: char) -> (r: bool)
    ensures
        r == white_space(c),
{
    let n: u32 = c as u32;
    (0x09 <= n && n <= 0x0D) || n == 0x20 || n == 0x85 || n == 0xA0 || n == 0x1680 || (0x2000 <= n
        && n <= 0x200A) || n == 0x2028 || n == 0x2029 || n == 0x202F || n == 0x205F || n == 0x3000
}

/// Where the rest begins, if the range begins with `prefix`.
fn strip_prefix_range(chars: &Vec<char>, start: usize, end: usize, prefix: &Vec<char>) -> (r: Option<
    usize,
>)
    requires
        start <= end <= chars.len(),
    ensures
        match r {
            Some(a) => start <= a <= end && strip_prefix(
                chars@.subrange(start as int, end as int),
                prefix@,
            ) == Some(chars@.subrange(a as int, end as int)),
            None => strip_prefix(chars@.subrange(start as int, end as int), prefix@) is None,
        },
{
    let ghost s = chars@.subrange(start as int, end as int);
    if prefix.len() > end - start {
        return None;
    }
    let mut i: usize = 0;
    while i < prefix.len()
        invariant
            i <= prefix.len() <= end - start,
            start <= end <= chars.len(),
            s == chars@.subrange(start as int, end as int),
            forall|j: int| 0 <= j < i ==> prefix@[j] == s[j],
        decreases prefix.len() - i,
    {
        if prefix[i] != chars[start + i] {
            assert(s[i as int] == chars@[start + i]);
            assert(!prefix@.is_prefix_of(s)) by {
                if prefix@.is_prefix_of(s) {
                    assert(s.subrange(0, prefix@.len() as int)[i as int] == s[i as int]);
                }
            }
            return None;
        }
        assert(s[i as int] == chars@[start + i]);
        i += 1;
    }
    assert(prefix@ =~= s.subrange(0, prefix@.len() as int));
    assert(s.skip(prefix@.len() as int) =~= chars@.subrange(start + prefix@.len(), end as int));
    Some(start + prefix.len())
}

/// The range of what a token assigns to `key`.
fn assigned_range(chars: &Vec<char>, key: &str) -> (r: Option<(usize, usize)>)
    ensures
        match r {
            Some((a, b)) => a <= b <= chars.len() && assigned(chars@, key@) == Some(
                chars@.subrange(a as int, b as int),
            ),
            None => assigned(chars@, key@) is None,
        },
{
    let key_chars = chars_of(key);
    let mut eq: Vec<char> = Vec::new();
    eq.push('=');
    assert(eq@ =~= seq!['=']);
    assert(chars@.subrange(0, chars@.len() as int) =~= chars@);
    let (a, b) = trim_range(chars, 0, chars.len());
    let after_key = match strip_prefix_range(chars, a, b, &key_chars) {
        Some(p) => p,
        None => {
            return None;
        },
    };
    let (c, d) = trim_range(chars, after_key, b);
    let after_eq = match strip_prefix_range(chars, c, d, &eq) {
        Some(p) => p,
        None => {
            return None;
        },
    };
    let (e, f) = trim_range(chars, after_eq, d);
    Some((e, f))
}

/// Parses `key = "value"` and gives the value. A token that does not assign a quoted
/// text to exactly this key gives nothing.
pub fn parse_attr_value(token: &str, key: &str) -> (r: Option<String>)
    ensures
        opt_text(r) == attr_value(token@, key@),
{
    let chars = chars_of(token);
    match assigned_range(&chars, key) {
        None => None,
        Some((a, b)) => {
            let ghost v = chars@.subrange(a as int, b as int);
            if b - a >= 2 && chars[a] == '"' && chars[b - 1] == '"' {
                assert(v[0] == chars@[a as int]);
                assert(v.last() == chars@[b - 1]);
                assert(v.subrange(1, v.len() - 1) =~= token@.subrange(a + 1, b - 1));
                Some(String::from_str(token.substring_char(a + 1, b - 1)))
            } else {
                if b - a >= 2 {
                    assert(v[0] == chars@[a as int]);
                    assert(v.last() == chars@[b - 1]);
                }
                None
            }
        },
    }
}

/// Parses `key = true` or `key = false` and gives the truth value.
pub fn parse_attr_bool_value(token: &str, key: &str) -> (r: Option<bool>)
    ensures
        r == attr_bool_value(token@, key@),
{
    let chars = chars_of(token);
    match assigned_range(&chars, key) {
        None => None,
        Some((a, b)) => {
            assert(chars@.subrange(a as int, b as int) =~= token@.subrange(a as int, b as int));
            let value = token.substring_char(a, b);
            if crate::text::same_text(value, "true") {
                Some(true)
            } else if crate::text::same_text(value, "false") {
                Some(false)
            } else {
                None
            }
        },
    }
}

/// Splits a text at its commas.
pub fn split_at_commas(tokens: &str) -> (r: Vec<String>)
    ensures
        texts(r@) == split_commas(tokens@),
{
    let chars = chars_of(tokens);
    let mut pieces: Vec<String> = Vec::new();
    let mut start: usize = 0;
    let mut i: usize = 0;
    assert(texts(pieces@) =~= Seq::empty());
    while i < chars.len()
        invariant
            start <= i <= chars.len(),
            chars@ == tokens@,
            last_comma_below(tokens@, i as int) == (if start == 0 {
                None::<int>
            } else {
                Some(start - 1)
            }),
            start > 0 ==> texts(pieces@) == split_commas(tokens@.subrange(0, start - 1)),
            start == 0 ==> pieces@.len() == 0,
        decreases chars.len() - i,
    {
        if chars[i] == ',' {
            let ghost head = tokens@.subrange(0, i as int);
            let ghost before = texts(pieces@);
            proof {
                lemma_last_comma_prefix(tokens@, head, i as int);
                if start > 0 {
                    assert(head.subrange(0, start - 1) =~= tokens@.subrange(0, start - 1));
                    assert(head.subrange(start as int, head.len() as int) =~= tokens@.subrange(
                        start as int,
                        i as int,
                    ));
                } else {
                    assert(head =~= tokens@.subrange(start as int, i as int));
                }
            }
            pieces.push(String::from_str(tokens.substring_char(start, i)));
            assert(texts(pieces@) =~= before.push(tokens@.subrange(start as int, i as int)));
            start = i + 1;
        }
        i += 1;
    }
    let ghost before = texts(pieces@);
    pieces.push(String::from_str(tokens.substring_char(start, chars.len())));
    proof {
        assert(texts(pieces@) =~= before.push(tokens@.subrange(start as int, tokens@.len() as int)));
        if start == 0 {
            assert(tokens@.subrange(0, tokens@.len() as int) =~= tokens@);
            assert(before =~= Seq::empty());
        }
    }
    pieces
}

/// The last comma of a prefix is the last comma of the text below the prefix's end.
proof fn lemma_last_comma_prefix(s: Seq<char>, head: Seq<char>, n: int)
    requires
        0 <= n <= s.len(),
        head == s.subrange(0, n),
    ensures
        forall|k: int| 0 <= k <= n ==> last_comma_below(head, k) == last_comma_below(s, k),
{
    assert forall|k: int| 0 <= k <= n implies last_comma_below(head, k) == last_comma_below(
        s,
        k,
    ) by {
        lemma_last_comma_agree(s, head, n, k);
    }
}

proof fn lemma_last_comma_agree(s: Seq<char>, head: Seq<char>, n: int, k: int)
    requires
        0 <= k <= n <= s.len(),
        head == s.subrange(0, n),
    ensures
        last_comma_below(head, k) == last_comma_below(s, k),
    decreases k,
{
    if k > 0 {
        lemma_last_comma_agree(s, head, n, k - 1);
    }
}

/// Reads the attributes of one attribute text: comma-separated tokens, each applied in
/// order, so that of two tokens for one key the later counts.
pub fn parse_versioned_attrs(tokens: &str, attrs: &mut VersionedAttributes)
    ensures
        final(attrs)@ == old(attrs)@.with_tokens(split_commas(tokens@)),
{
    let parts = split_at_commas(tokens);
    let mut i: usize = 0;
    assert(texts(parts@).take(0) =~= Seq::empty());
    while i < parts.len()
        invariant
            i <= parts.len(),
            texts(parts@) == split_commas(tokens@),
            attrs@ == old(attrs)@.with_tokens(texts(parts@).take(i as int)),
        decreases parts.len() - i,
    {
        let ghost next = texts(parts@).take(i + 1);
        assert(next.drop_last() =~= texts(parts@).take(i as int));
        assert(next.last() == parts@[i as int]@);
        let chars = chars_of(parts[i].as_str());
        assert(chars@.subrange(0, chars@.len() as int) =~= chars@);
        let (a, b) = trim_range(&chars, 0, chars.len());
        assert(chars@.subrange(a as int, b as int) =~= parts@[i as int]@.subrange(
            a as int,
            b as int,
        ));
        let part = parts[i].as_str().substring_char(a, b);
        if let Some(val) = parse_attr_value(part, "version") {
            attrs.version = Some(val);
        } else if let Some(val) = parse_attr_value(part, "version_key") {
            attrs.version_key = val;
        } else if let Some(val) = parse_attr_value(part, "data_key") {
            attrs.data_key = val;
        } else if let Some(val) = parse_attr_bool_value(part, "auto_tag") {
            attrs.auto_tag = val;
        } else if let Some(val) = parse_attr_bool_value(part, "queryable") {
            attrs.queryable = val;
        } else if let Some(val) = parse_attr_value(part, "queryable_key") {
            attrs.queryable_key = Some(val);
        }
        i += 1;
    }
    assert(texts(parts@).take(parts@.len() as int) =~= texts(parts@));
}

/// The entity name among the tokens of a `queryable` attribute: the value of the first
/// token that assigns `entity`.
pub open spec fn entity_attr(tokens: Seq<Seq<char>>, from: int) -> Option<Seq<char>>
    decreases tokens.len() - from,
{
    if from < 0 || from >= tokens.len() {
        None
    } else if attr_value(trimmed(tokens[from]), "entity"@) is Some {
        attr_value(trimmed(tokens[from]), "entity"@)
    } else {
        entity_attr(tokens, from + 1)
    }
}

/// Reads the entity name of a `queryable` attribute text.
pub fn parse_entity_attr(tokens: &str) -> (r: Option<String>)
    ensures
        opt_text(r) == entity_attr(split_commas(tokens@), 0),
{
    let parts = split_at_commas(tokens);
    let mut i: usize = 0;
    while i < parts.len()
        invariant
            i <= parts.len(),
            texts(parts@) == split_commas(tokens@),
            entity_attr(split_commas(tokens@), 0) == entity_attr(split_commas(tokens@), i as int),
        decreases parts.len() - i,
    {
        assert(texts(parts@)[i as int] == parts@[i as int]@);
        let chars = chars_of(parts[i].as_str());
        assert(chars@.subrange(0, chars@.len() as int) =~= chars@);
        let (a, b) = trim_range(&chars, 0, chars.len());
        assert(chars@.subrange(a as int, b as int) =~= parts@[i as int]@.subrange(
            a as int,
            b as int,
        ));
        let part = parts[i].as_str().substring_char(a, b);
        if let Some(val) = parse_attr_value(part, "entity") {
            return Some(val);
        }
        i += 1;
    }
    None
}

/// What reading the attributes of a type finds: the attributes, or the complaint about
/// a missing version or one that is no semantic version.
pub open spec fn extracted(lists: Seq<Seq<char>>) -> Result<AttributesModel, Seq<char>> {
    let attrs = initial_attributes().with_lists(lists);
    match attrs.version {
        None => Err("Missing #[versioned(version = \"x.y.z\")] attribute"@),
        Some(version) => match semver_parsing(version) {
            Err(e) => Err("Invalid semantic version '"@ + version + "': "@ + e),
            Ok(_) => Ok(attrs),
        },
    }
}

/// Reads the attributes of a type from its `versioned` attribute texts. The version is
/// required and must be a semantic version.
pub fn extract_attributes(lists: &Vec<String>) -> (r: Result<VersionedAttributes, String>)
    ensures
        match r {
            Ok(attrs) => extracted(texts(lists@)) == Ok::<AttributesModel, Seq<char>>(attrs@),
            Err(e) => extracted(texts(lists@)) == Err::<AttributesModel, Seq<char>>(e@),
        },
{
    let mut attrs = VersionedAttributes {
        version: None,
        version_key: String::from_str("version"),
        data_key: String::from_str("data"),
        auto_tag: false,
        queryable: false,
        queryable_key: None,
    };
    let mut i: usize = 0;
    assert(texts(lists@).take(0) =~= Seq::empty());
    while i < lists.len()
        invariant
            i <= lists.len(),
            attrs@ == initial_attributes().with_lists(texts(lists@).take(i as int)),
        decreases lists.len() - i,
    {
        let ghost next = texts(lists@).take(i + 1);
        assert(next.drop_last() =~= texts(lists@).take(i as int));
        assert(next.last() == lists@[i as int]@);
        parse_versioned_attrs(lists[i].as_str(), &mut attrs);
        i += 1;
    }
    assert(texts(lists@).take(lists@.len() as int) =~= texts(lists@));
    let version = match &attrs.version {
        Some(v) => v.clone(),
        None => {
            return Err(String::from_str("Missing #[versioned(version = \"x.y.z\")] attribute"));
        },
    };
    match parse_semver(version.as_str()) {
        Ok(_) => Ok(attrs),
        Err(e) => {
            let mut msg = concat3("Invalid semantic version '", version.as_str(), "': ");
            msg.append(e.as_str());
            Err(msg)
        },
    }
}


/// What `str::to_lowercase` makes of a text.
pub uninterp spec fn lowercased(text: Seq<char>) -> Seq<char>;

/// Lowercases a text with `str::to_lowercase`.
#[verifier::external_body]
fn lowercase(text: &str) -> (r: String)
    ensures
        r@ == lowercased(text@),
{
    text.to_lowercase()
}

/// The entity name of a queryable type: the key that its attributes give, else the
/// type's name in lower case.
pub fn entity_name(attrs: &VersionedAttributes, name_of_type: &str) -> (r: String)
    ensures
        r@ == match attrs@.queryable_key {
            Some(key) => key,
            None => lowercased(name_of_type@),
        },
{
    match &attrs.queryable_key {
        Some(key) => key.clone(),
        None => lowercase(name_of_type),
    }
}

} // verus!
