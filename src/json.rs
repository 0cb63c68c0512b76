//! JSON documents as the library holds them, and navigation by dotted paths.
use vstd::prelude::*;
use crate::text::{decimal, push_char};

verus! {

/// A JSON value. Numbers keep their JSON text.
pub enum JsonValue {
    Null,
    Bool(bool),
    Number(String),
    Text(String),
    Array(Vec<JsonValue>),
    Object(Vec<JsonMember>),
}

/// A member of an object.
pub struct JsonMember {
    pub key: String,
    pub value: JsonValue,
}

/// The pieces of `s` between dots, as `str::split('.')` gives them: one
/// more than there are dots.
pub open spec fn split_dots(s: Seq<char>) -> Seq<Seq<char>>
    decreases s.len(),
{
    if s.len() == 0 {
        seq![Seq::empty()]
    } else {
        let init = split_dots(s.drop_last());
        if s.last() == '.' {
            init.push(Seq::empty())
        } else {
            init.update(init.len() - 1, init.last().push(s.last()))
        }
    }
}

proof fn lemma_split_dots_nonempty(s: Seq<char>)
    ensures
        split_dots(s).len() >= 1,
    decreases s.len(),
{
    if s.len() > 0 {
        lemma_split_dots_nonempty(s.drop_last());
    }
}

/// The pieces of `path` between dots.
pub fn split_path(path: &str) -> (r: Vec<String>)
    ensures
        r@.map_values(|p: String| p@) == split_dots(path@),
{
    let n = path.unicode_len();
    let mut pieces: Vec<String> = Vec::new();
    let mut current = String::new();
    let mut i: usize = 0;
    proof {
        assert(path@.subrange(0, 0) == Seq::<char>::empty());
    }
    while i < n
        invariant
            n == path@.len(),
            i <= n,
            pieces@.map_values(|p: String| p@).push(current@) == split_dots(path@.subrange(0, i as int)),
        decreases n - i,
    {
        let c = path.get_char(i);
        let ghost before = pieces@.map_values(|p: String| p@).push(current@);
        proof {
            lemma_split_dots_nonempty(path@.subrange(0, i as int));
            assert(path@.subrange(0, i + 1).drop_last() == path@.subrange(0, i as int));
            assert(path@.subrange(0, i + 1).last() == c);
        }
        if c == '.' {
            let done = current;
            pieces.push(done);
            current = String::new();
            assert(pieces@.map_values(|p: String| p@) == before);
            assert(pieces@.map_values(|p: String| p@).push(current@) == before.push(Seq::<char>::empty()));
        } else {
            push_char(&mut current, c);
            assert(pieces@.map_values(|p: String| p@).push(current@) == before.update(
                before.len() - 1,
                before.last().push(c),
            ));
        }
        i = i + 1;
    }
    assert(path@.subrange(0, n as int) == path@);
    pieces.push(current);
    pieces
}

/// The index that a path piece names in an array, as `str::parse::<usize>`
/// reads it.
pub uninterp spec fn parsed_index(s: Seq<char>) -> Option<usize>;

/// Relies on `str::parse::<usize>`: the number that the text spells, or an
/// error.
#[verifier::external_body]
fn parse_index(s: &str) -> (r: Option<usize>)
    ensures
        r == parsed_index(s@),
{
    s.parse::<usize>().ok()
}

/// The position of the first member with key `k`, or -1.
pub open spec fn member_index(ms: Seq<JsonMember>, k: Seq<char>) -> int
    decreases ms.len(),
{
    if ms.len() == 0 {
        -1
    } else {
        let i = member_index(ms.drop_last(), k);
        if i >= 0 {
            i
        } else if ms.last().key@ == k {
            ms.len() - 1
        } else {
            -1
        }
    }
}

proof fn lemma_member_index(ms: Seq<JsonMember>, k: Seq<char>, j: int)
    requires
        0 <= j <= ms.len(),
        forall|l: int| 0 <= l < j ==> ms[l].key@ != k,
    ensures
        j < ms.len() && ms[j].key@ == k ==> member_index(ms, k) == j,
        j == ms.len() ==> member_index(ms, k) == -1,
    decreases ms.len(),
{
    if ms.len() > 0 {
        if j < ms.len() {
            if j < ms.len() - 1 {
                lemma_member_index(ms.drop_last(), k, j);
            } else {
                lemma_member_index(ms.drop_last(), k, j);
            }
        } else {
            lemma_member_index(ms.drop_last(), k, j - 1);
        }
    }
}

proof fn lemma_member_index_range(ms: Seq<JsonMember>, k: Seq<char>)
    ensures
        -1 <= member_index(ms, k) < ms.len(),
        member_index(ms, k) >= 0 ==> ms[member_index(ms, k)].key@ == k,
    decreases ms.len(),
{
    if ms.len() > 0 {
        lemma_member_index_range(ms.drop_last(), k);
    }
}

/// The first member of `ms` under `key`.
pub fn find_member(ms: &Vec<JsonMember>, key: &str) -> (r: Option<usize>)
    ensures
        match r {
            Some(i) => i as int == member_index(ms@, key@) && i < ms@.len(),
            None => member_index(ms@, key@) == -1,
        },
{
    let mut i: usize = 0;
    while i < ms.len()
        invariant
            i <= ms@.len(),
            forall|l: int| 0 <= l < i ==> ms@[l].key@ != key@,
        decreases ms.len() - i,
    {
        if crate::text::str_eq(ms[i].key.as_str(), key) {
            proof {
                lemma_member_index(ms@, key@, i as int);
                lemma_member_index_range(ms@, key@);
            }
            return Some(i);
        }
        i = i + 1;
    }
    proof {
        lemma_member_index(ms@, key@, i as int);
    }
    None
}

/// One step down a path: the member under `piece` of an object, or the
/// element at the index `piece` spells of an array.
pub open spec fn step(v: JsonValue, piece: Seq<char>) -> Option<JsonValue> {
    match v {
        JsonValue::Object(ms) => {
            let i = member_index(ms@, piece);
            if i >= 0 {
                Some(ms@[i].value)
            } else {
                None
            }
        },
        JsonValue::Array(xs) => match parsed_index(piece) {
            Some(n) => if n < xs@.len() {
                Some(xs@[n as int])
            } else {
                None
            },
            None => None,
        },
        _ => None,
    }
}

/// The value at the end of the path `pieces` from `v`.
pub open spec fn lookup(v: JsonValue, pieces: Seq<Seq<char>>) -> Option<JsonValue>
    decreases pieces.len(),
{
    if pieces.len() == 0 {
        Some(v)
    } else {
        match step(v, pieces[0]) {
            Some(w) => lookup(w, pieces.drop_first()),
            None => None,
        }
    }
}

/// Whether `v` is an object with a member under each of `keys`.
pub open spec fn has_members(v: JsonValue, keys: Seq<String>) -> bool {
    match v {
        JsonValue::Object(ms) => forall|k: int| 0 <= k < keys.len() ==> member_index(ms@, #[trigger] keys[k]@) >= 0,
        _ => false,
    }
}

pub open spec fn piece_views(pieces: Seq<String>) -> Seq<Seq<char>> {
    pieces.map_values(|p: String| p@)
}

/// Helpers for JSON documents.
pub struct JsonUtils;

impl JsonUtils {
    /// The value at the dotted path `field_path` in `json_value`: each piece
    /// names an object member or, on an array, an index.
    pub fn get_field_value<'a>(json_value: &'a JsonValue, field_path: &str) -> (r: Option<&'a JsonValue>)
        ensures
            match r {
                Some(x) => lookup(*json_value, split_dots(field_path@)) == Some(*x),
                None => lookup(*json_value, split_dots(field_path@)) is None,
            },
    {
        let pieces = split_path(field_path);
        let ghost ps = piece_views(pieces@);
        let mut current: &JsonValue = json_value;
        let mut i: usize = 0;
        assert(ps.subrange(0, ps.len() as int) == ps);
        while i < pieces.len()
            invariant
                ps == piece_views(pieces@),
                ps == split_dots(field_path@),
                i <= pieces@.len(),
                lookup(*json_value, ps) == lookup(*current, ps.subrange(i as int, ps.len() as int)),
            decreases pieces.len() - i,
        {
            let piece = pieces[i].as_str();
            let ghost rest = ps.subrange(i as int, ps.len() as int);
            assert(rest[0] == piece@);
            assert(rest.drop_first() == ps.subrange(i + 1, ps.len() as int));
            match current {
                JsonValue::Object(ms) => {
                    match find_member(ms, piece) {
                        Some(j) => {
                            current = &ms[j].value;
                        },
                        None => {
                            return None;
                        },
                    }
                },
                JsonValue::Array(xs) => {
                    match parse_index(piece) {
                        Some(n) => {
                            if n < xs.len() {
                                current = &xs[n];
                            } else {
                                return None;
                            }
                        },
                        None => {
                            return None;
                        },
                    }
                },
                _ => {
                    return None;
                },
            }
            i = i + 1;
        }
        Some(current)
    }

    /// Whether the value is an object with a member under each of
    /// `required_fields`.
    pub fn validate_json_schema(json_value: &JsonValue, required_fields: &[String]) -> (r: bool)
        ensures
            r == has_members(*json_value, required_fields@),
    {
        match json_value {
            JsonValue::Object(ms) => {
                let mut k: usize = 0;
                while k < required_fields.len()
                    invariant
                        *json_value == JsonValue::Object(*ms),
                        k <= required_fields@.len(),
                        forall|l: int| 0 <= l < k ==> member_index(ms@, #[trigger] required_fields@[l]@) >= 0,
                    decreases required_fields.len() - k,
                {
                    let field = required_fields[k].as_str();
                    assert(field@ == required_fields@[k as int]@);
                    if find_member(ms, field).is_none() {
                        assert(member_index(ms@, required_fields@[k as int]@) < 0);
                        assert(!has_members(*json_value, required_fields@));
                        return false;
                    }
                    k = k + 1;
                }
                true
            },
            _ => false,
        }
    }

    /// The keys of an object, in order; none for another value.
    pub fn get_json_keys(json_value: &JsonValue) -> (r: Vec<String>)
        ensures
            match json_value {
                JsonValue::Object(ms) => r@.map_values(|k: String| k@) == ms@.map_values(|m: JsonMember| m.key@),
                _ => r@.len() == 0,
            },
    {
        let mut keys: Vec<String> = Vec::new();
        match json_value {
            JsonValue::Object(ms) => {
                let mut i: usize = 0;
                while i < ms.len()
                    invariant
                        i <= ms@.len(),
                        keys@.map_values(|k: String| k@) == ms@.subrange(0, i as int).map_values(|m: JsonMember| m.key@),
                    decreases ms.len() - i,
                {
                    let k = ms[i].key.clone();
                    keys.push(k);
                    assert(ms@.subrange(0, i + 1).map_values(|m: JsonMember| m.key@) == ms@.subrange(
                        0,
                        i as int,
                    ).map_values(|m: JsonMember| m.key@).push(ms@[i as int].key@));
                    i = i + 1;
                }
                assert(ms@.subrange(0, ms@.len() as int) == ms@);
            },
            _ => {},
        }
        keys
    }

    /// The length of an array; zero for another value.
    pub fn get_json_array_length(json_value: &JsonValue) -> (r: usize)
        ensures
            r == (match json_value {
                JsonValue::Array(xs) => xs@.len(),
                _ => 0,
            }),
    {
        match json_value {
            JsonValue::Array(xs) => xs.len(),
            _ => 0,
        }
    }
}

/// What a JSON value holds.
pub enum JsonModel {
    Null,
    Bool(bool),
    Number(Seq<char>),
    Text(Seq<char>),
    Array(Seq<JsonModel>),
    Object(Seq<(Seq<char>, JsonModel)>),
}

pub open spec fn model_of(v: JsonValue) -> JsonModel
    decreases v,
{
    match v {
        JsonValue::Null => JsonModel::Null,
        JsonValue::Bool(b) => JsonModel::Bool(b),
        JsonValue::Number(n) => JsonModel::Number(n@),
        JsonValue::Text(t) => JsonModel::Text(t@),
        JsonValue::Array(xs) => JsonModel::Array(
            Seq::new(xs@.len(), |i: int| if 0 <= i < xs@.len() { model_of(xs@[i]) } else { JsonModel::Null }),
        ),
        JsonValue::Object(ms) => JsonModel::Object(
            Seq::new(ms@.len(), |i: int| if 0 <= i < ms@.len() { (ms@[i].key@, model_of(ms@[i].value)) } else { (Seq::empty(), JsonModel::Null) }),
        ),
    }
}

pub open spec fn members_model(ms: Seq<JsonMember>) -> Seq<(Seq<char>, JsonModel)> {
    Seq::new(ms.len(), |i: int| if 0 <= i < ms.len() { (ms[i].key@, model_of(ms[i].value)) } else { (Seq::empty(), JsonModel::Null) })
}

/// The position of the first pair with key `k`, or -1.
pub open spec fn pair_index(ps: Seq<(Seq<char>, JsonModel)>, k: Seq<char>) -> int
    decreases ps.len(),
{
    if ps.len() == 0 {
        -1
    } else {
        let i = pair_index(ps.drop_last(), k);
        if i >= 0 {
            i
        } else if ps.last().0 == k {
            ps.len() - 1
        } else {
            -1
        }
    }
}

proof fn lemma_pair_index(ms: Seq<JsonMember>, k: Seq<char>)
    ensures
        pair_index(members_model(ms), k) == member_index(ms, k),
    decreases ms.len(),
{
    if ms.len() > 0 {
        lemma_pair_index(ms.drop_last(), k);
        assert(members_model(ms).drop_last() == members_model(ms.drop_last()));
    }
}

/// `x` under `k`: in place of the first pair under `k`, or added at the end.
pub open spec fn upsert(ps: Seq<(Seq<char>, JsonModel)>, k: Seq<char>, x: JsonModel) -> Seq<(Seq<char>, JsonModel)> {
    let i = pair_index(ps, k);
    if i >= 0 {
        ps.update(i, (k, x))
    } else {
        ps.push((k, x))
    }
}

/// Why a path could not be followed to change a document.
#[derive(Debug, Clone, Copy, PartialEq, Eq, Structural)]
pub enum JsonPathError {
    /// The last piece names a member of a value that is no object.
    SetOnNonObject,
    /// The last piece names a member of a value that is no object.
    RemoveFromNonObject,
    /// A piece before the last crosses a value that is no object.
    NavigateThroughNonObject,
}

/// The document after setting `x` at the path `pieces` (at least one),
/// creating empty objects for missing members on the way, and the error
/// that stopped it, if any; what was created before the error stays.
pub open spec fn set_at(m: JsonModel, pieces: Seq<Seq<char>>, x: JsonModel) -> (JsonModel, Option<JsonPathError>)
    decreases pieces.len(),
{
    match m {
        JsonModel::Object(ps) => if pieces.len() <= 1 {
            (JsonModel::Object(upsert(ps, pieces[0], x)), None)
        } else {
            let i = pair_index(ps, pieces[0]);
            let child = if i >= 0 { ps[i].1 } else { JsonModel::Object(Seq::empty()) };
            let (c, e) = set_at(child, pieces.drop_first(), x);
            (JsonModel::Object(upsert(ps, pieces[0], c)), e)
        },
        _ => (m, Some(if pieces.len() <= 1 { JsonPathError::SetOnNonObject } else { JsonPathError::NavigateThroughNonObject })),
    }
}

proof fn lemma_model_object(v: JsonValue)
    ensures
        v matches JsonValue::Object(w) ==> model_of(v) == JsonModel::Object(members_model(w@)),
{
    match v {
        JsonValue::Object(w) => {
            let s = match model_of(v) {
                JsonModel::Object(s) => s,
                _ => Seq::empty(),
            };
            assert(model_of(v) is Object);
            assert(s.len() == w@.len());
            assert forall|i: int| 0 <= i < s.len() implies s[i] == members_model(w@)[i] by {
                assert(s[i] == (w@[i].key@, model_of(w@[i].value)));
            }
            assert(s =~= members_model(w@));
        },
        _ => {},
    }
}

/// Puts `value` under `key` in `ms`: in place of the first member under it,
/// or at the end.
fn upsert_member(ms: &mut Vec<JsonMember>, key: &str, value: JsonValue)
    ensures
        members_model(final(ms)@) == upsert(members_model(old(ms)@), key@, model_of(value)),
{
    let ghost before = members_model(ms@);
    proof {
        lemma_pair_index(ms@, key@);
    }
    match find_member(ms, key) {
        Some(j) => {
            let ghost k = ms@[j as int].key@;
            ms.set(j, JsonMember { key: key.to_owned(), value });
            assert(members_model(ms@) =~= before.update(j as int, (key@, model_of(value))));
        },
        None => {
            ms.push(JsonMember { key: key.to_owned(), value });
            assert(members_model(ms@) =~= before.push((key@, model_of(value))));
        },
    }
}

fn set_in(v: &mut JsonValue, pieces: &Vec<String>, i: usize, value: JsonValue) -> (r: Result<(), JsonPathError>)
    requires
        i < pieces@.len(),
    ensures
        (model_of(*final(v)), outcome(r)) == set_at(model_of(*old(v)), piece_views(pieces@).subrange(i as int, pieces@.len() as int), model_of(value)),
    decreases pieces@.len() - i,
{
    let ghost ps = piece_views(pieces@).subrange(i as int, pieces@.len() as int);
    assert(ps[0] == pieces@[i as int]@);
    assert(ps.drop_first() == piece_views(pieces@).subrange(i + 1, pieces@.len() as int));
    proof {
        lemma_model_object(*v);
    }
    let ghost old_v = *v;
    let ghost x = model_of(value);
    let ghost expected = set_at(model_of(old_v), ps, x);
    let r = match v {
        JsonValue::Object(ms) => {
            let ghost before = ms@;
            let key = pieces[i].as_str();
            if i == pieces.len() - 1 {
                upsert_member(ms, key, value);
                assert(ps.len() == 1);
                assert(expected == (JsonModel::Object(upsert(members_model(before), key@, x)), None::<JsonPathError>));
                Ok(())
            } else {
                proof {
                    lemma_pair_index(ms@, key@);
                    lemma_member_index_range(ms@, key@);
                }
                let j = match find_member(ms, key) {
                    Some(j) => j,
                    None => {
                        let empty = JsonValue::Object(Vec::new());
                        assert(model_of(empty) == JsonModel::Object(Seq::empty())) by {
                            lemma_model_object(empty);
                            assert(members_model(Seq::<JsonMember>::empty()) =~= Seq::empty());
                        }
                        ms.push(JsonMember { key: key.to_owned(), value: empty });
                        assert(members_model(ms@) =~= members_model(before).push((key@, JsonModel::Object(Seq::empty()))));
                        ms.len() - 1
                    },
                };
                let ghost mid = ms@;
                assert(mid[j as int].key@ == key@);
                assert(members_model(mid)[j as int].1 == model_of(mid[j as int].value));
                let r = set_in(&mut ms[j].value, pieces, i + 1, value);
                proof {
                    assert(ms@ == mid.update(j as int, ms@[j as int]));
                    assert(ms@[j as int].key == mid[j as int].key);
                    assert(members_model(ms@) =~= members_model(mid).update(j as int, (key@, model_of(ms@[j as int].value))));
                    let pm = members_model(before);
                    let i0 = pair_index(pm, key@);
                    let child = if i0 >= 0 { pm[i0].1 } else { JsonModel::Object(Seq::empty()) };
                    assert(model_of(mid[j as int].value) == child);
                    let sub = set_at(child, ps.drop_first(), x);
                    assert(expected == (JsonModel::Object(upsert(pm, key@, sub.0)), sub.1));
                    assert(members_model(ms@) =~= upsert(pm, key@, sub.0));
                }
                r
            }
        },
        _ => {
            if i == pieces.len() - 1 {
                Err(JsonPathError::SetOnNonObject)
            } else {
                Err(JsonPathError::NavigateThroughNonObject)
            }
        },
    };
    proof {
        lemma_model_object(*v);
        assert(model_of(*v) == expected.0);
    }
    r
}
/// `ps` without the first pair under `k`.
pub open spec fn remove_pair(ps: Seq<(Seq<char>, JsonModel)>, k: Seq<char>) -> Seq<(Seq<char>, JsonModel)> {
    let i = pair_index(ps, k);
    if i >= 0 {
        ps.remove(i)
    } else {
        ps
    }
}

/// The document after removing the member at the path `pieces` (at least
/// one), and the error that stopped it, if any. A missing member on the way
/// leaves the document as it is.
pub open spec fn remove_at(m: JsonModel, pieces: Seq<Seq<char>>) -> (JsonModel, Option<JsonPathError>)
    decreases pieces.len(),
{
    match m {
        JsonModel::Object(ps) => if pieces.len() <= 1 {
            (JsonModel::Object(remove_pair(ps, pieces[0])), None)
        } else {
            let i = pair_index(ps, pieces[0]);
            if i >= 0 {
                let (c, e) = remove_at(ps[i].1, pieces.drop_first());
                (JsonModel::Object(ps.update(i, (pieces[0], c))), e)
            } else {
                (m, None)
            }
        },
        _ => (m, Some(if pieces.len() <= 1 { JsonPathError::RemoveFromNonObject } else { JsonPathError::NavigateThroughNonObject })),
    }
}

pub open spec fn outcome(r: Result<(), JsonPathError>) -> Option<JsonPathError> {
    match r {
        Ok(()) => None,
        Err(e) => Some(e),
    }
}

fn remove_in(v: &mut JsonValue, pieces: &Vec<String>, i: usize) -> (r: Result<(), JsonPathError>)
    requires
        i < pieces@.len(),
    ensures
        (model_of(*final(v)), outcome(r)) == remove_at(model_of(*old(v)), piece_views(pieces@).subrange(i as int, pieces@.len() as int)),
    decreases pieces@.len() - i,
{
    let ghost ps = piece_views(pieces@).subrange(i as int, pieces@.len() as int);
    assert(ps[0] == pieces@[i as int]@);
    assert(ps.drop_first() == piece_views(pieces@).subrange(i + 1, pieces@.len() as int));
    proof {
        lemma_model_object(*v);
    }
    let ghost old_v = *v;
    let ghost expected = remove_at(model_of(old_v), ps);
    let r = match v {
        JsonValue::Object(ms) => {
            let ghost before = ms@;
            let key = pieces[i].as_str();
            proof {
                lemma_pair_index(ms@, key@);
                lemma_member_index_range(ms@, key@);
            }
            match find_member(ms, key) {
                Some(j) => {
                    if i == pieces.len() - 1 {
                        ms.remove(j);
                        assert(members_model(ms@) =~= members_model(before).remove(j as int));
                        Ok(())
                    } else {
                        let ghost mid = ms@;
                        let r = remove_in(&mut ms[j].value, pieces, i + 1);
                        proof {
                            assert(ms@ == mid.update(j as int, ms@[j as int]));
                            assert(members_model(ms@) =~= members_model(mid).update(
                                j as int,
                                (key@, model_of(ms@[j as int].value)),
                            ));
                        }
                        r
                    }
                },
                None => {
                    Ok(())
                },
            }
        },
        _ => {
            if i == pieces.len() - 1 {
                Err(JsonPathError::RemoveFromNonObject)
            } else {
                Err(JsonPathError::NavigateThroughNonObject)
            }
        },
    };
    proof {
        lemma_model_object(*v);
        assert(model_of(*v) == expected.0);
    }
    r
}

impl JsonUtils {
    /// Sets `value` at the dotted path `field_path`, creating empty objects
    /// for missing members on the way. Fails on a value that is no object
    /// where a member is named; what was created before stays.
    pub fn set_field_value(json_value: &mut JsonValue, field_path: &str, value: JsonValue) -> (r: Result<(), JsonPathError>)
        ensures
            (model_of(*final(json_value)), outcome(r)) == set_at(
                model_of(*old(json_value)),
                split_dots(field_path@),
                model_of(value),
            ),
    {
        let pieces = split_path(field_path);
        proof {
            lemma_split_dots_nonempty(field_path@);
            assert(piece_views(pieces@).subrange(0, pieces@.len() as int) == piece_views(pieces@));
        }
        let r = set_in(json_value, &pieces, 0, value);
        assert(outcome(r) == (match r {
            Ok(()) => None,
            Err(e) => Some(e),
        }));
        r
    }

    /// Removes the member at the dotted path `field_path`; a missing member
    /// on the way is no error. Fails on a value that is no object where a
    /// member is named.
    pub fn remove_field(json_value: &mut JsonValue, field_path: &str) -> (r: Result<(), JsonPathError>)
        ensures
            (model_of(*final(json_value)), outcome(r)) == remove_at(model_of(*old(json_value)), split_dots(field_path@)),
    {
        let pieces = split_path(field_path);
        proof {
            lemma_split_dots_nonempty(field_path@);
            assert(piece_views(pieces@).subrange(0, pieces@.len() as int) == piece_views(pieces@));
        }
        remove_in(json_value, &pieces, 0)
    }
}

pub open spec fn elements_model(xs: Seq<JsonValue>) -> Seq<JsonModel> {
    Seq::new(xs.len(), |i: int| if 0 <= i < xs.len() { model_of(xs[i]) } else { JsonModel::Null })
}

proof fn lemma_model_array(v: JsonValue)
    ensures
        v matches JsonValue::Array(w) ==> model_of(v) == JsonModel::Array(elements_model(w@)),
{
    match v {
        JsonValue::Array(w) => {
            let s = match model_of(v) {
                JsonModel::Array(s) => s,
                _ => Seq::empty(),
            };
            assert(model_of(v) is Array);
            assert(s.len() == w@.len());
            assert forall|i: int| 0 <= i < s.len() implies s[i] == elements_model(w@)[i] by {
                assert(s[i] == model_of(w@[i]));
            }
            assert(s =~= elements_model(w@));
        },
        _ => {},
    }
}

impl JsonValue {
    /// A copy of the whole document.
    pub fn deep_clone(&self) -> (r: JsonValue)
        ensures
            model_of(r) == model_of(*self),
        decreases self,
    {
        proof {
            lemma_model_object(*self);
            lemma_model_array(*self);
        }
        match self {
            JsonValue::Null => JsonValue::Null,
            JsonValue::Bool(b) => JsonValue::Bool(*b),
            JsonValue::Number(n) => JsonValue::Number(n.clone()),
            JsonValue::Text(t) => JsonValue::Text(t.clone()),
            JsonValue::Array(xs) => {
                let mut out: Vec<JsonValue> = Vec::new();
                let mut i: usize = 0;
                while i < xs.len()
                    invariant
                        i <= xs@.len(),
                        *self == JsonValue::Array(*xs),
                        elements_model(out@) == elements_model(xs@.subrange(0, i as int)),
                    decreases xs.len() - i,
                {
                    proof {
                        assert(decreases_to!(*self => (*self)->Array_0));
                        assert((*self)->Array_0 == *xs);
                        assert(decreases_to!(*xs => xs@));
                        assert(decreases_to!(xs@ => xs@[i as int]));
                        assert(decreases_to!(*self => xs@[i as int]));
                    }
                    let c = xs[i].deep_clone();
                    let ghost before = out@;
                    out.push(c);
                    assert(elements_model(out@) =~= elements_model(before).push(model_of(c)));
                    assert(elements_model(xs@.subrange(0, i + 1)) =~= elements_model(xs@.subrange(0, i as int)).push(
                        model_of(xs@[i as int]),
                    ));
                    i = i + 1;
                }
                assert(xs@.subrange(0, xs@.len() as int) == xs@);
                let r = JsonValue::Array(out);
                proof {
                    lemma_model_array(r);
                }
                r
            },
            JsonValue::Object(ms) => {
                let mut out: Vec<JsonMember> = Vec::new();
                let mut i: usize = 0;
                while i < ms.len()
                    invariant
                        i <= ms@.len(),
                        *self == JsonValue::Object(*ms),
                        members_model(out@) == members_model(ms@.subrange(0, i as int)),
                    decreases ms.len() - i,
                {
                    proof {
                        assert(decreases_to!(*self => (*self)->Object_0));
                        assert((*self)->Object_0 == *ms);
                        assert(decreases_to!(*ms => ms@));
                        assert(decreases_to!(ms@ => ms@[i as int]));
                        assert(decreases_to!(ms@[i as int] => ms@[i as int].value));
                        assert(decreases_to!(*self => ms@[i as int].value));
                    }
                    let c = ms[i].value.deep_clone();
                    let k = ms[i].key.clone();
                    let ghost before = out@;
                    out.push(JsonMember { key: k, value: c });
                    assert(members_model(out@) =~= members_model(before).push((ms@[i as int].key@, model_of(c))));
                    assert(members_model(ms@.subrange(0, i + 1)) =~= members_model(ms@.subrange(0, i as int)).push(
                        (ms@[i as int].key@, model_of(ms@[i as int].value)),
                    ));
                    i = i + 1;
                }
                assert(ms@.subrange(0, ms@.len() as int) == ms@);
                let r = JsonValue::Object(out);
                proof {
                    lemma_model_object(r);
                }
                r
            },
        }
    }
}

pub open spec fn pairs_len(s: JsonModel) -> nat {
    match s {
        JsonModel::Object(sp) => sp.len(),
        _ => 0,
    }
}

/// `source` merged into `target`: two objects merge member by member, in
/// the source's order; anything else is replaced by the source.
pub open spec fn merge_model(target: JsonModel, source: JsonModel) -> JsonModel
    decreases source, pairs_len(source) + 1,
{
    match target {
        JsonModel::Object(tp) => match source {
            JsonModel::Object(sp) => JsonModel::Object(merge_pairs(tp, source, 0)),
            _ => source,
        },
        _ => source,
    }
}

/// The members of the object `source` from the `k`-th on merged into `acc`:
/// a member under a key `acc` has is merged into it, another is added.
pub open spec fn merge_pairs(acc: Seq<(Seq<char>, JsonModel)>, source: JsonModel, k: nat) -> Seq<(Seq<char>, JsonModel)>
    decreases source, pairs_len(source) - k,
{
    match source {
        JsonModel::Object(sp) => if k < sp.len() {
            let key = sp[k as int].0;
            let sv = sp[k as int].1;
            let i = pair_index(acc, key);
            let next = if i >= 0 {
                acc.update(i, (key, merge_model(acc[i].1, sv)))
            } else {
                acc.push((key, sv))
            };
            merge_pairs(next, source, k + 1)
        } else {
            acc
        },
        _ => acc,
    }
}

impl JsonUtils {
    /// Merges `source` into `target`: two objects merge member by member,
    /// in the source's order, a member under a key the target has into that
    /// member, another added at the end; anything else is replaced by a copy
    /// of the source.
    pub fn merge_values(target: &mut JsonValue, source: &JsonValue)
        ensures
            model_of(*final(target)) == merge_model(model_of(*old(target)), model_of(*source)),
        decreases source,
    {
        proof {
            lemma_model_object(*target);
            lemma_model_object(*source);
        }
        let ghost old_t = *target;
        let target_is_object = match target {
            JsonValue::Object(_) => true,
            _ => false,
        };
        match source {
            JsonValue::Object(sms) => {
                if !target_is_object {
                    *target = source.deep_clone();
                    return;
                }
                let ghost sm = model_of(*source);
                match target {
                    JsonValue::Object(tms) => {
                        let ghost t0 = members_model(tms@);
                        let mut k: usize = 0;
                        while k < sms.len()
                            invariant
                                *source == JsonValue::Object(*sms),
                                sm == model_of(*source),
                                sm == JsonModel::Object(members_model(sms@)),
                                k <= sms@.len(),
                                merge_pairs(members_model(tms@), sm, k as nat) == merge_pairs(t0, sm, 0),
                            decreases sms.len() - k,
                        {
                            let key = sms[k].key.as_str();
                            let ghost cur = members_model(tms@);
                            proof {
                                lemma_pair_index(tms@, key@);
                                lemma_member_index_range(tms@, key@);
                                assert(members_model(sms@)[k as int] == (sms@[k as int].key@, model_of(sms@[k as int].value)));
                            }
                            match find_member(tms, key) {
                                Some(j) => {
                                    proof {
                                        assert(decreases_to!(*source => (*source)->Object_0));
                                        assert((*source)->Object_0 == *sms);
                                        assert(decreases_to!(*sms => sms@));
                                        assert(decreases_to!(sms@ => sms@[k as int]));
                                        assert(decreases_to!(sms@[k as int] => sms@[k as int].value));
                                        assert(decreases_to!(*source => sms@[k as int].value));
                                    }
                                    let ghost mid = tms@;
                                    Self::merge_values(&mut tms[j].value, &sms[k].value);
                                    proof {
                                        assert(tms@ == mid.update(j as int, tms@[j as int]));
                                        assert(members_model(tms@) =~= cur.update(
                                            j as int,
                                            (key@, merge_model(cur[j as int].1, model_of(sms@[k as int].value))),
                                        ));
                                    }
                                },
                                None => {
                                    let c = sms[k].value.deep_clone();
                                    let kk = sms[k].key.clone();
                                    tms.push(JsonMember { key: kk, value: c });
                                    assert(members_model(tms@) =~= cur.push((key@, model_of(sms@[k as int].value))));
                                },
                            }
                            k = k + 1;
                        }
                    },
                    _ => {},
                }
                proof {
                    lemma_model_object(*target);
                }
            },
            _ => {
                *target = source.deep_clone();
            },
        }
    }
}

pub open spec fn children_len(m: JsonModel) -> nat {
    match m {
        JsonModel::Object(sp) => sp.len(),
        JsonModel::Array(xs) => xs.len(),
        _ => 0,
    }
}

/// The path of member `key` under `prefix`: `prefix.key`, or `key` at the top.
pub open spec fn member_path(prefix: Seq<char>, key: Seq<char>) -> Seq<char> {
    if prefix.len() == 0 {
        key
    } else {
        prefix + seq!['.'] + key
    }
}

/// The path of element `i` under `prefix`: `prefix[i]`.
pub open spec fn element_path(prefix: Seq<char>, i: nat) -> Seq<char> {
    prefix + seq!['['] + decimal(i) + seq![']']
}

/// `acc` with the leaves of `m` under `prefix` written into it, each under
/// its path, a later leaf replacing an earlier one under the same path.
pub open spec fn flat(acc: Seq<(Seq<char>, JsonModel)>, m: JsonModel, prefix: Seq<char>) -> Seq<(Seq<char>, JsonModel)>
    decreases m, children_len(m) + 1,
{
    match m {
        JsonModel::Object(_) => flat_children(acc, m, prefix, 0),
        JsonModel::Array(_) => flat_children(acc, m, prefix, 0),
        _ => upsert(acc, prefix, m),
    }
}

/// `acc` with the leaves of the children of `m` from the `k`-th on.
pub open spec fn flat_children(acc: Seq<(Seq<char>, JsonModel)>, m: JsonModel, prefix: Seq<char>, k: nat) -> Seq<(Seq<char>, JsonModel)>
    decreases m, children_len(m) - k,
{
    match m {
        JsonModel::Object(sp) => if k < sp.len() {
            flat_children(flat(acc, sp[k as int].1, member_path(prefix, sp[k as int].0)), m, prefix, k + 1)
        } else {
            acc
        },
        JsonModel::Array(xs) => if k < xs.len() {
            flat_children(flat(acc, xs[k as int], element_path(prefix, k)), m, prefix, k + 1)
        } else {
            acc
        },
        _ => acc,
    }
}

impl JsonUtils {
    /// Writes the leaves of `value` into `result`, each under its path from
    /// `prefix`: `a.b` for members, `a[0]` for elements; a later leaf
    /// replaces an earlier one under the same path.
    pub fn flatten_value(value: &JsonValue, prefix: &str, result: &mut Vec<JsonMember>)
        ensures
            members_model(final(result)@) == flat(members_model(old(result)@), model_of(*value), prefix@),
        decreases value,
    {
        proof {
            lemma_model_object(*value);
            lemma_model_array(*value);
        }
        let ghost m = model_of(*value);
        let ghost r0 = members_model(result@);
        match value {
            JsonValue::Object(ms) => {
                let mut k: usize = 0;
                while k < ms.len()
                    invariant
                        *value == JsonValue::Object(*ms),
                        m == model_of(*value),
                        m == JsonModel::Object(members_model(ms@)),
                        k <= ms@.len(),
                        flat_children(members_model(result@), m, prefix@, k as nat) == flat(r0, m, prefix@),
                    decreases ms.len() - k,
                {
                    let key = ms[k].key.as_str();
                    let path = if prefix.unicode_len() == 0 {
                        key.to_owned()
                    } else {
                        let mut p = prefix.to_owned();
                        crate::text::push_char(&mut p, '.');
                        crate::text::push_str(&mut p, key);
                        p
                    };
                    proof {
                        assert(decreases_to!(*value => (*value)->Object_0));
                        assert((*value)->Object_0 == *ms);
                        assert(decreases_to!(*ms => ms@));
                        assert(decreases_to!(ms@ => ms@[k as int]));
                        assert(decreases_to!(ms@[k as int] => ms@[k as int].value));
                        assert(decreases_to!(*value => ms@[k as int].value));
                        assert(members_model(ms@)[k as int] == (ms@[k as int].key@, model_of(ms@[k as int].value)));
                        assert(path@ == member_path(prefix@, key@));
                    }
                    Self::flatten_value(&ms[k].value, path.as_str(), result);
                    k = k + 1;
                }
            },
            JsonValue::Array(xs) => {
                let mut k: usize = 0;
                while k < xs.len()
                    invariant
                        *value == JsonValue::Array(*xs),
                        m == model_of(*value),
                        m == JsonModel::Array(elements_model(xs@)),
                        k <= xs@.len(),
                        flat_children(members_model(result@), m, prefix@, k as nat) == flat(r0, m, prefix@),
                    decreases xs.len() - k,
                {
                    let mut path = prefix.to_owned();
                    crate::text::push_char(&mut path, '[');
                    crate::text::push_decimal(&mut path, k as u64);
                    crate::text::push_char(&mut path, ']');
                    proof {
                        assert(decreases_to!(*value => (*value)->Array_0));
                        assert((*value)->Array_0 == *xs);
                        assert(decreases_to!(*xs => xs@));
                        assert(decreases_to!(xs@ => xs@[k as int]));
                        assert(decreases_to!(*value => xs@[k as int]));
                        assert(elements_model(xs@)[k as int] == model_of(xs@[k as int]));
                        assert(path@ == element_path(prefix@, k as nat));
                    }
                    Self::flatten_value(&xs[k], path.as_str(), result);
                    k = k + 1;
                }
            },
            _ => {
                let leaf = value.deep_clone();
                upsert_member(result, prefix, leaf);
            },
        }
    }

    /// The leaves of `json_value`, each under its path.
    pub fn flatten_json(json_value: &JsonValue) -> (r: Vec<JsonMember>)
        ensures
            members_model(r@) == flat(Seq::empty(), model_of(*json_value), Seq::empty()),
    {
        let mut result: Vec<JsonMember> = Vec::new();
        assert(members_model(result@) =~= Seq::empty());
        proof {
            reveal_strlit("");
            assert(""@ =~= Seq::<char>::empty());
        }
        Self::flatten_value(json_value, "", &mut result);
        result
    }
}

} // verus!
