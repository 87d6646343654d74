//! JSON manipulation utilities: merging objects, and reading and writing a
//! value under a path of keys separated by dots.

use crate::error::Error;
use crate::json::{
    find_key, insert_member, items_view, Json, JsonValue, lemma_array_view, lemma_find_key,
    lemma_object_view, lookup, members_view, position, put, set_member,
};
use crate::utils::text::{decimal, decimal_string, texts};
use vstd::prelude::*;
use vstd::string::{StrSliceExecFns, StringExecFns};

verus! {

/// The parts of `s` between the occurrences of `c`. There is always at
/// least one part.
pub open spec fn split_on(s: Seq<char>, c: char) -> Seq<Seq<char>>
    decreases s.len(),
{
    if s.len() == 0 {
        Seq::empty().push(Seq::empty())
    } else {
        let parts = split_on(s.drop_last(), c);
        if s.last() == c {
            parts.push(Seq::empty())
        } else {
            parts.update(parts.len() - 1, parts.last().push(s.last()))
        }
    }
}

/// Splits a text at every occurrence of `c`.
pub fn split(s: &str, c: char) -> (parts: Vec<String>)
    ensures
        texts(parts@) == split_on(s@, c),
        parts.len() >= 1,
{
    let n = s.unicode_len();
    let mut parts: Vec<String> = Vec::new();
    let mut start: usize = 0;
    let mut i: usize = 0;
    assert(s@.subrange(0, 0) =~= Seq::<char>::empty());
    assert(texts(parts@).push(s@.subrange(0, 0)) =~= split_on(s@.subrange(0, 0), c));
    while i < n
        invariant
            start <= i <= n,
            n == s@.len(),
            texts(parts@).push(s@.subrange(start as int, i as int)) == split_on(
                s@.subrange(0, i as int),
                c,
            ),
        decreases n - i,
    {
        let ghost before = texts(parts@);
        let ghost prefix = s@.subrange(0, i as int);
        let ghost next = s@.subrange(0, i + 1);
        proof {
            assert(next.drop_last() =~= prefix);
            assert(next.last() == s@[i as int]);
        }
        if s.get_char(i) == c {
            parts.push(s.substring_char(start, i).to_owned());
            proof {
                assert(texts(parts@) =~= before.push(s@.subrange(start as int, i as int)));
                assert(s@.subrange(i + 1, i + 1) =~= Seq::<char>::empty());
            }
            start = i + 1;
        } else {
            proof {
                let old_parts = before.push(s@.subrange(start as int, i as int));
                assert(old_parts.last().push(s@[i as int]) =~= s@.subrange(start as int, i + 1));
                assert(old_parts.update(old_parts.len() - 1, s@.subrange(start as int, i + 1))
                    =~= before.push(s@.subrange(start as int, i + 1)));
            }
        }
        i += 1;
    }
    let ghost before = texts(parts@);
    parts.push(s.substring_char(start, n).to_owned());
    proof {
        assert(texts(parts@) =~= before.push(s@.subrange(start as int, n as int)));
        assert(s@.subrange(0, n as int) =~= s@);
    }
    parts
}

/// The value of a decimal digit.
pub open spec fn digit_value(c: char) -> Option<nat> {
    if c == '0' {
        Some(0)
    } else if c == '1' {
        Some(1)
    } else if c == '2' {
        Some(2)
    } else if c == '3' {
        Some(3)
    } else if c == '4' {
        Some(4)
    } else if c == '5' {
        Some(5)
    } else if c == '6' {
        Some(6)
    } else if c == '7' {
        Some(7)
    } else if c == '8' {
        Some(8)
    } else if c == '9' {
        Some(9)
    } else {
        None
    }
}

/// The number that a text of decimal digits denotes; `None` when a
/// character is no digit. The empty text denotes zero.
pub open spec fn digits_value(s: Seq<char>) -> Option<nat>
    decreases s.len(),
{
    if s.len() == 0 {
        Some(0)
    } else {
        match (digits_value(s.drop_last()), digit_value(s.last())) {
            (Some(v), Some(d)) => Some(v * 10 + d),
            _ => None,
        }
    }
}

/// The array index that a key denotes: decimal digits, at least one, with
/// an optional `+` before them, and a value that fits in `usize`.
pub open spec fn index_of_key(key: Seq<char>) -> Option<usize> {
    let digits = if key.len() > 0 && key[0] == '+' {
        key.drop_first()
    } else {
        key
    };
    if digits.len() == 0 {
        None
    } else {
        match digits_value(digits) {
            Some(v) => if v <= usize::MAX {
                Some(v as usize)
            } else {
                None
            },
            None => None,
        }
    }
}

/// A longer text of digits denotes no smaller number.
proof fn lemma_digits_grow(s: Seq<char>, n: int)
    requires
        0 <= n <= s.len(),
        digits_value(s) is Some,
    ensures
        digits_value(s.subrange(0, n)) is Some,
        digits_value(s.subrange(0, n))->Some_0 <= digits_value(s)->Some_0,
    decreases s.len() - n,
{
    if n == s.len() {
        assert(s.subrange(0, n) =~= s);
    } else {
        lemma_digits_grow(s, n + 1);
        assert(s.subrange(0, n + 1).drop_last() =~= s.subrange(0, n));
    }
}

/// A text with a character that is no digit denotes no number.
proof fn lemma_digits_all(s: Seq<char>, n: int)
    requires
        0 <= n < s.len(),
        digit_value(s[n]) is None,
    ensures
        digits_value(s) is None,
    decreases s.len(),
{
    if n < s.len() - 1 {
        lemma_digits_all(s.drop_last(), n);
    }
}

/// The value of a decimal digit.
fn read_digit(c: char) -> (r: Option<usize>)
    ensures
        match r {
            Some(d) => digit_value(c) == Some(d as nat) && d < 10,
            None => digit_value(c) is None,
        },
{
    if c == '0' {
        Some(0)
    } else if c == '1' {
        Some(1)
    } else if c == '2' {
        Some(2)
    } else if c == '3' {
        Some(3)
    } else if c == '4' {
        Some(4)
    } else if c == '5' {
        Some(5)
    } else if c == '6' {
        Some(6)
    } else if c == '7' {
        Some(7)
    } else if c == '8' {
        Some(8)
    } else if c == '9' {
        Some(9)
    } else {
        None
    }
}

/// Reads a key as an array index.
pub fn parse_index(key: &str) -> (r: Option<usize>)
    ensures
        r == index_of_key(key@),
{
    let n = key.unicode_len();
    let start: usize = if n > 0 && key.get_char(0) == '+' {
        1
    } else {
        0
    };
    if start == n {
        return None;
    }
    let ghost digits = key@.subrange(start as int, n as int);
    proof {
        if start == 1 {
            assert(digits =~= key@.drop_first());
        } else {
            assert(digits =~= key@);
        }
    }
    let mut value: usize = 0;
    let mut i: usize = start;
    assert(digits.subrange(0, 0) =~= Seq::<char>::empty());
    while i < n
        invariant
            start <= i <= n,
            n == key@.len(),
            digits == key@.subrange(start as int, n as int),
            digits.len() > 0,
            digits == (if key@.len() > 0 && key@[0] == '+' {
                key@.drop_first()
            } else {
                key@
            }),
            digits_value(digits.subrange(0, i - start)) == Some(value as nat),
        decreases n - i,
    {
        let ghost prefix = digits.subrange(0, i - start);
        let ghost next = digits.subrange(0, i - start + 1);
        proof {
            assert(next.drop_last() =~= prefix);
            assert(next.last() == key@[i as int]);
        }
        let d = match read_digit(key.get_char(i)) {
            Some(d) => d,
            None => {
                proof {
                    lemma_digits_all(digits, i - start);
                }
                return None;
            },
        };
        let scaled = match value.checked_mul(10) {
            Some(v) => v,
            None => {
                proof {
                    if digits_value(digits) is Some {
                        lemma_digits_grow(digits, i - start + 1);
                    }
                }
                return None;
            },
        };
        value = match scaled.checked_add(d) {
            Some(v) => v,
            None => {
                proof {
                    if digits_value(digits) is Some {
                        lemma_digits_grow(digits, i - start + 1);
                    }
                }
                return None;
            },
        };
        i += 1;
    }
    assert(digits.subrange(0, n - start) =~= digits);
    Some(value)
}

/// The value under a path of keys: an object is entered by the key of a
/// member, an array by the index of an item, and anything else cannot be
/// entered.
pub open spec fn path_get(j: JsonValue, parts: Seq<Seq<char>>, from: nat) -> Option<JsonValue>
    decreases parts.len() - from,
{
    if from >= parts.len() {
        Some(j)
    } else {
        match j {
            JsonValue::Object(members) => match lookup(members, parts[from as int]) {
                Some(v) => path_get(v, parts, from + 1),
                None => None,
            },
            JsonValue::Array(items) => match index_of_key(parts[from as int]) {
                Some(n) => if n < items.len() {
                    path_get(items[n as int], parts, from + 1)
                } else {
                    None
                },
                None => None,
            },
            _ => None,
        }
    }
}

/// Get a value from a JSON object using a path.
///
/// The path is a string of keys separated by dots, e.g., "foo.bar.baz".
pub fn json_path_get<'a>(json: &'a Json, path: &str) -> (r: Option<&'a Json>)
    ensures
        match r {
            Some(v) => path_get(json@, split_on(path@, '.'), 0) == Some(v@),
            None => path_get(json@, split_on(path@, '.'), 0) is None,
        },
{
    let parts = split(path, '.');
    let ghost keys = texts(parts@);
    let mut current: &Json = json;
    let mut i: usize = 0;
    while i < parts.len()
        invariant
            i <= parts.len(),
            keys == texts(parts@),
            keys == split_on(path@, '.'),
            path_get(json@, keys, 0) == path_get(current@, keys, i as nat),
        decreases parts.len() - i,
    {
        let key = parts[i].as_str();
        assert(key@ == keys[i as int]);
        match current {
            Json::Object(members) => {
                proof {
                    lemma_object_view(*members);
                }
                match position(members, key) {
                    Some(at) => {
                        current = &members[at].1;
                    },
                    None => {
                        return None;
                    },
                }
            },
            Json::Array(items) => {
                proof {
                    lemma_array_view(*items);
                }
                match parse_index(key) {
                    Some(n) => {
                        if n < items.len() {
                            current = &items[n];
                        } else {
                            return None;
                        }
                    },
                    None => {
                        return None;
                    },
                }
            },
            _ => {
                return None;
            },
        }
        i += 1;
    }
    Some(current)
}

/// Why a value could not be set under a path.
pub enum PathFault {
    /// The index is not below the length of the array.
    OutOfBounds(usize),
    /// The key of an array item is no index.
    InvalidIndex(Seq<char>),
    /// The value that the last key is looked up in is neither an object nor
    /// an array.
    NotSettable,
    /// A value on the way is neither an object nor an array.
    NotTraversable,
}

impl PathFault {
    /// The text of the error that reports the fault.
    pub open spec fn message(self) -> Seq<char> {
        match self {
            PathFault::OutOfBounds(n) => "Array index out of bounds: "@ + decimal(n as nat),
            PathFault::InvalidIndex(key) => "Invalid array index: "@ + key,
            PathFault::NotSettable => "Cannot set value on non-object or non-array"@,
            PathFault::NotTraversable => "Cannot traverse non-object or non-array"@,
        }
    }
}

/// The container that is made for a missing key on the way: an array when
/// the next key is an index, else an object.
pub open spec fn made_for(next_key: Seq<char>) -> JsonValue {
    if index_of_key(next_key) is Some {
        JsonValue::Array(Seq::empty())
    } else {
        JsonValue::empty_object()
    }
}

/// The document after `value` was set under the path that starts at part
/// `from`, and the fault that stopped it, if any. A missing member on the
/// way is made; what was made stays when a later step fails.
pub open spec fn path_set(j: JsonValue, parts: Seq<Seq<char>>, from: nat, value: JsonValue) -> (
    JsonValue,
    Option<PathFault>,
)
    decreases parts.len() - from,
{
    if from >= parts.len() {
        (j, None)
    } else {
        let key = parts[from as int];
        let last = from + 1 == parts.len();
        match j {
            JsonValue::Object(members) => if last {
                (JsonValue::Object(insert_member(members, key, value)), None)
            } else {
                let grown = if find_key(members, key, 0) is None {
                    members.push((key, made_for(parts[from as int + 1])))
                } else {
                    members
                };
                let at = find_key(grown, key, 0)->Some_0;
                let (child, fault) = path_set(grown[at].1, parts, from + 1, value);
                (JsonValue::Object(grown.update(at, (grown[at].0, child))), fault)
            },
            JsonValue::Array(items) => match index_of_key(key) {
                Some(n) => if n < items.len() {
                    if last {
                        (JsonValue::Array(items.update(n as int, value)), None)
                    } else {
                        let (child, fault) = path_set(items[n as int], parts, from + 1, value);
                        (JsonValue::Array(items.update(n as int, child)), fault)
                    }
                } else {
                    (j, Some(PathFault::OutOfBounds(n)))
                },
                None => (j, Some(PathFault::InvalidIndex(key))),
            },
            _ => if last {
                (j, Some(PathFault::NotSettable))
            } else {
                (j, Some(PathFault::NotTraversable))
            },
        }
    }
}

/// The error that reports a fault of the path.
fn path_error(what: &str, detail: &str) -> (e: Error)
    ensures
        e matches Error::ParseError(m) && m@ == what@ + detail@,
{
    let mut message = what.to_owned();
    message.append(detail);
    Error::ParseError(message)
}

/// Sets `value` under the path that starts at part `from`.
fn set_at(j: Json, parts: &Vec<String>, from: usize, value: Json) -> (r: (Json, Result<(), Error>))
    requires
        from < parts.len(),
    ensures
        r.0@ == path_set(j@, texts(parts@), from as nat, value@).0,
        match r.1 {
            Ok(_) => path_set(j@, texts(parts@), from as nat, value@).1 is None,
            Err(e) => path_set(j@, texts(parts@), from as nat, value@).1 matches Some(f)
                && e matches Error::ParseError(m) && m@ == f.message(),
        },
    decreases parts.len() - from,
{
    let ghost keys = texts(parts@);
    let key = parts[from].as_str();
    assert(key@ == keys[from as int]);
    let last = from + 1 == parts.len();
    match j {
        Json::Object(members) => {
            proof {
                lemma_object_view(members);
            }
            let mut members = members;
            if last {
                set_member(&mut members, key, value);
                (Json::object(members), Ok(()))
            } else {
                let ghost before = members_view(members@);
                let at = match position(&members, key) {
                    Some(at) => at,
                    None => {
                        let next_key = parts[from + 1].as_str();
                        assert(next_key@ == keys[from + 1]);
                        let made = if parse_index(next_key).is_some() {
                            Json::empty_array()
                        } else {
                            Json::empty_object()
                        };
                        put(&mut members, key, made);
                        proof {
                            lemma_find_key(before, key@, 0);
                            lemma_find_last(before, key@, made@);
                        }
                        members.len() - 1
                    },
                };
                let ghost grown = members_view(members@);
                let entry = members.remove(at);
                let ghost rest = members@;
                let step = set_at(entry.1, parts, from + 1, value);
                members.insert(at, (entry.0, step.0));
                proof {
                    assert(members_view(members@) =~= grown.update(
                        at as int,
                        (grown[at as int].0, step.0@),
                    ));
                }
                (Json::object(members), step.1)
            }
        },
        Json::Array(items) => {
            proof {
                lemma_array_view(items);
            }
            let mut items = items;
            match parse_index(key) {
                Some(n) => {
                    if n < items.len() {
                        let ghost before = items_view(items@);
                        if last {
                            items[n] = value;
                            proof {
                                assert(items_view(items@) =~= before.update(n as int, value@));
                            }
                            (Json::array(items), Ok(()))
                        } else {
                            let child = items.remove(n);
                            let step = set_at(child, parts, from + 1, value);
                            items.insert(n, step.0);
                            proof {
                                assert(items_view(items@) =~= before.update(n as int, step.0@));
                            }
                            (Json::array(items), step.1)
                        }
                    } else {
                        let e = path_error(
                            "Array index out of bounds: ",
                            decimal_string(n as u64).as_str(),
                        );
                        (Json::Array(items), Err(e))
                    }
                },
                None => {
                    let e = path_error("Invalid array index: ", key);
                    (Json::Array(items), Err(e))
                },
            }
        },
        other => {
            if last {
                (other, Err(Error::parse("Cannot set value on non-object or non-array")))
            } else {
                (other, Err(Error::parse("Cannot traverse non-object or non-array")))
            }
        },
    }
}

/// A key that is appended to members that lack it is found at the end.
proof fn lemma_find_last(members: Seq<(Seq<char>, JsonValue)>, key: Seq<char>, value: JsonValue)
    requires
        find_key(members, key, 0) is None,
    ensures
        find_key(members.push((key, value)), key, 0) == Some(members.len() as int),
{
    lemma_find_key(members, key, 0);
    let grown = members.push((key, value));
    lemma_find_key(grown, key, 0);
    assert(grown[members.len() as int].0 == key);
    assert forall|k: int| 0 <= k < members.len() implies (#[trigger] grown[k]).0 != key by {
        assert(grown[k] == members[k]);
    }
}

/// Set a value in a JSON object using a path.
///
/// The path is a string of keys separated by dots, e.g., "foo.bar.baz". If
/// any part of the path doesn't exist, it will be created.
pub fn json_path_set(json: &mut Json, path: &str, value: Json) -> (r: Result<(), Error>)
    ensures
        final(json)@ == path_set(old(json)@, split_on(path@, '.'), 0, value@).0,
        match r {
            Ok(_) => path_set(old(json)@, split_on(path@, '.'), 0, value@).1 is None,
            Err(e) => path_set(old(json)@, split_on(path@, '.'), 0, value@).1 matches Some(f)
                && e matches Error::ParseError(m) && m@ == f.message(),
        },
{
    let parts = split(path, '.');
    let mut taken = Json::Null;
    std::mem::swap(json, &mut taken);
    let step = set_at(taken, &parts, 0, value);
    *json = step.0;
    step.1
}

/// The members of `target` after the first `n` members of `source` were
/// merged into them: a member that `target` lacks is appended; one that it
/// has is replaced, unless both hold objects, which are merged in turn.
pub open spec fn merged_members(
    target: Seq<(Seq<char>, JsonValue)>,
    source: Seq<(Seq<char>, JsonValue)>,
    n: nat,
) -> Seq<(Seq<char>, JsonValue)>
    decreases source, n,
{
    if n == 0 || n > source.len() {
        target
    } else {
        let so_far = merged_members(target, source, (n - 1) as nat);
        let key = source[n - 1].0;
        let value = source[n - 1].1;
        match find_key(so_far, key, 0) {
            None => so_far.push((key, value)),
            Some(at) => so_far.update(
                at,
                (
                    so_far[at].0,
                    if so_far[at].1 is Object && value is Object {
                        merged(so_far[at].1, value)
                    } else {
                        value
                    },
                ),
            ),
        }
    }
}

/// `target` after `source` was merged into it. Unless both are objects
/// nothing changes.
pub open spec fn merged(target: JsonValue, source: JsonValue) -> JsonValue
    decreases source, 0nat,
{
    match (target, source) {
        (JsonValue::Object(t), JsonValue::Object(s)) => JsonValue::Object(
            merged_members(t, s, s.len()),
        ),
        _ => target,
    }
}

/// Merges `source` into `target`.
#[verifier::loop_isolation(false)]
fn merge(target: Json, source: &Json) -> (r: Json)
    ensures
        r@ == merged(target@, source@),
    decreases source,
{
    match source {
        Json::Object(source_members) => {
            match target {
                Json::Object(target_members) => {
                    proof {
                        lemma_object_view(*source_members);
                        lemma_object_view(target_members);
                    }
                    let ghost t = members_view(target_members@);
                    let ghost s = members_view(source_members@);
                    let mut members = target_members;
                    let mut i: usize = 0;
                    while i < source_members.len()
                        invariant
                            i <= source_members.len(),
                            members_view(members@) == merged_members(t, s, i as nat),
                        decreases source_members.len() - i,
                    {
                        let key = source_members[i].0.as_str();
                        let value = &source_members[i].1;
                        let ghost so_far = members_view(members@);
                        assert(s[i as int] == (key@, value@));
                        match position(&members, key) {
                            None => {
                                put(&mut members, key, value.duplicate());
                            },
                            Some(at) => {
                                let entry = members.remove(at);
                                let new = if entry.1.is_object() && value.is_object() {
                                    merge(entry.1, value)
                                } else {
                                    value.duplicate()
                                };
                                members.insert(at, (entry.0, new));
                                proof {
                                    assert(members_view(members@) =~= so_far.update(
                                        at as int,
                                        (so_far[at as int].0, new@),
                                    ));
                                }
                            },
                        }
                        i += 1;
                    }
                    Json::object(members)
                },
                other => other,
            }
        },
        _ => target,
    }
}

/// Merge two JSON objects.
///
/// The `target` object will be modified to include values from the `source`
/// object. If a key exists in both objects, the value from `source` will
/// override the value in `target`, except that two objects are merged.
pub fn merge_json_objects(target: &mut Json, source: &Json)
    ensures
        final(target)@ == merged(old(target)@, source@),
{
    let mut taken = Json::Null;
    std::mem::swap(target, &mut taken);
    *target = merge(taken, source);
}

} // verus!
