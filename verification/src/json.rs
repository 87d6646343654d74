//! A JSON document model.
//!
//! [`Json`] is the executable tree; [`JsonValue`] is its mathematical value.
//! An object is an ordered list of members in which the first member with a
//! given key is the one that [`Json::get`] finds.

use vstd::prelude::*;
use vstd::string::StrSliceExecFns;

verus! {

/// A JSON number. Integers keep their exact value; a number written with a
/// fraction or an exponent is kept as the bit pattern of its binary64 value.
#[derive(Clone, Copy, Debug, PartialEq, Eq, Structural)]
pub enum Number {
    /// A non-negative integer.
    PosInt(u64),
    /// A negative integer.
    NegInt(i64),
    /// The IEEE-754 binary64 bit pattern of a non-integer number.
    Float(u64),
}

impl Number {
    /// The integer this number denotes, if it is one that fits in `i64`.
    pub open spec fn int_value(self) -> Option<i64> {
        match self {
            Number::PosInt(n) => if n <= i64::MAX as u64 {
                Some(n as i64)
            } else {
                None
            },
            Number::NegInt(n) => Some(n),
            Number::Float(_) => None,
        }
    }

    /// The canonical number for an `i64`.
    pub open spec fn of_int(i: i64) -> Number {
        if i >= 0 {
            Number::PosInt(i as u64)
        } else {
            Number::NegInt(i)
        }
    }

    /// Builds the canonical number for an `i64`.
    pub fn from_i64(i: i64) -> (n: Number)
        ensures
            n == Number::of_int(i),
            n.int_value() == Some(i),
    {
        if i >= 0 {
            Number::PosInt(i as u64)
        } else {
            Number::NegInt(i)
        }
    }

    /// Reads the number as an `i64`, if it is an integer in range.
    pub fn as_i64(&self) -> (r: Option<i64>)
        ensures
            r == self.int_value(),
    {
        match self {
            Number::PosInt(n) => if *n <= i64::MAX as u64 {
                Some(*n as i64)
            } else {
                None
            },
            Number::NegInt(n) => Some(*n),
            Number::Float(_) => None,
        }
    }
}

/// The mathematical value of a JSON document.
pub enum JsonValue {
    Null,
    Bool(bool),
    Number(Number),
    Str(Seq<char>),
    Array(Seq<JsonValue>),
    Object(Seq<(Seq<char>, JsonValue)>),
}

/// The index of the first member at or after `from` whose key is `key`.
pub open spec fn find_key(
    members: Seq<(Seq<char>, JsonValue)>,
    key: Seq<char>,
    from: int,
) -> Option<int>
    decreases members.len() - from,
{
    if from < 0 || from >= members.len() {
        None
    } else if members[from].0 == key {
        Some(from)
    } else {
        find_key(members, key, from + 1)
    }
}

/// The value of the first member whose key is `key`.
pub open spec fn lookup(members: Seq<(Seq<char>, JsonValue)>, key: Seq<char>) -> Option<
    JsonValue,
> {
    match find_key(members, key, 0) {
        Some(i) => Some(members[i].1),
        None => None,
    }
}

/// `members` with the value under `key` replaced in place, or with a new
/// member appended when the key is absent.
pub open spec fn insert_member(
    members: Seq<(Seq<char>, JsonValue)>,
    key: Seq<char>,
    value: JsonValue,
) -> Seq<(Seq<char>, JsonValue)> {
    match find_key(members, key, 0) {
        Some(i) => members.update(i, (key, value)),
        None => members.push((key, value)),
    }
}

/// `members` followed by one more member when `value` is present.
pub open spec fn push_opt(
    members: Seq<(Seq<char>, JsonValue)>,
    key: Seq<char>,
    value: Option<JsonValue>,
) -> Seq<(Seq<char>, JsonValue)> {
    match value {
        Some(v) => members.push((key, v)),
        None => members,
    }
}

/// `members` without those whose key is `key`.
pub open spec fn without_key(members: Seq<(Seq<char>, JsonValue)>, key: Seq<char>) -> Seq<
    (Seq<char>, JsonValue),
> {
    members.filter(|m: (Seq<char>, JsonValue)| m.0 != key)
}

/// No key occurs twice among `members`.
pub open spec fn distinct_keys(members: Seq<(Seq<char>, JsonValue)>) -> bool {
    forall|i: int, j: int|
        0 <= i < j < members.len() ==> (#[trigger] members[i]).0 != (#[trigger] members[j]).0
}

impl JsonValue {
    /// The member of an object under `key`; `None` for other values.
    pub open spec fn get(self, key: Seq<char>) -> Option<JsonValue> {
        match self {
            JsonValue::Object(members) => lookup(members, key),
            _ => None,
        }
    }

    /// The member under `key`, with an explicit `null` counted as absent.
    pub open spec fn get_present(self, key: Seq<char>) -> Option<JsonValue> {
        match self.get(key) {
            Some(JsonValue::Null) => None,
            other => other,
        }
    }

    pub open spec fn as_str(self) -> Option<Seq<char>> {
        match self {
            JsonValue::Str(s) => Some(s),
            _ => None,
        }
    }

    pub open spec fn as_bool(self) -> Option<bool> {
        match self {
            JsonValue::Bool(b) => Some(b),
            _ => None,
        }
    }

    pub open spec fn as_i64(self) -> Option<i64> {
        match self {
            JsonValue::Number(n) => n.int_value(),
            _ => None,
        }
    }

    pub open spec fn as_number(self) -> Option<Number> {
        match self {
            JsonValue::Number(n) => Some(n),
            _ => None,
        }
    }

    pub open spec fn as_array(self) -> Option<Seq<JsonValue>> {
        match self {
            JsonValue::Array(items) => Some(items),
            _ => None,
        }
    }

    pub open spec fn as_object(self) -> Option<Seq<(Seq<char>, JsonValue)>> {
        match self {
            JsonValue::Object(members) => Some(members),
            _ => None,
        }
    }

    /// The string under `key`, if there is a member with that key and it
    /// holds a string.
    pub open spec fn get_str(self, key: Seq<char>) -> Option<Seq<char>> {
        match self.get(key) {
            Some(JsonValue::Str(s)) => Some(s),
            _ => None,
        }
    }

    /// The optional string under `key`: `Some(None)` when the member is
    /// absent or `null`, `Some(Some(s))` when it holds the string `s`, and
    /// `None` when it holds anything else.
    pub open spec fn opt_str(self, key: Seq<char>) -> Option<Option<Seq<char>>> {
        match self.get_present(key) {
            None => Some(None),
            Some(JsonValue::Str(s)) => Some(Some(s)),
            Some(_) => None,
        }
    }

    /// The optional boolean under `key`, read like [`JsonValue::opt_str`].
    pub open spec fn opt_bool(self, key: Seq<char>) -> Option<Option<bool>> {
        match self.get_present(key) {
            None => Some(None),
            Some(JsonValue::Bool(b)) => Some(Some(b)),
            Some(_) => None,
        }
    }

    /// The optional integer under `key`, read like [`JsonValue::opt_str`].
    pub open spec fn opt_i64(self, key: Seq<char>) -> Option<Option<i64>> {
        match self.get_present(key) {
            None => Some(None),
            Some(v) => match v.as_i64() {
                Some(i) => Some(Some(i)),
                None => None,
            },
        }
    }

    /// The optional number under `key`, read like [`JsonValue::opt_str`].
    pub open spec fn opt_number(self, key: Seq<char>) -> Option<Option<Number>> {
        match self.get_present(key) {
            None => Some(None),
            Some(JsonValue::Number(n)) => Some(Some(n)),
            Some(_) => None,
        }
    }

    /// The array under `key`, if there is a member with that key and it
    /// holds an array.
    pub open spec fn get_array(self, key: Seq<char>) -> Option<Seq<JsonValue>> {
        match self.get(key) {
            Some(JsonValue::Array(items)) => Some(items),
            _ => None,
        }
    }

    /// The keys of an object, in member order; empty for other values.
    pub open spec fn keys(self) -> Seq<Seq<char>> {
        match self {
            JsonValue::Object(members) => Seq::new(members.len(), |i: int| members[i].0),
            _ => Seq::empty(),
        }
    }

    /// The value of an integer.
    pub open spec fn integer(i: i64) -> JsonValue {
        JsonValue::Number(Number::of_int(i))
    }

    /// The object without members.
    pub open spec fn empty_object() -> JsonValue {
        JsonValue::Object(Seq::empty())
    }
}

/// A JSON document.
#[derive(Debug, PartialEq)]
pub enum Json {
    Null,
    Bool(bool),
    Number(Number),
    Str(String),
    Array(Vec<Json>),
    Object(Vec<(String, Json)>),
}

/// The value of a document.
pub open spec fn value_of(j: Json) -> JsonValue
    decreases j,
{
    match j {
        Json::Null => JsonValue::Null,
        Json::Bool(b) => JsonValue::Bool(b),
        Json::Number(n) => JsonValue::Number(n),
        Json::Str(s) => JsonValue::Str(s@),
        Json::Array(items) => JsonValue::Array(
            Seq::new(
                items@.len(),
                |i: int|
                    if 0 <= i < items@.len() {
                        value_of(items@[i])
                    } else {
                        JsonValue::Null
                    },
            ),
        ),
        Json::Object(members) => JsonValue::Object(
            Seq::new(
                members@.len(),
                |i: int|
                    if 0 <= i < members@.len() {
                        (members@[i].0@, value_of(members@[i].1))
                    } else {
                        (Seq::empty(), JsonValue::Null)
                    },
            ),
        ),
    }
}

impl View for Json {
    type V = JsonValue;

    open spec fn view(&self) -> JsonValue {
        value_of(*self)
    }
}

impl Clone for Json {
    fn clone(&self) -> (r: Json)
        ensures
            r@ == self@,
    {
        self.duplicate()
    }
}

/// The value of an optional document.
pub open spec fn opt_view(j: Option<Json>) -> Option<JsonValue> {
    match j {
        Some(v) => Some(v@),
        None => None,
    }
}

/// The characters of an optional string.
pub open spec fn opt_chars(s: Option<String>) -> Option<Seq<char>> {
    match s {
        Some(v) => Some(v@),
        None => None,
    }
}

/// The values of a list of documents.
pub open spec fn items_view(items: Seq<Json>) -> Seq<JsonValue> {
    Seq::new(items.len(), |i: int| items[i]@)
}

/// The values of a list of members.
pub open spec fn members_view(members: Seq<(String, Json)>) -> Seq<(Seq<char>, JsonValue)> {
    Seq::new(members.len(), |i: int| (members[i].0@, members[i].1@))
}

/// The value of an array is the list of the values of its items.
pub proof fn lemma_array_view(items: Vec<Json>)
    ensures
        Json::Array(items)@ == JsonValue::Array(items_view(items@)),
{
    assert(Json::Array(items)@->Array_0 =~= items_view(items@));
}

/// The value of an object is the list of the values of its members.
pub proof fn lemma_object_view(members: Vec<(String, Json)>)
    ensures
        Json::Object(members)@ == JsonValue::Object(members_view(members@)),
{
    assert(Json::Object(members)@->Object_0 =~= members_view(members@));
}

/// What `find_key` returns is the least matching index.
pub proof fn lemma_find_key(members: Seq<(Seq<char>, JsonValue)>, key: Seq<char>, from: int)
    requires
        0 <= from,
    ensures
        match find_key(members, key, from) {
            Some(i) => {
                &&& from <= i < members.len()
                &&& members[i].0 == key
                &&& forall|j: int| from <= j < i ==> (#[trigger] members[j]).0 != key
            },
            None => forall|j: int| from <= j < members.len() ==> (#[trigger] members[j]).0 != key,
        },
    decreases members.len() - from,
{
    if from < members.len() && members[from].0 != key {
        lemma_find_key(members, key, from + 1);
    }
}

/// Nothing is found among no members.
pub proof fn lemma_lookup_empty(key: Seq<char>)
    ensures
        lookup(Seq::empty(), key) is None,
{
}

/// Looking a key up from `from` on among members with one more member at the
/// end: the search finds what it found before, else the new member.
proof fn lemma_find_push(
    members: Seq<(Seq<char>, JsonValue)>,
    last: (Seq<char>, JsonValue),
    key: Seq<char>,
    from: int,
)
    requires
        0 <= from <= members.len(),
    ensures
        find_key(members.push(last), key, from) == match find_key(members, key, from) {
            Some(i) => Some(i),
            None => if last.0 == key {
                Some(members.len() as int)
            } else {
                None
            },
        },
    decreases members.len() - from,
{
    let grown = members.push(last);
    if from < members.len() {
        assert(grown[from] == members[from]);
        if members[from].0 != key {
            lemma_find_push(members, last, key, from + 1);
        }
    } else {
        assert(grown[from] == last);
        assert(find_key(grown, key, from + 1) is None);
    }
}

/// Looking a key up among members with one more member at the end gives
/// what was found before, else the new member if it has the key.
pub proof fn lemma_lookup_push(
    members: Seq<(Seq<char>, JsonValue)>,
    k: Seq<char>,
    v: JsonValue,
    key: Seq<char>,
)
    ensures
        lookup(members.push((k, v)), key) == match lookup(members, key) {
            Some(x) => Some(x),
            None => if k == key {
                Some(v)
            } else {
                None
            },
        },
{
    lemma_find_push(members, (k, v), key, 0);
    lemma_find_key(members, key, 0);
    match find_key(members, key, 0) {
        Some(i) => {
            assert(members.push((k, v))[i] == members[i]);
        },
        None => {},
    }
}

/// Looking a key up among members with an optional member at the end.
pub proof fn lemma_lookup_push_opt(
    members: Seq<(Seq<char>, JsonValue)>,
    k: Seq<char>,
    v: Option<JsonValue>,
    key: Seq<char>,
)
    ensures
        lookup(push_opt(members, k, v), key) == match lookup(members, key) {
            Some(x) => Some(x),
            None => if k == key {
                v
            } else {
                None
            },
        },
{
    match v {
        Some(x) => lemma_lookup_push(members, k, x, key),
        None => {},
    }
}

/// Looking a key up among members followed by more members gives what is
/// found among the first, else what is found among the rest.
pub proof fn lemma_lookup_append(
    members: Seq<(Seq<char>, JsonValue)>,
    more: Seq<(Seq<char>, JsonValue)>,
    key: Seq<char>,
)
    ensures
        lookup(members + more, key) == match lookup(members, key) {
            Some(x) => Some(x),
            None => lookup(more, key),
        },
    decreases more.len(),
{
    if more.len() == 0 {
        assert(members + more =~= members);
    } else {
        lemma_lookup_append(members, more.drop_last(), key);
        assert(members + more =~= (members + more.drop_last()).push(more.last()));
        lemma_lookup_push(members + more.drop_last(), more.last().0, more.last().1, key);
        assert(more =~= more.drop_last().push(more.last()));
        lemma_lookup_push(more.drop_last(), more.last().0, more.last().1, key);
    }
}

/// Removing a key from members followed by more members removes it from
/// both.
pub proof fn lemma_without_key_append(
    members: Seq<(Seq<char>, JsonValue)>,
    more: Seq<(Seq<char>, JsonValue)>,
    key: Seq<char>,
)
    ensures
        without_key(members + more, key) == without_key(members, key) + without_key(more, key),
    decreases more.len(),
{
    if more.len() == 0 {
        assert(members + more =~= members);
        lemma_without_key_empty(key);
        assert(without_key(members, key) + Seq::<(Seq<char>, JsonValue)>::empty()
            =~= without_key(members, key));
    } else {
        lemma_without_key_append(members, more.drop_last(), key);
        assert(members + more =~= (members + more.drop_last()).push(more.last()));
        lemma_without_key_push(members + more.drop_last(), more.last(), key);
        assert(more =~= more.drop_last().push(more.last()));
        lemma_without_key_push(more.drop_last(), more.last(), key);
        let a = without_key(members, key);
        let b = without_key(more.drop_last(), key);
        assert((a + b).push(more.last()) =~= a + b.push(more.last()));
    }
}

/// Removing a key that no member has changes nothing.
pub proof fn lemma_without_key_absent(members: Seq<(Seq<char>, JsonValue)>, key: Seq<char>)
    requires
        forall|i: int| 0 <= i < members.len() ==> (#[trigger] members[i]).0 != key,
    ensures
        without_key(members, key) == members,
    decreases members.len(),
{
    if members.len() == 0 {
        lemma_without_key_empty(key);
        assert(members =~= Seq::empty());
    } else {
        lemma_without_key_absent(members.drop_last(), key);
        assert(members =~= members.drop_last().push(members.last()));
        lemma_without_key_push(members.drop_last(), members.last(), key);
    }
}

/// A key that no member carries is not found.
pub proof fn lemma_lookup_absent(members: Seq<(Seq<char>, JsonValue)>, key: Seq<char>)
    requires
        forall|i: int| 0 <= i < members.len() ==> (#[trigger] members[i]).0 != key,
    ensures
        lookup(members, key) is None,
{
    lemma_find_key(members, key, 0);
}

/// Removing a key from members with one more optional member keeps that
/// member unless its key is the one removed.
pub proof fn lemma_without_key_push_opt(
    members: Seq<(Seq<char>, JsonValue)>,
    k: Seq<char>,
    v: Option<JsonValue>,
    key: Seq<char>,
)
    ensures
        without_key(push_opt(members, k, v), key) == if k != key {
            push_opt(without_key(members, key), k, v)
        } else {
            without_key(members, key)
        },
{
    match v {
        Some(x) => lemma_without_key_push(members, (k, x), key),
        None => {},
    }
}

/// Whether two string slices hold the same characters.
pub(crate) fn str_eq(a: &str, b: &str) -> (r: bool)
    ensures
        r == (a@ == b@),
{
    let n = a.unicode_len();
    if b.unicode_len() != n {
        return false;
    }
    let mut i: usize = 0;
    while i < n
        invariant
            i <= n,
            n == a@.len(),
            n == b@.len(),
            forall|k: int| 0 <= k < i ==> a@[k] == b@[k],
        decreases n - i,
    {
        if a.get_char(i) != b.get_char(i) {
            return false;
        }
        i += 1;
    }
    assert(a@ =~= b@);
    true
}

impl Json {
    /// A string document.
    pub fn string(s: &str) -> (j: Json)
        ensures
            j@ == JsonValue::Str(s@),
    {
        Json::Str(s.to_owned())
    }

    /// An integer document.
    pub fn integer(i: i64) -> (j: Json)
        ensures
            j@ == JsonValue::integer(i),
    {
        Json::Number(Number::from_i64(i))
    }

    /// The object without members.
    pub fn empty_object() -> (j: Json)
        ensures
            j@ == JsonValue::empty_object(),
    {
        let members: Vec<(String, Json)> = Vec::new();
        proof {
            lemma_object_view(members);
            assert(members_view(members@) =~= Seq::empty());
        }
        Json::Object(members)
    }

    /// The array without items.
    pub fn empty_array() -> (j: Json)
        ensures
            j@ == JsonValue::Array(Seq::empty()),
    {
        let items: Vec<Json> = Vec::new();
        proof {
            lemma_array_view(items);
            assert(items_view(items@) =~= Seq::empty());
        }
        Json::Array(items)
    }

    /// An object made of the given members.
    pub fn object(members: Vec<(String, Json)>) -> (j: Json)
        ensures
            j@ == JsonValue::Object(members_view(members@)),
    {
        proof {
            lemma_object_view(members);
        }
        Json::Object(members)
    }

    /// An array made of the given items.
    pub fn array(items: Vec<Json>) -> (j: Json)
        ensures
            j@ == JsonValue::Array(items_view(items@)),
    {
        proof {
            lemma_array_view(items);
        }
        Json::Array(items)
    }

    pub fn is_null(&self) -> (r: bool)
        ensures
            r == (self@ is Null),
    {
        match self {
            Json::Null => true,
            _ => false,
        }
    }

    pub fn is_object(&self) -> (r: bool)
        ensures
            r == (self@ is Object),
    {
        match self {
            Json::Object(_) => true,
            _ => false,
        }
    }

    pub fn as_str(&self) -> (r: Option<&str>)
        ensures
            match r {
                Some(s) => self@.as_str() == Some(s@),
                None => self@.as_str() is None,
            },
    {
        match self {
            Json::Str(s) => Some(s.as_str()),
            _ => None,
        }
    }

    pub fn as_bool(&self) -> (r: Option<bool>)
        ensures
            r == self@.as_bool(),
    {
        match self {
            Json::Bool(b) => Some(*b),
            _ => None,
        }
    }

    pub fn as_i64(&self) -> (r: Option<i64>)
        ensures
            r == self@.as_i64(),
    {
        match self {
            Json::Number(n) => n.as_i64(),
            _ => None,
        }
    }

    pub fn as_number(&self) -> (r: Option<Number>)
        ensures
            r == self@.as_number(),
    {
        match self {
            Json::Number(n) => Some(*n),
            _ => None,
        }
    }

    pub fn as_array(&self) -> (r: Option<&Vec<Json>>)
        ensures
            match r {
                Some(items) => self@.as_array() == Some(items_view(items@)),
                None => self@.as_array() is None,
            },
    {
        match self {
            Json::Array(items) => {
                proof {
                    lemma_array_view(*items);
                }
                Some(items)
            },
            _ => None,
        }
    }

    pub fn as_object(&self) -> (r: Option<&Vec<(String, Json)>>)
        ensures
            match r {
                Some(members) => self@.as_object() == Some(members_view(members@)),
                None => self@.as_object() is None,
            },
    {
        match self {
            Json::Object(members) => {
                proof {
                    lemma_object_view(*members);
                }
                Some(members)
            },
            _ => None,
        }
    }

    /// The member of an object under `key`.
    pub fn get(&self, key: &str) -> (r: Option<&Json>)
        ensures
            match r {
                Some(v) => self@.get(key@) == Some(v@),
                None => self@.get(key@) is None,
            },
    {
        match self {
            Json::Object(members) => {
                proof {
                    lemma_object_view(*members);
                }
                match position(members, key) {
                    Some(i) => Some(&members[i].1),
                    None => None,
                }
            },
            _ => None,
        }
    }

    /// The member under `key`, with an explicit `null` counted as absent.
    pub fn get_present(&self, key: &str) -> (r: Option<&Json>)
        ensures
            match r {
                Some(v) => self@.get_present(key@) == Some(v@),
                None => self@.get_present(key@) is None,
            },
    {
        match self.get(key) {
            Some(v) => if v.is_null() {
                None
            } else {
                Some(v)
            },
            None => None,
        }
    }

    /// The string under `key`.
    pub fn get_str(&self, key: &str) -> (r: Option<&str>)
        ensures
            match r {
                Some(s) => self@.get_str(key@) == Some(s@),
                None => self@.get_str(key@) is None,
            },
    {
        match self.get(key) {
            Some(v) => v.as_str(),
            None => None,
        }
    }

    /// The array under `key`.
    pub fn get_array(&self, key: &str) -> (r: Option<&Vec<Json>>)
        ensures
            match r {
                Some(items) => self@.get_array(key@) == Some(items_view(items@)),
                None => self@.get_array(key@) is None,
            },
    {
        match self.get(key) {
            Some(v) => v.as_array(),
            None => None,
        }
    }

    /// The optional string under `key`; the outer `None` reports a member
    /// of another type.
    pub fn opt_str(&self, key: &str) -> (r: Option<Option<String>>)
        ensures
            match r {
                Some(Some(s)) => self@.opt_str(key@) == Some(Some(s@)),
                Some(None) => self@.opt_str(key@) == Some(None::<Seq<char>>),
                None => self@.opt_str(key@) is None,
            },
    {
        match self.get_present(key) {
            None => Some(None),
            Some(v) => match v.as_str() {
                Some(s) => Some(Some(s.to_owned())),
                None => None,
            },
        }
    }

    /// The optional boolean under `key`; the outer `None` reports a member
    /// of another type.
    pub fn opt_bool(&self, key: &str) -> (r: Option<Option<bool>>)
        ensures
            r == self@.opt_bool(key@),
    {
        match self.get_present(key) {
            None => Some(None),
            Some(v) => match v.as_bool() {
                Some(b) => Some(Some(b)),
                None => None,
            },
        }
    }

    /// The optional integer under `key`; the outer `None` reports a member
    /// of another type.
    pub fn opt_i64(&self, key: &str) -> (r: Option<Option<i64>>)
        ensures
            r == self@.opt_i64(key@),
    {
        match self.get_present(key) {
            None => Some(None),
            Some(v) => match v.as_i64() {
                Some(i) => Some(Some(i)),
                None => None,
            },
        }
    }

    /// The optional number under `key`; the outer `None` reports a member
    /// of another type.
    pub fn opt_number(&self, key: &str) -> (r: Option<Option<Number>>)
        ensures
            r == self@.opt_number(key@),
    {
        match self.get_present(key) {
            None => Some(None),
            Some(v) => match v.as_number() {
                Some(n) => Some(Some(n)),
                None => None,
            },
        }
    }

    /// A copy of the document.
    #[verifier::loop_isolation(false)]
    pub fn duplicate(&self) -> (r: Json)
        ensures
            r@ == self@,
        decreases self,
    {
        match self {
            Json::Null => Json::Null,
            Json::Bool(b) => Json::Bool(*b),
            Json::Number(n) => Json::Number(*n),
            Json::Str(s) => Json::Str(s.clone()),
            Json::Array(items) => {
                let mut out: Vec<Json> = Vec::new();
                let mut i: usize = 0;
                while i < items.len()
                    invariant
                        i <= items.len(),
                        out.len() == i,
                        forall|k: int| 0 <= k < i ==> out@[k]@ == items@[k]@,
                    decreases items.len() - i,
                {
                    out.push(items[i].duplicate());
                    i += 1;
                }
                proof {
                    lemma_array_view(*items);
                    lemma_array_view(out);
                    assert(items_view(out@) =~= items_view(items@));
                }
                Json::Array(out)
            },
            Json::Object(members) => {
                let mut out: Vec<(String, Json)> = Vec::new();
                let mut i: usize = 0;
                while i < members.len()
                    invariant
                        i <= members.len(),
                        out.len() == i,
                        forall|k: int|
                            0 <= k < i ==> out@[k].0@ == members@[k].0@ && out@[k].1@
                                == members@[k].1@,
                    decreases members.len() - i,
                {
                    out.push((members[i].0.clone(), members[i].1.duplicate()));
                    i += 1;
                }
                proof {
                    lemma_object_view(*members);
                    lemma_object_view(out);
                    assert(members_view(out@) =~= members_view(members@));
                }
                Json::Object(out)
            },
        }
    }
}

/// The index of the first member of `members` whose key is `key`.
pub fn position(members: &Vec<(String, Json)>, key: &str) -> (r: Option<usize>)
    ensures
        match r {
            Some(i) => find_key(members_view(members@), key@, 0) == Some(i as int) && i
                < members.len(),
            None => find_key(members_view(members@), key@, 0) is None,
        },
{
    let ghost mv = members_view(members@);
    let mut i: usize = 0;
    while i < members.len()
        invariant
            i <= members.len(),
            mv == members_view(members@),
            find_key(mv, key@, 0) == find_key(mv, key@, i as int),
        decreases members.len() - i,
    {
        if str_eq(members[i].0.as_str(), key) {
            return Some(i);
        }
        i += 1;
    }
    None
}

/// Whether the member at `i` is the one that a search for its key finds:
/// of members with the same key, the first.
pub open spec fn found_at(members: Seq<(Seq<char>, JsonValue)>, i: int) -> bool {
    0 <= i < members.len() && find_key(members, members[i].0, 0) == Some(i)
}

/// The positions, in rising order, of the members that a search can find.
/// A format that keeps one member under each key writes these.
pub fn found_members(members: &Vec<(String, Json)>) -> (r: Vec<usize>)
    ensures
        forall|k: int| 0 <= k < r.len() ==> found_at(members_view(members@), #[trigger] r[k] as int),
        forall|k: int, l: int| 0 <= k < l < r.len() ==> r[k] < r[l],
        forall|i: int|
            found_at(members_view(members@), i) ==> exists|k: int|
                0 <= k < r.len() && #[trigger] r[k] == i,
{
    let ghost mv = members_view(members@);
    let mut found: Vec<usize> = Vec::new();
    let mut i: usize = 0;
    while i < members.len()
        invariant
            i <= members.len(),
            mv == members_view(members@),
            forall|k: int| 0 <= k < found.len() ==> found_at(mv, #[trigger] found[k] as int),
            forall|k: int| 0 <= k < found.len() ==> #[trigger] found[k] < i,
            forall|k: int, l: int| 0 <= k < l < found.len() ==> found[k] < found[l],
            forall|j: int|
                0 <= j < i && found_at(mv, j) ==> exists|k: int|
                    0 <= k < found.len() && #[trigger] found[k] == j,
        decreases members.len() - i,
    {
        let ghost before = found@;
        let first = position(members, members[i].0.as_str());
        assert(mv[i as int].0 == members@[i as int].0@);
        if first == Some(i) {
            found.push(i);
            assert(found[found.len() - 1] == i);
        }
        assert forall|j: int| 0 <= j < i + 1 && found_at(mv, j) implies exists|k: int|
            0 <= k < found.len() && #[trigger] found[k] == j by {
            if j < i {
                let k = choose|k: int| 0 <= k < before.len() && #[trigger] before[k] == j;
                assert(found[k] == j);
            } else {
                assert(found[found.len() - 1] == j);
            }
        }
        i += 1;
    }
    found
}

/// A copy of a list of members.
pub fn duplicate_members(members: &Vec<(String, Json)>) -> (r: Vec<(String, Json)>)
    ensures
        members_view(r@) == members_view(members@),
{
    let mut out: Vec<(String, Json)> = Vec::new();
    let mut i: usize = 0;
    while i < members.len()
        invariant
            i <= members.len(),
            out.len() == i,
            forall|k: int|
                0 <= k < i ==> out@[k].0@ == members@[k].0@ && out@[k].1@ == members@[k].1@,
        decreases members.len() - i,
    {
        out.push((members[i].0.clone(), members[i].1.duplicate()));
        i += 1;
    }
    assert(members_view(out@) =~= members_view(members@));
    out
}

/// Nothing is left of no members.
pub proof fn lemma_without_key_empty(key: Seq<char>)
    ensures
        without_key(Seq::empty(), key) == Seq::<(Seq<char>, JsonValue)>::empty(),
{
    reveal(Seq::filter);
}

/// Removing a key from members with one more member keeps the member unless
/// its key is the one removed.
pub proof fn lemma_without_key_push(
    members: Seq<(Seq<char>, JsonValue)>,
    last: (Seq<char>, JsonValue),
    key: Seq<char>,
)
    ensures
        without_key(members.push(last), key) == if last.0 != key {
            without_key(members, key).push(last)
        } else {
            without_key(members, key)
        },
{
    reveal(Seq::filter);
    assert(members.push(last).drop_last() =~= members);
}

/// A copy of the members whose key is not `key`.
pub fn strip_key(members: &Vec<(String, Json)>, key: &str) -> (r: Vec<(String, Json)>)
    ensures
        members_view(r@) == without_key(members_view(members@), key@),
{
    let ghost all = members_view(members@);
    let mut kept: Vec<(String, Json)> = Vec::new();
    let mut i: usize = 0;
    assert(all.subrange(0, 0) =~= Seq::<(Seq<char>, JsonValue)>::empty());
    assert(members_view(kept@) =~= Seq::<(Seq<char>, JsonValue)>::empty());
    proof {
        lemma_without_key_empty(key@);
    }
    while i < members.len()
        invariant
            i <= members.len(),
            all == members_view(members@),
            members_view(kept@) == without_key(all.subrange(0, i as int), key@),
        decreases members.len() - i,
    {
        let ghost before = members_view(kept@);
        proof {
            lemma_without_key_push(all.subrange(0, i as int), all[i as int], key@);
            assert(all.subrange(0, i as int).push(all[i as int]) =~= all.subrange(0, i + 1));
        }
        if !str_eq(members[i].0.as_str(), key) {
            kept.push((members[i].0.clone(), members[i].1.duplicate()));
            assert(members_view(kept@) =~= before.push(all[i as int]));
        }
        i += 1;
    }
    assert(all.subrange(0, i as int) =~= all);
    kept
}

/// Appends copies of `more` to `members`.
pub fn put_all(members: &mut Vec<(String, Json)>, more: &Vec<(String, Json)>)
    ensures
        members_view(final(members)@) == members_view(old(members)@) + members_view(more@),
{
    let ghost before = members_view(members@);
    let mut i: usize = 0;
    assert(before + members_view(more@).subrange(0, 0) =~= before);
    while i < more.len()
        invariant
            i <= more.len(),
            members_view(members@) == before + members_view(more@).subrange(0, i as int),
        decreases more.len() - i,
    {
        let ghost so_far = members_view(members@);
        members.push((more[i].0.clone(), more[i].1.duplicate()));
        assert(members_view(members@) =~= so_far.push(members_view(more@)[i as int]));
        assert(so_far.push(members_view(more@)[i as int]) =~= before + members_view(
            more@,
        ).subrange(0, i + 1));
        i += 1;
    }
    assert(members_view(more@).subrange(0, i as int) =~= members_view(more@));
}

/// A copy of an optional document.
pub fn duplicate_opt(j: &Option<Json>) -> (r: Option<Json>)
    ensures
        opt_view(r) == opt_view(*j),
{
    match j {
        Some(v) => Some(v.duplicate()),
        None => None,
    }
}

/// Appends a member.
pub fn put(members: &mut Vec<(String, Json)>, key: &str, value: Json)
    ensures
        members_view(final(members)@) == members_view(old(members)@).push((key@, value@)),
{
    members.push((key.to_owned(), value));
    assert(members_view(members@) =~= members_view(old(members)@).push((key@, value@)));
}

/// Appends a member when `value` is present.
pub fn put_opt(members: &mut Vec<(String, Json)>, key: &str, value: Option<Json>)
    ensures
        members_view(final(members)@) == push_opt(
            members_view(old(members)@),
            key@,
            opt_view(value),
        ),
{
    match value {
        Some(v) => put(members, key, v),
        None => {},
    }
}

/// Appends a string member.
pub fn put_str(members: &mut Vec<(String, Json)>, key: &str, value: &str)
    ensures
        members_view(final(members)@) == members_view(old(members)@).push(
            (key@, JsonValue::Str(value@)),
        ),
{
    put(members, key, Json::string(value));
}

/// Appends a string member when `value` is present.
pub fn put_opt_str(members: &mut Vec<(String, Json)>, key: &str, value: &Option<String>)
    ensures
        members_view(final(members)@) == push_opt(
            members_view(old(members)@),
            key@,
            match *value {
                Some(s) => Some(JsonValue::Str(s@)),
                None => None,
            },
        ),
{
    match value {
        Some(s) => put_str(members, key, s.as_str()),
        None => {},
    }
}

/// Appends a boolean member.
pub fn put_bool(members: &mut Vec<(String, Json)>, key: &str, value: bool)
    ensures
        members_view(final(members)@) == members_view(old(members)@).push(
            (key@, JsonValue::Bool(value)),
        ),
{
    put(members, key, Json::Bool(value));
}

/// Appends a boolean member when `value` is present.
pub fn put_opt_bool(members: &mut Vec<(String, Json)>, key: &str, value: Option<bool>)
    ensures
        members_view(final(members)@) == push_opt(
            members_view(old(members)@),
            key@,
            match value {
                Some(b) => Some(JsonValue::Bool(b)),
                None => None,
            },
        ),
{
    match value {
        Some(b) => put_bool(members, key, b),
        None => {},
    }
}

/// Appends an integer member when `value` is present.
pub fn put_opt_i64(members: &mut Vec<(String, Json)>, key: &str, value: Option<i64>)
    ensures
        members_view(final(members)@) == push_opt(
            members_view(old(members)@),
            key@,
            match value {
                Some(i) => Some(JsonValue::integer(i)),
                None => None,
            },
        ),
{
    match value {
        Some(i) => put(members, key, Json::integer(i)),
        None => {},
    }
}

/// Appends a number member when `value` is present.
pub fn put_opt_number(members: &mut Vec<(String, Json)>, key: &str, value: Option<Number>)
    ensures
        members_view(final(members)@) == push_opt(
            members_view(old(members)@),
            key@,
            match value {
                Some(n) => Some(JsonValue::Number(n)),
                None => None,
            },
        ),
{
    match value {
        Some(n) => put(members, key, Json::Number(n)),
        None => {},
    }
}

/// Sets the member under `key`: replaces the first one with that key in
/// place, or appends a new member.
pub fn set_member(members: &mut Vec<(String, Json)>, key: &str, value: Json)
    ensures
        members_view(final(members)@) == insert_member(
            members_view(old(members)@),
            key@,
            value@,
        ),
{
    match position(members, key) {
        Some(i) => {
            members[i] = (key.to_owned(), value);
            assert(members_view(members@) =~= members_view(old(members)@).update(
                i as int,
                (key@, value@),
            ));
        },
        None => put(members, key, value),
    }
}

} // verus!
