//! The wire codec of payload types.
//!
//! A payload type implements [`Wire`]: it says, over mathematical values,
//! what its JSON form is and which documents hold a value of it. The
//! functions below read and write members and lists of any such type.

use crate::error::Error;
use crate::json::{items_view, Json, JsonValue, members_view, Number, push_opt, put};
use vstd::prelude::*;

verus! {

/// A type with a JSON form.
pub trait Wire: View + Sized {
    /// The JSON form of a value.
    spec fn encode(v: Self::V) -> JsonValue;

    /// The value that a document holds, if it holds one of this type.
    spec fn decode(j: JsonValue) -> Option<Self::V>;

    /// The values that the JSON form keeps whole: reading back what was
    /// written of them gives them back.
    spec fn lossless(v: Self::V) -> bool;

    /// The codec loses nothing of a lossless value, and never writes such a
    /// value as `null`.
    proof fn lemma_round_trip(v: Self::V)
        requires
            Self::lossless(v),
        ensures
            Self::decode(Self::encode(v)) == Some(v),
            !(Self::encode(v) is Null),
    ;

    /// Writes the JSON form.
    fn to_json(&self) -> (j: Json)
        ensures
            j@ == Self::encode(self@),
    ;

    /// Reads the JSON form. A document that holds no value of this type is
    /// refused with `ParseError`.
    fn from_json(j: &Json) -> (r: Result<Self, Error>)
        ensures
            match r {
                Ok(v) => Self::decode(j@) == Some(v@),
                Err(e) => Self::decode(j@) is None && e is ParseError,
            },
    ;
}

/// The values of a list.
pub open spec fn views<T: View>(items: Seq<T>) -> Seq<T::V> {
    Seq::new(items.len(), |i: int| items[i]@)
}

/// The value of an optional item.
pub open spec fn view_opt<T: View>(item: Option<T>) -> Option<T::V> {
    match item {
        Some(v) => Some(v@),
        None => None,
    }
}

/// The JSON form of an optional value.
pub open spec fn encode_opt<T: Wire>(v: Option<T::V>) -> Option<JsonValue> {
    match v {
        Some(x) => Some(T::encode(x)),
        None => None,
    }
}

/// The JSON form of a list: the array of the forms of its items.
pub open spec fn encode_list<T: Wire>(items: Seq<T::V>) -> JsonValue {
    JsonValue::Array(Seq::new(items.len(), |i: int| T::encode(items[i])))
}

/// The JSON form of an optional list.
pub open spec fn encode_opt_list<T: Wire>(items: Option<Seq<T::V>>) -> Option<JsonValue> {
    match items {
        Some(v) => Some(encode_list::<T>(v)),
        None => None,
    }
}

/// The list that a document holds: the document is an array and every
/// element holds a value.
pub open spec fn decode_list<T: Wire>(j: JsonValue) -> Option<Seq<T::V>> {
    match j {
        JsonValue::Array(items) => if forall|i: int|
            0 <= i < items.len() ==> T::decode(#[trigger] items[i]) is Some {
            Some(Seq::new(items.len(), |i: int| T::decode(items[i])->Some_0))
        } else {
            None
        },
        _ => None,
    }
}

/// The required member under `key`.
pub open spec fn member<T: Wire>(j: JsonValue, key: Seq<char>) -> Option<T::V> {
    match j.get(key) {
        Some(v) => T::decode(v),
        None => None,
    }
}

/// The optional member under `key`: `Some(None)` when it is absent or
/// `null`, `None` when it is there and holds no value of the type.
pub open spec fn opt_member<T: Wire>(j: JsonValue, key: Seq<char>) -> Option<Option<T::V>> {
    match j.get_present(key) {
        None => Some(None),
        Some(v) => match T::decode(v) {
            Some(x) => Some(Some(x)),
            None => None,
        },
    }
}

/// The required list under `key`.
pub open spec fn list_member<T: Wire>(j: JsonValue, key: Seq<char>) -> Option<Seq<T::V>> {
    match j.get(key) {
        Some(v) => decode_list::<T>(v),
        None => None,
    }
}

/// The optional list under `key`, read like [`opt_member`].
pub open spec fn opt_list_member<T: Wire>(j: JsonValue, key: Seq<char>) -> Option<
    Option<Seq<T::V>>,
> {
    match j.get_present(key) {
        None => Some(None),
        Some(v) => match decode_list::<T>(v) {
            Some(x) => Some(Some(x)),
            None => None,
        },
    }
}

/// Whether every item of a list is lossless.
pub open spec fn all_lossless<T: Wire>(items: Seq<T::V>) -> bool {
    forall|i: int| 0 <= i < items.len() ==> T::lossless(#[trigger] items[i])
}

/// Whether an optional value is lossless.
pub open spec fn opt_lossless<T: Wire>(v: Option<T::V>) -> bool {
    match v {
        Some(x) => T::lossless(x),
        None => true,
    }
}

/// Whether an optional list is lossless.
pub open spec fn opt_all_lossless<T: Wire>(items: Option<Seq<T::V>>) -> bool {
    match items {
        Some(v) => all_lossless::<T>(v),
        None => true,
    }
}

/// Reading back a list of lossless items gives the list.
pub proof fn lemma_list_round_trip<T: Wire>(items: Seq<T::V>)
    requires
        all_lossless::<T>(items),
    ensures
        decode_list::<T>(encode_list::<T>(items)) == Some(items),
{
    let docs = encode_list::<T>(items)->Array_0;
    assert forall|i: int| 0 <= i < docs.len() implies T::decode(#[trigger] docs[i]) == Some(
        items[i],
    ) by {
        T::lemma_round_trip(items[i]);
    }
    assert(decode_list::<T>(encode_list::<T>(items))->Some_0 =~= items);
}

/// Reading back a required member that was written for a lossless value.
pub proof fn lemma_member<T: Wire>(j: JsonValue, key: Seq<char>, v: T::V)
    requires
        j.get(key) == Some(T::encode(v)),
        T::lossless(v),
    ensures
        member::<T>(j, key) == Some(v),
{
    T::lemma_round_trip(v);
}

/// Reading back an optional member that was written for a lossless value,
/// or left out for none.
pub proof fn lemma_opt_member<T: Wire>(j: JsonValue, key: Seq<char>, v: Option<T::V>)
    requires
        j.get(key) == encode_opt::<T>(v),
        opt_lossless::<T>(v),
    ensures
        opt_member::<T>(j, key) == Some(v),
{
    match v {
        Some(x) => T::lemma_round_trip(x),
        None => {},
    }
}

/// Reading back a required list that was written for lossless items.
pub proof fn lemma_list_member<T: Wire>(j: JsonValue, key: Seq<char>, items: Seq<T::V>)
    requires
        j.get(key) == Some(encode_list::<T>(items)),
        all_lossless::<T>(items),
    ensures
        list_member::<T>(j, key) == Some(items),
{
    lemma_list_round_trip::<T>(items);
}

/// Reading back an optional list that was written for lossless items, or
/// left out for none.
pub proof fn lemma_opt_list_member<T: Wire>(j: JsonValue, key: Seq<char>, items: Option<Seq<T::V>>)
    requires
        j.get(key) == encode_opt_list::<T>(items),
        opt_all_lossless::<T>(items),
    ensures
        opt_list_member::<T>(j, key) == Some(items),
{
    match items {
        Some(v) => lemma_list_round_trip::<T>(v),
        None => {},
    }
}

/// Writes a list.
pub fn list_to_json<T: Wire>(items: &Vec<T>) -> (j: Json)
    ensures
        j@ == encode_list::<T>(views(items@)),
{
    let mut out: Vec<Json> = Vec::new();
    let mut i: usize = 0;
    while i < items.len()
        invariant
            i <= items.len(),
            out.len() == i,
            forall|k: int| 0 <= k < i ==> out@[k]@ == T::encode(items@[k]@),
        decreases items.len() - i,
    {
        out.push(items[i].to_json());
        i += 1;
    }
    assert(items_view(out@) =~= encode_list::<T>(views(items@))->Array_0);
    Json::array(out)
}

/// Reads a list.
pub fn list_from_json<T: Wire>(j: &Json) -> (r: Result<Vec<T>, Error>)
    ensures
        match r {
            Ok(v) => decode_list::<T>(j@) == Some(views(v@)),
            Err(e) => decode_list::<T>(j@) is None && e is ParseError,
        },
{
    let items = match j.as_array() {
        Some(items) => items,
        None => {
            return Err(Error::parse("expected an array"));
        },
    };
    let ghost docs = items_view(items@);
    let mut out: Vec<T> = Vec::new();
    let mut i: usize = 0;
    while i < items.len()
        invariant
            i <= items.len(),
            docs == items_view(items@),
            j@ == JsonValue::Array(docs),
            out.len() == i,
            forall|k: int| 0 <= k < i ==> T::decode(#[trigger] docs[k]) == Some(out@[k]@),
        decreases items.len() - i,
    {
        match T::from_json(&items[i]) {
            Ok(v) => {
                out.push(v);
            },
            Err(e) => {
                assert(T::decode(docs[i as int]) is None);
                return Err(e);
            },
        }
        i += 1;
    }
    assert(decode_list::<T>(j@)->Some_0 =~= views(out@));
    Ok(out)
}

/// Reads the required member under `key`.
pub fn required<T: Wire>(j: &Json, key: &str) -> (r: Result<T, Error>)
    ensures
        match r {
            Ok(v) => member::<T>(j@, key@) == Some(v@),
            Err(e) => member::<T>(j@, key@) is None && e is ParseError,
        },
{
    match j.get(key) {
        Some(v) => T::from_json(v),
        None => Err(Error::parse("a required member is missing")),
    }
}

/// Reads the optional member under `key`.
pub fn optional<T: Wire>(j: &Json, key: &str) -> (r: Result<Option<T>, Error>)
    ensures
        match r {
            Ok(v) => opt_member::<T>(j@, key@) == Some(view_opt(v)),
            Err(e) => opt_member::<T>(j@, key@) is None && e is ParseError,
        },
{
    match j.get_present(key) {
        Some(v) => match T::from_json(v) {
            Ok(x) => Ok(Some(x)),
            Err(e) => Err(e),
        },
        None => Ok(None),
    }
}

/// Reads the required list under `key`.
pub fn required_list<T: Wire>(j: &Json, key: &str) -> (r: Result<Vec<T>, Error>)
    ensures
        match r {
            Ok(v) => list_member::<T>(j@, key@) == Some(views(v@)),
            Err(e) => list_member::<T>(j@, key@) is None && e is ParseError,
        },
{
    match j.get(key) {
        Some(v) => list_from_json::<T>(v),
        None => Err(Error::parse("a required list is missing")),
    }
}

/// The values of an optional list.
pub open spec fn views_opt<T: View>(items: Option<Vec<T>>) -> Option<Seq<T::V>> {
    match items {
        Some(v) => Some(views(v@)),
        None => None,
    }
}

/// Reads the optional list under `key`.
pub fn optional_list<T: Wire>(j: &Json, key: &str) -> (r: Result<Option<Vec<T>>, Error>)
    ensures
        match r {
            Ok(v) => opt_list_member::<T>(j@, key@) == Some(views_opt(v)),
            Err(e) => opt_list_member::<T>(j@, key@) is None && e is ParseError,
        },
{
    match j.get_present(key) {
        Some(v) => match list_from_json::<T>(v) {
            Ok(x) => Ok(Some(x)),
            Err(e) => Err(e),
        },
        None => Ok(None),
    }
}

/// Appends the member `key` with the JSON form of `value`.
pub fn put_value<T: Wire>(members: &mut Vec<(String, Json)>, key: &str, value: &T)
    ensures
        members_view(final(members)@) == members_view(old(members)@).push(
            (key@, T::encode(value@)),
        ),
{
    put(members, key, value.to_json());
}

/// Appends the member `key` when `value` is present.
pub fn put_opt_value<T: Wire>(members: &mut Vec<(String, Json)>, key: &str, value: &Option<T>)
    ensures
        members_view(final(members)@) == push_opt(
            members_view(old(members)@),
            key@,
            encode_opt::<T>(view_opt(*value)),
        ),
{
    match value {
        Some(v) => put(members, key, v.to_json()),
        None => {},
    }
}

/// Appends the member `key` with the JSON form of a list.
pub fn put_list<T: Wire>(members: &mut Vec<(String, Json)>, key: &str, items: &Vec<T>)
    ensures
        members_view(final(members)@) == members_view(old(members)@).push(
            (key@, encode_list::<T>(views(items@))),
        ),
{
    put(members, key, list_to_json(items));
}

/// Appends the member `key` when the list is present.
pub fn put_opt_list<T: Wire>(
    members: &mut Vec<(String, Json)>,
    key: &str,
    items: &Option<Vec<T>>,
)
    ensures
        members_view(final(members)@) == push_opt(
            members_view(old(members)@),
            key@,
            encode_opt_list::<T>(views_opt(*items)),
        ),
{
    match items {
        Some(v) => put(members, key, list_to_json(v)),
        None => {},
    }
}

impl Wire for String {
    open spec fn encode(v: Seq<char>) -> JsonValue {
        JsonValue::Str(v)
    }

    open spec fn decode(j: JsonValue) -> Option<Seq<char>> {
        j.as_str()
    }

    open spec fn lossless(v: Seq<char>) -> bool {
        true
    }

    proof fn lemma_round_trip(v: Seq<char>) {
    }

    fn to_json(&self) -> (j: Json) {
        Json::string(self.as_str())
    }

    fn from_json(j: &Json) -> (r: Result<String, Error>) {
        match j.as_str() {
            Some(s) => Ok(s.to_owned()),
            None => Err(Error::parse("expected a string")),
        }
    }
}

impl Wire for bool {
    open spec fn encode(v: bool) -> JsonValue {
        JsonValue::Bool(v)
    }

    open spec fn decode(j: JsonValue) -> Option<bool> {
        j.as_bool()
    }

    open spec fn lossless(v: bool) -> bool {
        true
    }

    proof fn lemma_round_trip(v: bool) {
    }

    fn to_json(&self) -> (j: Json) {
        Json::Bool(*self)
    }

    fn from_json(j: &Json) -> (r: Result<bool, Error>) {
        match j.as_bool() {
            Some(b) => Ok(b),
            None => Err(Error::parse("expected a boolean")),
        }
    }
}

impl Wire for i64 {
    open spec fn encode(v: i64) -> JsonValue {
        JsonValue::integer(v)
    }

    open spec fn decode(j: JsonValue) -> Option<i64> {
        j.as_i64()
    }

    open spec fn lossless(v: i64) -> bool {
        true
    }

    proof fn lemma_round_trip(v: i64) {
    }

    fn to_json(&self) -> (j: Json) {
        Json::integer(*self)
    }

    fn from_json(j: &Json) -> (r: Result<i64, Error>) {
        match j.as_i64() {
            Some(i) => Ok(i),
            None => Err(Error::parse("expected an integer")),
        }
    }
}

impl Wire for i32 {
    open spec fn encode(v: i32) -> JsonValue {
        JsonValue::integer(v as i64)
    }

    open spec fn decode(j: JsonValue) -> Option<i32> {
        match j.as_i64() {
            Some(i) => if i32::MIN <= i <= i32::MAX {
                Some(i as i32)
            } else {
                None
            },
            None => None,
        }
    }

    open spec fn lossless(v: i32) -> bool {
        true
    }

    proof fn lemma_round_trip(v: i32) {
    }

    fn to_json(&self) -> (j: Json) {
        Json::integer(*self as i64)
    }

    fn from_json(j: &Json) -> (r: Result<i32, Error>) {
        match j.as_i64() {
            Some(i) => if -2147483648 <= i && i <= 2147483647 {
                Ok(i as i32)
            } else {
                Err(Error::parse("an integer out of range"))
            },
            None => Err(Error::parse("expected an integer")),
        }
    }
}

impl View for Number {
    type V = Number;

    open spec fn view(&self) -> Number {
        *self
    }
}

impl Wire for Number {
    open spec fn encode(v: Number) -> JsonValue {
        JsonValue::Number(v)
    }

    open spec fn decode(j: JsonValue) -> Option<Number> {
        j.as_number()
    }

    open spec fn lossless(v: Number) -> bool {
        true
    }

    proof fn lemma_round_trip(v: Number) {
    }

    fn to_json(&self) -> (j: Json) {
        Json::Number(*self)
    }

    fn from_json(j: &Json) -> (r: Result<Number, Error>) {
        match j.as_number() {
            Some(n) => Ok(n),
            None => Err(Error::parse("expected a number")),
        }
    }
}

impl Wire for Json {
    open spec fn encode(v: JsonValue) -> JsonValue {
        v
    }

    open spec fn decode(j: JsonValue) -> Option<JsonValue> {
        Some(j)
    }

    open spec fn lossless(v: JsonValue) -> bool {
        !(v is Null)
    }

    proof fn lemma_round_trip(v: JsonValue) {
    }

    fn to_json(&self) -> (j: Json) {
        self.duplicate()
    }

    fn from_json(j: &Json) -> (r: Result<Json, Error>) {
        Ok(j.duplicate())
    }
}

} // verus!
