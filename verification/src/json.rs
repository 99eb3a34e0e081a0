//! JSON values as the library sees them, and the decoding of typed values
//! out of them.
//!
//! Parsing itself is the work of `miniserde`; the library takes over once a
//! text has become a [`JsonValue`].

use vstd::prelude::*;
use miniserde::json::{Number, Value};
use crate::text::str_eq;

verus! {

/// A JSON number, in the representation the parser chose for it.
#[derive(Copy, Clone, Debug, PartialEq, Eq, Structural)]
pub enum JsonNumber {
    /// A non-negative integer that fits 64 bits.
    U64(u64),
    /// A negative integer that fits 64 bits.
    I64(i64),
    /// Any other number, as the IEEE 754 bit pattern of a double.
    F64(u64),
}

/// A JSON value. An object is the list of its members in the order of their
/// keys; where a key occurs more than once the last member counts.
#[derive(Debug)]
pub enum JsonValue {
    Null,
    Bool(bool),
    Number(JsonNumber),
    String(String),
    Array(Vec<JsonValue>),
    Object(Vec<(String, JsonValue)>),
}

/// The mathematical model of a [`JsonValue`].
pub enum Json {
    Null,
    Bool(bool),
    Number(JsonNumber),
    String(Seq<char>),
    Array(Seq<Json>),
    Object(Seq<(Seq<char>, Json)>),
}

impl JsonValue {
    /// The model of this value: strings become sequences of characters,
    /// arrays and objects sequences of the models of what they hold.
    pub open spec fn model(&self) -> Json
        decreases self,
    {
        match self {
            JsonValue::Null => Json::Null,
            JsonValue::Bool(b) => Json::Bool(*b),
            JsonValue::Number(n) => Json::Number(*n),
            JsonValue::String(s) => Json::String(s@),
            JsonValue::Array(items) => Json::Array(
                Seq::new(
                    items.len() as nat,
                    |i: int|
                        if 0 <= i < items.len() {
                            items[i].model()
                        } else {
                            Json::Null
                        },
                ),
            ),
            JsonValue::Object(members) => Json::Object(
                Seq::new(
                    members.len() as nat,
                    |i: int|
                        if 0 <= i < members.len() {
                            (members[i].0@, members[i].1.model())
                        } else {
                            (Seq::empty(), Json::Null)
                        },
                ),
            ),
        }
    }
}

impl DeepView for JsonValue {
    type V = Json;

    open spec fn deep_view(&self) -> Json {
        self.model()
    }
}

impl View for JsonValue {
    type V = Json;

    open spec fn view(&self) -> Json {
        self.model()
    }
}

/// The model of an array holds the models of its items, in their order.
pub proof fn lemma_array_view(items: Vec<JsonValue>)
    ensures
        JsonValue::Array(items)@ is Array,
        JsonValue::Array(items)@->Array_0.len() == items.len(),
        forall|j: int| 0 <= j < items.len() ==> JsonValue::Array(items)@->Array_0[j] == items[j]@,
{
}

/// The model of an object holds its members in their order, each as the
/// characters of its key and the model of its value.
pub proof fn lemma_object_view(members: Vec<(String, JsonValue)>)
    ensures
        JsonValue::Object(members)@ is Object,
        JsonValue::Object(members)@->Object_0.len() == members.len(),
        forall|j: int| 0 <= j < members.len() ==> JsonValue::Object(members)@->Object_0[j] == (members[j].0@, members[j].1@),
{
}

/// The value that a list of object members holds under `key`: that of the
/// last member with this key.
pub open spec fn lookup(members: Seq<(Seq<char>, Json)>, key: Seq<char>) -> Option<Json>
    decreases members.len(),
{
    if members.len() == 0 {
        None
    } else if members.last().0 == key {
        Some(members.last().1)
    } else {
        lookup(members.drop_last(), key)
    }
}

impl Json {
    /// The member of an object under `key`; `None` for a missing key and for
    /// anything that is no object.
    pub open spec fn member(self, key: Seq<char>) -> Option<Json> {
        match self {
            Json::Object(members) => lookup(members, key),
            _ => None,
        }
    }
}

/// The value that `miniserde::json::from_str` makes of a text, or `None`
/// where it rejects the text.
pub uninterp spec fn json_parse(text: Seq<char>) -> Option<Json>;

#[verifier::external_type_specification]
#[verifier::external_body]
pub struct ExMiniserdeValue(miniserde::json::Value);

/// Moves a parsed value of `miniserde` into a [`JsonValue`], variant by
/// variant; a double is kept as its bit pattern, and the members of an object
/// come in the order of their keys.
///
/// Trusted: handles `miniserde::json::Value`, whose inside Verus does not see;
/// nothing is claimed of the result.
#[verifier::external_body]
fn from_miniserde(value: Value) -> JsonValue {
    match value {
        Value::Null => JsonValue::Null,
        Value::Bool(b) => JsonValue::Bool(b),
        Value::Number(Number::U64(n)) => JsonValue::Number(JsonNumber::U64(n)),
        Value::Number(Number::I64(n)) => JsonValue::Number(JsonNumber::I64(n)),
        Value::Number(Number::F64(n)) => JsonValue::Number(JsonNumber::F64(n.to_bits())),
        Value::String(s) => JsonValue::String(s),
        Value::Array(a) => JsonValue::Array(a.into_iter().map(from_miniserde).collect()),
        Value::Object(o) => JsonValue::Object(o.into_iter().map(|(k, v)| (k, from_miniserde(v))).collect()),
    }
}

/// The deepest nesting of arrays and objects that [`parse`] reads.
pub const MAX_NESTING: usize = 128;

/// The longest text, in bytes, that [`parse`] reads.
pub const MAX_TEXT_BYTES: usize = 0x7fff_ffff;

/// Where a scan of a JSON text stands: how many arrays and objects are open,
/// how many were open at most, and whether the scan is inside a string and
/// behind a backslash there.
pub struct Scan {
    pub depth: nat,
    pub deepest: nat,
    pub in_string: bool,
    pub escaped: bool,
}

/// The scan after one more byte. Outside a string, `[` and `{` open and `]`
/// and `}` close; a `"` enters a string and the next `"` that no backslash
/// stands before leaves it.
pub open spec fn scan_byte(scan: Scan, byte: u8) -> Scan {
    if scan.in_string {
        if scan.escaped {
            Scan { escaped: false, ..scan }
        } else if byte == 0x5c {
            Scan { escaped: true, ..scan }
        } else if byte == 0x22 {
            Scan { in_string: false, ..scan }
        } else {
            scan
        }
    } else if byte == 0x22 {
        Scan { in_string: true, ..scan }
    } else if byte == 0x5b || byte == 0x7b {
        Scan {
            depth: scan.depth + 1,
            deepest: if scan.depth + 1 > scan.deepest {
                scan.depth + 1
            } else {
                scan.deepest
            },
            ..scan
        }
    } else if (byte == 0x5d || byte == 0x7d) && scan.depth > 0 {
        Scan { depth: (scan.depth - 1) as nat, ..scan }
    } else {
        scan
    }
}

/// The scan after all of `bytes`.
pub open spec fn scan_of(bytes: Seq<u8>) -> Scan
    decreases bytes.len(),
{
    if bytes.len() == 0 {
        Scan { depth: 0, deepest: 0, in_string: false, escaped: false }
    } else {
        scan_byte(scan_of(bytes.drop_last()), bytes.last())
    }
}

/// How deep the arrays and objects of a JSON text are nested at most.
pub open spec fn nesting(text: Seq<char>) -> nat {
    scan_of(vstd::utf8::encode_utf8(text)).deepest
}

/// Computes [`nesting`].
pub fn nesting_of(text: &str) -> (deepest: usize)
    ensures
        deepest == nesting(text@),
{
    let bytes = text.as_bytes();
    let mut depth: usize = 0;
    let mut deepest: usize = 0;
    let mut in_string = false;
    let mut escaped = false;
    let mut i: usize = 0;
    while i < bytes.len()
        invariant
            i <= bytes.len(),
            depth <= i,
            deepest <= i,
            scan_of(bytes@.subrange(0, i as int)) == (Scan {
                depth: depth as nat,
                deepest: deepest as nat,
                in_string,
                escaped,
            }),
        decreases bytes.len() - i,
    {
        let byte = bytes[i];
        proof {
            let head = bytes@.subrange(0, i + 1);
            assert(head.drop_last() =~= bytes@.subrange(0, i as int));
            assert(head.last() == byte);
        }
        if in_string {
            if escaped {
                escaped = false;
            } else if byte == 0x5c {
                escaped = true;
            } else if byte == 0x22 {
                in_string = false;
            }
        } else if byte == 0x22 {
            in_string = true;
        } else if byte == 0x5b || byte == 0x7b {
            depth = depth + 1;
            if depth > deepest {
                deepest = depth;
            }
        } else if (byte == 0x5d || byte == 0x7d) && depth > 0 {
            depth = depth - 1;
        }
        i = i + 1;
    }
    assert(bytes@.subrange(0, i as int) =~= bytes@);
    deepest
}

/// Whether [`parse`] hands a text to the parser: it is no longer than
/// [`MAX_TEXT_BYTES`] and its arrays and objects are nested no deeper than
/// [`MAX_NESTING`].
pub open spec fn is_readable(text: Seq<char>) -> bool {
    &&& vstd::utf8::encode_utf8(text).len() <= MAX_TEXT_BYTES
    &&& nesting(text) <= MAX_NESTING
}

/// What [`parse`] makes of a text: what the parser makes of it where the
/// text is readable, and no JSON else.
pub open spec fn parsed(text: Seq<char>) -> Option<Json> {
    if is_readable(text) {
        json_parse(text)
    } else {
        None
    }
}

/// Parses a JSON text with `miniserde`.
///
/// Trusted: calls `miniserde::json::from_str` for `miniserde::json::Value`.
/// The parser reads nothing but the text, so its outcome is a function of the
/// text, which the contract names [`json_parse`]; which texts it accepts is
/// not stated. The parser counts the digits of a long number in 32 bits,
/// hence the bound on the length; it does not recurse, but the conversion of
/// its result does, hence the bound on the nesting.
#[verifier::external_body]
fn miniserde_parse(text: &str) -> (parsed: Option<JsonValue>)
    requires
        is_readable(text@),
    ensures
        parsed.deep_view() == json_parse(text@),
{
    miniserde::json::from_str::<Value>(text).ok().map(from_miniserde)
}

/// Parses a JSON text: the value that it stands for, or `None` where it is
/// no JSON, too long or nested too deep. See [`parsed`].
pub fn parse(text: &str) -> (value: Option<JsonValue>)
    ensures
        value.deep_view() == parsed(text@),
{
    if text.as_bytes().len() <= MAX_TEXT_BYTES && nesting_of(text) <= MAX_NESTING {
        miniserde_parse(text)
    } else {
        None
    }
}

impl JsonValue {
    /// The member of an object under `key`.
    pub fn get(&self, key: &str) -> (found: Option<&JsonValue>)
        ensures
            found.deep_view() == self@.member(key@),
    {
        match self {
            JsonValue::Object(members) => {
                let ghost all = self@->Object_0;
                let mut i: usize = members.len();
                assert(all.subrange(0, i as int) =~= all);
                while i > 0
                    invariant
                        i <= members.len(),
                        self@ == Json::Object(all),
                        all.len() == members.len(),
                        forall|j: int| 0 <= j < members.len() ==> all[j] == (members[j].0@, members[j].1@),
                        lookup(all, key@) == lookup(all.subrange(0, i as int), key@),
                    decreases i,
                {
                    let entry = &members[i - 1];
                    proof {
                        let head = all.subrange(0, i as int);
                        assert(head.last() == all[i - 1]);
                        assert(head.drop_last() =~= all.subrange(0, i - 1));
                    }
                    if str_eq(entry.0.as_str(), key) {
                        return Some(&entry.1);
                    }
                    i -= 1;
                }
                None
            },
            _ => None,
        }
    }
}

impl JsonValue {
    /// A copy of this value.
    pub fn duplicate(&self) -> (copy: JsonValue)
        ensures
            copy@ == self@,
        decreases self,
    {
        match self {
            JsonValue::Null => JsonValue::Null,
            JsonValue::Bool(b) => JsonValue::Bool(*b),
            JsonValue::Number(n) => JsonValue::Number(*n),
            JsonValue::String(s) => JsonValue::String(s.clone()),
            JsonValue::Array(items) => {
                let mut copies: Vec<JsonValue> = Vec::new();
                let mut i: usize = 0;
                while i < items.len()
                    invariant
                        i <= items.len(),
                        self == JsonValue::Array(*items),
                        copies.len() == i,
                        forall|j: int| 0 <= j < i ==> copies[j]@ == items[j]@,
                    decreases items.len() - i,
                {
                    assert(decreases_to!(self->Array_0 => self->Array_0[i as int]));
                    copies.push(items[i].duplicate());
                    i += 1;
                }
                proof {
                    lemma_array_view(*items);
                    lemma_array_view(copies);
                    assert(JsonValue::Array(copies)@->Array_0 =~= self@->Array_0);
                }
                JsonValue::Array(copies)
            },
            JsonValue::Object(members) => {
                let mut copies: Vec<(String, JsonValue)> = Vec::new();
                let mut i: usize = 0;
                while i < members.len()
                    invariant
                        i <= members.len(),
                        self == JsonValue::Object(*members),
                        copies.len() == i,
                        forall|j: int| 0 <= j < i ==> copies[j].0@ == members[j].0@ && copies[j].1@ == members[j].1@,
                    decreases members.len() - i,
                {
                    assert(decreases_to!(self->Object_0 => self->Object_0[i as int]));
                    copies.push((members[i].0.clone(), members[i].1.duplicate()));
                    i += 1;
                }
                proof {
                    lemma_object_view(*members);
                    lemma_object_view(copies);
                    assert(JsonValue::Object(copies)@->Object_0 =~= self@->Object_0);
                }
                JsonValue::Object(copies)
            },
        }
    }
}

impl Clone for JsonValue {
    fn clone(&self) -> (copy: JsonValue)
        ensures
            copy@ == self@,
    {
        self.duplicate()
    }
}

/// A JSON object that is kept as it came, for a part of a response that the
/// library hands on without reading it.
#[derive(Clone, Debug)]
pub struct RawObject {
    pub value: JsonValue,
}

impl DeepView for RawObject {
    type V = Json;

    open spec fn deep_view(&self) -> Json {
        self.value@
    }
}

impl FromValueOpt for RawObject {
    /// Every JSON object decodes to itself; nothing else decodes.
    open spec fn decoded(json: Json) -> Option<Json> {
        if json is Object {
            Some(json)
        } else {
            None
        }
    }

    fn from_value(value: &JsonValue) -> (out: Option<RawObject>) {
        match value {
            JsonValue::Object(_) => Some(RawObject { value: value.duplicate() }),
            _ => None,
        }
    }
}

/// A type that can be read out of a JSON value.
pub trait FromValueOpt: Sized + DeepView {
    /// The model of what [`FromValueOpt::from_value`] makes of a JSON value.
    spec fn decoded(json: Json) -> Option<Self::V>;

    /// Reads a value of this type out of `value`, or gives `None` where the
    /// JSON value does not have the shape of one.
    fn from_value(value: &JsonValue) -> (out: Option<Self>)
        ensures
            out.deep_view() == Self::decoded(value@),
    ;
}

/// What the member of an object under `key` decodes to; where the object has
/// no such member, `absent` stands in, which is `None` for a member that must
/// be there.
pub open spec fn decoded_member<T: FromValueOpt>(json: Json, key: Seq<char>, absent: Option<T::V>) -> Option<T::V> {
    match json.member(key) {
        Some(member) => T::decoded(member),
        None => absent,
    }
}

/// Reads the member of `object` under `key`, or hands back `absent` where
/// there is none. `None` says that the member is there and has the wrong
/// shape, or is missing and `absent` was `None`.
pub fn member_from_value<T: FromValueOpt>(object: &JsonValue, key: &str, absent: Option<T>) -> (out: Option<T>)
    ensures
        out.deep_view() == decoded_member::<T>(object@, key@, absent.deep_view()),
{
    match object.get(key) {
        Some(member) => T::from_value(member),
        None => absent,
    }
}

impl FromValueOpt for String {
    open spec fn decoded(json: Json) -> Option<Seq<char>> {
        match json {
            Json::String(s) => Some(s),
            _ => None,
        }
    }

    fn from_value(value: &JsonValue) -> (out: Option<String>) {
        match value {
            JsonValue::String(s) => Some(s.clone()),
            _ => None,
        }
    }
}

impl FromValueOpt for () {
    /// Only `null` decodes to the unit value.
    open spec fn decoded(json: Json) -> Option<()> {
        match json {
            Json::Null => Some(()),
            _ => None,
        }
    }

    fn from_value(value: &JsonValue) -> (out: Option<()>) {
        match value {
            JsonValue::Null => Some(()),
            _ => None,
        }
    }
}

impl FromValueOpt for bool {
    open spec fn decoded(json: Json) -> Option<bool> {
        match json {
            Json::Bool(b) => Some(b),
            _ => None,
        }
    }

    fn from_value(value: &JsonValue) -> (out: Option<bool>) {
        match value {
            JsonValue::Bool(b) => Some(*b),
            _ => None,
        }
    }
}

impl FromValueOpt for i64 {
    open spec fn decoded(json: Json) -> Option<i64> {
        match json {
            Json::Number(JsonNumber::I64(n)) => Some(n),
            Json::Number(JsonNumber::U64(n)) => if n <= i64::MAX {
                Some(n as i64)
            } else {
                None
            },
            _ => None,
        }
    }

    fn from_value(value: &JsonValue) -> (out: Option<i64>) {
        match value {
            JsonValue::Number(JsonNumber::I64(n)) => Some(*n),
            JsonValue::Number(JsonNumber::U64(n)) => if *n <= i64::MAX as u64 {
                Some(*n as i64)
            } else {
                None
            },
            _ => None,
        }
    }
}

impl<T: FromValueOpt> FromValueOpt for Option<T> {
    open spec fn decoded(json: Json) -> Option<Option<T::V>> {
        match json {
            Json::Null => Some(None),
            _ => match T::decoded(json) {
                Some(inner) => Some(Some(inner)),
                None => None,
            },
        }
    }

    fn from_value(value: &JsonValue) -> (out: Option<Option<T>>) {
        match value {
            JsonValue::Null => Some(None),
            _ => match T::from_value(value) {
                Some(inner) => Some(Some(inner)),
                None => None,
            },
        }
    }
}

impl<T: FromValueOpt> FromValueOpt for Vec<T> {
    open spec fn decoded(json: Json) -> Option<Seq<T::V>> {
        match json {
            Json::Array(items) => if forall|i: int| 0 <= i < items.len() ==> (#[trigger] T::decoded(items[i])) is Some {
                Some(Seq::new(items.len(), |i: int| T::decoded(items[i]).unwrap()))
            } else {
                None
            },
            _ => None,
        }
    }

    fn from_value(value: &JsonValue) -> (out: Option<Vec<T>>) {
        match value {
            JsonValue::Array(items) => {
                let ghost all = value@->Array_0;
                let mut result: Vec<T> = Vec::new();
                let mut i: usize = 0;
                while i < items.len()
                    invariant
                        i <= items.len(),
                        value@ == Json::Array(all),
                        all.len() == items.len(),
                        forall|j: int| 0 <= j < items.len() ==> all[j] == items[j]@,
                        result.len() == i,
                        forall|j: int| 0 <= j < i ==> T::decoded(all[j]) == Some(#[trigger] result[j].deep_view()),
                    decreases items.len() - i,
                {
                    match T::from_value(&items[i]) {
                        Some(item) => {
                            result.push(item);
                        },
                        None => {
                            assert(T::decoded(all[i as int]) is None);
                            return None;
                        },
                    }
                    i += 1;
                }
                proof {
                    assert forall|j: int| 0 <= j < all.len() implies (#[trigger] T::decoded(all[j])) is Some by {
                        assert(T::decoded(all[j]) == Some(result[j].deep_view()));
                    }
                    assert(result.deep_view() =~= Seq::new(all.len(), |i: int| T::decoded(all[i]).unwrap()));
                }
                Some(result)
            },
            _ => None,
        }
    }
}

} // verus!
