//! A JSON value as the server reads and writes it, with its mathematical view.

use vstd::prelude::*;
use crate::text::{decimal, same_text};

verus! {

/// A JSON number as the parser keeps it: a non-negative integer, a negative
/// integer, or any other number, held by the bits of its `f64`.
#[derive(Clone, Copy, PartialEq, Eq, Debug)]
pub enum JsonNumber {
    PosInt(u64),
    NegInt(i64),
    Float(u64),
}

/// A JSON value. An object holds its members in order; a lookup finds the
/// first member with the key.
#[derive(Debug)]
pub enum Json {
    Null,
    Bool(bool),
    Number(JsonNumber),
    Str(String),
    Array(Vec<Json>),
    Object(Vec<(String, Json)>),
}

/// The mathematical view of a `Json`: the same tree with texts as character
/// sequences.
#[verifier::ext_equal]
pub enum JsonSpec {
    Null,
    Bool(bool),
    Number(JsonNumber),
    Str(Seq<char>),
    Array(Seq<JsonSpec>),
    Object(Seq<(Seq<char>, JsonSpec)>),
}

/// The view of `j`.
pub open spec fn json_view(j: Json) -> JsonSpec
    decreases j,
{
    match j {
        Json::Null => JsonSpec::Null,
        Json::Bool(b) => JsonSpec::Bool(b),
        Json::Number(n) => JsonSpec::Number(n),
        Json::Str(s) => JsonSpec::Str(s@),
        Json::Array(v) => JsonSpec::Array(
            Seq::new(
                v@.len(),
                |i: int|
                    if 0 <= i < v@.len() {
                        json_view(v@[i])
                    } else {
                        JsonSpec::Null
                    },
            ),
        ),
        Json::Object(v) => JsonSpec::Object(
            Seq::new(
                v@.len(),
                |i: int|
                    if 0 <= i < v@.len() {
                        (v@[i].0@, json_view(v@[i].1))
                    } else {
                        (Seq::empty(), JsonSpec::Null)
                    },
            ),
        ),
    }
}

/// The view of an array lists the views of its items.
pub proof fn lemma_array_view(v: Vec<Json>)
    ensures
        json_view(Json::Array(v)) is Array,
        json_view(Json::Array(v))->Array_0.len() == v@.len(),
        forall|k: int|
            0 <= k < v@.len() ==> #[trigger] json_view(Json::Array(v))->Array_0[k] == json_view(
                v@[k],
            ),
{
}

/// The view of an object lists its keys' characters and its values' views.
pub proof fn lemma_object_view(v: Vec<(String, Json)>)
    ensures
        json_view(Json::Object(v)) is Object,
        json_view(Json::Object(v))->Object_0.len() == v@.len(),
        forall|k: int|
            0 <= k < v@.len() ==> #[trigger] json_view(Json::Object(v))->Object_0[k] == (
                v@[k].0@,
                json_view(v@[k].1),
            ),
{
}

impl View for Json {
    type V = JsonSpec;

    open spec fn view(&self) -> JsonSpec {
        json_view(*self)
    }
}


impl Json {
    /// A copy of this value, member for member.
    pub fn deep_clone(&self) -> (r: Json)
        ensures
            r@ == self@,
        decreases self,
    {
        match self {
            Json::Null => Json::Null,
            Json::Bool(b) => Json::Bool(*b),
            Json::Number(n) => Json::Number(*n),
            Json::Str(s) => Json::Str(s.clone()),
            Json::Array(v) => {
                let mut out: Vec<Json> = Vec::new();
                let mut i: usize = 0;
                while i < v.len()
                    invariant
                        i <= v@.len(),
                        out@.len() == i,
                        forall|k: int| 0 <= k < i ==> (#[trigger] out@[k])@ == v@[k]@,
                        *self == Json::Array(*v),
                    decreases v@.len() - i,
                {
                    proof {
                        assert(decreases_to!(*self => (*self)->Array_0));
                        assert(decreases_to!((*self)->Array_0 => (*self)->Array_0@));
                        assert(decreases_to!((*self)->Array_0@ => v@[i as int]));
                    }
                    let item = v[i].deep_clone();
                    out.push(item);
                    i = i + 1;
                }
                let r = Json::Array(out);
                proof {
                    lemma_array_view(out);
                    lemma_array_view(*v);
                    assert(r@->Array_0 =~= self@->Array_0);
                }
                r
            },
            Json::Object(v) => {
                let mut out: Vec<(String, Json)> = Vec::new();
                let mut i: usize = 0;
                while i < v.len()
                    invariant
                        i <= v@.len(),
                        out@.len() == i,
                        forall|k: int|
                            0 <= k < i ==> (#[trigger] out@[k]).0@ == v@[k].0@ && out@[k].1@
                                == v@[k].1@,
                        *self == Json::Object(*v),
                    decreases v@.len() - i,
                {
                    proof {
                        assert(decreases_to!(*self => (*self)->Object_0));
                        assert(decreases_to!((*self)->Object_0 => (*self)->Object_0@));
                        assert(decreases_to!((*self)->Object_0@ => v@[i as int]));
                        assert(decreases_to!(v@[i as int] => v@[i as int].1));
                    }
                    let key = v[i].0.clone();
                    let item = v[i].1.deep_clone();
                    out.push((key, item));
                    i = i + 1;
                }
                let r = Json::Object(out);
                proof {
                    lemma_object_view(out);
                    lemma_object_view(*v);
                    assert(r@->Object_0 =~= self@->Object_0);
                }
                r
            },
        }
    }
}


/// The value under `key` among `members`: that of the first member with it.
pub open spec fn lookup(members: Seq<(Seq<char>, JsonSpec)>, key: Seq<char>) -> Option<JsonSpec>
    decreases members.len(),
{
    if members.len() == 0 {
        None
    } else if members[0].0 == key {
        Some(members[0].1)
    } else {
        lookup(members.drop_first(), key)
    }
}

/// The value under `key` when `j` is an object, as `Value::get` finds it.
pub open spec fn member(j: JsonSpec, key: Seq<char>) -> Option<JsonSpec> {
    match j {
        JsonSpec::Object(members) => lookup(members, key),
        _ => None,
    }
}

/// The number `j` as an `i64`, when it is an integer in range, as
/// `Value::as_i64` reads it.
pub open spec fn int_of(j: JsonSpec) -> Option<i64> {
    match j {
        JsonSpec::Number(JsonNumber::PosInt(n)) => if n <= i64::MAX {
            Some(n as i64)
        } else {
            None
        },
        JsonSpec::Number(JsonNumber::NegInt(n)) => Some(n),
        _ => None,
    }
}

/// The text `j`, when it is a string.
pub open spec fn str_of(j: JsonSpec) -> Option<Seq<char>> {
    match j {
        JsonSpec::Str(s) => Some(s),
        _ => None,
    }
}

/// The integer under `key` of `v`, if there is one.
pub open spec fn int_member(v: JsonSpec, key: Seq<char>) -> Option<i64> {
    match member(v, key) {
        Some(x) => int_of(x),
        None => None,
    }
}

/// The text under `key` of `v`, or the empty text when there is none.
pub open spec fn str_member(v: JsonSpec, key: Seq<char>) -> Seq<char> {
    match member(v, key) {
        Some(x) => match str_of(x) {
            Some(s) => s,
            None => Seq::empty(),
        },
        None => Seq::empty(),
    }
}

/// The JSON number that serde_json makes of an `i64`.
pub open spec fn int_number(i: i64) -> JsonNumber {
    if i < 0 {
        JsonNumber::NegInt(i)
    } else {
        JsonNumber::PosInt(i as u64)
    }
}

/// The views of object members, in order.
pub open spec fn members_view(ms: Seq<(String, Json)>) -> Seq<(Seq<char>, JsonSpec)> {
    Seq::new(ms.len(), |i: int| (ms[i].0@, ms[i].1@))
}

/// The views of array items, in order.
pub open spec fn items_view(xs: Seq<Json>) -> Seq<JsonSpec> {
    Seq::new(xs.len(), |i: int| xs[i]@)
}

impl Json {
    /// The value under `key`, when this is an object that has one.
    pub fn get(&self, key: &str) -> (r: Option<&Json>)
        ensures
            match r {
                Some(x) => member(self@, key@) == Some(x@),
                None => member(self@, key@) is None,
            },
    {
        match self {
            Json::Object(v) => {
                proof {
                    lemma_object_view(*v);
                }
                let ghost ms = self@->Object_0;
                let mut i: usize = 0;
                assert(ms.skip(0) =~= ms);
                while i < v.len()
                    invariant
                        i <= v@.len(),
                        self@ == JsonSpec::Object(ms),
                        ms.len() == v@.len(),
                        forall|k: int| 0 <= k < v@.len() ==> #[trigger] ms[k] == (v@[k].0@, v@[k].1@),
                        lookup(ms, key@) == lookup(ms.skip(i as int), key@),
                    decreases v@.len() - i,
                {
                    if same_text(v[i].0.as_str(), key) {
                        let x = &v[i].1;
                        assert(ms.skip(i as int)[0] == ms[i as int]);
                        assert(ms.skip(i as int).len() > 0);
                        assert(ms[i as int].0 == key@);
                        assert(lookup(ms.skip(i as int), key@) == Some(ms[i as int].1));
                        assert(ms[i as int].1 == x@);
                        assert(member(self@, key@) == lookup(ms, key@));
                        return Some(x);
                    }
                    assert(ms.skip(i as int).drop_first() =~= ms.skip(i + 1));
                    i = i + 1;
                }
                None
            },
            _ => None,
        }
    }

    /// This number as an `i64`, when it is an integer in range.
    pub fn as_i64(&self) -> (r: Option<i64>)
        ensures
            r == int_of(self@),
    {
        match self {
            Json::Number(JsonNumber::PosInt(n)) => {
                if *n <= 9223372036854775807u64 {
                    Some(*n as i64)
                } else {
                    None
                }
            },
            Json::Number(JsonNumber::NegInt(n)) => Some(*n),
            _ => None,
        }
    }

    /// This text, when it is a string.
    pub fn as_str(&self) -> (r: Option<&str>)
        ensures
            match r {
                Some(t) => str_of(self@) == Some(t@),
                None => str_of(self@) is None,
            },
    {
        match self {
            Json::Str(s) => Some(s.as_str()),
            _ => None,
        }
    }
}

/// The integer under `k` of `v`, if there is one.
pub fn as_i(v: &Json, k: &str) -> (r: Option<i64>)
    ensures
        r == int_member(v@, k@),
{
    match v.get(k) {
        Some(x) => x.as_i64(),
        None => None,
    }
}

/// The text under `k` of `v`, or the empty text.
pub fn as_s<'a>(v: &'a Json, k: &str) -> (r: &'a str)
    ensures
        r@ == str_member(v@, k@),
{
    proof {
        reveal_strlit("");
    }
    match v.get(k) {
        Some(x) => match x.as_str() {
            Some(s) => s,
            None => "",
        },
        None => "",
    }
}

/// A JSON string holding `s`.
pub fn json_str(s: &str) -> (r: Json)
    ensures
        r@ == JsonSpec::Str(s@),
{
    Json::Str(String::from_str(s))
}

/// The JSON number that serde_json makes of `i`.
pub fn json_int(i: i64) -> (r: Json)
    ensures
        r@ == JsonSpec::Number(int_number(i)),
{
    if i < 0 {
        Json::Number(JsonNumber::NegInt(i))
    } else {
        Json::Number(JsonNumber::PosInt(i as u64))
    }
}

/// No members yet.
pub fn no_members() -> (r: Vec<(String, Json)>)
    ensures
        members_view(r@) == Seq::<(Seq<char>, JsonSpec)>::empty(),
{
    let r: Vec<(String, Json)> = Vec::new();
    assert(members_view(r@) =~= Seq::<(Seq<char>, JsonSpec)>::empty());
    r
}

/// Adds the member `key`: `value` at the end.
pub fn add_member(ms: &mut Vec<(String, Json)>, key: &str, value: Json)
    ensures
        members_view(final(ms)@) == members_view(old(ms)@).push((key@, value@)),
{
    ms.push((String::from_str(key), value));
    assert(members_view(ms@) =~= members_view(old(ms)@).push((key@, value@)));
}

/// The object with `ms` as members.
pub fn object(ms: Vec<(String, Json)>) -> (r: Json)
    ensures
        r@ == JsonSpec::Object(members_view(ms@)),
{
    proof {
        lemma_object_view(ms);
    }
    let r = Json::Object(ms);
    assert(r@->Object_0 =~= members_view(ms@));
    r
}

/// No items yet.
pub fn no_items() -> (r: Vec<Json>)
    ensures
        items_view(r@) == Seq::<JsonSpec>::empty(),
{
    let r: Vec<Json> = Vec::new();
    assert(items_view(r@) =~= Seq::<JsonSpec>::empty());
    r
}

/// Adds `value` at the end.
pub fn add_item(xs: &mut Vec<Json>, value: Json)
    ensures
        items_view(final(xs)@) == items_view(old(xs)@).push(value@),
{
    xs.push(value);
    assert(items_view(xs@) =~= items_view(old(xs)@).push(value@));
}

/// The array with `xs` as items.
pub fn array(xs: Vec<Json>) -> (r: Json)
    ensures
        r@ == JsonSpec::Array(items_view(xs@)),
{
    proof {
        lemma_array_view(xs);
    }
    let r = Json::Array(xs);
    assert(r@->Array_0 =~= items_view(xs@));
    r
}


/// The lowercase hexadecimal digit for `d` (below sixteen).
pub open spec fn hex_digit(d: nat) -> char {
    if d < 10 {
        (48 + d) as char
    } else {
        (87 + d) as char
    }
}

/// What serde_json writes for the character `c` inside a string literal:
/// `"` and `\` and the control characters escaped, everything else as is.
pub open spec fn json_escape(c: char) -> Seq<char> {
    if c == '"' {
        seq!['\\', '"']
    } else if c == '\\' {
        seq!['\\', '\\']
    } else if c == '\u{8}' {
        seq!['\\', 'b']
    } else if c == '\t' {
        seq!['\\', 't']
    } else if c == '\n' {
        seq!['\\', 'n']
    } else if c == '\u{c}' {
        seq!['\\', 'f']
    } else if c == '\r' {
        seq!['\\', 'r']
    } else if (c as nat) < 32 {
        seq!['\\', 'u', '0', '0', hex_digit((c as nat) / 16), hex_digit((c as nat) % 16)]
    } else {
        seq![c]
    }
}

/// The escapes of all characters of `s`, in order.
pub open spec fn json_escaped(s: Seq<char>) -> Seq<char>
    decreases s.len(),
{
    if s.len() == 0 {
        Seq::empty()
    } else {
        json_escape(s[0]) + json_escaped(s.drop_first())
    }
}

/// The JSON string literal that serde_json writes for `s`.
pub open spec fn json_string_text(s: Seq<char>) -> Seq<char> {
    seq!['"'] + json_escaped(s) + seq!['"']
}

/// A member value of a flat JSON object: a string or an integer.
#[derive(Debug)]
pub enum Scalar {
    Text(String),
    Int(i64),
}

/// The view of a `Scalar`.
pub enum ScalarSpec {
    Text(Seq<char>),
    Int(i64),
}

impl View for Scalar {
    type V = ScalarSpec;

    open spec fn view(&self) -> ScalarSpec {
        match self {
            Scalar::Text(s) => ScalarSpec::Text(s@),
            Scalar::Int(i) => ScalarSpec::Int(*i),
        }
    }
}

/// The views of flat object members, in order.
pub open spec fn flat_members_view(ms: Seq<(String, Scalar)>) -> Seq<(Seq<char>, ScalarSpec)> {
    Seq::new(ms.len(), |i: int| (ms[i].0@, ms[i].1@))
}

/// Whether `a` comes before `b` in the order of their characters' code
/// points, which is also the byte order of their UTF-8 encodings.
pub open spec fn key_less(a: Seq<char>, b: Seq<char>) -> bool
    decreases a.len(),
{
    if a.len() == 0 {
        b.len() > 0
    } else if b.len() == 0 {
        false
    } else if (a[0] as u32) < (b[0] as u32) {
        true
    } else if a[0] == b[0] {
        key_less(a.drop_first(), b.drop_first())
    } else {
        false
    }
}

/// The keys of `ms` increase strictly from member to member.
pub open spec fn keys_increasing(ms: Seq<(Seq<char>, ScalarSpec)>) -> bool {
    forall|i: int, j: int| 0 <= i < j < ms.len() ==> key_less(#[trigger] ms[i].0, #[trigger] ms[j].0)
}

/// What serde_json writes for a member value.
pub open spec fn scalar_text(v: ScalarSpec) -> Seq<char> {
    match v {
        ScalarSpec::Text(s) => json_string_text(s),
        ScalarSpec::Int(i) => decimal(i as int),
    }
}

/// `parts` joined by commas.
pub open spec fn comma_joined(parts: Seq<Seq<char>>) -> Seq<char>
    decreases parts.len(),
{
    if parts.len() == 0 {
        Seq::empty()
    } else if parts.len() == 1 {
        parts[0]
    } else {
        comma_joined(parts.drop_last()) + ","@ + parts.last()
    }
}

/// The compact JSON text of the object with the members `ms`, in their order:
/// `{`, each member as its key's string literal, `:` and its value, separated
/// by `,`, then `}`.
pub open spec fn object_text(ms: Seq<(Seq<char>, ScalarSpec)>) -> Seq<char> {
    "{"@ + comma_joined(ms.map_values(|m: (Seq<char>, ScalarSpec)| json_string_text(m.0) + ":"@ + scalar_text(m.1))) + "}"@
}

/// Trusted: serde_json's `Value::Object(map).to_string()` for a `Map` filled
/// with these members (strings as `Value::String`, integers by
/// `Value::from(i64)`). Without the `preserve_order` feature the `Map` is a
/// `BTreeMap`, which yields its keys in increasing byte order; members whose
/// keys already increase therefore come out in their given order. The
/// compact formatter writes `{`, the members separated by `,`, each as the
/// escaped key (`format_escaped_str`, whose `ESCAPE` table `json_escape`
/// follows), `:` and the value (a string escaped the same way, an integer in
/// decimal by `itoa`), then `}`. Writing into a `String` cannot fail.
#[verifier::external_body]
pub(crate) fn flat_object_text(members: &Vec<(String, Scalar)>) -> (r: String)
    requires
        keys_increasing(flat_members_view(members@)),
    ensures
        r@ == object_text(flat_members_view(members@)),
{
    let mut map = serde_json::Map::new();
    for (key, value) in members.iter() {
        let v = match value {
            Scalar::Text(t) => serde_json::Value::String(t.clone()),
            Scalar::Int(i) => serde_json::Value::from(*i),
        };
        map.insert(key.clone(), v);
    }
    serde_json::Value::Object(map).to_string()
}

/// No flat members yet.
pub fn no_flat_members() -> (r: Vec<(String, Scalar)>)
    ensures
        r@.len() == 0,
        flat_members_view(r@) == Seq::<(Seq<char>, ScalarSpec)>::empty(),
{
    let r: Vec<(String, Scalar)> = Vec::new();
    assert(flat_members_view(r@) =~= Seq::<(Seq<char>, ScalarSpec)>::empty());
    r
}

/// Adds the flat member `key`: `value` at the end.
pub fn add_flat_member(ms: &mut Vec<(String, Scalar)>, key: &str, value: Scalar)
    ensures
        flat_members_view(final(ms)@) == flat_members_view(old(ms)@).push((key@, value@)),
{
    ms.push((String::from_str(key), value));
    assert(flat_members_view(ms@) =~= flat_members_view(old(ms)@).push((key@, value@)));
}

/// Adding a member whose key follows every key keeps the keys increasing.
pub proof fn lemma_keys_increasing_push(ms: Seq<(Seq<char>, ScalarSpec)>, m: (Seq<char>, ScalarSpec))
    requires
        keys_increasing(ms),
        forall|i: int| 0 <= i < ms.len() ==> key_less(#[trigger] ms[i].0, m.0),
    ensures
        keys_increasing(ms.push(m)),
{
    let s = ms.push(m);
    assert forall|i: int, j: int| 0 <= i < j < s.len() implies key_less(#[trigger] s[i].0, #[trigger] s[j].0) by {
        assert(s[i] == ms[i]);
        if j < ms.len() {
            assert(s[j] == ms[j]);
        }
    }
}

} // verus!
