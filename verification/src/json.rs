//! A JSON document model: request bodies are built in it and API responses
//! are read from it.
use vstd::prelude::*;
use crate::text::{digit_value, is_digit, owned, str_eq, views};
use vstd::string::StrSliceExecFns;

verus! {

/// A JSON number, kept as the three kinds a JSON number can be read as:
/// a non-negative integer, a negative integer, or any other number, kept
/// as its decimal text.
#[derive(Debug, PartialEq)]
pub enum JsonNumber {
    PosInt(u64),
    NegInt(i64),
    Float(String),
}

/// A JSON value. An object keeps its members in order as key/value pairs;
/// looking a key up finds its first occurrence (values decoded from text
/// have each key once).
#[derive(Debug, PartialEq)]
pub enum Json {
    Null,
    Bool(bool),
    Number(JsonNumber),
    String(String),
    Array(Vec<Json>),
    Object(Vec<(String, Json)>),
}

/// Mathematical view of a JSON number.
pub enum NumberV {
    PosInt(u64),
    NegInt(i64),
    Float(Seq<char>),
}

/// Mathematical view of a JSON value.
pub enum JsonV {
    Null,
    Bool(bool),
    Number(NumberV),
    Str(Seq<char>),
    Array(Seq<JsonV>),
    Object(Seq<(Seq<char>, JsonV)>),
}

/// The view of a JSON number.
pub open spec fn number_view(n: JsonNumber) -> NumberV {
    match n {
        JsonNumber::PosInt(u) => NumberV::PosInt(u),
        JsonNumber::NegInt(i) => NumberV::NegInt(i),
        JsonNumber::Float(s) => NumberV::Float(s@),
    }
}

/// The view of a JSON value.
pub open spec fn json_view(j: Json) -> JsonV
    decreases j,
{
    match j {
        Json::Null => JsonV::Null,
        Json::Bool(b) => JsonV::Bool(b),
        Json::Number(n) => JsonV::Number(number_view(n)),
        Json::String(s) => JsonV::Str(s@),
        Json::Array(v) => JsonV::Array(
            Seq::new(
                v@.len(),
                |i: int|
                    if 0 <= i < v@.len() {
                        json_view(v@[i])
                    } else {
                        JsonV::Null
                    },
            ),
        ),
        Json::Object(v) => JsonV::Object(
            Seq::new(
                v@.len(),
                |i: int|
                    if 0 <= i < v@.len() {
                        (v@[i].0@, json_view(v@[i].1))
                    } else {
                        (Seq::empty(), JsonV::Null)
                    },
            ),
        ),
    }
}

impl View for Json {
    type V = JsonV;

    open spec fn view(&self) -> JsonV {
        json_view(*self)
    }
}

/// The views of a sequence of JSON values.
pub open spec fn items_view(v: Seq<Json>) -> Seq<JsonV> {
    Seq::new(v.len(), |i: int| json_view(v[i]))
}

/// The views of a sequence of JSON object members.
pub open spec fn members_view(v: Seq<(String, Json)>) -> Seq<(Seq<char>, JsonV)> {
    Seq::new(v.len(), |i: int| (v[i].0@, json_view(v[i].1)))
}

/// The view of an array is the sequence of the views of its items.
pub proof fn lemma_array_view(v: Vec<Json>)
    ensures
        json_view(Json::Array(v)) == JsonV::Array(items_view(v@)),
{
    let s = json_view(Json::Array(v))->Array_0;
    assert(s =~= items_view(v@));
}

/// The view of an object is the sequence of the views of its members.
pub proof fn lemma_object_view(v: Vec<(String, Json)>)
    ensures
        json_view(Json::Object(v)) == JsonV::Object(members_view(v@)),
{
    let s = json_view(Json::Object(v))->Object_0;
    assert(s =~= members_view(v@));
}

/// The value of the first member of `members` named `key`, if any.
pub open spec fn member(members: Seq<(Seq<char>, JsonV)>, key: Seq<char>) -> Option<JsonV>
    decreases members.len(),
{
    if members.len() == 0 {
        None
    } else if members[0].0 == key {
        Some(members[0].1)
    } else {
        member(members.drop_first(), key)
    }
}

/// The member `key` of `j` when `j` is an object holding it.
pub open spec fn field(j: JsonV, key: Seq<char>) -> Option<JsonV> {
    match j {
        JsonV::Object(m) => member(m, key),
        _ => None,
    }
}

/// The element `i` of `j` when `j` is an array that long.
pub open spec fn element(j: JsonV, i: int) -> Option<JsonV> {
    match j {
        JsonV::Array(a) => if 0 <= i < a.len() {
            Some(a[i])
        } else {
            None
        },
        _ => None,
    }
}

/// The text of `j` when `j` is a string.
pub open spec fn str_of(j: JsonV) -> Option<Seq<char>> {
    match j {
        JsonV::Str(s) => Some(s),
        _ => None,
    }
}

/// The integer that `j` holds when it is a number that fits in an `i64`.
pub open spec fn i64_of(j: JsonV) -> Option<i64> {
    match j {
        JsonV::Number(NumberV::PosInt(u)) => if u <= i64::MAX {
            Some(u as i64)
        } else {
            None
        },
        JsonV::Number(NumberV::NegInt(i)) => Some(i),
        _ => None,
    }
}

/// Whether `j` is an object with no members.
pub open spec fn is_empty_object(j: JsonV) -> bool {
    j matches JsonV::Object(m) && m.len() == 0
}

/// The number that the digits `s` spell in decimal.
pub open spec fn digits_value(s: Seq<char>) -> nat
    decreases s.len(),
{
    if s.len() == 0 {
        0
    } else {
        (digits_value(s.drop_last()) * 10 + digit_value(s.last())) as nat
    }
}

/// The array index that a pointer token names: a non-empty run of decimal
/// digits, without a leading zero unless it is `0` itself, whose value fits
/// in a `usize` (the rule of serde_json's `parse_index`).
pub open spec fn token_index(tok: Seq<char>) -> Option<nat> {
    if tok.len() == 0 || !(forall|i: int| 0 <= i < tok.len() ==> is_digit(#[trigger] tok[i])) || (
    tok[0] == '0' && tok.len() != 1) || digits_value(tok) > usize::MAX {
        None
    } else {
        Some(digits_value(tok))
    }
}

/// One step of a JSON pointer: the member `tok` of an object, or the element
/// of an array that `tok` indexes.
pub open spec fn step(j: JsonV, tok: Seq<char>) -> Option<JsonV> {
    match j {
        JsonV::Object(m) => member(m, tok),
        JsonV::Array(a) => match token_index(tok) {
            Some(i) => if i < a.len() {
                Some(a[i as int])
            } else {
                None
            },
            None => None,
        },
        _ => None,
    }
}

/// Two steps of a JSON pointer.
pub open spec fn step2(j: JsonV, a: Seq<char>, b: Seq<char>) -> Option<JsonV> {
    match step(j, a) {
        Some(x) => step(x, b),
        None => None,
    }
}

/// Three steps of a JSON pointer.
pub open spec fn step3(j: JsonV, a: Seq<char>, b: Seq<char>, c: Seq<char>) -> Option<JsonV> {
    match step2(j, a, b) {
        Some(x) => step(x, c),
        None => None,
    }
}

proof fn lemma_digits_value_prefix(s: Seq<char>, j: int)
    requires
        0 <= j <= s.len(),
        forall|i: int| 0 <= i < s.len() ==> is_digit(#[trigger] s[i]),
    ensures
        digits_value(s.take(j)) <= digits_value(s),
    decreases s.len(),
{
    if j < s.len() {
        assert forall|i: int| 0 <= i < s.len() - 1 implies is_digit(#[trigger] s.drop_last()[i]) by {
            assert(s.drop_last()[i] == s[i]);
        }
        lemma_digits_value_prefix(s.drop_last(), j);
        assert(s.drop_last().take(j) =~= s.take(j));
        assert(is_digit(s.last()));
    } else {
        assert(s.take(j) =~= s);
    }
}

/// The array index that the token `tok` names, if any.
pub fn parse_token_index(tok: &str) -> (r: Option<usize>)
    ensures
        match r {
            Some(i) => token_index(tok@) == Some(i as nat),
            None => token_index(tok@) is None,
        },
{
    let n = tok.unicode_len();
    if n == 0 {
        return None;
    }
    if tok.get_char(0) == '0' && n != 1 {
        return None;
    }
    let mut acc: usize = 0;
    let mut i: usize = 0;
    while i < n
        invariant
            n == tok@.len(),
            i <= n,
            forall|k: int| 0 <= k < i ==> is_digit(#[trigger] tok@[k]),
            acc == digits_value(tok@.take(i as int)),
        decreases n - i,
    {
        let c = tok.get_char(i);
        if !('0' <= c && c <= '9') {
            return None;
        }
        let d = ((c as u32) - ('0' as u32)) as usize;
        assert(tok@.take(i + 1).drop_last() =~= tok@.take(i as int));
        let next = match acc.checked_mul(10) {
            Some(m) => m.checked_add(d),
            None => None,
        };
        match next {
            Some(v) => {
                acc = v;
            },
            None => {
                proof {
                    assert(digits_value(tok@.take(i + 1)) == acc * 10 + d);
                    if forall|k: int| 0 <= k < n ==> is_digit(#[trigger] tok@[k]) {
                        lemma_digits_value_prefix(tok@, i + 1);
                    }
                }
                return None;
            },
        }
        i = i + 1;
    }
    assert(tok@.take(n as int) =~= tok@);
    Some(acc)
}

proof fn lemma_member_index(members: Seq<(Seq<char>, JsonV)>, key: Seq<char>, i: int)
    requires
        0 <= i <= members.len(),
        forall|k: int| 0 <= k < i ==> members[k].0 != key,
    ensures
        member(members, key) == member(members.subrange(i, members.len() as int), key),
    decreases i,
{
    if i == 0 {
        assert(members.subrange(0, members.len() as int) =~= members);
    } else {
        let rest = members.drop_first();
        assert forall|k: int| 0 <= k < i - 1 implies rest[k].0 != key by {
            assert(rest[k] == members[k + 1]);
        }
        lemma_member_index(rest, key, i - 1);
        assert(rest.subrange(i - 1, rest.len() as int) =~= members.subrange(i, members.len() as int));
    }
}

impl Json {
    /// The member `key` of this value when it is an object holding it.
    pub fn get(&self, key: &str) -> (r: Option<&Json>)
        ensures
            match r {
                Some(x) => field(self@, key@) == Some(x@),
                None => field(self@, key@) is None,
            },
    {
        match self {
            Json::Object(members) => {
                proof {
                    lemma_object_view(*members);
                }
                let ghost mv = members_view(members@);
                let mut i: usize = 0;
                while i < members.len()
                    invariant
                        mv == members_view(members@),
                        self@ == JsonV::Object(mv),
                        i <= members.len(),
                        forall|k: int| 0 <= k < i ==> mv[k].0 != key@,
                    decreases members.len() - i,
                {
                    if str_eq(members[i].0.as_str(), key) {
                        proof {
                            lemma_member_index(mv, key@, i as int);
                            let sub = mv.subrange(i as int, mv.len() as int);
                            assert(sub[0] == mv[i as int]);
                            assert(mv[i as int] == (members@[i as int].0@, json_view(members@[i as int].1)));
                            assert(sub[0].0 == key@);
                            assert(member(sub, key@) == Some(sub[0].1));

                        }
                        return Some(&members[i].1);
                    }
                    i = i + 1;
                }
                proof {
                    lemma_member_index(mv, key@, i as int);
                }
                None
            },
            _ => None,
        }
    }

    /// The element `i` of this value when it is an array that long.
    pub fn at(&self, i: usize) -> (r: Option<&Json>)
        ensures
            match r {
                Some(x) => element(self@, i as int) == Some(x@),
                None => element(self@, i as int) is None,
            },
    {
        match self {
            Json::Array(items) => {
                proof {
                    lemma_array_view(*items);
                }
                if i < items.len() {
                    Some(&items[i])
                } else {
                    None
                }
            },
            _ => None,
        }
    }

    /// One step of a JSON pointer from this value: the member `tok` of an
    /// object, or the element of an array that `tok` indexes.
    pub fn step(&self, tok: &str) -> (r: Option<&Json>)
        ensures
            match r {
                Some(x) => step(self@, tok@) == Some(x@),
                None => step(self@, tok@) is None,
            },
    {
        match self {
            Json::Object(_) => self.get(tok),
            Json::Array(items) => {
                proof {
                    lemma_array_view(*items);
                }
                match parse_token_index(tok) {
                    Some(i) => self.at(i),
                    None => None,
                }
            },
            _ => None,
        }
    }

    /// A copy of this value.
    pub fn deep_copy(&self) -> (r: Json)
        ensures
            r@ == self@,
        decreases self,
    {
        match self {
            Json::Null => Json::Null,
            Json::Bool(b) => Json::Bool(*b),
            Json::Number(n) => Json::Number(
                match n {
                    JsonNumber::PosInt(u) => JsonNumber::PosInt(*u),
                    JsonNumber::NegInt(i) => JsonNumber::NegInt(*i),
                    JsonNumber::Float(t) => JsonNumber::Float(t.clone()),
                },
            ),
            Json::String(t) => Json::String(t.clone()),
            Json::Array(items) => {
                let mut out: Vec<Json> = Vec::new();
                let mut i: usize = 0;
                while i < items.len()
                    invariant
                        *self == Json::Array(*items),
                        i <= items.len(),
                        out@.len() == i,
                        forall|k: int| 0 <= k < i ==> json_view(#[trigger] out@[k]) == json_view(
                            items@[k],
                        ),
                    decreases items.len() - i,
                {
                    proof {
                        let v = (*self)->Array_0;
                        assert(decreases_to!(v@ => v@[i as int]));
                        assert(decreases_to!(v => v@));
                        assert(decreases_to!(*self => (*self)->Array_0));
                    }
                    out.push(items[i].deep_copy());
                    i = i + 1;
                }
                proof {
                    lemma_array_view(*items);
                    lemma_array_view(out);
                    assert(items_view(out@) =~= items_view(items@));
                }
                Json::Array(out)
            },
            Json::Object(members) => {
                let mut out: Vec<(String, Json)> = Vec::new();
                let mut i: usize = 0;
                while i < members.len()
                    invariant
                        *self == Json::Object(*members),
                        i <= members.len(),
                        out@.len() == i,
                        forall|k: int| 0 <= k < i ==> (#[trigger] out@[k]).0@ == members@[k].0@
                            && json_view(out@[k].1) == json_view(members@[k].1),
                    decreases members.len() - i,
                {
                    proof {
                        let v = (*self)->Object_0;
                        let p = v@[i as int];
                        assert(decreases_to!(p => p.1));
                        assert(decreases_to!(v@ => p));
                        assert(decreases_to!(v => v@));
                        assert(decreases_to!(*self => (*self)->Object_0));
                    }
                    let key = members[i].0.clone();
                    let value = members[i].1.deep_copy();
                    out.push((key, value));
                    i = i + 1;
                }
                proof {
                    lemma_object_view(*members);
                    lemma_object_view(out);
                    assert(members_view(out@) =~= members_view(members@));
                }
                Json::Object(out)
            },
        }
    }

    /// The text of this value when it is a string.
    pub fn as_str(&self) -> (r: Option<&String>)
        ensures
            match r {
                Some(s) => str_of(self@) == Some(s@),
                None => str_of(self@) is None,
            },
    {
        match self {
            Json::String(s) => Some(s),
            _ => None,
        }
    }

    /// The integer this value holds when it is a number that fits in an `i64`.
    pub fn as_i64(&self) -> (r: Option<i64>)
        ensures
            r == i64_of(self@),
    {
        match self {
            Json::Number(JsonNumber::PosInt(u)) => {
                if *u <= 9223372036854775807u64 {
                    Some(*u as i64)
                } else {
                    None
                }
            },
            Json::Number(JsonNumber::NegInt(i)) => Some(*i),
            _ => None,
        }
    }

    /// Whether this value is an object with at least one member.
    pub fn is_object_with_members(&self) -> (r: bool)
        ensures
            r == (self@ matches JsonV::Object(m) && m.len() > 0),
    {
        match self {
            Json::Object(members) => {
                proof {
                    lemma_object_view(*members);
                }
                members.len() > 0
            },
            _ => false,
        }
    }

    /// Whether this value is an object with no members.
    pub fn is_empty_object(&self) -> (r: bool)
        ensures
            r == is_empty_object(self@),
    {
        match self {
            Json::Object(members) => {
                proof {
                    lemma_object_view(*members);
                }
                members.len() == 0
            },
            _ => false,
        }
    }
}

/// A JSON string holding `s`.
pub fn jstr(s: &str) -> (r: Json)
    ensures
        r@ == JsonV::Str(s@),
{
    Json::String(owned(s))
}

/// A JSON number holding the non-negative integer `n`.
pub fn jnat(n: u64) -> (r: Json)
    ensures
        r@ == JsonV::Number(NumberV::PosInt(n)),
{
    Json::Number(JsonNumber::PosInt(n))
}

/// A JSON array of the strings in `list`.
pub fn jstr_array(list: &Vec<String>) -> (r: Json)
    ensures
        r@ == JsonV::Array(views(list@).map_values(|s: Seq<char>| JsonV::Str(s))),
{
    let mut items: Vec<Json> = Vec::new();
    let mut i: usize = 0;
    while i < list.len()
        invariant
            i <= list.len(),
            items@.len() == i,
            forall|k: int| 0 <= k < i ==> json_view(#[trigger] items@[k]) == JsonV::Str(list@[k]@),
        decreases list.len() - i,
    {
        items.push(jstr(list[i].as_str()));
        i = i + 1;
    }
    proof {
        lemma_array_view(items);
        assert(items_view(items@) =~= views(list@).map_values(|s: Seq<char>| JsonV::Str(s)));
    }
    Json::Array(items)
}

/// A JSON object with the single member `k1`.
pub fn obj1(k1: &str, v1: Json) -> (r: Json)
    ensures
        r@ == JsonV::Object(seq![(k1@, v1@)]),
{
    let ghost g1 = v1@;
    let mut m: Vec<(String, Json)> = Vec::new();
    m.push((owned(k1), v1));
    proof {
        lemma_object_view(m);
        assert(members_view(m@) =~= seq![(k1@, g1)]);
    }
    Json::Object(m)
}

/// A JSON object with the members `k1` and `k2`, in that order.
pub fn obj2(k1: &str, v1: Json, k2: &str, v2: Json) -> (r: Json)
    ensures
        r@ == JsonV::Object(seq![(k1@, v1@), (k2@, v2@)]),
{
    let ghost g1 = v1@;
    let ghost g2 = v2@;
    let mut m: Vec<(String, Json)> = Vec::new();
    m.push((owned(k1), v1));
    m.push((owned(k2), v2));
    proof {
        lemma_object_view(m);
        assert(members_view(m@) =~= seq![(k1@, g1), (k2@, g2)]);
    }
    Json::Object(m)
}

/// A JSON object with the members `k1`, `k2` and `k3`, in that order.
pub fn obj3(k1: &str, v1: Json, k2: &str, v2: Json, k3: &str, v3: Json) -> (r: Json)
    ensures
        r@ == JsonV::Object(seq![(k1@, v1@), (k2@, v2@), (k3@, v3@)]),
{
    let ghost g1 = v1@;
    let ghost g2 = v2@;
    let ghost g3 = v3@;
    let mut m: Vec<(String, Json)> = Vec::new();
    m.push((owned(k1), v1));
    m.push((owned(k2), v2));
    m.push((owned(k3), v3));
    proof {
        lemma_object_view(m);
        assert(members_view(m@) =~= seq![(k1@, g1), (k2@, g2), (k3@, g3)]);
    }
    Json::Object(m)
}

/// A JSON object with the members `k1` to `k4`, in that order.
pub fn obj4(k1: &str, v1: Json, k2: &str, v2: Json, k3: &str, v3: Json, k4: &str, v4: Json) -> (r:
    Json)
    ensures
        r@ == JsonV::Object(seq![(k1@, v1@), (k2@, v2@), (k3@, v3@), (k4@, v4@)]),
{
    let ghost g1 = v1@;
    let ghost g2 = v2@;
    let ghost g3 = v3@;
    let ghost g4 = v4@;
    let mut m: Vec<(String, Json)> = Vec::new();
    m.push((owned(k1), v1));
    m.push((owned(k2), v2));
    m.push((owned(k3), v3));
    m.push((owned(k4), v4));
    proof {
        lemma_object_view(m);
        assert(members_view(m@) =~= seq![(k1@, g1), (k2@, g2), (k3@, g3), (k4@, g4)]);
    }
    Json::Object(m)
}

/// A JSON array holding just `v`.
pub fn arr1(v: Json) -> (r: Json)
    ensures
        r@ == JsonV::Array(seq![v@]),
{
    let ghost g = v@;
    let mut items: Vec<Json> = Vec::new();
    items.push(v);
    proof {
        lemma_array_view(items);
        assert(items_view(items@) =~= seq![g]);
    }
    Json::Array(items)
}

} // verus!
