use vstd::prelude::*;
use crate::text::same_text;

verus! {

/// A JSON number: its value when it is an integer that fits in `u64`, and
/// its text as the number was written out.
#[derive(Debug)]
pub struct JsonNumber {
    pub as_u64: Option<u64>,
    pub text: String,
}

/// One `"key": value` entry of a JSON object.
#[derive(Debug)]
pub struct JsonMember {
    pub key: String,
    pub value: Json,
}

/// A JSON value. Objects keep their members in order.
#[derive(Debug)]
pub enum Json {
    Null,
    Bool(bool),
    Number(JsonNumber),
    Str(String),
    Array(Vec<Json>),
    Object(Vec<JsonMember>),
}

/// `i` is the first member of `ms` whose key is `key`.
pub open spec fn is_first_key(ms: Seq<JsonMember>, key: Seq<char>, i: int) -> bool {
    &&& 0 <= i < ms.len()
    &&& ms[i].key@ == key
    &&& forall|j: int| 0 <= j < i ==> (#[trigger] ms[j]).key@ != key
}

/// The value under `key` in a member list: that of its first member with
/// that key.
pub open spec fn member_value(ms: Seq<JsonMember>, key: Seq<char>) -> Option<Json> {
    if exists|i: int| is_first_key(ms, key, i) {
        let i = choose|i: int| is_first_key(ms, key, i);
        Some(ms[i].value)
    } else {
        None
    }
}

/// The value under `key` when `v` is an object, as `Value::get` gives it.
pub open spec fn json_get(v: Json, key: Seq<char>) -> Option<Json> {
    match v {
        Json::Object(ms) => member_value(ms@, key),
        _ => None,
    }
}

/// `json_get` on an optional value.
pub open spec fn opt_get(p: Option<Json>, key: Seq<char>) -> Option<Json> {
    match p {
        Some(v) => json_get(v, key),
        None => None,
    }
}

/// The characters of a string field, or nothing when the field is missing
/// or not a string.
pub open spec fn field_str(p: Option<Json>, key: Seq<char>) -> Seq<char> {
    match opt_get(p, key) {
        Some(Json::Str(s)) => s@,
        _ => Seq::empty(),
    }
}

/// The value of an unsigned integer field, or 0 when the field is missing
/// or not an integer that fits in `u64`.
pub open spec fn field_u64(p: Option<Json>, key: Seq<char>) -> u64 {
    match opt_get(p, key) {
        Some(Json::Number(n)) => match n.as_u64 {
            Some(x) => x,
            None => 0,
        },
        _ => 0,
    }
}

/// The value of a boolean field, or `false` when the field is missing or not
/// a boolean.
pub open spec fn field_bool(p: Option<Json>, key: Seq<char>) -> bool {
    match opt_get(p, key) {
        Some(Json::Bool(b)) => b,
        _ => false,
    }
}

/// The number under a field, when the field holds a number.
pub open spec fn field_number(p: Option<Json>, key: Seq<char>) -> Option<JsonNumber> {
    match opt_get(p, key) {
        Some(Json::Number(n)) => Some(n),
        _ => None,
    }
}

/// The first index with the given key is unique.
pub proof fn lemma_first_key_unique(ms: Seq<JsonMember>, key: Seq<char>, i: int)
    requires
        is_first_key(ms, key, i),
    ensures
        (choose|k: int| is_first_key(ms, key, k)) == i,
{
    assert forall|k: int| is_first_key(ms, key, k) implies k == i by {
        if k < i {
            assert(ms[k].key@ != key);
        } else if k > i {
            assert(ms[i].key@ != key);
        }
    }
}

/// The position of the first member with the given key.
fn find_member(ms: &Vec<JsonMember>, key: &str) -> (r: Option<usize>)
    ensures
        match r {
            Some(i) => is_first_key(ms@, key@, i as int),
            None => !exists|i: int| is_first_key(ms@, key@, i),
        },
{
    let n = ms.len();
    for i in 0..n
        invariant
            n == ms@.len(),
            forall|j: int| 0 <= j < i ==> (#[trigger] ms@[j]).key@ != key@,
    {
        if same_text(ms[i].key.as_str(), key) {
            return Some(i);
        }
    }
    None
}

impl JsonNumber {
    /// A copy of the number.
    pub fn duplicate(&self) -> (r: JsonNumber)
        ensures
            r == *self,
    {
        JsonNumber { as_u64: self.as_u64, text: self.text.clone() }
    }
}

impl Json {
    /// The value under `key` when `self` is an object.
    pub fn get(&self, key: &str) -> (r: Option<&Json>)
        ensures
            match r {
                Some(v) => json_get(*self, key@) == Some(*v),
                None => json_get(*self, key@) is None,
            },
    {
        match self {
            Json::Object(ms) => match find_member(ms, key) {
                Some(i) => {
                    proof { lemma_first_key_unique(ms@, key@, i as int); }
                    Some(&ms[i].value)
                },
                None => None,
            },
            _ => None,
        }
    }

    /// Removes and returns the value under `key`, when `self` is an object
    /// that has one.
    pub fn take(self, key: &str) -> (r: Option<Json>)
        ensures
            r == json_get(self, key@),
    {
        match self {
            Json::Object(mut ms) => match find_member(&ms, key) {
                Some(i) => {
                    proof { lemma_first_key_unique(ms@, key@, i as int); }
                    let m = ms.remove(i);
                    Some(m.value)
                },
                None => None,
            },
            _ => None,
        }
    }
}

/// `Value::get` on an optional value.
pub fn get_opt<'a>(p: Option<&'a Json>, key: &str) -> (r: Option<&'a Json>)
    ensures
        match r {
            Some(v) => opt_get(opt_ref(p), key@) == Some(*v),
            None => opt_get(opt_ref(p), key@) is None,
        },
{
    match p {
        Some(v) => v.get(key),
        None => None,
    }
}

/// The value behind an optional reference.
pub open spec fn opt_ref(p: Option<&Json>) -> Option<Json> {
    match p {
        Some(v) => Some(*v),
        None => None,
    }
}

/// The string field `key` of `p`, or an empty string.
pub fn jstr(p: Option<&Json>, key: &str) -> (r: String)
    ensures
        r@ == field_str(opt_ref(p), key@),
{
    match get_opt(p, key) {
        Some(Json::Str(s)) => s.clone(),
        _ => String::new(),
    }
}

/// The unsigned integer field `key` of `p`, or 0.
pub fn ju64(p: Option<&Json>, key: &str) -> (r: u64)
    ensures
        r == field_u64(opt_ref(p), key@),
{
    match get_opt(p, key) {
        Some(Json::Number(n)) => match n.as_u64 {
            Some(x) => x,
            None => 0,
        },
        _ => 0,
    }
}

/// The boolean field `key` of `p`, or `false`.
pub fn jbool(p: Option<&Json>, key: &str) -> (r: bool)
    ensures
        r == field_bool(opt_ref(p), key@),
{
    match get_opt(p, key) {
        Some(Json::Bool(b)) => *b,
        _ => false,
    }
}

/// The number field `key` of `p`, when it holds a number.
pub fn jnumber(p: Option<&Json>, key: &str) -> (r: Option<JsonNumber>)
    ensures
        r == field_number(opt_ref(p), key@),
{
    match get_opt(p, key) {
        Some(Json::Number(n)) => Some(n.duplicate()),
        _ => None,
    }
}

} // verus!
