//! JSON documents as a value of this crate.
//!
//! [`Json`] holds a document as plain data; its view, [`JsonV`], is the
//! mathematical model the contracts speak of. Reading and changing a
//! document is verified here. Turning text into a document and a document
//! into text is `serde_json`'s work, reached through three wrappers whose
//! results are named [`json_parsed`], [`json_compact`] and [`json_pretty`].
use crate::text::last_index_of;
use crate::text::lemma_last_index_of;
use crate::text::str_eq;
use serde_json::Value;
use vstd::prelude::*;

verus! {

broadcast use vstd::std_specs::vec::group_vec_axioms;

/// A JSON document. An object is a list of key and value pairs; of two pairs
/// with one key the later counts, as in a JSON text.
#[derive(Debug)]
pub enum Json {
    Null,
    Bool(bool),
    /// A non-negative integer.
    PosInt(u64),
    /// A negative integer.
    NegInt(i64),
    /// Any other number, in its decimal notation.
    Float(String),
    Str(String),
    Array(Vec<Json>),
    Object(Vec<(String, Json)>),
}

/// The model of a [`Json`] document.
#[verifier::ext_equal]
pub enum JsonV {
    Null,
    Bool(bool),
    PosInt(u64),
    NegInt(i64),
    Float(Seq<char>),
    Str(Seq<char>),
    Array(Seq<JsonV>),
    Object(Seq<(Seq<char>, JsonV)>),
}

/// The document that a text denotes, or `None` where the text is not JSON.
pub uninterp spec fn json_parsed(text: Seq<char>) -> Option<JsonV>;

/// The one-line notation of a document.
pub uninterp spec fn json_compact(doc: JsonV) -> Seq<char>;

/// The indented notation of a document.
pub uninterp spec fn json_pretty(doc: JsonV) -> Seq<char>;

/// The models of a list of documents.
pub open spec fn items_view(v: Seq<Json>) -> Seq<JsonV> {
    Seq::new(v.len(), |i: int| v[i]@)
}

/// The models of the pairs of an object.
pub open spec fn pairs_view(v: Seq<(String, Json)>) -> Seq<(Seq<char>, JsonV)> {
    Seq::new(v.len(), |i: int| (v[i].0@, v[i].1@))
}

/// The keys of the pairs of an object, in order.
pub open spec fn keys_of(pairs: Seq<(Seq<char>, JsonV)>) -> Seq<Seq<char>> {
    Seq::new(pairs.len(), |i: int| pairs[i].0)
}

/// The value of the last pair with the given key.
pub open spec fn lookup(pairs: Seq<(Seq<char>, JsonV)>, key: Seq<char>) -> Option<JsonV> {
    match last_index_of(keys_of(pairs), key) {
        Some(i) => Some(pairs[i].1),
        None => None,
    }
}

/// The pairs with `key` bound to `val`: in place of the last pair with that
/// key, or as a new last pair.
pub open spec fn bind(pairs: Seq<(Seq<char>, JsonV)>, key: Seq<char>, val: JsonV) -> Seq<
    (Seq<char>, JsonV),
> {
    match last_index_of(keys_of(pairs), key) {
        Some(i) => pairs.update(i, (key, val)),
        None => pairs.push((key, val)),
    }
}

impl JsonV {
    /// The member of an object under `key`.
    pub open spec fn get(self, key: Seq<char>) -> Option<JsonV> {
        match self {
            JsonV::Object(pairs) => lookup(pairs, key),
            _ => None,
        }
    }

    /// The text of a string value.
    pub open spec fn as_str(self) -> Option<Seq<char>> {
        match self {
            JsonV::Str(s) => Some(s),
            _ => None,
        }
    }

    /// The value of a boolean.
    pub open spec fn as_bool(self) -> Option<bool> {
        match self {
            JsonV::Bool(b) => Some(b),
            _ => None,
        }
    }

    /// The value of a non-negative integer.
    pub open spec fn as_u64(self) -> Option<u64> {
        match self {
            JsonV::PosInt(n) => Some(n),
            _ => None,
        }
    }

    /// The elements of an array.
    pub open spec fn as_array(self) -> Option<Seq<JsonV>> {
        match self {
            JsonV::Array(items) => Some(items),
            _ => None,
        }
    }

    /// The text of the string member under `key`.
    pub open spec fn str_at(self, key: Seq<char>) -> Option<Seq<char>> {
        match self.get(key) {
            Some(v) => v.as_str(),
            None => None,
        }
    }

    /// The value of the boolean member under `key`.
    pub open spec fn bool_at(self, key: Seq<char>) -> Option<bool> {
        match self.get(key) {
            Some(v) => v.as_bool(),
            None => None,
        }
    }

    /// The elements of the array member under `key`.
    pub open spec fn array_at(self, key: Seq<char>) -> Option<Seq<JsonV>> {
        match self.get(key) {
            Some(v) => v.as_array(),
            None => None,
        }
    }

    /// An object with `key` bound to `val`; any other document unchanged.
    pub open spec fn with(self, key: Seq<char>, val: JsonV) -> JsonV {
        match self {
            JsonV::Object(pairs) => JsonV::Object(bind(pairs, key, val)),
            _ => self,
        }
    }

    /// How a value shows in a text field: a string as it is, anything else in
    /// its one-line notation.
    pub open spec fn display_text(self) -> Seq<char> {
        match self {
            JsonV::Str(s) => s,
            _ => json_compact(self),
        }
    }

    /// The document for an integer.
    pub open spec fn of_int(n: i64) -> JsonV {
        if n >= 0 {
            JsonV::PosInt(n as u64)
        } else {
            JsonV::NegInt(n)
        }
    }
}

impl Json {
    /// The model of the document.
    pub open spec fn model(self) -> JsonV
        decreases self,
    {
        match self {
            Json::Null => JsonV::Null,
            Json::Bool(b) => JsonV::Bool(b),
            Json::PosInt(n) => JsonV::PosInt(n),
            Json::NegInt(n) => JsonV::NegInt(n),
            Json::Float(s) => JsonV::Float(s@),
            Json::Str(s) => JsonV::Str(s@),
            Json::Array(v) => JsonV::Array(
                Seq::new(
                    v@.len(),
                    |i: int|
                        if 0 <= i < v@.len() {
                            v@[i].model()
                        } else {
                            JsonV::Null
                        },
                ),
            ),
            Json::Object(v) => JsonV::Object(
                Seq::new(
                    v@.len(),
                    |i: int|
                        if 0 <= i < v@.len() {
                            (v@[i].0@, v@[i].1.model())
                        } else {
                            (Seq::empty(), JsonV::Null)
                        },
                ),
            ),
        }
    }
}

impl View for Json {
    type V = JsonV;

    open spec fn view(&self) -> JsonV {
        self.model()
    }
}

impl Clone for Json {
    fn clone(&self) -> (r: Json)
        ensures
            r@ == self@,
    {
        self.duplicate()
    }
}

/// The model of an array is the list of its elements' models.
pub proof fn lemma_array_view(v: Vec<Json>)
    ensures
        Json::Array(v)@ == JsonV::Array(items_view(v@)),
{
    let a = Json::Array(v).model();
    assert(a->Array_0.len() == v@.len());
    assert forall|k: int| 0 <= k < v@.len() implies a->Array_0[k] == items_view(v@)[k] by {
        assert(a->Array_0[k] == v@[k].model());
    }
    assert(a->Array_0 =~= items_view(v@));
}

/// The model of an object is the list of its pairs' models.
pub proof fn lemma_object_view(v: Vec<(String, Json)>)
    ensures
        Json::Object(v)@ == JsonV::Object(pairs_view(v@)),
{
    let a = Json::Object(v).model();
    assert(a->Object_0.len() == v@.len());
    assert forall|k: int| 0 <= k < v@.len() implies a->Object_0[k] == pairs_view(v@)[k] by {
        assert(a->Object_0[k] == (v@[k].0@, v@[k].1.model()));
    }
    assert(a->Object_0 =~= pairs_view(v@));
}

/// Reading a key after binding it gives the bound value; reading any other
/// key gives what it gave before.
pub proof fn lemma_bind_lookup(
    pairs: Seq<(Seq<char>, JsonV)>,
    key: Seq<char>,
    val: JsonV,
    other: Seq<char>,
)
    ensures
        lookup(bind(pairs, key, val), key) == Some(val),
        other != key ==> lookup(bind(pairs, key, val), other) == lookup(pairs, other),
{
    let keys = keys_of(pairs);
    let bound = bind(pairs, key, val);
    lemma_last_index_of(keys, key);
    lemma_last_index_of(keys, other);
    match last_index_of(keys, key) {
        Some(i) => {
            assert(keys_of(bound) =~= keys);
        },
        None => {
            assert(keys_of(bound) =~= keys.push(key));
            assert(keys.push(key).drop_last() =~= keys);
        },
    }
}

/// Binding a key to the value it already has changes nothing.
pub proof fn lemma_bind_same(pairs: Seq<(Seq<char>, JsonV)>, key: Seq<char>, val: JsonV)
    requires
        lookup(pairs, key) == Some(val),
    ensures
        bind(pairs, key, val) == pairs,
{
    lemma_last_index_of(keys_of(pairs), key);
    let i = last_index_of(keys_of(pairs), key)->0;
    assert(keys_of(pairs)[i] == key);
    assert(pairs.update(i, (key, val)) =~= pairs);
}

/// Reading a member of an object after setting it gives the value set;
/// reading any other member of any document gives what it gave before.
pub proof fn lemma_with_get(doc: JsonV, key: Seq<char>, val: JsonV, other: Seq<char>)
    ensures
        doc is Object ==> doc.with(key, val).get(key) == Some(val),
        other != key ==> doc.with(key, val).get(other) == doc.get(other),
{
    match doc {
        JsonV::Object(pairs) => {
            lemma_bind_lookup(pairs, key, val, other);
        },
        _ => {},
    }
}

/// Setting a member to the value it already has changes nothing.
pub proof fn lemma_with_same(doc: JsonV, key: Seq<char>, val: JsonV)
    requires
        doc.get(key) == Some(val),
    ensures
        doc.with(key, val) == doc,
{
    match doc {
        JsonV::Object(pairs) => {
            lemma_bind_same(pairs, key, val);
        },
        _ => {},
    }
}

/// `serde_json::Value`: a document as the crate holds it, opaque here.
#[verifier::external_type_specification]
#[verifier::external_body]
pub struct ExValue(serde_json::Value);

/// `serde_json::Error`: why a text could not be read, opaque here.
#[verifier::external_type_specification]
#[verifier::external_body]
pub struct ExJsonError(serde_json::Error);

/// Copies a `serde_json::Value` into a [`Json`], variant by variant. A
/// number that `as_u64` gives becomes `PosInt`, another that `as_i64` gives
/// becomes `NegInt`, any other becomes `Float` with its notation. The members
/// of an object come in the order the map walks them.
#[verifier::external_body]
fn from_value(v: &Value) -> Json {
    match v {
        Value::Null => Json::Null,
        Value::Bool(b) => Json::Bool(*b),
        Value::Number(n) => match (n.as_u64(), n.as_i64()) {
            (Some(u), _) => Json::PosInt(u),
            (_, Some(i)) => Json::NegInt(i),
            _ => Json::Float(n.to_string()),
        },
        Value::String(s) => Json::Str(s.clone()),
        Value::Array(a) => Json::Array(a.iter().map(from_value).collect()),
        Value::Object(m) => Json::Object(m.iter().map(|(k, x)| (k.clone(), from_value(x))).collect()),
    }
}

/// Copies a [`Json`] into a `serde_json::Value`, variant by variant. The
/// text of a `Float` is read back by `serde_json::from_str` as a number, and
/// gives null where it is none. The members of an object are collected into the
/// map in order, so that of two with one key the later stays.
#[verifier::external_body]
fn to_value(j: &Json) -> Value {
    match j {
        Json::Null => Value::Null,
        Json::Bool(b) => Value::Bool(*b),
        Json::PosInt(n) => Value::Number((*n).into()),
        Json::NegInt(n) => Value::Number((*n).into()),
        Json::Float(s) => serde_json::from_str(s).map(Value::Number).unwrap_or(Value::Null),
        Json::Str(s) => Value::String(s.clone()),
        Json::Array(a) => Value::Array(a.iter().map(to_value).collect()),
        Json::Object(m) => Value::Object(m.iter().map(|(k, x)| (k.clone(), to_value(x))).collect()),
    }
}

/// `serde_json::from_str` into a `Value`: on success the document read,
/// named [`json_parsed`]; an error exactly when the text is not JSON.
#[verifier::external_body]
fn parse_value(text: &str) -> (r: Result<Json, serde_json::Error>)
    ensures
        r matches Ok(j) ==> json_parsed(text@) == Some(j@),
        r is Err ==> json_parsed(text@) is None,
{
    match serde_json::from_str::<Value>(text) {
        Ok(v) => Ok(from_value(&v)),
        Err(e) => Err(e),
    }
}

/// The message of a `serde_json::Error`, by its `Display`.
#[verifier::external_body]
fn error_text(e: &serde_json::Error) -> String {
    e.to_string()
}

/// `Value`'s `Display`: the document on one line, named [`json_compact`].
#[verifier::external_body]
fn compact_text(j: &Json) -> (r: String)
    ensures
        r@ == json_compact(j@),
{
    to_value(j).to_string()
}

/// `serde_json::to_string_pretty` on a `Value`: it succeeds, and gives the
/// indented document, named [`json_pretty`]. Writing a `Value` into memory
/// cannot fail: its keys are strings, its numbers are written by the
/// serializer itself, and the writer is a byte vector.
#[verifier::external_body]
fn pretty_text(j: &Json) -> (r: Option<String>)
    ensures
        r is Some,
        r matches Some(s) ==> s@ == json_pretty(j@),
{
    serde_json::to_string_pretty(&to_value(j)).ok()
}

/// Why a text could not be read as JSON.
#[derive(Debug)]
pub struct ParseFailure {
    pub message: String,
}

impl Json {
    /// Reads a text as a JSON document.
    pub fn parse(text: &str) -> (r: Result<Json, ParseFailure>)
        ensures
            r matches Ok(j) ==> json_parsed(text@) == Some(j@),
            r is Err <==> json_parsed(text@) is None,
    {
        match parse_value(text) {
            Ok(j) => Ok(j),
            Err(e) => Err(ParseFailure { message: error_text(&e) }),
        }
    }

    /// The document on one line.
    pub fn to_compact(&self) -> (r: String)
        ensures
            r@ == json_compact(self@),
    {
        compact_text(self)
    }

    /// The document over several indented lines.
    pub fn to_pretty(&self) -> (r: String)
        ensures
            r@ == json_pretty(self@),
    {
        match pretty_text(self) {
            Some(s) => s,
            None => {
                // never reached: the call always gives a text
                assert(false);
                String::new()
            },
        }
    }

    /// An object without members.
    pub fn empty_object() -> (r: Json)
        ensures
            r@ == JsonV::Object(Seq::empty()),
    {
        let pairs: Vec<(String, Json)> = Vec::new();
        proof {
            lemma_object_view(pairs);
            assert(pairs_view(pairs@) =~= Seq::empty());
        }
        Json::Object(pairs)
    }

    /// The document for an integer.
    pub fn from_i64(n: i64) -> (r: Json)
        ensures
            r@ == JsonV::of_int(n),
    {
        if n >= 0 {
            Json::PosInt(n as u64)
        } else {
            Json::NegInt(n)
        }
    }

    /// Whether the document is an object.
    pub fn is_object(&self) -> (r: bool)
        ensures
            r == (self@ is Object),
    {
        match self {
            Json::Object(_) => true,
            _ => false,
        }
    }

    /// The member of an object under `key`.
    pub fn get(&self, key: &str) -> (r: Option<&Json>)
        ensures
            match r {
                Some(j) => self@.get(key@) == Some(j@),
                None => self@.get(key@) is None,
            },
    {
        match self {
            Json::Object(pairs) => {
                proof {
                    lemma_object_view(*pairs);
                }
                match find_key(pairs, key) {
                    Some(i) => Some(&pairs[i].1),
                    None => None,
                }
            },
            _ => None,
        }
    }

    /// The text of a string value.
    pub fn as_str(&self) -> (r: Option<&str>)
        ensures
            match r {
                Some(s) => self@.as_str() == Some(s@),
                None => self@.as_str() is None,
            },
    {
        match self {
            Json::Str(s) => Some(s.as_str()),
            _ => None,
        }
    }

    /// The value of a boolean.
    pub fn as_bool(&self) -> (r: Option<bool>)
        ensures
            r == self@.as_bool(),
    {
        match self {
            Json::Bool(b) => Some(*b),
            _ => None,
        }
    }

    /// The value of a non-negative integer.
    pub fn as_u64(&self) -> (r: Option<u64>)
        ensures
            r == self@.as_u64(),
    {
        match self {
            Json::PosInt(n) => Some(*n),
            _ => None,
        }
    }

    /// The elements of an array.
    pub fn as_array(&self) -> (r: Option<&Vec<Json>>)
        ensures
            match r {
                Some(v) => self@.as_array() == Some(items_view(v@)),
                None => self@.as_array() is None,
            },
    {
        match self {
            Json::Array(v) => {
                proof {
                    lemma_array_view(*v);
                }
                Some(v)
            },
            _ => None,
        }
    }

    /// The members of an object.
    pub fn as_object(&self) -> (r: Option<&Vec<(String, Json)>>)
        ensures
            match r {
                Some(v) => self@ == JsonV::Object(pairs_view(v@)),
                None => !(self@ is Object),
            },
    {
        match self {
            Json::Object(v) => {
                proof {
                    lemma_object_view(*v);
                }
                Some(v)
            },
            _ => None,
        }
    }

    /// The text of the string member under `key`.
    pub fn str_at(&self, key: &str) -> (r: Option<&str>)
        ensures
            match r {
                Some(s) => self@.str_at(key@) == Some(s@),
                None => self@.str_at(key@) is None,
            },
    {
        match self.get(key) {
            Some(v) => v.as_str(),
            None => None,
        }
    }

    /// The value of the boolean member under `key`.
    pub fn bool_at(&self, key: &str) -> (r: Option<bool>)
        ensures
            r == self@.bool_at(key@),
    {
        match self.get(key) {
            Some(v) => v.as_bool(),
            None => None,
        }
    }

    /// The elements of the array member under `key`.
    pub fn array_at(&self, key: &str) -> (r: Option<&Vec<Json>>)
        ensures
            match r {
                Some(v) => self@.array_at(key@) == Some(items_view(v@)),
                None => self@.array_at(key@) is None,
            },
    {
        match self.get(key) {
            Some(v) => v.as_array(),
            None => None,
        }
    }

    /// How the value shows in a text field.
    pub fn display_text(&self) -> (r: String)
        ensures
            r@ == self@.display_text(),
    {
        match self {
            Json::Str(s) => s.clone(),
            _ => self.to_compact(),
        }
    }

    /// A copy of the document.
    pub fn duplicate(&self) -> (r: Json)
        ensures
            r@ == self@,
        decreases self,
    {
        match self {
            Json::Null => Json::Null,
            Json::Bool(b) => Json::Bool(*b),
            Json::PosInt(n) => Json::PosInt(*n),
            Json::NegInt(n) => Json::NegInt(*n),
            Json::Float(s) => Json::Float(s.clone()),
            Json::Str(s) => Json::Str(s.clone()),
            Json::Array(v) => {
                let mut out: Vec<Json> = Vec::new();
                let mut i: usize = 0;
                assert(decreases_to!(*self => *v));
                while i < v.len()
                    invariant
                        i <= v.len(),
                        out.len() == i,
                        forall|k: int| 0 <= k < i ==> out@[k]@ == v@[k]@,
                        decreases_to!(*self => *v),
                    decreases v.len() - i,
                {
                    proof {
                        assert(decreases_to!(*v => v[i as int]));
                    }
                    let c = v[i].duplicate();
                    out.push(c);
                    i += 1;
                }
                proof {
                    lemma_array_view(out);
                    lemma_array_view(*v);
                    assert(items_view(out@) =~= items_view(v@));
                }
                Json::Array(out)
            },
            Json::Object(v) => {
                let mut out: Vec<(String, Json)> = Vec::new();
                let mut i: usize = 0;
                assert(decreases_to!(*self => *v));
                while i < v.len()
                    invariant
                        i <= v.len(),
                        out.len() == i,
                        forall|k: int|
                            0 <= k < i ==> out@[k].0@ == v@[k].0@ && out@[k].1@ == v@[k].1@,
                        decreases_to!(*self => *v),
                    decreases v.len() - i,
                {
                    proof {
                        assert(decreases_to!(*v => v[i as int]));
                    }
                    let c = v[i].1.duplicate();
                    out.push((v[i].0.clone(), c));
                    i += 1;
                }
                proof {
                    lemma_object_view(out);
                    lemma_object_view(*v);
                    assert(pairs_view(out@) =~= pairs_view(v@));
                }
                Json::Object(out)
            },
        }
    }

    /// Binds `key` to `val` in an object: in place of the last member with
    /// that key, or as a new last member. Any other document stays as it is.
    pub fn set(&mut self, key: String, val: Json)
        ensures
            final(self)@ == old(self)@.with(key@, val@),
    {
        match self {
            Json::Object(pairs) => {
                proof {
                    lemma_object_view(*pairs);
                }
                let ghost before = pairs_view(pairs@);
                match find_key(pairs, key.as_str()) {
                    Some(k) => {
                        pairs[k] = (key, val);
                        proof {
                            assert(pairs_view(pairs@) =~= before.update(k as int, (key@, val@)));
                        }
                    },
                    None => {
                        pairs.push((key, val));
                        proof {
                            assert(pairs_view(pairs@) =~= before.push((key@, val@)));
                        }
                    },
                }
                proof {
                    lemma_object_view(*pairs);
                }
            },
            _ => {},
        }
    }
}

/// Position of the last pair with the given key.
fn find_key(pairs: &Vec<(String, Json)>, key: &str) -> (r: Option<usize>)
    ensures
        match r {
            Some(i) => i < pairs.len() && last_index_of(keys_of(pairs_view(pairs@)), key@) == Some(
                i as int,
            ),
            None => last_index_of(keys_of(pairs_view(pairs@)), key@) is None,
        },
{
    let ghost keys = keys_of(pairs_view(pairs@));
    let mut j: usize = pairs.len();
    proof {
        assert(keys.take(j as int) =~= keys);
    }
    while j > 0
        invariant
            j <= pairs.len(),
            keys == keys_of(pairs_view(pairs@)),
            last_index_of(keys, key@) == last_index_of(keys.take(j as int), key@),
        decreases j,
    {
        proof {
            let cur = keys.take(j as int);
            assert(cur.drop_last() =~= keys.take(j - 1));
            assert(cur.last() == pairs@[j - 1].0@);
        }
        if str_eq(pairs[j - 1].0.as_str(), key) {
            return Some(j - 1);
        }
        j -= 1;
    }
    None
}

} // verus!
