//! JSON documents as plain data.
//!
//! [`Json`] is the tree the library computes on. Its view, [`JsonValue`], is
//! the mathematical document: an object is a finite map from keys to values,
//! so the order in which members were written is not part of it, and of two
//! members with one key the later one counts.
//!
//! Rendering a document as text is left to `serde_json`. The items that reach
//! into it are gathered at the end of this file; what they claim is believed,
//! not proved.

use crate::text::str_eq;
use crate::views::{optional_view, views};
use vstd::prelude::*;

verus! {

/// What a JSON number holds.
pub enum NumberValue {
    /// A non-negative integer.
    PosInt(u64),
    /// A negative integer.
    NegInt(i64),
    /// A finite binary64 number, by the 64 bits that encode it.
    Float(u64),
}

/// A JSON document, as a mathematical value.
pub enum JsonValue {
    Null,
    Bool(bool),
    Number(NumberValue),
    String(Seq<char>),
    Array(Seq<JsonValue>),
    Object(Map<Seq<char>, JsonValue>),
}

impl JsonValue {
    /// The member under `key`, where this is an object that has one.
    pub open spec fn field(self, key: Seq<char>) -> Option<JsonValue> {
        match self {
            JsonValue::Object(members) => if members.contains_key(key) {
                Some(members[key])
            } else {
                None
            },
            _ => None,
        }
    }

    /// The text, where this is a string.
    pub open spec fn text(self) -> Option<Seq<char>> {
        match self {
            JsonValue::String(s) => Some(s),
            _ => None,
        }
    }

    /// The number, where this is a non-negative integer.
    pub open spec fn unsigned(self) -> Option<u64> {
        match self {
            JsonValue::Number(NumberValue::PosInt(u)) => Some(u),
            _ => None,
        }
    }

    /// The text under `key`, where this is an object whose member under
    /// `key` is a string.
    pub open spec fn text_field(self, key: Seq<char>) -> Option<Seq<char>> {
        match self.field(key) {
            Some(v) => v.text(),
            None => None,
        }
    }
}

/// The members of the empty object.
pub open spec fn no_members() -> Map<Seq<char>, JsonValue> {
    Map::empty()
}

/// The object that holds one member: `value` under `key`.
pub open spec fn object1(key: Seq<char>, value: JsonValue) -> JsonValue {
    JsonValue::Object(no_members().insert(key, value))
}

/// The map that results from writing `members` one after the other into an
/// empty object.
pub open spec fn object_of(members: Seq<(Seq<char>, JsonValue)>) -> Map<Seq<char>, JsonValue>
    decreases members.len(),
{
    if members.len() == 0 {
        Map::empty()
    } else {
        object_of(members.drop_last()).insert(members.last().0, members.last().1)
    }
}

/// A JSON document, as a tree.
///
/// `==` compares trees, not documents: two objects with the same members in
/// another order are different trees for the same document.
#[derive(Debug, PartialEq)]
pub enum Json {
    Null,
    Bool(bool),
    Number(serde_json::Number),
    String(String),
    Array(Vec<Json>),
    /// The members in the order they were written. A key may occur twice;
    /// the later member then hides the earlier one.
    Object(Vec<(String, Json)>),
}

/// The document that a tree stands for.
pub open spec fn json_view(j: Json) -> JsonValue
    decreases j,
{
    match j {
        Json::Null => JsonValue::Null,
        Json::Bool(b) => JsonValue::Bool(b),
        Json::Number(n) => JsonValue::Number(number_model(n)),
        Json::String(s) => JsonValue::String(s@),
        Json::Array(items) => JsonValue::Array(
            Seq::new(
                items@.len(),
                |i: int|
                    if 0 <= i < items@.len() {
                        json_view(items@[i])
                    } else {
                        JsonValue::Null
                    },
            ),
        ),
        Json::Object(members) => JsonValue::Object(
            object_of(
                Seq::new(
                    members@.len(),
                    |i: int|
                        if 0 <= i < members@.len() {
                            (members@[i].0@, json_view(members@[i].1))
                        } else {
                            (Seq::empty(), JsonValue::Null)
                        },
                ),
            ),
        ),
    }
}

impl View for Json {
    type V = JsonValue;

    open spec fn view(&self) -> JsonValue {
        json_view(*self)
    }
}

/// The views of the members of an object, in the order written.
pub open spec fn pairs_of(members: Seq<(String, Json)>) -> Seq<(Seq<char>, JsonValue)> {
    Seq::new(members.len(), |i: int| (members[i].0@, members[i].1@))
}

/// The member under `key` in the object written as `members`.
pub open spec fn lookup(members: Seq<(Seq<char>, JsonValue)>, key: Seq<char>) -> Option<
    JsonValue,
> {
    JsonValue::Object(object_of(members)).field(key)
}

/// The view of an array is made of the views of its items.
pub proof fn lemma_array_view(items: Vec<Json>)
    ensures
        Json::Array(items)@ == JsonValue::Array(views(items@)),
{
    assert(Json::Array(items)@->Array_0 =~= views(items@));
}

/// The view of an object is what writing its members in order gives.
pub proof fn lemma_object_view(members: Vec<(String, Json)>)
    ensures
        Json::Object(members)@ == JsonValue::Object(object_of(pairs_of(members@))),
{
    let object = Json::Object(members)@->Object_0;
    assert(exists|written: Seq<(Seq<char>, JsonValue)>|
        {
            &&& #[trigger] object_of(written) == object
            &&& written.len() == members@.len()
            &&& forall|i: int|
                0 <= i < written.len() ==> written[i] == (members@[i].0@, members@[i].1@)
        });
    let written = choose|written: Seq<(Seq<char>, JsonValue)>|
        {
            &&& #[trigger] object_of(written) == object
            &&& written.len() == members@.len()
            &&& forall|i: int|
                0 <= i < written.len() ==> written[i] == (members@[i].0@, members@[i].1@)
        };
    assert(written =~= pairs_of(members@));
}

/// Writing one more member is an insertion into the object written so far.
pub proof fn lemma_object_of_push(
    members: Seq<(Seq<char>, JsonValue)>,
    key: Seq<char>,
    value: JsonValue,
)
    ensures
        object_of(members.push((key, value))) == object_of(members).insert(key, value),
{
    assert(members.push((key, value)).drop_last() =~= members);
}

/// The last member decides a lookup of its own key and leaves every other
/// lookup to the members before it.
pub proof fn lemma_lookup_last(members: Seq<(Seq<char>, JsonValue)>, key: Seq<char>)
    requires
        members.len() > 0,
    ensures
        lookup(members, key) == if members.last().0 == key {
            Some(members.last().1)
        } else {
            lookup(members.drop_last(), key)
        },
{
}

/// An item of an array is a smaller tree than the array.
pub proof fn lemma_element_is_smaller(j: &Json, i: int)
    requires
        j is Array,
        0 <= i < j->Array_0.len(),
    ensures
        decreases_to!(*j => j->Array_0[i]),
{
    vstd::std_specs::vec::axiom_vec_index_decreases(j->Array_0, i);
    assert(decreases_to!(*j => j->Array_0));
    assert(decreases_to!(j->Array_0 => j->Array_0[i]));
}

/// The value of a member of an object is a smaller tree than the object.
pub proof fn lemma_member_is_smaller(j: &Json, i: int)
    requires
        j is Object,
        0 <= i < j->Object_0.len(),
    ensures
        decreases_to!(*j => j->Object_0[i].1),
{
    vstd::std_specs::vec::axiom_vec_index_decreases(j->Object_0, i);
    assert(decreases_to!(*j => j->Object_0));
    assert(decreases_to!(j->Object_0 => j->Object_0[i]));
    assert(decreases_to!(j->Object_0[i] => j->Object_0[i].1));
}

impl Clone for Json {
    /// A second tree for the same document.
    fn clone(&self) -> (copy: Json)
        ensures
            copy@ == self@,
    {
        self.duplicate()
    }
}

impl Json {
    /// The string document that holds the text of `s`.
    pub fn string(s: &str) -> (j: Json)
        ensures
            j@ == JsonValue::String(s@),
    {
        Json::String(s.to_owned())
    }

    /// The number document that holds `n`.
    pub fn unsigned(n: u64) -> (j: Json)
        ensures
            j@ == JsonValue::Number(NumberValue::PosInt(n)),
    {
        Json::Number(number_from_u64(n))
    }

    /// The number document that holds `n`.
    pub fn signed(n: i64) -> (j: Json)
        ensures
            j@ == JsonValue::Number(
                if n < 0 {
                    NumberValue::NegInt(n)
                } else {
                    NumberValue::PosInt(n as u64)
                },
            ),
    {
        Json::Number(number_from_i64(n))
    }

    /// The array document that holds `items`.
    pub fn array(items: Vec<Json>) -> (j: Json)
        ensures
            j@ == JsonValue::Array(views(items@)),
    {
        proof {
            lemma_array_view(items);
        }
        Json::Array(items)
    }

    /// The object document with no member.
    pub fn empty_object() -> (j: Json)
        ensures
            j@ == JsonValue::Object(Map::empty()),
    {
        let members: Vec<(String, Json)> = Vec::new();
        proof {
            lemma_object_view(members);
            assert(pairs_of(members@) =~= Seq::empty());
        }
        Json::Object(members)
    }

    /// Whether this is the null document.
    pub fn is_null(&self) -> (r: bool)
        ensures
            r == (self@ == JsonValue::Null),
    {
        match self {
            Json::Null => true,
            _ => false,
        }
    }

    /// Whether this is an object document.
    pub fn is_object(&self) -> (r: bool)
        ensures
            r == (self@ is Object),
    {
        match self {
            Json::Object(_) => true,
            _ => false,
        }
    }

    /// The items of an array document.
    pub fn into_array(self) -> (r: Option<Vec<Json>>)
        ensures
            match r {
                Some(items) => self@ == JsonValue::Array(views(items@)),
                None => !(self@ is Array),
            },
    {
        match self {
            Json::Array(items) => {
                proof {
                    lemma_array_view(items);
                }
                Some(items)
            },
            _ => None,
        }
    }

    /// The text of a string document.
    pub fn as_str(&self) -> (r: Option<&str>)
        ensures
            match r {
                Some(s) => self@.text() == Some(s@),
                None => self@.text() is None,
            },
    {
        match self {
            Json::String(s) => Some(s.as_str()),
            _ => None,
        }
    }

    /// The value of a number document that is a non-negative integer.
    pub fn as_u64(&self) -> (r: Option<u64>)
        ensures
            r == self@.unsigned(),
    {
        match self {
            Json::Number(n) => number_as_u64(n),
            _ => None,
        }
    }

    /// The member under `key` of an object document.
    pub fn get(&self, key: &str) -> (r: Option<&Json>)
        ensures
            match r {
                Some(v) => self@.field(key@) == Some(v@),
                None => self@.field(key@) is None,
            },
    {
        match self {
            Json::Object(members) => {
                let ghost written = pairs_of(members@);
                proof {
                    lemma_object_view(*members);
                    assert(written.take(written.len() as int) =~= written);
                }
                let mut i: usize = members.len();
                while i > 0
                    invariant
                        i <= members.len(),
                        written == pairs_of(members@),
                        self@.field(key@) == lookup(written, key@),
                        lookup(written, key@) == lookup(written.take(i as int), key@),
                    decreases i,
                {
                    let member = &members[i - 1];
                    proof {
                        lemma_lookup_last(written.take(i as int), key@);
                        assert(written.take(i as int).drop_last() =~= written.take(i - 1));
                        assert(written.take(i as int).last() == (member.0@, member.1@));
                    }
                    if str_eq(member.0.as_str(), key) {
                        return Some(&member.1);
                    }
                    i -= 1;
                }
                proof {
                    assert(written.take(0) =~= Seq::empty());
                }
                None
            },
            _ => None,
        }
    }

    /// Takes the member under `key` out of an object document.
    pub fn into_field(self, key: &str) -> (r: Option<Json>)
        ensures
            optional_view(r) == self@.field(key@),
    {
        let ghost whole = self@;
        match self {
            Json::Object(members) => {
                let ghost written = pairs_of(members@);
                proof {
                    lemma_object_view(members);
                }
                let mut members = members;
                while members.len() > 0
                    invariant
                        whole == self@,
                        whole.field(key@) == lookup(written, key@),
                        lookup(written, key@) == lookup(pairs_of(members@), key@),
                    decreases members.len(),
                {
                    let ghost before = pairs_of(members@);
                    let member = members.pop().unwrap();
                    proof {
                        lemma_lookup_last(before, key@);
                        assert(before.drop_last() =~= pairs_of(members@));
                        assert(before.last() == (member.0@, member.1@));
                    }
                    if str_eq(member.0.as_str(), key) {
                        return Some(member.1);
                    }
                }
                proof {
                    assert(pairs_of(members@) =~= Seq::empty());
                }
                None
            },
            _ => None,
        }
    }

    /// A second tree for the same document.
    pub fn duplicate(&self) -> (copy: Json)
        ensures
            copy@ == self@,
        decreases self,
    {
        match self {
            Json::Null => Json::Null,
            Json::Bool(b) => Json::Bool(*b),
            Json::Number(n) => Json::Number(n.clone()),
            Json::String(s) => Json::String(s.clone()),
            Json::Array(items) => {
                let mut copies: Vec<Json> = Vec::new();
                let mut i: usize = 0;
                while i < items.len()
                    invariant
                        i <= items.len(),
                        *self == Json::Array(*items),
                        views(copies@) == views(items@).take(i as int),
                    decreases items.len() - i,
                {
                    let ghost before = views(copies@);
                    proof {
                        lemma_element_is_smaller(self, i as int);
                    }
                    copies.push(items[i].duplicate());
                    assert(views(copies@) =~= before.push(items@[i as int]@));
                    assert(views(copies@) =~= views(items@).take(i + 1));
                    i += 1;
                }
                proof {
                    assert(views(items@).take(items.len() as int) =~= views(items@));
                    lemma_array_view(*items);
                    lemma_array_view(copies);
                }
                Json::Array(copies)
            },
            Json::Object(members) => {
                let mut copies: Vec<(String, Json)> = Vec::new();
                let mut i: usize = 0;
                while i < members.len()
                    invariant
                        i <= members.len(),
                        *self == Json::Object(*members),
                        pairs_of(copies@) == pairs_of(members@).take(i as int),
                    decreases members.len() - i,
                {
                    let ghost before = pairs_of(copies@);
                    let member = &members[i];
                    proof {
                        lemma_member_is_smaller(self, i as int);
                    }
                    copies.push((member.0.clone(), member.1.duplicate()));
                    assert(pairs_of(copies@) =~= before.push((member.0@, member.1@)));
                    assert(pairs_of(copies@) =~= pairs_of(members@).take(i + 1));
                    i += 1;
                }
                proof {
                    assert(pairs_of(members@).take(members.len() as int) =~= pairs_of(members@));
                    lemma_object_view(*members);
                    lemma_object_view(copies);
                }
                Json::Object(copies)
            },
        }
    }

    /// The document as text on one line.
    pub fn to_compact_string(&self) -> (s: String)
        ensures
            s@ == compact_json(self@),
    {
        render_compact(&to_outside(self))
    }

    /// The document as indented text; as text on one line where it cannot
    /// be written indented.
    pub fn to_pretty_string(&self) -> (s: String)
        ensures
            s@ == rendered(self@),
    {
        let outside = to_outside(self);
        match render_pretty(&outside) {
            Ok(s) => s,
            Err(_) => render_compact(&outside),
        }
    }
}

/// The text of a document: indented where `serde_json` can write it so, on
/// one line otherwise.
pub open spec fn rendered(v: JsonValue) -> Seq<char> {
    match pretty_json(v) {
        Some(s) => s,
        None => compact_json(v),
    }
}

/// Builds an object document member by member.
pub struct ObjectBuilder {
    members: Vec<(String, Json)>,
}

impl ObjectBuilder {
    /// What has been written so far.
    pub closed spec fn written(&self) -> Map<Seq<char>, JsonValue> {
        object_of(pairs_of(self.members@))
    }

    /// A builder with nothing written.
    pub fn new() -> (b: ObjectBuilder)
        ensures
            b.written() == no_members(),
    {
        let members: Vec<(String, Json)> = Vec::new();
        proof {
            assert(pairs_of(members@) =~= Seq::empty());
        }
        ObjectBuilder { members }
    }

    /// Writes `value` under `key`.
    pub fn put(&mut self, key: &str, value: Json)
        ensures
            final(self).written() == old(self).written().insert(key@, value@),
    {
        let ghost before = pairs_of(self.members@);
        self.members.push((key.to_owned(), value));
        proof {
            assert(pairs_of(self.members@) =~= before.push((key@, value@)));
            lemma_object_of_push(before, key@, value@);
        }
    }

    /// Writes the text `value` under `key`.
    pub fn put_str(&mut self, key: &str, value: &str)
        ensures
            final(self).written() == old(self).written().insert(key@, JsonValue::String(value@)),
    {
        self.put(key, Json::string(value));
    }

    /// The object document that holds what was written.
    pub fn finish(self) -> (j: Json)
        ensures
            j@ == JsonValue::Object(self.written()),
    {
        proof {
            lemma_object_view(self.members);
        }
        Json::Object(self.members)
    }
}

/// The documents that a run of `serde_json` values holds.
pub open spec fn outside_elements(items: Seq<serde_json::Value>) -> Seq<JsonValue> {
    Seq::new(items.len(), |i: int| outside_json(items[i]))
}

/// Builds the `serde_json` value that holds the document of `j`.
fn to_outside(j: &Json) -> (v: serde_json::Value)
    ensures
        outside_json(v) == j@,
    decreases j,
{
    match j {
        Json::Null => value_null(),
        Json::Bool(b) => value_bool(*b),
        Json::Number(n) => value_number(n.clone()),
        Json::String(s) => value_string(s.clone()),
        Json::Array(items) => {
            proof {
                lemma_array_view(*items);
            }
            let mut built: Vec<serde_json::Value> = Vec::new();
            let mut i: usize = 0;
            while i < items.len()
                invariant
                    i <= items.len(),
                    *j == Json::Array(*items),
                    outside_elements(built@) == views(items@).take(i as int),
                decreases items.len() - i,
            {
                let ghost before = outside_elements(built@);
                proof {
                    lemma_element_is_smaller(j, i as int);
                }
                let item = to_outside(&items[i]);
                built.push(item);
                assert(outside_elements(built@) =~= before.push(items@[i as int]@));
                assert(outside_elements(built@) =~= views(items@).take(i + 1));
                i += 1;
            }
            assert(views(items@).take(items.len() as int) =~= views(items@));
            value_array(built)
        },
        Json::Object(members) => {
            proof {
                lemma_object_view(*members);
            }
            let mut built = members_new();
            let mut i: usize = 0;
            assert(pairs_of(members@).take(0) =~= Seq::empty());
            while i < members.len()
                invariant
                    i <= members.len(),
                    *j == Json::Object(*members),
                    outside_members(built) == object_of(pairs_of(members@).take(i as int)),
                decreases members.len() - i,
            {
                let member = &members[i];
                proof {
                    lemma_member_is_smaller(j, i as int);
                }
                let value = to_outside(&member.1);
                members_insert(&mut built, member.0.clone(), value);
                proof {
                    let written = pairs_of(members@);
                    assert(written.take(i + 1) =~= written.take(i as int).push(
                        (member.0@, member.1@),
                    ));
                    lemma_object_of_push(written.take(i as int), member.0@, member.1@);
                }
                i += 1;
            }
            assert(pairs_of(members@).take(members.len() as int) =~= pairs_of(members@));
            value_object(built)
        },
    }
}

// ---------------------------------------------------------------------------
// What is taken from `serde_json`, on trust.
// ---------------------------------------------------------------------------

/// `serde_json::Number`, taken as it is: nothing is known of what is in it
/// but through [`number_model`].
#[verifier::external_type_specification]
#[verifier::external_body]
pub struct ExNumber(serde_json::Number);

/// `serde_json::Value`, taken as it is: nothing is known of what is in it
/// but through [`outside_json`].
#[verifier::external_type_specification]
#[verifier::external_body]
pub struct ExValue(serde_json::Value);

/// `serde_json::Map`, taken as it is: nothing is known of what is in it but
/// through [`outside_members`].
#[verifier::external_type_specification]
#[verifier::external_body]
#[verifier::reject_recursive_types(K)]
#[verifier::reject_recursive_types(V)]
pub struct ExMap<K, V>(serde_json::Map<K, V>);

/// `serde_json::Error`, taken as it is: nothing is read out of it.
#[verifier::external_type_specification]
#[verifier::external_body]
pub struct ExError(serde_json::Error);

/// What a `serde_json::Number` holds: an unsigned integer, a negative integer
/// or a finite binary64 number.
pub uninterp spec fn number_model(n: serde_json::Number) -> NumberValue;

/// The document that a `serde_json::Value` holds.
pub uninterp spec fn outside_json(v: serde_json::Value) -> JsonValue;

/// The members that a `serde_json::Map` holds, each key with the document of
/// its value.
pub uninterp spec fn outside_members(m: serde_json::Map<String, serde_json::Value>) -> Map<
    Seq<char>,
    JsonValue,
>;

/// The text that `serde_json::to_string_pretty` writes for a document, or
/// `None` where it reports an error.
pub uninterp spec fn pretty_json(v: JsonValue) -> Option<Seq<char>>;

/// The text that the `Display` impl of `serde_json::Value` writes for a
/// document.
pub uninterp spec fn compact_json(v: JsonValue) -> Seq<char>;

/// The clone of a `serde_json::Number` holds what the number holds.
pub assume_specification[ <serde_json::Number as Clone>::clone ](n: &serde_json::Number) -> (r:
    serde_json::Number)
    ensures
        number_model(r) == number_model(*n),
;

/// `serde_json::Number::from` on a `u64` gives the number that holds that
/// unsigned integer.
#[verifier::external_body]
fn number_from_u64(u: u64) -> (n: serde_json::Number)
    ensures
        number_model(n) == NumberValue::PosInt(u),
{
    serde_json::Number::from(u)
}

/// `serde_json::Number::from` on an `i64` gives the number that holds that
/// integer: as a negative integer where it is below zero, as an unsigned
/// integer otherwise.
#[verifier::external_body]
fn number_from_i64(i: i64) -> (n: serde_json::Number)
    ensures
        number_model(n) == if i < 0 {
            NumberValue::NegInt(i)
        } else {
            NumberValue::PosInt(i as u64)
        },
{
    serde_json::Number::from(i)
}

/// `serde_json::Number::as_u64` gives the value of a number that holds an
/// unsigned integer, and `None` for a negative integer or a binary64 number.
#[verifier::external_body]
fn number_as_u64(n: &serde_json::Number) -> (r: Option<u64>)
    ensures
        r == JsonValue::Number(number_model(*n)).unsigned(),
{
    n.as_u64()
}

/// `serde_json::Value::from` on `()` gives the null value.
#[verifier::external_body]
fn value_null() -> (v: serde_json::Value)
    ensures
        outside_json(v) == JsonValue::Null,
{
    serde_json::Value::from(())
}

/// `serde_json::Value::from` on a `bool` gives the value that holds it.
#[verifier::external_body]
fn value_bool(b: bool) -> (v: serde_json::Value)
    ensures
        outside_json(v) == JsonValue::Bool(b),
{
    serde_json::Value::from(b)
}

/// `serde_json::Value::from` on a `Number` gives the value that holds it.
#[verifier::external_body]
fn value_number(n: serde_json::Number) -> (v: serde_json::Value)
    ensures
        outside_json(v) == JsonValue::Number(number_model(n)),
{
    serde_json::Value::from(n)
}

/// `serde_json::Value::from` on a `String` gives the value that holds its
/// text.
#[verifier::external_body]
fn value_string(s: String) -> (v: serde_json::Value)
    ensures
        outside_json(v) == JsonValue::String(s@),
{
    serde_json::Value::from(s)
}

/// `serde_json::Value::from` on a `Vec` of values gives the array that holds
/// them in their order.
#[verifier::external_body]
fn value_array(items: Vec<serde_json::Value>) -> (v: serde_json::Value)
    ensures
        outside_json(v) == JsonValue::Array(outside_elements(items@)),
{
    serde_json::Value::from(items)
}

/// `serde_json::Value::from` on a `Map` gives the object that holds its
/// members.
#[verifier::external_body]
fn value_object(members: serde_json::Map<String, serde_json::Value>) -> (v: serde_json::Value)
    ensures
        outside_json(v) == JsonValue::Object(outside_members(members)),
{
    serde_json::Value::from(members)
}

/// `serde_json::Map::new` gives a map without members.
#[verifier::external_body]
fn members_new() -> (m: serde_json::Map<String, serde_json::Value>)
    ensures
        outside_members(m) == no_members(),
{
    serde_json::Map::new()
}

/// `serde_json::Map::insert` puts the value under the key, in place of what
/// the key held before, and leaves the other members as they were.
#[verifier::external_body]
fn members_insert(
    m: &mut serde_json::Map<String, serde_json::Value>,
    key: String,
    value: serde_json::Value,
)
    ensures
        outside_members(*final(m)) == outside_members(*old(m)).insert(key@, outside_json(value)),
{
    m.insert(key, value);
}

/// `serde_json::to_string_pretty` on a `Value`: the text depends on the
/// document alone, and so does whether an error is reported.
#[verifier::external_body]
fn render_pretty(v: &serde_json::Value) -> (r: Result<String, serde_json::Error>)
    ensures
        match r {
            Ok(s) => pretty_json(outside_json(*v)) == Some(s@),
            Err(_) => pretty_json(outside_json(*v)) is None,
        },
{
    serde_json::to_string_pretty(v)
}

/// `to_string` on a `Value`, which goes through its `Display` impl: the text
/// depends on the document alone.
#[verifier::external_body]
fn render_compact(v: &serde_json::Value) -> (s: String)
    ensures
        s@ == compact_json(outside_json(*v)),
{
    v.to_string()
}

} // verus!
