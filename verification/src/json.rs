//! JSON documents as the payload currency of the envelope.
//!
//! Payloads are held as `serde_json::Value`.  Contracts speak of them through
//! a mathematical model, [`Json`]; the few constructors the crate needs and
//! the compact printer are taken from `serde_json` on trust.  The crate is
//! built on `serde_json` as it comes, in which the members of an object are
//! kept by key: what an object prints as does not depend on the order in
//! which its members were given.

use vstd::prelude::*;

verus! {

/// `serde_json::Value`, a JSON document; opaque to the verifier.
#[verifier::external_type_specification]
#[verifier::external_body]
pub struct ExValue(serde_json::Value);

/// Mathematical model of a JSON document.
///
/// An object is a map: a key occurs once and the members carry no order.
/// Of numbers only the integers are modelled.
pub enum Json {
    Null,
    Bool(bool),
    Integer(int),
    Text(Seq<char>),
    List(Seq<Json>),
    Object(Map<Seq<char>, Json>),
}

/// The document a `serde_json::Value` holds.
pub uninterp spec fn json_of(v: serde_json::Value) -> Json;

/// The compact text `serde_json` prints a document as.
pub uninterp spec fn json_text(j: Json) -> Seq<char>;

/// The models of a sequence of values, in order.
pub open spec fn models(items: Seq<serde_json::Value>) -> Seq<Json> {
    items.map_values(|v: serde_json::Value| json_of(v))
}

/// The keyed models of a sequence of object members, in order.
pub open spec fn member_models(members: Seq<(String, serde_json::Value)>) -> Seq<
    (Seq<char>, Json),
> {
    members.map_values(|m: (String, serde_json::Value)| (m.0@, json_of(m.1)))
}

/// No key occurs twice among the members.
pub open spec fn distinct_keys(members: Seq<(Seq<char>, Json)>) -> bool {
    forall|i: int, j: int|
        0 <= i < j < members.len() ==> (#[trigger] members[i]).0 != (#[trigger] members[j]).0
}

/// The object that holds exactly the given members.  Where a key repeats the
/// last member with it stays.
pub open spec fn object_of(members: Seq<(Seq<char>, Json)>) -> Map<Seq<char>, Json>
    decreases members.len(),
{
    if members.len() == 0 {
        Map::empty()
    } else {
        object_of(members.drop_last()).insert(members.last().0, members.last().1)
    }
}

/// `serde_json::Value::Null`: the document is `null`.
#[verifier::external_body]
pub(crate) fn null_value() -> (v: serde_json::Value)
    ensures
        json_of(v) == Json::Null,
{
    serde_json::Value::Null
}

/// `serde_json::Value::String`: the document is the text itself.
#[verifier::external_body]
pub(crate) fn text_value(s: &str) -> (v: serde_json::Value)
    ensures
        json_of(v) == Json::Text(s@),
{
    serde_json::Value::String(s.to_owned())
}

/// `serde_json::Value::Bool`: the document is the truth value.
#[verifier::external_body]
pub(crate) fn bool_value(b: bool) -> (v: serde_json::Value)
    ensures
        json_of(v) == Json::Bool(b),
{
    serde_json::Value::Bool(b)
}

/// `serde_json::Value::from` on an `i64`: the document is that integer.
#[verifier::external_body]
pub(crate) fn integer_value(n: i64) -> (v: serde_json::Value)
    ensures
        json_of(v) == Json::Integer(n as int),
{
    serde_json::Value::from(n)
}

/// `serde_json::Value::Array`: the document lists the items' documents in
/// the order given.
#[verifier::external_body]
pub(crate) fn list_value(items: Vec<serde_json::Value>) -> (v: serde_json::Value)
    ensures
        json_of(v) == Json::List(models(items@)),
{
    serde_json::Value::Array(items)
}

/// `serde_json::Map::from_iter` under `serde_json::Value::Object`: with no
/// key given twice, the document is the object of exactly these members.
#[verifier::external_body]
pub(crate) fn object_value(members: Vec<(String, serde_json::Value)>) -> (v: serde_json::Value)
    requires
        distinct_keys(member_models(members@)),
    ensures
        json_of(v) == Json::Object(object_of(member_models(members@))),
{
    serde_json::Value::Object(members.into_iter().collect())
}

/// `Display` of `serde_json::Value`, through `to_string`: the compact text of
/// the document the value holds.  The text of the empty list is `[]`.
#[verifier::external_body]
pub(crate) fn value_text(v: &serde_json::Value) -> (s: String)
    ensures
        s@ == json_text(json_of(*v)),
        json_of(*v) == Json::List(Seq::empty()) ==> s@ == "[]"@,
{
    v.to_string()
}

/// The object with the one member given.
pub fn single_member_value(key: String, value: serde_json::Value) -> (v: serde_json::Value)
    ensures
        json_of(v) == Json::Object(object_of(seq![(key@, json_of(value))])),
{
    let members = vec![(key, value)];
    proof {
        assert(member_models(members@) =~= seq![(key@, json_of(value))]);
    }
    object_value(members)
}

/// The object with the two members given.  Where the two keys are one, the
/// second member stays.
pub fn two_member_value(
    first_key: &str,
    first: serde_json::Value,
    second_key: &str,
    second: serde_json::Value,
) -> (v: serde_json::Value)
    ensures
        json_of(v) == Json::Object(
            object_of(seq![(first_key@, json_of(first)), (second_key@, json_of(second))]),
        ),
{
    let first_key = first_key.to_owned();
    let second_key = second_key.to_owned();
    if first_key == second_key {
        proof {
            assert(object_of(seq![(first_key@, json_of(first)), (second_key@, json_of(second))])
                =~= object_of(seq![(second_key@, json_of(second))])) by {
                reveal_with_fuel(object_of, 3);
            }
        }
        single_member_value(second_key, second)
    } else {
        let members = vec![(first_key, first), (second_key, second)];
        proof {
            assert(member_models(members@) =~= seq![
                (first_key@, json_of(first)),
                (second_key@, json_of(second)),
            ]);
        }
        object_value(members)
    }
}

} // verus!
