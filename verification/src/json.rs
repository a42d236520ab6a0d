//! JSON values as mathematical trees, and the calls into `serde_json` that
//! build, read, write and parse them.

use vstd::prelude::*;

verus! {

/// What a `serde_json::Value` holds. A number is one of three kinds: a
/// nonnegative integer, a negative integer, or a real, of which only the bits
/// are kept.
pub enum Json {
    Null,
    Flag(bool),
    Unsigned(u64),
    Negative(i64),
    Real(u64),
    Text(Seq<char>),
    Array(Seq<Json>),
    Object(Map<Seq<char>, Json>),
}

impl Json {
    /// The member of that name, where `self` is an object that has one.
    pub open spec fn member(self, key: Seq<char>) -> Option<Json> {
        match self {
            Json::Object(members) if members.contains_key(key) => Some(members[key]),
            _ => None,
        }
    }

    pub open spec fn as_text(self) -> Option<Seq<char>> {
        match self {
            Json::Text(text) => Some(text),
            _ => None,
        }
    }

    pub open spec fn as_unsigned(self) -> Option<u64> {
        match self {
            Json::Unsigned(number) => Some(number),
            _ => None,
        }
    }

    pub open spec fn as_flag(self) -> Option<bool> {
        match self {
            Json::Flag(flag) => Some(flag),
            _ => None,
        }
    }

    /// Whether this is a text, a flag or a nonnegative integer.
    pub open spec fn is_scalar(self) -> bool {
        self is Text || self is Flag || self is Unsigned
    }

    /// Whether this is an object whose members are all scalars.
    pub open spec fn is_record(self) -> bool {
        self matches Json::Object(members) && forall|key: Seq<char>|
            #[trigger] members.contains_key(key) ==> members[key].is_scalar()
    }
}

/// A JSON value of `serde_json`.
#[verifier::external_type_specification]
#[verifier::external_body]
pub struct ExValue(serde_json::Value);

/// A JSON object of `serde_json`, while its members are being put in.
#[verifier::external_type_specification]
#[verifier::external_body]
#[verifier::reject_recursive_types(K)]
#[verifier::reject_recursive_types(V)]
pub struct ExMap<K, V>(serde_json::Map<K, V>);

/// The tree that a value holds.
pub uninterp spec fn tree(value: serde_json::Value) -> Json;

/// The members that an object holds.
pub uninterp spec fn members(object: serde_json::Map<String, serde_json::Value>) -> Map<
    Seq<char>,
    Json,
>;

/// What parsing a text as JSON gives: its tree, or the words of the error.
pub uninterp spec fn parsed(text: Seq<char>) -> Result<Json, Seq<char>>;

/// The compact text of a tree.
pub uninterp spec fn written(json: Json) -> Seq<char>;

/// Whether the text is JSON, of that tree.
pub open spec fn parses_as(text: Seq<char>, json: Json) -> bool {
    parsed(text) matches Ok(found) && found == json
}

/// No members at all.
pub open spec fn no_members() -> Map<Seq<char>, Json> {
    Map::empty()
}

/// `serde_json::Map::new`: an object without members.
#[verifier::external_body]
pub(crate) fn new_object() -> (object: serde_json::Map<String, serde_json::Value>)
    ensures
        members(object) == no_members(),
{
    serde_json::Map::new()
}

/// `serde_json::Map::insert`: the object gets the member, in place of one of
/// the same name if there was one.
#[verifier::external_body]
pub(crate) fn put(
    object: &mut serde_json::Map<String, serde_json::Value>,
    key: &str,
    value: serde_json::Value,
)
    ensures
        members(*final(object)) == members(*old(object)).insert(key@, tree(value)),
{
    object.insert(key.to_string(), value);
}

/// `serde_json::Value::from` on an object: the value that has its members.
#[verifier::external_body]
pub(crate) fn object_value(object: serde_json::Map<String, serde_json::Value>) -> (value:
    serde_json::Value)
    ensures
        tree(value) == Json::Object(members(object)),
{
    serde_json::Value::from(object)
}

/// `serde_json::Value::from` on a text.
#[verifier::external_body]
pub(crate) fn text_value(text: &str) -> (value: serde_json::Value)
    ensures
        tree(value) == Json::Text(text@),
{
    serde_json::Value::from(text)
}

/// `serde_json::Value::from` on a `u64`.
#[verifier::external_body]
pub(crate) fn unsigned_value(number: u64) -> (value: serde_json::Value)
    ensures
        tree(value) == Json::Unsigned(number),
{
    serde_json::Value::from(number)
}

/// `serde_json::Value::from` on a `bool`.
#[verifier::external_body]
pub(crate) fn flag_value(flag: bool) -> (value: serde_json::Value)
    ensures
        tree(value) == Json::Flag(flag),
{
    serde_json::Value::from(flag)
}

/// `serde_json::Value::get` with a text as index: the member of that name, and
/// nothing where the value is no object or has no such member.
#[verifier::external_body]
pub(crate) fn get<'a>(value: &'a serde_json::Value, key: &str) -> (found: Option<
    &'a serde_json::Value,
>)
    ensures
        match found {
            Some(inner) => tree(*value).member(key@) == Some(tree(*inner)),
            None => tree(*value).member(key@) is None,
        },
{
    value.get(key)
}

/// `serde_json::Value::as_str`: the text, if the value is one.
pub assume_specification[ serde_json::Value::as_str ](value: &serde_json::Value) -> (text: Option<
    &str,
>)
    ensures
        match text {
            Some(inner) => tree(*value).as_text() == Some(inner@),
            None => tree(*value).as_text() is None,
        },
;

/// `serde_json::Value::as_u64`: the number, if the value is a nonnegative
/// integer.
pub assume_specification[ serde_json::Value::as_u64 ](value: &serde_json::Value) -> (number: Option<
    u64,
>)
    ensures
        number == tree(*value).as_unsigned(),
;

/// `serde_json::Value::as_bool`: the flag, if the value is one.
pub assume_specification[ serde_json::Value::as_bool ](value: &serde_json::Value) -> (flag: Option<
    bool,
>)
    ensures
        flag == tree(*value).as_flag(),
;

/// `serde_json::from_str` into a value, with the error turned into its words.
#[verifier::external_body]
pub(crate) fn parse(text: &str) -> (result: Result<serde_json::Value, String>)
    ensures
        match result {
            Ok(value) => parses_as(text@, tree(value)),
            Err(words) => parsed(text@) matches Err(said) && said == words@,
        },
{
    serde_json::from_str(text).map_err(|error| error.to_string())
}

/// `to_string` on a value: the compact text of its tree. What is written of an
/// object of texts, flags and nonnegative integers parses as that object.
#[verifier::external_body]
pub(crate) fn write(value: &serde_json::Value) -> (text: String)
    ensures
        text@ == written(tree(*value)),
        tree(*value).is_record() ==> parses_as(text@, tree(*value)),
{
    value.to_string()
}

} // verus!
