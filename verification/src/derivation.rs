//! Finding the build recipe of a built profile in what the build tool reports
//! about it, across the tool's output formats.

use crate::push::PushProfileError;
use crate::text::starts_with;
use serde_json::Value;
use vstd::prelude::*;
use vstd::string::*;
use vstd::utf8::*;

verus! {

/// `serde_json::Value`, a parsed JSON document or a part of one.
#[verifier::external_type_specification]
#[verifier::external_body]
pub struct ExValue(serde_json::Value);

/// `serde_json::Map`, the members of a JSON object.
#[verifier::external_type_specification]
#[verifier::external_body]
#[verifier::reject_recursive_types(K)]
#[verifier::reject_recursive_types(V)]
pub struct ExMap<K, V>(serde_json::Map<K, V>);

/// The structure of a JSON value, as far as the search for a recipe reads
/// it: the members of an object in the order in which the object yields them,
/// each with the structure of its value; or anything that is no object.
pub enum Shape {
    Object(Seq<(Seq<char>, Shape)>),
    Other,
}

/// What `serde_json::from_str` reads from a text: the document that the
/// text holds, or what keeps the text from being one JSON document.
pub uninterp spec fn json_parsed(text: Seq<char>) -> Result<Value, serde_json::Error>;

/// The structure of a `serde_json::Value`, as `serde_json::Value::get` and
/// `serde_json::Value::as_object` read it.
pub uninterp spec fn shape_of(value: Value) -> Shape;

/// The members of a `serde_json::Map` in the order in which it yields them,
/// each key with the structure of its value.
pub uninterp spec fn members_of(object: serde_json::Map<String, Value>) -> Seq<(Seq<char>, Shape)>;

/// The structure of the first of the members that has the key; none where no
/// member has it.
pub open spec fn found_in(members: Seq<(Seq<char>, Shape)>, key: Seq<char>) -> Option<Shape>
    decreases members.len(),
{
    if members.len() == 0 {
        None
    } else if members[0].0 == key {
        Some(members[0].1)
    } else {
        found_in(members.drop_first(), key)
    }
}

/// The structure of the member of that name; none where the value is no
/// object or has no such member.
pub open spec fn member_of(shape: Shape, key: Seq<char>) -> Option<Shape> {
    match shape {
        Shape::Object(members) => found_in(members, key),
        Shape::Other => None,
    }
}

/// `serde_json::from_str` at `serde_json::Value`: the document that the text
/// holds, or the reason why it holds none.
#[verifier::external_body]
pub(crate) fn parse(text: &str) -> (r: Result<Value, serde_json::Error>)
    ensures
        r == json_parsed(text@),
{
    serde_json::from_str(text)
}

/// `serde_json::Value::get` with a string index: the member of that name of
/// an object, and nothing of any other value.
#[verifier::external_body]
pub(crate) fn member<'a>(value: &'a Value, key: &str) -> (r: Option<&'a Value>)
    ensures
        r matches Some(found) ==> member_of(shape_of(*value), key@) == Some(shape_of(*found)),
        r is None ==> member_of(shape_of(*value), key@) is None,
{
    value.get(key)
}

/// `serde_json::Value::as_object` gives the members of an object and nothing
/// of any other value.
pub assume_specification[ serde_json::Value::as_object ](value: &Value) -> (r: Option<
    &serde_json::Map<String, Value>,
>)
    ensures
        r matches Some(object) ==> shape_of(*value) == Shape::Object(members_of(*object)),
        r is None ==> shape_of(*value) is Other,
;

/// The first key that `serde_json::Map::keys` yields; none where the object
/// has no member.
#[verifier::external_body]
pub(crate) fn first_key<'a>(object: &'a serde_json::Map<String, Value>) -> (r: Option<&'a String>)
    ensures
        r is None <==> members_of(*object).len() == 0,
        r matches Some(key) ==> key@ == members_of(*object)[0].0,
{
    object.keys().next()
}

/// The characters of a key that was found.
pub open spec fn key_text(r: Result<String, PushProfileError>) -> Result<
    Seq<char>,
    PushProfileError,
> {
    match r {
        Ok(key) => Ok(key@),
        Err(e) => Err(e),
    }
}

/// The part of the metadata that lists the recipes: the member `derivations`
/// where the document has one, else the document itself.
pub open spec fn listing_of(document: Shape) -> Shape {
    match member_of(document, "derivations"@) {
        Some(nested) => nested,
        None => document,
    }
}

/// The first key of a listing: none where the listing is no object, and none
/// inside where it is an object without members.
pub open spec fn first_key_of(listing: Shape) -> Option<Option<Seq<char>>> {
    match listing {
        Shape::Other => None,
        Shape::Object(members) => Some(
            if members.len() == 0 {
                None
            } else {
                Some(members[0].0)
            },
        ),
    }
}

/// The recipe that a listing names, or what is wrong with the listing.
pub open spec fn recipe_key_of(first: Option<Option<Seq<char>>>) -> Result<
    Seq<char>,
    PushProfileError,
> {
    match first {
        None => Err(PushProfileError::ShowDerivationInvalid),
        Some(None) => Err(PushProfileError::ShowDerivationEmpty),
        Some(Some(key)) => Ok(key),
    }
}

/// The recipe that a metadata document names, before the store root is put
/// in front of it: the first key of the listing.
pub open spec fn deriver_key_of(document: Shape) -> Result<Seq<char>, PushProfileError> {
    recipe_key_of(first_key_of(listing_of(document)))
}

/// What the metadata query's output resolves to: the recipe of the document
/// it holds, or the first thing wrong with it.
pub open spec fn resolved_key_of(stdout: Seq<u8>) -> Result<Seq<char>, PushProfileError> {
    if !valid_utf8(stdout) {
        Err(PushProfileError::ShowDerivationUtf8(crate::text::utf8_fault(stdout)))
    } else {
        match json_parsed(decode_utf8(stdout)) {
            Err(e) => Err(PushProfileError::ShowDerivationParse(e)),
            Ok(document) => deriver_key_of(shape_of(document)),
        }
    }
}

/// Chooses the part of the metadata that lists the recipes, given the member
/// `derivations` where the document has one.
pub fn listing<'a>(nested: Option<&'a Value>, document: &'a Value) -> (r: &'a Value)
    ensures
        *r == (match nested {
            Some(inner) => *inner,
            None => *document,
        }),
{
    match nested {
        Some(inner) => inner,
        None => document,
    }
}

/// Names the recipe of a listing, given the listing's first key: `None`
/// where the listing is no object, `Some(None)` where it is an object without
/// members.
pub fn recipe_key(first: Option<Option<&String>>) -> (r: Result<String, PushProfileError>)
    ensures
        key_text(r) == recipe_key_of(
            match first {
                None => None,
                Some(None) => Some(None),
                Some(Some(key)) => Some(Some(key@)),
            },
        ),
{
    match first {
        None => Err(PushProfileError::ShowDerivationInvalid),
        Some(None) => Err(PushProfileError::ShowDerivationEmpty),
        Some(Some(key)) => Ok(key.clone()),
    }
}

/// Names the recipe of a metadata document. Newer versions of the build tool
/// list the recipes under the member `derivations`, older ones at the top.
pub fn deriver_key(document: &Value) -> (r: Result<String, PushProfileError>)
    ensures
        key_text(r) == deriver_key_of(shape_of(*document)),
{
    let nested = member(document, "derivations");
    let info = listing(nested, document);
    let first = match info.as_object() {
        None => None,
        Some(object) => Some(first_key(object)),
    };
    recipe_key(first)
}

/// Names the recipe in what the metadata query wrote.
pub fn find_deriver_key(stdout: &[u8]) -> (r: Result<String, PushProfileError>)
    ensures
        key_text(r) == resolved_key_of(stdout@),
{
    match std::str::from_utf8(stdout) {
        Err(e) => Err(PushProfileError::ShowDerivationUtf8(e)),
        Ok(text) => match parse(text) {
            Err(e) => Err(PushProfileError::ShowDerivationParse(e)),
            Ok(document) => deriver_key(&document),
        },
    }
}

/// A recipe path under the store root: the path itself where it begins with
/// the root, else the root, a slash and the path.
pub open spec fn under_store_root(store: Seq<char>, key: Seq<char>) -> Seq<char> {
    if store.is_prefix_of(key) {
        key
    } else {
        store + "/"@ + key
    }
}

/// Puts the store root in front of a recipe path that lacks it. Newer
/// versions of the build tool report recipes without the root.
pub fn with_store_root(store: &str, key: &str) -> (r: String)
    ensures
        r@ == under_store_root(store@, key@),
        store@.is_prefix_of(r@),
{
    if starts_with(key, store) {
        String::from_str(key)
    } else {
        let mut path = String::from_str(store);
        path.append("/");
        path.append(key);
        assert(store@.is_prefix_of(path@)) by {
            assert(path@.subrange(0, store@.len() as int) =~= store@);
        }
        path
    }
}

/// A path that already begins with the store root is left as it is, so
/// putting the root in front twice is the same as doing it once.
pub proof fn store_root_is_kept(store: Seq<char>, key: Seq<char>)
    ensures
        store.is_prefix_of(key) ==> under_store_root(store, key) == key,
        store.is_prefix_of(under_store_root(store, key)),
        under_store_root(store, under_store_root(store, key)) == under_store_root(store, key),
{
    let once = under_store_root(store, key);
    if !store.is_prefix_of(key) {
        assert(once.subrange(0, store.len() as int) =~= store);
    }
}

/// Whether the path-info probe echoed the recipe: its output is UTF-8 and,
/// without the white space around it, the recipe itself.
pub open spec fn echoes(stdout: Seq<u8>, deriver: Seq<char>) -> bool {
    valid_utf8(stdout) && crate::text::trimmed(decode_utf8(stdout)) == deriver
}

/// The reference to build: the recipe with the selector of its default
/// output where the probe echoed the recipe, else the recipe alone.
pub open spec fn buildable_of(deriver: Seq<char>, stdout: Seq<u8>) -> Seq<char> {
    if echoes(stdout, deriver) {
        deriver + "^out"@
    } else {
        deriver
    }
}

/// Whether the path-info probe answered with the recipe itself. Versions of
/// the build tool that do so build only the recipe file unless an output is
/// selected.
pub fn probe_echoes(stdout: &[u8], deriver: &str) -> (r: bool)
    ensures
        r == echoes(stdout@, deriver@),
{
    match std::str::from_utf8(stdout) {
        Err(_) => false,
        Ok(text) => {
            let answer = String::from_str(text.trim());
            let asked = String::from_str(deriver);
            answer == asked
        },
    }
}

/// The reference to hand to the build, given what the path-info probe wrote.
pub fn buildable(deriver: String, stdout: &[u8]) -> (r: String)
    ensures
        r@ == buildable_of(deriver@, stdout@),
{
    if probe_echoes(stdout, deriver.as_str()) {
        let mut selected = deriver;
        selected.append("^out");
        selected
    } else {
        deriver
    }
}

/// The selector is appended on an echo and never otherwise.
pub proof fn selector_only_on_echo(deriver: Seq<char>, stdout: Seq<u8>)
    ensures
        echoes(stdout, deriver) ==> buildable_of(deriver, stdout) == deriver + "^out"@,
        !echoes(stdout, deriver) ==> buildable_of(deriver, stdout) == deriver,
{
}

} // verus!
