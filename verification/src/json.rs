//! A model of the JSON trees the client exchanges with the completion
//! endpoint. Parsing a string into the tree is the one step done by an
//! outside crate; every walk over the tree is verified code.

use vstd::prelude::*;
use vstd::string::*;
use crate::strutil::str_eq_str;

verus! {

broadcast use vstd::std_specs::vec::group_vec_axioms;

/// A JSON tree held as plain values. A number that fits an unsigned 64-bit
/// integer is held exactly; any other number (negative, fractional or too
/// large) keeps only its kind, which is all the client ever reads of one.
pub enum Json {
    Null,
    Bool(bool),
    Int(u64),
    Num,
    Str(String),
    Arr(Vec<Json>),
    Obj(Vec<(String, Json)>),
}

/// Mathematical image of a [`Json`] tree.
pub enum JsonView {
    Null,
    Bool(bool),
    Int(u64),
    Num,
    Str(Seq<char>),
    Arr(Seq<JsonView>),
    Obj(Seq<(Seq<char>, JsonView)>),
}

/// The image of a list of object fields.
pub open spec fn fields_view(v: Seq<(String, Json)>) -> Seq<(Seq<char>, JsonView)> {
    Seq::new(v.len(), |i: int| (v[i].0@, jview(v[i].1)))
}

/// The image of a list of array elements.
pub open spec fn elems_view(v: Seq<Json>) -> Seq<JsonView> {
    Seq::new(v.len(), |i: int| jview(v[i]))
}

/// The image of a [`Json`] tree as a [`JsonView`].
pub open spec fn jview(j: Json) -> JsonView
    decreases j,
{
    match j {
        Json::Null => JsonView::Null,
        Json::Bool(b) => JsonView::Bool(b),
        Json::Int(n) => JsonView::Int(n),
        Json::Num => JsonView::Num,
        Json::Str(s) => JsonView::Str(s@),
        Json::Arr(v) => JsonView::Arr(
            Seq::new(
                v@.len(),
                |i: int|
                    if 0 <= i < v@.len() {
                        jview(v@[i])
                    } else {
                        JsonView::Null
                    },
            ),
        ),
        Json::Obj(v) => JsonView::Obj(
            Seq::new(
                v@.len(),
                |i: int|
                    if 0 <= i < v@.len() {
                        (v@[i].0@, jview(v@[i].1))
                    } else {
                        (Seq::empty(), JsonView::Null)
                    },
            ),
        ),
    }
}

impl View for Json {
    type V = JsonView;

    open spec fn view(&self) -> JsonView {
        jview(*self)
    }
}

/// An object tree's image is the image of its field list.
pub proof fn lemma_obj_fields(j: Json, v: Vec<(String, Json)>)
    requires
        j == Json::Obj(v),
    ensures
        jview(j) == JsonView::Obj(fields_view(v@)),
{
    assert(jview(j)->Obj_0 =~= fields_view(v@));
}

/// An array tree's image is the image of its element list.
pub proof fn lemma_arr_elems(j: Json, v: Vec<Json>)
    requires
        j == Json::Arr(v),
    ensures
        jview(j) == JsonView::Arr(elems_view(v@)),
{
    assert(jview(j)->Arr_0 =~= elems_view(v@));
}

/// What `serde_json` makes of a string: the JSON tree it denotes, or the
/// parser's diagnostic. The result depends on the string alone.
pub uninterp spec fn spec_parse_json(s: Seq<char>) -> Result<JsonView, Seq<char>>;

/// Relies on the variants of `serde_json::Value`: each is carried over one
/// to one; a number that does not fit an unsigned 64-bit value keeps only
/// its kind.
#[verifier::external_body]
fn json_of_value(v: serde_json::Value) -> (r: Json) {
    match v {
        serde_json::Value::Null => Json::Null,
        serde_json::Value::Bool(b) => Json::Bool(b),
        serde_json::Value::Number(n) => match n.as_u64() {
            Some(u) => Json::Int(u),
            None => Json::Num,
        },
        serde_json::Value::String(s) => Json::Str(s),
        serde_json::Value::Array(a) => Json::Arr(a.into_iter().map(json_of_value).collect()),
        serde_json::Value::Object(m) => Json::Obj(
            m.into_iter().map(|(k, x)| (k, json_of_value(x))).collect(),
        ),
    }
}

/// Declares `serde_json::Value`, the parser's tree type, so that the
/// conversion above can take it; the type stays opaque here.
#[verifier::external_type_specification]
#[verifier::external_body]
pub struct ExValue(serde_json::Value);

/// Relies on `serde_json::from_str::<serde_json::Value>`: whether a string
/// is valid JSON, the tree it denotes, and the diagnostic when it is not,
/// depend on the string alone.
#[verifier::external_body]
pub(crate) fn parse_json(s: &str) -> (r: Result<Json, String>)
    ensures
        (match r {
            Ok(j) => spec_parse_json(s@) == Ok::<JsonView, Seq<char>>(j@),
            Err(e) => spec_parse_json(s@) == Err::<JsonView, Seq<char>>(e@),
        }),
{
    match serde_json::from_str::<serde_json::Value>(s) {
        Ok(v) => Ok(json_of_value(v)),
        Err(e) => Err(e.to_string()),
    }
}

/// The value under `key`, looking from position `i` on: the first field
/// whose name matches wins.
pub open spec fn spec_obj_get_from(
    fs: Seq<(Seq<char>, JsonView)>,
    key: Seq<char>,
    i: int,
) -> Option<JsonView>
    decreases fs.len() - i,
{
    if i < 0 || i >= fs.len() {
        None
    } else if fs[i].0 == key {
        Some(fs[i].1)
    } else {
        spec_obj_get_from(fs, key, i + 1)
    }
}

/// The value under `key` in an object's field list, if any.
pub open spec fn spec_obj_get(fs: Seq<(Seq<char>, JsonView)>, key: Seq<char>) -> Option<JsonView> {
    spec_obj_get_from(fs, key, 0)
}

fn obj_get_from<'a>(fs: &'a Vec<(String, Json)>, key: &str, i: usize) -> (r: Option<&'a Json>)
    requires
        i <= fs@.len(),
    ensures
        (match r {
            Some(j) => spec_obj_get_from(fields_view(fs@), key@, i as int) == Some(j@),
            None => spec_obj_get_from(fields_view(fs@), key@, i as int) is None,
        }),
    decreases fs@.len() - i,
{
    if i >= fs.len() {
        None
    } else if str_eq_str(fs[i].0.as_str(), key) {
        Some(&fs[i].1)
    } else {
        obj_get_from(fs, key, i + 1)
    }
}

/// Look a field up in an object's field list.
pub fn obj_get<'a>(fs: &'a Vec<(String, Json)>, key: &str) -> (r: Option<&'a Json>)
    ensures
        (match r {
            Some(j) => spec_obj_get(fields_view(fs@), key@) == Some(j@),
            None => spec_obj_get(fields_view(fs@), key@) is None,
        }),
{
    obj_get_from(fs, key, 0)
}

} // verus!
