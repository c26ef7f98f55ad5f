//! Queries into JSON and TOML documents (`package.json`, `deno.json`,
//! `angular.json`, `Cargo.toml`, `rust-toolchain.toml`, mise config). The
//! documents are parsed by `serde_json` and `toml`; the library asks for the
//! value at a path of keys and decides on what comes back.
use vstd::prelude::*;
use crate::text::views;
use serde_json::Value as Json;
use toml::Value as Toml;

verus! {

/// What a document holds at a path.
pub enum Found {
    /// The text is not a valid document.
    Unparsable,
    /// Some step of the path is missing (or not a container of the right kind).
    Absent,
    /// A string.
    Text(String),
    /// A table / object.
    Table,
    /// An array.
    Array,
    /// Any other value (number, boolean, null, date).
    Other,
}

pub enum FoundView {
    Unparsable,
    Absent,
    Text(Seq<char>),
    Table,
    Array,
    Other,
}

impl View for Found {
    type V = FoundView;

    open spec fn view(&self) -> FoundView {
        match self {
            Found::Unparsable => FoundView::Unparsable,
            Found::Absent => FoundView::Absent,
            Found::Text(s) => FoundView::Text(s@),
            Found::Table => FoundView::Table,
            Found::Array => FoundView::Array,
            Found::Other => FoundView::Other,
        }
    }
}

impl FoundView {
    /// A value is present at the path.
    pub open spec fn present(self) -> bool {
        !(self is Unparsable) && !(self is Absent)
    }
}

impl Found {
    pub fn is_present(&self) -> (b: bool)
        ensures
            b == self@.present(),
    {
        match self {
            Found::Unparsable => false,
            Found::Absent => false,
            _ => true,
        }
    }
}

/// A step of a TOML path: a table key or an array index.
pub enum Step {
    Key(String),
    Index(usize),
}

pub enum StepView {
    Key(Seq<char>),
    Index(usize),
}

impl View for Step {
    type V = StepView;

    open spec fn view(&self) -> StepView {
        match self {
            Step::Key(k) => StepView::Key(k@),
            Step::Index(i) => StepView::Index(*i),
        }
    }
}

pub open spec fn step_views(s: Seq<Step>) -> Seq<StepView> {
    s.map_values(|x: Step| x@)
}

/// What `serde_json::from_str::<serde_json::Value>` makes of `text`, followed
/// along `keys` with `Value::get` (an object member per key).
pub uninterp spec fn json_at(text: Seq<char>, keys: Seq<Seq<char>>) -> FoundView;

/// The member names, in order, of the object that `serde_json` parses `text`
/// into and `Value::get` reaches along `keys`; `None` when there is no object there.
pub uninterp spec fn json_keys_at(text: Seq<char>, keys: Seq<Seq<char>>) -> Option<Seq<Seq<char>>>;

/// What `toml::from_str::<toml::Table>` makes of `text`, followed along
/// `path` with `Value::get` (a table entry per key, an array element per index).
pub uninterp spec fn toml_at(text: Seq<char>, path: Seq<StepView>) -> FoundView;

/// Calls `serde_json::from_str` and then `serde_json::Value::get` once per key.
/// Claims only that the answer is a function of the text and the keys.
#[verifier::external_body]
pub(crate) fn json_lookup(text: &str, keys: &Vec<String>) -> (r: Found)
    ensures
        r@ == json_at(text@, views(keys@)),
{
    let Ok(doc) = serde_json::from_str::<Json>(text) else { return Found::Unparsable };
    match keys.iter().try_fold(&doc, |cur, key| cur.get(key.as_str())) {
        None => Found::Absent,
        Some(Json::String(s)) => Found::Text(s.clone()),
        Some(Json::Object(_)) => Found::Table,
        Some(Json::Array(_)) => Found::Array,
        Some(Json::Number(_) | Json::Bool(_) | Json::Null) => Found::Other,
    }
}

/// Calls `serde_json::from_str`, `serde_json::Value::get` once per key, and
/// `serde_json::Map::keys` on the object reached (`Value::as_object`). Claims only that the answer
/// is a function of the text and the keys.
#[verifier::external_body]
pub(crate) fn json_member_names(text: &str, keys: &Vec<String>) -> (r: Option<Vec<String>>)
    ensures
        r matches Some(v) ==> json_keys_at(text@, views(keys@)) == Some(views(v@)),
        r is None ==> json_keys_at(text@, views(keys@)) is None,
{
    let doc = serde_json::from_str::<Json>(text).ok()?;
    let found = keys.iter().try_fold(&doc, |cur, key| cur.get(key.as_str()))?;
    found.as_object().map(|map| map.keys().cloned().collect())
}

/// Calls `toml::from_str::<toml::Table>` and then `toml::Value::get` once per
/// step. Claims only that the answer is a function of the text and the path.
#[verifier::external_body]
pub(crate) fn toml_lookup(text: &str, path: &Vec<Step>) -> (r: Found)
    ensures
        r@ == toml_at(text@, step_views(path@)),
{
    let Ok(doc) = toml::from_str::<toml::Table>(text) else { return Found::Unparsable };
    let root = Toml::Table(doc);
    let found = path.iter().try_fold(&root, |cur, s| match s {
        Step::Key(k) => cur.get(k),
        Step::Index(i) => cur.get(*i),
    });
    match found {
        None => Found::Absent,
        Some(Toml::String(s)) => Found::Text(s.clone()),
        Some(Toml::Table(_)) => Found::Table,
        Some(Toml::Array(_)) => Found::Array,
        Some(Toml::Integer(_) | Toml::Float(_) | Toml::Boolean(_) | Toml::Datetime(_)) => Found::Other,
    }
}

} // verus!
