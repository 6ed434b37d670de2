//! Plain-value model of one parsed TOML document, as far as the metadata
//! loader reads it: a flat table of keys, each holding a string, a boolean,
//! an integer or an array, together with the trusted bridge to the `toml`
//! crate that parses text into this model and renders it back.

use vstd::prelude::*;

verus! {

/// One element of an array value.  Anything that is not a TOML string is
/// kept only as its rendered text, which the loader uses in error messages.
#[derive(Debug, Clone, PartialEq, Eq)]
pub enum DocItem {
    Str(String),
    Other(String),
}

/// One top-level value of the document.  Kinds the loader never reads
/// (floats, datetimes, nested tables) collapse to `Other`.
#[derive(Debug, Clone, PartialEq, Eq)]
pub enum DocValue {
    Str(String),
    Bool(bool),
    Int(i64),
    Arr(Vec<DocItem>),
    Other,
}

/// A parsed document: the top-level key/value pairs, in the order the
/// builder of the document put them (the TOML parser hands them over
/// key-sorted; lookup takes a key's first occurrence either way).
#[derive(Debug, Clone, PartialEq, Eq)]
pub struct Document {
    pub entries: Vec<(String, DocValue)>,
}

/// Mathematical counterpart of [`DocItem`].
pub enum SpecItem {
    Str(Seq<char>),
    Other(Seq<char>),
}

/// Mathematical counterpart of [`DocValue`].
pub enum SpecValue {
    Str(Seq<char>),
    Bool(bool),
    Int(int),
    Arr(Seq<SpecItem>),
    Other,
}

/// Mathematical counterpart of [`Document`]: the key/value pairs.
pub type DocView = Seq<(Seq<char>, SpecValue)>;

impl View for DocItem {
    type V = SpecItem;

    open spec fn view(&self) -> SpecItem {
        match self {
            DocItem::Str(s) => SpecItem::Str(s@),
            DocItem::Other(t) => SpecItem::Other(t@),
        }
    }
}

/// The views of a sequence of array elements.
pub open spec fn items_view(items: Seq<DocItem>) -> Seq<SpecItem> {
    items.map_values(|it: DocItem| it@)
}

impl View for DocValue {
    type V = SpecValue;

    open spec fn view(&self) -> SpecValue {
        match self {
            DocValue::Str(s) => SpecValue::Str(s@),
            DocValue::Bool(b) => SpecValue::Bool(*b),
            DocValue::Int(i) => SpecValue::Int(*i as int),
            DocValue::Arr(items) => SpecValue::Arr(items_view(items@)),
            DocValue::Other => SpecValue::Other,
        }
    }
}

impl View for Document {
    type V = DocView;

    open spec fn view(&self) -> DocView {
        self.entries@.map_values(|e: (String, DocValue)| (e.0@, e.1@))
    }
}

/// The value of `key` in `doc` from entry `i` on: the value beside the
/// first occurrence of the key, or `None` where the key does not occur.
pub open spec fn lookup_from(doc: DocView, key: Seq<char>, i: int) -> Option<SpecValue>
    decreases doc.len() - i,
{
    if i < 0 || i >= doc.len() {
        None
    } else if doc[i].0 == key {
        Some(doc[i].1)
    } else {
        lookup_from(doc, key, i + 1)
    }
}

/// The value of `key` in `doc`: first occurrence wins.
pub open spec fn lookup(doc: DocView, key: Seq<char>) -> Option<SpecValue> {
    lookup_from(doc, key, 0)
}

/// The text of an array element: the string itself, or the rendered text
/// of an element of another kind.
pub open spec fn item_text(it: SpecItem) -> Seq<char> {
    match it {
        SpecItem::Str(s) => s,
        SpecItem::Other(t) => t,
    }
}

/// The texts of a sequence of array elements.
pub open spec fn string_items(items: Seq<SpecItem>) -> Seq<Seq<char>> {
    items.map_values(|it: SpecItem| item_text(it))
}

/// The rendered text of the first element from `i` on that is not a
/// string, or `None` where all elements from `i` on are strings.
pub open spec fn first_other_from(items: Seq<SpecItem>, i: int) -> Option<Seq<char>>
    decreases items.len() - i,
{
    if i < 0 || i >= items.len() {
        None
    } else {
        match items[i] {
            SpecItem::Other(t) => Some(t),
            SpecItem::Str(_) => first_other_from(items, i + 1),
        }
    }
}

/// The rendered text of the first element that is not a string, or
/// `None` where every element is a string.
pub open spec fn first_other(items: Seq<SpecItem>) -> Option<Seq<char>> {
    first_other_from(items, 0)
}

/// Looks a key up in a document, returning the value beside its first
/// occurrence.
pub fn doc_get<'a>(doc: &'a Document, key: &str) -> (r: Option<&'a DocValue>)
    ensures
        match r {
            Some(v) => lookup(doc@, key@) == Some(v@),
            None => lookup(doc@, key@) is None,
        },
{
    let owned_key: String = key.to_owned();
    let n = doc.entries.len();
    let mut i: usize = 0;
    while i < n
        invariant
            n == doc.entries.len(),
            owned_key@ == key@,
            0 <= i <= n,
            lookup(doc@, key@) == lookup_from(doc@, key@, i as int),
        decreases n - i,
    {
        proof {
            assert(doc@[i as int] == (doc.entries@[i as int].0@, doc.entries@[i as int].1@));
        }
        if doc.entries[i].0 == owned_key {
            return Some(&doc.entries[i].1);
        }
        i = i + 1;
    }
    None
}

/// Declares the `toml` crate's value type, so that the trusted bridge
/// below can hand such values through; the library never looks inside one.
#[verifier::external_type_specification]
#[verifier::external_body]
pub struct ExTomlValue(toml::Value);

/// Whether the text is a well-formed TOML table.
pub uninterp spec fn toml_table_wf(text: Seq<char>) -> bool;

/// The document that well-formed TOML text parses to.
pub uninterp spec fn toml_doc_of(text: Seq<char>) -> DocView;

/// Whether a document can be rendered as TOML text.
pub uninterp spec fn toml_renderable(doc: DocView) -> bool;

/// The TOML rendering of a renderable document.
pub uninterp spec fn toml_render(doc: DocView) -> Seq<char>;

/// Builds the document model of one parsed TOML value.
#[verifier::external_body]
fn doc_value_of(value: toml::Value) -> (r: DocValue) {
    match value {
        toml::Value::String(s) => DocValue::Str(s),
        toml::Value::Boolean(b) => DocValue::Bool(b),
        toml::Value::Integer(i) => DocValue::Int(i),
        toml::Value::Array(values) => DocValue::Arr(values.into_iter().map(doc_item_of).collect()),
        _ => DocValue::Other,
    }
}

/// Builds the document model of one parsed array element; anything but a
/// TOML string is kept as its rendered text.
#[verifier::external_body]
fn doc_item_of(value: toml::Value) -> (r: DocItem) {
    match value {
        toml::Value::String(s) => DocItem::Str(s),
        other => DocItem::Other(other.to_string()),
    }
}

/// Relies on the `toml` crate's parser (`str::parse::<toml::Table>`):
/// whether the text parses as a TOML table, and to which table, depends
/// on the text alone; on failure the parser's message is handed back,
/// and on success the table's entries, as plain values.
#[verifier::external_body]
pub(crate) fn parse_document(text: &str) -> (r: Result<Document, String>)
    ensures
        r is Ok <==> toml_table_wf(text@),
        r matches Ok(d) ==> d@ == toml_doc_of(text@),
{
    let table: toml::Table = match text.parse() {
        Ok(t) => t,
        Err(e) => return Err(e.to_string()),
    };
    let entries: Vec<(String, DocValue)> =
        table.into_iter().map(|(k, v)| (k, doc_value_of(v))).collect();
    Ok(Document { entries })
}

/// Builds the `toml` value that stands for one document value.
#[verifier::external_body]
fn toml_value_of(value: &DocValue) -> (r: toml::Value) {
    match value {
        DocValue::Str(s) => toml::Value::String(s.clone()),
        DocValue::Bool(b) => toml::Value::Boolean(*b),
        DocValue::Int(i) => toml::Value::Integer(*i),
        DocValue::Arr(items) => toml::Value::Array(items.iter().map(toml_item_of).collect()),
        DocValue::Other => toml::Value::String(String::new()),
    }
}

/// Builds the `toml` value that stands for one array element.
#[verifier::external_body]
fn toml_item_of(item: &DocItem) -> (r: toml::Value) {
    match item {
        DocItem::Str(s) => toml::Value::String(s.clone()),
        DocItem::Other(t) => toml::Value::String(t.clone()),
    }
}

/// Relies on `toml::to_string` over a table built from the document's
/// entries: whether rendering succeeds, and to which text, depends on
/// the document alone; on failure the serializer's message is handed
/// back.
#[verifier::external_body]
pub(crate) fn render_document(doc: &Document) -> (r: Result<String, String>)
    ensures
        r is Ok <==> toml_renderable(doc@),
        r matches Ok(s) ==> s@ == toml_render(doc@),
{
    let mut table = toml::Table::new();
    for (key, value) in doc.entries.iter() {
        table.insert(key.clone(), toml_value_of(value));
    }
    toml::to_string(&table).map_err(|e| e.to_string())
}

} // verus!
