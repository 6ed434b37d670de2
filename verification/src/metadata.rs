//! The metadata record of one route package, the loader that validates a
//! document into it, and the writer that turns a record back into a
//! document.
//!
//! The whole behaviour of the loader is captured by [`spec_load`]: a
//! mathematical function from a document view to either a record view or
//! the one validation error the loader reports.  [`load_from_doc`] is
//! proved to return exactly that.

use vstd::prelude::*;
use vstd::string::StringExecFns;
use crate::document::{
    DocItem, DocValue, Document, DocView, SpecItem, SpecValue, doc_get, items_view, lookup,
    first_other, first_other_from, string_items, parse_document, render_document,
    toml_doc_of, toml_render, toml_renderable, toml_table_wf,
};

verus! {

/// Whether the text is an ISO-3166-1 alpha-2 country code.
pub uninterp spec fn is_iso3166_alpha2(code: Seq<char>) -> bool;

/// Whether the text is a valid semantic version.
pub uninterp spec fn is_semver(text: Seq<char>) -> bool;

/// Whether the text is a calendar date written `YYYY-MM-DD`.
pub uninterp spec fn is_ymd_date(text: Seq<char>) -> bool;

/// Relies on `rust_iso3166::from_alpha2`: looks the code up in the fixed
/// ISO-3166-1 alpha-2 table, so the result depends on the code alone.
#[verifier::external_body]
fn iso3166_alpha2_known(code: &str) -> (r: bool)
    ensures
        r == is_iso3166_alpha2(code@),
{
    rust_iso3166::from_alpha2(code).is_some()
}

/// Relies on `semver::Version::parse`: whether the text is a valid
/// semantic version; the result depends on the text alone.
#[verifier::external_body]
fn semver_valid(text: &str) -> (r: bool)
    ensures
        r == is_semver(text@),
{
    semver::Version::parse(text).is_ok()
}

/// Relies on `chrono::NaiveDate::parse_from_str` with the fixed pattern
/// `%Y-%m-%d`: whether the text parses as a calendar date; the result
/// depends on the text alone.
#[verifier::external_body]
fn ymd_date_valid(text: &str) -> (r: bool)
    ensures
        r == is_ymd_date(text@),
{
    chrono::NaiveDate::parse_from_str(text, "%Y-%m-%d").is_ok()
}

/// The validated, immutable record of one route package.
#[derive(Debug, Clone, PartialEq, Eq)]
pub struct Metadata {
    pub rly_file: String,
    pub ttb_files: Vec<String>,
    pub doc_files: Vec<String>,
    pub ssn_files: Vec<String>,
    pub img_files: Vec<String>,
    pub graphic_files: Vec<String>,
    pub release_date: String,
    pub version: String,
    pub minimum_required: String,
    pub country_code: String,
    pub factual: bool,
    pub description: String,
    pub display_name: String,
    pub name: String,
    pub author: String,
    pub contributors: Vec<String>,
    pub year: i64,
}

/// Mathematical counterpart of [`Metadata`].
pub struct MetadataView {
    pub rly_file: Seq<char>,
    pub ttb_files: Seq<Seq<char>>,
    pub doc_files: Seq<Seq<char>>,
    pub ssn_files: Seq<Seq<char>>,
    pub img_files: Seq<Seq<char>>,
    pub graphic_files: Seq<Seq<char>>,
    pub release_date: Seq<char>,
    pub version: Seq<char>,
    pub minimum_required: Seq<char>,
    pub country_code: Seq<char>,
    pub factual: bool,
    pub description: Seq<char>,
    pub display_name: Seq<char>,
    pub name: Seq<char>,
    pub author: Seq<char>,
    pub contributors: Seq<Seq<char>>,
    pub year: int,
}

impl View for Metadata {
    type V = MetadataView;

    open spec fn view(&self) -> MetadataView {
        MetadataView {
            rly_file: self.rly_file@,
            ttb_files: self.ttb_files.deep_view(),
            doc_files: self.doc_files.deep_view(),
            ssn_files: self.ssn_files.deep_view(),
            img_files: self.img_files.deep_view(),
            graphic_files: self.graphic_files.deep_view(),
            release_date: self.release_date@,
            version: self.version@,
            minimum_required: self.minimum_required@,
            country_code: self.country_code@,
            factual: self.factual,
            description: self.description@,
            display_name: self.display_name@,
            name: self.name@,
            author: self.author@,
            contributors: self.contributors.deep_view(),
            year: self.year as int,
        }
    }
}

/// One fatal validation failure.  Every load either yields a full record
/// or exactly one of these; nothing is recovered or retried.
#[derive(Debug, Clone, PartialEq, Eq)]
pub enum MetaError {
    /// The source text is not a well-formed TOML table; carries the
    /// parser's own message.
    DocumentParse(String),
    /// A required key is absent or holds the wrong kind of value.
    MissingRequiredField(String),
    /// An array under the key (first payload) holds an element that is
    /// not a string; the second payload is that element's rendered text.
    InvalidArrayElement(String, String),
    /// The country code is neither the fictional sentinel nor a known
    /// ISO-3166-1 alpha-2 code.
    InvalidCountryCode(String),
    /// The named field (first payload) does not parse as a semantic
    /// version; the second payload is the offending text.
    InvalidVersionString(String, String),
    /// The release date does not parse as a `YYYY-MM-DD` calendar date.
    InvalidDateString(String),
    /// The record could not be rendered as a TOML document.
    Serialization(String),
}

/// Mathematical counterpart of [`MetaError`].  The messages carried by
/// `DocumentParse` and `Serialization` come from the TOML parser and
/// serializer and are not modelled.
pub enum MetaErrorView {
    DocumentParse,
    MissingRequiredField(Seq<char>),
    InvalidArrayElement(Seq<char>, Seq<char>),
    InvalidCountryCode(Seq<char>),
    InvalidVersionString(Seq<char>, Seq<char>),
    InvalidDateString(Seq<char>),
    Serialization,
}

impl View for MetaError {
    type V = MetaErrorView;

    open spec fn view(&self) -> MetaErrorView {
        match self {
            MetaError::DocumentParse(_) => MetaErrorView::DocumentParse,
            MetaError::MissingRequiredField(k) => MetaErrorView::MissingRequiredField(k@),
            MetaError::InvalidArrayElement(k, v) => MetaErrorView::InvalidArrayElement(k@, v@),
            MetaError::InvalidCountryCode(c) => MetaErrorView::InvalidCountryCode(c@),
            MetaError::InvalidVersionString(f, v) => MetaErrorView::InvalidVersionString(f@, v@),
            MetaError::InvalidDateString(v) => MetaErrorView::InvalidDateString(v@),
            MetaError::Serialization(_) => MetaErrorView::Serialization,
        }
    }
}

impl MetaError {
    /// The descriptive text of the error, naming the offending key
    /// and/or value.
    pub open spec fn spec_message(&self) -> Seq<char> {
        match self {
            MetaError::DocumentParse(d) => "Failed to parse TOML document with error '"@ + d@
                + "'"@,
            MetaError::MissingRequiredField(k) => "Expected value for key '"@ + k@ + "'"@,
            MetaError::InvalidArrayElement(k, v) => "Failed to parse '"@ + v@ + "' in key '"@ + k@
                + "'"@,
            MetaError::InvalidCountryCode(c) => "Invalid country code '"@ + c@ + "'"@,
            MetaError::InvalidVersionString(f, v) => "Failed to parse '"@ + v@
                + "' as semantic versioning for key '"@ + f@ + "'"@,
            MetaError::InvalidDateString(v) => "Failed to parse release date '"@ + v@ + "'"@,
            MetaError::Serialization(d) => "Failed to serialize metadata object with error '"@ + d@
                + "'"@,
        }
    }

    /// A single descriptive message for the error, naming the offending
    /// key and/or value.
    pub fn message(&self) -> (r: String)
        ensures
            r@ == self.spec_message(),
    {
        match self {
            MetaError::DocumentParse(d) => {
                let mut s: String = "Failed to parse TOML document with error '".to_owned();
                s.append(d.as_str());
                s.append("'");
                s
            },
            MetaError::MissingRequiredField(k) => {
                let mut s: String = "Expected value for key '".to_owned();
                s.append(k.as_str());
                s.append("'");
                s
            },
            MetaError::InvalidArrayElement(k, v) => {
                let mut s: String = "Failed to parse '".to_owned();
                s.append(v.as_str());
                s.append("' in key '");
                s.append(k.as_str());
                s.append("'");
                s
            },
            MetaError::InvalidCountryCode(c) => {
                let mut s: String = "Invalid country code '".to_owned();
                s.append(c.as_str());
                s.append("'");
                s
            },
            MetaError::InvalidVersionString(f, v) => {
                let mut s: String = "Failed to parse '".to_owned();
                s.append(v.as_str());
                s.append("' as semantic versioning for key '");
                s.append(f.as_str());
                s.append("'");
                s
            },
            MetaError::InvalidDateString(v) => {
                let mut s: String = "Failed to parse release date '".to_owned();
                s.append(v.as_str());
                s.append("'");
                s
            },
            MetaError::Serialization(d) => {
                let mut s: String = "Failed to serialize metadata object with error '".to_owned();
                s.append(d.as_str());
                s.append("'");
                s
            },
        }
    }
}

/// The view of a loader result.
pub open spec fn load_result_view(r: Result<Metadata, MetaError>) -> Result<
    MetadataView,
    MetaErrorView,
> {
    match r {
        Ok(m) => Ok(m@),
        Err(e) => Err(e@),
    }
}

/// The string under `key`, or `None` where the key is absent or holds
/// another kind of value.
pub open spec fn str_field(doc: DocView, key: Seq<char>) -> Option<Seq<char>> {
    match lookup(doc, key) {
        Some(SpecValue::Str(s)) => Some(s),
        _ => None,
    }
}

/// The boolean under `key`, or `None` where absent or of another kind.
pub open spec fn bool_field(doc: DocView, key: Seq<char>) -> Option<bool> {
    match lookup(doc, key) {
        Some(SpecValue::Bool(b)) => Some(b),
        _ => None,
    }
}

/// The array under `key`, or `None` where absent or of another kind.
pub open spec fn arr_field(doc: DocView, key: Seq<char>) -> Option<Seq<SpecItem>> {
    match lookup(doc, key) {
        Some(SpecValue::Arr(items)) => Some(items),
        _ => None,
    }
}

/// The string under an optional `key`; absence, like a value of another
/// kind, yields the default.
pub open spec fn opt_str_field(doc: DocView, key: Seq<char>, dflt: Seq<char>) -> Seq<char> {
    match str_field(doc, key) {
        Some(s) => s,
        None => dflt,
    }
}

/// The array under an optional `key`; absence, like a value of another
/// kind, yields the empty sequence.
pub open spec fn opt_arr_field(doc: DocView, key: Seq<char>) -> Seq<SpecItem> {
    match arr_field(doc, key) {
        Some(items) => items,
        None => Seq::empty(),
    }
}

/// The integer under an optional `key`; absence, like a value of another
/// kind, yields the sentinel -1 ("unknown").
pub open spec fn opt_int_field(doc: DocView, key: Seq<char>) -> int {
    match lookup(doc, key) {
        Some(SpecValue::Int(i)) => i,
        _ => -1,
    }
}

/// What country-code validation yields: the code itself where it is the
/// fictional sentinel `FN` or a known ISO-3166-1 alpha-2 code, and the
/// error naming the code or the missing key otherwise.
pub open spec fn spec_country_code(doc: DocView) -> Result<Seq<char>, MetaErrorView> {
    match str_field(doc, "country_code"@) {
        None => Err(MetaErrorView::MissingRequiredField("country_code"@)),
        Some(cc) => if cc != "FN"@ && !is_iso3166_alpha2(cc) {
            Err(MetaErrorView::InvalidCountryCode(cc))
        } else {
            Ok(cc)
        },
    }
}

/// The last stage of a load: array elements are checked to be strings, in
/// the order the record's fields are assembled, and the record is built
/// from the validated and defaulted values.
pub open spec fn spec_assemble(
    doc: DocView,
    country_code: Seq<char>,
    name: Seq<char>,
    rly_file: Seq<char>,
    author: Seq<char>,
    factual: bool,
    version: Seq<char>,
    ttb: Seq<SpecItem>,
    docf: Seq<SpecItem>,
    img: Seq<SpecItem>,
    release_date: Seq<char>,
) -> Result<MetadataView, MetaErrorView> {
    let ssn = opt_arr_field(doc, "ssn_files"@);
    let graphic = opt_arr_field(doc, "graphic_files"@);
    let contributors = opt_arr_field(doc, "contributors"@);
    match first_other(ttb) {
        Some(t) => Err(MetaErrorView::InvalidArrayElement("ttb_files"@, t)),
        None => match first_other(docf) {
            Some(t) => Err(MetaErrorView::InvalidArrayElement("doc_files"@, t)),
            None => match first_other(ssn) {
                Some(t) => Err(MetaErrorView::InvalidArrayElement("ssn_files"@, t)),
                None => match first_other(graphic) {
                    Some(t) => Err(MetaErrorView::InvalidArrayElement("graphic_files"@, t)),
                    None => match first_other(img) {
                        Some(t) => Err(MetaErrorView::InvalidArrayElement("img_files"@, t)),
                        None => match first_other(contributors) {
                            Some(t) => Err(
                                MetaErrorView::InvalidArrayElement("contributors"@, t),
                            ),
                            None => Ok(
                                MetadataView {
                                    rly_file,
                                    ttb_files: string_items(ttb),
                                    doc_files: string_items(docf),
                                    ssn_files: string_items(ssn),
                                    img_files: string_items(img),
                                    graphic_files: string_items(graphic),
                                    release_date,
                                    version,
                                    minimum_required: opt_str_field(
                                        doc,
                                        "minimum_required"@,
                                        "0.1.0"@,
                                    ),
                                    country_code,
                                    factual,
                                    description: opt_str_field(doc, "description"@, ""@),
                                    display_name: opt_str_field(doc, "display_name"@, ""@),
                                    name,
                                    author,
                                    contributors: string_items(contributors),
                                    year: opt_int_field(doc, "year"@),
                                },
                            ),
                        },
                    },
                },
            },
        },
    }
}

/// What loading a document yields: the fully validated record, or the
/// first error in the loader's fixed order of checks — country code,
/// then the required scalars, the version strings, the required arrays,
/// the release date, and last the array elements.
pub open spec fn spec_load(doc: DocView) -> Result<MetadataView, MetaErrorView> {
    match spec_country_code(doc) {
        Err(e) => Err(e),
        Ok(country_code) => match str_field(doc, "name"@) {
            None => Err(MetaErrorView::MissingRequiredField("name"@)),
            Some(name) => match str_field(doc, "rly_file"@) {
                None => Err(MetaErrorView::MissingRequiredField("rly_file"@)),
                Some(rly_file) => match str_field(doc, "author"@) {
                    None => Err(MetaErrorView::MissingRequiredField("author"@)),
                    Some(author) => match bool_field(doc, "factual"@) {
                        None => Err(MetaErrorView::MissingRequiredField("factual"@)),
                        Some(factual) => match str_field(doc, "version"@) {
                            None => Err(MetaErrorView::MissingRequiredField("version"@)),
                            Some(version) => if !is_semver(version) {
                                Err(MetaErrorView::InvalidVersionString("version"@, version))
                            } else if !is_semver(
                                opt_str_field(doc, "minimum_required"@, "0.1.0"@),
                            ) {
                                Err(
                                    MetaErrorView::InvalidVersionString(
                                        "minimum_required"@,
                                        opt_str_field(doc, "minimum_required"@, "0.1.0"@),
                                    ),
                                )
                            } else {
                                match arr_field(doc, "ttb_files"@) {
                                    None => Err(
                                        MetaErrorView::MissingRequiredField("ttb_files"@),
                                    ),
                                    Some(ttb) => match arr_field(doc, "doc_files"@) {
                                        None => Err(
                                            MetaErrorView::MissingRequiredField("doc_files"@),
                                        ),
                                        Some(docf) => match arr_field(doc, "img_files"@) {
                                            None => Err(
                                                MetaErrorView::MissingRequiredField("img_files"@),
                                            ),
                                            Some(img) => match str_field(doc, "release_date"@) {
                                                None => Err(
                                                    MetaErrorView::MissingRequiredField(
                                                        "release_date"@,
                                                    ),
                                                ),
                                                Some(release_date) => if !is_ymd_date(
                                                    release_date,
                                                ) {
                                                    Err(
                                                        MetaErrorView::InvalidDateString(
                                                            release_date,
                                                        ),
                                                    )
                                                } else {
                                                    spec_assemble(
                                                        doc,
                                                        country_code,
                                                        name,
                                                        rly_file,
                                                        author,
                                                        factual,
                                                        version,
                                                        ttb,
                                                        docf,
                                                        img,
                                                        release_date,
                                                    )
                                                },
                                            },
                                        },
                                    },
                                }
                            },
                        },
                    },
                },
            },
        },
    }
}

/// Retrieves a required string field; absence or another kind of value is
/// the `MissingRequiredField` error.
fn required_string(doc: &Document, key: &str) -> (r: Result<String, MetaError>)
    ensures
        match r {
            Ok(s) => str_field(doc@, key@) == Some(s@),
            Err(e) => str_field(doc@, key@) is None && e@ == MetaErrorView::MissingRequiredField(
                key@,
            ),
        },
{
    match doc_get(doc, key) {
        Some(DocValue::Str(s)) => Ok(s.clone()),
        _ => Err(MetaError::MissingRequiredField(key.to_owned())),
    }
}

/// Retrieves a required boolean field.
fn required_bool(doc: &Document, key: &str) -> (r: Result<bool, MetaError>)
    ensures
        match r {
            Ok(b) => bool_field(doc@, key@) == Some(b),
            Err(e) => bool_field(doc@, key@) is None && e@ == MetaErrorView::MissingRequiredField(
                key@,
            ),
        },
{
    match doc_get(doc, key) {
        Some(DocValue::Bool(b)) => Ok(*b),
        _ => Err(MetaError::MissingRequiredField(key.to_owned())),
    }
}

/// Retrieves a required array field, leaving its elements unexamined.
fn required_items<'a>(doc: &'a Document, key: &str) -> (r: Result<&'a Vec<DocItem>, MetaError>)
    ensures
        match r {
            Ok(v) => arr_field(doc@, key@) == Some(items_view(v@)),
            Err(e) => arr_field(doc@, key@) is None && e@ == MetaErrorView::MissingRequiredField(
                key@,
            ),
        },
{
    match doc_get(doc, key) {
        Some(DocValue::Arr(items)) => Ok(items),
        _ => Err(MetaError::MissingRequiredField(key.to_owned())),
    }
}

/// Retrieves an optional array field; absence, like a value of another
/// kind, stands for the empty array.
fn optional_items<'a>(doc: &'a Document, key: &str) -> (r: Option<&'a Vec<DocItem>>)
    ensures
        match r {
            Some(v) => opt_arr_field(doc@, key@) == items_view(v@),
            None => opt_arr_field(doc@, key@) == Seq::<SpecItem>::empty(),
        },
{
    match doc_get(doc, key) {
        Some(DocValue::Arr(items)) => Some(items),
        _ => None,
    }
}

/// Retrieves an optional string field, substituting the default on
/// absence and, silently, on a value of another kind.
fn optional_string(doc: &Document, key: &str, dflt: &str) -> (r: String)
    ensures
        r@ == opt_str_field(doc@, key@, dflt@),
{
    match doc_get(doc, key) {
        Some(DocValue::Str(s)) => s.clone(),
        _ => dflt.to_owned(),
    }
}

/// Retrieves an optional integer field, substituting the sentinel -1 on
/// absence and on a value of another kind.
fn optional_int(doc: &Document, key: &str) -> (r: i64)
    ensures
        r as int == opt_int_field(doc@, key@),
{
    match doc_get(doc, key) {
        Some(DocValue::Int(i)) => *i,
        _ => -1,
    }
}

/// Converts the elements of one array field to strings; the first element
/// that is not a string is the `InvalidArrayElement` error, carrying the
/// field's key and that element's rendered text.
fn convert_items(key: &str, items: &Vec<DocItem>) -> (r: Result<Vec<String>, MetaError>)
    ensures
        match r {
            Ok(v) => first_other(items_view(items@)) is None && v.deep_view() == string_items(
                items_view(items@),
            ),
            Err(e) => first_other(items_view(items@)) matches Some(t) && e@
                == MetaErrorView::InvalidArrayElement(key@, t),
        },
{
    let ghost spec_items = items_view(items@);
    let mut out: Vec<String> = Vec::new();
    let n = items.len();
    let mut i: usize = 0;
    while i < n
        invariant
            n == items.len(),
            spec_items == items_view(items@),
            0 <= i <= n,
            first_other(spec_items) == first_other_from(spec_items, i as int),
            out.deep_view() == string_items(spec_items).take(i as int),
        decreases n - i,
    {
        proof {
            assert(spec_items[i as int] == items@[i as int]@);
        }
        match &items[i] {
            DocItem::Str(s) => {
                proof {
                    assert(out.deep_view().len() == i as int);
                    assert(out@.len() == i as int);
                }
                out.push(s.clone());
                proof {
                    assert(string_items(spec_items)[i as int] == s@);
                    assert(out.deep_view() =~= string_items(spec_items).take(i as int + 1));
                }
            },
            DocItem::Other(t) => {
                return Err(MetaError::InvalidArrayElement(key.to_owned(), t.clone()));
            },
        }
        i = i + 1;
    }
    proof {
        assert(out.deep_view() =~= string_items(spec_items));
    }
    Ok(out)
}

/// Converts the elements of an optional array field; an absent field is
/// the empty array.
fn convert_optional_items(
    key: &str,
    items: Option<&Vec<DocItem>>,
    Ghost(spec_items): Ghost<Seq<SpecItem>>,
) -> (r: Result<Vec<String>, MetaError>)
    requires
        match items {
            Some(v) => spec_items == items_view(v@),
            None => spec_items == Seq::<SpecItem>::empty(),
        },
    ensures
        match r {
            Ok(v) => first_other(spec_items) is None && v.deep_view() == string_items(spec_items),
            Err(e) => first_other(spec_items) matches Some(t) && e@
                == MetaErrorView::InvalidArrayElement(key@, t),
        },
{
    match items {
        Some(v) => convert_items(key, v),
        None => {
            let r: Vec<String> = Vec::new();
            proof {
                assert(r.deep_view() =~= string_items(spec_items));
            }
            Ok(r)
        },
    }
}

/// Validates the country code of a document: the fictional sentinel `FN`
/// passes unconditionally, any other value must be a known ISO-3166-1
/// alpha-2 code, and an absent or non-string value is a missing field.
pub fn retrieve_country_code(doc: &Document) -> (r: Result<String, MetaError>)
    ensures
        match r {
            Ok(s) => spec_country_code(doc@) == Ok::<Seq<char>, MetaErrorView>(s@),
            Err(e) => spec_country_code(doc@) == Err::<Seq<char>, MetaErrorView>(e@),
        },
{
    let code = match required_string(doc, "country_code") {
        Ok(s) => s,
        Err(e) => return Err(e),
    };
    let fictional: String = "FN".to_owned();
    if code == fictional {
        Ok(code)
    } else if iso3166_alpha2_known(code.as_str()) {
        Ok(code)
    } else {
        Err(MetaError::InvalidCountryCode(code))
    }
}

/// Validates a document, field by field, into a record: returns exactly
/// what [`spec_load`] says, the full record on success and the first
/// offending field's error otherwise.
pub fn load_from_doc(doc: &Document) -> (r: Result<Metadata, MetaError>)
    ensures
        load_result_view(r) == spec_load(doc@),
{
    let country_code = match retrieve_country_code(doc) {
        Ok(c) => c,
        Err(e) => return Err(e),
    };
    let name = match required_string(doc, "name") {
        Ok(v) => v,
        Err(e) => return Err(e),
    };
    let rly_file = match required_string(doc, "rly_file") {
        Ok(v) => v,
        Err(e) => return Err(e),
    };
    let author = match required_string(doc, "author") {
        Ok(v) => v,
        Err(e) => return Err(e),
    };
    let factual = match required_bool(doc, "factual") {
        Ok(v) => v,
        Err(e) => return Err(e),
    };
    let description = optional_string(doc, "description", "");
    let display_name = optional_string(doc, "display_name", "");
    let version = match required_string(doc, "version") {
        Ok(v) => v,
        Err(e) => return Err(e),
    };
    if !semver_valid(version.as_str()) {
        return Err(MetaError::InvalidVersionString("version".to_owned(), version));
    }
    let minimum_required = optional_string(doc, "minimum_required", "0.1.0");
    if !semver_valid(minimum_required.as_str()) {
        return Err(MetaError::InvalidVersionString("minimum_required".to_owned(), minimum_required));
    }
    let ttb_items = match required_items(doc, "ttb_files") {
        Ok(v) => v,
        Err(e) => return Err(e),
    };
    let doc_items = match required_items(doc, "doc_files") {
        Ok(v) => v,
        Err(e) => return Err(e),
    };
    let img_items = match required_items(doc, "img_files") {
        Ok(v) => v,
        Err(e) => return Err(e),
    };
    let contrib_items = optional_items(doc, "contributors");
    let ssn_items = optional_items(doc, "ssn_files");
    let graphic_items = optional_items(doc, "graphic_files");
    let year = optional_int(doc, "year");
    let release_date = match required_string(doc, "release_date") {
        Ok(v) => v,
        Err(e) => return Err(e),
    };
    if !ymd_date_valid(release_date.as_str()) {
        return Err(MetaError::InvalidDateString(release_date));
    }
    let ttb_files = match convert_items("ttb_files", ttb_items) {
        Ok(v) => v,
        Err(e) => return Err(e),
    };
    let doc_files = match convert_items("doc_files", doc_items) {
        Ok(v) => v,
        Err(e) => return Err(e),
    };
    let ssn_files = match convert_optional_items(
        "ssn_files",
        ssn_items,
        Ghost(opt_arr_field(doc@, "ssn_files"@)),
    ) {
        Ok(v) => v,
        Err(e) => return Err(e),
    };
    let graphic_files = match convert_optional_items(
        "graphic_files",
        graphic_items,
        Ghost(opt_arr_field(doc@, "graphic_files"@)),
    ) {
        Ok(v) => v,
        Err(e) => return Err(e),
    };
    let img_files = match convert_items("img_files", img_items) {
        Ok(v) => v,
        Err(e) => return Err(e),
    };
    let contributors = match convert_optional_items(
        "contributors",
        contrib_items,
        Ghost(opt_arr_field(doc@, "contributors"@)),
    ) {
        Ok(v) => v,
        Err(e) => return Err(e),
    };
    Ok(
        Metadata {
            rly_file,
            ttb_files,
            doc_files,
            ssn_files,
            img_files,
            graphic_files,
            release_date,
            version,
            minimum_required,
            country_code,
            factual,
            description,
            display_name,
            name,
            author,
            contributors,
            year,
        },
    )
}

/// Loads a record from TOML text: text that is not a well-formed TOML
/// table is the `DocumentParse` error, and any other outcome is exactly
/// what [`spec_load`] says of the parsed document.
pub fn load_metadata_str(text: &str) -> (r: Result<Metadata, MetaError>)
    ensures
        (!toml_table_wf(text@)) <==> (r matches Err(e) && e@ is DocumentParse),
        toml_table_wf(text@) ==> load_result_view(r) == spec_load(toml_doc_of(text@)),
{
    match parse_document(text) {
        Err(msg) => Err(MetaError::DocumentParse(msg)),
        Ok(doc) => {
            let r = load_from_doc(&doc);
            proof {
                lemma_spec_load_no_parse_error(doc@);
                assert(load_result_view(r) == spec_load(doc@));
            }
            r
        },
    }
}

/// A load that got past parsing never reports a parse error.
proof fn lemma_spec_load_no_parse_error(doc: DocView)
    ensures
        spec_load(doc) matches Err(e) ==> !(e is DocumentParse),
{
}

/// The array elements that stand for a sequence of strings.
pub open spec fn str_items(ss: Seq<Seq<char>>) -> Seq<SpecItem> {
    ss.map_values(|s: Seq<char>| SpecItem::Str(s))
}

/// The document that a record is written as: every field of the record,
/// under its key, the sequences of strings as arrays.  No field is
/// omitted, defaulted or sentinel values included.
pub open spec fn spec_doc_of(m: MetadataView) -> DocView {
    seq![
        ("name"@, SpecValue::Str(m.name)),
        ("display_name"@, SpecValue::Str(m.display_name)),
        ("description"@, SpecValue::Str(m.description)),
        ("author"@, SpecValue::Str(m.author)),
        ("contributors"@, SpecValue::Arr(str_items(m.contributors))),
        ("rly_file"@, SpecValue::Str(m.rly_file)),
        ("ttb_files"@, SpecValue::Arr(str_items(m.ttb_files))),
        ("doc_files"@, SpecValue::Arr(str_items(m.doc_files))),
        ("ssn_files"@, SpecValue::Arr(str_items(m.ssn_files))),
        ("img_files"@, SpecValue::Arr(str_items(m.img_files))),
        ("graphic_files"@, SpecValue::Arr(str_items(m.graphic_files))),
        ("release_date"@, SpecValue::Str(m.release_date)),
        ("version"@, SpecValue::Str(m.version)),
        ("minimum_required"@, SpecValue::Str(m.minimum_required)),
        ("country_code"@, SpecValue::Str(m.country_code)),
        ("factual"@, SpecValue::Bool(m.factual)),
        ("year"@, SpecValue::Int(m.year)),
    ]
}

/// Builds the array elements holding a sequence of strings.
fn items_of_strings(ss: &Vec<String>) -> (r: Vec<DocItem>)
    ensures
        items_view(r@) == str_items(ss.deep_view()),
{
    let mut out: Vec<DocItem> = Vec::new();
    let n = ss.len();
    let mut i: usize = 0;
    while i < n
        invariant
            n == ss.len(),
            0 <= i <= n,
            items_view(out@) == str_items(ss.deep_view()).take(i as int),
        decreases n - i,
    {
        proof {
            assert(items_view(out@).len() == i as int);
            assert(out@.len() == i as int);
        }
        out.push(DocItem::Str(ss[i].clone()));
        proof {
            assert(str_items(ss.deep_view())[i as int] == SpecItem::Str(ss.deep_view()[i as int]));
            assert(ss.deep_view()[i as int] == ss@[i as int]@);
            assert(items_view(out@) =~= str_items(ss.deep_view()).take(i as int + 1));
        }
        i = i + 1;
    }
    proof {
        assert(items_view(out@) =~= str_items(ss.deep_view()));
    }
    out
}

impl Metadata {
    /// Writes the record as a document: every field under its key, in the
    /// fixed order given by [`spec_doc_of`].
    pub fn to_document(&self) -> (d: Document)
        ensures
            d@ == spec_doc_of(self@),
    {
        let mut entries: Vec<(String, DocValue)> = Vec::new();
        entries.push(("name".to_owned(), DocValue::Str(self.name.clone())));
        entries.push(("display_name".to_owned(), DocValue::Str(self.display_name.clone())));
        entries.push(("description".to_owned(), DocValue::Str(self.description.clone())));
        entries.push(("author".to_owned(), DocValue::Str(self.author.clone())));
        entries.push(("contributors".to_owned(), DocValue::Arr(items_of_strings(&self.contributors))));
        entries.push(("rly_file".to_owned(), DocValue::Str(self.rly_file.clone())));
        entries.push(("ttb_files".to_owned(), DocValue::Arr(items_of_strings(&self.ttb_files))));
        entries.push(("doc_files".to_owned(), DocValue::Arr(items_of_strings(&self.doc_files))));
        entries.push(("ssn_files".to_owned(), DocValue::Arr(items_of_strings(&self.ssn_files))));
        entries.push(("img_files".to_owned(), DocValue::Arr(items_of_strings(&self.img_files))));
        entries.push(("graphic_files".to_owned(), DocValue::Arr(items_of_strings(&self.graphic_files))));
        entries.push(("release_date".to_owned(), DocValue::Str(self.release_date.clone())));
        entries.push(("version".to_owned(), DocValue::Str(self.version.clone())));
        entries.push(("minimum_required".to_owned(), DocValue::Str(self.minimum_required.clone())));
        entries.push(("country_code".to_owned(), DocValue::Str(self.country_code.clone())));
        entries.push(("factual".to_owned(), DocValue::Bool(self.factual)));
        entries.push(("year".to_owned(), DocValue::Int(self.year)));
        let d = Document { entries };
        proof {
            assert(d@ =~= spec_doc_of(self@));
        }
        d
    }

    /// Renders the record as TOML text, through [`Metadata::to_document`]
    /// and the TOML serializer: it succeeds exactly where the serializer
    /// renders the record's document, and a serializer failure is the
    /// `Serialization` error.
    pub fn to_toml_string(&self) -> (r: Result<String, MetaError>)
        ensures
            r is Ok <==> toml_renderable(spec_doc_of(self@)),
            r matches Ok(s) ==> s@ == toml_render(spec_doc_of(self@)),
            r matches Err(e) ==> e@ is Serialization,
    {
        let d = self.to_document();
        match render_document(&d) {
            Ok(s) => Ok(s),
            Err(msg) => Err(MetaError::Serialization(msg)),
        }
    }
}

} // verus!
