//! The laws the loader and writer obey, each stated over [`spec_load`]
//! and proved once and for all.
//!
//! [`spec_load`]: crate::metadata::spec_load

use vstd::prelude::*;
use crate::document::{
    DocView, SpecItem, SpecValue, first_other, first_other_from, item_text, lookup, lookup_from,
    string_items,
};
use crate::metadata::{
    MetaErrorView, MetadataView, arr_field, bool_field, is_iso3166_alpha2, is_semver, is_ymd_date,
    opt_arr_field, opt_int_field, opt_str_field, spec_country_code, spec_doc_of, spec_load,
    str_field, str_items,
};

verus! {

/// A document on which every check of the loader passes: each required
/// field is present with the right kind of value, the country code,
/// version strings and release date validate, and every array element is
/// a string.
pub open spec fn loadable(doc: DocView) -> bool {
    &&& spec_country_code(doc) is Ok
    &&& str_field(doc, "name"@) is Some
    &&& str_field(doc, "rly_file"@) is Some
    &&& str_field(doc, "author"@) is Some
    &&& bool_field(doc, "factual"@) is Some
    &&& str_field(doc, "version"@) matches Some(v) && is_semver(v)
    &&& is_semver(opt_str_field(doc, "minimum_required"@, "0.1.0"@))
    &&& arr_field(doc, "ttb_files"@) is Some
    &&& arr_field(doc, "doc_files"@) is Some
    &&& arr_field(doc, "img_files"@) is Some
    &&& str_field(doc, "release_date"@) matches Some(d) && is_ymd_date(d)
    &&& first_other(opt_arr_field(doc, "ttb_files"@)) is None
    &&& first_other(opt_arr_field(doc, "doc_files"@)) is None
    &&& first_other(opt_arr_field(doc, "ssn_files"@)) is None
    &&& first_other(opt_arr_field(doc, "graphic_files"@)) is None
    &&& first_other(opt_arr_field(doc, "img_files"@)) is None
    &&& first_other(opt_arr_field(doc, "contributors"@)) is None
}

/// Every document on which each check passes loads, and every field of
/// the record equals the document's value — verbatim for the version and
/// date strings — or the documented default where an optional field is
/// absent or of the wrong kind.
pub proof fn law_valid_document_loads(doc: DocView)
    requires
        loadable(doc),
    ensures
        spec_load(doc) == Ok::<MetadataView, MetaErrorView>(
            MetadataView {
                rly_file: str_field(doc, "rly_file"@)->0,
                ttb_files: string_items(opt_arr_field(doc, "ttb_files"@)),
                doc_files: string_items(opt_arr_field(doc, "doc_files"@)),
                ssn_files: string_items(opt_arr_field(doc, "ssn_files"@)),
                img_files: string_items(opt_arr_field(doc, "img_files"@)),
                graphic_files: string_items(opt_arr_field(doc, "graphic_files"@)),
                release_date: str_field(doc, "release_date"@)->0,
                version: str_field(doc, "version"@)->0,
                minimum_required: opt_str_field(doc, "minimum_required"@, "0.1.0"@),
                country_code: str_field(doc, "country_code"@)->0,
                factual: bool_field(doc, "factual"@)->0,
                description: opt_str_field(doc, "description"@, ""@),
                display_name: opt_str_field(doc, "display_name"@, ""@),
                name: str_field(doc, "name"@)->0,
                author: str_field(doc, "author"@)->0,
                contributors: string_items(opt_arr_field(doc, "contributors"@)),
                year: opt_int_field(doc, "year"@),
            },
        ),
{
}

/// The required keys of a document.
pub open spec fn required_key(key: Seq<char>) -> bool {
    ||| key == "name"@
    ||| key == "rly_file"@
    ||| key == "author"@
    ||| key == "factual"@
    ||| key == "version"@
    ||| key == "release_date"@
    ||| key == "country_code"@
    ||| key == "ttb_files"@
    ||| key == "doc_files"@
    ||| key == "img_files"@
}

/// Whether a required field is absent or holds the wrong kind of value.
pub open spec fn required_field_bad(doc: DocView, key: Seq<char>) -> bool {
    if key == "factual"@ {
        bool_field(doc, key) is None
    } else if key == "ttb_files"@ || key == "doc_files"@ || key == "img_files"@ {
        arr_field(doc, key) is None
    } else {
        str_field(doc, key) is None
    }
}

/// The required keys are pairwise distinct where the dispatch of
/// [`required_field_bad`] compares them.
proof fn lemma_required_keys_distinct()
    ensures
        "name"@ != "factual"@ && "name"@ != "ttb_files"@ && "name"@ != "doc_files"@ && "name"@
            != "img_files"@,
        "rly_file"@ != "factual"@ && "rly_file"@ != "ttb_files"@ && "rly_file"@ != "doc_files"@
            && "rly_file"@ != "img_files"@,
        "author"@ != "factual"@ && "author"@ != "ttb_files"@ && "author"@ != "doc_files"@
            && "author"@ != "img_files"@,
        "version"@ != "factual"@ && "version"@ != "ttb_files"@ && "version"@ != "doc_files"@
            && "version"@ != "img_files"@,
        "release_date"@ != "factual"@ && "release_date"@ != "ttb_files"@ && "release_date"@
            != "doc_files"@ && "release_date"@ != "img_files"@,
        "country_code"@ != "factual"@ && "country_code"@ != "ttb_files"@ && "country_code"@
            != "doc_files"@ && "country_code"@ != "img_files"@,
        "factual"@ != "ttb_files"@ && "factual"@ != "doc_files"@ && "factual"@ != "img_files"@,
        "ttb_files"@ != "doc_files"@ && "ttb_files"@ != "img_files"@ && "doc_files"@
            != "img_files"@,
{
    reveal_strlit("name");
    reveal_strlit("rly_file");
    reveal_strlit("author");
    reveal_strlit("factual");
    reveal_strlit("version");
    reveal_strlit("release_date");
    reveal_strlit("country_code");
    reveal_strlit("ttb_files");
    reveal_strlit("doc_files");
    reveal_strlit("img_files");
    assert("name"@.len() == 4);
    assert("rly_file"@.len() == 8);
    assert("author"@.len() == 6);
    assert("factual"@.len() == 7);
    assert("version"@.len() == 7);
    assert("release_date"@.len() == 12);
    assert("country_code"@.len() == 12);
    assert("ttb_files"@.len() == 9);
    assert("doc_files"@.len() == 9);
    assert("img_files"@.len() == 9);
    assert("version"@[0] != "factual"@[0]);
    assert("ttb_files"@[0] != "doc_files"@[0]);
    assert("ttb_files"@[0] != "img_files"@[0]);
    assert("doc_files"@[0] != "img_files"@[0]);
}

/// A document whose one fault is a missing (or wrongly typed) required
/// field fails with `MissingRequiredField` naming exactly that key.
/// Where several required fields are missing at once, the loader still
/// fails, but it names the first in its fixed order of checks.
pub proof fn law_missing_required_field(doc: DocView, key: Seq<char>)
    requires
        required_key(key),
        required_field_bad(doc, key),
        forall|k: Seq<char>| required_key(k) && k != key ==> !(#[trigger] required_field_bad(
            doc,
            k,
        )),
        str_field(doc, "country_code"@) matches Some(cc) ==> cc == "FN"@ || is_iso3166_alpha2(cc),
        str_field(doc, "version"@) matches Some(v) ==> is_semver(v),
        is_semver(opt_str_field(doc, "minimum_required"@, "0.1.0"@)),
        str_field(doc, "release_date"@) matches Some(d) ==> is_ymd_date(d),
    ensures
        spec_load(doc) == Err::<MetadataView, MetaErrorView>(
            MetaErrorView::MissingRequiredField(key),
        ),
{
    lemma_required_keys_distinct();
    assert(key != "name"@ ==> !required_field_bad(doc, "name"@));
    assert(key != "rly_file"@ ==> !required_field_bad(doc, "rly_file"@));
    assert(key != "author"@ ==> !required_field_bad(doc, "author"@));
    assert(key != "factual"@ ==> !required_field_bad(doc, "factual"@));
    assert(key != "version"@ ==> !required_field_bad(doc, "version"@));
    assert(key != "release_date"@ ==> !required_field_bad(doc, "release_date"@));
    assert(key != "country_code"@ ==> !required_field_bad(doc, "country_code"@));
    assert(key != "ttb_files"@ ==> !required_field_bad(doc, "ttb_files"@));
    assert(key != "doc_files"@ ==> !required_field_bad(doc, "doc_files"@));
    assert(key != "img_files"@ ==> !required_field_bad(doc, "img_files"@));
}

/// Every record a load produces has each required field present in the
/// document: a missing required field never yields a record.
pub proof fn law_missing_required_never_loads(doc: DocView, key: Seq<char>)
    requires
        required_key(key),
        required_field_bad(doc, key),
    ensures
        spec_load(doc) is Err,
{
    lemma_required_keys_distinct();
}

/// A document that omits an optional scalar loads to its documented
/// default: the empty string for the description and the display name,
/// `0.1.0` for the minimum required version.
pub proof fn law_omitted_optionals_default(doc: DocView)
    requires
        loadable(doc),
    ensures
        spec_load(doc) matches Ok(m) && {
            &&& lookup(doc, "description"@) is None ==> m.description == ""@
            &&& lookup(doc, "display_name"@) is None ==> m.display_name == ""@
            &&& lookup(doc, "minimum_required"@) is None ==> m.minimum_required == "0.1.0"@
        },
{
    law_valid_document_loads(doc);
}

/// A document that omits an optional array loads it as the empty
/// sequence.
pub proof fn law_omitted_lists_empty(doc: DocView)
    requires
        loadable(doc),
    ensures
        spec_load(doc) matches Ok(m) && {
            &&& lookup(doc, "contributors"@) is None ==> m.contributors
                == Seq::<Seq<char>>::empty()
            &&& lookup(doc, "ssn_files"@) is None ==> m.ssn_files == Seq::<Seq<char>>::empty()
            &&& lookup(doc, "graphic_files"@) is None ==> m.graphic_files == Seq::<
                Seq<char>,
            >::empty()
        },
{
    law_valid_document_loads(doc);
    assert(string_items(Seq::<SpecItem>::empty()) =~= Seq::<Seq<char>>::empty());
}

/// The fictional sentinel country code passes validation whatever the
/// ISO-3166 table holds: no load of such a document ever reports an
/// invalid country code.
pub proof fn law_fictional_country_code(doc: DocView)
    requires
        str_field(doc, "country_code"@) == Some("FN"@),
    ensures
        !(spec_load(doc) matches Err(e) && e is InvalidCountryCode),
{
}

/// A country code that is neither the sentinel nor in the ISO-3166 table
/// fails with `InvalidCountryCode` naming the code, whatever else the
/// document holds.
pub proof fn law_unknown_country_code(doc: DocView, cc: Seq<char>)
    requires
        str_field(doc, "country_code"@) == Some(cc),
        cc != "FN"@,
        !is_iso3166_alpha2(cc),
    ensures
        spec_load(doc) == Err::<MetadataView, MetaErrorView>(MetaErrorView::InvalidCountryCode(cc)),
{
}

/// A version string that is not a semantic version fails with
/// `InvalidVersionString` naming the field and the string, in any
/// document whose earlier checks pass.
pub proof fn law_invalid_version(doc: DocView, v: Seq<char>)
    requires
        spec_country_code(doc) is Ok,
        str_field(doc, "name"@) is Some,
        str_field(doc, "rly_file"@) is Some,
        str_field(doc, "author"@) is Some,
        bool_field(doc, "factual"@) is Some,
        str_field(doc, "version"@) == Some(v),
        !is_semver(v),
    ensures
        spec_load(doc) == Err::<MetadataView, MetaErrorView>(
            MetaErrorView::InvalidVersionString("version"@, v),
        ),
{
}

/// A release date that is not a `YYYY-MM-DD` calendar date fails with
/// `InvalidDateString` naming the string, in any document whose earlier
/// checks pass.
pub proof fn law_invalid_date(doc: DocView, d: Seq<char>)
    requires
        spec_country_code(doc) is Ok,
        str_field(doc, "name"@) is Some,
        str_field(doc, "rly_file"@) is Some,
        str_field(doc, "author"@) is Some,
        bool_field(doc, "factual"@) is Some,
        str_field(doc, "version"@) matches Some(v) && is_semver(v),
        is_semver(opt_str_field(doc, "minimum_required"@, "0.1.0"@)),
        arr_field(doc, "ttb_files"@) is Some,
        arr_field(doc, "doc_files"@) is Some,
        arr_field(doc, "img_files"@) is Some,
        str_field(doc, "release_date"@) == Some(d),
        !is_ymd_date(d),
    ensures
        spec_load(doc) == Err::<MetadataView, MetaErrorView>(MetaErrorView::InvalidDateString(d)),
{
}

/// The elements that stand for strings are all strings, and hold exactly
/// those strings.
proof fn lemma_str_items_round_trip(ss: Seq<Seq<char>>)
    ensures
        first_other(str_items(ss)) is None,
        string_items(str_items(ss)) == ss,
{
    lemma_no_other_from(ss, 0);
    assert forall|j: int| 0 <= j < ss.len() implies string_items(str_items(ss))[j] == ss[j] by {
        assert(str_items(ss)[j] == SpecItem::Str(ss[j]));
        assert(string_items(str_items(ss))[j] == item_text(str_items(ss)[j]));
    }
    assert(string_items(str_items(ss)) =~= ss);
}

proof fn lemma_no_other_from(ss: Seq<Seq<char>>, i: int)
    requires
        0 <= i <= ss.len(),
    ensures
        first_other_from(str_items(ss), i) is None,
    decreases ss.len() - i,
{
    if i < ss.len() {
        assert(str_items(ss)[i] == SpecItem::Str(ss[i]));
        lemma_no_other_from(ss, i + 1);
    }
}

/// Looking each key up in a written document finds the field it was
/// written from.
#[verifier::rlimit(100)]
proof fn lemma_doc_of_lookups(m: MetadataView)
    ensures
        lookup(spec_doc_of(m), "name"@) == Some(SpecValue::Str(m.name)),
        lookup(spec_doc_of(m), "display_name"@) == Some(SpecValue::Str(m.display_name)),
        lookup(spec_doc_of(m), "description"@) == Some(SpecValue::Str(m.description)),
        lookup(spec_doc_of(m), "author"@) == Some(SpecValue::Str(m.author)),
        lookup(spec_doc_of(m), "contributors"@) == Some(SpecValue::Arr(str_items(m.contributors))),
        lookup(spec_doc_of(m), "rly_file"@) == Some(SpecValue::Str(m.rly_file)),
        lookup(spec_doc_of(m), "ttb_files"@) == Some(SpecValue::Arr(str_items(m.ttb_files))),
        lookup(spec_doc_of(m), "doc_files"@) == Some(SpecValue::Arr(str_items(m.doc_files))),
        lookup(spec_doc_of(m), "ssn_files"@) == Some(SpecValue::Arr(str_items(m.ssn_files))),
        lookup(spec_doc_of(m), "img_files"@) == Some(SpecValue::Arr(str_items(m.img_files))),
        lookup(spec_doc_of(m), "graphic_files"@) == Some(
            SpecValue::Arr(str_items(m.graphic_files)),
        ),
        lookup(spec_doc_of(m), "release_date"@) == Some(SpecValue::Str(m.release_date)),
        lookup(spec_doc_of(m), "version"@) == Some(SpecValue::Str(m.version)),
        lookup(spec_doc_of(m), "minimum_required"@) == Some(SpecValue::Str(m.minimum_required)),
        lookup(spec_doc_of(m), "country_code"@) == Some(SpecValue::Str(m.country_code)),
        lookup(spec_doc_of(m), "factual"@) == Some(SpecValue::Bool(m.factual)),
        lookup(spec_doc_of(m), "year"@) == Some(SpecValue::Int(m.year)),
{
    reveal_strlit("name");
    reveal_strlit("display_name");
    reveal_strlit("description");
    reveal_strlit("author");
    reveal_strlit("contributors");
    reveal_strlit("rly_file");
    reveal_strlit("ttb_files");
    reveal_strlit("doc_files");
    reveal_strlit("ssn_files");
    reveal_strlit("img_files");
    reveal_strlit("graphic_files");
    reveal_strlit("release_date");
    reveal_strlit("version");
    reveal_strlit("minimum_required");
    reveal_strlit("country_code");
    reveal_strlit("factual");
    reveal_strlit("year");
    assert("name"@.len() == 4);
    assert("display_name"@.len() == 12);
    assert("description"@.len() == 11);
    assert("author"@.len() == 6);
    assert("contributors"@.len() == 12);
    assert("rly_file"@.len() == 8);
    assert("ttb_files"@.len() == 9);
    assert("doc_files"@.len() == 9);
    assert("ssn_files"@.len() == 9);
    assert("img_files"@.len() == 9);
    assert("graphic_files"@.len() == 13);
    assert("release_date"@.len() == 12);
    assert("version"@.len() == 7);
    assert("minimum_required"@.len() == 16);
    assert("country_code"@.len() == 12);
    assert("factual"@.len() == 7);
    assert("year"@.len() == 4);
    assert("name"@[0] != "year"@[0]);
    assert("version"@[0] != "factual"@[0]);
    assert("ttb_files"@[0] != "doc_files"@[0]);
    assert("ttb_files"@[0] != "ssn_files"@[0]);
    assert("ttb_files"@[0] != "img_files"@[0]);
    assert("doc_files"@[0] != "ssn_files"@[0]);
    assert("doc_files"@[0] != "img_files"@[0]);
    assert("ssn_files"@[0] != "img_files"@[0]);
    assert("display_name"@[0] != "contributors"@[0]);
    assert("display_name"@[0] != "release_date"@[0]);
    assert("display_name"@[0] != "country_code"@[0]);
    assert("contributors"@[0] != "release_date"@[0]);
    assert("contributors"@[2] != "country_code"@[2]);
    assert("release_date"@[0] != "country_code"@[0]);
    reveal_with_fuel(lookup_from, 19);
    let doc = spec_doc_of(m);
    assert(lookup(doc, "name"@) == Some(SpecValue::Str(m.name)));
    assert(lookup(doc, "display_name"@) == Some(SpecValue::Str(m.display_name)));
    assert(lookup(doc, "description"@) == Some(SpecValue::Str(m.description)));
    assert(lookup(doc, "author"@) == Some(SpecValue::Str(m.author)));
    assert(lookup(doc, "contributors"@) == Some(SpecValue::Arr(str_items(m.contributors))));
    assert(lookup(doc, "rly_file"@) == Some(SpecValue::Str(m.rly_file)));
    assert(lookup(doc, "ttb_files"@) == Some(SpecValue::Arr(str_items(m.ttb_files))));
    assert(lookup(doc, "doc_files"@) == Some(SpecValue::Arr(str_items(m.doc_files))));
    assert(lookup(doc, "ssn_files"@) == Some(SpecValue::Arr(str_items(m.ssn_files))));
    assert(lookup(doc, "img_files"@) == Some(SpecValue::Arr(str_items(m.img_files))));
    assert(lookup(doc, "graphic_files"@) == Some(SpecValue::Arr(str_items(m.graphic_files))));
    assert(lookup(doc, "release_date"@) == Some(SpecValue::Str(m.release_date)));
    assert(lookup(doc, "version"@) == Some(SpecValue::Str(m.version)));
    assert(lookup(doc, "minimum_required"@) == Some(SpecValue::Str(m.minimum_required)));
    assert(lookup(doc, "country_code"@) == Some(SpecValue::Str(m.country_code)));
    assert(lookup(doc, "factual"@) == Some(SpecValue::Bool(m.factual)));
    assert(lookup(doc, "year"@) == Some(SpecValue::Int(m.year)));
}

/// Writing any record whose version strings, release date and country
/// code validate, then loading the written document, yields the record
/// back, field for field: the writer and the loader agree on the format.
#[verifier::rlimit(100)]
pub proof fn law_write_load_round_trip(m: MetadataView)
    requires
        m.country_code == "FN"@ || is_iso3166_alpha2(m.country_code),
        is_semver(m.version),
        is_semver(m.minimum_required),
        is_ymd_date(m.release_date),
    ensures
        spec_load(spec_doc_of(m)) == Ok::<MetadataView, MetaErrorView>(m),
{
    lemma_doc_of_lookups(m);
    lemma_str_items_round_trip(m.contributors);
    lemma_str_items_round_trip(m.ttb_files);
    lemma_str_items_round_trip(m.doc_files);
    lemma_str_items_round_trip(m.ssn_files);
    lemma_str_items_round_trip(m.img_files);
    lemma_str_items_round_trip(m.graphic_files);
}

} // verus!
