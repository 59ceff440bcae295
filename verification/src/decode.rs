//! Decoding of a parsed response body into the response model.
//!
//! The wire shape is a JSON object with one `results` array of sentence
//! objects; a sentence carries its translations as an array of arrays, and
//! uses the wire key `lang` for the language code and `dir` for the text
//! direction. Unknown fields at any level are ignored; a required field that
//! is missing or of the wrong type fails the whole decode with
//! [`Error::DecodingError`] — nothing is default-filled or salvaged.

use vstd::prelude::*;
use crate::error::Error;
use crate::json::{json_of, lookup, lookup_field, parse_json, JsonNode};
use crate::model::{
    SearchResult, SearchResultView, Sentence, SentenceView, Translation, TranslationView,
};

verus! {

/// The translation a sentence-object field list decodes to, if any.
pub open spec fn sp_translation_fields(fields: Seq<(String, JsonNode)>) -> Result<
    TranslationView,
    Error,
> {
    match (lookup(fields, "id"@), lookup(fields, "text"@), lookup(fields, "lang"@)) {
        (
            Option::Some(JsonNode::UInt(id)),
            Option::Some(JsonNode::Str(text)),
            Option::Some(JsonNode::Str(lang)),
        ) => {
            if id <= usize::MAX as u64 {
                Result::Ok(TranslationView { id: id as nat, text: text@, language: lang@ })
            } else {
                Result::Err(Error::DecodingError)
            }
        },
        _ => Result::Err(Error::DecodingError),
    }
}

/// The translation a JSON value decodes to, if any.
pub open spec fn sp_translation(n: JsonNode) -> Result<TranslationView, Error> {
    match n {
        JsonNode::Obj(fields) => sp_translation_fields(fields@),
        _ => Result::Err(Error::DecodingError),
    }
}

/// The translation group a JSON value decodes to, if any.
pub open spec fn sp_group(n: JsonNode) -> Result<Seq<TranslationView>, Error> {
    match n {
        JsonNode::Arr(items) => {
            if forall|i: int|
                0 <= i < items@.len() ==> (#[trigger] sp_translation(items@[i])) is Ok {
                Result::Ok(Seq::new(items@.len(), |i: int| sp_translation(items@[i])->Ok_0))
            } else {
                Result::Err(Error::DecodingError)
            }
        },
        _ => Result::Err(Error::DecodingError),
    }
}

/// The sequence of translation groups a JSON value decodes to, if any.
pub open spec fn sp_groups(n: JsonNode) -> Result<Seq<Seq<TranslationView>>, Error> {
    match n {
        JsonNode::Arr(items) => {
            if forall|i: int| 0 <= i < items@.len() ==> (#[trigger] sp_group(items@[i])) is Ok {
                Result::Ok(Seq::new(items@.len(), |i: int| sp_group(items@[i])->Ok_0))
            } else {
                Result::Err(Error::DecodingError)
            }
        },
        _ => Result::Err(Error::DecodingError),
    }
}

/// The sentence a sentence-object field list decodes to, if any.
pub open spec fn sp_sentence_fields(fields: Seq<(String, JsonNode)>) -> Result<
    SentenceView,
    Error,
> {
    match (
        lookup(fields, "id"@),
        lookup(fields, "text"@),
        lookup(fields, "lang"@),
        lookup(fields, "translations"@),
        lookup(fields, "lang_name"@),
        lookup(fields, "dir"@),
        lookup(fields, "is_owned_by_current_user"@),
        lookup(fields, "max_visible_translations"@),
    ) {
        (
            Option::Some(JsonNode::UInt(id)),
            Option::Some(JsonNode::Str(text)),
            Option::Some(JsonNode::Str(lang)),
            Option::Some(translations),
            Option::Some(JsonNode::Str(lang_name)),
            Option::Some(JsonNode::Str(dir)),
            Option::Some(JsonNode::Bool(owned)),
            Option::Some(JsonNode::UInt(mvt)),
        ) => {
            if id <= usize::MAX as u64 && mvt <= usize::MAX as u64 {
                match sp_groups(translations) {
                    Result::Ok(groups) => Result::Ok(
                        SentenceView {
                            id: id as nat,
                            text: text@,
                            language: lang@,
                            translations: groups,
                            lang_name: lang_name@,
                            direction: dir@,
                            is_owned_by_current_user: owned,
                            max_visible_translations: mvt as nat,
                        },
                    ),
                    Result::Err(e) => Result::Err(e),
                }
            } else {
                Result::Err(Error::DecodingError)
            }
        },
        _ => Result::Err(Error::DecodingError),
    }
}

/// The sentence a JSON value decodes to, if any.
pub open spec fn sp_sentence(n: JsonNode) -> Result<SentenceView, Error> {
    match n {
        JsonNode::Obj(fields) => sp_sentence_fields(fields@),
        _ => Result::Err(Error::DecodingError),
    }
}

/// The search result an envelope field list decodes to, if any.
pub open spec fn sp_search_result_fields(fields: Seq<(String, JsonNode)>) -> Result<
    SearchResultView,
    Error,
> {
    match lookup(fields, "results"@) {
        Option::Some(JsonNode::Arr(items)) => {
            if forall|i: int|
                0 <= i < items@.len() ==> (#[trigger] sp_sentence(items@[i])) is Ok {
                Result::Ok(
                    SearchResultView {
                        results: Seq::new(items@.len(), |i: int| sp_sentence(items@[i])->Ok_0),
                    },
                )
            } else {
                Result::Err(Error::DecodingError)
            }
        },
        _ => Result::Err(Error::DecodingError),
    }
}

/// The search result a JSON value decodes to, if any.
pub open spec fn sp_search_result(n: JsonNode) -> Result<SearchResultView, Error> {
    match n {
        JsonNode::Obj(fields) => sp_search_result_fields(fields@),
        _ => Result::Err(Error::DecodingError),
    }
}

/// The search result a response body decodes to, if any: text that is not
/// well-formed JSON is a decoding error, otherwise the parsed value decides.
pub open spec fn sp_response(s: Seq<char>) -> Result<SearchResultView, Error> {
    match json_of(s) {
        Option::None => Result::Err(Error::DecodingError),
        Option::Some(n) => sp_search_result(n),
    }
}

/// Decodes one translation object, per [`sp_translation`].
pub fn decode_translation(n: &JsonNode) -> (r: Result<Translation, Error>)
    ensures
        r is Ok <==> sp_translation(*n) is Ok,
        r is Ok ==> r->Ok_0@ == sp_translation(*n)->Ok_0,
        r is Err ==> r->Err_0 == sp_translation(*n)->Err_0,
{
    let fields = match n {
        JsonNode::Obj(fields) => fields,
        _ => {
            return Err(Error::DecodingError);
        },
    };
    let id: u64 = match lookup_field(fields, "id") {
        Some(JsonNode::UInt(v)) => *v,
        _ => {
            return Err(Error::DecodingError);
        },
    };
    let text: String = match lookup_field(fields, "text") {
        Some(JsonNode::Str(s)) => s.clone(),
        _ => {
            return Err(Error::DecodingError);
        },
    };
    let language: String = match lookup_field(fields, "lang") {
        Some(JsonNode::Str(s)) => s.clone(),
        _ => {
            return Err(Error::DecodingError);
        },
    };
    if id <= usize::MAX as u64 {
        Ok(Translation { id: id as usize, text, language })
    } else {
        Err(Error::DecodingError)
    }
}

/// Decodes one translation group (an array of translation objects),
/// per [`sp_group`].
pub fn decode_group(n: &JsonNode) -> (r: Result<Vec<Translation>, Error>)
    ensures
        r is Ok <==> sp_group(*n) is Ok,
        r is Ok ==> r->Ok_0.deep_view() == sp_group(*n)->Ok_0,
        r is Err ==> r->Err_0 == sp_group(*n)->Err_0,
{
    let items = match n {
        JsonNode::Arr(items) => items,
        _ => {
            return Err(Error::DecodingError);
        },
    };
    let mut out: Vec<Translation> = Vec::new();
    let len = items.len();
    for i in 0..len
        invariant
            *n == JsonNode::Arr(*items),
            len == items@.len(),
            out@.len() == i,
            forall|j: int|
                0 <= j < i ==> (#[trigger] sp_translation(items@[j])) is Ok && out@[j]@
                    == sp_translation(items@[j])->Ok_0,
    {
        match decode_translation(&items[i]) {
            Ok(t) => out.push(t),
            Err(e) => {
                proof {
                    let idx = i as int;
                    assert(!(sp_translation(items@[idx]) is Ok));
                    assert(!(forall|j: int|
                        0 <= j < items@.len() ==> (#[trigger] sp_translation(items@[j])) is Ok));
                    assert(sp_group(*n) is Err);
                    assert(sp_translation(items@[idx])->Err_0 == Error::DecodingError);
                    assert(sp_group(*n)->Err_0 == Error::DecodingError);
                }
                return Err(e);
            },
        }
    }
    proof {
        assert(out.deep_view() =~= sp_group(*n)->Ok_0);
    }
    Ok(out)
}

/// Decodes the `translations` value (an array of translation groups),
/// per [`sp_groups`].
pub fn decode_groups(n: &JsonNode) -> (r: Result<Vec<Vec<Translation>>, Error>)
    ensures
        r is Ok <==> sp_groups(*n) is Ok,
        r is Ok ==> r->Ok_0.deep_view() == sp_groups(*n)->Ok_0,
        r is Err ==> r->Err_0 == sp_groups(*n)->Err_0,
{
    let items = match n {
        JsonNode::Arr(items) => items,
        _ => {
            return Err(Error::DecodingError);
        },
    };
    let mut out: Vec<Vec<Translation>> = Vec::new();
    let len = items.len();
    for i in 0..len
        invariant
            *n == JsonNode::Arr(*items),
            len == items@.len(),
            out@.len() == i,
            forall|j: int|
                0 <= j < i ==> (#[trigger] sp_group(items@[j])) is Ok && out@[j].deep_view()
                    == sp_group(items@[j])->Ok_0,
    {
        match decode_group(&items[i]) {
            Ok(g) => out.push(g),
            Err(e) => {
                proof {
                    let idx = i as int;
                    assert(!(sp_group(items@[idx]) is Ok));
                    assert(!(forall|j: int|
                        0 <= j < items@.len() ==> (#[trigger] sp_group(items@[j])) is Ok));
                    assert(sp_groups(*n) is Err);
                    assert(sp_group(items@[idx])->Err_0 == Error::DecodingError);
                    assert(sp_groups(*n)->Err_0 == Error::DecodingError);
                }
                return Err(e);
            },
        }
    }
    proof {
        assert(out.deep_view() =~= sp_groups(*n)->Ok_0);
    }
    Ok(out)
}

/// Decodes one sentence object, per [`sp_sentence`].
pub fn decode_sentence(n: &JsonNode) -> (r: Result<Sentence, Error>)
    ensures
        r is Ok <==> sp_sentence(*n) is Ok,
        r is Ok ==> r->Ok_0@ == sp_sentence(*n)->Ok_0,
        r is Err ==> r->Err_0 == sp_sentence(*n)->Err_0,
{
    let fields = match n {
        JsonNode::Obj(fields) => fields,
        _ => {
            return Err(Error::DecodingError);
        },
    };
    let id: u64 = match lookup_field(fields, "id") {
        Some(JsonNode::UInt(v)) => *v,
        _ => {
            return Err(Error::DecodingError);
        },
    };
    let text: String = match lookup_field(fields, "text") {
        Some(JsonNode::Str(s)) => s.clone(),
        _ => {
            return Err(Error::DecodingError);
        },
    };
    let language: String = match lookup_field(fields, "lang") {
        Some(JsonNode::Str(s)) => s.clone(),
        _ => {
            return Err(Error::DecodingError);
        },
    };
    let translations_node = match lookup_field(fields, "translations") {
        Some(t) => t,
        None => {
            return Err(Error::DecodingError);
        },
    };
    let lang_name: String = match lookup_field(fields, "lang_name") {
        Some(JsonNode::Str(s)) => s.clone(),
        _ => {
            return Err(Error::DecodingError);
        },
    };
    let direction: String = match lookup_field(fields, "dir") {
        Some(JsonNode::Str(s)) => s.clone(),
        _ => {
            return Err(Error::DecodingError);
        },
    };
    let is_owned_by_current_user: bool = match lookup_field(fields, "is_owned_by_current_user") {
        Some(JsonNode::Bool(b)) => *b,
        _ => {
            return Err(Error::DecodingError);
        },
    };
    let mvt: u64 = match lookup_field(fields, "max_visible_translations") {
        Some(JsonNode::UInt(v)) => *v,
        _ => {
            return Err(Error::DecodingError);
        },
    };
    if !(id <= usize::MAX as u64 && mvt <= usize::MAX as u64) {
        return Err(Error::DecodingError);
    }
    let translations = match decode_groups(translations_node) {
        Ok(groups) => groups,
        Err(e) => {
            return Err(e);
        },
    };
    Ok(
        Sentence {
            id: id as usize,
            text,
            language,
            translations,
            lang_name,
            direction,
            is_owned_by_current_user,
            max_visible_translations: mvt as usize,
        },
    )
}

/// Decodes the whole response value, per [`sp_search_result`].
pub fn decode_search_result(n: &JsonNode) -> (r: Result<SearchResult, Error>)
    ensures
        r is Ok <==> sp_search_result(*n) is Ok,
        r is Ok ==> r->Ok_0@ == sp_search_result(*n)->Ok_0,
        r is Err ==> r->Err_0 == sp_search_result(*n)->Err_0,
{
    let fields = match n {
        JsonNode::Obj(fields) => fields,
        _ => {
            return Err(Error::DecodingError);
        },
    };
    let items = match lookup_field(fields, "results") {
        Some(JsonNode::Arr(items)) => items,
        _ => {
            return Err(Error::DecodingError);
        },
    };
    let mut out: Vec<Sentence> = Vec::new();
    let len = items.len();
    for i in 0..len
        invariant
            sp_search_result(*n) == sp_search_result_fields(fields@),
            lookup(fields@, "results"@) == Option::Some(JsonNode::Arr(*items)),
            len == items@.len(),
            out@.len() == i,
            forall|j: int|
                0 <= j < i ==> (#[trigger] sp_sentence(items@[j])) is Ok && out@[j]@
                    == sp_sentence(items@[j])->Ok_0,
    {
        match decode_sentence(&items[i]) {
            Ok(s) => out.push(s),
            Err(e) => {
                proof {
                    let idx = i as int;
                    assert(!(sp_sentence(items@[idx]) is Ok));
                    assert(!(forall|j: int|
                        0 <= j < items@.len() ==> (#[trigger] sp_sentence(items@[j])) is Ok));
                    assert(sp_search_result(*n) is Err);
                    assert(sp_sentence(items@[idx])->Err_0 == Error::DecodingError);
                    assert(sp_search_result(*n)->Err_0 == Error::DecodingError);
                }
                return Err(e);
            },
        }
    }
    proof {
        assert(out.deep_view() =~= sp_search_result(*n)->Ok_0.results);
    }
    Ok(SearchResult { results: out })
}

/// Decodes a response body, per [`sp_response`]: parses the text as JSON and
/// decodes the parsed value.
pub fn decode_response(body: &str) -> (r: Result<SearchResult, Error>)
    ensures
        r is Ok <==> sp_response(body@) is Ok,
        r is Ok ==> r->Ok_0@ == sp_response(body@)->Ok_0,
        r is Err ==> r->Err_0 == sp_response(body@)->Err_0,
{
    match parse_json(body) {
        None => Err(Error::DecodingError),
        Some(node) => decode_search_result(&node),
    }
}

/// A field named after none of the keys a sentence object uses is ignored:
/// appending it changes nothing about what the field list decodes to.
pub proof fn lemma_sentence_ignores_unknown_field(
    fields: Seq<(String, JsonNode)>,
    extra: (String, JsonNode),
)
    requires
        extra.0@ != "id"@,
        extra.0@ != "text"@,
        extra.0@ != "lang"@,
        extra.0@ != "translations"@,
        extra.0@ != "lang_name"@,
        extra.0@ != "dir"@,
        extra.0@ != "is_owned_by_current_user"@,
        extra.0@ != "max_visible_translations"@,
    ensures
        sp_sentence_fields(fields.push(extra)) == sp_sentence_fields(fields),
{
    lemma_lookup_push(fields, extra, "id"@);
    lemma_lookup_push(fields, extra, "text"@);
    lemma_lookup_push(fields, extra, "lang"@);
    lemma_lookup_push(fields, extra, "translations"@);
    lemma_lookup_push(fields, extra, "lang_name"@);
    lemma_lookup_push(fields, extra, "dir"@);
    lemma_lookup_push(fields, extra, "is_owned_by_current_user"@);
    lemma_lookup_push(fields, extra, "max_visible_translations"@);
}

/// A field named other than `results` is ignored at the top level of the
/// response: appending it changes nothing about what the envelope decodes to.
pub proof fn lemma_envelope_ignores_unknown_field(
    fields: Seq<(String, JsonNode)>,
    extra: (String, JsonNode),
)
    requires
        extra.0@ != "results"@,
    ensures
        sp_search_result_fields(fields.push(extra)) == sp_search_result_fields(fields),
{
    lemma_lookup_push(fields, extra, "results"@);
}

/// Appending a field with a different name leaves a lookup unchanged.
pub proof fn lemma_lookup_push(
    fields: Seq<(String, JsonNode)>,
    extra: (String, JsonNode),
    key: Seq<char>,
)
    requires
        extra.0@ != key,
    ensures
        lookup(fields.push(extra), key) == lookup(fields, key),
    decreases fields.len(),
{
    if fields.len() == 0 {
        assert(fields.push(extra)[0] == extra);
        assert(fields.push(extra).drop_first() =~= fields);
    } else {
        assert(fields.push(extra)[0] == fields[0]);
        assert(fields.push(extra).drop_first() =~= fields.drop_first().push(extra));
        lemma_lookup_push(fields.drop_first(), extra, key);
    }
}

/// A sentence object missing any of its required fields decodes to
/// [`Error::DecodingError`]; no field is ever default-filled.
pub proof fn lemma_missing_field_rejected(fields: Seq<(String, JsonNode)>)
    ensures
        (lookup(fields, "id"@) is None || lookup(fields, "text"@) is None || lookup(
            fields,
            "lang"@,
        ) is None || lookup(fields, "translations"@) is None || lookup(fields, "lang_name"@)
            is None || lookup(fields, "dir"@) is None || lookup(
            fields,
            "is_owned_by_current_user"@,
        ) is None || lookup(fields, "max_visible_translations"@) is None)
            ==> sp_sentence_fields(fields) == Result::<SentenceView, Error>::Err(
            Error::DecodingError,
        ),
{
}

} // verus!
