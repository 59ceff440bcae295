//! Search parameters for the sentence lookup service.

use vstd::prelude::*;

verus! {

/// The parameters of one search request.
///
/// Optional fields that are `None` are omitted from the encoded query string
/// entirely; they are never sent as empty values.
pub struct SearchOptions {
    /// Source language code (sent as the `from` parameter).
    pub language: String,
    /// Optional target language filter (sent as the `to` parameter).
    pub translated_language: Option<String>,
    /// Optional audio filter (sent as the `has_audio` parameter).
    pub has_audio: Option<bool>,
    /// Free-text search string (sent as the `query` parameter).
    pub query: String,
    /// Translation filtering mode (sent as the `trans_filter` parameter).
    pub trans_filter: String,
}

/// The mathematical content of a [`SearchOptions`] value.
#[verifier::ext_equal]
pub ghost struct SearchOptionsView {
    pub language: Seq<char>,
    pub translated_language: Option<Seq<char>>,
    pub has_audio: Option<bool>,
    pub query: Seq<char>,
    pub trans_filter: Seq<char>,
}

impl View for SearchOptions {
    type V = SearchOptionsView;

    open spec fn view(&self) -> SearchOptionsView {
        SearchOptionsView {
            language: self.language@,
            translated_language: match self.translated_language {
                Option::Some(ref t) => Option::Some(t@),
                Option::None => Option::None,
            },
            has_audio: self.has_audio,
            query: self.query@,
            trans_filter: self.trans_filter@,
        }
    }
}

impl SearchOptions {
    /// Builds options for `query` in source language `language`, with the
    /// default target-language filter `"eng"`, no audio filter, and the
    /// default translation filtering mode `"limit"`.
    pub fn new(query: &str, language: &str) -> (r: SearchOptions)
        ensures
            r@.language == language@,
            r@.translated_language == Option::Some("eng"@),
            r@.has_audio == Option::<bool>::None,
            r@.query == query@,
            r@.trans_filter == "limit"@,
    {
        SearchOptions {
            language: language.to_owned(),
            translated_language: Some("eng".to_owned()),
            has_audio: None,
            query: query.to_owned(),
            trans_filter: "limit".to_owned(),
        }
    }

    /// Replaces the target-language filter, leaving every other field as it was.
    pub fn translated_language(self, language: &str) -> (r: SearchOptions)
        ensures
            r@.language == self@.language,
            r@.translated_language == Option::Some(language@),
            r@.has_audio == self@.has_audio,
            r@.query == self@.query,
            r@.trans_filter == self@.trans_filter,
    {
        SearchOptions { translated_language: Some(language.to_owned()), ..self }
    }
}

} // verus!
