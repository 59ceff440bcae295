//! The response data model: sentences and their translations, exactly as the
//! service reports them. Values are only ever constructed by decoding a
//! response body (or by a caller for its own purposes); nothing mutates them.

use vstd::prelude::*;

verus! {

/// A translated sentence, as one element of a translation group.
#[derive(Debug, Clone)]
pub struct Translation {
    /// Identifier assigned by the remote service.
    pub id: usize,
    /// The translated sentence text.
    pub text: String,
    /// Language code of the translation.
    pub language: String,
}

/// The mathematical content of a [`Translation`].
#[verifier::ext_equal]
pub ghost struct TranslationView {
    pub id: nat,
    pub text: Seq<char>,
    pub language: Seq<char>,
}

impl View for Translation {
    type V = TranslationView;

    open spec fn view(&self) -> TranslationView {
        TranslationView { id: self.id as nat, text: self.text@, language: self.language@ }
    }
}

impl DeepView for Translation {
    type V = TranslationView;

    open spec fn deep_view(&self) -> TranslationView {
        self.view()
    }
}

/// One sentence record returned by the search, with its translations grouped
/// as the service groups them; order within and across groups is preserved
/// as received.
#[derive(Debug, Clone)]
pub struct Sentence {
    /// Identifier assigned by the remote service.
    pub id: usize,
    /// The sentence text.
    pub text: String,
    /// Language code of the sentence.
    pub language: String,
    /// Translation groups, in the order received.
    pub translations: Vec<Vec<Translation>>,
    /// Display name of the language.
    pub lang_name: String,
    /// Text direction indicator, passed through verbatim.
    pub direction: String,
    /// Ownership flag relative to the caller context.
    pub is_owned_by_current_user: bool,
    /// Cap the service reports for visible translations.
    pub max_visible_translations: usize,
}

/// The mathematical content of a [`Sentence`].
#[verifier::ext_equal]
pub ghost struct SentenceView {
    pub id: nat,
    pub text: Seq<char>,
    pub language: Seq<char>,
    pub translations: Seq<Seq<TranslationView>>,
    pub lang_name: Seq<char>,
    pub direction: Seq<char>,
    pub is_owned_by_current_user: bool,
    pub max_visible_translations: nat,
}

impl View for Sentence {
    type V = SentenceView;

    open spec fn view(&self) -> SentenceView {
        SentenceView {
            id: self.id as nat,
            text: self.text@,
            language: self.language@,
            translations: self.translations.deep_view(),
            lang_name: self.lang_name@,
            direction: self.direction@,
            is_owned_by_current_user: self.is_owned_by_current_user,
            max_visible_translations: self.max_visible_translations as nat,
        }
    }
}

impl DeepView for Sentence {
    type V = SentenceView;

    open spec fn deep_view(&self) -> SentenceView {
        self.view()
    }
}

/// The response envelope: the matched sentences, in the service's order.
#[derive(Debug, Clone)]
pub struct SearchResult {
    pub results: Vec<Sentence>,
}

/// The mathematical content of a [`SearchResult`].
#[verifier::ext_equal]
pub ghost struct SearchResultView {
    pub results: Seq<SentenceView>,
}

impl View for SearchResult {
    type V = SearchResultView;

    open spec fn view(&self) -> SearchResultView {
        SearchResultView { results: self.results.deep_view() }
    }
}

} // verus!
