//! Re-encoding of the response model as JSON values.
//!
//! Each encoder's contract states the structural round trip: decoding the
//! value it builds yields back exactly the model value it was built from, so
//! decoding is a faithful, lossless projection of the fields the model keeps.

use vstd::prelude::*;
use crate::decode::{sp_group, sp_groups, sp_search_result, sp_sentence, sp_translation};
use crate::error::Error;
use crate::json::{lookup, JsonNode};
use crate::model::{
    SearchResult, SearchResultView, Sentence, SentenceView, Translation, TranslationView,
};

verus! {

/// Builds the JSON object of one translation; decoding it yields the
/// translation back.
pub fn encode_translation(t: &Translation) -> (n: JsonNode)
    ensures
        sp_translation(n) == Result::<TranslationView, Error>::Ok(t@),
{
    let mut fields: Vec<(String, JsonNode)> = Vec::new();
    fields.push(("id".to_owned(), JsonNode::UInt(t.id as u64)));
    fields.push(("text".to_owned(), JsonNode::Str(t.text.clone())));
    fields.push(("lang".to_owned(), JsonNode::Str(t.language.clone())));
    let n = JsonNode::Obj(fields);
    proof {
        reveal_with_fuel(lookup, 5);
        reveal_strlit("id");
        reveal_strlit("text");
        reveal_strlit("lang");
        assert("id"@.len() == 2);
        assert("text"@.len() == 4);
        assert("lang"@.len() == 4);
        assert("text"@[0] == 't' && "lang"@[0] == 'l');
        assert("text"@ != "lang"@);
        let f = n->Obj_0@;
        assert(f.len() == 3);
        assert(lookup(f, "id"@) == Option::Some(JsonNode::UInt(t.id as u64)));
        assert(lookup(f, "text"@) == Option::Some(JsonNode::Str(t.text)));
        assert(lookup(f, "lang"@) == Option::Some(JsonNode::Str(t.language)));
        assert(t.id as u64 <= usize::MAX as u64);
        assert(sp_translation(n) == Result::<TranslationView, Error>::Ok(t@));
    }
    n
}

/// Builds the JSON array of one translation group; decoding it yields the
/// group back.
pub fn encode_group(g: &Vec<Translation>) -> (n: JsonNode)
    ensures
        sp_group(n) == Result::<Seq<TranslationView>, Error>::Ok(g.deep_view()),
{
    let mut items: Vec<JsonNode> = Vec::new();
    let len = g.len();
    for i in 0..len
        invariant
            len == g@.len(),
            items@.len() == i,
            forall|j: int|
                0 <= j < i ==> (#[trigger] sp_translation(items@[j])) == Result::<
                    TranslationView,
                    Error,
                >::Ok(g@[j]@),
    {
        let t = encode_translation(&g[i]);
        items.push(t);
    }
    let n = JsonNode::Arr(items);
    proof {
        assert(sp_group(n) is Ok);
        assert(sp_group(n)->Ok_0 =~= g.deep_view());
    }
    n
}

/// Builds the JSON array of arrays carried as `translations`; decoding it
/// yields the groups back.
pub fn encode_groups(gs: &Vec<Vec<Translation>>) -> (n: JsonNode)
    ensures
        sp_groups(n) == Result::<Seq<Seq<TranslationView>>, Error>::Ok(gs.deep_view()),
{
    let mut items: Vec<JsonNode> = Vec::new();
    let len = gs.len();
    for i in 0..len
        invariant
            len == gs@.len(),
            items@.len() == i,
            forall|j: int|
                0 <= j < i ==> (#[trigger] sp_group(items@[j])) == Result::<
                    Seq<TranslationView>,
                    Error,
                >::Ok(gs@[j].deep_view()),
    {
        let g = encode_group(&gs[i]);
        items.push(g);
    }
    let n = JsonNode::Arr(items);
    proof {
        assert(sp_groups(n) is Ok);
        assert(sp_groups(n)->Ok_0 =~= gs.deep_view());
    }
    n
}

/// Builds the JSON object of one sentence, under the wire keys (`lang`,
/// `dir`); decoding it yields the sentence back.
#[verifier::rlimit(100)]
#[verifier::spinoff_prover]
pub fn encode_sentence(s: &Sentence) -> (n: JsonNode)
    ensures
        sp_sentence(n) == Result::<SentenceView, Error>::Ok(s@),
{
    let mut fields: Vec<(String, JsonNode)> = Vec::new();
    fields.push(("id".to_owned(), JsonNode::UInt(s.id as u64)));
    fields.push(("text".to_owned(), JsonNode::Str(s.text.clone())));
    fields.push(("lang".to_owned(), JsonNode::Str(s.language.clone())));
    fields.push(("translations".to_owned(), encode_groups(&s.translations)));
    fields.push(("lang_name".to_owned(), JsonNode::Str(s.lang_name.clone())));
    fields.push(("dir".to_owned(), JsonNode::Str(s.direction.clone())));
    fields.push(
        ("is_owned_by_current_user".to_owned(), JsonNode::Bool(s.is_owned_by_current_user)),
    );
    fields.push(
        (
            "max_visible_translations".to_owned(),
            JsonNode::UInt(s.max_visible_translations as u64),
        ),
    );
    let ghost groups_node = fields@[3].1;
    let n = JsonNode::Obj(fields);
    proof {
        reveal_with_fuel(lookup, 10);
        reveal_strlit("id");
        reveal_strlit("text");
        reveal_strlit("lang");
        reveal_strlit("translations");
        reveal_strlit("lang_name");
        reveal_strlit("dir");
        reveal_strlit("is_owned_by_current_user");
        reveal_strlit("max_visible_translations");
        assert("id"@.len() == 2);
        assert("text"@.len() == 4);
        assert("lang"@.len() == 4);
        assert("translations"@.len() == 12);
        assert("lang_name"@.len() == 9);
        assert("dir"@.len() == 3);
        assert("is_owned_by_current_user"@.len() == 24);
        assert("max_visible_translations"@.len() == 24);
        assert("text"@[0] == 't' && "lang"@[0] == 'l');
        assert("text"@ != "lang"@);
        assert("is_owned_by_current_user"@[0] == 'i' && "max_visible_translations"@[0] == 'm');
        assert("is_owned_by_current_user"@ != "max_visible_translations"@);
        let f = n->Obj_0@;
        assert(f.len() == 8);
        assert(lookup(f, "id"@) == Option::Some(JsonNode::UInt(s.id as u64)));
        assert(lookup(f, "text"@) == Option::Some(JsonNode::Str(s.text)));
        assert(lookup(f, "lang"@) == Option::Some(JsonNode::Str(s.language)));
        assert(lookup(f, "translations"@) == Option::Some(groups_node));
        assert(lookup(f, "lang_name"@) == Option::Some(JsonNode::Str(s.lang_name)));
        assert(lookup(f, "dir"@) == Option::Some(JsonNode::Str(s.direction)));
        assert(lookup(f, "is_owned_by_current_user"@) == Option::Some(
            JsonNode::Bool(s.is_owned_by_current_user),
        ));
        assert(lookup(f, "max_visible_translations"@) == Option::Some(
            JsonNode::UInt(s.max_visible_translations as u64),
        ));
        assert(s.id as u64 <= usize::MAX as u64);
        assert(s.max_visible_translations as u64 <= usize::MAX as u64);
        assert(sp_sentence(n)->Ok_0 =~= s@);
        assert(sp_sentence(n) == Result::<SentenceView, Error>::Ok(s@));
    }
    n
}

/// Builds the JSON response envelope for a search result; decoding it yields
/// the result back. This is the structural round trip: every field the model
/// keeps survives an encode followed by a decode unchanged.
pub fn encode_search_result(r: &SearchResult) -> (n: JsonNode)
    ensures
        sp_search_result(n) == Result::<SearchResultView, Error>::Ok(r@),
{
    let mut items: Vec<JsonNode> = Vec::new();
    let len = r.results.len();
    for i in 0..len
        invariant
            len == r.results@.len(),
            items@.len() == i,
            forall|j: int|
                0 <= j < i ==> (#[trigger] sp_sentence(items@[j])) == Result::<
                    SentenceView,
                    Error,
                >::Ok(r.results@[j]@),
    {
        let s = encode_sentence(&r.results[i]);
        items.push(s);
    }
    let mut fields: Vec<(String, JsonNode)> = Vec::new();
    let arr_node = JsonNode::Arr(items);
    let ghost arr_node_snapshot = arr_node;
    fields.push(("results".to_owned(), arr_node));
    let n = JsonNode::Obj(fields);
    proof {
        reveal_with_fuel(lookup, 2);
        reveal_strlit("results");
        let f = n->Obj_0@;
        assert(f.len() == 1);
        assert(lookup(f, "results"@) == Option::Some(arr_node_snapshot));
        assert(sp_search_result(n) is Ok);
        assert(sp_search_result(n)->Ok_0 =~= r@);
    }
    n
}

} // verus!
