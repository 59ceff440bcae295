use tatoeba::{Client, Error};
use tatoeba::decode::{decode_response, decode_search_result};
use tatoeba::roundtrip::encode_search_result;

const EXAMPLE_BODY: &str = r#"{"results":[{"id":1,"text":"Hi","lang":"eng","translations":[[{"id":2,"text":"Bonjour","lang":"fra"}]],"lang_name":"English","dir":"ltr","is_owned_by_current_user":false,"max_visible_translations":10}]}"#;

#[test]
fn decode_example_body() {
    let result = decode_response(EXAMPLE_BODY).unwrap();
    assert_eq!(result.results.len(), 1);
    let s = &result.results[0];
    assert_eq!(s.id, 1);
    assert_eq!(s.text, "Hi");
    assert_eq!(s.language, "eng");
    assert_eq!(s.lang_name, "English");
    assert_eq!(s.direction, "ltr");
    assert!(!s.is_owned_by_current_user);
    assert_eq!(s.max_visible_translations, 10);
    assert_eq!(s.translations.len(), 1);
    assert_eq!(s.translations[0].len(), 1);
    let t = &s.translations[0][0];
    assert_eq!(t.id, 2);
    assert_eq!(t.text, "Bonjour");
    assert_eq!(t.language, "fra");
}

#[test]
fn extra_unknown_fields_ignored() {
    let body = r#"{"results":[{"id":1,"text":"Hi","lang":"eng","correctness":0,"script":"Latn","audios":[{"id":9}],"translations":[[]],"lang_name":"English","dir":"ltr","is_owned_by_current_user":true,"max_visible_translations":5}],"paging":{"page":1}}"#;
    let result = decode_response(body).unwrap();
    assert_eq!(result.results.len(), 1);
    let s = &result.results[0];
    assert_eq!(s.id, 1);
    assert!(s.is_owned_by_current_user);
    assert_eq!(s.translations.len(), 1);
    assert_eq!(s.translations[0].len(), 0);
}

#[test]
fn missing_required_field_rejected() {
    let body = r#"{"results":[{"id":1,"text":"Hi","lang":"eng","translations":[],"dir":"ltr","is_owned_by_current_user":false,"max_visible_translations":10}]}"#;
    let r = decode_response(body);
    assert!(matches!(r, Err(Error::DecodingError)));
}

#[test]
fn malformed_json_rejected() {
    let r = decode_response("results: not json at all");
    assert!(matches!(r, Err(Error::DecodingError)));
}

#[test]
fn wrong_field_type_rejected() {
    let body = r#"{"results":[{"id":"one","text":"Hi","lang":"eng","translations":[],"lang_name":"English","dir":"ltr","is_owned_by_current_user":false,"max_visible_translations":10}]}"#;
    let r = decode_response(body);
    assert!(matches!(r, Err(Error::DecodingError)));
}

#[test]
fn negative_or_fractional_id_rejected() {
    let body = r#"{"results":[{"id":-1,"text":"Hi","lang":"eng","translations":[],"lang_name":"English","dir":"ltr","is_owned_by_current_user":false,"max_visible_translations":10}]}"#;
    assert!(matches!(decode_response(body), Err(Error::DecodingError)));
    let body = r#"{"results":[{"id":1.5,"text":"Hi","lang":"eng","translations":[],"lang_name":"English","dir":"ltr","is_owned_by_current_user":false,"max_visible_translations":10}]}"#;
    assert!(matches!(decode_response(body), Err(Error::DecodingError)));
}

#[test]
fn empty_results_decode() {
    let result = decode_response(r#"{"results":[]}"#).unwrap();
    assert_eq!(result.results.len(), 0);
}

#[test]
fn missing_results_rejected() {
    let r = decode_response(r#"{"page":1}"#);
    assert!(matches!(r, Err(Error::DecodingError)));
}

#[test]
fn top_level_non_object_rejected() {
    let r = decode_response("[1,2,3]");
    assert!(matches!(r, Err(Error::DecodingError)));
}

#[test]
fn roundtrip_preserves_structure() {
    let first = decode_response(EXAMPLE_BODY).unwrap();
    let reencoded = encode_search_result(&first);
    let second = decode_search_result(&reencoded).unwrap();
    assert_eq!(second.results.len(), first.results.len());
    for (a, b) in first.results.iter().zip(second.results.iter()) {
        assert_eq!(a.id, b.id);
        assert_eq!(a.text, b.text);
        assert_eq!(a.language, b.language);
        assert_eq!(a.lang_name, b.lang_name);
        assert_eq!(a.direction, b.direction);
        assert_eq!(a.is_owned_by_current_user, b.is_owned_by_current_user);
        assert_eq!(a.max_visible_translations, b.max_visible_translations);
        assert_eq!(a.translations.len(), b.translations.len());
        for (ga, gb) in a.translations.iter().zip(b.translations.iter()) {
            assert_eq!(ga.len(), gb.len());
            for (ta, tb) in ga.iter().zip(gb.iter()) {
                assert_eq!(ta.id, tb.id);
                assert_eq!(ta.text, tb.text);
                assert_eq!(ta.language, tb.language);
            }
        }
    }
}

#[test]
fn complete_search_decodes_received_body() {
    let r = Client::complete_search(Ok(EXAMPLE_BODY.to_string())).unwrap();
    assert_eq!(r.results.len(), 1);
    assert_eq!(r.results[0].text, "Hi");
}

#[test]
fn complete_search_rejects_bad_body() {
    let r = Client::complete_search(Ok("<html>down for maintenance</html>".to_string()));
    assert!(matches!(r, Err(Error::DecodingError)));
}

#[test]
fn one_malformed_sentence_fails_whole_decode() {
    let body = r#"{"results":[{"id":1,"text":"Hi","lang":"eng","translations":[],"lang_name":"English","dir":"ltr","is_owned_by_current_user":false,"max_visible_translations":10},{"id":2,"text":"Yo","lang":"eng","translations":[]}]}"#;
    let r = decode_response(body);
    assert!(matches!(r, Err(Error::DecodingError)));
}

#[test]
fn group_order_preserved() {
    let body = r#"{"results":[{"id":1,"text":"Hi","lang":"eng","translations":[[{"id":2,"text":"Bonjour","lang":"fra"},{"id":3,"text":"Salut","lang":"fra"}],[{"id":4,"text":"Hallo","lang":"deu"}]],"lang_name":"English","dir":"ltr","is_owned_by_current_user":false,"max_visible_translations":10}]}"#;
    let result = decode_response(body).unwrap();
    let s = &result.results[0];
    assert_eq!(s.translations.len(), 2);
    assert_eq!(s.translations[0].len(), 2);
    assert_eq!(s.translations[0][0].id, 2);
    assert_eq!(s.translations[0][1].id, 3);
    assert_eq!(s.translations[1].len(), 1);
    assert_eq!(s.translations[1][0].text, "Hallo");
}
