use tatoeba::{Client, Error, SearchOptions};
use tatoeba::urlencode::encode_query;

#[test]
fn default_options_encode() {
    let options = SearchOptions::new("hello", "eng");
    let q = encode_query(&options);
    assert_eq!(q, "from=eng&to=eng&query=hello&trans_filter=limit");
}

#[test]
fn builder_overrides_target_language() {
    let options = SearchOptions::new("hello", "eng").translated_language("fra");
    let q = encode_query(&options);
    assert_eq!(q, "from=eng&to=fra&query=hello&trans_filter=limit");
}

#[test]
fn no_target_language_omits_to() {
    let options = SearchOptions {
        language: "deu".to_string(),
        translated_language: None,
        has_audio: None,
        query: "hallo".to_string(),
        trans_filter: "limit".to_string(),
    };
    let q = encode_query(&options);
    assert_eq!(q, "from=deu&query=hallo&trans_filter=limit");
    assert!(!q.contains("to="));
}

#[test]
fn some_target_language_has_exactly_one_to() {
    let options = SearchOptions::new("hello", "eng").translated_language("ita");
    let q = encode_query(&options);
    assert_eq!(q.matches("&to=").count(), 1);
    assert!(q.contains("&to=ita"));
}

#[test]
fn has_audio_encoded_when_set() {
    let mut options = SearchOptions::new("hi", "eng");
    options.has_audio = Some(true);
    let q = encode_query(&options);
    assert_eq!(q, "from=eng&to=eng&has_audio=true&query=hi&trans_filter=limit");
    options.has_audio = Some(false);
    let q = encode_query(&options);
    assert_eq!(q, "from=eng&to=eng&has_audio=false&query=hi&trans_filter=limit");
}

#[test]
fn space_and_reserved_bytes_percent_encoded() {
    let options = SearchOptions {
        language: "eng".to_string(),
        translated_language: None,
        has_audio: None,
        query: "a b+c/d".to_string(),
        trans_filter: "limit".to_string(),
    };
    let q = encode_query(&options);
    assert_eq!(q, "from=eng&query=a+b%2Bc%2Fd&trans_filter=limit");
}

#[test]
fn multibyte_query_percent_encoded() {
    let options = SearchOptions::new("å‘˜", "chm").translated_language("eng");
    let q = encode_query(&options);
    assert_eq!(q, "from=chm&to=eng&query=%C3%A5%E2%80%98%CB%9C&trans_filter=limit");
}

#[test]
fn request_url_composed() {
    let options = SearchOptions::new("hello", "eng");
    let url = Client::request_url(&options);
    assert_eq!(
        url,
        "https://tatoeba.org/en/api_v0/search?from=eng&to=eng&query=hello&trans_filter=limit"
    );
}

#[test]
fn transport_failure_is_transport_error() {
    let r = Client::complete_search(Err("connection refused".to_string()));
    let e = r.err().unwrap();
    assert!(e.is_transport());
    assert!(!e.is_decoding());
    assert!(matches!(e, Error::TransportError(ref msg) if msg == "connection refused"));
}
