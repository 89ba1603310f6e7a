use deepl_api::client::DeepL;
use deepl_api::encode::form_urlencode;
use deepl_api::types::{Formality, TranslatableTextList, TranslationOptions};

fn encode(pairs: &[(&str, &str)]) -> String {
    let params: Vec<(String, String)> =
        pairs.iter().map(|(k, v)| (k.to_string(), v.to_string())).collect();
    String::from_utf8(form_urlencode(&params)).unwrap()
}

#[test]
fn encodes_plain_pairs() {
    assert_eq!(
        encode(&[("target_lang", "EN-US"), ("source_lang", "DE"), ("text", "ja")]),
        "target_lang=EN-US&source_lang=DE&text=ja"
    );
}

#[test]
fn encodes_nothing_to_an_empty_body() {
    assert_eq!(encode(&[]), "");
}

#[test]
fn encodes_spaces_as_plus() {
    assert_eq!(encode(&[("text", "Please go home.")]), "text=Please+go+home.");
}

#[test]
fn percent_encodes_reserved_bytes() {
    assert_eq!(encode(&[("text", "ja\n nein")]), "text=ja%0A+nein");
    assert_eq!(encode(&[("entries", "Action,Handlung")]), "entries=Action%2CHandlung");
    assert_eq!(encode(&[("entries", "Action\tHandlung")]), "entries=Action%09Handlung");
}

#[test]
fn percent_encodes_multibyte_characters_bytewise() {
    assert_eq!(encode(&[("text", "Grüße")]), "text=Gr%C3%BC%C3%9Fe");
}

#[test]
fn keeps_the_unreserved_set_unchanged() {
    assert_eq!(encode(&[("k", "A.z-0_9*")]), "k=A.z-0_9*");
}

#[test]
fn encodes_repeated_keys_in_order() {
    assert_eq!(
        encode(&[("text", "one"), ("text", "two")]),
        "text=one&text=two"
    );
}

#[test]
fn encodes_a_full_translate_request_body() {
    let client = DeepL::new("sample-key".to_string());
    let request = client.translate_request(
        Some(TranslationOptions {
            split_sentences: None,
            preserve_formatting: None,
            formality: Some(Formality::More),
            glossary_id: None,
        }),
        TranslatableTextList {
            source_language: Some("EN".to_string()),
            target_language: "DE".to_string(),
            texts: vec!["Please go home.".to_string()],
        },
    );
    let body = String::from_utf8(form_urlencode(&request.params)).unwrap();
    assert_eq!(body, "target_lang=DE&source_lang=EN&text=Please+go+home.&formality=more");
}
