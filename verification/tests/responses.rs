use deepl_api::error::Error;
use deepl_api::response::{decoded_or_error, evaluate_response, translations_from_decoded};
use deepl_api::types::{
    Glossary, ServerErrorMessage, TranslatedText, TranslatedTextList, UsageInformation,
};

fn server_error(message: &str, detail: Option<&str>) -> Option<ServerErrorMessage> {
    Some(ServerErrorMessage {
        message: message.to_string(),
        detail: detail.map(|d| d.to_string()),
    })
}

#[test]
fn success_statuses_pass() {
    assert!(evaluate_response(200, "200 OK".to_string(), None).is_ok());
    assert!(evaluate_response(204, "204 No Content".to_string(), None).is_ok());
    assert!(evaluate_response(299, "299".to_string(), None).is_ok());
}

#[test]
fn unauthorized_is_an_authorization_error() {
    let r = evaluate_response(401, "401 Unauthorized".to_string(), None);
    assert!(matches!(r, Err(Error::Authorization)));
}

#[test]
fn forbidden_is_an_authorization_error_whatever_the_body_says() {
    let r = evaluate_response(
        403,
        "403 Forbidden".to_string(),
        server_error("Wrong key.", Some("details")),
    );
    assert!(matches!(r, Err(Error::Authorization)));
}

#[test]
fn authorization_error_message_is_fixed() {
    let r = evaluate_response(401, "401 Unauthorized".to_string(), None);
    let e = r.unwrap_err();
    assert_eq!(e.message(), "Authorization failed, is your API key correct?");
}

#[test]
fn missing_resource_is_a_not_found_error() {
    let r = evaluate_response(404, "404 Not Found".to_string(), None);
    assert!(matches!(r, Err(Error::NotFound)));
    assert_eq!(r.unwrap_err().message(), "The requested resource was not found.");
}

#[test]
fn missing_text_parameter_is_a_server_error() {
    let r = evaluate_response(
        400,
        "400 Bad Request".to_string(),
        server_error("Parameter 'text' not specified.", None),
    );
    match r {
        Err(Error::Server(m)) => assert_eq!(m, "Parameter 'text' not specified.: "),
        _ => panic!("expected a server error"),
    }
}

#[test]
fn unsupported_target_language_is_a_server_error() {
    let r = evaluate_response(
        400,
        "400 Bad Request".to_string(),
        server_error("Value for 'target_lang' not supported.", None),
    );
    match r {
        Err(Error::Server(m)) => {
            assert_eq!(m, "Value for 'target_lang' not supported.: ");
            assert!(m.contains("target_lang"));
        },
        _ => panic!("expected a server error"),
    }
}

#[test]
fn server_error_joins_message_and_detail() {
    let r = evaluate_response(
        456,
        "456 Quota Exceeded".to_string(),
        server_error("Quota for this billing period has been exceeded.", Some("character limit")),
    );
    match r {
        Err(Error::Server(m)) => {
            assert_eq!(m, "Quota for this billing period has been exceeded.: character limit")
        },
        _ => panic!("expected a server error"),
    }
}

#[test]
fn undecodable_error_body_falls_back_to_status_text() {
    let r = evaluate_response(500, "500 Internal Server Error".to_string(), None);
    match r {
        Err(Error::Server(m)) => assert_eq!(m, "500 Internal Server Error"),
        _ => panic!("expected a server error"),
    }
}

#[test]
fn server_error_message_rendering() {
    let e = Error::Server("boom".to_string());
    assert_eq!(
        e.message(),
        "An error occurred while communicating with the DeepL server: 'boom'."
    );
}

#[test]
fn transport_and_io_errors_keep_their_descriptions() {
    assert_eq!(Error::Transport("connection refused".to_string()).message(), "connection refused");
    assert_eq!(
        Error::Io("No such file or directory (os error 2)".to_string()).message(),
        "No such file or directory (os error 2)"
    );
}

#[test]
fn decoded_usage_passes_through() {
    let r = decoded_or_error(Some(UsageInformation { character_limit: 250000, character_count: 3317 }));
    let u = r.unwrap();
    assert_eq!(u.character_limit, 250000);
    assert_eq!(u.character_count, 3317);
}

#[test]
fn missing_decoded_body_is_a_deserialization_error() {
    let r: Result<UsageInformation, Error> = decoded_or_error(None);
    let e = r.unwrap_err();
    assert!(matches!(e, Error::Deserialization));
    assert_eq!(e.message(), "An error occurred while deserializing the response data.");
}

#[test]
fn decoded_glossary_passes_through() {
    let r = decoded_or_error(Some(Glossary {
        glossary_id: "g-1".to_string(),
        name: "test_glossary".to_string(),
        ready: true,
        source_lang: "en".to_string(),
        target_lang: "de".to_string(),
        creation_time: "2021-08-03T14:16:18.329Z".to_string(),
        entry_count: 1,
    }));
    let g = r.unwrap();
    assert_eq!(g.name, "test_glossary");
    assert_eq!(g.entry_count, 1);
    assert_eq!(g.source_lang, "en");
    assert_eq!(g.target_lang, "de");
}

#[test]
fn translations_unwrap_in_order() {
    let decoded = TranslatedTextList {
        translations: vec![
            TranslatedText { detected_source_language: "DE".to_string(), text: "yes".to_string() },
            TranslatedText { detected_source_language: "DE".to_string(), text: "no".to_string() },
        ],
    };
    let ts = translations_from_decoded(Some(decoded)).unwrap();
    assert_eq!(ts.len(), 2);
    assert_eq!(ts[0].text, "yes");
    assert_eq!(ts[1].text, "no");
    assert_eq!(ts[0].detected_source_language, "DE");
}

#[test]
fn translations_of_wrong_shape_are_a_deserialization_error() {
    let r = translations_from_decoded(None);
    assert!(matches!(r, Err(Error::Deserialization)));
}
