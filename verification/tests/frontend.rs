use deepl_api::cli::{
    build_translation_options, credential_usable, error_line, line_terminated,
    missing_credential_message, single_block_list, Opts, SubCmd, Translate,
};
use deepl_api::error::Error;
use deepl_api::types::Formality;

fn translate_args() -> Translate {
    Translate {
        source_language: Some("EN".to_string()),
        target_language: "DE".to_string(),
        input_file: None,
        output_file: None,
        preserve_formatting: false,
        formality_more: false,
        formality_less: false,
    }
}

#[test]
fn default_invocation_selects_no_flags() {
    let options = build_translation_options(&translate_args());
    assert!(options.split_sentences.is_none());
    assert!(options.preserve_formatting.is_none());
    assert!(options.formality.is_none());
    assert!(options.glossary_id.is_none());
}

#[test]
fn preserve_formatting_flag_is_selected() {
    let mut args = translate_args();
    args.preserve_formatting = true;
    let options = build_translation_options(&args);
    assert_eq!(options.preserve_formatting, Some(true));
}

#[test]
fn formality_more_flag_is_selected() {
    let mut args = translate_args();
    args.formality_more = true;
    let options = build_translation_options(&args);
    assert!(matches!(options.formality, Some(Formality::More)));
}

#[test]
fn formality_less_flag_is_selected() {
    let mut args = translate_args();
    args.formality_less = true;
    let options = build_translation_options(&args);
    assert!(matches!(options.formality, Some(Formality::Less)));
}

#[test]
fn one_invocation_submits_one_block() {
    let list = single_block_list(&translate_args(), "Please go home.".to_string());
    assert_eq!(list.source_language, Some("EN".to_string()));
    assert_eq!(list.target_language, "DE");
    assert_eq!(list.texts, vec!["Please go home.".to_string()]);
}

#[test]
fn standard_output_gets_a_trailing_newline() {
    assert_eq!(line_terminated("Bitte gehen Sie nach Hause."), "Bitte gehen Sie nach Hause.\n");
}

#[test]
fn empty_credential_is_unusable() {
    assert!(!credential_usable(""));
    assert!(credential_usable("k"));
}

#[test]
fn missing_credential_has_a_fixed_message() {
    assert_eq!(
        missing_credential_message(),
        "no DEEPL_API_KEY found. Please provide your API key in this environment variable."
    );
}

#[test]
fn error_lines_match_the_front_end_format() {
    let authorization = Error::Authorization;
    assert_eq!(
        error_line(&authorization.message()),
        "Error: Authorization failed, is your API key correct?\n"
    );
    let io = Error::Io("No such file or directory (os error 2)".to_string());
    assert_eq!(error_line(&io.message()), "Error: No such file or directory (os error 2)\n");
}

#[test]
fn subcommands_carry_their_arguments() {
    let opts = Opts { subcmd: SubCmd::Translate(translate_args()) };
    match opts.subcmd {
        SubCmd::Translate(t) => assert_eq!(t.target_language, "DE"),
        _ => panic!("expected the translate subcommand"),
    }
    assert!(matches!(Opts { subcmd: SubCmd::UsageInformation }.subcmd, SubCmd::UsageInformation));
    assert!(matches!(Opts { subcmd: SubCmd::Languages }.subcmd, SubCmd::Languages));
}
