use deepl_api::render::{
    combine_translations, format_languages_report, format_usage_report, language_line, render_u64,
};
use deepl_api::types::{LanguageInformation, TranslatedText, UsageInformation};

fn lang(code: &str, name: &str) -> LanguageInformation {
    LanguageInformation { language: code.to_string(), name: name.to_string() }
}

#[test]
fn renders_small_numbers() {
    assert_eq!(render_u64(0), "0");
    assert_eq!(render_u64(7), "7");
    assert_eq!(render_u64(10), "10");
}

#[test]
fn renders_large_numbers() {
    assert_eq!(render_u64(250000), "250000");
    assert_eq!(render_u64(3317), "3317");
    assert_eq!(render_u64(u64::MAX), "18446744073709551615");
}

#[test]
fn usage_report_lines() {
    let report = format_usage_report(&UsageInformation {
        character_limit: 250000,
        character_count: 3317,
    });
    assert_eq!(
        report,
        "Available characters per billing period: 250000\n\
         Characters already translated in the current billing period: 3317\n"
    );
}

#[test]
fn language_line_pads_short_codes() {
    assert_eq!(language_line(&lang("RU", "Russian")), "  RU    (Russian)\n");
    assert_eq!(language_line(&lang("DE", "German")), "  DE    (German)\n");
}

#[test]
fn language_line_keeps_five_character_codes() {
    assert_eq!(language_line(&lang("EN-US", "English (American)")), "  EN-US (English (American))\n");
}

#[test]
fn language_line_keeps_longer_codes() {
    assert_eq!(language_line(&lang("ZH-HANS", "Chinese (simplified)")), "  ZH-HANS (Chinese (simplified))\n");
}

#[test]
fn languages_report_layout() {
    let source = vec![lang("DE", "German"), lang("EN", "English")];
    let target = vec![lang("DE", "German"), lang("EN-GB", "English (British)")];
    let report = format_languages_report(&source, &target);
    let expected = "DeepL can translate ".to_string()
        + "from the following source languages:\n\
           \x20 DE    (German)\n\
           \x20 EN    (English)\n\
           \n\
           DeepL can translate to the following target languages:\n\
           \x20 DE    (German)\n\
           \x20 EN-GB (English (British))\n";
    assert_eq!(report, expected);
}

#[test]
fn languages_report_with_empty_lists() {
    let report = format_languages_report(&vec![], &vec![]);
    let expected = "DeepL can translate ".to_string()
        + "from the following source languages:\n\
           \n\
           DeepL can translate to the following target languages:\n";
    assert_eq!(report, expected);
}

#[test]
fn combines_translations_in_order() {
    let ts = vec![
        TranslatedText { detected_source_language: "EN".to_string(), text: "Bitte ".to_string() },
        TranslatedText { detected_source_language: "EN".to_string(), text: "gehen.".to_string() },
    ];
    assert_eq!(combine_translations(&ts), "Bitte gehen.");
}

#[test]
fn combines_nothing_to_an_empty_text() {
    assert_eq!(combine_translations(&vec![]), "");
}
