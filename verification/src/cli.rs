//! Decisions of the command-line front end.
//!
//! The front end itself parses arguments, reads the environment and does
//! the file handling; everything it decides about — which translation
//! flags an invocation selects, the single submitted text block, and the
//! fixed messages — is computed here.

use vstd::prelude::*;

use crate::types::{Formality, TranslatableTextList, TranslationOptions};

verus! {

/// The parsed command line: one subcommand per invocation.
#[derive(Debug)]
pub struct Opts {
    /// The selected subcommand.
    pub subcmd: SubCmd,
}

/// The subcommands the front end offers.
#[derive(Debug)]
pub enum SubCmd {
    /// Translate one text read from a file or standard input.
    Translate(Translate),
    /// Fetch information about account usage & limits.
    UsageInformation,
    /// Fetch the lists of available source and target languages.
    Languages,
}

/// The flags of the translate subcommand.
#[derive(Debug)]
pub struct Translate {
    /// Source language (optional).
    pub source_language: Option<String>,
    /// Target language (required).
    pub target_language: String,
    /// Input filepath (optional, reads from standard input by default).
    pub input_file: Option<String>,
    /// Output filepath (optional, prints to standard output by default).
    pub output_file: Option<String>,
    /// Preserve formatting.
    pub preserve_formatting: bool,
    /// Increase formality.
    pub formality_more: bool,
    /// Decrease formality.
    pub formality_less: bool,
}

/// The translation flags selected by a translate invocation.  The two
/// formality flags exclude each other; the argument parser refuses an
/// invocation that sets both, so the selection never has to weigh one
/// against the other.
pub fn build_translation_options(t: &Translate) -> (r: TranslationOptions)
    requires
        !(t.formality_more && t.formality_less),
    ensures
        r.split_sentences is None,
        r.glossary_id is None,
        r.preserve_formatting == (if t.preserve_formatting {
            Option::Some(true)
        } else {
            Option::None::<bool>
        }),
        r.formality == (if t.formality_more {
            Option::Some(Formality::More)
        } else if t.formality_less {
            Option::Some(Formality::Less)
        } else {
            Option::None::<Formality>
        }),
{
    TranslationOptions {
        split_sentences: Option::None,
        preserve_formatting: if t.preserve_formatting {
            Option::Some(true)
        } else {
            Option::None
        },
        formality: if t.formality_more {
            Option::Some(Formality::More)
        } else if t.formality_less {
            Option::Some(Formality::Less)
        } else {
            Option::None
        },
        glossary_id: Option::None,
    }
}

/// The text list a translate invocation submits: the whole input as a
/// single block, with the languages the flags gave.
pub fn single_block_list(t: &Translate, text: String) -> (r: TranslatableTextList)
    ensures
        r.source_language == t.source_language,
        r.target_language == t.target_language,
        r.texts@ == seq![text],
{
    let source_language = match &t.source_language {
        Option::Some(s) => Option::Some(s.clone()),
        Option::None => Option::None,
    };
    let mut texts: Vec<String> = Vec::new();
    texts.push(text);
    assert(texts@ =~= seq![text]);
    TranslatableTextList {
        source_language,
        target_language: t.target_language.clone(),
        texts,
    }
}

/// Decides whether the credential read from the environment can be used:
/// an empty value counts as absent.
pub fn credential_usable(key: &str) -> (r: bool)
    ensures
        r == (key@.len() > 0),
{
    !key.is_empty()
}

/// The fixed message printed when no usable credential is found in the
/// environment.
pub fn missing_credential_message() -> (r: String)
    ensures
        r@
            == "no DEEPL_API_KEY found. Please provide your API key in this environment variable."@,
{
    String::from_str(
        "no DEEPL_API_KEY found. Please provide your API key in this environment variable.",
    )
}

/// The line the front end writes to standard error for an operational
/// failure.
pub open spec fn error_line_text(message: Seq<char>) -> Seq<char> {
    "Error: "@ + message + "\n"@
}

/// Renders the standard-error line for an operational failure.
pub fn error_line(message: &str) -> (r: String)
    ensures
        r@ == error_line_text(message@),
{
    let r = String::from_str("Error: ").concat(message).concat("\n");
    assert(r@ =~= error_line_text(message@));
    r
}

/// Renders the standard-output form of the translated text: the text
/// followed by a trailing newline.
pub fn line_terminated(output: &str) -> (r: String)
    ensures
        r@ == output@ + "\n"@,
{
    String::from_str(output).concat("\n")
}

} // verus!
