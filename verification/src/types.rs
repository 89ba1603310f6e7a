//! Value types exchanged with the DeepL API.
//!
//! These are plain data carriers: every field is a value the rest of the
//! crate can reason about directly.  The unverified front end owns the wire
//! encoding (JSON, HTTP) and converts between its own decoded records and
//! these types.

use vstd::prelude::*;

verus! {

/// Information about API usage & limits for this account.
#[derive(Debug)]
pub struct UsageInformation {
    /// How many characters can be translated per billing period, based on
    /// the account settings.
    pub character_limit: u64,
    /// How many characters were already translated in the current billing
    /// period.
    pub character_count: u64,
}

/// Information about a single language.
#[derive(Debug)]
pub struct LanguageInformation {
    /// Language identifier used by DeepL, e.g. `EN-US`.  Use this when
    /// specifying source or target language.
    pub language: String,
    /// English name of the language, e.g. `English (America)`.
    pub name: String,
}

/// Translation option that controls the splitting of sentences before the
/// translation.
#[derive(Debug)]
pub enum SplitSentences {
    /// Don't split sentences.
    NoSplitting,
    /// Split on punctuation only.
    Punctuation,
    /// Split on punctuation and newlines.
    PunctuationAndNewlines,
}

/// Translation option that controls the desired translation formality.
#[derive(Debug)]
pub enum Formality {
    /// Default formality.
    Default,
    /// Translate more formally.
    More,
    /// Translate less formally.
    Less,
}

/// Optional flags for a translation request.  Absent fields are omitted
/// from the outgoing request rather than sent with default values.
#[derive(Debug)]
pub struct TranslationOptions {
    /// Whether the engine should first split the input into sentences.
    pub split_sentences: Option<SplitSentences>,
    /// Whether the engine should respect the original formatting, even if
    /// it would usually correct some aspects.
    pub preserve_formatting: Option<bool>,
    /// Whether the translated text should lean towards formal or informal
    /// language.
    pub formality: Option<Formality>,
    /// The glossary to use for the translation.
    pub glossary_id: Option<String>,
}

/// Format of glossary entries when creating a glossary.
#[derive(Debug)]
pub enum GlossaryEntriesFormat {
    /// Tab-separated values.
    Tsv,
    /// Comma-separated values.
    Csv,
}

/// Representation of a glossary.
#[derive(Debug)]
pub struct Glossary {
    /// A unique ID assigned to a glossary.
    pub glossary_id: String,
    /// Name associated with the glossary.
    pub name: String,
    /// Whether the glossary can already be used in translate requests.  A
    /// freshly created glossary may exist without being usable yet.
    pub ready: bool,
    /// The language in which the source texts in the glossary are specified.
    pub source_lang: String,
    /// The language in which the target texts in the glossary are specified.
    pub target_lang: String,
    /// The creation time of the glossary, as the timestamp string reported
    /// by the server.
    pub creation_time: String,
    /// The number of entries in the glossary.
    pub entry_count: u64,
}

/// Representation of a glossary listing response.
#[derive(Debug)]
pub struct GlossaryListing {
    /// A list of glossaries.
    pub glossaries: Vec<Glossary>,
}

/// Holds a list of strings to be translated together in one request.
#[derive(Debug)]
pub struct TranslatableTextList {
    /// Source language, if known.  Will be auto-detected by the DeepL API
    /// if not provided.
    pub source_language: Option<String>,
    /// Target language (required).
    pub target_language: String,
    /// List of texts that are supposed to be translated.
    pub texts: Vec<String>,
}

/// Holds one unit of translated text.
#[derive(Debug)]
pub struct TranslatedText {
    /// Source language.  Holds the value provided, or otherwise the value
    /// that DeepL auto-detected.
    pub detected_source_language: String,
    /// Translated text.
    pub text: String,
}

/// The body shape of a successful translation response: the server wraps
/// the translated units in one field.
#[derive(Debug)]
pub struct TranslatedTextList {
    /// One entry per submitted text block.
    pub translations: Vec<TranslatedText>,
}

/// The body shape of an error response: a message and an optional detail.
#[derive(Debug)]
pub struct ServerErrorMessage {
    /// Human-readable description of what the server rejected.
    pub message: String,
    /// Further detail, when the server provides one.
    pub detail: Option<String>,
}

} // verus!
