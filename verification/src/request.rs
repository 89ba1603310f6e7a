//! Request assembly.
//!
//! Everything the client decides about an outgoing request is specified
//! here: which of the two base endpoints the credential selects, the
//! authorization header value, and the exact key/value parameters each
//! operation sends, including the wire tokens for the closed option
//! enumerations.

use vstd::prelude::*;

use crate::types::{
    Formality, GlossaryEntriesFormat, SplitSentences, TranslatableTextList, TranslationOptions,
};

verus! {

/// The HTTP methods the client uses.
#[derive(Debug)]
pub enum HttpMethod {
    /// Read a resource.
    Get,
    /// Submit parameters and read the outcome.
    Post,
    /// Remove a resource.
    Delete,
}

impl HttpMethod {
    /// Read-style requests carry their parameters in the query string;
    /// mutating requests carry them form-encoded in the body.
    pub fn carries_params_in_query(&self) -> (r: bool)
        ensures
            r == (*self is Get),
    {
        matches!(self, HttpMethod::Get)
    }
}

/// A fully assembled request, ready for an unverified transport to send.
#[derive(Debug)]
pub struct HttpRequest {
    /// The HTTP method.
    pub method: HttpMethod,
    /// The absolute URL, base endpoint and path combined.
    pub url: String,
    /// The value of the `Authorization` header.
    pub authorization: String,
    /// Key/value parameters; sent as query parameters for [`HttpMethod::Get`]
    /// and form-encoded otherwise.
    pub params: Vec<(String, String)>,
}

/// Holds when a credential selects the free-tier endpoint: the DeepL
/// convention is that free-tier API keys end in the marker `:fx`.
pub open spec fn free_tier_suffix(key: Seq<char>) -> bool {
    &&& key.len() >= 3
    &&& key[key.len() - 3] == ':'
    &&& key[key.len() - 2] == 'f'
    &&& key[key.len() - 1] == 'x'
}

/// Decides whether an API key belongs to a free-tier account.
pub fn is_free_tier_key(key: &str) -> (r: bool)
    ensures
        r == free_tier_suffix(key@),
{
    let n = key.unicode_len();
    if n < 3 {
        false
    } else {
        key.get_char(n - 3) == ':' && key.get_char(n - 2) == 'f' && key.get_char(n - 1) == 'x'
    }
}

/// The base endpoint selected by a credential.
pub open spec fn base_url_text(key: Seq<char>) -> Seq<char> {
    if free_tier_suffix(key) {
        "https://api-free.deepl.com/v2"@
    } else {
        "https://api.deepl.com/v2"@
    }
}

/// Selects the base endpoint for an API key.
pub fn api_base_url(key: &str) -> (r: &'static str)
    ensures
        r@ == base_url_text(key@),
{
    if is_free_tier_key(key) {
        "https://api-free.deepl.com/v2"
    } else {
        "https://api.deepl.com/v2"
    }
}

/// The value of the `Authorization` header: the fixed scheme marker
/// followed by the credential.
pub open spec fn auth_header_text(key: Seq<char>) -> Seq<char> {
    "DeepL-Auth-Key "@ + key
}

/// Builds the `Authorization` header value for an API key.
pub fn authorization_header_value(key: &str) -> (r: String)
    ensures
        r@ == auth_header_text(key@),
{
    String::from_str("DeepL-Auth-Key ").concat(key)
}

/// The path of the endpoint addressing one glossary.
pub open spec fn glossary_path_text(id: Seq<char>) -> Seq<char> {
    "/glossaries/"@ + id
}

/// Builds the path of the endpoint addressing one glossary.
pub fn glossary_path(glossary_id: &str) -> (r: String)
    ensures
        r@ == glossary_path_text(glossary_id@),
{
    String::from_str("/glossaries/").concat(glossary_id)
}

/// The wire token for a sentence-splitting mode.
pub open spec fn split_sentences_token(s: SplitSentences) -> Seq<char> {
    match s {
        SplitSentences::NoSplitting => "0"@,
        SplitSentences::PunctuationAndNewlines => "1"@,
        SplitSentences::Punctuation => "nonewlines"@,
    }
}

/// The wire token for the preserve-formatting flag.
pub open spec fn preserve_formatting_token(b: bool) -> Seq<char> {
    if b {
        "1"@
    } else {
        "0"@
    }
}

/// The wire token for a formality bias.
pub open spec fn formality_token(f: Formality) -> Seq<char> {
    match f {
        Formality::Default => "default"@,
        Formality::More => "more"@,
        Formality::Less => "less"@,
    }
}

/// The wire token for a glossary entries format.
pub open spec fn entries_format_token(f: GlossaryEntriesFormat) -> Seq<char> {
    match f {
        GlossaryEntriesFormat::Tsv => "tsv"@,
        GlossaryEntriesFormat::Csv => "csv"@,
    }
}

/// The character contents of one key/value parameter.
pub open spec fn param_view(p: (String, String)) -> (Seq<char>, Seq<char>) {
    (p.0@, p.1@)
}

/// The character contents of a parameter list.
pub open spec fn params_view(ps: Seq<(String, String)>) -> Seq<(Seq<char>, Seq<char>)> {
    ps.map_values(|p: (String, String)| param_view(p))
}

/// The parameters of a language listing request: the single direction
/// discriminator.
pub open spec fn languages_params(direction: Seq<char>) -> Seq<(Seq<char>, Seq<char>)> {
    seq![("type"@, direction)]
}

/// The parameters of a glossary creation request, in the order sent.
pub open spec fn create_glossary_params(
    name: Seq<char>,
    source_lang: Seq<char>,
    target_lang: Seq<char>,
    entries: Seq<char>,
    entries_format: GlossaryEntriesFormat,
) -> Seq<(Seq<char>, Seq<char>)> {
    seq![
        ("name"@, name),
        ("source_lang"@, source_lang),
        ("target_lang"@, target_lang),
        ("entries"@, entries),
        ("entries_format"@, entries_format_token(entries_format)),
    ]
}

/// The parameter contributed by an optional source language.
pub open spec fn source_params(source: Option<String>) -> Seq<(Seq<char>, Seq<char>)> {
    match source {
        Option::Some(s) => seq![("source_lang"@, s@)],
        Option::None => seq![],
    }
}

/// One `text` parameter per submitted block, in submission order.
pub open spec fn text_params(texts: Seq<String>) -> Seq<(Seq<char>, Seq<char>)> {
    texts.map_values(|t: String| ("text"@, t@))
}

/// The parameters contributed by the optional translation flags, in the
/// order sent: sentence splitting, formatting preservation, formality,
/// glossary.  An absent field contributes nothing.
pub open spec fn option_params(o: TranslationOptions) -> Seq<(Seq<char>, Seq<char>)> {
    (match o.split_sentences {
        Option::Some(s) => seq![("split_sentences"@, split_sentences_token(s))],
        Option::None => seq![],
    }) + (match o.preserve_formatting {
        Option::Some(b) => seq![("preserve_formatting"@, preserve_formatting_token(b))],
        Option::None => seq![],
    }) + (match o.formality {
        Option::Some(f) => seq![("formality"@, formality_token(f))],
        Option::None => seq![],
    }) + (match o.glossary_id {
        Option::Some(g) => seq![("glossary_id"@, g@)],
        Option::None => seq![],
    })
}

/// The full parameter list of a translation request: the target language,
/// then the source language if supplied, then the text blocks in order,
/// then the optional flags.
pub open spec fn translate_params(
    options: Option<TranslationOptions>,
    text_list: TranslatableTextList,
) -> Seq<(Seq<char>, Seq<char>)> {
    seq![("target_lang"@, text_list.target_language@)] + source_params(text_list.source_language)
        + text_params(text_list.texts@) + (match options {
        Option::Some(o) => option_params(o),
        Option::None => seq![],
    })
}

/// Translates a sentence-splitting mode to its wire token.
pub fn split_sentences_wire(s: &SplitSentences) -> (r: &'static str)
    ensures
        r@ == split_sentences_token(*s),
{
    match s {
        SplitSentences::NoSplitting => "0",
        SplitSentences::PunctuationAndNewlines => "1",
        SplitSentences::Punctuation => "nonewlines",
    }
}

/// Translates the preserve-formatting flag to its wire token.
pub fn preserve_formatting_wire(b: bool) -> (r: &'static str)
    ensures
        r@ == preserve_formatting_token(b),
{
    if b {
        "1"
    } else {
        "0"
    }
}

/// Translates a formality bias to its wire token.
pub fn formality_wire(f: &Formality) -> (r: &'static str)
    ensures
        r@ == formality_token(*f),
{
    match f {
        Formality::Default => "default",
        Formality::More => "more",
        Formality::Less => "less",
    }
}

/// Translates a glossary entries format to its wire token.
pub fn entries_format_wire(f: &GlossaryEntriesFormat) -> (r: &'static str)
    ensures
        r@ == entries_format_token(*f),
{
    match f {
        GlossaryEntriesFormat::Tsv => "tsv",
        GlossaryEntriesFormat::Csv => "csv",
    }
}

/// Appends one parameter, keeping track of the character contents.
pub(crate) fn push_param(params: &mut Vec<(String, String)>, key: &'static str, value: String)
    ensures
        params_view(final(params)@) == params_view(old(params)@).push((key@, value@)),
{
    let ghost before = params_view(params@);
    let ghost kv = (key@, value@);
    params.push((String::from_str(key), value));
    proof {
        assert(params_view(params@) =~~= before.push(kv));
    }
}

/// Appends the parameters of the optional translation flags.
fn append_option_params(params: &mut Vec<(String, String)>, o: TranslationOptions)
    ensures
        params_view(final(params)@) == params_view(old(params)@) + option_params(o),
{
    let ghost before = params_view(params@);
    let TranslationOptions { split_sentences, preserve_formatting, formality, glossary_id } = o;
    match &split_sentences {
        Option::Some(s) => {
            push_param(params, "split_sentences", String::from_str(split_sentences_wire(s)));
        },
        Option::None => {},
    }
    match preserve_formatting {
        Option::Some(b) => {
            push_param(params, "preserve_formatting", String::from_str(
                preserve_formatting_wire(b),
            ));
        },
        Option::None => {},
    }
    match &formality {
        Option::Some(f) => {
            push_param(params, "formality", String::from_str(formality_wire(f)));
        },
        Option::None => {},
    }
    match glossary_id {
        Option::Some(g) => {
            push_param(params, "glossary_id", g);
        },
        Option::None => {},
    }
    assert(params_view(params@) =~~= before + option_params(o));
}

/// Builds the parameter list of a translation request.
pub fn build_translate_params(
    options: Option<TranslationOptions>,
    text_list: TranslatableTextList,
) -> (r: Vec<(String, String)>)
    ensures
        params_view(r@) == translate_params(options, text_list),
{
    let TranslatableTextList { source_language, target_language, texts } = text_list;
    let mut params: Vec<(String, String)> = Vec::new();
    push_param(&mut params, "target_lang", target_language);
    match source_language {
        Option::Some(s) => {
            push_param(&mut params, "source_lang", s);
        },
        Option::None => {},
    }
    let ghost head = seq![("target_lang"@, text_list.target_language@)] + source_params(
        text_list.source_language,
    );
    assert(params_view(params@) =~~= head);
    let n = texts.len();
    let mut i: usize = 0;
    while i < n
        invariant
            i <= n,
            n == texts@.len(),
            texts@ == text_list.texts@,
            params_view(params@) == head + text_params(texts@.take(i as int)),
        decreases n - i,
    {
        push_param(&mut params, "text", texts[i].clone());
        proof {
            assert(texts@.take(i + 1int) =~= texts@.take(i as int).push(texts@[i as int]));
            assert(text_params(texts@.take(i + 1int)) =~~= text_params(texts@.take(i as int)).push(
                ("text"@, texts@[i as int]@),
            ));
            assert(params_view(params@) =~~= head + text_params(texts@.take(i + 1int)));
        }
        i += 1;
    }
    assert(texts@.take(n as int) =~= texts@);
    assert(params_view(params@) =~~= head + text_params(text_list.texts@));
    match options {
        Option::Some(o) => {
            append_option_params(&mut params, o);
        },
        Option::None => {},
    }
    assert(params_view(params@) =~~= translate_params(options, text_list));
    params
}

/// Builds the parameter list of a glossary creation request.
pub fn build_create_glossary_params(
    name: String,
    source_lang: String,
    target_lang: String,
    entries: String,
    entries_format: GlossaryEntriesFormat,
) -> (r: Vec<(String, String)>)
    ensures
        params_view(r@) == create_glossary_params(
            name@,
            source_lang@,
            target_lang@,
            entries@,
            entries_format,
        ),
{
    let mut params: Vec<(String, String)> = Vec::new();
    let ghost expected = create_glossary_params(
        name@,
        source_lang@,
        target_lang@,
        entries@,
        entries_format,
    );
    push_param(&mut params, "name", name);
    push_param(&mut params, "source_lang", source_lang);
    push_param(&mut params, "target_lang", target_lang);
    push_param(&mut params, "entries", entries);
    push_param(&mut params, "entries_format", String::from_str(
        entries_format_wire(&entries_format),
    ));
    assert(params_view(params@) =~~= expected);
    params
}

} // verus!
