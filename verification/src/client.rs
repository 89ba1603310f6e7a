//! The API client: a credential plus one request builder per remote
//! endpoint.
//!
//! Construction never fails and performs no network activity.  Each builder
//! assembles the complete request for its operation; the unverified front
//! end sends it and brings the outcome back through [`crate::response`].

use vstd::prelude::*;

use crate::request::{
    api_base_url, authorization_header_value, auth_header_text, base_url_text,
    build_create_glossary_params, build_translate_params, create_glossary_params, glossary_path,
    glossary_path_text, languages_params, params_view, push_param, translate_params, HttpMethod,
    HttpRequest,
};
use crate::types::{GlossaryEntriesFormat, TranslatableTextList, TranslationOptions};

verus! {

/// The shape every assembled request has: the URL is the credential's base
/// endpoint followed by the operation's path, the authorization header
/// carries the credential, and the parameters are exactly the operation's.
pub open spec fn request_shape(
    r: HttpRequest,
    key: Seq<char>,
    method: HttpMethod,
    path: Seq<char>,
    params: Seq<(Seq<char>, Seq<char>)>,
) -> bool {
    &&& r.method == method
    &&& r.url@ == base_url_text(key) + path
    &&& r.authorization@ == auth_header_text(key)
    &&& params_view(r.params@) == params
}

/// The main API entry point, representing a DeepL developer account with
/// an associated API key.
pub struct DeepL {
    api_key: String,
}

impl DeepL {
    /// The credential this client authenticates with.
    pub closed spec fn key(&self) -> Seq<char> {
        self.api_key@
    }

    /// Creates a new API client instance for one account.  A valid
    /// `api_key` is required for the requests to be accepted; construction
    /// itself cannot fail.
    pub fn new(api_key: String) -> (r: DeepL)
        ensures
            r.key() == api_key@,
    {
        DeepL { api_key }
    }

    /// Assembles a request against this account's base endpoint.
    fn prepare(&self, method: HttpMethod, path: &str, params: Vec<(String, String)>) -> (r:
        HttpRequest)
        ensures
            request_shape(r, self.key(), method, path@, params_view(params@)),
    {
        let url = String::from_str(api_base_url(self.api_key.as_str())).concat(path);
        let authorization = authorization_header_value(self.api_key.as_str());
        HttpRequest { method, url, authorization, params }
    }

    /// The request that retrieves information about API usage & limits.
    pub fn usage_request(&self) -> (r: HttpRequest)
        ensures
            request_shape(r, self.key(), HttpMethod::Post, "/usage"@, Seq::empty()),
    {
        let params: Vec<(String, String)> = Vec::new();
        assert(params_view(params@) =~~= Seq::<(Seq<char>, Seq<char>)>::empty());
        self.prepare(HttpMethod::Post, "/usage", params)
    }

    /// The request that retrieves one of the two language lists; the
    /// direction discriminator is `source` or `target`.
    fn languages_request(&self, language_type: &'static str) -> (r: HttpRequest)
        ensures
            request_shape(
                r,
                self.key(),
                HttpMethod::Post,
                "/languages"@,
                languages_params(language_type@),
            ),
    {
        let mut params: Vec<(String, String)> = Vec::new();
        push_param(&mut params, "type", String::from_str(language_type));
        assert(params_view(params@) =~~= languages_params(language_type@));
        self.prepare(HttpMethod::Post, "/languages", params)
    }

    /// The request that retrieves all currently available source languages.
    pub fn source_languages_request(&self) -> (r: HttpRequest)
        ensures
            request_shape(
                r,
                self.key(),
                HttpMethod::Post,
                "/languages"@,
                languages_params("source"@),
            ),
    {
        self.languages_request("source")
    }

    /// The request that retrieves all currently available target languages.
    pub fn target_languages_request(&self) -> (r: HttpRequest)
        ensures
            request_shape(
                r,
                self.key(),
                HttpMethod::Post,
                "/languages"@,
                languages_params("target"@),
            ),
    {
        self.languages_request("target")
    }

    /// The request that translates one or more text blocks at once, with
    /// optional translation flags.
    pub fn translate_request(
        &self,
        options: Option<TranslationOptions>,
        text_list: TranslatableTextList,
    ) -> (r: HttpRequest)
        ensures
            request_shape(
                r,
                self.key(),
                HttpMethod::Post,
                "/translate"@,
                translate_params(options, text_list),
            ),
    {
        let params = build_translate_params(options, text_list);
        self.prepare(HttpMethod::Post, "/translate", params)
    }

    /// The request that creates a glossary from an entries payload.
    pub fn create_glossary_request(
        &self,
        name: String,
        source_lang: String,
        target_lang: String,
        entries: String,
        entries_format: GlossaryEntriesFormat,
    ) -> (r: HttpRequest)
        ensures
            request_shape(
                r,
                self.key(),
                HttpMethod::Post,
                "/glossaries"@,
                create_glossary_params(name@, source_lang@, target_lang@, entries@, entries_format),
            ),
    {
        let params = build_create_glossary_params(
            name,
            source_lang,
            target_lang,
            entries,
            entries_format,
        );
        self.prepare(HttpMethod::Post, "/glossaries", params)
    }

    /// The request that lists all glossaries owned by the account.
    pub fn list_glossaries_request(&self) -> (r: HttpRequest)
        ensures
            request_shape(r, self.key(), HttpMethod::Get, "/glossaries"@, Seq::empty()),
    {
        let params: Vec<(String, String)> = Vec::new();
        assert(params_view(params@) =~~= Seq::<(Seq<char>, Seq<char>)>::empty());
        self.prepare(HttpMethod::Get, "/glossaries", params)
    }

    /// The request that retrieves one glossary by identifier.
    pub fn get_glossary_request(&self, glossary_id: &str) -> (r: HttpRequest)
        ensures
            request_shape(
                r,
                self.key(),
                HttpMethod::Get,
                glossary_path_text(glossary_id@),
                Seq::empty(),
            ),
    {
        let path = glossary_path(glossary_id);
        self.prepare_owned_path(HttpMethod::Get, path)
    }

    /// The request that deletes one glossary by identifier.
    pub fn delete_glossary_request(&self, glossary_id: &str) -> (r: HttpRequest)
        ensures
            request_shape(
                r,
                self.key(),
                HttpMethod::Delete,
                glossary_path_text(glossary_id@),
                Seq::empty(),
            ),
    {
        let path = glossary_path(glossary_id);
        self.prepare_owned_path(HttpMethod::Delete, path)
    }

    /// Assembles a parameterless request whose path was built at run time.
    fn prepare_owned_path(&self, method: HttpMethod, path: String) -> (r: HttpRequest)
        ensures
            request_shape(r, self.key(), method, path@, Seq::empty()),
    {
        let url = String::from_str(api_base_url(self.api_key.as_str())).concat(path.as_str());
        let authorization = authorization_header_value(self.api_key.as_str());
        let params: Vec<(String, String)> = Vec::new();
        assert(params_view(params@) =~~= Seq::<(Seq<char>, Seq<char>)>::empty());
        HttpRequest { method, url, authorization, params }
    }
}

} // verus!
