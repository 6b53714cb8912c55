//! The online translation providers: the requests they send and how a reply becomes a
//! translation or an error.
use vstd::prelude::*;

use crate::text::{concat2, concat3, push_str, to_owned_string, trim_end_by, trim_end_char};

verus! {

/// How an HTTP request to a translation service ended.
pub enum HttpReply<T> {
    /// The request could not be sent or answered; the error's text.
    RequestFailed(String),
    /// The service answered with a status other than success; the status text and the
    /// body.
    Rejected { status: String, body: String },
    /// The service answered with success; what reading the body gave.
    Parsed(Result<T, String>),
}

/// The base URL without trailing slashes, followed by `path`.
pub open spec fn endpoint_text(base_url: Seq<char>, path: Seq<char>) -> Seq<char> {
    trim_end_by(base_url, |c: char| c == '/') + path
}

proof fn lemma_trim_slashes_appended(base: Seq<char>, slashes: Seq<char>)
    requires
        forall|i: int| 0 <= i < slashes.len() ==> slashes[i] == '/',
    ensures
        trim_end_by(base + slashes, |c: char| c == '/') == trim_end_by(base, |c: char| c == '/'),
    decreases slashes.len(),
{
    if slashes.len() == 0 {
        assert(base + slashes =~= base);
    } else {
        let s = base + slashes;
        assert(s.drop_last() =~= base + slashes.drop_last());
        assert(s.last() == '/');
        lemma_trim_slashes_appended(base, slashes.drop_last());
    }
}

/// The endpoint is the base URL, without its trailing slashes, joined to the path: a base
/// URL that does not end in `/` is kept whole, and adding slashes to its end changes
/// nothing.
pub proof fn law_endpoint_joins_base_and_path(base: Seq<char>, slashes: Seq<char>, path: Seq<char>)
    requires
        forall|i: int| 0 <= i < slashes.len() ==> slashes[i] == '/',
    ensures
        endpoint_text(base + slashes, path) == endpoint_text(base, path),
        base.len() == 0 || base.last() != '/' ==> endpoint_text(base, path) == base + path,
{
    lemma_trim_slashes_appended(base, slashes);
}

/// The error text for a failed request, a rejected request or an unreadable reply of
/// the service named `service`.
pub open spec fn reply_failure<T>(service: Seq<char>, reply: HttpReply<T>) -> Seq<char> {
    match reply {
        HttpReply::RequestFailed(e) => service + " request failed: "@ + e@,
        HttpReply::Rejected { status, body } => service + " returned "@ + status@ + ": "@ + body@,
        HttpReply::Parsed(Err(e)) => "failed to parse "@ + service + " response: "@ + e@,
        HttpReply::Parsed(Ok(_)) => Seq::empty(),
    }
}

/// Renders the error of a reply that is not a readable success.
fn failure_text<T>(service: &str, reply: &HttpReply<T>) -> (r: String)
    requires
        !(reply matches HttpReply::Parsed(Ok(_))),
    ensures
        r@ == reply_failure(service@, *reply),
{
    match reply {
        HttpReply::RequestFailed(e) => concat3(service, " request failed: ", e),
        HttpReply::Rejected { status, body } => {
            let mut r = concat3(service, " returned ", status);
            push_str(&mut r, ": ");
            push_str(&mut r, body);
            r
        },
        HttpReply::Parsed(Err(e)) => {
            let mut r = concat3("failed to parse ", service, " response: ");
            push_str(&mut r, e);
            r
        },
        HttpReply::Parsed(Ok(_)) => String::new(),
    }
}

/// The DeepL translation API.
pub struct DeepLTranslatorProvider {
    pub api_key: String,
    pub base_url: String,
}

impl DeepLTranslatorProvider {
    /// The translate endpoint: the base URL without trailing slashes, then
    /// `/v2/translate`.
    pub fn endpoint(&self) -> (r: String)
        ensures
            r@ == endpoint_text(self.base_url@, "/v2/translate"@),
    {
        let mut r = trim_end_char(self.base_url.as_str(), '/');
        push_str(&mut r, "/v2/translate");
        r
    }

    /// The value of the `Authorization` header: `DeepL-Auth-Key <key>`.
    pub fn authorization(&self) -> (r: String)
        ensures
            r@ == "DeepL-Auth-Key "@ + self.api_key@,
    {
        concat2("DeepL-Auth-Key ", self.api_key.as_str())
    }

    /// The form fields of a request: the text, then the target language.
    pub fn form(input: &str, target_lang: &str) -> (r: Vec<(String, String)>)
        ensures
            r@.len() == 2,
            r@[0].0@ == "text"@ && r@[0].1@ == input@,
            r@[1].0@ == "target_lang"@ && r@[1].1@ == target_lang@,
    {
        let mut v = Vec::new();
        v.push((to_owned_string("text"), to_owned_string(input)));
        v.push((to_owned_string("target_lang"), to_owned_string(target_lang)));
        v
    }

    /// The translation a reply gives: the first translation's text of a successful
    /// reply; an error for a reply without translations, or one that is not a readable
    /// success.
    pub fn translation(reply: HttpReply<Vec<String>>) -> (r: Result<String, String>)
        ensures
            match reply {
                HttpReply::Parsed(Ok(texts)) => if texts@.len() > 0 {
                    r == Ok::<String, String>(texts@[0])
                } else {
                    (r matches Err(m) && m@ == "DeepL response missing translations"@)
                },
                _ => (r matches Err(m) && m@ == reply_failure("DeepL"@, reply)),
            },
    {
        match reply {
            HttpReply::Parsed(Ok(texts)) => {
                if texts.len() > 0 {
                    let mut texts = texts;
                    Ok(texts.swap_remove(0))
                } else {
                    Err(to_owned_string("DeepL response missing translations"))
                }
            },
            _ => Err(failure_text("DeepL", &reply)),
        }
    }
}

/// The JSON body of a LibreTranslate request; `api_key` is left out when absent.
pub struct LibreTranslateRequest {
    pub q: String,
    pub source: String,
    pub target: String,
    pub format: String,
    pub api_key: Option<String>,
}

/// A LibreTranslate server.
pub struct LibreTranslateProvider {
    pub base_url: String,
    pub api_key: Option<String>,
}

impl LibreTranslateProvider {
    /// The translate endpoint: the base URL without trailing slashes, then `/translate`.
    pub fn endpoint(&self) -> (r: String)
        ensures
            r@ == endpoint_text(self.base_url@, "/translate"@),
    {
        let mut r = trim_end_char(self.base_url.as_str(), '/');
        push_str(&mut r, "/translate");
        r
    }

    /// The body of a request: the text, source language detection, the target language,
    /// plain text format, and the API key when there is one.
    pub fn request_body(&self, input: &str, target_lang: &str) -> (r: LibreTranslateRequest)
        ensures
            r.q@ == input@,
            r.source@ == "auto"@,
            r.target@ == target_lang@,
            r.format@ == "text"@,
            r.api_key == self.api_key,
    {
        LibreTranslateRequest {
            q: to_owned_string(input),
            source: to_owned_string("auto"),
            target: to_owned_string(target_lang),
            format: to_owned_string("text"),
            api_key: match &self.api_key {
                Some(k) => Some(k.clone()),
                None => None,
            },
        }
    }

    /// The translation a reply gives: the translated text of a successful reply, or an
    /// error for one that is not a readable success.
    pub fn translation(reply: HttpReply<String>) -> (r: Result<String, String>)
        ensures
            match reply {
                HttpReply::Parsed(Ok(text)) => r == Ok::<String, String>(text),
                _ => (r matches Err(m) && m@ == reply_failure("LibreTranslate"@, reply)),
            },
    {
        match reply {
            HttpReply::Parsed(Ok(text)) => Ok(text),
            _ => Err(failure_text("LibreTranslate", &reply)),
        }
    }
}

} // verus!
