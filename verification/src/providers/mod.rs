//! Classification of what goes wrong when a data source is asked for bars.
use vstd::prelude::*;
use crate::text::{chars_of, push_all, push_str, string_of};

pub mod alpha_vantage;
pub mod eastmoney;
pub mod stooq;

verus! {

#[derive(Clone, Copy, Debug, PartialEq, Eq, Structural)]
pub enum ProviderErrorKind {
    Http,
    RateLimited,
    Auth,
    NoData,
    MalformedResponse,
    UnsupportedInstrument,
    ProviderMessage,
}

impl ProviderErrorKind {
    /// The stored name of the kind.
    pub open spec fn name(self) -> Seq<char> {
        match self {
            ProviderErrorKind::Http => "http"@,
            ProviderErrorKind::RateLimited => "rate_limited"@,
            ProviderErrorKind::Auth => "auth"@,
            ProviderErrorKind::NoData => "no_data"@,
            ProviderErrorKind::MalformedResponse => "malformed_response"@,
            ProviderErrorKind::UnsupportedInstrument => "unsupported_instrument"@,
            ProviderErrorKind::ProviderMessage => "provider_message"@,
        }
    }

    pub fn as_str(self) -> (s: &'static str)
        ensures
            s@ == self.name(),
    {
        match self {
            ProviderErrorKind::Http => "http",
            ProviderErrorKind::RateLimited => "rate_limited",
            ProviderErrorKind::Auth => "auth",
            ProviderErrorKind::NoData => "no_data",
            ProviderErrorKind::MalformedResponse => "malformed_response",
            ProviderErrorKind::UnsupportedInstrument => "unsupported_instrument",
            ProviderErrorKind::ProviderMessage => "provider_message",
        }
    }
}

/// Different kinds have different stored names.
pub proof fn law_kind_names_distinct(a: ProviderErrorKind, b: ProviderErrorKind)
    requires
        a != b,
    ensures
        a.name() != b.name(),
{
    reveal_strlit("http");
    reveal_strlit("rate_limited");
    reveal_strlit("auth");
    reveal_strlit("no_data");
    reveal_strlit("malformed_response");
    reveal_strlit("unsupported_instrument");
    reveal_strlit("provider_message");
    assert("http"@.len() == 4 && "auth"@.len() == 4 && "rate_limited"@.len() == 12);
    assert("no_data"@.len() == 7 && "malformed_response"@.len() == 18);
    assert("unsupported_instrument"@.len() == 22 && "provider_message"@.len() == 16);
    assert("http"@[0] != "auth"@[0]);
}

/// A classified failure of a data source.
#[derive(Clone, Debug)]
pub struct ProviderError {
    pub provider: String,
    pub kind: ProviderErrorKind,
    pub raw_message: String,
}

impl ProviderError {
    pub open spec fn is(self, provider: Seq<char>, kind: ProviderErrorKind, raw: Seq<char>) -> bool {
        &&& self.provider@ == provider
        &&& self.kind == kind
        &&& self.raw_message@ == raw
    }

    pub fn new(provider: &str, kind: ProviderErrorKind, raw_message: &str) -> (e: ProviderError)
        ensures
            e.is(provider@, kind, raw_message@),
    {
        ProviderError {
            provider: provider.to_owned(),
            kind,
            raw_message: raw_message.to_owned(),
        }
    }

    pub fn with_chars(provider: &str, kind: ProviderErrorKind, raw: &Vec<char>) -> (e: ProviderError)
        ensures
            e.is(provider@, kind, raw@),
    {
        ProviderError { provider: provider.to_owned(), kind, raw_message: string_of(raw) }
    }

    /// `"{provider} {kind}: {raw_message}"`, the error's display text.
    pub open spec fn display(self) -> Seq<char> {
        self.provider@ + " "@ + self.kind.name() + ": "@ + self.raw_message@
    }

    pub fn message(&self) -> (s: String)
        ensures
            s@ == self.display(),
    {
        let mut out = chars_of(self.provider.as_str());
        push_str(&mut out, " ");
        push_str(&mut out, self.kind.as_str());
        push_str(&mut out, ": ");
        let raw = chars_of(self.raw_message.as_str());
        push_all(&mut out, &raw);
        string_of(&out)
    }
}

/// An error as a caller of a data source sees it: either classified by the
/// source, or any other failure with its message.
#[derive(Clone, Debug)]
pub enum FetchError {
    Provider(ProviderError),
    Other(String),
}

impl FetchError {
    /// The error's display text.
    pub open spec fn display(self) -> Seq<char> {
        match self {
            FetchError::Provider(e) => e.display(),
            FetchError::Other(m) => m@,
        }
    }
}

/// The text of `Url::parse(base)` after `query_pairs_mut().extend_pairs(pairs)`,
/// or the `Display` text of the parse error.
pub uninterp spec fn url_query_text(base: Seq<char>, pairs: Seq<(Seq<char>, Seq<char>)>) -> Result<Seq<char>, Seq<char>>;

pub open spec fn pair_views(pairs: Seq<(String, String)>) -> Seq<(Seq<char>, Seq<char>)> {
    pairs.map_values(|p: (String, String)| (p.0@, p.1@))
}

pub open spec fn text_result(r: Result<String, String>) -> Result<Seq<char>, Seq<char>> {
    match r {
        Ok(s) => Ok(s@),
        Err(e) => Err(e@),
    }
}

/// `url::Url::parse(base)`, then the pairs appended, in order, with
/// `query_pairs_mut().extend_pairs`; the result is the URL's text.  The
/// contract names that text (or the parse error's text) and says no more.
#[verifier::external_body]
pub(crate) fn url_with_query(base: &str, pairs: &Vec<(String, String)>) -> (r: Result<String, String>)
    ensures
        text_result(r) == url_query_text(base@, pair_views(pairs@)),
{
    match url::Url::parse(base) {
        Ok(mut url) => {
            url.query_pairs_mut().extend_pairs(pairs.iter());
            Ok(url.to_string())
        },
        Err(e) => Err(e.to_string()),
    }
}

/// A built request URL as a fetch result: the URL, or the parse error as an
/// unclassified failure.
pub open spec fn request_outcome(built: Result<Seq<char>, Seq<char>>, r: Result<String, FetchError>) -> bool {
    match built {
        Ok(u) => r matches Ok(s) && s@ == u,
        Err(m) => r matches Err(FetchError::Other(t)) && t@ == m,
    }
}

pub(crate) fn request_url(base: &str, pairs: &Vec<(String, String)>) -> (r: Result<String, FetchError>)
    ensures
        request_outcome(url_query_text(base@, pair_views(pairs@)), r),
{
    match url_with_query(base, pairs) {
        Ok(u) => Ok(u),
        Err(m) => Err(FetchError::Other(m)),
    }
}

} // verus!
