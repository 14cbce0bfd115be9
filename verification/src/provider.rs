//! The description of one Yggdrasil-protocol server: where it is, and the
//! domain under which its accounts are filed.

use crate::error::{DrasilInputError, DrasilInputErrorView};
use crate::text::{contains_text, join, trim, trimmed};
use vstd::prelude::*;

verus! {

/// An address as the URL parser read it: its normalised text, and its host
/// where it has one.
#[derive(Debug)]
pub struct ParsedUrl {
    pub href: String,
    pub host: Option<String>,
}

/// The model of a [`ParsedUrl`].
pub struct ParsedUrlView {
    pub href: Seq<char>,
    pub host: Option<Seq<char>>,
}

impl View for ParsedUrl {
    type V = ParsedUrlView;

    open spec fn view(&self) -> ParsedUrlView {
        ParsedUrlView {
            href: self.href@,
            host: match self.host {
                Some(host) => Some(host@),
                None => None,
            },
        }
    }
}

/// The model of what the URL parser answers: the address, or its complaint.
pub open spec fn parse_view(parsed: Result<ParsedUrl, String>) -> Result<ParsedUrlView, Seq<char>> {
    match parsed {
        Ok(url) => Ok(url@),
        Err(complaint) => Err(complaint@),
    }
}

/// What the URL parser makes of a text: the normalised address with its host,
/// or the parser's complaint. The URL standard defines it; here it only has a
/// name.
pub uninterp spec fn url_parse(input: Seq<char>) -> Result<ParsedUrlView, Seq<char>>;

/// The address that a relative reference denotes when resolved against a
/// base address, where both can be read. The URL standard defines it; here
/// it only has a name.
pub uninterp spec fn url_join(base: Seq<char>, reference: Seq<char>) -> Option<Seq<char>>;

/// Trusted: `url::Url::parse`, with `Url::as_str` and `Url::host_str` to read
/// the result and `Display` of `url::ParseError` for the complaint. The
/// contract claims only that the answer depends on the input alone.
#[verifier::external_body]
fn parse_url(input: &str) -> (r: Result<ParsedUrl, String>)
    ensures
        parse_view(r) == url_parse(input@),
{
    match url::Url::parse(input) {
        Ok(url) => Ok(
            ParsedUrl { href: url.as_str().to_owned(), host: url.host_str().map(str::to_owned) },
        ),
        Err(error) => Err(error.to_string()),
    }
}

/// Trusted: `url::Url::join` on the address that `url::Url::parse` reads
/// from `base`, with `Url::as_str` to read the result. `None` stands for a
/// base or a reference that cannot be read. The contract claims only that
/// the answer depends on the two texts alone.
#[verifier::external_body]
fn join_url(base: &str, reference: &str) -> (r: Option<String>)
    ensures
        match r {
            Some(joined) => url_join(base@, reference@) == Some(joined@),
            None => url_join(base@, reference@) is None,
        },
{
    match url::Url::parse(base) {
        Ok(url) => match url.join(reference) {
            Ok(joined) => Some(joined.as_str().to_owned()),
            Err(_) => None,
        },
        Err(_) => None,
    }
}

/// One Yggdrasil-protocol server.
#[derive(Debug)]
pub struct YggdrasilProvider {
    /// Location of the auth server, as the URL parser normalised it.
    url: String,
    /// The host named in `url`.
    host: String,
}

/// The model of a [`YggdrasilProvider`].
pub struct ProviderView {
    pub url: Seq<char>,
    pub host: Seq<char>,
}

impl View for YggdrasilProvider {
    type V = ProviderView;

    closed spec fn view(&self) -> ProviderView {
        ProviderView { url: self.url@, host: self.host@ }
    }
}

impl Clone for YggdrasilProvider {
    fn clone(&self) -> (r: Self)
        ensures
            r == *self,
    {
        YggdrasilProvider { url: self.url.clone(), host: self.host.clone() }
    }
}

/// What is said of an address that has no host.
pub open spec fn host_missing() -> Seq<char> {
    "Url must have a host for example: https://example.com/authenticate"@
}

/// What is said of an address that the parser could not read: the parser's
/// complaint, and after it the hint at the expected shape.
pub open spec fn unreadable(complaint: Seq<char>) -> Seq<char> {
    complaint + ". "@ + host_missing()
}

/// The provider that a parsed address describes: the address must have been
/// read and must name a host. Every refusal shows the expected shape.
pub open spec fn provider_of(parsed: Result<ParsedUrlView, Seq<char>>) -> Result<
    ProviderView,
    DrasilInputErrorView,
> {
    match parsed {
        Err(complaint) => Err(DrasilInputErrorView::CantParseUrl(unreadable(complaint))),
        Ok(url) => match url.host {
            None => Err(DrasilInputErrorView::CantParseUrl(host_missing())),
            Some(host) => Ok(ProviderView { url: url.href, host }),
        },
    }
}

/// The model of a provider or the reason why there is none.
pub open spec fn provider_result_view(r: Result<YggdrasilProvider, DrasilInputError>) -> Result<
    ProviderView,
    DrasilInputErrorView,
> {
    match r {
        Ok(provider) => Ok(provider@),
        Err(error) => Err(error@),
    }
}

impl YggdrasilProvider {
    /// Makes a provider of what the URL parser answered. An address that was
    /// not read, as a relative path is not, is refused with the parser's
    /// complaint and a hint at the expected shape; one without a host with
    /// the hint alone.
    pub fn from_parsed(parsed: Result<ParsedUrl, String>) -> (r: Result<Self, DrasilInputError>)
        ensures
            provider_result_view(r) == provider_of(parse_view(parsed)),
    {
        match parsed {
            Err(complaint) => Err(
                DrasilInputError::CantParseUrl(
                    join(complaint.as_str(), ". ").concat(
                        "Url must have a host for example: https://example.com/authenticate",
                    ),
                ),
            ),
            Ok(url) => match url.host {
                None => Err(
                    DrasilInputError::CantParseUrl(
                        String::from_str(
                            "Url must have a host for example: https://example.com/authenticate",
                        ),
                    ),
                ),
                Some(host) => Ok(YggdrasilProvider { url: url.href, host }),
            },
        }
    }

    /// A provider whose address and host are known beforehand.
    pub(crate) fn known(url: &str, host: &str) -> (r: Self)
        ensures
            r@ == (ProviderView { url: url@, host: host@ }),
    {
        YggdrasilProvider { url: String::from_str(url), host: String::from_str(host) }
    }

    /// Reads a provider from the address that a user typed. White space
    /// around the address is ignored. The provider is made exactly when the
    /// rest is an absolute URL with a host, and then its domain is that host.
    pub fn parse(url: &str) -> (r: Result<Self, DrasilInputError>)
        ensures
            provider_result_view(r) == provider_of(url_parse(trimmed(url@))),
    {
        Self::from_parsed(parse_url(trim(url)))
    }

    /// The host of the server: the label of its accounts and the second half
    /// of their keys in the credential store.
    pub fn domain(&self) -> (r: String)
        ensures
            r@ == self@.host,
    {
        self.host.clone()
    }

    /// The address of the server.
    pub fn url(&self) -> (r: &str)
        ensures
            r@ == self@.url,
    {
        self.url.as_str()
    }

    /// The address of one of the server's operations: `path` resolved against
    /// the server's address, or `None` where the URL rules give no such
    /// address.
    pub fn endpoint(&self, path: &str) -> (r: Option<String>)
        ensures
            match r {
                Some(address) => url_join(self@.url, path@) == Some(address@),
                None => url_join(self@.url, path@) is None,
            },
    {
        join_url(self.url.as_str(), path)
    }
}

/// An address that the parser reads as an absolute URL with a host gives a
/// provider, and the provider's domain is exactly that host.
pub proof fn lemma_parse_accepts_host(input: Seq<char>)
    ensures
        match url_parse(trimmed(input)) {
            Ok(ParsedUrlView { href, host: Some(host) }) => provider_of(url_parse(trimmed(input)))
                == Ok::<ProviderView, DrasilInputErrorView>(ProviderView { url: href, host }),
            _ => true,
        },
{
}

/// An address that the parser does not read as an absolute URL, or reads as
/// one without a host, gives no provider: it is refused with
/// [`DrasilInputError::CantParseUrl`].
pub proof fn lemma_parse_refuses_hostless(input: Seq<char>)
    ensures
        match url_parse(trimmed(input)) {
            Ok(ParsedUrlView { href, host: Some(host) }) => true,
            _ => provider_of(url_parse(trimmed(input))) matches Err(
                DrasilInputErrorView::CantParseUrl(_),
            ),
        },
{
}

/// Whatever the parser answered, the reason of a refusal holds the hint at
/// the expected shape, with its example of a scheme, `://` and a host.
pub proof fn lemma_refusal_shows_shape(parsed: Result<ParsedUrlView, Seq<char>>)
    ensures
        provider_of(parsed) matches Err(DrasilInputErrorView::CantParseUrl(reason))
            ==> contains_text(reason, host_missing()) && contains_text(
            reason,
            "https://example.com/"@,
        ),
{
    reveal_strlit("Url must have a host for example: https://example.com/authenticate");
    reveal_strlit("https://example.com/");
    let hint = host_missing();
    let example = "https://example.com/"@;
    assert(hint.subrange(34, 34 + example.len() as int) =~= example);
    match parsed {
        Err(complaint) => {
            let reason = unreadable(complaint);
            let start = (complaint + ". "@).len() as int;
            assert(reason.subrange(start, start + hint.len() as int) =~= hint);
            assert(reason.subrange(start + 34, start + 34 + example.len() as int) =~= example);
        },
        Ok(url) => {
            assert(hint.subrange(0, 0 + hint.len() as int) =~= hint);
        },
    }
}

} // verus!
