use vstd::prelude::*;

verus! {

/// `url::ParseError`, the reason a URL was refused.
#[verifier::external_type_specification]
#[verifier::external_body]
pub struct ExUrlParseError(url::ParseError);

/// What the library reads of a parsed URL: its serialization and, when its
/// host is a domain name, that domain.
#[derive(Clone, Debug)]
pub struct ParsedUrl {
    text: String,
    domain: Option<String>,
}

/// The mathematical model of a [`ParsedUrl`].
pub struct UrlView {
    pub text: Seq<char>,
    pub domain: Option<Seq<char>>,
}

pub open spec fn opt_str_view(o: Option<String>) -> Option<Seq<char>> {
    match o {
        Some(s) => Some(s@),
        None => None,
    }
}

impl View for ParsedUrl {
    type V = UrlView;

    closed spec fn view(&self) -> UrlView {
        UrlView { text: self.text@, domain: opt_str_view(self.domain) }
    }
}

/// What `url::Url::parse` gives for `input`: the URL, or the error it
/// refuses `input` with.
pub uninterp spec fn url_parse(input: Seq<char>) -> Result<UrlView, url::ParseError>;

/// What `url::Url::parse(base)` followed by `Url::join(reference)` gives:
/// the URL, or the error of the step that refuses its input.
pub uninterp spec fn url_parse_join(base: Seq<char>, reference: Seq<char>) -> Result<
    UrlView,
    url::ParseError,
>;

/// What `url::Url::parse(input)` followed by `Url::set_path("")` gives: the
/// URL, or the error the parse refuses `input` with.
pub uninterp spec fn url_parse_clear_path(input: Seq<char>) -> Result<UrlView, url::ParseError>;

/// `r` is the outcome `expected` describes: the same URL, or the same error.
pub open spec fn url_outcome(r: Result<ParsedUrl, url::ParseError>, expected: Result<UrlView, url::ParseError>) -> bool {
    match r {
        Ok(u) => expected == Ok::<UrlView, url::ParseError>(u@),
        Err(e) => expected == Err::<UrlView, url::ParseError>(e),
    }
}

pub fn clone_opt_string(o: &Option<String>) -> (r: Option<String>)
    ensures
        r == *o,
{
    match o {
        Some(s) => Some(s.clone()),
        None => None,
    }
}

/// Calls `url::Url::parse`. Claims only that the outcome, URL or error, is
/// the one `url_parse` names for `input`: which strings parse and to what is
/// left to the `url` crate.
#[verifier::external_body]
fn parse_url(input: &str) -> (r: Result<ParsedUrl, url::ParseError>)
    ensures
        url_outcome(r, url_parse(input@)),
{
    let u = url::Url::parse(input)?;
    Ok(ParsedUrl { text: u.as_str().to_string(), domain: u.domain().map(|d| d.to_string()) })
}

/// Calls `url::Url::parse(base)` and then `Url::join(reference)` on the
/// result. Claims only that the outcome is the one `url_parse_join` names.
#[verifier::external_body]
fn parse_join_url(base: &str, reference: &str) -> (r: Result<ParsedUrl, url::ParseError>)
    ensures
        url_outcome(r, url_parse_join(base@, reference@)),
{
    let u = url::Url::parse(base)?.join(reference)?;
    Ok(ParsedUrl { text: u.as_str().to_string(), domain: u.domain().map(|d| d.to_string()) })
}

/// Calls `url::Url::parse(input)` and then `Url::set_path("")` on the
/// result. Claims only that the outcome is the one `url_parse_clear_path` names.
#[verifier::external_body]
fn parse_url_clear_path(input: &str) -> (r: Result<ParsedUrl, url::ParseError>)
    ensures
        url_outcome(r, url_parse_clear_path(input@)),
{
    let mut u = url::Url::parse(input)?;
    u.set_path("");
    Ok(ParsedUrl { text: u.as_str().to_string(), domain: u.domain().map(|d| d.to_string()) })
}

impl ParsedUrl {
    /// Parses an absolute URL.
    pub fn parse(input: &str) -> (r: Result<ParsedUrl, url::ParseError>)
        ensures
            url_outcome(r, url_parse(input@)),
    {
        parse_url(input)
    }

    /// Parses `base` and resolves `reference` against it.
    pub fn parse_join(base: &str, reference: &str) -> (r: Result<ParsedUrl, url::ParseError>)
        ensures
            url_outcome(r, url_parse_join(base@, reference@)),
    {
        parse_join_url(base, reference)
    }

    /// Parses `input` and empties its path; query and fragment are left as
    /// the `url` crate leaves them.
    pub fn parse_without_path(input: &str) -> (r: Result<ParsedUrl, url::ParseError>)
        ensures
            url_outcome(r, url_parse_clear_path(input@)),
    {
        parse_url_clear_path(input)
    }

    /// The serialization of the URL.
    pub fn as_str(&self) -> (r: &str)
        ensures
            r@ == self@.text,
    {
        self.text.as_str()
    }

    /// The domain of the URL's host, when it has one that is not an IP address.
    pub fn domain(&self) -> (r: Option<String>)
        ensures
            opt_str_view(r) == self@.domain,
    {
        clone_opt_string(&self.domain)
    }

    /// Whether the serialization of the URL is `s`.
    pub fn text_is(&self, s: &String) -> (r: bool)
        ensures
            r == (self@.text == s@),
    {
        self.text == *s
    }

    pub fn clone_url(&self) -> (r: ParsedUrl)
        ensures
            r@ == self@,
    {
        ParsedUrl { text: self.text.clone(), domain: clone_opt_string(&self.domain) }
    }
}

} // verus!
