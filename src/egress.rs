//! The URL egress check: classifies a raw string as an approved fetch target or a
//! rejection with its reason.
use vstd::prelude::*;
use vstd::string::*;

verus! {

#[verifier::external_type_specification]
#[verifier::external_body]
pub struct ExParseError(url::ParseError);

/// A parsed URL, as the parts of it that the egress check reads. Only the
/// URL parser constructs one.
#[derive(Debug, Clone, PartialEq, Eq)]
pub struct ParsedUrl {
    /// The scheme, lower-cased, without the `:` delimiter.
    scheme: String,
    /// The host (a domain or an IP address), where the URL has one.
    host: Option<String>,
    /// The serialization of the whole URL.
    href: String,
}

/// The mathematical value of a [`ParsedUrl`].
pub ghost struct UrlParts {
    pub scheme: Seq<char>,
    pub host: Option<Seq<char>>,
    pub href: Seq<char>,
}

impl View for ParsedUrl {
    type V = UrlParts;

    closed spec fn view(&self) -> UrlParts {
        UrlParts {
            scheme: self.scheme@,
            host: match self.host {
                Some(h) => Some(h@),
                None => None,
            },
            href: self.href@,
        }
    }
}

/// What `url::Url::parse` makes of a string: `None` where it refuses it, else
/// the parsed URL's scheme, host and serialization.
pub uninterp spec fn parsed_url_of(s: Seq<char>) -> Option<UrlParts>;

/// Relies on `url::Url::parse` to parse `s` as an absolute URL, and on the
/// parsed URL's `scheme`, `host_str` and `as_str` to read its parts.
#[verifier::external_body]
fn parse_url(s: &str) -> (r: Result<ParsedUrl, url::ParseError>)
    ensures
        match parsed_url_of(s@) {
            Some(u) => r is Ok && r->Ok_0@ == u,
            None => r is Err,
        },
{
    let url = url::Url::parse(s)?;
    Ok(ParsedUrl {
        scheme: url.scheme().to_string(),
        host: url.host_str().map(|h| h.to_string()),
        href: url.as_str().to_string(),
    })
}

/// Whether `u` is what the URL parser makes of some string.
pub open spec fn from_parser(u: UrlParts) -> bool {
    exists|s: Seq<char>| #[trigger] parsed_url_of(s) == Some(u)
}

impl ParsedUrl {
    /// The scheme, lower-cased, without the `:` delimiter.
    pub fn scheme(&self) -> (r: &str)
        ensures
            r@ == self@.scheme,
    {
        self.scheme.as_str()
    }

    /// The host, where the URL has one.
    pub fn host(&self) -> (r: Option<&str>)
        ensures
            match self@.host {
                Some(h) => r matches Some(x) && x@ == h,
                None => r is None,
            },
    {
        match &self.host {
            Some(h) => Some(h.as_str()),
            None => None,
        }
    }

    /// The serialization of the whole URL.
    pub fn as_str(&self) -> (r: &str)
        ensures
            r@ == self@.href,
    {
        self.href.as_str()
    }
}

/// The fixed set of domains that a fetch may go to, compared by exact
/// equality with the parsed host.
pub open spec fn allowed_host(h: Seq<char>) -> bool {
    ||| h == "example.com"@
    ||| h == "opensea.io"@
    ||| h == "ipfs.io"@
    ||| h == "arweave.net"@
    ||| h == "metadata.solana.com"@
}

/// Whether `host` is one of the allowlisted domains.
pub fn is_allowed_host(host: &String) -> (r: bool)
    ensures
        r == allowed_host(host@),
{
    let domains = [
        "example.com",
        "opensea.io",
        "ipfs.io",
        "arweave.net",
        "metadata.solana.com",
    ];
    let mut i: usize = 0;
    while i < domains.len()
        invariant
            0 <= i <= domains.len(),
            domains@ == seq!["example.com", "opensea.io", "ipfs.io", "arweave.net", "metadata.solana.com"],
            forall|j: int| 0 <= j < i ==> host@ != domains@[j]@,
        decreases domains.len() - i,
    {
        if *host == String::from_str(domains[i]) {
            return true;
        }
        i = i + 1;
    }
    false
}

/// Why the egress check turned a URL down.
#[derive(Debug, Clone, PartialEq, Eq)]
pub enum ValidationError {
    /// The string does not parse as an absolute URL.
    InvalidFormat,
    /// The scheme is not `https`.
    SchemeNotAllowed,
    /// The URL has no (or an empty) host.
    NoHost,
    /// The host is not on the allowlist; it carries the parsed host.
    DomainNotAllowed(String),
}

/// The mathematical value of a [`ValidationError`].
pub ghost enum Rejection {
    InvalidFormat,
    SchemeNotAllowed,
    NoHost,
    DomainNotAllowed(Seq<char>),
}

impl View for ValidationError {
    type V = Rejection;

    open spec fn view(&self) -> Rejection {
        match self {
            ValidationError::InvalidFormat => Rejection::InvalidFormat,
            ValidationError::SchemeNotAllowed => Rejection::SchemeNotAllowed,
            ValidationError::NoHost => Rejection::NoHost,
            ValidationError::DomainNotAllowed(h) => Rejection::DomainNotAllowed(h@),
        }
    }
}

/// The human-readable reason for a rejection.
pub open spec fn reason_text(e: Rejection) -> Seq<char> {
    match e {
        Rejection::InvalidFormat => "Invalid URL format"@,
        Rejection::SchemeNotAllowed => "Only HTTPS URLs are allowed"@,
        Rejection::NoHost => "No host in URL"@,
        Rejection::DomainNotAllowed(h) => "Domain not in allowlist: "@ + h,
    }
}

impl ValidationError {
    /// The human-readable reason for this rejection.
    pub fn message(&self) -> (r: String)
        ensures
            r@ == reason_text(self@),
    {
        match self {
            ValidationError::InvalidFormat => String::from_str("Invalid URL format"),
            ValidationError::SchemeNotAllowed => String::from_str("Only HTTPS URLs are allowed"),
            ValidationError::NoHost => String::from_str("No host in URL"),
            ValidationError::DomainNotAllowed(h) => {
                String::from_str("Domain not in allowlist: ").concat(h.as_str())
            },
        }
    }
}

/// The checks that follow a successful parse, in order: the scheme, the
/// presence of a host, and the host's membership in the allowlist.
pub open spec fn check_parts(u: UrlParts) -> Result<UrlParts, Rejection> {
    if u.scheme != "https"@ {
        Err(Rejection::SchemeNotAllowed)
    } else {
        match u.host {
            None => Err(Rejection::NoHost),
            Some(h) => if h.len() == 0 {
                Err(Rejection::NoHost)
            } else if !allowed_host(h) {
                Err(Rejection::DomainNotAllowed(h))
            } else {
                Ok(u)
            },
        }
    }
}

/// The egress check's verdict on a raw string, given what the URL parser made of it.
pub open spec fn egress_verdict(parsed: Option<UrlParts>) -> Result<UrlParts, Rejection> {
    match parsed {
        None => Err(Rejection::InvalidFormat),
        Some(u) => check_parts(u),
    }
}

/// The parts of an approved URL: scheme `https` and an allowlisted host.
pub open spec fn approved(u: UrlParts) -> bool {
    &&& u.scheme == "https"@
    &&& u.host matches Some(h) && allowed_host(h)
}

/// A URL that the parser produced from some string and that has passed every
/// egress check. Only the egress check constructs one.
pub struct ApprovedTarget {
    url: ParsedUrl,
}

impl View for ApprovedTarget {
    type V = UrlParts;

    closed spec fn view(&self) -> UrlParts {
        self.url@
    }
}

impl ApprovedTarget {
    #[verifier::type_invariant]
    spec fn inv(self) -> bool {
        approved(self.url@) && from_parser(self.url@)
    }

    /// The serialized URL to fetch, as the parser produced it; the target it
    /// belongs to is an `https` URL with an allowlisted host.
    pub fn as_str(&self) -> (r: &str)
        ensures
            r@ == self@.href,
            approved(self@),
            from_parser(self@),
    {
        proof {
            use_type_invariant(self);
        }
        self.url.href.as_str()
    }

    /// The approved host, one of the allowlisted domains.
    pub fn host(&self) -> (r: &str)
        ensures
            self@.host == Some(r@),
            allowed_host(r@),
    {
        proof {
            use_type_invariant(self);
        }
        match &self.url.host {
            Some(h) => h.as_str(),
            None => "",
        }
    }

    /// The parsed URL that was approved.
    pub fn into_parsed(self) -> (r: ParsedUrl)
        ensures
            r@ == self@,
            approved(r@),
            from_parser(r@),
    {
        proof {
            use_type_invariant(&self);
        }
        self.url
    }
}

/// The view of a validation result.
pub open spec fn verdict_view(r: Result<ApprovedTarget, ValidationError>) -> Result<UrlParts, Rejection> {
    match r {
        Ok(t) => Ok(t@),
        Err(e) => Err(e@),
    }
}

/// Runs the checks that follow a successful parse on `url`.
pub fn check_parsed(url: ParsedUrl) -> (r: Result<ApprovedTarget, ValidationError>)
    requires
        from_parser(url@),
    ensures
        verdict_view(r) == check_parts(url@),
{
    let https = String::from_str("https");
    if url.scheme != https {
        return Err(ValidationError::SchemeNotAllowed);
    }
    let host = match &url.host {
        None => {
            return Err(ValidationError::NoHost);
        },
        Some(h) => h.clone(),
    };
    if host.as_str().unicode_len() == 0 {
        return Err(ValidationError::NoHost);
    }
    if !is_allowed_host(&host) {
        return Err(ValidationError::DomainNotAllowed(host));
    }
    Ok(ApprovedTarget { url })
}

/// Validates a raw, untrusted string into an approved fetch target or the
/// reason it is rejected.
pub fn validate(raw: &str) -> (r: Result<ApprovedTarget, ValidationError>)
    ensures
        verdict_view(r) == egress_verdict(parsed_url_of(raw@)),
{
    match parse_url(raw) {
        Ok(url) => {
            assert(parsed_url_of(raw@) == Some(url@));
            check_parsed(url)
        },
        Err(_) => Err(ValidationError::InvalidFormat),
    }
}

/// Validates `url_str` and hands back the parsed URL, or the reason for the
/// rejection as text.
pub fn is_url_allowed(url_str: &str) -> (r: Result<ParsedUrl, String>)
    ensures
        match egress_verdict(parsed_url_of(url_str@)) {
            Ok(u) => r is Ok && r->Ok_0@ == u,
            Err(e) => r is Err && r->Err_0@ == reason_text(e),
        },
{
    match validate(url_str) {
        Ok(target) => Ok(target.into_parsed()),
        Err(e) => Err(e.message()),
    }
}

/// A string that the parser refuses is rejected as malformed, and a parsed
/// URL whose scheme is anything but `https` is rejected for its scheme.
pub proof fn lemma_only_https(raw: Seq<char>)
    ensures
        parsed_url_of(raw) is None ==> egress_verdict(parsed_url_of(raw)) == Err::<UrlParts, Rejection>(
            Rejection::InvalidFormat,
        ),
        parsed_url_of(raw) matches Some(u) && u.scheme != "https"@ ==> egress_verdict(parsed_url_of(raw))
            == Err::<UrlParts, Rejection>(Rejection::SchemeNotAllowed),
{
}

/// A URL whose host is not on the allowlist is never approved; where its
/// scheme is `https` and its host is not empty, it is rejected as a domain
/// that is not allowed, with that host.
pub proof fn lemma_unlisted_host_rejected(raw: Seq<char>, u: UrlParts, h: Seq<char>)
    requires
        parsed_url_of(raw) == Some(u),
        u.host == Some(h),
        !allowed_host(h),
    ensures
        egress_verdict(parsed_url_of(raw)) is Err,
        u.scheme == "https"@ && h.len() > 0 ==> egress_verdict(parsed_url_of(raw)) == Err::<
            UrlParts,
            Rejection,
        >(Rejection::DomainNotAllowed(h)),
{
}

/// A URL that parses, with scheme `https` and one of the allowlisted hosts,
/// is approved as parsed.
pub proof fn lemma_allowlisted_approved(raw: Seq<char>, u: UrlParts, h: Seq<char>)
    requires
        parsed_url_of(raw) == Some(u),
        u.scheme == "https"@,
        u.host == Some(h),
        allowed_host(h),
    ensures
        egress_verdict(parsed_url_of(raw)) == Ok::<UrlParts, Rejection>(u),
{
    reveal_strlit("example.com");
    reveal_strlit("opensea.io");
    reveal_strlit("ipfs.io");
    reveal_strlit("arweave.net");
    reveal_strlit("metadata.solana.com");
}

/// The egress check approves nothing but what the parser made of the raw string,
/// and only where that has scheme `https` and an allowlisted host: the
/// decision rests on the parsed host, never on the raw text.
pub proof fn lemma_approval_sound(raw: Seq<char>, u: UrlParts)
    requires
        egress_verdict(parsed_url_of(raw)) == Ok::<UrlParts, Rejection>(u),
    ensures
        parsed_url_of(raw) == Some(u),
        approved(u),
{
}

/// Validating the same string twice gives the same verdict.
pub proof fn lemma_validate_idempotent(
    raw: &str,
    first: Result<ApprovedTarget, ValidationError>,
    second: Result<ApprovedTarget, ValidationError>,
)
    requires
        verdict_view(first) == egress_verdict(parsed_url_of(raw@)),
        verdict_view(second) == egress_verdict(parsed_url_of(raw@)),
    ensures
        verdict_view(first) == verdict_view(second),
{
}

} // verus!
