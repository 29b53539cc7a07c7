//! Endpoints: what a written endpoint parses to, and the normalized endpoint
//! that a validated configuration holds. Parsing is the `http` crate's; what
//! is made of the parsed parts is decided here.

use crate::text::same_text;
use vstd::prelude::*;

verus! {

/// The scheme of an endpoint reached without transport security.
pub const SCHEME_HTTP: &'static str = "http";

/// The scheme of an endpoint reached with transport security.
pub const SCHEME_HTTPS: &'static str = "https";

/// The path given to an endpoint that was written without one.
pub const ROOT_PATH: &'static str = "/";

/// The characters of an optional string.
pub open spec fn opt_view(o: Option<String>) -> Option<Seq<char>> {
    match o {
        Some(s) => Some(s@),
        None => None,
    }
}

/// What the parts of a URI are, mathematically.
pub struct UriPartsView {
    /// The scheme, where the URI has one.
    pub scheme: Option<Seq<char>>,
    /// The authority (host and port), where the URI has one.
    pub authority: Option<Seq<char>>,
    /// The path, where the URI has a path-and-query component.
    pub path: Option<Seq<char>>,
    /// The query, without its `?`, where the URI has one.
    pub query: Option<Seq<char>>,
}

/// A path that is there is not empty, and behind an authority it begins
/// with `/`; only a URI with a path has a query.
pub open spec fn parts_valid(p: UriPartsView) -> bool {
    &&& p.path is Some ==> p.path->0.len() > 0
    &&& p.path is None ==> p.query is None
    &&& p.authority is Some && p.path is Some ==> p.path->0[0] == '/'
}

/// The parts of a parsed URI, as text.
#[derive(Debug)]
pub struct UriParts {
    scheme: Option<String>,
    authority: Option<String>,
    path: Option<String>,
    query: Option<String>,
}

impl View for UriParts {
    type V = UriPartsView;

    closed spec fn view(&self) -> UriPartsView {
        UriPartsView {
            scheme: opt_view(self.scheme),
            authority: opt_view(self.authority),
            path: opt_view(self.path),
            query: opt_view(self.query),
        }
    }
}

impl UriParts {
    /// What holds of every value of this type.
    #[verifier::type_invariant]
    pub open spec fn well_formed(self) -> bool {
        parts_valid(self@)
    }

    /// Puts parts together, where they are valid: a path that is given is not
    /// empty and, behind an authority, begins with `/`; and a query comes only
    /// with a path.
    pub fn new(
        scheme: Option<String>,
        authority: Option<String>,
        path: Option<String>,
        query: Option<String>,
    ) -> (r: Option<UriParts>)
        ensures
            match r {
                Some(p) => p@ == (UriPartsView {
                    scheme: opt_view(scheme),
                    authority: opt_view(authority),
                    path: opt_view(path),
                    query: opt_view(query),
                }) && parts_valid(p@),
                None => !parts_valid(
                    UriPartsView {
                        scheme: opt_view(scheme),
                        authority: opt_view(authority),
                        path: opt_view(path),
                        query: opt_view(query),
                    },
                ),
            },
    {
        let valid = match &path {
            Some(p) => !p.as_str().is_empty() && (authority.is_none() || p.as_str().get_char(0)
                == '/'),
            None => query.is_none(),
        };
        if valid {
            Some(UriParts { scheme, authority, path, query })
        } else {
            None
        }
    }
}

/// What parsing a text as a URI gives: the parts, or what the parser has to
/// say about the text.
pub type UriOutcome = Result<UriParts, String>;

/// What an outcome of parsing is, mathematically.
pub open spec fn outcome_view(outcome: UriOutcome) -> Result<UriPartsView, Seq<char>> {
    match outcome {
        Ok(parts) => Ok(parts@),
        Err(message) => Err(message@),
    }
}

/// What the `http` crate makes of `text` when it parses it as a URI: the
/// parts of the URI, or the message of its error.
pub uninterp spec fn parsed_uri(text: Seq<char>) -> Result<UriPartsView, Seq<char>>;

/// Parses `text` with `http::Uri`'s `FromStr` and takes the URI apart with
/// `Uri::into_parts`. The scheme is what `Scheme::as_str` gives, the
/// authority what `Authority::as_str` gives, path and query what
/// `PathAndQuery::path` and `PathAndQuery::query` give. A failure is handed
/// on as the text of the `InvalidUri` error.
///
/// Claimed without proof: the result is a function of `text` alone, named
/// [`parsed_uri`]; a path that is there is never empty, because
/// `PathAndQuery::path` answers `/` for an empty one; and behind an authority
/// a path begins with `/`, because the parser ends the authority at the first
/// `/`, `?` or `#`, takes the path from there up to a `?` or `#`, and so finds
/// it empty or beginning with `/`.
#[verifier::external_body]
pub(crate) fn parse_uri(text: &str) -> (r: UriOutcome)
    ensures
        outcome_view(r) == parsed_uri(text@),
        r is Ok ==> parts_valid(r->Ok_0@),
{
    let uri = match text.parse::<http::Uri>() {
        Ok(uri) => uri,
        Err(e) => return Err(e.to_string()),
    };
    let parts = uri.into_parts();
    let pq = parts.path_and_query.as_ref();
    Ok(UriParts {
        scheme: parts.scheme.as_ref().map(http::uri::Scheme::as_str).map(str::to_owned),
        authority: parts.authority.as_ref().map(http::uri::Authority::as_str).map(str::to_owned),
        path: pq.map(http::uri::PathAndQuery::path).map(str::to_owned),
        query: pq.and_then(http::uri::PathAndQuery::query).map(str::to_owned),
    })
}

/// What an [`Endpoint`] is, mathematically.
pub struct EndpointView {
    /// `http` or `https`.
    pub scheme: Seq<char>,
    /// Host and port.
    pub authority: Seq<char>,
    /// The path; never empty, and beginning with `/`.
    pub path: Seq<char>,
    /// The query, without its `?`.
    pub query: Option<Seq<char>>,
}

/// The scheme is `http` or `https`, and there is a path, which begins with
/// `/`.
pub open spec fn endpoint_valid(e: EndpointView) -> bool {
    &&& e.scheme == SCHEME_HTTP@ || e.scheme == SCHEME_HTTPS@
    &&& e.path.len() > 0
    &&& e.path[0] == '/'
}

/// An endpoint written out: scheme, `://`, authority, path, and the query
/// behind a `?` where there is one.
pub open spec fn endpoint_text(e: EndpointView) -> Seq<char> {
    e.scheme + "://"@ + e.authority + e.path + match e.query {
        Some(q) => "?"@ + q,
        None => Seq::empty(),
    }
}

/// Whether a scheme is one that an endpoint keeps as written.
pub open spec fn is_http_scheme(scheme: Option<Seq<char>>) -> bool {
    scheme == Some(SCHEME_HTTP@) || scheme == Some(SCHEME_HTTPS@)
}

/// The endpoint that parsed parts stand for.
///
/// A scheme of `http` or `https` stays; in place of any other, and where
/// there is none, stands `http` if `insecure` is set and `https` if not. A
/// URI without a path gets the path `/`. Parts without an authority stand for
/// no endpoint: with a scheme there must be someone to talk to.
pub open spec fn endpoint_of(parts: UriPartsView, insecure: bool) -> Option<EndpointView> {
    match parts.authority {
        None => None,
        Some(authority) => Some(
            EndpointView {
                scheme: if is_http_scheme(parts.scheme) {
                    parts.scheme->0
                } else if insecure {
                    SCHEME_HTTP@
                } else {
                    SCHEME_HTTPS@
                },
                authority,
                path: match parts.path {
                    Some(path) => path,
                    None => ROOT_PATH@,
                },
                query: parts.query,
            },
        ),
    }
}

/// Every endpoint that valid parts stand for has scheme `http` or `https`
/// and a path that is not empty and begins with `/`.
pub proof fn lemma_endpoint_of_valid(parts: UriPartsView, insecure: bool)
    requires
        parts_valid(parts),
    ensures
        endpoint_of(parts, insecure) is Some ==> endpoint_valid(endpoint_of(parts, insecure)->0),
{
    reveal_strlit("/");
}

/// A normalized endpoint: scheme `http` or `https`, an authority, a path.
#[derive(Debug, PartialEq, Eq)]
pub struct Endpoint {
    scheme: String,
    authority: String,
    path: String,
    query: Option<String>,
}

impl View for Endpoint {
    type V = EndpointView;

    closed spec fn view(&self) -> EndpointView {
        EndpointView {
            scheme: self.scheme@,
            authority: self.authority@,
            path: self.path@,
            query: opt_view(self.query),
        }
    }
}

impl Clone for Endpoint {
    fn clone(&self) -> (r: Endpoint)
        ensures
            r@ == self@,
    {
        proof {
            use_type_invariant(self);
        }
        let query = match &self.query {
            Some(q) => Some(q.clone()),
            None => None,
        };
        Endpoint {
            scheme: self.scheme.clone(),
            authority: self.authority.clone(),
            path: self.path.clone(),
            query,
        }
    }
}

impl Endpoint {
    /// What holds of every value of this type.
    #[verifier::type_invariant]
    pub open spec fn well_formed(self) -> bool {
        endpoint_valid(self@)
    }

    /// Makes the endpoint that parsed parts stand for; `None` where they
    /// stand for none, which is where they lack an authority.
    pub fn from_parts(parts: UriParts, insecure: bool) -> (r: Option<Endpoint>)
        ensures
            match r {
                Some(e) => endpoint_of(parts@, insecure) == Some(e@) && endpoint_valid(e@),
                None => endpoint_of(parts@, insecure).is_none(),
            },
    {
        proof {
            use_type_invariant(&parts);
            lemma_endpoint_of_valid(parts@, insecure);
        }
        let UriParts { scheme, authority, path, query } = parts;
        let authority = match authority {
            Some(a) => a,
            None => {
                return None;
            },
        };
        let keep = match &scheme {
            Some(s) => same_text(s.as_str(), SCHEME_HTTP) || same_text(s.as_str(), SCHEME_HTTPS),
            None => false,
        };
        let scheme = match scheme {
            Some(s) if keep => s,
            _ => if insecure {
                SCHEME_HTTP.to_owned()
            } else {
                SCHEME_HTTPS.to_owned()
            },
        };
        let path = match path {
            Some(p) => p,
            None => ROOT_PATH.to_owned(),
        };
        Some(Endpoint { scheme, authority, path, query })
    }

    /// The scheme: `http` or `https`.
    pub fn scheme_str(&self) -> (r: &str)
        ensures
            r@ == self@.scheme,
            endpoint_valid(self@),
    {
        proof {
            use_type_invariant(self);
        }
        self.scheme.as_str()
    }

    /// The authority: host and port.
    pub fn authority(&self) -> (r: &str)
        ensures
            r@ == self@.authority,
    {
        self.authority.as_str()
    }

    /// The path; never empty, and beginning with `/`.
    pub fn path(&self) -> (r: &str)
        ensures
            r@ == self@.path,
            r@.len() > 0,
            r@[0] == '/',
    {
        proof {
            use_type_invariant(self);
        }
        self.path.as_str()
    }

    /// The query, without its `?`.
    pub fn query(&self) -> (r: Option<&str>)
        ensures
            match r {
                Some(q) => self@.query == Some(q@),
                None => self@.query.is_none(),
            },
    {
        match &self.query {
            Some(q) => Some(q.as_str()),
            None => None,
        }
    }

    /// Whether the endpoint is reached with transport security.
    pub fn is_https(&self) -> (r: bool)
        ensures
            r == (self@.scheme == SCHEME_HTTPS@),
    {
        same_text(self.scheme.as_str(), SCHEME_HTTPS)
    }

    /// The endpoint written out as a URI.
    pub fn to_string(&self) -> (r: String)
        ensures
            r@ == endpoint_text(self@),
    {
        let text = self.scheme.clone().concat("://").concat(self.authority.as_str()).concat(
            self.path.as_str(),
        );
        match &self.query {
            Some(q) => text.concat("?").concat(q.as_str()),
            None => {
                assert(text@ + Seq::<char>::empty() == text@);
                text
            },
        }
    }
}

} // verus!
