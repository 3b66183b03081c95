//! The immutable request template: a recognized HTTP verb, a normalized
//! endpoint, the header list (user agent first, then every raw header that
//! splits on a colon), and the transport timeouts.

use crate::strutil::{find_colon, find_colon_index, pairs_view, str_eq, trim, trim_spec};
use vstd::prelude::*;

verus! {

broadcast use vstd::string::group_string_axioms;

/// A recognized HTTP verb.
#[derive(Clone, Copy, Debug, PartialEq, Eq, Structural)]
pub enum Method {
    Get,
    Head,
    Post,
    Put,
    Delete,
    Connect,
    Options,
    Trace,
    Patch,
}

/// The verb a method string names, if it names one.
pub open spec fn method_of(s: Seq<char>) -> Option<Method> {
    if s == "GET"@ {
        Some(Method::Get)
    } else if s == "HEAD"@ {
        Some(Method::Head)
    } else if s == "POST"@ {
        Some(Method::Post)
    } else if s == "PUT"@ {
        Some(Method::Put)
    } else if s == "DELETE"@ {
        Some(Method::Delete)
    } else if s == "CONNECT"@ {
        Some(Method::Connect)
    } else if s == "OPTIONS"@ {
        Some(Method::Options)
    } else if s == "TRACE"@ {
        Some(Method::Trace)
    } else if s == "PATCH"@ {
        Some(Method::Patch)
    } else {
        None
    }
}

/// Parses a method string into its verb; `None` when it is not recognized.
pub fn parse_method(s: &str) -> (r: Option<Method>)
    ensures
        r == method_of(s@),
{
    if str_eq(s, "GET") {
        Some(Method::Get)
    } else if str_eq(s, "HEAD") {
        Some(Method::Head)
    } else if str_eq(s, "POST") {
        Some(Method::Post)
    } else if str_eq(s, "PUT") {
        Some(Method::Put)
    } else if str_eq(s, "DELETE") {
        Some(Method::Delete)
    } else if str_eq(s, "CONNECT") {
        Some(Method::Connect)
    } else if str_eq(s, "OPTIONS") {
        Some(Method::Options)
    } else if str_eq(s, "TRACE") {
        Some(Method::Trace)
    } else if str_eq(s, "PATCH") {
        Some(Method::Patch)
    } else {
        None
    }
}

/// The nine verb spellings name nine different strings.
proof fn lemma_verb_literals_distinct()
    ensures
        "HEAD"@ != "GET"@,
        "POST"@ != "GET"@ && "POST"@ != "HEAD"@,
        "PUT"@ != "GET"@ && "PUT"@ != "HEAD"@ && "PUT"@ != "POST"@,
        "DELETE"@ != "GET"@ && "DELETE"@ != "HEAD"@ && "DELETE"@ != "POST"@ && "DELETE"@
            != "PUT"@,
        "CONNECT"@ != "GET"@ && "CONNECT"@ != "HEAD"@ && "CONNECT"@ != "POST"@ && "CONNECT"@
            != "PUT"@ && "CONNECT"@ != "DELETE"@,
        "OPTIONS"@ != "GET"@ && "OPTIONS"@ != "HEAD"@ && "OPTIONS"@ != "POST"@ && "OPTIONS"@
            != "PUT"@ && "OPTIONS"@ != "DELETE"@ && "OPTIONS"@ != "CONNECT"@,
        "TRACE"@ != "GET"@ && "TRACE"@ != "HEAD"@ && "TRACE"@ != "POST"@ && "TRACE"@ != "PUT"@
            && "TRACE"@ != "DELETE"@ && "TRACE"@ != "CONNECT"@ && "TRACE"@ != "OPTIONS"@,
        "PATCH"@ != "GET"@ && "PATCH"@ != "HEAD"@ && "PATCH"@ != "POST"@ && "PATCH"@ != "PUT"@
            && "PATCH"@ != "DELETE"@ && "PATCH"@ != "CONNECT"@ && "PATCH"@ != "OPTIONS"@
            && "PATCH"@ != "TRACE"@,
{
    reveal_strlit("GET");
    reveal_strlit("HEAD");
    reveal_strlit("POST");
    reveal_strlit("PUT");
    reveal_strlit("DELETE");
    reveal_strlit("CONNECT");
    reveal_strlit("OPTIONS");
    reveal_strlit("TRACE");
    reveal_strlit("PATCH");
    assert("GET"@.len() == 3 && "HEAD"@.len() == 4 && "POST"@.len() == 4 && "PUT"@.len() == 3
        && "DELETE"@.len() == 6 && "CONNECT"@.len() == 7 && "OPTIONS"@.len() == 7 && "TRACE"@.len()
        == 5 && "PATCH"@.len() == 5);
    assert("GET"@[0] == 'G' && "PUT"@[0] == 'P' && "HEAD"@[0] == 'H' && "POST"@[0] == 'P'
        && "CONNECT"@[0] == 'C' && "OPTIONS"@[0] == 'O' && "TRACE"@[0] == 'T' && "PATCH"@[0]
        == 'P');
}

impl Method {
    /// The verb's canonical spelling.
    pub fn name(&self) -> (r: &'static str)
        ensures
            method_of(r@) == Some(*self),
    {
        proof {
            lemma_verb_literals_distinct();
        }
        match self {
            Method::Get => "GET",
            Method::Head => "HEAD",
            Method::Post => "POST",
            Method::Put => "PUT",
            Method::Delete => "DELETE",
            Method::Connect => "CONNECT",
            Method::Options => "OPTIONS",
            Method::Trace => "TRACE",
            Method::Patch => "PATCH",
        }
    }
}

/// Why a configuration is rejected and no template is built.
#[derive(Clone, Copy, Debug, PartialEq, Eq, Structural)]
pub enum ConfigError {
    /// The method string is not a recognized HTTP verb.
    InvalidMethod,
    /// The endpoint is not a valid absolute URL.
    InvalidEndpoint,
}

/// The static configuration a sink is built from, as plain values.
#[derive(Debug)]
pub struct HttpConfig {
    /// Target of every request; must be a valid absolute URL.
    pub endpoint: String,
    /// HTTP verb string; must name a recognized verb.
    pub method: String,
    /// Value of the fixed user-agent header.
    pub user_agent: String,
    /// Raw `"Name: Value"` strings; one without a colon is skipped.
    pub headers: Vec<String>,
    /// Connect timeout of the transport, in milliseconds.
    pub http_connect_timeout_ms: u64,
    /// Total request timeout of the transport, in milliseconds.
    pub http_request_timeout_ms: u64,
    /// Extraction rules applied to every record.
    pub url_parameters: Vec<crate::params::Parameter>,
}

/// What the endpoint string normalizes to: `None` when it is not a valid
/// absolute URL, else its serialized form.
pub uninterp spec fn normalized_url(s: Seq<char>) -> Option<Seq<char>>;

/// Relies on `url::Url::parse` to decide validity and on `url::Url::as_str`
/// for the normalized text; together they are a function of the input string
/// alone, named [`normalized_url`].
#[verifier::external_body]
pub(crate) fn parse_endpoint(s: &str) -> (r: Option<String>)
    ensures
        r is Some <==> normalized_url(s@) is Some,
        r is Some ==> r->0@ == normalized_url(s@)->0,
{
    match url::Url::parse(s) {
        Ok(u) => Some(u.as_str().to_owned()),
        Err(_) => None,
    }
}

/// How one raw header string splits: the text before the first colon paired
/// with the trimmed text after it, or nothing when there is no colon.
pub open spec fn split_header_spec(s: Seq<char>) -> Option<(Seq<char>, Seq<char>)> {
    match find_colon(s) {
        Some(i) => Some((s.take(i), trim_spec(s.skip(i + 1)))),
        None => None,
    }
}

/// Splits one raw `"Name: Value"` header string.
pub fn split_header(h: &str) -> (r: Option<(String, String)>)
    ensures
        match r {
            Some(p) => split_header_spec(h@) == Some((p.0@, p.1@)),
            None => split_header_spec(h@) is None,
        },
{
    let n = h.unicode_len();
    match find_colon_index(h) {
        Some(i) => {
            let name = String::from_str(h.substring_char(0, i));
            let value = trim(h.substring_char(i + 1, n));
            proof {
                assert(h@.subrange(0, i as int) =~= h@.take(i as int));
                assert(h@.subrange(i as int + 1, h@.len() as int) =~= h@.skip(i as int + 1));
            }
            Some((name, value))
        },
        None => None,
    }
}

/// The (name, value) pairs the raw header strings yield, in order; a string
/// without a colon yields none.
pub open spec fn header_pairs_spec(raw: Seq<Seq<char>>) -> Seq<(Seq<char>, Seq<char>)>
    decreases raw.len(),
{
    if raw.len() == 0 {
        Seq::empty()
    } else {
        (match split_header_spec(raw[0]) {
            Some(p) => seq![p],
            None => Seq::empty(),
        }) + header_pairs_spec(raw.drop_first())
    }
}

/// The full header list of a built template: the user agent first, then every
/// raw header that splits.
pub open spec fn template_headers_spec(user_agent: Seq<char>, raw: Seq<Seq<char>>) -> Seq<
    (Seq<char>, Seq<char>),
> {
    seq![("User-Agent"@, user_agent)] + header_pairs_spec(raw)
}

/// Every pair in the built header list comes from a raw header string that
/// split on a colon: a header without a colon is absent.
pub proof fn lemma_header_pairs_sound(raw: Seq<Seq<char>>, p: (Seq<char>, Seq<char>))
    requires
        header_pairs_spec(raw).contains(p),
    ensures
        exists|i: int| 0 <= i < raw.len() && split_header_spec(#[trigger] raw[i]) == Some(p),
    decreases raw.len(),
{
    let whole = header_pairs_spec(raw);
    let rest = raw.drop_first();
    let j = choose|j: int| 0 <= j < whole.len() && whole[j] == p;
    match split_header_spec(raw[0]) {
        Some(q) => {
            if j == 0 {
                assert(split_header_spec(raw[0]) == Some(p));
            } else {
                assert(header_pairs_spec(rest)[j - 1] == p);
                assert(header_pairs_spec(rest).contains(p));
                lemma_header_pairs_sound(rest, p);
                let i = choose|i: int|
                    0 <= i < rest.len() && split_header_spec(#[trigger] rest[i]) == Some(p);
                assert(raw[i + 1] == rest[i]);
            }
        },
        None => {
            assert(header_pairs_spec(rest)[j] == p);
            assert(header_pairs_spec(rest).contains(p));
            lemma_header_pairs_sound(rest, p);
            let i = choose|i: int|
                0 <= i < rest.len() && split_header_spec(#[trigger] rest[i]) == Some(p);
            assert(raw[i + 1] == rest[i]);
        },
    }
}

/// Every raw header string that splits on a colon appears in the built header
/// list.
pub proof fn lemma_header_pairs_complete(raw: Seq<Seq<char>>, i: int)
    requires
        0 <= i < raw.len(),
        split_header_spec(raw[i]) is Some,
    ensures
        header_pairs_spec(raw).contains(split_header_spec(raw[i])->0),
    decreases raw.len(),
{
    let whole = header_pairs_spec(raw);
    let rest = raw.drop_first();
    if i == 0 {
        assert(whole[0] == split_header_spec(raw[0])->0);
    } else {
        assert(rest[i - 1] == raw[i]);
        lemma_header_pairs_complete(rest, i - 1);
        let p = split_header_spec(raw[i])->0;
        let j = choose|j: int| 0 <= j < header_pairs_spec(rest).len() && header_pairs_spec(rest)[j] == p;
        match split_header_spec(raw[0]) {
            Some(q) => {
                assert(whole[j + 1] == p);
            },
            None => {
                assert(whole[j] == p);
            },
        }
    }
}

/// The invariant shape of every outbound request.
#[derive(Debug)]
pub struct RequestTemplate {
    pub(crate) method: Method,
    pub(crate) url: String,
    pub(crate) headers: Vec<(String, String)>,
    pub(crate) connect_timeout_ms: u64,
    pub(crate) request_timeout_ms: u64,
}

/// The mathematical shape of a [`RequestTemplate`].
pub struct TemplateV {
    pub method: Method,
    pub url: Seq<char>,
    pub headers: Seq<(Seq<char>, Seq<char>)>,
    pub connect_timeout_ms: u64,
    pub request_timeout_ms: u64,
}

impl View for RequestTemplate {
    type V = TemplateV;

    closed spec fn view(&self) -> TemplateV {
        TemplateV {
            method: self.method,
            url: self.url@,
            headers: pairs_view(self.headers@),
            connect_timeout_ms: self.connect_timeout_ms,
            request_timeout_ms: self.request_timeout_ms,
        }
    }
}

impl RequestTemplate {
    /// Assembles a template from its already-validated parts.
    pub(crate) fn assemble(
        method: Method,
        url: String,
        headers: Vec<(String, String)>,
        connect_timeout_ms: u64,
        request_timeout_ms: u64,
    ) -> (r: RequestTemplate)
        ensures
            r@ == (TemplateV {
                method,
                url: url@,
                headers: pairs_view(headers@),
                connect_timeout_ms,
                request_timeout_ms,
            }),
    {
        RequestTemplate { method, url, headers, connect_timeout_ms, request_timeout_ms }
    }

    /// The verb of every request built from this template.
    pub fn method(&self) -> (r: Method)
        ensures
            r == self@.method,
    {
        self.method
    }

    /// The normalized target URL.
    pub fn url(&self) -> (r: &String)
        ensures
            r@ == self@.url,
    {
        &self.url
    }

    /// The header list, user agent first.
    pub fn headers(&self) -> (r: &Vec<(String, String)>)
        ensures
            pairs_view(r@) == self@.headers,
    {
        &self.headers
    }

    /// The transport's connect timeout, in milliseconds.
    pub fn connect_timeout_ms(&self) -> (r: u64)
        ensures
            r == self@.connect_timeout_ms,
    {
        self.connect_timeout_ms
    }

    /// The transport's total request timeout, in milliseconds.
    pub fn request_timeout_ms(&self) -> (r: u64)
        ensures
            r == self@.request_timeout_ms,
    {
        self.request_timeout_ms
    }

    /// The first value stored under `name` in the header list, if any.
    pub fn header_value(&self, name: &str) -> (r: Option<&String>)
        ensures
            match r {
                Some(v) => exists|i: int|
                    0 <= i < self@.headers.len() && (#[trigger] self@.headers[i]).0 == name@
                        && self@.headers[i].1 == v@,
                None => forall|i: int|
                    0 <= i < self@.headers.len() ==> (#[trigger] self@.headers[i]).0 != name@,
            },
    {
        let n = self.headers.len();
        let mut i: usize = 0;
        while i < n
            invariant
                n == self.headers@.len(),
                0 <= i <= n,
                self@.headers == pairs_view(self.headers@),
                self@.headers.len() == n,
                forall|j: int| 0 <= j < i ==> (#[trigger] pairs_view(self.headers@)[j]).0 != name@,
            decreases n - i,
        {
            if str_eq(self.headers[i].0.as_str(), name) {
                proof {
                    assert((pairs_view(self.headers@)[i as int]).0 == name@);
                }
                return Some(&self.headers[i].1);
            }
            i += 1;
        }
        None
    }
}

} // verus!
