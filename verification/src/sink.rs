//! The carried sink state and the per-record pipeline: build the template once,
//! then for every record materialize one concrete request (query augmentations
//! drawn from the record, body set to the record text) while handing the state
//! back untouched, and classify the outcome of the send.

use crate::params::{enrich, enrich_spec, params_view, Parameter};
use crate::strutil::{pairs_view, strings_view};
use crate::template::{
    method_of, normalized_url, parse_endpoint, parse_method, split_header, template_headers_spec,
    ConfigError, HttpConfig, Method, RequestTemplate, TemplateV,
};
use vstd::prelude::*;

verus! {

/// The state carried across the record stream: the immutable template and the
/// parameter list, built once from configuration.
#[derive(Debug)]
pub struct HttpSink {
    pub(crate) template: RequestTemplate,
    pub(crate) params: Vec<Parameter>,
}

/// The mathematical shape of a [`HttpSink`].
pub struct SinkV {
    pub template: TemplateV,
    pub params: Seq<crate::params::ParameterV>,
}

impl View for HttpSink {
    type V = SinkV;

    closed spec fn view(&self) -> SinkV {
        SinkV { template: self.template@, params: params_view(self.params@) }
    }
}

/// One fully materialized outbound request: the template's shape plus this
/// record's query augmentations and body.
#[derive(Debug, PartialEq, Eq)]
pub struct HttpRequest {
    /// The template's verb.
    pub method: Method,
    /// The template's normalized target URL.
    pub url: String,
    /// The template's header list, user agent first.
    pub headers: Vec<(String, String)>,
    /// This record's (query key, query value) augmentations, in parameter order.
    pub query: Vec<(String, String)>,
    /// The record's full text.
    pub body: String,
    /// Connect timeout of the transport, in milliseconds.
    pub connect_timeout_ms: u64,
    /// Total request timeout of the transport, in milliseconds.
    pub request_timeout_ms: u64,
}

/// The mathematical shape of a [`HttpRequest`].
pub struct RequestV {
    pub method: Method,
    pub url: Seq<char>,
    pub headers: Seq<(Seq<char>, Seq<char>)>,
    pub query: Seq<(Seq<char>, Seq<char>)>,
    pub body: Seq<char>,
    pub connect_timeout_ms: u64,
    pub request_timeout_ms: u64,
}

impl View for HttpRequest {
    type V = RequestV;

    open spec fn view(&self) -> RequestV {
        RequestV {
            method: self.method,
            url: self.url@,
            headers: pairs_view(self.headers@),
            query: pairs_view(self.query@),
            body: self.body@,
            connect_timeout_ms: self.connect_timeout_ms,
            request_timeout_ms: self.request_timeout_ms,
        }
    }
}

/// The request a record materializes to: the template's shape, the record's
/// augmentations as query entries, and the record text as body.
pub open spec fn request_spec(s: SinkV, rec: Seq<char>) -> RequestV {
    RequestV {
        method: s.template.method,
        url: s.template.url,
        headers: s.template.headers,
        query: enrich_spec(rec, s.params),
        body: rec,
        connect_timeout_ms: s.template.connect_timeout_ms,
        request_timeout_ms: s.template.request_timeout_ms,
    }
}

/// An element-wise copy of a list of string pairs.
fn clone_pairs(v: &Vec<(String, String)>) -> (r: Vec<(String, String)>)
    ensures
        r@ == v@,
{
    let n = v.len();
    let mut r: Vec<(String, String)> = Vec::new();
    let mut i: usize = 0;
    while i < n
        invariant
            n == v@.len(),
            0 <= i <= n,
            r@.len() == i,
            forall|j: int| 0 <= j < i ==> r@[j] == v@[j],
        decreases n - i,
    {
        let p = &v[i];
        r.push((p.0.clone(), p.1.clone()));
        i += 1;
    }
    proof {
        assert(r@ =~= v@);
    }
    r
}

impl HttpSink {
    /// Builds the immutable request template and captures the parameter list.
    /// The method string must name a recognized verb and the endpoint must be
    /// a valid absolute URL; otherwise the matching [`ConfigError`] comes back
    /// and no sink is built.
    pub fn new(config: HttpConfig) -> (r: Result<HttpSink, ConfigError>)
        ensures
            match r {
                Ok(sink) => method_of(config.method@) is Some && normalized_url(config.endpoint@)
                    is Some && sink@ == (SinkV {
                    template: TemplateV {
                        method: method_of(config.method@)->0,
                        url: normalized_url(config.endpoint@)->0,
                        headers: template_headers_spec(
                            config.user_agent@,
                            strings_view(config.headers@),
                        ),
                        connect_timeout_ms: config.http_connect_timeout_ms,
                        request_timeout_ms: config.http_request_timeout_ms,
                    },
                    params: params_view(config.url_parameters@),
                }),
                Err(e) => {
                    &&& (e == ConfigError::InvalidMethod <==> method_of(config.method@) is None)
                    &&& (e == ConfigError::InvalidEndpoint <==> method_of(config.method@) is Some
                        && normalized_url(config.endpoint@) is None)
                },
            },
    {
        let HttpConfig {
            endpoint,
            method,
            user_agent,
            headers: raw_headers,
            http_connect_timeout_ms,
            http_request_timeout_ms,
            url_parameters,
        } = config;
        let verb = match parse_method(method.as_str()) {
            Some(v) => v,
            None => {
                return Err(ConfigError::InvalidMethod);
            },
        };
        let url = match parse_endpoint(endpoint.as_str()) {
            Some(u) => u,
            None => {
                return Err(ConfigError::InvalidEndpoint);
            },
        };
        let ghost rv = strings_view(raw_headers@);
        let ghost ua = user_agent@;
        let mut headers: Vec<(String, String)> = Vec::new();
        headers.push((String::from_str("User-Agent"), user_agent));
        let n = raw_headers.len();
        let mut i: usize = 0;
        proof {
            assert(rv.skip(0) =~= rv);
            assert(pairs_view(headers@) =~= seq![("User-Agent"@, ua)]);
        }
        while i < n
            invariant
                n == raw_headers@.len(),
                0 <= i <= n,
                rv == strings_view(raw_headers@),
                rv.len() == n,
                template_headers_spec(ua, rv) == pairs_view(headers@)
                    + crate::template::header_pairs_spec(rv.skip(i as int)),
            decreases n - i,
        {
            proof {
                assert(rv[i as int] == raw_headers@[i as int]@);
                assert(rv.skip(i as int)[0] == rv[i as int]);
                assert(rv.skip(i as int).drop_first() =~= rv.skip(i as int + 1));
            }
            match split_header(raw_headers[i].as_str()) {
                Some(pair) => {
                    let ghost prev = headers@;
                    headers.push(pair);
                    proof {
                        assert(pairs_view(headers@) =~= pairs_view(prev)
                            + seq![(pair.0@, pair.1@)]);
                        assert(template_headers_spec(ua, rv) =~= pairs_view(headers@)
                            + crate::template::header_pairs_spec(rv.skip(i as int + 1)));
                    }
                },
                None => {
                    proof {
                        assert(crate::template::header_pairs_spec(rv.skip(i as int))
                            == crate::template::header_pairs_spec(rv.skip(i as int + 1)));
                    }
                },
            }
            i += 1;
        }
        proof {
            assert(rv.skip(n as int) =~= Seq::<Seq<char>>::empty());
            assert(template_headers_spec(ua, rv) =~= pairs_view(headers@));
        }
        let template = RequestTemplate::assemble(
            verb,
            url,
            headers,
            http_connect_timeout_ms,
            http_request_timeout_ms,
        );
        Ok(HttpSink { template, params: url_parameters })
    }

    /// The immutable template the sink carries.
    pub fn template(&self) -> (r: &RequestTemplate)
        ensures
            r@ == self@.template,
    {
        &self.template
    }

    /// Materializes the request for one record and hands the carried state
    /// back untouched: nothing of this record can leak into the next one.
    pub fn step(self, record: String) -> (r: (HttpRequest, HttpSink))
        ensures
            r.1 == self,
            r.0@ == request_spec(self@, record@),
    {
        let query = enrich(record.as_str(), &self.params);
        let request = HttpRequest {
            method: self.template.method(),
            url: self.template.url().clone(),
            headers: clone_pairs(self.template.headers()),
            query,
            body: record,
            connect_timeout_ms: self.template.connect_timeout_ms(),
            request_timeout_ms: self.template.request_timeout_ms(),
        };
        (request, self)
    }
}

/// What came back from one attempted send: a response with its status code,
/// or no response at all.
#[derive(Clone, Copy, Debug, PartialEq, Eq, Structural)]
pub enum SendOutcome {
    /// A response arrived, with this HTTP status code.
    Status(u16),
    /// The transport failed: timeout, refused connection, DNS or TLS failure.
    TransportFailure,
}

/// What the pipeline does after one send.
#[derive(Clone, Copy, Debug, PartialEq, Eq, Structural)]
pub enum Disposition {
    /// A success status: note it at debug level and go on to the next record.
    LogDebugAndContinue,
    /// Any other status: warn, but still go on to the next record.
    LogWarningAndContinue,
    /// A transport failure: surface the error and end the stream.
    FailStream,
}

/// The conventional success range of HTTP status codes.
pub open spec fn is_success_status(code: u16) -> bool {
    200 <= code < 300
}

/// The disposition every outcome maps to: only a transport failure ends the
/// stream; a response, whatever its status, never does.
pub open spec fn classify_spec(o: SendOutcome) -> Disposition {
    match o {
        SendOutcome::Status(code) => if is_success_status(code) {
            Disposition::LogDebugAndContinue
        } else {
            Disposition::LogWarningAndContinue
        },
        SendOutcome::TransportFailure => Disposition::FailStream,
    }
}

/// Classifies one send's outcome.
pub fn classify_send(outcome: &SendOutcome) -> (r: Disposition)
    ensures
        r == classify_spec(*outcome),
{
    match outcome {
        SendOutcome::Status(code) => {
            if 200 <= *code && *code < 300 {
                Disposition::LogDebugAndContinue
            } else {
                Disposition::LogWarningAndContinue
            }
        },
        SendOutcome::TransportFailure => Disposition::FailStream,
    }
}

/// A response status never terminates the stream, whatever its code; only a
/// transport failure does.
pub proof fn lemma_status_never_fatal(code: u16)
    ensures
        classify_spec(SendOutcome::Status(code)) != Disposition::FailStream,
{
}

/// Materializing a request depends on nothing but the carried state and the
/// record: dispatching the same record again from the state the first dispatch
/// handed back yields an identical request.
pub proof fn lemma_dispatch_idempotent(s1: SinkV, s2: SinkV, rec: Seq<char>)
    requires
        s2 == s1,
    ensures
        request_spec(s2, rec) == request_spec(s1, rec),
{
}

} // verus!
