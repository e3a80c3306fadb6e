//! The decisions of the forwarding engine: which upstream a request goes to,
//! what is sent there, and how the answer is handed back.
//!
//! Nothing here performs I/O. A caller resolves and prepares the request,
//! sends it, classifies the answer, and relays it buffered or chunk by chunk as
//! [`Relay`] directs.

use crate::error::AppError;
use crate::headers::{
    ascii_bytes, canonical_name, fields_of, first_text, first_value, header_count, header_text,
    is_token, lemma_plain_text, lemma_visible_text, method_token, new_headers, parse_method,
    parse_name, parse_value, plain_header_name, plain_header_value, set_header, valid_value,
    value_bytes, Fields, Headers, HEADER_ROOM,
};
use crate::providers::bedrock::{
    credentials, forwarded, invoke_path, prepared, runtime_host, runtime_origin, BedrockProvider,
};
use crate::text::{contains, contains_text, same_text};
use vstd::prelude::*;
use vstd::slice::slice_to_vec;
use vstd::string::StringSliceAdditionalSpecFns;

verus! {

/// A registered upstream. Bedrock takes signed requests in its own body
/// formats; the others take the caller's body as it is and authenticate by a
/// bearer credential.
#[derive(Clone, Copy, Debug, PartialEq, Eq, Structural)]
pub enum Upstream {
    OpenAi,
    Anthropic,
    Groq,
    Bedrock,
}

/// The region of the Bedrock runtime that the gateway addresses.
pub open spec fn bedrock_region() -> Seq<char> {
    "us-east-1"@
}

impl Upstream {
    /// The name under which the upstream is registered.
    pub open spec fn registered_name(self) -> Seq<char> {
        match self {
            Upstream::OpenAi => "openai"@,
            Upstream::Anthropic => "anthropic"@,
            Upstream::Groq => "groq"@,
            Upstream::Bedrock => "bedrock"@,
        }
    }

    /// The origin that requests for the upstream are sent to.
    pub open spec fn origin(self) -> Seq<char> {
        match self {
            Upstream::OpenAi => "https://api.openai.com"@,
            Upstream::Anthropic => "https://api.anthropic.com"@,
            Upstream::Groq => "https://api.groq.com/openai"@,
            Upstream::Bedrock => runtime_origin(bedrock_region()),
        }
    }

    /// Whether requests for the upstream are signed.
    pub open spec fn signed(self) -> bool {
        self == Upstream::Bedrock
    }

    /// The name under which the upstream is registered.
    pub fn name(self) -> (name: &'static str)
        ensures
            name@ == self.registered_name(),
    {
        match self {
            Upstream::OpenAi => "openai",
            Upstream::Anthropic => "anthropic",
            Upstream::Groq => "groq",
            Upstream::Bedrock => "bedrock",
        }
    }

    /// Whether requests for the upstream are signed.
    pub fn requires_signing(self) -> (signed: bool)
        ensures
            signed == self.signed(),
    {
        match self {
            Upstream::Bedrock => true,
            _ => false,
        }
    }

    /// The origin that requests for the upstream are sent to.
    pub fn base_url(self) -> (url: &'static str)
        ensures
            url@ == self.origin(),
    {
        match self {
            Upstream::OpenAi => "https://api.openai.com",
            Upstream::Anthropic => "https://api.anthropic.com",
            Upstream::Groq => "https://api.groq.com/openai",
            Upstream::Bedrock => {
                proof {
                    reveal_strlit("https://bedrock-runtime.us-east-1.amazonaws.com");
                    reveal_strlit("https://");
                    reveal_strlit("bedrock-runtime.");
                    reveal_strlit("us-east-1");
                    reveal_strlit(".amazonaws.com");
                    assert("https://bedrock-runtime.us-east-1.amazonaws.com"@ =~= runtime_origin(
                        bedrock_region(),
                    ));
                }
                "https://bedrock-runtime.us-east-1.amazonaws.com"
            },
        }
    }
}

/// Whether an upstream is registered under `name`.
pub open spec fn is_registered(name: Seq<char>) -> bool {
    name == "openai"@ || name == "anthropic"@ || name == "groq"@ || name == "bedrock"@
}

/// The upstream registered under `name`.
pub open spec fn resolved(name: Seq<char>) -> Result<Upstream, AppError> {
    if name == "openai"@ {
        Ok(Upstream::OpenAi)
    } else if name == "anthropic"@ {
        Ok(Upstream::Anthropic)
    } else if name == "groq"@ {
        Ok(Upstream::Groq)
    } else if name == "bedrock"@ {
        Ok(Upstream::Bedrock)
    } else {
        Err(AppError::UnsupportedProvider)
    }
}

/// The URL of the upstream request: origin, path, and the query after a `?`
/// where there is one.
pub open spec fn target(origin: Seq<char>, path: Seq<char>, query: Option<Seq<char>>) -> Seq<char> {
    match query {
        Some(q) => origin + path + "?"@ + q,
        None => origin + path,
    }
}

/// The `authorization` value of the upstream request: `Bearer` and the
/// gateway key where the caller sent one as visible text, else the caller's own
/// `authorization` value where that is visible text.
pub open spec fn authorization(inbound: Fields) -> Result<Seq<u8>, AppError> {
    match first_text(inbound, "x-magicapi-api-key"@) {
        Some(key) => Ok(ascii_bytes("Bearer "@ + key)),
        None => match first_text(inbound, "authorization"@) {
            Some(own) => Ok(ascii_bytes(own)),
            None => Err(AppError::MissingApiKey),
        },
    }
}

/// The headers of an upstream request that carries the credential `auth`.
pub open spec fn outbound(auth: Seq<u8>) -> Fields {
    map![
        "content-type"@ => seq![ascii_bytes("application/json"@)],
        "authorization"@ => seq![auth],
    ]
}

/// What a request is signed with.
pub struct Signing {
    pub access_key: Seq<char>,
    pub secret_key: Seq<char>,
    pub region: Seq<char>,
    pub host: Seq<char>,
}

/// What is sent upstream: method, URL, headers and body, and what the request
/// is signed with where it is signed.
pub struct RequestPlan {
    pub method: Seq<u8>,
    pub url: Seq<char>,
    pub headers: Fields,
    pub body: Seq<u8>,
    pub signing: Option<Signing>,
}

/// What a Bedrock request is signed with: the credentials that the caller sent,
/// for the host of the runtime. None where the caller sent no credentials; the
/// request then goes out unsigned.
pub open spec fn signing_of(inbound: Fields) -> Option<Signing> {
    match credentials(inbound, bedrock_region()) {
        Some(c) => Some(
            Signing {
                access_key: c.0,
                secret_key: c.1,
                region: c.2,
                host: runtime_host(bedrock_region()),
            },
        ),
        None => None,
    }
}

/// What is sent to Bedrock for a caller request: the invocation path of the
/// model, the headers that are passed on, and the body in the model's format.
pub open spec fn bedrock_plan(method: Seq<u8>, path: Seq<char>, query: Option<Seq<char>>, inbound: Fields, body: Seq<u8>) -> Result<RequestPlan, AppError> {
    match prepared(body) {
        Err(e) => Err(e),
        Ok(out) => Ok(
            RequestPlan {
                method,
                url: target(runtime_origin(bedrock_region()), invoke_path(path), query),
                headers: forwarded(inbound),
                body: out,
                signing: signing_of(inbound),
            },
        ),
    }
}

/// What is sent to an upstream that takes a bearer credential: the caller's
/// path and body as they are, under the credential.
pub open spec fn bearer_plan(upstream: Upstream, method: Seq<u8>, path: Seq<char>, query: Option<Seq<char>>, inbound: Fields, body: Seq<u8>) -> Result<RequestPlan, AppError> {
    match authorization(inbound) {
        Err(e) => Err(e),
        Ok(auth) => Ok(
            RequestPlan {
                method,
                url: target(upstream.origin(), path, query),
                headers: outbound(auth),
                body,
                signing: None,
            },
        ),
    }
}

/// What is sent upstream for a caller request, or why it is turned away: an
/// unregistered provider first, then an invalid method, then what the
/// upstream's own plan turns away.
pub open spec fn planned(
    provider: Seq<char>,
    method: Seq<u8>,
    path: Seq<char>,
    query: Option<Seq<char>>,
    inbound: Fields,
    body: Seq<u8>,
) -> Result<RequestPlan, AppError> {
    match resolved(provider) {
        Err(e) => Err(e),
        Ok(upstream) => if !is_token(method) {
            Err(AppError::InvalidMethod)
        } else if upstream.signed() {
            bedrock_plan(method, path, query, inbound, body)
        } else {
            bearer_plan(upstream, method, path, query, inbound, body)
        },
    }
}

/// The credentials that a request is signed with, and the host it is signed for.
pub struct SigningCredentials {
    pub access_key: String,
    pub secret_key: String,
    pub region: String,
    pub host: String,
}

impl View for SigningCredentials {
    type V = Signing;

    open spec fn view(&self) -> Signing {
        Signing {
            access_key: self.access_key@,
            secret_key: self.secret_key@,
            region: self.region@,
            host: self.host@,
        }
    }
}

/// A request as it is sent upstream.
pub struct OutboundRequest {
    pub method: http::Method,
    pub url: String,
    pub headers: Headers,
    pub body: Vec<u8>,
    pub signing: Option<SigningCredentials>,
}

impl OutboundRequest {
    /// The request as plain values.
    pub open spec fn plan(&self) -> RequestPlan {
        RequestPlan {
            method: method_token(self.method),
            url: self.url@,
            headers: fields_of(self.headers),
            body: self.body@,
            signing: match self.signing {
                Some(c) => Some(c@),
                None => None,
            },
        }
    }
}

/// Every name resolves: a registered one to its upstream, any other to
/// `UnsupportedProvider`. The upstream found carries the name it was found by.
pub proof fn lemma_resolution_total(name: Seq<char>)
    ensures
        is_registered(name) ==> resolved(name) is Ok && resolved(name)->Ok_0.registered_name() == name,
        !is_registered(name) ==> resolved(name) == Err::<Upstream, AppError>(AppError::UnsupportedProvider),
{
}

/// A request for an unregistered provider is turned away as such, whatever else
/// it holds.
pub proof fn lemma_unregistered_rejected(
    provider: Seq<char>,
    method: Seq<u8>,
    path: Seq<char>,
    query: Option<Seq<char>>,
    inbound: Fields,
    body: Seq<u8>,
)
    requires
        !is_registered(provider),
    ensures
        planned(provider, method, path, query, inbound, body) == Err::<RequestPlan, AppError>(
            AppError::UnsupportedProvider,
        ),
{
}

/// Resolves a provider name to the upstream registered under it.
pub fn resolve_provider(name: &str) -> (r: Result<Upstream, AppError>)
    ensures
        r == resolved(name@),
{
    if same_text(name, "openai") {
        Ok(Upstream::OpenAi)
    } else if same_text(name, "anthropic") {
        Ok(Upstream::Anthropic)
    } else if same_text(name, "groq") {
        Ok(Upstream::Groq)
    } else if same_text(name, "bedrock") {
        Ok(Upstream::Bedrock)
    } else {
        Err(AppError::UnsupportedProvider)
    }
}

/// The URL of the upstream request.
pub fn target_url(origin: &str, path: &str, query: Option<&str>) -> (url: String)
    ensures
        url@ == target(origin@, path@, match query {
            Some(q) => Some(q@),
            None => None,
        }),
{
    let mut url = origin.to_owned();
    url.append(path);
    match query {
        Some(q) => {
            url.append("?");
            url.append(q);
        },
        None => {},
    }
    url
}

/// The `authorization` value of the upstream request.
pub fn bearer_credential(inbound: &Headers) -> (r: Result<http::HeaderValue, AppError>)
    ensures
        match authorization(fields_of(*inbound)) {
            Ok(auth) => r matches Ok(v) && value_bytes(v) == auth,
            Err(e) => r matches Err(x) && x == e,
        },
{
    proof {
        reveal_strlit("x-magicapi-api-key");
        reveal_strlit("authorization");
        reveal_strlit("Bearer ");
    }
    let ghost fields = fields_of(*inbound);
    match header_text(inbound, "x-magicapi-api-key") {
        Some(key) => {
            let mut credential = "Bearer ".to_owned();
            credential.append(key);
            proof {
                lemma_visible_text(first_value(fields, "x-magicapi-api-key"@)->0);
                lemma_plain_text(credential@);
            }
            match parse_value(credential.as_str().as_bytes()) {
                Some(v) => Ok(v),
                None => Err(AppError::InvalidHeader),
            }
        },
        None => match header_text(inbound, "authorization") {
            Some(own) => {
                proof {
                    lemma_visible_text(first_value(fields, "authorization"@)->0);
                    lemma_plain_text(own@);
                }
                match parse_value(own.as_bytes()) {
                    Some(v) => Ok(v),
                    None => Err(AppError::InvalidHeader),
                }
            },
            None => Err(AppError::MissingApiKey),
        },
    }
}

/// The headers of the request for an upstream that takes a bearer credential.
pub fn outbound_headers(inbound: &Headers) -> (r: Result<Headers, AppError>)
    ensures
        match authorization(fields_of(*inbound)) {
            Ok(auth) => r matches Ok(out) && fields_of(out) == outbound(auth),
            Err(e) => r matches Err(x) && x == e,
        },
{
    proof {
        reveal_strlit("content-type");
        reveal_strlit("application/json");
        reveal_strlit("authorization");
    }
    let credential = match bearer_credential(inbound) {
        Ok(v) => v,
        Err(e) => {
            return Err(e);
        },
    };
    let mut out = new_headers();
    if !set_header(&mut out, plain_header_name("content-type"), plain_header_value("application/json")) {
        return Err(AppError::InvalidHeader);
    }
    if !set_header(&mut out, plain_header_name("authorization"), credential) {
        return Err(AppError::InvalidHeader);
    }
    Ok(out)
}

/// The request for Bedrock.
fn prepare_bedrock(method: http::Method, path: &str, query: Option<&str>, inbound: &Headers, body: &[u8]) -> (r: Result<OutboundRequest, AppError>)
    ensures
        match bedrock_plan(method_token(method), path@, match query {
            Some(q) => Some(q@),
            None => None,
        }, fields_of(*inbound), body@) {
            Ok(plan) => match r {
                Ok(request) => request.plan() == plan,
                Err(e) => e == AppError::InvalidHeader && header_count(*inbound) >= HEADER_ROOM,
            },
            Err(e) => r matches Err(x) && x == e,
        },
{
    let provider = BedrockProvider::new();
    let invoke = provider.transform_path(path);
    let url = target_url(provider.base_url(), invoke.as_str(), query);
    let out_body = match provider.prepare_request_body(body) {
        Ok(bytes) => bytes,
        Err(e) => {
            return Err(e);
        },
    };
    let headers = match provider.process_headers(inbound) {
        Ok(h) => h,
        Err(e) => {
            return Err(e);
        },
    };
    let signing = match provider.get_signing_credentials(inbound) {
        Some(found) => Some(
            SigningCredentials {
                access_key: found.0,
                secret_key: found.1,
                region: found.2,
                host: provider.get_signing_host(),
            },
        ),
        None => None,
    };
    Ok(OutboundRequest { method, url, headers, body: out_body, signing })
}

/// Decides what is sent upstream for a caller request, before anything is
/// sent. Where a plan exists the request is made after it; only a Bedrock
/// request whose inbound set holds `HEADER_ROOM` headers or more may be turned
/// away instead, as `InvalidHeader`.
pub fn prepare_request(provider: &str, method: &str, path: &str, query: Option<&str>, inbound: &Headers, body: &[u8]) -> (r: Result<OutboundRequest, AppError>)
    ensures
        match planned(provider@, method.spec_bytes(), path@, match query {
            Some(q) => Some(q@),
            None => None,
        }, fields_of(*inbound), body@) {
            Ok(plan) => match r {
                Ok(request) => request.plan() == plan,
                Err(e) => e == AppError::InvalidHeader && provider@ == "bedrock"@ && header_count(*inbound)
                    >= HEADER_ROOM,
            },
            Err(e) => r matches Err(x) && x == e,
        },
{
    let upstream = match resolve_provider(provider) {
        Ok(u) => u,
        Err(e) => {
            return Err(e);
        },
    };
    let method = match parse_method(method.as_bytes()) {
        Some(m) => m,
        None => {
            return Err(AppError::InvalidMethod);
        },
    };
    if upstream.requires_signing() {
        return prepare_bedrock(method, path, query, inbound, body);
    }
    let url = target_url(upstream.base_url(), path, query);
    let headers = match outbound_headers(inbound) {
        Ok(h) => h,
        Err(e) => {
            return Err(e);
        },
    };
    Ok(OutboundRequest { method, url, headers, body: slice_to_vec(body), signing: None })
}

/// How an upstream answer is handed back to the caller.
#[derive(Clone, Copy, Debug, PartialEq, Eq, Structural)]
pub enum ResponseKind {
    /// Read in full, then written at once.
    Buffered,
    /// Relayed chunk by chunk as an event stream.
    Streaming,
}

/// The kind of an answer with the given headers: streaming where the first
/// `content-type` value is visible text that holds `text/event-stream`.
pub open spec fn kind_of(upstream: Fields) -> ResponseKind {
    match first_text(upstream, "content-type"@) {
        Some(media_type) => if contains_text(media_type, "text/event-stream"@) {
            ResponseKind::Streaming
        } else {
            ResponseKind::Buffered
        },
        None => ResponseKind::Buffered,
    }
}

/// The headers that are copied from upstream ones given as octets, in their
/// order: each pair that spells a header name and holds a valid value sets that
/// header, replacing what an earlier pair set; any other pair is dropped.
pub open spec fn copied(pairs: Seq<(Seq<u8>, Seq<u8>)>) -> Fields
    decreases pairs.len(),
{
    if pairs.len() == 0 {
        Map::empty()
    } else {
        let rest = copied(pairs.drop_last());
        match canonical_name(pairs.last().0) {
            Some(name) => if valid_value(pairs.last().1) {
                rest.insert(name, seq![pairs.last().1])
            } else {
                rest
            },
            None => rest,
        }
    }
}

/// The headers of a streamed answer: the given ones, with the three headers of
/// an event stream set over them.
pub open spec fn event_stream(headers: Fields) -> Fields {
    headers.insert("content-type"@, seq![ascii_bytes("text/event-stream"@)]).insert(
        "cache-control"@,
        seq![ascii_bytes("no-cache"@)],
    ).insert("connection"@, seq![ascii_bytes("keep-alive"@)])
}

/// The headers of the answer to the caller.
pub open spec fn relayed_headers(kind: ResponseKind, pairs: Seq<(Seq<u8>, Seq<u8>)>) -> Fields {
    match kind {
        ResponseKind::Buffered => copied(pairs),
        ResponseKind::Streaming => event_stream(copied(pairs)),
    }
}

/// The octets of the given pairs.
pub open spec fn pairs_of(pairs: Seq<(Vec<u8>, Vec<u8>)>) -> Seq<(Seq<u8>, Seq<u8>)> {
    Seq::new(pairs.len(), |i: int| (pairs[i].0@, pairs[i].1@))
}

/// The kind of an answer depends on its first `content-type` value alone.
pub proof fn lemma_kind_by_content_type(a: Fields, b: Fields)
    requires
        first_value(a, "content-type"@) == first_value(b, "content-type"@),
    ensures
        kind_of(a) == kind_of(b),
{
}

/// Classifies an upstream answer by its headers.
pub fn classify_response(upstream: &Headers) -> (kind: ResponseKind)
    ensures
        kind == kind_of(fields_of(*upstream)),
{
    proof {
        reveal_strlit("content-type");
    }
    match header_text(upstream, "content-type") {
        Some(media_type) => if contains(media_type, "text/event-stream") {
            ResponseKind::Streaming
        } else {
            ResponseKind::Buffered
        },
        None => ResponseKind::Buffered,
    }
}

/// Copies upstream headers, given as octets, into a header set. A pair that
/// does not convert is dropped. It succeeds on every list of at most
/// `HEADER_ROOM` pairs; on a longer one it may fail where the header set
/// refuses a header for want of room.
pub fn copy_response_headers(upstream: &Vec<(Vec<u8>, Vec<u8>)>) -> (r: Result<Headers, AppError>)
    ensures
        upstream@.len() <= HEADER_ROOM ==> r is Ok,
        r matches Ok(out) ==> fields_of(out) == copied(pairs_of(upstream@)),
        r matches Ok(out) ==> header_count(out) <= upstream@.len(),
        r matches Err(e) ==> e == AppError::InvalidHeader,
{
    let mut out = new_headers();
    let mut i: usize = 0;
    while i < upstream.len()
        invariant
            i <= upstream.len(),
            header_count(out) <= i,
            fields_of(out) == copied(pairs_of(upstream@).take(i as int)),
        decreases upstream.len() - i,
    {
        let pair = &upstream[i];
        proof {
            let all = pairs_of(upstream@);
            assert(all.take(i + 1).drop_last() =~= all.take(i as int));
            assert(all.take(i + 1).last() == (pair.0@, pair.1@));
        }
        match parse_value(pair.1.as_slice()) {
            Some(value) => match parse_name(pair.0.as_slice()) {
                Some(name) => {
                    if !set_header(&mut out, name, value) {
                        return Err(AppError::InvalidHeader);
                    }
                },
                None => {},
            },
            None => {},
        }
        i += 1;
    }
    proof {
        assert(pairs_of(upstream@).take(upstream.len() as int) =~= pairs_of(upstream@));
    }
    Ok(out)
}

/// The headers of the answer to the caller: the copied upstream headers, and
/// for a streamed answer the headers of an event stream over them. It succeeds
/// whenever the upstream list and the three headers of an event stream together
/// are at most `HEADER_ROOM`.
pub fn relay_headers(kind: ResponseKind, upstream: &Vec<(Vec<u8>, Vec<u8>)>) -> (r: Result<Headers, AppError>)
    ensures
        upstream@.len() + 3 <= HEADER_ROOM ==> r is Ok,
        r matches Ok(out) ==> fields_of(out) == relayed_headers(kind, pairs_of(upstream@)),
        r matches Err(e) ==> e == AppError::InvalidHeader,
{
    let mut out = match copy_response_headers(upstream) {
        Ok(h) => h,
        Err(e) => {
            return Err(e);
        },
    };
    match kind {
        ResponseKind::Buffered => Ok(out),
        ResponseKind::Streaming => {
            proof {
                reveal_strlit("content-type");
                reveal_strlit("text/event-stream");
                reveal_strlit("cache-control");
                reveal_strlit("no-cache");
                reveal_strlit("connection");
                reveal_strlit("keep-alive");
            }
            if !set_header(&mut out, plain_header_name("content-type"), plain_header_value("text/event-stream")) {
                return Err(AppError::InvalidHeader);
            }
            if !set_header(&mut out, plain_header_name("cache-control"), plain_header_value("no-cache")) {
                return Err(AppError::InvalidHeader);
            }
            if !set_header(&mut out, plain_header_name("connection"), plain_header_value("keep-alive")) {
                return Err(AppError::InvalidHeader);
            }
            Ok(out)
        },
    }
}

} // verus!
