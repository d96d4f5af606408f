//! JSON request bodies and JSON responses.
use vstd::prelude::*;
use crate::http::{
    Body, BodyView, HttpError, HttpRequest, HttpResponse, HttpResponseView, Payload,
    ResponseHeaders, ResponseHeadersView, bytes_opt, chunks_view, empty_headers,
};
use crate::named::visible_ascii;
use crate::range::parse_bounded;
use crate::words::{
    application_json, application_json_bytes, content_type_message, content_type_message_bytes,
    deserialize_message, deserialize_message_bytes, json_word, json_word_bytes, overflow_message,
    overflow_message_bytes, serialize_message_bytes,
};

verus! {

#[verifier::external_type_specification]
#[verifier::external_body]
pub struct ExJsonValue(serde_json::Value);

#[verifier::external_type_specification]
#[verifier::external_body]
pub struct ExJsonError(serde_json::Error);

/// Name for whether `serde_json` accepts the bytes as one JSON document.
pub uninterp spec fn json_accepts(b: Seq<u8>) -> bool;

/// Relies on `serde_json::from_slice` into `serde_json::Value`: whether it succeeds
/// depends on the bytes alone.
#[verifier::external_body]
fn parse_json(b: &[u8]) -> (r: Result<serde_json::Value, serde_json::Error>)
    ensures
        r is Ok == json_accepts(b@),
{
    serde_json::from_slice::<serde_json::Value>(b)
}

/// Relies on `serde_json::to_vec` for a `serde_json::Value`: it succeeds, since a
/// `Value`'s map keys are strings and writing into a `Vec` cannot fail.
#[verifier::external_body]
fn serialize_json(v: &serde_json::Value) -> (r: Result<Vec<u8>, serde_json::Error>)
    ensures
        r is Ok,
{
    serde_json::to_vec(v)
}

/// Name for what `mime` parses from a media type: its subtype and its `+suffix`,
/// both lower-case; `None` when it does not parse.
pub uninterp spec fn parsed_media_type(s: Seq<u8>) -> Option<(Seq<u8>, Option<Seq<u8>>)>;

/// Relies on `mime::Mime`'s `FromStr`, with `Mime::subtype` and `Mime::suffix`.
#[verifier::external_body]
fn parse_media_type(s: &[u8]) -> (r: Option<(Vec<u8>, Option<Vec<u8>>)>)
    ensures
        match parsed_media_type(s@) {
            None => r is None,
            Some((sub, suf)) => r matches Some((rs, rf)) && rs@ == sub && bytes_opt(rf) == suf,
        },
{
    let m = match String::from_utf8_lossy(s).parse::<mime::Mime>() {
        Ok(m) => m,
        Err(_) => return None,
    };
    let suffix = match m.suffix() {
        Some(x) => Some(x.as_str().as_bytes().to_vec()),
        None => None,
    };
    Some((m.subtype().as_str().as_bytes().to_vec(), suffix))
}

/// Why a JSON body was refused.
#[derive(Debug)]
pub enum JsonPayloadError {
    /// Declared or delivered body longer than the limit.
    Overflow,
    /// `Content-Type` is not a JSON media type.
    ContentType,
    /// The bytes are not JSON.
    Deserialize(serde_json::Error),
}

/// The kind of a [`JsonPayloadError`].
#[derive(Clone, Copy, Debug, PartialEq, Eq, Structural)]
pub enum JsonErrorKind {
    Overflow,
    ContentType,
    Deserialize,
}

pub open spec fn error_kind(e: JsonPayloadError) -> JsonErrorKind {
    match e {
        JsonPayloadError::Overflow => JsonErrorKind::Overflow,
        JsonPayloadError::ContentType => JsonErrorKind::ContentType,
        JsonPayloadError::Deserialize(_) => JsonErrorKind::Deserialize,
    }
}

pub open spec fn json_error_message(k: JsonErrorKind) -> Seq<u8> {
    match k {
        JsonErrorKind::Overflow => overflow_message(),
        JsonErrorKind::ContentType => content_type_message(),
        JsonErrorKind::Deserialize => deserialize_message(),
    }
}

/// Status a failed JSON extraction reports: `413` for an oversized body, `400`
/// otherwise.
pub open spec fn json_error_status(k: JsonErrorKind) -> u16 {
    match k {
        JsonErrorKind::Overflow => 413,
        _ => 400,
    }
}

impl JsonPayloadError {
    pub fn kind(&self) -> (r: JsonErrorKind)
        ensures
            r == error_kind(*self),
    {
        match self {
            JsonPayloadError::Overflow => JsonErrorKind::Overflow,
            JsonPayloadError::ContentType => JsonErrorKind::ContentType,
            JsonPayloadError::Deserialize(_) => JsonErrorKind::Deserialize,
        }
    }

    /// The message describing the error.
    pub fn message(&self) -> (r: Vec<u8>)
        ensures
            r@ == json_error_message(error_kind(*self)),
    {
        match self {
            JsonPayloadError::Overflow => overflow_message_bytes(),
            JsonPayloadError::ContentType => content_type_message_bytes(),
            JsonPayloadError::Deserialize(_) => deserialize_message_bytes(),
        }
    }

    /// The error reported for the request.
    pub fn into_error(self) -> (r: HttpError)
        ensures
            r matches HttpError::Status { status, message } && status == json_error_status(
                error_kind(self),
            ) && message@ == json_error_message(error_kind(self)),
    {
        let status: u16 = match self {
            JsonPayloadError::Overflow => 413,
            _ => 400,
        };
        let message = self.message();
        HttpError::Status { status, message }
    }
}

/// `Content-Type` names a JSON media type: subtype `json` or suffix `+json`.
pub open spec fn is_json_content_type(ct: Option<Seq<u8>>) -> bool {
    match ct {
        None => false,
        Some(h) => visible_ascii(h) && match parsed_media_type(h) {
            None => false,
            Some((sub, suf)) => sub == json_word() || suf == Some(json_word()),
        },
    }
}

/// `Content-Length` as a `usize`, when it reads as one.
pub open spec fn declared_length(cl: Option<Seq<u8>>) -> Option<nat> {
    match cl {
        None => None,
        Some(h) => if visible_ascii(h) {
            parse_bounded(h, 0, h.len() as int, usize::MAX as nat)
        } else {
            None
        },
    }
}

/// Bytes of the first `n` chunks, or `None` once they pass `limit`.
pub open spec fn gather(chunks: Seq<Seq<u8>>, n: int, limit: nat) -> Option<Seq<u8>>
    decreases n,
{
    if n <= 0 {
        Some(Seq::empty())
    } else {
        match gather(chunks, n - 1, limit) {
            None => None,
            Some(b) => if b.len() + chunks[n - 1].len() > limit {
                None
            } else {
                Some(b + chunks[n - 1])
            },
        }
    }
}

proof fn lemma_gather_stays_none(chunks: Seq<Seq<u8>>, i: int, n: int, limit: nat)
    requires
        0 < i <= n,
        gather(chunks, i, limit) is None,
    ensures
        gather(chunks, n, limit) is None,
    decreases n - i,
{
    if i < n {
        lemma_gather_stays_none(chunks, i, n - 1, limit);
    }
}

/// Reader of a JSON request body.
pub struct JsonBody {
    limit: usize,
    length: Option<usize>,
    payload: Payload,
    content_type_ok: bool,
}

/// Model of a [`JsonBody`].
pub struct JsonBodyView {
    pub limit: nat,
    pub length: Option<nat>,
    pub chunks: Seq<Seq<u8>>,
    pub content_type_ok: bool,
}

impl View for JsonBody {
    type V = JsonBodyView;

    closed spec fn view(&self) -> JsonBodyView {
        JsonBodyView {
            limit: self.limit as nat,
            length: match self.length {
                Some(l) => Some(l as nat),
                None => None,
            },
            chunks: chunks_view(self.payload.chunks@),
            content_type_ok: self.content_type_ok,
        }
    }
}

/// Default limit of a [`JsonBody`].
pub const BODY_LIMIT: usize = 262_144;

/// The body bytes a reader collects, or why it stops: a wrong content type,
/// then a declared length over the limit, then delivered bytes over the limit.
pub open spec fn collected(b: JsonBodyView) -> Result<Seq<u8>, JsonErrorKind> {
    if !b.content_type_ok {
        Err(JsonErrorKind::ContentType)
    } else if b.length matches Some(l) && l > b.limit {
        Err(JsonErrorKind::Overflow)
    } else {
        match gather(b.chunks, b.chunks.len() as int, b.limit) {
            None => Err(JsonErrorKind::Overflow),
            Some(bytes) => Ok(bytes),
        }
    }
}

/// What reading the body ends in: the JSON document, or the kind of error.
pub open spec fn body_outcome(b: JsonBodyView) -> Result<(), JsonErrorKind> {
    match collected(b) {
        Err(k) => Err(k),
        Ok(bytes) => if json_accepts(bytes) {
            Ok(())
        } else {
            Err(JsonErrorKind::Deserialize)
        },
    }
}

/// Whether the request declares a JSON body.
pub fn json_content_type(req: &HttpRequest) -> (r: bool)
    ensures
        r == is_json_content_type(bytes_opt(req.content_type)),
{
    match &req.content_type {
        None => false,
        Some(h) => {
            if !crate::named::is_visible_ascii(h.as_slice()) {
                return false;
            }
            match parse_media_type(h.as_slice()) {
                None => false,
                Some((sub, suf)) => {
                    let j = json_word_bytes();
                    if crate::text::bytes_eq(sub.as_slice(), j.as_slice()) {
                        return true;
                    }
                    match suf {
                        None => false,
                        Some(x) => crate::text::bytes_eq(x.as_slice(), j.as_slice()),
                    }
                },
            }
        },
    }
}

/// The request's `Content-Length`, when it reads as a `usize`.
pub fn content_length(req: &HttpRequest) -> (r: Option<usize>)
    ensures
        match declared_length(bytes_opt(req.content_length)) {
            Some(n) => r == Some(n as usize),
            None => r is None,
        },
{
    match &req.content_length {
        None => None,
        Some(h) => {
            if !crate::named::is_visible_ascii(h.as_slice()) {
                return None;
            }
            match crate::range::parse_decimal(h.as_slice(), 0, h.len(), usize::MAX as u64) {
                None => None,
                Some(n) => Some(n as usize),
            }
        },
    }
}

impl JsonBody {
    /// Reader for the request's body with the default limit; takes the body
    /// out of `payload`.
    pub fn new(req: &HttpRequest, payload: &mut Payload) -> (r: JsonBody)
        ensures
            r@.limit == BODY_LIMIT,
            r@.content_type_ok == is_json_content_type(bytes_opt(req.content_type)),
            r@.content_type_ok ==> r@.length == declared_length(bytes_opt(req.content_length)),
            r@.content_type_ok ==> r@.chunks == chunks_view(old(payload).chunks@),
            r@.content_type_ok ==> final(payload).chunks@.len() == 0,
            !r@.content_type_ok ==> final(payload).chunks@ == old(payload).chunks@,
    {
        if !json_content_type(req) {
            return JsonBody {
                limit: BODY_LIMIT,
                length: None,
                payload: Payload::empty(),
                content_type_ok: false,
            };
        }
        let length = content_length(req);
        let body = payload.take();
        JsonBody { limit: BODY_LIMIT, length, payload: body, content_type_ok: true }
    }

    /// Sets the largest body accepted.
    pub fn limit(self, limit: usize) -> (r: JsonBody)
        ensures
            r@ == (JsonBodyView { limit: limit as nat, ..self@ }),
    {
        JsonBody { limit, ..self }
    }

    /// Collects the body bytes under the limit.
    pub fn collect(self) -> (r: Result<Vec<u8>, JsonPayloadError>)
        ensures
            match collected(self@) {
                Ok(b) => r matches Ok(v) && v@ == b,
                Err(k) => r matches Err(e) && error_kind(e) == k,
            },
    {
        if !self.content_type_ok {
            return Err(JsonPayloadError::ContentType);
        }
        if let Some(l) = self.length {
            if l > self.limit {
                return Err(JsonPayloadError::Overflow);
            }
        }
        let chunks = &self.payload.chunks;
        let ghost cv = chunks_view(chunks@);
        let mut body: Vec<u8> = Vec::new();
        let mut i: usize = 0;
        while i < chunks.len()
            invariant
                i <= chunks@.len(),
                cv == chunks_view(chunks@),
                cv == self@.chunks,
                self@.content_type_ok,
                !(self@.length matches Some(l) && l > self@.limit),
                body@.len() <= self.limit,
                gather(cv, i as int, self.limit as nat) == Some(body@),
            decreases chunks@.len() - i,
        {
            let chunk = &chunks[i];
            assert(cv[i as int] == chunk@);
            if chunk.len() > self.limit - body.len() {
                proof {
                    lemma_gather_stays_none(cv, i + 1, cv.len() as int, self.limit as nat);
                }
                return Err(JsonPayloadError::Overflow);
            }
            crate::text::push_all(&mut body, chunk.as_slice());
            i = i + 1;
        }
        proof {
            assert(cv.len() == chunks@.len());
        }
        Ok(body)
    }

    /// Reads the body as one JSON document.
    pub fn run(self) -> (r: Result<serde_json::Value, JsonPayloadError>)
        ensures
            match body_outcome(self@) {
                Ok(_) => r is Ok,
                Err(k) => r matches Err(e) && error_kind(e) == k,
            },
    {
        match self.collect() {
            Err(e) => Err(e),
            Ok(bytes) => match parse_json(bytes.as_slice()) {
                Ok(v) => Ok(v),
                Err(e) => Err(JsonPayloadError::Deserialize(e)),
            },
        }
    }
}

/// Turns a failed JSON extraction into the error reported for the request.
pub trait JsonErrorHandler {
    fn handle(&self, err: JsonPayloadError, req: &HttpRequest) -> HttpError;
}

/// Reports extraction errors as they are.
pub struct DefaultErrorHandler;

impl JsonErrorHandler for DefaultErrorHandler {
    fn handle(&self, err: JsonPayloadError, req: &HttpRequest) -> HttpError {
        err.into_error()
    }
}

/// Per-route configuration of the JSON extractor.
pub struct JsonConfig<H> {
    limit: usize,
    ehandler: Option<H>,
}

/// Limit of the JSON extractor when the route sets none.
pub const DEFAULT_LIMIT: usize = 32768;

impl<H> JsonConfig<H> {
    /// The default: a 32 KiB limit and no error handler.
    pub fn new() -> (r: JsonConfig<H>)
        ensures
            r.limit_spec() == DEFAULT_LIMIT,
            !r.has_handler(),
    {
        JsonConfig { limit: DEFAULT_LIMIT, ehandler: None }
    }

    pub closed spec fn limit_spec(&self) -> nat {
        self.limit as nat
    }

    /// The error handler, if one is set.
    pub closed spec fn handler(&self) -> Option<H> {
        self.ehandler
    }

    pub open spec fn has_handler(&self) -> bool {
        self.handler() is Some
    }

    /// Changes the largest body accepted.
    pub fn limit(self, limit: usize) -> (r: JsonConfig<H>)
        ensures
            r.limit_spec() == limit,
            r.handler() == self.handler(),
    {
        JsonConfig { limit, ehandler: self.ehandler }
    }

    /// Sets the handler that turns extraction errors into responses.
    pub fn error_handler<G>(self, f: G) -> (r: JsonConfig<G>)
        ensures
            r.limit_spec() == self.limit_spec(),
            r.handler() == Some(f),
    {
        JsonConfig { limit: self.limit, ehandler: Some(f) }
    }

    /// The largest body accepted.
    pub fn get_limit(&self) -> (r: usize)
        ensures
            r == self.limit_spec(),
    {
        self.limit
    }
}

impl<H> Default for JsonConfig<H> {
    fn default() -> (r: JsonConfig<H>)
        ensures
            r.limit_spec() == DEFAULT_LIMIT,
            !r.has_handler(),
    {
        JsonConfig::new()
    }
}

/// A value read from, or sent as, a JSON body.
pub struct Json<T>(pub T);

impl<T> Json<T> {
    /// The inner value.
    pub fn into_inner(self) -> (r: T)
        ensures
            r == self.0,
    {
        self.0
    }
}

/// Limit the extractor uses for a route configuration.
pub open spec fn route_limit<H>(cfg: Option<&JsonConfig<H>>) -> nat {
    match cfg {
        Some(c) => c.limit_spec(),
        None => DEFAULT_LIMIT as nat,
    }
}

/// Reader the extractor runs for a request.
pub open spec fn extractor_body(req: HttpRequest, chunks: Seq<Seq<u8>>, limit: nat) -> JsonBodyView {
    JsonBodyView {
        limit,
        length: if is_json_content_type(bytes_opt(req.content_type)) {
            declared_length(bytes_opt(req.content_length))
        } else {
            None
        },
        chunks: if is_json_content_type(bytes_opt(req.content_type)) {
            chunks
        } else {
            Seq::empty()
        },
        content_type_ok: is_json_content_type(bytes_opt(req.content_type)),
    }
}

impl Json<serde_json::Value> {
    /// Extracts a JSON document from the request body under the route's limit
    /// (32 KiB when the route sets none). A failure goes through the route's
    /// error handler when there is one.
    pub fn from_request<H: JsonErrorHandler>(
        req: &HttpRequest,
        payload: &mut Payload,
        cfg: Option<&JsonConfig<H>>,
    ) -> (r: Result<Json<serde_json::Value>, HttpError>)
        ensures
            r is Ok <==> body_outcome(
                extractor_body(*req, chunks_view(old(payload).chunks@), route_limit(cfg)),
            ) is Ok,
            (cfg matches Some(c) ==> !c.has_handler()) ==> match body_outcome(
                extractor_body(*req, chunks_view(old(payload).chunks@), route_limit(cfg)),
            ) {
                Ok(_) => true,
                Err(k) => r matches Err(HttpError::Status { status, message }) && status
                    == json_error_status(k) && message@ == json_error_message(k),
            },
            match (cfg, body_outcome(
                extractor_body(*req, chunks_view(old(payload).chunks@), route_limit(cfg)),
            )) {
                (Some(c), Err(k)) => match c.handler() {
                    Some(h) => r matches Err(x) && exists|pe: JsonPayloadError|
                        error_kind(pe) == k && call_ensures(H::handle, (&h, pe, req), x),
                    None => true,
                },
                _ => true,
            },
    {
        let limit = match cfg {
            Some(c) => c.limit,
            None => DEFAULT_LIMIT,
        };
        let body = JsonBody::new(req, payload).limit(limit);
        match body.run() {
            Ok(v) => Ok(Json(v)),
            Err(e) => match cfg {
                Some(c) => match &c.ehandler {
                    Some(h) => Err(h.handle(e, req)),
                    None => Err(e.into_error()),
                },
                None => Err(e.into_error()),
            },
        }
    }

    /// Serialises the document as a `200` JSON response.
    pub fn respond_to(self, req: &HttpRequest) -> (r: Result<HttpResponse, HttpError>)
        ensures
            r matches Ok(resp) && resp@.status == 200 && resp@.headers == json_response_headers()
                && resp@.body is Bytes,
    {
        match serialize_json(&self.0) {
            Ok(b) => Ok(json_response(b)),
            Err(_) => Err(HttpError::Status { status: 500, message: serialize_message_bytes() }),
        }
    }
}

/// Headers of a JSON response: only `Content-Type: application/json`.
pub open spec fn json_response_headers() -> ResponseHeadersView {
    ResponseHeadersView { content_type: Some(application_json()), ..empty_headers() }
}

/// A `200` response carrying the serialised JSON document `body`.
pub fn json_response(body: Vec<u8>) -> (r: HttpResponse)
    ensures
        r@ == (HttpResponseView {
            status: 200,
            headers: ResponseHeadersView { content_type: Some(application_json()), ..empty_headers() },
            body: BodyView::Bytes(body@),
        }),
{
    let mut headers = ResponseHeaders::none();
    headers.content_type = Some(application_json_bytes());
    HttpResponse { status: 200, headers, body: Body::Bytes(body) }
}

} // verus!
