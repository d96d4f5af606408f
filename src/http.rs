//! Request heads and response descriptions exchanged with the transport.
use vstd::prelude::*;

verus! {

/// Request method.
#[derive(Clone, Copy, Debug, PartialEq, Eq, Structural)]
pub enum Method {
    Get,
    Head,
    Post,
    Put,
    Delete,
    Connect,
    Options,
    Trace,
    Patch,
}

/// An entity tag as carried by `ETag`, `If-Match` and `If-None-Match`.
#[derive(Clone, Debug)]
pub struct EntityTag {
    pub weak: bool,
    pub tag: Vec<u8>,
}

/// Mathematical model of an entity tag.
pub struct EntityTagView {
    pub weak: bool,
    pub tag: Seq<u8>,
}

impl View for EntityTag {
    type V = EntityTagView;

    open spec fn view(&self) -> EntityTagView {
        EntityTagView { weak: self.weak, tag: self.tag@ }
    }
}

/// Strong comparison: both tags strong and byte-identical.
pub open spec fn strong_match(a: EntityTagView, b: EntityTagView) -> bool {
    !a.weak && !b.weak && a.tag == b.tag
}

/// Weak comparison: byte-identical opaque tags, weakness ignored.
pub open spec fn weak_match(a: EntityTagView, b: EntityTagView) -> bool {
    a.tag == b.tag
}

impl EntityTag {
    /// A strong tag.
    pub fn strong(tag: Vec<u8>) -> (r: EntityTag)
        ensures
            r@ == (EntityTagView { weak: false, tag: tag@ }),
    {
        EntityTag { weak: false, tag }
    }

    /// A weak tag.
    pub fn weak(tag: Vec<u8>) -> (r: EntityTag)
        ensures
            r@ == (EntityTagView { weak: true, tag: tag@ }),
    {
        EntityTag { weak: true, tag }
    }

    pub fn strong_eq(&self, other: &EntityTag) -> (r: bool)
        ensures
            r == strong_match(self@, other@),
    {
        !self.weak && !other.weak && crate::text::bytes_eq(self.tag.as_slice(), other.tag.as_slice())
    }

    pub fn weak_eq(&self, other: &EntityTag) -> (r: bool)
        ensures
            r == weak_match(self@, other@),
    {
        crate::text::bytes_eq(self.tag.as_slice(), other.tag.as_slice())
    }
}

/// The value of an `If-Match` or `If-None-Match` header.
#[derive(Clone, Debug)]
pub enum TagCondition {
    /// `*`
    Any,
    /// A list of entity tags.
    Items(Vec<EntityTag>),
}

/// Views of a list of entity tags.
pub open spec fn tags_view(v: Seq<EntityTag>) -> Seq<EntityTagView> {
    v.map_values(|t: EntityTag| t@)
}

/// Parsed request head: the method, the path, and the decoded header values that
/// the core consults.
#[derive(Clone, Debug)]
pub struct HttpRequest {
    pub method: Method,
    pub path: Vec<u8>,
    pub if_match: Option<TagCondition>,
    pub if_none_match: Option<TagCondition>,
    /// `If-Modified-Since`, in whole seconds since the Unix epoch.
    pub if_modified_since: Option<u64>,
    /// `If-Unmodified-Since`, in whole seconds since the Unix epoch.
    pub if_unmodified_since: Option<u64>,
    /// Raw `Range` header bytes.
    pub range: Option<Vec<u8>>,
    /// Raw `Content-Type` header bytes.
    pub content_type: Option<Vec<u8>>,
    /// Raw `Content-Length` header bytes.
    pub content_length: Option<Vec<u8>>,
}

impl HttpRequest {
    /// A request with no headers.
    pub fn new(method: Method, path: Vec<u8>) -> (r: HttpRequest)
        ensures
            r.method == method,
            r.path@ == path@,
            r.if_match is None,
            r.if_none_match is None,
            r.if_modified_since is None,
            r.if_unmodified_since is None,
            r.range is None,
            r.content_type is None,
            r.content_length is None,
    {
        HttpRequest {
            method,
            path,
            if_match: None,
            if_none_match: None,
            if_modified_since: None,
            if_unmodified_since: None,
            range: None,
            content_type: None,
            content_length: None,
        }
    }
}

/// A request body, as the chunks the transport delivered.
#[derive(Clone, Debug)]
pub struct Payload {
    pub chunks: Vec<Vec<u8>>,
}

/// Views of the chunks of a body.
pub open spec fn chunks_view(c: Seq<Vec<u8>>) -> Seq<Seq<u8>> {
    c.map_values(|v: Vec<u8>| v@)
}

impl Payload {
    /// A body of the given chunks.
    pub fn new(chunks: Vec<Vec<u8>>) -> (r: Payload)
        ensures
            r.chunks@ == chunks@,
    {
        Payload { chunks }
    }

    /// A body with no bytes.
    pub fn empty() -> (r: Payload)
        ensures
            r.chunks@.len() == 0,
    {
        Payload { chunks: Vec::new() }
    }

    /// Moves the body out, leaving an empty one behind.
    pub fn take(&mut self) -> (r: Payload)
        ensures
            r.chunks@ == old(self).chunks@,
            final(self).chunks@.len() == 0,
    {
        let mut chunks: Vec<Vec<u8>> = Vec::new();
        core::mem::swap(&mut chunks, &mut self.chunks);
        Payload { chunks }
    }
}

/// State of an asynchronous computation when it was last polled.
pub enum Poll<T> {
    Ready(T),
    Pending,
}

/// Content coding announced by `Content-Encoding`.
#[derive(Clone, Copy, Debug, PartialEq, Eq, Structural)]
pub enum ContentEncoding {
    Br,
    Deflate,
    Gzip,
    Identity,
}

/// What the response body carries.
#[derive(Clone, Debug)]
pub enum Body {
    Empty,
    Bytes(Vec<u8>),
    /// A region of the served resource, streamed from `offset`.
    File { offset: u64, length: u64 },
}

pub enum BodyView {
    Empty,
    Bytes(Seq<u8>),
    File { offset: nat, length: nat },
}

impl View for Body {
    type V = BodyView;

    open spec fn view(&self) -> BodyView {
        match self {
            Body::Empty => BodyView::Empty,
            Body::Bytes(b) => BodyView::Bytes(b@),
            Body::File { offset, length } => BodyView::File {
                offset: *offset as nat,
                length: *length as nat,
            },
        }
    }
}

/// Response header values; `None` means the header is not sent.
#[derive(Clone, Debug)]
pub struct ResponseHeaders {
    pub content_type: Option<Vec<u8>>,
    pub content_disposition: Option<Vec<u8>>,
    pub content_encoding: Option<ContentEncoding>,
    /// `Last-Modified`, in whole seconds since the Unix epoch.
    pub last_modified: Option<u64>,
    pub etag: Option<EntityTag>,
    pub accept_ranges: Option<Vec<u8>>,
    pub content_range: Option<Vec<u8>>,
    pub content_length: Option<u64>,
    pub allow: Option<Vec<u8>>,
}

pub struct ResponseHeadersView {
    pub content_type: Option<Seq<u8>>,
    pub content_disposition: Option<Seq<u8>>,
    pub content_encoding: Option<ContentEncoding>,
    pub last_modified: Option<nat>,
    pub etag: Option<EntityTagView>,
    pub accept_ranges: Option<Seq<u8>>,
    pub content_range: Option<Seq<u8>>,
    pub content_length: Option<nat>,
    pub allow: Option<Seq<u8>>,
}

pub open spec fn bytes_opt(o: Option<Vec<u8>>) -> Option<Seq<u8>> {
    match o {
        Some(v) => Some(v@),
        None => None,
    }
}

impl View for ResponseHeaders {
    type V = ResponseHeadersView;

    open spec fn view(&self) -> ResponseHeadersView {
        ResponseHeadersView {
            content_type: bytes_opt(self.content_type),
            content_disposition: bytes_opt(self.content_disposition),
            content_encoding: self.content_encoding,
            last_modified: match self.last_modified {
                Some(t) => Some(t as nat),
                None => None,
            },
            etag: match self.etag {
                Some(e) => Some(e@),
                None => None,
            },
            accept_ranges: bytes_opt(self.accept_ranges),
            content_range: bytes_opt(self.content_range),
            content_length: match self.content_length {
                Some(n) => Some(n as nat),
                None => None,
            },
            allow: bytes_opt(self.allow),
        }
    }
}

impl ResponseHeaders {
    /// No headers at all.
    pub fn none() -> (r: ResponseHeaders)
        ensures
            r@ == empty_headers(),
    {
        ResponseHeaders {
            content_type: None,
            content_disposition: None,
            content_encoding: None,
            last_modified: None,
            etag: None,
            accept_ranges: None,
            content_range: None,
            content_length: None,
            allow: None,
        }
    }
}

pub open spec fn empty_headers() -> ResponseHeadersView {
    ResponseHeadersView {
        content_type: None,
        content_disposition: None,
        content_encoding: None,
        last_modified: None,
        etag: None,
        accept_ranges: None,
        content_range: None,
        content_length: None,
        allow: None,
    }
}

/// A finished response head with its body description.
#[derive(Clone, Debug)]
pub struct HttpResponse {
    pub status: u16,
    pub headers: ResponseHeaders,
    pub body: Body,
}

pub struct HttpResponseView {
    pub status: u16,
    pub headers: ResponseHeadersView,
    pub body: BodyView,
}

impl View for HttpResponse {
    type V = HttpResponseView;

    open spec fn view(&self) -> HttpResponseView {
        HttpResponseView { status: self.status, headers: self.headers@, body: self.body@ }
    }
}

impl HttpResponse {
    /// A response with the given status, no headers and no body.
    pub fn with_status(status: u16) -> (r: HttpResponse)
        ensures
            r@ == (HttpResponseView { status, headers: empty_headers(), body: BodyView::Empty }),
    {
        HttpResponse { status, headers: ResponseHeaders::none(), body: Body::Empty }
    }
}

/// An error that handler code or an extractor reports; it renders as a response.
#[derive(Clone, Debug)]
pub enum HttpError {
    /// A status code with a diagnostic message for the body.
    Status { status: u16, message: Vec<u8> },
    /// A response chosen by the code that failed.
    Response(HttpResponse),
}

/// `text/plain; charset=utf-8`
pub open spec fn plain_text_type() -> Seq<u8> {
    seq![116, 101, 120, 116, 47, 112, 108, 97, 105, 110, 59, 32, 99, 104, 97, 114, 115, 101, 116, 61, 117, 116, 102, 45, 56]
}

/// The response an error renders as.
pub open spec fn error_response_view(e: HttpError) -> HttpResponseView {
    match e {
        HttpError::Status { status, message } => HttpResponseView {
            status,
            headers: ResponseHeadersView { content_type: Some(plain_text_type()), ..empty_headers() },
            body: BodyView::Bytes(message@),
        },
        HttpError::Response(r) => r@,
    }
}

impl HttpError {
    /// A `500 Internal Server Error` with the given message.
    pub fn internal(message: Vec<u8>) -> (r: HttpError)
        ensures
            r matches HttpError::Status { status, message: m } && status == 500 && m@ == message@,
    {
        HttpError::Status { status: 500, message }
    }

    /// The status code the error renders with.
    pub fn status(&self) -> (r: u16)
        ensures
            r == error_response_view(*self).status,
    {
        match self {
            HttpError::Status { status, .. } => *status,
            HttpError::Response(r) => r.status,
        }
    }

    /// Renders the error as a response.
    pub fn error_response(self) -> (r: HttpResponse)
        ensures
            r@ == error_response_view(self),
    {
        match self {
            HttpError::Status { status, message } => {
                let mut headers = ResponseHeaders::none();
                headers.content_type = Some(plain_text_type_bytes());
                HttpResponse { status, headers, body: Body::Bytes(message) }
            },
            HttpError::Response(r) => r,
        }
    }
}

fn plain_text_type_bytes() -> (r: Vec<u8>)
    ensures
        r@ == plain_text_type(),
{
    let r = vec![116u8, 101, 120, 116, 47, 112, 108, 97, 105, 110, 59, 32, 99, 104, 97, 114, 115, 101, 116, 61, 117, 116, 102, 45, 56];
    proof {
        assert(r@ =~= plain_text_type());
    }
    r
}

} // verus!
