//! Typed extraction and handler dispatch.
use vstd::prelude::*;
use std::marker::PhantomData;
use crate::http::{HttpError, HttpRequest, HttpResponse, HttpResponseView, Payload, Poll, error_response_view};
use crate::data::{Data, RouteData};
use crate::json::{
    Json, JsonConfig, JsonErrorHandler, JsonPayloadError, body_outcome, error_kind,
    extractor_body, json_error_message, json_error_status, route_limit,
};
use crate::http::chunks_view;
use crate::words::{app_data_missing, route_data_missing};

verus! {

/// A value that becomes a response, given the request it answers.
pub trait Responder {
    fn respond_to(self, req: &HttpRequest) -> Result<HttpResponse, HttpError>;
}

impl Responder for HttpResponse {
    fn respond_to(self, req: &HttpRequest) -> (r: Result<HttpResponse, HttpError>)
        ensures
            r == Ok::<HttpResponse, HttpError>(self),
    {
        Ok(self)
    }
}

impl Responder for crate::named::NamedFile {
    fn respond_to(self, req: &HttpRequest) -> (r: Result<HttpResponse, HttpError>)
        ensures
            r matches Ok(resp) && resp@ == crate::named::file_response(self@, *req),
    {
        Ok(crate::named::NamedFile::respond_to(&self, req))
    }
}

impl Responder for Json<serde_json::Value> {
    fn respond_to(self, req: &HttpRequest) -> (r: Result<HttpResponse, HttpError>)
        ensures
            r matches Ok(resp) && resp@.status == 200 && resp@.headers
                == crate::json::json_response_headers() && resp@.body is Bytes,
    {
        Json::respond_to(self, req)
    }
}

/// A typed argument taken from a request; `C` is what the route or the
/// application attaches for it.
pub trait FromRequest<C>: Sized {
    fn from_request(req: &HttpRequest, payload: &mut Payload, attached: Option<&C>) -> Result<
        Self,
        HttpError,
    >;
}

impl<T> FromRequest<Data<T>> for Data<T> {
    fn from_request(req: &HttpRequest, payload: &mut Payload, attached: Option<&Data<T>>) -> (r: Result<
        Data<T>,
        HttpError,
    >)
        ensures
            *final(payload) == *old(payload),
            match attached {
                Some(d) => r matches Ok(x) && x@ == d@,
                None => r matches Err(HttpError::Status { status, message }) && status == 500
                    && message@ == app_data_missing(),
            },
    {
        Data::extract(req, attached)
    }
}

impl<T> FromRequest<RouteData<T>> for RouteData<T> {
    fn from_request(
        req: &HttpRequest,
        payload: &mut Payload,
        attached: Option<&RouteData<T>>,
    ) -> (r: Result<RouteData<T>, HttpError>)
        ensures
            *final(payload) == *old(payload),
            match attached {
                Some(d) => r matches Ok(x) && x@ == d@,
                None => r matches Err(HttpError::Status { status, message }) && status == 500
                    && message@ == route_data_missing(),
            },
    {
        RouteData::extract(req, attached)
    }
}

impl<H: JsonErrorHandler> FromRequest<JsonConfig<H>> for Json<serde_json::Value> {
    fn from_request(
        req: &HttpRequest,
        payload: &mut Payload,
        attached: Option<&JsonConfig<H>>,
    ) -> (r: Result<Json<serde_json::Value>, HttpError>)
        ensures
            r is Ok <==> body_outcome(
                extractor_body(*req, chunks_view(old(payload).chunks@), route_limit(attached)),
            ) is Ok,
            (attached matches Some(c) ==> !c.has_handler()) ==> match body_outcome(
                extractor_body(*req, chunks_view(old(payload).chunks@), route_limit(attached)),
            ) {
                Ok(_) => true,
                Err(k) => r matches Err(HttpError::Status { status, message }) && status
                    == json_error_status(k) && message@ == json_error_message(k),
            },
            match (attached, body_outcome(
                extractor_body(*req, chunks_view(old(payload).chunks@), route_limit(attached)),
            )) {
                (Some(c), Err(k)) => match c.handler() {
                    Some(h) => r matches Err(x) && exists|pe: JsonPayloadError|
                        error_kind(pe) == k && call_ensures(H::handle, (&h, pe, req), x),
                    None => true,
                },
                _ => true,
            },
    {
        Json::from_request(req, payload, attached)
    }
}

/// Application logic: a function of the extracted arguments.
pub trait Factory<T, R> {
    fn call(&self, param: T) -> R;
}

/// Asynchronous application logic: returns a computation that the caller drives.
pub trait AsyncFactory<T, R> {
    fn call(&self, param: T) -> R;
}

/// A unit of request handling.
pub trait Service<Req, Resp> {
    fn call(&mut self, req: Req) -> Resp;
}

/// A request paired with the response it received.
pub struct ServiceResponse {
    pub request: HttpRequest,
    pub response: HttpResponse,
}

/// A request head with its body, as it enters the pipeline.
pub struct ServiceRequest {
    pub request: HttpRequest,
    pub payload: Payload,
}

impl ServiceRequest {
    pub fn from_parts(request: HttpRequest, payload: Payload) -> (r: ServiceRequest)
        ensures
            r.request == request,
            r.payload == payload,
    {
        ServiceRequest { request, payload }
    }

    pub fn into_parts(self) -> (r: (HttpRequest, Payload))
        ensures
            r.0 == self.request,
            r.1 == self.payload,
    {
        (self.request, self.payload)
    }
}

/// Response for a responder's outcome: the response, or the error rendered.
pub open spec fn outcome_response(outcome: Result<HttpResponse, HttpError>) -> HttpResponseView {
    match outcome {
        Ok(res) => res@,
        Err(e) => error_response_view(e),
    }
}

fn outcome_to_response(outcome: Result<HttpResponse, HttpError>) -> (r: HttpResponse)
    ensures
        r@ == outcome_response(outcome),
{
    match outcome {
        Ok(res) => res,
        Err(e) => e.error_response(),
    }
}

/// Wraps a [`Factory`] as a service over extracted arguments and the request.
pub struct Handler<F, T, R> {
    hnd: F,
    _t: PhantomData<(T, R)>,
}

impl<F, T, R> Handler<F, T, R> {
    pub fn new(hnd: F) -> (r: Handler<F, T, R>)
        ensures
            r.factory() == hnd,
    {
        Handler { hnd, _t: PhantomData }
    }

    pub closed spec fn factory(&self) -> F {
        self.hnd
    }
}

impl<F: Clone, T, R> Clone for Handler<F, T, R> {
    fn clone(&self) -> Self {
        Handler { hnd: self.hnd.clone(), _t: PhantomData }
    }
}

impl<F: Factory<T, R>, T, R: Responder> Handler<F, T, R> {
    /// Calls the factory with the arguments, renders what it returns for the
    /// request, and pairs the response with that request; an error becomes its
    /// response.
    pub fn handle(&self, param: T, req: HttpRequest) -> (r: ServiceResponse)
        ensures
            r.request == req,
            exists|v: R, o|
                call_ensures(F::call, (&self.factory(), param), v) && call_ensures(
                    R::respond_to,
                    (v, &req),
                    o,
                ) && r.response@ == outcome_response(o),
    {
        let v = self.hnd.call(param);
        let outcome = v.respond_to(&req);
        ServiceResponse { request: req, response: outcome_to_response(outcome) }
    }
}

impl<F: Factory<T, R>, T, R: Responder> Service<(T, HttpRequest), ServiceResponse> for Handler<
    F,
    T,
    R,
> {
    fn call(&mut self, req: (T, HttpRequest)) -> (r: ServiceResponse)
        ensures
            r.request == req.1,
            *final(self) == *old(self),
            exists|v: R, o|
                call_ensures(F::call, (&old(self).factory(), req.0), v) && call_ensures(
                    R::respond_to,
                    (v, &req.1),
                    o,
                ) && r.response@ == outcome_response(o),
    {
        let (param, request) = req;
        self.handle(param, request)
    }
}

/// A handler's response on its way: holds the request until the response is ready.
pub struct HandlerServiceResponse {
    req: Option<HttpRequest>,
}

impl HandlerServiceResponse {
    pub fn new(req: HttpRequest) -> (r: HandlerServiceResponse)
        ensures
            r.request() == Some(req),
    {
        HandlerServiceResponse { req: Some(req) }
    }

    pub closed spec fn request(&self) -> Option<HttpRequest> {
        self.req
    }

    /// Pairs the responder's outcome with the request once it is ready; an
    /// error becomes its response rather than failing the connection.
    pub fn poll(&mut self, outcome: Poll<Result<HttpResponse, HttpError>>) -> (r: Poll<
        ServiceResponse,
    >)
        requires
            old(self).request() is Some,
        ensures
            match outcome {
                Poll::Pending => r is Pending && final(self).request() == old(self).request(),
                Poll::Ready(o) => r matches Poll::Ready(sr) && Some(sr.request) == old(
                    self,
                ).request() && sr.response@ == outcome_response(o) && final(self).request() is None,
            },
    {
        match outcome {
            Poll::Pending => Poll::Pending,
            Poll::Ready(o) => {
                let req = self.req.take().unwrap();
                Poll::Ready(ServiceResponse { request: req, response: outcome_to_response(o) })
            },
        }
    }
}

/// Wraps an [`AsyncFactory`] as a service over extracted arguments and the request.
pub struct AsyncHandler<F, T, R> {
    hnd: F,
    _t: PhantomData<(T, R)>,
}

impl<F, T, R> AsyncHandler<F, T, R> {
    pub fn new(hnd: F) -> (r: AsyncHandler<F, T, R>)
        ensures
            r.factory() == hnd,
    {
        AsyncHandler { hnd, _t: PhantomData }
    }

    pub closed spec fn factory(&self) -> F {
        self.hnd
    }
}

impl<F: Clone, T, R> Clone for AsyncHandler<F, T, R> {
    fn clone(&self) -> Self {
        AsyncHandler { hnd: self.hnd.clone(), _t: PhantomData }
    }
}

impl<F: AsyncFactory<T, R>, T, R> AsyncHandler<F, T, R> {
    /// Starts the handler: its computation, to be driven by the caller, and the
    /// response it will become.
    pub fn call(&self, param: T, req: HttpRequest) -> (r: (R, AsyncHandlerServiceResponse))
        ensures
            r.1.request() == Some(req),
            call_ensures(F::call, (&self.factory(), param), r.0),
    {
        let fut = self.hnd.call(param);
        (fut, AsyncHandlerServiceResponse::new(req))
    }
}

/// An asynchronous handler's response on its way.
pub struct AsyncHandlerServiceResponse {
    req: Option<HttpRequest>,
}

impl AsyncHandlerServiceResponse {
    pub fn new(req: HttpRequest) -> (r: AsyncHandlerServiceResponse)
        ensures
            r.request() == Some(req),
    {
        AsyncHandlerServiceResponse { req: Some(req) }
    }

    pub closed spec fn request(&self) -> Option<HttpRequest> {
        self.req
    }

    /// Advances on what the handler's computation reported: nothing while it
    /// runs; once it yields a responder, that responder's response; once it
    /// fails, the error's response. The request is handed back with it.
    pub fn poll<R: Responder>(&mut self, outcome: Poll<Result<R, HttpError>>) -> (r: Poll<
        ServiceResponse,
    >)
        requires
            old(self).request() is Some,
        ensures
            match outcome {
                Poll::Pending => r is Pending && final(self).request() == old(self).request(),
                Poll::Ready(Err(e)) => r matches Poll::Ready(sr) && Some(sr.request) == old(
                    self,
                ).request() && sr.response@ == error_response_view(e) && final(self).request() is None,
                Poll::Ready(Ok(item)) => r matches Poll::Ready(sr) && Some(sr.request) == old(
                    self,
                ).request() && final(self).request() is None && exists|o|
                    call_ensures(R::respond_to, (item, &sr.request), o) && sr.response@
                        == outcome_response(o),
            },
    {
        match outcome {
            Poll::Pending => Poll::Pending,
            Poll::Ready(Err(e)) => {
                let req = self.req.take().unwrap();
                Poll::Ready(ServiceResponse { request: req, response: e.error_response() })
            },
            Poll::Ready(Ok(item)) => {
                let req = self.req.take().unwrap();
                let out = item.respond_to(&req);
                Poll::Ready(ServiceResponse { request: req, response: outcome_to_response(out) })
            },
        }
    }
}

/// Builds extraction services: runs the extractor `T` with the attached `C`, then `S`.
pub struct Extract<T, S, C> {
    config: Option<C>,
    service: S,
    _t: PhantomData<T>,
}

impl<T, S, C> Extract<T, S, C> {
    pub fn new(config: Option<C>, service: S) -> (r: Extract<T, S, C>)
        ensures
            r.config() == config,
            r.service() == service,
    {
        Extract { config, service, _t: PhantomData }
    }

    pub closed spec fn config(&self) -> Option<C> {
        self.config
    }

    pub closed spec fn service(&self) -> S {
        self.service
    }

    /// The service for one connection.
    pub fn new_service(self) -> (r: ExtractService<T, S, C>)
        ensures
            r.config() == self.config(),
            r.service() == self.service(),
    {
        ExtractService { config: self.config, service: self.service, _t: PhantomData }
    }
}

/// Extracts `T` from each request, then calls the inner service with it.
pub struct ExtractService<T, S, C> {
    config: Option<C>,
    service: S,
    _t: PhantomData<T>,
}

impl<T, S, C> ExtractService<T, S, C> {
    pub closed spec fn config(&self) -> Option<C> {
        self.config
    }

    pub closed spec fn service(&self) -> S {
        self.service
    }

    /// The inner service.
    pub fn inner(&self) -> (r: &S)
        ensures
            *r == self.service(),
    {
        &self.service
    }
}

impl<T: FromRequest<C>, S: Service<(T, HttpRequest), ServiceResponse>, C> ExtractService<T, S, C> {
    /// Extracts the argument and dispatches. A failed extraction hands back the
    /// error with the request and its unread body; the inner service is then
    /// left untouched.
    pub fn call(&mut self, req: ServiceRequest) -> (r: Result<ServiceResponse, (HttpError, ServiceRequest)>)
        ensures
            final(self).config() == old(self).config(),
            r is Err ==> final(self).service() == old(self).service(),
            r matches Err((_, back)) ==> back.request == req.request,
    {
        let (request, mut payload) = req.into_parts();
        let outcome = T::from_request(&request, &mut payload, self.config.as_ref());
        self.dispatch(outcome, request, payload)
    }

    /// Continues once the extractor has reported: a failure is returned with
    /// exactly that error, the request and what is left of its body, without
    /// calling the inner service; an extracted argument goes to the inner
    /// service with the request.
    pub fn dispatch(&mut self, outcome: Result<T, HttpError>, request: HttpRequest, payload: Payload) -> (r: Result<
        ServiceResponse,
        (HttpError, ServiceRequest),
    >)
        ensures
            final(self).config() == old(self).config(),
            match outcome {
                Err(e) => r matches Err((e2, back)) && e2 == e && back.request == request
                    && back.payload == payload && final(self).service() == old(self).service(),
                Ok(_) => r is Ok,
            },
    {
        match outcome {
            Err(e) => Err((e, ServiceRequest::from_parts(request, payload))),
            Ok(item) => Ok(self.service.call((item, request))),
        }
    }
}

/// An extraction on its way: holds the request and body until the argument is ready.
pub struct ExtractResponse {
    req: Option<(HttpRequest, Payload)>,
}

impl ExtractResponse {
    pub fn new(request: HttpRequest, payload: Payload) -> (r: ExtractResponse)
        ensures
            r.parts() == Some((request, payload)),
    {
        ExtractResponse { req: Some((request, payload)) }
    }

    pub closed spec fn parts(&self) -> Option<(HttpRequest, Payload)> {
        self.req
    }

    /// Advances on what the extractor reported: nothing while it runs; on
    /// failure the error with the original request and body, the service not
    /// called; on success the service's response to the argument and the request.
    pub fn poll<T, S: Service<(T, HttpRequest), ServiceResponse>>(
        &mut self,
        outcome: Poll<Result<T, HttpError>>,
        service: &mut S,
    ) -> (r: Poll<Result<ServiceResponse, (HttpError, ServiceRequest)>>)
        requires
            old(self).parts() is Some,
        ensures
            match outcome {
                Poll::Pending => r is Pending && final(self).parts() == old(self).parts()
                    && *final(service) == *old(service),
                Poll::Ready(Err(e)) => r matches Poll::Ready(Err((e2, back))) && e2 == e && Some(
                    (back.request, back.payload),
                ) == old(self).parts() && *final(service) == *old(service) && final(self).parts() is None,
                Poll::Ready(Ok(_)) => r matches Poll::Ready(Ok(_)) && final(self).parts() is None,
            },
    {
        match outcome {
            Poll::Pending => Poll::Pending,
            Poll::Ready(Err(e)) => {
                let (request, payload) = self.req.take().unwrap();
                Poll::Ready(Err((e, ServiceRequest::from_parts(request, payload))))
            },
            Poll::Ready(Ok(item)) => {
                let (request, _payload) = self.req.take().unwrap();
                Poll::Ready(Ok(service.call((item, request))))
            },
        }
    }
}

} // verus!
