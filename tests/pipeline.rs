use std::cell::Cell;
use std::rc::Rc;

use actix_web::data::Data;
use actix_web::handler::{
    AsyncFactory, AsyncHandler, AsyncHandlerServiceResponse, Extract, ExtractResponse, Factory,
    Handler, HandlerServiceResponse, Service, ServiceRequest, ServiceResponse,
};
use actix_web::http::{Body, HttpError, HttpRequest, HttpResponse, Method, Payload, Poll};
use actix_web::json::{DefaultErrorHandler, Json, JsonConfig};

#[derive(Clone)]
struct Counting(Rc<Cell<usize>>);

impl Factory<Json<serde_json::Value>, HttpResponse> for Counting {
    fn call(&self, _param: Json<serde_json::Value>) -> HttpResponse {
        self.0.set(self.0.get() + 1);
        HttpResponse::with_status(200)
    }
}

fn json_request(length: &str, body: &[u8]) -> ServiceRequest {
    let mut req = HttpRequest::new(Method::Post, b"/items".to_vec());
    req.content_type = Some(b"application/json".to_vec());
    req.content_length = Some(length.as_bytes().to_vec());
    ServiceRequest::from_parts(req, Payload::new(vec![body.to_vec()]))
}

#[test]
fn oversized_json_fails_before_handler_and_service_continues() {
    let calls = Rc::new(Cell::new(0usize));
    let cfg = JsonConfig::<DefaultErrorHandler>::new().limit(10);
    let ext: Extract<Json<serde_json::Value>, Handler<Counting, Json<serde_json::Value>, HttpResponse>, JsonConfig<DefaultErrorHandler>> =
        Extract::new(Some(cfg), Handler::new(Counting(calls.clone())));
    let mut srv = ext.new_service();

    let first = srv.call(json_request("16", b"{\"name\": \"test\"}"));
    match first {
        Err((e, back)) => {
            assert_eq!(e.status(), 413);
            assert_eq!(back.request.path, b"/items".to_vec());
        }
        Ok(_) => panic!("the body is over the limit"),
    }
    assert_eq!(calls.get(), 0);

    let second = srv.call(json_request("2", b"{}"));
    match second {
        Ok(sr) => {
            assert_eq!(sr.response.status, 200);
            assert_eq!(sr.request.path, b"/items".to_vec());
        }
        Err(_) => panic!("a small body is accepted"),
    }
    assert_eq!(calls.get(), 1);
}

#[test]
fn handler_errors_become_responses() {
    let req = HttpRequest::new(Method::Get, b"/x".to_vec());
    let mut pending = HandlerServiceResponse::new(req);
    assert!(matches!(pending.poll(Poll::Pending), Poll::Pending));
    let err = HttpError::Status { status: 503, message: b"busy".to_vec() };
    match pending.poll(Poll::Ready(Err(err))) {
        Poll::Ready(sr) => {
            assert_eq!(sr.response.status, 503);
            assert_eq!(sr.request.path, b"/x".to_vec());
            assert!(matches!(sr.response.body, Body::Bytes(ref b) if b == b"busy"));
        }
        Poll::Pending => panic!("ready outcome"),
    }
}

struct Later;

impl AsyncFactory<(), u8> for Later {
    fn call(&self, _: ()) -> u8 {
        42
    }
}

#[test]
fn async_handler_two_stages() {
    let h: AsyncHandler<Later, (), u8> = AsyncHandler::new(Later);
    let (fut, mut pending): (u8, AsyncHandlerServiceResponse) =
        h.call((), HttpRequest::new(Method::Get, b"/a".to_vec()));
    assert_eq!(fut, 42);
    assert!(matches!(pending.poll::<HttpResponse>(Poll::Pending), Poll::Pending));
    match pending.poll(Poll::Ready(Ok(HttpResponse::with_status(201)))) {
        Poll::Ready(sr) => assert_eq!(sr.response.status, 201),
        Poll::Pending => panic!("ready outcome"),
    }

    let (_, mut pending) = h.call((), HttpRequest::new(Method::Get, b"/a".to_vec()));
    let out = pending.poll::<HttpResponse>(Poll::Ready(Err(HttpError::internal(b"x".to_vec()))));
    assert!(matches!(out, Poll::Ready(ServiceResponse { .. })));
}

struct Echo;

impl Service<(Data<u8>, HttpRequest), ServiceResponse> for Echo {
    fn call(&mut self, req: (Data<u8>, HttpRequest)) -> ServiceResponse {
        ServiceResponse {
            request: req.1,
            response: HttpResponse::with_status(200 + *req.0.get_ref() as u16),
        }
    }
}

#[test]
fn extraction_outcomes() {
    let req = HttpRequest::new(Method::Get, b"/e".to_vec());
    let mut pending = ExtractResponse::new(req.clone(), Payload::new(vec![b"left".to_vec()]));
    let mut svc = Echo;
    assert!(matches!(pending.poll::<Data<u8>, Echo>(Poll::Pending, &mut svc), Poll::Pending));
    match pending.poll::<Data<u8>, Echo>(Poll::Ready(Err(HttpError::internal(vec![]))), &mut svc) {
        Poll::Ready(Err((e, back))) => {
            assert_eq!(e.status(), 500);
            assert_eq!(back.payload.chunks, vec![b"left".to_vec()]);
        }
        _ => panic!("failed extraction"),
    }
    let mut pending = ExtractResponse::new(req, Payload::empty());
    match pending.poll(Poll::Ready(Ok(Data::new(4u8))), &mut svc) {
        Poll::Ready(Ok(sr)) => assert_eq!(sr.response.status, 204),
        _ => panic!("successful extraction"),
    }
}

#[test]
fn handler_pairs_response_with_request() {
    let calls = Rc::new(Cell::new(0usize));
    let h: Handler<Counting, Json<serde_json::Value>, HttpResponse> = Handler::new(Counting(calls.clone()));
    let req = HttpRequest::new(Method::Get, b"/h".to_vec());
    let sr = h.handle(Json(serde_json::Value::Null), req);
    assert_eq!(sr.request.path, b"/h".to_vec());
    assert_eq!(sr.response.status, 200);
    assert_eq!(calls.get(), 1);
}

#[test]
fn extract_dispatch_returns_the_error_and_body() {
    let calls = Rc::new(Cell::new(0usize));
    let ext: Extract<Json<serde_json::Value>, Handler<Counting, Json<serde_json::Value>, HttpResponse>, JsonConfig<DefaultErrorHandler>> =
        Extract::new(None, Handler::new(Counting(calls.clone())));
    let mut srv = ext.new_service();
    let req = HttpRequest::new(Method::Get, b"/d".to_vec());
    let out = srv.dispatch(Err(HttpError::internal(b"no".to_vec())), req, Payload::new(vec![b"rest".to_vec()]));
    match out {
        Err((e, back)) => {
            assert_eq!(e.status(), 500);
            assert_eq!(back.payload.chunks, vec![b"rest".to_vec()]);
            assert_eq!(back.request.path, b"/d".to_vec());
        }
        Ok(_) => panic!("extraction failed"),
    }
    assert_eq!(calls.get(), 0);
    let ok = srv.dispatch(Ok(Json(serde_json::Value::Null)), HttpRequest::new(Method::Get, b"/d".to_vec()), Payload::empty());
    assert!(ok.is_ok());
    assert_eq!(calls.get(), 1);
}
