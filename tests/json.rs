use actix_web::http::{Body, HttpError, HttpRequest, HttpResponse, Method, Payload};
use actix_web::json::{
    json_response, DefaultErrorHandler, Json, JsonBody, JsonConfig, JsonErrorHandler, JsonErrorKind,
    JsonPayloadError,
};

fn my_object(name: &str) -> serde_json::Value {
    let mut m = serde_json::Map::new();
    m.insert("name".to_string(), serde_json::Value::String(name.to_string()));
    serde_json::Value::Object(m)
}

fn json_eq(err: JsonPayloadError, other: JsonErrorKind) -> bool {
    err.kind() == other
}

fn json_request(length: &str) -> HttpRequest {
    let mut req = HttpRequest::new(Method::Post, b"/".to_vec());
    req.content_type = Some(b"application/json".to_vec());
    req.content_length = Some(length.as_bytes().to_vec());
    req
}

fn body_payload() -> Payload {
    Payload::new(vec![b"{\"name\": \"test\"}".to_vec()])
}

fn body_bytes(b: &Body) -> Vec<u8> {
    match b {
        Body::Bytes(v) => v.clone(),
        _ => Vec::new(),
    }
}

fn error_message(e: &HttpError) -> String {
    match e {
        HttpError::Status { message, .. } => String::from_utf8_lossy(message).into_owned(),
        HttpError::Response(r) => String::from_utf8_lossy(&body_bytes(&r.body)).into_owned(),
    }
}

#[test]
fn test_responder() {
    let req = HttpRequest::new(Method::Get, b"/".to_vec());
    let j = Json(my_object("test"));
    let resp = j.respond_to(&req).ok().unwrap();
    assert_eq!(resp.status, 200);
    assert_eq!(resp.headers.content_type.unwrap(), b"application/json".to_vec());
    assert_eq!(body_bytes(&resp.body), b"{\"name\":\"test\"}".to_vec());
}

struct InvalidRequest;

impl JsonErrorHandler for InvalidRequest {
    fn handle(&self, _err: JsonPayloadError, _req: &HttpRequest) -> HttpError {
        let msg = my_object("invalid request");
        let mut resp = HttpResponse::with_status(400);
        resp.body = Body::Bytes(serde_json::to_vec(&msg).unwrap());
        HttpError::Response(resp)
    }
}

#[test]
fn test_custom_error_responder() {
    let req = json_request("16");
    let mut pl = body_payload();
    let cfg = JsonConfig::<DefaultErrorHandler>::new().limit(10).error_handler(InvalidRequest);
    let s = Json::from_request(&req, &mut pl, Some(&cfg));
    let resp = s.err().unwrap().error_response();
    assert_eq!(resp.status, 400);

    let body = body_bytes(&resp.body);
    let msg: serde_json::Value = serde_json::from_slice(&body).unwrap();
    assert_eq!(msg["name"], "invalid request");
}

struct AsContentType;

impl JsonErrorHandler for AsContentType {
    fn handle(&self, _err: JsonPayloadError, _req: &HttpRequest) -> HttpError {
        JsonPayloadError::ContentType.into_error()
    }
}

#[test]
fn test_extract() {
    let req = json_request("16");
    let mut pl = body_payload();
    let s = Json::from_request(&req, &mut pl, None::<&JsonConfig<DefaultErrorHandler>>)
        .ok()
        .unwrap();
    assert_eq!(s.0["name"], "test");
    assert_eq!(s.into_inner(), my_object("test"));

    let req = json_request("16");
    let mut pl = body_payload();
    let cfg = JsonConfig::<DefaultErrorHandler>::new().limit(10);
    let s = Json::from_request(&req, &mut pl, Some(&cfg));
    assert!(error_message(&s.err().unwrap()).contains("Json payload size is bigger than allowed"));

    let req = json_request("16");
    let mut pl = body_payload();
    let cfg = JsonConfig::<DefaultErrorHandler>::new().limit(10).error_handler(AsContentType);
    let s = Json::from_request(&req, &mut pl, Some(&cfg));
    assert!(error_message(&s.err().unwrap()).contains("Content type error"));
}

#[test]
fn test_json_body() {
    let req = HttpRequest::new(Method::Post, b"/".to_vec());
    let mut pl = Payload::empty();
    let json = JsonBody::new(&req, &mut pl).run();
    assert!(json_eq(json.err().unwrap(), JsonErrorKind::ContentType));

    let mut req = HttpRequest::new(Method::Post, b"/".to_vec());
    req.content_type = Some(b"application/text".to_vec());
    let mut pl = Payload::empty();
    let json = JsonBody::new(&req, &mut pl).run();
    assert!(json_eq(json.err().unwrap(), JsonErrorKind::ContentType));

    let req = json_request("10000");
    let mut pl = Payload::empty();
    let json = JsonBody::new(&req, &mut pl).limit(100).run();
    assert!(json_eq(json.err().unwrap(), JsonErrorKind::Overflow));

    let req = json_request("16");
    let mut pl = body_payload();
    let json = JsonBody::new(&req, &mut pl).run();
    assert_eq!(json.ok().unwrap(), my_object("test"));
}

#[test]
fn json_suffix_media_type_accepted() {
    let mut req = HttpRequest::new(Method::Post, b"/".to_vec());
    req.content_type = Some(b"application/problem+json".to_vec());
    let mut pl = Payload::new(vec![b"[1,".to_vec(), b"2]".to_vec()]);
    let v = JsonBody::new(&req, &mut pl).run().ok().unwrap();
    assert_eq!(v, serde_json::Value::Array(vec![1.into(), 2.into()]));
    assert!(pl.chunks.is_empty());
}

#[test]
fn json_streamed_body_over_limit() {
    let mut req = HttpRequest::new(Method::Post, b"/".to_vec());
    req.content_type = Some(b"application/json".to_vec());
    let mut pl = Payload::new(vec![b"[1,2,".to_vec(), b"3,4]".to_vec()]);
    let e = JsonBody::new(&req, &mut pl).limit(8).run().err().unwrap();
    assert_eq!(e.kind(), JsonErrorKind::Overflow);
    let mut pl = Payload::new(vec![b"[1,2,".to_vec(), b"3,4]".to_vec()]);
    assert!(JsonBody::new(&req, &mut pl).limit(9).run().is_ok());
}

#[test]
fn json_not_json_is_deserialize_error() {
    let req = json_request("5");
    let mut pl = Payload::new(vec![b"{nope".to_vec()]);
    let e = JsonBody::new(&req, &mut pl).run().err().unwrap();
    assert_eq!(e.kind(), JsonErrorKind::Deserialize);
    let err = e.into_error();
    assert_eq!(err.status(), 400);
    assert_eq!(error_message(&err), "Json deserialize error");
}

#[test]
fn json_error_statuses() {
    assert_eq!(JsonPayloadError::Overflow.into_error().status(), 413);
    assert_eq!(JsonPayloadError::ContentType.into_error().status(), 400);
}

#[test]
fn json_response_shape() {
    let r = json_response(b"{}".to_vec());
    assert_eq!(r.status, 200);
    assert_eq!(r.headers.content_type.unwrap(), b"application/json".to_vec());
    assert_eq!(body_bytes(&r.body), b"{}".to_vec());
}

#[test]
fn json_config_limit() {
    let c = JsonConfig::<DefaultErrorHandler>::new();
    assert_eq!(c.get_limit(), 32768);
    assert_eq!(c.limit(10).get_limit(), 10);
}
