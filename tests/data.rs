use std::any::Any;

use actix_web::data::{construct_data, Data, RouteData};
use actix_web::handler::{Extract, Factory, Handler, ServiceRequest};
use actix_web::http::{HttpRequest, HttpResponse, Method, Payload, Poll};

struct OkData;

impl Factory<Data<usize>, HttpResponse> for OkData {
    fn call(&self, _: Data<usize>) -> HttpResponse {
        HttpResponse::with_status(200)
    }
}

struct OkRouteData;

impl Factory<RouteData<usize>, HttpResponse> for OkRouteData {
    fn call(&self, data: RouteData<usize>) -> HttpResponse {
        let _ = data.share();
        HttpResponse::with_status(200)
    }
}

/// The application's data store: values of any type, looked up by type.
fn lookup<T: 'static>(store: &[Box<dyn Any>]) -> Option<&T> {
    store.iter().find_map(|b| b.downcast_ref::<T>())
}

fn request() -> ServiceRequest {
    ServiceRequest::from_parts(HttpRequest::new(Method::Get, b"/".to_vec()), Payload::empty())
}

fn app_data_status(store: &[Box<dyn Any>]) -> u16 {
    let found = lookup::<Data<usize>>(store).map(|d| d.share());
    let ext: Extract<Data<usize>, Handler<OkData, Data<usize>, HttpResponse>, Data<usize>> =
        Extract::new(found, Handler::new(OkData));
    let mut srv = ext.new_service();
    match srv.call(request()) {
        Ok(sr) => sr.response.status,
        Err((e, _)) => e.error_response().status,
    }
}

fn route_data_status(store: &[Box<dyn Any>]) -> u16 {
    let found = lookup::<RouteData<usize>>(store).map(|d| d.share());
    let ext: Extract<RouteData<usize>, Handler<OkRouteData, RouteData<usize>, HttpResponse>, RouteData<usize>> =
        Extract::new(found, Handler::new(OkRouteData));
    let mut srv = ext.new_service();
    match srv.call(request()) {
        Ok(sr) => sr.response.status,
        Err((e, _)) => e.error_response().status,
    }
}

#[test]
fn test_data_extractor() {
    let store: Vec<Box<dyn Any>> = vec![Box::new(Data::new(10usize))];
    assert_eq!(app_data_status(&store), 200);

    let store: Vec<Box<dyn Any>> = vec![Box::new(Data::new(10u32))];
    assert_eq!(app_data_status(&store), 500);
}

#[test]
fn test_route_data_extractor() {
    let store: Vec<Box<dyn Any>> = vec![Box::new(RouteData::new(10usize))];
    assert_eq!(route_data_status(&store), 200);

    // different type
    let store: Vec<Box<dyn Any>> = vec![Box::new(RouteData::new(10u32))];
    assert_eq!(route_data_status(&store), 500);
}

#[test]
fn data_shares_value() {
    let d = Data::new(vec![1u8, 2, 3]);
    let e = d.share();
    assert_eq!(e.get_ref(), &vec![1u8, 2, 3]);
    let r = RouteData::new(7u64);
    assert_eq!(*r.share().get_ref(), 7);
}

#[test]
fn missing_data_message() {
    let req = HttpRequest::new(Method::Get, b"/".to_vec());
    let err = Data::<usize>::extract(&req, None).err().unwrap();
    let resp = err.error_response();
    assert_eq!(resp.status, 500);
    match resp.body {
        actix_web::http::Body::Bytes(b) => {
            assert_eq!(b, b"App data is not configured, to configure use App::data()".to_vec())
        }
        _ => panic!("expected a message body"),
    }
    let err = RouteData::<usize>::extract(&req, None).err().unwrap();
    assert_eq!(err.status(), 500);
}

#[test]
fn data_constructor_outcomes() {
    let mut slot: Option<Data<u8>> = None;
    assert!(matches!(construct_data::<u8, ()>(Poll::Pending, &mut slot), Poll::Pending));
    assert!(slot.is_none());
    assert!(matches!(construct_data::<u8, ()>(Poll::Ready(Err(())), &mut slot), Poll::Ready(Err(()))));
    assert!(slot.is_none());
    assert!(matches!(construct_data::<u8, ()>(Poll::Ready(Ok(4)), &mut slot), Poll::Ready(Ok(()))));
    assert_eq!(*slot.unwrap().get_ref(), 4);

    let mut slot: Option<Data<u8>> = None;
    Data::new(9u8).install(&mut slot);
    assert_eq!(*slot.unwrap().get_ref(), 9);
}
