use actix_web::builder::{HttpServiceBuilder, KeepAlive, Protocol, ServiceConfig};
use actix_web::h2::{DispatchError, H2Service, PeerAddr, Phase, Step};
use actix_web::http::{HttpError, Poll};

#[test]
fn builder_defaults_and_setters() {
    let b = HttpServiceBuilder::new();
    let svc = b.finish(7u8);
    assert_eq!(svc.cfg, ServiceConfig::new(KeepAlive::Timeout(5), 5000, 0));
    assert_eq!(svc.cfg.keep_alive, Some(5));
    assert_eq!(svc.protocol, Protocol::Negotiated);
    assert!(svc.upgrade.is_none());

    let svc = HttpServiceBuilder::new()
        .keep_alive(KeepAlive::Disabled)
        .client_timeout(100)
        .client_disconnect(200)
        .upgrade(3u8)
        .h1(1u8);
    assert_eq!(svc.cfg.keep_alive, None);
    assert!(!svc.cfg.keep_alive_enabled);
    assert_eq!(svc.cfg.client_timeout, 100);
    assert_eq!(svc.cfg.client_disconnect, 200);
    assert_eq!(svc.upgrade, Some(3u8));
    assert_eq!(svc.protocol, Protocol::Http1);

    let cfg = ServiceConfig::new(KeepAlive::Os, 1, 2);
    assert!(cfg.keep_alive_enabled);
    assert_eq!(cfg.keep_alive, None);
    let cfg = ServiceConfig::new(KeepAlive::Timeout(0), 1, 2);
    assert_eq!(cfg.keep_alive, None);
}

#[test]
fn handshake_then_dispatch() {
    let h2 = HttpServiceBuilder::new().client_timeout(42).h2("factory");
    assert_eq!(*h2.factory(), "factory");
    let mut building = h2.new_service();
    assert!(matches!(building.poll::<u32, ()>(Poll::Pending), Poll::Pending));
    let handler = match building.poll::<u32, ()>(Poll::Ready(Ok(9))) {
        Poll::Ready(Ok(h)) => h,
        _ => panic!("service built"),
    };
    assert!(matches!(handler.poll_ready::<()>(Poll::Ready(Ok(()))), Poll::Ready(Ok(()))));
    match handler.poll_ready::<()>(Poll::Ready(Err(HttpError::internal(vec![])))) {
        Poll::Ready(Err(DispatchError::Service(e))) => assert_eq!(e.status(), 500),
        _ => panic!("service error"),
    }

    let peer = Some(PeerAddr { ip: 1, port: 8080 });
    let mut conn = handler.call(peer);
    assert_eq!(conn.current_phase(), Phase::Handshaking);
    assert!(matches!(conn.on_handshake::<&str, ()>(Poll::Pending), Step::Wait));
    assert_eq!(conn.current_phase(), Phase::Handshaking);
    match conn.on_handshake::<&str, ()>(Poll::Ready(Ok("negotiated"))) {
        Step::Dispatch(setup) => {
            assert_eq!(setup.connection, "negotiated");
            assert_eq!(*setup.service, 9);
            assert_eq!(setup.config.client_timeout, 42);
            assert_eq!(setup.peer_addr, peer);
        }
        _ => panic!("dispatch starts"),
    }
    assert_eq!(conn.current_phase(), Phase::Dispatching);
    assert!(matches!(conn.on_dispatch::<(), &str>(Poll::Pending), Step::Wait));
    assert!(matches!(conn.on_dispatch::<(), &str>(Poll::Ready(Ok(()))), Step::Finished));
    assert_eq!(conn.current_phase(), Phase::Closed);
}

#[test]
fn handshake_failure_closes() {
    let h2 = H2Service::new(0u8);
    let mut building = h2.new_service();
    let handler = match building.poll::<u8, ()>(Poll::Ready(Ok(1))) {
        Poll::Ready(Ok(h)) => h,
        _ => panic!("service built"),
    };
    let mut conn = handler.call(None);
    match conn.on_handshake::<(), &str>(Poll::Ready(Err("bad preface"))) {
        Step::Failed(DispatchError::Protocol(e)) => assert_eq!(e, "bad preface"),
        _ => panic!("handshake fails"),
    }
    assert_eq!(conn.current_phase(), Phase::Closed);

    let mut conn = handler.call(None);
    let _ = conn.on_handshake::<(), &str>(Poll::Ready(Ok(())));
    assert!(matches!(
        conn.on_dispatch::<(), &str>(Poll::Ready(Err("reset"))),
        Step::Failed(DispatchError::Protocol("reset"))
    ));
}
