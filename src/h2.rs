//! HTTP/2 connection bootstrap: handshake first, then request dispatch.
use vstd::prelude::*;
use std::sync::Arc;
use crate::builder::ServiceConfig;
use crate::data::share;
use crate::http::{HttpError, Poll};

verus! {

/// Peer socket address as the transport reports it.
#[derive(Clone, Copy, Debug, PartialEq, Eq, Structural)]
pub struct PeerAddr {
    /// IPv6 address, or an IPv4 one mapped into IPv6.
    pub ip: u128,
    pub port: u16,
}

/// Why a connection ended in failure.
#[derive(Debug)]
pub enum DispatchError<E> {
    /// The application service reported an error.
    Service(HttpError),
    /// The protocol layer failed (handshake or transport).
    Protocol(E),
}

/// Factory of HTTP/2 connection handlers over the application service factory `S`.
pub struct H2Service<S> {
    srv: S,
    cfg: ServiceConfig,
}

impl<S> H2Service<S> {
    pub closed spec fn config(&self) -> ServiceConfig {
        self.cfg
    }

    pub closed spec fn service(&self) -> S {
        self.srv
    }

    /// With five-second keep-alive, 5000 ms client timeout and no disconnect timeout.
    pub fn new(service: S) -> (r: H2Service<S>)
        ensures
            r.config() == crate::builder::service_config(crate::builder::KeepAlive::Timeout(5), 5000, 0),
            r.service() == service,
    {
        H2Service { cfg: ServiceConfig::default_config(), srv: service }
    }

    pub fn with_config(cfg: ServiceConfig, service: S) -> (r: H2Service<S>)
        ensures
            r.config() == cfg,
            r.service() == service,
    {
        H2Service { cfg, srv: service }
    }

    /// Starts building the handler for one server configuration: the state
    /// that waits for the application's service factory, which the caller
    /// drives and reports through [`H2ServiceResponse::poll`].
    pub fn new_service(&self) -> (r: H2ServiceResponse)
        ensures
            r.config() == Some(self.config()),
    {
        H2ServiceResponse { cfg: Some(self.cfg) }
    }

    /// The application service factory.
    pub fn factory(&self) -> (r: &S)
        ensures
            *r == self.service(),
    {
        &self.srv
    }
}

/// A connection handler under construction.
pub struct H2ServiceResponse {
    cfg: Option<ServiceConfig>,
}

impl H2ServiceResponse {
    pub closed spec fn config(&self) -> Option<ServiceConfig> {
        self.cfg
    }

    /// Advances on what the application's service factory reported: once it
    /// yields a service, the handler for it with the configuration.
    pub fn poll<T, E>(&mut self, outcome: Poll<Result<T, E>>) -> (r: Poll<Result<H2ServiceHandler<T>, E>>)
        requires
            old(self).config() is Some,
        ensures
            match outcome {
                Poll::Pending => r is Pending && final(self).config() == old(self).config(),
                Poll::Ready(Err(e)) => r matches Poll::Ready(Err(e2)) && e2 == e && final(self).config() == old(self).config(),
                Poll::Ready(Ok(s)) => r matches Poll::Ready(Ok(h)) && h.service() == s && Some(h.config())
                    == old(self).config() && final(self).config() is None,
            },
    {
        match outcome {
            Poll::Pending => Poll::Pending,
            Poll::Ready(Err(e)) => Poll::Ready(Err(e)),
            Poll::Ready(Ok(s)) => {
                let cfg = self.cfg.take().unwrap();
                Poll::Ready(Ok(H2ServiceHandler::new(cfg, s)))
            },
        }
    }
}

/// Accepts connections for one application service.
pub struct H2ServiceHandler<S> {
    srv: Arc<S>,
    cfg: ServiceConfig,
}

impl<S> H2ServiceHandler<S> {
    pub closed spec fn config(&self) -> ServiceConfig {
        self.cfg
    }

    pub closed spec fn service(&self) -> S {
        *self.srv
    }

    fn new(cfg: ServiceConfig, srv: S) -> (r: H2ServiceHandler<S>)
        ensures
            r.config() == cfg,
            r.service() == srv,
    {
        H2ServiceHandler { cfg, srv: Arc::new(srv) }
    }

    /// Readiness of the application service, its error reported as a service error.
    pub fn poll_ready<E>(&self, ready: Poll<Result<(), HttpError>>) -> (r: Poll<Result<(), DispatchError<E>>>)
        ensures
            match ready {
                Poll::Pending => r is Pending,
                Poll::Ready(Ok(_)) => r matches Poll::Ready(Ok(_)),
                Poll::Ready(Err(e)) => r matches Poll::Ready(Err(DispatchError::Service(e2))) && e2 == e,
            },
    {
        match ready {
            Poll::Pending => Poll::Pending,
            Poll::Ready(Ok(())) => Poll::Ready(Ok(())),
            Poll::Ready(Err(e)) => Poll::Ready(Err(DispatchError::Service(e))),
        }
    }

    /// Takes a new connection from `peer_addr`: it starts in the handshake.
    pub fn call(&self, peer_addr: Option<PeerAddr>) -> (r: H2ServiceHandlerResponse<S>)
        ensures
            r.phase() == Phase::Handshaking,
            r.handshake_config() == Some(self.config()),
            r.handshake_service() == Some(self.service()),
            r.peer_addr() == peer_addr,
    {
        H2ServiceHandlerResponse {
            state: State::Handshake { srv: share(&self.srv), cfg: self.cfg, peer_addr },
        }
    }
}

/// Phase of a connection.
#[derive(Clone, Copy, Debug, PartialEq, Eq, Structural)]
pub enum Phase {
    Handshaking,
    Dispatching,
    Closed,
}

enum State<S> {
    Handshake { srv: Arc<S>, cfg: ServiceConfig, peer_addr: Option<PeerAddr> },
    Incoming { peer_addr: Option<PeerAddr> },
    Closed,
}

/// What a dispatcher is built from once the handshake completes.
pub struct DispatchSetup<S, C> {
    pub service: Arc<S>,
    pub connection: C,
    pub config: ServiceConfig,
    pub peer_addr: Option<PeerAddr>,
}

/// What the driver of a connection does next.
pub enum Step<S, C, E> {
    /// Wait to be woken, then report again.
    Wait,
    /// Build the dispatcher from this and poll it at once.
    Dispatch(DispatchSetup<S, C>),
    /// The connection ended normally.
    Finished,
    /// The connection ended with this error.
    Failed(DispatchError<E>),
}

/// One connection: handshake, then dispatch until the connection ends.
pub struct H2ServiceHandlerResponse<S> {
    state: State<S>,
}

impl<S> H2ServiceHandlerResponse<S> {
    pub closed spec fn phase(&self) -> Phase {
        match self.state {
            State::Handshake { .. } => Phase::Handshaking,
            State::Incoming { .. } => Phase::Dispatching,
            State::Closed => Phase::Closed,
        }
    }

    pub closed spec fn handshake_config(&self) -> Option<ServiceConfig> {
        match self.state {
            State::Handshake { cfg, .. } => Some(cfg),
            _ => None,
        }
    }

    pub closed spec fn handshake_service(&self) -> Option<S> {
        match self.state {
            State::Handshake { srv, .. } => Some(*srv),
            _ => None,
        }
    }

    pub closed spec fn peer_addr(&self) -> Option<PeerAddr> {
        match self.state {
            State::Handshake { peer_addr, .. } => peer_addr,
            State::Incoming { peer_addr } => peer_addr,
            State::Closed => None,
        }
    }

    /// The current phase.
    pub fn current_phase(&self) -> (r: Phase)
        ensures
            r == self.phase(),
    {
        match self.state {
            State::Handshake { .. } => Phase::Handshaking,
            State::Incoming { .. } => Phase::Dispatching,
            State::Closed => Phase::Closed,
        }
    }

    /// Advances on what the protocol handshake reported. A completed handshake
    /// moves the connection to dispatch, handing over the service, the
    /// negotiated connection, the configuration and the peer address; a failed
    /// one closes it with the error.
    pub fn on_handshake<C, E>(&mut self, event: Poll<Result<C, E>>) -> (r: Step<S, C, E>)
        requires
            old(self).phase() == Phase::Handshaking,
        ensures
            match event {
                Poll::Pending => r is Wait && final(self).phase() == Phase::Handshaking
                    && final(self).handshake_config() == old(self).handshake_config()
                    && final(self).handshake_service() == old(self).handshake_service()
                    && final(self).peer_addr() == old(self).peer_addr(),
                Poll::Ready(Ok(conn)) => r matches Step::Dispatch(setup) && final(self).phase()
                    == Phase::Dispatching && final(self).peer_addr() == old(self).peer_addr()
                    && setup.connection == conn && Some(setup.config) == old(self).handshake_config()
                    && Some(*setup.service) == old(self).handshake_service() && setup.peer_addr == old(
                    self,
                ).peer_addr(),
                Poll::Ready(Err(e)) => r matches Step::Failed(DispatchError::Protocol(e2)) && e2 == e
                    && final(self).phase() == Phase::Closed,
            },
    {
        match event {
            Poll::Pending => Step::Wait,
            Poll::Ready(Err(e)) => {
                self.state = State::Closed;
                Step::Failed(DispatchError::Protocol(e))
            },
            Poll::Ready(Ok(conn)) => {
                let mut old_state = State::Closed;
                core::mem::swap(&mut old_state, &mut self.state);
                match old_state {
                    State::Handshake { srv, cfg, peer_addr } => {
                        self.state = State::Incoming { peer_addr };
                        Step::Dispatch(DispatchSetup { service: srv, connection: conn, config: cfg, peer_addr })
                    },
                    State::Incoming { peer_addr } => {
                        self.state = State::Incoming { peer_addr };
                        Step::Wait
                    },
                    State::Closed => Step::Wait,
                }
            },
        }
    }

    /// Advances on what the dispatcher reported: it keeps running, ends the
    /// connection, or fails it.
    pub fn on_dispatch<C, E>(&mut self, event: Poll<Result<(), E>>) -> (r: Step<S, C, E>)
        requires
            old(self).phase() == Phase::Dispatching,
        ensures
            match event {
                Poll::Pending => r is Wait && final(self).phase() == Phase::Dispatching
                    && final(self).peer_addr() == old(self).peer_addr(),
                Poll::Ready(Ok(_)) => r is Finished && final(self).phase() == Phase::Closed,
                Poll::Ready(Err(e)) => r matches Step::Failed(DispatchError::Protocol(e2)) && e2 == e
                    && final(self).phase() == Phase::Closed,
            },
    {
        match event {
            Poll::Pending => Step::Wait,
            Poll::Ready(Ok(())) => {
                self.state = State::Closed;
                Step::Finished
            },
            Poll::Ready(Err(e)) => {
                self.state = State::Closed;
                Step::Failed(DispatchError::Protocol(e))
            },
        }
    }
}

} // verus!
