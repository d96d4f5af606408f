//! Connection configuration and the service builder.
use vstd::prelude::*;
use crate::h2::H2Service;

verus! {

/// Keep-alive setting of a server.
#[derive(Clone, Copy, Debug, PartialEq, Eq, Structural)]
pub enum KeepAlive {
    /// Keep idle connections open for this many seconds.
    Timeout(u64),
    /// Leave keep-alive to the operating system.
    Os,
    Disabled,
}

/// Per-connection configuration handed to dispatchers.
#[derive(Clone, Copy, Debug, PartialEq, Eq, Structural)]
pub struct ServiceConfig {
    /// Keep-alive period in seconds, when there is one.
    pub keep_alive: Option<u64>,
    pub keep_alive_enabled: bool,
    /// Milliseconds to receive the first request head; 0 disables.
    pub client_timeout: u64,
    /// Milliseconds to complete a disconnect; 0 disables.
    pub client_disconnect: u64,
}

/// Configuration a keep-alive setting and the two timeouts give.
pub open spec fn service_config(keep_alive: KeepAlive, client_timeout: u64, client_disconnect: u64) -> ServiceConfig {
    ServiceConfig {
        keep_alive: match keep_alive {
            KeepAlive::Timeout(s) => if s > 0 {
                Some(s)
            } else {
                None
            },
            _ => None,
        },
        keep_alive_enabled: !(keep_alive is Disabled),
        client_timeout,
        client_disconnect,
    }
}

impl ServiceConfig {
    pub fn new(keep_alive: KeepAlive, client_timeout: u64, client_disconnect: u64) -> (r: ServiceConfig)
        ensures
            r == service_config(keep_alive, client_timeout, client_disconnect),
    {
        let (period, enabled) = match keep_alive {
            KeepAlive::Timeout(s) => (s, true),
            KeepAlive::Os => (0, true),
            KeepAlive::Disabled => (0, false),
        };
        ServiceConfig {
            keep_alive: if enabled && period > 0 {
                Some(period)
            } else {
                None
            },
            keep_alive_enabled: enabled,
            client_timeout,
            client_disconnect,
        }
    }

    /// Five-second keep-alive, 5000 ms client timeout, no disconnect timeout.
    pub fn default_config() -> (r: ServiceConfig)
        ensures
            r == service_config(KeepAlive::Timeout(5), 5000, 0),
    {
        ServiceConfig::new(KeepAlive::Timeout(5), 5000, 0)
    }
}

/// The default handling of `Expect: 100-continue`: the request goes on unchanged.
#[derive(Clone, Copy, Debug, PartialEq, Eq, Structural)]
pub struct ExpectHandler;

/// Marker for the absence of an upgrade service.
#[derive(Clone, Copy, Debug, PartialEq, Eq, Structural)]
pub struct UpgradeHandler;

/// Which protocol a finished service speaks.
#[derive(Clone, Copy, Debug, PartialEq, Eq, Structural)]
pub enum Protocol {
    Http1,
    /// HTTP/1 or HTTP/2, whichever the connection negotiates.
    Negotiated,
}

/// A configured HTTP service over the application service `S`.
pub struct HttpService<S, X, U> {
    pub cfg: ServiceConfig,
    pub srv: S,
    pub expect: X,
    pub upgrade: Option<U>,
    pub protocol: Protocol,
}

/// Builder of HTTP services.
pub struct HttpServiceBuilder<X, U> {
    keep_alive: KeepAlive,
    client_timeout: u64,
    client_disconnect: u64,
    expect: X,
    upgrade: Option<U>,
}

impl HttpServiceBuilder<ExpectHandler, UpgradeHandler> {
    /// Five-second keep-alive, 5000 ms client timeout, no disconnect timeout,
    /// default expect handling and no upgrade service.
    pub fn new() -> (r: HttpServiceBuilder<ExpectHandler, UpgradeHandler>)
        ensures
            r.config() == service_config(KeepAlive::Timeout(5), 5000, 0),
            r.keep_alive_spec() == KeepAlive::Timeout(5),
            r.client_timeout_spec() == 5000,
            r.client_disconnect_spec() == 0,
            r.upgrade_spec() is None,
    {
        HttpServiceBuilder {
            keep_alive: KeepAlive::Timeout(5),
            client_timeout: 5000,
            client_disconnect: 0,
            expect: ExpectHandler,
            upgrade: None,
        }
    }
}

impl<X, U> HttpServiceBuilder<X, U> {
    pub closed spec fn keep_alive_spec(&self) -> KeepAlive {
        self.keep_alive
    }

    pub closed spec fn expect_spec(&self) -> X {
        self.expect
    }

    pub closed spec fn upgrade_spec(&self) -> Option<U> {
        self.upgrade
    }

    pub closed spec fn client_timeout_spec(&self) -> u64 {
        self.client_timeout
    }

    pub closed spec fn client_disconnect_spec(&self) -> u64 {
        self.client_disconnect
    }

    /// Configuration the finished service runs with.
    pub open spec fn config(&self) -> ServiceConfig {
        service_config(self.keep_alive_spec(), self.client_timeout_spec(), self.client_disconnect_spec())
    }

    /// Sets the keep-alive setting.
    pub fn keep_alive(self, val: KeepAlive) -> (r: HttpServiceBuilder<X, U>)
        ensures
            r.keep_alive_spec() == val,
            r.client_timeout_spec() == self.client_timeout_spec(),
            r.client_disconnect_spec() == self.client_disconnect_spec(),
            r.config() == (ServiceConfig {
                keep_alive: service_config(val, 0, 0).keep_alive,
                keep_alive_enabled: service_config(val, 0, 0).keep_alive_enabled,
                ..self.config()
            }),
            r.expect_spec() == self.expect_spec(),
            r.upgrade_spec() == self.upgrade_spec(),
    {
        HttpServiceBuilder { keep_alive: val, ..self }
    }

    /// Sets the time, in milliseconds, allowed for the first request head; 0 disables it.
    pub fn client_timeout(self, val: u64) -> (r: HttpServiceBuilder<X, U>)
        ensures
            r.config() == (ServiceConfig { client_timeout: val, ..self.config() }),
            r.client_timeout_spec() == val,
            r.client_disconnect_spec() == self.client_disconnect_spec(),
            r.keep_alive_spec() == self.keep_alive_spec(),
            r.expect_spec() == self.expect_spec(),
            r.upgrade_spec() == self.upgrade_spec(),
    {
        HttpServiceBuilder { client_timeout: val, ..self }
    }

    /// Sets the time, in milliseconds, allowed for a disconnect; 0 disables it.
    pub fn client_disconnect(self, val: u64) -> (r: HttpServiceBuilder<X, U>)
        ensures
            r.config() == (ServiceConfig { client_disconnect: val, ..self.config() }),
            r.client_disconnect_spec() == val,
            r.client_timeout_spec() == self.client_timeout_spec(),
            r.keep_alive_spec() == self.keep_alive_spec(),
            r.expect_spec() == self.expect_spec(),
            r.upgrade_spec() == self.upgrade_spec(),
    {
        HttpServiceBuilder { client_disconnect: val, ..self }
    }

    /// Replaces the `Expect: 100-continue` service.
    pub fn expect<X1>(self, expect: X1) -> (r: HttpServiceBuilder<X1, U>)
        ensures
            r.config() == self.config(),
            r.keep_alive_spec() == self.keep_alive_spec(),
            r.expect_spec() == expect,
            r.upgrade_spec() == self.upgrade_spec(),
    {
        HttpServiceBuilder {
            keep_alive: self.keep_alive,
            client_timeout: self.client_timeout,
            client_disconnect: self.client_disconnect,
            expect,
            upgrade: self.upgrade,
        }
    }

    /// Sets the service that takes over upgraded connections.
    pub fn upgrade<U1>(self, upgrade: U1) -> (r: HttpServiceBuilder<X, U1>)
        ensures
            r.config() == self.config(),
            r.keep_alive_spec() == self.keep_alive_spec(),
            r.expect_spec() == self.expect_spec(),
            r.upgrade_spec() == Some(upgrade),
    {
        HttpServiceBuilder {
            keep_alive: self.keep_alive,
            client_timeout: self.client_timeout,
            client_disconnect: self.client_disconnect,
            expect: self.expect,
            upgrade: Some(upgrade),
        }
    }

    /// Finishes an HTTP/1 service.
    pub fn h1<S>(self, service: S) -> (r: HttpService<S, X, U>)
        ensures
            r.cfg == self.config(),
            r.srv == service,
            r.expect == self.expect_spec(),
            r.upgrade == self.upgrade_spec(),
            r.protocol == Protocol::Http1,
    {
        let cfg = ServiceConfig::new(self.keep_alive, self.client_timeout, self.client_disconnect);
        HttpService { cfg, srv: service, expect: self.expect, upgrade: self.upgrade, protocol: Protocol::Http1 }
    }

    /// Finishes an HTTP/2 service.
    pub fn h2<S>(self, service: S) -> (r: H2Service<S>)
        ensures
            r.config() == self.config(),
            r.service() == service,
    {
        let cfg = ServiceConfig::new(self.keep_alive, self.client_timeout, self.client_disconnect);
        H2Service::with_config(cfg, service)
    }

    /// Finishes a service that speaks whichever protocol the connection negotiates.
    pub fn finish<S>(self, service: S) -> (r: HttpService<S, X, U>)
        ensures
            r.cfg == self.config(),
            r.srv == service,
            r.expect == self.expect_spec(),
            r.upgrade == self.upgrade_spec(),
            r.protocol == Protocol::Negotiated,
    {
        let cfg = ServiceConfig::new(self.keep_alive, self.client_timeout, self.client_disconnect);
        HttpService {
            cfg,
            srv: service,
            expect: self.expect,
            upgrade: self.upgrade,
            protocol: Protocol::Negotiated,
        }
    }
}

} // verus!
