//! Configuration consumed by the broker layer.
//!
//! The configuration is a read-only snapshot constructed programmatically by
//! the caller; this layer reads only the default routing key from it, and
//! carries the rest for the transport and backend layers.

use vstd::prelude::*;

verus! {

/// Connection information for an AMQP broker.
#[derive(Clone, Debug)]
pub struct AMQPConnectionInf {
    pub protocol: String,
    pub host: String,
    pub port: u16,
    pub vhost: Option<String>,
    pub username: Option<String>,
    pub password: Option<String>,
    pub is_ssl: bool,
}

impl AMQPConnectionInf {
    /// Create new connection information.
    pub fn new(
        protocol: String,
        host: String,
        port: u16,
        vhost: Option<String>,
        username: Option<String>,
        password: Option<String>,
        is_ssl: bool,
    ) -> (r: AMQPConnectionInf)
        ensures
            r.protocol == protocol,
            r.host == host,
            r.port == port,
            r.vhost == vhost,
            r.username == username,
            r.password == password,
            r.is_ssl == is_ssl,
    {
        AMQPConnectionInf { protocol, host, port, vhost, username, password, is_ssl }
    }
}

/// Result-backend configuration; only its URL is part of this layer's
/// shared configuration and it is unused here.
#[derive(Clone, Debug)]
pub struct BackendConfig {
    pub url: String,
    pub username: Option<String>,
    pub password: Option<String>,
    pub transport_options: Option<Vec<(String, String)>>,
}

/// Shared configuration snapshot: connection information, result backend,
/// and the default routing key used when a publish or bind names none.
#[derive(Clone, Debug)]
pub struct CeleryConfig {
    pub connection_inf: AMQPConnectionInf,
    pub backend: BackendConfig,
    pub default_routing_key: String,
}

impl CeleryConfig {
    /// Create a configuration with the conventional default routing key.
    pub fn new(connection_inf: AMQPConnectionInf, backend: BackendConfig) -> (r: CeleryConfig)
        ensures
            r.connection_inf == connection_inf,
            r.backend == backend,
            r.default_routing_key@ == "celery"@,
    {
        CeleryConfig { connection_inf, backend, default_routing_key: "celery".to_owned() }
    }
}

} // verus!
