//! Connection settings for a PostgreSQL data store.
use std::time::Duration;
use vstd::prelude::*;

verus! {

/// Controls whether and how TLS is used when connecting to the database.
#[derive(Clone, Copy, Debug, PartialEq, Eq, Structural)]
pub enum SslMode {
    /// Attempt a TLS connection first; fall back to plaintext if the server does not
    /// support TLS. Suitable for local development and environments without TLS.
    Prefer,
    /// Require a TLS connection. The connection fails if the server does not support
    /// TLS. Server certificates are not verified.
    Require,
    /// Require a TLS connection and verify that the server certificate is signed by a
    /// trusted CA.
    VerifyCa,
    /// Require a TLS connection, verify the server certificate against a trusted CA,
    /// and verify that the server hostname matches the certificate.
    VerifyFull,
}

/// The duration that `Duration::from_secs` returns for `secs` seconds.
pub uninterp spec fn duration_from_secs(secs: u64) -> Duration;

/// Calls `std::time::Duration::from_secs`. Claimed: the result is the duration of
/// `secs` whole seconds, named [`duration_from_secs`]; it never panics.
#[verifier::external_body]
fn seconds(secs: u64) -> (d: Duration)
    ensures
        d == duration_from_secs(secs),
{
    Duration::from_secs(secs)
}

/// Configuration for establishing a PostgreSQL connection pool.
///
/// Fields that are not given take the values of [`PostgresConfig::default`]: port
/// `5432`, [`SslMode::Require`], at most `5` connections and a `10` second timeout for
/// acquiring a connection.
pub struct PostgresConfig {
    /// The hostname or IP address of the PostgreSQL server.
    pub host: String,
    /// The port the PostgreSQL server is listening on.
    pub port: u16,
    /// The username to authenticate with.
    pub username: String,
    /// The password to authenticate with.
    pub password: String,
    /// The name of the database to connect to.
    pub db_name: String,
    /// The SSL mode to use for the connection.
    pub ssl_mode: SslMode,
    /// The maximum number of connections to maintain in the pool.
    pub max_connections: u32,
    /// The maximum time to wait when acquiring a connection from the pool.
    pub connection_timeout: Duration,
}

impl Default for PostgresConfig {
    /// Empty connection fields, port `5432`, TLS required, `5` connections and a
    /// `10` second acquire timeout.
    fn default() -> (c: PostgresConfig)
        ensures
            c.host@ == Seq::<char>::empty(),
            c.port == 5432,
            c.username@ == Seq::<char>::empty(),
            c.password@ == Seq::<char>::empty(),
            c.db_name@ == Seq::<char>::empty(),
            c.ssl_mode == SslMode::Require,
            c.max_connections == 5,
            c.connection_timeout == duration_from_secs(10),
    {
        PostgresConfig {
            host: String::new(),
            port: 5432,
            username: String::new(),
            password: String::new(),
            db_name: String::new(),
            ssl_mode: SslMode::Require,
            max_connections: 5,
            connection_timeout: seconds(10),
        }
    }
}

} // verus!
