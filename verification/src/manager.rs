//! The connection manager: an immutable record of host, port, database name
//! and optional credentials, minting client handles on demand and validating
//! existing ones, in the three-operation shape (create, validate, has-broken)
//! that a generic connection pool expects.

use crate::address::format_address;
use crate::address::spec_address;
use crate::client::client_auth;
use crate::client::client_database;
use crate::client::client_db;
use crate::client::client_host;
use crate::client::client_ping;
use crate::client::new_client;
use crate::client::ping_url_ok;
use crate::client::spec_ping_url_ok;
use crate::client::with_credentials;
use vstd::prelude::*;
use vstd::string::StringExecFns;

verus! {

/// What an [`Authentication`] value holds: a username and a password.
pub ghost struct AuthenticationView {
    pub username: Seq<char>,
    pub password: Seq<char>,
}

/// Authentication properties for connecting to the database: an immutable
/// username and password pair.
#[derive(Debug)]
pub struct Authentication {
    username: String,
    password: String,
}

impl View for Authentication {
    type V = AuthenticationView;

    closed spec fn view(&self) -> AuthenticationView {
        AuthenticationView { username: self.username@, password: self.password@ }
    }
}

impl Authentication {
    /// Builds the pair from the given username and password, kept verbatim.
    pub fn new(username: &str, password: &str) -> (a: Authentication)
        ensures
            a@.username == username@,
            a@.password == password@,
    {
        Authentication { username: username.to_owned(), password: password.to_owned() }
    }
}

/// What an [`InfluxDbConnectionManager`] holds: the configuration every
/// connection it mints is opened with.
pub ghost struct ManagerView {
    pub host: Seq<char>,
    pub port: u16,
    pub db_name: Seq<char>,
    pub credentials: Option<AuthenticationView>,
}

/// Encapsulates the database connection properties. Immutable once built:
/// every connection minted from it targets the same address and database.
pub struct InfluxDbConnectionManager {
    host: String,
    port: u16,
    db_name: String,
    authentication: Option<Authentication>,
}

impl View for InfluxDbConnectionManager {
    type V = ManagerView;

    closed spec fn view(&self) -> ManagerView {
        ManagerView {
            host: self.host@,
            port: self.port,
            db_name: self.db_name@,
            credentials: match self.authentication {
                Some(a) => Some(a@),
                None => None,
            },
        }
    }
}

/// The error returned when a connection cannot be opened or validated.
/// A single kind: every failure mode collapses to this one signal.
#[derive(Debug, PartialEq, Eq, Structural)]
pub struct InfluxDbConnectionManagerError;

impl InfluxDbConnectionManagerError {
    /// A human-readable description of the error.
    pub fn message(&self) -> (r: String)
        ensures
            r@ == "Cannot connect or access InfluxDb"@,
    {
        String::from_str("Cannot connect or access InfluxDb")
    }
}

/// A connection minted by a manager: the client handle, together with the
/// fact, checked once at mint time, of whether the client library can build
/// its ping URL from the stored address. The flag lets validation surface an
/// unusable address as the ordinary error instead of reaching the client
/// library's panic.
#[derive(Debug)]
pub struct Connection {
    client: influx_db_client::Client,
    pingable: bool,
}

impl Connection {
    #[verifier::type_invariant]
    spec fn wf(self) -> bool {
        self.pingable == spec_ping_url_ok(client_host(self.client))
    }
}

/// The address string the connection's client handle was built against.
pub closed spec fn conn_host(c: Connection) -> Seq<char> {
    client_host(c.client)
}

/// The database name the connection's client handle was built against.
pub closed spec fn conn_db(c: Connection) -> Seq<char> {
    client_db(c.client)
}

/// The credentials applied to the connection's client handle, if any were.
pub closed spec fn conn_auth(c: Connection) -> Option<(Seq<char>, Seq<char>)> {
    client_auth(c.client)
}

/// The credentials a connection minted from a config with credentials
/// `credentials` carries: the exact username and password pair when one is
/// present, and none when none was given.
pub open spec fn spec_client_credentials(credentials: Option<AuthenticationView>) -> Option<
    (Seq<char>, Seq<char>),
> {
    match credentials {
        Some(a) => Some((a.username, a.password)),
        None => None,
    }
}

/// Holds exactly when `c` is a connection as minted from a config `m`:
/// bound to the address `http://{host}:{port}`, to `m`'s database name, and
/// carrying `m`'s credentials, if any.
pub open spec fn produces(m: ManagerView, c: Connection) -> bool {
    &&& conn_host(c) == spec_address(m.host, m.port)
    &&& conn_db(c) == m.db_name
    &&& conn_auth(c) == spec_client_credentials(m.credentials)
}

/// The validation verdict for a probe outcome: success exactly when the
/// probe reported the connection alive.
pub open spec fn spec_validity(alive: bool) -> Result<(), InfluxDbConnectionManagerError> {
    if alive {
        Ok(())
    } else {
        Err(InfluxDbConnectionManagerError)
    }
}

/// The eviction verdict for a probe outcome: broken exactly when validation
/// of that outcome fails.
pub open spec fn spec_broken(alive: bool) -> bool {
    spec_validity(alive) is Err
}

/// Turns a liveness-probe outcome into the validation result handed to the
/// pool.
pub fn validity_from_probe(alive: bool) -> (r: Result<(), InfluxDbConnectionManagerError>)
    ensures
        r == spec_validity(alive),
        r is Ok <==> alive,
{
    if alive {
        Ok(())
    } else {
        Err(InfluxDbConnectionManagerError)
    }
}

/// Turns a liveness-probe outcome into the eviction verdict handed to the
/// pool.
pub fn broken_from_probe(alive: bool) -> (r: bool)
    ensures
        r == spec_broken(alive),
        r <==> !alive,
{
    validity_from_probe(alive).is_err()
}

impl InfluxDbConnectionManager {
    /// Creates a connection manager with just hostname, port and database
    /// name, and no credentials. Nothing is validated: empty strings and
    /// port 0 are accepted, and failures surface only when a connection is
    /// used.
    pub fn new(host: &str, port: u16, db_name: &str) -> (m: InfluxDbConnectionManager)
        ensures
            m@.host == host@,
            m@.port == port,
            m@.db_name == db_name@,
            m@.credentials is None,
    {
        InfluxDbConnectionManager {
            host: host.to_owned(),
            port,
            db_name: db_name.to_owned(),
            authentication: None,
        }
    }

    /// Creates a connection manager with username and password
    /// authentication attached.
    pub fn new_with_authentication(
        host: &str,
        port: u16,
        db_name: &str,
        auth: Authentication,
    ) -> (m: InfluxDbConnectionManager)
        ensures
            m@.host == host@,
            m@.port == port,
            m@.db_name == db_name@,
            m@.credentials == Some(auth@),
    {
        InfluxDbConnectionManager {
            host: host.to_owned(),
            port,
            db_name: db_name.to_owned(),
            authentication: Some(auth),
        }
    }

    /// The address every connection minted from this config targets:
    /// `http://{host}:{port}`, concatenated verbatim.
    pub fn address(&self) -> (r: String)
        ensures
            r@ == spec_address(self@.host, self@.port),
    {
        format_address(self.host.as_str(), self.port)
    }

    /// Mints a new connection bound to this config's address and database
    /// name, carrying its credentials if any. Performs no network traffic
    /// itself, so it never fails locally; a network-level failure surfaces
    /// only on first use or during validation.
    pub fn connect_new(&self) -> (c: Connection)
        ensures
            produces(self@, c),
    {
        let addr = self.address();
        let pingable = ping_url_ok(addr.as_str());
        let client = new_client(addr, self.db_name.clone());
        let client = match &self.authentication {
            Some(auth) => with_credentials(client, &auth.username, &auth.password),
            None => client,
        };
        Connection { client, pingable }
    }

    /// Wraps [`Self::connect_new`] in the result shape the pool expects;
    /// always succeeds, since minting a connection performs no I/O.
    pub fn connect(&self) -> (r: Result<Connection, InfluxDbConnectionManagerError>)
        ensures
            r is Ok,
            produces(self@, r->Ok_0),
    {
        Ok(self.connect_new())
    }

    /// Issues a liveness probe against the connection: success exactly when
    /// the probe reported it alive. A blocking network round trip; the
    /// outcome depends on the server, so beyond the connection's
    /// preservation only this is promised: an address the client library
    /// cannot build its ping URL from is never probed and fails validation
    /// outright, as the ordinary error.
    pub fn is_valid(&self, conn: &mut Connection) -> (r: Result<
        (),
        InfluxDbConnectionManagerError,
    >)
        ensures
            *final(conn) == *old(conn),
            r is Ok ==> spec_ping_url_ok(conn_host(*old(conn))),
    {
        proof {
            use_type_invariant(&*conn);
        }
        if conn.pingable {
            let alive = client_ping(&conn.client);
            validity_from_probe(alive)
        } else {
            Err(InfluxDbConnectionManagerError)
        }
    }

    /// Reports whether the connection should be evicted: true exactly when
    /// validating it fails.
    pub fn has_broken(&self, conn: &mut Connection) -> (r: bool)
        ensures
            *final(conn) == *old(conn),
            !spec_ping_url_ok(conn_host(*old(conn))) ==> r,
    {
        self.is_valid(conn).is_err()
    }
}

/// The database name the given connection was minted with.
pub fn database_of(c: &Connection) -> (r: String)
    ensures
        r@ == conn_db(*c),
{
    client_database(&c.client)
}

/// A connection is reported broken exactly when validating it fails: for
/// every outcome of the liveness probe, the eviction verdict holds if and
/// only if the validation verdict for the same outcome is an error, and
/// validation succeeds exactly on an alive probe.
pub proof fn lemma_has_broken_iff_is_valid_err(alive: bool)
    ensures
        spec_broken(alive) <==> spec_validity(alive) is Err,
        spec_validity(alive) is Ok <==> alive,
        spec_broken(alive) <==> !alive,
{
}

/// Two configs built with identical parameters are interchangeable: any two
/// connections minted from them agree in target address, database name and
/// credentials.
pub proof fn lemma_equal_configs_indistinguishable(
    m1: ManagerView,
    m2: ManagerView,
    c1: Connection,
    c2: Connection,
)
    requires
        m1 == m2,
        produces(m1, c1),
        produces(m2, c2),
    ensures
        conn_host(c1) == conn_host(c2),
        conn_db(c1) == conn_db(c2),
        conn_auth(c1) == conn_auth(c2),
{
}

} // verus!
