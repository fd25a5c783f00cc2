//! Trusted bindings to the database client library. The client handle is
//! opaque here; three names stand for what a handle was configured with (its
//! target address, its database name, its credentials), and each binding's
//! contract states, over those names, what the client library's source shows.

use vstd::prelude::*;

verus! {

#[verifier::external_type_specification]
#[verifier::external_body]
pub struct ExClient(influx_db_client::Client);

/// The address string a client handle was built against.
pub uninterp spec fn client_host(c: influx_db_client::Client) -> Seq<char>;

/// The database name a client handle was built against.
pub uninterp spec fn client_db(c: influx_db_client::Client) -> Seq<char>;

/// The credentials, username and password, applied to a client handle,
/// if any were.
pub uninterp spec fn client_auth(c: influx_db_client::Client) -> Option<
    (Seq<char>, Seq<char>),
>;

/// Relies on influx_db_client::Client::new: it stores the given address and
/// database name verbatim and starts with no credentials; it performs no
/// network traffic.
#[verifier::external_body]
pub(crate) fn new_client(addr: String, db: String) -> (c: influx_db_client::Client)
    ensures
        client_host(c) == addr@,
        client_db(c) == db@,
        client_auth(c) is None,
{
    influx_db_client::Client::new(addr, db)
}

/// Relies on influx_db_client::Client::set_authentication: it stores the
/// given username and password and leaves the address and database name as
/// they were.
#[verifier::external_body]
pub(crate) fn with_credentials(
    c: influx_db_client::Client,
    username: &String,
    password: &String,
) -> (r: influx_db_client::Client)
    ensures
        client_host(r) == client_host(c),
        client_db(r) == client_db(c),
        client_auth(r) == Some((username@, password@)),
{
    c.set_authentication(username, password)
}

/// Relies on influx_db_client::Client::get_db: it returns a copy of the
/// stored database name.
#[verifier::external_body]
pub(crate) fn client_database(c: &influx_db_client::Client) -> (r: String)
    ensures
        r@ == client_db(*c),
{
    c.get_db()
}

/// Whether the client library can build its ping URL from this address
/// string: the address parses as a URL and the "ping" endpoint joins onto
/// it. A function of the string alone.
pub uninterp spec fn spec_ping_url_ok(s: Seq<char>) -> bool;

/// Relies on url::Url::parse and url::Url::join, the same calls, in the same
/// crate version, that influx_db_client::Client::build_url unwraps: the
/// outcome depends on the string alone, and no error here means no panic
/// there. (build_url's later re-parse of the joined URL's own serialization
/// with appended query pairs cannot fail once these two have succeeded.)
#[verifier::external_body]
pub(crate) fn ping_url_ok(s: &str) -> (r: bool)
    ensures
        r == spec_ping_url_ok(s@),
{
    match url::Url::parse(s) {
        Ok(u) => u.join("ping").is_ok(),
        Err(_) => false,
    }
}

/// Relies on influx_db_client::Client::ping: a blocking network round trip
/// whose outcome depends on the server, so nothing is promised of the
/// result. ping panics, instead of returning, when its URL cannot be built
/// from the stored address, so that input is excluded here; it only reads
/// the client, so the client is left as it was.
#[verifier::external_body]
pub(crate) fn client_ping(c: &influx_db_client::Client) -> (alive: bool)
    requires
        spec_ping_url_ok(client_host(*c)),
{
    c.ping()
}

} // verus!
