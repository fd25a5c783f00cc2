//! Integration with a generic connection pool: the adapter's three
//! operations (create, validate, has-broken) plugged into r2d2. Building
//! the pool performs no I/O through the adapter, so it succeeds even with
//! no reachable server.

use influxdb_r2d2::Authentication;
use influxdb_r2d2::InfluxDbConnectionManager;
use std::time::Duration;

#[derive(Debug)]
struct PoolError;

impl std::fmt::Display for PoolError {
    fn fmt(&self, f: &mut std::fmt::Formatter) -> std::fmt::Result {
        f.write_str("Cannot connect or access InfluxDb")
    }
}

impl std::error::Error for PoolError {}

struct PoolManager(InfluxDbConnectionManager);

impl r2d2::ManageConnection for PoolManager {
    type Connection = influxdb_r2d2::Connection;
    type Error = PoolError;

    fn connect(&self) -> Result<Self::Connection, Self::Error> {
        self.0.connect().map_err(|_| PoolError)
    }

    fn is_valid(&self, conn: &mut Self::Connection) -> Result<(), Self::Error> {
        self.0.is_valid(conn).map_err(|_| PoolError)
    }

    fn has_broken(&self, conn: &mut Self::Connection) -> bool {
        self.0.has_broken(conn)
    }
}

fn make_pool(connection_manager: InfluxDbConnectionManager) -> r2d2::Pool<PoolManager> {
    return r2d2::Pool::builder()
        .connection_timeout(Duration::from_secs(1))
        .test_on_check_out(true)
        .max_size(15)
        .build(PoolManager(connection_manager))
        .expect("Pool");
}

#[test]
fn pool_without_authentication() {
    let con_mgr = InfluxDbConnectionManager::new("localhost", 8086, "tutorial");
    let _pool = make_pool(con_mgr);
}

#[test]
fn pool_with_authentication() {
    let auth = Authentication::new("username", "password");
    let con_mgr =
        InfluxDbConnectionManager::new_with_authentication("localhost", 8086, "tutorial", auth);
    let _pool = make_pool(con_mgr);
}
