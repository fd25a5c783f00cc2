//! The adapter's observable behaviour: the address a config connects to,
//! the database and credentials a minted connection carries, and the
//! validation verdicts handed to a pool.

use influxdb_r2d2::broken_from_probe;
use influxdb_r2d2::database_of;
use influxdb_r2d2::format_address;
use influxdb_r2d2::validity_from_probe;
use influxdb_r2d2::Authentication;
use influxdb_r2d2::InfluxDbConnectionManager;
use influxdb_r2d2::InfluxDbConnectionManagerError;

#[test]
fn address_of_config() {
    let m = InfluxDbConnectionManager::new("localhost", 8086, "tutorial");
    assert_eq!(m.address(), "http://localhost:8086");
}

#[test]
fn address_port_rendering() {
    assert_eq!(format_address("h", 0), "http://h:0");
    assert_eq!(format_address("h", 7), "http://h:7");
    assert_eq!(format_address("h", 10), "http://h:10");
    assert_eq!(format_address("h", 8080), "http://h:8080");
    assert_eq!(format_address("h", 65535), "http://h:65535");
    assert_eq!(format_address("", 1), "http://:1");
    assert_eq!(format_address("10.0.0.1", 30000), "http://10.0.0.1:30000");
}

#[test]
fn connect_without_authentication() {
    let m = InfluxDbConnectionManager::new("localhost", 8086, "tutorial");
    assert_eq!(m.address(), "http://localhost:8086");
    let c = m.connect_new();
    assert_eq!(database_of(&c), "tutorial");
    let shown = format!("{:?}", c);
    assert!(shown.contains("http://localhost:8086"));
    assert!(shown.contains("authentication: None"));
}

#[test]
fn connect_with_authentication() {
    let auth = Authentication::new("username", "password");
    let m = InfluxDbConnectionManager::new_with_authentication("localhost", 8086, "tutorial", auth);
    let c = m.connect_new();
    assert_eq!(database_of(&c), "tutorial");
    let shown = format!("{:?}", c);
    assert!(shown.contains("\"username\""));
    assert!(shown.contains("\"password\""));
    assert!(shown.contains("http://localhost:8086"));
}

#[test]
fn equal_configs_equal_connections() {
    let a = InfluxDbConnectionManager::new("localhost", 8086, "tutorial");
    let b = InfluxDbConnectionManager::new("localhost", 8086, "tutorial");
    assert_eq!(a.address(), b.address());
    let ca = a.connect_new();
    let cb = b.connect_new();
    assert_eq!(database_of(&ca), database_of(&cb));
}

#[test]
fn probe_outcome_decides_validity() {
    assert!(validity_from_probe(true).is_ok());
    assert!(validity_from_probe(false).is_err());
    assert_eq!(broken_from_probe(true), false);
    assert_eq!(broken_from_probe(false), true);
    assert_eq!(broken_from_probe(true), validity_from_probe(true).is_err());
    assert_eq!(broken_from_probe(false), validity_from_probe(false).is_err());
}

#[test]
fn unusable_address_fails_validation() {
    let m = InfluxDbConnectionManager::new("", 0, "tutorial");
    assert_eq!(m.address(), "http://:0");
    let mut c = m.connect_new();
    assert!(m.is_valid(&mut c).is_err());
    assert!(m.has_broken(&mut c));
    let spaced = InfluxDbConnectionManager::new("bad host", 8086, "tutorial");
    let mut cs = spaced.connect_new();
    assert!(spaced.is_valid(&mut cs).is_err());
    assert!(spaced.has_broken(&mut cs));
}

#[test]
fn unreachable_server_is_broken() {
    let m = InfluxDbConnectionManager::new("localhost", 1, "tutorial");
    let mut c = m.connect_new();
    assert!(m.is_valid(&mut c).is_err());
    assert!(m.has_broken(&mut c));
}

#[test]
fn error_message() {
    let e = InfluxDbConnectionManagerError;
    assert_eq!(e.message(), "Cannot connect or access InfluxDb");
}
