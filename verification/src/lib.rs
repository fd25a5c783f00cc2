//! A connection-manager adapter for a time-series database: it holds the
//! configuration needed to open a connection (host, port, database name,
//! optional credentials), mints new client handles on demand, and validates
//! existing ones with a liveness probe, in the three-operation shape that a
//! generic connection pool expects of a pluggable manager.

pub mod address;
pub mod client;
pub mod manager;

pub use address::format_address;
pub use address::spec_address;
pub use address::spec_decimal;
pub use address::spec_digit;
pub use client::spec_ping_url_ok;
pub use manager::broken_from_probe;
pub use manager::conn_auth;
pub use manager::conn_db;
pub use manager::conn_host;
pub use manager::database_of;
pub use manager::validity_from_probe;
pub use manager::Authentication;
pub use manager::Connection;
pub use manager::InfluxDbConnectionManager;
pub use manager::InfluxDbConnectionManagerError;
