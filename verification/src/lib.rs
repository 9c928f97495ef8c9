//! Decision logic of a vehicle fleet monitor: the lifecycle of the bearer
//! credential, the telemetry stream and its frames, the polling of
//! snapshots, the format of the append-only local log, the layout of the
//! remote day buckets and the supervision of the fleet.
//!
//! The library decides and computes; sockets, files, clocks and timers
//! live with the caller, who hands in what happened and carries out what
//! comes back. Everything here is verified but for three calls into other
//! crates: `byteorder` writes and reads the length prefix of the local log,
//! and `chrono` names the calendar day of a timestamp. What is taken on
//! trust of each is written above it, in `db::local_cache` and `db::pika`.
pub mod api;
pub mod charging;
pub mod config;
pub mod db;
pub mod error;
pub mod fleet;
pub mod history;
pub mod numeral;
pub mod records;
pub mod stream;
pub mod telemetry;
pub mod text;
pub mod token;
pub mod vehicle_monitor;
