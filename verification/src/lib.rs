//! Host-side protocol core for the Acconeer XM125 radar module.
//!
//! The core never touches a bus, a pin or a clock. Every operation is a
//! state machine: it hands its host one request at a time, and the host
//! reports what came of it together with the current time.
//!
//! - `registers`, `status`: the register map and the status words, one mask
//!   table per detector application.
//! - `host`, `ops`, `runner`: requests and replies, the steps that protocol
//!   sequences are made of, and the execution of a sequence.
//! - `distance`, `presence`, `breathing`: the detectors.
//! - `radar`, `radar_laws`: the session, and what holds of every session.
//! - `gpio`, `pin_bank`: the control pins, and what their initialization
//!   does to the pins as the kernel presents them.
//! - `firmware`, `device_manager`: which firmware runs, and whether to flash.
//! - `transport`: register accesses as bus transactions.
//! - `config`, `decimal`, `text`, `cli`, `fifo`, `debug`, `report`:
//!   settings and their validation, exact decimal input, and output in
//!   words.

pub mod breathing;
pub mod cli;
pub mod config;
pub mod debug;
pub mod decimal;
pub mod device_manager;
pub mod distance;
pub mod error;
pub mod fifo;
pub mod firmware;
pub mod gpio;
pub mod host;
pub mod ops;
pub mod outcome;
pub mod pin_bank;
pub mod presence;
pub mod radar;
pub mod radar_laws;
pub mod registers;
pub mod report;
pub mod runner;
pub mod status;
pub mod text;
pub mod transport;
