//! Core logic of an occupancy sensor node: the device orchestration loop,
//! broker event handling, deduplicated state reporting, discovery
//! registration, command dispatch and the connectivity recovery policy.
//!
//! Everything here is plain computation on plain values; the hardware and
//! network edges (UART sensor link, wireless driver, broker transport) live
//! in the accompanying application crate and exchange plain values with this
//! library.

pub mod command;
pub mod config;
pub mod connectivity;
pub mod events;
pub mod orchestrator;
pub mod report;
pub mod sensors;
pub mod text;
