//! Core of a host-resident capture agent: the state machine that turns raw
//! keyboard and pointer input into a deduplicated, rate-limited event stream,
//! the broadcast bus that fans events out to subscribers, the readers that
//! take a host snapshot out of the platform utilities' output, the telemetry
//! monitor that reports changes between snapshots, and the control surface
//! that starts and stops capture.

pub mod text;
pub mod event;
mod clock;
pub mod capture;
pub mod system_info;
pub mod inventory;
pub mod telemetry;
pub mod bus;
pub mod service;
