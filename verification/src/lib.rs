//! Driver core for the monochrome LCD panels of SteelSeries peripherals.
//!
//! The crate holds the panel geometry table, the bit-packed framebuffer of
//! each panel and the GameSense session that turns framebuffers into the
//! requests of the local JSON/HTTP control protocol. It sends nothing: a
//! session hands out the requests, and its caller posts them.
//!
//! The code is verified with Verus against the contracts it states. The
//! JSON objects are those of `serde_json`; what the calls into it do is
//! stated in [`json`] and taken on trust.

pub mod api;
pub mod display;
pub mod json;
pub mod protocol;

pub use crate::api::GameSenseAPI;
pub use crate::display::{SteelSeriesDisplay, SteelSeriesLCDType};
