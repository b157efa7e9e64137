//! Control core of a stepper-driven syringe pump, together with the media
//! library bookkeeping of the appliance that hosts it.
//!
//! Every item here is verified; the device shell (GPIO lines, timers, HTTP,
//! configuration files) drives these functions from outside.
pub mod models;
pub mod timing;
pub mod state;
pub mod bolus;
pub mod machine;
pub mod runs;
pub mod wait;
pub mod upload;
