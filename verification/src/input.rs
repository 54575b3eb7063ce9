//! Pointer input: device configuration, device events and the pipeline that
//! turns raw events into compositor-ready amounts.

pub mod config;
pub mod event;
pub mod pointer;
