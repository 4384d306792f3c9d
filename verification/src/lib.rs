//! High level helpers to create graphs based on Vega-Lite.

pub mod backoff;
pub mod chart;
pub mod error;
pub mod extract;
pub mod launcher;
pub mod native;
pub mod pipeline;
pub mod session;
pub mod text;
pub mod trace;
