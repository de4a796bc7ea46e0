//! Resolves a free-text place name to candidate locations, retrieves the
//! multi-day weather forecast for each, and renders a one-line summary per
//! location. The pipeline is split into location resolution, batch weather
//! retrieval with fail-fast error semantics, and report rendering; the HTTP
//! transport and JSON wire decoding are external collaborators driven by the
//! surrounding application.

pub mod data;
pub mod decimal;
pub mod pipeline;
pub mod report;
pub mod urls;
