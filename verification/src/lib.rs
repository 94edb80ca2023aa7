//! Typed NEXMark events for a host language: the three records, the event
//! union over them, their JSON and mapping projections, and a pull adapter
//! over the event generator.

pub mod auction;
pub mod bid;
pub mod error;
pub mod event;
pub mod generator;
pub mod json;
pub mod mapping;
pub mod person;
pub mod source;
pub mod text;
