//! Control-plane logic for a small machine orchestrator: node lifecycle,
//! machine placement and reporting, and the text the services answer with.

pub mod client;
pub mod cluster;
pub mod ids;
pub mod launcher;
pub mod laws;
pub mod model;
pub mod random;
pub mod responses;
pub mod rules;
pub mod settings;
pub mod sorting;
pub mod tables;
pub mod text;
pub mod worker;
