//! What clients can ask of the service.

pub mod nowplaying;
