//! The service's rules: passwords and notifications.

pub mod auth;
pub mod notifications;
pub mod playback_notifications;
