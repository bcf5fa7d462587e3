//! Lifecycle engine of a desktop notification daemon: identifier
//! allocation and replacement, expiry, rule overrides, Do-Not-Disturb
//! holding back, bounded history, and the control protocol that drives them.

pub mod bus;
pub mod compositor;
pub mod config;
pub mod dnd;
pub mod events;
pub mod history;
pub mod ipc;
pub mod laws;
pub mod layout;
pub mod manager;
pub mod media;
pub mod model;
pub mod notification;
pub mod ordering;
pub mod queue;
pub mod rules;
pub mod signals;
pub mod text;
pub mod urgency;

pub use crate::config::Config;
pub use crate::manager::NotificationManager;
pub use crate::notification::Notification;
pub use crate::urgency::Urgency;
