//! Messages and notifications.

pub mod messages;
pub mod notifications;

pub use messages::MessageHandler;
pub use notifications::NotificationHandler;
