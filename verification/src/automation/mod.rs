//! Automations, behaviors and remote servers.

pub mod automations;
pub mod behaviors;
pub mod remote_servers;

pub use automations::AutomationHandler;
pub use behaviors::BehaviorHandler;
pub use remote_servers::RemoteServerHandler;
