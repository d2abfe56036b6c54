//! Security settings.

pub mod ip_addresses;
