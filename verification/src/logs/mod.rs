//! Logs.

pub mod exavault_api_request_logs;
