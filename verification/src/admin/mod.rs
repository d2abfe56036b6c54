//! Site administration, history and billing.

pub mod dns_records;
pub mod history;
pub mod history_export_results;
pub mod history_exports;
pub mod invoices;
pub mod site;
pub mod styles;

pub use dns_records::DnsRecordHandler;
pub use history::HistoryHandler;
pub use history_export_results::HistoryExportResultHandler2;
pub use history_exports::HistoryExportHandler2;
pub use invoices::InvoiceHandler;
pub use site::SiteHandler;
pub use styles::StyleHandler;
