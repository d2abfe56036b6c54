//! Client library for the Files.com REST API.

pub mod client;
pub mod error;
pub mod external;
pub mod request;
pub mod retry;
pub mod text;
pub mod types;
pub mod utils;

pub mod action_notification_export_results;
pub mod action_notification_exports;
pub mod admin;
pub mod advanced;
pub mod api_key;
pub mod api_keys;
pub mod as2;
pub mod as2_outgoing_messages;
pub mod automation;
pub mod bandwidth_snapshots;
pub mod bundle_downloads;
pub mod bundle_registrations;
pub mod developers;
pub mod email_incoming_messages;
pub mod file_actions;
pub mod file_comments;
pub mod file_migrations;
pub mod files;
pub mod groups;
pub mod inbox_registrations;
pub mod inbox_uploads;
pub mod interceptors;
pub mod logs;
pub mod message_comment_reactions;
pub mod messages;
pub mod payments;
pub mod progress;
pub mod public_hosting_request_logs;
pub mod remote_bandwidth_snapshots;
pub mod security;
pub mod sftp_host_keys;

pub use client::{FilesClient, FilesClientBuilder};
pub use error::{FilesError, Result};
pub use types::{FileEntity, FileUploadPartEntity, FolderEntity, PaginationInfo};

pub use admin::{
    DnsRecordHandler, HistoryExportHandler2, HistoryExportResultHandler2, HistoryHandler,
    InvoiceHandler, SiteHandler, StyleHandler,
};
pub use api_key::ApiKeyCurrentHandler;
pub use api_keys::ApiKeyHandler;
pub use automation::{AutomationHandler, BehaviorHandler, RemoteServerHandler};
pub use file_actions::FileActionHandler;
pub use file_comments::FileCommentHandler;
pub use files::{FileHandler, FolderHandler};
pub use groups::GroupHandler;
pub use inbox_uploads::InboxUploadHandler;
pub use messages::{MessageHandler, NotificationHandler};
pub use payments::PaymentHandler;
pub use sftp_host_keys::SftpHostKeyHandler;
