//! File and folder operations.

pub mod file_comment_reactions;
pub mod files;
pub mod folders;

pub use files::FileHandler;
pub use folders::FolderHandler;
