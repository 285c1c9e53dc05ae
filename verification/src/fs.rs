//! What the file system sees of a transfer: metadata and the staging area.

pub mod metadata;
pub mod save;
