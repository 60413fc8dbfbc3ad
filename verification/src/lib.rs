//! The verified core of a Git LFS transfer client for Xet storage: LFS
//! endpoint and remote handling, batch-response checks, bridge-URL
//! recognition, download bounds and content verification, and the retry
//! decisions around authentication challenges.
pub mod errors;
pub mod git_url;
pub mod text;
pub mod url;
pub mod digest;
pub mod protocol;
pub mod lfs_client;
