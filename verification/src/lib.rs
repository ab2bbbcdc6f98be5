//! Verified core of the OSTree commit-signing utilities: ED25519 public-key
//! extraction from KMS responses, the detached-metadata signature list, and
//! the `.pub` key file, and the decisions of the `sign` command.
pub mod text;
pub mod encoding;
pub mod keys;
pub mod metadata;
pub mod sign;
pub mod command;
