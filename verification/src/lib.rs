//! Verified helpers around SPL Token and Token-2022 account data: typed views
//! over token accounts and mints, the Token-2022 TLV extension scanner, the
//! byte layouts written when token accounts and mints are staged in a test
//! validator, and the bookkeeping behind the extension builders.

pub mod error;
pub mod layout;
pub mod extension;
pub mod account;
pub mod pack;
pub mod staging;
pub mod extension_set;
pub mod extension_rules;
pub mod builder;
pub mod kamino;
