//! Schemas of the ads API, version 1: single-marketplace and global
//! sponsored products.

pub mod sp_enums;
pub mod sp_ads;
pub mod sp_targets;
pub mod sp_global_enums;
pub mod sp_global_ads;
pub mod sp_global_targets;
