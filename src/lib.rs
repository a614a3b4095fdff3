//! Typed client core for a multi-region advertising REST API: region
//! resolution, an OAuth2 token cache with single-flight refresh, the
//! authorization stage that every outbound request passes, and the
//! request/response framing of the JSON `post` primitive; beside them, the
//! request and response schemas of sponsored-product ads and targets, with
//! the builders that fill them.

pub mod assoc;
pub mod text;
pub mod region;
pub mod headers;
pub mod token;
pub mod middleware;
pub mod client;
pub mod cache;
pub mod ads_v1;
pub mod sp_product_ads;
