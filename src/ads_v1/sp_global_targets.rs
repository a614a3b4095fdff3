//! Global targets: reported details, per-marketplace overrides, and the
//! marketplace and currency that a bid for a country is placed in.

use vstd::prelude::*;
use vstd::string::*;
use crate::ads_v1::sp_global_ads::SPGlobalCreateTag;
use crate::ads_v1::sp_global_ads::SPGlobalTag;
use crate::ads_v1::sp_global_enums::{
    currency_of, global_marketplace_of, SPGlobalCurrencyCode, SPGlobalKeywordMatchType,
    SPGlobalMarketplace, SPGlobalState, SPGlobalTargetType, SPGlobalThemeMatchType,
};
use crate::text::{trimmed_of, upper_of};

verus! {

pub struct SPGlobalMarketplaceTargetConfigurations {
    pub marketplace: SPGlobalMarketplace,
    pub overrides: SPGlobalMarketplaceTargetFieldOverrides,
    pub target_id: String,
}

pub struct SPGlobalMarketplaceTargetFieldOverrides {
    pub state: Option<SPGlobalState>,
    pub tags: Option<Vec<SPGlobalTag>>,
    pub target_details: Option<SPGlobalTargetDetail>,
}

pub enum SPGlobalTargetDetail {
    KeywordTarget(SPGlobalKeywordTarget),
    ThemeTarget(SPGlobalThemeTarget),
}

pub struct SPGlobalKeywordTarget {
    pub keyword: String,
    pub match_type: SPGlobalKeywordMatchType,
    pub native_language_keyword: Option<String>,
    pub native_language_locale: Option<String>,
}

pub struct SPGlobalThemeTarget {
    pub match_type: SPGlobalThemeMatchType,
}

pub struct SPGlobalCreateMarketplaceTargetConfigurations {
    pub marketplace: SPGlobalMarketplace,
    pub overrides: SPGlobalCreateMarketplaceTargetFieldOverrides,
}

pub struct SPGlobalCreateMarketplaceTargetFieldOverrides {
    pub state: Option<SPGlobalState>,
    pub tags: Option<Vec<SPGlobalCreateTag>>,
    pub target_details: Option<SPGlobalCreateTargetDetail>,
}

pub enum SPGlobalCreateTargetDetail {
    KeywordTarget(SPGlobalCreateKeywordTarget),
    ThemeTarget(SPGlobalCreateThemeTarget),
}

pub struct SPGlobalCreateKeywordTarget {
    pub keyword: String,
    pub match_type: SPGlobalKeywordMatchType,
    pub native_language_keyword: Option<String>,
    pub native_language_locale: Option<String>,
}

pub struct SPGlobalCreateThemeTarget {
    pub match_type: SPGlobalThemeMatchType,
}

/// Where a bid given for a country is placed: the currency of the country
/// (white space around the code and letter case ignored) and its
/// marketplace (the code as written); `None` unless both are known.
pub open spec fn bid_placement_of(code: Seq<char>) -> Option<(SPGlobalCurrencyCode, SPGlobalMarketplace)> {
    match (currency_of(upper_of(trimmed_of(code))), global_marketplace_of(code)) {
        (Some(c), Some(m)) => Some((c, m)),
        _ => None,
    }
}

/// The currency and marketplace of a bid for the country `country_code`.
pub fn bid_placement(country_code: &str) -> (r: Option<(SPGlobalCurrencyCode, SPGlobalMarketplace)>)
    ensures
        r == bid_placement_of(country_code@),
{
    match (SPGlobalCurrencyCode::from_country_code(country_code), SPGlobalMarketplace::from_code(country_code)) {
        (Some(c), Some(m)) => Some((c, m)),
        _ => None,
    }
}

/// The filter of a listing of global targets.
pub struct ListGlobalTargetsFilter {
    pub ad_group_id_filter: Option<Vec<String>>,
    pub ad_product_filter: Vec<String>,
    pub campaign_id_filter: Option<Vec<String>>,
    pub marketplace_scope_filter: Vec<String>,
    pub target_id_filter: Option<Vec<String>>,
    pub target_type_filter: Option<Vec<SPGlobalTargetType>>,
}

impl ListGlobalTargetsFilter {
    /// Sponsored products of global scope, with no other filter.
    pub fn new() -> (r: ListGlobalTargetsFilter)
        ensures
            r.ad_group_id_filter is None,
            r.ad_product_filter@.len() == 1,
            r.ad_product_filter@[0]@ == "SPONSORED_PRODUCTS"@,
            r.campaign_id_filter is None,
            r.marketplace_scope_filter@.len() == 1,
            r.marketplace_scope_filter@[0]@ == "GLOBAL"@,
            r.target_id_filter is None,
            r.target_type_filter is None,
    {
        let mut products: Vec<String> = Vec::new();
        products.push(String::from_str("SPONSORED_PRODUCTS"));
        let mut scopes: Vec<String> = Vec::new();
        scopes.push(String::from_str("GLOBAL"));
        ListGlobalTargetsFilter {
            ad_group_id_filter: None,
            ad_product_filter: products,
            campaign_id_filter: None,
            marketplace_scope_filter: scopes,
            target_id_filter: None,
            target_type_filter: None,
        }
    }
}

} // verus!
