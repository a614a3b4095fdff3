//! Single-marketplace sponsored-product ads: what the API reports, what a
//! create request holds, and the builder that fills the advertised product.

use vstd::prelude::*;
use vstd::string::*;
use crate::ads_v1::sp_enums::{
    SPAdStateFilter, SPCreateState, SPDeliveryReason, SPDeliveryStatus, SPMarketplace,
    SPProductIdType,
};

verus! {

// Reported ads.

pub struct SPCreative {
    pub product_creative: SPProductCreative,
}

pub struct SPProductCreative {
    pub product_creative_settings: SPProductCreativeSettings,
}

pub struct SPProductCreativeSettings {
    pub advertised_product: SPAdvertisedProducts,
    pub headline: Option<String>,
    pub spotlight_vides: Option<SPSpotlightVideoSettings>,
}

pub struct SPAdvertisedProducts {
    pub global_store_setting: Option<SPGlobalStoreSettings>,
    pub product_id: String,
    pub product_id_type: SPProductIdType,
    pub resolved_product_id: Option<String>,
    pub resolved_product_id_type: Option<SPProductIdType>,
}

pub struct SPGlobalStoreSettings {
    pub catalog_source_marketplace: Option<SPMarketplace>,
    pub product_id: String,
    pub product_id_type: SPProductIdType,
    pub resolved_product_id: Option<String>,
    pub resolved_product_id_type: Option<SPProductIdType>,
}

pub struct SPSpotlightVideoSettings {
    pub optimize_text: bool,
    pub videos: Vec<SPVideo>,
}

pub struct SPVideo {
    pub asset_id: String,
    pub asset_version: String,
    pub description: Option<String>,
    pub headline: Option<String>,
}

pub struct SPStatus {
    pub delivery_reason: Option<Vec<SPDeliveryReason>>,
    pub delivery_status: SPDeliveryStatus,
}

pub struct SPTag {
    pub key: String,
    pub value: String,
}

// Create requests.

pub struct SPCreateCreative {
    pub product_creative: SPCreateProductCreative,
}

pub struct SPCreateProductCreative {
    pub product_creative_settings: SPCreateProductCreativeSettings,
}

pub struct SPCreateProductCreativeSettings {
    pub advertised_product: SPCreateAdvertisedProducts,
    pub headline: Option<String>,
    pub spotlight_vides: Option<SPCreateSpotlightVideoSettings>,
}

pub struct SPCreateAdvertisedProducts {
    pub global_store_setting: Option<SPCreateGlobalStoreSettings>,
    pub product_id: String,
    pub product_id_type: SPProductIdType,
}

pub struct SPCreateGlobalStoreSettings {
    pub catalog_source_marketplace: Option<SPMarketplace>,
    pub product_id: String,
    pub product_id_type: SPProductIdType,
    pub resolved_product_id: Option<String>,
    pub resolved_product_id_type: Option<SPProductIdType>,
}

pub struct SPCreateSpotlightVideoSettings {
    pub optimize_text: bool,
    pub videos: Vec<SPCreateVideo>,
}

pub struct SPCreateVideo {
    pub asset_id: String,
    pub asset_version: String,
    pub description: Option<String>,
    pub headline: Option<String>,
}

pub struct SPCreateTag {
    pub key: String,
    pub value: String,
}

/// One ad to create.
pub struct SPAdCreate {
    pub ad_group_id: String,
    pub creative: SPCreateCreative,
    pub ad_product: String,
    pub ad_type: String,
    pub state: SPCreateState,
    pub tags: Option<Vec<SPCreateTag>>,
}

/// Builds an `SPAdCreate`; started by `SPAdCreate::builder`.
pub struct SPAdCreateBuilder {
    pub ad_group_id: String,
    pub creative: SPCreateCreative,
    pub ad_product: String,
    pub ad_type: String,
    pub state: SPCreateState,
    pub tags: Option<Vec<SPCreateTag>>,
}

/// `c` advertises exactly the product `id` of kind `kind`, with no headline,
/// video or global store setting.
pub open spec fn advertises(c: SPCreateCreative, id: Seq<char>, kind: SPProductIdType) -> bool {
    let s = c.product_creative.product_creative_settings;
    &&& s.advertised_product.global_store_setting is None
    &&& s.advertised_product.product_id@ == id
    &&& s.advertised_product.product_id_type == kind
    &&& s.headline is None
    &&& s.spotlight_vides is None
}

/// `a` is the ad that a fresh builder for `group` gives for product `id`.
pub open spec fn ad_for(a: SPAdCreate, group: Seq<char>, id: Seq<char>, kind: SPProductIdType) -> bool {
    &&& a.ad_group_id@ == group
    &&& advertises(a.creative, id, kind)
    &&& a.ad_product@ == "SPONSORED_PRODUCTS"@
    &&& a.ad_type@ == "PRODUCT_AD"@
    &&& a.state == SPCreateState::Enabled
    &&& a.tags is None
}

fn product_creative(id: &str, kind: SPProductIdType) -> (r: SPCreateCreative)
    ensures
        advertises(r, id@, kind),
{
    SPCreateCreative {
        product_creative: SPCreateProductCreative {
            product_creative_settings: SPCreateProductCreativeSettings {
                advertised_product: SPCreateAdvertisedProducts {
                    global_store_setting: None,
                    product_id: String::from_str(id),
                    product_id_type: kind,
                },
                headline: None,
                spotlight_vides: None,
            },
        },
    }
}

impl SPAdCreate {
    /// Starts an ad for an ad group: a sponsored product ad, created
    /// enabled, without tags, whose product is still empty.
    pub fn builder(ad_group_id: &str) -> (r: SPAdCreateBuilder)
        ensures
            r.ad_group_id@ == ad_group_id@,
            advertises(r.creative, Seq::empty(), SPProductIdType::Asin),
            r.ad_product@ == "SPONSORED_PRODUCTS"@,
            r.ad_type@ == "PRODUCT_AD"@,
            r.state == SPCreateState::Enabled,
            r.tags is None,
    {
        let empty = String::new();
        proof {
            assert(empty@ =~= Seq::<char>::empty());
        }
        SPAdCreateBuilder {
            ad_group_id: String::from_str(ad_group_id),
            creative: product_creative(empty.as_str(), SPProductIdType::Asin),
            ad_product: String::from_str("SPONSORED_PRODUCTS"),
            ad_type: String::from_str("PRODUCT_AD"),
            state: SPCreateState::Enabled,
            tags: None,
        }
    }
}

impl SPAdCreateBuilder {
    /// Advertises the product with this ASIN.
    pub fn asin(self, asin: &str) -> (r: Self)
        ensures
            advertises(r.creative, asin@, SPProductIdType::Asin),
            r == (SPAdCreateBuilder { creative: r.creative, ..self }),
    {
        SPAdCreateBuilder { creative: product_creative(asin, SPProductIdType::Asin), ..self }
    }

    /// Advertises the product with this SKU.
    pub fn sku(self, sku: &str) -> (r: Self)
        ensures
            advertises(r.creative, sku@, SPProductIdType::Sku),
            r == (SPAdCreateBuilder { creative: r.creative, ..self }),
    {
        SPAdCreateBuilder { creative: product_creative(sku, SPProductIdType::Sku), ..self }
    }

    pub fn state(self, state: SPCreateState) -> (r: Self)
        ensures
            r == (SPAdCreateBuilder { state, ..self }),
    {
        SPAdCreateBuilder { state, ..self }
    }

    pub fn tags(self, tags: Vec<SPCreateTag>) -> (r: Self)
        ensures
            r == (SPAdCreateBuilder { tags: Some(tags), ..self }),
    {
        SPAdCreateBuilder { tags: Some(tags), ..self }
    }

    pub fn build(self) -> (r: SPAdCreate)
        ensures
            r == (SPAdCreate {
                ad_group_id: self.ad_group_id,
                creative: self.creative,
                ad_product: self.ad_product,
                ad_type: self.ad_type,
                state: self.state,
                tags: self.tags,
            }),
    {
        SPAdCreate {
            ad_group_id: self.ad_group_id,
            creative: self.creative,
            ad_product: self.ad_product,
            ad_type: self.ad_type,
            state: self.state,
            tags: self.tags,
        }
    }
}

/// Ads to create in one request.
pub struct CreateAds {
    pub ads: Vec<SPAdCreate>,
}

impl CreateAds {
    fn ads_for(ad_group_id: &str, ids: Vec<&str>, kind: SPProductIdType) -> (r: Vec<SPAdCreate>)
        ensures
            r@.len() == ids@.len(),
            forall|i: int| 0 <= i < r@.len() ==> ad_for(#[trigger] r@[i], ad_group_id@, ids@[i]@, kind),
    {
        let mut out: Vec<SPAdCreate> = Vec::new();
        let mut i: usize = 0;
        while i < ids.len()
            invariant
                0 <= i <= ids@.len(),
                out@.len() == i,
                forall|j: int| 0 <= j < i ==> ad_for(#[trigger] out@[j], ad_group_id@, ids@[j]@, kind),
            decreases ids@.len() - i,
        {
            let b = SPAdCreate::builder(ad_group_id);
            let ad = match kind {
                SPProductIdType::Asin => b.asin(ids[i]),
                SPProductIdType::Sku => b.sku(ids[i]),
            }.build();
            out.push(ad);
            i = i + 1;
        }
        out
    }

    /// One enabled ad in the ad group for each ASIN, in order.
    pub fn by_asins(ad_group_id: &str, asins: Vec<&str>) -> (r: Vec<SPAdCreate>)
        ensures
            r@.len() == asins@.len(),
            forall|i: int|
                0 <= i < r@.len() ==> ad_for(#[trigger] r@[i], ad_group_id@, asins@[i]@, SPProductIdType::Asin),
    {
        Self::ads_for(ad_group_id, asins, SPProductIdType::Asin)
    }

    /// One enabled ad in the ad group for each SKU, in order.
    pub fn by_skus(ad_group_id: &str, skus: Vec<&str>) -> (r: Vec<SPAdCreate>)
        ensures
            r@.len() == skus@.len(),
            forall|i: int|
                0 <= i < r@.len() ==> ad_for(#[trigger] r@[i], ad_group_id@, skus@[i]@, SPProductIdType::Sku),
    {
        Self::ads_for(ad_group_id, skus, SPProductIdType::Sku)
    }
}

/// The filter of a listing of ads.
pub struct ListAdsFilter {
    pub ad_product_filter: Vec<String>,
    pub ad_group_id_filter: Option<Vec<String>>,
    pub ad_id_filter: Option<Vec<String>>,
    pub campaign_id_filter: Option<Vec<String>>,
    pub max_results: i32,
    pub state_filter: Option<Vec<SPAdStateFilter>>,
}

impl ListAdsFilter {
    /// Sponsored products only, up to 1000 results, with no other filter.
    pub fn new() -> (r: ListAdsFilter)
        ensures
            r.ad_product_filter@.len() == 1,
            r.ad_product_filter@[0]@ == "SPONSORED_PRODUCTS"@,
            r.ad_group_id_filter is None,
            r.ad_id_filter is None,
            r.campaign_id_filter is None,
            r.max_results == 1000,
            r.state_filter is None,
    {
        let mut products: Vec<String> = Vec::new();
        products.push(String::from_str("SPONSORED_PRODUCTS"));
        ListAdsFilter {
            ad_product_filter: products,
            ad_group_id_filter: None,
            ad_id_filter: None,
            campaign_id_filter: None,
            max_results: 1000,
            state_filter: None,
        }
    }
}

} // verus!
