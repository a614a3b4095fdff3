//! Global sponsored-product ads: one ad served in several marketplaces.

use vstd::prelude::*;
use vstd::string::*;
use crate::ads_v1::sp_global_enums::{
    global_marketplace_of, SPGlobalAdStateFilter, SPGlobalCreateState, SPGlobalDeliveryReason,
    SPGlobalDeliveryStatus, SPGlobalMarketplace, SPGlobalProductIdType, SPGlobalState,
};

verus! {

// Reported ads.

pub struct SPGlobalCreative {
    pub product_creative: SPGlobalProductCreative,
}

pub struct SPGlobalProductCreative {
    pub product_creative_settings: SPGlobalProductCreativeSettings,
}

pub struct SPGlobalProductCreativeSettings {
    pub advertised_product: SPGlobalAdvertisedProducts,
}

pub struct SPGlobalAdvertisedProducts {
    pub marketplace_settings: Option<Vec<SPGlobalAdvertisedProductMarketplaceSetting>>,
    pub product_id_type: SPGlobalProductIdType,
    pub resolved_product_id_type: Option<SPGlobalProductIdType>,
}

pub struct SPGlobalAdvertisedProductMarketplaceSetting {
    pub global_store_setting: Option<SPGlobalGlobalStoreSettings>,
    pub marketplace: SPGlobalMarketplace,
    pub product_id: String,
    pub resolved_product_id: Option<String>,
}

pub struct SPGlobalGlobalStoreSettings {
    pub catalog_source_marketplace: Option<SPGlobalMarketplace>,
}

pub struct SPGlobalStatus {
    pub delivery_reason: Option<Vec<SPGlobalDeliveryReason>>,
    pub delivery_status: SPGlobalDeliveryStatus,
}

pub struct SPGlobalTag {
    pub key: String,
    pub value: String,
}

// Create requests.

pub struct SPGlobalCreateCreative {
    pub product_creative: SPGlobalCreateProductCreative,
}

pub struct SPGlobalCreateProductCreative {
    pub product_creative_settings: SPGlobalCreateProductCreativeSettings,
}

pub struct SPGlobalCreateProductCreativeSettings {
    pub advertised_product: SPGlobalCreateAdvertisedProducts,
}

pub struct SPGlobalCreateAdvertisedProducts {
    pub marketplace_settings: Option<Vec<SPGlobalCreateAdvertisedProductMarketplaceSetting>>,
    pub product_id_type: SPGlobalProductIdType,
}

pub struct SPGlobalCreateAdvertisedProductMarketplaceSetting {
    pub global_store_setting: Option<SPGlobalCreateGlobalStoreSettings>,
    pub marketplace: SPGlobalMarketplace,
    pub product_id: String,
}

pub struct SPGlobalCreateGlobalStoreSettings {
    pub catalog_source_marketplace: Option<SPGlobalMarketplace>,
}

pub struct SPGlobalCreateTag {
    pub key: String,
    pub value: String,
}

pub struct SPGlobalCreateMarketplaceAdConfigurations {
    pub marketplace: SPGlobalMarketplace,
    pub overrides: SPGlobalCreateMarketplaceAdFieldOverrides,
}

pub struct SPGlobalCreateMarketplaceAdFieldOverrides {
    pub state: Option<SPGlobalState>,
    pub tags: Option<Vec<SPGlobalCreateTag>>,
}

/// One global ad to create.
pub struct SPGlobalAdCreate {
    pub ad_group_id: String,
    pub creative: SPGlobalCreateCreative,
    pub ad_product: String,
    pub ad_type: String,
    pub marketplace_configurations: Option<SPGlobalCreateMarketplaceAdConfigurations>,
    pub marketplace_scope: String,
    pub marketplaces: Vec<SPGlobalMarketplace>,
    pub state: SPGlobalCreateState,
    pub tags: Option<Vec<SPGlobalCreateTag>>,
}

/// Builds an `SPGlobalAdCreate`; started by `SPGlobalAdCreate::builder`.
pub struct SPGlobalAdCreateBuilder {
    pub ad_group_id: String,
    pub creative: SPGlobalCreateCreative,
    pub ad_product: String,
    pub ad_type: String,
    pub marketplace_configurations: Option<SPGlobalCreateMarketplaceAdConfigurations>,
    pub marketplace_scope: String,
    pub marketplaces: Vec<SPGlobalMarketplace>,
    pub state: SPGlobalCreateState,
    pub tags: Option<Vec<SPGlobalCreateTag>>,
}

/// Every code of `codes` names a marketplace.
pub open spec fn known_codes(codes: Seq<&str>) -> bool {
    forall|i: int| 0 <= i < codes.len() ==> (#[trigger] global_marketplace_of(codes[i]@)) is Some
}

/// `ms` are the marketplaces that `codes` name, in order.
pub open spec fn marketplaces_of(ms: Seq<SPGlobalMarketplace>, codes: Seq<&str>) -> bool {
    &&& ms.len() == codes.len()
    &&& forall|i: int| 0 <= i < ms.len() ==> Some(#[trigger] ms[i]) == global_marketplace_of(codes[i]@)
}

/// `c` advertises the product `id` of kind `kind` in each marketplace that
/// `codes` names, in order.
pub open spec fn advertises_in(
    c: SPGlobalCreateCreative,
    codes: Seq<&str>,
    id: Seq<char>,
    kind: SPGlobalProductIdType,
) -> bool {
    let p = c.product_creative.product_creative_settings.advertised_product;
    &&& p.product_id_type == kind
    &&& p.marketplace_settings is Some
    &&& p.marketplace_settings->Some_0@.len() == codes.len()
    &&& forall|i: int|
        0 <= i < codes.len() ==> {
            let s = #[trigger] p.marketplace_settings->Some_0@[i];
            &&& s.global_store_setting is None
            &&& Some(s.marketplace) == global_marketplace_of(codes[i]@)
            &&& s.product_id@ == id
        }
}

/// `a` is the global ad that `CreateAds::by_asins` or `by_skus` gives.
pub open spec fn global_ad_for(
    a: SPGlobalAdCreate,
    group: Seq<char>,
    codes: Seq<&str>,
    id: Seq<char>,
    kind: SPGlobalProductIdType,
) -> bool {
    &&& a.ad_group_id@ == group
    &&& advertises_in(a.creative, codes, id, kind)
    &&& marketplaces_of(a.marketplaces@, codes)
    &&& a.ad_product@ == "SPONSORED_PRODUCTS"@
    &&& a.ad_type@ == "PRODUCT_AD"@
    &&& a.marketplace_configurations is None
    &&& a.marketplace_scope@ == "GLOBAL"@
    &&& a.state == SPGlobalCreateState::Enabled
    &&& a.tags is None
}

fn known_marketplace(code: &str) -> (r: SPGlobalMarketplace)
    requires
        global_marketplace_of(code@) is Some,
    ensures
        Some(r) == global_marketplace_of(code@),
{
    match SPGlobalMarketplace::from_code(code) {
        Some(m) => m,
        None => SPGlobalMarketplace::US,
    }
}

/// The marketplaces that known country codes name, in order.
pub fn parse_marketplaces(codes: &Vec<&str>) -> (r: Vec<SPGlobalMarketplace>)
    requires
        known_codes(codes@),
    ensures
        marketplaces_of(r@, codes@),
{
    let mut out: Vec<SPGlobalMarketplace> = Vec::new();
    let mut i: usize = 0;
    while i < codes.len()
        invariant
            known_codes(codes@),
            0 <= i <= codes@.len(),
            out@.len() == i,
            forall|j: int| 0 <= j < i ==> Some(#[trigger] out@[j]) == global_marketplace_of(codes@[j]@),
        decreases codes@.len() - i,
    {
        assert(global_marketplace_of(codes@[i as int]@) is Some);
        out.push(known_marketplace(codes[i]));
        i = i + 1;
    }
    out
}

fn global_creative(codes: &Vec<&str>, id: &str, kind: SPGlobalProductIdType) -> (r: SPGlobalCreateCreative)
    requires
        known_codes(codes@),
    ensures
        advertises_in(r, codes@, id@, kind),
{
    let mut settings: Vec<SPGlobalCreateAdvertisedProductMarketplaceSetting> = Vec::new();
    let mut i: usize = 0;
    while i < codes.len()
        invariant
            known_codes(codes@),
            0 <= i <= codes@.len(),
            settings@.len() == i,
            forall|j: int|
                0 <= j < i ==> {
                    let s = #[trigger] settings@[j];
                    &&& s.global_store_setting is None
                    &&& Some(s.marketplace) == global_marketplace_of(codes@[j]@)
                    &&& s.product_id@ == id@
                },
        decreases codes@.len() - i,
    {
        assert(global_marketplace_of(codes@[i as int]@) is Some);
        settings.push(
            SPGlobalCreateAdvertisedProductMarketplaceSetting {
                global_store_setting: None,
                marketplace: known_marketplace(codes[i]),
                product_id: String::from_str(id),
            },
        );
        i = i + 1;
    }
    SPGlobalCreateCreative {
        product_creative: SPGlobalCreateProductCreative {
            product_creative_settings: SPGlobalCreateProductCreativeSettings {
                advertised_product: SPGlobalCreateAdvertisedProducts {
                    marketplace_settings: Some(settings),
                    product_id_type: kind,
                },
            },
        },
    }
}

impl SPGlobalAdCreate {
    /// Starts a global ad for an ad group: a sponsored product ad of global
    /// scope, created enabled, with no marketplace and no product yet.
    pub fn builder(ad_group_id: &str) -> (r: SPGlobalAdCreateBuilder)
        ensures
            r.ad_group_id@ == ad_group_id@,
            r.creative.product_creative.product_creative_settings.advertised_product.marketplace_settings is None,
            r.creative.product_creative.product_creative_settings.advertised_product.product_id_type
                == SPGlobalProductIdType::Asin,
            r.ad_product@ == "SPONSORED_PRODUCTS"@,
            r.ad_type@ == "PRODUCT_AD"@,
            r.marketplace_configurations is None,
            r.marketplace_scope@ == "GLOBAL"@,
            r.marketplaces@.len() == 0,
            r.state == SPGlobalCreateState::Enabled,
            r.tags is None,
    {
        SPGlobalAdCreateBuilder {
            ad_group_id: String::from_str(ad_group_id),
            creative: SPGlobalCreateCreative {
                product_creative: SPGlobalCreateProductCreative {
                    product_creative_settings: SPGlobalCreateProductCreativeSettings {
                        advertised_product: SPGlobalCreateAdvertisedProducts {
                            marketplace_settings: None,
                            product_id_type: SPGlobalProductIdType::Asin,
                        },
                    },
                },
            },
            ad_product: String::from_str("SPONSORED_PRODUCTS"),
            ad_type: String::from_str("PRODUCT_AD"),
            marketplace_configurations: None,
            marketplace_scope: String::from_str("GLOBAL"),
            marketplaces: Vec::new(),
            state: SPGlobalCreateState::Enabled,
            tags: None,
        }
    }
}

impl SPGlobalAdCreateBuilder {
    /// Advertises the product with this ASIN in each marketplace named by
    /// `country_codes`.
    pub fn asin(self, country_codes: Vec<&str>, asin: &str) -> (r: Self)
        requires
            known_codes(country_codes@),
        ensures
            advertises_in(r.creative, country_codes@, asin@, SPGlobalProductIdType::Asin),
            r == (SPGlobalAdCreateBuilder { creative: r.creative, ..self }),
    {
        SPGlobalAdCreateBuilder {
            creative: global_creative(&country_codes, asin, SPGlobalProductIdType::Asin),
            ..self
        }
    }

    /// Advertises the product with this SKU in each marketplace named by
    /// `country_codes`.
    pub fn sku(self, country_codes: Vec<&str>, sku: &str) -> (r: Self)
        requires
            known_codes(country_codes@),
        ensures
            advertises_in(r.creative, country_codes@, sku@, SPGlobalProductIdType::Sku),
            r == (SPGlobalAdCreateBuilder { creative: r.creative, ..self }),
    {
        SPGlobalAdCreateBuilder {
            creative: global_creative(&country_codes, sku, SPGlobalProductIdType::Sku),
            ..self
        }
    }

    pub fn marketplaces(self, marketplaces: Vec<SPGlobalMarketplace>) -> (r: Self)
        ensures
            r == (SPGlobalAdCreateBuilder { marketplaces, ..self }),
    {
        SPGlobalAdCreateBuilder { marketplaces, ..self }
    }

    pub fn state(self, state: SPGlobalCreateState) -> (r: Self)
        ensures
            r == (SPGlobalAdCreateBuilder { state, ..self }),
    {
        SPGlobalAdCreateBuilder { state, ..self }
    }

    pub fn tags(self, tags: Vec<SPGlobalCreateTag>) -> (r: Self)
        ensures
            r == (SPGlobalAdCreateBuilder { tags: Some(tags), ..self }),
    {
        SPGlobalAdCreateBuilder { tags: Some(tags), ..self }
    }

    pub fn build(self) -> (r: SPGlobalAdCreate)
        ensures
            r == (SPGlobalAdCreate {
                ad_group_id: self.ad_group_id,
                creative: self.creative,
                ad_product: self.ad_product,
                ad_type: self.ad_type,
                marketplace_configurations: self.marketplace_configurations,
                marketplace_scope: self.marketplace_scope,
                marketplaces: self.marketplaces,
                state: self.state,
                tags: self.tags,
            }),
    {
        SPGlobalAdCreate {
            ad_group_id: self.ad_group_id,
            creative: self.creative,
            ad_product: self.ad_product,
            ad_type: self.ad_type,
            marketplace_configurations: self.marketplace_configurations,
            marketplace_scope: self.marketplace_scope,
            marketplaces: self.marketplaces,
            state: self.state,
            tags: self.tags,
        }
    }
}

/// Global ads to create in one request.
pub struct CreateAds {
    pub ads: Vec<SPGlobalAdCreate>,
}

impl CreateAds {
    fn ads_for(ad_group_id: &str, country_codes: &Vec<&str>, ids: Vec<&str>, kind: SPGlobalProductIdType) -> (r: Vec<SPGlobalAdCreate>)
        requires
            known_codes(country_codes@),
        ensures
            r@.len() == ids@.len(),
            forall|i: int|
                0 <= i < r@.len() ==> global_ad_for(#[trigger] r@[i], ad_group_id@, country_codes@, ids@[i]@, kind),
    {
        let mut out: Vec<SPGlobalAdCreate> = Vec::new();
        let mut i: usize = 0;
        while i < ids.len()
            invariant
                known_codes(country_codes@),
                0 <= i <= ids@.len(),
                out@.len() == i,
                forall|j: int|
                    0 <= j < i ==> global_ad_for(#[trigger] out@[j], ad_group_id@, country_codes@, ids@[j]@, kind),
            decreases ids@.len() - i,
        {
            let b = SPGlobalAdCreate::builder(ad_group_id);
            let b = SPGlobalAdCreateBuilder { creative: global_creative(country_codes, ids[i], kind), ..b };
            let ad = b.marketplaces(parse_marketplaces(country_codes)).build();
            out.push(ad);
            i = i + 1;
        }
        out
    }

    /// One enabled global ad in the ad group for each ASIN, in order, each
    /// served in the marketplaces named by `country_codes`.
    pub fn by_asins(ad_group_id: &str, country_codes: Vec<&str>, asins: Vec<&str>) -> (r: Vec<SPGlobalAdCreate>)
        requires
            known_codes(country_codes@),
        ensures
            r@.len() == asins@.len(),
            forall|i: int|
                0 <= i < r@.len() ==> global_ad_for(
                    #[trigger] r@[i],
                    ad_group_id@,
                    country_codes@,
                    asins@[i]@,
                    SPGlobalProductIdType::Asin,
                ),
    {
        Self::ads_for(ad_group_id, &country_codes, asins, SPGlobalProductIdType::Asin)
    }

    /// One enabled global ad in the ad group for each SKU, in order, each
    /// served in the marketplaces named by `country_codes`.
    pub fn by_skus(ad_group_id: &str, country_codes: Vec<&str>, skus: Vec<&str>) -> (r: Vec<SPGlobalAdCreate>)
        requires
            known_codes(country_codes@),
        ensures
            r@.len() == skus@.len(),
            forall|i: int|
                0 <= i < r@.len() ==> global_ad_for(
                    #[trigger] r@[i],
                    ad_group_id@,
                    country_codes@,
                    skus@[i]@,
                    SPGlobalProductIdType::Sku,
                ),
    {
        Self::ads_for(ad_group_id, &country_codes, skus, SPGlobalProductIdType::Sku)
    }
}

/// The filter of a listing of global ads.
pub struct ListAdsFilter {
    pub ad_product_filter: Vec<String>,
    pub ad_group_id_filter: Option<Vec<String>>,
    pub ad_id_filter: Option<Vec<String>>,
    pub marketplace_scope_filter: Vec<String>,
    pub max_results: i32,
    pub state_filter: Option<Vec<SPGlobalAdStateFilter>>,
}

impl ListAdsFilter {
    /// Sponsored products of global scope, up to 1000 results, with no
    /// other filter.
    pub fn new() -> (r: ListAdsFilter)
        ensures
            r.ad_product_filter@.len() == 1,
            r.ad_product_filter@[0]@ == "SPONSORED_PRODUCTS"@,
            r.ad_group_id_filter is None,
            r.ad_id_filter is None,
            r.marketplace_scope_filter@.len() == 1,
            r.marketplace_scope_filter@[0]@ == "GLOBAL"@,
            r.max_results == 1000,
            r.state_filter is None,
    {
        let mut products: Vec<String> = Vec::new();
        products.push(String::from_str("SPONSORED_PRODUCTS"));
        let mut scopes: Vec<String> = Vec::new();
        scopes.push(String::from_str("GLOBAL"));
        ListAdsFilter {
            ad_product_filter: products,
            ad_group_id_filter: None,
            ad_id_filter: None,
            marketplace_scope_filter: scopes,
            max_results: 1000,
            state_filter: None,
        }
    }
}

} // verus!
