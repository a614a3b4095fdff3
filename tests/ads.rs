use amazon_ads_api::ads_v1::sp_ads::{CreateAds, ListAdsFilter, SPAdCreate};
use amazon_ads_api::ads_v1::sp_enums::{SPCreateState, SPProductIdType, SPUpdateState};
use amazon_ads_api::ads_v1::sp_global_ads::{self, parse_marketplaces, SPGlobalAdCreate};
use amazon_ads_api::ads_v1::sp_global_enums::{
    SPGlobalCurrencyCode, SPGlobalMarketplace, SPGlobalProductIdType,
};
use amazon_ads_api::ads_v1::sp_global_targets::bid_placement;
use amazon_ads_api::ads_v1::sp_targets::SPTargetUpdate;

#[test]
fn sp_ad_by_asin() {
    let ad = SPAdCreate::builder("546821283664002").asin("B0FHQ2PTZD").build();
    assert_eq!(ad.ad_group_id, "546821283664002");
    assert_eq!(ad.ad_product, "SPONSORED_PRODUCTS");
    assert_eq!(ad.ad_type, "PRODUCT_AD");
    assert_eq!(ad.state, SPCreateState::Enabled);
    assert!(ad.tags.is_none());
    let p = &ad.creative.product_creative.product_creative_settings.advertised_product;
    assert_eq!(p.product_id, "B0FHQ2PTZD");
    assert_eq!(p.product_id_type, SPProductIdType::Asin);
    assert_eq!(p.product_id_type.as_str(), "ASIN");
}

#[test]
fn sp_ads_by_skus() {
    let ads = CreateAds::by_skus("546821283664002", vec!["KM-HBW0Jj-Green-", "KM-2"]);
    assert_eq!(ads.len(), 2);
    let p = &ads[1].creative.product_creative.product_creative_settings.advertised_product;
    assert_eq!(p.product_id, "KM-2");
    assert_eq!(p.product_id_type, SPProductIdType::Sku);
    assert_eq!(ads[0].ad_group_id, "546821283664002");
    assert!(CreateAds::by_asins("g", vec![]).is_empty());
}

#[test]
fn list_ads_filter_defaults() {
    let f = ListAdsFilter::new();
    assert_eq!(f.ad_product_filter, vec!["SPONSORED_PRODUCTS".to_string()]);
    assert_eq!(f.max_results, 1000);
    assert!(f.state_filter.is_none());
    let g = sp_global_ads::ListAdsFilter::new();
    assert_eq!(g.marketplace_scope_filter, vec!["GLOBAL".to_string()]);
}

#[test]
fn target_update_state_by_name() {
    let u = SPTargetUpdate::builder("214060908268872".to_string()).state("PAUSED").build();
    assert_eq!(u.target_id, "214060908268872");
    assert_eq!(u.state, Some(SPUpdateState::Paused));
    assert_eq!(SPUpdateState::from_name("ENABLED"), Some(SPUpdateState::Enabled));
    assert_eq!(SPUpdateState::from_name("enabled"), None);
}

#[test]
fn global_ad_by_asin() {
    let ad = SPGlobalAdCreate::builder("4999899225094945252")
        .asin(vec!["US", "UK"], "B0FMS7N9W5")
        .marketplaces(vec![SPGlobalMarketplace::US])
        .build();
    assert_eq!(ad.marketplace_scope, "GLOBAL");
    let p = &ad.creative.product_creative.product_creative_settings.advertised_product;
    assert_eq!(p.product_id_type, SPGlobalProductIdType::Asin);
    let settings = p.marketplace_settings.as_ref().unwrap();
    assert_eq!(settings.len(), 2);
    assert_eq!(settings[0].marketplace, SPGlobalMarketplace::US);
    assert_eq!(settings[1].marketplace, SPGlobalMarketplace::GB);
    assert_eq!(settings[1].product_id, "B0FMS7N9W5");
}

#[test]
fn global_ads_by_skus() {
    let ads = sp_global_ads::CreateAds::by_skus(
        "4999899225094945252",
        vec!["DE", "FR"],
        vec!["KM-QqwSUL-White-30x120cm"],
    );
    assert_eq!(ads.len(), 1);
    assert_eq!(ads[0].marketplaces, vec![SPGlobalMarketplace::DE, SPGlobalMarketplace::FR]);
    let p = &ads[0].creative.product_creative.product_creative_settings.advertised_product;
    assert_eq!(p.product_id_type, SPGlobalProductIdType::Sku);
    assert_eq!(p.marketplace_settings.as_ref().unwrap()[0].product_id, "KM-QqwSUL-White-30x120cm");
}

#[test]
fn marketplace_codes() {
    assert_eq!(SPGlobalMarketplace::from_code("UK"), Some(SPGlobalMarketplace::GB));
    assert_eq!(SPGlobalMarketplace::from_code("gb"), None);
    assert_eq!(SPGlobalMarketplace::from_code("ZA"), None);
    assert_eq!(parse_marketplaces(&vec!["JP", "SG"]), vec![SPGlobalMarketplace::JP, SPGlobalMarketplace::SG]);
}

#[test]
fn currency_of_country() {
    assert_eq!(SPGlobalCurrencyCode::from_country_code("US"), Some(SPGlobalCurrencyCode::USD));
    assert_eq!(SPGlobalCurrencyCode::from_country_code(" DE "), Some(SPGlobalCurrencyCode::EUR));
    assert_eq!(SPGlobalCurrencyCode::from_country_code("GBP"), Some(SPGlobalCurrencyCode::GBP));
    assert_eq!(SPGlobalCurrencyCode::from_country_code("LI"), Some(SPGlobalCurrencyCode::CHF));
    assert_eq!(SPGlobalCurrencyCode::from_country_code("MXP"), Some(SPGlobalCurrencyCode::MXP));
    assert_eq!(SPGlobalCurrencyCode::from_country_code("us"), Some(SPGlobalCurrencyCode::USD));
    assert_eq!(SPGlobalCurrencyCode::from_country_code(" gbp\n"), Some(SPGlobalCurrencyCode::GBP));
    assert_eq!(SPGlobalCurrencyCode::from_country_code("\u{3000}jp"), Some(SPGlobalCurrencyCode::JPY));
    assert_eq!(SPGlobalCurrencyCode::from_country_code("ZZ"), None);
    assert_eq!(SPGlobalCurrencyCode::from_country_code("UK"), None);
}

#[test]
fn bid_placement_needs_currency_and_marketplace() {
    assert_eq!(bid_placement("GB"), Some((SPGlobalCurrencyCode::GBP, SPGlobalMarketplace::GB)));
    assert_eq!(bid_placement("UK"), None);
    assert_eq!(bid_placement("CH"), None);
    assert_eq!(bid_placement("gb"), None);
}
