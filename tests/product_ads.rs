use amazon_ads_api::sp_product_ads::{ListProductAdsFilter, StateEnum};

#[test]
fn product_ads_filter_by_ids() {
    let f = ListProductAdsFilter::builder()
        .ad_group_ids(vec!["515228709275405"])
        .campaign_ids(vec!["358885870824039", "1"])
        .state_filter(StateEnum::Enabled)
        .build();
    assert_eq!(f.ad_group_id_filter.unwrap().ids, vec!["515228709275405".to_string()]);
    assert_eq!(
        f.campaign_id_filter.unwrap().ids,
        vec!["358885870824039".to_string(), "1".to_string()]
    );
    assert!(f.ad_id_filter.is_none());
    assert_eq!(f.state_filter, Some(StateEnum::Enabled));
    assert!(f.max_results.is_none());
}

#[test]
fn product_ads_filter_defaults() {
    let f = ListProductAdsFilter::builder().ad_ids(vec![]).max_results(1000).build();
    assert!(f.ad_id_filter.unwrap().ids.is_empty());
    assert_eq!(f.max_results, Some(1000));
    assert!(f.next_token.is_none());
    assert!(f.include_extended_data_fields.is_none());
}
