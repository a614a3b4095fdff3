use amazon_ads_api::region::AmazonRegion;

#[test]
fn known_codes_resolve_to_their_region() {
    for code in ["US", "CA", "MX", "BR"] {
        assert_eq!(AmazonRegion::from_country_code(code), Some(AmazonRegion::NA));
    }
    for code in [
        "UK", "GB", "DE", "FR", "ES", "IT", "NL", "AE", "SA", "PL", "SE", "TR", "EG", "BE",
    ] {
        assert_eq!(AmazonRegion::from_country_code(code), Some(AmazonRegion::EU));
    }
    for code in ["JP", "AU", "SG"] {
        assert_eq!(AmazonRegion::from_country_code(code), Some(AmazonRegion::FE));
    }
}

#[test]
fn lower_case_codes_resolve() {
    assert_eq!(AmazonRegion::from_country_code("us"), Some(AmazonRegion::NA));
    assert_eq!(AmazonRegion::from_country_code("De"), Some(AmazonRegion::EU));
    assert_eq!(AmazonRegion::from_country_code("jp"), Some(AmazonRegion::FE));
}

#[test]
fn uk_and_gb_are_aliases() {
    assert_eq!(
        AmazonRegion::from_country_code("UK"),
        AmazonRegion::from_country_code("GB")
    );
    assert_eq!(
        AmazonRegion::from_country_code("uk"),
        AmazonRegion::from_country_code("gb")
    );
}

#[test]
fn unknown_code_is_rejected() {
    assert_eq!(AmazonRegion::from_country_code("ZZ"), None);
    assert_eq!(AmazonRegion::from_country_code(""), None);
    assert_eq!(AmazonRegion::from_country_code("USA"), None);
    assert_eq!(AmazonRegion::from_upper_code("us"), None);
}

#[test]
fn region_urls() {
    assert_eq!(AmazonRegion::NA.auth_url(), "https://www.amazon.com/ap/oa");
    assert_eq!(AmazonRegion::EU.auth_url(), "https://eu.account.amazon.com/ap/oa");
    assert_eq!(AmazonRegion::FE.auth_url(), "https://apac.account.amazon.com/ap/oa");
    assert_eq!(AmazonRegion::NA.api_endpoint(), "https://advertising-api.amazon.com");
    assert_eq!(AmazonRegion::EU.api_endpoint(), "https://advertising-api-eu.amazon.com");
    assert_eq!(AmazonRegion::FE.api_endpoint(), "https://advertising-api-fe.amazon.com");
}
