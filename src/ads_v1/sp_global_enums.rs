//! Enumerations of the global sponsored-products schema.

use vstd::prelude::*;
use crate::text::{str_eq, to_upper, trim, trimmed_of, upper_of};

verus! {

/// A state to filter a listing of global ads by.
#[derive(Debug, Clone, Copy, PartialEq, Eq, Structural)]
pub enum SPGlobalAdStateFilter {
    Enabled,
    Paused,
    Archived,
}

impl SPGlobalAdStateFilter {
    /// The name of the value on the wire.
    pub open spec fn wire_name(self) -> Seq<char> {
        match self {
            SPGlobalAdStateFilter::Enabled => "ENABLED"@,
            SPGlobalAdStateFilter::Paused => "PAUSED"@,
            SPGlobalAdStateFilter::Archived => "ARCHIVED"@,
        }
    }

    /// The name of the value on the wire.
    pub fn as_str(&self) -> (r: &'static str)
        ensures
            r@ == self.wire_name(),
    {
        match self {
            SPGlobalAdStateFilter::Enabled => "ENABLED",
            SPGlobalAdStateFilter::Paused => "PAUSED",
            SPGlobalAdStateFilter::Archived => "ARCHIVED",
        }
    }
}

/// The state of a global ad or target as the API reports it.
#[derive(Debug, Clone, Copy, PartialEq, Eq, Structural)]
#[allow(non_camel_case_types)]
pub enum SPGlobalState {
    ARCHIVED,
    ENABLED,
    PAUSED,
}

/// The state that a new global ad is created in.
#[derive(Debug, Clone, Copy, PartialEq, Eq, Structural)]
pub enum SPGlobalCreateState {
    Enabled,
    Paused,
}

impl SPGlobalCreateState {
    /// The name of the value on the wire.
    pub open spec fn wire_name(self) -> Seq<char> {
        match self {
            SPGlobalCreateState::Enabled => "ENABLED"@,
            SPGlobalCreateState::Paused => "PAUSED"@,
        }
    }

    /// The name of the value on the wire.
    pub fn as_str(&self) -> (r: &'static str)
        ensures
            r@ == self.wire_name(),
    {
        match self {
            SPGlobalCreateState::Enabled => "ENABLED",
            SPGlobalCreateState::Paused => "PAUSED",
        }
    }
}

/// A marketplace, by country code.
#[derive(Debug, Clone, Copy, PartialEq, Eq, Structural)]
pub enum SPGlobalMarketplace {
    AE,
    AU,
    BE,
    BR,
    CA,
    DE,
    EG,
    ES,
    FR,
    GB,
    IN,
    IT,
    JP,
    MX,
    NL,
    PL,
    SA,
    SE,
    SG,
    TR,
    US,
}

/// The marketplace that a country code names; `UK` names `GB`.
pub open spec fn global_marketplace_of(s: Seq<char>) -> Option<SPGlobalMarketplace> {
    if s == "AE"@ {
        Some(SPGlobalMarketplace::AE)
    } else if s == "AU"@ {
        Some(SPGlobalMarketplace::AU)
    } else if s == "BE"@ {
        Some(SPGlobalMarketplace::BE)
    } else if s == "BR"@ {
        Some(SPGlobalMarketplace::BR)
    } else if s == "CA"@ {
        Some(SPGlobalMarketplace::CA)
    } else if s == "DE"@ {
        Some(SPGlobalMarketplace::DE)
    } else if s == "EG"@ {
        Some(SPGlobalMarketplace::EG)
    } else if s == "ES"@ {
        Some(SPGlobalMarketplace::ES)
    } else if s == "FR"@ {
        Some(SPGlobalMarketplace::FR)
    } else if s == "GB"@ || s == "UK"@ {
        Some(SPGlobalMarketplace::GB)
    } else if s == "IN"@ {
        Some(SPGlobalMarketplace::IN)
    } else if s == "IT"@ {
        Some(SPGlobalMarketplace::IT)
    } else if s == "JP"@ {
        Some(SPGlobalMarketplace::JP)
    } else if s == "MX"@ {
        Some(SPGlobalMarketplace::MX)
    } else if s == "NL"@ {
        Some(SPGlobalMarketplace::NL)
    } else if s == "PL"@ {
        Some(SPGlobalMarketplace::PL)
    } else if s == "SA"@ {
        Some(SPGlobalMarketplace::SA)
    } else if s == "SE"@ {
        Some(SPGlobalMarketplace::SE)
    } else if s == "SG"@ {
        Some(SPGlobalMarketplace::SG)
    } else if s == "TR"@ {
        Some(SPGlobalMarketplace::TR)
    } else if s == "US"@ {
        Some(SPGlobalMarketplace::US)
    } else {
        None
    }
}

impl SPGlobalMarketplace {
    /// Parses a country code, exactly as written.
    pub fn from_code(s: &str) -> (r: Option<SPGlobalMarketplace>)
        ensures
            r == global_marketplace_of(s@),
    {
        if str_eq(s, "AE") {
            Some(SPGlobalMarketplace::AE)
        } else if str_eq(s, "AU") {
            Some(SPGlobalMarketplace::AU)
        } else if str_eq(s, "BE") {
            Some(SPGlobalMarketplace::BE)
        } else if str_eq(s, "BR") {
            Some(SPGlobalMarketplace::BR)
        } else if str_eq(s, "CA") {
            Some(SPGlobalMarketplace::CA)
        } else if str_eq(s, "DE") {
            Some(SPGlobalMarketplace::DE)
        } else if str_eq(s, "EG") {
            Some(SPGlobalMarketplace::EG)
        } else if str_eq(s, "ES") {
            Some(SPGlobalMarketplace::ES)
        } else if str_eq(s, "FR") {
            Some(SPGlobalMarketplace::FR)
        } else if str_eq(s, "GB") || str_eq(s, "UK") {
            Some(SPGlobalMarketplace::GB)
        } else if str_eq(s, "IN") {
            Some(SPGlobalMarketplace::IN)
        } else if str_eq(s, "IT") {
            Some(SPGlobalMarketplace::IT)
        } else if str_eq(s, "JP") {
            Some(SPGlobalMarketplace::JP)
        } else if str_eq(s, "MX") {
            Some(SPGlobalMarketplace::MX)
        } else if str_eq(s, "NL") {
            Some(SPGlobalMarketplace::NL)
        } else if str_eq(s, "PL") {
            Some(SPGlobalMarketplace::PL)
        } else if str_eq(s, "SA") {
            Some(SPGlobalMarketplace::SA)
        } else if str_eq(s, "SE") {
            Some(SPGlobalMarketplace::SE)
        } else if str_eq(s, "SG") {
            Some(SPGlobalMarketplace::SG)
        } else if str_eq(s, "TR") {
            Some(SPGlobalMarketplace::TR)
        } else if str_eq(s, "US") {
            Some(SPGlobalMarketplace::US)
        } else {
            None
        }
    }
}

/// How an advertised product is identified.
#[derive(Debug, Clone, Copy, PartialEq, Eq, Structural)]
pub enum SPGlobalProductIdType {
    Asin,
    Sku,
}

impl SPGlobalProductIdType {
    /// The name of the value on the wire.
    pub open spec fn wire_name(self) -> Seq<char> {
        match self {
            SPGlobalProductIdType::Asin => "ASIN"@,
            SPGlobalProductIdType::Sku => "SKU"@,
        }
    }

    /// The name of the value on the wire.
    pub fn as_str(&self) -> (r: &'static str)
        ensures
            r@ == self.wire_name(),
    {
        match self {
            SPGlobalProductIdType::Asin => "ASIN",
            SPGlobalProductIdType::Sku => "SKU",
        }
    }
}

/// Why a global ad is, or is not, delivering.
#[derive(Debug, Clone, Copy, PartialEq, Eq, Structural)]
pub enum SPGlobalDeliveryReason {
    AdvertiserArchived,
    AdvertiserOutOfBudget,
    AdvertiserOutOfPostpayCreditLimit,
    AdvertiserOutOfPostpayMonthlyBudget,
    AdvertiserOutOfPrepayBalance,
    AdvertiserPaused,
    AdvertiserPaymentFailure,
    AdvertiserPolicingPendingReview,
    AdvertiserPolicingSuspended,
    AdArchived,
    AdCreationFailed,
    AdCreationInProgress,
    AdGroupArchived,
    AdGroupIncomplete,
    AdGroupLowBid,
    AdGroupPaused,
    AdGroupPendingReview,
    AdGroupPolicingPendingReview,
    AdGroupRejected,
    AdIneligible,
    AdMissingDecoration,
    AdMissingImage,
    AdNotDelivering,
    AdPaused,
    AdPolicingPendingReview,
    AdPolicingSuspended,
    BrandIneligible,
    CampaignArchived,
    CampaignEndDateReached,
    CampaignIncomplete,
    CampaignOutOfBudget,
    CampaignPaused,
    CampaignPendingReview,
    CampaignPendingStartDate,
    CampaignRejected,
    CreativeMissingAsset,
    CreativePendingReview,
    CreativeRejected,
    LandingPageIneligible,
    LandingPageNotAvailable,
    ModerationAdultNoveltyPolicyViolation,
    ModerationAdultProductPolicyViolation,
    ModerationAdultSoftlinesPolicyViolation,
    ModerationClaimWeightlossPolicyViolation,
    ModerationContentNudityPolicyViolation,
    ModerationContentProvocativePolicyViolation,
    ModerationContentSmokingPolicyViolation,
    ModerationCriticalEventsPolicyViolation,
    ModerationError404,
    ModerationGraphicalSexualImagesPolicyViolation,
    ModerationHfssProductPolicyViolation,
    ModerationLanguageOffensivePolicyViolation,
    ModerationNotCompliantToAdPolicy,
    ModerationSmokingRelatedPolicyViolation,
    NotBuyable,
    NotInBuybox,
    NotInPolicy,
    NoInventory,
    NoPurchasableOffer,
    OutOfRewardBudget,
    OutOfStock,
    PirRuleExcluded,
    PortfolioArchived,
    PortfolioEndDateReached,
    PortfolioOutOfBudget,
    PortfolioPaused,
    PortfolioPendingStartDate,
    SecurityScanPendingReview,
    SecurityScanRejected,
    SpendLimitExceeded,
    StatusUnavailable,
    TargetArchived,
    TargetBlocked,
    TargetPaused,
    TargetPolicingSuspended,
    Other,
}

/// Whether a global ad is delivering.
#[derive(Debug, Clone, Copy, PartialEq, Eq, Structural)]
pub enum SPGlobalDeliveryStatus {
    Delivering,
    NotDelivering,
    Unavailable,
}

/// The kind of a target.
#[derive(Debug, Clone, Copy, PartialEq, Eq, Structural)]
pub enum SPGlobalTargetType {
    Keyword,
    Product,
    ProductCategory,
    Theme,
}

impl SPGlobalTargetType {
    /// The name of the value on the wire.
    pub open spec fn wire_name(self) -> Seq<char> {
        match self {
            SPGlobalTargetType::Keyword => "KEYWORD"@,
            SPGlobalTargetType::Product => "PRODUCT"@,
            SPGlobalTargetType::ProductCategory => "PRODUCT_CATEGORY"@,
            SPGlobalTargetType::Theme => "THEME"@,
        }
    }

    /// The name of the value on the wire.
    pub fn as_str(&self) -> (r: &'static str)
        ensures
            r@ == self.wire_name(),
    {
        match self {
            SPGlobalTargetType::Keyword => "KEYWORD",
            SPGlobalTargetType::Product => "PRODUCT",
            SPGlobalTargetType::ProductCategory => "PRODUCT_CATEGORY",
            SPGlobalTargetType::Theme => "THEME",
        }
    }
}

/// A currency.
#[derive(Debug, Clone, Copy, PartialEq, Eq, Structural)]
pub enum SPGlobalCurrencyCode {
    AED,
    AUD,
    BRL,
    CAD,
    CHF,
    CNY,
    DKK,
    EGP,
    EUR,
    GBP,
    INR,
    JPY,
    MXN,
    MXP,
    NGN,
    NOK,
    NZD,
    PLN,
    SAR,
    SEK,
    SGD,
    TRY,
    USD,
    ZAR,
}

/// The currency named by its ISO code or by the country code of a country that uses it.
pub open spec fn currency_of(s: Seq<char>) -> Option<SPGlobalCurrencyCode> {
    if s == "AED"@ || s == "AE"@ {
        Some(SPGlobalCurrencyCode::AED)
    } else if s == "AUD"@ || s == "AU"@ {
        Some(SPGlobalCurrencyCode::AUD)
    } else if s == "BRL"@ || s == "BR"@ {
        Some(SPGlobalCurrencyCode::BRL)
    } else if s == "CAD"@ || s == "CA"@ {
        Some(SPGlobalCurrencyCode::CAD)
    } else if s == "CHF"@ || s == "CH"@ || s == "LI"@ {
        Some(SPGlobalCurrencyCode::CHF)
    } else if s == "CNY"@ || s == "CN"@ {
        Some(SPGlobalCurrencyCode::CNY)
    } else if s == "DKK"@ || s == "DK"@ || s == "GL"@ {
        Some(SPGlobalCurrencyCode::DKK)
    } else if s == "EGP"@ || s == "EG"@ {
        Some(SPGlobalCurrencyCode::EGP)
    } else if s == "EUR"@ || s == "EU"@ || s == "DE"@ || s == "FR"@ || s == "IT"@ || s == "ES"@ {
        Some(SPGlobalCurrencyCode::EUR)
    } else if s == "GBP"@ || s == "GB"@ {
        Some(SPGlobalCurrencyCode::GBP)
    } else if s == "INR"@ || s == "IN"@ {
        Some(SPGlobalCurrencyCode::INR)
    } else if s == "JPY"@ || s == "JP"@ {
        Some(SPGlobalCurrencyCode::JPY)
    } else if s == "MXN"@ || s == "MX"@ {
        Some(SPGlobalCurrencyCode::MXN)
    } else if s == "MXP"@ {
        Some(SPGlobalCurrencyCode::MXP)
    } else if s == "NGN"@ || s == "NG"@ {
        Some(SPGlobalCurrencyCode::NGN)
    } else if s == "NOK"@ || s == "NO"@ {
        Some(SPGlobalCurrencyCode::NOK)
    } else if s == "NZD"@ || s == "NZ"@ {
        Some(SPGlobalCurrencyCode::NZD)
    } else if s == "PLN"@ || s == "PL"@ {
        Some(SPGlobalCurrencyCode::PLN)
    } else if s == "SAR"@ || s == "SA"@ {
        Some(SPGlobalCurrencyCode::SAR)
    } else if s == "SEK"@ || s == "SE"@ {
        Some(SPGlobalCurrencyCode::SEK)
    } else if s == "SGD"@ || s == "SG"@ {
        Some(SPGlobalCurrencyCode::SGD)
    } else if s == "TRY"@ || s == "TR"@ {
        Some(SPGlobalCurrencyCode::TRY)
    } else if s == "USD"@ || s == "US"@ || s == "EC"@ || s == "SV"@ {
        Some(SPGlobalCurrencyCode::USD)
    } else if s == "ZAR"@ || s == "ZA"@ {
        Some(SPGlobalCurrencyCode::ZAR)
    } else {
        None
    }
}

impl SPGlobalCurrencyCode {
    /// Parses a currency or country code, exactly as written.
    pub fn from_code(s: &str) -> (r: Option<SPGlobalCurrencyCode>)
        ensures
            r == currency_of(s@),
    {
        if str_eq(s, "AED") || str_eq(s, "AE") {
            Some(SPGlobalCurrencyCode::AED)
        } else if str_eq(s, "AUD") || str_eq(s, "AU") {
            Some(SPGlobalCurrencyCode::AUD)
        } else if str_eq(s, "BRL") || str_eq(s, "BR") {
            Some(SPGlobalCurrencyCode::BRL)
        } else if str_eq(s, "CAD") || str_eq(s, "CA") {
            Some(SPGlobalCurrencyCode::CAD)
        } else if str_eq(s, "CHF") || str_eq(s, "CH") || str_eq(s, "LI") {
            Some(SPGlobalCurrencyCode::CHF)
        } else if str_eq(s, "CNY") || str_eq(s, "CN") {
            Some(SPGlobalCurrencyCode::CNY)
        } else if str_eq(s, "DKK") || str_eq(s, "DK") || str_eq(s, "GL") {
            Some(SPGlobalCurrencyCode::DKK)
        } else if str_eq(s, "EGP") || str_eq(s, "EG") {
            Some(SPGlobalCurrencyCode::EGP)
        } else if str_eq(s, "EUR") || str_eq(s, "EU") || str_eq(s, "DE") || str_eq(s, "FR") || str_eq(s, "IT") || str_eq(s, "ES") {
            Some(SPGlobalCurrencyCode::EUR)
        } else if str_eq(s, "GBP") || str_eq(s, "GB") {
            Some(SPGlobalCurrencyCode::GBP)
        } else if str_eq(s, "INR") || str_eq(s, "IN") {
            Some(SPGlobalCurrencyCode::INR)
        } else if str_eq(s, "JPY") || str_eq(s, "JP") {
            Some(SPGlobalCurrencyCode::JPY)
        } else if str_eq(s, "MXN") || str_eq(s, "MX") {
            Some(SPGlobalCurrencyCode::MXN)
        } else if str_eq(s, "MXP") {
            Some(SPGlobalCurrencyCode::MXP)
        } else if str_eq(s, "NGN") || str_eq(s, "NG") {
            Some(SPGlobalCurrencyCode::NGN)
        } else if str_eq(s, "NOK") || str_eq(s, "NO") {
            Some(SPGlobalCurrencyCode::NOK)
        } else if str_eq(s, "NZD") || str_eq(s, "NZ") {
            Some(SPGlobalCurrencyCode::NZD)
        } else if str_eq(s, "PLN") || str_eq(s, "PL") {
            Some(SPGlobalCurrencyCode::PLN)
        } else if str_eq(s, "SAR") || str_eq(s, "SA") {
            Some(SPGlobalCurrencyCode::SAR)
        } else if str_eq(s, "SEK") || str_eq(s, "SE") {
            Some(SPGlobalCurrencyCode::SEK)
        } else if str_eq(s, "SGD") || str_eq(s, "SG") {
            Some(SPGlobalCurrencyCode::SGD)
        } else if str_eq(s, "TRY") || str_eq(s, "TR") {
            Some(SPGlobalCurrencyCode::TRY)
        } else if str_eq(s, "USD") || str_eq(s, "US") || str_eq(s, "EC") || str_eq(s, "SV") {
            Some(SPGlobalCurrencyCode::USD)
        } else if str_eq(s, "ZAR") || str_eq(s, "ZA") {
            Some(SPGlobalCurrencyCode::ZAR)
        } else {
            None
        }
    }

    /// The currency of a country code, or a currency code itself; white
    /// space around the code and letter case are ignored.
    pub fn from_country_code(code: &str) -> (r: Option<SPGlobalCurrencyCode>)
        ensures
            r == currency_of(upper_of(trimmed_of(code@))),
    {
        let upper = to_upper(trim(code));
        Self::from_code(upper.as_str())
    }
}

/// How a keyword target matches.
#[derive(Debug, Clone, Copy, PartialEq, Eq, Structural)]
pub enum SPGlobalKeywordMatchType {
    Broad,
    Exact,
    Phrase,
}

impl SPGlobalKeywordMatchType {
    /// The name of the value on the wire.
    pub open spec fn wire_name(self) -> Seq<char> {
        match self {
            SPGlobalKeywordMatchType::Broad => "BROAD"@,
            SPGlobalKeywordMatchType::Exact => "EXACT"@,
            SPGlobalKeywordMatchType::Phrase => "PHRASE"@,
        }
    }

    /// The name of the value on the wire.
    pub fn as_str(&self) -> (r: &'static str)
        ensures
            r@ == self.wire_name(),
    {
        match self {
            SPGlobalKeywordMatchType::Broad => "BROAD",
            SPGlobalKeywordMatchType::Exact => "EXACT",
            SPGlobalKeywordMatchType::Phrase => "PHRASE",
        }
    }
}

/// How a theme target matches.
#[derive(Debug, Clone, Copy, PartialEq, Eq, Structural)]
pub enum SPGlobalThemeMatchType {
    KeywordsCloseMatch,
    KeywordsLooseMatch,
    ProductComplements,
    ProductSubstitutes,
}

impl SPGlobalThemeMatchType {
    /// The name of the value on the wire.
    pub open spec fn wire_name(self) -> Seq<char> {
        match self {
            SPGlobalThemeMatchType::KeywordsCloseMatch => "KEYWORDS_CLOSE_MATCH"@,
            SPGlobalThemeMatchType::KeywordsLooseMatch => "KEYWORDS_LOOSE_MATCH"@,
            SPGlobalThemeMatchType::ProductComplements => "PRODUCT_COMPLEMENTS"@,
            SPGlobalThemeMatchType::ProductSubstitutes => "PRODUCT_SUBSTITUTES"@,
        }
    }

    /// The name of the value on the wire.
    pub fn as_str(&self) -> (r: &'static str)
        ensures
            r@ == self.wire_name(),
    {
        match self {
            SPGlobalThemeMatchType::KeywordsCloseMatch => "KEYWORDS_CLOSE_MATCH",
            SPGlobalThemeMatchType::KeywordsLooseMatch => "KEYWORDS_LOOSE_MATCH",
            SPGlobalThemeMatchType::ProductComplements => "PRODUCT_COMPLEMENTS",
            SPGlobalThemeMatchType::ProductSubstitutes => "PRODUCT_SUBSTITUTES",
        }
    }
}

/// Where a target applies.
#[derive(Debug, Clone, Copy, PartialEq, Eq, Structural)]
pub enum SPGlobalTargetLevel {
    AdGroup,
    Campaign,
}

impl SPGlobalTargetLevel {
    /// The name of the value on the wire.
    pub open spec fn wire_name(self) -> Seq<char> {
        match self {
            SPGlobalTargetLevel::AdGroup => "AD_GROUP"@,
            SPGlobalTargetLevel::Campaign => "CAMPAIGN"@,
        }
    }

    /// The name of the value on the wire.
    pub fn as_str(&self) -> (r: &'static str)
        ensures
            r@ == self.wire_name(),
    {
        match self {
            SPGlobalTargetLevel::AdGroup => "AD_GROUP",
            SPGlobalTargetLevel::Campaign => "CAMPAIGN",
        }
    }
}

/// The state that a global target is updated to.
#[derive(Debug, Clone, Copy, PartialEq, Eq, Structural)]
pub enum SPGlobalUpdateState {
    Enabled,
    Paused,
}

impl SPGlobalUpdateState {
    /// The name of the value on the wire.
    pub open spec fn wire_name(self) -> Seq<char> {
        match self {
            SPGlobalUpdateState::Enabled => "ENABLED"@,
            SPGlobalUpdateState::Paused => "PAUSED"@,
        }
    }

    /// The name of the value on the wire.
    pub fn as_str(&self) -> (r: &'static str)
        ensures
            r@ == self.wire_name(),
    {
        match self {
            SPGlobalUpdateState::Enabled => "ENABLED",
            SPGlobalUpdateState::Paused => "PAUSED",
        }
    }
}


} // verus!
