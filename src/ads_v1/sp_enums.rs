//! Enumerations of the single-marketplace sponsored-products schema.

use vstd::prelude::*;
use crate::text::str_eq;

verus! {

/// A marketplace, by country code.
#[derive(Debug, Clone, Copy, PartialEq, Eq, Structural)]
pub enum SPMarketplace {
    AE,
    AU,
    BE,
    BR,
    CA,
    DE,
    EG,
    ES,
    FR,
    GB,
    IE,
    IN,
    IT,
    JP,
    MX,
    NL,
    PL,
    SA,
    SE,
    SG,
    TR,
    US,
    ZA,
}

/// The state of an ad or target as the API reports it.
#[derive(Debug, Clone, Copy, PartialEq, Eq, Structural)]
#[allow(non_camel_case_types)]
pub enum SPState {
    ARCHIVED,
    ENABLED,
    PAUSED,
}

/// The state that a new ad is created in.
#[derive(Debug, Clone, Copy, PartialEq, Eq, Structural)]
pub enum SPCreateState {
    Enabled,
    Paused,
}

impl SPCreateState {
    /// The name of the value on the wire.
    pub open spec fn wire_name(self) -> Seq<char> {
        match self {
            SPCreateState::Enabled => "ENABLED"@,
            SPCreateState::Paused => "PAUSED"@,
        }
    }

    /// The name of the value on the wire.
    pub fn as_str(&self) -> (r: &'static str)
        ensures
            r@ == self.wire_name(),
    {
        match self {
            SPCreateState::Enabled => "ENABLED",
            SPCreateState::Paused => "PAUSED",
        }
    }
}

/// How an advertised product is identified.
#[derive(Debug, Clone, Copy, PartialEq, Eq, Structural)]
pub enum SPProductIdType {
    Asin,
    Sku,
}

impl SPProductIdType {
    /// The name of the value on the wire.
    pub open spec fn wire_name(self) -> Seq<char> {
        match self {
            SPProductIdType::Asin => "ASIN"@,
            SPProductIdType::Sku => "SKU"@,
        }
    }

    /// The name of the value on the wire.
    pub fn as_str(&self) -> (r: &'static str)
        ensures
            r@ == self.wire_name(),
    {
        match self {
            SPProductIdType::Asin => "ASIN",
            SPProductIdType::Sku => "SKU",
        }
    }
}

impl Default for SPProductIdType {
    fn default() -> (r: Self)
        ensures
            r == SPProductIdType::Asin,
    {
        SPProductIdType::Asin
    }
}

/// Whether an ad is delivering.
#[derive(Debug, Clone, Copy, PartialEq, Eq, Structural)]
pub enum SPDeliveryStatus {
    Delivering,
    NotDelivering,
    Unavailable,
}

/// Why an ad is, or is not, delivering.
#[derive(Debug, Clone, Copy, PartialEq, Eq, Structural)]
pub enum SPDeliveryReason {
    AdvertiserArchived,
    AdvertiserOutOfBudget,
    AdvertiserOutOfPostpayCreditLimit,
    AdvertiserOutOfPostpayMonthlyBudget,
    AdvertiserOutOfPrepayBalance,
    AdvertiserPaused,
    AdvertiserPaymentFailure,
    AdvertiserPolicingPendingReview,
    AdvertiserPolicingSuspended,
    CampaignArchived,
    CampaignEndDateReached,
    CampaignIncomplete,
    CampaignOutOfBudget,
    CampaignPaused,
    CampaignPendingReview,
    CampaignPendingStartDate,
    CampaignRejected,
    PortfolioArchived,
    PortfolioEndDateReached,
    PortfolioOutOfBudget,
    PortfolioPaused,
    PortfolioPendingStartDate,
    AdGroupArchived,
    AdGroupIncomplete,
    AdGroupLowBid,
    AdGroupPaused,
    AdGroupPendingReview,
    AdGroupPolicingPendingReview,
    AdGroupRejected,
    AdArchived,
    AdCreationFailed,
    AdCreationInProgress,
    AdExtensionArchived,
    AdExtensionPaused,
    AdExtensionPolicingPendingReview,
    AdExtensionPolicingSuspended,
    AdIneligible,
    AdMissingDecoration,
    AdMissingImage,
    AdNotDelivering,
    AdPaused,
    AdPolicingPendingReview,
    AdPolicingSuspended,
    CreativeMissingAsset,
    CreativePendingReview,
    CreativeRejected,
    ModerationAdultNoveltyPolicyViolation,
    ModerationAdultProductPolicyViolation,
    ModerationAdultSoftlinesPolicyViolation,
    ModerationClaimWeightlossPolicyViolation,
    ModerationContentNudityPolicyViolation,
    ModerationContentProvocativePolicyViolation,
    ModerationContentSmokingPolicyViolation,
    ModerationCriticalEventsPolicyViolation,
    ModerationError404,
    ModerationGraphicalSexualImagesPolicyViolation,
    ModerationHfssProductPolicyViolation,
    ModerationLanguageOffensivePolicyViolation,
    ModerationNotCompliantToAdPolicy,
    ModerationSmokingRelatedPolicyViolation,
    SecurityScanPendingReview,
    SecurityScanRejected,
    BrandIneligible,
    LandingPageIneligible,
    LandingPageNotAvailable,
    NotBuyable,
    NotInBuybox,
    NotInPolicy,
    NoInventory,
    NoPurchasableOffer,
    OutOfStock,
    TargetArchived,
    TargetBlocked,
    TargetPaused,
    TargetPolicingSuspended,
    PirRuleExcluded,
    OutOfRewardBudget,
    SpendLimitExceeded,
    StatusUnavailable,
    Other,
}

/// A state to filter a listing of ads by.
#[derive(Debug, Clone, Copy, PartialEq, Eq, Structural)]
pub enum SPAdStateFilter {
    Enabled,
    Paused,
    Archived,
}

impl SPAdStateFilter {
    /// The name of the value on the wire.
    pub open spec fn wire_name(self) -> Seq<char> {
        match self {
            SPAdStateFilter::Enabled => "ENABLED"@,
            SPAdStateFilter::Paused => "PAUSED"@,
            SPAdStateFilter::Archived => "ARCHIVED"@,
        }
    }

    /// The name of the value on the wire.
    pub fn as_str(&self) -> (r: &'static str)
        ensures
            r@ == self.wire_name(),
    {
        match self {
            SPAdStateFilter::Enabled => "ENABLED",
            SPAdStateFilter::Paused => "PAUSED",
            SPAdStateFilter::Archived => "ARCHIVED",
        }
    }
}

/// The state that a target is updated to.
#[derive(Debug, Clone, Copy, PartialEq, Eq, Structural)]
pub enum SPUpdateState {
    Enabled,
    Paused,
}

impl SPUpdateState {
    /// The name of the value on the wire.
    pub open spec fn wire_name(self) -> Seq<char> {
        match self {
            SPUpdateState::Enabled => "ENABLED"@,
            SPUpdateState::Paused => "PAUSED"@,
        }
    }

    /// The name of the value on the wire.
    pub fn as_str(&self) -> (r: &'static str)
        ensures
            r@ == self.wire_name(),
    {
        match self {
            SPUpdateState::Enabled => "ENABLED",
            SPUpdateState::Paused => "PAUSED",
        }
    }
}

/// The update state named by a string, in upper snake case.
pub open spec fn update_state_of(s: Seq<char>) -> Option<SPUpdateState> {
    if s == "ENABLED"@ {
        Some(SPUpdateState::Enabled)
    } else if s == "PAUSED"@ {
        Some(SPUpdateState::Paused)
    } else {
        None
    }
}

impl SPUpdateState {
    /// Parses the name of an update state.
    pub fn from_name(s: &str) -> (r: Option<SPUpdateState>)
        ensures
            r == update_state_of(s@),
    {
        if str_eq(s, "ENABLED") {
            Some(SPUpdateState::Enabled)
        } else if str_eq(s, "PAUSED") {
            Some(SPUpdateState::Paused)
        } else {
            None
        }
    }
}

} // verus!
