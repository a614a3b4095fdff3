//! Sponsored-products product ads, version 3: the listing filter and the
//! items it returns.

use vstd::prelude::*;
use crate::text::owned_all;

verus! {

/// Identifiers that a filter admits.
pub struct AdGroupIdFilter {
    pub ids: Vec<String>,
}

pub struct AdIdFilter {
    pub ids: Vec<String>,
}

pub struct CampaignIdFilter {
    pub ids: Vec<String>,
}

/// A state to filter product ads by.
#[derive(Debug, Clone, Copy, PartialEq, Eq, Structural)]
pub enum StateEnum {
    Archived,
    Enabled,
    Enabling,
    Other,
    Paused,
    Proposed,
    UserDeleted,
}

/// The state of a listed product ad.
#[derive(Debug, Clone, Copy, PartialEq, Eq, Structural)]
pub enum ProductAdsItemState {
    Archived,
    Enabled,
    Enabling,
    Other,
    Paused,
    Proposed,
    UserDeleted,
}

pub struct ProductAdsItem {
    pub ad_group_id: String,
    pub ad_id: String,
    pub campaign_id: String,
    pub asin: String,
    pub sku: String,
    pub state: ProductAdsItemState,
}

/// The filter of a listing of product ads.
pub struct ListProductAdsFilter {
    pub ad_group_id_filter: Option<AdGroupIdFilter>,
    pub ad_id_filter: Option<AdIdFilter>,
    pub campaign_id_filter: Option<CampaignIdFilter>,
    pub include_extended_data_fields: Option<bool>,
    pub max_results: Option<usize>,
    pub next_token: Option<String>,
    pub state_filter: Option<StateEnum>,
}

/// Builds a `ListProductAdsFilter`; started by `ListProductAdsFilter::builder`.
pub struct ListProductAdsFilterBuilder {
    pub filter: ListProductAdsFilter,
}

/// `ids` holds owned copies of `items`, in order.
pub open spec fn holds_ids(ids: Seq<String>, items: Seq<&str>) -> bool {
    &&& ids.len() == items.len()
    &&& forall|i: int| 0 <= i < ids.len() ==> (#[trigger] ids[i])@ == items[i]@
}

impl ListProductAdsFilter {
    /// Starts a filter that admits everything.
    pub fn builder() -> (r: ListProductAdsFilterBuilder)
        ensures
            r.filter.ad_group_id_filter is None,
            r.filter.ad_id_filter is None,
            r.filter.campaign_id_filter is None,
            r.filter.include_extended_data_fields is None,
            r.filter.max_results is None,
            r.filter.next_token is None,
            r.filter.state_filter is None,
    {
        ListProductAdsFilterBuilder {
            filter: ListProductAdsFilter {
                ad_group_id_filter: None,
                ad_id_filter: None,
                campaign_id_filter: None,
                include_extended_data_fields: None,
                max_results: None,
                next_token: None,
                state_filter: None,
            },
        }
    }
}

impl ListProductAdsFilterBuilder {
    /// Admits only the ad groups with these ids.
    pub fn ad_group_ids(self, ad_group_ids: Vec<&str>) -> (r: Self)
        ensures
            r.filter.ad_group_id_filter is Some,
            holds_ids(r.filter.ad_group_id_filter->Some_0.ids@, ad_group_ids@),
            r.filter == (ListProductAdsFilter {
                ad_group_id_filter: r.filter.ad_group_id_filter,
                ..self.filter
            }),
    {
        let ids = owned_all(ad_group_ids);
        ListProductAdsFilterBuilder {
            filter: ListProductAdsFilter {
                ad_group_id_filter: Some(AdGroupIdFilter { ids }),
                ..self.filter
            },
        }
    }

    /// Admits only the ads with these ids.
    pub fn ad_ids(self, ad_ids: Vec<&str>) -> (r: Self)
        ensures
            r.filter.ad_id_filter is Some,
            holds_ids(r.filter.ad_id_filter->Some_0.ids@, ad_ids@),
            r.filter == (ListProductAdsFilter { ad_id_filter: r.filter.ad_id_filter, ..self.filter }),
    {
        let ids = owned_all(ad_ids);
        ListProductAdsFilterBuilder {
            filter: ListProductAdsFilter { ad_id_filter: Some(AdIdFilter { ids }), ..self.filter },
        }
    }

    /// Admits only the campaigns with these ids.
    pub fn campaign_ids(self, campaign_ids: Vec<&str>) -> (r: Self)
        ensures
            r.filter.campaign_id_filter is Some,
            holds_ids(r.filter.campaign_id_filter->Some_0.ids@, campaign_ids@),
            r.filter == (ListProductAdsFilter {
                campaign_id_filter: r.filter.campaign_id_filter,
                ..self.filter
            }),
    {
        let ids = owned_all(campaign_ids);
        ListProductAdsFilterBuilder {
            filter: ListProductAdsFilter {
                campaign_id_filter: Some(CampaignIdFilter { ids }),
                ..self.filter
            },
        }
    }

    pub fn state_filter(self, state: StateEnum) -> (r: Self)
        ensures
            r.filter == (ListProductAdsFilter { state_filter: Some(state), ..self.filter }),
    {
        ListProductAdsFilterBuilder {
            filter: ListProductAdsFilter { state_filter: Some(state), ..self.filter },
        }
    }

    pub fn max_results(self, max_results: usize) -> (r: Self)
        ensures
            r.filter == (ListProductAdsFilter { max_results: Some(max_results), ..self.filter }),
    {
        ListProductAdsFilterBuilder {
            filter: ListProductAdsFilter { max_results: Some(max_results), ..self.filter },
        }
    }

    pub fn build(self) -> (r: ListProductAdsFilter)
        ensures
            r == self.filter,
    {
        self.filter
    }
}

} // verus!
