//! Single-marketplace targets: reported details and the update request.

use vstd::prelude::*;
use crate::ads_v1::sp_ads::SPCreateTag;
use crate::ads_v1::sp_enums::{update_state_of, SPUpdateState};

verus! {

pub struct SPLocationTarget {
    pub location_id: String,
}

pub struct SPProductValue {
    pub product_id: String,
}

/// An update of one target; a new bid is set apart from it.
pub struct SPTargetUpdate {
    pub target_id: String,
    pub state: Option<SPUpdateState>,
    pub tags: Option<Vec<SPCreateTag>>,
}

/// Builds an `SPTargetUpdate`; started by `SPTargetUpdate::builder`.
pub struct SPTargetUpdateBuilder {
    pub target_id: String,
    pub state: Option<SPUpdateState>,
    pub tags: Option<Vec<SPCreateTag>>,
}

impl SPTargetUpdate {
    /// Starts an update of the target that changes nothing yet.
    pub fn builder(target_id: String) -> (r: SPTargetUpdateBuilder)
        ensures
            r == (SPTargetUpdateBuilder { target_id, state: None, tags: None }),
    {
        SPTargetUpdateBuilder { target_id, state: None, tags: None }
    }
}

impl SPTargetUpdateBuilder {
    /// Sets the state, given by its name (`ENABLED` or `PAUSED`).
    pub fn state(self, state: &str) -> (r: Self)
        requires
            update_state_of(state@) is Some,
        ensures
            r == (SPTargetUpdateBuilder { state: update_state_of(state@), ..self }),
    {
        SPTargetUpdateBuilder { state: SPUpdateState::from_name(state), ..self }
    }

    pub fn tags(self, tags: Vec<SPCreateTag>) -> (r: Self)
        ensures
            r == (SPTargetUpdateBuilder { tags: Some(tags), ..self }),
    {
        SPTargetUpdateBuilder { tags: Some(tags), ..self }
    }

    pub fn build(self) -> (r: SPTargetUpdate)
        ensures
            r == (SPTargetUpdate { target_id: self.target_id, state: self.state, tags: self.tags }),
    {
        SPTargetUpdate { target_id: self.target_id, state: self.state, tags: self.tags }
    }
}

} // verus!
