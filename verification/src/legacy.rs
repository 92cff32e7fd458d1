//! The legacy marker: while it is present and this host is registered
//! nowhere, monitoring data may still go out unauthenticated. Workflows
//! remove the marker; none creates it.

use crate::action::{Action, ActionView};
use crate::trust_store::{RegistrationState, StoreEntryView};
use vstd::prelude::*;

verus! {

/// Unauthenticated delivery is permitted: the marker is present and the
/// trust store is empty.
pub open spec fn legacy_eligible(marker_present: bool, store: Seq<StoreEntryView>) -> bool {
    marker_present && store.len() == 0
}

/// Whether a pull is answered over the legacy channel.
pub fn is_legacy_pull(marker_present: bool, reg_state: &RegistrationState) -> (r: bool)
    ensures
        r == legacy_eligible(marker_present, reg_state@),
{
    if !marker_present {
        return false;
    }
    if !reg_state.is_empty() {
        return false;
    }
    true
}

/// What is left to do to disallow legacy pulls: to remove the marker where
/// it is present, and nothing where it is absent.
pub fn disallow_legacy_pull(marker_present: bool) -> (r: Option<Action>)
    ensures
        match r {
            Some(action) => marker_present && action@ == ActionView::RemoveMarker,
            None => !marker_present,
        },
{
    if !marker_present {
        return None;
    }
    Some(Action::RemoveMarker)
}

} // verus!
