//! The host's "tab replaced" event.

use vstd::prelude::*;

use web_extensions_sys as sys;

use crate::tabs::TabId;

verus! {

/// The host's `tabs.onReplaced` event.
pub fn on_replaced() -> OnReplaced {
    OnReplaced(raw_on_replaced())
}

/// The host's `tabs.onReplaced` event target.
pub struct OnReplaced(pub sys::EventTarget);

/// Relies on `web_extensions_sys`: `chrome().tabs().on_replaced()` is the
/// host's `tabs.onReplaced` event target.
#[verifier::external_body]
fn raw_on_replaced() -> sys::EventTarget {
    sys::chrome().tabs().on_replaced()
}

/// What a replacement event carries: the tab that took the place and the
/// tab that lost it.
#[derive(Debug, Clone, Copy, PartialEq, Eq, Structural)]
pub struct ReplaceInfo {
    pub added: TabId,
    pub removed: TabId,
}

impl ReplaceInfo {
    /// Pairs the raw IDs the host hands a listener.
    pub fn from_parts(added_tab_id: i32, removed_tab_id: i32) -> (r: ReplaceInfo)
        ensures
            r.added@ == added_tab_id as int,
            r.removed@ == removed_tab_id as int,
    {
        ReplaceInfo { added: TabId::from(added_tab_id), removed: TabId::from(removed_tab_id) }
    }
}

} // verus!
