//! The host's "tab created" event.

use vstd::prelude::*;

use web_extensions_sys as sys;

verus! {

/// The host's `tabs.onCreated` event.
pub fn on_created() -> OnCreated {
    OnCreated(raw_on_created())
}

/// The host's `tabs.onCreated` event target.
///
/// A listener receives the new tab itself; see `Tab::from_json`.
pub struct OnCreated(pub sys::EventTarget);

/// Relies on `web_extensions_sys`: `chrome().tabs().on_created()` is the
/// host's `tabs.onCreated` event target.
#[verifier::external_body]
fn raw_on_created() -> sys::EventTarget {
    sys::chrome().tabs().on_created()
}

} // verus!
