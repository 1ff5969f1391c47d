//! The host's "tab zoom changed" event.

use vstd::prelude::*;

use web_extensions_sys as sys;

verus! {

/// The host's `tabs.onZoomChange` event.
pub fn on_zoom_change() -> OnZoomChange {
    OnZoomChange(raw_on_zoom_change())
}

/// The host's `tabs.onZoomChange` event target.
///
/// A listener receives the old and new zoom factors, which are fractional
/// and so are handed through unread.
pub struct OnZoomChange(pub sys::EventTarget);

/// Relies on `web_extensions_sys`: `chrome().tabs().on_zoom_change()` is the
/// host's `tabs.onZoomChange` event target.
#[verifier::external_body]
fn raw_on_zoom_change() -> sys::EventTarget {
    sys::chrome().tabs().on_zoom_change()
}

} // verus!
