//! The host's event targets, as opaque handles.

use vstd::prelude::*;

verus! {

/// The host object that listeners are added to and removed from.
///
/// Declares `web_extensions_sys::EventTarget` so handles can be held and
/// passed through; nothing about a handle's state is assumed.
#[verifier::external_type_specification]
#[verifier::external_body]
pub struct ExEventTarget(web_extensions_sys::EventTarget);

} // verus!
