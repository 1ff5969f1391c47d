//! The host's "tab activated" event.

use vstd::prelude::*;

use web_extensions_sys as sys;

use crate::error::Error;
use crate::json::{req_i32, req_int_of, JsonValue, JsonView};
use crate::tabs::TabId;

verus! {

/// The host's `tabs.onActivated` event.
pub fn on_activated() -> OnActivated {
    OnActivated(raw_on_activated())
}

/// The host's `tabs.onActivated` event target.
pub struct OnActivated(pub sys::EventTarget);

/// Relies on `web_extensions_sys`: `chrome().tabs().on_activated()` is the
/// host's `tabs.onActivated` event target.
#[verifier::external_body]
fn raw_on_activated() -> sys::EventTarget {
    sys::chrome().tabs().on_activated()
}

/// What an activation event carries.
#[derive(Debug, Clone, Copy, PartialEq, Eq, Structural)]
pub struct ActiveInfo {
    pub tab_id: TabId,
    pub window_id: i32,
}

/// Whether a host object has the fields of an activation record.
pub open spec fn active_info_fields_ok(o: Seq<(Seq<char>, JsonView)>) -> bool {
    &&& req_int_of(o, "tabId"@, i32::MIN as int, i32::MAX as int) is Ok
    &&& req_int_of(o, "windowId"@, i32::MIN as int, i32::MAX as int) is Ok
}

impl ActiveInfo {
    /// Reads an activation record out of a host value.
    pub fn from_json(v: &JsonValue) -> (r: Result<ActiveInfo, Error>)
        ensures
            r is Ok <==> (v@ matches JsonView::Obj(ms) && active_info_fields_ok(ms)),
            r matches Ok(a) ==> {
                &&& a.tab_id@ == req_int_of(v@->Obj_0, "tabId"@, i32::MIN as int, i32::MAX as int)->Ok_0
                &&& a.window_id as int == req_int_of(
                    v@->Obj_0,
                    "windowId"@,
                    i32::MIN as int,
                    i32::MAX as int,
                )->Ok_0
            },
            r matches Err(e) ==> e is JsonDeserialization,
    {
        let o = match v.as_members() {
            Some(o) => o,
            None => {
                return Err(Error::bad_response("activeInfo: expected an object"));
            },
        };
        let tab_id = match req_i32(o, "tabId") {
            Ok(x) => TabId::from(x),
            Err(_) => {
                return Err(Error::bad_response("activeInfo: malformed field"));
            },
        };
        let window_id = match req_i32(o, "windowId") {
            Ok(x) => x,
            Err(_) => {
                return Err(Error::bad_response("activeInfo: malformed field"));
            },
        };
        Ok(ActiveInfo { tab_id, window_id })
    }
}

} // verus!
