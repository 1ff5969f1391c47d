//! The host's "tab removed" event.

use vstd::prelude::*;

use web_extensions_sys as sys;

use crate::error::Error;
use crate::json::{req_bool, req_bool_of, req_i32, req_int_of, JsonValue, JsonView};

verus! {

/// The host's `tabs.onRemoved` event.
pub fn on_removed() -> OnRemoved {
    OnRemoved(raw_on_removed())
}

/// The host's `tabs.onRemoved` event target.
pub struct OnRemoved(pub sys::EventTarget);

/// Relies on `web_extensions_sys`: `chrome().tabs().on_removed()` is the
/// host's `tabs.onRemoved` event target.
#[verifier::external_body]
fn raw_on_removed() -> sys::EventTarget {
    sys::chrome().tabs().on_removed()
}

/// What a removal event carries.
#[derive(Debug, Clone, Copy, PartialEq, Eq, Structural)]
pub struct RemoveInfo {
    pub window_id: i32,
    pub is_window_closing: bool,
}

/// Whether a host object has the fields of a removal record.
pub open spec fn remove_info_fields_ok(o: Seq<(Seq<char>, JsonView)>) -> bool {
    &&& req_int_of(o, "windowId"@, i32::MIN as int, i32::MAX as int) is Ok
    &&& req_bool_of(o, "isWindowClosing"@) is Ok
}

impl RemoveInfo {
    /// Reads a removal record out of a host value.
    pub fn from_json(v: &JsonValue) -> (r: Result<RemoveInfo, Error>)
        ensures
            r is Ok <==> (v@ matches JsonView::Obj(ms) && remove_info_fields_ok(ms)),
            r matches Ok(a) ==> {
                &&& a.window_id as int == req_int_of(
                    v@->Obj_0,
                    "windowId"@,
                    i32::MIN as int,
                    i32::MAX as int,
                )->Ok_0
                &&& a.is_window_closing == req_bool_of(v@->Obj_0, "isWindowClosing"@)->Ok_0
            },
            r matches Err(e) ==> e is JsonDeserialization,
    {
        let o = match v.as_members() {
            Some(o) => o,
            None => {
                return Err(Error::bad_response("removeInfo: expected an object"));
            },
        };
        let window_id = match req_i32(o, "windowId") {
            Ok(x) => x,
            Err(_) => {
                return Err(Error::bad_response("removeInfo: malformed field"));
            },
        };
        let is_window_closing = match req_bool(o, "isWindowClosing") {
            Ok(x) => x,
            Err(_) => {
                return Err(Error::bad_response("removeInfo: malformed field"));
            },
        };
        Ok(RemoveInfo { window_id, is_window_closing })
    }
}

} // verus!
