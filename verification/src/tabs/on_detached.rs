//! The host's "tab detached from a window" event.

use vstd::prelude::*;

use web_extensions_sys as sys;

use crate::error::Error;
use crate::json::{req_i32, req_int_of, req_u32, JsonValue, JsonView};

verus! {

/// The host's `tabs.onDetached` event.
pub fn on_detached() -> OnDetached {
    OnDetached(raw_on_detached())
}

/// The host's `tabs.onDetached` event target.
pub struct OnDetached(pub sys::EventTarget);

/// Relies on `web_extensions_sys`: `chrome().tabs().on_detached()` is the
/// host's `tabs.onDetached` event target.
#[verifier::external_body]
fn raw_on_detached() -> sys::EventTarget {
    sys::chrome().tabs().on_detached()
}

/// What a detachment event carries.
#[derive(Debug, Clone, Copy, PartialEq, Eq, Structural)]
pub struct DetachInfo {
    pub old_window_id: i32,
    pub old_position: u32,
}

/// Whether a host object has the fields of a detachment record.
pub open spec fn detach_info_fields_ok(o: Seq<(Seq<char>, JsonView)>) -> bool {
    &&& req_int_of(o, "oldWindowId"@, i32::MIN as int, i32::MAX as int) is Ok
    &&& req_int_of(o, "oldPosition"@, 0, u32::MAX as int) is Ok
}

impl DetachInfo {
    /// Reads a detachment record out of a host value.
    pub fn from_json(v: &JsonValue) -> (r: Result<DetachInfo, Error>)
        ensures
            r is Ok <==> (v@ matches JsonView::Obj(ms) && detach_info_fields_ok(ms)),
            r matches Ok(a) ==> {
                &&& a.old_window_id as int == req_int_of(
                    v@->Obj_0,
                    "oldWindowId"@,
                    i32::MIN as int,
                    i32::MAX as int,
                )->Ok_0
                &&& a.old_position as int == req_int_of(v@->Obj_0, "oldPosition"@, 0, u32::MAX as int)->Ok_0
            },
            r matches Err(e) ==> e is JsonDeserialization,
    {
        let o = match v.as_members() {
            Some(o) => o,
            None => {
                return Err(Error::bad_response("detachInfo: expected an object"));
            },
        };
        let old_window_id = match req_i32(o, "oldWindowId") {
            Ok(x) => x,
            Err(_) => {
                return Err(Error::bad_response("detachInfo: malformed field"));
            },
        };
        let old_position = match req_u32(o, "oldPosition") {
            Ok(x) => x,
            Err(_) => {
                return Err(Error::bad_response("detachInfo: malformed field"));
            },
        };
        Ok(DetachInfo { old_window_id, old_position })
    }
}

} // verus!
