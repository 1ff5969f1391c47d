//! The host's "tab attached to a window" event.

use vstd::prelude::*;

use web_extensions_sys as sys;

use crate::error::Error;
use crate::json::{req_i32, req_int_of, req_u32, JsonValue, JsonView};

verus! {

/// The host's `tabs.onAttached` event.
pub fn on_attached() -> OnAttached {
    OnAttached(raw_on_attached())
}

/// The host's `tabs.onAttached` event target.
pub struct OnAttached(pub sys::EventTarget);

/// Relies on `web_extensions_sys`: `chrome().tabs().on_attached()` is the
/// host's `tabs.onAttached` event target.
#[verifier::external_body]
fn raw_on_attached() -> sys::EventTarget {
    sys::chrome().tabs().on_attached()
}

/// What an attachment event carries.
#[derive(Debug, Clone, Copy, PartialEq, Eq, Structural)]
pub struct AttachInfo {
    pub new_window_id: i32,
    pub new_position: u32,
}

/// Whether a host object has the fields of an attachment record.
pub open spec fn attach_info_fields_ok(o: Seq<(Seq<char>, JsonView)>) -> bool {
    &&& req_int_of(o, "newWindowId"@, i32::MIN as int, i32::MAX as int) is Ok
    &&& req_int_of(o, "newPosition"@, 0, u32::MAX as int) is Ok
}

impl AttachInfo {
    /// Reads an attachment record out of a host value.
    pub fn from_json(v: &JsonValue) -> (r: Result<AttachInfo, Error>)
        ensures
            r is Ok <==> (v@ matches JsonView::Obj(ms) && attach_info_fields_ok(ms)),
            r matches Ok(a) ==> {
                &&& a.new_window_id as int == req_int_of(
                    v@->Obj_0,
                    "newWindowId"@,
                    i32::MIN as int,
                    i32::MAX as int,
                )->Ok_0
                &&& a.new_position as int == req_int_of(v@->Obj_0, "newPosition"@, 0, u32::MAX as int)->Ok_0
            },
            r matches Err(e) ==> e is JsonDeserialization,
    {
        let o = match v.as_members() {
            Some(o) => o,
            None => {
                return Err(Error::bad_response("attachInfo: expected an object"));
            },
        };
        let new_window_id = match req_i32(o, "newWindowId") {
            Ok(x) => x,
            Err(_) => {
                return Err(Error::bad_response("attachInfo: malformed field"));
            },
        };
        let new_position = match req_u32(o, "newPosition") {
            Ok(x) => x,
            Err(_) => {
                return Err(Error::bad_response("attachInfo: malformed field"));
            },
        };
        Ok(AttachInfo { new_window_id, new_position })
    }
}

} // verus!
