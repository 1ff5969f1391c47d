//! The host's "tab moved within a window" event.

use vstd::prelude::*;

use web_extensions_sys as sys;

use crate::error::Error;
use crate::json::{req_i32, req_int_of, req_u32, JsonValue, JsonView};

verus! {

/// The host's `tabs.onMoved` event.
pub fn on_moved() -> OnMoved {
    OnMoved(raw_on_moved())
}

/// The host's `tabs.onMoved` event target.
pub struct OnMoved(pub sys::EventTarget);

/// Relies on `web_extensions_sys`: `chrome().tabs().on_moved()` is the
/// host's `tabs.onMoved` event target.
#[verifier::external_body]
fn raw_on_moved() -> sys::EventTarget {
    sys::chrome().tabs().on_moved()
}

/// What a move event carries.
#[derive(Debug, Clone, Copy, PartialEq, Eq, Structural)]
pub struct MoveInfo {
    pub window_id: i32,
    pub from_index: u32,
    pub to_index: u32,
}

/// Whether a host object has the fields of a move record.
pub open spec fn move_info_fields_ok(o: Seq<(Seq<char>, JsonView)>) -> bool {
    &&& req_int_of(o, "windowId"@, i32::MIN as int, i32::MAX as int) is Ok
    &&& req_int_of(o, "fromIndex"@, 0, u32::MAX as int) is Ok
    &&& req_int_of(o, "toIndex"@, 0, u32::MAX as int) is Ok
}

impl MoveInfo {
    /// Reads a move record out of a host value.
    pub fn from_json(v: &JsonValue) -> (r: Result<MoveInfo, Error>)
        ensures
            r is Ok <==> (v@ matches JsonView::Obj(ms) && move_info_fields_ok(ms)),
            r matches Ok(a) ==> {
                &&& a.window_id as int == req_int_of(
                    v@->Obj_0,
                    "windowId"@,
                    i32::MIN as int,
                    i32::MAX as int,
                )->Ok_0
                &&& a.from_index as int == req_int_of(v@->Obj_0, "fromIndex"@, 0, u32::MAX as int)->Ok_0
                &&& a.to_index as int == req_int_of(v@->Obj_0, "toIndex"@, 0, u32::MAX as int)->Ok_0
            },
            r matches Err(e) ==> e is JsonDeserialization,
    {
        let o = match v.as_members() {
            Some(o) => o,
            None => {
                return Err(Error::bad_response("moveInfo: expected an object"));
            },
        };
        let window_id = match req_i32(o, "windowId") {
            Ok(x) => x,
            Err(_) => {
                return Err(Error::bad_response("moveInfo: malformed field"));
            },
        };
        let from_index = match req_u32(o, "fromIndex") {
            Ok(x) => x,
            Err(_) => {
                return Err(Error::bad_response("moveInfo: malformed field"));
            },
        };
        let to_index = match req_u32(o, "toIndex") {
            Ok(x) => x,
            Err(_) => {
                return Err(Error::bad_response("moveInfo: malformed field"));
            },
        };
        Ok(MoveInfo { window_id, from_index, to_index })
    }
}

} // verus!
