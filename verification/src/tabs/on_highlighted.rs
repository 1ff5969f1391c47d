//! The host's "highlighted tabs changed" event.

use vstd::prelude::*;

use web_extensions_sys as sys;

use crate::error::Error;
use crate::json::{obj_get, req_i32, req_int_of, JsonValue, JsonView};
use crate::tabs::TabId;

verus! {

/// The host's `tabs.onHighlighted` event.
pub fn on_highlighted() -> OnHighlighted {
    OnHighlighted(raw_on_highlighted())
}

/// The host's `tabs.onHighlighted` event target.
pub struct OnHighlighted(pub sys::EventTarget);

/// Relies on `web_extensions_sys`: `chrome().tabs().on_highlighted()` is the
/// host's `tabs.onHighlighted` event target.
#[verifier::external_body]
fn raw_on_highlighted() -> sys::EventTarget {
    sys::chrome().tabs().on_highlighted()
}

/// What a highlight event carries.
#[derive(Debug, Clone, PartialEq, Eq)]
pub struct HighlightInfo {
    pub window_id: i32,
    pub tab_ids: Vec<TabId>,
}

/// Whether every element of a host array is a tab ID.
pub open spec fn tab_id_list_ok(a: Seq<JsonView>) -> bool {
    forall|i: int|
        0 <= i < a.len() ==> (#[trigger] a[i] matches JsonView::Int(x) && i32::MIN <= x
            <= i32::MAX)
}

/// The IDs a well-shaped host array holds, in order.
pub open spec fn tab_id_list_of(a: Seq<JsonView>) -> Seq<int> {
    Seq::new(a.len(), |i: int| a[i]->Int_0)
}

/// Whether a host object has the fields of a highlight record.
pub open spec fn highlight_info_fields_ok(o: Seq<(Seq<char>, JsonView)>) -> bool {
    &&& req_int_of(o, "windowId"@, i32::MIN as int, i32::MAX as int) is Ok
    &&& (obj_get(o, "tabIds"@) matches Some(t) && t matches JsonView::Arr(a) && tab_id_list_ok(a))
}

impl HighlightInfo {
    /// Reads a highlight record out of a host value.
    #[verifier::loop_isolation(false)]
    pub fn from_json(v: &JsonValue) -> (r: Result<HighlightInfo, Error>)
        ensures
            r is Ok <==> (v@ matches JsonView::Obj(ms) && highlight_info_fields_ok(ms)),
            r matches Ok(h) ==> {
                &&& h.window_id as int == req_int_of(
                    v@->Obj_0,
                    "windowId"@,
                    i32::MIN as int,
                    i32::MAX as int,
                )->Ok_0
                &&& h.tab_ids@.len() == obj_get(v@->Obj_0, "tabIds"@)->0->Arr_0.len()
                &&& forall|i: int| 0 <= i < h.tab_ids@.len() ==> #[trigger] h.tab_ids@[i]@
                    == tab_id_list_of(obj_get(v@->Obj_0, "tabIds"@)->0->Arr_0)[i]
            },
            r matches Err(e) ==> e is JsonDeserialization,
    {
        let o = match v.as_members() {
            Some(o) => o,
            None => {
                return Err(Error::bad_response("highlightInfo: expected an object"));
            },
        };
        let window_id = match req_i32(o, "windowId") {
            Ok(x) => x,
            Err(_) => {
                return Err(Error::bad_response("highlightInfo: malformed field"));
            },
        };
        let ids_value = match crate::json::get_member(o, "tabIds") {
            Some(x) => x,
            None => {
                return Err(Error::bad_response("highlightInfo: malformed field"));
            },
        };
        let items = match ids_value.as_elements() {
            Some(a) => a,
            None => {
                return Err(Error::bad_response("highlightInfo: malformed field"));
            },
        };
        proof {
            crate::json::lemma_views_of_seq(items@);
        }
        let ghost vs = crate::json::views_of_vec(*items);
        let n = items.len();
        let mut tab_ids: Vec<TabId> = Vec::new();
        let mut k: usize = 0;
        while k < n
            invariant
                n == items@.len(),
                0 <= k <= n,
                vs == crate::json::views_of_vec(*items),
                vs.len() == items@.len(),
                forall|i: int| 0 <= i < items@.len() ==> vs[i] == crate::json::view_of(items@[i]),
                tab_ids@.len() == k,
                forall|i: int|
                    0 <= i < k ==> (#[trigger] vs[i] matches JsonView::Int(x) && i32::MIN <= x
                        <= i32::MAX),
                forall|i: int| 0 <= i < k ==> #[trigger] tab_ids@[i]@ == vs[i]->Int_0,
            decreases n - k,
        {
            let id: i32 = match &items[k] {
                JsonValue::Int(x) => {
                    if i32::MIN as i64 <= *x && *x <= i32::MAX as i64 {
                        *x as i32
                    } else {
                        proof {
                            assert(!(vs[k as int] matches JsonView::Int(x) && i32::MIN <= x
                                <= i32::MAX));
                            assert(!tab_id_list_ok(vs));
                        }
                        return Err(Error::bad_response("highlightInfo: malformed field"));
                    }
                },
                JsonValue::UInt(x) => {
                    if *x <= i32::MAX as u64 {
                        *x as i32
                    } else {
                        proof {
                            assert(!(vs[k as int] matches JsonView::Int(x) && i32::MIN <= x
                                <= i32::MAX));
                            assert(!tab_id_list_ok(vs));
                        }
                        return Err(Error::bad_response("highlightInfo: malformed field"));
                    }
                },
                _ => {
                    proof {
                        assert(vs[k as int] == crate::json::view_of(items@[k as int]));
                        assert(!(vs[k as int] is Int));
                        assert(!tab_id_list_ok(vs));
                    }
                    return Err(Error::bad_response("highlightInfo: malformed field"));
                },
            };
            tab_ids.push(TabId::from(id));
            k = k + 1;
        }
        Ok(HighlightInfo { window_id, tab_ids })
    }
}

} // verus!
