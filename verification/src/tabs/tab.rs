//! A tab, as the host describes one.

use vstd::prelude::*;

use crate::error::Error;
use crate::json::{
    opt_bool, opt_bool_of, opt_i32, opt_int_of, opt_str, opt_str_of, opt_u32, req_bool,
    req_bool_of, req_i32, req_int_of, req_u32, view_opt_str, JsonValue, JsonView,
};
use crate::tabs::{opt_status, opt_status_of, Status, TabId};

verus! {

/// A tab, as the host's `get` and `query` calls return it.
#[derive(Debug, Clone, PartialEq, Eq)]
pub struct Tab {
    pub active: bool,
    pub audible: Option<bool>,
    pub auto_discardable: bool,
    pub discarded: bool,
    pub fav_icon_url: Option<String>,
    pub group_id: i32,
    pub height: Option<u32>,
    pub highlighted: bool,
    pub id: Option<TabId>,
    pub incognito: bool,
    pub index: u32,
    pub opener_tab_id: Option<TabId>,
    pub pending_url: Option<String>,
    pub pinned: bool,
    pub session_id: Option<String>,
    pub status: Option<Status>,
    pub title: Option<String>,
    pub url: Option<String>,
    pub width: Option<u32>,
    pub window_id: i32,
}

/// The mathematical content of a [`Tab`].
pub struct TabView {
    pub active: bool,
    pub audible: Option<bool>,
    pub auto_discardable: bool,
    pub discarded: bool,
    pub fav_icon_url: Option<Seq<char>>,
    pub group_id: int,
    pub height: Option<int>,
    pub highlighted: bool,
    pub id: Option<int>,
    pub incognito: bool,
    pub index: int,
    pub opener_tab_id: Option<int>,
    pub pending_url: Option<Seq<char>>,
    pub pinned: bool,
    pub session_id: Option<Seq<char>>,
    pub status: Option<Status>,
    pub title: Option<Seq<char>>,
    pub url: Option<Seq<char>>,
    pub width: Option<int>,
    pub window_id: int,
}

/// The view of an optional `u32`.
pub open spec fn view_opt_u32(o: Option<u32>) -> Option<int> {
    match o {
        Some(x) => Some(x as int),
        None => None,
    }
}

/// The view of an optional tab ID.
pub open spec fn view_opt_tab_id(o: Option<TabId>) -> Option<int> {
    match o {
        Some(id) => Some(id@),
        None => None,
    }
}

impl View for Tab {
    type V = TabView;

    open spec fn view(&self) -> TabView {
        TabView {
            active: self.active,
            audible: self.audible,
            auto_discardable: self.auto_discardable,
            discarded: self.discarded,
            fav_icon_url: view_opt_str(self.fav_icon_url),
            group_id: self.group_id as int,
            height: view_opt_u32(self.height),
            highlighted: self.highlighted,
            id: view_opt_tab_id(self.id),
            incognito: self.incognito,
            index: self.index as int,
            opener_tab_id: view_opt_tab_id(self.opener_tab_id),
            pending_url: view_opt_str(self.pending_url),
            pinned: self.pinned,
            session_id: view_opt_str(self.session_id),
            status: self.status,
            title: view_opt_str(self.title),
            url: view_opt_str(self.url),
            width: view_opt_u32(self.width),
            window_id: self.window_id as int,
        }
    }
}

/// Whether a host object has every field a tab needs, each of the right
/// kind and in range.
pub open spec fn tab_fields_ok(o: Seq<(Seq<char>, JsonView)>) -> bool {
    &&& req_bool_of(o, "active"@) is Ok
    &&& opt_bool_of(o, "audible"@) is Ok
    &&& req_bool_of(o, "autoDiscardable"@) is Ok
    &&& req_bool_of(o, "discarded"@) is Ok
    &&& opt_str_of(o, "favIconUrl"@) is Ok
    &&& req_int_of(o, "groupId"@, i32::MIN as int, i32::MAX as int) is Ok
    &&& opt_int_of(o, "height"@, 0, u32::MAX as int) is Ok
    &&& req_bool_of(o, "highlighted"@) is Ok
    &&& opt_int_of(o, "id"@, i32::MIN as int, i32::MAX as int) is Ok
    &&& req_bool_of(o, "incognito"@) is Ok
    &&& req_int_of(o, "index"@, 0, u32::MAX as int) is Ok
    &&& opt_int_of(o, "openerTabId"@, i32::MIN as int, i32::MAX as int) is Ok
    &&& opt_str_of(o, "pendingUrl"@) is Ok
    &&& req_bool_of(o, "pinned"@) is Ok
    &&& opt_str_of(o, "sessionId"@) is Ok
    &&& opt_status_of(o, "status"@) is Ok
    &&& opt_str_of(o, "title"@) is Ok
    &&& opt_str_of(o, "url"@) is Ok
    &&& opt_int_of(o, "width"@, 0, u32::MAX as int) is Ok
    &&& req_int_of(o, "windowId"@, i32::MIN as int, i32::MAX as int) is Ok
}

/// The tab a well-shaped host object describes.
pub open spec fn tab_of(o: Seq<(Seq<char>, JsonView)>) -> TabView {
    TabView {
        active: req_bool_of(o, "active"@)->Ok_0,
        audible: opt_bool_of(o, "audible"@)->Ok_0,
        auto_discardable: req_bool_of(o, "autoDiscardable"@)->Ok_0,
        discarded: req_bool_of(o, "discarded"@)->Ok_0,
        fav_icon_url: opt_str_of(o, "favIconUrl"@)->Ok_0,
        group_id: req_int_of(o, "groupId"@, i32::MIN as int, i32::MAX as int)->Ok_0,
        height: opt_int_of(o, "height"@, 0, u32::MAX as int)->Ok_0,
        highlighted: req_bool_of(o, "highlighted"@)->Ok_0,
        id: opt_int_of(o, "id"@, i32::MIN as int, i32::MAX as int)->Ok_0,
        incognito: req_bool_of(o, "incognito"@)->Ok_0,
        index: req_int_of(o, "index"@, 0, u32::MAX as int)->Ok_0,
        opener_tab_id: opt_int_of(o, "openerTabId"@, i32::MIN as int, i32::MAX as int)->Ok_0,
        pending_url: opt_str_of(o, "pendingUrl"@)->Ok_0,
        pinned: req_bool_of(o, "pinned"@)->Ok_0,
        session_id: opt_str_of(o, "sessionId"@)->Ok_0,
        status: opt_status_of(o, "status"@)->Ok_0,
        title: opt_str_of(o, "title"@)->Ok_0,
        url: opt_str_of(o, "url"@)->Ok_0,
        width: opt_int_of(o, "width"@, 0, u32::MAX as int)->Ok_0,
        window_id: req_int_of(o, "windowId"@, i32::MIN as int, i32::MAX as int)->Ok_0,
    }
}

impl Tab {
    /// Reads a tab out of a host response object.
    ///
    /// Succeeds exactly on objects whose fields `tab_fields_ok` accepts, and
    /// then returns exactly the tab those fields describe.
    pub fn from_json(v: &JsonValue) -> (r: Result<Tab, Error>)
        ensures
            r is Ok <==> (v@ matches JsonView::Obj(ms) && tab_fields_ok(ms)),
            r matches Ok(t) ==> t@ == tab_of(v@->Obj_0),
            r matches Err(e) ==> e is JsonDeserialization,
    {
        let o = match v.as_members() {
            Some(o) => o,
            None => {
                return Err(Error::bad_response("tab: expected an object"));
            },
        };
        let active = match req_bool(o, "active") {
            Ok(x) => x,
            Err(_) => {
                return Err(Error::bad_response("tab: malformed field"));
            },
        };
        let audible = match opt_bool(o, "audible") {
            Ok(x) => x,
            Err(_) => {
                return Err(Error::bad_response("tab: malformed field"));
            },
        };
        let auto_discardable = match req_bool(o, "autoDiscardable") {
            Ok(x) => x,
            Err(_) => {
                return Err(Error::bad_response("tab: malformed field"));
            },
        };
        let discarded = match req_bool(o, "discarded") {
            Ok(x) => x,
            Err(_) => {
                return Err(Error::bad_response("tab: malformed field"));
            },
        };
        let fav_icon_url = match opt_str(o, "favIconUrl") {
            Ok(x) => x,
            Err(_) => {
                return Err(Error::bad_response("tab: malformed field"));
            },
        };
        let group_id = match req_i32(o, "groupId") {
            Ok(x) => x,
            Err(_) => {
                return Err(Error::bad_response("tab: malformed field"));
            },
        };
        let height = match opt_u32(o, "height") {
            Ok(x) => x,
            Err(_) => {
                return Err(Error::bad_response("tab: malformed field"));
            },
        };
        let highlighted = match req_bool(o, "highlighted") {
            Ok(x) => x,
            Err(_) => {
                return Err(Error::bad_response("tab: malformed field"));
            },
        };
        let id = match opt_i32(o, "id") {
            Ok(Some(x)) => Some(TabId::from(x)),
            Ok(None) => None,
            Err(_) => {
                return Err(Error::bad_response("tab: malformed field"));
            },
        };
        let incognito = match req_bool(o, "incognito") {
            Ok(x) => x,
            Err(_) => {
                return Err(Error::bad_response("tab: malformed field"));
            },
        };
        let index = match req_u32(o, "index") {
            Ok(x) => x,
            Err(_) => {
                return Err(Error::bad_response("tab: malformed field"));
            },
        };
        let opener_tab_id = match opt_i32(o, "openerTabId") {
            Ok(Some(x)) => Some(TabId::from(x)),
            Ok(None) => None,
            Err(_) => {
                return Err(Error::bad_response("tab: malformed field"));
            },
        };
        let pending_url = match opt_str(o, "pendingUrl") {
            Ok(x) => x,
            Err(_) => {
                return Err(Error::bad_response("tab: malformed field"));
            },
        };
        let pinned = match req_bool(o, "pinned") {
            Ok(x) => x,
            Err(_) => {
                return Err(Error::bad_response("tab: malformed field"));
            },
        };
        let session_id = match opt_str(o, "sessionId") {
            Ok(x) => x,
            Err(_) => {
                return Err(Error::bad_response("tab: malformed field"));
            },
        };
        let status = match opt_status(o, "status") {
            Ok(x) => x,
            Err(_) => {
                return Err(Error::bad_response("tab: malformed field"));
            },
        };
        let title = match opt_str(o, "title") {
            Ok(x) => x,
            Err(_) => {
                return Err(Error::bad_response("tab: malformed field"));
            },
        };
        let url = match opt_str(o, "url") {
            Ok(x) => x,
            Err(_) => {
                return Err(Error::bad_response("tab: malformed field"));
            },
        };
        let width = match opt_u32(o, "width") {
            Ok(x) => x,
            Err(_) => {
                return Err(Error::bad_response("tab: malformed field"));
            },
        };
        let window_id = match req_i32(o, "windowId") {
            Ok(x) => x,
            Err(_) => {
                return Err(Error::bad_response("tab: malformed field"));
            },
        };
        Ok(
            Tab {
                active,
                audible,
                auto_discardable,
                discarded,
                fav_icon_url,
                group_id,
                height,
                highlighted,
                id,
                incognito,
                index,
                opener_tab_id,
                pending_url,
                pinned,
                session_id,
                status,
                title,
                url,
                width,
                window_id,
            },
        )
    }
}

/// Whether every element of a host array is a well-shaped tab object.
pub open spec fn tab_list_ok(a: Seq<JsonView>) -> bool {
    forall|i: int|
        0 <= i < a.len() ==> (#[trigger] a[i] matches JsonView::Obj(ms) && tab_fields_ok(ms))
}

/// The tabs a well-shaped host array describes.
pub open spec fn tab_list_of(a: Seq<JsonView>) -> Seq<TabView> {
    Seq::new(a.len(), |i: int| tab_of(a[i]->Obj_0))
}

/// Reads the host's answer to a tab query: an array of tabs.
#[verifier::loop_isolation(false)]
pub fn tabs_from_json(v: &JsonValue) -> (r: Result<Vec<Tab>, Error>)
    ensures
        r is Ok <==> (v@ matches JsonView::Arr(a) && tab_list_ok(a)),
        r matches Ok(ts) ==> {
            &&& ts@.len() == v@->Arr_0.len()
            &&& forall|i: int| 0 <= i < ts@.len() ==> #[trigger] ts@[i]@ == tab_list_of(
                v@->Arr_0,
            )[i]
        },
        r matches Err(e) ==> e is JsonDeserialization,
{
    let items = match v.as_elements() {
        Some(a) => a,
        None => {
            return Err(Error::bad_response("tabs: expected an array"));
        },
    };
    proof {
        crate::json::lemma_views_of_seq(items@);
    }
    let ghost vs = crate::json::views_of_vec(*items);
    let n = items.len();
    let mut out: Vec<Tab> = Vec::new();
    let mut k: usize = 0;
    while k < n
        invariant
            n == items@.len(),
            0 <= k <= n,
            vs == crate::json::views_of_vec(*items),
            vs.len() == items@.len(),
            forall|i: int| 0 <= i < items@.len() ==> vs[i] == crate::json::view_of(items@[i]),
            out@.len() == k,
            forall|i: int|
                0 <= i < k ==> (#[trigger] vs[i] matches JsonView::Obj(ms) && tab_fields_ok(ms)),
            forall|i: int| 0 <= i < k ==> #[trigger] out@[i]@ == tab_of(vs[i]->Obj_0),
        decreases n - k,
    {
        match Tab::from_json(&items[k]) {
            Ok(t) => {
                out.push(t);
            },
            Err(e) => {
                proof {
                    assert(vs[k as int] == crate::json::view_of(items@[k as int]));
                    assert(!(vs[k as int] matches JsonView::Obj(ms) && tab_fields_ok(ms)));
                    assert(!tab_list_ok(vs));
                }
                return Err(e);
            },
        }
        k = k + 1;
    }
    Ok(out)
}

} // verus!
