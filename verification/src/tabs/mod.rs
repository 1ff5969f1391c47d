//! Wrapper for the browser's `tabs` API.
//!
//! Requests are built as [`crate::json::JsonValue`]s with proved shapes;
//! responses are read back with proved decoders.

use vstd::prelude::*;

use crate::json::{from_opt_bool, from_opt_str, opt_bool_view, opt_str_view, JsonValue, JsonView};

mod muted_info;
mod on_activated;
mod on_attached;
mod on_created;
mod on_detached;
mod on_highlighted;
mod on_moved;
mod on_removed;
mod on_replaced;
mod on_updated;
mod on_zoom_change;
mod query_details;
mod status;
mod tab;
mod window_type;

pub use self::muted_info::{muted_info_fields_ok, muted_info_of, MutedInfo, MutedInfoView};
pub use self::on_activated::{active_info_fields_ok, on_activated, ActiveInfo, OnActivated};
pub use self::on_attached::{attach_info_fields_ok, on_attached, AttachInfo, OnAttached};
pub use self::on_created::{on_created, OnCreated};
pub use self::on_detached::{detach_info_fields_ok, on_detached, DetachInfo, OnDetached};
pub use self::on_highlighted::{
    highlight_info_fields_ok, on_highlighted, tab_id_list_of, tab_id_list_ok, HighlightInfo,
    OnHighlighted,
};
pub use self::on_moved::{move_info_fields_ok, on_moved, MoveInfo, OnMoved};
pub use self::on_removed::{on_removed, remove_info_fields_ok, OnRemoved, RemoveInfo};
pub use self::on_replaced::{on_replaced, OnReplaced, ReplaceInfo};
pub use self::on_updated::{
    change_info_fields_ok, change_info_of, on_updated, opt_muted_info_of, opt_muted_info_ok,
    ChangeInfo, ChangeInfoView, OnUpdated,
};
pub use self::on_zoom_change::{on_zoom_change, OnZoomChange};
pub use self::query_details::QueryDetails;
pub use self::status::{
    from_opt_status, opt_status, opt_status_of, opt_status_view, InvalidStatusError, Status,
};
pub use self::tab::{tab_fields_ok, tab_list_of, tab_list_ok, tab_of, tabs_from_json, Tab, TabView};
pub use self::window_type::{from_opt_window_type, opt_window_type_view, WindowType};

verus! {

/// The ID of the tab.
///
/// Tab IDs are unique within a browser session.
#[derive(Debug, Clone, Copy, PartialEq, Eq, Structural)]
pub struct TabId(pub i32);

impl View for TabId {
    type V = int;

    open spec fn view(&self) -> int {
        self.0 as int
    }
}

impl From<i32> for TabId {
    fn from(id: i32) -> (r: Self) {
        TabId(id)
    }
}

impl vstd::std_specs::convert::FromSpecImpl<i32> for TabId {
    open spec fn obeys_from_spec() -> bool {
        true
    }

    open spec fn from_spec(id: i32) -> TabId {
        TabId(id)
    }
}

impl From<TabId> for i32 {
    fn from(id: TabId) -> (r: Self) {
        id.0
    }
}

impl vstd::std_specs::convert::FromSpecImpl<TabId> for i32 {
    open spec fn obeys_from_spec() -> bool {
        true
    }

    open spec fn from_spec(id: TabId) -> i32 {
        id.0
    }
}

/// An optional tab ID as a request sends it: the number, or null.
pub open spec fn opt_tab_id_view(o: Option<TabId>) -> JsonView {
    match o {
        Some(id) => JsonView::Int(id@),
        None => JsonView::Null,
    }
}

/// Builds the value of an optional tab-ID field.
pub fn from_opt_tab_id(o: &Option<TabId>) -> (v: JsonValue)
    ensures
        v@ == opt_tab_id_view(*o),
{
    match o {
        Some(id) => JsonValue::Int(i32::from(*id) as i64),
        None => JsonValue::Null,
    }
}

/// Information necessary to open a new tab.
#[derive(Debug, Clone)]
pub struct CreateProperties {
    pub active: bool,
    pub url: String,
}

impl CreateProperties {
    /// The request object for the host's `create` call.
    pub open spec fn json(self) -> JsonView {
        JsonView::Obj(
            seq![
                ("active"@, JsonView::Bool(self.active)),
                ("url"@, JsonView::Str(self.url@)),
            ],
        )
    }

    /// Builds the request object for the host's `create` call.
    pub fn to_json(&self) -> (v: JsonValue)
        ensures
            v@ == self.json(),
    {
        let mut members: Vec<(String, JsonValue)> = Vec::new();
        members.push(("active".to_owned(), JsonValue::Bool(self.active)));
        members.push(("url".to_owned(), JsonValue::Str(self.url.clone())));
        let v = JsonValue::Obj(members);
        proof {
            crate::json::lemma_members_of_seq(v->Obj_0@);
            let ghost ms = crate::json::members_of_vec(v->Obj_0);
            assert forall|i: int| 0 <= i < ms.len() implies ms[i] == self.json()->Obj_0[i] by {
                assert(ms[i] == crate::json::member_view(v->Obj_0@[i]));
            }
            assert(ms =~~= self.json()->Obj_0);
            assert(v@ =~~= self.json());
        }
        v
    }
}

/// Modifies the properties of a tab.
///
/// Properties that are not specified here are not modified.
#[derive(Debug, Clone, Default)]
pub struct UpdateProperties {
    /// Whether the tab should be active.
    pub active: Option<bool>,
    /// Whether the tab should be discarded automatically by the browser when resources are low.
    pub auto_discardable: Option<bool>,
    /// Adds or removes the tab from the current selection.
    pub highlighted: Option<bool>,
    /// Whether the tab should be muted.
    pub muted: Option<bool>,
    /// The ID of the tab that opened this tab.
    pub opener_tab_id: Option<TabId>,
    /// Whether the tab should be pinned.
    pub pinned: Option<bool>,
    /// Whether the tab should be selected.
    pub selected: Option<bool>,
    /// A URL to navigate the tab to.
    pub url: Option<String>,
}

impl UpdateProperties {
    /// The request object for the host's `update` call.
    pub open spec fn json(self) -> JsonView {
        JsonView::Obj(
            seq![
                ("active"@, opt_bool_view(self.active)),
                ("autoDiscardable"@, opt_bool_view(self.auto_discardable)),
                ("highlighted"@, opt_bool_view(self.highlighted)),
                ("muted"@, opt_bool_view(self.muted)),
                ("openerTabId"@, opt_tab_id_view(self.opener_tab_id)),
                ("pinned"@, opt_bool_view(self.pinned)),
                ("selected"@, opt_bool_view(self.selected)),
                ("url"@, opt_str_view(crate::json::view_opt_str(self.url))),
            ],
        )
    }

    /// Builds the request object for the host's `update` call.
    pub fn to_json(&self) -> (v: JsonValue)
        ensures
            v@ == self.json(),
    {
        let mut members: Vec<(String, JsonValue)> = Vec::new();
        members.push(("active".to_owned(), from_opt_bool(&self.active)));
        members.push(("autoDiscardable".to_owned(), from_opt_bool(&self.auto_discardable)));
        members.push(("highlighted".to_owned(), from_opt_bool(&self.highlighted)));
        members.push(("muted".to_owned(), from_opt_bool(&self.muted)));
        members.push(("openerTabId".to_owned(), from_opt_tab_id(&self.opener_tab_id)));
        members.push(("pinned".to_owned(), from_opt_bool(&self.pinned)));
        members.push(("selected".to_owned(), from_opt_bool(&self.selected)));
        members.push(("url".to_owned(), from_opt_str(&self.url)));
        let v = JsonValue::Obj(members);
        proof {
            crate::json::lemma_members_of_seq(v->Obj_0@);
            let ghost ms = crate::json::members_of_vec(v->Obj_0);
            assert forall|i: int| 0 <= i < ms.len() implies ms[i] == self.json()->Obj_0[i] by {
                assert(ms[i] == crate::json::member_view(v->Obj_0@[i]));
            }
            assert(ms =~~= self.json()->Obj_0);
            assert(v@ =~~= self.json());
        }
        v
    }
}

} // verus!
