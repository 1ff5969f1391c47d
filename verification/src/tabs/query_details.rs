//! What a tab query asks for.

use vstd::prelude::*;

use crate::json::{
    from_opt_bool, from_opt_i32, from_opt_str, opt_bool_view, opt_i32_view, opt_str_view,
    view_opt_str, JsonValue, JsonView,
};
use crate::tabs::{from_opt_status, from_opt_window_type, opt_status_view, opt_window_type_view,
    Status, WindowType};

verus! {

/// What the host's `query` call filters tabs by.
///
/// A field left empty does not constrain the query.
#[derive(Debug, Clone, Default)]
pub struct QueryDetails {
    pub active: Option<bool>,
    pub audible: Option<bool>,
    pub auto_discardable: Option<bool>,
    pub cookie_store_id: Option<String>,
    pub current_window: Option<bool>,
    pub discarded: Option<bool>,
    pub hidden: Option<bool>,
    pub highlighted: Option<bool>,
    pub index: Option<i32>,
    pub muted: Option<bool>,
    pub last_focused_window: Option<bool>,
    pub pinned: Option<bool>,
    pub status: Option<Status>,
    pub title: Option<String>,
    pub url: Option<String>,
    pub window_id: i32,
    pub window_type: Option<WindowType>,
}

impl QueryDetails {
    /// The request object for the host's `query` call.
    pub open spec fn json(self) -> JsonView {
        JsonView::Obj(
            seq![
                ("active"@, opt_bool_view(self.active)),
                ("audible"@, opt_bool_view(self.audible)),
                ("autoDiscardable"@, opt_bool_view(self.auto_discardable)),
                ("cookieStoreId"@, opt_str_view(view_opt_str(self.cookie_store_id))),
                ("currentWindow"@, opt_bool_view(self.current_window)),
                ("discarded"@, opt_bool_view(self.discarded)),
                ("hidden"@, opt_bool_view(self.hidden)),
                ("highlighted"@, opt_bool_view(self.highlighted)),
                ("index"@, opt_i32_view(self.index)),
                ("muted"@, opt_bool_view(self.muted)),
                ("lastFocusedWindow"@, opt_bool_view(self.last_focused_window)),
                ("pinned"@, opt_bool_view(self.pinned)),
                ("status"@, opt_status_view(self.status)),
                ("title"@, opt_str_view(view_opt_str(self.title))),
                ("url"@, opt_str_view(view_opt_str(self.url))),
                ("windowId"@, JsonView::Int(self.window_id as int)),
                ("windowType"@, opt_window_type_view(self.window_type)),
            ],
        )
    }

    /// Builds the request object for the host's `query` call.
    pub fn to_json(&self) -> (v: JsonValue)
        ensures
            v@ == self.json(),
    {
        let mut members: Vec<(String, JsonValue)> = Vec::new();
        members.push(("active".to_owned(), from_opt_bool(&self.active)));
        members.push(("audible".to_owned(), from_opt_bool(&self.audible)));
        members.push(("autoDiscardable".to_owned(), from_opt_bool(&self.auto_discardable)));
        members.push(("cookieStoreId".to_owned(), from_opt_str(&self.cookie_store_id)));
        members.push(("currentWindow".to_owned(), from_opt_bool(&self.current_window)));
        members.push(("discarded".to_owned(), from_opt_bool(&self.discarded)));
        members.push(("hidden".to_owned(), from_opt_bool(&self.hidden)));
        members.push(("highlighted".to_owned(), from_opt_bool(&self.highlighted)));
        members.push(("index".to_owned(), from_opt_i32(&self.index)));
        members.push(("muted".to_owned(), from_opt_bool(&self.muted)));
        members.push(("lastFocusedWindow".to_owned(), from_opt_bool(&self.last_focused_window)));
        members.push(("pinned".to_owned(), from_opt_bool(&self.pinned)));
        members.push(("status".to_owned(), from_opt_status(&self.status)));
        members.push(("title".to_owned(), from_opt_str(&self.title)));
        members.push(("url".to_owned(), from_opt_str(&self.url)));
        members.push(("windowId".to_owned(), JsonValue::Int(self.window_id as i64)));
        members.push(("windowType".to_owned(), from_opt_window_type(&self.window_type)));
        let v = JsonValue::Obj(members);
        proof {
            crate::json::lemma_members_of_seq(v->Obj_0@);
            let ghost ms = crate::json::members_of_vec(v->Obj_0);
            assert forall|i: int| 0 <= i < ms.len() implies ms[i] == self.json()->Obj_0[i] by {
                assert(ms[i] == crate::json::member_view(v->Obj_0@[i]));
            }
            assert(ms =~~= self.json()->Obj_0);
            assert(v@ =~~= self.json());
        }
        v
    }
}

} // verus!
