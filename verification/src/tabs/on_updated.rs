//! The host's "tab updated" event.

use vstd::prelude::*;

use web_extensions_sys as sys;

use crate::error::Error;
use crate::json::{
    obj_get, opt_bool, opt_bool_of, opt_i32, opt_int_of, opt_str, opt_str_of, JsonValue, JsonView,
};
use crate::tabs::{
    muted_info_fields_ok, muted_info_of, opt_status, opt_status_of, MutedInfo, MutedInfoView,
    Status,
};

verus! {

/// The host's `tabs.onUpdated` event.
pub fn on_updated() -> OnUpdated {
    OnUpdated(raw_on_updated())
}

/// The host's `tabs.onUpdated` event target.
pub struct OnUpdated(pub sys::EventTarget);

/// Relies on `web_extensions_sys`: `chrome().tabs().on_updated()` is the
/// host's `tabs.onUpdated` event target.
#[verifier::external_body]
fn raw_on_updated() -> sys::EventTarget {
    sys::chrome().tabs().on_updated()
}

/// What an update event says changed about a tab.
#[derive(Debug, Clone, PartialEq, Eq)]
pub struct ChangeInfo {
    /// The tab's new audible state.
    pub audible: Option<bool>,
    /// The tab's new auto-discardable state.
    pub auto_discardable: Option<bool>,
    /// The tab's new discarded state.
    pub discarded: Option<bool>,
    /// The tab's new favicon URL.
    pub fav_icon_url: Option<String>,
    /// The tab's new group.
    pub group_id: Option<i32>,
    /// The tab's new muted state and the reason for the change.
    pub muted_info: Option<MutedInfo>,
    /// The tab's new pinned state.
    pub pinned: Option<bool>,
    /// The tab's loading status.
    pub status: Option<Status>,
    /// The tab's new title.
    pub title: Option<String>,
    /// The tab's URL if it has changed.
    pub url: Option<String>,
}

/// The mathematical content of a [`ChangeInfo`].
pub struct ChangeInfoView {
    pub audible: Option<bool>,
    pub auto_discardable: Option<bool>,
    pub discarded: Option<bool>,
    pub fav_icon_url: Option<Seq<char>>,
    pub group_id: Option<int>,
    pub muted_info: Option<MutedInfoView>,
    pub pinned: Option<bool>,
    pub status: Option<Status>,
    pub title: Option<Seq<char>>,
    pub url: Option<Seq<char>>,
}

impl View for ChangeInfo {
    type V = ChangeInfoView;

    open spec fn view(&self) -> ChangeInfoView {
        ChangeInfoView {
            audible: self.audible,
            auto_discardable: self.auto_discardable,
            discarded: self.discarded,
            fav_icon_url: match self.fav_icon_url {
                Some(ref s) => Some(s@),
                None => None,
            },
            group_id: match self.group_id {
                Some(x) => Some(x as int),
                None => None,
            },
            muted_info: match self.muted_info {
                Some(ref m) => Some(m@),
                None => None,
            },
            pinned: self.pinned,
            status: self.status,
            title: match self.title {
                Some(ref s) => Some(s@),
                None => None,
            },
            url: match self.url {
                Some(ref s) => Some(s@),
                None => None,
            },
        }
    }
}

/// Whether the optional muted-info member of a host object is absent, null,
/// or a well-shaped muted-info record.
pub open spec fn opt_muted_info_ok(o: Seq<(Seq<char>, JsonView)>) -> bool {
    match obj_get(o, "mutedInfo"@) {
        None => true,
        Some(JsonView::Null) => true,
        Some(JsonView::Obj(mo)) => muted_info_fields_ok(mo),
        Some(_) => false,
    }
}

/// The muted-info record such a member describes, when there is one.
pub open spec fn opt_muted_info_of(o: Seq<(Seq<char>, JsonView)>) -> Option<MutedInfoView> {
    match obj_get(o, "mutedInfo"@) {
        Some(JsonView::Obj(mo)) => Some(muted_info_of(mo)),
        _ => None,
    }
}

/// Whether a host object has the fields of a change record.
pub open spec fn change_info_fields_ok(o: Seq<(Seq<char>, JsonView)>) -> bool {
    &&& opt_bool_of(o, "audible"@) is Ok
    &&& opt_bool_of(o, "autoDiscardable"@) is Ok
    &&& opt_bool_of(o, "discarded"@) is Ok
    &&& opt_str_of(o, "favIconUrl"@) is Ok
    &&& opt_int_of(o, "groupId"@, i32::MIN as int, i32::MAX as int) is Ok
    &&& opt_muted_info_ok(o)
    &&& opt_bool_of(o, "pinned"@) is Ok
    &&& opt_status_of(o, "status"@) is Ok
    &&& opt_str_of(o, "title"@) is Ok
    &&& opt_str_of(o, "url"@) is Ok
}

/// The change record a well-shaped host object describes.
pub open spec fn change_info_of(o: Seq<(Seq<char>, JsonView)>) -> ChangeInfoView {
    ChangeInfoView {
        audible: opt_bool_of(o, "audible"@)->Ok_0,
        auto_discardable: opt_bool_of(o, "autoDiscardable"@)->Ok_0,
        discarded: opt_bool_of(o, "discarded"@)->Ok_0,
        fav_icon_url: opt_str_of(o, "favIconUrl"@)->Ok_0,
        group_id: opt_int_of(o, "groupId"@, i32::MIN as int, i32::MAX as int)->Ok_0,
        muted_info: opt_muted_info_of(o),
        pinned: opt_bool_of(o, "pinned"@)->Ok_0,
        status: opt_status_of(o, "status"@)->Ok_0,
        title: opt_str_of(o, "title"@)->Ok_0,
        url: opt_str_of(o, "url"@)->Ok_0,
    }
}

impl ChangeInfo {
    /// Reads a change record out of a host value.
    pub fn from_json(v: &JsonValue) -> (r: Result<ChangeInfo, Error>)
        ensures
            r is Ok <==> (v@ matches JsonView::Obj(ms) && change_info_fields_ok(ms)),
            r matches Ok(c) ==> c@ == change_info_of(v@->Obj_0),
            r matches Err(e) ==> e is JsonDeserialization,
    {
        let o = match v.as_members() {
            Some(o) => o,
            None => {
                return Err(Error::bad_response("changeInfo: expected an object"));
            },
        };
        let audible = match opt_bool(o, "audible") {
            Ok(x) => x,
            Err(_) => {
                return Err(Error::bad_response("changeInfo: malformed field"));
            },
        };
        let auto_discardable = match opt_bool(o, "autoDiscardable") {
            Ok(x) => x,
            Err(_) => {
                return Err(Error::bad_response("changeInfo: malformed field"));
            },
        };
        let discarded = match opt_bool(o, "discarded") {
            Ok(x) => x,
            Err(_) => {
                return Err(Error::bad_response("changeInfo: malformed field"));
            },
        };
        let fav_icon_url = match opt_str(o, "favIconUrl") {
            Ok(x) => x,
            Err(_) => {
                return Err(Error::bad_response("changeInfo: malformed field"));
            },
        };
        let group_id = match opt_i32(o, "groupId") {
            Ok(x) => x,
            Err(_) => {
                return Err(Error::bad_response("changeInfo: malformed field"));
            },
        };
        let muted_info = match crate::json::get_member(o, "mutedInfo") {
            None => None,
            Some(JsonValue::Null) => None,
            Some(m) => match MutedInfo::from_json(m) {
                Ok(mi) => Some(mi),
                Err(_) => {
                    return Err(Error::bad_response("changeInfo: malformed field"));
                },
            },
        };
        let pinned = match opt_bool(o, "pinned") {
            Ok(x) => x,
            Err(_) => {
                return Err(Error::bad_response("changeInfo: malformed field"));
            },
        };
        let status = match opt_status(o, "status") {
            Ok(x) => x,
            Err(_) => {
                return Err(Error::bad_response("changeInfo: malformed field"));
            },
        };
        let title = match opt_str(o, "title") {
            Ok(x) => x,
            Err(_) => {
                return Err(Error::bad_response("changeInfo: malformed field"));
            },
        };
        let url = match opt_str(o, "url") {
            Ok(x) => x,
            Err(_) => {
                return Err(Error::bad_response("changeInfo: malformed field"));
            },
        };
        Ok(
            ChangeInfo {
                audible,
                auto_discardable,
                discarded,
                fav_icon_url,
                group_id,
                muted_info,
                pinned,
                status,
                title,
                url,
            },
        )
    }
}

} // verus!
