//! Why a tab is muted, as the host reports it.

use vstd::prelude::*;

use crate::error::Error;
use crate::json::{opt_str, opt_str_of, req_bool, req_bool_of, JsonValue, JsonView};

verus! {

/// A tab's muted state and how it came about.
#[derive(Debug, Clone, PartialEq, Eq)]
pub struct MutedInfo {
    pub muted: bool,
    pub extension_id: Option<String>,
    pub reason: Option<String>,
}

/// The mathematical content of a [`MutedInfo`].
pub struct MutedInfoView {
    pub muted: bool,
    pub extension_id: Option<Seq<char>>,
    pub reason: Option<Seq<char>>,
}

impl View for MutedInfo {
    type V = MutedInfoView;

    open spec fn view(&self) -> MutedInfoView {
        MutedInfoView {
            muted: self.muted,
            extension_id: match self.extension_id {
                Some(ref s) => Some(s@),
                None => None,
            },
            reason: match self.reason {
                Some(ref s) => Some(s@),
                None => None,
            },
        }
    }
}

/// Whether a host object has the fields of a muted-info record.
pub open spec fn muted_info_fields_ok(o: Seq<(Seq<char>, JsonView)>) -> bool {
    &&& req_bool_of(o, "muted"@) is Ok
    &&& opt_str_of(o, "extensionId"@) is Ok
    &&& opt_str_of(o, "reason"@) is Ok
}

/// The muted-info record a well-shaped host object describes.
pub open spec fn muted_info_of(o: Seq<(Seq<char>, JsonView)>) -> MutedInfoView {
    MutedInfoView {
        muted: req_bool_of(o, "muted"@)->Ok_0,
        extension_id: opt_str_of(o, "extensionId"@)->Ok_0,
        reason: opt_str_of(o, "reason"@)->Ok_0,
    }
}

impl MutedInfo {
    /// Reads a muted-info record out of a host value.
    pub fn from_json(v: &JsonValue) -> (r: Result<MutedInfo, Error>)
        ensures
            r is Ok <==> (v@ matches JsonView::Obj(ms) && muted_info_fields_ok(ms)),
            r matches Ok(m) ==> m@ == muted_info_of(v@->Obj_0),
            r matches Err(e) ==> e is JsonDeserialization,
    {
        let o = match v.as_members() {
            Some(o) => o,
            None => {
                return Err(Error::bad_response("mutedInfo: expected an object"));
            },
        };
        let muted = match req_bool(o, "muted") {
            Ok(x) => x,
            Err(_) => {
                return Err(Error::bad_response("mutedInfo: malformed field"));
            },
        };
        let extension_id = match opt_str(o, "extensionId") {
            Ok(x) => x,
            Err(_) => {
                return Err(Error::bad_response("mutedInfo: malformed field"));
            },
        };
        let reason = match opt_str(o, "reason") {
            Ok(x) => x,
            Err(_) => {
                return Err(Error::bad_response("mutedInfo: malformed field"));
            },
        };
        Ok(MutedInfo { muted, extension_id, reason })
    }
}

} // verus!
