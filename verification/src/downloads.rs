//! Wrapper for the browser's `downloads` API.

use vstd::prelude::*;

use crate::error::Error;
use crate::json::{
    from_opt_str, from_str_vec, opt_str_view, req_str, req_str_of, str_views, view_opt_str,
    JsonValue, JsonView,
};

verus! {

/// What the host's `search` call looks for among downloads.
#[derive(Debug, Clone)]
pub struct Query {
    /// Words and quoted phrases matched against filenames and URLs.
    pub query: Option<Vec<String>>,
    /// Limits results to downloads that began before this time.
    pub start_time: Option<String>,
}

impl Query {
    /// A query for the given search term alone.
    pub fn from(q: &str) -> (r: Query)
        ensures
            r.query matches Some(terms) && terms@.len() == 1 && terms@[0]@ == q@,
            r.start_time is None,
    {
        let mut terms: Vec<String> = Vec::new();
        terms.push(q.to_owned());
        Query { query: Some(terms), start_time: None }
    }

    /// The request object for the host's `search` call.
    pub open spec fn json(self) -> JsonView {
        JsonView::Obj(
            seq![
                (
                    "query"@,
                    match self.query {
                        Some(terms) => JsonView::Arr(str_views(terms.deep_view())),
                        None => JsonView::Null,
                    },
                ),
                ("startTime"@, opt_str_view(view_opt_str(self.start_time))),
            ],
        )
    }

    /// Builds the request object for the host's `search` call.
    pub fn to_json(&self) -> (v: JsonValue)
        ensures
            v@ == self.json(),
    {
        let mut members: Vec<(String, JsonValue)> = Vec::new();
        let query_value = match &self.query {
            Some(terms) => from_str_vec(terms),
            None => JsonValue::Null,
        };
        members.push(("query".to_owned(), query_value));
        members.push(("startTime".to_owned(), from_opt_str(&self.start_time)));
        let v = JsonValue::Obj(members);
        proof {
            crate::json::lemma_members_of_seq(v->Obj_0@);
            let ghost ms = crate::json::members_of_vec(v->Obj_0);
            assert forall|i: int| 0 <= i < ms.len() implies ms[i] == self.json()->Obj_0[i] by {
                assert(ms[i] == crate::json::member_view(v->Obj_0@[i]));
            }
            assert(ms =~~= self.json()->Obj_0);
            assert(v@ =~~= self.json());
        }
        v
    }
}

/// One download the host knows about.
#[derive(Debug, Clone, PartialEq, Eq)]
pub struct DownloadItem {
    /// The local path the download was written to.
    pub filename: String,
    /// The media type of the downloaded data.
    pub mime: String,
    /// When the download began.
    pub start_time: String,
    /// Where the download came from.
    pub url: String,
}

/// The mathematical content of a [`DownloadItem`].
pub struct DownloadItemView {
    pub filename: Seq<char>,
    pub mime: Seq<char>,
    pub start_time: Seq<char>,
    pub url: Seq<char>,
}

impl View for DownloadItem {
    type V = DownloadItemView;

    open spec fn view(&self) -> DownloadItemView {
        DownloadItemView {
            filename: self.filename@,
            mime: self.mime@,
            start_time: self.start_time@,
            url: self.url@,
        }
    }
}

/// Whether a host object has the fields of a download item.
pub open spec fn download_item_fields_ok(o: Seq<(Seq<char>, JsonView)>) -> bool {
    &&& req_str_of(o, "filename"@) is Ok
    &&& req_str_of(o, "mime"@) is Ok
    &&& req_str_of(o, "startTime"@) is Ok
    &&& req_str_of(o, "url"@) is Ok
}

/// The download item a well-shaped host object describes.
pub open spec fn download_item_of(o: Seq<(Seq<char>, JsonView)>) -> DownloadItemView {
    DownloadItemView {
        filename: req_str_of(o, "filename"@)->Ok_0,
        mime: req_str_of(o, "mime"@)->Ok_0,
        start_time: req_str_of(o, "startTime"@)->Ok_0,
        url: req_str_of(o, "url"@)->Ok_0,
    }
}

impl DownloadItem {
    /// Reads a download item out of a host value.
    pub fn from_json(v: &JsonValue) -> (r: Result<DownloadItem, Error>)
        ensures
            r is Ok <==> (v@ matches JsonView::Obj(ms) && download_item_fields_ok(ms)),
            r matches Ok(d) ==> d@ == download_item_of(v@->Obj_0),
            r matches Err(e) ==> e is JsonDeserialization,
    {
        let o = match v.as_members() {
            Some(o) => o,
            None => {
                return Err(Error::bad_response("downloadItem: expected an object"));
            },
        };
        let filename = match req_str(o, "filename") {
            Ok(x) => x,
            Err(_) => {
                return Err(Error::bad_response("downloadItem: malformed field"));
            },
        };
        let mime = match req_str(o, "mime") {
            Ok(x) => x,
            Err(_) => {
                return Err(Error::bad_response("downloadItem: malformed field"));
            },
        };
        let start_time = match req_str(o, "startTime") {
            Ok(x) => x,
            Err(_) => {
                return Err(Error::bad_response("downloadItem: malformed field"));
            },
        };
        let url = match req_str(o, "url") {
            Ok(x) => x,
            Err(_) => {
                return Err(Error::bad_response("downloadItem: malformed field"));
            },
        };
        Ok(DownloadItem { filename, mime, start_time, url })
    }
}

/// Whether every element of a host array is a well-shaped download item.
pub open spec fn download_item_list_ok(a: Seq<JsonView>) -> bool {
    forall|i: int|
        0 <= i < a.len() ==> (#[trigger] a[i] matches JsonView::Obj(ms) && download_item_fields_ok(
            ms,
        ))
}

/// The download items a well-shaped host array describes.
pub open spec fn download_item_list_of(a: Seq<JsonView>) -> Seq<DownloadItemView> {
    Seq::new(a.len(), |i: int| download_item_of(a[i]->Obj_0))
}

/// Reads the host's answer to a download search: an array of download items.
#[verifier::loop_isolation(false)]
pub fn download_items_from_json(v: &JsonValue) -> (r: Result<Vec<DownloadItem>, Error>)
    ensures
        r is Ok <==> (v@ matches JsonView::Arr(a) && download_item_list_ok(a)),
        r matches Ok(ds) ==> {
            &&& ds@.len() == v@->Arr_0.len()
            &&& forall|i: int| 0 <= i < ds@.len() ==> #[trigger] ds@[i]@ == download_item_list_of(
                v@->Arr_0,
            )[i]
        },
        r matches Err(e) ==> e is JsonDeserialization,
{
    let items = match v.as_elements() {
        Some(a) => a,
        None => {
            return Err(Error::bad_response("downloadItems: expected an array"));
        },
    };
    proof {
        crate::json::lemma_views_of_seq(items@);
    }
    let ghost vs = crate::json::views_of_vec(*items);
    let n = items.len();
    let mut out: Vec<DownloadItem> = Vec::new();
    let mut k: usize = 0;
    while k < n
        invariant
            n == items@.len(),
            0 <= k <= n,
            vs.len() == items@.len(),
            forall|i: int| 0 <= i < items@.len() ==> vs[i] == crate::json::view_of(items@[i]),
            out@.len() == k,
            forall|i: int|
                0 <= i < k ==> (#[trigger] vs[i] matches JsonView::Obj(ms)
                    && download_item_fields_ok(ms)),
            forall|i: int| 0 <= i < k ==> #[trigger] out@[i]@ == download_item_of(vs[i]->Obj_0),
        decreases n - k,
    {
        match DownloadItem::from_json(&items[k]) {
            Ok(d) => {
                out.push(d);
            },
            Err(e) => {
                proof {
                    assert(vs[k as int] == crate::json::view_of(items@[k as int]));
                    assert(!(vs[k as int] matches JsonView::Obj(ms) && download_item_fields_ok(
                        ms,
                    )));
                    assert(!download_item_list_ok(vs));
                }
                return Err(e);
            },
        }
        k = k + 1;
    }
    Ok(out)
}

} // verus!
