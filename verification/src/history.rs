//! Wrapper for the browser's `history` API.

use vstd::prelude::*;

use crate::error::Error;
use crate::json::{
    from_opt_i64, from_opt_usize, opt_i64, opt_int_of, opt_str, opt_str_of, opt_usize,
    opt_i64_view, opt_usize_view, req_str, req_str_of, JsonValue, JsonView,
};

verus! {

/// What the host's `search` call looks for in the browsing history.
#[derive(Debug, Clone)]
pub struct Query {
    /// A free-text query to the history service.
    ///
    /// Leave empty to retrieve all pages.
    pub text: String,
    /// Limit results to those visited before this date,
    /// represented in milliseconds since the epoch.
    pub end_time: Option<i64>,
    /// The maximum number of results to retrieve.
    ///
    /// Defaults to 100.
    pub max_results: Option<usize>,
    /// Limit results to those visited after this date,
    /// represented in milliseconds since the epoch.
    ///
    /// If not specified, this defaults to 24 hours in the past.
    pub start_time: Option<i64>,
}

impl Query {
    /// A query for the given text alone.
    pub fn from(q: &str) -> (r: Query)
        ensures
            r.text@ == q@,
            r.end_time is None,
            r.max_results is None,
            r.start_time is None,
    {
        Query { text: q.to_owned(), end_time: None, max_results: None, start_time: None }
    }

    /// The request object for the host's `search` call.
    pub open spec fn json(self) -> JsonView {
        JsonView::Obj(
            seq![
                ("text"@, JsonView::Str(self.text@)),
                ("endTime"@, opt_i64_view(self.end_time)),
                ("maxResults"@, opt_usize_view(self.max_results)),
                ("startTime"@, opt_i64_view(self.start_time)),
            ],
        )
    }

    /// Builds the request object for the host's `search` call.
    pub fn to_json(&self) -> (v: JsonValue)
        ensures
            v@ == self.json(),
    {
        let mut members: Vec<(String, JsonValue)> = Vec::new();
        members.push(("text".to_owned(), JsonValue::Str(self.text.clone())));
        members.push(("endTime".to_owned(), from_opt_i64(&self.end_time)));
        members.push(("maxResults".to_owned(), from_opt_usize(&self.max_results)));
        members.push(("startTime".to_owned(), from_opt_i64(&self.start_time)));
        let v = JsonValue::Obj(members);
        proof {
            crate::json::lemma_members_of_seq(v->Obj_0@);
            let ghost ms = crate::json::members_of_vec(v->Obj_0);
            assert forall|i: int| 0 <= i < ms.len() implies ms[i] == self.json()->Obj_0[i] by {
                assert(ms[i] == crate::json::member_view(v->Obj_0@[i]));
            }
            assert(ms =~~= self.json()->Obj_0);
            assert(v@ =~~= self.json());
        }
        v
    }
}

/// One result of a history query.
#[derive(Debug, Clone, PartialEq, Eq)]
pub struct HistoryItem {
    /// Unique identifier.
    pub id: String,
    /// When this page was last loaded, represented in milliseconds since the epoch.
    pub last_visit_time: Option<i64>,
    /// The title of the page when it was last loaded.
    pub title: Option<String>,
    /// The number of times the user has navigated to this page by typing in the address.
    pub typed_count: Option<usize>,
    /// The URL of the page.
    pub url: Option<String>,
    /// The number of times the user has visited the page.
    pub visit_count: Option<usize>,
}

/// The mathematical content of a [`HistoryItem`].
pub struct HistoryItemView {
    pub id: Seq<char>,
    pub last_visit_time: Option<int>,
    pub title: Option<Seq<char>>,
    pub typed_count: Option<int>,
    pub url: Option<Seq<char>>,
    pub visit_count: Option<int>,
}

impl View for HistoryItem {
    type V = HistoryItemView;

    open spec fn view(&self) -> HistoryItemView {
        HistoryItemView {
            id: self.id@,
            last_visit_time: match self.last_visit_time {
                Some(x) => Some(x as int),
                None => None,
            },
            title: match self.title {
                Some(ref s) => Some(s@),
                None => None,
            },
            typed_count: match self.typed_count {
                Some(x) => Some(x as int),
                None => None,
            },
            url: match self.url {
                Some(ref s) => Some(s@),
                None => None,
            },
            visit_count: match self.visit_count {
                Some(x) => Some(x as int),
                None => None,
            },
        }
    }
}

/// Whether a host object has the fields of a history item.
pub open spec fn history_item_fields_ok(o: Seq<(Seq<char>, JsonView)>) -> bool {
    &&& req_str_of(o, "id"@) is Ok
    &&& opt_int_of(o, "lastVisitTime"@, i64::MIN as int, i64::MAX as int) is Ok
    &&& opt_str_of(o, "title"@) is Ok
    &&& opt_int_of(o, "typedCount"@, 0, usize::MAX as int) is Ok
    &&& opt_str_of(o, "url"@) is Ok
    &&& opt_int_of(o, "visitCount"@, 0, usize::MAX as int) is Ok
}

/// The history item a well-shaped host object describes.
pub open spec fn history_item_of(o: Seq<(Seq<char>, JsonView)>) -> HistoryItemView {
    HistoryItemView {
        id: req_str_of(o, "id"@)->Ok_0,
        last_visit_time: opt_int_of(o, "lastVisitTime"@, i64::MIN as int, i64::MAX as int)->Ok_0,
        title: opt_str_of(o, "title"@)->Ok_0,
        typed_count: opt_int_of(o, "typedCount"@, 0, usize::MAX as int)->Ok_0,
        url: opt_str_of(o, "url"@)->Ok_0,
        visit_count: opt_int_of(o, "visitCount"@, 0, usize::MAX as int)->Ok_0,
    }
}

impl HistoryItem {
    /// Reads a history item out of a host value.
    pub fn from_json(v: &JsonValue) -> (r: Result<HistoryItem, Error>)
        ensures
            r is Ok <==> (v@ matches JsonView::Obj(ms) && history_item_fields_ok(ms)),
            r matches Ok(h) ==> h@ == history_item_of(v@->Obj_0),
            r matches Err(e) ==> e is JsonDeserialization,
    {
        let o = match v.as_members() {
            Some(o) => o,
            None => {
                return Err(Error::bad_response("historyItem: expected an object"));
            },
        };
        let id = match req_str(o, "id") {
            Ok(x) => x,
            Err(_) => {
                return Err(Error::bad_response("historyItem: malformed field"));
            },
        };
        let last_visit_time = match opt_i64(o, "lastVisitTime") {
            Ok(x) => x,
            Err(_) => {
                return Err(Error::bad_response("historyItem: malformed field"));
            },
        };
        let title = match opt_str(o, "title") {
            Ok(x) => x,
            Err(_) => {
                return Err(Error::bad_response("historyItem: malformed field"));
            },
        };
        let typed_count = match opt_usize(o, "typedCount") {
            Ok(x) => x,
            Err(_) => {
                return Err(Error::bad_response("historyItem: malformed field"));
            },
        };
        let url = match opt_str(o, "url") {
            Ok(x) => x,
            Err(_) => {
                return Err(Error::bad_response("historyItem: malformed field"));
            },
        };
        let visit_count = match opt_usize(o, "visitCount") {
            Ok(x) => x,
            Err(_) => {
                return Err(Error::bad_response("historyItem: malformed field"));
            },
        };
        Ok(HistoryItem { id, last_visit_time, title, typed_count, url, visit_count })
    }
}

/// Whether every element of a host array is a well-shaped history item.
pub open spec fn history_item_list_ok(a: Seq<JsonView>) -> bool {
    forall|i: int|
        0 <= i < a.len() ==> (#[trigger] a[i] matches JsonView::Obj(ms) && history_item_fields_ok(
            ms,
        ))
}

/// The history items a well-shaped host array describes.
pub open spec fn history_item_list_of(a: Seq<JsonView>) -> Seq<HistoryItemView> {
    Seq::new(a.len(), |i: int| history_item_of(a[i]->Obj_0))
}

/// Reads the host's answer to a history search: an array of history items.
#[verifier::loop_isolation(false)]
pub fn history_items_from_json(v: &JsonValue) -> (r: Result<Vec<HistoryItem>, Error>)
    ensures
        r is Ok <==> (v@ matches JsonView::Arr(a) && history_item_list_ok(a)),
        r matches Ok(hs) ==> {
            &&& hs@.len() == v@->Arr_0.len()
            &&& forall|i: int| 0 <= i < hs@.len() ==> #[trigger] hs@[i]@ == history_item_list_of(
                v@->Arr_0,
            )[i]
        },
        r matches Err(e) ==> e is JsonDeserialization,
{
    let items = match v.as_elements() {
        Some(a) => a,
        None => {
            return Err(Error::bad_response("historyItems: expected an array"));
        },
    };
    proof {
        crate::json::lemma_views_of_seq(items@);
    }
    let ghost vs = crate::json::views_of_vec(*items);
    let n = items.len();
    let mut out: Vec<HistoryItem> = Vec::new();
    let mut k: usize = 0;
    while k < n
        invariant
            n == items@.len(),
            0 <= k <= n,
            vs.len() == items@.len(),
            forall|i: int| 0 <= i < items@.len() ==> vs[i] == crate::json::view_of(items@[i]),
            out@.len() == k,
            forall|i: int|
                0 <= i < k ==> (#[trigger] vs[i] matches JsonView::Obj(ms)
                    && history_item_fields_ok(ms)),
            forall|i: int| 0 <= i < k ==> #[trigger] out@[i]@ == history_item_of(vs[i]->Obj_0),
        decreases n - k,
    {
        match HistoryItem::from_json(&items[k]) {
            Ok(h) => {
                out.push(h);
            },
            Err(e) => {
                proof {
                    assert(vs[k as int] == crate::json::view_of(items@[k as int]));
                    assert(!(vs[k as int] matches JsonView::Obj(ms) && history_item_fields_ok(
                        ms,
                    )));
                    assert(!history_item_list_ok(vs));
                }
                return Err(e);
            },
        }
        k = k + 1;
    }
    Ok(out)
}

} // verus!
