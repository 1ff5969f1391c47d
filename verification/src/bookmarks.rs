//! Wrapper for the browser's `bookmarks` API.

use vstd::prelude::*;

use crate::error::Error;
use crate::json::{
    from_opt_str, members_of_vec, opt_i64, opt_int_of, opt_str, opt_str_of, opt_str_view,
    opt_u32, req_str, req_str_of, str_eq, view_opt_str, JsonValue, JsonView,
};

verus! {

/// What the host's `search` call looks for among bookmarks.
#[derive(Debug, Clone)]
pub struct Query {
    /// A string of words and quoted phrases that are matched against
    /// bookmark URLs and titles.
    pub query: Option<String>,
    /// The title of the bookmark; matches verbatim.
    pub title: Option<String>,
    /// The URL of the bookmark; matches verbatim. Note that folders have
    /// no URL.
    pub url: Option<String>,
}

impl Query {
    /// A query for the given search string alone.
    pub fn from(q: &str) -> (r: Query)
        ensures
            r.query matches Some(s) && s@ == q@,
            r.title is None,
            r.url is None,
    {
        Query { query: Some(q.to_owned()), title: None, url: None }
    }

    /// The request object for the host's `search` call.
    pub open spec fn json(self) -> JsonView {
        JsonView::Obj(
            seq![
                ("query"@, opt_str_view(view_opt_str(self.query))),
                ("title"@, opt_str_view(view_opt_str(self.title))),
                ("url"@, opt_str_view(view_opt_str(self.url))),
            ],
        )
    }

    /// Builds the request object for the host's `search` call.
    pub fn to_json(&self) -> (v: JsonValue)
        ensures
            v@ == self.json(),
    {
        let mut members: Vec<(String, JsonValue)> = Vec::new();
        members.push(("query".to_owned(), from_opt_str(&self.query)));
        members.push(("title".to_owned(), from_opt_str(&self.title)));
        members.push(("url".to_owned(), from_opt_str(&self.url)));
        let v = JsonValue::Obj(members);
        proof {
            crate::json::lemma_members_of_seq(v->Obj_0@);
            let ghost ms = crate::json::members_of_vec(v->Obj_0);
            assert forall|i: int| 0 <= i < ms.len() implies ms[i] == self.json()->Obj_0[i] by {
                assert(ms[i] == crate::json::member_view(v->Obj_0@[i]));
            }
            assert(ms =~~= self.json()->Obj_0);
            assert(v@ =~~= self.json());
        }
        v
    }
}

/// A node (either a bookmark or a folder) in the bookmark tree.
///
/// Child nodes are ordered within their parent folder.
#[derive(Debug, PartialEq, Eq)]
pub struct BookmarkTreeNode {
    /// Unique identifier.
    pub id: String,
    /// An ordered list of children of this node.
    pub children: Option<Vec<BookmarkTreeNode>>,
    /// The 0-based position of this node within its parent folder.
    pub index: Option<u32>,
    /// The ID of the parent folder. Not present in the root node.
    pub parent_id: Option<String>,
    /// Date and time of the creation of the bookmark.
    ///
    /// Unix time as milliseconds since the epoch.
    pub date_added: Option<i64>,
    /// When the contents of this folder last changed, in milliseconds since
    /// the epoch.
    pub date_group_modified: Option<i64>,
    /// The text displayed for the node in menus and lists of bookmarks.
    pub title: String,
    /// The URL for the bookmark. Empty if this node is a folder.
    pub url: Option<String>,
}

/// The mathematical content of a [`BookmarkTreeNode`].
pub struct BookmarkTreeNodeView {
    pub id: Seq<char>,
    pub children: Option<Seq<BookmarkTreeNodeView>>,
    pub index: Option<int>,
    pub parent_id: Option<Seq<char>>,
    pub date_added: Option<int>,
    pub date_group_modified: Option<int>,
    pub title: Seq<char>,
    pub url: Option<Seq<char>>,
}

pub open spec fn node_view(n: BookmarkTreeNode) -> BookmarkTreeNodeView
    decreases n,
{
    BookmarkTreeNodeView {
        id: n.id@,
        children: opt_children_views(n.children),
        index: match n.index {
            Some(x) => Some(x as int),
            None => None,
        },
        parent_id: match n.parent_id {
            Some(ref s) => Some(s@),
            None => None,
        },
        date_added: match n.date_added {
            Some(x) => Some(x as int),
            None => None,
        },
        date_group_modified: match n.date_group_modified {
            Some(x) => Some(x as int),
            None => None,
        },
        title: n.title@,
        url: match n.url {
            Some(ref s) => Some(s@),
            None => None,
        },
    }
}

pub open spec fn opt_children_views(o: Option<Vec<BookmarkTreeNode>>) -> Option<
    Seq<BookmarkTreeNodeView>,
>
    decreases o,
{
    match o {
        Some(c) => Some(node_views_of_vec(c)),
        None => None,
    }
}

pub open spec fn node_views_of_vec(c: Vec<BookmarkTreeNode>) -> Seq<BookmarkTreeNodeView>
    decreases c,
{
    node_views_of_seq(c@)
}

pub open spec fn node_views_of_seq(s: Seq<BookmarkTreeNode>) -> Seq<BookmarkTreeNodeView>
    decreases s,
{
    if s.len() == 0 {
        Seq::empty()
    } else {
        seq![node_view(s[0])] + node_views_of_seq(s.drop_first())
    }
}

pub proof fn lemma_node_views_of_seq(s: Seq<BookmarkTreeNode>)
    ensures
        node_views_of_seq(s).len() == s.len(),
        forall|i: int| 0 <= i < s.len() ==> node_views_of_seq(s)[i] == node_view(s[i]),
    decreases s.len(),
{
    if s.len() > 0 {
        lemma_node_views_of_seq(s.drop_first());
    }
}

impl View for BookmarkTreeNode {
    type V = BookmarkTreeNodeView;

    open spec fn view(&self) -> BookmarkTreeNodeView {
        node_view(*self)
    }
}

// ---------------------------------------------------------------------------
// What a host value must look like to describe a node, and which node.
// ---------------------------------------------------------------------------

/// Whether the non-recursive fields of a node object are well shaped.
pub open spec fn node_scalars_ok(ms: Seq<(Seq<char>, JsonView)>) -> bool {
    &&& req_str_of(ms, "id"@) is Ok
    &&& opt_int_of(ms, "index"@, 0, u32::MAX as int) is Ok
    &&& opt_str_of(ms, "parentId"@) is Ok
    &&& opt_int_of(ms, "dateAdded"@, i64::MIN as int, i64::MAX as int) is Ok
    &&& opt_int_of(ms, "dateGroupModified"@, i64::MIN as int, i64::MAX as int) is Ok
    &&& req_str_of(ms, "title"@) is Ok
    &&& opt_str_of(ms, "url"@) is Ok
}

/// Whether a host value describes a bookmark node: an object with
/// well-shaped fields whose `children` member, if any, is null or an array
/// of nodes in turn.
pub open spec fn node_ok(v: JsonValue) -> bool
    decreases v,
{
    match v {
        JsonValue::Obj(o) => node_scalars_ok(members_of_vec(o)) && children_ok_vec(o),
        _ => false,
    }
}

pub open spec fn children_ok_vec(o: Vec<(String, JsonValue)>) -> bool
    decreases o,
{
    children_ok_seq(o@)
}

/// Walks the members; the first one named `children` decides.
pub open spec fn children_ok_seq(s: Seq<(String, JsonValue)>) -> bool
    decreases s,
{
    if s.len() == 0 {
        true
    } else if s[0].0@ == "children"@ {
        member_children_ok(s[0])
    } else {
        children_ok_seq(s.drop_first())
    }
}

pub open spec fn member_children_ok(m: (String, JsonValue)) -> bool
    decreases m,
{
    value_children_ok(m.1)
}

pub open spec fn value_children_ok(v: JsonValue) -> bool
    decreases v,
{
    match v {
        JsonValue::Null => true,
        JsonValue::Arr(a) => nodes_ok_vec(a),
        _ => false,
    }
}

pub open spec fn nodes_ok_vec(a: Vec<JsonValue>) -> bool
    decreases a,
{
    nodes_ok_seq(a@)
}

pub open spec fn nodes_ok_seq(s: Seq<JsonValue>) -> bool
    decreases s,
{
    if s.len() == 0 {
        true
    } else {
        node_ok(s[0]) && nodes_ok_seq(s.drop_first())
    }
}

/// The node a well-shaped host value describes.
pub open spec fn node_of(v: JsonValue) -> BookmarkTreeNodeView
    decreases v,
{
    match v {
        JsonValue::Obj(o) => BookmarkTreeNodeView {
            id: req_str_of(members_of_vec(o), "id"@)->Ok_0,
            children: children_of_vec(o),
            index: opt_int_of(members_of_vec(o), "index"@, 0, u32::MAX as int)->Ok_0,
            parent_id: opt_str_of(members_of_vec(o), "parentId"@)->Ok_0,
            date_added: opt_int_of(
                members_of_vec(o),
                "dateAdded"@,
                i64::MIN as int,
                i64::MAX as int,
            )->Ok_0,
            date_group_modified: opt_int_of(
                members_of_vec(o),
                "dateGroupModified"@,
                i64::MIN as int,
                i64::MAX as int,
            )->Ok_0,
            title: req_str_of(members_of_vec(o), "title"@)->Ok_0,
            url: opt_str_of(members_of_vec(o), "url"@)->Ok_0,
        },
        _ => arbitrary(),
    }
}

pub open spec fn children_of_vec(o: Vec<(String, JsonValue)>) -> Option<
    Seq<BookmarkTreeNodeView>,
>
    decreases o,
{
    children_of_seq(o@)
}

/// Walks the members; the first one named `children` decides.
pub open spec fn children_of_seq(s: Seq<(String, JsonValue)>) -> Option<
    Seq<BookmarkTreeNodeView>,
>
    decreases s,
{
    if s.len() == 0 {
        None
    } else if s[0].0@ == "children"@ {
        member_children_of(s[0])
    } else {
        children_of_seq(s.drop_first())
    }
}

pub open spec fn member_children_of(m: (String, JsonValue)) -> Option<Seq<BookmarkTreeNodeView>>
    decreases m,
{
    value_children_of(m.1)
}

pub open spec fn value_children_of(v: JsonValue) -> Option<Seq<BookmarkTreeNodeView>>
    decreases v,
{
    match v {
        JsonValue::Arr(a) => Some(nodes_of_vec(a)),
        _ => None,
    }
}

pub open spec fn nodes_of_vec(a: Vec<JsonValue>) -> Seq<BookmarkTreeNodeView>
    decreases a,
{
    nodes_of_seq(a@)
}

pub open spec fn nodes_of_seq(s: Seq<JsonValue>) -> Seq<BookmarkTreeNodeView>
    decreases s,
{
    if s.len() == 0 {
        Seq::empty()
    } else {
        seq![node_of(s[0])] + nodes_of_seq(s.drop_first())
    }
}

pub proof fn lemma_nodes_of_seq(s: Seq<JsonValue>)
    ensures
        nodes_of_seq(s).len() == s.len(),
        forall|i: int| 0 <= i < s.len() ==> nodes_of_seq(s)[i] == node_of(s[i]),
        nodes_ok_seq(s) <==> (forall|i: int| 0 <= i < s.len() ==> node_ok(#[trigger] s[i])),
    decreases s.len(),
{
    if s.len() > 0 {
        lemma_nodes_of_seq(s.drop_first());
        assert forall|i: int| 0 <= i < s.len() implies nodes_of_seq(s)[i] == node_of(s[i]) by {
            if i > 0 {
                assert(s.drop_first()[i - 1] == s[i]);
            }
        }
        if nodes_ok_seq(s) {
            assert forall|i: int| 0 <= i < s.len() implies node_ok(#[trigger] s[i]) by {
                if i > 0 {
                    assert(s.drop_first()[i - 1] == s[i]);
                }
            }
        }
        if forall|i: int| 0 <= i < s.len() ==> node_ok(#[trigger] s[i]) {
            assert forall|i: int| 0 <= i < s.drop_first().len() implies node_ok(
                #[trigger] s.drop_first()[i],
            ) by {
                assert(s.drop_first()[i] == s[i + 1]);
            }
        }
    }
}

impl BookmarkTreeNode {
    /// Reads a bookmark node, children and all, out of a host value.
    ///
    /// Succeeds exactly on values that `node_ok` accepts, and then returns
    /// exactly the node they describe.
    #[verifier::loop_isolation(false)]
    pub fn from_json(v: &JsonValue) -> (r: Result<BookmarkTreeNode, Error>)
        ensures
            r is Ok <==> node_ok(*v),
            r matches Ok(n) ==> n@ == node_of(*v),
            r matches Err(e) ==> e is JsonDeserialization,
        decreases *v,
    {
        let o = match v {
            JsonValue::Obj(o) => o,
            _ => {
                return Err(Error::bad_response("bookmarkTreeNode: expected an object"));
            },
        };
        let id = match req_str(o, "id") {
            Ok(x) => x,
            Err(_) => {
                return Err(Error::bad_response("bookmarkTreeNode: malformed field"));
            },
        };
        let index = match opt_u32(o, "index") {
            Ok(x) => x,
            Err(_) => {
                return Err(Error::bad_response("bookmarkTreeNode: malformed field"));
            },
        };
        let parent_id = match opt_str(o, "parentId") {
            Ok(x) => x,
            Err(_) => {
                return Err(Error::bad_response("bookmarkTreeNode: malformed field"));
            },
        };
        let date_added = match opt_i64(o, "dateAdded") {
            Ok(x) => x,
            Err(_) => {
                return Err(Error::bad_response("bookmarkTreeNode: malformed field"));
            },
        };
        let date_group_modified = match opt_i64(o, "dateGroupModified") {
            Ok(x) => x,
            Err(_) => {
                return Err(Error::bad_response("bookmarkTreeNode: malformed field"));
            },
        };
        let title = match req_str(o, "title") {
            Ok(x) => x,
            Err(_) => {
                return Err(Error::bad_response("bookmarkTreeNode: malformed field"));
            },
        };
        let url = match opt_str(o, "url") {
            Ok(x) => x,
            Err(_) => {
                return Err(Error::bad_response("bookmarkTreeNode: malformed field"));
            },
        };
        // Find the first `children` member, as the recursion in
        // `children_of_seq` does.
        let n_members = o.len();
        proof {
            assert(o@.skip(0) =~= o@);
        }
        let mut j: usize = 0;
        while j < n_members
            invariant
                n_members == o@.len(),
                0 <= j <= n_members,
                children_of_seq(o@) == children_of_seq(o@.skip(j as int)),
                children_ok_seq(o@) == children_ok_seq(o@.skip(j as int)),
            decreases n_members - j,
        {
            proof {
                assert(o@.skip(j as int)[0] == o@[j as int]);
                assert(o@.skip(j as int).drop_first() =~= o@.skip(j as int + 1));
            }
            if str_eq(o[j].0.as_str(), "children") {
                match &o[j].1 {
                    JsonValue::Null => {
                        let node = BookmarkTreeNode {
                            id,
                            children: None,
                            index,
                            parent_id,
                            date_added,
                            date_group_modified,
                            title,
                            url,
                        };
                        proof {
                            assert(o@.skip(j as int).len() > 0);
                            assert(o@.skip(j as int)[0] == o@[j as int]);
                            assert(o@[j as int].0@ == "children"@);
                            assert(children_ok_seq(o@.skip(j as int)) == member_children_ok(
                                o@[j as int],
                            ));
                            assert(children_of_seq(o@.skip(j as int)) == member_children_of(
                                o@[j as int],
                            ));
                            assert(o@[j as int].1 is Null);
                            assert(children_ok_seq(o@));
                            assert(children_of_seq(o@) is None);
                            assert(node_ok(*v));
                            assert(node@ == node_of(*v));
                        }
                        return Ok(node);
                    },
                    JsonValue::Arr(items) => {
                        proof {
                            crate::json::lemma_views_of_seq(items@);
                            lemma_nodes_of_seq(items@);
                        }
                        let n = items.len();
                        let mut out: Vec<BookmarkTreeNode> = Vec::new();
                        let mut k: usize = 0;
                        while k < n
                            invariant
                                n == items@.len(),
                                0 <= k <= n,
                                out@.len() == k,
                                forall|i: int| 0 <= i < k ==> node_ok(#[trigger] items@[i]),
                                forall|i: int| 0 <= i < k ==> #[trigger] out@[i]@ == node_of(
                                    items@[i],
                                ),
                            decreases n - k,
                        {
                            proof {
                                assert(decreases_to!(*v => *o));
                                assert(decreases_to!(*o => o@));
                                assert(decreases_to!(o@ => o@[j as int]));
                                assert(decreases_to!(o@[j as int] => o@[j as int].1));
                                assert(decreases_to!(o@[j as int].1 => *items));
                                assert(decreases_to!(*items => items@));
                                assert(decreases_to!(items@ => items@[k as int]));
                            }
                            match BookmarkTreeNode::from_json(&items[k]) {
                                Ok(n) => {
                                    out.push(n);
                                },
                                Err(e) => {
                                    proof {
                                        assert(!node_ok(items@[k as int]));
                                        assert(!nodes_ok_seq(items@));
                                        assert(o@.skip(j as int)[0] == o@[j as int]);
                                        assert(o@[j as int].1 == JsonValue::Arr(*items));
                                        assert(children_ok_seq(o@.skip(j as int))
                                            == member_children_ok(o@[j as int]));
                                        assert(!children_ok_seq(o@));
                                        assert(!node_ok(*v));
                                    }
                                    return Err(e);
                                },
                            }
                            k = k + 1;
                        }
                        let node = BookmarkTreeNode {
                            id,
                            children: Some(out),
                            index,
                            parent_id,
                            date_added,
                            date_group_modified,
                            title,
                            url,
                        };
                        proof {
                            assert(nodes_ok_seq(items@));
                            let ghost ch = node.children->0;
                            lemma_node_views_of_seq(ch@);
                            assert forall|i: int| 0 <= i < ch@.len() implies node_views_of_seq(
                                ch@,
                            )[i] == nodes_of_seq(items@)[i] by {
                                assert(node_views_of_seq(ch@)[i] == node_view(ch@[i]));
                                assert(ch@[i]@ == node_of(items@[i]));
                                assert(nodes_of_seq(items@)[i] == node_of(items@[i]));
                            }
                            assert(node_views_of_seq(ch@) =~= nodes_of_seq(items@));
                            assert(o@.skip(j as int).len() > 0);
                            assert(o@.skip(j as int)[0] == o@[j as int]);
                            assert(o@[j as int].0@ == "children"@);
                            assert(children_ok_seq(o@.skip(j as int)) == member_children_ok(
                                o@[j as int],
                            ));
                            assert(children_of_seq(o@.skip(j as int)) == member_children_of(
                                o@[j as int],
                            ));
                            assert(o@[j as int].1 == JsonValue::Arr(*items));
                            assert(children_ok_seq(o@));
                            assert(children_of_seq(o@) == Some(nodes_of_seq(items@)));
                            assert(node_ok(*v));
                            assert(node@ == node_of(*v));
                        }
                        return Ok(node);
                    },
                    _ => {
                        proof {
                            assert(o@.skip(j as int).len() > 0);
                            assert(o@.skip(j as int)[0] == o@[j as int]);
                            assert(o@[j as int].0@ == "children"@);
                            assert(children_ok_seq(o@.skip(j as int)) == member_children_ok(
                                o@[j as int],
                            ));
                            assert(children_of_seq(o@.skip(j as int)) == member_children_of(
                                o@[j as int],
                            ));
                            assert(!value_children_ok(o@[j as int].1));
                            assert(!children_ok_seq(o@));
                            assert(!node_ok(*v));
                        }
                        return Err(Error::bad_response("bookmarkTreeNode: malformed field"));
                    },
                }
            }
            j = j + 1;
        }
        proof {
            assert(o@.skip(n_members as int) =~= Seq::<(String, JsonValue)>::empty());
            assert(children_of_seq(o@) is None);
            assert(children_ok_seq(o@));
        }
        let node = BookmarkTreeNode {
            id,
            children: None,
            index,
            parent_id,
            date_added,
            date_group_modified,
            title,
            url,
        };
        proof {
            assert(node_ok(*v));
            assert(node@ == node_of(*v));
        }
        Ok(node)
    }
}

/// Whether every element of a host array is a well-shaped bookmark node.
pub open spec fn node_list_ok(s: Seq<JsonValue>) -> bool {
    forall|i: int| 0 <= i < s.len() ==> node_ok(#[trigger] s[i])
}

/// Reads the host's answer to a bookmark search: an array of nodes.
#[verifier::loop_isolation(false)]
pub fn nodes_from_json(v: &JsonValue) -> (r: Result<Vec<BookmarkTreeNode>, Error>)
    ensures
        r is Ok <==> (*v matches JsonValue::Arr(a) && node_list_ok(a@)),
        r matches Ok(ns) ==> {
            &&& *v is Arr
            &&& ns@.len() == v->Arr_0@.len()
            &&& forall|i: int| 0 <= i < ns@.len() ==> #[trigger] ns@[i]@ == node_of(v->Arr_0@[i])
        },
        r matches Err(e) ==> e is JsonDeserialization,
{
    let items = match v {
        JsonValue::Arr(a) => a,
        _ => {
            return Err(Error::bad_response("bookmarkTreeNodes: expected an array"));
        },
    };
    let n = items.len();
    let mut out: Vec<BookmarkTreeNode> = Vec::new();
    let mut k: usize = 0;
    while k < n
        invariant
            n == items@.len(),
            0 <= k <= n,
            out@.len() == k,
            forall|i: int| 0 <= i < k ==> node_ok(#[trigger] items@[i]),
            forall|i: int| 0 <= i < k ==> #[trigger] out@[i]@ == node_of(items@[i]),
        decreases n - k,
    {
        match BookmarkTreeNode::from_json(&items[k]) {
            Ok(node) => {
                out.push(node);
            },
            Err(e) => {
                proof {
                    assert(!node_ok(items@[k as int]));
                    assert(!node_list_ok(items@));
                }
                return Err(e);
            },
        }
        k = k + 1;
    }
    Ok(out)
}

} // verus!
