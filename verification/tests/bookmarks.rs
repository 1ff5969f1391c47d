use web_extensions::bookmarks::{nodes_from_json, BookmarkTreeNode, Query};
use web_extensions::Error;
use web_extensions::json::{render, JsonValue};

fn s(text: &str) -> String {
    text.to_string()
}

fn obj(members: Vec<(&str, JsonValue)>) -> JsonValue {
    JsonValue::Obj(members.into_iter().map(|(k, v)| (k.to_string(), v)).collect())
}

fn leaf(id: &str, title: &str, url: &str) -> JsonValue {
    obj(vec![
        ("id", JsonValue::Str(s(id))),
        ("title", JsonValue::Str(s(title))),
        ("url", JsonValue::Str(s(url))),
        ("index", JsonValue::UInt(0)),
        ("dateAdded", JsonValue::Int(1_600_000_000_000)),
    ])
}

#[test]
fn query_from_and_to_json() {
    let query = Query::from("rust verus");
    assert_eq!(query.query, Some(s("rust verus")));
    assert_eq!(query.title, None);
    assert_eq!(query.url, None);
    assert_eq!(
        render(&query.to_json()),
        "{\"query\":\"rust verus\",\"title\":null,\"url\":null}"
    );
}

#[test]
fn bookmark_node_without_children() {
    let node = BookmarkTreeNode::from_json(&leaf("7", "Docs", "https://example.com/docs")).unwrap();
    assert_eq!(node.id, s("7"));
    assert_eq!(node.title, s("Docs"));
    assert_eq!(node.url, Some(s("https://example.com/docs")));
    assert_eq!(node.index, Some(0));
    assert_eq!(node.date_added, Some(1_600_000_000_000));
    assert_eq!(node.children, None);
    assert_eq!(node.parent_id, None);
    assert_eq!(node.date_group_modified, None);
}

#[test]
fn bookmark_tree_decodes_recursively() {
    let folder = obj(vec![
        ("id", JsonValue::Str(s("1"))),
        ("title", JsonValue::Str(s("Folder"))),
        (
            "children",
            JsonValue::Arr(vec![
                leaf("2", "A", "https://example.com/a"),
                obj(vec![
                    ("id", JsonValue::Str(s("3"))),
                    ("title", JsonValue::Str(s("Inner"))),
                    ("parentId", JsonValue::Str(s("1"))),
                    (
                        "children",
                        JsonValue::Arr(vec![leaf("4", "B", "https://example.com/b")]),
                    ),
                ]),
            ]),
        ),
        ("dateGroupModified", JsonValue::Int(1_700_000_000_000)),
    ]);
    let node = BookmarkTreeNode::from_json(&folder).unwrap();
    assert_eq!(node.id, s("1"));
    assert_eq!(node.date_group_modified, Some(1_700_000_000_000));
    let children = node.children.unwrap();
    assert_eq!(children.len(), 2);
    assert_eq!(children[0].id, s("2"));
    assert_eq!(children[0].children, None);
    let inner = &children[1];
    assert_eq!(inner.parent_id, Some(s("1")));
    let grandchildren = inner.children.as_ref().unwrap();
    assert_eq!(grandchildren.len(), 1);
    assert_eq!(grandchildren[0].id, s("4"));
}

#[test]
fn bookmark_node_null_children_reads_as_none() {
    let node = BookmarkTreeNode::from_json(&obj(vec![
        ("id", JsonValue::Str(s("1"))),
        ("title", JsonValue::Str(s("T"))),
        ("children", JsonValue::Null),
    ]))
    .unwrap();
    assert_eq!(node.children, None);
}

#[test]
fn bookmark_node_rejects_bad_shapes() {
    assert!(matches!(
        BookmarkTreeNode::from_json(&JsonValue::Arr(vec![])),
        Err(Error::JsonDeserialization(_))
    ));
    // A `children` member that is not an array.
    assert!(BookmarkTreeNode::from_json(&obj(vec![
        ("id", JsonValue::Str(s("1"))),
        ("title", JsonValue::Str(s("T"))),
        ("children", JsonValue::Bool(true)),
    ]))
    .is_err());
    // A malformed nested child.
    assert!(BookmarkTreeNode::from_json(&obj(vec![
        ("id", JsonValue::Str(s("1"))),
        ("title", JsonValue::Str(s("T"))),
        ("children", JsonValue::Arr(vec![JsonValue::Int(3)])),
    ]))
    .is_err());
    // A missing required field.
    assert!(BookmarkTreeNode::from_json(&obj(vec![("id", JsonValue::Str(s("1")))])).is_err());
}

#[test]
fn bookmark_search_results_decode_in_order() {
    let list = JsonValue::Arr(vec![
        leaf("1", "A", "https://example.com/a"),
        leaf("2", "B", "https://example.com/b"),
    ]);
    let nodes = nodes_from_json(&list).unwrap();
    assert_eq!(nodes.len(), 2);
    assert_eq!(nodes[0].id, s("1"));
    assert_eq!(nodes[1].id, s("2"));
    assert!(nodes_from_json(&JsonValue::Null).is_err());
}
