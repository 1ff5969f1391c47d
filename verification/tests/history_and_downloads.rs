use web_extensions::downloads;
use web_extensions::history;
use web_extensions::json::{render, JsonValue};

fn s(text: &str) -> String {
    text.to_string()
}

fn obj(members: Vec<(&str, JsonValue)>) -> JsonValue {
    JsonValue::Obj(members.into_iter().map(|(k, v)| (k.to_string(), v)).collect())
}

#[test]
fn history_query_encodes() {
    let query = history::Query::from("rust");
    assert_eq!(query.text, s("rust"));
    assert_eq!(
        render(&query.to_json()),
        "{\"text\":\"rust\",\"endTime\":null,\"maxResults\":null,\"startTime\":null}"
    );
    let query = history::Query {
        text: s(""),
        end_time: Some(1_700_000_000_000),
        max_results: Some(10),
        start_time: Some(-1),
    };
    assert_eq!(
        render(&query.to_json()),
        "{\"text\":\"\",\"endTime\":1700000000000,\"maxResults\":10,\"startTime\":-1}"
    );
}

#[test]
fn history_item_decodes() {
    let item = history::HistoryItem::from_json(&obj(vec![
        ("id", JsonValue::Str(s("12"))),
        ("lastVisitTime", JsonValue::Int(1_650_000_000_000)),
        ("title", JsonValue::Str(s("Example Domain"))),
        ("typedCount", JsonValue::UInt(2)),
        ("url", JsonValue::Str(s("https://example.com/"))),
        ("visitCount", JsonValue::UInt(17)),
    ]))
    .unwrap();
    assert_eq!(item.id, s("12"));
    assert_eq!(item.last_visit_time, Some(1_650_000_000_000));
    assert_eq!(item.title, Some(s("Example Domain")));
    assert_eq!(item.typed_count, Some(2));
    assert_eq!(item.url, Some(s("https://example.com/")));
    assert_eq!(item.visit_count, Some(17));

    let bare = history::HistoryItem::from_json(&obj(vec![("id", JsonValue::Str(s("1")))]))
        .unwrap();
    assert_eq!(bare.title, None);
    assert_eq!(bare.visit_count, None);

    assert!(history::HistoryItem::from_json(&obj(vec![])).is_err());
    assert!(history::HistoryItem::from_json(&obj(vec![
        ("id", JsonValue::Str(s("1"))),
        ("visitCount", JsonValue::Int(-4)),
    ]))
    .is_err());
}

#[test]
fn history_items_decode_in_order() {
    let list = JsonValue::Arr(vec![
        obj(vec![("id", JsonValue::Str(s("a")))]),
        obj(vec![("id", JsonValue::Str(s("b")))]),
    ]);
    let items = history::history_items_from_json(&list).unwrap();
    assert_eq!(items.len(), 2);
    assert_eq!(items[0].id, s("a"));
    assert_eq!(items[1].id, s("b"));
    assert!(history::history_items_from_json(&JsonValue::Bool(false)).is_err());
}

#[test]
fn downloads_query_encodes() {
    let query = downloads::Query::from("report");
    assert_eq!(render(&query.to_json()), "{\"query\":[\"report\"],\"startTime\":null}");
    let query = downloads::Query { query: None, start_time: Some(s("2024-01-01T00:00:00")) };
    assert_eq!(
        render(&query.to_json()),
        "{\"query\":null,\"startTime\":\"2024-01-01T00:00:00\"}"
    );
}

#[test]
fn download_item_decodes() {
    let item = downloads::DownloadItem::from_json(&obj(vec![
        ("filename", JsonValue::Str(s("/home/user/report.pdf"))),
        ("mime", JsonValue::Str(s("application/pdf"))),
        ("startTime", JsonValue::Str(s("2024-01-01T00:00:00"))),
        ("url", JsonValue::Str(s("https://example.com/report.pdf"))),
    ]))
    .unwrap();
    assert_eq!(item.filename, s("/home/user/report.pdf"));
    assert_eq!(item.mime, s("application/pdf"));
    assert_eq!(item.start_time, s("2024-01-01T00:00:00"));
    assert_eq!(item.url, s("https://example.com/report.pdf"));

    assert!(downloads::DownloadItem::from_json(&obj(vec![(
        "filename",
        JsonValue::Str(s("x")),
    )]))
    .is_err());
    assert!(downloads::DownloadItem::from_json(&JsonValue::Str(s("x"))).is_err());
}

fn download_entry() -> JsonValue {
    obj(vec![
        ("filename", JsonValue::Str(s("a"))),
        ("mime", JsonValue::Str(s("text/plain"))),
        ("startTime", JsonValue::Str(s("t"))),
        ("url", JsonValue::Str(s("u"))),
    ])
}

#[test]
fn download_items_decode_in_order() {
    let list = JsonValue::Arr(vec![download_entry(), download_entry()]);
    let items = downloads::download_items_from_json(&list).unwrap();
    assert_eq!(items.len(), 2);
}
