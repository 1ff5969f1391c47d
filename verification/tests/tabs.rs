use web_extensions::json::{render, JsonValue};
use web_extensions::Error;
use web_extensions::tabs::{
    ActiveInfo, AttachInfo, ChangeInfo, CreateProperties, DetachInfo, HighlightInfo, MoveInfo,
    MutedInfo, QueryDetails, RemoveInfo, ReplaceInfo, Status, Tab, TabId, UpdateProperties,
    WindowType,
};

fn s(text: &str) -> String {
    text.to_string()
}

fn obj(members: Vec<(&str, JsonValue)>) -> JsonValue {
    JsonValue::Obj(members.into_iter().map(|(k, v)| (k.to_string(), v)).collect())
}

#[test]
fn status_serde() {
    let cases = [(Status::Loading, "\"loading\""), (Status::Complete, "\"complete\"")];
    for (value, json) in cases {
        assert_eq!(render(&value.to_json()), json);
        let name = json.trim_matches('"');
        assert_eq!(Status::from_json(&JsonValue::Str(s(name))), Some(value));
    }
}

#[test]
fn window_type_serialize() {
    let cases = [
        (WindowType::Normal, "\"normal\""),
        (WindowType::Popup, "\"popup\""),
        (WindowType::Panel, "\"panel\""),
        (WindowType::Devtools, "\"devtools\""),
    ];
    for (value, json) in cases {
        assert_eq!(render(&value.to_json()), json);
    }
}

#[test]
fn tabs_status_serde() {
    assert_eq!(render(&Status::Loading.to_json()), "\"loading\"");
    assert_eq!(render(&Status::Complete.to_json()), "\"complete\"");
    assert_eq!(Status::from_json(&JsonValue::Str(s("loading"))), Some(Status::Loading));
    assert_eq!(Status::from_json(&JsonValue::Str(s("complete"))), Some(Status::Complete));
}

#[test]
fn tabs_window_type_serialize() {
    assert_eq!(render(&WindowType::Normal.to_json()), "\"normal\"");
    assert_eq!(render(&WindowType::Popup.to_json()), "\"popup\"");
    assert_eq!(render(&WindowType::Panel.to_json()), "\"panel\"");
    assert_eq!(render(&WindowType::Devtools.to_json()), "\"devtools\"");
}

#[test]
fn status_unloaded_serde() {
    assert_eq!(render(&Status::Unloaded.to_json()), "\"unloaded\"");
    assert_eq!(Status::from_json(&JsonValue::Str(s("unloaded"))), Some(Status::Unloaded));
}

#[test]
fn status_try_from_rejects_unknown_names() {
    assert_eq!(Status::try_from(s("loading")), Ok(Status::Loading));
    assert_eq!(Status::try_from(s("complete")), Ok(Status::Complete));
    assert_eq!(Status::try_from(s("unloaded")), Ok(Status::Unloaded));
    let err = Status::try_from(s("Loading")).unwrap_err();
    assert_eq!(err.rejected(), "Loading");
    let err = Status::try_from(s("")).unwrap_err();
    assert_eq!(err.rejected(), "");
}

#[test]
fn tab_id_conversions() {
    let id = TabId::from(42);
    assert_eq!(i32::from(id), 42);
    assert_eq!(TabId::from(-7), TabId::from(-7));
}

#[test]
fn create_properties_to_json() {
    let props = CreateProperties { active: true, url: s("https://example.com/") };
    assert_eq!(
        render(&props.to_json()),
        "{\"active\":true,\"url\":\"https://example.com/\"}"
    );
}

#[test]
fn update_properties_to_json_defaults() {
    let props = UpdateProperties::default();
    assert_eq!(
        render(&props.to_json()),
        "{\"active\":null,\"autoDiscardable\":null,\"highlighted\":null,\"muted\":null,\
         \"openerTabId\":null,\"pinned\":null,\"selected\":null,\"url\":null}"
    );
}

#[test]
fn update_properties_to_json_with_values() {
    let props = UpdateProperties {
        active: Some(true),
        opener_tab_id: Some(TabId::from(9)),
        url: Some(s("https://example.com/x")),
        ..Default::default()
    };
    assert_eq!(
        render(&props.to_json()),
        "{\"active\":true,\"autoDiscardable\":null,\"highlighted\":null,\"muted\":null,\
         \"openerTabId\":9,\"pinned\":null,\"selected\":null,\"url\":\"https://example.com/x\"}"
    );
}

#[test]
fn query_details_to_json() {
    let details = QueryDetails {
        active: Some(true),
        status: Some(Status::Complete),
        title: Some(s("docs")),
        window_id: -2,
        window_type: Some(WindowType::Normal),
        ..Default::default()
    };
    assert_eq!(
        render(&details.to_json()),
        "{\"active\":true,\"audible\":null,\"autoDiscardable\":null,\"cookieStoreId\":null,\
         \"currentWindow\":null,\"discarded\":null,\"hidden\":null,\"highlighted\":null,\
         \"index\":null,\"muted\":null,\"lastFocusedWindow\":null,\"pinned\":null,\
         \"status\":\"complete\",\"title\":\"docs\",\"url\":null,\"windowId\":-2,\
         \"windowType\":\"normal\"}"
    );
}

fn full_tab_object() -> JsonValue {
    obj(vec![
        ("active", JsonValue::Bool(true)),
        ("audible", JsonValue::Null),
        ("autoDiscardable", JsonValue::Bool(false)),
        ("discarded", JsonValue::Bool(false)),
        ("favIconUrl", JsonValue::Str(s("https://example.com/icon.png"))),
        ("groupId", JsonValue::Int(-1)),
        ("height", JsonValue::UInt(1080)),
        ("highlighted", JsonValue::Bool(true)),
        ("id", JsonValue::Int(5)),
        ("incognito", JsonValue::Bool(false)),
        ("index", JsonValue::UInt(2)),
        ("openerTabId", JsonValue::Null),
        ("pendingUrl", JsonValue::Null),
        ("pinned", JsonValue::Bool(false)),
        ("sessionId", JsonValue::Null),
        ("status", JsonValue::Str(s("complete"))),
        ("title", JsonValue::Str(s("Example"))),
        ("url", JsonValue::Str(s("https://example.com/"))),
        ("width", JsonValue::UInt(1920)),
        ("windowId", JsonValue::Int(3)),
    ])
}

#[test]
fn tab_from_json_reads_every_field() {
    let tab = Tab::from_json(&full_tab_object()).unwrap();
    assert_eq!(
        tab,
        Tab {
            active: true,
            audible: None,
            auto_discardable: false,
            discarded: false,
            fav_icon_url: Some(s("https://example.com/icon.png")),
            group_id: -1,
            height: Some(1080),
            highlighted: true,
            id: Some(TabId::from(5)),
            incognito: false,
            index: 2,
            opener_tab_id: None,
            pending_url: None,
            pinned: false,
            session_id: None,
            status: Some(Status::Complete),
            title: Some(s("Example")),
            url: Some(s("https://example.com/")),
            width: Some(1920),
            window_id: 3,
        }
    );
}

#[test]
fn tab_from_json_rejects_missing_and_malformed_fields() {
    let r = Tab::from_json(&JsonValue::Bool(true));
    assert!(matches!(r, Err(Error::JsonDeserialization(_))));

    let r = Tab::from_json(&obj(vec![("active", JsonValue::Bool(true))]));
    assert!(matches!(r, Err(Error::JsonDeserialization(_))));

    let mut members = match full_tab_object() {
        JsonValue::Obj(m) => m,
        _ => unreachable!(),
    };
    members[15].1 = JsonValue::Str(s("galloping"));
    let r = Tab::from_json(&JsonValue::Obj(members));
    assert!(matches!(r, Err(Error::JsonDeserialization(_))));
}

#[test]
fn tabs_from_json_keeps_order() {
    let list = JsonValue::Arr(vec![full_tab_object(), full_tab_object()]);
    let tabs = web_extensions::tabs::tabs_from_json(&list).unwrap();
    assert_eq!(tabs.len(), 2);
    assert_eq!(tabs[0].window_id, 3);
    let not_a_list = JsonValue::Int(1);
    assert!(web_extensions::tabs::tabs_from_json(&not_a_list).is_err());
}

#[test]
fn replace_info_from_parts() {
    let info = ReplaceInfo::from_parts(8, 9);
    assert_eq!(info.added, TabId::from(8));
    assert_eq!(info.removed, TabId::from(9));
}

#[test]
fn event_info_decoders() {
    let active = ActiveInfo::from_json(&obj(vec![
        ("tabId", JsonValue::Int(4)),
        ("windowId", JsonValue::Int(7)),
    ]))
    .unwrap();
    assert_eq!(active, ActiveInfo { tab_id: TabId::from(4), window_id: 7 });

    let attach = AttachInfo::from_json(&obj(vec![
        ("newWindowId", JsonValue::Int(1)),
        ("newPosition", JsonValue::UInt(0)),
    ]))
    .unwrap();
    assert_eq!(attach, AttachInfo { new_window_id: 1, new_position: 0 });

    let detach = DetachInfo::from_json(&obj(vec![
        ("oldWindowId", JsonValue::Int(1)),
        ("oldPosition", JsonValue::UInt(6)),
    ]))
    .unwrap();
    assert_eq!(detach, DetachInfo { old_window_id: 1, old_position: 6 });

    let moved = MoveInfo::from_json(&obj(vec![
        ("windowId", JsonValue::Int(2)),
        ("fromIndex", JsonValue::UInt(0)),
        ("toIndex", JsonValue::UInt(5)),
    ]))
    .unwrap();
    assert_eq!(moved, MoveInfo { window_id: 2, from_index: 0, to_index: 5 });

    let removed = RemoveInfo::from_json(&obj(vec![
        ("windowId", JsonValue::Int(2)),
        ("isWindowClosing", JsonValue::Bool(true)),
    ]))
    .unwrap();
    assert_eq!(removed, RemoveInfo { window_id: 2, is_window_closing: true });

    let highlighted = HighlightInfo::from_json(&obj(vec![
        ("windowId", JsonValue::Int(2)),
        ("tabIds", JsonValue::Arr(vec![JsonValue::Int(3), JsonValue::UInt(9)])),
    ]))
    .unwrap();
    assert_eq!(
        highlighted,
        HighlightInfo { window_id: 2, tab_ids: vec![TabId::from(3), TabId::from(9)] }
    );
    assert!(
        HighlightInfo::from_json(&obj(vec![
            ("windowId", JsonValue::Int(2)),
            ("tabIds", JsonValue::Arr(vec![JsonValue::Bool(true)])),
        ]))
        .is_err()
    );
}

#[test]
fn change_info_from_json() {
    let change = ChangeInfo::from_json(&obj(vec![
        ("status", JsonValue::Str(s("loading"))),
        ("url", JsonValue::Str(s("https://example.com/next"))),
        (
            "mutedInfo",
            obj(vec![
                ("muted", JsonValue::Bool(true)),
                ("reason", JsonValue::Str(s("user"))),
            ]),
        ),
    ]))
    .unwrap();
    assert_eq!(change.status, Some(Status::Loading));
    assert_eq!(change.url, Some(s("https://example.com/next")));
    assert_eq!(
        change.muted_info,
        Some(MutedInfo { muted: true, extension_id: None, reason: Some(s("user")) })
    );
    assert_eq!(change.title, None);

    let empty = ChangeInfo::from_json(&obj(vec![])).unwrap();
    assert_eq!(empty.status, None);
    assert_eq!(empty.muted_info, None);
}
