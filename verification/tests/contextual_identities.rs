use web_extensions::contextual_identities::{
    identities_from_json, Color, ContextualIdentity, CreateDetails, Icon, QueryDetails,
    UpdateDetails,
};
use web_extensions::json::{render, JsonValue};

fn s(text: &str) -> String {
    text.to_string()
}

fn obj(members: Vec<(&str, JsonValue)>) -> JsonValue {
    JsonValue::Obj(members.into_iter().map(|(k, v)| (k.to_string(), v)).collect())
}

#[test]
fn color_serde() {
    let cases = [
        (Color::Blue, "\"blue\""),
        (Color::Turquoise, "\"turquoise\""),
        (Color::Green, "\"green\""),
        (Color::Yellow, "\"yellow\""),
        (Color::Orange, "\"orange\""),
        (Color::Red, "\"red\""),
        (Color::Pink, "\"pink\""),
        (Color::Purple, "\"purple\""),
        (Color::Toolbar, "\"toolbar\""),
    ];
    for (value, json) in cases {
        assert_eq!(render(&value.to_json()), json);
        let name = json.trim_matches('"');
        assert_eq!(Color::parse_name(name), Some(value));
    }
}

#[test]
fn icon_serde() {
    let cases = [
        (Icon::Fingerprint, "\"fingerprint\""),
        (Icon::Briefcase, "\"briefcase\""),
        (Icon::Dollar, "\"dollar\""),
        (Icon::Cart, "\"cart\""),
        (Icon::Circle, "\"circle\""),
        (Icon::Gift, "\"gift\""),
        (Icon::Vacation, "\"vacation\""),
        (Icon::Food, "\"food\""),
        (Icon::Fruit, "\"fruit\""),
        (Icon::Pet, "\"pet\""),
        (Icon::Tree, "\"tree\""),
        (Icon::Chill, "\"chill\""),
        (Icon::Fence, "\"fence\""),
    ];
    for (value, json) in cases {
        assert_eq!(render(&value.to_json()), json);
        let name = json.trim_matches('"');
        assert_eq!(Icon::parse_name(name), Some(value));
    }
}

#[test]
fn color_and_icon_reject_unknown_names() {
    assert_eq!(Color::parse_name("magenta"), None);
    assert_eq!(Color::parse_name("Blue"), None);
    assert_eq!(Icon::parse_name("rocket"), None);
    assert_eq!(Icon::parse_name(""), None);
}

fn identity_object() -> JsonValue {
    obj(vec![
        ("cookieStoreId", JsonValue::Str(s("firefox-container-1"))),
        ("color", JsonValue::Str(s("turquoise"))),
        ("colorCode", JsonValue::Str(s("#00a7e0"))),
        ("icon", JsonValue::Str(s("fruit"))),
        ("iconUrl", JsonValue::Str(s("resource://usercontext-content/fruit.svg"))),
        ("name", JsonValue::Str(s("Shopping"))),
    ])
}

#[test]
fn contextual_identity_from_json() {
    let identity = ContextualIdentity::from_json(&identity_object()).unwrap();
    assert_eq!(
        identity,
        ContextualIdentity {
            cookie_store_id: s("firefox-container-1"),
            color: Color::Turquoise,
            color_code: s("#00a7e0"),
            icon: Icon::Fruit,
            icon_url: s("resource://usercontext-content/fruit.svg"),
            name: s("Shopping"),
        }
    );
    assert!(ContextualIdentity::from_json(&JsonValue::Null).is_err());
    assert!(
        ContextualIdentity::from_json(&obj(vec![(
            "cookieStoreId",
            JsonValue::Str(s("firefox-container-1")),
        )]))
        .is_err()
    );
}

#[test]
fn identities_from_json_keeps_order() {
    let list = JsonValue::Arr(vec![identity_object(), identity_object()]);
    let identities = identities_from_json(&list).unwrap();
    assert_eq!(identities.len(), 2);
    assert_eq!(identities[1].name, s("Shopping"));
}

#[test]
fn detail_encoders() {
    let create = CreateDetails { name: s("Work"), color: Color::Blue, icon: Icon::Briefcase };
    assert_eq!(
        render(&create.to_json()),
        "{\"name\":\"Work\",\"color\":\"blue\",\"icon\":\"briefcase\"}"
    );

    let query = QueryDetails { name: Some(s("Work")) };
    assert_eq!(render(&query.to_json()), "{\"name\":\"Work\"}");
    let query = QueryDetails::default();
    assert_eq!(render(&query.to_json()), "{\"name\":null}");

    let update = UpdateDetails { name: None, color: Some(Color::Red), icon: None };
    assert_eq!(render(&update.to_json()), "{\"name\":null,\"color\":\"red\",\"icon\":null}");
}
