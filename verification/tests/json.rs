use web_extensions::json::{render, JsonValue};

fn s(text: &str) -> String {
    text.to_string()
}

#[test]
fn render_scalars() {
    assert_eq!(render(&JsonValue::Null), "null");
    assert_eq!(render(&JsonValue::Bool(true)), "true");
    assert_eq!(render(&JsonValue::Bool(false)), "false");
    assert_eq!(render(&JsonValue::Int(0)), "0");
    assert_eq!(render(&JsonValue::Int(-1)), "-1");
    assert_eq!(render(&JsonValue::Int(1234567890123)), "1234567890123");
    assert_eq!(render(&JsonValue::Int(i64::MIN)), "-9223372036854775808");
    assert_eq!(render(&JsonValue::Int(i64::MAX)), "9223372036854775807");
    assert_eq!(render(&JsonValue::UInt(0)), "0");
    assert_eq!(render(&JsonValue::UInt(u64::MAX)), "18446744073709551615");
}

#[test]
fn render_strings_escapes_like_the_reference_encoder() {
    let samples = [
        "",
        "plain",
        "with \"quotes\" and \\backslashes\\",
        "tab\there, newline\nhere, return\rhere",
        "control \u{1} \u{8} \u{c} \u{1f} chars",
        "unicode: \u{e9}\u{4e16}\u{754c} \u{1f600}",
        "https://example.com/?q=a&b=c",
    ];
    for sample in samples {
        let expected = serde_json::to_string(sample).unwrap();
        assert_eq!(render(&JsonValue::Str(s(sample))), expected);
    }
}

#[test]
fn render_arrays_and_objects() {
    assert_eq!(render(&JsonValue::Arr(vec![])), "[]");
    assert_eq!(
        render(&JsonValue::Arr(vec![JsonValue::Int(1), JsonValue::Null, JsonValue::Bool(true)])),
        "[1,null,true]"
    );
    assert_eq!(render(&JsonValue::Obj(vec![])), "{}");
    let nested = JsonValue::Obj(vec![
        (s("a"), JsonValue::Arr(vec![JsonValue::Obj(vec![(s("b"), JsonValue::Int(2))])])),
        (s("c"), JsonValue::Str(s("d"))),
    ]);
    assert_eq!(render(&nested), "{\"a\":[{\"b\":2}],\"c\":\"d\"}");
}

#[test]
fn render_agrees_with_reference_encoder_on_a_mixed_value() {
    let value = JsonValue::Obj(vec![
        (s("name"), JsonValue::Str(s("caf\u{e9} \"quoted\"\n"))),
        (s("count"), JsonValue::Int(-42)),
        (s("big"), JsonValue::UInt(18446744073709551615)),
        (s("flags"), JsonValue::Arr(vec![JsonValue::Bool(false), JsonValue::Null])),
    ]);
    let parsed: serde_json::Value = serde_json::from_str(&render(&value)).unwrap();
    assert_eq!(parsed["name"], serde_json::Value::String(s("caf\u{e9} \"quoted\"\n")));
    assert_eq!(parsed["count"], serde_json::Value::from(-42i64));
    assert_eq!(parsed["big"], serde_json::Value::from(18446744073709551615u64));
    assert_eq!(
        parsed["flags"],
        serde_json::Value::Array(vec![serde_json::Value::Bool(false), serde_json::Value::Null])
    );
    assert_eq!(parsed.as_object().unwrap().len(), 4);
}
