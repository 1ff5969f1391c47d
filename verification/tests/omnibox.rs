use web_extensions::json::{render, JsonValue};
use web_extensions::omnibox::{
    suggest_results_to_json, DefaultSuggestResult, DescriptionStyleType, OnInputEnteredDisposition,
    SuggestResult,
};

fn s(text: &str) -> String {
    text.to_string()
}

#[test]
fn default_suggest_result_encodes() {
    let suggestion = DefaultSuggestResult { description: s("Type anything to search") };
    assert_eq!(
        render(&suggestion.to_json()),
        "{\"description\":\"Type anything to search\"}"
    );
}

#[test]
fn suggest_results_encode_as_an_array() {
    let results = vec![
        SuggestResult {
            content: s("https://example.com/a"),
            deletable: true,
            description: s("A"),
        },
        SuggestResult {
            content: s("https://example.com/b"),
            deletable: false,
            description: s("B"),
        },
    ];
    assert_eq!(
        render(&suggest_results_to_json(&results)),
        "[{\"content\":\"https://example.com/a\",\"deletable\":true,\"description\":\"A\"},\
         {\"content\":\"https://example.com/b\",\"deletable\":false,\"description\":\"B\"}]"
    );
    assert_eq!(render(&suggest_results_to_json(&vec![])), "[]");
}

#[test]
fn description_style_type_names() {
    let cases = [
        (DescriptionStyleType::Url, "url"),
        (DescriptionStyleType::Match, "match"),
        (DescriptionStyleType::Dim, "dim"),
    ];
    for (value, name) in cases {
        assert_eq!(value.name(), name);
        assert_eq!(DescriptionStyleType::parse_name(name), Some(value));
    }
    assert_eq!(DescriptionStyleType::parse_name("bold"), None);
}

#[test]
fn disposition_names() {
    let cases = [
        (OnInputEnteredDisposition::CurrentTab, "currentTab"),
        (OnInputEnteredDisposition::NewForegroundTab, "newForegroundTab"),
        (OnInputEnteredDisposition::NewBackgroundTab, "newBackgroundTab"),
    ];
    for (value, name) in cases {
        assert_eq!(value.name(), name);
        assert_eq!(OnInputEnteredDisposition::parse_name(name), Some(value));
    }
    assert_eq!(OnInputEnteredDisposition::parse_name("current_tab"), None);
}
