//! Wrapper for the browser's `omnibox` API.

use vstd::prelude::*;

use web_extensions_sys as sys;

use crate::error::Error;
use crate::json::{render, str_eq, JsonValue, JsonView};

verus! {

/// Sets the description and styling for the default suggestion.
///
/// The default suggestion is the text that is displayed in the first
/// suggestion row underneath the URL bar.
pub fn set_default_suggestion(suggestion: &DefaultSuggestResult) -> (r: Result<(), Error>)
    ensures
        r is Ok,
{
    let v = suggestion.to_json();
    let text = render(&v);
    raw_set_default_suggestion(text.as_str());
    Ok(())
}

/// Relies on `web_extensions_sys`: `chrome().omnibox().set_default_suggestion`
/// hands the host the given suggestion object, here carried as JSON text and
/// parsed back into a host value on the way in.
#[verifier::external_body]
fn raw_set_default_suggestion(json: &str) {
    if let Ok(value) = js_sys::JSON::parse(json) {
        sys::chrome().omnibox().set_default_suggestion(&value);
    }
}

/// The default suggestion shown under the URL bar.
#[derive(Debug, Clone)]
pub struct DefaultSuggestResult {
    /// The text that is displayed in the URL dropdown.
    pub description: String,
}

impl DefaultSuggestResult {
    /// The object the host is handed.
    pub open spec fn json(self) -> JsonView {
        JsonView::Obj(seq![("description"@, JsonView::Str(self.description@))])
    }

    /// Builds the object the host is handed.
    pub fn to_json(&self) -> (v: JsonValue)
        ensures
            v@ == self.json(),
    {
        let mut members: Vec<(String, JsonValue)> = Vec::new();
        members.push(("description".to_owned(), JsonValue::Str(self.description.clone())));
        let v = JsonValue::Obj(members);
        proof {
            crate::json::lemma_members_of_seq(v->Obj_0@);
            let ghost ms = crate::json::members_of_vec(v->Obj_0);
            assert forall|i: int| 0 <= i < ms.len() implies ms[i] == self.json()->Obj_0[i] by {
                assert(ms[i] == crate::json::member_view(v->Obj_0@[i]));
            }
            assert(ms =~~= self.json()->Obj_0);
            assert(v@ =~~= self.json());
        }
        v
    }
}

/// How a span of a suggestion's description is styled.
#[derive(Debug, Clone, Copy, PartialEq, Eq, Structural)]
pub enum DescriptionStyleType {
    Url,
    Match,
    Dim,
}

impl DescriptionStyleType {
    /// The name the host uses for this style.
    pub open spec fn spec_name(self) -> Seq<char> {
        match self {
            DescriptionStyleType::Url => "url"@,
            DescriptionStyleType::Match => "match"@,
            DescriptionStyleType::Dim => "dim"@,
        }
    }

    /// The style a host name denotes, if any.
    pub open spec fn of_name(s: Seq<char>) -> Option<DescriptionStyleType> {
        if s == "url"@ {
            Some(DescriptionStyleType::Url)
        } else if s == "match"@ {
            Some(DescriptionStyleType::Match)
        } else if s == "dim"@ {
            Some(DescriptionStyleType::Dim)
        } else {
            None
        }
    }

    /// The host's name for this style.
    pub fn name(&self) -> (r: &'static str)
        ensures
            r@ == self.spec_name(),
    {
        match self {
            DescriptionStyleType::Url => "url",
            DescriptionStyleType::Match => "match",
            DescriptionStyleType::Dim => "dim",
        }
    }

    /// Parses a host name into a style.
    pub fn parse_name(s: &str) -> (r: Option<DescriptionStyleType>)
        ensures
            r == DescriptionStyleType::of_name(s@),
    {
        if str_eq(s, "url") {
            Some(DescriptionStyleType::Url)
        } else if str_eq(s, "match") {
            Some(DescriptionStyleType::Match)
        } else if str_eq(s, "dim") {
            Some(DescriptionStyleType::Dim)
        } else {
            None
        }
    }
}

/// The window disposition for the omnibox query.
///
/// This is the recommended context to display results. For example, if the
/// omnibox command is to navigate to a certain URL, a disposition of
/// "newForegroundTab" means the navigation should take place in a new
/// selected tab.
#[derive(Debug, Clone, Copy, PartialEq, Eq, Structural)]
pub enum OnInputEnteredDisposition {
    CurrentTab,
    NewForegroundTab,
    NewBackgroundTab,
}

impl OnInputEnteredDisposition {
    /// The name the host uses for this disposition.
    pub open spec fn spec_name(self) -> Seq<char> {
        match self {
            OnInputEnteredDisposition::CurrentTab => "currentTab"@,
            OnInputEnteredDisposition::NewForegroundTab => "newForegroundTab"@,
            OnInputEnteredDisposition::NewBackgroundTab => "newBackgroundTab"@,
        }
    }

    /// The disposition a host name denotes, if any.
    pub open spec fn of_name(s: Seq<char>) -> Option<OnInputEnteredDisposition> {
        if s == "currentTab"@ {
            Some(OnInputEnteredDisposition::CurrentTab)
        } else if s == "newForegroundTab"@ {
            Some(OnInputEnteredDisposition::NewForegroundTab)
        } else if s == "newBackgroundTab"@ {
            Some(OnInputEnteredDisposition::NewBackgroundTab)
        } else {
            None
        }
    }

    /// The host's name for this disposition.
    pub fn name(&self) -> (r: &'static str)
        ensures
            r@ == self.spec_name(),
    {
        match self {
            OnInputEnteredDisposition::CurrentTab => "currentTab",
            OnInputEnteredDisposition::NewForegroundTab => "newForegroundTab",
            OnInputEnteredDisposition::NewBackgroundTab => "newBackgroundTab",
        }
    }

    /// Parses a host name into a disposition.
    pub fn parse_name(s: &str) -> (r: Option<OnInputEnteredDisposition>)
        ensures
            r == OnInputEnteredDisposition::of_name(s@),
    {
        if str_eq(s, "currentTab") {
            Some(OnInputEnteredDisposition::CurrentTab)
        } else if str_eq(s, "newForegroundTab") {
            Some(OnInputEnteredDisposition::NewForegroundTab)
        } else if str_eq(s, "newBackgroundTab") {
            Some(OnInputEnteredDisposition::NewBackgroundTab)
        } else {
            None
        }
    }
}

/// Serializing a disposition and reading the name back yields the same
/// disposition: the host names are distinct and `of_name` inverts
/// `spec_name`.
pub proof fn lemma_disposition_name_round_trip(d: OnInputEnteredDisposition)
    ensures
        OnInputEnteredDisposition::of_name(d.spec_name()) == Some(d),
{
    reveal_strlit("currentTab");
    reveal_strlit("newForegroundTab");
    reveal_strlit("newBackgroundTab");
    assert(("currentTab"@).len() == 10);
    assert(("newForegroundTab"@).len() == 16);
    assert(("newBackgroundTab"@).len() == 16);
    assert("newForegroundTab"@ != "currentTab"@);
    assert("newBackgroundTab"@ != "currentTab"@);
    assert(("newBackgroundTab"@)[3] != ("newForegroundTab"@)[3]);
    assert("newBackgroundTab"@ != "newForegroundTab"@);
    match d {
        OnInputEnteredDisposition::CurrentTab => assert(OnInputEnteredDisposition::of_name(
            "currentTab"@,
        ) == Some(OnInputEnteredDisposition::CurrentTab)),
        OnInputEnteredDisposition::NewForegroundTab => assert(OnInputEnteredDisposition::of_name(
            "newForegroundTab"@,
        ) == Some(OnInputEnteredDisposition::NewForegroundTab)),
        OnInputEnteredDisposition::NewBackgroundTab => assert(OnInputEnteredDisposition::of_name(
            "newBackgroundTab"@,
        ) == Some(OnInputEnteredDisposition::NewBackgroundTab)),
    }
}

/// A suggest result.
#[derive(Debug, Clone, Default)]
pub struct SuggestResult {
    /// The text that is put into the URL bar, and that is sent to the
    /// extension when the user chooses this entry.
    pub content: String,
    /// Whether the suggest result can be deleted by the user.
    pub deletable: bool,
    /// The text that is displayed in the URL dropdown.
    pub description: String,
}

impl SuggestResult {
    /// The object the host is handed for this suggestion.
    pub open spec fn json(self) -> JsonView {
        JsonView::Obj(
            seq![
                ("content"@, JsonView::Str(self.content@)),
                ("deletable"@, JsonView::Bool(self.deletable)),
                ("description"@, JsonView::Str(self.description@)),
            ],
        )
    }

    /// Builds the object the host is handed for this suggestion.
    pub fn to_json(&self) -> (v: JsonValue)
        ensures
            v@ == self.json(),
    {
        let mut members: Vec<(String, JsonValue)> = Vec::new();
        members.push(("content".to_owned(), JsonValue::Str(self.content.clone())));
        members.push(("deletable".to_owned(), JsonValue::Bool(self.deletable)));
        members.push(("description".to_owned(), JsonValue::Str(self.description.clone())));
        let v = JsonValue::Obj(members);
        proof {
            crate::json::lemma_members_of_seq(v->Obj_0@);
            let ghost ms = crate::json::members_of_vec(v->Obj_0);
            assert forall|i: int| 0 <= i < ms.len() implies ms[i] == self.json()->Obj_0[i] by {
                assert(ms[i] == crate::json::member_view(v->Obj_0@[i]));
            }
            assert(ms =~~= self.json()->Obj_0);
            assert(v@ =~~= self.json());
        }
        v
    }
}

/// The array the host's suggest callback is handed.
pub open spec fn suggest_list_view(s: Seq<SuggestResult>) -> Seq<JsonView>
    decreases s.len(),
{
    if s.len() == 0 {
        Seq::empty()
    } else {
        seq![s[0].json()] + suggest_list_view(s.drop_first())
    }
}

pub proof fn lemma_suggest_list_view(s: Seq<SuggestResult>)
    ensures
        suggest_list_view(s).len() == s.len(),
        forall|i: int| 0 <= i < s.len() ==> suggest_list_view(s)[i] == s[i].json(),
    decreases s.len(),
{
    if s.len() > 0 {
        lemma_suggest_list_view(s.drop_first());
    }
}

/// Builds the array the host's suggest callback is handed.
#[verifier::loop_isolation(false)]
pub fn suggest_results_to_json(results: &Vec<SuggestResult>) -> (v: JsonValue)
    ensures
        v@ == JsonView::Arr(suggest_list_view(results@)),
{
    let mut out: Vec<JsonValue> = Vec::new();
    let n = results.len();
    let mut k: usize = 0;
    while k < n
        invariant
            n == results@.len(),
            0 <= k <= n,
            out@.len() == k,
            forall|i: int| 0 <= i < k ==> crate::json::view_of(#[trigger] out@[i]) == results@[i].json(),
        decreases n - k,
    {
        out.push(results[k].to_json());
        k = k + 1;
    }
    let v = JsonValue::Arr(out);
    proof {
        crate::json::lemma_views_of_seq(v->Arr_0@);
        lemma_suggest_list_view(results@);
        assert(crate::json::views_of_vec(v->Arr_0) =~= suggest_list_view(results@));
    }
    v
}

/// The host's `omnibox.onDeleteSuggestion` event: the user has deleted a
/// suggested result.
pub fn on_delete_suggestion() -> OnDeleteSuggestion {
    OnDeleteSuggestion(raw_on_delete_suggestion())
}

/// The host's `omnibox.onDeleteSuggestion` event target.
pub struct OnDeleteSuggestion(pub sys::EventTarget);

/// Relies on `web_extensions_sys`: `chrome().omnibox().on_delete_suggestion()`
/// is the host's `omnibox.onDeleteSuggestion` event target.
#[verifier::external_body]
fn raw_on_delete_suggestion() -> sys::EventTarget {
    sys::chrome().omnibox().on_delete_suggestion()
}

/// The host's `omnibox.onInputCancelled` event: the user has ended the
/// keyword input session without accepting the input.
pub fn on_input_cancelled() -> OnInputCancelled {
    OnInputCancelled(raw_on_input_cancelled())
}

/// The host's `omnibox.onInputCancelled` event target.
pub struct OnInputCancelled(pub sys::EventTarget);

/// Relies on `web_extensions_sys`: `chrome().omnibox().on_input_cancelled()`
/// is the host's `omnibox.onInputCancelled` event target.
#[verifier::external_body]
fn raw_on_input_cancelled() -> sys::EventTarget {
    sys::chrome().omnibox().on_input_cancelled()
}

/// The host's `omnibox.onInputChanged` event: the user has changed what is
/// typed into the omnibox.
pub fn on_input_changed() -> OnInputChanged {
    OnInputChanged(raw_on_input_changed())
}

/// The host's `omnibox.onInputChanged` event target.
pub struct OnInputChanged(pub sys::EventTarget);

/// Relies on `web_extensions_sys`: `chrome().omnibox().on_input_changed()`
/// is the host's `omnibox.onInputChanged` event target.
#[verifier::external_body]
fn raw_on_input_changed() -> sys::EventTarget {
    sys::chrome().omnibox().on_input_changed()
}

/// The host's `omnibox.onInputEntered` event: the user has accepted what is
/// typed into the omnibox.
pub fn on_input_entered() -> OnInputEntered {
    OnInputEntered(raw_on_input_entered())
}

/// The host's `omnibox.onInputEntered` event target.
pub struct OnInputEntered(pub sys::EventTarget);

/// Relies on `web_extensions_sys`: `chrome().omnibox().on_input_entered()`
/// is the host's `omnibox.onInputEntered` event target.
#[verifier::external_body]
fn raw_on_input_entered() -> sys::EventTarget {
    sys::chrome().omnibox().on_input_entered()
}

/// The host's `omnibox.onInputStarted` event: the user has started a keyword
/// input session.
pub fn on_input_started() -> OnInputStarted {
    OnInputStarted(raw_on_input_started())
}

/// The host's `omnibox.onInputStarted` event target.
pub struct OnInputStarted(pub sys::EventTarget);

/// Relies on `web_extensions_sys`: `chrome().omnibox().on_input_started()`
/// is the host's `omnibox.onInputStarted` event target.
#[verifier::external_body]
fn raw_on_input_started() -> sys::EventTarget {
    sys::chrome().omnibox().on_input_started()
}

} // verus!
