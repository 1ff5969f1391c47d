//! The kind of browser window a tab can live in.

use vstd::prelude::*;

use crate::json::{JsonValue, JsonView};

verus! {

/// The kind of browser window, as the host names it.
#[derive(Debug, Clone, Copy, PartialEq, Eq, Structural)]
pub enum WindowType {
    Normal,
    Popup,
    Panel,
    Devtools,
}

impl WindowType {
    /// The name the host uses for this window type.
    pub open spec fn spec_name(self) -> Seq<char> {
        match self {
            WindowType::Normal => "normal"@,
            WindowType::Popup => "popup"@,
            WindowType::Panel => "panel"@,
            WindowType::Devtools => "devtools"@,
        }
    }

    /// The host's name for this window type.
    pub fn name(&self) -> (r: &'static str)
        ensures
            r@ == self.spec_name(),
    {
        match self {
            WindowType::Normal => "normal",
            WindowType::Popup => "popup",
            WindowType::Panel => "panel",
            WindowType::Devtools => "devtools",
        }
    }

    /// This window type as the host value it is sent as.
    pub fn to_json(&self) -> (v: JsonValue)
        ensures
            v@ == JsonView::Str(self.spec_name()),
    {
        JsonValue::Str(self.name().to_owned())
    }
}

/// An optional window type as a query sends it: the name, or null.
pub open spec fn opt_window_type_view(o: Option<WindowType>) -> JsonView {
    match o {
        Some(w) => JsonView::Str(w.spec_name()),
        None => JsonView::Null,
    }
}

/// Builds the value of an optional window-type field.
pub fn from_opt_window_type(o: &Option<WindowType>) -> (v: JsonValue)
    ensures
        v@ == opt_window_type_view(*o),
{
    match o {
        Some(w) => w.to_json(),
        None => JsonValue::Null,
    }
}

} // verus!
