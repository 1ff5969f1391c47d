//! The load state of a tab.

use vstd::prelude::*;

use crate::json::{opt_str_of, JsonValue, JsonView};

verus! {

/// The load state of a tab, as the host names it.
#[derive(Debug, Clone, Copy, PartialEq, Eq, Structural)]
pub enum Status {
    Unloaded,
    Loading,
    Complete,
}

/// The error for a status name the host does not know.
///
/// Holds the rejected name.
#[derive(Debug, PartialEq, Eq)]
pub struct InvalidStatusError(pub String);

impl View for InvalidStatusError {
    type V = Seq<char>;

    open spec fn view(&self) -> Seq<char> {
        self.0@
    }
}

impl InvalidStatusError {
    /// The name that was rejected.
    pub fn rejected(&self) -> (r: &String)
        ensures
            r@ == self@,
    {
        &self.0
    }
}

impl Status {
    /// The name the host uses for this status.
    pub open spec fn spec_name(self) -> Seq<char> {
        match self {
            Status::Unloaded => "unloaded"@,
            Status::Loading => "loading"@,
            Status::Complete => "complete"@,
        }
    }

    /// The status a host name denotes, if any.
    pub open spec fn of_name(s: Seq<char>) -> Option<Status> {
        if s == "unloaded"@ {
            Some(Status::Unloaded)
        } else if s == "loading"@ {
            Some(Status::Loading)
        } else if s == "complete"@ {
            Some(Status::Complete)
        } else {
            None
        }
    }

    /// The host's name for this status.
    pub fn name(&self) -> (r: &'static str)
        ensures
            r@ == self.spec_name(),
    {
        match self {
            Status::Unloaded => "unloaded",
            Status::Loading => "loading",
            Status::Complete => "complete",
        }
    }

    /// Parses a host name into a status.
    pub fn parse_name(s: &str) -> (r: Option<Status>)
        ensures
            r == Status::of_name(s@),
    {
        if crate::json::str_eq(s, "unloaded") {
            Some(Status::Unloaded)
        } else if crate::json::str_eq(s, "loading") {
            Some(Status::Loading)
        } else if crate::json::str_eq(s, "complete") {
            Some(Status::Complete)
        } else {
            None
        }
    }

    /// This status as the host value it is sent as.
    pub fn to_json(&self) -> (v: JsonValue)
        ensures
            v@ == JsonView::Str(self.spec_name()),
    {
        JsonValue::Str(self.name().to_owned())
    }

    /// Reads a status out of a host value.
    pub fn from_json(v: &JsonValue) -> (r: Option<Status>)
        ensures
            match r {
                Some(st) => v@ matches JsonView::Str(s) && Status::of_name(s) == Some(st),
                None => match v@ {
                    JsonView::Str(s) => Status::of_name(s) is None,
                    _ => true,
                },
            },
    {
        match v {
            JsonValue::Str(s) => Status::parse_name(s.as_str()),
            _ => None,
        }
    }
}

/// Serializing a status and reading the name back yields the same status:
/// the host names are distinct and `of_name` inverts `spec_name`.
pub proof fn lemma_status_name_round_trip(st: Status)
    ensures
        Status::of_name(st.spec_name()) == Some(st),
{
    reveal_strlit("unloaded");
    reveal_strlit("loading");
    reveal_strlit("complete");
    assert(("unloaded"@).len() == 8);
    assert(("loading"@).len() == 7);
    assert(("complete"@).len() == 8);
    assert("loading"@ != "unloaded"@);
    assert(("complete"@)[0] != ("unloaded"@)[0]);
    assert("complete"@ != "unloaded"@);
    assert("complete"@ != "loading"@);
    match st {
        Status::Unloaded => assert(Status::of_name("unloaded"@) == Some(Status::Unloaded)),
        Status::Loading => assert(Status::of_name("loading"@) == Some(Status::Loading)),
        Status::Complete => assert(Status::of_name("complete"@) == Some(Status::Complete)),
    }
}

impl TryFrom<String> for Status {
    type Error = InvalidStatusError;

    fn try_from(s: String) -> Result<Self, Self::Error> {
        match Status::parse_name(s.as_str()) {
            Some(st) => Ok(st),
            None => Err(InvalidStatusError(s)),
        }
    }
}

impl vstd::std_specs::convert::TryFromSpecImpl<String> for Status {
    open spec fn obeys_try_from_spec() -> bool {
        true
    }

    open spec fn try_from_spec(s: String) -> Result<Status, InvalidStatusError> {
        match Status::of_name(s@) {
            Some(st) => Ok(st),
            None => Err(InvalidStatusError(s)),
        }
    }
}

/// An optional status as a query sends it: the name, or null.
pub open spec fn opt_status_view(o: Option<Status>) -> JsonView {
    match o {
        Some(st) => JsonView::Str(st.spec_name()),
        None => JsonView::Null,
    }
}

/// Builds the value of an optional status field.
pub fn from_opt_status(o: &Option<Status>) -> (v: JsonValue)
    ensures
        v@ == opt_status_view(*o),
{
    match o {
        Some(st) => st.to_json(),
        None => JsonValue::Null,
    }
}

/// An optional status field of a host object: absent or null is nothing,
/// a known name is that status, anything else is an error.
pub open spec fn opt_status_of(o: Seq<(Seq<char>, JsonView)>, key: Seq<char>) -> Result<
    Option<Status>,
    (),
> {
    match opt_str_of(o, key) {
        Ok(None) => Ok(None),
        Ok(Some(s)) => match Status::of_name(s) {
            Some(st) => Ok(Some(st)),
            None => Err(()),
        },
        Err(e) => Err(e),
    }
}

/// Reads an optional status field.
pub fn opt_status(o: &Vec<(String, JsonValue)>, key: &str) -> (r: Result<Option<Status>, ()>)
    ensures
        r == opt_status_of(crate::json::members_of_vec(*o), key@),
{
    match crate::json::opt_str(o, key) {
        Ok(None) => Ok(None),
        Ok(Some(s)) => match Status::parse_name(s.as_str()) {
            Some(st) => Ok(Some(st)),
            None => Err(()),
        },
        Err(e) => Err(e),
    }
}

} // verus!
