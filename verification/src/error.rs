//! The errors the library reports, and the result type host callbacks use.

use vstd::prelude::*;

verus! {

/// What can go wrong when talking to the browser host.
#[derive(Debug)]
pub enum Error {
    /// The host call itself failed; holds the host's message.
    Js(String),
    /// A host response did not have the shape the caller expected.
    JsonDeserialization(String),
    /// A request could not be turned into a host value.
    JsonSerialization(String),
    /// A host value that should have been an object was not one.
    ObjectConversion,
}

impl Error {
    /// A deserialization error carrying the given message.
    pub fn bad_response(msg: &str) -> (e: Error)
        ensures
            e is JsonDeserialization,
    {
        Error::JsonDeserialization(msg.to_owned())
    }
}

} // verus!
