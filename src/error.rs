use vstd::prelude::*;

verus! {

/// The ways a request to the service can fail, each with a description
/// taken from the component that refused it.
#[derive(Debug, PartialEq, Eq)]
pub enum ServiceError {
    /// The text is not a date-time with an explicit UTC offset.
    MalformedTimestamp(String),
    /// The identifier names no entry of the timezone database.
    UnknownTimezone(String),
    /// The list of rendered instants could not be encoded as JSON.
    SerializationFailure(String),
}

} // verus!
