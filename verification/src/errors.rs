//! Error types: a validation error for the order pipeline, and an independent
//! chained-error demonstration (a data-access failure caused by a network
//! failure) showing one-level cause inspection.

use crate::format::{contains_seq, int_digits, push_int};
use vstd::prelude::*;

verus! {

/// The display form of a validation error: `ValidationError: {message}`.
pub open spec fn validation_display(message: Seq<char>) -> Seq<char> {
    "ValidationError: "@ + message
}

/// The display form of a network error: `NetworkError: {message} (code: {code})`.
pub open spec fn network_display(message: Seq<char>, code: int) -> Seq<char> {
    "NetworkError: "@ + message + " (code: "@ + int_digits(code) + ")"@
}

/// The display form of a data-access error: `DataAccessError: {message}`.
pub open spec fn data_access_display(message: Seq<char>) -> Seq<char> {
    "DataAccessError: "@ + message
}

/// A recoverable, caller-visible order validation failure; its identity is its
/// message content.
#[derive(Debug)]
pub struct ValidationError(pub String);

impl ValidationError {
    /// The human-readable form of the error.
    pub fn display_string(&self) -> (r: String)
        ensures
            r@ == validation_display(self.0@),
    {
        let mut s = String::from_str("ValidationError: ");
        s.append(self.0.as_str());
        s
    }
}

/// A demonstration network failure: message, numeric code, and the optional
/// host and port it failed against.
#[derive(Debug)]
pub struct NetworkError {
    pub message: String,
    pub code: i32,
    pub host: Option<String>,
    pub port: Option<u16>,
}

impl NetworkError {
    /// The human-readable form of the error.
    pub fn display_string(&self) -> (r: String)
        ensures
            r@ == network_display(self.message@, self.code as int),
    {
        let mut s = String::from_str("NetworkError: ");
        s.append(self.message.as_str());
        s.append(" (code: ");
        push_int(&mut s, self.code);
        s.append(")");
        proof {
            assert(s@ =~= network_display(self.message@, self.code as int));
        }
        s
    }
}

/// A data-access failure that can carry a nested cause; a consumer can walk
/// exactly one level to the cause and display it separately.
#[derive(Debug)]
pub struct DataAccessError {
    pub message: String,
    pub source: Option<NetworkError>,
}

impl DataAccessError {
    /// The human-readable form of the top-level error, without its cause.
    pub fn display_string(&self) -> (r: String)
        ensures
            r@ == data_access_display(self.message@),
    {
        let mut s = String::from_str("DataAccessError: ");
        s.append(self.message.as_str());
        s
    }

    /// The immediate cause of this error, if any.
    pub fn source(&self) -> (r: Option<&NetworkError>)
        ensures
            r is Some <==> self.source is Some,
            r matches Some(cause) ==> self.source matches Some(c) && *cause == c,
    {
        self.source.as_ref()
    }
}

/// The data-access operation that always fails: it reports a failed query on
/// the Orders table, caused by a connection refusal from the database host
/// `db-server` with code 10061 on port 5432.
pub fn simulate_database_failure() -> (r: Result<(), DataAccessError>)
    ensures
        r is Err,
        r matches Err(e) ==> ({
            &&& e.message@ == "Failed to execute query on Orders table"@
            &&& e.source matches Some(cause) && ({
                &&& cause.message@ == "Connection refused to db-server:5432"@
                &&& contains_seq(cause.message@, "db-server"@)
                &&& cause.code == 10061
                &&& cause.host matches Some(h) && h@ == "db-server"@
                &&& cause.port == Some(5432u16)
            })
        }),
{
    let network_err = NetworkError {
        message: String::from_str("Connection refused to db-server:5432"),
        code: 10061,
        host: Some(String::from_str("db-server")),
        port: Some(5432),
    };
    proof {
        reveal_strlit("Connection refused to db-server:5432");
        reveal_strlit("db-server");
        let hay = "Connection refused to db-server:5432"@;
        let needle = "db-server"@;
        assert(hay.subrange(22, 22 + needle.len() as int) =~= needle);
    }
    Err(DataAccessError {
        message: String::from_str("Failed to execute query on Orders table"),
        source: Some(network_err),
    })
}

} // verus!
