//! The records an RPC reply decodes to, and the errors a call can end in.

use vstd::prelude::*;

verus! {

/// Why a call did not produce a `Response`.
#[derive(Debug, Clone, Copy, PartialEq, Eq, Structural)]
pub enum AurError {
    /// The query URL could not be built.
    UrlConstruction,
    /// The HTTP exchange did not complete.
    Transport,
    /// The body was not JSON of the `Response` shape.
    Decode,
}

/// One package record of the RPC interface. Optional fields are `None`
/// where the reply leaves the key out.
#[allow(non_snake_case)]
#[derive(Debug, Clone, Default)]
pub struct Package {
    pub ID: i32,
    pub Name: String,
    pub PackageBaseID: i32,
    pub PackageBase: Option<String>,
    pub Version: String,
    pub Description: Option<String>,
    pub URL: Option<String>,
    pub NumVotes: i32,
    /// The IEEE 754 bit pattern of the popularity score (`f64::to_bits`).
    pub Popularity: u64,
    pub OutOfDate: Option<i32>,
    pub Maintainer: Option<String>,
    pub FirstSubmitted: i32,
    pub LastModified: i32,
    pub URLPath: String,
    pub Depends: Option<Vec<String>>,
    pub MakeDepends: Option<Vec<String>>,
    pub CheckDepends: Option<Vec<String>>,
    pub Conflicts: Option<Vec<String>>,
    pub Provides: Option<Vec<String>>,
    pub Replaces: Option<Vec<String>>,
    pub OptDepends: Option<Vec<String>>,
    pub Groups: Option<Vec<String>>,
    pub License: Option<Vec<String>>,
    pub Keywords: Option<Vec<String>>,
}

/// The envelope of every RPC reply. A present `error` is a failure the
/// server reports; it is handed to the caller as data.
#[derive(Debug, Clone)]
pub struct Response {
    pub error: Option<String>,
    pub version: i32,
    /// The reply's `type` key.
    pub query_type: String,
    pub resultcount: i32,
    pub results: Vec<Package>,
}

/// What the HTTP exchange of a query brought back.
#[derive(Debug, Clone)]
pub enum Reply {
    /// A body that decoded to a `Response`.
    Decoded(Response),
    /// A body that is not JSON of the `Response` shape.
    Undecodable,
    /// No body: the exchange failed (connection refused or reset, timeout, TLS).
    Failed,
}

/// The result a call owes for `reply`.
pub open spec fn outcome(reply: Reply) -> Result<Response, AurError> {
    match reply {
        Reply::Decoded(resp) => Ok(resp),
        Reply::Undecodable => Err(AurError::Decode),
        Reply::Failed => Err(AurError::Transport),
    }
}

/// Ends a call: a decoded reply is returned whole, a failure becomes the error
/// of its kind and nothing of the exchange is kept.
pub fn complete(reply: Reply) -> (r: Result<Response, AurError>)
    ensures
        r == outcome(reply),
{
    match reply {
        Reply::Decoded(resp) => Ok(resp),
        Reply::Undecodable => Err(AurError::Decode),
        Reply::Failed => Err(AurError::Transport),
    }
}

} // verus!
