//! The error type shared by every fallible operation of the crate.

use vstd::prelude::*;
use xmlrpc::Error as TransportError;

verus! {

/// The transport's failure report. Its contents are never inspected here; it
/// is carried to the caller as it was received.
#[verifier::external_type_specification]
#[verifier::external_body]
pub struct ExTransportError(TransportError);

/// The unified error type for this crate.
#[derive(Debug)]
pub enum Error {
    /// The round trip failed: connection, protocol fault or remote fault.
    XmlRpc(TransportError),
    /// The response did not have the shape that the declared columns require.
    UnexpectedStructure(String),
}

/// The text of a transport failure whose own description is `detail`.
pub open spec fn transport_text(detail: Seq<char>) -> Seq<char> {
    "XML-RPC: "@ + detail
}

/// The text of a malformed response described by `detail`.
pub open spec fn structure_text(detail: Seq<char>) -> Seq<char> {
    "Unexpected XML structure: "@ + detail
}

/// The text of a transport failure whose own description is `detail`.
pub fn render_transport(detail: &str) -> (text: String)
    ensures
        text@ == transport_text(detail@),
{
    String::from_str("XML-RPC: ").concat(detail)
}

/// The text of a malformed response described by `detail`.
pub fn render_structure(detail: &str) -> (text: String)
    ensures
        text@ == structure_text(detail@),
{
    String::from_str("Unexpected XML structure: ").concat(detail)
}

/// A transport failure becomes this crate's error unchanged.
impl From<TransportError> for Error {
    fn from(x: TransportError) -> (e: Error) {
        Error::XmlRpc(x)
    }
}

impl vstd::std_specs::convert::FromSpecImpl<TransportError> for Error {
    open spec fn obeys_from_spec() -> bool {
        true
    }

    open spec fn from_spec(x: TransportError) -> Error {
        Error::XmlRpc(x)
    }
}

impl Error {
    /// The transport failure behind this error, if it is one.
    pub fn source(&self) -> (cause: Option<&TransportError>)
        ensures
            cause == match *self {
                Error::XmlRpc(e) => Some(&e),
                Error::UnexpectedStructure(_) => None,
            },
    {
        match self {
            Error::XmlRpc(e) => Some(e),
            Error::UnexpectedStructure(_) => None,
        }
    }

    /// A one-line description of this error.
    ///
    /// A malformed response is described by its own text behind a fixed
    /// heading. A transport failure is described by whatever the transport
    /// says of it, behind another.
    pub fn to_string(&self) -> (text: String)
        ensures
            match *self {
                Error::XmlRpc(_) => exists|detail: Seq<char>| text@ == transport_text(detail),
                Error::UnexpectedStructure(us) => text@ == structure_text(us@),
            },
    {
        match self {
            Error::XmlRpc(e) => {
                let detail = e.to_string();
                render_transport(detail.as_str())
            },
            Error::UnexpectedStructure(us) => render_structure(us.as_str()),
        }
    }
}

} // verus!
