//! The handle that identifies one remote endpoint.

use vstd::prelude::*;
use xmlrpc::Error as TransportError;
use crate::call::{Call, CallView};
use crate::error::Error;
use crate::value::{mismatch_message, to_typed, ResultType, Scalar, TypedValue, Value, Wire};

verus! {

/// `Server` represents a logical rtorrent instance.
///
/// The handle holds the address of the endpoint and nothing else: no
/// connection is opened when it is made, and none is kept between calls.
#[derive(Debug)]
pub struct Server {
    endpoint: String,
}

impl View for Server {
    type V = Seq<char>;

    closed spec fn view(&self) -> Seq<char> {
        self.endpoint@
    }
}

impl Clone for Server {
    fn clone(&self) -> (copy: Server)
        ensures
            copy@ == self@,
    {
        Server { endpoint: self.endpoint.clone() }
    }
}

/// The outcome of a call that reads one field of declared type `expected`,
/// given what the transport answered: the value that the answer carries.
pub open spec fn field_value(expected: ResultType, reply: Wire) -> Result<Scalar, Seq<char>> {
    match reply.typed_as(expected) {
        Some(s) => Ok(s),
        None => Err(mismatch_message(expected, reply)),
    }
}

/// Finishes a call that reads one field of declared type `expected`.
///
/// A failure of the transport is passed on. An answer is read as the
/// declared type, and refused if its wire tag is another.
pub fn read_field(expected: ResultType, outcome: Result<Value, TransportError>) -> (res: Result<
    TypedValue,
    Error,
>)
    ensures
        match outcome {
            Err(e) => res matches Err(Error::XmlRpc(cause)) && cause == e,
            Ok(reply) => match field_value(expected, reply@) {
                Ok(s) => res matches Ok(t) && t@ == s,
                Err(text) => res matches Err(Error::UnexpectedStructure(msg)) && msg@ == text,
            },
        },
{
    match outcome {
        Err(e) => Err(Error::XmlRpc(e)),
        Ok(reply) => to_typed(&reply, expected),
    }
}

impl Server {
    /// Makes a handle for the endpoint at `endpoint`. This never fails, and
    /// it opens no connection.
    pub fn new(endpoint: &str) -> (server: Server)
        ensures
            server@ == endpoint@,
    {
        Server { endpoint: String::from_str(endpoint) }
    }

    /// The address of the endpoint.
    pub fn endpoint(&self) -> (address: &str)
        ensures
            address@ == self@,
    {
        self.endpoint.as_str()
    }

    /// The call that asks the endpoint for the value of `method_name`, with
    /// no arguments.
    pub open spec fn query(self, method_name: Seq<char>) -> CallView {
        CallView { endpoint: self@, method_name, args: Seq::empty() }
    }

    /// The host name of the machine that the remote side runs on.
    ///
    /// One call, `system.hostname` without arguments, goes through
    /// `transport`, exactly once. The text that comes back is returned as it
    /// is.
    pub fn hostname<F: FnOnce(Call) -> Result<Value, TransportError>>(&self, transport: F) -> (res:
        Result<String, Error>)
        requires
            forall|call: Call|
                call@ == self.query("system.hostname"@) ==> #[trigger] transport.requires((call,)),
        ensures
            exists|call: Call, outcome: Result<Value, TransportError>|
                {
                    &&& call@ == self.query("system.hostname"@)
                    &&& #[trigger] transport.ensures((call,), outcome)
                    &&& match outcome {
                        Err(e) => res matches Err(Error::XmlRpc(cause)) && cause == e,
                        Ok(reply) => match field_value(ResultType::Text, reply@) {
                            Ok(s) => res matches Ok(name) && Scalar::Text(name@) == s,
                            Err(text) => res matches Err(Error::UnexpectedStructure(msg)) && msg@
                                == text,
                        },
                    }
                },
    {
        let call = Call {
            endpoint: self.endpoint.clone(),
            method_name: String::from_str("system.hostname"),
            args: Vec::new(),
        };
        assert(call@.args =~= Seq::<Wire>::empty());
        let outcome = transport(call);
        match read_field(ResultType::Text, outcome) {
            Ok(TypedValue::Text(name)) => Ok(name),
            Ok(_) => vstd::pervasive::unreached(),
            Err(e) => Err(e),
        }
    }
}

} // verus!
