//! One remote procedure call, as it is handed to the transport.

use vstd::prelude::*;
use crate::value::{wires, Value, Wire};

verus! {

/// A remote procedure call that is ready to be sent: where to, which
/// method, and with which arguments.
///
/// The library never sends a call itself. It hands the call to a transport,
/// a function from a call to the remote side's answer, and works on what
/// comes back.
#[derive(Debug, PartialEq)]
pub struct Call {
    /// The address of the remote endpoint.
    pub endpoint: String,
    /// The name of the remote method.
    pub method_name: String,
    /// The arguments, in order.
    pub args: Vec<Value>,
}

/// The mathematical content of a [`Call`].
pub ghost struct CallView {
    pub endpoint: Seq<char>,
    pub method_name: Seq<char>,
    pub args: Seq<Wire>,
}

impl View for Call {
    type V = CallView;

    open spec fn view(&self) -> CallView {
        CallView {
            endpoint: self.endpoint@,
            method_name: self.method_name@,
            args: wires(self.args@),
        }
    }
}

} // verus!
