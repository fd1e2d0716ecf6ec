//! Building and running a multicall: one remote procedure call that reads a
//! declared list of fields of every entity in a collection.
//!
//! A builder starts with no column, takes one column per call of
//! [`MultiBuilder::add_column`], and is used up by
//! [`MultiBuilder::invoke`], which makes one round trip and decodes the
//! answer into rows of exactly the declared types.

use vstd::prelude::*;
use xmlrpc::Error as TransportError;
use crate::call::{Call, CallView};
use crate::decode::{decode, decode_response, row_fits, rows_fit, typed_rows, ResultSet};
use crate::error::Error;
use crate::operation::{descriptors, row_type, EntityKind, Operation, OperationView};
use crate::server::Server;
use crate::value::{list_items, to_untyped, wires, ResultType, TypedValue, Value, Wire};

verus! {

/// The mathematical content of a [`MultiBuilder`]: the multicall that it
/// describes.
pub ghost struct Multicall {
    /// The address of the endpoint that the call goes to.
    pub endpoint: Seq<char>,
    /// The kind of the entities that the call reads.
    pub kind: EntityKind,
    /// The collection that the call ranges over.
    pub target_filter: Seq<char>,
    /// The declared columns, in the order of declaration.
    pub columns: Seq<OperationView>,
}

impl Multicall {
    /// Whether every column belongs to the kind of entity that the call
    /// ranges over.
    pub open spec fn well_formed(self) -> bool {
        forall|i: int| 0 <= i < self.columns.len() ==> (#[trigger] self.columns[i]).kind == self.kind
    }

    /// The name of the remote method.
    pub open spec fn method_name(self) -> Seq<char> {
        self.kind.multicall_method()
    }

    /// The arguments of the remote method: a reserved empty text, the
    /// target filter, and then the remote name of each column in order.
    pub open spec fn args(self) -> Seq<Wire> {
        seq![Wire::Text(Seq::empty()), Wire::Text(self.target_filter)] + Seq::new(
            self.columns.len(),
            |i: int| Wire::Text(self.columns[i].remote_name),
        )
    }

    /// The one call that running the multicall sends.
    pub open spec fn call(self) -> CallView {
        CallView { endpoint: self.endpoint, method_name: self.method_name(), args: self.args() }
    }

    /// The type of the rows that the multicall yields.
    pub open spec fn row_type(self) -> Seq<ResultType> {
        row_type(self.columns)
    }
}

/// `MultiBuilder` is a tool for building queries across many entities of
/// one kind.
///
/// The constructed query is executed in a single call, and the results come
/// back as typed rows, one per entity, whose types are those of the columns
/// in the order in which they were added.
#[derive(Debug)]
pub struct MultiBuilder {
    server: Server,
    kind: EntityKind,
    target_filter: String,
    columns: Vec<Operation>,
}

impl View for MultiBuilder {
    type V = Multicall;

    closed spec fn view(&self) -> Multicall {
        Multicall {
            endpoint: self.server@,
            kind: self.kind,
            target_filter: self.target_filter@,
            columns: descriptors(self.columns@),
        }
    }
}

/// How one round trip ends: `res` is what a multicall of row type `types`
/// returns when the transport answered `outcome`.
///
/// A failure of the transport is passed on as it is. An answer is decoded
/// whole or refused whole.
pub open spec fn completes(
    types: Seq<ResultType>,
    outcome: Result<Value, TransportError>,
    res: Result<ResultSet, Error>,
) -> bool {
    match outcome {
        Err(e) => res matches Err(Error::XmlRpc(cause)) && cause == e,
        Ok(reply) => match decode_response(reply@, types) {
            Ok(rows) => res matches Ok(set) && set@ == rows && set.types() == types,
            Err(text) => res matches Err(Error::UnexpectedStructure(msg)) && msg@ == text,
        },
    }
}

/// Finishes a multicall over `columns`, given what the transport answered.
pub fn complete(columns: &Vec<Operation>, outcome: Result<Value, TransportError>) -> (res: Result<
    ResultSet,
    Error,
>)
    ensures
        completes(row_type(descriptors(columns@)), outcome, res),
{
    match outcome {
        Err(e) => Err(Error::XmlRpc(e)),
        Ok(reply) => match list_items(&reply) {
            Ok(raw_rows) => decode(raw_rows, columns),
            Err(e) => Err(e),
        },
    }
}

/// A response whose rows each hold exactly one value per declared column,
/// each with the wire tag of its column's type, is decoded: there is one
/// typed row per row of the response, in the same order, and every field is
/// the value that the response holds at that position, converted.
pub proof fn lemma_fitting_response_is_decoded(
    types: Seq<ResultType>,
    reply: Value,
    res: Result<ResultSet, Error>,
)
    requires
        completes(types, Ok(reply), res),
        reply@ is List,
        rows_fit(reply@.items(), types),
    ensures
        res matches Ok(set) && set@.len() == reply@.items().len() && forall|r: int, i: int|
            0 <= r < set@.len() && 0 <= i < types.len() ==> set@[r].len() == types.len() && Some(
                #[trigger] set@[r][i],
            ) == reply@.items()[r].items()[i].typed_as(types[i]),
{
    let rows = reply@.items();
    assert forall|r: int, i: int| 0 <= r < rows.len() && 0 <= i < types.len() implies Some(
        #[trigger] typed_rows(rows, types)[r][i],
    ) == rows[r].items()[i].typed_as(types[i]) by {
        assert(row_fits(rows[r], types));
        assert(rows[r].items()[i].tag() == Some(types[i]));
    }
}

/// A response with a row whose width is not the number of declared columns
/// is refused as malformed, and no row of it is returned.
pub proof fn lemma_wrong_width_is_refused(
    types: Seq<ResultType>,
    reply: Value,
    res: Result<ResultSet, Error>,
    r: int,
)
    requires
        completes(types, Ok(reply), res),
        reply@ is List,
        0 <= r < reply@.items().len(),
        reply@.items()[r].items().len() != types.len(),
    ensures
        res matches Err(Error::UnexpectedStructure(_)),
{
    assert(!row_fits(reply@.items()[r], types));
}

/// A response with a value whose wire tag is not the declared type of its
/// column is refused as malformed, and no row of it is returned, not even
/// in part.
pub proof fn lemma_wrong_tag_is_refused(
    types: Seq<ResultType>,
    reply: Value,
    res: Result<ResultSet, Error>,
    r: int,
    i: int,
)
    requires
        completes(types, Ok(reply), res),
        reply@ is List,
        0 <= r < reply@.items().len(),
        0 <= i < types.len(),
        reply@.items()[r].items()[i].tag() != Some(types[i]),
    ensures
        res matches Err(Error::UnexpectedStructure(_)),
{
    assert(!row_fits(reply@.items()[r], types));
}

/// A multicall without columns, answered by rows of no values, yields as
/// many empty rows as the answer has rows. That is no error.
pub proof fn lemma_no_columns_yield_empty_rows(
    types: Seq<ResultType>,
    reply: Value,
    res: Result<ResultSet, Error>,
)
    requires
        completes(types, Ok(reply), res),
        types.len() == 0,
        reply@ is List,
        forall|r: int|
            0 <= r < reply@.items().len() ==> (#[trigger] reply@.items()[r]) is List
                && reply@.items()[r].items().len() == 0,
    ensures
        res matches Ok(set) && set@.len() == reply@.items().len() && forall|r: int|
            0 <= r < set@.len() ==> (#[trigger] set@[r]).len() == 0,
{
    assert(rows_fit(reply@.items(), types));
}

/// A failure of the transport is never mistaken for an answer, and an
/// answer never for a failure of the transport.
pub proof fn lemma_outcome_decides_error_kind(
    types: Seq<ResultType>,
    outcome: Result<Value, TransportError>,
    res: Result<ResultSet, Error>,
)
    requires
        completes(types, outcome, res),
    ensures
        outcome is Err <==> res matches Err(Error::XmlRpc(_)),
        outcome is Ok ==> (res is Ok || res matches Err(Error::UnexpectedStructure(_))),
{
}

impl MultiBuilder {
    /// Start building a multicall over downloads in some specific `view` on
    /// `server`.
    ///
    /// Views usually include "main", "default", "name", "active",
    /// "started", "stopped", "complete", "incomplete", "hashing",
    /// "seeding" and "leeching".
    pub fn new(server: &Server, view: &str) -> (builder: MultiBuilder)
        ensures
            builder@ == (Multicall {
                endpoint: server@,
                kind: EntityKind::Download,
                target_filter: view@,
                columns: Seq::empty(),
            }),
            builder@.well_formed(),
    {
        MultiBuilder::for_kind(server, EntityKind::Download, view)
    }

    /// Start building a multicall over the entities of `kind` that
    /// `target_filter` selects on `server`: a view name for downloads, the
    /// identifier of the owning download for files, peers and trackers. The
    /// filter is passed to the remote side as it is.
    pub fn for_kind(server: &Server, kind: EntityKind, target_filter: &str) -> (builder:
        MultiBuilder)
        ensures
            builder@ == (Multicall {
                endpoint: server@,
                kind,
                target_filter: target_filter@,
                columns: Seq::empty(),
            }),
            builder@.well_formed(),
    {
        let builder = MultiBuilder {
            server: server.clone(),
            kind,
            target_filter: String::from_str(target_filter),
            columns: Vec::new(),
        };
        assert(builder@.columns =~= Seq::empty());
        builder
    }

    /// Whether `op` may be added as a column: whether it is a field of the
    /// kind of entity that this multicall ranges over.
    pub fn accepts(&self, op: &Operation) -> (ok: bool)
        ensures
            ok == (op@.kind == self@.kind),
    {
        op.kind() == self.kind
    }

    /// Adds `op` as the next column. The rows that the multicall yields
    /// then have one more position, of the result type of `op`.
    pub fn add_column(self, op: Operation) -> (builder: MultiBuilder)
        requires
            op@.kind == self@.kind,
        ensures
            builder@ == (Multicall { columns: self@.columns.push(op@), ..self@ }),
            builder@.row_type() == self@.row_type().push(op@.result_type),
            self@.well_formed() ==> builder@.well_formed(),
    {
        let mut builder = self;
        builder.columns.push(op);
        assert(builder@.columns =~= self@.columns.push(op@));
        assert(builder@.row_type() =~= self@.row_type().push(op@.result_type));
        builder
    }

    /// The columns declared so far, in the order of declaration.
    pub fn columns(&self) -> (columns: &Vec<Operation>)
        ensures
            descriptors(columns@) == self@.columns,
    {
        &self.columns
    }

    /// The call that [`MultiBuilder::invoke`] sends.
    pub fn request(&self) -> (call: Call)
        ensures
            call@ == self@.call(),
    {
        let mut args: Vec<Value> = Vec::new();
        args.push(to_untyped(TypedValue::Text(String::new())));
        args.push(to_untyped(TypedValue::Text(self.target_filter.clone())));
        let mut i: usize = 0;
        while i < self.columns.len()
            invariant
                i <= self.columns.len(),
                args@.len() == 2 + i,
                args@[0]@ == Wire::Text(Seq::empty()),
                args@[1]@ == Wire::Text(self.target_filter@),
                forall|k: int|
                    2 <= k < 2 + i ==> (#[trigger] args@[k])@ == Wire::Text(
                        self.columns@[k - 2]@.remote_name,
                    ),
            decreases self.columns.len() - i,
        {
            let name = String::from_str(self.columns[i].remote_name());
            args.push(to_untyped(TypedValue::Text(name)));
            i += 1;
        }
        let call = Call {
            endpoint: String::from_str(self.server.endpoint()),
            method_name: self.kind.multicall(),
            args,
        };
        assert(call@.args =~= self@.args());
        call
    }

    /// Runs the multicall: sends one call through `transport`, exactly
    /// once, and decodes the answer.
    ///
    /// The call names the method `<kind>.multicall2` and passes a reserved
    /// empty text, the target filter, and the remote name of each column in
    /// order. A failure of the transport is returned as it is. An answer is
    /// decoded into one typed row per entity, in the order of the answer,
    /// or refused whole if any row has another width or any value another
    /// wire tag than declared. The builder is used up either way.
    pub fn invoke<F: FnOnce(Call) -> Result<Value, TransportError>>(self, transport: F) -> (res:
        Result<ResultSet, Error>)
        requires
            forall|call: Call| call@ == self@.call() ==> #[trigger] transport.requires((call,)),
        ensures
            exists|call: Call, outcome: Result<Value, TransportError>|
                {
                    &&& call@ == self@.call()
                    &&& #[trigger] transport.ensures((call,), outcome)
                    &&& completes(self@.row_type(), outcome, res)
                },
    {
        let call = self.request();
        let outcome = transport(call);
        complete(&self.columns, outcome)
    }
}

} // verus!
