//! Decoding of the untyped response of a multicall into typed rows.
//!
//! A response is a list of rows, one per remote entity, and a row is a list
//! of values, one per declared column. Decoding is all or nothing: either
//! every row fits the declared types and every value is converted, or the
//! first row that does not fit decides the error and nothing is returned.

use vstd::prelude::*;
use crate::error::Error;
use crate::operation::{descriptors, row_type, Operation};
use crate::value::{
    list_items, mismatch_message, not_a_list_message, scalars, to_typed, wires, ResultType, Scalar,
    TypedValue, Value, Wire,
};

verus! {

/// Whether `row` is a list of exactly one value per declared type, each
/// with the wire tag of its column's type.
pub open spec fn row_fits(row: Wire, types: Seq<ResultType>) -> bool {
    &&& row is List
    &&& row.items().len() == types.len()
    &&& forall|i: int| 0 <= i < types.len() ==> (#[trigger] row.items()[i]).tag() == Some(types[i])
}

/// Whether every row of `rows` fits the declared types.
pub open spec fn rows_fit(rows: Seq<Wire>, types: Seq<ResultType>) -> bool {
    forall|r: int| 0 <= r < rows.len() ==> row_fits(#[trigger] rows[r], types)
}

/// The typed row that a fitting row decodes to: at each position, the value
/// that the wire value there carries.
pub open spec fn typed_row(row: Wire, types: Seq<ResultType>) -> Seq<Scalar> {
    Seq::new(types.len(), |i: int| row.items()[i].scalar().unwrap())
}

/// The typed rows that fitting rows decode to, in the order of the response.
pub open spec fn typed_rows(rows: Seq<Wire>, types: Seq<ResultType>) -> Seq<Seq<Scalar>> {
    Seq::new(rows.len(), |r: int| typed_row(rows[r], types))
}

/// Whether `i` is the first position of `row` whose value has another wire
/// tag than its column's type.
pub open spec fn is_first_misfit(row: Wire, types: Seq<ResultType>, i: int) -> bool {
    &&& 0 <= i < types.len()
    &&& row.items()[i].tag() != Some(types[i])
    &&& forall|j: int| 0 <= j < i ==> (#[trigger] row.items()[j]).tag() == Some(types[j])
}

/// The first position of `row` whose value has another wire tag than its
/// column's type.
pub open spec fn first_misfit(row: Wire, types: Seq<ResultType>) -> int {
    choose|i: int| is_first_misfit(row, types, i)
}

/// The description of the width mismatch of a row.
pub open spec fn width_message() -> Seq<char> {
    "row width differs from the number of declared columns"@
}

/// The description of why `row` does not fit: it is no list, or it has
/// another width than the declaration, or else what its first misfitting
/// value is and what was declared there.
pub open spec fn row_fault(row: Wire, types: Seq<ResultType>) -> Seq<char> {
    if !(row is List) {
        not_a_list_message(row)
    } else if row.items().len() != types.len() {
        width_message()
    } else {
        let i = first_misfit(row, types);
        mismatch_message(types[i], row.items()[i])
    }
}

/// Whether `r` is the first row of `rows` that does not fit.
pub open spec fn is_first_bad_row(rows: Seq<Wire>, types: Seq<ResultType>, r: int) -> bool {
    &&& 0 <= r < rows.len()
    &&& !row_fits(rows[r], types)
    &&& forall|q: int| 0 <= q < r ==> row_fits(#[trigger] rows[q], types)
}

/// The first row of `rows` that does not fit.
pub open spec fn first_bad_row(rows: Seq<Wire>, types: Seq<ResultType>) -> int {
    choose|r: int| is_first_bad_row(rows, types, r)
}

/// What decoding `rows` against the declared types yields: the typed rows
/// if every row fits, else the description of the first row that does not.
pub open spec fn decode_rows(rows: Seq<Wire>, types: Seq<ResultType>) -> Result<
    Seq<Seq<Scalar>>,
    Seq<char>,
> {
    if rows_fit(rows, types) {
        Ok(typed_rows(rows, types))
    } else {
        Err(row_fault(rows[first_bad_row(rows, types)], types))
    }
}

/// What decoding a whole response yields: the response must be a list, and
/// its elements are the rows.
pub open spec fn decode_response(response: Wire, types: Seq<ResultType>) -> Result<
    Seq<Seq<Scalar>>,
    Seq<char>,
> {
    if response is List {
        decode_rows(response.items(), types)
    } else {
        Err(not_a_list_message(response))
    }
}

/// The decoded, ordered collection of typed rows produced by one multicall:
/// one row per remote entity, in the order in which the remote side
/// returned them.
///
/// Every row has one value per declared column, and each value has the
/// type that its column declared. The values are decoded once, when the set
/// is made; reading the set decodes nothing again.
#[derive(Debug, PartialEq)]
pub struct ResultSet {
    types: Vec<ResultType>,
    rows: Vec<Vec<TypedValue>>,
}

impl View for ResultSet {
    type V = Seq<Seq<Scalar>>;

    closed spec fn view(&self) -> Seq<Seq<Scalar>> {
        Seq::new(self.rows@.len(), |r: int| scalars(self.rows@[r]@))
    }
}

/// Whether the typed values `cells` are one per declared type, each of its
/// column's type.
pub open spec fn row_is_typed(cells: Seq<Scalar>, types: Seq<ResultType>) -> bool {
    &&& cells.len() == types.len()
    &&& forall|i: int| 0 <= i < types.len() ==> (#[trigger] cells[i]).result_type() == types[i]
}

impl ResultSet {
    /// The declared types of the columns, in order.
    pub closed spec fn types(&self) -> Seq<ResultType> {
        self.types@
    }

    #[verifier::type_invariant]
    spec fn well_typed(&self) -> bool {
        forall|r: int|
            0 <= r < self.rows@.len() ==> row_is_typed(
                #[trigger] scalars(self.rows@[r]@),
                self.types@,
            )
    }

    /// The number of entities, which is the number of rows.
    pub fn len(&self) -> (n: usize)
        ensures
            n == self@.len(),
    {
        self.rows.len()
    }

    /// Whether the remote side returned no entity at all.
    pub fn is_empty(&self) -> (empty: bool)
        ensures
            empty == (self@.len() == 0),
    {
        self.rows.len() == 0
    }

    /// The declared types of the columns, in order.
    pub fn column_types(&self) -> (types: &Vec<ResultType>)
        ensures
            types@ == self.types(),
    {
        &self.types
    }

    /// The row at `index`, counting from zero in the order of the response;
    /// nothing if there are not that many rows.
    pub fn get(&self, index: usize) -> (res: Option<&Vec<TypedValue>>)
        ensures
            match res {
                Some(row) => {
                    &&& index < self@.len()
                    &&& scalars(row@) == self@[index as int]
                    &&& row_is_typed(scalars(row@), self.types())
                },
                None => index >= self@.len(),
            },
    {
        proof {
            use_type_invariant(self);
        }
        if index < self.rows.len() {
            Some(&self.rows[index])
        } else {
            None
        }
    }

    /// All rows, in the order of the response. The sequence can be walked
    /// any number of times.
    pub fn rows(&self) -> (rows: &Vec<Vec<TypedValue>>)
        ensures
            rows@.len() == self@.len(),
            forall|r: int|
                0 <= r < rows@.len() ==> scalars(#[trigger] rows@[r]@) == self@[r] && row_is_typed(
                    self@[r],
                    self.types(),
                ),
    {
        proof {
            use_type_invariant(self);
        }
        &self.rows
    }
}

/// The declared result types of `columns`, in order.
pub fn column_types(columns: &Vec<Operation>) -> (types: Vec<ResultType>)
    ensures
        types@ == row_type(descriptors(columns@)),
{
    let mut types: Vec<ResultType> = Vec::new();
    let mut i: usize = 0;
    while i < columns.len()
        invariant
            i <= columns.len(),
            types@.len() == i,
            forall|j: int| 0 <= j < i ==> types@[j] == columns@[j]@.result_type,
        decreases columns.len() - i,
    {
        types.push(columns[i].result_type());
        i += 1;
    }
    assert(types@ =~= row_type(descriptors(columns@)));
    types
}

/// Decodes one raw row against the declared types.
///
/// The row is refused if it is no list, if its width is not the number of
/// declared types, or if a value's wire tag is not its column's type; the
/// first such value decides the description. No part of a refused row is
/// returned.
pub fn decode_row(row: &Value, types: &Vec<ResultType>) -> (res: Result<Vec<TypedValue>, Error>)
    ensures
        match res {
            Ok(cells) => row_fits(row@, types@) && scalars(cells@) == typed_row(row@, types@),
            Err(e) => {
                &&& !row_fits(row@, types@)
                &&& e matches Error::UnexpectedStructure(msg)
                &&& msg@ == row_fault(row@, types@)
            },
        },
{
    let items = match list_items(row) {
        Ok(items) => items,
        Err(e) => {
            return Err(e);
        },
    };
    if items.len() != types.len() {
        return Err(
            Error::UnexpectedStructure(
                String::from_str("row width differs from the number of declared columns"),
            ),
        );
    }
    let mut cells: Vec<TypedValue> = Vec::new();
    let mut i: usize = 0;
    while i < types.len()
        invariant
            i <= types.len(),
            row@ is List,
            wires(items@) == row@.items(),
            items@.len() == types@.len(),
            cells@.len() == i,
            forall|j: int| 0 <= j < i ==> (#[trigger] row@.items()[j]).tag() == Some(types@[j]),
            forall|j: int|
                0 <= j < i ==> (#[trigger] cells@[j])@ == row@.items()[j].scalar().unwrap(),
        decreases types.len() - i,
    {
        assert(row@.items()[i as int] == items@[i as int]@);
        match to_typed(&items[i], types[i]) {
            Ok(cell) => {
                cells.push(cell);
            },
            Err(e) => {
                proof {
                    assert(is_first_misfit(row@, types@, i as int));
                    lemma_first_misfit_is_unique(row@, types@, i as int);
                }
                return Err(e);
            },
        }
        i += 1;
    }
    assert(scalars(cells@) =~= typed_row(row@, types@));
    Ok(cells)
}

/// Decodes the raw rows of a response against the declared columns.
///
/// Succeeds exactly when every row fits the declaration, and then returns
/// one typed row per raw row, in the same order, every value converted at
/// its position. Otherwise the first row that does not fit decides the
/// error, and no row is returned.
pub fn decode(raw_rows: &Vec<Value>, columns: &Vec<Operation>) -> (res: Result<ResultSet, Error>)
    ensures
        match decode_rows(wires(raw_rows@), row_type(descriptors(columns@))) {
            Ok(rows) => res matches Ok(set) && set@ == rows && set.types() == row_type(
                descriptors(columns@),
            ),
            Err(text) => res matches Err(Error::UnexpectedStructure(msg)) && msg@ == text,
        },
{
    let types = column_types(columns);
    let mut rows: Vec<Vec<TypedValue>> = Vec::new();
    let ghost raw = wires(raw_rows@);
    let mut r: usize = 0;
    while r < raw_rows.len()
        invariant
            r <= raw_rows.len(),
            raw == wires(raw_rows@),
            types@ == row_type(descriptors(columns@)),
            rows@.len() == r,
            forall|q: int| 0 <= q < r ==> row_fits(#[trigger] raw[q], types@),
            forall|q: int| 0 <= q < r ==> scalars(#[trigger] rows@[q]@) == typed_row(raw[q], types@),
        decreases raw_rows.len() - r,
    {
        assert(raw[r as int] == raw_rows@[r as int]@);
        match decode_row(&raw_rows[r], &types) {
            Ok(cells) => {
                rows.push(cells);
            },
            Err(e) => {
                proof {
                    assert(is_first_bad_row(raw, types@, r as int));
                    lemma_first_bad_row_is_unique(raw, types@, r as int);
                }
                return Err(e);
            },
        }
        r += 1;
    }
    proof {
        assert forall|q: int| 0 <= q < rows@.len() implies row_is_typed(
            #[trigger] scalars(rows@[q]@),
            types@,
        ) by {
            lemma_typed_row_is_typed(raw[q], types@);
        }
    }
    let set = ResultSet { types, rows };
    assert(set@ =~= typed_rows(raw, row_type(descriptors(columns@))));
    Ok(set)
}

/// A row has at most one first misfitting position.
pub proof fn lemma_first_misfit_is_unique(row: Wire, types: Seq<ResultType>, i: int)
    requires
        is_first_misfit(row, types, i),
    ensures
        first_misfit(row, types) == i,
{
    let k = first_misfit(row, types);
    assert(is_first_misfit(row, types, k));
    if k < i {
        assert(row.items()[k].tag() == Some(types[k]));
    }
    if i < k {
        assert(row.items()[i].tag() == Some(types[i]));
    }
}

/// A response has at most one first row that does not fit.
pub proof fn lemma_first_bad_row_is_unique(rows: Seq<Wire>, types: Seq<ResultType>, r: int)
    requires
        is_first_bad_row(rows, types, r),
    ensures
        first_bad_row(rows, types) == r,
        !rows_fit(rows, types),
{
    let k = first_bad_row(rows, types);
    assert(is_first_bad_row(rows, types, k));
    if k < r {
        assert(row_fits(rows[k], types));
    }
    if r < k {
        assert(row_fits(rows[r], types));
    }
}

/// The typed row of a fitting row has one value per declared type, each of
/// its column's type: declaration order and decode order agree.
pub proof fn lemma_typed_row_is_typed(row: Wire, types: Seq<ResultType>)
    requires
        row_fits(row, types),
    ensures
        row_is_typed(typed_row(row, types), types),
{
    assert forall|i: int| 0 <= i < types.len() implies (#[trigger] typed_row(
        row,
        types,
    )[i]).result_type() == types[i] by {
        assert(row.items()[i].tag() == Some(types[i]));
    }
}

} // verus!
