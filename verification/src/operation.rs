//! Descriptors of remote fields: which entity kind a field belongs to, the
//! name under which the remote side knows it, and the type of its result.

use vstd::prelude::*;
use crate::value::ResultType;

verus! {

/// The category of remote object that a field belongs to.
#[derive(Clone, Copy, Debug, PartialEq, Eq, Structural)]
pub enum EntityKind {
    Download,
    File,
    Peer,
    Tracker,
}

impl EntityKind {
    /// The namespace under which the remote side files this kind's fields.
    pub open spec fn namespace(self) -> Seq<char> {
        match self {
            EntityKind::Download => "d."@,
            EntityKind::File => "f."@,
            EntityKind::Peer => "p."@,
            EntityKind::Tracker => "t."@,
        }
    }

    /// The name of the batched call over entities of this kind.
    pub open spec fn multicall_method(self) -> Seq<char> {
        self.namespace() + "multicall2"@
    }

    /// The namespace under which the remote side files this kind's fields.
    pub fn prefix(self) -> (ns: &'static str)
        ensures
            ns@ == self.namespace(),
    {
        match self {
            EntityKind::Download => "d.",
            EntityKind::File => "f.",
            EntityKind::Peer => "p.",
            EntityKind::Tracker => "t.",
        }
    }

    /// The name of the batched call over entities of this kind.
    pub fn multicall(self) -> (method: String)
        ensures
            method@ == self.multicall_method(),
    {
        String::from_str(self.prefix()).concat("multicall2")
    }
}

/// The fully qualified remote name of the field `short_name` of `kind`.
pub open spec fn remote_name_of(kind: EntityKind, short_name: Seq<char>) -> Seq<char> {
    kind.namespace() + short_name
}

/// The short name that a remote name was formed from: what follows the
/// namespace of `kind`.
pub open spec fn short_name_of(kind: EntityKind, remote_name: Seq<char>) -> Seq<char> {
    remote_name.subrange(kind.namespace().len() as int, remote_name.len() as int)
}

/// An immutable description of one remote field or action.
///
/// A descriptor is built once, where the field is defined, and reused by
/// every call that reads the field.
#[derive(Debug)]
pub struct Operation {
    kind: EntityKind,
    remote_name: String,
    result_type: ResultType,
}

/// The mathematical content of an [`Operation`].
pub ghost struct OperationView {
    pub kind: EntityKind,
    pub remote_name: Seq<char>,
    pub result_type: ResultType,
}

impl View for Operation {
    type V = OperationView;

    closed spec fn view(&self) -> OperationView {
        OperationView {
            kind: self.kind,
            remote_name: self.remote_name@,
            result_type: self.result_type,
        }
    }
}

/// The mathematical contents of a sequence of descriptors, one by one.
pub open spec fn descriptors(columns: Seq<Operation>) -> Seq<OperationView> {
    Seq::new(columns.len(), |i: int| columns[i]@)
}

/// The row type that a sequence of columns declares: the result type of
/// each column, in the order of declaration.
pub open spec fn row_type(columns: Seq<OperationView>) -> Seq<ResultType> {
    Seq::new(columns.len(), |i: int| columns[i].result_type)
}

impl Operation {
    /// Describes the field `short_name` of `kind`, whose result has type
    /// `result_type`. The remote name is the kind's namespace followed by
    /// the short name.
    pub fn new(kind: EntityKind, short_name: &str, result_type: ResultType) -> (op: Operation)
        ensures
            op@ == (OperationView {
                kind,
                remote_name: remote_name_of(kind, short_name@),
                result_type,
            }),
    {
        Operation {
            kind,
            remote_name: String::from_str(kind.prefix()).concat(short_name),
            result_type,
        }
    }

    /// The entity kind that this field belongs to.
    pub fn kind(&self) -> (kind: EntityKind)
        ensures
            kind == self@.kind,
    {
        self.kind
    }

    /// The name under which the remote side knows this field.
    pub fn remote_name(&self) -> (name: &str)
        ensures
            name@ == self@.remote_name,
    {
        self.remote_name.as_str()
    }

    /// The declared type of this field's result.
    pub fn result_type(&self) -> (t: ResultType)
        ensures
            t == self@.result_type,
    {
        self.result_type
    }
}

impl Clone for Operation {
    fn clone(&self) -> (copy: Operation)
        ensures
            copy@ == self@,
    {
        Operation {
            kind: self.kind,
            remote_name: self.remote_name.clone(),
            result_type: self.result_type,
        }
    }
}

/// Two descriptors are equal when they name the same remote field.
impl PartialEq for Operation {
    fn eq(&self, other: &Operation) -> (same: bool) {
        self.remote_name == other.remote_name
    }
}

impl vstd::std_specs::cmp::PartialEqSpecImpl for Operation {
    open spec fn obeys_eq_spec() -> bool {
        true
    }

    open spec fn eq_spec(&self, other: &Operation) -> bool {
        self@.remote_name == other@.remote_name
    }
}

/// The remote name is determined by the entity kind and the short name:
/// whenever two names are derived from the same pair they are the same
/// name, and the short name can be read back from the remote name.
pub proof fn lemma_remote_name_is_stable(
    kind: EntityKind,
    short_name: Seq<char>,
    first: Seq<char>,
    second: Seq<char>,
)
    requires
        first == remote_name_of(kind, short_name),
        second == remote_name_of(kind, short_name),
    ensures
        first == second,
        short_name_of(kind, first) == short_name,
{
    lemma_namespaces();
    assert(short_name_of(kind, first) =~= short_name);
}

/// Distinct fields have distinct remote names: a remote name determines
/// the entity kind and the short name that it was formed from.
pub proof fn lemma_remote_name_is_injective(
    kind_a: EntityKind,
    short_a: Seq<char>,
    kind_b: EntityKind,
    short_b: Seq<char>,
)
    requires
        remote_name_of(kind_a, short_a) == remote_name_of(kind_b, short_b),
    ensures
        kind_a == kind_b,
        short_a == short_b,
{
    lemma_namespaces();
    let name_a = remote_name_of(kind_a, short_a);
    let name_b = remote_name_of(kind_b, short_b);
    assert(name_a[0] == kind_a.namespace()[0]);
    assert(name_b[0] == kind_b.namespace()[0]);
    assert(short_name_of(kind_a, name_a) =~= short_a);
    assert(short_name_of(kind_b, name_b) =~= short_b);
}

/// Every namespace is one letter, which tells the kinds apart, and a dot.
proof fn lemma_namespaces()
    ensures
        forall|kind: EntityKind| #[trigger] kind.namespace().len() == 2,
        EntityKind::Download.namespace()[0] == 'd',
        EntityKind::File.namespace()[0] == 'f',
        EntityKind::Peer.namespace()[0] == 'p',
        EntityKind::Tracker.namespace()[0] == 't',
{
    reveal_strlit("d.");
    reveal_strlit("f.");
    reveal_strlit("p.");
    reveal_strlit("t.");
}

} // verus!
