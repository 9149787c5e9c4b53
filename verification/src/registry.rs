//! The registry of operations: each operation's name and whether it mutates
//! the counter.
//!
//! There is one table. Enumerating, looking a name up and the JSON listing
//! (see `listing`) are all derived from it, so they cannot disagree.

use vstd::prelude::*;
use crate::msg::{ExecuteMsg, QueryMsg};

verus! {

/// An operation that the dispatcher can carry out.
#[derive(Debug, Clone, Copy, PartialEq, Eq, Structural)]
pub enum Operation {
    Add,
    Mul,
    Sub,
    Number,
}

impl Operation {
    /// The name under which the operation is registered.
    pub open spec fn name_spec(self) -> Seq<char> {
        match self {
            Operation::Add => "add"@,
            Operation::Mul => "mul"@,
            Operation::Sub => "sub"@,
            Operation::Number => "number"@,
        }
    }

    /// Whether the operation writes the counter.
    pub open spec fn mutates_spec(self) -> bool {
        self != Operation::Number
    }

    /// The name under which the operation is registered.
    pub fn name(&self) -> (name: &'static str)
        ensures
            name@ == self.name_spec(),
    {
        match self {
            Operation::Add => "add",
            Operation::Mul => "mul",
            Operation::Sub => "sub",
            Operation::Number => "number",
        }
    }

    /// Whether the operation writes the counter.
    pub fn mutates(&self) -> (flag: bool)
        ensures
            flag == self.mutates_spec(),
    {
        match self {
            Operation::Number => false,
            _ => true,
        }
    }
}

/// One row of the registry.
#[derive(Debug, PartialEq, Eq)]
pub struct OperationDescriptor {
    pub name: String,
    pub mutates: bool,
}

impl View for OperationDescriptor {
    type V = (Seq<char>, bool);

    open spec fn view(&self) -> (Seq<char>, bool) {
        (self.name@, self.mutates)
    }
}

/// The row that describes `op`.
pub open spec fn row(op: Operation) -> (Seq<char>, bool) {
    (op.name_spec(), op.mutates_spec())
}

/// The registry: one row for each operation, in a fixed order.
pub open spec fn table() -> Seq<(Seq<char>, bool)> {
    seq![row(Operation::Add), row(Operation::Mul), row(Operation::Sub), row(Operation::Number)]
}

/// The rows that a list of descriptors stands for.
pub open spec fn rows(entries: Seq<OperationDescriptor>) -> Seq<(Seq<char>, bool)> {
    entries.map_values(|entry: OperationDescriptor| entry@)
}

/// The flag of the first row of `entries` named `name`, if there is one.
pub open spec fn find(entries: Seq<(Seq<char>, bool)>, name: Seq<char>) -> Option<bool>
    decreases entries.len(),
{
    if entries.len() == 0 {
        None
    } else if entries[0].0 == name {
        Some(entries[0].1)
    } else {
        find(entries.drop_first(), name)
    }
}

/// Whether the operation registered as `name` mutates; `None` where no
/// operation has that name.
pub open spec fn lookup_spec(name: Seq<char>) -> Option<bool> {
    find(table(), name)
}

/// Whether the operation registered as `name` is read-only: the opposite of
/// its row's flag, and `None` where no operation has that name.
pub open spec fn is_read_only_spec(name: Seq<char>) -> Option<bool> {
    match lookup_spec(name) {
        Some(mutates) => Some(!mutates),
        None => None,
    }
}

/// Builds the row that describes `op`.
pub fn describe(op: Operation) -> (entry: OperationDescriptor)
    ensures
        entry@ == row(op),
{
    OperationDescriptor { name: op.name().to_owned(), mutates: op.mutates() }
}

/// The whole registry. It depends on nothing: every call gives the same
/// four rows.
pub fn enumerate() -> (entries: Vec<OperationDescriptor>)
    ensures
        rows(entries@) == table(),
{
    let mut entries: Vec<OperationDescriptor> = Vec::new();
    entries.push(describe(Operation::Add));
    entries.push(describe(Operation::Mul));
    entries.push(describe(Operation::Sub));
    entries.push(describe(Operation::Number));
    assert(rows(entries@) =~= table());
    entries
}

/// Whether the operation called `name` mutates the counter. An unknown name
/// has no answer: it is `None`, never a default.
pub fn lookup(name: &str) -> (flag: Option<bool>)
    ensures
        flag == lookup_spec(name@),
{
    let wanted = name.to_owned();
    let entries = enumerate();
    let mut i: usize = 0;
    assert(table().skip(0) =~= table());
    while i < entries.len()
        invariant
            i <= entries.len(),
            wanted@ == name@,
            rows(entries@) == table(),
            find(table(), name@) == find(table().skip(i as int), name@),
        decreases entries.len() - i,
    {
        assert(table().skip(i as int)[0] == rows(entries@)[i as int]);
        assert(table().skip(i as int).drop_first() =~= table().skip(i as int + 1));
        if entries[i].name == wanted {
            return Some(entries[i].mutates);
        }
        i += 1;
    }
    assert(table().skip(i as int).len() == 0);
    None
}

/// Whether the operation called `name` leaves the counter alone. It is the
/// table's flag turned round, and `None` for an unknown name.
pub fn is_read_only(name: &str) -> (flag: Option<bool>)
    ensures
        flag == is_read_only_spec(name@),
{
    match lookup(name) {
        Some(mutates) => Some(!mutates),
        None => None,
    }
}

/// Whether no two rows carry the same name.
pub open spec fn distinct_names(entries: Seq<(Seq<char>, bool)>) -> bool {
    forall|i: int, j: int| 0 <= i < j < entries.len() ==> entries[i].0 != entries[j].0
}

/// The four names are what they spell and no two are the same.
pub proof fn lemma_table_names()
    ensures
        table().len() == 4,
        distinct_names(table()),
        table() == seq![("add"@, true), ("mul"@, true), ("sub"@, true), ("number"@, false)],
        "add"@ == seq!['a', 'd', 'd'],
        "mul"@ == seq!['m', 'u', 'l'],
        "sub"@ == seq!['s', 'u', 'b'],
        "number"@ == seq!['n', 'u', 'm', 'b', 'e', 'r'],
{
    reveal_strlit("add");
    reveal_strlit("mul");
    reveal_strlit("sub");
    reveal_strlit("number");
    assert("add"@ =~= seq!['a', 'd', 'd']);
    assert("mul"@ =~= seq!['m', 'u', 'l']);
    assert("sub"@ =~= seq!['s', 'u', 'b']);
    assert("number"@ =~= seq!['n', 'u', 'm', 'b', 'e', 'r']);
    assert("add"@[0] != "mul"@[0] && "add"@[0] != "sub"@[0] && "mul"@[0] != "sub"@[0]);
    assert(table() =~= seq![("add"@, true), ("mul"@, true), ("sub"@, true), ("number"@, false)]);
}

/// Looking a name up agrees with the table: each of the four names has the
/// flag of its row, and every other name has none.
pub proof fn lemma_lookup_agrees_with_table(name: Seq<char>)
    ensures
        forall|i: int|
            0 <= i < table().len() ==> lookup_spec(#[trigger] table()[i].0) == Some(
                table()[i].1,
            ),
        lookup_spec("add"@) == Some(true),
        lookup_spec("sub"@) == Some(true),
        lookup_spec("mul"@) == Some(true),
        lookup_spec("number"@) == Some(false),
        (name != "add"@ && name != "sub"@ && name != "mul"@ && name != "number"@)
            <==> lookup_spec(name) is None,
{
    lemma_table_names();
    lemma_find_unfolds(name);
    lemma_find_unfolds("add"@);
    lemma_find_unfolds("mul"@);
    lemma_find_unfolds("sub"@);
    lemma_find_unfolds("number"@);
}

/// `lookup_spec` written out over the four rows of the table.
proof fn lemma_find_unfolds(name: Seq<char>)
    ensures
        lookup_spec(name) == if name == "add"@ {
            Some(true)
        } else if name == "mul"@ {
            Some(true)
        } else if name == "sub"@ {
            Some(true)
        } else if name == "number"@ {
            Some(false)
        } else {
            None
        },
{
    let t = table();
    reveal_with_fuel(find, 5);
    let t1 = t.drop_first();
    let t2 = t1.drop_first();
    let t3 = t2.drop_first();
    assert(t1 =~= seq![row(Operation::Mul), row(Operation::Sub), row(Operation::Number)]);
    assert(t2 =~= seq![row(Operation::Sub), row(Operation::Number)]);
    assert(t3 =~= seq![row(Operation::Number)]);
    assert(t3.drop_first() =~= Seq::<(Seq<char>, bool)>::empty());
}

/// The operation that an execute request asks for.
pub open spec fn executed_operation(msg: ExecuteMsg) -> Operation {
    match msg {
        ExecuteMsg::Add { .. } => Operation::Add,
        ExecuteMsg::Sub { .. } => Operation::Sub,
        ExecuteMsg::Mul { .. } => Operation::Mul,
    }
}

/// The operation that a query asks for.
pub open spec fn queried_operation(msg: QueryMsg) -> Operation {
    match msg {
        QueryMsg::Number {  } => Operation::Number,
    }
}

/// Whether `entry` describes an operation that some request asks for.
pub open spec fn dispatched(entry: (Seq<char>, bool)) -> bool {
    ||| exists|msg: ExecuteMsg| #[trigger] row(executed_operation(msg)) == entry
    ||| exists|msg: QueryMsg| #[trigger] row(queried_operation(msg)) == entry
}

/// The registry and the dispatcher name the same operations: every request
/// that the dispatcher takes is registered, as mutating exactly when it is an
/// execute request, and every row of the registry belongs to an operation
/// that some request asks for.
pub proof fn lemma_registry_matches_dispatcher()
    ensures
        forall|msg: ExecuteMsg|
            lookup_spec((#[trigger] executed_operation(msg)).name_spec()) == Some(true),
        forall|msg: QueryMsg|
            lookup_spec((#[trigger] queried_operation(msg)).name_spec()) == Some(false),
        forall|i: int| 0 <= i < table().len() ==> dispatched(#[trigger] table()[i]),
{
    lemma_lookup_agrees_with_table("add"@);
    assert(row(executed_operation(ExecuteMsg::Add { value: 0 })) == table()[0]);
    assert(row(executed_operation(ExecuteMsg::Mul { value: 0 })) == table()[1]);
    assert(row(executed_operation(ExecuteMsg::Sub { value: 0 })) == table()[2]);
    assert(row(queried_operation(QueryMsg::Number {  })) == table()[3]);
}

} // verus!
