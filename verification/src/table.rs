//! The operation table: the mapping from names to operations that the host
//! looks its calls up in.
//!
//! The table is filled once, by [`register`], with the whole catalog. Nothing
//! is added to it afterwards.

use vstd::hash_map::StringHashMap;
use vstd::prelude::*;
use crate::catalog::{
    catalog, catalog_view, lemma_catalog_complete, lemma_names_distinct, Operation,
};

verus! {

/// A mapping from operation names to operations.
pub struct OperationTable {
    entries: StringHashMap<Operation>,
}

impl View for OperationTable {
    type V = Map<Seq<char>, Operation>;

    closed spec fn view(&self) -> Map<Seq<char>, Operation> {
        self.entries@
    }
}

/// Whether `name` is the name of an operation of the catalog.
pub open spec fn is_operation_name(name: Seq<char>) -> bool {
    exists|op: Operation| op.spec_name() == name
}

/// The operation of the catalog that is registered under `name`.
pub open spec fn operation_named(name: Seq<char>) -> Operation {
    choose|op: Operation| op.spec_name() == name
}

/// The catalog as a mapping: each operation under its name.
pub open spec fn catalog_map() -> Map<Seq<char>, Operation> {
    Map::new(|name: Seq<char>| is_operation_name(name), |name: Seq<char>| operation_named(name))
}

/// `table` with the first `count` operations of the catalog entered, each
/// under its name, a later entry replacing an earlier one of the same name.
pub open spec fn entered(table: Map<Seq<char>, Operation>, count: nat) -> Map<
    Seq<char>,
    Operation,
>
    decreases count,
{
    if count == 0 {
        table
    } else {
        let op = catalog_view()[count - 1];
        entered(table, (count - 1) as nat).insert(op.spec_name(), op)
    }
}

/// Entering the first `count` operations of the catalog adds exactly their
/// names, each leading to its operation, and leaves every other entry as it
/// was.
proof fn lemma_entered(table: Map<Seq<char>, Operation>, count: nat)
    requires
        count <= catalog_view().len(),
    ensures
        forall|name: Seq<char>| #[trigger]
            entered(table, count).contains_key(name) <==> table.contains_key(name) || exists|
                i: int,
            |
                0 <= i < count && catalog_view()[i].spec_name() == name,
        forall|i: int|
            0 <= i < count ==> entered(table, count)[#[trigger] catalog_view()[i].spec_name()]
                == catalog_view()[i],
        forall|name: Seq<char>|
            !is_operation_name(name) && table.contains_key(name) ==> #[trigger] entered(
                table,
                count,
            )[name] == table[name],
    decreases count,
{
    if count > 0 {
        let before = entered(table, (count - 1) as nat);
        let op = catalog_view()[count - 1];
        lemma_entered(table, (count - 1) as nat);
        assert forall|i: int| 0 <= i < count implies entered(
            table,
            count,
        )[#[trigger] catalog_view()[i].spec_name()] == catalog_view()[i] by {
            if i < count - 1 && catalog_view()[i].spec_name() == op.spec_name() {
                lemma_names_distinct(catalog_view()[i], op);
            }
        }
        assert forall|name: Seq<char>| #[trigger]
            entered(table, count).contains_key(name) <==> table.contains_key(name) || exists|
                i: int,
            |
                0 <= i < count && catalog_view()[i].spec_name() == name by {
            if name == op.spec_name() {
                assert(catalog_view()[count - 1].spec_name() == name);
            }
            if before.contains_key(name) && !table.contains_key(name) {
                let i = choose|i: int| 0 <= i < count - 1 && catalog_view()[i].spec_name() == name;
                assert(0 <= i < count && catalog_view()[i].spec_name() == name);
            }
        }
    }
}

/// Entering the whole catalog lays the catalog over the table: every
/// operation stands under its name, and what stood under other names stays.
pub proof fn lemma_entered_all(table: Map<Seq<char>, Operation>)
    ensures
        entered(table, catalog_view().len()) == table.union_prefer_right(catalog_map()),
{
    let full = entered(table, catalog_view().len());
    let laid = table.union_prefer_right(catalog_map());
    lemma_entered(table, catalog_view().len());
    assert forall|name: Seq<char>| full.contains_key(name) <==> laid.contains_key(name) by {
        if is_operation_name(name) {
            let op = operation_named(name);
            lemma_catalog_complete(op);
            let i = choose|i: int| 0 <= i < catalog_view().len() && catalog_view()[i] == op;
            assert(catalog_view()[i].spec_name() == name);
        }
    }
    assert forall|name: Seq<char>| full.contains_key(name) implies full[name] == laid[name] by {
        if is_operation_name(name) {
            let op = operation_named(name);
            lemma_catalog_complete(op);
            let i = choose|i: int| 0 <= i < catalog_view().len() && catalog_view()[i] == op;
            assert(full[catalog_view()[i].spec_name()] == catalog_view()[i]);
        }
    }
    assert(full =~= laid);
}

/// In the catalog as a mapping, every operation stands under its own name,
/// and under no other.
pub proof fn lemma_catalog_map(op: Operation)
    ensures
        catalog_map().contains_key(op.spec_name()),
        catalog_map()[op.spec_name()] == op,
{
    let name = op.spec_name();
    assert(is_operation_name(name));
    lemma_names_distinct(operation_named(name), op);
}

impl OperationTable {
    /// An empty table.
    pub fn new() -> (table: Self)
        ensures
            table@ == Map::<Seq<char>, Operation>::empty(),
    {
        OperationTable { entries: StringHashMap::new() }
    }

    /// Enters `op` under `name`. An operation that stood under that name is
    /// replaced.
    pub fn insert(&mut self, name: String, op: Operation)
        ensures
            final(self)@ == old(self)@.insert(name@, op),
    {
        self.entries.insert(name, op);
    }

    /// The operation that stands under `name`, if one does.
    pub fn get(&self, name: &str) -> (found: Option<Operation>)
        ensures
            found == if self@.contains_key(name@) {
                Some(self@[name@])
            } else {
                None
            },
    {
        match self.entries.get(name) {
            Some(op) => Some(*op),
            None => None,
        }
    }

    /// Whether an operation stands under `name`.
    pub fn contains(&self, name: &str) -> (found: bool)
        ensures
            found == self@.contains_key(name@),
    {
        self.entries.contains_key(name)
    }

    /// How many names the table holds.
    pub fn len(&self) -> (count: usize)
        ensures
            count == self@.len(),
    {
        self.entries.len()
    }
}

/// Fills `table` with the whole catalog: every operation under its name.
/// Entries under other names are left as they are.
pub fn register(table: &mut OperationTable)
    ensures
        final(table)@ == old(table)@.union_prefer_right(catalog_map()),
{
    let ghost before = table@;
    let operations = catalog();
    let mut i: usize = 0;
    while i < operations.len()
        invariant
            i <= operations.len(),
            operations@ == catalog_view(),
            table@ == entered(before, i as nat),
        decreases operations.len() - i,
    {
        let op = operations[i];
        table.insert(op.name().to_owned(), op);
        i += 1;
    }
    proof {
        lemma_entered_all(before);
    }
}

} // verus!
