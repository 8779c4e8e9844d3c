//! The routing table: each resource kind's operations under their own
//! names, composed into one surface without collisions between kinds.
use vstd::prelude::*;

use crate::errors::ApiError;

verus! {

/// The resource kinds.
#[derive(Debug, Clone, Copy, PartialEq, Eq, Structural)]
pub enum Kind {
    Account,
    Prompt,
    Poem,
}

/// The operations that every kind offers.
#[derive(Debug, Clone, Copy, PartialEq, Eq, Structural)]
pub enum Op {
    List,
    Get,
    Create,
    Update,
    Delete,
    Restore,
    Destroy,
}

pub open spec fn verb(op: Op) -> Seq<char> {
    match op {
        Op::List => "list"@,
        Op::Get => "get"@,
        Op::Create => "create"@,
        Op::Update => "update"@,
        Op::Delete => "delete"@,
        Op::Restore => "restore"@,
        Op::Destroy => "destroy"@,
    }
}

pub open spec fn noun(kind: Kind, many: bool) -> Seq<char> {
    match kind {
        Kind::Account => if many {
            "Users"@
        } else {
            "User"@
        },
        Kind::Prompt => if many {
            "Prompts"@
        } else {
            "Prompt"@
        },
        Kind::Poem => if many {
            "Haikus"@
        } else {
            "Haiku"@
        },
    }
}

/// The name of an entry point: the verb, then the kind (plural for a listing),
/// as in `listPrompts` or `createUser`.
pub open spec fn entry_name(kind: Kind, op: Op) -> Seq<char> {
    verb(op) + noun(kind, op == Op::List)
}

pub open spec fn kind_at(i: int) -> Kind {
    if i == 0 {
        Kind::Account
    } else if i == 1 {
        Kind::Prompt
    } else {
        Kind::Poem
    }
}

pub open spec fn op_at(i: int) -> Op {
    if i == 0 {
        Op::List
    } else if i == 1 {
        Op::Get
    } else if i == 2 {
        Op::Create
    } else if i == 3 {
        Op::Update
    } else if i == 4 {
        Op::Delete
    } else if i == 5 {
        Op::Restore
    } else {
        Op::Destroy
    }
}

/// The number of entry points: seven operations for each of three kinds.
pub const ENTRY_COUNT: usize = 21;

/// The entry at position `i` of the table: kinds in turn, each with its
/// operations in order.
pub open spec fn entry_at(i: int) -> (Kind, Op) {
    (kind_at(i / 7), op_at(i % 7))
}

/// The first entry at position `i` or later whose name is `name`.
pub open spec fn first_route(name: Seq<char>, i: int) -> Option<(Kind, Op)>
    decreases ENTRY_COUNT - i,
{
    if i < 0 || i >= ENTRY_COUNT {
        None
    } else if entry_name(entry_at(i).0, entry_at(i).1) == name {
        Some(entry_at(i))
    } else {
        first_route(name, i + 1)
    }
}

/// The entry that `name` addresses.
pub open spec fn route_of(name: Seq<char>) -> Option<(Kind, Op)> {
    first_route(name, 0)
}

fn verb_text(op: Op) -> (r: &'static str)
    ensures
        r@ == verb(op),
{
    match op {
        Op::List => "list",
        Op::Get => "get",
        Op::Create => "create",
        Op::Update => "update",
        Op::Delete => "delete",
        Op::Restore => "restore",
        Op::Destroy => "destroy",
    }
}

fn noun_text(kind: Kind, many: bool) -> (r: &'static str)
    ensures
        r@ == noun(kind, many),
{
    match kind {
        Kind::Account => if many {
            "Users"
        } else {
            "User"
        },
        Kind::Prompt => if many {
            "Prompts"
        } else {
            "Prompt"
        },
        Kind::Poem => if many {
            "Haikus"
        } else {
            "Haiku"
        },
    }
}

/// The name under which `op` of `kind` is addressed.
pub fn entry_text(kind: Kind, op: Op) -> (r: String)
    ensures
        r@ == entry_name(kind, op),
{
    let mut r = String::from_str(verb_text(op));
    let many = match op {
        Op::List => true,
        _ => false,
    };
    r.append(noun_text(kind, many));
    r
}

fn kind_of_index(i: usize) -> (r: Kind)
    ensures
        r == kind_at(i as int),
{
    if i == 0 {
        Kind::Account
    } else if i == 1 {
        Kind::Prompt
    } else {
        Kind::Poem
    }
}

fn op_of_index(i: usize) -> (r: Op)
    ensures
        r == op_at(i as int),
{
    if i == 0 {
        Op::List
    } else if i == 1 {
        Op::Get
    } else if i == 2 {
        Op::Create
    } else if i == 3 {
        Op::Update
    } else if i == 4 {
        Op::Delete
    } else if i == 5 {
        Op::Restore
    } else {
        Op::Destroy
    }
}

/// The routing table, built once and only read afterwards.
pub struct Registry {
    entries: Vec<(String, Kind, Op)>,
}

impl Registry {
    pub closed spec fn wf(&self) -> bool {
        &&& self.entries@.len() == ENTRY_COUNT
        &&& forall|i: int|
            0 <= i < ENTRY_COUNT ==> (#[trigger] self.entries@[i]).0@ == entry_name(
                entry_at(i).0,
                entry_at(i).1,
            ) && (self.entries@[i].1, self.entries@[i].2) == entry_at(i)
    }

    /// The table of every kind's entry points.
    pub fn new() -> (r: Registry)
        ensures
            r.wf(),
    {
        let mut entries: Vec<(String, Kind, Op)> = Vec::new();
        let mut i: usize = 0;
        while i < ENTRY_COUNT
            invariant
                i <= ENTRY_COUNT,
                entries@.len() == i,
                forall|j: int|
                    0 <= j < i ==> (#[trigger] entries@[j]).0@ == entry_name(
                        entry_at(j).0,
                        entry_at(j).1,
                    ) && (entries@[j].1, entries@[j].2) == entry_at(j),
            decreases ENTRY_COUNT - i,
        {
            let kind = kind_of_index(i / 7);
            let op = op_of_index(i % 7);
            entries.push((entry_text(kind, op), kind, op));
            i += 1;
        }
        Registry { entries }
    }

    /// The kind and operation that `name` addresses; `Routing` when no entry
    /// point has that name.
    pub fn lookup(&self, name: &String) -> (r: Result<(Kind, Op), ApiError>)
        requires
            self.wf(),
        ensures
            match route_of(name@) {
                Some(e) => r == Ok::<(Kind, Op), ApiError>(e),
                None => r == Err::<(Kind, Op), ApiError>(ApiError::Routing),
            },
    {
        let mut i: usize = 0;
        while i < self.entries.len()
            invariant
                self.wf(),
                i <= ENTRY_COUNT,
                route_of(name@) == first_route(name@, i as int),
            decreases ENTRY_COUNT - i,
        {
            if self.entries[i].0 == *name {
                return Ok((self.entries[i].1, self.entries[i].2));
            }
            i += 1;
        }
        Err(ApiError::Routing)
    }
}

/// The position of `kind` among the kinds.
pub open spec fn kind_index(kind: Kind) -> int {
    match kind {
        Kind::Account => 0,
        Kind::Prompt => 1,
        Kind::Poem => 2,
    }
}

/// The position of `op` among the operations.
pub open spec fn op_index(op: Op) -> int {
    match op {
        Op::List => 0,
        Op::Get => 1,
        Op::Create => 2,
        Op::Update => 3,
        Op::Delete => 4,
        Op::Restore => 5,
        Op::Destroy => 6,
    }
}

proof fn lemma_entry_positions(i: int)
    requires
        0 <= i < ENTRY_COUNT,
    ensures
        i == 7 * kind_index(entry_at(i).0) + op_index(entry_at(i).1),
{
    assert(0 <= i / 7 < 3 && i % 7 == i - 7 * (i / 7) && 0 <= i % 7 < 7) by (nonlinear_arith)
        requires
            0 <= i < 21,
    ;
}

proof fn lemma_entry_at_position(kind: Kind, op: Op)
    ensures
        entry_at(7 * kind_index(kind) + op_index(op)) == (kind, op),
{
    let i = 7 * kind_index(kind) + op_index(op);
    assert(i / 7 == kind_index(kind) && i % 7 == op_index(op)) by (nonlinear_arith)
        requires
            i == 7 * kind_index(kind) + op_index(op),
            0 <= kind_index(kind) < 3,
            0 <= op_index(op) < 7,
    ;
}

proof fn lemma_names_differ(k1: Kind, o1: Op, k2: Kind, o2: Op)
    requires
        (k1, o1) != (k2, o2),
    ensures
        entry_name(k1, o1) != entry_name(k2, o2),
{
    reveal_strlit("list");
    reveal_strlit("get");
    reveal_strlit("create");
    reveal_strlit("update");
    reveal_strlit("delete");
    reveal_strlit("restore");
    reveal_strlit("destroy");
    reveal_strlit("User");
    reveal_strlit("Users");
    reveal_strlit("Prompt");
    reveal_strlit("Prompts");
    reveal_strlit("Haiku");
    reveal_strlit("Haikus");
    let a = entry_name(k1, o1);
    let b = entry_name(k2, o2);
    if o1 != o2 {
        assert(a[0] != b[0] || a[2] != b[2]);
    } else {
        let n = verb(o1).len() as int;
        assert(a[n] == noun(k1, o1 == Op::List)[0]);
        assert(b[n] == noun(k2, o2 == Op::List)[0]);
        assert(a[n] != b[n]);
    }
}

proof fn lemma_route_from(kind: Kind, op: Op, j: int)
    requires
        0 <= j <= 7 * kind_index(kind) + op_index(op),
    ensures
        first_route(entry_name(kind, op), j) == Some((kind, op)),
    decreases 7 * kind_index(kind) + op_index(op) - j,
{
    let target = 7 * kind_index(kind) + op_index(op);
    lemma_entry_at_position(kind, op);
    if j < target {
        lemma_entry_positions(j);
        lemma_names_differ(entry_at(j).0, entry_at(j).1, kind, op);
        lemma_route_from(kind, op, j + 1);
    }
}

/// The kinds' entry points do not shadow one another: every operation of
/// every kind is reached under its own name.
pub proof fn law_every_entry_reachable(kind: Kind, op: Op)
    ensures
        route_of(entry_name(kind, op)) == Some((kind, op)),
{
    lemma_route_from(kind, op, 0);
}

} // verus!
