//! Immutable schema snapshots and their lookup rules.
//!
//! A snapshot describes the database's tables, columns and comments at one
//! point in time. It is built once, published as a whole, and never mutated;
//! the session replaces the published snapshot when the database changes.

use vstd::prelude::*;
use crate::strutil::str_eq;

verus! {

/// A column of a table.
#[derive(Clone, Debug)]
pub struct Column {
    pub name: String,
}

/// A table known to the snapshot, keyed by `(schema, name)`.
#[derive(Clone, Debug)]
pub struct Table {
    pub schema: String,
    pub name: String,
    pub comment: Option<String>,
    pub columns: Vec<Column>,
}

/// An immutable point-in-time view of the database schema.
#[derive(Clone, Debug)]
pub struct SchemaCache {
    pub tables: Vec<Table>,
}

/// Index of the first table whose schema and name both match, scanning from
/// the front.
pub open spec fn find_qualified(tables: Seq<Table>, name: Seq<char>, schema: Seq<char>) -> Option<
    int,
>
    decreases tables.len(),
{
    if tables.len() == 0 {
        None
    } else {
        match find_qualified(tables.drop_last(), name, schema) {
            Some(i) => Some(i),
            None => {
                let j = tables.len() - 1;
                if tables[j].name@ == name && tables[j].schema@ == schema {
                    Some(j)
                } else {
                    None
                }
            },
        }
    }
}

/// How many tables carry this name, over all schemas.
pub open spec fn count_by_name(tables: Seq<Table>, name: Seq<char>) -> int
    decreases tables.len(),
{
    if tables.len() == 0 {
        0
    } else {
        count_by_name(tables.drop_last(), name) + if tables[tables.len() - 1].name@ == name {
            1int
        } else {
            0int
        }
    }
}

/// Index of the first table with this name, scanning from the front.
pub open spec fn find_by_name(tables: Seq<Table>, name: Seq<char>) -> Option<int>
    decreases tables.len(),
{
    if tables.len() == 0 {
        None
    } else {
        match find_by_name(tables.drop_last(), name) {
            Some(i) => Some(i),
            None => {
                let j = tables.len() - 1;
                if tables[j].name@ == name {
                    Some(j)
                } else {
                    None
                }
            },
        }
    }
}

/// The view of an optional schema qualifier as an optional character
/// sequence.
pub open spec fn opt_str_view(s: Option<&str>) -> Option<Seq<char>> {
    match s {
        Some(x) => Some(x@),
        None => None,
    }
}

/// The lookup rule: a qualified reference resolves to the table with exactly
/// that schema and name; an unqualified one resolves only when a single table
/// of that name exists across all schemas.
pub open spec fn spec_find_table(
    tables: Seq<Table>,
    name: Seq<char>,
    schema: Option<Seq<char>>,
) -> Option<int> {
    match schema {
        Some(s) => find_qualified(tables, name, s),
        None => if count_by_name(tables, name) == 1 {
            find_by_name(tables, name)
        } else {
            None
        },
    }
}

impl SchemaCache {
    /// A snapshot with no tables at all, the state before any database is
    /// known.
    pub fn empty() -> (r: SchemaCache)
        ensures
            r.tables@.len() == 0,
    {
        SchemaCache { tables: Vec::new() }
    }

    /// Look a relation name up, honouring an optional schema qualifier.
    pub fn find_table<'a>(&'a self, name: &str, schema: Option<&str>) -> (r: Option<&'a Table>)
        ensures
            match r {
                Some(t) => {
                    &&& spec_find_table(self.tables@, name@, opt_str_view(schema)) matches Some(i)
                        && 0 <= i < self.tables@.len() && *t == self.tables@[i]
                },
                None => spec_find_table(self.tables@, name@, opt_str_view(schema)) is None,
            },
    {
        match schema {
            Some(s) => {
                let mut i: usize = 0;
                let n = self.tables.len();
                while i < n
                    invariant
                        n == self.tables@.len(),
                        i <= n,
                        schema == Some(s),
                        find_qualified(self.tables@.take(i as int), name@, s@) is None,
                    decreases n - i,
                {
                    let t = &self.tables[i];
                    if str_eq(t.name.as_str(), name) && str_eq(t.schema.as_str(), s) {
                        proof {
                            assert(self.tables@.take(i + 1).drop_last() =~= self.tables@.take(
                                i as int,
                            ));
                            assert(self.tables@.take(i + 1)[i as int] == self.tables@[i as int]);
                            assert(find_qualified(self.tables@.take(i + 1), name@, s@) == Some(
                                i as int,
                            ));
                            lemma_find_qualified_extend(self.tables@, name@, s@, i + 1);
                            assert(find_qualified(self.tables@, name@, s@) == Some(i as int));
                        }
                        return Some(t);
                    }
                    proof {
                        assert(self.tables@.take(i + 1).drop_last() =~= self.tables@.take(i as int));
                        assert(self.tables@.take(i + 1)[i as int] == self.tables@[i as int]);
                    }
                    i = i + 1;
                }
                proof {
                    assert(self.tables@.take(n as int) =~= self.tables@);
                }
                None
            },
            None => {
                let mut i: usize = 0;
                let n = self.tables.len();
                let mut count: usize = 0;
                let mut first: Option<usize> = None;
                while i < n
                    invariant
                        n == self.tables@.len(),
                        i <= n,
                        count <= i,
                        count == count_by_name(self.tables@.take(i as int), name@),
                        match first {
                            Some(f) => find_by_name(self.tables@.take(i as int), name@) == Some(
                                f as int,
                            ) && f < i,
                            None => find_by_name(self.tables@.take(i as int), name@) is None,
                        },
                    decreases n - i,
                {
                    let t = &self.tables[i];
                    proof {
                        assert(self.tables@.take(i + 1).drop_last() =~= self.tables@.take(i as int));
                        assert(self.tables@.take(i + 1)[i as int] == self.tables@[i as int]);
                    }
                    if str_eq(t.name.as_str(), name) {
                        count = count + 1;
                        if first.is_none() {
                            first = Some(i);
                        }
                    }
                    i = i + 1;
                }
                proof {
                    assert(self.tables@.take(n as int) =~= self.tables@);
                }
                if count == 1 {
                    match first {
                        Some(f) => Some(&self.tables[f]),
                        None => None,
                    }
                } else {
                    None
                }
            },
        }
    }
}

/// Once a prefix scan has found a qualified match, the longer prefixes and the
/// full sequence report that same first match.
proof fn lemma_find_qualified_extend(tables: Seq<Table>, name: Seq<char>, schema: Seq<char>, k: int)
    requires
        0 <= k <= tables.len(),
        find_qualified(tables.take(k), name, schema) is Some,
    ensures
        find_qualified(tables, name, schema) == find_qualified(tables.take(k), name, schema),
    decreases tables.len() - k,
{
    if k < tables.len() {
        assert(tables.take(k + 1).drop_last() =~= tables.take(k));
        lemma_find_qualified_extend(tables, name, schema, k + 1);
    } else {
        assert(tables.take(k) =~= tables);
    }
}

} // verus!
