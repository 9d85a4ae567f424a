//! Tables and the relation variables in scope.
use vstd::hash_map::StringHashMap;
use vstd::prelude::*;

use crate::ty::AlgebraicType;

verus! {

/// A column of a table.
#[derive(Debug, PartialEq)]
pub struct ColumnSchema {
    pub col_name: String,
    /// The position of the column in a row.
    pub col_pos: u16,
    pub col_type: AlgebraicType,
}

/// A table.
#[derive(Debug, PartialEq)]
pub struct TableSchema {
    pub table_name: String,
    pub columns: Vec<ColumnSchema>,
}

/// The first column of the given name.
pub open spec fn column_index(columns: Seq<ColumnSchema>, name: Seq<char>) -> Option<int> {
    crate::ty::first_index(columns, |c: ColumnSchema| c.col_name@ == name)
}

impl TableSchema {
    /// The first column named `col_name`.
    pub fn get_column_by_name(&self, col_name: &str) -> (r: Option<&ColumnSchema>)
        ensures
            r is Some <==> column_index(self.columns@, col_name@) is Some,
            r matches Some(c) ==> {
                let i = column_index(self.columns@, col_name@)->0;
                0 <= i < self.columns@.len() && *c == self.columns@[i]
            },
    {
        let ghost named = |c: ColumnSchema| c.col_name@ == col_name@;
        let n: usize = self.columns.len();
        for i in 0..n
            invariant
                n == self.columns@.len(),
                named == (|c: ColumnSchema| c.col_name@ == col_name@),
                forall|j: int| 0 <= j < i ==> !named(#[trigger] self.columns@[j]),
        {
            let c = &self.columns[i];
            if crate::ty::same_text(c.col_name.as_str(), col_name) {
                proof {
                    assert(crate::ty::is_first(self.columns@, named, i as int));
                    crate::ty::lemma_first_index(self.columns@, named, i as int);
                }
                return Some(c);
            }
            assert(!named(self.columns@[i as int]));
        }
        assert forall|k: int| !crate::ty::is_first(self.columns@, named, k) by {}
        None
    }
}

/// The tables in scope, by alias.
pub struct Relvars {
    tables: StringHashMap<TableSchema>,
}

impl View for Relvars {
    type V = Map<Seq<char>, TableSchema>;

    closed spec fn view(&self) -> Map<Seq<char>, TableSchema> {
        self.tables@
    }
}

impl Relvars {
    /// No table.
    pub fn new() -> (r: Relvars)
        ensures
            r@ == Map::<Seq<char>, TableSchema>::empty(),
    {
        Relvars { tables: StringHashMap::new() }
    }

    /// Brings a table into scope; one that has the same alias leaves it.
    pub fn insert(&mut self, alias: String, schema: TableSchema)
        ensures
            final(self)@ == old(self)@.insert(alias@, schema),
    {
        self.tables.insert(alias, schema);
    }

    /// The table of the given alias.
    pub fn get(&self, alias: &str) -> (r: Option<&TableSchema>)
        ensures
            r is Some <==> self@.contains_key(alias@),
            r matches Some(schema) ==> *schema == self@[alias@],
    {
        self.tables.get(alias)
    }
}

} // verus!
