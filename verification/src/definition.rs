//! What the catalog tells about a table: its name and its ordered columns.

use vstd::prelude::*;
use crate::types::SqlType;

verus! {

/// One column of a table, as the catalog declares it.
#[derive(Debug, PartialEq, Eq, Clone)]
pub struct ColumnDef {
    pub name: String,
    pub sql_type: SqlType,
}

impl ColumnDef {
    pub fn new(name: String, sql_type: SqlType) -> (column: ColumnDef)
        ensures
            column == (ColumnDef { name, sql_type }),
    {
        ColumnDef { name, sql_type }
    }

    pub fn name(&self) -> (name: &str)
        ensures
            name@ == self.name@,
    {
        self.name.as_str()
    }

    pub fn sql_type(&self) -> (sql_type: SqlType)
        ensures
            sql_type == self.sql_type,
    {
        self.sql_type
    }

    /// A copy of the definition.
    pub fn duplicate(&self) -> (column: ColumnDef)
        ensures
            column == *self,
    {
        ColumnDef { name: self.name.clone(), sql_type: self.sql_type }
    }
}

/// A table's name, qualified by its schema.
#[derive(Debug, PartialEq, Eq, Clone)]
pub struct FullTableName {
    pub schema: String,
    pub table: String,
}

impl FullTableName {
    pub fn new(schema: String, table: String) -> (name: FullTableName)
        ensures
            name == (FullTableName { schema, table }),
    {
        FullTableName { schema, table }
    }

    /// A copy of the name.
    pub fn duplicate(&self) -> (name: FullTableName)
        ensures
            name == *self,
    {
        FullTableName { schema: self.schema.clone(), table: self.table.clone() }
    }
}

/// A table as the catalog hands it out for planning.
#[derive(Debug, PartialEq, Eq, Clone)]
pub struct Table {
    pub full_table_name: FullTableName,
    pub columns: Vec<ColumnDef>,
}

impl Table {
    pub fn new(full_table_name: FullTableName, columns: Vec<ColumnDef>) -> (table: Table)
        ensures
            table == (Table { full_table_name, columns }),
    {
        Table { full_table_name, columns }
    }

    /// The name and type of each column, in column order.
    pub open spec fn spec_columns_short(self) -> Seq<(String, SqlType)> {
        Seq::new(self.columns@.len(), |i: int| (self.columns@[i].name, self.columns@[i].sql_type))
    }

    /// The column definitions, in column order.
    pub fn columns(&self) -> (columns: Vec<ColumnDef>)
        ensures
            columns@ == self.columns@,
    {
        let mut columns: Vec<ColumnDef> = Vec::new();
        let mut i: usize = 0;
        while i < self.columns.len()
            invariant
                i <= self.columns@.len(),
                columns@ == self.columns@.take(i as int),
            decreases self.columns@.len() - i,
        {
            columns.push(self.columns[i].duplicate());
            assert(columns@ =~= self.columns@.take(i + 1));
            i += 1;
        }
        assert(columns@ =~= self.columns@);
        columns
    }

    pub fn columns_short(&self) -> (columns: Vec<(String, SqlType)>)
        ensures
            columns@ == self.spec_columns_short(),
    {
        let mut columns: Vec<(String, SqlType)> = Vec::new();
        let mut i: usize = 0;
        while i < self.columns.len()
            invariant
                i <= self.columns@.len(),
                columns@ == self.spec_columns_short().take(i as int),
            decreases self.columns@.len() - i,
        {
            columns.push((self.columns[i].name.clone(), self.columns[i].sql_type));
            assert(columns@ =~= self.spec_columns_short().take(i + 1));
            i += 1;
        }
        assert(columns@ =~= self.spec_columns_short());
        columns
    }
}

} // verus!
