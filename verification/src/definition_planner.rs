//! Plans the statements that drop schemas and tables, against the names of
//! the schemas that the catalog holds.

use vstd::prelude::*;
use crate::definition::FullTableName;

verus! {

/// A statement that changes the catalog, as the parser hands it over.
#[derive(Debug, PartialEq, Eq)]
pub enum Definition {
    DropSchemas { names: Vec<String>, cascade: bool, if_exists: bool },
    /// Each name is a schema and a table in it.
    DropTables { names: Vec<(String, String)>, cascade: bool, if_exists: bool },
}

#[derive(Debug, PartialEq, Eq)]
pub struct DropSchemasQuery {
    pub schema_names: Vec<String>,
    pub cascade: bool,
    pub if_exists: bool,
}

#[derive(Debug, PartialEq, Eq)]
pub struct DropTablesQuery {
    pub full_table_names: Vec<FullTableName>,
    pub cascade: bool,
    pub if_exists: bool,
}

/// The change to the catalog that a statement asks for.
#[derive(Debug, PartialEq, Eq)]
pub enum SchemaChange {
    DropSchemas(DropSchemasQuery),
    DropTables(DropTablesQuery),
}

#[derive(Debug, PartialEq, Eq, Clone)]
pub enum SchemaPlanError {
    SchemaDoesNotExist(String),
}

impl SchemaPlanError {
    pub fn schema_does_not_exist(schema: String) -> (error: SchemaPlanError)
        ensures
            error == SchemaPlanError::SchemaDoesNotExist(schema),
    {
        SchemaPlanError::SchemaDoesNotExist(schema)
    }
}

/// Whether the catalog holds a schema of that name.
pub open spec fn schema_exists(schemas: Seq<String>, name: Seq<char>) -> bool {
    exists|i: int| 0 <= i < schemas.len() && (#[trigger] schemas[i])@ == name
}

/// The position, at or after `from`, of the first table whose schema the
/// catalog does not hold.
pub open spec fn first_missing_schema(
    schemas: Seq<String>,
    names: Seq<(String, String)>,
    from: int,
) -> Option<int>
    decreases names.len() - from,
{
    if from < 0 || from >= names.len() {
        None
    } else if !schema_exists(schemas, names[from].0@) {
        Some(from)
    } else {
        first_missing_schema(schemas, names, from + 1)
    }
}

/// The full name of a table, from the pair of its schema and its own name.
pub open spec fn full_name_of(name: (String, String)) -> FullTableName {
    FullTableName { schema: name.0, table: name.1 }
}

/// Whether `result` is what planning `definition` gives where the catalog
/// holds `schemas`. Dropping schemas is planned whether or not they exist.
/// Dropping tables is planned where every schema exists or `if_exists` is
/// set; otherwise the error names the first schema that does not exist.
/// Whether the tables themselves exist is not asked.
pub open spec fn is_change_of(
    result: Result<SchemaChange, SchemaPlanError>,
    schemas: Seq<String>,
    definition: Definition,
) -> bool {
    match definition {
        Definition::DropSchemas { names, cascade, if_exists } => result == Ok::<
            SchemaChange,
            SchemaPlanError,
        >(SchemaChange::DropSchemas(DropSchemasQuery { schema_names: names, cascade, if_exists })),
        Definition::DropTables { names, cascade, if_exists } => {
            let missing = first_missing_schema(schemas, names@, 0);
            if !if_exists && missing.is_some() {
                result == Err::<SchemaChange, SchemaPlanError>(
                    SchemaPlanError::SchemaDoesNotExist(names@[missing.unwrap()].0),
                )
            } else {
                &&& result matches Ok(SchemaChange::DropTables(query))
                &&& query.cascade == cascade
                &&& query.if_exists == if_exists
                &&& query.full_table_names@ == names@.map_values(
                    |name: (String, String)| full_name_of(name),
                )
            }
        },
    }
}

/// Tests whether the catalog holds a schema of that name.
pub fn has_schema(schemas: &Vec<String>, name: &String) -> (found: bool)
    ensures
        found == schema_exists(schemas@, name@),
{
    let mut i: usize = 0;
    while i < schemas.len()
        invariant
            i <= schemas@.len(),
            forall|j: int| 0 <= j < i ==> (#[trigger] schemas@[j])@ != name@,
        decreases schemas@.len() - i,
    {
        if schemas[i] == *name {
            return true;
        }
        i += 1;
    }
    false
}

/// The first table whose schema the catalog does not hold, if there is one.
pub fn missing_schema(schemas: &Vec<String>, names: &Vec<(String, String)>) -> (missing: Option<
    usize,
>)
    ensures
        match missing {
            Some(index) => index < names@.len() && first_missing_schema(schemas@, names@, 0)
                == Some(index as int),
            None => first_missing_schema(schemas@, names@, 0).is_none(),
        },
{
    let mut i: usize = 0;
    while i < names.len()
        invariant
            i <= names@.len(),
            first_missing_schema(schemas@, names@, 0) == first_missing_schema(
                schemas@,
                names@,
                i as int,
            ),
        decreases names@.len() - i,
    {
        if !has_schema(schemas, &names[i].0) {
            return Some(i);
        }
        i += 1;
    }
    None
}

/// The full names of the tables, in their order.
pub fn full_table_names(names: &Vec<(String, String)>) -> (full_names: Vec<FullTableName>)
    ensures
        full_names@ == names@.map_values(|name: (String, String)| full_name_of(name)),
{
    let mut full_names: Vec<FullTableName> = Vec::new();
    let mut i: usize = 0;
    while i < names.len()
        invariant
            i <= names@.len(),
            full_names@ == names@.map_values(|name: (String, String)| full_name_of(name)).take(
                i as int,
            ),
        decreases names@.len() - i,
    {
        full_names.push(FullTableName::new(names[i].0.clone(), names[i].1.clone()));
        assert(full_names@ =~= names@.map_values(|name: (String, String)| full_name_of(name)).take(
            i + 1,
        ));
        i += 1;
    }
    assert(full_names@ =~= names@.map_values(|name: (String, String)| full_name_of(name)));
    full_names
}

/// Plans changes to the catalog. It holds the names of the schemas that
/// exist.
pub struct DefinitionPlanner {
    pub schemas: Vec<String>,
}

impl DefinitionPlanner {
    pub fn new(schemas: Vec<String>) -> (planner: DefinitionPlanner)
        ensures
            planner.schemas == schemas,
    {
        DefinitionPlanner { schemas }
    }

    pub fn plan(&self, statement: Definition) -> (change: Result<SchemaChange, SchemaPlanError>)
        ensures
            is_change_of(change, self.schemas@, statement),
    {
        match statement {
            Definition::DropSchemas { names, cascade, if_exists } => Ok(
                SchemaChange::DropSchemas(DropSchemasQuery { schema_names: names, cascade, if_exists }),
            ),
            Definition::DropTables { names, cascade, if_exists } => {
                if !if_exists {
                    match missing_schema(&self.schemas, &names) {
                        Some(index) => {
                            return Err(
                                SchemaPlanError::schema_does_not_exist(names[index].0.clone()),
                            );
                        },
                        None => {},
                    }
                }
                Ok(
                    SchemaChange::DropTables(
                        DropTablesQuery {
                            full_table_names: full_table_names(&names),
                            cascade,
                            if_exists,
                        },
                    ),
                )
            },
        }
    }
}

/// With `if_exists` set, dropping is planned whatever the catalog holds, and
/// the change names every target.
pub proof fn lemma_drop_if_exists_is_planned(
    change: Result<SchemaChange, SchemaPlanError>,
    schemas: Seq<String>,
    statement: Definition,
)
    requires
        is_change_of(change, schemas, statement),
        match statement {
            Definition::DropSchemas { names, cascade, if_exists } => if_exists,
            Definition::DropTables { names, cascade, if_exists } => if_exists,
        },
    ensures
        match statement {
            Definition::DropSchemas { names, cascade, if_exists } => change matches Ok(
                SchemaChange::DropSchemas(query),
            ) && query.schema_names == names && query.if_exists,
            Definition::DropTables { names, cascade, if_exists } => change matches Ok(
                SchemaChange::DropTables(query),
            ) && query.if_exists && query.full_table_names@.len() == names@.len() && forall|i: int|
                0 <= i < names@.len() ==> #[trigger] query.full_table_names@[i] == full_name_of(
                    names@[i],
                ),
        },
{
}

/// Without `if_exists`, dropping a table of a schema that does not exist is
/// refused, and the error names the first such schema; dropping a schema is
/// planned even where it does not exist.
pub proof fn lemma_drop_without_if_exists(
    change: Result<SchemaChange, SchemaPlanError>,
    schemas: Seq<String>,
    statement: Definition,
)
    requires
        is_change_of(change, schemas, statement),
        match statement {
            Definition::DropSchemas { names, cascade, if_exists } => !if_exists,
            Definition::DropTables { names, cascade, if_exists } => !if_exists,
        },
    ensures
        match statement {
            Definition::DropSchemas { names, cascade, if_exists } => change matches Ok(
                SchemaChange::DropSchemas(query),
            ) && query.schema_names == names,
            Definition::DropTables { names, cascade, if_exists } => {
                &&& change.is_err() <==> exists|i: int|
                    0 <= i < names@.len() && !schema_exists(schemas, (#[trigger] names@[i]).0@)
                &&& change matches Err(SchemaPlanError::SchemaDoesNotExist(schema)) ==> exists|i: int|
                    0 <= i < names@.len() && !schema_exists(schemas, (#[trigger] names@[i]).0@)
                        && schema == names@[i].0
            },
        },
{
    match statement {
        Definition::DropTables { names, cascade, if_exists } => {
            lemma_first_missing_schema(schemas, names@, 0);
        },
        _ => {},
    }
}

/// What `first_missing_schema` finds from `from` on is the first table there
/// whose schema does not exist; it finds none only where there is none.
pub proof fn lemma_first_missing_schema(
    schemas: Seq<String>,
    names: Seq<(String, String)>,
    from: int,
)
    requires
        0 <= from <= names.len(),
    ensures
        match first_missing_schema(schemas, names, from) {
            Some(index) => {
                &&& from <= index < names.len()
                &&& !schema_exists(schemas, names[index].0@)
                &&& forall|earlier: int|
                    from <= earlier < index ==> schema_exists(
                        schemas,
                        (#[trigger] names[earlier]).0@,
                    )
            },
            None => forall|index: int|
                from <= index < names.len() ==> schema_exists(schemas, (#[trigger] names[index]).0@),
        },
    decreases names.len() - from,
{
    if from < names.len() && schema_exists(schemas, names[from].0@) {
        lemma_first_missing_schema(schemas, names, from + 1);
    }
}

} // verus!
