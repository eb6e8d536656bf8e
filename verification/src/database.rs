//! Databases and schemas as the database and schema forms describe them, and what an edit of
//! one changes on the server.
use vstd::prelude::*;
use crate::form::{lookup, opt_view, EntryView, FormData};

verus! {

/// A MySQL database as its form describes it.
pub struct MySQLDatabase {
    pub name: String,
    pub character_set: Option<String>,
    pub collation: Option<String>,
}

/// A PostgreSQL database as its form describes it.
pub struct PGDatabase {
    pub name: String,
    pub owner: Option<String>,
    pub collation_order: Option<String>,
    pub character_class: Option<String>,
    pub template: Option<String>,
    pub tablespace: Option<String>,
    pub connection_limit: Option<String>,
    pub allow_connection: bool,
    pub is_template: bool,
}

/// A PostgreSQL schema as its form describes it.
pub struct Schema {
    pub name: String,
    pub owner: Option<String>,
}

/// Why a database or schema form does not describe one.
#[derive(PartialEq, Eq, Structural, Clone, Copy)]
pub enum DatabaseFormError {
    MissingName,
    MissingAllowConnection,
    MissingIsTemplate,
}

impl DatabaseFormError {
    /// The message that the error is shown with.
    pub fn message(&self) -> (r: &'static str)
        ensures
            *self == DatabaseFormError::MissingName ==> r@ == "cannot get name"@,
            *self == DatabaseFormError::MissingAllowConnection ==> r@ == "cannot get allow connection"@,
            *self == DatabaseFormError::MissingIsTemplate ==> r@ == "canot get is template"@,
    {
        match self {
            DatabaseFormError::MissingName => "cannot get name",
            DatabaseFormError::MissingAllowConnection => "cannot get allow connection",
            DatabaseFormError::MissingIsTemplate => "canot get is template",
        }
    }
}

/// The value under `key` of a form that holds the key.
pub open spec fn value(form: Seq<EntryView>, key: Seq<char>) -> Option<Seq<char>> {
    lookup(form, key)->0
}

/// Whether the text reads as true: "true" or "True".
pub open spec fn reads_true(v: Seq<char>) -> bool {
    v == "true"@ || v == "True"@
}

fn value_of(form: &FormData, key: &str) -> (r: Option<String>)
    requires
        lookup(form@, key@) is Some,
    ensures
        opt_view(r) == value(form@, key@),
{
    match form.get(key) {
        Some(v) => v,
        None => None,
    }
}

fn is_true(v: &String) -> (r: bool)
    ensures
        r == reads_true(v@),
{
    let t = "true".to_owned();
    let u = "True".to_owned();
    proof {
        reveal_strlit("true");
        reveal_strlit("True");
    }
    *v == t || *v == u
}

/// The keys that the MySQL database form holds.
pub open spec fn mysql_database_form_complete(form: Seq<EntryView>) -> bool {
    &&& lookup(form, "name"@) is Some
    &&& lookup(form, "character set"@) is Some
    &&& lookup(form, "collation"@) is Some
}

/// The MySQL database that its form describes; an error when the form has no name.
pub fn generate_mysql_database(form: &FormData) -> (r: Result<MySQLDatabase, DatabaseFormError>)
    requires
        mysql_database_form_complete(form@),
    ensures
        match r {
            Ok(db) => Some(db.name@) == value(form@, "name"@)
                && opt_view(db.character_set) == value(form@, "character set"@)
                && opt_view(db.collation) == value(form@, "collation"@),
            Err(e) => value(form@, "name"@) is None && e == DatabaseFormError::MissingName,
        },
{
    let name = match value_of(form, "name") {
        Some(n) => n,
        None => return Err(DatabaseFormError::MissingName),
    };
    Ok(MySQLDatabase {
        name,
        character_set: value_of(form, "character set"),
        collation: value_of(form, "collation"),
    })
}

/// The keys that the PostgreSQL database form holds.
pub open spec fn pg_database_form_complete(form: Seq<EntryView>) -> bool {
    &&& lookup(form, "name"@) is Some
    &&& lookup(form, "owner"@) is Some
    &&& lookup(form, "collation order"@) is Some
    &&& lookup(form, "character class"@) is Some
    &&& lookup(form, "template"@) is Some
    &&& lookup(form, "tablespace"@) is Some
    &&& lookup(form, "connection limit"@) is Some
    &&& lookup(form, "allow connection"@) is Some
    &&& lookup(form, "is template"@) is Some
}

/// The error, if any, that the PostgreSQL database form gives, checking the name, "allow
/// connection" and "is template" in that order.
pub open spec fn pg_database_form_error(form: Seq<EntryView>) -> Option<DatabaseFormError> {
    if value(form, "name"@) is None {
        Some(DatabaseFormError::MissingName)
    } else if value(form, "allow connection"@) is None {
        Some(DatabaseFormError::MissingAllowConnection)
    } else if value(form, "is template"@) is None {
        Some(DatabaseFormError::MissingIsTemplate)
    } else {
        None
    }
}

/// The PostgreSQL database that its form describes: the text values as they are, and the two
/// flags true when they read "true" or "True".
pub fn generate_pg_database(form: &FormData) -> (r: Result<PGDatabase, DatabaseFormError>)
    requires
        pg_database_form_complete(form@),
    ensures
        match r {
            Ok(db) => {
                &&& pg_database_form_error(form@) is None
                &&& Some(db.name@) == value(form@, "name"@)
                &&& opt_view(db.owner) == value(form@, "owner"@)
                &&& opt_view(db.collation_order) == value(form@, "collation order"@)
                &&& opt_view(db.character_class) == value(form@, "character class"@)
                &&& opt_view(db.template) == value(form@, "template"@)
                &&& opt_view(db.tablespace) == value(form@, "tablespace"@)
                &&& opt_view(db.connection_limit) == value(form@, "connection limit"@)
                &&& db.allow_connection == reads_true(value(form@, "allow connection"@)->0)
                &&& db.is_template == reads_true(value(form@, "is template"@)->0)
            },
            Err(e) => pg_database_form_error(form@) == Some(e),
        },
{
    let name = match value_of(form, "name") {
        Some(n) => n,
        None => return Err(DatabaseFormError::MissingName),
    };
    let owner = value_of(form, "owner");
    let collation_order = value_of(form, "collation order");
    let character_class = value_of(form, "character class");
    let template = value_of(form, "template");
    let tablespace = value_of(form, "tablespace");
    let connection_limit = value_of(form, "connection limit");
    let allow_connection = match value_of(form, "allow connection") {
        Some(v) => is_true(&v),
        None => return Err(DatabaseFormError::MissingAllowConnection),
    };
    let is_template = match value_of(form, "is template") {
        Some(v) => is_true(&v),
        None => return Err(DatabaseFormError::MissingIsTemplate),
    };
    Ok(PGDatabase {
        name,
        owner,
        collation_order,
        character_class,
        template,
        tablespace,
        connection_limit,
        allow_connection,
        is_template,
    })
}

/// The keys that the schema form holds.
pub open spec fn schema_form_complete(form: Seq<EntryView>) -> bool {
    &&& lookup(form, "name"@) is Some
    &&& lookup(form, "owner"@) is Some
}

/// The schema that its form describes; an error when the form has no name.
pub fn generate_pg_schema(form: &FormData) -> (r: Result<Schema, DatabaseFormError>)
    requires
        schema_form_complete(form@),
    ensures
        match r {
            Ok(s) => Some(s.name@) == value(form@, "name"@) && opt_view(s.owner) == value(form@, "owner"@),
            Err(e) => value(form@, "name"@) is None && e == DatabaseFormError::MissingName,
        },
{
    let name = match value_of(form, "name") {
        Some(n) => n,
        None => return Err(DatabaseFormError::MissingName),
    };
    Ok(Schema { name, owner: value_of(form, "owner") })
}

/// What an edit of a PostgreSQL database changes on the server, each in its own statement.
#[derive(PartialEq, Eq, Structural, Clone, Copy)]
pub struct PgDatabaseChanges {
    /// The name changed: rename the database (and its rows in the tree).
    pub rename: bool,
    /// The owner changed.
    pub owner: bool,
    /// The tablespace changed.
    pub tablespace: bool,
    /// Whether it allows connections, its connection limit or whether it is a template changed.
    pub options: bool,
}

/// The changes from `old` to `db`.
pub open spec fn pg_database_changes_spec(db: PGDatabase, old: PGDatabase) -> PgDatabaseChanges {
    PgDatabaseChanges {
        rename: old.name@ != db.name@,
        owner: opt_view(old.owner) != opt_view(db.owner),
        tablespace: opt_view(old.tablespace) != opt_view(db.tablespace),
        options: old.allow_connection != db.allow_connection
            || opt_view(old.connection_limit) != opt_view(db.connection_limit)
            || old.is_template != db.is_template,
    }
}

fn opt_differs(a: &Option<String>, b: &Option<String>) -> (r: bool)
    ensures
        r == (opt_view(*a) != opt_view(*b)),
{
    match (a, b) {
        (Some(x), Some(y)) => !(*x == *y),
        (None, None) => false,
        _ => true,
    }
}

/// What the edit from `old` to `db` changes on the server.
pub fn pg_database_changes(db: &PGDatabase, old: &PGDatabase) -> (r: PgDatabaseChanges)
    ensures
        r == pg_database_changes_spec(*db, *old),
{
    PgDatabaseChanges {
        rename: !(old.name == db.name),
        owner: opt_differs(&old.owner, &db.owner),
        tablespace: opt_differs(&old.tablespace, &db.tablespace),
        options: old.allow_connection != db.allow_connection
            || opt_differs(&old.connection_limit, &db.connection_limit)
            || old.is_template != db.is_template,
    }
}

/// What an edit of a schema changes on the server: its name (and then its rows in the tree),
/// and its owner.
pub fn schema_changes(schema: &Schema, old: &Schema) -> (r: (bool, bool))
    ensures
        r.0 == (old.name@ != schema.name@),
        r.1 == (opt_view(old.owner) != opt_view(schema.owner)),
{
    (!(old.name == schema.name), opt_differs(&old.owner, &schema.owner))
}

/// An edit that leaves the database as it was changes nothing on the server.
pub proof fn lemma_unchanged_database_changes_nothing(db: PGDatabase)
    ensures
        pg_database_changes_spec(db, db) == (PgDatabaseChanges { rename: false, owner: false, tablespace: false, options: false }),
{
}

} // verus!
