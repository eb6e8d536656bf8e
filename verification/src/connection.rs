//! The saved connections, and how the connection form describes one.
use vstd::prelude::*;
use vstd::string::*;
use crate::form::{lookup, opt_view, FormData};

verus! {

/// A saved MySQL connection. The id is the 128-bit value of the connection's UUID; `add_at` is
/// the time it was made, in RFC 3339.
pub struct MySQLConnection {
    pub id: u128,
    pub name: String,
    pub host: String,
    pub port: String,
    pub user: String,
    pub password: String,
    pub add_at: String,
}

/// A saved PostgreSQL connection (see `MySQLConnection`).
pub struct PGConnection {
    pub id: u128,
    pub name: String,
    pub host: String,
    pub port: String,
    pub init_db: Option<String>,
    pub user: String,
    pub password: String,
    pub add_at: String,
}

impl MySQLConnection {
    /// A copy of the connection.
    pub fn duplicate(&self) -> (r: MySQLConnection)
        ensures
            r == *self,
    {
        MySQLConnection {
            id: self.id,
            name: self.name.clone(),
            host: self.host.clone(),
            port: self.port.clone(),
            user: self.user.clone(),
            password: self.password.clone(),
            add_at: self.add_at.clone(),
        }
    }
}

impl PGConnection {
    /// A copy of the connection.
    pub fn duplicate(&self) -> (r: PGConnection)
        ensures
            r == *self,
    {
        PGConnection {
            id: self.id,
            name: self.name.clone(),
            host: self.host.clone(),
            port: self.port.clone(),
            init_db: match &self.init_db { Some(d) => Some(d.clone()), None => None },
            user: self.user.clone(),
            password: self.password.clone(),
            add_at: self.add_at.clone(),
        }
    }
}

/// What `uuid::Uuid::parse_str` makes of the text: the 128-bit value of the UUID it reads, or
/// the text of the error it reports.
pub uninterp spec fn uuid_parse(text: Seq<char>) -> Result<u128, Seq<char>>;

/// The 128-bit value of the UUID that `uuid::Uuid::parse_str` reads from the text, if it reads one.
pub open spec fn uuid_value(text: Seq<char>) -> Option<u128> {
    match uuid_parse(text) {
        Ok(v) => Some(v),
        Err(_) => None,
    }
}

/// The text of the error that `uuid::Uuid::parse_str` reports for the text, if it reports one.
pub open spec fn uuid_error(text: Seq<char>) -> Option<Seq<char>> {
    match uuid_parse(text) {
        Ok(_) => None,
        Err(e) => Some(e),
    }
}

/// Reads a UUID with `uuid::Uuid::parse_str` and gives its 128-bit value (`as_u128`), or the
/// error's text as its `Display` writes it; the contract only names the result.
#[verifier::external_body]
fn parse_uuid(text: &str) -> (r: Result<u128, String>)
    ensures
        uuid_parse(text@) == match r {
            Ok(v) => Ok::<u128, Seq<char>>(v),
            Err(e) => Err::<u128, Seq<char>>(e@),
        },
{
    match uuid::Uuid::parse_str(text) {
        Ok(u) => Ok(u.as_u128()),
        Err(e) => Err(format!("{}", e)),
    }
}

/// A fresh random id from `uuid::Uuid::new_v4`. Nothing is claimed of the value.
#[verifier::external_body]
pub(crate) fn new_uuid() -> (r: u128) {
    uuid::Uuid::new_v4().as_u128()
}

/// The present time from `chrono::Utc::now`, in RFC 3339 as chrono's serde writes a UTC time
/// (`to_rfc3339_opts` with `SecondsFormat::AutoSi` and "Z"). Nothing is claimed of the value.
#[verifier::external_body]
fn now_rfc3339() -> (r: String) {
    chrono::Utc::now().to_rfc3339_opts(chrono::SecondsFormat::AutoSi, true)
}

/// Why the connection form does not describe a connection.
pub enum ConnectionFormError {
    /// The id is no UUID; the text is what `uuid::Uuid::parse_str` reported.
    InvalidId(String),
    MissingName,
    MissingHost,
    MissingUser,
    MissingPassword,
}

impl ConnectionFormError {
    /// The message that the error is shown with.
    pub fn message(&self, pg: bool) -> (r: String)
        ensures
            match *self {
                ConnectionFormError::InvalidId(t) => r@ == t@,
                ConnectionFormError::MissingName => r@ == "cannot get name"@,
                ConnectionFormError::MissingHost => r@ == "cannot get host"@,
                ConnectionFormError::MissingUser => r@ == "cannot get user"@,
                ConnectionFormError::MissingPassword => r@ == if pg { "cannot get passowrd"@ } else { "cannot get password"@ },
            },
    {
        match self {
            ConnectionFormError::InvalidId(t) => t.clone(),
            ConnectionFormError::MissingName => "cannot get name".to_owned(),
            ConnectionFormError::MissingHost => "cannot get host".to_owned(),
            ConnectionFormError::MissingUser => "cannot get user".to_owned(),
            ConnectionFormError::MissingPassword => if pg { "cannot get passowrd".to_owned() } else { "cannot get password".to_owned() },
        }
    }
}

/// The keys that the connection form of either kind holds.
pub open spec fn connection_form_complete(form: Seq<crate::form::EntryView>) -> bool {
    &&& lookup(form, "name"@) is Some
    &&& lookup(form, "host"@) is Some
    &&& lookup(form, "port"@) is Some
    &&& lookup(form, "user"@) is Some
    &&& lookup(form, "password"@) is Some
}

/// The value under `key` of a form that holds the key.
pub open spec fn entry(form: Seq<crate::form::EntryView>, key: Seq<char>) -> Option<Seq<char>> {
    lookup(form, key)->0
}

/// The text of the error that the form's id gives, if it names an id that is no UUID.
pub open spec fn id_error(form: Seq<crate::form::EntryView>) -> Option<Seq<char>> {
    match lookup(form, "id"@) {
        Some(Some(t)) => uuid_error(t),
        _ => None,
    }
}

/// Whether `e` is the error that the connection form gives, checking the id, name, host, user
/// and password in that order; `None` when it gives none.
pub open spec fn connection_form_error(form: Seq<crate::form::EntryView>, e: Option<ConnectionFormError>) -> bool {
    if id_error(form) is Some {
        e matches Some(ConnectionFormError::InvalidId(t)) && id_error(form) == Some(t@)
    } else if entry(form, "name"@) is None {
        e == Some(ConnectionFormError::MissingName)
    } else if entry(form, "host"@) is None {
        e == Some(ConnectionFormError::MissingHost)
    } else if entry(form, "user"@) is None {
        e == Some(ConnectionFormError::MissingUser)
    } else if entry(form, "password"@) is None {
        e == Some(ConnectionFormError::MissingPassword)
    } else {
        e is None
    }
}

/// Whether `id` is the id that the form gives: the one it names, or any fresh one when it names none.
pub open spec fn id_from_form(form: Seq<crate::form::EntryView>, id: u128) -> bool {
    match lookup(form, "id"@) {
        Some(Some(t)) => uuid_value(t) == Some(id),
        _ => true,
    }
}

fn required(form: &FormData, key: &str, err: ConnectionFormError) -> (r: Result<String, ConnectionFormError>)
    requires
        lookup(form@, key@) is Some,
    ensures
        match r {
            Ok(v) => entry(form@, key@) == Some(v@),
            Err(e) => entry(form@, key@) is None && e == err,
        },
{
    match form.get(key) {
        Some(Some(v)) => Ok(v),
        _ => Err(err),
    }
}

/// The id that the form gives: the UUID it names, or a fresh one when it names none; the error
/// text of `uuid::Uuid::parse_str` when it names no UUID.
pub(crate) fn form_id(form: &FormData) -> (r: Result<u128, String>)
    ensures
        match r {
            Ok(id) => id_error(form@) is None && id_from_form(form@, id),
            Err(e) => id_error(form@) == Some(e@),
        },
{
    match form.get("id") {
        Some(Some(t)) => parse_uuid(t.as_str()),
        _ => Ok(new_uuid()),
    }
}

/// The MySQL connection that the connection form describes: its id (a fresh one when the form
/// names none), name, host, port ("3306" when empty), user and password, made now.
pub fn generate_mysql_connection(form: &FormData) -> (r: Result<MySQLConnection, ConnectionFormError>)
    requires
        connection_form_complete(form@),
    ensures
        match r {
            Ok(c) => connection_form_error(form@, None) && id_from_form(form@, c.id)
                && Some(c.name@) == entry(form@, "name"@) && Some(c.host@) == entry(form@, "host"@)
                && c.port@ == (match entry(form@, "port"@) { Some(p) => p, None => "3306"@ })
                && Some(c.user@) == entry(form@, "user"@) && Some(c.password@) == entry(form@, "password"@),
            Err(e) => connection_form_error(form@, Some(e)),
        },
{
    let id = match form_id(form) {
        Ok(id) => id,
        Err(t) => { return Err(ConnectionFormError::InvalidId(t)); },
    };
    let name = required(form, "name", ConnectionFormError::MissingName)?;
    let host = required(form, "host", ConnectionFormError::MissingHost)?;
    let port = match form.get("port") { Some(Some(p)) => p, _ => "3306".to_owned() };
    let user = required(form, "user", ConnectionFormError::MissingUser)?;
    let password = required(form, "password", ConnectionFormError::MissingPassword)?;
    Ok(MySQLConnection { id, name, host, port, user, password, add_at: now_rfc3339() })
}

/// The PostgreSQL connection that the connection form describes (see `generate_mysql_connection`),
/// with the form's initial database.
pub fn generate_pg_connection(form: &FormData) -> (r: Result<PGConnection, ConnectionFormError>)
    requires
        connection_form_complete(form@),
        lookup(form@, "init db"@) is Some,
    ensures
        match r {
            Ok(c) => connection_form_error(form@, None) && id_from_form(form@, c.id)
                && Some(c.name@) == entry(form@, "name"@) && Some(c.host@) == entry(form@, "host"@)
                && c.port@ == (match entry(form@, "port"@) { Some(p) => p, None => "3306"@ })
                && opt_view(c.init_db) == entry(form@, "init db"@)
                && Some(c.user@) == entry(form@, "user"@) && Some(c.password@) == entry(form@, "password"@),
            Err(e) => connection_form_error(form@, Some(e)),
        },
{
    let id = match form_id(form) {
        Ok(id) => id,
        Err(t) => { return Err(ConnectionFormError::InvalidId(t)); },
    };
    let name = required(form, "name", ConnectionFormError::MissingName)?;
    let host = required(form, "host", ConnectionFormError::MissingHost)?;
    let port = match form.get("port") { Some(Some(p)) => p, _ => "3306".to_owned() };
    let init_db = match form.get("init db") { Some(v) => v, None => None };
    let user = required(form, "user", ConnectionFormError::MissingUser)?;
    let password = required(form, "password", ConnectionFormError::MissingPassword)?;
    Ok(PGConnection { id, name, host, port, init_db, user, password, add_at: now_rfc3339() })
}

} // verus!
