//! The error taxonomy of the library.
//!
//! Every failure of row access and record assembly is folded into [`DbErr`].
//! Two design points are deliberate and load-bearing:
//!
//! * two `DbErr` values compare equal exactly when their rendered messages
//!   are textually identical (structural equality is not used);
//! * `is_column_not_found_error` is the single classification consulted by
//!   generated fallback logic to tell "requested column absent" from every
//!   other failure, unifying driver-reported and synthesized evidence.

use vstd::prelude::*;
use vstd::string::StringExecFns;
use crate::text::str_starts_with;

verus! {

/// What this library reads of a database driver's own error value: whether
/// the driver reported the requested column absent, and the error's rendered
/// text. A driver integration converts its error into this shape at the edge.
#[derive(Debug)]
pub struct DriverErr {
    /// True when the driver reported that the requested column does not
    /// exist in the result set.
    pub column_not_found: bool,
    /// The driver error's rendered text.
    pub message: String,
}

/// Runtime error: a driver-level cause or an internally synthesized message,
/// always carried inside `DbErr::Conn`, `DbErr::Exec` or `DbErr::Query`.
#[derive(Debug)]
pub enum RuntimeErr {
    /// An error reported by the database driver.
    SqlxError(DriverErr),
    /// An error generated from within this library.
    Internal(String),
}

/// An error from unsuccessful database operations.
#[derive(Debug)]
pub enum DbErr {
    /// The connection pool was fully utilized.
    ConnectionAcquire,
    /// Runtime type conversion error.
    TryIntoErr {
        /// From type.
        from: String,
        /// Into type.
        into: String,
        /// The underlying conversion error, rendered.
        source: String,
    },
    /// There was a problem with the database connection.
    Conn(RuntimeErr),
    /// An operation did not execute successfully.
    Exec(RuntimeErr),
    /// An error occurred while performing a query.
    Query(RuntimeErr),
    /// The specified type cannot be converted from u64.
    ConvertFromU64(String),
    /// After an insert it was impossible to retrieve the last insert id.
    UnpackInsertId,
    /// When updating, a model should know its primary key.
    UpdateGetPrimaryKey,
    /// The record was not found in the database.
    RecordNotFound(String),
    /// An attribute was expected to be set but is not.
    AttrNotSet(String),
    /// A custom error.
    Custom(String),
    /// Error occurred while parsing a value as the target type.
    Type(String),
    /// Error occurred while parsing a json value as the target type.
    Json(String),
    /// A migration error.
    Migration(String),
    /// None of the records were inserted.
    RecordNotInserted,
    /// None of the records were updated.
    RecordNotUpdated,
}

/// The rendered text of a runtime error.
pub open spec fn runtime_err_text(e: RuntimeErr) -> Seq<char> {
    match e {
        RuntimeErr::SqlxError(d) => d.message@,
        RuntimeErr::Internal(s) => s@,
    }
}

/// The rendered message of an error. Equality of `DbErr` goes by this text.
pub open spec fn db_err_text(e: DbErr) -> Seq<char> {
    match e {
        DbErr::ConnectionAcquire => "Failed to acquire connection from pool"@,
        DbErr::TryIntoErr { from, into, source } => "Error converting `"@ + from@ + "` into `"@
            + into@ + "`: "@ + source@,
        DbErr::Conn(r) => "Connection Error: "@ + runtime_err_text(r),
        DbErr::Exec(r) => "Execution Error: "@ + runtime_err_text(r),
        DbErr::Query(r) => "Query Error: "@ + runtime_err_text(r),
        DbErr::ConvertFromU64(t) => "Type '"@ + t@ + "' cannot be converted from u64"@,
        DbErr::UnpackInsertId => "Failed to unpack last_insert_id"@,
        DbErr::UpdateGetPrimaryKey => "Failed to get primary key from model"@,
        DbErr::RecordNotFound(s) => "RecordNotFound Error: "@ + s@,
        DbErr::AttrNotSet(s) => "Attribute "@ + s@ + " is NotSet"@,
        DbErr::Custom(s) => "Custom Error: "@ + s@,
        DbErr::Type(s) => "Type Error: "@ + s@,
        DbErr::Json(s) => "Json Error: "@ + s@,
        DbErr::Migration(s) => "Migration Error: "@ + s@,
        DbErr::RecordNotInserted => "None of the records are inserted"@,
        DbErr::RecordNotUpdated => "None of the records are updated"@,
    }
}

/// The marker text that synthesized "missing column" conversion errors begin
/// with when no driver integration reported the absence itself.
pub open spec fn null_marker() -> Seq<char> {
    "A null value was encountered"@
}

/// Whether an error says that a requested column is absent from the query's
/// result set: either a `Type` error whose message starts with the fixed
/// marker, or a `Query` error wrapping the driver's own column-not-found
/// report. Every other variant, including `Conn` and `Exec` wrappers, is not
/// classified as column-not-found.
pub open spec fn is_column_not_found(e: DbErr) -> bool {
    ||| (e matches DbErr::Type(msg) && null_marker().is_prefix_of(msg@))
    ||| (e matches DbErr::Query(RuntimeErr::SqlxError(d)) && d.column_not_found)
}

impl RuntimeErr {
    /// The rendered text of this runtime error.
    pub fn text(&self) -> (r: String)
        ensures
            r@ == runtime_err_text(*self),
    {
        match self {
            RuntimeErr::SqlxError(d) => d.message.clone(),
            RuntimeErr::Internal(s) => s.clone(),
        }
    }
}

impl DbErr {
    /// The rendered message of this error; `==` on `DbErr` compares it.
    pub fn text(&self) -> (r: String)
        ensures
            r@ == db_err_text(*self),
    {
        match self {
            DbErr::ConnectionAcquire => "Failed to acquire connection from pool".to_owned(),
            DbErr::TryIntoErr { from, into, source } => {
                let mut s = "Error converting `".to_owned();
                s.append(from.as_str());
                s.append("` into `");
                s.append(into.as_str());
                s.append("`: ");
                s.append(source.as_str());
                proof {
                    assert(s@ =~= db_err_text(*self));
                }
                s
            },
            DbErr::Conn(r) => {
                let mut s = "Connection Error: ".to_owned();
                s.append(r.text().as_str());
                s
            },
            DbErr::Exec(r) => {
                let mut s = "Execution Error: ".to_owned();
                s.append(r.text().as_str());
                s
            },
            DbErr::Query(r) => {
                let mut s = "Query Error: ".to_owned();
                s.append(r.text().as_str());
                s
            },
            DbErr::ConvertFromU64(t) => {
                let mut s = "Type '".to_owned();
                s.append(t.as_str());
                s.append("' cannot be converted from u64");
                proof {
                    assert(s@ =~= db_err_text(*self));
                }
                s
            },
            DbErr::UnpackInsertId => "Failed to unpack last_insert_id".to_owned(),
            DbErr::UpdateGetPrimaryKey => "Failed to get primary key from model".to_owned(),
            DbErr::RecordNotFound(m) => {
                let mut s = "RecordNotFound Error: ".to_owned();
                s.append(m.as_str());
                s
            },
            DbErr::AttrNotSet(m) => {
                let mut s = "Attribute ".to_owned();
                s.append(m.as_str());
                s.append(" is NotSet");
                proof {
                    assert(s@ =~= db_err_text(*self));
                }
                s
            },
            DbErr::Custom(m) => {
                let mut s = "Custom Error: ".to_owned();
                s.append(m.as_str());
                s
            },
            DbErr::Type(m) => {
                let mut s = "Type Error: ".to_owned();
                s.append(m.as_str());
                s
            },
            DbErr::Json(m) => {
                let mut s = "Json Error: ".to_owned();
                s.append(m.as_str());
                s
            },
            DbErr::Migration(m) => {
                let mut s = "Migration Error: ".to_owned();
                s.append(m.as_str());
                s
            },
            DbErr::RecordNotInserted => "None of the records are inserted".to_owned(),
            DbErr::RecordNotUpdated => "None of the records are updated".to_owned(),
        }
    }

    /// Whether this error indicates that a column is not found in the query.
    pub fn is_column_not_found_error(&self) -> (r: bool)
        ensures
            r == is_column_not_found(*self),
    {
        match self {
            DbErr::Type(err) => str_starts_with(err.as_str(), "A null value was encountered"),
            DbErr::Query(RuntimeErr::SqlxError(d)) => d.column_not_found,
            _ => false,
        }
    }
}

impl PartialEq for DbErr {
    /// Two errors are equal exactly when their rendered messages coincide.
    fn eq(&self, other: &Self) -> (r: bool) {
        self.text() == other.text()
    }
}

impl Eq for DbErr {

}

impl vstd::std_specs::cmp::PartialEqSpecImpl for DbErr {
    open spec fn obeys_eq_spec() -> bool {
        true
    }

    open spec fn eq_spec(&self, other: &DbErr) -> bool {
        db_err_text(*self) == db_err_text(*other)
    }
}

/// Equality on `DbErr` goes by rendered text alone: two values satisfy the
/// meaning of `==` exactly when their rendered messages are identical,
/// whatever variants they were constructed from.
pub proof fn lemma_eq_is_text_eq(a: DbErr, b: DbErr)
    ensures
        vstd::std_specs::cmp::PartialEqSpec::eq_spec(&a, &b) <==> db_err_text(a) == db_err_text(
            b,
        ),
{
}

/// The classification's scope: `Conn` and `Exec` wrappers are never treated
/// as column-not-found, whatever runtime cause they carry, and a `Type` error
/// classifies exactly by the fixed marker prefix of its message.
pub proof fn lemma_classification_scope(r: RuntimeErr, msg: String)
    ensures
        !is_column_not_found(DbErr::Conn(r)),
        !is_column_not_found(DbErr::Exec(r)),
        is_column_not_found(DbErr::Type(msg)) <==> null_marker().is_prefix_of(msg@),
{
}

/// Wraps an internally synthesized message as a connection failure.
pub fn conn_err(s: &str) -> (r: DbErr)
    ensures
        r matches DbErr::Conn(RuntimeErr::Internal(m)) && m@ == s@,
{
    DbErr::Conn(RuntimeErr::Internal(s.to_owned()))
}

/// Wraps an internally synthesized message as an execution failure.
pub fn exec_err(s: &str) -> (r: DbErr)
    ensures
        r matches DbErr::Exec(RuntimeErr::Internal(m)) && m@ == s@,
{
    DbErr::Exec(RuntimeErr::Internal(s.to_owned()))
}

/// Wraps an internally synthesized message as a query failure.
pub fn query_err(s: &str) -> (r: DbErr)
    ensures
        r matches DbErr::Query(RuntimeErr::Internal(m)) && m@ == s@,
{
    DbErr::Query(RuntimeErr::Internal(s.to_owned()))
}

/// Wraps a message as a type-conversion failure.
pub fn type_err(s: &str) -> (r: DbErr)
    ensures
        r matches DbErr::Type(m) && m@ == s@,
{
    DbErr::Type(s.to_owned())
}

/// Wraps a message as a json-decoding failure.
pub fn json_err(s: &str) -> (r: DbErr)
    ensures
        r matches DbErr::Json(m) && m@ == s@,
{
    DbErr::Json(s.to_owned())
}

/// Error when a string fails to match any column of an entity.
#[derive(Debug)]
pub struct ColumnFromStrErr(pub String);

impl ColumnFromStrErr {
    /// The rendered message of this error.
    pub fn text(&self) -> (r: String)
        ensures
            r@ == "Failed to match \""@ + self.0@ + "\" as Column"@,
    {
        let mut s = "Failed to match \"".to_owned();
        s.append(self.0.as_str());
        s.append("\" as Column");
        proof {
            assert(s@ =~= "Failed to match \""@ + self.0@ + "\" as Column"@);
        }
        s
    }
}

} // verus!
