//! The row accessor and the generated assembler's run-time half.
//!
//! A [`Row`] is one materialized result record: named columns with
//! loosely-typed values. `try_get` performs one lookup with typed
//! conversion; an absent column is reported either as the driver's own
//! column-not-found error (driver integration active) or as a synthesized
//! type error whose message begins with the fixed marker — the
//! classification in [`crate::error`] unifies both. `fetch_field` adds the
//! single sanctioned fallback: a field marked `default` whose column is
//! absent yields the type's default value. `from_query_result` runs every
//! field of a registry of descriptors in declaration order and returns a
//! fully resolved record or the first error, never a partial record.

use vstd::prelude::*;
use vstd::string::StringExecFns;
use crate::error::DbErr;
use crate::error::DriverErr;
use crate::error::RuntimeErr;
use crate::error::is_column_not_found;
use crate::error::null_marker;
use crate::generator::RecordFieldSpec;
use crate::text::str_eq;

verus! {

/// A loosely-typed value stored in a row's column.
#[derive(Debug)]
pub enum Value {
    /// An integer value.
    Int(i64),
    /// A text value.
    Text(String),
}

impl Clone for Value {
    /// An exact copy of the value.
    fn clone(&self) -> (r: Self)
        ensures
            r == *self,
    {
        match self {
            Value::Int(i) => Value::Int(*i),
            Value::Text(s) => Value::Text(s.clone()),
        }
    }
}

impl PartialEq for Value {
    /// Structural equality: same shape, same content.
    fn eq(&self, other: &Self) -> (r: bool) {
        match (self, other) {
            (Value::Int(a), Value::Int(b)) => *a == *b,
            (Value::Text(a), Value::Text(b)) => str_eq(a.as_str(), b.as_str()),
            _ => false,
        }
    }
}

impl Eq for Value {

}

impl vstd::std_specs::cmp::PartialEqSpecImpl for Value {
    open spec fn obeys_eq_spec() -> bool {
        true
    }

    open spec fn eq_spec(&self, other: &Value) -> bool {
        match (*self, *other) {
            (Value::Int(a), Value::Int(b)) => a == b,
            (Value::Text(a), Value::Text(b)) => a@ == b@,
            _ => false,
        }
    }
}

/// The static type a field expects its column converted into.
#[derive(Clone, Copy, PartialEq, Eq, Structural, Debug)]
pub enum ColType {
    /// A signed integer.
    Int,
    /// A text string.
    Text,
}

/// One materialized database result row: named columns in result order,
/// together with which reporting path an absent column takes.
#[derive(Debug)]
pub struct Row {
    /// The row's columns: full column name and stored value.
    pub columns: Vec<(String, Value)>,
    /// True when a driver integration is active: an absent column is then
    /// reported as the driver's own column-not-found error; otherwise a
    /// marker-prefixed type error is synthesized in its place.
    pub driver_reported: bool,
}

/// The stored value of the first column of `cols` named `name`, if any.
pub open spec fn lookup(cols: Seq<(String, Value)>, name: Seq<char>) -> Option<Value>
    decreases cols.len(),
{
    if cols.len() == 0 {
        None
    } else if cols[0].0@ == name {
        Some(cols[0].1)
    } else {
        lookup(cols.drop_first(), name)
    }
}

/// The name a column is looked up under: the prefix, then the column name.
pub open spec fn full_column_name(pre: Seq<char>, col: Seq<char>) -> Seq<char> {
    pre + col
}

/// Whether a stored value already has the shape a column type asks for.
pub open spec fn value_has_type(v: Value, t: ColType) -> bool {
    match (v, t) {
        (Value::Int(_), ColType::Int) => true,
        (Value::Text(_), ColType::Text) => true,
        _ => false,
    }
}

/// Whether `v` is the default value of the column type: zero for integers,
/// the empty string for text.
pub open spec fn is_default_value(v: Value, t: ColType) -> bool {
    match t {
        ColType::Int => v == Value::Int(0i64),
        ColType::Text => v matches Value::Text(s) && s@ == Seq::<char>::empty(),
    }
}

/// The synthesized message for an absent column when no driver integration
/// is active: the fixed marker, then the lookup name.
pub open spec fn null_value_text(name: Seq<char>) -> Seq<char> {
    "A null value was encountered while decoding "@ + name
}

/// The driver's rendered report of an absent column.
pub open spec fn driver_not_found_text(name: Seq<char>) -> Seq<char> {
    "no column found for name: "@ + name
}

/// The message of a conversion failure on a column that is present but does
/// not hold the expected shape; it never carries the marker.
pub open spec fn mismatch_text(name: Seq<char>) -> Seq<char> {
    "error occurred while decoding column "@ + name
}

/// Whether `e` is the error reporting column `name` absent, on the path the
/// row's driver flag selects.
pub open spec fn missing_column_err(e: DbErr, name: Seq<char>, driver_reported: bool) -> bool {
    if driver_reported {
        &&& e matches DbErr::Query(RuntimeErr::SqlxError(d))
        &&& d.column_not_found
        &&& d.message@ == driver_not_found_text(name)
    } else {
        e matches DbErr::Type(m) && m@ == null_value_text(name)
    }
}

/// Whether `e` is the conversion-failure error for column `name`.
pub open spec fn mismatch_err(e: DbErr, name: Seq<char>) -> bool {
    e matches DbErr::Type(m) && m@ == mismatch_text(name)
}

/// The outcome of one typed lookup of `col` under `pre` on `row`: the stored
/// value when present with the expected shape, the conversion failure when
/// present without it, and the missing-column report when absent.
pub open spec fn try_get_post(
    row: Row,
    pre: Seq<char>,
    col: Seq<char>,
    t: ColType,
    r: Result<Value, DbErr>,
) -> bool {
    let name = full_column_name(pre, col);
    match lookup(row.columns@, name) {
        Some(v) => if value_has_type(v, t) {
            r == Ok::<Value, DbErr>(v)
        } else {
            r matches Err(e) && mismatch_err(e, name)
        },
        None => r matches Err(e) && missing_column_err(e, name, row.driver_reported),
    }
}

/// The synthesized null-value message carries the classification marker, so
/// the classifier recognizes it as column-not-found.
pub proof fn lemma_null_text_is_marked(name: Seq<char>)
    ensures
        null_marker().is_prefix_of(null_value_text(name)),
{
    reveal_strlit("A null value was encountered");
    reveal_strlit("A null value was encountered while decoding ");
    assert(null_marker() =~= null_value_text(name).subrange(0, null_marker().len() as int));
}

/// The conversion-failure message does not carry the marker: the classifier
/// never mistakes a present-but-mismatched column for an absent one.
pub proof fn lemma_mismatch_not_marked(name: Seq<char>)
    ensures
        !null_marker().is_prefix_of(mismatch_text(name)),
{
    reveal_strlit("A null value was encountered");
    reveal_strlit("error occurred while decoding column ");
    if null_marker().is_prefix_of(mismatch_text(name)) {
        assert(null_marker()[0] == mismatch_text(name).subrange(
            0,
            null_marker().len() as int,
        )[0]);
        assert(false);
    }
}

/// Both reporting paths of an absent column — the driver's own report and
/// the synthesized marker message — classify as column-not-found: the
/// fallback logic consults one predicate, whichever integration produced the
/// evidence.
pub proof fn lemma_missing_column_classifies(e: DbErr, name: Seq<char>, driver_reported: bool)
    requires
        missing_column_err(e, name, driver_reported),
    ensures
        is_column_not_found(e),
{
    lemma_null_text_is_marked(name);
}

impl Row {
    /// Looks up column `col` under prefix `pre` in this row and converts the
    /// stored value to `t`. An absent column is reported as the driver's own
    /// column-not-found error when a driver integration is active, else as a
    /// type error beginning with the fixed marker; a present column of the
    /// wrong shape is a type error without the marker.
    pub fn try_get(&self, pre: &str, col: &str, t: ColType) -> (r: Result<Value, DbErr>)
        ensures
            try_get_post(*self, pre@, col@, t, r),
    {
        let name = pre.to_owned().concat(col);
        let n = self.columns.len();
        let mut i: usize = 0;
        proof {
            assert(self.columns@.skip(0) =~= self.columns@);
        }
        while i < n
            invariant
                i <= n,
                n == self.columns@.len(),
                name@ == full_column_name(pre@, col@),
                lookup(self.columns@, name@) == lookup(
                    self.columns@.skip(i as int),
                    name@,
                ),
            decreases n - i,
        {
            proof {
                assert(self.columns@.skip(i as int)[0] == self.columns@[i as int]);
                assert(self.columns@.skip(i as int).drop_first() =~= self.columns@.skip(
                    i as int + 1,
                ));
            }
            if str_eq(self.columns[i].0.as_str(), name.as_str()) {
                let v = &self.columns[i].1;
                let shape_ok = match (v, t) {
                    (Value::Int(_), ColType::Int) => true,
                    (Value::Text(_), ColType::Text) => true,
                    _ => false,
                };
                if shape_ok {
                    return Ok(v.clone());
                } else {
                    let mut m = "error occurred while decoding column ".to_owned();
                    m.append(name.as_str());
                    return Err(DbErr::Type(m));
                }
            }
            i += 1;
        }
        proof {
            assert(self.columns@.skip(n as int) =~= Seq::<(String, Value)>::empty());
        }
        if self.driver_reported {
            let mut m = "no column found for name: ".to_owned();
            m.append(name.as_str());
            Err(
                DbErr::Query(
                    RuntimeErr::SqlxError(
                        DriverErr { column_not_found: true, message: m },
                    ),
                ),
            )
        } else {
            let mut m = "A null value was encountered while decoding ".to_owned();
            m.append(name.as_str());
            Err(DbErr::Type(m))
        }
    }
}

/// The default value of a column type.
pub fn default_value(t: ColType) -> (r: Value)
    ensures
        is_default_value(r, t),
{
    match t {
        ColType::Int => Value::Int(0i64),
        ColType::Text => Value::Text(String::new()),
    }
}

/// One entry of a record's field registry: the generated lookup plan for the
/// field, and the type its column value must convert into.
#[derive(Debug)]
pub struct FieldDescriptor {
    /// The generated plan: column name and default flag.
    pub plan: RecordFieldSpec,
    /// The type the field's value must have.
    pub ty: ColType,
}

/// Whether one field resolves against the row: its column is present with
/// the expected shape, or absent while the field is marked `default`.
pub open spec fn field_resolves(row: Row, pre: Seq<char>, d: FieldDescriptor) -> bool {
    let name = full_column_name(pre, d.plan.column_name@);
    match lookup(row.columns@, name) {
        Some(v) => value_has_type(v, d.ty),
        None => d.plan.has_default,
    }
}

/// The value a resolving field contributes to the record: the stored value
/// when the column is present, the type's default when the fallback fired.
pub open spec fn resolved_value(row: Row, pre: Seq<char>, d: FieldDescriptor, v: Value) -> bool {
    let name = full_column_name(pre, d.plan.column_name@);
    match lookup(row.columns@, name) {
        Some(w) => v == w,
        None => is_default_value(v, d.ty),
    }
}

/// The error a non-resolving field produces: the conversion failure for a
/// mismatched column, or the missing-column report when the field has no
/// default to fall back to.
pub open spec fn field_error(row: Row, pre: Seq<char>, d: FieldDescriptor, e: DbErr) -> bool {
    let name = full_column_name(pre, d.plan.column_name@);
    match lookup(row.columns@, name) {
        Some(v) => !value_has_type(v, d.ty) && mismatch_err(e, name),
        None => !d.plan.has_default && missing_column_err(e, name, row.driver_reported),
    }
}

/// The resolution of one field against a row: the typed lookup, with the
/// single sanctioned fallback — an absent column on a field marked
/// `default` yields the type's default value; every other failure, a
/// conversion failure on a present column included, propagates unchanged.
pub open spec fn fetch_field_post(
    row: Row,
    pre: Seq<char>,
    d: FieldDescriptor,
    r: Result<Value, DbErr>,
) -> bool {
    if field_resolves(row, pre, d) {
        r matches Ok(v) && resolved_value(row, pre, d, v)
    } else {
        r matches Err(e) && field_error(row, pre, d, e)
    }
}

/// Runs one field's conversion step: look the column up, convert, and fall
/// back to the default value exactly when the field is marked `default` and
/// the failure classifies as column-not-found.
pub fn fetch_field(row: &Row, pre: &str, d: &FieldDescriptor) -> (r: Result<Value, DbErr>)
    ensures
        fetch_field_post(*row, pre@, *d, r),
{
    proof {
        let name = full_column_name(pre@, d.plan.column_name@);
        lemma_null_text_is_marked(name);
        lemma_mismatch_not_marked(name);
    }
    match row.try_get(pre, d.plan.column_name.as_str(), d.ty) {
        Ok(v) => Ok(v),
        Err(e) => {
            if d.plan.has_default && e.is_column_not_found_error() {
                Ok(default_value(d.ty))
            } else {
                Err(e)
            }
        },
    }
}

/// The assembler's whole outcome: either every field of `descs` resolved, in
/// declaration order, or the first non-resolving field's error and no record
/// at all — a partially filled record is never observable.
pub open spec fn assemble_post(
    row: Row,
    pre: Seq<char>,
    descs: Seq<FieldDescriptor>,
    r: Result<Vec<Value>, DbErr>,
) -> bool {
    match r {
        Ok(vals) => vals@.len() == descs.len() && (forall|i: int|
            0 <= i < descs.len() ==> field_resolves(row, pre, #[trigger] descs[i])
                && resolved_value(row, pre, descs[i], vals@[i])),
        Err(e) => exists|i: int|
            0 <= i < descs.len() && field_error(row, pre, #[trigger] descs[i], e) && !field_resolves(
                row,
                pre,
                descs[i],
            ) && (forall|j: int| 0 <= j < i ==> field_resolves(row, pre, #[trigger] descs[j])),
    }
}

/// Builds the record from the row: runs every field's conversion step in
/// declaration order; if all succeed, the fully populated value list comes
/// back, otherwise the first error — construction fails atomically.
pub fn from_query_result(descs: &Vec<FieldDescriptor>, row: &Row, pre: &str) -> (r: Result<
    Vec<Value>,
    DbErr,
>)
    ensures
        assemble_post(*row, pre@, descs@, r),
{
    let mut vals: Vec<Value> = Vec::new();
    let n = descs.len();
    let mut i: usize = 0;
    while i < n
        invariant
            i <= n,
            n == descs@.len(),
            vals@.len() == i,
            forall|j: int|
                0 <= j < i ==> field_resolves(*row, pre@, #[trigger] descs@[j]) && resolved_value(
                    *row,
                    pre@,
                    descs@[j],
                    vals@[j],
                ),
        decreases n - i,
    {
        match fetch_field(row, pre, &descs[i]) {
            Ok(v) => {
                vals.push(v);
            },
            Err(e) => {
                proof {
                    let ii = i as int;
                    assert(field_error(*row, pre@, descs@[ii], e));
                    assert(exists|k: int|
                        0 <= k < descs@.len() && field_error(*row, pre@, #[trigger] descs@[k], e)
                            && !field_resolves(*row, pre@, descs@[k]) && (forall|j: int|
                            0 <= j < k ==> field_resolves(*row, pre@, #[trigger] descs@[j])));
                }
                return Err(e);
            },
        }
        i += 1;
    }
    Ok(vals)
}

/// The sanctioned fallback, stated on its own: a field marked `default`
/// whose column is absent resolves to the field type's default value, never
/// to an error.
pub proof fn lemma_default_on_missing(
    row: Row,
    pre: Seq<char>,
    d: FieldDescriptor,
    r: Result<Value, DbErr>,
)
    requires
        fetch_field_post(row, pre, d, r),
        d.plan.has_default,
        lookup(row.columns@, full_column_name(pre, d.plan.column_name@)) is None,
    ensures
        r matches Ok(v) && is_default_value(v, d.ty),
{
}

/// The fallback's limit, stated on its own: when a default-marked field's
/// column is present but fails conversion — a failure the classification
/// does not call column-not-found — the error propagates; the default is
/// never silently substituted.
pub proof fn lemma_mismatch_propagates(
    row: Row,
    pre: Seq<char>,
    d: FieldDescriptor,
    r: Result<Value, DbErr>,
)
    requires
        fetch_field_post(row, pre, d, r),
        d.plan.has_default,
        ({
            &&& lookup(row.columns@, full_column_name(pre, d.plan.column_name@)) matches Some(v)
            &&& !value_has_type(v, d.ty)
        }),
    ensures
        r matches Err(e) && mismatch_err(e, full_column_name(pre, d.plan.column_name@))
            && !is_column_not_found(e),
{
    lemma_mismatch_not_marked(full_column_name(pre, d.plan.column_name@));
}

} // verus!
