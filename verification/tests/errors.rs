use sea_orm::error::{
    conn_err, exec_err, json_err, query_err, type_err, ColumnFromStrErr, DbErr, DriverErr,
    RuntimeErr,
};

fn s(x: &str) -> String {
    x.to_string()
}

#[test]
fn classifier_accepts_marker_exactly() {
    assert!(DbErr::Type(s("A null value was encountered")).is_column_not_found_error());
}

#[test]
fn classifier_accepts_marker_with_suffix() {
    let e = DbErr::Type(s("A null value was encountered while decoding id"));
    assert!(e.is_column_not_found_error());
}

#[test]
fn classifier_rejects_unmarked_type_errors() {
    assert!(!DbErr::Type(s("a null value was encountered")).is_column_not_found_error());
    assert!(!DbErr::Type(s("error occurred while decoding column id")).is_column_not_found_error());
    assert!(!DbErr::Type(s("")).is_column_not_found_error());
    assert!(!DbErr::Type(s("x A null value was encountered")).is_column_not_found_error());
}

#[test]
fn classifier_accepts_driver_column_not_found() {
    let e = DbErr::Query(RuntimeErr::SqlxError(DriverErr {
        column_not_found: true,
        message: s("no column found for name: id"),
    }));
    assert!(e.is_column_not_found_error());
}

#[test]
fn classifier_rejects_other_driver_errors() {
    let e = DbErr::Query(RuntimeErr::SqlxError(DriverErr {
        column_not_found: false,
        message: s("no column found for name: id"),
    }));
    assert!(!e.is_column_not_found_error());
}

#[test]
fn classifier_rejects_conn_and_exec_wrappers() {
    let conn = DbErr::Conn(RuntimeErr::SqlxError(DriverErr {
        column_not_found: true,
        message: s("no column found for name: id"),
    }));
    assert!(!conn.is_column_not_found_error());
    let exec = DbErr::Exec(RuntimeErr::Internal(s("A null value was encountered")));
    assert!(!exec.is_column_not_found_error());
    assert!(!DbErr::ConnectionAcquire.is_column_not_found_error());
    assert!(!DbErr::RecordNotFound(s("A null value was encountered")).is_column_not_found_error());
}

#[test]
fn equality_goes_by_rendered_text() {
    let via_internal = DbErr::Query(RuntimeErr::Internal(s("boom")));
    let via_driver = DbErr::Query(RuntimeErr::SqlxError(DriverErr {
        column_not_found: false,
        message: s("boom"),
    }));
    assert_eq!(via_internal.text(), "Query Error: boom");
    assert_eq!(via_driver.text(), "Query Error: boom");
    assert!(via_internal == via_driver);
}

#[test]
fn equality_distinguishes_different_text() {
    assert!(DbErr::Custom(s("x")) != DbErr::Type(s("x")));
    assert!(DbErr::Query(RuntimeErr::Internal(s("a"))) != DbErr::Query(RuntimeErr::Internal(s("b"))));
    assert!(DbErr::RecordNotInserted != DbErr::RecordNotUpdated);
}

#[test]
fn rendered_texts_are_exact() {
    assert_eq!(
        DbErr::ConnectionAcquire.text(),
        "Failed to acquire connection from pool"
    );
    assert_eq!(
        DbErr::TryIntoErr { from: s("u64"), into: s("i32"), source: s("out of range") }.text(),
        "Error converting `u64` into `i32`: out of range"
    );
    assert_eq!(
        DbErr::Conn(RuntimeErr::Internal(s("refused"))).text(),
        "Connection Error: refused"
    );
    assert_eq!(
        DbErr::Exec(RuntimeErr::Internal(s("bad"))).text(),
        "Execution Error: bad"
    );
    assert_eq!(
        DbErr::ConvertFromU64(s("DateTime")).text(),
        "Type 'DateTime' cannot be converted from u64"
    );
    assert_eq!(DbErr::UnpackInsertId.text(), "Failed to unpack last_insert_id");
    assert_eq!(
        DbErr::UpdateGetPrimaryKey.text(),
        "Failed to get primary key from model"
    );
    assert_eq!(
        DbErr::RecordNotFound(s("cake")).text(),
        "RecordNotFound Error: cake"
    );
    assert_eq!(DbErr::AttrNotSet(s("name")).text(), "Attribute name is NotSet");
    assert_eq!(DbErr::Custom(s("oops")).text(), "Custom Error: oops");
    assert_eq!(DbErr::Type(s("bad")).text(), "Type Error: bad");
    assert_eq!(DbErr::Json(s("bad")).text(), "Json Error: bad");
    assert_eq!(DbErr::Migration(s("bad")).text(), "Migration Error: bad");
    assert_eq!(
        DbErr::RecordNotInserted.text(),
        "None of the records are inserted"
    );
    assert_eq!(
        DbErr::RecordNotUpdated.text(),
        "None of the records are updated"
    );
}

#[test]
fn helper_constructors_wrap_and_render() {
    assert_eq!(conn_err("down").text(), "Connection Error: down");
    assert_eq!(exec_err("bad").text(), "Execution Error: bad");
    assert_eq!(query_err("bad").text(), "Query Error: bad");
    assert_eq!(type_err("bad").text(), "Type Error: bad");
    assert_eq!(json_err("bad").text(), "Json Error: bad");
    assert!(matches!(conn_err("down"), DbErr::Conn(RuntimeErr::Internal(m)) if m == "down"));
    assert!(matches!(query_err("bad"), DbErr::Query(RuntimeErr::Internal(m)) if m == "bad"));
}

#[test]
fn column_from_str_err_renders() {
    let e = ColumnFromStrErr(s("usr_id"));
    assert_eq!(e.text(), "Failed to match \"usr_id\" as Column");
}
