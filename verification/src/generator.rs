//! The field-mapping generator.
//!
//! Given a record type's shape — its named fields and the structured
//! annotations on each — the generator derives one [`RecordFieldSpec`] per
//! field: the column name to look up (the field's own identifier, stripped of
//! any raw-identifier escape, unless a `column_name = "<string>"` annotation
//! overrides it) and whether the field falls back to its default value when
//! the column is absent (`default` annotation). Anything that is not a struct
//! with named fields is rejected, as is a `column_name` value that is not a
//! string literal. Unrecognized annotations are ignored.

use vstd::prelude::*;
use vstd::string::StrSliceExecFns;
use crate::text::str_eq;

verus! {

/// A literal value carried by a name-value annotation.
#[derive(Debug)]
pub enum Lit {
    /// A string literal.
    Str(String),
    /// An integer literal.
    Int(u64),
    /// A boolean literal.
    Bool(bool),
    /// Any other literal kind, carried as its textual form.
    Other(String),
}

impl Clone for Lit {
    /// An exact copy of the literal.
    fn clone(&self) -> (r: Self)
        ensures
            r == *self,
    {
        match self {
            Lit::Str(s) => Lit::Str(s.clone()),
            Lit::Int(i) => Lit::Int(*i),
            Lit::Bool(b) => Lit::Bool(*b),
            Lit::Other(s) => Lit::Other(s.clone()),
        }
    }
}

/// One structured annotation on a field, as the attribute-parsing helper
/// yields it.
#[derive(Debug)]
pub enum FieldAttr {
    /// A path-only annotation, e.g. `default`.
    Path(String),
    /// A name-value annotation, e.g. `column_name = "usr_id"`.
    NameValue(String, Lit),
    /// Any other annotation shape; ignored for forward compatibility.
    Other(String),
}

/// One named field of the record type, with its annotations in written order.
#[derive(Debug)]
pub struct FieldDecl {
    /// The field's identifier as written, possibly raw-escaped (`r#type`).
    pub name: String,
    /// The structured annotations on the field.
    pub attrs: Vec<FieldAttr>,
}

/// The shape of the type the mapping is derived for. Only a struct with
/// named fields is accepted.
#[derive(Debug)]
pub enum RecordShape {
    /// A struct with named fields.
    NamedStruct(Vec<FieldDecl>),
    /// A tuple struct.
    TupleStruct,
    /// A unit struct.
    UnitStruct,
    /// An enum.
    Enum,
    /// A union.
    Union,
}

/// The generator's output for one field: which column to look up and whether
/// an absent column falls back to the field type's default value.
#[derive(Debug)]
pub struct RecordFieldSpec {
    /// The field's identifier, as the record declares it.
    pub field_name: String,
    /// The column name used for the lookup.
    pub column_name: String,
    /// True when the `default` annotation is present on the field.
    pub has_default: bool,
}

/// A generation-time error.
#[derive(Debug)]
pub enum GenError {
    /// The derive target is not a struct with named fields.
    NotAStruct,
    /// A `column_name` annotation whose value is not a string literal;
    /// carries the offending literal.
    InvalidColumnName(Lit),
}

/// A raw-escaped identifier (`r#type`) stripped to its plain text; any other
/// identifier is kept as it is.
pub open spec fn unraw(s: Seq<char>) -> Seq<char> {
    if s.len() >= 2 && s[0] == 'r' && s[1] == '#' {
        s.subrange(2, s.len() as int)
    } else {
        s
    }
}

/// Whether an annotation is a `column_name` name-value annotation.
pub open spec fn is_column_name_attr(a: FieldAttr) -> bool {
    a matches FieldAttr::NameValue(n, _) && n@ == "column_name"@
}

/// One annotation applied to the running (column name, has-default) state of
/// a field. `default` sets the flag; `column_name` with a string literal
/// replaces the column name; `column_name` with any other literal is the
/// generation error; everything else is ignored.
pub open spec fn apply_attr(col: Seq<char>, dflt: bool, a: FieldAttr) -> Result<
    (Seq<char>, bool),
    Lit,
> {
    match a {
        FieldAttr::Path(p) => Ok((col, dflt || p@ == "default"@)),
        FieldAttr::NameValue(n, l) => if n@ == "column_name"@ {
            match l {
                Lit::Str(s) => Ok((s@, dflt)),
                _ => Err(l),
            }
        } else {
            Ok((col, dflt))
        },
        FieldAttr::Other(_) => Ok((col, dflt)),
    }
}

/// The annotations of a field folded in written order over the running
/// state; the first invalid `column_name` literal wins as the error.
pub open spec fn apply_attrs(col: Seq<char>, dflt: bool, attrs: Seq<FieldAttr>) -> Result<
    (Seq<char>, bool),
    Lit,
>
    decreases attrs.len(),
{
    if attrs.len() == 0 {
        Ok((col, dflt))
    } else {
        match apply_attr(col, dflt, attrs[0]) {
            Ok((c, d)) => apply_attrs(c, d, attrs.drop_first()),
            Err(l) => Err(l),
        }
    }
}

/// What the generator derives for one field declaration: the lookup column
/// name and the default flag, starting from the unrawed identifier and no
/// default.
pub open spec fn resolve_field(f: FieldDecl) -> Result<(Seq<char>, bool), Lit> {
    apply_attrs(unraw(f.name@), false, f.attrs@)
}

/// Strips the raw-identifier escape off an identifier, so that a field
/// literally named `type` yields lookup name `type`, not an escaped form.
pub fn unraw_ident(s: &str) -> (r: String)
    ensures
        r@ == unraw(s@),
{
    let n = s.unicode_len();
    if n >= 2 && s.get_char(0) == 'r' && s.get_char(1) == '#' {
        s.substring_char(2, n).to_owned()
    } else {
        s.to_owned()
    }
}

/// Derives the (column name, default flag) pair for one field, or the
/// offending literal of an invalid `column_name` annotation.
fn resolve_field_exec(f: &FieldDecl) -> (r: Result<RecordFieldSpec, GenError>)
    ensures
        (match r {
            Ok(s) => s.field_name@ == f.name@ && resolve_field(*f) == Ok::<_, Lit>(
                (s.column_name@, s.has_default),
            ),
            Err(e) => e matches GenError::InvalidColumnName(l) && resolve_field(*f) == Err::<
                (Seq<char>, bool),
                _,
            >(l),
        }),
{
    let mut name_str = unraw_ident(f.name.as_str());
    let mut has_default = false;
    let n = f.attrs.len();
    let mut i: usize = 0;
    proof {
        assert(f.attrs@.skip(0) =~= f.attrs@);
    }
    while i < n
        invariant
            i <= n,
            n == f.attrs@.len(),
            resolve_field(*f) == apply_attrs(name_str@, has_default, f.attrs@.skip(i as int)),
        decreases n - i,
    {
        proof {
            assert(f.attrs@.skip(i as int)[0] == f.attrs@[i as int]);
            assert(f.attrs@.skip(i as int).drop_first() =~= f.attrs@.skip(i as int + 1));
        }
        match &f.attrs[i] {
            FieldAttr::Path(p) => {
                if str_eq(p.as_str(), "default") {
                    has_default = true;
                }
            },
            FieldAttr::NameValue(nm, l) => {
                if str_eq(nm.as_str(), "column_name") {
                    match l {
                        Lit::Str(s) => {
                            name_str = s.clone();
                        },
                        _ => {
                            return Err(GenError::InvalidColumnName(l.clone()));
                        },
                    }
                }
            },
            FieldAttr::Other(_) => {},
        }
        i += 1;
    }
    proof {
        assert(f.attrs@.skip(n as int) =~= Seq::<FieldAttr>::empty());
    }
    Ok(
        RecordFieldSpec {
            field_name: f.name.clone(),
            column_name: name_str,
            has_default,
        },
    )
}

/// Whether `specs` is the generated plan for the named fields `fields`: one
/// spec per field, in declaration order, each resolved by its annotations.
pub open spec fn generated_plan_ok(fields: Seq<FieldDecl>, specs: Seq<RecordFieldSpec>) -> bool {
    &&& specs.len() == fields.len()
    &&& forall|i: int|
        0 <= i < fields.len() ==> (#[trigger] specs[i]).field_name@ == fields[i].name@
            && resolve_field(fields[i]) == Ok::<_, Lit>((specs[i].column_name@, specs[i].has_default))
}

/// Whether `l` is the offending literal of the first field, in declaration
/// order, whose annotations fail to resolve.
pub open spec fn first_field_error(fields: Seq<FieldDecl>, l: Lit) -> bool {
    exists|i: int|
        0 <= i < fields.len() && resolve_field(#[trigger] fields[i]) == Err::<
            (Seq<char>, bool),
            Lit,
        >(l) && (forall|j: int| 0 <= j < i ==> resolve_field(fields[j]) is Ok)
}

/// The full contract of the generator: a named-field struct yields its plan,
/// any other shape is rejected as such, and an unresolvable field yields the
/// first offending `column_name` literal.
pub open spec fn expand_post(shape: RecordShape, r: Result<Vec<RecordFieldSpec>, GenError>) -> bool {
    match r {
        Ok(specs) => shape matches RecordShape::NamedStruct(fields) && generated_plan_ok(
            fields@,
            specs@,
        ),
        Err(GenError::NotAStruct) => !(shape is NamedStruct),
        Err(GenError::InvalidColumnName(l)) => shape matches RecordShape::NamedStruct(fields)
            && first_field_error(fields@, l),
    }
}

/// Derives the field-mapping plan for a record type: one [`RecordFieldSpec`]
/// per named field, in the record's own declaration order. A shape other
/// than a struct with named fields is rejected whole; an invalid
/// `column_name` literal on any field rejects the record with the first such
/// error, in field order.
pub fn expand_derive_from_query_result(shape: &RecordShape) -> (r: Result<
    Vec<RecordFieldSpec>,
    GenError,
>)
    ensures
        expand_post(*shape, r),
{
    match shape {
        RecordShape::NamedStruct(fields) => {
            let mut specs: Vec<RecordFieldSpec> = Vec::new();
            let n = fields.len();
            let mut i: usize = 0;
            while i < n
                invariant
                    *shape == RecordShape::NamedStruct(*fields),
                    i <= n,
                    n == fields@.len(),
                    specs@.len() == i,
                    forall|j: int|
                        0 <= j < i ==> (#[trigger] specs@[j]).field_name@ == fields@[j].name@
                            && resolve_field(fields@[j]) == Ok::<_, Lit>(
                            (specs@[j].column_name@, specs@[j].has_default),
                        ),
                decreases n - i,
            {
                match resolve_field_exec(&fields[i]) {
                    Ok(s) => {
                        specs.push(s);
                    },
                    Err(e) => {
                        proof {
                            let ghost ii = i as int;
                            let ghost el = e->InvalidColumnName_0;
                            assert(resolve_field(fields@[ii]) == Err::<(Seq<char>, bool), Lit>(el));
                            assert forall|j: int| 0 <= j < ii implies resolve_field(
                                #[trigger] fields@[j],
                            ) is Ok by {
                                assert(specs@[j].field_name@ == fields@[j].name@);
                            };
                            assert(first_field_error(fields@, el));
                        }
                        return Err(e);
                    },
                }
                i += 1;
            }
            Ok(specs)
        },
        _ => Err(GenError::NotAStruct),
    }
}

/// Without any `column_name` annotation among `attrs`, a successful fold
/// keeps the running column name unchanged.
pub proof fn lemma_no_column_name_keeps(
    col: Seq<char>,
    dflt: bool,
    attrs: Seq<FieldAttr>,
    c: Seq<char>,
    d: bool,
)
    requires
        forall|j: int| 0 <= j < attrs.len() ==> !is_column_name_attr(#[trigger] attrs[j]),
        apply_attrs(col, dflt, attrs) == Ok::<_, Lit>((c, d)),
    ensures
        c == col,
    decreases attrs.len(),
{
    if attrs.len() > 0 {
        match apply_attr(col, dflt, attrs[0]) {
            Ok((c2, d2)) => {
                assert(c2 == col);
                assert(forall|j: int|
                    0 <= j < attrs.drop_first().len() ==> !is_column_name_attr(
                        #[trigger] attrs.drop_first()[j],
                    ));
                lemma_no_column_name_keeps(col, d2, attrs.drop_first(), c, d);
            },
            Err(_) => {
                assert(false);
            },
        }
    }
}

/// A valid `column_name` annotation is used verbatim as the lookup name: if
/// the fold succeeds and position `i` holds `column_name = "<s>"` with no
/// later `column_name` annotation, the resolved column name is exactly `s`,
/// whatever identifier or earlier annotations came before.
pub proof fn lemma_column_name_verbatim(
    col: Seq<char>,
    dflt: bool,
    attrs: Seq<FieldAttr>,
    i: int,
    s: Seq<char>,
    c: Seq<char>,
    d: bool,
)
    requires
        0 <= i < attrs.len(),
        ({
            &&& attrs[i] matches FieldAttr::NameValue(n, l)
            &&& n@ == "column_name"@
            &&& l matches Lit::Str(v)
            &&& v@ == s
        }),
        forall|j: int| i < j < attrs.len() ==> !is_column_name_attr(#[trigger] attrs[j]),
        apply_attrs(col, dflt, attrs) == Ok::<_, Lit>((c, d)),
    ensures
        c == s,
    decreases attrs.len(),
{
    match apply_attr(col, dflt, attrs[0]) {
        Ok((c2, d2)) => {
            if i == 0 {
                assert(c2 == s);
                assert(forall|j: int|
                    0 <= j < attrs.drop_first().len() ==> !is_column_name_attr(
                        #[trigger] attrs.drop_first()[j],
                    ));
                lemma_no_column_name_keeps(c2, d2, attrs.drop_first(), c, d);
            } else {
                assert(forall|j: int|
                    i - 1 < j < attrs.drop_first().len() ==> !is_column_name_attr(
                        #[trigger] attrs.drop_first()[j],
                    ));
                lemma_column_name_verbatim(c2, d2, attrs.drop_first(), i - 1, s, c, d);
            }
        },
        Err(_) => {
            assert(false);
        },
    }
}

} // verus!
