//! Mapping of loosely-typed database rows into strongly-typed records.
//!
//! Two components share one contract. The field-mapping generator turns a
//! record type's shape (named fields plus per-field annotations) into a plan
//! of column lookups with an optional default-fallback branch per field. The
//! row accessor performs one lookup with typed conversion and folds every
//! failure into the [`error::DbErr`] taxonomy, whose classification predicate
//! `is_column_not_found_error` decides whether the fallback may fire.

pub mod error;
pub mod generator;
pub mod row;
pub mod text;
