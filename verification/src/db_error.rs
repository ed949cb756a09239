//! The database errors of `sqlx` as the image endpoints read them: the
//! Postgres detail and constraint name of a failed statement.

use vstd::prelude::*;
use crate::text::opt_str_view;

verus! {

#[verifier::external_type_specification]
#[verifier::external_body]
pub struct ExSqlxError(sqlx::Error);

#[verifier::external_type_specification]
#[verifier::external_body]
pub struct ExPgDatabaseError(sqlx::postgres::PgDatabaseError);

/// The Postgres error that a `sqlx` error holds, if it holds one.
pub uninterp spec fn pg_error_of(err: sqlx::Error) -> Option<sqlx::postgres::PgDatabaseError>;

/// The detail field of a Postgres error.
pub uninterp spec fn pg_detail_of(e: sqlx::postgres::PgDatabaseError) -> Option<Seq<char>>;

/// The constraint field of a Postgres error.
pub uninterp spec fn pg_constraint_of(e: sqlx::postgres::PgDatabaseError) -> Option<Seq<char>>;

/// Trusted: tells the `Database` variant of `sqlx::Error` apart from the
/// others and calls `DatabaseError::try_downcast_ref::<PgDatabaseError>` on
/// it. The contract claims that the result is a function of the error
/// alone (named `pg_error_of`): the downcast reads only the type of the
/// boxed database error.
#[verifier::external_body]
pub(crate) fn postgres_error(err: &sqlx::Error) -> (r: Option<&sqlx::postgres::PgDatabaseError>)
    ensures
        match r {
            Some(e) => pg_error_of(*err) == Some(*e),
            None => pg_error_of(*err) is None,
        },
{
    match err {
        sqlx::Error::Database(e) => e.try_downcast_ref::<sqlx::postgres::PgDatabaseError>(),
        _ => None,
    }
}

/// Trusted: calls `PgDatabaseError::detail`. The contract claims that the
/// result is a function of the error alone (named `pg_detail_of`): the
/// method reads the detail field stored in the error.
#[verifier::external_body]
pub(crate) fn postgres_detail(e: &sqlx::postgres::PgDatabaseError) -> (r: Option<&str>)
    ensures
        opt_str_view(r) == pg_detail_of(*e),
{
    e.detail()
}

/// Trusted: calls `PgDatabaseError::constraint`. The contract claims that
/// the result is a function of the error alone (named `pg_constraint_of`):
/// the method reads the constraint field stored in the error.
#[verifier::external_body]
pub(crate) fn postgres_constraint(e: &sqlx::postgres::PgDatabaseError) -> (r: Option<&str>)
    ensures
        opt_str_view(r) == pg_constraint_of(*e),
{
    e.constraint()
}

} // verus!
