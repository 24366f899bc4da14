//! What the storage engine's errors mean to the service.

use vstd::prelude::*;
use crate::protocol::{optional_text, Event, EventView};
use crate::status::Failure;
use crate::text::same_text;

verus! {

/// `tokio_postgres::Error`, the error of every call to the engine. Nothing
/// of its contents is visible here.
#[verifier::external_type_specification]
#[verifier::external_body]
pub struct ExStorageError(tokio_postgres::Error);

/// `tokio_postgres::error::SqlState`, a SQLSTATE code. Nothing of its
/// contents is visible here.
#[verifier::external_type_specification]
#[verifier::external_body]
pub struct ExSqlState(tokio_postgres::error::SqlState);

/// The SQLSTATE code by which the engine refuses a second row with the key
/// of an existing one.
pub const UNIQUE_VIOLATION: &'static str = "23505";

/// `tokio_postgres::Error::code`: the SQLSTATE of the error, where the
/// database itself reported it. Nothing is claimed of the result.
#[verifier::external_body]
fn state_of(error: &tokio_postgres::Error) -> Option<tokio_postgres::error::SqlState> {
    error.code().cloned()
}

/// `tokio_postgres::error::SqlState::code`: the five characters of the
/// code. Nothing is claimed of the result.
#[verifier::external_body]
fn code_of(state: &tokio_postgres::error::SqlState) -> String {
    state.code().to_string()
}

/// What a failed insert into the catalog means: the index exists already if
/// the engine reports a unique violation, and the engine is at fault
/// otherwise.
pub open spec fn insert_failure(code: Option<Seq<char>>) -> Failure {
    if code == Some(UNIQUE_VIOLATION@) {
        Failure::IndexExists
    } else {
        Failure::Storage
    }
}

/// Tells why an insert into the catalog failed, from the SQLSTATE code that
/// the engine gave, if any.
pub fn classify_insert_failure(code: &Option<String>) -> (f: Failure)
    ensures
        f == insert_failure(optional_text(*code)),
{
    match code {
        Some(c) => {
            if same_text(c.as_str(), UNIQUE_VIOLATION) {
                Failure::IndexExists
            } else {
                Failure::Storage
            }
        },
        None => Failure::Storage,
    }
}

/// Turns an error of the storage engine into the failure that the caller is
/// told of. The cause is for the server's log and is never passed on.
pub fn internal_error<E>(error: E) -> (f: Failure)
    ensures
        f == Failure::Storage,
{
    Failure::Storage
}

/// Keeps a result of the storage engine, and hides the cause of an error
/// from the caller.
pub fn err_status<T, E>(result: Result<T, E>) -> (r: Result<T, Failure>)
    ensures
        match result {
            Ok(value) => r == Ok::<T, Failure>(value),
            Err(_) => r == Err::<T, Failure>(Failure::Storage),
        },
{
    match result {
        Ok(value) => Ok(value),
        Err(error) => Err(internal_error(error)),
    }
}

/// The event that reports a failure with the given SQLSTATE, or with none.
pub fn failure_with_state(state: Option<&tokio_postgres::error::SqlState>) -> (e: Event)
    ensures
        e@ is Failed,
        state is None ==> e@ == EventView::Failed(None),
        state is Some ==> e@ != EventView::Failed(None),
{
    match state {
        Some(s) => Event::Failed(Some(code_of(s))),
        None => Event::Failed(None),
    }
}

/// The event that reports an error of the storage engine to a machine.
pub fn failure_event(error: &tokio_postgres::Error) -> (e: Event)
    ensures
        e@ is Failed,
{
    let state = state_of(error);
    failure_with_state(state.as_ref())
}

} // verus!
