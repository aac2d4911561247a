//! The ways in which an operation on the state can fail.

use crate::text::{decimal, decimal_text, join};
use vstd::prelude::*;

verus! {

/// Why an operation on the durable state was refused or could not be done.
#[derive(Debug, PartialEq, Eq)]
pub enum StateError {
    /// The database reported a failure; the text is its own.
    Sqlite(String),
    /// A stored record could not be written or read as JSON.
    Serialization(String),
    /// The request does not fit the current state.
    Conflict(String),
    /// A generation was expected that is not the current one.
    StaleGeneration { expected: u64, actual: u64 },
    /// The database was written by a newer version.
    UnsupportedSchema { found: u32, supported: u32 },
    /// Audit metadata holds what must not be recorded.
    UnsafeAuditMetadata(String),
    /// A failure that was asked for.
    InjectedFailure,
    /// A device cannot be created as trusted.
    ActivationGated,
    /// There is no such record.
    NotFound(String),
    /// A provider mutation is not authorized.
    MutationAuthorizationDenied(&'static str),
}

/// What a `StateError` says, with its texts as sequences of characters.
pub enum StateErrorView {
    Sqlite(Seq<char>),
    Serialization(Seq<char>),
    Conflict(Seq<char>),
    StaleGeneration { expected: u64, actual: u64 },
    UnsupportedSchema { found: u32, supported: u32 },
    UnsafeAuditMetadata(Seq<char>),
    InjectedFailure,
    ActivationGated,
    NotFound(Seq<char>),
    MutationAuthorizationDenied(Seq<char>),
}

impl View for StateError {
    type V = StateErrorView;

    open spec fn view(&self) -> StateErrorView {
        match *self {
            StateError::Sqlite(text) => StateErrorView::Sqlite(text@),
            StateError::Serialization(text) => StateErrorView::Serialization(text@),
            StateError::Conflict(text) => StateErrorView::Conflict(text@),
            StateError::StaleGeneration { expected, actual } => StateErrorView::StaleGeneration {
                expected,
                actual,
            },
            StateError::UnsupportedSchema { found, supported } => StateErrorView::UnsupportedSchema {
                found,
                supported,
            },
            StateError::UnsafeAuditMetadata(text) => StateErrorView::UnsafeAuditMetadata(text@),
            StateError::InjectedFailure => StateErrorView::InjectedFailure,
            StateError::ActivationGated => StateErrorView::ActivationGated,
            StateError::NotFound(text) => StateErrorView::NotFound(text@),
            StateError::MutationAuthorizationDenied(text) =>
                StateErrorView::MutationAuthorizationDenied(text@),
        }
    }
}

impl StateErrorView {
    /// The message shown for the error.
    pub open spec fn message(self) -> Seq<char> {
        match self {
            StateErrorView::Sqlite(text) => "SQLite state error: "@ + text,
            StateErrorView::Serialization(text) => "serialization error: "@ + text,
            StateErrorView::Conflict(text) => "state conflict: "@ + text,
            StateErrorView::StaleGeneration { expected, actual } => "stale generation: expected "@
                + decimal_text(expected as nat) + ", actual "@ + decimal_text(actual as nat),
            StateErrorView::UnsupportedSchema { found, supported } => "unsupported schema version "@
                + decimal_text(found as nat) + "; maximum supported is "@ + decimal_text(
                supported as nat,
            ),
            StateErrorView::UnsafeAuditMetadata(text) => "audit metadata is unsafe: "@ + text,
            StateErrorView::InjectedFailure => "injected transaction failure"@,
            StateErrorView::ActivationGated => "trusted activation remains gated in N0C"@,
            StateErrorView::NotFound(text) => "record not found: "@ + text,
            StateErrorView::MutationAuthorizationDenied(text) => "mutation authorization denied: "@
                + text,
        }
    }
}

impl StateError {
    /// The message shown for the error.
    pub fn message(&self) -> (text: String)
        ensures
            text@ == self@.message(),
    {
        match self {
            StateError::Sqlite(text) => join("SQLite state error: ", text.as_str()),
            StateError::Serialization(text) => join("serialization error: ", text.as_str()),
            StateError::Conflict(text) => join("state conflict: ", text.as_str()),
            StateError::StaleGeneration { expected, actual } => {
                let head = join("stale generation: expected ", decimal(*expected).as_str());
                let tail = join(", actual ", decimal(*actual).as_str());
                let out = join(head.as_str(), tail.as_str());
                assert(out@ =~= self@.message());
                out
            },
            StateError::UnsupportedSchema { found, supported } => {
                let head = join("unsupported schema version ", decimal(*found as u64).as_str());
                let tail = join("; maximum supported is ", decimal(*supported as u64).as_str());
                let out = join(head.as_str(), tail.as_str());
                assert(out@ =~= self@.message());
                out
            },
            StateError::UnsafeAuditMetadata(text) => join(
                "audit metadata is unsafe: ",
                text.as_str(),
            ),
            StateError::InjectedFailure => "injected transaction failure".to_owned(),
            StateError::ActivationGated => "trusted activation remains gated in N0C".to_owned(),
            StateError::NotFound(text) => join("record not found: ", text.as_str()),
            StateError::MutationAuthorizationDenied(text) => join(
                "mutation authorization denied: ",
                text,
            ),
        }
    }
}

/// A conflict with the given explanation.
pub fn conflict(text: &str) -> (error: StateError)
    ensures
        error@ == StateErrorView::Conflict(text@),
{
    StateError::Conflict(text.to_owned())
}

/// The record of the given name is absent.
pub fn not_found(text: &str) -> (error: StateError)
    ensures
        error@ == StateErrorView::NotFound(text@),
{
    StateError::NotFound(text.to_owned())
}

/// A statement that the database did not carry out.
#[derive(Debug, PartialEq, Eq)]
pub struct DatabaseFailure {
    /// A constraint on the records stands against it.
    pub constraint_violated: bool,
    /// The explanation of the database.
    pub text: String,
}

impl DatabaseFailure {
    /// What the failure means: a violated constraint is a conflict with the
    /// existing records, anything else is a failure of the database.
    pub open spec fn meaning(self) -> StateErrorView {
        if self.constraint_violated {
            StateErrorView::Conflict(self.text@)
        } else {
            StateErrorView::Sqlite(self.text@)
        }
    }
}

/// What a database failure means: a violated constraint is a conflict with the
/// existing records, anything else is a failure of the database.
pub fn map_constraint(failure: DatabaseFailure) -> (error: StateError)
    ensures
        error@ == failure.meaning(),
{
    if failure.constraint_violated {
        StateError::Conflict(failure.text)
    } else {
        StateError::Sqlite(failure.text)
    }
}

/// Why a record could not be stored, if the database refused it.
pub open spec fn storage_problem(stored: Result<(), DatabaseFailure>) -> Option<StateErrorView> {
    match stored {
        Ok(()) => None,
        Err(failure) => Some(failure.meaning()),
    }
}

/// Takes the answer of the database to the storing of a record.
pub fn storage_result(stored: Result<(), DatabaseFailure>) -> (result: Result<(), StateError>)
    ensures
        match result {
            Ok(()) => storage_problem(stored) is None,
            Err(error) => storage_problem(stored) == Some(error@),
        },
{
    match stored {
        Ok(()) => Ok(()),
        Err(failure) => Err(map_constraint(failure)),
    }
}

/// The record that a lookup by name gave, or the error that it is absent.
pub fn found<T>(record: Option<T>, name: &str) -> (result: Result<T, StateError>)
    ensures
        match record {
            Some(value) => result == Ok::<T, StateError>(value),
            None => result matches Err(e) && e@ == StateErrorView::NotFound(name@),
        },
{
    match record {
        Some(value) => Ok(value),
        None => Err(not_found(name)),
    }
}

/// A value that another component accepted, or a conflict with its explanation.
pub fn accepted<T>(value: Result<T, String>) -> (result: Result<T, StateError>)
    ensures
        match value {
            Ok(v) => result == Ok::<T, StateError>(v),
            Err(text) => result == Err::<T, StateError>(StateError::Conflict(text)),
        },
{
    match value {
        Ok(v) => Ok(v),
        Err(text) => Err(StateError::Conflict(text)),
    }
}

/// A record that was read from JSON, or the error that it could not be.
pub fn decoded<T>(record: Result<T, String>) -> (result: Result<T, StateError>)
    ensures
        match record {
            Ok(v) => result == Ok::<T, StateError>(v),
            Err(text) => result == Err::<T, StateError>(StateError::Serialization(text)),
        },
{
    match record {
        Ok(v) => Ok(v),
        Err(text) => Err(StateError::Serialization(text)),
    }
}

/// Why a provider could not be imported or reconciled.
#[derive(Debug, PartialEq, Eq)]
pub enum ReconciliationFailure {
    Unreachable,
    AuthenticationFailed,
    Incompatible,
    Malformed,
    IdentityConflict,
    State(StateError),
}

/// What a `ReconciliationFailure` says.
pub enum ReconciliationFailureView {
    Unreachable,
    AuthenticationFailed,
    Incompatible,
    Malformed,
    IdentityConflict,
    State(StateErrorView),
}

impl View for ReconciliationFailure {
    type V = ReconciliationFailureView;

    open spec fn view(&self) -> ReconciliationFailureView {
        match *self {
            ReconciliationFailure::Unreachable => ReconciliationFailureView::Unreachable,
            ReconciliationFailure::AuthenticationFailed =>
                ReconciliationFailureView::AuthenticationFailed,
            ReconciliationFailure::Incompatible => ReconciliationFailureView::Incompatible,
            ReconciliationFailure::Malformed => ReconciliationFailureView::Malformed,
            ReconciliationFailure::IdentityConflict => ReconciliationFailureView::IdentityConflict,
            ReconciliationFailure::State(error) => ReconciliationFailureView::State(error@),
        }
    }
}

impl ReconciliationFailureView {
    /// The message shown for the failure.
    pub open spec fn message(self) -> Seq<char> {
        match self {
            ReconciliationFailureView::Unreachable => "provider unreachable"@,
            ReconciliationFailureView::AuthenticationFailed => "provider authentication failed"@,
            ReconciliationFailureView::Incompatible => "provider is incompatible"@,
            ReconciliationFailureView::Malformed => "provider response is malformed"@,
            ReconciliationFailureView::IdentityConflict => "provider identity conflict"@,
            ReconciliationFailureView::State(error) => "state failure: "@ + error.message(),
        }
    }
}

impl ReconciliationFailure {
    /// The message shown for the failure.
    pub fn message(&self) -> (text: String)
        ensures
            text@ == self@.message(),
    {
        match self {
            ReconciliationFailure::Unreachable => "provider unreachable".to_owned(),
            ReconciliationFailure::AuthenticationFailed =>
                "provider authentication failed".to_owned(),
            ReconciliationFailure::Incompatible => "provider is incompatible".to_owned(),
            ReconciliationFailure::Malformed => "provider response is malformed".to_owned(),
            ReconciliationFailure::IdentityConflict => "provider identity conflict".to_owned(),
            ReconciliationFailure::State(error) => join(
                "state failure: ",
                error.message().as_str(),
            ),
        }
    }
}

} // verus!
