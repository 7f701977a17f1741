//! The error type of the repository operations.

use vstd::prelude::*;
use vstd::string::StringExecFns;
use crate::text::{decimal, push_decimal};

verus! {

/// What went wrong in a repository operation.
#[derive(Clone, Copy, Debug, PartialEq, Eq, Structural)]
pub enum ErrorKind {
    /// The table that the operation works on does not exist yet.
    TableNotInitialized,
    /// No row has the identifier that was asked for.
    NotFound,
    /// The identifier of a candidate for insertion is already in use.
    DuplicateId,
    /// The storage engine could not prepare or run a statement.
    StoreError,
}

/// An error of the data layer: its kind and a message for people.
#[derive(Debug)]
pub struct InternalError {
    kind: ErrorKind,
    details: String,
}

/// The mathematical content of an `InternalError`.
pub struct InternalErrorView {
    pub kind: ErrorKind,
    pub details: Seq<char>,
}

impl View for InternalError {
    type V = InternalErrorView;

    closed spec fn view(&self) -> InternalErrorView {
        InternalErrorView { kind: self.kind, details: self.details@ }
    }
}

/// The message of a missing table.
pub open spec fn table_not_initialized_details(name: Seq<char>) -> Seq<char> {
    "table '"@ + name + "' was not initialed!"@
}

/// The message of an identifier that resolves to no row.
pub open spec fn not_found_details(entity: Seq<char>, id: u64) -> Seq<char> {
    entity + " with id = "@ + decimal(id as nat) + " was not found in the database."@
}

/// The message of an identifier that is already taken.
pub open spec fn duplicate_id_details(entity: Seq<char>, id: u64) -> Seq<char> {
    entity + " with id = "@ + decimal(id as nat) + ", is already in use in the table"@
}

/// The error for a table that does not exist yet.
pub open spec fn table_not_initialized_error(name: Seq<char>) -> InternalErrorView {
    InternalErrorView {
        kind: ErrorKind::TableNotInitialized,
        details: table_not_initialized_details(name),
    }
}

/// The error for an identifier that resolves to no row.
pub open spec fn not_found_error(entity: Seq<char>, id: u64) -> InternalErrorView {
    InternalErrorView { kind: ErrorKind::NotFound, details: not_found_details(entity, id) }
}

/// The error for an identifier that is already taken.
pub open spec fn duplicate_id_error(entity: Seq<char>, id: u64) -> InternalErrorView {
    InternalErrorView { kind: ErrorKind::DuplicateId, details: duplicate_id_details(entity, id) }
}

/// The error that carries a message of the storage engine.
pub open spec fn store_error(details: Seq<char>) -> InternalErrorView {
    InternalErrorView { kind: ErrorKind::StoreError, details }
}

impl InternalError {
    /// An error reported by the storage engine, with the engine's message.
    pub fn new(details: &str) -> (e: Self)
        ensures
            e@ == store_error(details@),
    {
        Self { kind: ErrorKind::StoreError, details: String::from_str(details) }
    }

    /// The error for a table that does not exist yet.
    pub fn table_not_initialized(name: &str) -> (e: Self)
        ensures
            e@ == table_not_initialized_error(name@),
    {
        let mut details = String::from_str("table '");
        details.append(name);
        details.append("' was not initialed!");
        Self { kind: ErrorKind::TableNotInitialized, details }
    }

    /// The error for an identifier that resolves to no row of `entity`.
    pub fn not_found(entity: &str, id: u64) -> (e: Self)
        ensures
            e@ == not_found_error(entity@, id),
    {
        let mut details = String::from_str(entity);
        details.append(" with id = ");
        push_decimal(&mut details, id);
        details.append(" was not found in the database.");
        Self { kind: ErrorKind::NotFound, details }
    }

    /// The error for a candidate whose identifier is already taken.
    pub fn duplicate_id(entity: &str, id: u64) -> (e: Self)
        ensures
            e@ == duplicate_id_error(entity@, id),
    {
        let mut details = String::from_str(entity);
        details.append(" with id = ");
        push_decimal(&mut details, id);
        details.append(", is already in use in the table");
        Self { kind: ErrorKind::DuplicateId, details }
    }

    /// The kind of the error.
    pub fn kind(&self) -> (k: ErrorKind)
        ensures
            k == self@.kind,
    {
        self.kind
    }

    /// The message of the error.
    pub fn description(&self) -> (s: &str)
        ensures
            s@ == self@.details,
    {
        self.details.as_str()
    }

    /// The message of the error, as an owned string.
    pub fn to_string(&self) -> (s: String)
        ensures
            s@ == self@.details,
    {
        self.details.clone()
    }
}

} // verus!
