//! The repository contract: the `Label` entity, the error taxonomy shared by
//! every store, and the `LabelRepository` trait that makes the stores
//! interchangeable behind identical call sites.

use vstd::prelude::*;

verus! {

/// A stored label: a unique id assigned by the store, and a name.
#[derive(Debug, PartialEq, Eq)]
pub struct Label {
    pub id: i32,
    pub name: String,
}

impl Label {
    /// Builds a label value directly; stores assign ids themselves, this is
    /// for callers and tests that need to write down an expected value.
    pub fn new(id: i32, name: String) -> (r: Self)
        ensures
            r.id == id,
            r.name == name,
    {
        Label { id, name }
    }
}

impl Clone for Label {
    fn clone(&self) -> (r: Self)
        ensures
            r == *self,
    {
        Label { id: self.id, name: self.name.clone() }
    }
}

/// A requested change to a label; carried by update-shaped payloads. No
/// update operation exists on the stores yet, so nothing reads it.
#[allow(dead_code)]
#[derive(Debug, Clone, PartialEq, Eq)]
pub struct UpdateLabel {
    id: i32,
    name: String,
}

/// The closed set of storage failures. Every store classifies each failure
/// into one of these kinds before returning; no raw lower-level error
/// escapes unclassified.
#[derive(Debug, Clone, PartialEq, Eq)]
pub enum RepositoryError {
    /// Creation was rejected because a live label with the requested name
    /// already exists; carries the conflicting label's id.
    Duplicate(i32),
    /// A delete targeted an id with no corresponding live label.
    NotFound(i32),
    /// Any lower-level failure not otherwise classified, with a diagnostic.
    Unexpected(String),
}

/// The labels of `s` are in strictly ascending id order (so ids are unique).
pub open spec fn sorted_by_id(s: Seq<Label>) -> bool {
    forall|i: int, j: int| 0 <= i < j < s.len() ==> (#[trigger] s[i]).id < (#[trigger] s[j]).id
}

/// Some label in `s` carries the id `id`.
pub open spec fn has_id(s: Seq<Label>, id: int) -> bool {
    exists|i: int| 0 <= i < s.len() && s[i].id == id
}

/// The storage-agnostic operations available to callers. Implementations
/// must be cheaply clonable handles onto one logical store, so that many
/// concurrent callers can share it.
///
/// The clauses here are the ones every store meets; the in-memory store's
/// inner state gives the full semantics of each operation.
pub trait LabelRepository: Sized + Clone {
    /// Allocates a new label with a fresh id and the given name. A failure
    /// is either a duplicate-name conflict or a lower-level fault, never a
    /// not-found.
    fn create(&self, name: String) -> (r: Result<Label, RepositoryError>)
        ensures
            (match r {
                Ok(l) => l.name@ == name@ && 1 <= l.id,
                Err(e) => !(e is NotFound),
            }),
    ;

    /// Returns all live labels in ascending id order; an empty store yields
    /// an empty vector, never an error.
    fn all(&self) -> (r: Result<Vec<Label>, RepositoryError>)
        ensures
            (match r {
                Ok(v) => sorted_by_id(v@),
                Err(e) => e is Unexpected,
            }),
    ;

    /// Removes the label with the given id. A not-found failure always
    /// names the requested id; a duplicate conflict is impossible here.
    fn delete(&self, id: i32) -> (r: Result<(), RepositoryError>)
        ensures
            (match r {
                Ok(_) => true,
                Err(e) => match e {
                    RepositoryError::NotFound(missing) => missing == id,
                    RepositoryError::Duplicate(_) => false,
                    RepositoryError::Unexpected(_) => true,
                },
            }),
    ;
}

} // verus!
