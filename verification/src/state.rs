//! Whether a record has reached the store.
//!
//! A record is either dirty, which is to say that the store has not seen it,
//! or saved, and then it carries what the store knows it by. The two are
//! different types, so that an operation meant for saved records cannot be
//! handed a dirty one.

use crate::errors::TeaError;
use vstd::prelude::*;

verus! {

/// The error type of the JSON encoder that turns records into bytes.
#[verifier::external_type_specification]
#[verifier::external_body]
pub struct ExJsonError(serde_json::Error);

/// A value that the store has not seen. With nothing inside, the mark of such
/// a value.
#[derive(Debug, Clone, Copy, PartialEq, Eq, PartialOrd, Ord)]
pub struct Dirty<T = ()>(pub T);

impl<T> Dirty<T> {
    /// Wraps a value that is yet to be saved.
    pub fn new(t: T) -> (d: Dirty<T>)
        ensures
            d.0 == t,
    {
        Dirty(t)
    }

    /// The value inside.
    pub fn get(&self) -> (t: &T)
        ensures
            *t == self.0,
    {
        &self.0
    }
}

impl Default for Dirty {
    fn default() -> (d: Dirty)
        ensures
            d == Dirty(()),
    {
        Dirty(())
    }
}

/// The mark of a record that the store holds: what the store knows it by.
#[derive(Debug)]
pub struct Saved<Id: std::fmt::Debug>(pub Id);

impl<Id: std::fmt::Debug> Saved<Id> {
    /// Marks a record as saved under `id`.
    pub fn new(id: Id) -> (s: Self)
        ensures
            s.0 == id,
    {
        Saved(id)
    }

    /// What the store knows the record by.
    pub fn id(&self) -> (id: &Id)
        ensures
            *id == self.0,
    {
        &self.0
    }
}

impl<Id: std::fmt::Debug> std::ops::Deref for Saved<Id> {
    type Target = Id;

    /// What the store knows the record by.
    fn deref(&self) -> (id: &Id)
        ensures
            *id == self.0,
    {
        &self.0
    }
}

/// The states a record can be in: [`Dirty`] and [`Saved`].
pub trait PersistedState {

}

impl PersistedState for Dirty {

}

impl<Id: std::fmt::Debug> PersistedState for Saved<Id> {

}

/// Why a record could not be saved.
#[derive(Debug)]
pub enum SaveError {
    /// The record could not be turned into bytes.
    Serde(serde_json::Error),
    /// The store refused the record or failed.
    Tea(TeaError),
}

/// What saving a record gives.
pub type SaveResult<T> = Result<T, SaveError>;

} // verus!
