//! One store for many workers.

use crate::connection::TeaConnection;
use crate::errors::TeaError;
use crate::types::{
    AssocRangeAfter, AssocRangeLimit, AssocStorage, AssocType, EntityId, EntityType,
};
use std::sync::{Arc, Mutex, MutexGuard, PoisonError};
use vstd::prelude::*;

verus! {

/// The lock of the standard library that lets one holder at a time reach the
/// value inside.
#[verifier::external_type_specification]
#[verifier::external_body]
#[verifier::reject_recursive_types(T)]
pub struct ExMutex<T: ?Sized>(std::sync::Mutex<T>);

/// What a holder of a locked `Mutex` reaches the value through.
#[verifier::external_type_specification]
#[verifier::external_body]
#[verifier::reject_recursive_types(T)]
pub struct ExMutexGuard<'a, T: ?Sized + 'a>(std::sync::MutexGuard<'a, T>);

/// What `Mutex::lock` answers with once a holder has failed while holding the
/// lock.
#[verifier::external_type_specification]
#[verifier::external_body]
#[verifier::reject_recursive_types(T)]
pub struct ExPoisonError<T>(std::sync::PoisonError<T>);

/// `Mutex::new`: a lock around `value`, not held by anyone.
#[verifier::external_body]
fn new_lock<C>(value: C) -> (m: Mutex<C>) {
    Mutex::new(value)
}

/// `Mutex::lock`: waits until the lock is free and takes it. The error says
/// that an earlier holder failed while holding the lock.
#[verifier::external_body]
fn lock<'a, C>(m: &'a Mutex<C>) -> (r: Result<MutexGuard<'a, C>, PoisonError<MutexGuard<'a, C>>>) {
    m.lock()
}

/// `DerefMut` of `MutexGuard`: the value behind the lock, for as long as the
/// guard is borrowed.
#[verifier::external_body]
fn guarded<'g, 'a, C>(guard: &'g mut MutexGuard<'a, C>) -> (value: &'g mut C) {
    &mut **guard
}

/// A store that many workers can use: every operation takes one lock, hands
/// the operation on to the store inside, and lets go of the lock.
///
/// A clone shares the store with the one it was made from. Once a holder of
/// the lock has failed while holding it, every operation ends in
/// `SharedResourcePoisoned`.
#[verifier::reject_recursive_types(C)]
pub struct SharedTeaConnection<C: TeaConnection + Send> {
    conn: Arc<Mutex<C>>,
}

impl<C: TeaConnection + Send> SharedTeaConnection<C> {
    /// Puts `conn` behind a lock, to be shared.
    pub fn new(conn: C) -> (shared: Self) {
        SharedTeaConnection { conn: Arc::new(new_lock(conn)) }
    }
}

impl<C: TeaConnection + Send> Clone for SharedTeaConnection<C> {
    /// Another handle on the same store and the same lock.
    fn clone(&self) -> (other: Self) {
        SharedTeaConnection { conn: self.conn.clone() }
    }
}

impl<C: TeaConnection + Send> TeaConnection for SharedTeaConnection<C> {
    fn initialize(&mut self) -> (r: Result<(), TeaError>) {
        match lock(&self.conn) {
            Ok(mut guard) => guarded(&mut guard).initialize(),
            Err(_) => Err(TeaError::SharedResourcePoisoned),
        }
    }

    fn ent_add(&mut self, ty: EntityType, data: &[u8]) -> (r: Result<EntityId, TeaError>) {
        match lock(&self.conn) {
            Ok(mut guard) => guarded(&mut guard).ent_add(ty, data),
            Err(_) => Err(TeaError::SharedResourcePoisoned),
        }
    }

    fn ent_get(&mut self, id: EntityId) -> (r: Result<(EntityType, Vec<u8>), TeaError>) {
        match lock(&self.conn) {
            Ok(mut guard) => guarded(&mut guard).ent_get(id),
            Err(_) => Err(TeaError::SharedResourcePoisoned),
        }
    }

    fn ent_update(&mut self, id: EntityId, ty: EntityType, data: &[u8]) -> (r: Result<
        (EntityType, Vec<u8>),
        TeaError,
    >) {
        match lock(&self.conn) {
            Ok(mut guard) => guarded(&mut guard).ent_update(id, ty, data),
            Err(_) => Err(TeaError::SharedResourcePoisoned),
        }
    }

    fn ent_delete(&mut self, id: EntityId) -> (r: Result<(EntityType, Vec<u8>), TeaError>) {
        match lock(&self.conn) {
            Ok(mut guard) => guarded(&mut guard).ent_delete(id),
            Err(_) => Err(TeaError::SharedResourcePoisoned),
        }
    }

    fn assoc_add(&mut self, ty: AssocType, id1: EntityId, id2: EntityId, data: &[u8]) -> (r:
        Result<(), TeaError>) {
        match lock(&self.conn) {
            Ok(mut guard) => guarded(&mut guard).assoc_add(ty, id1, id2, data),
            Err(_) => Err(TeaError::SharedResourcePoisoned),
        }
    }

    fn assoc_delete(&mut self, ty: AssocType, id1: EntityId, id2: EntityId) -> (r: Result<
        AssocStorage,
        TeaError,
    >) {
        match lock(&self.conn) {
            Ok(mut guard) => guarded(&mut guard).assoc_delete(ty, id1, id2),
            Err(_) => Err(TeaError::SharedResourcePoisoned),
        }
    }

    fn assoc_change_type(
        &mut self,
        ty: AssocType,
        id1: EntityId,
        id2: EntityId,
        new_ty: AssocType,
    ) -> (r: Result<AssocStorage, TeaError>) {
        match lock(&self.conn) {
            Ok(mut guard) => guarded(&mut guard).assoc_change_type(ty, id1, id2, new_ty),
            Err(_) => Err(TeaError::SharedResourcePoisoned),
        }
    }

    fn assoc_get(
        &mut self,
        ty: AssocType,
        id1: EntityId,
        id2_set: &[EntityId],
        high: Option<i64>,
        low: Option<i64>,
    ) -> (r: Result<Vec<AssocStorage>, TeaError>) {
        match lock(&self.conn) {
            Ok(mut guard) => guarded(&mut guard).assoc_get(ty, id1, id2_set, high, low),
            Err(_) => Err(TeaError::SharedResourcePoisoned),
        }
    }

    fn assoc_count(&mut self, ty: AssocType, id1: EntityId) -> (r: Result<usize, TeaError>) {
        match lock(&self.conn) {
            Ok(mut guard) => guarded(&mut guard).assoc_count(ty, id1),
            Err(_) => Err(TeaError::SharedResourcePoisoned),
        }
    }

    fn assoc_range(
        &mut self,
        ty: AssocType,
        id1: EntityId,
        after: AssocRangeAfter,
        limit: AssocRangeLimit,
    ) -> (r: Result<Vec<AssocStorage>, TeaError>) {
        match lock(&self.conn) {
            Ok(mut guard) => guarded(&mut guard).assoc_range(ty, id1, after, limit),
            Err(_) => Err(TeaError::SharedResourcePoisoned),
        }
    }

    fn assoc_time_range(
        &mut self,
        ty: AssocType,
        id1: EntityId,
        high: i64,
        low: i64,
        limit: AssocRangeLimit,
    ) -> (r: Result<Vec<AssocStorage>, TeaError>) {
        match lock(&self.conn) {
            Ok(mut guard) => guarded(&mut guard).assoc_time_range(ty, id1, high, low, limit),
            Err(_) => Err(TeaError::SharedResourcePoisoned),
        }
    }
}

} // verus!
