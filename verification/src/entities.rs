//! Records of the caller as entities of the store.

use crate::connection::{is_outage, TeaConnection};
use crate::state::{SaveError, SaveResult, Saved};
use crate::types::{EntityId, EntityType};
use vstd::prelude::*;

verus! {

/// The number of a kind of record.
pub type TypeId = u64;

/// A kind of record that can be an entity: it has a type number of its own.
pub trait EntityTypeID {
    /// The type under which records of this kind are stored.
    const TYPE_ID: TypeId;
}

impl<T: EntityTypeID> EntityTypeID for &T {
    const TYPE_ID: TypeId = T::TYPE_ID;
}

impl<T: EntityTypeID> EntityTypeID for Ent<T> {
    const TYPE_ID: TypeId = T::TYPE_ID;
}

/// An entity at its barest: the identifier that the store knows it by, and
/// the number of its type.
#[derive(Debug, Default, Clone, Copy, PartialEq, Eq, Structural)]
pub struct RawEntity {
    /// The identifier, which is unique in the store.
    pub id: u64,
    /// The type.
    pub ty: u64,
}

/// A record that the store holds as an entity.
pub struct Ent<T: EntityTypeID>(T, Saved<EntityId>);

/// What every saved entity can tell of itself.
pub trait Entity {
    /// The kind of record behind the entity.
    type ObjectType: EntityTypeID;

    /// The type under which the entity is stored.
    fn type_id(&self) -> TypeId;

    /// The identifier under which the entity is stored.
    fn obj_id(&self) -> u64;

    /// The entity at its barest.
    fn to_entity(&self) -> RawEntity;
}

impl<T: EntityTypeID> Ent<T> {
    /// The record.
    pub closed spec fn object(&self) -> T {
        self.0
    }

    /// The identifier that the store gave the record.
    pub closed spec fn entity_id(&self) -> EntityId {
        self.1.0
    }

    /// The entity at its barest: its identifier and the type of its kind.
    pub open spec fn raw(&self) -> RawEntity {
        RawEntity { id: self.entity_id().value(), ty: T::TYPE_ID }
    }

    /// The identifier that the store gave the record, as a number; it is
    /// never zero.
    pub fn id(&self) -> (id: u64)
        ensures
            id == self.entity_id().value(),
            id != 0,
    {
        self.1.0.as_u64()
    }

    /// The record.
    pub fn get(&self) -> (t: &T)
        ensures
            *t == self.object(),
    {
        &self.0
    }
}

impl<T: EntityTypeID> Entity for Ent<T> {
    type ObjectType = T;

    fn type_id(&self) -> (ty: TypeId)
        ensures
            ty == T::TYPE_ID,
    {
        T::TYPE_ID
    }

    fn obj_id(&self) -> (id: u64)
        ensures
            id == self.entity_id().value(),
            id != 0,
    {
        self.id()
    }

    fn to_entity(&self) -> (raw: RawEntity)
        ensures
            raw == self.raw(),
    {
        RawEntity { id: self.id(), ty: T::TYPE_ID }
    }
}

impl<T: EntityTypeID> std::ops::Deref for Ent<T> {
    type Target = T;

    /// The record.
    fn deref(&self) -> (t: &T)
        ensures
            *t == self.object(),
    {
        &self.0
    }
}

/// Stores `object`, which `data` encodes, as a new entity of its kind's type
/// in `db`.
///
/// The kind's type number must not be zero. The store picks the identifier;
/// the entity that comes back carries it along with the record. Where the
/// store fails, so does the save, with the store's error.
pub fn save<T: EntityTypeID, DB: TeaConnection>(object: T, data: &[u8], db: &mut DB) -> (r:
    SaveResult<Ent<T>>)
    requires
        T::TYPE_ID != 0,
    ensures
        r is Ok ==> r->Ok_0.object() == object,
        r is Err ==> r->Err_0 is Tea && (r->Err_0->Tea_0 is ZeroIsNotAValidID || is_outage(
            r->Err_0->Tea_0,
        )),
{
    let ty = EntityType::from_nonzero_u64(T::TYPE_ID);
    match db.ent_add(ty, data) {
        Ok(id) => Ok(Ent(object, Saved::new(id))),
        Err(e) => Err(SaveError::Tea(e)),
    }
}

} // verus!
