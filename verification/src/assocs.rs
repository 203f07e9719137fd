//! Kinds of association between the caller's records.

use crate::connection::{is_outage, TeaConnection};
use crate::entities::{Ent, Entity, EntityTypeID, RawEntity};
use crate::errors::TeaError;
use crate::state::{Dirty, PersistedState, SaveError, SaveResult, Saved};
use crate::types::{AssocType, EntityId};
use std::marker::PhantomData;
use vstd::prelude::*;

verus! {

/// A kind of association: it has a type number of its own.
pub trait AssocTypeID {
    /// The type under which associations of this kind are stored.
    const TYPE_ID: u64;
}

/// An association at its barest: where it starts, where it ends, and the
/// number of its type. Think of an arrow: `from` is its base, `to` is what it
/// points at.
#[derive(Debug, Clone, Copy, PartialEq, Eq, Structural)]
pub struct RawAssoc {
    /// The entity the association starts at.
    pub from: RawEntity,
    /// The entity the association ends at.
    pub to: RawEntity,
    /// The type.
    pub ty: u64,
}

impl RawAssoc {
    /// The entity the association starts at.
    pub fn obj1(&self) -> (e: RawEntity)
        ensures
            e == self.from,
    {
        self.from
    }

    /// The entity the association ends at.
    pub fn obj2(&self) -> (e: RawEntity)
        ensures
            e == self.to,
    {
        self.to
    }
}

/// An association of kind `A` from one saved record to another, in the state
/// `S`: dirty until it is saved.
pub struct Assoc<'from, 'to, F, A, T, S = Dirty> where
    A: AssocTypeID,
    F: EntityTypeID,
    T: EntityTypeID,
    S: PersistedState,
 {
    /// The record the association starts at.
    pub from: &'from Ent<F>,
    /// The record the association ends at.
    pub to: &'to Ent<T>,
    state: PhantomData<S>,
    kind: PhantomData<A>,
}

impl<'from, 'to, F, A, T, S> Assoc<'from, 'to, F, A, T, S> where
    A: AssocTypeID,
    F: EntityTypeID,
    T: EntityTypeID,
    S: PersistedState,
 {
    /// The record the association starts at.
    pub closed spec fn origin(&self) -> Ent<F> {
        *self.from
    }

    /// The record the association ends at.
    pub closed spec fn target(&self) -> Ent<T> {
        *self.to
    }

    /// The association at its barest.
    pub open spec fn raw(&self) -> RawAssoc {
        RawAssoc { from: self.origin().raw(), to: self.target().raw(), ty: A::TYPE_ID }
    }

    /// The entity the association starts at, at its barest.
    pub fn obj1(&self) -> (e: RawEntity)
        ensures
            e == self.origin().raw(),
    {
        self.from.to_entity()
    }

    /// The entity the association ends at, at its barest.
    pub fn obj2(&self) -> (e: RawEntity)
        ensures
            e == self.target().raw(),
    {
        self.to.to_entity()
    }

    /// The association at its barest: both ends and the type of its kind.
    pub fn to_assoc(&self) -> (raw: RawAssoc)
        ensures
            raw == self.raw(),
    {
        RawAssoc { from: self.from.to_entity(), to: self.to.to_entity(), ty: A::TYPE_ID }
    }
}

impl<'from, 'to, F, A, T> Assoc<'from, 'to, F, A, T, Dirty> where
    A: AssocTypeID,
    F: EntityTypeID,
    T: EntityTypeID,
 {
    /// An association from `from` to `to` that is yet to be saved.
    pub fn new(from: &'from Ent<F>, to: &'to Ent<T>) -> (a: Self)
        ensures
            a.origin() == *from,
            a.target() == *to,
    {
        Assoc { from, to, state: PhantomData, kind: PhantomData }
    }

    /// The same association, marked as saved.
    pub fn into_saved(self) -> (a: Assoc<'from, 'to, F, A, T, Saved<()>>)
        ensures
            a.origin() == self.origin(),
            a.target() == self.target(),
    {
        let Assoc { from, to, kind, .. } = self;
        Assoc { from, to, state: PhantomData, kind }
    }

    /// Adds the association to `db`, under the type of its kind and with no
    /// data, and gives it back marked as saved.
    ///
    /// A kind whose type number is zero cannot be stored: the save fails
    /// before the store is asked. Else the store decides: an association that
    /// is there already is not overwritten, and the save fails with the
    /// store's error.
    pub fn save<DB: TeaConnection>(self, db: &mut DB) -> (r: SaveResult<
        Assoc<'from, 'to, F, A, T, Saved<()>>,
    >)
        ensures
            r is Ok ==> r->Ok_0.origin() == self.origin() && r->Ok_0.target() == self.target()
                && A::TYPE_ID != 0,
            r is Err ==> r->Err_0 is Tea,
            A::TYPE_ID == 0 ==> r is Err && r->Err_0->Tea_0 == TeaError::ZeroIsNotAValidType
                && *final(db) == *old(db),
            A::TYPE_ID != 0 && r is Err ==> is_outage(r->Err_0->Tea_0) || (r->Err_0->Tea_0 matches TeaError::AssocAlreadyExists {
                ty,
                id1,
                id2,
            } && ty.value() == A::TYPE_ID && id1 == self.origin().entity_id() && id2
                == self.target().entity_id()),
    {
        let Assoc { from, to, .. } = self;
        let id1 = match EntityId::from_u64(from.id()) {
            Ok(id1) => id1,
            Err(e) => {
                return Err(SaveError::Tea(e));
            },
        };
        let id2 = match EntityId::from_u64(to.id()) {
            Ok(id2) => id2,
            Err(e) => {
                return Err(SaveError::Tea(e));
            },
        };
        let a_type = match AssocType::from_u64(A::TYPE_ID) {
            Ok(a_type) => a_type,
            Err(e) => {
                return Err(SaveError::Tea(e));
            },
        };
        proof {
            EntityId::value_is_injective(id1, from.entity_id());
            EntityId::value_is_injective(id2, to.entity_id());
        }
        let data: [u8; 0] = [];
        match db.assoc_add(a_type, id1, id2, data.as_slice()) {
            Ok(()) => {
                let new_assoc: Assoc<'from, 'to, F, A, T, Dirty> = Assoc::new(from, to);
                Ok(new_assoc.into_saved())
            },
            Err(e) => Err(SaveError::Tea(e)),
        }
    }
}

} // verus!
