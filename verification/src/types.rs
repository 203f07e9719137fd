//! Identifiers, the association record and the parameters of range queries.

use crate::errors::TeaError;
use crate::text::{decimal, labelled};
use vstd::prelude::*;

verus! {

/// Identifier of an entity: a 64-bit integer that is never zero.
///
/// The number sits in a type of its own so that an entity identifier cannot be
/// handed over where a type tag is expected.
#[derive(Debug, Clone, Copy, Hash, Ord, PartialOrd, Eq, PartialEq, Structural)]
pub struct EntityId {
    pub(crate) raw: u64,
}

impl EntityId {
    /// What holds of every identifier: its number is not zero.
    #[verifier::type_invariant]
    pub closed spec fn is_nonzero(self) -> bool {
        self.raw != 0
    }

    /// The number behind the identifier.
    pub closed spec fn value(&self) -> u64 {
        self.raw
    }

    /// Two entity identifiers with the same number are the same identifier.
    pub proof fn value_is_injective(a: EntityId, b: EntityId)
        requires
            a.value() == b.value(),
        ensures
            a == b,
    {
    }

    /// Makes an identifier from a number, which must not be zero.
    pub fn from_u64(ent_id_u64: u64) -> (r: Result<EntityId, TeaError>)
        ensures
            ent_id_u64 == 0 ==> r == Err::<EntityId, TeaError>(TeaError::ZeroIsNotAValidID),
            ent_id_u64 != 0 ==> r is Ok && r->Ok_0.value() == ent_id_u64,
    {
        if ent_id_u64 == 0 {
            Err(TeaError::ZeroIsNotAValidID)
        } else {
            Ok(EntityId { raw: ent_id_u64 })
        }
    }

    /// Makes an identifier from a number known not to be zero.
    pub fn from_nonzero_u64(ent_id: u64) -> (id: EntityId)
        requires
            ent_id != 0,
        ensures
            id.value() == ent_id,
    {
        EntityId { raw: ent_id }
    }

    /// How the identifier is shown: `Ent(` and `)` around the number in decimal
    /// digits.
    pub open spec fn text(&self) -> Seq<char> {
        "Ent("@ + decimal(self.value() as nat) + ")"@
    }

    /// The identifier as text, such as `Ent(42)`.
    pub fn to_string(&self) -> (s: String)
        ensures
            s@ == self.text(),
    {
        labelled("Ent(", self.raw, ")")
    }

    /// The number behind the identifier; it is never zero.
    #[verifier::when_used_as_spec(value)]
    pub fn as_u64(&self) -> (v: u64)
        ensures
            v == self.value(),
            v != 0,
    {
        proof {
            use_type_invariant(self);
        }
        self.raw
    }
}

/// Type tag of an entity: a 64-bit integer that is never zero, chosen by the
/// caller and opaque to the store.
#[derive(Debug, Clone, Copy, Hash, Ord, PartialOrd, Eq, PartialEq, Structural)]
pub struct EntityType {
    pub(crate) raw: u64,
}

impl EntityType {
    /// What holds of every entity type: its number is not zero.
    #[verifier::type_invariant]
    pub closed spec fn is_nonzero(self) -> bool {
        self.raw != 0
    }

    /// The number behind the tag.
    pub closed spec fn value(&self) -> u64 {
        self.raw
    }

    /// Two entity types with the same number are the same type.
    pub proof fn value_is_injective(a: EntityType, b: EntityType)
        requires
            a.value() == b.value(),
        ensures
            a == b,
    {
    }

    /// Makes an entity type from a number, which must not be zero.
    pub fn from_u64(ty_u64: u64) -> (r: Result<EntityType, TeaError>)
        ensures
            ty_u64 == 0 ==> r == Err::<EntityType, TeaError>(TeaError::ZeroIsNotAValidType),
            ty_u64 != 0 ==> r is Ok && r->Ok_0.value() == ty_u64,
    {
        if ty_u64 == 0 {
            Err(TeaError::ZeroIsNotAValidType)
        } else {
            Ok(EntityType { raw: ty_u64 })
        }
    }

    /// Makes an entity type from a number known not to be zero.
    pub fn from_nonzero_u64(ty: u64) -> (t: EntityType)
        requires
            ty != 0,
        ensures
            t.value() == ty,
    {
        EntityType { raw: ty }
    }

    /// How the entity type is shown: `EntType(` and `)` around the number in decimal
    /// digits.
    pub open spec fn text(&self) -> Seq<char> {
        "EntType("@ + decimal(self.value() as nat) + ")"@
    }

    /// The entity type as text, such as `EntType(42)`.
    pub fn to_string(&self) -> (s: String)
        ensures
            s@ == self.text(),
    {
        labelled("EntType(", self.raw, ")")
    }

    /// The number behind the tag; it is never zero.
    #[verifier::when_used_as_spec(value)]
    pub fn as_u64(&self) -> (v: u64)
        ensures
            v == self.value(),
            v != 0,
    {
        proof {
            use_type_invariant(self);
        }
        self.raw
    }
}

/// Type tag of an association: a 64-bit integer that is never zero, chosen by
/// the caller and opaque to the store.
#[derive(Debug, Clone, Copy, Hash, Ord, PartialOrd, Eq, PartialEq, Structural)]
pub struct AssocType {
    pub(crate) raw: u64,
}

impl AssocType {
    /// What holds of every association type: its number is not zero.
    #[verifier::type_invariant]
    pub closed spec fn is_nonzero(self) -> bool {
        self.raw != 0
    }

    /// The number behind the tag.
    pub closed spec fn value(&self) -> u64 {
        self.raw
    }

    /// Two association types with the same number are the same type.
    pub proof fn value_is_injective(a: AssocType, b: AssocType)
        requires
            a.value() == b.value(),
        ensures
            a == b,
    {
    }

    /// Makes an association type from a number, which must not be zero.
    pub fn from_u64(ty_u64: u64) -> (r: Result<AssocType, TeaError>)
        ensures
            ty_u64 == 0 ==> r == Err::<AssocType, TeaError>(TeaError::ZeroIsNotAValidType),
            ty_u64 != 0 ==> r is Ok && r->Ok_0.value() == ty_u64,
    {
        if ty_u64 == 0 {
            Err(TeaError::ZeroIsNotAValidType)
        } else {
            Ok(AssocType { raw: ty_u64 })
        }
    }

    /// Makes an association type from a number known not to be zero.
    pub fn from_nonzero_u64(ty: u64) -> (t: AssocType)
        requires
            ty != 0,
        ensures
            t.value() == ty,
    {
        AssocType { raw: ty }
    }

    /// How the association type is shown: `AssocType(` and `)` around the number in decimal
    /// digits.
    pub open spec fn text(&self) -> Seq<char> {
        "AssocType("@ + decimal(self.value() as nat) + ")"@
    }

    /// The association type as text, such as `AssocType(42)`.
    pub fn to_string(&self) -> (s: String)
        ensures
            s@ == self.text(),
    {
        labelled("AssocType(", self.raw, ")")
    }

    /// The number behind the tag; it is never zero.
    #[verifier::when_used_as_spec(value)]
    pub fn as_u64(&self) -> (v: u64)
        ensures
            v == self.value(),
            v != 0,
    {
        proof {
            use_type_invariant(self);
        }
        self.raw
    }
}

/// One association as a query returns it.
///
/// The triple `(ty, id1, id2)` identifies the association. `last_change` is
/// the time of its last change in whole seconds since the Unix epoch, UTC;
/// the store keeps no finer resolution. `data` is the caller's blob, byte
/// for byte.
#[derive(Debug, Clone, Hash, Ord, PartialOrd, Eq, PartialEq)]
pub struct AssocStorage {
    /// The type of the association.
    pub ty: AssocType,
    /// The entity the association starts at.
    pub id1: EntityId,
    /// The entity the association ends at.
    pub id2: EntityId,
    /// Time of the last change, in whole seconds since the Unix epoch.
    pub last_change: i64,
    /// The bytes attached to the association.
    pub data: Vec<u8>,
}

/// Where a page of a range query begins.
#[derive(Debug, Clone, Copy, Hash, Ord, PartialOrd, Eq, PartialEq, Structural)]
pub enum AssocRangeAfter {
    /// Begin at the smallest end point.
    First,
    /// Begin at the first end point above this one; the identifier itself is
    /// left out.
    ID(EntityId),
}

impl AssocRangeAfter {
    /// The number that every end point on the page lies strictly above.
    pub open spec fn floor(self) -> u64 {
        match self {
            AssocRangeAfter::First => 0,
            AssocRangeAfter::ID(id) => id.value(),
        }
    }

    /// The number that every end point on the page lies strictly above: zero
    /// for the first page, else the identifier the page continues after.
    pub fn lower_bound(&self) -> (v: u64)
        ensures
            v == self.floor(),
            *self is First <==> v == 0,
    {
        match self {
            AssocRangeAfter::First => 0,
            AssocRangeAfter::ID(id) => id.as_u64(),
        }
    }
}

/// How many associations one page of a range query may hold.
#[derive(Debug, Clone, Copy, Hash, Ord, PartialOrd, Eq, PartialEq, Structural)]
pub enum AssocRangeLimit {
    /// The store's default page size.
    Default,
    /// This many; more than the store's maximum is refused.
    Limit(usize),
    /// The store's maximum page size.
    Maximum,
}

} // verus!
