//! Discriminated containers that carry an object's full payload.

use vstd::prelude::*;

verus! {

use crate::identifier::{Identifier, IdentifierModel};
use crate::object::{ImmutableObject, ImmutableObjectModel, MutableObject, MutableObjectModel};

/// Abstract value of an envelope: the variant together with the abstract
/// value of the wrapped object.
pub enum EnvelopeModel {
    Immutable(ImmutableObjectModel),
    Mutable(MutableObjectModel),
}

impl EnvelopeModel {
    /// The identifier an envelope derives: a pure function of the wrapped
    /// payload, so a stale identity is structurally impossible.
    pub open spec fn identity(self) -> IdentifierModel {
        match self {
            EnvelopeModel::Immutable(o) => IdentifierModel::ImmutableRef(o.address),
            EnvelopeModel::Mutable(o) => IdentifierModel::MutableRef(o.address, o.tag),
        }
    }

    /// The wrapped address has the fixed width that every `Address` value
    /// carries.
    pub open spec fn wf(self) -> bool {
        self.identity().wf()
    }
}

/// A discriminated container that wraps one stored object in full and can
/// derive that object's [`Identifier`].
///
/// An envelope owns its payload exclusively and exposes no mutation: once
/// wrapped, the payload is data at rest for the purposes of this core.
#[derive(Debug)]
pub enum Envelope {
    /// Wraps an immutable object in full.
    Immutable(ImmutableObject),
    /// Wraps a mutable object in full.
    Mutable(MutableObject),
}

impl View for Envelope {
    type V = EnvelopeModel;

    open spec fn view(&self) -> EnvelopeModel {
        match self {
            Envelope::Immutable(o) => EnvelopeModel::Immutable(o@),
            Envelope::Mutable(o) => EnvelopeModel::Mutable(o@),
        }
    }
}

impl Envelope {
    /// The identifier of the wrapped object, derived on demand from the
    /// payload: the matching variant of [`Identifier`], carrying the
    /// object's address (and tag, for a mutable object) unchanged.
    pub fn identity(&self) -> (r: Identifier)
        ensures
            r@ == self@.identity(),
    {
        match self {
            Envelope::Immutable(o) => Identifier::from_immutable(o),
            Envelope::Mutable(o) => Identifier::from_mutable(o),
        }
    }
}

impl From<ImmutableObject> for Envelope {
    /// Wraps an immutable object in the matching envelope variant.
    fn from(object: ImmutableObject) -> (r: Envelope) {
        Envelope::Immutable(object)
    }
}

impl vstd::std_specs::convert::FromSpecImpl<ImmutableObject> for Envelope {
    open spec fn obeys_from_spec() -> bool {
        true
    }

    open spec fn from_spec(object: ImmutableObject) -> Envelope {
        Envelope::Immutable(object)
    }
}

impl From<MutableObject> for Envelope {
    /// Wraps a mutable object in the matching envelope variant.
    fn from(object: MutableObject) -> (r: Envelope) {
        Envelope::Mutable(object)
    }
}

impl vstd::std_specs::convert::FromSpecImpl<MutableObject> for Envelope {
    open spec fn obeys_from_spec() -> bool {
        true
    }

    open spec fn from_spec(object: MutableObject) -> Envelope {
        Envelope::Mutable(object)
    }
}

impl Clone for Envelope {
    /// The copy wraps a payload with the same abstract value.
    fn clone(&self) -> (r: Self)
        ensures
            r@ == self@,
    {
        match self {
            Envelope::Immutable(o) => Envelope::Immutable(o.clone()),
            Envelope::Mutable(o) => Envelope::Mutable(o.clone()),
        }
    }
}

/// Law: `identity` is pure — its result is a function of the envelope
/// alone, so repeated calls on one envelope agree.
pub proof fn lemma_identity_stable(e: &Envelope, r1: Identifier, r2: Identifier)
    requires
        r1@ == e@.identity(),
        r2@ == e@.identity(),
    ensures
        r1@ == r2@,
{
}

} // verus!
