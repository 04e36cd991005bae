//! Discriminated addresses that uniquely name stored objects.

use vstd::prelude::*;

verus! {

use core::cmp::Ordering;
use crate::address::{ADDRESS_LEN, Address, lemma_lex_cmp_equal_iff, lex_cmp_bytes};
use crate::object::{ImmutableObject, ImmutableObjectModel, MutableObject, MutableObjectModel};

/// Abstract value of an identifier: the variant together with the plain
/// values of its fields.
pub enum IdentifierModel {
    ImmutableRef(Seq<u8>),
    MutableRef(Seq<u8>, u64),
}

impl IdentifierModel {
    /// The underlying address, regardless of variant; the tag of a
    /// `MutableRef` is ignored.
    pub open spec fn address(self) -> Seq<u8> {
        match self {
            IdentifierModel::ImmutableRef(a) => a,
            IdentifierModel::MutableRef(a, _) => a,
        }
    }

    /// The disambiguating tag, present exactly on identifiers of mutable
    /// objects.
    pub open spec fn tag(self) -> Option<u64> {
        match self {
            IdentifierModel::ImmutableRef(_) => None,
            IdentifierModel::MutableRef(_, t) => Some(t),
        }
    }

    /// The address has the fixed width that every `Address` value carries.
    pub open spec fn wf(self) -> bool {
        self.address().len() == ADDRESS_LEN
    }
}

/// The fixed total order on identifiers: `ImmutableRef` sorts before
/// `MutableRef` (a design choice this crate documents and keeps); within a
/// variant the address decides first, lexicographically, and the numeric
/// tag second.
pub open spec fn id_cmp(x: IdentifierModel, y: IdentifierModel) -> Ordering {
    match (x, y) {
        (IdentifierModel::ImmutableRef(a), IdentifierModel::ImmutableRef(b)) => lex_cmp_bytes(
            a,
            b,
        ),
        (IdentifierModel::ImmutableRef(_), IdentifierModel::MutableRef(_, _)) => Ordering::Less,
        (IdentifierModel::MutableRef(_, _), IdentifierModel::ImmutableRef(_)) => Ordering::Greater,
        (IdentifierModel::MutableRef(a, s), IdentifierModel::MutableRef(b, t)) => {
            if lex_cmp_bytes(a, b) != Ordering::Equal {
                lex_cmp_bytes(a, b)
            } else if s < t {
                Ordering::Less
            } else if s > t {
                Ordering::Greater
            } else {
                Ordering::Equal
            }
        },
    }
}

/// A discriminated address that uniquely names a stored object without
/// carrying its payload.
///
/// Identifiers are immutable value types: they are created transiently
/// wherever an address is needed, are freely copyable, and compare, order
/// and hash structurally.
#[derive(Debug, Eq, Ord, Hash)]
pub enum Identifier {
    /// Names an immutable object by its content address.
    ImmutableRef(Address),
    /// Names a mutable object by its base address plus a tag that
    /// disambiguates mutable objects sharing the same address space.
    MutableRef(Address, u64),
}

impl View for Identifier {
    type V = IdentifierModel;

    open spec fn view(&self) -> IdentifierModel {
        match self {
            Identifier::ImmutableRef(a) => IdentifierModel::ImmutableRef(a@),
            Identifier::MutableRef(a, t) => IdentifierModel::MutableRef(a@, *t),
        }
    }
}

impl Identifier {
    /// Identifier of the given immutable object: an `ImmutableRef`
    /// carrying the object's content address unchanged.
    pub fn from_immutable(object: &ImmutableObject) -> (r: Identifier)
        ensures
            r@ == IdentifierModel::ImmutableRef(object@.address),
    {
        Identifier::ImmutableRef(object.address().clone())
    }

    /// Identifier of the given mutable object: a `MutableRef` carrying the
    /// object's base address and tag unchanged.
    pub fn from_mutable(object: &MutableObject) -> (r: Identifier)
        ensures
            r@ == IdentifierModel::MutableRef(object@.address, object@.tag),
    {
        Identifier::MutableRef(object.address().clone(), object.tag())
    }

    /// The underlying address, regardless of variant; the tag of a
    /// `MutableRef` is ignored.
    pub fn address(&self) -> (r: &Address)
        ensures
            r@ == self@.address(),
    {
        match self {
            Identifier::ImmutableRef(a) => a,
            Identifier::MutableRef(a, _) => a,
        }
    }
}

impl Clone for Identifier {
    /// The copy carries the same variant, address and tag.
    fn clone(&self) -> (r: Self)
        ensures
            r@ == self@,
    {
        match self {
            Identifier::ImmutableRef(a) => Identifier::ImmutableRef(a.clone()),
            Identifier::MutableRef(a, t) => Identifier::MutableRef(a.clone(), *t),
        }
    }
}

impl PartialEq for Identifier {
    fn eq(&self, other: &Identifier) -> (r: bool) {
        match (self, other) {
            (Identifier::ImmutableRef(a), Identifier::ImmutableRef(b)) => a == b,
            (Identifier::MutableRef(a, s), Identifier::MutableRef(b, t)) => a == b && *s == *t,
            _ => false,
        }
    }
}

impl vstd::std_specs::cmp::PartialEqSpecImpl for Identifier {
    open spec fn obeys_eq_spec() -> bool {
        true
    }

    open spec fn eq_spec(&self, other: &Identifier) -> bool {
        self@ == other@
    }
}

impl PartialOrd for Identifier {
    fn partial_cmp(&self, other: &Identifier) -> (r: Option<Ordering>) {
        match (self, other) {
            (Identifier::ImmutableRef(a), Identifier::ImmutableRef(b)) => a.partial_cmp(b),
            (Identifier::ImmutableRef(_), Identifier::MutableRef(_, _)) => Some(Ordering::Less),
            (Identifier::MutableRef(_, _), Identifier::ImmutableRef(_)) => Some(Ordering::Greater),
            (Identifier::MutableRef(a, s), Identifier::MutableRef(b, t)) => {
                let c = a.partial_cmp(b);
                match c {
                    Some(Ordering::Equal) => {
                        if *s < *t {
                            Some(Ordering::Less)
                        } else if *s > *t {
                            Some(Ordering::Greater)
                        } else {
                            Some(Ordering::Equal)
                        }
                    },
                    _ => c,
                }
            },
        }
    }
}

impl vstd::std_specs::cmp::PartialOrdSpecImpl for Identifier {
    open spec fn obeys_partial_cmp_spec() -> bool {
        true
    }

    open spec fn partial_cmp_spec(&self, other: &Identifier) -> Option<Ordering> {
        Some(id_cmp(self@, other@))
    }
}

/// Law: the identifier derived from an immutable object — an
/// `ImmutableRef` of the object's address, as `Identifier::from_immutable`
/// ensures — carries that address unchanged.
pub proof fn lemma_immutable_identifier_keeps_address(o: ImmutableObjectModel)
    ensures
        IdentifierModel::ImmutableRef(o.address).address() == o.address,
{
}

/// Law: the identifier derived from a mutable object — a `MutableRef` of
/// the object's base address and tag, as `Identifier::from_mutable`
/// ensures — carries both unchanged.
pub proof fn lemma_mutable_identifier_keeps_fields(o: MutableObjectModel)
    ensures
        IdentifierModel::MutableRef(o.address, o.tag).address() == o.address,
        IdentifierModel::MutableRef(o.address, o.tag).tag() == Some(o.tag),
{
}

/// Law: two identifiers of different variants are never equal, even when
/// their address fields coincide.
pub proof fn lemma_cross_variant_unequal(a1: Seq<u8>, a2: Seq<u8>, tag: u64)
    ensures
        IdentifierModel::ImmutableRef(a1) != IdentifierModel::MutableRef(a2, tag),
{
}

/// Law (design choice): every `ImmutableRef` orders before every
/// `MutableRef`, whatever their addresses and tags.
pub proof fn lemma_immutable_orders_first(a1: Seq<u8>, a2: Seq<u8>, tag: u64)
    ensures
        id_cmp(IdentifierModel::ImmutableRef(a1), IdentifierModel::MutableRef(a2, tag))
            == Ordering::Less,
        id_cmp(IdentifierModel::MutableRef(a2, tag), IdentifierModel::ImmutableRef(a1))
            == Ordering::Greater,
{
}

/// Law: two `MutableRef` identifiers with the same address and different
/// tags are unequal and order by the fixed rule — address first, tag
/// second.
pub proof fn lemma_mutable_tag_disambiguates(a: Seq<u8>, t1: u64, t2: u64)
    requires
        t1 < t2,
    ensures
        IdentifierModel::MutableRef(a, t1) != IdentifierModel::MutableRef(a, t2),
        id_cmp(IdentifierModel::MutableRef(a, t1), IdentifierModel::MutableRef(a, t2))
            == Ordering::Less,
        id_cmp(IdentifierModel::MutableRef(a, t2), IdentifierModel::MutableRef(a, t1))
            == Ordering::Greater,
{
    lemma_lex_cmp_equal_iff(a, a);
}

/// Law: the fixed order is consistent with structural equality — it
/// returns `Equal` exactly on equal identifiers.
pub proof fn lemma_id_cmp_equal_iff(x: IdentifierModel, y: IdentifierModel)
    ensures
        id_cmp(x, y) == Ordering::Equal <==> x == y,
{
    match (x, y) {
        (IdentifierModel::ImmutableRef(a), IdentifierModel::ImmutableRef(b)) => {
            lemma_lex_cmp_equal_iff(a, b);
        },
        (IdentifierModel::MutableRef(a, _), IdentifierModel::MutableRef(b, _)) => {
            lemma_lex_cmp_equal_iff(a, b);
        },
        _ => {},
    }
}

} // verus!
