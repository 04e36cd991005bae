//! Deterministic byte encoding of identifiers and envelopes.
//!
//! The encoding is the variant discriminant in one leading byte, then the
//! address, then — for the mutable variant — the tag in little-endian
//! order, then — for envelopes — the payload bytes. Decoding accepts
//! exactly the canonical images of `encode` and rejects everything else
//! with a [`DecodeError`]; an unrecognized discriminant is never coerced
//! into a default variant.

use vstd::prelude::*;

verus! {

use vstd::bytes::{
    lemma_auto_spec_u64_to_from_le_bytes,
    spec_u64_from_le_bytes,
    spec_u64_to_le_bytes,
    u64_from_le_bytes,
    u64_to_le_bytes,
};
use vstd::slice::{slice_index_get, slice_subrange, slice_to_vec};
use crate::address::{ADDRESS_LEN, Address};
use crate::envelope::{Envelope, EnvelopeModel};
use crate::identifier::{Identifier, IdentifierModel};
use crate::object::{ImmutableObject, MutableObject};

/// Leading byte of everything immutable.
pub const IMMUTABLE_VARIANT: u8 = 0;

/// Leading byte of everything mutable.
pub const MUTABLE_VARIANT: u8 = 1;

/// Exact length of an encoded `ImmutableRef` identifier; also the least
/// length of an encoded immutable envelope.
pub const IMMUTABLE_REF_LEN: usize = 1 + ADDRESS_LEN;

/// Exact length of an encoded `MutableRef` identifier; also the least
/// length of an encoded mutable envelope.
pub const MUTABLE_REF_LEN: usize = 1 + ADDRESS_LEN + 8;

/// Why a byte sequence was rejected by decoding.
#[derive(Clone, Copy, Debug, PartialEq, Eq, Structural)]
pub enum DecodeError {
    /// The leading byte is not a recognized variant discriminant.
    UnknownVariant,
    /// The input is empty or its length fits no encoding of the variant
    /// its leading byte names.
    WrongLength,
}

/// The encoding of an identifier.
pub open spec fn spec_encode_identifier(m: IdentifierModel) -> Seq<u8> {
    match m {
        IdentifierModel::ImmutableRef(a) => seq![IMMUTABLE_VARIANT] + a,
        IdentifierModel::MutableRef(a, t) => seq![MUTABLE_VARIANT] + a + spec_u64_to_le_bytes(t),
    }
}

/// The identifier a byte sequence encodes, if any: the shape must match
/// one of the two variants exactly.
pub open spec fn spec_decode_identifier(s: Seq<u8>) -> Option<IdentifierModel> {
    if s.len() == IMMUTABLE_REF_LEN && s[0] == IMMUTABLE_VARIANT {
        Some(IdentifierModel::ImmutableRef(s.subrange(1, 1 + ADDRESS_LEN as int)))
    } else if s.len() == MUTABLE_REF_LEN && s[0] == MUTABLE_VARIANT {
        Some(
            IdentifierModel::MutableRef(
                s.subrange(1, 1 + ADDRESS_LEN as int),
                spec_u64_from_le_bytes(
                    s.subrange(1 + ADDRESS_LEN as int, 1 + ADDRESS_LEN as int + 8),
                ),
            ),
        )
    } else {
        None
    }
}

/// The error decoding reports for a byte sequence nothing encodes to: an
/// unrecognized leading discriminant is reported as such; any other
/// mismatch is one of length.
pub open spec fn spec_decode_error(s: Seq<u8>) -> DecodeError {
    if s.len() > 0 && s[0] != IMMUTABLE_VARIANT && s[0] != MUTABLE_VARIANT {
        DecodeError::UnknownVariant
    } else {
        DecodeError::WrongLength
    }
}

/// Law: decoding inverts encoding on every identifier whose address has
/// the fixed width (every `Address` value does).
pub proof fn lemma_identifier_round_trip(m: IdentifierModel)
    requires
        m.wf(),
    ensures
        spec_decode_identifier(spec_encode_identifier(m)) == Some(m),
{
    lemma_auto_spec_u64_to_from_le_bytes();
    match m {
        IdentifierModel::ImmutableRef(a) => {
            let e = spec_encode_identifier(m);
            assert(e[0] == IMMUTABLE_VARIANT);
            assert(e.subrange(1, 1 + ADDRESS_LEN as int) =~= a);
        },
        IdentifierModel::MutableRef(a, t) => {
            let e = spec_encode_identifier(m);
            assert(e[0] == MUTABLE_VARIANT);
            assert(e.subrange(1, 1 + ADDRESS_LEN as int) =~= a);
            assert(e.subrange(1 + ADDRESS_LEN as int, 1 + ADDRESS_LEN as int + 8)
                =~= spec_u64_to_le_bytes(t));
        },
    }
}

/// Law: a byte sequence that decodes to an identifier is exactly that
/// identifier's encoding — decoding loses nothing and accepts only
/// canonical images.
pub proof fn lemma_identifier_decode_inverts_encode(s: Seq<u8>, m: IdentifierModel)
    requires
        spec_decode_identifier(s) == Some(m),
    ensures
        m.wf(),
        spec_encode_identifier(m) == s,
{
    lemma_auto_spec_u64_to_from_le_bytes();
    assert(spec_encode_identifier(m) =~= s);
}

/// Law: the encoding is injective on identifiers whose address has the
/// fixed width, so the encoded form can serve as a lookup key without
/// ambiguity.
pub proof fn lemma_identifier_encoding_injective(m1: IdentifierModel, m2: IdentifierModel)
    requires
        m1.wf(),
        m2.wf(),
        spec_encode_identifier(m1) == spec_encode_identifier(m2),
    ensures
        m1 == m2,
{
    lemma_identifier_round_trip(m1);
    lemma_identifier_round_trip(m2);
}

impl Identifier {
    /// Encodes this identifier as bytes. Decoding the result yields this
    /// identifier back.
    pub fn encode(&self) -> (r: Vec<u8>)
        ensures
            r@ == spec_encode_identifier(self@),
            spec_decode_identifier(r@) == Some(self@),
    {
        let mut out: Vec<u8> = Vec::new();
        match self {
            Identifier::ImmutableRef(a) => {
                proof {
                    use_type_invariant(a);
                }
                out.push(IMMUTABLE_VARIANT);
                let mut address_bytes = slice_to_vec(a.bytes().as_slice());
                out.append(&mut address_bytes);
                proof {
                    assert(out@ =~= seq![IMMUTABLE_VARIANT] + a@);
                    lemma_identifier_round_trip(self@);
                }
            },
            Identifier::MutableRef(a, t) => {
                proof {
                    use_type_invariant(a);
                }
                out.push(MUTABLE_VARIANT);
                let mut address_bytes = slice_to_vec(a.bytes().as_slice());
                out.append(&mut address_bytes);
                let mut tag_bytes = u64_to_le_bytes(*t);
                out.append(&mut tag_bytes);
                proof {
                    assert(out@ =~= seq![MUTABLE_VARIANT] + a@ + spec_u64_to_le_bytes(*t));
                    lemma_identifier_round_trip(self@);
                }
            },
        }
        out
    }

    /// Decodes an identifier from bytes. Exactly the sequences `encode`
    /// produces are accepted; any other input is rejected with the error
    /// [`spec_decode_error`] names.
    pub fn decode(bytes: &[u8]) -> (r: Result<Identifier, DecodeError>)
        ensures
            spec_decode_identifier(bytes@) matches Some(m) ==> (r matches Ok(id) && id@ == m),
            spec_decode_identifier(bytes@) is None ==> (r matches Err(e) && e == spec_decode_error(
                bytes@,
            )),
    {
        if bytes.len() == 0 {
            return Err(DecodeError::WrongLength);
        }
        let variant = *slice_index_get(bytes, 0);
        if variant == IMMUTABLE_VARIANT {
            if bytes.len() != IMMUTABLE_REF_LEN {
                return Err(DecodeError::WrongLength);
            }
            let address = Address::from_exact_bytes(
                slice_to_vec(slice_subrange(bytes, 1, IMMUTABLE_REF_LEN)),
            );
            Ok(Identifier::ImmutableRef(address))
        } else if variant == MUTABLE_VARIANT {
            if bytes.len() != MUTABLE_REF_LEN {
                return Err(DecodeError::WrongLength);
            }
            let address = Address::from_exact_bytes(
                slice_to_vec(slice_subrange(bytes, 1, IMMUTABLE_REF_LEN)),
            );
            let tag = u64_from_le_bytes(slice_subrange(bytes, IMMUTABLE_REF_LEN, MUTABLE_REF_LEN));
            Ok(Identifier::MutableRef(address, tag))
        } else {
            Err(DecodeError::UnknownVariant)
        }
    }
}

/// The encoding of an envelope: as the identifier's, with the payload
/// bytes appended.
pub open spec fn spec_encode_envelope(m: EnvelopeModel) -> Seq<u8> {
    match m {
        EnvelopeModel::Immutable(o) => seq![IMMUTABLE_VARIANT] + o.address + o.content,
        EnvelopeModel::Mutable(o) => seq![MUTABLE_VARIANT] + o.address + spec_u64_to_le_bytes(o.tag)
            + o.content,
    }
}

/// The envelope a byte sequence encodes, if any: after the discriminant,
/// the address (and tag, for the mutable variant), the rest is payload.
pub open spec fn spec_decode_envelope(s: Seq<u8>) -> Option<EnvelopeModel> {
    if s.len() >= IMMUTABLE_REF_LEN && s[0] == IMMUTABLE_VARIANT {
        Some(
            EnvelopeModel::Immutable(
                crate::object::ImmutableObjectModel {
                    address: s.subrange(1, 1 + ADDRESS_LEN as int),
                    content: s.subrange(1 + ADDRESS_LEN as int, s.len() as int),
                },
            ),
        )
    } else if s.len() >= MUTABLE_REF_LEN && s[0] == MUTABLE_VARIANT {
        Some(
            EnvelopeModel::Mutable(
                crate::object::MutableObjectModel {
                    address: s.subrange(1, 1 + ADDRESS_LEN as int),
                    tag: spec_u64_from_le_bytes(
                        s.subrange(1 + ADDRESS_LEN as int, 1 + ADDRESS_LEN as int + 8),
                    ),
                    content: s.subrange(1 + ADDRESS_LEN as int + 8, s.len() as int),
                },
            ),
        )
    } else {
        None
    }
}

/// Law: serialization round-trips — decoding an encoded envelope yields an
/// envelope with the same abstract value, and so in particular the same
/// identity, whenever the address has the fixed width (every `Address`
/// value does).
pub proof fn lemma_envelope_round_trip(m: EnvelopeModel)
    requires
        m.wf(),
    ensures
        spec_decode_envelope(spec_encode_envelope(m)) == Some(m),
        spec_decode_envelope(spec_encode_envelope(m)) matches Some(d) && d.identity()
            == m.identity(),
{
    lemma_auto_spec_u64_to_from_le_bytes();
    match m {
        EnvelopeModel::Immutable(o) => {
            let e = spec_encode_envelope(m);
            assert(e[0] == IMMUTABLE_VARIANT);
            assert(e.subrange(1, 1 + ADDRESS_LEN as int) =~= o.address);
            assert(e.subrange(1 + ADDRESS_LEN as int, e.len() as int) =~= o.content);
        },
        EnvelopeModel::Mutable(o) => {
            let e = spec_encode_envelope(m);
            assert(e[0] == MUTABLE_VARIANT);
            assert(e.subrange(1, 1 + ADDRESS_LEN as int) =~= o.address);
            assert(e.subrange(1 + ADDRESS_LEN as int, 1 + ADDRESS_LEN as int + 8)
                =~= spec_u64_to_le_bytes(o.tag));
            assert(e.subrange(1 + ADDRESS_LEN as int + 8, e.len() as int) =~= o.content);
        },
    }
}

/// Law: a byte sequence that decodes to an envelope is exactly that
/// envelope's encoding — decoding loses nothing and accepts only
/// canonical images.
pub proof fn lemma_envelope_decode_inverts_encode(s: Seq<u8>, m: EnvelopeModel)
    requires
        spec_decode_envelope(s) == Some(m),
    ensures
        m.wf(),
        spec_encode_envelope(m) == s,
{
    lemma_auto_spec_u64_to_from_le_bytes();
    assert(spec_encode_envelope(m) =~= s);
}

/// Law: the encoding is injective on envelopes whose address has the
/// fixed width — distinct envelopes never share an encoding.
pub proof fn lemma_envelope_encoding_injective(m1: EnvelopeModel, m2: EnvelopeModel)
    requires
        m1.wf(),
        m2.wf(),
        spec_encode_envelope(m1) == spec_encode_envelope(m2),
    ensures
        m1 == m2,
{
    lemma_envelope_round_trip(m1);
    lemma_envelope_round_trip(m2);
}

impl Envelope {
    /// Encodes this envelope as bytes. Decoding the result yields an
    /// envelope with the same abstract value, and so the same identity.
    pub fn encode(&self) -> (r: Vec<u8>)
        ensures
            r@ == spec_encode_envelope(self@),
            spec_decode_envelope(r@) == Some(self@),
    {
        let mut out: Vec<u8> = Vec::new();
        match self {
            Envelope::Immutable(o) => {
                let a = o.address();
                proof {
                    use_type_invariant(a);
                }
                out.push(IMMUTABLE_VARIANT);
                let mut address_bytes = slice_to_vec(a.bytes().as_slice());
                out.append(&mut address_bytes);
                let mut content_bytes = slice_to_vec(o.content().as_slice());
                out.append(&mut content_bytes);
                proof {
                    assert(out@ =~= seq![IMMUTABLE_VARIANT] + self@->Immutable_0.address
                        + self@->Immutable_0.content);
                    lemma_envelope_round_trip(self@);
                }
            },
            Envelope::Mutable(o) => {
                let a = o.address();
                proof {
                    use_type_invariant(a);
                }
                out.push(MUTABLE_VARIANT);
                let mut address_bytes = slice_to_vec(a.bytes().as_slice());
                out.append(&mut address_bytes);
                let mut tag_bytes = u64_to_le_bytes(o.tag());
                out.append(&mut tag_bytes);
                let mut content_bytes = slice_to_vec(o.content().as_slice());
                out.append(&mut content_bytes);
                proof {
                    assert(out@ =~= seq![MUTABLE_VARIANT] + self@->Mutable_0.address
                        + spec_u64_to_le_bytes(self@->Mutable_0.tag) + self@->Mutable_0.content);
                    lemma_envelope_round_trip(self@);
                }
            },
        }
        out
    }

    /// Decodes an envelope from bytes. Exactly the sequences `encode`
    /// produces are accepted; any other input is rejected with the error
    /// [`spec_decode_error`] names.
    pub fn decode(bytes: &[u8]) -> (r: Result<Envelope, DecodeError>)
        ensures
            spec_decode_envelope(bytes@) matches Some(m) ==> (r matches Ok(e) && e@ == m),
            spec_decode_envelope(bytes@) is None ==> (r matches Err(e) && e == spec_decode_error(
                bytes@,
            )),
    {
        if bytes.len() == 0 {
            return Err(DecodeError::WrongLength);
        }
        let variant = *slice_index_get(bytes, 0);
        if variant == IMMUTABLE_VARIANT {
            if bytes.len() < IMMUTABLE_REF_LEN {
                return Err(DecodeError::WrongLength);
            }
            let address = Address::from_exact_bytes(
                slice_to_vec(slice_subrange(bytes, 1, IMMUTABLE_REF_LEN)),
            );
            let content = slice_to_vec(slice_subrange(bytes, IMMUTABLE_REF_LEN, bytes.len()));
            Ok(Envelope::Immutable(ImmutableObject::new(address, content)))
        } else if variant == MUTABLE_VARIANT {
            if bytes.len() < MUTABLE_REF_LEN {
                return Err(DecodeError::WrongLength);
            }
            let address = Address::from_exact_bytes(
                slice_to_vec(slice_subrange(bytes, 1, IMMUTABLE_REF_LEN)),
            );
            let tag = u64_from_le_bytes(slice_subrange(bytes, IMMUTABLE_REF_LEN, MUTABLE_REF_LEN));
            let content = slice_to_vec(slice_subrange(bytes, MUTABLE_REF_LEN, bytes.len()));
            Ok(Envelope::Mutable(MutableObject::new(address, tag, content)))
        } else {
            Err(DecodeError::UnknownVariant)
        }
    }
}

} // verus!
