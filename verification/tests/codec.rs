use object_identity::address::Address;
use object_identity::codec::{DecodeError, IMMUTABLE_VARIANT, MUTABLE_VARIANT};
use object_identity::envelope::Envelope;
use object_identity::identifier::Identifier;
use object_identity::object::{ImmutableObject, MutableObject};

fn address_of(bytes: [u8; 32]) -> Address {
    Address::from_bytes(bytes.to_vec()).unwrap()
}

fn counting() -> [u8; 32] {
    let mut b = [0u8; 32];
    let mut i = 0;
    while i < 32 {
        b[i] = i as u8;
        i += 1;
    }
    b
}

#[test]
fn identifier_encoding_is_exact() {
    let imm = Identifier::ImmutableRef(address_of(counting()));
    let mut expected = vec![IMMUTABLE_VARIANT];
    expected.extend_from_slice(&counting());
    assert_eq!(imm.encode(), expected);

    let mt = Identifier::MutableRef(address_of(counting()), 0x0102030405060708);
    let mut expected = vec![MUTABLE_VARIANT];
    expected.extend_from_slice(&counting());
    expected.extend_from_slice(&[8, 7, 6, 5, 4, 3, 2, 1]);
    assert_eq!(mt.encode(), expected);
}

#[test]
fn identifier_round_trips() {
    let imm = Identifier::ImmutableRef(address_of(counting()));
    assert_eq!(Identifier::decode(&imm.encode()).unwrap(), imm);

    let mt = Identifier::MutableRef(address_of(counting()), u64::MAX);
    assert_eq!(Identifier::decode(&mt.encode()).unwrap(), mt);
}

#[test]
fn envelope_encoding_is_exact() {
    let e = Envelope::from(ImmutableObject::new(address_of(counting()), vec![0xAA, 0xBB]));
    let mut expected = vec![IMMUTABLE_VARIANT];
    expected.extend_from_slice(&counting());
    expected.extend_from_slice(&[0xAA, 0xBB]);
    assert_eq!(e.encode(), expected);

    let e = Envelope::from(MutableObject::new(address_of(counting()), 7, vec![0xCC]));
    let mut expected = vec![MUTABLE_VARIANT];
    expected.extend_from_slice(&counting());
    expected.extend_from_slice(&[7, 0, 0, 0, 0, 0, 0, 0]);
    expected.push(0xCC);
    assert_eq!(e.encode(), expected);
}

#[test]
fn envelope_round_trip_preserves_identity() {
    let imm = Envelope::from(ImmutableObject::new(address_of(counting()), vec![1, 2, 3, 4]));
    let back = Envelope::decode(&imm.encode()).unwrap();
    assert_eq!(back.identity(), imm.identity());

    let mt = Envelope::from(MutableObject::new(address_of(counting()), 7, vec![]));
    let back = Envelope::decode(&mt.encode()).unwrap();
    assert_eq!(back.identity(), mt.identity());
}

#[test]
fn envelope_round_trip_preserves_payload() {
    let e = Envelope::from(MutableObject::new(address_of(counting()), 9, vec![5, 6, 7]));
    match Envelope::decode(&e.encode()).unwrap() {
        Envelope::Mutable(o) => {
            assert_eq!(o.address(), &address_of(counting()));
            assert_eq!(o.tag(), 9);
            assert_eq!(o.content().as_slice(), &[5, 6, 7]);
        }
        Envelope::Immutable(_) => panic!("variant changed across the round trip"),
    }
}

#[test]
fn unrecognized_discriminant_is_rejected() {
    let mut bytes = vec![42u8];
    bytes.extend_from_slice(&counting());
    assert_eq!(Identifier::decode(&bytes).unwrap_err(), DecodeError::UnknownVariant);
    assert_eq!(Envelope::decode(&bytes).unwrap_err(), DecodeError::UnknownVariant);
}

#[test]
fn wrong_length_is_rejected() {
    assert_eq!(Identifier::decode(&[]).unwrap_err(), DecodeError::WrongLength);
    assert_eq!(Envelope::decode(&[]).unwrap_err(), DecodeError::WrongLength);

    // An immutable identifier missing its last address byte.
    let mut short = vec![IMMUTABLE_VARIANT];
    short.extend_from_slice(&counting()[..31]);
    assert_eq!(Identifier::decode(&short).unwrap_err(), DecodeError::WrongLength);
    assert_eq!(Envelope::decode(&short).unwrap_err(), DecodeError::WrongLength);

    // A mutable identifier whose tag is truncated.
    let mut truncated = vec![MUTABLE_VARIANT];
    truncated.extend_from_slice(&counting());
    truncated.extend_from_slice(&[1, 2, 3]);
    assert_eq!(Identifier::decode(&truncated).unwrap_err(), DecodeError::WrongLength);
    assert_eq!(Envelope::decode(&truncated).unwrap_err(), DecodeError::WrongLength);

    // Identifier encodings are exact: trailing bytes are not payload.
    let mut long = Identifier::ImmutableRef(address_of(counting())).encode();
    long.push(0);
    assert_eq!(Identifier::decode(&long).unwrap_err(), DecodeError::WrongLength);
}

#[test]
fn envelope_with_empty_payload_is_still_an_envelope() {
    let e = Envelope::from(ImmutableObject::new(address_of(counting()), vec![]));
    let encoded = e.encode();
    assert_eq!(encoded.len(), 33);
    let back = Envelope::decode(&encoded).unwrap();
    assert_eq!(back.identity(), e.identity());
    match back {
        Envelope::Immutable(o) => assert!(o.content().is_empty()),
        Envelope::Mutable(_) => panic!("variant changed across the round trip"),
    }
}
