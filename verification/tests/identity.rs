use object_identity::address::{Address, ADDRESS_LEN};
use object_identity::envelope::Envelope;
use object_identity::identifier::Identifier;
use object_identity::object::{ImmutableObject, MutableObject};

fn address_of(bytes: [u8; 32]) -> Address {
    Address::from_bytes(bytes.to_vec()).unwrap()
}

fn patterned(seed: u8) -> [u8; 32] {
    let mut b = [0u8; 32];
    let mut i = 0;
    while i < 32 {
        b[i] = seed.wrapping_add(i as u8);
        i += 1;
    }
    b
}

#[test]
fn address_rejects_wrong_width() {
    assert!(Address::from_bytes(vec![]).is_none());
    assert!(Address::from_bytes(vec![0u8; ADDRESS_LEN - 1]).is_none());
    assert!(Address::from_bytes(vec![0u8; ADDRESS_LEN + 1]).is_none());
    assert!(Address::from_bytes(vec![0u8; ADDRESS_LEN]).is_some());
}

#[test]
fn address_equality_is_structural() {
    let a = address_of(patterned(3));
    let b = address_of(patterned(3));
    let c = address_of(patterned(4));
    assert_eq!(a, b);
    assert_ne!(a, c);
    assert_eq!(a.bytes().as_slice(), patterned(3).as_slice());
}

#[test]
fn address_orders_lexicographically() {
    let low = address_of(patterned(0));
    let high = address_of(patterned(1));
    assert!(low < high);
    assert!(high > low);
    assert!(low <= address_of(patterned(0)));
}

#[test]
fn immutable_identifier_keeps_address() {
    let a = address_of(patterned(11));
    let o = ImmutableObject::new(a.clone(), vec![1, 2, 3]);
    let id = Identifier::from_immutable(&o);
    assert_eq!(id.address(), o.address());
    assert_eq!(id, Identifier::ImmutableRef(a));
}

#[test]
fn mutable_identifier_keeps_address_and_tag() {
    let a = address_of(patterned(12));
    let o = MutableObject::new(a.clone(), 99, vec![4, 5]);
    let id = Identifier::from_mutable(&o);
    assert_eq!(id.address(), o.address());
    assert_eq!(o.tag(), 99);
    assert_eq!(id, Identifier::MutableRef(a, 99));
}

#[test]
fn identity_is_stable_across_calls() {
    let a = address_of(patterned(20));
    let e = Envelope::from(MutableObject::new(a, 5, vec![9, 9, 9]));
    let first = e.identity();
    let second = e.identity();
    assert_eq!(first, second);
}

#[test]
fn wrap_immutable_object_yields_immutable_ref() {
    let a1 = address_of(patterned(0x41));
    let e = Envelope::from(ImmutableObject::new(a1.clone(), vec![7, 7]));
    assert_eq!(e.identity(), Identifier::ImmutableRef(a1));
}

#[test]
fn wrap_mutable_object_yields_mutable_ref_with_tag() {
    let a2 = address_of(patterned(0x42));
    let e = Envelope::from(MutableObject::new(a2.clone(), 7, vec![8]));
    assert_eq!(e.identity(), Identifier::MutableRef(a2, 7));
}

#[test]
fn different_variants_never_equal() {
    let a = address_of(patterned(30));
    let imm = Identifier::ImmutableRef(a.clone());
    let mt = Identifier::MutableRef(a, 0);
    assert_ne!(imm, mt);
    assert_ne!(mt, imm);
}

#[test]
fn same_address_different_tags_unequal_and_ordered() {
    let a = address_of(patterned(31));
    let t1 = Identifier::MutableRef(a.clone(), 1);
    let t2 = Identifier::MutableRef(a, 2);
    assert_ne!(t1, t2);
    assert!(t1 < t2);
    assert!(t2 > t1);
}

#[test]
fn mutable_order_is_address_first_tag_second() {
    let low = address_of(patterned(0));
    let high = address_of(patterned(1));
    // A smaller address wins even against a larger tag.
    assert!(Identifier::MutableRef(low.clone(), 100) < Identifier::MutableRef(high, 1));
    assert!(Identifier::MutableRef(low.clone(), 1) < Identifier::MutableRef(low, 100));
}

#[test]
fn immutable_orders_before_mutable() {
    let low = address_of(patterned(0));
    let high = address_of(patterned(1));
    // The variant decides before the address does.
    assert!(Identifier::ImmutableRef(high) < Identifier::MutableRef(low, 0));
}

#[test]
fn identifiers_work_as_map_keys() {
    let a = address_of(patterned(50));
    let b = address_of(patterned(51));
    let mut catalog = std::collections::BTreeMap::new();
    catalog.insert(Identifier::ImmutableRef(a.clone()), "immutable");
    catalog.insert(Identifier::MutableRef(a.clone(), 1), "mutable one");
    catalog.insert(Identifier::MutableRef(a.clone(), 2), "mutable two");
    assert_eq!(catalog.len(), 3);
    assert_eq!(catalog.get(&Identifier::MutableRef(a, 1)), Some(&"mutable one"));
    assert_eq!(catalog.get(&Identifier::ImmutableRef(b)), None);
}

#[test]
fn clones_carry_the_same_value() {
    let a = address_of(patterned(60));
    let id = Identifier::MutableRef(a.clone(), 4);
    assert_eq!(id.clone(), id);
    let e = Envelope::from(ImmutableObject::new(a, vec![1, 2, 3]));
    let copy = e.clone();
    assert_eq!(copy.identity(), e.identity());
}

#[test]
fn object_accessors_return_what_was_wrapped() {
    let a = address_of(patterned(70));
    let imm = ImmutableObject::new(a.clone(), vec![10, 20]);
    assert_eq!(imm.address(), &a);
    assert_eq!(imm.content().as_slice(), &[10, 20]);
    let mt = MutableObject::new(a.clone(), 3, vec![30]);
    assert_eq!(mt.address(), &a);
    assert_eq!(mt.tag(), 3);
    assert_eq!(mt.content().as_slice(), &[30]);
}
