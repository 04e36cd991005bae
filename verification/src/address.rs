//! Fixed-width addresses of stored objects.

use vstd::prelude::*;

verus! {

use core::cmp::Ordering;
use vstd::std_specs::cmp::PartialEqSpec;

/// Width in bytes of every address.
pub const ADDRESS_LEN: usize = 32;

/// A fixed-width value that names a storage location or content hash.
///
/// An address is an immutable value: once built it always holds exactly
/// [`ADDRESS_LEN`] bytes. Addresses compare structurally, byte for byte,
/// and order lexicographically over their bytes.
#[derive(Debug, Eq, Ord, Hash)]
pub struct Address {
    bytes: Vec<u8>,
}

impl View for Address {
    type V = Seq<u8>;

    closed spec fn view(&self) -> Seq<u8> {
        self.bytes@
    }
}

impl Address {
    /// Every address holds exactly [`ADDRESS_LEN`] bytes.
    #[verifier::type_invariant]
    pub open spec fn wf(self) -> bool {
        self@.len() == ADDRESS_LEN
    }

    /// Builds an address from exactly [`ADDRESS_LEN`] bytes; any other
    /// length is rejected.
    pub fn from_bytes(bytes: Vec<u8>) -> (r: Option<Address>)
        ensures
            bytes@.len() == ADDRESS_LEN ==> (r matches Some(a) && a@ == bytes@),
            bytes@.len() != ADDRESS_LEN ==> r is None,
    {
        if bytes.len() == ADDRESS_LEN {
            Some(Address { bytes })
        } else {
            None
        }
    }

    /// Builds an address from bytes already known to have the right width.
    pub(crate) fn from_exact_bytes(bytes: Vec<u8>) -> (r: Address)
        requires
            bytes@.len() == ADDRESS_LEN,
        ensures
            r@ == bytes@,
    {
        Address { bytes }
    }

    /// The bytes of this address.
    pub fn bytes(&self) -> (r: &Vec<u8>)
        ensures
            r@ == self@,
    {
        &self.bytes
    }
}

/// Duplicates a byte buffer; the copy holds exactly the same bytes.
pub(crate) fn clone_bytes(v: &Vec<u8>) -> (r: Vec<u8>)
    ensures
        r@ == v@,
{
    let r = v.clone();
    proof {
        assert forall|i: int| 0 <= i < v@.len() implies r@[i] == v@[i] by {
            assert(cloned::<u8>(v[i], r[i]));
        }
        assert(r@ =~= v@);
    }
    r
}

impl Clone for Address {
    /// The copy holds exactly the same bytes.
    fn clone(&self) -> (r: Self)
        ensures
            r@ == self@,
    {
        proof {
            use_type_invariant(self);
        }
        Address { bytes: clone_bytes(&self.bytes) }
    }
}

impl PartialEq for Address {
    fn eq(&self, other: &Address) -> (r: bool) {
        let r = self.bytes == other.bytes;
        proof {
            if r {
                assert(self.bytes@ =~= other.bytes@);
            } else if self@ == other@ {
                assert forall|i: int| 0 <= i < self.bytes@.len() implies self.bytes[i].eq_spec(
                    &other.bytes[i],
                ) by {
                    assert(self.bytes@[i] == other.bytes@[i]);
                }
                assert(false);
            }
        }
        r
    }
}

impl vstd::std_specs::cmp::PartialEqSpecImpl for Address {
    open spec fn obeys_eq_spec() -> bool {
        true
    }

    open spec fn eq_spec(&self, other: &Address) -> bool {
        self@ == other@
    }
}

/// Lexicographic comparison of two byte sequences: the first differing
/// byte decides; a proper prefix sorts before any of its extensions.
pub open spec fn lex_cmp_bytes(a: Seq<u8>, b: Seq<u8>) -> Ordering
    decreases a.len(),
{
    if a.len() == 0 && b.len() == 0 {
        Ordering::Equal
    } else if a.len() == 0 {
        Ordering::Less
    } else if b.len() == 0 {
        Ordering::Greater
    } else if a[0] < b[0] {
        Ordering::Less
    } else if a[0] > b[0] {
        Ordering::Greater
    } else {
        lex_cmp_bytes(a.subrange(1, a.len() as int), b.subrange(1, b.len() as int))
    }
}

/// Lexicographic comparison returns `Equal` exactly on equal sequences.
pub proof fn lemma_lex_cmp_equal_iff(a: Seq<u8>, b: Seq<u8>)
    ensures
        lex_cmp_bytes(a, b) == Ordering::Equal <==> a == b,
    decreases a.len(),
{
    if a.len() == 0 && b.len() == 0 {
        assert(a =~= b);
    } else if a.len() == 0 || b.len() == 0 {
        assert(a != b);
    } else if a[0] != b[0] {
        assert(a != b);
    } else {
        let ta = a.subrange(1, a.len() as int);
        let tb = b.subrange(1, b.len() as int);
        lemma_lex_cmp_equal_iff(ta, tb);
        if ta == tb {
            assert forall|i: int| 0 <= i < a.len() implies a[i] == b[i] by {
                if i > 0 {
                    assert(ta[i - 1] == a[i]);
                    assert(tb[i - 1] == b[i]);
                }
            }
            assert(a =~= b);
        }
        if a == b {
            assert(ta =~= tb);
        }
    }
}

impl PartialOrd for Address {
    fn partial_cmp(&self, other: &Address) -> (r: Option<Ordering>) {
        proof {
            use_type_invariant(self);
            use_type_invariant(other);
            assert(self.bytes@.subrange(0, self.bytes@.len() as int) =~= self.bytes@);
            assert(other.bytes@.subrange(0, other.bytes@.len() as int) =~= other.bytes@);
        }
        let n = self.bytes.len();
        let mut i: usize = 0;
        while i < n
            invariant
                i <= n,
                n == self.bytes@.len(),
                n == other.bytes@.len(),
                lex_cmp_bytes(self@, other@) == lex_cmp_bytes(
                    self.bytes@.subrange(i as int, n as int),
                    other.bytes@.subrange(i as int, n as int),
                ),
            decreases n - i,
        {
            let ghost sa = self.bytes@.subrange(i as int, n as int);
            let ghost sb = other.bytes@.subrange(i as int, n as int);
            let x = self.bytes[i];
            let y = other.bytes[i];
            proof {
                assert(sa[0] == x);
                assert(sb[0] == y);
            }
            if x < y {
                return Some(Ordering::Less);
            }
            if x > y {
                return Some(Ordering::Greater);
            }
            proof {
                assert(sa.subrange(1, sa.len() as int) =~= self.bytes@.subrange(
                    i + 1 as int,
                    n as int,
                ));
                assert(sb.subrange(1, sb.len() as int) =~= other.bytes@.subrange(
                    i + 1 as int,
                    n as int,
                ));
            }
            i = i + 1;
        }
        proof {
            assert(self.bytes@.subrange(n as int, n as int).len() == 0);
            assert(other.bytes@.subrange(n as int, n as int).len() == 0);
        }
        Some(Ordering::Equal)
    }
}

impl vstd::std_specs::cmp::PartialOrdSpecImpl for Address {
    open spec fn obeys_partial_cmp_spec() -> bool {
        true
    }

    open spec fn partial_cmp_spec(&self, other: &Address) -> Option<Ordering> {
        Some(lex_cmp_bytes(self@, other@))
    }
}

} // verus!
