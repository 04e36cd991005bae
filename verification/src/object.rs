//! The two kinds of stored objects, each carried in full.

use vstd::prelude::*;

verus! {

use crate::address::{Address, clone_bytes};

/// Abstract value of an immutable object: its content address and its
/// payload bytes.
#[verifier::ext_equal]
pub struct ImmutableObjectModel {
    pub address: Seq<u8>,
    pub content: Seq<u8>,
}

/// A content-addressed immutable object, in full.
///
/// The address is assumed already computed and attached by the layer that
/// constructs the object: deriving an address from content is the
/// responsibility of that layer, not of this core.
#[derive(Debug)]
pub struct ImmutableObject {
    address: Address,
    content: Vec<u8>,
}

impl View for ImmutableObject {
    type V = ImmutableObjectModel;

    closed spec fn view(&self) -> ImmutableObjectModel {
        ImmutableObjectModel { address: self.address@, content: self.content@ }
    }
}

impl ImmutableObject {
    /// Wraps an address and payload bytes as an immutable object.
    pub fn new(address: Address, content: Vec<u8>) -> (r: ImmutableObject)
        ensures
            r@ == (ImmutableObjectModel { address: address@, content: content@ }),
    {
        ImmutableObject { address, content }
    }

    /// The content address of this object.
    pub fn address(&self) -> (r: &Address)
        ensures
            r@ == self@.address,
    {
        &self.address
    }

    /// The payload bytes of this object.
    pub fn content(&self) -> (r: &Vec<u8>)
        ensures
            r@ == self@.content,
    {
        &self.content
    }
}

impl Clone for ImmutableObject {
    /// The copy carries the same address and the same payload.
    fn clone(&self) -> (r: Self)
        ensures
            r@ == self@,
    {
        ImmutableObject { address: self.address.clone(), content: clone_bytes(&self.content) }
    }
}

/// Abstract value of a mutable object: its base address, its
/// disambiguating tag and its payload bytes.
#[verifier::ext_equal]
pub struct MutableObjectModel {
    pub address: Seq<u8>,
    pub tag: u64,
    pub content: Seq<u8>,
}

/// A versioned mutable object, in full.
///
/// It is identified by a base address plus an unsigned 64-bit tag that
/// disambiguates logically distinct mutable objects sharing the same
/// address space. Its content may be updated in place by other layers
/// while its identity is preserved; this core treats the wrapped payload
/// as data at rest.
#[derive(Debug)]
pub struct MutableObject {
    address: Address,
    tag: u64,
    content: Vec<u8>,
}

impl View for MutableObject {
    type V = MutableObjectModel;

    closed spec fn view(&self) -> MutableObjectModel {
        MutableObjectModel { address: self.address@, tag: self.tag, content: self.content@ }
    }
}

impl MutableObject {
    /// Wraps a base address, a tag and payload bytes as a mutable object.
    pub fn new(address: Address, tag: u64, content: Vec<u8>) -> (r: MutableObject)
        ensures
            r@ == (MutableObjectModel { address: address@, tag: tag, content: content@ }),
    {
        MutableObject { address, tag, content }
    }

    /// The base address of this object.
    pub fn address(&self) -> (r: &Address)
        ensures
            r@ == self@.address,
    {
        &self.address
    }

    /// The disambiguating tag of this object.
    pub fn tag(&self) -> (r: u64)
        ensures
            r == self@.tag,
    {
        self.tag
    }

    /// The payload bytes of this object.
    pub fn content(&self) -> (r: &Vec<u8>)
        ensures
            r@ == self@.content,
    {
        &self.content
    }
}

impl Clone for MutableObject {
    /// The copy carries the same address, tag and payload.
    fn clone(&self) -> (r: Self)
        ensures
            r@ == self@,
    {
        MutableObject {
            address: self.address.clone(),
            tag: self.tag,
            content: clone_bytes(&self.content),
        }
    }
}

} // verus!
