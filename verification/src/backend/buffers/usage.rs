//! What a buffer may be used for.

use vstd::prelude::*;

verus! {

/// The capabilities that operations of this layer ask of a buffer.
#[derive(Copy, Clone, Debug, Hash, PartialEq, Eq)]
pub enum Capability {
    /// The buffer can be mapped for the host to read.
    MapRead,
    /// The buffer can be mapped for the host to write.
    MapWrite,
    /// The buffer can be the source of a copy.
    CopySrc,
    /// The buffer can be the destination of a copy.
    CopyDst,
}

impl Capability {
    /// The flag of this capability in a buffer's usage bits.
    pub open spec fn bit(self) -> u32 {
        match self {
            Capability::MapRead => 1,
            Capability::MapWrite => 2,
            Capability::CopySrc => 4,
            Capability::CopyDst => 8,
        }
    }
}

/// The flag that the device API has for `capability`, as bits.
///
/// Trusted: the body reads the constant of `wgpu::BufferUsages` with its
/// `bits` method. The contract states the values that `wgpu-types` declares:
/// `MAP_READ` is `1 << 0`, `MAP_WRITE` is `1 << 1`, `COPY_SRC` is `1 << 2` and
/// `COPY_DST` is `1 << 3`.
#[verifier::external_body]
fn flag_bits(capability: Capability) -> (bits: u32)
    ensures
        bits == capability.bit(),
{
    let flag = match capability {
        Capability::MapRead => wgpu::BufferUsages::MAP_READ,
        Capability::MapWrite => wgpu::BufferUsages::MAP_WRITE,
        Capability::CopySrc => wgpu::BufferUsages::COPY_SRC,
        Capability::CopyDst => wgpu::BufferUsages::COPY_DST,
    };
    flag.bits()
}

/// The usage flags of a buffer, in the bit layout of the device API. They are
/// fixed when the buffer is created and decide which operations it allows.
#[derive(Copy, Clone, Debug, Hash, PartialEq, Eq)]
pub struct BufferUsages {
    pub bits: u32,
}

impl BufferUsages {
    /// Whether these flags grant `capability`.
    pub open spec fn has(self, capability: Capability) -> bool {
        self.bits & capability.bit() == capability.bit()
    }

    /// The flags with the given bits.
    pub fn from_bits(bits: u32) -> (usage: BufferUsages)
        ensures
            usage.bits == bits,
    {
        BufferUsages { bits }
    }

    /// The flags that grant `capability` and nothing else.
    pub fn of(capability: Capability) -> (usage: BufferUsages)
        ensures
            usage.bits == capability.bit(),
    {
        BufferUsages { bits: flag_bits(capability) }
    }

    /// The flags of `self` together with those of `other`.
    pub fn union(self, other: BufferUsages) -> (usage: BufferUsages)
        ensures
            usage.bits == self.bits | other.bits,
    {
        BufferUsages { bits: self.bits | other.bits }
    }

    /// Tells whether every flag of `other` is among these flags.
    pub fn contains(&self, other: BufferUsages) -> (r: bool)
        ensures
            r == (self.bits & other.bits == other.bits),
    {
        self.bits & other.bits == other.bits
    }

    /// Tells whether these flags grant `capability`.
    pub fn allows(&self, capability: Capability) -> (r: bool)
        ensures
            r == self.has(capability),
    {
        let flag: u32 = flag_bits(capability);
        self.bits & flag == flag
    }
}

/// Flags that hold the flag of a capability grant it, and the union of two
/// flag sets grants what either of them grants.
pub proof fn lemma_union_grants(a: BufferUsages, b: BufferUsages, capability: Capability)
    ensures
        (BufferUsages { bits: capability.bit() }).has(capability),
        (BufferUsages { bits: a.bits | b.bits }).has(capability) <==> (a.has(capability) || b.has(
            capability,
        )),
{
    let x: u32 = a.bits;
    let y: u32 = b.bits;
    let f: u32 = capability.bit();
    assert(f & f == f) by (bit_vector);
    assert(f == 1 || f == 2 || f == 4 || f == 8);
    assert((f == 1 || f == 2 || f == 4 || f == 8) ==> (((x | y) & f == f) <==> ((x & f == f) || (y
        & f == f)))) by (bit_vector);
}

} // verus!
