//! Outgoing packets and their delivery flags.

use vstd::prelude::*;

verus! {

/// Engine bit for reliable, sequenced delivery.
pub const FLAG_RELIABLE: u32 = 1;

/// Engine bit for unsequenced delivery.
pub const FLAG_UNSEQUENCED: u32 = 2;

/// Engine bit for a packet whose bytes are supplied, not copied.
pub const FLAG_NO_ALLOCATE: u32 = 4;

/// Engine bit for a packet that may be split in unreliable fragments.
pub const FLAG_UNRELIABLE_FRAGMENT: u32 = 8;

/// Every bit that a `Flags` value may hold.
pub const FLAGS_ALL: u32 = 15;

/// Delivery flags of an outgoing packet.
///
/// No flag set means unreliable, sequenced delivery. The bits are those of
/// the engine, so that a value passes through unchanged.
#[derive(Clone, Copy, Debug, PartialEq, Eq, Structural)]
pub struct Flags {
    bits: u32,
}

impl View for Flags {
    type V = u32;

    closed spec fn view(&self) -> u32 {
        self.bits
    }
}

impl Flags {
    /// A flag word holds no bit outside the four known ones.
    pub open spec fn wf(&self) -> bool {
        self@ & !FLAGS_ALL == 0
    }

    /// No flag: unreliable, sequenced delivery.
    pub fn empty() -> (r: Flags)
        ensures
            r@ == 0,
            r.wf(),
    {
        let r = Flags { bits: 0 };
        assert(0u32 & !15u32 == 0) by (bit_vector);
        r
    }

    /// Reliable, sequenced delivery.
    pub fn reliable() -> (r: Flags)
        ensures
            r@ == FLAG_RELIABLE,
            r.wf(),
    {
        assert(1u32 & !15u32 == 0) by (bit_vector);
        Flags { bits: FLAG_RELIABLE }
    }

    /// Unsequenced delivery.
    pub fn unsequenced() -> (r: Flags)
        ensures
            r@ == FLAG_UNSEQUENCED,
            r.wf(),
    {
        assert(2u32 & !15u32 == 0) by (bit_vector);
        Flags { bits: FLAG_UNSEQUENCED }
    }

    /// Bytes are supplied by the caller and not copied by the engine.
    pub fn no_allocate() -> (r: Flags)
        ensures
            r@ == FLAG_NO_ALLOCATE,
            r.wf(),
    {
        assert(4u32 & !15u32 == 0) by (bit_vector);
        Flags { bits: FLAG_NO_ALLOCATE }
    }

    /// The packet is fragmented, unreliably, when it exceeds the datagram size.
    pub fn unreliable_fragment() -> (r: Flags)
        ensures
            r@ == FLAG_UNRELIABLE_FRAGMENT,
            r.wf(),
    {
        assert(8u32 & !15u32 == 0) by (bit_vector);
        Flags { bits: FLAG_UNRELIABLE_FRAGMENT }
    }

    /// The engine's flag word.
    pub fn bits(&self) -> (r: u32)
        ensures
            r == self@,
    {
        self.bits
    }

    /// The flags of a word, or `None` if the word holds an unknown bit.
    pub fn from_bits(bits: u32) -> (r: Option<Flags>)
        ensures
            r is Some <==> bits & !FLAGS_ALL == 0,
            r matches Some(f) ==> f@ == bits && f.wf(),
    {
        if bits & !FLAGS_ALL == 0 {
            Some(Flags { bits })
        } else {
            None
        }
    }

    /// Every flag set in either operand.
    pub fn union(self, other: Flags) -> (r: Flags)
        requires
            self.wf(),
            other.wf(),
        ensures
            r@ == self@ | other@,
            r.wf(),
    {
        let a = self.bits;
        let b = other.bits;
        assert((a | b) & !15u32 == 0) by (bit_vector)
            requires
                a & !15u32 == 0,
                b & !15u32 == 0,
        ;
        Flags { bits: a | b }
    }

    /// Whether every flag of `other` is set here.
    pub fn contains(&self, other: Flags) -> (r: bool)
        ensures
            r == (self@ & other@ == other@),
    {
        self.bits & other.bits == other.bits
    }

    /// Whether no flag is set.
    pub fn is_empty(&self) -> (r: bool)
        ensures
            r == (self@ == 0),
    {
        self.bits == 0
    }
}

/// An outgoing packet.
///
/// `Allocate` has the engine copy the bytes, so the caller's buffer may be
/// dropped right after the call. `NoAllocate` hands the engine the buffer
/// itself, which must therefore live for the whole process.
#[derive(Clone, Copy, Debug)]
pub enum Packet<'a> {
    Allocate { bytes: &'a [u8], flags: Flags },
    NoAllocate { bytes: &'static [u8], flags: Flags },
}

impl<'a> Packet<'a> {
    /// The packet's bytes.
    pub open spec fn spec_bytes(&self) -> Seq<u8> {
        match self {
            Packet::Allocate { bytes, .. } => bytes@,
            Packet::NoAllocate { bytes, .. } => bytes@,
        }
    }

    /// The flags the caller gave.
    pub open spec fn spec_flags(&self) -> Flags {
        match self {
            Packet::Allocate { flags, .. } => *flags,
            Packet::NoAllocate { flags, .. } => *flags,
        }
    }

    /// Whether the engine is to copy the bytes.
    pub open spec fn is_allocate(&self) -> bool {
        self is Allocate
    }

    /// A copying packet that carries the no-allocate flag asks for two
    /// contradictory things, and is refused rather than read either way.
    pub open spec fn is_contradictory(&self) -> bool {
        self.is_allocate() && self.spec_flags()@ & FLAG_NO_ALLOCATE != 0
    }

    /// The flag word handed to the engine's packet constructor: the caller's
    /// flags, with the no-allocate bit added for a `NoAllocate` packet.
    pub open spec fn spec_engine_flags(&self) -> u32 {
        match self {
            Packet::Allocate { flags, .. } => flags@,
            Packet::NoAllocate { flags, .. } => flags@ | FLAG_NO_ALLOCATE,
        }
    }

    /// The packet's bytes.
    pub fn bytes(&self) -> (r: &[u8])
        ensures
            r@ == self.spec_bytes(),
    {
        match self {
            Packet::Allocate { bytes, .. } => bytes,
            Packet::NoAllocate { bytes, .. } => bytes,
        }
    }

    /// The number of bytes.
    pub fn len(&self) -> (r: usize)
        ensures
            r == self.spec_bytes().len(),
    {
        self.bytes().len()
    }

    /// The flags the caller gave.
    pub fn flags(&self) -> (r: Flags)
        ensures
            r == self.spec_flags(),
    {
        match self {
            Packet::Allocate { flags, .. } => *flags,
            Packet::NoAllocate { flags, .. } => *flags,
        }
    }

    /// The flag word for the engine's packet constructor, or `None` for a
    /// contradictory packet (see `is_contradictory`).
    pub fn engine_flags(&self) -> (r: Option<u32>)
        ensures
            r is None <==> self.is_contradictory(),
            r matches Some(w) ==> w == self.spec_engine_flags(),
    {
        match self {
            Packet::Allocate { flags, .. } => {
                if flags.bits() & FLAG_NO_ALLOCATE != 0 {
                    None
                } else {
                    Some(flags.bits())
                }
            },
            Packet::NoAllocate { flags, .. } => Some(flags.bits() | FLAG_NO_ALLOCATE),
        }
    }
}

} // verus!
