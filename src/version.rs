//! Engine version numbers.

use vstd::prelude::*;

verus! {

/// The word of a version: major in bits 16 and up, minor in bits 8 to 15,
/// patch in bits 0 to 7, each part cut to the width left to it.
pub open spec fn version_word(major: u32, minor: u32, patch: u32) -> u32 {
    (major << 16u32) | (minor << 8u32) | patch
}

/// A version of the engine, packed in one word.
#[derive(Clone, Copy, Debug, PartialEq, Eq, Structural)]
pub struct Version {
    version: u32,
}

impl View for Version {
    type V = u32;

    closed spec fn view(&self) -> u32 {
        self.version
    }
}

impl Version {
    /// The version whose word is `version`.
    pub fn from_ll(version: u32) -> (r: Version)
        ensures
            r@ == version,
    {
        Version { version }
    }

    /// The version `major.minor.patch`.
    ///
    /// Parts that are not below 256 spill into the neighbouring part, as in
    /// the engine's own packing.
    pub fn create(major: u32, minor: u32, patch: u32) -> (r: Version)
        ensures
            r@ == version_word(major, minor, patch),
            major < 256 && minor < 256 && patch < 256 ==> r.spec_major() == major
                && r.spec_minor() == minor && r.spec_patch() == patch,
    {
        let v = (major << 16u32) | (minor << 8u32) | patch;
        assert(major < 256 && minor < 256 && patch < 256 ==> (v >> 16u32) & 0xffu32 == major && (v
            >> 8u32) & 0xffu32 == minor && v & 0xffu32 == patch) by (bit_vector)
            requires
                v == (major << 16u32) | (minor << 8u32) | patch,
        ;
        Version { version: v }
    }

    /// The major part.
    pub open spec fn spec_major(&self) -> u32 {
        (self@ >> 16u32) & 0xffu32
    }

    /// The minor part.
    pub open spec fn spec_minor(&self) -> u32 {
        (self@ >> 8u32) & 0xffu32
    }

    /// The patch part.
    pub open spec fn spec_patch(&self) -> u32 {
        self@ & 0xffu32
    }

    /// The major part.
    pub fn get_major(self) -> (r: u32)
        ensures
            r == self.spec_major(),
    {
        (self.version >> 16u32) & 0xffu32
    }

    /// The minor part.
    pub fn get_minor(self) -> (r: u32)
        ensures
            r == self.spec_minor(),
    {
        (self.version >> 8u32) & 0xffu32
    }

    /// The patch part.
    pub fn get_patch(self) -> (r: u32)
        ensures
            r == self.spec_patch(),
    {
        self.version & 0xffu32
    }
}

} // verus!
