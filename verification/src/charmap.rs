//! Character-map descriptors of a face.

use vstd::prelude::*;

verus! {

/// One character map of a face: the identifiers that name its platform and
/// encoding.
#[derive(Clone, Copy, PartialEq, Eq, Structural, Debug)]
pub struct CharMap {
    platform_id: u16,
    encoding_id: u16,
    encoding: u32,
}

impl CharMap {
    /// The platform identifier.
    pub closed spec fn spec_platform_id(self) -> u16 {
        self.platform_id
    }

    /// The platform-specific encoding identifier.
    pub closed spec fn spec_encoding_id(self) -> u16 {
        self.encoding_id
    }

    /// The four-byte encoding tag.
    pub closed spec fn spec_encoding(self) -> u32 {
        self.encoding
    }

    /// Wrap the fields of one character-map record.
    pub fn new(platform_id: u16, encoding_id: u16, encoding: u32) -> (r: CharMap)
        ensures
            r.spec_platform_id() == platform_id,
            r.spec_encoding_id() == encoding_id,
            r.spec_encoding() == encoding,
    {
        CharMap { platform_id, encoding_id, encoding }
    }

    /// An ID number describing the platform of the character map.
    pub fn platform_id(&self) -> (r: u16)
        ensures
            r == self.spec_platform_id(),
    {
        self.platform_id
    }

    /// A platform-specific encoding ID number.
    pub fn encoding_id(&self) -> (r: u16)
        ensures
            r == self.spec_encoding_id(),
    {
        self.encoding_id
    }

    /// The four-byte tag naming the encoding of the character map.
    pub fn encoding(&self) -> (r: u32)
        ensures
            r == self.spec_encoding(),
    {
        self.encoding
    }
}

} // verus!
