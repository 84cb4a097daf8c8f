use vstd::prelude::*;

verus! {

/// The region that you want to query servers for.
#[derive(Debug, Clone, Copy, PartialEq, Eq, Structural, Hash, PartialOrd, Ord)]
pub enum Region {
    UsEast,
    UsWest,
    AmericaSouth,
    Europe,
    Asia,
    Australia,
    MiddleEast,
    Africa,
    Others,
}

impl Region {
    /// The byte that stands for the region on the wire.
    pub open spec fn spec_code(self) -> u8 {
        match self {
            Region::UsEast => 0x00,
            Region::UsWest => 0x01,
            Region::AmericaSouth => 0x02,
            Region::Europe => 0x03,
            Region::Asia => 0x04,
            Region::Australia => 0x05,
            Region::MiddleEast => 0x06,
            Region::Africa => 0x07,
            Region::Others => 0xFF,
        }
    }

    /// The region's wire byte.
    pub fn code(&self) -> (r: u8)
        ensures
            r == self.spec_code(),
    {
        match self {
            Region::UsEast => 0x00,
            Region::UsWest => 0x01,
            Region::AmericaSouth => 0x02,
            Region::Europe => 0x03,
            Region::Asia => 0x04,
            Region::Australia => 0x05,
            Region::MiddleEast => 0x06,
            Region::Africa => 0x07,
            Region::Others => 0xFF,
        }
    }
}

} // verus!
