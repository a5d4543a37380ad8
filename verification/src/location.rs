//! The location catalog: a closed enumeration of campus buildings, each with
//! a stable integer code given by its position in the enumeration.

use vstd::prelude::*;

verus! {

/// A campus building. The catalog is closed: the integer code of a member is
/// its ordinal position in this list, so the order of the variants is schema
/// and must not change.
#[derive(Debug, Clone, Copy, PartialEq, Eq, Structural)]
pub enum Location {
    BarreHall,
    BrackettHall,
    ChandlerHall,
    CollegeOfBusiness,
    CooperLibrary,
    CribbHall,
    DanielHall,
    DesChampsHall,
    EarleHall,
    EdwardsHall,
    FikeRecCenter,
    FreemanHall,
    GressetteHall,
    HardinHall,
    Hendrix,
    HumanitiesHall,
    LehotskyHall,
    LongHall,
    LowryHall,
    MartinHall,
    McAlisterHall,
    MichelHall,
    NewmanHall,
    PoolCenter,
    RiggsHall,
    SikesHall,
    SirrineHall,
    VickeryHall,
    Watt,
}

impl Location {
    /// The integer code of a catalog member: its ordinal position.
    pub open spec fn code_spec(self) -> int {
        match self {
            Location::BarreHall => 0,
            Location::BrackettHall => 1,
            Location::ChandlerHall => 2,
            Location::CollegeOfBusiness => 3,
            Location::CooperLibrary => 4,
            Location::CribbHall => 5,
            Location::DanielHall => 6,
            Location::DesChampsHall => 7,
            Location::EarleHall => 8,
            Location::EdwardsHall => 9,
            Location::FikeRecCenter => 10,
            Location::FreemanHall => 11,
            Location::GressetteHall => 12,
            Location::HardinHall => 13,
            Location::Hendrix => 14,
            Location::HumanitiesHall => 15,
            Location::LehotskyHall => 16,
            Location::LongHall => 17,
            Location::LowryHall => 18,
            Location::MartinHall => 19,
            Location::McAlisterHall => 20,
            Location::MichelHall => 21,
            Location::NewmanHall => 22,
            Location::PoolCenter => 23,
            Location::RiggsHall => 24,
            Location::SikesHall => 25,
            Location::SirrineHall => 26,
            Location::VickeryHall => 27,
            Location::Watt => 28,
        }
    }

    /// Yields the member's integer code.
    pub fn code(self) -> (c: i32)
        ensures
            c as int == self.code_spec(),
    {
        match self {
            Location::BarreHall => 0,
            Location::BrackettHall => 1,
            Location::ChandlerHall => 2,
            Location::CollegeOfBusiness => 3,
            Location::CooperLibrary => 4,
            Location::CribbHall => 5,
            Location::DanielHall => 6,
            Location::DesChampsHall => 7,
            Location::EarleHall => 8,
            Location::EdwardsHall => 9,
            Location::FikeRecCenter => 10,
            Location::FreemanHall => 11,
            Location::GressetteHall => 12,
            Location::HardinHall => 13,
            Location::Hendrix => 14,
            Location::HumanitiesHall => 15,
            Location::LehotskyHall => 16,
            Location::LongHall => 17,
            Location::LowryHall => 18,
            Location::MartinHall => 19,
            Location::McAlisterHall => 20,
            Location::MichelHall => 21,
            Location::NewmanHall => 22,
            Location::PoolCenter => 23,
            Location::RiggsHall => 24,
            Location::SikesHall => 25,
            Location::SirrineHall => 26,
            Location::VickeryHall => 27,
            Location::Watt => 28,
        }
    }
}

} // verus!
