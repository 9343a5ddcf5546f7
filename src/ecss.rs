//! Types shared by the ECSS packet utilization standard packets: the PUS version and the
//! errors of packet encoding and decoding.
use vstd::prelude::*;

use crate::ccsds::ByteConversionError;

verus! {

#[derive(PartialEq, Eq, Structural, Copy, Clone, Debug)]
pub enum PusVersion {
    EsaPus,
    PusA,
    PusC,
    Invalid,
}

/// The four-bit code of a version.
pub open spec fn pus_version_code(v: PusVersion) -> u8 {
    match v {
        PusVersion::EsaPus => 0,
        PusVersion::PusA => 1,
        PusVersion::PusC => 2,
        PusVersion::Invalid => 15,
    }
}

/// The version that a four-bit code names; codes that name none give `Invalid`.
pub open spec fn pus_version_of(v: u8) -> PusVersion {
    if v == 0 {
        PusVersion::EsaPus
    } else if v == 1 {
        PusVersion::PusA
    } else if v == 2 {
        PusVersion::PusC
    } else {
        PusVersion::Invalid
    }
}

impl PusVersion {
    pub fn code(&self) -> (r: u8)
        ensures
            r == pus_version_code(*self),
    {
        match self {
            PusVersion::EsaPus => 0,
            PusVersion::PusA => 1,
            PusVersion::PusC => 2,
            PusVersion::Invalid => 15,
        }
    }

    /// The version named by `v`, or `Invalid`.
    pub fn from_code(v: u8) -> (r: PusVersion)
        ensures
            r == pus_version_of(v),
    {
        if v == 0 {
            PusVersion::EsaPus
        } else if v == 1 {
            PusVersion::PusA
        } else if v == 2 {
            PusVersion::PusC
        } else {
            PusVersion::Invalid
        }
    }
}

#[derive(PartialEq, Eq, Structural, Copy, Clone, Debug)]
pub enum PusError {
    /// Encoding was asked of a secondary header whose version is not PUS C.
    VersionNotSupported(PusVersion),
    /// The trailer holds `expected`; the checksum computed over the packet is `found`.
    IncorrectCrc { expected: u16, found: u16 },
    /// The input, of the given length, is shorter than the packet structure needs.
    RawDataTooShort(usize),
    /// Encoding was asked with the automatic checksum off and no checksum computed.
    CrcCalculationMissing,
    ByteConversionError(ByteConversionError),
}

} // verus!
