//! The wire layout of the PUS C telecommand secondary header: five bytes, the source id
//! big endian.
use vstd::prelude::*;

use crate::ecss::{pus_version_of, PusError, PusVersion};
use crate::tc::{sec_header_bytes, GenericPusTcSecondaryHeader, PUC_TC_SECONDARY_HEADER_LEN};

verus! {

/// A secondary header in the form in which it stands on the wire.
#[derive(PartialEq, Eq, Structural, Copy, Clone, Debug)]
pub struct PusTcSecondaryHeader {
    version_ack: u8,
    service: u8,
    subservice: u8,
    source_id: u16,
}

impl View for PusTcSecondaryHeader {
    type V = Seq<u8>;

    /// The five bytes of the header.
    closed spec fn view(&self) -> Seq<u8> {
        seq![
            self.version_ack,
            self.service,
            self.subservice,
            (self.source_id / 256) as u8,
            (self.source_id % 256) as u8,
        ]
    }
}

impl PusTcSecondaryHeader {
    /// The wire form of `value`; fails where its version is not PUS C, the only version
    /// that this crate writes.
    pub fn try_from_header(value: crate::tc::PusTcSecondaryHeader) -> (r: Result<
        Self,
        PusError,
    >)
        ensures
            value.version != PusVersion::PusC ==> r == Err::<Self, PusError>(
                PusError::VersionNotSupported(value.version),
            ),
            value.version == PusVersion::PusC ==> (r matches Ok(z) && z@ == sec_header_bytes(
                value,
            )),
    {
        if value.version != PusVersion::PusC {
            return Err(PusError::VersionNotSupported(value.version));
        }
        Ok(Self::wire_form(value))
    }

    /// The wire form of `value`, whatever its version.
    pub(crate) fn wire_form(value: crate::tc::PusTcSecondaryHeader) -> (r: Self)
        ensures
            r@ == sec_header_bytes(value),
    {
        PusTcSecondaryHeader {
            version_ack: value.version.code() * 16 + value.ack % 16,
            service: value.service,
            subservice: value.subservice,
            source_id: value.source_id,
        }
    }

    /// Writes the five bytes at `at` in `buf`, leaving the other bytes as they were.
    pub fn write_at(&self, buf: &mut [u8], at: usize)
        requires
            at + PUC_TC_SECONDARY_HEADER_LEN <= old(buf)@.len(),
        ensures
            final(buf)@ == old(buf)@.subrange(0, at as int) + self@ + old(buf)@.subrange(
                at + PUC_TC_SECONDARY_HEADER_LEN,
                old(buf)@.len() as int,
            ),
    {
        buf[at] = self.version_ack;
        buf[at + 1] = self.service;
        buf[at + 2] = self.subservice;
        buf[at + 3] = (self.source_id / 256) as u8;
        buf[at + 4] = (self.source_id % 256) as u8;
        assert(buf@ =~= old(buf)@.subrange(0, at as int) + self@ + old(buf)@.subrange(
            at + PUC_TC_SECONDARY_HEADER_LEN,
            old(buf)@.len() as int,
        ));
    }

    /// Writes the header into `slice`, which must be exactly five bytes long.
    pub fn write_to_bytes(&self, slice: &mut [u8]) -> (r: Option<()>)
        ensures
            r is Some <==> old(slice)@.len() == PUC_TC_SECONDARY_HEADER_LEN,
            r is Some ==> final(slice)@ == self@,
            r is None ==> final(slice)@ == old(slice)@,
    {
        if slice.len() != PUC_TC_SECONDARY_HEADER_LEN {
            return None;
        }
        self.write_at(slice, 0);
        assert(slice@ =~= self@);
        Some(())
    }

    /// Reads a header from `slice`, which must be exactly five bytes long.
    pub fn from_bytes(slice: &[u8]) -> (r: Option<Self>)
        ensures
            r is Some <==> slice@.len() == PUC_TC_SECONDARY_HEADER_LEN,
            r matches Some(z) ==> z@ == slice@,
    {
        if slice.len() != PUC_TC_SECONDARY_HEADER_LEN {
            return None;
        }
        let z = PusTcSecondaryHeader {
            version_ack: slice[0],
            service: slice[1],
            subservice: slice[2],
            source_id: slice[3] as u16 * 256 + slice[4] as u16,
        };
        assert(z@ =~= slice@);
        Some(z)
    }
}

impl GenericPusTcSecondaryHeader for PusTcSecondaryHeader {
    fn pus_version(&self) -> (r: PusVersion)
        ensures
            r == pus_version_of(self@[0] / 16),
    {
        PusVersion::from_code(self.version_ack / 16)
    }

    fn ack_flags(&self) -> (r: u8)
        ensures
            r == self@[0] % 16,
    {
        self.version_ack % 16
    }

    fn service(&self) -> (r: u8)
        ensures
            r == self@[1],
    {
        self.service
    }

    fn subservice(&self) -> (r: u8)
        ensures
            r == self@[2],
    {
        self.subservice
    }

    fn source_id(&self) -> (r: u16)
        ensures
            r == self@[3] * 256 + self@[4],
    {
        self.source_id
    }
}

} // verus!
