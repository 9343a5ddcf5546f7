//! ECSS PUS C telecommand packets: a primary header, the five-byte secondary header,
//! optional application data and a CRC-16/CCITT-FALSE trailer.
use vstd::prelude::*;

use crate::ccsds::{
    sp_header_of_bytes, ByteConversionError, PacketType, SequenceFlags, SizeMissmatch, SpHeader,
    CCSDS_HEADER_LEN, MAX_APID, MAX_SEQ_COUNT,
};
use crate::crc::{crc16_ccitt_false, lemma_crc_fold_append, CRC16_INIT};
use crate::ecss::{pus_version_code, pus_version_of, PusError, PusVersion};

pub mod zc;

verus! {

/// Length of the PUS C telecommand secondary header.
pub const PUC_TC_SECONDARY_HEADER_LEN: usize = 5;

/// Length of a telecommand without application data.
pub const PUS_TC_MIN_LEN_WITHOUT_APP_DATA: usize = CCSDS_HEADER_LEN + PUC_TC_SECONDARY_HEADER_LEN
    + 2;

/// Acknowledgement of acceptance.
pub const ACK_ACCEPTANCE: u8 = 0b1000;

/// Acknowledgement of start of execution.
pub const ACK_START: u8 = 0b0100;

/// Acknowledgement of progress of execution.
pub const ACK_PROGRESS: u8 = 0b0010;

/// Acknowledgement of completion of execution.
pub const ACK_COMPLETION: u8 = 0b0001;

/// All four acknowledgements.
pub const ACK_ALL: u8 = 0b1111;

/// Read access to the fields of a telecommand secondary header.
pub trait GenericPusTcSecondaryHeader {
    fn pus_version(&self) -> PusVersion;

    fn ack_flags(&self) -> u8;

    fn service(&self) -> u8;

    fn subservice(&self) -> u8;

    fn source_id(&self) -> u16;
}

/// The telecommand secondary header.
#[derive(PartialEq, Eq, Structural, Copy, Clone, Debug)]
pub struct PusTcSecondaryHeader {
    pub service: u8,
    pub subservice: u8,
    pub source_id: u16,
    /// Acknowledgement flags; only the four low bits are meaningful.
    pub ack: u8,
    pub version: PusVersion,
}

/// The five bytes of a secondary header: version and acknowledgement nibbles, service,
/// subservice and the source id big endian.
pub open spec fn sec_header_bytes(h: PusTcSecondaryHeader) -> Seq<u8> {
    seq![
        (pus_version_code(h.version) * 16 + h.ack % 16) as u8,
        h.service,
        h.subservice,
        (h.source_id / 256) as u8,
        (h.source_id % 256) as u8,
    ]
}

/// The secondary header that five bytes hold. Any version nibble is accepted: one that
/// names no version gives `Invalid`.
pub open spec fn sec_header_of_bytes(b: Seq<u8>) -> PusTcSecondaryHeader
    recommends
        b.len() >= 5,
{
    PusTcSecondaryHeader {
        service: b[1],
        subservice: b[2],
        source_id: (b[3] * 256 + b[4]) as u16,
        ack: b[0] % 16,
        version: pus_version_of(b[0] / 16),
    }
}

impl PusTcSecondaryHeader {
    /// A header that can be encoded and read back unchanged.
    pub open spec fn wf(&self) -> bool {
        self.ack < 16 && self.version == PusVersion::PusC
    }

    /// The header that [PusTcSecondaryHeader::new_simple] gives.
    pub open spec fn new_simple_spec(service: u8, subservice: u8) -> PusTcSecondaryHeader {
        PusTcSecondaryHeader {
            service,
            subservice,
            ack: ACK_ALL,
            source_id: 0,
            version: PusVersion::PusC,
        }
    }

    /// A PUS C header asking for all acknowledgements, with source id 0.
    pub fn new_simple(service: u8, subservice: u8) -> (r: Self)
        ensures
            r == Self::new_simple_spec(service, subservice),
            r.wf(),
    {
        PusTcSecondaryHeader {
            service,
            subservice,
            ack: ACK_ALL,
            source_id: 0,
            version: PusVersion::PusC,
        }
    }

    /// A PUS C header; only the four low bits of `ack` are kept.
    pub fn new(service: u8, subservice: u8, ack: u8, source_id: u16) -> (r: Self)
        ensures
            r == (PusTcSecondaryHeader {
                service,
                subservice,
                ack: ack % 16,
                source_id,
                version: PusVersion::PusC,
            }),
            r.wf(),
    {
        assert(ack & 0b1111u8 == ack % 16) by (bit_vector);
        PusTcSecondaryHeader {
            service,
            subservice,
            ack: ack & 0b1111,
            source_id,
            version: PusVersion::PusC,
        }
    }

    /// The header that the wire form `value` holds.
    pub fn from_zc(value: zc::PusTcSecondaryHeader) -> (r: Self)
        ensures
            r == sec_header_of_bytes(value@),
    {
        PusTcSecondaryHeader {
            service: value.service(),
            subservice: value.subservice(),
            source_id: value.source_id(),
            ack: value.ack_flags(),
            version: value.pus_version(),
        }
    }
}

impl GenericPusTcSecondaryHeader for PusTcSecondaryHeader {
    fn pus_version(&self) -> (r: PusVersion)
        ensures
            r == self.version,
    {
        self.version
    }

    fn ack_flags(&self) -> (r: u8)
        ensures
            r == self.ack,
    {
        self.ack
    }

    fn service(&self) -> (r: u8)
        ensures
            r == self.service,
    {
        self.service
    }

    fn subservice(&self) -> (r: u8)
        ensures
            r == self.subservice,
    {
        self.subservice
    }

    fn source_id(&self) -> (r: u16)
        ensures
            r == self.source_id,
    {
        self.source_id
    }
}

/// The contents of a telecommand, as plain values.
pub struct PusTcView {
    pub sp_header: SpHeader,
    pub sec_header: PusTcSecondaryHeader,
    pub calc_crc_on_serialization: bool,
    pub raw_data: Option<Seq<u8>>,
    pub app_data: Option<Seq<u8>>,
    pub crc16: Option<u16>,
}

impl PusTcView {
    /// The application data; empty where there is none.
    pub open spec fn app_bytes(self) -> Seq<u8> {
        match self.app_data {
            Some(d) => d,
            None => Seq::empty(),
        }
    }

    /// Length of the encoded packet.
    pub open spec fn len_packed(self) -> nat {
        PUS_TC_MIN_LEN_WITHOUT_APP_DATA as nat + self.app_bytes().len()
    }

    /// The bytes that the checksum covers: primary header, secondary header, application
    /// data.
    pub open spec fn body(self) -> Seq<u8> {
        self.sp_header.spec_bytes() + sec_header_bytes(self.sec_header) + self.app_bytes()
    }

    /// The checksum that encoding writes: a fresh one in automatic mode, else the cached
    /// one, if any.
    pub open spec fn checksum_for_encoding(self) -> Option<u16> {
        if self.calc_crc_on_serialization {
            Some(crc16_ccitt_false(self.body()))
        } else {
            self.crc16
        }
    }

    /// The encoded packet with checksum `c` in its trailer, big endian.
    pub open spec fn encoding(self, c: u16) -> Seq<u8> {
        self.body() + seq![(c / 256) as u8, (c % 256) as u8]
    }

    /// Equality of packets: primary header, secondary header and application data.
    pub open spec fn same_packet(self, other: PusTcView) -> bool {
        self.sp_header == other.sp_header && self.sec_header == other.sec_header
            && self.app_bytes() == other.app_bytes()
    }
}

/// The big-endian checksum in the two bytes before `end`.
pub open spec fn trailer_of(b: Seq<u8>, end: int) -> u16 {
    (b[end - 2] * 256 + b[end - 1]) as u16
}

/// What decoding a telecommand from the bytes `b` gives: the packet and its length, or
/// the error.
pub open spec fn tc_from_bytes_spec(b: Seq<u8>) -> Result<(PusTcView, nat), PusError> {
    let h = sp_header_of_bytes(b);
    let total = h.spec_total_len();
    if b.len() < PUS_TC_MIN_LEN_WITHOUT_APP_DATA || b.len() < total || total
        < PUS_TC_MIN_LEN_WITHOUT_APP_DATA {
        Err(PusError::RawDataTooShort(b.len() as usize))
    } else {
        let expected = trailer_of(b, total as int);
        let found = crc16_ccitt_false(b.subrange(0, total - 2));
        if expected != found {
            Err(PusError::IncorrectCrc { expected, found })
        } else {
            Ok(
                (
                    PusTcView {
                        sp_header: h,
                        sec_header: sec_header_of_bytes(b.subrange(6, 11)),
                        calc_crc_on_serialization: false,
                        raw_data: Some(b.subrange(0, total as int)),
                        app_data: if total > PUS_TC_MIN_LEN_WITHOUT_APP_DATA {
                            Some(b.subrange(11, total - 2))
                        } else {
                            None
                        },
                        crc16: Some(expected),
                    },
                    total,
                ),
            )
        }
    }
}

/// A PUS C telecommand. The application data is borrowed; a packet decoded from bytes
/// also keeps the bytes it was read from.
#[derive(Eq, Copy, Clone, Debug)]
pub struct PusTc<'raw_data> {
    sp_header: SpHeader,
    pub sec_header: PusTcSecondaryHeader,
    /// If false, the checksum must be computed with [PusTc::calc_own_crc16] or
    /// [PusTc::update_packet_fields] before encoding.
    pub calc_crc_on_serialization: bool,
    raw_data: Option<&'raw_data [u8]>,
    app_data: Option<&'raw_data [u8]>,
    crc16: Option<u16>,
}

pub open spec fn opt_bytes(d: Option<&[u8]>) -> Option<Seq<u8>> {
    match d {
        Some(s) => Some(s@),
        None => None,
    }
}

impl<'raw_data> View for PusTc<'raw_data> {
    type V = PusTcView;

    closed spec fn view(&self) -> PusTcView {
        PusTcView {
            sp_header: self.sp_header,
            sec_header: self.sec_header,
            calc_crc_on_serialization: self.calc_crc_on_serialization,
            raw_data: opt_bytes(self.raw_data),
            app_data: opt_bytes(self.app_data),
            crc16: self.crc16,
        }
    }
}

/// Appends the bytes of `data` to `v`.
fn push_all(v: &mut Vec<u8>, data: &[u8])
    ensures
        final(v)@ == old(v)@ + data@,
{
    let mut i: usize = 0;
    while i < data.len()
        invariant
            i <= data@.len(),
            v@ == old(v)@ + data@.subrange(0, i as int),
        decreases data@.len() - i,
    {
        v.push(data[i]);
        i = i + 1;
        assert(v@ =~= old(v)@ + data@.subrange(0, i as int));
    }
    assert(data@.subrange(0, data@.len() as int) =~= data@);
}

impl<'raw_data> PusTc<'raw_data> {
    /// The primary header is well formed and the packet length fits in a `usize`.
    pub open spec fn wf(&self) -> bool {
        self@.sp_header.wf() && self@.len_packed() <= usize::MAX
    }

    /// A telecommand from its headers and optional application data. The caller's
    /// primary header is switched to a telecommand with a secondary header. With
    /// `set_ccsds_len` the packet's data length field is set from its length at once;
    /// otherwise [PusTc::update_ccsds_data_len] does it later. No checksum is computed
    /// yet, and it will be computed automatically on encoding.
    pub fn new(
        sp_header: &mut SpHeader,
        sec_header: PusTcSecondaryHeader,
        app_data: Option<&'raw_data [u8]>,
        set_ccsds_len: bool,
    ) -> (r: Self)
        requires
            old(sp_header).wf(),
            PUS_TC_MIN_LEN_WITHOUT_APP_DATA + opt_len(app_data) <= if set_ccsds_len {
                u16::MAX + 7
            } else {
                usize::MAX as int
            },
        ensures
            *final(sp_header) == (SpHeader {
                ptype: PacketType::Tc,
                sec_header_flag: true,
                ..*old(sp_header)
            }),
            r.wf(),
            r@.sp_header == (if set_ccsds_len {
                SpHeader { data_len: (r@.len_packed() - 7) as u16, ..*final(sp_header) }
            } else {
                *final(sp_header)
            }),
            r@.sec_header == sec_header,
            r@.app_data == opt_bytes(app_data),
            r@.calc_crc_on_serialization,
            r@.raw_data is None,
            r@.crc16 is None,
    {
        sp_header.set_packet_type(PacketType::Tc);
        sp_header.set_sec_header_flag();
        let mut pus_tc = PusTc {
            sp_header: *sp_header,
            raw_data: None,
            app_data,
            sec_header,
            calc_crc_on_serialization: true,
            crc16: None,
        };
        if set_ccsds_len {
            pus_tc.update_ccsds_data_len();
        }
        pus_tc
    }

    /// A telecommand with a PUS C secondary header for `service` and `subservice`, all
    /// acknowledgements and source id 0.
    pub fn new_simple(
        sph: &mut SpHeader,
        service: u8,
        subservice: u8,
        app_data: Option<&'raw_data [u8]>,
        set_ccsds_len: bool,
    ) -> (r: Self)
        requires
            old(sph).wf(),
            PUS_TC_MIN_LEN_WITHOUT_APP_DATA + opt_len(app_data) <= if set_ccsds_len {
                u16::MAX + 7
            } else {
                usize::MAX as int
            },
        ensures
            *final(sph) == (SpHeader { ptype: PacketType::Tc, sec_header_flag: true, ..*old(sph) }),
            r.wf(),
            r@.sp_header == (if set_ccsds_len {
                SpHeader { data_len: (r@.len_packed() - 7) as u16, ..*final(sph) }
            } else {
                *final(sph)
            }),
            r@.sec_header == PusTcSecondaryHeader::new_simple_spec(service, subservice),
            r@.app_data == opt_bytes(app_data),
            r@.calc_crc_on_serialization,
            r@.raw_data is None,
            r@.crc16 is None,
    {
        Self::new(
            sph,
            PusTcSecondaryHeader::new(service, subservice, ACK_ALL, 0),
            app_data,
            set_ccsds_len,
        )
    }

    pub fn sp_header(&self) -> (r: &SpHeader)
        ensures
            *r == self@.sp_header,
    {
        &self.sp_header
    }

    /// Length of the encoded packet: 13 bytes and the application data.
    pub fn len_packed(&self) -> (r: usize)
        requires
            self.wf(),
        ensures
            r == self@.len_packed(),
            r == CCSDS_HEADER_LEN + PUC_TC_SECONDARY_HEADER_LEN + self@.app_bytes().len() + 2,
    {
        let mut length = PUS_TC_MIN_LEN_WITHOUT_APP_DATA;
        if let Some(app_data) = self.app_data {
            length += app_data.len();
        }
        length
    }

    /// Sets the acknowledgement flags; returns false, leaving the packet as it was, where
    /// `ack` does not fit in four bits.
    pub fn set_ack_field(&mut self, ack: u8) -> (r: bool)
        ensures
            r == (ack <= 0b1111),
            r ==> final(self)@ == (PusTcView {
                sec_header: PusTcSecondaryHeader { ack, ..old(self)@.sec_header },
                ..old(self)@
            }),
            !r ==> final(self)@ == old(self)@,
    {
        if ack > 0b1111 {
            return false;
        }
        self.sec_header.ack = ack;
        true
    }

    /// Switches the automatic checksum on encoding on or off.
    pub fn set_calc_crc_on_serialization(&mut self, on: bool)
        ensures
            final(self)@ == (PusTcView { calc_crc_on_serialization: on, ..old(self)@ }),
    {
        self.calc_crc_on_serialization = on;
    }

    pub fn set_source_id(&mut self, source_id: u16)
        ensures
            final(self)@ == (PusTcView {
                sec_header: PusTcSecondaryHeader { source_id, ..old(self)@.sec_header },
                ..old(self)@
            }),
    {
        self.sec_header.source_id = source_id;
    }

    pub fn ccsds_version(&self) -> (r: u8)
        ensures
            r == self@.sp_header.version,
    {
        self.sp_header.ccsds_version()
    }

    pub fn packet_type(&self) -> (r: PacketType)
        ensures
            r == self@.sp_header.ptype,
    {
        self.sp_header.packet_type()
    }

    pub fn sec_header_flag(&self) -> (r: bool)
        ensures
            r == self@.sp_header.sec_header_flag,
    {
        self.sp_header.sec_header_flag()
    }

    pub fn apid(&self) -> (r: u16)
        ensures
            r == self@.sp_header.apid,
    {
        self.sp_header.apid()
    }

    pub fn seq_count(&self) -> (r: u16)
        ensures
            r == self@.sp_header.seq_count,
    {
        self.sp_header.seq_count()
    }

    pub fn sequence_flags(&self) -> (r: SequenceFlags)
        ensures
            r == self@.sp_header.seq_flags,
    {
        self.sp_header.sequence_flags()
    }

    pub fn data_len(&self) -> (r: u16)
        ensures
            r == self@.sp_header.data_len,
    {
        self.sp_header.data_len()
    }

    /// Total length that the data length field declares.
    pub fn total_len(&self) -> (r: usize)
        ensures
            r == self@.sp_header.spec_total_len(),
    {
        self.sp_header.total_len()
    }

    /// Sets the APID of the primary header; false, with nothing changed, where it does
    /// not fit in 11 bits.
    pub fn set_apid(&mut self, apid: u16) -> (r: bool)
        ensures
            r == (apid <= MAX_APID),
            r ==> final(self)@ == (PusTcView {
                sp_header: SpHeader { apid, ..old(self)@.sp_header },
                ..old(self)@
            }),
            !r ==> final(self)@ == old(self)@,
    {
        self.sp_header.set_apid(apid)
    }

    /// Sets the sequence count of the primary header; false, with nothing changed, where
    /// it does not fit in 14 bits.
    pub fn set_seq_count(&mut self, seq_count: u16) -> (r: bool)
        ensures
            r == (seq_count <= MAX_SEQ_COUNT),
            r ==> final(self)@ == (PusTcView {
                sp_header: SpHeader { seq_count, ..old(self)@.sp_header },
                ..old(self)@
            }),
            !r ==> final(self)@ == old(self)@,
    {
        self.sp_header.set_seq_count(seq_count)
    }

    pub fn set_seq_flags(&mut self, seq_flags: SequenceFlags)
        ensures
            final(self)@ == (PusTcView {
                sp_header: SpHeader { seq_flags, ..old(self)@.sp_header },
                ..old(self)@
            }),
    {
        self.sp_header.set_seq_flags(seq_flags)
    }

    /// Sets the data length field from the packet length: the length minus the primary
    /// header minus one. The declared total length is then the packet length.
    pub fn update_ccsds_data_len(&mut self)
        requires
            old(self).wf(),
            old(self)@.len_packed() <= u16::MAX + 7,
        ensures
            final(self)@ == (PusTcView {
                sp_header: SpHeader {
                    data_len: (old(self)@.len_packed() - 7) as u16,
                    ..old(self)@.sp_header
                },
                ..old(self)@
            }),
            final(self).wf(),
            final(self)@.sp_header.spec_total_len() == final(self)@.len_packed(),
    {
        self.sp_header.data_len = (self.len_packed() - CCSDS_HEADER_LEN - 1) as u16;
    }

    /// The five-byte secondary header with the primary header before it.
    fn header_bytes(&self) -> (r: Vec<u8>)
        requires
            self.wf(),
        ensures
            r@ == self@.sp_header.spec_bytes() + sec_header_bytes(self@.sec_header),
    {
        let mut v: Vec<u8> = vec![0u8; CCSDS_HEADER_LEN + PUC_TC_SECONDARY_HEADER_LEN];
        let _ = self.sp_header.write_to_be_bytes(v.as_mut_slice());
        zc::PusTcSecondaryHeader::wire_form(self.sec_header).write_at(
            v.as_mut_slice(),
            CCSDS_HEADER_LEN,
        );
        assert(v@ =~= self@.sp_header.spec_bytes() + sec_header_bytes(self@.sec_header));
        v
    }

    /// CRC-16/CCITT-FALSE over the primary header, secondary header and application data.
    fn crc16_of_fields(&self) -> (r: u16)
        requires
            self.wf(),
        ensures
            r == crc16_ccitt_false(self@.body()),
    {
        let hdr = self.header_bytes();
        let c = crate::crc::update(CRC16_INIT, hdr.as_slice());
        match self.app_data {
            Some(d) => {
                proof {
                    lemma_crc_fold_append(CRC16_INIT, hdr@, d@);
                }
                crate::crc::update(c, d)
            },
            None => {
                assert(self@.body() =~= hdr@);
                c
            },
        }
    }

    /// Computes the checksum and caches it. Needed before encoding where the automatic
    /// checksum is off.
    pub fn calc_own_crc16(&mut self)
        requires
            old(self).wf(),
        ensures
            final(self)@ == (PusTcView {
                crc16: Some(crc16_ccitt_false(old(self)@.body())),
                ..old(self)@
            }),
            final(self).wf(),
    {
        self.crc16 = Some(self.crc16_of_fields());
    }

    /// Sets the data length field, then computes and caches the checksum.
    pub fn update_packet_fields(&mut self)
        requires
            old(self).wf(),
            old(self)@.len_packed() <= u16::MAX + 7,
        ensures
            final(self)@ == ({
                let updated = PusTcView {
                    sp_header: SpHeader {
                        data_len: (old(self)@.len_packed() - 7) as u16,
                        ..old(self)@.sp_header
                    },
                    ..old(self)@
                };
                PusTcView { crc16: Some(crc16_ccitt_false(updated.body())), ..updated }
            }),
            final(self).wf(),
            final(self)@.sp_header.spec_total_len() == final(self)@.len_packed(),
    {
        self.update_ccsds_data_len();
        self.calc_own_crc16();
    }

    /// Writes the encoded packet to the start of `slice` and returns its length. Fails,
    /// leaving `slice` as it was, where `slice` is too small, where the secondary header
    /// is not PUS C, and where the automatic checksum is off and none was computed.
    pub fn write_to_bytes(&self, slice: &mut [u8]) -> (r: Result<usize, PusError>)
        requires
            self.wf(),
        ensures
            old(slice)@.len() < self@.len_packed() ==> r == Err::<usize, PusError>(
                PusError::ByteConversionError(
                    ByteConversionError::ToSliceTooSmall(
                        SizeMissmatch {
                            found: old(slice)@.len() as usize,
                            expected: self@.len_packed() as usize,
                        },
                    ),
                ),
            ),
            old(slice)@.len() >= self@.len_packed() && self@.sec_header.version
                != PusVersion::PusC ==> r == Err::<usize, PusError>(
                PusError::VersionNotSupported(self@.sec_header.version),
            ),
            old(slice)@.len() >= self@.len_packed() && self@.sec_header.version
                == PusVersion::PusC && self@.checksum_for_encoding() is None ==> r == Err::<
                usize,
                PusError,
            >(PusError::CrcCalculationMissing),
            r is Err ==> final(slice)@ == old(slice)@,
            r is Ok <==> (old(slice)@.len() >= self@.len_packed() && self@.sec_header.version
                == PusVersion::PusC && self@.checksum_for_encoding() is Some),
            r matches Ok(n) ==> n == self@.len_packed() && final(slice)@ == self@.encoding(
                self@.checksum_for_encoding()->Some_0,
            ) + old(slice)@.subrange(n as int, old(slice)@.len() as int),
    {
        let total_size = self.len_packed();
        if total_size > slice.len() {
            return Err(
                PusError::ByteConversionError(
                    ByteConversionError::ToSliceTooSmall(
                        SizeMissmatch { found: slice.len(), expected: total_size },
                    ),
                ),
            );
        }
        let sec_header = match zc::PusTcSecondaryHeader::try_from_header(self.sec_header) {
            Ok(h) => h,
            Err(e) => return Err(e),
        };
        let crc16 = if self.calc_crc_on_serialization {
            self.crc16_of_fields()
        } else {
            match self.crc16 {
                Some(c) => c,
                None => return Err(PusError::CrcCalculationMissing),
            }
        };
        let ghost target = self@.encoding(crc16);
        let ghost len = old(slice)@.len() as int;
        let _ = self.sp_header.write_to_be_bytes(slice);
        sec_header.write_at(slice, CCSDS_HEADER_LEN);
        let mut curr_idx: usize = CCSDS_HEADER_LEN + PUC_TC_SECONDARY_HEADER_LEN;
        assert(slice@ =~= target.subrange(0, curr_idx as int) + old(slice)@.subrange(
            curr_idx as int,
            len,
        ));
        if let Some(app_data) = self.app_data {
            let mut i: usize = 0;
            while i < app_data.len()
                invariant
                    i <= app_data@.len(),
                    curr_idx == 11 + i,
                    app_data@ == self@.app_bytes(),
                    target == self@.encoding(crc16),
                    target.len() == 13 + app_data@.len(),
                    len == old(slice)@.len(),
                    len >= target.len(),
                    slice@ == target.subrange(0, curr_idx as int) + old(slice)@.subrange(
                        curr_idx as int,
                        len,
                    ),
                decreases app_data@.len() - i,
            {
                slice[curr_idx] = app_data[i];
                i = i + 1;
                curr_idx = curr_idx + 1;
                assert(slice@ =~= target.subrange(0, curr_idx as int) + old(slice)@.subrange(
                    curr_idx as int,
                    len,
                ));
            }
        }
        slice[curr_idx] = (crc16 / 256) as u8;
        slice[curr_idx + 1] = (crc16 % 256) as u8;
        curr_idx += 2;
        assert(slice@ =~= target + old(slice)@.subrange(curr_idx as int, len));
        Ok(curr_idx)
    }

    /// Appends the encoded packet to `vec` and returns its length. Fails, leaving `vec`
    /// as it was, where the secondary header is not PUS C, and where the automatic
    /// checksum is off and none was computed.
    pub fn append_to_vec(&self, vec: &mut Vec<u8>) -> (r: Result<usize, PusError>)
        requires
            self.wf(),
        ensures
            self@.sec_header.version != PusVersion::PusC ==> r == Err::<usize, PusError>(
                PusError::VersionNotSupported(self@.sec_header.version),
            ),
            self@.sec_header.version == PusVersion::PusC && self@.checksum_for_encoding()
                is None ==> r == Err::<usize, PusError>(PusError::CrcCalculationMissing),
            r is Err ==> final(vec)@ == old(vec)@,
            r is Ok <==> (self@.sec_header.version == PusVersion::PusC
                && self@.checksum_for_encoding() is Some),
            r matches Ok(n) ==> n == self@.len_packed() && final(vec)@ == old(vec)@
                + self@.encoding(self@.checksum_for_encoding()->Some_0),
    {
        let appended_len = self.len_packed();
        if let Err(e) = zc::PusTcSecondaryHeader::try_from_header(self.sec_header) {
            return Err(e);
        }
        let crc16 = if self.calc_crc_on_serialization {
            self.crc16_of_fields()
        } else {
            match self.crc16 {
                Some(c) => c,
                None => return Err(PusError::CrcCalculationMissing),
            }
        };
        let hdr = self.header_bytes();
        push_all(vec, hdr.as_slice());
        if let Some(app_data) = self.app_data {
            push_all(vec, app_data);
        }
        vec.push((crc16 / 256) as u8);
        vec.push((crc16 % 256) as u8);
        assert(vec@ =~= old(vec)@ + self@.encoding(crc16));
        Ok(appended_len)
    }

    /// Decodes a telecommand from the start of `slice`; returns it with its length. The
    /// packet borrows its application data and raw bytes from `slice`, has the automatic
    /// checksum off and the verified checksum cached.
    pub fn from_bytes(slice: &'raw_data [u8]) -> (r: Result<(Self, usize), PusError>)
        ensures
            r is Ok <==> tc_from_bytes_spec(slice@) is Ok,
            r matches Ok((tc, n)) ==> tc.wf() && tc_from_bytes_spec(slice@) == Ok::<
                (PusTcView, nat),
                PusError,
            >((tc@, n as nat)),
            r matches Err(e) ==> tc_from_bytes_spec(slice@) == Err::<(PusTcView, nat), PusError>(
                e,
            ),
    {
        let raw_data_len = slice.len();
        if raw_data_len < PUS_TC_MIN_LEN_WITHOUT_APP_DATA {
            return Err(PusError::RawDataTooShort(raw_data_len));
        }
        let (sp_header, _) = match SpHeader::from_be_bytes(slice) {
            Ok(x) => x,
            Err(e) => return Err(PusError::ByteConversionError(e)),
        };
        let total_len = sp_header.total_len();
        if raw_data_len < total_len || total_len < PUS_TC_MIN_LEN_WITHOUT_APP_DATA {
            return Err(PusError::RawDataTooShort(raw_data_len));
        }
        let sec_slice = vstd::slice::slice_subrange(
            slice,
            CCSDS_HEADER_LEN,
            CCSDS_HEADER_LEN + PUC_TC_SECONDARY_HEADER_LEN,
        );
        let sec_header = match zc::PusTcSecondaryHeader::from_bytes(sec_slice) {
            Some(h) => h,
            None => return Err(PusError::RawDataTooShort(raw_data_len)),
        };
        let raw_data = vstd::slice::slice_subrange(slice, 0, total_len);
        let app_data = if total_len > PUS_TC_MIN_LEN_WITHOUT_APP_DATA {
            Some(
                vstd::slice::slice_subrange(
                    slice,
                    CCSDS_HEADER_LEN + PUC_TC_SECONDARY_HEADER_LEN,
                    total_len - 2,
                ),
            )
        } else {
            None
        };
        let expected = slice[total_len - 2] as u16 * 256 + slice[total_len - 1] as u16;
        let found = crate::crc::crc16(vstd::slice::slice_subrange(slice, 0, total_len - 2));
        if expected != found {
            return Err(PusError::IncorrectCrc { expected, found });
        }
        let pus_tc = PusTc {
            sp_header,
            sec_header: PusTcSecondaryHeader::from_zc(sec_header),
            raw_data: Some(raw_data),
            app_data,
            calc_crc_on_serialization: false,
            crc16: Some(expected),
        };
        Ok((pus_tc, total_len))
    }

    /// Same as [PusTc::raw_bytes].
    pub fn raw(&self) -> (r: Option<&'raw_data [u8]>)
        ensures
            opt_bytes(r) == self@.raw_data,
    {
        self.raw_bytes()
    }

    /// The bytes that the packet was decoded from, if it was decoded; else `None`.
    pub fn raw_bytes(&self) -> (r: Option<&'raw_data [u8]>)
        ensures
            opt_bytes(r) == self@.raw_data,
    {
        self.raw_data
    }

    /// The application data, if any.
    pub fn user_data(&self) -> (r: Option<&'raw_data [u8]>)
        ensures
            opt_bytes(r) == self@.app_data,
    {
        self.app_data
    }

    /// The cached checksum, if it was computed or decoded.
    pub fn crc16(&self) -> (r: Option<u16>)
        ensures
            r == self@.crc16,
    {
        self.crc16
    }
}

/// Length of optional application data.
pub open spec fn opt_len(d: Option<&[u8]>) -> int {
    match d {
        Some(s) => s@.len() as int,
        None => 0,
    }
}

fn slices_equal(x: &[u8], y: &[u8]) -> (r: bool)
    ensures
        r == (x@ == y@),
{
    if x.len() != y.len() {
        return false;
    }
    let mut i: usize = 0;
    while i < x.len()
        invariant
            i <= x@.len(),
            x@.len() == y@.len(),
            x@.subrange(0, i as int) == y@.subrange(0, i as int),
        decreases x@.len() - i,
    {
        if x[i] != y[i] {
            assert(x@[i as int] != y@[i as int]);
            return false;
        }
        i = i + 1;
        assert(x@.subrange(0, i as int) =~= y@.subrange(0, i as int));
    }
    assert(x@ =~= x@.subrange(0, i as int));
    assert(y@ =~= y@.subrange(0, i as int));
    true
}

fn same_bytes(a: Option<&[u8]>, b: Option<&[u8]>) -> (r: bool)
    ensures
        r == (opt_bytes_or_empty(a) == opt_bytes_or_empty(b)),
{
    match (a, b) {
        (Some(x), Some(y)) => slices_equal(x, y),
        (Some(x), None) => {
            assert(x@.len() == 0 ==> x@ =~= Seq::<u8>::empty());
            x.len() == 0
        },
        (None, Some(y)) => {
            assert(y@.len() == 0 ==> y@ =~= Seq::<u8>::empty());
            y.len() == 0
        },
        (None, None) => true,
    }
}

pub open spec fn opt_bytes_or_empty(d: Option<&[u8]>) -> Seq<u8> {
    match d {
        Some(s) => s@,
        None => Seq::empty(),
    }
}

impl<'a> PartialEq for PusTc<'a> {
    fn eq(&self, other: &Self) -> (r: bool) {
        self.sp_header == other.sp_header && self.sec_header == other.sec_header && same_bytes(
            self.app_data,
            other.app_data,
        )
    }
}

impl<'a> vstd::std_specs::cmp::PartialEqSpecImpl for PusTc<'a> {
    open spec fn obeys_eq_spec() -> bool {
        true
    }

    open spec fn eq_spec(&self, other: &PusTc<'a>) -> bool {
        self@.same_packet(other@)
    }
}

impl<'a> GenericPusTcSecondaryHeader for PusTc<'a> {
    fn pus_version(&self) -> (r: PusVersion)
        ensures
            r == self@.sec_header.version,
    {
        self.sec_header.pus_version()
    }

    fn ack_flags(&self) -> (r: u8)
        ensures
            r == self@.sec_header.ack,
    {
        self.sec_header.ack_flags()
    }

    fn service(&self) -> (r: u8)
        ensures
            r == self@.sec_header.service,
    {
        self.sec_header.service()
    }

    fn subservice(&self) -> (r: u8)
        ensures
            r == self@.sec_header.subservice,
    {
        self.sec_header.subservice()
    }

    fn source_id(&self) -> (r: u16)
        ensures
            r == self@.sec_header.source_id,
    {
        self.sec_header.source_id()
    }
}

/// Decoding the bytes that encoding writes gives back an equal packet (same primary
/// header, secondary header and application data), with the packed length as the
/// decoded length, where the packet is valid, its data length field is set and the
/// checksum that encoding writes is current.
pub proof fn lemma_decode_inverts_encode<'a>(tc: PusTc<'a>)
    requires
        tc.wf(),
        tc@.sec_header.wf(),
        tc@.sp_header.spec_total_len() == tc@.len_packed(),
        tc@.checksum_for_encoding() == Some(crc16_ccitt_false(tc@.body())),
    ensures
        ({
            let c = crc16_ccitt_false(tc@.body());
            let b = tc@.encoding(c);
            tc_from_bytes_spec(b) matches Ok((d, n)) && n == tc@.len_packed() && d.same_packet(
                tc@,
            ) && d.crc16 == Some(c) && d.raw_data == Some(b)
        }),
{
    let v = tc@;
    let c = crc16_ccitt_false(v.body());
    let b = v.encoding(c);
    let total = v.len_packed();
    let sb = v.sp_header.spec_bytes();
    crate::ccsds::lemma_sp_header_bytes_round_trip(v.sp_header);
    assert(b[0] == sb[0] && b[1] == sb[1] && b[2] == sb[2] && b[3] == sb[3] && b[4] == sb[4]
        && b[5] == sb[5]);
    assert(sp_header_of_bytes(b) == sp_header_of_bytes(sb));
    assert(b.len() == total);
    assert(b[total - 2] == (c / 256) as u8);
    assert(b[total - 1] == (c % 256) as u8);
    assert(trailer_of(b, total as int) == c);
    assert(b.subrange(0, total - 2) =~= v.body());
    assert(b.subrange(6, 11) =~= sec_header_bytes(v.sec_header));
    assert(sec_header_of_bytes(b.subrange(6, 11)) == v.sec_header);
    assert(b.subrange(0, total as int) =~= b);
    if total > PUS_TC_MIN_LEN_WITHOUT_APP_DATA {
        assert(b.subrange(11, total - 2) =~= v.app_bytes());
    } else {
        assert(v.app_bytes() =~= Seq::<u8>::empty());
    }
}

/// Changing one bit of an encoded packet, anywhere before the checksum trailer but in
/// the data length field, makes decoding fail with a checksum mismatch.
pub proof fn lemma_bit_flip_detected<'a>(tc: PusTc<'a>, k: int, bit: u8)
    requires
        tc.wf(),
        tc@.sp_header.spec_total_len() == tc@.len_packed(),
        tc@.checksum_for_encoding() == Some(crc16_ccitt_false(tc@.body())),
        0 <= k < tc@.len_packed() - 2,
        k != 4 && k != 5,
        bit < 8,
    ensures
        ({
            let b = tc@.encoding(crc16_ccitt_false(tc@.body()));
            let flipped = b.update(k, b[k] ^ (1u8 << bit));
            tc_from_bytes_spec(flipped) matches Err(PusError::IncorrectCrc { .. })
        }),
{
    let v = tc@;
    let c = crc16_ccitt_false(v.body());
    let b = v.encoding(c);
    let total = v.len_packed();
    let x = b[k];
    let y = (x ^ (1u8 << bit)) as u8;
    assert(x ^ (1u8 << bit) != x) by (bit_vector)
        requires
            bit < 8,
    ;
    let flipped = b.update(k, y);
    let sb = v.sp_header.spec_bytes();
    crate::ccsds::lemma_sp_header_bytes_round_trip(v.sp_header);
    assert(b[4] == sb[4] && b[5] == sb[5]);
    assert(flipped[4] == b[4] && flipped[5] == b[5]);
    assert(sp_header_of_bytes(flipped).data_len == v.sp_header.data_len);
    assert(b[total - 2] == (c / 256) as u8);
    assert(b[total - 1] == (c % 256) as u8);
    assert(trailer_of(flipped, total as int) == c);
    assert(b.subrange(0, total - 2) =~= v.body());
    let s = v.body();
    let t = flipped.subrange(0, total - 2);
    assert forall|i: int| 0 <= i < s.len() && i != k implies s[i] == t[i] by {
        assert(s[i] == b[i]);
    }
    assert(s[k] == x);
    crate::crc::lemma_crc_detects_single_byte_change(s, t, k);
}

/// With the automatic checksum off, encoding has no checksum to write until one is
/// computed; once it is computed, it is the checksum that the automatic mode writes.
pub proof fn lemma_manual_checksum<'a>(tc: PusTc<'a>)
    requires
        !tc@.calc_crc_on_serialization,
    ensures
        tc@.crc16 is None ==> tc@.checksum_for_encoding() is None,
        (PusTcView {
            crc16: Some(crc16_ccitt_false(tc@.body())),
            ..tc@
        }).checksum_for_encoding() == (PusTcView {
            calc_crc_on_serialization: true,
            ..tc@
        }).checksum_for_encoding(),
{
}

} // verus!
