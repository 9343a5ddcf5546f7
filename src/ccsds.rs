//! The CCSDS space packet primary header: six bytes holding the packet identification,
//! the sequence control and the data length field.
use vstd::prelude::*;

verus! {

/// Length of the primary header in bytes.
pub const CCSDS_HEADER_LEN: usize = 6;

/// Largest application process identifier (11 bits).
pub const MAX_APID: u16 = 0x7ff;

/// Largest packet sequence count (14 bits).
pub const MAX_SEQ_COUNT: u16 = 0x3fff;

#[derive(PartialEq, Eq, Structural, Copy, Clone, Debug)]
pub enum PacketType {
    Tm,
    Tc,
}

#[derive(PartialEq, Eq, Structural, Copy, Clone, Debug)]
pub enum SequenceFlags {
    ContinuationSegment,
    FirstSegment,
    LastSegment,
    Unsegmented,
}

/// Found and expected sizes of a buffer that was too small.
#[derive(PartialEq, Eq, Structural, Copy, Clone, Debug)]
pub struct SizeMissmatch {
    pub found: usize,
    pub expected: usize,
}

#[derive(PartialEq, Eq, Structural, Copy, Clone, Debug)]
pub enum ByteConversionError {
    /// The destination buffer cannot hold the serialized data.
    ToSliceTooSmall(SizeMissmatch),
    /// The source buffer is shorter than the data to read from it.
    FromSliceTooSmall(SizeMissmatch),
}

#[derive(PartialEq, Eq, Structural, Copy, Clone, Debug)]
pub enum PacketError {
    /// The destination buffer, of the given length, is too small.
    ToBytesSliceTooSmall(usize),
}

pub open spec fn packet_type_code(t: PacketType) -> int {
    match t {
        PacketType::Tm => 0,
        PacketType::Tc => 1,
    }
}

pub open spec fn seq_flags_code(f: SequenceFlags) -> int {
    match f {
        SequenceFlags::ContinuationSegment => 0,
        SequenceFlags::FirstSegment => 1,
        SequenceFlags::LastSegment => 2,
        SequenceFlags::Unsegmented => 3,
    }
}

pub open spec fn seq_flags_of(v: int) -> SequenceFlags {
    if v == 0 {
        SequenceFlags::ContinuationSegment
    } else if v == 1 {
        SequenceFlags::FirstSegment
    } else if v == 2 {
        SequenceFlags::LastSegment
    } else {
        SequenceFlags::Unsegmented
    }
}

/// The primary header of a space packet.
#[derive(PartialEq, Eq, Structural, Copy, Clone, Debug)]
pub struct SpHeader {
    /// CCSDS version number (3 bits).
    pub version: u8,
    pub ptype: PacketType,
    pub sec_header_flag: bool,
    /// Application process identifier (11 bits).
    pub apid: u16,
    pub seq_flags: SequenceFlags,
    /// Packet sequence count (14 bits).
    pub seq_count: u16,
    /// Number of octets in the packet data field minus one.
    pub data_len: u16,
}

/// A header read from six bytes, big endian.
pub open spec fn sp_header_of_bytes(b: Seq<u8>) -> SpHeader
    recommends
        b.len() >= 6,
{
    SpHeader {
        version: (b[0] / 32) as u8,
        ptype: if (b[0] / 16) % 2 == 1 { PacketType::Tc } else { PacketType::Tm },
        sec_header_flag: (b[0] / 8) % 2 == 1,
        apid: ((b[0] % 8) * 256 + b[1]) as u16,
        seq_flags: seq_flags_of((b[2] / 64) as int),
        seq_count: ((b[2] % 64) * 256 + b[3]) as u16,
        data_len: (b[4] * 256 + b[5]) as u16,
    }
}

impl SpHeader {
    /// Every field fits the width that the wire format gives it.
    pub open spec fn wf(&self) -> bool {
        self.version < 8 && self.apid <= MAX_APID && self.seq_count <= MAX_SEQ_COUNT
    }

    /// The six bytes of the header, big endian.
    pub open spec fn spec_bytes(&self) -> Seq<u8> {
        seq![
            (self.version * 32 + packet_type_code(self.ptype) * 16 + (if self.sec_header_flag {
                8int
            } else {
                0int
            }) + self.apid / 256) as u8,
            (self.apid % 256) as u8,
            (seq_flags_code(self.seq_flags) * 64 + self.seq_count / 256) as u8,
            (self.seq_count % 256) as u8,
            (self.data_len / 256) as u8,
            (self.data_len % 256) as u8,
        ]
    }

    /// Length of the whole packet that the data length field declares.
    pub open spec fn spec_total_len(&self) -> nat {
        self.data_len as nat + 7
    }

    /// A header with the given fields; `None` where the APID or the sequence count is
    /// too large for its field.
    pub fn new(
        ptype: PacketType,
        sec_header_flag: bool,
        apid: u16,
        seq_flags: SequenceFlags,
        seq_count: u16,
        data_len: u16,
    ) -> (r: Option<SpHeader>)
        ensures
            r is Some <==> (apid <= MAX_APID && seq_count <= MAX_SEQ_COUNT),
            r matches Some(h) ==> h.wf() && h == (SpHeader {
                version: 0,
                ptype,
                sec_header_flag,
                apid,
                seq_flags,
                seq_count,
                data_len,
            }),
    {
        if apid > MAX_APID || seq_count > MAX_SEQ_COUNT {
            return None;
        }
        Some(SpHeader { version: 0, ptype, sec_header_flag, apid, seq_flags, seq_count, data_len })
    }

    /// An unsegmented telecommand header without the secondary header flag.
    pub fn tc_unseg(apid: u16, seq_count: u16, data_len: u16) -> (r: Option<SpHeader>)
        ensures
            r is Some <==> (apid <= MAX_APID && seq_count <= MAX_SEQ_COUNT),
            r matches Some(h) ==> h.wf() && h == (SpHeader {
                version: 0,
                ptype: PacketType::Tc,
                sec_header_flag: false,
                apid,
                seq_flags: SequenceFlags::Unsegmented,
                seq_count,
                data_len,
            }),
    {
        SpHeader::new(PacketType::Tc, false, apid, SequenceFlags::Unsegmented, seq_count, data_len)
    }

    /// An unsegmented telemetry header without the secondary header flag.
    pub fn tm_unseg(apid: u16, seq_count: u16, data_len: u16) -> (r: Option<SpHeader>)
        ensures
            r is Some <==> (apid <= MAX_APID && seq_count <= MAX_SEQ_COUNT),
            r matches Some(h) ==> h.wf() && h == (SpHeader {
                version: 0,
                ptype: PacketType::Tm,
                sec_header_flag: false,
                apid,
                seq_flags: SequenceFlags::Unsegmented,
                seq_count,
                data_len,
            }),
    {
        SpHeader::new(PacketType::Tm, false, apid, SequenceFlags::Unsegmented, seq_count, data_len)
    }

    /// Writes the six header bytes to the start of `buf`.
    pub fn write_to_be_bytes(&self, buf: &mut [u8]) -> (r: Result<(), ByteConversionError>)
        requires
            self.wf(),
        ensures
            old(buf)@.len() < CCSDS_HEADER_LEN ==> r == Err::<(), _>(
                ByteConversionError::ToSliceTooSmall(
                    SizeMissmatch { found: old(buf)@.len() as usize, expected: CCSDS_HEADER_LEN },
                ),
            ) && final(buf)@ == old(buf)@,
            old(buf)@.len() >= CCSDS_HEADER_LEN ==> r is Ok && final(buf)@ == self.spec_bytes()
                + old(buf)@.subrange(6, old(buf)@.len() as int),
    {
        if buf.len() < CCSDS_HEADER_LEN {
            return Err(
                ByteConversionError::ToSliceTooSmall(
                    SizeMissmatch { found: buf.len(), expected: CCSDS_HEADER_LEN },
                ),
            );
        }
        let ptype: u16 = match self.ptype {
            PacketType::Tm => 0,
            PacketType::Tc => 1,
        };
        let sec: u16 = if self.sec_header_flag {
            8
        } else {
            0
        };
        let flags: u16 = match self.seq_flags {
            SequenceFlags::ContinuationSegment => 0,
            SequenceFlags::FirstSegment => 1,
            SequenceFlags::LastSegment => 2,
            SequenceFlags::Unsegmented => 3,
        };
        buf[0] = (self.version as u16 * 32 + ptype * 16 + sec + self.apid / 256) as u8;
        buf[1] = (self.apid % 256) as u8;
        buf[2] = (flags * 64 + self.seq_count / 256) as u8;
        buf[3] = (self.seq_count % 256) as u8;
        buf[4] = (self.data_len / 256) as u8;
        buf[5] = (self.data_len % 256) as u8;
        assert(buf@ =~= self.spec_bytes() + old(buf)@.subrange(6, old(buf)@.len() as int));
        Ok(())
    }

    /// Reads a header from the first six bytes of `buf`; returns it with the bytes that
    /// follow it.
    pub fn from_be_bytes(buf: &[u8]) -> (r: Result<(SpHeader, &[u8]), ByteConversionError>)
        ensures
            buf@.len() < CCSDS_HEADER_LEN ==> r == Err::<(SpHeader, &[u8]), _>(
                ByteConversionError::FromSliceTooSmall(
                    SizeMissmatch { found: buf@.len() as usize, expected: CCSDS_HEADER_LEN },
                ),
            ),
            buf@.len() >= CCSDS_HEADER_LEN ==> (r matches Ok((h, rest)) && h == sp_header_of_bytes(
                buf@,
            ) && h.wf() && rest@ == buf@.subrange(6, buf@.len() as int)),
    {
        if buf.len() < CCSDS_HEADER_LEN {
            return Err(
                ByteConversionError::FromSliceTooSmall(
                    SizeMissmatch { found: buf.len(), expected: CCSDS_HEADER_LEN },
                ),
            );
        }
        let b0 = buf[0];
        let b2 = buf[2];
        let flags = if b2 / 64 == 0 {
            SequenceFlags::ContinuationSegment
        } else if b2 / 64 == 1 {
            SequenceFlags::FirstSegment
        } else if b2 / 64 == 2 {
            SequenceFlags::LastSegment
        } else {
            SequenceFlags::Unsegmented
        };
        let h = SpHeader {
            version: b0 / 32,
            ptype: if (b0 / 16) % 2 == 1 {
                PacketType::Tc
            } else {
                PacketType::Tm
            },
            sec_header_flag: (b0 / 8) % 2 == 1,
            apid: (b0 % 8) as u16 * 256 + buf[1] as u16,
            seq_flags: flags,
            seq_count: (b2 % 64) as u16 * 256 + buf[3] as u16,
            data_len: buf[4] as u16 * 256 + buf[5] as u16,
        };
        let rest = vstd::slice::slice_subrange(buf, CCSDS_HEADER_LEN, buf.len());
        Ok((h, rest))
    }

    pub fn ccsds_version(&self) -> (r: u8)
        ensures
            r == self.version,
    {
        self.version
    }

    pub fn packet_type(&self) -> (r: PacketType)
        ensures
            r == self.ptype,
    {
        self.ptype
    }

    pub fn sec_header_flag(&self) -> (r: bool)
        ensures
            r == self.sec_header_flag,
    {
        self.sec_header_flag
    }

    pub fn apid(&self) -> (r: u16)
        ensures
            r == self.apid,
    {
        self.apid
    }

    pub fn sequence_flags(&self) -> (r: SequenceFlags)
        ensures
            r == self.seq_flags,
    {
        self.seq_flags
    }

    pub fn seq_count(&self) -> (r: u16)
        ensures
            r == self.seq_count,
    {
        self.seq_count
    }

    pub fn data_len(&self) -> (r: u16)
        ensures
            r == self.data_len,
    {
        self.data_len
    }

    /// Total packet length declared by the data length field.
    pub fn total_len(&self) -> (r: usize)
        ensures
            r == self.spec_total_len(),
    {
        self.data_len as usize + 7
    }

    pub fn set_packet_type(&mut self, ptype: PacketType)
        ensures
            *final(self) == (SpHeader { ptype, ..*old(self) }),
    {
        self.ptype = ptype;
    }

    pub fn set_sec_header_flag(&mut self)
        ensures
            *final(self) == (SpHeader { sec_header_flag: true, ..*old(self) }),
    {
        self.sec_header_flag = true;
    }

    pub fn clear_sec_header_flag(&mut self)
        ensures
            *final(self) == (SpHeader { sec_header_flag: false, ..*old(self) }),
    {
        self.sec_header_flag = false;
    }

    /// Sets the APID; returns false, leaving the header as it was, where it does not fit
    /// in 11 bits.
    pub fn set_apid(&mut self, apid: u16) -> (r: bool)
        ensures
            r == (apid <= MAX_APID),
            r ==> *final(self) == (SpHeader { apid, ..*old(self) }),
            !r ==> *final(self) == *old(self),
    {
        if apid > MAX_APID {
            return false;
        }
        self.apid = apid;
        true
    }

    /// Sets the sequence count; returns false, leaving the header as it was, where it
    /// does not fit in 14 bits.
    pub fn set_seq_count(&mut self, seq_count: u16) -> (r: bool)
        ensures
            r == (seq_count <= MAX_SEQ_COUNT),
            r ==> *final(self) == (SpHeader { seq_count, ..*old(self) }),
            !r ==> *final(self) == *old(self),
    {
        if seq_count > MAX_SEQ_COUNT {
            return false;
        }
        self.seq_count = seq_count;
        true
    }

    pub fn set_seq_flags(&mut self, seq_flags: SequenceFlags)
        ensures
            *final(self) == (SpHeader { seq_flags, ..*old(self) }),
    {
        self.seq_flags = seq_flags;
    }

    pub fn set_data_len(&mut self, data_len: u16)
        ensures
            *final(self) == (SpHeader { data_len, ..*old(self) }),
    {
        self.data_len = data_len;
    }
}

/// Reading the bytes that a well-formed header writes gives the header back.
pub proof fn lemma_sp_header_bytes_round_trip(h: SpHeader)
    requires
        h.wf(),
    ensures
        sp_header_of_bytes(h.spec_bytes()) == h,
{
    let b = h.spec_bytes();
    assert(seq_flags_of((b[2] / 64) as int) == h.seq_flags);
}

} // verus!
