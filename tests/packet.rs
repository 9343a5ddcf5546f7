use spacepackets::ccsds::PacketType;
use spacepackets::crc::crc16;
use spacepackets::ecss::{PusError, PusVersion};
use spacepackets::tc::zc;
use spacepackets::tc::{GenericPusTcSecondaryHeader, PusTc, PusTcSecondaryHeader};
use spacepackets::{ByteConversionError, SequenceFlags, SizeMissmatch, SpHeader};

fn ping(app_data: Option<&[u8]>) -> PusTc<'_> {
    let mut sph = SpHeader::tc_unseg(0x02, 0x34, 0).unwrap();
    PusTc::new_simple(&mut sph, 17, 1, app_data, true)
}

const PING: [u8; 13] = [
    0x18, 0x02, 0xc0, 0x34, 0x00, 0x06, 0x2f, 0x11, 0x01, 0x00, 0x00, 0xee, 0x63,
];

#[test]
fn crc_check_value() {
    assert_eq!(crc16(b"123456789"), 0x29b1);
    assert_eq!(crc16(&[]), 0xffff);
    assert_eq!(crc16(&PING[..11]), 0xee63);
}

#[test]
fn ping_encodes_exactly() {
    let mut buf = [0u8; 13];
    assert_eq!(ping(None).write_to_bytes(&mut buf), Ok(13));
    assert_eq!(buf, PING);
    let mut v = vec![0x55];
    assert_eq!(ping(None).append_to_vec(&mut v), Ok(13));
    assert_eq!(v[0], 0x55);
    assert_eq!(&v[1..], &PING[..]);
}

#[test]
fn payload_changes_only_length_and_checksum() {
    let data = [1u8, 2, 3];
    let tc = ping(Some(&data));
    let mut buf = [0u8; 16];
    assert_eq!(tc.write_to_bytes(&mut buf), Ok(16));
    assert_eq!(&buf[0..4], &PING[0..4]);
    assert_eq!(&buf[4..6], &[0x00, 0x09]);
    assert_eq!(&buf[6..11], &PING[6..11]);
    assert_eq!(&buf[11..14], &data);
    let c = crc16(&buf[..14]);
    assert_eq!(&buf[14..16], &c.to_be_bytes());
    assert_ne!(c, 0xee63);
}

#[test]
fn round_trip_various_payloads() {
    for n in [0usize, 1, 2, 3, 17, 200] {
        let data: Vec<u8> = (0..n).map(|i| (i * 7 + 3) as u8).collect();
        let tc = if n == 0 { ping(None) } else { ping(Some(&data)) };
        let mut buf = vec![0u8; n + 20];
        let written = tc.write_to_bytes(&mut buf).unwrap();
        assert_eq!(written, 13 + n);
        let (back, len) = PusTc::from_bytes(&buf).unwrap();
        assert_eq!(len, tc.len_packed());
        assert_eq!(back, tc);
        assert_eq!(back.raw_bytes().unwrap(), &buf[..13 + n]);
        assert!(!back.calc_crc_on_serialization);
        assert_eq!(back.crc16(), Some(crc16(&buf[..11 + n])));
    }
}

#[test]
fn empty_payload_equals_none() {
    let empty: [u8; 0] = [];
    let a = ping(Some(&empty));
    let b = ping(None);
    assert_eq!(a, b);
    let mut buf = [0u8; 13];
    a.write_to_bytes(&mut buf).unwrap();
    let (back, _) = PusTc::from_bytes(&buf).unwrap();
    assert!(back.user_data().is_none());
    assert_eq!(back, a);
}

#[test]
fn packets_with_different_payloads_differ() {
    let a = ping(Some(&[1, 2, 3]));
    let b = ping(Some(&[1, 2, 4]));
    assert_ne!(a, b);
    assert_ne!(a, ping(None));
}

#[test]
fn every_single_bit_flip_is_detected() {
    let data = [9u8, 8, 7, 6];
    let tc = ping(Some(&data));
    let mut buf = [0u8; 17];
    tc.write_to_bytes(&mut buf).unwrap();
    for k in 0..15 {
        if k == 4 || k == 5 {
            continue;
        }
        for bit in 0..8 {
            let mut f = buf;
            f[k] ^= 1 << bit;
            let res = PusTc::from_bytes(&f);
            assert!(
                matches!(res, Err(PusError::IncorrectCrc { .. })),
                "byte {} bit {}",
                k,
                bit
            );
        }
    }
}

#[test]
fn incorrect_crc_carries_both_values() {
    let mut buf = PING;
    buf[12] = 0x64;
    assert_eq!(
        PusTc::from_bytes(&buf).unwrap_err(),
        PusError::IncorrectCrc {
            expected: 0xee64,
            found: 0xee63
        }
    );
}

#[test]
fn length_accounting() {
    let data = [0u8; 40];
    let mut sph = SpHeader::tc_unseg(0x02, 0x34, 0).unwrap();
    let mut tc = PusTc::new_simple(&mut sph, 17, 1, Some(&data), false);
    assert_eq!(tc.len_packed(), 6 + 5 + 40 + 2);
    assert_eq!(tc.data_len(), 0);
    tc.update_ccsds_data_len();
    assert_eq!(tc.data_len(), 46);
    assert_eq!(tc.total_len(), tc.len_packed());
}

#[test]
fn new_forces_telecommand_with_secondary_header() {
    let mut sph = SpHeader::tm_unseg(0x10, 5, 0).unwrap();
    assert_eq!(sph.packet_type(), PacketType::Tm);
    assert!(!sph.sec_header_flag());
    let tc = PusTc::new_simple(&mut sph, 3, 4, None, false);
    assert_eq!(sph.packet_type(), PacketType::Tc);
    assert!(sph.sec_header_flag());
    assert_eq!(sph.data_len(), 0);
    assert_eq!(tc.packet_type(), PacketType::Tc);
    assert_eq!(tc.raw_bytes(), None);
}

#[test]
fn manual_checksum_matches_automatic() {
    let data = [4u8, 5];
    let auto_tc = ping(Some(&data));
    let mut manual = ping(Some(&data));
    manual.calc_crc_on_serialization = false;
    let mut v = Vec::new();
    assert_eq!(manual.append_to_vec(&mut v), Err(PusError::CrcCalculationMissing));
    assert!(v.is_empty());
    manual.calc_own_crc16();
    let mut a = [0u8; 15];
    let mut m = [0u8; 15];
    auto_tc.write_to_bytes(&mut a).unwrap();
    manual.write_to_bytes(&mut m).unwrap();
    assert_eq!(a, m);
    assert_eq!(manual.crc16(), Some(crc16(&a[..13])));
}

#[test]
fn stale_cached_checksum_is_written() {
    let mut tc = ping(None);
    tc.calc_crc_on_serialization = false;
    tc.calc_own_crc16();
    tc.set_source_id(7);
    let mut buf = [0u8; 13];
    tc.write_to_bytes(&mut buf).unwrap();
    assert_eq!(&buf[11..13], &[0xee, 0x63]);
    assert!(matches!(
        PusTc::from_bytes(&buf),
        Err(PusError::IncorrectCrc { .. })
    ));
    tc.update_packet_fields();
    tc.write_to_bytes(&mut buf).unwrap();
    assert!(PusTc::from_bytes(&buf).is_ok());
}

#[test]
fn unsupported_version_is_refused() {
    let mut tc = ping(None);
    tc.sec_header.version = PusVersion::PusA;
    let mut buf = [7u8; 13];
    assert_eq!(
        tc.write_to_bytes(&mut buf),
        Err(PusError::VersionNotSupported(PusVersion::PusA))
    );
    assert_eq!(buf, [7u8; 13]);
    let mut v = Vec::new();
    assert_eq!(
        tc.append_to_vec(&mut v),
        Err(PusError::VersionNotSupported(PusVersion::PusA))
    );
}

#[test]
fn decode_too_short() {
    assert_eq!(
        PusTc::from_bytes(&PING[..12]),
        Err(PusError::RawDataTooShort(12))
    );
    // Declared length 14 with only 13 bytes given.
    let mut buf = PING;
    buf[5] = 7;
    assert_eq!(PusTc::from_bytes(&buf), Err(PusError::RawDataTooShort(13)));
    // Declared length 12, below the minimum.
    let mut buf = [0u8; 20];
    buf[..13].copy_from_slice(&PING);
    buf[5] = 5;
    assert_eq!(PusTc::from_bytes(&buf), Err(PusError::RawDataTooShort(20)));
}

#[test]
fn decode_reports_foreign_version() {
    let mut buf = PING;
    buf[6] = 0xf5;
    let c = crc16(&buf[..11]);
    buf[11..13].copy_from_slice(&c.to_be_bytes());
    let (tc, _) = PusTc::from_bytes(&buf).unwrap();
    assert_eq!(tc.pus_version(), PusVersion::Invalid);
    assert_eq!(tc.ack_flags(), 5);
    let mut buf2 = PING;
    buf2[6] = 0x1f;
    let c = crc16(&buf2[..11]);
    buf2[11..13].copy_from_slice(&c.to_be_bytes());
    let (tc, _) = PusTc::from_bytes(&buf2).unwrap();
    assert_eq!(tc.pus_version(), PusVersion::PusA);
}

#[test]
fn set_ack_field_refuses_wide_values() {
    let mut tc = ping(None);
    assert!(!tc.set_ack_field(0x10));
    assert_eq!(tc.ack_flags(), 0b1111);
    assert!(tc.set_ack_field(0b0101));
    assert_eq!(tc.ack_flags(), 0b0101);
    assert!(!tc.set_apid(0x800));
    assert!(!tc.set_seq_count(0x4000));
    assert_eq!(tc.apid(), 0x02);
}

#[test]
fn secondary_header_constructors() {
    let h = PusTcSecondaryHeader::new(1, 2, 0xfa, 0x1234);
    assert_eq!(h.ack, 0x0a);
    assert_eq!(h.version, PusVersion::PusC);
    let s = PusTcSecondaryHeader::new_simple(3, 4);
    assert_eq!(s.ack, 0b1111);
    assert_eq!(s.source_id, 0);
}

#[test]
fn secondary_header_wire_form() {
    let h = PusTcSecondaryHeader::new(17, 2, 0b1001, 0xabcd);
    let z = zc::PusTcSecondaryHeader::try_from_header(h).unwrap();
    let mut out = [0u8; 5];
    assert_eq!(z.write_to_bytes(&mut out), Some(()));
    assert_eq!(out, [0x29, 17, 2, 0xab, 0xcd]);
    let mut wrong = [0u8; 6];
    assert_eq!(z.write_to_bytes(&mut wrong), None);
    let back = zc::PusTcSecondaryHeader::from_bytes(&out).unwrap();
    assert_eq!(back.source_id(), 0xabcd);
    assert_eq!(PusTcSecondaryHeader::from_zc(back), h);
    assert!(zc::PusTcSecondaryHeader::from_bytes(&out[..4]).is_none());
    let mut bad = h;
    bad.version = PusVersion::EsaPus;
    assert_eq!(
        zc::PusTcSecondaryHeader::try_from_header(bad),
        Err(PusError::VersionNotSupported(PusVersion::EsaPus))
    );
}

#[test]
fn primary_header_bytes() {
    let mut h = SpHeader::tc_unseg(0x7ff, 0x3fff, 0xbeef).unwrap();
    h.set_sec_header_flag();
    h.set_seq_flags(SequenceFlags::FirstSegment);
    let mut buf = [0u8; 8];
    assert_eq!(h.write_to_be_bytes(&mut buf), Ok(()));
    assert_eq!(buf, [0x1f, 0xff, 0x7f, 0xff, 0xbe, 0xef, 0, 0]);
    let (back, rest) = SpHeader::from_be_bytes(&buf).unwrap();
    assert_eq!(back, h);
    assert_eq!(rest.len(), 2);
    assert_eq!(back.total_len(), 0xbeef + 7);
    assert!(SpHeader::tc_unseg(0x800, 0, 0).is_none());
    assert_eq!(
        SpHeader::from_be_bytes(&buf[..5]).unwrap_err(),
        ByteConversionError::FromSliceTooSmall(SizeMissmatch {
            found: 5,
            expected: 6
        })
    );
    let mut small = [0u8; 3];
    assert_eq!(
        h.write_to_be_bytes(&mut small),
        Err(ByteConversionError::ToSliceTooSmall(SizeMissmatch {
            found: 3,
            expected: 6
        }))
    );
}

#[test]
fn checksum_mode_setter() {
    let mut tc = ping(None);
    tc.set_calc_crc_on_serialization(false);
    assert!(!tc.calc_crc_on_serialization);
    let mut buf = [0u8; 13];
    assert_eq!(tc.write_to_bytes(&mut buf), Err(PusError::CrcCalculationMissing));
    tc.set_calc_crc_on_serialization(true);
    assert_eq!(tc.write_to_bytes(&mut buf), Ok(13));
    assert_eq!(buf, PING);
}
