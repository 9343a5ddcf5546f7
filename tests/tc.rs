use spacepackets::ecss::{PusError, PusVersion};
use spacepackets::tc::{GenericPusTcSecondaryHeader, PusTc, PusTcSecondaryHeader, ACK_ALL};
use spacepackets::{ByteConversionError, SequenceFlags, SpHeader};

fn base_ping_tc_full_ctor() -> PusTc<'static> {
    let mut sph = SpHeader::tc_unseg(0x02, 0x34, 0).unwrap();
    let tc_header = PusTcSecondaryHeader::new_simple(17, 1);
    PusTc::new(&mut sph, tc_header, None, true)
}

fn base_ping_tc_simple_ctor() -> PusTc<'static> {
    let mut sph = SpHeader::tc_unseg(0x02, 0x34, 0).unwrap();
    PusTc::new_simple(&mut sph, 17, 1, None, true)
}

fn base_ping_tc_simple_ctor_with_app_data(app_data: &'static [u8]) -> PusTc<'static> {
    let mut sph = SpHeader::tc_unseg(0x02, 0x34, 0).unwrap();
    PusTc::new_simple(&mut sph, 17, 1, Some(app_data), true)
}

fn verify_test_tc(tc: &PusTc, has_user_data: bool, exp_full_len: usize) {
    assert_eq!(tc.service(), 17);
    assert_eq!(tc.subservice(), 1);
    assert!(tc.sec_header_flag());
    assert_eq!(tc.pus_version(), PusVersion::PusC);
    if !has_user_data {
        assert_eq!(tc.user_data(), None);
    }
    assert_eq!(tc.seq_count(), 0x34);
    assert_eq!(tc.source_id(), 0);
    assert_eq!(tc.apid(), 0x02);
    assert_eq!(tc.ack_flags(), ACK_ALL);
    assert_eq!(tc.len_packed(), exp_full_len);
    let mut comp_header = SpHeader::tc_unseg(0x02, 0x34, exp_full_len as u16 - 7).unwrap();
    comp_header.set_sec_header_flag();
    assert_eq!(*tc.sp_header(), comp_header);
}

fn verify_test_tc_raw(slice: &[u8]) {
    assert_eq!(slice[0], 0x18);
    assert_eq!(slice[1], 0x02);
    assert_eq!(slice[2], 0xc0);
    assert_eq!(slice[3], 0x34);
    assert_eq!(slice[4], 0x00);
    assert_eq!(slice[5], 0x06);
    assert_eq!(slice[6], 0x2f);
    assert_eq!(slice[7], 0x11);
    assert_eq!(slice[8], 0x01);
    assert_eq!(slice[9], 0x00);
    assert_eq!(slice[10], 0x00);
}

fn verify_crc_no_app_data(slice: &[u8]) {
    assert_eq!(slice[11], 0xee);
    assert_eq!(slice[12], 0x63);
}

#[test]
fn test_tc_fields() {
    let pus_tc = base_ping_tc_full_ctor();
    assert_eq!(pus_tc.crc16(), None);
    verify_test_tc(&pus_tc, false, 13);
}

#[test]
fn test_serialization() {
    let pus_tc = base_ping_tc_simple_ctor();
    let mut test_buf: [u8; 32] = [0; 32];
    let size = pus_tc
        .write_to_bytes(test_buf.as_mut_slice())
        .expect("Error writing TC to buffer");
    assert_eq!(size, 13);
}

#[test]
fn test_deserialization() {
    let pus_tc = base_ping_tc_simple_ctor();
    let mut test_buf: [u8; 32] = [0; 32];
    let size = pus_tc
        .write_to_bytes(test_buf.as_mut_slice())
        .expect("Error writing TC to buffer");
    assert_eq!(size, 13);
    let (tc_from_raw, size) =
        PusTc::from_bytes(&test_buf).expect("Creating PUS TC struct from raw buffer failed");
    assert_eq!(size, 13);
    verify_test_tc(&tc_from_raw, false, 13);
    assert!(tc_from_raw.user_data().is_none());
    verify_test_tc_raw(&test_buf);
    verify_crc_no_app_data(&test_buf);
}

#[test]
fn test_update_func() {
    let mut sph = SpHeader::tc_unseg(0x02, 0x34, 0).unwrap();
    let mut tc = PusTc::new_simple(&mut sph, 17, 1, None, false);
    tc.calc_crc_on_serialization = false;
    assert_eq!(tc.data_len(), 0);
    tc.update_packet_fields();
    assert_eq!(tc.data_len(), 6);
}

#[test]
fn test_deserialization_with_app_data() {
    let pus_tc = base_ping_tc_simple_ctor_with_app_data(&[1, 2, 3]);
    let mut test_buf: [u8; 32] = [0; 32];
    let size = pus_tc
        .write_to_bytes(test_buf.as_mut_slice())
        .expect("Error writing TC to buffer");
    assert_eq!(size, 16);
    let (tc_from_raw, size) =
        PusTc::from_bytes(&test_buf).expect("Creating PUS TC struct from raw buffer failed");
    assert_eq!(size, 16);
    verify_test_tc(&tc_from_raw, true, 16);
    let user_data = tc_from_raw.user_data().unwrap();
    assert_eq!(user_data[0], 1);
    assert_eq!(user_data[1], 2);
    assert_eq!(user_data[2], 3);
}

#[test]
fn test_vec_ser_deser() {
    let pus_tc = base_ping_tc_simple_ctor();
    let mut test_vec = Vec::new();
    let size = pus_tc
        .append_to_vec(&mut test_vec)
        .expect("Error writing TC to vector");
    assert_eq!(size, 13);
    verify_test_tc_raw(test_vec.as_slice());
    verify_crc_no_app_data(test_vec.as_slice());
}

#[test]
fn test_incorrect_crc() {
    let pus_tc = base_ping_tc_simple_ctor();
    let mut test_buf: [u8; 32] = [0; 32];
    pus_tc
        .write_to_bytes(test_buf.as_mut_slice())
        .expect("Error writing TC to buffer");
    test_buf[12] = 0;
    let res = PusTc::from_bytes(&test_buf);
    assert!(res.is_err());
    let err = res.unwrap_err();
    assert!(matches!(err, PusError::IncorrectCrc { .. }));
}

#[test]
fn test_manual_crc_calculation() {
    let mut pus_tc = base_ping_tc_simple_ctor();
    pus_tc.calc_crc_on_serialization = false;
    let mut test_buf: [u8; 32] = [0; 32];
    pus_tc.calc_own_crc16();
    pus_tc
        .write_to_bytes(test_buf.as_mut_slice())
        .expect("Error writing TC to buffer");
    verify_test_tc_raw(&test_buf);
    verify_crc_no_app_data(&test_buf);
}

#[test]
fn test_manual_crc_calculation_no_calc_call() {
    let mut pus_tc = base_ping_tc_simple_ctor();
    pus_tc.calc_crc_on_serialization = false;
    let mut test_buf: [u8; 32] = [0; 32];
    let res = pus_tc.write_to_bytes(test_buf.as_mut_slice());
    assert!(res.is_err());
    let err = res.unwrap_err();
    assert!(matches!(err, PusError::CrcCalculationMissing { .. }));
}

#[test]
fn test_with_application_data_vec() {
    let pus_tc = base_ping_tc_simple_ctor_with_app_data(&[1, 2, 3]);
    verify_test_tc(&pus_tc, true, 16);
    let mut test_vec = Vec::new();
    let size = pus_tc
        .append_to_vec(&mut test_vec)
        .expect("Error writing TC to vector");
    assert_eq!(test_vec[11], 1);
    assert_eq!(test_vec[12], 2);
    assert_eq!(test_vec[13], 3);
    assert_eq!(size, 16);
}

#[test]
fn test_write_buf_too_small() {
    let pus_tc = base_ping_tc_simple_ctor();
    let mut test_buf = [0; 12];
    let res = pus_tc.write_to_bytes(test_buf.as_mut_slice());
    assert!(res.is_err());
    let err = res.unwrap_err();
    match err {
        PusError::ByteConversionError(err) => match err {
            ByteConversionError::ToSliceTooSmall(missmatch) => {
                assert_eq!(missmatch.expected, pus_tc.len_packed());
                assert_eq!(missmatch.found, 12);
            }
            _ => panic!("Unexpected error"),
        },
        _ => panic!("Unexpected error"),
    }
}

#[test]
fn test_with_application_data_buf() {
    let pus_tc = base_ping_tc_simple_ctor_with_app_data(&[1, 2, 3]);
    verify_test_tc(&pus_tc, true, 16);
    let mut test_buf: [u8; 32] = [0; 32];
    let size = pus_tc
        .write_to_bytes(test_buf.as_mut_slice())
        .expect("Error writing TC to buffer");
    assert_eq!(test_buf[11], 1);
    assert_eq!(test_buf[12], 2);
    assert_eq!(test_buf[13], 3);
    assert_eq!(size, 16);
}

#[test]
fn test_custom_setters() {
    let mut pus_tc = base_ping_tc_simple_ctor();
    let mut test_buf: [u8; 32] = [0; 32];
    pus_tc.set_apid(0x7ff);
    pus_tc.set_seq_count(0x3fff);
    pus_tc.set_ack_field(0b11);
    pus_tc.set_source_id(0xffff);
    pus_tc.set_seq_flags(SequenceFlags::Unsegmented);
    assert_eq!(pus_tc.source_id(), 0xffff);
    assert_eq!(pus_tc.seq_count(), 0x3fff);
    assert_eq!(pus_tc.ack_flags(), 0b11);
    assert_eq!(pus_tc.apid(), 0x7ff);
    assert_eq!(pus_tc.sequence_flags(), SequenceFlags::Unsegmented);
    pus_tc.calc_own_crc16();
    pus_tc
        .write_to_bytes(test_buf.as_mut_slice())
        .expect("Error writing TC to buffer");
    assert_eq!(test_buf[0], 0x1f);
    assert_eq!(test_buf[1], 0xff);
    assert_eq!(test_buf[2], 0xff);
    assert_eq!(test_buf[3], 0xff);
    assert_eq!(test_buf[6], 0x23);
    assert_eq!(test_buf[9], 0xff);
    assert_eq!(test_buf[10], 0xff);
}

#[test]
fn partial_eq_pus_tc() {
    let pus_tc_1 = base_ping_tc_simple_ctor();
    let pus_tc_2 = base_ping_tc_full_ctor();
    assert_eq!(pus_tc_1, pus_tc_2);
}

#[test]
fn partial_eq_serialized_vs_derialized() {
    let pus_tc = base_ping_tc_simple_ctor();
    let mut buf = [0; 32];
    pus_tc.write_to_bytes(&mut buf).unwrap();
    assert_eq!(pus_tc, PusTc::from_bytes(&buf).unwrap().0);
}
