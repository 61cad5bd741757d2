use obd2::decode::{
    decode_dtc_info, decode_dtcs, decode_ecu_dtc_info, decode_ecu_dtcs, decode_rpm, decode_speed,
    decode_vin,
};
use obd2::{Dtc, DtcsInfo, Error, Rpm};

fn other_message(e: Error) -> String {
    match e {
        Error::Other(message) => message,
        e => panic!("expected Error::Other, got {:?}", e),
    }
}

#[test]
fn dtc_info_example_decodes_every_field() {
    let infos = decode_dtc_info(&vec![vec![0x81, 0x98, 0x02, 0x03]]).unwrap();
    assert_eq!(infos.len(), 1);
    let info = infos[0];
    assert!(info.malfunction_indicator_light);
    assert_eq!(info.dtc_count, 1);
    assert!(info.is_compression_engine);
    assert_eq!(info.specific_test_availability, 0x0302);
    // 0x98 = 1001_1000: the high nibble 1001 moves down one place, the low bits are 000.
    assert_eq!(info.common_test_availability, 0b0100_1000);
}

#[test]
fn dtc_info_matches_the_bit_fields_for_every_pair_of_leading_bytes() {
    for b0 in 0..=255u8 {
        for b1 in 0..=255u8 {
            let info = DtcsInfo::decode(&[b0, b1, b0, b1]);
            assert_eq!(info.malfunction_indicator_light, (b0 & 0x80) == 0x80);
            assert_eq!(info.dtc_count, b0 & 0x7f);
            assert_eq!(info.common_test_availability, ((b1 & 0xf0) >> 1) | (b1 & 0x07));
            assert_eq!(info.is_compression_engine, (b1 & 0x08) == 0x08);
            assert_eq!(info.specific_test_availability, ((b1 as u16) << 8) | (b0 as u16));
            assert!(info.dtc_count < 128);
            assert!(info.common_test_availability < 128);
        }
    }
}

#[test]
fn dtc_info_all_clear_and_all_set() {
    let clear = DtcsInfo::decode(&[0, 0, 0, 0]);
    assert_eq!(
        clear,
        DtcsInfo {
            malfunction_indicator_light: false,
            dtc_count: 0,
            common_test_availability: 0,
            is_compression_engine: false,
            specific_test_availability: 0,
        }
    );
    let set = DtcsInfo::decode(&[0xff, 0xff, 0xff, 0xff]);
    assert_eq!(
        set,
        DtcsInfo {
            malfunction_indicator_light: true,
            dtc_count: 127,
            common_test_availability: 127,
            is_compression_engine: true,
            specific_test_availability: 0xffff,
        }
    );
}

#[test]
fn dtc_info_keeps_the_order_of_the_ecus() {
    let infos =
        decode_dtc_info(&vec![vec![0x02, 0x00, 0x00, 0x00], vec![0x85, 0x08, 0x34, 0x12]]).unwrap();
    assert_eq!(infos.len(), 2);
    assert_eq!(infos[0].dtc_count, 2);
    assert!(!infos[0].malfunction_indicator_light);
    assert_eq!(infos[1].dtc_count, 5);
    assert!(infos[1].malfunction_indicator_light);
    assert!(infos[1].is_compression_engine);
    assert_eq!(infos[1].specific_test_availability, 0x1234);
}

#[test]
fn dtc_info_of_no_ecu_is_empty() {
    assert_eq!(decode_dtc_info(&vec![]).unwrap(), vec![]);
}

#[test]
fn dtc_info_rejects_a_short_payload_with_its_length() {
    let e = decode_dtc_info(&vec![vec![1, 2, 3]]).unwrap_err();
    assert_eq!(other_message(e), "get_dtc_info: expected length 4, got 3");
}

#[test]
fn dtc_info_reports_the_first_payload_of_wrong_length() {
    let raw = vec![vec![0, 0, 0, 0], vec![0; 12], vec![0; 5]];
    let e = decode_dtc_info(&raw).unwrap_err();
    assert_eq!(other_message(e), "get_dtc_info: expected length 4, got 12");
    let e = decode_ecu_dtc_info(&vec![]).unwrap_err();
    assert_eq!(other_message(e), "get_dtc_info: expected length 4, got 0");
}

#[test]
fn dtcs_take_their_system_from_the_top_two_bits() {
    let raw = vec![vec![0x00, 0x01, 0x43, 0x41, 0x00, 0x80, 0x10, 0xC1, 0xFF]];
    let dtcs = decode_dtcs(&raw).unwrap();
    assert_eq!(
        dtcs,
        vec![vec![Dtc::Powertrain(0), Dtc::Chassis(0), Dtc::Body(0), Dtc::Network(0)]]
    );
}

#[test]
fn dtcs_boundaries_of_the_systems() {
    let dtcs = decode_ecu_dtcs(&vec![0, 0x3F, 0, 0x40, 0, 0x7F, 0, 0x80, 0, 0xBF, 0, 0xC0, 0]).unwrap();
    assert_eq!(
        dtcs,
        vec![
            Dtc::Powertrain(0),
            Dtc::Chassis(0),
            Dtc::Chassis(0),
            Dtc::Body(0),
            Dtc::Body(0),
            Dtc::Network(0)
        ]
    );
}

#[test]
fn dtcs_of_a_lone_zero_are_none() {
    assert_eq!(decode_dtcs(&vec![vec![0], vec![0, 0x81, 0x23]]).unwrap(), vec![vec![], vec![Dtc::Body(0)]]);
    assert_eq!(decode_dtcs(&vec![]).unwrap(), Vec::<Vec<Dtc>>::new());
}

#[test]
fn dtcs_reject_half_a_pair() {
    let e = decode_dtcs(&vec![vec![0, 1]]).unwrap_err();
    assert_eq!(other_message(e), "invalid response when getting DTCs [0, 1]");
    let e = decode_ecu_dtcs(&vec![0, 1, 2, 200]).unwrap_err();
    assert_eq!(other_message(e), "invalid response when getting DTCs [0, 1, 2, 200]");
}

#[test]
fn dtcs_reject_an_unknown_first_byte() {
    let e = decode_dtcs(&vec![vec![4, 1, 2]]).unwrap_err();
    assert_eq!(other_message(e), "invalid response [4, 1, 2] when getting DTCs");
    let e = decode_ecu_dtcs(&vec![255]).unwrap_err();
    assert_eq!(other_message(e), "invalid response [255] when getting DTCs");
}

#[test]
fn dtcs_reject_the_formats_that_are_not_decoded() {
    for first in 1..=3u8 {
        let e = decode_ecu_dtcs(&vec![first, 0x01, 0x02]).unwrap_err();
        assert_eq!(
            other_message(e),
            format!("unsupported response [{}, 1, 2] when getting DTCs", first)
        );
    }
}

#[test]
fn dtcs_reject_an_empty_payload() {
    let e = decode_dtcs(&vec![vec![0], vec![]]).unwrap_err();
    assert_eq!(other_message(e), "no response bytes when getting DTCs");
}

#[test]
fn dtcs_report_the_first_payload_that_fails() {
    let e = decode_dtcs(&vec![vec![0, 1, 2], vec![9], vec![]]).unwrap_err();
    assert_eq!(other_message(e), "invalid response [9] when getting DTCs");
}

#[test]
fn vin_is_the_text_after_the_first_byte() {
    let mut payload = vec![0x01];
    payload.extend_from_slice(b"1HGCM82633A004352");
    assert_eq!(decode_vin(vec![payload]).unwrap(), "1HGCM82633A004352");
}

#[test]
fn vin_is_taken_from_the_last_response() {
    let raw = vec![b"\x01FIRST".to_vec(), b"\x01LAST".to_vec()];
    assert_eq!(decode_vin(raw).unwrap(), "LAST");
}

#[test]
fn vin_of_a_single_byte_is_empty() {
    assert_eq!(decode_vin(vec![vec![0x01]]).unwrap(), "");
}

#[test]
fn vin_may_hold_text_beyond_ascii() {
    let mut payload = vec![0x01];
    payload.extend_from_slice("Zündung €".as_bytes());
    assert_eq!(decode_vin(vec![payload]).unwrap(), "Zündung €");
}

#[test]
fn vin_without_a_response_is_an_error() {
    let e = decode_vin(vec![]).unwrap_err();
    assert_eq!(other_message(e), "no response when getting VIN");
}

#[test]
fn vin_with_an_empty_payload_is_an_error() {
    let e = decode_vin(vec![b"\x01VIN".to_vec(), vec![]]).unwrap_err();
    assert_eq!(other_message(e), "no response bytes when getting VIN");
}

#[test]
fn vin_that_is_not_utf8_is_an_error() {
    let bytes = vec![0x01, b'A', 0xff, b'B'];
    let expected = format!(
        "invalid string recieved: {:?}",
        String::from_utf8(bytes[1..].to_vec()).unwrap_err()
    );
    let message = other_message(decode_vin(vec![bytes]).unwrap_err());
    assert!(message.starts_with("invalid string recieved: "));
    assert_eq!(message, expected);
}

#[test]
fn rpm_example() {
    let rpm = decode_rpm(&vec![vec![0x1A, 0xF8]]).unwrap();
    assert_eq!(rpm, Rpm { quarters: 0x1AF8 });
    assert_eq!(f32::from(rpm.quarters) / 4.0, 1726.0);
    assert_eq!(rpm.whole(), 1726);
    assert_eq!(rpm.odd_quarters(), 0);
}

#[test]
fn rpm_is_read_high_byte_first() {
    assert_eq!(Rpm::decode(&[0x00, 0x00]).quarters, 0);
    assert_eq!(Rpm::decode(&[0x00, 0x07]).quarters, 7);
    assert_eq!(Rpm::decode(&[0x01, 0x00]).quarters, 256);
    assert_eq!(Rpm::decode(&[0xff, 0xff]).quarters, 65535);
    let rpm = Rpm::decode(&[0x0C, 0x37]);
    assert_eq!(rpm.whole(), 781);
    assert_eq!(rpm.odd_quarters(), 3);
    assert_eq!(f32::from(rpm.quarters) / 4.0, 781.75);
}

#[test]
fn rpm_wants_two_bytes_from_one_ecu() {
    assert!(matches!(
        decode_rpm(&vec![vec![1, 2, 3]]),
        Err(Error::IncorrectResponseLength("length", 2, 3))
    ));
    assert!(matches!(decode_rpm(&vec![]), Err(Error::IncorrectResponseLength("count", 1, 0))));
    assert!(matches!(
        decode_rpm(&vec![vec![1, 2], vec![3, 4]]),
        Err(Error::IncorrectResponseLength("count", 1, 2))
    ));
}

#[test]
fn speed_example() {
    assert_eq!(decode_speed(&vec![vec![0x50]]).unwrap(), 80);
    assert_eq!(decode_speed(&vec![vec![0]]).unwrap(), 0);
    assert_eq!(decode_speed(&vec![vec![255]]).unwrap(), 255);
}

#[test]
fn speed_wants_one_byte_from_one_ecu() {
    assert!(matches!(
        decode_speed(&vec![vec![]]),
        Err(Error::IncorrectResponseLength("length", 1, 0))
    ));
    assert!(matches!(
        decode_speed(&vec![vec![1], vec![2, 3]]),
        Err(Error::IncorrectResponseLength("length", 1, 2))
    ));
    assert!(matches!(decode_speed(&vec![]), Err(Error::IncorrectResponseLength("count", 1, 0))));
    assert!(matches!(
        decode_speed(&vec![vec![1], vec![2]]),
        Err(Error::IncorrectResponseLength("count", 1, 2))
    ));
}

#[test]
fn decoding_twice_gives_the_same() {
    let info = vec![vec![0x81, 0x98, 0x02, 0x03], vec![0x00, 0x07, 0xff, 0x00]];
    assert_eq!(decode_dtc_info(&info).unwrap(), decode_dtc_info(&info).unwrap());
    let dtcs = vec![vec![0, 0x41, 0x23, 0xC0, 0x01], vec![0]];
    assert_eq!(decode_dtcs(&dtcs).unwrap(), decode_dtcs(&dtcs).unwrap());
    let bad = vec![vec![0, 1], vec![7]];
    assert_eq!(
        other_message(decode_dtcs(&bad).unwrap_err()),
        other_message(decode_dtcs(&bad).unwrap_err())
    );
    let rpm = vec![vec![0x1A, 0xF8]];
    assert_eq!(decode_rpm(&rpm).unwrap(), decode_rpm(&rpm).unwrap());
    let speed = vec![vec![0x50]];
    assert_eq!(decode_speed(&speed).unwrap(), decode_speed(&speed).unwrap());
    let vin = vec![b"\x01WVWZZZ1JZXW000001".to_vec()];
    assert_eq!(decode_vin(vin.clone()).unwrap(), decode_vin(vin).unwrap());
    let not_text = vec![vec![1, 0xC0]];
    assert_eq!(
        other_message(decode_vin(not_text.clone()).unwrap_err()),
        other_message(decode_vin(not_text).unwrap_err())
    );
}
