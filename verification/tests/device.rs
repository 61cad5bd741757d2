use obd2::accessors::Obd2Device;
use obd2::commands::Obd2DataRetrieval;
use obd2::{DeviceError, Dtc, Error, Rpm};

/// A device that gives one prepared reply and keeps a log of what it was asked.
struct Scripted {
    reply: Option<Vec<Vec<u8>>>,
    asked: Vec<(u8, Option<u8>)>,
}

impl Scripted {
    fn answering(reply: Vec<Vec<u8>>) -> Scripted {
        Scripted { reply: Some(reply), asked: Vec::new() }
    }

    fn failing() -> Scripted {
        Scripted { reply: None, asked: Vec::new() }
    }

    fn answer(&self) -> Result<Vec<Vec<u8>>, Error> {
        match &self.reply {
            Some(reply) => Ok(reply.clone()),
            None => Err(Error::Device(DeviceError::new(String::from("adapter unplugged")))),
        }
    }
}

impl Obd2Device for Scripted {
    fn obd_command(&mut self, mode: u8, pid: u8) -> Result<Vec<Vec<u8>>, Error> {
        self.asked.push((mode, Some(pid)));
        self.answer()
    }

    fn obd_mode_command(&mut self, mode: u8) -> Result<Vec<Vec<u8>>, Error> {
        self.asked.push((mode, None));
        self.answer()
    }
}

fn is_unplugged<T: std::fmt::Debug>(r: Result<T, Error>) -> bool {
    match r {
        Err(Error::Device(e)) => e.message() == "adapter unplugged",
        _ => false,
    }
}

#[test]
fn get_rpm_example() {
    let mut device = Scripted::answering(vec![vec![0x1A, 0xF8]]);
    let rpm = Obd2Device::get_rpm(&mut device).unwrap();
    assert_eq!(rpm, Rpm { quarters: 0x1AF8 });
    assert_eq!(f32::from(rpm.quarters) / 4.0, 1726.0);
    assert_eq!(device.asked, vec![(0x01, Some(0x0C))]);
}

#[test]
fn get_speed_example() {
    let mut device = Scripted::answering(vec![vec![0x50]]);
    assert_eq!(Obd2Device::get_speed(&mut device).unwrap(), 80);
    assert_eq!(device.asked, vec![(0x01, Some(0x0C))]);
}

#[test]
fn get_vin_asks_mode_nine() {
    let mut device = Scripted::answering(vec![b"\x01JH4KA8260MC000000".to_vec()]);
    assert_eq!(Obd2Device::get_vin(&mut device).unwrap(), "JH4KA8260MC000000");
    assert_eq!(device.asked, vec![(0x09, Some(0x02))]);
}

#[test]
fn get_vin_without_an_answer_fails() {
    let mut device = Scripted::answering(vec![]);
    assert!(matches!(Obd2Device::get_vin(&mut device), Err(Error::Other(_))));
}

#[test]
fn get_dtc_info_asks_mode_one() {
    let mut device = Scripted::answering(vec![vec![0x81, 0x98, 0x02, 0x03]]);
    let infos = Obd2Device::get_dtc_info(&mut device).unwrap();
    assert_eq!(infos.len(), 1);
    assert!(infos[0].malfunction_indicator_light);
    assert_eq!(infos[0].dtc_count, 1);
    assert!(infos[0].is_compression_engine);
    assert_eq!(infos[0].specific_test_availability, 0x0302);
    assert_eq!(device.asked, vec![(0x01, Some(0x01))]);
}

#[test]
fn get_dtcs_asks_mode_three_alone() {
    let mut device = Scripted::answering(vec![vec![0x00, 0x81, 0x00], vec![0x00]]);
    let dtcs = Obd2Device::get_dtcs(&mut device).unwrap();
    assert_eq!(dtcs, vec![vec![Dtc::Body(0)], vec![]]);
    assert_eq!(device.asked, vec![(0x03, None)]);
}

#[test]
fn command_len_two_against_three_bytes() {
    let mut device = Scripted::answering(vec![vec![1, 2, 3]]);
    let r = device.obd_command_len::<2>(0x01, 0x0C);
    assert!(matches!(r, Err(Error::IncorrectResponseLength("length", 2, 3))));
    assert_eq!(device.asked, vec![(0x01, Some(0x0C))]);
}

#[test]
fn command_len_gives_arrays() {
    let mut device = Scripted::answering(vec![vec![1, 2], vec![3, 4]]);
    assert_eq!(device.obd_command_len::<2>(0x22, 0x33).unwrap(), vec![[1, 2], [3, 4]]);
    assert_eq!(device.asked, vec![(0x22, Some(0x33))]);
}

#[test]
fn command_cnt_len_one_against_none_and_two() {
    let mut device = Scripted::answering(vec![]);
    let r = device.obd_command_cnt_len::<1, 2>(0x01, 0x0C);
    assert!(matches!(r, Err(Error::IncorrectResponseLength("count", 1, 0))));
    let mut device = Scripted::answering(vec![vec![1, 2], vec![3, 4]]);
    let r = device.obd_command_cnt_len::<1, 2>(0x01, 0x0C);
    assert!(matches!(r, Err(Error::IncorrectResponseLength("count", 1, 2))));
}

#[test]
fn command_cnt_len_gives_arrays() {
    let mut device = Scripted::answering(vec![vec![1, 2], vec![3, 4]]);
    assert_eq!(device.obd_command_cnt_len::<2, 2>(0x01, 0x0C).unwrap(), [[1, 2], [3, 4]]);
}

#[test]
fn a_device_failure_comes_back_as_it_is() {
    assert!(is_unplugged(Obd2Device::get_vin(&mut Scripted::failing())));
    assert!(is_unplugged(Obd2Device::get_dtc_info(&mut Scripted::failing())));
    assert!(is_unplugged(Obd2Device::get_dtcs(&mut Scripted::failing())));
    assert!(is_unplugged(Obd2Device::get_rpm(&mut Scripted::failing())));
    assert!(is_unplugged(Obd2Device::get_speed(&mut Scripted::failing())));
    assert!(is_unplugged(Scripted::failing().obd_command_len::<2>(1, 2)));
    assert!(is_unplugged(Scripted::failing().obd_command_cnt_len::<1, 2>(1, 2)));
}

#[test]
fn each_accessor_makes_one_request() {
    let mut device = Scripted::answering(vec![vec![0x50]]);
    let _ = Obd2Device::get_speed(&mut device);
    let _ = Obd2Device::get_rpm(&mut device);
    let _ = Obd2Device::get_dtcs(&mut device);
    let _ = Obd2Device::get_dtc_info(&mut device);
    let _ = Obd2Device::get_vin(&mut device);
    assert_eq!(
        device.asked,
        vec![
            (0x01, Some(0x0C)),
            (0x01, Some(0x0C)),
            (0x03, None),
            (0x01, Some(0x01)),
            (0x09, Some(0x02))
        ]
    );
}

#[test]
fn the_same_reply_decodes_the_same_twice() {
    let mut device = Scripted::answering(vec![vec![0x1A, 0xF8]]);
    let first = Obd2Device::get_rpm(&mut device).unwrap();
    let second = Obd2Device::get_rpm(&mut device).unwrap();
    assert_eq!(first, second);
}

#[test]
fn the_high_level_interface_gives_the_same_values() {
    let mut device = Scripted::answering(vec![vec![0x50]]);
    assert_eq!(Obd2DataRetrieval::get_speed(&mut device).unwrap(), 80);
    let mut device = Scripted::answering(vec![vec![0x1A, 0xF8]]);
    assert_eq!(Obd2DataRetrieval::get_rpm(&mut device).unwrap().quarters, 0x1AF8);
    let mut device = Scripted::answering(vec![b"\x01VIN".to_vec()]);
    assert_eq!(Obd2DataRetrieval::get_vin(&mut device).unwrap(), "VIN");
    let mut device = Scripted::answering(vec![vec![0x00, 0xC0, 0x01]]);
    assert_eq!(Obd2DataRetrieval::get_dtcs(&mut device).unwrap(), vec![vec![Dtc::Network(0)]]);
    let mut device = Scripted::answering(vec![vec![0x00, 0x00, 0x00, 0x00]]);
    assert_eq!(Obd2DataRetrieval::get_dtc_info(&mut device).unwrap().len(), 1);
    assert!(is_unplugged(Obd2DataRetrieval::get_speed(&mut Scripted::failing())));
}

#[test]
fn the_high_level_interface_works_through_a_box() {
    let mut device: Box<dyn Obd2DataRetrieval> = Box::new(Scripted::answering(vec![vec![0x50]]));
    assert_eq!(device.get_speed().unwrap(), 80);
}
