//! High-level OBD-II interface.

use vstd::prelude::*;
use crate::accessors::{is_failure, Obd2Device};
use crate::decode::{is_dtc_info_of, is_dtcs_of, is_rpm_of, is_speed_of, is_vin_of};
use crate::error::{Error, ErrorView};
use crate::types::{Dtc, DtcsInfo, Rpm};

mod private;

verus! {

/// The typed accessors of a device, without its raw requests and without
/// generic parameters, so that a device can be used through indirection.
///
/// Every [`Obd2Device`] has this interface, and nothing else can have it.
pub trait Obd2DataRetrieval: private::Sealed {
    /// Retrieves the VIN (vehicle identification number).
    ///
    /// This should match the number printed on the vehicle, and is a good
    /// request for checking that the interface works.
    fn get_vin(&mut self) -> Result<String, Error>;

    /// Gets the trouble-code metadata of each ECU.
    fn get_dtc_info(&mut self) -> Result<Vec<DtcsInfo>, Error>;

    /// Gets the trouble codes of each ECU.
    fn get_dtcs(&mut self) -> Result<Vec<Vec<Dtc>>, Error>;

    /// Gets the engine speed, in steps of a quarter revolution per minute.
    fn get_rpm(&mut self) -> Result<Rpm, Error>;

    /// Gets the speed in km/h.
    fn get_speed(&mut self) -> Result<u8, Error>;
}

impl<T: Obd2Device> Obd2DataRetrieval for T {
    fn get_vin(&mut self) -> (r: Result<String, Error>)
        ensures
            exists|reply: Result<Seq<Seq<u8>>, ErrorView>| #[trigger]
                T::exchanged(old(self), final(self), 0x09, Some(0x02u8), reply) && match reply {
                    Ok(payloads) => is_vin_of(payloads, r),
                    Err(failure) => is_failure(r, failure),
                },
    {
        Obd2Device::get_vin(self)
    }

    fn get_dtc_info(&mut self) -> (r: Result<Vec<DtcsInfo>, Error>)
        ensures
            exists|reply: Result<Seq<Seq<u8>>, ErrorView>| #[trigger]
                T::exchanged(old(self), final(self), 0x01, Some(0x01u8), reply) && match reply {
                    Ok(payloads) => is_dtc_info_of(payloads, r),
                    Err(failure) => is_failure(r, failure),
                },
            r matches Ok(infos) ==> forall|i: int| 0 <= i < infos@.len() ==> (#[trigger] infos@[i]).wf(),
    {
        Obd2Device::get_dtc_info(self)
    }

    fn get_dtcs(&mut self) -> (r: Result<Vec<Vec<Dtc>>, Error>)
        ensures
            exists|reply: Result<Seq<Seq<u8>>, ErrorView>| #[trigger]
                T::exchanged(old(self), final(self), 0x03, None, reply) && match reply {
                    Ok(payloads) => is_dtcs_of(payloads, r),
                    Err(failure) => is_failure(r, failure),
                },
    {
        Obd2Device::get_dtcs(self)
    }

    fn get_rpm(&mut self) -> (r: Result<Rpm, Error>)
        ensures
            exists|reply: Result<Seq<Seq<u8>>, ErrorView>| #[trigger]
                T::exchanged(old(self), final(self), 0x01, Some(0x0Cu8), reply) && match reply {
                    Ok(payloads) => is_rpm_of(payloads, r),
                    Err(failure) => is_failure(r, failure),
                },
    {
        Obd2Device::get_rpm(self)
    }

    fn get_speed(&mut self) -> (r: Result<u8, Error>)
        ensures
            exists|reply: Result<Seq<Seq<u8>>, ErrorView>| #[trigger]
                T::exchanged(old(self), final(self), 0x01, Some(0x0Cu8), reply) && match reply {
                    Ok(payloads) => is_speed_of(payloads, r),
                    Err(failure) => is_failure(r, failure),
                },
    {
        Obd2Device::get_speed(self)
    }
}

} // verus!
