//! The device interface: one raw request primitive, and the typed accessors
//! built on it.

use vstd::prelude::*;
use crate::decode::{
    decode_dtc_info, decode_dtcs, decode_rpm, decode_speed, decode_vin, is_dtc_info_of,
    is_dtcs_of, is_rpm_of, is_speed_of, is_vin_of,
};
use crate::error::{Error, ErrorView};
use crate::shape::{
    is_shaped_of, is_sized_of, responses_with_count, responses_with_length, rows,
};
use crate::types::{Dtc, DtcsInfo, Rpm};

verus! {

/// What a device gave back for one request: the payload of each ECU that
/// answered, in the order of their arrival, or the failure.
pub open spec fn reply_of(r: Result<Vec<Vec<u8>>, Error>) -> Result<Seq<Seq<u8>>, ErrorView> {
    match r {
        Ok(responses) => Ok(rows(responses@)),
        Err(e) => Err(e@),
    }
}

/// Whether `r` is the device's failure, come back as it is.
pub open spec fn is_failure<T>(r: Result<T, Error>, failure: ErrorView) -> bool {
    r matches Err(e) && e@ == failure
}

/// A device that answers OBD-II requests.
///
/// An implementor supplies the two raw requests. Each typed accessor makes one
/// request and decodes the reply; a failure of the device comes back as it is.
pub trait Obd2Device {
    /// Whether `after` is a state that the device can be in once, in state
    /// `before`, it was sent the request `mode` and `pid` and gave `reply`.
    ///
    /// An implementor that records its traffic says so here; one that does not
    /// leaves the relation as it is, true of every exchange.
    open spec fn exchanged(
        before: &Self,
        after: &Self,
        mode: u8,
        pid: Option<u8>,
        reply: Result<Seq<Seq<u8>>, ErrorView>,
    ) -> bool {
        true
    }

    /// Sends a request with mode and PID and returns one payload per ECU that
    /// answers.
    ///
    /// The two bytes that lead each answer, the mode and the PID that the
    /// vehicle received, are checked and taken off before the payload is
    /// returned.
    fn obd_command(&mut self, mode: u8, pid: u8) -> (r: Result<Vec<Vec<u8>>, Error>)
        ensures
            Self::exchanged(old(self), final(self), mode, Some(pid), reply_of(r)),
    ;

    /// Sends a request with a mode alone and returns one payload per ECU that
    /// answers.
    ///
    /// The byte that leads each answer, the mode that the vehicle received, is
    /// checked and taken off before the payload is returned.
    fn obd_mode_command(&mut self, mode: u8) -> (r: Result<Vec<Vec<u8>>, Error>)
        ensures
            Self::exchanged(old(self), final(self), mode, None, reply_of(r)),
    ;

    /// Like [`obd_command`](Self::obd_command), with each ECU's payload as an
    /// array of `RESPONSE_LENGTH` bytes.
    ///
    /// Fails on the first payload of another length, with the length it has.
    fn obd_command_len<const RESPONSE_LENGTH: usize>(&mut self, mode: u8, pid: u8) -> (r: Result<
        Vec<[u8; RESPONSE_LENGTH]>,
        Error,
    >)
        ensures
            exists|reply: Result<Seq<Seq<u8>>, ErrorView>| #[trigger]
                Self::exchanged(old(self), final(self), mode, Some(pid), reply) && match reply {
                    Ok(payloads) => is_sized_of(payloads, r),
                    Err(failure) => is_failure(r, failure),
                },
    {
        let reply = self.obd_command(mode, pid);
        match reply {
            Ok(responses) => responses_with_length::<RESPONSE_LENGTH>(&responses),
            Err(e) => Err(e),
        }
    }

    /// Like [`obd_command_len`](Self::obd_command_len), with the list of
    /// responses as an array of `RESPONSE_COUNT` payloads.
    ///
    /// For values that a known number of ECUs report, most often one. Fails on
    /// the first payload of another length; failing that, when the number of
    /// responses is not `RESPONSE_COUNT`.
    fn obd_command_cnt_len<const RESPONSE_COUNT: usize, const RESPONSE_LENGTH: usize>(
        &mut self,
        mode: u8,
        pid: u8,
    ) -> (r: Result<[[u8; RESPONSE_LENGTH]; RESPONSE_COUNT], Error>)
        ensures
            exists|reply: Result<Seq<Seq<u8>>, ErrorView>| #[trigger]
                Self::exchanged(old(self), final(self), mode, Some(pid), reply) && match reply {
                    Ok(payloads) => is_shaped_of(payloads, r),
                    Err(failure) => is_failure(r, failure),
                },
    {
        match self.obd_command_len::<RESPONSE_LENGTH>(mode, pid) {
            Ok(sized) => responses_with_count::<RESPONSE_COUNT, RESPONSE_LENGTH>(&sized),
            Err(e) => Err(e),
        }
    }

    /// Retrieves the VIN (vehicle identification number).
    ///
    /// This should match the number printed on the vehicle, and is a good
    /// request for checking that the interface works.
    fn get_vin(&mut self) -> (r: Result<String, Error>)
        ensures
            exists|reply: Result<Seq<Seq<u8>>, ErrorView>| #[trigger]
                Self::exchanged(old(self), final(self), 0x09, Some(0x02u8), reply) && match reply {
                    Ok(payloads) => is_vin_of(payloads, r),
                    Err(failure) => is_failure(r, failure),
                },
    {
        let reply = self.obd_command(0x09, 0x02);
        match reply {
            Ok(responses) => decode_vin(responses),
            Err(e) => Err(e),
        }
    }

    /// Gets the trouble-code metadata of each ECU.
    fn get_dtc_info(&mut self) -> (r: Result<Vec<DtcsInfo>, Error>)
        ensures
            exists|reply: Result<Seq<Seq<u8>>, ErrorView>| #[trigger]
                Self::exchanged(old(self), final(self), 0x01, Some(0x01u8), reply) && match reply {
                    Ok(payloads) => is_dtc_info_of(payloads, r),
                    Err(failure) => is_failure(r, failure),
                },
            r matches Ok(infos) ==> forall|i: int| 0 <= i < infos@.len() ==> (#[trigger] infos@[i]).wf(),
    {
        let reply = self.obd_command(0x01, 0x01);
        match reply {
            Ok(responses) => decode_dtc_info(&responses),
            Err(e) => Err(e),
        }
    }

    /// Gets the trouble codes of each ECU.
    fn get_dtcs(&mut self) -> (r: Result<Vec<Vec<Dtc>>, Error>)
        ensures
            exists|reply: Result<Seq<Seq<u8>>, ErrorView>| #[trigger]
                Self::exchanged(old(self), final(self), 0x03, None, reply) && match reply {
                    Ok(payloads) => is_dtcs_of(payloads, r),
                    Err(failure) => is_failure(r, failure),
                },
    {
        let reply = self.obd_mode_command(0x03);
        match reply {
            Ok(responses) => decode_dtcs(&responses),
            Err(e) => Err(e),
        }
    }

    /// Gets the engine speed, in steps of a quarter revolution per minute.
    fn get_rpm(&mut self) -> (r: Result<Rpm, Error>)
        ensures
            exists|reply: Result<Seq<Seq<u8>>, ErrorView>| #[trigger]
                Self::exchanged(old(self), final(self), 0x01, Some(0x0Cu8), reply) && match reply {
                    Ok(payloads) => is_rpm_of(payloads, r),
                    Err(failure) => is_failure(r, failure),
                },
    {
        let reply = self.obd_command(0x01, 0x0C);
        match reply {
            Ok(responses) => decode_rpm(&responses),
            Err(e) => Err(e),
        }
    }

    /// Gets the speed in km/h.
    fn get_speed(&mut self) -> (r: Result<u8, Error>)
        ensures
            exists|reply: Result<Seq<Seq<u8>>, ErrorView>| #[trigger]
                Self::exchanged(old(self), final(self), 0x01, Some(0x0Cu8), reply) && match reply {
                    Ok(payloads) => is_speed_of(payloads, r),
                    Err(failure) => is_failure(r, failure),
                },
    {
        let reply = self.obd_command(0x01, 0x0C);
        match reply {
            Ok(responses) => decode_speed(&responses),
            Err(e) => Err(e),
        }
    }
}

} // verus!
