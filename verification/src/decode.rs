//! From the payloads that the ECUs sent to typed values.

use vstd::prelude::*;
use vstd::string::StringExecFns;
use vstd::utf8::{decode_utf8, valid_utf8};
use crate::error::{Error, ErrorView};
use crate::shape::{
    lemma_try_map_err_stays, lemma_try_map_step, responses_with_shape, rows, shaped, to_array,
    try_map,
};
use crate::text::{byte_list, decimal, push_byte_list, push_decimal, starts_with};
use crate::types::{Dtc, DtcsInfo, Rpm};

verus! {

/// The trouble codes of a list of ECUs, each list as a sequence.
pub open spec fn dtc_rows(lists: Seq<Vec<Dtc>>) -> Seq<Seq<Dtc>> {
    lists.map_values(|l: Vec<Dtc>| l@)
}

/// The trouble code that a pair of bytes beginning with `first` stands for.
/// The two top bits of `first` choose the system; the number is left at zero.
pub open spec fn dtc_of(first: u8) -> Dtc {
    if first < 0x40 {
        Dtc::Powertrain(0)
    } else if first < 0x80 {
        Dtc::Chassis(0)
    } else if first < 0xC0 {
        Dtc::Body(0)
    } else {
        Dtc::Network(0)
    }
}

/// The trouble codes in one ECU's payload.
///
/// A payload that begins with 0 and goes on with whole pairs of bytes holds
/// one code per pair. One that begins with 0 and ends in half a pair, one that
/// begins with anything else, and an empty one are each an error of their own.
pub open spec fn dtcs_of(payload: Seq<u8>) -> Result<Seq<Dtc>, ErrorView> {
    if payload.len() == 0 {
        Err(ErrorView::Other("no response bytes when getting DTCs"@))
    } else if payload[0] == 0 {
        if payload.len() % 2 == 1 {
            Ok(Seq::new((payload.len() / 2) as nat, |k: int| dtc_of(payload[1 + 2 * k])))
        } else {
            Err(ErrorView::Other("invalid response when getting DTCs "@ + byte_list(payload)))
        }
    } else if payload[0] <= 3 {
        Err(
            ErrorView::Other(
                "unsupported response "@ + byte_list(payload) + " when getting DTCs"@,
            ),
        )
    } else {
        Err(ErrorView::Other("invalid response "@ + byte_list(payload) + " when getting DTCs"@))
    }
}

/// The trouble codes of every ECU, or the error of the first payload that
/// cannot be decoded.
pub open spec fn all_dtcs_of(payloads: Seq<Seq<u8>>) -> Result<Seq<Seq<Dtc>>, ErrorView> {
    try_map(payloads, |p: Seq<u8>| dtcs_of(p))
}

/// The trouble-code metadata in one ECU's payload, which must be four bytes
/// long.
pub open spec fn dtc_info_of(payload: Seq<u8>) -> Result<DtcsInfo, ErrorView> {
    if payload.len() == 4 {
        Ok(DtcsInfo::of_bytes(payload))
    } else {
        Err(ErrorView::Other("get_dtc_info: expected length 4, got "@ + decimal(payload.len())))
    }
}

/// The trouble-code metadata of every ECU, or the error of the first payload
/// that is not four bytes long.
pub open spec fn all_dtc_info_of(payloads: Seq<Seq<u8>>) -> Result<Seq<DtcsInfo>, ErrorView> {
    try_map(payloads, |p: Seq<u8>| dtc_info_of(p))
}

/// The bytes that spell the VIN: the last ECU's payload without its first
/// byte.
pub open spec fn vin_bytes_of(payloads: Seq<Seq<u8>>) -> Result<Seq<u8>, ErrorView> {
    if payloads.len() == 0 {
        Err(ErrorView::Other("no response when getting VIN"@))
    } else if payloads.last().len() == 0 {
        Err(ErrorView::Other("no response bytes when getting VIN"@))
    } else {
        Ok(payloads.last().skip(1))
    }
}

/// Whether `r` is what the payloads give for the trouble codes: the lists of
/// every ECU, or the error of the first payload that cannot be decoded.
pub open spec fn is_dtcs_of(payloads: Seq<Seq<u8>>, r: Result<Vec<Vec<Dtc>>, Error>) -> bool {
    match r {
        Ok(lists) => all_dtcs_of(payloads) == Ok::<Seq<Seq<Dtc>>, ErrorView>(dtc_rows(lists@)),
        Err(e) => all_dtcs_of(payloads) == Err::<Seq<Seq<Dtc>>, ErrorView>(e@),
    }
}

/// Whether `r` is what the payloads give for the trouble-code metadata: that
/// of every ECU, or the error of the first payload that is not four bytes
/// long.
pub open spec fn is_dtc_info_of(payloads: Seq<Seq<u8>>, r: Result<Vec<DtcsInfo>, Error>) -> bool {
    match r {
        Ok(infos) => all_dtc_info_of(payloads) == Ok::<Seq<DtcsInfo>, ErrorView>(infos@),
        Err(e) => all_dtc_info_of(payloads) == Err::<Seq<DtcsInfo>, ErrorView>(e@),
    }
}

/// Whether `r` is what the payloads give for the engine speed.
pub open spec fn is_rpm_of(payloads: Seq<Seq<u8>>, r: Result<Rpm, Error>) -> bool {
    match r {
        Ok(rpm) => rpm_of(payloads) == Ok::<Rpm, ErrorView>(rpm),
        Err(e) => rpm_of(payloads) == Err::<Rpm, ErrorView>(e@),
    }
}

/// Whether `r` is what the payloads give for the vehicle speed.
pub open spec fn is_speed_of(payloads: Seq<Seq<u8>>, r: Result<u8, Error>) -> bool {
    match r {
        Ok(speed) => speed_of(payloads) == Ok::<u8, ErrorView>(speed),
        Err(e) => speed_of(payloads) == Err::<u8, ErrorView>(e@),
    }
}

/// Whether `r` is what the payloads give for the VIN: the text that the
/// bytes spell where they are UTF-8, and else an error. For bytes that are not
/// UTF-8 the error's message begins with `invalid string recieved: `.
pub open spec fn is_vin_of(payloads: Seq<Seq<u8>>, r: Result<String, Error>) -> bool {
    match r {
        Ok(vin) => vin_bytes_of(payloads) matches Ok(bytes) && valid_utf8(bytes) && vin@
            == decode_utf8(bytes),
        Err(e) => match vin_bytes_of(payloads) {
            Ok(bytes) => !valid_utf8(bytes) && (e@ matches ErrorView::Other(m) && starts_with(
                m,
                "invalid string recieved: "@,
            )),
            Err(v) => e@ == v,
        },
    }
}

/// The engine speed in the single two-byte payload of the one ECU that
/// answers.
pub open spec fn rpm_of(payloads: Seq<Seq<u8>>) -> Result<Rpm, ErrorView> {
    match shaped(payloads, 1, 2) {
        Ok(fixed) => Ok(Rpm::of_bytes(fixed[0])),
        Err(e) => Err(e),
    }
}

/// The vehicle speed in km/h: the single byte of the one ECU that answers.
pub open spec fn speed_of(payloads: Seq<Seq<u8>>) -> Result<u8, ErrorView> {
    match shaped(payloads, 1, 1) {
        Ok(fixed) => Ok(fixed[0][0]),
        Err(e) => Err(e),
    }
}

/// Decodes the trouble codes in one ECU's payload.
pub fn decode_ecu_dtcs(payload: &Vec<u8>) -> (r: Result<Vec<Dtc>, Error>)
    ensures
        match r {
            Ok(codes) => dtcs_of(payload@) == Ok::<Seq<Dtc>, ErrorView>(codes@),
            Err(e) => dtcs_of(payload@) == Err::<Seq<Dtc>, ErrorView>(e@),
        },
{
    if payload.len() == 0 {
        return Err(Error::Other(String::from_str("no response bytes when getting DTCs")));
    }
    let first: u8 = payload[0];
    if first == 0 {
        if payload.len() % 2 == 1 {
            let mut codes: Vec<Dtc> = Vec::new();
            let mut i: usize = 1;
            while i < payload.len()
                invariant
                    payload@.len() % 2 == 1,
                    i % 2 == 1,
                    i <= payload@.len() + 1,
                    codes@.len() == i / 2,
                    forall|k: int| 0 <= k < codes@.len() ==> codes@[k] == dtc_of(payload@[1 + 2 * k]),
                decreases payload@.len() + 1 - i,
            {
                let b: u8 = payload[i];
                proof {
                    assert(b >> 6 == b / 0x40) by (bit_vector);
                }
                let code = match b >> 6 {
                    0 => Dtc::Powertrain(0),
                    1 => Dtc::Chassis(0),
                    2 => Dtc::Body(0),
                    _ => Dtc::Network(0),
                };
                codes.push(code);
                i = i + 2;
            }
            proof {
                let want = Seq::new(
                    (payload@.len() / 2) as nat,
                    |k: int| dtc_of(payload@[1 + 2 * k]),
                );
                assert(codes@ =~= want);
            }
            Ok(codes)
        } else {
            let mut message = String::from_str("invalid response when getting DTCs ");
            push_byte_list(&mut message, payload);
            Err(Error::Other(message))
        }
    } else if first <= 3 {
        let mut message = String::from_str("unsupported response ");
        push_byte_list(&mut message, payload);
        message.append(" when getting DTCs");
        Err(Error::Other(message))
    } else {
        let mut message = String::from_str("invalid response ");
        push_byte_list(&mut message, payload);
        message.append(" when getting DTCs");
        Err(Error::Other(message))
    }
}

/// Decodes the trouble codes of every ECU, in the order of the responses.
///
/// Fails with the error of the first payload that cannot be decoded.
pub fn decode_dtcs(responses: &Vec<Vec<u8>>) -> (r: Result<Vec<Vec<Dtc>>, Error>)
    ensures
        is_dtcs_of(rows(responses@), r),
{
    let ghost payloads = rows(responses@);
    let ghost f = |p: Seq<u8>| dtcs_of(p);
    let mut lists: Vec<Vec<Dtc>> = Vec::new();
    let mut i: usize = 0;
    assert(dtc_rows(lists@) == Seq::<Seq<Dtc>>::empty());
    while i < responses.len()
        invariant
            i <= responses.len(),
            payloads == rows(responses@),
            f == |p: Seq<u8>| dtcs_of(p),
            try_map(payloads.take(i as int), f) == Ok::<Seq<Seq<Dtc>>, ErrorView>(dtc_rows(lists@)),
        decreases responses.len() - i,
    {
        proof {
            lemma_try_map_step(payloads, f, i as int);
        }
        match decode_ecu_dtcs(&responses[i]) {
            Ok(codes) => {
                let ghost before = lists@;
                let ghost added = codes@;
                lists.push(codes);
                assert(dtc_rows(lists@) == dtc_rows(before).push(added));
            },
            Err(e) => {
                proof {
                    lemma_try_map_err_stays(payloads, f, i + 1);
                }
                return Err(e);
            },
        }
        i = i + 1;
    }
    assert(payloads.take(i as int) == payloads);
    Ok(lists)
}

/// Decodes the trouble-code metadata in one ECU's payload.
pub fn decode_ecu_dtc_info(payload: &Vec<u8>) -> (r: Result<DtcsInfo, Error>)
    ensures
        match r {
            Ok(info) => dtc_info_of(payload@) == Ok::<DtcsInfo, ErrorView>(info) && info.wf(),
            Err(e) => dtc_info_of(payload@) == Err::<DtcsInfo, ErrorView>(e@),
        },
{
    match to_array::<4>(payload) {
        Some(bytes) => Ok(DtcsInfo::decode(&bytes)),
        None => {
            let mut message = String::from_str("get_dtc_info: expected length 4, got ");
            push_decimal(&mut message, payload.len());
            Err(Error::Other(message))
        },
    }
}

/// Decodes the trouble-code metadata of every ECU, in the order of the
/// responses.
///
/// Fails with the error of the first payload that is not four bytes long.
pub fn decode_dtc_info(responses: &Vec<Vec<u8>>) -> (r: Result<Vec<DtcsInfo>, Error>)
    ensures
        is_dtc_info_of(rows(responses@), r),
        r matches Ok(infos) ==> forall|i: int| 0 <= i < infos@.len() ==> (#[trigger] infos@[i]).wf(),
{
    let ghost payloads = rows(responses@);
    let ghost f = |p: Seq<u8>| dtc_info_of(p);
    let mut infos: Vec<DtcsInfo> = Vec::new();
    let mut i: usize = 0;
    while i < responses.len()
        invariant
            i <= responses.len(),
            payloads == rows(responses@),
            f == |p: Seq<u8>| dtc_info_of(p),
            try_map(payloads.take(i as int), f) == Ok::<Seq<DtcsInfo>, ErrorView>(infos@),
            forall|j: int| 0 <= j < infos@.len() ==> (#[trigger] infos@[j]).wf(),
        decreases responses.len() - i,
    {
        proof {
            lemma_try_map_step(payloads, f, i as int);
        }
        match decode_ecu_dtc_info(&responses[i]) {
            Ok(info) => {
                infos.push(info);
            },
            Err(e) => {
                proof {
                    lemma_try_map_err_stays(payloads, f, i + 1);
                }
                return Err(e);
            },
        }
        i = i + 1;
    }
    assert(payloads.take(i as int) == payloads);
    Ok(infos)
}

/// `String::from_utf8` turns the bytes into a string exactly when they are
/// valid UTF-8, and the string then holds the characters that they encode.
#[verifier::external_body]
fn string_from_utf8(bytes: Vec<u8>) -> (r: Result<String, std::string::FromUtf8Error>)
    ensures
        r is Ok <==> valid_utf8(bytes@),
        r matches Ok(s) ==> s@ == decode_utf8(bytes@),
{
    String::from_utf8(bytes)
}

/// Decodes the vehicle identification number.
///
/// The number is the text in the last ECU's payload, after its first byte.
/// Fails when no ECU answered, when the payload is empty, and when the bytes
/// are not UTF-8.
pub fn decode_vin(responses: Vec<Vec<u8>>) -> (r: Result<String, Error>)
    ensures
        is_vin_of(rows(responses@), r),
{
    let mut responses = responses;
    match responses.pop() {
        None => Err(Error::Other(String::from_str("no response when getting VIN"))),
        Some(payload) => {
            let mut payload = payload;
            if payload.len() == 0 {
                return Err(Error::Other(String::from_str("no response bytes when getting VIN")));
            }
            payload.remove(0);
            match string_from_utf8(payload) {
                Ok(vin) => Ok(vin),
                Err(e) => Err(Error::from(e)),
            }
        },
    }
}

/// Decodes the engine speed, which exactly one ECU must report in exactly two
/// bytes.
pub fn decode_rpm(responses: &Vec<Vec<u8>>) -> (r: Result<Rpm, Error>)
    ensures
        is_rpm_of(rows(responses@), r),
{
    match responses_with_shape::<1, 2>(responses) {
        Ok(fixed) => Ok(Rpm::decode(&fixed[0])),
        Err(e) => Err(e),
    }
}

/// Decodes the vehicle speed in km/h, which exactly one ECU must report in
/// exactly one byte.
pub fn decode_speed(responses: &Vec<Vec<u8>>) -> (r: Result<u8, Error>)
    ensures
        is_speed_of(rows(responses@), r),
{
    match responses_with_shape::<1, 1>(responses) {
        Ok(fixed) => Ok(fixed[0][0]),
        Err(e) => Err(e),
    }
}

/// Decoding trouble codes is repeatable: two results for the same payloads
/// are the same lists or the same error.
pub proof fn lemma_dtcs_repeatable(
    payloads: Seq<Seq<u8>>,
    first: Result<Vec<Vec<Dtc>>, Error>,
    second: Result<Vec<Vec<Dtc>>, Error>,
)
    requires
        is_dtcs_of(payloads, first),
        is_dtcs_of(payloads, second),
    ensures
        match (first, second) {
            (Ok(a), Ok(b)) => dtc_rows(a@) == dtc_rows(b@),
            (Err(a), Err(b)) => a@ == b@,
            _ => false,
        },
{
}

/// Decoding trouble-code metadata is repeatable: two results for the same
/// payloads are the same values or the same error.
pub proof fn lemma_dtc_info_repeatable(
    payloads: Seq<Seq<u8>>,
    first: Result<Vec<DtcsInfo>, Error>,
    second: Result<Vec<DtcsInfo>, Error>,
)
    requires
        is_dtc_info_of(payloads, first),
        is_dtc_info_of(payloads, second),
    ensures
        match (first, second) {
            (Ok(a), Ok(b)) => a@ == b@,
            (Err(a), Err(b)) => a@ == b@,
            _ => false,
        },
{
}

/// Decoding the engine speed is repeatable: two results for the same payloads
/// are the same speed or the same error.
pub proof fn lemma_rpm_repeatable(
    payloads: Seq<Seq<u8>>,
    first: Result<Rpm, Error>,
    second: Result<Rpm, Error>,
)
    requires
        is_rpm_of(payloads, first),
        is_rpm_of(payloads, second),
    ensures
        match (first, second) {
            (Ok(a), Ok(b)) => a == b,
            (Err(a), Err(b)) => a@ == b@,
            _ => false,
        },
{
}

/// Decoding the vehicle speed is repeatable: two results for the same
/// payloads are the same speed or the same error.
pub proof fn lemma_speed_repeatable(
    payloads: Seq<Seq<u8>>,
    first: Result<u8, Error>,
    second: Result<u8, Error>,
)
    requires
        is_speed_of(payloads, first),
        is_speed_of(payloads, second),
    ensures
        match (first, second) {
            (Ok(a), Ok(b)) => a == b,
            (Err(a), Err(b)) => a@ == b@,
            _ => false,
        },
{
}

/// Decoding the VIN is repeatable: two results for the same payloads are the
/// same text, or both an error. Where no text could be looked for, the two
/// errors are the same; where the bytes are not UTF-8, both are
/// [`Error::Other`] with a message that begins with
/// `invalid string recieved: `.
pub proof fn lemma_vin_repeatable(
    payloads: Seq<Seq<u8>>,
    first: Result<String, Error>,
    second: Result<String, Error>,
)
    requires
        is_vin_of(payloads, first),
        is_vin_of(payloads, second),
    ensures
        match (first, second) {
            (Ok(a), Ok(b)) => a@ == b@,
            (Err(a), Err(b)) => match vin_bytes_of(payloads) {
                Ok(_) => (a@ matches ErrorView::Other(m) && starts_with(
                    m,
                    "invalid string recieved: "@,
                )) && (b@ matches ErrorView::Other(m) && starts_with(
                    m,
                    "invalid string recieved: "@,
                )),
                Err(_) => a@ == b@,
            },
            _ => false,
        },
{
}

} // verus!
