//! The typed values that responses decode to.

use vstd::prelude::*;
use crate::text::{hex3, is_upper_hex, lemma_hex3, numeral_value, push_hex3};

verus! {

/// What one ECU reports about its diagnostic trouble codes.
#[derive(Debug, Clone, Copy, PartialEq, Eq)]
pub struct DtcsInfo {
    /// Whether the malfunction indicator light is commanded on.
    pub malfunction_indicator_light: bool,
    /// How many trouble codes the ECU has stored.
    pub dtc_count: u8,
    /// Which of the common on-board tests are available, one bit each.
    pub common_test_availability: u8,
    /// Whether the tests are those of a compression-ignition engine.
    pub is_compression_engine: bool,
    /// Which of the engine-specific tests are available, one bit each.
    pub specific_test_availability: u16,
}

impl DtcsInfo {
    /// The ranges that every decoded value keeps: both seven-bit fields stay
    /// below 128.
    pub open spec fn wf(&self) -> bool {
        self.dtc_count < 0x80 && self.common_test_availability < 0x80
    }

    /// The value that the four bytes `b` of a response stand for.
    ///
    /// Byte 0 holds the indicator light in its top bit and the code count
    /// below it. Byte 1 holds the common tests in bits 0 to 2 and 4 to 7, which
    /// close ranks over bit 3, the engine kind. Bytes 2 and 3 hold the
    /// engine-specific tests, low byte first.
    pub open spec fn of_bytes(b: Seq<u8>) -> DtcsInfo
        recommends
            b.len() == 4,
    {
        DtcsInfo {
            malfunction_indicator_light: b[0] >= 0x80,
            dtc_count: (b[0] % 0x80) as u8,
            common_test_availability: ((b[1] / 0x10) * 8 + b[1] % 8) as u8,
            is_compression_engine: (b[1] / 8) % 2 == 1,
            specific_test_availability: (b[3] * 0x100 + b[2]) as u16,
        }
    }

    /// The fields are the bit fields of the response: the top bit and the low
    /// seven bits of byte 0; of byte 1 the high nibble moved down one place
    /// beside the low three bits, and bit 3; byte 3 above byte 2.
    pub proof fn lemma_bit_fields(b: Seq<u8>)
        requires
            b.len() == 4,
        ensures
            DtcsInfo::of_bytes(b).malfunction_indicator_light == ((b[0] & 0x80) == 0x80),
            DtcsInfo::of_bytes(b).dtc_count == b[0] & 0x7f,
            DtcsInfo::of_bytes(b).common_test_availability == ((b[1] & 0xf0) >> 1) | (b[1] & 0x07),
            DtcsInfo::of_bytes(b).is_compression_engine == ((b[1] & 0x08) == 0x08),
            DtcsInfo::of_bytes(b).specific_test_availability == ((b[3] as u16) << 8) | (
            b[2] as u16),
            DtcsInfo::of_bytes(b).wf(),
    {
        let b0: u8 = b[0];
        let b1: u8 = b[1];
        let b2: u8 = b[2];
        let b3: u8 = b[3];
        assert(((b0 & 0x80) == 0x80) == (b0 >= 0x80)) by (bit_vector);
        assert(b0 & 0x7f == b0 % 0x80) by (bit_vector);
        assert(((b1 & 0xf0) >> 1) | (b1 & 0x07) == (b1 / 0x10) * 8 + b1 % 8) by (bit_vector);
        assert(((b1 & 0x08) == 0x08) == ((b1 / 8) % 2 == 1)) by (bit_vector);
        assert(((b3 as u16) << 8) | (b2 as u16) == b3 * 0x100 + b2) by (bit_vector);
        assert((b1 / 0x10) * 8 + b1 % 8 < 0x80) by (bit_vector);
    }

    /// Decodes the four bytes of one ECU's response.
    pub fn decode(b: &[u8; 4]) -> (info: DtcsInfo)
        ensures
            info == DtcsInfo::of_bytes(b@),
            info.wf(),
    {
        let b0: u8 = b[0];
        let b1: u8 = b[1];
        let b2: u8 = b[2];
        let b3: u8 = b[3];
        proof {
            DtcsInfo::lemma_bit_fields(b@);
        }
        DtcsInfo {
            malfunction_indicator_light: (b0 & 0x80) == 0x80,
            dtc_count: b0 & 0x7f,
            common_test_availability: ((b1 & 0xf0) >> 1) | (b1 & 0x07),
            is_compression_engine: (b1 & 0x08) == 0x08,
            specific_test_availability: ((b3 as u16) << 8) | (b2 as u16),
        }
    }
}

/// A diagnostic trouble code: the system it belongs to, and its number.
#[derive(Debug, Clone, Copy, PartialEq, Eq)]
pub enum Dtc {
    Powertrain(u16),
    Chassis(u16),
    Body(u16),
    Network(u16),
}

impl Dtc {
    /// The letter that names the system: `P`, `C`, `B` or `U`.
    pub open spec fn letter(&self) -> char {
        match self {
            Dtc::Powertrain(_) => 'P',
            Dtc::Chassis(_) => 'C',
            Dtc::Body(_) => 'B',
            Dtc::Network(_) => 'U',
        }
    }

    /// The number of the code within its system.
    pub open spec fn number(&self) -> u16 {
        match self {
            Dtc::Powertrain(n) => *n,
            Dtc::Chassis(n) => *n,
            Dtc::Body(n) => *n,
            Dtc::Network(n) => *n,
        }
    }

    /// The printed form: the system's letter, then the number in upper-case
    /// hexadecimal, padded with zeros to three digits.
    pub open spec fn text(&self) -> Seq<char> {
        seq![self.letter()] + hex3(self.number() as nat)
    }

    /// A code below `0x1000` prints as four characters: the letter of its
    /// system, then three upper-case hexadecimal digits that spell its number.
    /// A code from `0x1000` on prints as five, with four digits.
    pub proof fn lemma_text(code: Dtc)
        ensures
            code.text().len() == (if code.number() < 0x1000 { 4nat } else { 5nat }),
            code.text()[0] == code.letter(),
            forall|i: int| 1 <= i < code.text().len() ==> is_upper_hex(#[trigger] code.text()[i]),
            numeral_value(code.text().skip(1)) == code.number(),
    {
        lemma_hex3(code.number());
        assert(code.text().skip(1) == hex3(code.number() as nat));
    }

    /// The code as it is printed, such as `P1A3`.
    pub fn to_string(&self) -> (s: String)
        ensures
            s@ == self.text(),
    {
        let (prefix, n) = match self {
            Dtc::Powertrain(n) => ("P", *n),
            Dtc::Chassis(n) => ("C", *n),
            Dtc::Body(n) => ("B", *n),
            Dtc::Network(n) => ("U", *n),
        };
        proof {
            reveal_strlit("P");
            reveal_strlit("C");
            reveal_strlit("B");
            reveal_strlit("U");
        }
        let mut s = prefix.to_owned();
        push_hex3(&mut s, n);
        s
    }
}

/// An engine speed, held in the quarter revolutions per minute that the
/// vehicle counts in.
#[derive(Debug, Clone, Copy, PartialEq, Eq)]
pub struct Rpm {
    /// The speed in units of a quarter revolution per minute.
    pub quarters: u16,
}

impl Rpm {
    /// The speed that the two bytes `b` of a response stand for: a 16-bit
    /// count of quarter revolutions, high byte first.
    pub open spec fn of_bytes(b: Seq<u8>) -> Rpm
        recommends
            b.len() == 2,
    {
        Rpm { quarters: (b[0] * 0x100 + b[1]) as u16 }
    }

    /// Decodes the two bytes of the responding ECU.
    pub fn decode(b: &[u8; 2]) -> (rpm: Rpm)
        ensures
            rpm == Rpm::of_bytes(b@),
    {
        let hi: u16 = b[0] as u16;
        let lo: u16 = b[1] as u16;
        Rpm { quarters: hi * 0x100 + lo }
    }

    /// The whole revolutions per minute, rounded down.
    pub fn whole(&self) -> (n: u16)
        ensures
            n == self.quarters / 4,
    {
        self.quarters / 4
    }

    /// The quarters above the whole revolutions: 0 to 3.
    pub fn odd_quarters(&self) -> (n: u16)
        ensures
            n == self.quarters % 4,
    {
        self.quarters % 4
    }
}

} // verus!
