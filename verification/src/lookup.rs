//! From three letters back to the currency.

use crate::currency::Currency;
use vstd::prelude::*;

verus! {

impl Currency {
    /// Whether some currency has `code` as its alphabetic code.
    pub open spec fn recognized(code: Seq<char>) -> bool {
        exists|v: Currency| v.alpha_code() == code
    }

    /// The currency whose alphabetic code is `code`, or [`Currency::XXX`]
    /// where there is none.
    pub open spec fn with_alpha(code: Seq<char>) -> Currency {
        if Self::recognized(code) {
            choose|v: Currency| v.alpha_code() == code
        } else {
            Currency::XXX
        }
    }

    /// Finds the currency with the letters `a`, `b`, `c`, which must match
    /// exactly; anything else gives [`Currency::XXX`].
    pub fn from_letters(a: char, b: char, c: char) -> (r: Currency)
        ensures
            r == Currency::with_alpha(seq![a, b, c]),
    {
        let r = match (a, b, c) {
            ('A', 'E', 'D') => Currency::AED,
            ('A', 'F', 'N') => Currency::AFN,
            ('A', 'L', 'L') => Currency::ALL,
            ('A', 'M', 'D') => Currency::AMD,
            ('A', 'N', 'G') => Currency::ANG,
            ('A', 'O', 'A') => Currency::AOA,
            ('A', 'R', 'S') => Currency::ARS,
            ('A', 'U', 'D') => Currency::AUD,
            ('A', 'W', 'G') => Currency::AWG,
            ('A', 'Z', 'N') => Currency::AZN,
            ('B', 'A', 'M') => Currency::BAM,
            ('B', 'B', 'D') => Currency::BBD,
            ('B', 'D', 'T') => Currency::BDT,
            ('B', 'G', 'N') => Currency::BGN,
            ('B', 'H', 'D') => Currency::BHD,
            ('B', 'I', 'F') => Currency::BIF,
            ('B', 'M', 'D') => Currency::BMD,
            ('B', 'N', 'D') => Currency::BND,
            ('B', 'O', 'B') => Currency::BOB,
            ('B', 'O', 'V') => Currency::BOV,
            ('B', 'R', 'L') => Currency::BRL,
            ('B', 'S', 'D') => Currency::BSD,
            ('B', 'T', 'N') => Currency::BTN,
            ('B', 'W', 'P') => Currency::BWP,
            ('B', 'Y', 'N') => Currency::BYN,
            ('B', 'Z', 'D') => Currency::BZD,
            ('C', 'A', 'D') => Currency::CAD,
            ('C', 'D', 'F') => Currency::CDF,
            ('C', 'H', 'E') => Currency::CHE,
            ('C', 'H', 'F') => Currency::CHF,
            ('C', 'H', 'W') => Currency::CHW,
            ('C', 'L', 'F') => Currency::CLF,
            ('C', 'L', 'P') => Currency::CLP,
            ('C', 'O', 'P') => Currency::COP,
            ('C', 'O', 'U') => Currency::COU,
            ('C', 'R', 'C') => Currency::CRC,
            ('C', 'U', 'C') => Currency::CUC,
            ('C', 'U', 'P') => Currency::CUP,
            ('C', 'V', 'E') => Currency::CVE,
            ('C', 'Z', 'K') => Currency::CZK,
            ('D', 'J', 'F') => Currency::DJF,
            ('D', 'K', 'K') => Currency::DKK,
            ('D', 'O', 'P') => Currency::DOP,
            ('D', 'Z', 'D') => Currency::DZD,
            ('E', 'G', 'P') => Currency::EGP,
            ('E', 'R', 'N') => Currency::ERN,
            ('E', 'T', 'B') => Currency::ETB,
            ('E', 'U', 'R') => Currency::EUR,
            ('F', 'J', 'D') => Currency::FJD,
            ('F', 'K', 'P') => Currency::FKP,
            ('G', 'B', 'P') => Currency::GBP,
            ('G', 'E', 'L') => Currency::GEL,
            ('G', 'H', 'S') => Currency::GHS,
            ('G', 'I', 'P') => Currency::GIP,
            ('G', 'M', 'D') => Currency::GMD,
            ('G', 'N', 'F') => Currency::GNF,
            ('G', 'T', 'Q') => Currency::GTQ,
            ('G', 'Y', 'D') => Currency::GYD,
            ('H', 'K', 'D') => Currency::HKD,
            ('H', 'N', 'L') => Currency::HNL,
            ('H', 'T', 'G') => Currency::HTG,
            ('H', 'U', 'F') => Currency::HUF,
            ('I', 'D', 'R') => Currency::IDR,
            ('I', 'L', 'S') => Currency::ILS,
            ('I', 'N', 'R') => Currency::INR,
            ('I', 'Q', 'D') => Currency::IQD,
            ('I', 'R', 'R') => Currency::IRR,
            ('I', 'S', 'K') => Currency::ISK,
            ('J', 'M', 'D') => Currency::JMD,
            ('J', 'O', 'D') => Currency::JOD,
            ('J', 'P', 'Y') => Currency::JPY,
            ('K', 'E', 'S') => Currency::KES,
            ('K', 'G', 'S') => Currency::KGS,
            ('K', 'H', 'R') => Currency::KHR,
            ('K', 'M', 'F') => Currency::KMF,
            ('K', 'P', 'W') => Currency::KPW,
            ('K', 'R', 'W') => Currency::KRW,
            ('K', 'W', 'D') => Currency::KWD,
            ('K', 'Y', 'D') => Currency::KYD,
            ('K', 'Z', 'T') => Currency::KZT,
            ('L', 'A', 'K') => Currency::LAK,
            ('L', 'B', 'P') => Currency::LBP,
            ('L', 'K', 'R') => Currency::LKR,
            ('L', 'R', 'D') => Currency::LRD,
            ('L', 'S', 'L') => Currency::LSL,
            ('L', 'Y', 'D') => Currency::LYD,
            ('M', 'A', 'D') => Currency::MAD,
            ('M', 'D', 'L') => Currency::MDL,
            ('M', 'G', 'A') => Currency::MGA,
            ('M', 'K', 'D') => Currency::MKD,
            ('M', 'M', 'K') => Currency::MMK,
            ('M', 'N', 'T') => Currency::MNT,
            ('M', 'O', 'P') => Currency::MOP,
            ('M', 'R', 'U') => Currency::MRU,
            ('M', 'U', 'R') => Currency::MUR,
            ('M', 'V', 'R') => Currency::MVR,
            ('M', 'W', 'K') => Currency::MWK,
            ('M', 'X', 'N') => Currency::MXN,
            ('M', 'X', 'V') => Currency::MXV,
            ('M', 'Y', 'R') => Currency::MYR,
            ('M', 'Z', 'N') => Currency::MZN,
            ('N', 'A', 'D') => Currency::NAD,
            ('N', 'G', 'N') => Currency::NGN,
            ('N', 'I', 'O') => Currency::NIO,
            ('N', 'O', 'K') => Currency::NOK,
            ('N', 'P', 'R') => Currency::NPR,
            ('N', 'Z', 'D') => Currency::NZD,
            ('O', 'M', 'R') => Currency::OMR,
            ('P', 'A', 'B') => Currency::PAB,
            ('P', 'E', 'N') => Currency::PEN,
            ('P', 'G', 'K') => Currency::PGK,
            ('P', 'H', 'P') => Currency::PHP,
            ('P', 'K', 'R') => Currency::PKR,
            ('P', 'L', 'N') => Currency::PLN,
            ('P', 'Y', 'G') => Currency::PYG,
            ('Q', 'A', 'R') => Currency::QAR,
            ('R', 'O', 'N') => Currency::RON,
            ('R', 'S', 'D') => Currency::RSD,
            ('C', 'N', 'Y') => Currency::CNY,
            ('R', 'U', 'B') => Currency::RUB,
            ('R', 'W', 'F') => Currency::RWF,
            ('S', 'A', 'R') => Currency::SAR,
            ('S', 'B', 'D') => Currency::SBD,
            ('S', 'C', 'R') => Currency::SCR,
            ('S', 'D', 'G') => Currency::SDG,
            ('S', 'E', 'K') => Currency::SEK,
            ('S', 'G', 'D') => Currency::SGD,
            ('S', 'H', 'P') => Currency::SHP,
            ('S', 'L', 'E') => Currency::SLE,
            ('S', 'L', 'L') => Currency::SLL,
            ('S', 'O', 'S') => Currency::SOS,
            ('S', 'R', 'D') => Currency::SRD,
            ('S', 'S', 'P') => Currency::SSP,
            ('S', 'T', 'N') => Currency::STN,
            ('S', 'V', 'C') => Currency::SVC,
            ('S', 'Y', 'P') => Currency::SYP,
            ('S', 'Z', 'L') => Currency::SZL,
            ('T', 'H', 'B') => Currency::THB,
            ('T', 'J', 'S') => Currency::TJS,
            ('T', 'M', 'T') => Currency::TMT,
            ('T', 'N', 'D') => Currency::TND,
            ('T', 'O', 'P') => Currency::TOP,
            ('T', 'R', 'Y') => Currency::TRY,
            ('T', 'T', 'D') => Currency::TTD,
            ('T', 'W', 'D') => Currency::TWD,
            ('T', 'Z', 'S') => Currency::TZS,
            ('U', 'A', 'H') => Currency::UAH,
            ('U', 'G', 'X') => Currency::UGX,
            ('U', 'S', 'D') => Currency::USD,
            ('U', 'S', 'N') => Currency::USN,
            ('U', 'Y', 'I') => Currency::UYI,
            ('U', 'Y', 'U') => Currency::UYU,
            ('U', 'Y', 'W') => Currency::UYW,
            ('U', 'Z', 'S') => Currency::UZS,
            ('V', 'E', 'D') => Currency::VED,
            ('V', 'E', 'S') => Currency::VES,
            ('V', 'N', 'D') => Currency::VND,
            ('V', 'U', 'V') => Currency::VUV,
            ('W', 'S', 'T') => Currency::WST,
            ('X', 'A', 'F') => Currency::XAF,
            ('X', 'A', 'G') => Currency::XAG,
            ('X', 'A', 'U') => Currency::XAU,
            ('X', 'B', 'A') => Currency::XBA,
            ('X', 'B', 'B') => Currency::XBB,
            ('X', 'B', 'C') => Currency::XBC,
            ('X', 'B', 'D') => Currency::XBD,
            ('X', 'C', 'D') => Currency::XCD,
            ('X', 'D', 'R') => Currency::XDR,
            ('X', 'O', 'F') => Currency::XOF,
            ('X', 'P', 'D') => Currency::XPD,
            ('X', 'P', 'F') => Currency::XPF,
            ('X', 'P', 'T') => Currency::XPT,
            ('X', 'S', 'U') => Currency::XSU,
            ('X', 'T', 'S') => Currency::XTS,
            ('X', 'U', 'A') => Currency::XUA,
            ('X', 'X', 'X') => Currency::XXX,
            ('Y', 'E', 'R') => Currency::YER,
            ('Z', 'A', 'R') => Currency::ZAR,
            ('Z', 'M', 'W') => Currency::ZMW,
            ('Z', 'W', 'L') => Currency::ZWL,
            _ => Currency::XXX,
        };
        proof {
            if r.letters() == (a, b, c) {
                Self::lemma_alpha_code_letters(r, a, b, c);
                Self::lemma_with_alpha_finds(r);
            } else {
                assert forall|v: Currency| v.alpha_code() != seq![a, b, c] by {
                    Self::lemma_alpha_code_letters(v, a, b, c);
                }
            }
        }
        r
    }
}

} // verus!
