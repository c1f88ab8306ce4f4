//! The conversions of [`Currency`] as `From` impls, so that `into()` reads
//! as the methods do.

use crate::currency::Currency;
use vstd::prelude::*;
use vstd::std_specs::convert::FromSpecImpl;

verus! {

impl From<Currency> for u32 {
    /// The numeric code.
    fn from(val: Currency) -> (r: u32) {
        val.to_numeric()
    }
}

impl FromSpecImpl<Currency> for u32 {
    open spec fn obeys_from_spec() -> bool {
        true
    }

    open spec fn from_spec(val: Currency) -> u32 {
        val.numeric_code() as u32
    }
}

impl From<&Currency> for u32 {
    /// The numeric code.
    fn from(val: &Currency) -> (r: u32) {
        val.to_numeric()
    }
}

impl FromSpecImpl<&Currency> for u32 {
    open spec fn obeys_from_spec() -> bool {
        true
    }

    open spec fn from_spec(val: &Currency) -> u32 {
        val.numeric_code() as u32
    }
}

impl From<Currency> for [i8; 4] {
    /// The alphabetic code as a zero-terminated record.
    fn from(val: Currency) -> (r: [i8; 4])
        ensures
            r@ == val.fixed_bytes(),
    {
        val.to_fixed_bytes()
    }
}

impl FromSpecImpl<Currency> for [i8; 4] {
    open spec fn obeys_from_spec() -> bool {
        true
    }

    open spec fn from_spec(val: Currency) -> [i8; 4] {
        [
            val.letters().0 as u8 as i8,
            val.letters().1 as u8 as i8,
            val.letters().2 as u8 as i8,
            0i8,
        ]
    }
}

impl From<&Currency> for [i8; 4] {
    /// The alphabetic code as a zero-terminated record.
    fn from(val: &Currency) -> (r: [i8; 4])
        ensures
            r@ == val.fixed_bytes(),
    {
        val.to_fixed_bytes()
    }
}

impl FromSpecImpl<&Currency> for [i8; 4] {
    open spec fn obeys_from_spec() -> bool {
        true
    }

    open spec fn from_spec(val: &Currency) -> [i8; 4] {
        [
            val.letters().0 as u8 as i8,
            val.letters().1 as u8 as i8,
            val.letters().2 as u8 as i8,
            0i8,
        ]
    }
}

impl From<Currency> for &'static str {
    /// The alphabetic code.
    fn from(val: Currency) -> (r: &'static str)
        ensures
            r@ == val.alpha_code(),
    {
        val.to_alpha()
    }
}

/// A string slice is known by its characters only, so the conversion is
/// stated on `from` itself, over the view of its result.
impl FromSpecImpl<Currency> for &'static str {
    open spec fn obeys_from_spec() -> bool {
        false
    }

    open spec fn from_spec(val: Currency) -> &'static str {
        ""
    }
}

impl From<&Currency> for &'static str {
    /// The alphabetic code.
    fn from(val: &Currency) -> (r: &'static str)
        ensures
            r@ == val.alpha_code(),
    {
        val.to_alpha()
    }
}

/// Stated on `from` itself, as for the conversion by value.
impl FromSpecImpl<&Currency> for &'static str {
    open spec fn obeys_from_spec() -> bool {
        false
    }

    open spec fn from_spec(val: &Currency) -> &'static str {
        ""
    }
}

impl From<&str> for Currency {
    /// Parses an alphabetic code, as [`Currency::from_alpha`] does.
    fn from(val: &str) -> (r: Currency) {
        Currency::from_alpha(val)
    }
}

impl FromSpecImpl<&str> for Currency {
    open spec fn obeys_from_spec() -> bool {
        true
    }

    open spec fn from_spec(val: &str) -> Currency {
        Currency::parsed(val@)
    }
}

impl From<&[i8]> for Currency {
    /// Parses signed bytes, as [`Currency::from_signed_bytes`] does.
    fn from(val: &[i8]) -> (r: Currency) {
        Currency::from_signed_bytes(val)
    }
}

impl FromSpecImpl<&[i8]> for Currency {
    open spec fn obeys_from_spec() -> bool {
        true
    }

    open spec fn from_spec(val: &[i8]) -> Currency {
        Currency::parsed_signed_bytes(val@)
    }
}

impl<const N: usize> From<&[i8; N]> for Currency {
    /// Parses signed bytes, as [`Currency::from_signed_bytes`] does.
    fn from(val: &[i8; N]) -> (r: Currency) {
        Currency::from_signed_bytes(val.as_slice())
    }
}

impl<const N: usize> FromSpecImpl<&[i8; N]> for Currency {
    open spec fn obeys_from_spec() -> bool {
        true
    }

    open spec fn from_spec(val: &[i8; N]) -> Currency {
        Currency::parsed_signed_bytes(val@)
    }
}

impl<const N: usize> From<[i8; N]> for Currency {
    /// Parses signed bytes, as [`Currency::from_signed_bytes`] does.
    fn from(val: [i8; N]) -> (r: Currency) {
        Currency::from_signed_bytes(val.as_slice())
    }
}

impl<const N: usize> FromSpecImpl<[i8; N]> for Currency {
    open spec fn obeys_from_spec() -> bool {
        true
    }

    open spec fn from_spec(val: [i8; N]) -> Currency {
        Currency::parsed_signed_bytes(val@)
    }
}

impl From<&[u8]> for Currency {
    /// Parses bytes, as [`Currency::from_bytes`] does.
    fn from(val: &[u8]) -> (r: Currency) {
        Currency::from_bytes(val)
    }
}

impl FromSpecImpl<&[u8]> for Currency {
    open spec fn obeys_from_spec() -> bool {
        true
    }

    open spec fn from_spec(val: &[u8]) -> Currency {
        Currency::parsed_bytes(val@)
    }
}

impl<const N: usize> From<&[u8; N]> for Currency {
    /// Parses bytes, as [`Currency::from_bytes`] does.
    fn from(val: &[u8; N]) -> (r: Currency) {
        Currency::from_bytes(val.as_slice())
    }
}

impl<const N: usize> FromSpecImpl<&[u8; N]> for Currency {
    open spec fn obeys_from_spec() -> bool {
        true
    }

    open spec fn from_spec(val: &[u8; N]) -> Currency {
        Currency::parsed_bytes(val@)
    }
}

impl<const N: usize> From<[u8; N]> for Currency {
    /// Parses bytes, as [`Currency::from_bytes`] does.
    fn from(val: [u8; N]) -> (r: Currency) {
        Currency::from_bytes(val.as_slice())
    }
}

impl<const N: usize> FromSpecImpl<[u8; N]> for Currency {
    open spec fn obeys_from_spec() -> bool {
        true
    }

    open spec fn from_spec(val: [u8; N]) -> Currency {
        Currency::parsed_bytes(val@)
    }
}

} // verus!
