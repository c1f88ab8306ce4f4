//! Lenient parsing of text and bytes into a currency.
//!
//! Parsing never fails. Input that is too short, or that names no currency,
//! gives [`Currency::XXX`]; what follows the first three characters is not
//! looked at.

use crate::currency::Currency;
use vstd::prelude::*;
use vstd::string::StrSliceExecFns;
use vstd::utf8::is_ascii_chars;

verus! {

/// The upper-case form of `text` under the Unicode case mappings. It may be
/// longer than `text`, since some characters map to several.
pub uninterp spec fn unicode_upper(text: Seq<char>) -> Seq<char>;

/// The upper-case form of an ASCII letter; every other character is left as
/// it is.
pub open spec fn ascii_upper(c: char) -> char {
    if 'a' <= c <= 'z' {
        ((c as u8) - 32) as u8 as char
    } else {
        c
    }
}

/// `text` folded to upper case: letter by letter where it is plain ASCII,
/// where the two agree, and by the Unicode case mappings where it is not.
pub open spec fn folded(text: Seq<char>) -> Seq<char> {
    if is_ascii_chars(text) {
        text.map_values(|c: char| ascii_upper(c))
    } else {
        unicode_upper(text)
    }
}

/// Folds one character as [`ascii_upper`] says.
pub fn to_ascii_upper(c: char) -> (r: char)
    ensures
        r == ascii_upper(c),
{
    if 'a' <= c && c <= 'z' {
        let b: u8 = c as u8;
        (b - 32) as char
    } else {
        c
    }
}

/// Calls `str::to_uppercase`, which returns the text in upper case as a new
/// `String`. Nothing is proved of it: the result is taken to be
/// [`unicode_upper`] of the argument, a function of the characters alone.
#[verifier::external_body]
fn to_unicode_upper(text: &str) -> (r: String)
    ensures
        r@ == unicode_upper(text@),
{
    text.to_uppercase()
}

impl Currency {
    /// The currency named by the first three characters of `text`, which
    /// must match an alphabetic code exactly; [`Currency::XXX`] where `text`
    /// is shorter or names none.
    pub open spec fn with_prefix(text: Seq<char>) -> Currency {
        if text.len() < 3 {
            Currency::XXX
        } else {
            Self::with_alpha(text.subrange(0, 3))
        }
    }

    /// What parsing `text` gives: with fewer than three characters
    /// [`Currency::XXX`], else the currency named by the first three
    /// characters of the folded text.
    pub open spec fn parsed(text: Seq<char>) -> Currency {
        if text.len() < 3 {
            Currency::XXX
        } else {
            Self::with_prefix(folded(text))
        }
    }

    /// What parsing `bytes` as ASCII gives: the first three bytes are read
    /// as characters and parsed as text. A byte outside ASCII among them
    /// gives [`Currency::XXX`], as does a shorter input.
    pub open spec fn parsed_bytes(bytes: Seq<u8>) -> Currency {
        if bytes.len() >= 3 && bytes[0] < 128 && bytes[1] < 128 && bytes[2] < 128 {
            Self::parsed(seq![bytes[0] as char, bytes[1] as char, bytes[2] as char])
        } else {
            Currency::XXX
        }
    }

    /// [`Currency::parsed_bytes`] for signed bytes, where a negative byte is
    /// outside ASCII.
    pub open spec fn parsed_signed_bytes(bytes: Seq<i8>) -> Currency {
        if bytes.len() >= 3 && bytes[0] >= 0 && bytes[1] >= 0 && bytes[2] >= 0 {
            Self::parsed(seq![bytes[0] as u8 as char, bytes[1] as u8 as char, bytes[2] as u8 as char])
        } else {
            Currency::XXX
        }
    }

    /// Reads the currency off the first three characters of `text` as they
    /// stand, without folding.
    pub fn from_prefix(text: &str) -> (r: Currency)
        ensures
            r == Currency::with_prefix(text@),
    {
        if text.unicode_len() < 3 {
            Currency::XXX
        } else {
            let a = text.get_char(0);
            let b = text.get_char(1);
            let c = text.get_char(2);
            assert(text@.subrange(0, 3) =~= seq![a, b, c]);
            Currency::from_letters(a, b, c)
        }
    }

    /// Reads the currency off three ASCII characters, folding each.
    fn from_ascii(a: char, b: char, c: char) -> (r: Currency)
        requires
            is_ascii_chars(seq![a, b, c]),
        ensures
            r == Currency::parsed(seq![a, b, c]),
    {
        let ghost text = seq![a, b, c];
        let r = Currency::from_letters(to_ascii_upper(a), to_ascii_upper(b), to_ascii_upper(c));
        assert(folded(text).subrange(0, 3) =~= seq![
            ascii_upper(a),
            ascii_upper(b),
            ascii_upper(c),
        ]);
        r
    }

    /// Parses an alphabetic code, in either case.
    ///
    /// Text of fewer than three characters gives [`Currency::XXX`]. Longer
    /// text is folded to upper case and its first three characters are
    /// looked up; what follows them is ignored, and an unknown code gives
    /// [`Currency::XXX`] too.
    pub fn from_alpha(val: &str) -> (r: Currency)
        ensures
            r == Currency::parsed(val@),
    {
        if val.is_ascii() {
            proof {
                vstd::string::is_ascii_spec_bytes(val);
                Self::lemma_parsed_ascii(val@);
            }
            Currency::from_bytes(val.as_bytes())
        } else if val.unicode_len() < 3 {
            Currency::XXX
        } else {
            let upper = to_unicode_upper(val);
            Currency::from_prefix(upper.as_str())
        }
    }

    /// Parses the first three of `val` as an alphabetic code in ASCII, in
    /// either case. Fewer than three bytes, a byte outside ASCII among the
    /// first three, or an unknown code give [`Currency::XXX`]; what follows
    /// the third byte, such as a terminating zero, is ignored.
    pub fn from_bytes(val: &[u8]) -> (r: Currency)
        ensures
            r == Currency::parsed_bytes(val@),
    {
        if val.len() < 3 {
            Currency::XXX
        } else {
            let a = val[0];
            let b = val[1];
            let c = val[2];
            if a < 128 && b < 128 && c < 128 {
                Currency::from_ascii(a as char, b as char, c as char)
            } else {
                Currency::XXX
            }
        }
    }

    /// [`Currency::from_bytes`] for signed bytes, as C strings hold them.
    pub fn from_signed_bytes(val: &[i8]) -> (r: Currency)
        ensures
            r == Currency::parsed_signed_bytes(val@),
    {
        if val.len() < 3 {
            Currency::XXX
        } else {
            let a = val[0];
            let b = val[1];
            let c = val[2];
            if a >= 0 && b >= 0 && c >= 0 {
                Currency::from_ascii(a as u8 as char, b as u8 as char, c as u8 as char)
            } else {
                Currency::XXX
            }
        }
    }
}

} // verus!
