//! What holds of the whole list: the shape of the codes, that no code is
//! used twice, and that parsing undoes rendering.

use crate::currency::Currency;
use crate::parse::ascii_upper;
use crate::parse::folded;
use vstd::prelude::*;
use vstd::utf8::is_ascii_chars;

verus! {

impl Currency {
    /// Every alphabetic code is three upper-case ASCII letters.
    pub proof fn lemma_alpha_code_shape(v: Currency)
        ensures
            v.alpha_code().len() == Currency::LEN,
            forall|i: int| 0 <= i < 3 ==> 'A' <= #[trigger] v.alpha_code()[i] <= 'Z',
            is_ascii_chars(v.alpha_code()),
    {
    }

    /// Every numeric code lies between 1 and 999.
    pub proof fn lemma_numeric_code_range(v: Currency)
        ensures
            1 <= v.numeric_code() <= 999,
    {
    }

    /// No two currencies share a numeric code.
    pub proof fn lemma_numeric_code_unique(v: Currency, w: Currency)
        requires
            v != w,
        ensures
            v.numeric_code() != w.numeric_code(),
    {
    }

    /// A currency has the alphabetic code `a b c` exactly when these are its
    /// three letters.
    pub proof fn lemma_alpha_code_letters(v: Currency, a: char, b: char, c: char)
        ensures
            (v.alpha_code() == seq![a, b, c]) <==> v.letters() == (a, b, c),
    {
        let code = seq![a, b, c];
        assert(code[0] == a && code[1] == b && code[2] == c);
        if v.letters() == (a, b, c) {
            assert(v.alpha_code() =~= code);
        }
    }

    /// No two currencies share an alphabetic code.
    pub proof fn lemma_alpha_code_unique(v: Currency, w: Currency)
        requires
            v != w,
        ensures
            v.alpha_code() != w.alpha_code(),
    {
        Self::lemma_alpha_code_letters(v, w.letters().0, w.letters().1, w.letters().2);
    }

    /// Looking up the alphabetic code of a currency finds that currency.
    pub proof fn lemma_with_alpha_finds(v: Currency)
        ensures
            Currency::recognized(v.alpha_code()),
            Currency::with_alpha(v.alpha_code()) == v,
    {
        let w = Currency::with_alpha(v.alpha_code());
        if w != v {
            Self::lemma_alpha_code_unique(v, w);
        }
    }

    /// A lookup gives a currency with the code that was asked for, or
    /// [`Currency::XXX`] where no currency has it.
    pub proof fn lemma_with_alpha_exact(code: Seq<char>)
        ensures
            Currency::recognized(code) ==> Currency::with_alpha(code).alpha_code() == code,
            !Currency::recognized(code) ==> Currency::with_alpha(code) == Currency::XXX,
    {
    }

    /// Parsing the alphabetic code of a currency gives that currency back.
    pub proof fn lemma_alpha_round_trip(v: Currency)
        ensures
            Currency::parsed(v.alpha_code()) == v,
    {
        let code = v.alpha_code();
        Self::lemma_alpha_code_shape(v);
        Self::lemma_with_alpha_finds(v);
        assert(folded(code) =~= code);
        assert(code.subrange(0, 3) =~= code);
    }

    /// What parsing gives has the code that was read: either the first three
    /// characters of the folded text are its alphabetic code, or it is
    /// [`Currency::XXX`].
    pub proof fn lemma_parsed_exact(text: Seq<char>)
        ensures
            Currency::parsed(text) == Currency::XXX || (text.len() >= 3 && folded(text).len() >= 3
                && Currency::parsed(text).alpha_code() == folded(text).subrange(0, 3)),
    {
        if text.len() >= 3 && folded(text).len() >= 3 {
            Self::lemma_with_alpha_exact(folded(text).subrange(0, 3));
        }
    }

    /// The fixed record of a currency is four bytes long: the letters of the
    /// alphabetic code in ASCII, then a zero.
    pub proof fn lemma_fixed_bytes_shape(v: Currency)
        ensures
            v.fixed_bytes().len() == 4,
            forall|i: int| 0 <= i < 3 ==> #[trigger] v.fixed_bytes()[i] == v.alpha_code()[i] as u8,
            v.fixed_bytes()[3] == 0,
    {
        Self::lemma_alpha_code_shape(v);
    }

    /// Parsing the fixed record of a currency gives that currency back: the
    /// terminating zero is ignored.
    pub proof fn lemma_fixed_bytes_round_trip(v: Currency)
        ensures
            Currency::parsed_signed_bytes(v.fixed_bytes()) == v,
    {
        Self::lemma_alpha_code_shape(v);
        Self::lemma_alpha_round_trip(v);
        let bytes = v.fixed_bytes();
        assert(seq![bytes[0] as u8 as char, bytes[1] as u8 as char, bytes[2] as u8 as char]
            =~= v.alpha_code());
    }

    /// Parsing the alphabetic code of a currency as ASCII bytes gives that
    /// currency back.
    pub proof fn lemma_bytes_round_trip(v: Currency)
        ensures
            Currency::parsed_bytes(v.alpha_code().map_values(|c: char| c as u8)) == v,
    {
        Self::lemma_alpha_code_shape(v);
        Self::lemma_alpha_round_trip(v);
        let bytes = v.alpha_code().map_values(|c: char| c as u8);
        assert(seq![bytes[0] as char, bytes[1] as char, bytes[2] as char] =~= v.alpha_code());
    }

    /// Plain ASCII text parses as its bytes do.
    pub proof fn lemma_parsed_ascii(text: Seq<char>)
        requires
            is_ascii_chars(text),
        ensures
            Currency::parsed(text) == Currency::parsed_bytes(
                Seq::new(text.len(), |i: int| text[i] as u8),
            ),
    {
        if text.len() >= 3 {
            let head = seq![text[0], text[1], text[2]];
            let bytes = Seq::new(text.len(), |i: int| text[i] as u8);
            assert(bytes[0] as char == text[0] && bytes[1] as char == text[1] && bytes[2] as char
                == text[2]);
            assert(is_ascii_chars(head));
            assert(folded(text).subrange(0, 3) =~= folded(head).subrange(0, 3));
        }
    }

    /// Text of fewer than three characters parses to [`Currency::XXX`].
    pub proof fn lemma_short_text(text: Seq<char>)
        requires
            text.len() < 3,
        ensures
            Currency::parsed(text) == Currency::XXX,
    {
    }

    /// Parsing does not tell the cases apart: two ASCII texts that differ
    /// only in the case of their letters parse alike.
    pub proof fn lemma_case_insensitive(text: Seq<char>, other: Seq<char>)
        requires
            is_ascii_chars(text),
            is_ascii_chars(other),
            text.len() == other.len(),
            forall|i: int| 0 <= i < text.len() ==> ascii_upper(text[i]) == ascii_upper(other[i]),
        ensures
            Currency::parsed(text) == Currency::parsed(other),
    {
        assert(folded(text) =~= folded(other));
    }

    /// Parsing looks at the first three characters only: two ASCII texts
    /// that begin with the same three characters parse alike.
    pub proof fn lemma_trailing_ignored(text: Seq<char>, other: Seq<char>)
        requires
            is_ascii_chars(text),
            is_ascii_chars(other),
            text.len() >= 3,
            other.len() >= 3,
            text.subrange(0, 3) == other.subrange(0, 3),
        ensures
            Currency::parsed(text) == Currency::parsed(other),
    {
        assert forall|i: int| 0 <= i < 3 implies text[i] == other[i] by {
            assert(text.subrange(0, 3)[i] == text[i]);
            assert(other.subrange(0, 3)[i] == other[i]);
        }
        assert(folded(text).subrange(0, 3) =~= folded(other).subrange(0, 3));
    }
}

} // verus!
