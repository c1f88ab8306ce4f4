//! Fixed-width and quoted renderings of a currency.

use crate::currency::Currency;
use vstd::prelude::*;
use vstd::string::StrSliceExecFns;
use vstd::string::StringExecFns;

verus! {

impl Currency {
    /// The alphabetic code as a zero-terminated record of four bytes: the
    /// three letters in ASCII, then a zero.
    pub open spec fn fixed_bytes(self) -> Seq<i8> {
        seq![
            self.letters().0 as u8 as i8,
            self.letters().1 as u8 as i8,
            self.letters().2 as u8 as i8,
            0i8,
        ]
    }

    /// The alphabetic code between double quotes.
    pub open spec fn quoted(self) -> Seq<char> {
        seq!['"'] + self.alpha_code() + seq!['"']
    }

    /// Gets the alphabetic code as a zero-terminated record of four bytes.
    pub fn to_fixed_bytes(self) -> (r: [i8; 4])
        ensures
            r@ == self.fixed_bytes(),
    {
        let code = self.to_alpha();
        proof {
            Self::lemma_alpha_code_shape(self);
        }
        let a = code.get_ascii(0);
        let b = code.get_ascii(1);
        let c = code.get_ascii(2);
        let r = [a as i8, b as i8, c as i8, 0];
        assert(r@ =~= self.fixed_bytes());
        r
    }

    /// Renders the alphabetic code between double quotes, as structured
    /// output wants it.
    pub fn display(self) -> (r: String)
        ensures
            r@ == self.quoted(),
    {
        proof {
            reveal_strlit("\"");
        }
        let mut r = String::from_str("\"");
        r.append(self.to_alpha());
        r.append("\"");
        assert(r@ =~= self.quoted());
        r
    }
}

} // verus!
