//! ISO 4217 currency codes.
//!
//! [`Currency`] is the closed list of the standard's entries. Each entry has
//! a numeric code, an alphabetic code of three upper-case letters and an
//! English name, and can be rendered as text, as a number or as a fixed
//! record of four bytes. Parsing goes the other way and never fails: what
//! names no entry gives [`Currency::XXX`], the entry for "no currency".
//!
//! Every function carries a contract over the tables of [`registry`], and
//! [`laws`] states what holds of the list as a whole.

pub mod convert;
pub mod currency;
pub mod encode;
pub mod laws;
pub mod lookup;
pub mod parse;
pub mod registry;

pub use currency::Currency;
