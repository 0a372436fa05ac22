use vstd::prelude::*;
use num_bigint::BigUint;
use crate::radix::{is_numeral, numeral, numeral_value, radix_in_range};

verus! {

/// The number that a little-endian sequence of base-256 digits stands for.
pub open spec fn le_value(bytes: Seq<u8>) -> nat
    decreases bytes.len(),
{
    if bytes.len() == 0 {
        0
    } else {
        bytes[0] as nat + 256 * le_value(bytes.drop_first())
    }
}

/// An arbitrary-precision natural number, kept as little-endian bytes.
///
/// Any byte sequence is a valid representation; trailing zero bytes do not
/// change the number.
#[derive(Debug)]
pub struct Natural {
    bytes: Vec<u8>,
}

impl View for Natural {
    type V = nat;

    closed spec fn view(&self) -> nat {
        le_value(self.bytes@)
    }
}

impl Clone for Natural {
    fn clone(&self) -> (out: Self)
        ensures
            out@ == self@,
    {
        Natural { bytes: self.bytes.clone() }
    }
}

impl Natural {
    /// The little-endian bytes this number is kept as.
    pub closed spec fn spec_bytes(&self) -> Seq<u8> {
        self.bytes@
    }

    /// The view is the little-endian value of the bytes.
    pub proof fn lemma_view_is_le_value(&self)
        ensures
            self@ == le_value(self.spec_bytes()),
    {
    }

    /// Builds the number whose little-endian base-256 digits are `bytes`.
    pub fn from_bytes_le(bytes: Vec<u8>) -> (n: Natural)
        ensures
            n.spec_bytes() == bytes@,
            n@ == le_value(bytes@),
    {
        Natural { bytes }
    }

    /// The little-endian base-256 digits of the number, as stored.
    pub fn to_bytes_le(&self) -> (bytes: Vec<u8>)
        ensures
            bytes@ == self.spec_bytes(),
            le_value(bytes@) == self@,
    {
        self.bytes.clone()
    }

    /// Calls `BigUint::parse_bytes` on the UTF-8 bytes of `text` and keeps the
    /// result as the bytes `BigUint::to_bytes_le` gives.  Trusted claim: when
    /// every character of a non-empty `text` is a digit of `radix`, the call
    /// succeeds and yields the positional value of the digits.  Nothing is
    /// claimed for other texts.
    #[verifier::external_body]
    pub(crate) fn parse_bytes(text: &str, radix: u32) -> (r: Option<Natural>)
        requires
            radix_in_range(radix),
        ensures
            is_numeral(text@, radix) ==> r.is_some() && r.unwrap()@ == numeral_value(text@, radix),
    {
        match BigUint::parse_bytes(text.as_bytes(), radix) {
            Some(n) => Some(Natural { bytes: n.to_bytes_le() }),
            None => None,
        }
    }

    /// Calls `BigUint::to_str_radix` on the number rebuilt with
    /// `BigUint::from_bytes_le`.  Trusted claim: the result is the shortest
    /// lowercase numeral of the number in `radix`, `"0"` for zero.
    #[verifier::external_body]
    pub(crate) fn to_str_radix(&self, radix: u32) -> (r: String)
        requires
            radix_in_range(radix),
        ensures
            r@ == numeral(self@, radix),
    {
        BigUint::from_bytes_le(&self.bytes).to_str_radix(radix)
    }
}

} // verus!
