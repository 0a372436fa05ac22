//! Small text utilities: a converter between numeric bases, Base64 and URL
//! codecs, message digests, a character counter, a generator of regular
//! expressions from examples, and a generator of speech balloons.
//!
//! Each utility is a pure function of the text entered, together with the
//! state a page needs to show its result.

pub mod base64;
pub mod base_converter;
pub mod char_counter;
pub mod digest;
pub mod natural;
pub mod radix;
pub mod regex;
pub mod sudden_death;
pub mod text;
pub mod url_encode;
