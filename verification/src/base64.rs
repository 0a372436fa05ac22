use vstd::prelude::*;
use vstd::string::{StringExecFns, StringSliceAdditionalSpecFns};
use vstd::utf8::{decode_utf8, encode_utf8, valid_utf8};
use crate::radix::{numeral, push_decimal};

verus! {

/// The character for the six-bit value `v` in the standard alphabet:
/// `A-Z`, `a-z`, `0-9`, `+`, `/`.
pub open spec fn symbol(v: nat) -> char {
    if v < 26 {
        ((0x41 + v) as u8) as char
    } else if v < 52 {
        ((0x61 + v - 26) as u8) as char
    } else if v < 62 {
        ((0x30 + v - 52) as u8) as char
    } else if v == 62 {
        '+'
    } else {
        '/'
    }
}

/// The standard Base64 encoding with padding: every three bytes become four
/// symbols, and a last group of one or two bytes is filled up with `=`.
pub open spec fn encoded(data: Seq<u8>) -> Seq<char>
    decreases data.len(),
{
    if data.len() == 0 {
        Seq::empty()
    } else if data.len() == 1 {
        let a = data[0] as nat;
        seq![symbol(a / 4), symbol(a % 4 * 16), '=', '=']
    } else if data.len() == 2 {
        let a = data[0] as nat;
        let b = data[1] as nat;
        seq![symbol(a / 4), symbol(a % 4 * 16 + b / 16), symbol(b % 16 * 4), '=']
    } else {
        let a = data[0] as nat;
        let b = data[1] as nat;
        let c = data[2] as nat;
        seq![
            symbol(a / 4),
            symbol(a % 4 * 16 + b / 16),
            symbol(b % 16 * 4 + c / 64),
            symbol(c % 64),
        ] + encoded(data.skip(3))
    }
}

/// Why a text is not Base64.
#[derive(Clone, Copy, Debug, PartialEq, Eq, Structural)]
pub enum DecodeFailure {
    /// The byte at this offset is not a symbol of the alphabet.
    InvalidByte(usize, u8),
    /// The text has a length no encoding has.
    InvalidLength,
    /// The last symbol, at this offset, carries bits that would be dropped.
    InvalidLastSymbol(usize, u8),
}

impl DecodeFailure {
    /// The failure in words.
    pub open spec fn message_spec(self) -> Seq<char> {
        match self {
            DecodeFailure::InvalidByte(offset, byte) => "Invalid byte "@ + numeral(byte as nat, 10)
                + ", offset "@ + numeral(offset as nat, 10) + "."@,
            DecodeFailure::InvalidLength => "Encoded text cannot have a 6-bit remainder."@,
            DecodeFailure::InvalidLastSymbol(offset, byte) => "Invalid last symbol "@ + numeral(
                byte as nat,
                10,
            ) + ", offset "@ + numeral(offset as nat, 10) + "."@,
        }
    }

    /// The failure in words.
    pub fn message(&self) -> (out: String)
        ensures
            out@ == self.message_spec(),
    {
        match *self {
            DecodeFailure::InvalidByte(offset, byte) => {
                let mut out = String::from_str("Invalid byte ");
                push_decimal(&mut out, byte as usize);
                out.append(", offset ");
                push_decimal(&mut out, offset);
                out.append(".");
                out
            },
            DecodeFailure::InvalidLength => String::from_str(
                "Encoded text cannot have a 6-bit remainder.",
            ),
            DecodeFailure::InvalidLastSymbol(offset, byte) => {
                let mut out = String::from_str("Invalid last symbol ");
                push_decimal(&mut out, byte as usize);
                out.append(", offset ");
                push_decimal(&mut out, offset);
                out.append(".");
                out
            },
        }
    }
}

/// What `base64::decode` makes of a text given by its bytes.
pub uninterp spec fn decoded(input: Seq<u8>) -> Result<Seq<u8>, DecodeFailure>;

/// How the standard library words the reason why bytes are not UTF-8.
pub uninterp spec fn utf8_error_text(bytes: Seq<u8>) -> Seq<char>;

/// Whether the encoding of `len` bytes has a length that fits the machine.
pub open spec fn encodable(len: nat) -> bool {
    len / 3 * 4 + 4 <= usize::MAX
}

/// Whether a text of `len` bytes is short enough to be decoded.
pub open spec fn decodable(len: nat) -> bool {
    len + 3 <= usize::MAX
}

/// `base64::encode` gives the standard encoding with padding.  It gives up
/// when the length of the encoding does not fit in `usize`.
#[verifier::external_body]
fn encode(input: &[u8]) -> (out: String)
    requires
        encodable(input@.len()),
    ensures
        out@ == encoded(input@),
{
    ::base64::encode(input)
}

/// `base64::decode` with its error carried over variant by variant.  Trusted
/// claim: the outcome depends on the bytes alone.  The call gives up when the
/// length plus three does not fit in `usize`.
#[verifier::external_body]
fn decode(input: &[u8]) -> (r: Result<Vec<u8>, DecodeFailure>)
    requires
        decodable(input@.len()),
    ensures
        match r {
            Ok(bytes) => decoded(input@) == Ok::<Seq<u8>, DecodeFailure>(bytes@),
            Err(e) => decoded(input@) == Err::<Seq<u8>, DecodeFailure>(e),
        },
{
    match ::base64::decode(input) {
        Ok(bytes) => Ok(bytes),
        Err(::base64::DecodeError::InvalidByte(i, b)) => Err(DecodeFailure::InvalidByte(i, b)),
        Err(::base64::DecodeError::InvalidLength) => Err(DecodeFailure::InvalidLength),
        Err(::base64::DecodeError::InvalidLastSymbol(i, b)) => Err(
            DecodeFailure::InvalidLastSymbol(i, b),
        ),
    }
}

/// `String::from_utf8` succeeds exactly on valid UTF-8 and then gives the
/// text the bytes encode; its error is carried over as the text it displays
/// as, which depends on the bytes alone.
#[verifier::external_body]
fn string_from_utf8(bytes: Vec<u8>) -> (r: Result<String, String>)
    ensures
        r is Ok == valid_utf8(bytes@),
        r matches Ok(text) ==> text@ == decode_utf8(bytes@),
        r matches Err(reason) ==> reason@ == utf8_error_text(bytes@),
{
    match String::from_utf8(bytes) {
        Ok(text) => Ok(text),
        Err(e) => Err(e.to_string()),
    }
}

/// What is shown for text that failed to decode, given the reason.
pub open spec fn error_text(reason: Seq<char>) -> Seq<char> {
    "Error: "@ + reason
}

/// What is shown for the outcome of decoding: the text that the decoded
/// bytes encode, or the reason why there is none.
pub open spec fn shown(outcome: Result<Seq<u8>, DecodeFailure>) -> Seq<char> {
    match outcome {
        Ok(bytes) => if valid_utf8(bytes) {
            decode_utf8(bytes)
        } else {
            error_text(utf8_error_text(bytes))
        },
        Err(e) => error_text(e.message_spec()),
    }
}

/// What is shown for a failure with the given reason.
pub fn show_error(reason: &str) -> (out: String)
    ensures
        out@ == error_text(reason@),
{
    let mut out = String::from_str("Error: ");
    out.append(reason);
    out
}

/// What is shown for the outcome of decoding.
pub fn show_decoded(outcome: Result<Vec<u8>, DecodeFailure>) -> (out: String)
    ensures
        out@ == shown(
            match outcome {
                Ok(bytes) => Ok(bytes@),
                Err(e) => Err(e),
            },
        ),
{
    match outcome {
        Ok(bytes) => match string_from_utf8(bytes) {
            Ok(text) => text,
            Err(reason) => show_error(reason.as_str()),
        },
        Err(e) => show_error(e.message().as_str()),
    }
}

/// The Base64 encoding of the UTF-8 bytes of `text`.
pub fn encode_text(text: &str) -> (out: String)
    requires
        encodable(text.spec_bytes().len()),
    ensures
        out@ == encoded(text.spec_bytes()),
{
    encode(text.as_bytes())
}

/// The text that `text` is the Base64 encoding of, or the reason why it has
/// none, after `Error: `.
pub fn decode_text(text: &str) -> (out: String)
    requires
        decodable(text.spec_bytes().len()),
    ensures
        out@ == shown(decoded(text.spec_bytes())),
{
    show_decoded(decode(text.as_bytes()))
}

/// The mathematical state of the page.
pub struct State {
    /// Whether the encode tab is the active one.
    pub encode: bool,
    pub input: Seq<char>,
    pub output: Seq<char>,
}

impl State {
    /// The state after `text` has been entered: the output is the encoding of
    /// the text on the encode tab, and what decoding it gives on the other.
    pub open spec fn entered(self, text: Seq<char>) -> State {
        State {
            input: text,
            output: if self.encode {
                encoded(encode_utf8(text))
            } else {
                shown(decoded(encode_utf8(text)))
            },
            ..self
        }
    }

    /// The state after a tab has been chosen: that tab is active, and input
    /// and output have traded places.
    pub open spec fn switched(self, encode: bool) -> State {
        State { encode, input: self.output, output: self.input }
    }
}

/// An event from the page.
#[derive(Debug)]
pub enum Msg {
    /// The encode tab was chosen.
    Encode,
    /// The decode tab was chosen.
    Decode,
    /// The input area now holds this text.
    Input(String),
}

/// The Base64 encoder and decoder.
#[derive(Debug)]
pub struct Model {
    encode: bool,
    input: String,
    output: String,
}

impl View for Model {
    type V = State;

    closed spec fn view(&self) -> State {
        State { encode: self.encode, input: self.input@, output: self.output@ }
    }
}

impl Model {
    /// A page on its encode tab with both areas empty.
    pub fn create() -> (model: Model)
        ensures
            model@ == (State { encode: true, input: Seq::empty(), output: Seq::empty() }),
    {
        Model { encode: true, input: String::new(), output: String::new() }
    }

    /// Whether the encode tab is the active one.
    pub fn is_encode(&self) -> (encode: bool)
        ensures
            encode == self@.encode,
    {
        self.encode
    }

    /// The content of the input area.
    pub fn input(&self) -> (text: &str)
        ensures
            text@ == self@.input,
    {
        self.input.as_str()
    }

    /// The content of the output area.
    pub fn output(&self) -> (text: &str)
        ensures
            text@ == self@.output,
    {
        self.output.as_str()
    }

    /// Applies an event and asks for a rendering.
    pub fn update(&mut self, msg: Msg) -> (render: bool)
        requires
            msg matches Msg::Input(text) ==> encodable(encode_utf8(text@).len()),
        ensures
            render,
            final(self)@ == match msg {
                Msg::Input(text) => old(self)@.entered(text@),
                Msg::Encode => old(self)@.switched(true),
                Msg::Decode => old(self)@.switched(false),
            },
    {
        match msg {
            Msg::Input(s) => {
                let output = if self.encode {
                    encode_text(s.as_str())
                } else {
                    decode_text(s.as_str())
                };
                self.input = s;
                self.output = output;
            },
            Msg::Encode => {
                self.encode = true;
                std::mem::swap(&mut self.input, &mut self.output);
            },
            Msg::Decode => {
                self.encode = false;
                std::mem::swap(&mut self.input, &mut self.output);
            },
        }
        true
    }

    /// New properties change nothing and need no rendering.
    pub fn change(&mut self) -> (render: bool)
        ensures
            !render,
            final(self)@ == old(self)@,
    {
        false
    }
}

/// Whether `text` is short enough for `Model::update` to take as input.
pub fn accepts(text: &str) -> (ok: bool)
    ensures
        ok == encodable(text.spec_bytes().len()),
{
    let len = text.as_bytes().len();
    len / 3 <= (usize::MAX - 4) / 4
}

/// Choosing a tab twice in a row puts input and output back where they were.
pub proof fn lemma_switch_twice(s: State, first: bool, second: bool)
    ensures
        s.switched(first).switched(second).input == s.input,
        s.switched(first).switched(second).output == s.output,
        s.switched(first).switched(second).encode == second,
{
}

} // verus!
