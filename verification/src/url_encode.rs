use vstd::prelude::*;
use vstd::string::StringSliceAdditionalSpecFns;
use vstd::utf8::{
    decode_utf8, encode_utf8, encode_utf8_decode_utf8, encode_utf8_valid_utf8, is_ascii_chars,
    is_ascii_chars_encode_utf8, valid_utf8,
};
use urlencoding::FromUrlEncodingError;

verus! {

/// Whether a byte stands for itself in a percent-encoded text: the ASCII
/// letters and digits, and `-`, `.`, `_`, `~`.
pub open spec fn is_unreserved(b: u8) -> bool {
    ||| 0x30 <= b <= 0x39
    ||| 0x41 <= b <= 0x5a
    ||| 0x61 <= b <= 0x7a
    ||| b == 0x2d
    ||| b == 0x2e
    ||| b == 0x5f
    ||| b == 0x7e
}

/// The ASCII code of the uppercase hexadecimal digit for `v`.
pub open spec fn upper_hex(v: u8) -> u8 {
    if v < 10 {
        (0x30 + v) as u8
    } else {
        (0x37 + v) as u8
    }
}

/// A byte as it appears in a percent-encoded text: itself when unreserved,
/// else `%` and its two uppercase hexadecimal digits.
pub open spec fn escaped_byte(b: u8) -> Seq<u8> {
    if is_unreserved(b) {
        seq![b]
    } else {
        seq![0x25u8, upper_hex(b / 16), upper_hex(b % 16)]
    }
}

/// Percent-encoding of a byte sequence.
pub open spec fn percent_encoded(data: Seq<u8>) -> Seq<u8>
    decreases data.len(),
{
    if data.len() == 0 {
        Seq::empty()
    } else {
        escaped_byte(data[0]) + percent_encoded(data.drop_first())
    }
}

/// The value of an ASCII hexadecimal digit of either case.
pub open spec fn hex_value(b: u8) -> Option<u8> {
    if 0x30 <= b <= 0x39 {
        Some((b - 0x30) as u8)
    } else if 0x41 <= b <= 0x46 {
        Some((b - 0x37) as u8)
    } else if 0x61 <= b <= 0x66 {
        Some((b - 0x57) as u8)
    } else {
        None
    }
}

/// Percent-decoding of a byte sequence.
///
/// `%` followed by two hexadecimal digits becomes the byte they write.  A
/// `%` that is not followed by two such digits stays as it is, and so does
/// every other byte; `+` is not turned into a space.
pub open spec fn percent_decoded(data: Seq<u8>) -> Seq<u8>
    decreases data.len(),
{
    if data.len() == 0 {
        Seq::empty()
    } else if data[0] != 0x25 {
        seq![data[0]] + percent_decoded(data.drop_first())
    } else if data.len() < 3 {
        data
    } else if hex_value(data[1]) is None {
        seq![0x25u8] + percent_decoded(data.skip(1))
    } else if hex_value(data[2]) is None {
        seq![0x25u8, data[1]] + percent_decoded(data.skip(2))
    } else {
        seq![(hex_value(data[1]).unwrap() * 16 + hex_value(data[2]).unwrap()) as u8]
            + percent_decoded(data.skip(3))
    }
}

/// The text whose characters are the given ASCII codes.
pub open spec fn ascii_text(bytes: Seq<u8>) -> Seq<char> {
    Seq::new(bytes.len(), |i: int| bytes[i] as char)
}

/// `urlencoding::FromUrlEncodingError`, why a text could not be decoded.
/// Nothing is read from it.
#[verifier::external_type_specification]
#[verifier::external_body]
pub struct ExFromUrlEncodingError(FromUrlEncodingError);

/// `urlencoding::encode` percent-encodes the UTF-8 bytes of a text: every
/// byte but the unreserved ones becomes `%` and two uppercase hexadecimal
/// digits.
pub assume_specification[ urlencoding::encode ](data: &str) -> (out: String)
    ensures
        out@ == ascii_text(percent_encoded(data.spec_bytes())),
;

/// `urlencoding::decode` percent-decodes the UTF-8 bytes of a text and
/// succeeds exactly when the decoded bytes are valid UTF-8, giving the text
/// they encode.
pub assume_specification[ urlencoding::decode ](urlencoded: &str) -> (r: Result<
    String,
    FromUrlEncodingError,
>)
    ensures
        r is Ok == valid_utf8(percent_decoded(urlencoded.spec_bytes())),
        r matches Ok(text) ==> text@ == decode_utf8(percent_decoded(urlencoded.spec_bytes())),
;

/// The mathematical state of the page.
pub struct State {
    /// Whether the page encodes (true) or decodes (false).
    pub encode: bool,
    pub input: Seq<char>,
    pub output: Seq<char>,
    /// Whether the input could not be decoded.
    pub error: bool,
}

impl State {
    /// The state after `text` has been entered.
    ///
    /// In encode mode the output is the encoded text.  In decode mode the
    /// output is the decoded text if the input decodes; if not, the error is
    /// raised and the output stays.
    pub open spec fn entered(self, text: Seq<char>) -> State {
        if self.encode {
            State {
                input: text,
                output: ascii_text(percent_encoded(encode_utf8(text))),
                error: false,
                ..self
            }
        } else {
            let bytes = percent_decoded(encode_utf8(text));
            if valid_utf8(bytes) {
                State { input: text, output: decode_utf8(bytes), error: false, ..self }
            } else {
                State { input: text, error: true, ..self }
            }
        }
    }

    /// The state after the tab for `encode` has been chosen: on a change of
    /// mode, input and output trade places.
    pub open spec fn switched(self, encode: bool) -> State {
        if self.encode != encode {
            State { encode, input: self.output, output: self.input, ..self }
        } else {
            self
        }
    }
}

/// The settings and texts of the page.
#[derive(Debug)]
pub struct Props {
    pub encode: bool,
    pub input: String,
    pub output: String,
    pub error: bool,
}

impl View for Props {
    type V = State;

    open spec fn view(&self) -> State {
        State {
            encode: self.encode,
            input: self.input@,
            output: self.output@,
            error: self.error,
        }
    }
}

impl Default for Props {
    /// Encode mode, empty texts, no error.
    fn default() -> (props: Props)
        ensures
            props@ == (State {
                encode: true,
                input: Seq::empty(),
                output: Seq::empty(),
                error: false,
            }),
    {
        Props { encode: true, input: String::new(), output: String::new(), error: false }
    }
}

/// An event from the page.
#[derive(Debug)]
pub enum Msg {
    /// The input area now holds this text.
    Input(String),
    /// The encode tab (true) or the decode tab (false) was chosen.
    Encode(bool),
}

/// The URL encoder and decoder.
#[derive(Debug)]
pub struct Model {
    props: Props,
}

impl View for Model {
    type V = State;

    closed spec fn view(&self) -> State {
        self.props@
    }
}

impl Model {
    pub fn create(props: Props) -> (model: Model)
        ensures
            model@ == props@,
    {
        Model { props }
    }

    /// The settings and texts on display.
    pub fn props(&self) -> (props: &Props)
        ensures
            props@ == self@,
    {
        &self.props
    }

    /// Applies an event and asks for a rendering.
    pub fn update(&mut self, msg: Msg) -> (render: bool)
        ensures
            render,
            final(self)@ == match msg {
                Msg::Input(text) => old(self)@.entered(text@),
                Msg::Encode(encode) => old(self)@.switched(encode),
            },
    {
        match msg {
            Msg::Input(txt) => {
                if self.props.encode {
                    let output = urlencoding::encode(txt.as_str());
                    self.props.input = txt;
                    self.props.output = output;
                    self.props.error = false;
                } else {
                    let output = urlencoding::decode(txt.as_str());
                    self.props.input = txt;
                    match output {
                        Ok(output) => {
                            self.props.output = output;
                            self.props.error = false;
                        },
                        Err(_) => {
                            self.props.error = true;
                        },
                    }
                }
            },
            Msg::Encode(b) => {
                if self.props.encode != b {
                    self.props.encode = b;
                    std::mem::swap(&mut self.props.input, &mut self.props.output);
                }
            },
        }
        true
    }

    /// New properties change nothing and need no rendering.
    pub fn change(&mut self, _props: Props) -> (render: bool)
        ensures
            !render,
            final(self)@ == old(self)@,
    {
        false
    }

    /// The style classes of the encode tab: `is-danger` when the input could
    /// not be decoded, then `is-active` in encode mode.
    pub fn encode_tab_classes(&self) -> (classes: Vec<&'static str>)
        ensures
            classes@.len() == (if self@.error { 1nat } else { 0nat }) + (if self@.encode {
                1nat
            } else {
                0nat
            }),
            self@.error ==> classes@[0]@ == "is-danger"@,
            self@.encode ==> classes@.last()@ == "is-active"@,
    {
        let mut classes: Vec<&'static str> = Vec::new();
        if self.props.error {
            classes.push("is-danger");
        }
        if self.props.encode {
            classes.push("is-active");
        }
        classes
    }

    /// The style class of the decode tab: `is-active` in decode mode, empty
    /// otherwise.
    pub fn decode_tab_class(&self) -> (class: &'static str)
        ensures
            class@ == if self@.encode { ""@ } else { "is-active"@ },
    {
        if self.props.encode {
            ""
        } else {
            "is-active"
        }
    }
}

/// Choosing a tab and then the other one leaves the page as it was, and
/// choosing the tab already shown changes nothing.
pub proof fn lemma_switch_back(s: State)
    ensures
        s.switched(!s.encode).switched(s.encode) == s,
        s.switched(s.encode) == s,
        s.switched(!s.encode).input == s.output,
        s.switched(!s.encode).output == s.input,
{
}

/// A percent-encoded text holds ASCII codes only.
pub proof fn lemma_encoded_is_ascii(data: Seq<u8>)
    ensures
        forall|i: int| 0 <= i < percent_encoded(data).len() ==> #[trigger] percent_encoded(data)[i]
            < 0x80,
    decreases data.len(),
{
    if data.len() > 0 {
        lemma_encoded_is_ascii(data.drop_first());
        let head = escaped_byte(data[0]);
        let tail = percent_encoded(data.drop_first());
        assert forall|i: int| 0 <= i < percent_encoded(data).len() implies #[trigger] percent_encoded(
            data,
        )[i] < 0x80 by {
            if i >= head.len() {
                assert(percent_encoded(data)[i] == tail[i - head.len()]);
            }
        }
    }
}

/// Percent-decoding undoes percent-encoding.
pub proof fn lemma_decoded_encoded(data: Seq<u8>)
    ensures
        percent_decoded(percent_encoded(data)) == data,
    decreases data.len(),
{
    if data.len() > 0 {
        let b = data[0];
        let rest = data.drop_first();
        let tail = percent_encoded(rest);
        let whole = percent_encoded(data);
        lemma_decoded_encoded(rest);
        if is_unreserved(b) {
            assert(whole.drop_first() =~= tail);
            assert(seq![b] + rest =~= data);
        } else {
            assert(whole.len() >= 3);
            assert(whole[0] == 0x25 && whole[1] == upper_hex(b / 16) && whole[2] == upper_hex(
                b % 16,
            ));
            assert(whole.skip(3) =~= tail);
            assert(hex_value(upper_hex(b / 16)) == Some((b / 16) as u8));
            assert(hex_value(upper_hex(b % 16)) == Some((b % 16) as u8));
            assert(((b / 16) * 16 + b % 16) as u8 == b);
            assert(seq![b] + rest =~= data);
        }
    }
}

/// Decoding what was encoded gives the text back: after a text has been
/// entered on the encode tab, choosing the decode tab and entering the
/// encoded text shows the first text as output, without error.
pub proof fn lemma_decode_inverts_encode(s: State, text: Seq<char>)
    requires
        s.encode,
    ensures
        ({
            let encoded = s.entered(text).output;
            let back = s.entered(text).switched(false).entered(encoded);
            &&& !back.error
            &&& back.input == encoded
            &&& back.output == text
        }),
{
    let bytes = encode_utf8(text);
    let escaped = percent_encoded(bytes);
    let encoded = ascii_text(escaped);
    lemma_encoded_is_ascii(bytes);
    assert(is_ascii_chars(encoded)) by {
        assert forall|i: int| 0 <= i < encoded.len() implies '\0' <= #[trigger] encoded[i]
            <= '\u{7f}' by {
            assert(escaped[i] < 0x80);
        }
    }
    is_ascii_chars_encode_utf8(encoded);
    assert(encode_utf8(encoded) =~= escaped) by {
        assert forall|i: int| 0 <= i < escaped.len() implies encode_utf8(encoded)[i]
            == escaped[i] by {
            assert(encoded[i] as u8 == encode_utf8(encoded)[i]);
            assert(escaped[i] < 0x80);
        }
    }
    lemma_decoded_encoded(bytes);
    encode_utf8_valid_utf8(text);
    encode_utf8_decode_utf8(text);
}

} // verus!
