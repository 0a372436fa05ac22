use vstd::prelude::*;
use vstd::utf8::encode_utf8;
use md5::{Digest, Md5};
use sha1::Sha1;
use sha2::{Sha224, Sha256, Sha384, Sha512, Sha512Trunc224, Sha512Trunc256};
use crate::radix::{digit_char, digit_to_char};

verus! {

/// The MD5 digest of a message.
pub uninterp spec fn md5_of(data: Seq<u8>) -> Seq<u8>;

/// The SHA-1 digest of a message.
pub uninterp spec fn sha1_of(data: Seq<u8>) -> Seq<u8>;

/// The SHA-224 digest of a message.
pub uninterp spec fn sha224_of(data: Seq<u8>) -> Seq<u8>;

/// The SHA-256 digest of a message.
pub uninterp spec fn sha256_of(data: Seq<u8>) -> Seq<u8>;

/// The SHA-384 digest of a message.
pub uninterp spec fn sha384_of(data: Seq<u8>) -> Seq<u8>;

/// The SHA-512 digest of a message.
pub uninterp spec fn sha512_of(data: Seq<u8>) -> Seq<u8>;

/// The SHA-512/224 digest of a message.
pub uninterp spec fn sha512_224_of(data: Seq<u8>) -> Seq<u8>;

/// The SHA-512/256 digest of a message.
pub uninterp spec fn sha512_256_of(data: Seq<u8>) -> Seq<u8>;

/// `Md5::digest`: the digest is a function of the message alone.
#[verifier::external_body]
fn md5(data: &[u8]) -> (hash: Vec<u8>)
    ensures
        hash@ == md5_of(data@),
{
    Md5::digest(data).to_vec()
}

/// `Sha1::digest`: the digest is a function of the message alone.
#[verifier::external_body]
fn sha1(data: &[u8]) -> (hash: Vec<u8>)
    ensures
        hash@ == sha1_of(data@),
{
    Sha1::digest(data).to_vec()
}

/// `Sha224::digest`: the digest is a function of the message alone.
#[verifier::external_body]
fn sha224(data: &[u8]) -> (hash: Vec<u8>)
    ensures
        hash@ == sha224_of(data@),
{
    Sha224::digest(data).to_vec()
}

/// `Sha256::digest`: the digest is a function of the message alone.
#[verifier::external_body]
fn sha256(data: &[u8]) -> (hash: Vec<u8>)
    ensures
        hash@ == sha256_of(data@),
{
    Sha256::digest(data).to_vec()
}

/// `Sha384::digest`: the digest is a function of the message alone.
#[verifier::external_body]
fn sha384(data: &[u8]) -> (hash: Vec<u8>)
    ensures
        hash@ == sha384_of(data@),
{
    Sha384::digest(data).to_vec()
}

/// `Sha512::digest`: the digest is a function of the message alone.
#[verifier::external_body]
fn sha512(data: &[u8]) -> (hash: Vec<u8>)
    ensures
        hash@ == sha512_of(data@),
{
    Sha512::digest(data).to_vec()
}

/// `Sha512Trunc224::digest`: the digest is a function of the message alone.
#[verifier::external_body]
fn sha512_224(data: &[u8]) -> (hash: Vec<u8>)
    ensures
        hash@ == sha512_224_of(data@),
{
    Sha512Trunc224::digest(data).to_vec()
}

/// `Sha512Trunc256::digest`: the digest is a function of the message alone.
#[verifier::external_body]
fn sha512_256(data: &[u8]) -> (hash: Vec<u8>)
    ensures
        hash@ == sha512_256_of(data@),
{
    Sha512Trunc256::digest(data).to_vec()
}

/// The character at position `i` of the lowercase hexadecimal form of
/// `bytes`: the high half of a byte at even positions, the low half at odd
/// ones.
pub open spec fn hex_char_at(bytes: Seq<u8>, i: int) -> char {
    let b = bytes[i / 2] as nat;
    if i % 2 == 0 {
        digit_char(b / 16)
    } else {
        digit_char(b % 16)
    }
}

/// Bytes written as lowercase hexadecimal, two digits per byte.
pub open spec fn hex_lower(bytes: Seq<u8>) -> Seq<char> {
    Seq::new(2 * bytes.len(), |i: int| hex_char_at(bytes, i))
}

/// Writes a digest as lowercase hexadecimal.
pub fn digest_str(hash: &[u8]) -> (out: String)
    ensures
        out@ == hex_lower(hash@),
{
    let mut out = String::new();
    let mut i: usize = 0;
    while i < hash.len()
        invariant
            i <= hash.len(),
            out@.len() == 2 * i,
            forall|k: int| 0 <= k < 2 * i ==> out@[k] == hex_char_at(hash@, k),
        decreases hash.len() - i,
    {
        let b = hash[i];
        out.push(digit_to_char(b / 16));
        out.push(digit_to_char(b % 16));
        i += 1;
    }
    assert(out@ =~= hex_lower(hash@));
    out
}

/// The digests on display, each in lowercase hexadecimal.
#[derive(Debug)]
pub struct Props {
    pub md5: String,
    pub sha1: String,
    pub sha224: String,
    pub sha256: String,
    pub sha384: String,
    pub sha512: String,
    pub sha512_224: String,
    pub sha512_256: String,
}

impl Props {
    /// Whether these are the digests of the message `data`.
    pub open spec fn describes(&self, data: Seq<u8>) -> bool {
        &&& self.md5@ == hex_lower(md5_of(data))
        &&& self.sha1@ == hex_lower(sha1_of(data))
        &&& self.sha224@ == hex_lower(sha224_of(data))
        &&& self.sha256@ == hex_lower(sha256_of(data))
        &&& self.sha384@ == hex_lower(sha384_of(data))
        &&& self.sha512@ == hex_lower(sha512_of(data))
        &&& self.sha512_224@ == hex_lower(sha512_224_of(data))
        &&& self.sha512_256@ == hex_lower(sha512_256_of(data))
    }

    /// Whether every field is empty.
    pub open spec fn is_blank(&self) -> bool {
        &&& self.md5@.len() == 0
        &&& self.sha1@.len() == 0
        &&& self.sha224@.len() == 0
        &&& self.sha256@.len() == 0
        &&& self.sha384@.len() == 0
        &&& self.sha512@.len() == 0
        &&& self.sha512_224@.len() == 0
        &&& self.sha512_256@.len() == 0
    }
}

impl Default for Props {
    /// Every field empty.
    fn default() -> (props: Props)
        ensures
            props.is_blank(),
    {
        Props {
            md5: String::new(),
            sha1: String::new(),
            sha224: String::new(),
            sha256: String::new(),
            sha384: String::new(),
            sha512: String::new(),
            sha512_224: String::new(),
            sha512_256: String::new(),
        }
    }
}

/// The digests of the UTF-8 bytes of `text`.
pub fn digests(text: &str) -> (props: Props)
    ensures
        props.describes(encode_utf8(text@)),
{
    let data = text.as_bytes();
    Props {
        md5: digest_str(md5(data).as_slice()),
        sha1: digest_str(sha1(data).as_slice()),
        sha224: digest_str(sha224(data).as_slice()),
        sha256: digest_str(sha256(data).as_slice()),
        sha384: digest_str(sha384(data).as_slice()),
        sha512: digest_str(sha512(data).as_slice()),
        sha512_224: digest_str(sha512_224(data).as_slice()),
        sha512_256: digest_str(sha512_256(data).as_slice()),
    }
}

/// An event from the page.
#[derive(Debug)]
pub enum Msg {
    /// The text area now holds this text.
    Input(String),
}

/// The digest calculator.
#[derive(Debug)]
pub struct Model {
    props: Props,
}

impl View for Model {
    type V = Props;

    closed spec fn view(&self) -> Props {
        self.props
    }
}

impl Model {
    pub fn create(props: Props) -> (model: Model)
        ensures
            model@ == props,
    {
        Model { props }
    }

    /// The digests on display.
    pub fn props(&self) -> (props: &Props)
        ensures
            *props == self@,
    {
        &self.props
    }

    /// Recomputes every digest for the text of an event and asks for a
    /// rendering.
    pub fn update(&mut self, msg: Msg) -> (render: bool)
        ensures
            render,
            msg matches Msg::Input(text) && final(self)@.describes(encode_utf8(text@)),
    {
        match msg {
            Msg::Input(text) => {
                self.props = digests(text.as_str());
            },
        }
        true
    }

    /// New properties change nothing and need no rendering.
    pub fn change(&mut self, _props: Props) -> (render: bool)
        ensures
            !render,
            final(self)@ == old(self)@,
    {
        false
    }
}

} // verus!
