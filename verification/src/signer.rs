//! Authentication tags over frame sequences.
//!
//! A signer holds the connection's shared secret and computes the signature
//! frame of a message: the lowercase hexadecimal text of HMAC-SHA-256 over
//! the four logical frames, concatenated in order with no separators. An
//! empty key disables authentication: the signature is the empty string and
//! only an empty signature frame verifies.

use vstd::prelude::*;

verus! {

use crate::bytestr::bytes_eq;
use crate::bytestr::concat_bytes;
use crate::bytestr::str_eq;
use crate::errors::Error;
use vstd::utf8::encode_utf8;

/// What HMAC-SHA-256 computes: a function of the key and the message
/// alone. Nothing further is assumed of the tag beyond its length, which
/// the wrapper below states.
pub uninterp spec fn hmac_sha256_tag(key: Seq<u8>, data: Seq<u8>) -> Seq<u8>;

/// Relies on `hmac::Hmac<sha2::Sha256>`: the tag depends on the key and the
/// message alone, and is 32 bytes (SHA-256's output size). HMAC accepts
/// keys of any length, so construction cannot fail.
#[verifier::external_body]
fn hmac_sha256(key: &[u8], data: &[u8]) -> (r: Vec<u8>)
    ensures
        r@ == hmac_sha256_tag(key@, data@),
        r@.len() == 32,
{
    let mut mac = <hmac::Hmac<sha2::Sha256> as hmac::KeyInit>::new_from_slice(key).expect(
        "HMAC accepts keys of any length",
    );
    hmac::Mac::update(&mut mac, data);
    hmac::Mac::finalize(mac).into_bytes().to_vec()
}

/// One lowercase hexadecimal digit.
pub open spec fn hex_char(n: u8) -> char {
    if n < 10 {
        ((48 + n) as u8) as char
    } else {
        ((87 + n) as u8) as char
    }
}

/// The lowercase hexadecimal text of a byte string: two digits per byte,
/// in order.
pub open spec fn hex_str(b: Seq<u8>) -> Seq<char>
    decreases b.len(),
{
    if b.len() == 0 {
        Seq::empty()
    } else {
        hex_str(b.drop_last()) + seq![hex_char(b.last() / 16), hex_char(b.last() % 16)]
    }
}

/// Relies on `hex::encode`: each input byte becomes exactly two lowercase
/// hexadecimal digits, in input order.
#[verifier::external_body]
fn hex_encode(b: &[u8]) -> (r: String)
    ensures
        r@ == hex_str(b@),
{
    hex::encode(b)
}

/// The signature text for a frame sequence under a key: empty when the key
/// is empty, else the hexadecimal HMAC-SHA-256 tag over the concatenated
/// frames.
pub open spec fn spec_signature(key: Seq<u8>, frames: Seq<Seq<u8>>) -> Seq<char> {
    if key.len() == 0 {
        Seq::empty()
    } else {
        hex_str(hmac_sha256_tag(key, concat_bytes(frames)))
    }
}

/// Computes and verifies authentication tags under a shared secret.
#[derive(Clone)]
pub struct Signer {
    key: Vec<u8>,
}

impl View for Signer {
    type V = Seq<u8>;

    closed spec fn view(&self) -> Seq<u8> {
        self.key@
    }
}

impl Signer {
    /// Builds a signer for the given key. Only the `hmac-sha256` signature
    /// scheme is supported; any other scheme is a configuration error.
    pub fn new(key: Vec<u8>, scheme: &str) -> (r: Result<Signer, Error>)
        ensures
            scheme@ == "hmac-sha256"@ ==> (r matches Ok(s) && s@ == key@),
            scheme@ != "hmac-sha256"@ ==> r == Err::<Signer, Error>(Error::ConfigError),
    {
        if str_eq(scheme, "hmac-sha256") {
            Ok(Signer { key })
        } else {
            Err(Error::ConfigError)
        }
    }

    /// The signature text over `frames`: the hexadecimal HMAC-SHA-256 tag
    /// of their concatenation, or the empty string when the key is empty.
    /// Under a non-empty key the text is always the 64 digits of the
    /// 32-byte tag.
    pub fn compute(&self, frames: &Vec<Vec<u8>>) -> (r: String)
        ensures
            r@ == spec_signature(self@, frames.deep_view()),
            self@.len() == 0 ==> r@.len() == 0,
            self@.len() > 0 ==> r@.len() == 64,
    {
        if self.key.len() == 0 {
            return String::new();
        }
        let mut data: Vec<u8> = Vec::new();
        let mut i: usize = 0;
        proof {
            assert(frames.deep_view().subrange(0, 0) =~= Seq::<Seq<u8>>::empty());
            assert(data@ =~= concat_bytes(frames.deep_view().subrange(0, 0)));
        }
        while i < frames.len()
            invariant
                0 <= i <= frames@.len(),
                frames.deep_view().len() == frames@.len(),
                data@ == concat_bytes(frames.deep_view().subrange(0, i as int)),
            decreases frames@.len() - i,
        {
            data.extend_from_slice(frames[i].as_slice());
            i += 1;
            proof {
                let dv = frames.deep_view();
                assert(dv.subrange(0, i as int).drop_last() =~= dv.subrange(0, i as int - 1));
                assert(dv.subrange(0, i as int).last() == frames@[i - 1]@);
            }
        }
        proof {
            assert(frames.deep_view().subrange(0, frames@.len() as int) =~= frames.deep_view());
        }
        let tag = hmac_sha256(self.key.as_slice(), data.as_slice());
        proof {
            lemma_hex_str_len(tag@);
        }
        hex_encode(tag.as_slice())
    }

    /// Whether a received signature frame matches the tag this signer
    /// computes over `frames`. Every byte is examined, so the running time
    /// does not depend on where a mismatch lies. With an empty key only an
    /// empty signature frame is accepted.
    pub fn verify(&self, frames: &Vec<Vec<u8>>, sig: &[u8]) -> (r: bool)
        ensures
            r == (sig@ == encode_utf8(spec_signature(self@, frames.deep_view()))),
    {
        let computed = self.compute(frames);
        bytes_eq(computed.as_str().as_bytes(), sig)
    }
}

proof fn lemma_hex_str_len(b: Seq<u8>)
    ensures
        hex_str(b).len() == 2 * b.len(),
    decreases b.len(),
{
    if b.len() > 0 {
        lemma_hex_str_len(b.drop_last());
    }
}

} // verus!
