//! The on-wire envelope.
//!
//! A message travels as an ordered sequence of byte frames: zero or more
//! opaque routing-identity frames, the literal delimiter frame `<IDS|MSG>`,
//! a signature frame, and the four logical frames (header, parent header,
//! metadata, content). Outbound, the envelope produces the delimiter
//! onward; the transport prepends identities only where its socket style
//! requires them. Inbound, the delimiter is located by exact byte match,
//! the preceding frames are retained as the identity prefix, and the
//! signature is verified over the four logical frames.

use vstd::prelude::*;

verus! {

use crate::bytestr::bytes_eq;
use crate::errors::Error;
use crate::signer::spec_signature;
use crate::signer::Signer;
use vstd::utf8::encode_utf8;

/// The delimiter frame separating the identity prefix from the signed
/// payload.
pub open spec fn delim_bytes() -> Seq<u8> {
    encode_utf8("<IDS|MSG>"@)
}

/// The four logical frames of one message, each a JSON document. An empty
/// document is the two bytes `{}`, never an empty frame.
pub struct WireEnvelope {
    pub header: Vec<u8>,
    pub parent_header: Vec<u8>,
    pub metadata: Vec<u8>,
    pub content: Vec<u8>,
}

pub struct EnvelopeView {
    pub header: Seq<u8>,
    pub parent_header: Seq<u8>,
    pub metadata: Seq<u8>,
    pub content: Seq<u8>,
}

impl View for WireEnvelope {
    type V = EnvelopeView;

    open spec fn view(&self) -> EnvelopeView {
        EnvelopeView {
            header: self.header@,
            parent_header: self.parent_header@,
            metadata: self.metadata@,
            content: self.content@,
        }
    }
}

/// The four logical frames in their on-wire order.
pub open spec fn logical_frames(e: EnvelopeView) -> Seq<Seq<u8>> {
    seq![e.header, e.parent_header, e.metadata, e.content]
}

/// The outbound frame sequence: delimiter, signature over the four logical
/// frames, then the frames themselves.
pub open spec fn spec_packets(e: EnvelopeView, key: Seq<u8>) -> Seq<Seq<u8>> {
    seq![delim_bytes(), encode_utf8(spec_signature(key, logical_frames(e)))] + logical_frames(e)
}

/// An inbound message after envelope decoding: the retained identity
/// prefix and the four logical frames.
pub struct DecodedMessage {
    pub identities: Vec<Vec<u8>>,
    pub envelope: WireEnvelope,
}

pub struct DecodedMessageView {
    pub identities: Seq<Seq<u8>>,
    pub envelope: EnvelopeView,
}

impl View for DecodedMessage {
    type V = DecodedMessageView;

    open spec fn view(&self) -> DecodedMessageView {
        DecodedMessageView { identities: self.identities.deep_view(), envelope: self.envelope@ }
    }
}

/// The least index at or after `i` whose frame is the delimiter.
pub open spec fn first_delim(raw: Seq<Seq<u8>>, i: int) -> Option<int>
    decreases raw.len() - i,
{
    if i < 0 || i >= raw.len() {
        None
    } else if raw[i] == delim_bytes() {
        Some(i)
    } else {
        first_delim(raw, i + 1)
    }
}

/// What decoding a received frame sequence yields.
///
/// The delimiter is located by exact byte match; frames before it are the
/// identity prefix; the next frame is the signature; the four after that
/// are the logical frames. A missing delimiter or too few frames after it
/// is a malformed envelope; a signature frame that is not the signer's
/// text over the four logical frames is a signature mismatch. Frames
/// beyond the sixth after the delimiter are ignored.
pub open spec fn spec_decode(raw: Seq<Seq<u8>>, key: Seq<u8>) -> Result<DecodedMessageView, Error> {
    match first_delim(raw, 0) {
        None => Err(Error::MalformedEnvelope),
        Some(d) => {
            if raw.len() < d + 6 {
                Err(Error::MalformedEnvelope)
            } else {
                let e = EnvelopeView {
                    header: raw[d + 2],
                    parent_header: raw[d + 3],
                    metadata: raw[d + 4],
                    content: raw[d + 5],
                };
                if raw[d + 1] == encode_utf8(spec_signature(key, logical_frames(e))) {
                    Ok(DecodedMessageView { identities: raw.subrange(0, d), envelope: e })
                } else {
                    Err(Error::SignatureMismatch)
                }
            }
        },
    }
}

proof fn lemma_first_delim(raw: Seq<Seq<u8>>, d: int, i: int)
    requires
        0 <= i <= d < raw.len(),
        raw[d] == delim_bytes(),
        forall|k: int| i <= k < d ==> raw[k] != delim_bytes(),
    ensures
        first_delim(raw, i) == Some(d),
    decreases d - i,
{
    if i < d {
        lemma_first_delim(raw, d, i + 1);
    }
}

/// Encoding then decoding is the identity, under any number of opaque
/// identity frames and any key: a message built by `spec_packets` with a
/// signer's key, prefixed by identity frames none of which equals the
/// delimiter, decodes with the same key to exactly that identity prefix
/// and the original four frames. With an empty key the signature frame is
/// empty, and decoding accepts it.
pub proof fn lemma_wire_round_trip(e: EnvelopeView, ids: Seq<Seq<u8>>, key: Seq<u8>)
    requires
        forall|k: int| 0 <= k < ids.len() ==> ids[k] != delim_bytes(),
    ensures
        spec_decode(ids + spec_packets(e, key), key) == Ok::<DecodedMessageView, Error>(
            DecodedMessageView { identities: ids, envelope: e },
        ),
{
    let raw = ids + spec_packets(e, key);
    let d = ids.len() as int;
    assert(raw[d] == delim_bytes());
    assert forall|k: int| 0 <= k < d implies raw[k] != delim_bytes() by {
        assert(raw[k] == ids[k]);
    }
    lemma_first_delim(raw, d, 0);
    assert(raw.len() == d + 6);
    let decoded = EnvelopeView {
        header: raw[d + 2],
        parent_header: raw[d + 3],
        metadata: raw[d + 4],
        content: raw[d + 5],
    };
    assert(decoded == e);
    assert(raw[d + 1] == encode_utf8(spec_signature(key, logical_frames(decoded))));
    assert(raw.subrange(0, d) =~= ids);
}

/// A message without identity frames decodes to itself: the signature
/// round trip.
pub proof fn lemma_sign_round_trip(e: EnvelopeView, key: Seq<u8>)
    ensures
        spec_decode(spec_packets(e, key), key) == Ok::<DecodedMessageView, Error>(
            DecodedMessageView { identities: Seq::empty(), envelope: e },
        ),
{
    lemma_wire_round_trip(e, Seq::empty(), key);
    assert(Seq::empty() + spec_packets(e, key) =~= spec_packets(e, key));
}

/// A message whose signature frame is not the signer's text over its four
/// logical frames is rejected as a signature mismatch, whatever else it
/// holds. Together with the round trip above this pins decoding down: an
/// altered message is accepted only if its altered frames still carry the
/// very tag the signer computes for them.
pub proof fn lemma_signature_mismatch(
    e: EnvelopeView,
    ids: Seq<Seq<u8>>,
    sig: Seq<u8>,
    key: Seq<u8>,
)
    requires
        forall|k: int| 0 <= k < ids.len() ==> ids[k] != delim_bytes(),
        sig != encode_utf8(spec_signature(key, logical_frames(e))),
    ensures
        spec_decode(ids + seq![delim_bytes(), sig] + logical_frames(e), key) == Err::<
            DecodedMessageView,
            Error,
        >(Error::SignatureMismatch),
{
    let raw = ids + seq![delim_bytes(), sig] + logical_frames(e);
    let d = ids.len() as int;
    assert(raw[d] == delim_bytes());
    assert forall|k: int| 0 <= k < d implies raw[k] != delim_bytes() by {
        assert(raw[k] == ids[k]);
    }
    lemma_first_delim(raw, d, 0);
    assert(raw.len() == d + 6);
    let decoded = EnvelopeView {
        header: raw[d + 2],
        parent_header: raw[d + 3],
        metadata: raw[d + 4],
        content: raw[d + 5],
    };
    assert(decoded == e);
    assert(raw[d + 1] == sig);
}

/// With an empty key authentication is disabled: the signature frame of
/// every outbound message is the empty byte string.
pub proof fn lemma_empty_key_signature(e: EnvelopeView, key: Seq<u8>)
    requires
        key.len() == 0,
    ensures
        spec_packets(e, key)[1] == Seq::<u8>::empty(),
{
    assert(spec_signature(key, logical_frames(e)) == Seq::<char>::empty());
    assert(encode_utf8(Seq::<char>::empty()) =~= Seq::<u8>::empty());
}

fn copy_bytes(v: &[u8]) -> (r: Vec<u8>)
    ensures
        r@ == v@,
{
    let mut out: Vec<u8> = Vec::new();
    out.extend_from_slice(v);
    proof {
        assert(out@ =~= v@);
    }
    out
}

impl WireEnvelope {
    /// The outbound frame sequence for this envelope: delimiter frame,
    /// signature frame, then the four logical frames.
    pub fn into_packets(&self, signer: &Signer) -> (r: Vec<Vec<u8>>)
        ensures
            r.deep_view() == spec_packets(self@, signer@),
    {
        let mut frames: Vec<Vec<u8>> = Vec::new();
        frames.push(copy_bytes(self.header.as_slice()));
        frames.push(copy_bytes(self.parent_header.as_slice()));
        frames.push(copy_bytes(self.metadata.as_slice()));
        frames.push(copy_bytes(self.content.as_slice()));
        proof {
            assert(frames.deep_view() =~~= logical_frames(self@));
        }
        let signature = signer.compute(&frames);
        let mut packets: Vec<Vec<u8>> = Vec::new();
        let mut delim: Vec<u8> = Vec::new();
        delim.extend_from_slice("<IDS|MSG>".as_bytes());
        proof {
            assert(delim@ =~= delim_bytes());
        }
        packets.push(delim);
        let mut sig_bytes: Vec<u8> = Vec::new();
        sig_bytes.extend_from_slice(signature.as_str().as_bytes());
        proof {
            assert(sig_bytes@ =~= encode_utf8(spec_signature(signer@, logical_frames(self@))));
        }
        packets.push(sig_bytes);
        packets.push(copy_bytes(self.header.as_slice()));
        packets.push(copy_bytes(self.parent_header.as_slice()));
        packets.push(copy_bytes(self.metadata.as_slice()));
        packets.push(copy_bytes(self.content.as_slice()));
        proof {
            assert(packets.deep_view() =~~= spec_packets(self@, signer@));
        }
        packets
    }

    /// Decodes a received frame sequence, retaining the identity prefix
    /// and verifying the signature over the four logical frames.
    pub fn decode_frames(raw: &Vec<Vec<u8>>, signer: &Signer) -> (r: Result<DecodedMessage, Error>)
        ensures
            match r {
                Ok(m) => spec_decode(raw.deep_view(), signer@) == Ok::<DecodedMessageView, Error>(
                    m@,
                ),
                Err(e) => spec_decode(raw.deep_view(), signer@) == Err::<DecodedMessageView, Error>(
                    e,
                ),
            },
    {
        let ghost rv = raw.deep_view();
        let n = raw.len();
        let mut d: usize = 0;
        let mut found = false;
        while d < n && !found
            invariant
                0 <= d <= n,
                n == rv.len(),
                rv == raw.deep_view(),
                !found ==> first_delim(rv, 0) == first_delim(rv, d as int),
                found ==> first_delim(rv, 0) == Some(d as int) && d < n,
            decreases n - d + (if found {
                0int
            } else {
                1int
            }),
        {
            if bytes_eq(raw[d].as_slice(), "<IDS|MSG>".as_bytes()) {
                proof {
                    assert(rv[d as int] =~= delim_bytes());
                }
                found = true;
            } else {
                proof {
                    assert(rv[d as int] != delim_bytes()) by {
                        if rv[d as int] == delim_bytes() {
                            assert(raw@[d as int]@ =~= delim_bytes());
                        }
                    }
                }
                d += 1;
            }
        }
        if !found {
            return Err(Error::MalformedEnvelope);
        }
        if n - d < 6 {
            return Err(Error::MalformedEnvelope);
        }
        let mut identities: Vec<Vec<u8>> = Vec::new();
        let mut i: usize = 0;
        while i < d
            invariant
                0 <= i <= d <= n,
                n == rv.len(),
                rv == raw.deep_view(),
                identities@.len() == i,
                forall|k: int| 0 <= k < i ==> identities@[k]@ == raw@[k]@,
            decreases d - i,
        {
            identities.push(copy_bytes(raw[i].as_slice()));
            i += 1;
        }
        proof {
            assert(identities.deep_view() =~~= rv.subrange(0, d as int));
        }
        let envelope = WireEnvelope {
            header: copy_bytes(raw[d + 2].as_slice()),
            parent_header: copy_bytes(raw[d + 3].as_slice()),
            metadata: copy_bytes(raw[d + 4].as_slice()),
            content: copy_bytes(raw[d + 5].as_slice()),
        };
        let mut signed: Vec<Vec<u8>> = Vec::new();
        signed.push(copy_bytes(raw[d + 2].as_slice()));
        signed.push(copy_bytes(raw[d + 3].as_slice()));
        signed.push(copy_bytes(raw[d + 4].as_slice()));
        signed.push(copy_bytes(raw[d + 5].as_slice()));
        proof {
            assert(signed.deep_view() =~~= logical_frames(envelope@));
            assert(envelope@.header =~= rv[d + 2]);
            assert(envelope@.parent_header =~= rv[d + 3]);
            assert(envelope@.metadata =~= rv[d + 4]);
            assert(envelope@.content =~= rv[d + 5]);
            assert(raw@[d + 1]@ =~= rv[d + 1]);
        }
        if !signer.verify(&signed, raw[d + 1].as_slice()) {
            return Err(Error::SignatureMismatch);
        }
        Ok(DecodedMessage { identities, envelope })
    }

    /// Decodes a received frame sequence and hands back the envelope
    /// alone, discarding the identity prefix.
    pub fn from_raw_response(raw: &Vec<Vec<u8>>, signer: &Signer) -> (r: Result<WireEnvelope, Error>)
        ensures
            match r {
                Ok(e) => spec_decode(raw.deep_view(), signer@) matches Ok(m) && m.envelope == e@,
                Err(err) => spec_decode(raw.deep_view(), signer@) == Err::<
                    DecodedMessageView,
                    Error,
                >(err),
            },
    {
        match WireEnvelope::decode_frames(raw, signer) {
            Ok(m) => Ok(m.envelope),
            Err(e) => Err(e),
        }
    }
}

} // verus!
