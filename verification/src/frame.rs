//! The atomic unit of data exchanged between machines: an identifier, a raw
//! byte payload, and a tag telling data frames from acknowledgments.
//!
//! The checksum is never stored: it is recomputed on demand as the
//! exclusive-or of the id with every payload byte, so it cannot go stale.

use vstd::prelude::*;
use vstd::utf8::{decode_utf8, encode_utf8, valid_utf8};

verus! {

/// Tags a frame as carrying payload data or as acknowledging receipt of a
/// data frame with the same id.
#[derive(Clone, Copy, PartialEq, Eq, Structural, Debug)]
pub enum FrameKind {
    Confirmation,
    Data,
}

/// A simple data frame for link-layer simulation. It carries no real protocol
/// headers or control bits: only an id, a payload, and a kind tag. Frames are
/// built once by the sender and read-only afterwards.
#[derive(Debug)]
pub struct Frame {
    pub id: u8,
    pub data: Vec<u8>,
    pub kind: FrameKind,
}

/// The mathematical model of a frame: the same fields, with the payload as a
/// sequence of bytes.
#[verifier::ext_equal]
pub ghost struct FrameModel {
    pub id: u8,
    pub data: Seq<u8>,
    pub kind: FrameKind,
}

impl View for Frame {
    type V = FrameModel;

    open spec fn view(&self) -> FrameModel {
        FrameModel { id: self.id, data: self.data@, kind: self.kind }
    }
}

/// Left-to-right fold of exclusive-or over `data`, starting from `acc`.
pub open spec fn xor_fold(acc: u8, data: Seq<u8>) -> u8
    decreases data.len(),
{
    if data.len() == 0 {
        acc
    } else {
        xor_fold(acc ^ data[0], data.drop_first())
    }
}

/// The checksum of a frame model: its id folded with every payload byte.
/// The kind is deliberately not mixed in.
pub open spec fn checksum_of(f: FrameModel) -> u8 {
    xor_fold(f.id, f.data)
}

/// What `String::from_utf8_lossy` makes of a byte sequence: the bytes read as
/// UTF-8 text, with each invalid sequence replaced rather than rejected.
pub uninterp spec fn lossy_utf8_of(b: Seq<u8>) -> Seq<char>;

/// Relies on `String::from_utf8_lossy`: the decoded text depends on the bytes
/// alone; valid UTF-8 input is returned as-is (so the result is its UTF-8
/// decoding), and every invalid sequence is replaced with U+FFFD rather than
/// rejected, so the call never fails.
#[verifier::external_body]
fn utf8_lossy(b: &Vec<u8>) -> (r: String)
    ensures
        r@ == lossy_utf8_of(b@),
        valid_utf8(b@) ==> r@ == decode_utf8(b@),
        !valid_utf8(b@) ==> r@.contains('\u{FFFD}'),
{
    String::from_utf8_lossy(b).to_string()
}

impl Frame {
    /// Builds a frame from its parts; any id and any byte sequence (including
    /// an empty one) are accepted.
    pub fn new(id: u8, data: Vec<u8>, kind: FrameKind) -> (r: Frame)
        ensures
            r@ == (FrameModel { id, data: data@, kind }),
    {
        Frame { id, data, kind }
    }

    /// Decodes the payload as UTF-8 text. A valid UTF-8 payload decodes to
    /// exactly its text; invalid byte sequences are not an error, they are
    /// replaced with the replacement character, so this never fails.
    pub fn decode(&self) -> (r: String)
        ensures
            r@ == lossy_utf8_of(self.data@),
            valid_utf8(self.data@) ==> r@ == decode_utf8(self.data@),
            !valid_utf8(self.data@) ==> r@.contains('\u{FFFD}'),
    {
        utf8_lossy(&self.data)
    }

    /// The frame's checksum: exclusive-or of the id with every payload byte,
    /// folded left to right.
    pub fn get_check_sum(&self) -> (r: u8)
        ensures
            r == checksum_of(self@),
    {
        let mut acc: u8 = self.id;
        let mut i: usize = 0;
        proof {
            assert(self.data@.skip(0) =~= self.data@);
        }
        while i < self.data.len()
            invariant
                i <= self.data@.len(),
                xor_fold(acc, self.data@.skip(i as int)) == checksum_of(self@),
            decreases self.data@.len() - i,
        {
            proof {
                assert(self.data@.skip(i as int)[0] == self.data@[i as int]);
                assert(self.data@.skip(i as int).drop_first() =~= self.data@.skip(
                    i as int + 1,
                ));
            }
            acc = acc ^ self.data[i];
            i = i + 1;
        }
        proof {
            assert(self.data@.skip(i as int) =~= Seq::<u8>::empty());
        }
        acc
    }
}

impl Clone for Frame {
    /// A cloned frame has the same id, payload bytes, and kind.
    fn clone(&self) -> (r: Frame)
        ensures
            r@ == self@,
    {
        Frame { id: self.id, data: copy_bytes(&self.data), kind: self.kind }
    }
}

/// A fresh byte vector with the same contents.
fn copy_bytes(v: &Vec<u8>) -> (r: Vec<u8>)
    ensures
        r@ == v@,
{
    let mut r: Vec<u8> = Vec::new();
    let mut i: usize = 0;
    while i < v.len()
        invariant
            i <= v@.len(),
            r@ == v@.subrange(0, i as int),
        decreases v@.len() - i,
    {
        r.push(v[i]);
        proof {
            assert(r@ =~= v@.subrange(0, i as int + 1));
        }
        i = i + 1;
    }
    proof {
        assert(r@ =~= v@);
    }
    r
}

/// Decoding a valid UTF-8 payload loses nothing: re-encoding the decoded
/// text gives back exactly the payload bytes.
pub proof fn lemma_decode_valid_utf8_round_trip(d: Seq<u8>)
    requires
        valid_utf8(d),
    ensures
        encode_utf8(decode_utf8(d)) == d,
{
    vstd::utf8::decode_utf8_encode_utf8(d);
}

/// The checksum is the id exclusive-ored with the fold of the payload alone.
pub proof fn lemma_checksum_is_id_xor_fold(f: FrameModel)
    ensures
        checksum_of(f) == (f.id ^ xor_fold(0, f.data)),
{
    lemma_xor_fold_acc(f.id, f.data);
}

/// Two frames with the same id and payload have the same checksum, whatever
/// their kinds: the checksum does not depend on the kind.
pub proof fn lemma_checksum_kind_invariant(a: FrameModel, b: FrameModel)
    requires
        a.id == b.id,
        a.data == b.data,
    ensures
        checksum_of(a) == checksum_of(b),
{
}

/// Folding from `acc` is folding from zero, exclusive-ored with `acc`.
proof fn lemma_xor_fold_acc(acc: u8, s: Seq<u8>)
    ensures
        xor_fold(acc, s) == (acc ^ xor_fold(0, s)),
    decreases s.len(),
{
    if s.len() == 0 {
        assert(acc ^ 0u8 == acc) by (bit_vector);
    } else {
        let b = s[0];
        let rest = s.drop_first();
        lemma_xor_fold_acc(acc ^ b, rest);
        lemma_xor_fold_acc(0 ^ b, rest);
        let t = xor_fold(0, rest);
        assert((acc ^ b) ^ t == acc ^ ((0u8 ^ b) ^ t)) by (bit_vector);
    }
}

} // verus!
