//! The layout of requests to services and of their responses.
//!
//! A message starts with two header words, then the special header when a
//! process id or handles go with it, then the copied and the moved handles.
//! Zero words pad these to a multiple of 16 bytes, the 16-byte CMIF header
//! follows, then the payload, and zero words pad what follows the CMIF header
//! to 16 more bytes than the payload.

use vstd::prelude::*;
use vstd::bytes::{spec_u32_from_le_bytes, spec_u32_to_le_bytes};
use crate::services::types::{header0_bits, header1_bits, special_bits, Header0Tag, Header1Tag, SpecialTag, CMIF_IN_SIGNATURE};

verus! {

/// The little-endian bytes of the words `ws`, one after the other.
pub open spec fn words_le(ws: Seq<u32>) -> Seq<u8>
    decreases ws.len(),
{
    if ws.len() == 0 {
        Seq::empty()
    } else {
        words_le(ws.drop_last()) + spec_u32_to_le_bytes(ws.last())
    }
}

/// `n` zero bytes.
pub open spec fn zero_bytes(n: nat) -> Seq<u8> {
    Seq::new(n, |i: int| 0u8)
}

/// The size of the headers before the CMIF header's padding: two header
/// words, the special header when there is one, and the handles.
pub open spec fn header_size(has_special: bool, handle_count: nat) -> nat {
    8 + (if has_special { 4nat } else { 0nat }) + 4 * handle_count
}

/// The number of zero words between the headers and the CMIF header.
pub open spec fn pre_padding_words(header_size: nat) -> nat {
    (header_size % 16) / 4
}

/// The CMIF header of a request for the method `command_id`: the signature
/// "SFCI", version 1, and no token.
pub open spec fn cmif_in_bytes(command_id: u32) -> Seq<u8> {
    words_le(seq![CMIF_IN_SIGNATURE, 1u32, command_id, 0u32])
}

/// The bytes of a request for the method `command_id`, sending the process
/// id when `send_pid`, the handles `copy` and `moved`, and the payload's bytes.
pub open spec fn request_bytes(command_id: u32, send_pid: bool, copy: Seq<u32>, moved: Seq<u32>, payload: Seq<u8>) -> Seq<u8> {
    let has_special = send_pid || copy.len() + moved.len() > 0;
    let pre = pre_padding_words(header_size(has_special, copy.len() + moved.len()));
    let raw_count = (16 + payload.len()) / 4 + 4;
    spec_u32_to_le_bytes(header0_bits(4, 0, 0, 0, 0)) + spec_u32_to_le_bytes(
        header1_bits(raw_count as u32, 0, 0, has_special),
    ) + (if has_special {
        spec_u32_to_le_bytes(special_bits(send_pid, copy.len() as u32, moved.len() as u32))
    } else {
        Seq::empty()
    }) + words_le(copy) + words_le(moved) + zero_bytes(4 * pre) + cmif_in_bytes(command_id) + payload
        + zero_bytes((4 * (4 - pre)) as nat)
}

/// The little-endian word at `offset` of `bytes`.
pub open spec fn word_at(bytes: Seq<u8>, offset: int) -> u32 {
    spec_u32_from_le_bytes(bytes.subrange(offset, offset + 4))
}

/// The offset of the result code in a response with the given headers: the
/// third word of the CMIF header, after the padding.
pub open spec fn result_offset(has_special: bool, handle_count: nat) -> nat {
    let size = header_size(has_special, handle_count);
    size + 4 * pre_padding_words(size) + 8
}

proof fn lemma_words_le_push(ws: Seq<u32>, w: u32)
    ensures
        words_le(ws.push(w)) == words_le(ws) + spec_u32_to_le_bytes(w),
{
    assert(ws.push(w).drop_last() =~= ws);
}

/// Appends the little-endian bytes of `x`.
fn append_word(out: &mut Vec<u8>, x: u32)
    ensures
        final(out)@ == old(out)@ + spec_u32_to_le_bytes(x),
{
    let b = vstd::bytes::u32_to_le_bytes(x);
    out.push(b[0]);
    out.push(b[1]);
    out.push(b[2]);
    out.push(b[3]);
    assert(out@ =~= old(out)@ + b@);
}

/// Appends the little-endian bytes of each word of `ws`.
fn append_words(out: &mut Vec<u8>, ws: &[u32])
    ensures
        final(out)@ == old(out)@ + words_le(ws@),
{
    let mut i: usize = 0;
    while i < ws.len()
        invariant
            i <= ws@.len(),
            out@ == old(out)@ + words_le(ws@.subrange(0, i as int)),
        decreases ws@.len() - i,
    {
        proof {
            lemma_words_le_push(ws@.subrange(0, i as int), ws@[i as int]);
            assert(ws@.subrange(0, i as int).push(ws@[i as int]) =~= ws@.subrange(0, i + 1));
        }
        append_word(out, ws[i]);
        i = i + 1;
    }
    assert(ws@.subrange(0, ws@.len() as int) =~= ws@);
}

/// Appends `n` zero bytes.
fn append_zeros(out: &mut Vec<u8>, n: usize)
    ensures
        final(out)@ == old(out)@ + zero_bytes(n as nat),
{
    let mut i: usize = 0;
    while i < n
        invariant
            i <= n,
            out@ == old(out)@ + zero_bytes(i as nat),
        decreases n - i,
    {
        out.push(0);
        i = i + 1;
        assert(out@ =~= old(out)@ + zero_bytes(i as nat));
    }
}

/// Appends the bytes of `bytes`.
fn append_bytes(out: &mut Vec<u8>, bytes: &[u8])
    ensures
        final(out)@ == old(out)@ + bytes@,
{
    let mut i: usize = 0;
    while i < bytes.len()
        invariant
            i <= bytes@.len(),
            out@ == old(out)@ + bytes@.subrange(0, i as int),
        decreases bytes@.len() - i,
    {
        out.push(bytes[i]);
        i = i + 1;
        assert(out@ =~= old(out)@ + bytes@.subrange(0, i as int));
    }
    assert(bytes@.subrange(0, bytes@.len() as int) =~= bytes@);
}

/// Lays out a request for the method `command_id`, sending the process id
/// when `send_pid`, the handles `copy` and `moved`, and `payload`, the bytes
/// of the request's arguments as they lie in memory (a whole number of words).
pub fn encode_request(command_id: u32, send_pid: bool, copy: &[u32], moved: &[u32], payload: &[u8]) -> (r: Vec<u8>)
    requires
        copy@.len() <= 15,
        moved@.len() <= 15,
        payload@.len() <= 0x100,
        payload@.len() % 4 == 0,
    ensures
        r@ == request_bytes(command_id, send_pid, copy@, moved@, payload@),
{
    let has_special = send_pid || copy.len() + moved.len() > 0;
    let size: usize = 8 + (if has_special { 4 } else { 0 }) + 4 * (copy.len() + moved.len());
    let pre = (size % 16) / 4;
    let raw_count = ((16 + payload.len()) / 4 + 4) as u32;
    let mut out: Vec<u8> = Vec::new();
    append_word(&mut out, Header0Tag::new(4, 0, 0, 0, 0).bits());
    append_word(&mut out, Header1Tag::new(raw_count, 0, 0, has_special).bits());
    let ghost with_headers = out@;
    if has_special {
        append_word(&mut out, SpecialTag::new(send_pid, copy.len() as u32, moved.len() as u32).bits());
    }
    let ghost with_special = out@;
    append_words(&mut out, copy);
    append_words(&mut out, moved);
    append_zeros(&mut out, 4 * pre);
    let ghost before_cmif = out@;
    append_word(&mut out, CMIF_IN_SIGNATURE);
    append_word(&mut out, 1);
    append_word(&mut out, command_id);
    append_word(&mut out, 0);
    proof {
        lemma_words_le_push(Seq::empty(), CMIF_IN_SIGNATURE);
        lemma_words_le_push(seq![CMIF_IN_SIGNATURE], 1u32);
        lemma_words_le_push(seq![CMIF_IN_SIGNATURE, 1u32], command_id);
        lemma_words_le_push(seq![CMIF_IN_SIGNATURE, 1u32, command_id], 0u32);
        assert(Seq::<u32>::empty().push(CMIF_IN_SIGNATURE) =~= seq![CMIF_IN_SIGNATURE]);
        assert(seq![CMIF_IN_SIGNATURE].push(1u32) =~= seq![CMIF_IN_SIGNATURE, 1u32]);
        assert(seq![CMIF_IN_SIGNATURE, 1u32].push(command_id) =~= seq![CMIF_IN_SIGNATURE, 1u32, command_id]);
        assert(seq![CMIF_IN_SIGNATURE, 1u32, command_id].push(0u32) =~= seq![CMIF_IN_SIGNATURE, 1u32, command_id, 0u32]);
        assert(out@ =~= before_cmif + cmif_in_bytes(command_id));
    }
    append_bytes(&mut out, payload);
    append_zeros(&mut out, 4 * (4 - pre));
    proof {
        let s = request_bytes(command_id, send_pid, copy@, moved@, payload@);
        assert(size == header_size(has_special, copy@.len() + moved@.len()));
        assert(pre == pre_padding_words(size as nat));
        if has_special {
            assert(with_special =~= with_headers + spec_u32_to_le_bytes(
                special_bits(send_pid, copy@.len() as u32, moved@.len() as u32),
            ));
        } else {
            assert(with_special =~= with_headers + Seq::<u8>::empty());
        }
        assert(out@ =~= s);
    }
    out
}

/// The little-endian word at `offset` of `bytes`.
pub fn read_word(bytes: &[u8], offset: usize) -> (r: u32)
    requires
        offset + 4 <= bytes@.len(),
    ensures
        r == word_at(bytes@, offset as int),
{
    let n = bytes.len();
    assert(offset + 4 <= n);
    let w = vstd::slice::slice_subrange(bytes, offset, offset + 4);
    vstd::bytes::u32_from_le_bytes(w)
}

} // verus!
