//! The wire format of the synchronisation pipes between the runtime and
//! the container's first process.
//!
//! A packet is one status byte: `1` for ready, or `2` followed by the
//! length of a message as four big-endian bytes and the message in UTF-8.
//! A closed pipe (nothing read) is end of file.
use vstd::prelude::*;
use vstd::utf8::{decode_utf8, encode_utf8, valid_utf8};

use crate::error::{ErrorView, KuroError};
use crate::text::{concat2, int_text, u64_text};

verus! {

/// What one wait on a synchronisation pipe yields.
#[derive(Debug, Clone, PartialEq, Eq)]
pub enum SyncResult {
    Ready,
    Error(String),
    Eof,
}

/// A `SyncResult` with its message taken as characters.
pub enum SyncView {
    Ready,
    Error(Seq<char>),
    Eof,
}

impl View for SyncResult {
    type V = SyncView;

    open spec fn view(&self) -> SyncView {
        match self {
            SyncResult::Ready => SyncView::Ready,
            SyncResult::Error(m) => SyncView::Error(m@),
            SyncResult::Eof => SyncView::Eof,
        }
    }
}

/// What `String::from_utf8_lossy` gives for `bytes`.
pub uninterp spec fn utf8_lossy(bytes: Seq<u8>) -> Seq<char>;

/// `String::from_utf8_lossy(bytes).to_string()`: claims that the result is
/// a function of the bytes and, for valid UTF-8, is exactly the text the
/// bytes encode (only invalid sequences are replaced).
#[verifier::external_body]
fn lossy_text(bytes: &[u8]) -> (r: String)
    ensures
        r@ == utf8_lossy(bytes@),
        valid_utf8(bytes@) ==> r@ == decode_utf8(bytes@),
{
    String::from_utf8_lossy(bytes).to_string()
}

/// The text of a message payload: the characters it encodes when it is
/// valid UTF-8, otherwise the lossy decoding.
pub open spec fn payload_text(bytes: Seq<u8>) -> Seq<char> {
    if valid_utf8(bytes) {
        decode_utf8(bytes)
    } else {
        utf8_lossy(bytes)
    }
}

/// The four big-endian bytes of `n`.
pub open spec fn be32(n: u32) -> Seq<u8> {
    seq![(n >> 24u32) as u8, (n >> 16u32) as u8, (n >> 8u32) as u8, n as u8]
}

/// The number that four big-endian bytes hold.
pub open spec fn be32_value(b0: u8, b1: u8, b2: u8, b3: u8) -> u32 {
    ((b0 as u32) << 24u32) | ((b1 as u32) << 16u32) | ((b2 as u32) << 8u32) | (b3 as u32)
}

proof fn lemma_be32_round_trip(n: u32)
    ensures
        be32_value((n >> 24u32) as u8, (n >> 16u32) as u8, (n >> 8u32) as u8, n as u8) == n,
{
    assert(((((n >> 24u32) as u8) as u32) << 24u32) | ((((n >> 16u32) as u8) as u32) << 16u32)
        | ((((n >> 8u32) as u8) as u32) << 8u32) | ((n as u8) as u32) == n) by (bit_vector);
}

/// The ready packet.
pub open spec fn ready_packet_bytes() -> Seq<u8> {
    seq![1u8]
}

/// The error packet for `msg`. The length field holds the byte length of
/// the message cut to 32 bits.
pub open spec fn error_packet_bytes(msg: Seq<char>) -> Seq<u8> {
    seq![2u8] + be32(encode_utf8(msg).len() as u32) + encode_utf8(msg)
}

pub open spec fn truncated_payload_msg() -> Seq<char> {
    "Unexpected EOF while reading error payload from sync pipe"@
}

/// What a packet read from the pipe means. Bytes after the packet are not
/// looked at.
pub open spec fn decode_packet_bytes(p: Seq<u8>) -> Result<SyncView, ErrorView> {
    if p.len() == 0 {
        Ok(SyncView::Eof)
    } else if p[0] == 1 {
        Ok(SyncView::Ready)
    } else if p[0] == 2 {
        if p.len() < 5 {
            Err(ErrorView::SyncPipe(truncated_payload_msg()))
        } else {
            let len = be32_value(p[1], p[2], p[3], p[4]);
            if p.len() < 5 + len {
                Err(ErrorView::SyncPipe(truncated_payload_msg()))
            } else {
                Ok(SyncView::Error(payload_text(p.subrange(5, 5 + len))))
            }
        }
    } else {
        Err(
            ErrorView::SyncPipe(
                "Received invalid status code from sync pipe: "@ + int_text(p[0] as int),
            ),
        )
    }
}

pub open spec fn sync_result_view(r: Result<SyncResult, KuroError>) -> Result<SyncView, ErrorView> {
    match r {
        Ok(v) => Ok(v@),
        Err(e) => Err(e@),
    }
}

/// The packet that says the sender is ready.
pub fn ready_packet() -> (r: Vec<u8>)
    ensures
        r@ == ready_packet_bytes(),
{
    let mut v = Vec::new();
    v.push(1u8);
    assert(v@ =~= ready_packet_bytes());
    v
}

/// The packet that carries an error message.
pub fn error_packet(msg: &str) -> (r: Vec<u8>)
    ensures
        r@ == error_packet_bytes(msg@),
{
    let bytes = msg.as_bytes();
    let n = bytes.len() as u32;
    let mut v: Vec<u8> = Vec::new();
    v.push(2u8);
    v.push((n >> 24u32) as u8);
    v.push((n >> 16u32) as u8);
    v.push((n >> 8u32) as u8);
    v.push(n as u8);
    let mut i: usize = 0;
    while i < bytes.len()
        invariant
            v@ == seq![2u8] + be32(n) + bytes@.take(i as int),
            i <= bytes@.len(),
        decreases bytes@.len() - i,
    {
        v.push(bytes[i]);
        assert(bytes@.take(i + 1) =~= bytes@.take(i as int).push(bytes@[i as int]));
        i = i + 1;
    }
    assert(bytes@.take(bytes@.len() as int) =~= bytes@);
    assert(v@ =~= error_packet_bytes(msg@));
    v
}

/// Whether a status byte is followed by a length and a message.
pub fn needs_payload(status: u8) -> (r: bool)
    ensures
        r == (status == 2),
{
    status == 2
}

/// The message length held in the four bytes after the status byte.
pub fn payload_length(len_bytes: &[u8]) -> (r: u32)
    requires
        len_bytes@.len() == 4,
    ensures
        r == be32_value(len_bytes@[0], len_bytes@[1], len_bytes@[2], len_bytes@[3]),
{
    ((len_bytes[0] as u32) << 24u32) | ((len_bytes[1] as u32) << 16u32) | ((len_bytes[2] as u32)
        << 8u32) | (len_bytes[3] as u32)
}

/// Reads one packet; an empty packet is the end of the pipe.
pub fn decode_packet(p: &[u8]) -> (r: Result<SyncResult, KuroError>)
    ensures
        sync_result_view(r) == decode_packet_bytes(p@),
{
    if p.len() == 0 {
        return Ok(SyncResult::Eof);
    }
    let status = p[0];
    if status == 1 {
        return Ok(SyncResult::Ready);
    }
    if status == 2 {
        if p.len() < 5 {
            return Err(
                KuroError::SyncPipe(
                    String::from_str("Unexpected EOF while reading error payload from sync pipe"),
                ),
            );
        }
        let len = ((p[1] as u32) << 24u32) | ((p[2] as u32) << 16u32) | ((p[3] as u32) << 8u32)
            | (p[4] as u32);
        if ((p.len() - 5) as u64) < (len as u64) {
            return Err(
                KuroError::SyncPipe(
                    String::from_str("Unexpected EOF while reading error payload from sync pipe"),
                ),
            );
        }
        let end = 5 + (len as usize);
        let mut payload: Vec<u8> = Vec::new();
        let mut i: usize = 5;
        while i < end
            invariant
                5 <= i <= end <= p@.len(),
                payload@ == p@.subrange(5, i as int),
            decreases end - i,
        {
            payload.push(p[i]);
            assert(p@.subrange(5, i + 1) =~= p@.subrange(5, i as int).push(p@[i as int]));
            i = i + 1;
        }
        let text = lossy_text(payload.as_slice());
        return Ok(SyncResult::Error(text));
    }
    let code = u64_text(status as u64);
    Err(
        KuroError::SyncPipe(
            concat2("Received invalid status code from sync pipe: ", code.as_str()),
        ),
    )
}

/// The ready packet reads back as ready.
pub proof fn law_ready_packet_reads_ready()
    ensures
        decode_packet_bytes(ready_packet_bytes()) == Ok::<SyncView, ErrorView>(SyncView::Ready),
{
}

/// A closed pipe reads as end of file.
pub proof fn law_empty_read_is_eof()
    ensures
        decode_packet_bytes(Seq::<u8>::empty()) == Ok::<SyncView, ErrorView>(SyncView::Eof),
{
}

/// An error packet reads back as the same message, whenever the message's
/// byte length fits the 32-bit length field.
pub proof fn law_error_packet_round_trip(msg: Seq<char>)
    requires
        encode_utf8(msg).len() <= u32::MAX,
    ensures
        decode_packet_bytes(error_packet_bytes(msg)) == Ok::<SyncView, ErrorView>(
            SyncView::Error(msg),
        ),
{
    let b = encode_utf8(msg);
    let n = b.len() as u32;
    let p = error_packet_bytes(msg);
    assert(p[1] == (n >> 24u32) as u8);
    assert(p[2] == (n >> 16u32) as u8);
    assert(p[3] == (n >> 8u32) as u8);
    assert(p[4] == n as u8);
    lemma_be32_round_trip(n);
    assert(n == b.len());
    assert(p.subrange(5, 5 + n) =~= b);
    vstd::utf8::encode_utf8_valid_utf8(msg);
    vstd::utf8::encode_utf8_decode_utf8(msg);
}

} // verus!
