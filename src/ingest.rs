//! Decoder/Filter and the ingest step: one received packet is decoded as
//! UTF-8 text, checked against the configured category filter, and, when it
//! passes, published into the slot.
use vstd::prelude::*;
use vstd::utf8::{decode_utf8, valid_utf8};
use crate::slot::{LatestValueSlot, published};

verus! {

/// The size of the receive buffer; longer packets are truncated to it by the
/// socket.
pub const RECV_BUFFER_LEN: usize = 1024;

/// The category filter. A record's category is its leading bytes: with a
/// `tag`, only packets that begin with those bytes are relayed; without one,
/// every decodable packet is.
#[derive(Clone, Debug)]
pub struct CategoryFilter {
    pub tag: Option<Vec<u8>>,
}

impl View for CategoryFilter {
    type V = Option<Seq<u8>>;

    open spec fn view(&self) -> Option<Seq<u8>> {
        match self.tag {
            Some(t) => Some(t@),
            None => None,
        }
    }
}

/// Whether a packet passes the filter `tag`.
pub open spec fn filter_accepts(tag: Option<Seq<u8>>, packet: Seq<u8>) -> bool {
    match tag {
        Some(t) => t.is_prefix_of(packet),
        None => true,
    }
}

/// The bytes of a packet that the ingest step reads: the first `received`
/// bytes of the buffer, and never more than the buffer holds.
pub open spec fn packet_bytes(buf: Seq<u8>, received: nat) -> Seq<u8> {
    if received <= buf.len() {
        buf.take(received as int)
    } else {
        buf
    }
}

/// What became of one packet.
#[derive(Clone, Copy, Debug, PartialEq, Eq)]
pub enum IngestOutcome {
    /// The bytes are not valid UTF-8; nothing was published.
    DecodeFailed,
    /// The record's category does not match the filter; nothing was published.
    FilteredOut,
    /// The decoded text was published.
    Published,
}

/// The outcome that the ingest step owes for a packet.
pub open spec fn ingest_outcome(tag: Option<Seq<u8>>, packet: Seq<u8>) -> IngestOutcome {
    if !valid_utf8(packet) {
        IngestOutcome::DecodeFailed
    } else if !filter_accepts(tag, packet) {
        IngestOutcome::FilteredOut
    } else {
        IngestOutcome::Published
    }
}

/// Relies on `String::from_utf8`: it succeeds exactly on valid UTF-8, and the
/// string then holds the characters those bytes encode.
#[verifier::external_body]
fn decode_text(bytes: Vec<u8>) -> (r: Option<String>)
    ensures
        r is Some <==> valid_utf8(bytes@),
        r matches Some(s) ==> s@ == decode_utf8(bytes@),
{
    String::from_utf8(bytes).ok()
}

impl CategoryFilter {
    /// A filter that lets every record through.
    pub fn any() -> (r: CategoryFilter)
        ensures
            r@ is None,
    {
        CategoryFilter { tag: None }
    }

    /// A filter that lets through only records that begin with `tag`.
    pub fn only(tag: Vec<u8>) -> (r: CategoryFilter)
        ensures
            r@ == Some(tag@),
    {
        CategoryFilter { tag: Some(tag) }
    }

    /// Whether `packet` passes this filter.
    pub fn accepts(&self, packet: &[u8]) -> (r: bool)
        ensures
            r == filter_accepts(self@, packet@),
    {
        match &self.tag {
            None => true,
            Some(t) => {
                assert(self@ == Some(t@));
                if t.len() > packet.len() {
                    return false;
                }
                let mut i: usize = 0;
                while i < t.len()
                    invariant
                        self@ == Some(t@),
                        t.len() <= packet@.len(),
                        0 <= i <= t.len(),
                        forall|k: int| 0 <= k < i ==> t@[k] == packet@[k],
                    decreases t.len() - i,
                {
                    if t[i] != packet[i] {
                        assert(packet@.subrange(0, t@.len() as int)[i as int] != t@[i as int]);
                        return false;
                    }
                    i = i + 1;
                }
                assert(t@ =~= packet@.subrange(0, t@.len() as int));
                true
            },
        }
    }
}

/// The first `received` bytes of `buf`, capped at its length.
pub fn take_packet(buf: &[u8], received: usize) -> (r: Vec<u8>)
    ensures
        r@ == packet_bytes(buf@, received as nat),
{
    let n: usize = if received <= buf.len() { received } else { buf.len() };
    let mut out: Vec<u8> = Vec::with_capacity(n);
    let mut i: usize = 0;
    while i < n
        invariant
            n <= buf@.len(),
            n == received || n == buf@.len(),
            n <= received,
            0 <= i <= n,
            out@ =~= buf@.take(i as int),
        decreases n - i,
    {
        out.push(buf[i]);
        i = i + 1;
    }
    assert(out@ =~= packet_bytes(buf@, received as nat));
    out
}

/// One pass of the ingest loop over a received packet: the first `received`
/// bytes of `buf` are decoded and filtered and, when they pass, published.
/// A packet that fails either step leaves the slot as it was.
pub fn ingest(
    slot: &mut LatestValueSlot,
    buf: &[u8],
    received: usize,
    filter: &CategoryFilter,
) -> (r: IngestOutcome)
    requires
        old(slot)@.1 < u64::MAX,
    ensures
        r == ingest_outcome(filter@, packet_bytes(buf@, received as nat)),
        r == IngestOutcome::Published ==> final(slot)@ == published(
            old(slot)@,
            decode_utf8(packet_bytes(buf@, received as nat)),
        ),
        r != IngestOutcome::Published ==> final(slot)@ == old(slot)@,
        !filter_accepts(filter@, packet_bytes(buf@, received as nat)) ==> final(slot)@ == old(
            slot,
        )@,
{
    let packet = take_packet(buf, received);
    let accepted = filter.accepts(packet.as_slice());
    match decode_text(packet) {
        None => IngestOutcome::DecodeFailed,
        Some(text) => {
            if accepted {
                slot.publish(text);
                IngestOutcome::Published
            } else {
                IngestOutcome::FilteredOut
            }
        },
    }
}

} // verus!
