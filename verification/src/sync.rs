//! The time sync task's verified core: the acquisition state machine, and the
//! computation turning a raw time-protocol reply into the absolute time
//! reference.
//!
//! The surrounding network work (joining, address configuration, socket I/O)
//! suspends between steps; the decisions between those suspensions live here.

use vstd::prelude::*;

use crate::timebase::TimeReference;

verus! {

/// Byte offset of the transmit timestamp inside the time-protocol reply.
pub const TIMESTAMP_OFFSET: usize = 40;

/// A reply must reach past the 8-byte timestamp field to be usable.
pub const MIN_REPLY_LEN: usize = 48;

/// States of the acquisition sequence, in the order they are entered.
#[derive(Clone, Copy, Debug, PartialEq, Eq, Structural)]
pub enum SyncPhase {
    /// Trying to associate with the network; retried without bound.
    Joining,
    /// Associated; waiting for an address.
    AddressPending,
    /// Address configured and socket bound.
    SocketReady,
    /// Time request sent; waiting for the reply.
    RequestSent,
    /// Reply in hand; computing the corrected reference.
    ResponseReceived,
    /// Reference published; the task is done.
    Published,
}

/// Events the outside work hands back to the acquisition sequence.
#[derive(Clone, Copy, Debug, PartialEq, Eq, Structural)]
pub enum SyncEvent {
    /// A network join attempt failed.
    JoinFailed,
    /// A network join attempt succeeded.
    JoinSucceeded,
    /// An address was configured and the socket bound.
    SocketBound,
    /// The time request was sent.
    RequestSent,
    /// A reply datagram arrived.
    ReplyReceived,
    /// The computed reference was published into the store.
    ReferencePublished,
}

/// The strictly sequential acquisition state machine: a failed join retries,
/// each expected event advances one phase, and any other event leaves the
/// phase unchanged.
pub open spec fn advance_spec(phase: SyncPhase, event: SyncEvent) -> SyncPhase {
    match (phase, event) {
        (SyncPhase::Joining, SyncEvent::JoinFailed) => SyncPhase::Joining,
        (SyncPhase::Joining, SyncEvent::JoinSucceeded) => SyncPhase::AddressPending,
        (SyncPhase::AddressPending, SyncEvent::SocketBound) => SyncPhase::SocketReady,
        (SyncPhase::SocketReady, SyncEvent::RequestSent) => SyncPhase::RequestSent,
        (SyncPhase::RequestSent, SyncEvent::ReplyReceived) => SyncPhase::ResponseReceived,
        (SyncPhase::ResponseReceived, SyncEvent::ReferencePublished) => SyncPhase::Published,
        _ => phase,
    }
}

/// Advance the acquisition sequence by one event.
pub fn advance(phase: SyncPhase, event: SyncEvent) -> (r: SyncPhase)
    ensures
        r == advance_spec(phase, event),
{
    match (phase, event) {
        (SyncPhase::Joining, SyncEvent::JoinFailed) => SyncPhase::Joining,
        (SyncPhase::Joining, SyncEvent::JoinSucceeded) => SyncPhase::AddressPending,
        (SyncPhase::AddressPending, SyncEvent::SocketBound) => SyncPhase::SocketReady,
        (SyncPhase::SocketReady, SyncEvent::RequestSent) => SyncPhase::RequestSent,
        (SyncPhase::RequestSent, SyncEvent::ReplyReceived) => SyncPhase::ResponseReceived,
        (SyncPhase::ResponseReceived, SyncEvent::ReferencePublished) => SyncPhase::Published,
        _ => phase,
    }
}

/// The progress stage the store shows for each phase. Progress counts the
/// stages entered, and stops advancing once the request is out: from there
/// the store transitions out of the booting phase by the publication itself.
pub open spec fn progress_stage_spec(phase: SyncPhase) -> u8 {
    match phase {
        SyncPhase::Joining => 1,
        SyncPhase::AddressPending => 2,
        SyncPhase::SocketReady => 3,
        SyncPhase::RequestSent => 4,
        SyncPhase::ResponseReceived => 4,
        SyncPhase::Published => 4,
    }
}

/// The progress stage to record on entering a phase; never above 4.
pub fn progress_stage(phase: SyncPhase) -> (r: u8)
    ensures
        r == progress_stage_spec(phase),
        r <= 4,
{
    match phase {
        SyncPhase::Joining => 1,
        SyncPhase::AddressPending => 2,
        SyncPhase::SocketReady => 3,
        SyncPhase::RequestSent => 4,
        SyncPhase::ResponseReceived => 4,
        SyncPhase::Published => 4,
    }
}

/// Along any transition the progress stage never goes backwards: the
/// acquisition counter read by the render loop is monotonically
/// non-decreasing.
pub proof fn lemma_progress_monotone(phase: SyncPhase, event: SyncEvent)
    ensures
        progress_stage_spec(advance_spec(phase, event)) >= progress_stage_spec(phase),
{
}

/// A big-endian unsigned integer read from a byte sequence.
pub open spec fn be_u64_spec(bytes: Seq<u8>) -> nat
    decreases bytes.len(),
{
    if bytes.len() == 0 {
        0
    } else {
        be_u64_spec(bytes.drop_last()) * 256 + bytes.last() as nat
    }
}

/// The raw 64-bit timestamp carried by a reply: the 8 bytes at the timestamp
/// offset, big-endian.
pub open spec fn raw_timestamp_spec(reply: Seq<u8>) -> nat {
    be_u64_spec(reply.subrange(40, 48))
}

/// `256^n`, the number of values `n` bytes can take.
pub open spec fn pow256(n: nat) -> nat
    decreases n,
{
    if n == 0 {
        1
    } else {
        256 * pow256((n - 1) as nat)
    }
}

/// Powers of 256 never shrink as the exponent grows.
proof fn lemma_pow256_increases(a: nat, b: nat)
    requires
        a <= b,
    ensures
        1 <= pow256(a) <= pow256(b),
    decreases b,
{
    if a == b {
        if a > 0 {
            lemma_pow256_increases((a - 1) as nat, (a - 1) as nat);
        }
    } else {
        lemma_pow256_increases(a, (b - 1) as nat);
    }
}

/// An upper bound on a big-endian read: `n` bytes never exceed `256^n - 1`.
proof fn lemma_be_u64_bound(bytes: Seq<u8>)
    ensures
        be_u64_spec(bytes) < pow256(bytes.len()),
    decreases bytes.len(),
{
    if bytes.len() > 0 {
        lemma_be_u64_bound(bytes.drop_last());
    }
}

/// Read the raw big-endian 64-bit timestamp out of a reply.
pub fn extract_raw_timestamp(reply: &[u8]) -> (r: u64)
    requires
        reply@.len() >= MIN_REPLY_LEN,
    ensures
        r == raw_timestamp_spec(reply@),
{
    let mut acc: u64 = 0;
    let mut i: usize = 0;
    proof {
        assert(reply@.subrange(40, 40) =~= Seq::<u8>::empty());
    }
    while i < 8
        invariant
            i <= 8,
            reply@.len() >= 48,
            acc == be_u64_spec(reply@.subrange(40, 40 + i as int)),
        decreases 8 - i as int,
    {
        proof {
            lemma_be_u64_bound(reply@.subrange(40, 40 + i as int));
            lemma_pow256_increases(i as nat, 7);
            assert(pow256(7) == 0x100_0000_0000_0000) by {
                reveal_with_fuel(pow256, 9);
            }
        }
        let b: u8 = reply[TIMESTAMP_OFFSET + i];
        acc = acc * 256 + (b as u64);
        i = i + 1;
        proof {
            assert(reply@.subrange(40, 40 + i as int).drop_last() =~= reply@.subrange(
                40,
                40 + i as int - 1,
            ));
            assert(reply@.subrange(40, 40 + i as int).last() == b);
        }
    }
    proof {
        assert(reply@.subrange(40, 48) =~= reply@.subrange(40, 40 + 8int));
    }
    acc
}

/// Milliseconds named by a raw timestamp: a fixed-point count of seconds
/// since the protocol epoch with 32 integer and 32 fractional bits, the
/// fraction truncated to whole milliseconds.
pub open spec fn fixed_millis_spec(raw: nat) -> nat {
    (raw / 0x1_0000_0000) * 1000 + ((raw % 0x1_0000_0000) * 1000) / 0x1_0000_0000
}

/// The milliseconds named by any raw timestamp fit well under 2^42.
proof fn lemma_fixed_millis_bound(raw: nat)
    requires
        raw <= 0xFFFF_FFFF_FFFF_FFFF,
    ensures
        fixed_millis_spec(raw) <= 4_294_967_295_999,
{
    assert((raw / 0x1_0000_0000) * 1000 <= 4_294_967_295_000 && ((raw % 0x1_0000_0000) * 1000)
        / 0x1_0000_0000 <= 999) by (nonlinear_arith)
        requires
            raw <= 0xFFFF_FFFF_FFFF_FFFF,
    ;
}

/// Convert a raw fixed-point timestamp to whole milliseconds since the
/// protocol epoch, truncating the sub-millisecond remainder.
pub fn timestamp_millis(raw: u64) -> (r: u64)
    ensures
        r == fixed_millis_spec(raw as nat),
        r <= 4_294_967_295_999,
{
    proof {
        lemma_fixed_millis_bound(raw as nat);
        assert((raw as nat / 0x1_0000_0000) * 1000 <= 4_294_967_295_000 && ((raw as nat
            % 0x1_0000_0000) * 1000) / 0x1_0000_0000 <= 999) by (nonlinear_arith)
            requires
                raw <= 0xFFFF_FFFF_FFFF_FFFFu64,
        ;
    }
    let secs: u64 = raw / 0x1_0000_0000;
    let frac: u64 = raw % 0x1_0000_0000;
    secs * 1000 + (frac * 1000) / 0x1_0000_0000
}

/// The corrected absolute instant a reply yields: the timestamp it carries,
/// plus the fixed timezone offset, minus the monotonic milliseconds that
/// passed between the local reference point and this computation. Negative
/// when the corrections reach past the epoch.
pub open spec fn corrected_instant_spec(reply: Seq<u8>, tz_offset_ms: u64, elapsed_ms: u64) -> int {
    fixed_millis_spec(raw_timestamp_spec(reply)) + tz_offset_ms - elapsed_ms
}

/// Turn a raw reply into the absolute time reference: extract the timestamp,
/// convert it to milliseconds, apply the timezone and latency corrections,
/// and pair the instant with the monotonic tick of publication. Returns
/// nothing exactly when the corrections would reach before the epoch.
pub fn compute_reference(
    reply: &[u8],
    tz_offset_ms: u64,
    elapsed_ms: u64,
    publish_tick_ms: u64,
) -> (r: Option<TimeReference>)
    requires
        reply@.len() >= MIN_REPLY_LEN,
        tz_offset_ms <= u64::MAX - 4_294_967_295_999,
    ensures
        corrected_instant_spec(reply@, tz_offset_ms, elapsed_ms) >= 0 ==> r == Some(
            TimeReference {
                instant_ms: corrected_instant_spec(reply@, tz_offset_ms, elapsed_ms) as u64,
                recorded_at_tick_ms: publish_tick_ms,
            },
        ),
        corrected_instant_spec(reply@, tz_offset_ms, elapsed_ms) < 0 ==> r is None,
{
    let raw: u64 = extract_raw_timestamp(reply);
    let ntp_ms: u64 = timestamp_millis(raw);
    let shifted: u64 = ntp_ms + tz_offset_ms;
    if shifted >= elapsed_ms {
        Some(TimeReference { instant_ms: shifted - elapsed_ms, recorded_at_tick_ms: publish_tick_ms })
    } else {
        None
    }
}

} // verus!
