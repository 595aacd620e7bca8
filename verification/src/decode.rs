//! The message decoder: a pure, total function from the three raw byte
//! frames of one notification to a typed event or a precise error.

use vstd::prelude::*;
use vstd::bytes::{lemma_auto_spec_u32_to_from_le_bytes, lemma_auto_spec_u64_to_from_le_bytes,
    spec_u32_from_le_bytes, spec_u32_to_le_bytes, spec_u64_from_le_bytes, spec_u64_to_le_bytes,
    u32_from_le_bytes, u64_from_le_bytes};
use vstd::slice::slice_subrange;
use vstd::utf8::{decode_utf8, valid_utf8};

use crate::errors::ZMQSeqListenerError;
use crate::topic_bytes;

verus! {

/// One decoded notification from the node's `sequence` stream.
///
/// Hash and txid text is the lowercase hexadecimal encoding of the 32 raw
/// bytes in the order received; no byte-order reversal is applied.
/// `zmq_seq` is the transport-level counter carried by every message;
/// `mp_seq_num` is the mempool sequence number carried only by
/// transaction events. A malformed message or a socket failure appears in
/// the stream as a `SeqError` event rather than ending the stream.
#[derive(Clone, Debug, PartialEq, Eq)]
pub enum MempoolSequence {
    BlockConnection { block_hash: String, zmq_seq: u32 },
    BlockDisconnection { block_hash: String, zmq_seq: u32 },
    TxRemoved { txid: String, mp_seq_num: u64, zmq_seq: u32 },
    TxAdded { txid: String, mp_seq_num: u64, zmq_seq: u32 },
    SeqError { error: ZMQSeqListenerError },
}

/// The lowercase hexadecimal digit of a value below 16.
pub open spec fn hex_digit(n: int) -> char
    recommends
        0 <= n < 16,
{
    if n == 0 {
        '0'
    } else if n == 1 {
        '1'
    } else if n == 2 {
        '2'
    } else if n == 3 {
        '3'
    } else if n == 4 {
        '4'
    } else if n == 5 {
        '5'
    } else if n == 6 {
        '6'
    } else if n == 7 {
        '7'
    } else if n == 8 {
        '8'
    } else if n == 9 {
        '9'
    } else if n == 10 {
        'a'
    } else if n == 11 {
        'b'
    } else if n == 12 {
        'c'
    } else if n == 13 {
        'd'
    } else if n == 14 {
        'e'
    } else {
        'f'
    }
}

/// Lowercase hexadecimal text of a byte string: two digits per byte, high
/// nibble first, bytes in the order stored.
pub open spec fn spec_hex(s: Seq<u8>) -> Seq<char>
    decreases s.len(),
{
    if s.len() == 0 {
        Seq::<char>::empty()
    } else {
        seq![hex_digit(s.first() as int / 16), hex_digit(s.first() as int % 16)] + spec_hex(
            s.drop_first(),
        )
    }
}

/// Relies on hex::encode: the result is the lowercase hexadecimal text of
/// the bytes, two digits per byte, high nibble first, in the order given.
#[verifier::external_body]
fn hex_encode(b: &Vec<u8>) -> (r: String)
    ensures
        r@ == spec_hex(b@),
{
    hex::encode(b)
}

/// Relies on core::str::from_utf8: `Some` holding the decoded text exactly
/// when the bytes are valid UTF-8, `None` otherwise.
#[verifier::external_body]
fn bytes_to_str<'a>(b: &'a [u8]) -> (r: Option<&'a str>)
    ensures
        (r is Some) == valid_utf8(b@),
        r matches Some(s) ==> s@ == decode_utf8(b@),
{
    core::str::from_utf8(b).ok()
}

/// The first `n` bytes of `b`, as a fresh vector.
fn take_prefix(b: &Vec<u8>, n: usize) -> (r: Vec<u8>)
    requires
        n <= b@.len(),
    ensures
        r@ == b@.subrange(0, n as int),
{
    let mut r: Vec<u8> = Vec::new();
    let mut i: usize = 0;
    while i < n
        invariant
            i <= n,
            n <= b@.len(),
            r@ == b@.subrange(0, i as int),
        decreases n - i,
    {
        r.push(b[i]);
        i = i + 1;
        proof {
            assert(r@ =~= b@.subrange(0, i as int));
        }
    }
    r
}

/// Whether two byte vectors hold the same bytes.
fn bytes_eq(a: &Vec<u8>, b: &Vec<u8>) -> (r: bool)
    ensures
        r == (a@ == b@),
{
    if a.len() != b.len() {
        return false;
    }
    let n = a.len();
    let mut i: usize = 0;
    while i < n
        invariant
            i <= n,
            n == a@.len(),
            n == b@.len(),
            forall|j: int| 0 <= j < i ==> a@[j] == b@[j],
        decreases n - i,
    {
        if a[i] != b[i] {
            return false;
        }
        i = i + 1;
    }
    proof {
        assert(a@ =~= b@);
    }
    true
}

/// Reads the transport sequence counter: the unsigned 32-bit little-endian
/// integer in the first 4 bytes of the sequence frame. Fewer than 4 bytes
/// is a truncated counter.
pub fn parse_zmq_seq_num(value: &[u8]) -> (r: Result<u32, ZMQSeqListenerError>)
    ensures
        value@.len() >= 4 ==> r == Ok::<u32, ZMQSeqListenerError>(
            spec_u32_from_le_bytes(value@.subrange(0, 4)),
        ),
        value@.len() < 4 ==> r == Err::<u32, ZMQSeqListenerError>(
            ZMQSeqListenerError::TruncatedSequenceNumber,
        ),
{
    if value.len() < 4 {
        Err(ZMQSeqListenerError::TruncatedSequenceNumber)
    } else {
        let four = slice_subrange(value, 0, 4);
        Ok(u32_from_le_bytes(four))
    }
}

/// Reads the mempool sequence number: the unsigned 64-bit little-endian
/// integer at bytes 33..41 of a transaction event's body. A body shorter
/// than 41 bytes is a truncated mempool sequence.
pub fn parse_mp_seq_num(value: &[u8]) -> (r: Result<u64, ZMQSeqListenerError>)
    ensures
        value@.len() >= 41 ==> r == Ok::<u64, ZMQSeqListenerError>(
            spec_u64_from_le_bytes(value@.subrange(33, 41)),
        ),
        value@.len() < 41 ==> r == Err::<u64, ZMQSeqListenerError>(
            ZMQSeqListenerError::TruncatedMempoolSequence,
        ),
{
    if value.len() < 41 {
        Err(ZMQSeqListenerError::TruncatedMempoolSequence)
    } else {
        let eight = slice_subrange(value, 33, 41);
        Ok(u64_from_le_bytes(eight))
    }
}

/// What decoding one raw message must yield, frame by frame: fewer than 3
/// frames, a topic other than `sequence`, a sequence frame under 4 bytes,
/// a body under 33 bytes, an unknown discriminator, or a transaction body
/// under 41 bytes each give their own error; otherwise the event named by
/// the discriminator byte, carrying the hash's lowercase hexadecimal text
/// and the little-endian counters.
pub open spec fn decode_post(
    m: Seq<Seq<u8>>,
    r: Result<MempoolSequence, ZMQSeqListenerError>,
) -> bool {
    if m.len() < 3 {
        r == Err::<MempoolSequence, ZMQSeqListenerError>(ZMQSeqListenerError::TooFewFrames)
    } else if m[0] != topic_bytes() {
        if valid_utf8(m[0]) {
            r matches Err(ZMQSeqListenerError::UnexpectedTopic(t)) && t@ == decode_utf8(m[0])
        } else {
            r == Err::<MempoolSequence, ZMQSeqListenerError>(ZMQSeqListenerError::TopicNotUtf8)
        }
    } else if m[2].len() < 4 {
        r == Err::<MempoolSequence, ZMQSeqListenerError>(
            ZMQSeqListenerError::TruncatedSequenceNumber,
        )
    } else if m[1].len() < 33 {
        r == Err::<MempoolSequence, ZMQSeqListenerError>(ZMQSeqListenerError::TruncatedBody)
    } else {
        let zs = spec_u32_from_le_bytes(m[2].subrange(0, 4));
        let hash = spec_hex(m[1].subrange(0, 32));
        let d = m[1][32];
        if d == 67 {
            &&& r matches Ok(MempoolSequence::BlockConnection { block_hash, zmq_seq })
            &&& block_hash@ == hash
            &&& zmq_seq == zs
        } else if d == 68 {
            &&& r matches Ok(MempoolSequence::BlockDisconnection { block_hash, zmq_seq })
            &&& block_hash@ == hash
            &&& zmq_seq == zs
        } else if d == 82 {
            if m[1].len() < 41 {
                r == Err::<MempoolSequence, ZMQSeqListenerError>(
                    ZMQSeqListenerError::TruncatedMempoolSequence,
                )
            } else {
                &&& r matches Ok(MempoolSequence::TxRemoved { txid, mp_seq_num, zmq_seq })
                &&& txid@ == hash
                &&& mp_seq_num == spec_u64_from_le_bytes(m[1].subrange(33, 41))
                &&& zmq_seq == zs
            }
        } else if d == 65 {
            if m[1].len() < 41 {
                r == Err::<MempoolSequence, ZMQSeqListenerError>(
                    ZMQSeqListenerError::TruncatedMempoolSequence,
                )
            } else {
                &&& r matches Ok(MempoolSequence::TxAdded { txid, mp_seq_num, zmq_seq })
                &&& txid@ == hash
                &&& mp_seq_num == spec_u64_from_le_bytes(m[1].subrange(33, 41))
                &&& zmq_seq == zs
            }
        } else {
            r == Err::<MempoolSequence, ZMQSeqListenerError>(
                ZMQSeqListenerError::UnknownDiscriminator(d),
            )
        }
    }
}

impl MempoolSequence {
    /// Decodes one raw multi-frame message — topic, body, sequence frame —
    /// into its typed event, or reports exactly which requirement of the
    /// wire format the message broke.
    pub fn try_from(msg: Vec<Vec<u8>>) -> (r: Result<MempoolSequence, ZMQSeqListenerError>)
        ensures
            decode_post(msg.deep_view(), r),
    {
        if msg.len() < 3 {
            return Err(ZMQSeqListenerError::TooFewFrames);
        }
        let topic = &msg[0];
        let expected = crate::topic_filter();
        proof {
            assert(msg.deep_view()[0] == topic@);
        }
        if !bytes_eq(topic, &expected) {
            match bytes_to_str(topic.as_slice()) {
                Some(t) => {
                    return Err(ZMQSeqListenerError::UnexpectedTopic(t.to_owned()));
                },
                None => {
                    return Err(ZMQSeqListenerError::TopicNotUtf8);
                },
            }
        }
        let seqframe = &msg[2];
        proof {
            assert(msg.deep_view()[2] == seqframe@);
        }
        let zmq_seq = match parse_zmq_seq_num(seqframe.as_slice()) {
            Ok(v) => v,
            Err(e) => {
                return Err(e);
            },
        };
        let body = &msg[1];
        proof {
            assert(msg.deep_view()[1] == body@);
        }
        if body.len() < 33 {
            return Err(ZMQSeqListenerError::TruncatedBody);
        }
        let d = body[32];
        if d == 67 {
            let prefix = take_prefix(body, 32);
            Ok(MempoolSequence::BlockConnection { block_hash: hex_encode(&prefix), zmq_seq })
        } else if d == 68 {
            let prefix = take_prefix(body, 32);
            Ok(MempoolSequence::BlockDisconnection { block_hash: hex_encode(&prefix), zmq_seq })
        } else if d == 82 {
            let mp_seq_num = match parse_mp_seq_num(body.as_slice()) {
                Ok(v) => v,
                Err(e) => {
                    return Err(e);
                },
            };
            let prefix = take_prefix(body, 32);
            Ok(MempoolSequence::TxRemoved { txid: hex_encode(&prefix), mp_seq_num, zmq_seq })
        } else if d == 65 {
            let mp_seq_num = match parse_mp_seq_num(body.as_slice()) {
                Ok(v) => v,
                Err(e) => {
                    return Err(e);
                },
            };
            let prefix = take_prefix(body, 32);
            Ok(MempoolSequence::TxAdded { txid: hex_encode(&prefix), mp_seq_num, zmq_seq })
        } else {
            Err(ZMQSeqListenerError::UnknownDiscriminator(d))
        }
    }
}

/// What the worker's per-message substitution must yield: the decoded
/// event for a well-formed message, and a `SeqError` event holding the
/// exact decode error otherwise.
pub open spec fn decode_event_post(m: Seq<Seq<u8>>, ev: MempoolSequence) -> bool {
    match ev {
        MempoolSequence::SeqError { error } => decode_post(m, Err(error)),
        _ => decode_post(m, Ok(ev)),
    }
}

/// Total decoding for the worker: a failed decode becomes a `SeqError`
/// event in the stream instead of ending it.
pub fn decode_event(msg: Vec<Vec<u8>>) -> (ev: MempoolSequence)
    ensures
        decode_event_post(msg.deep_view(), ev),
{
    match MempoolSequence::try_from(msg) {
        Ok(ev) => ev,
        Err(error) => MempoolSequence::SeqError { error },
    }
}

/// Whether two errors carry the same information, text compared by its
/// characters.
pub open spec fn errors_agree(a: ZMQSeqListenerError, b: ZMQSeqListenerError) -> bool {
    match (a, b) {
        (ZMQSeqListenerError::UnexpectedTopic(t1), ZMQSeqListenerError::UnexpectedTopic(t2)) => t1@
            == t2@,
        (ZMQSeqListenerError::TransportError(t1), ZMQSeqListenerError::TransportError(t2)) => t1@
            == t2@,
        _ => a == b,
    }
}

/// Whether two events carry the same information: the same variant, equal
/// counters, and hash text compared by its characters.
pub open spec fn events_agree(a: MempoolSequence, b: MempoolSequence) -> bool {
    match (a, b) {
        (
            MempoolSequence::BlockConnection { block_hash: h1, zmq_seq: s1 },
            MempoolSequence::BlockConnection { block_hash: h2, zmq_seq: s2 },
        ) => h1@ == h2@ && s1 == s2,
        (
            MempoolSequence::BlockDisconnection { block_hash: h1, zmq_seq: s1 },
            MempoolSequence::BlockDisconnection { block_hash: h2, zmq_seq: s2 },
        ) => h1@ == h2@ && s1 == s2,
        (
            MempoolSequence::TxRemoved { txid: t1, mp_seq_num: m1, zmq_seq: s1 },
            MempoolSequence::TxRemoved { txid: t2, mp_seq_num: m2, zmq_seq: s2 },
        ) => t1@ == t2@ && m1 == m2 && s1 == s2,
        (
            MempoolSequence::TxAdded { txid: t1, mp_seq_num: m1, zmq_seq: s1 },
            MempoolSequence::TxAdded { txid: t2, mp_seq_num: m2, zmq_seq: s2 },
        ) => t1@ == t2@ && m1 == m2 && s1 == s2,
        (MempoolSequence::SeqError { error: e1 }, MempoolSequence::SeqError { error: e2 }) =>
            errors_agree(e1, e2),
        _ => false,
    }
}

/// Whether two decode results carry the same information.
pub open spec fn results_agree(
    r1: Result<MempoolSequence, ZMQSeqListenerError>,
    r2: Result<MempoolSequence, ZMQSeqListenerError>,
) -> bool {
    match (r1, r2) {
        (Ok(a), Ok(b)) => events_agree(a, b),
        (Err(a), Err(b)) => errors_agree(a, b),
        _ => false,
    }
}

/// Decoding is a pure function of the input bytes: any two results the
/// decode contract allows for the same message carry the same
/// information, however often and wherever the decoder runs.
pub proof fn lemma_decode_deterministic(
    m: Seq<Seq<u8>>,
    r1: Result<MempoolSequence, ZMQSeqListenerError>,
    r2: Result<MempoolSequence, ZMQSeqListenerError>,
)
    requires
        decode_post(m, r1),
        decode_post(m, r2),
    ensures
        results_agree(r1, r2),
{
}

/// Any message with fewer than three frames is rejected as
/// `TooFewFrames`.
pub proof fn lemma_too_few_frames(m: Seq<Seq<u8>>, r: Result<MempoolSequence, ZMQSeqListenerError>)
    requires
        m.len() < 3,
        decode_post(m, r),
    ensures
        r == Err::<MempoolSequence, ZMQSeqListenerError>(ZMQSeqListenerError::TooFewFrames),
{
}

/// Any three-frame message whose topic frame is not exactly the bytes
/// `sequence` is rejected: `UnexpectedTopic` carrying the frame's text,
/// or `TopicNotUtf8` when the frame is not valid text.
pub proof fn lemma_unexpected_topic(
    m: Seq<Seq<u8>>,
    r: Result<MempoolSequence, ZMQSeqListenerError>,
)
    requires
        m.len() >= 3,
        m[0] != topic_bytes(),
        decode_post(m, r),
    ensures
        valid_utf8(m[0]) ==> (r matches Err(ZMQSeqListenerError::UnexpectedTopic(t)) && t@
            == decode_utf8(m[0])),
        !valid_utf8(m[0]) ==> r == Err::<MempoolSequence, ZMQSeqListenerError>(
            ZMQSeqListenerError::TopicNotUtf8,
        ),
{
}

/// The discriminator byte alone selects the event variant, totally: 67
/// gives `BlockConnection`, 68 `BlockDisconnection`, 82 `TxRemoved`, 65
/// `TxAdded`, and every other byte `UnknownDiscriminator` carrying that
/// byte.
pub proof fn lemma_discriminator_total(
    m: Seq<Seq<u8>>,
    r: Result<MempoolSequence, ZMQSeqListenerError>,
)
    requires
        m.len() >= 3,
        m[0] == topic_bytes(),
        m[2].len() >= 4,
        m[1].len() >= 41,
        decode_post(m, r),
    ensures
        m[1][32] == 67 ==> r matches Ok(MempoolSequence::BlockConnection { .. }),
        m[1][32] == 68 ==> r matches Ok(MempoolSequence::BlockDisconnection { .. }),
        m[1][32] == 82 ==> r matches Ok(MempoolSequence::TxRemoved { .. }),
        m[1][32] == 65 ==> r matches Ok(MempoolSequence::TxAdded { .. }),
        m[1][32] != 67 && m[1][32] != 68 && m[1][32] != 82 && m[1][32] != 65 ==> r == Err::<
            MempoolSequence,
            ZMQSeqListenerError,
        >(ZMQSeqListenerError::UnknownDiscriminator(m[1][32])),
{
}

/// Round trip for block events: a body of 32 hash bytes and the
/// connection tag, with a sequence frame encoding `n`, decodes to
/// `BlockConnection` holding the hash's lowercase hexadecimal text and
/// the counter `n`.
pub proof fn lemma_block_connection_round_trip(
    hash: Seq<u8>,
    n: u32,
    r: Result<MempoolSequence, ZMQSeqListenerError>,
)
    requires
        hash.len() == 32,
        decode_post(seq![topic_bytes(), hash + seq![67u8], spec_u32_to_le_bytes(n)], r),
    ensures
        r matches Ok(MempoolSequence::BlockConnection { block_hash, zmq_seq }) && block_hash@
            == spec_hex(hash) && zmq_seq == n,
{
    lemma_auto_spec_u32_to_from_le_bytes();
    let m = seq![topic_bytes(), hash + seq![67u8], spec_u32_to_le_bytes(n)];
    assert(m[2].subrange(0, 4) =~= spec_u32_to_le_bytes(n));
    assert(m[1].subrange(0, 32) =~= hash);
    assert(m[1][32] == 67);
}

/// Round trip for mempool additions: a body of 32 txid bytes, the added
/// tag and an 8-byte little-endian mempool sequence number `mp`, with any
/// 4-byte sequence frame, decodes to `TxAdded` holding the txid's
/// lowercase hexadecimal text, `mp`, and the frame's counter.
pub proof fn lemma_tx_added_round_trip(
    txid: Seq<u8>,
    mp: u64,
    sf: Seq<u8>,
    r: Result<MempoolSequence, ZMQSeqListenerError>,
)
    requires
        txid.len() == 32,
        sf.len() == 4,
        decode_post(seq![topic_bytes(), txid + seq![65u8] + spec_u64_to_le_bytes(mp), sf], r),
    ensures
        r matches Ok(MempoolSequence::TxAdded { txid: t, mp_seq_num, zmq_seq }) && t@ == spec_hex(
            txid,
        ) && mp_seq_num == mp && zmq_seq == spec_u32_from_le_bytes(sf),
{
    lemma_auto_spec_u64_to_from_le_bytes();
    let m = seq![topic_bytes(), txid + seq![65u8] + spec_u64_to_le_bytes(mp), sf];
    assert(m[2].subrange(0, 4) =~= sf);
    assert(m[1].subrange(0, 32) =~= txid);
    assert(m[1].subrange(33, 41) =~= spec_u64_to_le_bytes(mp));
    assert(m[1][32] == 65);
}

/// The body-length boundary for mempool events: a transaction-tagged body
/// one byte short of the mempool sequence number is rejected as
/// `TruncatedMempoolSequence`, while a 33-byte block-tagged body — hash
/// and discriminator alone — decodes successfully.
pub proof fn lemma_body_length_boundary(
    m: Seq<Seq<u8>>,
    r: Result<MempoolSequence, ZMQSeqListenerError>,
)
    requires
        m.len() >= 3,
        m[0] == topic_bytes(),
        m[2].len() >= 4,
        decode_post(m, r),
    ensures
        m[1].len() == 40 && (m[1][32] == 82 || m[1][32] == 65) ==> r == Err::<
            MempoolSequence,
            ZMQSeqListenerError,
        >(ZMQSeqListenerError::TruncatedMempoolSequence),
        m[1].len() == 33 && (m[1][32] == 67 || m[1][32] == 68) ==> r is Ok,
{
}

} // verus!
