//! Decoder and listener state machine for a blockchain node's `sequence`
//! pub/sub notification stream.
//!
//! Each notification arrives as three byte frames: a topic (which must be
//! the literal text `sequence`), a body holding a 32-byte hash, a
//! discriminator byte, and for mempool events an 8-byte little-endian
//! mempool sequence number, and a trailing frame holding the 4-byte
//! little-endian transport sequence counter. The decoder turns such a
//! message into a typed [`MempoolSequence`] event or a precise
//! [`ZMQSeqListenerError`].

use vstd::prelude::*;

mod decode;
mod errors;
mod listener;

pub use decode::{
    decode_event, decode_event_post, decode_post, errors_agree, events_agree, hex_digit,
    lemma_block_connection_round_trip, lemma_body_length_boundary, lemma_decode_deterministic,
    lemma_discriminator_total, lemma_too_few_frames, lemma_tx_added_round_trip,
    lemma_unexpected_topic, parse_mp_seq_num, parse_zmq_seq_num, results_agree, spec_hex,
    MempoolSequence,
};
pub use errors::ZMQSeqListenerError;
pub use listener::{
    count_releases, lemma_barrier_released_at_most_once, lemma_stop_is_terminal, next_phase,
    published_event, releases_barrier, run_phases, worker_step, ListenerPhase, WorkerAction,
    WorkerEvent,
};

verus! {

/// The bytes of the only accepted topic frame: the ASCII text `sequence`.
pub open spec fn topic_bytes() -> Seq<u8> {
    seq![115u8, 101u8, 113u8, 117u8, 101u8, 110u8, 99u8, 101u8]
}

/// The subscription filter the listener applies to its socket: the literal
/// topic prefix `sequence`.
pub fn topic_filter() -> (r: Vec<u8>)
    ensures
        r@ == topic_bytes(),
{
    let mut v: Vec<u8> = Vec::new();
    v.push(115u8);
    v.push(101u8);
    v.push(113u8);
    v.push(117u8);
    v.push(101u8);
    v.push(110u8);
    v.push(99u8);
    v.push(101u8);
    proof {
        assert(v@ =~= topic_bytes());
    }
    v
}

} // verus!
