use bitcoincore_zmq::{
    decode_event, parse_mp_seq_num, parse_zmq_seq_num, MempoolSequence, ZMQSeqListenerError,
};

fn topic() -> Vec<u8> {
    b"sequence".to_vec()
}

fn seqframe(n: u32) -> Vec<u8> {
    n.to_le_bytes().to_vec()
}

fn counting_hash() -> Vec<u8> {
    (0u8..32).collect()
}

const COUNTING_HASH_HEX: &str =
    "000102030405060708090a0b0c0d0e0f101112131415161718191a1b1c1d1e1f";

fn block_body(tag: u8) -> Vec<u8> {
    let mut body = counting_hash();
    body.push(tag);
    body
}

fn tx_body(tag: u8, mp_seq_num: u64) -> Vec<u8> {
    let mut body = block_body(tag);
    body.extend_from_slice(&mp_seq_num.to_le_bytes());
    body
}

#[test]
fn too_few_frames_empty() {
    let r = MempoolSequence::try_from(vec![]);
    assert_eq!(r, Err(ZMQSeqListenerError::TooFewFrames));
}

#[test]
fn too_few_frames_two() {
    let r = MempoolSequence::try_from(vec![topic(), block_body(67)]);
    assert_eq!(r, Err(ZMQSeqListenerError::TooFewFrames));
}

#[test]
fn unexpected_topic_carries_text() {
    let r = MempoolSequence::try_from(vec![b"hashblock".to_vec(), block_body(67), seqframe(1)]);
    assert_eq!(
        r,
        Err(ZMQSeqListenerError::UnexpectedTopic("hashblock".to_string()))
    );
}

#[test]
fn topic_not_utf8() {
    let r = MempoolSequence::try_from(vec![vec![0xff, 0xfe], block_body(67), seqframe(1)]);
    assert_eq!(r, Err(ZMQSeqListenerError::TopicNotUtf8));
}

#[test]
fn truncated_sequence_number() {
    let r = MempoolSequence::try_from(vec![topic(), block_body(67), vec![1, 2, 3]]);
    assert_eq!(r, Err(ZMQSeqListenerError::TruncatedSequenceNumber));
}

#[test]
fn truncated_body() {
    let r = MempoolSequence::try_from(vec![topic(), counting_hash(), seqframe(1)]);
    assert_eq!(r, Err(ZMQSeqListenerError::TruncatedBody));
}

#[test]
fn block_connection_round_trip() {
    let r = MempoolSequence::try_from(vec![topic(), block_body(67), seqframe(42)]);
    assert_eq!(
        r,
        Ok(MempoolSequence::BlockConnection {
            block_hash: COUNTING_HASH_HEX.to_string(),
            zmq_seq: 42,
        })
    );
}

#[test]
fn block_disconnection_round_trip() {
    let r = MempoolSequence::try_from(vec![topic(), block_body(68), seqframe(7)]);
    assert_eq!(
        r,
        Ok(MempoolSequence::BlockDisconnection {
            block_hash: COUNTING_HASH_HEX.to_string(),
            zmq_seq: 7,
        })
    );
}

#[test]
fn tx_added_round_trip() {
    let r = MempoolSequence::try_from(vec![topic(), tx_body(65, 9000000000), seqframe(3)]);
    assert_eq!(
        r,
        Ok(MempoolSequence::TxAdded {
            txid: COUNTING_HASH_HEX.to_string(),
            mp_seq_num: 9000000000,
            zmq_seq: 3,
        })
    );
}

#[test]
fn tx_removed_round_trip() {
    let r = MempoolSequence::try_from(vec![topic(), tx_body(82, 123456789), seqframe(8)]);
    assert_eq!(
        r,
        Ok(MempoolSequence::TxRemoved {
            txid: COUNTING_HASH_HEX.to_string(),
            mp_seq_num: 123456789,
            zmq_seq: 8,
        })
    );
}

#[test]
fn unknown_discriminator_carries_byte() {
    let r = MempoolSequence::try_from(vec![topic(), block_body(90), seqframe(1)]);
    assert_eq!(r, Err(ZMQSeqListenerError::UnknownDiscriminator(90)));
}

#[test]
fn forty_byte_tx_body_is_truncated() {
    let mut body = tx_body(65, 0);
    body.truncate(40);
    let r = MempoolSequence::try_from(vec![topic(), body, seqframe(1)]);
    assert_eq!(r, Err(ZMQSeqListenerError::TruncatedMempoolSequence));

    let mut body = tx_body(82, 0);
    body.truncate(40);
    let r = MempoolSequence::try_from(vec![topic(), body, seqframe(1)]);
    assert_eq!(r, Err(ZMQSeqListenerError::TruncatedMempoolSequence));
}

#[test]
fn thirty_three_byte_block_body_succeeds() {
    let body = block_body(67);
    assert_eq!(body.len(), 33);
    let r = MempoolSequence::try_from(vec![topic(), body, seqframe(5)]);
    assert!(matches!(r, Ok(MempoolSequence::BlockConnection { .. })));
}

#[test]
fn decode_is_idempotent() {
    let msg = vec![topic(), tx_body(65, 55), seqframe(9)];
    let first = MempoolSequence::try_from(msg.clone());
    let second = MempoolSequence::try_from(msg.clone());
    let third = MempoolSequence::try_from(msg);
    assert_eq!(first, second);
    assert_eq!(second, third);
}

#[test]
fn seqframe_longer_than_four_takes_first_four() {
    let mut frame = seqframe(42);
    frame.extend_from_slice(&[0xaa, 0xbb]);
    let r = MempoolSequence::try_from(vec![topic(), block_body(67), frame]);
    assert!(matches!(
        r,
        Ok(MempoolSequence::BlockConnection { zmq_seq: 42, .. })
    ));
}

#[test]
fn parse_zmq_seq_num_reads_little_endian() {
    assert_eq!(parse_zmq_seq_num(&[1, 0, 0, 0]), Ok(1));
    assert_eq!(parse_zmq_seq_num(&[0x39, 0x30, 0, 0]), Ok(12345));
    assert_eq!(parse_zmq_seq_num(&[0xff, 0xff, 0xff, 0xff]), Ok(u32::MAX));
    assert_eq!(parse_zmq_seq_num(&[1, 0, 0, 0, 99, 99]), Ok(1));
}

#[test]
fn parse_zmq_seq_num_rejects_short_input() {
    assert_eq!(
        parse_zmq_seq_num(&[1, 0, 0]),
        Err(ZMQSeqListenerError::TruncatedSequenceNumber)
    );
    assert_eq!(
        parse_zmq_seq_num(&[]),
        Err(ZMQSeqListenerError::TruncatedSequenceNumber)
    );
}

#[test]
fn parse_mp_seq_num_reads_offset_thirty_three() {
    let body = tx_body(65, 0x0102030405060708);
    assert_eq!(parse_mp_seq_num(&body), Ok(0x0102030405060708));
}

#[test]
fn parse_mp_seq_num_rejects_short_input() {
    let mut body = tx_body(65, 1);
    body.truncate(40);
    assert_eq!(
        parse_mp_seq_num(&body),
        Err(ZMQSeqListenerError::TruncatedMempoolSequence)
    );
    assert_eq!(
        parse_mp_seq_num(&[]),
        Err(ZMQSeqListenerError::TruncatedMempoolSequence)
    );
}

#[test]
fn decode_event_wraps_errors() {
    let ev = decode_event(vec![]);
    assert_eq!(
        ev,
        MempoolSequence::SeqError {
            error: ZMQSeqListenerError::TooFewFrames
        }
    );
}

#[test]
fn decode_event_passes_events_through() {
    let ev = decode_event(vec![topic(), block_body(67), seqframe(42)]);
    assert_eq!(
        ev,
        MempoolSequence::BlockConnection {
            block_hash: COUNTING_HASH_HEX.to_string(),
            zmq_seq: 42,
        }
    );
}
