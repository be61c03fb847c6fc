//! Decoding of one raw log envelope into a typed event record.
//!
//! The event of interest carries three indexed fields (the operation
//! hash and two addresses) in topic slots 1..=3 and four non-indexed
//! fields in a 128-byte payload of four big-endian 32-byte words:
//! nonce, success flag (boolean in the low byte of its word),
//! actual gas cost and actual gas used.
use vstd::prelude::*;

verus! {

/// One raw log envelope as handed over by the chain node: the ordered
/// topic slots (32 bytes each), the non-indexed payload bytes, and the
/// block height from the log metadata, absent while a log is pending.
pub struct RawLog {
    pub topics: Vec<Vec<u8>>,
    pub data: Vec<u8>,
    pub block_number: Option<u64>,
}

impl RawLog {
    /// Every topic slot carries exactly 32 bytes.
    pub open spec fn topics_wf(self) -> bool {
        forall|i: int|
            0 <= i < self.topics@.len() ==> (#[trigger] self.topics@[i])@.len() == 32
    }
}

/// Why an envelope was rejected by the decoder.
#[derive(Clone, Copy, Debug, PartialEq, Eq, Structural)]
pub enum DecodeError {
    /// The envelope does not carry exactly 4 topic slots.
    TopicCountMismatch,
    /// The non-indexed payload is not exactly 128 bytes.
    PayloadLengthMismatch,
    /// The envelope carries no source block height.
    MissingBlockNumber,
}

/// One decoded occurrence of the event. The 256-bit quantities are
/// kept as their full 32 big-endian bytes so that nothing is ever
/// truncated to a machine word.
#[derive(Debug, PartialEq, Eq)]
pub struct UserOperationEvent {
    /// 32-byte identifier of the operation, topic slot 1 verbatim.
    pub user_op_hash: Vec<u8>,
    /// 20-byte account address, the low 20 bytes of topic slot 2.
    pub sender: Vec<u8>,
    /// 20-byte account address, the low 20 bytes of topic slot 3;
    /// all zero means "none".
    pub paymaster: Vec<u8>,
    /// 256-bit unsigned integer, big endian, payload word 0.
    pub nonce: Vec<u8>,
    /// Outcome flag: the low byte of payload word 1 is nonzero.
    pub success: bool,
    /// 256-bit unsigned integer, big endian, payload word 2.
    pub actual_gas_cost: Vec<u8>,
    /// 256-bit unsigned integer, big endian, payload word 3.
    pub actual_gas_used: Vec<u8>,
}

/// Mathematical image of a decoded event: each field as the byte
/// sequence (or flag) it was read from.
pub struct UserOpEventView {
    pub user_op_hash: Seq<u8>,
    pub sender: Seq<u8>,
    pub paymaster: Seq<u8>,
    pub nonce: Seq<u8>,
    pub success: bool,
    pub actual_gas_cost: Seq<u8>,
    pub actual_gas_used: Seq<u8>,
}

impl View for UserOperationEvent {
    type V = UserOpEventView;

    open spec fn view(&self) -> UserOpEventView {
        UserOpEventView {
            user_op_hash: self.user_op_hash@,
            sender: self.sender@,
            paymaster: self.paymaster@,
            nonce: self.nonce@,
            success: self.success,
            actual_gas_cost: self.actual_gas_cost@,
            actual_gas_used: self.actual_gas_used@,
        }
    }
}

impl UserOperationEvent {
    /// Field widths of a well-formed record.
    pub open spec fn wf(self) -> bool {
        &&& self.user_op_hash@.len() == 32
        &&& self.sender@.len() == 20
        &&& self.paymaster@.len() == 20
        &&& self.nonce@.len() == 32
        &&& self.actual_gas_cost@.len() == 32
        &&& self.actual_gas_used@.len() == 32
    }
}

/// A well-formed envelope: exactly 4 topic slots, a 128-byte payload,
/// and a known source block height.
pub open spec fn spec_decodes(log: RawLog) -> bool {
    &&& log.topics@.len() == 4
    &&& log.data@.len() == 128
    &&& log.block_number is Some
}

/// What a well-formed envelope decodes to.
pub open spec fn spec_decode_event(log: RawLog) -> UserOpEventView {
    UserOpEventView {
        user_op_hash: log.topics@[1]@,
        sender: log.topics@[2]@.subrange(12, 32),
        paymaster: log.topics@[3]@.subrange(12, 32),
        nonce: log.data@.subrange(0, 32),
        success: log.data@[63] != 0,
        actual_gas_cost: log.data@.subrange(64, 96),
        actual_gas_used: log.data@.subrange(96, 128),
    }
}

/// The error an ill-formed envelope is rejected with: the topic count
/// is checked first, then the payload length, then the block height.
pub open spec fn spec_decode_error(log: RawLog) -> DecodeError {
    if log.topics@.len() != 4 {
        DecodeError::TopicCountMismatch
    } else if log.data@.len() != 128 {
        DecodeError::PayloadLengthMismatch
    } else {
        DecodeError::MissingBlockNumber
    }
}

/// Copy of the bytes of `v` in positions `start..end`.
pub fn bytes_range(v: &Vec<u8>, start: usize, end: usize) -> (r: Vec<u8>)
    requires
        start <= end,
        end <= v@.len(),
    ensures
        r@ == v@.subrange(start as int, end as int),
{
    let mut r: Vec<u8> = Vec::new();
    let mut i: usize = start;
    while i < end
        invariant
            start <= i <= end,
            end <= v@.len(),
            r@ == v@.subrange(start as int, i as int),
        decreases end - i,
    {
        let b = v[i];
        r.push(b);
        proof {
            assert(v@.subrange(start as int, i + 1 as int) =~= v@.subrange(
                start as int,
                i as int,
            ).push(v@[i as int]));
        }
        i += 1;
    }
    r
}

/// Decode one raw log envelope into an event record and its source
/// block height, or reject it. Pure: no input is ever persisted here,
/// and the same envelope always decodes the same way.
pub fn decode_user_operation_event(log: &RawLog) -> (r: Result<
    (UserOperationEvent, u64),
    DecodeError,
>)
    requires
        log.topics_wf(),
    ensures
        spec_decodes(*log) ==> {
            &&& r is Ok
            &&& r.unwrap().0@ == spec_decode_event(*log)
            &&& r.unwrap().0.wf()
            &&& r.unwrap().1 == log.block_number.unwrap()
        },
        !spec_decodes(*log) ==> r == Result::<(UserOperationEvent, u64), DecodeError>::Err(
            spec_decode_error(*log),
        ),
{
    if log.topics.len() != 4 {
        return Err(DecodeError::TopicCountMismatch);
    }
    if log.data.len() != 128 {
        return Err(DecodeError::PayloadLengthMismatch);
    }
    let block_number = match log.block_number {
        Some(n) => n,
        None => {
            return Err(DecodeError::MissingBlockNumber);
        },
    };
    let user_op_hash = bytes_range(&log.topics[1], 0, 32);
    let sender = bytes_range(&log.topics[2], 12, 32);
    let paymaster = bytes_range(&log.topics[3], 12, 32);
    let nonce = bytes_range(&log.data, 0, 32);
    let success = log.data[63] != 0;
    let actual_gas_cost = bytes_range(&log.data, 64, 96);
    let actual_gas_used = bytes_range(&log.data, 96, 128);
    proof {
        assert(log.topics@[1]@.subrange(0, 32) =~= log.topics@[1]@);
    }
    Ok(
        (
            UserOperationEvent {
                user_op_hash,
                sender,
                paymaster,
                nonce,
                success,
                actual_gas_cost,
                actual_gas_used,
            },
            block_number,
        ),
    )
}

/// The success flag is read from the low byte of the second payload
/// word alone: two payloads that agree at byte 63 decode the same
/// flag, whatever the other bytes of that word (or any other) hold.
pub proof fn lemma_success_from_low_byte_only(l1: RawLog, l2: RawLog)
    requires
        l1.data@.len() == 128,
        l2.data@.len() == 128,
        l1.data@[63] == l2.data@[63],
    ensures
        spec_decode_event(l1).success == spec_decode_event(l2).success,
{
}

/// Decoding is deterministic: a well-formed envelope always decodes to
/// the same record and block height, so retrying the same input is
/// harmless.
pub proof fn lemma_decode_deterministic(l1: RawLog, l2: RawLog)
    requires
        l1.topics@ == l2.topics@,
        l1.data@ == l2.data@,
        l1.block_number == l2.block_number,
    ensures
        spec_decodes(l1) == spec_decodes(l2),
        spec_decode_event(l1) == spec_decode_event(l2),
{
}

} // verus!
