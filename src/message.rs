//! The fixed-size message record exchanged with the kernel: a type tag
//! followed by a text area of `BUFFER_SIZE` bytes.

use vstd::prelude::*;

verus! {

/// Capacity of a message's text area, in bytes.
pub const BUFFER_SIZE: usize = 2048;

/// How many bytes of `payload` a send hands to the kernel.
pub open spec fn sent_len(payload: Seq<u8>) -> nat {
    if payload.len() <= BUFFER_SIZE {
        payload.len()
    } else {
        BUFFER_SIZE as nat
    }
}

/// `n` zero bytes.
pub open spec fn zeros(n: nat) -> Seq<u8> {
    Seq::new(n, |_i: int| 0u8)
}

/// The text area of an outgoing record: the payload cut to the capacity,
/// then zero padding up to it.
pub open spec fn padded_text(payload: Seq<u8>) -> Seq<u8> {
    payload.take(sent_len(payload) as int) + zeros((BUFFER_SIZE - sent_len(payload)) as nat)
}

/// The bytes a send hands to the kernel: the first `sent_len` bytes of the
/// text area.
pub open spec fn sent_bytes(payload: Seq<u8>) -> Seq<u8> {
    padded_text(payload).take(sent_len(payload) as int)
}

/// What a receive returns when the kernel reports `size` bytes in `text`.
pub open spec fn received_payload(text: Seq<u8>, size: nat) -> Seq<u8> {
    text.take(size as int)
}

/// A message record as the kernel reads and writes it.
pub struct MessageBuffer {
    pub mtype: i64,
    pub mtext: Vec<u8>,
}

impl MessageBuffer {
    /// The text area has exactly the capacity.
    pub open spec fn wf(&self) -> bool {
        self.mtext@.len() == BUFFER_SIZE
    }

    /// An all-zero record, ready to be filled by a receive.
    pub fn blank() -> (r: MessageBuffer)
        ensures
            r.mtype == 0,
            r.mtext@ == zeros(BUFFER_SIZE as nat),
            r.wf(),
    {
        let mut mtext: Vec<u8> = Vec::with_capacity(BUFFER_SIZE);
        let mut i: usize = 0;
        while i < BUFFER_SIZE
            invariant
                i <= BUFFER_SIZE,
                mtext@ == zeros(i as nat),
            decreases BUFFER_SIZE - i,
        {
            mtext.push(0u8);
            i = i + 1;
            assert(mtext@ =~= zeros(i as nat));
        }
        MessageBuffer { mtype: 0, mtext }
    }

    /// The record for sending `payload` with type tag `msg_type`, and the
    /// number of text bytes to send. A payload longer than the capacity is
    /// cut to its first `BUFFER_SIZE` bytes.
    pub fn outgoing(msg_type: i32, payload: &[u8]) -> (r: (MessageBuffer, usize))
        ensures
            r.0.mtype == msg_type as i64,
            r.0.mtext@ == padded_text(payload@),
            r.1 == sent_len(payload@),
            r.0.wf(),
    {
        let len: usize = if payload.len() <= BUFFER_SIZE {
            payload.len()
        } else {
            BUFFER_SIZE
        };
        let mut mtext: Vec<u8> = Vec::with_capacity(BUFFER_SIZE);
        let mut i: usize = 0;
        while i < len
            invariant
                len == sent_len(payload@),
                i <= len,
                mtext@ == payload@.take(i as int),
            decreases len - i,
        {
            mtext.push(payload[i]);
            i = i + 1;
            assert(mtext@ =~= payload@.take(i as int));
        }
        while i < BUFFER_SIZE
            invariant
                len == sent_len(payload@),
                len <= i <= BUFFER_SIZE,
                mtext@ == payload@.take(len as int) + zeros((i - len) as nat),
            decreases BUFFER_SIZE - i,
        {
            mtext.push(0u8);
            i = i + 1;
            assert(mtext@ =~= payload@.take(len as int) + zeros((i - len) as nat));
        }
        (MessageBuffer { mtype: msg_type as i64, mtext }, len)
    }

    /// The first `size` bytes of the text area.
    pub fn payload(&self, size: usize) -> (r: Vec<u8>)
        requires
            size <= self.mtext@.len(),
        ensures
            r@ == received_payload(self.mtext@, size as nat),
    {
        let mut r: Vec<u8> = Vec::with_capacity(size);
        let mut i: usize = 0;
        while i < size
            invariant
                size <= self.mtext@.len(),
                i <= size,
                r@ == self.mtext@.take(i as int),
            decreases size - i,
        {
            r.push(self.mtext[i]);
            i = i + 1;
            assert(r@ =~= self.mtext@.take(i as int));
        }
        r
    }
}

/// A payload that fits is sent whole, and comes back whole from a record
/// whose text area starts with the bytes that were sent.
pub proof fn lemma_round_trip(payload: Seq<u8>, delivered: Seq<u8>)
    requires
        payload.len() <= BUFFER_SIZE,
        delivered.len() == BUFFER_SIZE,
        delivered.take(sent_len(payload) as int) == sent_bytes(payload),
    ensures
        sent_len(payload) == payload.len(),
        sent_bytes(payload) == payload,
        received_payload(delivered, sent_len(payload)) == payload,
{
    assert(sent_bytes(payload) =~= payload);
}

/// A payload longer than the capacity is cut to exactly its first
/// `BUFFER_SIZE` bytes.
pub proof fn lemma_truncation(payload: Seq<u8>)
    requires
        payload.len() > BUFFER_SIZE,
    ensures
        sent_len(payload) == BUFFER_SIZE,
        sent_bytes(payload) == payload.take(BUFFER_SIZE as int),
        padded_text(payload) == payload.take(BUFFER_SIZE as int),
{
    assert(sent_bytes(payload) =~= payload.take(BUFFER_SIZE as int));
    assert(padded_text(payload) =~= payload.take(BUFFER_SIZE as int));
}

} // verus!
