//! A handle on one kernel message queue. Each operation is split in two:
//! a request, which says exactly what the kernel call is given, and a
//! method that turns the call's raw result into a typed outcome. The kernel
//! calls themselves are made by the caller between the two.

use vstd::prelude::*;

use crate::flags::{NewMessageQueueFlags, SendReceiveFlags};
use crate::message::{BUFFER_SIZE, MessageBuffer, padded_text, received_payload, sent_len, zeros};

verus! {

/// The key that asks the kernel for a new private queue.
pub const IPC_PRIVATE: i32 = 0;

/// Commands of the queue-control call.
#[derive(Clone, Copy, Debug, PartialEq, Eq, Structural)]
pub enum QueueOperation {
    Remove,
    SetAttributes,
    Status,
}

impl QueueOperation {
    pub open spec fn spec_code(self) -> i32 {
        match self {
            QueueOperation::Remove => 0,
            QueueOperation::SetAttributes => 1,
            QueueOperation::Status => 2,
        }
    }

    /// The command number that the kernel expects.
    pub fn code(self) -> (r: i32)
        ensures
            r == self.spec_code(),
    {
        match self {
            QueueOperation::Remove => 0,
            QueueOperation::SetAttributes => 1,
            QueueOperation::Status => 2,
        }
    }
}

/// The arguments of a queue-acquire call.
pub struct AcquireRequest {
    pub key: i32,
    pub flags: i32,
}

/// The arguments of a send call: the record, and how many of its text
/// bytes to send.
pub struct SendRequest {
    pub msqid: i32,
    pub buffer: MessageBuffer,
    pub size: usize,
    pub flags: i32,
}

/// The arguments of a receive call: the record to fill, its capacity, the
/// message-type filter and the flags.
pub struct ReceiveRequest {
    pub msqid: i32,
    pub buffer: MessageBuffer,
    pub size: usize,
    pub msg_type: i64,
    pub flags: i32,
}

/// The arguments of a queue-control call.
pub struct ControlRequest {
    pub msqid: i32,
    pub command: i32,
}

/// A queue identifier that the kernel handed out.
pub struct MessageQueue {
    msqid: i32,
}

impl MessageQueue {
    /// The kernel's identifier of the queue.
    pub closed spec fn view(&self) -> i32 {
        self.msqid
    }

    /// The arguments for acquiring the queue with key `id`: `IPC_PRIVATE`
    /// asks for a new private queue.
    pub fn acquire_request(id: i32, flags: NewMessageQueueFlags) -> (r: AcquireRequest)
        ensures
            r.key == id,
            r.flags == flags@,
    {
        AcquireRequest { key: id, flags: flags.bits() }
    }

    /// The handle for what the acquire call returned: an identifier, or a
    /// negative value on failure, when `last_error` describes the cause.
    pub fn new(acquired: i32, last_error: String) -> (r: Result<MessageQueue, String>)
        ensures
            acquired < 0 ==> r == Err::<MessageQueue, String>(last_error),
            acquired >= 0 ==> (r matches Ok(q) && q@ == acquired),
    {
        if acquired < 0 {
            Err(last_error)
        } else {
            Ok(MessageQueue { msqid: acquired })
        }
    }

    /// The kernel's identifier of the queue.
    pub fn id(&self) -> (r: i32)
        ensures
            r == self@,
    {
        self.msqid
    }

    /// The arguments for sending `message` with type tag `msg_type`: at
    /// most `BUFFER_SIZE` bytes of it, the rest dropped.
    pub fn send_request(&self, msg_type: i32, message: &[u8], flags: SendReceiveFlags) -> (r:
        SendRequest)
        ensures
            r.msqid == self@,
            r.buffer.mtype == msg_type as i64,
            r.buffer.mtext@ == padded_text(message@),
            r.buffer.wf(),
            r.size == sent_len(message@),
            r.flags == flags@,
    {
        let (buffer, size) = MessageBuffer::outgoing(msg_type, message);
        SendRequest { msqid: self.msqid, buffer, size, flags: flags.bits() }
    }

    /// The outcome of a send call that returned `sent`.
    pub fn send(&self, sent: i32, last_error: String) -> (r: Result<(), String>)
        ensures
            sent < 0 ==> r == Err::<(), String>(last_error),
            sent >= 0 ==> r is Ok,
    {
        if sent < 0 {
            Err(last_error)
        } else {
            Ok(())
        }
    }

    /// The arguments for receiving a message whose type matches `msg_type`
    /// (0 takes any type), into an all-zero record of full capacity.
    pub fn receive_request(&self, msg_type: i32, flags: SendReceiveFlags) -> (r: ReceiveRequest)
        ensures
            r.msqid == self@,
            r.buffer.mtype == 0,
            r.buffer.mtext@ == zeros(BUFFER_SIZE as nat),
            r.buffer.wf(),
            r.size == BUFFER_SIZE,
            r.msg_type == msg_type as i64,
            r.flags == flags@,
    {
        ReceiveRequest {
            msqid: self.msqid,
            buffer: MessageBuffer::blank(),
            size: BUFFER_SIZE,
            msg_type: msg_type as i64,
            flags: flags.bits(),
        }
    }

    /// The outcome of a receive call that returned `received` and filled
    /// `buffer`: the message's type tag and exactly the bytes received.
    pub fn receive(&self, received: isize, buffer: &MessageBuffer, last_error: String) -> (r:
        Result<(i32, Vec<u8>), String>)
        requires
            received <= buffer.mtext@.len(),
        ensures
            received < 0 ==> r == Err::<(i32, Vec<u8>), String>(last_error),
            received >= 0 ==> (r matches Ok((t, p)) && p@ == received_payload(
                buffer.mtext@,
                received as nat,
            ) && (i32::MIN <= buffer.mtype <= i32::MAX ==> t == buffer.mtype)),
    {
        if received < 0 {
            Err(last_error)
        } else {
            let payload = buffer.payload(received as usize);
            #[verifier::truncate]
            let t = buffer.mtype as i32;
            Ok((t, payload))
        }
    }

    /// The arguments for destroying the queue.
    pub fn remove_request(&self) -> (r: ControlRequest)
        ensures
            r.msqid == self@,
            r.command == QueueOperation::Remove.spec_code(),
    {
        ControlRequest { msqid: self.msqid, command: QueueOperation::Remove.code() }
    }

    /// The outcome of a control call that returned `removed`. The handle is
    /// consumed: the identifier is no longer valid after a removal.
    pub fn remove(self, removed: i32, last_error: String) -> (r: Result<(), String>)
        ensures
            removed < 0 ==> r == Err::<(), String>(last_error),
            removed >= 0 ==> r is Ok,
    {
        if removed < 0 {
            Err(last_error)
        } else {
            Ok(())
        }
    }
}

} // verus!
