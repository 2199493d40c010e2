//! Typed flag sets for queue creation and for sending and receiving.

use vstd::prelude::*;

verus! {

/// Create the queue if it does not exist.
pub const IPC_CREAT: i32 = 0o1000;

/// Together with `IPC_CREAT`: fail if the queue already exists.
pub const IPC_EXCL: i32 = 0o2000;

pub const USER_READ: i32 = 0o400;
pub const USER_WRITE: i32 = 0o200;
pub const USER_EXECUTE: i32 = 0o100;
pub const GROUP_READ: i32 = 0o040;
pub const GROUP_WRITE: i32 = 0o020;
pub const GROUP_EXECUTE: i32 = 0o010;
pub const OTHER_READ: i32 = 0o004;
pub const OTHER_WRITE: i32 = 0o002;
pub const OTHER_EXECUTE: i32 = 0o001;

/// Read, write and execute for the owner.
pub const USER_RWX: i32 = 0o700;
pub const GROUP_RWX: i32 = 0o070;
pub const OTHER_RWX: i32 = 0o007;

/// Every bit that a creation flag set may hold.
pub const NEW_QUEUE_ALL: i32 = 0o3777;

/// Do not block: fail at once when the operation cannot proceed.
pub const IPC_NOWAIT: i32 = 0o4000;

/// On receive, truncate an oversized message instead of failing.
pub const MSG_NOERROR: i32 = 0o10000;

/// Every bit that a send/receive flag set may hold.
pub const SEND_RECEIVE_ALL: i32 = 0o14000;

/// A bit set holds only bits of `mask`.
pub open spec fn within(bits: i32, mask: i32) -> bool {
    bits & !mask == 0
}

/// Creation and permission flags for acquiring a queue.
#[derive(Clone, Copy, Debug, PartialEq, Eq, Structural)]
pub struct NewMessageQueueFlags {
    bits: i32,
}

impl NewMessageQueueFlags {
    /// The raw bit pattern.
    pub closed spec fn view(&self) -> i32 {
        self.bits
    }

    /// Only bits with a name are set.
    pub open spec fn wf(&self) -> bool {
        within(self@, NEW_QUEUE_ALL)
    }

    pub fn empty() -> (r: Self)
        ensures
            r@ == 0,
            r.wf(),
    {
        assert(0i32 & !NEW_QUEUE_ALL == 0) by (bit_vector);
        NewMessageQueueFlags { bits: 0 }
    }

    pub fn all() -> (r: Self)
        ensures
            r@ == NEW_QUEUE_ALL,
            r.wf(),
    {
        assert(NEW_QUEUE_ALL & !NEW_QUEUE_ALL == 0) by (bit_vector);
        NewMessageQueueFlags { bits: NEW_QUEUE_ALL }
    }

    /// The raw bits handed to the kernel.
    pub fn bits(&self) -> (r: i32)
        ensures
            r == self@,
    {
        self.bits
    }

    /// Accepts `bits` exactly when every set bit has a name.
    pub fn from_bits(bits: i32) -> (r: Option<Self>)
        ensures
            r is Some <==> within(bits, NEW_QUEUE_ALL),
            r matches Some(f) ==> f@ == bits && f.wf(),
    {
        if bits & !NEW_QUEUE_ALL == 0 {
            Some(NewMessageQueueFlags { bits })
        } else {
            None
        }
    }

    /// The flags of both sets.
    pub fn union(self, other: Self) -> (r: Self)
        requires
            self.wf(),
            other.wf(),
        ensures
            r@ == self@ | other@,
            r.wf(),
    {
        let a = self.bits;
        let b = other.bits;
        assert(a & !NEW_QUEUE_ALL == 0 && b & !NEW_QUEUE_ALL == 0 ==> (a | b) & !NEW_QUEUE_ALL == 0)
            by (bit_vector);
        NewMessageQueueFlags { bits: a | b }
    }

    /// Every flag of `other` is set in `self`.
    pub fn contains(&self, other: Self) -> (r: bool)
        ensures
            r == (self@ & other@ == other@),
    {
        self.bits & other.bits == other.bits
    }
}

impl Default for NewMessageQueueFlags {
    /// Create if absent, with read, write and execute for the owner.
    fn default() -> (r: Self)
        ensures
            r@ == IPC_CREAT | USER_RWX,
            r.wf(),
    {
        assert((IPC_CREAT | USER_RWX) & !NEW_QUEUE_ALL == 0) by (bit_vector);
        NewMessageQueueFlags { bits: IPC_CREAT | USER_RWX }
    }
}

/// Blocking and truncation behaviour of a send or a receive.
#[derive(Clone, Copy, Debug, PartialEq, Eq, Structural)]
pub struct SendReceiveFlags {
    bits: i32,
}

impl SendReceiveFlags {
    /// The raw bit pattern.
    pub closed spec fn view(&self) -> i32 {
        self.bits
    }

    /// Only bits with a name are set.
    pub open spec fn wf(&self) -> bool {
        within(self@, SEND_RECEIVE_ALL)
    }

    pub fn empty() -> (r: Self)
        ensures
            r@ == 0,
            r.wf(),
    {
        assert(0i32 & !SEND_RECEIVE_ALL == 0) by (bit_vector);
        SendReceiveFlags { bits: 0 }
    }

    pub fn all() -> (r: Self)
        ensures
            r@ == SEND_RECEIVE_ALL,
            r.wf(),
    {
        assert(SEND_RECEIVE_ALL & !SEND_RECEIVE_ALL == 0) by (bit_vector);
        SendReceiveFlags { bits: SEND_RECEIVE_ALL }
    }

    /// The raw bits handed to the kernel.
    pub fn bits(&self) -> (r: i32)
        ensures
            r == self@,
    {
        self.bits
    }

    /// Accepts `bits` exactly when every set bit has a name.
    pub fn from_bits(bits: i32) -> (r: Option<Self>)
        ensures
            r is Some <==> within(bits, SEND_RECEIVE_ALL),
            r matches Some(f) ==> f@ == bits && f.wf(),
    {
        if bits & !SEND_RECEIVE_ALL == 0 {
            Some(SendReceiveFlags { bits })
        } else {
            None
        }
    }

    /// The flags of both sets.
    pub fn union(self, other: Self) -> (r: Self)
        requires
            self.wf(),
            other.wf(),
        ensures
            r@ == self@ | other@,
            r.wf(),
    {
        let a = self.bits;
        let b = other.bits;
        assert(a & !SEND_RECEIVE_ALL == 0 && b & !SEND_RECEIVE_ALL == 0 ==> (a | b)
            & !SEND_RECEIVE_ALL == 0) by (bit_vector);
        SendReceiveFlags { bits: a | b }
    }

    /// Every flag of `other` is set in `self`.
    pub fn contains(&self, other: Self) -> (r: bool)
        ensures
            r == (self@ & other@ == other@),
    {
        self.bits & other.bits == other.bits
    }
}

impl Default for SendReceiveFlags {
    /// Blocking, and strict about message size.
    fn default() -> (r: Self)
        ensures
            r@ == 0,
            r.wf(),
    {
        SendReceiveFlags::empty()
    }
}

} // verus!
