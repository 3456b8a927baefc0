//! What the driver asks of the transport, and what the transport answers.

use vstd::prelude::*;

verus! {

/// One thing for the host to do before the driver can go on.
#[derive(Clone, Copy, Debug, PartialEq, Eq, Structural)]
pub enum Request {
    /// Read one register.
    ReadByte { register: u8 },
    /// Write one register.
    WriteByte { register: u8, value: u8 },
    /// Read `len` consecutive registers in one transaction.
    ReadBlock { register: u8, len: u8 },
    /// Wait at least this long.
    Delay { millis: u64 },
}

/// How a request ended.
#[derive(Debug, PartialEq, Eq)]
pub enum Reply {
    /// The byte that a register read returned.
    Byte(u8),
    /// A register write went through.
    Written,
    /// The bytes that a block read returned.
    Block(Vec<u8>),
    /// The delay has passed.
    Elapsed,
    /// The transport reported a failure.
    Failed,
}

/// Why an operation did not succeed.
#[derive(Clone, Copy, Debug, PartialEq, Eq, Structural)]
pub enum Error {
    /// The transport failed, or its reply does not answer the request.
    Transport,
    /// The identity register does not hold this sensor's identity.
    DeviceNotFound,
    /// The gyroscope cannot run at the requested rate.
    RateRejected,
    /// The driver is not ready: its start-up has not succeeded, or an
    /// operation is still waiting for a reply.
    NotReady,
}

impl Reply {
    /// The reply is of the kind that `request` asks for; a block has
    /// exactly the requested length.
    pub open spec fn answers(self, request: Request) -> bool {
        match (request, self) {
            (Request::ReadByte { .. }, Reply::Byte(_)) => true,
            (Request::WriteByte { .. }, Reply::Written) => true,
            (Request::ReadBlock { len, .. }, Reply::Block(data)) => data@.len() == len,
            (Request::Delay { .. }, Reply::Elapsed) => true,
            _ => false,
        }
    }

    /// The byte that the reply carries.
    pub open spec fn byte(self) -> u8 {
        match self {
            Reply::Byte(value) => value,
            _ => 0,
        }
    }

    /// The block that the reply carries.
    pub open spec fn block(self) -> Seq<u8> {
        match self {
            Reply::Block(data) => data@,
            _ => Seq::empty(),
        }
    }

    /// Decides whether the reply answers `request`.
    pub fn is_answer_to(&self, request: &Request) -> (yes: bool)
        ensures
            yes == self.answers(*request),
    {
        match (request, self) {
            (Request::ReadByte { .. }, Reply::Byte(_)) => true,
            (Request::WriteByte { .. }, Reply::Written) => true,
            (Request::ReadBlock { len, .. }, Reply::Block(data)) => data.len() == *len as usize,
            (Request::Delay { .. }, Reply::Elapsed) => true,
            _ => false,
        }
    }
}

} // verus!
