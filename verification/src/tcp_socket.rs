//! Asynchronous TCP socket wrapper: the suspend/resume decision logic.
//!
//! A [`TcpSocket`] is a handle over one protocol-engine TCP socket.  The
//! engine-side socket is created lazily on first use ([`TcpSocket::bind`]);
//! until then every query answers a sentinel (`Closed` state, unspecified
//! endpoint, `false`).  The suspend-on-no-data / suspend-on-no-space read
//! and write contract and the connect completion rule are decision
//! functions from the engine's answer to the operation's outcome: the
//! surrounding task performs the engine call, hands the answer in, and on a
//! `Pending` outcome registers its scheduler-notification handle and
//! suspends.

use vstd::prelude::*;

use crate::config::Ipv4Address;

verus! {

/// Protocol state of a TCP socket, mirrored from the engine; this wrapper
/// adds no states of its own.
#[derive(PartialEq, Eq, Structural, Clone, Copy, Debug)]
pub enum TcpState {
    Closed,
    Listen,
    SynSent,
    SynReceived,
    Established,
    FinWait1,
    FinWait2,
    CloseWait,
    Closing,
    LastAck,
    TimeWait,
}

/// Protocol-level failure reported by the engine.
#[derive(PartialEq, Eq, Structural, Clone, Copy, Debug)]
pub enum TcpError {
    /// The remote endpoint cannot be reached.
    Unaddressable,
    /// The operation is not legal in the socket's current state.
    Illegal,
    /// The receive half of the stream has finished.
    Finished,
    /// A buffer or queue has no space left.
    Exhausted,
    /// Any other engine-reported condition.
    Dropped,
}

/// I/O failure surfaced to the socket's caller.
#[derive(PartialEq, Eq, Structural, Clone, Copy, Debug)]
pub enum IoError {
    Other,
}

/// Map an engine failure to the I/O failure surfaced to callers.
pub fn to_ioerr(e: TcpError) -> (r: IoError)
    ensures
        r == IoError::Other,
{
    IoError::Other
}

/// An IPv4 endpoint: address and port.
#[derive(PartialEq, Eq, Structural, Clone, Copy, Debug)]
pub struct IpEndpoint {
    pub addr: Ipv4Address,
    pub port: u16,
}

impl IpEndpoint {
    /// The sentinel endpoint answered by queries on a never-bound socket.
    pub fn unspecified() -> (e: IpEndpoint)
        ensures
            e == (IpEndpoint { addr: Ipv4Address(0u8, 0u8, 0u8, 0u8), port: 0u16 }),
    {
        IpEndpoint { addr: Ipv4Address(0u8, 0u8, 0u8, 0u8), port: 0u16 }
    }
}

/// Outcome of one connect completion check.
#[derive(PartialEq, Eq, Structural, Clone, Copy, Debug)]
pub enum ConnectPoll {
    /// Still connecting: register the notification handle on send
    /// readiness and suspend.
    Pending,
    /// The connection is established (or past establishment).
    Connected,
    /// The connect attempt failed.
    Failed(TcpError),
}

/// Outcome of one read attempt.
#[derive(PartialEq, Eq, Structural, Clone, Copy, Debug)]
pub enum ReadPoll {
    /// No bytes available yet: register the notification handle on receive
    /// readiness and suspend.
    Pending,
    /// This many bytes were peeked (0 means clean end of stream).  The
    /// caller acknowledges how many it consumed in a separate step, which
    /// advances the receive cursor without copying.
    Ready(usize),
    /// The read failed.
    Failed(IoError),
}

/// Outcome of one write attempt.
#[derive(PartialEq, Eq, Structural, Clone, Copy, Debug)]
pub enum WritePoll {
    /// No transmit-buffer space: register the notification handle on send
    /// readiness and suspend.
    Pending,
    /// This many bytes were accepted.
    Ready(usize),
    /// The write failed.
    Failed(IoError),
}

/// What one connect completion check decides, given the socket's protocol
/// state: still pending while the handshake runs, unreachable on
/// `Closed`/`TimeWait`, illegal on `Listen`, connected on anything else.
pub open spec fn connect_poll_spec(state: TcpState) -> ConnectPoll {
    match state {
        TcpState::Closed => ConnectPoll::Failed(TcpError::Unaddressable),
        TcpState::TimeWait => ConnectPoll::Failed(TcpError::Unaddressable),
        TcpState::Listen => ConnectPoll::Failed(TcpError::Illegal),
        TcpState::SynSent => ConnectPoll::Pending,
        TcpState::SynReceived => ConnectPoll::Pending,
        _ => ConnectPoll::Connected,
    }
}

/// What one read attempt decides, given the engine's peek answer: suspend
/// on an empty peek, resolve with the peeked length otherwise, resolve with
/// an empty success — end of stream, not a failure — on `Finished`, and
/// surface any other condition as an I/O failure.
pub open spec fn read_poll_spec(peeked: Result<usize, TcpError>) -> ReadPoll {
    match peeked {
        Ok(n) => if n == 0 {
            ReadPoll::Pending
        } else {
            ReadPoll::Ready(n)
        },
        Err(TcpError::Finished) => ReadPoll::Ready(0),
        Err(_) => ReadPoll::Failed(IoError::Other),
    }
}

/// What one write attempt decides, given the engine's enqueue answer:
/// suspend when no byte was accepted, resolve with the count otherwise, and
/// surface any failure as an I/O failure.
pub open spec fn write_poll_spec(sent: Result<usize, TcpError>) -> WritePoll {
    match sent {
        Ok(n) => if n == 0 {
            WritePoll::Pending
        } else {
            WritePoll::Ready(n)
        },
        Err(_) => WritePoll::Failed(IoError::Other),
    }
}

/// Handle over one engine-side TCP socket, with its fixed-capacity
/// transmit and receive byte buffers.  Once bound, the buffers back the
/// engine-side socket for the rest of the handle's life.
pub struct TcpSocket {
    bound: bool,
    tx_buffer: Vec<u8>,
    rx_buffer: Vec<u8>,
}

impl TcpSocket {
    /// Whether the engine-side socket has been created.
    pub closed spec fn is_bound(self) -> bool {
        self.bound
    }

    /// The transmit buffer contents.
    pub closed spec fn tx_spec(self) -> Seq<u8> {
        self.tx_buffer@
    }

    /// The receive buffer contents.
    pub closed spec fn rx_spec(self) -> Seq<u8> {
        self.rx_buffer@
    }

    /// Create an unbound handle with zeroed transmit and receive buffers of
    /// the given capacities.  The engine-side socket is not created yet:
    /// that happens on first use, once the handle's place is settled.
    pub fn new(tx_len: usize, rx_len: usize) -> (s: TcpSocket)
        ensures
            !s.is_bound(),
            s.tx_spec().len() == tx_len,
            s.rx_spec().len() == rx_len,
            forall|i: int| 0 <= i < tx_len ==> s.tx_spec()[i] == 0,
            forall|i: int| 0 <= i < rx_len ==> s.rx_spec()[i] == 0,
    {
        let mut tx_buffer: Vec<u8> = Vec::new();
        while tx_buffer.len() < tx_len
            invariant
                tx_buffer.len() <= tx_len,
                forall|i: int| 0 <= i < tx_buffer@.len() ==> tx_buffer@[i] == 0,
            decreases tx_len - tx_buffer.len(),
        {
            tx_buffer.push(0u8);
        }
        let mut rx_buffer: Vec<u8> = Vec::new();
        while rx_buffer.len() < rx_len
            invariant
                rx_buffer.len() <= rx_len,
                forall|i: int| 0 <= i < rx_buffer@.len() ==> rx_buffer@[i] == 0,
            decreases rx_len - rx_buffer.len(),
        {
            rx_buffer.push(0u8);
        }
        TcpSocket { bound: false, tx_buffer, rx_buffer }
    }

    /// Whether first use still has to create the engine-side socket.
    pub fn needs_bind(&self) -> (r: bool)
        ensures
            r == !self.is_bound(),
    {
        !self.bound
    }

    /// Record that the engine-side socket now exists, backed by this
    /// handle's buffers; the buffers themselves are untouched.
    pub fn bind(&mut self)
        requires
            !old(self).is_bound(),
        ensures
            final(self).is_bound(),
            final(self).tx_spec() == old(self).tx_spec(),
            final(self).rx_spec() == old(self).rx_spec(),
    {
        self.bound = true;
    }

    /// Decide one connect completion check from the engine's reported
    /// state.  Deciding mutates nothing — in particular not the socket's
    /// buffers.
    pub fn connect_poll(&self, state: TcpState) -> (r: ConnectPoll)
        ensures
            r == connect_poll_spec(state),
    {
        match state {
            TcpState::Closed => ConnectPoll::Failed(TcpError::Unaddressable),
            TcpState::TimeWait => ConnectPoll::Failed(TcpError::Unaddressable),
            TcpState::Listen => ConnectPoll::Failed(TcpError::Illegal),
            TcpState::SynSent => ConnectPoll::Pending,
            TcpState::SynReceived => ConnectPoll::Pending,
            _ => ConnectPoll::Connected,
        }
    }

    /// Decide one read attempt from the engine's peek answer.
    pub fn poll_fill_buf(&self, peeked: Result<usize, TcpError>) -> (r: ReadPoll)
        ensures
            r == read_poll_spec(peeked),
    {
        match peeked {
            Ok(n) => if n == 0 {
                ReadPoll::Pending
            } else {
                ReadPoll::Ready(n)
            },
            Err(TcpError::Finished) => ReadPoll::Ready(0),
            Err(e) => ReadPoll::Failed(to_ioerr(e)),
        }
    }

    /// Decide one write attempt from the engine's enqueue answer.
    pub fn poll_write(&self, sent: Result<usize, TcpError>) -> (r: WritePoll)
        ensures
            r == write_poll_spec(sent),
    {
        match sent {
            Ok(n) => if n == 0 {
                WritePoll::Pending
            } else {
                WritePoll::Ready(n)
            },
            Err(e) => WritePoll::Failed(to_ioerr(e)),
        }
    }

    /// The socket's protocol state: the engine's answer once bound, the
    /// `Closed` sentinel before.
    pub fn state(&self, engine_state: Option<TcpState>) -> (r: TcpState)
        ensures
            r == (if self.is_bound() {
                match engine_state {
                    Some(s) => s,
                    None => TcpState::Closed,
                }
            } else {
                TcpState::Closed
            }),
    {
        if self.bound {
            match engine_state {
                Some(s) => s,
                None => TcpState::Closed,
            }
        } else {
            TcpState::Closed
        }
    }

    /// The socket's local endpoint, or the unspecified sentinel before the
    /// socket is bound.
    pub fn local_endpoint(&self, engine_endpoint: Option<IpEndpoint>) -> (r: IpEndpoint)
        ensures
            r == (if self.is_bound() {
                match engine_endpoint {
                    Some(e) => e,
                    None => IpEndpoint { addr: Ipv4Address(0u8, 0u8, 0u8, 0u8), port: 0u16 },
                }
            } else {
                IpEndpoint { addr: Ipv4Address(0u8, 0u8, 0u8, 0u8), port: 0u16 }
            }),
    {
        if self.bound {
            match engine_endpoint {
                Some(e) => e,
                None => IpEndpoint::unspecified(),
            }
        } else {
            IpEndpoint::unspecified()
        }
    }

    /// The socket's remote endpoint, or the unspecified sentinel before the
    /// socket is bound.
    pub fn remote_endpoint(&self, engine_endpoint: Option<IpEndpoint>) -> (r: IpEndpoint)
        ensures
            r == (if self.is_bound() {
                match engine_endpoint {
                    Some(e) => e,
                    None => IpEndpoint { addr: Ipv4Address(0u8, 0u8, 0u8, 0u8), port: 0u16 },
                }
            } else {
                IpEndpoint { addr: Ipv4Address(0u8, 0u8, 0u8, 0u8), port: 0u16 }
            }),
    {
        if self.bound {
            match engine_endpoint {
                Some(e) => e,
                None => IpEndpoint::unspecified(),
            }
        } else {
            IpEndpoint::unspecified()
        }
    }

    /// Whether the socket may accept data to send: the engine's answer once
    /// bound, `false` before.
    pub fn may_send(&self, engine_answer: Option<bool>) -> (r: bool)
        ensures
            r == (self.is_bound() && engine_answer == Some(true)),
    {
        if self.bound {
            match engine_answer {
                Some(b) => b,
                None => false,
            }
        } else {
            false
        }
    }

    /// Whether the socket may yield received data: the engine's answer once
    /// bound, `false` before.
    pub fn may_recv(&self, engine_answer: Option<bool>) -> (r: bool)
        ensures
            r == (self.is_bound() && engine_answer == Some(true)),
    {
        if self.bound {
            match engine_answer {
                Some(b) => b,
                None => false,
            }
        } else {
            false
        }
    }
}

} // verus!
