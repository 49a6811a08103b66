//! Embedded network stack adapter.
//!
//! This crate sits between a bare-metal network-interface driver and a
//! synchronous protocol-processing engine.  It provides:
//!
//! * a fixed-capacity slot pool ([`pool`]) used to hand out network buffers
//!   without dynamic allocation;
//! * an MTU-sized packet buffer type drawn from such a pool
//!   ([`packet_pool`]);
//! * a device adapter that turns pool allocations into the engine's
//!   transmit/receive token abstraction ([`device`]);
//! * pluggable IP configuration strategies ([`config`]);
//! * the stack driver state with link/address/route reconciliation and the
//!   ephemeral local-port allocator ([`stack`]);
//! * the decision logic of the asynchronous TCP socket wrapper
//!   ([`tcp_socket`]).
//!
//! The protocol engine itself (the TCP/IP state machines), the hardware
//! driver and the executor are external collaborators: they are reached
//! through the capability traits and plain-value events that the modules
//! here consume and produce.

pub mod config;
pub mod device;
pub mod packet_pool;
pub mod pool;
pub mod stack;
pub mod tcp_socket;

pub use config::{Config, Configurator, DhcpConfigurator, StaticConfigurator, UpConfig};
pub use device::{Device, Phy, RxToken, TxToken};
pub use packet_pool::{Packet, PacketBox, PacketPool};
pub use pool::BitPool;
pub use stack::{init, StackInner};
pub use tcp_socket::TcpSocket;
