//! Verified core of a driver for the WIZnet W5500 Ethernet controller.
//!
//! The chip is driven over SPI: every access is a frame that names a register block, an offset
//! and a direction. This crate holds what the driver decides: the register map and the frame
//! header (`register`), the byte order of register values (`endian`), addresses as text
//! (`address`), the bookkeeping of sockets and ports and the plans that set up the chip
//! (`device`), the TCP and UDP procedures as plans and stage machines (`tcp`, `udp`), and the
//! runner that carries a plan out one transfer at a time (`program`). The transfers
//! themselves, the chip select pin and the waiting are left to the caller.

pub mod endian;
pub mod register;
pub mod address;
pub mod program;
pub mod device;
pub mod tcp;
pub mod udp;
pub mod order;

pub use address::{IpAddress, MacAddress};
pub use device::{
    ArpResponses, ConnectionType, OnPingRequest, OnWakeOnLan, TcpSocket, UdpSocket,
    UninitializedSocket, W5500,
};
pub use program::{Action, Instruction, Runner, Stage};
pub use register::{
    Interrupt, Protocol, Register, Socket, SocketCommand, SocketRegister, SocketStatus,
};
