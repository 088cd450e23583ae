//! Register addressing of the chip: register blocks, socket registers and the SPI frame header.

use crate::endian::{be_bytes, encode_u16};
use vstd::prelude::*;

verus! {

/// Registers of a socket's register block, named by their offset in the block.
#[derive(Copy, Clone, PartialEq, Eq, Structural, Debug)]
pub enum SocketRegister {
    Mode,
    Command,
    Interrupt,
    Status,
    LocalPort,
    DestinationMac,
    DestinationIp,
    DestinationPort,
    MaxSegmentSize,
    TypeOfService,
    TimeToLive,
    RetryTimeRegister,
    RetryCountRegister,
    ReceiveBuffer,
    TransmitBuffer,
    TxFreeSize,
    TxReadPointer,
    TxWritePointer,
    RxReceivedSize,
    RxReadPointer,
    RxWritePointer,
    InterruptMask,
    FragmentOffset,
    KeepAliveTimer,
}

impl SocketRegister {
    /// Offset of the register in a socket's register block.
    pub open spec fn offset(self) -> u16 {
        match self {
            SocketRegister::Mode => 0x0000,
            SocketRegister::Command => 0x0001,
            SocketRegister::Interrupt => 0x0002,
            SocketRegister::Status => 0x0003,
            SocketRegister::LocalPort => 0x0004,
            SocketRegister::DestinationMac => 0x0006,
            SocketRegister::DestinationIp => 0x000C,
            SocketRegister::DestinationPort => 0x0010,
            SocketRegister::MaxSegmentSize => 0x0012,
            SocketRegister::TypeOfService => 0x0015,
            SocketRegister::TimeToLive => 0x0016,
            SocketRegister::RetryTimeRegister => 0x0019,
            SocketRegister::RetryCountRegister => 0x001B,
            SocketRegister::ReceiveBuffer => 0x001E,
            SocketRegister::TransmitBuffer => 0x001F,
            SocketRegister::TxFreeSize => 0x0020,
            SocketRegister::TxReadPointer => 0x0022,
            SocketRegister::TxWritePointer => 0x0024,
            SocketRegister::RxReceivedSize => 0x0026,
            SocketRegister::RxReadPointer => 0x0028,
            SocketRegister::RxWritePointer => 0x002A,
            SocketRegister::InterruptMask => 0x002C,
            SocketRegister::FragmentOffset => 0x002D,
            SocketRegister::KeepAliveTimer => 0x002F,
        }
    }

    /// Offset of the register in a socket's register block.
    pub fn value(self) -> (offset: u16)
        ensures
            offset == self.offset(),
    {
        match self {
            SocketRegister::Mode => 0x0000,
            SocketRegister::Command => 0x0001,
            SocketRegister::Interrupt => 0x0002,
            SocketRegister::Status => 0x0003,
            SocketRegister::LocalPort => 0x0004,
            SocketRegister::DestinationMac => 0x0006,
            SocketRegister::DestinationIp => 0x000C,
            SocketRegister::DestinationPort => 0x0010,
            SocketRegister::MaxSegmentSize => 0x0012,
            SocketRegister::TypeOfService => 0x0015,
            SocketRegister::TimeToLive => 0x0016,
            SocketRegister::RetryTimeRegister => 0x0019,
            SocketRegister::RetryCountRegister => 0x001B,
            SocketRegister::ReceiveBuffer => 0x001E,
            SocketRegister::TransmitBuffer => 0x001F,
            SocketRegister::TxFreeSize => 0x0020,
            SocketRegister::TxReadPointer => 0x0022,
            SocketRegister::TxWritePointer => 0x0024,
            SocketRegister::RxReceivedSize => 0x0026,
            SocketRegister::RxReadPointer => 0x0028,
            SocketRegister::RxWritePointer => 0x002A,
            SocketRegister::InterruptMask => 0x002C,
            SocketRegister::FragmentOffset => 0x002D,
            SocketRegister::KeepAliveTimer => 0x002F,
        }
    }
}

/// Bits of a socket's interrupt register.
#[derive(Copy, Clone, PartialEq, Eq, Structural, Debug)]
pub enum Interrupt {
    SendOk,
    Timeout,
    Received,
    Disconnected,
    Connected,
}

impl Interrupt {
    /// Number of the interrupt's bit in the register.
    pub open spec fn bit(self) -> nat {
        match self {
            Interrupt::SendOk => 4,
            Interrupt::Timeout => 3,
            Interrupt::Received => 2,
            Interrupt::Disconnected => 1,
            Interrupt::Connected => 0,
        }
    }

    /// The interrupt's mask: only its own bit is set.
    pub open spec fn mask(self) -> u8 {
        match self {
            Interrupt::SendOk => 0x10,
            Interrupt::Timeout => 0x08,
            Interrupt::Received => 0x04,
            Interrupt::Disconnected => 0x02,
            Interrupt::Connected => 0x01,
        }
    }

    /// The interrupt's mask in the socket's interrupt register.
    pub fn value(self) -> (mask: u8)
        ensures
            mask == self.mask(),
            mask == 1u8 << self.bit(),
    {
        let mask: u8 = match self {
            Interrupt::SendOk => 1 << 4,
            Interrupt::Timeout => 1 << 3,
            Interrupt::Received => 1 << 2,
            Interrupt::Disconnected => 1 << 1,
            Interrupt::Connected => 1,
        };
        proof {
            assert(1u8 << 4u8 == 0x10u8) by (bit_vector);
            assert(1u8 << 3u8 == 0x08u8) by (bit_vector);
            assert(1u8 << 2u8 == 0x04u8) by (bit_vector);
            assert(1u8 << 1u8 == 0x02u8) by (bit_vector);
            assert(1u8 << 0u8 == 0x01u8) by (bit_vector);
        }
        mask
    }
}

/// Protocols that a socket's mode register selects.
#[derive(Copy, Clone, PartialEq, Eq, Structural, Debug)]
pub enum Protocol {
    TCP,
    UDP,
    MACRAW,
}

impl Protocol {
    /// The protocol's code in a socket's mode register.
    pub open spec fn code(self) -> u8 {
        match self {
            Protocol::TCP => 0b0001,
            Protocol::UDP => 0b0010,
            Protocol::MACRAW => 0b0100,
        }
    }

    /// The protocol's code in a socket's mode register.
    pub fn value(self) -> (code: u8)
        ensures
            code == self.code(),
    {
        match self {
            Protocol::TCP => 0b0001,
            Protocol::UDP => 0b0010,
            Protocol::MACRAW => 0b0100,
        }
    }
}

/// Commands that a socket's command register accepts.
#[derive(Copy, Clone, PartialEq, Eq, Structural, Debug)]
pub enum SocketCommand {
    Open,
    Listen,
    Connect,
    Disconnect,
    Close,
    Send,
    SendMac,
    SendKeep,
    Recv,
}

impl SocketCommand {
    /// The command's code in a socket's command register.
    pub open spec fn code(self) -> u8 {
        match self {
            SocketCommand::Open => 0x01,
            SocketCommand::Listen => 0x02,
            SocketCommand::Connect => 0x04,
            SocketCommand::Disconnect => 0x08,
            SocketCommand::Close => 0x10,
            SocketCommand::Send => 0x20,
            SocketCommand::SendMac => 0x21,
            SocketCommand::SendKeep => 0x22,
            SocketCommand::Recv => 0x40,
        }
    }

    /// The command's code in a socket's command register.
    pub fn value(self) -> (code: u8)
        ensures
            code == self.code(),
    {
        match self {
            SocketCommand::Open => 0x01,
            SocketCommand::Listen => 0x02,
            SocketCommand::Connect => 0x04,
            SocketCommand::Disconnect => 0x08,
            SocketCommand::Close => 0x10,
            SocketCommand::Send => 0x20,
            SocketCommand::SendMac => 0x21,
            SocketCommand::SendKeep => 0x22,
            SocketCommand::Recv => 0x40,
        }
    }
}

/// States that a socket's status register reports.
#[derive(Copy, Clone, PartialEq, Eq, Structural, Debug)]
pub enum SocketStatus {
    Closed,
    Init,
    Listen,
    SynSent,
    SynRecv,
    Established,
    FinWait,
    Closing,
    TimeWait,
    CloseWait,
    LastAck,
    SockUdp,
    MacRaw,
    Unknown(u8),
}

/// The status codes that the chip documents.
pub open spec fn is_status_code(n: u8) -> bool {
    n == 0x00 || n == 0x13 || n == 0x14 || n == 0x15 || n == 0x16 || n == 0x17 || n == 0x18
        || n == 0x1a || n == 0x1b || n == 0x1c || n == 0x1d || n == 0x22 || n == 0x42
}

/// The state that the status register's byte `n` reports.
pub open spec fn status_of(n: u8) -> SocketStatus {
    match n {
        0x00 => SocketStatus::Closed,
        0x13 => SocketStatus::Init,
        0x14 => SocketStatus::Listen,
        0x15 => SocketStatus::SynSent,
        0x16 => SocketStatus::SynRecv,
        0x17 => SocketStatus::Established,
        0x18 => SocketStatus::FinWait,
        0x1a => SocketStatus::Closing,
        0x1b => SocketStatus::TimeWait,
        0x1c => SocketStatus::CloseWait,
        0x1d => SocketStatus::LastAck,
        0x22 => SocketStatus::SockUdp,
        0x42 => SocketStatus::MacRaw,
        n => SocketStatus::Unknown(n),
    }
}

impl SocketStatus {
    /// The byte of the status register that reports this state.
    pub open spec fn code(self) -> u8 {
        match self {
            SocketStatus::Closed => 0x00,
            SocketStatus::Init => 0x13,
            SocketStatus::Listen => 0x14,
            SocketStatus::SynSent => 0x15,
            SocketStatus::SynRecv => 0x16,
            SocketStatus::Established => 0x17,
            SocketStatus::FinWait => 0x18,
            SocketStatus::Closing => 0x1a,
            SocketStatus::TimeWait => 0x1b,
            SocketStatus::CloseWait => 0x1c,
            SocketStatus::LastAck => 0x1d,
            SocketStatus::SockUdp => 0x22,
            SocketStatus::MacRaw => 0x42,
            SocketStatus::Unknown(n) => n,
        }
    }

    /// The state that the status register's byte `n` reports: the documented state whose code
    /// is `n`, and `Unknown(n)` for any other byte.
    pub fn from_u8(n: u8) -> (status: SocketStatus)
        ensures
            status == status_of(n),
            status.code() == n,
            status is Unknown <==> !is_status_code(n),
    {
        match n {
            0x00 => SocketStatus::Closed,
            0x13 => SocketStatus::Init,
            0x14 => SocketStatus::Listen,
            0x15 => SocketStatus::SynSent,
            0x16 => SocketStatus::SynRecv,
            0x17 => SocketStatus::Established,
            0x18 => SocketStatus::FinWait,
            0x1a => SocketStatus::Closing,
            0x1b => SocketStatus::TimeWait,
            0x1c => SocketStatus::CloseWait,
            0x1d => SocketStatus::LastAck,
            0x22 => SocketStatus::SockUdp,
            0x42 => SocketStatus::MacRaw,
            n => SocketStatus::Unknown(n),
        }
    }
}

/// Decoding the status register loses nothing: a state names one byte, and no two bytes are
/// read as the same state.
pub proof fn lemma_status_decoding_is_lossless(a: SocketStatus, b: SocketStatus)
    requires
        a is Unknown <==> !is_status_code(a.code()),
        b is Unknown <==> !is_status_code(b.code()),
    ensures
        a.code() == b.code() <==> a == b,
{
}

/// The eight sockets of the chip.
#[derive(Copy, Clone, PartialEq, Eq, Structural, Debug)]
pub enum Socket {
    Socket0,
    Socket1,
    Socket2,
    Socket3,
    Socket4,
    Socket5,
    Socket6,
    Socket7,
}

/// The register blocks of the chip: the common registers, and for each socket its registers,
/// its transmit buffer and its receive buffer.
#[derive(Copy, Clone, PartialEq, Eq, Structural, Debug)]
pub enum Block {
    Common,
    Registers(Socket),
    TxBuffer(Socket),
    RxBuffer(Socket),
}

/// The number that selects `block` in the control byte of a frame.
pub open spec fn block_select(block: Block) -> nat {
    match block {
        Block::Common => 0,
        Block::Registers(s) => 4 * s.index() + 1,
        Block::TxBuffer(s) => 4 * s.index() + 2,
        Block::RxBuffer(s) => 4 * s.index() + 3,
    }
}

/// The address at `offset` of `block`.
pub open spec fn register_of(block: Block, offset: u16) -> Register {
    match block {
        Block::Common => Register::CommonRegister(offset),
        Block::Registers(s) => match s {
            Socket::Socket0 => Register::Socket0Register(offset),
            Socket::Socket1 => Register::Socket1Register(offset),
            Socket::Socket2 => Register::Socket2Register(offset),
            Socket::Socket3 => Register::Socket3Register(offset),
            Socket::Socket4 => Register::Socket4Register(offset),
            Socket::Socket5 => Register::Socket5Register(offset),
            Socket::Socket6 => Register::Socket6Register(offset),
            Socket::Socket7 => Register::Socket7Register(offset),
        },
        Block::TxBuffer(s) => match s {
            Socket::Socket0 => Register::Socket0TxBuffer(offset),
            Socket::Socket1 => Register::Socket1TxBuffer(offset),
            Socket::Socket2 => Register::Socket2TxBuffer(offset),
            Socket::Socket3 => Register::Socket3TxBuffer(offset),
            Socket::Socket4 => Register::Socket4TxBuffer(offset),
            Socket::Socket5 => Register::Socket5TxBuffer(offset),
            Socket::Socket6 => Register::Socket6TxBuffer(offset),
            Socket::Socket7 => Register::Socket7TxBuffer(offset),
        },
        Block::RxBuffer(s) => match s {
            Socket::Socket0 => Register::Socket0RxBuffer(offset),
            Socket::Socket1 => Register::Socket1RxBuffer(offset),
            Socket::Socket2 => Register::Socket2RxBuffer(offset),
            Socket::Socket3 => Register::Socket3RxBuffer(offset),
            Socket::Socket4 => Register::Socket4RxBuffer(offset),
            Socket::Socket5 => Register::Socket5RxBuffer(offset),
            Socket::Socket6 => Register::Socket6RxBuffer(offset),
            Socket::Socket7 => Register::Socket7RxBuffer(offset),
        },
    }
}

/// The address at `offset` of `block` lies in that block, at that offset.
pub proof fn lemma_register_of(block: Block, offset: u16)
    ensures
        register_of(block, offset).block() == block,
        register_of(block, offset).offset() == offset,
{
}

impl Socket {
    /// The socket's number, 0 to 7.
    pub open spec fn index(self) -> nat {
        match self {
            Socket::Socket0 => 0,
            Socket::Socket1 => 1,
            Socket::Socket2 => 2,
            Socket::Socket3 => 3,
            Socket::Socket4 => 4,
            Socket::Socket5 => 5,
            Socket::Socket6 => 6,
            Socket::Socket7 => 7,
        }
    }

    /// The socket's number, 0 to 7.
    pub fn number(self) -> (n: usize)
        ensures
            n == self.index(),
            n < 8,
    {
        match self {
            Socket::Socket0 => 0,
            Socket::Socket1 => 1,
            Socket::Socket2 => 2,
            Socket::Socket3 => 3,
            Socket::Socket4 => 4,
            Socket::Socket5 => 5,
            Socket::Socket6 => 6,
            Socket::Socket7 => 7,
        }
    }

    /// The byte at `address` of the socket's transmit buffer.
    pub fn tx_register_at(self, address: u16) -> (register: Register)
        ensures
            register == register_of(Block::TxBuffer(self), address),
            register.block() == Block::TxBuffer(self),
            register.offset() == address,
    {
        match self {
            Socket::Socket0 => Register::Socket0TxBuffer(address),
            Socket::Socket1 => Register::Socket1TxBuffer(address),
            Socket::Socket2 => Register::Socket2TxBuffer(address),
            Socket::Socket3 => Register::Socket3TxBuffer(address),
            Socket::Socket4 => Register::Socket4TxBuffer(address),
            Socket::Socket5 => Register::Socket5TxBuffer(address),
            Socket::Socket6 => Register::Socket6TxBuffer(address),
            Socket::Socket7 => Register::Socket7TxBuffer(address),
        }
    }

    /// The byte at `address` of the socket's receive buffer.
    pub fn rx_register_at(self, address: u16) -> (register: Register)
        ensures
            register == register_of(Block::RxBuffer(self), address),
            register.block() == Block::RxBuffer(self),
            register.offset() == address,
    {
        match self {
            Socket::Socket0 => Register::Socket0RxBuffer(address),
            Socket::Socket1 => Register::Socket1RxBuffer(address),
            Socket::Socket2 => Register::Socket2RxBuffer(address),
            Socket::Socket3 => Register::Socket3RxBuffer(address),
            Socket::Socket4 => Register::Socket4RxBuffer(address),
            Socket::Socket5 => Register::Socket5RxBuffer(address),
            Socket::Socket6 => Register::Socket6RxBuffer(address),
            Socket::Socket7 => Register::Socket7RxBuffer(address),
        }
    }

    /// The byte at `address` of the socket's register block.
    pub fn register_at(self, address: u16) -> (register: Register)
        ensures
            register == register_of(Block::Registers(self), address),
            register.block() == Block::Registers(self),
            register.offset() == address,
    {
        match self {
            Socket::Socket0 => Register::Socket0Register(address),
            Socket::Socket1 => Register::Socket1Register(address),
            Socket::Socket2 => Register::Socket2Register(address),
            Socket::Socket3 => Register::Socket3Register(address),
            Socket::Socket4 => Register::Socket4Register(address),
            Socket::Socket5 => Register::Socket5Register(address),
            Socket::Socket6 => Register::Socket6Register(address),
            Socket::Socket7 => Register::Socket7Register(address),
        }
    }

    /// The socket's register `register`.
    pub fn at(self, register: SocketRegister) -> (r: Register)
        ensures
            r == register_of(Block::Registers(self), register.offset()),
            r.block() == Block::Registers(self),
            r.offset() == register.offset(),
    {
        self.register_at(register.value())
    }
}

/// A byte address of the chip: a register block and an offset in it.
#[derive(Copy, Clone, PartialEq, Eq, Structural, Debug)]
pub enum Register {
    CommonRegister(u16),
    Socket0Register(u16),
    Socket0TxBuffer(u16),
    Socket0RxBuffer(u16),
    Socket1Register(u16),
    Socket1TxBuffer(u16),
    Socket1RxBuffer(u16),
    Socket2Register(u16),
    Socket2TxBuffer(u16),
    Socket2RxBuffer(u16),
    Socket3Register(u16),
    Socket3TxBuffer(u16),
    Socket3RxBuffer(u16),
    Socket4Register(u16),
    Socket4TxBuffer(u16),
    Socket4RxBuffer(u16),
    Socket5Register(u16),
    Socket5TxBuffer(u16),
    Socket5RxBuffer(u16),
    Socket6Register(u16),
    Socket6TxBuffer(u16),
    Socket6RxBuffer(u16),
    Socket7Register(u16),
    Socket7TxBuffer(u16),
    Socket7RxBuffer(u16),
}

impl Register {
    /// The register block of the address.
    pub open spec fn block(self) -> Block {
        match self {
            Register::CommonRegister(_) => Block::Common,
            Register::Socket0Register(_) => Block::Registers(Socket::Socket0),
            Register::Socket0TxBuffer(_) => Block::TxBuffer(Socket::Socket0),
            Register::Socket0RxBuffer(_) => Block::RxBuffer(Socket::Socket0),
            Register::Socket1Register(_) => Block::Registers(Socket::Socket1),
            Register::Socket1TxBuffer(_) => Block::TxBuffer(Socket::Socket1),
            Register::Socket1RxBuffer(_) => Block::RxBuffer(Socket::Socket1),
            Register::Socket2Register(_) => Block::Registers(Socket::Socket2),
            Register::Socket2TxBuffer(_) => Block::TxBuffer(Socket::Socket2),
            Register::Socket2RxBuffer(_) => Block::RxBuffer(Socket::Socket2),
            Register::Socket3Register(_) => Block::Registers(Socket::Socket3),
            Register::Socket3TxBuffer(_) => Block::TxBuffer(Socket::Socket3),
            Register::Socket3RxBuffer(_) => Block::RxBuffer(Socket::Socket3),
            Register::Socket4Register(_) => Block::Registers(Socket::Socket4),
            Register::Socket4TxBuffer(_) => Block::TxBuffer(Socket::Socket4),
            Register::Socket4RxBuffer(_) => Block::RxBuffer(Socket::Socket4),
            Register::Socket5Register(_) => Block::Registers(Socket::Socket5),
            Register::Socket5TxBuffer(_) => Block::TxBuffer(Socket::Socket5),
            Register::Socket5RxBuffer(_) => Block::RxBuffer(Socket::Socket5),
            Register::Socket6Register(_) => Block::Registers(Socket::Socket6),
            Register::Socket6TxBuffer(_) => Block::TxBuffer(Socket::Socket6),
            Register::Socket6RxBuffer(_) => Block::RxBuffer(Socket::Socket6),
            Register::Socket7Register(_) => Block::Registers(Socket::Socket7),
            Register::Socket7TxBuffer(_) => Block::TxBuffer(Socket::Socket7),
            Register::Socket7RxBuffer(_) => Block::RxBuffer(Socket::Socket7),
        }
    }

    /// The offset of the address in its block.
    pub open spec fn offset(self) -> u16 {
        match self {
            Register::CommonRegister(a) => a,
            Register::Socket0Register(a) => a,
            Register::Socket0TxBuffer(a) => a,
            Register::Socket0RxBuffer(a) => a,
            Register::Socket1Register(a) => a,
            Register::Socket1TxBuffer(a) => a,
            Register::Socket1RxBuffer(a) => a,
            Register::Socket2Register(a) => a,
            Register::Socket2TxBuffer(a) => a,
            Register::Socket2RxBuffer(a) => a,
            Register::Socket3Register(a) => a,
            Register::Socket3TxBuffer(a) => a,
            Register::Socket3RxBuffer(a) => a,
            Register::Socket4Register(a) => a,
            Register::Socket4TxBuffer(a) => a,
            Register::Socket4RxBuffer(a) => a,
            Register::Socket5Register(a) => a,
            Register::Socket5TxBuffer(a) => a,
            Register::Socket5RxBuffer(a) => a,
            Register::Socket6Register(a) => a,
            Register::Socket6TxBuffer(a) => a,
            Register::Socket6RxBuffer(a) => a,
            Register::Socket7Register(a) => a,
            Register::Socket7TxBuffer(a) => a,
            Register::Socket7RxBuffer(a) => a,
        }
    }

    /// The block select bits of the frame's control byte: the block's number, shifted past the
    /// read/write bit and the two operation mode bits.
    pub fn control_byte(self) -> (byte: u8)
        ensures
            byte == block_select(self.block()) * 8,
    {
        match self {
            Register::CommonRegister(_) => 0b00000_000,
            Register::Socket0Register(_) => 0b00001_000,
            Register::Socket0TxBuffer(_) => 0b00010_000,
            Register::Socket0RxBuffer(_) => 0b00011_000,
            Register::Socket1Register(_) => 0b00101_000,
            Register::Socket1TxBuffer(_) => 0b00110_000,
            Register::Socket1RxBuffer(_) => 0b00111_000,
            Register::Socket2Register(_) => 0b01001_000,
            Register::Socket2TxBuffer(_) => 0b01010_000,
            Register::Socket2RxBuffer(_) => 0b01011_000,
            Register::Socket3Register(_) => 0b01101_000,
            Register::Socket3TxBuffer(_) => 0b01110_000,
            Register::Socket3RxBuffer(_) => 0b01111_000,
            Register::Socket4Register(_) => 0b10001_000,
            Register::Socket4TxBuffer(_) => 0b10010_000,
            Register::Socket4RxBuffer(_) => 0b10011_000,
            Register::Socket5Register(_) => 0b10101_000,
            Register::Socket5TxBuffer(_) => 0b10110_000,
            Register::Socket5RxBuffer(_) => 0b10111_000,
            Register::Socket6Register(_) => 0b11001_000,
            Register::Socket6TxBuffer(_) => 0b11010_000,
            Register::Socket6RxBuffer(_) => 0b11011_000,
            Register::Socket7Register(_) => 0b11101_000,
            Register::Socket7TxBuffer(_) => 0b11110_000,
            Register::Socket7RxBuffer(_) => 0b11111_000,
        }
    }

    /// The offset of the address in its block.
    pub fn address(self) -> (address: u16)
        ensures
            address == self.offset(),
    {
        match self {
            Register::CommonRegister(address) => address,
            Register::Socket0Register(address) => address,
            Register::Socket0TxBuffer(address) => address,
            Register::Socket0RxBuffer(address) => address,
            Register::Socket1Register(address) => address,
            Register::Socket1TxBuffer(address) => address,
            Register::Socket1RxBuffer(address) => address,
            Register::Socket2Register(address) => address,
            Register::Socket2TxBuffer(address) => address,
            Register::Socket2RxBuffer(address) => address,
            Register::Socket3Register(address) => address,
            Register::Socket3TxBuffer(address) => address,
            Register::Socket3RxBuffer(address) => address,
            Register::Socket4Register(address) => address,
            Register::Socket4TxBuffer(address) => address,
            Register::Socket4RxBuffer(address) => address,
            Register::Socket5Register(address) => address,
            Register::Socket5TxBuffer(address) => address,
            Register::Socket5RxBuffer(address) => address,
            Register::Socket6Register(address) => address,
            Register::Socket6TxBuffer(address) => address,
            Register::Socket6RxBuffer(address) => address,
            Register::Socket7Register(address) => address,
            Register::Socket7TxBuffer(address) => address,
            Register::Socket7RxBuffer(address) => address,
        }
    }
}


/// Read/write bit (bit 2) of the control byte for a read.
const COMMAND_READ: u8 = 0b000;

/// Read/write bit (bit 2) of the control byte for a write.
const COMMAND_WRITE: u8 = 0b100;

/// Operation mode bits of the control byte: the length of the data follows from the frame.
const VARIABLE_DATA_LENGTH: u8 = 0b_00;

/// The three bytes that open an SPI frame: the offset, most significant byte first, then the
/// control byte, which selects the block, the direction (bit 2 set for a write) and variable
/// length data.
pub open spec fn frame_header(register: Register, write: bool) -> Seq<u8> {
    be_bytes(register.offset()) + seq![
        (block_select(register.block()) * 8 + if write { 4int } else { 0int }) as u8,
    ]
}

impl Register {
    /// The header of a frame that reads from this address.
    pub fn read_header(self) -> (header: [u8; 3])
        ensures
            header@ == frame_header(self, false),
    {
        self.header(COMMAND_READ)
    }

    /// The header of a frame that writes to this address.
    pub fn write_header(self) -> (header: [u8; 3])
        ensures
            header@ == frame_header(self, true),
    {
        self.header(COMMAND_WRITE)
    }

    fn header(self, command: u8) -> (header: [u8; 3])
        requires
            command == COMMAND_READ || command == COMMAND_WRITE,
        ensures
            header@ == frame_header(self, command == COMMAND_WRITE),
    {
        let control = self.control_byte();
        let address = encode_u16(self.address());
        let byte = control | command | VARIABLE_DATA_LENGTH;
        proof {
            let b = block_select(self.block());
            assert(b < 32) by {
                Register::lemma_block_select_bound(self);
            }
            let c = control;
            assert(c % 8 == 0 && c < 256);
            assert(c % 8 == 0 ==> (c | 0u8) | 0u8 == c) by (bit_vector);
            assert(c % 8 == 0 ==> (c | 4u8) | 0u8 == c + 4) by (bit_vector);
        }
        [address[0], address[1], byte]
    }

    /// The block select number of every block fits the five bits that carry it.
    pub proof fn lemma_block_select_bound(self)
        ensures
            block_select(self.block()) < 32,
    {
    }
}

/// An address of the chip is named by its block and its offset in the block.
pub proof fn lemma_register_named_by_block_and_offset(a: Register, b: Register)
    requires
        a.block() == b.block(),
        a.offset() == b.offset(),
    ensures
        a == b,
{
}

/// Different blocks are selected by different numbers.
pub proof fn lemma_block_select_injective(a: Block, b: Block)
    requires
        block_select(a) == block_select(b),
    ensures
        a == b,
{
}

/// The header of a frame names the address and the direction: two frames with the same header
/// go to the same address in the same direction.
pub proof fn lemma_frame_header_identifies_access(a: Register, wa: bool, b: Register, wb: bool)
    requires
        frame_header(a, wa) == frame_header(b, wb),
    ensures
        a == b,
        wa == wb,
{
    let ha = frame_header(a, wa);
    let hb = frame_header(b, wb);
    assert(ha[0] == hb[0] && ha[1] == hb[1] && ha[2] == hb[2]);
    a.lemma_block_select_bound();
    b.lemma_block_select_bound();
    let (oa, ob) = (a.offset() as int, b.offset() as int);
    assert(ha[0] == oa / 256 && ha[1] == oa % 256);
    assert(hb[0] == ob / 256 && hb[1] == ob % 256);
    assert(oa == 256 * (oa / 256) + oa % 256);
    assert(ob == 256 * (ob / 256) + ob % 256);
    assert(a.offset() == b.offset());
    let (sa, sb) = (block_select(a.block()) as int, block_select(b.block()) as int);
    let (ca, cb) = (if wa { 4int } else { 0int }, if wb { 4int } else { 0int });
    assert(ha[2] == sa * 8 + ca);
    assert(hb[2] == sb * 8 + cb);
    assert(sa == sb && ca == cb) by (nonlinear_arith)
        requires
            sa * 8 + ca == sb * 8 + cb,
            0 <= ca <= 4,
            0 <= cb <= 4,
            ca == 0 || ca == 4,
            cb == 0 || cb == 4,
    ;
    lemma_block_select_injective(a.block(), b.block());
    lemma_register_named_by_block_and_offset(a, b);
}

/// The control byte (`Register::control_byte`) and the frame header of every address: the
/// socket's number `n` sits in the top three bits of the control byte and the kind of block in
/// the next two, so that socket `n`'s registers are selected by `(4n + 1) << 3`, its transmit
/// buffer by `(4n + 2) << 3` and its receive buffer by `(4n + 3) << 3`, and the common
/// registers by 0; the header adds 4 for a write and puts the offset in front, most
/// significant byte first.
pub proof fn lemma_control_byte_names_socket_and_buffer(s: Socket, offset: u16, write: bool)
    ensures
        ({
            let n = s.index() as int;
            let direction = if write { 4int } else { 0int };
            let common = register_of(Block::Common, offset);
            let registers = register_of(Block::Registers(s), offset);
            let tx = register_of(Block::TxBuffer(s), offset);
            let rx = register_of(Block::RxBuffer(s), offset);
            &&& block_select(common.block()) * 8 == 0
            &&& block_select(registers.block()) * 8 == (4 * n + 1) * 8
            &&& block_select(tx.block()) * 8 == (4 * n + 2) * 8
            &&& block_select(rx.block()) * 8 == (4 * n + 3) * 8
            &&& frame_header(common, write) == seq![(offset / 256) as u8, (offset % 256) as u8, direction as u8]
            &&& frame_header(registers, write) == seq![
                (offset / 256) as u8,
                (offset % 256) as u8,
                ((4 * n + 1) * 8 + direction) as u8,
            ]
            &&& frame_header(tx, write) == seq![
                (offset / 256) as u8,
                (offset % 256) as u8,
                ((4 * n + 2) * 8 + direction) as u8,
            ]
            &&& frame_header(rx, write) == seq![
                (offset / 256) as u8,
                (offset % 256) as u8,
                ((4 * n + 3) * 8 + direction) as u8,
            ]
        }),
{
    let common = register_of(Block::Common, offset);
    let registers = register_of(Block::Registers(s), offset);
    let tx = register_of(Block::TxBuffer(s), offset);
    let rx = register_of(Block::RxBuffer(s), offset);
    assert(frame_header(common, write) =~= seq![
        (offset / 256) as u8,
        (offset % 256) as u8,
        (if write { 4int } else { 0int }) as u8,
    ]);
    assert(frame_header(registers, write) =~= seq![
        (offset / 256) as u8,
        (offset % 256) as u8,
        ((4 * s.index() + 1) * 8 + if write { 4int } else { 0int }) as u8,
    ]);
    assert(frame_header(tx, write) =~= seq![
        (offset / 256) as u8,
        (offset % 256) as u8,
        ((4 * s.index() + 2) * 8 + if write { 4int } else { 0int }) as u8,
    ]);
    assert(frame_header(rx, write) =~= seq![
        (offset / 256) as u8,
        (offset % 256) as u8,
        ((4 * s.index() + 3) * 8 + if write { 4int } else { 0int }) as u8,
    ]);
}

} // verus!
