//! TCP sockets: opening them as servers or clients, receiving, sending, disconnecting and
//! reconnecting.

use crate::address::IpAddress;
use crate::device::{DeviceState, TcpSocket, UninitializedSocket, W5500, FIRST_LOCAL_PORT};
use crate::endian::be_bytes;
use crate::program::{
    byte_at, get_byte, get_read, get_u16, read_at, read_reg, read_socket, reads, socket_reg, steps,
    u16_at, write_reg, write_socket, write_socket_byte, write_socket_pair, write_socket_u16,
    Instruction, Stage, StageView, Step, confined, stage_confined,
};
use crate::register::{
    register_of, status_of, Block, Interrupt, Protocol, Socket, SocketCommand, SocketRegister,
    SocketStatus,
};
use vstd::prelude::*;
use vstd::slice::slice_to_vec;

verus! {

/// The retry time that opening a client connection uses, in units of 100 microseconds.
pub const CONNECT_RETRY_TIME: u16 = 200;

/// The retry count that opening a client connection uses.
pub const CONNECT_RETRY_COUNT: u8 = 3;

/// The retry count that reconnecting uses.
pub const RECONNECT_RETRY_COUNT: u8 = 2;

/// The bytes that open `socket` for TCP: the mode register's protocol and, right after it, the
/// command register's `Open`.
pub open spec fn open_tcp(socket: Socket) -> Step {
    write_reg(socket, SocketRegister::Mode, seq![Protocol::TCP.code(), SocketCommand::Open.code()])
}

/// A write of `command` to the command register of `socket`.
pub open spec fn command(socket: Socket, command: SocketCommand) -> Step {
    write_reg(socket, SocketRegister::Command, seq![command.code()])
}

/// A wait until the status of `socket` is `status`.
pub open spec fn await_status(socket: Socket, status: SocketStatus) -> Step {
    Step::AwaitStatus(socket, status, true)
}

/// The write that clears the `SendOk` interrupt of `socket`.
pub open spec fn clear_send_ok(socket: Socket) -> Step {
    write_reg(socket, SocketRegister::Interrupt, seq![Interrupt::SendOk.mask()])
}

/// The plan that opens `socket` as a TCP server on `port`: clear the `SendOk` interrupt, set
/// the local port, open the socket for TCP, wait until it is initialised, tell it to listen,
/// and wait until it listens.
pub fn tcp_server_plan(socket: &UninitializedSocket, port: u16) -> (plan: Vec<Instruction>)
    ensures
        confined(steps(plan@), socket@),
        steps(plan@) == seq![
            clear_send_ok(socket@),
            write_reg(socket@, SocketRegister::LocalPort, be_bytes(port)),
            open_tcp(socket@),
            await_status(socket@, SocketStatus::Init),
            command(socket@, SocketCommand::Listen),
            await_status(socket@, SocketStatus::Listen),
        ],
{
    let s = socket.socket();
    let plan = vec![
        write_socket_byte(s, SocketRegister::Interrupt, Interrupt::SendOk.value()),
        write_socket_u16(s, SocketRegister::LocalPort, port),
        write_socket_pair(s, SocketRegister::Mode, Protocol::TCP.value(), SocketCommand::Open.value()),
        Instruction::AwaitStatus(s, SocketStatus::Init, true),
        write_socket_byte(s, SocketRegister::Command, SocketCommand::Listen.value()),
        Instruction::AwaitStatus(s, SocketStatus::Listen, true),
    ];
    assert(steps(plan@) =~= seq![
        clear_send_ok(socket@),
        write_reg(socket@, SocketRegister::LocalPort, be_bytes(port)),
        open_tcp(socket@),
        await_status(socket@, SocketStatus::Init),
        command(socket@, SocketCommand::Listen),
        await_status(socket@, SocketStatus::Listen),
    ]);
    plan
}

/// The plan that disconnects `socket`: tell it to disconnect, wait while it is in `FinWait`,
/// then wait while it is `Closed`.
pub fn tcp_disconnect_plan(socket: &TcpSocket) -> (plan: Vec<Instruction>)
    ensures
        confined(steps(plan@), socket@),
        steps(plan@) == seq![
            command(socket@, SocketCommand::Disconnect),
            Step::AwaitStatus(socket@, SocketStatus::FinWait, false),
            Step::AwaitStatus(socket@, SocketStatus::Closed, false),
        ],
{
    let s = socket.socket();
    let plan = vec![
        write_socket_byte(s, SocketRegister::Command, SocketCommand::Disconnect.value()),
        Instruction::AwaitStatus(s, SocketStatus::FinWait, false),
        Instruction::AwaitStatus(s, SocketStatus::Closed, false),
    ];
    assert(steps(plan@) =~= seq![
        command(socket@, SocketCommand::Disconnect),
        Step::AwaitStatus(socket@, SocketStatus::FinWait, false),
        Step::AwaitStatus(socket@, SocketStatus::Closed, false),
    ]);
    plan
}

/// The plan that reads the status of `socket`, to tell whether it is connected.
pub fn tcp_status_plan(socket: &TcpSocket) -> (plan: Vec<Instruction>)
    ensures
        confined(steps(plan@), socket@),
        steps(plan@) == seq![read_reg(socket@, SocketRegister::Status, 1)],
{
    let plan = vec![read_socket(socket.socket(), SocketRegister::Status, 1)];
    assert(steps(plan@) =~= seq![read_reg(socket@, SocketRegister::Status, 1)]);
    plan
}

/// Whether the status byte in the first read of `results` reports an established connection.
pub fn is_established(results: &Vec<Vec<u8>>) -> (connected: bool)
    ensures
        connected == (status_of(byte_at(read_at(reads(results@), 0), 0))
            == SocketStatus::Established),
{
    SocketStatus::from_u8(get_byte(get_read(results, 0), 0)) == SocketStatus::Established
}

// ------------------------------------------------------------------ opening a client connection

/// Where the opening of a client connection stands.
#[derive(Copy, Clone, PartialEq, Eq, Structural, Debug)]
pub enum ClientPhase {
    /// Nothing has run yet.
    Start,
    /// The retry registers have been read.
    RetrySaved,
    /// The retry registers and the local port have been written.
    PortWritten,
    /// The connection is established and the retry registers are restored.
    Connected,
}

/// The state of an opening client connection.
pub struct TcpClientState {
    pub socket: Socket,
    pub ip: Seq<u8>,
    pub port: u16,
    pub phase: ClientPhase,
    pub retry_time: u16,
    pub retry_count: u8,
}

/// The next stage of opening a client connection, given the results of the last plan and the
/// chip's next local port.
///
/// First the `SendOk` interrupt is cleared and the retry time and count are read; then they are
/// set to `CONNECT_RETRY_TIME` and `CONNECT_RETRY_COUNT` and the socket's local port is set to
/// the chip's next local port; once that plan has run, the chip moves on to the next local port,
/// and the destination port and address are set, the socket is opened for TCP, told to connect
/// once it is initialised, and waited for until the connection is established; at last the
/// retry time and count read at first are written back.
pub open spec fn tcp_client_step(st: TcpClientState, local_port: u16, rs: Seq<Seq<u8>>) -> (
    TcpClientState,
    StageView<()>,
) {
    let s = st.socket;
    match st.phase {
        ClientPhase::Start => (
            TcpClientState { phase: ClientPhase::RetrySaved, ..st },
            StageView::Run(
                seq![
                    clear_send_ok(s),
                    read_reg(s, SocketRegister::RetryTimeRegister, 2),
                    read_reg(s, SocketRegister::RetryCountRegister, 1),
                ],
            ),
        ),
        ClientPhase::RetrySaved => (
            TcpClientState {
                phase: ClientPhase::PortWritten,
                retry_time: u16_at(read_at(rs, 0), 0),
                retry_count: byte_at(read_at(rs, 1), 0),
                ..st
            },
            StageView::Run(
                seq![
                    write_reg(s, SocketRegister::RetryTimeRegister, be_bytes(CONNECT_RETRY_TIME)),
                    write_reg(s, SocketRegister::RetryCountRegister, seq![CONNECT_RETRY_COUNT]),
                    write_reg(s, SocketRegister::LocalPort, be_bytes(local_port)),
                ],
            ),
        ),
        ClientPhase::PortWritten => (
            TcpClientState { phase: ClientPhase::Connected, ..st },
            StageView::Run(
                seq![
                    write_reg(s, SocketRegister::DestinationPort, be_bytes(st.port)),
                    write_reg(s, SocketRegister::DestinationIp, st.ip),
                    open_tcp(s),
                    await_status(s, SocketStatus::Init),
                    command(s, SocketCommand::Connect),
                    await_status(s, SocketStatus::Established),
                    write_reg(s, SocketRegister::RetryTimeRegister, be_bytes(st.retry_time)),
                    write_reg(s, SocketRegister::RetryCountRegister, seq![st.retry_count]),
                ],
            ),
        ),
        ClientPhase::Connected => (st, StageView::Finished(())),
    }
}

/// Opens a taken socket as a TCP client connection, stage by stage.
pub struct TcpClientOpen {
    socket: Socket,
    ip: IpAddress,
    port: u16,
    phase: ClientPhase,
    retry_time: u16,
    retry_count: u8,
}

impl View for TcpClientOpen {
    type V = TcpClientState;

    closed spec fn view(&self) -> TcpClientState {
        TcpClientState {
            socket: self.socket,
            ip: self.ip.address@,
            port: self.port,
            phase: self.phase,
            retry_time: self.retry_time,
            retry_count: self.retry_count,
        }
    }
}

impl TcpClientOpen {
    /// Prepares to connect `socket` to port `port` of `ip`.
    pub fn new(socket: &UninitializedSocket, ip: IpAddress, port: u16) -> (open: TcpClientOpen)
        ensures
            open@ == (TcpClientState {
                socket: socket@,
                ip: ip.address@,
                port,
                phase: ClientPhase::Start,
                retry_time: 0,
                retry_count: 0,
            }),
    {
        TcpClientOpen {
            socket: socket.socket(),
            ip,
            port,
            phase: ClientPhase::Start,
            retry_time: 0,
            retry_count: 0,
        }
    }

    /// Whether the next step moves the chip on to its next local port.
    pub fn advances_local_port(&self) -> (advances: bool)
        ensures
            advances == (self@.phase == ClientPhase::PortWritten),
    {
        self.phase == ClientPhase::PortWritten
    }

    /// Takes the results of the last plan and gives the next stage, as `tcp_client_step`
    /// describes; once the local port has been written, the chip moves on to its next local
    /// port.
    pub fn step(&mut self, w5500: &mut W5500, results: &Vec<Vec<u8>>) -> (stage: Stage<()>)
        requires
            old(self)@.phase == ClientPhase::PortWritten ==> old(w5500)@.local_port < u16::MAX,
        ensures
            (final(self)@, stage@) == tcp_client_step(
                old(self)@,
                old(w5500)@.local_port,
                reads(results@),
            ),
            final(w5500)@ == (if old(self)@.phase == ClientPhase::PortWritten {
                DeviceState { local_port: (old(w5500)@.local_port + 1) as u16, ..old(w5500)@ }
            } else {
                old(w5500)@
            }),
    {
        let s = self.socket;
        match self.phase {
            ClientPhase::Start => {
                self.phase = ClientPhase::RetrySaved;
                let plan = vec![
                    write_socket_byte(s, SocketRegister::Interrupt, Interrupt::SendOk.value()),
                    read_socket(s, SocketRegister::RetryTimeRegister, 2),
                    read_socket(s, SocketRegister::RetryCountRegister, 1),
                ];
                assert(steps(plan@) =~= seq![
                    clear_send_ok(s),
                    read_reg(s, SocketRegister::RetryTimeRegister, 2),
                    read_reg(s, SocketRegister::RetryCountRegister, 1),
                ]);
                Stage::Run(plan)
            },
            ClientPhase::RetrySaved => {
                self.retry_time = get_u16(get_read(results, 0), 0);
                self.retry_count = get_byte(get_read(results, 1), 0);
                self.phase = ClientPhase::PortWritten;
                let local_port = w5500.local_port();
                let plan = vec![
                    write_socket_u16(s, SocketRegister::RetryTimeRegister, CONNECT_RETRY_TIME),
                    write_socket_byte(s, SocketRegister::RetryCountRegister, CONNECT_RETRY_COUNT),
                    write_socket_u16(s, SocketRegister::LocalPort, local_port),
                ];
                assert(steps(plan@) =~= seq![
                    write_reg(s, SocketRegister::RetryTimeRegister, be_bytes(CONNECT_RETRY_TIME)),
                    write_reg(s, SocketRegister::RetryCountRegister, seq![CONNECT_RETRY_COUNT]),
                    write_reg(s, SocketRegister::LocalPort, be_bytes(local_port)),
                ]);
                Stage::Run(plan)
            },
            ClientPhase::PortWritten => {
                w5500.advance_local_port();
                self.phase = ClientPhase::Connected;
                let plan = vec![
                    write_socket_u16(s, SocketRegister::DestinationPort, self.port),
                    write_socket(s, SocketRegister::DestinationIp, slice_to_vec(&self.ip.address)),
                    write_socket_pair(
                        s,
                        SocketRegister::Mode,
                        Protocol::TCP.value(),
                        SocketCommand::Open.value(),
                    ),
                    Instruction::AwaitStatus(s, SocketStatus::Init, true),
                    write_socket_byte(s, SocketRegister::Command, SocketCommand::Connect.value()),
                    Instruction::AwaitStatus(s, SocketStatus::Established, true),
                    write_socket_u16(s, SocketRegister::RetryTimeRegister, self.retry_time),
                    write_socket_byte(s, SocketRegister::RetryCountRegister, self.retry_count),
                ];
                assert(steps(plan@) =~= seq![
                    write_reg(s, SocketRegister::DestinationPort, be_bytes(self.port)),
                    write_reg(s, SocketRegister::DestinationIp, self.ip.address@),
                    open_tcp(s),
                    await_status(s, SocketStatus::Init),
                    command(s, SocketCommand::Connect),
                    await_status(s, SocketStatus::Established),
                    write_reg(s, SocketRegister::RetryTimeRegister, be_bytes(self.retry_time)),
                    write_reg(s, SocketRegister::RetryCountRegister, seq![self.retry_count]),
                ]);
                Stage::Run(plan)
            },
            ClientPhase::Connected => Stage::Finished(()),
        }
    }
}

// ------------------------------------------------------------------------------ receiving

/// The bit of the interrupt mask register that is read to tell whether data came in.
pub const RECEIVED_BIT: u8 = 1 << 2;

/// Where a TCP receive stands.
#[derive(Copy, Clone, PartialEq, Eq, Structural, Debug)]
pub enum ReceivePhase {
    /// Nothing has run yet.
    Start,
    /// The status has been read.
    Status,
    /// The interrupt mask has been read.
    Mask,
    /// The received size has been read until it settled.
    Size,
    /// The read pointer and the peer's address and port have been read.
    Header,
    /// The data has been read and the buffer released.
    Received,
    /// There was nothing to receive.
    Nothing,
}

/// The state of a TCP receive.
pub struct TcpReceiveState {
    pub socket: Socket,
    pub capacity: nat,
    pub phase: ReceivePhase,
    pub size: u16,
    pub ip: Seq<u8>,
    pub port: u16,
}

/// The smaller of `a` and `b`.
pub open spec fn min(a: int, b: int) -> int {
    if a <= b {
        a
    } else {
        b
    }
}

/// `a + b`, wrapped around to 16 bits.
pub open spec fn add_wrapping(a: u16, b: u16) -> u16 {
    ((a + b) % 0x10000) as u16
}

/// The outcome of a receive that got data: the peer's address and port, and how many bytes
/// the chip had received.
pub open spec fn received(st: TcpReceiveState) -> Option<(Seq<u8>, u16, nat)> {
    Some((st.ip, st.port, st.size as nat))
}

/// The next stage of a TCP receive into a buffer of `capacity` bytes, given the results of the
/// last plan.
///
/// The status is read; unless the connection is established, there is nothing to receive.
/// Then the interrupt mask register is read; unless its `RECEIVED_BIT` is set, there is
/// nothing to receive. Then the received size is read until it settles; if it is zero, there is
/// nothing to receive. Otherwise the read pointer, the peer's address and its port are read,
/// as many bytes as fit the buffer are read from the receive buffer at the read pointer, the
/// read pointer is moved past all the received bytes, wrapping around, and the socket is told
/// that the data is taken. The outcome is the peer's address and port and the received size.
pub open spec fn tcp_receive_step(st: TcpReceiveState, rs: Seq<Seq<u8>>) -> (
    TcpReceiveState,
    StageView<Option<(Seq<u8>, u16, nat)>>,
) {
    let s = st.socket;
    let first = read_at(rs, 0);
    match st.phase {
        ReceivePhase::Start => (
            TcpReceiveState { phase: ReceivePhase::Status, ..st },
            StageView::Run(seq![read_reg(s, SocketRegister::Status, 1)]),
        ),
        ReceivePhase::Status => if status_of(byte_at(first, 0)) != SocketStatus::Established {
            (TcpReceiveState { phase: ReceivePhase::Nothing, ..st }, StageView::Finished(None))
        } else {
            (
                TcpReceiveState { phase: ReceivePhase::Mask, ..st },
                StageView::Run(seq![read_reg(s, SocketRegister::InterruptMask, 1)]),
            )
        },
        ReceivePhase::Mask => if byte_at(first, 0) & RECEIVED_BIT == 0 {
            (TcpReceiveState { phase: ReceivePhase::Nothing, ..st }, StageView::Finished(None))
        } else {
            (
                TcpReceiveState { phase: ReceivePhase::Size, ..st },
                StageView::Run(
                    seq![Step::ReadSettled(socket_reg(s, SocketRegister::RxReceivedSize))],
                ),
            )
        },
        ReceivePhase::Size => if u16_at(first, 0) == 0 {
            (TcpReceiveState { phase: ReceivePhase::Nothing, ..st }, StageView::Finished(None))
        } else {
            (
                TcpReceiveState { phase: ReceivePhase::Header, size: u16_at(first, 0), ..st },
                StageView::Run(
                    seq![
                        read_reg(s, SocketRegister::RxReadPointer, 2),
                        read_reg(s, SocketRegister::DestinationIp, 4),
                        read_reg(s, SocketRegister::DestinationPort, 2),
                    ],
                ),
            )
        },
        ReceivePhase::Header => {
            let pointer = u16_at(first, 0);
            let ip = Seq::new(4, |i: int| byte_at(read_at(rs, 1), i));
            let port = u16_at(read_at(rs, 2), 0);
            (
                TcpReceiveState { phase: ReceivePhase::Received, ip, port, ..st },
                StageView::Run(
                    seq![
                        Step::ReadData(
                            register_of(Block::RxBuffer(s), pointer),
                            min(st.capacity as int, st.size as int) as nat,
                        ),
                        write_reg(s, SocketRegister::RxReadPointer, be_bytes(add_wrapping(pointer, st.size))),
                        command(s, SocketCommand::Recv),
                    ],
                ),
            )
        },
        ReceivePhase::Received => (st, StageView::Finished(received(st))),
        ReceivePhase::Nothing => (st, StageView::Finished(None)),
    }
}

/// The outcome of a receive as sequences.
pub open spec fn receive_outcome(r: Option<(IpAddress, u16, usize)>) -> Option<(Seq<u8>, u16, nat)> {
    match r {
        Some((ip, port, size)) => Some((ip.address@, port, size as nat)),
        None => None,
    }
}

/// The view of a stage that ends with a receive outcome.
pub open spec fn receive_stage(stage: Stage<Option<(IpAddress, u16, usize)>>) -> StageView<
    Option<(Seq<u8>, u16, nat)>,
> {
    match stage {
        Stage::Run(plan) => StageView::Run(steps(plan@)),
        Stage::Finished(r) => StageView::Finished(receive_outcome(r)),
    }
}

/// Receives data from a TCP socket into a buffer, stage by stage.
pub struct TcpReceive {
    socket: Socket,
    capacity: usize,
    phase: ReceivePhase,
    size: u16,
    ip: IpAddress,
    port: u16,
}

impl View for TcpReceive {
    type V = TcpReceiveState;

    closed spec fn view(&self) -> TcpReceiveState {
        TcpReceiveState {
            socket: self.socket,
            capacity: self.capacity as nat,
            phase: self.phase,
            size: self.size,
            ip: self.ip.address@,
            port: self.port,
        }
    }
}

impl TcpReceive {
    /// Prepares to receive from `socket` into a buffer of `capacity` bytes.
    pub fn new(socket: &TcpSocket, capacity: usize) -> (receive: TcpReceive)
        ensures
            receive@ == (TcpReceiveState {
                socket: socket@,
                capacity: capacity as nat,
                phase: ReceivePhase::Start,
                size: 0,
                ip: seq![0u8, 0u8, 0u8, 0u8],
                port: 0,
            }),
    {
        TcpReceive {
            socket: socket.socket(),
            capacity,
            phase: ReceivePhase::Start,
            size: 0,
            ip: IpAddress::new(0, 0, 0, 0),
            port: 0,
        }
    }

    /// Takes the results of the last plan and gives the next stage, as `tcp_receive_step`
    /// describes.
    #[verifier::rlimit(40)]
    pub fn step(&mut self, results: &Vec<Vec<u8>>) -> (stage: Stage<Option<(IpAddress, u16, usize)>>)
        ensures
            (final(self)@, receive_stage(stage)) == tcp_receive_step(old(self)@, reads(results@)),
    {
        let s = self.socket;
        let first = get_read(results, 0);
        match self.phase {
            ReceivePhase::Start => {
                self.phase = ReceivePhase::Status;
                let plan = vec![read_socket(s, SocketRegister::Status, 1)];
                assert(steps(plan@) =~= seq![read_reg(s, SocketRegister::Status, 1)]);
                Stage::Run(plan)
            },
            ReceivePhase::Status => {
                if SocketStatus::from_u8(get_byte(first, 0)) != SocketStatus::Established {
                    self.phase = ReceivePhase::Nothing;
                    Stage::Finished(None)
                } else {
                    self.phase = ReceivePhase::Mask;
                    let plan = vec![read_socket(s, SocketRegister::InterruptMask, 1)];
                    assert(steps(plan@) =~= seq![read_reg(s, SocketRegister::InterruptMask, 1)]);
                    Stage::Run(plan)
                }
            },
            ReceivePhase::Mask => {
                if get_byte(first, 0) & RECEIVED_BIT == 0 {
                    self.phase = ReceivePhase::Nothing;
                    Stage::Finished(None)
                } else {
                    self.phase = ReceivePhase::Size;
                    let plan = vec![Instruction::ReadSettled(s.at(SocketRegister::RxReceivedSize))];
                    assert(steps(plan@) =~= seq![
                        Step::ReadSettled(socket_reg(s, SocketRegister::RxReceivedSize)),
                    ]);
                    Stage::Run(plan)
                }
            },
            ReceivePhase::Size => {
                let size = get_u16(first, 0);
                if size == 0 {
                    self.phase = ReceivePhase::Nothing;
                    Stage::Finished(None)
                } else {
                    self.phase = ReceivePhase::Header;
                    self.size = size;
                    let plan = vec![
                        read_socket(s, SocketRegister::RxReadPointer, 2),
                        read_socket(s, SocketRegister::DestinationIp, 4),
                        read_socket(s, SocketRegister::DestinationPort, 2),
                    ];
                    assert(steps(plan@) =~= seq![
                        read_reg(s, SocketRegister::RxReadPointer, 2),
                        read_reg(s, SocketRegister::DestinationIp, 4),
                        read_reg(s, SocketRegister::DestinationPort, 2),
                    ]);
                    Stage::Run(plan)
                }
            },
            ReceivePhase::Header => {
                let pointer = get_u16(first, 0);
                let ip_bytes = get_read(results, 1);
                self.ip = IpAddress::new(
                    get_byte(ip_bytes, 0),
                    get_byte(ip_bytes, 1),
                    get_byte(ip_bytes, 2),
                    get_byte(ip_bytes, 3),
                );
                self.port = get_u16(get_read(results, 2), 0);
                self.phase = ReceivePhase::Received;
                let length = if self.capacity <= self.size as usize {
                    self.capacity
                } else {
                    self.size as usize
                };
                let next_pointer = pointer.wrapping_add(self.size);
                let plan = vec![
                    Instruction::ReadData(s.rx_register_at(pointer), length),
                    write_socket_u16(s, SocketRegister::RxReadPointer, next_pointer),
                    write_socket_byte(s, SocketRegister::Command, SocketCommand::Recv.value()),
                ];
                proof {
                    assert(self.ip.address@ =~= Seq::new(
                        4,
                        |i: int| byte_at(read_at(reads(results@), 1), i),
                    ));
                    assert(next_pointer == add_wrapping(pointer, self.size));
                }
                assert(steps(plan@) =~= seq![
                    Step::ReadData(
                        register_of(Block::RxBuffer(s), pointer),
                        min(self.capacity as int, self.size as int) as nat,
                    ),
                    write_reg(s, SocketRegister::RxReadPointer, be_bytes(add_wrapping(pointer, self.size))),
                    command(s, SocketCommand::Recv),
                ]);
                Stage::Run(plan)
            },
            ReceivePhase::Received => Stage::Finished(Some((self.ip, self.port, self.size as usize))),
            ReceivePhase::Nothing => Stage::Finished(None),
        }
    }
}

// -------------------------------------------------------------------------------- sending

/// Where a TCP send stands.
#[derive(Copy, Clone, PartialEq, Eq, Structural, Debug)]
pub enum SendPhase {
    /// Nothing has run yet.
    Start,
    /// The transmit read pointer has been read.
    ReadPointer,
    /// The data has been written and the transmit write pointer read.
    WritePointer,
    /// The write pointer has been moved, the data sent, and the `SendOk` interrupt waited for.
    Sent,
}

/// The state of a TCP send.
pub struct TcpSendState {
    pub socket: Socket,
    pub length: u16,
    pub phase: SendPhase,
}

/// The wait for the `SendOk` interrupt of `socket`.
pub open spec fn await_send_ok(socket: Socket) -> Step {
    Step::AwaitInterrupt(socket, Interrupt::SendOk)
}

/// The next stage of sending `length` bytes of data over a TCP socket, given the results of
/// the last plan.
///
/// The transmit read pointer is read; the data is written to the transmit buffer at that
/// pointer and the transmit write pointer is read; the write pointer is moved past the data,
/// wrapping around, the socket is told to send, and the `SendOk` interrupt is waited for and
/// cleared.
pub open spec fn tcp_send_step(st: TcpSendState, rs: Seq<Seq<u8>>) -> (TcpSendState, StageView<()>) {
    let s = st.socket;
    match st.phase {
        SendPhase::Start => (
            TcpSendState { phase: SendPhase::ReadPointer, ..st },
            StageView::Run(seq![read_reg(s, SocketRegister::TxReadPointer, 2)]),
        ),
        SendPhase::ReadPointer => (
            TcpSendState { phase: SendPhase::WritePointer, ..st },
            StageView::Run(
                seq![
                    Step::WriteData(
                        register_of(Block::TxBuffer(s), u16_at(read_at(rs, 0), 0)),
                        st.length as nat,
                    ),
                    read_reg(s, SocketRegister::TxWritePointer, 2),
                ],
            ),
        ),
        SendPhase::WritePointer => (
            TcpSendState { phase: SendPhase::Sent, ..st },
            StageView::Run(
                seq![
                    write_reg(
                        s,
                        SocketRegister::TxWritePointer,
                        be_bytes(add_wrapping(u16_at(read_at(rs, 0), 0), st.length)),
                    ),
                    command(s, SocketCommand::Send),
                    await_send_ok(s),
                ],
            ),
        ),
        SendPhase::Sent => (st, StageView::Finished(())),
    }
}

/// The number of bytes that a send of `data_length` bytes writes: the length cut to 16 bits.
pub open spec fn send_length(data_length: nat) -> u16 {
    (data_length % 0x10000) as u16
}

/// Sends data over a TCP socket, stage by stage.
pub struct TcpSend {
    socket: Socket,
    length: u16,
    phase: SendPhase,
}

impl View for TcpSend {
    type V = TcpSendState;

    closed spec fn view(&self) -> TcpSendState {
        TcpSendState { socket: self.socket, length: self.length, phase: self.phase }
    }
}

impl TcpSend {
    /// Prepares to send `data_length` bytes of data over `socket`; the length is cut to 16
    /// bits.
    pub fn new(socket: &TcpSocket, data_length: usize) -> (send: TcpSend)
        ensures
            send@ == (TcpSendState {
                socket: socket@,
                length: send_length(data_length as nat),
                phase: SendPhase::Start,
            }),
    {
        let length = (data_length % 0x10000) as u16;
        TcpSend { socket: socket.socket(), length, phase: SendPhase::Start }
    }

    /// How many bytes of the data the send writes.
    pub fn length(&self) -> (n: u16)
        ensures
            n == self@.length,
    {
        self.length
    }

    /// Takes the results of the last plan and gives the next stage, as `tcp_send_step`
    /// describes.
    pub fn step(&mut self, results: &Vec<Vec<u8>>) -> (stage: Stage<()>)
        ensures
            (final(self)@, stage@) == tcp_send_step(old(self)@, reads(results@)),
    {
        let s = self.socket;
        match self.phase {
            SendPhase::Start => {
                self.phase = SendPhase::ReadPointer;
                let plan = vec![read_socket(s, SocketRegister::TxReadPointer, 2)];
                assert(steps(plan@) =~= seq![read_reg(s, SocketRegister::TxReadPointer, 2)]);
                Stage::Run(plan)
            },
            SendPhase::ReadPointer => {
                let pointer = get_u16(get_read(results, 0), 0);
                self.phase = SendPhase::WritePointer;
                let plan = vec![
                    Instruction::WriteData(s.tx_register_at(pointer), self.length as usize),
                    read_socket(s, SocketRegister::TxWritePointer, 2),
                ];
                assert(steps(plan@) =~= seq![
                    Step::WriteData(register_of(Block::TxBuffer(s), pointer), self.length as nat),
                    read_reg(s, SocketRegister::TxWritePointer, 2),
                ]);
                Stage::Run(plan)
            },
            SendPhase::WritePointer => {
                let pointer = get_u16(get_read(results, 0), 0);
                self.phase = SendPhase::Sent;
                let next_pointer = pointer.wrapping_add(self.length);
                assert(next_pointer == add_wrapping(pointer, self.length));
                let plan = vec![
                    write_socket_u16(s, SocketRegister::TxWritePointer, next_pointer),
                    write_socket_byte(s, SocketRegister::Command, SocketCommand::Send.value()),
                    Instruction::AwaitInterrupt(s, Interrupt::SendOk),
                ];
                assert(steps(plan@) =~= seq![
                    write_reg(s, SocketRegister::TxWritePointer, be_bytes(next_pointer)),
                    command(s, SocketCommand::Send),
                    await_send_ok(s),
                ]);
                Stage::Run(plan)
            },
            SendPhase::Sent => Stage::Finished(()),
        }
    }
}

// --------------------------------------------------------------------------- reconnecting

/// The local port that follows `port` when a connection is opened again: the next port, and
/// `FIRST_LOCAL_PORT` after the last one.
pub open spec fn following_port(port: u16) -> u16 {
    if port == u16::MAX {
        FIRST_LOCAL_PORT
    } else {
        (port + 1) as u16
    }
}

/// The local port that follows `port` when a connection is opened again: the next port, and
/// `FIRST_LOCAL_PORT` after the last one.
pub fn next_local_port(port: u16) -> (next: u16)
    ensures
        next == following_port(port),
{
    if port == u16::MAX {
        FIRST_LOCAL_PORT
    } else {
        port + 1
    }
}

/// Where a reconnection stands.
#[derive(Copy, Clone, PartialEq, Eq, Structural, Debug)]
pub enum ReconnectPhase {
    /// Nothing has run yet.
    Start,
    /// The status has been read.
    Checked,
    /// The retry registers have been read.
    Saved,
    /// The retry registers have been set and the local port read.
    PortRead,
    /// The connection has been opened again and the retry registers restored.
    Reconnected,
    /// The connection was still established.
    AlreadyConnected,
}

/// The state of a reconnection.
pub struct TcpReconnectState {
    pub socket: Socket,
    pub phase: ReconnectPhase,
    pub retry_time: u16,
    pub retry_count: u8,
}

/// The next stage of reconnecting a TCP socket, given the results of the last plan.
///
/// The status is read; if the connection is established, there is nothing to do. Otherwise the
/// retry time and count are read; they are set to `CONNECT_RETRY_TIME` and
/// `RECONNECT_RETRY_COUNT` and the local port is read; the `SendOk` interrupt is cleared, the
/// local port is moved on to the following port, the socket is opened for TCP and, once it is
/// initialised, the mode and command registers are written with TCP and `Connect`; once the
/// connection is established, the retry time and count read at first are written back.
pub open spec fn tcp_reconnect_step(st: TcpReconnectState, rs: Seq<Seq<u8>>) -> (
    TcpReconnectState,
    StageView<()>,
) {
    let s = st.socket;
    let first = read_at(rs, 0);
    match st.phase {
        ReconnectPhase::Start => (
            TcpReconnectState { phase: ReconnectPhase::Checked, ..st },
            StageView::Run(seq![read_reg(s, SocketRegister::Status, 1)]),
        ),
        ReconnectPhase::Checked => if status_of(byte_at(first, 0)) == SocketStatus::Established {
            (
                TcpReconnectState { phase: ReconnectPhase::AlreadyConnected, ..st },
                StageView::Finished(()),
            )
        } else {
            (
                TcpReconnectState { phase: ReconnectPhase::Saved, ..st },
                StageView::Run(
                    seq![
                        read_reg(s, SocketRegister::RetryTimeRegister, 2),
                        read_reg(s, SocketRegister::RetryCountRegister, 1),
                    ],
                ),
            )
        },
        ReconnectPhase::Saved => (
            TcpReconnectState {
                phase: ReconnectPhase::PortRead,
                retry_time: u16_at(first, 0),
                retry_count: byte_at(read_at(rs, 1), 0),
                ..st
            },
            StageView::Run(
                seq![
                    write_reg(s, SocketRegister::RetryTimeRegister, be_bytes(CONNECT_RETRY_TIME)),
                    write_reg(s, SocketRegister::RetryCountRegister, seq![RECONNECT_RETRY_COUNT]),
                    read_reg(s, SocketRegister::LocalPort, 2),
                ],
            ),
        ),
        ReconnectPhase::PortRead => (
            TcpReconnectState { phase: ReconnectPhase::Reconnected, ..st },
            StageView::Run(
                seq![
                    clear_send_ok(s),
                    write_reg(s, SocketRegister::LocalPort, be_bytes(following_port(u16_at(first, 0)))),
                    open_tcp(s),
                    await_status(s, SocketStatus::Init),
                    write_reg(
                        s,
                        SocketRegister::Mode,
                        seq![Protocol::TCP.code(), SocketCommand::Connect.code()],
                    ),
                    await_status(s, SocketStatus::Established),
                    write_reg(s, SocketRegister::RetryTimeRegister, be_bytes(st.retry_time)),
                    write_reg(s, SocketRegister::RetryCountRegister, seq![st.retry_count]),
                ],
            ),
        ),
        ReconnectPhase::Reconnected => (st, StageView::Finished(())),
        ReconnectPhase::AlreadyConnected => (st, StageView::Finished(())),
    }
}

/// Reconnects a TCP socket whose connection is gone, stage by stage.
pub struct TcpReconnect {
    socket: Socket,
    phase: ReconnectPhase,
    retry_time: u16,
    retry_count: u8,
}

impl View for TcpReconnect {
    type V = TcpReconnectState;

    closed spec fn view(&self) -> TcpReconnectState {
        TcpReconnectState {
            socket: self.socket,
            phase: self.phase,
            retry_time: self.retry_time,
            retry_count: self.retry_count,
        }
    }
}

impl TcpReconnect {
    /// Prepares to reconnect `socket`.
    pub fn new(socket: &TcpSocket) -> (reconnect: TcpReconnect)
        ensures
            reconnect@ == (TcpReconnectState {
                socket: socket@,
                phase: ReconnectPhase::Start,
                retry_time: 0,
                retry_count: 0,
            }),
    {
        TcpReconnect { socket: socket.socket(), phase: ReconnectPhase::Start, retry_time: 0, retry_count: 0 }
    }

    /// Takes the results of the last plan and gives the next stage, as `tcp_reconnect_step`
    /// describes.
    pub fn step(&mut self, results: &Vec<Vec<u8>>) -> (stage: Stage<()>)
        ensures
            (final(self)@, stage@) == tcp_reconnect_step(old(self)@, reads(results@)),
    {
        let s = self.socket;
        let first = get_read(results, 0);
        match self.phase {
            ReconnectPhase::Start => {
                self.phase = ReconnectPhase::Checked;
                let plan = vec![read_socket(s, SocketRegister::Status, 1)];
                assert(steps(plan@) =~= seq![read_reg(s, SocketRegister::Status, 1)]);
                Stage::Run(plan)
            },
            ReconnectPhase::Checked => {
                if SocketStatus::from_u8(get_byte(first, 0)) == SocketStatus::Established {
                    self.phase = ReconnectPhase::AlreadyConnected;
                    Stage::Finished(())
                } else {
                    self.phase = ReconnectPhase::Saved;
                    let plan = vec![
                        read_socket(s, SocketRegister::RetryTimeRegister, 2),
                        read_socket(s, SocketRegister::RetryCountRegister, 1),
                    ];
                    assert(steps(plan@) =~= seq![
                        read_reg(s, SocketRegister::RetryTimeRegister, 2),
                        read_reg(s, SocketRegister::RetryCountRegister, 1),
                    ]);
                    Stage::Run(plan)
                }
            },
            ReconnectPhase::Saved => {
                self.retry_time = get_u16(first, 0);
                self.retry_count = get_byte(get_read(results, 1), 0);
                self.phase = ReconnectPhase::PortRead;
                let plan = vec![
                    write_socket_u16(s, SocketRegister::RetryTimeRegister, CONNECT_RETRY_TIME),
                    write_socket_byte(s, SocketRegister::RetryCountRegister, RECONNECT_RETRY_COUNT),
                    read_socket(s, SocketRegister::LocalPort, 2),
                ];
                assert(steps(plan@) =~= seq![
                    write_reg(s, SocketRegister::RetryTimeRegister, be_bytes(CONNECT_RETRY_TIME)),
                    write_reg(s, SocketRegister::RetryCountRegister, seq![RECONNECT_RETRY_COUNT]),
                    read_reg(s, SocketRegister::LocalPort, 2),
                ]);
                Stage::Run(plan)
            },
            ReconnectPhase::PortRead => {
                let local_port = next_local_port(get_u16(first, 0));
                self.phase = ReconnectPhase::Reconnected;
                let plan = vec![
                    write_socket_byte(s, SocketRegister::Interrupt, Interrupt::SendOk.value()),
                    write_socket_u16(s, SocketRegister::LocalPort, local_port),
                    write_socket_pair(
                        s,
                        SocketRegister::Mode,
                        Protocol::TCP.value(),
                        SocketCommand::Open.value(),
                    ),
                    Instruction::AwaitStatus(s, SocketStatus::Init, true),
                    write_socket_pair(
                        s,
                        SocketRegister::Mode,
                        Protocol::TCP.value(),
                        SocketCommand::Connect.value(),
                    ),
                    Instruction::AwaitStatus(s, SocketStatus::Established, true),
                    write_socket_u16(s, SocketRegister::RetryTimeRegister, self.retry_time),
                    write_socket_byte(s, SocketRegister::RetryCountRegister, self.retry_count),
                ];
                assert(steps(plan@) =~= seq![
                    clear_send_ok(s),
                    write_reg(s, SocketRegister::LocalPort, be_bytes(local_port)),
                    open_tcp(s),
                    await_status(s, SocketStatus::Init),
                    write_reg(
                        s,
                        SocketRegister::Mode,
                        seq![Protocol::TCP.code(), SocketCommand::Connect.code()],
                    ),
                    await_status(s, SocketStatus::Established),
                    write_reg(s, SocketRegister::RetryTimeRegister, be_bytes(self.retry_time)),
                    write_reg(s, SocketRegister::RetryCountRegister, seq![self.retry_count]),
                ]);
                Stage::Run(plan)
            },
            ReconnectPhase::Reconnected => Stage::Finished(()),
            ReconnectPhase::AlreadyConnected => Stage::Finished(()),
        }
    }
}

// ----------------------------------------------------------------------------------- laws

/// Whether every read into the caller's buffer in `stage` reads at most `capacity` bytes.
pub open spec fn reads_within<R>(stage: StageView<R>, capacity: nat) -> bool {
    match stage {
        StageView::Run(plan) => forall|i: int|
            0 <= i < plan.len() ==> (#[trigger] plan[i] matches Step::ReadData(_, n) ==> n <= capacity),
        StageView::Finished(_) => true,
    }
}

/// Whether every write of the caller's data in `stage` writes exactly `length` bytes.
pub open spec fn writes_exactly<R>(stage: StageView<R>, length: nat) -> bool {
    match stage {
        StageView::Run(plan) => forall|i: int|
            0 <= i < plan.len() ==> (#[trigger] plan[i] matches Step::WriteData(_, n) ==> n == length),
        StageView::Finished(_) => true,
    }
}

/// A TCP receive never reads more into the caller's buffer than the buffer holds.
pub proof fn lemma_tcp_receive_stays_in_buffer(st: TcpReceiveState, rs: Seq<Seq<u8>>)
    ensures
        reads_within(tcp_receive_step(st, rs).1, st.capacity),
        tcp_receive_step(st, rs).0.capacity == st.capacity,
{
}

/// A TCP send writes the data's length, cut to 16 bits, and so never more than the data holds.
pub proof fn lemma_tcp_send_stays_in_data(st: TcpSendState, rs: Seq<Seq<u8>>, data_length: nat)
    ensures
        writes_exactly(tcp_send_step(st, rs).1, st.length as nat),
        send_length(data_length) <= data_length,
{
}

/// Opening a client connection leaves the retry registers as it found them: it reads them
/// first, sets them for the connection, and at the end writes back the very bytes it read.
pub proof fn lemma_client_restores_retry_registers(
    st: TcpClientState,
    local_port: u16,
    rs0: Seq<Seq<u8>>,
    rs1: Seq<Seq<u8>>,
    rs2: Seq<Seq<u8>>,
)
    requires
        st.phase == ClientPhase::Start,
        rs1.len() == 2,
        rs1[0].len() == 2,
        rs1[1].len() == 1,
    ensures
        ({
            let (st1, stage0) = tcp_client_step(st, local_port, rs0);
            let (st2, stage1) = tcp_client_step(st1, local_port, rs1);
            let (st3, stage2) = tcp_client_step(st2, local_port, rs2);
            &&& stage0 == StageView::<()>::Run(
                seq![
                    clear_send_ok(st.socket),
                    read_reg(st.socket, SocketRegister::RetryTimeRegister, 2),
                    read_reg(st.socket, SocketRegister::RetryCountRegister, 1),
                ],
            )
            &&& stage2 matches StageView::Run(plan) && plan.len() == 8 && plan[6] == write_reg(
                st.socket,
                SocketRegister::RetryTimeRegister,
                rs1[0],
            ) && plan[7] == write_reg(st.socket, SocketRegister::RetryCountRegister, rs1[1])
            &&& tcp_client_step(st3, local_port, rs2).1 == StageView::<()>::Finished(())
        }),
{
    let (st1, _) = tcp_client_step(st, local_port, rs0);
    let (st2, _) = tcp_client_step(st1, local_port, rs1);
    assert(read_at(rs1, 0) == rs1[0]);
    assert(read_at(rs1, 1) == rs1[1]);
    assert(be_bytes(u16_at(rs1[0], 0)) =~= rs1[0]);
    assert(seq![byte_at(rs1[1], 0)] =~= rs1[1]);
}

/// Reconnecting leaves the retry registers as it found them: it reads them first, sets them
/// for the connection, and at the end writes back the very bytes it read.
pub proof fn lemma_reconnect_restores_retry_registers(
    st: TcpReconnectState,
    rs0: Seq<Seq<u8>>,
    rs1: Seq<Seq<u8>>,
    rs2: Seq<Seq<u8>>,
)
    requires
        st.phase == ReconnectPhase::Checked,
        status_of(byte_at(read_at(rs0, 0), 0)) != SocketStatus::Established,
        rs1.len() == 2,
        rs1[0].len() == 2,
        rs1[1].len() == 1,
    ensures
        ({
            let (st1, stage0) = tcp_reconnect_step(st, rs0);
            let (st2, stage1) = tcp_reconnect_step(st1, rs1);
            let (st3, stage2) = tcp_reconnect_step(st2, rs2);
            &&& stage0 == StageView::<()>::Run(
                seq![
                    read_reg(st.socket, SocketRegister::RetryTimeRegister, 2),
                    read_reg(st.socket, SocketRegister::RetryCountRegister, 1),
                ],
            )
            &&& stage2 matches StageView::Run(plan) && plan.len() == 8 && plan[6] == write_reg(
                st.socket,
                SocketRegister::RetryTimeRegister,
                rs1[0],
            ) && plan[7] == write_reg(st.socket, SocketRegister::RetryCountRegister, rs1[1])
            &&& tcp_reconnect_step(st3, rs2).1 == StageView::<()>::Finished(())
        }),
{
    assert(read_at(rs1, 0) == rs1[0]);
    assert(read_at(rs1, 1) == rs1[1]);
    assert(be_bytes(u16_at(rs1[0], 0)) =~= rs1[0]);
    assert(seq![byte_at(rs1[1], 0)] =~= rs1[1]);
}

/// The local port that a reconnection moves on to is a client port: never below
/// `FIRST_LOCAL_PORT` once the port was one, and it differs from the port before.
pub proof fn lemma_following_port(port: u16)
    ensures
        following_port(port) != port,
        port >= FIRST_LOCAL_PORT ==> following_port(port) >= FIRST_LOCAL_PORT,
{
}

proof fn lemma_client_confined(st: TcpClientState, local_port: u16, rs: Seq<Seq<u8>>)
    ensures
        stage_confined(tcp_client_step(st, local_port, rs).1, st.socket),
{
}

proof fn lemma_receive_confined(st: TcpReceiveState, rs: Seq<Seq<u8>>)
    ensures
        stage_confined(tcp_receive_step(st, rs).1, st.socket),
{
}

proof fn lemma_send_confined(st: TcpSendState, rs: Seq<Seq<u8>>)
    ensures
        stage_confined(tcp_send_step(st, rs).1, st.socket),
{
}

proof fn lemma_reconnect_confined(st: TcpReconnectState, rs: Seq<Seq<u8>>)
    ensures
        stage_confined(tcp_reconnect_step(st, rs).1, st.socket),
{
}

/// Every TCP procedure stays within its own socket's blocks: no plan that it asks for touches
/// the common registers or another socket.
pub proof fn lemma_tcp_procedures_confined(
    client: TcpClientState,
    local_port: u16,
    receive: TcpReceiveState,
    send: TcpSendState,
    reconnect: TcpReconnectState,
    rs: Seq<Seq<u8>>,
)
    ensures
        stage_confined(tcp_client_step(client, local_port, rs).1, client.socket),
        stage_confined(tcp_receive_step(receive, rs).1, receive.socket),
        stage_confined(tcp_send_step(send, rs).1, send.socket),
        stage_confined(tcp_reconnect_step(reconnect, rs).1, reconnect.socket),
{
    lemma_client_confined(client, local_port, rs);
    lemma_receive_confined(receive, rs);
    lemma_send_confined(send, rs);
    lemma_reconnect_confined(reconnect, rs);
}

/// A TCP receive goes on past the interrupt mask exactly when bit 2 of the mask byte, the
/// received-data bit, is set, whatever the other bits hold: then it asks for the settled
/// received size; with the bit clear it ends with nothing received.
pub proof fn lemma_tcp_receive_follows_received_bit(st: TcpReceiveState, rs: Seq<Seq<u8>>)
    requires
        st.phase == ReceivePhase::Mask,
        rs.len() >= 1,
        rs[0].len() >= 1,
    ensures
        (tcp_receive_step(st, rs).1 == StageView::<Option<(Seq<u8>, u16, nat)>>::Finished(None))
            <==> rs[0][0] & 4u8 == 0,
        rs[0][0] & 4u8 != 0 ==> tcp_receive_step(st, rs).1
            == StageView::<Option<(Seq<u8>, u16, nat)>>::Run(
            seq![Step::ReadSettled(register_of(Block::Registers(st.socket), 0x0026))],
        ),
{
    assert(RECEIVED_BIT == 4u8) by (bit_vector);
    assert(read_at(rs, 0) == rs[0]);
}

/// Once a TCP receive knows the read pointer `p`, the peer and the received size `n`, it reads
/// the smaller of `n` and the buffer's capacity from the socket's receive buffer at `p`, moves
/// the read pointer to `p + n` (modulo 2^16), issues `Recv`, and then reports the peer's
/// address and port and `n`.
pub proof fn lemma_tcp_receive_takes_the_data(st: TcpReceiveState, rs: Seq<Seq<u8>>)
    requires
        st.phase == ReceivePhase::Header,
        rs.len() >= 3,
        rs[0].len() >= 2,
        rs[1].len() >= 4,
        rs[2].len() >= 2,
    ensures
        ({
            let p = rs[0][0] * 256 + rs[0][1];
            let n = st.size as int;
            let taken = if st.capacity <= n { st.capacity as int } else { n };
            let (st1, stage) = tcp_receive_step(st, rs);
            &&& stage matches StageView::Run(plan) && plan.len() == 3
                && plan[0] == Step::ReadData(register_of(Block::RxBuffer(st.socket), p as u16), taken as nat)
                && (plan[1] matches Step::Write(r, bytes)
                && r == register_of(Block::Registers(st.socket), 0x0028) && bytes.len() == 2
                && bytes[0] * 256 + bytes[1] == (p + n) % 0x10000)
                && plan[2] == Step::Write(register_of(Block::Registers(st.socket), 0x0001), seq![0x40u8])
            &&& tcp_receive_step(st1, rs).1 == StageView::Finished(
                Some((rs[1].subrange(0, 4), (rs[2][0] * 256 + rs[2][1]) as u16, n as nat)),
            )
        }),
{
    let (st1, stage) = tcp_receive_step(st, rs);
    assert(read_at(rs, 0) == rs[0]);
    assert(read_at(rs, 1) == rs[1]);
    assert(read_at(rs, 2) == rs[2]);
    assert(st1.ip =~= rs[1].subrange(0, 4));
    let q = add_wrapping(u16_at(rs[0], 0), st.size) as int;
    assert(q == 256 * (q / 256) + q % 256);
}

/// The connecting stage of a client writes the destination port as its two bytes, most
/// significant first, so that they read back as the requested port, and the destination address
/// as its four bytes.
pub proof fn lemma_client_writes_destination(st: TcpClientState, local_port: u16, rs: Seq<Seq<u8>>)
    requires
        st.phase == ClientPhase::PortWritten,
    ensures
        tcp_client_step(st, local_port, rs).1 matches StageView::Run(plan) && plan.len() == 8
            && plan[0] == Step::Write(
            register_of(Block::Registers(st.socket), 0x0010),
            seq![(st.port / 256) as u8, (st.port % 256) as u8],
        ) && (plan[0] matches Step::Write(_, bytes) && bytes[0] * 256 + bytes[1] == st.port)
            && plan[1] == Step::Write(register_of(Block::Registers(st.socket), 0x000C), st.ip),
{
    let v = st.port as int;
    assert(v == 256 * (v / 256) + v % 256);
}

/// Before it connects, a client sets the socket's local port to the chip's next local port, as
/// two bytes that read back as that port.
pub proof fn lemma_client_takes_next_local_port(st: TcpClientState, local_port: u16, rs: Seq<Seq<u8>>)
    requires
        st.phase == ClientPhase::RetrySaved,
    ensures
        tcp_client_step(st, local_port, rs).1 matches StageView::Run(plan) && plan.len() == 3
            && (plan[2] matches Step::Write(r, bytes)
            && r == register_of(Block::Registers(st.socket), 0x0004) && bytes.len() == 2
            && bytes[0] * 256 + bytes[1] == local_port),
{
    let v = local_port as int;
    assert(v == 256 * (v / 256) + v % 256);
}

/// A reconnection moves the socket on from the local port `p` it read to the following port:
/// it writes `p + 1`, and 40000 only after the last port 65535; so the port it writes always
/// differs from the one it read.
pub proof fn lemma_reconnect_moves_to_following_port(st: TcpReconnectState, rs: Seq<Seq<u8>>)
    requires
        st.phase == ReconnectPhase::PortRead,
        rs.len() >= 1,
        rs[0].len() >= 2,
    ensures
        ({
            let p = rs[0][0] * 256 + rs[0][1];
            tcp_reconnect_step(st, rs).1 matches StageView::Run(plan) && plan.len() == 8
                && (plan[1] matches Step::Write(r, bytes)
                && r == register_of(Block::Registers(st.socket), 0x0004) && bytes.len() == 2
                && bytes[0] * 256 + bytes[1] == (if p == 65535 { 40000 } else { p + 1 })
                && bytes[0] * 256 + bytes[1] != p)
        }),
{
    assert(read_at(rs, 0) == rs[0]);
    let v = following_port(u16_at(rs[0], 0)) as int;
    assert(v == 256 * (v / 256) + v % 256);
}

} // verus!
