//! UDP sockets: opening them, receiving datagrams and sending them.

use crate::address::IpAddress;
use crate::device::{UdpSocket, UninitializedSocket};
use crate::endian::{be_bytes, encode_u16};
use crate::program::{
    byte_at, get_byte, get_read, get_u16, read_at, read_reg, read_socket, reads, socket_reg, steps,
    u16_at, write_reg, write_socket, write_socket_byte, write_socket_pair, write_socket_u16,
    Instruction, Stage, StageView, Step, confined, stage_confined,
};
use crate::register::{register_of, Block, Interrupt, Protocol, Socket, SocketCommand, SocketRegister};
use crate::tcp::{await_send_ok, clear_send_ok, command, min, RECEIVED_BIT};
use vstd::prelude::*;

verus! {

/// The bytes that open `socket` for UDP: the mode register's protocol and, right after it, the
/// command register's `Open`.
pub open spec fn open_udp(socket: Socket) -> Step {
    write_reg(socket, SocketRegister::Mode, seq![Protocol::UDP.code(), SocketCommand::Open.code()])
}

/// The plan that opens `socket` as a UDP server on `port`: clear the `SendOk` interrupt, set
/// the local port and open the socket for UDP.
pub fn udp_server_plan(socket: &UninitializedSocket, port: u16) -> (plan: Vec<Instruction>)
    ensures
        confined(steps(plan@), socket@),
        steps(plan@) == seq![
            clear_send_ok(socket@),
            write_reg(socket@, SocketRegister::LocalPort, be_bytes(port)),
            open_udp(socket@),
        ],
{
    let s = socket.socket();
    let plan = vec![
        write_socket_byte(s, SocketRegister::Interrupt, Interrupt::SendOk.value()),
        write_socket_u16(s, SocketRegister::LocalPort, port),
        write_socket_pair(s, SocketRegister::Mode, Protocol::UDP.value(), SocketCommand::Open.value()),
    ];
    assert(steps(plan@) =~= seq![
        clear_send_ok(socket@),
        write_reg(socket@, SocketRegister::LocalPort, be_bytes(port)),
        open_udp(socket@),
    ]);
    plan
}

/// The plan that opens `socket` as a UDP client of `port`: clear the `SendOk` interrupt, set
/// the destination port and open the socket for UDP.
pub fn udp_client_plan(socket: &UninitializedSocket, port: u16) -> (plan: Vec<Instruction>)
    ensures
        confined(steps(plan@), socket@),
        steps(plan@) == seq![
            clear_send_ok(socket@),
            write_reg(socket@, SocketRegister::DestinationPort, be_bytes(port)),
            open_udp(socket@),
        ],
{
    let s = socket.socket();
    let plan = vec![
        write_socket_byte(s, SocketRegister::Interrupt, Interrupt::SendOk.value()),
        write_socket_u16(s, SocketRegister::DestinationPort, port),
        write_socket_pair(s, SocketRegister::Mode, Protocol::UDP.value(), SocketCommand::Open.value()),
    ];
    assert(steps(plan@) =~= seq![
        clear_send_ok(socket@),
        write_reg(socket@, SocketRegister::DestinationPort, be_bytes(port)),
        open_udp(socket@),
    ]);
    plan
}

// ------------------------------------------------------------------------------ receiving

/// The size of the header that the chip puts before each datagram in the receive buffer: the
/// sender's address (4 bytes), its port (2 bytes) and the data's length (2 bytes).
pub const DATAGRAM_HEADER: u16 = 8;

/// Where a UDP receive stands.
#[derive(Copy, Clone, PartialEq, Eq, Structural, Debug)]
pub enum DatagramPhase {
    /// Nothing has run yet.
    Start,
    /// The interrupt mask has been read.
    Mask,
    /// The received size has been read until it settled.
    Size,
    /// The read pointer has been read.
    Pointer,
    /// The datagram's header has been read.
    Header,
    /// The data has been read and the buffer released.
    Received,
    /// There was nothing to receive.
    Nothing,
}

/// The state of a UDP receive.
pub struct UdpReceiveState {
    pub socket: Socket,
    pub capacity: nat,
    pub phase: DatagramPhase,
    pub size: u16,
    pub pointer: u16,
    pub ip: Seq<u8>,
    pub port: u16,
    pub length: nat,
}

/// The next stage of a UDP receive into a buffer of `capacity` bytes, given the results of the
/// last plan.
///
/// The interrupt mask register is read; unless its `RECEIVED_BIT` is set, there is nothing to
/// receive. The received size is read until it settles; if it is below `DATAGRAM_HEADER`,
/// there is nothing to receive. The read pointer is read, then the datagram's header at the
/// read pointer: the sender's address, its port and the data's length. As many bytes of the
/// data as fit the buffer are read from behind the header, the read pointer is moved past all
/// the received bytes, and the socket is told that the data is taken. The outcome is the
/// sender's address and port and the number of bytes read into the buffer.
pub open spec fn udp_receive_step(st: UdpReceiveState, rs: Seq<Seq<u8>>) -> (
    UdpReceiveState,
    StageView<Option<(Seq<u8>, u16, nat)>>,
) {
    let s = st.socket;
    let first = read_at(rs, 0);
    let rx = |offset: int| register_of(Block::RxBuffer(s), offset as u16);
    match st.phase {
        DatagramPhase::Start => (
            UdpReceiveState { phase: DatagramPhase::Mask, ..st },
            StageView::Run(seq![read_reg(s, SocketRegister::InterruptMask, 1)]),
        ),
        DatagramPhase::Mask => if byte_at(first, 0) & RECEIVED_BIT == 0 {
            (UdpReceiveState { phase: DatagramPhase::Nothing, ..st }, StageView::Finished(None))
        } else {
            (
                UdpReceiveState { phase: DatagramPhase::Size, ..st },
                StageView::Run(
                    seq![Step::ReadSettled(socket_reg(s, SocketRegister::RxReceivedSize))],
                ),
            )
        },
        DatagramPhase::Size => if u16_at(first, 0) < DATAGRAM_HEADER {
            (UdpReceiveState { phase: DatagramPhase::Nothing, ..st }, StageView::Finished(None))
        } else {
            (
                UdpReceiveState { phase: DatagramPhase::Pointer, size: u16_at(first, 0), ..st },
                StageView::Run(seq![read_reg(s, SocketRegister::RxReadPointer, 2)]),
            )
        },
        DatagramPhase::Pointer => {
            let p = u16_at(first, 0);
            (
                UdpReceiveState { phase: DatagramPhase::Header, pointer: p, ..st },
                StageView::Run(
                    seq![
                        Step::Read(rx(p as int), 4),
                        Step::Read(rx(p + 4), 2),
                        Step::Read(rx(p + 6), 2),
                    ],
                ),
            )
        },
        DatagramPhase::Header => {
            let length = min(st.capacity as int, u16_at(read_at(rs, 2), 0) as int) as nat;
            (
                UdpReceiveState {
                    phase: DatagramPhase::Received,
                    ip: Seq::new(4, |i: int| byte_at(first, i)),
                    port: u16_at(read_at(rs, 1), 0),
                    length,
                    ..st
                },
                StageView::Run(
                    seq![
                        Step::ReadData(rx(st.pointer + DATAGRAM_HEADER), length),
                        write_reg(
                            s,
                            SocketRegister::RxReadPointer,
                            be_bytes((st.pointer + st.size) as u16),
                        ),
                        command(s, SocketCommand::Recv),
                    ],
                ),
            )
        },
        DatagramPhase::Received => (st, StageView::Finished(Some((st.ip, st.port, st.length)))),
        DatagramPhase::Nothing => (st, StageView::Finished(None)),
    }
}

/// Whether a step of `st` with the results `rs` would move past the receive buffer's 16-bit
/// addresses: the read pointer plus the received size does not fit 16 bits.
pub open spec fn pointer_overflows(st: UdpReceiveState, rs: Seq<Seq<u8>>) -> bool {
    st.phase == DatagramPhase::Pointer && u16_at(read_at(rs, 0), 0) + st.size > u16::MAX
}

/// The outcome of a receive as sequences.
pub open spec fn datagram_outcome(r: Option<(IpAddress, u16, usize)>) -> Option<(Seq<u8>, u16, nat)> {
    match r {
        Some((ip, port, size)) => Some((ip.address@, port, size as nat)),
        None => None,
    }
}

/// The view of a stage that ends with a receive outcome.
pub open spec fn datagram_stage(stage: Stage<Option<(IpAddress, u16, usize)>>) -> StageView<
    Option<(Seq<u8>, u16, nat)>,
> {
    match stage {
        Stage::Run(plan) => StageView::Run(steps(plan@)),
        Stage::Finished(r) => StageView::Finished(datagram_outcome(r)),
    }
}

/// Receives a datagram from a UDP socket into a buffer, stage by stage.
pub struct UdpReceive {
    socket: Socket,
    capacity: usize,
    phase: DatagramPhase,
    size: u16,
    pointer: u16,
    ip: IpAddress,
    port: u16,
    length: usize,
}

impl View for UdpReceive {
    type V = UdpReceiveState;

    closed spec fn view(&self) -> UdpReceiveState {
        UdpReceiveState {
            socket: self.socket,
            capacity: self.capacity as nat,
            phase: self.phase,
            size: self.size,
            pointer: self.pointer,
            ip: self.ip.address@,
            port: self.port,
            length: self.length as nat,
        }
    }
}

impl UdpReceive {
    /// A datagram is at least as long as its header, and the receive buffer's addresses that
    /// the receive uses fit 16 bits.
    #[verifier::type_invariant]
    spec fn inv(self) -> bool {
        &&& (self.phase == DatagramPhase::Pointer || self.phase == DatagramPhase::Header
            || self.phase == DatagramPhase::Received) ==> self.size >= DATAGRAM_HEADER
        &&& (self.phase == DatagramPhase::Header || self.phase == DatagramPhase::Received)
            ==> self.pointer + self.size <= u16::MAX
    }

    /// Prepares to receive a datagram from `socket` into a buffer of `capacity` bytes.
    pub fn new(socket: &UdpSocket, capacity: usize) -> (receive: UdpReceive)
        ensures
            receive@ == (UdpReceiveState {
                socket: socket@,
                capacity: capacity as nat,
                phase: DatagramPhase::Start,
                size: 0,
                pointer: 0,
                ip: seq![0u8, 0u8, 0u8, 0u8],
                port: 0,
                length: 0,
            }),
    {
        UdpReceive {
            socket: socket.socket(),
            capacity,
            phase: DatagramPhase::Start,
            size: 0,
            pointer: 0,
            ip: IpAddress::new(0, 0, 0, 0),
            port: 0,
            length: 0,
        }
    }

    /// Whether the next step, with `results`, would move past the receive buffer's 16-bit
    /// addresses.
    pub fn overflows(&self, results: &Vec<Vec<u8>>) -> (overflows: bool)
        ensures
            overflows == pointer_overflows(self@, reads(results@)),
    {
        self.phase == DatagramPhase::Pointer && get_u16(get_read(results, 0), 0) as u32
            + self.size as u32 > u16::MAX as u32
    }

    /// Takes the results of the last plan and gives the next stage, as `udp_receive_step`
    /// describes.
    pub fn step(&mut self, results: &Vec<Vec<u8>>) -> (stage: Stage<Option<(IpAddress, u16, usize)>>)
        requires
            !pointer_overflows(old(self)@, reads(results@)),
        ensures
            (final(self)@, datagram_stage(stage)) == udp_receive_step(old(self)@, reads(results@)),
    {
        proof {
            use_type_invariant(&*self);
        }
        let s = self.socket;
        let first = get_read(results, 0);
        match self.phase {
            DatagramPhase::Start => {
                self.phase = DatagramPhase::Mask;
                let plan = vec![read_socket(s, SocketRegister::InterruptMask, 1)];
                assert(steps(plan@) =~= seq![read_reg(s, SocketRegister::InterruptMask, 1)]);
                Stage::Run(plan)
            },
            DatagramPhase::Mask => {
                if get_byte(first, 0) & RECEIVED_BIT == 0 {
                    self.phase = DatagramPhase::Nothing;
                    Stage::Finished(None)
                } else {
                    self.phase = DatagramPhase::Size;
                    let plan = vec![Instruction::ReadSettled(s.at(SocketRegister::RxReceivedSize))];
                    assert(steps(plan@) =~= seq![
                        Step::ReadSettled(socket_reg(s, SocketRegister::RxReceivedSize)),
                    ]);
                    Stage::Run(plan)
                }
            },
            DatagramPhase::Size => {
                let size = get_u16(first, 0);
                if size < DATAGRAM_HEADER {
                    self.phase = DatagramPhase::Nothing;
                    Stage::Finished(None)
                } else {
                    self.size = size;
                    self.phase = DatagramPhase::Pointer;
                    let plan = vec![read_socket(s, SocketRegister::RxReadPointer, 2)];
                    assert(steps(plan@) =~= seq![read_reg(s, SocketRegister::RxReadPointer, 2)]);
                    Stage::Run(plan)
                }
            },
            DatagramPhase::Pointer => {
                let pointer = get_u16(first, 0);
                self.pointer = pointer;
                self.phase = DatagramPhase::Header;
                let plan = vec![
                    Instruction::Read(s.rx_register_at(pointer), 4),
                    Instruction::Read(s.rx_register_at(pointer + 4), 2),
                    Instruction::Read(s.rx_register_at(pointer + 6), 2),
                ];
                assert(steps(plan@) =~= seq![
                    Step::Read(register_of(Block::RxBuffer(s), pointer), 4),
                    Step::Read(register_of(Block::RxBuffer(s), (pointer + 4) as u16), 2),
                    Step::Read(register_of(Block::RxBuffer(s), (pointer + 6) as u16), 2),
                ]);
                Stage::Run(plan)
            },
            DatagramPhase::Header => {
                self.ip = IpAddress::new(
                    get_byte(first, 0),
                    get_byte(first, 1),
                    get_byte(first, 2),
                    get_byte(first, 3),
                );
                self.port = get_u16(get_read(results, 1), 0);
                let declared = get_u16(get_read(results, 2), 0) as usize;
                let length = if self.capacity <= declared {
                    self.capacity
                } else {
                    declared
                };
                self.length = length;
                self.phase = DatagramPhase::Received;
                proof {
                    assert(self.pointer + self.size <= u16::MAX);
                }
                let plan = vec![
                    Instruction::ReadData(s.rx_register_at(self.pointer + DATAGRAM_HEADER), length),
                    write_socket_u16(s, SocketRegister::RxReadPointer, self.pointer + self.size),
                    write_socket_byte(s, SocketRegister::Command, SocketCommand::Recv.value()),
                ];
                proof {
                    assert(self.ip.address@ =~= Seq::new(4, |i: int| byte_at(read_at(reads(results@), 0), i)));
                }
                assert(steps(plan@) =~= seq![
                    Step::ReadData(
                        register_of(Block::RxBuffer(s), (self.pointer + DATAGRAM_HEADER) as u16),
                        length as nat,
                    ),
                    write_reg(s, SocketRegister::RxReadPointer, be_bytes((self.pointer + self.size) as u16)),
                    command(s, SocketCommand::Recv),
                ]);
                Stage::Run(plan)
            },
            DatagramPhase::Received => Stage::Finished(Some((self.ip, self.port, self.length))),
            DatagramPhase::Nothing => Stage::Finished(None),
        }
    }
}

// -------------------------------------------------------------------------------- sending

/// Where a UDP send stands.
#[derive(Copy, Clone, PartialEq, Eq, Structural, Debug)]
pub enum DispatchPhase {
    /// Nothing has run yet.
    Start,
    /// The local port has been read.
    PortRead,
    /// The datagram has been sent and the socket opened again.
    Sent,
}

/// The state of a UDP send.
pub struct UdpSendState {
    pub socket: Socket,
    pub host: Seq<u8>,
    pub host_port: u16,
    pub length: u16,
    pub phase: DispatchPhase,
}

/// The bytes from the local port register on that address a datagram: the local port, six
/// zero bytes for the destination MAC address, the host's address and the host's port.
pub open spec fn destination_block(local_port: u16, host: Seq<u8>, host_port: u16) -> Seq<u8> {
    be_bytes(local_port) + seq![0u8, 0u8, 0u8, 0u8, 0u8, 0u8] + host + be_bytes(host_port)
}

/// The next stage of sending a datagram of `length` bytes, given the results of the last plan.
///
/// The local port is read. Then the local port, a zero destination MAC address, the host's
/// address and the host's port are written in one go from the local port register on; two zero
/// bytes and the length are written from the transmit read pointer on; the data is written to
/// the start of the transmit buffer; the socket is told to send; the `SendOk` interrupt is
/// waited for and cleared; and the socket is opened for UDP again.
pub open spec fn udp_send_step(st: UdpSendState, rs: Seq<Seq<u8>>) -> (UdpSendState, StageView<()>) {
    let s = st.socket;
    match st.phase {
        DispatchPhase::Start => (
            UdpSendState { phase: DispatchPhase::PortRead, ..st },
            StageView::Run(seq![read_reg(s, SocketRegister::LocalPort, 2)]),
        ),
        DispatchPhase::PortRead => (
            UdpSendState { phase: DispatchPhase::Sent, ..st },
            StageView::Run(
                seq![
                    write_reg(
                        s,
                        SocketRegister::LocalPort,
                        destination_block(u16_at(read_at(rs, 0), 0), st.host, st.host_port),
                    ),
                    write_reg(s, SocketRegister::TxReadPointer, seq![0u8, 0u8] + be_bytes(st.length)),
                    Step::WriteData(register_of(Block::TxBuffer(s), 0), st.length as nat),
                    command(s, SocketCommand::Send),
                    await_send_ok(s),
                    open_udp(s),
                ],
            ),
        ),
        DispatchPhase::Sent => (st, StageView::Finished(())),
    }
}

/// Sends a datagram over a UDP socket, stage by stage.
pub struct UdpSend {
    socket: Socket,
    host: IpAddress,
    host_port: u16,
    length: u16,
    phase: DispatchPhase,
}

impl View for UdpSend {
    type V = UdpSendState;

    closed spec fn view(&self) -> UdpSendState {
        UdpSendState {
            socket: self.socket,
            host: self.host.address@,
            host_port: self.host_port,
            length: self.length,
            phase: self.phase,
        }
    }
}

impl UdpSend {
    /// Prepares to send `data_length` bytes of data to port `host_port` of `host` over
    /// `socket`; the length is cut to 16 bits.
    pub fn new(socket: &UdpSocket, host: &IpAddress, host_port: u16, data_length: usize) -> (send: UdpSend)
        ensures
            send@ == (UdpSendState {
                socket: socket@,
                host: host.address@,
                host_port,
                length: crate::tcp::send_length(data_length as nat),
                phase: DispatchPhase::Start,
            }),
    {
        let length = (data_length % 0x10000) as u16;
        UdpSend { socket: socket.socket(), host: *host, host_port, length, phase: DispatchPhase::Start }
    }

    /// How many bytes of the data the send writes.
    pub fn length(&self) -> (n: u16)
        ensures
            n == self@.length,
    {
        self.length
    }

    /// Takes the results of the last plan and gives the next stage, as `udp_send_step`
    /// describes.
    pub fn step(&mut self, results: &Vec<Vec<u8>>) -> (stage: Stage<()>)
        ensures
            (final(self)@, stage@) == udp_send_step(old(self)@, reads(results@)),
    {
        let s = self.socket;
        match self.phase {
            DispatchPhase::Start => {
                self.phase = DispatchPhase::PortRead;
                let plan = vec![read_socket(s, SocketRegister::LocalPort, 2)];
                assert(steps(plan@) =~= seq![read_reg(s, SocketRegister::LocalPort, 2)]);
                Stage::Run(plan)
            },
            DispatchPhase::PortRead => {
                let port_read = get_u16(get_read(results, 0), 0);
                let local_port = encode_u16(port_read);
                let host_port = encode_u16(self.host_port);
                let length = encode_u16(self.length);
                let host = self.host.address;
                self.phase = DispatchPhase::Sent;
                let block = vec![
                    local_port[0],
                    local_port[1],
                    0x00,
                    0x00,
                    0x00,
                    0x00,
                    0x00,
                    0x00,
                    host[0],
                    host[1],
                    host[2],
                    host[3],
                    host_port[0],
                    host_port[1],
                ];
                assert(block@ =~= destination_block(
                    port_read,
                    self.host.address@,
                    self.host_port,
                ));
                let pointers = vec![0x00, 0x00, length[0], length[1]];
                assert(pointers@ =~= seq![0u8, 0u8] + be_bytes(self.length));
                let plan = vec![
                    write_socket(s, SocketRegister::LocalPort, block),
                    write_socket(s, SocketRegister::TxReadPointer, pointers),
                    Instruction::WriteData(s.tx_register_at(0x00_00), self.length as usize),
                    write_socket_byte(s, SocketRegister::Command, SocketCommand::Send.value()),
                    Instruction::AwaitInterrupt(s, Interrupt::SendOk),
                    write_socket_pair(s, SocketRegister::Mode, Protocol::UDP.value(), SocketCommand::Open.value()),
                ];
                assert(steps(plan@) =~= seq![
                    write_reg(
                        s,
                        SocketRegister::LocalPort,
                        destination_block(u16_at(read_at(reads(results@), 0), 0), self.host.address@, self.host_port),
                    ),
                    write_reg(s, SocketRegister::TxReadPointer, seq![0u8, 0u8] + be_bytes(self.length)),
                    Step::WriteData(register_of(Block::TxBuffer(s), 0), self.length as nat),
                    command(s, SocketCommand::Send),
                    await_send_ok(s),
                    open_udp(s),
                ]);
                Stage::Run(plan)
            },
            DispatchPhase::Sent => Stage::Finished(()),
        }
    }
}

/// A UDP receive never reads more into the caller's buffer than the buffer holds.
pub proof fn lemma_udp_receive_stays_in_buffer(st: UdpReceiveState, rs: Seq<Seq<u8>>)
    ensures
        crate::tcp::reads_within(udp_receive_step(st, rs).1, st.capacity),
        udp_receive_step(st, rs).0.capacity == st.capacity,
{
}

/// A UDP send writes the data's length, cut to 16 bits, and announces that same length in the
/// transmit pointer registers.
pub proof fn lemma_udp_send_announces_length(st: UdpSendState, rs: Seq<Seq<u8>>)
    ensures
        crate::tcp::writes_exactly(udp_send_step(st, rs).1, st.length as nat),
        st.phase == DispatchPhase::PortRead ==> (udp_send_step(st, rs).1 matches StageView::Run(plan)
            && plan[1] == write_reg(
            st.socket,
            SocketRegister::TxReadPointer,
            seq![0u8, 0u8] + be_bytes(st.length),
        ) && plan[2] == Step::WriteData(register_of(Block::TxBuffer(st.socket), 0), st.length as nat)),
{
}

/// Every UDP procedure stays within its own socket's blocks: no plan that it asks for touches
/// the common registers or another socket.
pub proof fn lemma_udp_procedures_confined(receive: UdpReceiveState, send: UdpSendState, rs: Seq<Seq<u8>>)
    ensures
        stage_confined(udp_receive_step(receive, rs).1, receive.socket),
        stage_confined(udp_send_step(send, rs).1, send.socket),
{
}

/// A UDP receive goes on past the interrupt mask exactly when bit 2 of the mask byte, the
/// received-data bit, is set, whatever the other bits hold: then it asks for the settled
/// received size; with the bit clear it ends with nothing received.
pub proof fn lemma_udp_receive_follows_received_bit(st: UdpReceiveState, rs: Seq<Seq<u8>>)
    requires
        st.phase == DatagramPhase::Mask,
        rs.len() >= 1,
        rs[0].len() >= 1,
    ensures
        (udp_receive_step(st, rs).1 == StageView::<Option<(Seq<u8>, u16, nat)>>::Finished(None))
            <==> rs[0][0] & 4u8 == 0,
        rs[0][0] & 4u8 != 0 ==> udp_receive_step(st, rs).1
            == StageView::<Option<(Seq<u8>, u16, nat)>>::Run(
            seq![Step::ReadSettled(register_of(Block::Registers(st.socket), 0x0026))],
        ),
{
    assert(RECEIVED_BIT == 4u8) by (bit_vector);
    assert(read_at(rs, 0) == rs[0]);
}

/// Once a UDP receive has read the datagram's header at read pointer `p` (the sender's
/// address, its port and the data's declared length `d`), it reads `min(capacity, d)` bytes
/// from the receive buffer right behind the header, so never more than the datagram holds nor
/// more than the buffer takes; it moves the read pointer past all `size` received bytes,
/// issues `Recv`, and reports the sender's address and port and that same number of bytes.
pub proof fn lemma_udp_receive_takes_the_datagram(st: UdpReceiveState, rs: Seq<Seq<u8>>)
    requires
        st.phase == DatagramPhase::Header,
        st.pointer + st.size <= u16::MAX,
        rs.len() >= 3,
        rs[0].len() >= 4,
        rs[1].len() >= 2,
        rs[2].len() >= 2,
    ensures
        ({
            let d = rs[2][0] * 256 + rs[2][1];
            let taken = if st.capacity <= d { st.capacity as int } else { d };
            let (st1, stage) = udp_receive_step(st, rs);
            &&& taken <= d && taken <= st.capacity
            &&& stage matches StageView::Run(plan) && plan.len() == 3
                && plan[0] == Step::ReadData(
                register_of(Block::RxBuffer(st.socket), (st.pointer + 8) as u16),
                taken as nat,
            ) && (plan[1] matches Step::Write(r, bytes)
                && r == register_of(Block::Registers(st.socket), 0x0028) && bytes.len() == 2
                && bytes[0] * 256 + bytes[1] == st.pointer + st.size)
                && plan[2] == Step::Write(register_of(Block::Registers(st.socket), 0x0001), seq![0x40u8])
            &&& udp_receive_step(st1, rs).1 == StageView::Finished(
                Some((rs[0].subrange(0, 4), (rs[1][0] * 256 + rs[1][1]) as u16, taken as nat)),
            )
        }),
{
    let (st1, stage) = udp_receive_step(st, rs);
    assert(read_at(rs, 0) == rs[0]);
    assert(read_at(rs, 1) == rs[1]);
    assert(read_at(rs, 2) == rs[2]);
    assert(st1.ip =~= rs[0].subrange(0, 4));
    let q = (st.pointer + st.size) as int;
    assert(q == 256 * (q / 256) + q % 256);
}

} // verus!
