//! The chip as a whole: its bookkeeping of sockets and local ports, and the plans that set up
//! its common registers.

use crate::address::IpAddress;
use crate::address::MacAddress;
use crate::program::{byte_at, get_byte, get_read, read_at, reads, socket_reg, steps, Instruction, Step};
use crate::register::{register_of, status_of, Block, Register, Socket, SocketRegister, SocketStatus};
use vstd::prelude::*;
use vstd::slice::slice_to_vec;

verus! {

/// Whether the chip raises an interrupt on a Wake-on-LAN magic packet.
#[derive(Copy, Clone, PartialOrd, PartialEq, Eq, Structural, Debug)]
pub enum OnWakeOnLan {
    InvokeInterrupt,
    Ignore,
}

/// Whether the chip answers pings.
#[derive(Copy, Clone, PartialOrd, PartialEq, Eq, Structural, Debug)]
pub enum OnPingRequest {
    Respond,
    Ignore,
}

/// Use `ConnectionType::PPoE` when talking to an ADSL modem. Otherwise use
/// `ConnectionType::Ethernet`.
#[derive(Copy, Clone, PartialOrd, PartialEq, Eq, Structural, Debug)]
pub enum ConnectionType {
    PPoE,
    Ethernet,
}

/// Whether the chip keeps ARP answers or drops them after use.
#[derive(Copy, Clone, PartialOrd, PartialEq, Eq, Structural, Debug)]
pub enum ArpResponses {
    Cache,
    DropAfterUse,
}

/// The mode register's value for the given options: bit 5 to raise an interrupt on
/// Wake-on-LAN, bit 4 to ignore pings, bit 3 for PPPoE, bit 1 to drop ARP answers after use;
/// every other bit is clear.
pub open spec fn mode_value(
    wol: OnWakeOnLan,
    ping: OnPingRequest,
    mode: ConnectionType,
    arp: ArpResponses,
) -> u8 {
    ((if wol is InvokeInterrupt {
        0x20int
    } else {
        0
    }) + (if ping is Ignore {
        0x10int
    } else {
        0
    }) + (if mode is PPoE {
        0x08int
    } else {
        0
    }) + (if arp is DropAfterUse {
        0x02int
    } else {
        0
    })) as u8
}

/// Each option of the mode register has a bit of its own: the value tells every option back,
/// and the bits that no option uses stay clear.
pub proof fn lemma_mode_bits(wol: OnWakeOnLan, ping: OnPingRequest, mode: ConnectionType, arp: ArpResponses)
    ensures
        mode_value(wol, ping, mode, arp) & 0x20 != 0 <==> wol is InvokeInterrupt,
        mode_value(wol, ping, mode, arp) & 0x10 != 0 <==> ping is Ignore,
        mode_value(wol, ping, mode, arp) & 0x08 != 0 <==> mode is PPoE,
        mode_value(wol, ping, mode, arp) & 0x02 != 0 <==> arp is DropAfterUse,
        mode_value(wol, ping, mode, arp) & 0xC5 == 0,
{
    let v = mode_value(wol, ping, mode, arp);
    let (a, b, c, d) = (wol is InvokeInterrupt, ping is Ignore, mode is PPoE, arp is DropAfterUse);
    assert(v == (if a { 0x20u8 } else { 0 }) + (if b { 0x10u8 } else { 0 }) + (if c { 0x08u8 } else { 0 }) + (if d { 0x02u8 } else { 0 }));
    assert({
        &&& v & 0x20 != 0 <==> a
        &&& v & 0x10 != 0 <==> b
        &&& v & 0x08 != 0 <==> c
        &&& v & 0x02 != 0 <==> d
        &&& v & 0xC5 == 0
    }) by (bit_vector)
        requires
            v == (if a { 0x20u8 } else { 0 }) + (if b { 0x10u8 } else { 0 }) + (if c { 0x08u8 } else { 0 }) + (if d { 0x02u8 } else { 0 }),
    ;
}

/// The common register at `offset`.
pub open spec fn common(offset: u16) -> Register {
    register_of(Block::Common, offset)
}

/// The plan that sets the chip's mode register from the given options.
pub fn update_operation_mode(
    wol: OnWakeOnLan,
    ping: OnPingRequest,
    mode: ConnectionType,
    arp: ArpResponses,
) -> (plan: Vec<Instruction>)
    ensures
        steps(plan@) == seq![Step::Write(common(0x0000), seq![mode_value(wol, ping, mode, arp)])],
{
    let mut value: u8 = 0x00;
    if let OnWakeOnLan::InvokeInterrupt = wol {
        value |= 1 << 5;
        assert(value == 0x20) by (bit_vector)
            requires
                value == 0u8 | (1u8 << 5u8),
        ;
    }
    let ghost v1 = value;
    if let OnPingRequest::Ignore = ping {
        value |= 1 << 4;
        assert(value == v1 + 0x10) by (bit_vector)
            requires
                v1 == 0 || v1 == 0x20,
                value == v1 | (1u8 << 4u8),
        ;
    }
    let ghost v2 = value;
    if let ConnectionType::PPoE = mode {
        value |= 1 << 3;
        assert(value == v2 + 0x08) by (bit_vector)
            requires
                v2 == 0 || v2 == 0x20 || v2 == 0x10 || v2 == 0x30,
                value == v2 | (1u8 << 3u8),
        ;
    }
    let ghost v3 = value;
    if let ArpResponses::DropAfterUse = arp {
        value |= 1 << 1;
        assert(v3 % 8 == 0);
        assert(value == v3 + 0x02) by (bit_vector)
            requires
                v3 % 8 == 0,
                value == v3 | (1u8 << 1u8),
        ;
    }
    assert(value == mode_value(wol, ping, mode, arp));
    let data = vec![value];
    assert(data@ =~= seq![value]);
    let plan = vec![Instruction::Write(Register::CommonRegister(0x00_00_u16), data)];
    assert(steps(plan@) =~= seq![
        Step::Write(common(0x0000), seq![mode_value(wol, ping, mode, arp)]),
    ]);
    plan
}

/// The plan that resets the chip: it sets the reset bit of the mode register.
pub fn reset() -> (plan: Vec<Instruction>)
    ensures
        steps(plan@) == seq![Step::Write(common(0x0000), seq![0b1000_0000u8])],
{
    let data = vec![0b1000_0000u8];
    assert(data@ =~= seq![0b1000_0000u8]);
    let plan = vec![Instruction::Write(Register::CommonRegister(0x00_00_u16), data)];
    assert(steps(plan@) =~= seq![Step::Write(common(0x0000), seq![0b1000_0000u8])]);
    plan
}

fn write_address(offset: u16, bytes: &[u8]) -> (plan: Vec<Instruction>)
    ensures
        steps(plan@) == seq![Step::Write(common(offset), bytes@)],
{
    let plan = vec![Instruction::Write(Register::CommonRegister(offset), slice_to_vec(bytes))];
    assert(steps(plan@) =~= seq![Step::Write(common(offset), bytes@)]);
    plan
}

/// The plan that sets the gateway address.
pub fn set_gateway(gateway: IpAddress) -> (plan: Vec<Instruction>)
    ensures
        steps(plan@) == seq![Step::Write(common(0x0001), gateway.address@)],
{
    write_address(0x00_01_u16, &gateway.address)
}

/// The plan that sets the subnet mask.
pub fn set_subnet(subnet: IpAddress) -> (plan: Vec<Instruction>)
    ensures
        steps(plan@) == seq![Step::Write(common(0x0005), subnet.address@)],
{
    write_address(0x00_05_u16, &subnet.address)
}

/// The plan that sets the chip's MAC address.
pub fn set_mac(mac: MacAddress) -> (plan: Vec<Instruction>)
    ensures
        steps(plan@) == seq![Step::Write(common(0x0009), mac.address@)],
{
    write_address(0x00_09_u16, &mac.address)
}

/// The plan that sets the chip's IP address.
pub fn set_ip(ip: IpAddress) -> (plan: Vec<Instruction>)
    ensures
        steps(plan@) == seq![Step::Write(common(0x000F), ip.address@)],
{
    write_address(0x00_0F_u16, &ip.address)
}

/// The plan that reads the four bytes of an IPv4 address from `register` on.
pub fn read_ip(register: Register) -> (plan: Vec<Instruction>)
    ensures
        steps(plan@) == seq![Step::Read(register, 4)],
{
    let plan = vec![Instruction::Read(register, 4)];
    assert(steps(plan@) =~= seq![Step::Read(register, 4)]);
    plan
}

/// The address that the first read of `results` holds; missing bytes are zero.
pub fn ip_read(results: &Vec<Vec<u8>>) -> (ip: IpAddress)
    ensures
        ip.address@ == Seq::new(4, |i: int| byte_at(read_at(reads(results@), 0), i)),
{
    let bytes = get_read(results, 0);
    let ip = IpAddress::new(get_byte(bytes, 0), get_byte(bytes, 1), get_byte(bytes, 2), get_byte(bytes, 3));
    assert(ip.address@ =~= Seq::new(4, |i: int| byte_at(read_at(reads(results@), 0), i)));
    ip
}

/// The plan that reads the PHY configuration register, whose bit 0 tells whether the link is
/// up.
pub fn has_link() -> (plan: Vec<Instruction>)
    ensures
        steps(plan@) == seq![Step::Read(common(0x002E), 1)],
{
    let plan = vec![Instruction::Read(Register::CommonRegister(0x00_2E_u16), 1)];
    assert(steps(plan@) =~= seq![Step::Read(common(0x002E), 1)]);
    plan
}

/// Whether the PHY configuration byte that the first read of `results` holds reports the link
/// as up: its bit 0 is set.
pub fn link_up(results: &Vec<Vec<u8>>) -> (up: bool)
    ensures
        up == (byte_at(read_at(reads(results@), 0), 0) & 1 != 0),
{
    let state = get_byte(get_read(results, 0), 0);
    let bit: u8 = 1 << 0;
    assert(bit == 1) by (bit_vector)
        requires
            bit == 1u8 << 0u8,
    ;
    state & bit != 0
}

/// The plan that clears `interrupt` of `socket`: it writes the interrupt's mask to the
/// socket's interrupt register.
pub fn reset_interrupt(socket: Socket, interrupt: crate::register::Interrupt) -> (plan: Vec<Instruction>)
    ensures
        steps(plan@) == seq![
            Step::Write(socket_reg(socket, SocketRegister::Interrupt), seq![interrupt.mask()]),
        ],
{
    let data = vec![interrupt.value()];
    assert(data@ =~= seq![interrupt.mask()]);
    let plan = vec![Instruction::Write(socket.at(SocketRegister::Interrupt), data)];
    assert(steps(plan@) =~= seq![
        Step::Write(socket_reg(socket, SocketRegister::Interrupt), seq![interrupt.mask()]),
    ]);
    plan
}

/// The plan that reads the status register of `socket`.
pub fn socket_status(socket: Socket) -> (plan: Vec<Instruction>)
    ensures
        steps(plan@) == seq![Step::Read(socket_reg(socket, SocketRegister::Status), 1)],
{
    let plan = vec![Instruction::Read(socket.at(SocketRegister::Status), 1)];
    assert(steps(plan@) =~= seq![Step::Read(socket_reg(socket, SocketRegister::Status), 1)]);
    plan
}

/// The state that the status byte in the first read of `results` reports.
pub fn status_read(results: &Vec<Vec<u8>>) -> (status: SocketStatus)
    ensures
        status == status_of(byte_at(read_at(reads(results@), 0), 0)),
{
    SocketStatus::from_u8(get_byte(get_read(results, 0), 0))
}

/// The local port that the first client socket gets.
pub const FIRST_LOCAL_PORT: u16 = 40000;

/// The bit that stands for `socket` in the byte of available sockets.
pub open spec fn socket_bit(socket: Socket) -> u8 {
    1u8 << (socket.index() as u8)
}

/// Each socket has a bit of its own among the eight bits of the byte of available sockets.
pub proof fn lemma_socket_bits(a: Socket, b: Socket)
    ensures
        socket_bit(a) != 0,
        socket_bit(a) & socket_bit(b) != 0 <==> a == b,
{
    let (i, j) = (a.index() as u8, b.index() as u8);
    assert(i < 8 && j < 8);
    assert(1u8 << i != 0 && ((1u8 << i) & (1u8 << j) != 0 <==> i == j)) by (bit_vector)
        requires
            i < 8,
            j < 8,
    ;
}

/// The driver's bookkeeping: the local port that the next client socket gets, and which
/// sockets are still free to take.
pub struct DeviceState {
    pub local_port: u16,
    pub available: Set<Socket>,
}

/// A W5500 chip: the local port for the next client socket, and one bit per socket that tells
/// whether the socket is still free to take.
pub struct W5500 {
    local_port: u16,
    sockets: u8,
}

impl View for W5500 {
    type V = DeviceState;

    closed spec fn view(&self) -> DeviceState {
        DeviceState {
            local_port: self.local_port,
            available: Set::new(|s: Socket| self.sockets & socket_bit(s) != 0),
        }
    }
}

/// Every socket.
pub open spec fn all_sockets() -> Set<Socket> {
    Set::new(|s: Socket| true)
}

/// Clearing one socket's bit leaves the others as they are.
proof fn lemma_clear_bit(x: u8, a: u8, b: u8)
    requires
        a < 8,
        b < 8,
    ensures
        (x & !(1u8 << a)) & (1u8 << b) != 0 <==> (a != b && x & (1u8 << b) != 0),
        x & (1u8 << a) == (1u8 << a) <==> x & (1u8 << a) != 0,
        0xFFu8 & (1u8 << a) != 0,
{
    assert((x & !(1u8 << a)) & (1u8 << b) != 0 <==> (a != b && x & (1u8 << b) != 0))
        by (bit_vector)
        requires
            a < 8,
            b < 8,
    ;
    assert(x & (1u8 << a) == (1u8 << a) <==> x & (1u8 << a) != 0) by (bit_vector)
        requires
            a < 8,
    ;
    assert(0xFFu8 & (1u8 << a) != 0) by (bit_vector)
        requires
            a < 8,
    ;
}

impl W5500 {
    /// A chip with every socket free and the first local port for client sockets.
    pub fn new() -> (w5500: W5500)
        ensures
            w5500@.local_port == FIRST_LOCAL_PORT,
            w5500@.available == all_sockets(),
    {
        let w5500 = W5500 { local_port: 40000, sockets: 0xFF };
        assert forall|s: Socket| #[trigger] w5500@.available.contains(s) by {
            lemma_clear_bit(0xFF, s.index() as u8, s.index() as u8);
        }
        assert(w5500@.available =~= all_sockets());
        w5500
    }

    /// The local port that the next client socket gets.
    pub fn local_port(&self) -> (port: u16)
        ensures
            port == self@.local_port,
    {
        self.local_port
    }

    /// Takes `socket` if it is still free: it is then no longer free, and comes back as an
    /// uninitialized socket. A socket that is taken already gives `None`.
    pub fn take_socket(&mut self, socket: Socket) -> (taken: Option<UninitializedSocket>)
        ensures
            final(self)@ == after_take(old(self)@, socket),
            taken is Some <==> old(self)@.available.contains(socket),
            taken matches Some(t) ==> t@ == socket,
    {
        let mask: u8 = 0x01 << socket.number();
        let ghost i = socket.index() as u8;
        assert(mask == 1u8 << i) by (bit_vector)
            requires
                mask == 1u8 << (i as usize),
        ;
        proof {
            lemma_clear_bit(self.sockets, i, i);
        }
        if self.sockets & mask == mask {
            let ghost old_sockets = self.sockets;
            self.sockets &= !mask;
            proof {
                assert forall|s: Socket| #[trigger] self@.available.contains(s) <==> old(
                    self,
                )@.available.contains(s) && s != socket by {
                    lemma_clear_bit(old_sockets, i, s.index() as u8);
                }
                assert(self@.available =~= old(self)@.available.remove(socket));
            }
            Some(UninitializedSocket(socket))
        } else {
            assert(old(self)@.available.remove(socket) =~= old(self)@.available);
            None
        }
    }

    /// The bookkeeping after the write of the reset plan: once the write went through, every
    /// socket is free again; after a failed write nothing changes. The local port stays either
    /// way.
    pub fn reset_written(&mut self, written: bool)
        ensures
            final(self)@ == (if written {
                DeviceState { available: all_sockets(), ..old(self)@ }
            } else {
                old(self)@
            }),
    {
        if written {
            self.sockets = 0xFF;
            assert forall|s: Socket| #[trigger] self@.available.contains(s) by {
                lemma_clear_bit(0xFF, s.index() as u8, s.index() as u8);
            }
            assert(self@.available =~= all_sockets());
        }
    }

    /// Moves on to the next local port for client sockets.
    pub fn advance_local_port(&mut self)
        requires
            old(self)@.local_port < u16::MAX,
        ensures
            final(self)@.local_port == old(self)@.local_port + 1,
            final(self)@.available == old(self)@.available,
    {
        self.local_port = self.local_port + 1;
    }
}

/// The bookkeeping after an attempt to take `socket`: a free socket is no longer free; if it was
/// taken already, nothing changes.
pub open spec fn after_take(state: DeviceState, socket: Socket) -> DeviceState {
    DeviceState { available: state.available.remove(socket), ..state }
}

/// A socket is handed out at most once: after it is taken, taking it again gives nothing, and
/// the other sockets stay as free as they were.
pub proof fn lemma_socket_taken_once(state: DeviceState, socket: Socket, other: Socket)
    ensures
        !after_take(state, socket).available.contains(socket),
        other != socket ==> (after_take(state, socket).available.contains(other)
            == state.available.contains(other)),
        after_take(after_take(state, socket), socket) == after_take(state, socket),
{
    assert(after_take(state, socket).available.remove(socket) =~= after_take(
        state,
        socket,
    ).available);
}

/// A socket that is taken, before it is opened as a TCP or UDP socket.
#[derive(Debug)]
pub struct UninitializedSocket(Socket);

/// A socket opened for TCP.
#[derive(Debug)]
pub struct TcpSocket(Socket);

/// A socket opened for UDP.
#[derive(Debug)]
pub struct UdpSocket(Socket);

impl View for UninitializedSocket {
    type V = Socket;

    closed spec fn view(&self) -> Socket {
        self.0
    }
}

impl View for TcpSocket {
    type V = Socket;

    closed spec fn view(&self) -> Socket {
        self.0
    }
}

impl View for UdpSocket {
    type V = Socket;

    closed spec fn view(&self) -> Socket {
        self.0
    }
}

impl UninitializedSocket {
    /// The chip's socket.
    pub fn socket(&self) -> (s: Socket)
        ensures
            s == self@,
    {
        self.0
    }

    /// The socket as a TCP socket, once the plan that opens it for TCP has run.
    pub fn into_tcp(self) -> (s: TcpSocket)
        ensures
            s@ == self@,
    {
        TcpSocket(self.0)
    }

    /// The socket as a UDP socket, once the plan that opens it for UDP has run.
    pub fn into_udp(self) -> (s: UdpSocket)
        ensures
            s@ == self@,
    {
        UdpSocket(self.0)
    }
}

impl TcpSocket {
    /// The chip's socket.
    pub fn socket(&self) -> (s: Socket)
        ensures
            s == self@,
    {
        self.0
    }
}

impl UdpSocket {
    /// The chip's socket.
    pub fn socket(&self) -> (s: Socket)
        ensures
            s == self@,
    {
        self.0
    }
}

} // verus!
