use w5500::device::{
    has_link, ip_read, link_up, read_ip, reset, reset_interrupt, set_gateway, set_ip, set_mac,
    set_subnet, socket_status, status_read, update_operation_mode,
};
use w5500::{
    ArpResponses, ConnectionType, Instruction, Interrupt, IpAddress, MacAddress, OnPingRequest,
    OnWakeOnLan, Register, Socket, SocketStatus, W5500,
};

#[test]
fn a_new_chip_has_every_socket_free() {
    let mut chip = W5500::new();
    assert_eq!(chip.local_port(), 40000);
    for socket in [Socket::Socket0, Socket::Socket3, Socket::Socket7] {
        assert_eq!(chip.take_socket(socket).unwrap().socket(), socket);
    }
}

#[test]
fn a_socket_is_taken_once() {
    let mut chip = W5500::new();
    assert!(chip.take_socket(Socket::Socket2).is_some());
    assert!(chip.take_socket(Socket::Socket2).is_none());
    assert!(chip.take_socket(Socket::Socket1).is_some());
    assert!(chip.take_socket(Socket::Socket3).is_some());
}

#[test]
fn a_written_reset_frees_every_socket() {
    let mut chip = W5500::new();
    assert!(chip.take_socket(Socket::Socket4).is_some());
    chip.reset_written(true);
    assert!(chip.take_socket(Socket::Socket4).is_some());
    assert_eq!(chip.local_port(), 40000);
}

#[test]
fn a_failed_reset_frees_nothing() {
    let mut chip = W5500::new();
    assert!(chip.take_socket(Socket::Socket4).is_some());
    chip.reset_written(false);
    assert!(chip.take_socket(Socket::Socket4).is_none());
    assert!(chip.take_socket(Socket::Socket5).is_some());
}

#[test]
fn advancing_the_local_port() {
    let mut chip = W5500::new();
    chip.advance_local_port();
    assert_eq!(chip.local_port(), 40001);
}

#[test]
fn operation_mode_bits() {
    assert_eq!(
        update_operation_mode(
            OnWakeOnLan::Ignore,
            OnPingRequest::Respond,
            ConnectionType::Ethernet,
            ArpResponses::Cache
        ),
        vec![Instruction::Write(Register::CommonRegister(0), vec![0x00])]
    );
    assert_eq!(
        update_operation_mode(
            OnWakeOnLan::InvokeInterrupt,
            OnPingRequest::Ignore,
            ConnectionType::PPoE,
            ArpResponses::DropAfterUse
        ),
        vec![Instruction::Write(Register::CommonRegister(0), vec![0b0011_1010])]
    );
    assert_eq!(
        update_operation_mode(
            OnWakeOnLan::Ignore,
            OnPingRequest::Ignore,
            ConnectionType::Ethernet,
            ArpResponses::Cache
        ),
        vec![Instruction::Write(Register::CommonRegister(0), vec![0b0001_0000])]
    );
}

#[test]
fn reset_sets_the_reset_bit() {
    assert_eq!(reset(), vec![Instruction::Write(Register::CommonRegister(0), vec![0x80])]);
}

#[test]
fn common_address_registers() {
    let ip = IpAddress::new(10, 0, 0, 2);
    assert_eq!(set_gateway(ip), vec![Instruction::Write(Register::CommonRegister(0x01), vec![10, 0, 0, 2])]);
    assert_eq!(set_subnet(ip), vec![Instruction::Write(Register::CommonRegister(0x05), vec![10, 0, 0, 2])]);
    assert_eq!(set_ip(ip), vec![Instruction::Write(Register::CommonRegister(0x0F), vec![10, 0, 0, 2])]);
    let mac = MacAddress::new(1, 2, 3, 4, 5, 6);
    assert_eq!(set_mac(mac), vec![Instruction::Write(Register::CommonRegister(0x09), vec![1, 2, 3, 4, 5, 6])]);
}

#[test]
fn reading_an_address() {
    assert_eq!(read_ip(Register::Socket0Register(0x0C)), vec![Instruction::Read(Register::Socket0Register(0x0C), 4)]);
    assert_eq!(ip_read(&vec![vec![192, 168, 1, 7]]), IpAddress::new(192, 168, 1, 7));
    assert_eq!(ip_read(&vec![vec![192, 168]]), IpAddress::new(192, 168, 0, 0));
}

#[test]
fn link_state() {
    assert_eq!(has_link(), vec![Instruction::Read(Register::CommonRegister(0x2E), 1)]);
    assert!(link_up(&vec![vec![0b1011_1001]]));
    assert!(!link_up(&vec![vec![0b1011_1000]]));
}

#[test]
fn socket_status_and_interrupts() {
    assert_eq!(socket_status(Socket::Socket3), vec![Instruction::Read(Register::Socket3Register(3), 1)]);
    assert_eq!(status_read(&vec![vec![0x14]]), SocketStatus::Listen);
    assert_eq!(
        reset_interrupt(Socket::Socket3, Interrupt::Timeout),
        vec![Instruction::Write(Register::Socket3Register(2), vec![0x08])]
    );
}
