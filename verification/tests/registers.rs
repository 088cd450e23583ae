use w5500::endian::{decode_u16, encode_u16};
use w5500::{Interrupt, Protocol, Register, Socket, SocketCommand, SocketRegister, SocketStatus};

#[test]
fn control_bytes_select_the_blocks() {
    assert_eq!(Register::CommonRegister(0).control_byte(), 0b00000_000);
    assert_eq!(Register::Socket0Register(0).control_byte(), 0b00001_000);
    assert_eq!(Register::Socket0TxBuffer(0).control_byte(), 0b00010_000);
    assert_eq!(Register::Socket0RxBuffer(0).control_byte(), 0b00011_000);
    assert_eq!(Register::Socket3Register(0).control_byte(), 0b01101_000);
    assert_eq!(Register::Socket7RxBuffer(0).control_byte(), 0b11111_000);
}

#[test]
fn sockets_name_their_blocks() {
    assert_eq!(Socket::Socket5.register_at(0x28), Register::Socket5Register(0x28));
    assert_eq!(Socket::Socket2.tx_register_at(0x1234), Register::Socket2TxBuffer(0x1234));
    assert_eq!(Socket::Socket6.rx_register_at(7), Register::Socket6RxBuffer(7));
    assert_eq!(Socket::Socket1.at(SocketRegister::Status), Register::Socket1Register(0x0003));
    assert_eq!(Socket::Socket1.at(SocketRegister::Status).address(), 3);
}

#[test]
fn socket_numbers() {
    assert_eq!(Socket::Socket0.number(), 0);
    assert_eq!(Socket::Socket4.number(), 4);
    assert_eq!(Socket::Socket7.number(), 7);
}

#[test]
fn register_values() {
    assert_eq!(SocketRegister::Mode.value(), 0x00);
    assert_eq!(SocketRegister::LocalPort.value(), 0x04);
    assert_eq!(SocketRegister::RetryTimeRegister.value(), 0x19);
    assert_eq!(SocketRegister::KeepAliveTimer.value(), 0x2F);
    assert_eq!(Interrupt::SendOk.value(), 0x10);
    assert_eq!(Interrupt::Connected.value(), 0x01);
    assert_eq!(Protocol::UDP.value(), 0b0010);
    assert_eq!(SocketCommand::Recv.value(), 0x40);
    assert_eq!(SocketCommand::SendKeep.value(), 0x22);
}

#[test]
fn frame_headers() {
    assert_eq!(Register::Socket1Register(0x0028).read_header(), [0x00, 0x28, 0b00101_000]);
    assert_eq!(Register::Socket1Register(0x0028).write_header(), [0x00, 0x28, 0b00101_100]);
    assert_eq!(Register::CommonRegister(0x1234).write_header(), [0x12, 0x34, 0b100]);
}

#[test]
fn status_codes() {
    assert_eq!(SocketStatus::from_u8(0x00), SocketStatus::Closed);
    assert_eq!(SocketStatus::from_u8(0x13), SocketStatus::Init);
    assert_eq!(SocketStatus::from_u8(0x17), SocketStatus::Established);
    assert_eq!(SocketStatus::from_u8(0x42), SocketStatus::MacRaw);
    assert_eq!(SocketStatus::from_u8(0x19), SocketStatus::Unknown(0x19));
    assert_eq!(SocketStatus::from_u8(0xFF), SocketStatus::Unknown(0xFF));
}

#[test]
fn big_endian_values() {
    assert_eq!(encode_u16(40000), [0x9C, 0x40]);
    assert_eq!(decode_u16(&[0x9C, 0x40, 0x77]), 40000);
    assert_eq!(decode_u16(&encode_u16(0xBEEF)), 0xBEEF);
}

#[test]
fn sockets_order_by_number() {
    assert!(Socket::Socket1 < Socket::Socket5);
    assert!(Socket::Socket0 <= Socket::Socket0);
    assert!(Socket::Socket7 > Socket::Socket6);
    assert_eq!(Socket::Socket3.partial_cmp(&Socket::Socket3), Some(std::cmp::Ordering::Equal));
    assert_eq!(Socket::Socket2.partial_cmp(&Socket::Socket4), Some(std::cmp::Ordering::Less));
}
