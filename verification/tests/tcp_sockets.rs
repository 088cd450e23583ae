use w5500::tcp::{
    is_established, next_local_port, tcp_disconnect_plan, tcp_server_plan, tcp_status_plan,
    TcpClientOpen, TcpReceive, TcpReconnect, TcpSend,
};
use w5500::{Instruction, Interrupt, IpAddress, Register, Socket, SocketStatus, Stage, W5500};

fn plan<R: std::fmt::Debug>(stage: Stage<R>) -> Vec<Instruction> {
    match stage {
        Stage::Run(plan) => plan,
        Stage::Finished(r) => panic!("finished early with {:?}", r),
    }
}

#[test]
fn server_socket_plan() {
    let mut chip = W5500::new();
    let socket = chip.take_socket(Socket::Socket1).unwrap();
    let r = |a| Register::Socket1Register(a);
    assert_eq!(
        tcp_server_plan(&socket, 8080),
        vec![
            Instruction::Write(r(0x02), vec![0x10]),
            Instruction::Write(r(0x04), vec![0x1F, 0x90]),
            Instruction::Write(r(0x00), vec![0x01, 0x01]),
            Instruction::AwaitStatus(Socket::Socket1, SocketStatus::Init, true),
            Instruction::Write(r(0x01), vec![0x02]),
            Instruction::AwaitStatus(Socket::Socket1, SocketStatus::Listen, true),
        ]
    );
    assert_eq!(socket.into_tcp().socket(), Socket::Socket1);
}

#[test]
fn client_socket_stages() {
    let mut chip = W5500::new();
    let socket = chip.take_socket(Socket::Socket0).unwrap();
    let r = |a| Register::Socket0Register(a);
    let mut open = TcpClientOpen::new(&socket, IpAddress::new(10, 0, 0, 9), 80);
    assert_eq!(
        plan(open.step(&mut chip, &vec![])),
        vec![
            Instruction::Write(r(0x02), vec![0x10]),
            Instruction::Read(r(0x19), 2),
            Instruction::Read(r(0x1B), 1),
        ]
    );
    assert!(!open.advances_local_port());
    assert_eq!(
        plan(open.step(&mut chip, &vec![vec![0x07, 0xD0], vec![8]])),
        vec![
            Instruction::Write(r(0x19), vec![0x00, 200]),
            Instruction::Write(r(0x1B), vec![3]),
            Instruction::Write(r(0x04), vec![0x9C, 0x40]),
        ]
    );
    assert!(open.advances_local_port());
    assert_eq!(
        plan(open.step(&mut chip, &vec![])),
        vec![
            Instruction::Write(r(0x10), vec![0, 80]),
            Instruction::Write(r(0x0C), vec![10, 0, 0, 9]),
            Instruction::Write(r(0x00), vec![0x01, 0x01]),
            Instruction::AwaitStatus(Socket::Socket0, SocketStatus::Init, true),
            Instruction::Write(r(0x01), vec![0x04]),
            Instruction::AwaitStatus(Socket::Socket0, SocketStatus::Established, true),
            Instruction::Write(r(0x19), vec![0x07, 0xD0]),
            Instruction::Write(r(0x1B), vec![8]),
        ]
    );
    assert_eq!(chip.local_port(), 40001);
    assert_eq!(open.step(&mut chip, &vec![]), Stage::Finished(()));
    assert_eq!(chip.local_port(), 40001);
}

fn receive_header(receive: &mut TcpReceive) {
    let r = |a| Register::Socket2Register(a);
    assert_eq!(plan(receive.step(&vec![])), vec![Instruction::Read(r(0x03), 1)]);
    assert_eq!(plan(receive.step(&vec![vec![0x17]])), vec![Instruction::Read(r(0x2C), 1)]);
    assert_eq!(plan(receive.step(&vec![vec![0x04]])), vec![Instruction::ReadSettled(r(0x26))]);
}

#[test]
fn receive_reads_what_fits_and_moves_the_pointer_past_all() {
    let mut chip = W5500::new();
    let socket = chip.take_socket(Socket::Socket2).unwrap().into_tcp();
    let r = |a| Register::Socket2Register(a);
    let mut receive = TcpReceive::new(&socket, 16);
    receive_header(&mut receive);
    assert_eq!(
        plan(receive.step(&vec![vec![0x00, 0x28]])),
        vec![Instruction::Read(r(0x28), 2), Instruction::Read(r(0x0C), 4), Instruction::Read(r(0x10), 2)]
    );
    assert_eq!(
        plan(receive.step(&vec![vec![0xFF, 0xF0], vec![192, 168, 0, 3], vec![0x1F, 0x90]])),
        vec![
            Instruction::ReadData(Register::Socket2RxBuffer(0xFFF0), 16),
            Instruction::Write(r(0x28), vec![0x00, 0x18]),
            Instruction::Write(r(0x01), vec![0x40]),
        ]
    );
    assert_eq!(receive.step(&vec![]), Stage::Finished(Some((IpAddress::new(192, 168, 0, 3), 8080, 40))));
}

#[test]
fn receive_finds_nothing() {
    let mut chip = W5500::new();
    let socket = chip.take_socket(Socket::Socket2).unwrap().into_tcp();
    let mut not_connected = TcpReceive::new(&socket, 16);
    plan(not_connected.step(&vec![]));
    assert_eq!(not_connected.step(&vec![vec![0x1C]]), Stage::Finished(None));
    assert_eq!(not_connected.step(&vec![]), Stage::Finished(None));

    let mut no_interrupt = TcpReceive::new(&socket, 16);
    plan(no_interrupt.step(&vec![]));
    plan(no_interrupt.step(&vec![vec![0x17]]));
    assert_eq!(no_interrupt.step(&vec![vec![0xFB]]), Stage::Finished(None));

    let mut empty = TcpReceive::new(&socket, 16);
    receive_header(&mut empty);
    assert_eq!(empty.step(&vec![vec![0, 0]]), Stage::Finished(None));
}

#[test]
fn send_writes_the_data_and_moves_the_write_pointer() {
    let mut chip = W5500::new();
    let socket = chip.take_socket(Socket::Socket3).unwrap().into_tcp();
    let r = |a| Register::Socket3Register(a);
    let mut send = TcpSend::new(&socket, 10);
    assert_eq!(send.length(), 10);
    assert_eq!(plan(send.step(&vec![])), vec![Instruction::Read(r(0x22), 2)]);
    assert_eq!(
        plan(send.step(&vec![vec![0x01, 0x00]])),
        vec![Instruction::WriteData(Register::Socket3TxBuffer(0x0100), 10), Instruction::Read(r(0x24), 2)]
    );
    assert_eq!(
        plan(send.step(&vec![vec![0xFF, 0xFA]])),
        vec![
            Instruction::Write(r(0x24), vec![0x00, 0x04]),
            Instruction::Write(r(0x01), vec![0x20]),
            Instruction::AwaitInterrupt(Socket::Socket3, Interrupt::SendOk),
        ]
    );
    assert_eq!(send.step(&vec![]), Stage::Finished(()));
}

#[test]
fn send_length_is_cut_to_sixteen_bits() {
    let mut chip = W5500::new();
    let socket = chip.take_socket(Socket::Socket3).unwrap().into_tcp();
    assert_eq!(TcpSend::new(&socket, 70000).length(), 4464);
}

#[test]
fn disconnect_and_status_plans() {
    let mut chip = W5500::new();
    let socket = chip.take_socket(Socket::Socket4).unwrap().into_tcp();
    assert_eq!(
        tcp_disconnect_plan(&socket),
        vec![
            Instruction::Write(Register::Socket4Register(1), vec![0x08]),
            Instruction::AwaitStatus(Socket::Socket4, SocketStatus::FinWait, false),
            Instruction::AwaitStatus(Socket::Socket4, SocketStatus::Closed, false),
        ]
    );
    assert_eq!(tcp_status_plan(&socket), vec![Instruction::Read(Register::Socket4Register(3), 1)]);
    assert!(is_established(&vec![vec![0x17]]));
    assert!(!is_established(&vec![vec![0x14]]));
    assert!(!is_established(&vec![]));
}

#[test]
fn following_local_ports() {
    assert_eq!(next_local_port(40000), 40001);
    assert_eq!(next_local_port(65534), 65535);
    assert_eq!(next_local_port(65535), 40000);
}

#[test]
fn reconnect_stages() {
    let mut chip = W5500::new();
    let socket = chip.take_socket(Socket::Socket5).unwrap().into_tcp();
    let r = |a| Register::Socket5Register(a);
    let mut connected = TcpReconnect::new(&socket);
    assert_eq!(plan(connected.step(&vec![])), vec![Instruction::Read(r(0x03), 1)]);
    assert_eq!(connected.step(&vec![vec![0x17]]), Stage::Finished(()));

    let mut reconnect = TcpReconnect::new(&socket);
    plan(reconnect.step(&vec![]));
    assert_eq!(
        plan(reconnect.step(&vec![vec![0x00]])),
        vec![Instruction::Read(r(0x19), 2), Instruction::Read(r(0x1B), 1)]
    );
    assert_eq!(
        plan(reconnect.step(&vec![vec![0x0F, 0xA0], vec![8]])),
        vec![
            Instruction::Write(r(0x19), vec![0x00, 200]),
            Instruction::Write(r(0x1B), vec![2]),
            Instruction::Read(r(0x04), 2),
        ]
    );
    assert_eq!(
        plan(reconnect.step(&vec![vec![0xFF, 0xFF]])),
        vec![
            Instruction::Write(r(0x02), vec![0x10]),
            Instruction::Write(r(0x04), vec![0x9C, 0x40]),
            Instruction::Write(r(0x00), vec![0x01, 0x01]),
            Instruction::AwaitStatus(Socket::Socket5, SocketStatus::Init, true),
            Instruction::Write(r(0x00), vec![0x01, 0x04]),
            Instruction::AwaitStatus(Socket::Socket5, SocketStatus::Established, true),
            Instruction::Write(r(0x19), vec![0x0F, 0xA0]),
            Instruction::Write(r(0x1B), vec![8]),
        ]
    );
    assert_eq!(reconnect.step(&vec![]), Stage::Finished(()));
}
