use w5500::udp::{udp_client_plan, udp_server_plan, UdpReceive, UdpSend};
use w5500::{Instruction, Interrupt, IpAddress, Register, Socket, Stage, W5500};

fn plan<R: std::fmt::Debug>(stage: Stage<R>) -> Vec<Instruction> {
    match stage {
        Stage::Run(plan) => plan,
        Stage::Finished(r) => panic!("finished early with {:?}", r),
    }
}

#[test]
fn server_and_client_plans() {
    let mut chip = W5500::new();
    let server = chip.take_socket(Socket::Socket6).unwrap();
    let r = |a| Register::Socket6Register(a);
    assert_eq!(
        udp_server_plan(&server, 5353),
        vec![
            Instruction::Write(r(0x02), vec![0x10]),
            Instruction::Write(r(0x04), vec![0x14, 0xE9]),
            Instruction::Write(r(0x00), vec![0x02, 0x01]),
        ]
    );
    assert_eq!(
        udp_client_plan(&server, 53),
        vec![
            Instruction::Write(r(0x02), vec![0x10]),
            Instruction::Write(r(0x10), vec![0x00, 0x35]),
            Instruction::Write(r(0x00), vec![0x02, 0x01]),
        ]
    );
}

#[test]
fn receive_a_datagram() {
    let mut chip = W5500::new();
    let socket = chip.take_socket(Socket::Socket7).unwrap().into_udp();
    let r = |a| Register::Socket7Register(a);
    let rx = |a| Register::Socket7RxBuffer(a);
    let mut receive = UdpReceive::new(&socket, 4);
    assert_eq!(plan(receive.step(&vec![])), vec![Instruction::Read(r(0x2C), 1)]);
    assert_eq!(plan(receive.step(&vec![vec![0x04]])), vec![Instruction::ReadSettled(r(0x26))]);
    assert_eq!(plan(receive.step(&vec![vec![0x00, 0x10]])), vec![Instruction::Read(r(0x28), 2)]);
    let results = vec![vec![0x01, 0x00]];
    assert!(!receive.overflows(&results));
    assert_eq!(
        plan(receive.step(&results)),
        vec![Instruction::Read(rx(0x0100), 4), Instruction::Read(rx(0x0104), 2), Instruction::Read(rx(0x0106), 2)]
    );
    assert_eq!(
        plan(receive.step(&vec![vec![10, 0, 0, 1], vec![0x14, 0xE9], vec![0x00, 0x08]])),
        vec![
            Instruction::ReadData(rx(0x0108), 4),
            Instruction::Write(r(0x28), vec![0x01, 0x10]),
            Instruction::Write(r(0x01), vec![0x40]),
        ]
    );
    assert_eq!(receive.step(&vec![]), Stage::Finished(Some((IpAddress::new(10, 0, 0, 1), 5353, 4))));
}

#[test]
fn receive_finds_nothing_or_too_little() {
    let mut chip = W5500::new();
    let socket = chip.take_socket(Socket::Socket7).unwrap().into_udp();
    let mut no_data = UdpReceive::new(&socket, 4);
    plan(no_data.step(&vec![]));
    assert_eq!(no_data.step(&vec![vec![0x00]]), Stage::Finished(None));
    let mut short = UdpReceive::new(&socket, 4);
    plan(short.step(&vec![]));
    plan(short.step(&vec![vec![0x04]]));
    assert_eq!(short.step(&vec![vec![0x00, 0x07]]), Stage::Finished(None));
}

#[test]
fn receive_pointer_past_the_end_is_flagged() {
    let mut chip = W5500::new();
    let socket = chip.take_socket(Socket::Socket7).unwrap().into_udp();
    let mut receive = UdpReceive::new(&socket, 4);
    plan(receive.step(&vec![]));
    plan(receive.step(&vec![vec![0x04]]));
    plan(receive.step(&vec![vec![0x00, 0x10]]));
    assert!(receive.overflows(&vec![vec![0xFF, 0xF8]]));
    assert!(!receive.overflows(&vec![vec![0xFF, 0xEF]]));
}

#[test]
fn send_a_datagram() {
    let mut chip = W5500::new();
    let socket = chip.take_socket(Socket::Socket6).unwrap().into_udp();
    let r = |a| Register::Socket6Register(a);
    let host = IpAddress::new(192, 168, 0, 255);
    let mut send = UdpSend::new(&socket, &host, 5354, 3);
    assert_eq!(send.length(), 3);
    assert_eq!(plan(send.step(&vec![])), vec![Instruction::Read(r(0x04), 2)]);
    assert_eq!(
        plan(send.step(&vec![vec![0x14, 0xE9]])),
        vec![
            Instruction::Write(r(0x04), vec![0x14, 0xE9, 0, 0, 0, 0, 0, 0, 192, 168, 0, 255, 0x14, 0xEA]),
            Instruction::Write(r(0x22), vec![0, 0, 0, 3]),
            Instruction::WriteData(Register::Socket6TxBuffer(0), 3),
            Instruction::Write(r(0x01), vec![0x20]),
            Instruction::AwaitInterrupt(Socket::Socket6, Interrupt::SendOk),
            Instruction::Write(r(0x00), vec![0x02, 0x01]),
        ]
    );
    assert_eq!(send.step(&vec![]), Stage::Finished(()));
}
