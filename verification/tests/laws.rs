use std::collections::HashSet;
use w5500::tcp::{tcp_server_plan, TcpReceive};
use w5500::udp::udp_server_plan;
use w5500::{Instruction, Register, Socket, SocketStatus, Stage, W5500};

fn all_blocks(offset: u16) -> Vec<Register> {
    vec![
        Register::CommonRegister(offset),
        Register::Socket0Register(offset),
        Register::Socket0TxBuffer(offset),
        Register::Socket0RxBuffer(offset),
        Register::Socket1Register(offset),
        Register::Socket1TxBuffer(offset),
        Register::Socket1RxBuffer(offset),
        Register::Socket2Register(offset),
        Register::Socket2TxBuffer(offset),
        Register::Socket2RxBuffer(offset),
        Register::Socket3Register(offset),
        Register::Socket3TxBuffer(offset),
        Register::Socket3RxBuffer(offset),
        Register::Socket4Register(offset),
        Register::Socket4TxBuffer(offset),
        Register::Socket4RxBuffer(offset),
        Register::Socket5Register(offset),
        Register::Socket5TxBuffer(offset),
        Register::Socket5RxBuffer(offset),
        Register::Socket6Register(offset),
        Register::Socket6TxBuffer(offset),
        Register::Socket6RxBuffer(offset),
        Register::Socket7Register(offset),
        Register::Socket7TxBuffer(offset),
        Register::Socket7RxBuffer(offset),
    ]
}

#[test]
fn every_frame_header_names_one_access() {
    let mut seen = HashSet::new();
    for offset in [0u16, 1, 0x28, 0xFFFF] {
        for register in all_blocks(offset) {
            assert!(seen.insert(register.read_header()));
            assert!(seen.insert(register.write_header()));
        }
    }
    assert_eq!(seen.len(), 4 * 25 * 2);
}

#[test]
fn no_two_status_bytes_read_alike() {
    let mut seen = HashSet::new();
    for n in 0..=255u8 {
        assert!(seen.insert(format!("{:?}", SocketStatus::from_u8(n))));
    }
}

fn socket_of(register: Register) -> Option<usize> {
    let block = register.control_byte() >> 3;
    if block == 0 {
        None
    } else {
        Some((block / 4) as usize)
    }
}

#[test]
fn socket_plans_stay_within_their_socket() {
    let mut chip = W5500::new();
    let socket = chip.take_socket(Socket::Socket6).unwrap();
    for plan in [tcp_server_plan(&socket, 1), udp_server_plan(&socket, 2)] {
        for instruction in plan {
            match instruction {
                Instruction::Write(r, _) | Instruction::Read(r, _) => assert_eq!(socket_of(r), Some(6)),
                Instruction::AwaitStatus(s, _, _) | Instruction::AwaitInterrupt(s, _) => {
                    assert_eq!(s, Socket::Socket6)
                }
                other => panic!("unexpected {:?}", other),
            }
        }
    }
}

#[test]
fn a_receive_with_room_to_spare_reads_all() {
    let mut chip = W5500::new();
    let socket = chip.take_socket(Socket::Socket0).unwrap().into_tcp();
    let mut receive = TcpReceive::new(&socket, 1024);
    receive.step(&vec![]);
    receive.step(&vec![vec![0x17]]);
    receive.step(&vec![vec![0x04]]);
    receive.step(&vec![vec![0x00, 0x05]]);
    match receive.step(&vec![vec![0x00, 0x10], vec![1, 2, 3, 4], vec![0, 7]]) {
        Stage::Run(plan) => {
            assert_eq!(plan[0], Instruction::ReadData(Register::Socket0RxBuffer(0x10), 5));
            assert_eq!(plan[1], Instruction::Write(Register::Socket0Register(0x28), vec![0x00, 0x15]));
        }
        other => panic!("unexpected {:?}", other),
    }
}
