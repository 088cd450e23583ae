use w5500::program::INTERRUPT_ATTEMPTS;
use w5500::{Action, Instruction, Interrupt, Register, Runner, Socket, SocketStatus};

#[test]
fn plain_steps_run_in_order_and_keep_reads() {
    let plan = vec![
        Instruction::Write(Register::CommonRegister(1), vec![1, 2]),
        Instruction::Read(Register::CommonRegister(2), 2),
        Instruction::WriteData(Register::Socket0TxBuffer(0), 5),
        Instruction::ReadData(Register::Socket0RxBuffer(9), 3),
    ];
    let mut runner = Runner::new(plan);
    assert_eq!(runner.next(&[]), Action::Write(Register::CommonRegister(1), vec![1, 2]));
    assert_eq!(runner.next(&[]), Action::Read(Register::CommonRegister(2), 2));
    assert_eq!(runner.next(&[7, 8]), Action::WriteData(Register::Socket0TxBuffer(0), 5));
    assert_eq!(runner.next(&[]), Action::ReadData(Register::Socket0RxBuffer(9), 3));
    assert_eq!(runner.next(&[]), Action::Done);
    assert_eq!(runner.next(&[]), Action::Done);
    assert_eq!(runner.into_results(), vec![vec![7, 8]]);
}

#[test]
fn an_empty_plan_is_done_at_once() {
    let mut runner = Runner::new(vec![]);
    assert_eq!(runner.next(&[]), Action::Done);
    assert!(runner.results().is_empty());
}

#[test]
fn a_status_wait_yields_until_the_status_shows() {
    let mut runner = Runner::new(vec![Instruction::AwaitStatus(Socket::Socket1, SocketStatus::Init, true)]);
    let status = Register::Socket1Register(3);
    assert_eq!(runner.next(&[]), Action::Read(status, 1));
    assert_eq!(runner.next(&[0x00]), Action::Yield);
    assert_eq!(runner.next(&[]), Action::Read(status, 1));
    assert_eq!(runner.next(&[0x13]), Action::Done);
}

#[test]
fn a_status_wait_while_yields_until_the_status_changes() {
    let mut runner = Runner::new(vec![Instruction::AwaitStatus(Socket::Socket1, SocketStatus::FinWait, false)]);
    let status = Register::Socket1Register(3);
    assert_eq!(runner.next(&[]), Action::Read(status, 1));
    assert_eq!(runner.next(&[0x18]), Action::Yield);
    assert_eq!(runner.next(&[]), Action::Read(status, 1));
    assert_eq!(runner.next(&[0x00]), Action::Done);
}

#[test]
fn an_interrupt_wait_clears_the_interrupt() {
    let mut runner = Runner::new(vec![Instruction::AwaitInterrupt(Socket::Socket2, Interrupt::SendOk)]);
    let interrupt = Register::Socket2Register(2);
    assert_eq!(runner.next(&[]), Action::Read(interrupt, 1));
    assert_eq!(runner.next(&[0x01]), Action::Yield);
    assert_eq!(runner.next(&[]), Action::Read(interrupt, 1));
    assert_eq!(runner.next(&[0x11]), Action::Write(interrupt, vec![0x10]));
    assert_eq!(runner.next(&[]), Action::Done);
}

#[test]
fn an_interrupt_wait_gives_up() {
    let mut runner = Runner::new(vec![Instruction::AwaitInterrupt(Socket::Socket2, Interrupt::SendOk)]);
    let interrupt = Register::Socket2Register(2);
    let mut reads = 0u32;
    let mut action = runner.next(&[]);
    loop {
        match action {
            Action::Read(r, 1) => {
                assert_eq!(r, interrupt);
                reads += 1;
                action = runner.next(&[0x00]);
            }
            Action::Yield => action = runner.next(&[]),
            Action::Done => break,
            other => panic!("unexpected {:?}", other),
        }
    }
    assert_eq!(reads, INTERRUPT_ATTEMPTS);
    assert_eq!(INTERRUPT_ATTEMPTS, 0xFFFF);
}

#[test]
fn a_settled_read_waits_for_two_equal_reads() {
    let size = Register::Socket0Register(0x26);
    let mut runner = Runner::new(vec![Instruction::ReadSettled(size)]);
    assert_eq!(runner.next(&[]), Action::Read(size, 2));
    assert_eq!(runner.next(&[0, 5]), Action::Read(size, 2));
    assert_eq!(runner.next(&[0, 9]), Action::Read(size, 2));
    assert_eq!(runner.next(&[0, 9]), Action::Read(size, 2));
    assert_eq!(runner.next(&[0, 9]), Action::Done);
    assert_eq!(runner.into_results(), vec![vec![0, 9]]);
}
