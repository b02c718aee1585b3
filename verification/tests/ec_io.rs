use fancontrol::ec_io::{
    ec_init, ec_io_do, ec_io_read, ec_io_wait, ec_query_cpu_temp, ec_query_fan_duty,
    ec_write_fan_duty, Command, EcIo, Outcome, Phase, Poll, PortOp, Request, State, EC_DATA,
    EC_FAN_INDEX, EC_REG_CPU_TEMP, EC_REG_FAN_DUTY, EC_SC, EC_SC_FAN_CMD, EC_SC_READ_CMD, IBF,
    MAX_POLLS, MAX_READ_STEPS, MAX_WRITE_STEPS, POLL_INTERVAL_MICROS,
};

const BUSY: u8 = 0x02;
const READY: u8 = 0x00;

const POLL: Request = Request::Perform(PortOp::In { port: 0x66 });
const PAUSE: Request = Request::Perform(PortOp::Sleep { micros: 1000 });

/// Runs a transfer against a controller whose status port answers by
/// `status(number of the poll, counted from 0)` and whose data port holds
/// `data`. Returns the operations asked for and the outcome.
fn drive(mut io: EcIo, status: impl Fn(usize) -> u8, data: u8) -> (Vec<PortOp>, Outcome) {
    let mut ops = Vec::new();
    let mut polls = 0;
    loop {
        match io.request() {
            Request::Finished(outcome) => return (ops, outcome),
            Request::Perform(op) => {
                assert!(ops.len() < 1000, "the transfer does not end");
                ops.push(op);
                let reply = match op {
                    PortOp::In { port: 0x66 } => {
                        polls += 1;
                        status(polls - 1)
                    }
                    PortOp::In { .. } => data,
                    _ => 0xA5,
                };
                io = io.advance(reply);
            }
        }
    }
}

fn count_polls(ops: &[PortOp]) -> usize {
    ops.iter().filter(|op| matches!(op, PortOp::In { port: 0x66 })).count()
}

fn count_sleeps(ops: &[PortOp]) -> usize {
    ops.iter().filter(|op| matches!(op, PortOp::Sleep { .. })).count()
}

fn bytes_sent(ops: &[PortOp]) -> Vec<(u16, u8)> {
    ops.iter()
        .filter_map(|op| match op {
            PortOp::Out { port, value } => Some((*port, *value)),
            _ => None,
        })
        .collect()
}

#[test]
fn protocol_constants() {
    assert_eq!(EC_SC, 0x66);
    assert_eq!(EC_DATA, 0x62);
    assert_eq!(IBF, 1);
    assert_eq!(EC_SC_READ_CMD, 0x80);
    assert_eq!(EC_SC_FAN_CMD, 0x99);
    assert_eq!(EC_FAN_INDEX, 0x01);
    assert_eq!(EC_REG_FAN_DUTY, 0xCE);
    assert_eq!(EC_REG_CPU_TEMP, 0x07);
    assert_eq!(MAX_POLLS, 100);
    assert_eq!(POLL_INTERVAL_MICROS, 1000);
    assert_eq!(MAX_WRITE_STEPS, 799);
    assert_eq!(MAX_READ_STEPS, 600);
}

#[test]
fn access_needs_both_ports() {
    assert!(ec_init(0, 0));
    assert!(!ec_init(-1, 0));
    assert!(!ec_init(0, -1));
    assert!(!ec_init(-1, -1));
    assert!(!ec_init(1, 0));
    assert!(!ec_init(0, i32::MIN));
}

#[test]
fn poll_looks_at_the_input_buffer_bit_only() {
    assert_eq!(ec_io_wait(0, 0x00), Poll::Ready);
    assert_eq!(ec_io_wait(0, 0x01), Poll::Ready);
    assert_eq!(ec_io_wait(0, 0xFD), Poll::Ready);
    assert_eq!(ec_io_wait(0, 0x02), Poll::Retry);
    assert_eq!(ec_io_wait(0, 0x03), Poll::Retry);
    assert_eq!(ec_io_wait(0, 0xFF), Poll::Retry);
}

#[test]
fn poll_gives_up_at_the_hundredth() {
    assert_eq!(ec_io_wait(98, BUSY), Poll::Retry);
    assert_eq!(ec_io_wait(99, BUSY), Poll::GiveUp);
    assert_eq!(ec_io_wait(100, BUSY), Poll::GiveUp);
    assert_eq!(ec_io_wait(255, BUSY), Poll::GiveUp);
    assert_eq!(ec_io_wait(99, READY), Poll::Ready);
    assert_eq!(ec_io_wait(255, READY), Poll::Ready);
}

#[test]
fn transfers_begin_before_their_first_poll() {
    let begin = State::Polling { phase: Phase::Opcode, polls: 0 };
    assert_eq!(
        ec_io_do(0x99, 0x01, 0x7F),
        EcIo { command: Command::Write { cmd: 0x99, port: 0x01, value: 0x7F }, state: begin }
    );
    assert_eq!(ec_io_read(0x07), EcIo { command: Command::Read { port: 0x07 }, state: begin });
    assert_eq!(EcIo::new(Command::Read { port: 9 }), ec_io_read(9));
    assert_eq!(ec_io_do(1, 2, 3).request(), POLL);
    assert_eq!(ec_io_read(1).request(), POLL);
}

#[test]
fn fan_duty_is_written_as_a_raw_value_under_the_fan_opcode() {
    assert_eq!(ec_write_fan_duty(50), ec_io_do(0x99, 0x01, 127));
    assert_eq!(ec_write_fan_duty(0), ec_io_do(0x99, 0x01, 0));
    assert_eq!(ec_write_fan_duty(52), ec_io_do(0x99, 0x01, 132));
    assert_eq!(ec_write_fan_duty(100), ec_io_do(0x99, 0x01, 255));
    assert_eq!(ec_write_fan_duty(180), ec_io_do(0x99, 0x01, 255));
}

#[test]
fn queries_read_their_registers() {
    assert_eq!(ec_query_cpu_temp(), ec_io_read(0x07));
    assert_eq!(ec_query_fan_duty(), ec_io_read(0xCE));
}

#[test]
fn write_to_a_ready_controller() {
    let (ops, outcome) = drive(ec_io_do(0x99, 0x01, 0x84), |_| READY, 0);
    assert_eq!(outcome, Outcome::Written);
    assert_eq!(
        ops,
        vec![
            PortOp::In { port: 0x66 },
            PortOp::Out { port: 0x66, value: 0x99 },
            PortOp::In { port: 0x66 },
            PortOp::Out { port: 0x62, value: 0x01 },
            PortOp::In { port: 0x66 },
            PortOp::Out { port: 0x62, value: 0x84 },
            PortOp::In { port: 0x66 },
        ]
    );
}

#[test]
fn read_from_a_ready_controller() {
    let (ops, outcome) = drive(ec_query_cpu_temp(), |_| READY, 57);
    assert_eq!(outcome, Outcome::Value(57));
    assert_eq!(
        ops,
        vec![
            PortOp::In { port: 0x66 },
            PortOp::Out { port: 0x66, value: 0x80 },
            PortOp::In { port: 0x66 },
            PortOp::Out { port: 0x62, value: 0x07 },
            PortOp::In { port: 0x66 },
            PortOp::In { port: 0x62 },
        ]
    );
    let (_, outcome) = drive(ec_query_fan_duty(), |_| 0x01, 0xCE);
    assert_eq!(outcome, Outcome::Value(0xCE));
}

#[test]
fn driver_timeout() {
    let (ops, outcome) = drive(ec_write_fan_duty(50), |_| BUSY, 0);
    assert_eq!(outcome, Outcome::TimedOut);
    assert_eq!(count_polls(&ops), 100);
    assert_eq!(count_sleeps(&ops), 99);
    assert_eq!(ops.len(), 199);
    assert!(bytes_sent(&ops).is_empty());
    for (i, op) in ops.iter().enumerate() {
        let expected =
            if i % 2 == 0 { PortOp::In { port: 0x66 } } else { PortOp::Sleep { micros: 1000 } };
        assert_eq!(*op, expected, "operation {i}");
    }
}

#[test]
fn read_times_out_like_a_write() {
    let (ops, outcome) = drive(ec_query_cpu_temp(), |_| 0xFF, 0);
    assert_eq!(outcome, Outcome::TimedOut);
    assert_eq!(count_polls(&ops), 100);
    assert!(bytes_sent(&ops).is_empty());
    assert!(!ops.contains(&PortOp::In { port: 0x62 }));
}

#[test]
fn controller_that_answers_at_the_last_poll_is_served() {
    let (ops, outcome) = drive(ec_io_do(0x99, 0x01, 0x10), |n| if n % 100 == 99 { READY } else { BUSY }, 0);
    assert_eq!(outcome, Outcome::Written);
    assert_eq!(count_polls(&ops), 400);
    assert_eq!(count_sleeps(&ops), 396);
    assert_eq!(ops.len(), 799);
    assert_eq!(bytes_sent(&ops), vec![(0x66, 0x99), (0x62, 0x01), (0x62, 0x10)]);
}

#[test]
fn every_wait_has_its_own_patience() {
    let (ops, outcome) = drive(ec_io_do(0x99, 0x01, 0x10), |n| if n % 61 == 60 { READY } else { BUSY }, 0);
    assert_eq!(outcome, Outcome::Written);
    assert_eq!(count_polls(&ops), 244);
    assert_eq!(bytes_sent(&ops), vec![(0x66, 0x99), (0x62, 0x01), (0x62, 0x10)]);
}

#[test]
fn controller_that_hangs_midway_ends_the_transfer() {
    let (ops, outcome) = drive(ec_io_do(0x99, 0x01, 0x10), |n| if n < 2 { READY } else { BUSY }, 0);
    assert_eq!(outcome, Outcome::TimedOut);
    assert_eq!(bytes_sent(&ops), vec![(0x66, 0x99), (0x62, 0x01)]);
    assert_eq!(count_polls(&ops), 102);

    let (ops, outcome) = drive(ec_io_do(0x99, 0x01, 0x10), |n| if n < 3 { READY } else { BUSY }, 0);
    assert_eq!(outcome, Outcome::TimedOut);
    assert_eq!(bytes_sent(&ops), vec![(0x66, 0x99), (0x62, 0x01), (0x62, 0x10)]);
    assert_eq!(count_polls(&ops), 103);

    let (ops, outcome) = drive(ec_io_read(0xCE), |n| if n < 2 { READY } else { BUSY }, 0x42);
    assert_eq!(outcome, Outcome::TimedOut);
    assert_eq!(bytes_sent(&ops), vec![(0x66, 0x80), (0x62, 0xCE)]);
    assert!(!ops.contains(&PortOp::In { port: 0x62 }));
}

#[test]
fn sleep_comes_between_two_polls() {
    let (ops, outcome) = drive(ec_io_read(0x07), |n| if n == 0 || n == 1 { BUSY } else { READY }, 1);
    assert_eq!(outcome, Outcome::Value(1));
    assert_eq!(
        ops[..6],
        [
            PortOp::In { port: 0x66 },
            PortOp::Sleep { micros: 1000 },
            PortOp::In { port: 0x66 },
            PortOp::Sleep { micros: 1000 },
            PortOp::In { port: 0x66 },
            PortOp::Out { port: 0x66, value: 0x80 },
        ]
    );
}

#[test]
fn states_of_a_wait() {
    let io = ec_io_read(0x07);
    let io = io.advance(BUSY);
    assert_eq!(io.state, State::Pausing { phase: Phase::Opcode, polls: 1 });
    assert_eq!(io.request(), PAUSE);
    let io = io.advance(READY);
    assert_eq!(io.state, State::Polling { phase: Phase::Opcode, polls: 1 });
    assert_eq!(io.request(), POLL);
    let io = io.advance(READY);
    assert_eq!(io.state, State::Moving { phase: Phase::Opcode });
    let io = io.advance(BUSY);
    assert_eq!(io.state, State::Polling { phase: Phase::Index, polls: 0 });
}

#[test]
fn finished_transfer_stays_finished() {
    let (_, outcome) = drive(ec_io_read(0x07), |_| READY, 33);
    assert_eq!(outcome, Outcome::Value(33));
    let done = EcIo { command: Command::Read { port: 0x07 }, state: State::Done(Outcome::Value(33)) };
    for reply in [0u8, 2, 255] {
        let still = done.advance(reply);
        assert_eq!(still, done);
        assert_eq!(still.request(), Request::Finished(Outcome::Value(33)));
    }
    let failed = EcIo { command: Command::Write { cmd: 1, port: 2, value: 3 }, state: State::Done(Outcome::TimedOut) };
    assert_eq!(failed.advance(0), failed);
    assert_eq!(failed.request(), Request::Finished(Outcome::TimedOut));
}

#[test]
fn every_transfer_ends_within_its_bound() {
    let patterns: [fn(usize) -> u8; 5] = [
        |_| BUSY,
        |_| READY,
        |n| if n % 100 == 99 { READY } else { BUSY },
        |n| if n % 2 == 0 { BUSY } else { READY },
        |n| if n % 7 == 0 { READY } else { BUSY },
    ];
    for status in patterns {
        let (ops, _) = drive(ec_io_do(0x99, 0x01, 0x10), status, 0);
        assert!(ops.len() <= 799);
        let (ops, _) = drive(ec_io_read(0x07), status, 0);
        assert!(ops.len() <= 600);
    }
}

#[test]
fn slowest_read_that_still_succeeds() {
    let (ops, outcome) = drive(ec_io_read(0x07), |n| if n % 100 == 99 { READY } else { BUSY }, 9);
    assert_eq!(outcome, Outcome::Value(9));
    assert_eq!(ops.len(), 600);
    assert_eq!(count_polls(&ops), 300);
    assert_eq!(count_sleeps(&ops), 297);
}

#[test]
fn replay_of_a_stuck_controller() {
    let stuck = [BUSY; 199];
    let end = ec_write_fan_duty(50).replay(&stuck);
    assert_eq!(end.request(), Request::Finished(Outcome::TimedOut));
    let almost = ec_write_fan_duty(50).replay(&stuck[..198]);
    assert_eq!(almost.state, State::Polling { phase: Phase::Opcode, polls: 99 });
    assert_eq!(almost.request(), POLL);
    assert_eq!(almost.advance(READY).state, State::Moving { phase: Phase::Opcode });
}

#[test]
fn replay_of_a_ready_controller() {
    let end = ec_io_do(0x99, 0x01, 0x40).replay(&[READY; 7]);
    assert_eq!(end.request(), Request::Finished(Outcome::Written));
    let end = ec_io_read(0xCE).replay(&[READY, 0, READY, 0, READY, 0x55]);
    assert_eq!(end.request(), Request::Finished(Outcome::Value(0x55)));
    let begun = ec_io_read(0xCE);
    assert_eq!(begun.replay(&[]), begun);
    let end = ec_io_read(0xCE).replay(&[READY, 0, READY, 0, READY, 0x55, BUSY, BUSY]);
    assert_eq!(end.request(), Request::Finished(Outcome::Value(0x55)));
}
