//! The embedded controller's host interface.
//!
//! The controller is reached through two 8-bit I/O ports: one for commands
//! and status, one for data. Before every byte the host waits until the
//! controller reports that its input buffer is empty. A register write is:
//! wait, send the opcode to the command port, wait, send the register index to
//! the data port, wait, send the value to the data port, wait once more to see
//! the value taken. A register read is: wait, send the read opcode, wait, send
//! the register index, wait, fetch the value from the data port.
//!
//! A wait polls the status port, sleeping a millisecond between polls. After
//! `MAX_POLLS` polls that found the buffer full, the wait gives up and the
//! whole transfer with it: a controller that hangs must not hang the daemon.
//!
//! Nothing here touches a port. A transfer is a value of [`EcIo`] that names
//! the next port operation ([`EcIo::request`]) and moves on when handed the
//! byte that the operation read ([`EcIo::advance`]).

use vstd::prelude::*;

verus! {

/// The command and status port.
pub const EC_SC: u16 = 0x66;

/// The data port.
pub const EC_DATA: u16 = 0x62;

/// Number of the status bit that is set while the controller's input buffer
/// is full.
pub const IBF: u8 = 1;

/// Opcode that asks for a register's value.
pub const EC_SC_READ_CMD: u8 = 0x80;

/// Opcode that sets a fan's duty.
pub const EC_SC_FAN_CMD: u8 = 0x99;

/// Index of the fan under `EC_SC_FAN_CMD`.
pub const EC_FAN_INDEX: u8 = 0x01;

/// Register that holds the raw fan duty.
pub const EC_REG_FAN_DUTY: u8 = 0xCE;

/// Register that holds the CPU temperature in degrees Celsius.
pub const EC_REG_CPU_TEMP: u8 = 0x07;

/// Number of polls after which a wait gives up.
pub const MAX_POLLS: u8 = 100;

/// Microseconds to sleep between two polls.
pub const POLL_INTERVAL_MICROS: u64 = 1000;

/// Largest number of operations that a write asks for.
pub const MAX_WRITE_STEPS: u32 = 799;

/// Largest number of operations that a read asks for.
pub const MAX_READ_STEPS: u32 = 600;

/// Largest value of the raw fan-duty register; it stands for full speed.
pub const RAW_DUTY_MAX: u8 = 255;

/// Largest duty in percent.
pub const PERCENT_MAX: u8 = 100;

/// The duty in percent that a raw register value stands for: `raw / 255 * 100`,
/// rounded to the nearest whole percent.
pub open spec fn pct_of_raw(raw: int) -> int {
    (raw * 100 + 127) / 255
}

/// The raw register value that commands a duty: `pct / 100 * 255`, rounded
/// down. A duty above 100 percent commands full speed.
pub open spec fn raw_of_pct(pct: int) -> int {
    if pct >= 100 {
        255
    } else {
        pct * 255 / 100
    }
}

/// Converts a raw fan-duty register value to percent.
pub fn calculate_fan_duty(raw_duty: u8) -> (pct: u8)
    ensures
        pct == pct_of_raw(raw_duty as int),
        pct <= PERCENT_MAX,
        // `pct` is the whole number nearest to `raw_duty * 100 / 255`
        -255 < 2 * (255 * pct - 100 * raw_duty) < 255,
{
    let scaled: u32 = raw_duty as u32 * 100 + 127;
    (scaled / 255) as u8
}

/// Converts a duty in percent to the raw value of the fan-duty register.
pub fn calculate_raw_duty(percent: u8) -> (raw: u8)
    ensures
        raw == raw_of_pct(percent as int),
        // for a duty of at most 100, `raw` is `percent * 255 / 100` rounded down
        percent <= PERCENT_MAX ==> 100 * raw <= 255 * percent < 100 * (raw + 1),
{
    if percent >= PERCENT_MAX {
        RAW_DUTY_MAX
    } else {
        (percent as u32 * 255 / 100) as u8
    }
}

/// A duty in percent survives the trip to the raw register and back: the
/// value read back differs from the one written by at most one point. (With
/// these two roundings it does not differ at all.)
pub proof fn lemma_percent_round_trip(pct: int)
    requires
        0 <= pct <= 100,
    ensures
        pct - 1 <= pct_of_raw(raw_of_pct(pct)) <= pct + 1,
        pct_of_raw(raw_of_pct(pct)) == pct,
        0 <= raw_of_pct(pct) <= 255,
{
}

/// Whether a status byte says that the controller's input buffer is full:
/// whether its bit number `IBF`, the one that counts 2, is set.
pub open spec fn input_buffer_full(status: u8) -> bool {
    (status / 2) % 2 == 1
}

/// What one poll of the status port decides.
#[derive(Clone, Copy, Debug, PartialEq, Eq, Structural)]
pub enum Poll {
    /// The input buffer is empty: the next byte may go.
    Ready,
    /// The buffer is full: sleep, then poll again.
    Retry,
    /// The buffer is full and this was the last poll.
    GiveUp,
}

/// The verdict of a poll that read `status`, after `polls` earlier polls of
/// the same wait found the buffer full.
pub open spec fn poll_verdict(polls: int, status: u8) -> Poll {
    if !input_buffer_full(status) {
        Poll::Ready
    } else if polls + 1 >= MAX_POLLS {
        Poll::GiveUp
    } else {
        Poll::Retry
    }
}

/// Decides one poll of a wait: `status` is the byte just read from the status
/// port, `polls` the number of earlier polls of this wait, all of which found
/// the buffer full.
pub fn ec_io_wait(polls: u8, status: u8) -> (verdict: Poll)
    ensures
        verdict == poll_verdict(polls as int, status),
{
    assert(((status >> IBF) & 0x1 == 0) == ((status / 2) % 2 != 1)) by (bit_vector)
        requires
            IBF == 1,
    ;
    if (status >> IBF) & 0x1 == 0 {
        Poll::Ready
    } else if polls >= MAX_POLLS - 1 {
        Poll::GiveUp
    } else {
        Poll::Retry
    }
}

/// One operation that a transfer asks its driver to perform.
#[derive(Clone, Copy, Debug, PartialEq, Eq, Structural)]
pub enum PortOp {
    /// Read a byte from the port and hand it to the transfer.
    In { port: u16 },
    /// Write the byte to the port.
    Out { port: u16, value: u8 },
    /// Sleep for so many microseconds.
    Sleep { micros: u64 },
}

/// How a transfer ended.
#[derive(Clone, Copy, Debug, PartialEq, Eq, Structural)]
pub enum Outcome {
    /// A wait gave up: the controller did not answer.
    TimedOut,
    /// The write went through.
    Written,
    /// The read went through and fetched this byte.
    Value(u8),
}

/// What a transfer wants next.
#[derive(Clone, Copy, Debug, PartialEq, Eq, Structural)]
pub enum Request {
    /// Perform the operation, then call [`EcIo::advance`].
    Perform(PortOp),
    /// Nothing: the transfer is over.
    Finished(Outcome),
}

/// What is transferred.
#[derive(Clone, Copy, Debug, PartialEq, Eq, Structural)]
pub enum Command {
    /// Fetch the value of register `port`.
    Read { port: u8 },
    /// Send `value` to index `port` under opcode `cmd`.
    Write { cmd: u8, port: u8, value: u8 },
}

/// The byte of a transfer that a wait stands before.
#[derive(Clone, Copy, Debug, PartialEq, Eq, Structural)]
pub enum Phase {
    /// The opcode.
    Opcode,
    /// The register index.
    Index,
    /// The value: sent by a write, fetched by a read.
    Data,
    /// Nothing more: the last wait of a write.
    Confirm,
}

/// Where a transfer stands.
#[derive(Clone, Copy, Debug, PartialEq, Eq, Structural)]
pub enum State {
    /// About to poll the status port, after `polls` polls of this wait that
    /// found the buffer full.
    Polling { phase: Phase, polls: u8 },
    /// About to sleep between two polls.
    Pausing { phase: Phase, polls: u8 },
    /// The wait is over: about to send or fetch the byte of `phase`.
    Moving { phase: Phase },
    /// Over.
    Done(Outcome),
}

/// A transfer to or from the controller, in progress.
#[derive(Clone, Copy, Debug, PartialEq, Eq, Structural)]
pub struct EcIo {
    pub command: Command,
    pub state: State,
}

impl Command {
    /// The opcode that opens the transfer.
    pub open spec fn opcode(self) -> u8 {
        match self {
            Command::Read { .. } => EC_SC_READ_CMD,
            Command::Write { cmd, .. } => cmd,
        }
    }

    /// The register index that follows the opcode.
    pub open spec fn index(self) -> u8 {
        match self {
            Command::Read { port } => port,
            Command::Write { port, .. } => port,
        }
    }

    /// The operation that moves the byte of `phase`.
    pub open spec fn move_of(self, phase: Phase) -> PortOp {
        match phase {
            Phase::Opcode => PortOp::Out { port: EC_SC, value: self.opcode() },
            Phase::Index => PortOp::Out { port: EC_DATA, value: self.index() },
            _ => match self {
                Command::Read { .. } => PortOp::In { port: EC_DATA },
                Command::Write { value, .. } => PortOp::Out { port: EC_DATA, value },
            },
        }
    }
}

impl Command {
    /// The operation that moves the byte of `phase`: the opcode goes to the
    /// command port, the index to the data port, the value to or from the
    /// data port.
    pub fn mover(&self, phase: Phase) -> (op: PortOp)
        ensures
            op == self.move_of(phase),
    {
        match phase {
            Phase::Opcode => {
                let value = match self {
                    Command::Read { .. } => EC_SC_READ_CMD,
                    Command::Write { cmd, .. } => *cmd,
                };
                PortOp::Out { port: EC_SC, value }
            },
            Phase::Index => {
                let value = match self {
                    Command::Read { port } => *port,
                    Command::Write { port, .. } => *port,
                };
                PortOp::Out { port: EC_DATA, value }
            },
            _ => match self {
                Command::Read { .. } => PortOp::In { port: EC_DATA },
                Command::Write { value, .. } => PortOp::Out { port: EC_DATA, value: *value },
            },
        }
    }
}

impl EcIo {
    /// A transfer of `command` that has not begun: it stands before its first
    /// poll.
    pub open spec fn begin(command: Command) -> EcIo {
        EcIo { command, state: State::Polling { phase: Phase::Opcode, polls: 0 } }
    }

    /// The states that a transfer can be in on its way from [`EcIo::begin`]. A
    /// wait has counted fewer than `MAX_POLLS` polls, and at least one when it
    /// sleeps; only a write has a last wait and can end as written; no byte
    /// moves after the last wait; only a read can end with a value.
    pub open spec fn wf(self) -> bool {
        match self.state {
            State::Polling { phase, polls } => polls < MAX_POLLS && (phase is Confirm
                ==> self.command is Write),
            State::Pausing { phase, polls } => 0 < polls < MAX_POLLS && (phase is Confirm
                ==> self.command is Write),
            State::Moving { phase } => !(phase is Confirm),
            State::Done(outcome) => match outcome {
                Outcome::TimedOut => true,
                Outcome::Written => self.command is Write,
                Outcome::Value(_) => self.command is Read,
            },
        }
    }

    /// Whether the transfer is over.
    pub open spec fn is_done(self) -> bool {
        self.state is Done
    }

    /// What the transfer wants next.
    pub open spec fn pending(self) -> Request {
        match self.state {
            State::Polling { .. } => Request::Perform(PortOp::In { port: EC_SC }),
            State::Pausing { .. } => Request::Perform(
                PortOp::Sleep { micros: POLL_INTERVAL_MICROS },
            ),
            State::Moving { phase } => Request::Perform(self.command.move_of(phase)),
            State::Done(outcome) => Request::Finished(outcome),
        }
    }

    /// The state after the pending operation was performed. `reply` is the
    /// byte that it read; after an operation that reads nothing it is ignored.
    pub open spec fn next(self, reply: u8) -> EcIo {
        let state = match self.state {
            State::Polling { phase, polls } => match poll_verdict(polls as int, reply) {
                Poll::Ready => if phase is Confirm {
                    State::Done(Outcome::Written)
                } else {
                    State::Moving { phase }
                },
                Poll::Retry => State::Pausing { phase, polls: (polls + 1) as u8 },
                Poll::GiveUp => State::Done(Outcome::TimedOut),
            },
            State::Pausing { phase, polls } => State::Polling { phase, polls },
            State::Moving { phase } => match phase {
                Phase::Opcode => State::Polling { phase: Phase::Index, polls: 0 },
                Phase::Index => State::Polling { phase: Phase::Data, polls: 0 },
                _ => match self.command {
                    Command::Read { .. } => State::Done(Outcome::Value(reply)),
                    Command::Write { .. } => State::Polling { phase: Phase::Confirm, polls: 0 },
                },
            },
            State::Done(outcome) => State::Done(outcome),
        };
        EcIo { command: self.command, state }
    }

    /// The state after the operations were performed one after the other,
    /// `replies[i]` being what the `i`-th of them read.
    pub open spec fn run(self, replies: Seq<u8>) -> EcIo
        decreases replies.len(),
    {
        if replies.len() == 0 {
            self
        } else {
            self.run(replies.drop_last()).next(replies.last())
        }
    }

    /// Begins a transfer.
    pub fn new(command: Command) -> (io: EcIo)
        ensures
            io == EcIo::begin(command),
            io.wf(),
    {
        EcIo { command, state: State::Polling { phase: Phase::Opcode, polls: 0 } }
    }

    /// What the transfer wants next: an operation to perform, or nothing
    /// because it is over.
    pub fn request(&self) -> (request: Request)
        ensures
            request == self.pending(),
    {
        match self.state {
            State::Polling { .. } => Request::Perform(PortOp::In { port: EC_SC }),
            State::Pausing { .. } => Request::Perform(
                PortOp::Sleep { micros: POLL_INTERVAL_MICROS },
            ),
            State::Moving { phase } => Request::Perform(self.command.mover(phase)),
            State::Done(outcome) => Request::Finished(outcome),
        }
    }

    /// Moves on after the requested operation was performed. `reply` is the
    /// byte that the operation read; after a write or a sleep any byte will
    /// do. A transfer that is over stays as it is.
    pub fn advance(self, reply: u8) -> (next: EcIo)
        ensures
            next == self.next(reply),
            self.wf() ==> next.wf(),
    {
        let state = match self.state {
            State::Polling { phase, polls } => match ec_io_wait(polls, reply) {
                Poll::Ready => match phase {
                    Phase::Confirm => State::Done(Outcome::Written),
                    _ => State::Moving { phase },
                },
                Poll::Retry => State::Pausing { phase, polls: polls + 1 },
                Poll::GiveUp => State::Done(Outcome::TimedOut),
            },
            State::Pausing { phase, polls } => State::Polling { phase, polls },
            State::Moving { phase } => match phase {
                Phase::Opcode => State::Polling { phase: Phase::Index, polls: 0 },
                Phase::Index => State::Polling { phase: Phase::Data, polls: 0 },
                _ => match self.command {
                    Command::Read { .. } => State::Done(Outcome::Value(reply)),
                    Command::Write { .. } => State::Polling { phase: Phase::Confirm, polls: 0 },
                },
            },
            State::Done(outcome) => State::Done(outcome),
        };
        EcIo { command: self.command, state }
    }
}

impl EcIo {
    /// Plays a recorded exchange: moves the transfer on by one operation for
    /// every entry of `replies`, each entry being what that operation read.
    pub fn replay(self, replies: &[u8]) -> (end: EcIo)
        ensures
            end == self.run(replies@),
    {
        let mut io = self;
        let mut i: usize = 0;
        while i < replies.len()
            invariant
                i <= replies.len(),
                io == self.run(replies@.take(i as int)),
            decreases replies.len() - i,
        {
            io = io.advance(replies[i]);
            i += 1;
            proof {
                self.lemma_run_step(replies@, i as int);
            }
        }
        assert(replies@.take(replies.len() as int) == replies@);
        io
    }
}

/// Whether the process holds both ports. `data_port` and `command_port` are
/// what the two requests for access to `EC_DATA` and `EC_SC` returned; zero
/// means granted.
pub fn ec_init(data_port: i32, command_port: i32) -> (granted: bool)
    ensures
        granted == (data_port == 0 && command_port == 0),
{
    if data_port != 0 {
        return false;
    }
    if command_port != 0 {
        return false;
    }
    true
}

/// Begins the write of `value` to index `port` under opcode `cmd`.
pub fn ec_io_do(cmd: u8, port: u8, value: u8) -> (io: EcIo)
    ensures
        io == EcIo::begin(Command::Write { cmd, port, value }),
{
    EcIo::new(Command::Write { cmd, port, value })
}

/// Begins the read of register `port`.
pub fn ec_io_read(port: u8) -> (io: EcIo)
    ensures
        io == EcIo::begin(Command::Read { port }),
{
    EcIo::new(Command::Read { port })
}

/// Begins the transfer that sets the fan to `percent`.
pub fn ec_write_fan_duty(percent: u8) -> (io: EcIo)
    ensures
        io == EcIo::begin(
            Command::Write {
                cmd: EC_SC_FAN_CMD,
                port: EC_FAN_INDEX,
                value: raw_of_pct(percent as int) as u8,
            },
        ),
{
    let rdb: u8 = calculate_raw_duty(percent);
    ec_io_do(EC_SC_FAN_CMD, EC_FAN_INDEX, rdb)
}

/// Begins the transfer that fetches the CPU temperature in degrees Celsius.
pub fn ec_query_cpu_temp() -> (io: EcIo)
    ensures
        io == EcIo::begin(Command::Read { port: EC_REG_CPU_TEMP }),
{
    ec_io_read(EC_REG_CPU_TEMP)
}

/// Begins the transfer that fetches the raw fan duty. [`calculate_fan_duty`]
/// turns the byte into percent.
pub fn ec_query_fan_duty() -> (io: EcIo)
    ensures
        io == EcIo::begin(Command::Read { port: EC_REG_FAN_DUTY }),
{
    ec_io_read(EC_REG_FAN_DUTY)
}

impl Phase {
    /// Number of bytes that were moved before the wait of this phase began.
    pub open spec fn position(self) -> int {
        match self {
            Phase::Opcode => 0,
            Phase::Index => 1,
            Phase::Data => 2,
            Phase::Confirm => 3,
        }
    }
}

impl Command {
    /// The operations that move the bytes of a transfer, in their order.
    pub open spec fn script(self) -> Seq<PortOp> {
        seq![self.move_of(Phase::Opcode), self.move_of(Phase::Index), self.move_of(Phase::Data)]
    }

    /// The largest number of operations that a transfer of this command can
    /// still ask for once the wait before the byte of `phase` is over.
    pub open spec fn steps_after_wait(self, phase: Phase) -> nat {
        match self {
            Command::Read { .. } => match phase {
                Phase::Opcode => 401,
                Phase::Index => 201,
                _ => 1,
            },
            Command::Write { .. } => match phase {
                Phase::Opcode => 600,
                Phase::Index => 400,
                Phase::Data => 200,
                Phase::Confirm => 0,
            },
        }
    }
}

impl EcIo {
    /// The largest number of operations that the transfer can still ask for.
    /// A wait takes at most `MAX_POLLS` polls and one sleep less, 199
    /// operations; a write has four waits and sends three bytes, a read has
    /// three waits and moves three bytes.
    pub open spec fn steps_left(self) -> nat {
        match self.state {
            State::Polling { phase, polls } => (2 * (MAX_POLLS - polls) - 1
                + self.command.steps_after_wait(phase)) as nat,
            State::Pausing { phase, polls } => (2 * (MAX_POLLS - polls)
                + self.command.steps_after_wait(phase)) as nat,
            State::Moving { phase } => self.command.steps_after_wait(phase),
            State::Done(_) => 0,
        }
    }

    /// The operations that the transfer asks for, one after the other, while
    /// it is handed `replies`: entry `i` is what is pending after the first `i`
    /// replies.
    pub open spec fn requests(self, replies: Seq<u8>) -> Seq<Request> {
        Seq::new(replies.len(), |i: int| self.run(replies.take(i)).pending())
    }

    /// The moves among the operations that the transfer asks for while it is
    /// handed `replies`: what is left of `requests` without the polls of the
    /// status port and the sleeps.
    pub open spec fn moves(self, replies: Seq<u8>) -> Seq<PortOp>
        decreases replies.len(),
    {
        if replies.len() == 0 {
            Seq::empty()
        } else {
            let earlier = self.moves(replies.drop_last());
            match self.run(replies.drop_last()).state {
                State::Moving { phase } => earlier.push(self.command.move_of(phase)),
                _ => earlier,
            }
        }
    }

    /// A byte moves only right after a poll that found the input buffer
    /// empty; and only a move touches the data port or writes to any port.
    pub proof fn lemma_byte_moves_only_when_ready(self, reply: u8)
        ensures
            self.next(reply).state is Moving ==> self.state is Polling && !input_buffer_full(
                reply,
            ),
            !(self.state is Moving) ==> self.pending() != Request::Perform(
                PortOp::In { port: EC_DATA },
            ) && !(self.pending() matches Request::Perform(PortOp::Out { .. })),
    {
    }

    /// Whatever the controller answers, the bytes of a transfer move in their
    /// order, none of them twice and none before the one ahead of it: what
    /// has moved is always a beginning of the command's script. A transfer
    /// that ended otherwise than by giving up has moved all of it.
    pub proof fn lemma_bytes_move_in_order(self, replies: Seq<u8>)
        requires
            self == EcIo::begin(self.command),
        ensures
            self.moves(replies).len() <= 3,
            self.moves(replies) == self.command.script().take(self.moves(replies).len() as int),
            self.run(replies).state matches State::Done(outcome) && outcome != Outcome::TimedOut
                ==> self.moves(replies) == self.command.script(),
            self.run(replies).state == State::Done(Outcome::Written) ==> self.command is Write,
            self.run(replies).state matches State::Done(Outcome::Value(_))
                ==> self.command is Read,
    {
        self.lemma_moves_follow_script(replies);
        let script = self.command.script();
        assert(script.take(3) == script);
    }

    proof fn lemma_moves_follow_script(self, replies: Seq<u8>)
        requires
            self == EcIo::begin(self.command),
        ensures
            self.run(replies).command == self.command,
            self.run(replies).wf(),
            match self.run(replies).state {
                State::Polling { phase, .. } => self.moves(replies) == self.command.script().take(
                    phase.position(),
                ),
                State::Pausing { phase, .. } => self.moves(replies) == self.command.script().take(
                    phase.position(),
                ),
                State::Moving { phase } => self.moves(replies) == self.command.script().take(
                    phase.position(),
                ),
                State::Done(Outcome::TimedOut) => self.moves(replies).len() <= 3
                    && self.moves(replies) == self.command.script().take(
                    self.moves(replies).len() as int,
                ),
                State::Done(_) => self.moves(replies) == self.command.script().take(3),
            },
        decreases replies.len(),
    {
        let script = self.command.script();
        if replies.len() == 0 {
            assert(script.take(0) == Seq::<PortOp>::empty());
        } else {
            let earlier = replies.drop_last();
            self.lemma_moves_follow_script(earlier);
            let before = self.run(earlier);
            match before.state {
                State::Moving { phase } => {
                    assert(script.take(phase.position()).push(script[phase.position()])
                        == script.take(phase.position() + 1));
                },
                State::Polling { phase, .. } => {
                    assert(script.take(phase.position()).len() == phase.position());
                },
                _ => {},
            }
        }
    }

    /// A transfer that is over stays over, with the same outcome.
    pub proof fn lemma_done_is_final(self, replies: Seq<u8>)
        requires
            self.is_done(),
        ensures
            self.run(replies) == self,
        decreases replies.len(),
    {
        if replies.len() > 0 {
            self.lemma_done_is_final(replies.drop_last());
        }
    }

    /// Every operation brings the transfer closer to its end, whatever the
    /// ports answer.
    pub proof fn lemma_advance_makes_progress(self, reply: u8)
        requires
            self.wf(),
            !self.is_done(),
        ensures
            self.next(reply).wf(),
            self.next(reply).steps_left() < self.steps_left(),
    {
    }

    /// Bounded wait: a transfer is over after at most `steps_left` operations,
    /// whatever the ports answer. From its beginning that is `MAX_WRITE_STEPS`
    /// operations for a write and `MAX_READ_STEPS` for a read.
    pub proof fn lemma_always_finishes(self, replies: Seq<u8>)
        requires
            self.wf(),
            replies.len() >= self.steps_left(),
        ensures
            self.run(replies).is_done(),
            self.run(replies).wf(),
            EcIo::begin(self.command).steps_left() == if self.command is Write {
                MAX_WRITE_STEPS
            } else {
                MAX_READ_STEPS
            },
    {
        self.lemma_run_uses_steps(replies);
    }

    proof fn lemma_run_uses_steps(self, replies: Seq<u8>)
        requires
            self.wf(),
        ensures
            self.run(replies).wf(),
            self.run(replies).is_done() || self.run(replies).steps_left() + replies.len()
                <= self.steps_left(),
        decreases replies.len(),
    {
        if replies.len() > 0 {
            self.lemma_run_uses_steps(replies.drop_last());
            let before = self.run(replies.drop_last());
            if !before.is_done() {
                before.lemma_advance_makes_progress(replies.last());
            }
        }
    }

    /// A controller that never empties its input buffer: the transfer polls
    /// the status port `MAX_POLLS` times, sleeping in between, then gives up.
    /// Until then it asks for nothing but polls and sleeps, so no byte is
    /// sent.
    pub proof fn lemma_stuck_controller_times_out(self, replies: Seq<u8>)
        requires
            self.state matches State::Polling { polls: 0, .. },
            replies.len() == 2 * MAX_POLLS - 1,
            forall|i: int|
                0 <= i < replies.len() && i % 2 == 0 ==> input_buffer_full(#[trigger] replies[i]),
        ensures
            self.run(replies).pending() == Request::Finished(Outcome::TimedOut),
            forall|n: int|
                0 <= n < replies.len() ==> #[trigger] self.requests(replies)[n]
                    == Request::Perform(
                    if n % 2 == 0 {
                        PortOp::In { port: EC_SC }
                    } else {
                        PortOp::Sleep { micros: POLL_INTERVAL_MICROS }
                    },
                ),
    {
        self.lemma_stuck_prefix(replies, replies.len());
        assert(replies.take(replies.len() as int) == replies);
        assert forall|n: int| 0 <= n < replies.len() implies #[trigger] self.requests(replies)[n]
            == Request::Perform(
            if n % 2 == 0 {
                PortOp::In { port: EC_SC }
            } else {
                PortOp::Sleep { micros: POLL_INTERVAL_MICROS }
            },
        ) by {
            self.lemma_stuck_prefix(replies, n as nat);
        }
    }

    proof fn lemma_stuck_prefix(self, replies: Seq<u8>, n: nat)
        requires
            self.state matches State::Polling { polls: 0, .. },
            replies.len() == 2 * MAX_POLLS - 1,
            forall|i: int|
                0 <= i < replies.len() && i % 2 == 0 ==> input_buffer_full(#[trigger] replies[i]),
            n <= replies.len(),
        ensures
            self.run(replies.take(n as int)).command == self.command,
            n < replies.len() && n % 2 == 0 ==> self.run(replies.take(n as int)).state == (
            State::Polling { phase: self.state->Polling_phase, polls: (n / 2) as u8 }),
            n < replies.len() && n % 2 == 1 ==> self.run(replies.take(n as int)).state == (
            State::Pausing { phase: self.state->Polling_phase, polls: ((n + 1) / 2) as u8 }),
            n == replies.len() ==> self.run(replies.take(n as int)).state == State::Done(
                Outcome::TimedOut,
            ),
        decreases n,
    {
        if n > 0 {
            self.lemma_stuck_prefix(replies, (n - 1) as nat);
            self.lemma_run_step(replies, n as int);
        }
    }

    /// A controller that is ready at every poll: a write polls, sends the
    /// opcode to the command port, polls, sends the index to the data port,
    /// polls, sends the value to the data port, polls once more, and is done.
    pub proof fn lemma_write_when_ready(self, replies: Seq<u8>)
        requires
            self == EcIo::begin(self.command),
            self.command is Write,
            replies.len() == 7,
            forall|i: int|
                0 <= i < replies.len() && i % 2 == 0 ==> !input_buffer_full(
                    #[trigger] replies[i],
                ),
        ensures
            self.requests(replies) == seq![
                Request::Perform(PortOp::In { port: EC_SC }),
                Request::Perform(PortOp::Out { port: EC_SC, value: self.command->Write_cmd }),
                Request::Perform(PortOp::In { port: EC_SC }),
                Request::Perform(PortOp::Out { port: EC_DATA, value: self.command->Write_port }),
                Request::Perform(PortOp::In { port: EC_SC }),
                Request::Perform(PortOp::Out { port: EC_DATA, value: self.command->Write_value }),
                Request::Perform(PortOp::In { port: EC_SC }),
            ],
            self.run(replies).pending() == Request::Finished(Outcome::Written),
    {
        let ready = self.lemma_run_when_ready(replies);
        assert(self.requests(replies) =~= ready);
    }

    /// A controller that is ready at every poll: a read polls, sends the read
    /// opcode to the command port, polls, sends the register index to the data
    /// port, polls, fetches a byte from the data port, and is done with that
    /// byte.
    pub proof fn lemma_read_when_ready(self, replies: Seq<u8>)
        requires
            self == EcIo::begin(self.command),
            self.command is Read,
            replies.len() == 6,
            forall|i: int|
                0 <= i < replies.len() && i % 2 == 0 ==> !input_buffer_full(
                    #[trigger] replies[i],
                ),
        ensures
            self.requests(replies) == seq![
                Request::Perform(PortOp::In { port: EC_SC }),
                Request::Perform(PortOp::Out { port: EC_SC, value: EC_SC_READ_CMD }),
                Request::Perform(PortOp::In { port: EC_SC }),
                Request::Perform(PortOp::Out { port: EC_DATA, value: self.command->Read_port }),
                Request::Perform(PortOp::In { port: EC_SC }),
                Request::Perform(PortOp::In { port: EC_DATA }),
            ],
            self.run(replies).pending() == Request::Finished(Outcome::Value(replies[5])),
    {
        let ready = self.lemma_run_when_ready(replies);
        assert(self.requests(replies) =~= ready);
    }

    /// The run of a fresh transfer against a controller that is ready at
    /// every poll, state by state. Returns the requests on the way.
    proof fn lemma_run_when_ready(self, replies: Seq<u8>) -> (asked: Seq<Request>)
        requires
            self == EcIo::begin(self.command),
            replies.len() == if self.command is Write { 7int } else { 6int },
            forall|i: int|
                0 <= i < replies.len() && i % 2 == 0 ==> !input_buffer_full(
                    #[trigger] replies[i],
                ),
        ensures
            asked.len() == replies.len(),
            forall|k: int| 0 <= k < asked.len() ==> asked[k] == self.requests(replies)[k],
            asked[0] == Request::Perform(PortOp::In { port: EC_SC }),
            asked[1] == Request::Perform(
                PortOp::Out { port: EC_SC, value: self.command.opcode() },
            ),
            asked[2] == Request::Perform(PortOp::In { port: EC_SC }),
            asked[3] == Request::Perform(
                PortOp::Out { port: EC_DATA, value: self.command.index() },
            ),
            asked[4] == Request::Perform(PortOp::In { port: EC_SC }),
            asked[5] == Request::Perform(self.command.move_of(Phase::Data)),
            self.command is Write ==> asked[6] == Request::Perform(PortOp::In { port: EC_SC }),
            self.run(replies).pending() == Request::Finished(
                match self.command {
                    Command::Read { .. } => Outcome::Value(replies[5]),
                    Command::Write { .. } => Outcome::Written,
                },
            ),
    {
        let s0 = self;
        let s1 = s0.next(replies[0]);
        let s2 = s1.next(replies[1]);
        let s3 = s2.next(replies[2]);
        let s4 = s3.next(replies[3]);
        let s5 = s4.next(replies[4]);
        let s6 = s5.next(replies[5]);
        assert(s1.state == State::Moving { phase: Phase::Opcode });
        assert(s2.state == State::Polling { phase: Phase::Index, polls: 0 });
        assert(s3.state == State::Moving { phase: Phase::Index });
        assert(s4.state == State::Polling { phase: Phase::Data, polls: 0 });
        assert(s5.state == State::Moving { phase: Phase::Data });
        assert(self.run(replies.take(0)) == s0);
        self.lemma_run_step(replies, 1);
        self.lemma_run_step(replies, 2);
        self.lemma_run_step(replies, 3);
        self.lemma_run_step(replies, 4);
        self.lemma_run_step(replies, 5);
        self.lemma_run_step(replies, 6);
        if self.command is Write {
            self.lemma_run_step(replies, 7);
            assert(replies.take(7) == replies);
            seq![
                s0.pending(),
                s1.pending(),
                s2.pending(),
                s3.pending(),
                s4.pending(),
                s5.pending(),
                s6.pending(),
            ]
        } else {
            assert(replies.take(6) == replies);
            seq![s0.pending(), s1.pending(), s2.pending(), s3.pending(), s4.pending(), s5.pending()]
        }
    }

    /// One step of `run`: the state after `k` replies is the state after
    /// `k - 1` of them, moved on by the `k`-th.
    proof fn lemma_run_step(self, replies: Seq<u8>, k: int)
        requires
            0 < k <= replies.len(),
        ensures
            self.run(replies.take(k)) == self.run(replies.take(k - 1)).next(replies[k - 1]),
    {
        let prefix = replies.take(k);
        assert(prefix.drop_last() == replies.take(k - 1));
        assert(prefix.last() == replies[k - 1]);
    }
}

} // verus!
