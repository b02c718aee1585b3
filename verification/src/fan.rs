//! The fan state and the duty policy.
//!
//! Once per tick the daemon reads the controller's register file, decodes the
//! current fan duty and the CPU temperature from it, and asks the policy
//! whether to command a new duty. The policy looks the desired duty up in the
//! active profile and damps the way there: a desired duty close to the current
//! one is left alone, a higher one is commanded at once, a lower one only
//! every few ticks and in bounded steps.

use vstd::prelude::*;
use crate::ec_io::{
    calculate_fan_duty, ec_init, ec_write_fan_duty, input_buffer_full, pct_of_raw, raw_of_pct, Command,
    EcIo, Outcome, Request, EC_FAN_INDEX, EC_SC_FAN_CMD, MAX_POLLS,
};
use crate::error::Error;
use crate::profile::Mode;

verus! {

/// Number of bytes in the controller's register file.
pub const EC_REG_SIZE: usize = 0x100;

/// Offset of the raw fan-duty byte in the register file.
pub const FAN_DUTY_OFFSET: usize = 0xCE;

/// Offset of the CPU temperature, in whole degrees Celsius.
pub const CPU_TEMP_OFFSET: usize = 0x07;

/// Offset of the GPU temperature. Reserved: nothing reads it yet.
pub const GPU_TEMP_OFFSET: usize = 0xCD;

/// How far below the current duty the desired duty may lie and still be
/// left alone.
pub const LOWER_END: u8 = 10;

/// How far above the current duty the desired duty may lie and still be
/// left alone.
pub const HIGHER_END: u8 = 5;

/// Largest single step down, in percentage points.
pub const MAX_STEP: u8 = 8;

/// A difference of at most this many points is sensor noise.
pub const NOISE_FLOOR: u8 = 3;

/// After this many ticks in a row inside the band the duty is looked at again.
pub const STABLE_CAP: u8 = 4;

/// A step down is taken on every `COOLDOWN_CAP`-th tick that asks for one.
pub const COOLDOWN_CAP: u8 = 4;

/// Seconds between two ticks.
pub const TIMEOUT: u64 = 2;

/// The fan as the daemon sees it, and the counters of the policy.
#[derive(Clone, Copy, Debug)]
pub struct EC {
    /// Current duty in percent, as last read from the controller.
    pub fan_duty: u8,
    /// The duty that was commanded last. Kept for reporting only.
    pub fan_next_duty: u8,
    /// CPU temperature in degrees Celsius, as last read.
    pub cpu_temp: u8,
    /// GPU temperature. Reserved: never filled.
    pub gpu_temp: u8,
    /// The active profile.
    pub mode: Mode,
    /// Ticks spent inside the band since the duty was last looked at.
    pub stable_count: u8,
    /// Ticks that asked for a step down since the last one was taken.
    pub cooldown_count: u8,
}

impl EC {
    /// The ranges that every state reached from [`EC::new`] stays in.
    pub open spec fn wf(self) -> bool {
        &&& self.fan_duty <= 100
        &&& self.fan_next_duty <= 100
        &&& self.stable_count <= STABLE_CAP
        &&& self.cooldown_count < COOLDOWN_CAP
    }

    /// The state after a register file has been decoded into it.
    pub open spec fn observed(self, registers: Seq<u8>) -> EC {
        EC {
            fan_duty: pct_of_raw(registers[FAN_DUTY_OFFSET as int] as int) as u8,
            cpu_temp: registers[CPU_TEMP_OFFSET as int],
            ..self
        }
    }

    /// Whether `desired` lies in the band around the current duty that needs
    /// no action: at most `LOWER_END` below it and at most `HIGHER_END` above.
    pub open spec fn in_band(self, desired: int) -> bool {
        self.fan_duty - LOWER_END <= desired <= self.fan_duty + HIGHER_END
    }

    /// Whether this tick leaves the duty alone without looking closer.
    pub open spec fn holds(self, desired: int) -> bool {
        self.stable_count < STABLE_CAP && self.in_band(desired)
    }

    /// Whether `desired` is so close to the current duty that the difference
    /// counts as noise.
    pub open spec fn is_noise(self, desired: int) -> bool {
        -(NOISE_FLOOR as int) <= desired - self.fan_duty <= NOISE_FLOOR
    }

    /// Whether this tick asks for a step down: the duty is looked at, and the
    /// desired duty lies below the current one by more than noise.
    pub open spec fn wants_step_down(self, desired: int) -> bool {
        !self.holds(desired) && desired < self.fan_duty - NOISE_FLOOR
    }

    /// The duty one step down from the current one: `desired` itself if it is
    /// within `MAX_STEP`, else `MAX_STEP` below the current duty.
    pub open spec fn stepped_down(self, desired: int) -> int {
        if self.fan_duty - desired <= MAX_STEP {
            desired
        } else {
            self.fan_duty - MAX_STEP
        }
    }

    /// What a closer look at the duty decides: nothing where the difference is
    /// noise; the desired duty at once where it is higher; where it is lower,
    /// one step down on every `COOLDOWN_CAP`-th such tick and nothing on the
    /// others.
    pub open spec fn reevaluated(self, desired: int) -> Option<int> {
        if self.is_noise(desired) {
            None
        } else if desired > self.fan_duty {
            Some(desired)
        } else if self.cooldown_count + 1 >= COOLDOWN_CAP {
            Some(self.stepped_down(desired))
        } else {
            None
        }
    }

    /// The duty that this tick commands, if any.
    pub open spec fn target_for(self, desired: int) -> Option<int> {
        if self.holds(desired) {
            None
        } else {
            self.reevaluated(desired)
        }
    }

    /// The state after this tick.
    pub open spec fn after(self, desired: int) -> EC {
        EC {
            stable_count: if self.holds(desired) {
                (self.stable_count + 1) as u8
            } else {
                0
            },
            cooldown_count: if !self.wants_step_down(desired) {
                self.cooldown_count
            } else if self.cooldown_count + 1 >= COOLDOWN_CAP {
                0
            } else {
                (self.cooldown_count + 1) as u8
            },
            fan_next_duty: match self.target_for(desired) {
                Some(target) => target as u8,
                None => self.fan_next_duty,
            },
            ..self
        }
    }

    /// The desired duty for the temperature last read.
    pub open spec fn desired(self) -> int {
        self.mode.curve(self.cpu_temp as int)
    }

    /// The transfer that commands `duty`.
    pub open spec fn command_for(duty: int) -> EcIo {
        EcIo::begin(
            Command::Write {
                cmd: EC_SC_FAN_CMD,
                port: EC_FAN_INDEX,
                value: raw_of_pct(duty) as u8,
            },
        )
    }

    /// The state at startup: nothing read yet, all counters at zero.
    pub fn new(mode: Mode) -> (ec: EC)
        ensures
            ec.mode == mode,
            ec.fan_duty == 0,
            ec.fan_next_duty == 0,
            ec.cpu_temp == 0,
            ec.gpu_temp == 0,
            ec.stable_count == 0,
            ec.cooldown_count == 0,
            ec.wf(),
    {
        EC {
            fan_duty: 0,
            fan_next_duty: 0,
            cpu_temp: 0,
            gpu_temp: 0,
            mode,
            stable_count: 0,
            cooldown_count: 0,
        }
    }

    /// Decodes a fresh copy of the register file: the fan duty in percent and
    /// the CPU temperature. Nothing else changes.
    pub fn read_ec(&mut self, registers: &[u8; EC_REG_SIZE])
        ensures
            *final(self) == old(self).observed(registers@),
            final(self).fan_duty == pct_of_raw(registers@[FAN_DUTY_OFFSET as int] as int),
            final(self).fan_duty <= 100,
            old(self).wf() ==> final(self).wf(),
    {
        self.fan_duty = calculate_fan_duty(registers[FAN_DUTY_OFFSET]);
        self.cpu_temp = registers[CPU_TEMP_OFFSET];
    }

    /// One tick of the policy towards a given desired duty. Returns the duty
    /// to command, or `None` where the fan is to be left as it is.
    pub fn switch_toward(&mut self, desired: u8) -> (target: Option<u8>)
        ensures
            *final(self) == old(self).after(desired as int),
            match target {
                Some(duty) => old(self).target_for(desired as int) == Some(duty as int),
                None => old(self).target_for(desired as int).is_none(),
            },
            old(self).wf() && desired <= 100 ==> final(self).wf(),
    {
        let current: u8 = self.fan_duty;
        let in_band: bool = desired as u16 + LOWER_END as u16 >= current as u16
            && desired as u16 <= current as u16 + HIGHER_END as u16;
        if self.stable_count < STABLE_CAP && in_band {
            self.stable_count += 1;
            return None;
        }
        self.stable_count = 0;
        let next_duty: u8;
        let delta: u8 = if desired > current {
            desired - current
        } else {
            current - desired
        };
        if delta <= NOISE_FLOOR {
            return None;
        } else if desired > current {
            next_duty = desired;
        } else if self.cooldown_count >= COOLDOWN_CAP - 1 {
            self.cooldown_count = 0;
            let gap: u8 = current - desired;
            let step: u8 = if gap <= MAX_STEP { gap } else { MAX_STEP };
            next_duty = current - step;
        } else {
            self.cooldown_count += 1;
            return None;
        }
        self.fan_next_duty = next_duty;
        Some(next_duty)
    }

    /// One tick of the policy: looks the desired duty for the last read
    /// temperature up in the active profile and moves towards it. Returns the
    /// duty to command, or `None` where the fan is to be left as it is.
    pub fn switch_to_next_duty(&mut self) -> (target: Option<u8>)
        ensures
            *final(self) == old(self).after(old(self).desired()),
            match target {
                Some(duty) => old(self).target_for(old(self).desired()) == Some(duty as int),
                None => old(self).target_for(old(self).desired()).is_none(),
            },
            old(self).wf() ==> final(self).wf(),
            old(self).fan_duty <= 100 ==> (target matches Some(duty) ==> duty <= 100),
    {
        let desired: u8 = self.mode.desired_duty(self.cpu_temp);
        self.switch_toward(desired)
    }

    /// One round of the control loop, given what reading the register file
    /// brought. A failed read stops the loop and leaves the state as it was.
    /// Else the registers are decoded and the policy takes its tick; the
    /// result is the transfer to run, if the tick commands a duty.
    pub fn tick(&mut self, snapshot: Result<[u8; EC_REG_SIZE], std::io::Error>) -> (plan: Result<
        Option<EcIo>,
        Error,
    >)
        ensures
            match snapshot {
                Err(e) => plan == Err::<Option<EcIo>, Error>(Error::ErrRead(e)) && *final(self)
                    == *old(self),
                Ok(registers) => {
                    let seen = old(self).observed(registers@);
                    &&& *final(self) == seen.after(seen.desired())
                    &&& plan == Ok::<Option<EcIo>, Error>(
                        match seen.target_for(seen.desired()) {
                            Some(duty) => Some(EC::command_for(duty)),
                            None => None,
                        },
                    )
                },
            },
            old(self).wf() ==> final(self).wf(),
    {
        match snapshot {
            Err(e) => Err(Error::ErrRead(e)),
            Ok(registers) => {
                self.read_ec(&registers);
                match self.switch_to_next_duty() {
                    Some(duty) => Ok(Some(ec_write_fan_duty(duty))),
                    None => Ok(None),
                }
            },
        }
    }
}

/// What the daemon decides before its first round. Without access to both
/// ports it stops, whatever its arguments are; with it, the arguments pick the
/// profile. `data_port` and `command_port` are what the two requests for
/// access returned, as [`ec_init`] takes them.
pub fn startup(data_port: i32, command_port: i32, args: &Vec<String>) -> (mode: Result<
    Mode,
    Error,
>)
    ensures
        mode == if data_port == 0 && command_port == 0 {
            Mode::selected(args@)
        } else {
            Err(Error::NoSudo)
        },
{
    if !ec_init(data_port, command_port) {
        return Err(Error::NoSudo);
    }
    Mode::from_args(args)
}

/// What the control loop makes of the outcome of a transfer that commanded a
/// duty: it goes on if the write went through, and stops on anything else.
pub open spec fn write_verdict(outcome: Outcome) -> Result<(), Error> {
    match outcome {
        Outcome::Written => Ok(()),
        _ => Err(Error::ErrWrite),
    }
}

/// Decides whether the control loop goes on after a transfer that commanded
/// a duty.
pub fn confirm_write(outcome: Outcome) -> (verdict: Result<(), Error>)
    ensures
        verdict == write_verdict(outcome),
{
    match outcome {
        Outcome::Written => Ok(()),
        _ => Err(Error::ErrWrite),
    }
}

/// A controller that never empties its input buffer stops the daemon: the
/// transfer that commands a duty gives up after `MAX_POLLS` polls, and the
/// control loop takes that for a failed write.
pub proof fn lemma_stuck_controller_stops_loop(duty: int, replies: Seq<u8>)
    requires
        replies.len() == 2 * MAX_POLLS - 1,
        forall|i: int|
            0 <= i < replies.len() && i % 2 == 0 ==> input_buffer_full(#[trigger] replies[i]),
    ensures
        EC::command_for(duty).run(replies).pending() == Request::Finished(Outcome::TimedOut),
        write_verdict(Outcome::TimedOut) == Err::<(), Error>(Error::ErrWrite),
{
    EC::command_for(duty).lemma_stuck_controller_times_out(replies);
}

impl EC {
    /// In-band hold: while the stability counter is below its cap, a desired
    /// duty inside the band commands nothing and raises the counter by one.
    /// Nothing else changes.
    pub proof fn lemma_in_band_hold(self, desired: int)
        requires
            self.stable_count < STABLE_CAP,
            self.in_band(desired),
        ensures
            self.target_for(desired).is_none(),
            self.after(desired).stable_count == self.stable_count + 1,
            self.after(desired) == (EC { stable_count: (self.stable_count + 1) as u8, ..self }),
    {
    }

    /// The stability cap forces a closer look: once the counter is at its cap,
    /// the tick resets it and decides by the difference alone, whether or not
    /// the desired duty lies in the band.
    pub proof fn lemma_cap_forces_reevaluation(self, desired: int)
        requires
            self.stable_count >= STABLE_CAP,
        ensures
            self.after(desired).stable_count == 0,
            self.target_for(desired) == self.reevaluated(desired),
    {
    }

    /// Four ticks in a row inside the band, counted from zero, command nothing
    /// and fill the stability counter; the fifth tick then takes the closer
    /// look, wherever its desired duty lies.
    pub proof fn lemma_fifth_tick_reevaluates(
        self,
        first: int,
        second: int,
        third: int,
        fourth: int,
        fifth: int,
    )
        requires
            self.stable_count == 0,
            self.in_band(first),
            self.in_band(second),
            self.in_band(third),
            self.in_band(fourth),
        ensures
            self.target_for(first).is_none(),
            self.after(first).target_for(second).is_none(),
            self.after(first).after(second).target_for(third).is_none(),
            self.after(first).after(second).after(third).target_for(fourth).is_none(),
            self.after(first).after(second).after(third).after(fourth) == (EC {
                stable_count: STABLE_CAP,
                ..self
            }),
            self.after(first).after(second).after(third).after(fourth).target_for(fifth)
                == self.reevaluated(fifth),
            self.after(first).after(second).after(third).after(fourth).after(
                fifth,
            ).stable_count == 0,
    {
        let one = self.after(first);
        let two = one.after(second);
        let three = two.after(third);
        let four = three.after(fourth);
        assert(one == (EC { stable_count: 1, ..self }));
        assert(two == (EC { stable_count: 2, ..self }));
        assert(three == (EC { stable_count: 3, ..self }));
        assert(four == (EC { stable_count: 4, ..self }));
    }

    /// Noise suppression: a desired duty within `NOISE_FLOOR` of the current
    /// one commands nothing, whatever the counters hold.
    pub proof fn lemma_noise_suppressed(self, desired: int)
        requires
            self.is_noise(desired),
        ensures
            self.target_for(desired).is_none(),
            self.after(desired).cooldown_count == self.cooldown_count,
            self.after(desired).fan_next_duty == self.fan_next_duty,
    {
    }

    /// Immediate ramp-up: a desired duty above the band is commanded in full
    /// on the same tick, whatever the counters hold. So is one that lies above
    /// the current duty by more than noise once the tick takes a closer look.
    pub proof fn lemma_ramp_up_immediate(self, desired: int)
        requires
            0 <= desired <= u8::MAX,
            desired > self.fan_duty + HIGHER_END || (!self.holds(desired) && desired
                > self.fan_duty + NOISE_FLOOR),
        ensures
            self.target_for(desired) == Some(desired),
            self.after(desired).fan_next_duty == desired,
            self.after(desired).stable_count == 0,
            self.after(desired).cooldown_count == self.cooldown_count,
    {
    }

    /// One tick that asks for a step down: it is taken where this is the
    /// `COOLDOWN_CAP`-th such tick since the last step, and the cooldown
    /// counter starts over; else nothing is commanded and the counter rises by
    /// one.
    pub proof fn lemma_step_down_waits(self, desired: int)
        requires
            self.wants_step_down(desired),
        ensures
            self.cooldown_count + 1 >= COOLDOWN_CAP ==> self.target_for(desired) == Some(
                self.stepped_down(desired),
            ) && self.after(desired).cooldown_count == 0,
            self.cooldown_count + 1 < COOLDOWN_CAP ==> self.target_for(desired).is_none()
                && self.after(desired).cooldown_count == self.cooldown_count + 1,
    {
    }

    /// Damped ramp-down: with the desired duty held below the band and the
    /// cooldown counter at zero, the first three ticks command nothing and
    /// the fourth commands one step down: the desired duty if it is within
    /// `MAX_STEP` of the current one, else `MAX_STEP` below the current one.
    pub proof fn lemma_ramp_down_damped(self, desired: int)
        requires
            self.cooldown_count == 0,
            0 <= desired < self.fan_duty - LOWER_END,
        ensures
            self.target_for(desired).is_none(),
            self.after(desired).target_for(desired).is_none(),
            self.after(desired).after(desired).target_for(desired).is_none(),
            self.after(desired).after(desired).after(desired).target_for(desired) == Some(
                self.fan_duty - MAX_STEP,
            ),
            self.after(desired).after(desired).after(desired).after(desired).cooldown_count
                == 0,
            self.after(desired).after(desired).after(desired).after(desired).fan_next_duty
                == self.fan_duty - MAX_STEP,
    {
        let one = self.after(desired);
        let two = one.after(desired);
        let three = two.after(desired);
        assert(one == (EC { stable_count: 0, cooldown_count: 1, ..self }));
        assert(two == (EC { stable_count: 0, cooldown_count: 2, ..self }));
        assert(three == (EC { stable_count: 0, cooldown_count: 3, ..self }));
    }

    /// A commanded duty is never the current one, never lies beyond the
    /// desired one, and lies at most `MAX_STEP` below the current one. With
    /// the current and the desired duty in 0 to 100 it is in that range too.
    pub proof fn lemma_target_between(self, desired: int)
        requires
            self.target_for(desired).is_some(),
        ensures
            self.target_for(desired).unwrap() != self.fan_duty,
            desired > self.fan_duty ==> self.target_for(desired).unwrap() == desired,
            desired < self.fan_duty ==> desired <= self.target_for(desired).unwrap()
                < self.fan_duty,
            self.target_for(desired).unwrap() >= self.fan_duty - MAX_STEP,
            0 <= desired <= 100 && self.fan_duty <= 100 ==> 0 <= self.target_for(
                desired,
            ).unwrap() <= 100,
    {
    }

    /// A commanded duty reads back as itself: once the raw value that the
    /// command carries stands in the fan-duty register, decoding the register
    /// file shows the commanded duty as the current one.
    pub proof fn lemma_commanded_duty_reads_back(self, duty: int, registers: Seq<u8>)
        requires
            0 <= duty <= 100,
            registers.len() == EC_REG_SIZE,
            EC::command_for(duty).command matches Command::Write { value, .. }
                && registers[FAN_DUTY_OFFSET as int] == value,
        ensures
            self.observed(registers).fan_duty == duty,
    {
    }

    /// The ranges of a valid state survive a tick, whatever the desired duty in
    /// 0 to 100 is.
    pub proof fn lemma_tick_keeps_ranges(self, desired: int)
        requires
            self.wf(),
            0 <= desired <= 100,
        ensures
            self.after(desired).wf(),
    {
    }
}

} // verus!
