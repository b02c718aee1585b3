//! Temperature-to-duty profiles.
//!
//! A profile maps the CPU temperature in whole degrees Celsius to the desired
//! fan duty in whole percent. Each curve is piecewise linear, never falls as
//! the temperature rises, starts at the profile's floor and ends at full speed.
//! The curves are evaluated exactly and rounded down.

use vstd::prelude::*;
use vstd::string::*;
use crate::error::{Error, DEFAULT_MODE_ARG, QUIET_MODE_ARG};

verus! {

/// Duty at and above which every profile saturates.
pub const DUTY_CEILING: u8 = 100;

/// Lowest duty of the default profile.
pub const DEFAULT_FLOOR: u8 = 32;

/// Lowest duty of the quiet profile.
pub const QUIET_FLOOR: u8 = 28;

/// The default curve: 32 up to 40 °C, then `0.71 * t + 4` up to 60 °C, then
/// `2.5 * t - 100` up to 80 °C, then 100; rounded down.
pub open spec fn default_curve(temp: int) -> int {
    if temp <= 40 {
        32
    } else if temp <= 60 {
        (71 * temp + 400) / 100
    } else if temp <= 80 {
        (5 * temp - 200) / 2
    } else {
        100
    }
}

/// The quiet curve: 28 up to 40 °C, then `0.58 * t + 5` up to 50 °C, then
/// `1.1 * t - 20` up to 65 °C, then `2.2 * t - 88` up to 80 °C, then 100;
/// rounded down.
pub open spec fn quiet_curve(temp: int) -> int {
    if temp <= 40 {
        28
    } else if temp <= 50 {
        (58 * temp + 500) / 100
    } else if temp <= 65 {
        (11 * temp - 200) / 10
    } else if temp <= 80 {
        (22 * temp - 880) / 10
    } else {
        100
    }
}

/// Desired duty of the default profile at `temp` degrees.
pub fn calc_next_duty(temp: u8) -> (duty: u8)
    ensures
        duty == default_curve(temp as int),
        DEFAULT_FLOOR <= duty <= DUTY_CEILING,
{
    if temp <= 40 {
        32
    } else if temp <= 60 {
        ((71 * (temp as u32) + 400) / 100) as u8
    } else if temp <= 80 {
        ((5 * (temp as u32) - 200) / 2) as u8
    } else {
        100
    }
}

/// Desired duty of the quiet profile at `temp` degrees.
pub fn calc_next_duty_quiet(temp: u8) -> (duty: u8)
    ensures
        duty == quiet_curve(temp as int),
        QUIET_FLOOR <= duty <= DUTY_CEILING,
{
    if temp <= 40 {
        28
    } else if temp <= 50 {
        ((58 * (temp as u32) + 500) / 100) as u8
    } else if temp <= 65 {
        ((11 * (temp as u32) - 200) / 10) as u8
    } else if temp <= 80 {
        ((22 * (temp as u32) - 880) / 10) as u8
    } else {
        100
    }
}

/// The profile that is active for a run.
#[derive(Clone, Copy, Debug, PartialEq, Eq, Structural)]
pub enum Mode {
    Default,
    Quiet,
}

impl Mode {
    /// The profile's curve.
    pub open spec fn curve(self, temp: int) -> int {
        match self {
            Mode::Default => default_curve(temp),
            Mode::Quiet => quiet_curve(temp),
        }
    }

    /// The lowest duty that the profile asks for.
    pub open spec fn floor(self) -> int {
        match self {
            Mode::Default => DEFAULT_FLOOR as int,
            Mode::Quiet => QUIET_FLOOR as int,
        }
    }

    /// The profile that an argument list selects. The list begins with the
    /// program's name. Without a further argument the default profile is
    /// taken; else the second entry has to be one of the two flags. Entries
    /// after the second are not looked at.
    pub open spec fn selected(args: Seq<String>) -> Result<Mode, Error> {
        if args.len() == 0 {
            Err(Error::NoExecName)
        } else if args.len() == 1 {
            Ok(Mode::Default)
        } else if args[1]@ == QUIET_MODE_ARG@ {
            Ok(Mode::Quiet)
        } else if args[1]@ == DEFAULT_MODE_ARG@ {
            Ok(Mode::Default)
        } else {
            Err(Error::WrongArgs(args[0]))
        }
    }

    /// Picks the profile by the process's arguments.
    pub fn from_args(args: &Vec<String>) -> (mode: Result<Mode, Error>)
        ensures
            mode == Mode::selected(args@),
    {
        if args.len() == 0 {
            return Err(Error::NoExecName);
        }
        if args.len() == 1 {
            return Ok(Mode::Default);
        }
        let quiet = String::from_str(QUIET_MODE_ARG);
        let default = String::from_str(DEFAULT_MODE_ARG);
        if args[1] == quiet {
            Ok(Mode::Quiet)
        } else if args[1] == default {
            Ok(Mode::Default)
        } else {
            Err(Error::WrongArgs(args[0].clone()))
        }
    }

    /// The profile's name, for messages.
    pub fn name(&self) -> (text: String)
        ensures
            text@ == match self {
                Mode::Default => "default mode"@,
                Mode::Quiet => "quiet mode"@,
            },
    {
        match self {
            Mode::Default => String::from_str("default mode"),
            Mode::Quiet => String::from_str("quiet mode"),
        }
    }

    /// Desired duty of this profile at `temp` degrees.
    pub fn desired_duty(&self, temp: u8) -> (duty: u8)
        ensures
            duty == self.curve(temp as int),
            self.floor() <= duty <= DUTY_CEILING,
    {
        match self {
            Mode::Default => calc_next_duty(temp),
            Mode::Quiet => calc_next_duty_quiet(temp),
        }
    }

    /// Every profile stays between its floor and full speed, at every
    /// temperature.
    pub proof fn lemma_curve_in_range(self, temp: int)
        ensures
            0 <= self.floor() <= self.curve(temp) <= DUTY_CEILING,
    {
    }

    /// Every profile is nondecreasing in the temperature.
    pub proof fn lemma_curve_monotonic(self, cooler: int, warmer: int)
        requires
            cooler <= warmer,
        ensures
            self.curve(cooler) <= self.curve(warmer),
    {
    }
}

} // verus!
