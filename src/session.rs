//! The device record and the command-mode session.
//!
//! The library decides; a driver acts. Each decision is handed to the driver as
//! a list of [`Step`]s to perform in order against the serial port, the mode
//! line and the clock, and each reply the driver reads is handed back to the
//! session, which tells success from failure and keeps the device record.
//!
//! A session owns the device record for its whole life: `Hc12::command` takes
//! the record by value and only `Command::close` gives it back, so a second
//! session on the same device cannot be written.
use vstd::prelude::*;
use crate::rates::{BaudRate, TransmissionMode, baud_value, baud_index, baud_candidates, BAUD_RATE_COUNT};
use crate::protocol::{
    ok_reply, baud_reply, mode_marker, default_reply, forced_rate, bytes_equal, ok_text,
    baud_confirmation, mode_confirmation, default_confirmation, forced_rate_of,
};
use crate::text::{contains, contains_bytes};

verus! {

/// Milliseconds that must pass after command mode is left before it is entered again.
pub const QUIET_WINDOW_MS: u64 = 201;

/// Milliseconds to wait after the mode line falls, and after a request is written.
pub const SETTLE_MS: u32 = 200;

/// Milliseconds that a reply read may take.
pub const READ_TIMEOUT_MS: u32 = 200;

/// Bytes of a reply that are read.
pub const REPLY_CAPACITY: usize = 14;

/// The factory rate of the module, at which the serial port starts.
pub const FACTORY_BAUD: u32 = 9600;

/// What went wrong in an exchange with the module.
#[derive(Clone, Copy, Debug, PartialEq, Eq, Structural)]
pub enum Hc12Error {
    /// The module did not answer `AT` with `OK`.
    Test,
    /// The module did not confirm the requested rate.
    BaudRate,
    /// The module answered at none of the rates.
    AutoBaudRate,
    /// The module did not confirm the requested transmission mode.
    TransmissionMode,
    /// The module did not confirm the factory reset.
    Default,
}

/// One thing for the driver to do.
#[derive(Debug)]
pub enum Step {
    /// Wait this many milliseconds.
    Sleep(u32),
    /// Drive the mode line high (`true`, data mode) or low (`false`, command mode).
    SetModeLine(bool),
    /// Drop whatever the serial port has buffered.
    ClearReceiveBuffer,
    /// Write these bytes.
    Write(Vec<u8>),
    /// Read up to this many bytes within this many milliseconds; what was read is the reply.
    Read(usize, u32),
    /// Switch the local serial port to this rate.
    ChangeBaudRate(u32),
}

/// What the driver knows of the device.
pub struct DeviceState {
    /// Rate of the local serial port, which is the module's confirmed rate.
    pub baud: u32,
    /// Level of the mode line.
    pub mode_line_high: bool,
    /// Time, in milliseconds, at which command mode was last left.
    pub last_command_exit: u64,
}

/// The device record: the local rate, the mode line and the quiet-window clock.
pub struct Hc12 {
    baud: u32,
    mode_line_high: bool,
    last_command_exit: u64,
}

impl View for Hc12 {
    type V = DeviceState;

    closed spec fn view(&self) -> DeviceState {
        DeviceState {
            baud: self.baud,
            mode_line_high: self.mode_line_high,
            last_command_exit: self.last_command_exit,
        }
    }
}

/// Milliseconds still to wait, at time `now`, before command mode may be
/// entered when it was last left at `last_exit`.
pub open spec fn quiet_shortfall(last_exit: u64, now: u64) -> nat {
    let elapsed: int = if now >= last_exit { now - last_exit } else { 0 };
    if elapsed < QUIET_WINDOW_MS {
        (QUIET_WINDOW_MS - elapsed) as nat
    } else {
        0
    }
}

/// The steps that enter command mode after waiting `wait` milliseconds.
pub open spec fn entry_steps(wait: nat) -> Seq<Step> {
    let tail = seq![Step::SetModeLine(false), Step::Sleep(SETTLE_MS)];
    if wait > 0 {
        seq![Step::Sleep(wait as u32)] + tail
    } else {
        tail
    }
}

/// The steps of one request/reply exchange.
pub open spec fn exchange_steps(request: Vec<u8>) -> Seq<Step> {
    seq![
        Step::ClearReceiveBuffer,
        Step::Write(request),
        Step::Sleep(SETTLE_MS),
        Step::Read(REPLY_CAPACITY, READ_TIMEOUT_MS),
    ]
}

impl Hc12 {
    /// The record of a device whose mode line was just driven high at `now`;
    /// its serial port runs at `baud_rate`, or at the factory rate when none is
    /// given (the driver then detects the rate in a first session).
    pub fn new(baud_rate: Option<BaudRate>, now: u64) -> (r: Hc12)
        ensures
            r@.baud == match baud_rate {
                Some(b) => baud_value(b),
                None => FACTORY_BAUD as nat,
            },
            r@.mode_line_high,
            r@.last_command_exit == now,
    {
        let baud = match baud_rate {
            Some(b) => b.numeral(),
            None => FACTORY_BAUD,
        };
        Hc12 { baud, mode_line_high: true, last_command_exit: now }
    }

    /// Rate of the local serial port.
    pub fn baud(&self) -> (r: u32)
        ensures
            r == self@.baud,
    {
        self.baud
    }

    /// Level of the mode line.
    pub fn mode_line_high(&self) -> (r: bool)
        ensures
            r == self@.mode_line_high,
    {
        self.mode_line_high
    }

    /// Time at which command mode was last left.
    pub fn last_command_exit(&self) -> (r: u64)
        ensures
            r == self@.last_command_exit,
    {
        self.last_command_exit
    }

    /// Milliseconds still to wait at `now` before command mode may be entered.
    pub fn quiet_wait(&self, now: u64) -> (r: u32)
        ensures
            r as nat == quiet_shortfall(self@.last_command_exit, now),
    {
        let elapsed: u64 = if now >= self.last_command_exit {
            now - self.last_command_exit
        } else {
            0
        };
        if elapsed < QUIET_WINDOW_MS {
            (QUIET_WINDOW_MS - elapsed) as u32
        } else {
            0
        }
    }

    /// Opens a command session at time `now`. The steps wait out what is left
    /// of the quiet window, drive the mode line low and let the module settle.
    pub fn command(self, now: u64) -> (r: (Command, Vec<Step>))
        ensures
            r.0@.baud == self@.baud,
            r.0@.last_command_exit == self@.last_command_exit,
            !r.0@.mode_line_high,
            r.1@ == entry_steps(quiet_shortfall(self@.last_command_exit, now)),
    {
        let wait = self.quiet_wait(now);
        let mut steps: Vec<Step> = Vec::new();
        if wait > 0 {
            steps.push(Step::Sleep(wait));
        }
        steps.push(Step::SetModeLine(false));
        steps.push(Step::Sleep(SETTLE_MS));
        assert(steps@ =~= entry_steps(quiet_shortfall(self@.last_command_exit, now)));
        let mut hc_12 = self;
        hc_12.mode_line_high = false;
        (Command { hc_12 }, steps)
    }
}

/// An open command session, which holds the device record until it is closed.
pub struct Command {
    hc_12: Hc12,
}

impl View for Command {
    type V = DeviceState;

    closed spec fn view(&self) -> DeviceState {
        self.hc_12@
    }
}

/// What one probe of rate detection leads to.
#[derive(Clone, Copy, Debug, PartialEq, Eq, Structural)]
pub enum AutoBaud {
    /// The module answered at this rate, which is now the local rate.
    Found(BaudRate),
    /// Switch the serial port to this rate and test again.
    Probe(BaudRate),
}

/// What a test reply means.
pub open spec fn test_outcome(reply: Seq<u8>) -> Result<(), Hc12Error> {
    if reply == ok_reply() {
        Ok(())
    } else {
        Err(Hc12Error::Test)
    }
}

/// What a probe at `probed` leads to, given whether the module answered the test.
pub open spec fn auto_baud_step(probed: BaudRate, answered: bool) -> Result<AutoBaud, Hc12Error> {
    if answered {
        Ok(AutoBaud::Found(probed))
    } else if baud_index(probed) + 1 < BAUD_RATE_COUNT {
        Ok(AutoBaud::Probe(baud_candidates()[baud_index(probed) + 1 as int]))
    } else {
        Err(Hc12Error::AutoBaudRate)
    }
}

/// What a reply to a rate change means.
pub open spec fn set_baud_outcome(rate: BaudRate, reply: Seq<u8>) -> Result<(), Hc12Error> {
    if reply == baud_reply(rate) {
        Ok(())
    } else {
        Err(Hc12Error::BaudRate)
    }
}

/// What a reply to a mode change means.
pub open spec fn mode_outcome(mode: TransmissionMode, reply: Seq<u8>) -> Result<(), Hc12Error> {
    if contains(reply, mode_marker(mode)) {
        Ok(())
    } else {
        Err(Hc12Error::TransmissionMode)
    }
}

/// The local rate after a reply `reply` to a mode change, when it was `baud` before.
pub open spec fn baud_after_mode(baud: u32, mode: TransmissionMode, reply: Seq<u8>) -> u32 {
    if mode_outcome(mode, reply) is Ok {
        match forced_rate(reply) {
            Some(v) => v as u32,
            None => baud,
        }
    } else {
        baud
    }
}

/// What a reply to a factory reset means.
pub open spec fn default_outcome(reply: Seq<u8>) -> Result<(), Hc12Error> {
    if reply == default_reply() {
        Ok(())
    } else {
        Err(Hc12Error::Default)
    }
}

impl Command {
    /// The device record as the session holds it.
    pub fn device(&self) -> (r: &Hc12)
        ensures
            r@ == self@,
    {
        &self.hc_12
    }

    /// The steps that send `request` and read the reply: clear what is
    /// buffered, write, let the module answer, read.
    pub fn send_command(&self, request: Vec<u8>) -> (r: Vec<Step>)
        ensures
            r@ == exchange_steps(request),
    {
        let mut steps: Vec<Step> = Vec::new();
        steps.push(Step::ClearReceiveBuffer);
        steps.push(Step::Write(request));
        steps.push(Step::Sleep(SETTLE_MS));
        steps.push(Step::Read(REPLY_CAPACITY, READ_TIMEOUT_MS));
        assert(steps@ =~= exchange_steps(request));
        steps
    }

    /// Judges the reply to `AT`: success exactly on `OK\r\n`.
    pub fn test(&self, reply: &[u8]) -> (r: Result<(), Hc12Error>)
        ensures
            r == test_outcome(reply@),
    {
        if bytes_equal(reply, ok_text().as_slice()) {
            Ok(())
        } else {
            Err(Hc12Error::Test)
        }
    }

    /// Judges the reply to `AT` sent at rate `probed` during rate detection
    /// (a failed exchange counts as any reply other than `OK\r\n`). On
    /// `OK\r\n` the probed rate becomes the local rate; otherwise the next
    /// rate in ascending order is to be probed, and after the last one
    /// detection fails.
    pub fn auto_baud(&mut self, probed: BaudRate, reply: &[u8]) -> (r: Result<AutoBaud, Hc12Error>)
        ensures
            r == auto_baud_step(probed, reply@ == ok_reply()),
            final(self)@.baud == if r == Ok::<AutoBaud, Hc12Error>(AutoBaud::Found(probed)) {
                baud_value(probed) as u32
            } else {
                old(self)@.baud
            },
            final(self)@.mode_line_high == old(self)@.mode_line_high,
            final(self)@.last_command_exit == old(self)@.last_command_exit,
    {
        if self.test(reply).is_ok() {
            self.hc_12.baud = probed.numeral();
            return Ok(AutoBaud::Found(probed));
        }
        let i = probed.index();
        if i + 1 < BAUD_RATE_COUNT {
            Ok(AutoBaud::Probe(BaudRate::candidate(i + 1)))
        } else {
            Err(Hc12Error::AutoBaudRate)
        }
    }

    /// Judges the reply to `AT+B<numeral>`: success exactly on
    /// `OK+B<numeral>\r\n`, and only then is `rate` the local rate.
    pub fn set_baud(&mut self, rate: BaudRate, reply: &[u8]) -> (r: Result<(), Hc12Error>)
        ensures
            r == set_baud_outcome(rate, reply@),
            final(self)@.baud == if r is Ok {
                baud_value(rate) as u32
            } else {
                old(self)@.baud
            },
            final(self)@.mode_line_high == old(self)@.mode_line_high,
            final(self)@.last_command_exit == old(self)@.last_command_exit,
    {
        if bytes_equal(reply, baud_confirmation(rate).as_slice()) {
            self.hc_12.baud = rate.numeral();
            Ok(())
        } else {
            Err(Hc12Error::BaudRate)
        }
    }

    /// Judges the reply to `AT+FU<digit>`: success exactly when it contains
    /// `OK+FU<digit>`; a rate that the reply then forces becomes the local rate.
    pub fn set_transmission_mode(&mut self, mode: TransmissionMode, reply: &[u8]) -> (r: Result<
        (),
        Hc12Error,
    >)
        ensures
            r == mode_outcome(mode, reply@),
            final(self)@.baud == baud_after_mode(old(self)@.baud, mode, reply@),
            final(self)@.mode_line_high == old(self)@.mode_line_high,
            final(self)@.last_command_exit == old(self)@.last_command_exit,
    {
        if !contains_bytes(reply, mode_confirmation(mode).as_slice()) {
            return Err(Hc12Error::TransmissionMode);
        }
        if let Some(forced) = forced_rate_of(reply) {
            self.hc_12.baud = forced;
        }
        Ok(())
    }

    /// Judges the reply to `AT+DEFAULT`: success exactly on `OK+DEFAULT\r\n`.
    /// The local rate is left as it is.
    pub fn set_default(&self, reply: &[u8]) -> (r: Result<(), Hc12Error>)
        ensures
            r == default_outcome(reply@),
    {
        if bytes_equal(reply, default_confirmation().as_slice()) {
            Ok(())
        } else {
            Err(Hc12Error::Default)
        }
    }

    /// Closes the session at time `now`, whatever became of its exchanges: the
    /// mode line goes high and the quiet window starts again.
    pub fn close(self, now: u64) -> (r: (Hc12, Vec<Step>))
        ensures
            r.0@.baud == self@.baud,
            r.0@.mode_line_high,
            r.0@.last_command_exit == now,
            r.1@ == seq![Step::SetModeLine(true)],
    {
        let mut hc_12 = self.hc_12;
        hc_12.mode_line_high = true;
        hc_12.last_command_exit = now;
        let mut steps: Vec<Step> = Vec::new();
        steps.push(Step::SetModeLine(true));
        assert(steps@ =~= seq![Step::SetModeLine(true)]);
        (hc_12, steps)
    }
}

} // verus!
