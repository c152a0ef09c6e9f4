//! The closed sets of values that the module's configuration commands take.
use vstd::prelude::*;

verus! {

/// A serial bit rate that the module supports.
#[derive(Clone, Copy, Debug, PartialEq, Eq, Structural)]
pub enum BaudRate {
    Baud1200,
    Baud2400,
    Baud4800,
    Baud9600,
    Baud19200,
    Baud38400,
    Baud57600,
    Baud115200,
}

/// Number of supported bit rates.
pub const BAUD_RATE_COUNT: usize = 8;

/// The bit rate as an integer number of baud.
pub open spec fn baud_value(rate: BaudRate) -> nat {
    match rate {
        BaudRate::Baud1200 => 1200,
        BaudRate::Baud2400 => 2400,
        BaudRate::Baud4800 => 4800,
        BaudRate::Baud9600 => 9600,
        BaudRate::Baud19200 => 19200,
        BaudRate::Baud38400 => 38400,
        BaudRate::Baud57600 => 57600,
        BaudRate::Baud115200 => 115200,
    }
}

/// Position of the rate in ascending order, starting at 0.
pub open spec fn baud_index(rate: BaudRate) -> nat {
    match rate {
        BaudRate::Baud1200 => 0,
        BaudRate::Baud2400 => 1,
        BaudRate::Baud4800 => 2,
        BaudRate::Baud9600 => 3,
        BaudRate::Baud19200 => 4,
        BaudRate::Baud38400 => 5,
        BaudRate::Baud57600 => 6,
        BaudRate::Baud115200 => 7,
    }
}

/// The rates in ascending order.
pub open spec fn baud_candidates() -> Seq<BaudRate> {
    seq![
        BaudRate::Baud1200,
        BaudRate::Baud2400,
        BaudRate::Baud4800,
        BaudRate::Baud9600,
        BaudRate::Baud19200,
        BaudRate::Baud38400,
        BaudRate::Baud57600,
        BaudRate::Baud115200,
    ]
}

impl BaudRate {
    /// The rate in baud.
    pub fn numeral(&self) -> (r: u32)
        ensures
            r as nat == baud_value(*self),
    {
        match self {
            BaudRate::Baud1200 => 1200,
            BaudRate::Baud2400 => 2400,
            BaudRate::Baud4800 => 4800,
            BaudRate::Baud9600 => 9600,
            BaudRate::Baud19200 => 19200,
            BaudRate::Baud38400 => 38400,
            BaudRate::Baud57600 => 57600,
            BaudRate::Baud115200 => 115200,
        }
    }

    /// The rate at position `i` of the ascending order.
    pub fn candidate(i: usize) -> (r: BaudRate)
        requires
            i < BAUD_RATE_COUNT,
        ensures
            r == baud_candidates()[i as int],
            baud_index(r) == i,
    {
        match i {
            0 => BaudRate::Baud1200,
            1 => BaudRate::Baud2400,
            2 => BaudRate::Baud4800,
            3 => BaudRate::Baud9600,
            4 => BaudRate::Baud19200,
            5 => BaudRate::Baud38400,
            6 => BaudRate::Baud57600,
            _ => BaudRate::Baud115200,
        }
    }

    /// The position of this rate in ascending order.
    pub fn index(&self) -> (r: usize)
        ensures
            r as nat == baud_index(*self),
            r < BAUD_RATE_COUNT,
            baud_candidates()[r as int] == *self,
    {
        match self {
            BaudRate::Baud1200 => 0,
            BaudRate::Baud2400 => 1,
            BaudRate::Baud4800 => 2,
            BaudRate::Baud9600 => 3,
            BaudRate::Baud19200 => 4,
            BaudRate::Baud38400 => 5,
            BaudRate::Baud57600 => 6,
            BaudRate::Baud115200 => 7,
        }
    }
}

/// The factory rate, the only one at which an unconfigured module answers.
impl Default for BaudRate {
    fn default() -> (r: BaudRate)
        ensures
            r == BaudRate::Baud9600,
    {
        BaudRate::Baud9600
    }
}

impl From<BaudRate> for u32 {
    fn from(rate: BaudRate) -> (r: u32)
        ensures
            r as nat == baud_value(rate),
    {
        rate.numeral()
    }
}

impl vstd::std_specs::convert::FromSpecImpl<BaudRate> for u32 {
    open spec fn obeys_from_spec() -> bool {
        true
    }

    open spec fn from_spec(rate: BaudRate) -> u32 {
        baud_value(rate) as u32
    }
}

impl From<&BaudRate> for u32 {
    fn from(rate: &BaudRate) -> (r: u32)
        ensures
            r as nat == baud_value(*rate),
    {
        rate.numeral()
    }
}

impl vstd::std_specs::convert::FromSpecImpl<&BaudRate> for u32 {
    open spec fn obeys_from_spec() -> bool {
        true
    }

    open spec fn from_spec(rate: &BaudRate) -> u32 {
        baud_value(*rate) as u32
    }
}

/// A radio transmission mode of the module.
#[derive(Clone, Copy, Debug, PartialEq, Eq, Structural)]
pub enum TransmissionMode {
    Fu1,
    Fu2,
    Fu3,
    Fu4,
}

/// The digit by which the module names the mode.
pub open spec fn mode_digit(mode: TransmissionMode) -> nat {
    match mode {
        TransmissionMode::Fu1 => 1,
        TransmissionMode::Fu2 => 2,
        TransmissionMode::Fu3 => 3,
        TransmissionMode::Fu4 => 4,
    }
}

impl TransmissionMode {
    /// The digit by which the module names the mode.
    pub fn digit(&self) -> (r: u32)
        ensures
            r as nat == mode_digit(*self),
    {
        match self {
            TransmissionMode::Fu1 => 1,
            TransmissionMode::Fu2 => 2,
            TransmissionMode::Fu3 => 3,
            TransmissionMode::Fu4 => 4,
        }
    }
}

impl From<TransmissionMode> for u32 {
    fn from(mode: TransmissionMode) -> (r: u32)
        ensures
            r as nat == mode_digit(mode),
    {
        mode.digit()
    }
}

impl vstd::std_specs::convert::FromSpecImpl<TransmissionMode> for u32 {
    open spec fn obeys_from_spec() -> bool {
        true
    }

    open spec fn from_spec(mode: TransmissionMode) -> u32 {
        mode_digit(mode) as u32
    }
}

impl From<&TransmissionMode> for u32 {
    fn from(mode: &TransmissionMode) -> (r: u32)
        ensures
            r as nat == mode_digit(*mode),
    {
        mode.digit()
    }
}

impl vstd::std_specs::convert::FromSpecImpl<&TransmissionMode> for u32 {
    open spec fn obeys_from_spec() -> bool {
        true
    }

    open spec fn from_spec(mode: &TransmissionMode) -> u32 {
        mode_digit(*mode) as u32
    }
}

} // verus!
