//! Named configuration modes the facade mirrors to both sides of the port.

use vstd::prelude::*;

verus! {

/// Number of bits per character.
#[derive(Clone, Copy, Debug, PartialEq, Eq, Structural)]
pub enum CharSize {
    Five,
    Six,
    Seven,
    Eight,
}

/// Parity checking mode.
#[derive(Clone, Copy, Debug, PartialEq, Eq, Structural)]
pub enum Parity {
    Even,
    Odd,
    NoParity,
}

/// Flow control mode.
#[derive(Clone, Copy, Debug, PartialEq, Eq, Structural)]
pub enum FlowControl {
    Hardware,
    Software,
    NoFlowControl,
}

/// The facade's record of the settings one side of the port has accepted.
///
/// The two sides are independently duplicated handles; a setting changed on
/// one side reaches the other only when the facade explicitly mirrors it.
pub struct PortConfig {
    pub baud: u32,
    pub char_size: CharSize,
    pub two_stop_bits: bool,
    pub parity: Parity,
    pub flow_control: FlowControl,
    pub timeout_ms: u64,
}

impl PortConfig {
    /// The record a side starts with: the requested baud rate, the
    /// driver's default framing, and the construction-time timeout.
    pub open spec fn initial(baud: u32, timeout_ms: u64) -> PortConfig {
        PortConfig {
            baud,
            char_size: CharSize::Eight,
            two_stop_bits: false,
            parity: Parity::NoParity,
            flow_control: FlowControl::NoFlowControl,
            timeout_ms,
        }
    }

    pub open spec fn with_baud(self, baud: u32) -> PortConfig {
        PortConfig { baud, ..self }
    }

    pub open spec fn with_char_size(self, char_size: CharSize) -> PortConfig {
        PortConfig { char_size, ..self }
    }

    pub open spec fn with_two_stop_bits(self, two_stop_bits: bool) -> PortConfig {
        PortConfig { two_stop_bits, ..self }
    }

    pub open spec fn with_parity(self, parity: Parity) -> PortConfig {
        PortConfig { parity, ..self }
    }

    pub open spec fn with_flow_control(self, flow_control: FlowControl) -> PortConfig {
        PortConfig { flow_control, ..self }
    }

    pub open spec fn with_timeout_ms(self, timeout_ms: u64) -> PortConfig {
        PortConfig { timeout_ms, ..self }
    }
}

} // verus!
