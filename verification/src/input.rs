//! Controller state as the bus sees it: live button levels plus the
//! shift-register snapshot taken when the strobe line drops.

use vstd::prelude::*;

verus! {

/// Live button levels for one controller.
#[derive(Debug, Clone, Copy, PartialEq, Eq, Structural)]
pub struct JoypadState {
    pub a: bool,
    pub b: bool,
    pub select: bool,
    pub start: bool,
    pub up: bool,
    pub down: bool,
    pub left: bool,
    pub right: bool,
}

/// The eight button bits latched into the controller's shift register,
/// lowest bit reported first; vacated high bits read back as pressed.
#[derive(Debug, Clone, Copy, PartialEq, Eq, Structural)]
pub struct LatchedJoypadState(pub u8);

/// The byte a latch of `j` produces: buttons packed in report order.
pub open spec fn spec_latch(j: JoypadState) -> u8 {
    add8(
        add8(
            add8(
                add8(
                    add8(
                        add8(
                            add8(
                                if j.a { 1u8 } else { 0u8 },
                                if j.b { 2u8 } else { 0u8 },
                            ),
                            if j.select { 4u8 } else { 0u8 },
                        ),
                        if j.start { 8u8 } else { 0u8 },
                    ),
                    if j.up { 16u8 } else { 0u8 },
                ),
                if j.down { 32u8 } else { 0u8 },
            ),
            if j.left { 64u8 } else { 0u8 },
        ),
        if j.right { 128u8 } else { 0u8 },
    )
}

/// Byte addition without overflow concerns at spec level.
pub open spec fn add8(a: u8, b: u8) -> u8 {
    (a + b) as u8
}

impl JoypadState {
    pub fn new() -> (r: Self)
        ensures
            r == (JoypadState {
                a: false,
                b: false,
                select: false,
                start: false,
                up: false,
                down: false,
                left: false,
                right: false,
            }),
    {
        JoypadState {
            a: false,
            b: false,
            select: false,
            start: false,
            up: false,
            down: false,
            left: false,
            right: false,
        }
    }

    /// Snapshots the current button levels into a shift register.
    pub fn latch(self) -> (r: LatchedJoypadState)
        ensures
            r.0 == spec_latch(self),
    {
        let mut v: u8 = 0;
        if self.a {
            v = v + 1;
        }
        if self.b {
            v = v + 2;
        }
        if self.select {
            v = v + 4;
        }
        if self.start {
            v = v + 8;
        }
        if self.up {
            v = v + 16;
        }
        if self.down {
            v = v + 32;
        }
        if self.left {
            v = v + 64;
        }
        if self.right {
            v = v + 128;
        }
        LatchedJoypadState(v)
    }
}

impl LatchedJoypadState {
    /// The next button bit to report.
    pub fn next_bit(self) -> (r: u8)
        ensures
            r == self.0 & 0x01,
    {
        self.0 & 0x01
    }

    /// Consumes one report: later reads see the following buttons, and
    /// reads past the eighth report a pressed level.
    pub fn shift(self) -> (r: Self)
        ensures
            r.0 == (self.0 >> 1) | 0x80,
    {
        LatchedJoypadState((self.0 >> 1) | 0x80)
    }
}

} // verus!
