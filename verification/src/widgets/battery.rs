//! The battery gauge: how full the bar is and in which colour it is drawn.

use ratatui::style::Color;
use vstd::prelude::*;

verus! {

/// A colour of the terminal. It is handed through to the drawing as it came.
#[verifier::external_type_specification]
#[verifier::external_body]
pub struct ExColor(Color);

/// What the gauge shows of the battery at the moment.
#[derive(Debug, Clone, Copy, PartialEq, Eq, Structural)]
pub struct BatteryState {
    pub current_capacity: u32,
    pub is_charging: bool,
}

impl BatteryState {
    pub fn new(current_capacity: u32, is_charging: bool) -> (r: BatteryState)
        ensures
            r == (BatteryState { current_capacity, is_charging }),
    {
        BatteryState { current_capacity, is_charging }
    }
}

impl Default for BatteryState {
    fn default() -> (r: BatteryState)
        ensures
            r == (BatteryState { current_capacity: 0, is_charging: false }),
    {
        BatteryState::new(0, false)
    }
}

/// The share of the design capacity that is left, in per cent: no more than
/// a hundred, and nothing where the design capacity is not known.
pub open spec fn percent_of(current: u32, design: u32) -> u32 {
    if design == 0 {
        0
    } else if current * 100 / (design as int) >= 100 {
        100
    } else {
        (current * 100 / (design as int)) as u32
    }
}

/// The gauge: its three colours and the capacities at which they change.
pub struct Battery {
    pub color_high: Color,
    pub color_warning: Color,
    pub color_low: Color,
    pub design_capacity: u32,
    pub warning_capacity: u32,
    pub low_capacity: u32,
}

impl Battery {
    pub fn new(
        color_high: Color,
        color_warning: Color,
        color_low: Color,
        design_capacity: u32,
        warning_capacity: u32,
        low_capacity: u32,
    ) -> (r: Battery)
        ensures
            r == (Battery {
                color_high,
                color_warning,
                color_low,
                design_capacity,
                warning_capacity,
                low_capacity,
            }),
    {
        Battery {
            color_high,
            color_warning,
            color_low,
            design_capacity,
            warning_capacity,
            low_capacity,
        }
    }

    pub fn color_high(self, color: Color) -> (r: Battery)
        ensures
            r == (Battery { color_high: color, ..self }),
    {
        Battery { color_high: color, ..self }
    }

    pub fn color_warning(self, color: Color) -> (r: Battery)
        ensures
            r == (Battery { color_warning: color, ..self }),
    {
        Battery { color_warning: color, ..self }
    }

    pub fn color_low(self, color: Color) -> (r: Battery)
        ensures
            r == (Battery { color_low: color, ..self }),
    {
        Battery { color_low: color, ..self }
    }

    pub fn design_capacity(self, capacity: u32) -> (r: Battery)
        ensures
            r == (Battery { design_capacity: capacity, ..self }),
    {
        Battery { design_capacity: capacity, ..self }
    }

    pub fn warning_capacity(self, capacity: u32) -> (r: Battery)
        ensures
            r == (Battery { warning_capacity: capacity, ..self }),
    {
        Battery { warning_capacity: capacity, ..self }
    }

    pub fn low_capacity(self, capacity: u32) -> (r: Battery)
        ensures
            r == (Battery { low_capacity: capacity, ..self }),
    {
        Battery { low_capacity: capacity, ..self }
    }

    /// How full the bar is drawn, in per cent.
    pub fn percent(&self, state: &BatteryState) -> (r: u32)
        ensures
            r == percent_of(state.current_capacity, self.design_capacity),
            r <= 100,
    {
        if self.design_capacity == 0 {
            0
        } else {
            let scaled: u64 = state.current_capacity as u64 * 100;
            let share: u64 = scaled / self.design_capacity as u64;
            if share >= 100 {
                100
            } else {
                share as u32
            }
        }
    }

    /// The colour in which the bar is drawn: the low colour below the low
    /// capacity, the warning colour below the warning capacity, and the high
    /// colour from there on.
    pub fn bar_color(&self, state: &BatteryState) -> (r: Color)
        ensures
            r == if state.current_capacity < self.low_capacity {
                self.color_low
            } else if state.current_capacity < self.warning_capacity {
                self.color_warning
            } else {
                self.color_high
            },
    {
        if state.current_capacity < self.low_capacity {
            self.color_low
        } else if state.current_capacity < self.warning_capacity {
            self.color_warning
        } else {
            self.color_high
        }
    }
}

} // verus!
