//! A stand-in for the device: readings that rise and fall, a battery that
//! charges and discharges, and a log that says the same six things over and
//! over.

use crate::battery::{BatteryError, BatteryTechnology, BixData, BstData, ChargeState, PowerUnit, SwapCap};
use crate::decoder::{data_byte, is_packed, pack, rzcobs_encoded};
use crate::scan::lemma_run_ends;
use vstd::bytes::{spec_u16_to_le_bytes, spec_u64_to_le_bytes, u16_to_le_bytes, u64_to_le_bytes};
use vstd::prelude::*;

verus! {

/// The lowest temperature reported, in tenths of a kelvin.
pub const TEMP_MIN: u32 = 2732;

/// The highest temperature reported, in tenths of a kelvin.
pub const TEMP_MAX: u32 = 3232;

/// By how much the temperature moves from one reading to the next.
pub const TEMP_STEP: u32 = 10;

/// The capacity of the battery when it is full.
pub const MAX_CAPACITY: u32 = 10000;

/// By how much the capacity moves from one reading to the next.
pub const RATE: u32 = 1000;

/// The index of the first log string of the firmware.
pub const DEFMT_START: u16 = 1;

/// The index of the last log string of the firmware.
pub const DEFMT_END: u16 = 6;

/// How far the time stamp moves from one log frame to the next.
pub const TIMESTAMP_STEP: u64 = 100000;

/// The plain bytes of a log frame without arguments: the index of its string
/// and its time stamp, both little-endian.
pub open spec fn wire_payload(index: u16, timestamp: u64) -> Seq<u8> {
    spec_u16_to_le_bytes(index) + spec_u64_to_le_bytes(timestamp)
}

/// A log frame without arguments as it stands on the wire: its plain bytes
/// packed, and the zero byte that ends the frame.
pub open spec fn wire_frame(index: u16, timestamp: u64) -> Seq<u8> {
    rzcobs_encoded(wire_payload(index, timestamp)).push(0)
}

/// Produces the bytes on the wire of the log frame for the string at `index`,
/// stamped `timestamp`. What is packed holds no zero byte and is not empty, so
/// that a decoder takes the result for one whole frame.
pub fn mock_defmt_wire(index: u16, timestamp: u64) -> (r: Vec<u8>)
    ensures
        r@ == wire_frame(index, timestamp),
        is_packed(rzcobs_encoded(wire_payload(index, timestamp))),
{
    let mut buf = u16_to_le_bytes(index);
    let mut stamp = u64_to_le_bytes(timestamp);
    proof {
        vstd::bytes::lemma_auto_spec_u16_to_from_le_bytes();
    }
    buf.append(&mut stamp);
    assert(buf@ =~= wire_payload(index, timestamp));
    let mut packed = pack(buf.as_slice());
    proof {
        lemma_run_ends(packed@, data_byte(), packed@.len() as int);
    }
    packed.push(0x00);
    packed
}

/// The state of the mock device as contracts see it.
pub struct MockView {
    /// The temperature, in tenths of a kelvin.
    pub temperature: u32,
    /// Whether the temperature is on its way up.
    pub rising: bool,
    /// The state of charge as the battery reports it: 1 while it discharges,
    /// 2 while it charges.
    pub state: u32,
    /// The remaining capacity.
    pub capacity: u32,
    /// The index of the string of the next log frame.
    pub defmt_idx: u16,
    /// The time stamp of the next log frame.
    pub timestamp: u64,
}

impl MockView {
    /// The readings stay within their ranges.
    pub open spec fn wf(self) -> bool {
        &&& TEMP_MIN <= self.temperature <= TEMP_MAX
        &&& (self.temperature - TEMP_MIN) % (TEMP_STEP as int) == 0
        &&& self.temperature == TEMP_MAX ==> !self.rising
        &&& self.temperature == TEMP_MIN ==> self.rising
        &&& (self.state == 1 || self.state == 2)
        &&& self.capacity <= MAX_CAPACITY
        &&& self.state == 1 ==> self.capacity >= RATE
        &&& DEFMT_START <= self.defmt_idx <= DEFMT_END
    }

    /// The temperature that the next reading gives: one step on in the
    /// direction it is going.
    pub open spec fn next_temperature(self) -> u32 {
        if self.rising {
            (self.temperature + TEMP_STEP) as u32
        } else {
            (self.temperature - TEMP_STEP) as u32
        }
    }

    /// The state after a reading of the temperature: the direction turns at
    /// either end of the range.
    pub open spec fn after_temperature(self) -> MockView {
        let t = self.next_temperature();
        MockView {
            temperature: t,
            rising: if t >= TEMP_MAX || t <= TEMP_MIN {
                !self.rising
            } else {
                self.rising
            },
            ..self
        }
    }

    /// The state after a reading of the battery's status. While charging the
    /// capacity rises by `RATE`, and once it would pass `MAX_CAPACITY` the
    /// battery turns to discharging; while discharging it falls by `RATE`, and
    /// once it is below `RATE` the battery turns to charging.
    pub open spec fn after_bst(self) -> MockView {
        if self.state == 2 {
            let raised = self.capacity + RATE;
            MockView {
                state: if raised > MAX_CAPACITY {
                    1
                } else {
                    2
                },
                capacity: if raised > MAX_CAPACITY {
                    MAX_CAPACITY
                } else {
                    raised as u32
                },
                ..self
            }
        } else {
            let lowered = self.capacity - RATE;
            MockView {
                state: if lowered < RATE {
                    2
                } else {
                    1
                },
                capacity: lowered as u32,
                ..self
            }
        }
    }

    /// The state after a log frame was read: the next string is the one
    /// after, or the first again after the last, and the time stamp moves on.
    pub open spec fn after_dbg(self) -> MockView {
        MockView {
            defmt_idx: if self.defmt_idx >= DEFMT_END {
                DEFMT_START
            } else {
                (self.defmt_idx + 1) as u16
            },
            timestamp: if self.timestamp + TIMESTAMP_STEP > u64::MAX {
                (self.timestamp + TIMESTAMP_STEP - u64::MAX - 1) as u64
            } else {
                (self.timestamp + TIMESTAMP_STEP) as u64
            },
            ..self
        }
    }
}

/// The mock device.
#[derive(Debug, Clone)]
pub struct Mock {
    temperature: u32,
    rising: bool,
    state: u32,
    capacity: u32,
    defmt_idx: u16,
    timestamp: u64,
}

impl View for Mock {
    type V = MockView;

    closed spec fn view(&self) -> MockView {
        MockView {
            temperature: self.temperature,
            rising: self.rising,
            state: self.state,
            capacity: self.capacity,
            defmt_idx: self.defmt_idx,
            timestamp: self.timestamp,
        }
    }
}

impl Default for Mock {
    fn default() -> (r: Mock)
        ensures
            r@ == Mock::spec_new(),
            r.wf(),
    {
        Mock::new()
    }
}

impl Mock {
    /// The readings stay within their ranges.
    pub open spec fn wf(&self) -> bool {
        self@.wf()
    }

    /// The device as it starts: as cold as it gets, charging from empty, about
    /// to log its first string at time zero.
    pub open spec fn spec_new() -> MockView {
        MockView {
            temperature: TEMP_MIN,
            rising: true,
            state: 2,
            capacity: 0,
            defmt_idx: DEFMT_START,
            timestamp: 0,
        }
    }

    pub fn new() -> (r: Mock)
        ensures
            r@ == Mock::spec_new(),
            r.wf(),
    {
        Mock {
            temperature: TEMP_MIN,
            rising: true,
            state: 2,
            capacity: 0,
            defmt_idx: DEFMT_START,
            timestamp: 0,
        }
    }

    /// The temperature, in tenths of a kelvin. It climbs to `TEMP_MAX`, falls
    /// to `TEMP_MIN`, and climbs again.
    pub fn get_temperature(&mut self) -> (r: u32)
        requires
            old(self).wf(),
        ensures
            final(self).wf(),
            final(self)@ == old(self)@.after_temperature(),
            r == old(self)@.next_temperature(),
            TEMP_MIN <= r <= TEMP_MAX,
    {
        let next: u32 = if self.rising {
            self.temperature + TEMP_STEP
        } else {
            self.temperature - TEMP_STEP
        };
        self.temperature = next;
        if next >= TEMP_MAX || next <= TEMP_MIN {
            self.rising = !self.rising;
        }
        next
    }

    /// The battery's status: what it held before this reading moved it on.
    pub fn get_bst(&mut self) -> (r: Result<BstData, BatteryError>)
        requires
            old(self).wf(),
        ensures
            final(self).wf(),
            final(self)@ == old(self)@.after_bst(),
            r matches Ok(bst) && bst.state == (if old(self)@.state == 1 {
                ChargeState::Discharging
            } else {
                ChargeState::Charging
            }) && bst.rate == 3839 && bst.capacity == old(self)@.capacity && bst.voltage == 12569,
    {
        let state: u32 = self.state;
        let capacity: u32 = self.capacity;
        let mut new_capacity: u32 = capacity;
        if state == 2 {
            new_capacity = new_capacity + RATE;
            if new_capacity > MAX_CAPACITY {
                self.state = 1;
            }
        } else {
            new_capacity = new_capacity - RATE;
            if new_capacity < RATE {
                self.state = 2;
            }
        }
        self.capacity = if new_capacity > MAX_CAPACITY {
            MAX_CAPACITY
        } else {
            new_capacity
        };
        match ChargeState::try_from(state) {
            Ok(state) => Ok(BstData { state, rate: 3839, capacity, voltage: 12569 }),
            Err(e) => Err(e),
        }
    }

    /// What the battery says of itself. It never changes.
    pub fn get_bix(&self) -> (r: BixData)
        ensures
            r.revision == 1,
            r.power_unit == PowerUnit::Mw,
            r.design_capacity == 10000,
            r.last_full_capacity == 9890,
            r.battery_technology == BatteryTechnology::Primary,
            r.design_voltage == 13000,
            r.warning_capacity == 5000,
            r.low_capacity == 3000,
            r.cycle_count == 1337,
            r.accuracy == 80000,
            r.max_sample_time == 42,
            r.min_sample_time == 7,
            r.max_average_interval == 5,
            r.min_average_interval == 1,
            r.capacity_gran1 == 10,
            r.capacity_gran2 == 10,
            r.model_number@ == "42.0"@,
            r.serial_number@ == "123-45-678"@,
            r.battery_type@ == "Li-ion"@,
            r.oem_info@ == "Battery Bros."@,
            r.swap_cap == SwapCap::ColdSwappable,
    {
        BixData {
            revision: 1,
            power_unit: PowerUnit::Mw,
            design_capacity: 10000,
            last_full_capacity: 9890,
            battery_technology: BatteryTechnology::Primary,
            design_voltage: 13000,
            warning_capacity: 5000,
            low_capacity: 3000,
            cycle_count: 1337,
            accuracy: 80000,
            max_sample_time: 42,
            min_sample_time: 7,
            max_average_interval: 5,
            min_average_interval: 1,
            capacity_gran1: 10,
            capacity_gran2: 10,
            model_number: "42.0".to_owned(),
            serial_number: "123-45-678".to_owned(),
            battery_type: "Li-ion".to_owned(),
            oem_info: "Battery Bros.".to_owned(),
            swap_cap: SwapCap::ColdSwappable,
        }
    }

    /// Takes a trip point and does nothing with it.
    pub fn set_btp(&self, trippoint: u32) {
    }

    /// The next log frame as it stands on the wire.
    pub fn get_dbg(&mut self) -> (r: Vec<u8>)
        requires
            old(self).wf(),
        ensures
            final(self).wf(),
            final(self)@ == old(self)@.after_dbg(),
            r@ == wire_frame(old(self)@.defmt_idx, old(self)@.timestamp),
    {
        let frame_idx: u16 = self.defmt_idx;
        let timestamp: u64 = self.timestamp;
        self.timestamp = timestamp.wrapping_add(TIMESTAMP_STEP);
        let frame = mock_defmt_wire(frame_idx, timestamp);
        self.defmt_idx = if frame_idx >= DEFMT_END {
            DEFMT_START
        } else {
            frame_idx + 1
        };
        frame
    }
}

} // verus!
