//! What a battery reports of itself, and the state of the battery tab.

use crate::input::{InputEvent, Key};
use crate::ring_buffer::{keep_last, RingBuffer};
use crate::text::{parse_u32, parsed_u32};
use vstd::prelude::*;
use vstd::std_specs::convert::TryFromSpecImpl;

verus! {

/// How many capacity samples the chart keeps.
pub const MAX_SAMPLES: usize = 60;

/// A number read from the battery that stands for nothing.
#[derive(Debug, Copy, Clone, PartialEq, Eq, Structural)]
pub enum BatteryError {
    UnknownChargeState,
    UnknownPowerUnit,
    UnknownTechnology,
    UnknownSwapCap,
}

impl BatteryError {
    /// The text shown for this error.
    pub fn message(&self) -> (r: &'static str)
        ensures
            r@ == match *self {
                BatteryError::UnknownChargeState => "Unknown charging state"@,
                BatteryError::UnknownPowerUnit => "Unknown power unit"@,
                BatteryError::UnknownTechnology => "Unknown battery technology"@,
                BatteryError::UnknownSwapCap => "Unknown swapping capability"@,
            },
    {
        match self {
            BatteryError::UnknownChargeState => "Unknown charging state",
            BatteryError::UnknownPowerUnit => "Unknown power unit",
            BatteryError::UnknownTechnology => "Unknown battery technology",
            BatteryError::UnknownSwapCap => "Unknown swapping capability",
        }
    }
}

#[derive(Debug, Clone, Copy, PartialEq, Eq, Structural)]
pub enum ChargeState {
    Charging,
    Discharging,
}

impl Default for ChargeState {
    fn default() -> (r: ChargeState)
        ensures
            r == ChargeState::Charging,
    {
        ChargeState::Charging
    }
}

impl TryFrom<u32> for ChargeState {
    type Error = BatteryError;

    fn try_from(value: u32) -> (r: Result<ChargeState, BatteryError>) {
        match value {
            1 => Ok(ChargeState::Discharging),
            2 => Ok(ChargeState::Charging),
            _ => Err(BatteryError::UnknownChargeState),
        }
    }
}

impl TryFromSpecImpl<u32> for ChargeState {
    open spec fn obeys_try_from_spec() -> bool {
        true
    }

    open spec fn try_from_spec(value: u32) -> Result<ChargeState, BatteryError> {
        if value == 1 {
            Ok(ChargeState::Discharging)
        } else if value == 2 {
            Ok(ChargeState::Charging)
        } else {
            Err(BatteryError::UnknownChargeState)
        }
    }
}

impl ChargeState {
    pub fn as_str(&self) -> (r: &'static str)
        ensures
            r@ == match *self {
                ChargeState::Charging => "Charging"@,
                ChargeState::Discharging => "Discharging"@,
            },
    {
        match self {
            ChargeState::Charging => "Charging",
            ChargeState::Discharging => "Discharging",
        }
    }
}

#[derive(Debug, Clone, Copy, PartialEq, Eq, Structural)]
pub enum PowerUnit {
    Mw,
    Ma,
}

impl Default for PowerUnit {
    fn default() -> (r: PowerUnit)
        ensures
            r == PowerUnit::Mw,
    {
        PowerUnit::Mw
    }
}

impl TryFrom<u32> for PowerUnit {
    type Error = BatteryError;

    fn try_from(value: u32) -> (r: Result<PowerUnit, BatteryError>) {
        match value {
            0 => Ok(PowerUnit::Mw),
            1 => Ok(PowerUnit::Ma),
            _ => Err(BatteryError::UnknownPowerUnit),
        }
    }
}

impl TryFromSpecImpl<u32> for PowerUnit {
    open spec fn obeys_try_from_spec() -> bool {
        true
    }

    open spec fn try_from_spec(value: u32) -> Result<PowerUnit, BatteryError> {
        if value == 0 {
            Ok(PowerUnit::Mw)
        } else if value == 1 {
            Ok(PowerUnit::Ma)
        } else {
            Err(BatteryError::UnknownPowerUnit)
        }
    }
}

impl PowerUnit {
    pub fn as_capacity_str(&self) -> (r: &'static str)
        ensures
            r@ == match *self {
                PowerUnit::Mw => "mWh"@,
                PowerUnit::Ma => "mAh"@,
            },
    {
        match self {
            PowerUnit::Mw => "mWh",
            PowerUnit::Ma => "mAh",
        }
    }

    pub fn as_rate_str(&self) -> (r: &'static str)
        ensures
            r@ == match *self {
                PowerUnit::Mw => "mW"@,
                PowerUnit::Ma => "mA"@,
            },
    {
        match self {
            PowerUnit::Mw => "mW",
            PowerUnit::Ma => "mA",
        }
    }
}

#[derive(Debug, Clone, Copy, PartialEq, Eq, Structural)]
pub enum BatteryTechnology {
    Primary,
    Secondary,
}

impl Default for BatteryTechnology {
    fn default() -> (r: BatteryTechnology)
        ensures
            r == BatteryTechnology::Primary,
    {
        BatteryTechnology::Primary
    }
}

impl TryFrom<u32> for BatteryTechnology {
    type Error = BatteryError;

    fn try_from(value: u32) -> (r: Result<BatteryTechnology, BatteryError>) {
        match value {
            0 => Ok(BatteryTechnology::Primary),
            1 => Ok(BatteryTechnology::Secondary),
            _ => Err(BatteryError::UnknownTechnology),
        }
    }
}

impl TryFromSpecImpl<u32> for BatteryTechnology {
    open spec fn obeys_try_from_spec() -> bool {
        true
    }

    open spec fn try_from_spec(value: u32) -> Result<BatteryTechnology, BatteryError> {
        if value == 0 {
            Ok(BatteryTechnology::Primary)
        } else if value == 1 {
            Ok(BatteryTechnology::Secondary)
        } else {
            Err(BatteryError::UnknownTechnology)
        }
    }
}

impl BatteryTechnology {
    pub fn as_str(&self) -> (r: &'static str)
        ensures
            r@ == match *self {
                BatteryTechnology::Primary => "Primary"@,
                BatteryTechnology::Secondary => "Secondary"@,
            },
    {
        match self {
            BatteryTechnology::Primary => "Primary",
            BatteryTechnology::Secondary => "Secondary",
        }
    }
}

#[derive(Debug, Clone, Copy, PartialEq, Eq, Structural)]
pub enum SwapCap {
    NonSwappable,
    ColdSwappable,
    HotSwappable,
}

impl Default for SwapCap {
    fn default() -> (r: SwapCap)
        ensures
            r == SwapCap::NonSwappable,
    {
        SwapCap::NonSwappable
    }
}

impl TryFrom<u32> for SwapCap {
    type Error = BatteryError;

    fn try_from(value: u32) -> (r: Result<SwapCap, BatteryError>) {
        match value {
            0 => Ok(SwapCap::NonSwappable),
            1 => Ok(SwapCap::ColdSwappable),
            2 => Ok(SwapCap::HotSwappable),
            _ => Err(BatteryError::UnknownSwapCap),
        }
    }
}

impl TryFromSpecImpl<u32> for SwapCap {
    open spec fn obeys_try_from_spec() -> bool {
        true
    }

    open spec fn try_from_spec(value: u32) -> Result<SwapCap, BatteryError> {
        if value == 0 {
            Ok(SwapCap::NonSwappable)
        } else if value == 1 {
            Ok(SwapCap::ColdSwappable)
        } else if value == 2 {
            Ok(SwapCap::HotSwappable)
        } else {
            Err(BatteryError::UnknownSwapCap)
        }
    }
}

impl SwapCap {
    pub fn as_str(&self) -> (r: &'static str)
        ensures
            r@ == match *self {
                SwapCap::NonSwappable => "Non swappable"@,
                SwapCap::ColdSwappable => "Cold swappable"@,
                SwapCap::HotSwappable => "Hot swappable"@,
            },
    {
        match self {
            SwapCap::NonSwappable => "Non swappable",
            SwapCap::ColdSwappable => "Cold swappable",
            SwapCap::HotSwappable => "Hot swappable",
        }
    }
}

/// BST: ACPI Battery Status
#[derive(Debug, Clone, PartialEq, Eq)]
pub struct BstData {
    pub state: ChargeState,
    pub rate: u32,
    pub capacity: u32,
    pub voltage: u32,
}

impl BstData {
    /// A status of which nothing was read yet.
    pub open spec fn is_default(&self) -> bool {
        &&& self.state == ChargeState::Charging
        &&& self.rate == 0
        &&& self.capacity == 0
        &&& self.voltage == 0
    }
}

impl Default for BstData {
    fn default() -> (r: BstData)
        ensures
            r.is_default(),
    {
        BstData { state: ChargeState::Charging, rate: 0, capacity: 0, voltage: 0 }
    }
}

/// BIX: ACPI Battery Information eXtended
#[derive(Debug, Clone, PartialEq, Eq)]
pub struct BixData {
    pub revision: u32,
    pub power_unit: PowerUnit,
    pub design_capacity: u32,
    pub last_full_capacity: u32,
    pub battery_technology: BatteryTechnology,
    pub design_voltage: u32,
    pub warning_capacity: u32,
    pub low_capacity: u32,
    pub cycle_count: u32,
    /// Thousands of a percent
    pub accuracy: u32,
    pub max_sample_time: u32,
    /// Milliseconds
    pub min_sample_time: u32,
    pub max_average_interval: u32,
    pub min_average_interval: u32,
    pub capacity_gran1: u32,
    pub capacity_gran2: u32,
    pub model_number: String,
    pub serial_number: String,
    pub battery_type: String,
    pub oem_info: String,
    pub swap_cap: SwapCap,
}

impl BixData {
    /// Information of which nothing was read yet.
    pub open spec fn is_default(&self) -> bool {
        &&& self.revision == 0
        &&& self.power_unit == PowerUnit::Mw
        &&& self.design_capacity == 0
        &&& self.last_full_capacity == 0
        &&& self.battery_technology == BatteryTechnology::Primary
        &&& self.design_voltage == 0
        &&& self.warning_capacity == 0
        &&& self.low_capacity == 0
        &&& self.cycle_count == 0
        &&& self.accuracy == 0
        &&& self.max_sample_time == 0
        &&& self.min_sample_time == 0
        &&& self.max_average_interval == 0
        &&& self.min_average_interval == 0
        &&& self.capacity_gran1 == 0
        &&& self.capacity_gran2 == 0
        &&& self.model_number@.len() == 0
        &&& self.serial_number@.len() == 0
        &&& self.battery_type@.len() == 0
        &&& self.oem_info@.len() == 0
        &&& self.swap_cap == SwapCap::NonSwappable
    }
}

impl Default for BixData {
    fn default() -> (r: BixData)
        ensures
            r.is_default(),
    {
        BixData {
            revision: 0,
            power_unit: PowerUnit::Mw,
            design_capacity: 0,
            last_full_capacity: 0,
            battery_technology: BatteryTechnology::Primary,
            design_voltage: 0,
            warning_capacity: 0,
            low_capacity: 0,
            cycle_count: 0,
            accuracy: 0,
            max_sample_time: 0,
            min_sample_time: 0,
            max_average_interval: 0,
            min_average_interval: 0,
            capacity_gran1: 0,
            capacity_gran2: 0,
            model_number: String::new(),
            serial_number: String::new(),
            battery_type: String::new(),
            oem_info: String::new(),
            swap_cap: SwapCap::NonSwappable,
        }
    }
}

/// What the battery tab keeps beside the battery's own data.
pub struct BatteryState {
    btp: u32,
    bst_success: bool,
    bix_success: bool,
    btp_success: bool,
    samples: RingBuffer<u32, MAX_SAMPLES>,
}

impl Default for BatteryState {
    /// Nothing was read yet, no trip point is set, and none has failed.
    fn default() -> (r: BatteryState)
        ensures
            r.wf(),
            r.btp() == 0,
            !r.bst_success(),
            !r.bix_success(),
            r.btp_success(),
            r.samples() == Seq::<u32>::empty(),
    {
        BatteryState {
            btp: 0,
            bst_success: false,
            bix_success: false,
            btp_success: true,
            samples: RingBuffer::new(),
        }
    }
}

impl BatteryState {
    /// No more samples are held than the chart keeps.
    pub closed spec fn wf(&self) -> bool {
        self.samples.wf()
    }

    /// The trip point that was last set.
    pub closed spec fn btp(&self) -> u32 {
        self.btp
    }

    /// Whether the last reading of the status went well.
    pub closed spec fn bst_success(&self) -> bool {
        self.bst_success
    }

    /// Whether the reading of the battery's information went well.
    pub closed spec fn bix_success(&self) -> bool {
        self.bix_success
    }

    /// Whether the last setting of the trip point went well.
    pub closed spec fn btp_success(&self) -> bool {
        self.btp_success
    }

    /// The capacity samples of the chart, oldest first.
    pub closed spec fn samples(&self) -> Seq<u32> {
        self.samples@
    }
}

/// The battery tab.
pub struct Battery {
    bst_data: BstData,
    bix_data: BixData,
    state: BatteryState,
    t_sec: usize,
    t_min: usize,
    period: usize,
}

/// What is to be done with an event once the battery tab has seen it.
#[derive(Debug, Clone, Copy, PartialEq, Eq, Structural)]
pub enum Entry {
    /// The text of the input line is to be taken and handed to
    /// `trippoint_request`.
    Submit,
    /// The event is for the input line's editor.
    Edit,
}

impl Battery {
    /// The tab is in a state that its operations keep.
    pub closed spec fn wf(&self) -> bool {
        self.state.wf() && self.period > 0
    }

    /// The status that was last read.
    pub closed spec fn bst(&self) -> BstData {
        self.bst_data
    }

    /// The battery's information.
    pub closed spec fn bix(&self) -> BixData {
        self.bix_data
    }

    /// What the tab keeps beside the battery's own data.
    pub closed spec fn state(&self) -> BatteryState {
        self.state
    }

    /// How often the tab was brought up to date.
    pub closed spec fn t_sec(&self) -> usize {
        self.t_sec
    }

    /// How many samples the chart was given.
    pub closed spec fn t_min(&self) -> usize {
        self.t_min
    }

    /// Every how many updates the chart is given a sample.
    pub closed spec fn period(&self) -> usize {
        self.period
    }

    /// `n + 1`, or zero where `n` is the largest number.
    pub open spec fn wrapped_next(n: usize) -> usize {
        if n == usize::MAX {
            0
        } else {
            (n + 1) as usize
        }
    }

    /// The tab with the battery's information as it was read once, `bix`,
    /// and brought up to date with a first reading of its status, `bst`.
    /// The chart is given a sample on every `period`-th update, and on every
    /// update where `period` is zero or one.
    pub fn new(bix: Option<BixData>, bst: Option<BstData>, period: usize) -> (r: Battery)
        ensures
            r.wf(),
            r.period() == if period == 0 {
                1
            } else {
                period
            },
            bix matches Some(data) ==> r.bix() == data,
            bix is None ==> r.bix().is_default(),
            bst matches Some(data) ==> r.bst() == data,
            bst is None ==> r.bst().is_default(),
            r.state().bix_success() == bix is Some,
            r.state().bst_success() == bst is Some,
            r.state().btp_success(),
            r.state().btp() == 0,
            r.t_sec() == 1,
            r.t_min() == 1,
            r.state().samples().len() == 1,
            bst matches Some(data) ==> r.state().samples() == seq![data.capacity],
            bst is None ==> r.state().samples() == seq![0u32],
    {
        let mut state = BatteryState::default();
        let bix_data = match bix {
            Some(data) => {
                state.bix_success = true;
                data
            },
            None => {
                state.bix_success = false;
                BixData::default()
            },
        };
        let mut inst = Battery {
            bst_data: BstData::default(),
            bix_data,
            state,
            t_sec: 0,
            t_min: 0,
            period: if period == 0 {
                1
            } else {
                period
            },
        };
        inst.update(bst);
        assert(inst.state.samples@ =~= seq![inst.bst_data.capacity]);
        inst
    }

    /// Brings the tab up to date with a reading of the battery's status, or
    /// with word that there is none. On every `period`-th update the chart is
    /// given the capacity last read.
    pub fn update(&mut self, bst: Option<BstData>)
        requires
            old(self).wf(),
        ensures
            final(self).wf(),
            final(self).period() == old(self).period(),
            final(self).bix() == old(self).bix(),
            final(self).bst() == match bst {
                Some(data) => data,
                None => old(self).bst(),
            },
            final(self).state().bst_success() == bst is Some,
            final(self).state().bix_success() == old(self).state().bix_success(),
            final(self).state().btp_success() == old(self).state().btp_success(),
            final(self).state().btp() == old(self).state().btp(),
            final(self).t_sec() == Battery::wrapped_next(old(self).t_sec()),
            old(self).t_sec() % old(self).period() == 0 ==> {
                &&& final(self).t_min() == Battery::wrapped_next(old(self).t_min())
                &&& final(self).state().samples() == keep_last(
                    old(self).state().samples().push(final(self).bst().capacity),
                    MAX_SAMPLES as nat,
                )
            },
            old(self).t_sec() % old(self).period() != 0 ==> {
                &&& final(self).t_min() == old(self).t_min()
                &&& final(self).state().samples() == old(self).state().samples()
            },
    {
        match bst {
            Some(data) => {
                self.bst_data = data;
                self.state.bst_success = true;
            },
            None => {
                self.state.bst_success = false;
            },
        }
        let update_graph: bool = self.t_sec % self.period == 0;
        self.t_sec = self.t_sec.wrapping_add(1);
        if update_graph {
            self.state.samples.insert(self.bst_data.capacity);
            self.t_min = self.t_min.wrapping_add(1);
        }
    }

    /// Deals with an event of the terminal: `Enter` going down submits the
    /// input line, and everything else is for its editor.
    pub fn handle_event(&self, evt: &InputEvent) -> (r: Entry)
        ensures
            r == match *evt {
                InputEvent::Press(Key::Enter) => Entry::Submit,
                _ => Entry::Edit,
            },
    {
        match evt {
            InputEvent::Press(Key::Enter) => Entry::Submit,
            _ => Entry::Edit,
        }
    }

    /// The trip point that the text of the input line asks for, if it is a
    /// number. The caller hands it to the battery and reports with
    /// `trippoint_result` how that went.
    pub fn trippoint_request(&self, text: &str) -> (r: Option<u32>)
        ensures
            r == parsed_u32(text@),
    {
        parse_u32(text)
    }

    /// Records how setting the trip point `btp` went: where the battery took
    /// it, it is the trip point now.
    pub fn trippoint_result(&mut self, btp: u32, accepted: bool)
        requires
            old(self).wf(),
        ensures
            final(self).wf(),
            final(self).period() == old(self).period(),
            final(self).bix() == old(self).bix(),
            final(self).bst() == old(self).bst(),
            final(self).t_sec() == old(self).t_sec(),
            final(self).t_min() == old(self).t_min(),
            final(self).state().samples() == old(self).state().samples(),
            final(self).state().bst_success() == old(self).state().bst_success(),
            final(self).state().bix_success() == old(self).state().bix_success(),
            final(self).state().btp_success() == accepted,
            final(self).state().btp() == if accepted {
                btp
            } else {
                old(self).state().btp()
            },
    {
        if accepted {
            self.state.btp = btp;
            self.state.btp_success = true;
        } else {
            self.state.btp_success = false;
        }
    }

    /// The status that was last read.
    pub fn bst_data(&self) -> (r: &BstData)
        ensures
            *r == self.bst(),
    {
        &self.bst_data
    }

    /// The battery's information.
    pub fn bix_data(&self) -> (r: &BixData)
        ensures
            *r == self.bix(),
    {
        &self.bix_data
    }

    /// The trip point that was last set.
    pub fn btp(&self) -> (r: u32)
        ensures
            r == self.state().btp(),
    {
        self.state.btp
    }

    /// Whether the last reading of the status went well.
    pub fn bst_success(&self) -> (r: bool)
        ensures
            r == self.state().bst_success(),
    {
        self.state.bst_success
    }

    /// Whether the reading of the battery's information went well.
    pub fn bix_success(&self) -> (r: bool)
        ensures
            r == self.state().bix_success(),
    {
        self.state.bix_success
    }

    /// Whether the last setting of the trip point went well.
    pub fn btp_success(&self) -> (r: bool)
        ensures
            r == self.state().btp_success(),
    {
        self.state.btp_success
    }

    /// How many samples the chart was given.
    pub fn minutes(&self) -> (r: usize)
        ensures
            r == self.t_min(),
    {
        self.t_min
    }

    /// The capacity samples of the chart, oldest first.
    pub fn samples(&self) -> (r: Vec<u32>)
        requires
            self.wf(),
        ensures
            r@ == self.state().samples(),
    {
        let held = self.state.samples.snapshot();
        let mut out: Vec<u32> = Vec::new();
        let mut i: usize = 0;
        while i < held.len()
            invariant
                i <= held@.len(),
                held@.len() == self.state.samples@.len(),
                forall|j: int| 0 <= j < held@.len() ==> *held@[j] == self.state.samples@[j],
                out@ == self.state.samples@.take(i as int),
            decreases held@.len() - i,
        {
            out.push(*held[i]);
            assert(self.state.samples@.take(i + 1) =~= self.state.samples@.take(i as int).push(
                self.state.samples@[i as int],
            ));
            i += 1;
        }
        assert(self.state.samples@.take(held@.len() as int) =~= self.state.samples@);
        out
    }
}

} // verus!
