//! The frame around the tabs: which tab is selected, when the tabs are
//! brought up to date, and when the application ends.

use crate::input::{InputEvent, Key};
use vstd::prelude::*;

verus! {

/// How long the tabs go without being brought up to date, in milliseconds.
pub const TICK_RATE_MS: u64 = 1000;

/// How many tabs there are.
pub const TAB_COUNT: usize = 4;

#[derive(Debug, Clone, Copy, PartialEq, Eq, Structural)]
pub enum AppState {
    Running,
    Quitting,
}

impl Default for AppState {
    fn default() -> (r: AppState)
        ensures
            r == AppState::Running,
    {
        AppState::Running
    }
}

#[derive(Debug, Clone, Copy, PartialEq, Eq, Structural, Hash)]
pub enum SelectedTab {
    TabBattery,
    TabThermal,
    TabRTC,
    TabUCSI,
}

impl Default for SelectedTab {
    fn default() -> (r: SelectedTab)
        ensures
            r == SelectedTab::TabBattery,
    {
        SelectedTab::TabBattery
    }
}

impl SelectedTab {
    /// The place of the tab in the row of tabs, counted from zero.
    pub open spec fn spec_index(self) -> nat {
        match self {
            SelectedTab::TabBattery => 0,
            SelectedTab::TabThermal => 1,
            SelectedTab::TabRTC => 2,
            SelectedTab::TabUCSI => 3,
        }
    }

    /// The tab at a place in the row, if there is one.
    pub open spec fn spec_from_repr(index: nat) -> Option<SelectedTab> {
        if index == 0 {
            Some(SelectedTab::TabBattery)
        } else if index == 1 {
            Some(SelectedTab::TabThermal)
        } else if index == 2 {
            Some(SelectedTab::TabRTC)
        } else if index == 3 {
            Some(SelectedTab::TabUCSI)
        } else {
            None
        }
    }

    /// The place of the tab in the row of tabs, counted from zero.
    pub fn index(self) -> (r: usize)
        ensures
            r == self.spec_index(),
            r < TAB_COUNT,
    {
        match self {
            SelectedTab::TabBattery => 0,
            SelectedTab::TabThermal => 1,
            SelectedTab::TabRTC => 2,
            SelectedTab::TabUCSI => 3,
        }
    }

    /// The tab at a place in the row, if there is one.
    pub fn from_repr(index: usize) -> (r: Option<SelectedTab>)
        ensures
            r == Self::spec_from_repr(index as nat),
    {
        match index {
            0 => Some(SelectedTab::TabBattery),
            1 => Some(SelectedTab::TabThermal),
            2 => Some(SelectedTab::TabRTC),
            3 => Some(SelectedTab::TabUCSI),
            _ => None,
        }
    }

    /// The name shown on the tab.
    pub fn name(self) -> (r: &'static str)
        ensures
            r@ == match self {
                SelectedTab::TabBattery => "Battery"@,
                SelectedTab::TabThermal => "Thermal"@,
                SelectedTab::TabRTC => "RTC"@,
                SelectedTab::TabUCSI => "UCSI"@,
            },
    {
        match self {
            SelectedTab::TabBattery => "Battery",
            SelectedTab::TabThermal => "Thermal",
            SelectedTab::TabRTC => "RTC",
            SelectedTab::TabUCSI => "UCSI",
        }
    }

    /// Get the previous tab, if there is no previous tab return the current tab.
    pub fn previous(self) -> (r: SelectedTab)
        ensures
            r.spec_index() == if self.spec_index() == 0 {
                0
            } else {
                (self.spec_index() - 1) as nat
            },
    {
        let current_index: usize = self.index();
        let previous_index: usize = current_index.saturating_sub(1);
        match Self::from_repr(previous_index) {
            Some(tab) => tab,
            None => self,
        }
    }

    /// Get the next tab, if there is no next tab return the current tab.
    pub fn next(self) -> (r: SelectedTab)
        ensures
            r.spec_index() == if self.spec_index() + 1 < TAB_COUNT {
                self.spec_index() + 1
            } else {
                self.spec_index()
            },
    {
        let current_index: usize = self.index();
        let next_index: usize = current_index.saturating_add(1);
        match Self::from_repr(next_index) {
            Some(tab) => tab,
            None => self,
        }
    }
}

/// The frame around the tabs.
#[derive(Debug, Clone, Copy, PartialEq, Eq, Structural)]
pub struct App {
    pub state: AppState,
    pub selected_tab: SelectedTab,
}

impl Default for App {
    fn default() -> (r: App)
        ensures
            r == (App { state: AppState::Running, selected_tab: SelectedTab::TabBattery }),
    {
        App { state: AppState::Running, selected_tab: SelectedTab::TabBattery }
    }
}

impl App {
    /// The application as it starts: running, with the first tab selected.
    pub fn new() -> (r: App)
        ensures
            r == (App { state: AppState::Running, selected_tab: SelectedTab::TabBattery }),
    {
        App { state: AppState::Running, selected_tab: SelectedTab::TabBattery }
    }

    /// Whether the main loop goes on.
    pub fn is_running(&self) -> (b: bool)
        ensures
            b == (self.state == AppState::Running),
    {
        self.state == AppState::Running
    }

    pub fn next_tab(&mut self)
        ensures
            final(self).state == old(self).state,
            final(self).selected_tab.spec_index() == if old(self).selected_tab.spec_index() + 1
                < TAB_COUNT {
                old(self).selected_tab.spec_index() + 1
            } else {
                old(self).selected_tab.spec_index()
            },
    {
        self.selected_tab = self.selected_tab.next();
    }

    pub fn previous_tab(&mut self)
        ensures
            final(self).state == old(self).state,
            final(self).selected_tab.spec_index() == if old(self).selected_tab.spec_index() == 0 {
                0
            } else {
                (old(self).selected_tab.spec_index() - 1) as nat
            },
    {
        self.selected_tab = self.selected_tab.previous();
    }

    pub fn quit(&mut self)
        ensures
            *final(self) == (App { state: AppState::Quitting, ..*old(self) }),
    {
        self.state = AppState::Quitting;
    }

    /// Deals with an event of the terminal. `l` and the right arrow select the
    /// next tab, `h` and the left arrow the previous one, `q` and `Esc` end
    /// the application. Any other key that went down is for the selected
    /// tab: `true` is returned, and the caller hands the event on. Nothing
    /// else means anything.
    pub fn handle_events(&mut self, evt: &InputEvent) -> (forward: bool)
        ensures
            match *evt {
                InputEvent::Press(Key::Char('l')) | InputEvent::Press(Key::Right) => {
                    &&& !forward
                    &&& final(self).state == old(self).state
                    &&& final(self).selected_tab.spec_index() == if old(
                        self,
                    ).selected_tab.spec_index() + 1 < TAB_COUNT {
                        old(self).selected_tab.spec_index() + 1
                    } else {
                        old(self).selected_tab.spec_index()
                    }
                },
                InputEvent::Press(Key::Char('h')) | InputEvent::Press(Key::Left) => {
                    &&& !forward
                    &&& final(self).state == old(self).state
                    &&& final(self).selected_tab.spec_index() == if old(
                        self,
                    ).selected_tab.spec_index() == 0 {
                        0
                    } else {
                        (old(self).selected_tab.spec_index() - 1) as nat
                    }
                },
                InputEvent::Press(Key::Char('q')) | InputEvent::Press(Key::Esc) => {
                    &&& !forward
                    &&& *final(self) == (App { state: AppState::Quitting, ..*old(self) })
                },
                InputEvent::Press(_) => forward && *final(self) == *old(self),
                _ => !forward && *final(self) == *old(self),
            },
    {
        match evt {
            InputEvent::Press(key) => match key {
                Key::Char('l') | Key::Right => {
                    self.next_tab();
                    false
                },
                Key::Char('h') | Key::Left => {
                    self.previous_tab();
                    false
                },
                Key::Char('q') | Key::Esc => {
                    self.quit();
                    false
                },
                _ => true,
            },
            _ => false,
        }
    }

    /// How long to wait for an event, in milliseconds, when `elapsed`
    /// milliseconds have passed since the tabs were last brought up to date:
    /// what is left of the tick, and nothing once it is over.
    pub fn poll_timeout(elapsed: u64) -> (r: u64)
        ensures
            r == if elapsed >= TICK_RATE_MS {
                0
            } else {
                (TICK_RATE_MS - elapsed) as u64
            },
    {
        TICK_RATE_MS.saturating_sub(elapsed)
    }

    /// Whether the tabs are to be brought up to date, when `elapsed`
    /// milliseconds have passed since they last were.
    pub fn tick_due(elapsed: u64) -> (b: bool)
        ensures
            b == (elapsed >= TICK_RATE_MS),
    {
        elapsed >= TICK_RATE_MS
    }
}

} // verus!
