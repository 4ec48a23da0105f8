//! Tests of what inputs and scenes ask of the state, for callers that cannot
//! know that it holds.

use crate::calendar::LAST_CIVIL_DAY;
use crate::chrome::{is_prompt, prompts_line_up};
use crate::cutting::{pieces, replace_each, split_at_each, split_once};
use crate::ports::{AxisMove, NtpState, ShellAction, Support};
use crate::state::{
    NetworkFlow, PowerDialog, Presentation, Route, SettingsRoom, ShellCore, SystemFlow,
};
use crate::surface::SurfaceFacts;
use crate::text::same_text;
use crate::textlist::texts;
use vstd::prelude::*;
use vstd::string::*;

verus! {

broadcast use {crate::textlist::group_texts, crate::state::group_state_models};

/// Tells whether no prompt that is complete stands behind one that is not.
pub fn prompts_in_line(footer: &str) -> (answer: bool)
    ensures
        answer == prompts_line_up(footer@),
{
    proof {
        reveal_strlit(" · ");
        reveal_strlit(" ");
    }
    let prompts = split_at_each(footer, " · ");
    let ghost models = texts(prompts@);
    let mut whole: usize = 0;
    while whole < prompts.len() && split_once(prompts[whole].as_str(), " ").is_some()
        invariant
            whole <= prompts@.len(),
            models == texts(prompts@),
            forall|i: int| 0 <= i < whole ==> is_prompt(#[trigger] models[i]),
        ensures
            whole <= prompts@.len(),
            forall|i: int| 0 <= i < whole ==> is_prompt(#[trigger] models[i]),
            whole < prompts@.len() ==> !is_prompt(models[whole as int]),
        decreases prompts@.len() - whole,
    {
        whole += 1;
    }
    let mut next: usize = whole;
    while next < prompts.len()
        invariant
            whole <= next <= prompts@.len(),
            models == texts(prompts@),
            models == pieces(footer@, " · "@),
            whole < prompts@.len() ==> !is_prompt(models[whole as int]),
            forall|i: int| whole <= i < next ==> !is_prompt(#[trigger] models[i]),
        decreases prompts@.len() - next,
    {
        if split_once(prompts[next].as_str(), " ").is_some() {
            proof {
                assert(is_prompt(models[next as int]) && !is_prompt(models[whole as int]));
            }
            return false;
        }
        next += 1;
    }
    true
}

impl SurfaceFacts {
    /// Tells whether the facts are those of a surface.
    pub fn hold(&self) -> (answer: bool)
        ensures
            answer == self.wf(),
    {
        1 <= self.grid.columns && self.grid.columns <= 6 && 1 <= self.grid.toolbar_columns
            && self.grid.toolbar_columns <= 4 && self.shelf_capacity >= 1 && self.library_rows >= 1
            && self.result_capacity >= 1 && self.row_capacity >= 1
    }
}

impl ShellCore {
    fn knows_room(&self) -> (answer: bool)
        ensures
            answer == self@.room_known(),
    {
        self.settings.settings_room != SettingsRoom::Network || self.network.network_state.is_ok()
    }

    fn can_move(&self, axis: AxisMove) -> (answer: bool)
        ensures
            answer == self@.movable(axis),
    {
        if self.nav.route != Route::Settings {
            return true;
        }
        let in_rows = self.settings.settings_in_rows;
        let row_focused = self.settings.settings_row_focused;
        match axis {
            AxisMove::Right => in_rows || self.knows_room(),
            AxisMove::Left => true,
            AxisMove::Down => !row_focused || !in_rows || self.knows_room(),
            AxisMove::Up => if in_rows {
                !row_focused || self.knows_room()
            } else {
                let back: usize = if self.nav.focus > 0 {
                    self.nav.focus - 1
                } else {
                    0
                };
                back < (if self.network.network_state.is_ok() {
                    5
                } else {
                    4
                })
            },
        }
    }

    fn can_activate(&self) -> (answer: bool)
        ensures
            answer == self@.activatable(),
    {
        let known = self.knows_room();
        if self.nav.route == Route::Settings && self.settings.settings_row_focused && !known {
            return false;
        }
        if self.nav.route == Route::Quick && self.nav.focus == 0 {
            self.nav.previous_route != Route::Quick && (self.nav.previous_route != Route::Settings
                || known)
        } else {
            true
        }
    }

    fn can_leave(&self) -> (answer: bool)
        ensures
            answer == self@.can_go_back(),
    {
        self.knows_room() || match self.nav.route {
            Route::Quick => self.nav.previous_route != Route::Settings,
            Route::Details | Route::Search => self.nav.caller_route != Route::Settings,
            _ => true,
        }
    }

    fn is_engaged(&self) -> (answer: bool)
        ensures
            answer == (!self@.session.presentation.has_frame() || self@.power.power_dialog
                is Confirm || self@.session.presentation == Presentation::FirstRun
                || self@.entering_secret() || self@.setting_clock()
                || self@.session.presentation == Presentation::Crash),
    {
        let asking = match self.power.power_dialog {
            PowerDialog::Confirm(_) => true,
            PowerDialog::Closed => false,
        };
        let in_settings = self.nav.route == Route::Settings;
        !self.has_shell_frame() || asking || self.session.presentation == Presentation::FirstRun
            || (in_settings && self.settings.settings_room == SettingsRoom::Network
            && self.network.network_flow == NetworkFlow::Credential) || (in_settings
            && self.settings.settings_room == SettingsRoom::System && self.system.system_flow
            == SystemFlow::ManualTime) || self.session.presentation == Presentation::Crash
    }

    /// Tells whether an input can be carried out.
    #[must_use]
    pub fn accepts(&self, action: &ShellAction) -> (answer: bool)
        ensures
            answer == self@.handles(action@),
    {
        if self.is_engaged() {
            return true;
        }
        match action {
            ShellAction::Custom(name) => same_text(name.as_str(), "SafeReturn")
                || self.knows_room() || !((same_text(name.as_str(), "Room.next") && self.nav.route
                == Route::Library) || (same_text(name.as_str(), "Room.previous") && self.nav.route
                == Route::Home)),
            ShellAction::Back => self.can_leave(),
            ShellAction::Move(axis) => self.can_move(*axis),
            ShellAction::Activate => if self.nav.route == Route::Settings
                && !self.settings.settings_in_rows {
                self.knows_room()
            } else {
                self.can_activate()
            },
        }
    }

    fn clock_counts(&self) -> (answer: bool)
        ensures
            answer == self@.clock_in_range(),
    {
        let supported = match &self.system.time_capabilities {
            Ok(capabilities) => capabilities.manual_set_time == Support::Supported,
            Err(_) => false,
        };
        match &self.system.time_state {
            Ok(state) => !supported || state.ntp_state == NtpState::Active
                || state.wall_clock.unix_secs() < (LAST_CIVIL_DAY + 1) * 86_400,
            Err(_) => true,
        }
    }

    fn can_show_route(&self, facts: &SurfaceFacts) -> (answer: bool)
        ensures
            answer == self@.route_showable(*facts),
    {
        if self.nav.route == Route::Search {
            return facts.result_cells.len() >= self.titles.search_results.len();
        }
        if self.nav.route != Route::Settings {
            return true;
        }
        let manual = self.system.system_flow == SystemFlow::ManualTime;
        if manual || self.network.network_flow == NetworkFlow::Credential {
            self.settings.settings_room != SettingsRoom::System || manual || self.clock_counts()
        } else {
            (facts.portrait && !self.settings.settings_in_rows) || self.knows_room()
        }
    }

    fn can_prompt(&self, footer: &str) -> (answer: bool)
        requires
            self.wf(),
        ensures
            answer == self@.prompts_fit(footer@),
    {
        match self.nav.route {
            Route::Library | Route::Details | Route::Quick | Route::Search => {
                let own = self.write_footer(footer);
                proof {
                    reveal_strlit("     ");
                }
                prompts_in_line(replace_each(own.as_str(), "     ", " · ").as_str())
            },
            _ => true,
        }
    }

    /// Tells whether a scene can be had.
    #[must_use]
    pub fn can_show(&self, facts: &SurfaceFacts, footer: &str) -> (answer: bool)
        requires
            self.wf(),
        ensures
            answer == self@.showable(*facts, footer@),
    {
        if !facts.hold() || !self.can_prompt(footer) {
            return false;
        }
        if self.nav.route == Route::Settings && self.settings.settings_in_rows
            && self.settings.settings_row_focused && !self.knows_room() {
            return false;
        }
        match self.session.presentation {
            Presentation::FirstRun | Presentation::Crash => true,
            _ => self.can_show_route(facts),
        }
    }
}

} // verus!
