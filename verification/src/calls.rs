//! What may be asked of the shell and told to it, in any order, and what none of
//! it changes.

use crate::boot::booted;
use crate::catalog::ItemModel;
use crate::history::SessionModel;
use crate::laws::{law_inputs_change_only_what_is_shown, lemma_activated_ground};
use crate::ports::{
    ActionModel, AxisMove, DeviceStatus, EventModel, LaunchMotion, LaunchResult, PreferenceReads,
    ReportModel, ValueModel,
};
use crate::preferences::{comfort_with, read_model};
use crate::state::{
    ComfortModel, LibraryFilter, LibraryGrid, NetworkRoomModel, PowerModel, Route,
    SessionStateModel, SettingsModel, ShellModel, SystemModel,
};
use crate::text::Text;
use vstd::prelude::*;

verus! {

/// A call that moves the focus or goes elsewhere, with what it is called with.
pub ghost enum WalkModel {
    /// `move_focus`.
    MoveFocus(AxisMove),
    /// `set_focus`.
    SetFocus(int),
    /// `go`.
    Go(Route),
    /// `remember_caller`.
    Remember,
    /// `restore_caller_focus`.
    Restore,
    /// `next_room`.
    NextRoom,
    /// `previous_room`.
    PreviousRoom,
    /// `enter_settings_rows`.
    EnterRows,
    /// `leave_settings_rows`.
    LeaveRows,
    /// `move_settings_focus`.
    AlongRows(bool),
}

/// A call on the titles and their lists, with what it is called with.
pub ghost enum TitleCallModel {
    /// `launch_variant`.
    Launch { item: int, variant: int },
    /// `set_library_filter`.
    Filter(LibraryFilter),
    /// `set_library_grid`, and `scene`.
    Grid(LibraryGrid),
    /// `refresh_library_items`.
    Relist,
    /// `set_search_query`.
    Search(Text),
    /// `reject_art_sources`.
    RejectArt(Seq<Text>),
    /// `favorite_committed`.
    Favorite { item_id: Text, favorite: bool },
    /// `pinned_variant_committed`.
    Pin { item_id: Text, variant_id: Option<Text> },
    /// `favorite_failed` and `pinned_variant_failed`.
    Fail(Text),
    /// `load_history`.
    History(Seq<SessionModel>),
}

/// A call that tells what a service reported. What concerns one part of the
/// shell alone is told by what that part holds afterwards.
pub ghost enum ServiceCallModel {
    /// `device_status_read` and `load_device_status`.
    Status(Result<DeviceStatus, String>),
    /// `load_network`, `set_wifi_passphrase` and `network_result`.
    Network(NetworkRoomModel),
    /// `load_system`, and what becomes of the time zone, the clock and the
    /// transfer services.
    System(SystemModel),
    /// `load_power`, `power_request_result` and `idle_policy_result`.
    Power(PowerModel),
    /// What is told of the controls and of the way to return.
    Settings(SettingsModel),
    /// What is told of the session service, and `screenshot_result`.
    Session(SessionStateModel),
    /// `acknowledge_presentation`.
    Acknowledge,
    /// `launch_result`.
    Answer(LaunchResult),
    /// `session_event`, and `drive_session` with an event.
    Event(EventModel),
}

/// A call that changes the shell, with what it is called with.
pub ghost enum CallModel {
    /// `action`.
    Act(ActionModel),
    /// `activate`.
    Activate,
    /// A call that moves the focus or goes elsewhere.
    Walk(WalkModel),
    /// A call on the titles and their lists.
    Titles(TitleCallModel),
    /// A call that tells what a service reported.
    Service(ServiceCallModel),
    /// `load_preferences`.
    ReadPreferences { reads: PreferenceReads, first_run_complete: bool },
    /// `preference_changed`, and `drive_preferences` with a change.
    Preference(ReportModel),
    /// `reset_first_run`.
    ResetFirstRun,
    /// `bump_revision`.
    Bump,
}

impl ShellModel {
    /// The state after a call that moves the focus or goes elsewhere.
    #[verifier::opaque]
    pub open spec fn walked(self, call: WalkModel) -> ShellModel {
        match call {
            WalkModel::MoveFocus(axis) => self.moved(axis),
            WalkModel::SetFocus(focus) => self.focusing(focus),
            WalkModel::Go(route) => self.going(route),
            WalkModel::Remember => self.remembering(),
            WalkModel::Restore => self.returning(),
            WalkModel::NextRoom => self.in_next_room(),
            WalkModel::PreviousRoom => self.in_previous_room(),
            WalkModel::EnterRows => self.entering_rows(),
            WalkModel::LeaveRows => self.leaving_rows(),
            WalkModel::AlongRows(forward) => self.along_rows(forward),
        }
    }

    /// The state after a call on the titles and their lists.
    #[verifier::opaque]
    pub open spec fn retitled(self, call: TitleCallModel) -> ShellModel {
        match call {
            TitleCallModel::Launch { item, variant } => if variant
                < self.titles.items[item].variants.len() {
                self.launched(item, variant).0
            } else {
                self
            },
            TitleCallModel::Filter(filter) => self.filtering(filter),
            TitleCallModel::Grid(grid) => self.on_grid(grid),
            TitleCallModel::Relist => self.relisted(),
            TitleCallModel::Search(query) => self.bumped().searching(query),
            TitleCallModel::RejectArt(source_ids) => self.rejecting(source_ids),
            TitleCallModel::Favorite { item_id, favorite } => self.bumped().favoring(
                item_id,
                favorite,
            ).relisted().focus_kept_inside().saying(None),
            TitleCallModel::Pin { item_id, variant_id } => self.bumped().pinning(
                item_id,
                variant_id,
            ).saying(None),
            TitleCallModel::Fail(status) => self.bumped().saying(Some(status)),
            TitleCallModel::History(history) => self.played(history),
        }
    }

    /// The state after a call that tells what a service reported.
    #[verifier::opaque]
    pub open spec fn informed(self, call: ServiceCallModel) -> ShellModel {
        match call {
            ServiceCallModel::Status(status) => self.with_status(status),
            ServiceCallModel::Network(network) => self.bumped().with_network(network),
            ServiceCallModel::System(system) => self.bumped().with_system(system),
            ServiceCallModel::Power(power) => self.bumped().with_power(power),
            ServiceCallModel::Settings(settings) => self.bumped().with_settings(settings),
            ServiceCallModel::Session(session) => self.bumped().with_session(session),
            ServiceCallModel::Acknowledge => self.with_session(
                SessionStateModel { pending_ack: false, ..self.session },
            ),
            ServiceCallModel::Answer(result) => self.bumped().answered(result),
            ServiceCallModel::Event(event) => self.bumped().after_event(event),
        }
    }

    /// The state after a call.
    #[verifier::opaque]
    pub open spec fn called(self, call: CallModel) -> ShellModel {
        match call {
            CallModel::Act(action) => self.step(action).0,
            CallModel::Activate => self.activated().0,
            CallModel::Walk(call) => self.walked(call),
            CallModel::Titles(call) => self.retitled(call),
            CallModel::Service(call) => self.informed(call),
            CallModel::ReadPreferences { reads, first_run_complete } => self.loading_preferences(
                reads,
                first_run_complete,
            ).0,
            CallModel::Preference(report) => self.with_preference(report),
            CallModel::ResetFirstRun => self.bumped().with_comfort(
                ComfortModel { first_run_complete: false, ..self.comfort },
            ).in_first_run(),
            CallModel::Bump => self.bumped(),
        }
    }

    /// The state after calls, one after the other.
    pub open spec fn called_all(self, calls: Seq<CallModel>) -> ShellModel
        decreases calls.len(),
    {
        if calls.len() == 0 {
            self
        } else {
            self.called_all(calls.drop_last()).called(calls.last())
        }
    }
}

/// Whether two sets of preferences rest on the same environment and theme.
pub open spec fn same_origin(before: ComfortModel, after: ComfortModel) -> bool {
    &&& after.env_reduced_motion == before.env_reduced_motion
    &&& after.normal_motion_ms == before.normal_motion_ms
}

proof fn lemma_value_origin(comfort: ComfortModel, key: Text, value: ValueModel)
    ensures
        same_origin(comfort, comfort_with(comfort, key, value)),
{
    reveal(comfort_with);
}

proof fn lemma_reading_origin(
    shell: ShellModel,
    key: Text,
    label: Text,
    default: ValueModel,
    report: Option<ReportModel>,
)
    ensures
        same_origin(shell.comfort, shell.reading(key, label, default, report).comfort),
{
    lemma_value_origin(
        shell.comfort,
        key,
        match report {
            Some(report) => report.effective,
            None => default,
        },
    );
}

proof fn lemma_loading_origin(shell: ShellModel, reads: PreferenceReads, first_run_complete: bool)
    ensures
        same_origin(
            shell.comfort,
            shell.loading_preferences(reads, first_run_complete).0.comfort,
        ),
{
    let before = shell.before_reading();
    if let Ok(text_scale) = read_model(reads.text_scale) {
        let sized = ValueModel::Text("100%"@);
        lemma_reading_origin(before, "textScale"@, "Text size"@, sized, text_scale);
        let first = before.reading("textScale"@, "Text size"@, sized, text_scale);
        if let Ok(contrast) = read_model(reads.high_contrast) {
            let off = ValueModel::Bool(false);
            lemma_reading_origin(first, "highContrast"@, "High contrast"@, off, contrast);
            let second = first.reading("highContrast"@, "High contrast"@, off, contrast);
            if let Ok(motion) = read_model(reads.reduce_motion) {
                lemma_reading_origin(second, "reduceMotion"@, "Reduce motion"@, off, motion);
                let third = second.reading("reduceMotion"@, "Reduce motion"@, off, motion);
                if let Ok(flashing) = read_model(reads.reduce_flashing) {
                    lemma_reading_origin(
                        third,
                        "reduceFlashing"@,
                        "Reduce flashing"@,
                        off,
                        flashing,
                    );
                    let fourth = third.reading(
                        "reduceFlashing"@,
                        "Reduce flashing"@,
                        off,
                        flashing,
                    );
                    if let Ok(Some(report)) = read_model(reads.appearance) {
                        lemma_value_origin(fourth.comfort, "appearance"@, report.effective);
                    }
                }
            }
        }
    }
}

proof fn lemma_walking_origin(shell: ShellModel, call: WalkModel)
    ensures
        shell.walked(call).comfort == shell.comfort,
{
    reveal(ShellModel::walked);
}

proof fn lemma_favorite_origin(shell: ShellModel, item_id: Text, favorite: bool)
    ensures
        shell.favoring(item_id, favorite).relisted().focus_kept_inside().saying(
            None,
        ).comfort == shell.comfort,
{
}

proof fn lemma_titles_origin(shell: ShellModel, call: TitleCallModel)
    ensures
        shell.retitled(call).comfort == shell.comfort,
{
    reveal(ShellModel::retitled);
    if let TitleCallModel::Favorite { item_id, favorite } = call {
        lemma_favorite_origin(shell.bumped(), item_id, favorite);
    }
}

proof fn lemma_services_origin(shell: ShellModel, call: ServiceCallModel)
    ensures
        shell.informed(call).comfort == shell.comfort,
{
    reveal(ShellModel::informed);
}

proof fn lemma_activating_origin(shell: ShellModel)
    ensures
        same_origin(shell.comfort, shell.activated().0.comfort),
{
    lemma_activated_ground(shell);
}

proof fn lemma_acting_origin(shell: ShellModel, action: ActionModel)
    ensures
        same_origin(shell.comfort, shell.step(action).0.comfort),
{
    law_inputs_change_only_what_is_shown(shell, action);
}

proof fn lemma_preference_origin(shell: ShellModel, report: ReportModel)
    ensures
        same_origin(shell.comfort, shell.with_preference(report).comfort),
{
    lemma_value_origin(shell.comfort, report.key, report.effective);
}

/// No call changes what the environment asked for, nor how long motion takes
/// where it is not reduced.
pub proof fn law_each_call_keeps_the_environment(shell: ShellModel, call: CallModel)
    ensures
        same_origin(shell.comfort, shell.called(call).comfort),
{
    reveal(ShellModel::called);
    match call {
        CallModel::Act(action) => {
            lemma_acting_origin(shell, action);
        },
        CallModel::Activate => {
            lemma_activating_origin(shell);
        },
        CallModel::Walk(call) => {
            lemma_walking_origin(shell, call);
        },
        CallModel::Titles(call) => {
            lemma_titles_origin(shell, call);
        },
        CallModel::Service(call) => {
            lemma_services_origin(shell, call);
        },
        CallModel::ReadPreferences { reads, first_run_complete } => {
            lemma_loading_origin(shell, reads, first_run_complete);
        },
        CallModel::Preference(report) => {
            lemma_preference_origin(shell, report);
        },
        CallModel::ResetFirstRun | CallModel::Bump => {},
    }
}

/// However the shell is used, what the environment asked for and how long motion
/// takes where it is not reduced stay as they were.
pub proof fn law_calls_keep_the_environment(shell: ShellModel, calls: Seq<CallModel>)
    ensures
        same_origin(shell.comfort, shell.called_all(calls).comfort),
    decreases calls.len(),
{
    if calls.len() > 0 {
        law_calls_keep_the_environment(shell, calls.drop_last());
        law_each_call_keeps_the_environment(
            shell.called_all(calls.drop_last()),
            calls.last(),
        );
    }
}

/// However the shell was used since it started, motion is reduced just where the
/// environment asked for it at the start or the preference that was applied last
/// asks for it. Reduced motion takes no time, other motion the time that the
/// theme gives it.
pub proof fn law_environment_reduces_motion_for_good(
    items: Seq<ItemModel>,
    motion: LaunchMotion,
    reduced: bool,
    calls: Seq<CallModel>,
    report: ReportModel,
    on: bool,
)
    requires
        report.key == "reduceMotion"@,
        report.effective == ValueModel::Bool(on),
        report.applied,
    ensures
        ({
            let used = booted(items, motion, reduced).called_all(calls);
            let comfort = used.called(CallModel::Preference(report)).comfort;
            &&& comfort.reduced_motion == (reduced || on)
            &&& comfort.motion_ms == if comfort.reduced_motion {
                0
            } else {
                motion.normal_ms
            }
        }),
{
    let shell = booted(items, motion, reduced);
    law_calls_keep_the_environment(shell, calls);
    reveal_strlit("reduceMotion");
    reveal_strlit("highContrast");
    assert("reduceMotion"@[0] != "highContrast"@[0]);
    reveal(comfort_with);
    reveal(ShellModel::called);
}

} // verus!
