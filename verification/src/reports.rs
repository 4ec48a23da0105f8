//! What reports of the services come to: what the shell presents, what it knows
//! afterwards and how it puts an outcome.

use crate::clock::SystemTime;
use crate::navigation::item_place;
use crate::ports::{
    AppliedIdlePolicy, AppliedTransferState, AppliedValue, ConnectResult, DeviceStatus, EventModel,
    IdlePolicy, LaunchResult, NetworkState, NtpState, ObservedSessionState, PowerCapability,
    PowerRequestResult, TimeCapabilities, TimeState, TransferServiceState, WifiNetwork,
};
use crate::services::{
    connect_words, idle_policy_set, manual_time_set, network_read, ntp_set, power_read,
    power_request_words, service_place, system_read, timezone_set, transfer_set,
};
use crate::state::{
    span_of_option, transfer_model, wifi_model, NetworkRoomModel, PowerModel, Presentation,
    ShellModel, SystemModel, TransferModel,
};
use crate::text::{action_name, text_of, Text};
use vstd::prelude::*;
use vstd::string::*;

verus! {

/// What the shell presents after an event of a session: that it starts, that it
/// runs, that it returned, was closed or crashed, or that recovery is needed.
/// Other observations change nothing. Only a session that returned is spoken of as
/// just returned, and what is to be acknowledged is just an end.
pub proof fn law_events_are_presented(shell: ShellModel, event: EventModel)
    ensures
        ({
            let after = shell.after_event(event).session;
            match event {
                EventModel::Observed(ObservedSessionState::Starting) => after.presentation
                    == Presentation::Starting && after.pending_ack == shell.session.pending_ack,
                EventModel::Observed(ObservedSessionState::Running) => after.presentation
                    == Presentation::Running && after.pending_ack == shell.session.pending_ack,
                EventModel::Observed(_) => after == shell.session,
                EventModel::Returned => after.presentation == Presentation::Returned
                    && after.pending_ack && after.just_returned,
                EventModel::ForcedClose => after.presentation == Presentation::ForcedClose
                    && after.pending_ack && after.just_returned == shell.session.just_returned,
                EventModel::Crash { session_id, summary } => {
                    &&& after.presentation == Presentation::Crash
                    &&& after.pending_ack
                    &&& after.crash_summary == summary
                    &&& after.crash_exit_detail == summary
                    &&& after.crash_receipt_id == session_id
                    &&& after.just_returned == shell.session.just_returned
                },
                EventModel::RecoveryRequired => after.presentation == Presentation::RecoveryRequired
                    && !after.pending_ack,
            }
        }),
        shell.after_event(event).session.active_title == shell.session.active_title,
        event is Crash ==> shell.after_event(event).nav.focus == 0,
{
}

/// A launch that was accepted starts; any other leads back to where it was asked
/// for. Nothing else changes.
pub proof fn law_launches_start_where_accepted(shell: ShellModel, result: LaunchResult)
    ensures
        shell.answered(result).session.presentation == (if result == LaunchResult::Accepted {
            Presentation::Starting
        } else {
            Presentation::Ready
        }),
        shell.answered(result).nav == shell.nav,
        shell.answered(result).titles == shell.titles,
        shell.answered(result).session.active_title == shell.session.active_title,
        shell.answered(result).session.pending_ack == shell.session.pending_ack,
{
}

/// The shell speaks of a safe return that failed before anything else, and
/// otherwise of what it was told to say.
pub proof fn law_a_failed_return_is_spoken_of_first(shell: ShellModel)
    ensures
        shell.session.safe_return_failed ==> shell.spoken_status() == Some(
            "The session service isn't reachable; Safe Return can retry"@,
        ),
        !shell.session.safe_return_failed ==> shell.spoken_status()
            == shell.session.session_status,
{
}

/// The battery is shown as reported, up to a hundred percent, and the message as
/// it came. A status that could not be read shows neither.
pub proof fn law_device_status_is_taken_in(shell: ShellModel, status: Result<DeviceStatus, String>)
    ensures
        ({
            let after = shell.with_status(status);
            &&& status matches Ok(status) ==> {
                &&& status.battery_percent <= 100 ==> after.power.battery_percent == Some(
                    status.battery_percent,
                )
                &&& status.battery_percent > 100 ==> after.power.battery_percent == Some(100u8)
                &&& after.power.attention_message == text_of(status.attention_message)
            }
            &&& status is Err ==> after.power.battery_percent is None
                && after.power.attention_message is None
            &&& after.power.power_capabilities == shell.power.power_capabilities
            &&& after.power.applied_idle_policy == shell.power.applied_idle_policy
            &&& after.power.power_dialog == shell.power.power_dialog
            &&& after.power.power_status == shell.power.power_status
            &&& after.nav == shell.nav
            &&& after.session == shell.session
            &&& after.titles == shell.titles
        }),
{
}

/// What is known of the network is what was reported, or why nothing is; the
/// networks in reach are those that were found, none where the scan failed.
pub proof fn law_network_reports_are_taken_in(
    room: NetworkRoomModel,
    state: Result<NetworkState, String>,
    scan: Result<Vec<WifiNetwork>, String>,
    place: int,
)
    ensures
        ({
            let after = network_read(room, state, scan);
            &&& state matches Ok(given) ==> {
                &&& after.network_state matches Ok(known)
                &&& known.connected_ssid == text_of(given.connected_ssid)
                &&& known.signal == given.signal
                &&& known.enabled == given.enabled
                &&& known.interface_present == given.interface_present
            }
            &&& state matches Err(why) ==> after.network_state == Err::<
                crate::state::NetworkModel,
                Text,
            >("Network unavailable · "@ + why@)
            &&& scan matches Ok(found) ==> {
                &&& after.wifi_networks.len() == found@.len()
                &&& 0 <= place < found@.len() ==> after.wifi_networks[place] == wifi_model(
                    found@[place],
                )
                &&& after.network_status == room.network_status
            }
            &&& scan matches Err(why) ==> {
                &&& after.wifi_networks.len() == 0
                &&& after.network_status == Some("Scan unavailable · "@ + why@)
            }
            &&& after.network_flow == room.network_flow
            &&& after.selected_wifi == room.selected_wifi
            &&& after.wifi_credential == room.wifi_credential
        }),
{
    reveal(crate::state::wifi_models);
}

/// What became of joining a network, in words.
pub proof fn law_joining_is_told(result: Result<ConnectResult, String>)
    ensures
        connect_words(result) == (match result {
            Ok(ConnectResult::Connected { ssid }) => "Connected · "@ + ssid@,
            Ok(ConnectResult::Progress(progress)) => "Joining · "@ + progress@,
            Ok(ConnectResult::Refused) => "Connection failed · authentication refused"@,
            Ok(ConnectResult::NetworkNotFound) => "Connection failed · network not found"@,
            Err(why) => "Connection unavailable · "@ + why@,
        }),
{
}

/// What is known of the clock and of the transfer services is what was reported,
/// or why nothing is.
pub proof fn law_system_reports_are_taken_in(
    room: SystemModel,
    capabilities: Result<TimeCapabilities, String>,
    time: Result<TimeState, String>,
    services: Result<Vec<TransferServiceState>, String>,
    place: int,
)
    ensures
        ({
            let after = system_read(room, capabilities, time, services);
            &&& capabilities matches Ok(given) ==> after.time_capabilities == Ok::<
                crate::ports::Support,
                Text,
            >(given.manual_set_time)
            &&& capabilities matches Err(why) ==> after.time_capabilities == Err::<
                crate::ports::Support,
                Text,
            >("Time controls unavailable · "@ + why@)
            &&& time matches Ok(given) ==> {
                &&& after.time_state matches Ok(known)
                &&& known.wall_clock == given.wall_clock@
                &&& known.timezone == given.timezone@
                &&& known.ntp_state == given.ntp_state
            }
            &&& time matches Err(why) ==> after.time_state == Err::<crate::state::TimeModel, Text>(
                "Time status unavailable · "@ + why@,
            )
            &&& services matches Ok(given) ==> {
                &&& after.transfer_services matches Ok(known)
                &&& known.len() == given@.len()
                &&& 0 <= place < given@.len() ==> known[place] == transfer_model(given@[place])
            }
            &&& services matches Err(why) ==> after.transfer_services == Err::<
                Seq<TransferModel>,
                Text,
            >("Transfer unavailable · "@ + why@)
            &&& after.system_flow == room.system_flow
            &&& after.manual_time_picker == room.manual_time_picker
            &&& after.system_status == room.system_status
        }),
{
    reveal(crate::state::service_models);
}

/// After a time zone was set, the shell knows the one that was applied, and says
/// so where it is not the one that was asked for.
pub proof fn law_the_applied_time_zone_counts(
    room: SystemModel,
    result: Result<AppliedValue<String>, String>,
)
    ensures
        ({
            let after = timezone_set(room, result);
            &&& result matches Ok(value) ==> {
                &&& room.time_state matches Ok(before) ==> {
                    &&& after.time_state matches Ok(now)
                    &&& now.timezone == value.applied@
                    &&& now.wall_clock == before.wall_clock
                    &&& now.ntp_state == before.ntp_state
                }
                &&& value.requested@ == value.applied@ ==> after.system_status == Some(
                    "Timezone applied · "@ + value.applied@,
                )
                &&& value.requested@ != value.applied@ ==> after.system_status == Some(
                    "Requested "@ + value.requested@ + " · applied "@ + value.applied@,
                )
            }
            &&& result matches Err(why) ==> after.time_state == room.time_state
                && after.system_status == Some("Timezone unavailable · "@ + why@)
            &&& room.time_state is Err ==> after.time_state == room.time_state
            &&& after.transfer_services == room.transfer_services
        }),
{
}

/// After automatic time was switched, the shell knows the position that was
/// applied.
pub proof fn law_the_applied_automatic_time_counts(
    room: SystemModel,
    result: Result<AppliedValue<bool>, String>,
)
    ensures
        ({
            let after = ntp_set(room, result);
            &&& result matches Ok(value) ==> {
                &&& room.time_state matches Ok(before) ==> {
                    &&& after.time_state matches Ok(now)
                    &&& now.ntp_state == (if value.applied {
                        NtpState::Active
                    } else {
                        NtpState::Inactive
                    })
                    &&& now.timezone == before.timezone
                    &&& now.wall_clock == before.wall_clock
                }
                &&& value.requested == value.applied ==> after.system_status == Some(
                    "Automatic time"@ + " applied · "@ + (if value.applied {
                        "On"@
                    } else {
                        "Off"@
                    }),
                )
                &&& value.requested && !value.applied ==> after.system_status == Some(
                    "Automatic time"@ + " requested "@ + "On"@ + " · applied "@ + "Off"@,
                )
                &&& !value.requested && value.applied ==> after.system_status == Some(
                    "Automatic time"@ + " requested "@ + "Off"@ + " · applied "@ + "On"@,
                )
            }
            &&& result matches Err(why) ==> after.time_state == room.time_state
                && after.system_status == Some("Automatic time"@ + " unavailable · "@ + why@)
            &&& after.transfer_services == room.transfer_services
        }),
{
}

/// After the clock was set by hand, the shell knows the time that was applied.
pub proof fn law_the_applied_time_counts(
    room: SystemModel,
    result: Result<AppliedValue<SystemTime>, String>,
)
    ensures
        ({
            let after = manual_time_set(room, result);
            &&& result matches Ok(value) ==> {
                &&& room.time_state matches Ok(before) ==> {
                    &&& after.time_state matches Ok(now)
                    &&& now.wall_clock == value.applied@
                    &&& now.timezone == before.timezone
                    &&& now.ntp_state == before.ntp_state
                }
                &&& value.requested@ == value.applied@ ==> after.system_status == Some(
                    "Manual time applied"@,
                )
                &&& value.requested@ != value.applied@ ==> after.system_status == Some(
                    "Manual time requested · device applied a different time"@,
                )
            }
            &&& result matches Err(why) ==> after.time_state == room.time_state
                && after.system_status == Some("Manual time unavailable · "@ + why@)
            &&& after.transfer_services == room.transfer_services
        }),
{
}

proof fn lemma_service_found(services: Seq<TransferModel>, state: TransferModel, from: int, place: int)
    requires
        0 <= from <= place < services.len(),
        services[place].service == state.service,
        forall|i: int| 0 <= i < place ==> (#[trigger] services[i]).service != state.service,
    ensures
        service_place(services, state.service, from) == Some(place),
    decreases place - from,
{
    if from < place {
        lemma_service_found(services, state, from + 1, place);
    }
}

/// After a transfer service was switched, the shell knows the state that was
/// applied, and keeps what it knows of the others.
pub proof fn law_the_applied_transfer_counts(
    room: SystemModel,
    result: AppliedTransferState,
    place: int,
    other: int,
)
    requires
        room.transfer_services is Ok,
        0 <= place < room.transfer_services->Ok_0.len(),
        room.transfer_services->Ok_0[place].service == result.applied.service,
        forall|i: int|
            0 <= i < place ==> (#[trigger] room.transfer_services->Ok_0[i]).service
                != result.applied.service,
        0 <= other < room.transfer_services->Ok_0.len(),
        other != place,
    ensures
        ({
            let after = transfer_set(room, Ok(result));
            &&& after.transfer_services matches Ok(known)
            &&& known.len() == room.transfer_services->Ok_0.len()
            &&& known[place] == transfer_model(result.applied)
            &&& known[other] == room.transfer_services->Ok_0[other]
            &&& result.requested == result.applied.enabled ==> after.system_status == Some(
                "File transfer"@ + " applied · "@ + (if result.requested {
                    "On"@
                } else {
                    "Off"@
                }),
            )
            &&& after.time_state == room.time_state
        }),
{
    let services = room.transfer_services->Ok_0;
    lemma_service_found(services, transfer_model(result.applied), 0, place);
}

/// What became of switching a transfer service is spoken of, with what was applied
/// where that is not what was asked for. Where it failed, nothing else changes.
pub proof fn law_transfers_are_told(room: SystemModel, result: Result<AppliedTransferState, String>)
    ensures
        ({
            let after = transfer_set(room, result);
            let word = |on: bool|
                if on {
                    "On"@
                } else {
                    "Off"@
                };
            &&& result matches Ok(value) ==> after.system_status == Some(
                if value.requested == value.applied.enabled {
                    "File transfer"@ + " applied · "@ + word(value.applied.enabled)
                } else {
                    "File transfer"@ + " requested "@ + word(value.requested) + " · applied "@
                        + word(value.applied.enabled)
                },
            )
            &&& result matches Err(why) ==> {
                &&& after.transfer_services == room.transfer_services
                &&& after.system_status == Some("File transfer unavailable · "@ + why@)
            }
            &&& after.time_state == room.time_state
            &&& after.time_capabilities == room.time_capabilities
        }),
{
}

/// What is known of the device's power is what was reported. What could not be
/// read is spoken of, and power actions that are not known are none.
pub proof fn law_power_reports_are_taken_in(
    power: PowerModel,
    capabilities: Result<Vec<PowerCapability>, String>,
    idle_policy: Result<IdlePolicy, String>,
)
    ensures
        ({
            let after = power_read(power, capabilities, idle_policy);
            &&& capabilities matches Ok(given) ==> after.power_capabilities == given@
            &&& capabilities is Err ==> after.power_capabilities.len() == 0
            &&& idle_policy matches Ok(given) ==> {
                &&& after.idle_policy_loaded
                &&& after.applied_idle_policy.sleep_after == span_of_option(given.sleep_after)
                &&& after.applied_idle_policy.power_off_after == span_of_option(
                    given.power_off_after,
                )
            }
            &&& idle_policy is Err ==> !after.idle_policy_loaded && after.applied_idle_policy
                == power.applied_idle_policy
            &&& capabilities is Ok && idle_policy is Ok ==> after.power_status is None
            &&& capabilities is Err && idle_policy is Ok ==> after.power_status == Some(
                "Power actions are unavailable"@,
            )
            &&& capabilities is Ok && idle_policy is Err ==> after.power_status == Some(
                "Auto-sleep is unavailable"@,
            )
            &&& capabilities is Err && idle_policy is Err ==> after.power_status == Some(
                "Power controls are unavailable"@,
            )
            &&& after.power_dialog == power.power_dialog
            &&& after.battery_percent == power.battery_percent
            &&& after.attention_message == power.attention_message
        }),
{
}

/// What became of a power action, in words: nothing where it was accepted.
pub proof fn law_power_actions_are_told(result: Result<PowerRequestResult, String>)
    ensures
        power_request_words(result) == (match result {
            Ok(PowerRequestResult::Accepted) => None,
            Ok(PowerRequestResult::Unsupported) => Some("That power action is unavailable"@),
            Ok(PowerRequestResult::Refused { reason }) => Some(
                "Power action refused · "@ + reason@,
            ),
            Err(_) => Some("Power controls are unavailable"@),
        }),
{
}

/// After an idle policy was set, the shell knows the one that was applied; where
/// it could not be set, the old one stays and is spoken of.
pub proof fn law_the_applied_idle_policy_counts(
    power: PowerModel,
    result: Result<AppliedIdlePolicy, String>,
)
    ensures
        ({
            let after = idle_policy_set(power, result);
            &&& result matches Ok(value) ==> {
                &&& after.applied_idle_policy.sleep_after == span_of_option(
                    value.applied.sleep_after,
                )
                &&& after.applied_idle_policy.power_off_after == span_of_option(
                    value.applied.power_off_after,
                )
                &&& after.idle_policy_loaded
                &&& after.power_status is None
            }
            &&& result is Err ==> {
                &&& after.applied_idle_policy == power.applied_idle_policy
                &&& after.idle_policy_loaded == power.idle_policy_loaded
                &&& after.power_status == Some("Auto-sleep could not be changed"@)
            }
            &&& after.power_capabilities == power.power_capabilities
            &&& after.power_dialog == power.power_dialog
        }),
{
}

proof fn lemma_item_found(shell: ShellModel, item_id: Text, from: int, place: int)
    requires
        0 <= from <= place < shell.titles.items.len(),
        shell.titles.items[place].id == item_id,
        forall|i: int| 0 <= i < place ==> (#[trigger] shell.titles.items[i]).id != item_id,
    ensures
        item_place(shell.titles.items, item_id, from) == Some(place),
    decreases place - from,
{
    if from < place {
        lemma_item_found(shell, item_id, from + 1, place);
    }
}

/// A favorite that was committed is one, or is none any more, just as it was
/// committed, and so is a pinned variant. Nothing else of that title or of any
/// other changes.
pub proof fn law_committed_choices_are_kept(
    shell: ShellModel,
    item_id: Text,
    favorite: bool,
    variant_id: Option<Text>,
    place: int,
    other: int,
)
    requires
        0 <= place < shell.titles.items.len(),
        shell.titles.items[place].id == item_id,
        forall|i: int| 0 <= i < place ==> (#[trigger] shell.titles.items[i]).id != item_id,
        0 <= other < shell.titles.items.len(),
        other != place,
    ensures
        ({
            let before = shell.titles.items;
            let liked = shell.favoring(item_id, favorite).titles.items;
            let pinned = shell.pinning(item_id, variant_id).titles.items;
            &&& liked.len() == before.len()
            &&& liked[place].favorite == favorite
            &&& liked[place].title == before[place].title
            &&& liked[place].variants == before[place].variants
            &&& liked[place].pinned_variant_id == before[place].pinned_variant_id
            &&& liked[other] == before[other]
            &&& pinned.len() == before.len()
            &&& pinned[place].pinned_variant_id == variant_id
            &&& pinned[place].favorite == before[place].favorite
            &&& pinned[place].variants == before[place].variants
            &&& pinned[other] == before[other]
        }),
{
    lemma_item_found(shell, item_id, 0, place);
}

/// An action of the controls is called by its name: the safe return in two words,
/// a move by its direction, and any other as it is.
pub proof fn law_actions_are_called_by_their_names(action: Text)
    ensures
        action_name("SafeReturn"@) == "Safe Return"@,
        action_name("Move."@ + action) == "Move "@ + action,
{
    reveal_strlit("SafeReturn");
    reveal_strlit("Move.");
    let move_named = "Move."@ + action;
    assert(move_named[0] == 'M');
    assert("SafeReturn"@[0] == 'S');
    assert(move_named.take(5) =~= "Move."@);
    assert(move_named.skip(5) =~= action);
}

/// After a favorite was committed the focus stays where it is, as long as there is
/// such a place, and stands on the last place otherwise.
pub proof fn law_the_focus_stays_inside(shell: ShellModel)
    requires
        shell.nav.focus >= 0,
    ensures
        shell.nav.focus < shell.focus_count() ==> shell.focus_kept_inside() == shell,
        shell.nav.focus >= shell.focus_count() && shell.focus_count() > 0
            ==> shell.focus_kept_inside().nav.focus == shell.focus_count() - 1,
{
}

} // verus!
