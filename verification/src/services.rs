//! What the services around the shell report, and what they were asked to do.

use crate::calendar::{nanos_per_day, ManualTimePicker, LAST_CIVIL_DAY};
use crate::clock::SystemTime;
use crate::ports::{
    AppliedIdlePolicy, AppliedTransferState, AppliedValue, ConnectResult, DeviceStatus,
    DeviceStatusPort, IdlePolicy, NetworkState, NtpState, PowerCapability, PowerRequestResult,
    Support, TimeCapabilities, TimeState, TransferService, TransferServiceState, WifiCredential,
    WifiNetwork,
};
use crate::state::{
    binding_models, clock_model, idle_model, network_model, picker_ok, service_models, time_model,
    transfer_model, transfer_models, wifi_models, ControlBinding, ControlsFlow, NetworkFlow,
    NetworkRoomModel, PowerModel, SettingsModel, ShellCore, ShellModel, SystemFlow, SystemModel,
    TimeModel, TransferModel,
};
use crate::text::{action_label, action_name, cat, cat3, copy_text, same_text, text_of, Text};
use crate::textlist::texts;
use vstd::prelude::*;
use vstd::string::*;

verus! {

broadcast use {crate::textlist::group_texts, crate::state::group_state_models};

/// What the status of the device tells: the charge of the battery, at most 100
/// percent, and a warning. A status that cannot be had tells nothing.
pub open spec fn device_facts(status: Result<DeviceStatus, String>) -> (Option<u8>, Option<Text>) {
    match status {
        Ok(status) => (
            Some(
                if status.battery_percent > 100 {
                    100
                } else {
                    status.battery_percent
                },
            ),
            text_of(status.attention_message),
        ),
        Err(_) => (None, None),
    }
}

/// What is shown of a value that was asked for and took effect.
pub open spec fn flag_word(on: bool) -> Text {
    if on {
        "On"@
    } else {
        "Off"@
    }
}

/// What became of switching something on or off.
pub open spec fn flag_words(label: Text, requested: bool, applied: bool) -> Text {
    if requested == applied {
        label + " applied · "@ + flag_word(applied)
    } else {
        label + " requested "@ + flag_word(requested) + " · applied "@ + flag_word(applied)
    }
}

/// What became of switching something on or off, or why it failed.
pub open spec fn flag_result_words(label: Text, result: Result<AppliedValue<bool>, String>) -> Text {
    match result {
        Ok(value) => flag_words(label, value.requested, value.applied),
        Err(failure) => label + " unavailable · "@ + failure@,
    }
}

fn flag_label(on: bool) -> (word: &'static str)
    ensures
        word@ == flag_word(on),
{
    if on {
        "On"
    } else {
        "Off"
    }
}

/// Says what became of switching something on or off.
pub fn applied_bool_status(label: &str, result: &Result<AppliedValue<bool>, String>) -> (text:
    String)
    ensures
        text@ == flag_result_words(label@, *result),
{
    match result {
        Ok(value) => if value.requested == value.applied {
            cat3(label, " applied · ", flag_label(value.applied))
        } else {
            cat3(label, " requested ", flag_label(value.requested)).concat(" · applied ").concat(
                flag_label(value.applied),
            )
        },
        Err(failure) => cat3(label, " unavailable · ", failure.as_str()),
    }
}

/// What became of joining a network.
pub open spec fn connect_words(result: Result<ConnectResult, String>) -> Text {
    match result {
        Ok(ConnectResult::Progress(progress)) => "Joining · "@ + progress@,
        Ok(ConnectResult::Connected { ssid }) => "Connected · "@ + ssid@,
        Ok(ConnectResult::Refused) => "Connection failed · authentication refused"@,
        Ok(ConnectResult::NetworkNotFound) => "Connection failed · network not found"@,
        Err(failure) => "Connection unavailable · "@ + failure@,
    }
}

/// Says what became of joining a network.
pub fn connect_status(result: &Result<ConnectResult, String>) -> (text: String)
    ensures
        text@ == connect_words(*result),
{
    match result {
        Ok(ConnectResult::Progress(progress)) => cat("Joining · ", progress.as_str()),
        Ok(ConnectResult::Connected { ssid }) => cat("Connected · ", ssid.as_str()),
        Ok(ConnectResult::Refused) => "Connection failed · authentication refused".to_owned(),
        Ok(ConnectResult::NetworkNotFound) => "Connection failed · network not found".to_owned(),
        Err(failure) => cat("Connection unavailable · ", failure.as_str()),
    }
}

/// What became of setting the time zone.
pub open spec fn timezone_words(result: Result<AppliedValue<String>, String>) -> Text {
    match result {
        Ok(value) => if value.requested@ == value.applied@ {
            "Timezone applied · "@ + value.applied@
        } else {
            "Requested "@ + value.requested@ + " · applied "@ + value.applied@
        },
        Err(failure) => "Timezone unavailable · "@ + failure@,
    }
}

/// What became of setting the clock by hand.
pub open spec fn manual_time_words(result: Result<AppliedValue<SystemTime>, String>) -> Text {
    match result {
        Ok(value) => if value.requested@ == value.applied@ {
            "Manual time applied"@
        } else {
            "Manual time requested · device applied a different time"@
        },
        Err(failure) => "Manual time unavailable · "@ + failure@,
    }
}

/// What became of switching a transfer service.
pub open spec fn transfer_words(result: Result<AppliedTransferState, String>) -> Text {
    match result {
        Ok(value) => flag_words("File transfer"@, value.requested, value.applied.enabled),
        Err(failure) => "File transfer unavailable · "@ + failure@,
    }
}

/// The place of the first state of a transfer service.
pub open spec fn service_place(
    services: Seq<TransferModel>,
    service: TransferService,
    from: int,
) -> Option<int>
    decreases services.len() - from,
{
    if from < 0 || from >= services.len() {
        None
    } else if services[from].service == service {
        Some(from)
    } else {
        service_place(services, service, from + 1)
    }
}

/// The transfer services once one of them changed.
pub open spec fn services_with(services: Seq<TransferModel>, state: TransferModel) -> Seq<
    TransferModel,
> {
    match service_place(services, state.service, 0) {
        Some(place) => services.update(place, state),
        None => services,
    }
}

impl ShellModel {
    /// The state with other facts about the device.
    pub open spec fn with_device(self, battery: Option<u8>, attention: Option<Text>) -> ShellModel {
        ShellModel {
            power: PowerModel {
                battery_percent: battery,
                attention_message: attention,
                ..self.power
            },
            ..self
        }
    }

    /// The state once the status of the device is known. Nothing new makes no
    /// new revision.
    pub open spec fn with_status(self, status: Result<DeviceStatus, String>) -> ShellModel {
        let facts = device_facts(status);
        if self.power.battery_percent == facts.0 && self.power.attention_message == facts.1 {
            self
        } else {
            self.with_device(facts.0, facts.1).bumped()
        }
    }

    /// The state with another network room.
    pub open spec fn with_network(self, network: NetworkRoomModel) -> ShellModel {
        ShellModel { network, ..self }
    }

    /// The state with another system room.
    pub open spec fn with_system(self, system: SystemModel) -> ShellModel {
        ShellModel { system, ..self }
    }

    /// The state with other power facts.
    pub open spec fn with_power(self, power: PowerModel) -> ShellModel {
        ShellModel { power, ..self }
    }

    /// The state with other settings.
    pub open spec fn with_settings(self, settings: SettingsModel) -> ShellModel {
        ShellModel { settings, ..self }
    }

    pub proof fn lemma_with_power_ok(self, power: PowerModel)
        requires
            self.ok(),
        ensures
            self.with_power(power).ok(),
    {
        reveal(ShellModel::ok);
    }

    pub proof fn lemma_with_settings_ok(self, settings: SettingsModel)
        requires
            self.ok(),
            settings.settings_saved_focus == self.settings.settings_saved_focus,
        ensures
            self.with_settings(settings).ok(),
    {
        reveal(ShellModel::ok);
    }

    pub proof fn lemma_picker_ok(self)
        requires
            self.ok(),
        ensures
            picker_ok(self.system.manual_time_picker),
    {
        reveal(ShellModel::ok);
    }
}

/// The network room once the network was asked for its state and its surroundings.
pub open spec fn network_read(
    room: NetworkRoomModel,
    state: Result<NetworkState, String>,
    scan: Result<Vec<WifiNetwork>, String>,
) -> NetworkRoomModel {
    NetworkRoomModel {
        network_state: match state {
            Ok(_) => network_model(state),
            Err(failure) => Err("Network unavailable · "@ + failure@),
        },
        wifi_networks: match scan {
            Ok(networks) => wifi_models(networks@),
            Err(_) => Seq::empty(),
        },
        network_status: match scan {
            Ok(_) => room.network_status,
            Err(failure) => Some("Scan unavailable · "@ + failure@),
        },
        ..room
    }
}

/// The system room once the clock and the transfer services were read.
pub open spec fn system_read(
    room: SystemModel,
    capabilities: Result<TimeCapabilities, String>,
    time: Result<TimeState, String>,
    services: Result<Vec<TransferServiceState>, String>,
) -> SystemModel {
    SystemModel {
        time_capabilities: match capabilities {
            Ok(_) => clock_model(capabilities),
            Err(failure) => Err("Time controls unavailable · "@ + failure@),
        },
        time_state: match time {
            Ok(_) => time_model(time),
            Err(failure) => Err("Time status unavailable · "@ + failure@),
        },
        transfer_services: match services {
            Ok(_) => transfer_models(services),
            Err(failure) => Err("Transfer unavailable · "@ + failure@),
        },
        ..room
    }
}

/// The system room after the time zone was set.
pub open spec fn timezone_set(room: SystemModel, result: Result<AppliedValue<String>, String>) -> SystemModel {
    SystemModel {
        system_status: Some(timezone_words(result)),
        time_state: match (room.time_state, result) {
            (Ok(state), Ok(value)) => Ok(TimeModel { timezone: value.applied@, ..state }),
            _ => room.time_state,
        },
        ..room
    }
}

/// The system room after the clock was told to follow the network or not to.
pub open spec fn ntp_set(room: SystemModel, result: Result<AppliedValue<bool>, String>) -> SystemModel {
    SystemModel {
        system_status: Some(flag_result_words("Automatic time"@, result)),
        time_state: match (room.time_state, result) {
            (Ok(state), Ok(value)) => Ok(
                TimeModel {
                    ntp_state: if value.applied {
                        NtpState::Active
                    } else {
                        NtpState::Inactive
                    },
                    ..state
                },
            ),
            _ => room.time_state,
        },
        ..room
    }
}

/// The system room after the clock was set by hand.
pub open spec fn manual_time_set(
    room: SystemModel,
    result: Result<AppliedValue<SystemTime>, String>,
) -> SystemModel {
    SystemModel {
        system_status: Some(manual_time_words(result)),
        time_state: match (room.time_state, result) {
            (Ok(state), Ok(value)) => Ok(TimeModel { wall_clock: value.applied@, ..state }),
            _ => room.time_state,
        },
        ..room
    }
}

/// The system room after a transfer service was switched.
pub open spec fn transfer_set(
    room: SystemModel,
    result: Result<AppliedTransferState, String>,
) -> SystemModel {
    SystemModel {
        system_status: Some(transfer_words(result)),
        transfer_services: match (room.transfer_services, result) {
            (Ok(services), Ok(value)) => Ok(
                services_with(services, transfer_model(value.applied)),
            ),
            _ => room.transfer_services,
        },
        ..room
    }
}

/// The power facts once the power service was read.
pub open spec fn power_read(
    power: PowerModel,
    capabilities: Result<Vec<PowerCapability>, String>,
    idle_policy: Result<IdlePolicy, String>,
) -> PowerModel {
    PowerModel {
        power_capabilities: match capabilities {
            Ok(capabilities) => capabilities@,
            Err(_) => Seq::empty(),
        },
        applied_idle_policy: match idle_policy {
            Ok(policy) => idle_model(policy),
            Err(_) => power.applied_idle_policy,
        },
        idle_policy_loaded: idle_policy is Ok,
        power_status: match (capabilities, idle_policy) {
            (Ok(_), Ok(_)) => None,
            (Err(_), Ok(_)) => Some("Power actions are unavailable"@),
            (Ok(_), Err(_)) => Some("Auto-sleep is unavailable"@),
            (Err(_), Err(_)) => Some("Power controls are unavailable"@),
        },
        ..power
    }
}

/// What is shown after a power request.
pub open spec fn power_request_words(result: Result<PowerRequestResult, String>) -> Option<Text> {
    match result {
        Ok(PowerRequestResult::Accepted) => None,
        Ok(PowerRequestResult::Unsupported) => Some("That power action is unavailable"@),
        Ok(PowerRequestResult::Refused { reason }) => Some("Power action refused · "@ + reason@),
        Err(_) => Some("Power controls are unavailable"@),
    }
}

/// The power facts after an idle policy was set.
pub open spec fn idle_policy_set(power: PowerModel, result: Result<AppliedIdlePolicy, String>) -> PowerModel {
    match result {
        Ok(result) => PowerModel {
            applied_idle_policy: idle_model(result.applied),
            idle_policy_loaded: true,
            power_status: None,
            ..power
        },
        Err(_) => PowerModel {
            power_status: Some("Auto-sleep could not be changed"@),
            ..power
        },
    }
}

fn same_message(left: &Option<String>, right: &Option<String>) -> (same: bool)
    ensures
        same == (text_of(*left) == text_of(*right)),
{
    match (left, right) {
        (Some(left), Some(right)) => same_text(left.as_str(), right.as_str()),
        (None, None) => true,
        _ => false,
    }
}

fn same_percent(left: Option<u8>, right: Option<u8>) -> (same: bool)
    ensures
        same == (left == right),
{
    match (left, right) {
        (Some(left), Some(right)) => left == right,
        (None, None) => true,
        _ => false,
    }
}

impl ShellCore {
    /// Takes in the status of the device.
    pub fn device_status_read(&mut self, status: Result<DeviceStatus, String>)
        requires
            old(self).wf(),
        ensures
            final(self)@ == old(self)@.with_status(status),
            final(self).wf(),
    {
        let (battery, attention): (Option<u8>, Option<String>) = match &status {
            Ok(status) => (
                Some(
                    if status.battery_percent > 100 {
                        100
                    } else {
                        status.battery_percent
                    },
                ),
                copy_text(&status.attention_message),
            ),
            Err(_) => (None, None),
        };
        if same_percent(self.power.battery_percent, battery) && same_message(
            &self.power.attention_message,
            &attention,
        ) {
            return;
        }
        self.power.battery_percent = battery;
        self.power.attention_message = attention;
        proof {
            old(self)@.lemma_with_power_ok(self@.power);
        }
        self.bump_revision();
    }

    /// Asks for the status of the device and takes it in.
    pub fn load_device_status(&mut self, port: &dyn DeviceStatusPort)
        requires
            old(self).wf(),
        ensures
            exists|status: Result<DeviceStatus, String>|
                final(self)@ == #[trigger] old(self)@.with_status(status),
            final(self).wf(),
    {
        let status = port.status();
        self.device_status_read(status);
    }

    /// Takes in the state of the network and the networks in reach.
    pub fn load_network(
        &mut self,
        state: Result<NetworkState, String>,
        scan: Result<Vec<WifiNetwork>, String>,
    )
        requires
            old(self).wf(),
        ensures
            final(self)@ == old(self)@.bumped().with_network(
                network_read(old(self)@.network, state, scan),
            ),
            final(self).wf(),
    {
        self.bump_revision();
        let ghost bumped = self@;
        self.network.network_state = match state {
            Ok(state) => Ok(state),
            Err(failure) => Err(cat("Network unavailable · ", failure.as_str())),
        };
        self.network.wifi_networks = match scan {
            Ok(networks) => networks,
            Err(failure) => {
                self.network.network_status = Some(cat("Scan unavailable · ", failure.as_str()));
                Vec::new()
            },
        };
        proof {
            if scan is Err {
                assert(self@.network.wifi_networks =~= Seq::empty());
            }
            bumped.lemma_network_ok(self@.network);
        }
    }

    /// Takes in what the clock and the transfer services report.
    pub fn load_system(
        &mut self,
        capabilities: Result<TimeCapabilities, String>,
        time: Result<TimeState, String>,
        services: Result<Vec<TransferServiceState>, String>,
    )
        requires
            old(self).wf(),
        ensures
            final(self)@ == old(self)@.bumped().with_system(
                system_read(old(self)@.system, capabilities, time, services),
            ),
            final(self).wf(),
    {
        self.bump_revision();
        let ghost bumped = self@;
        self.system.time_capabilities = match capabilities {
            Ok(capabilities) => Ok(capabilities),
            Err(failure) => Err(cat("Time controls unavailable · ", failure.as_str())),
        };
        self.system.time_state = match time {
            Ok(time) => Ok(time),
            Err(failure) => Err(cat("Time status unavailable · ", failure.as_str())),
        };
        self.system.transfer_services = match services {
            Ok(services) => Ok(services),
            Err(failure) => Err(cat("Transfer unavailable · ", failure.as_str())),
        };
        proof {
            bumped.lemma_picker_ok();
            bumped.lemma_system_ok(self@.system);
        }
    }

    /// Takes the secret for the selected network.
    pub fn set_wifi_passphrase(&mut self, secret: Vec<u8>)
        requires
            old(self).wf(),
        ensures
            final(self)@ == old(self)@.bumped().with_network(
                NetworkRoomModel { wifi_credential: secret@, ..old(self)@.network },
            ),
            final(self)@.network.wifi_credential == secret@,
            final(self).wf(),
    {
        self.bump_revision();
        let ghost bumped = self@;
        self.network.wifi_credential = WifiCredential::new(secret);
        proof {
            bumped.lemma_network_ok(self@.network);
        }
    }

    /// Takes in what became of joining a network. The secret is forgotten.
    pub fn network_result(&mut self, result: Result<ConnectResult, String>)
        requires
            old(self).wf(),
        ensures
            final(self)@ == old(self)@.bumped().with_network(
                NetworkRoomModel {
                    network_status: Some(connect_words(result)),
                    network_flow: NetworkFlow::Rows,
                    wifi_credential: Seq::empty(),
                    ..old(self)@.network
                },
            ),
            final(self)@.network.wifi_credential.len() == 0,
            final(self)@.network.network_flow == NetworkFlow::Rows,
            final(self)@.network.wifi_networks == old(self)@.network.wifi_networks,
            final(self).wf(),
    {
        self.bump_revision();
        let ghost bumped = self@;
        self.network.network_status = Some(connect_status(&result));
        self.network.network_flow = NetworkFlow::Rows;
        self.network.wifi_credential = WifiCredential::new(Vec::new());
        proof {
            bumped.lemma_network_ok(self@.network);
        }
    }

    /// Takes in what became of setting the time zone.
    pub fn timezone_result(&mut self, result: Result<AppliedValue<String>, String>)
        requires
            old(self).wf(),
        ensures
            final(self)@ == old(self)@.with_system(
                timezone_set(old(self)@.system, result),
            ).bumped(),
            final(self).wf(),
    {
        let status = match &result {
            Ok(value) => if same_text(value.requested.as_str(), value.applied.as_str()) {
                cat("Timezone applied · ", value.applied.as_str())
            } else {
                cat3("Requested ", value.requested.as_str(), " · applied ").concat(
                    value.applied.as_str(),
                )
            },
            Err(failure) => cat("Timezone unavailable · ", failure.as_str()),
        };
        self.system.system_status = Some(status);
        if let Ok(value) = result {
            if let Ok(state) = &mut self.system.time_state {
                state.timezone = value.applied;
            }
        }
        proof {
            old(self)@.lemma_picker_ok();
            old(self)@.lemma_system_ok(self@.system);
        }
        self.bump_revision();
    }

    /// Takes in whether the clock follows the network.
    pub fn ntp_result(&mut self, result: Result<AppliedValue<bool>, String>)
        requires
            old(self).wf(),
        ensures
            final(self)@ == old(self)@.with_system(ntp_set(old(self)@.system, result)).bumped(),
            final(self).wf(),
    {
        self.system.system_status = Some(applied_bool_status("Automatic time", &result));
        if let Ok(value) = result {
            if let Ok(state) = &mut self.system.time_state {
                state.ntp_state = if value.applied {
                    NtpState::Active
                } else {
                    NtpState::Inactive
                };
            }
        }
        proof {
            old(self)@.lemma_picker_ok();
            old(self)@.lemma_system_ok(self@.system);
        }
        self.bump_revision();
    }

    /// Takes in what became of setting the clock by hand.
    pub fn manual_time_result(&mut self, result: Result<AppliedValue<SystemTime>, String>)
        requires
            old(self).wf(),
        ensures
            final(self)@ == old(self)@.with_system(
                manual_time_set(old(self)@.system, result),
            ).bumped(),
            final(self).wf(),
    {
        let status = match &result {
            Ok(value) => if value.requested.same(value.applied) {
                "Manual time applied".to_owned()
            } else {
                "Manual time requested · device applied a different time".to_owned()
            },
            Err(failure) => cat("Manual time unavailable · ", failure.as_str()),
        };
        self.system.system_status = Some(status);
        if let Ok(value) = result {
            if let Ok(state) = &mut self.system.time_state {
                state.wall_clock = value.applied;
            }
        }
        proof {
            old(self)@.lemma_picker_ok();
            old(self)@.lemma_system_ok(self@.system);
        }
        self.bump_revision();
    }

    /// Takes in the clock as it was read for setting it by hand. The picker
    /// then shows it.
    pub fn manual_time_refresh_result(&mut self, result: Result<TimeState, String>)
        requires
            old(self).wf(),
            result matches Ok(state) ==> state.wall_clock@ < (LAST_CIVIL_DAY + 1)
                * nanos_per_day(),
        ensures
            match result {
                Ok(state) => final(self)@ == old(self)@.with_system(
                    SystemModel {
                        manual_time_picker: ManualTimePicker::picker_at(state.wall_clock@),
                        time_state: time_model(result),
                        system_flow: SystemFlow::ManualTime,
                        ..old(self)@.system
                    },
                ).bumped(),
                Err(failure) => final(self)@ == old(self)@.with_system(
                    SystemModel {
                        time_state: Err("Time status unavailable · "@ + failure@),
                        system_status: Some("Manual time unavailable · "@ + failure@),
                        ..old(self)@.system
                    },
                ).bumped(),
            },
            final(self).wf(),
    {
        proof {
            old(self)@.lemma_picker_ok();
            reveal(picker_ok);
        }
        match result {
            Ok(state) => {
                self.system.manual_time_picker = ManualTimePicker::from_system_time(
                    state.wall_clock,
                );
                self.system.time_state = Ok(state);
                self.system.system_flow = SystemFlow::ManualTime;
            },
            Err(failure) => {
                self.system.time_state = Err(cat("Time status unavailable · ", failure.as_str()));
                self.system.system_status = Some(
                    cat("Manual time unavailable · ", failure.as_str()),
                );
            },
        }
        proof {
            old(self)@.lemma_system_ok(self@.system);
        }
        self.bump_revision();
    }

    /// Takes in what became of switching a transfer service.
    pub fn transfer_result(&mut self, result: Result<AppliedTransferState, String>)
        requires
            old(self).wf(),
        ensures
            final(self)@ == old(self)@.with_system(
                transfer_set(old(self)@.system, result),
            ).bumped(),
            final(self).wf(),
    {
        let status = match &result {
            Ok(value) => applied_bool_status(
                "File transfer",
                &Ok(AppliedValue { requested: value.requested, applied: value.applied.enabled }),
            ),
            Err(failure) => cat("File transfer unavailable · ", failure.as_str()),
        };
        self.system.system_status = Some(status);
        if let Ok(value) = result {
            if let Ok(services) = &mut self.system.transfer_services {
                replace_service(services, value.applied);
            }
        }
        proof {
            old(self)@.lemma_picker_ok();
            old(self)@.lemma_system_ok(self@.system);
        }
        self.bump_revision();
    }

    /// Takes in what the power service reports.
    pub fn load_power(
        &mut self,
        capabilities: Result<Vec<PowerCapability>, String>,
        idle_policy: Result<IdlePolicy, String>,
    )
        requires
            old(self).wf(),
        ensures
            final(self)@ == old(self)@.bumped().with_power(
                power_read(old(self)@.power, capabilities, idle_policy),
            ),
            final(self).wf(),
    {
        self.bump_revision();
        let ghost bumped = self@;
        self.power.power_status = match (capabilities.is_err(), idle_policy.is_ok()) {
            (false, true) => None,
            (true, true) => Some("Power actions are unavailable".to_owned()),
            (false, false) => Some("Auto-sleep is unavailable".to_owned()),
            (true, false) => Some("Power controls are unavailable".to_owned()),
        };
        self.power.idle_policy_loaded = idle_policy.is_ok();
        if let Ok(policy) = idle_policy {
            self.power.applied_idle_policy = policy;
        }
        self.power.power_capabilities = match capabilities {
            Ok(capabilities) => capabilities,
            Err(_) => Vec::new(),
        };
        proof {
            if capabilities is Err {
                assert(self@.power.power_capabilities =~= Seq::empty());
            }
            bumped.lemma_with_power_ok(self@.power);
        }
    }

    /// Takes in what became of a power request.
    pub fn power_request_result(&mut self, result: Result<PowerRequestResult, String>)
        requires
            old(self).wf(),
        ensures
            final(self)@ == old(self)@.bumped().with_power(
                PowerModel { power_status: power_request_words(result), ..old(self)@.power },
            ),
            result == Ok::<PowerRequestResult, String>(PowerRequestResult::Accepted)
                ==> final(self)@.power.power_status is None,
            final(self)@.power.power_dialog == old(self)@.power.power_dialog,
            final(self).wf(),
    {
        self.bump_revision();
        let ghost bumped = self@;
        self.power.power_status = match &result {
            Ok(PowerRequestResult::Accepted) => None,
            Ok(PowerRequestResult::Unsupported) => Some(
                "That power action is unavailable".to_owned(),
            ),
            Ok(PowerRequestResult::Refused { reason }) => Some(
                cat("Power action refused · ", reason.as_str()),
            ),
            Err(_) => Some("Power controls are unavailable".to_owned()),
        };
        proof {
            bumped.lemma_with_power_ok(self@.power);
        }
    }

    /// Takes in what became of setting the idle policy.
    pub fn idle_policy_result(&mut self, result: Result<AppliedIdlePolicy, String>)
        requires
            old(self).wf(),
        ensures
            final(self)@ == old(self)@.bumped().with_power(
                idle_policy_set(old(self)@.power, result),
            ),
            final(self).wf(),
    {
        self.bump_revision();
        let ghost bumped = self@;
        match &result {
            Ok(result) => {
                self.power.applied_idle_policy = result.applied;
                self.power.idle_policy_loaded = true;
                self.power.power_status = None;
            },
            Err(_) => {
                self.power.power_status = Some("Auto-sleep could not be changed".to_owned());
            },
        }
        proof {
            bumped.lemma_with_power_ok(self@.power);
        }
    }

    /// Names the button that returns safely.
    pub fn set_safe_return_binding(&mut self, label: String)
        requires
            old(self).wf(),
        ensures
            final(self)@ == old(self)@.bumped().with_settings(
                SettingsModel { safe_return_binding: label@, ..old(self)@.settings },
            ),
            final(self)@.settings.safe_return_binding == label@,
            final(self).wf(),
    {
        self.bump_revision();
        let ghost bumped = self@;
        self.settings.safe_return_binding = label;
        proof {
            bumped.lemma_with_settings_ok(self@.settings);
        }
    }

    /// Names the buttons that could return safely.
    pub fn set_safe_return_options(&mut self, options: Vec<String>)
        requires
            old(self).wf(),
        ensures
            final(self)@ == old(self)@.bumped().with_settings(
                SettingsModel { safe_return_options: texts(options@), ..old(self)@.settings },
            ),
            final(self).wf(),
    {
        self.bump_revision();
        let ghost bumped = self@;
        self.settings.safe_return_options = options;
        proof {
            bumped.lemma_with_settings_ok(self@.settings);
        }
    }

    /// Takes in what the controls do.
    pub fn set_control_bindings(&mut self, bindings: Vec<ControlBinding>)
        requires
            old(self).wf(),
        ensures
            final(self)@ == old(self)@.bumped().with_settings(
                SettingsModel {
                    control_bindings: binding_models(bindings@),
                    ..old(self)@.settings
                },
            ),
            final(self)@.settings.control_bindings == binding_models(bindings@),
            final(self)@.settings.controls_status == old(self)@.settings.controls_status,
            final(self).wf(),
    {
        self.bump_revision();
        let ghost bumped = self@;
        self.settings.control_bindings = bindings;
        proof {
            bumped.lemma_with_settings_ok(self@.settings);
        }
    }

    /// Takes in that a button is taken by another action.
    pub fn remap_refused(&mut self, conflicting_action: &str)
        requires
            old(self).wf(),
        ensures
            final(self)@ == old(self)@.bumped().with_settings(
                SettingsModel {
                    controls_status: Some(
                        "That button is already bound to "@ + action_name(conflicting_action@)
                            + " · choose another button"@,
                    ),
                    ..old(self)@.settings
                },
            ),
            final(self)@.settings.control_bindings == old(self)@.settings.control_bindings,
            final(self).wf(),
    {
        self.bump_revision();
        let ghost bumped = self@;
        self.settings.controls_flow = ControlsFlow::Rows;
        self.settings.controls_status = Some(
            cat3(
                "That button is already bound to ",
                action_label(conflicting_action).as_str(),
                " · choose another button",
            ),
        );
        proof {
            bumped.lemma_with_settings_ok(self@.settings);
        }
    }

    /// Takes in that a button was bound.
    pub fn remap_committed(&mut self, bindings: Vec<ControlBinding>)
        requires
            old(self).wf(),
        ensures
            final(self)@ == old(self)@.bumped().with_settings(
                SettingsModel {
                    control_bindings: binding_models(bindings@),
                    controls_status: Some("Binding saved"@),
                    ..old(self)@.settings
                },
            ),
            final(self)@.settings.control_bindings == binding_models(bindings@),
            final(self).wf(),
    {
        self.bump_revision();
        let ghost bumped = self@;
        self.settings.control_bindings = bindings;
        self.settings.controls_status = Some("Binding saved".to_owned());
        proof {
            bumped.lemma_with_settings_ok(self@.settings);
        }
    }

    /// Takes in that the controls are what they were at first.
    pub fn remaps_reset(&mut self, bindings: Vec<ControlBinding>)
        requires
            old(self).wf(),
        ensures
            final(self)@ == old(self)@.bumped().with_settings(
                SettingsModel {
                    control_bindings: binding_models(bindings@),
                    controls_status: Some("Controls reset to defaults"@),
                    ..old(self)@.settings
                },
            ),
            final(self)@.settings.control_bindings == binding_models(bindings@),
            final(self).wf(),
    {
        self.bump_revision();
        let ghost bumped = self@;
        self.settings.control_bindings = bindings;
        self.settings.controls_status = Some("Controls reset to defaults".to_owned());
        proof {
            bumped.lemma_with_settings_ok(self@.settings);
        }
    }
}

fn replace_service(services: &mut Vec<TransferServiceState>, state: TransferServiceState)
    ensures
        service_models(final(services)@) == services_with(
            service_models(old(services)@),
            transfer_model(state),
        ),
{
    let ghost models = service_models(services@);
    let mut next: usize = 0;
    while next < services.len()
        invariant
            next <= services@.len(),
            services@ == old(services)@,
            models == service_models(services@),
            service_place(models, state.service, 0) == service_place(
                models,
                state.service,
                next as int,
            ),
        decreases services@.len() - next,
    {
        if services[next].service == state.service {
            services[next] = state;
            proof {
                assert(service_models(services@) =~= services_with(models, transfer_model(state)));
            }
            return;
        }
        next += 1;
    }
}

/// The rows that the system room offers for the clock, the transfer services
/// and the comfort settings.
#[derive(Clone, Copy, Debug, PartialEq, Eq, Structural)]
pub enum SystemRow {
    TimeUnavailable,
    TransferUnavailable,
    Timezone,
    Ntp,
    ManualTime,
    Transfer(TransferService),
    Accessibility,
}

/// A row, where it is offered.
pub open spec fn offered(row: SystemRow, when: bool) -> Seq<SystemRow> {
    if when {
        seq![row]
    } else {
        Seq::empty()
    }
}

/// The rows of the transfer services that the device supports.
pub open spec fn transfer_rows(services: Seq<TransferModel>) -> Seq<SystemRow>
    decreases services.len(),
{
    if services.len() == 0 {
        Seq::empty()
    } else {
        transfer_rows(services.drop_last()) + offered(
            SystemRow::Transfer(services.last().service),
            services.last().support == Support::Supported,
        )
    }
}

/// Whether the clock can be set by hand: that is supported, and the clock does
/// not follow the network.
pub open spec fn clock_settable(room: SystemModel) -> bool {
    (room.time_capabilities matches Ok(manual) && manual == Support::Supported) && (
    room.time_state matches Ok(state) && state.ntp_state != NtpState::Active)
}

/// The rows of the system room. What cannot be had is said to be unavailable;
/// the clock can be set by hand only where that is supported and the clock does
/// not follow the network.
pub open spec fn system_rows_of(room: SystemModel) -> Seq<SystemRow> {
    offered(SystemRow::TimeUnavailable, room.time_state is Err) + offered(
        SystemRow::TransferUnavailable,
        room.transfer_services is Err,
    ) + offered(SystemRow::Timezone, room.time_state is Ok) + offered(
        SystemRow::Ntp,
        room.time_state matches Ok(state) && state.ntp_state != NtpState::Unsupported,
    ) + offered(
        SystemRow::ManualTime,
        clock_settable(room),
    ) + (match room.transfer_services {
        Ok(services) => transfer_rows(services),
        Err(_) => Seq::empty(),
    }) + seq![SystemRow::Accessibility]
}

proof fn lemma_transfer_rows(services: Seq<TransferModel>)
    ensures
        forall|i: int|
            0 <= i < transfer_rows(services).len() ==> (#[trigger] transfer_rows(services)[i])
                is Transfer,
    decreases services.len(),
{
    if services.len() > 0 {
        lemma_transfer_rows(services.drop_last());
    }
}

/// The clock is offered for setting only where it can be set.
pub proof fn law_manual_time_is_offered_where_settable(room: SystemModel, place: int)
    requires
        0 <= place < system_rows_of(room).len(),
        system_rows_of(room)[place] == SystemRow::ManualTime,
    ensures
        clock_settable(room),
{
    if let Ok(services) = room.transfer_services {
        lemma_transfer_rows(services);
    }
}

fn offer(rows: &mut Vec<SystemRow>, row: SystemRow, when: bool)
    ensures
        final(rows)@ == old(rows)@ + offered(row, when),
{
    if when {
        rows.push(row);
        proof {
            assert(rows@ =~= old(rows)@ + seq![row]);
        }
    } else {
        proof {
            assert(rows@ + Seq::<SystemRow>::empty() =~= rows@);
        }
    }
}

impl ShellCore {
    /// The rows of the system room.
    pub fn system_rows(&self) -> (rows: Vec<SystemRow>)
        ensures
            rows@ == system_rows_of(self@.system),
    {
        let mut rows: Vec<SystemRow> = Vec::new();
        proof {
            assert(rows@ + offered(
                SystemRow::TimeUnavailable,
                self@.system.time_state is Err,
            ) =~= offered(SystemRow::TimeUnavailable, self@.system.time_state is Err));
        }
        offer(&mut rows, SystemRow::TimeUnavailable, self.system.time_state.is_err());
        offer(&mut rows, SystemRow::TransferUnavailable, self.system.transfer_services.is_err());
        offer(&mut rows, SystemRow::Timezone, self.system.time_state.is_ok());
        let ntp = match &self.system.time_state {
            Ok(state) => state.ntp_state != NtpState::Unsupported,
            Err(_) => false,
        };
        offer(&mut rows, SystemRow::Ntp, ntp);
        let settable = match &self.system.time_capabilities {
            Ok(capabilities) => capabilities.manual_set_time == Support::Supported,
            Err(_) => false,
        };
        let free = match &self.system.time_state {
            Ok(state) => state.ntp_state != NtpState::Active,
            Err(_) => false,
        };
        offer(&mut rows, SystemRow::ManualTime, settable && free);
        let ghost before = rows@;
        if let Ok(services) = &self.system.transfer_services {
            let ghost models = service_models(services@);
            let mut next: usize = 0;
            proof {
                assert(models.take(0) =~= Seq::empty());
                assert(before + Seq::<SystemRow>::empty() =~= before);
            }
            while next < services.len()
                invariant
                    next <= services@.len(),
                    models == service_models(services@),
                    rows@ == before + transfer_rows(models.take(next as int)),
                decreases services@.len() - next,
            {
                proof {
                    assert(models.take(next + 1).drop_last() =~= models.take(next as int));
                    assert(models.take(next + 1).last() == models[next as int]);
                }
                let state = &services[next];
                offer(
                    &mut rows,
                    SystemRow::Transfer(state.service),
                    state.support == Support::Supported,
                );
                proof {
                    assert(rows@ =~= before + transfer_rows(models.take(next + 1)));
                }
                next += 1;
            }
            proof {
                assert(models.take(models.len() as int) =~= models);
            }
        } else {
            proof {
                assert(before + Seq::<SystemRow>::empty() =~= before);
            }
        }
        let ghost listed = rows@;
        rows.push(SystemRow::Accessibility);
        proof {
            assert(rows@ =~= listed + seq![SystemRow::Accessibility]);
        }
        rows
    }
}

} // verus!
