//! The state of the shell and its mathematical model.

use crate::calendar::ManualTimePicker;
use crate::catalog::{item_models, Item, ItemModel};
use crate::playtime::{Playtime, PlaytimeModel};
use crate::ports::{
    IdlePolicy, LaunchRequest, NetworkState, NtpState, PowerAction, PowerCapability,
    PreferenceChange, PreferenceValue, Support, TimeCapabilities, TimeState, TransferService,
    TransferServiceState, ValueModel, WifiCredential, WifiNetwork, WifiSecurity,
};
use crate::text::{text_of, Text};
use crate::textlist::texts;
use crate::textmap::TextMap;
use crate::clock::SystemTime;
use vstd::prelude::*;

verus! {

/// The places of the shell.
#[derive(Clone, Copy, Debug, PartialEq, Eq, Structural)]
pub enum Route {
    Home,
    Library,
    Search,
    Details,
    VariantChooser,
    Settings,
    Quick,
}

impl Route {
    /// The slot in which the focus of a place is kept.
    pub open spec fn slot(self) -> int {
        match self {
            Route::Home => 0,
            Route::Library => 1,
            Route::Search => 2,
            Route::Details => 3,
            Route::VariantChooser => 4,
            Route::Settings => 5,
            Route::Quick => 6,
        }
    }

    /// The name of a place.
    pub open spec fn name(self) -> Text {
        match self {
            Route::Home => "Home"@,
            Route::Library => "Library"@,
            Route::Search => "Search"@,
            Route::Details => "Details"@,
            Route::VariantChooser => "VariantChooser"@,
            Route::Settings => "Settings"@,
            Route::Quick => "Quick"@,
        }
    }

    /// The slot in which the focus of a place is kept.
    pub fn index(self) -> (slot: usize)
        ensures
            slot == self.slot(),
            slot < 7,
    {
        match self {
            Route::Home => 0,
            Route::Library => 1,
            Route::Search => 2,
            Route::Details => 3,
            Route::VariantChooser => 4,
            Route::Settings => 5,
            Route::Quick => 6,
        }
    }

    /// Names a place.
    pub fn label(self) -> (name: &'static str)
        ensures
            name@ == self.name(),
    {
        match self {
            Route::Home => "Home",
            Route::Library => "Library",
            Route::Search => "Search",
            Route::Details => "Details",
            Route::VariantChooser => "VariantChooser",
            Route::Settings => "Settings",
            Route::Quick => "Quick",
        }
    }
}

/// What the shell presents as a whole.
#[derive(Clone, Copy, Debug, PartialEq, Eq, Structural)]
pub enum Presentation {
    FirstRun,
    Booting,
    Ready,
    Starting,
    Running,
    Returned,
    ForcedClose,
    Crash,
    RecoveryRequired,
}

impl Presentation {
    /// Whether the shell is on the screen at all.
    pub open spec fn has_frame(self) -> bool {
        self != Presentation::Running && self != Presentation::RecoveryRequired
    }
}

/// Whether a power action waits for the user's word.
#[derive(Clone, Copy, Debug, PartialEq, Eq, Structural)]
pub enum PowerDialog {
    Closed,
    Confirm(PowerAction),
}

/// Which titles the library lists, and in what order.
#[derive(Clone, Copy, Debug, PartialEq, Eq, Structural)]
pub enum LibraryFilter {
    Recent,
    Alphabetical,
    Games,
    EverythingElse,
}

impl LibraryFilter {
    /// The filter that follows in the ring of filters.
    pub open spec fn following(self) -> LibraryFilter {
        match self {
            LibraryFilter::Recent => LibraryFilter::Alphabetical,
            LibraryFilter::Alphabetical => LibraryFilter::Games,
            LibraryFilter::Games => LibraryFilter::EverythingElse,
            LibraryFilter::EverythingElse => LibraryFilter::Recent,
        }
    }

    /// The filter of a chip, by its place on the toolbar.
    pub open spec fn chip(place: int) -> LibraryFilter {
        if place == 0 {
            LibraryFilter::Recent
        } else if place == 1 {
            LibraryFilter::Alphabetical
        } else if place == 2 {
            LibraryFilter::Games
        } else {
            LibraryFilter::EverythingElse
        }
    }

    /// The filter that follows in the ring of filters.
    pub fn next(self) -> (filter: LibraryFilter)
        ensures
            filter == self.following(),
    {
        match self {
            LibraryFilter::Recent => LibraryFilter::Alphabetical,
            LibraryFilter::Alphabetical => LibraryFilter::Games,
            LibraryFilter::Games => LibraryFilter::EverythingElse,
            LibraryFilter::EverythingElse => LibraryFilter::Recent,
        }
    }
}

impl Default for LibraryFilter {
    fn default() -> (filter: LibraryFilter)
        ensures
            filter == LibraryFilter::Recent,
    {
        LibraryFilter::Recent
    }
}

/// Where the controls room stands.
#[derive(Clone, Copy, Debug, PartialEq, Eq, Structural)]
pub enum ControlsFlow {
    Rows,
}

/// Where the network room stands.
#[derive(Clone, Copy, Debug, PartialEq, Eq, Structural)]
pub enum NetworkFlow {
    Rows,
    Credential,
}

/// Where the system room stands.
#[derive(Clone, Copy, Debug, PartialEq, Eq, Structural)]
pub enum SystemFlow {
    Rows,
    ManualTime,
}

/// The rooms of the settings.
#[derive(Clone, Copy, Debug, PartialEq, Eq, Structural)]
pub enum SettingsRoom {
    Accessibility,
    Display,
    Controls,
    Network,
    System,
}

impl SettingsRoom {
    /// The slot in which the focus of a room is kept.
    pub open spec fn slot(self) -> int {
        match self {
            SettingsRoom::Accessibility => 0,
            SettingsRoom::Controls => 1,
            SettingsRoom::Display => 2,
            SettingsRoom::Network => 3,
            SettingsRoom::System => 4,
        }
    }

    /// The slot in which the focus of a room is kept.
    pub fn index(self) -> (slot: usize)
        ensures
            slot == self.slot(),
            slot < 5,
    {
        match self {
            SettingsRoom::Accessibility => 0,
            SettingsRoom::Controls => 1,
            SettingsRoom::Display => 2,
            SettingsRoom::Network => 3,
            SettingsRoom::System => 4,
        }
    }
}

/// A control and what it does.
#[derive(Clone, Debug, PartialEq, Eq)]
pub struct ControlBinding {
    pub context: String,
    pub action: String,
    pub label: String,
    pub binding: String,
}

/// The model of a control binding.
pub ghost struct BindingModel {
    pub context: Text,
    pub action: Text,
    pub label: Text,
    pub binding: Text,
}

impl View for ControlBinding {
    type V = BindingModel;

    open spec fn view(&self) -> BindingModel {
        BindingModel {
            context: self.context@,
            action: self.action@,
            label: self.label@,
            binding: self.binding@,
        }
    }
}

/// The models of a list of control bindings.
#[verifier::opaque]
pub open spec fn binding_models(bindings: Seq<ControlBinding>) -> Seq<BindingModel> {
    Seq::new(bindings.len(), |i: int| bindings[i]@)
}

/// A list has as many models as elements.
pub broadcast proof fn lemma_binding_models_len(bindings: Seq<ControlBinding>)
    ensures
        #[trigger] binding_models(bindings).len() == bindings.len(),
{
    reveal(binding_models);
}

/// Each element of a list has its own model.
pub broadcast proof fn lemma_binding_models_index(bindings: Seq<ControlBinding>, i: int)
    requires
        0 <= i < bindings.len(),
    ensures
        (#[trigger] binding_models(bindings)[i]) == bindings[i]@,
{
    reveal(binding_models);
}

/// A preference that the settings show. It can be changed only where the
/// service reported it as applied.
#[derive(Clone, Debug, PartialEq, Eq)]
pub struct DisplayPreference {
    pub key: &'static str,
    pub label: &'static str,
    pub effective: PreferenceValue,
    pub interactive: bool,
}

/// The model of a shown preference.
pub ghost struct PreferenceModel {
    pub key: Text,
    pub label: Text,
    pub effective: ValueModel,
    pub interactive: bool,
}

impl View for DisplayPreference {
    type V = PreferenceModel;

    open spec fn view(&self) -> PreferenceModel {
        PreferenceModel {
            key: self.key@,
            label: self.label@,
            effective: self.effective@,
            interactive: self.interactive,
        }
    }
}

/// The models of a list of shown preferences.
#[verifier::opaque]
pub open spec fn preference_models(rows: Seq<DisplayPreference>) -> Seq<PreferenceModel> {
    Seq::new(rows.len(), |i: int| rows[i]@)
}

/// A list has as many models as elements.
pub broadcast proof fn lemma_preference_models_len(rows: Seq<DisplayPreference>)
    ensures
        #[trigger] preference_models(rows).len() == rows.len(),
{
    reveal(preference_models);
}

/// Each element of a list has its own model.
pub broadcast proof fn lemma_preference_models_index(rows: Seq<DisplayPreference>, i: int)
    requires
        0 <= i < rows.len(),
    ensures
        (#[trigger] preference_models(rows)[i]) == rows[i]@,
{
    reveal(preference_models);
}

/// What the shell asks of the world around it.
#[derive(Clone, PartialEq, Eq)]
pub enum Effect {
    Launch(LaunchRequest),
    SafeReturn,
    EnterRecovery,
    ChangePreference(PreferenceChange),
    ResetFirstRun,
    CaptureRemap,
    BeginRemap { context: String, action: String, control: String },
    ConfirmRemap,
    RollbackRemap,
    ResetRemaps,
    CompleteFirstRun,
    ToggleFavorite { item_id: String, favorite: bool },
    SetPinnedVariant { item_id: String, variant_id: Option<String> },
    CaptureScreenshot,
    RequestPower(PowerAction),
    SetIdlePolicy(IdlePolicy),
    ConnectWifi { ssid: String, credential: WifiCredential },
    SetTimezone(String),
    SetNtp(bool),
    RefreshManualTime,
    SetManualTime(SystemTime),
    SetTransfer { service: TransferService, enabled: bool },
}

/// The model of an effect.
pub ghost enum EffectModel {
    Launch { item_id: Text },
    SafeReturn,
    EnterRecovery,
    ChangePreference { key: Text, value: ValueModel, authority: Text },
    ResetFirstRun,
    CaptureRemap,
    BeginRemap { context: Text, action: Text, control: Text },
    ConfirmRemap,
    RollbackRemap,
    ResetRemaps,
    CompleteFirstRun,
    ToggleFavorite { item_id: Text, favorite: bool },
    SetPinnedVariant { item_id: Text, variant_id: Option<Text> },
    CaptureScreenshot,
    RequestPower(PowerAction),
    SetIdlePolicy { sleep_after: Option<nat>, power_off_after: Option<nat> },
    ConnectWifi { ssid: Text, credential: Seq<u8> },
    SetTimezone(Text),
    SetNtp(bool),
    RefreshManualTime,
    SetManualTime(int),
    SetTransfer { service: TransferService, enabled: bool },
}

/// The model of a span that may be missing.
pub open spec fn span_of_option(span: Option<crate::clock::Duration>) -> Option<nat> {
    match span {
        Some(span) => Some(span@),
        None => None,
    }
}

impl View for Effect {
    type V = EffectModel;

    open spec fn view(&self) -> EffectModel {
        match self {
            Effect::Launch(request) => EffectModel::Launch { item_id: request.item_id@ },
            Effect::SafeReturn => EffectModel::SafeReturn,
            Effect::EnterRecovery => EffectModel::EnterRecovery,
            Effect::ChangePreference(change) => EffectModel::ChangePreference {
                key: change.key.0@,
                value: change.value@,
                authority: change.authority.0@,
            },
            Effect::ResetFirstRun => EffectModel::ResetFirstRun,
            Effect::CaptureRemap => EffectModel::CaptureRemap,
            Effect::BeginRemap { context, action, control } => EffectModel::BeginRemap {
                context: context@,
                action: action@,
                control: control@,
            },
            Effect::ConfirmRemap => EffectModel::ConfirmRemap,
            Effect::RollbackRemap => EffectModel::RollbackRemap,
            Effect::ResetRemaps => EffectModel::ResetRemaps,
            Effect::CompleteFirstRun => EffectModel::CompleteFirstRun,
            Effect::ToggleFavorite { item_id, favorite } => EffectModel::ToggleFavorite {
                item_id: item_id@,
                favorite: *favorite,
            },
            Effect::SetPinnedVariant { item_id, variant_id } => EffectModel::SetPinnedVariant {
                item_id: item_id@,
                variant_id: text_of(*variant_id),
            },
            Effect::CaptureScreenshot => EffectModel::CaptureScreenshot,
            Effect::RequestPower(action) => EffectModel::RequestPower(*action),
            Effect::SetIdlePolicy(policy) => EffectModel::SetIdlePolicy {
                sleep_after: span_of_option(policy.sleep_after),
                power_off_after: span_of_option(policy.power_off_after),
            },
            Effect::ConnectWifi { ssid, credential } => EffectModel::ConnectWifi {
                ssid: ssid@,
                credential: credential@,
            },
            Effect::SetTimezone(zone) => EffectModel::SetTimezone(zone@),
            Effect::SetNtp(active) => EffectModel::SetNtp(*active),
            Effect::RefreshManualTime => EffectModel::RefreshManualTime,
            Effect::SetManualTime(time) => EffectModel::SetManualTime(time@),
            Effect::SetTransfer { service, enabled } => EffectModel::SetTransfer {
                service: *service,
                enabled: *enabled,
            },
        }
    }
}

/// The model of an effect that may be missing.
pub open spec fn effect_of(effect: Option<Effect>) -> Option<EffectModel> {
    match effect {
        Some(effect) => Some(effect@),
        None => None,
    }
}

/// The model of what is known of the network.
pub ghost struct NetworkModel {
    pub interface_present: bool,
    pub enabled: bool,
    pub connected_ssid: Option<Text>,
    pub signal: Option<u8>,
}

/// The model of the network, or of why nothing is known of it.
pub open spec fn network_model(state: Result<NetworkState, String>) -> Result<NetworkModel, Text> {
    match state {
        Ok(state) => Ok(
            NetworkModel {
                interface_present: state.interface_present,
                enabled: state.enabled,
                connected_ssid: text_of(state.connected_ssid),
                signal: state.signal,
            },
        ),
        Err(failure) => Err(failure@),
    }
}

/// The model of a wireless network in reach.
pub ghost struct WifiModel {
    pub ssid: Text,
    pub security: WifiSecurity,
    pub strength: u8,
}

/// The model of a wireless network in reach.
pub open spec fn wifi_model(network: WifiNetwork) -> WifiModel {
    WifiModel { ssid: network.ssid@, security: network.security, strength: network.strength }
}

/// The models of the wireless networks in reach.
#[verifier::opaque]
pub open spec fn wifi_models(networks: Seq<WifiNetwork>) -> Seq<WifiModel> {
    Seq::new(networks.len(), |i: int| wifi_model(networks[i]))
}

/// A list has as many models as elements.
pub broadcast proof fn lemma_wifi_models_len(networks: Seq<WifiNetwork>)
    ensures
        #[trigger] wifi_models(networks).len() == networks.len(),
{
    reveal(wifi_models);
}

/// Each element of a list has its own model.
pub broadcast proof fn lemma_wifi_models_index(networks: Seq<WifiNetwork>, i: int)
    requires
        0 <= i < networks.len(),
    ensures
        (#[trigger] wifi_models(networks)[i]) == wifi_model(networks[i]),
{
    reveal(wifi_models);
}

/// The model of what can be done to the clock, or of why nothing is known.
pub open spec fn clock_model(capabilities: Result<TimeCapabilities, String>) -> Result<
    Support,
    Text,
> {
    match capabilities {
        Ok(capabilities) => Ok(capabilities.manual_set_time),
        Err(failure) => Err(failure@),
    }
}

/// The model of what is known of the clock.
pub ghost struct TimeModel {
    pub wall_clock: int,
    pub timezone: Text,
    pub ntp_state: NtpState,
}

/// The model of the clock, or of why nothing is known of it.
pub open spec fn time_model(state: Result<TimeState, String>) -> Result<TimeModel, Text> {
    match state {
        Ok(state) => Ok(
            TimeModel {
                wall_clock: state.wall_clock@,
                timezone: state.timezone@,
                ntp_state: state.ntp_state,
            },
        ),
        Err(failure) => Err(failure@),
    }
}

/// The model of a transfer service.
pub ghost struct TransferModel {
    pub service: TransferService,
    pub support: Support,
    pub enabled: bool,
    pub endpoint_info: Option<Text>,
}

/// The model of a transfer service.
pub open spec fn transfer_model(state: TransferServiceState) -> TransferModel {
    TransferModel {
        service: state.service,
        support: state.support,
        enabled: state.enabled,
        endpoint_info: text_of(state.endpoint_info),
    }
}

/// The models of the transfer services.
#[verifier::opaque]
pub open spec fn service_models(services: Seq<TransferServiceState>) -> Seq<TransferModel> {
    Seq::new(services.len(), |i: int| transfer_model(services[i]))
}

/// A list has as many models as elements.
pub broadcast proof fn lemma_service_models_len(services: Seq<TransferServiceState>)
    ensures
        #[trigger] service_models(services).len() == services.len(),
{
    reveal(service_models);
}

/// Each element of a list has its own model.
pub broadcast proof fn lemma_service_models_index(services: Seq<TransferServiceState>, i: int)
    requires
        0 <= i < services.len(),
    ensures
        (#[trigger] service_models(services)[i]) == transfer_model(services[i]),
{
    reveal(service_models);
}

/// The models of the transfer services, or of why nothing is known of them.
pub open spec fn transfer_models(services: Result<Vec<TransferServiceState>, String>) -> Result<
    Seq<TransferModel>,
    Text,
> {
    match services {
        Ok(services) => Ok(service_models(services@)),
        Err(failure) => Err(failure@),
    }
}

pub broadcast group group_state_models {
    lemma_binding_models_len,
    lemma_binding_models_index,
    lemma_preference_models_len,
    lemma_preference_models_index,
    lemma_wifi_models_len,
    lemma_wifi_models_index,
    lemma_service_models_len,
    lemma_service_models_index,
}

/// The model of an idle policy.
pub ghost struct IdleModel {
    pub sleep_after: Option<nat>,
    pub power_off_after: Option<nat>,
}

/// The model of an idle policy.
pub open spec fn idle_model(policy: IdlePolicy) -> IdleModel {
    IdleModel {
        sleep_after: span_of_option(policy.sleep_after),
        power_off_after: span_of_option(policy.power_off_after),
    }
}

/// How many cards stand side by side in the library, and how many chips on its
/// toolbar.
#[derive(Clone, Copy, Debug, PartialEq, Eq, Structural)]
pub struct LibraryGrid {
    pub columns: usize,
    pub toolbar_columns: usize,
}

impl LibraryGrid {
    /// The grids that a surface can have.
    pub open spec fn wf(self) -> bool {
        1 <= self.columns <= 6 && 1 <= self.toolbar_columns <= 4
    }
}

/// Where the user is, and where the shell keeps the focus of other places.
pub struct Navigation {
    pub route: Route,
    pub previous_route: Route,
    pub focus: usize,
    pub saved_focus: [usize; 7],
    pub caller_route: Route,
    pub caller_focus: usize,
    pub caller_focus_id: Option<String>,
    pub selected_item: Option<usize>,
    pub launch_focus: usize,
}

/// The titles, and what is listed of them.
pub struct Titles {
    pub items: Vec<Item>,
    pub search_query: String,
    pub search_results: Vec<usize>,
    pub library_filter: LibraryFilter,
    pub library_items: Vec<usize>,
    pub library_grid: LibraryGrid,
    pub playtime: TextMap<Playtime>,
    pub recent_use: TextMap<SystemTime>,
}

/// What the shell presents, and what it knows of sessions.
pub struct Session {
    pub presentation: Presentation,
    pub active_title: String,
    pub crash_summary: String,
    pub crash_receipt_id: String,
    pub crash_exit_detail: String,
    pub recovery_available: bool,
    pub authority_unavailable: bool,
    pub safe_return_failed: bool,
    pub session_status: Option<String>,
    pub pending_ack: bool,
    pub just_returned: bool,
}

/// The preferences that are in effect.
pub struct Comfort {
    pub motion_ms: u32,
    pub normal_motion_ms: u32,
    pub env_reduced_motion: bool,
    pub reduced_motion: bool,
    pub high_contrast: bool,
    pub reduce_flashing: bool,
    pub text_scale: u16,
    pub appearance_day: bool,
    pub display_preferences: Vec<DisplayPreference>,
    pub first_run_complete: bool,
}

/// Where the settings stand, and what they show of the controls.
pub struct SettingsRooms {
    pub settings_room: SettingsRoom,
    pub settings_in_rows: bool,
    pub settings_row_focused: bool,
    pub settings_saved_focus: [usize; 5],
    pub safe_return_binding: String,
    pub safe_return_options: Vec<String>,
    pub controls_flow: ControlsFlow,
    pub control_bindings: Vec<ControlBinding>,
    pub controls_status: Option<String>,
}

/// What is known of the power of the device.
pub struct Power {
    pub power_capabilities: Vec<PowerCapability>,
    pub applied_idle_policy: IdlePolicy,
    pub idle_policy_loaded: bool,
    pub power_status: Option<String>,
    pub power_dialog: PowerDialog,
    pub battery_percent: Option<u8>,
    pub attention_message: Option<String>,
}

/// Where the network room stands, and what it knows.
pub struct Network {
    pub network_flow: NetworkFlow,
    pub network_state: Result<NetworkState, String>,
    pub wifi_networks: Vec<WifiNetwork>,
    pub selected_wifi: Option<usize>,
    pub wifi_credential: WifiCredential,
    pub network_status: Option<String>,
}

/// Where the system room stands, and what it knows.
pub struct SystemRoom {
    pub system_flow: SystemFlow,
    pub manual_time_picker: ManualTimePicker,
    pub time_capabilities: Result<TimeCapabilities, String>,
    pub time_state: Result<TimeState, String>,
    pub transfer_services: Result<Vec<TransferServiceState>, String>,
    pub system_status: Option<String>,
}

/// The whole state of the shell.
pub struct ShellCore {
    pub revision: u64,
    pub nav: Navigation,
    pub titles: Titles,
    pub session: Session,
    pub comfort: Comfort,
    pub settings: SettingsRooms,
    pub power: Power,
    pub network: Network,
    pub system: SystemRoom,
}

/// The model of [`Navigation`].
pub ghost struct NavModel {
    pub route: Route,
    pub previous_route: Route,
    pub focus: int,
    pub saved_focus: Seq<usize>,
    pub caller_route: Route,
    pub caller_focus: int,
    pub caller_focus_id: Option<Text>,
    pub selected_item: Option<int>,
    pub launch_focus: int,
}

/// The model of [`Titles`].
pub ghost struct TitlesModel {
    pub items: Seq<ItemModel>,
    pub search_query: Text,
    pub search_results: Seq<usize>,
    pub library_filter: LibraryFilter,
    pub library_items: Seq<usize>,
    pub library_grid: LibraryGrid,
    pub playtime: Map<Text, PlaytimeModel>,
    pub recent_use: Map<Text, int>,
}

/// The model of [`Session`].
pub ghost struct SessionStateModel {
    pub presentation: Presentation,
    pub active_title: Text,
    pub crash_summary: Text,
    pub crash_receipt_id: Text,
    pub crash_exit_detail: Text,
    pub recovery_available: bool,
    pub authority_unavailable: bool,
    pub safe_return_failed: bool,
    pub session_status: Option<Text>,
    pub pending_ack: bool,
    pub just_returned: bool,
}

/// The model of [`Comfort`].
pub ghost struct ComfortModel {
    pub motion_ms: u32,
    pub normal_motion_ms: u32,
    pub env_reduced_motion: bool,
    pub reduced_motion: bool,
    pub high_contrast: bool,
    pub reduce_flashing: bool,
    pub text_scale: int,
    pub appearance_day: bool,
    pub display_preferences: Seq<PreferenceModel>,
    pub first_run_complete: bool,
}

/// The model of [`SettingsRooms`].
pub ghost struct SettingsModel {
    pub settings_room: SettingsRoom,
    pub settings_in_rows: bool,
    pub settings_row_focused: bool,
    pub settings_saved_focus: Seq<usize>,
    pub safe_return_binding: Text,
    pub safe_return_options: Seq<Text>,
    pub control_bindings: Seq<BindingModel>,
    pub controls_status: Option<Text>,
}

/// The model of [`Power`].
pub ghost struct PowerModel {
    pub power_capabilities: Seq<PowerCapability>,
    pub applied_idle_policy: IdleModel,
    pub idle_policy_loaded: bool,
    pub power_status: Option<Text>,
    pub power_dialog: PowerDialog,
    pub battery_percent: Option<u8>,
    pub attention_message: Option<Text>,
}

/// The model of [`Network`].
pub ghost struct NetworkRoomModel {
    pub network_flow: NetworkFlow,
    pub network_state: Result<NetworkModel, Text>,
    pub wifi_networks: Seq<WifiModel>,
    pub selected_wifi: Option<int>,
    pub wifi_credential: Seq<u8>,
    pub network_status: Option<Text>,
}

/// The model of [`SystemRoom`].
pub ghost struct SystemModel {
    pub system_flow: SystemFlow,
    pub manual_time_picker: ManualTimePicker,
    pub time_capabilities: Result<Support, Text>,
    pub time_state: Result<TimeModel, Text>,
    pub transfer_services: Result<Seq<TransferModel>, Text>,
    pub system_status: Option<Text>,
}

/// The mathematical model of the shell's state.
pub ghost struct ShellModel {
    pub revision: int,
    pub nav: NavModel,
    pub titles: TitlesModel,
    pub session: SessionStateModel,
    pub comfort: ComfortModel,
    pub settings: SettingsModel,
    pub power: PowerModel,
    pub network: NetworkRoomModel,
    pub system: SystemModel,
}

/// The model of a place that may be missing.
pub open spec fn place_of(place: Option<usize>) -> Option<int> {
    match place {
        Some(place) => Some(place as int),
        None => None,
    }
}

impl View for Navigation {
    type V = NavModel;

    open spec fn view(&self) -> NavModel {
        NavModel {
            route: self.route,
            previous_route: self.previous_route,
            focus: self.focus as int,
            saved_focus: self.saved_focus@,
            caller_route: self.caller_route,
            caller_focus: self.caller_focus as int,
            caller_focus_id: text_of(self.caller_focus_id),
            selected_item: place_of(self.selected_item),
            launch_focus: self.launch_focus as int,
        }
    }
}

impl View for Titles {
    type V = TitlesModel;

    open spec fn view(&self) -> TitlesModel {
        TitlesModel {
            items: item_models(self.items@),
            search_query: self.search_query@,
            search_results: self.search_results@,
            library_filter: self.library_filter,
            library_items: self.library_items@,
            library_grid: self.library_grid,
            playtime: self.playtime@,
            recent_use: self.recent_use@,
        }
    }
}

impl View for Session {
    type V = SessionStateModel;

    open spec fn view(&self) -> SessionStateModel {
        SessionStateModel {
            presentation: self.presentation,
            active_title: self.active_title@,
            crash_summary: self.crash_summary@,
            crash_receipt_id: self.crash_receipt_id@,
            crash_exit_detail: self.crash_exit_detail@,
            recovery_available: self.recovery_available,
            authority_unavailable: self.authority_unavailable,
            safe_return_failed: self.safe_return_failed,
            session_status: text_of(self.session_status),
            pending_ack: self.pending_ack,
            just_returned: self.just_returned,
        }
    }
}

impl View for Comfort {
    type V = ComfortModel;

    open spec fn view(&self) -> ComfortModel {
        ComfortModel {
            motion_ms: self.motion_ms,
            normal_motion_ms: self.normal_motion_ms,
            env_reduced_motion: self.env_reduced_motion,
            reduced_motion: self.reduced_motion,
            high_contrast: self.high_contrast,
            reduce_flashing: self.reduce_flashing,
            text_scale: self.text_scale as int,
            appearance_day: self.appearance_day,
            display_preferences: preference_models(self.display_preferences@),
            first_run_complete: self.first_run_complete,
        }
    }
}

impl View for SettingsRooms {
    type V = SettingsModel;

    open spec fn view(&self) -> SettingsModel {
        SettingsModel {
            settings_room: self.settings_room,
            settings_in_rows: self.settings_in_rows,
            settings_row_focused: self.settings_row_focused,
            settings_saved_focus: self.settings_saved_focus@,
            safe_return_binding: self.safe_return_binding@,
            safe_return_options: texts(self.safe_return_options@),
            control_bindings: binding_models(self.control_bindings@),
            controls_status: text_of(self.controls_status),
        }
    }
}

impl View for Power {
    type V = PowerModel;

    open spec fn view(&self) -> PowerModel {
        PowerModel {
            power_capabilities: self.power_capabilities@,
            applied_idle_policy: idle_model(self.applied_idle_policy),
            idle_policy_loaded: self.idle_policy_loaded,
            power_status: text_of(self.power_status),
            power_dialog: self.power_dialog,
            battery_percent: self.battery_percent,
            attention_message: text_of(self.attention_message),
        }
    }
}

impl View for Network {
    type V = NetworkRoomModel;

    open spec fn view(&self) -> NetworkRoomModel {
        NetworkRoomModel {
            network_flow: self.network_flow,
            network_state: network_model(self.network_state),
            wifi_networks: wifi_models(self.wifi_networks@),
            selected_wifi: place_of(self.selected_wifi),
            wifi_credential: self.wifi_credential@,
            network_status: text_of(self.network_status),
        }
    }
}

impl View for SystemRoom {
    type V = SystemModel;

    open spec fn view(&self) -> SystemModel {
        SystemModel {
            system_flow: self.system_flow,
            manual_time_picker: self.manual_time_picker,
            time_capabilities: clock_model(self.time_capabilities),
            time_state: time_model(self.time_state),
            transfer_services: transfer_models(self.transfer_services),
            system_status: text_of(self.system_status),
        }
    }
}

impl View for ShellCore {
    type V = ShellModel;

    open spec fn view(&self) -> ShellModel {
        ShellModel {
            revision: self.revision as int,
            nav: self.nav@,
            titles: self.titles@,
            session: self.session@,
            comfort: self.comfort@,
            settings: self.settings@,
            power: self.power@,
            network: self.network@,
            system: self.system@,
        }
    }
}

/// The greatest number of titles that the shell holds.
pub open spec fn most_items() -> int {
    usize::MAX - 64
}

/// The greatest focus that occurs.
pub open spec fn most_focus() -> int {
    usize::MAX - 32
}

/// Whether every place of a list is that of a title.
#[verifier::opaque]
pub open spec fn places_fit(places: Seq<usize>, count: int) -> bool {
    forall|i: int| 0 <= i < places.len() ==> (#[trigger] places[i]) < count
}

/// Whether no title stands on a list twice.
#[verifier::opaque]
pub open spec fn places_differ(places: Seq<usize>) -> bool {
    places.no_duplicates()
}

/// Whether every focus that is kept is one that occurs.
#[verifier::opaque]
pub open spec fn focuses_fit(kept: Seq<usize>) -> bool {
    forall|i: int| 0 <= i < kept.len() ==> (#[trigger] kept[i]) <= most_focus()
}

/// Whether no title has more variants than the shell can count.
#[verifier::opaque]
pub open spec fn variants_fit(items: Seq<ItemModel>) -> bool {
    forall|i: int| 0 <= i < items.len() ==> (#[trigger] items[i]).variants.len() <= most_items()
}

/// Whether the picker is valid.
#[verifier::opaque]
pub open spec fn picker_ok(picker: ManualTimePicker) -> bool {
    picker.valid()
}

impl ShellModel {
    /// What holds of every state: places are places of titles and occur once,
    /// focuses occur, the picker is valid and the settings show at most four
    /// preferences.
    #[verifier::opaque]
    pub open spec fn ok(self) -> bool {
        &&& self.titles.items.len() <= most_items()
        &&& variants_fit(self.titles.items)
        &&& 0 <= self.nav.focus <= most_focus()
        &&& 0 <= self.nav.caller_focus <= most_focus()
        &&& 0 <= self.nav.launch_focus <= most_focus()
        &&& self.nav.saved_focus.len() == 7
        &&& focuses_fit(self.nav.saved_focus)
        &&& self.settings.settings_saved_focus.len() == 5
        &&& focuses_fit(self.settings.settings_saved_focus)
        &&& self.titles.search_results.len() <= self.titles.items.len()
        &&& places_fit(self.titles.search_results, self.titles.items.len() as int)
        &&& places_differ(self.titles.search_results)
        &&& self.titles.library_items.len() <= self.titles.items.len()
        &&& places_fit(self.titles.library_items, self.titles.items.len() as int)
        &&& places_differ(self.titles.library_items)
        &&& self.titles.library_grid.wf()
        &&& (self.nav.selected_item matches Some(item) ==> 0 <= item < self.titles.items.len())
        &&& self.comfort.display_preferences.len() <= 4
        &&& picker_ok(self.system.manual_time_picker)
    }

    /// The state one revision on; revisions stop at the greatest one.
    pub open spec fn bumped(self) -> ShellModel {
        ShellModel {
            revision: if self.revision < u64::MAX {
                self.revision + 1
            } else {
                self.revision
            },
            ..self
        }
    }

    /// A new revision changes nothing that must hold of a state.
    pub proof fn lemma_bumped_ok(self)
        ensures
            self.bumped().ok() == self.ok(),
    {
        reveal(ShellModel::ok);
    }

    /// Whether the room of the settings has a service behind it.
    pub open spec fn room_known(self) -> bool {
        self.settings.settings_room == SettingsRoom::Network ==> self.network.network_state is Ok
    }
}

impl ShellCore {
    /// What holds of every state.
    pub open spec fn wf(self) -> bool {
        self@.ok()
    }

    /// Moves to the next revision.
    pub fn bump_revision(&mut self)
        ensures
            final(self)@ == old(self)@.bumped(),
            *final(self) == (ShellCore { revision: final(self).revision, ..*old(self) }),
            old(self).wf() ==> final(self).wf(),
    {
        self.revision = self.revision.saturating_add(1);
        proof {
            old(self)@.lemma_bumped_ok();
        }
    }
}

} // verus!
