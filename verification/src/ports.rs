//! Plain values that pass between the shell and the services around it. A
//! service that failed is told of by the text of its failure.

use crate::clock::{Duration, SystemTime};
use crate::text::{copy_text, text_of, Text};
use vstd::prelude::*;

verus! {

/// A direction on the control pad.
#[derive(Clone, Copy, Debug, PartialEq, Eq, Structural)]
pub enum AxisMove {
    Up,
    Down,
    Left,
    Right,
}

/// What the user asks of the shell.
#[derive(Clone, Debug, PartialEq, Eq)]
pub enum ShellAction {
    Move(AxisMove),
    Activate,
    Back,
    Custom(String),
}

/// The model of an input.
pub ghost enum ActionModel {
    Move(AxisMove),
    Activate,
    Back,
    Custom(Text),
}

impl View for ShellAction {
    type V = ActionModel;

    open spec fn view(&self) -> ActionModel {
        match self {
            ShellAction::Move(axis) => ActionModel::Move(*axis),
            ShellAction::Activate => ActionModel::Activate,
            ShellAction::Back => ActionModel::Back,
            ShellAction::Custom(name) => ActionModel::Custom(name@),
        }
    }
}

/// The palette that a scene is painted with.
#[derive(Clone, Copy, Debug, PartialEq, Eq, Structural)]
pub enum Base {
    HighContrast,
    Day,
    Dusk,
}

/// How long the launch motion lasts, as a rule and with reduced motion.
#[derive(Clone, Copy, Debug, PartialEq, Eq, Structural)]
pub struct LaunchMotion {
    pub normal_ms: u32,
    pub reduced_ms: u32,
}

/// The value of a preference.
#[derive(Clone, Debug, PartialEq, Eq)]
pub enum PreferenceValue {
    Bool(bool),
    Text(String),
    Integer(i64),
}

/// The model of a preference's value.
pub ghost enum ValueModel {
    Bool(bool),
    Text(Text),
    Integer(int),
}

impl View for PreferenceValue {
    type V = ValueModel;

    open spec fn view(&self) -> ValueModel {
        match self {
            PreferenceValue::Bool(value) => ValueModel::Bool(*value),
            PreferenceValue::Text(value) => ValueModel::Text(value@),
            PreferenceValue::Integer(value) => ValueModel::Integer(*value as int),
        }
    }
}

impl PreferenceValue {
    /// A copy with the same model.
    pub fn copy(&self) -> (copy: PreferenceValue)
        ensures
            copy@ == self@,
    {
        match self {
            PreferenceValue::Bool(value) => PreferenceValue::Bool(*value),
            PreferenceValue::Text(value) => PreferenceValue::Text(value.clone()),
            PreferenceValue::Integer(value) => PreferenceValue::Integer(*value),
        }
    }
}

/// The name of a preference.
#[derive(Clone, Debug, PartialEq, Eq)]
pub struct PreferenceKey(pub String);

/// On whose behalf a preference changes.
#[derive(Clone, Debug, PartialEq, Eq)]
pub struct ChangeAuthority(pub String);

/// A wish to change a preference.
#[derive(Clone, Debug, PartialEq, Eq)]
pub struct PreferenceChange {
    pub key: PreferenceKey,
    pub value: PreferenceValue,
    pub authority: ChangeAuthority,
}

/// A preference as the service reports it: what is stored, what is in effect
/// and whether the one was applied as the other.
#[derive(Clone, Debug, PartialEq, Eq)]
pub struct EffectivePreference {
    pub key: PreferenceKey,
    pub effective: PreferenceValue,
    pub stored: PreferenceValue,
    pub applied: bool,
}

/// The model of a reported preference.
pub ghost struct ReportModel {
    pub key: Text,
    pub effective: ValueModel,
    pub applied: bool,
}

impl View for EffectivePreference {
    type V = ReportModel;

    open spec fn view(&self) -> ReportModel {
        ReportModel { key: self.key.0@, effective: self.effective@, applied: self.applied }
    }
}

/// The model of a report that may be missing.
pub open spec fn report_of(report: Option<EffectivePreference>) -> Option<ReportModel> {
    match report {
        Some(report) => Some(report@),
        None => None,
    }
}

/// What the preference service answered when it was asked for a change.
#[derive(Clone, Debug, PartialEq, Eq)]
pub enum PreferencePoll {
    Changed(EffectivePreference),
    Idle,
}

/// What was read of the five preferences that the shell follows, in the order
/// in which they are read.
#[derive(Debug)]
pub struct PreferenceReads {
    pub text_scale: Result<Option<EffectivePreference>, String>,
    pub high_contrast: Result<Option<EffectivePreference>, String>,
    pub reduce_motion: Result<Option<EffectivePreference>, String>,
    pub reduce_flashing: Result<Option<EffectivePreference>, String>,
    pub appearance: Result<Option<EffectivePreference>, String>,
}

/// Something that the device can do to its own power.
#[derive(Clone, Copy, Debug, PartialEq, Eq, Structural)]
pub enum PowerAction {
    PowerOff,
    Restart,
    Sleep,
}

/// Whether the device supports something.
#[derive(Clone, Copy, Debug, PartialEq, Eq, Structural)]
pub enum Support {
    Supported,
    Unsupported,
}

/// Whether the device supports a power action.
#[derive(Clone, Copy, Debug, PartialEq, Eq, Structural)]
pub struct PowerCapability {
    pub action: PowerAction,
    pub support: Support,
}

/// What the device does when it is left alone.
#[derive(Clone, Copy, Debug, PartialEq, Eq, Structural)]
pub struct IdlePolicy {
    pub sleep_after: Option<Duration>,
    pub power_off_after: Option<Duration>,
}

/// An idle policy as it was asked for and as it took effect.
#[derive(Clone, Copy, Debug, PartialEq, Eq, Structural)]
pub struct AppliedIdlePolicy {
    pub requested: IdlePolicy,
    pub applied: IdlePolicy,
}

/// What became of a power request.
#[derive(Clone, Debug, PartialEq, Eq)]
pub enum PowerRequestResult {
    Accepted,
    Unsupported,
    Refused { reason: String },
}

/// What is known of the network.
#[derive(Clone, Debug, PartialEq, Eq)]
pub struct NetworkState {
    pub interface_present: bool,
    pub enabled: bool,
    pub connected_ssid: Option<String>,
    pub signal: Option<u8>,
}

/// How a wireless network is protected.
#[derive(Clone, Copy, Debug, PartialEq, Eq, Structural)]
pub enum WifiSecurity {
    Open,
    Personal,
    Enterprise,
    Unknown,
}

/// A wireless network in reach.
#[derive(Clone, Debug, PartialEq, Eq)]
pub struct WifiNetwork {
    pub ssid: String,
    pub security: WifiSecurity,
    pub strength: u8,
}

/// The secret for a wireless network. It is not printable.
#[derive(Clone, PartialEq, Eq)]
pub struct WifiCredential {
    secret: Vec<u8>,
}

impl View for WifiCredential {
    type V = Seq<u8>;

    closed spec fn view(&self) -> Seq<u8> {
        self.secret@
    }
}

impl WifiCredential {
    /// Keeps a secret.
    pub fn new(secret: Vec<u8>) -> (credential: WifiCredential)
        ensures
            credential@ == secret@,
    {
        WifiCredential { secret }
    }

    /// The secret itself.
    pub fn expose_secret(&self) -> (secret: &Vec<u8>)
        ensures
            secret@ == self@,
    {
        &self.secret
    }
}

/// What became of joining a network. Progress is told by its name.
#[derive(Clone, Debug, PartialEq, Eq)]
pub enum ConnectResult {
    Progress(String),
    Connected { ssid: String },
    Refused,
    NetworkNotFound,
}

/// Whether the clock is set over the network.
#[derive(Clone, Copy, Debug, PartialEq, Eq, Structural)]
pub enum NtpState {
    Active,
    Inactive,
    Unsupported,
}

/// What is known of the clock.
#[derive(Clone, Debug, PartialEq, Eq)]
pub struct TimeState {
    pub wall_clock: SystemTime,
    pub timezone: String,
    pub ntp_state: NtpState,
}

/// What can be done to the clock.
#[derive(Clone, Copy, Debug, PartialEq, Eq, Structural)]
pub struct TimeCapabilities {
    pub manual_set_time: Support,
}

/// A way to move files to and from the device.
#[derive(Clone, Copy, Debug, PartialEq, Eq, Structural)]
pub enum TransferService {
    Sftp,
    UsbMassStorage,
}

/// What is known of a transfer service.
#[derive(Clone, Debug, PartialEq, Eq)]
pub struct TransferServiceState {
    pub service: TransferService,
    pub support: Support,
    pub enabled: bool,
    pub endpoint_info: Option<String>,
}

impl TransferServiceState {
    /// A copy with the same fields.
    pub fn copy(&self) -> (copy: TransferServiceState)
        ensures
            copy.service == self.service,
            copy.support == self.support,
            copy.enabled == self.enabled,
            text_of(copy.endpoint_info) == text_of(self.endpoint_info),
    {
        TransferServiceState {
            service: self.service,
            support: self.support,
            enabled: self.enabled,
            endpoint_info: copy_text(&self.endpoint_info),
        }
    }
}

/// A value as it was asked for and as it took effect.
#[derive(Clone, Copy, Debug, PartialEq, Eq)]
pub struct AppliedValue<T> {
    pub requested: T,
    pub applied: T,
}

/// A transfer service as it was asked for and as it took effect.
#[derive(Clone, Debug, PartialEq, Eq)]
pub struct AppliedTransferState {
    pub requested: bool,
    pub applied: TransferServiceState,
    pub warning: Option<String>,
}

/// A wish to launch an app.
#[derive(Clone, Debug, PartialEq, Eq)]
pub struct LaunchRequest {
    pub item_id: String,
}

/// What became of a launch.
#[derive(Clone, Copy, Debug, PartialEq, Eq, Structural)]
pub enum LaunchResult {
    Accepted,
    RejectedBusy,
    Failed,
}

/// What is seen of a session while it lasts.
#[derive(Clone, Copy, Debug, PartialEq, Eq, Structural)]
pub enum ObservedSessionState {
    Starting,
    Running,
    Suspended,
    ObservationComplete,
}

/// How a session ended.
#[derive(Clone, Debug, PartialEq, Eq)]
pub enum TerminalReceipt {
    Returned { session_id: String },
    ForcedClose { session_id: String },
    Crash { session_id: String, summary: String },
}

/// What the session service tells.
#[derive(Clone, Debug, PartialEq, Eq)]
pub enum SessionEvent {
    Observed(ObservedSessionState),
    Terminal(TerminalReceipt),
    RecoveryRequired { session_id: String, reason: String },
}

/// The model of a session event.
pub ghost enum EventModel {
    Observed(ObservedSessionState),
    Returned,
    ForcedClose,
    Crash { session_id: Text, summary: Text },
    RecoveryRequired,
}

impl View for SessionEvent {
    type V = EventModel;

    open spec fn view(&self) -> EventModel {
        match self {
            SessionEvent::Observed(state) => EventModel::Observed(*state),
            SessionEvent::Terminal(TerminalReceipt::Returned { .. }) => EventModel::Returned,
            SessionEvent::Terminal(TerminalReceipt::ForcedClose { .. }) => EventModel::ForcedClose,
            SessionEvent::Terminal(TerminalReceipt::Crash {
                session_id,
                summary,
            }) => EventModel::Crash { session_id: session_id@, summary: summary@ },
            SessionEvent::RecoveryRequired { .. } => EventModel::RecoveryRequired,
        }
    }
}

/// What the session service answered when it was asked for an event.
#[derive(Clone, Debug, PartialEq, Eq)]
pub enum SessionPoll {
    Event(SessionEvent),
    Idle,
}

/// What the device tells of its battery, and a warning where it has one.
#[derive(Clone, Debug, PartialEq, Eq)]
pub struct DeviceStatus {
    pub battery_percent: u8,
    pub attention_message: Option<String>,
}

/// Where the shell learns the status of the device.
pub trait DeviceStatusPort {
    fn status(&self) -> Result<DeviceStatus, String>;
}

} // verus!
