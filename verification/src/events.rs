//! Events that stations report, and which part of the driver handles them.

use vstd::prelude::*;

use crate::ids::{CallId, ConferenceId, DeviceId, ParticipantId, SessionGeneration};
use crate::model::{
    Codec, DeviceRegistration, MediaEndpoint, MediaEndpointAddress, StationMediaCapabilities,
};

verus! {

/// Keys below the display, by what they ask for.
#[derive(Clone, Copy, Debug, PartialEq, Eq, Structural)]
pub enum SoftKey {
    Answer,
    ImmediateDivert,
    TransferToVoicemail,
    DoNotDisturb,
    Private,
    ForwardAll,
    ForwardBusy,
    ForwardNoAnswer,
    Park,
    Pickup,
    GroupPickup,
    Conference,
    MeetMe,
    ConferenceList,
    Barge,
    Join,
    Select,
    Backspace,
    Dial,
    EndCall,
    Hold,
    Resume,
    Transfer,
    DirectTransfer,
    Callback,
    Monitor,
    VideoMode,
    Intercept,
    /// A key that the driver does not act on.
    Other(u32),
}

/// Outcome that a station reports for a media request.
#[derive(Clone, Copy, Debug, PartialEq, Eq, Structural)]
pub enum MediaStatus {
    Success,
    Failed(u32),
}

#[derive(Clone, Copy, Debug, PartialEq, Eq, Structural)]
pub enum TransmitOpenOutcome {
    Acknowledged,
    Implied,
    NotReported,
    Rejected(MediaStatus),
}

/// A choice on the conference list of a handset.
#[derive(Clone, Copy, Debug, PartialEq, Eq, Structural)]
pub enum ConferenceListAction {
    Participant { conference_id: ConferenceId, participant_id: ParticipantId },
    Mute { conference_id: ConferenceId, participant_id: ParticipantId },
    Unmute { conference_id: ConferenceId, participant_id: ParticipantId },
    Remove { conference_id: ConferenceId, participant_id: ParticipantId },
    Promote { conference_id: ConferenceId, participant_id: ParticipantId },
    Demote { conference_id: ConferenceId, participant_id: ParticipantId },
    End { conference_id: ConferenceId },
}

/// The application and transaction that a service response belongs to.
#[derive(Clone, Copy, Debug, PartialEq, Eq, Structural)]
pub struct PhoneServiceRouting {
    pub application_id: u32,
    pub line_instance: u32,
    pub call_reference: u32,
    pub transaction_id: u32,
}

#[derive(Debug, PartialEq, Eq)]
pub enum PhoneServicePayload {
    Submission(String),
    Other,
}

#[derive(Debug, PartialEq, Eq)]
pub struct PhoneServiceEvent {
    pub routing: PhoneServiceRouting,
    pub payload: PhoneServicePayload,
}

/// What a station did.
#[derive(Debug, PartialEq, Eq)]
pub enum PhoneDeviceEventKind {
    Registered(DeviceRegistration),
    Disconnected,
    Capabilities { capabilities: StationMediaCapabilities },
    OffHook { call_id: CallId, line_instance: u32 },
    OnHook { call_id: CallId, line_instance: u32 },
    Digit { call_id: CallId, digit: char },
    EnblocCall { call_id: CallId, line_instance: u32, number: String },
    SpeedDial { call_id: CallId, number: String, await_further_digits: bool },
    SoftKey { key_call_id: Option<CallId>, line_instance: u32, soft_key: SoftKey },
    LineButton { key_call_id: Option<CallId>, line_instance: u32 },
    HookFlash { key_call_id: Option<CallId>, line_instance: u32 },
    FeatureButton { instance: u32 },
    DoNotDisturbButton { instance: u32 },
    RecordingButton { instance: u32 },
    MobilityButton { instance: u32 },
    VoicemailButton { call_id: CallId, line_instance: u32 },
    ParkingLotButton { instance: u32, key_call_id: Option<CallId>, line_instance: u32 },
    ParkingMenuSelection { lot: String, slot: u32 },
    PhoneServiceResponse { response: PhoneServiceEvent },
    ConferenceListAction { action: ConferenceListAction },
    ReceiveChannelOpened { call_id: CallId, status: MediaStatus, endpoint: MediaEndpoint },
    MultimediaReceiveChannelOpened {
        call_id: CallId,
        codec: Codec,
        address: MediaEndpointAddress,
        passthrough_party_id: u32,
    },
    MultimediaReceiveChannelFailed { call_id: CallId, codec: Codec, status: MediaStatus },
    MultimediaReceiveChannelTimedOut { call_id: CallId, codec: Codec },
    MultimediaTransmitStarted {
        call_id: CallId,
        codec: Codec,
        address: MediaEndpointAddress,
        passthrough_party_id: u32,
    },
    MultimediaTransmitFailed { call_id: CallId, codec: Codec, status: MediaStatus },
    MultimediaTransmitTimedOut { call_id: CallId, codec: Codec },
    TransmitChannelOpen { call_id: CallId, outcome: TransmitOpenOutcome, endpoint: MediaEndpoint },
    HandsetAcknowledgementTimedOut { call_id: CallId },
    MediaTransmissionFailed { call_id: CallId, status: MediaStatus, endpoint: MediaEndpoint },
    MulticastReceptionStarted { conference_id: ConferenceId, call_id: CallId },
    MulticastReceptionFailed { conference_id: ConferenceId, call_id: CallId, status: MediaStatus },
    MulticastReceptionTimedOut { conference_id: ConferenceId, call_id: CallId },
    MulticastTransmissionStarted { conference_id: ConferenceId, call_id: CallId },
    MulticastTransmissionFailed { conference_id: ConferenceId, call_id: CallId, status: MediaStatus },
    ConnectionStatisticsCollected { call_id: CallId },
    Alarm,
    XmlAlarm,
    LocationInformation,
    HeadsetStatusChanged,
    MediaPathChanged,
    UnhandledMessage { message_id: u32 },
}

/// An event, the station that reports it and the registration it belongs to.
#[derive(Debug, PartialEq, Eq)]
pub struct PhoneDeviceEvent {
    pub device_id: DeviceId,
    pub session_generation: SessionGeneration,
    pub event: PhoneDeviceEventKind,
}

/// The part of the driver that handles an event.
#[derive(Clone, Copy, Debug, PartialEq, Eq, Structural)]
pub enum PhoneEventFamily {
    Session,
    CallControl,
    Media,
    Telemetry,
}

/// Registration and its end.
pub open spec fn is_session_event(event: PhoneDeviceEventKind) -> bool {
    event is Registered || event is Disconnected || event is Capabilities
}

/// Media that a station opened, could not open or lost.
pub open spec fn is_media_event(event: PhoneDeviceEventKind) -> bool {
    ||| event is ReceiveChannelOpened
    ||| event is MultimediaReceiveChannelOpened
    ||| event is MultimediaReceiveChannelFailed
    ||| event is MultimediaReceiveChannelTimedOut
    ||| event is MultimediaTransmitStarted
    ||| event is MultimediaTransmitFailed
    ||| event is MultimediaTransmitTimedOut
    ||| event is TransmitChannelOpen
    ||| event is HandsetAcknowledgementTimedOut
    ||| event is MediaTransmissionFailed
    ||| event is MulticastReceptionStarted
    ||| event is MulticastReceptionFailed
    ||| event is MulticastReceptionTimedOut
    ||| event is MulticastTransmissionStarted
    ||| event is MulticastTransmissionFailed
    ||| event is ConnectionStatisticsCollected
}

/// Reports on the station itself.
pub open spec fn is_telemetry_event(event: PhoneDeviceEventKind) -> bool {
    ||| event is Alarm
    ||| event is XmlAlarm
    ||| event is LocationInformation
    ||| event is HeadsetStatusChanged
    ||| event is MediaPathChanged
    ||| event is UnhandledMessage
}

/// Keys, hooks and buttons: whatever is not one of the others.
pub open spec fn is_call_control_event(event: PhoneDeviceEventKind) -> bool {
    ||| event is OffHook
    ||| event is OnHook
    ||| event is Digit
    ||| event is EnblocCall
    ||| event is SpeedDial
    ||| event is SoftKey
    ||| event is LineButton
    ||| event is HookFlash
    ||| event is FeatureButton
    ||| event is DoNotDisturbButton
    ||| event is RecordingButton
    ||| event is MobilityButton
    ||| event is VoicemailButton
    ||| event is ParkingLotButton
    ||| event is ParkingMenuSelection
    ||| event is PhoneServiceResponse
    ||| event is ConferenceListAction
}

pub fn phone_event_family(event: &PhoneDeviceEventKind) -> (family: PhoneEventFamily)
    ensures
        family == PhoneEventFamily::Session <==> is_session_event(*event),
        family == PhoneEventFamily::CallControl <==> is_call_control_event(*event),
        family == PhoneEventFamily::Media <==> is_media_event(*event),
        family == PhoneEventFamily::Telemetry <==> is_telemetry_event(*event),
{
    match event {
        PhoneDeviceEventKind::Registered(_)
        | PhoneDeviceEventKind::Disconnected
        | PhoneDeviceEventKind::Capabilities { .. } => PhoneEventFamily::Session,
        PhoneDeviceEventKind::OffHook { .. }
        | PhoneDeviceEventKind::OnHook { .. }
        | PhoneDeviceEventKind::Digit { .. }
        | PhoneDeviceEventKind::EnblocCall { .. }
        | PhoneDeviceEventKind::SpeedDial { .. }
        | PhoneDeviceEventKind::SoftKey { .. }
        | PhoneDeviceEventKind::LineButton { .. }
        | PhoneDeviceEventKind::HookFlash { .. }
        | PhoneDeviceEventKind::FeatureButton { .. }
        | PhoneDeviceEventKind::DoNotDisturbButton { .. }
        | PhoneDeviceEventKind::RecordingButton { .. }
        | PhoneDeviceEventKind::MobilityButton { .. }
        | PhoneDeviceEventKind::VoicemailButton { .. }
        | PhoneDeviceEventKind::ParkingLotButton { .. }
        | PhoneDeviceEventKind::ParkingMenuSelection { .. }
        | PhoneDeviceEventKind::PhoneServiceResponse { .. }
        | PhoneDeviceEventKind::ConferenceListAction { .. } => PhoneEventFamily::CallControl,
        PhoneDeviceEventKind::ReceiveChannelOpened { .. }
        | PhoneDeviceEventKind::MultimediaReceiveChannelOpened { .. }
        | PhoneDeviceEventKind::MultimediaReceiveChannelFailed { .. }
        | PhoneDeviceEventKind::MultimediaReceiveChannelTimedOut { .. }
        | PhoneDeviceEventKind::MultimediaTransmitStarted { .. }
        | PhoneDeviceEventKind::MultimediaTransmitFailed { .. }
        | PhoneDeviceEventKind::MultimediaTransmitTimedOut { .. }
        | PhoneDeviceEventKind::TransmitChannelOpen { .. }
        | PhoneDeviceEventKind::HandsetAcknowledgementTimedOut { .. }
        | PhoneDeviceEventKind::MediaTransmissionFailed { .. }
        | PhoneDeviceEventKind::MulticastReceptionStarted { .. }
        | PhoneDeviceEventKind::MulticastReceptionFailed { .. }
        | PhoneDeviceEventKind::MulticastReceptionTimedOut { .. }
        | PhoneDeviceEventKind::MulticastTransmissionStarted { .. }
        | PhoneDeviceEventKind::MulticastTransmissionFailed { .. }
        | PhoneDeviceEventKind::ConnectionStatisticsCollected { .. } => PhoneEventFamily::Media,
        PhoneDeviceEventKind::Alarm
        | PhoneDeviceEventKind::XmlAlarm
        | PhoneDeviceEventKind::LocationInformation
        | PhoneDeviceEventKind::HeadsetStatusChanged
        | PhoneDeviceEventKind::MediaPathChanged
        | PhoneDeviceEventKind::UnhandledMessage { .. } => PhoneEventFamily::Telemetry,
    }
}

/// Every event belongs to exactly one family, so that none is dropped between
/// the handlers and none is handled twice.
pub proof fn law_event_families_partition(event: PhoneDeviceEventKind)
    ensures
        is_session_event(event) || is_call_control_event(event) || is_media_event(event)
            || is_telemetry_event(event),
        !(is_session_event(event) && is_call_control_event(event)),
        !(is_session_event(event) && is_media_event(event)),
        !(is_session_event(event) && is_telemetry_event(event)),
        !(is_call_control_event(event) && is_media_event(event)),
        !(is_call_control_event(event) && is_telemetry_event(event)),
        !(is_media_event(event) && is_telemetry_event(event)),
{
}

/// What a station says of its registration is for the session, what is pressed on it
/// for the calls, and what became of its streams for the media.
pub proof fn law_events_go_to_the_family_they_belong_to(
    event: PhoneDeviceEventKind,
    family: PhoneEventFamily,
)
    requires
        call_ensures(phone_event_family, (&event,), family),
    ensures
        family == PhoneEventFamily::Session <==> event is Registered || event is Disconnected
            || event is Capabilities,
        family == PhoneEventFamily::Telemetry <==> event is Alarm || event is XmlAlarm || event
            is LocationInformation || event is HeadsetStatusChanged || event is MediaPathChanged
            || event is UnhandledMessage,
        event is OffHook || event is OnHook || event is Digit || event is EnblocCall || event
            is SpeedDial || event is SoftKey || event is LineButton || event is HookFlash ==> family
            == PhoneEventFamily::CallControl,
        event is FeatureButton || event is DoNotDisturbButton || event is RecordingButton || event
            is MobilityButton || event is VoicemailButton || event is ParkingLotButton || event
            is ParkingMenuSelection || event is PhoneServiceResponse || event
            is ConferenceListAction ==> family == PhoneEventFamily::CallControl,
        event is ReceiveChannelOpened || event is TransmitChannelOpen || event
            is MediaTransmissionFailed || event is ConnectionStatisticsCollected || event
            is HandsetAcknowledgementTimedOut || event is MulticastReceptionStarted || event
            is MulticastTransmissionStarted || event is MultimediaReceiveChannelOpened || event
            is MultimediaTransmitStarted ==> family == PhoneEventFamily::Media,
        event is MultimediaReceiveChannelFailed || event is MultimediaReceiveChannelTimedOut
            || event is MultimediaTransmitFailed || event is MultimediaTransmitTimedOut || event
            is MulticastReceptionFailed || event is MulticastReceptionTimedOut || event
            is MulticastTransmissionFailed ==> family == PhoneEventFamily::Media,
{
}

} // verus!
