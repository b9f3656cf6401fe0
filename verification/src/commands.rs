//! Commands that are sent to a handset.

use vstd::prelude::*;

use crate::effects::{CallInfo, ConferenceListEntry, PhoneCallState, Tone};
use crate::ids::{CallId, ConferenceId, DeviceId};
use crate::model::{
    AudioProcessingPolicy, Codec, DndMode, DtmfMode, MediaEndpoint, MediaEndpointAddress,
};
use crate::prompts::Prompt;

verus! {

/// The six-bit codepoint that marks packets of a stream.
#[derive(Clone, Copy, Debug, PartialEq, Eq, Structural)]
pub struct MediaTrafficClass {
    pub dscp: u8,
}

/// Codepoints have six bits.
pub const DSCP_LIMIT: u8 = 64;

impl MediaTrafficClass {
    /// The class for a codepoint; `None` where the number is no codepoint.
    pub open spec fn of(dscp: u8) -> Option<MediaTrafficClass> {
        if dscp < DSCP_LIMIT {
            Some(MediaTrafficClass { dscp })
        } else {
            None
        }
    }

    pub fn from_dscp(dscp: u8) -> (class: Option<MediaTrafficClass>)
        ensures
            class == MediaTrafficClass::of(dscp),
    {
        if dscp < DSCP_LIMIT {
            Some(MediaTrafficClass { dscp })
        } else {
            None
        }
    }
}

#[derive(Clone, Copy, Debug, PartialEq, Eq, Structural)]
pub enum IpAddressType {
    Ipv4,
    Ipv6,
    Ipv4AndIpv6,
    Invalid,
    /// A number that stands for none of these.
    Unknown(u32),
}

/// Parameters under which a handset opens its video receiver.
#[derive(Clone, Copy, Debug, PartialEq, Eq, Structural)]
pub struct MultimediaReceiveDescriptor {
    pub conference_id: ConferenceId,
    pub payload: u32,
    pub conference_creator: bool,
    pub stream_passthrough_id: u32,
    pub associated_stream_id: u32,
    pub source: MediaEndpointAddress,
    pub requested_address_type: IpAddressType,
}

/// Parameters under which a handset starts its video transmitter.
#[derive(Clone, Copy, Debug, PartialEq, Eq, Structural)]
pub struct MultimediaTransmitDescriptor {
    pub conference_id: ConferenceId,
    pub endpoint: MediaEndpointAddress,
    pub payload: u32,
    pub traffic_class: MediaTrafficClass,
    pub stream_passthrough_id: u32,
    pub associated_stream_id: u32,
}

/// How a do-not-disturb key reacts.
#[derive(Clone, Copy, Debug, PartialEq, Eq, Structural)]
pub enum PhoneDndButtonMode {
    Cycle,
    Silent,
    Reject,
}

#[derive(Clone, Copy, Debug, PartialEq, Eq, Structural)]
pub enum PhoneDndMode {
    Off,
    Silent,
    Reject,
}

/// The status line of a handset.
#[derive(Clone, Copy, Debug, PartialEq, Eq, Structural)]
pub enum HandsetStatusMessage {
    /// What the do-not-disturb mode calls for.
    DoNotDisturb(DndMode),
    /// A notice that disappears after some seconds.
    Notice { prompt: Prompt, timeout_seconds: u32 },
}

/// One parked call in a menu.
#[derive(Debug, PartialEq, Eq)]
pub struct ParkingMenuEntry {
    pub slot: u32,
    pub caller_name: String,
    pub caller_number: String,
    pub connected_name: String,
    pub connected_number: String,
}

/// What a handset opens a receiver for.
#[derive(Clone, Copy, Debug, PartialEq, Eq, Structural)]
pub enum ReceiveChannelPurpose {
    /// The media of a call.
    Media,
}

/// What a handset is told.
#[derive(Debug, PartialEq, Eq)]
pub enum PhoneCommandAction {
    BeginCall { line_instance: u32, call_id: CallId, codec: Codec },
    BeginTransfer {
        source_call_id: CallId,
        consultation_line_instance: u32,
        consultation_call_id: CallId,
        codec: Codec,
    },
    StartTone { call_id: CallId, tone: Tone },
    CommitOutboundCall { call_id: CallId, info: CallInfo },
    PresentOutboundProceeding { call_id: CallId, info: CallInfo },
    PresentOutboundRinging { call_id: CallId, info: CallInfo },
    SetCallInfo { call_id: CallId, info: CallInfo },
    SetCallState { call_id: CallId, state: PhoneCallState },
    SetCallSelected { call_id: CallId, selected: bool },
    StartRinging { call_id: CallId },
    StopRinging { call_id: CallId },
    CloseCall { call_id: CallId },
    OpenReceiveChannel {
        call_id: CallId,
        purpose: ReceiveChannelPurpose,
        source: MediaEndpointAddress,
        codec: Codec,
        packet_ms: u32,
        max_frames_per_packet: u32,
        dtmf_mode: DtmfMode,
        audio_processing: AudioProcessingPolicy,
    },
    CloseReceiveChannel { call_id: CallId },
    StartMedia {
        call_id: CallId,
        endpoint: MediaEndpoint,
        dtmf_mode: DtmfMode,
        audio_processing: AudioProcessingPolicy,
        traffic_class: MediaTrafficClass,
    },
    StopMedia { call_id: CallId },
    OpenMultimediaReceiveChannel { call_id: CallId, receive: MultimediaReceiveDescriptor },
    StartMultimediaTransmission { call_id: CallId, transmit: MultimediaTransmitDescriptor },
    FastPictureUpdate { call_id: CallId, passthrough_party_id: u32, first_gob: u32, gob_count: u32 },
    CloseMultimediaReceiveChannel { call_id: CallId },
    StopMultimediaTransmission { call_id: CallId },
    SetMicrophoneMode { enabled: bool },
    DisplayPrompt { call_id: CallId, timeout_seconds: u32, prompt: Prompt },
    DisplayText { call_id: CallId, timeout_seconds: u32, text: String },
    ShowConferenceList {
        call_id: CallId,
        conference_id: ConferenceId,
        participants: Vec<ConferenceListEntry>,
    },
    ShowConferenceParticipantActions {
        call_id: CallId,
        conference_id: ConferenceId,
        participant: ConferenceListEntry,
        removable: bool,
        demotable: bool,
    },
    ShowParkingMenu {
        instance: u32,
        transaction_id: u32,
        lot: String,
        calls: Vec<ParkingMenuEntry>,
    },
    SetForwardStatus {
        line_instance: u32,
        forward_all: Option<String>,
        forward_busy: Option<String>,
        forward_no_answer: Option<String>,
    },
    SetStatusMessage { message: HandsetStatusMessage, beep: bool },
    SetDoNotDisturbStatus { instance: u32, mode: PhoneDndMode, button_mode: PhoneDndButtonMode },
    SetFeatureStatus { instance: u32, enabled: bool },
    /// Shows this appearance behind a roaming button, or none.
    SetMobilityAppearance { mobility_instance: u32, appearance_id: Option<u32> },
    SetBackgroundImage { transaction_id: u32, image_url: String, thumbnail_url: String },
    DisplayBackgroundImage { transaction_id: u32, image_url: String },
}

/// A command and the station that it is for.
#[derive(Debug, PartialEq, Eq)]
pub struct PhoneCommand {
    pub device_id: DeviceId,
    pub action: PhoneCommandAction,
}

impl PhoneCommand {
    pub fn new(device_id: DeviceId, action: PhoneCommandAction) -> (command: PhoneCommand)
        ensures
            command == (PhoneCommand { device_id, action }),
    {
        PhoneCommand { device_id, action }
    }
}

/// The command that shows `prompt` on `call_id` for some seconds.
pub open spec fn prompt_command(
    device_id: DeviceId,
    call_id: CallId,
    timeout_seconds: u32,
    prompt: Prompt,
) -> PhoneCommand {
    PhoneCommand {
        device_id,
        action: PhoneCommandAction::DisplayPrompt { call_id, timeout_seconds, prompt },
    }
}

/// Shows `prompt` on `call_id`; with zero seconds it stays.
pub fn show_prompt(
    device_id: DeviceId,
    call_id: CallId,
    timeout_seconds: u32,
    prompt: Prompt,
) -> (command: PhoneCommand)
    ensures
        command == prompt_command(device_id, call_id, timeout_seconds, prompt),
{
    PhoneCommand::new(
        device_id,
        PhoneCommandAction::DisplayPrompt { call_id, timeout_seconds, prompt },
    )
}

/// The command that ends `call_id` on the handset.
pub open spec fn close_command(device_id: DeviceId, call_id: CallId) -> PhoneCommand {
    PhoneCommand { device_id, action: PhoneCommandAction::CloseCall { call_id } }
}

/// Ends `call_id` on the handset.
pub fn close_call(device_id: DeviceId, call_id: CallId) -> (command: PhoneCommand)
    ensures
        command == close_command(device_id, call_id),
{
    PhoneCommand::new(device_id, PhoneCommandAction::CloseCall { call_id })
}

/// A class of traffic is one of the codepoints, which have six bits, and is that
/// codepoint.
pub proof fn law_traffic_classes_are_codepoints(dscp: u8, class: Option<MediaTrafficClass>)
    requires
        call_ensures(MediaTrafficClass::from_dscp, (dscp,), class),
    ensures
        class is Some <==> dscp < 64,
        class matches Some(made) ==> made.dscp == dscp,
{
}

/// A command about a call goes to the station it is for and names that call.
pub proof fn law_commands_name_their_call(
    device_id: DeviceId,
    call_id: CallId,
    timeout_seconds: u32,
    prompt: Prompt,
    shown: PhoneCommand,
    closed: PhoneCommand,
)
    requires
        call_ensures(show_prompt, (device_id, call_id, timeout_seconds, prompt), shown),
        call_ensures(close_call, (device_id, call_id), closed),
    ensures
        shown.device_id == device_id && closed.device_id == device_id,
        shown.action == (PhoneCommandAction::DisplayPrompt { call_id, timeout_seconds, prompt }),
        closed.action == (PhoneCommandAction::CloseCall { call_id }),
{
}

} // verus!
