//! Plain values that the driver reads: configured policy, the state of
//! registered stations and of their calls.

use vstd::prelude::*;
use vstd::string::*;

use crate::ids::{CallId, ConferenceId, DeviceId, PbxCallId, SessionGeneration};
use crate::text::{self, decimal_text};

verus! {

/// Audio and video codecs that a station can name.
#[derive(Clone, Copy, Debug, PartialEq, Eq, Structural)]
pub enum Codec {
    Pcma,
    Pcmu,
    G722,
    G7231,
    G726,
    G729,
    Gsm,
    Ilbc,
    Siren7,
    Wideband256k,
    Opus,
    H261,
    H263,
    H264,
    /// A codec known only by its number.
    Other(u32),
}

impl Codec {
    /// The name of the codec.
    pub open spec fn name_spec(self) -> Seq<char> {
        match self {
            Codec::Pcma => "Pcma"@,
            Codec::Pcmu => "Pcmu"@,
            Codec::G722 => "G722"@,
            Codec::G7231 => "G7231"@,
            Codec::G726 => "G726"@,
            Codec::G729 => "G729"@,
            Codec::Gsm => "Gsm"@,
            Codec::Ilbc => "Ilbc"@,
            Codec::Siren7 => "Siren7"@,
            Codec::Wideband256k => "Wideband256k"@,
            Codec::Opus => "Opus"@,
            Codec::H261 => "H261"@,
            Codec::H263 => "H263"@,
            Codec::H264 => "H264"@,
            Codec::Other(number) => "Other("@ + text::decimal(number as nat) + ")"@,
        }
    }

    pub fn name(self) -> (name: String)
        ensures
            name@ == self.name_spec(),
    {
        match self {
            Codec::Pcma => "Pcma".to_owned(),
            Codec::Pcmu => "Pcmu".to_owned(),
            Codec::G722 => "G722".to_owned(),
            Codec::G7231 => "G7231".to_owned(),
            Codec::G726 => "G726".to_owned(),
            Codec::G729 => "G729".to_owned(),
            Codec::Gsm => "Gsm".to_owned(),
            Codec::Ilbc => "Ilbc".to_owned(),
            Codec::Siren7 => "Siren7".to_owned(),
            Codec::Wideband256k => "Wideband256k".to_owned(),
            Codec::Opus => "Opus".to_owned(),
            Codec::H261 => "H261".to_owned(),
            Codec::H263 => "H263".to_owned(),
            Codec::H264 => "H264".to_owned(),
            Codec::Other(number) => {
                let mut name = "Other(".to_owned();
                name.append(decimal_text(number as u64).as_str());
                name.append(")");
                name
            },
        }
    }
}

/// Audio formats of the switch.
#[derive(Clone, Copy, Debug, PartialEq, Eq, Structural)]
pub enum PbxAudioFormat {
    Alaw,
    Ulaw,
    G722,
    G723,
    G726,
    G729,
    Gsm,
    Ilbc,
    Siren7,
    Slin16,
    Opus,
}

#[derive(Clone, Copy, Debug, PartialEq, Eq, Structural)]
pub enum DndMode {
    Off,
    Silent,
    Reject,
}

/// Where a call stands.
#[derive(Clone, Copy, Debug, PartialEq, Eq, Structural)]
pub enum CallState {
    Collecting,
    PickupCollecting,
    Ringing,
    Calling,
    Connected,
    Parking,
    Retrieving,
    Held,
    RemoteInUse,
    SharedHeld,
    Barged,
    TransferCollecting,
    Ended,
}

#[derive(Clone, Copy, Debug, PartialEq, Eq, Structural)]
pub enum CallDirection {
    Inbound,
    Outbound,
}

#[derive(Clone, Copy, Debug, PartialEq, Eq, Structural)]
pub enum IpAddress {
    V4(u32),
    V6(u128),
}

/// Address and port without codec parameters.
#[derive(Clone, Copy, Debug, PartialEq, Eq, Structural)]
pub struct MediaEndpointAddress {
    pub address: IpAddress,
    pub port: u16,
}

/// One end of an audio stream.
#[derive(Clone, Copy, Debug, PartialEq, Eq, Structural)]
pub struct MediaEndpoint {
    pub address: IpAddress,
    pub rtp_port: u16,
    pub rtcp_port: u16,
    pub codec: Codec,
    pub packet_ms: u32,
    pub max_frames_per_packet: u32,
    pub telephone_event_payload: u8,
}

#[derive(Clone, Copy, Debug, PartialEq, Eq, Structural)]
pub enum MediaStreamState {
    Closed,
    Opening,
    Open(MediaEndpoint),
}

#[derive(Clone, Copy, Debug, PartialEq, Eq, Structural)]
pub enum VideoStreamState {
    Closed,
    Opening,
    Open { endpoint: MediaEndpointAddress },
}

/// The two directions of a video call.
#[derive(Clone, Copy, Debug, PartialEq, Eq, Structural)]
pub struct VideoMediaState {
    pub receive: VideoStreamState,
    pub transmit: VideoStreamState,
}

#[derive(Clone, Copy, Debug, PartialEq, Eq, Structural)]
pub enum DtmfMode {
    Auto,
    OutOfBand,
    Rfc2833,
}

#[derive(Clone, Copy, Debug, PartialEq, Eq, Structural)]
pub struct AudioProcessingPolicy {
    pub echo_cancellation: bool,
    pub silence_suppression: bool,
}

/// How much audio a packet carries.
#[derive(Clone, Copy, Debug, PartialEq, Eq, Structural)]
pub struct AudioFraming {
    pub packet_ms: u32,
    pub max_frames_per_packet: u32,
}

#[derive(Clone, Copy, Debug, PartialEq, Eq, Structural)]
pub enum VideoMode {
    Off,
    User,
    Auto,
}

#[derive(Clone, Copy, Debug, PartialEq, Eq, Structural)]
pub enum NatMode {
    Off,
    On,
    Auto,
    AutoOff,
    AutoOn,
}

#[derive(Clone, Copy, Debug, PartialEq, Eq, Structural)]
pub struct QosMark {
    pub dscp: u8,
    pub cos: u8,
}

#[derive(Clone, Copy, Debug, PartialEq, Eq, Structural)]
pub struct QosPolicy {
    pub signaling: QosMark,
    pub audio: QosMark,
    pub video: QosMark,
}

#[derive(Clone, Copy, Debug, PartialEq, Eq, Structural)]
pub struct NetworkPolicy {
    pub nat: NatMode,
    pub qos: QosPolicy,
}

/// Which ways of protecting audio are wanted, one bit for each.
#[derive(Clone, Copy, Debug, PartialEq, Eq, Structural)]
pub struct AudioEncryptionPolicy(pub u32);

/// Which ways of protecting audio are mastered, one bit for each.
#[derive(Clone, Copy, Debug, PartialEq, Eq, Structural)]
pub struct AudioEncryptionCapabilities(pub u32);

/// What decides how the audio of a call is protected.
#[derive(Clone, Copy, Debug, PartialEq, Eq, Structural)]
pub struct AudioEncryptionAdmission {
    pub policy: AudioEncryptionPolicy,
    pub station: AudioEncryptionCapabilities,
    pub local: AudioEncryptionCapabilities,
}

/// Media policy that applies to one line appearance.
#[derive(Debug, PartialEq, Eq)]
pub struct MediaPolicy {
    pub codecs: Vec<Codec>,
    pub dtmf_mode: DtmfMode,
    pub audio_processing: AudioProcessingPolicy,
    pub early_media: bool,
    pub direct_media: bool,
    pub video_mode: VideoMode,
    pub audio_encryption: AudioEncryptionPolicy,
}

#[derive(Clone, Copy, Debug, PartialEq, Eq, Structural)]
pub enum AppearanceRingMode {
    Normal,
    Silent,
    Disabled,
}

#[derive(Debug, PartialEq, Eq)]
pub struct LineAppearance {
    pub id: u32,
    pub label: String,
    pub ring_mode: AppearanceRingMode,
    pub privacy: bool,
    pub subscription_identity: Option<String>,
}

#[derive(Debug, PartialEq, Eq)]
pub struct LineConfig {
    pub number: String,
    pub label: String,
    pub context: String,
    pub caller_name: String,
    pub caller_number: String,
    pub mailbox: Option<String>,
    pub language: String,
    pub account_code: Option<String>,
    pub channel_variables: Vec<(String, String)>,
}

/// A line on one button of one station, with the policy that the configuration
/// resolves for it.
#[derive(Debug, PartialEq, Eq)]
pub struct LineBinding {
    pub device_id: DeviceId,
    pub line_instance: u32,
    pub appearance: LineAppearance,
    pub line: LineConfig,
    pub media: Option<MediaPolicy>,
    /// Where the line dials when it goes off hook.
    pub hotline: Option<String>,
    pub conference_dialing: Option<ConferenceDialing>,
}

/// Dialing into a conference room of the switch.
#[derive(Debug, PartialEq, Eq)]
pub struct ConferenceDialing {
    pub enabled: bool,
    pub destination: Option<String>,
    pub application_options: String,
}

/// A roaming appearance: where it was placed, and the line that it shows.
#[derive(Debug, PartialEq, Eq)]
pub struct MobilityAppearance {
    pub device_id: DeviceId,
    pub button_instance: u32,
    pub binding: LineBinding,
}

#[derive(Clone, Copy, Debug, PartialEq, Eq)]
pub struct MediaCapability {
    pub codec: Codec,
    pub max_packet_ms: u32,
    pub codec_parameters: [u8; 8],
}

#[derive(Clone, Copy, Debug, PartialEq, Eq, Structural)]
pub struct VideoCapability {
    pub codec: Codec,
}

/// What a station reported that it can send and receive.
#[derive(Debug, PartialEq, Eq)]
pub struct StationMediaCapabilities {
    pub audio: Vec<MediaCapability>,
    pub video: Vec<VideoCapability>,
}

impl Default for StationMediaCapabilities {
    fn default() -> (empty: Self)
        ensures
            empty.audio@.len() == 0,
            empty.video@.len() == 0,
    {
        StationMediaCapabilities { audio: Vec::new(), video: Vec::new() }
    }
}

impl StationMediaCapabilities {
    /// Capabilities of a station that reported audio only.
    pub fn from_audio(audio: Vec<MediaCapability>) -> (capabilities: Self)
        ensures
            capabilities.audio == audio,
            capabilities.video@.len() == 0,
    {
        StationMediaCapabilities { audio, video: Vec::new() }
    }
}

#[derive(Clone, Copy, Debug, PartialEq, Eq, Structural)]
pub enum StationTransport {
    Clear,
    Secure,
}

/// What a station said of itself when it registered.
#[derive(Debug, PartialEq, Eq)]
pub struct DeviceRegistration {
    pub id: DeviceId,
    pub device_type: u32,
    pub protocol: u32,
    /// Where the station connects from, in canonical form.
    pub peer: IpAddress,
    /// What the station reports as its own address, where that is usable with
    /// the address that it connects from.
    pub reported_address: Option<IpAddress>,
    pub firmware: String,
    pub transport: StationTransport,
}

impl Clone for DeviceRegistration {
    fn clone(&self) -> (copy: Self)
        ensures
            copy == *self,
    {
        DeviceRegistration {
            id: self.id.clone(),
            device_type: self.device_type,
            protocol: self.protocol,
            peer: self.peer,
            reported_address: self.reported_address,
            firmware: self.firmware.clone(),
            transport: self.transport,
        }
    }
}

#[derive(Debug, PartialEq, Eq)]
pub struct RegisteredDevice {
    pub id: DeviceId,
    pub session_generation: SessionGeneration,
    pub registration: DeviceRegistration,
    pub capabilities: Option<StationMediaCapabilities>,
    pub audio_encryption: AudioEncryptionCapabilities,
    pub selected_calls: Vec<CallId>,
    pub selected_line: Option<u32>,
}

/// Destinations that unanswered, busy or all calls are sent to.
#[derive(Debug, PartialEq, Eq)]
pub struct ForwardingState {
    pub all: Option<String>,
    pub busy: Option<String>,
    pub no_answer: Option<String>,
}

#[derive(Clone, Copy, Debug, PartialEq, Eq, Structural)]
pub struct FeatureButtonState {
    pub instance: u32,
    pub enabled: bool,
}

#[derive(Debug, PartialEq, Eq)]
pub struct DeviceFeatureState {
    pub dnd: DndMode,
    pub privacy: bool,
    pub forwarding: ForwardingState,
    pub buttons: Vec<FeatureButtonState>,
    /// The next call is recorded.
    pub recording_armed: bool,
}

/// Calls are forwarded alike.
pub open spec fn same_forwarding(left: ForwardingState, right: ForwardingState) -> bool {
    &&& same_destination(left.all, right.all)
    &&& same_destination(left.busy, right.busy)
    &&& same_destination(left.no_answer, right.no_answer)
}

pub open spec fn same_destination(left: Option<String>, right: Option<String>) -> bool {
    match (left, right) {
        (Some(left), Some(right)) => left@ == right@,
        (None, None) => true,
        _ => false,
    }
}

/// Two states agree in everything.
pub open spec fn same_features(left: DeviceFeatureState, right: DeviceFeatureState) -> bool {
    &&& left.dnd == right.dnd
    &&& left.privacy == right.privacy
    &&& same_forwarding(left.forwarding, right.forwarding)
    &&& left.buttons@ == right.buttons@
    &&& left.recording_armed == right.recording_armed
}

impl Clone for ForwardingState {
    fn clone(&self) -> (copy: Self)
        ensures
            copy == *self,
    {
        ForwardingState {
            all: copied_text(&self.all),
            busy: copied_text(&self.busy),
            no_answer: copied_text(&self.no_answer),
        }
    }
}

impl Clone for DeviceFeatureState {
    fn clone(&self) -> (copy: Self)
        ensures
            same_features(copy, *self),
    {
        let mut buttons: Vec<FeatureButtonState> = Vec::new();
        let mut i: usize = 0;
        while i < self.buttons.len()
            invariant
                0 <= i <= self.buttons@.len(),
                buttons@ == self.buttons@.take(i as int),
            decreases self.buttons@.len() - i,
        {
            buttons.push(self.buttons[i]);
            proof {
                assert(buttons@ =~= self.buttons@.take(i + 1));
            }
            i += 1;
        }
        proof {
            assert(self.buttons@.take(i as int) =~= self.buttons@);
        }
        DeviceFeatureState {
            dnd: self.dnd,
            privacy: self.privacy,
            forwarding: self.forwarding.clone(),
            buttons,
            recording_armed: self.recording_armed,
        }
    }
}

fn copied_text(text: &Option<String>) -> (copy: Option<String>)
    ensures
        copy == *text,
{
    match text {
        Some(text) => Some(text.clone()),
        None => None,
    }
}

#[derive(Debug, PartialEq, Eq)]
pub struct DeviceFeatures {
    pub device_id: DeviceId,
    pub state: DeviceFeatureState,
}

/// Identities attached to a call, hidden where the caller asked for it.
#[derive(Debug, PartialEq, Eq)]
pub struct CallMetadata {
    pub ani: Option<String>,
    pub ani_visible: bool,
    pub rdnis: Option<String>,
    pub rdnis_visible: bool,
    pub dnid: Option<String>,
    pub account_code: Option<String>,
    pub language: Option<String>,
    pub variables: Vec<(String, String)>,
}

/// Two sets of identities agree in everything.
pub open spec fn same_metadata(left: CallMetadata, right: CallMetadata) -> bool {
    &&& left == (CallMetadata { variables: left.variables, ..right })
    &&& left.variables@ == right.variables@
}

impl Clone for CallMetadata {
    fn clone(&self) -> (copy: Self)
        ensures
            same_metadata(copy, *self),
    {
        let mut variables: Vec<(String, String)> = Vec::new();
        let mut i: usize = 0;
        while i < self.variables.len()
            invariant
                0 <= i <= self.variables@.len(),
                variables@ == self.variables@.take(i as int),
            decreases self.variables@.len() - i,
        {
            variables.push((self.variables[i].0.clone(), self.variables[i].1.clone()));
            proof {
                assert(variables@ =~= self.variables@.take(i + 1));
            }
            i += 1;
        }
        proof {
            assert(self.variables@.take(i as int) =~= self.variables@);
        }
        CallMetadata {
            ani: copied_text(&self.ani),
            ani_visible: self.ani_visible,
            rdnis: copied_text(&self.rdnis),
            rdnis_visible: self.rdnis_visible,
            dnid: copied_text(&self.dnid),
            account_code: copied_text(&self.account_code),
            language: copied_text(&self.language),
            variables,
        }
    }
}

/// A call of the switch.
#[derive(Debug, PartialEq, Eq)]
pub struct PbxCall {
    pub pbx_id: PbxCallId,
    pub line: String,
    pub context: String,
    pub state: CallState,
    pub direction: CallDirection,
    pub digits: String,
    pub privacy: bool,
    pub metadata: CallMetadata,
    pub active_call_id: Option<CallId>,
    /// The conference that the call takes part in.
    pub conference_id: Option<ConferenceId>,
    /// Another station has barged into the call.
    pub barged: bool,
}

/// A call as one station shows it.
#[derive(Debug, PartialEq, Eq)]
pub struct CallAppearance {
    pub sccp_id: CallId,
    pub pbx_id: PbxCallId,
    pub device_id: DeviceId,
    pub line_instance: u32,
    pub state: CallState,
    pub privacy: bool,
    pub party_restrictions: u32,
    pub codec: Codec,
    pub audio: MediaStreamState,
    pub audio_transmit: MediaStreamState,
    pub video: VideoMediaState,
}

/// Per-call values that outlive a single event.
#[derive(Debug, PartialEq, Eq)]
pub struct CallRuntimeRecord {
    pub pbx_id: PbxCallId,
    pub assigned_channel_id: Option<String>,
    pub audio_packet_ms: Option<u32>,
    pub audio_preferences: Option<Vec<PbxAudioFormat>>,
    /// How the audio of the call is protected, once that was settled.
    pub audio_encryption: Option<AudioEncryptionAdmission>,
}

/// A digit collection that will become a forwarding destination.
#[derive(Debug, PartialEq, Eq)]
pub struct ForwardingEntryKey {
    pub device_id: DeviceId,
    pub call_id: CallId,
}

/// The stations and calls at one instant.
#[derive(Debug, PartialEq, Eq)]
pub struct ControllerSnapshot {
    pub registered: Vec<RegisteredDevice>,
    pub features: Vec<DeviceFeatures>,
    pub calls: Vec<PbxCall>,
    pub appearances: Vec<CallAppearance>,
    pub runtime: Vec<CallRuntimeRecord>,
    pub mobility: Vec<MobilityAppearance>,
    pub forwarding_entries: Vec<ForwardingEntryKey>,
}

impl ControllerSnapshot {
    /// No two calls have the same number, on the switch or on handsets, and a
    /// roaming appearance shows a line of the station on which it was placed.
    pub open spec fn wf(self) -> bool {
        &&& forall|i: int, j: int|
            0 <= i < j < self.calls@.len() ==> (#[trigger] self.calls@[i]).pbx_id != (
            #[trigger] self.calls@[j]).pbx_id
        &&& forall|i: int, j: int|
            0 <= i < j < self.appearances@.len() ==> (#[trigger] self.appearances@[i]).sccp_id != (
            #[trigger] self.appearances@[j]).sccp_id
        &&& forall|i: int|
            0 <= i < self.mobility@.len() ==> (#[trigger] self.mobility@[i]).device_id@
                == self.mobility@[i].binding.device_id@
    }
}

} // verus!
