//! Work that the driver asks of the switch and of a handset.

use vstd::prelude::*;

use crate::ids::{
    CallId, ConferenceId, DeviceId, ParticipantId, PbxBridgeId, PbxCallId, SessionGeneration,
};
use crate::model::{CallDirection, Codec, MediaEndpoint};

verus! {

/// Reservation of one conference change; the change is void once the
/// reservation is no longer active.
#[derive(Clone, Copy, Debug, PartialEq, Eq, Structural)]
pub struct ConferenceMutationToken(pub u64);

#[derive(Clone, Copy, Debug, PartialEq, Eq, Structural)]
pub struct TransactionId(pub u64);

/// What a handset shows of a call.
#[derive(Clone, Copy, Debug, PartialEq, Eq, Structural)]
pub enum PhoneCallState {
    OffHook,
    OnHook,
    RingOut,
    RingIn,
    Connected,
    Busy,
    Congestion,
    Hold,
    Proceed,
    InvalidNumber,
    IntercomOneWay,
}

#[derive(Clone, Copy, Debug, PartialEq, Eq, Structural)]
pub enum Tone {
    BeepBonk,
    Numbered(u32),
}

/// Names and numbers shown for a call.
#[derive(Debug, PartialEq, Eq)]
pub struct CallInfo {
    pub direction: CallDirection,
    pub calling_name: String,
    pub calling_number: String,
    pub called_name: String,
    pub called_number: String,
    pub party_restrictions: u32,
}

impl Clone for CallInfo {
    fn clone(&self) -> (copy: Self)
        ensures
            copy == *self,
    {
        CallInfo {
            direction: self.direction,
            calling_name: self.calling_name.clone(),
            calling_number: self.calling_number.clone(),
            called_name: self.called_name.clone(),
            called_number: self.called_number.clone(),
            party_restrictions: self.party_restrictions,
        }
    }
}

/// One row of a conference list on a handset.
#[derive(Debug, PartialEq, Eq)]
pub struct ConferenceListEntry {
    pub participant_id: ParticipantId,
    pub label: String,
    pub moderator: bool,
    pub muted: bool,
}

/// A change of a mixing bridge.
#[derive(Debug, PartialEq, Eq)]
pub enum BridgeOperation {
    Create { bridge_id: PbxBridgeId },
    Destroy { bridge_id: PbxBridgeId },
    AddParticipant { bridge_id: PbxBridgeId, call_id: PbxCallId },
    RemoveParticipant { bridge_id: PbxBridgeId, call_id: PbxCallId },
    MergeConsultation {
        bridge_id: PbxBridgeId,
        original_call_id: PbxCallId,
        consultation_call_id: PbxCallId,
    },
    MergeCalls { bridge_id: PbxBridgeId, call_ids: Vec<PbxCallId> },
    MergeParticipant {
        bridge_id: PbxBridgeId,
        participant_id: ParticipantId,
        call_id: PbxCallId,
    },
    SetParticipantMuted {
        bridge_id: PbxBridgeId,
        participant_id: ParticipantId,
        call_id: PbxCallId,
        muted: bool,
    },
    SetParticipantMusicOnHold {
        bridge_id: PbxBridgeId,
        participant_id: ParticipantId,
        call_id: PbxCallId,
        class: String,
        enabled: bool,
    },
    RemoveConferenceParticipant {
        bridge_id: PbxBridgeId,
        participant_id: ParticipantId,
        call_id: PbxCallId,
    },
}

/// Joining a shared call that another station holds.
#[derive(Clone, Copy, Debug, PartialEq, Eq, Structural)]
pub enum BargeOperation {
    Join { bridge_id: PbxBridgeId, target_call_id: PbxCallId, barger_call_id: PbxCallId },
    Leave { bridge_id: PbxBridgeId, barger_call_id: PbxCallId, last_participant: bool },
}

/// Both numbers of one leg of a transfer.
#[derive(Clone, Copy, Debug, PartialEq, Eq, Structural)]
pub struct TransferLeg {
    pub handset_call_id: CallId,
    pub pbx_call_id: PbxCallId,
}

#[derive(Clone, Copy, Debug, PartialEq, Eq, Structural)]
pub enum TransferCompletionKind {
    Attended,
    Blind,
    Direct,
}

/// Two legs that the switch is asked to connect.
#[derive(Debug, PartialEq, Eq)]
pub struct TransferCompletion {
    pub device_id: DeviceId,
    pub transaction_id: TransactionId,
    pub kind: TransferCompletionKind,
    pub source: TransferLeg,
    pub consultation: TransferLeg,
}

/// Work for the switch.
#[derive(Debug, PartialEq, Eq)]
pub enum PbxEffect {
    CreateChannel { handset_call_id: CallId, call_id: PbxCallId },
    CreateConsultationChannel {
        source_call_id: PbxCallId,
        handset_call_id: CallId,
        call_id: PbxCallId,
    },
    StartRouting { call_id: PbxCallId, context: String, destination: String },
    Answer { call_id: PbxCallId },
    Hangup { call_id: PbxCallId },
    SendDigit { call_id: PbxCallId, digit: char },
    Hold { call_id: PbxCallId },
    Resume { call_id: PbxCallId },
    Transfer { completion: TransferCompletion },
    Bridge { operation: BridgeOperation },
    Barge { barge: BargeOperation },
    Voicemail { call_id: PbxCallId },
    StartConferenceDestination { mutation: ConferenceMutationToken, call_id: PbxCallId },
}

/// Work for a handset.
#[derive(Debug, PartialEq, Eq)]
pub enum HandsetEffect {
    BeginCall { device_id: DeviceId, line_instance: u32, call_id: CallId, codec: Codec },
    BeginTransfer {
        device_id: DeviceId,
        source_call_id: CallId,
        consultation_call_id: CallId,
        consultation_line_instance: u32,
        codec: Codec,
    },
    StartTone { device_id: DeviceId, call_id: CallId, tone: Tone },
    CommitOutboundCall { device_id: DeviceId, call_id: CallId, info: CallInfo },
    PresentOutboundProceeding { device_id: DeviceId, call_id: CallId, info: CallInfo },
    PresentOutboundRinging { device_id: DeviceId, call_id: CallId, info: CallInfo },
    SetCallInfo { device_id: DeviceId, call_id: CallId, info: CallInfo },
    BeginMedia { device_id: DeviceId, call_id: CallId, codec: Codec },
    BeginAnswerMedia { device_id: DeviceId, call_id: CallId, codec: Codec },
    BeginOutboundMedia { device_id: DeviceId, call_id: CallId, codec: Codec },
    BeginOneWayMedia { device_id: DeviceId, call_id: CallId, codec: Codec },
    BeginEarlyMedia { device_id: DeviceId, call_id: CallId, codec: Codec },
    OpenVideoReceive {
        device_id: DeviceId,
        call_id: CallId,
        session_generation: SessionGeneration,
    },
    StartVideoTransmit {
        device_id: DeviceId,
        call_id: CallId,
        session_generation: SessionGeneration,
    },
    RefreshVideo {
        device_id: DeviceId,
        call_id: CallId,
        session_generation: SessionGeneration,
        passthrough_party_id: u32,
    },
    StopVideo { device_id: DeviceId, call_id: CallId, session_generation: SessionGeneration },
    StartMedia { device_id: DeviceId, call_id: CallId, endpoint: MediaEndpoint },
    PickupCompleted { device_id: DeviceId, call_id: CallId, codec: Codec, answer: bool },
    ShowConferenceList {
        device_id: DeviceId,
        call_id: CallId,
        conference_id: ConferenceId,
        participants: Vec<ConferenceListEntry>,
    },
    ShowConferenceParticipantActions {
        device_id: DeviceId,
        call_id: CallId,
        conference_id: ConferenceId,
        participant: ConferenceListEntry,
        removable: bool,
        demotable: bool,
    },
    SetCallState {
        device_id: DeviceId,
        call_id: CallId,
        state: PhoneCallState,
        stop_media: bool,
    },
    SetMicrophoneMode { device_id: DeviceId, call_id: CallId, enabled: bool },
}

/// Work for the switch or for a handset.
#[derive(Debug, PartialEq, Eq)]
pub enum DriverEffect {
    Backend(PbxEffect),
    Handset(HandsetEffect),
}

} // verus!
