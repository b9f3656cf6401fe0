//! Texts that a handset shows.

use vstd::prelude::*;

verus! {

/// A text for the prompt or status line of a handset.
#[derive(Clone, Copy, Debug, PartialEq, Eq, Structural)]
pub enum Prompt {
    NoCompatibleAudioCodec,
    VoicemailIsNotConfiguredForThisLine,
    CallbackRequested,
    RecordingUnavailable,
    ModeratorActionRequired,
    ConferenceActionInProgress,
    ConferenceUnavailable,
    UnableToHoldConference,
    UnableToResumeConference,
    BargeCodecUnavailable,
    PrivateCall,
    AnotherSharedActionWon,
    AnotherBargeIsActive,
    BargeUnavailable,
    ConferenceDisabled,
    SelectTwoConnectedCalls,
    ConferenceSelectionUnavailable,
    NoActiveConference,
    ModeratorAccessRequired,
    ConferenceActionPending,
    ParticipantUnavailable,
    ModeratorCannotBeRemoved,
    AtLeastOneModeratorIsRequired,
    ParticipantCannotBeRemoved,
    UnableToRemoveParticipant,
    ModeratorCannotBeMuted,
    ParticipantStateChanged,
    UnableToUpdateParticipant,
    ConferenceCodecUnavailable,
    ConnectTheConferenceFirst,
    ConferenceInviteUnavailable,
    InviteIsNotConnected,
    UnableToAddParticipant,
    ConferenceInvitePending,
    ConferenceAlreadyActive,
    ConsultationIsNotConnected,
    ConnectTheCallFirst,
    ConferenceAlreadyPending,
    ConferenceDialingUnavailable,
    ConferenceDialingFailed,
    UnableToCreateConference,
    ConferenceConnected,
    UnableToJoinCalls,
    ParticipantAdded,
    UnableToChangePrivacy,
    PrivacyEnabled,
    PrivacyDisabled,
    EnterForwardingDestination,
    EnterAForwardingDestination,
    ForwardingDestinationIsTooLong,
    InvalidForwardingDestination,
    SelectExactlyOneCall,
    VoicemailIsNotConfigured,
    VoicemailActionUnavailable,
    UnableToReachVoicemail,
    EnterPickupExtension,
    PickupNotPermitted,
    DirectedPickupDisabled,
    AnotherPickupAttemptWon,
    PickupUnavailable,
    ParkingCall,
    ParkingDisabled,
    CallCannotBeParked,
    ParkingUnavailable,
    TransferInProgress,
    CanNotCompleteTransfer,
    CompletingTransfer,
    Unavailable,
    MobilityLineIsInUse,
    MobilityLogoutComplete,
    MobilityLogoutFailed,
    MobilityUnavailable,
    MobilityLoginRejected,
    MobilityAlreadyActive,
    MobilityLoginComplete,
    MobilityLoginFailed,
}

impl Prompt {
    /// The words of the prompt.
    pub open spec fn words(self) -> Seq<char> {
        match self {
            Prompt::NoCompatibleAudioCodec => "No compatible audio codec"@,
            Prompt::VoicemailIsNotConfiguredForThisLine => "Voicemail is not configured for this line"@,
            Prompt::CallbackRequested => "Callback requested"@,
            Prompt::RecordingUnavailable => "Recording unavailable"@,
            Prompt::ModeratorActionRequired => "Moderator action required"@,
            Prompt::ConferenceActionInProgress => "Conference action in progress"@,
            Prompt::ConferenceUnavailable => "Conference unavailable"@,
            Prompt::UnableToHoldConference => "Unable to hold conference"@,
            Prompt::UnableToResumeConference => "Unable to resume conference"@,
            Prompt::BargeCodecUnavailable => "Barge codec unavailable"@,
            Prompt::PrivateCall => "Private call"@,
            Prompt::AnotherSharedActionWon => "Another shared action won"@,
            Prompt::AnotherBargeIsActive => "Another barge is active"@,
            Prompt::BargeUnavailable => "Barge unavailable"@,
            Prompt::ConferenceDisabled => "Conference disabled"@,
            Prompt::SelectTwoConnectedCalls => "Select two connected calls"@,
            Prompt::ConferenceSelectionUnavailable => "Conference selection unavailable"@,
            Prompt::NoActiveConference => "No active conference"@,
            Prompt::ModeratorAccessRequired => "Moderator access required"@,
            Prompt::ConferenceActionPending => "Conference action pending"@,
            Prompt::ParticipantUnavailable => "Participant unavailable"@,
            Prompt::ModeratorCannotBeRemoved => "Moderator cannot be removed"@,
            Prompt::AtLeastOneModeratorIsRequired => "At least one moderator is required"@,
            Prompt::ParticipantCannotBeRemoved => "Participant cannot be removed"@,
            Prompt::UnableToRemoveParticipant => "Unable to remove participant"@,
            Prompt::ModeratorCannotBeMuted => "Moderator cannot be muted"@,
            Prompt::ParticipantStateChanged => "Participant state changed"@,
            Prompt::UnableToUpdateParticipant => "Unable to update participant"@,
            Prompt::ConferenceCodecUnavailable => "Conference codec unavailable"@,
            Prompt::ConnectTheConferenceFirst => "Connect the conference first"@,
            Prompt::ConferenceInviteUnavailable => "Conference invite unavailable"@,
            Prompt::InviteIsNotConnected => "Invite is not connected"@,
            Prompt::UnableToAddParticipant => "Unable to add participant"@,
            Prompt::ConferenceInvitePending => "Conference invite pending"@,
            Prompt::ConferenceAlreadyActive => "Conference already active"@,
            Prompt::ConsultationIsNotConnected => "Consultation is not connected"@,
            Prompt::ConnectTheCallFirst => "Connect the call first"@,
            Prompt::ConferenceAlreadyPending => "Conference already pending"@,
            Prompt::ConferenceDialingUnavailable => "Conference dialing unavailable"@,
            Prompt::ConferenceDialingFailed => "Conference dialing failed"@,
            Prompt::UnableToCreateConference => "Unable to create conference"@,
            Prompt::ConferenceConnected => "Conference connected"@,
            Prompt::UnableToJoinCalls => "Unable to join calls"@,
            Prompt::ParticipantAdded => "Participant added"@,
            Prompt::UnableToChangePrivacy => "Unable to change privacy"@,
            Prompt::PrivacyEnabled => "Privacy enabled"@,
            Prompt::PrivacyDisabled => "Privacy disabled"@,
            Prompt::EnterForwardingDestination => "Enter forwarding destination"@,
            Prompt::EnterAForwardingDestination => "Enter a forwarding destination"@,
            Prompt::ForwardingDestinationIsTooLong => "Forwarding destination is too long"@,
            Prompt::InvalidForwardingDestination => "Invalid forwarding destination"@,
            Prompt::SelectExactlyOneCall => "Select exactly one call"@,
            Prompt::VoicemailIsNotConfigured => "Voicemail is not configured"@,
            Prompt::VoicemailActionUnavailable => "Voicemail action unavailable"@,
            Prompt::UnableToReachVoicemail => "Unable to reach voicemail"@,
            Prompt::EnterPickupExtension => "Enter pickup extension"@,
            Prompt::PickupNotPermitted => "Pickup not permitted"@,
            Prompt::DirectedPickupDisabled => "Directed pickup disabled"@,
            Prompt::AnotherPickupAttemptWon => "Another pickup attempt won"@,
            Prompt::PickupUnavailable => "Pickup unavailable"@,
            Prompt::ParkingCall => "Parking call"@,
            Prompt::ParkingDisabled => "Parking disabled"@,
            Prompt::CallCannotBeParked => "Call cannot be parked"@,
            Prompt::ParkingUnavailable => "Parking unavailable"@,
            Prompt::TransferInProgress => "Transfer in progress"@,
            Prompt::CanNotCompleteTransfer => "Can Not Complete Transfer"@,
            Prompt::CompletingTransfer => "Completing transfer"@,
            Prompt::Unavailable => "Unavailable"@,
            Prompt::MobilityLineIsInUse => "Mobility line is in use"@,
            Prompt::MobilityLogoutComplete => "Mobility logout complete"@,
            Prompt::MobilityLogoutFailed => "Mobility logout failed"@,
            Prompt::MobilityUnavailable => "Mobility unavailable"@,
            Prompt::MobilityLoginRejected => "Mobility login rejected"@,
            Prompt::MobilityAlreadyActive => "Mobility already active"@,
            Prompt::MobilityLoginComplete => "Mobility login complete"@,
            Prompt::MobilityLoginFailed => "Mobility login failed"@,
        }
    }

    /// The words that the handset is told to show.
    pub fn text(self) -> (text: &'static str)
        ensures
            text@ == self.words(),
    {
        match self {
            Prompt::NoCompatibleAudioCodec => "No compatible audio codec",
            Prompt::VoicemailIsNotConfiguredForThisLine => "Voicemail is not configured for this line",
            Prompt::CallbackRequested => "Callback requested",
            Prompt::RecordingUnavailable => "Recording unavailable",
            Prompt::ModeratorActionRequired => "Moderator action required",
            Prompt::ConferenceActionInProgress => "Conference action in progress",
            Prompt::ConferenceUnavailable => "Conference unavailable",
            Prompt::UnableToHoldConference => "Unable to hold conference",
            Prompt::UnableToResumeConference => "Unable to resume conference",
            Prompt::BargeCodecUnavailable => "Barge codec unavailable",
            Prompt::PrivateCall => "Private call",
            Prompt::AnotherSharedActionWon => "Another shared action won",
            Prompt::AnotherBargeIsActive => "Another barge is active",
            Prompt::BargeUnavailable => "Barge unavailable",
            Prompt::ConferenceDisabled => "Conference disabled",
            Prompt::SelectTwoConnectedCalls => "Select two connected calls",
            Prompt::ConferenceSelectionUnavailable => "Conference selection unavailable",
            Prompt::NoActiveConference => "No active conference",
            Prompt::ModeratorAccessRequired => "Moderator access required",
            Prompt::ConferenceActionPending => "Conference action pending",
            Prompt::ParticipantUnavailable => "Participant unavailable",
            Prompt::ModeratorCannotBeRemoved => "Moderator cannot be removed",
            Prompt::AtLeastOneModeratorIsRequired => "At least one moderator is required",
            Prompt::ParticipantCannotBeRemoved => "Participant cannot be removed",
            Prompt::UnableToRemoveParticipant => "Unable to remove participant",
            Prompt::ModeratorCannotBeMuted => "Moderator cannot be muted",
            Prompt::ParticipantStateChanged => "Participant state changed",
            Prompt::UnableToUpdateParticipant => "Unable to update participant",
            Prompt::ConferenceCodecUnavailable => "Conference codec unavailable",
            Prompt::ConnectTheConferenceFirst => "Connect the conference first",
            Prompt::ConferenceInviteUnavailable => "Conference invite unavailable",
            Prompt::InviteIsNotConnected => "Invite is not connected",
            Prompt::UnableToAddParticipant => "Unable to add participant",
            Prompt::ConferenceInvitePending => "Conference invite pending",
            Prompt::ConferenceAlreadyActive => "Conference already active",
            Prompt::ConsultationIsNotConnected => "Consultation is not connected",
            Prompt::ConnectTheCallFirst => "Connect the call first",
            Prompt::ConferenceAlreadyPending => "Conference already pending",
            Prompt::ConferenceDialingUnavailable => "Conference dialing unavailable",
            Prompt::ConferenceDialingFailed => "Conference dialing failed",
            Prompt::UnableToCreateConference => "Unable to create conference",
            Prompt::ConferenceConnected => "Conference connected",
            Prompt::UnableToJoinCalls => "Unable to join calls",
            Prompt::ParticipantAdded => "Participant added",
            Prompt::UnableToChangePrivacy => "Unable to change privacy",
            Prompt::PrivacyEnabled => "Privacy enabled",
            Prompt::PrivacyDisabled => "Privacy disabled",
            Prompt::EnterForwardingDestination => "Enter forwarding destination",
            Prompt::EnterAForwardingDestination => "Enter a forwarding destination",
            Prompt::ForwardingDestinationIsTooLong => "Forwarding destination is too long",
            Prompt::InvalidForwardingDestination => "Invalid forwarding destination",
            Prompt::SelectExactlyOneCall => "Select exactly one call",
            Prompt::VoicemailIsNotConfigured => "Voicemail is not configured",
            Prompt::VoicemailActionUnavailable => "Voicemail action unavailable",
            Prompt::UnableToReachVoicemail => "Unable to reach voicemail",
            Prompt::EnterPickupExtension => "Enter pickup extension",
            Prompt::PickupNotPermitted => "Pickup not permitted",
            Prompt::DirectedPickupDisabled => "Directed pickup disabled",
            Prompt::AnotherPickupAttemptWon => "Another pickup attempt won",
            Prompt::PickupUnavailable => "Pickup unavailable",
            Prompt::ParkingCall => "Parking call",
            Prompt::ParkingDisabled => "Parking disabled",
            Prompt::CallCannotBeParked => "Call cannot be parked",
            Prompt::ParkingUnavailable => "Parking unavailable",
            Prompt::TransferInProgress => "Transfer in progress",
            Prompt::CanNotCompleteTransfer => "Can Not Complete Transfer",
            Prompt::CompletingTransfer => "Completing transfer",
            Prompt::Unavailable => "Unavailable",
            Prompt::MobilityLineIsInUse => "Mobility line is in use",
            Prompt::MobilityLogoutComplete => "Mobility logout complete",
            Prompt::MobilityLogoutFailed => "Mobility logout failed",
            Prompt::MobilityUnavailable => "Mobility unavailable",
            Prompt::MobilityLoginRejected => "Mobility login rejected",
            Prompt::MobilityAlreadyActive => "Mobility already active",
            Prompt::MobilityLoginComplete => "Mobility login complete",
            Prompt::MobilityLoginFailed => "Mobility login failed",
        }
    }
}

} // verus!
