//! Conferences: who may do what in them, and what becomes of a change that
//! fails half way.

use vstd::prelude::*;

use crate::access::{Access, Shared};
use crate::backend::ServiceProviderError;
use crate::call_control::{self, shows_conference_list, BargeMode};
use crate::collect::{any, any_of_first, find, gather};
use crate::commands::{self, show_prompt, PhoneCommand, PhoneCommandAction};
use crate::config::{self, ConferenceConfig};
use crate::controller;
use crate::effect_run::RunState;
use crate::effects::{BridgeOperation, ConferenceMutationToken, DriverEffect, PbxEffect};
use crate::events::ConferenceListAction;
use crate::hold::ConferenceParticipantRejection;
use crate::ids::{CallId, ConferenceId, DeviceId, ParticipantId, PbxCallId};
use crate::lookup;
use crate::model::{CallState, Codec, LineBinding};
use crate::prompts::Prompt;
use crate::text::same_text;

verus! {

#[derive(Clone, Copy, Debug, PartialEq, Eq, Structural)]
pub enum ConferencePhase {
    /// The second party is being consulted.
    Consultation,
    /// The parties are being brought together.
    Merging,
    Active,
}

#[derive(Debug, PartialEq, Eq)]
pub struct ConferenceParticipant {
    pub id: ParticipantId,
    pub handset_call_id: CallId,
    pub pbx_call_id: PbxCallId,
    pub moderator: bool,
    pub display_name: String,
    pub number: String,
}

/// A conference and the station that owns it.
#[derive(Debug, PartialEq, Eq)]
pub struct ConferenceSession {
    pub id: ConferenceId,
    pub device_id: DeviceId,
    pub phase: ConferencePhase,
    pub original_handset_call_id: CallId,
    pub consultation_handset_call_id: CallId,
    pub consultation_call_id: PbxCallId,
    pub participants: Vec<ConferenceParticipant>,
    /// A party that is invited but not yet part of it.
    pub pending_invite: Option<ConferenceParticipant>,
}

/// Shows a text on a call of the conference.
pub fn display_conference_prompt(device_id: DeviceId, call_id: CallId, prompt: Prompt) -> (command:
    PhoneCommand)
    ensures
        command == commands::prompt_command(device_id, call_id, 4, prompt),
{
    show_prompt(device_id, call_id, 4, prompt)
}

#[derive(Clone, Copy, Debug, PartialEq, Eq, Structural)]
pub enum BargeRejection {
    Private,
    Capability,
    Conflict,
    AlreadyBarged,
    Unavailable,
    NotRemote,
}

pub open spec fn barge_prompt_spec(rejection: BargeRejection) -> Prompt {
    match rejection {
        BargeRejection::Private => Prompt::PrivateCall,
        BargeRejection::Capability => Prompt::BargeCodecUnavailable,
        BargeRejection::Conflict => Prompt::AnotherSharedActionWon,
        BargeRejection::AlreadyBarged => Prompt::AnotherBargeIsActive,
        BargeRejection::Unavailable | BargeRejection::NotRemote => Prompt::BargeUnavailable,
    }
}

/// What a refused barge shows.
pub fn barge_rejection_prompt(rejection: BargeRejection) -> (prompt: Prompt)
    ensures
        prompt == barge_prompt_spec(rejection),
{
    match rejection {
        BargeRejection::Private => Prompt::PrivateCall,
        BargeRejection::Capability => Prompt::BargeCodecUnavailable,
        BargeRejection::Conflict => Prompt::AnotherSharedActionWon,
        BargeRejection::AlreadyBarged => Prompt::AnotherBargeIsActive,
        BargeRejection::Unavailable | BargeRejection::NotRemote => Prompt::BargeUnavailable,
    }
}

/// What a barge key asks for.
#[derive(Debug, PartialEq, Eq)]
pub enum BargeKeyAction<'a> {
    Ignore,
    Show(PhoneCommand),
    Barge { binding: &'a LineBinding, codec: Codec, mode: BargeMode },
}

pub open spec fn barge_key_spec<'a>(
    shared: Shared,
    device_id: DeviceId,
    call_id: CallId,
    line_instance: u32,
    codec: Option<Codec>,
    mode: BargeMode,
) -> BargeKeyAction<'a> {
    match shared.binding_spec(device_id@, line_instance) {
        None => BargeKeyAction::Ignore,
        Some(binding) => match codec {
            Some(codec) => BargeKeyAction::Barge { binding: &binding, codec, mode },
            None => BargeKeyAction::Show(
                commands::prompt_command(device_id, call_id, 4, Prompt::BargeCodecUnavailable),
            ),
        },
    }
}

/// Decides what a barge key asks for; `codec` is the codec of a call on the
/// line.
pub fn handle_barge_soft_key<'a>(
    access: &'a Access,
    device_id: DeviceId,
    call_id: CallId,
    line_instance: u32,
    codec: Option<Codec>,
    mode: BargeMode,
) -> (action: BargeKeyAction<'a>)
    ensures
        action == barge_key_spec::<'a>(
            access.shared,
            device_id,
            call_id,
            line_instance,
            codec,
            mode,
        ),
{
    match access.line_binding(&device_id, line_instance) {
        None => BargeKeyAction::Ignore,
        Some(binding) => match codec {
            Some(codec) => BargeKeyAction::Barge { binding, codec, mode },
            None => BargeKeyAction::Show(
                show_prompt(device_id, call_id, 4, Prompt::BargeCodecUnavailable),
            ),
        },
    }
}

/// The call that may now be recorded: the one that was joined, once the handset
/// has confirmed it.
pub fn finish_barge(access: &Access, call_id: CallId, confirmed: bool) -> (recordable: Option<
    PbxCallId,
>)
    ensures
        recordable == match lookup::first(
            access.shared.controller.appearances@,
            controller::is_call(call_id),
        ) {
            Some(call) => if confirmed {
                Some(call.pbx_id)
            } else {
                None
            },
            None => None,
        },
{
    if !confirmed {
        return None;
    }
    match access.shared.controller.call(call_id) {
        Some(call) => Some(call.pbx_id),
        None => None,
    }
}

#[derive(Clone, Copy, Debug, PartialEq, Eq, Structural)]
pub enum ConferenceRejection {
    Disabled,
    NotConnected,
    Conflict,
    Unavailable,
}

/// How a conference comes about, as far as refusals are concerned.
#[derive(Clone, Copy, Debug, PartialEq, Eq, Structural)]
pub enum ConferenceRequest {
    /// Joining the selected calls.
    Join,
    /// Inviting another party.
    Invite,
    /// Taking the invited party in.
    ConfirmInvite,
    /// Consulting a second party.
    Start,
    /// Bringing the consulted party in.
    Confirm,
}

pub open spec fn conference_prompt_spec(
    request: ConferenceRequest,
    rejection: ConferenceRejection,
) -> Prompt {
    match (request, rejection) {
        (ConferenceRequest::Join, ConferenceRejection::Disabled) => Prompt::ConferenceDisabled,
        (ConferenceRequest::Join, ConferenceRejection::NotConnected) =>
            Prompt::SelectTwoConnectedCalls,
        (ConferenceRequest::Join, ConferenceRejection::Conflict) =>
            Prompt::ConferenceSelectionUnavailable,
        (ConferenceRequest::Invite, ConferenceRejection::Disabled) =>
            Prompt::ModeratorAccessRequired,
        (ConferenceRequest::Invite, ConferenceRejection::NotConnected) =>
            Prompt::ConnectTheConferenceFirst,
        (ConferenceRequest::Invite, ConferenceRejection::Conflict) =>
            Prompt::ConferenceInviteUnavailable,
        (ConferenceRequest::ConfirmInvite, ConferenceRejection::NotConnected) =>
            Prompt::InviteIsNotConnected,
        (ConferenceRequest::ConfirmInvite, _) => Prompt::UnableToAddParticipant,
        (ConferenceRequest::Start, ConferenceRejection::Disabled) => Prompt::ConferenceDisabled,
        (ConferenceRequest::Start, ConferenceRejection::NotConnected) =>
            Prompt::ConnectTheCallFirst,
        (ConferenceRequest::Start, ConferenceRejection::Conflict) =>
            Prompt::ConferenceAlreadyPending,
        (ConferenceRequest::Confirm, ConferenceRejection::NotConnected) =>
            Prompt::ConsultationIsNotConnected,
        _ => Prompt::ConferenceUnavailable,
    }
}

/// What a refused conference shows.
pub fn conference_rejection_prompt(request: ConferenceRequest, rejection: ConferenceRejection) ->
    (prompt: Prompt)
    ensures
        prompt == conference_prompt_spec(request, rejection),
{
    match (request, rejection) {
        (ConferenceRequest::Join, ConferenceRejection::Disabled) => Prompt::ConferenceDisabled,
        (ConferenceRequest::Join, ConferenceRejection::NotConnected) =>
            Prompt::SelectTwoConnectedCalls,
        (ConferenceRequest::Join, ConferenceRejection::Conflict) =>
            Prompt::ConferenceSelectionUnavailable,
        (ConferenceRequest::Invite, ConferenceRejection::Disabled) =>
            Prompt::ModeratorAccessRequired,
        (ConferenceRequest::Invite, ConferenceRejection::NotConnected) =>
            Prompt::ConnectTheConferenceFirst,
        (ConferenceRequest::Invite, ConferenceRejection::Conflict) =>
            Prompt::ConferenceInviteUnavailable,
        (ConferenceRequest::ConfirmInvite, ConferenceRejection::NotConnected) =>
            Prompt::InviteIsNotConnected,
        (ConferenceRequest::ConfirmInvite, _) => Prompt::UnableToAddParticipant,
        (ConferenceRequest::Start, ConferenceRejection::Disabled) => Prompt::ConferenceDisabled,
        (ConferenceRequest::Start, ConferenceRejection::NotConnected) =>
            Prompt::ConnectTheCallFirst,
        (ConferenceRequest::Start, ConferenceRejection::Conflict) =>
            Prompt::ConferenceAlreadyPending,
        (ConferenceRequest::Confirm, ConferenceRejection::NotConnected) =>
            Prompt::ConsultationIsNotConnected,
        _ => Prompt::ConferenceUnavailable,
    }
}

/// The conference settings of a station.
pub open spec fn conference_config_spec(shared: Shared, device: Seq<char>) -> Option<
    ConferenceConfig,
> {
    match lookup::first(shared.config.devices@, config::is_device(device)) {
        Some(found) => Some(found.conference),
        None => None,
    }
}

/// The station may hold conferences.
pub open spec fn conference_permitted(shared: Shared, device: Seq<char>) -> bool {
    match conference_config_spec(shared, device) {
        Some(conference) => conference.allowed,
        None => false,
    }
}

fn conference_config<'a>(access: &'a Access, device_id: &DeviceId) -> (policy: Option<
    &'a ConferenceConfig,
>)
    ensures
        lookup::target(policy) == conference_config_spec(access.shared, device_id@),
{
    match access.shared.config.device(device_id) {
        Some(found) => Some(&found.conference),
        None => None,
    }
}

/// What a join key asks for.
#[derive(Debug, PartialEq, Eq)]
pub enum JoinKeyAction<'a> {
    /// Barge into the call that another station holds.
    Barge { mode: BargeMode },
    /// Join the selected calls under the station's settings.
    Join { permitted: bool, policy: Option<&'a ConferenceConfig> },
}

/// Decides what a join key asks for.
pub fn handle_join_soft_key<'a>(access: &'a Access, device_id: &DeviceId, call_id: CallId) ->
    (action: JoinKeyAction<'a>)
    ensures
        match action {
            JoinKeyAction::Barge { mode } => mode == BargeMode::Conference
                && access.shared.controller.call_state_spec(call_id) == Some(
                CallState::RemoteInUse,
            ),
            JoinKeyAction::Join { permitted, policy } => {
                &&& access.shared.controller.call_state_spec(call_id) != Some(
                    CallState::RemoteInUse,
                )
                &&& permitted == conference_permitted(access.shared, device_id@)
                &&& lookup::target(policy) == conference_config_spec(access.shared, device_id@)
            },
        },
{
    match access.shared.controller.call_state(call_id) {
        Some(CallState::RemoteInUse) => return JoinKeyAction::Barge {
            mode: BargeMode::Conference,
        },
        _ => {},
    }
    let policy = conference_config(access, device_id);
    let permitted = match policy {
        Some(conference) => conference.allowed,
        None => false,
    };
    JoinKeyAction::Join { permitted, policy }
}

/// The conference is running, and this station owns it.
pub open spec fn owned_active(session: Option<ConferenceSession>, device: Seq<char>) -> bool {
    match session {
        Some(session) => session.phase == ConferencePhase::Active && session.device_id@ == device,
        None => false,
    }
}

fn is_owned_active(session: Option<&ConferenceSession>, device_id: &DeviceId) -> (owned: bool)
    ensures
        owned == owned_active(lookup::target(session), device_id@),
{
    match session {
        Some(session) => session.phase == ConferencePhase::Active && session.device_id.same(
            device_id,
        ),
        None => false,
    }
}

/// Whether the list of a conference is shown; otherwise why not.
pub fn show_conference_list(
    session: Option<&ConferenceSession>,
    device_id: DeviceId,
    call_id: CallId,
) -> (refusal: Option<PhoneCommand>)
    ensures
        refusal == if owned_active(lookup::target(session), device_id@) {
            None
        } else {
            Some(commands::prompt_command(device_id, call_id, 4, Prompt::NoActiveConference))
        },
{
    if is_owned_active(session, &device_id) {
        None
    } else {
        Some(show_prompt(device_id, call_id, 4, Prompt::NoActiveConference))
    }
}

/// The call on which the list of a conference is shown after a change, where
/// the owner's configuration asks for it.
pub fn show_conference_list_if_configured(access: &Access, session: &ConferenceSession) -> (shown:
    Option<CallId>)
    ensures
        shown == if call_control::shows_list_spec(access.shared, session.device_id@) {
            Some(session.original_handset_call_id)
        } else {
            None
        },
{
    if shows_conference_list(access, &session.device_id) {
        Some(session.original_handset_call_id)
    } else {
        None
    }
}

/// What a choice on the conference list asks for.
#[derive(Debug, PartialEq, Eq)]
pub enum ConferenceListStep {
    Ignore,
    ShowParticipantActions(ParticipantId),
    /// Nothing can be done to the participant: show who it is.
    ShowLabel(PhoneCommand),
    SetMuted { participant_id: ParticipantId, muted: bool },
    Remove(ParticipantId),
    SetModerator { participant_id: ParticipantId, moderator: bool },
    End,
}

pub open spec fn is_participant(id: ParticipantId) -> spec_fn(ConferenceParticipant) -> bool {
    |participant: ConferenceParticipant| participant.id == id
}

/// The conference that a choice is about.
pub open spec fn list_conference(action: ConferenceListAction) -> ConferenceId {
    match action {
        ConferenceListAction::Participant { conference_id, .. } => conference_id,
        ConferenceListAction::Mute { conference_id, .. } => conference_id,
        ConferenceListAction::Unmute { conference_id, .. } => conference_id,
        ConferenceListAction::Remove { conference_id, .. } => conference_id,
        ConferenceListAction::Promote { conference_id, .. } => conference_id,
        ConferenceListAction::Demote { conference_id, .. } => conference_id,
        ConferenceListAction::End { conference_id } => conference_id,
    }
}

/// The conference that a choice is about.
pub fn conference_list_target(action: ConferenceListAction) -> (conference_id: ConferenceId)
    ensures
        conference_id == list_conference(action),
{
    match action {
        ConferenceListAction::Participant { conference_id, .. } => conference_id,
        ConferenceListAction::Mute { conference_id, .. } => conference_id,
        ConferenceListAction::Unmute { conference_id, .. } => conference_id,
        ConferenceListAction::Remove { conference_id, .. } => conference_id,
        ConferenceListAction::Promote { conference_id, .. } => conference_id,
        ConferenceListAction::Demote { conference_id, .. } => conference_id,
        ConferenceListAction::End { conference_id } => conference_id,
    }
}

/// The text that stands for a participant.
pub open spec fn label_spec(participant: ConferenceParticipant) -> String {
    if participant.display_name@.len() == 0 {
        participant.number
    } else {
        participant.display_name
    }
}

pub open spec fn list_step_spec(
    session: Option<ConferenceSession>,
    device_id: DeviceId,
    action: ConferenceListAction,
    actions_available: bool,
) -> ConferenceListStep {
    if !owned_active(session, device_id@) {
        ConferenceListStep::Ignore
    } else {
        let session = session->0;
        match action {
            ConferenceListAction::Participant { participant_id, .. } => match lookup::first(
                session.participants@,
                is_participant(participant_id),
            ) {
                None => ConferenceListStep::Ignore,
                Some(participant) => if actions_available {
                    ConferenceListStep::ShowParticipantActions(participant_id)
                } else {
                    ConferenceListStep::ShowLabel(
                        PhoneCommand {
                            device_id,
                            action: PhoneCommandAction::DisplayText {
                                call_id: session.original_handset_call_id,
                                timeout_seconds: 4,
                                text: label_spec(participant),
                            },
                        },
                    )
                },
            },
            ConferenceListAction::Mute { participant_id, .. } => ConferenceListStep::SetMuted {
                participant_id,
                muted: true,
            },
            ConferenceListAction::Unmute { participant_id, .. } => ConferenceListStep::SetMuted {
                participant_id,
                muted: false,
            },
            ConferenceListAction::Remove { participant_id, .. } => ConferenceListStep::Remove(
                participant_id,
            ),
            ConferenceListAction::Promote { participant_id, .. } =>
                ConferenceListStep::SetModerator { participant_id, moderator: true },
            ConferenceListAction::Demote { participant_id, .. } =>
                ConferenceListStep::SetModerator { participant_id, moderator: false },
            ConferenceListAction::End { .. } => ConferenceListStep::End,
        }
    }
}

/// Decides what a choice on the list asks for. Only the owner of a running
/// conference has a say. `session` is the conference that the choice names, and
/// `actions_available` says whether there is anything to do to the participant.
pub fn handle_conference_list_action(
    session: Option<&ConferenceSession>,
    device_id: DeviceId,
    action: ConferenceListAction,
    actions_available: bool,
) -> (step: ConferenceListStep)
    ensures
        step == list_step_spec(lookup::target(session), device_id, action, actions_available),
{
    if !is_owned_active(session, &device_id) {
        return ConferenceListStep::Ignore;
    }
    let session = match session {
        Some(session) => session,
        None => return ConferenceListStep::Ignore,
    };
    match action {
        ConferenceListAction::Participant { participant_id, .. } => match find(
            &session.participants,
            |participant: &ConferenceParticipant| -> (found: bool)
                ensures
                    found == (participant.id == participant_id)
                { participant.id == participant_id },
            Ghost(is_participant(participant_id)),
        ) {
            None => ConferenceListStep::Ignore,
            Some(participant) => if actions_available {
                ConferenceListStep::ShowParticipantActions(participant_id)
            } else {
                let length: usize = vstd::string::StrSliceExecFns::unicode_len(
                    participant.display_name.as_str(),
                );
                let text = if length == 0 {
                    participant.number.clone()
                } else {
                    participant.display_name.clone()
                };
                ConferenceListStep::ShowLabel(
                    PhoneCommand::new(
                        device_id,
                        PhoneCommandAction::DisplayText {
                            call_id: session.original_handset_call_id,
                            timeout_seconds: 4,
                            text,
                        },
                    ),
                )
            },
        },
        ConferenceListAction::Mute { participant_id, .. } => ConferenceListStep::SetMuted {
            participant_id,
            muted: true,
        },
        ConferenceListAction::Unmute { participant_id, .. } => ConferenceListStep::SetMuted {
            participant_id,
            muted: false,
        },
        ConferenceListAction::Remove { participant_id, .. } => ConferenceListStep::Remove(
            participant_id,
        ),
        ConferenceListAction::Promote { participant_id, .. } => ConferenceListStep::SetModerator {
            participant_id,
            moderator: true,
        },
        ConferenceListAction::Demote { participant_id, .. } => ConferenceListStep::SetModerator {
            participant_id,
            moderator: false,
        },
        ConferenceListAction::End { .. } => ConferenceListStep::End,
    }
}

#[derive(Clone, Copy, Debug, PartialEq, Eq, Structural)]
pub enum ConferenceEndRejection {
    Unavailable,
    NotModerator,
    Conflict,
}

/// What ending a conference comes to: its announcement stops and the effects
/// are executed, or the refusal is shown.
pub fn finish_conference_end(session: &ConferenceSession, refusal: Option<ConferenceEndRejection>) ->
    (shown: Option<PhoneCommand>)
    ensures
        shown == match refusal {
            None => None,
            Some(rejection) => Some(
                commands::prompt_command(
                    session.device_id,
                    session.original_handset_call_id,
                    4,
                    match rejection {
                        ConferenceEndRejection::Unavailable => Prompt::ConferenceUnavailable,
                        ConferenceEndRejection::NotModerator => Prompt::ModeratorAccessRequired,
                        ConferenceEndRejection::Conflict => Prompt::ConferenceActionPending,
                    },
                ),
            ),
        },
{
    match refusal {
        None => None,
        Some(rejection) => {
            let prompt = match rejection {
                ConferenceEndRejection::Unavailable => Prompt::ConferenceUnavailable,
                ConferenceEndRejection::NotModerator => Prompt::ModeratorAccessRequired,
                ConferenceEndRejection::Conflict => Prompt::ConferenceActionPending,
            };
            Some(
                show_prompt(
                    session.device_id.clone(),
                    session.original_handset_call_id,
                    4,
                    prompt,
                ),
            )
        },
    }
}

/// What is done to a participant.
#[derive(Clone, Copy, Debug, PartialEq, Eq, Structural)]
pub enum ParticipantChange {
    Remove,
    Mute(bool),
    Role(bool),
}

pub open spec fn participant_prompt_spec(
    change: ParticipantChange,
    rejection: ConferenceParticipantRejection,
) -> Prompt {
    match rejection {
        ConferenceParticipantRejection::Unavailable => Prompt::ConferenceUnavailable,
        ConferenceParticipantRejection::NotModerator => Prompt::ModeratorAccessRequired,
        ConferenceParticipantRejection::InvalidParticipant => Prompt::ParticipantUnavailable,
        ConferenceParticipantRejection::LastModerator => Prompt::AtLeastOneModeratorIsRequired,
        ConferenceParticipantRejection::Moderator => match change {
            ParticipantChange::Remove => Prompt::ModeratorCannotBeRemoved,
            ParticipantChange::Mute(_) => Prompt::ModeratorCannotBeMuted,
            ParticipantChange::Role(_) => Prompt::ParticipantStateChanged,
        },
        ConferenceParticipantRejection::Conflict => match change {
            ParticipantChange::Remove => Prompt::ParticipantCannotBeRemoved,
            _ => Prompt::ParticipantStateChanged,
        },
    }
}

/// What a refused change of a participant shows.
pub fn participant_rejection_prompt(
    change: ParticipantChange,
    rejection: ConferenceParticipantRejection,
) -> (prompt: Prompt)
    ensures
        prompt == participant_prompt_spec(change, rejection),
{
    match rejection {
        ConferenceParticipantRejection::Unavailable => Prompt::ConferenceUnavailable,
        ConferenceParticipantRejection::NotModerator => Prompt::ModeratorAccessRequired,
        ConferenceParticipantRejection::InvalidParticipant => Prompt::ParticipantUnavailable,
        ConferenceParticipantRejection::LastModerator => Prompt::AtLeastOneModeratorIsRequired,
        ConferenceParticipantRejection::Moderator => match change {
            ParticipantChange::Remove => Prompt::ModeratorCannotBeRemoved,
            ParticipantChange::Mute(_) => Prompt::ModeratorCannotBeMuted,
            ParticipantChange::Role(_) => Prompt::ParticipantStateChanged,
        },
        ConferenceParticipantRejection::Conflict => match change {
            ParticipantChange::Remove => Prompt::ParticipantCannotBeRemoved,
            _ => Prompt::ParticipantStateChanged,
        },
    }
}

/// What is announced in a conference.
#[derive(Clone, Copy, Debug, PartialEq, Eq, Structural)]
pub enum ConferenceAnnouncement {
    ParticipantRemoved(ParticipantId),
    ParticipantMuted(ParticipantId),
    ParticipantUnmuted(ParticipantId),
}

/// What a change of a participant does next, once its effects have run.
#[derive(Debug, PartialEq, Eq)]
pub enum ParticipantStep {
    /// The run goes on.
    Continue,
    /// Have the controller make the change.
    Commit,
    /// Have the controller drop the change, undo what was done and show why.
    Abort { undo: Vec<DriverEffect>, shown: PhoneCommand, error: ServiceProviderError },
    /// Have the controller drop the removal and say whether it did.
    AbortRemoval,
    /// Undo what was done; the change is over.
    Undo { undo: Vec<DriverEffect>, error: ServiceProviderError },
}

/// The effect that takes back a change of music on hold.
pub open spec fn inverse() -> spec_fn(DriverEffect) -> Option<DriverEffect> {
    |effect: DriverEffect|
        match effect {
            DriverEffect::Backend(
                PbxEffect::Bridge {
                    operation: BridgeOperation::SetParticipantMusicOnHold {
                        bridge_id,
                        participant_id,
                        call_id,
                        class,
                        enabled,
                    },
                },
            ) => Some(
                DriverEffect::Backend(
                    PbxEffect::Bridge {
                        operation: BridgeOperation::SetParticipantMusicOnHold {
                            bridge_id,
                            participant_id,
                            call_id,
                            class,
                            enabled: !enabled,
                        },
                    },
                ),
            ),
            _ => None,
        }
}

/// What takes back the first `done` effects: the last of them first.
pub open spec fn compensation_spec(effects: Seq<DriverEffect>, done: nat) -> Seq<DriverEffect> {
    effects.take(done as int).filter_map(inverse()).reverse()
}

/// Collects what takes back the first `done` effects.
pub fn compensation(effects: &Vec<DriverEffect>, done: usize) -> (undo: Vec<DriverEffect>)
    requires
        done <= effects@.len(),
    ensures
        undo@ == compensation_spec(effects@, done as nat),
{
    let mut forward = gather(
        effects,
        done,
        |effect: &DriverEffect| -> (undo: Option<DriverEffect>)
            ensures
                undo == inverse()(*effect)
            {
                match effect {
                    DriverEffect::Backend(PbxEffect::Bridge { operation }) => match operation {
                        BridgeOperation::SetParticipantMusicOnHold {
                            bridge_id,
                            participant_id,
                            call_id,
                            class,
                            enabled,
                        } => Some(
                            DriverEffect::Backend(
                                PbxEffect::Bridge {
                                    operation: BridgeOperation::SetParticipantMusicOnHold {
                                        bridge_id: *bridge_id,
                                        participant_id: *participant_id,
                                        call_id: *call_id,
                                        class: class.clone(),
                                        enabled: !*enabled,
                                    },
                                },
                            ),
                        ),
                        _ => None,
                    },
                    _ => None,
                }
            },
        Ghost(inverse()),
    );
    let ghost all = forward@;
    let mut undo: Vec<DriverEffect> = Vec::new();
    while forward.len() > 0
        invariant
            forward@.len() <= all.len(),
            forward@ == all.take(forward@.len() as int),
            undo@ == all.skip(forward@.len() as int).reverse(),
        decreases forward@.len(),
    {
        let ghost n = forward@.len();
        match forward.pop() {
            Some(effect) => {
                proof {
                    assert(effect == all[n - 1]);
                    assert(all.skip(n - 1).reverse() =~= all.skip(n as int).reverse().push(effect));
                    assert(forward@ =~= all.take(n - 1));
                }
                undo.push(effect);
            },
            None => {},
        }
    }
    proof {
        assert(all.skip(0) =~= all);
    }
    undo
}

pub open spec fn participant_step_spec(
    session: ConferenceSession,
    change: ParticipantChange,
    effects: Seq<DriverEffect>,
    run: RunState,
    step: ParticipantStep,
) -> bool {
    let undo_of = |done: nat|
        match change {
            ParticipantChange::Role(_) => compensation_spec(effects, done),
            _ => Seq::empty(),
        };
    match run {
        RunState::Complete => step is Commit,
        RunState::Stale { done } => match step {
            ParticipantStep::Undo { undo, error } => undo@ == undo_of(done as nat) && error
                == ServiceProviderError::ConferenceConflict,
            _ => false,
        },
        RunState::Failed { done } => if change == ParticipantChange::Remove {
            step is AbortRemoval
        } else {
            match step {
                ParticipantStep::Abort { undo, shown, error } => {
                    &&& undo@ == undo_of(done as nat)
                    &&& shown == commands::prompt_command(
                        session.device_id,
                        session.original_handset_call_id,
                        4,
                        Prompt::UnableToUpdateParticipant,
                    )
                    &&& error == ServiceProviderError::Delivery
                },
                _ => false,
            }
        },
        _ => step is Continue,
    }
}

fn undo_effects(change: ParticipantChange, effects: &Vec<DriverEffect>, done: usize) -> (undo: Vec<
    DriverEffect,
>)
    requires
        done <= effects@.len(),
    ensures
        undo@ == match change {
            ParticipantChange::Role(_) => compensation_spec(effects@, done as nat),
            _ => Seq::empty(),
        },
{
    match change {
        ParticipantChange::Role(_) => compensation(effects, done),
        _ => Vec::new(),
    }
}

/// Decides how a change of a participant goes on once its effects have run.
fn participant_step(
    session: &ConferenceSession,
    change: ParticipantChange,
    effects: &Vec<DriverEffect>,
    run: RunState,
) -> (step: ParticipantStep)
    requires
        run.wf(effects@.len()),
    ensures
        participant_step_spec(*session, change, effects@, run, step),
{
    match run {
        RunState::Complete => ParticipantStep::Commit,
        RunState::Stale { done } => ParticipantStep::Undo {
            undo: undo_effects(change, effects, done),
            error: ServiceProviderError::ConferenceConflict,
        },
        RunState::Failed { done } => match change {
            ParticipantChange::Remove => ParticipantStep::AbortRemoval,
            _ => ParticipantStep::Abort {
                undo: undo_effects(change, effects, done),
                shown: show_prompt(
                    session.device_id.clone(),
                    session.original_handset_call_id,
                    4,
                    Prompt::UnableToUpdateParticipant,
                ),
                error: ServiceProviderError::Delivery,
            },
        },
        _ => ParticipantStep::Continue,
    }
}

/// Muting or unmuting a participant, once the effects have run.
pub fn set_conference_participant_muted(
    session: &ConferenceSession,
    muted: bool,
    effects: &Vec<DriverEffect>,
    run: RunState,
) -> (step: ParticipantStep)
    requires
        run.wf(effects@.len()),
    ensures
        participant_step_spec(*session, ParticipantChange::Mute(muted), effects@, run, step),
{
    participant_step(session, ParticipantChange::Mute(muted), effects, run)
}

/// Making a participant moderator, or no longer, once the effects have run.
/// Changes of music on hold that were made for it are taken back where it does
/// not come about.
pub fn set_conference_participant_moderator(
    session: &ConferenceSession,
    moderator: bool,
    effects: &Vec<DriverEffect>,
    run: RunState,
) -> (step: ParticipantStep)
    requires
        run.wf(effects@.len()),
    ensures
        participant_step_spec(*session, ParticipantChange::Role(moderator), effects@, run, step),
{
    participant_step(session, ParticipantChange::Role(moderator), effects, run)
}

/// Removing a participant, once the effects have run.
pub fn remove_conference_participant(
    session: &ConferenceSession,
    effects: &Vec<DriverEffect>,
    run: RunState,
) -> (step: ParticipantStep)
    requires
        run.wf(effects@.len()),
    ensures
        participant_step_spec(*session, ParticipantChange::Remove, effects@, run, step),
{
    participant_step(session, ParticipantChange::Remove, effects, run)
}

/// How a change of a participant ends.
#[derive(Debug, PartialEq, Eq)]
pub struct ParticipantEnd {
    pub undo: Vec<DriverEffect>,
    pub announce: Option<ConferenceAnnouncement>,
    /// Show the list, where configured.
    pub list: bool,
    pub shown: Option<PhoneCommand>,
    pub outcome: Result<(), ServiceProviderError>,
}

pub open spec fn is_end(
    end: ParticipantEnd,
    undo: Seq<DriverEffect>,
    announce: Option<ConferenceAnnouncement>,
    list: bool,
    shown: Option<PhoneCommand>,
    outcome: Result<(), ServiceProviderError>,
) -> bool {
    &&& end.undo@ == undo
    &&& end.announce == announce
    &&& end.list == list
    &&& end.shown == shown
    &&& end.outcome == outcome
}

/// A removal whose effect failed: another removal may have been faster.
/// `aborted` says whether the controller dropped this one, and `gone` whether
/// the participant has left.
pub fn finish_failed_removal(session: &ConferenceSession, aborted: bool, gone: bool) -> (end:
    ParticipantEnd)
    ensures
        if !aborted && gone {
            is_end(end, Seq::empty(), None, false, None, Ok(()))
        } else {
            is_end(
                end,
                Seq::empty(),
                None,
                false,
                Some(
                    commands::prompt_command(
                        session.device_id,
                        session.original_handset_call_id,
                        4,
                        Prompt::UnableToRemoveParticipant,
                    ),
                ),
                Err(ServiceProviderError::Delivery),
            )
        },
{
    if !aborted && gone {
        ParticipantEnd {
            undo: Vec::new(),
            announce: None,
            list: false,
            shown: None,
            outcome: Ok(()),
        }
    } else {
        ParticipantEnd {
            undo: Vec::new(),
            announce: None,
            list: false,
            shown: Some(
                show_prompt(
                    session.device_id.clone(),
                    session.original_handset_call_id,
                    4,
                    Prompt::UnableToRemoveParticipant,
                ),
            ),
            outcome: Err(ServiceProviderError::Delivery),
        }
    }
}

/// A removal whose effects succeeded. `committed` says whether this removal made
/// the change, and `gone` whether the participant has left.
pub fn finish_removal(participant_id: ParticipantId, committed: bool, gone: bool) -> (end:
    ParticipantEnd)
    ensures
        if !gone {
            is_end(
                end,
                Seq::empty(),
                None,
                false,
                None,
                Err(ServiceProviderError::ConferenceConflict),
            )
        } else if committed {
            is_end(
                end,
                Seq::empty(),
                Some(ConferenceAnnouncement::ParticipantRemoved(participant_id)),
                true,
                None,
                Ok(()),
            )
        } else {
            is_end(end, Seq::empty(), None, false, None, Ok(()))
        },
{
    let announce = if gone && committed {
        Some(ConferenceAnnouncement::ParticipantRemoved(participant_id))
    } else {
        None
    };
    ParticipantEnd {
        undo: Vec::new(),
        announce,
        list: gone && committed,
        shown: None,
        outcome: if gone {
            Ok(())
        } else {
            Err(ServiceProviderError::ConferenceConflict)
        },
    }
}

/// A change of muting whose effects succeeded.
pub fn finish_mute(participant_id: ParticipantId, muted: bool, committed: bool) -> (end:
    ParticipantEnd)
    ensures
        if committed {
            is_end(
                end,
                Seq::empty(),
                Some(
                    if muted {
                        ConferenceAnnouncement::ParticipantMuted(participant_id)
                    } else {
                        ConferenceAnnouncement::ParticipantUnmuted(participant_id)
                    },
                ),
                true,
                None,
                Ok(()),
            )
        } else {
            is_end(
                end,
                Seq::empty(),
                None,
                false,
                None,
                Err(ServiceProviderError::ConferenceConflict),
            )
        },
{
    if committed {
        ParticipantEnd {
            undo: Vec::new(),
            announce: Some(
                if muted {
                    ConferenceAnnouncement::ParticipantMuted(participant_id)
                } else {
                    ConferenceAnnouncement::ParticipantUnmuted(participant_id)
                },
            ),
            list: true,
            shown: None,
            outcome: Ok(()),
        }
    } else {
        ParticipantEnd {
            undo: Vec::new(),
            announce: None,
            list: false,
            shown: None,
            outcome: Err(ServiceProviderError::ConferenceConflict),
        }
    }
}

/// A change of role whose effects succeeded; where the controller does not make
/// it, they are taken back.
pub fn finish_role_change(effects: &Vec<DriverEffect>, committed: bool) -> (end: ParticipantEnd)
    ensures
        if committed {
            is_end(end, Seq::empty(), None, true, None, Ok(()))
        } else {
            is_end(
                end,
                compensation_spec(effects@, effects@.len()),
                None,
                false,
                None,
                Err(ServiceProviderError::ConferenceConflict),
            )
        },
{
    if committed {
        ParticipantEnd {
            undo: Vec::new(),
            announce: None,
            list: true,
            shown: None,
            outcome: Ok(()),
        }
    } else {
        ParticipantEnd {
            undo: compensation(effects, effects.len()),
            announce: None,
            list: false,
            shown: None,
            outcome: Err(ServiceProviderError::ConferenceConflict),
        }
    }
}

/// What a key that brings another party in asks for.
#[derive(Debug, PartialEq, Eq)]
pub enum ConsultationAction<'a> {
    Ignore,
    Show(PhoneCommand),
    Prepare {
        binding: &'a LineBinding,
        codec: Codec,
        permitted: bool,
        policy: Option<&'a ConferenceConfig>,
    },
}

/// The line that a key acts on: the one it names, else that of the call.
pub open spec fn selected_line_spec(
    shared: Shared,
    device: Seq<char>,
    call_id: CallId,
    line_instance: u32,
) -> Option<u32> {
    match lookup::first(shared.controller.appearances@, controller::is_call(call_id)) {
        Some(call) => if call.device_id@ != device {
            None
        } else if line_instance == 0 {
            Some(call.line_instance)
        } else {
            Some(line_instance)
        },
        None => None,
    }
}

/// The line that a key acts on; none where the call is not one of the station.
pub fn selected_line(
    access: &Access,
    device_id: &DeviceId,
    call_id: CallId,
    line_instance: u32,
) -> (line: Option<u32>)
    ensures
        line == selected_line_spec(access.shared, device_id@, call_id, line_instance),
{
    match access.shared.controller.call(call_id) {
        Some(call) => if !call.device_id.same(device_id) {
            None
        } else if line_instance == 0 {
            Some(call.line_instance)
        } else {
            Some(line_instance)
        },
        None => None,
    }
}

/// Whether an action is as a request for another party calls for.
pub open spec fn is_consultation(
    shared: Shared,
    device_id: DeviceId,
    call_id: CallId,
    line_instance: u32,
    codec: Option<Codec>,
    needs_permission: bool,
    action: ConsultationAction,
) -> bool {
    let permitted = conference_permitted(shared, device_id@);
    match selected_line_spec(shared, device_id@, call_id, line_instance) {
        None => action is Ignore,
        Some(line) => match shared.binding_spec(device_id@, line) {
            Some(binding) if permitted || !needs_permission => match codec {
                Some(codec) => match action {
                    ConsultationAction::Prepare {
                        binding: on,
                        codec: with,
                        permitted: allowed,
                        policy,
                    } => {
                        &&& *on == binding
                        &&& with == codec
                        &&& allowed == permitted
                        &&& lookup::target(policy) == conference_config_spec(shared, device_id@)
                    },
                    _ => false,
                },
                None => action == ConsultationAction::Show(
                    commands::prompt_command(
                        device_id,
                        call_id,
                        4,
                        Prompt::ConferenceCodecUnavailable,
                    ),
                ),
            },
            _ => if needs_permission {
                action == ConsultationAction::Show(
                    commands::prompt_command(device_id, call_id, 4, Prompt::ConferenceDisabled),
                )
            } else {
                action is Ignore
            },
        },
    }
}

fn consultation<'a>(
    access: &'a Access,
    device_id: DeviceId,
    call_id: CallId,
    line_instance: u32,
    codec: Option<Codec>,
    needs_permission: bool,
) -> (action: ConsultationAction<'a>)
    ensures
        is_consultation(
            access.shared,
            device_id,
            call_id,
            line_instance,
            codec,
            needs_permission,
            action,
        ),
{
    let line: u32 = match selected_line(access, &device_id, call_id, line_instance) {
        Some(line) => line,
        None => return ConsultationAction::Ignore,
    };
    let policy = conference_config(access, &device_id);
    let permitted = match policy {
        Some(conference) => conference.allowed,
        None => false,
    };
    let found = access.line_binding(&device_id, line);
    match found {
        Some(binding) => {
            if permitted || !needs_permission {
                return match codec {
                    Some(codec) => ConsultationAction::Prepare { binding, codec, permitted, policy },
                    None => ConsultationAction::Show(
                        show_prompt(device_id, call_id, 4, Prompt::ConferenceCodecUnavailable),
                    ),
                };
            }
        },
        None => {},
    }
    if needs_permission {
        ConsultationAction::Show(show_prompt(device_id, call_id, 4, Prompt::ConferenceDisabled))
    } else {
        ConsultationAction::Ignore
    }
}

/// Invites another party into a running conference. `codec` is the codec of a
/// call on the line that the key acts on.
pub fn start_conference_invite<'a>(
    access: &'a Access,
    device_id: DeviceId,
    moderator_call_id: CallId,
    line_instance: u32,
    codec: Option<Codec>,
) -> (action: ConsultationAction<'a>)
    ensures
        is_consultation(
            access.shared,
            device_id,
            moderator_call_id,
            line_instance,
            codec,
            true,
            action,
        ),
{
    consultation(access, device_id, moderator_call_id, line_instance, codec, true)
}

/// What the conference key asks for.
#[derive(Debug, PartialEq, Eq)]
pub enum ConferenceKeyAction<'a> {
    /// Take the invited party in.
    ConfirmInvite,
    /// Invite another party.
    Invite,
    /// Bring the consulted party in.
    Confirm,
    Show(PhoneCommand),
    Consult(ConsultationAction<'a>),
}

/// The participant is a moderator on this call.
pub open spec fn moderates(call_id: CallId) -> spec_fn(ConferenceParticipant) -> bool {
    |participant: ConferenceParticipant|
        participant.moderator && participant.handset_call_id == call_id
}

/// What the conference key does in a conference.
pub open spec fn session_key_spec<'a>(
    session: ConferenceSession,
    device_id: DeviceId,
    call_id: CallId,
) -> ConferenceKeyAction<'a> {
    if session.phase == ConferencePhase::Active {
        match session.pending_invite {
            Some(invite) => if invite.handset_call_id == call_id {
                ConferenceKeyAction::ConfirmInvite
            } else {
                ConferenceKeyAction::Show(
                    commands::prompt_command(
                        device_id,
                        call_id,
                        4,
                        Prompt::ConferenceInvitePending,
                    ),
                )
            },
            None => if lookup::some(session.participants@, moderates(call_id)) {
                ConferenceKeyAction::Invite
            } else {
                ConferenceKeyAction::Show(
                    commands::prompt_command(
                        device_id,
                        call_id,
                        4,
                        Prompt::ConferenceInvitePending,
                    ),
                )
            },
        }
    } else if session.phase != ConferencePhase::Consultation
        || session.consultation_handset_call_id != call_id {
        ConferenceKeyAction::Show(
            commands::prompt_command(device_id, call_id, 4, Prompt::ConferenceAlreadyActive),
        )
    } else {
        ConferenceKeyAction::Confirm
    }
}

/// Decides what the conference key asks for. `session` is the conference that
/// the call takes part in, and `codec` the codec of a call on the line that the
/// key acts on.
pub fn handle_conference_soft_key<'a>(
    access: &'a Access,
    session: Option<&ConferenceSession>,
    device_id: DeviceId,
    call_id: CallId,
    line_instance: u32,
    codec: Option<Codec>,
) -> (action: ConferenceKeyAction<'a>)
    ensures
        match session {
            Some(session) => action == session_key_spec::<'a>(*session, device_id, call_id),
            None => match action {
                ConferenceKeyAction::Consult(consulted) => is_consultation(
                    access.shared,
                    device_id,
                    call_id,
                    line_instance,
                    codec,
                    false,
                    consulted,
                ),
                _ => false,
            },
        },
{
    let session = match session {
        Some(session) => session,
        None => {
            return ConferenceKeyAction::Consult(
                consultation(access, device_id, call_id, line_instance, codec, false),
            );
        },
    };
    if session.phase == ConferencePhase::Active {
        match &session.pending_invite {
            Some(invite) => {
                if invite.handset_call_id == call_id {
                    return ConferenceKeyAction::ConfirmInvite;
                }
            },
            None => {
                let moderator = any(
                    &session.participants,
                    |participant: &ConferenceParticipant| -> (found: bool)
                        ensures
                            found == (participant.moderator && participant.handset_call_id
                                == call_id)
                        { participant.moderator && participant.handset_call_id == call_id },
                    Ghost(moderates(call_id)),
                );
                if moderator {
                    return ConferenceKeyAction::Invite;
                }
            },
        }
        return ConferenceKeyAction::Show(
            show_prompt(device_id, call_id, 4, Prompt::ConferenceInvitePending),
        );
    }
    if session.phase != ConferencePhase::Consultation || session.consultation_handset_call_id
        != call_id {
        return ConferenceKeyAction::Show(
            show_prompt(device_id, call_id, 4, Prompt::ConferenceAlreadyActive),
        );
    }
    ConferenceKeyAction::Confirm
}

/// What dialing into a conference room asks for.
#[derive(Debug, PartialEq, Eq)]
pub enum DestinationAction<'a> {
    Ignore,
    /// Show the prompt and end the call.
    RefuseAndHangUp(PhoneCommand),
    Begin { destination: &'a String, application_options: &'a String },
}

pub open spec fn destination_spec<'a>(
    shared: Shared,
    device_id: DeviceId,
    call_id: CallId,
    line_instance: u32,
) -> DestinationAction<'a> {
    let matching = match lookup::first(
        shared.controller.appearances@,
        controller::is_call(call_id),
    ) {
        Some(call) => call.device_id@ == device_id@ && call.line_instance == line_instance,
        None => false,
    };
    let refusal = DestinationAction::RefuseAndHangUp(
        commands::prompt_command(device_id, call_id, 4, Prompt::ConferenceDialingUnavailable),
    );
    if !matching {
        DestinationAction::Ignore
    } else {
        match shared.binding_spec(device_id@, line_instance) {
            Some(binding) => match binding.conference_dialing {
                Some(policy) => match policy.destination {
                    Some(destination) if policy.enabled => DestinationAction::Begin {
                        destination: &destination,
                        application_options: &policy.application_options,
                    },
                    _ => refusal,
                },
                None => refusal,
            },
            None => refusal,
        }
    }
}

/// Decides what dialing into a conference room asks for.
pub fn handle_conference_destination<'a>(
    access: &'a Access,
    device_id: DeviceId,
    call_id: CallId,
    line_instance: u32,
) -> (action: DestinationAction<'a>)
    ensures
        action == destination_spec::<'a>(access.shared, device_id, call_id, line_instance),
{
    let matching = match access.shared.controller.call(call_id) {
        Some(call) => call.device_id.same(&device_id) && call.line_instance == line_instance,
        None => false,
    };
    if !matching {
        return DestinationAction::Ignore;
    }
    match access.line_binding(&device_id, line_instance) {
        Some(binding) => match &binding.conference_dialing {
            Some(policy) => if policy.enabled {
                match &policy.destination {
                    Some(destination) => {
                        return DestinationAction::Begin {
                            destination,
                            application_options: &policy.application_options,
                        };
                    },
                    None => {},
                }
            },
            None => {},
        },
        None => {},
    }
    DestinationAction::RefuseAndHangUp(
        show_prompt(device_id, call_id, 4, Prompt::ConferenceDialingUnavailable),
    )
}

/// What follows once the controller was asked to begin dialing into a room.
#[derive(Debug, PartialEq, Eq)]
pub enum DestinationBegun {
    /// Run these effects.
    Start(Vec<DriverEffect>),
    /// Show the refusal and hang the call up.
    RefuseAndHangUp(PhoneCommand),
}

/// `effects` is what the controller asks for, unless it refused.
pub fn conference_destination_begun(
    device_id: DeviceId,
    call_id: CallId,
    effects: Option<Vec<DriverEffect>>,
) -> (begun: DestinationBegun)
    ensures
        begun == match effects {
            Some(effects) => DestinationBegun::Start(effects),
            None => DestinationBegun::RefuseAndHangUp(
                commands::prompt_command(
                    device_id,
                    call_id,
                    4,
                    Prompt::ConferenceDialingUnavailable,
                ),
            ),
        },
{
    match effects {
        Some(effects) => DestinationBegun::Start(effects),
        None => DestinationBegun::RefuseAndHangUp(
            show_prompt(device_id, call_id, 4, Prompt::ConferenceDialingUnavailable),
        ),
    }
}

/// The reservation that an effect starts a room under.
pub open spec fn started_under() -> spec_fn(DriverEffect) -> bool {
    |effect: DriverEffect|
        match effect {
            DriverEffect::Backend(PbxEffect::StartConferenceDestination { .. }) => true,
            _ => false,
        }
}

/// The reservation under which the effects start a room; without one there is
/// nothing to run.
pub fn destination_mutation(effects: &Vec<DriverEffect>) -> (mutation: Option<
    ConferenceMutationToken,
>)
    ensures
        mutation == match lookup::first(effects@, started_under()) {
            Some(
                DriverEffect::Backend(PbxEffect::StartConferenceDestination { mutation, .. }),
            ) => Some(mutation),
            _ => None,
        },
{
    match find(
        effects,
        |effect: &DriverEffect| -> (found: bool)
            ensures
                found == started_under()(*effect)
            {
                match effect {
                    DriverEffect::Backend(backend) => match backend {
                        PbxEffect::StartConferenceDestination { .. } => true,
                        _ => false,
                    },
                    _ => false,
                }
            },
        Ghost(started_under()),
    ) {
        Some(effect) => match effect {
            DriverEffect::Backend(PbxEffect::StartConferenceDestination { mutation, .. }) => Some(
                *mutation,
            ),
            _ => None,
        },
        None => None,
    }
}

/// The call that an effect holds.
pub open spec fn held_call() -> spec_fn(DriverEffect) -> Option<PbxCallId> {
    |effect: DriverEffect|
        match effect {
            DriverEffect::Backend(PbxEffect::Hold { call_id }) => Some(call_id),
            _ => None,
        }
}

/// The call that an effect resumes.
pub open spec fn resumed_call() -> spec_fn(DriverEffect) -> Option<PbxCallId> {
    |effect: DriverEffect|
        match effect {
            DriverEffect::Backend(PbxEffect::Resume { call_id }) => Some(call_id),
            _ => None,
        }
}

/// The effect makes a bridge.
pub open spec fn creates_bridge() -> spec_fn(DriverEffect) -> bool {
    |effect: DriverEffect|
        match effect {
            DriverEffect::Backend(
                PbxEffect::Bridge { operation: BridgeOperation::Create { .. } },
            ) => true,
            _ => false,
        }
}

fn held_calls(effects: &Vec<DriverEffect>, count: usize) -> (calls: Vec<PbxCallId>)
    requires
        count <= effects@.len(),
    ensures
        calls@ == effects@.take(count as int).filter_map(held_call()),
{
    gather(
        effects,
        count,
        |effect: &DriverEffect| -> (held: Option<PbxCallId>)
            ensures
                held == held_call()(*effect)
            {
                match effect {
                    DriverEffect::Backend(PbxEffect::Hold { call_id }) => Some(*call_id),
                    _ => None,
                }
            },
        Ghost(held_call()),
    )
}

fn resumed_calls(effects: &Vec<DriverEffect>, count: usize) -> (calls: Vec<PbxCallId>)
    requires
        count <= effects@.len(),
    ensures
        calls@ == effects@.take(count as int).filter_map(resumed_call()),
{
    gather(
        effects,
        count,
        |effect: &DriverEffect| -> (resumed: Option<PbxCallId>)
            ensures
                resumed == resumed_call()(*effect)
            {
                match effect {
                    DriverEffect::Backend(PbxEffect::Resume { call_id }) => Some(*call_id),
                    _ => None,
                }
            },
        Ghost(resumed_call()),
    )
}

fn bridge_created(effects: &Vec<DriverEffect>, count: usize) -> (created: bool)
    requires
        count <= effects@.len(),
    ensures
        created == lookup::some(effects@.take(count as int), creates_bridge()),
{
    any_of_first(
        effects,
        count,
        |effect: &DriverEffect| -> (creates: bool)
            ensures
                creates == creates_bridge()(*effect)
            {
                match effect {
                    DriverEffect::Backend(PbxEffect::Bridge { operation }) => match operation {
                        BridgeOperation::Create { .. } => true,
                        _ => false,
                    },
                    _ => false,
                }
            },
        Ghost(creates_bridge()),
    )
}

/// How starting a room ends: only a failed effect has to be undone.
#[derive(Debug, PartialEq, Eq)]
pub struct DestinationFailure {
    pub shown: PhoneCommand,
    /// All calls that were to be held.
    pub held: Vec<PbxCallId>,
    /// Those that were.
    pub completed: Vec<PbxCallId>,
}

pub fn execute_conference_destination_start(
    device_id: DeviceId,
    call_id: CallId,
    effects: &Vec<DriverEffect>,
    run: RunState,
) -> (failure: Option<DestinationFailure>)
    requires
        run.wf(effects@.len()),
    ensures
        match (run, failure) {
            (RunState::Failed { done }, Some(failure)) => {
                &&& failure.shown == commands::prompt_command(
                    device_id,
                    call_id,
                    4,
                    Prompt::ConferenceDialingFailed,
                )
                &&& failure.held@ == effects@.filter_map(held_call())
                &&& failure.completed@ == effects@.take(done as int).filter_map(held_call())
            },
            (RunState::Failed { .. }, None) => false,
            (_, failure) => failure is None,
        },
{
    match run {
        RunState::Failed { done } => {
            proof {
                assert(effects@.take(effects@.len() as int) =~= effects@);
            }
            Some(
                DestinationFailure {
                    shown: show_prompt(device_id, call_id, 4, Prompt::ConferenceDialingFailed),
                    held: held_calls(effects, effects.len()),
                    completed: held_calls(effects, done),
                },
            )
        },
        _ => None,
    }
}

/// What an effect of a consultation has brought about once it succeeded.
#[derive(Clone, Copy, Debug, PartialEq, Eq, Structural)]
pub struct ConferenceStartProgress {
    pub channel_created: bool,
    pub active_leg_held: bool,
    pub active_handset_held: bool,
}

pub open spec fn brings_channel() -> spec_fn(ConferenceStartProgress) -> bool {
    |progress: ConferenceStartProgress| progress.channel_created
}

pub open spec fn brings_leg_hold() -> spec_fn(ConferenceStartProgress) -> bool {
    |progress: ConferenceStartProgress| progress.active_leg_held
}

pub open spec fn brings_handset_hold() -> spec_fn(ConferenceStartProgress) -> bool {
    |progress: ConferenceStartProgress| progress.active_handset_held
}

/// What the first `done` effects have brought about together.
pub open spec fn progress_spec(effects: Seq<ConferenceStartProgress>, done: nat) ->
    ConferenceStartProgress {
    let first = effects.take(done as int);
    ConferenceStartProgress {
        channel_created: lookup::some(first, brings_channel()),
        active_leg_held: lookup::some(first, brings_leg_hold()),
        active_handset_held: lookup::some(first, brings_handset_hold()),
    }
}

fn progress_of(effects: &Vec<ConferenceStartProgress>, done: usize) -> (progress:
    ConferenceStartProgress)
    requires
        done <= effects@.len(),
    ensures
        progress == progress_spec(effects@, done as nat),
{
    ConferenceStartProgress {
        channel_created: any_of_first(
            effects,
            done,
            |progress: &ConferenceStartProgress| -> (brings: bool)
                ensures
                    brings == progress.channel_created
                { progress.channel_created },
            Ghost(brings_channel()),
        ),
        active_leg_held: any_of_first(
            effects,
            done,
            |progress: &ConferenceStartProgress| -> (brings: bool)
                ensures
                    brings == progress.active_leg_held
                { progress.active_leg_held },
            Ghost(brings_leg_hold()),
        ),
        active_handset_held: any_of_first(
            effects,
            done,
            |progress: &ConferenceStartProgress| -> (brings: bool)
                ensures
                    brings == progress.active_handset_held
                { progress.active_handset_held },
            Ghost(brings_handset_hold()),
        ),
    }
}

/// How setting up a consultation ends.
#[derive(Clone, Copy, Debug, PartialEq, Eq, Structural)]
pub enum ConsultationEnd {
    /// The run goes on.
    Continue,
    Complete,
    /// Someone else ended it: only its channel is left to remove.
    Stale { remove: Option<PbxCallId> },
    /// Have the controller drop it and undo what was done, then remove the
    /// channel.
    Abort { progress: ConferenceStartProgress, remove: Option<PbxCallId> },
}

pub open spec fn consultation_end_spec(
    progress: Seq<ConferenceStartProgress>,
    channel: Option<PbxCallId>,
    run: RunState,
) -> ConsultationEnd {
    let removed = |done: nat|
        if progress_spec(progress, done).channel_created {
            channel
        } else {
            None
        };
    match run {
        RunState::Complete => ConsultationEnd::Complete,
        RunState::Stale { done } => ConsultationEnd::Stale { remove: removed(done as nat) },
        RunState::Failed { done } => ConsultationEnd::Abort {
            progress: progress_spec(progress, done as nat),
            remove: removed(done as nat),
        },
        _ => ConsultationEnd::Continue,
    }
}

/// Decides how setting up a consultation ends. `progress` says what each effect
/// brings about, and `channel` is the channel of the consulted party.
pub fn execute_conference_start(
    progress: &Vec<ConferenceStartProgress>,
    channel: Option<PbxCallId>,
    run: RunState,
) -> (end: ConsultationEnd)
    requires
        run.wf(progress@.len()),
    ensures
        end == consultation_end_spec(progress@, channel, run),
{
    match run {
        RunState::Complete => ConsultationEnd::Complete,
        RunState::Stale { done } => {
            let reached = progress_of(progress, done);
            ConsultationEnd::Stale {
                remove: if reached.channel_created {
                    channel
                } else {
                    None
                },
            }
        },
        RunState::Failed { done } => {
            let reached = progress_of(progress, done);
            ConsultationEnd::Abort {
                progress: reached,
                remove: if reached.channel_created {
                    channel
                } else {
                    None
                },
            }
        },
        _ => ConsultationEnd::Continue,
    }
}

/// Decides how setting up an invitation ends.
pub fn execute_conference_invite_start(
    progress: &Vec<ConferenceStartProgress>,
    channel: Option<PbxCallId>,
    run: RunState,
) -> (end: ConsultationEnd)
    requires
        run.wf(progress@.len()),
    ensures
        end == consultation_end_spec(progress@, channel, run),
{
    execute_conference_start(progress, channel, run)
}

/// For how long a bridge that is not there yet is waited for.
pub const CONFERENCE_BRIDGE_READY_TIMEOUT_MS: u64 = 1000;

pub const CONFERENCE_BRIDGE_READY_RETRY_INTERVAL_MS: u64 = 20;

/// Why an effect failed, as far as trying again is concerned.
#[derive(Debug, PartialEq, Eq)]
pub enum MergeError<'a> {
    /// The switch does not find what the operation is about.
    NotFound { operation: &'a str },
    Other,
}

/// Merging a consultation found no bridge: its members may still be joining.
pub open spec fn is_transient(effect: DriverEffect, error: MergeError) -> bool {
    &&& effect matches DriverEffect::Backend(
        PbxEffect::Bridge { operation: BridgeOperation::MergeConsultation { .. } },
    )
    &&& error matches MergeError::NotFound { operation }
    &&& operation@ == "merge conference consultation"@
}

pub fn is_transient_conference_bridge_readiness_error(effect: &DriverEffect, error: &MergeError) ->
    (transient: bool)
    ensures
        transient == is_transient(*effect, *error),
{
    let merges = match effect {
        DriverEffect::Backend(PbxEffect::Bridge { operation }) => match operation {
            BridgeOperation::MergeConsultation { .. } => true,
            _ => false,
        },
        _ => false,
    };
    match error {
        MergeError::NotFound { operation } => merges && same_text(
            operation,
            "merge conference consultation",
        ),
        MergeError::Other => false,
    }
}

/// What has happened to an effect of a merge. `active` says whether the
/// reservation holds at that time.
#[derive(Debug, PartialEq, Eq)]
pub enum MergeEvent<'a> {
    Succeeded,
    Failed { error: MergeError<'a>, elapsed_ms: u64, active: bool },
    /// The wait for the bridge is over.
    Waited { active: bool },
}

/// How an effect of a merge goes on.
#[derive(Clone, Copy, Debug, PartialEq, Eq, Structural)]
pub enum MergeAttempt {
    Succeeded,
    /// Wait for the bridge.
    Wait { interval_ms: u64 },
    /// Try the effect again.
    Retry,
    /// The reservation lapsed.
    Stale,
    Failed,
}

/// Decides how an effect of a merge goes on: a bridge that is not there yet is
/// waited for, for a second at most. The reservation has to hold before the wait
/// and after it.
pub fn execute_conference_merge_effect(effect: &DriverEffect, event: &MergeEvent) -> (attempt:
    MergeAttempt)
    ensures
        attempt == match *event {
            MergeEvent::Succeeded => MergeAttempt::Succeeded,
            MergeEvent::Failed { error, elapsed_ms, active } => if !is_transient(*effect, error)
                || elapsed_ms >= CONFERENCE_BRIDGE_READY_TIMEOUT_MS {
                MergeAttempt::Failed
            } else if active {
                MergeAttempt::Wait { interval_ms: CONFERENCE_BRIDGE_READY_RETRY_INTERVAL_MS }
            } else {
                MergeAttempt::Stale
            },
            MergeEvent::Waited { active } => if active {
                MergeAttempt::Retry
            } else {
                MergeAttempt::Stale
            },
        },
{
    match event {
        MergeEvent::Succeeded => MergeAttempt::Succeeded,
        MergeEvent::Failed { error, elapsed_ms, active } => {
            if !is_transient_conference_bridge_readiness_error(effect, error) || *elapsed_ms
                >= CONFERENCE_BRIDGE_READY_TIMEOUT_MS {
                MergeAttempt::Failed
            } else if *active {
                MergeAttempt::Wait { interval_ms: CONFERENCE_BRIDGE_READY_RETRY_INTERVAL_MS }
            } else {
                MergeAttempt::Stale
            }
        },
        MergeEvent::Waited { active } => if *active {
            MergeAttempt::Retry
        } else {
            MergeAttempt::Stale
        },
    }
}

/// How bringing parties together ends.
#[derive(Debug, PartialEq, Eq)]
pub enum MergeEnd {
    /// The run goes on.
    Continue,
    /// Have the controller make the change.
    Commit,
    /// Someone else ended it.
    Stale { remove: Option<PbxCallId> },
    /// Have the controller drop a consultation or an invitation, undo what was
    /// done, remove its channel and show why.
    Abort {
        bridge_created: bool,
        /// The other leg is still held.
        leg_held: bool,
        channel: PbxCallId,
        shown: PhoneCommand,
    },
    /// Have the controller drop a join, undo what was done and show why.
    AbortJoin { bridge_created: bool, resumed: Vec<PbxCallId>, shown: PhoneCommand },
}

/// Decides how bringing the consulted party in ends.
pub fn execute_conference_merge(
    session: &ConferenceSession,
    effects: &Vec<DriverEffect>,
    run: RunState,
) -> (end: MergeEnd)
    requires
        run.wf(effects@.len()),
    ensures
        match run {
            RunState::Complete => end is Commit,
            RunState::Stale { .. } => end == (MergeEnd::Stale {
                remove: Some(session.consultation_call_id),
            }),
            RunState::Failed { done } => end == (MergeEnd::Abort {
                bridge_created: lookup::some(effects@.take(done as int), creates_bridge()),
                leg_held: effects@.take(done as int).filter_map(resumed_call()).len() == 0,
                channel: session.consultation_call_id,
                shown: commands::prompt_command(
                    session.device_id,
                    session.original_handset_call_id,
                    4,
                    Prompt::UnableToCreateConference,
                ),
            }),
            _ => end is Continue,
        },
{
    match run {
        RunState::Complete => MergeEnd::Commit,
        RunState::Stale { .. } => MergeEnd::Stale { remove: Some(session.consultation_call_id) },
        RunState::Failed { done } => MergeEnd::Abort {
            bridge_created: bridge_created(effects, done),
            leg_held: resumed_calls(effects, done).len() == 0,
            channel: session.consultation_call_id,
            shown: show_prompt(
                session.device_id.clone(),
                session.original_handset_call_id,
                4,
                Prompt::UnableToCreateConference,
            ),
        },
        _ => MergeEnd::Continue,
    }
}

/// Decides how joining the selected calls ends.
pub fn execute_selected_conference_merge(
    session: &ConferenceSession,
    effects: &Vec<DriverEffect>,
    run: RunState,
) -> (end: MergeEnd)
    requires
        run.wf(effects@.len()),
    ensures
        match run {
            RunState::Complete => end is Commit,
            RunState::Stale { .. } => end == (MergeEnd::Stale { remove: None }),
            RunState::Failed { done } => match end {
                MergeEnd::AbortJoin { bridge_created, resumed, shown } => {
                    &&& bridge_created == lookup::some(effects@.take(done as int), creates_bridge())
                    &&& resumed@ == effects@.take(done as int).filter_map(resumed_call())
                    &&& shown == commands::prompt_command(
                        session.device_id,
                        session.original_handset_call_id,
                        4,
                        Prompt::UnableToJoinCalls,
                    )
                },
                _ => false,
            },
            _ => end is Continue,
        },
{
    match run {
        RunState::Complete => MergeEnd::Commit,
        RunState::Stale { .. } => MergeEnd::Stale { remove: None },
        RunState::Failed { done } => MergeEnd::AbortJoin {
            bridge_created: bridge_created(effects, done),
            resumed: resumed_calls(effects, done),
            shown: show_prompt(
                session.device_id.clone(),
                session.original_handset_call_id,
                4,
                Prompt::UnableToJoinCalls,
            ),
        },
        _ => MergeEnd::Continue,
    }
}

/// Decides how taking an invited party in ends; without an invitation there is
/// nothing to run.
pub fn execute_conference_invite_merge(
    session: &ConferenceSession,
    effects: &Vec<DriverEffect>,
    run: RunState,
) -> (end: Option<MergeEnd>)
    requires
        run.wf(effects@.len()),
    ensures
        match (session.pending_invite, end) {
            (None, end) => end is None,
            (Some(_), None) => false,
            (Some(invite), Some(end)) => match run {
                RunState::Complete => end is Commit,
                RunState::Stale { .. } => end == (MergeEnd::Stale {
                    remove: Some(invite.pbx_call_id),
                }),
                RunState::Failed { done } => end == (MergeEnd::Abort {
                    bridge_created: false,
                    leg_held: effects@.take(done as int).filter_map(resumed_call()).len() == 0,
                    channel: invite.pbx_call_id,
                    shown: commands::prompt_command(
                        session.device_id,
                        session.original_handset_call_id,
                        4,
                        Prompt::UnableToAddParticipant,
                    ),
                }),
                _ => end is Continue,
            },
        },
{
    let invite = match &session.pending_invite {
        Some(invite) => invite,
        None => return None,
    };
    let end = match run {
        RunState::Complete => MergeEnd::Commit,
        RunState::Stale { .. } => MergeEnd::Stale { remove: Some(invite.pbx_call_id) },
        RunState::Failed { done } => MergeEnd::Abort {
            bridge_created: false,
            leg_held: resumed_calls(effects, done).len() == 0,
            channel: invite.pbx_call_id,
            shown: show_prompt(
                session.device_id.clone(),
                session.original_handset_call_id,
                4,
                Prompt::UnableToAddParticipant,
            ),
        },
        _ => MergeEnd::Continue,
    };
    Some(end)
}

/// Which parties are brought together.
#[derive(Clone, Copy, Debug, PartialEq, Eq, Structural)]
pub enum MergeKind {
    /// The consulted party joins the first call.
    Consultation,
    /// The selected calls are joined.
    Selected,
    /// The invited party joins a running conference.
    Invitation,
}

/// What is shown once parties have been brought together: the prompt, after what
/// is announced, then the list of the conference on this call.
#[derive(Debug, PartialEq, Eq)]
pub struct MergeShown {
    pub prompt: PhoneCommand,
    pub list: Option<CallId>,
}

/// The call on which it is shown that parties were brought together, and how.
pub open spec fn merge_shown_spec(session: ConferenceSession, kind: MergeKind) -> Option<
    (CallId, Prompt),
> {
    match kind {
        MergeKind::Consultation => Some(
            (session.consultation_handset_call_id, Prompt::ConferenceConnected),
        ),
        MergeKind::Selected => Some(
            (session.original_handset_call_id, Prompt::ConferenceConnected),
        ),
        MergeKind::Invitation => match session.pending_invite {
            Some(invite) => Some((invite.handset_call_id, Prompt::ParticipantAdded)),
            None => None,
        },
    }
}

/// What is shown once parties have been brought together; nothing where the
/// controller did not make the change. The list follows where the settings of the
/// session's station ask for it.
pub fn finish_merge(
    access: &Access,
    session: &ConferenceSession,
    kind: MergeKind,
    committed: bool,
) -> (shown: Option<MergeShown>)
    ensures
        shown == if !committed {
            None
        } else {
            match merge_shown_spec(*session, kind) {
                Some((call_id, prompt)) => Some(
                    MergeShown {
                        prompt: commands::prompt_command(session.device_id, call_id, 4, prompt),
                        list: if call_control::shows_list_spec(
                            access.shared,
                            session.device_id@,
                        ) {
                            Some(session.original_handset_call_id)
                        } else {
                            None
                        },
                    },
                ),
                None => None,
            }
        },
{
    if !committed {
        return None;
    }
    let (call_id, prompt) = match kind {
        MergeKind::Consultation => (
            session.consultation_handset_call_id,
            Prompt::ConferenceConnected,
        ),
        MergeKind::Selected => (session.original_handset_call_id, Prompt::ConferenceConnected),
        MergeKind::Invitation => match &session.pending_invite {
            Some(invite) => (invite.handset_call_id, Prompt::ParticipantAdded),
            None => return None,
        },
    };
    Some(
        MergeShown {
            prompt: show_prompt(session.device_id.clone(), call_id, 4, prompt),
            list: show_conference_list_if_configured(access, session),
        },
    )
}

/// A change is taken back in reverse: what the last effect did is undone first,
/// and nothing that did not happen is undone.
pub proof fn law_compensation_reverses_what_happened(
    effects: Seq<DriverEffect>,
    done: nat,
    i: int,
)
    requires
        done <= effects.len(),
        0 <= i < compensation_spec(effects, done).len(),
    ensures
        ({
            let forward = effects.take(done as int).filter_map(inverse());
            &&& compensation_spec(effects, done).len() == forward.len()
            &&& compensation_spec(effects, done)[i] == forward[forward.len() - 1 - i]
        }),
{
}

/// Taking a change of music on hold back twice gives the change itself.
pub proof fn law_inverse_of_inverse(effect: DriverEffect)
    ensures
        inverse()(effect) matches Some(undone) ==> inverse()(undone) == Some(effect),
{
}

/// Nobody but the owner of a running conference changes it from a list.
pub proof fn law_lists_obey_their_owner(
    session: ConferenceSession,
    device_id: DeviceId,
    action: ConferenceListAction,
    actions_available: bool,
)
    requires
        session.device_id@ != device_id@ || session.phase != ConferencePhase::Active,
    ensures
        list_step_spec(Some(session), device_id, action, actions_available)
            == ConferenceListStep::Ignore,
{
}

/// The owner of a running conference mutes with Mute and unmutes with Unmute,
/// exactly the participant that was chosen; nothing else on the list does either.
pub proof fn law_list_choices_mute_and_unmute(
    session: ConferenceSession,
    device_id: DeviceId,
    action: ConferenceListAction,
    actions_available: bool,
    step: ConferenceListStep,
)
    requires
        session.phase == ConferencePhase::Active,
        session.device_id@ == device_id@,
        call_ensures(
            handle_conference_list_action,
            (Some(&session), device_id, action, actions_available),
            step,
        ),
    ensures
        step is SetMuted <==> action is Mute || action is Unmute,
        step matches ConferenceListStep::SetMuted { participant_id, muted } ==> {
            &&& muted <==> action is Mute
            &&& action is Mute ==> participant_id == action->Mute_participant_id
            &&& action is Unmute ==> participant_id == action->Unmute_participant_id
        },
        step is SetModerator <==> action is Promote || action is Demote,
        step matches ConferenceListStep::SetModerator { participant_id, moderator } ==> {
            &&& moderator <==> action is Promote
            &&& action is Promote ==> participant_id == action->Promote_participant_id
            &&& action is Demote ==> participant_id == action->Demote_participant_id
        },
        step is Remove <==> action is Remove,
        step matches ConferenceListStep::Remove(removed) ==> removed
            == action->Remove_participant_id,
        step is End <==> action is End,
        action is Participant ==> (step is ShowParticipantActions || step is ShowLabel
            || step is Ignore),
{
}

/// Nothing is done from a conference list by anyone but the owner of a running
/// conference.
pub proof fn law_lists_are_for_the_owner(
    session: Option<&ConferenceSession>,
    device_id: DeviceId,
    call_id: CallId,
    action: ConferenceListAction,
    actions_available: bool,
    step: ConferenceListStep,
    refusal: Option<PhoneCommand>,
)
    requires
        call_ensures(
            handle_conference_list_action,
            (session, device_id, action, actions_available),
            step,
        ),
        call_ensures(show_conference_list, (session, device_id, call_id), refusal),
    ensures
        ({
            let owned = session is Some && session->0.phase == ConferencePhase::Active
                && session->0.device_id@ == device_id@;
            &&& !owned ==> step is Ignore
            &&& owned && !(action is Participant) ==> !(step is Ignore)
            &&& refusal is None <==> owned
            &&& refusal matches Some(shown) ==> shown.device_id == device_id && (
            shown.action matches PhoneCommandAction::DisplayPrompt {
                call_id: shown_on,
                prompt,
                ..
            } && shown_on == call_id && prompt == Prompt::NoActiveConference)
        }),
{
}

/// Choosing a participant shows what can be done about it, or who it is where
/// nothing can; one that is not there is ignored. The label is the name, and the
/// number where there is no name.
pub proof fn law_chosen_participants_are_shown(
    session: ConferenceSession,
    device_id: DeviceId,
    conference_id: ConferenceId,
    chosen: ParticipantId,
    actions_available: bool,
    step: ConferenceListStep,
    i: int,
)
    requires
        session.phase == ConferencePhase::Active,
        session.device_id@ == device_id@,
        call_ensures(
            handle_conference_list_action,
            (
                Some(&session),
                device_id,
                (ConferenceListAction::Participant { conference_id, participant_id: chosen }),
                actions_available,
            ),
            step,
        ),
        0 <= i <= session.participants@.len(),
        forall|j: int| 0 <= j < i ==> (#[trigger] session.participants@[j]).id != chosen,
    ensures
        i == session.participants@.len() ==> step is Ignore,
        i < session.participants@.len() && session.participants@[i].id == chosen ==> {
            &&& actions_available <==> step == ConferenceListStep::ShowParticipantActions(chosen)
            &&& !actions_available ==> (step matches ConferenceListStep::ShowLabel(shown)
                && shown.device_id == device_id && (
            shown.action matches PhoneCommandAction::DisplayText { call_id, text, .. } && call_id
                == session.original_handset_call_id && text@ == (if session.participants@[i].display_name@.len()
                > 0 {
                session.participants@[i].display_name@
            } else {
                session.participants@[i].number@
            })))
        },
{
    let p = is_participant(chosen);
    if i == session.participants@.len() {
        lookup::lemma_first_none(session.participants@, p);
    } else if session.participants@[i].id == chosen {
        lookup::lemma_first_is(session.participants@, p, i);
    }
}

/// A barge joins the call on the line of the station with its codec, in the way
/// that was asked for, and is refused for want of a codec alone.
pub proof fn law_barges_need_a_line_and_a_codec<'a>(
    access: &'a Access,
    device_id: DeviceId,
    call_id: CallId,
    line_instance: u32,
    codec: Option<Codec>,
    mode: BargeMode,
    action: BargeKeyAction<'a>,
)
    requires
        call_ensures(
            handle_barge_soft_key,
            (access, device_id, call_id, line_instance, codec, mode),
            action,
        ),
    ensures
        ({
            let line = access.shared.binding_spec(device_id@, line_instance);
            &&& action is Ignore <==> line is None
            &&& action is Barge <==> line is Some && codec is Some
            &&& action matches BargeKeyAction::Barge { binding, codec: used, mode: asked }
                ==> line == Some(*binding) && codec == Some(used) && asked == mode
            &&& action matches BargeKeyAction::Show(shown) ==> shown.device_id == device_id && (
            shown.action matches PhoneCommandAction::DisplayPrompt {
                call_id: shown_on,
                prompt,
                ..
            } && shown_on == call_id && prompt == Prompt::BargeCodecUnavailable)
        }),
{
}

/// Different reasons to refuse a barge are told apart, except that a call which is
/// not elsewhere counts as unavailable; a call that was joined may be recorded once
/// the handset has it.
pub proof fn law_barges_are_told_apart_and_recorded(
    access: &Access,
    call_id: CallId,
    confirmed: bool,
    recordable: Option<PbxCallId>,
    left: BargeRejection,
    right: BargeRejection,
    left_prompt: Prompt,
    right_prompt: Prompt,
    i: int,
)
    requires
        call_ensures(finish_barge, (access, call_id, confirmed), recordable),
        call_ensures(barge_rejection_prompt, (left,), left_prompt),
        call_ensures(barge_rejection_prompt, (right,), right_prompt),
        0 <= i < access.shared.controller.appearances@.len(),
        access.shared.controller.appearances@[i].sccp_id == call_id,
        forall|j: int|
            0 <= j < i ==> (#[trigger] access.shared.controller.appearances@[j]).sccp_id
                != call_id,
    ensures
        left_prompt == right_prompt <==> left == right || (left == BargeRejection::Unavailable
            && right == BargeRejection::NotRemote) || (left == BargeRejection::NotRemote && right
            == BargeRejection::Unavailable),
        left == BargeRejection::Private <==> left_prompt == Prompt::PrivateCall,
        left == BargeRejection::Capability <==> left_prompt == Prompt::BargeCodecUnavailable,
        left == BargeRejection::Conflict <==> left_prompt == Prompt::AnotherSharedActionWon,
        left == BargeRejection::AlreadyBarged <==> left_prompt == Prompt::AnotherBargeIsActive,
        recordable is Some <==> confirmed,
        recordable matches Some(call) ==> call
            == access.shared.controller.appearances@[i].pbx_id,
{
    lookup::lemma_first_is(
        access.shared.controller.appearances@,
        controller::is_call(call_id),
        i,
    );
}

/// The join key enters the call that another station is on, as a conference, and
/// joins the selected calls otherwise, where the station may hold conferences.
pub proof fn law_join_keys_enter_remote_calls<'a>(
    access: &'a Access,
    device_id: DeviceId,
    call_id: CallId,
    action: JoinKeyAction<'a>,
    i: int,
    d: int,
)
    requires
        call_ensures(handle_join_soft_key, (access, &device_id, call_id), action),
        0 <= i < access.shared.controller.appearances@.len(),
        access.shared.controller.appearances@[i].sccp_id == call_id,
        forall|j: int|
            0 <= j < i ==> (#[trigger] access.shared.controller.appearances@[j]).sccp_id
                != call_id,
        0 <= d < access.shared.config.devices@.len(),
        access.shared.config.devices@[d].id@ == device_id@,
        forall|j: int|
            0 <= j < d ==> (#[trigger] access.shared.config.devices@[j]).id@ != device_id@,
    ensures
        action is Barge <==> access.shared.controller.appearances@[i].state
            == CallState::RemoteInUse,
        action matches JoinKeyAction::Barge { mode } ==> mode == BargeMode::Conference,
        action matches JoinKeyAction::Join { permitted, policy } ==> {
            &&& permitted <==> access.shared.config.devices@[d].conference.allowed
            &&& policy is Some && *policy->0 == access.shared.config.devices@[d].conference
        },
{
    lookup::lemma_first_is(
        access.shared.controller.appearances@,
        controller::is_call(call_id),
        i,
    );
    lookup::lemma_first_is(
        access.shared.config.devices@,
        config::is_device(device_id@),
        d,
    );
}

/// The conference key brings a consulted party in from the consultation, takes an
/// invited party in from its call, and invites from the call of a moderator while
/// nobody is invited; everything else in a conference is refused.
pub proof fn law_conference_keys_follow_the_conference<'a>(
    access: &'a Access,
    session: ConferenceSession,
    device_id: DeviceId,
    call_id: CallId,
    line_instance: u32,
    codec: Option<Codec>,
    action: ConferenceKeyAction<'a>,
)
    requires
        call_ensures(
            handle_conference_soft_key,
            (access, Some(&session), device_id, call_id, line_instance, codec),
            action,
        ),
    ensures
        action is Confirm <==> session.phase == ConferencePhase::Consultation
            && session.consultation_handset_call_id == call_id,
        action is ConfirmInvite <==> session.phase == ConferencePhase::Active
            && session.pending_invite is Some && session.pending_invite->0.handset_call_id
            == call_id,
        action is Invite <==> session.phase == ConferencePhase::Active
            && session.pending_invite is None && exists|i: int|
            0 <= i < session.participants@.len() && (#[trigger] session.participants@[i]).moderator
                && session.participants@[i].handset_call_id == call_id,
        !(action is Consult),
        action matches ConferenceKeyAction::Show(shown) ==> shown.device_id == device_id && (
        shown.action matches PhoneCommandAction::DisplayPrompt { call_id: shown_on, prompt, .. }
            && shown_on == call_id && (prompt == Prompt::ConferenceInvitePending <==> session.phase
            == ConferencePhase::Active) && (prompt == Prompt::ConferenceAlreadyActive
            <==> session.phase != ConferencePhase::Active)),
{
    let p = moderates(call_id);
    if lookup::some(session.participants@, p) {
        let i = choose|i: int|
            0 <= i < session.participants@.len() && p(#[trigger] session.participants@[i]);
        assert(session.participants@[i].moderator);
    }
    if exists|i: int|
        0 <= i < session.participants@.len() && (#[trigger] session.participants@[i]).moderator
            && session.participants@[i].handset_call_id == call_id {
        let i = choose|i: int|
            0 <= i < session.participants@.len() && (#[trigger] session.participants@[i]).moderator
                && session.participants@[i].handset_call_id == call_id;
        assert(p(session.participants@[i]));
    }
}

/// Another party is consulted for a call of the station, on the line that the key
/// names and on that of the call where it names none; an invitation needs the
/// permission to hold conferences, a first consultation leaves that to the
/// controller.
pub proof fn law_consultations_use_the_selected_line<'a>(
    access: &'a Access,
    device_id: DeviceId,
    call_id: CallId,
    line_instance: u32,
    codec: Option<Codec>,
    consulted: ConferenceKeyAction<'a>,
    invited: ConsultationAction<'a>,
    line: Option<u32>,
    i: int,
    d: int,
)
    requires
        call_ensures(
            handle_conference_soft_key,
            (access, None::<&ConferenceSession>, device_id, call_id, line_instance, codec),
            consulted,
        ),
        call_ensures(
            start_conference_invite,
            (access, device_id, call_id, line_instance, codec),
            invited,
        ),
        call_ensures(selected_line, (access, &device_id, call_id, line_instance), line),
        0 <= i < access.shared.controller.appearances@.len(),
        access.shared.controller.appearances@[i].sccp_id == call_id,
        forall|j: int|
            0 <= j < i ==> (#[trigger] access.shared.controller.appearances@[j]).sccp_id
                != call_id,
        0 <= d < access.shared.config.devices@.len(),
        access.shared.config.devices@[d].id@ == device_id@,
        forall|j: int|
            0 <= j < d ==> (#[trigger] access.shared.config.devices@[j]).id@ != device_id@,
    ensures
        ({
            let call = access.shared.controller.appearances@[i];
            let conference = access.shared.config.devices@[d].conference;
            let bound = access.shared.binding_spec(device_id@, line->0);
            &&& line is Some <==> call.device_id@ == device_id@
            &&& line matches Some(number) ==> number == (if line_instance != 0 {
                line_instance
            } else {
                call.line_instance
            })
            &&& consulted matches ConferenceKeyAction::Consult(first) && {
                &&& first is Prepare <==> line is Some && bound is Some && codec is Some
                &&& first matches ConsultationAction::Prepare {
                    binding,
                    codec: used,
                    permitted,
                    policy,
                } ==> bound == Some(*binding) && codec == Some(used) && (permitted
                    <==> conference.allowed) && policy is Some && *policy->0 == conference
                &&& first is Show <==> line is Some && bound is Some && codec is None
            }
            &&& invited is Prepare <==> line is Some && bound is Some && codec is Some
                && conference.allowed
            &&& invited matches ConsultationAction::Prepare {
                binding,
                codec: used,
                permitted,
                policy,
            } ==> bound == Some(*binding) && codec == Some(used) && permitted && policy is Some
                && *policy->0 == conference
            &&& invited is Ignore <==> line is None
        }),
{
    lookup::lemma_first_is(
        access.shared.controller.appearances@,
        controller::is_call(call_id),
        i,
    );
    lookup::lemma_first_is(
        access.shared.config.devices@,
        config::is_device(device_id@),
        d,
    );
}

/// A room is dialed into from a call of the station on the line that was named,
/// exactly where the line allows it and has a destination.
pub proof fn law_rooms_are_dialed_from_lines_that_allow_it<'a>(
    access: &'a Access,
    device_id: DeviceId,
    call_id: CallId,
    line_instance: u32,
    action: DestinationAction<'a>,
    i: int,
)
    requires
        call_ensures(
            handle_conference_destination,
            (access, device_id, call_id, line_instance),
            action,
        ),
        0 <= i < access.shared.controller.appearances@.len(),
        access.shared.controller.appearances@[i].sccp_id == call_id,
        forall|j: int|
            0 <= j < i ==> (#[trigger] access.shared.controller.appearances@[j]).sccp_id
                != call_id,
    ensures
        ({
            let call = access.shared.controller.appearances@[i];
            let line = access.shared.binding_spec(device_id@, line_instance);
            &&& action is Ignore <==> call.device_id@ != device_id@ || call.line_instance
                != line_instance
            &&& action is Begin ==> line is Some && line->0.conference_dialing is Some
                && line->0.conference_dialing->0.enabled
                && line->0.conference_dialing->0.destination is Some
            &&& !(action is Ignore) && line is Some && line->0.conference_dialing is Some
                && line->0.conference_dialing->0.enabled
                && line->0.conference_dialing->0.destination is Some ==> action is Begin
            &&& action matches DestinationAction::Begin { destination, application_options }
                ==> line->0.conference_dialing->0.destination == Some(*destination)
                && *application_options == line->0.conference_dialing->0.application_options
            &&& action matches DestinationAction::RefuseAndHangUp(shown) ==> shown.device_id
                == device_id && (shown.action matches PhoneCommandAction::DisplayPrompt {
                call_id: shown_on,
                prompt,
                ..
            } && shown_on == call_id && prompt == Prompt::ConferenceDialingUnavailable)
        }),
{
    lookup::lemma_first_is(
        access.shared.controller.appearances@,
        controller::is_call(call_id),
        i,
    );
}

/// What the controller asks for to dial into a room is started unchanged, and a
/// refusal ends the call; the reservation is the one that the room is started
/// under.
pub proof fn law_rooms_are_started_under_their_reservation(
    device_id: DeviceId,
    call_id: CallId,
    effects: Vec<DriverEffect>,
    asked: Option<Vec<DriverEffect>>,
    begun: DestinationBegun,
    mutation: Option<ConferenceMutationToken>,
    i: int,
)
    requires
        call_ensures(conference_destination_begun, (device_id, call_id, asked), begun),
        call_ensures(destination_mutation, (&effects,), mutation),
        0 <= i <= effects@.len(),
        forall|j: int|
            0 <= j < i ==> !((#[trigger] effects@[j]) matches DriverEffect::Backend(done)
                && done is StartConferenceDestination),
    ensures
        begun is Start <==> asked is Some,
        begun matches DestinationBegun::Start(started) ==> asked == Some(started),
        begun matches DestinationBegun::RefuseAndHangUp(shown) ==> shown.device_id == device_id,
        i == effects@.len() ==> mutation is None,
        i < effects@.len() ==> (effects@[i] matches DriverEffect::Backend(
            PbxEffect::StartConferenceDestination { mutation: under, .. },
        ) ==> mutation == Some(under)),
{
    let p = started_under();
    assert forall|j: int| 0 <= j < i implies !p(#[trigger] effects@[j]) by {}
    if i == effects@.len() {
        lookup::lemma_first_none(effects@, p);
    } else if p(effects@[i]) {
        lookup::lemma_first_is(effects@, p, i);
    }
}

/// A room that failed to start names every call that was to be held for it, and
/// as completed those that some finished effect held.
pub proof fn law_failed_rooms_name_the_held_calls(
    device_id: DeviceId,
    call_id: CallId,
    effects: Vec<DriverEffect>,
    run: RunState,
    failure: Option<DestinationFailure>,
    held: PbxCallId,
)
    requires
        run.wf(effects@.len()),
        call_ensures(
            execute_conference_destination_start,
            (device_id, call_id, &effects, run),
            failure,
        ),
    ensures
        failure is Some <==> run is Failed,
        failure matches Some(failure) ==> {
            &&& failure.held@.contains(held) <==> exists|i: int|
                0 <= i < effects@.len() && #[trigger] effects@[i] == DriverEffect::Backend(
                    PbxEffect::Hold { call_id: held },
                )
            &&& failure.completed@.contains(held) <==> exists|i: int|
                0 <= i < run->Failed_done && #[trigger] effects@[i] == DriverEffect::Backend(
                    PbxEffect::Hold { call_id: held },
                )
            &&& failure.shown.device_id == device_id
        },
{
    if let RunState::Failed { done } = run {
        let before = effects@.take(done as int);
        lookup::lemma_filter_map_member(effects@, held_call(), held);
        lookup::lemma_filter_map_member(before, held_call(), held);
        assert forall|i: int| 0 <= i < done implies #[trigger] effects@[i] == before[i] by {}
        if before.filter_map(held_call()).contains(held) {
            let i = choose|i: int|
                0 <= i < before.len() && held_call()(#[trigger] before[i]) == Some(held);
            assert(effects@[i] == before[i]);
        }
        if exists|i: int|
            0 <= i < done && #[trigger] effects@[i] == DriverEffect::Backend(
                PbxEffect::Hold { call_id: held },
            ) {
            let i = choose|i: int|
                0 <= i < done && #[trigger] effects@[i] == DriverEffect::Backend(
                    PbxEffect::Hold { call_id: held },
                );
            assert(held_call()(before[i]) == Some(held));
        }
        if exists|i: int|
            0 <= i < effects@.len() && #[trigger] effects@[i] == DriverEffect::Backend(
                PbxEffect::Hold { call_id: held },
            ) {
            let i = choose|i: int|
                0 <= i < effects@.len() && #[trigger] effects@[i] == DriverEffect::Backend(
                    PbxEffect::Hold { call_id: held },
                );
            assert(held_call()(effects@[i]) == Some(held));
        }
    }
}

/// A consultation that does not come about removes the channel of the other party
/// exactly if it was created, and hands back what its finished effects did.
pub proof fn law_failed_consultations_hand_back_their_progress(
    progress: Vec<ConferenceStartProgress>,
    channel: Option<PbxCallId>,
    run: RunState,
    end: ConsultationEnd,
    invited: ConsultationEnd,
)
    requires
        run.wf(progress@.len()),
        call_ensures(execute_conference_start, (&progress, channel, run), end),
        call_ensures(execute_conference_invite_start, (&progress, channel, run), invited),
    ensures
        invited == end,
        end is Complete <==> run is Complete,
        end is Stale <==> run is Stale,
        end is Abort <==> run is Failed,
        end matches ConsultationEnd::Abort { progress: reached, remove } ==> {
            &&& reached.channel_created <==> exists|i: int|
                0 <= i < run->Failed_done && (#[trigger] progress@[i]).channel_created
            &&& reached.active_leg_held <==> exists|i: int|
                0 <= i < run->Failed_done && (#[trigger] progress@[i]).active_leg_held
            &&& reached.active_handset_held <==> exists|i: int|
                0 <= i < run->Failed_done && (#[trigger] progress@[i]).active_handset_held
            &&& reached.channel_created ==> remove == channel
            &&& !reached.channel_created ==> remove is None
        },
        end matches ConsultationEnd::Stale { remove } ==> {
            &&& (exists|i: int|
                0 <= i < run->Stale_done && (#[trigger] progress@[i]).channel_created) ==> remove
                == channel
            &&& !(exists|i: int|
                0 <= i < run->Stale_done && (#[trigger] progress@[i]).channel_created)
                ==> remove is None
        },
{
    let done: int = match run {
        RunState::Failed { done } => done as int,
        RunState::Stale { done } => done as int,
        _ => 0,
    };
    let first = progress@.take(done);
    assert forall|i: int| 0 <= i < done implies #[trigger] progress@[i] == first[i] by {}
    lemma_some_of_first(progress@, done, brings_channel());
    lemma_some_of_first(progress@, done, brings_leg_hold());
    lemma_some_of_first(progress@, done, brings_handset_hold());
}

proof fn lemma_some_of_first<T>(s: Seq<T>, count: int, p: spec_fn(T) -> bool)
    requires
        0 <= count <= s.len(),
    ensures
        lookup::some(s.take(count), p) <==> exists|i: int| 0 <= i < count && p(#[trigger] s[i]),
{
    if lookup::some(s.take(count), p) {
        let i = choose|i: int| 0 <= i < count && p(#[trigger] s.take(count)[i]);
        assert(p(s[i]));
    }
    if exists|i: int| 0 <= i < count && p(#[trigger] s[i]) {
        let i = choose|i: int| 0 <= i < count && p(#[trigger] s[i]);
        assert(p(s.take(count)[i]));
    }
}

/// A merge is committed exactly if all its effects ran. One that failed says
/// whether a bridge was made and whether a call was resumed by then, and gives up
/// the channel of the party that was to be brought in; calls that were there before
/// are kept.
pub proof fn law_merges_undo_what_they_did(
    session: ConferenceSession,
    effects: Vec<DriverEffect>,
    run: RunState,
    consulted: MergeEnd,
    joined: MergeEnd,
    invited: Option<MergeEnd>,
    call: PbxCallId,
)
    requires
        run.wf(effects@.len()),
        call_ensures(execute_conference_merge, (&session, &effects, run), consulted),
        call_ensures(execute_selected_conference_merge, (&session, &effects, run), joined),
        call_ensures(execute_conference_invite_merge, (&session, &effects, run), invited),
    ensures
        consulted is Commit <==> run is Complete,
        joined is Commit <==> run is Complete,
        invited is Some <==> session.pending_invite is Some,
        invited matches Some(end) ==> (end is Commit <==> run is Complete),
        consulted matches MergeEnd::Stale { remove } ==> remove == Some(
            session.consultation_call_id,
        ),
        joined matches MergeEnd::Stale { remove } ==> remove is None,
        consulted is Abort <==> run is Failed,
        joined is AbortJoin <==> run is Failed,
        consulted matches MergeEnd::Abort { bridge_created, leg_held, channel, shown } ==> {
            &&& channel == session.consultation_call_id
            &&& shown.device_id == session.device_id
            &&& bridge_created <==> exists|i: int|
                0 <= i < run->Failed_done && ((#[trigger] effects@[i]) matches
                    DriverEffect::Backend(PbxEffect::Bridge { operation }) && operation is Create)
            &&& !leg_held <==> exists|i: int|
                0 <= i < run->Failed_done && ((#[trigger] effects@[i]) matches
                    DriverEffect::Backend(resumed) && resumed is Resume)
        },
        joined matches MergeEnd::AbortJoin { bridge_created, resumed, shown } ==> {
            &&& shown.device_id == session.device_id
            &&& bridge_created <==> exists|i: int|
                0 <= i < run->Failed_done && ((#[trigger] effects@[i]) matches
                    DriverEffect::Backend(PbxEffect::Bridge { operation }) && operation is Create)
            &&& resumed@.contains(call) <==> exists|i: int|
                0 <= i < run->Failed_done && #[trigger] effects@[i] == DriverEffect::Backend(
                    PbxEffect::Resume { call_id: call },
                )
        },
        invited matches Some(MergeEnd::Abort { bridge_created, leg_held, channel, shown }) ==> {
            &&& run is Failed
            &&& !bridge_created
            &&& channel == session.pending_invite->0.pbx_call_id
            &&& shown.device_id == session.device_id
            &&& !leg_held <==> exists|i: int|
                0 <= i < run->Failed_done && ((#[trigger] effects@[i]) matches
                    DriverEffect::Backend(resumed) && resumed is Resume)
        },
        invited matches Some(MergeEnd::Stale { remove }) ==> remove == Some(
            session.pending_invite->0.pbx_call_id,
        ),
{
    if let RunState::Failed { done } = run {
        let before = effects@.take(done as int);
        assert forall|i: int| 0 <= i < done implies #[trigger] effects@[i] == before[i] by {}
        lemma_some_of_first(effects@, done as int, creates_bridge());
        lookup::lemma_filter_map_nothing(before, resumed_call());
        lookup::lemma_filter_map_member(before, resumed_call(), call);
        if exists|i: int|
            0 <= i < done && ((#[trigger] effects@[i]) matches DriverEffect::Backend(
                PbxEffect::Bridge { operation },
            ) && operation is Create) {
            let i = choose|i: int|
                0 <= i < done && ((#[trigger] effects@[i]) matches DriverEffect::Backend(
                    PbxEffect::Bridge { operation },
                ) && operation is Create);
            assert(creates_bridge()(effects@[i]));
        }
        if exists|i: int|
            0 <= i < done && ((#[trigger] effects@[i]) matches DriverEffect::Backend(resumed)
                && resumed is Resume) {
            let i = choose|i: int|
                0 <= i < done && ((#[trigger] effects@[i]) matches DriverEffect::Backend(resumed)
                    && resumed is Resume);
            assert(resumed_call()(before[i]) is Some);
        }
        if before.filter_map(resumed_call()).len() > 0 {
            let i = choose|i: int|
                0 <= i < before.len() && resumed_call()(#[trigger] before[i]) is Some;
            assert(effects@[i] == before[i]);
        }
        if before.filter_map(resumed_call()).contains(call) {
            let i = choose|i: int|
                0 <= i < before.len() && resumed_call()(#[trigger] before[i]) == Some(call);
            assert(effects@[i] == before[i]);
        }
        if exists|i: int|
            0 <= i < done && #[trigger] effects@[i] == DriverEffect::Backend(
                PbxEffect::Resume { call_id: call },
            ) {
            let i = choose|i: int|
                0 <= i < done && #[trigger] effects@[i] == DriverEffect::Backend(
                    PbxEffect::Resume { call_id: call },
                );
            assert(resumed_call()(before[i]) == Some(call));
        }
    }
}

/// A bridge that is not there yet is waited for, only by a consultation that is
/// merged, for less than a second, and only while the reservation holds; every
/// other failure is final.
pub proof fn law_only_missing_bridges_are_waited_for<'a>(
    effect: DriverEffect,
    error: MergeError<'a>,
    elapsed_ms: u64,
    active: bool,
    failed: MergeAttempt,
    waited: MergeAttempt,
    succeeded: MergeAttempt,
)
    requires
        call_ensures(
            execute_conference_merge_effect,
            (&effect, &(MergeEvent::Failed { error, elapsed_ms, active })),
            failed,
        ),
        call_ensures(
            execute_conference_merge_effect,
            (&effect, &(MergeEvent::Waited { active })),
            waited,
        ),
        call_ensures(
            execute_conference_merge_effect,
            (&effect, &MergeEvent::Succeeded),
            succeeded,
        ),
    ensures
        succeeded is Succeeded,
        waited is Retry <==> active,
        waited is Stale <==> !active,
        failed is Wait ==> active && elapsed_ms < 1000 && error is NotFound && (
        effect matches DriverEffect::Backend(PbxEffect::Bridge { operation })
            && operation is MergeConsultation),
        failed matches MergeAttempt::Wait { interval_ms } ==> interval_ms == 20,
        failed is Failed || failed is Wait || failed is Stale,
        failed is Stale ==> !active,
        error is Other ==> failed is Failed,
        elapsed_ms >= 1000 ==> failed is Failed,
{
}

/// Parties that were brought together see it on the call that brought them
/// together, and nothing is shown of a change that was not made.
pub proof fn law_merges_are_shown_where_they_were_made(
    access: &Access,
    session: ConferenceSession,
    kind: MergeKind,
    committed: bool,
    shown: Option<MergeShown>,
    list: Option<CallId>,
    d: int,
)
    requires
        call_ensures(finish_merge, (access, &session, kind, committed), shown),
        call_ensures(show_conference_list_if_configured, (access, &session), list),
        0 <= d < access.shared.config.devices@.len(),
        access.shared.config.devices@[d].id@ == session.device_id@,
        forall|j: int|
            0 <= j < d ==> (#[trigger] access.shared.config.devices@[j]).id@
                != session.device_id@,
    ensures
        list is Some <==> access.shared.config.devices@[d].conference.show_conference_list,
        list matches Some(call) ==> call == session.original_handset_call_id,
        shown is Some <==> committed && (kind == MergeKind::Invitation
            ==> session.pending_invite is Some),
        shown matches Some(shown) ==> {
            &&& shown.list == list
            &&& shown.prompt.device_id == session.device_id
            &&& shown.prompt.action matches PhoneCommandAction::DisplayPrompt {
                call_id,
                prompt,
                ..
            } && (prompt == Prompt::ParticipantAdded <==> kind == MergeKind::Invitation) && (prompt
                == Prompt::ConferenceConnected <==> kind != MergeKind::Invitation) && (kind
                == MergeKind::Consultation ==> call_id == session.consultation_handset_call_id)
                && (kind == MergeKind::Selected ==> call_id == session.original_handset_call_id)
                && (kind == MergeKind::Invitation ==> call_id
                == session.pending_invite->0.handset_call_id)
        },
{
    lookup::lemma_first_is(
        access.shared.config.devices@,
        config::is_device(session.device_id@),
        d,
    );
}

/// A change of a participant is committed exactly if all its effects ran, given up
/// where one failed, and otherwise left to whoever ended it; only a change of role
/// takes anything back.
pub proof fn law_participant_changes_commit_after_their_effects(
    session: ConferenceSession,
    muted: bool,
    moderator: bool,
    effects: Vec<DriverEffect>,
    run: RunState,
    mute: ParticipantStep,
    role: ParticipantStep,
    removal: ParticipantStep,
)
    requires
        run.wf(effects@.len()),
        call_ensures(set_conference_participant_muted, (&session, muted, &effects, run), mute),
        call_ensures(
            set_conference_participant_moderator,
            (&session, moderator, &effects, run),
            role,
        ),
        call_ensures(remove_conference_participant, (&session, &effects, run), removal),
    ensures
        mute is Commit <==> run is Complete,
        role is Commit <==> run is Complete,
        removal is Commit <==> run is Complete,
        mute is Abort <==> run is Failed,
        role is Abort <==> run is Failed,
        removal is AbortRemoval <==> run is Failed,
        mute is Undo <==> run is Stale,
        role is Undo <==> run is Stale,
        removal is Undo <==> run is Stale,
        mute matches ParticipantStep::Undo { undo, error } ==> undo@.len() == 0 && error
            == ServiceProviderError::ConferenceConflict,
        removal matches ParticipantStep::Undo { undo, error } ==> undo@.len() == 0 && error
            == ServiceProviderError::ConferenceConflict,
        role matches ParticipantStep::Undo { error, .. } ==> error
            == ServiceProviderError::ConferenceConflict,
        mute matches ParticipantStep::Abort { undo, shown, error } ==> undo@.len() == 0
            && shown.device_id == session.device_id && error == ServiceProviderError::Delivery,
        role matches ParticipantStep::Abort { shown, error, .. } ==> shown.device_id
            == session.device_id && error == ServiceProviderError::Delivery,
{
}

/// Changes of music on hold that were made for a role are taken back in reverse
/// order, each by its opposite on the same participant and call.
pub proof fn law_role_changes_switch_music_back(
    effects: Vec<DriverEffect>,
    done: usize,
    undo: Vec<DriverEffect>,
    effect: DriverEffect,
)
    requires
        done <= effects@.len(),
        call_ensures(compensation, (&effects, done), undo),
    ensures
        undo@.contains(effect) <==> exists|i: int|
            0 <= i < done && ((#[trigger] effects@[i]) matches DriverEffect::Backend(
                PbxEffect::Bridge {
                    operation: BridgeOperation::SetParticipantMusicOnHold {
                        bridge_id,
                        participant_id,
                        call_id,
                        class,
                        enabled,
                    },
                },
            ) && effect == DriverEffect::Backend(
                PbxEffect::Bridge {
                    operation: BridgeOperation::SetParticipantMusicOnHold {
                        bridge_id,
                        participant_id,
                        call_id,
                        class,
                        enabled: !enabled,
                    },
                },
            )),
{
    let before = effects@.take(done as int);
    let forward = before.filter_map(inverse());
    lookup::lemma_filter_map_member(before, inverse(), effect);
    assert forall|i: int| 0 <= i < done implies #[trigger] effects@[i] == before[i] by {}
    if undo@.contains(effect) {
        let k = choose|k: int| 0 <= k < undo@.len() && undo@[k] == effect;
        assert(forward[forward.len() - 1 - k] == effect);
        let i = choose|i: int|
            0 <= i < before.len() && inverse()(#[trigger] before[i]) == Some(effect);
        assert(effects@[i] == before[i]);
    }
    if exists|i: int| 0 <= i < done && inverse()(#[trigger] effects@[i]) == Some(effect) {
        let i = choose|i: int| 0 <= i < done && inverse()(#[trigger] effects@[i]) == Some(effect);
        assert(inverse()(before[i]) == Some(effect));
        let k = choose|k: int| 0 <= k < forward.len() && forward[k] == effect;
        assert(undo@[forward.len() - 1 - k] == effect);
    }
    assert forall|i: int| 0 <= i < done implies (inverse()(#[trigger] effects@[i]) == Some(effect)
        <==> (effects@[i] matches DriverEffect::Backend(
        PbxEffect::Bridge {
            operation: BridgeOperation::SetParticipantMusicOnHold {
                bridge_id,
                participant_id,
                call_id,
                class,
                enabled,
            },
        },
    ) && effect == DriverEffect::Backend(
        PbxEffect::Bridge {
            operation: BridgeOperation::SetParticipantMusicOnHold {
                bridge_id,
                participant_id,
                call_id,
                class,
                enabled: !enabled,
            },
        },
    ))) by {}
}

/// A change that was made is announced as what it was, about the participant that
/// it was made to, and shown in the list; one that was not made is a conflict.
pub proof fn law_participant_changes_are_announced(
    session: ConferenceSession,
    participant_id: ParticipantId,
    muted: bool,
    committed: bool,
    gone: bool,
    aborted: bool,
    effects: Vec<DriverEffect>,
    mute: ParticipantEnd,
    role: ParticipantEnd,
    removal: ParticipantEnd,
    failed: ParticipantEnd,
)
    requires
        call_ensures(finish_mute, (participant_id, muted, committed), mute),
        call_ensures(finish_role_change, (&effects, committed), role),
        call_ensures(finish_removal, (participant_id, committed, gone), removal),
        call_ensures(finish_failed_removal, (&session, aborted, gone), failed),
    ensures
        mute.outcome is Ok <==> committed,
        mute.list <==> committed,
        committed && muted <==> mute.announce == Some(
            ConferenceAnnouncement::ParticipantMuted(participant_id),
        ),
        committed && !muted <==> mute.announce == Some(
            ConferenceAnnouncement::ParticipantUnmuted(participant_id),
        ),
        role.outcome is Ok <==> committed,
        role.list <==> committed,
        role.announce is None,
        committed ==> role.undo@.len() == 0,
        removal.outcome is Ok <==> gone,
        removal.list <==> gone && committed,
        gone && committed <==> removal.announce == Some(
            ConferenceAnnouncement::ParticipantRemoved(participant_id),
        ),
        failed.outcome is Ok <==> gone && !aborted,
        failed.shown is None <==> gone && !aborted,
        failed.announce is None && !failed.list,
        mute.outcome matches Err(error) ==> error == ServiceProviderError::ConferenceConflict,
        role.outcome matches Err(error) ==> error == ServiceProviderError::ConferenceConflict,
        removal.outcome matches Err(error) ==> error == ServiceProviderError::ConferenceConflict,
        failed.outcome matches Err(error) ==> error == ServiceProviderError::Delivery,
{
}

/// A conference that may not be ended says so on its own call, each reason in its
/// own words; one that is ended shows nothing.
pub proof fn law_refused_ends_are_told_apart(
    session: ConferenceSession,
    refusal: Option<ConferenceEndRejection>,
    shown: Option<PhoneCommand>,
)
    requires
        call_ensures(finish_conference_end, (&session, refusal), shown),
    ensures
        shown is Some <==> refusal is Some,
        shown matches Some(command) ==> command.device_id == session.device_id && (
        command.action matches PhoneCommandAction::DisplayPrompt { call_id, prompt, .. } && call_id
            == session.original_handset_call_id && (prompt == Prompt::ConferenceUnavailable
            <==> refusal == Some(ConferenceEndRejection::Unavailable)) && (prompt
            == Prompt::ModeratorAccessRequired <==> refusal == Some(
            ConferenceEndRejection::NotModerator,
        )) && (prompt == Prompt::ConferenceActionPending <==> refusal == Some(
            ConferenceEndRejection::Conflict,
        ))),
{
}

/// Whoever may not change a conference is told so, a participant that is not there
/// and the last moderator are named as such, whatever was to be changed; what a
/// moderator or a conflict stops is named by the change.
pub proof fn law_refused_participant_changes_are_told_apart(
    change: ParticipantChange,
    rejection: ConferenceParticipantRejection,
    prompt: Prompt,
)
    requires
        call_ensures(participant_rejection_prompt, (change, rejection), prompt),
    ensures
        prompt == Prompt::ConferenceUnavailable <==> rejection
            == ConferenceParticipantRejection::Unavailable,
        prompt == Prompt::ModeratorAccessRequired <==> rejection
            == ConferenceParticipantRejection::NotModerator,
        prompt == Prompt::ParticipantUnavailable <==> rejection
            == ConferenceParticipantRejection::InvalidParticipant,
        prompt == Prompt::AtLeastOneModeratorIsRequired <==> rejection
            == ConferenceParticipantRejection::LastModerator,
        prompt == Prompt::ModeratorCannotBeRemoved <==> rejection
            == ConferenceParticipantRejection::Moderator && change is Remove,
        prompt == Prompt::ModeratorCannotBeMuted <==> rejection
            == ConferenceParticipantRejection::Moderator && change is Mute,
        prompt == Prompt::ParticipantCannotBeRemoved <==> rejection
            == ConferenceParticipantRejection::Conflict && change is Remove,
{
}

/// An action on the list is about the conference that it names.
pub proof fn law_list_actions_name_their_conference(
    conference_id: ConferenceId,
    participant_id: ParticipantId,
    shown: ConferenceId,
    muted: ConferenceId,
    unmuted: ConferenceId,
    removed: ConferenceId,
    promoted: ConferenceId,
    demoted: ConferenceId,
    ended: ConferenceId,
)
    requires
        call_ensures(
            conference_list_target,
            ((ConferenceListAction::Participant { conference_id, participant_id }),),
            shown,
        ),
        call_ensures(
            conference_list_target,
            ((ConferenceListAction::Mute { conference_id, participant_id }),),
            muted,
        ),
        call_ensures(
            conference_list_target,
            ((ConferenceListAction::Unmute { conference_id, participant_id }),),
            unmuted,
        ),
        call_ensures(
            conference_list_target,
            ((ConferenceListAction::Remove { conference_id, participant_id }),),
            removed,
        ),
        call_ensures(
            conference_list_target,
            ((ConferenceListAction::Promote { conference_id, participant_id }),),
            promoted,
        ),
        call_ensures(
            conference_list_target,
            ((ConferenceListAction::Demote { conference_id, participant_id }),),
            demoted,
        ),
        call_ensures(
            conference_list_target,
            ((ConferenceListAction::End { conference_id }),),
            ended,
        ),
    ensures
        shown == conference_id && muted == conference_id && unmuted == conference_id && removed
            == conference_id && promoted == conference_id && demoted == conference_id && ended
            == conference_id,
{
}

/// What a refused request is told depends on what was asked: a disabled conference
/// and a call that is not connected are told apart, whatever the request.
pub proof fn law_refused_requests_are_told_why(
    request: ConferenceRequest,
    rejection: ConferenceRejection,
    prompt: Prompt,
)
    requires
        call_ensures(conference_rejection_prompt, (request, rejection), prompt),
    ensures
        prompt == Prompt::ConferenceDisabled <==> rejection is Disabled && (request is Join
            || request is Start),
        prompt == Prompt::ModeratorAccessRequired <==> rejection is Disabled && request is Invite,
        prompt == Prompt::SelectTwoConnectedCalls <==> rejection is NotConnected && request is Join,
        prompt == Prompt::ConnectTheConferenceFirst <==> rejection is NotConnected && request
            is Invite,
        prompt == Prompt::InviteIsNotConnected <==> rejection is NotConnected && request
            is ConfirmInvite,
        prompt == Prompt::ConnectTheCallFirst <==> rejection is NotConnected && request is Start,
        prompt == Prompt::ConsultationIsNotConnected <==> rejection is NotConnected && request
            is Confirm,
        prompt == Prompt::ConferenceSelectionUnavailable <==> rejection is Conflict && request
            is Join,
        prompt == Prompt::ConferenceInviteUnavailable <==> rejection is Conflict && request
            is Invite,
        prompt == Prompt::ConferenceAlreadyPending <==> rejection is Conflict && request is Start,
        prompt == Prompt::UnableToAddParticipant <==> rejection !is NotConnected && request
            is ConfirmInvite,
        rejection is Unavailable && request !is ConfirmInvite ==> prompt
            == Prompt::ConferenceUnavailable,
{
}

/// A prompt is shown on the call it is about, for its time.
pub proof fn law_prompts_are_shown_on_their_call(
    device_id: DeviceId,
    call_id: CallId,
    prompt: Prompt,
    command: PhoneCommand,
)
    requires
        call_ensures(display_conference_prompt, (device_id, call_id, prompt), command),
    ensures
        command.device_id == device_id,
        command.action matches PhoneCommandAction::DisplayPrompt {
            call_id: on,
            timeout_seconds,
            prompt: shown,
        } && on == call_id && timeout_seconds == 4 && shown == prompt,
{
}

/// Only a merge whose consultation is not there yet is tried again.
pub proof fn law_only_missing_consultations_are_tried_again(
    effect: DriverEffect,
    error: MergeError,
    transient: bool,
)
    requires
        call_ensures(is_transient_conference_bridge_readiness_error, (&effect, &error), transient),
    ensures
        transient ==> error is NotFound,
        transient ==> (effect matches DriverEffect::Backend(PbxEffect::Bridge { operation })
            && operation is MergeConsultation),
        (effect matches DriverEffect::Backend(PbxEffect::Bridge { operation }) && operation
            is MergeConsultation) && (error matches MergeError::NotFound { operation } && operation@
            == "merge conference consultation"@) ==> transient,
{
}

/// A merge that failed says so on the call that began it, and undoes a bridge
/// exactly if it made one; one that was overtaken undoes nothing.
pub proof fn law_failed_merges_are_told_and_undone(
    session: ConferenceSession,
    effects: Vec<DriverEffect>,
    run: RunState,
    end: MergeEnd,
    joined: MergeEnd,
    i: int,
)
    requires
        run.wf(effects@.len()),
        call_ensures(execute_conference_merge, (&session, &effects, run), end),
        call_ensures(execute_selected_conference_merge, (&session, &effects, run), joined),
        0 <= i < effects@.len(),
    ensures
        end is Commit <==> run is Complete,
        joined is Commit <==> run is Complete,
        end is Stale <==> run is Stale,
        joined is Stale <==> run is Stale,
        end is Abort <==> run is Failed,
        joined is AbortJoin <==> run is Failed,
        end matches MergeEnd::Stale { remove } ==> remove == Some(session.consultation_call_id),
        joined matches MergeEnd::Stale { remove } ==> remove is None,
        run matches RunState::Failed { done } ==> {
            &&& end matches MergeEnd::Abort { bridge_created, channel, shown, .. } && channel
                == session.consultation_call_id && shown.device_id == session.device_id
                && shown.action == (PhoneCommandAction::DisplayPrompt {
                call_id: session.original_handset_call_id,
                timeout_seconds: 4,
                prompt: Prompt::UnableToCreateConference,
            }) && (i < done && (effects@[i] matches DriverEffect::Backend(
                PbxEffect::Bridge { operation },
            ) && operation is Create) ==> bridge_created)
            &&& joined matches MergeEnd::AbortJoin { bridge_created, shown, .. } && shown.device_id
                == session.device_id && shown.action == (PhoneCommandAction::DisplayPrompt {
                call_id: session.original_handset_call_id,
                timeout_seconds: 4,
                prompt: Prompt::UnableToJoinCalls,
            }) && (i < done && (effects@[i] matches DriverEffect::Backend(
                PbxEffect::Bridge { operation },
            ) && operation is Create) ==> bridge_created)
        },
{
    if let RunState::Failed { done } = run {
        if i < done {
            assert(effects@.take(done as int)[i] == effects@[i]);
            if creates_bridge()(effects@[i]) {
                assert(creates_bridge()(effects@.take(done as int)[i]));
            }
        }
    }
}

/// Dialing a party that failed says so, and names the calls that were to be held and
/// those that were.
pub proof fn law_failed_dialing_is_told(
    device_id: DeviceId,
    call_id: CallId,
    effects: Vec<DriverEffect>,
    run: RunState,
    failure: Option<DestinationFailure>,
    held: PbxCallId,
)
    requires
        run.wf(effects@.len()),
        call_ensures(
            execute_conference_destination_start,
            (device_id, call_id, &effects, run),
            failure,
        ),
    ensures
        failure is Some <==> run is Failed,
        failure matches Some(told) ==> {
            &&& told.shown.device_id == device_id
            &&& told.shown.action == (PhoneCommandAction::DisplayPrompt {
                call_id,
                timeout_seconds: 4,
                prompt: Prompt::ConferenceDialingFailed,
            })
            &&& told.held@.contains(held) <==> exists|i: int|
                0 <= i < effects@.len() && #[trigger] effects@[i] == DriverEffect::Backend(
                    PbxEffect::Hold { call_id: held },
                )
        },
{
    let f = held_call();
    lookup::lemma_filter_map_member(effects@, f, held);
    if exists|i: int|
        0 <= i < effects@.len() && #[trigger] effects@[i] == DriverEffect::Backend(
            PbxEffect::Hold { call_id: held },
        ) {
        let i = choose|i: int|
            0 <= i < effects@.len() && #[trigger] effects@[i] == DriverEffect::Backend(
                PbxEffect::Hold { call_id: held },
            );
        assert(f(effects@[i]) == Some(held));
    }
    if exists|i: int| 0 <= i < effects@.len() && f(#[trigger] effects@[i]) == Some(held) {
        let i = choose|i: int| 0 <= i < effects@.len() && f(#[trigger] effects@[i]) == Some(held);
        assert(effects@[i] == DriverEffect::Backend(PbxEffect::Hold { call_id: held }));
    }
}

/// A removal that failed is none where the participant is gone after all; otherwise
/// it is told on the call of the session.
pub proof fn law_failed_removals_are_told(
    session: ConferenceSession,
    aborted: bool,
    gone: bool,
    end: ParticipantEnd,
)
    requires
        call_ensures(finish_failed_removal, (&session, aborted, gone), end),
    ensures
        end.outcome is Ok <==> !aborted && gone,
        end.shown is None <==> !aborted && gone,
        end.undo@.len() == 0 && end.announce is None && !end.list,
        end.shown matches Some(told) ==> told.device_id == session.device_id && told.action == (
        PhoneCommandAction::DisplayPrompt {
            call_id: session.original_handset_call_id,
            timeout_seconds: 4,
            prompt: Prompt::UnableToRemoveParticipant,
        }),
{
}

/// A refused change of a participant says what stood in its way.
pub proof fn law_refused_changes_are_told_why(
    change: ParticipantChange,
    rejection: ConferenceParticipantRejection,
    prompt: Prompt,
)
    requires
        call_ensures(participant_rejection_prompt, (change, rejection), prompt),
    ensures
        prompt == Prompt::ConferenceUnavailable <==> rejection is Unavailable,
        prompt == Prompt::ModeratorAccessRequired <==> rejection is NotModerator,
        prompt == Prompt::ParticipantUnavailable <==> rejection is InvalidParticipant,
        prompt == Prompt::AtLeastOneModeratorIsRequired <==> rejection is LastModerator,
        prompt == Prompt::ModeratorCannotBeRemoved <==> rejection is Moderator && change is Remove,
        prompt == Prompt::ModeratorCannotBeMuted <==> rejection is Moderator && change is Mute,
        prompt == Prompt::ParticipantCannotBeRemoved <==> rejection is Conflict && change is Remove,
        prompt == Prompt::ParticipantStateChanged <==> (rejection is Moderator && change is Role)
            || (rejection is Conflict && !(change is Remove)),
{
}

/// Inviting another party is prepared on the line and with the codec that are given,
/// where conferences are allowed; without a codec that is what is told.
pub proof fn law_invitations_need_a_codec_and_permission<'a>(
    access: &'a Access,
    device_id: DeviceId,
    call_id: CallId,
    line_instance: u32,
    codec: Option<Codec>,
    action: ConsultationAction<'a>,
    d: int,
)
    requires
        call_ensures(
            start_conference_invite,
            (access, device_id, call_id, line_instance, codec),
            action,
        ),
        0 <= d <= access.shared.config.devices@.len(),
        forall|j: int|
            0 <= j < d ==> (#[trigger] access.shared.config.devices@[j]).id@ != device_id@,
        d < access.shared.config.devices@.len() ==> access.shared.config.devices@[d].id@
            == device_id@,
    ensures
        action matches ConsultationAction::Prepare { codec: with, permitted, .. } ==> codec == Some(
            with,
        ) && permitted && d < access.shared.config.devices@.len()
            && access.shared.config.devices@[d].conference.allowed,
        action matches ConsultationAction::Show(told) ==> told.device_id == device_id && (
        told.action matches PhoneCommandAction::DisplayPrompt { call_id: on, prompt, .. } && on
            == call_id && (prompt == Prompt::ConferenceCodecUnavailable || prompt
            == Prompt::ConferenceDisabled) && (prompt == Prompt::ConferenceCodecUnavailable
            ==> codec is None && d < access.shared.config.devices@.len()
            && access.shared.config.devices@[d].conference.allowed)),
        codec is Some && d < access.shared.config.devices@.len()
            && access.shared.config.devices@[d].conference.allowed ==> !(
        action matches ConsultationAction::Show(told) && (
        told.action matches PhoneCommandAction::DisplayPrompt { prompt, .. } && prompt
            == Prompt::ConferenceCodecUnavailable)),
{
    let devices = access.shared.config.devices@;
    let p = config::is_device(device_id@);
    if d == devices.len() {
        lookup::lemma_first_none(devices, p);
    } else {
        lookup::lemma_first_is(devices, p, d);
    }
}

} // verus!
