//! Transferring calls, with a consultation or directly.

use vstd::prelude::*;

use crate::access::{Access, Shared};
use crate::commands::{self, close_call, show_prompt, PhoneCommand, PhoneCommandAction};
use crate::effects::{
    DriverEffect, HandsetEffect, PbxEffect, PhoneCallState, Tone, TransactionId,
    TransferCompletion, TransferCompletionKind, TransferLeg,
};
use crate::ids::{CallId, DeviceId, PbxCallId};
use crate::lookup;
use crate::model::{Codec, LineBinding};
use crate::prompts::Prompt;

verus! {

#[derive(Clone, Copy, Debug, PartialEq, Eq, Structural)]
pub enum TransferPhase {
    /// The other party is being called.
    Consulting,
    /// The switch connects the two parties.
    Completing,
}

#[derive(Clone, Copy, Debug, PartialEq, Eq, Structural)]
pub enum TransferMode {
    Consultation,
    Direct,
}

#[derive(Debug, PartialEq, Eq)]
pub struct TransferTransaction {
    pub id: TransactionId,
    pub device_id: DeviceId,
    pub phase: TransferPhase,
    pub mode: TransferMode,
    pub source: TransferLeg,
    pub consultation: Option<TransferLeg>,
}

#[derive(Clone, Copy, Debug, PartialEq, Eq, Structural)]
pub enum TransferRejection {
    CompletionInProgress,
    Conflict,
    Unavailable,
}

#[derive(Clone, Copy, Debug, PartialEq, Eq, Structural)]
pub enum TransferCancellationReason {
    SourceResume,
    SourceHangup,
    ConsultationHangup,
    EndCall,
    ConsultationFailure,
    BackendFailure,
}

/// What is done to the source call once a completion has failed.
#[derive(Clone, Copy, Debug, PartialEq, Eq, Structural)]
pub enum DeferredTransferAction {
    OnHook,
    EndCall,
}

/// What the transfer key asks for.
#[derive(Debug, PartialEq, Eq)]
pub enum TransferKeyAction<'a> {
    /// Complete the transfer in progress; a refusal is shown on this call.
    Complete { feedback_call_id: CallId },
    Ignore,
    /// Consult another party about this call.
    Prepare {
        source_call_id: CallId,
        binding: &'a LineBinding,
        codec: Codec,
        complete_on_hangup: bool,
    },
}

/// The call that a key was pressed on; number zero is none.
pub open spec fn named_call(reported: Option<CallId>) -> Option<CallId> {
    match reported {
        Some(call_id) => if call_id.0 != 0 {
            Some(call_id)
        } else {
            None
        },
        None => None,
    }
}

/// The call on which a refusal is shown: the one that was named, else the
/// consultation, else the source.
pub open spec fn feedback_call(transaction: TransferTransaction, reported: Option<CallId>) -> CallId {
    match named_call(reported) {
        Some(call_id) => call_id,
        None => match transaction.consultation {
            Some(leg) => leg.handset_call_id,
            None => transaction.source.handset_call_id,
        },
    }
}

pub open spec fn transfer_key_spec<'a>(
    shared: Shared,
    existing: Option<TransferTransaction>,
    device: Seq<char>,
    reported: Option<CallId>,
    line_instance: u32,
    codec: Option<Codec>,
) -> TransferKeyAction<'a> {
    match existing {
        Some(transaction) => TransferKeyAction::Complete {
            feedback_call_id: feedback_call(transaction, reported),
        },
        None => match (
            named_call(reported),
            shared.binding_spec(device, line_instance),
            codec,
        ) {
            (Some(source_call_id), Some(binding), Some(codec)) => TransferKeyAction::Prepare {
                source_call_id,
                binding: &binding,
                codec,
                complete_on_hangup: shared.config.general.transfer_on_hangup,
            },
            _ => TransferKeyAction::Ignore,
        },
    }
}

fn identified(reported: Option<CallId>) -> (call_id: Option<CallId>)
    ensures
        call_id == named_call(reported),
{
    match reported {
        Some(call_id) => if call_id.0 != 0 {
            Some(call_id)
        } else {
            None
        },
        None => None,
    }
}

/// Decides what the transfer key asks for: the transfer in progress is
/// completed, else one begins. `codec` is the codec of a call on the line.
pub fn handle_transfer_soft_key<'a>(
    access: &'a Access,
    existing: Option<&TransferTransaction>,
    device_id: &DeviceId,
    reported: Option<CallId>,
    line_instance: u32,
    codec: Option<Codec>,
) -> (action: TransferKeyAction<'a>)
    ensures
        action == transfer_key_spec::<'a>(
            access.shared,
            lookup::target(existing),
            device_id@,
            reported,
            line_instance,
            codec,
        ),
{
    match existing {
        Some(transaction) => {
            let feedback_call_id = match identified(reported) {
                Some(call_id) => call_id,
                None => match transaction.consultation {
                    Some(leg) => leg.handset_call_id,
                    None => transaction.source.handset_call_id,
                },
            };
            return TransferKeyAction::Complete { feedback_call_id };
        },
        None => {},
    }
    match identified(reported) {
        Some(source_call_id) => match access.line_binding(device_id, line_instance) {
            Some(binding) => match codec {
                Some(codec) => TransferKeyAction::Prepare {
                    source_call_id,
                    binding,
                    codec,
                    complete_on_hangup: access.shared.config.general.transfer_on_hangup,
                },
                None => TransferKeyAction::Ignore,
            },
            None => TransferKeyAction::Ignore,
        },
        None => TransferKeyAction::Ignore,
    }
}

/// The tone and the text of a refusal.
#[derive(Debug, PartialEq, Eq)]
pub struct TransferRefusal {
    pub tone: PhoneCommand,
    pub prompt: PhoneCommand,
}

pub open spec fn refusal_spec(
    device_id: DeviceId,
    call_id: CallId,
    rejection: TransferRejection,
) -> TransferRefusal {
    TransferRefusal {
        tone: PhoneCommand {
            device_id,
            action: PhoneCommandAction::StartTone { call_id, tone: Tone::BeepBonk },
        },
        prompt: commands::prompt_command(
            device_id,
            call_id,
            4,
            if rejection == TransferRejection::CompletionInProgress {
                Prompt::TransferInProgress
            } else {
                Prompt::CanNotCompleteTransfer
            },
        ),
    }
}

/// Shows that a transfer was refused.
pub fn show_transfer_rejection(
    device_id: DeviceId,
    call_id: CallId,
    rejection: TransferRejection,
) -> (refusal: TransferRefusal)
    ensures
        refusal == refusal_spec(device_id, call_id, rejection),
{
    let prompt = if rejection == TransferRejection::CompletionInProgress {
        Prompt::TransferInProgress
    } else {
        Prompt::CanNotCompleteTransfer
    };
    TransferRefusal {
        tone: PhoneCommand::new(
            device_id.clone(),
            PhoneCommandAction::StartTone { call_id, tone: Tone::BeepBonk },
        ),
        prompt: show_prompt(device_id, call_id, 4, prompt),
    }
}

/// What the controller's answer to the transfer key comes to; a controller that
/// has gone answers as if the calls were in conflict.
pub open spec fn transfer_reply_spec<T>(
    device_id: DeviceId,
    call_id: CallId,
    reply: Option<Result<T, TransferRejection>>,
) -> Result<T, TransferRefusal> {
    match reply {
        Some(Ok(plan)) => Ok(plan),
        Some(Err(rejection)) => Err(refusal_spec(device_id, call_id, rejection)),
        None => Err(refusal_spec(device_id, call_id, TransferRejection::Conflict)),
    }
}

/// What follows once the controller was asked to complete a transfer: its plan is
/// carried out, or the refusal is shown on `call_id`.
pub fn transfer_key_completed<T>(
    device_id: DeviceId,
    call_id: CallId,
    reply: Option<Result<T, TransferRejection>>,
) -> (outcome: Result<T, TransferRefusal>)
    ensures
        outcome == transfer_reply_spec(device_id, call_id, reply),
{
    match reply {
        Some(Ok(plan)) => Ok(plan),
        Some(Err(rejection)) => Err(show_transfer_rejection(device_id, call_id, rejection)),
        None => Err(show_transfer_rejection(device_id, call_id, TransferRejection::Conflict)),
    }
}

/// A consultation that the controller has prepared.
#[derive(Debug, PartialEq, Eq)]
pub struct PreparedConsultation {
    pub effects: Vec<DriverEffect>,
    /// None where the transfer was over at once.
    pub transaction: Option<TransferTransaction>,
}

/// What follows once the controller was asked to prepare a consultation: its
/// effects run for the transaction, or the refusal is shown on the source call.
pub fn transfer_prepared(
    device_id: DeviceId,
    source_call_id: CallId,
    reply: Option<Result<PreparedConsultation, TransferRejection>>,
) -> (outcome: Result<(TransferTransaction, Vec<DriverEffect>), TransferRefusal>)
    ensures
        outcome == match transfer_reply_spec(device_id, source_call_id, reply) {
            Err(refusal) => Err::<(TransferTransaction, Vec<DriverEffect>), TransferRefusal>(
                refusal,
            ),
            Ok(prepared) => match prepared.transaction {
                Some(transaction) => Ok::<
                    (TransferTransaction, Vec<DriverEffect>),
                    TransferRefusal,
                >((transaction, prepared.effects)),
                None => Err::<(TransferTransaction, Vec<DriverEffect>), TransferRefusal>(
                    refusal_spec(device_id, source_call_id, TransferRejection::Conflict),
                ),
            },
        },
{
    match transfer_key_completed(device_id.clone(), source_call_id, reply) {
        Err(refusal) => Err(refusal),
        Ok(prepared) => match prepared.transaction {
            Some(transaction) => Ok((transaction, prepared.effects)),
            None => Err(
                show_transfer_rejection(device_id, source_call_id, TransferRejection::Conflict),
            ),
        },
    }
}

/// What setting up a consultation has to be able to take back.
#[derive(Clone, Copy, Debug, PartialEq, Eq, Structural)]
pub enum TransferSetupMilestone {
    SourceBackendHeld,
    SourceHandsetHeld,
    ConsultationChannelCreated,
    ConsultationHandsetStarted,
}

/// The milestone that an effect reaches.
pub open spec fn milestone_spec(transaction: TransferTransaction, effect: DriverEffect) -> Option<
    TransferSetupMilestone,
> {
    match effect {
        DriverEffect::Backend(PbxEffect::Hold { call_id }) => if call_id
            == transaction.source.pbx_call_id {
            Some(TransferSetupMilestone::SourceBackendHeld)
        } else {
            None
        },
        DriverEffect::Handset(HandsetEffect::SetCallState { call_id, state, .. }) => if state
            == PhoneCallState::Hold && call_id == transaction.source.handset_call_id {
            Some(TransferSetupMilestone::SourceHandsetHeld)
        } else {
            None
        },
        DriverEffect::Backend(PbxEffect::CreateConsultationChannel { call_id, .. }) => match
            transaction.consultation {
            Some(leg) => if leg.pbx_call_id == call_id {
                Some(TransferSetupMilestone::ConsultationChannelCreated)
            } else {
                None
            },
            None => None,
        },
        DriverEffect::Handset(HandsetEffect::BeginTransfer { consultation_call_id, .. }) => match
            transaction.consultation {
            Some(leg) => if leg.handset_call_id == consultation_call_id {
                Some(TransferSetupMilestone::ConsultationHandsetStarted)
            } else {
                None
            },
            None => None,
        },
        _ => None,
    }
}

/// The milestone that an effect reaches.
pub fn transfer_milestone(transaction: &TransferTransaction, effect: &DriverEffect) -> (milestone:
    Option<TransferSetupMilestone>)
    ensures
        milestone == milestone_spec(*transaction, *effect),
{
    match effect {
        DriverEffect::Backend(PbxEffect::Hold { call_id }) => if *call_id
            == transaction.source.pbx_call_id {
            Some(TransferSetupMilestone::SourceBackendHeld)
        } else {
            None
        },
        DriverEffect::Handset(HandsetEffect::SetCallState { call_id, state, .. }) => if *state
            == PhoneCallState::Hold && *call_id == transaction.source.handset_call_id {
            Some(TransferSetupMilestone::SourceHandsetHeld)
        } else {
            None
        },
        DriverEffect::Backend(PbxEffect::CreateConsultationChannel { call_id, .. }) => match
            transaction.consultation {
            Some(leg) => if leg.pbx_call_id == *call_id {
                Some(TransferSetupMilestone::ConsultationChannelCreated)
            } else {
                None
            },
            None => None,
        },
        DriverEffect::Handset(HandsetEffect::BeginTransfer { consultation_call_id, .. }) => match
            transaction.consultation {
            Some(leg) => if leg.handset_call_id == *consultation_call_id {
                Some(TransferSetupMilestone::ConsultationHandsetStarted)
            } else {
                None
            },
            None => None,
        },
        _ => None,
    }
}

/// Where setting up a consultation stands. The index is that of the effect at
/// hand.
#[derive(Clone, Copy, Debug, PartialEq, Eq, Structural)]
pub enum TransferSetupState {
    /// The transfer is asked for before the effect.
    Checking(usize),
    Performing(usize),
    /// The effect reached a milestone, which is being noted.
    Recording(usize),
    /// The transfer is asked for after the effect.
    Rechecking(usize),
    Done,
}

/// What a step of the setup asks for.
#[derive(Clone, Copy, Debug, PartialEq, Eq, Structural)]
pub enum TransferSetupAction {
    CheckActive,
    Perform(usize),
    Record(TransferSetupMilestone),
    /// Take the milestone back.
    Compensate(TransferSetupMilestone),
    /// Take the milestone back, if the effect was to reach one, and give the
    /// transfer up.
    Abort(Option<TransferSetupMilestone>),
    /// Close the consultation on the handset.
    CloseStale,
    Finish,
}

/// What comes after effect `index`.
pub open spec fn next_effect_spec(count: nat, index: usize) -> (
    TransferSetupState,
    TransferSetupAction,
) {
    if index + 1 < count {
        (TransferSetupState::Checking((index + 1) as usize), TransferSetupAction::CheckActive)
    } else {
        (TransferSetupState::Done, TransferSetupAction::Finish)
    }
}

pub open spec fn setup_spec(
    transaction: TransferTransaction,
    effects: Seq<DriverEffect>,
    state: TransferSetupState,
    succeeded: bool,
) -> (TransferSetupState, TransferSetupAction) {
    match state {
        TransferSetupState::Checking(index) => if succeeded {
            (TransferSetupState::Performing(index), TransferSetupAction::Perform(index))
        } else {
            (TransferSetupState::Done, TransferSetupAction::Finish)
        },
        TransferSetupState::Performing(index) => {
            let milestone = milestone_spec(transaction, effects[index as int]);
            if !succeeded {
                (TransferSetupState::Done, TransferSetupAction::Abort(milestone))
            } else {
                match milestone {
                    Some(milestone) => (
                        TransferSetupState::Recording(index),
                        TransferSetupAction::Record(milestone),
                    ),
                    None => (
                        TransferSetupState::Rechecking(index),
                        TransferSetupAction::CheckActive,
                    ),
                }
            }
        },
        TransferSetupState::Recording(index) => if succeeded {
            next_effect_spec(effects.len(), index)
        } else {
            match milestone_spec(transaction, effects[index as int]) {
                Some(milestone) => (
                    TransferSetupState::Done,
                    TransferSetupAction::Compensate(milestone),
                ),
                None => (TransferSetupState::Done, TransferSetupAction::Finish),
            }
        },
        TransferSetupState::Rechecking(index) => if succeeded {
            next_effect_spec(effects.len(), index)
        } else {
            (TransferSetupState::Done, TransferSetupAction::CloseStale)
        },
        TransferSetupState::Done => (TransferSetupState::Done, TransferSetupAction::Finish),
    }
}

impl TransferSetupState {
    /// The state belongs to a setup of `count` effects.
    pub open spec fn wf(self, count: nat) -> bool {
        match self {
            TransferSetupState::Checking(index)
            | TransferSetupState::Performing(index)
            | TransferSetupState::Recording(index)
            | TransferSetupState::Rechecking(index) => index < count,
            TransferSetupState::Done => true,
        }
    }
}

/// Where setting up a consultation begins.
pub fn execute_transfer_start(effects: &Vec<DriverEffect>) -> (step: (
    TransferSetupState,
    TransferSetupAction,
))
    ensures
        step.0.wf(effects@.len()),
        step == if effects@.len() == 0 {
            (TransferSetupState::Done, TransferSetupAction::Finish)
        } else {
            (TransferSetupState::Checking(0), TransferSetupAction::CheckActive)
        },
{
    if effects.len() == 0 {
        (TransferSetupState::Done, TransferSetupAction::Finish)
    } else {
        (TransferSetupState::Checking(0), TransferSetupAction::CheckActive)
    }
}

/// Goes on with setting up a consultation; `succeeded` answers what was asked
/// for last.
pub fn continue_transfer_start(
    transaction: &TransferTransaction,
    effects: &Vec<DriverEffect>,
    state: TransferSetupState,
    succeeded: bool,
) -> (step: (TransferSetupState, TransferSetupAction))
    requires
        state.wf(effects@.len()),
    ensures
        step.0.wf(effects@.len()),
        step == setup_spec(*transaction, effects@, state, succeeded),
{
    match state {
        TransferSetupState::Checking(index) => if succeeded {
            (TransferSetupState::Performing(index), TransferSetupAction::Perform(index))
        } else {
            (TransferSetupState::Done, TransferSetupAction::Finish)
        },
        TransferSetupState::Performing(index) => {
            let milestone = transfer_milestone(transaction, &effects[index]);
            if !succeeded {
                (TransferSetupState::Done, TransferSetupAction::Abort(milestone))
            } else {
                match milestone {
                    Some(milestone) => (
                        TransferSetupState::Recording(index),
                        TransferSetupAction::Record(milestone),
                    ),
                    None => (
                        TransferSetupState::Rechecking(index),
                        TransferSetupAction::CheckActive,
                    ),
                }
            }
        },
        TransferSetupState::Recording(index) => {
            if succeeded {
                if index < effects.len() - 1 {
                    (TransferSetupState::Checking(index + 1), TransferSetupAction::CheckActive)
                } else {
                    (TransferSetupState::Done, TransferSetupAction::Finish)
                }
            } else {
                match transfer_milestone(transaction, &effects[index]) {
                    Some(milestone) => (
                        TransferSetupState::Done,
                        TransferSetupAction::Compensate(milestone),
                    ),
                    None => (TransferSetupState::Done, TransferSetupAction::Finish),
                }
            }
        },
        TransferSetupState::Rechecking(index) => {
            if succeeded {
                if index < effects.len() - 1 {
                    (TransferSetupState::Checking(index + 1), TransferSetupAction::CheckActive)
                } else {
                    (TransferSetupState::Done, TransferSetupAction::Finish)
                }
            } else {
                (TransferSetupState::Done, TransferSetupAction::CloseStale)
            }
        },
        TransferSetupState::Done => (TransferSetupState::Done, TransferSetupAction::Finish),
    }
}

/// What takes a milestone back.
#[derive(Debug, PartialEq, Eq)]
pub enum TransferCompensation {
    Nothing,
    Resume(PbxCallId),
    Handset(HandsetEffect),
    HangUpAndRemove(PbxCallId),
    Send(PhoneCommand),
}

pub open spec fn transfer_compensation_spec(
    transaction: TransferTransaction,
    milestone: TransferSetupMilestone,
) -> TransferCompensation {
    match milestone {
        TransferSetupMilestone::SourceBackendHeld => TransferCompensation::Resume(
            transaction.source.pbx_call_id,
        ),
        TransferSetupMilestone::SourceHandsetHeld => TransferCompensation::Handset(
            HandsetEffect::SetCallState {
                device_id: transaction.device_id,
                call_id: transaction.source.handset_call_id,
                state: PhoneCallState::Connected,
                stop_media: false,
            },
        ),
        TransferSetupMilestone::ConsultationChannelCreated => match transaction.consultation {
            Some(leg) => TransferCompensation::HangUpAndRemove(leg.pbx_call_id),
            None => TransferCompensation::Nothing,
        },
        TransferSetupMilestone::ConsultationHandsetStarted => match transaction.consultation {
            Some(leg) => TransferCompensation::Send(
                commands::close_command(transaction.device_id, leg.handset_call_id),
            ),
            None => TransferCompensation::Nothing,
        },
    }
}

/// Takes back a milestone that the controller did not note.
pub fn compensate_unrecorded_transfer_setup(
    transaction: &TransferTransaction,
    milestone: TransferSetupMilestone,
) -> (compensation: TransferCompensation)
    ensures
        compensation == transfer_compensation_spec(*transaction, milestone),
{
    match milestone {
        TransferSetupMilestone::SourceBackendHeld => TransferCompensation::Resume(
            transaction.source.pbx_call_id,
        ),
        TransferSetupMilestone::SourceHandsetHeld => TransferCompensation::Handset(
            HandsetEffect::SetCallState {
                device_id: transaction.device_id.clone(),
                call_id: transaction.source.handset_call_id,
                state: PhoneCallState::Connected,
                stop_media: false,
            },
        ),
        TransferSetupMilestone::ConsultationChannelCreated => match transaction.consultation {
            Some(leg) => TransferCompensation::HangUpAndRemove(leg.pbx_call_id),
            None => TransferCompensation::Nothing,
        },
        TransferSetupMilestone::ConsultationHandsetStarted => match transaction.consultation {
            Some(leg) => TransferCompensation::Send(
                close_call(transaction.device_id.clone(), leg.handset_call_id),
            ),
            None => TransferCompensation::Nothing,
        },
    }
}

/// Closes a consultation whose transfer has ended.
pub fn close_stale_transfer_consultation(transaction: &TransferTransaction) -> (effect: Option<
    HandsetEffect,
>)
    ensures
        effect == match transaction.consultation {
            Some(leg) => Some(
                HandsetEffect::SetCallState {
                    device_id: transaction.device_id,
                    call_id: leg.handset_call_id,
                    state: PhoneCallState::OnHook,
                    stop_media: true,
                },
            ),
            None => None,
        },
{
    match transaction.consultation {
        Some(leg) => Some(
            HandsetEffect::SetCallState {
                device_id: transaction.device_id.clone(),
                call_id: leg.handset_call_id,
                state: PhoneCallState::OnHook,
                stop_media: true,
            },
        ),
        None => None,
    }
}

/// What is left to do once the controller has given a transfer up: its effects
/// are executed, and the channel of the consultation, if there is one, is
/// removed. `created` says whether it was created; none where the controller
/// refuses.
pub fn abort_transfer_execution(transaction: &TransferTransaction, created: Option<bool>) ->
    (cleanup: Option<Option<PbxCallId>>)
    ensures
        cleanup == match created {
            None => None,
            Some(created) => Some(
                match transaction.consultation {
                    Some(leg) => if created {
                        Some(leg.pbx_call_id)
                    } else {
                        None
                    },
                    None => None,
                },
            ),
        },
{
    match created {
        None => None,
        Some(created) => Some(
            match transaction.consultation {
                Some(leg) => if created {
                    Some(leg.pbx_call_id)
                } else {
                    None
                },
                None => None,
            },
        ),
    }
}

/// What a refused direct transfer shows: something only where a call is active.
pub fn handle_direct_transfer(
    device_id: DeviceId,
    active_call: Option<CallId>,
    rejection: Option<TransferRejection>,
) -> (refusal: Option<TransferRefusal>)
    ensures
        refusal == match (rejection, active_call) {
            (Some(rejection), Some(call_id)) => Some(refusal_spec(device_id, call_id, rejection)),
            _ => None,
        },
{
    match (rejection, active_call) {
        (Some(rejection), Some(call_id)) => Some(
            show_transfer_rejection(device_id, call_id, rejection),
        ),
        _ => None,
    }
}

/// Begins to complete a transfer: what the handset shows meanwhile; none where
/// the transfer has been overtaken.
pub fn execute_transfer_completion(completion: &TransferCompletion, active: bool) -> (shown: Option<
    PhoneCommand,
>)
    ensures
        shown == if active {
            Some(
                commands::prompt_command(
                    completion.device_id,
                    completion.consultation.handset_call_id,
                    0,
                    Prompt::CompletingTransfer,
                ),
            )
        } else {
            None
        },
{
    if active {
        Some(
            show_prompt(
                completion.device_id.clone(),
                completion.consultation.handset_call_id,
                0,
                Prompt::CompletingTransfer,
            ),
        )
    } else {
        None
    }
}

/// Whether a completion succeeded: the switch has to have been asked at all.
pub fn completion_succeeded(worker_reserved: bool, performed: bool) -> (succeeded: bool)
    ensures
        succeeded == (worker_reserved && performed),
{
    worker_reserved && performed
}

/// What follows a completion.
#[derive(Clone, Copy, Debug, PartialEq, Eq, Structural)]
pub enum CompletionStep {
    /// The transfer has been overtaken.
    Finish,
    /// Tell the controller, execute its effects, then remove both channels.
    Succeed { source: PbxCallId, consultation: PbxCallId },
    /// Have the controller give the transfer up.
    Abort,
}

/// Decides what follows a completion.
pub fn finish_transfer_completion(completion: &TransferCompletion, active: bool, succeeded: bool) ->
    (step: CompletionStep)
    ensures
        step == if !active {
            CompletionStep::Finish
        } else if succeeded {
            CompletionStep::Succeed {
                source: completion.source.pbx_call_id,
                consultation: completion.consultation.pbx_call_id,
            }
        } else {
            CompletionStep::Abort
        },
{
    if !active {
        CompletionStep::Finish
    } else if succeeded {
        CompletionStep::Succeed {
            source: completion.source.pbx_call_id,
            consultation: completion.consultation.pbx_call_id,
        }
    } else {
        CompletionStep::Abort
    }
}

/// What follows a completion that was given up, after the controller's effects.
#[derive(Debug, PartialEq, Eq)]
pub struct FailedCompletion {
    /// The channel of the consultation, which only a direct transfer keeps.
    pub remove: Option<PbxCallId>,
    pub refusal: TransferRefusal,
    /// The source call is hung up, because its handset was hung up meanwhile.
    pub hang_up: Option<CallId>,
}

/// What follows a completion that failed, where `aborted` is the controller's
/// answer with what was deferred; none where it refuses.
pub fn finish_failed_completion(
    completion: &TransferCompletion,
    aborted: Option<Option<DeferredTransferAction>>,
) -> (failed: Option<FailedCompletion>)
    ensures
        failed == match aborted {
            None => None,
            Some(deferred) => Some(
                FailedCompletion {
                    remove: if completion.kind != TransferCompletionKind::Direct {
                        Some(completion.consultation.pbx_call_id)
                    } else {
                        None
                    },
                    refusal: refusal_spec(
                        completion.device_id,
                        completion.source.handset_call_id,
                        TransferRejection::Conflict,
                    ),
                    hang_up: if deferred == Some(DeferredTransferAction::OnHook) {
                        Some(completion.source.handset_call_id)
                    } else {
                        None
                    },
                },
            ),
        },
{
    match aborted {
        None => None,
        Some(deferred) => {
            let on_hook = match deferred {
                Some(DeferredTransferAction::OnHook) => true,
                _ => false,
            };
            Some(
                FailedCompletion {
                    remove: if completion.kind != TransferCompletionKind::Direct {
                        Some(completion.consultation.pbx_call_id)
                    } else {
                        None
                    },
                    refusal: show_transfer_rejection(
                        completion.device_id.clone(),
                        completion.source.handset_call_id,
                        TransferRejection::Conflict,
                    ),
                    hang_up: if on_hook {
                        Some(completion.source.handset_call_id)
                    } else {
                        None
                    },
                },
            )
        },
    }
}

/// The channel that cancelling a transfer removes, after the controller's
/// effects; the outer none means that the controller refused.
pub fn cancel_transfer(transaction: &TransferTransaction, aborted: bool) -> (cancelled: Option<
    Option<PbxCallId>,
>)
    ensures
        cancelled == if !aborted {
            None
        } else {
            Some(
                match transaction.consultation {
                    Some(leg) => if transaction.mode == TransferMode::Consultation {
                        Some(leg.pbx_call_id)
                    } else {
                        None
                    },
                    None => None,
                },
            )
        },
{
    if !aborted {
        return None;
    }
    match transaction.consultation {
        Some(leg) => if transaction.mode == TransferMode::Consultation {
            Some(Some(leg.pbx_call_id))
        } else {
            Some(None)
        },
        None => Some(None),
    }
}

/// What hanging up means for a transfer.
#[derive(Debug, PartialEq, Eq)]
pub enum TransferHangup {
    /// The call takes part in none.
    NotTransferring,
    /// Note it for later, and show this once it is noted.
    Defer { deferred: DeferredTransferAction, shown: PhoneCommand },
    /// Complete the transfer; where that is refused, cancel it.
    CompleteOrCancel { reason: TransferCancellationReason },
    Cancel { reason: TransferCancellationReason, source_hung_up: bool },
}

pub open spec fn cancel_reason_spec(
    transaction: TransferTransaction,
    call_id: CallId,
    physical: bool,
) -> TransferCancellationReason {
    if physical && transaction.source.handset_call_id == call_id {
        TransferCancellationReason::SourceHangup
    } else if physical {
        TransferCancellationReason::ConsultationHangup
    } else {
        TransferCancellationReason::EndCall
    }
}

pub open spec fn transfer_hangup_spec(
    transaction: Option<TransferTransaction>,
    device_id: DeviceId,
    call_id: CallId,
    physical: bool,
) -> TransferHangup {
    match transaction {
        None => TransferHangup::NotTransferring,
        Some(transaction) => {
            let on_consultation = match transaction.consultation {
                Some(leg) => leg.handset_call_id == call_id,
                None => false,
            };
            if transaction.phase == TransferPhase::Completing {
                TransferHangup::Defer {
                    deferred: if physical {
                        DeferredTransferAction::OnHook
                    } else {
                        DeferredTransferAction::EndCall
                    },
                    shown: commands::prompt_command(
                        device_id,
                        call_id,
                        4,
                        Prompt::TransferInProgress,
                    ),
                }
            } else if physical && on_consultation {
                TransferHangup::CompleteOrCancel {
                    reason: cancel_reason_spec(transaction, call_id, physical),
                }
            } else {
                TransferHangup::Cancel {
                    reason: cancel_reason_spec(transaction, call_id, physical),
                    source_hung_up: physical && transaction.source.handset_call_id == call_id,
                }
            }
        },
    }
}

/// Decides what hanging up means for a transfer.
pub fn handle_transfer_hangup(
    transaction: Option<&TransferTransaction>,
    device_id: DeviceId,
    call_id: CallId,
    physical: bool,
) -> (hangup: TransferHangup)
    ensures
        hangup == transfer_hangup_spec(
            lookup::target(transaction),
            device_id,
            call_id,
            physical,
        ),
{
    let transaction = match transaction {
        Some(transaction) => transaction,
        None => return TransferHangup::NotTransferring,
    };
    if transaction.phase == TransferPhase::Completing {
        return TransferHangup::Defer {
            deferred: if physical {
                DeferredTransferAction::OnHook
            } else {
                DeferredTransferAction::EndCall
            },
            shown: show_prompt(device_id, call_id, 4, Prompt::TransferInProgress),
        };
    }
    let on_consultation = match transaction.consultation {
        Some(leg) => leg.handset_call_id == call_id,
        None => false,
    };
    let on_source = transaction.source.handset_call_id == call_id;
    let reason = if physical && on_source {
        TransferCancellationReason::SourceHangup
    } else if physical {
        TransferCancellationReason::ConsultationHangup
    } else {
        TransferCancellationReason::EndCall
    };
    if physical && on_consultation {
        TransferHangup::CompleteOrCancel { reason }
    } else {
        TransferHangup::Cancel { reason, source_hung_up: physical && on_source }
    }
}

/// Whether hanging up is over with the transfer: hanging up the source goes on
/// to the call itself once the transfer is cancelled.
pub fn transfer_hangup_handled(source_hung_up: bool, cancelled: bool) -> (handled: bool)
    ensures
        handled == !(source_hung_up && cancelled),
{
    !(source_hung_up && cancelled)
}

/// The number of answers that a setup still waits for, at most.
pub open spec fn setup_steps_left(state: TransferSetupState, count: nat) -> int {
    match state {
        TransferSetupState::Checking(index) => 3 * (count - index),
        TransferSetupState::Performing(index) => 3 * (count - index) - 1,
        TransferSetupState::Recording(index) => 3 * (count - index) - 2,
        TransferSetupState::Rechecking(index) => 3 * (count - index) - 2,
        TransferSetupState::Done => 0,
    }
}

/// Every answer brings a setup closer to its end.
pub proof fn law_setups_end(
    transaction: TransferTransaction,
    effects: Seq<DriverEffect>,
    state: TransferSetupState,
    succeeded: bool,
)
    requires
        effects.len() <= usize::MAX,
        state.wf(effects.len()),
        !(state is Done),
    ensures
        0 <= setup_steps_left(setup_spec(transaction, effects, state, succeeded).0, effects.len())
            < setup_steps_left(state, effects.len()),
{
}

/// A milestone that was reached but not noted is taken back, whether the effect
/// itself failed or noting it did.
pub proof fn law_unnoted_milestones_are_taken_back(
    transaction: TransferTransaction,
    effects: Seq<DriverEffect>,
    index: usize,
)
    requires
        index < effects.len(),
    ensures
        milestone_spec(transaction, effects[index as int]) matches Some(milestone) ==> {
            &&& setup_spec(transaction, effects, TransferSetupState::Performing(index), false).1
                == TransferSetupAction::Abort(Some(milestone))
            &&& setup_spec(transaction, effects, TransferSetupState::Recording(index), false).1
                == TransferSetupAction::Compensate(milestone)
        },
{
}

/// Hanging up during a completion never cancels the transfer.
pub proof fn law_completions_are_not_cancelled(
    transaction: TransferTransaction,
    device_id: DeviceId,
    call_id: CallId,
    physical: bool,
)
    requires
        transaction.phase == TransferPhase::Completing,
    ensures
        transfer_hangup_spec(Some(transaction), device_id, call_id, physical) is Defer,
{
}

/// Hanging up in the middle of a consultation completes the transfer exactly if
/// the handset itself was put down on the call to the other party. A key that
/// ends a call never completes it: it cancels. Putting the handset down on the
/// first call cancels too, and then goes on to end that call.
pub proof fn law_hanging_up_the_consultation_completes(
    transaction: TransferTransaction,
    device_id: DeviceId,
    call_id: CallId,
    physical: bool,
    hangup: TransferHangup,
)
    requires
        transaction.phase == TransferPhase::Consulting,
        call_ensures(
            handle_transfer_hangup,
            (Some(&transaction), device_id, call_id, physical),
            hangup,
        ),
    ensures
        hangup is CompleteOrCancel <==> physical && exists|leg: TransferLeg|
            #![trigger leg.handset_call_id]
            transaction.consultation == Some(leg) && leg.handset_call_id == call_id,
        !physical ==> hangup == (TransferHangup::Cancel {
            reason: TransferCancellationReason::EndCall,
            source_hung_up: false,
        }),
        hangup matches TransferHangup::CompleteOrCancel { reason } ==> reason == if call_id
            == transaction.source.handset_call_id {
            TransferCancellationReason::SourceHangup
        } else {
            TransferCancellationReason::ConsultationHangup
        },
        physical && hangup !is CompleteOrCancel ==> hangup == (TransferHangup::Cancel {
            reason: if call_id == transaction.source.handset_call_id {
                TransferCancellationReason::SourceHangup
            } else {
                TransferCancellationReason::ConsultationHangup
            },
            source_hung_up: call_id == transaction.source.handset_call_id,
        }),
{
}

/// Hanging up while a transfer completes is put off, as what it was, and the
/// handset is told; without a transfer it is left to the call.
pub proof fn law_hanging_up_waits_for_completions(
    transaction: TransferTransaction,
    device_id: DeviceId,
    call_id: CallId,
    physical: bool,
    hangup: TransferHangup,
    alone: TransferHangup,
)
    requires
        transaction.phase == TransferPhase::Completing,
        call_ensures(
            handle_transfer_hangup,
            (Some(&transaction), device_id, call_id, physical),
            hangup,
        ),
        call_ensures(
            handle_transfer_hangup,
            (None::<&TransferTransaction>, device_id, call_id, physical),
            alone,
        ),
    ensures
        alone is NotTransferring,
        hangup matches TransferHangup::Defer { deferred, shown } && {
            &&& deferred == DeferredTransferAction::OnHook <==> physical
            &&& shown.device_id == device_id
            &&& shown.action == (PhoneCommandAction::DisplayPrompt {
                call_id,
                timeout_seconds: 4,
                prompt: Prompt::TransferInProgress,
            })
        },
{
}

/// Hanging up goes on to the call itself exactly if its source was hung up and
/// the transfer could be cancelled.
pub proof fn law_hung_up_sources_are_ended(source_hung_up: bool, cancelled: bool, handled: bool)
    requires
        call_ensures(transfer_hangup_handled, (source_hung_up, cancelled), handled),
    ensures
        !handled <==> source_hung_up && cancelled,
{
}

/// The transfer key completes the transfer that is under way, and begins one only
/// without any, for the call that it was pressed on, with the line's codec.
pub proof fn law_transfer_keys_complete_or_begin<'a>(
    access: &'a Access,
    existing: Option<&TransferTransaction>,
    device_id: DeviceId,
    reported: Option<CallId>,
    line_instance: u32,
    codec: Option<Codec>,
    action: TransferKeyAction<'a>,
)
    requires
        call_ensures(
            handle_transfer_soft_key,
            (access, existing, &device_id, reported, line_instance, codec),
            action,
        ),
    ensures
        action is Complete <==> existing is Some,
        action matches TransferKeyAction::Complete { feedback_call_id } ==> {
            &&& reported matches Some(call_id) ==> call_id.0 != 0 ==> feedback_call_id == call_id
            &&& (reported is None || reported == Some(CallId(0))) ==> (match
                existing->0.consultation {
                Some(leg) => feedback_call_id == leg.handset_call_id,
                None => feedback_call_id == existing->0.source.handset_call_id,
            })
        },
        action is Prepare <==> existing is None && reported is Some && reported != Some(CallId(0))
            && codec is Some && access.shared.binding_spec(device_id@, line_instance) is Some,
        action matches TransferKeyAction::Prepare {
            source_call_id,
            binding,
            codec: used,
            complete_on_hangup,
        } ==> {
            &&& Some(source_call_id) == reported
            &&& Some(*binding) == access.shared.binding_spec(device_id@, line_instance)
            &&& Some(used) == codec
            &&& complete_on_hangup == access.shared.config.general.transfer_on_hangup
        },
{
}

/// What the controller plans for a transfer is carried out; what it refuses is
/// shown on the call, with a tone, and a controller that has gone refuses.
pub proof fn law_refused_transfers_are_shown(
    device_id: DeviceId,
    call_id: CallId,
    reply: Option<Result<PreparedConsultation, TransferRejection>>,
    completed: Result<PreparedConsultation, TransferRefusal>,
    prepared: Result<(TransferTransaction, Vec<DriverEffect>), TransferRefusal>,
)
    requires
        call_ensures(
            transfer_key_completed::<PreparedConsultation>,
            (device_id, call_id, reply),
            completed,
        ),
        call_ensures(transfer_prepared, (device_id, call_id, reply), prepared),
    ensures
        completed is Ok <==> reply is Some && reply->0 is Ok,
        completed matches Ok(plan) ==> reply == Some(Ok::<PreparedConsultation, TransferRejection>(
            plan,
        )),
        prepared is Ok <==> completed is Ok && completed->Ok_0.transaction is Some,
        prepared matches Ok((transaction, effects)) ==> completed->Ok_0.transaction == Some(
            transaction,
        ) && effects == completed->Ok_0.effects,
        completed matches Err(refusal) ==> {
            &&& refusal.tone.device_id == device_id
            &&& refusal.tone.action == (PhoneCommandAction::StartTone {
                call_id,
                tone: Tone::BeepBonk,
            })
            &&& refusal.prompt.device_id == device_id
            &&& refusal.prompt.action matches PhoneCommandAction::DisplayPrompt {
                call_id: shown_on,
                prompt,
                ..
            } && shown_on == call_id && (prompt == Prompt::TransferInProgress <==> reply == Some(
                Err::<PreparedConsultation, TransferRejection>(
                    TransferRejection::CompletionInProgress,
                ),
            )) && (prompt == Prompt::TransferInProgress || prompt
                == Prompt::CanNotCompleteTransfer)
        },
        prepared matches Err(refusal) ==> refusal.tone.action == (PhoneCommandAction::StartTone {
            call_id,
            tone: Tone::BeepBonk,
        }) && refusal.prompt.device_id == device_id,
{
}

/// What is taken back of a setup is what an effect of it did: a held call is
/// resumed, on the switch and on the handset, and a consultation that was created
/// or shown is removed.
pub proof fn law_compensations_undo_the_effect(
    transaction: TransferTransaction,
    effect: DriverEffect,
    milestone: TransferSetupMilestone,
    compensation: TransferCompensation,
)
    requires
        call_ensures(transfer_milestone, (&transaction, &effect), Some(milestone)),
        call_ensures(
            compensate_unrecorded_transfer_setup,
            (&transaction, milestone),
            compensation,
        ),
    ensures
        match compensation {
            TransferCompensation::Nothing => false,
            TransferCompensation::Resume(call) => effect == DriverEffect::Backend(
                PbxEffect::Hold { call_id: call },
            ) && call == transaction.source.pbx_call_id,
            TransferCompensation::Handset(shown) => {
                &&& effect matches DriverEffect::Handset(
                    HandsetEffect::SetCallState { call_id, state, .. },
                ) && state == PhoneCallState::Hold && call_id
                    == transaction.source.handset_call_id && shown == (
                HandsetEffect::SetCallState {
                    device_id: transaction.device_id,
                    call_id,
                    state: PhoneCallState::Connected,
                    stop_media: false,
                })
            },
            TransferCompensation::HangUpAndRemove(call) => effect matches DriverEffect::Backend(
                PbxEffect::CreateConsultationChannel { call_id, .. },
            ) && call_id == call && transaction.consultation is Some
                && transaction.consultation->0.pbx_call_id == call,
            TransferCompensation::Send(command) => effect matches DriverEffect::Handset(
                HandsetEffect::BeginTransfer { consultation_call_id, .. },
            ) && command == (PhoneCommand {
                device_id: transaction.device_id,
                action: PhoneCommandAction::CloseCall { call_id: consultation_call_id },
            }) && transaction.consultation is Some
                && transaction.consultation->0.handset_call_id == consultation_call_id,
        },
{
}

/// Holding the source, showing it held, creating the consultation and beginning it
/// on the handset are each a milestone of their own; effects on other calls are
/// none.
pub proof fn law_milestones_belong_to_the_transaction(
    transaction: TransferTransaction,
    effect: DriverEffect,
    milestone: Option<TransferSetupMilestone>,
)
    requires
        call_ensures(transfer_milestone, (&transaction, &effect), milestone),
    ensures
        milestone == Some(TransferSetupMilestone::SourceBackendHeld) <==> effect
            == DriverEffect::Backend(PbxEffect::Hold { call_id: transaction.source.pbx_call_id }),
        milestone == Some(TransferSetupMilestone::SourceHandsetHeld) <==> (
        effect matches DriverEffect::Handset(HandsetEffect::SetCallState { call_id, state, .. })
            && call_id == transaction.source.handset_call_id && state == PhoneCallState::Hold),
        milestone == Some(TransferSetupMilestone::ConsultationChannelCreated) <==> (
        effect matches DriverEffect::Backend(
            PbxEffect::CreateConsultationChannel { call_id, .. },
        ) && transaction.consultation is Some && transaction.consultation->0.pbx_call_id
            == call_id),
        milestone == Some(TransferSetupMilestone::ConsultationHandsetStarted) <==> (
        effect matches DriverEffect::Handset(
            HandsetEffect::BeginTransfer { consultation_call_id, .. },
        ) && transaction.consultation is Some && transaction.consultation->0.handset_call_id
            == consultation_call_id),
{
}

/// Effects of a setup are performed in their order, each once and only while the
/// transfer stands; the setup is over only after the last, or when something
/// failed.
pub proof fn law_setups_perform_their_effects_in_order(
    transaction: TransferTransaction,
    effects: Vec<DriverEffect>,
    state: TransferSetupState,
    succeeded: bool,
    next: TransferSetupState,
    action: TransferSetupAction,
)
    requires
        state.wf(effects@.len()),
        call_ensures(
            continue_transfer_start,
            (&transaction, &effects, state, succeeded),
            (next, action),
        ),
    ensures
        action matches TransferSetupAction::Perform(index) ==> state
            == TransferSetupState::Checking(index) && succeeded && next
            == TransferSetupState::Performing(index),
        next matches TransferSetupState::Checking(index) ==> index >= 1 && succeeded && (state
            == TransferSetupState::Recording((index - 1) as usize) || state
            == TransferSetupState::Rechecking((index - 1) as usize)),
        action is Abort <==> state is Performing && !succeeded,
        action is CloseStale <==> state is Rechecking && !succeeded,
        action is Record ==> state is Performing && succeeded,
        action is Compensate ==> state is Recording && !succeeded,
        next is Done && succeeded && !(state is Done) ==> (state matches
            TransferSetupState::Recording(index) && index + 1 == effects@.len()) || (
        state matches TransferSetupState::Rechecking(index) && index + 1 == effects@.len()),
{
    assert(effects.len() == effects@.len());
}

/// A consultation whose transfer has ended is closed on the handset that had it,
/// with its media; its channel is removed exactly if it was created.
pub proof fn law_abandoned_consultations_are_closed(
    transaction: TransferTransaction,
    created: Option<bool>,
    effect: Option<HandsetEffect>,
    cleanup: Option<Option<PbxCallId>>,
)
    requires
        call_ensures(close_stale_transfer_consultation, (&transaction,), effect),
        call_ensures(abort_transfer_execution, (&transaction, created), cleanup),
    ensures
        effect is Some <==> transaction.consultation is Some,
        effect matches Some(closed) ==> closed == (HandsetEffect::SetCallState {
            device_id: transaction.device_id,
            call_id: transaction.consultation->0.handset_call_id,
            state: PhoneCallState::OnHook,
            stop_media: true,
        }),
        cleanup is Some <==> created is Some,
        cleanup matches Some(remove) ==> {
            &&& remove is Some <==> created == Some(true) && transaction.consultation is Some
            &&& remove matches Some(channel) ==> channel
                == transaction.consultation->0.pbx_call_id
        },
{
}

/// A direct transfer that was refused is shown on the active call, and nowhere
/// without one; one that was taken shows nothing.
pub proof fn law_refused_direct_transfers_are_shown(
    device_id: DeviceId,
    active_call: Option<CallId>,
    rejection: Option<TransferRejection>,
    refusal: Option<TransferRefusal>,
)
    requires
        call_ensures(handle_direct_transfer, (device_id, active_call, rejection), refusal),
    ensures
        refusal is Some <==> rejection is Some && active_call is Some,
        refusal matches Some(refusal) ==> {
            &&& refusal.tone.action == (PhoneCommandAction::StartTone {
                call_id: active_call->0,
                tone: Tone::BeepBonk,
            })
            &&& refusal.prompt.device_id == device_id
        },
{
}

/// A completion that still stands succeeds only where the switch was asked and
/// did it; then both channels of the transfer are given up, and nothing else.
pub proof fn law_completions_give_up_both_channels(
    completion: TransferCompletion,
    active: bool,
    worker_reserved: bool,
    performed: bool,
    succeeded: bool,
    step: CompletionStep,
    shown: Option<PhoneCommand>,
)
    requires
        call_ensures(completion_succeeded, (worker_reserved, performed), succeeded),
        call_ensures(finish_transfer_completion, (&completion, active, succeeded), step),
        call_ensures(execute_transfer_completion, (&completion, active), shown),
    ensures
        step is Finish <==> !active,
        step is Succeed <==> active && worker_reserved && performed,
        step matches CompletionStep::Succeed { source, consultation } ==> source
            == completion.source.pbx_call_id && consultation
            == completion.consultation.pbx_call_id,
        step is Abort <==> active && !(worker_reserved && performed),
        shown is Some <==> active,
        shown matches Some(command) ==> command.device_id == completion.device_id && (
        command.action matches PhoneCommandAction::DisplayPrompt { call_id, prompt, .. } && call_id
            == completion.consultation.handset_call_id && prompt == Prompt::CompletingTransfer),
{
}

/// After a completion that failed the consultation is removed, unless the two
/// calls were there before; the source is told, and ended exactly if its handset
/// was put down meanwhile.
pub proof fn law_failed_completions_keep_the_source(
    completion: TransferCompletion,
    aborted: Option<Option<DeferredTransferAction>>,
    failed: Option<FailedCompletion>,
)
    requires
        call_ensures(finish_failed_completion, (&completion, aborted), failed),
    ensures
        failed is Some <==> aborted is Some,
        failed matches Some(failed) ==> {
            &&& failed.remove is None <==> completion.kind == TransferCompletionKind::Direct
            &&& failed.remove matches Some(channel) ==> channel
                == completion.consultation.pbx_call_id
            &&& failed.hang_up is Some <==> aborted == Some(Some(DeferredTransferAction::OnHook))
            &&& failed.hang_up matches Some(call) ==> call == completion.source.handset_call_id
            &&& failed.refusal.prompt.device_id == completion.device_id
            &&& failed.refusal.tone.action == (PhoneCommandAction::StartTone {
                call_id: completion.source.handset_call_id,
                tone: Tone::BeepBonk,
            })
        },
{
}

/// Cancelling a transfer removes the channel that was created to consult, and no
/// call that was there before.
pub proof fn law_cancelled_transfers_remove_the_consultation(
    transaction: TransferTransaction,
    aborted: bool,
    cancelled: Option<Option<PbxCallId>>,
)
    requires
        call_ensures(cancel_transfer, (&transaction, aborted), cancelled),
    ensures
        cancelled is Some <==> aborted,
        cancelled matches Some(remove) ==> {
            &&& remove is Some <==> transaction.mode == TransferMode::Consultation
                && transaction.consultation is Some
            &&& remove matches Some(channel) ==> channel
                == transaction.consultation->0.pbx_call_id
        },
{
}

/// A refusal is heard and read on the call it is about; that a transfer is already
/// being completed is told apart from every other reason.
pub proof fn law_refusals_are_heard_and_read(
    device_id: DeviceId,
    call_id: CallId,
    rejection: TransferRejection,
    refusal: TransferRefusal,
)
    requires
        call_ensures(show_transfer_rejection, (device_id, call_id, rejection), refusal),
    ensures
        refusal.tone.device_id == device_id,
        refusal.tone.action matches PhoneCommandAction::StartTone { call_id: on, tone } && on
            == call_id && tone == Tone::BeepBonk,
        refusal.prompt.device_id == device_id,
        refusal.prompt.action matches PhoneCommandAction::DisplayPrompt {
            call_id: on,
            timeout_seconds,
            prompt,
        } && on == call_id && timeout_seconds == 4 && (prompt == Prompt::TransferInProgress
            <==> rejection == TransferRejection::CompletionInProgress) && (prompt
            == Prompt::CanNotCompleteTransfer <==> rejection
            != TransferRejection::CompletionInProgress),
{
}

/// Setting up a consultation begins with its first effect, and is over at once
/// exactly where there is none.
pub proof fn law_setup_begins_with_the_first_effect(
    effects: Vec<DriverEffect>,
    step: (TransferSetupState, TransferSetupAction),
)
    requires
        call_ensures(execute_transfer_start, (&effects,), step),
    ensures
        step.0 is Done <==> effects@.len() == 0,
        step.1 is Finish <==> effects@.len() == 0,
        effects@.len() > 0 ==> step.0 == TransferSetupState::Checking(0) && step.1 is CheckActive,
{
}

/// A plan of the controller is carried out as it is; a refusal of it is shown, and a
/// controller that is gone is no transfer in progress.
pub proof fn law_plans_of_the_controller_are_carried_out<T>(
    device_id: DeviceId,
    call_id: CallId,
    reply: Option<Result<T, TransferRejection>>,
    outcome: Result<T, TransferRefusal>,
    rejection: TransferRejection,
    refusal: TransferRefusal,
)
    requires
        call_ensures(transfer_key_completed::<T>, (device_id, call_id, reply), outcome),
        call_ensures(show_transfer_rejection, (device_id, call_id, rejection), refusal),
    ensures
        outcome is Ok <==> (reply matches Some(answer) && answer is Ok),
        outcome matches Ok(plan) ==> reply == Some(Ok::<T, TransferRejection>(plan)),
        reply == Some(Err::<T, TransferRejection>(rejection)) ==> outcome == Err::<
            T,
            TransferRefusal,
        >(refusal),
        reply is None && rejection == TransferRejection::Conflict ==> outcome == Err::<
            T,
            TransferRefusal,
        >(refusal),
{
}

} // verus!
