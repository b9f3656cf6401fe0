//! Holding and resuming a call.
//!
//! A regular call is held by the effects that the controller returns. The leg of
//! a conference moderator is held under a reservation: its effects run one after
//! the other, and what they have already done is handed back when the change is
//! given up.

use vstd::prelude::*;

use crate::access::{Access, Shared};
use crate::call_control::{self, shows_conference_list};
use crate::commands::{self, show_prompt, PhoneCommand, PhoneCommandAction};
use crate::config;
use crate::effect_run::{self, next_state, start_run, RunEvent, RunState};
use crate::effects::{
    BridgeOperation, ConferenceMutationToken, DriverEffect, HandsetEffect, PbxEffect,
};
use crate::ids::{CallId, ConferenceId, DeviceId, ParticipantId};
use crate::lookup;
use crate::prompts::Prompt;
use crate::transfer::{TransferCancellationReason, TransferTransaction};

verus! {

/// Why a conference refuses a participant action.
#[derive(Clone, Copy, Debug, PartialEq, Eq, Structural)]
pub enum ConferenceParticipantRejection {
    Unavailable,
    NotModerator,
    InvalidParticipant,
    Moderator,
    LastModerator,
    Conflict,
}

#[derive(Clone, Copy, Debug, PartialEq, Eq, Structural)]
pub struct HoldRequest {
    pub call_id: CallId,
    pub held: bool,
    /// The switch asked for it, not the handset.
    pub pbx_originated: bool,
}

/// A reserved change of a moderator's leg and the effects that make it.
#[derive(Debug, PartialEq, Eq)]
pub struct HoldReservation {
    pub device_id: DeviceId,
    pub conference_id: ConferenceId,
    pub participant_id: ParticipantId,
    pub mutation: ConferenceMutationToken,
    pub effects: Vec<DriverEffect>,
}

/// Names the reserved change to the controller.
#[derive(Clone, Copy, Debug, PartialEq, Eq, Structural)]
pub struct ReservedHold {
    pub mutation: ConferenceMutationToken,
    pub conference_id: ConferenceId,
    pub participant_id: ParticipantId,
    pub held: bool,
}

impl HoldReservation {
    pub open spec fn reserved_spec(self, held: bool) -> ReservedHold {
        ReservedHold {
            mutation: self.mutation,
            conference_id: self.conference_id,
            participant_id: self.participant_id,
            held,
        }
    }
}

/// What the controller makes of a request to hold or resume.
#[derive(Debug, PartialEq, Eq)]
pub enum HoldPlan {
    Missing,
    Regular(Vec<DriverEffect>),
    Reserved(HoldReservation),
    Refused { device_id: DeviceId, rejection: ConferenceParticipantRejection },
}

/// The conference that a leg belongs to, as far as its list is concerned.
#[derive(Debug, PartialEq, Eq)]
pub struct ConferenceListTarget {
    pub device_id: DeviceId,
    pub original_handset_call_id: CallId,
}

#[derive(Debug, PartialEq, Eq)]
pub enum HoldState {
    /// The transfer that the call takes part in is being looked up.
    CheckingTransfer,
    Planning,
    Running { reservation: HoldReservation, run: RunState },
    Aborting { device_id: DeviceId },
    Committing { conference_id: ConferenceId },
    LookingUpList,
    Done,
}

#[derive(Debug, PartialEq, Eq)]
pub enum HoldEvent {
    /// The transfer that the call takes part in, if any.
    Transfer(Option<TransferTransaction>),
    Planned(HoldPlan),
    Run(RunEvent),
    /// The reservation was given up, and the controller returned what to undo.
    Aborted(Vec<DriverEffect>),
    /// Whether the change was committed; if not, the controller returned what
    /// to undo.
    Committed { committed: bool, rollback: Vec<DriverEffect> },
    List(Option<ConferenceListTarget>),
}

#[derive(Debug, PartialEq, Eq)]
pub enum HoldAction {
    /// Cancel the transfer because its source is resumed.
    CancelTransfer { transaction: TransferTransaction, reason: TransferCancellationReason },
    /// Have the controller plan the change.
    PrepareHold { call_id: CallId, held: bool },
    /// Execute the effects, or only those for the handset.
    Execute { effects: Vec<DriverEffect>, handset_only: bool },
    Show(PhoneCommand),
    /// See whether the reservation still holds.
    CheckActive(ConferenceMutationToken),
    /// Perform this effect of the reservation.
    Perform(usize),
    Abort {
        reserved: ReservedHold,
        completed_music: Vec<ParticipantId>,
        handset_attempted: bool,
    },
    /// Undo what was done, then show the prompt.
    CleanUpAndShow { rollback: Vec<DriverEffect>, shown: PhoneCommand },
    CleanUp { rollback: Vec<DriverEffect> },
    Commit {
        reserved: ReservedHold,
        completed_music: Vec<ParticipantId>,
        handset_attempted: bool,
    },
    /// Look the conference up.
    LookUpList(ConferenceId),
    ShowConferenceList { device_id: DeviceId, call_id: CallId },
    Finish,
}

/// The participant whose music on hold an effect changes.
pub open spec fn music_participant(effect: DriverEffect) -> Option<ParticipantId> {
    match effect {
        DriverEffect::Backend(
            PbxEffect::Bridge {
                operation: BridgeOperation::SetParticipantMusicOnHold { participant_id, .. },
            },
        ) => Some(participant_id),
        _ => None,
    }
}

/// The effect shows on the handset that the leg changes.
pub open spec fn touches_handset(effect: DriverEffect) -> bool {
    match effect {
        DriverEffect::Handset(
            HandsetEffect::SetCallState { .. }
            | HandsetEffect::BeginMedia { .. }
            | HandsetEffect::BeginAnswerMedia { .. },
        ) => true,
        _ => false,
    }
}

/// The participants whose music on hold some effects change, in order.
pub open spec fn music_of(effects: Seq<DriverEffect>) -> Seq<ParticipantId>
    decreases effects.len(),
{
    if effects.len() == 0 {
        Seq::empty()
    } else {
        match music_participant(effects.last()) {
            Some(participant) => music_of(effects.drop_last()).push(participant),
            None => music_of(effects.drop_last()),
        }
    }
}

/// One of the effects shows on the handset.
pub open spec fn any_touches_handset(effects: Seq<DriverEffect>) -> bool {
    exists|i: int| 0 <= i < effects.len() && touches_handset(#[trigger] effects[i])
}

pub fn completed_music(effects: &Vec<DriverEffect>, done: usize) -> (participants: Vec<
    ParticipantId,
>)
    requires
        done <= effects@.len(),
    ensures
        participants@ == music_of(effects@.take(done as int)),
{
    let mut participants: Vec<ParticipantId> = Vec::new();
    let mut i: usize = 0;
    while i < done
        invariant
            i <= done <= effects@.len(),
            participants@ == music_of(effects@.take(i as int)),
        decreases done - i,
    {
        proof {
            assert(effects@.take(i + 1).drop_last() =~= effects@.take(i as int));
        }
        if let DriverEffect::Backend(PbxEffect::Bridge { operation }) = &effects[i] {
            if let BridgeOperation::SetParticipantMusicOnHold { participant_id, .. } = operation {
                participants.push(*participant_id);
            }
        }
        i += 1;
    }
    participants
}

pub fn handset_attempted(effects: &Vec<DriverEffect>, count: usize) -> (attempted: bool)
    requires
        count <= effects@.len(),
    ensures
        attempted == any_touches_handset(effects@.take(count as int)),
{
    let mut i: usize = 0;
    while i < count
        invariant
            i <= count <= effects@.len(),
            !any_touches_handset(effects@.take(i as int)),
        decreases count - i,
    {
        let touches = match &effects[i] {
            DriverEffect::Handset(HandsetEffect::SetCallState { .. }) => true,
            DriverEffect::Handset(HandsetEffect::BeginMedia { .. }) => true,
            DriverEffect::Handset(HandsetEffect::BeginAnswerMedia { .. }) => true,
            _ => false,
        };
        if touches {
            proof {
                assert(touches_handset(effects@.take(count as int)[i as int]));
            }
            return true;
        }
        proof {
            assert forall|j: int| 0 <= j < i + 1 implies !touches_handset(
                #[trigger] effects@.take(i + 1)[j],
            ) by {
                if j < i {
                    assert(!touches_handset(effects@.take(i as int)[j]));
                }
            }
        }
        i += 1;
    }
    false
}

/// The prompt for a moderator's leg that cannot change.
pub open spec fn hold_rejection_spec(rejection: ConferenceParticipantRejection) -> Prompt {
    match rejection {
        ConferenceParticipantRejection::NotModerator => Prompt::ModeratorActionRequired,
        ConferenceParticipantRejection::Conflict => Prompt::ConferenceActionInProgress,
        _ => Prompt::ConferenceUnavailable,
    }
}

pub fn hold_rejection_prompt(rejection: ConferenceParticipantRejection) -> (prompt: Prompt)
    ensures
        prompt == hold_rejection_spec(rejection),
{
    match rejection {
        ConferenceParticipantRejection::NotModerator => Prompt::ModeratorActionRequired,
        ConferenceParticipantRejection::Conflict => Prompt::ConferenceActionInProgress,
        ConferenceParticipantRejection::Unavailable
        | ConferenceParticipantRejection::InvalidParticipant
        | ConferenceParticipantRejection::Moderator
        | ConferenceParticipantRejection::LastModerator => Prompt::ConferenceUnavailable,
    }
}

/// The prompt for a moderator's leg whose change failed half way.
pub open spec fn hold_failure_prompt(held: bool) -> Prompt {
    if held {
        Prompt::UnableToHoldConference
    } else {
        Prompt::UnableToResumeConference
    }
}

impl HoldState {
    pub open spec fn wf(self) -> bool {
        match self {
            HoldState::Running { reservation, run } => run.wf(reservation.effects@.len())
                && !run.ended(),
            _ => true,
        }
    }
}

/// What becomes of a reserved change when its run reaches `run`.
pub open spec fn run_outcome(
    reservation: HoldReservation,
    held: bool,
    run: RunState,
    state: HoldState,
    action: HoldAction,
) -> bool {
    let effects = reservation.effects@;
    match run {
        RunState::Before { .. } | RunState::After { .. } => {
            &&& state == (HoldState::Running { reservation, run })
            &&& action == HoldAction::CheckActive(reservation.mutation)
        },
        RunState::Performing { done } => {
            &&& state == (HoldState::Running { reservation, run })
            &&& action == HoldAction::Perform(done)
        },
        RunState::Stale { .. } => state == HoldState::Done && action == HoldAction::Finish,
        RunState::Failed { done } => {
            &&& state == (HoldState::Aborting { device_id: reservation.device_id })
            &&& action matches HoldAction::Abort { reserved, completed_music, handset_attempted }
            &&& reserved == reservation.reserved_spec(held)
            &&& completed_music@ == music_of(effects.take(done as int))
            &&& handset_attempted == any_touches_handset(effects.take(done + 1))
        },
        RunState::Complete => {
            &&& state == (HoldState::Committing { conference_id: reservation.conference_id })
            &&& action matches HoldAction::Commit { reserved, completed_music, handset_attempted }
            &&& reserved == reservation.reserved_spec(held)
            &&& completed_music@ == music_of(effects)
            &&& handset_attempted == any_touches_handset(effects)
        },
    }
}

/// What a request does next after an event.
pub open spec fn hold_transition(
    shared: Shared,
    request: HoldRequest,
    before: HoldState,
    event: HoldEvent,
    after: HoldState,
    action: HoldAction,
) -> bool {
    match (before, event) {
        (HoldState::CheckingTransfer, HoldEvent::Transfer(transaction)) => match transaction {
            Some(transaction) if !request.held && !request.pbx_originated
                && transaction.source.handset_call_id == request.call_id => {
                &&& after == HoldState::Done
                &&& action == (HoldAction::CancelTransfer {
                    transaction,
                    reason: TransferCancellationReason::SourceResume,
                })
            },
            _ => {
                &&& after == HoldState::Planning
                &&& action == (HoldAction::PrepareHold {
                    call_id: request.call_id,
                    held: request.held,
                })
            },
        },
        (HoldState::Planning, HoldEvent::Planned(plan)) => match plan {
            HoldPlan::Missing => after == HoldState::Done && action == HoldAction::Finish,
            HoldPlan::Regular(effects) => after == HoldState::Done && action == (
            HoldAction::Execute { effects, handset_only: request.pbx_originated }),
            HoldPlan::Refused { device_id, rejection } => after == HoldState::Done && action
                == HoldAction::Show(
                commands::prompt_command(
                    device_id,
                    request.call_id,
                    4,
                    hold_rejection_spec(rejection),
                ),
            ),
            HoldPlan::Reserved(reservation) => run_outcome(
                reservation,
                request.held,
                effect_run::start_spec(reservation.effects@.len() as usize),
                after,
                action,
            ),
        },
        (HoldState::Running { reservation, run }, HoldEvent::Run(event)) => run_outcome(
            reservation,
            request.held,
            effect_run::next_spec(reservation.effects@.len() as usize, run, event),
            after,
            action,
        ),
        (HoldState::Aborting { device_id }, HoldEvent::Aborted(rollback)) => {
            &&& after == HoldState::Done
            &&& action == (HoldAction::CleanUpAndShow {
                rollback,
                shown: commands::prompt_command(
                    device_id,
                    request.call_id,
                    4,
                    hold_failure_prompt(request.held),
                ),
            })
        },
        (
            HoldState::Committing { conference_id },
            HoldEvent::Committed { committed, rollback },
        ) => if !committed {
            after == HoldState::Done && action == (HoldAction::CleanUp { rollback })
        } else if request.held {
            after == HoldState::Done && action == HoldAction::Finish
        } else {
            after == HoldState::LookingUpList && action == HoldAction::LookUpList(conference_id)
        },
        (HoldState::LookingUpList, HoldEvent::List(target)) => match target {
            Some(target) if call_control::shows_list_spec(shared, target.device_id@) => after == HoldState::Done && action == (
            HoldAction::ShowConferenceList {
                device_id: target.device_id,
                call_id: target.original_handset_call_id,
            }),
            _ => after == HoldState::Done && action == HoldAction::Finish,
        },
        _ => after == HoldState::Done && action == HoldAction::Finish,
    }
}

fn follow_run(reservation: HoldReservation, held: bool, run: RunState) -> (step: (
    HoldState,
    HoldAction,
))
    requires
        run.wf(reservation.effects@.len()),
    ensures
        run_outcome(reservation, held, run, step.0, step.1),
        step.0.wf(),
{
    let count: usize = reservation.effects.len();
    let reserved = ReservedHold {
        mutation: reservation.mutation,
        conference_id: reservation.conference_id,
        participant_id: reservation.participant_id,
        held,
    };
    match run {
        RunState::Before { .. } | RunState::After { .. } => {
            let mutation = reservation.mutation;
            (HoldState::Running { reservation, run }, HoldAction::CheckActive(mutation))
        },
        RunState::Performing { done } => {
            (HoldState::Running { reservation, run }, HoldAction::Perform(done))
        },
        RunState::Stale { .. } => (HoldState::Done, HoldAction::Finish),
        RunState::Failed { done } => {
            let completed_music = completed_music(&reservation.effects, done);
            let handset_attempted = handset_attempted(&reservation.effects, done + 1);
            (
                HoldState::Aborting { device_id: reservation.device_id },
                HoldAction::Abort { reserved, completed_music, handset_attempted },
            )
        },
        RunState::Complete => {
            proof {
                assert(reservation.effects@.take(count as int) =~= reservation.effects@);
            }
            let completed_music = completed_music(&reservation.effects, count);
            let handset_attempted = handset_attempted(&reservation.effects, count);
            (
                HoldState::Committing { conference_id: reservation.conference_id },
                HoldAction::Commit { reserved, completed_music, handset_attempted },
            )
        },
    }
}

/// Decides what a request to hold or resume does next. A request starts in
/// `CheckingTransfer`; an event that the state does not wait for ends it.
pub fn handle_hold_or_resume(
    access: &Access,
    request: HoldRequest,
    state: HoldState,
    event: HoldEvent,
) -> (step: (HoldState, HoldAction))
    requires
        state.wf(),
    ensures
        hold_transition(access.shared, request, state, event, step.0, step.1),
        step.0.wf(),
{
    match (state, event) {
        (HoldState::CheckingTransfer, HoldEvent::Transfer(transaction)) => {
            match transaction {
                Some(transaction) => if !request.held && !request.pbx_originated
                    && transaction.source.handset_call_id == request.call_id {
                    return (
                        HoldState::Done,
                        HoldAction::CancelTransfer {
                            transaction,
                            reason: TransferCancellationReason::SourceResume,
                        },
                    );
                },
                None => {},
            }
            (
                HoldState::Planning,
                HoldAction::PrepareHold { call_id: request.call_id, held: request.held },
            )
        },
        (HoldState::Planning, HoldEvent::Planned(plan)) => match plan {
            HoldPlan::Missing => (HoldState::Done, HoldAction::Finish),
            HoldPlan::Regular(effects) => (
                HoldState::Done,
                HoldAction::Execute { effects, handset_only: request.pbx_originated },
            ),
            HoldPlan::Refused { device_id, rejection } => (
                HoldState::Done,
                HoldAction::Show(
                    show_prompt(device_id, request.call_id, 4, hold_rejection_prompt(rejection)),
                ),
            ),
            HoldPlan::Reserved(reservation) => {
                let run = start_run(reservation.effects.len());
                follow_run(reservation, request.held, run)
            },
        },
        (HoldState::Running { reservation, run }, HoldEvent::Run(event)) => {
            let run = next_state(reservation.effects.len(), run, event);
            follow_run(reservation, request.held, run)
        },
        (HoldState::Aborting { device_id }, HoldEvent::Aborted(rollback)) => {
            let prompt = if request.held {
                Prompt::UnableToHoldConference
            } else {
                Prompt::UnableToResumeConference
            };
            (
                HoldState::Done,
                HoldAction::CleanUpAndShow {
                    rollback,
                    shown: show_prompt(device_id, request.call_id, 4, prompt),
                },
            )
        },
        (
            HoldState::Committing { conference_id },
            HoldEvent::Committed { committed, rollback },
        ) => if !committed {
            (HoldState::Done, HoldAction::CleanUp { rollback })
        } else if request.held {
            (HoldState::Done, HoldAction::Finish)
        } else {
            (HoldState::LookingUpList, HoldAction::LookUpList(conference_id))
        },
        (HoldState::LookingUpList, HoldEvent::List(target)) => match target {
            Some(target) => if shows_conference_list(access, &target.device_id) {
                (
                    HoldState::Done,
                    HoldAction::ShowConferenceList {
                        device_id: target.device_id,
                        call_id: target.original_handset_call_id,
                    },
                )
            } else {
                (HoldState::Done, HoldAction::Finish)
            },
            None => (HoldState::Done, HoldAction::Finish),
        },
        _ => (HoldState::Done, HoldAction::Finish),
    }
}

/// What a failed change reports as done is never more than what ran: the
/// participants whose music was changed are among those of all effects, in the
/// same order.
pub proof fn law_reported_music_is_a_prefix(effects: Seq<DriverEffect>, done: int)
    requires
        0 <= done <= effects.len(),
    ensures
        music_of(effects.take(done)).is_prefix_of(music_of(effects)),
    decreases effects.len() - done,
{
    if done == effects.len() {
        assert(effects.take(done) =~= effects);
    } else {
        law_reported_music_is_a_prefix(effects, done + 1);
        assert(effects.take(done + 1).drop_last() =~= effects.take(done));
    }
}

/// The controller is asked to change exactly the call of the request, and to hold
/// it exactly if that was requested.
pub proof fn law_holding_asks_for_what_was_requested(
    access: &Access,
    request: HoldRequest,
    state: HoldState,
    event: HoldEvent,
    after: HoldState,
    action: HoldAction,
)
    requires
        state.wf(),
        call_ensures(handle_hold_or_resume, (access, request, state, event), (after, action)),
    ensures
        action matches HoldAction::PrepareHold { call_id, held } ==> call_id == request.call_id && (
        held <==> request.held),
        action matches HoldAction::Abort { reserved, .. } ==> (reserved.held <==> request.held),
        action matches HoldAction::Commit { reserved, .. } ==> (reserved.held <==> request.held),
{
}

/// A transfer is cancelled exactly if its handset resumes the call that it
/// transfers; every other request leads to a plan of the controller.
pub proof fn law_resuming_the_source_cancels_its_transfer(
    access: &Access,
    request: HoldRequest,
    transaction: Option<TransferTransaction>,
    after: HoldState,
    action: HoldAction,
)
    requires
        call_ensures(
            handle_hold_or_resume,
            (access, request, HoldState::CheckingTransfer, HoldEvent::Transfer(transaction)),
            (after, action),
        ),
    ensures
        action is CancelTransfer <==> !request.held && !request.pbx_originated
            && transaction is Some && transaction->0.source.handset_call_id == request.call_id,
        action matches HoldAction::CancelTransfer { transaction: cancelled, reason } ==> transaction
            == Some(cancelled) && reason == TransferCancellationReason::SourceResume
            && after is Done,
        action !is CancelTransfer ==> action is PrepareHold && after is Planning,
{
}

/// A plan is carried out as the controller made it: the effects of a regular call
/// are executed unchanged, those for the handset alone exactly if the switch asked;
/// a missing call ends the request; a refusal is shown on the call.
pub proof fn law_hold_plans_are_followed(
    access: &Access,
    request: HoldRequest,
    plan: HoldPlan,
    after: HoldState,
    action: HoldAction,
)
    requires
        call_ensures(
            handle_hold_or_resume,
            (access, request, HoldState::Planning, HoldEvent::Planned(plan)),
            (after, action),
        ),
    ensures
        plan is Missing ==> action is Finish,
        action is Execute <==> plan is Regular,
        action matches HoldAction::Execute { effects, handset_only } ==> plan == HoldPlan::Regular(
            effects,
        ) && (handset_only <==> request.pbx_originated),
        action is Show <==> plan is Refused,
        action matches HoldAction::Show(shown) ==> {
            &&& shown.device_id == plan->Refused_device_id
            &&& shown.action matches PhoneCommandAction::DisplayPrompt { call_id, prompt, .. }
            &&& call_id == request.call_id
            &&& prompt == Prompt::ModeratorActionRequired <==> plan->rejection
                == ConferenceParticipantRejection::NotModerator
            &&& prompt == Prompt::ConferenceActionInProgress <==> plan->rejection
                == ConferenceParticipantRejection::Conflict
            &&& prompt == Prompt::ModeratorActionRequired || prompt
                == Prompt::ConferenceActionInProgress || prompt == Prompt::ConferenceUnavailable
        },
        plan is Reserved <==> after is Running || after is Committing,
        after is Committing ==> plan->Reserved_0.effects@.len() == 0,
{
    if let HoldPlan::Reserved(reservation) = plan {
        assert(reservation.effects.len() == reservation.effects@.len());
    }
}

/// A reserved change is committed only after its last effect succeeded under a
/// reservation that still holds, and given up exactly when an effect fails. Either
/// names the reservation that it belongs to.
pub proof fn law_reserved_holds_commit_after_their_last_effect(
    access: &Access,
    request: HoldRequest,
    reservation: HoldReservation,
    run: RunState,
    event: RunEvent,
    after: HoldState,
    action: HoldAction,
)
    requires
        run.wf(reservation.effects@.len()),
        !run.ended(),
        call_ensures(
            handle_hold_or_resume,
            (access, request, HoldState::Running { reservation, run }, HoldEvent::Run(event)),
            (after, action),
        ),
    ensures
        action is Commit <==> run == (RunState::After {
            done: reservation.effects.len(),
        }) && event == RunEvent::Active(true),
        action is Abort <==> run is Performing && event == RunEvent::Performed(false),
        action is Finish <==> (run is Before || run is After) && event == RunEvent::Active(false),
        action matches HoldAction::Commit { reserved, .. } ==> {
            &&& reserved.mutation == reservation.mutation
            &&& reserved.conference_id == reservation.conference_id
            &&& reserved.participant_id == reservation.participant_id
        },
        action matches HoldAction::Abort { reserved, .. } ==> {
            &&& reserved.mutation == reservation.mutation
            &&& reserved.conference_id == reservation.conference_id
            &&& reserved.participant_id == reservation.participant_id
        },
        action matches HoldAction::CheckActive(mutation) ==> mutation == reservation.mutation,
        action is Perform ==> run is Before || run is Performing,
        action matches HoldAction::Perform(index) ==> index < reservation.effects@.len(),
{
    assert(reservation.effects.len() == reservation.effects@.len());
}

proof fn lemma_music_of(effects: Seq<DriverEffect>, participant: ParticipantId)
    ensures
        music_of(effects).contains(participant) <==> exists|i: int|
            0 <= i < effects.len() && music_participant(#[trigger] effects[i]) == Some(participant),
    decreases effects.len(),
{
    if effects.len() > 0 {
        let before = effects.drop_last();
        lemma_music_of(before, participant);
        let last = effects.len() - 1;
        assert(effects.last() == effects[last]);
        if music_of(effects).contains(participant) {
            let k = choose|k: int|
                0 <= k < music_of(effects).len() && music_of(effects)[k] == participant;
            if k < music_of(before).len() {
                assert(music_of(before)[k] == participant);
                let i = choose|i: int|
                    0 <= i < before.len() && music_participant(#[trigger] before[i]) == Some(
                        participant,
                    );
                assert(effects[i] == before[i]);
            }
        }
        if exists|i: int|
            0 <= i < effects.len() && music_participant(#[trigger] effects[i]) == Some(
                participant,
            ) {
            let i = choose|i: int|
                0 <= i < effects.len() && music_participant(#[trigger] effects[i]) == Some(
                    participant,
                );
            if i < last {
                assert(before[i] == effects[i]);
                let k = choose|k: int|
                    0 <= k < music_of(before).len() && music_of(before)[k] == participant;
                assert(music_of(effects)[k] == participant);
            } else {
                assert(music_of(effects).last() == participant);
            }
        }
    }
}

/// What is reported about a change that was given up is what it has done: the
/// participants whose music on hold some finished effect switched, and whether an
/// effect that was begun shows on the handset.
pub proof fn law_interrupted_holds_report_what_was_done(
    effects: Vec<DriverEffect>,
    done: usize,
    participants: Vec<ParticipantId>,
    attempted: bool,
    participant: ParticipantId,
)
    requires
        done < effects@.len(),
        call_ensures(completed_music, (&effects, done), participants),
        call_ensures(handset_attempted, (&effects, (done + 1) as usize), attempted),
    ensures
        participants@.contains(participant) <==> exists|i: int|
            0 <= i < done && ((#[trigger] effects@[i]) matches DriverEffect::Backend(
                PbxEffect::Bridge {
                    operation: BridgeOperation::SetParticipantMusicOnHold { participant_id, .. },
                },
            ) && participant_id == participant),
        attempted <==> exists|i: int|
            0 <= i <= done && ((#[trigger] effects@[i]) matches DriverEffect::Handset(shown) && (
            shown is SetCallState || shown is BeginMedia || shown is BeginAnswerMedia)),
{
    assert(effects.len() == effects@.len());
    let before = effects@.take(done as int);
    lemma_music_of(before, participant);
    assert forall|i: int| 0 <= i < done implies #[trigger] effects@[i] == before[i] by {}
    let begun = effects@.take(done + 1);
    assert forall|i: int| 0 <= i <= done implies #[trigger] effects@[i] == begun[i] by {}
    if exists|i: int|
        0 <= i < before.len() && music_participant(#[trigger] before[i]) == Some(participant) {
        let i = choose|i: int|
            0 <= i < before.len() && music_participant(#[trigger] before[i]) == Some(participant);
        assert(effects@[i] == before[i]);
    }
    if exists|i: int|
        0 <= i < done && ((#[trigger] effects@[i]) matches DriverEffect::Backend(
            PbxEffect::Bridge {
                operation: BridgeOperation::SetParticipantMusicOnHold { participant_id, .. },
            },
        ) && participant_id == participant) {
        let i = choose|i: int|
            0 <= i < done && ((#[trigger] effects@[i]) matches DriverEffect::Backend(
                PbxEffect::Bridge {
                    operation: BridgeOperation::SetParticipantMusicOnHold { participant_id, .. },
                },
            ) && participant_id == participant);
        assert(music_participant(before[i]) == Some(participant));
    }
    if any_touches_handset(begun) {
        let i = choose|i: int| 0 <= i < begun.len() && touches_handset(#[trigger] begun[i]);
        assert(effects@[i] == begun[i]);
    }
    if exists|i: int|
        0 <= i <= done && ((#[trigger] effects@[i]) matches DriverEffect::Handset(shown) && (
        shown is SetCallState || shown is BeginMedia || shown is BeginAnswerMedia)) {
        let i = choose|i: int|
            0 <= i <= done && ((#[trigger] effects@[i]) matches DriverEffect::Handset(shown) && (
            shown is SetCallState || shown is BeginMedia || shown is BeginAnswerMedia));
        assert(touches_handset(begun[i]));
    }
}

/// A change that came to nothing is undone with exactly what the controller
/// returned, and the moderator is told whether holding or resuming failed.
pub proof fn law_failed_holds_are_undone_and_shown(
    access: &Access,
    request: HoldRequest,
    device_id: DeviceId,
    conference_id: ConferenceId,
    rollback: Vec<DriverEffect>,
    committed: bool,
    aborted: (HoldState, HoldAction),
    ended: (HoldState, HoldAction),
)
    requires
        call_ensures(
            handle_hold_or_resume,
            (access, request, HoldState::Aborting { device_id }, HoldEvent::Aborted(rollback)),
            aborted,
        ),
        call_ensures(
            handle_hold_or_resume,
            (
                access,
                request,
                HoldState::Committing { conference_id },
                HoldEvent::Committed { committed, rollback },
            ),
            ended,
        ),
    ensures
        aborted.1 matches HoldAction::CleanUpAndShow { rollback: undone, shown } && {
            &&& undone == rollback
            &&& shown.device_id == device_id
            &&& shown.action matches PhoneCommandAction::DisplayPrompt { call_id, prompt, .. }
            &&& call_id == request.call_id
            &&& prompt == Prompt::UnableToHoldConference <==> request.held
            &&& prompt == Prompt::UnableToResumeConference <==> !request.held
        },
        ended.1 is CleanUp <==> !committed,
        ended.1 matches HoldAction::CleanUp { rollback: undone } ==> undone == rollback,
        ended.1 is LookUpList <==> committed && !request.held,
        ended.1 matches HoldAction::LookUpList(looked_up) ==> looked_up == conference_id,
{
}

/// A resumed conference shows its list to its owner exactly if the owner's
/// configuration asks for it.
pub proof fn law_resumed_conferences_show_their_list(
    access: &Access,
    request: HoldRequest,
    target: ConferenceListTarget,
    after: HoldState,
    action: HoldAction,
    d: int,
)
    requires
        call_ensures(
            handle_hold_or_resume,
            (access, request, HoldState::LookingUpList, HoldEvent::List(Some(target))),
            (after, action),
        ),
        0 <= d < access.shared.config.devices@.len(),
        access.shared.config.devices@[d].id@ == target.device_id@,
        forall|j: int|
            0 <= j < d ==> (#[trigger] access.shared.config.devices@[j]).id@ != target.device_id@,
    ensures
        action is ShowConferenceList
            <==> access.shared.config.devices@[d].conference.show_conference_list,
        action matches HoldAction::ShowConferenceList { device_id, call_id } ==> device_id
            == target.device_id && call_id == target.original_handset_call_id,
{
    lookup::lemma_first_is(
        access.shared.config.devices@,
        config::is_device(target.device_id@),
        d,
    );
}

/// A refusal to hold or resume a participant says what stood in its way.
pub proof fn law_refused_holds_are_told_why(
    rejection: ConferenceParticipantRejection,
    prompt: Prompt,
)
    requires
        call_ensures(hold_rejection_prompt, (rejection,), prompt),
    ensures
        prompt == Prompt::ModeratorActionRequired <==> rejection is NotModerator,
        prompt == Prompt::ConferenceActionInProgress <==> rejection is Conflict,
        prompt == Prompt::ConferenceUnavailable <==> !(rejection is NotModerator) && !(rejection
            is Conflict),
{
}

} // verus!
