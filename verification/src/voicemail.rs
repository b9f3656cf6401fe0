//! Sending calls to voicemail.

use vstd::prelude::*;

use crate::access::{Access, Shared};
use crate::collect::find;
use crate::commands::{self, show_prompt, PhoneCommand, PhoneCommandAction};
use crate::config;
use crate::controller;
use crate::effects::{DriverEffect, PbxEffect, TransactionId};
use crate::events::SoftKey;
use crate::ids::{CallId, DeviceId, PbxCallId};
use crate::lookup;
use crate::prompts::Prompt;

verus! {

/// What a voicemail key asks for.
#[derive(Debug, PartialEq, Eq)]
pub enum VoicemailKeyAction<'a> {
    /// Divert the call to the line's mailbox.
    Divert {
        call_id: CallId,
        context: &'a String,
        destination: &'a String,
        /// The key acts on the selection of the station.
        selection: bool,
    },
    Show(PhoneCommand),
    Ignore,
}

/// The call that a voicemail key acts on: the one it was pressed on, or the only
/// one that is selected.
pub open spec fn voicemail_call_spec(
    shared: Shared,
    device: Seq<char>,
    key_call_id: Option<CallId>,
    soft_key: SoftKey,
) -> Option<CallId> {
    match soft_key {
        SoftKey::ImmediateDivert => key_call_id,
        SoftKey::TransferToVoicemail => match lookup::first(
            shared.controller.registered@,
            controller::is_station(device),
        ) {
            Some(station) => if station.selected_calls@.len() == 1 {
                Some(station.selected_calls@[0])
            } else {
                None
            },
            None => None,
        },
        _ => None,
    }
}

/// Where calls on the line of `call_id` are diverted to.
pub open spec fn voicemail_target_spec(shared: Shared, device: Seq<char>, call_id: CallId) ->
    Option<(String, String)> {
    match lookup::first(shared.controller.appearances@, controller::is_call(call_id)) {
        Some(call) => match shared.binding_spec(device, call.line_instance) {
            Some(binding) => match lookup::first(
                shared.config.line_features@,
                config::features_of_line(binding.line.number@),
            ) {
                Some(features) => match features.voicemail_divert {
                    Some(destination) => Some((binding.line.context, destination)),
                    None => None,
                },
                None => None,
            },
            None => None,
        },
        None => None,
    }
}

/// A text on a call, where there is one to show it on.
pub open spec fn voicemail_prompt_spec(
    device_id: DeviceId,
    call_id: Option<CallId>,
    prompt: Prompt,
) -> Option<PhoneCommand> {
    match call_id {
        Some(call_id) => Some(commands::prompt_command(device_id, call_id, 4, prompt)),
        None => None,
    }
}

/// Shows a text on a call, where there is one.
pub fn display_voicemail_prompt(device_id: DeviceId, call_id: Option<CallId>, prompt: Prompt) ->
    (command: Option<PhoneCommand>)
    ensures
        command == voicemail_prompt_spec(device_id, call_id, prompt),
{
    match call_id {
        Some(call_id) => Some(show_prompt(device_id, call_id, 4, prompt)),
        None => None,
    }
}

pub open spec fn voicemail_key_spec<'a>(
    shared: Shared,
    device_id: DeviceId,
    key_call_id: Option<CallId>,
    soft_key: SoftKey,
    target_valid: bool,
) -> VoicemailKeyAction<'a> {
    match voicemail_call_spec(shared, device_id@, key_call_id, soft_key) {
        None => match voicemail_prompt_spec(device_id, key_call_id, Prompt::SelectExactlyOneCall) {
            Some(command) => VoicemailKeyAction::Show(command),
            None => VoicemailKeyAction::Ignore,
        },
        Some(call_id) => match voicemail_target_spec(shared, device_id@, call_id) {
            Some((context, destination)) if target_valid => VoicemailKeyAction::Divert {
                call_id,
                context: &context,
                destination: &destination,
                selection: soft_key == SoftKey::TransferToVoicemail,
            },
            _ => VoicemailKeyAction::Show(
                commands::prompt_command(
                    device_id,
                    call_id,
                    4,
                    Prompt::VoicemailIsNotConfigured,
                ),
            ),
        },
    }
}

/// Decides what a voicemail key asks for. `target_valid` says whether the switch
/// takes the destination that is configured.
pub fn handle_voicemail_soft_key<'a>(
    access: &'a Access,
    device_id: DeviceId,
    key_call_id: Option<CallId>,
    soft_key: SoftKey,
    target_valid: bool,
) -> (action: VoicemailKeyAction<'a>)
    ensures
        action == voicemail_key_spec::<'a>(
            access.shared,
            device_id,
            key_call_id,
            soft_key,
            target_valid,
        ),
{
    let selected = match soft_key {
        SoftKey::ImmediateDivert => key_call_id,
        SoftKey::TransferToVoicemail => match access.shared.controller.registered_device(
            &device_id,
        ) {
            Some(station) => if station.selected_calls.len() == 1 {
                Some(station.selected_calls[0])
            } else {
                None
            },
            None => None,
        },
        _ => None,
    };
    let call_id = match selected {
        Some(call_id) => call_id,
        None => {
            return match display_voicemail_prompt(
                device_id,
                key_call_id,
                Prompt::SelectExactlyOneCall,
            ) {
                Some(command) => VoicemailKeyAction::Show(command),
                None => VoicemailKeyAction::Ignore,
            };
        },
    };
    if target_valid {
        match access.shared.controller.call(call_id) {
            Some(call) => match access.line_binding(&device_id, call.line_instance) {
                Some(binding) => match access.shared.config.features_for_line(
                    binding.line.number.as_str(),
                ) {
                    Some(features) => match &features.voicemail_divert {
                        Some(destination) => {
                            return VoicemailKeyAction::Divert {
                                call_id,
                                context: &binding.line.context,
                                destination,
                                selection: soft_key == SoftKey::TransferToVoicemail,
                            };
                        },
                        None => {},
                    },
                    None => {},
                },
                None => {},
            },
            None => {},
        }
    }
    VoicemailKeyAction::Show(show_prompt(device_id, call_id, 4, Prompt::VoicemailIsNotConfigured))
}

/// A diversion, by its own number, and the call that it diverts.
#[derive(Debug, PartialEq, Eq)]
pub struct VoicemailTransaction {
    pub id: TransactionId,
    pub device_id: DeviceId,
    pub handset_call_id: CallId,
    pub pbx_call_id: PbxCallId,
}

/// A diversion that the controller prepared.
#[derive(Debug, PartialEq, Eq)]
pub struct VoicemailPlan {
    pub transaction: VoicemailTransaction,
    pub effects: Vec<DriverEffect>,
}

/// Where a diversion stands.
#[derive(Clone, Copy, Debug, PartialEq, Eq, Structural)]
pub enum VoicemailState {
    Routing,
    Completing,
    Done,
}

/// How the controller closes a diversion that the switch carried out.
#[derive(Clone, Copy, Debug, PartialEq, Eq, Structural)]
pub enum VoicemailCompletion {
    Committed,
    CallAlreadyEnded,
    /// The controller no longer knows the diversion.
    Diverged,
}

#[derive(Clone, Copy, Debug, PartialEq, Eq, Structural)]
pub enum VoicemailReply {
    /// The switch routed the call.
    Routed(bool),
    Completed(VoicemailCompletion),
}

/// What a diversion asks for; the controller is always asked about the diversion
/// itself.
#[derive(Debug, PartialEq, Eq)]
pub enum VoicemailAction<'a> {
    /// Have the switch route this call.
    Route { call_id: PbxCallId },
    Abort,
    AbortAndShow(PhoneCommand),
    Complete,
    /// Publish the line, where it is known, and execute the effects.
    PublishAndExecute { line: Option<&'a String> },
    Finish,
}

/// The call that an effect has the switch divert.
pub open spec fn diverted_call() -> spec_fn(DriverEffect) -> Option<PbxCallId> {
    |effect: DriverEffect|
        match effect {
            DriverEffect::Backend(PbxEffect::Voicemail { call_id }) => Some(call_id),
            _ => None,
        }
}

/// The effect has the switch divert a call.
pub open spec fn diverts() -> spec_fn(DriverEffect) -> bool {
    |effect: DriverEffect| diverted_call()(effect) is Some
}

pub open spec fn voicemail_start_spec<'a>(plan: VoicemailPlan, active: bool) -> (
    VoicemailState,
    VoicemailAction<'a>,
) {
    if !active {
        (VoicemailState::Done, VoicemailAction::Finish)
    } else {
        match lookup::first(plan.effects@, diverts()) {
            Some(effect) => (
                VoicemailState::Routing,
                VoicemailAction::Route { call_id: diverted_call()(effect)->0 },
            ),
            None => (VoicemailState::Done, VoicemailAction::Abort),
        }
    }
}

/// The first step of a diversion: a plan that was overtaken does nothing, and
/// one without work for the switch is taken back. `active` says whether the
/// controller still knows the diversion.
pub fn execute_voicemail_plan<'a>(plan: &VoicemailPlan, active: bool) -> (step: (
    VoicemailState,
    VoicemailAction<'a>,
))
    ensures
        step == voicemail_start_spec::<'a>(*plan, active),
{
    if !active {
        return (VoicemailState::Done, VoicemailAction::Finish);
    }
    match find(
        &plan.effects,
        |effect: &DriverEffect| -> (found: bool)
            ensures
                found == diverts()(*effect)
            {
                match effect {
                    DriverEffect::Backend(PbxEffect::Voicemail { .. }) => true,
                    _ => false,
                }
            },
        Ghost(diverts()),
    ) {
        Some(DriverEffect::Backend(PbxEffect::Voicemail { call_id })) => (
            VoicemailState::Routing,
            VoicemailAction::Route { call_id: *call_id },
        ),
        _ => {
            proof {
                lookup::lemma_first_at(plan.effects@, diverts(), 0);
            }
            (VoicemailState::Done, VoicemailAction::Abort)
        },
    }
}

/// The line of a call.
pub open spec fn line_spec(shared: Shared, call_id: PbxCallId) -> Option<String> {
    match lookup::first(shared.controller.calls@, controller::is_pbx_call(call_id)) {
        Some(call) => Some(call.line),
        None => None,
    }
}

/// The line whose state is published once the call is diverted; it is looked up
/// before anything is done.
pub fn voicemail_line<'a>(access: &'a Access, plan: &VoicemailPlan) -> (line: Option<&'a String>)
    ensures
        lookup::target(line) == line_spec(access.shared, plan.transaction.pbx_call_id),
{
    match access.shared.controller.pbx_call(plan.transaction.pbx_call_id) {
        Some(call) => Some(&call.line),
        None => None,
    }
}

pub open spec fn voicemail_step_spec<'a>(
    transaction: VoicemailTransaction,
    line: Option<&'a String>,
    state: VoicemailState,
    reply: VoicemailReply,
) -> (VoicemailState, VoicemailAction<'a>) {
    match (state, reply) {
        (VoicemailState::Routing, VoicemailReply::Routed(true)) => (
            VoicemailState::Completing,
            VoicemailAction::Complete,
        ),
        (VoicemailState::Routing, VoicemailReply::Routed(false)) => (
            VoicemailState::Done,
            VoicemailAction::AbortAndShow(
                commands::prompt_command(
                    transaction.device_id,
                    transaction.handset_call_id,
                    4,
                    Prompt::UnableToReachVoicemail,
                ),
            ),
        ),
        (
            VoicemailState::Completing,
            VoicemailReply::Completed(VoicemailCompletion::Committed),
        ) => (VoicemailState::Done, VoicemailAction::PublishAndExecute { line }),
        _ => (VoicemailState::Done, VoicemailAction::Finish),
    }
}

/// Goes on with a diversion.
pub fn continue_voicemail_plan<'a>(
    transaction: &VoicemailTransaction,
    line: Option<&'a String>,
    state: VoicemailState,
    reply: VoicemailReply,
) -> (step: (VoicemailState, VoicemailAction<'a>))
    ensures
        step == voicemail_step_spec(*transaction, line, state, reply),
{
    match (state, reply) {
        (VoicemailState::Routing, VoicemailReply::Routed(true)) => (
            VoicemailState::Completing,
            VoicemailAction::Complete,
        ),
        (VoicemailState::Routing, VoicemailReply::Routed(false)) => (
            VoicemailState::Done,
            VoicemailAction::AbortAndShow(
                show_prompt(
                    transaction.device_id.clone(),
                    transaction.handset_call_id,
                    4,
                    Prompt::UnableToReachVoicemail,
                ),
            ),
        ),
        (
            VoicemailState::Completing,
            VoicemailReply::Completed(VoicemailCompletion::Committed),
        ) => (VoicemailState::Done, VoicemailAction::PublishAndExecute { line }),
        _ => (VoicemailState::Done, VoicemailAction::Finish),
    }
}

/// A diversion that the controller refuses is reported on the call.
pub fn voicemail_refused(device_id: DeviceId, call_id: CallId) -> (command: PhoneCommand)
    ensures
        command == commands::prompt_command(
            device_id,
            call_id,
            4,
            Prompt::VoicemailActionUnavailable,
        ),
{
    show_prompt(device_id, call_id, 4, Prompt::VoicemailActionUnavailable)
}

/// Calls are sent to voicemail from the selection only if exactly one is
/// selected.
pub proof fn law_selection_diverts_one_call(
    shared: Shared,
    device_id: DeviceId,
    key_call_id: Option<CallId>,
    target_valid: bool,
)
    ensures
        voicemail_key_spec(
            shared,
            device_id,
            key_call_id,
            SoftKey::TransferToVoicemail,
            target_valid,
        ) is Divert ==> {
            &&& lookup::first(
                shared.controller.registered@,
                controller::is_station(device_id@),
            ) matches Some(station)
            &&& station.selected_calls@.len() == 1
        },
{
}

/// Diverting takes the call of the key, transferring the only selected call of the
/// station. The call goes where the settings of its line say, in the context of the
/// line; without a call that is told, and without such a place as well.
pub proof fn law_voicemail_keys_take_the_right_call<'a>(
    access: &'a Access,
    device_id: DeviceId,
    key_call_id: Option<CallId>,
    soft_key: SoftKey,
    target_valid: bool,
    action: VoicemailKeyAction<'a>,
    s: int,
)
    requires
        call_ensures(
            handle_voicemail_soft_key,
            (access, device_id, key_call_id, soft_key, target_valid),
            action,
        ),
        0 <= s < access.shared.controller.registered@.len(),
        access.shared.controller.registered@[s].id@ == device_id@,
        forall|j: int|
            0 <= j < s ==> (#[trigger] access.shared.controller.registered@[j]).id@ != device_id@,
    ensures
        ({
            let selected = access.shared.controller.registered@[s].selected_calls@;
            &&& action matches VoicemailKeyAction::Divert { call_id, selection, .. } ==> {
                &&& target_valid
                &&& soft_key is ImmediateDivert || soft_key is TransferToVoicemail
                &&& soft_key is ImmediateDivert ==> key_call_id == Some(call_id) && !selection
                &&& soft_key is TransferToVoicemail ==> selected.len() == 1 && selected[0]
                    == call_id && selection
            }
            &&& action is Ignore <==> key_call_id is None && !(soft_key is TransferToVoicemail
                && selected.len() == 1)
            &&& action matches VoicemailKeyAction::Show(command) ==> {
                &&& command.device_id == device_id
                &&& command.action matches PhoneCommandAction::DisplayPrompt {
                    call_id,
                    timeout_seconds,
                    prompt,
                } && timeout_seconds == 4 && (soft_key is TransferToVoicemail && selected.len()
                    == 1 ==> call_id == selected[0] && prompt == Prompt::VoicemailIsNotConfigured)
                    && (soft_key is ImmediateDivert ==> key_call_id == Some(call_id) && prompt
                    == Prompt::VoicemailIsNotConfigured) && (soft_key is TransferToVoicemail
                    && selected.len() != 1 ==> key_call_id == Some(call_id) && prompt
                    == Prompt::SelectExactlyOneCall)
            }
        }),
{
    lookup::lemma_first_is(
        access.shared.controller.registered@,
        controller::is_station(device_id@),
        s,
    );
}

/// A call is diverted exactly if its line on the station has a place to divert to,
/// there and nowhere else.
pub proof fn law_calls_are_diverted_where_their_line_says<'a>(
    access: &'a Access,
    device_id: DeviceId,
    call_id: CallId,
    target_valid: bool,
    action: VoicemailKeyAction<'a>,
    i: int,
    f: int,
)
    requires
        call_ensures(
            handle_voicemail_soft_key,
            (access, device_id, Some(call_id), SoftKey::ImmediateDivert, target_valid),
            action,
        ),
        0 <= i < access.shared.controller.appearances@.len(),
        access.shared.controller.appearances@[i].sccp_id == call_id,
        forall|j: int|
            0 <= j < i ==> (#[trigger] access.shared.controller.appearances@[j]).sccp_id
                != call_id,
        access.shared.binding_spec(
            device_id@,
            access.shared.controller.appearances@[i].line_instance,
        ) matches Some(binding) ==> 0 <= f < access.shared.config.line_features@.len()
            && access.shared.config.line_features@[f].line@ == binding.line.number@ && forall|j: int|
            0 <= j < f ==> (#[trigger] access.shared.config.line_features@[j]).line@
                != binding.line.number@,
    ensures
        ({
            let line = access.shared.binding_spec(
                device_id@,
                access.shared.controller.appearances@[i].line_instance,
            );
            &&& action is Divert <==> target_valid && line is Some
                && access.shared.config.line_features@[f].voicemail_divert is Some
            &&& action matches VoicemailKeyAction::Divert { context, destination, .. } ==> *context
                == line->0.line.context && *destination
                == access.shared.config.line_features@[f].voicemail_divert->0
        }),
{
    lookup::lemma_first_is(
        access.shared.controller.appearances@,
        controller::is_call(call_id),
        i,
    );
    if let Some(binding) = access.shared.binding_spec(
        device_id@,
        access.shared.controller.appearances@[i].line_instance,
    ) {
        lookup::lemma_first_is(
            access.shared.config.line_features@,
            config::features_of_line(binding.line.number@),
            f,
        );
    }
}

/// A diversion that is still wanted routes the call of its first voicemail effect;
/// it is completed once the call is routed, told where it cannot be, and shown on
/// the line of the call once it is committed.
pub proof fn law_diversions_route_and_complete<'a>(
    access: &'a Access,
    plan: VoicemailPlan,
    active: bool,
    first: (VoicemailState, VoicemailAction<'a>),
    line: Option<&'a String>,
    found: Option<&'a String>,
    state: VoicemailState,
    reply: VoicemailReply,
    after: VoicemailState,
    action: VoicemailAction<'a>,
    e: int,
    c: int,
)
    requires
        call_ensures(execute_voicemail_plan, (&plan, active), first),
        call_ensures(voicemail_line, (access, &plan), found),
        call_ensures(
            continue_voicemail_plan,
            (&plan.transaction, line, state, reply),
            (after, action),
        ),
        0 <= e <= plan.effects@.len(),
        forall|j: int|
            0 <= j < e ==> !((#[trigger] plan.effects@[j]) matches DriverEffect::Backend(done)
                && done is Voicemail),
        e < plan.effects@.len() ==> (plan.effects@[e] matches DriverEffect::Backend(done)
            && done is Voicemail),
        0 <= c < access.shared.controller.calls@.len(),
        access.shared.controller.calls@[c].pbx_id == plan.transaction.pbx_call_id,
        forall|j: int|
            0 <= j < c ==> (#[trigger] access.shared.controller.calls@[j]).pbx_id
                != plan.transaction.pbx_call_id,
    ensures
        first.1 is Finish <==> !active,
        first.1 is Route <==> active && e < plan.effects@.len(),
        first.1 is Abort <==> active && e == plan.effects@.len(),
        first.1 matches VoicemailAction::Route { call_id } ==> first.0 is Routing
            && plan.effects@[e] == DriverEffect::Backend(PbxEffect::Voicemail { call_id }),
        found is Some && *found->0 == access.shared.controller.calls@[c].line,
        action is Complete <==> state is Routing && reply == VoicemailReply::Routed(true),
        after is Completing <==> action is Complete,
        action is AbortAndShow <==> state is Routing && reply == VoicemailReply::Routed(false),
        action matches VoicemailAction::AbortAndShow(command) ==> command.device_id
            == plan.transaction.device_id && command.action == (PhoneCommandAction::DisplayPrompt {
            call_id: plan.transaction.handset_call_id,
            timeout_seconds: 4,
            prompt: Prompt::UnableToReachVoicemail,
        }),
        action is PublishAndExecute <==> state is Completing && reply == VoicemailReply::Completed(
            VoicemailCompletion::Committed,
        ),
        action matches VoicemailAction::PublishAndExecute { line: shown } ==> shown == line,
{
    let p = diverts();
    if e == plan.effects@.len() {
        lookup::lemma_first_none(plan.effects@, p);
    } else {
        lookup::lemma_first_is(plan.effects@, p, e);
    }
    lookup::lemma_first_is(
        access.shared.controller.calls@,
        controller::is_pbx_call(plan.transaction.pbx_call_id),
        c,
    );
}

/// A prompt is shown exactly where there is a call to show it on.
pub proof fn law_voicemail_prompts_need_a_call(
    device_id: DeviceId,
    call_id: Option<CallId>,
    prompt: Prompt,
    command: Option<PhoneCommand>,
)
    requires
        call_ensures(display_voicemail_prompt, (device_id, call_id, prompt), command),
    ensures
        command is Some <==> call_id is Some,
        command matches Some(shown) ==> shown.device_id == device_id && shown.action == (
        PhoneCommandAction::DisplayPrompt { call_id: call_id->0, timeout_seconds: 4, prompt }),
{
}

} // verus!
