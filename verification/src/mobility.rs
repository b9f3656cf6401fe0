//! Roaming lines: logging a line in on a station and out again.

use vstd::prelude::*;

use crate::access::{Access, Shared};
use crate::collect::{any, gather, select};
use crate::commands::{HandsetStatusMessage, PhoneCommand, PhoneCommandAction};
use crate::config::{self, ButtonDefinition, ButtonType, ModuleConfig};
use crate::events::{PhoneServicePayload, PhoneServiceRouting};
use crate::ids::{DeviceId, SessionGeneration};
use crate::lookup;
use crate::model::{CallAppearance, LineBinding, MobilityAppearance};
use crate::prompts::Prompt;
use crate::text::same_text;

verus! {

/// A button that a line can roam to.
#[derive(Debug, PartialEq, Eq)]
pub struct MobilitySlot {
    pub device_id: DeviceId,
    pub button_instance: u32,
}

pub open spec fn is_mobility_button(instance: u32) -> spec_fn(ButtonDefinition) -> bool {
    |button: ButtonDefinition|
        button == (ButtonDefinition::Feature { instance, feature: ButtonType::Mobility })
}

/// The station has a button for roaming there.
pub open spec fn mobility_button_spec(config: ModuleConfig, slot: MobilitySlot) -> bool {
    match lookup::first(config.devices@, config::is_device(slot.device_id@)) {
        Some(found) => lookup::some(found.buttons@, is_mobility_button(slot.button_instance)),
        None => false,
    }
}

/// Whether a line can roam to the slot.
pub fn configured_mobility_button(config: &ModuleConfig, slot: &MobilitySlot) -> (configured: bool)
    ensures
        configured == mobility_button_spec(*config, *slot),
{
    let instance: u32 = slot.button_instance;
    match config.device(&slot.device_id) {
        Some(found) => any(
            &found.buttons,
            |button: &ButtonDefinition| -> (found: bool)
                ensures
                    found == (*button == (ButtonDefinition::Feature {
                        instance,
                        feature: ButtonType::Mobility,
                    }))
                {
                    *button == (ButtonDefinition::Feature { instance, feature: ButtonType::Mobility })
                },
            Ghost(is_mobility_button(instance)),
        ),
        None => false,
    }
}

pub open spec fn status_command(device_id: DeviceId, prompt: Prompt) -> PhoneCommand {
    PhoneCommand {
        device_id,
        action: PhoneCommandAction::SetStatusMessage {
            message: HandsetStatusMessage::Notice { prompt, timeout_seconds: 4 },
            beep: false,
        },
    }
}

/// Shows how a login or logout went.
pub fn mobility_status(device_id: DeviceId, prompt: Prompt) -> (command: PhoneCommand)
    ensures
        command == status_command(device_id, prompt),
{
    PhoneCommand::new(
        device_id,
        PhoneCommandAction::SetStatusMessage {
            message: HandsetStatusMessage::Notice { prompt, timeout_seconds: 4 },
            beep: false,
        },
    )
}

/// Whether a station is there to be changed.
pub fn mobility_device_registered(access: &Access, device_id: &DeviceId) -> (registered: bool)
    ensures
        registered == access.shared.controller.registered_spec(device_id@),
{
    access.shared.controller.is_registered(device_id)
}

/// The appearance roams to this button.
pub open spec fn fills(device: Seq<char>, button: u32) -> spec_fn(MobilityAppearance) -> bool {
    |appearance: MobilityAppearance|
        appearance.device_id@ == device && appearance.button_instance == button
}

/// What a roaming button asks for.
#[derive(Clone, Copy, Debug, PartialEq, Eq, Structural)]
pub enum MobilityButtonStep {
    Ignore,
    PrepareLogout,
    ReservePrompt,
}

/// Decides what a roaming button asks for: out where a line roams there, else
/// in. `granted` says whether the configuration came free in time, see
/// [`crate::session::TRANSACTION_TIMEOUT_SECONDS`], and `slot_valid` whether
/// the button can be a slot at all.
pub fn handle_mobility_button(
    access: &Access,
    slot: &MobilitySlot,
    granted: bool,
    slot_valid: bool,
) -> (step: MobilityButtonStep)
    ensures
        step == if !granted || !slot_valid || !mobility_button_spec(
            access.shared.config,
            *slot,
        ) {
            MobilityButtonStep::Ignore
        } else if lookup::some(
            access.shared.controller.mobility@,
            fills(slot.device_id@, slot.button_instance),
        ) {
            MobilityButtonStep::PrepareLogout
        } else {
            MobilityButtonStep::ReservePrompt
        },
{
    if !granted || !slot_valid {
        return MobilityButtonStep::Ignore;
    }
    if !configured_mobility_button(&access.shared.config, slot) {
        return MobilityButtonStep::Ignore;
    }
    let button: u32 = slot.button_instance;
    if any(
        &access.shared.controller.mobility,
        |appearance: &MobilityAppearance| -> (found: bool)
            ensures
                found == (appearance.device_id@ == slot.device_id@ && appearance.button_instance
                    == button)
            { appearance.device_id.same(&slot.device_id) && appearance.button_instance == button },
        Ghost(fills(slot.device_id@, button)),
    ) {
        MobilityButtonStep::PrepareLogout
    } else {
        MobilityButtonStep::ReservePrompt
    }
}

/// The call stands on this appearance.
pub open spec fn stands_at(device: Seq<char>, line_instance: u32) -> spec_fn(CallAppearance) -> bool {
    |call: CallAppearance| call.device_id@ == device && call.line_instance == line_instance
}

pub open spec fn has_calls_spec(shared: Shared, appearance: Option<MobilityAppearance>) -> bool {
    match appearance {
        Some(appearance) => lookup::some(
            shared.controller.appearances@,
            stands_at(appearance.device_id@, appearance.binding.line_instance),
        ),
        None => false,
    }
}

/// Whether calls stand on a roaming appearance.
pub fn mobility_appearance_has_calls(access: &Access, appearance: Option<&MobilityAppearance>) ->
    (occupied: bool)
    ensures
        occupied == has_calls_spec(access.shared, lookup::target(appearance)),
{
    match appearance {
        Some(appearance) => {
            let instance: u32 = appearance.binding.line_instance;
            any(
                &access.shared.controller.appearances,
                |call: &CallAppearance| -> (found: bool)
                    ensures
                        found == (call.device_id@ == appearance.device_id@ && call.line_instance
                            == instance)
                    { call.device_id.same(&appearance.device_id) && call.line_instance == instance },
                Ghost(stands_at(appearance.device_id@, instance)),
            )
        },
        None => false,
    }
}

/// Whether a prepared change of roaming goes ahead.
#[derive(Debug, PartialEq, Eq)]
pub enum MobilityChange {
    Apply,
    /// Give the change up and show that the line is in use.
    InUse(PhoneCommand),
}

/// A change that would take away an appearance with calls does not go ahead.
pub fn mobility_change(
    access: &Access,
    device_id: DeviceId,
    previous: Option<&MobilityAppearance>,
) -> (change: MobilityChange)
    ensures
        change == if has_calls_spec(access.shared, lookup::target(previous)) {
            MobilityChange::InUse(status_command(device_id, Prompt::MobilityLineIsInUse))
        } else {
            MobilityChange::Apply
        },
{
    if mobility_appearance_has_calls(access, previous) {
        MobilityChange::InUse(mobility_status(device_id, Prompt::MobilityLineIsInUse))
    } else {
        MobilityChange::Apply
    }
}

/// What a logout comes to; `prepared` says whether the controller prepared it, and
/// `previous` is the appearance that it takes away. One that is not prepared shows
/// nothing.
pub fn mobility_logout(
    access: &Access,
    device_id: DeviceId,
    prepared: bool,
    previous: Option<&MobilityAppearance>,
) -> (change: Option<MobilityChange>)
    ensures
        change == if !prepared {
            None
        } else if has_calls_spec(access.shared, lookup::target(previous)) {
            Some(MobilityChange::InUse(status_command(device_id, Prompt::MobilityLineIsInUse)))
        } else {
            Some(MobilityChange::Apply)
        },
{
    if prepared {
        Some(mobility_change(access, device_id, previous))
    } else {
        None
    }
}

/// Shows how a change went.
pub fn finish_mobility_change(device_id: DeviceId, login: bool, applied: bool) -> (command:
    PhoneCommand)
    ensures
        command == status_command(
            device_id,
            if login {
                if applied {
                    Prompt::MobilityLoginComplete
                } else {
                    Prompt::MobilityLoginFailed
                }
            } else if applied {
                Prompt::MobilityLogoutComplete
            } else {
                Prompt::MobilityLogoutFailed
            },
        ),
{
    let prompt = if login {
        if applied {
            Prompt::MobilityLoginComplete
        } else {
            Prompt::MobilityLoginFailed
        }
    } else if applied {
        Prompt::MobilityLogoutComplete
    } else {
        Prompt::MobilityLogoutFailed
    };
    mobility_status(device_id, prompt)
}

/// The routing of a login form.
pub open spec fn prompt_routing_spec(application_id: u32, transaction_id: u32) ->
    PhoneServiceRouting {
    PhoneServiceRouting { application_id, line_instance: 0, call_reference: 0, transaction_id }
}

/// One registration of a station.
#[derive(Debug, PartialEq, Eq)]
pub struct StationTarget {
    pub device_id: DeviceId,
    pub session_generation: SessionGeneration,
}

impl Clone for StationTarget {
    fn clone(&self) -> (copy: Self)
        ensures
            copy == *self,
    {
        StationTarget {
            device_id: self.device_id.clone(),
            session_generation: self.session_generation,
        }
    }
}

/// An answer that is no longer waited for.
#[derive(Debug, PartialEq, Eq)]
pub struct CancelledResponse {
    pub target: StationTarget,
    pub routing: PhoneServiceRouting,
}

/// Cancels the answer to a login form.
pub fn cancel_mobility_response(
    target: StationTarget,
    application_id: u32,
    transaction_id: u32,
) -> (cancelled: CancelledResponse)
    ensures
        cancelled == (CancelledResponse {
            target,
            routing: prompt_routing_spec(application_id, transaction_id),
        }),
{
    CancelledResponse {
        target,
        routing: PhoneServiceRouting {
            application_id,
            line_instance: 0,
            call_reference: 0,
            transaction_id,
        },
    }
}

/// How soon a handset shows a form.
#[derive(Clone, Copy, Debug, PartialEq, Eq, Structural)]
pub enum PhoneServicePriority {
    Normal,
}

/// A login form that the controller has room for.
#[derive(Debug, PartialEq, Eq)]
pub struct MobilityPrompt {
    pub target: StationTarget,
    pub transaction_id: u32,
    /// The forms of the slot that this one replaces.
    pub replaced: Vec<u32>,
}

/// A login form as it is sent.
#[derive(Debug, PartialEq, Eq)]
pub struct MobilityForm {
    pub target: StationTarget,
    pub routing: PhoneServiceRouting,
    pub priority: PhoneServicePriority,
}

/// What asking for a login comes to.
#[derive(Debug, PartialEq, Eq)]
pub enum MobilityPromptStep {
    /// There is no room for a form.
    Unavailable(PhoneCommand),
    /// Cancel the forms that this one replaces, then make it.
    Cancel(Vec<CancelledResponse>),
    /// The form could not be made: take the reservation of this number back and
    /// show so.
    TakeBack { transaction_id: u32, shown: PhoneCommand },
    /// Send the form and wait until the handset has it.
    Show(MobilityForm),
    /// The handset did not get the form: take the reservation of this number
    /// back, then cancel its answer.
    Withdraw { transaction_id: u32, cancelled: CancelledResponse },
    /// The handset shows the form.
    Shown,
}

/// The cancelled answer of one form.
pub open spec fn cancelled_spec(target: StationTarget, application_id: u32) -> spec_fn(
    u32,
) -> CancelledResponse {
    |transaction_id: u32|
        CancelledResponse { target, routing: prompt_routing_spec(application_id, transaction_id) }
}

/// Begins to ask for a login; `reserved` is the form that the controller has room
/// for. The forms that it replaces are cancelled before anything else.
pub fn show_mobility_prompt(
    device_id: DeviceId,
    application_id: u32,
    reserved: Option<&MobilityPrompt>,
) -> (step: MobilityPromptStep)
    ensures
        match reserved {
            None => step == MobilityPromptStep::Unavailable(
                status_command(device_id, Prompt::MobilityUnavailable),
            ),
            Some(prompt) => match step {
                MobilityPromptStep::Cancel(cancelled) => cancelled@ == prompt.replaced@.map_values(
                    cancelled_spec(prompt.target, application_id),
                ),
                _ => false,
            },
        },
{
    let prompt = match reserved {
        Some(prompt) => prompt,
        None => return MobilityPromptStep::Unavailable(
            mobility_status(device_id, Prompt::MobilityUnavailable),
        ),
    };
    let mut cancelled: Vec<CancelledResponse> = Vec::new();
    let mut i: usize = 0;
    while i < prompt.replaced.len()
        invariant
            0 <= i <= prompt.replaced@.len(),
            cancelled@ == prompt.replaced@.take(i as int).map_values(
                cancelled_spec(prompt.target, application_id),
            ),
        decreases prompt.replaced@.len() - i,
    {
        cancelled.push(
            cancel_mobility_response(prompt.target.clone(), application_id, prompt.replaced[i]),
        );
        proof {
            assert(cancelled@ =~= prompt.replaced@.take(i + 1).map_values(
                cancelled_spec(prompt.target, application_id),
            ));
        }
        i += 1;
    }
    proof {
        assert(prompt.replaced@.take(i as int) =~= prompt.replaced@);
    }
    MobilityPromptStep::Cancel(cancelled)
}

/// Goes on once the form could be made, or not.
pub fn send_mobility_prompt(
    device_id: DeviceId,
    application_id: u32,
    prompt: &MobilityPrompt,
    made: bool,
) -> (step: MobilityPromptStep)
    ensures
        step == if made {
            MobilityPromptStep::Show(
                MobilityForm {
                    target: prompt.target,
                    routing: prompt_routing_spec(application_id, prompt.transaction_id),
                    priority: PhoneServicePriority::Normal,
                },
            )
        } else {
            MobilityPromptStep::TakeBack {
                transaction_id: prompt.transaction_id,
                shown: status_command(device_id, Prompt::MobilityUnavailable),
            }
        },
{
    if made {
        MobilityPromptStep::Show(
            MobilityForm {
                target: prompt.target.clone(),
                routing: PhoneServiceRouting {
                    application_id,
                    line_instance: 0,
                    call_reference: 0,
                    transaction_id: prompt.transaction_id,
                },
                priority: PhoneServicePriority::Normal,
            },
        )
    } else {
        MobilityPromptStep::TakeBack {
            transaction_id: prompt.transaction_id,
            shown: mobility_status(device_id, Prompt::MobilityUnavailable),
        }
    }
}

/// Ends asking for a login. A form that the handset did not get is withdrawn
/// without a word.
pub fn finish_mobility_prompt(application_id: u32, prompt: &MobilityPrompt, delivered: bool) ->
    (step: MobilityPromptStep)
    ensures
        step == if delivered {
            MobilityPromptStep::Shown
        } else {
            MobilityPromptStep::Withdraw {
                transaction_id: prompt.transaction_id,
                cancelled: cancelled_spec(prompt.target, application_id)(prompt.transaction_id),
            }
        },
{
    if delivered {
        MobilityPromptStep::Shown
    } else {
        MobilityPromptStep::Withdraw {
            transaction_id: prompt.transaction_id,
            cancelled: cancel_mobility_response(
                prompt.target.clone(),
                application_id,
                prompt.transaction_id,
            ),
        }
    }
}

/// What an answer from a station is checked for first.
#[derive(Clone, Copy, Debug, PartialEq, Eq, Structural)]
pub enum MobilityResponseRoute {
    Ignore,
    /// Find the slot that the form was for.
    TakePrompt,
}

/// Whether an answer belongs to a login form at all.
pub fn route_mobility_response(
    routing: PhoneServiceRouting,
    application_id: u32,
    granted: bool,
) -> (route: MobilityResponseRoute)
    ensures
        route == if granted && routing.application_id == application_id {
            MobilityResponseRoute::TakePrompt
        } else {
            MobilityResponseRoute::Ignore
        },
{
    if granted && routing.application_id == application_id {
        MobilityResponseRoute::TakePrompt
    } else {
        MobilityResponseRoute::Ignore
    }
}

/// What an answer comes to.
#[derive(Debug, PartialEq, Eq)]
pub enum MobilityResponseStep<'a> {
    Ignore,
    Reject(PhoneCommand),
    /// Read what was entered.
    Parse(&'a String),
    /// Have the controller prepare the login; these instances are taken.
    Prepare { configured_instances: Vec<u32> },
}

/// Checks the shape of an answer: it must come for the slot's form itself and
/// carry what was entered.
pub fn check_mobility_response<'a>(
    device_id: DeviceId,
    slot: Option<&MobilitySlot>,
    routing: PhoneServiceRouting,
    payload: &'a PhoneServicePayload,
) -> (step: MobilityResponseStep<'a>)
    ensures
        match slot {
            None => step is Ignore,
            Some(_) => if routing.line_instance != 0 || routing.call_reference != 0 {
                step == MobilityResponseStep::Reject(
                    status_command(device_id, Prompt::MobilityLoginRejected),
                )
            } else {
                match *payload {
                    PhoneServicePayload::Submission(text) => match step {
                        MobilityResponseStep::Parse(entered) => *entered == text,
                        _ => false,
                    },
                    PhoneServicePayload::Other => step == MobilityResponseStep::Reject(
                        status_command(device_id, Prompt::MobilityLoginRejected),
                    ),
                }
            },
        },
{
    if slot.is_none() {
        return MobilityResponseStep::Ignore;
    }
    if routing.line_instance != 0 || routing.call_reference != 0 {
        return MobilityResponseStep::Reject(
            mobility_status(device_id, Prompt::MobilityLoginRejected),
        );
    }
    match payload {
        PhoneServicePayload::Submission(text) => MobilityResponseStep::Parse(text),
        PhoneServicePayload::Other => MobilityResponseStep::Reject(
            mobility_status(device_id, Prompt::MobilityLoginRejected),
        ),
    }
}

/// The binding shows this line on this station.
pub open spec fn shows_on(device: Seq<char>, line: Seq<char>) -> spec_fn(LineBinding) -> bool {
    |binding: LineBinding| binding.device_id@ == device && binding.line.number@ == line
}

/// The instance of a binding on this station.
pub open spec fn instance_on(device: Seq<char>) -> spec_fn(LineBinding) -> Option<u32> {
    |binding: LineBinding|
        if binding.device_id@ == device {
            Some(binding.line_instance)
        } else {
            None
        }
}

/// What was entered may log a line in.
pub open spec fn login_allowed(
    shared: Shared,
    slot: MobilitySlot,
    device: Seq<char>,
    line: Option<Seq<char>>,
    authenticated: bool,
) -> bool {
    &&& line matches Some(line)
    &&& mobility_button_spec(shared.config, slot)
    &&& !lookup::some(shared.config.bindings@, shows_on(device, line))
    &&& authenticated
}

/// Checks what was entered: a line that the station does not already show, with
/// its credential. `line` is none where the form could not be read.
pub fn handle_mobility_response<'a>(
    access: &Access,
    device_id: DeviceId,
    slot: &MobilitySlot,
    line: Option<&str>,
    authenticated: bool,
) -> (step: MobilityResponseStep<'a>)
    ensures
        if login_allowed(
            access.shared,
            *slot,
            device_id@,
            match line {
                Some(line) => Some(line@),
                None => None,
            },
            authenticated,
        ) {
            match step {
                MobilityResponseStep::Prepare { configured_instances } => configured_instances@
                    == access.shared.config.bindings@.filter_map(instance_on(device_id@)),
                _ => false,
            }
        } else {
            step == MobilityResponseStep::Reject(
                status_command(device_id, Prompt::MobilityLoginRejected),
            )
        },
{
    let line = match line {
        Some(line) => line,
        None => {
            return MobilityResponseStep::Reject(
                mobility_status(device_id, Prompt::MobilityLoginRejected),
            );
        },
    };
    let shown = any(
        &access.shared.config.bindings,
        |binding: &LineBinding| -> (found: bool)
            ensures
                found == (binding.device_id@ == device_id@ && binding.line.number@ == line@)
            {
                binding.device_id.same(&device_id) && same_text(binding.line.number.as_str(), line)
            },
        Ghost(shows_on(device_id@, line@)),
    );
    if !configured_mobility_button(&access.shared.config, slot) || shown || !authenticated {
        return MobilityResponseStep::Reject(
            mobility_status(device_id, Prompt::MobilityLoginRejected),
        );
    }
    let bindings = &access.shared.config.bindings;
    let configured_instances = gather(
        bindings,
        bindings.len(),
        |binding: &LineBinding| -> (instance: Option<u32>)
            ensures
                instance == instance_on(device_id@)(*binding)
            {
                if binding.device_id.same(&device_id) {
                    Some(binding.line_instance)
                } else {
                    None
                }
            },
        Ghost(instance_on(device_id@)),
    );
    proof {
        assert(bindings@.take(bindings@.len() as int) =~= bindings@);
    }
    MobilityResponseStep::Prepare { configured_instances }
}

/// What the controller made of a login.
#[derive(Clone, Copy, Debug, PartialEq, Eq, Structural)]
pub enum MobilityPreparation {
    Unchanged,
    Transaction,
    Refused,
}

/// What is shown where a login does not lead to a change.
pub fn mobility_login_refused(device_id: DeviceId, preparation: MobilityPreparation) -> (shown:
    Option<PhoneCommand>)
    ensures
        shown == match preparation {
            MobilityPreparation::Unchanged => Some(
                status_command(device_id, Prompt::MobilityAlreadyActive),
            ),
            MobilityPreparation::Refused => Some(
                status_command(device_id, Prompt::MobilityLoginRejected),
            ),
            MobilityPreparation::Transaction => None,
        },
{
    match preparation {
        MobilityPreparation::Unchanged => Some(
            mobility_status(device_id, Prompt::MobilityAlreadyActive),
        ),
        MobilityPreparation::Refused => Some(
            mobility_status(device_id, Prompt::MobilityLoginRejected),
        ),
        MobilityPreparation::Transaction => None,
    }
}

/// What showing or removing an appearance on its station comes to.
#[derive(Debug, PartialEq, Eq)]
pub enum MobilityWrite {
    Send(PhoneCommand),
    /// The station has gone; there is nothing to remove.
    Skip,
    /// The station has gone; nothing can be shown.
    Fail,
}

/// Decides how an appearance is shown or removed on its station.
pub fn mobility_write(access: &Access, appearance: &MobilityAppearance, install: bool) -> (write:
    MobilityWrite)
    ensures
        write == if access.shared.controller.registered_spec(appearance.device_id@) {
            MobilityWrite::Send(
                PhoneCommand {
                    device_id: appearance.device_id,
                    action: PhoneCommandAction::SetMobilityAppearance {
                        mobility_instance: appearance.button_instance,
                        appearance_id: if install {
                            Some(appearance.binding.appearance.id)
                        } else {
                            None
                        },
                    },
                },
            )
        } else if install {
            MobilityWrite::Fail
        } else {
            MobilityWrite::Skip
        },
{
    if mobility_device_registered(access, &appearance.device_id) {
        let appearance_id = if install {
            Some(appearance.binding.appearance.id)
        } else {
            None
        };
        MobilityWrite::Send(
            PhoneCommand::new(
                appearance.device_id.clone(),
                PhoneCommandAction::SetMobilityAppearance {
                    mobility_instance: appearance.button_instance,
                    appearance_id,
                },
            ),
        )
    } else if install {
        MobilityWrite::Fail
    } else {
        MobilityWrite::Skip
    }
}

/// Where a change of roaming stands.
#[derive(Clone, Copy, Debug, PartialEq, Eq, Structural)]
pub enum MobilityTransactionState {
    Writing,
    Committing,
    Done,
}

#[derive(Clone, Copy, Debug, PartialEq, Eq, Structural)]
pub enum MobilityTransactionAction {
    /// Change what the stations show.
    Write,
    Commit,
    /// The controller gives the change up.
    Abort,
    /// What the stations show is changed back, then the controller gives up.
    RollBackAndAbort,
    Succeed,
}

pub open spec fn mobility_transaction_spec(state: MobilityTransactionState, succeeded: bool) -> (
    MobilityTransactionState,
    MobilityTransactionAction,
) {
    match state {
        MobilityTransactionState::Writing => if succeeded {
            (MobilityTransactionState::Committing, MobilityTransactionAction::Commit)
        } else {
            (MobilityTransactionState::Done, MobilityTransactionAction::Abort)
        },
        MobilityTransactionState::Committing => if succeeded {
            (MobilityTransactionState::Done, MobilityTransactionAction::Succeed)
        } else {
            (MobilityTransactionState::Done, MobilityTransactionAction::RollBackAndAbort)
        },
        MobilityTransactionState::Done => (
            MobilityTransactionState::Done,
            MobilityTransactionAction::Abort,
        ),
    }
}

/// Where a change of roaming begins.
pub fn begin_mobility_transaction() -> (step: (MobilityTransactionState, MobilityTransactionAction))
    ensures
        step == (MobilityTransactionState::Writing, MobilityTransactionAction::Write),
{
    (MobilityTransactionState::Writing, MobilityTransactionAction::Write)
}

/// Goes on with a change of roaming: the stations first, then the controller.
pub fn apply_mobility_transaction(state: MobilityTransactionState, succeeded: bool) -> (step: (
    MobilityTransactionState,
    MobilityTransactionAction,
))
    ensures
        step == mobility_transaction_spec(state, succeeded),
{
    match state {
        MobilityTransactionState::Writing => if succeeded {
            (MobilityTransactionState::Committing, MobilityTransactionAction::Commit)
        } else {
            (MobilityTransactionState::Done, MobilityTransactionAction::Abort)
        },
        MobilityTransactionState::Committing => if succeeded {
            (MobilityTransactionState::Done, MobilityTransactionAction::Succeed)
        } else {
            (MobilityTransactionState::Done, MobilityTransactionAction::RollBackAndAbort)
        },
        MobilityTransactionState::Done => (
            MobilityTransactionState::Done,
            MobilityTransactionAction::Abort,
        ),
    }
}

/// The appearance roams on this station.
pub open spec fn roams_on(device: Seq<char>) -> spec_fn(MobilityAppearance) -> bool {
    |appearance: MobilityAppearance| appearance.device_id@ == device
}

/// The roaming appearances that a station shows again once it has registered.
pub fn restore_mobility_appearances<'a>(access: &'a Access, device_id: &DeviceId) -> (restored: Vec<
    &'a MobilityAppearance,
>)
    ensures
        restored@.map_values(|appearance: &MobilityAppearance| *appearance)
            == access.shared.controller.mobility@.filter(roams_on(device_id@)),
{
    select(
        &access.shared.controller.mobility,
        |appearance: &MobilityAppearance| -> (found: bool)
            ensures
                found == (appearance.device_id@ == device_id@)
            { appearance.device_id.same(device_id) },
        Ghost(roams_on(device_id@)),
    )
}

/// A change of roaming that was written and then not committed is written back
/// before the controller gives it up; one that is committed stays.
pub proof fn law_failed_roaming_is_written_back(committed: bool)
    ensures
        mobility_transaction_spec(MobilityTransactionState::Writing, true).0
            == MobilityTransactionState::Committing,
        mobility_transaction_spec(MobilityTransactionState::Committing, committed).1 == if committed {
            MobilityTransactionAction::Succeed
        } else {
            MobilityTransactionAction::RollBackAndAbort
        },
{
}

/// A line that the station already shows cannot be logged in there.
pub proof fn law_shown_lines_do_not_roam(
    shared: Shared,
    slot: MobilitySlot,
    device: Seq<char>,
    line: Seq<char>,
    authenticated: bool,
    i: int,
)
    requires
        0 <= i < shared.config.bindings@.len(),
        shared.config.bindings@[i].device_id@ == device,
        shared.config.bindings@[i].line.number@ == line,
    ensures
        !login_allowed(shared, slot, device, Some(line), authenticated),
{
    assert(shows_on(device, line)(shared.config.bindings@[i]));
}

/// A mobility button logs out where somebody is logged in on it, and asks for a
/// login otherwise; it does nothing unless it is configured, valid and granted.
pub proof fn law_mobility_buttons_log_in_and_out(
    access: &Access,
    slot: MobilitySlot,
    granted: bool,
    slot_valid: bool,
    step: MobilityButtonStep,
    d: int,
)
    requires
        call_ensures(handle_mobility_button, (access, &slot, granted, slot_valid), step),
        0 <= d < access.shared.config.devices@.len(),
        access.shared.config.devices@[d].id@ == slot.device_id@,
        forall|j: int|
            0 <= j < d ==> (#[trigger] access.shared.config.devices@[j]).id@
                != slot.device_id@,
    ensures
        step is Ignore <==> !(granted && slot_valid && exists|b: int|
            0 <= b < access.shared.config.devices@[d].buttons@.len() && (
            #[trigger] access.shared.config.devices@[d].buttons@[b]) == (
            ButtonDefinition::Feature {
                instance: slot.button_instance,
                feature: ButtonType::Mobility,
            })),
        !(step is Ignore) ==> (step is PrepareLogout <==> exists|m: int|
            0 <= m < access.shared.controller.mobility@.len() && (
            #[trigger] access.shared.controller.mobility@[m]).device_id@ == slot.device_id@
                && access.shared.controller.mobility@[m].button_instance == slot.button_instance),
{
    let devices = access.shared.config.devices@;
    lookup::lemma_first_is(devices, config::is_device(slot.device_id@), d);
    let buttons = devices[d].buttons@;
    let p = is_mobility_button(slot.button_instance);
    let wanted = ButtonDefinition::Feature {
        instance: slot.button_instance,
        feature: ButtonType::Mobility,
    };
    if lookup::some(buttons, p) {
        let b = choose|b: int| 0 <= b < buttons.len() && p(#[trigger] buttons[b]);
        assert(devices[d].buttons@[b] == wanted);
    }
    if exists|b: int| 0 <= b < buttons.len() && #[trigger] buttons[b] == wanted {
        let b = choose|b: int| 0 <= b < buttons.len() && #[trigger] buttons[b] == wanted;
        assert(p(buttons[b]));
    }
    let roaming = access.shared.controller.mobility@;
    let q = fills(slot.device_id@, slot.button_instance);
    if lookup::some(roaming, q) {
        let m = choose|m: int| 0 <= m < roaming.len() && q(#[trigger] roaming[m]);
        assert(roaming[m].device_id@ == slot.device_id@);
    }
    if exists|m: int|
        0 <= m < roaming.len() && (#[trigger] roaming[m]).device_id@ == slot.device_id@
            && roaming[m].button_instance == slot.button_instance {
        let m = choose|m: int|
            0 <= m < roaming.len() && (#[trigger] roaming[m]).device_id@ == slot.device_id@
                && roaming[m].button_instance == slot.button_instance;
        assert(q(roaming[m]));
    }
}

/// A roaming line that carries a call is neither replaced nor logged out; that is
/// told. Any other change goes ahead, a logout once it was prepared.
pub proof fn law_busy_roaming_lines_stay(
    access: &Access,
    device_id: DeviceId,
    previous: MobilityAppearance,
    prepared: bool,
    occupied: bool,
    change: MobilityChange,
    logout: Option<MobilityChange>,
    login: MobilityChange,
)
    requires
        call_ensures(mobility_appearance_has_calls, (access, Some(&previous)), occupied),
        call_ensures(mobility_change, (access, device_id, Some(&previous)), change),
        call_ensures(mobility_logout, (access, device_id, prepared, Some(&previous)), logout),
        call_ensures(mobility_change, (access, device_id, None::<&MobilityAppearance>), login),
    ensures
        occupied <==> exists|i: int|
            0 <= i < access.shared.controller.appearances@.len() && (
            #[trigger] access.shared.controller.appearances@[i]).device_id@
                == previous.device_id@ && access.shared.controller.appearances@[i].line_instance
                == previous.binding.line_instance,
        change is InUse <==> occupied,
        logout is Some <==> prepared,
        logout matches Some(change) ==> (change is InUse <==> occupied),
        login is Apply,
        change matches MobilityChange::InUse(command) ==> command.device_id == device_id && (
        command.action matches PhoneCommandAction::SetStatusMessage {
            message: HandsetStatusMessage::Notice { prompt, timeout_seconds },
            beep,
        } && prompt == Prompt::MobilityLineIsInUse && timeout_seconds == 4 && !beep),
{
    let calls = access.shared.controller.appearances@;
    let q = stands_at(previous.device_id@, previous.binding.line_instance);
    if lookup::some(calls, q) {
        let i = choose|i: int| 0 <= i < calls.len() && q(#[trigger] calls[i]);
        assert(calls[i].device_id@ == previous.device_id@);
    }
    if exists|i: int|
        0 <= i < calls.len() && (#[trigger] calls[i]).device_id@ == previous.device_id@
            && calls[i].line_instance == previous.binding.line_instance {
        let i = choose|i: int|
            0 <= i < calls.len() && (#[trigger] calls[i]).device_id@ == previous.device_id@
                && calls[i].line_instance == previous.binding.line_instance;
        assert(q(calls[i]));
    }
}

/// The end of a login and of a logout, successful or not, are told apart, and so is
/// why a login does not begin.
pub proof fn law_mobility_ends_are_told_apart(
    device_id: DeviceId,
    login: bool,
    applied: bool,
    preparation: MobilityPreparation,
    command: PhoneCommand,
    refusal: Option<PhoneCommand>,
)
    requires
        call_ensures(finish_mobility_change, (device_id, login, applied), command),
        call_ensures(mobility_login_refused, (device_id, preparation), refusal),
    ensures
        command.device_id == device_id,
        command.action matches PhoneCommandAction::SetStatusMessage {
            message: HandsetStatusMessage::Notice { prompt, .. },
            ..
        } && (prompt == Prompt::MobilityLoginComplete <==> login && applied) && (prompt
            == Prompt::MobilityLoginFailed <==> login && !applied) && (prompt
            == Prompt::MobilityLogoutComplete <==> !login && applied) && (prompt
            == Prompt::MobilityLogoutFailed <==> !login && !applied),
        refusal is None <==> preparation == MobilityPreparation::Transaction,
        refusal matches Some(shown) ==> shown.device_id == device_id && (shown.action matches
            PhoneCommandAction::SetStatusMessage {
            message: HandsetStatusMessage::Notice { prompt, .. },
            ..
        } && (prompt == Prompt::MobilityAlreadyActive <==> preparation
            == MobilityPreparation::Unchanged) && (prompt == Prompt::MobilityLoginRejected
            <==> preparation == MobilityPreparation::Refused)),
{
}

/// A login form cancels every form that it replaces, at the station that it is for,
/// is shown there under its own transaction, and is withdrawn where it was not
/// delivered.
pub proof fn law_login_forms_replace_earlier_ones(
    device_id: DeviceId,
    application_id: u32,
    prompt: MobilityPrompt,
    made: bool,
    delivered: bool,
    shown: MobilityPromptStep,
    missing: MobilityPromptStep,
    sent: MobilityPromptStep,
    finished: MobilityPromptStep,
)
    requires
        call_ensures(show_mobility_prompt, (device_id, application_id, Some(&prompt)), shown),
        call_ensures(
            show_mobility_prompt,
            (device_id, application_id, None::<&MobilityPrompt>),
            missing,
        ),
        call_ensures(send_mobility_prompt, (device_id, application_id, &prompt, made), sent),
        call_ensures(finish_mobility_prompt, (application_id, &prompt, delivered), finished),
    ensures
        missing matches MobilityPromptStep::Unavailable(told) && told.device_id == device_id && (
        told.action matches PhoneCommandAction::SetStatusMessage { message, .. } && (
        message matches HandsetStatusMessage::Notice { prompt: said, .. } && said
            == Prompt::MobilityUnavailable)),
        shown matches MobilityPromptStep::Cancel(cancelled) && cancelled@.len()
            == prompt.replaced@.len() && forall|i: int|
            0 <= i < cancelled@.len() ==> (#[trigger] cancelled@[i]).target == prompt.target
                && cancelled@[i].routing.application_id == application_id
                && cancelled@[i].routing.transaction_id == prompt.replaced@[i]
                && cancelled@[i].routing.line_instance == 0 && cancelled@[i].routing.call_reference
                == 0,
        sent is Show <==> made,
        sent matches MobilityPromptStep::Show(form) ==> form.target == prompt.target
            && form.routing.application_id == application_id && form.routing.transaction_id
            == prompt.transaction_id && form.routing.line_instance == 0
            && form.routing.call_reference == 0,
        sent matches MobilityPromptStep::TakeBack { transaction_id, shown } ==> transaction_id
            == prompt.transaction_id && shown.device_id == device_id,
        !made ==> sent is TakeBack,
        finished is Shown <==> delivered,
        finished matches MobilityPromptStep::Withdraw { transaction_id, cancelled }
            ==> transaction_id == prompt.transaction_id && cancelled.target == prompt.target
            && cancelled.routing.transaction_id == prompt.transaction_id
            && cancelled.routing.application_id == application_id,
{
}

/// A filled-in form is read only if it is an answer of this application to an open
/// prompt that names no line and no call.
pub proof fn law_login_answers_are_checked<'a>(
    device_id: DeviceId,
    slot: Option<&MobilitySlot>,
    routing: PhoneServiceRouting,
    payload: &'a PhoneServicePayload,
    application_id: u32,
    granted: bool,
    route: MobilityResponseRoute,
    step: MobilityResponseStep<'a>,
)
    requires
        call_ensures(route_mobility_response, (routing, application_id, granted), route),
        call_ensures(check_mobility_response, (device_id, slot, routing, payload), step),
    ensures
        route == MobilityResponseRoute::TakePrompt <==> granted && routing.application_id
            == application_id,
        step is Ignore <==> slot is None,
        step is Parse <==> slot is Some && routing.line_instance == 0 && routing.call_reference
            == 0 && payload is Submission,
        step matches MobilityResponseStep::Parse(entered) ==> *payload
            == PhoneServicePayload::Submission(*entered),
        !(step is Prepare),
        step matches MobilityResponseStep::Reject(shown) ==> shown.device_id == device_id,
{
}

/// A login is prepared exactly if it names a line that the station does not show
/// already, on a mobility button of the station, with the right secret; it tells
/// the instances that the station has.
pub proof fn law_logins_need_a_new_line_and_the_secret<'a>(
    access: &Access,
    device_id: DeviceId,
    slot: MobilitySlot,
    line: Option<&str>,
    authenticated: bool,
    configured: bool,
    step: MobilityResponseStep<'a>,
    instance: u32,
)
    requires
        call_ensures(
            handle_mobility_response,
            (access, device_id, &slot, line, authenticated),
            step,
        ),
        call_ensures(configured_mobility_button, (&access.shared.config, &slot), configured),
    ensures
        step is Prepare <==> line is Some && configured && authenticated && !exists|b: int|
            0 <= b < access.shared.config.bindings@.len() && (
            #[trigger] access.shared.config.bindings@[b]).device_id@ == device_id@
                && access.shared.config.bindings@[b].line.number@ == line->0@,
        !(step is Prepare) ==> step is Reject,
        step matches MobilityResponseStep::Prepare { configured_instances } ==> (
        configured_instances@.contains(instance) <==> exists|b: int|
            0 <= b < access.shared.config.bindings@.len() && (
            #[trigger] access.shared.config.bindings@[b]).device_id@ == device_id@
                && access.shared.config.bindings@[b].line_instance == instance),
{
    let bindings = access.shared.config.bindings@;
    if line is Some {
        let q = shows_on(device_id@, line->0@);
        if lookup::some(bindings, q) {
            let b = choose|b: int| 0 <= b < bindings.len() && q(#[trigger] bindings[b]);
            assert(bindings[b].device_id@ == device_id@);
        }
        if exists|b: int|
            0 <= b < bindings.len() && (#[trigger] bindings[b]).device_id@ == device_id@
                && bindings[b].line.number@ == line->0@ {
            let b = choose|b: int|
                0 <= b < bindings.len() && (#[trigger] bindings[b]).device_id@ == device_id@
                    && bindings[b].line.number@ == line->0@;
            assert(q(bindings[b]));
        }
    }
    let f = instance_on(device_id@);
    lookup::lemma_filter_map_member(bindings, f, instance);
    if bindings.filter_map(f).contains(instance) {
        let b = choose|b: int|
            0 <= b < bindings.len() && f(#[trigger] bindings[b]) == Some(instance);
        assert(bindings[b].line_instance == instance);
    }
    if exists|b: int|
        0 <= b < bindings.len() && (#[trigger] bindings[b]).device_id@ == device_id@
            && bindings[b].line_instance == instance {
        let b = choose|b: int|
            0 <= b < bindings.len() && (#[trigger] bindings[b]).device_id@ == device_id@
                && bindings[b].line_instance == instance;
        assert(f(bindings[b]) == Some(instance));
    }
}

/// A registered station is told of a roaming line that it gets or loses; one that
/// is not registered cannot get one, and need not be told that it lost one.
pub proof fn law_roaming_lines_are_written_to_their_station(
    access: &Access,
    appearance: MobilityAppearance,
    installed: MobilityWrite,
    removed: MobilityWrite,
    registered: bool,
)
    requires
        call_ensures(mobility_write, (access, &appearance, true), installed),
        call_ensures(mobility_write, (access, &appearance, false), removed),
        call_ensures(mobility_device_registered, (access, &appearance.device_id), registered),
    ensures
        installed is Send <==> registered,
        removed is Send <==> registered,
        !registered ==> installed is Fail && removed is Skip,
        installed matches MobilityWrite::Send(command) ==> command.device_id
            == appearance.device_id && command.action == (
        PhoneCommandAction::SetMobilityAppearance {
            mobility_instance: appearance.button_instance,
            appearance_id: Some(appearance.binding.appearance.id),
        }),
        removed matches MobilityWrite::Send(command) ==> command.device_id == appearance.device_id
            && command.action == (PhoneCommandAction::SetMobilityAppearance {
            mobility_instance: appearance.button_instance,
            appearance_id: None,
        }),
{
}

/// A change writes to the stations before it is committed, and takes the writes
/// back exactly if it could not be committed after them.
pub proof fn law_mobility_changes_commit_after_their_writes(
    state: MobilityTransactionState,
    succeeded: bool,
    first: (MobilityTransactionState, MobilityTransactionAction),
    after: MobilityTransactionState,
    action: MobilityTransactionAction,
)
    requires
        call_ensures(begin_mobility_transaction, (), first),
        call_ensures(apply_mobility_transaction, (state, succeeded), (after, action)),
    ensures
        first.0 is Writing && first.1 is Write,
        action is Commit <==> state is Writing && succeeded,
        after is Committing <==> action is Commit,
        action is Succeed <==> state is Committing && succeeded,
        action is RollBackAndAbort <==> state is Committing && !succeeded,
        action is Abort <==> (state is Writing && !succeeded) || state is Done,
        !(action is Write) && !(after is Writing),
{
}

/// A station that comes back gets the roaming lines that are its own, and no other.
pub proof fn law_roaming_lines_come_back_with_their_station<'a>(
    access: &'a Access,
    device_id: DeviceId,
    restored: Vec<&'a MobilityAppearance>,
    appearance: MobilityAppearance,
)
    requires
        call_ensures(restore_mobility_appearances, (access, &device_id), restored),
    ensures
        restored@.contains(&appearance) <==> appearance.device_id@ == device_id@
            && access.shared.controller.mobility@.contains(appearance),
{
    let all = access.shared.controller.mobility@;
    let p = roams_on(device_id@);
    let plain = restored@.map_values(|appearance: &MobilityAppearance| *appearance);
    if restored@.contains(&appearance) {
        let i = choose|i: int| 0 <= i < restored@.len() && restored@[i] == &appearance;
        assert(plain[i] == appearance);
        lookup::lemma_filter_member(all, p, i);
    }
    if appearance.device_id@ == device_id@ && all.contains(appearance) {
        let j = choose|j: int| 0 <= j < all.len() && all[j] == appearance;
        all.lemma_filter_contains(p, j);
        let i = choose|i: int| 0 <= i < plain.len() && plain[i] == appearance;
        assert(restored@[i] == &appearance);
    }
}

/// A notice goes to the station it is for, without a sound, and a response is
/// cancelled under the application and the transaction that it was asked for.
pub proof fn law_notices_and_cancellations_are_addressed(
    device_id: DeviceId,
    prompt: Prompt,
    command: PhoneCommand,
    target: StationTarget,
    application_id: u32,
    transaction_id: u32,
    cancelled: CancelledResponse,
)
    requires
        call_ensures(mobility_status, (device_id, prompt), command),
        call_ensures(cancel_mobility_response, (target, application_id, transaction_id), cancelled),
    ensures
        command.device_id == device_id,
        command.action matches PhoneCommandAction::SetStatusMessage { message, beep } && !beep && (
        message matches HandsetStatusMessage::Notice { prompt: shown, timeout_seconds } && shown
            == prompt && timeout_seconds == 4),
        cancelled.target == target,
        cancelled.routing.application_id == application_id,
        cancelled.routing.transaction_id == transaction_id,
{
}

} // verus!
