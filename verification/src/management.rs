//! What management clients and the dialplan ask of the driver: features of
//! stations, texts and tones on handsets, and who was called.

use vstd::prelude::*;

use crate::access::Access;
use crate::collect::{any, gather};
use crate::commands::{HandsetStatusMessage, PhoneCommand, PhoneCommandAction};
use crate::config;
use crate::effects::{CallInfo, DriverEffect, HandsetEffect, PhoneCallState};
use crate::features::{FeatureStoreError, FeatureTask, RuntimeDndMutationError};
use crate::forwarding::ForwardingKind;
use crate::ids::{CallId, DeviceId, PbxCallId};
use crate::lookup;
use crate::model::{self, DeviceFeatureState, DndMode, ForwardingState, LineBinding};
use crate::prompts::Prompt;
use crate::text::same_text;

verus! {

/// A message that every station shows.
#[derive(Debug, PartialEq, Eq)]
pub struct ActiveSystemMessage {
    pub text: String,
    pub beep: bool,
    /// When it disappears, in milliseconds; none where it stays.
    pub expires_at: Option<u64>,
}

/// A call that is being parked.
#[derive(Debug, PartialEq, Eq)]
pub struct PendingPark {
    pub pbx_id: PbxCallId,
    pub device_id: DeviceId,
    pub requested_lot: Option<String>,
    pub parkee_unique_id: Option<String>,
    pub deadline: u64,
}

/// A station that is told about a parked call.
#[derive(Debug, PartialEq, Eq)]
pub struct PendingParkingNotification {
    pub device_id: DeviceId,
    pub call_id: CallId,
    pub deadline: u64,
}

/// Why features could not be changed.
#[derive(Clone, Copy, Debug, PartialEq, Eq, Structural)]
pub enum FeatureControlProviderError {
    Unavailable,
    DeviceNotFound,
    LineNotFound,
    FeatureDisabled,
    Persistence,
    /// What is stored may differ from what applies.
    PersistenceDiverged,
}

pub open spec fn store_error_spec(error: FeatureStoreError) -> FeatureControlProviderError {
    match error {
        FeatureStoreError::Rollback { .. } => FeatureControlProviderError::PersistenceDiverged,
        FeatureStoreError::Other { .. } => FeatureControlProviderError::Persistence,
    }
}

pub fn feature_control_store_error(error: &FeatureStoreError) -> (reported:
    FeatureControlProviderError)
    ensures
        reported == store_error_spec(*error),
{
    match error {
        FeatureStoreError::Rollback { .. } => FeatureControlProviderError::PersistenceDiverged,
        FeatureStoreError::Other { .. } => FeatureControlProviderError::Persistence,
    }
}

pub open spec fn dnd_error_spec(error: RuntimeDndMutationError) -> FeatureControlProviderError {
    match error {
        RuntimeDndMutationError::Unavailable => FeatureControlProviderError::Unavailable,
        RuntimeDndMutationError::DeviceNotFound => FeatureControlProviderError::DeviceNotFound,
        RuntimeDndMutationError::ButtonNotFound => FeatureControlProviderError::DeviceNotFound,
        RuntimeDndMutationError::FeatureDisabled => FeatureControlProviderError::FeatureDisabled,
        RuntimeDndMutationError::Store(error) => store_error_spec(error),
    }
}

/// What a change of features came to.
#[derive(Debug, PartialEq, Eq)]
pub enum FeatureControlOutcome {
    Dnd { device_id: DeviceId, mode: DndMode, changed: bool },
    Forwarding {
        device_id: DeviceId,
        line: String,
        kind: ForwardingKind,
        enabled: bool,
        changed: bool,
    },
}

/// The features of a station before and after a change.
#[derive(Debug, PartialEq, Eq)]
pub struct RuntimeDndMutationOutcome {
    pub previous: DeviceFeatureState,
    pub current: DeviceFeatureState,
}

fn destinations_agree(left: &Option<String>, right: &Option<String>) -> (agree: bool)
    ensures
        agree == model::same_destination(*left, *right),
{
    match (left, right) {
        (Some(left), Some(right)) => *left == *right,
        (None, None) => true,
        _ => false,
    }
}

fn features_agree(left: &DeviceFeatureState, right: &DeviceFeatureState) -> (agree: bool)
    ensures
        agree == model::same_features(*left, *right),
{
    if left.dnd != right.dnd || left.privacy != right.privacy || left.recording_armed
        != right.recording_armed || left.buttons.len() != right.buttons.len() {
        return false;
    }
    if !destinations_agree(&left.forwarding.all, &right.forwarding.all) || !destinations_agree(
        &left.forwarding.busy,
        &right.forwarding.busy,
    ) || !destinations_agree(&left.forwarding.no_answer, &right.forwarding.no_answer) {
        return false;
    }
    let mut i: usize = 0;
    while i < left.buttons.len()
        invariant
            left.buttons@.len() == right.buttons@.len(),
            0 <= i <= left.buttons@.len(),
            forall|j: int| 0 <= j < i ==> left.buttons@[j] == right.buttons@[j],
        decreases left.buttons@.len() - i,
    {
        if left.buttons[i] != right.buttons[i] {
            assert(left.buttons@[i as int] != right.buttons@[i as int]);
            return false;
        }
        i += 1;
    }
    assert(left.buttons@ =~= right.buttons@);
    true
}

/// What a management client is told of a change of do-not-disturb.
pub fn dnd_control_outcome(
    device_id: DeviceId,
    result: Result<RuntimeDndMutationOutcome, RuntimeDndMutationError>,
) -> (outcome: Result<FeatureControlOutcome, FeatureControlProviderError>)
    ensures
        match result {
            Ok(changed) => outcome matches Ok(outcome) && outcome == (FeatureControlOutcome::Dnd {
                device_id,
                mode: changed.current.dnd,
                changed: !model::same_features(changed.previous, changed.current),
            }),
            Err(error) => outcome matches Err(reported) && reported == dnd_error_spec(error),
        },
{
    match result {
        Ok(changed) => Ok(
            FeatureControlOutcome::Dnd {
                device_id,
                mode: changed.current.dnd,
                changed: !features_agree(&changed.previous, &changed.current),
            },
        ),
        Err(error) => Err(
            match error {
                RuntimeDndMutationError::Unavailable => FeatureControlProviderError::Unavailable,
                RuntimeDndMutationError::DeviceNotFound =>
                    FeatureControlProviderError::DeviceNotFound,
                RuntimeDndMutationError::ButtonNotFound =>
                    FeatureControlProviderError::DeviceNotFound,
                RuntimeDndMutationError::FeatureDisabled =>
                    FeatureControlProviderError::FeatureDisabled,
                RuntimeDndMutationError::Store(error) => feature_control_store_error(&error),
            },
        ),
    }
}

/// A change that a management client asks for.
#[derive(Debug, PartialEq, Eq)]
pub enum FeatureMutation {
    Forwarding { kind: ForwardingKind, destination: Option<String> },
}

/// The forwarding of a station after one kind was changed.
pub open spec fn forwarded(
    before: ForwardingState,
    kind: ForwardingKind,
    destination: Option<String>,
) -> ForwardingState {
    match kind {
        ForwardingKind::All => ForwardingState { all: destination, ..before },
        ForwardingKind::Busy => ForwardingState { busy: destination, ..before },
        ForwardingKind::NoAnswer => ForwardingState { no_answer: destination, ..before },
    }
}

impl FeatureMutation {
    /// Changes the features of a station.
    pub fn apply(self, state: &mut DeviceFeatureState)
        ensures
            match self {
                FeatureMutation::Forwarding { kind, destination } => *final(state) == (
                DeviceFeatureState {
                    forwarding: forwarded(old(state).forwarding, kind, destination),
                    ..*old(state)
                }),
            },
    {
        match self {
            FeatureMutation::Forwarding { kind, destination } => match kind {
                ForwardingKind::All => {
                    state.forwarding.all = destination;
                },
                ForwardingKind::Busy => {
                    state.forwarding.busy = destination;
                },
                ForwardingKind::NoAnswer => {
                    state.forwarding.no_answer = destination;
                },
            },
        }
    }
}

/// What is reported of a change once it was made.
#[derive(Debug, PartialEq, Eq)]
pub enum FeatureOutcome {
    Forwarding { device_id: DeviceId, line: String, kind: ForwardingKind },
}

pub open spec fn destination_spec(state: ForwardingState, kind: ForwardingKind) -> Option<String> {
    match kind {
        ForwardingKind::All => state.all,
        ForwardingKind::Busy => state.busy,
        ForwardingKind::NoAnswer => state.no_answer,
    }
}

impl FeatureOutcome {
    pub fn complete(self, changed: bool, state: &DeviceFeatureState) -> (outcome:
        FeatureControlOutcome)
        ensures
            match self {
                FeatureOutcome::Forwarding { device_id, line, kind } => outcome == (
                FeatureControlOutcome::Forwarding {
                    device_id,
                    line,
                    kind,
                    enabled: destination_spec(state.forwarding, kind) is Some,
                    changed,
                }),
            },
    {
        match self {
            FeatureOutcome::Forwarding { device_id, line, kind } => {
                let enabled = match kind {
                    ForwardingKind::All => state.forwarding.all.is_some(),
                    ForwardingKind::Busy => state.forwarding.busy.is_some(),
                    ForwardingKind::NoAnswer => state.forwarding.no_answer.is_some(),
                };
                FeatureControlOutcome::Forwarding { device_id, line, kind, enabled, changed }
            },
        }
    }
}

/// The station shows this line.
pub open spec fn shows_line_on(device: Seq<char>, line: Seq<char>) -> spec_fn(LineBinding) -> bool {
    |binding: LineBinding| binding.device_id@ == device && binding.line.number@ == line
}

/// Forwarding of this kind is switched on for a station.
pub open spec fn kind_enabled(defaults: config::FeatureDefaults, kind: ForwardingKind) -> bool {
    match kind {
        ForwardingKind::All => defaults.forward_all_enabled,
        ForwardingKind::Busy => defaults.forward_busy_enabled,
        ForwardingKind::NoAnswer => defaults.forward_no_answer_enabled,
    }
}

/// What speaks against changing how a line of a station is forwarded.
pub open spec fn forwarding_refusal(
    access: Access,
    device: Seq<char>,
    line: Seq<char>,
    kind: ForwardingKind,
    available: bool,
) -> Option<FeatureControlProviderError> {
    if !available {
        Some(FeatureControlProviderError::Unavailable)
    } else {
        match lookup::first(access.shared.config.devices@, config::is_device(device)) {
            None => Some(FeatureControlProviderError::DeviceNotFound),
            Some(found) => if !lookup::some(
                access.shared.config.bindings@,
                shows_line_on(device, line),
            ) {
                Some(FeatureControlProviderError::LineNotFound)
            } else if !kind_enabled(found.feature_defaults, kind) {
                Some(FeatureControlProviderError::FeatureDisabled)
            } else {
                None
            },
        }
    }
}

/// Whether a management client may change how a line of a station is forwarded;
/// `available` says whether features can be changed now.
pub fn execute_forwarding_mutation(
    access: &Access,
    device_id: &DeviceId,
    line: &str,
    kind: ForwardingKind,
    available: bool,
) -> (refused: Option<FeatureControlProviderError>)
    ensures
        refused == forwarding_refusal(*access, device_id@, line@, kind, available),
{
    if !available {
        return Some(FeatureControlProviderError::Unavailable);
    }
    let found = match access.shared.config.device(device_id) {
        Some(found) => found,
        None => {
            return Some(FeatureControlProviderError::DeviceNotFound);
        },
    };
    let shown = any(
        &access.shared.config.bindings,
        |binding: &LineBinding| -> (found: bool)
            ensures
                found == (binding.device_id@ == device_id@ && binding.line.number@ == line@)
            {
                binding.device_id.same(device_id) && same_text(binding.line.number.as_str(), line)
            },
        Ghost(shows_line_on(device_id@, line@)),
    );
    if !shown {
        return Some(FeatureControlProviderError::LineNotFound);
    }
    let enabled = match kind {
        ForwardingKind::All => found.feature_defaults.forward_all_enabled,
        ForwardingKind::Busy => found.feature_defaults.forward_busy_enabled,
        ForwardingKind::NoAnswer => found.feature_defaults.forward_no_answer_enabled,
    };
    if !enabled {
        return Some(FeatureControlProviderError::FeatureDisabled);
    }
    None
}

/// What storing a change of forwarding came to.
#[derive(Debug, PartialEq, Eq)]
pub enum ForwardingStored {
    Stored(RuntimeDndMutationOutcome),
    NoDevice,
    Failed(FeatureStoreError),
}

/// What follows a change of forwarding, and what the management client is told of
/// it. Only a change that was stored is published.
pub fn finish_forwarding_mutation(outcome: FeatureOutcome, stored: ForwardingStored) -> (finish: (
    Vec<FeatureTask>,
    Result<FeatureControlOutcome, FeatureControlProviderError>,
))
    ensures
        finish.0@ == match stored {
            ForwardingStored::Stored(_) => seq![
                FeatureTask::PublishFeatures,
                FeatureTask::PublishChanges,
            ],
            _ => Seq::<FeatureTask>::empty(),
        },
        ({
            let result = finish.1;
            match stored {
                ForwardingStored::NoDevice => result matches Err(error) && error
                    == FeatureControlProviderError::DeviceNotFound,
                ForwardingStored::Failed(error) => result matches Err(reported) && reported
                    == store_error_spec(error),
                ForwardingStored::Stored(change) => match outcome {
                    FeatureOutcome::Forwarding { device_id, line, kind } => result matches Ok(told)
                        && told == (FeatureControlOutcome::Forwarding {
                        device_id,
                        line,
                        kind,
                        enabled: destination_spec(change.current.forwarding, kind) is Some,
                        changed: !model::same_features(change.previous, change.current),
                    }),
                },
            }
        }),
{
    let mut tasks: Vec<FeatureTask> = Vec::new();
    match stored {
        ForwardingStored::NoDevice => (tasks, Err(FeatureControlProviderError::DeviceNotFound)),
        ForwardingStored::Failed(error) => (tasks, Err(feature_control_store_error(&error))),
        ForwardingStored::Stored(change) => {
            tasks.push(FeatureTask::PublishFeatures);
            tasks.push(FeatureTask::PublishChanges);
            let changed = !features_agree(&change.previous, &change.current);
            (tasks, Ok(outcome.complete(changed, &change.current)))
        },
    }
}

/// What a request to a service of the driver comes to; none answers where it has
/// gone or takes too long.
pub fn service_reply<T, E>(reply: Option<Result<T, E>>, unavailable: E) -> (result: Result<T, E>)
    ensures
        result == match reply {
            Some(answer) => answer,
            None => Err::<T, E>(unavailable),
        },
{
    match reply {
        Some(answer) => answer,
        None => Err(unavailable),
    }
}

/// Why something could not be shown on the handset of a call.
#[derive(Clone, Copy, Debug, PartialEq, Eq, Structural)]
pub enum HandsetProviderError {
    Unavailable,
    NotDriverChannel,
    NotRegistered,
    HandsetRejected,
}

/// The call on whose handset something is shown.
#[derive(Debug, PartialEq, Eq)]
pub struct HandsetCall {
    pub device_id: DeviceId,
    pub call_id: CallId,
}

pub open spec fn handset_spec(
    access: Access,
    driver_channel: bool,
    call: Option<HandsetCall>,
) -> Result<HandsetCall, HandsetProviderError> {
    if !driver_channel {
        Err(HandsetProviderError::NotDriverChannel)
    } else {
        match call {
            None => Err(HandsetProviderError::Unavailable),
            Some(call) => if access.shared.controller.registered_spec(call.device_id@) {
                Ok(call)
            } else {
                Err(HandsetProviderError::NotRegistered)
            },
        }
    }
}

/// The handset on which something about a call is shown: that of its active or
/// first appearance, if the station is registered.
pub fn handset_of_call(access: &Access, driver_channel: bool, call: Option<HandsetCall>) -> (found:
    Result<HandsetCall, HandsetProviderError>)
    ensures
        found == handset_spec(*access, driver_channel, call),
{
    if !driver_channel {
        return Err(HandsetProviderError::NotDriverChannel);
    }
    match call {
        None => Err(HandsetProviderError::Unavailable),
        Some(call) => if access.shared.controller.is_registered(&call.device_id) {
            Ok(call)
        } else {
            Err(HandsetProviderError::NotRegistered)
        },
    }
}

/// What the dialplan signals to a handset.
#[derive(Clone, Copy, Debug, PartialEq, Eq, Structural)]
pub enum HandsetCallIndication {
    Busy,
    Congestion,
    Unavailable,
    InvalidNumber,
}

pub open spec fn indicated_state(indication: HandsetCallIndication) -> PhoneCallState {
    match indication {
        HandsetCallIndication::Busy => PhoneCallState::Busy,
        HandsetCallIndication::Congestion => PhoneCallState::Congestion,
        HandsetCallIndication::Unavailable => PhoneCallState::Congestion,
        HandsetCallIndication::InvalidNumber => PhoneCallState::InvalidNumber,
    }
}

/// The commands that signal something to a handset.
pub open spec fn indication_commands(call: HandsetCall, indication: HandsetCallIndication) -> Seq<
    PhoneCommand,
> {
    let state = PhoneCommand {
        device_id: call.device_id,
        action: PhoneCommandAction::SetCallState {
            call_id: call.call_id,
            state: indicated_state(indication),
        },
    };
    if indication == HandsetCallIndication::Unavailable {
        seq![
            state,
            PhoneCommand {
                device_id: call.device_id,
                action: PhoneCommandAction::DisplayPrompt {
                    call_id: call.call_id,
                    timeout_seconds: 0,
                    prompt: Prompt::Unavailable,
                },
            },
        ]
    } else {
        seq![state]
    }
}

/// Signals something to the handset of a call. Later commands are sent only after
/// earlier ones were taken.
pub fn handset_indication(call: &HandsetCall, indication: HandsetCallIndication) -> (commands: Vec<
    PhoneCommand,
>)
    ensures
        commands@ == indication_commands(*call, indication),
{
    let (state, prompted) = match indication {
        HandsetCallIndication::Busy => (PhoneCallState::Busy, false),
        HandsetCallIndication::Congestion => (PhoneCallState::Congestion, false),
        HandsetCallIndication::Unavailable => (PhoneCallState::Congestion, true),
        HandsetCallIndication::InvalidNumber => (PhoneCallState::InvalidNumber, false),
    };
    let mut commands: Vec<PhoneCommand> = Vec::new();
    commands.push(
        PhoneCommand::new(
            call.device_id.clone(),
            PhoneCommandAction::SetCallState { call_id: call.call_id, state },
        ),
    );
    if prompted {
        commands.push(
            PhoneCommand::new(
                call.device_id.clone(),
                PhoneCommandAction::DisplayPrompt {
                    call_id: call.call_id,
                    timeout_seconds: 0,
                    prompt: Prompt::Unavailable,
                },
            ),
        );
    }
    commands
}

/// Shows a message on the handset of a call.
pub fn handset_message(call: HandsetCall, message: HandsetStatusMessage) -> (command: PhoneCommand)
    ensures
        command == (PhoneCommand {
            device_id: call.device_id,
            action: PhoneCommandAction::SetStatusMessage { message, beep: false },
        }),
{
    PhoneCommand::new(
        call.device_id,
        PhoneCommandAction::SetStatusMessage { message, beep: false },
    )
}

#[derive(Clone, Copy, Debug, PartialEq, Eq, Structural)]
pub enum CalledPartyProviderError {
    Unavailable,
    NotDriverChannel,
    NativeRejected,
    HandsetRejected,
}

/// The party that was called, as the dialplan says.
#[derive(Debug, PartialEq, Eq)]
pub struct CalledPartyOverride {
    pub name: Option<String>,
    pub number: String,
}

/// How the characters of a name are meant.
#[derive(Clone, Copy, Debug, PartialEq, Eq, Structural)]
pub enum NameCharset {
    Utf8,
}

/// Whether a name or a number may be shown, and who vouches for it.
#[derive(Clone, Copy, Debug, PartialEq, Eq, Structural)]
pub enum Presentation {
    AllowedNotScreened,
}

/// The numbering that a number belongs to.
#[derive(Clone, Copy, Debug, PartialEq, Eq, Structural)]
pub enum NumberPlan {
    Unknown,
}

/// What brought a change of the connected party about.
#[derive(Clone, Copy, Debug, PartialEq, Eq, Structural)]
pub enum ConnectedLineSource {
    Unknown,
}

/// A party as the switch is told of it.
#[derive(Debug, PartialEq, Eq)]
pub struct PartyIdentity {
    pub name: Option<String>,
    pub number: Option<String>,
    pub name_charset: NameCharset,
    pub name_presentation: Presentation,
    pub number_plan: NumberPlan,
    pub number_presentation: Presentation,
}

/// A change of the connected party.
#[derive(Debug, PartialEq, Eq)]
pub struct ConnectedLineUpdate {
    pub party: PartyIdentity,
    /// None is the party of which nothing is said.
    pub private_party: Option<PartyIdentity>,
    pub source: ConnectedLineSource,
}

/// What the switch is told of a party that was called.
pub open spec fn connected_line_spec(party: CalledPartyOverride) -> ConnectedLineUpdate {
    ConnectedLineUpdate {
        party: PartyIdentity {
            name: party.name,
            number: Some(party.number),
            name_charset: NameCharset::Utf8,
            name_presentation: Presentation::AllowedNotScreened,
            number_plan: NumberPlan::Unknown,
            number_presentation: Presentation::AllowedNotScreened,
        },
        private_party: None,
        source: ConnectedLineSource::Unknown,
    }
}

/// What the switch is told where the called party of a channel is replaced:
/// `owned` is none for a channel that is not of the driver, and says whether its
/// call still exists.
pub fn replace_called_party(owned: Option<bool>, party: &CalledPartyOverride) -> (update: Result<
    ConnectedLineUpdate,
    CalledPartyProviderError,
>)
    ensures
        update == match owned {
            None => Err(CalledPartyProviderError::NotDriverChannel),
            Some(false) => Err(CalledPartyProviderError::Unavailable),
            Some(true) => Ok(connected_line_spec(*party)),
        },
{
    match owned {
        None => Err(CalledPartyProviderError::NotDriverChannel),
        Some(false) => Err(CalledPartyProviderError::Unavailable),
        Some(true) => {
            let name = match &party.name {
                Some(name) => Some(name.clone()),
                None => None,
            };
            Ok(
                ConnectedLineUpdate {
                    party: PartyIdentity {
                        name,
                        number: Some(party.number.clone()),
                        name_charset: NameCharset::Utf8,
                        name_presentation: Presentation::AllowedNotScreened,
                        number_plan: NumberPlan::Unknown,
                        number_presentation: Presentation::AllowedNotScreened,
                    },
                    private_party: None,
                    source: ConnectedLineSource::Unknown,
                },
            )
        },
    }
}

/// What became of a replaced called party: `accepted` is what the switch says, and
/// `shown` whether every handset took the change.
pub fn finish_called_party(accepted: bool, shown: bool) -> (result: Result<
    (),
    CalledPartyProviderError,
>)
    ensures
        result == if !accepted {
            Err(CalledPartyProviderError::NativeRejected)
        } else if !shown {
            Err(CalledPartyProviderError::HandsetRejected)
        } else {
            Ok(())
        },
{
    if !accepted {
        Err(CalledPartyProviderError::NativeRejected)
    } else if !shown {
        Err(CalledPartyProviderError::HandsetRejected)
    } else {
        Ok(())
    }
}

/// The command that shows a changed call, where the effect is such a change.
pub open spec fn shows_info() -> spec_fn(DriverEffect) -> Option<PhoneCommand> {
    |effect: DriverEffect|
        match effect {
            DriverEffect::Handset(HandsetEffect::SetCallInfo { device_id, call_id, info }) => Some(
                PhoneCommand {
                    device_id,
                    action: PhoneCommandAction::SetCallInfo { call_id, info },
                },
            ),
            _ => None,
        }
}

/// The commands that show a replaced called party on the handsets of the call;
/// other effects of the controller are passed over.
pub fn called_party_commands(effects: &Vec<DriverEffect>) -> (commands: Vec<PhoneCommand>)
    ensures
        commands@ == effects@.filter_map(shows_info()),
{
    proof {
        assert(effects@.take(effects@.len() as int) =~= effects@);
    }
    gather(
        effects,
        effects.len(),
        |effect: &DriverEffect| -> (command: Option<PhoneCommand>)
            ensures
                command == shows_info()(*effect)
            {
                match effect {
                    DriverEffect::Handset(
                        HandsetEffect::SetCallInfo { device_id, call_id, info },
                    ) => Some(
                        PhoneCommand::new(
                            device_id.clone(),
                            PhoneCommandAction::SetCallInfo {
                                call_id: *call_id,
                                info: info.clone(),
                            },
                        ),
                    ),
                    _ => None,
                }
            },
        Ghost(shows_info()),
    )
}

/// What a handset shows once the called party was replaced.
pub open spec fn called_info(info: CallInfo, shown: CallInfo, party: CalledPartyOverride) -> bool {
    &&& shown == (CallInfo {
        called_name: shown.called_name,
        called_number: party.number,
        ..info
    })
    &&& shown.called_name@ == match party.name {
        Some(name) => name@,
        None => Seq::empty(),
    }
}

/// What a handset shows once the called party was replaced.
pub fn called_party_info(info: &CallInfo, party: &CalledPartyOverride) -> (shown: CallInfo)
    ensures
        called_info(*info, shown, *party),
{
    let mut shown = info.clone();
    shown.called_name = match &party.name {
        Some(name) => name.clone(),
        None => String::new(),
    };
    shown.called_number = party.number.clone();
    proof {
        assert(shown.called_name@ =~= match party.name {
            Some(name) => name@,
            None => Seq::empty(),
        });
    }
    shown
}

/// Setting a destination and reading it back gives what was set; the other kinds of
/// forwarding stay.
pub proof fn law_forwarding_is_read_back(
    before: ForwardingState,
    kind: ForwardingKind,
    other: ForwardingKind,
    destination: Option<String>,
)
    requires
        other != kind,
    ensures
        destination_spec(forwarded(before, kind, destination), kind) == destination,
        destination_spec(forwarded(before, kind, destination), other) == destination_spec(
            before,
            other,
        ),
{
}

/// A failure of the store is told apart from one that left the store behind, and
/// every failure of a do-not-disturb request is told as what it was.
pub proof fn law_control_failures_are_told_apart(
    device_id: DeviceId,
    error: FeatureStoreError,
    told: FeatureControlProviderError,
    result: Result<RuntimeDndMutationOutcome, RuntimeDndMutationError>,
    outcome: Result<FeatureControlOutcome, FeatureControlProviderError>,
)
    requires
        call_ensures(feature_control_store_error, (&error,), told),
        call_ensures(dnd_control_outcome, (device_id, result), outcome),
    ensures
        told is PersistenceDiverged <==> error is Rollback,
        told is Persistence <==> error is Other,
        outcome is Ok <==> result is Ok,
        outcome matches Ok(done) ==> (done matches FeatureControlOutcome::Dnd {
            device_id: on,
            mode,
            changed,
        } && on == device_id && mode == result->Ok_0.current.dnd && (result->Ok_0.current.dnd
            != result->Ok_0.previous.dnd ==> changed) && (result->Ok_0.current
            == result->Ok_0.previous ==> !changed)),
        result matches Err(cause) ==> (outcome matches Err(reported) && (reported is Unavailable
            <==> cause is Unavailable) && (reported is DeviceNotFound <==> cause is DeviceNotFound
            || cause is ButtonNotFound) && (reported is FeatureDisabled
            <==> cause is FeatureDisabled) && (cause matches RuntimeDndMutationError::Store(cause)
            ==> (reported is PersistenceDiverged <==> cause is Rollback))),
{
}

/// Forwarding is set or taken away under its own kind; the other kinds and features
/// stay as they are, and what is told is whether that kind is on now.
pub proof fn law_forwarding_is_changed_under_its_kind(
    state: &mut DeviceFeatureState,
    kind: ForwardingKind,
    destination: Option<String>,
    device_id: DeviceId,
    line: String,
    changed: bool,
    current: DeviceFeatureState,
    outcome: FeatureControlOutcome,
)
    requires
        call_ensures(
            FeatureMutation::apply,
            ((FeatureMutation::Forwarding { kind, destination }), state),
            (),
        ),
        call_ensures(
            FeatureOutcome::complete,
            ((FeatureOutcome::Forwarding { device_id, line, kind }), changed, &current),
            outcome,
        ),
    ensures
        kind is All ==> final(state).forwarding.all == destination,
        kind is Busy ==> final(state).forwarding.busy == destination,
        kind is NoAnswer ==> final(state).forwarding.no_answer == destination,
        !(kind is All) ==> final(state).forwarding.all == old(state).forwarding.all,
        !(kind is Busy) ==> final(state).forwarding.busy == old(state).forwarding.busy,
        !(kind is NoAnswer) ==> final(state).forwarding.no_answer == old(
            state,
        ).forwarding.no_answer,
        final(state).dnd == old(state).dnd && final(state).privacy == old(state).privacy
            && final(state).buttons == old(state).buttons,
        outcome matches FeatureControlOutcome::Forwarding {
            device_id: on,
            line: of,
            kind: as_,
            enabled,
            changed: told,
        } && on == device_id && of == line && as_ == kind && told == changed && (kind is All
            ==> enabled == current.forwarding.all is Some) && (kind is Busy ==> enabled
            == current.forwarding.busy is Some) && (kind is NoAnswer ==> enabled
            == current.forwarding.no_answer is Some),
{
}

/// Forwarding may be changed of a configured station that shows the line, where its
/// kind is enabled; every other case is refused for its own reason.
pub proof fn law_forwarding_changes_are_checked(
    access: &Access,
    device_id: DeviceId,
    line: &str,
    kind: ForwardingKind,
    available: bool,
    refused: Option<FeatureControlProviderError>,
    d: int,
)
    requires
        call_ensures(
            execute_forwarding_mutation,
            (access, &device_id, line, kind, available),
            refused,
        ),
        0 <= d <= access.shared.config.devices@.len(),
        forall|j: int|
            0 <= j < d ==> (#[trigger] access.shared.config.devices@[j]).id@ != device_id@,
        d < access.shared.config.devices@.len() ==> access.shared.config.devices@[d].id@
            == device_id@,
    ensures
        ({
            let known = d < access.shared.config.devices@.len();
            let shown = exists|b: int|
                0 <= b < access.shared.config.bindings@.len() && (
                #[trigger] access.shared.config.bindings@[b]).device_id@ == device_id@
                    && access.shared.config.bindings@[b].line.number@ == line@;
            let defaults = access.shared.config.devices@[d].feature_defaults;
            let enabled = (kind is All && defaults.forward_all_enabled) || (kind is Busy
                && defaults.forward_busy_enabled) || (kind is NoAnswer
                && defaults.forward_no_answer_enabled);
            &&& refused is None <==> available && known && shown && enabled
            &&& refused == Some(FeatureControlProviderError::Unavailable) <==> !available
            &&& refused == Some(FeatureControlProviderError::DeviceNotFound) <==> available
                && !known
            &&& refused == Some(FeatureControlProviderError::LineNotFound) <==> available && known
                && !shown
            &&& refused == Some(FeatureControlProviderError::FeatureDisabled) <==> available
                && known && shown && !enabled
        }),
{
    let p = config::is_device(device_id@);
    if d == access.shared.config.devices@.len() {
        lookup::lemma_first_none(access.shared.config.devices@, p);
    } else {
        lookup::lemma_first_is(access.shared.config.devices@, p, d);
    }
    let bindings = access.shared.config.bindings@;
    let q = shows_line_on(device_id@, line@);
    if lookup::some(bindings, q) {
        let b = choose|b: int| 0 <= b < bindings.len() && q(#[trigger] bindings[b]);
        assert(bindings[b].device_id@ == device_id@);
    }
    if exists|b: int|
        0 <= b < bindings.len() && (#[trigger] bindings[b]).device_id@ == device_id@
            && bindings[b].line.number@ == line@ {
        let b = choose|b: int|
            0 <= b < bindings.len() && (#[trigger] bindings[b]).device_id@ == device_id@
                && bindings[b].line.number@ == line@;
        assert(q(bindings[b]));
    }
}

/// A stored change of forwarding is published and told; one that could not be
/// stored is neither published nor told as done.
pub proof fn law_stored_forwarding_is_published(
    outcome: FeatureOutcome,
    stored: ForwardingStored,
    tasks: Vec<FeatureTask>,
    result: Result<FeatureControlOutcome, FeatureControlProviderError>,
)
    requires
        call_ensures(finish_forwarding_mutation, (outcome, stored), (tasks, result)),
    ensures
        result is Ok <==> stored is Stored,
        stored is Stored ==> tasks@.len() == 2 && tasks@[0] is PublishFeatures
            && tasks@[1] is PublishChanges,
        !(stored is Stored) ==> tasks@.len() == 0,
        stored is NoDevice ==> result == Err::<FeatureControlOutcome, FeatureControlProviderError>(
            FeatureControlProviderError::DeviceNotFound,
        ),
        result matches Ok(done) ==> done is Forwarding,
{
}

/// A station is addressed by a call that the driver owns, while it is registered;
/// each reason why it cannot be is told apart.
pub proof fn law_stations_are_addressed_by_their_call(
    access: &Access,
    driver_channel: bool,
    call: Option<HandsetCall>,
    found: Result<HandsetCall, HandsetProviderError>,
    message: HandsetStatusMessage,
    handset: HandsetCall,
    indication: HandsetCallIndication,
    command: PhoneCommand,
    commands: Vec<PhoneCommand>,
)
    requires
        call_ensures(handset_of_call, (access, driver_channel, call), found),
        call_ensures(handset_message, (handset, message), command),
        call_ensures(handset_indication, (&handset, indication), commands),
    ensures
        found is Ok <==> driver_channel && call is Some && access.shared.controller.registered_spec(
            call->0.device_id@,
        ),
        found matches Ok(found) ==> call == Some(found),
        found matches Err(error) ==> (error is NotDriverChannel <==> !driver_channel) && (
        error is Unavailable <==> driver_channel && call is None),
        command.device_id == handset.device_id && command.action == (
        PhoneCommandAction::SetStatusMessage { message, beep: false }),
        commands@.len() == (if indication is Unavailable {
            2int
        } else {
            1int
        }),
        commands@[0].device_id == handset.device_id && (commands@[0].action matches
            PhoneCommandAction::SetCallState { call_id, state } && call_id == handset.call_id && (
        state == PhoneCallState::Busy <==> indication is Busy) && (state
            == PhoneCallState::InvalidNumber <==> indication is InvalidNumber) && (state
            == PhoneCallState::Congestion <==> indication is Congestion
            || indication is Unavailable)),
        indication is Unavailable ==> commands@[1].device_id == handset.device_id
            && commands@[1].action == (PhoneCommandAction::DisplayPrompt {
            call_id: handset.call_id,
            timeout_seconds: 0,
            prompt: Prompt::Unavailable,
        }),
{
}

/// The called party is replaced on a channel of the driver that is there, by the
/// name and number that were given and no private identity; what is shown on a
/// station keeps everything else.
pub proof fn law_called_parties_are_replaced(
    owned: Option<bool>,
    party: CalledPartyOverride,
    update: Result<ConnectedLineUpdate, CalledPartyProviderError>,
    accepted: bool,
    shown: bool,
    result: Result<(), CalledPartyProviderError>,
    info: CallInfo,
    told: CallInfo,
    effects: Vec<DriverEffect>,
    commands: Vec<PhoneCommand>,
    command: PhoneCommand,
)
    requires
        call_ensures(replace_called_party, (owned, &party), update),
        call_ensures(finish_called_party, (accepted, shown), result),
        call_ensures(called_party_info, (&info, &party), told),
        call_ensures(called_party_commands, (&effects,), commands),
    ensures
        update is Ok <==> owned == Some(true),
        update matches Ok(update) ==> update.party.name == party.name && update.party.number
            == Some(party.number) && update.private_party is None,
        update matches Err(error) ==> (error is NotDriverChannel <==> owned is None),
        result is Ok <==> accepted && shown,
        result matches Err(error) ==> (error is NativeRejected <==> !accepted),
        told.called_number == party.number,
        party.name matches Some(name) ==> told.called_name@ == name@,
        party.name is None ==> told.called_name@.len() == 0,
        told.calling_name == info.calling_name && told.calling_number == info.calling_number
            && told.direction == info.direction,
        commands@.contains(command) <==> exists|i: int|
            0 <= i < effects@.len() && ((#[trigger] effects@[i]) matches DriverEffect::Handset(
                HandsetEffect::SetCallInfo { device_id, call_id, info },
            ) && command.device_id == device_id && command.action == (
            PhoneCommandAction::SetCallInfo { call_id, info })),
{
    let f = shows_info();
    lookup::lemma_filter_map_member(effects@, f, command);
    if commands@.contains(command) {
        let i = choose|i: int|
            0 <= i < effects@.len() && f(#[trigger] effects@[i]) == Some(command);
        assert(effects@[i] is Handset);
    }
    if exists|i: int|
        0 <= i < effects@.len() && ((#[trigger] effects@[i]) matches DriverEffect::Handset(
            HandsetEffect::SetCallInfo { device_id, call_id, info },
        ) && command.device_id == device_id && command.action == (
        PhoneCommandAction::SetCallInfo { call_id, info })) {
        let i = choose|i: int|
            0 <= i < effects@.len() && ((#[trigger] effects@[i]) matches DriverEffect::Handset(
                HandsetEffect::SetCallInfo { device_id, call_id, info },
            ) && command.device_id == device_id && command.action == (
            PhoneCommandAction::SetCallInfo { call_id, info }));
        assert(f(effects@[i]) == Some(command));
    }
}

} // verus!
