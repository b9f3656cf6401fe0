//! Features of a station: do-not-disturb, privacy, feature buttons and the
//! recording key, and what the handset shows of them.

use vstd::prelude::*;
use vstd::string::*;

use crate::access::{with_channel, Access, Shared};
use crate::collect::{self, any, find, gather};
use crate::commands::{
    self, show_prompt, HandsetStatusMessage, PhoneCommand, PhoneCommandAction, PhoneDndButtonMode,
    PhoneDndMode,
};
use crate::config::{
    self, ButtonDefinition, ButtonType, DeviceConfig, DndButton, DndButtonMode, ModuleConfig,
    ParkingLotButton,
};
use crate::controller;
use crate::events::SoftKey;
use crate::ids::{CallId, DeviceId, PbxCallId};
use crate::lookup;
use crate::model::{
    self, CallState, ControllerSnapshot, DeviceFeatureState, DndMode, FeatureButtonState, LineBinding,
};
use crate::parking::{self, lot_has_calls, ParkedCall};
use crate::prompts::Prompt;
use crate::text::same_text;

verus! {

/// Why the features of a station could not be stored.
#[derive(Debug, PartialEq, Eq)]
pub enum FeatureStoreError {
    /// The change failed and so did taking it back.
    Rollback { reason: String },
    Other { reason: String },
}

impl FeatureStoreError {
    pub open spec fn reason_spec(self) -> Seq<char> {
        match self {
            FeatureStoreError::Rollback { reason } => reason@,
            FeatureStoreError::Other { reason } => reason@,
        }
    }
}

#[derive(Clone, Copy, Debug, PartialEq, Eq, Structural)]
pub enum LogLevel {
    Debug,
    Notice,
    Warning,
    Error,
}

/// What is written to the log about a feature that could not be stored: an
/// error where the state is in doubt, else a warning.
pub fn log_feature_store_error(action: &str, device: Option<&DeviceId>, error: &FeatureStoreError) ->
    (entry: (LogLevel, String))
    ensures
        entry.0 == if *error is Rollback {
            LogLevel::Error
        } else {
            LogLevel::Warning
        },
        entry.1@ == "unable to "@ + action@ + match device {
            Some(device) => " for "@ + device@,
            None => Seq::empty(),
        } + ": "@ + error.reason_spec(),
{
    let mut words = "unable to ".to_owned();
    words.append(action);
    match device {
        Some(device) => {
            words.append(" for ");
            words.append(device.as_str());
        },
        None => {},
    }
    words.append(": ");
    let level = match error {
        FeatureStoreError::Rollback { reason } => {
            words.append(reason.as_str());
            LogLevel::Error
        },
        FeatureStoreError::Other { reason } => {
            words.append(reason.as_str());
            LogLevel::Warning
        },
    };
    proof {
        assert(words@ =~= "unable to "@ + action@ + match device {
            Some(device) => " for "@ + device@,
            None => Seq::empty(),
        } + ": "@ + error.reason_spec());
    }
    (level, words)
}

/// What is written to the log about an event that could not be published.
pub fn publish_ami_event(outcome: Result<(), String>) -> (entry: Option<(LogLevel, String)>)
    ensures
        match outcome {
            Ok(_) => entry is None,
            Err(error) => entry matches Some((level, words)) && level == LogLevel::Warning
                && words@ == "unable to publish a management event: "@ + error@,
        },
{
    match outcome {
        Ok(_) => None,
        Err(error) => {
            let mut words = "unable to publish a management event: ".to_owned();
            words.append(error.as_str());
            Some((LogLevel::Warning, words))
        },
    }
}

/// The state that a station is told about again, if it has any.
pub fn publish_current_device_features<'a>(access: &'a Access, device_id: &DeviceId) -> (state: Option<
    &'a DeviceFeatureState,
>)
    ensures
        match lookup::first(
            access.shared.controller.features@,
            controller::features_of(device_id@),
        ) {
            Some(found) => state == Some(&found.state),
            None => state is None,
        },
{
    access.shared.controller.feature_state(device_id)
}

/// A destination that is switched off where it is on, and otherwise set to what
/// is configured.
pub fn toggle_forwarding(current: Option<String>, configured: Option<String>) -> (next: Option<
    String,
>)
    ensures
        next == if current is Some {
            None
        } else {
            configured
        },
{
    if current.is_some() {
        None
    } else {
        configured
    }
}

pub open spec fn phone_dnd_spec(mode: DndMode) -> PhoneDndMode {
    match mode {
        DndMode::Off => PhoneDndMode::Off,
        DndMode::Silent => PhoneDndMode::Silent,
        DndMode::Reject => PhoneDndMode::Reject,
    }
}

pub fn phone_dnd_mode(mode: DndMode) -> (shown: PhoneDndMode)
    ensures
        shown == phone_dnd_spec(mode),
{
    match mode {
        DndMode::Off => PhoneDndMode::Off,
        DndMode::Silent => PhoneDndMode::Silent,
        DndMode::Reject => PhoneDndMode::Reject,
    }
}

pub open spec fn phone_dnd_button_spec(mode: DndButtonMode) -> PhoneDndButtonMode {
    match mode {
        DndButtonMode::Cycle => PhoneDndButtonMode::Cycle,
        DndButtonMode::Silent => PhoneDndButtonMode::Silent,
        DndButtonMode::Reject => PhoneDndButtonMode::Reject,
    }
}

pub fn phone_dnd_button_mode(mode: DndButtonMode) -> (shown: PhoneDndButtonMode)
    ensures
        shown == phone_dnd_button_spec(mode),
{
    match mode {
        DndButtonMode::Cycle => PhoneDndButtonMode::Cycle,
        DndButtonMode::Silent => PhoneDndButtonMode::Silent,
        DndButtonMode::Reject => PhoneDndButtonMode::Reject,
    }
}

/// The forwarding that a line shows: one of the station, where it was selected.
pub open spec fn forward_status(
    device_id: DeviceId,
    state: DeviceFeatureState,
    selected: Seq<u32>,
) -> spec_fn(LineBinding) -> Option<PhoneCommand> {
    |binding: LineBinding|
        if binding.device_id@ == device_id@ && selected.contains(binding.line_instance) {
            Some(
                PhoneCommand {
                    device_id,
                    action: PhoneCommandAction::SetForwardStatus {
                        line_instance: binding.line_instance,
                        forward_all: state.forwarding.all,
                        forward_busy: state.forwarding.busy,
                        forward_no_answer: state.forwarding.no_answer,
                    },
                },
            )
        } else {
            None
        }
}

fn is_selected(selected: &Vec<u32>, instance: u32) -> (found: bool)
    ensures
        found == selected@.contains(instance),
{
    let mut i: usize = 0;
    while i < selected.len()
        invariant
            0 <= i <= selected@.len(),
            forall|j: int| 0 <= j < i ==> selected@[j] != instance,
        decreases selected@.len() - i,
    {
        if selected[i] == instance {
            return true;
        }
        i += 1;
    }
    false
}

/// What a do-not-disturb button shows.
pub open spec fn dnd_status(device_id: DeviceId, dnd: DndMode) -> spec_fn(
    DndButton,
) -> PhoneCommand {
    |button: DndButton|
        PhoneCommand {
            device_id,
            action: PhoneCommandAction::SetDoNotDisturbStatus {
                instance: button.instance,
                mode: phone_dnd_spec(dnd),
                button_mode: phone_dnd_button_spec(button.mode),
            },
        }
}

pub open spec fn parking_button_at(instance: u32) -> spec_fn(ParkingLotButton) -> bool {
    |button: ParkingLotButton| button.instance == instance
}

pub open spec fn feature_button_at(instance: u32) -> spec_fn(FeatureButtonState) -> bool {
    |button: FeatureButtonState| button.instance == instance
}

/// A feature button is lit.
pub open spec fn lit_spec(
    device: DeviceConfig,
    state: DeviceFeatureState,
    parked: Seq<ParkedCall>,
    instance: u32,
    feature: ButtonType,
) -> bool {
    match feature {
        ButtonType::ForwardAll => state.forwarding.all is Some,
        ButtonType::ForwardBusy => state.forwarding.busy is Some,
        ButtonType::ForwardNoAnswer => state.forwarding.no_answer is Some,
        ButtonType::ParkingLot => match lookup::first(
            device.parking_buttons@,
            parking_button_at(instance),
        ) {
            Some(button) => lookup::some(parked, parking::waits_in(button.lot@)),
            None => false,
        },
        _ => match lookup::first(state.buttons@, feature_button_at(instance)) {
            Some(button) => button.enabled,
            None => false,
        },
    }
}

/// What a button shows, where it is one that this is for.
pub open spec fn button_status(
    device: DeviceConfig,
    device_id: DeviceId,
    state: DeviceFeatureState,
    parked: Seq<ParkedCall>,
) -> spec_fn(ButtonDefinition) -> Option<PhoneCommand> {
    |button: ButtonDefinition|
        match button {
            ButtonDefinition::Feature { instance, feature } => if feature
                == ButtonType::DoNotDisturb {
                None
            } else {
                Some(
                    PhoneCommand {
                        device_id,
                        action: PhoneCommandAction::SetFeatureStatus {
                            instance,
                            enabled: lit_spec(device, state, parked, instance, feature),
                        },
                    },
                )
            },
            _ => None,
        }
}

/// Everything that a station is told about its features.
pub open spec fn feature_commands(
    config: ModuleConfig,
    device_id: DeviceId,
    state: DeviceFeatureState,
    selected: Seq<u32>,
    parked: Seq<ParkedCall>,
) -> Seq<PhoneCommand> {
    let forwards = config.bindings@.filter_map(forward_status(device_id, state, selected));
    match lookup::first(config.devices@, config::is_device(device_id@)) {
        None => forwards,
        Some(device) => forwards + seq![
            PhoneCommand {
                device_id,
                action: PhoneCommandAction::SetStatusMessage {
                    message: HandsetStatusMessage::DoNotDisturb(state.dnd),
                    beep: false,
                },
            },
        ] + device.dnd_buttons@.map_values(dnd_status(device_id, state.dnd))
            + device.buttons@.filter_map(button_status(device, device_id, state, parked)),
    }
}

/// Whether the button at `instance` is lit for what it stands for.
pub fn button_lit(
    device: &DeviceConfig,
    state: &DeviceFeatureState,
    parked: &Vec<ParkedCall>,
    instance: u32,
    feature: ButtonType,
) -> (lit: bool)
    ensures
        lit == lit_spec(*device, *state, parked@, instance, feature),
{
    match feature {
        ButtonType::ForwardAll => state.forwarding.all.is_some(),
        ButtonType::ForwardBusy => state.forwarding.busy.is_some(),
        ButtonType::ForwardNoAnswer => state.forwarding.no_answer.is_some(),
        ButtonType::ParkingLot => match find(
            &device.parking_buttons,
            |button: &ParkingLotButton| -> (found: bool)
                ensures
                    found == (button.instance == instance)
                { button.instance == instance },
            Ghost(parking_button_at(instance)),
        ) {
            Some(button) => lot_has_calls(parked, button.lot.as_str()),
            None => false,
        },
        _ => match find(
            &state.buttons,
            |button: &FeatureButtonState| -> (found: bool)
                ensures
                    found == (button.instance == instance)
                { button.instance == instance },
            Ghost(feature_button_at(instance)),
        ) {
            Some(button) => button.enabled,
            None => false,
        },
    }
}

/// Tells a station about its features. `selected` are the lines among its
/// appearances, see [`ModuleConfig::appearances_for_device`], that show
/// forwarding, and `parked` the calls that wait in parking lots.
pub fn publish_device_features(
    access: &Access,
    device_id: &DeviceId,
    state: &DeviceFeatureState,
    selected: &Vec<u32>,
    parked: &Vec<ParkedCall>,
) -> (sent: Vec<PhoneCommand>)
    ensures
        sent@ == feature_commands(
            access.shared.config,
            *device_id,
            *state,
            selected@,
            parked@,
        ),
{
    let bindings = &access.shared.config.bindings;
    let ghost forward = forward_status(*device_id, *state, selected@);
    let mut sent = gather(
        bindings,
        bindings.len(),
        |binding: &LineBinding| -> (command: Option<PhoneCommand>)
            ensures
                command == forward_status(*device_id, *state, selected@)(*binding)
            {
                if binding.device_id.same(device_id) && is_selected(selected, binding.line_instance) {
                    Some(
                        PhoneCommand::new(
                            device_id.clone(),
                            PhoneCommandAction::SetForwardStatus {
                                line_instance: binding.line_instance,
                                forward_all: cloned_text(&state.forwarding.all),
                                forward_busy: cloned_text(&state.forwarding.busy),
                                forward_no_answer: cloned_text(&state.forwarding.no_answer),
                            },
                        ),
                    )
                } else {
                    None
                }
            },
        Ghost(forward),
    );
    proof {
        assert(bindings@.take(bindings@.len() as int) =~= bindings@);
    }
    let device = match access.shared.config.device(device_id) {
        Some(device) => device,
        None => return sent,
    };
    sent.push(
        PhoneCommand::new(
            device_id.clone(),
            PhoneCommandAction::SetStatusMessage {
                message: HandsetStatusMessage::DoNotDisturb(state.dnd),
                beep: false,
            },
        ),
    );
    let ghost head = sent@;
    let ghost dnd = dnd_status(*device_id, state.dnd);
    let mut j: usize = 0;
    proof {
        assert(head =~= head + device.dnd_buttons@.take(0).map_values(dnd));
    }
    while j < device.dnd_buttons.len()
        invariant
            dnd == dnd_status(*device_id, state.dnd),
            0 <= j <= device.dnd_buttons@.len(),
            sent@ == head + device.dnd_buttons@.take(j as int).map_values(dnd),
        decreases device.dnd_buttons@.len() - j,
    {
        let button = device.dnd_buttons[j];
        sent.push(
            PhoneCommand::new(
                device_id.clone(),
                PhoneCommandAction::SetDoNotDisturbStatus {
                    instance: button.instance,
                    mode: phone_dnd_mode(state.dnd),
                    button_mode: phone_dnd_button_mode(button.mode),
                },
            ),
        );
        proof {
            assert(sent@ =~= head + device.dnd_buttons@.take(j + 1).map_values(dnd));
        }
        j += 1;
    }
    proof {
        assert(device.dnd_buttons@.take(j as int) =~= device.dnd_buttons@);
    }
    let ghost body = sent@;
    let ghost status = button_status(*device, *device_id, *state, parked@);
    proof {
        assert(device.buttons@.take(0).filter_map(status) =~= Seq::<PhoneCommand>::empty()) by {
            reveal(Seq::filter_map);
        }
        assert(body =~= body + Seq::<PhoneCommand>::empty());
    }
    let mut k: usize = 0;
    while k < device.buttons.len()
        invariant
            status == button_status(*device, *device_id, *state, parked@),
            0 <= k <= device.buttons@.len(),
            sent@ == body + device.buttons@.take(k as int).filter_map(status),
        decreases device.buttons@.len() - k,
    {
        proof {
            lookup::lemma_filter_map_step(device.buttons@, status, k as int);
        }
        match device.buttons[k] {
            ButtonDefinition::Feature { instance, feature } => {
                if feature != ButtonType::DoNotDisturb {
                    let enabled = button_lit(device, state, parked, instance, feature);
                    sent.push(
                        PhoneCommand::new(
                            device_id.clone(),
                            PhoneCommandAction::SetFeatureStatus { instance, enabled },
                        ),
                    );
                    proof {
                        assert(sent@ =~= body + device.buttons@.take(k + 1).filter_map(status));
                    }
                }
            },
            _ => {},
        }
        k += 1;
    }
    proof {
        assert(device.buttons@.take(k as int) =~= device.buttons@);
        assert(sent@ =~= feature_commands(
            access.shared.config,
            *device_id,
            *state,
            selected@,
            parked@,
        ));
    }
    sent
}

pub fn cloned_text(text: &Option<String>) -> (copy: Option<String>)
    ensures
        copy == *text,
{
    match text {
        Some(text) => Some(text.clone()),
        None => None,
    }
}

/// What the store is given to change a station's features.
#[derive(Debug, PartialEq, Eq)]
pub struct FeatureUpdate<'a> {
    pub current: &'a DeviceFeatureState,
    pub defaults: &'a DeviceFeatureState,
}

/// The state that a change of a station's features starts from: the present
/// one, else the configured one.
pub open spec fn current_features(
    shared: Shared,
    device: Seq<char>,
    defaults: DeviceFeatureState,
) -> DeviceFeatureState {
    match lookup::first(shared.controller.features@, controller::features_of(device)) {
        Some(features) => features.state,
        None => defaults,
    }
}

/// Begins a change of a station's features. Without a configuration there is
/// nothing to change.
pub fn begin_feature_update<'a>(
    access: &'a Access,
    device_id: &DeviceId,
    defaults: Option<&'a DeviceFeatureState>,
) -> (update: Option<FeatureUpdate<'a>>)
    ensures
        match (defaults, update) {
            (None, None) => true,
            (Some(defaults), Some(update)) => {
                &&& *update.current == current_features(access.shared, device_id@, *defaults)
                &&& *update.defaults == *defaults
            },
            _ => false,
        },
{
    match defaults {
        None => None,
        Some(defaults) => Some(
            FeatureUpdate {
                current: match access.shared.controller.feature_state(device_id) {
                    Some(state) => state,
                    None => defaults,
                },
                defaults,
            },
        ),
    }
}

/// Ends a change of a station's features, where `stored` is what the store made
/// of what [`begin_feature_update`] gave it: the controller takes over what was
/// stored, and the states before and after are handed back. A store that fails
/// leaves the controller alone.
pub fn update_device_features_locked(
    access: &mut Access,
    device_id: &DeviceId,
    defaults: Option<DeviceFeatureState>,
    stored: Result<DeviceFeatureState, FeatureStoreError>,
) -> (updated: Result<Option<(DeviceFeatureState, DeviceFeatureState)>, FeatureStoreError>)
    ensures
        match (defaults, stored) {
            (None, _) => {
                &&& updated == Ok::<
                    Option<(DeviceFeatureState, DeviceFeatureState)>,
                    FeatureStoreError,
                >(None)
                &&& *final(access) == *old(access)
            },
            (Some(_), Err(error)) => {
                &&& updated == Err::<
                    Option<(DeviceFeatureState, DeviceFeatureState)>,
                    FeatureStoreError,
                >(error)
                &&& *final(access) == *old(access)
            },
            (Some(defaults), Ok(next)) => {
                &&& updated == Ok::<
                    Option<(DeviceFeatureState, DeviceFeatureState)>,
                    FeatureStoreError,
                >(Some((current_features(old(access).shared, device_id@, defaults), next)))
                &&& features_replaced(old(access).shared, final(access).shared, device_id@, next)
            },
        },
{
    let defaults = match defaults {
        Some(defaults) => defaults,
        None => return Ok(None),
    };
    let next = match stored {
        Ok(next) => next,
        Err(error) => return Err(error),
    };
    let previous = match access.shared.controller.set_feature_state(device_id, next.clone()) {
        Some(previous) => previous,
        None => defaults,
    };
    Ok(Some((previous, next)))
}

/// A station has these features now; nothing else has changed.
pub open spec fn features_replaced(
    before: Shared,
    after: Shared,
    device: Seq<char>,
    state: DeviceFeatureState,
) -> bool {
    &&& after == (Shared {
        controller: ControllerSnapshot {
            features: after.controller.features,
            ..before.controller
        },
        ..before
    })
    &&& lookup::first(after.controller.features@, controller::features_of(device)) matches Some(
        found,
    ) && model::same_features(found.state, state)
    &&& forall|other: Seq<char>|
        other != device ==> #[trigger] lookup::first(
            after.controller.features@,
            controller::features_of(other),
        ) == lookup::first(before.controller.features@, controller::features_of(other))
}

/// One change of a station's features as it is published.
#[derive(Debug, PartialEq, Eq)]
pub struct FeatureEvent<C> {
    pub device_id: DeviceId,
    pub change: C,
}

pub open spec fn event_of<C>(device_id: DeviceId) -> spec_fn(C) -> FeatureEvent<C> {
    |change: C| FeatureEvent { device_id, change }
}

/// Publishes the changes between two states of a station, one by one and in
/// their order.
pub fn publish_feature_changes<C>(device_id: &DeviceId, changes: Vec<C>) -> (events: Vec<
    FeatureEvent<C>,
>)
    ensures
        events@ == changes@.map_values(event_of(*device_id)),
{
    let ghost all = changes@;
    let mut left = changes;
    let mut events: Vec<FeatureEvent<C>> = Vec::new();
    let ghost mut done: int = 0;
    while left.len() > 0
        invariant
            0 <= done <= all.len(),
            left@ == all.skip(done),
            events@ == all.take(done).map_values(event_of(*device_id)),
        decreases left@.len(),
    {
        let change = left.remove(0);
        events.push(FeatureEvent { device_id: device_id.clone(), change });
        proof {
            assert(left@ =~= all.skip(done + 1));
            assert(events@ =~= all.take(done + 1).map_values(event_of(*device_id)));
            done = done + 1;
        }
    }
    proof {
        assert(all.take(done) =~= all);
    }
    events
}

/// A change of a station's features.
#[derive(Clone, Copy, Debug, PartialEq, Eq, Structural)]
pub enum FeatureStateChange {
    SetDnd(DndMode),
    TogglePrivacy,
    ToggleButton(u32),
    ToggleRecordingArmed,
}

/// The buttons with the first of `instance` switched over.
pub open spec fn toggled(buttons: Seq<FeatureButtonState>, instance: u32) -> Seq<
    FeatureButtonState,
> {
    match lookup::first_at(buttons, feature_button_at(instance), 0) {
        Some(i) => buttons.update(
            i,
            FeatureButtonState { instance, enabled: !buttons[i].enabled },
        ),
        None => buttons,
    }
}

pub open spec fn changed(
    before: DeviceFeatureState,
    after: DeviceFeatureState,
    change: FeatureStateChange,
) -> bool {
    match change {
        FeatureStateChange::SetDnd(mode) => after == (DeviceFeatureState { dnd: mode, ..before }),
        FeatureStateChange::TogglePrivacy => after == (DeviceFeatureState {
            privacy: !before.privacy,
            ..before
        }),
        FeatureStateChange::ToggleButton(instance) => {
            &&& after == (DeviceFeatureState { buttons: after.buttons, ..before })
            &&& after.buttons@ == toggled(before.buttons@, instance)
        },
        FeatureStateChange::ToggleRecordingArmed => after == (DeviceFeatureState {
            recording_armed: !before.recording_armed,
            ..before
        }),
    }
}

impl FeatureStateChange {
    /// Changes the features of a station. A button that it does not have is left
    /// alone.
    pub fn apply(self, state: &mut DeviceFeatureState)
        ensures
            changed(*old(state), *final(state), self),
    {
        match self {
            FeatureStateChange::SetDnd(mode) => {
                state.dnd = mode;
            },
            FeatureStateChange::TogglePrivacy => {
                state.privacy = !state.privacy;
            },
            FeatureStateChange::ToggleButton(instance) => {
                let ghost p = feature_button_at(instance);
                proof {
                    lookup::lemma_first_at(state.buttons@, p, 0);
                }
                match collect::position(
                    &state.buttons,
                    |button: &FeatureButtonState| -> (found: bool)
                        ensures
                            found == (button.instance == instance)
                        { button.instance == instance },
                    Ghost(p),
                ) {
                    Some(i) => {
                        let enabled = !state.buttons[i].enabled;
                        state.buttons.set(i, FeatureButtonState { instance, enabled });
                    },
                    None => {},
                }
            },
            FeatureStateChange::ToggleRecordingArmed => {
                state.recording_armed = !state.recording_armed;
            },
        }
    }
}

/// Where a change of do-not-disturb comes from.
#[derive(Clone, Copy, Debug, PartialEq, Eq, Structural)]
pub enum RuntimeDndMutation {
    Mode(DndMode),
    Scheduled(DndMode),
    SoftKey,
    Button(u32),
}

#[derive(Debug, PartialEq, Eq)]
pub enum RuntimeDndMutationError {
    Unavailable,
    DeviceNotFound,
    FeatureDisabled,
    ButtonNotFound,
    Store(FeatureStoreError),
}

/// How the mode changes.
#[derive(Clone, Copy, Debug, PartialEq, Eq, Structural)]
pub enum DndMutation {
    Mode(DndMode),
    /// As a button of this kind changes it.
    Toggle(DndButtonMode),
    /// As the button that suits the configured mode changes it.
    ToggleDefault(DndMode),
}

pub open spec fn dnd_button_at(instance: u32) -> spec_fn(DndButton) -> bool {
    |button: DndButton| button.instance == instance
}

pub open spec fn dnd_mutation_spec(
    config: ModuleConfig,
    device: Seq<char>,
    request: RuntimeDndMutation,
    defaults: Option<DndMode>,
    available: bool,
) -> Result<DndMutation, RuntimeDndMutationError> {
    if !available {
        Err(RuntimeDndMutationError::Unavailable)
    } else {
        match lookup::first(config.devices@, config::is_device(device)) {
            None => Err(RuntimeDndMutationError::DeviceNotFound),
            Some(found) => if !found.feature_defaults.dnd_enabled && !(request is Scheduled) {
                Err(RuntimeDndMutationError::FeatureDisabled)
            } else {
                match defaults {
                    None => Err(RuntimeDndMutationError::DeviceNotFound),
                    Some(dnd) => match request {
                        RuntimeDndMutation::Mode(mode) => Ok(DndMutation::Mode(mode)),
                        RuntimeDndMutation::Scheduled(mode) => Ok(DndMutation::Mode(mode)),
                        RuntimeDndMutation::SoftKey => Ok(DndMutation::ToggleDefault(dnd)),
                        RuntimeDndMutation::Button(instance) => match lookup::first(
                            found.dnd_buttons@,
                            dnd_button_at(instance),
                        ) {
                            Some(button) => Ok(DndMutation::Toggle(button.mode)),
                            None => Err(RuntimeDndMutationError::ButtonNotFound),
                        },
                    },
                }
            },
        }
    }
}

/// What a request to change do-not-disturb comes to. A schedule may change it
/// where the station itself may not. `defaults` is the configured mode of the
/// station, and `available` says whether features can be changed now.
pub fn execute_dnd_mutation_serialized(
    access: &Access,
    device_id: &DeviceId,
    request: RuntimeDndMutation,
    defaults: Option<DndMode>,
    available: bool,
) -> (mutation: Result<DndMutation, RuntimeDndMutationError>)
    ensures
        mutation == dnd_mutation_spec(
            access.shared.config,
            device_id@,
            request,
            defaults,
            available,
        ),
{
    if !available {
        return Err(RuntimeDndMutationError::Unavailable);
    }
    let found = match access.shared.config.device(device_id) {
        Some(found) => found,
        None => return Err(RuntimeDndMutationError::DeviceNotFound),
    };
    let scheduled = match request {
        RuntimeDndMutation::Scheduled(_) => true,
        _ => false,
    };
    if !found.feature_defaults.dnd_enabled && !scheduled {
        return Err(RuntimeDndMutationError::FeatureDisabled);
    }
    let dnd = match defaults {
        Some(dnd) => dnd,
        None => return Err(RuntimeDndMutationError::DeviceNotFound),
    };
    match request {
        RuntimeDndMutation::Mode(mode) => Ok(DndMutation::Mode(mode)),
        RuntimeDndMutation::Scheduled(mode) => Ok(DndMutation::Mode(mode)),
        RuntimeDndMutation::SoftKey => Ok(DndMutation::ToggleDefault(dnd)),
        RuntimeDndMutation::Button(instance) => match find(
            &found.dnd_buttons,
            |button: &DndButton| -> (found: bool)
                ensures
                    found == (button.instance == instance)
                { button.instance == instance },
            Ghost(dnd_button_at(instance)),
        ) {
            Some(button) => Ok(DndMutation::Toggle(button.mode)),
            None => Err(RuntimeDndMutationError::ButtonNotFound),
        },
    }
}

/// Requests that do not come from a schedule wait for the schedule's turn; where
/// that cannot be had, nothing changes.
pub fn execute_dnd_mutation(
    access: &Access,
    device_id: &DeviceId,
    request: RuntimeDndMutation,
    defaults: Option<DndMode>,
    schedule_available: bool,
    available: bool,
) -> (mutation: Result<DndMutation, RuntimeDndMutationError>)
    ensures
        mutation == dnd_mutation_spec(
            access.shared.config,
            device_id@,
            request,
            defaults,
            schedule_available && available,
        ),
{
    if !schedule_available {
        return Err(RuntimeDndMutationError::Unavailable);
    }
    execute_dnd_mutation_serialized(access, device_id, request, defaults, available)
}

/// What is written to the log after a do-not-disturb button was pressed: only that
/// the change could not be stored.
pub fn handle_dnd_button(device_id: &DeviceId, result: &Result<(), RuntimeDndMutationError>) -> (
entry: Option<(LogLevel, String)>)
    ensures
        match *result {
            Err(RuntimeDndMutationError::Store(error)) => {
                &&& entry matches Some((level, words))
                &&& level == if error is Rollback {
                    LogLevel::Error
                } else {
                    LogLevel::Warning
                }
                &&& words@ == "unable to "@ + "persist handset DND mutation"@ + (" for "@
                    + device_id@) + ": "@ + error.reason_spec()
            },
            _ => entry is None,
        },
{
    match result {
        Err(RuntimeDndMutationError::Store(error)) => Some(
            log_feature_store_error("persist handset DND mutation", Some(device_id), error),
        ),
        _ => None,
    }
}

/// What storing a change of features came to.
#[derive(Debug, PartialEq, Eq)]
pub enum FeatureStored {
    Stored,
    /// The station has no configuration.
    NoDevice,
    Failed(FeatureStoreError),
}

impl FeatureStored {
    /// What [`update_device_features_locked`] came to.
    pub fn of(
        updated: Result<Option<(DeviceFeatureState, DeviceFeatureState)>, FeatureStoreError>,
    ) -> (stored: FeatureStored)
        ensures
            stored == match updated {
                Ok(Some(_)) => FeatureStored::Stored,
                Ok(None) => FeatureStored::NoDevice,
                Err(error) => FeatureStored::Failed(error),
            },
    {
        match updated {
            Ok(Some(_)) => FeatureStored::Stored,
            Ok(None) => FeatureStored::NoDevice,
            Err(error) => FeatureStored::Failed(error),
        }
    }
}

/// What a station and others are told afterwards.
#[derive(Clone, Copy, Debug, PartialEq, Eq, Structural)]
pub enum FeatureTask {
    /// Tell the station about the new state.
    PublishFeatures,
    /// Tell the station about the state that still stands.
    PublishCurrent,
    PublishLines,
    /// Publish what changed.
    PublishChanges,
    PublishRecordingButton,
}

/// What follows a change of do-not-disturb.
pub fn finish_dnd_mutation(stored: FeatureStored) -> (finish: (
    Vec<FeatureTask>,
    Result<(), RuntimeDndMutationError>,
))
    ensures
        match stored {
            FeatureStored::Stored => {
                &&& finish.0@ == seq![
                    FeatureTask::PublishFeatures,
                    FeatureTask::PublishLines,
                    FeatureTask::PublishChanges,
                ]
                &&& finish.1 is Ok
            },
            FeatureStored::NoDevice => {
                &&& finish.0@.len() == 0
                &&& finish.1 == Err::<(), RuntimeDndMutationError>(
                    RuntimeDndMutationError::DeviceNotFound,
                )
            },
            FeatureStored::Failed(error) => {
                &&& finish.0@ == seq![FeatureTask::PublishCurrent]
                &&& finish.1 == Err::<(), RuntimeDndMutationError>(
                    RuntimeDndMutationError::Store(error),
                )
            },
        },
{
    let mut tasks: Vec<FeatureTask> = Vec::new();
    match stored {
        FeatureStored::Stored => {
            tasks.push(FeatureTask::PublishFeatures);
            tasks.push(FeatureTask::PublishLines);
            tasks.push(FeatureTask::PublishChanges);
            (tasks, Ok(()))
        },
        FeatureStored::NoDevice => (tasks, Err(RuntimeDndMutationError::DeviceNotFound)),
        FeatureStored::Failed(error) => {
            tasks.push(FeatureTask::PublishCurrent);
            (tasks, Err(RuntimeDndMutationError::Store(error)))
        },
    }
}

/// What follows a change by a key or a feature button.
pub fn finish_feature_change(stored: &FeatureStored) -> (tasks: Vec<FeatureTask>)
    ensures
        tasks@ == match *stored {
            FeatureStored::Stored => seq![FeatureTask::PublishFeatures, FeatureTask::PublishChanges],
            FeatureStored::NoDevice => Seq::empty(),
            FeatureStored::Failed(_) => seq![FeatureTask::PublishCurrent],
        },
{
    let mut tasks: Vec<FeatureTask> = Vec::new();
    match stored {
        FeatureStored::Stored => {
            tasks.push(FeatureTask::PublishFeatures);
            tasks.push(FeatureTask::PublishChanges);
        },
        FeatureStored::NoDevice => {},
        FeatureStored::Failed(_) => {
            tasks.push(FeatureTask::PublishCurrent);
        },
    }
    tasks
}

/// What follows a change of the recording key: it is shown either way.
pub fn finish_recording_change(stored: &FeatureStored) -> (tasks: Vec<FeatureTask>)
    ensures
        tasks@ == if *stored is NoDevice {
            Seq::empty()
        } else {
            seq![FeatureTask::PublishRecordingButton]
        },
{
    let mut tasks: Vec<FeatureTask> = Vec::new();
    match stored {
        FeatureStored::NoDevice => {},
        _ => {
            tasks.push(FeatureTask::PublishRecordingButton);
        },
    }
    tasks
}

/// What a feature key asks for.
#[derive(Clone, Copy, Debug, PartialEq, Eq, Structural)]
pub enum FeatureKeyAction {
    Forwarding,
    /// Switch the privacy of the call over.
    CallPrivacy(CallId),
    DoNotDisturb,
    /// Switch the privacy of the station over.
    TogglePrivacy,
    Ignore,
}

pub open spec fn feature_key_spec(
    shared: Shared,
    device: Seq<char>,
    key_call_id: Option<CallId>,
    soft_key: SoftKey,
) -> FeatureKeyAction {
    match soft_key {
        SoftKey::ForwardAll | SoftKey::ForwardBusy | SoftKey::ForwardNoAnswer =>
            FeatureKeyAction::Forwarding,
        SoftKey::DoNotDisturb => FeatureKeyAction::DoNotDisturb,
        SoftKey::Private => match key_call_id {
            Some(call_id) => FeatureKeyAction::CallPrivacy(call_id),
            None => match lookup::first(shared.config.devices@, config::is_device(device)) {
                Some(found) => if found.feature_defaults.privacy_enabled {
                    FeatureKeyAction::TogglePrivacy
                } else {
                    FeatureKeyAction::Ignore
                },
                None => FeatureKeyAction::Ignore,
            },
        },
        _ => FeatureKeyAction::Ignore,
    }
}

/// Decides what a feature key asks for. Privacy is that of the call where there
/// is one, else that of the station.
pub fn handle_feature_soft_key(
    access: &Access,
    device_id: &DeviceId,
    key_call_id: Option<CallId>,
    soft_key: SoftKey,
) -> (action: FeatureKeyAction)
    ensures
        action == feature_key_spec(access.shared, device_id@, key_call_id, soft_key),
{
    match soft_key {
        SoftKey::ForwardAll | SoftKey::ForwardBusy | SoftKey::ForwardNoAnswer =>
            FeatureKeyAction::Forwarding,
        SoftKey::DoNotDisturb => FeatureKeyAction::DoNotDisturb,
        SoftKey::Private => match key_call_id {
            Some(call_id) => FeatureKeyAction::CallPrivacy(call_id),
            None => match access.shared.config.device(device_id) {
                Some(found) => if found.feature_defaults.privacy_enabled {
                    FeatureKeyAction::TogglePrivacy
                } else {
                    FeatureKeyAction::Ignore
                },
                None => FeatureKeyAction::Ignore,
            },
        },
        _ => FeatureKeyAction::Ignore,
    }
}

/// What changing the privacy of a call came to.
#[derive(Debug, PartialEq, Eq)]
pub struct PrivacyOutcome {
    /// The controller goes back to what it was.
    pub restore: Option<bool>,
    pub prompt: PhoneCommand,
    /// The change is published.
    pub publish: Option<bool>,
}

pub open spec fn privacy_spec(
    shared: Shared,
    device_id: DeviceId,
    call_id: CallId,
    previous: bool,
    accepted: bool,
) -> PrivacyOutcome {
    let applied = match lookup::first(
        shared.controller.appearances@,
        controller::is_call(call_id),
    ) {
        Some(call) => accepted && shared.binding_spec(call.device_id@, call.line_instance) is Some
            && shared.live_channel_spec(call.pbx_id) is Some,
        None => false,
    };
    PrivacyOutcome {
        restore: if applied {
            None
        } else {
            Some(previous)
        },
        prompt: commands::prompt_command(
            device_id,
            call_id,
            3,
            if !applied {
                Prompt::UnableToChangePrivacy
            } else if !previous {
                Prompt::PrivacyEnabled
            } else {
                Prompt::PrivacyDisabled
            },
        ),
        publish: if applied {
            Some(!previous)
        } else {
            None
        },
    }
}

/// What follows once the controller has switched the privacy of a call over
/// from `previous`. It stays so only where the call has a line and a channel,
/// and the switch accepted it.
pub fn finish_call_privacy(
    access: &Access,
    device_id: DeviceId,
    call_id: CallId,
    previous: bool,
    accepted: bool,
) -> (outcome: PrivacyOutcome)
    ensures
        outcome == privacy_spec(access.shared, device_id, call_id, previous, accepted),
{
    let applied = match access.shared.controller.call(call_id) {
        Some(call) => accepted && access.line_binding(&call.device_id, call.line_instance).is_some()
            && with_channel(access, call.pbx_id).is_some(),
        None => false,
    };
    let prompt = if !applied {
        Prompt::UnableToChangePrivacy
    } else if !previous {
        Prompt::PrivacyEnabled
    } else {
        Prompt::PrivacyDisabled
    };
    PrivacyOutcome {
        restore: if applied {
            None
        } else {
            Some(previous)
        },
        prompt: show_prompt(device_id, call_id, 3, prompt),
        publish: if applied {
            Some(!previous)
        } else {
            None
        },
    }
}

/// The button is the feature button of this instance.
pub open spec fn is_feature_button(instance: u32) -> spec_fn(ButtonDefinition) -> bool {
    |button: ButtonDefinition|
        button == (ButtonDefinition::Feature { instance, feature: ButtonType::Feature })
}

/// What a feature button asks for: to be switched over, where the station has
/// it.
pub fn handle_feature_button(access: &Access, device_id: &DeviceId, instance: u32) -> (change:
    Option<FeatureStateChange>)
    ensures
        change == match lookup::first(
            access.shared.config.devices@,
            config::is_device(device_id@),
        ) {
            Some(found) => if lookup::some(found.buttons@, is_feature_button(instance)) {
                Some(FeatureStateChange::ToggleButton(instance))
            } else {
                None
            },
            None => None,
        },
{
    let found = match access.shared.config.device(device_id) {
        Some(found) => found,
        None => return None,
    };
    let configured = any(
        &found.buttons,
        |button: &ButtonDefinition| -> (found: bool)
            ensures
                found == (*button == (ButtonDefinition::Feature {
                    instance,
                    feature: ButtonType::Feature,
                }))
            { *button == (ButtonDefinition::Feature { instance, feature: ButtonType::Feature }) },
        Ghost(is_feature_button(instance)),
    );
    if configured {
        Some(FeatureStateChange::ToggleButton(instance))
    } else {
        None
    }
}

/// What the recording button asks for.
#[derive(Clone, Copy, Debug, PartialEq, Eq, Structural)]
pub enum RecordingButtonAction {
    /// The station has no such button.
    Ignore,
    /// Start or stop recording this call.
    ToggleRecording(CallId),
    /// Record the next call, or no longer.
    ToggleArmed,
}

/// The call that the recording button acts on: the active call of the station,
/// where it is being recorded or can be.
pub open spec fn recordable_spec(
    shared: Shared,
    device: Seq<char>,
    active_call: Option<CallId>,
    recorded: Seq<PbxCallId>,
) -> Option<CallId> {
    match active_call {
        None => None,
        Some(call_id) => if !shared.controller.registered_spec(device) {
            None
        } else {
            match lookup::first(shared.controller.appearances@, controller::is_call(call_id)) {
                Some(call) => if call.device_id@ == device && (recorded.contains(call.pbx_id)
                    || call.state == CallState::Connected || call.state == CallState::Barged) {
                    Some(call_id)
                } else {
                    None
                },
                None => None,
            }
        },
    }
}

pub open spec fn is_instance(instance: u32) -> spec_fn(u32) -> bool {
    |other: u32| other == instance
}

/// Decides what the recording button asks for. `active_call` is the active call
/// of the station, and `recorded` are the calls being recorded.
pub fn handle_recording_button(
    access: &Access,
    device_id: &DeviceId,
    instance: u32,
    active_call: Option<CallId>,
    recorded: &Vec<PbxCallId>,
) -> (action: RecordingButtonAction)
    ensures
        action == match lookup::first(
            access.shared.config.devices@,
            config::is_device(device_id@),
        ) {
            Some(found) => if !lookup::some(found.recording_buttons@, is_instance(instance)) {
                RecordingButtonAction::Ignore
            } else {
                match recordable_spec(access.shared, device_id@, active_call, recorded@) {
                    Some(call_id) => RecordingButtonAction::ToggleRecording(call_id),
                    None => RecordingButtonAction::ToggleArmed,
                }
            },
            None => RecordingButtonAction::Ignore,
        },
{
    let found = match access.shared.config.device(device_id) {
        Some(found) => found,
        None => return RecordingButtonAction::Ignore,
    };
    let configured = any(
        &found.recording_buttons,
        |other: &u32| -> (found: bool)
            ensures
                found == (*other == instance)
            { *other == instance },
        Ghost(is_instance(instance)),
    );
    if !configured {
        return RecordingButtonAction::Ignore;
    }
    match active_call {
        Some(call_id) => if access.shared.controller.is_registered(device_id) {
            match access.shared.controller.call(call_id) {
                Some(call) => {
                    let pbx_id = call.pbx_id;
                    let recorded_now = any(
                        recorded,
                        |other: &PbxCallId| -> (found: bool)
                            ensures
                                found == (*other == pbx_id)
                            { *other == pbx_id },
                        Ghost(|other: PbxCallId| other == pbx_id),
                    );
                    proof {
                        let p = |other: PbxCallId| other == pbx_id;
                        if recorded@.contains(pbx_id) {
                            let i = choose|i: int|
                                0 <= i < recorded@.len() && recorded@[i] == pbx_id;
                            assert(p(recorded@[i]));
                        }
                    }
                    if call.device_id.same(device_id) && (recorded_now || call.state
                        == CallState::Connected || call.state == CallState::Barged) {
                        return RecordingButtonAction::ToggleRecording(call_id);
                    }
                },
                None => {},
            }
        },
        None => {},
    }
    RecordingButtonAction::ToggleArmed
}

/// A station that may not use do-not-disturb cannot change it by any means of
/// its own.
pub proof fn law_disabled_dnd_stays(
    config: ModuleConfig,
    device: Seq<char>,
    request: RuntimeDndMutation,
    defaults: Option<DndMode>,
    available: bool,
)
    requires
        lookup::first(config.devices@, config::is_device(device)) matches Some(found)
            && !found.feature_defaults.dnd_enabled,
        !(request is Scheduled),
    ensures
        dnd_mutation_spec(config, device, request, defaults, available) is Err,
{
}

/// Switching a feature over twice gives back the state before.
pub proof fn law_toggles_undo_themselves(
    first: DeviceFeatureState,
    second: DeviceFeatureState,
    third: DeviceFeatureState,
    change: FeatureStateChange,
)
    requires
        !(change is SetDnd),
        changed(first, second, change),
        changed(second, third, change),
    ensures
        third.dnd == first.dnd,
        third.privacy == first.privacy,
        third.forwarding == first.forwarding,
        third.recording_armed == first.recording_armed,
        third.buttons@ == first.buttons@,
{
    match change {
        FeatureStateChange::ToggleButton(instance) => {
            let p = feature_button_at(instance);
            lookup::lemma_first_at(first.buttons@, p, 0);
            lookup::lemma_first_at(second.buttons@, p, 0);
            match lookup::first_at(first.buttons@, p, 0) {
                Some(i) => {
                    let k = lookup::first_at(second.buttons@, p, 0);
                    assert(p(second.buttons@[i]));
                    assert(k is Some);
                    if k->0 < i {
                        assert(!p(first.buttons@[k->0]));
                        assert(second.buttons@[k->0] == first.buttons@[k->0]);
                    }
                    if i < k->0 {
                        assert(!p(second.buttons@[i]));
                    }
                    assert(third.buttons@ =~= first.buttons@);
                },
                None => {
                    assert(third.buttons@ =~= first.buttons@);
                },
            }
        },
        _ => {},
    }
}

/// A station keeps the state that the controller has of it; the defaults count only
/// where there is none. Forwarding is taken away where it is set, and set as
/// configured where it is not.
pub proof fn law_features_start_from_what_is_current<'a>(
    access: &'a Access,
    device_id: DeviceId,
    defaults: Option<&'a DeviceFeatureState>,
    update: Option<FeatureUpdate<'a>>,
    shown: Option<&'a DeviceFeatureState>,
    current: Option<String>,
    configured: Option<String>,
    next: Option<String>,
    i: int,
)
    requires
        call_ensures(begin_feature_update, (access, &device_id, defaults), update),
        call_ensures(publish_current_device_features, (access, &device_id), shown),
        call_ensures(toggle_forwarding, (current, configured), next),
        0 <= i <= access.shared.controller.features@.len(),
        forall|j: int|
            0 <= j < i ==> (#[trigger] access.shared.controller.features@[j]).device_id@
                != device_id@,
        i < access.shared.controller.features@.len()
            ==> access.shared.controller.features@[i].device_id@ == device_id@,
    ensures
        update is Some <==> defaults is Some,
        update matches Some(update) ==> {
            &&& *update.defaults == *defaults->0
            &&& i < access.shared.controller.features@.len() ==> *update.current
                == access.shared.controller.features@[i].state
            &&& i == access.shared.controller.features@.len() ==> *update.current == *defaults->0
        },
        shown is Some <==> i < access.shared.controller.features@.len(),
        shown matches Some(shown) ==> *shown == access.shared.controller.features@[i].state,
        current is Some ==> next is None,
        current is None ==> next == configured,
{
    let p = controller::features_of(device_id@);
    if i == access.shared.controller.features@.len() {
        lookup::lemma_first_none(access.shared.controller.features@, p);
    } else {
        lookup::lemma_first_is(access.shared.controller.features@, p, i);
    }
}

/// Every selected line of the station is shown with the destinations of the
/// station, each under its own kind, and no other line is.
pub proof fn law_lines_show_the_forwarding_of_the_station(
    access: &Access,
    device_id: DeviceId,
    state: DeviceFeatureState,
    selected: Vec<u32>,
    parked: Vec<ParkedCall>,
    sent: Vec<PhoneCommand>,
    b: int,
    k: int,
)
    requires
        call_ensures(
            publish_device_features,
            (access, &device_id, &state, &selected, &parked),
            sent,
        ),
        0 <= b < access.shared.config.bindings@.len(),
        0 <= k < sent@.len(),
    ensures
        access.shared.config.bindings@[b].device_id@ == device_id@ && selected@.contains(
            access.shared.config.bindings@[b].line_instance,
        ) ==> sent@.contains(
            (PhoneCommand {
                device_id,
                action: PhoneCommandAction::SetForwardStatus {
                    line_instance: access.shared.config.bindings@[b].line_instance,
                    forward_all: state.forwarding.all,
                    forward_busy: state.forwarding.busy,
                    forward_no_answer: state.forwarding.no_answer,
                },
            }),
        ),
        sent@[k].device_id == device_id,
        sent@[k].action matches PhoneCommandAction::SetForwardStatus {
            line_instance,
            forward_all,
            forward_busy,
            forward_no_answer,
        } ==> selected@.contains(line_instance) && forward_all == state.forwarding.all
            && forward_busy == state.forwarding.busy && forward_no_answer
            == state.forwarding.no_answer,
        sent@[k].action matches PhoneCommandAction::SetStatusMessage { message, beep } ==> message
            == HandsetStatusMessage::DoNotDisturb(state.dnd) && !beep,
{
    let bindings = access.shared.config.bindings@;
    let f = forward_status(device_id, state, selected@);
    let forwards = bindings.filter_map(f);
    let wanted = PhoneCommand {
        device_id,
        action: PhoneCommandAction::SetForwardStatus {
            line_instance: bindings[b].line_instance,
            forward_all: state.forwarding.all,
            forward_busy: state.forwarding.busy,
            forward_no_answer: state.forwarding.no_answer,
        },
    };
    lookup::lemma_filter_map_member(bindings, f, wanted);
    if bindings[b].device_id@ == device_id@ && selected@.contains(bindings[b].line_instance) {
        assert(f(bindings[b]) == Some(wanted));
        let i = choose|i: int| 0 <= i < forwards.len() && forwards[i] == wanted;
        assert(sent@[i] == wanted);
    }
    if k < forwards.len() {
        lookup::lemma_filter_map_member(bindings, f, sent@[k]);
        assert(forwards[k] == sent@[k]);
    } else if let Some(device) = lookup::first(
        access.shared.config.devices@,
        config::is_device(device_id@),
    ) {
        let buttons = device.buttons@.filter_map(
            button_status(device, device_id, state, parked@),
        );
        let at = forwards.len() + 1 + device.dnd_buttons@.len();
        if k >= at {
            lookup::lemma_filter_map_member(
                device.buttons@,
                button_status(device, device_id, state, parked@),
                sent@[k],
            );
            assert(buttons[k - at] == sent@[k]);
        }
    }
}

/// Every button of the station shows its own feature: forwarding while there is a
/// destination of its kind, a lot while a call waits in it, do-not-disturb the
/// mode and how the button changes it, and any other feature whether it is on.
pub proof fn law_buttons_show_their_feature(
    access: &Access,
    device_id: DeviceId,
    state: DeviceFeatureState,
    selected: Vec<u32>,
    parked: Vec<ParkedCall>,
    sent: Vec<PhoneCommand>,
    d: int,
    b: int,
)
    requires
        call_ensures(
            publish_device_features,
            (access, &device_id, &state, &selected, &parked),
            sent,
        ),
        0 <= d < access.shared.config.devices@.len(),
        access.shared.config.devices@[d].id@ == device_id@,
        forall|j: int|
            0 <= j < d ==> (#[trigger] access.shared.config.devices@[j]).id@ != device_id@,
        0 <= b,
    ensures
        sent@.contains(
            (PhoneCommand {
                device_id,
                action: PhoneCommandAction::SetStatusMessage {
                    message: HandsetStatusMessage::DoNotDisturb(state.dnd),
                    beep: false,
                },
            }),
        ),
        b < access.shared.config.devices@[d].dnd_buttons@.len() ==> exists|k: int|
            0 <= k < sent@.len() && ((#[trigger] sent@[k]).action matches
                PhoneCommandAction::SetDoNotDisturbStatus { instance, mode, button_mode }
                && instance == access.shared.config.devices@[d].dnd_buttons@[b].instance && (mode
                == PhoneDndMode::Off <==> state.dnd == DndMode::Off) && (mode
                == PhoneDndMode::Silent <==> state.dnd == DndMode::Silent) && (button_mode
                == PhoneDndButtonMode::Cycle
                <==> access.shared.config.devices@[d].dnd_buttons@[b].mode == DndButtonMode::Cycle)
                && (button_mode == PhoneDndButtonMode::Silent
                <==> access.shared.config.devices@[d].dnd_buttons@[b].mode
                == DndButtonMode::Silent)),
        b < access.shared.config.devices@[d].buttons@.len() ==> (
        access.shared.config.devices@[d].buttons@[b] matches ButtonDefinition::Feature {
            instance,
            feature,
        } ==> feature != ButtonType::DoNotDisturb ==> exists|k: int|
            0 <= k < sent@.len() && ((#[trigger] sent@[k]).action matches
                PhoneCommandAction::SetFeatureStatus { instance: on, enabled } && on == instance
                && (feature == ButtonType::ForwardAll ==> enabled == state.forwarding.all is Some)
                && (feature == ButtonType::ForwardBusy ==> enabled
                == state.forwarding.busy is Some) && (feature == ButtonType::ForwardNoAnswer
                ==> enabled == state.forwarding.no_answer is Some))),
{
    let devices = access.shared.config.devices@;
    let device = devices[d];
    lookup::lemma_first_is(devices, config::is_device(device_id@), d);
    let forwards = access.shared.config.bindings@.filter_map(
        forward_status(device_id, state, selected@),
    );
    assert(sent@[forwards.len() as int].action == (PhoneCommandAction::SetStatusMessage {
        message: HandsetStatusMessage::DoNotDisturb(state.dnd),
        beep: false,
    }));
    if b < device.dnd_buttons@.len() {
        assert(sent@[forwards.len() + 1 + b] == dnd_status(device_id, state.dnd)(
            device.dnd_buttons@[b],
        ));
    }
    if b < device.buttons@.len() {
        if let ButtonDefinition::Feature { instance, feature } = device.buttons@[b] {
            if feature != ButtonType::DoNotDisturb {
                let f = button_status(device, device_id, state, parked@);
                let shown = f(device.buttons@[b])->0;
                lookup::lemma_filter_map_member(device.buttons@, f, shown);
                assert(f(device.buttons@[b]) == Some(shown));
                let buttons = device.buttons@.filter_map(f);
                let i = choose|i: int| 0 <= i < buttons.len() && buttons[i] == shown;
                assert(sent@[forwards.len() + 1 + device.dnd_buttons@.len() + i] == shown);
            }
        }
    }
}

/// A button of a lot is lit exactly if a call waits in the lot that the button of
/// this instance stands for, and a feature button as its own state says.
pub proof fn law_lot_and_feature_buttons_are_lit_by_their_instance(
    device: DeviceConfig,
    state: DeviceFeatureState,
    parked: Vec<ParkedCall>,
    instance: u32,
    lot_lit: bool,
    feature_lit: bool,
    b: int,
    f: int,
)
    requires
        call_ensures(
            button_lit,
            (&device, &state, &parked, instance, ButtonType::ParkingLot),
            lot_lit,
        ),
        call_ensures(
            button_lit,
            (&device, &state, &parked, instance, ButtonType::Feature),
            feature_lit,
        ),
        0 <= b <= device.parking_buttons@.len(),
        forall|j: int|
            0 <= j < b ==> (#[trigger] device.parking_buttons@[j]).instance != instance,
        b < device.parking_buttons@.len() ==> device.parking_buttons@[b].instance == instance,
        0 <= f <= state.buttons@.len(),
        forall|j: int| 0 <= j < f ==> (#[trigger] state.buttons@[j]).instance != instance,
        f < state.buttons@.len() ==> state.buttons@[f].instance == instance,
    ensures
        lot_lit <==> b < device.parking_buttons@.len() && exists|i: int|
            0 <= i < parked@.len() && (#[trigger] parked@[i]).lot@
                == device.parking_buttons@[b].lot@,
        feature_lit <==> f < state.buttons@.len() && state.buttons@[f].enabled,
{
    let p = parking_button_at(instance);
    if b == device.parking_buttons@.len() {
        lookup::lemma_first_none(device.parking_buttons@, p);
    } else {
        lookup::lemma_first_is(device.parking_buttons@, p, b);
        let q = parking::waits_in(device.parking_buttons@[b].lot@);
        if lookup::some(parked@, q) {
            let i = choose|i: int| 0 <= i < parked@.len() && q(#[trigger] parked@[i]);
            assert(parked@[i].lot@ == device.parking_buttons@[b].lot@);
        }
        if exists|i: int|
            0 <= i < parked@.len() && (#[trigger] parked@[i]).lot@
                == device.parking_buttons@[b].lot@ {
            let i = choose|i: int|
                0 <= i < parked@.len() && (#[trigger] parked@[i]).lot@
                    == device.parking_buttons@[b].lot@;
            assert(q(parked@[i]));
        }
    }
    let q = feature_button_at(instance);
    if f == state.buttons@.len() {
        lookup::lemma_first_none(state.buttons@, q);
    } else {
        lookup::lemma_first_is(state.buttons@, q, f);
    }
}

/// Stored features replace those of the station and leave every other station's
/// alone.
pub proof fn law_stored_features_replace_only_their_own(
    before: Shared,
    after: Shared,
    device: Seq<char>,
    other: Seq<char>,
    state: DeviceFeatureState,
    stored: FeatureStored,
    updated: Result<Option<(DeviceFeatureState, DeviceFeatureState)>, FeatureStoreError>,
)
    requires
        features_replaced(before, after, device, state),
        other != device,
        call_ensures(FeatureStored::of, (updated,), stored),
    ensures
        after.config == before.config && after.channels == before.channels,
        after.controller.appearances == before.controller.appearances,
        lookup::first(after.controller.features@, controller::features_of(device)) matches Some(
            found,
        ) && found.state.dnd == state.dnd && found.state.privacy == state.privacy
            && found.state.recording_armed == state.recording_armed,
        lookup::first(after.controller.features@, controller::features_of(other)) == lookup::first(
            before.controller.features@,
            controller::features_of(other),
        ),
        stored is Failed <==> updated is Err,
        stored is Stored <==> (updated matches Ok(change) && change is Some),
        stored matches FeatureStored::Failed(error) ==> (updated matches Err(cause) && cause
            == error),
{
}

/// A change sets or turns over its own feature, on its own button, and nothing
/// else; turning over twice changes nothing.
pub proof fn law_changes_turn_over_their_feature(
    before: DeviceFeatureState,
    after: DeviceFeatureState,
    again: DeviceFeatureState,
    change: FeatureStateChange,
    b: int,
    k: int,
)
    requires
        changed(before, after, change),
        changed(after, again, change),
        0 <= b <= before.buttons@.len(),
        change matches FeatureStateChange::ToggleButton(instance) ==> {
            &&& forall|j: int| 0 <= j < b ==> (#[trigger] before.buttons@[j]).instance != instance
            &&& b < before.buttons@.len() ==> before.buttons@[b].instance == instance
        },
        0 <= k < before.buttons@.len(),
    ensures
        after.forwarding == before.forwarding,
        after.dnd == (match change {
            FeatureStateChange::SetDnd(mode) => mode,
            _ => before.dnd,
        }),
        after.privacy != before.privacy <==> change is TogglePrivacy,
        after.recording_armed != before.recording_armed <==> change is ToggleRecordingArmed,
        after.buttons@.len() == before.buttons@.len(),
        after.buttons@[k].instance == before.buttons@[k].instance,
        after.buttons@[k].enabled != before.buttons@[k].enabled <==> change is ToggleButton && k
            == b,
        again.privacy == before.privacy && again.recording_armed == before.recording_armed,
        again.buttons@[k].enabled == before.buttons@[k].enabled,
{
    if let FeatureStateChange::ToggleButton(instance) = change {
        let p = feature_button_at(instance);
        if b == before.buttons@.len() {
            lookup::lemma_first_none(before.buttons@, p);
            lookup::lemma_first_none(after.buttons@, p);
        } else {
            lookup::lemma_first_is(before.buttons@, p, b);
            assert forall|j: int| 0 <= j < b implies !p(#[trigger] after.buttons@[j]) by {
                assert(after.buttons@[j] == before.buttons@[j]);
            }
            lookup::lemma_first_is(after.buttons@, p, b);
        }
    }
}

/// A do-not-disturb request sets the mode it names. The key turns over the default
/// of the station, a button what its own setting says. Only a schedule may change
/// the mode of a station where the feature is off.
pub proof fn law_dnd_requests_do_what_they_name(
    access: &Access,
    device_id: DeviceId,
    request: RuntimeDndMutation,
    defaults: Option<DndMode>,
    schedule_available: bool,
    available: bool,
    mutation: Result<DndMutation, RuntimeDndMutationError>,
    d: int,
    b: int,
)
    requires
        call_ensures(
            execute_dnd_mutation,
            (access, &device_id, request, defaults, schedule_available, available),
            mutation,
        ),
        0 <= d < access.shared.config.devices@.len(),
        access.shared.config.devices@[d].id@ == device_id@,
        forall|j: int|
            0 <= j < d ==> (#[trigger] access.shared.config.devices@[j]).id@ != device_id@,
        0 <= b <= access.shared.config.devices@[d].dnd_buttons@.len(),
        request matches RuntimeDndMutation::Button(instance) ==> {
            &&& forall|j: int|
                0 <= j < b ==> (#[trigger] access.shared.config.devices@[d].dnd_buttons@[j]).instance
                    != instance
            &&& b < access.shared.config.devices@[d].dnd_buttons@.len()
                ==> access.shared.config.devices@[d].dnd_buttons@[b].instance == instance
        },
    ensures
        ({
            let device = access.shared.config.devices@[d];
            let permitted = device.feature_defaults.dnd_enabled || request is Scheduled;
            let usable = schedule_available && available;
            &&& mutation is Ok <==> usable && permitted && defaults is Some && (request is Button
                ==> b < device.dnd_buttons@.len())
            &&& mutation matches Ok(DndMutation::Mode(mode)) ==> request
                == RuntimeDndMutation::Mode(mode) || request == RuntimeDndMutation::Scheduled(mode)
            &&& mutation matches Ok(DndMutation::ToggleDefault(mode)) ==> request is SoftKey
                && defaults == Some(mode)
            &&& mutation matches Ok(DndMutation::Toggle(mode)) ==> request is Button && mode
                == device.dnd_buttons@[b].mode
            &&& mutation == Err::<DndMutation, RuntimeDndMutationError>(
                RuntimeDndMutationError::Unavailable,
            ) <==> !usable
            &&& mutation == Err::<DndMutation, RuntimeDndMutationError>(
                RuntimeDndMutationError::FeatureDisabled,
            ) <==> usable && !permitted
            &&& mutation == Err::<DndMutation, RuntimeDndMutationError>(
                RuntimeDndMutationError::ButtonNotFound,
            ) <==> usable && permitted && defaults is Some && request is Button && b
                == device.dnd_buttons@.len()
        }),
{
    let devices = access.shared.config.devices@;
    lookup::lemma_first_is(devices, config::is_device(device_id@), d);
    if let RuntimeDndMutation::Button(instance) = request {
        let p = dnd_button_at(instance);
        if b == devices[d].dnd_buttons@.len() {
            lookup::lemma_first_none(devices[d].dnd_buttons@, p);
        } else {
            lookup::lemma_first_is(devices[d].dnd_buttons@, p, b);
        }
    }
}

/// A stored change is published, one that could not be stored is undone on the
/// station by what is current, and without the station there is nothing to do.
pub proof fn law_stored_changes_are_published(
    stored: FeatureStored,
    dnd: (Vec<FeatureTask>, Result<(), RuntimeDndMutationError>),
    tasks: Vec<FeatureTask>,
    recording: Vec<FeatureTask>,
)
    requires
        call_ensures(finish_dnd_mutation, (stored,), dnd),
        call_ensures(finish_feature_change, (&stored,), tasks),
        call_ensures(finish_recording_change, (&stored,), recording),
    ensures
        dnd.1 is Ok <==> stored is Stored,
        stored is NoDevice <==> dnd.1 == Err::<(), RuntimeDndMutationError>(
            RuntimeDndMutationError::DeviceNotFound,
        ),
        stored matches FeatureStored::Failed(error) ==> dnd.1 == Err::<(), RuntimeDndMutationError>(
            RuntimeDndMutationError::Store(error),
        ),
        stored is NoDevice <==> dnd.0@.len() == 0,
        stored is NoDevice <==> tasks@.len() == 0,
        stored is NoDevice <==> recording@.len() == 0,
        stored is Failed ==> dnd.0@.len() == 1 && dnd.0@[0] is PublishCurrent && tasks@.len() == 1
            && tasks@[0] is PublishCurrent,
        stored is Stored ==> dnd.0@.len() == 3 && dnd.0@[0] is PublishFeatures
            && dnd.0@[1] is PublishLines && dnd.0@[2] is PublishChanges,
        stored is Stored ==> tasks@.len() == 2 && tasks@[0] is PublishFeatures
            && tasks@[1] is PublishChanges,
        !(stored is NoDevice) ==> recording@.len() == 1 && recording@[0] is PublishRecordingButton,
{
}

/// Every feature key reaches its own feature; the privacy key is for the call it is
/// pressed on, and without one for the station, where that may change it.
pub proof fn law_feature_keys_reach_their_feature(
    access: &Access,
    device_id: DeviceId,
    key_call_id: Option<CallId>,
    soft_key: SoftKey,
    instance: u32,
    action: FeatureKeyAction,
    change: Option<FeatureStateChange>,
    d: int,
)
    requires
        call_ensures(
            handle_feature_soft_key,
            (access, &device_id, key_call_id, soft_key),
            action,
        ),
        call_ensures(handle_feature_button, (access, &device_id, instance), change),
        0 <= d < access.shared.config.devices@.len(),
        access.shared.config.devices@[d].id@ == device_id@,
        forall|j: int|
            0 <= j < d ==> (#[trigger] access.shared.config.devices@[j]).id@ != device_id@,
    ensures
        action is Forwarding <==> soft_key is ForwardAll || soft_key is ForwardBusy
            || soft_key is ForwardNoAnswer,
        action is DoNotDisturb <==> soft_key is DoNotDisturb,
        action is CallPrivacy <==> soft_key is Private && key_call_id is Some,
        action matches FeatureKeyAction::CallPrivacy(call_id) ==> key_call_id == Some(call_id),
        action is TogglePrivacy <==> soft_key is Private && key_call_id is None
            && access.shared.config.devices@[d].feature_defaults.privacy_enabled,
        change is Some <==> exists|b: int|
            0 <= b < access.shared.config.devices@[d].buttons@.len() && (
            #[trigger] access.shared.config.devices@[d].buttons@[b]) == (
            ButtonDefinition::Feature { instance, feature: ButtonType::Feature }),
        change matches Some(change) ==> change == FeatureStateChange::ToggleButton(instance),
{
    let devices = access.shared.config.devices@;
    lookup::lemma_first_is(devices, config::is_device(device_id@), d);
    let buttons = devices[d].buttons@;
    let p = is_feature_button(instance);
    if lookup::some(buttons, p) {
        let b = choose|b: int| 0 <= b < buttons.len() && p(#[trigger] buttons[b]);
        assert(devices[d].buttons@[b] == (ButtonDefinition::Feature {
            instance,
            feature: ButtonType::Feature,
        }));
    }
    if exists|b: int|
        0 <= b < buttons.len() && #[trigger] buttons[b] == (ButtonDefinition::Feature {
            instance,
            feature: ButtonType::Feature,
        }) {
        let b = choose|b: int|
            0 <= b < buttons.len() && #[trigger] buttons[b] == (ButtonDefinition::Feature {
                instance,
                feature: ButtonType::Feature,
            });
        assert(p(buttons[b]));
    }
}

/// The privacy of a call is turned over where the controller accepts it and the
/// call is on a line with an open channel; else it is restored. The prompt says
/// which of these it was.
pub proof fn law_call_privacy_is_turned_over_or_restored(
    access: &Access,
    device_id: DeviceId,
    call_id: CallId,
    previous: bool,
    accepted: bool,
    outcome: PrivacyOutcome,
    i: int,
)
    requires
        call_ensures(
            finish_call_privacy,
            (access, device_id, call_id, previous, accepted),
            outcome,
        ),
        0 <= i < access.shared.controller.appearances@.len(),
        access.shared.controller.appearances@[i].sccp_id == call_id,
        forall|j: int|
            0 <= j < i ==> (#[trigger] access.shared.controller.appearances@[j]).sccp_id
                != call_id,
    ensures
        ({
            let call = access.shared.controller.appearances@[i];
            &&& outcome.publish is Some <==> accepted && access.shared.binding_spec(
                call.device_id@,
                call.line_instance,
            ) is Some && access.shared.live_channel_spec(call.pbx_id) is Some
            &&& outcome.restore is Some <==> outcome.publish is None
            &&& outcome.restore matches Some(private) ==> private == previous
            &&& outcome.publish matches Some(private) ==> private == !previous
            &&& outcome.prompt.device_id == device_id
            &&& outcome.prompt.action matches PhoneCommandAction::DisplayPrompt {
                call_id: on,
                timeout_seconds,
                prompt,
            } && on == call_id && timeout_seconds == 3 && (prompt == Prompt::UnableToChangePrivacy
                <==> outcome.publish is None) && (prompt == Prompt::PrivacyEnabled
                <==> outcome.publish == Some(true)) && (prompt == Prompt::PrivacyDisabled
                <==> outcome.publish == Some(false))
        }),
{
    lookup::lemma_first_is(
        access.shared.controller.appearances@,
        controller::is_call(call_id),
        i,
    );
}

/// A recording button starts and stops the recording of the active call, where it
/// is a call of the station that is recorded already or can be; else it arms the
/// station. Other buttons do nothing here.
pub proof fn law_recording_buttons_record_or_arm(
    access: &Access,
    device_id: DeviceId,
    instance: u32,
    call_id: CallId,
    active_call: Option<CallId>,
    recorded: Vec<PbxCallId>,
    action: RecordingButtonAction,
    d: int,
    i: int,
)
    requires
        call_ensures(
            handle_recording_button,
            (access, &device_id, instance, active_call, &recorded),
            action,
        ),
        0 <= d < access.shared.config.devices@.len(),
        access.shared.config.devices@[d].id@ == device_id@,
        forall|j: int|
            0 <= j < d ==> (#[trigger] access.shared.config.devices@[j]).id@ != device_id@,
        0 <= i < access.shared.controller.appearances@.len(),
        active_call is Some ==> active_call == Some(call_id)
            && access.shared.controller.appearances@[i].sccp_id == call_id,
        forall|j: int|
            0 <= j < i ==> (#[trigger] access.shared.controller.appearances@[j]).sccp_id
                != call_id,
    ensures
        ({
            let call = access.shared.controller.appearances@[i];
            &&& action is Ignore <==> !access.shared.config.devices@[d].recording_buttons@.contains(
                instance,
            )
            &&& action is ToggleRecording <==> !(action is Ignore) && active_call is Some
                && access.shared.controller.registered_spec(device_id@) && call.device_id@
                == device_id@ && (recorded@.contains(call.pbx_id) || call.state
                == CallState::Connected || call.state == CallState::Barged)
            &&& action matches RecordingButtonAction::ToggleRecording(recorded_call)
                ==> active_call == Some(recorded_call)
        }),
{
    let devices = access.shared.config.devices@;
    lookup::lemma_first_is(devices, config::is_device(device_id@), d);
    if active_call is Some {
        lookup::lemma_first_is(
            access.shared.controller.appearances@,
            controller::is_call(call_id),
            i,
        );
    }
    let buttons = devices[d].recording_buttons@;
    let p = is_instance(instance);
    if lookup::some(buttons, p) {
        let b = choose|b: int| 0 <= b < buttons.len() && p(#[trigger] buttons[b]);
        assert(buttons[b] == instance);
    }
    if buttons.contains(instance) {
        let b = choose|b: int| 0 <= b < buttons.len() && buttons[b] == instance;
        assert(p(buttons[b]));
    }
}

/// What is stored becomes what the station has, and what it had is handed back with
/// it; a station without features, or a failure to store, changes nothing. No other
/// station is touched.
pub proof fn law_stored_features_are_the_new_ones(
    access: &mut Access,
    device_id: DeviceId,
    defaults: Option<DeviceFeatureState>,
    stored: Result<DeviceFeatureState, FeatureStoreError>,
    updated: Result<Option<(DeviceFeatureState, DeviceFeatureState)>, FeatureStoreError>,
    i: int,
    k: int,
)
    requires
        call_ensures(
            update_device_features_locked,
            (access, &device_id, defaults, stored),
            updated,
        ),
        0 <= i <= old(access).shared.controller.features@.len(),
        forall|j: int|
            0 <= j < i ==> (#[trigger] old(access).shared.controller.features@[j]).device_id@
                != device_id@,
        i < old(access).shared.controller.features@.len() ==> old(
            access,
        ).shared.controller.features@[i].device_id@ == device_id@,
        0 <= k < final(access).shared.controller.features@.len(),
        forall|j: int|
            0 <= j < k ==> (#[trigger] final(access).shared.controller.features@[j]).device_id@
                != device_id@,
        final(access).shared.controller.features@[k].device_id@ == device_id@,
    ensures
        updated is Err <==> defaults is Some && stored is Err,
        updated matches Ok(pair) ==> (pair is Some <==> defaults is Some),
        !(updated matches Ok(Some(_))) ==> *final(access) == *old(access),
        updated matches Ok(Some(pair)) ==> {
            &&& stored == Ok::<DeviceFeatureState, FeatureStoreError>(pair.1)
            &&& i < old(access).shared.controller.features@.len() ==> pair.0 == old(
                access,
            ).shared.controller.features@[i].state
            &&& i == old(access).shared.controller.features@.len() ==> defaults == Some(pair.0)
            &&& final(access).shared.controller.features@[k].state.dnd == pair.1.dnd
            &&& final(access).shared.controller.features@[k].state.privacy == pair.1.privacy
            &&& final(access).shared.config == old(access).shared.config
            &&& final(access).shared.controller.calls == old(access).shared.controller.calls
        },
{
    let p = controller::features_of(device_id@);
    let before = old(access).shared.controller.features@;
    let after = final(access).shared.controller.features@;
    if i == before.len() {
        lookup::lemma_first_none(before, p);
    } else {
        lookup::lemma_first_is(before, p, i);
    }
    lookup::lemma_first_is(after, p, k);
}

/// A handset shows the mode that is set, by its own names; every change is told for
/// the station it was made on, in order.
pub proof fn law_modes_are_shown_as_they_are<C>(
    mode: DndMode,
    shown: PhoneDndMode,
    button: DndButtonMode,
    label: PhoneDndButtonMode,
    device_id: DeviceId,
    changes: Vec<C>,
    events: Vec<FeatureEvent<C>>,
    i: int,
)
    requires
        call_ensures(phone_dnd_mode, (mode,), shown),
        call_ensures(phone_dnd_button_mode, (button,), label),
        call_ensures(publish_feature_changes::<C>, (&device_id, changes), events),
        0 <= i < changes@.len(),
    ensures
        shown is Off <==> mode is Off,
        shown is Silent <==> mode is Silent,
        shown is Reject <==> mode is Reject,
        label is Cycle <==> button is Cycle,
        label is Silent <==> button is Silent,
        label is Reject <==> button is Reject,
        events@.len() == changes@.len(),
        events@[i].device_id == device_id,
        events@[i].change == changes@[i],
{
}

/// Changing a mode while the schedule is held asks no more of it than that the store
/// be there.
pub proof fn law_changes_need_the_schedule_and_the_store(
    access: &Access,
    device_id: DeviceId,
    request: RuntimeDndMutation,
    defaults: Option<DndMode>,
    schedule_available: bool,
    available: bool,
    serialized: Result<DndMutation, RuntimeDndMutationError>,
    executed: Result<DndMutation, RuntimeDndMutationError>,
)
    requires
        call_ensures(
            execute_dnd_mutation_serialized,
            (access, &device_id, request, defaults, available),
            serialized,
        ),
        call_ensures(
            execute_dnd_mutation,
            (access, &device_id, request, defaults, schedule_available, available),
            executed,
        ),
    ensures
        schedule_available ==> executed == serialized,
        !available ==> serialized == Err::<DndMutation, RuntimeDndMutationError>(
            RuntimeDndMutationError::Unavailable,
        ),
        !schedule_available || !available ==> executed == Err::<
            DndMutation,
            RuntimeDndMutationError,
        >(RuntimeDndMutationError::Unavailable),
{
}

/// A failure to store is logged, as an error exactly where it left things undone;
/// nothing else is.
pub proof fn law_failures_to_store_are_logged(
    device_id: DeviceId,
    result: Result<(), RuntimeDndMutationError>,
    entry: Option<(LogLevel, String)>,
    outcome: Result<(), String>,
    published: Option<(LogLevel, String)>,
)
    requires
        call_ensures(handle_dnd_button, (&device_id, &result), entry),
        call_ensures(publish_ami_event, (outcome,), published),
    ensures
        entry is Some <==> (result matches Err(error) && error is Store),
        entry matches Some(logged) ==> (logged.0 == LogLevel::Error <==> (
        result matches Err(RuntimeDndMutationError::Store(error)) && error is Rollback)),
        published is Some <==> outcome is Err,
        published matches Some(logged) ==> logged.0 == LogLevel::Warning,
{
}

} // verus!
