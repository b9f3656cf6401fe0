//! What the keys, hooks and buttons of a station ask for.

use vstd::prelude::*;

use crate::access::{self, with_channel, Access, Shared};
use crate::commands::{self, close_call, show_prompt, PhoneCommand, PhoneCommandAction};
use crate::config;
use crate::controller;
use crate::events::{
    self, phone_event_family, ConferenceListAction, PhoneDeviceEvent, PhoneDeviceEventKind,
    PhoneEventFamily, PhoneServiceEvent, SoftKey,
};
use crate::ids::{CallId, DeviceId, PbxCallId};
use crate::lookup;
use crate::model::{CallState, Codec, LineBinding};
use crate::prompts::Prompt;

verus! {

/// What a hook flash means in the state of the station's calls.
#[derive(Clone, Copy, Debug, PartialEq, Eq, Structural)]
pub enum HookFlashAction {
    AnswerWaiting(CallId),
    Transfer,
    Ignore,
}

#[derive(Clone, Copy, Debug, PartialEq, Eq, Structural)]
pub enum BargeMode {
    Directed,
    Conference,
}

/// Who collects a forwarding destination on a call.
#[derive(Clone, Copy, Debug, PartialEq, Eq, Structural)]
pub enum ForwardingCollector {
    Nobody,
    ThisStation,
    AnotherStation,
}

/// Who has the call on which a callback is asked for.
#[derive(Debug, PartialEq, Eq)]
pub struct CallbackOwner<'a> {
    pub device_id: &'a DeviceId,
    pub call_id: CallId,
    pub channel: PbxCallId,
}

/// What an event asks for.
#[derive(Debug, PartialEq, Eq)]
pub enum CallControlAction<'a> {
    /// Make the call active, then answer it.
    AnswerCall { device_id: DeviceId, call_id: CallId },
    /// Make the call active.
    SwitchCall { device_id: DeviceId, call_id: CallId },
    BeginHotlineCall {
        call_id: CallId,
        binding: &'a LineBinding,
        codec: Codec,
        destination: &'a String,
    },
    BeginCall { call_id: CallId, binding: &'a LineBinding, codec: Codec },
    /// Show why no call can begin, then close it.
    RefuseCall { prompt: PhoneCommand, close: PhoneCommand },
    HangUp { device_id: DeviceId, call_id: CallId, physical: bool },
    DialDigit { call_id: CallId, digit: char },
    Dial { call_id: CallId, number: String },
    /// Dial what was collected.
    DialCollected { call_id: CallId },
    SpeedDial { call_id: CallId, number: String, await_further_digits: bool },
    ForwardingDigit { device_id: DeviceId, call_id: CallId, digit: char },
    ForwardingBackspace { device_id: DeviceId, call_id: CallId },
    ReplaceForwarding { device_id: DeviceId, call_id: CallId, number: String, commit: bool },
    CommitForwarding { device_id: DeviceId, call_id: CallId },
    FeatureButton { device_id: DeviceId, instance: u32 },
    DndButton { device_id: DeviceId, instance: u32 },
    RecordingButton { device_id: DeviceId, instance: u32 },
    MobilityButton { device_id: DeviceId, instance: u32 },
    MobilityResponse { device_id: DeviceId, response: PhoneServiceEvent },
    ConferenceList { device_id: DeviceId, action: ConferenceListAction },
    ParkingLotButton {
        device_id: DeviceId,
        instance: u32,
        key_call_id: Option<CallId>,
        line_instance: u32,
    },
    RetrieveParked { device_id: DeviceId, lot: String, slot: u32 },
    VoicemailKey { device_id: DeviceId, key_call_id: Option<CallId>, soft_key: SoftKey },
    FeatureKey {
        device_id: DeviceId,
        key_call_id: Option<CallId>,
        line_instance: u32,
        soft_key: SoftKey,
    },
    Park { device_id: DeviceId, call_id: CallId, line_instance: u32 },
    Pickup { device_id: DeviceId, call_id: CallId, line_instance: u32, directed: bool },
    Conference { device_id: DeviceId, call_id: CallId, line_instance: u32 },
    ConferenceDestination { device_id: DeviceId, call_id: CallId, line_instance: u32 },
    ShowConferenceList { device_id: DeviceId, call_id: CallId },
    Barge { device_id: DeviceId, call_id: CallId, line_instance: u32, mode: BargeMode },
    Join { device_id: DeviceId, call_id: CallId, line_instance: u32 },
    ToggleSelected { device_id: DeviceId, call_id: CallId },
    Hold { call_id: CallId },
    Resume { call_id: CallId },
    Transfer { device_id: DeviceId, key_call_id: Option<CallId>, line_instance: u32 },
    DirectTransfer { device_id: DeviceId },
    /// Ask the switch to call back; without an owner it cannot be asked.
    RequestCallback { device_id: DeviceId, call_id: CallId, owner: Option<CallbackOwner<'a>> },
    ToggleRecording { device_id: DeviceId, call_id: CallId },
    ToggleVideo { device_id: DeviceId, call_id: CallId },
    /// Take over the call that another station holds.
    Steal { call_id: CallId },
    Send(PhoneCommand),
    Ignore,
}

/// Who collects a destination on `call_id`, seen from `device`.
pub open spec fn collector_spec(
    shared: Shared,
    device: Seq<char>,
    call_id: CallId,
) -> ForwardingCollector {
    match lookup::first(
        shared.controller.forwarding_entries@,
        controller::collects_on(call_id),
    ) {
        None => ForwardingCollector::Nobody,
        Some(entry) => if entry.device_id@ == device {
            ForwardingCollector::ThisStation
        } else {
            ForwardingCollector::AnotherStation
        },
    }
}

pub fn forwarding_collector(access: &Access, device_id: &DeviceId, call_id: CallId) -> (collector:
    ForwardingCollector)
    ensures
        collector == collector_spec(access.shared, device_id@, call_id),
{
    match access.shared.controller.forwarding_entry(call_id) {
        None => ForwardingCollector::Nobody,
        Some(entry) => if entry.device_id.same(device_id) {
            ForwardingCollector::ThisStation
        } else {
            ForwardingCollector::AnotherStation
        },
    }
}

/// Keys that the driver acts on although no call is selected.
pub open spec fn works_without_call(soft_key: SoftKey) -> bool {
    match soft_key {
        SoftKey::ImmediateDivert
        | SoftKey::TransferToVoicemail
        | SoftKey::DoNotDisturb
        | SoftKey::Private
        | SoftKey::ForwardAll
        | SoftKey::ForwardBusy
        | SoftKey::ForwardNoAnswer
        | SoftKey::Transfer => true,
        _ => false,
    }
}

/// The event is one that the driver acts on: stations report a line button, and
/// every key that needs one, together with its call.
pub open spec fn accepted(event: PhoneDeviceEventKind) -> bool {
    match event {
        PhoneDeviceEventKind::SoftKey { key_call_id, soft_key, .. } => key_call_id is Some
            || works_without_call(soft_key),
        PhoneDeviceEventKind::LineButton { key_call_id, .. } => key_call_id is Some,
        _ => events::is_call_control_event(event),
    }
}

/// Whether the driver acts on an event, see [`handle_call_control_event`].
pub fn accepts(event: &PhoneDeviceEventKind) -> (accepts: bool)
    ensures
        accepts == accepted(*event),
{
    match event {
        PhoneDeviceEventKind::SoftKey { key_call_id, soft_key, .. } => key_call_id.is_some()
            || key_works_without_call(*soft_key),
        PhoneDeviceEventKind::LineButton { key_call_id, .. } => key_call_id.is_some(),
        _ => match phone_event_family(event) {
            PhoneEventFamily::CallControl => true,
            _ => false,
        },
    }
}

/// What going off hook on a line asks for.
pub open spec fn off_hook_spec<'a>(
    shared: Shared,
    codec: Option<Codec>,
    device_id: DeviceId,
    call_id: CallId,
    line_instance: u32,
) -> CallControlAction<'a> {
    if shared.controller.call_state_spec(call_id) == Some(CallState::Ringing) {
        CallControlAction::AnswerCall { device_id, call_id }
    } else {
        match (shared.binding_spec(device_id@, line_instance), codec) {
            (Some(binding), Some(codec)) => match binding.hotline {
                Some(destination) => CallControlAction::BeginHotlineCall {
                    call_id,
                    binding: &binding,
                    codec,
                    destination: &destination,
                },
                None => CallControlAction::BeginCall { call_id, binding: &binding, codec },
            },
            _ => CallControlAction::RefuseCall {
                prompt: commands::prompt_command(
                    device_id,
                    call_id,
                    4,
                    Prompt::NoCompatibleAudioCodec,
                ),
                close: commands::close_command(device_id, call_id),
            },
        }
    }
}

/// What the voicemail button of a line asks for.
pub open spec fn voicemail_button_spec<'a>(
    shared: Shared,
    device_id: DeviceId,
    call_id: CallId,
    line_instance: u32,
) -> CallControlAction<'a> {
    let number = match shared.binding_spec(device_id@, line_instance) {
        Some(binding) => match lookup::first(
            shared.config.line_features@,
            config::features_of_line(binding.line.number@),
        ) {
            Some(features) => features.voicemail_number,
            None => None,
        },
        None => None,
    };
    match number {
        Some(number) => CallControlAction::Dial { call_id, number },
        None => CallControlAction::Send(
            commands::prompt_command(
                device_id,
                call_id,
                4,
                Prompt::VoicemailIsNotConfiguredForThisLine,
            ),
        ),
    }
}

/// What a key asks for when no call is selected.
pub open spec fn free_key_spec<'a>(
    device_id: DeviceId,
    key_call_id: Option<CallId>,
    line_instance: u32,
    soft_key: SoftKey,
) -> CallControlAction<'a> {
    match soft_key {
        SoftKey::ImmediateDivert | SoftKey::TransferToVoicemail => CallControlAction::VoicemailKey {
            device_id,
            key_call_id,
            soft_key,
        },
        SoftKey::Transfer => CallControlAction::Transfer { device_id, key_call_id, line_instance },
        _ => CallControlAction::FeatureKey { device_id, key_call_id, line_instance, soft_key },
    }
}

/// What a key asks for on a call.
pub open spec fn call_key_spec<'a>(
    shared: Shared,
    device_id: DeviceId,
    call_id: CallId,
    line_instance: u32,
    soft_key: SoftKey,
) -> CallControlAction<'a> {
    let collects = collector_spec(shared, device_id@, call_id) == ForwardingCollector::ThisStation;
    match soft_key {
        SoftKey::Answer => CallControlAction::AnswerCall { device_id, call_id },
        SoftKey::Park => CallControlAction::Park { device_id, call_id, line_instance },
        SoftKey::Pickup => CallControlAction::Pickup {
            device_id,
            call_id,
            line_instance,
            directed: true,
        },
        SoftKey::GroupPickup => CallControlAction::Pickup {
            device_id,
            call_id,
            line_instance,
            directed: false,
        },
        SoftKey::Conference => CallControlAction::Conference { device_id, call_id, line_instance },
        SoftKey::MeetMe => CallControlAction::ConferenceDestination {
            device_id,
            call_id,
            line_instance,
        },
        SoftKey::ConferenceList => CallControlAction::ShowConferenceList { device_id, call_id },
        SoftKey::Barge => CallControlAction::Barge {
            device_id,
            call_id,
            line_instance,
            mode: BargeMode::Directed,
        },
        SoftKey::Join => CallControlAction::Join { device_id, call_id, line_instance },
        SoftKey::Select => CallControlAction::ToggleSelected { device_id, call_id },
        SoftKey::Backspace => if collects {
            CallControlAction::ForwardingBackspace { device_id, call_id }
        } else {
            CallControlAction::Ignore
        },
        SoftKey::Dial => if collects {
            CallControlAction::CommitForwarding { device_id, call_id }
        } else {
            CallControlAction::DialCollected { call_id }
        },
        SoftKey::EndCall => CallControlAction::HangUp { device_id, call_id, physical: false },
        SoftKey::Hold => CallControlAction::Hold { call_id },
        SoftKey::Resume => CallControlAction::Resume { call_id },
        SoftKey::DirectTransfer => CallControlAction::DirectTransfer { device_id },
        SoftKey::Callback => CallControlAction::RequestCallback {
            device_id,
            call_id,
            owner: match lookup::first(
                shared.controller.appearances@,
                controller::is_call(call_id),
            ) {
                Some(call) => match shared.live_channel_spec(call.pbx_id) {
                    Some(channel) => Some(
                        CallbackOwner {
                            device_id: &call.device_id,
                            call_id: call.sccp_id,
                            channel: channel.pbx_id,
                        },
                    ),
                    None => None,
                },
                None => None,
            },
        },
        SoftKey::Monitor => CallControlAction::ToggleRecording { device_id, call_id },
        SoftKey::VideoMode => CallControlAction::ToggleVideo { device_id, call_id },
        SoftKey::Intercept => CallControlAction::Steal { call_id },
        _ => CallControlAction::Ignore,
    }
}

/// What the button of a line asks for on its call.
pub open spec fn line_button_spec<'a>(
    state: Option<CallState>,
    device_id: DeviceId,
    call_id: CallId,
) -> CallControlAction<'a> {
    match state {
        Some(CallState::Held) | Some(CallState::SharedHeld) | Some(
            CallState::Connected,
        ) => CallControlAction::SwitchCall { device_id, call_id },
        Some(CallState::Ringing) => CallControlAction::AnswerCall { device_id, call_id },
        Some(CallState::RemoteInUse) => CallControlAction::Steal { call_id },
        _ => CallControlAction::Ignore,
    }
}

/// What an event asks for.
pub open spec fn call_control_spec<'a>(
    shared: Shared,
    codec: Option<Codec>,
    hook_flash: HookFlashAction,
    event: PhoneDeviceEvent,
) -> CallControlAction<'a> {
    let device_id = event.device_id;
    match event.event {
        PhoneDeviceEventKind::OffHook { call_id, line_instance } => off_hook_spec(
            shared,
            codec,
            device_id,
            call_id,
            line_instance,
        ),
        PhoneDeviceEventKind::OnHook { call_id, .. } => CallControlAction::HangUp {
            device_id,
            call_id,
            physical: true,
        },
        PhoneDeviceEventKind::Digit { call_id, digit } => match collector_spec(
            shared,
            device_id@,
            call_id,
        ) {
            ForwardingCollector::Nobody => CallControlAction::DialDigit { call_id, digit },
            ForwardingCollector::ThisStation => CallControlAction::ForwardingDigit {
                device_id,
                call_id,
                digit,
            },
            ForwardingCollector::AnotherStation => CallControlAction::Ignore,
        },
        PhoneDeviceEventKind::EnblocCall { call_id, number, .. } => match collector_spec(
            shared,
            device_id@,
            call_id,
        ) {
            ForwardingCollector::Nobody => CallControlAction::Dial { call_id, number },
            ForwardingCollector::ThisStation => CallControlAction::ReplaceForwarding {
                device_id,
                call_id,
                number,
                commit: true,
            },
            ForwardingCollector::AnotherStation => CallControlAction::Ignore,
        },
        PhoneDeviceEventKind::SpeedDial { call_id, number, await_further_digits } => match collector_spec(
            shared,
            device_id@,
            call_id,
        ) {
            ForwardingCollector::Nobody => CallControlAction::SpeedDial {
                call_id,
                number,
                await_further_digits,
            },
            ForwardingCollector::ThisStation => CallControlAction::ReplaceForwarding {
                device_id,
                call_id,
                number,
                commit: !await_further_digits,
            },
            ForwardingCollector::AnotherStation => CallControlAction::Ignore,
        },
        PhoneDeviceEventKind::FeatureButton { instance } => CallControlAction::FeatureButton {
            device_id,
            instance,
        },
        PhoneDeviceEventKind::DoNotDisturbButton { instance } => CallControlAction::DndButton {
            device_id,
            instance,
        },
        PhoneDeviceEventKind::RecordingButton { instance } => CallControlAction::RecordingButton {
            device_id,
            instance,
        },
        PhoneDeviceEventKind::MobilityButton { instance } => CallControlAction::MobilityButton {
            device_id,
            instance,
        },
        PhoneDeviceEventKind::VoicemailButton { call_id, line_instance } => voicemail_button_spec(
            shared,
            device_id,
            call_id,
            line_instance,
        ),
        PhoneDeviceEventKind::ParkingLotButton {
            instance,
            key_call_id,
            line_instance,
        } => CallControlAction::ParkingLotButton { device_id, instance, key_call_id, line_instance },
        PhoneDeviceEventKind::ParkingMenuSelection { lot, slot } => CallControlAction::RetrieveParked {
            device_id,
            lot,
            slot,
        },
        PhoneDeviceEventKind::PhoneServiceResponse { response } => CallControlAction::MobilityResponse {
            device_id,
            response,
        },
        PhoneDeviceEventKind::ConferenceListAction { action } => CallControlAction::ConferenceList {
            device_id,
            action,
        },
        PhoneDeviceEventKind::SoftKey { key_call_id, line_instance, soft_key } => if works_without_call(
            soft_key,
        ) {
            free_key_spec(device_id, key_call_id, line_instance, soft_key)
        } else {
            match key_call_id {
                Some(call_id) => call_key_spec(shared, device_id, call_id, line_instance, soft_key),
                None => CallControlAction::Ignore,
            }
        },
        PhoneDeviceEventKind::LineButton { key_call_id, .. } => match key_call_id {
            Some(call_id) => line_button_spec(
                shared.controller.call_state_spec(call_id),
                device_id,
                call_id,
            ),
            None => CallControlAction::Ignore,
        },
        PhoneDeviceEventKind::HookFlash { key_call_id, line_instance } => match key_call_id {
            Some(call_id) => match hook_flash {
                HookFlashAction::AnswerWaiting(waiting) => CallControlAction::AnswerCall {
                    device_id,
                    call_id: waiting,
                },
                HookFlashAction::Transfer => CallControlAction::Transfer {
                    device_id,
                    key_call_id,
                    line_instance,
                },
                HookFlashAction::Ignore => CallControlAction::Ignore,
            },
            None => CallControlAction::Ignore,
        },
        _ => CallControlAction::Ignore,
    }
}

fn key_works_without_call(soft_key: SoftKey) -> (works: bool)
    ensures
        works == works_without_call(soft_key),
{
    match soft_key {
        SoftKey::ImmediateDivert
        | SoftKey::TransferToVoicemail
        | SoftKey::DoNotDisturb
        | SoftKey::Private
        | SoftKey::ForwardAll
        | SoftKey::ForwardBusy
        | SoftKey::ForwardNoAnswer
        | SoftKey::Transfer => true,
        _ => false,
    }
}

fn off_hook<'a>(
    access: &'a Access,
    codec: Option<Codec>,
    device_id: DeviceId,
    call_id: CallId,
    line_instance: u32,
) -> (action: CallControlAction<'a>)
    ensures
        action == off_hook_spec(access.shared, codec, device_id, call_id, line_instance),
{
    let ringing = match access.shared.controller.call_state(call_id) {
        Some(state) => state == CallState::Ringing,
        None => false,
    };
    if ringing {
        return CallControlAction::AnswerCall { device_id, call_id };
    }
    match (access.line_binding(&device_id, line_instance), codec) {
        (Some(binding), Some(codec)) => match &binding.hotline {
            Some(destination) => CallControlAction::BeginHotlineCall {
                call_id,
                binding,
                codec,
                destination,
            },
            None => CallControlAction::BeginCall { call_id, binding, codec },
        },
        _ => {
            let prompt = show_prompt(device_id.clone(), call_id, 4, Prompt::NoCompatibleAudioCodec);
            CallControlAction::RefuseCall { prompt, close: close_call(device_id, call_id) }
        },
    }
}

fn voicemail_button<'a>(
    access: &'a Access,
    device_id: DeviceId,
    call_id: CallId,
    line_instance: u32,
) -> (action: CallControlAction<'a>)
    ensures
        action == voicemail_button_spec(access.shared, device_id, call_id, line_instance),
{
    if let Some(binding) = access.line_binding(&device_id, line_instance) {
        if let Some(features) = access.shared.config.features_for_line(
            binding.line.number.as_str(),
        ) {
            if let Some(number) = &features.voicemail_number {
                return CallControlAction::Dial { call_id, number: number.clone() };
            }
        }
    }
    CallControlAction::Send(
        show_prompt(device_id, call_id, 4, Prompt::VoicemailIsNotConfiguredForThisLine),
    )
}

fn call_key<'a>(
    access: &'a Access,
    device_id: DeviceId,
    call_id: CallId,
    line_instance: u32,
    soft_key: SoftKey,
) -> (action: CallControlAction<'a>)
    ensures
        action == call_key_spec(access.shared, device_id, call_id, line_instance, soft_key),
{
    let collects = match forwarding_collector(access, &device_id, call_id) {
        ForwardingCollector::ThisStation => true,
        _ => false,
    };
    match soft_key {
        SoftKey::Answer => CallControlAction::AnswerCall { device_id, call_id },
        SoftKey::Park => CallControlAction::Park { device_id, call_id, line_instance },
        SoftKey::Pickup => CallControlAction::Pickup {
            device_id,
            call_id,
            line_instance,
            directed: true,
        },
        SoftKey::GroupPickup => CallControlAction::Pickup {
            device_id,
            call_id,
            line_instance,
            directed: false,
        },
        SoftKey::Conference => CallControlAction::Conference { device_id, call_id, line_instance },
        SoftKey::MeetMe => CallControlAction::ConferenceDestination {
            device_id,
            call_id,
            line_instance,
        },
        SoftKey::ConferenceList => CallControlAction::ShowConferenceList { device_id, call_id },
        SoftKey::Barge => CallControlAction::Barge {
            device_id,
            call_id,
            line_instance,
            mode: BargeMode::Directed,
        },
        SoftKey::Join => CallControlAction::Join { device_id, call_id, line_instance },
        SoftKey::Select => CallControlAction::ToggleSelected { device_id, call_id },
        SoftKey::Backspace => if collects {
            CallControlAction::ForwardingBackspace { device_id, call_id }
        } else {
            CallControlAction::Ignore
        },
        SoftKey::Dial => if collects {
            CallControlAction::CommitForwarding { device_id, call_id }
        } else {
            CallControlAction::DialCollected { call_id }
        },
        SoftKey::EndCall => CallControlAction::HangUp { device_id, call_id, physical: false },
        SoftKey::Hold => CallControlAction::Hold { call_id },
        SoftKey::Resume => CallControlAction::Resume { call_id },
        SoftKey::DirectTransfer => CallControlAction::DirectTransfer { device_id },
        SoftKey::Callback => {
            let owner = match access.shared.controller.call(call_id) {
                Some(call) => match with_channel(access, call.pbx_id) {
                    Some(channel) => Some(
                        CallbackOwner {
                            device_id: &call.device_id,
                            call_id: call.sccp_id,
                            channel: channel.pbx_id,
                        },
                    ),
                    None => None,
                },
                None => None,
            };
            CallControlAction::RequestCallback { device_id, call_id, owner }
        },
        SoftKey::Monitor => CallControlAction::ToggleRecording { device_id, call_id },
        SoftKey::VideoMode => CallControlAction::ToggleVideo { device_id, call_id },
        SoftKey::Intercept => CallControlAction::Steal { call_id },
        _ => CallControlAction::Ignore,
    }
}

/// Decides what a call-control event asks for. `codec` is the one negotiated
/// for the line of the event, `hook_flash` what a flash on its call means.
pub fn handle_call_control_event<'a>(
    access: &'a Access,
    codec: Option<Codec>,
    hook_flash: HookFlashAction,
    event: PhoneDeviceEvent,
) -> (action: CallControlAction<'a>)
    requires
        accepted(event.event),
    ensures
        action == call_control_spec(access.shared, codec, hook_flash, event),
{
    let device_id = event.device_id;
    match event.event {
        PhoneDeviceEventKind::OffHook { call_id, line_instance } => off_hook(
            access,
            codec,
            device_id,
            call_id,
            line_instance,
        ),
        PhoneDeviceEventKind::OnHook { call_id, .. } => CallControlAction::HangUp {
            device_id,
            call_id,
            physical: true,
        },
        PhoneDeviceEventKind::Digit { call_id, digit } => match forwarding_collector(
            access,
            &device_id,
            call_id,
        ) {
            ForwardingCollector::Nobody => CallControlAction::DialDigit { call_id, digit },
            ForwardingCollector::ThisStation => CallControlAction::ForwardingDigit {
                device_id,
                call_id,
                digit,
            },
            ForwardingCollector::AnotherStation => CallControlAction::Ignore,
        },
        PhoneDeviceEventKind::EnblocCall { call_id, number, .. } => match forwarding_collector(
            access,
            &device_id,
            call_id,
        ) {
            ForwardingCollector::Nobody => CallControlAction::Dial { call_id, number },
            ForwardingCollector::ThisStation => CallControlAction::ReplaceForwarding {
                device_id,
                call_id,
                number,
                commit: true,
            },
            ForwardingCollector::AnotherStation => CallControlAction::Ignore,
        },
        PhoneDeviceEventKind::SpeedDial { call_id, number, await_further_digits } => {
            match forwarding_collector(access, &device_id, call_id) {
                ForwardingCollector::Nobody => CallControlAction::SpeedDial {
                    call_id,
                    number,
                    await_further_digits,
                },
                ForwardingCollector::ThisStation => CallControlAction::ReplaceForwarding {
                    device_id,
                    call_id,
                    number,
                    commit: !await_further_digits,
                },
                ForwardingCollector::AnotherStation => CallControlAction::Ignore,
            }
        },
        PhoneDeviceEventKind::FeatureButton { instance } => CallControlAction::FeatureButton {
            device_id,
            instance,
        },
        PhoneDeviceEventKind::DoNotDisturbButton { instance } => CallControlAction::DndButton {
            device_id,
            instance,
        },
        PhoneDeviceEventKind::RecordingButton { instance } => CallControlAction::RecordingButton {
            device_id,
            instance,
        },
        PhoneDeviceEventKind::MobilityButton { instance } => CallControlAction::MobilityButton {
            device_id,
            instance,
        },
        PhoneDeviceEventKind::VoicemailButton { call_id, line_instance } => voicemail_button(
            access,
            device_id,
            call_id,
            line_instance,
        ),
        PhoneDeviceEventKind::ParkingLotButton { instance, key_call_id, line_instance } => {
            CallControlAction::ParkingLotButton { device_id, instance, key_call_id, line_instance }
        },
        PhoneDeviceEventKind::ParkingMenuSelection { lot, slot } => {
            CallControlAction::RetrieveParked { device_id, lot, slot }
        },
        PhoneDeviceEventKind::PhoneServiceResponse { response } => {
            CallControlAction::MobilityResponse { device_id, response }
        },
        PhoneDeviceEventKind::ConferenceListAction { action } => {
            CallControlAction::ConferenceList { device_id, action }
        },
        PhoneDeviceEventKind::SoftKey { key_call_id, line_instance, soft_key } => {
            if key_works_without_call(soft_key) {
                match soft_key {
                    SoftKey::ImmediateDivert | SoftKey::TransferToVoicemail => {
                        CallControlAction::VoicemailKey { device_id, key_call_id, soft_key }
                    },
                    SoftKey::Transfer => {
                        CallControlAction::Transfer { device_id, key_call_id, line_instance }
                    },
                    _ => CallControlAction::FeatureKey {
                        device_id,
                        key_call_id,
                        line_instance,
                        soft_key,
                    },
                }
            } else {
                match key_call_id {
                    Some(call_id) => call_key(access, device_id, call_id, line_instance, soft_key),
                    None => CallControlAction::Ignore,
                }
            }
        },
        PhoneDeviceEventKind::LineButton { key_call_id, .. } => match key_call_id {
            Some(call_id) => match access.shared.controller.call_state(call_id) {
                Some(CallState::Held) | Some(CallState::SharedHeld) | Some(CallState::Connected) => {
                    CallControlAction::SwitchCall { device_id, call_id }
                },
                Some(CallState::Ringing) => CallControlAction::AnswerCall { device_id, call_id },
                Some(CallState::RemoteInUse) => CallControlAction::Steal { call_id },
                _ => CallControlAction::Ignore,
            },
            None => CallControlAction::Ignore,
        },
        PhoneDeviceEventKind::HookFlash { key_call_id, line_instance } => match key_call_id {
            Some(_) => match hook_flash {
                HookFlashAction::AnswerWaiting(waiting) => CallControlAction::AnswerCall {
                    device_id,
                    call_id: waiting,
                },
                HookFlashAction::Transfer => CallControlAction::Transfer {
                    device_id,
                    key_call_id,
                    line_instance,
                },
                HookFlashAction::Ignore => CallControlAction::Ignore,
            },
            None => CallControlAction::Ignore,
        },
        _ => CallControlAction::Ignore,
    }
}

/// Where hanging up stands.
#[derive(Debug, PartialEq, Eq)]
pub enum HangUpAction {
    /// Only a destination was being collected: close its call.
    Close(PhoneCommand),
    /// See whether a transfer takes the hang-up.
    OfferToTransfer,
    /// End the call.
    EndCall { physical: bool },
    Finish,
}

/// What hanging up does once it is known whether a destination entry was
/// cancelled by it.
pub fn hang_up_after_forwarding(device_id: DeviceId, call_id: CallId, cancelled: bool) -> (action:
    HangUpAction)
    ensures
        action == if cancelled {
            HangUpAction::Close(commands::close_command(device_id, call_id))
        } else {
            HangUpAction::OfferToTransfer
        },
{
    if cancelled {
        HangUpAction::Close(close_call(device_id, call_id))
    } else {
        HangUpAction::OfferToTransfer
    }
}

/// What hanging up does once it is known whether a transfer took it.
pub fn hang_up_after_transfer(physical: bool, handled: bool) -> (action: HangUpAction)
    ensures
        action == if handled {
            HangUpAction::Finish
        } else {
            HangUpAction::EndCall { physical }
        },
{
    if handled {
        HangUpAction::Finish
    } else {
        HangUpAction::EndCall { physical }
    }
}

/// What follows the end of a call that may have been part of a conference.
#[derive(Debug, PartialEq, Eq)]
pub enum HandsetHangUpAction {
    /// The conference goes on: undo what belonged to the call, then show the
    /// owner its list if the configuration asks for it.
    CleanUpAndList { device_id: DeviceId, call_id: CallId, show_list: bool },
    /// The conference ends with the call.
    CleanUpAndSilence { conference_id: crate::ids::ConferenceId },
    /// There was none.
    ExecuteEffects,
}

/// What ending a call does, by what the controller says of its conference.
/// `surviving` is the owner of a conference that goes on without the call.
pub fn handle_handset_hangup(
    access: &Access,
    conference_id: Option<crate::ids::ConferenceId>,
    surviving: Option<(DeviceId, CallId)>,
) -> (action: HandsetHangUpAction)
    ensures
        action == match (surviving, conference_id) {
            (Some((device_id, call_id)), _) => HandsetHangUpAction::CleanUpAndList {
                device_id,
                call_id,
                show_list: shows_list_spec(access.shared, device_id@),
            },
            (None, Some(conference_id)) => HandsetHangUpAction::CleanUpAndSilence { conference_id },
            (None, None) => HandsetHangUpAction::ExecuteEffects,
        },
{
    match surviving {
        Some((device_id, call_id)) => {
            let show_list = shows_conference_list(access, &device_id);
            HandsetHangUpAction::CleanUpAndList { device_id, call_id, show_list }
        },
        None => match conference_id {
            Some(conference_id) => HandsetHangUpAction::CleanUpAndSilence { conference_id },
            None => HandsetHangUpAction::ExecuteEffects,
        },
    }
}

/// The configuration of `device` asks for conference lists to be shown.
pub open spec fn shows_list_spec(shared: Shared, device: Seq<char>) -> bool {
    lookup::first(shared.config.devices@, config::is_device(device)) matches Some(found)
        && found.conference.show_conference_list
}

pub fn shows_conference_list(access: &Access, device_id: &DeviceId) -> (shows: bool)
    ensures
        shows == shows_list_spec(access.shared, device_id@),
{
    match access.shared.config.device(device_id) {
        Some(device) => device.conference.show_conference_list,
        None => false,
    }
}

/// What is shown once the switch has answered a callback request; a refusal
/// brings its own words.
pub fn callback_prompt(device_id: DeviceId, call_id: CallId, refusal: Option<String>) -> (command:
    PhoneCommand)
    ensures
        command == match refusal {
            None => commands::prompt_command(device_id, call_id, 4, Prompt::CallbackRequested),
            Some(text) => PhoneCommand {
                device_id,
                action: PhoneCommandAction::DisplayText { call_id, timeout_seconds: 4, text },
            },
        },
{
    match refusal {
        None => show_prompt(device_id, call_id, 4, Prompt::CallbackRequested),
        Some(text) => PhoneCommand::new(
            device_id,
            PhoneCommandAction::DisplayText { call_id, timeout_seconds: 4, text },
        ),
    }
}

/// What is shown once a selection was toggled; `None` where the call cannot be
/// selected.
pub fn selection_command(device_id: DeviceId, call_id: CallId, selected: Option<bool>) -> (command:
    Option<PhoneCommand>)
    ensures
        command == match selected {
            Some(selected) => Some(
                PhoneCommand {
                    device_id,
                    action: PhoneCommandAction::SetCallSelected { call_id, selected },
                },
            ),
            None => None,
        },
{
    match selected {
        Some(selected) => Some(
            PhoneCommand::new(device_id, PhoneCommandAction::SetCallSelected { call_id, selected }),
        ),
        None => None,
    }
}

/// Digits and numbers that reach a call on which another station collects a
/// forwarding destination go nowhere: they are neither dialed nor collected.
pub proof fn law_foreign_entries_take_no_digits(
    shared: Shared,
    codec: Option<Codec>,
    hook_flash: HookFlashAction,
    event: PhoneDeviceEvent,
    call_id: CallId,
)
    requires
        match event.event {
            PhoneDeviceEventKind::Digit { call_id: on, .. } => on == call_id,
            PhoneDeviceEventKind::EnblocCall { call_id: on, .. } => on == call_id,
            PhoneDeviceEventKind::SpeedDial { call_id: on, .. } => on == call_id,
            _ => false,
        },
        collector_spec(shared, event.device_id@, call_id) == ForwardingCollector::AnotherStation,
    ensures
        call_control_spec(shared, codec, hook_flash, event) == CallControlAction::<'static>::Ignore,
{
}

/// Neither an off-hook station nor any key starts a call without a negotiated
/// codec and a line to start it on.
pub proof fn law_calls_begin_only_with_codec_and_line(
    shared: Shared,
    codec: Option<Codec>,
    hook_flash: HookFlashAction,
    event: PhoneDeviceEvent,
)
    requires
        accepted(event.event),
    ensures
        match call_control_spec(shared, codec, hook_flash, event) {
            CallControlAction::BeginCall { binding, codec: used, .. } => {
                &&& codec == Some(used)
                &&& event.event matches PhoneDeviceEventKind::OffHook { line_instance, .. }
                &&& shared.binding_spec(event.device_id@, line_instance) == Some(*binding)
            },
            CallControlAction::BeginHotlineCall { binding, codec: used, destination, .. } => {
                &&& codec == Some(used)
                &&& binding.hotline == Some(*destination)
                &&& event.event matches PhoneDeviceEventKind::OffHook { line_instance, .. }
                &&& shared.binding_spec(event.device_id@, line_instance) == Some(*binding)
            },
            _ => true,
        },
{
}

/// Lifting the handset answers the call exactly if that call rings, whatever its
/// line and codec are.
pub proof fn law_lifting_the_handset_answers_what_rings<'a>(
    access: &'a Access,
    codec: Option<Codec>,
    hook_flash: HookFlashAction,
    event: PhoneDeviceEvent,
    action: CallControlAction<'a>,
    i: int,
)
    requires
        event.event is OffHook,
        call_ensures(handle_call_control_event, (access, codec, hook_flash, event), action),
        0 <= i < access.shared.controller.appearances@.len(),
        access.shared.controller.appearances@[i].sccp_id == event.event->OffHook_call_id,
        forall|j: int|
            0 <= j < i ==> (#[trigger] access.shared.controller.appearances@[j]).sccp_id
                != event.event->OffHook_call_id,
    ensures
        action is AnswerCall <==> access.shared.controller.appearances@[i].state
            == CallState::Ringing,
        action matches CallControlAction::AnswerCall { device_id, call_id } ==> device_id
            == event.device_id && call_id == event.event->OffHook_call_id,
{
    lookup::lemma_first_is(
        access.shared.controller.appearances@,
        controller::is_call(event.event->OffHook_call_id),
        i,
    );
}

/// Lifting the handset for a call that nobody knows yet never answers: it begins
/// one where there are a line and a codec, to the line's own destination exactly
/// if it has one, and is refused otherwise.
pub proof fn law_lifting_the_handset_begins_a_new_call<'a>(
    access: &'a Access,
    codec: Option<Codec>,
    hook_flash: HookFlashAction,
    event: PhoneDeviceEvent,
    action: CallControlAction<'a>,
)
    requires
        event.event is OffHook,
        call_ensures(handle_call_control_event, (access, codec, hook_flash, event), action),
        forall|j: int|
            0 <= j < access.shared.controller.appearances@.len() ==> (
            #[trigger] access.shared.controller.appearances@[j]).sccp_id
                != event.event->OffHook_call_id,
    ensures
        ({
            let line = access.shared.binding_spec(
                event.device_id@,
                event.event->OffHook_line_instance,
            );
            let call = event.event->OffHook_call_id;
            &&& action is BeginHotlineCall || action is BeginCall || action is RefuseCall
            &&& action is RefuseCall <==> line is None || codec is None
            &&& action matches CallControlAction::RefuseCall { prompt, close } ==> {
                &&& prompt.device_id == event.device_id && close.device_id == event.device_id
                &&& prompt.action == (PhoneCommandAction::DisplayPrompt {
                    call_id: call,
                    timeout_seconds: 4,
                    prompt: Prompt::NoCompatibleAudioCodec,
                })
                &&& close.action == (PhoneCommandAction::CloseCall { call_id: call })
            }
            &&& action matches CallControlAction::BeginCall { call_id, binding, codec: used }
                ==> call_id == call && line == Some(*binding) && codec == Some(used)
                && binding.hotline is None
            &&& action matches CallControlAction::BeginHotlineCall {
                call_id,
                binding,
                codec: used,
                destination,
            } ==> call_id == call && line == Some(*binding) && codec == Some(used)
                && binding.hotline == Some(*destination)
        }),
{
    lookup::lemma_first_none(
        access.shared.controller.appearances@,
        controller::is_call(event.event->OffHook_call_id),
    );
}

/// Putting the handset down and the end key both hang up the call that they are
/// pressed on, and nothing else does; only the handset counts as put down.
pub proof fn law_hanging_up_is_asked_for_by_hook_and_end_key<'a>(
    access: &'a Access,
    codec: Option<Codec>,
    hook_flash: HookFlashAction,
    event: PhoneDeviceEvent,
    action: CallControlAction<'a>,
)
    requires
        accepted(event.event),
        call_ensures(handle_call_control_event, (access, codec, hook_flash, event), action),
    ensures
        action is HangUp <==> event.event is OnHook || (
        event.event matches PhoneDeviceEventKind::SoftKey { soft_key, key_call_id, .. } && soft_key
            == SoftKey::EndCall && key_call_id is Some),
        action matches CallControlAction::HangUp { device_id, call_id, physical } ==> {
            &&& device_id == event.device_id
            &&& physical <==> event.event is OnHook
            &&& physical ==> call_id == event.event->OnHook_call_id
            &&& !physical ==> Some(call_id) == event.event->SoftKey_key_call_id
        },
{
}

/// A key does what it is labelled for, to the call that it is pressed on, and no
/// other key does the same.
pub proof fn law_keys_act_on_their_call<'a>(
    access: &'a Access,
    codec: Option<Codec>,
    hook_flash: HookFlashAction,
    event: PhoneDeviceEvent,
    action: CallControlAction<'a>,
    call: CallId,
    line: u32,
    key: SoftKey,
)
    requires
        event.event == (PhoneDeviceEventKind::SoftKey {
            key_call_id: Some(call),
            line_instance: line,
            soft_key: key,
        }),
        call_ensures(handle_call_control_event, (access, codec, hook_flash, event), action),
    ensures
        key == SoftKey::Answer <==> action == (CallControlAction::AnswerCall {
            device_id: event.device_id,
            call_id: call,
        }),
        key == SoftKey::Hold <==> action == (CallControlAction::Hold { call_id: call }),
        key == SoftKey::Resume <==> action == (CallControlAction::Resume { call_id: call }),
        key == SoftKey::Intercept <==> action == (CallControlAction::Steal { call_id: call }),
        key == SoftKey::Park <==> action == (CallControlAction::Park {
            device_id: event.device_id,
            call_id: call,
            line_instance: line,
        }),
        key == SoftKey::Pickup <==> action == (CallControlAction::Pickup {
            device_id: event.device_id,
            call_id: call,
            line_instance: line,
            directed: true,
        }),
        key == SoftKey::GroupPickup <==> action == (CallControlAction::Pickup {
            device_id: event.device_id,
            call_id: call,
            line_instance: line,
            directed: false,
        }),
        key == SoftKey::Conference <==> action == (CallControlAction::Conference {
            device_id: event.device_id,
            call_id: call,
            line_instance: line,
        }),
        key == SoftKey::MeetMe <==> action == (CallControlAction::ConferenceDestination {
            device_id: event.device_id,
            call_id: call,
            line_instance: line,
        }),
        key == SoftKey::ConferenceList <==> action == (
        CallControlAction::ShowConferenceList { device_id: event.device_id, call_id: call }),
        key == SoftKey::Barge <==> action == (CallControlAction::Barge {
            device_id: event.device_id,
            call_id: call,
            line_instance: line,
            mode: BargeMode::Directed,
        }),
        key == SoftKey::Join <==> action == (CallControlAction::Join {
            device_id: event.device_id,
            call_id: call,
            line_instance: line,
        }),
        key == SoftKey::Select <==> action == (CallControlAction::ToggleSelected {
            device_id: event.device_id,
            call_id: call,
        }),
        key == SoftKey::DirectTransfer <==> action == (CallControlAction::DirectTransfer {
            device_id: event.device_id,
        }),
        key == SoftKey::Monitor <==> action == (CallControlAction::ToggleRecording {
            device_id: event.device_id,
            call_id: call,
        }),
        key == SoftKey::VideoMode <==> action == (CallControlAction::ToggleVideo {
            device_id: event.device_id,
            call_id: call,
        }),
        key == SoftKey::Callback <==> action is RequestCallback,
        key == SoftKey::Transfer <==> action == (CallControlAction::Transfer {
            device_id: event.device_id,
            key_call_id: Some(call),
            line_instance: line,
        }),
        key == SoftKey::ImmediateDivert || key == SoftKey::TransferToVoicemail <==> action == (
        CallControlAction::VoicemailKey {
            device_id: event.device_id,
            key_call_id: Some(call),
            soft_key: key,
        }),
        key == SoftKey::DoNotDisturb || key == SoftKey::Private || key == SoftKey::ForwardAll
            || key == SoftKey::ForwardBusy || key == SoftKey::ForwardNoAnswer <==> action == (
        CallControlAction::FeatureKey {
            device_id: event.device_id,
            key_call_id: Some(call),
            line_instance: line,
            soft_key: key,
        }),
{
}

/// A callback is asked for in the name of the station that shows the call, on the
/// channel of that call, and of nobody where the call has no open channel.
pub proof fn law_callbacks_name_the_owner_of_the_call<'a>(
    access: &'a Access,
    codec: Option<Codec>,
    hook_flash: HookFlashAction,
    event: PhoneDeviceEvent,
    action: CallControlAction<'a>,
    call: CallId,
    line: u32,
    i: int,
    c: int,
)
    requires
        event.event == (PhoneDeviceEventKind::SoftKey {
            key_call_id: Some(call),
            line_instance: line,
            soft_key: SoftKey::Callback,
        }),
        call_ensures(handle_call_control_event, (access, codec, hook_flash, event), action),
        0 <= i < access.shared.controller.appearances@.len(),
        access.shared.controller.appearances@[i].sccp_id == call,
        forall|j: int|
            0 <= j < i ==> (#[trigger] access.shared.controller.appearances@[j]).sccp_id != call,
        0 <= c < access.shared.channels@.len(),
        access.shared.channels@[c].pbx_id == access.shared.controller.appearances@[i].pbx_id,
        forall|j: int|
            0 <= j < c ==> (#[trigger] access.shared.channels@[j]).pbx_id
                != access.shared.controller.appearances@[i].pbx_id,
    ensures
        action matches CallControlAction::RequestCallback { device_id, call_id, owner } && {
            &&& device_id == event.device_id
            &&& call_id == call
            &&& owner is None <==> access.shared.channels@[c].closed
            &&& owner matches Some(owner) ==> {
                &&& *owner.device_id == access.shared.controller.appearances@[i].device_id
                &&& owner.call_id == call
                &&& owner.channel == access.shared.controller.appearances@[i].pbx_id
            }
        },
{
    let calls = access.shared.controller.appearances@;
    lookup::lemma_first_is(calls, controller::is_call(call), i);
    lookup::lemma_first_is(access.shared.channels@, access::channel_of(calls[i].pbx_id), c);
}

/// Whatever is entered on a call goes to the forwarding destination that the
/// station collects there, and is dialed exactly if nobody collects one. What is
/// entered arrives unchanged.
pub proof fn law_entries_are_dialed_or_collected<'a>(
    access: &'a Access,
    codec: Option<Codec>,
    hook_flash: HookFlashAction,
    event: PhoneDeviceEvent,
    action: CallControlAction<'a>,
    call: CallId,
)
    requires
        event.event matches PhoneDeviceEventKind::Digit { call_id, .. } ==> call_id == call,
        event.event matches PhoneDeviceEventKind::EnblocCall { call_id, .. } ==> call_id == call,
        event.event matches PhoneDeviceEventKind::SpeedDial { call_id, .. } ==> call_id == call,
        event.event is Digit || event.event is EnblocCall || event.event is SpeedDial,
        call_ensures(handle_call_control_event, (access, codec, hook_flash, event), action),
    ensures
        ({
            let entries = access.shared.controller.forwarding_entries@;
            let collected = exists|i: int|
                0 <= i < entries.len() && (#[trigger] entries[i]).call_id == call;
            let dialed = action is DialDigit || action is Dial || action is SpeedDial;
            let taken = action is ForwardingDigit || action is ReplaceForwarding;
            &&& dialed <==> !collected
            &&& taken ==> exists|i: int|
                0 <= i < entries.len() && (#[trigger] entries[i]).call_id == call
                    && entries[i].device_id@ == event.device_id@
            &&& (collected && forall|i: int|
                0 <= i < entries.len() && (#[trigger] entries[i]).call_id == call
                    ==> entries[i].device_id@ == event.device_id@) ==> taken
            &&& event.event matches PhoneDeviceEventKind::Digit { digit: pressed, .. } ==> {
                &&& dialed ==> action == (CallControlAction::DialDigit {
                    call_id: call,
                    digit: pressed,
                })
                &&& taken ==> action == (CallControlAction::ForwardingDigit {
                    device_id: event.device_id,
                    call_id: call,
                    digit: pressed,
                })
            }
            &&& event.event matches PhoneDeviceEventKind::EnblocCall { number: entered, .. } ==> {
                &&& dialed ==> action == (CallControlAction::Dial {
                    call_id: call,
                    number: entered,
                })
                &&& taken ==> action == (CallControlAction::ReplaceForwarding {
                    device_id: event.device_id,
                    call_id: call,
                    number: entered,
                    commit: true,
                })
            }
            &&& event.event matches PhoneDeviceEventKind::SpeedDial {
                number: stored,
                await_further_digits: more,
                ..
            } ==> {
                &&& dialed ==> action == (CallControlAction::SpeedDial {
                    call_id: call,
                    number: stored,
                    await_further_digits: more,
                })
                &&& taken ==> (action matches CallControlAction::ReplaceForwarding {
                    device_id,
                    call_id,
                    number,
                    commit,
                } && device_id == event.device_id && call_id == call && number == stored && (commit
                    <==> !more))
            }
        }),
{
    let entries = access.shared.controller.forwarding_entries@;
    lookup::lemma_first_at(entries, controller::collects_on(call), 0);
}

/// The dial key sends a collected destination off and dials where none is
/// collected; the backspace key edits only a destination that the station itself
/// collects.
pub proof fn law_dial_and_backspace_serve_the_collection<'a>(
    access: &'a Access,
    codec: Option<Codec>,
    hook_flash: HookFlashAction,
    event: PhoneDeviceEvent,
    action: CallControlAction<'a>,
    call: CallId,
    line: u32,
    key: SoftKey,
)
    requires
        event.event == (PhoneDeviceEventKind::SoftKey {
            key_call_id: Some(call),
            line_instance: line,
            soft_key: key,
        }),
        key == SoftKey::Dial || key == SoftKey::Backspace,
        call_ensures(handle_call_control_event, (access, codec, hook_flash, event), action),
    ensures
        ({
            let entries = access.shared.controller.forwarding_entries@;
            let own = action is CommitForwarding || action is ForwardingBackspace;
            &&& own ==> exists|i: int|
                0 <= i < entries.len() && (#[trigger] entries[i]).call_id == call
                    && entries[i].device_id@ == event.device_id@
            &&& (exists|i: int|
                0 <= i < entries.len() && (#[trigger] entries[i]).call_id == call
                    && entries[i].device_id@ == event.device_id@ && forall|j: int|
                    0 <= j < i ==> (#[trigger] entries[j]).call_id != call) ==> own
            &&& own && key == SoftKey::Dial ==> action == (
            CallControlAction::CommitForwarding { device_id: event.device_id, call_id: call })
            &&& own && key == SoftKey::Backspace ==> action == (
            CallControlAction::ForwardingBackspace {
                device_id: event.device_id,
                call_id: call,
            })
            &&& !own && key == SoftKey::Dial ==> action == (
            CallControlAction::DialCollected { call_id: call })
            &&& !own && key == SoftKey::Backspace ==> action is Ignore
        }),
{
    let entries = access.shared.controller.forwarding_entries@;
    let p = controller::collects_on(call);
    lookup::lemma_first_at(entries, p, 0);
    if exists|i: int|
        0 <= i < entries.len() && (#[trigger] entries[i]).call_id == call
            && entries[i].device_id@ == event.device_id@ && forall|j: int|
            0 <= j < i ==> (#[trigger] entries[j]).call_id != call {
        let i = choose|i: int|
            0 <= i < entries.len() && (#[trigger] entries[i]).call_id == call
                && entries[i].device_id@ == event.device_id@ && forall|j: int|
                0 <= j < i ==> (#[trigger] entries[j]).call_id != call;
        lookup::lemma_first_is(entries, p, i);
    }
}

/// The button of a line answers a call that rings, takes over one that another
/// station is on, returns to one that is connected or held, and does nothing
/// else.
pub proof fn law_line_buttons_follow_the_state_of_the_call<'a>(
    access: &'a Access,
    codec: Option<Codec>,
    hook_flash: HookFlashAction,
    event: PhoneDeviceEvent,
    action: CallControlAction<'a>,
    call: CallId,
    line: u32,
    i: int,
)
    requires
        event.event == (PhoneDeviceEventKind::LineButton {
            key_call_id: Some(call),
            line_instance: line,
        }),
        call_ensures(handle_call_control_event, (access, codec, hook_flash, event), action),
        0 <= i < access.shared.controller.appearances@.len(),
        access.shared.controller.appearances@[i].sccp_id == call,
        forall|j: int|
            0 <= j < i ==> (#[trigger] access.shared.controller.appearances@[j]).sccp_id != call,
    ensures
        ({
            let state = access.shared.controller.appearances@[i].state;
            &&& state == CallState::Ringing <==> action == (CallControlAction::AnswerCall {
                device_id: event.device_id,
                call_id: call,
            })
            &&& state == CallState::RemoteInUse <==> action == (CallControlAction::Steal {
                call_id: call,
            })
            &&& state == CallState::Connected || state == CallState::Held || state
                == CallState::SharedHeld <==> action == (CallControlAction::SwitchCall {
                device_id: event.device_id,
                call_id: call,
            })
            &&& action is AnswerCall || action is Steal || action is SwitchCall
                || action is Ignore
        }),
{
    lookup::lemma_first_is(
        access.shared.controller.appearances@,
        controller::is_call(call),
        i,
    );
}

/// A hook flash answers exactly the call that waits, and otherwise transfers the
/// call that it is made on.
pub proof fn law_hook_flashes_answer_or_transfer<'a>(
    access: &'a Access,
    codec: Option<Codec>,
    hook_flash: HookFlashAction,
    event: PhoneDeviceEvent,
    action: CallControlAction<'a>,
    call: CallId,
    line: u32,
)
    requires
        event.event == (PhoneDeviceEventKind::HookFlash {
            key_call_id: Some(call),
            line_instance: line,
        }),
        call_ensures(handle_call_control_event, (access, codec, hook_flash, event), action),
    ensures
        action is AnswerCall <==> hook_flash is AnswerWaiting,
        hook_flash matches HookFlashAction::AnswerWaiting(waiting) ==> action == (
        CallControlAction::AnswerCall { device_id: event.device_id, call_id: waiting }),
        hook_flash is Transfer <==> action == (CallControlAction::Transfer {
            device_id: event.device_id,
            key_call_id: Some(call),
            line_instance: line,
        }),
        hook_flash is Ignore <==> action is Ignore,
{
}

/// A feature button, a roaming button, a parking button or a choice from a menu
/// reaches the part of the driver that serves it, with what was pressed.
pub proof fn law_buttons_reach_what_they_are_for<'a>(
    access: &'a Access,
    codec: Option<Codec>,
    hook_flash: HookFlashAction,
    event: PhoneDeviceEvent,
    action: CallControlAction<'a>,
)
    requires
        accepted(event.event),
        call_ensures(handle_call_control_event, (access, codec, hook_flash, event), action),
    ensures
        event.event is FeatureButton <==> action is FeatureButton,
        event.event is DoNotDisturbButton <==> action is DndButton,
        event.event is RecordingButton <==> action is RecordingButton,
        event.event is MobilityButton <==> action is MobilityButton,
        event.event is ParkingLotButton <==> action is ParkingLotButton,
        event.event is ParkingMenuSelection <==> action is RetrieveParked,
        event.event is PhoneServiceResponse <==> action is MobilityResponse,
        event.event is ConferenceListAction <==> action is ConferenceList,
        action matches CallControlAction::FeatureButton { device_id, instance } ==> device_id
            == event.device_id && instance == event.event->FeatureButton_instance,
        action matches CallControlAction::DndButton { device_id, instance } ==> device_id
            == event.device_id && instance == event.event->DoNotDisturbButton_instance,
        action matches CallControlAction::RecordingButton { device_id, instance } ==> device_id
            == event.device_id && instance == event.event->RecordingButton_instance,
        action matches CallControlAction::MobilityButton { device_id, instance } ==> device_id
            == event.device_id && instance == event.event->MobilityButton_instance,
        action matches CallControlAction::ParkingLotButton {
            device_id,
            instance,
            key_call_id,
            line_instance,
        } ==> device_id == event.device_id && instance == event.event->ParkingLotButton_instance
            && key_call_id == event.event->ParkingLotButton_key_call_id && line_instance
            == event.event->ParkingLotButton_line_instance,
        action matches CallControlAction::RetrieveParked { device_id, lot, slot } ==> device_id
            == event.device_id && lot == event.event->lot && slot == event.event->slot,
        action matches CallControlAction::MobilityResponse { device_id, response } ==> device_id
            == event.device_id && response == event.event->response,
        action matches CallControlAction::ConferenceList { device_id, action: chosen }
            ==> device_id == event.device_id && chosen == event.event->action,
{
}

/// The voicemail button dials the number that is configured for its line, and
/// says so where there is none.
pub proof fn law_voicemail_buttons_dial_the_number_of_the_line<'a>(
    access: &'a Access,
    codec: Option<Codec>,
    hook_flash: HookFlashAction,
    event: PhoneDeviceEvent,
    action: CallControlAction<'a>,
    call: CallId,
    line: u32,
    binding: LineBinding,
    f: int,
)
    requires
        event.event == (PhoneDeviceEventKind::VoicemailButton {
            call_id: call,
            line_instance: line,
        }),
        call_ensures(handle_call_control_event, (access, codec, hook_flash, event), action),
        access.shared.binding_spec(event.device_id@, line) == Some(binding),
        0 <= f < access.shared.config.line_features@.len(),
        access.shared.config.line_features@[f].line@ == binding.line.number@,
        forall|j: int|
            0 <= j < f ==> (#[trigger] access.shared.config.line_features@[j]).line@
                != binding.line.number@,
    ensures
        match access.shared.config.line_features@[f].voicemail_number {
            Some(number) => action == (CallControlAction::Dial { call_id: call, number }),
            None => action matches CallControlAction::Send(shown) && shown.device_id
                == event.device_id && (
            shown.action matches PhoneCommandAction::DisplayPrompt { call_id, prompt, .. } && call_id
                == call && prompt == Prompt::VoicemailIsNotConfiguredForThisLine),
        },
{
    lookup::lemma_first_is(
        access.shared.config.line_features@,
        config::features_of_line(binding.line.number@),
        f,
    );
}

/// Hanging up closes a call on which only a destination was collected; any other
/// goes on to a transfer first, and is ended exactly if no transfer takes it.
pub proof fn law_hanging_up_ends_the_call_once(
    device_id: DeviceId,
    call_id: CallId,
    cancelled: bool,
    physical: bool,
    handled: bool,
    first: HangUpAction,
    second: HangUpAction,
)
    requires
        call_ensures(hang_up_after_forwarding, (device_id, call_id, cancelled), first),
        call_ensures(hang_up_after_transfer, (physical, handled), second),
    ensures
        first is OfferToTransfer <==> !cancelled,
        cancelled ==> first == HangUpAction::Close(
            PhoneCommand { device_id, action: PhoneCommandAction::CloseCall { call_id } },
        ),
        second is EndCall <==> !handled,
        second matches HangUpAction::EndCall { physical: ended } ==> ended == physical,
        handled ==> second is Finish,
{
}

/// A conference that goes on without the call is shown to its owner, where its
/// configuration asks for that; one that ends is silenced; without a conference
/// only the effects of hanging up remain.
pub proof fn law_hanging_up_keeps_surviving_conferences(
    access: &Access,
    conference_id: Option<crate::ids::ConferenceId>,
    surviving: Option<(DeviceId, CallId)>,
    action: HandsetHangUpAction,
)
    requires
        call_ensures(handle_handset_hangup, (access, conference_id, surviving), action),
    ensures
        action is CleanUpAndList <==> surviving is Some,
        action matches HandsetHangUpAction::CleanUpAndList { device_id, call_id, .. } ==> surviving
            == Some((device_id, call_id)),
        action matches HandsetHangUpAction::CleanUpAndList { device_id, show_list, .. }
            ==> show_list ==> exists|i: int|
            0 <= i < access.shared.config.devices@.len() && (
            #[trigger] access.shared.config.devices@[i]).id@ == device_id@
                && access.shared.config.devices@[i].conference.show_conference_list,
        action matches HandsetHangUpAction::CleanUpAndList { device_id, show_list, .. }
            ==> !show_list ==> (forall|i: int|
            0 <= i < access.shared.config.devices@.len() && (
            #[trigger] access.shared.config.devices@[i]).id@ == device_id@ && (forall|j: int|
                0 <= j < i ==> (#[trigger] access.shared.config.devices@[j]).id@ != device_id@)
                ==> !access.shared.config.devices@[i].conference.show_conference_list),
        action is CleanUpAndSilence <==> surviving is None && conference_id is Some,
        action matches HandsetHangUpAction::CleanUpAndSilence { conference_id: ended }
            ==> conference_id == Some(ended),
{
    if let Some((device_id, call_id)) = surviving {
        let p = config::is_device(device_id@);
        lookup::lemma_first_at(access.shared.config.devices@, p, 0);
        assert forall|i: int|
            0 <= i < access.shared.config.devices@.len() && (
            #[trigger] access.shared.config.devices@[i]).id@ == device_id@ && (forall|j: int|
                0 <= j < i ==> (#[trigger] access.shared.config.devices@[j]).id@ != device_id@)
            implies lookup::first(access.shared.config.devices@, p) == Some(
            access.shared.config.devices@[i],
        ) by {
            lookup::lemma_first_is(access.shared.config.devices@, p, i);
        }
    }
}

/// Digits for forwarding are collected by the station whose entry has the call; by
/// another station where the entry is that one's, and by nobody without an entry.
pub proof fn law_forwarding_digits_are_collected_by_their_station(
    access: &Access,
    device_id: DeviceId,
    call_id: CallId,
    collector: ForwardingCollector,
    i: int,
)
    requires
        call_ensures(forwarding_collector, (access, &device_id, call_id), collector),
        0 <= i <= access.shared.controller.forwarding_entries@.len(),
        forall|j: int|
            0 <= j < i ==> (#[trigger] access.shared.controller.forwarding_entries@[j]).call_id
                != call_id,
        i < access.shared.controller.forwarding_entries@.len()
            ==> access.shared.controller.forwarding_entries@[i].call_id == call_id,
    ensures
        collector is Nobody <==> i == access.shared.controller.forwarding_entries@.len(),
        collector is ThisStation <==> i < access.shared.controller.forwarding_entries@.len()
            && access.shared.controller.forwarding_entries@[i].device_id@ == device_id@,
{
    let entries = access.shared.controller.forwarding_entries@;
    let p = controller::collects_on(call_id);
    if i == entries.len() {
        lookup::lemma_first_none(entries, p);
    } else {
        lookup::lemma_first_is(entries, p, i);
    }
}

/// A key without a call is taken exactly if it works without one, and one with a
/// call always is; a line button needs a call.
pub proof fn law_keys_without_a_call_are_taken_where_they_work(
    event: PhoneDeviceEventKind,
    taken: bool,
)
    requires
        call_ensures(accepts, (&event,), taken),
    ensures
        event matches PhoneDeviceEventKind::SoftKey { key_call_id, soft_key, .. } ==> (taken
            <==> key_call_id is Some || soft_key is ImmediateDivert || soft_key
            is TransferToVoicemail || soft_key is DoNotDisturb || soft_key is Private || soft_key
            is ForwardAll || soft_key is ForwardBusy || soft_key is ForwardNoAnswer || soft_key
            is Transfer),
        event matches PhoneDeviceEventKind::LineButton { key_call_id, .. } ==> (taken
            <==> key_call_id is Some),
{
}

/// The list of a conference is shown on the stations that are configured for it.
pub proof fn law_conference_lists_are_shown_where_configured(
    access: &Access,
    device_id: DeviceId,
    shows: bool,
    d: int,
)
    requires
        call_ensures(shows_conference_list, (access, &device_id), shows),
        0 <= d <= access.shared.config.devices@.len(),
        forall|j: int|
            0 <= j < d ==> (#[trigger] access.shared.config.devices@[j]).id@ != device_id@,
        d < access.shared.config.devices@.len() ==> access.shared.config.devices@[d].id@
            == device_id@,
    ensures
        shows <==> d < access.shared.config.devices@.len()
            && access.shared.config.devices@[d].conference.show_conference_list,
{
    let devices = access.shared.config.devices@;
    let p = config::is_device(device_id@);
    if d == devices.len() {
        lookup::lemma_first_none(devices, p);
    } else {
        lookup::lemma_first_is(devices, p, d);
    }
}

/// A requested callback is acknowledged on the call, a refusal by its own words; a
/// selection is shown as it became, and nothing where there was none to make.
pub proof fn law_answers_go_to_the_call_they_are_about(
    device_id: DeviceId,
    call_id: CallId,
    refusal: Option<String>,
    told: PhoneCommand,
    selected: Option<bool>,
    shown: Option<PhoneCommand>,
)
    requires
        call_ensures(callback_prompt, (device_id, call_id, refusal), told),
        call_ensures(selection_command, (device_id, call_id, selected), shown),
    ensures
        told.device_id == device_id,
        told.action is DisplayPrompt <==> refusal is None,
        told.action matches PhoneCommandAction::DisplayPrompt { call_id: on, prompt, .. } ==> on
            == call_id && prompt == Prompt::CallbackRequested,
        refusal matches Some(words) ==> (told.action matches PhoneCommandAction::DisplayText {
            call_id: on,
            text,
            ..
        } && on == call_id && text == words),
        shown is Some <==> selected is Some,
        shown matches Some(command) ==> command.device_id == device_id && command.action == (
        PhoneCommandAction::SetCallSelected { call_id, selected: selected->0 }),
{
}

} // verus!
