//! Picking up, parking and retrieving calls.

use vstd::prelude::*;
use vstd::string::*;

use crate::access::{Access, Shared};
use crate::backend::{ParkingRejection, ServiceProviderError};
use crate::collect::{self, any, find};
use crate::commands::{
    self, close_call, show_prompt, ParkingMenuEntry, PhoneCommand, PhoneCommandAction,
};
use crate::config::{self, DeviceConfig, ParkingLotButton, ParkingRetrievalBehavior, PickupConfig};
use crate::controller;
use crate::effects::{CallInfo, DriverEffect};
use crate::features;
use crate::ids::{CallId, DeviceId};
use crate::lookup;
use crate::model::{CallDirection, CallState, Codec, LineBinding};
use crate::prompts::Prompt;
use crate::text::{self, decimal_text, same_text};

verus! {

/// What a pickup key asks for.
#[derive(Debug, PartialEq, Eq)]
pub enum PickupKeyAction<'a> {
    /// Refuse the pickup, see [`reject_pickup`].
    Reject(PickupRejection),
    /// Ask for an extension.
    Directed { permitted: bool, enabled: bool, context: &'a String, answer: bool },
    Group { permitted: bool, answer: bool },
}

/// The line belongs to a pickup group.
pub open spec fn pickup_permitted(pickup: PickupConfig) -> bool {
    pickup.pickup_groups@.len() > 0 || pickup.named_pickup_groups@.len() > 0
}

pub open spec fn pickup_key_spec<'a>(
    shared: Shared,
    device: Seq<char>,
    line_instance: u32,
    directed: bool,
) -> PickupKeyAction<'a> {
    match shared.binding_spec(device, line_instance) {
        None => PickupKeyAction::Reject(PickupRejection::Unavailable),
        Some(binding) => match lookup::first(
            shared.config.line_features@,
            config::features_of_line(binding.line.number@),
        ) {
            None => PickupKeyAction::Reject(PickupRejection::Unavailable),
            Some(features) => {
                let permitted = pickup_permitted(features.pickup);
                let answer = features.pickup.answer_directed;
                if directed {
                    PickupKeyAction::Directed {
                        permitted,
                        enabled: features.pickup.directed,
                        context: match features.pickup.directed_context {
                            Some(context) => &context,
                            None => &binding.line.context,
                        },
                        answer,
                    }
                } else {
                    PickupKeyAction::Group { permitted, answer }
                }
            },
        },
    }
}

/// Decides what a pickup key asks for.
pub fn handle_pickup_soft_key<'a>(
    access: &'a Access,
    device_id: &DeviceId,
    line_instance: u32,
    directed: bool,
) -> (action: PickupKeyAction<'a>)
    ensures
        action == pickup_key_spec::<'a>(access.shared, device_id@, line_instance, directed),
{
    let binding = match access.line_binding(device_id, line_instance) {
        Some(binding) => binding,
        None => return PickupKeyAction::Reject(PickupRejection::Unavailable),
    };
    let pickup = match access.shared.config.features_for_line(binding.line.number.as_str()) {
        Some(features) => &features.pickup,
        None => return PickupKeyAction::Reject(PickupRejection::Unavailable),
    };
    let permitted = pickup.pickup_groups.len() > 0 || pickup.named_pickup_groups.len() > 0;
    if directed {
        PickupKeyAction::Directed {
            permitted,
            enabled: pickup.directed,
            context: match &pickup.directed_context {
                Some(context) => context,
                None => &binding.line.context,
            },
            answer: pickup.answer_directed,
        }
    } else {
        PickupKeyAction::Group { permitted, answer: pickup.answer_directed }
    }
}

/// A directed pickup that may begin asks for the extension.
pub fn prompt_for_pickup(device_id: DeviceId, call_id: CallId) -> (command: PhoneCommand)
    ensures
        command == commands::prompt_command(device_id, call_id, 0, Prompt::EnterPickupExtension),
{
    show_prompt(device_id, call_id, 0, Prompt::EnterPickupExtension)
}

#[derive(Clone, Copy, Debug, PartialEq, Eq, Structural)]
pub enum PickupRejection {
    Permission,
    Disabled,
    Conflict,
    Unavailable,
}

pub open spec fn pickup_prompt_spec(rejection: PickupRejection) -> Prompt {
    match rejection {
        PickupRejection::Permission => Prompt::PickupNotPermitted,
        PickupRejection::Disabled => Prompt::DirectedPickupDisabled,
        PickupRejection::Conflict => Prompt::AnotherPickupAttemptWon,
        PickupRejection::Unavailable => Prompt::PickupUnavailable,
    }
}

/// A refused pickup: what is shown, and how the call that was begun for it is
/// closed.
#[derive(Debug, PartialEq, Eq)]
pub struct RejectedPickup {
    pub prompt: PhoneCommand,
    /// The call is hung up, then closed.
    pub close: Option<PhoneCommand>,
}

/// Refuses a pickup. A call that still collects digits is ended with it.
pub fn reject_pickup(
    access: &Access,
    device_id: DeviceId,
    call_id: CallId,
    rejection: PickupRejection,
) -> (rejected: RejectedPickup)
    ensures
        rejected == (RejectedPickup {
            prompt: commands::prompt_command(
                device_id,
                call_id,
                4,
                pickup_prompt_spec(rejection),
            ),
            close: if access.shared.controller.call_state_spec(call_id) == Some(
                CallState::Collecting,
            ) {
                Some(commands::close_command(device_id, call_id))
            } else {
                None
            },
        }),
{
    let prompt = match rejection {
        PickupRejection::Permission => Prompt::PickupNotPermitted,
        PickupRejection::Disabled => Prompt::DirectedPickupDisabled,
        PickupRejection::Conflict => Prompt::AnotherPickupAttemptWon,
        PickupRejection::Unavailable => Prompt::PickupUnavailable,
    };
    let collecting = match access.shared.controller.call_state(call_id) {
        Some(CallState::Collecting) => true,
        _ => false,
    };
    RejectedPickup {
        prompt: show_prompt(device_id.clone(), call_id, 4, prompt),
        close: if collecting {
            Some(close_call(device_id, call_id))
        } else {
            None
        },
    }
}

/// What parking a call asks for.
#[derive(Debug, PartialEq, Eq)]
pub enum ParkAction<'a> {
    Reject(ParkingRejection),
    Prepare { enabled: bool, lot: Option<&'a String> },
}

pub open spec fn park_spec<'a>(
    shared: Shared,
    device: Seq<char>,
    line_instance: u32,
    button_lot: Option<&'a String>,
) -> ParkAction<'a> {
    let enabled = match lookup::first(shared.config.devices@, config::is_device(device)) {
        Some(found) => found.parking_enabled,
        None => false,
    };
    match shared.binding_spec(device, line_instance) {
        None => ParkAction::Reject(ParkingRejection::Unavailable),
        Some(binding) => ParkAction::Prepare {
            enabled,
            lot: match button_lot {
                Some(lot) => Some(lot),
                None => match lookup::first(
                    shared.config.line_features@,
                    config::features_of_line(binding.line.number@),
                ) {
                    Some(features) => match features.parking_lot {
                        Some(lot) => Some(&lot),
                        None => None,
                    },
                    None => None,
                },
            },
        },
    }
}

/// Decides what parking a call asks for: the lot of the button, else that of
/// the line.
pub fn handle_park_request<'a>(
    access: &'a Access,
    device_id: &DeviceId,
    line_instance: u32,
    button_lot: Option<&'a String>,
) -> (action: ParkAction<'a>)
    ensures
        action == park_spec(access.shared, device_id@, line_instance, button_lot),
{
    let enabled = match access.shared.config.device(device_id) {
        Some(found) => found.parking_enabled,
        None => false,
    };
    let binding = match access.line_binding(device_id, line_instance) {
        Some(binding) => binding,
        None => return ParkAction::Reject(ParkingRejection::Unavailable),
    };
    let lot = match button_lot {
        Some(lot) => Some(lot),
        None => match access.shared.config.features_for_line(binding.line.number.as_str()) {
            Some(features) => match &features.parking_lot {
                Some(lot) => Some(lot),
                None => None,
            },
            None => None,
        },
    };
    ParkAction::Prepare { enabled, lot }
}

pub open spec fn parking_prompt_spec(rejection: ParkingRejection) -> Prompt {
    match rejection {
        ParkingRejection::Disabled => Prompt::ParkingDisabled,
        ParkingRejection::Conflict => Prompt::CallCannotBeParked,
        ParkingRejection::Unavailable => Prompt::ParkingUnavailable,
    }
}

/// Refuses to park a call.
pub fn reject_parking(device_id: DeviceId, call_id: CallId, rejection: ParkingRejection) ->
    (command: PhoneCommand)
    ensures
        command == commands::prompt_command(
            device_id,
            call_id,
            4,
            parking_prompt_spec(rejection),
        ),
{
    let prompt = match rejection {
        ParkingRejection::Disabled => Prompt::ParkingDisabled,
        ParkingRejection::Conflict => Prompt::CallCannotBeParked,
        ParkingRejection::Unavailable => Prompt::ParkingUnavailable,
    };
    show_prompt(device_id, call_id, 4, prompt)
}

/// What is shown once the controller has answered: that the call is being
/// parked, for as long as that may take, or why not. A refusal without a reason
/// counts as unavailable.
pub fn finish_park_request(
    device_id: DeviceId,
    call_id: CallId,
    confirm_seconds: u32,
    accepted: bool,
    rejection: Option<ParkingRejection>,
) -> (command: PhoneCommand)
    ensures
        command == if accepted {
            commands::prompt_command(device_id, call_id, confirm_seconds, Prompt::ParkingCall)
        } else {
            commands::prompt_command(
                device_id,
                call_id,
                4,
                parking_prompt_spec(
                    match rejection {
                        Some(rejection) => rejection,
                        None => ParkingRejection::Unavailable,
                    },
                ),
            )
        },
{
    if accepted {
        show_prompt(device_id, call_id, confirm_seconds, Prompt::ParkingCall)
    } else {
        let rejection = match rejection {
            Some(rejection) => rejection,
            None => ParkingRejection::Unavailable,
        };
        reject_parking(device_id, call_id, rejection)
    }
}

/// A call that waits in a parking lot.
#[derive(Debug, PartialEq, Eq)]
pub struct ParkedCall {
    pub lot: String,
    pub slot: u32,
    pub parkee_unique_id: String,
    pub caller_name: String,
    pub caller_number: String,
    pub connected_name: String,
    pub connected_number: String,
}

impl Clone for ParkedCall {
    fn clone(&self) -> (copy: Self)
        ensures
            copy == *self,
    {
        ParkedCall {
            lot: self.lot.clone(),
            slot: self.slot,
            parkee_unique_id: self.parkee_unique_id.clone(),
            caller_name: self.caller_name.clone(),
            caller_number: self.caller_number.clone(),
            connected_name: self.connected_name.clone(),
            connected_number: self.connected_number.clone(),
        }
    }
}

/// The calls that wait in a lot, in the order in which they are known.
pub fn calls_in_lot(parked: &Vec<ParkedCall>, lot: &str) -> (calls: Vec<ParkedCall>)
    ensures
        calls@ == parked@.filter(waits_in(lot@)),
{
    let ghost p = waits_in(lot@);
    let mut calls: Vec<ParkedCall> = Vec::new();
    let mut i: usize = 0;
    proof {
        assert(parked@.take(0).filter(p) =~= Seq::<ParkedCall>::empty()) by {
            reveal(Seq::filter);
        }
    }
    while i < parked.len()
        invariant
            p == waits_in(lot@),
            0 <= i <= parked@.len(),
            calls@ == parked@.take(i as int).filter(p),
        decreases parked@.len() - i,
    {
        proof {
            lookup::lemma_filter_step(parked@, p, i as int);
        }
        if same_text(parked[i].lot.as_str(), lot) {
            calls.push(parked[i].clone());
        }
        i += 1;
    }
    proof {
        assert(parked@.take(i as int) =~= parked@);
    }
    calls
}

/// What a parking button asks for.
#[derive(Debug, PartialEq, Eq)]
pub enum ParkingButtonAction<'a> {
    Ignore,
    Park { call_id: CallId, lot: &'a String },
    Retrieve { lot: &'a String, slot: u32 },
    ShowMenu { lot: &'a String },
}

pub open spec fn parking_button_spec<'a>(
    shared: Shared,
    device: Seq<char>,
    instance: u32,
    key_call_id: Option<CallId>,
    parked: Seq<ParkedCall>,
) -> ParkingButtonAction<'a> {
    let button = match lookup::first(shared.config.devices@, config::is_device(device)) {
        Some(found) => lookup::first(found.parking_buttons@, features::parking_button_at(instance)),
        None => None,
    };
    match button {
        None => ParkingButtonAction::Ignore,
        Some(button) => match key_call_id {
            Some(call_id) if shared.controller.call_state_spec(call_id) == Some(
                CallState::Connected,
            ) => ParkingButtonAction::Park { call_id, lot: &button.lot },
            _ => {
                let waiting = parked.filter(waits_in(button.lot@));
                if waiting.len() == 1 && button.retrieval
                    == ParkingRetrievalBehavior::RetrieveSingle {
                    ParkingButtonAction::Retrieve { lot: &button.lot, slot: waiting[0].slot }
                } else {
                    ParkingButtonAction::ShowMenu { lot: &button.lot }
                }
            },
        },
    }
}

/// Decides what a parking button asks for: a connected call is parked; a single
/// parked call is retrieved where the button is for that; else the lot is shown.
/// `parked` are the calls in all lots; only those in the button's own count.
pub fn handle_parking_lot_button<'a>(
    access: &'a Access,
    device_id: &DeviceId,
    instance: u32,
    key_call_id: Option<CallId>,
    parked: &Vec<ParkedCall>,
) -> (action: ParkingButtonAction<'a>)
    ensures
        action == parking_button_spec::<'a>(
            access.shared,
            device_id@,
            instance,
            key_call_id,
            parked@,
        ),
{
    let found = match access.shared.config.device(device_id) {
        Some(found) => found,
        None => return ParkingButtonAction::Ignore,
    };
    let button = match find(
        &found.parking_buttons,
        |button: &ParkingLotButton| -> (found: bool)
            ensures
                found == (button.instance == instance)
            { button.instance == instance },
        Ghost(features::parking_button_at(instance)),
    ) {
        Some(button) => button,
        None => return ParkingButtonAction::Ignore,
    };
    match key_call_id {
        Some(call_id) => match access.shared.controller.call_state(call_id) {
            Some(CallState::Connected) => {
                return ParkingButtonAction::Park { call_id, lot: &button.lot };
            },
            _ => {},
        },
        None => {},
    }
    let waiting = calls_in_lot(parked, button.lot.as_str());
    if waiting.len() == 1 && button.retrieval == ParkingRetrievalBehavior::RetrieveSingle {
        ParkingButtonAction::Retrieve { lot: &button.lot, slot: waiting[0].slot }
    } else {
        ParkingButtonAction::ShowMenu { lot: &button.lot }
    }
}

/// A parked call as a menu shows it.
pub open spec fn menu_entry() -> spec_fn(ParkedCall) -> ParkingMenuEntry {
    |call: ParkedCall|
        ParkingMenuEntry {
            slot: call.slot,
            caller_name: call.caller_name,
            caller_number: call.caller_number,
            connected_name: call.connected_name,
            connected_number: call.connected_number,
        }
}

/// The calls that a menu shows: the first ones, as many as it has room for.
pub open spec fn menu_spec(calls: Seq<ParkedCall>, max_items: usize) -> Seq<ParkingMenuEntry> {
    let shown = if calls.len() < max_items {
        calls
    } else {
        calls.take(max_items as int)
    };
    shown.map_values(menu_entry())
}

/// Collects the calls that a menu shows.
pub fn parking_menu_entries(calls: &Vec<ParkedCall>, max_items: usize) -> (entries: Vec<
    ParkingMenuEntry,
>)
    ensures
        entries@ == menu_spec(calls@, max_items),
{
    let count: usize = if calls.len() < max_items {
        calls.len()
    } else {
        max_items
    };
    let mut entries: Vec<ParkingMenuEntry> = Vec::new();
    let mut i: usize = 0;
    while i < count
        invariant
            i <= count <= calls@.len(),
            entries@ == calls@.take(i as int).map_values(menu_entry()),
        decreases count - i,
    {
        entries.push(
            ParkingMenuEntry {
                slot: calls[i].slot,
                caller_name: calls[i].caller_name.clone(),
                caller_number: calls[i].caller_number.clone(),
                connected_name: calls[i].connected_name.clone(),
                connected_number: calls[i].connected_number.clone(),
            },
        );
        proof {
            assert(entries@ =~= calls@.take(i + 1).map_values(menu_entry()));
        }
        i += 1;
    }
    proof {
        assert(calls@.take(calls@.len() as int) =~= calls@);
    }
    entries
}

/// Shows the calls of a lot; `parked` are the calls in all lots.
pub fn show_parking_menu(
    device_id: DeviceId,
    instance: u32,
    lot: &String,
    parked: &Vec<ParkedCall>,
    max_items: usize,
) -> (command: PhoneCommand)
    ensures
        command.device_id == device_id,
        match command.action {
            PhoneCommandAction::ShowParkingMenu {
                instance: on,
                transaction_id,
                lot: of,
                calls: shown,
            } => {
                &&& on == instance
                &&& transaction_id == instance
                &&& of == *lot
                &&& shown@ == menu_spec(parked@.filter(waits_in(lot@)), max_items)
            },
            _ => false,
        },
{
    PhoneCommand::new(
        device_id,
        PhoneCommandAction::ShowParkingMenu {
            instance,
            transaction_id: instance,
            lot: lot.clone(),
            calls: parking_menu_entries(&calls_in_lot(parked, lot.as_str()), max_items),
        },
    )
}

/// What a retrieved call shows.
pub open spec fn is_retrieval_info(info: CallInfo, call: ParkedCall) -> bool {
    &&& info.direction == CallDirection::Inbound
    &&& info.calling_name == call.caller_name
    &&& info.calling_number == call.caller_number
    &&& info.called_name@ == if call.connected_name@.len() == 0 {
        "Parked call "@ + text::decimal(call.slot as nat)
    } else {
        call.connected_name@
    }
    &&& info.called_number@ == text::decimal(call.slot as nat)
    &&& info.party_restrictions == 0
}

/// What a retrieved call shows: who was parked, and where.
pub fn parking_retrieval_call_info(call: ParkedCall) -> (info: CallInfo)
    ensures
        is_retrieval_info(info, call),
{
    let length: usize = call.connected_name.as_str().unicode_len();
    let called_name = if length == 0 {
        let mut words = "Parked call ".to_owned();
        words.append(decimal_text(call.slot as u64).as_str());
        words
    } else {
        call.connected_name
    };
    CallInfo {
        direction: CallDirection::Inbound,
        calling_name: call.caller_name,
        calling_number: call.caller_number,
        called_name,
        called_number: decimal_text(call.slot as u64),
        party_restrictions: 0,
    }
}

/// Where a retrieval stands.
#[derive(Clone, Copy, Debug, PartialEq, Eq, Structural)]
pub enum RetrievalState {
    Reserving,
    Claiming,
    Beginning,
    Preparing,
    Executing,
    Done,
}

/// What a retrieval is about.
#[derive(Debug, PartialEq, Eq)]
pub struct Retrieval {
    pub device_id: DeviceId,
    pub call_id: CallId,
    pub line_instance: u32,
    pub codec: Codec,
}

#[derive(Clone, Copy, Debug, PartialEq, Eq)]
pub enum RetrievalReply {
    /// The new call has its number.
    Reserved,
    Claimed(bool),
    /// The handset confirmed that it began the call.
    Begun(bool),
    Prepared,
    /// The controller does not know the call.
    Lost,
    Refused(ParkingRejection),
    /// The effects were executed, or why not.
    Executed(Result<(), ServiceProviderError>),
}

#[derive(Debug, PartialEq, Eq)]
pub enum RetrievalAction {
    Claim,
    Send(PhoneCommand),
    Prepare,
    ExecuteEffects,
    /// Give the slot up; the retrieval fails.
    Release(ServiceProviderError),
    /// Give the slot up and close the call; the retrieval fails.
    ReleaseAndClose { command: PhoneCommand, error: ServiceProviderError },
    Fail(ServiceProviderError),
    Succeed(CallId),
}

pub open spec fn begin_call_command(retrieval: Retrieval) -> PhoneCommand {
    PhoneCommand {
        device_id: retrieval.device_id,
        action: PhoneCommandAction::BeginCall {
            line_instance: retrieval.line_instance,
            call_id: retrieval.call_id,
            codec: retrieval.codec,
        },
    }
}

pub open spec fn retrieval_spec(
    retrieval: Retrieval,
    state: RetrievalState,
    reply: RetrievalReply,
) -> (RetrievalState, RetrievalAction) {
    let close = commands::close_command(retrieval.device_id, retrieval.call_id);
    match (state, reply) {
        (RetrievalState::Reserving, RetrievalReply::Reserved) => (
            RetrievalState::Claiming,
            RetrievalAction::Claim,
        ),
        (RetrievalState::Claiming, RetrievalReply::Claimed(true)) => (
            RetrievalState::Beginning,
            RetrievalAction::Send(begin_call_command(retrieval)),
        ),
        (RetrievalState::Claiming, RetrievalReply::Claimed(false)) => (
            RetrievalState::Done,
            RetrievalAction::Fail(ServiceProviderError::ParkingConflict),
        ),
        (RetrievalState::Beginning, RetrievalReply::Begun(true)) => (
            RetrievalState::Preparing,
            RetrievalAction::Prepare,
        ),
        (RetrievalState::Beginning, RetrievalReply::Begun(false)) => (
            RetrievalState::Done,
            RetrievalAction::Release(ServiceProviderError::Delivery),
        ),
        (RetrievalState::Preparing, RetrievalReply::Prepared) => (
            RetrievalState::Executing,
            RetrievalAction::ExecuteEffects,
        ),
        (RetrievalState::Preparing, RetrievalReply::Lost) => (
            RetrievalState::Done,
            RetrievalAction::ReleaseAndClose {
                command: close,
                error: ServiceProviderError::ParkingConflict,
            },
        ),
        (RetrievalState::Preparing, RetrievalReply::Refused(rejection)) => (
            RetrievalState::Done,
            RetrievalAction::ReleaseAndClose {
                command: close,
                error: ServiceProviderError::Parking(rejection),
            },
        ),
        (RetrievalState::Executing, RetrievalReply::Executed(Ok(()))) => (
            RetrievalState::Done,
            RetrievalAction::Succeed(retrieval.call_id),
        ),
        (RetrievalState::Executing, RetrievalReply::Executed(Err(error))) => (
            RetrievalState::Done,
            RetrievalAction::Fail(error),
        ),
        _ => (RetrievalState::Done, RetrievalAction::Fail(ServiceProviderError::CallState)),
    }
}

/// The line that a retrieved call appears on: the one that was asked for, else
/// the first of the station.
pub open spec fn retrieval_binding_spec(shared: Shared, device: Seq<char>, requested: u32) -> Option<
    LineBinding,
> {
    if requested == 0 {
        lookup::first(shared.config.bindings@, config::stands_on(device))
    } else {
        shared.binding_spec(device, requested)
    }
}

/// The line that a retrieved call appears on.
pub fn retrieval_binding<'a>(access: &'a Access, device_id: &DeviceId, requested: u32) -> (binding:
    Option<&'a LineBinding>)
    ensures
        lookup::target(binding) == retrieval_binding_spec(access.shared, device_id@, requested),
{
    if requested == 0 {
        access.shared.config.first_appearance(device_id)
    } else {
        access.line_binding(device_id, requested)
    }
}

/// The call waits in this slot.
pub open spec fn waits_at(lot: Seq<char>, slot: u32) -> spec_fn(ParkedCall) -> bool {
    |call: ParkedCall| call.lot@ == lot && call.slot == slot
}

/// How a retrieval begins.
#[derive(Debug, PartialEq, Eq)]
pub enum RetrievalBegun<'a> {
    Fail(ServiceProviderError),
    /// Show which slots are taken; the retrieval fails.
    PublishLot(ServiceProviderError),
    /// Reserve a number for the new call, which appears on this line.
    Reserve { line_instance: u32, codec: Codec, call: &'a ParkedCall },
}

/// Begins to retrieve a parked call. Without a line or a codec for it the call
/// cannot be taken; only then is it looked for. `codec` is the codec of a call on
/// the line that [`retrieval_binding`] finds.
pub fn begin_parking_retrieval<'a>(
    access: &Access,
    device_id: &DeviceId,
    requested: u32,
    codec: Option<Codec>,
    parked: &'a Vec<ParkedCall>,
    lot: &str,
    slot: u32,
) -> (begun: RetrievalBegun<'a>)
    ensures
        match (retrieval_binding_spec(access.shared, device_id@, requested), codec) {
            (Some(binding), Some(codec)) => match lookup::first(parked@, waits_at(lot@, slot)) {
                Some(waiting) => begun == (RetrievalBegun::Reserve {
                    line_instance: binding.line_instance,
                    codec,
                    call: &waiting,
                }),
                None => begun == RetrievalBegun::PublishLot(ServiceProviderError::ParkingNotFound),
            },
            _ => begun == RetrievalBegun::Fail(ServiceProviderError::CallState),
        },
{
    match (retrieval_binding(access, device_id, requested), codec) {
        (Some(binding), Some(codec)) => {
            match find(
                parked,
                |call: &ParkedCall| -> (found: bool)
                    ensures
                        found == (call.lot@ == lot@ && call.slot == slot)
                    { same_text(call.lot.as_str(), lot) && call.slot == slot },
                Ghost(waits_at(lot@, slot)),
            ) {
                Some(call) => RetrievalBegun::Reserve {
                    line_instance: binding.line_instance,
                    codec,
                    call,
                },
                None => RetrievalBegun::PublishLot(ServiceProviderError::ParkingNotFound),
            }
        },
        _ => RetrievalBegun::Fail(ServiceProviderError::CallState),
    }
}

/// Goes on with a retrieval.
pub fn continue_parking_retrieval(
    retrieval: &Retrieval,
    state: RetrievalState,
    reply: RetrievalReply,
) -> (step: (RetrievalState, RetrievalAction))
    ensures
        step == retrieval_spec(*retrieval, state, reply),
{
    match (state, reply) {
        (RetrievalState::Reserving, RetrievalReply::Reserved) => (
            RetrievalState::Claiming,
            RetrievalAction::Claim,
        ),
        (RetrievalState::Claiming, RetrievalReply::Claimed(true)) => (
            RetrievalState::Beginning,
            RetrievalAction::Send(
                PhoneCommand::new(
                    retrieval.device_id.clone(),
                    PhoneCommandAction::BeginCall {
                        line_instance: retrieval.line_instance,
                        call_id: retrieval.call_id,
                        codec: retrieval.codec,
                    },
                ),
            ),
        ),
        (RetrievalState::Claiming, RetrievalReply::Claimed(false)) => (
            RetrievalState::Done,
            RetrievalAction::Fail(ServiceProviderError::ParkingConflict),
        ),
        (RetrievalState::Beginning, RetrievalReply::Begun(true)) => (
            RetrievalState::Preparing,
            RetrievalAction::Prepare,
        ),
        (RetrievalState::Beginning, RetrievalReply::Begun(false)) => (
            RetrievalState::Done,
            RetrievalAction::Release(ServiceProviderError::Delivery),
        ),
        (RetrievalState::Preparing, RetrievalReply::Prepared) => (
            RetrievalState::Executing,
            RetrievalAction::ExecuteEffects,
        ),
        (RetrievalState::Preparing, RetrievalReply::Lost) => (
            RetrievalState::Done,
            RetrievalAction::ReleaseAndClose {
                command: close_call(retrieval.device_id.clone(), retrieval.call_id),
                error: ServiceProviderError::ParkingConflict,
            },
        ),
        (RetrievalState::Preparing, RetrievalReply::Refused(rejection)) => (
            RetrievalState::Done,
            RetrievalAction::ReleaseAndClose {
                command: close_call(retrieval.device_id.clone(), retrieval.call_id),
                error: ServiceProviderError::Parking(rejection),
            },
        ),
        (RetrievalState::Executing, RetrievalReply::Executed(Ok(()))) => (
            RetrievalState::Done,
            RetrievalAction::Succeed(retrieval.call_id),
        ),
        (RetrievalState::Executing, RetrievalReply::Executed(Err(error))) => (
            RetrievalState::Done,
            RetrievalAction::Fail(error),
        ),
        _ => (RetrievalState::Done, RetrievalAction::Fail(ServiceProviderError::CallState)),
    }
}

/// A text that a parking event shows on a call.
#[derive(Debug, PartialEq, Eq)]
pub struct ParkingPrompt {
    pub device_id: DeviceId,
    pub call_id: CallId,
    pub timeout_seconds: u32,
    pub text: String,
}

/// A call that a parking event ends on a handset.
#[derive(Debug, PartialEq, Eq)]
pub struct ParkingClosure {
    pub device_id: DeviceId,
    pub call_id: CallId,
}

/// What the controller makes of a parking event.
#[derive(Debug, PartialEq, Eq)]
pub struct ParkingUpdate {
    /// Channels whose events are no longer waited for.
    pub retired_peers: Vec<String>,
    pub effects: Vec<DriverEffect>,
    pub prompts: Vec<ParkingPrompt>,
    pub close: Vec<ParkingClosure>,
}

/// One thing to do after a parking event.
#[derive(Debug, PartialEq, Eq)]
pub enum ParkingEventTask {
    RetirePeer(String),
    /// Execute the effects; those that fail do not stop the others.
    ExecuteEffects(Vec<DriverEffect>),
    Send(PhoneCommand),
    /// Show whether calls wait in the lot, see [`publish_parking_lot`].
    PublishLot { lot: String },
}

pub open spec fn peer_retired() -> spec_fn(String) -> ParkingEventTask {
    |peer: String| ParkingEventTask::RetirePeer(peer)
}

pub open spec fn prompt_shown() -> spec_fn(ParkingPrompt) -> ParkingEventTask {
    |prompt: ParkingPrompt|
        ParkingEventTask::Send(
            PhoneCommand {
                device_id: prompt.device_id,
                action: PhoneCommandAction::DisplayText {
                    call_id: prompt.call_id,
                    timeout_seconds: prompt.timeout_seconds,
                    text: prompt.text,
                },
            },
        )
}

pub open spec fn closure_sent() -> spec_fn(ParkingClosure) -> ParkingEventTask {
    |closure: ParkingClosure|
        ParkingEventTask::Send(commands::close_command(closure.device_id, closure.call_id))
}

/// The tasks of an update: peers, effects, texts, closures.
pub open spec fn update_tasks(update: ParkingUpdate) -> Seq<ParkingEventTask> {
    update.retired_peers@.map_values(peer_retired()) + seq![
        ParkingEventTask::ExecuteEffects(update.effects),
    ] + update.prompts@.map_values(prompt_shown()) + update.close@.map_values(closure_sent())
}

/// Lists what an update asks for.
pub fn execute_parking_update(update: ParkingUpdate) -> (tasks: Vec<ParkingEventTask>)
    ensures
        tasks@ == update_tasks(update),
{
    let ParkingUpdate { retired_peers, effects, prompts, close } = update;
    let mut tasks: Vec<ParkingEventTask> = Vec::new();
    let mut k: usize = 0;
    while k < retired_peers.len()
        invariant
            0 <= k <= retired_peers@.len(),
            tasks@ == retired_peers@.take(k as int).map_values(peer_retired()),
        decreases retired_peers@.len() - k,
    {
        tasks.push(ParkingEventTask::RetirePeer(retired_peers[k].clone()));
        proof {
            assert(tasks@ =~= retired_peers@.take(k + 1).map_values(peer_retired()));
        }
        k += 1;
    }
    proof {
        assert(retired_peers@.take(k as int) =~= retired_peers@);
    }
    tasks.push(ParkingEventTask::ExecuteEffects(effects));
    let ghost executed = tasks@;
    proof {
        assert(executed =~= executed + prompts@.take(0).map_values(prompt_shown()));
    }
    let mut i: usize = 0;
    while i < prompts.len()
        invariant
            0 <= i <= prompts@.len(),
            tasks@ == executed + prompts@.take(i as int).map_values(prompt_shown()),
        decreases prompts@.len() - i,
    {
        tasks.push(
            ParkingEventTask::Send(
                PhoneCommand::new(
                    prompts[i].device_id.clone(),
                    PhoneCommandAction::DisplayText {
                        call_id: prompts[i].call_id,
                        timeout_seconds: prompts[i].timeout_seconds,
                        text: prompts[i].text.clone(),
                    },
                ),
            ),
        );
        proof {
            assert(tasks@ =~= executed + prompts@.take(i + 1).map_values(prompt_shown()));
        }
        i += 1;
    }
    proof {
        assert(prompts@.take(i as int) =~= prompts@);
    }
    let ghost shown = tasks@;
    proof {
        assert(shown =~= shown + close@.take(0).map_values(closure_sent()));
    }
    let mut j: usize = 0;
    while j < close.len()
        invariant
            0 <= j <= close@.len(),
            tasks@ == shown + close@.take(j as int).map_values(closure_sent()),
        decreases close@.len() - j,
    {
        tasks.push(
            ParkingEventTask::Send(close_call(close[j].device_id.clone(), close[j].call_id)),
        );
        proof {
            assert(tasks@ =~= shown + close@.take(j + 1).map_values(closure_sent()));
        }
        j += 1;
    }
    proof {
        assert(close@.take(j as int) =~= close@);
    }
    tasks
}

/// The switch parked a call or let one go.
#[derive(Debug, PartialEq, Eq)]
pub struct ParkingEvent {
    pub lot: String,
    pub slot: u32,
    /// The channel that took the call, by its name.
    pub retriever_channel: String,
}

/// Have the controller take an event in, with the call of the handset that
/// retrieved.
#[derive(Debug, PartialEq, Eq)]
pub struct ApplyParkingEvent {
    pub event: ParkingEvent,
    pub retriever: Option<CallId>,
}

/// Begins to answer a parking event; `retriever` is the handset's call whose
/// channel the event names. The lot is kept for [`parking_event_applied`].
pub fn handle_parking_event(event: ParkingEvent, retriever: Option<CallId>) -> (step: (
    String,
    ApplyParkingEvent,
))
    ensures
        step.0@ == event.lot@,
        step.1 == (ApplyParkingEvent { event, retriever }),
{
    (event.lot.clone(), ApplyParkingEvent { event, retriever })
}

/// What follows an event: the update that the controller made, if it made one,
/// then the state of the lot.
pub open spec fn applied_tasks(lot: String, update: Option<ParkingUpdate>) -> Seq<
    ParkingEventTask,
> {
    (match update {
        Some(update) => update_tasks(update),
        None => Seq::empty(),
    }).push(ParkingEventTask::PublishLot { lot })
}

/// Goes on once the controller has taken an event in, or failed to: the update
/// comes first, and the lot is published either way.
pub fn parking_event_applied(lot: String, update: Option<ParkingUpdate>) -> (tasks: Vec<
    ParkingEventTask,
>)
    ensures
        tasks@ == applied_tasks(lot, update),
{
    let mut tasks = match update {
        Some(update) => execute_parking_update(update),
        None => Vec::new(),
    };
    tasks.push(ParkingEventTask::PublishLot { lot });
    tasks
}

/// What a button for a lot shows, on one station.
pub open spec fn lot_status(device_id: DeviceId, lot: Seq<char>, occupied: bool) -> spec_fn(
    ParkingLotButton,
) -> Option<PhoneCommand> {
    |button: ParkingLotButton|
        if button.lot@ == lot {
            Some(
                PhoneCommand {
                    device_id,
                    action: PhoneCommandAction::SetFeatureStatus {
                        instance: button.instance,
                        enabled: occupied,
                    },
                },
            )
        } else {
            None
        }
}

/// What the buttons for a lot show on the first `n` stations.
pub open spec fn lot_statuses(
    devices: Seq<DeviceConfig>,
    lot: Seq<char>,
    occupied: bool,
    n: nat,
) -> Seq<PhoneCommand>
    decreases n,
{
    if n == 0 || n > devices.len() {
        Seq::empty()
    } else {
        let device = devices[n - 1];
        lot_statuses(devices, lot, occupied, (n - 1) as nat)
            + device.parking_buttons@.filter_map(lot_status(device.id, lot, occupied))
    }
}

/// The call waits in this lot.
pub open spec fn waits_in(lot: Seq<char>) -> spec_fn(ParkedCall) -> bool {
    |call: ParkedCall| call.lot@ == lot
}

/// Whether calls wait in a lot.
pub fn lot_has_calls(parked: &Vec<ParkedCall>, lot: &str) -> (occupied: bool)
    ensures
        occupied == lookup::some(parked@, waits_in(lot@)),
{
    any(
        parked,
        |call: &ParkedCall| -> (waits: bool)
            ensures
                waits == (call.lot@ == lot@)
            { same_text(call.lot.as_str(), lot) },
        Ghost(waits_in(lot@)),
    )
}

/// Tells every station with a button for a lot whether calls wait there.
pub fn publish_parking_lot(access: &Access, lot: &str, parked: &Vec<ParkedCall>) -> (sent: Vec<
    PhoneCommand,
>)
    ensures
        sent@ == lot_statuses(
            access.shared.config.devices@,
            lot@,
            lookup::some(parked@, waits_in(lot@)),
            access.shared.config.devices@.len(),
        ),
{
    let occupied = lot_has_calls(parked, lot);
    let devices = &access.shared.config.devices;
    let mut sent: Vec<PhoneCommand> = Vec::new();
    let mut i: usize = 0;
    while i < devices.len()
        invariant
            0 <= i <= devices@.len(),
            sent@ == lot_statuses(devices@, lot@, occupied, i as nat),
        decreases devices@.len() - i,
    {
        let device = &devices[i];
        let ghost status = lot_status(device.id, lot@, occupied);
        let ghost head = sent@;
        let mut more = collect::gather(
            &device.parking_buttons,
            device.parking_buttons.len(),
            |button: &ParkingLotButton| -> (command: Option<PhoneCommand>)
                ensures
                    command == lot_status(device.id, lot@, occupied)(*button)
                {
                    if same_text(button.lot.as_str(), lot) {
                        Some(
                            PhoneCommand::new(
                                device.id.clone(),
                                PhoneCommandAction::SetFeatureStatus {
                                    instance: button.instance,
                                    enabled: occupied,
                                },
                            ),
                        )
                    } else {
                        None
                    }
                },
            Ghost(status),
        );
        proof {
            assert(device.parking_buttons@.take(device.parking_buttons@.len() as int)
                =~= device.parking_buttons@);
        }
        sent.append(&mut more);
        i += 1;
    }
    sent
}

/// Whatever the controller makes of an event, the last thing done is to publish
/// the lot that the event is about, and it is published once.
pub proof fn law_parking_events_publish_their_lot(lot: String, update: Option<ParkingUpdate>)
    ensures
        applied_tasks(lot, update).last() == (ParkingEventTask::PublishLot { lot }),
        forall|i: int|
            0 <= i < applied_tasks(lot, update).len() - 1 ==> !((#[trigger] applied_tasks(
                lot,
                update,
            )[i]) is PublishLot),
{
}

/// A slot that was claimed is either retrieved or given up again: every way in
/// which a retrieval fails after the claim gives the slot up, except where its
/// effects fail.
pub proof fn law_claimed_slots_are_released(
    retrieval: Retrieval,
    state: RetrievalState,
    reply: RetrievalReply,
)
    requires
        state == RetrievalState::Beginning && reply == RetrievalReply::Begun(false) || state
            == RetrievalState::Preparing && (reply is Lost || reply is Refused),
    ensures
        retrieval_spec(retrieval, state, reply).1 is Release || retrieval_spec(
            retrieval,
            state,
            reply,
        ).1 is ReleaseAndClose,
{
}

/// A menu never shows more calls than it has room for, and shows them in the
/// order of the lot.
pub proof fn law_menus_have_bounds(calls: Seq<ParkedCall>, max_items: usize)
    ensures
        menu_spec(calls, max_items).len() <= max_items,
        menu_spec(calls, max_items).len() <= calls.len(),
        forall|i: int|
            0 <= i < menu_spec(calls, max_items).len() ==> #[trigger] menu_spec(
                calls,
                max_items,
            )[i] == menu_entry()(calls[i]),
{
}

/// A pickup needs a line with settings of its own. It is permitted to members of a
/// pickup group, numbered or named, and a directed one looks in the context that is
/// set for it, else in that of the line.
pub proof fn law_pickups_follow_the_settings_of_the_line<'a>(
    access: &'a Access,
    device_id: DeviceId,
    line_instance: u32,
    directed: bool,
    action: PickupKeyAction<'a>,
    i: int,
)
    requires
        call_ensures(
            handle_pickup_soft_key,
            (access, &device_id, line_instance, directed),
            action,
        ),
        access.shared.binding_spec(device_id@, line_instance) is Some,
        0 <= i <= access.shared.config.line_features@.len(),
        forall|j: int|
            0 <= j < i ==> (#[trigger] access.shared.config.line_features@[j]).line@
                != access.shared.binding_spec(device_id@, line_instance)->0.line.number@,
    ensures
        i == access.shared.config.line_features@.len() ==> action == PickupKeyAction::Reject(
            PickupRejection::Unavailable,
        ),
        i < access.shared.config.line_features@.len()
            && access.shared.config.line_features@[i].line@ == access.shared.binding_spec(
            device_id@,
            line_instance,
        )->0.line.number@ ==> {
            let pickup = access.shared.config.line_features@[i].pickup;
            let member = pickup.pickup_groups@.len() != 0 || pickup.named_pickup_groups@.len()
                != 0;
            &&& action is Directed <==> directed
            &&& action is Group <==> !directed
            &&& action matches PickupKeyAction::Group { permitted, answer } ==> (permitted
                <==> member) && answer == pickup.answer_directed
            &&& action matches PickupKeyAction::Directed { permitted, enabled, context, answer }
                ==> {
                &&& permitted <==> member
                &&& enabled == pickup.directed
                &&& answer == pickup.answer_directed
                &&& pickup.directed_context is Some ==> *context == pickup.directed_context->0
                &&& pickup.directed_context is None ==> *context == access.shared.binding_spec(
                    device_id@,
                    line_instance,
                )->0.line.context
            }
        },
{
    let number = access.shared.binding_spec(device_id@, line_instance)->0.line.number@;
    let p = config::features_of_line(number);
    if i == access.shared.config.line_features@.len() {
        lookup::lemma_first_none(access.shared.config.line_features@, p);
    } else if access.shared.config.line_features@[i].line@ == number {
        lookup::lemma_first_is(access.shared.config.line_features@, p, i);
    }
}

/// A refused pickup tells its reason on the call, and takes the call away exactly
/// if it was still being dialed.
pub proof fn law_refused_pickups_are_shown(
    access: &Access,
    device_id: DeviceId,
    call_id: CallId,
    rejection: PickupRejection,
    rejected: RejectedPickup,
    asked: PhoneCommand,
)
    requires
        call_ensures(reject_pickup, (access, device_id, call_id, rejection), rejected),
        call_ensures(prompt_for_pickup, (device_id, call_id), asked),
    ensures
        rejected.prompt.device_id == device_id,
        rejected.prompt.action matches PhoneCommandAction::DisplayPrompt {
            call_id: shown_on,
            timeout_seconds,
            prompt,
        } && shown_on == call_id && timeout_seconds == 4 && (prompt == Prompt::PickupNotPermitted
            <==> rejection == PickupRejection::Permission) && (prompt
            == Prompt::DirectedPickupDisabled <==> rejection == PickupRejection::Disabled) && (
        prompt == Prompt::AnotherPickupAttemptWon <==> rejection == PickupRejection::Conflict) && (
        prompt == Prompt::PickupUnavailable <==> rejection == PickupRejection::Unavailable),
        rejected.close is Some <==> access.shared.controller.call_state_spec(call_id) == Some(
            CallState::Collecting,
        ),
        rejected.close matches Some(command) ==> command.device_id == device_id && command.action
            == (PhoneCommandAction::CloseCall { call_id }),
        asked.device_id == device_id,
        asked.action == (PhoneCommandAction::DisplayPrompt {
            call_id,
            timeout_seconds: 0,
            prompt: Prompt::EnterPickupExtension,
        }),
{
}

/// A call is parked where the station may park, in the lot of the button that was
/// pressed, else in that of the line, else in no lot in particular.
pub proof fn law_calls_are_parked_in_the_lot_that_applies<'a>(
    access: &'a Access,
    device_id: DeviceId,
    line_instance: u32,
    button_lot: Option<&'a String>,
    action: ParkAction<'a>,
    d: int,
    i: int,
)
    requires
        call_ensures(
            handle_park_request,
            (access, &device_id, line_instance, button_lot),
            action,
        ),
        0 <= d < access.shared.config.devices@.len(),
        access.shared.config.devices@[d].id@ == device_id@,
        forall|j: int|
            0 <= j < d ==> (#[trigger] access.shared.config.devices@[j]).id@ != device_id@,
        access.shared.binding_spec(device_id@, line_instance) is Some ==> 0 <= i
            < access.shared.config.line_features@.len()
            && access.shared.config.line_features@[i].line@ == access.shared.binding_spec(
            device_id@,
            line_instance,
        )->0.line.number@ && forall|j: int|
            0 <= j < i ==> (#[trigger] access.shared.config.line_features@[j]).line@
                != access.shared.binding_spec(device_id@, line_instance)->0.line.number@,
    ensures
        action is Reject <==> access.shared.binding_spec(device_id@, line_instance) is None,
        action matches ParkAction::Reject(reason) ==> reason == ParkingRejection::Unavailable,
        action matches ParkAction::Prepare { enabled, lot } ==> {
            &&& enabled == access.shared.config.devices@[d].parking_enabled
            &&& button_lot is Some ==> lot == button_lot
            &&& button_lot is None ==> (lot is Some
                <==> access.shared.config.line_features@[i].parking_lot is Some)
            &&& button_lot is None && lot is Some ==> *lot->0
                == access.shared.config.line_features@[i].parking_lot->0
        },
{
    lookup::lemma_first_is(access.shared.config.devices@, config::is_device(device_id@), d);
    if let Some(binding) = access.shared.binding_spec(device_id@, line_instance) {
        lookup::lemma_first_is(
            access.shared.config.line_features@,
            config::features_of_line(binding.line.number@),
            i,
        );
    }
}

/// A parked call is announced for as long as was asked, and each reason to refuse
/// one has words of its own.
pub proof fn law_park_requests_are_answered(
    device_id: DeviceId,
    call_id: CallId,
    confirm_seconds: u32,
    accepted: bool,
    reason: Option<ParkingRejection>,
    rejection: ParkingRejection,
    answer: PhoneCommand,
    refusal: PhoneCommand,
)
    requires
        call_ensures(
            finish_park_request,
            (device_id, call_id, confirm_seconds, accepted, reason),
            answer,
        ),
        call_ensures(reject_parking, (device_id, call_id, rejection), refusal),
    ensures
        answer.device_id == device_id && refusal.device_id == device_id,
        answer.action matches PhoneCommandAction::DisplayPrompt {
            call_id: shown_on,
            timeout_seconds,
            prompt,
        } && shown_on == call_id && (prompt == Prompt::ParkingCall <==> accepted) && (accepted
            ==> timeout_seconds == confirm_seconds) && (!accepted ==> timeout_seconds == 4),
        refusal.action matches PhoneCommandAction::DisplayPrompt {
            call_id: shown_on,
            timeout_seconds,
            prompt,
        } && shown_on == call_id && timeout_seconds == 4 && (prompt == Prompt::ParkingDisabled
            <==> rejection == ParkingRejection::Disabled) && (prompt == Prompt::CallCannotBeParked
            <==> rejection == ParkingRejection::Conflict) && (prompt == Prompt::ParkingUnavailable
            <==> rejection == ParkingRejection::Unavailable),
        !accepted && reason == Some(rejection) ==> answer == refusal,
        !accepted && reason is None && rejection == ParkingRejection::Unavailable ==> answer
            == refusal,
{
}

/// A parking button parks the connected call. With none it retrieves the only call
/// that waits in its lot, where the button is set to, and lists the calls
/// otherwise.
pub proof fn law_parking_buttons_park_or_retrieve<'a>(
    access: &'a Access,
    device_id: DeviceId,
    instance: u32,
    key_call_id: Option<CallId>,
    parked: Vec<ParkedCall>,
    waiting: Vec<ParkedCall>,
    action: ParkingButtonAction<'a>,
    d: int,
    b: int,
)
    requires
        call_ensures(
            handle_parking_lot_button,
            (access, &device_id, instance, key_call_id, &parked),
            action,
        ),
        0 <= d < access.shared.config.devices@.len(),
        access.shared.config.devices@[d].id@ == device_id@,
        forall|j: int|
            0 <= j < d ==> (#[trigger] access.shared.config.devices@[j]).id@ != device_id@,
        0 <= b <= access.shared.config.devices@[d].parking_buttons@.len(),
        forall|j: int|
            0 <= j < b ==> (#[trigger] access.shared.config.devices@[d].parking_buttons@[j]).instance
                != instance,
        b < access.shared.config.devices@[d].parking_buttons@.len() ==> {
            &&& access.shared.config.devices@[d].parking_buttons@[b].instance == instance
            &&& waiting@ == parked@.filter(
                |call: ParkedCall|
                    call.lot@ == access.shared.config.devices@[d].parking_buttons@[b].lot@,
            )
        },
    ensures
        action is Ignore <==> b == access.shared.config.devices@[d].parking_buttons@.len(),
        !(action is Ignore) ==> {
            let button = access.shared.config.devices@[d].parking_buttons@[b];
            let connected = key_call_id is Some && access.shared.controller.call_state_spec(
                key_call_id->0,
            ) == Some(CallState::Connected);
            &&& action is Park <==> connected
            &&& action matches ParkingButtonAction::Park { call_id, lot } ==> key_call_id == Some(
                call_id,
            ) && *lot == button.lot
            &&& action is Retrieve <==> !connected && waiting@.len() == 1 && button.retrieval
                == ParkingRetrievalBehavior::RetrieveSingle
            &&& action matches ParkingButtonAction::Retrieve { lot, slot } ==> *lot == button.lot
                && slot == waiting@[0].slot
            &&& action matches ParkingButtonAction::ShowMenu { lot } ==> *lot == button.lot
        },
{
    lookup::lemma_first_is(access.shared.config.devices@, config::is_device(device_id@), d);
    let buttons = access.shared.config.devices@[d].parking_buttons@;
    let p = features::parking_button_at(instance);
    if b == buttons.len() {
        lookup::lemma_first_none(buttons, p);
    } else {
        lookup::lemma_first_is(buttons, p, b);
        let q = |call: ParkedCall| call.lot@ == buttons[b].lot@;
        assert(waits_in(buttons[b].lot@) =~= q);
    }
}

/// The menu of a lot lists the calls that wait in it, in their order, as many as
/// fit; every entry tells the slot and both parties of its call.
pub proof fn law_menus_list_the_calls_of_the_lot(
    device_id: DeviceId,
    instance: u32,
    lot: String,
    parked: Vec<ParkedCall>,
    waiting: Vec<ParkedCall>,
    max_items: usize,
    command: PhoneCommand,
)
    requires
        call_ensures(
            show_parking_menu,
            (device_id, instance, &lot, &parked, max_items),
            command,
        ),
        waiting@ == parked@.filter(|call: ParkedCall| call.lot@ == lot@),
    ensures
        command.device_id == device_id,
        command.action matches PhoneCommandAction::ShowParkingMenu {
            instance: on,
            lot: of,
            calls,
            ..
        } && on == instance && of == lot && calls@.len() <= max_items && calls@.len()
            <= waiting@.len() && (calls@.len() == max_items || calls@.len() == waiting@.len())
            && forall|i: int|
            #![trigger calls@[i]]
            0 <= i < calls@.len() ==> calls@[i].slot == waiting@[i].slot && calls@[i].caller_name
                == waiting@[i].caller_name && calls@[i].caller_number == waiting@[i].caller_number
                && calls@[i].connected_name == waiting@[i].connected_name
                && calls@[i].connected_number == waiting@[i].connected_number,
{
    let q = |call: ParkedCall| call.lot@ == lot@;
    assert(waits_in(lot@) =~= q);
}

/// A retrieved call shows the parked caller, the slot as the number and, where
/// nobody else is named, as the name of the other party.
pub proof fn law_retrieved_calls_show_the_parked_caller(call: ParkedCall, info: CallInfo)
    requires
        call_ensures(parking_retrieval_call_info, (call,), info),
    ensures
        info.direction == CallDirection::Inbound,
        info.calling_name == call.caller_name,
        info.calling_number == call.caller_number,
        info.called_number@ == text::decimal(call.slot as nat),
        call.connected_name@.len() != 0 ==> info.called_name@ == call.connected_name@,
        call.connected_name@.len() == 0 ==> info.called_name@ == "Parked call "@
            + info.called_number@,
        info.party_restrictions == 0,
{
}

/// A retrieval needs a line, the first one where none is asked for, and a codec. It
/// reserves the call in the slot of the lot; where none waits there, the lot is
/// published anew.
pub proof fn law_retrievals_reserve_the_waiting_call<'a>(
    access: &Access,
    device_id: DeviceId,
    requested: u32,
    codec: Option<Codec>,
    parked: &'a Vec<ParkedCall>,
    lot: &str,
    slot: u32,
    begun: RetrievalBegun<'a>,
    binding: Option<&LineBinding>,
    i: int,
    k: int,
)
    requires
        call_ensures(
            begin_parking_retrieval,
            (access, &device_id, requested, codec, parked, lot, slot),
            begun,
        ),
        call_ensures(retrieval_binding, (access, &device_id, requested), binding),
        0 <= i <= parked@.len(),
        forall|j: int|
            0 <= j < i ==> !((#[trigger] parked@[j]).lot@ == lot@ && parked@[j].slot == slot),
        i < parked@.len() ==> parked@[i].lot@ == lot@ && parked@[i].slot == slot,
        0 <= k <= access.shared.config.bindings@.len(),
        forall|j: int|
            0 <= j < k ==> (#[trigger] access.shared.config.bindings@[j]).device_id@
                != device_id@,
        k < access.shared.config.bindings@.len() ==> access.shared.config.bindings@[k].device_id@
            == device_id@,
    ensures
        requested == 0 ==> (binding is Some <==> k < access.shared.config.bindings@.len()),
        requested == 0 && binding is Some ==> *binding->0 == access.shared.config.bindings@[k],
        requested != 0 ==> lookup::target(binding) == access.shared.binding_spec(
            device_id@,
            requested,
        ),
        begun is Fail <==> binding is None || codec is None,
        begun is Reserve <==> binding is Some && codec is Some && i < parked@.len(),
        begun matches RetrievalBegun::Reserve { line_instance, codec: used, call }
            ==> line_instance == binding->0.line_instance && codec == Some(used) && *call
            == parked@[i],
        begun matches RetrievalBegun::PublishLot(error) ==> error
            == ServiceProviderError::ParkingNotFound,
        begun matches RetrievalBegun::Fail(error) ==> error == ServiceProviderError::CallState,
{
    let p = waits_at(lot@, slot);
    if i == parked@.len() {
        lookup::lemma_first_none(parked@, p);
    } else {
        lookup::lemma_first_is(parked@, p, i);
    }
    let q = config::stands_on(device_id@);
    if k == access.shared.config.bindings@.len() {
        lookup::lemma_first_none(access.shared.config.bindings@, q);
    } else {
        lookup::lemma_first_is(access.shared.config.bindings@, q, k);
    }
}

/// A retrieval that gets every answer it hopes for claims the call, begins it on
/// the station, prepares and performs it, in this order, and hands out the call.
pub proof fn law_retrievals_take_their_steps_in_order(
    retrieval: Retrieval,
    state: RetrievalState,
    reply: RetrievalReply,
    after: RetrievalState,
    action: RetrievalAction,
)
    requires
        call_ensures(continue_parking_retrieval, (&retrieval, state, reply), (after, action)),
    ensures
        action is Claim <==> state is Reserving && reply is Reserved,
        action is Send <==> state is Claiming && reply == RetrievalReply::Claimed(true),
        action is Prepare <==> state is Beginning && reply == RetrievalReply::Begun(true),
        action is ExecuteEffects <==> state is Preparing && reply is Prepared,
        action is Succeed <==> state is Executing && (reply matches RetrievalReply::Executed(done)
            && done is Ok),
        after is Claiming <==> action is Claim,
        after is Beginning <==> action is Send,
        after is Preparing <==> action is Prepare,
        after is Executing <==> action is ExecuteEffects,
        !(after is Reserving),
        action matches RetrievalAction::Send(command) ==> command.device_id == retrieval.device_id
            && command.action == (PhoneCommandAction::BeginCall {
            line_instance: retrieval.line_instance,
            call_id: retrieval.call_id,
            codec: retrieval.codec,
        }),
        action matches RetrievalAction::Succeed(call) ==> call == retrieval.call_id,
{
}

/// A retrieval that fails gives the claim back from the moment it has one until it
/// is performed, and takes the call off the station once the station has it.
pub proof fn law_failed_retrievals_are_undone(
    retrieval: Retrieval,
    state: RetrievalState,
    reply: RetrievalReply,
    after: RetrievalState,
    action: RetrievalAction,
)
    requires
        call_ensures(continue_parking_retrieval, (&retrieval, state, reply), (after, action)),
    ensures
        action is Release <==> state is Beginning && reply == RetrievalReply::Begun(false),
        action is ReleaseAndClose <==> state is Preparing && (reply is Lost || reply is Refused),
        action matches RetrievalAction::Release(error) ==> error == ServiceProviderError::Delivery,
        action matches RetrievalAction::ReleaseAndClose { command, error } ==> {
            &&& command.device_id == retrieval.device_id
            &&& command.action == (PhoneCommandAction::CloseCall { call_id: retrieval.call_id })
            &&& reply is Lost ==> error == ServiceProviderError::ParkingConflict
            &&& reply matches RetrievalReply::Refused(rejection) ==> error
                == ServiceProviderError::Parking(rejection)
        },
        state is Claiming && reply == RetrievalReply::Claimed(false) ==> action
            == RetrievalAction::Fail(ServiceProviderError::ParkingConflict),
        state is Executing ==> (reply matches RetrievalReply::Executed(Err(error)) ==> action
            == RetrievalAction::Fail(error)),
{
}

/// A report about a parked call is carried out whole: every peer is retired before
/// the effects, every prompt is shown and every call closed after them, and the lot
/// is published last, whatever there was to do.
pub proof fn law_parking_reports_are_carried_out(
    lot: String,
    update: Option<ParkingUpdate>,
    tasks: Vec<ParkingEventTask>,
    event: ParkingEvent,
    retriever: Option<CallId>,
    step: (String, ApplyParkingEvent),
)
    requires
        call_ensures(parking_event_applied, (lot, update), tasks),
        call_ensures(handle_parking_event, (event, retriever), step),
    ensures
        step.0@ == event.lot@,
        step.1.event == event && step.1.retriever == retriever,
        tasks@.len() > 0 && tasks@.last() == (ParkingEventTask::PublishLot { lot }),
        update is None ==> tasks@.len() == 1,
        update matches Some(update) ==> {
            let peers = update.retired_peers@.len() as int;
            let prompts = update.prompts@.len() as int;
            let closures = update.close@.len() as int;
            &&& tasks@.len() == peers + 1 + prompts + closures + 1
            &&& forall|i: int|
                #![trigger update.retired_peers@[i]]
                0 <= i < peers ==> tasks@[i] == ParkingEventTask::RetirePeer(
                    update.retired_peers@[i],
                )
            &&& tasks@[peers] == ParkingEventTask::ExecuteEffects(update.effects)
            &&& forall|i: int|
                #![trigger update.prompts@[i]]
                0 <= i < prompts ==> (tasks@[peers + 1 + i] matches ParkingEventTask::Send(command)
                    && command.device_id == update.prompts@[i].device_id && command.action == (
                PhoneCommandAction::DisplayText {
                    call_id: update.prompts@[i].call_id,
                    timeout_seconds: update.prompts@[i].timeout_seconds,
                    text: update.prompts@[i].text,
                }))
            &&& forall|i: int|
                #![trigger update.close@[i]]
                0 <= i < closures ==> (tasks@[peers + 1 + prompts + i] matches
                    ParkingEventTask::Send(command) && command.device_id
                    == update.close@[i].device_id && command.action == (
                PhoneCommandAction::CloseCall { call_id: update.close@[i].call_id }))
        },
{
}

/// Every button of the lot, on every station, is lit exactly if a call waits there;
/// the buttons of other lots are left alone.
pub proof fn law_lots_light_their_buttons(
    access: &Access,
    lot: &str,
    parked: Vec<ParkedCall>,
    sent: Vec<PhoneCommand>,
    command: PhoneCommand,
)
    requires
        call_ensures(publish_parking_lot, (access, lot, &parked), sent),
    ensures
        sent@.contains(command) <==> exists|d: int, b: int|
            #![trigger access.shared.config.devices@[d].parking_buttons@[b]]
            0 <= d < access.shared.config.devices@.len() && 0 <= b
                < access.shared.config.devices@[d].parking_buttons@.len()
                && access.shared.config.devices@[d].parking_buttons@[b].lot@ == lot@
                && command.device_id == access.shared.config.devices@[d].id && command.action == (
            PhoneCommandAction::SetFeatureStatus {
                instance: access.shared.config.devices@[d].parking_buttons@[b].instance,
                enabled: exists|i: int| 0 <= i < parked@.len() && (#[trigger] parked@[i]).lot@ == lot@,
            }),
{
    let occupied = lookup::some(parked@, waits_in(lot@));
    assert(occupied == exists|i: int|
        0 <= i < parked@.len() && (#[trigger] parked@[i]).lot@ == lot@) by {
        if occupied {
            let i = choose|i: int|
                0 <= i < parked@.len() && waits_in(lot@)(#[trigger] parked@[i]);
            assert(parked@[i].lot@ == lot@);
        }
        if exists|i: int| 0 <= i < parked@.len() && (#[trigger] parked@[i]).lot@ == lot@ {
            let i = choose|i: int| 0 <= i < parked@.len() && (#[trigger] parked@[i]).lot@ == lot@;
            assert(waits_in(lot@)(parked@[i]));
        }
    }
    lemma_lot_status_sent(
        access.shared.config.devices@,
        lot@,
        occupied,
        access.shared.config.devices@.len(),
        command,
    );
}

proof fn lemma_lot_status_sent(
    devices: Seq<DeviceConfig>,
    lot: Seq<char>,
    occupied: bool,
    n: nat,
    command: PhoneCommand,
)
    requires
        n <= devices.len(),
    ensures
        lot_statuses(devices, lot, occupied, n).contains(command) <==> exists|d: int, b: int|
            #![trigger devices[d].parking_buttons@[b]]
            0 <= d < n && 0 <= b < devices[d].parking_buttons@.len()
                && devices[d].parking_buttons@[b].lot@ == lot && command.device_id == devices[d].id
                && command.action == (PhoneCommandAction::SetFeatureStatus {
                instance: devices[d].parking_buttons@[b].instance,
                enabled: occupied,
            }),
    decreases n,
{
    if n > 0 {
        let device = devices[n - 1];
        let f = lot_status(device.id, lot, occupied);
        let before = lot_statuses(devices, lot, occupied, (n - 1) as nat);
        let here = device.parking_buttons@.filter_map(f);
        lemma_lot_status_sent(devices, lot, occupied, (n - 1) as nat, command);
        lookup::lemma_filter_map_member(device.parking_buttons@, f, command);
        let all = before + here;
        assert(all.contains(command) <==> before.contains(command) || here.contains(command)) by {
            if before.contains(command) {
                let k = choose|k: int| 0 <= k < before.len() && before[k] == command;
                assert(all[k] == command);
            }
            if here.contains(command) {
                let k = choose|k: int| 0 <= k < here.len() && here[k] == command;
                assert(all[before.len() + k] == command);
            }
        }
        if here.contains(command) {
            let b = choose|b: int|
                0 <= b < device.parking_buttons@.len() && f(
                    #[trigger] device.parking_buttons@[b],
                ) == Some(command);
            assert(devices[n - 1].parking_buttons@[b].lot@ == lot);
        }
        if exists|d: int, b: int|
            #![trigger devices[d].parking_buttons@[b]]
            0 <= d < n && 0 <= b < devices[d].parking_buttons@.len()
                && devices[d].parking_buttons@[b].lot@ == lot && command.device_id == devices[d].id
                && command.action == (PhoneCommandAction::SetFeatureStatus {
                instance: devices[d].parking_buttons@[b].instance,
                enabled: occupied,
            }) {
            let (d, b) = choose|d: int, b: int|
                #![trigger devices[d].parking_buttons@[b]]
                0 <= d < n && 0 <= b < devices[d].parking_buttons@.len()
                    && devices[d].parking_buttons@[b].lot@ == lot && command.device_id
                    == devices[d].id && command.action == (PhoneCommandAction::SetFeatureStatus {
                    instance: devices[d].parking_buttons@[b].instance,
                    enabled: occupied,
                });
            if d == n - 1 {
                assert(f(device.parking_buttons@[b]) == Some(command));
            }
        }
    }
}

/// The calls of a lot are those that wait in it, and a lot is occupied exactly if
/// there is one.
pub proof fn law_lots_have_the_calls_that_wait_in_them(
    parked: Vec<ParkedCall>,
    lot: &str,
    calls: Vec<ParkedCall>,
    occupied: bool,
    call: ParkedCall,
    i: int,
)
    requires
        call_ensures(calls_in_lot, (&parked, lot), calls),
        call_ensures(lot_has_calls, (&parked, lot), occupied),
        0 <= i < parked@.len(),
    ensures
        calls@.contains(call) <==> parked@.contains(call) && call.lot@ == lot@,
        parked@[i].lot@ == lot@ ==> occupied,
        occupied ==> exists|j: int| 0 <= j < parked@.len() && (#[trigger] parked@[j]).lot@ == lot@,
{
    lookup::lemma_filter_holds(parked@, waits_in(lot@), call);
    if occupied {
        let j = choose|j: int|
            0 <= j < parked@.len() && waits_in(lot@)(#[trigger] parked@[j]);
        assert(parked@[j].lot@ == lot@);
    }
    if parked@[i].lot@ == lot@ {
        assert(waits_in(lot@)(parked@[i]));
    }
}

/// A menu shows the first calls of the lot, as many as fit.
pub proof fn law_menus_show_what_fits(
    calls: Vec<ParkedCall>,
    max_items: usize,
    entries: Vec<ParkingMenuEntry>,
    i: int,
)
    requires
        call_ensures(parking_menu_entries, (&calls, max_items), entries),
        0 <= i < entries@.len(),
    ensures
        entries@.len() <= max_items,
        entries@.len() == calls@.len() || entries@.len() == max_items,
        i < calls@.len(),
        entries@[i].slot == calls@[i].slot,
{
}

} // verus!
