//! What the command line shows of stations and calls, and how it completes the names
//! of stations.

use vstd::prelude::*;
use vstd::string::*;

use crate::access::Access;
use crate::controller;
use crate::ids::{DeviceId, PbxCallId};
use crate::lookup;
use crate::model::{
    Codec, ControllerSnapshot, DeviceFeatureState, DndMode, IpAddress, MediaCapability,
    RegisteredDevice,
};
use crate::queries::{ChannelDirectionSummary, ChannelStateSummary};
use crate::status::{CallStatus, InventoryValue, RuntimeStatusSnapshot};
use crate::text::{self, decimal_text};

verus! {

/// Whether the formats of a station are known.
#[derive(Clone, Copy, Debug, PartialEq, Eq, Structural)]
pub enum CliCapabilityStatus {
    /// The station is not registered.
    Unavailable,
    /// The station did not report yet.
    Pending,
    /// The station reported that it has none.
    ReportedEmpty,
    Ready,
}

#[derive(Clone, Copy, Debug, PartialEq, Eq)]
pub struct CliCapability {
    pub codec: Codec,
    pub max_packet_ms: u32,
}

#[derive(Debug, PartialEq, Eq)]
pub struct CliFeature {
    pub name: String,
    pub value: InventoryValue,
}

#[derive(Debug, PartialEq, Eq)]
pub struct CliDeviceRuntime {
    pub device_id: DeviceId,
    pub capability_status: CliCapabilityStatus,
    pub capabilities: Vec<CliCapability>,
    pub features: Vec<CliFeature>,
}

#[derive(Debug, PartialEq, Eq)]
pub struct CliChannel {
    pub pbx_id: PbxCallId,
    pub call_id: Option<u64>,
    pub line: String,
    pub context: String,
    pub state: ChannelStateSummary,
    pub direction: ChannelDirectionSummary,
    pub dialed_number: InventoryValue,
    pub privacy: bool,
    pub appearance_count: usize,
}

/// A station of the inventory.
#[derive(Debug, PartialEq, Eq)]
pub struct InventoryDevice {
    pub id: DeviceId,
}

/// What was configured, as it is shown.
#[derive(Debug, PartialEq, Eq)]
pub struct InventorySnapshot {
    pub devices: Vec<InventoryDevice>,
}

/// How a station registered.
#[derive(Debug, PartialEq, Eq)]
pub struct InventoryRegistration {
    pub device_id: DeviceId,
    pub model_id: u32,
    pub protocol: u32,
    pub address: IpAddress,
}

pub open spec fn registration_of() -> spec_fn(RegisteredDevice) -> InventoryRegistration {
    |device: RegisteredDevice|
        InventoryRegistration {
            device_id: device.id,
            model_id: device.registration.device_type,
            protocol: device.registration.protocol,
            address: device.registration.peer,
        }
}

/// How each registered station registered.
pub fn inventory_registrations(controller: &ControllerSnapshot) -> (registrations: Vec<
    InventoryRegistration,
>)
    ensures
        registrations@ == controller.registered@.map_values(registration_of()),
{
    let ghost f = registration_of();
    let mut registrations: Vec<InventoryRegistration> = Vec::new();
    let mut i: usize = 0;
    while i < controller.registered.len()
        invariant
            f == registration_of(),
            0 <= i <= controller.registered@.len(),
            registrations@ == controller.registered@.take(i as int).map_values(f),
        decreases controller.registered@.len() - i,
    {
        let device = &controller.registered[i];
        registrations.push(
            InventoryRegistration {
                device_id: device.id.clone(),
                model_id: device.registration.device_type,
                protocol: device.registration.protocol,
                address: device.registration.peer,
            },
        );
        proof {
            assert(registrations@ =~= controller.registered@.take(i + 1).map_values(f));
        }
        i += 1;
    }
    proof {
        assert(controller.registered@.take(i as int) =~= controller.registered@);
    }
    registrations
}

/// Everything that the command line shows.
#[derive(Debug, PartialEq, Eq)]
pub struct CliInventorySnapshot {
    pub inventory: InventorySnapshot,
    pub device_runtime: Vec<CliDeviceRuntime>,
    pub channels: Vec<CliChannel>,
}

/// Why a command was not carried out, in words.
#[derive(Debug, PartialEq, Eq)]
pub struct CliInventoryError {
    pub message: String,
}

#[derive(Debug, PartialEq, Eq)]
pub enum RuntimeCliInventoryError {
    Unavailable,
    Inventory(CliInventoryError),
}

impl RuntimeCliInventoryError {
    /// What went wrong.
    pub fn text(&self) -> (text: &str)
        ensures
            text@ == match self {
                RuntimeCliInventoryError::Unavailable => "CLI inventory is unavailable"@,
                RuntimeCliInventoryError::Inventory(error) => error.message@,
            },
    {
        match self {
            RuntimeCliInventoryError::Unavailable => "CLI inventory is unavailable",
            RuntimeCliInventoryError::Inventory(error) => error.message.as_str(),
        }
    }
}

impl From<CliInventoryError> for RuntimeCliInventoryError {
    fn from(error: CliInventoryError) -> (wrapped: Self) {
        RuntimeCliInventoryError::Inventory(error)
    }
}

impl vstd::std_specs::convert::FromSpecImpl<CliInventoryError> for RuntimeCliInventoryError {
    open spec fn obeys_from_spec() -> bool {
        true
    }

    open spec fn from_spec(error: CliInventoryError) -> Self {
        RuntimeCliInventoryError::Inventory(error)
    }
}

pub open spec fn switched(value: bool) -> Seq<char> {
    if value {
        "on"@
    } else {
        "off"@
    }
}

fn on_off(value: bool) -> (text: &'static str)
    ensures
        text@ == switched(value),
{
    if value {
        "on"
    } else {
        "off"
    }
}

/// A feature by name, with a value that everybody may see.
pub open spec fn shows_feature(feature: CliFeature, name: Seq<char>, value: Seq<char>) -> bool {
    feature.name@ == name && (feature.value matches InventoryValue::Public(shown) && shown@ == value)
}

fn public_feature(name: &str, value: &str) -> (feature: CliFeature)
    ensures
        shows_feature(feature, name@, value@),
{
    CliFeature { name: name.to_owned(), value: InventoryValue::Public(value.to_owned()) }
}

pub open spec fn dnd_word(mode: DndMode) -> Seq<char> {
    match mode {
        DndMode::Off => "off"@,
        DndMode::Silent => "silent"@,
        DndMode::Reject => "reject"@,
    }
}

/// The names and values of the features of a station: the common ones, then its
/// buttons.
pub open spec fn feature_lines(state: DeviceFeatureState) -> Seq<(Seq<char>, Seq<char>)> {
    seq![
        ("dnd"@, dnd_word(state.dnd)),
        ("privacy"@, switched(state.privacy)),
        ("forward-all"@, switched(state.forwarding.all is Some)),
        ("forward-busy"@, switched(state.forwarding.busy is Some)),
        ("forward-no-answer"@, switched(state.forwarding.no_answer is Some)),
    ] + Seq::new(
        state.buttons@.len(),
        |i: int|
            (
                "button:"@ + text::decimal(state.buttons@[i].instance as nat),
                switched(state.buttons@[i].enabled),
            ),
    )
}

pub open spec fn shows_features(
    features: Seq<CliFeature>,
    lines: Seq<(Seq<char>, Seq<char>)>,
) -> bool {
    &&& features.len() == lines.len()
    &&& forall|i: int|
        0 <= i < features.len() ==> shows_feature(#[trigger] features[i], lines[i].0, lines[i].1)
}

/// The features of a station. Where calls are forwarded to is not shown.
pub fn cli_features(state: &DeviceFeatureState) -> (features: Vec<CliFeature>)
    ensures
        shows_features(features@, feature_lines(*state)),
{
    let dnd = match state.dnd {
        DndMode::Off => "off",
        DndMode::Silent => "silent",
        DndMode::Reject => "reject",
    };
    let mut features: Vec<CliFeature> = Vec::new();
    features.push(public_feature("dnd", dnd));
    features.push(public_feature("privacy", on_off(state.privacy)));
    features.push(public_feature("forward-all", on_off(state.forwarding.all.is_some())));
    features.push(public_feature("forward-busy", on_off(state.forwarding.busy.is_some())));
    features.push(public_feature("forward-no-answer", on_off(state.forwarding.no_answer.is_some())));
    let ghost lines = feature_lines(*state);
    let mut i: usize = 0;
    while i < state.buttons.len()
        invariant
            lines == feature_lines(*state),
            lines.len() == 5 + state.buttons@.len(),
            0 <= i <= state.buttons@.len(),
            features@.len() == 5 + i,
            forall|k: int|
                0 <= k < features@.len() ==> shows_feature(
                    #[trigger] features@[k],
                    lines[k].0,
                    lines[k].1,
                ),
        decreases state.buttons@.len() - i,
    {
        let button = state.buttons[i];
        let mut name = "button:".to_owned();
        name.append(decimal_text(button.instance as u64).as_str());
        features.push(public_feature(name.as_str(), on_off(button.enabled)));
        proof {
            assert(lines[5 + i as int] == (
                "button:"@ + text::decimal(button.instance as nat),
                switched(button.enabled),
            ));
        }
        i += 1;
    }
    features
}

pub open spec fn capability_of() -> spec_fn(MediaCapability) -> CliCapability {
    |capability: MediaCapability|
        CliCapability { codec: capability.codec, max_packet_ms: capability.max_packet_ms }
}

/// What is shown of the formats of a station.
pub open spec fn capabilities_spec(registered: Option<RegisteredDevice>) -> (
    CliCapabilityStatus,
    Seq<CliCapability>,
) {
    match registered {
        None => (CliCapabilityStatus::Unavailable, Seq::empty()),
        Some(registered) => match registered.capabilities {
            None => (CliCapabilityStatus::Pending, Seq::empty()),
            Some(capabilities) => if capabilities.audio@.len() == 0 && capabilities.video@.len()
                == 0 {
                (CliCapabilityStatus::ReportedEmpty, Seq::empty())
            } else {
                (CliCapabilityStatus::Ready, capabilities.audio@.map_values(capability_of()))
            },
        },
    }
}

fn cli_capabilities(registered: Option<&RegisteredDevice>) -> (shown: (
    CliCapabilityStatus,
    Vec<CliCapability>,
))
    ensures
        (shown.0, shown.1@) == capabilities_spec(lookup::target(registered)),
{
    let mut capabilities: Vec<CliCapability> = Vec::new();
    let reported = match registered {
        None => {
            return (CliCapabilityStatus::Unavailable, capabilities);
        },
        Some(registered) => match &registered.capabilities {
            None => {
                return (CliCapabilityStatus::Pending, capabilities);
            },
            Some(reported) => reported,
        },
    };
    if reported.audio.len() == 0 && reported.video.len() == 0 {
        return (CliCapabilityStatus::ReportedEmpty, capabilities);
    }
    let ghost f = capability_of();
    let mut i: usize = 0;
    while i < reported.audio.len()
        invariant
            f == capability_of(),
            0 <= i <= reported.audio@.len(),
            capabilities@ == reported.audio@.take(i as int).map_values(f),
        decreases reported.audio@.len() - i,
    {
        capabilities.push(
            CliCapability {
                codec: reported.audio[i].codec,
                max_packet_ms: reported.audio[i].max_packet_ms,
            },
        );
        proof {
            assert(capabilities@ =~= reported.audio@.take(i + 1).map_values(f));
        }
        i += 1;
    }
    proof {
        assert(reported.audio@.take(i as int) =~= reported.audio@);
    }
    (CliCapabilityStatus::Ready, capabilities)
}

/// What is shown of a station.
pub open spec fn shows_device(
    runtime: CliDeviceRuntime,
    controller: ControllerSnapshot,
    device: DeviceId,
) -> bool {
    &&& runtime.device_id == device
    &&& (runtime.capability_status, runtime.capabilities@) == capabilities_spec(
        lookup::first(controller.registered@, controller::is_station(device@)),
    )
    &&& match lookup::first(controller.features@, controller::features_of(device@)) {
        Some(found) => shows_features(runtime.features@, feature_lines(found.state)),
        None => runtime.features@.len() == 0,
    }
}

/// What is shown of a call.
pub open spec fn channel_of_call() -> spec_fn(CallStatus) -> CliChannel {
    |call: CallStatus|
        CliChannel {
            pbx_id: call.pbx_id,
            call_id: match call.active_call_id {
                Some(call_id) => Some(call_id.0),
                None => None,
            },
            line: call.line,
            context: call.context,
            state: call.state,
            direction: call.direction,
            dialed_number: call.dialed_number,
            privacy: call.privacy,
            appearance_count: call.appearance_count,
        }
}

fn cli_channels(calls: &Vec<CallStatus>) -> (channels: Vec<CliChannel>)
    ensures
        channels@ == calls@.map_values(channel_of_call()),
{
    let ghost f = channel_of_call();
    let mut channels: Vec<CliChannel> = Vec::new();
    let mut i: usize = 0;
    while i < calls.len()
        invariant
            f == channel_of_call(),
            0 <= i <= calls@.len(),
            channels@ == calls@.take(i as int).map_values(f),
        decreases calls@.len() - i,
    {
        let call = &calls[i];
        channels.push(
            CliChannel {
                pbx_id: call.pbx_id,
                call_id: match call.active_call_id {
                    Some(call_id) => Some(call_id.0),
                    None => None,
                },
                line: call.line.clone(),
                context: call.context.clone(),
                state: call.state,
                direction: call.direction,
                dialed_number: call.dialed_number.clone(),
                privacy: call.privacy,
                appearance_count: call.appearance_count,
            },
        );
        proof {
            assert(channels@ =~= calls@.take(i + 1).map_values(f));
        }
        i += 1;
    }
    proof {
        assert(calls@.take(i as int) =~= calls@);
    }
    channels
}

/// Everything that the command line shows, unless the inventory or the state of the
/// driver cannot be had.
pub fn runtime_cli_inventory_snapshot(
    access: &Access,
    inventory: Option<InventorySnapshot>,
    status: Option<RuntimeStatusSnapshot>,
) -> (snapshot: Result<CliInventorySnapshot, RuntimeCliInventoryError>)
    ensures
        match (inventory, status) {
            (Some(inventory), Some(status)) => match snapshot {
                Ok(shown) => {
                    &&& shown.inventory == inventory
                    &&& shown.device_runtime@.len() == inventory.devices@.len()
                    &&& forall|i: int|
                        0 <= i < shown.device_runtime@.len() ==> shows_device(
                            #[trigger] shown.device_runtime@[i],
                            access.shared.controller,
                            inventory.devices@[i].id,
                        )
                    &&& shown.channels@ == status.calls@.map_values(channel_of_call())
                },
                Err(_) => false,
            },
            _ => snapshot matches Err(error) && error is Unavailable,
        },
{
    let (inventory, status) = match (inventory, status) {
        (Some(inventory), Some(status)) => (inventory, status),
        _ => {
            return Err(RuntimeCliInventoryError::Unavailable);
        },
    };
    let controller = &access.shared.controller;
    let mut device_runtime: Vec<CliDeviceRuntime> = Vec::new();
    let mut i: usize = 0;
    while i < inventory.devices.len()
        invariant
            *controller == access.shared.controller,
            0 <= i <= inventory.devices@.len(),
            device_runtime@.len() == i,
            forall|k: int|
                0 <= k < i ==> shows_device(
                    #[trigger] device_runtime@[k],
                    access.shared.controller,
                    inventory.devices@[k].id,
                ),
        decreases inventory.devices@.len() - i,
    {
        let device = &inventory.devices[i].id;
        let (capability_status, capabilities) = cli_capabilities(
            controller.registered_device(device),
        );
        let features = match controller.feature_state(device) {
            Some(state) => cli_features(state),
            None => Vec::new(),
        };
        device_runtime.push(
            CliDeviceRuntime {
                device_id: device.clone(),
                capability_status,
                capabilities,
                features,
            },
        );
        i += 1;
    }
    let channels = cli_channels(&status.calls);
    Ok(CliInventorySnapshot { inventory, device_runtime, channels })
}

/// What a command prints; `rendered` is the text, or why there is none, where
/// everything could be looked up.
pub fn render_runtime_cli_inventory(
    snapshot: Result<(), RuntimeCliInventoryError>,
    rendered: Result<String, CliInventoryError>,
) -> (output: Result<String, RuntimeCliInventoryError>)
    ensures
        output == match snapshot {
            Err(error) => Err(error),
            Ok(_) => match rendered {
                Ok(text) => Ok(text),
                Err(error) => Err(RuntimeCliInventoryError::Inventory(error)),
            },
        },
{
    match snapshot {
        Err(error) => Err(error),
        Ok(_) => match rendered {
            Ok(text) => Ok(text),
            Err(error) => Err(RuntimeCliInventoryError::from(error)),
        },
    }
}

/// What a command is completed to: nothing where not everything could be looked up.
pub fn complete_runtime_cli_inventory(
    snapshot: Result<(), RuntimeCliInventoryError>,
    completed: Option<String>,
) -> (completion: Option<String>)
    ensures
        completion == if snapshot is Ok {
            completed
        } else {
            None
        },
{
    match snapshot {
        Ok(_) => completed,
        Err(_) => None,
    }
}

/// A registration is listed for every registered station, with what it registered
/// as.
pub proof fn law_registrations_are_listed(
    controller: ControllerSnapshot,
    registrations: Vec<InventoryRegistration>,
    i: int,
)
    requires
        call_ensures(inventory_registrations, (&controller,), registrations),
        0 <= i < controller.registered@.len(),
    ensures
        registrations@.len() == controller.registered@.len(),
        registrations@[i].device_id == controller.registered@[i].id,
        registrations@[i].model_id == controller.registered@[i].registration.device_type,
        registrations@[i].protocol == controller.registered@[i].registration.protocol,
        registrations@[i].address == controller.registered@[i].registration.peer,
{
}

/// The features of a station are told in a fixed order, each by its own setting.
pub proof fn law_features_are_told_by_their_settings(
    state: DeviceFeatureState,
    features: Vec<CliFeature>,
    b: int,
)
    requires
        call_ensures(cli_features, (&state,), features),
        0 <= b < state.buttons@.len(),
    ensures
        features@.len() == 5 + state.buttons@.len(),
        features@[0].name@ == "dnd"@,
        features@[0].value matches InventoryValue::Public(told) && told@ == match state.dnd {
            DndMode::Off => "off"@,
            DndMode::Silent => "silent"@,
            DndMode::Reject => "reject"@,
        },
        features@[1].name@ == "privacy"@,
        features@[1].value matches InventoryValue::Public(told) && told@ == if state.privacy {
            "on"@
        } else {
            "off"@
        },
        features@[2].name@ == "forward-all"@,
        features@[2].value matches InventoryValue::Public(told) && told@
            == if state.forwarding.all is Some {
            "on"@
        } else {
            "off"@
        },
        features@[3].name@ == "forward-busy"@,
        features@[3].value matches InventoryValue::Public(told) && told@
            == if state.forwarding.busy is Some {
            "on"@
        } else {
            "off"@
        },
        features@[4].name@ == "forward-no-answer"@,
        features@[4].value matches InventoryValue::Public(told) && told@
            == if state.forwarding.no_answer is Some {
            "on"@
        } else {
            "off"@
        },
        features@[5 + b].name@ == "button:"@ + text::decimal(state.buttons@[b].instance as nat),
        features@[5 + b].value matches InventoryValue::Public(told) && told@
            == if state.buttons@[b].enabled {
            "on"@
        } else {
            "off"@
        },
{
    let lines = feature_lines(state);
    assert(shows_feature(features@[0], lines[0].0, lines[0].1));
    assert(shows_feature(features@[1], lines[1].0, lines[1].1));
    assert(shows_feature(features@[2], lines[2].0, lines[2].1));
    assert(shows_feature(features@[3], lines[3].0, lines[3].1));
    assert(shows_feature(features@[4], lines[4].0, lines[4].1));
    assert(shows_feature(features@[5 + b], lines[5 + b].0, lines[5 + b].1));
}

/// The inventory can be shown exactly if both of its halves are there. It has every
/// station, with what it can play as far as it registered and reported, and every
/// call.
pub proof fn law_inventory_has_every_station_and_call(
    access: &Access,
    inventory: Option<InventorySnapshot>,
    status: Option<RuntimeStatusSnapshot>,
    snapshot: Result<CliInventorySnapshot, RuntimeCliInventoryError>,
    listed: InventorySnapshot,
    running: RuntimeStatusSnapshot,
    i: int,
    s: int,
    k: int,
)
    requires
        call_ensures(runtime_cli_inventory_snapshot, (access, inventory, status), snapshot),
        inventory is Some ==> inventory == Some(listed),
        status is Some ==> status == Some(running),
        0 <= i < listed.devices@.len(),
        0 <= k < running.calls@.len(),
        0 <= s <= access.shared.controller.registered@.len(),
        forall|j: int|
            0 <= j < s ==> (#[trigger] access.shared.controller.registered@[j]).id@
                != listed.devices@[i].id@,
        s < access.shared.controller.registered@.len()
            ==> access.shared.controller.registered@[s].id@ == listed.devices@[i].id@,
    ensures
        snapshot is Ok <==> inventory is Some && status is Some,
        snapshot matches Err(error) ==> error is Unavailable,
        snapshot matches Ok(shown) ==> {
            let station = shown.device_runtime@[i];
            let registered = access.shared.controller.registered@[s];
            &&& shown.device_runtime@.len() == listed.devices@.len()
            &&& station.device_id == listed.devices@[i].id
            &&& station.capability_status is Unavailable <==> s
                == access.shared.controller.registered@.len()
            &&& s < access.shared.controller.registered@.len() ==> {
                &&& station.capability_status is Pending <==> registered.capabilities is None
                &&& registered.capabilities matches Some(able) ==> {
                    &&& station.capability_status is ReportedEmpty <==> able.audio@.len() == 0
                        && able.video@.len() == 0
                    &&& station.capability_status is Ready ==> station.capabilities@.len()
                        == able.audio@.len()
                }
            }
            &&& station.capability_status !is Ready ==> station.capabilities@.len() == 0
            &&& shown.channels@.len() == running.calls@.len()
            &&& shown.channels@[k].pbx_id == running.calls@[k].pbx_id
            &&& shown.channels@[k].line == running.calls@[k].line
            &&& shown.channels@[k].context == running.calls@[k].context
            &&& shown.channels@[k].dialed_number == running.calls@[k].dialed_number
            &&& shown.channels@[k].privacy == running.calls@[k].privacy
            &&& shown.channels@[k].state == running.calls@[k].state
            &&& shown.channels@[k].direction == running.calls@[k].direction
            &&& shown.channels@[k].appearance_count == running.calls@[k].appearance_count
        },
{
    let stations = access.shared.controller.registered@;
    let p = controller::is_station(listed.devices@[i].id@);
    if s == stations.len() {
        lookup::lemma_first_none(stations, p);
    } else {
        lookup::lemma_first_is(stations, p, s);
        assert(p(stations[s]));
    }
    if let Ok(shown) = snapshot {
        assert(shows_device(
            shown.device_runtime@[i],
            access.shared.controller,
            listed.devices@[i].id,
        ));
    }
}

/// What is rendered is shown exactly if there was something to render and it could
/// be rendered; there are completions only where there is something to show.
pub proof fn law_inventory_is_rendered_as_given(
    snapshot: Result<(), RuntimeCliInventoryError>,
    rendered: Result<String, CliInventoryError>,
    completed: Option<String>,
    output: Result<String, RuntimeCliInventoryError>,
    completion: Option<String>,
)
    requires
        call_ensures(render_runtime_cli_inventory, (snapshot, rendered), output),
        call_ensures(complete_runtime_cli_inventory, (snapshot, completed), completion),
    ensures
        output is Ok <==> snapshot is Ok && rendered is Ok,
        output matches Ok(text) ==> rendered == Ok::<String, CliInventoryError>(text),
        snapshot is Ok ==> completion == completed,
        snapshot is Err ==> completion is None,
{
}

} // verus!
