//! What the operator and the dialplan can ask about stations, lines, calls and
//! their media.

use vstd::prelude::*;

use crate::access::{
    self, channel_name, pbx_id_for_channel_name, referenced_channel, ChannelQueryLookupError,
    Shared,
};
use crate::codecs::AudioFormat;
use crate::collect::{any, gather};
use crate::config;
use crate::controller;
use crate::features::cloned_text;
use crate::ids::{CallId, DeviceId, PbxCallId};
use crate::lookup;
use crate::model::{
    AppearanceRingMode, CallAppearance, CallDirection, CallState, Codec, ControllerSnapshot,
    DeviceFeatureState, DndMode, FeatureButtonState, IpAddress, LineBinding, LineConfig,
    MediaStreamState, MobilityAppearance, PbxAudioFormat, PbxCall, RegisteredDevice,
    VideoMediaState, VideoStreamState,
};
use crate::preferences::{self, codec_preference_context};
use crate::text::{self, precedes, same_text};

verus! {

#[derive(Clone, Copy, Debug, PartialEq, Eq, Structural)]
pub enum ChannelStateSummary {
    Collecting,
    PickupCollecting,
    Ringing,
    Calling,
    Connected,
    Parking,
    Retrieving,
    Held,
    RemoteInUse,
    SharedHeld,
    Barged,
    TransferCollecting,
    Ended,
}

pub open spec fn state_summary(state: CallState) -> ChannelStateSummary {
    match state {
        CallState::Collecting => ChannelStateSummary::Collecting,
        CallState::PickupCollecting => ChannelStateSummary::PickupCollecting,
        CallState::Ringing => ChannelStateSummary::Ringing,
        CallState::Calling => ChannelStateSummary::Calling,
        CallState::Connected => ChannelStateSummary::Connected,
        CallState::Parking => ChannelStateSummary::Parking,
        CallState::Retrieving => ChannelStateSummary::Retrieving,
        CallState::Held => ChannelStateSummary::Held,
        CallState::RemoteInUse => ChannelStateSummary::RemoteInUse,
        CallState::SharedHeld => ChannelStateSummary::SharedHeld,
        CallState::Barged => ChannelStateSummary::Barged,
        CallState::TransferCollecting => ChannelStateSummary::TransferCollecting,
        CallState::Ended => ChannelStateSummary::Ended,
    }
}

pub fn channel_state_summary(state: CallState) -> (summary: ChannelStateSummary)
    ensures
        summary == state_summary(state),
{
    match state {
        CallState::Collecting => ChannelStateSummary::Collecting,
        CallState::PickupCollecting => ChannelStateSummary::PickupCollecting,
        CallState::Ringing => ChannelStateSummary::Ringing,
        CallState::Calling => ChannelStateSummary::Calling,
        CallState::Connected => ChannelStateSummary::Connected,
        CallState::Parking => ChannelStateSummary::Parking,
        CallState::Retrieving => ChannelStateSummary::Retrieving,
        CallState::Held => ChannelStateSummary::Held,
        CallState::RemoteInUse => ChannelStateSummary::RemoteInUse,
        CallState::SharedHeld => ChannelStateSummary::SharedHeld,
        CallState::Barged => ChannelStateSummary::Barged,
        CallState::TransferCollecting => ChannelStateSummary::TransferCollecting,
        CallState::Ended => ChannelStateSummary::Ended,
    }
}

#[derive(Clone, Copy, Debug, PartialEq, Eq, Structural)]
pub enum ChannelMediaStateSummary {
    Closed,
    Opening,
    Open,
}

pub open spec fn audio_summary(state: MediaStreamState) -> ChannelMediaStateSummary {
    match state {
        MediaStreamState::Closed => ChannelMediaStateSummary::Closed,
        MediaStreamState::Opening => ChannelMediaStateSummary::Opening,
        MediaStreamState::Open(_) => ChannelMediaStateSummary::Open,
    }
}

pub fn channel_media_state_summary(state: MediaStreamState) -> (summary: ChannelMediaStateSummary)
    ensures
        summary == audio_summary(state),
{
    match state {
        MediaStreamState::Closed => ChannelMediaStateSummary::Closed,
        MediaStreamState::Opening => ChannelMediaStateSummary::Opening,
        MediaStreamState::Open(_) => ChannelMediaStateSummary::Open,
    }
}

pub open spec fn video_summary(state: VideoStreamState) -> ChannelMediaStateSummary {
    match state {
        VideoStreamState::Closed => ChannelMediaStateSummary::Closed,
        VideoStreamState::Opening => ChannelMediaStateSummary::Opening,
        VideoStreamState::Open { .. } => ChannelMediaStateSummary::Open,
    }
}

pub fn video_stream_state_summary(state: VideoStreamState) -> (summary: ChannelMediaStateSummary)
    ensures
        summary == video_summary(state),
{
    match state {
        VideoStreamState::Closed => ChannelMediaStateSummary::Closed,
        VideoStreamState::Opening => ChannelMediaStateSummary::Opening,
        VideoStreamState::Open { .. } => ChannelMediaStateSummary::Open,
    }
}

/// Video is open or closed where both directions are, and on its way otherwise.
pub open spec fn both_summary(state: VideoMediaState) -> ChannelMediaStateSummary {
    let receive = video_summary(state.receive);
    let transmit = video_summary(state.transmit);
    if receive == transmit {
        receive
    } else {
        ChannelMediaStateSummary::Opening
    }
}

pub fn video_media_state_summary(state: &VideoMediaState) -> (summary: ChannelMediaStateSummary)
    ensures
        summary == both_summary(*state),
{
    let receive = video_stream_state_summary(state.receive);
    let transmit = video_stream_state_summary(state.transmit);
    match (receive, transmit) {
        (
            ChannelMediaStateSummary::Open,
            ChannelMediaStateSummary::Open,
        ) => ChannelMediaStateSummary::Open,
        (
            ChannelMediaStateSummary::Closed,
            ChannelMediaStateSummary::Closed,
        ) => ChannelMediaStateSummary::Closed,
        _ => ChannelMediaStateSummary::Opening,
    }
}

/// How many calls there are, and how many of them ring, are connected or held.
#[derive(Clone, Copy, Debug, PartialEq, Eq, Structural)]
pub struct LineCallSummary {
    pub total: usize,
    pub ringing: usize,
    pub connected: usize,
    pub held: usize,
}

pub open spec fn rings(state: CallState) -> bool {
    state == CallState::Ringing
}

pub open spec fn talks(state: CallState) -> bool {
    state == CallState::Connected || state == CallState::RemoteInUse || state == CallState::Barged
}

pub open spec fn waits(state: CallState) -> bool {
    state == CallState::Held || state == CallState::SharedHeld
}

/// How many of these states satisfy a test.
pub open spec fn how_many(states: Seq<CallState>, test: spec_fn(CallState) -> bool) -> nat {
    states.filter(test).len()
}

/// The summary counts exactly these states.
pub open spec fn counts(summary: LineCallSummary, states: Seq<CallState>) -> bool {
    &&& summary.total == states.len()
    &&& summary.ringing == how_many(states, |state: CallState| rings(state))
    &&& summary.connected == how_many(states, |state: CallState| talks(state))
    &&& summary.held == how_many(states, |state: CallState| waits(state))
}

/// Counts a call by its state; calls that neither ring nor are connected nor held
/// are not counted apart.
pub fn count_line_call_state(summary: &mut LineCallSummary, state: CallState)
    requires
        old(summary).ringing < usize::MAX,
        old(summary).connected < usize::MAX,
        old(summary).held < usize::MAX,
    ensures
        final(summary).total == old(summary).total,
        final(summary).ringing == old(summary).ringing + if rings(state) {
            1int
        } else {
            0
        },
        final(summary).connected == old(summary).connected + if talks(state) {
            1int
        } else {
            0
        },
        final(summary).held == old(summary).held + if waits(state) {
            1int
        } else {
            0
        },
{
    match state {
        CallState::Ringing => {
            summary.ringing = summary.ringing + 1;
        },
        CallState::Connected => {
            summary.connected = summary.connected + 1;
        },
        CallState::RemoteInUse => {
            summary.connected = summary.connected + 1;
        },
        CallState::Barged => {
            summary.connected = summary.connected + 1;
        },
        CallState::Held => {
            summary.held = summary.held + 1;
        },
        CallState::SharedHeld => {
            summary.held = summary.held + 1;
        },
        _ => {},
    }
}

/// Counts the states of calls.
fn count_states(states: &Vec<CallState>) -> (summary: LineCallSummary)
    ensures
        counts(summary, states@),
{
    let mut summary = LineCallSummary { total: 0, ringing: 0, connected: 0, held: 0 };
    let ghost r = |state: CallState| rings(state);
    let ghost t = |state: CallState| talks(state);
    let ghost w = |state: CallState| waits(state);
    proof {
        reveal(Seq::filter);
        assert(states@.take(0).len() == 0);
    }
    let mut i: usize = 0;
    while i < states.len()
        invariant
            0 <= i <= states@.len(),
            r == (|state: CallState| rings(state)),
            t == (|state: CallState| talks(state)),
            w == (|state: CallState| waits(state)),
            summary.total == i,
            summary.ringing == states@.take(i as int).filter(r).len(),
            summary.connected == states@.take(i as int).filter(t).len(),
            summary.held == states@.take(i as int).filter(w).len(),
            summary.ringing <= i,
            summary.connected <= i,
            summary.held <= i,
        decreases states@.len() - i,
    {
        proof {
            lookup::lemma_filter_step(states@, r, i as int);
            lookup::lemma_filter_step(states@, t, i as int);
            lookup::lemma_filter_step(states@, w, i as int);
        }
        count_line_call_state(&mut summary, states[i]);
        i += 1;
        summary.total = i;
    }
    proof {
        assert(states@.take(i as int) =~= states@);
    }
    summary
}

/// The state of the call, if it stands on this line of this station.
pub open spec fn state_at(device: Seq<char>, instance: u32) -> spec_fn(CallAppearance) -> Option<
    CallState,
> {
    |call: CallAppearance|
        if call.device_id@ == device && call.line_instance == instance {
            Some(call.state)
        } else {
            None
        }
}

/// The state of the call, if it stands on this station.
pub open spec fn state_on(device: Seq<char>) -> spec_fn(CallAppearance) -> Option<CallState> {
    |call: CallAppearance|
        if call.device_id@ == device {
            Some(call.state)
        } else {
            None
        }
}

fn states_at(snapshot: &ControllerSnapshot, device: &DeviceId, instance: Option<u32>) -> (states:
    Vec<CallState>)
    ensures
        states@ == match instance {
            Some(instance) => snapshot.appearances@.filter_map(state_at(device@, instance)),
            None => snapshot.appearances@.filter_map(state_on(device@)),
        },
{
    let ghost f = match instance {
        Some(instance) => state_at(device@, instance),
        None => state_on(device@),
    };
    let mut states: Vec<CallState> = Vec::new();
    proof {
        reveal(Seq::filter_map);
        assert(snapshot.appearances@.take(0).filter_map(f) =~= Seq::empty());
    }
    let mut i: usize = 0;
    while i < snapshot.appearances.len()
        invariant
            0 <= i <= snapshot.appearances@.len(),
            f == match instance {
                Some(instance) => state_at(device@, instance),
                None => state_on(device@),
            },
            states@ == snapshot.appearances@.take(i as int).filter_map(f),
        decreases snapshot.appearances@.len() - i,
    {
        proof {
            lookup::lemma_filter_map_step(snapshot.appearances@, f, i as int);
        }
        let call = &snapshot.appearances[i];
        let here = match instance {
            Some(instance) => call.line_instance == instance,
            None => true,
        };
        if here && call.device_id.same(device) {
            states.push(call.state);
        }
        i += 1;
    }
    proof {
        assert(snapshot.appearances@.take(i as int) =~= snapshot.appearances@);
    }
    states
}

/// How a station registered.
#[derive(Debug, PartialEq, Eq)]
pub struct RegisteredDeviceSummary {
    pub model: u32,
    pub protocol: u32,
    pub address: IpAddress,
    pub reported_address: Option<IpAddress>,
    pub firmware: String,
    pub capability_count: usize,
}

#[derive(Debug, PartialEq, Eq)]
pub struct DeviceFeatureSummary {
    pub dnd: DndMode,
    pub privacy: bool,
    pub forward_all: Option<String>,
    pub forward_busy: Option<String>,
    pub forward_no_answer: Option<String>,
    pub enabled_feature_buttons: usize,
}

#[derive(Clone, Copy, Debug, PartialEq, Eq, Structural)]
pub struct DeviceCallSummary {
    pub calls: LineCallSummary,
    pub selected: usize,
    pub selected_line: Option<u32>,
}

/// Everything that is known of a station.
#[derive(Debug, PartialEq, Eq)]
pub struct DeviceQuerySnapshot {
    pub id: DeviceId,
    pub configured: bool,
    pub description: Option<String>,
    pub line_count: usize,
    pub button_count: usize,
    pub registration: Option<RegisteredDeviceSummary>,
    pub features: DeviceFeatureSummary,
    pub calls: DeviceCallSummary,
}

pub open spec fn is_enabled() -> spec_fn(FeatureButtonState) -> bool {
    |button: FeatureButtonState| button.enabled
}

/// The summary describes this registration.
pub open spec fn describes_registration(
    summary: RegisteredDeviceSummary,
    device: RegisteredDevice,
) -> bool {
    &&& summary.model == device.registration.device_type
    &&& summary.protocol == device.registration.protocol
    &&& summary.address == device.registration.peer
    &&& summary.reported_address == device.registration.reported_address
    &&& summary.firmware == device.registration.firmware
    &&& summary.capability_count == match device.capabilities {
        Some(capabilities) => capabilities.audio@.len() + capabilities.video@.len(),
        None => 0,
    }
}

/// The summary describes what a station set up; nothing where it set up nothing.
pub open spec fn describes_features(
    summary: DeviceFeatureSummary,
    state: Option<DeviceFeatureState>,
) -> bool {
    match state {
        Some(state) => {
            &&& summary.dnd == state.dnd
            &&& summary.privacy == state.privacy
            &&& summary.forward_all == state.forwarding.all
            &&& summary.forward_busy == state.forwarding.busy
            &&& summary.forward_no_answer == state.forwarding.no_answer
            &&& summary.enabled_feature_buttons == state.buttons@.filter(is_enabled()).len()
        },
        None => {
            &&& summary.dnd == DndMode::Off
            &&& !summary.privacy
            &&& summary.forward_all is None
            &&& summary.forward_busy is None
            &&& summary.forward_no_answer is None
            &&& summary.enabled_feature_buttons == 0
        },
    }
}

/// The snapshot describes the station.
pub open spec fn describes_device(snapshot: DeviceQuerySnapshot, shared: Shared, device: DeviceId) ->
    bool {
    let configured = lookup::first(shared.config.devices@, config::is_device(device@));
    let registered = lookup::first(shared.controller.registered@, controller::is_station(device@));
    &&& snapshot.id == device
    &&& snapshot.configured == (configured is Some)
    &&& match configured {
        Some(found) => snapshot.description == Some(found.description) && snapshot.line_count
            == found.lines@.len() && snapshot.button_count == found.buttons@.len(),
        None => snapshot.description is None && snapshot.line_count == 0 && snapshot.button_count
            == 0,
    }
    &&& match registered {
        Some(found) => {
            &&& snapshot.registration matches Some(summary) && describes_registration(
                summary,
                found,
            )
            &&& snapshot.calls.selected == found.selected_calls@.len()
            &&& snapshot.calls.selected_line == found.selected_line
        },
        None => snapshot.registration is None && snapshot.calls.selected == 0
            && snapshot.calls.selected_line is None,
    }
    &&& describes_features(
        snapshot.features,
        match lookup::first(shared.controller.features@, controller::features_of(device@)) {
            Some(features) => Some(features.state),
            None => None,
        },
    )
    &&& counts(
        snapshot.calls.calls,
        shared.controller.appearances@.filter_map(state_on(device@)),
    )
}

fn registration_summary(device: &RegisteredDevice) -> (summary: Option<
    RegisteredDeviceSummary,
>)
    ensures
        match summary {
            Some(summary) => describes_registration(summary, *device),
            None => device.capabilities matches Some(capabilities) && capabilities.audio@.len()
                + capabilities.video@.len() > usize::MAX,
        },
{
    let capability_count: usize = match &device.capabilities {
        Some(capabilities) => {
            let audio: usize = capabilities.audio.len();
            match audio.checked_add(capabilities.video.len()) {
                Some(count) => count,
                None => {
                    return None;
                },
            }
        },
        None => 0,
    };
    Some(
        RegisteredDeviceSummary {
            model: device.registration.device_type,
            protocol: device.registration.protocol,
            address: device.registration.peer,
            reported_address: device.registration.reported_address,
            firmware: device.registration.firmware.clone(),
            capability_count,
        },
    )
}

fn feature_summary(state: Option<&DeviceFeatureState>) -> (summary:
    DeviceFeatureSummary)
    ensures
        describes_features(summary, lookup::target(state)),
{
    match state {
        Some(state) => {
            let ghost p = is_enabled();
            let mut enabled: usize = 0;
            proof {
                reveal(Seq::filter);
                assert(state.buttons@.take(0).len() == 0);
            }
            let mut i: usize = 0;
            while i < state.buttons.len()
                invariant
                    0 <= i <= state.buttons@.len(),
                    p == is_enabled(),
                    enabled == state.buttons@.take(i as int).filter(p).len(),
                    enabled <= i,
                decreases state.buttons@.len() - i,
            {
                proof {
                    lookup::lemma_filter_step(state.buttons@, p, i as int);
                }
                if state.buttons[i].enabled {
                    enabled += 1;
                }
                i += 1;
            }
            proof {
                assert(state.buttons@.take(i as int) =~= state.buttons@);
            }
            DeviceFeatureSummary {
                dnd: state.dnd,
                privacy: state.privacy,
                forward_all: cloned_text(&state.forwarding.all),
                forward_busy: cloned_text(&state.forwarding.busy),
                forward_no_answer: cloned_text(&state.forwarding.no_answer),
                enabled_feature_buttons: enabled,
            }
        },
        None => DeviceFeatureSummary {
            dnd: DndMode::Off,
            privacy: false,
            forward_all: None,
            forward_busy: None,
            forward_no_answer: None,
            enabled_feature_buttons: 0,
        },
    }
}

/// The capabilities of a station can be counted.
pub open spec fn countable(shared: Shared, device: Seq<char>) -> bool {
    lookup::first(shared.controller.registered@, controller::is_station(device)) matches Some(found)
        && found.capabilities matches Some(capabilities) ==> capabilities.audio@.len()
        + capabilities.video@.len() <= usize::MAX
}

/// Describes a station that is configured or registered.
pub fn device_query_snapshot(shared: &Shared, device_id: &DeviceId) -> (snapshot: Option<
    DeviceQuerySnapshot,
>)
    requires
        countable(*shared, device_id@),
    ensures
        match snapshot {
            Some(snapshot) => describes_device(snapshot, *shared, *device_id),
            None => true,
        },
        snapshot is None <==> lookup::first(
            shared.config.devices@,
            config::is_device(device_id@),
        ) is None && !shared.controller.registered_spec(device_id@),
{
    let configured = shared.config.device(device_id);
    let registered = shared.controller.registered_device(device_id);
    proof {
        lookup::lemma_first_is_some(
            shared.controller.registered@,
            controller::is_station(device_id@),
        );
    }
    if configured.is_none() && registered.is_none() {
        return None;
    }
    let states = states_at(&shared.controller, device_id, None);
    let calls = count_states(&states);
    let (registration, selected, selected_line) = match registered {
        Some(found) => (registration_summary(found), found.selected_calls.len(), found.selected_line),
        None => (None, 0, None),
    };
    let (description, line_count, button_count) = match configured {
        Some(found) => (Some(found.description.clone()), found.lines.len(), found.buttons.len()),
        None => (None, 0, 0),
    };
    Some(
        DeviceQuerySnapshot {
            id: device_id.clone(),
            configured: configured.is_some(),
            description,
            line_count,
            button_count,
            registration,
            features: feature_summary(shared.controller.feature_state(device_id)),
            calls: DeviceCallSummary { calls, selected, selected_line },
        },
    )
}

/// A line on one button, with the calls that stand there.
#[derive(Debug, PartialEq, Eq)]
pub struct LineAppearanceSnapshot {
    pub id: u32,
    pub device_id: DeviceId,
    pub instance: u32,
    pub label: String,
    pub ring: AppearanceRingMode,
    pub privacy: bool,
    pub subscription: Option<String>,
    pub registered: bool,
    pub calls: LineCallSummary,
}

/// Everything that is known of a line.
#[derive(Debug, PartialEq, Eq)]
pub struct LineQuerySnapshot {
    pub number: String,
    pub label: String,
    pub context: String,
    pub caller_name: String,
    pub caller_number: String,
    pub mailbox: Option<String>,
    pub calls: LineCallSummary,
    pub appearances: Vec<LineAppearanceSnapshot>,
}

/// The snapshot describes this appearance; a roaming one always rings normally.
pub open spec fn describes_appearance(
    snapshot: LineAppearanceSnapshot,
    shared: Shared,
    binding: LineBinding,
    roaming: bool,
) -> bool {
    &&& snapshot.id == binding.appearance.id
    &&& snapshot.device_id == binding.device_id
    &&& snapshot.instance == binding.line_instance
    &&& snapshot.label == binding.appearance.label
    &&& snapshot.ring == if roaming {
        AppearanceRingMode::Normal
    } else {
        binding.appearance.ring_mode
    }
    &&& snapshot.privacy == binding.appearance.privacy
    &&& snapshot.subscription == binding.appearance.subscription_identity
    &&& snapshot.registered == shared.controller.registered_spec(binding.device_id@)
    &&& counts(
        snapshot.calls,
        shared.controller.appearances@.filter_map(
            state_at(binding.device_id@, binding.line_instance),
        ),
    )
}

fn describe_appearance(shared: &Shared, binding: &LineBinding, roaming: bool) -> (snapshot:
    LineAppearanceSnapshot)
    ensures
        describes_appearance(snapshot, *shared, *binding, roaming),
{
    let states = states_at(&shared.controller, &binding.device_id, Some(binding.line_instance));
    LineAppearanceSnapshot {
        id: binding.appearance.id,
        device_id: binding.device_id.clone(),
        instance: binding.line_instance,
        label: binding.appearance.label.clone(),
        ring: if roaming {
            AppearanceRingMode::Normal
        } else {
            binding.appearance.ring_mode
        },
        privacy: binding.appearance.privacy,
        subscription: cloned_text(&binding.appearance.subscription_identity),
        registered: shared.controller.is_registered(&binding.device_id),
        calls: count_states(&states),
    }
}

/// The appearance is listed before the other: by station, then by button, then by
/// number.
pub open spec fn listed_before(left: LineAppearanceSnapshot, right: LineAppearanceSnapshot) -> bool {
    ||| text::text_less(left.device_id@, right.device_id@)
    ||| left.device_id@ == right.device_id@ && (left.instance < right.instance || left.instance
        == right.instance && left.id < right.id)
}

/// Nothing is listed after what it should stand before.
pub open spec fn in_listing_order(appearances: Seq<LineAppearanceSnapshot>) -> bool {
    forall|i: int, j: int|
        0 <= i < j < appearances.len() ==> !listed_before(
            #[trigger] appearances[j],
            #[trigger] appearances[i],
        )
}

fn is_listed_before(left: &LineAppearanceSnapshot, right: &LineAppearanceSnapshot) -> (before: bool)
    ensures
        before == listed_before(*left, *right),
{
    proof {
        text::lemma_text_order(left.device_id@, right.device_id@);
    }
    if left.device_id.same(&right.device_id) {
        left.instance < right.instance || (left.instance == right.instance && left.id < right.id)
    } else {
        precedes(left.device_id.as_str(), right.device_id.as_str())
    }
}

/// Puts an appearance where it belongs, behind what is listed alike.
fn list_appearance(listed: &mut Vec<LineAppearanceSnapshot>, appearance: LineAppearanceSnapshot)
    requires
        in_listing_order(old(listed)@),
    ensures
        in_listing_order(final(listed)@),
        final(listed)@.to_multiset() == old(listed)@.to_multiset().insert(appearance),
{
    let ghost before = listed@;
    let mut i: usize = listed.len();
    while i > 0 && is_listed_before(&appearance, &listed[i - 1])
        invariant
            0 <= i <= listed@.len(),
            listed@ == before,
            forall|j: int| i <= j < before.len() ==> listed_before(appearance, #[trigger] before[j]),
        decreases i,
    {
        i -= 1;
    }
    listed.insert(i, appearance);
    proof {
        let after = listed@;
        assert(after == before.insert(i as int, appearance));
        assert(after.to_multiset() == before.to_multiset().insert(appearance)) by {
            broadcast use vstd::seq_lib::group_to_multiset_ensures;

        }
        assert forall|a: int, b: int| 0 <= a < b < after.len() implies !listed_before(
            #[trigger] after[b],
            #[trigger] after[a],
        ) by {
            let left = if a < i {
                before[a]
            } else if a == i {
                appearance
            } else {
                before[a - 1]
            };
            let right = if b < i {
                before[b]
            } else if b == i {
                appearance
            } else {
                before[b - 1]
            };
            assert(after[a] == left && after[b] == right);
            if a == i {
                text::lemma_text_order(appearance.device_id@, right.device_id@);
            } else if b == i {
                if a < i - 1 {
                    assert(!listed_before(before[i - 1], before[a]));
                    if listed_before(appearance, before[a]) {
                        lemma_listing_forward(appearance, before[a], before[i - 1]);
                    }
                }
            }
        }
    }
}

/// What stands before something also stands before what comes later.
proof fn lemma_listing_forward(
    first: LineAppearanceSnapshot,
    second: LineAppearanceSnapshot,
    third: LineAppearanceSnapshot,
)
    requires
        listed_before(first, second),
        !listed_before(third, second),
    ensures
        listed_before(first, third),
{
    let (a, b, c) = (first.device_id@, second.device_id@, third.device_id@);
    text::lemma_text_order(a, b);
    text::lemma_text_order(b, c);
    text::lemma_text_order(a, c);
    if text::text_less(a, b) && text::text_less(b, c) {
        text::lemma_text_order_chains(a, b, c);
    }
}

/// The appearance roams with this line.
pub open spec fn roams_with(number: Seq<char>) -> spec_fn(MobilityAppearance) -> bool {
    |appearance: MobilityAppearance| appearance.binding.line.number@ == number
}

/// The binding shows this line where the call stands.
pub open spec fn shows_under(number: Seq<char>, call: CallAppearance) -> spec_fn(LineBinding) -> bool {
    |binding: LineBinding|
        binding.line.number@ == number && binding.device_id@ == call.device_id@
            && binding.line_instance == call.line_instance
}

pub open spec fn roams_under(number: Seq<char>, call: CallAppearance) -> spec_fn(
    MobilityAppearance,
) -> bool {
    |appearance: MobilityAppearance|
        appearance.binding.line.number@ == number && appearance.binding.device_id@
            == call.device_id@ && appearance.binding.line_instance == call.line_instance
}

/// A call of this number stands on the line.
pub open spec fn stands_on(shared: Shared, number: Seq<char>, pbx_id: PbxCallId) -> spec_fn(
    CallAppearance,
) -> bool {
    |call: CallAppearance|
        call.pbx_id == pbx_id && (lookup::some(shared.config.bindings@, shows_under(number, call))
            || lookup::some(shared.controller.mobility@, roams_under(number, call)))
}

/// The state of a call, if it stands on the line.
pub open spec fn line_state(shared: Shared, number: Seq<char>) -> spec_fn(PbxCall) -> Option<
    CallState,
> {
    |call: PbxCall|
        if lookup::some(shared.controller.appearances@, stands_on(shared, number, call.pbx_id)) {
            Some(call.state)
        } else {
            None
        }
}

fn stands_on_line(shared: &Shared, number: &str, pbx_id: PbxCallId) -> (found: bool)
    ensures
        found == lookup::some(
            shared.controller.appearances@,
            stands_on(*shared, number@, pbx_id),
        ),
{
    any(
        &shared.controller.appearances,
        |call: &CallAppearance| -> (found: bool)
            ensures
                found == stands_on(*shared, number@, pbx_id)(*call)
            { call.pbx_id == pbx_id && call_on_line(shared, number, call) },
        Ghost(stands_on(*shared, number@, pbx_id)),
    )
}

fn call_on_line(shared: &Shared, number: &str, call: &CallAppearance) -> (found: bool)
    ensures
        found == (lookup::some(shared.config.bindings@, shows_under(number@, *call))
            || lookup::some(shared.controller.mobility@, roams_under(number@, *call))),
{
    let instance: u32 = call.line_instance;
    if any(
        &shared.config.bindings,
        |binding: &LineBinding| -> (found: bool)
            ensures
                found == shows_under(number@, *call)(*binding)
            {
                same_text(binding.line.number.as_str(), number) && binding.device_id.same(
                    &call.device_id,
                ) && binding.line_instance == instance
            },
        Ghost(shows_under(number@, *call)),
    ) {
        return true;
    }
    any(
        &shared.controller.mobility,
        |appearance: &MobilityAppearance| -> (found: bool)
            ensures
                found == roams_under(number@, *call)(*appearance)
            {
                same_text(appearance.binding.line.number.as_str(), number)
                    && appearance.binding.device_id.same(&call.device_id)
                    && appearance.binding.line_instance == instance
            },
        Ghost(roams_under(number@, *call)),
    )
}

/// The entries describe the appearances of a line, configured ones before roaming
/// ones.
pub open spec fn describe_all(
    entries: Seq<LineAppearanceSnapshot>,
    shared: Shared,
    configured: Seq<LineBinding>,
    roaming: Seq<MobilityAppearance>,
) -> bool {
    &&& entries.len() == configured.len() + roaming.len()
    &&& forall|i: int|
        #![trigger configured[i]]
        0 <= i < configured.len() ==> describes_appearance(
            entries[i],
            shared,
            configured[i],
            false,
        )
    &&& forall|i: int|
        #![trigger roaming[i]]
        0 <= i < roaming.len() ==> describes_appearance(
            entries[configured.len() + i],
            shared,
            roaming[i].binding,
            true,
        )
}

/// The listing holds every appearance of a line once, in order.
pub open spec fn lists_line(listed: Seq<LineAppearanceSnapshot>, shared: Shared, number: Seq<char>) ->
    bool {
    &&& in_listing_order(listed)
    &&& exists|entries: Seq<LineAppearanceSnapshot>|
        {
            &&& #[trigger] describe_all(
                entries,
                shared,
                shared.config.bindings@.filter(config::shows_line(number)),
                shared.controller.mobility@.filter(roams_with(number)),
            )
            &&& listed.to_multiset() == entries.to_multiset()
        }
}

fn list_line(shared: &Shared, number: &str) -> (listed: Vec<LineAppearanceSnapshot>)
    ensures
        lists_line(listed@, *shared, number@),
{
    let ghost p = config::shows_line(number@);
    let ghost q = roams_with(number@);
    let mut listed: Vec<LineAppearanceSnapshot> = Vec::new();
    let ghost mut entries: Seq<LineAppearanceSnapshot> = Seq::empty();
    proof {
        reveal(Seq::filter);
        assert(listed@ =~= entries);
    }
    let mut i: usize = 0;
    while i < shared.config.bindings.len()
        invariant
            p == config::shows_line(number@),
            0 <= i <= shared.config.bindings@.len(),
            in_listing_order(listed@),
            listed@.to_multiset() == entries.to_multiset(),
            describe_all(
                entries,
                *shared,
                shared.config.bindings@.take(i as int).filter(p),
                Seq::<MobilityAppearance>::empty(),
            ),
        decreases shared.config.bindings@.len() - i,
    {
        let ghost shorter = shared.config.bindings@.take(i as int).filter(p);
        let ghost longer = shared.config.bindings@.take(i + 1).filter(p);
        let ghost none = Seq::<MobilityAppearance>::empty();
        let binding = &shared.config.bindings[i];
        proof {
            lookup::lemma_filter_step(shared.config.bindings@, p, i as int);
        }
        if same_text(binding.line.number.as_str(), number) {
            let entry = describe_appearance(shared, binding, false);
            proof {
                let grown = entries.push(entry);
                assert(grown.to_multiset() == entries.to_multiset().insert(entry)) by {
                    broadcast use vstd::seq_lib::group_to_multiset_ensures;

                }
                assert forall|k: int|
                    #![trigger longer[k]]
                    0 <= k < longer.len() implies describes_appearance(
                    grown[k],
                    *shared,
                    longer[k],
                    false,
                ) by {
                    if k < shorter.len() {
                        assert(longer[k] == shorter[k]);
                    }
                }
                assert(describe_all(grown, *shared, longer, none));
                entries = grown;
            }
            list_appearance(&mut listed, entry);
        }
        i += 1;
    }
    proof {
        assert(shared.config.bindings@.take(i as int) =~= shared.config.bindings@);
    }
    let ghost configured = shared.config.bindings@.filter(p);
    proof {
        assert(shared.controller.mobility@.take(0).filter(q) =~= Seq::empty()) by {
            reveal(Seq::filter);
        }
    }
    let mut k: usize = 0;
    while k < shared.controller.mobility.len()
        invariant
            p == config::shows_line(number@),
            q == roams_with(number@),
            0 <= k <= shared.controller.mobility@.len(),
            in_listing_order(listed@),
            listed@.to_multiset() == entries.to_multiset(),
            configured == shared.config.bindings@.filter(p),
            describe_all(
                entries,
                *shared,
                configured,
                shared.controller.mobility@.take(k as int).filter(q),
            ),
        decreases shared.controller.mobility@.len() - k,
    {
        let ghost shorter = shared.controller.mobility@.take(k as int).filter(q);
        let ghost longer = shared.controller.mobility@.take(k + 1).filter(q);
        let roaming = &shared.controller.mobility[k];
        proof {
            lookup::lemma_filter_step(shared.controller.mobility@, q, k as int);
        }
        if same_text(roaming.binding.line.number.as_str(), number) {
            let entry = describe_appearance(shared, &roaming.binding, true);
            proof {
                let grown = entries.push(entry);
                assert(grown.to_multiset() == entries.to_multiset().insert(entry)) by {
                    broadcast use vstd::seq_lib::group_to_multiset_ensures;

                }
                assert forall|j: int|
                    #![trigger configured[j]]
                    0 <= j < configured.len() implies describes_appearance(
                    grown[j],
                    *shared,
                    configured[j],
                    false,
                ) by {
                    assert(grown[j] == entries[j]);
                }
                assert forall|j: int|
                    #![trigger longer[j]]
                    0 <= j < longer.len() implies describes_appearance(
                    grown[configured.len() + j],
                    *shared,
                    longer[j].binding,
                    true,
                ) by {
                    if j < shorter.len() {
                        assert(longer[j] == shorter[j]);
                        assert(grown[configured.len() + j] == entries[configured.len() + j]);
                    }
                }
                assert(describe_all(grown, *shared, configured, longer));
                entries = grown;
            }
            list_appearance(&mut listed, entry);
        }
        k += 1;
    }
    proof {
        assert(shared.controller.mobility@.take(k as int) =~= shared.controller.mobility@);
    }
    listed
}

/// The snapshot describes the line.
pub open spec fn describes_line(
    snapshot: LineQuerySnapshot,
    shared: Shared,
    line: LineConfig,
    number: Seq<char>,
) -> bool {
    &&& snapshot.number == line.number
    &&& snapshot.label == line.label
    &&& snapshot.context == line.context
    &&& snapshot.caller_name == line.caller_name
    &&& snapshot.caller_number == line.caller_number
    &&& snapshot.mailbox == line.mailbox
    &&& lists_line(snapshot.appearances@, shared, number)
    &&& counts(
        snapshot.calls,
        shared.controller.calls@.filter_map(line_state(shared, number)),
    )
}

/// Describes a configured line with its appearances and calls; a call on several
/// appearances counts once.
pub fn line_query_snapshot(shared: &Shared, number: &str) -> (snapshot: Option<LineQuerySnapshot>)
    ensures
        match lookup::first(shared.config.lines@, config::is_line(number@)) {
            None => snapshot is None,
            Some(line) => snapshot matches Some(snapshot) && describes_line(
                snapshot,
                *shared,
                line,
                number@,
            ),
        },
{
    let line = match shared.config.line(number) {
        Some(line) => line,
        None => {
            return None;
        },
    };
    let states = gather(
        &shared.controller.calls,
        shared.controller.calls.len(),
        |call: &PbxCall| -> (state: Option<CallState>)
            ensures
                state == line_state(*shared, number@)(*call)
            {
                if stands_on_line(shared, number, call.pbx_id) {
                    Some(call.state)
                } else {
                    None
                }
            },
        Ghost(line_state(*shared, number@)),
    );
    proof {
        let all = shared.controller.calls@;
        assert(all.take(all.len() as int) =~= all);
    }
    let calls = count_states(&states);
    Some(
        LineQuerySnapshot {
            number: line.number.clone(),
            label: line.label.clone(),
            context: line.context.clone(),
            caller_name: line.caller_name.clone(),
            caller_number: line.caller_number.clone(),
            mailbox: cloned_text(&line.mailbox),
            calls,
            appearances: list_line(shared, number),
        },
    )
}

#[derive(Clone, Copy, Debug, PartialEq, Eq, Structural)]
pub enum ChannelDirectionSummary {
    Inbound,
    Outbound,
}

pub open spec fn direction_summary(direction: CallDirection) -> ChannelDirectionSummary {
    match direction {
        CallDirection::Inbound => ChannelDirectionSummary::Inbound,
        CallDirection::Outbound => ChannelDirectionSummary::Outbound,
    }
}

pub fn channel_direction_summary(direction: CallDirection) -> (summary: ChannelDirectionSummary)
    ensures
        summary == direction_summary(direction),
{
    match direction {
        CallDirection::Inbound => ChannelDirectionSummary::Inbound,
        CallDirection::Outbound => ChannelDirectionSummary::Outbound,
    }
}

/// A call on one station.
#[derive(Debug, PartialEq, Eq)]
pub struct ChannelAppearanceSnapshot {
    pub call_id: CallId,
    pub device_id: DeviceId,
    pub line_instance: u32,
    pub state: ChannelStateSummary,
    pub privacy: bool,
    pub codec: Codec,
    pub audio: ChannelMediaStateSummary,
    pub video: ChannelMediaStateSummary,
}

/// Everything that is known of a call.
#[derive(Debug, PartialEq, Eq)]
pub struct ChannelQuerySnapshot {
    pub pbx_id: PbxCallId,
    pub name: Option<String>,
    pub line: String,
    pub context: String,
    pub state: ChannelStateSummary,
    pub direction: ChannelDirectionSummary,
    pub dialed_number: String,
    pub ani: Option<String>,
    pub dnid: Option<String>,
    pub rdnis: Option<String>,
    pub account_code_set: bool,
    pub language: Option<String>,
    pub variable_count: usize,
    pub privacy: bool,
    pub selected_call_id: Option<CallId>,
    pub active_call_id: Option<CallId>,
    pub audio_packet_ms: Option<u32>,
    pub audio_preferences: Vec<PbxAudioFormat>,
    pub appearances: Vec<ChannelAppearanceSnapshot>,
}

/// The appearance of a call, summed up; none of another call.
pub open spec fn appearance_summary(pbx_id: PbxCallId) -> spec_fn(CallAppearance) -> Option<
    ChannelAppearanceSnapshot,
> {
    |call: CallAppearance|
        if call.pbx_id == pbx_id {
            Some(
                ChannelAppearanceSnapshot {
                    call_id: call.sccp_id,
                    device_id: call.device_id,
                    line_instance: call.line_instance,
                    state: state_summary(call.state),
                    privacy: call.privacy,
                    codec: call.codec,
                    audio: audio_summary(call.audio),
                    video: both_summary(call.video),
                },
            )
        } else {
            None
        }
}

fn summarize_appearance(call: &CallAppearance, pbx_id: PbxCallId) -> (summary: Option<
    ChannelAppearanceSnapshot,
>)
    ensures
        summary == appearance_summary(pbx_id)(*call),
{
    if call.pbx_id != pbx_id {
        return None;
    }
    Some(
        ChannelAppearanceSnapshot {
            call_id: call.sccp_id,
            device_id: call.device_id.clone(),
            line_instance: call.line_instance,
            state: channel_state_summary(call.state),
            privacy: call.privacy,
            codec: call.codec,
            audio: channel_media_state_summary(call.audio),
            video: video_media_state_summary(&call.video),
        },
    )
}

/// An identity that the caller does not hide, of a call that is not private.
pub open spec fn shown_identity(identity: Option<String>, visible: bool, privacy: bool) -> Option<
    String,
> {
    if visible && !privacy {
        identity
    } else {
        None
    }
}

fn show_identity(identity: &Option<String>, visible: bool, privacy: bool) -> (shown: Option<String>)
    ensures
        shown == shown_identity(*identity, visible, privacy),
{
    if visible && !privacy {
        cloned_text(identity)
    } else {
        None
    }
}

/// The snapshot describes the call.
pub open spec fn describes_call(
    snapshot: ChannelQuerySnapshot,
    shared: Shared,
    call: PbxCall,
    selected_call_id: Option<CallId>,
    formats: Seq<AudioFormat>,
    packet_ms: u32,
) -> bool {
    let record = lookup::first(shared.controller.runtime@, controller::record_of(snapshot.pbx_id));
    &&& match shared.live_channel_spec(snapshot.pbx_id) {
        Some(channel) => match channel.name {
            Some(name) => snapshot.name matches Some(shown) && shown@ == name@,
            None => snapshot.name is None,
        },
        None => snapshot.name is None,
    }
    &&& snapshot.line == call.line
    &&& snapshot.context == call.context
    &&& snapshot.state == state_summary(call.state)
    &&& snapshot.direction == direction_summary(call.direction)
    &&& snapshot.dialed_number == call.digits
    &&& snapshot.ani == shown_identity(call.metadata.ani, call.metadata.ani_visible, call.privacy)
    &&& snapshot.dnid == call.metadata.dnid
    &&& snapshot.rdnis == shown_identity(
        call.metadata.rdnis,
        call.metadata.rdnis_visible,
        call.privacy,
    )
    &&& snapshot.account_code_set == (call.metadata.account_code is Some)
    &&& snapshot.language == call.metadata.language
    &&& snapshot.variable_count == call.metadata.variables@.len()
    &&& snapshot.privacy == call.privacy
    &&& snapshot.selected_call_id == selected_call_id
    &&& snapshot.active_call_id == call.active_call_id
    &&& snapshot.audio_packet_ms == match record {
        Some(record) => record.audio_packet_ms,
        None => None,
    }
    &&& snapshot.audio_preferences@ == match preferences::context_spec(
        shared,
        snapshot.pbx_id,
        formats,
        packet_ms,
    ) {
        Ok((_, effective)) => effective,
        Err(_) => Seq::empty(),
    }
    &&& snapshot.appearances@ == shared.controller.appearances@.filter_map(
        appearance_summary(snapshot.pbx_id),
    )
}

/// Describes a call; identities that the caller hides stay hidden.
pub fn channel_query_snapshot(
    shared: &Shared,
    pbx_id: PbxCallId,
    selected_call_id: Option<CallId>,
    formats: &Vec<AudioFormat>,
    packet_ms: u32,
) -> (snapshot: Option<ChannelQuerySnapshot>)
    ensures
        match lookup::first(shared.controller.calls@, controller::is_pbx_call(pbx_id)) {
            None => snapshot is None,
            Some(call) => snapshot matches Some(snapshot) && snapshot.pbx_id == pbx_id
                && describes_call(
                snapshot,
                *shared,
                call,
                selected_call_id,
                formats@,
                packet_ms,
            ),
        },
{
    let call = match shared.controller.pbx_call(pbx_id) {
        Some(call) => call,
        None => {
            return None;
        },
    };
    let name = match referenced_channel(shared, pbx_id) {
        Some(channel) => match channel_name(channel) {
            Some(name) => Some(name.to_owned()),
            None => None,
        },
        None => None,
    };
    let audio_packet_ms = match shared.controller.call_runtime_record(pbx_id) {
        Some(record) => record.audio_packet_ms,
        None => None,
    };
    let audio_preferences = match codec_preference_context(shared, pbx_id, formats, packet_ms) {
        Ok(context) => context.effective,
        Err(_) => Vec::new(),
    };
    let appearances = gather(
        &shared.controller.appearances,
        shared.controller.appearances.len(),
        |call: &CallAppearance| -> (summary: Option<ChannelAppearanceSnapshot>)
            ensures
                summary == appearance_summary(pbx_id)(*call)
            { summarize_appearance(call, pbx_id) },
        Ghost(appearance_summary(pbx_id)),
    );
    proof {
        let all = shared.controller.appearances@;
        assert(all.take(all.len() as int) =~= all);
    }
    Some(
        ChannelQuerySnapshot {
            pbx_id,
            name,
            line: call.line.clone(),
            context: call.context.clone(),
            state: channel_state_summary(call.state),
            direction: channel_direction_summary(call.direction),
            dialed_number: call.digits.clone(),
            ani: show_identity(&call.metadata.ani, call.metadata.ani_visible, call.privacy),
            dnid: cloned_text(&call.metadata.dnid),
            rdnis: show_identity(&call.metadata.rdnis, call.metadata.rdnis_visible, call.privacy),
            account_code_set: call.metadata.account_code.is_some(),
            language: cloned_text(&call.metadata.language),
            variable_count: call.metadata.variables.len(),
            privacy: call.privacy,
            selected_call_id,
            active_call_id: call.active_call_id,
            audio_packet_ms,
            audio_preferences,
            appearances,
        },
    )
}

/// Which call is asked about.
#[derive(Debug, PartialEq, Eq)]
pub enum ChannelQueryTarget {
    /// The one whose channel asks.
    Current,
    Pbx(PbxCallId),
    Call(CallId),
    Name(String),
}

/// The call that a query is about, and the appearance that it names; `current` is
/// the call of the channel that asks, if it belongs to the driver.
pub fn channel_query_target(
    shared: &Shared,
    target: &ChannelQueryTarget,
    current: Option<PbxCallId>,
) -> (found: Result<Option<(PbxCallId, Option<CallId>)>, ChannelQueryLookupError>)
    ensures
        match *target {
            ChannelQueryTarget::Current => match current {
                Some(pbx_id) => found matches Ok(Some((id, selected))) && id == pbx_id
                    && selected is None,
                None => found matches Err(error) && error
                    == ChannelQueryLookupError::CurrentChannelUnavailable,
            },
            ChannelQueryTarget::Pbx(pbx_id) => found matches Ok(Some((id, selected))) && id
                == pbx_id && selected is None,
            ChannelQueryTarget::Call(call_id) => match lookup::first(
                shared.controller.appearances@,
                controller::is_call(call_id),
            ) {
                Some(call) => found matches Ok(Some((id, selected))) && id == call.pbx_id
                    && selected == Some(call_id),
                None => found matches Ok(None),
            },
            ChannelQueryTarget::Name(name) => match access::named_call_spec(*shared, name@) {
                Ok(Some(pbx_id)) => found matches Ok(Some((id, selected))) && id == pbx_id
                    && selected is None,
                Ok(None) => found matches Ok(None),
                Err(error) => found matches Err(reported) && reported == error,
            },
        },
{
    match target {
        ChannelQueryTarget::Current => match current {
            Some(pbx_id) => Ok(Some((pbx_id, None))),
            None => Err(ChannelQueryLookupError::CurrentChannelUnavailable),
        },
        ChannelQueryTarget::Pbx(pbx_id) => Ok(Some((*pbx_id, None))),
        ChannelQueryTarget::Call(call_id) => match shared.controller.call(*call_id) {
            Some(call) => Ok(Some((call.pbx_id, Some(*call_id)))),
            None => Ok(None),
        },
        ChannelQueryTarget::Name(name) => match pbx_id_for_channel_name(shared, name.as_str()) {
            Ok(Some(pbx_id)) => Ok(Some((pbx_id, None))),
            Ok(None) => Ok(None),
            Err(error) => Err(error),
        },
    }
}

/// A station or line that is asked about; a query about the current one takes that of
/// the call whose channel asks.
#[derive(Debug, PartialEq, Eq)]
pub enum QueryTarget<T> {
    Current,
    Named(T),
}

/// What a query is about; `current` is that of the call whose channel asks. None is
/// found for a channel that is not of the driver.
pub fn query_target<T>(target: QueryTarget<T>, current: Option<T>) -> (found: Option<T>)
    ensures
        found == match target {
            QueryTarget::Named(named) => Some(named),
            QueryTarget::Current => current,
        },
{
    match target {
        QueryTarget::Named(named) => Some(named),
        QueryTarget::Current => current,
    }
}

/// A hidden identity is not shown, and neither is any of a private call.
pub proof fn law_hidden_identities_stay_hidden(
    snapshot: ChannelQuerySnapshot,
    shared: Shared,
    call: PbxCall,
    selected_call_id: Option<CallId>,
    formats: Seq<AudioFormat>,
    packet_ms: u32,
)
    requires
        describes_call(snapshot, shared, call, selected_call_id, formats, packet_ms),
    ensures
        call.privacy ==> snapshot.ani is None && snapshot.rdnis is None,
        !call.metadata.ani_visible ==> snapshot.ani is None,
        !call.metadata.rdnis_visible ==> snapshot.rdnis is None,
{
}

/// The calls that the entries of a line count together.
pub open spec fn total_calls(entries: Seq<LineAppearanceSnapshot>) -> int
    decreases entries.len(),
{
    if entries.len() == 0 {
        0
    } else {
        total_calls(entries.drop_last()) + entries.last().calls.total
    }
}

proof fn lemma_total_without(entries: Seq<LineAppearanceSnapshot>, i: int)
    requires
        0 <= i < entries.len(),
    ensures
        total_calls(entries) == total_calls(entries.remove(i)) + entries[i].calls.total,
    decreases entries.len(),
{
    let rest = entries.drop_last();
    if i == entries.len() - 1 {
        assert(entries.remove(i) =~= rest);
    } else {
        lemma_total_without(rest, i);
        assert(entries.remove(i).drop_last() =~= rest.remove(i));
        assert(entries.remove(i).last() == entries.last());
    }
}

/// The order in which entries stand does not matter.
proof fn lemma_total_of_listing(
    listed: Seq<LineAppearanceSnapshot>,
    entries: Seq<LineAppearanceSnapshot>,
)
    requires
        listed.to_multiset() == entries.to_multiset(),
    ensures
        total_calls(listed) == total_calls(entries),
    decreases entries.len(),
{
    broadcast use vstd::seq_lib::group_to_multiset_ensures;

    assert(listed.len() == listed.to_multiset().len());
    assert(entries.len() == entries.to_multiset().len());
    if entries.len() > 0 {
        let x = entries.last();
        let last = entries.len() - 1;
        assert(entries[last] == x);
        assert(entries.contains(x));
        assert(entries.to_multiset().count(x) > 0);
        assert(listed.contains(x));
        let i = choose|i: int| 0 <= i < listed.len() && listed[i] == x;
        assert(entries.remove(last) =~= entries.drop_last());
        assert(listed.remove(i).to_multiset() == listed.to_multiset().remove(x));
        assert(entries.remove(last).to_multiset() == entries.to_multiset().remove(x));
        lemma_total_without(listed, i);
        lemma_total_without(entries, last);
        lemma_total_of_listing(listed.remove(i), entries.remove(last));
    }
}

/// The calls that stand at some bindings, counted once for each of them.
spec fn calls_at(bindings: Seq<LineBinding>, calls: Seq<CallAppearance>) -> int
    decreases bindings.len(),
{
    if bindings.len() == 0 {
        0
    } else {
        let last = bindings.last();
        calls_at(bindings.drop_last(), calls) + calls.filter_map(
            state_at(last.device_id@, last.line_instance),
        ).len()
    }
}

spec fn is_at(binding: LineBinding, call: CallAppearance) -> bool {
    call.device_id@ == binding.device_id@ && call.line_instance == binding.line_instance
}

proof fn lemma_one_more_call(bindings: Seq<LineBinding>, calls: Seq<CallAppearance>, k: int)
    requires
        0 <= k < calls.len(),
    ensures
        calls_at(bindings, calls.take(k + 1)) >= calls_at(bindings, calls.take(k)),
        (exists|i: int| 0 <= i < bindings.len() && is_at(#[trigger] bindings[i], calls[k]))
            ==> calls_at(bindings, calls.take(k + 1)) >= calls_at(bindings, calls.take(k)) + 1,
    decreases bindings.len(),
{
    if bindings.len() > 0 {
        let last = bindings.last();
        let rest = bindings.drop_last();
        lemma_one_more_call(rest, calls, k);
        lookup::lemma_filter_map_step(calls, state_at(last.device_id@, last.line_instance), k);
        if exists|i: int| 0 <= i < bindings.len() && is_at(#[trigger] bindings[i], calls[k]) {
            let i = choose|i: int|
                0 <= i < bindings.len() && is_at(#[trigger] bindings[i], calls[k]);
            if i < rest.len() {
                assert(is_at(rest[i], calls[k]));
            } else {
                assert(bindings[i] == last);
            }
        }
    }
}

/// The state of a call of the switch, if it stands on the line among these.
spec fn state_among(shared: Shared, number: Seq<char>, calls: Seq<CallAppearance>) -> spec_fn(
    PbxCall,
) -> Option<CallState> {
    |call: PbxCall|
        if lookup::some(calls, stands_on(shared, number, call.pbx_id)) {
            Some(call.state)
        } else {
            None
        }
}

spec fn stands_anywhere(shared: Shared, number: Seq<char>, call: CallAppearance) -> bool {
    lookup::some(shared.config.bindings@, shows_under(number, call)) || lookup::some(
        shared.controller.mobility@,
        roams_under(number, call),
    )
}

/// One appearance more adds at most the one call that it belongs to.
proof fn lemma_one_more_state(
    shared: Shared,
    number: Seq<char>,
    pbx: Seq<PbxCall>,
    calls: Seq<CallAppearance>,
    k: int,
)
    requires
        0 <= k < calls.len(),
        forall|i: int, j: int|
            0 <= i < j < pbx.len() ==> (#[trigger] pbx[i]).pbx_id != (#[trigger] pbx[j]).pbx_id,
    ensures
        ({
            let more = pbx.filter_map(state_among(shared, number, calls.take(k + 1))).len();
            let less = pbx.filter_map(state_among(shared, number, calls.take(k))).len();
            &&& more <= less + 1
            &&& !stands_anywhere(shared, number, calls[k]) ==> more <= less
            &&& (forall|i: int| 0 <= i < pbx.len() ==> (#[trigger] pbx[i]).pbx_id != calls[k].pbx_id)
                ==> more <= less
        }),
    decreases pbx.len(),
{
    let longer = state_among(shared, number, calls.take(k + 1));
    let shorter = state_among(shared, number, calls.take(k));
    if pbx.len() == 0 {
        reveal(Seq::filter_map);
    } else {
        let rest = pbx.drop_last();
        let last = pbx.last();
        let n = pbx.len() - 1;
        lemma_one_more_state(shared, number, rest, calls, k);
        lookup::lemma_filter_map_step(pbx, longer, n);
        lookup::lemma_filter_map_step(pbx, shorter, n);
        assert(pbx.take(n) =~= rest);
        assert(pbx.take(n + 1) =~= pbx);
        let q = stands_on(shared, number, last.pbx_id);
        let before = calls.take(k);
        let after = calls.take(k + 1);
        if lookup::some(after, q) && !lookup::some(before, q) {
            let i = choose|i: int| 0 <= i < after.len() && q(#[trigger] after[i]);
            if i < k {
                assert(q(before[i]));
            }
            assert(i == k);
            assert(last.pbx_id == calls[k].pbx_id);
            assert forall|j: int| 0 <= j < rest.len() implies (#[trigger] rest[j]).pbx_id
                != calls[k].pbx_id by {
                assert(pbx[j].pbx_id != pbx[n].pbx_id);
            }
        } else if lookup::some(before, q) {
            let i = choose|i: int| 0 <= i < before.len() && q(#[trigger] before[i]);
            assert(q(after[i]));
        }
        assert forall|j: int| 0 <= j < rest.len() implies #[trigger] rest[j] == pbx[j] by {}
        assert(pbx[n] == last);
    }
}

/// The bindings of a line: configured ones before roaming ones.
spec fn bindings_of(shared: Shared, number: Seq<char>) -> Seq<LineBinding> {
    shared.config.bindings@.filter(config::shows_line(number))
        + shared.controller.mobility@.filter(roams_with(number)).map_values(
        |roaming: MobilityAppearance| roaming.binding,
    )
}

/// Where a call stands on the line, the line has a binding.
proof fn lemma_standing_has_binding(shared: Shared, number: Seq<char>, call: CallAppearance)
    requires
        stands_anywhere(shared, number, call),
    ensures
        exists|i: int|
            0 <= i < bindings_of(shared, number).len() && is_at(
                #[trigger] bindings_of(shared, number)[i],
                call,
            ),
{
    let all = bindings_of(shared, number);
    let configured = shared.config.bindings@.filter(config::shows_line(number));
    let roaming = shared.controller.mobility@.filter(roams_with(number));
    if lookup::some(shared.config.bindings@, shows_under(number, call)) {
        let bindings = shared.config.bindings@;
        let k = choose|k: int| 0 <= k < bindings.len() && shows_under(number, call)(
            #[trigger] bindings[k],
        );
        assert(config::shows_line(number)(bindings[k]));
        bindings.lemma_filter_contains(config::shows_line(number), k);
        let i = choose|i: int| 0 <= i < configured.len() && configured[i] == bindings[k];
        assert(all[i] == configured[i]);
        assert(is_at(all[i], call));
    } else {
        let mobility = shared.controller.mobility@;
        let k = choose|k: int| 0 <= k < mobility.len() && roams_under(number, call)(
            #[trigger] mobility[k],
        );
        assert(roams_with(number)(mobility[k]));
        mobility.lemma_filter_contains(roams_with(number), k);
        let i = choose|i: int| 0 <= i < roaming.len() && roaming[i] == mobility[k];
        assert(all[configured.len() + i] == roaming[i].binding);
        assert(is_at(all[configured.len() + i], call));
    }
}

/// Every call on the line is counted at one binding at least.
proof fn lemma_states_within_bindings(shared: Shared, number: Seq<char>, k: int)
    requires
        shared.controller.wf(),
        0 <= k <= shared.controller.appearances@.len(),
    ensures
        shared.controller.calls@.filter_map(
            state_among(shared, number, shared.controller.appearances@.take(k)),
        ).len() <= calls_at(
            bindings_of(shared, number),
            shared.controller.appearances@.take(k),
        ),
    decreases k,
{
    let calls = shared.controller.appearances@;
    let pbx = shared.controller.calls@;
    let bindings = bindings_of(shared, number);
    if k == 0 {
        lemma_no_states(shared, number, pbx);
        lemma_calls_are_counted(bindings, calls.take(0));
        assert(calls.take(0) =~= Seq::empty());
    } else {
        lemma_states_within_bindings(shared, number, k - 1);
        lemma_one_more_state(shared, number, pbx, calls, k - 1);
        lemma_one_more_call(bindings, calls, k - 1);
        if stands_anywhere(shared, number, calls[k - 1]) {
            lemma_standing_has_binding(shared, number, calls[k - 1]);
        }
    }
}

proof fn lemma_no_states(shared: Shared, number: Seq<char>, pbx: Seq<PbxCall>)
    ensures
        pbx.filter_map(state_among(shared, number, Seq::empty())).len() == 0,
    decreases pbx.len(),
{
    reveal(Seq::filter_map);
    if pbx.len() > 0 {
        lemma_no_states(shared, number, pbx.drop_last());
    }
}

proof fn lemma_calls_are_counted(bindings: Seq<LineBinding>, calls: Seq<CallAppearance>)
    ensures
        calls_at(bindings, calls) >= 0,
    decreases bindings.len(),
{
    if bindings.len() > 0 {
        lemma_calls_are_counted(bindings.drop_last(), calls);
    }
}

/// What entries count together is what stands at their bindings.
proof fn lemma_entries_count_bindings(
    entries: Seq<LineAppearanceSnapshot>,
    bindings: Seq<LineBinding>,
    calls: Seq<CallAppearance>,
)
    requires
        entries.len() == bindings.len(),
        forall|i: int|
            #![trigger entries[i]]
            0 <= i < entries.len() ==> entries[i].calls.total == calls.filter_map(
                state_at(bindings[i].device_id@, bindings[i].line_instance),
            ).len(),
    ensures
        total_calls(entries) == calls_at(bindings, calls),
    decreases entries.len(),
{
    if entries.len() > 0 {
        let n = entries.len() - 1;
        assert forall|i: int| #![trigger entries.drop_last()[i]] 0 <= i < n implies
            entries.drop_last()[i].calls.total == calls.filter_map(
            state_at(
                bindings.drop_last()[i].device_id@,
                bindings.drop_last()[i].line_instance,
            ),
        ).len() by {
            assert(entries.drop_last()[i] == entries[i]);
        }
        lemma_entries_count_bindings(entries.drop_last(), bindings.drop_last(), calls);
        assert(entries[n] == entries.last());
    }
}

/// A line counts no more calls than its appearances do together: a call that
/// stands on several of them counts once for the line.
pub proof fn law_lines_count_no_more_calls_than_their_appearances(
    snapshot: LineQuerySnapshot,
    shared: Shared,
    line: LineConfig,
    number: Seq<char>,
)
    requires
        shared.controller.wf(),
        describes_line(snapshot, shared, line, number),
    ensures
        snapshot.calls.total <= total_calls(snapshot.appearances@),
{
    let calls = shared.controller.appearances@;
    let configured = shared.config.bindings@.filter(config::shows_line(number));
    let roaming = shared.controller.mobility@.filter(roams_with(number));
    let bindings = bindings_of(shared, number);
    let listed = snapshot.appearances@;
    let entries = choose|entries: Seq<LineAppearanceSnapshot>|
        {
            &&& #[trigger] describe_all(entries, shared, configured, roaming)
            &&& listed.to_multiset() == entries.to_multiset()
        };
    lemma_total_of_listing(listed, entries);
    assert forall|i: int| #![trigger entries[i]] 0 <= i < entries.len() implies
        entries[i].calls.total == calls.filter_map(
        state_at(bindings[i].device_id@, bindings[i].line_instance),
    ).len() by {
        if i < configured.len() {
            assert(bindings[i] == configured[i]);
        } else {
            let j = i - configured.len();
            assert(bindings[i] == roaming[j].binding);
            assert(entries[configured.len() + j] == entries[i]);
        }
    }
    lemma_entries_count_bindings(entries, bindings, calls);
    lemma_states_within_bindings(shared, number, calls.len() as int);
    assert(calls.take(calls.len() as int) =~= calls);
    assert(state_among(shared, number, calls) =~= line_state(shared, number));
}

/// Every state of a call has a summary of its own, streams are open, opening or
/// closed as they are, and video counts as open or closed where both directions
/// agree.
pub proof fn law_states_are_summed_up(
    left: CallState,
    right: CallState,
    first: ChannelStateSummary,
    second: ChannelStateSummary,
    audio: MediaStreamState,
    heard: ChannelMediaStateSummary,
    video: VideoMediaState,
    seen: ChannelMediaStateSummary,
    receive: ChannelMediaStateSummary,
    direction: CallDirection,
    way: ChannelDirectionSummary,
)
    requires
        call_ensures(channel_state_summary, (left,), first),
        call_ensures(channel_state_summary, (right,), second),
        call_ensures(channel_media_state_summary, (audio,), heard),
        call_ensures(video_media_state_summary, (&video,), seen),
        call_ensures(video_stream_state_summary, (video.receive,), receive),
        call_ensures(channel_direction_summary, (direction,), way),
    ensures
        first == second <==> left == right,
        first is Connected <==> left is Connected,
        first is Held <==> left is Held,
        first is SharedHeld <==> left is SharedHeld,
        first is Ringing <==> left is Ringing,
        first is Ended <==> left is Ended,
        first is Calling <==> left is Calling,
        first is Collecting <==> left is Collecting,
        first is RemoteInUse <==> left is RemoteInUse,
        first is Barged <==> left is Barged,
        heard is Open <==> audio is Open,
        heard is Closed <==> audio is Closed,
        receive is Open <==> video.receive is Open,
        receive is Closed <==> video.receive is Closed,
        seen is Open <==> video.receive is Open && video.transmit is Open,
        seen is Closed <==> video.receive is Closed && video.transmit is Closed,
        way is Inbound <==> direction is Inbound,
{
}

/// A call is counted once under what it does: ringing, talking on this or another
/// station, or waiting; the rest counts for the total alone.
pub proof fn law_calls_are_counted_by_what_they_do(
    summary: &mut LineCallSummary,
    state: CallState,
)
    requires
        call_ensures(count_line_call_state, (summary, state), ()),
    ensures
        final(summary).total == old(summary).total,
        final(summary).ringing == old(summary).ringing + 1 <==> state == CallState::Ringing,
        final(summary).ringing == old(summary).ringing <==> state != CallState::Ringing,
        final(summary).connected == old(summary).connected + 1 <==> state == CallState::Connected
            || state == CallState::RemoteInUse || state == CallState::Barged,
        final(summary).connected == old(summary).connected <==> !(state == CallState::Connected
            || state == CallState::RemoteInUse || state == CallState::Barged),
        final(summary).held == old(summary).held + 1 <==> state == CallState::Held || state
            == CallState::SharedHeld,
        final(summary).held == old(summary).held <==> !(state == CallState::Held || state
            == CallState::SharedHeld),
{
}

/// A station is described by its configuration, its registration and its features,
/// each in its own place; one that is neither configured nor registered is not
/// known.
pub proof fn law_stations_are_described_as_they_are(
    shared: &Shared,
    device_id: DeviceId,
    snapshot: Option<DeviceQuerySnapshot>,
    d: int,
    s: int,
    f: int,
)
    requires
        call_ensures(device_query_snapshot, (shared, &device_id), snapshot),
        0 <= d <= shared.config.devices@.len(),
        forall|j: int| 0 <= j < d ==> (#[trigger] shared.config.devices@[j]).id@ != device_id@,
        d < shared.config.devices@.len() ==> shared.config.devices@[d].id@ == device_id@,
        0 <= s <= shared.controller.registered@.len(),
        forall|j: int|
            0 <= j < s ==> (#[trigger] shared.controller.registered@[j]).id@ != device_id@,
        s < shared.controller.registered@.len() ==> shared.controller.registered@[s].id@
            == device_id@,
        0 <= f <= shared.controller.features@.len(),
        forall|j: int|
            0 <= j < f ==> (#[trigger] shared.controller.features@[j]).device_id@ != device_id@,
        f < shared.controller.features@.len() ==> shared.controller.features@[f].device_id@
            == device_id@,
    ensures
        snapshot is Some <==> d < shared.config.devices@.len() || s
            < shared.controller.registered@.len(),
        snapshot matches Some(told) ==> {
            &&& told.id == device_id
            &&& told.configured <==> d < shared.config.devices@.len()
            &&& told.configured ==> told.description == Some(shared.config.devices@[d].description)
                && told.line_count == shared.config.devices@[d].lines@.len() && told.button_count
                == shared.config.devices@[d].buttons@.len()
            &&& told.registration is Some <==> s < shared.controller.registered@.len()
            &&& told.registration matches Some(registration) ==> {
                let station = shared.controller.registered@[s];
                &&& registration.model == station.registration.device_type
                &&& registration.protocol == station.registration.protocol
                &&& registration.address == station.registration.peer
                &&& registration.reported_address == station.registration.reported_address
                &&& registration.firmware == station.registration.firmware
                &&& told.calls.selected == station.selected_calls@.len()
                &&& told.calls.selected_line == station.selected_line
            }
            &&& f < shared.controller.features@.len() ==> {
                let state = shared.controller.features@[f].state;
                &&& told.features.dnd == state.dnd
                &&& told.features.privacy == state.privacy
                &&& told.features.forward_all == state.forwarding.all
                &&& told.features.forward_busy == state.forwarding.busy
                &&& told.features.forward_no_answer == state.forwarding.no_answer
            }
            &&& f == shared.controller.features@.len() ==> told.features.dnd == DndMode::Off
                && !told.features.privacy && told.features.forward_all is None
        },
{
    let p = config::is_device(device_id@);
    if d == shared.config.devices@.len() {
        lookup::lemma_first_none(shared.config.devices@, p);
    } else {
        lookup::lemma_first_is(shared.config.devices@, p, d);
    }
    let q = controller::is_station(device_id@);
    if s == shared.controller.registered@.len() {
        lookup::lemma_first_none(shared.controller.registered@, q);
    } else {
        lookup::lemma_first_is(shared.controller.registered@, q, s);
        assert(q(shared.controller.registered@[s]));
    }
    let r = controller::features_of(device_id@);
    if f == shared.controller.features@.len() {
        lookup::lemma_first_none(shared.controller.features@, r);
    } else {
        lookup::lemma_first_is(shared.controller.features@, r, f);
    }
}

/// A line is described by its own settings, each in its own place.
pub proof fn law_lines_are_described_as_configured(
    shared: &Shared,
    number: &str,
    snapshot: Option<LineQuerySnapshot>,
    l: int,
)
    requires
        call_ensures(line_query_snapshot, (shared, number), snapshot),
        0 <= l <= shared.config.lines@.len(),
        forall|j: int| 0 <= j < l ==> (#[trigger] shared.config.lines@[j]).number@ != number@,
        l < shared.config.lines@.len() ==> shared.config.lines@[l].number@ == number@,
    ensures
        snapshot is Some <==> l < shared.config.lines@.len(),
        snapshot matches Some(told) ==> {
            let line = shared.config.lines@[l];
            &&& told.number == line.number
            &&& told.label == line.label
            &&& told.context == line.context
            &&& told.caller_name == line.caller_name
            &&& told.caller_number == line.caller_number
            &&& told.mailbox == line.mailbox
        },
{
    let p = config::is_line(number@);
    if l == shared.config.lines@.len() {
        lookup::lemma_first_none(shared.config.lines@, p);
    } else {
        lookup::lemma_first_is(shared.config.lines@, p, l);
    }
}

/// A call is described by what the switch knows of it; who calls and who redirected
/// is told only where that is visible and the call is not private, and its
/// appearances are those that show it.
pub proof fn law_calls_are_described_without_private_parties(
    shared: &Shared,
    pbx_id: PbxCallId,
    selected: Option<CallId>,
    formats: Vec<AudioFormat>,
    packet_ms: u32,
    snapshot: Option<ChannelQuerySnapshot>,
    state: ChannelStateSummary,
    c: int,
    k: int,
)
    requires
        call_ensures(
            channel_query_snapshot,
            (shared, pbx_id, selected, &formats, packet_ms),
            snapshot,
        ),
        0 <= c < shared.controller.calls@.len(),
        shared.controller.calls@[c].pbx_id == pbx_id,
        forall|j: int| 0 <= j < c ==> (#[trigger] shared.controller.calls@[j]).pbx_id != pbx_id,
        call_ensures(channel_state_summary, (shared.controller.calls@[c].state,), state),
        snapshot matches Some(told) ==> 0 <= k < told.appearances@.len(),
    ensures
        snapshot matches Some(told) && {
            let call = shared.controller.calls@[c];
            &&& told.pbx_id == pbx_id
            &&& told.line == call.line
            &&& told.context == call.context
            &&& told.state == state
            &&& told.dialed_number == call.digits
            &&& told.privacy == call.privacy
            &&& told.selected_call_id == selected
            &&& told.active_call_id == call.active_call_id
            &&& told.dnid == call.metadata.dnid
            &&& told.language == call.metadata.language
            &&& told.account_code_set <==> call.metadata.account_code is Some
            &&& told.variable_count == call.metadata.variables@.len()
            &&& call.privacy ==> told.ani is None && told.rdnis is None
            &&& !call.metadata.ani_visible ==> told.ani is None
            &&& !call.metadata.rdnis_visible ==> told.rdnis is None
            &&& !call.privacy && call.metadata.ani_visible ==> told.ani == call.metadata.ani
            &&& !call.privacy && call.metadata.rdnis_visible ==> told.rdnis == call.metadata.rdnis
            &&& exists|a: int|
                0 <= a < shared.controller.appearances@.len() && (
                #[trigger] shared.controller.appearances@[a]).pbx_id == pbx_id
                    && told.appearances@[k].call_id == shared.controller.appearances@[a].sccp_id
                    && told.appearances@[k].device_id == shared.controller.appearances@[a].device_id
                    && told.appearances@[k].codec == shared.controller.appearances@[a].codec
                    && told.appearances@[k].privacy == shared.controller.appearances@[a].privacy
        },
{
    lookup::lemma_first_is(shared.controller.calls@, controller::is_pbx_call(pbx_id), c);
    if let Some(told) = snapshot {
        let f = appearance_summary(pbx_id);
        let calls = shared.controller.appearances@;
        lookup::lemma_filter_map_member(calls, f, told.appearances@[k]);
        assert(calls.filter_map(f).contains(told.appearances@[k]));
        let a = choose|a: int|
            0 <= a < calls.len() && f(#[trigger] calls[a]) == Some(told.appearances@[k]);
        assert(calls[a].pbx_id == pbx_id);
    }
}

/// What is asked about is what was named, and the current one where nothing was.
pub proof fn law_queries_ask_about_what_was_named<T>(
    named: T,
    current: Option<T>,
    by_name: Option<T>,
    by_default: Option<T>,
)
    requires
        call_ensures(query_target::<T>, (QueryTarget::Named(named), current), by_name),
        call_ensures(query_target::<T>, (QueryTarget::Current, current), by_default),
    ensures
        by_name == Some(named),
        by_default == current,
{
}

/// A call is looked up by what names it: itself, its appearance, or the channel that
/// asks; only an appearance that was named is the selected one.
pub proof fn law_calls_are_looked_up_by_what_names_them(
    shared: &Shared,
    target: ChannelQueryTarget,
    current: Option<PbxCallId>,
    found: Result<Option<(PbxCallId, Option<CallId>)>, ChannelQueryLookupError>,
    call_id: CallId,
    i: int,
)
    requires
        call_ensures(channel_query_target, (shared, &target, current), found),
        target matches ChannelQueryTarget::Call(named) ==> named == call_id,
        0 <= i <= shared.controller.appearances@.len(),
        forall|j: int|
            0 <= j < i ==> (#[trigger] shared.controller.appearances@[j]).sccp_id != call_id,
        i < shared.controller.appearances@.len() ==> shared.controller.appearances@[i].sccp_id
            == call_id,
    ensures
        target is Current ==> (found is Ok <==> current is Some),
        target is Current && found is Ok ==> (found matches Ok(Some(at)) && current == Some(at.0)),
        target matches ChannelQueryTarget::Pbx(named) ==> (found matches Ok(Some(at)) && at.0
            == named),
        target is Call ==> (found matches Ok(at) && (at is Some <==> i
            < shared.controller.appearances@.len())),
        found matches Ok(Some(at)) ==> {
            &&& at.1 is Some <==> target is Call
            &&& target is Call ==> at.1 == Some(call_id) && at.0
                == shared.controller.appearances@[i].pbx_id
        },
{
    let p = controller::is_call(call_id);
    if i == shared.controller.appearances@.len() {
        lookup::lemma_first_none(shared.controller.appearances@, p);
    } else {
        lookup::lemma_first_is(shared.controller.appearances@, p, i);
    }
}

} // verus!
