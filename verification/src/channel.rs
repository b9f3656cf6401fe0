//! Channels of the switch: what they are allocated with, in which order they
//! are set up, and what is undone when that fails.

use vstd::prelude::*;
use vstd::string::*;

use crate::access::{with_channel, Access, Shared};
use crate::backend::{
    self, typed_operation_result, AsteriskBackendError, CallFeatureError, ChannelAllocationError,
    NativeTextError,
};
use crate::codecs::{
    self, preferred_video, video_endpoint_is_supported, NegotiatedVideo, SelectedVideo,
    VideoSelection,
};
use crate::config::{self, PickupConfig};
use crate::controller;
use crate::handset::VideoPlan;
use crate::ids::{CallId, DeviceId, PbxCallId, SessionGeneration};
use crate::lookup;
use crate::media::{self, station_nat_active};
use crate::media_events::VideoFallbackReason;
use crate::model::{
    self, CallDirection, CallMetadata, Codec, ControllerSnapshot, LineBinding, MediaEndpointAddress,
    NatMode,
    PbxCall, QosMark,
    StationTransport,
};
use crate::text::{self, join, native};

verus! {

/// Text that the switch can hold.
#[derive(Debug, PartialEq, Eq)]
pub struct NativeText {
    pub text: String,
}

impl NativeText {
    pub open spec fn wf(self) -> bool {
        text::is_native(self.text@)
    }
}

/// The texts that a channel is allocated with.
#[derive(Debug, PartialEq, Eq)]
pub struct ChannelAllocationText {
    pub line: NativeText,
    pub context: NativeText,
    pub caller_number: NativeText,
    pub caller_name: NativeText,
    pub media_bind_address: NativeText,
    pub assigned_uniqueid: Option<NativeText>,
}

/// The part of the program that ends the channel.
#[derive(Clone, Copy, Debug, PartialEq, Eq, Structural)]
pub enum ChannelAllocationOwner {
    Asterisk,
    Module,
}

/// Takes over `value` as text of the switch. `field` names it in the error.
pub fn allocation_text(field: &'static str, value: &str) -> (text: Result<
    NativeText,
    ChannelAllocationError,
>)
    ensures
        match text {
            Ok(taken) => text::is_native(value@) && taken.text@ == value@,
            Err(ChannelAllocationError::NativeText { field: named, .. }) => !text::is_native(value@)
                && named@ == field@,
            Err(ChannelAllocationError::Failed) => false,
        },
{
    if native(value) {
        Ok(NativeText { text: value.to_owned() })
    } else {
        Err(ChannelAllocationError::NativeText { field, source: NativeTextError })
    }
}

impl Shared {
    /// The identity that was asked for when the call was made.
    pub open spec fn assigned_id_spec(self, pbx_id: PbxCallId) -> Option<String> {
        match lookup::first(self.controller.runtime@, controller::record_of(pbx_id)) {
            Some(record) => record.assigned_channel_id,
            None => None,
        }
    }
}

/// The fields in the order in which they are taken over.
pub open spec fn allocation_fields(
    assigned: Option<String>,
    binding: LineBinding,
    bind_address: Seq<char>,
) -> Seq<(Seq<char>, Seq<char>)> {
    let lines = seq![
        ("line"@, binding.line.number@),
        ("context"@, binding.line.context@),
        ("caller number"@, binding.line.caller_number@),
        ("caller name"@, binding.line.caller_name@),
        ("media bind address"@, bind_address),
    ];
    match assigned {
        Some(id) => seq![("assigned unique ID"@, id@)] + lines,
        None => lines,
    }
}

/// The field does not fit.
pub open spec fn is_refused() -> spec_fn((Seq<char>, Seq<char>)) -> bool {
    |field: (Seq<char>, Seq<char>)| !text::is_native(field.1)
}

/// What preparing the texts of an allocation comes to: each is taken over as it is,
/// or the first that the switch cannot take is refused.
pub open spec fn is_allocation_text(
    shared: Shared,
    binding: LineBinding,
    pbx_id: PbxCallId,
    bind_address: Seq<char>,
    prepared: Result<ChannelAllocationText, ChannelAllocationError>,
) -> bool {
    let fields = allocation_fields(shared.assigned_id_spec(pbx_id), binding, bind_address);
    match prepared {
        Ok(text) => {
            &&& lookup::first(fields, is_refused()) is None
            &&& text.line.text@ == binding.line.number@
            &&& text.context.text@ == binding.line.context@
            &&& text.caller_number.text@ == binding.line.caller_number@
            &&& text.caller_name.text@ == binding.line.caller_name@
            &&& text.media_bind_address.text@ == bind_address
            &&& match (text.assigned_uniqueid, shared.assigned_id_spec(pbx_id)) {
                (Some(taken), Some(id)) => taken.text@ == id@,
                (None, None) => true,
                _ => false,
            }
        },
        Err(ChannelAllocationError::NativeText { field, .. }) => lookup::first(
            fields,
            is_refused(),
        ) matches Some(refused) && refused.0 == field@,
        Err(ChannelAllocationError::Failed) => false,
    }
}

/// Collects the texts of a channel. The first that does not fit is reported.
/// `bind_address` is the address that media is bound to, in writing.
pub fn prepare_channel_allocation_text(
    access: &Access,
    binding: &LineBinding,
    pbx_id: PbxCallId,
    bind_address: &str,
) -> (prepared: Result<ChannelAllocationText, ChannelAllocationError>)
    ensures
        is_allocation_text(access.shared, *binding, pbx_id, bind_address@, prepared),
{
    let ghost assigned = access.shared.assigned_id_spec(pbx_id);
    let ghost fields = allocation_fields(assigned, *binding, bind_address@);
    let ghost p = is_refused();
    proof {
        reveal_with_fuel(lookup::first_at, 7);
    }
    let assigned_uniqueid = match access.shared.controller.call_runtime_record(pbx_id) {
        Some(record) => match &record.assigned_channel_id {
            Some(uniqueid) => match allocation_text("assigned unique ID", uniqueid.as_str()) {
                Ok(taken) => Some(taken),
                Err(error) => {
                    assert(p(fields[0]));
                    return Err(error);
                },
            },
            None => None,
        },
        None => None,
    };
    let ghost base: int = if assigned is Some { 1 } else { 0 };
    assert(fields[base] == ("line"@, binding.line.number@));
    assert(fields[base + 1] == ("context"@, binding.line.context@));
    assert(fields[base + 2] == ("caller number"@, binding.line.caller_number@));
    assert(fields[base + 3] == ("caller name"@, binding.line.caller_name@));
    assert(fields[base + 4] == ("media bind address"@, bind_address@));
    assert(fields.len() == base + 5);
    let line = match allocation_text("line", binding.line.number.as_str()) {
        Ok(taken) => taken,
        Err(error) => return Err(error),
    };
    let context = match allocation_text("context", binding.line.context.as_str()) {
        Ok(taken) => taken,
        Err(error) => return Err(error),
    };
    let caller_number = match allocation_text(
        "caller number",
        binding.line.caller_number.as_str(),
    ) {
        Ok(taken) => taken,
        Err(error) => return Err(error),
    };
    let caller_name = match allocation_text("caller name", binding.line.caller_name.as_str()) {
        Ok(taken) => taken,
        Err(error) => return Err(error),
    };
    let media_bind_address = match allocation_text("media bind address", bind_address) {
        Ok(taken) => taken,
        Err(error) => return Err(error),
    };
    Ok(
        ChannelAllocationText {
            line,
            context,
            caller_number,
            caller_name,
            media_bind_address,
            assigned_uniqueid,
        },
    )
}

/// How the packets of a stream are sent.
#[derive(Clone, Copy, Debug, PartialEq, Eq, Structural)]
pub struct RtpPolicy {
    pub symmetric: bool,
    pub mark: QosMark,
}

/// A stream for video, and how its packets are sent.
#[derive(Clone, Copy, Debug, PartialEq, Eq, Structural)]
pub struct VideoRtpConfiguration {
    pub selected: SelectedVideo,
    pub policy: RtpPolicy,
}

/// What the switch is asked to allocate.
#[derive(Clone, Copy, Debug, PartialEq, Eq, Structural)]
pub struct AllocationPolicy {
    pub audio: RtpPolicy,
    /// Where the call has video, the stream and its policy.
    pub video: Option<VideoRtpConfiguration>,
    pub signaling_secure: bool,
}

/// Packets of the station go back to where they come from: as decided for its
/// addresses, else as configured.
pub open spec fn symmetric_spec(access: Access, device: Seq<char>, decided: bool) -> bool {
    match media::nat_mode_spec(access.shared.config, device) {
        Some(_) if media::address_context_spec(access, device) is Some => decided,
        _ => match lookup::first(access.shared.config.devices@, config::is_device(device)) {
            Some(found) => found.network.nat == NatMode::On || found.network.nat == NatMode::AutoOn,
            None => false,
        },
    }
}

pub open spec fn allocation_policy_spec(
    access: Access,
    device: Seq<char>,
    selection: VideoSelection,
    decided: bool,
) -> AllocationPolicy {
    let symmetric = symmetric_spec(access, device, decided);
    AllocationPolicy {
        audio: RtpPolicy { symmetric, mark: access.qos_spec(device).audio },
        video: match selection {
            VideoSelection::Ready(selected) => Some(
                VideoRtpConfiguration {
                    selected,
                    policy: RtpPolicy { symmetric, mark: access.qos_spec(device).video },
                },
            ),
            _ => None,
        },
        signaling_secure: match lookup::first(
            access.shared.controller.registered@,
            controller::is_station(device),
        ) {
            Some(station) => station.registration.transport == StationTransport::Secure,
            None => false,
        },
    }
}

/// The policy under which a channel for `device` is allocated. `decided` is
/// what the decision on address translation says.
pub fn allocation_policy(
    access: &Access,
    device: &DeviceId,
    selection: &VideoSelection,
    decided: bool,
) -> (policy: AllocationPolicy)
    ensures
        policy == allocation_policy_spec(*access, device@, *selection, decided),
{
    let found = access.shared.config.device(device);
    let qos = match found {
        Some(found) => found.network.qos,
        None => access.shared.config.general.qos,
    };
    let symmetric = match station_nat_active(access, &access.shared.config, device, decided) {
        Some(active) => active,
        None => match found {
            Some(found) => found.network.nat == NatMode::On || found.network.nat == NatMode::AutoOn,
            None => false,
        },
    };
    let signaling_secure = match access.shared.controller.registered_device(device) {
        Some(station) => station.registration.transport == StationTransport::Secure,
        None => false,
    };
    AllocationPolicy {
        audio: RtpPolicy { symmetric, mark: qos.audio },
        video: match selection.ready() {
            Some(selected) => Some(
                VideoRtpConfiguration {
                    selected,
                    policy: RtpPolicy { symmetric, mark: qos.video },
                },
            ),
            None => None,
        },
        signaling_secure,
    }
}

/// The steps of an allocation, in their order.
#[derive(Clone, Copy, Debug, PartialEq, Eq, Structural)]
pub enum AllocationStep {
    /// Be admitted, so that the module is not unloaded meanwhile.
    Enter,
    AdmitSignals,
    FindFormat,
    ConfigureMetadata,
    Allocate,
    BorrowChannel,
    /// May fail without consequence.
    ConfigureCompletion,
    BorrowRequestor,
    InheritVariables,
    ApplyMetadata,
    ConfigureJitterBuffer,
    ConfigurePickup,
    SetParkingLot,
    RetainChannel,
    PublishBinding,
    /// May fail without consequence.
    InstallVideo,
    DisableVideo,
    HandOff,
}

/// What an allocation asks for beyond what every one does.
#[derive(Clone, Copy, Debug, PartialEq, Eq, Structural)]
pub struct AllocationPlan {
    /// The caller brought no metadata.
    pub configure_metadata: bool,
    /// Another channel asked for this one.
    pub has_requestor: bool,
    pub jitter_buffer: bool,
    pub parking_lot: bool,
    pub owner: ChannelAllocationOwner,
}

/// Whether a jitter buffer is set up on a channel whose media may go directly
/// between the endpoints, and on one whose media may not.
#[derive(Clone, Copy, Debug, PartialEq, Eq, Structural)]
pub struct JitterBufferDecision {
    pub direct_media: bool,
    pub anchored_media: bool,
}

pub open spec fn allocation_plan_spec(
    access: Access,
    request: ChannelAllocationRequest,
    jitter: JitterBufferDecision,
) -> AllocationPlan {
    AllocationPlan {
        configure_metadata: request.metadata is None,
        has_requestor: request.requestor is Some,
        jitter_buffer: match request.binding.media {
            Some(media) if media.direct_media => jitter.direct_media,
            _ => jitter.anchored_media,
        },
        parking_lot: match lookup::first(
            access.shared.config.line_features@,
            config::features_of_line(request.binding.line.number@),
        ) {
            Some(features) => features.parking_lot is Some,
            None => false,
        },
        owner: request.owner,
    }
}

/// Plans the allocation of a channel.
pub fn allocation_plan(
    access: &Access,
    request: &ChannelAllocationRequest,
    jitter: JitterBufferDecision,
) -> (plan: AllocationPlan)
    ensures
        plan == allocation_plan_spec(*access, *request, jitter),
{
    let binding = request.binding;
    let direct_media = match &binding.media {
        Some(media) => media.direct_media,
        None => false,
    };
    let parking_lot = match access.shared.config.features_for_line(binding.line.number.as_str()) {
        Some(features) => features.parking_lot.is_some(),
        None => false,
    };
    AllocationPlan {
        configure_metadata: request.metadata.is_none(),
        has_requestor: request.requestor.is_some(),
        jitter_buffer: if direct_media {
            jitter.direct_media
        } else {
            jitter.anchored_media
        },
        parking_lot,
        owner: request.owner,
    }
}

/// What happened so far to a channel's video.
#[derive(Clone, Copy, Debug, PartialEq, Eq, Structural)]
pub struct AllocatedVideo {
    /// The switch has a stream for it.
    pub allocated: bool,
    /// The controller holds a plan that uses the stream.
    pub kept: bool,
}

/// What a failed allocation leaves to be undone.
#[derive(Clone, Copy, Debug, PartialEq, Eq, Structural)]
pub enum AllocationCleanup {
    /// There is no channel yet.
    Nothing,
    /// End the channel as unavailable.
    QueueUnavailable,
    /// Take the channel out of the published ones, close it and end it.
    WithdrawAndQueueUnavailable,
}

#[derive(Clone, Copy, Debug, PartialEq, Eq, Structural)]
pub enum AllocationState {
    At(AllocationStep),
    Allocated,
    Failed(AllocationCleanup),
}

impl AllocationStep {
    /// The position of a step.
    pub open spec fn rank(self) -> nat {
        match self {
            AllocationStep::Enter => 0,
            AllocationStep::AdmitSignals => 1,
            AllocationStep::FindFormat => 2,
            AllocationStep::ConfigureMetadata => 3,
            AllocationStep::Allocate => 4,
            AllocationStep::BorrowChannel => 5,
            AllocationStep::ConfigureCompletion => 6,
            AllocationStep::BorrowRequestor => 7,
            AllocationStep::InheritVariables => 8,
            AllocationStep::ApplyMetadata => 9,
            AllocationStep::ConfigureJitterBuffer => 10,
            AllocationStep::ConfigurePickup => 11,
            AllocationStep::SetParkingLot => 12,
            AllocationStep::RetainChannel => 13,
            AllocationStep::PublishBinding => 14,
            AllocationStep::InstallVideo => 15,
            AllocationStep::DisableVideo => 16,
            AllocationStep::HandOff => 17,
        }
    }

    /// The step is taken in this allocation.
    pub open spec fn needed(self, plan: AllocationPlan, video: AllocatedVideo) -> bool {
        match self {
            AllocationStep::ConfigureMetadata => plan.configure_metadata,
            AllocationStep::BorrowRequestor | AllocationStep::InheritVariables =>
                plan.has_requestor,
            AllocationStep::ConfigureJitterBuffer => plan.jitter_buffer,
            AllocationStep::SetParkingLot => plan.parking_lot,
            AllocationStep::DisableVideo => video.allocated && !video.kept,
            AllocationStep::HandOff => plan.owner == ChannelAllocationOwner::Asterisk,
            _ => true,
        }
    }

    /// A failure of the step is only written to the log.
    pub open spec fn optional(self) -> bool {
        self is ConfigureCompletion || self is InstallVideo
    }

    /// What has to be undone when the step fails.
    pub open spec fn cleanup(self) -> AllocationCleanup {
        if self.rank() <= AllocationStep::Allocate.rank() {
            AllocationCleanup::Nothing
        } else if self.rank() <= AllocationStep::PublishBinding.rank() {
            AllocationCleanup::QueueUnavailable
        } else {
            AllocationCleanup::WithdrawAndQueueUnavailable
        }
    }
}

/// The state is the first needed step at or after position `from`.
pub open spec fn is_first_needed(
    state: AllocationState,
    plan: AllocationPlan,
    video: AllocatedVideo,
    from: nat,
) -> bool {
    match state {
        AllocationState::At(step) => {
            &&& from <= step.rank()
            &&& step.needed(plan, video)
            &&& forall|earlier: AllocationStep|
                from <= #[trigger] earlier.rank() < step.rank() ==> !earlier.needed(plan, video)
        },
        AllocationState::Allocated => forall|later: AllocationStep|
            from <= #[trigger] later.rank() ==> !later.needed(plan, video),
        AllocationState::Failed(_) => false,
    }
}

/// Where an allocation begins.
pub fn allocate_channel() -> (state: AllocationState)
    ensures
        state == AllocationState::At(AllocationStep::Enter),
{
    AllocationState::At(AllocationStep::Enter)
}

/// Where an allocation goes on once `step` is over.
pub fn after_allocation_step(
    plan: AllocationPlan,
    video: AllocatedVideo,
    step: AllocationStep,
    succeeded: bool,
) -> (state: AllocationState)
    ensures
        !succeeded && !step.optional() ==> state == AllocationState::Failed(step.cleanup()),
        succeeded || step.optional() ==> is_first_needed(
            state,
            plan,
            video,
            step.rank() + 1,
        ),
{
    if !succeeded {
        match step {
            AllocationStep::Enter
            | AllocationStep::AdmitSignals
            | AllocationStep::FindFormat
            | AllocationStep::ConfigureMetadata
            | AllocationStep::Allocate => {
                return AllocationState::Failed(AllocationCleanup::Nothing);
            },
            AllocationStep::BorrowChannel
            | AllocationStep::BorrowRequestor
            | AllocationStep::InheritVariables
            | AllocationStep::ApplyMetadata
            | AllocationStep::ConfigureJitterBuffer
            | AllocationStep::ConfigurePickup
            | AllocationStep::SetParkingLot
            | AllocationStep::RetainChannel
            | AllocationStep::PublishBinding => {
                return AllocationState::Failed(AllocationCleanup::QueueUnavailable);
            },
            AllocationStep::DisableVideo | AllocationStep::HandOff => {
                return AllocationState::Failed(AllocationCleanup::WithdrawAndQueueUnavailable);
            },
            AllocationStep::ConfigureCompletion | AllocationStep::InstallVideo => {},
        }
    }
    match step {
        AllocationStep::Enter => AllocationState::At(AllocationStep::AdmitSignals),
        AllocationStep::AdmitSignals => AllocationState::At(AllocationStep::FindFormat),
        AllocationStep::FindFormat => if plan.configure_metadata {
            AllocationState::At(AllocationStep::ConfigureMetadata)
        } else {
            AllocationState::At(AllocationStep::Allocate)
        },
        AllocationStep::ConfigureMetadata => AllocationState::At(AllocationStep::Allocate),
        AllocationStep::Allocate => AllocationState::At(AllocationStep::BorrowChannel),
        AllocationStep::BorrowChannel => AllocationState::At(AllocationStep::ConfigureCompletion),
        AllocationStep::ConfigureCompletion => if plan.has_requestor {
            AllocationState::At(AllocationStep::BorrowRequestor)
        } else {
            AllocationState::At(AllocationStep::ApplyMetadata)
        },
        AllocationStep::BorrowRequestor => if plan.has_requestor {
            AllocationState::At(AllocationStep::InheritVariables)
        } else {
            AllocationState::At(AllocationStep::ApplyMetadata)
        },
        AllocationStep::InheritVariables => AllocationState::At(AllocationStep::ApplyMetadata),
        AllocationStep::ApplyMetadata => if plan.jitter_buffer {
            AllocationState::At(AllocationStep::ConfigureJitterBuffer)
        } else {
            AllocationState::At(AllocationStep::ConfigurePickup)
        },
        AllocationStep::ConfigureJitterBuffer => AllocationState::At(
            AllocationStep::ConfigurePickup,
        ),
        AllocationStep::ConfigurePickup => if plan.parking_lot {
            AllocationState::At(AllocationStep::SetParkingLot)
        } else {
            AllocationState::At(AllocationStep::RetainChannel)
        },
        AllocationStep::SetParkingLot => AllocationState::At(AllocationStep::RetainChannel),
        AllocationStep::RetainChannel => AllocationState::At(AllocationStep::PublishBinding),
        AllocationStep::PublishBinding => AllocationState::At(AllocationStep::InstallVideo),
        AllocationStep::InstallVideo => if video.allocated && !video.kept {
            AllocationState::At(AllocationStep::DisableVideo)
        } else if plan.owner == ChannelAllocationOwner::Asterisk {
            AllocationState::At(AllocationStep::HandOff)
        } else {
            AllocationState::Allocated
        },
        AllocationStep::DisableVideo => if plan.owner == ChannelAllocationOwner::Asterisk {
            AllocationState::At(AllocationStep::HandOff)
        } else {
            AllocationState::Allocated
        },
        AllocationStep::HandOff => AllocationState::Allocated,
    }
}

/// What the switch did about a stream for video.
#[derive(Clone, Copy, Debug, PartialEq, Eq, Structural)]
pub enum VideoRtpAllocation {
    Active,
    Unavailable,
    NotRequested,
}

/// What the controller is told of a call's video.
#[derive(Clone, Copy, Debug, PartialEq, Eq, Structural)]
pub enum VideoInstallation {
    /// The call never had video.
    Nothing,
    AudioOnly { session_generation: SessionGeneration, reason: VideoFallbackReason },
    /// A plan for the stream that was selected, ready to be used.
    Install { plan: VideoPlan, selected: SelectedVideo },
}

pub open spec fn video_installation_spec(
    selection: VideoSelection,
    allocation: VideoRtpAllocation,
    local_endpoint: Option<MediaEndpointAddress>,
) -> VideoInstallation {
    match selection {
        VideoSelection::Disabled => VideoInstallation::Nothing,
        VideoSelection::AudioOnly { session_generation, reason } => VideoInstallation::AudioOnly {
            session_generation,
            reason,
        },
        VideoSelection::Ready(selected) => {
            let session_generation = selected.session_generation;
            if allocation != VideoRtpAllocation::Active {
                VideoInstallation::AudioOnly {
                    session_generation,
                    reason: VideoFallbackReason::NativeRtpUnavailable,
                }
            } else {
                match local_endpoint {
                    Some(endpoint) if codecs::video_endpoint_supported_spec(
                        selected,
                        endpoint,
                    ) => VideoInstallation::Install {
                        plan: VideoPlan {
                            session_generation,
                            protocol: selected.protocol,
                            payload: selected.payload,
                            local_endpoint: endpoint,
                        },
                        selected,
                    },
                    _ => VideoInstallation::AudioOnly {
                        session_generation,
                        reason: VideoFallbackReason::LocalEndpointUnavailable,
                    },
                }
            }
        },
    }
}

/// Decides what the controller is told of a call's video.
pub fn video_installation(
    selection: VideoSelection,
    allocation: VideoRtpAllocation,
    local_endpoint: Option<MediaEndpointAddress>,
) -> (installation: VideoInstallation)
    ensures
        installation == video_installation_spec(selection, allocation, local_endpoint),
{
    match selection {
        VideoSelection::Disabled => VideoInstallation::Nothing,
        VideoSelection::AudioOnly { session_generation, reason } => VideoInstallation::AudioOnly {
            session_generation,
            reason,
        },
        VideoSelection::Ready(selected) => {
            let session_generation = selected.session_generation;
            if allocation != VideoRtpAllocation::Active {
                return VideoInstallation::AudioOnly {
                    session_generation,
                    reason: VideoFallbackReason::NativeRtpUnavailable,
                };
            }
            match local_endpoint {
                Some(endpoint) => if video_endpoint_is_supported(&selected, endpoint) {
                    return VideoInstallation::Install {
                        plan: VideoPlan {
                            session_generation,
                            protocol: selected.protocol,
                            payload: selected.payload,
                            local_endpoint: endpoint,
                        },
                        selected,
                    };
                },
                None => {},
            }
            VideoInstallation::AudioOnly {
                session_generation,
                reason: VideoFallbackReason::LocalEndpointUnavailable,
            }
        },
    }
}

/// What becomes of the stream, where `installed` is the controller's answer: it
/// stays only under a plan that the controller took.
pub fn allocated_video(
    allocation: VideoRtpAllocation,
    installation: &VideoInstallation,
    installed: bool,
) -> (video: AllocatedVideo)
    ensures
        video.allocated == (allocation == VideoRtpAllocation::Active),
        video.kept == (installed && *installation is Install),
{
    let planned = match installation {
        VideoInstallation::Install { .. } => true,
        _ => false,
    };
    AllocatedVideo {
        allocated: allocation == VideoRtpAllocation::Active,
        kept: installed && planned,
    }
}

/// What the metadata of a call is composed from.
#[derive(Debug, PartialEq, Eq)]
pub struct ConfiguredChannelMetadata<'a> {
    pub call: &'a CallMetadata,
    pub direction: CallDirection,
    pub caller_number: &'a str,
    pub dialed_number: Option<&'a str>,
    pub account_code: Option<&'a str>,
    pub language: &'a str,
    pub device_variables: Option<&'a Vec<(String, String)>>,
    pub line_variables: &'a Vec<(String, String)>,
}

/// The metadata of a call are composed from these; `None` where the call is
/// unknown.
pub open spec fn are_metadata_inputs(
    access: Access,
    binding: LineBinding,
    pbx_id: PbxCallId,
    inputs: Option<ConfiguredChannelMetadata>,
) -> bool {
    match (
        inputs,
        lookup::first(access.shared.controller.calls@, controller::is_pbx_call(pbx_id)),
    ) {
        (Some(inputs), Some(call)) => {
            &&& *inputs.call == call.metadata
            &&& inputs.direction == call.direction
            &&& inputs.caller_number@ == binding.line.caller_number@
            &&& match inputs.dialed_number {
                Some(number) => call.digits@.len() > 0 && number@ == call.digits@,
                None => call.digits@.len() == 0,
            }
            &&& match (inputs.account_code, binding.line.account_code) {
                (Some(code), Some(configured)) => code@ == configured@,
                (None, None) => true,
                _ => false,
            }
            &&& inputs.language@ == binding.line.language@
            &&& match (
                inputs.device_variables,
                lookup::first(
                    access.shared.config.devices@,
                    config::is_device(binding.device_id@),
                ),
            ) {
                (Some(variables), Some(found)) => *variables == found.channel_variables,
                (None, None) => true,
                _ => false,
            }
            &&& *inputs.line_variables == binding.line.channel_variables
        },
        (None, None) => true,
        _ => false,
    }
}

/// Collects what the metadata of `pbx_id` is composed from; `None` where the
/// call is unknown.
pub fn channel_metadata_inputs<'a>(
    access: &'a Access,
    binding: &'a LineBinding,
    pbx_id: PbxCallId,
) -> (inputs: Option<ConfiguredChannelMetadata<'a>>)
    ensures
        are_metadata_inputs(*access, *binding, pbx_id, inputs),
{
    let call = match access.shared.controller.pbx_call(pbx_id) {
        Some(call) => call,
        None => return None,
    };
    let digits: usize = call.digits.as_str().unicode_len();
    Some(
        ConfiguredChannelMetadata {
            call: &call.metadata,
            direction: call.direction,
            caller_number: binding.line.caller_number.as_str(),
            dialed_number: if digits > 0 {
                Some(call.digits.as_str())
            } else {
                None
            },
            account_code: match &binding.line.account_code {
                Some(code) => Some(code.as_str()),
                None => None,
            },
            language: binding.line.language.as_str(),
            device_variables: match access.shared.config.device(&binding.device_id) {
                Some(found) => Some(&found.channel_variables),
                None => None,
            },
            line_variables: &binding.line.channel_variables,
        },
    )
}

/// The controller holds these metadata for a call; nothing else has changed.
pub open spec fn metadata_stored(
    before: Shared,
    after: Shared,
    pbx_id: PbxCallId,
    metadata: CallMetadata,
) -> bool {
    &&& after == (Shared {
        controller: ControllerSnapshot { calls: after.controller.calls, ..before.controller },
        ..before
    })
    &&& lookup::first_at(
        before.controller.calls@,
        controller::is_pbx_call(pbx_id),
        0,
    ) matches Some(i) && {
        &&& model::same_metadata(after.controller.calls@[i].metadata, metadata)
        &&& after.controller.calls@ == before.controller.calls@.update(
            i,
            PbxCall {
                metadata: after.controller.calls@[i].metadata,
                ..before.controller.calls@[i]
            },
        )
    }
}

/// The metadata of a new channel. `composed` is what was composed from
/// [`channel_metadata_inputs`], and `accepted` whether the controller takes it
/// for the call. What the controller then holds is what comes back; without the
/// call, without metadata or where the controller refuses, nothing changes.
pub fn configured_channel_metadata(
    access: &mut Access,
    pbx_id: PbxCallId,
    composed: Option<CallMetadata>,
    accepted: bool,
) -> (metadata: Option<CallMetadata>)
    ensures
        metadata == if accepted && lookup::first(
            old(access).shared.controller.calls@,
            controller::is_pbx_call(pbx_id),
        ) is Some {
            composed
        } else {
            None
        },
        match metadata {
            Some(metadata) => metadata_stored(
                old(access).shared,
                final(access).shared,
                pbx_id,
                metadata,
            ),
            None => *final(access) == *old(access),
        },
{
    if access.shared.controller.pbx_call(pbx_id).is_none() || !accepted {
        return None;
    }
    match composed {
        Some(metadata) => {
            proof {
                lookup::lemma_first_at(
                    access.shared.controller.calls@,
                    controller::is_pbx_call(pbx_id),
                    0,
                );
            }
            access.shared.controller.set_call_metadata(pbx_id, metadata.clone());
            Some(metadata)
        },
        None => None,
    }
}

/// Who may pick up a call, and whose calls it may pick up.
#[derive(Debug, PartialEq, Eq)]
pub struct PickupPolicy {
    pub call_groups: u64,
    pub pickup_groups: u64,
    pub named_call_groups: String,
    pub named_pickup_groups: String,
    pub private_call: bool,
}

/// The group is among the 64 that a mask can hold, and its bit is set.
pub open spec fn in_mask(mask: u64, group: u8) -> bool {
    group < 64 && (mask >> (group as u64)) & 1 == 1
}

/// The bits of the mask are exactly the groups below 64.
pub open spec fn is_group_mask(mask: u64, groups: Seq<u8>) -> bool {
    forall|group: u8|
        #![trigger groups.contains(group)]
        #![trigger in_mask(mask, group)]
        group < 64 ==> (in_mask(mask, group) <==> groups.contains(group))
}

proof fn lemma_set_bit(mask: u64, group: u64, other: u64)
    by (bit_vector)
    requires
        group < 64,
        other < 64,
    ensures
        ((mask | (1u64 << group)) >> other) & 1 == 1 <==> ((mask >> other) & 1 == 1 || group
            == other),
{
}

proof fn lemma_no_bit(other: u64)
    by (bit_vector)
    requires
        other < 64,
    ensures
        (0u64 >> other) & 1 == 0,
{
}

/// Collects groups in a mask; groups that it cannot hold are left out.
pub fn group_mask(groups: &Vec<u8>) -> (mask: u64)
    ensures
        is_group_mask(mask, groups@),
{
    let mut mask: u64 = 0;
    proof {
        assert forall|group: u8| group < 64 implies !#[trigger] in_mask(mask, group) by {
            lemma_no_bit(group as u64);
        }
        assert(groups@.take(0) =~= Seq::<u8>::empty());
    }
    let mut i: usize = 0;
    while i < groups.len()
        invariant
            0 <= i <= groups@.len(),
            is_group_mask(mask, groups@.take(i as int)),
        decreases groups@.len() - i,
    {
        let group: u8 = groups[i];
        let ghost before = mask;
        let ghost seen = groups@.take(i as int);
        let ghost longer = groups@.take(i + 1);
        proof {
            assert(longer =~= seen.push(group));
            assert(longer[seen.len() as int] == group);
            assert forall|other: u8| #[trigger] longer.contains(other) <==> (seen.contains(other)
                || other == group) by {
                if seen.contains(other) {
                    let j = choose|j: int| 0 <= j < seen.len() && seen[j] == other;
                    assert(longer[j] == other);
                }
                if longer.contains(other) && other != group {
                    let j = choose|j: int| 0 <= j < longer.len() && longer[j] == other;
                    assert(seen[j] == other);
                }
            }
        }
        if group < 64 {
            mask = mask | (1u64 << (group as u64));
            proof {
                assert forall|other: u8| other < 64 implies (#[trigger] in_mask(
                    mask,
                    other,
                ) <==> longer.contains(other)) by {
                    lemma_set_bit(before, group as u64, other as u64);
                    assert(in_mask(before, other) <==> seen.contains(other));
                }
            }
        } else {
            proof {
                assert forall|other: u8| other < 64 implies (#[trigger] in_mask(
                    mask,
                    other,
                ) <==> longer.contains(other)) by {
                    assert(in_mask(before, other) <==> seen.contains(other));
                }
            }
        }
        i += 1;
    }
    proof {
        assert(groups@.take(i as int) =~= groups@);
    }
    mask
}

/// The policy that the features of a line call for.
pub open spec fn is_pickup_policy(
    policy: PickupPolicy,
    pickup: Option<PickupConfig>,
    private_call: bool,
) -> bool {
    &&& policy.private_call == private_call
    &&& match pickup {
        Some(pickup) => {
            &&& is_group_mask(policy.call_groups, pickup.call_groups@)
            &&& is_group_mask(policy.pickup_groups, pickup.pickup_groups@)
            &&& policy.named_call_groups@ == text::joined(pickup.named_call_groups@, ","@)
            &&& policy.named_pickup_groups@ == text::joined(pickup.named_pickup_groups@, ","@)
        },
        None => {
            &&& policy.call_groups == 0
            &&& policy.pickup_groups == 0
            &&& policy.named_call_groups@.len() == 0
            &&& policy.named_pickup_groups@.len() == 0
        },
    }
}

/// What is configured about picking up calls on a line.
pub open spec fn line_pickup(access: Access, binding: LineBinding) -> Option<PickupConfig> {
    match lookup::first(
        access.shared.config.line_features@,
        config::features_of_line(binding.line.number@),
    ) {
        Some(features) => Some(features.pickup),
        None => None,
    }
}

fn pickup_policy(access: &Access, binding: &LineBinding, private_call: bool) -> (policy:
    PickupPolicy)
    ensures
        is_pickup_policy(policy, line_pickup(*access, *binding), private_call),
{
    match access.shared.config.features_for_line(binding.line.number.as_str()) {
        Some(features) => PickupPolicy {
            call_groups: group_mask(&features.pickup.call_groups),
            pickup_groups: group_mask(&features.pickup.pickup_groups),
            named_call_groups: join(&features.pickup.named_call_groups, ","),
            named_pickup_groups: join(&features.pickup.named_pickup_groups, ","),
            private_call,
        },
        None => PickupPolicy {
            call_groups: 0,
            pickup_groups: 0,
            named_call_groups: String::new(),
            named_pickup_groups: String::new(),
            private_call,
        },
    }
}

/// What the switch is told about picking up calls on a line; an error where it
/// has no such channel.
pub fn configure_pickup_policy(
    access: &Access,
    binding: &LineBinding,
    channel_valid: bool,
    private_call: bool,
) -> (policy: Result<PickupPolicy, CallFeatureError>)
    ensures
        match policy {
            Ok(policy) => channel_valid && is_pickup_policy(
                policy,
                line_pickup(*access, *binding),
                private_call,
            ),
            Err(CallFeatureError::InvalidInput { operation }) => !channel_valid && operation@
                == "configure pickup policy"@,
            Err(CallFeatureError::Native(_)) => false,
        },
{
    if !channel_valid {
        return Err(CallFeatureError::InvalidInput { operation: "configure pickup policy" });
    }
    Ok(pickup_policy(access, binding, private_call))
}

/// Why a channel is ended.
#[derive(Clone, Copy, Debug, PartialEq, Eq, Structural)]
pub enum HangupCause {
    NormalClearing,
    RequestedChannelUnavailable,
}

/// What ending a channel that could not be set up asks of the switch: nothing
/// where there is none.
pub fn queue_unavailable(present: bool) -> (cause: Option<HangupCause>)
    ensures
        cause == if present {
            Some(HangupCause::RequestedChannelUnavailable)
        } else {
            None
        },
{
    if present {
        Some(HangupCause::RequestedChannelUnavailable)
    } else {
        None
    }
}

/// An extension as the switch takes it.
#[derive(Debug, PartialEq, Eq)]
pub struct RoutingText {
    pub context: NativeText,
    pub destination: NativeText,
}

/// The outcome of taking over an extension.
pub open spec fn routing_text_outcome(
    call_id: PbxCallId,
    context: Seq<char>,
    destination: Seq<char>,
    outcome: Result<RoutingText, AsteriskBackendError>,
) -> bool {
    match outcome {
        Ok(routing) => {
            &&& text::is_native(context)
            &&& text::is_native(destination)
            &&& routing.context.text@ == context
            &&& routing.destination.text@ == destination
        },
        Err(AsteriskBackendError::NativeText { operation, call_id: of, .. }) => {
            &&& of == call_id
            &&& if text::is_native(context) {
                operation@ == "routing destination"@ && !text::is_native(destination)
            } else {
                operation@ == "routing context"@
            }
        },
        Err(_) => false,
    }
}

/// Takes over an extension before anything else is touched.
pub fn prepare_routing_text(call_id: PbxCallId, context: &str, destination: &str) -> (routing:
    Result<RoutingText, AsteriskBackendError>)
    ensures
        routing_text_outcome(call_id, context@, destination@, routing),
{
    if !native(context) {
        return Err(
            AsteriskBackendError::NativeText {
                operation: "routing context",
                call_id,
                source: NativeTextError,
            },
        );
    }
    if !native(destination) {
        return Err(
            AsteriskBackendError::NativeText {
                operation: "routing destination",
                call_id,
                source: NativeTextError,
            },
        );
    }
    Ok(
        RoutingText {
            context: NativeText { text: context.to_owned() },
            destination: NativeText { text: destination.to_owned() },
        },
    )
}

/// The unavailability of a call for an operation.
pub open spec fn is_unavailable(
    error: AsteriskBackendError,
    operation: Seq<char>,
    call_id: PbxCallId,
) -> bool {
    match error {
        AsteriskBackendError::CallUnavailable { operation: named, call_id: of } => named@
            == operation && of == call_id,
        _ => false,
    }
}

/// A call that is being sent to an extension.
#[derive(Debug, PartialEq, Eq)]
pub struct Routing {
    pub call_id: PbxCallId,
    pub text: RoutingText,
    /// The metadata of the call with the extension as the dialed number.
    pub metadata: CallMetadata,
}

/// The metadata are those of the call, but for the dialed number.
pub open spec fn dialed_metadata(
    metadata: CallMetadata,
    call: CallMetadata,
    destination: Seq<char>,
) -> bool {
    &&& metadata.dnid matches Some(dialed) && dialed@ == destination
    &&& model::same_metadata(CallMetadata { dnid: call.dnid, ..metadata }, call)
}

/// Begins to send a call to an extension. Text that does not fit is refused
/// before anything is asked of the switch or of the controller; otherwise the
/// metadata with the dialed number are validated first.
pub fn start_routing(access: &Access, call_id: PbxCallId, context: &str, destination: &str) ->
    (routing: Result<Routing, AsteriskBackendError>)
    ensures
        match routing {
            Ok(routing) => {
                &&& routing.call_id == call_id
                &&& routing_text_outcome(call_id, context@, destination@, Ok(routing.text))
                &&& lookup::first(
                    access.shared.controller.calls@,
                    controller::is_pbx_call(call_id),
                ) matches Some(call) && dialed_metadata(
                    routing.metadata,
                    call.metadata,
                    destination@,
                )
            },
            Err(error) => if text::is_native(context@) && text::is_native(destination@) {
                &&& lookup::first(
                    access.shared.controller.calls@,
                    controller::is_pbx_call(call_id),
                ) is None
                &&& is_unavailable(error, "set dialed number"@, call_id)
            } else {
                routing_text_outcome(call_id, context@, destination@, Err(error))
            },
        },
{
    let text = match prepare_routing_text(call_id, context, destination) {
        Ok(text) => text,
        Err(error) => return Err(error),
    };
    let call = match access.shared.controller.pbx_call(call_id) {
        Some(call) => call,
        None => return Err(
            AsteriskBackendError::CallUnavailable { operation: "set dialed number", call_id },
        ),
    };
    let copy = call.metadata.clone();
    let metadata = CallMetadata { dnid: Some(destination.to_owned()), ..copy };
    Ok(Routing { call_id, text, metadata })
}

/// What routing waits for.
#[derive(Clone, Copy, Debug, PartialEq, Eq, Structural)]
pub enum RoutingStage {
    Validating,
    Applying,
    Committing,
    Starting,
    Done,
}

/// What came back.
#[derive(Debug, PartialEq, Eq)]
pub enum RoutingReply {
    /// The metadata are acceptable, or why not.
    Validated(Result<(), String>),
    /// The switch took the metadata, or why not; none where it cannot use the
    /// channel.
    Applied(Option<Result<(), String>>),
    /// Whether the controller took the metadata.
    Committed(bool),
    /// Whether the switch started the dialplan.
    Started(bool),
}

/// What routing asks for.
#[derive(Debug, PartialEq, Eq)]
pub enum RoutingAction<'a> {
    /// Give the metadata to the call's channel.
    Apply(&'a CallMetadata),
    /// Have the controller keep the metadata.
    Commit(&'a CallMetadata),
    StartDialplan(&'a RoutingText),
    Finish(Result<(), AsteriskBackendError>),
}

pub open spec fn routing_ends(next: RoutingStage, action: RoutingAction) -> Option<
    Result<(), AsteriskBackendError>,
> {
    match action {
        RoutingAction::Finish(outcome) if next == RoutingStage::Done => Some(outcome),
        _ => None,
    }
}

/// One turn of routing. Only a controller that took the metadata changes
/// anything in the driver.
pub open spec fn routing_turn(
    before: Shared,
    after: Shared,
    routing: Routing,
    stage: RoutingStage,
    reply: RoutingReply,
    next: RoutingStage,
    action: RoutingAction,
) -> bool {
    let call_id = routing.call_id;
    let live = before.live_channel_spec(call_id) is Some;
    &&& if stage == RoutingStage::Committing && reply == RoutingReply::Committed(true) {
        metadata_stored(before, after, call_id, routing.metadata) || (lookup::first(
            before.controller.calls@,
            controller::is_pbx_call(call_id),
        ) is None && after == before)
    } else {
        after == before
    }
    &&& match (stage, reply) {
        (RoutingStage::Validating, RoutingReply::Validated(Ok(_))) => if live {
            next == RoutingStage::Applying && action == RoutingAction::Apply(&routing.metadata)
        } else {
            routing_ends(next, action) matches Some(Err(error)) && is_unavailable(
                error,
                "set dialed number"@,
                call_id,
            )
        },
        (RoutingStage::Validating, RoutingReply::Validated(Err(reason))) => routing_ends(
            next,
            action,
        ) == Some(
            Err::<(), AsteriskBackendError>(
                AsteriskBackendError::ChannelMetadata { call_id, reason },
            ),
        ),
        (RoutingStage::Applying, RoutingReply::Applied(Some(Ok(_)))) => next
            == RoutingStage::Committing && action == RoutingAction::Commit(&routing.metadata),
        (RoutingStage::Applying, RoutingReply::Applied(Some(Err(reason)))) => routing_ends(
            next,
            action,
        ) == Some(
            Err::<(), AsteriskBackendError>(
                AsteriskBackendError::ChannelMetadata { call_id, reason },
            ),
        ),
        (RoutingStage::Applying, RoutingReply::Applied(None)) => routing_ends(
            next,
            action,
        ) matches Some(Err(error)) && is_unavailable(error, "set dialed number"@, call_id),
        (RoutingStage::Committing, RoutingReply::Committed(true)) => if live {
            next == RoutingStage::Starting && action == RoutingAction::StartDialplan(
                &routing.text,
            )
        } else {
            routing_ends(next, action) matches Some(outcome) && backend::operation_outcome(
                "start routing"@,
                call_id,
                None,
                outcome,
            )
        },
        (RoutingStage::Committing, RoutingReply::Committed(false)) => routing_ends(
            next,
            action,
        ) matches Some(Err(error)) && is_unavailable(error, "commit dialed number"@, call_id),
        (RoutingStage::Starting, RoutingReply::Started(started)) => routing_ends(
            next,
            action,
        ) matches Some(outcome) && backend::operation_outcome(
            "start routing"@,
            call_id,
            Some(started),
            outcome,
        ),
        _ => routing_ends(next, action) matches Some(Err(error)) && is_unavailable(
            error,
            "start routing"@,
            call_id,
        ),
    }
}

/// Goes on with sending a call to an extension. A reply that was not asked for
/// ends it.
pub fn continue_routing<'a>(
    access: &mut Access,
    routing: &'a Routing,
    stage: RoutingStage,
    reply: RoutingReply,
) -> (step: (RoutingStage, RoutingAction<'a>))
    ensures
        routing_turn(
            old(access).shared,
            final(access).shared,
            *routing,
            stage,
            reply,
            step.0,
            step.1,
        ),
{
    let call_id = routing.call_id;
    let outcome = match (stage, reply) {
        (RoutingStage::Validating, RoutingReply::Validated(Ok(()))) => {
            if with_channel(access, call_id).is_some() {
                return (RoutingStage::Applying, RoutingAction::Apply(&routing.metadata));
            }
            Err(AsteriskBackendError::CallUnavailable { operation: "set dialed number", call_id })
        },
        (RoutingStage::Validating, RoutingReply::Validated(Err(reason))) => Err(
            AsteriskBackendError::ChannelMetadata { call_id, reason },
        ),
        (RoutingStage::Applying, RoutingReply::Applied(Some(Ok(())))) => {
            return (RoutingStage::Committing, RoutingAction::Commit(&routing.metadata));
        },
        (RoutingStage::Applying, RoutingReply::Applied(Some(Err(reason)))) => Err(
            AsteriskBackendError::ChannelMetadata { call_id, reason },
        ),
        (RoutingStage::Applying, RoutingReply::Applied(None)) => Err(
            AsteriskBackendError::CallUnavailable { operation: "set dialed number", call_id },
        ),
        (RoutingStage::Committing, RoutingReply::Committed(true)) => {
            let live = with_channel(access, call_id).is_some();
            proof {
                lookup::lemma_first_at(
                    access.shared.controller.calls@,
                    controller::is_pbx_call(call_id),
                    0,
                );
            }
            if access.shared.controller.pbx_call(call_id).is_some() {
                access.shared.controller.set_call_metadata(call_id, routing.metadata.clone());
            }
            if live {
                return (RoutingStage::Starting, RoutingAction::StartDialplan(&routing.text));
            }
            typed_operation_result("start routing", call_id, None)
        },
        (RoutingStage::Committing, RoutingReply::Committed(false)) => Err(
            AsteriskBackendError::CallUnavailable { operation: "commit dialed number", call_id },
        ),
        (RoutingStage::Starting, RoutingReply::Started(started)) => typed_operation_result(
            "start routing",
            call_id,
            Some(started),
        ),
        _ => Err(AsteriskBackendError::CallUnavailable { operation: "start routing", call_id }),
    };
    (RoutingStage::Done, RoutingAction::Finish(outcome))
}

/// An operation on a channel, by the name under which it is reported.
#[derive(Clone, Copy, Debug, PartialEq, Eq, Structural)]
pub enum ChannelOperation {
    Answer,
    Hangup,
    SendDigit(char),
    Hold,
    Resume,
}

impl ChannelOperation {
    pub open spec fn name_spec(self) -> Seq<char> {
        match self {
            ChannelOperation::Answer => "answer"@,
            ChannelOperation::Hangup => "hangup"@,
            ChannelOperation::SendDigit(_) => "send digit"@,
            ChannelOperation::Hold => "hold"@,
            ChannelOperation::Resume => "resume"@,
        }
    }

    /// The switch can be asked for it: digits have eight bits.
    pub open spec fn expressible(self) -> bool {
        match self {
            ChannelOperation::SendDigit(digit) => digit as u32 <= 0xff,
            _ => true,
        }
    }
}

/// Performs an operation on a call's channel, where `accepted` is what the
/// switch answers.
pub fn channel_operation(
    access: &Access,
    call_id: PbxCallId,
    operation: ChannelOperation,
    accepted: bool,
) -> (outcome: Result<(), AsteriskBackendError>)
    ensures
        backend::operation_outcome(
            operation.name_spec(),
            call_id,
            if access.shared.live_channel_spec(call_id) is Some {
                Some(accepted && operation.expressible())
            } else {
                None
            },
            outcome,
        ),
{
    let expressible = match operation {
        ChannelOperation::SendDigit(digit) => digit as u32 <= 0xff,
        _ => true,
    };
    let result = match with_channel(access, call_id) {
        Some(_) => Some(accepted && expressible),
        None => None,
    };
    let name = match operation {
        ChannelOperation::Answer => "answer",
        ChannelOperation::Hangup => "hangup",
        ChannelOperation::SendDigit(_) => "send digit",
        ChannelOperation::Hold => "hold",
        ChannelOperation::Resume => "resume",
    };
    typed_operation_result(name, call_id, result)
}

/// The formats of video that a new channel may use.
#[derive(Clone, Copy, Debug, PartialEq, Eq, Structural)]
pub enum VideoOffer {
    /// All that the switch knows.
    All,
}

/// What the switch is asked for where the driver creates a channel.
#[derive(Debug, PartialEq, Eq)]
pub struct ChannelAllocationRequest<'a> {
    /// The call on the handset.
    pub sccp_id: CallId,
    pub pbx_id: PbxCallId,
    pub binding: &'a LineBinding,
    pub codec: Codec,
    pub video_formats: VideoOffer,
    /// The handle of the channel on whose behalf the new one is created.
    pub requestor: Option<u64>,
    /// Without metadata of its own, the channel gets what is configured.
    pub metadata: Option<&'a CallMetadata>,
    pub text: ChannelAllocationText,
    /// The part of the program that ends the channel.
    pub owner: ChannelAllocationOwner,
}

/// The request for a channel of a call.
pub open spec fn is_allocation_request(
    shared: Shared,
    request: ChannelAllocationRequest,
    sccp_id: CallId,
    pbx_id: PbxCallId,
    binding: LineBinding,
    codec: Codec,
    bind_address: Seq<char>,
    requestor: Option<u64>,
) -> bool {
    &&& request == (ChannelAllocationRequest {
        sccp_id,
        pbx_id,
        binding: &binding,
        codec,
        video_formats: VideoOffer::All,
        requestor,
        metadata: None,
        text: request.text,
        owner: ChannelAllocationOwner::Module,
    })
    &&& is_allocation_text(shared, binding, pbx_id, bind_address, Ok(request.text))
}

/// The texts of the allocation were refused.
pub open spec fn is_text_refusal(
    shared: Shared,
    error: AsteriskBackendError,
    pbx_id: PbxCallId,
    binding: LineBinding,
    bind_address: Seq<char>,
) -> bool {
    match error {
        AsteriskBackendError::ChannelAllocation { call_id, allocation } => call_id == pbx_id
            && is_allocation_text(shared, binding, pbx_id, bind_address, Err(allocation)),
        _ => false,
    }
}

/// Creates a channel that consults on behalf of another: the other has to be
/// there while the new one is allocated. What the switch answers to the request,
/// see [`channel_created`].
pub fn create_consultation_channel<'a>(
    access: &Access,
    source_call_id: PbxCallId,
    handset_call_id: CallId,
    call_id: PbxCallId,
    binding: &'a LineBinding,
    codec: Codec,
    bind_address: &str,
) -> (request: Result<ChannelAllocationRequest<'a>, AsteriskBackendError>)
    ensures
        match request {
            Ok(request) => access.shared.live_channel_spec(source_call_id) matches Some(source)
                && is_allocation_request(
                access.shared,
                request,
                handset_call_id,
                call_id,
                *binding,
                codec,
                bind_address@,
                Some(source.handle),
            ),
            Err(error) => is_text_refusal(
                access.shared,
                error,
                call_id,
                *binding,
                bind_address@,
            ) || {
                &&& lookup::first(
                    allocation_fields(
                        access.shared.assigned_id_spec(call_id),
                        *binding,
                        bind_address@,
                    ),
                    is_refused(),
                ) is None
                &&& access.shared.live_channel_spec(source_call_id) is None
                &&& is_unavailable(error, "create consultation channel"@, source_call_id)
            },
        },
{
    let text = match prepare_channel_allocation_text(access, binding, call_id, bind_address) {
        Ok(text) => text,
        Err(allocation) => {
            return Err(AsteriskBackendError::ChannelAllocation { call_id, allocation });
        },
    };
    match with_channel(access, source_call_id) {
        Some(source) => Ok(
            ChannelAllocationRequest {
                sccp_id: handset_call_id,
                pbx_id: call_id,
                binding,
                codec,
                video_formats: VideoOffer::All,
                requestor: Some(source.handle),
                metadata: None,
                text,
                owner: ChannelAllocationOwner::Module,
            },
        ),
        None => Err(
            AsteriskBackendError::CallUnavailable {
                operation: "create consultation channel",
                call_id: source_call_id,
            },
        ),
    }
}

/// Creates the channel of a call. What the switch answers to the request, see
/// [`channel_created`].
pub fn create_channel<'a>(
    access: &Access,
    handset_call_id: CallId,
    call_id: PbxCallId,
    binding: &'a LineBinding,
    codec: Codec,
    bind_address: &str,
) -> (request: Result<ChannelAllocationRequest<'a>, AsteriskBackendError>)
    ensures
        match request {
            Ok(request) => is_allocation_request(
                access.shared,
                request,
                handset_call_id,
                call_id,
                *binding,
                codec,
                bind_address@,
                None,
            ),
            Err(error) => is_text_refusal(
                access.shared,
                error,
                call_id,
                *binding,
                bind_address@,
            ),
        },
{
    match prepare_channel_allocation_text(access, binding, call_id, bind_address) {
        Ok(text) => Ok(
            ChannelAllocationRequest {
                sccp_id: handset_call_id,
                pbx_id: call_id,
                binding,
                codec,
                video_formats: VideoOffer::All,
                requestor: None,
                metadata: None,
                text,
                owner: ChannelAllocationOwner::Module,
            },
        ),
        Err(allocation) => Err(AsteriskBackendError::ChannelAllocation { call_id, allocation }),
    }
}

/// What became of a channel that the switch was asked for; a failure is reported
/// with the call that it was for.
pub fn channel_created(call_id: PbxCallId, allocated: Result<(), ChannelAllocationError>) ->
    (outcome: Result<(), AsteriskBackendError>)
    ensures
        outcome == match allocated {
            Ok(()) => Ok(()),
            Err(allocation) => Err(AsteriskBackendError::ChannelAllocation { call_id, allocation }),
        },
{
    match allocated {
        Ok(()) => Ok(()),
        Err(allocation) => Err(AsteriskBackendError::ChannelAllocation { call_id, allocation }),
    }
}

/// What an allocation learns from elsewhere while it goes on.
#[derive(Debug, PartialEq, Eq)]
pub struct AllocationFacts<'a> {
    /// What the decision on address translation says.
    pub symmetric: bool,
    /// The video that the call has: see [`allocation_video`].
    pub selection: VideoSelection,
    /// What was configured for a call that brought no metadata.
    pub configured: Option<&'a CallMetadata>,
    /// Whether the call is private, if it is known.
    pub privacy: Option<bool>,
    /// What the switch did about a stream for video.
    pub video: VideoRtpAllocation,
    /// Where the stream for video ends on this side.
    pub local_endpoint: Option<MediaEndpointAddress>,
}

/// What one step of an allocation has done.
#[derive(Debug, PartialEq, Eq)]
pub enum AllocationWork<'a> {
    Enter,
    /// Be told when the switch hangs up, and end the call on the handset.
    AdmitSignals { pbx_id: PbxCallId, handset_call_id: CallId },
    FindFormat { codec: Codec },
    ConfigureMetadata { inputs: Option<ConfiguredChannelMetadata<'a>> },
    Allocate {
        text: &'a ChannelAllocationText,
        pbx_id: PbxCallId,
        handset_call_id: CallId,
        codec: Codec,
        requestor: Option<u64>,
        policy: AllocationPolicy,
    },
    BorrowChannel,
    ConfigureCompletion,
    BorrowRequestor { requestor: Option<u64> },
    InheritVariables { requestor: Option<u64> },
    ApplyMetadata { metadata: Option<&'a CallMetadata> },
    /// Set the jitter buffer up as it is configured.
    ConfigureJitterBuffer,
    ConfigurePickup(PickupPolicy),
    SetParkingLot { lot: Option<&'a str> },
    RetainChannel,
    PublishBinding { pbx_id: PbxCallId },
    InstallVideo {
        device_id: &'a DeviceId,
        handset_call_id: CallId,
        installation: VideoInstallation,
    },
    DisableVideo,
    HandOff,
}

/// Selects the video that a channel is allocated with, where `negotiated` is what
/// the policy, the station and the switch have in common.
pub fn allocation_video(
    access: &Access,
    request: &ChannelAllocationRequest,
    negotiated: Option<NegotiatedVideo>,
) -> (selection: VideoSelection)
    ensures
        selection == codecs::preferred_video_spec(
            access.shared,
            request.binding.device_id@,
            request.binding.line_instance,
            negotiated,
        ),
{
    preferred_video(access, &request.binding.device_id, request.binding.line_instance, negotiated)
}

/// What a step does for a request.
pub open spec fn is_allocation_work(
    access: Access,
    request: ChannelAllocationRequest,
    facts: AllocationFacts,
    step: AllocationStep,
    work: AllocationWork,
) -> bool {
    let device = request.binding.device_id@;
    match step {
        AllocationStep::Enter => work is Enter,
        AllocationStep::AdmitSignals => work == (AllocationWork::AdmitSignals {
            pbx_id: request.pbx_id,
            handset_call_id: request.sccp_id,
        }),
        AllocationStep::FindFormat => work == (AllocationWork::FindFormat { codec: request.codec }),
        AllocationStep::ConfigureMetadata => work matches AllocationWork::ConfigureMetadata {
            inputs,
        } && are_metadata_inputs(access, *request.binding, request.pbx_id, inputs),
        AllocationStep::Allocate => work == (AllocationWork::Allocate {
            text: &request.text,
            pbx_id: request.pbx_id,
            handset_call_id: request.sccp_id,
            codec: request.codec,
            requestor: request.requestor,
            policy: allocation_policy_spec(access, device, facts.selection, facts.symmetric),
        }),
        AllocationStep::BorrowChannel => work is BorrowChannel,
        AllocationStep::ConfigureCompletion => work is ConfigureCompletion,
        AllocationStep::BorrowRequestor => work == (AllocationWork::BorrowRequestor {
            requestor: request.requestor,
        }),
        AllocationStep::InheritVariables => work == (AllocationWork::InheritVariables {
            requestor: request.requestor,
        }),
        AllocationStep::ApplyMetadata => work == (AllocationWork::ApplyMetadata {
            metadata: match request.metadata {
                Some(metadata) => Some(metadata),
                None => facts.configured,
            },
        }),
        AllocationStep::ConfigureJitterBuffer => work is ConfigureJitterBuffer,
        AllocationStep::ConfigurePickup => work matches AllocationWork::ConfigurePickup(policy)
            && is_pickup_policy(
            policy,
            line_pickup(access, *request.binding),
            facts.privacy == Some(true),
        ),
        AllocationStep::SetParkingLot => work matches AllocationWork::SetParkingLot { lot } && (
        match (
            lot,
            lookup::first(
                access.shared.config.line_features@,
                config::features_of_line(request.binding.line.number@),
            ),
        ) {
            (Some(lot), Some(features)) => features.parking_lot matches Some(configured) && lot@
                == configured@,
            (None, Some(features)) => features.parking_lot is None,
            (lot, None) => lot is None,
        }),
        AllocationStep::RetainChannel => work is RetainChannel,
        AllocationStep::PublishBinding => work == (AllocationWork::PublishBinding {
            pbx_id: request.pbx_id,
        }),
        AllocationStep::InstallVideo => work == (AllocationWork::InstallVideo {
            device_id: &request.binding.device_id,
            handset_call_id: request.sccp_id,
            installation: video_installation_spec(
                facts.selection,
                facts.video,
                facts.local_endpoint,
            ),
        }),
        AllocationStep::DisableVideo => work is DisableVideo,
        AllocationStep::HandOff => work is HandOff,
    }
}

/// Works out what a step of an allocation does.
pub fn allocation_work<'a>(
    access: &'a Access,
    request: &'a ChannelAllocationRequest<'a>,
    facts: &'a AllocationFacts<'a>,
    step: AllocationStep,
) -> (work: AllocationWork<'a>)
    ensures
        is_allocation_work(*access, *request, *facts, step, work),
{
    let binding = request.binding;
    match step {
        AllocationStep::Enter => AllocationWork::Enter,
        AllocationStep::AdmitSignals => AllocationWork::AdmitSignals {
            pbx_id: request.pbx_id,
            handset_call_id: request.sccp_id,
        },
        AllocationStep::FindFormat => AllocationWork::FindFormat { codec: request.codec },
        AllocationStep::ConfigureMetadata => AllocationWork::ConfigureMetadata {
            inputs: channel_metadata_inputs(access, binding, request.pbx_id),
        },
        AllocationStep::Allocate => AllocationWork::Allocate {
            text: &request.text,
            pbx_id: request.pbx_id,
            handset_call_id: request.sccp_id,
            codec: request.codec,
            requestor: request.requestor,
            policy: allocation_policy(
                access,
                &binding.device_id,
                &facts.selection,
                facts.symmetric,
            ),
        },
        AllocationStep::BorrowChannel => AllocationWork::BorrowChannel,
        AllocationStep::ConfigureCompletion => AllocationWork::ConfigureCompletion,
        AllocationStep::BorrowRequestor => AllocationWork::BorrowRequestor {
            requestor: request.requestor,
        },
        AllocationStep::InheritVariables => AllocationWork::InheritVariables {
            requestor: request.requestor,
        },
        AllocationStep::ApplyMetadata => AllocationWork::ApplyMetadata {
            metadata: match request.metadata {
                Some(metadata) => Some(metadata),
                None => facts.configured,
            },
        },
        AllocationStep::ConfigureJitterBuffer => AllocationWork::ConfigureJitterBuffer,
        AllocationStep::ConfigurePickup => {
            let private_call = match facts.privacy {
                Some(privacy) => privacy,
                None => false,
            };
            AllocationWork::ConfigurePickup(pickup_policy(access, binding, private_call))
        },
        AllocationStep::SetParkingLot => AllocationWork::SetParkingLot {
            lot: match access.shared.config.features_for_line(binding.line.number.as_str()) {
                Some(features) => match &features.parking_lot {
                    Some(lot) => Some(lot.as_str()),
                    None => None,
                },
                None => None,
            },
        },
        AllocationStep::RetainChannel => AllocationWork::RetainChannel,
        AllocationStep::PublishBinding => AllocationWork::PublishBinding { pbx_id: request.pbx_id },
        AllocationStep::InstallVideo => AllocationWork::InstallVideo {
            device_id: &binding.device_id,
            handset_call_id: request.sccp_id,
            installation: video_installation(
                facts.selection,
                facts.video,
                facts.local_endpoint,
            ),
        },
        AllocationStep::DisableVideo => AllocationWork::DisableVideo,
        AllocationStep::HandOff => AllocationWork::HandOff,
    }
}

/// The dialplan is started only after the controller was asked to keep the
/// dialed number and took it: the call that is started carries the extension it
/// is sent to.
pub proof fn law_routed_calls_carry_their_destination(
    before: Shared,
    after: Shared,
    call: CallMetadata,
    destination: Seq<char>,
    routing: Routing,
    stage: RoutingStage,
    reply: RoutingReply,
    next: RoutingStage,
    action: RoutingAction,
)
    requires
        dialed_metadata(routing.metadata, call, destination),
        routing_turn(before, after, routing, stage, reply, next, action),
        action is StartDialplan,
        lookup::first(before.controller.calls@, controller::is_pbx_call(routing.call_id)) is Some,
    ensures
        reply == RoutingReply::Committed(true),
        lookup::first(
            after.controller.calls@,
            controller::is_pbx_call(routing.call_id),
        ) matches Some(kept) && kept.metadata.dnid matches Some(dialed) && dialed@ == destination,
{
    let p = controller::is_pbx_call(routing.call_id);
    lookup::lemma_first_at(before.controller.calls@, p, 0);
    lookup::lemma_first_at(after.controller.calls@, p, 0);
    let i = lookup::first_at(before.controller.calls@, p, 0)->0;
    assert(p(after.controller.calls@[i]));
    match lookup::first_at(after.controller.calls@, p, 0) {
        Some(j) => {
            if j < i {
                assert(after.controller.calls@[j] == before.controller.calls@[j]);
            }
            if i < j {
                assert(!p(after.controller.calls@[i]));
            }
        },
        None => {},
    }
}

/// Nothing is left behind by a failed allocation: a channel that exists is
/// ended, and one that was published is withdrawn first; before there is a
/// channel, nothing is touched.
pub proof fn law_failed_allocations_are_undone(step: AllocationStep)
    ensures
        step.cleanup() == AllocationCleanup::Nothing <==> step.rank()
            <= AllocationStep::Allocate.rank(),
        step.cleanup() == AllocationCleanup::WithdrawAndQueueUnavailable <==> step.rank()
            > AllocationStep::PublishBinding.rank(),
{
}

/// A stream for video stays open only where the controller holds a plan for it;
/// the steps after a refused plan close it.
pub proof fn law_unplanned_video_is_disabled(
    plan: AllocationPlan,
    video: AllocatedVideo,
    state: AllocationState,
)
    requires
        is_first_needed(state, plan, video, AllocationStep::InstallVideo.rank() + 1),
        video.allocated,
        !video.kept,
    ensures
        state == AllocationState::At(AllocationStep::DisableVideo),
{
    let disable = AllocationStep::DisableVideo;
    assert(disable.rank() == 16);
    assert(disable.needed(plan, video));
    match state {
        AllocationState::At(step) => {
            assert(step.rank() <= disable.rank());
        },
        _ => {},
    }
}

/// The words of a new channel are those of its line, each in its own place, with
/// the identifier that was assigned to the call; a word that the switch cannot hold
/// is named.
pub proof fn law_channels_carry_the_words_of_their_line(
    access: &Access,
    binding: LineBinding,
    pbx_id: PbxCallId,
    bind_address: &str,
    prepared: Result<ChannelAllocationText, ChannelAllocationError>,
    r: int,
)
    requires
        call_ensures(
            prepare_channel_allocation_text,
            (access, &binding, pbx_id, bind_address),
            prepared,
        ),
        0 <= r <= access.shared.controller.runtime@.len(),
        forall|j: int|
            0 <= j < r ==> (#[trigger] access.shared.controller.runtime@[j]).pbx_id != pbx_id,
        r < access.shared.controller.runtime@.len() ==> access.shared.controller.runtime@[r].pbx_id
            == pbx_id,
    ensures
        ({
            let assigned = if r < access.shared.controller.runtime@.len() {
                access.shared.controller.runtime@[r].assigned_channel_id
            } else {
                None
            };
            &&& prepared is Ok <==> text::is_native(binding.line.number@) && text::is_native(
                binding.line.context@,
            ) && text::is_native(binding.line.caller_number@) && text::is_native(
                binding.line.caller_name@,
            ) && text::is_native(bind_address@) && (assigned is Some ==> text::is_native(
                assigned->0@,
            ))
            &&& prepared matches Ok(words) ==> {
                &&& words.line.text@ == binding.line.number@
                &&& words.context.text@ == binding.line.context@
                &&& words.caller_number.text@ == binding.line.caller_number@
                &&& words.caller_name.text@ == binding.line.caller_name@
                &&& words.media_bind_address.text@ == bind_address@
                &&& words.assigned_uniqueid is Some <==> assigned is Some
                &&& words.assigned_uniqueid matches Some(id) ==> id.text@ == assigned->0@
            }
            &&& prepared matches Err(error) ==> error is NativeText
        }),
{
    let p = controller::record_of(pbx_id);
    if r == access.shared.controller.runtime@.len() {
        lookup::lemma_first_none(access.shared.controller.runtime@, p);
    } else {
        lookup::lemma_first_is(access.shared.controller.runtime@, p, r);
    }
    let fields = allocation_fields(
        access.shared.assigned_id_spec(pbx_id),
        binding,
        bind_address@,
    );
    lookup::lemma_first_at(fields, is_refused(), 0);
    let n = if access.shared.assigned_id_spec(pbx_id) is Some {
        1int
    } else {
        0int
    };
    assert(fields[n].1 == binding.line.number@);
    assert(fields[n + 1].1 == binding.line.context@);
    assert(fields[n + 2].1 == binding.line.caller_number@);
    assert(fields[n + 3].1 == binding.line.caller_name@);
    assert(fields[n + 4].1 == bind_address@);
    if n == 1 {
        assert(fields[0].1 == access.shared.assigned_id_spec(pbx_id)->0@);
    }
    assert(prepared is Ok ==> forall|i: int|
        0 <= i < fields.len() ==> !is_refused()(#[trigger] fields[i]));
}

/// Audio and video of a channel are marked as what they are and are symmetric where
/// the station is found to be behind a translator, or is configured so; signaling
/// is secure where the station registered securely, and video is set up exactly if
/// it was agreed.
pub proof fn law_channels_are_set_up_for_their_station(
    access: &Access,
    device: DeviceId,
    selection: VideoSelection,
    decided: bool,
    policy: AllocationPolicy,
    active: Option<bool>,
    d: int,
    s: int,
)
    requires
        call_ensures(allocation_policy, (access, &device, &selection, decided), policy),
        call_ensures(
            station_nat_active,
            (access, &access.shared.config, &device, decided),
            active,
        ),
        0 <= d < access.shared.config.devices@.len(),
        access.shared.config.devices@[d].id@ == device@,
        forall|j: int|
            0 <= j < d ==> (#[trigger] access.shared.config.devices@[j]).id@ != device@,
        0 <= s <= access.shared.controller.registered@.len(),
        forall|j: int|
            0 <= j < s ==> (#[trigger] access.shared.controller.registered@[j]).id@ != device@,
        s < access.shared.controller.registered@.len()
            ==> access.shared.controller.registered@[s].id@ == device@,
    ensures
        ({
            let network = access.shared.config.devices@[d].network;
            &&& policy.audio.mark == network.qos.audio
            &&& active matches Some(active) ==> policy.audio.symmetric == active
            &&& active is None ==> (policy.audio.symmetric <==> network.nat == NatMode::On
                || network.nat == NatMode::AutoOn)
            &&& policy.video is Some <==> selection is Ready
            &&& policy.video matches Some(video) ==> selection == VideoSelection::Ready(
                video.selected,
            ) && video.policy.mark == network.qos.video && video.policy.symmetric
                == policy.audio.symmetric
            &&& policy.signaling_secure <==> s < access.shared.controller.registered@.len()
                && access.shared.controller.registered@[s].registration.transport
                == StationTransport::Secure
        }),
{
    lookup::lemma_first_is(access.shared.config.devices@, config::is_device(device@), d);
    let p = controller::is_station(device@);
    if s == access.shared.controller.registered@.len() {
        lookup::lemma_first_none(access.shared.controller.registered@, p);
    } else {
        lookup::lemma_first_is(access.shared.controller.registered@, p, s);
    }
}

/// A channel is planned by its request: metadata are made where none are given, a
/// requestor is asked where there is one, the buffer follows the way its media go,
/// and a lot is set where the line has one.
pub proof fn law_channels_are_planned_by_their_request<'a>(
    access: &Access,
    request: ChannelAllocationRequest<'a>,
    jitter: JitterBufferDecision,
    plan: AllocationPlan,
    f: int,
)
    requires
        call_ensures(allocation_plan, (access, &request, jitter), plan),
        0 <= f <= access.shared.config.line_features@.len(),
        forall|j: int|
            0 <= j < f ==> (#[trigger] access.shared.config.line_features@[j]).line@
                != request.binding.line.number@,
        f < access.shared.config.line_features@.len()
            ==> access.shared.config.line_features@[f].line@ == request.binding.line.number@,
    ensures
        plan.configure_metadata <==> request.metadata is None,
        plan.has_requestor <==> request.requestor is Some,
        plan.owner == request.owner,
        request.binding.media is Some && request.binding.media->0.direct_media
            ==> plan.jitter_buffer == jitter.direct_media,
        !(request.binding.media is Some && request.binding.media->0.direct_media)
            ==> plan.jitter_buffer == jitter.anchored_media,
        plan.parking_lot <==> f < access.shared.config.line_features@.len()
            && access.shared.config.line_features@[f].parking_lot is Some,
{
    let p = config::features_of_line(request.binding.line.number@);
    if f == access.shared.config.line_features@.len() {
        lookup::lemma_first_none(access.shared.config.line_features@, p);
    } else {
        lookup::lemma_first_is(access.shared.config.line_features@, p, f);
    }
}

/// A failed step ends the allocation, unless the channel can do without it. What is
/// taken back depends on how far it came: nothing before there is a channel, the
/// channel before it was published, and its publication after that.
pub proof fn law_failed_allocations_are_taken_back(
    plan: AllocationPlan,
    video: AllocatedVideo,
    step: AllocationStep,
    state: AllocationState,
    first: AllocationState,
)
    requires
        call_ensures(after_allocation_step, (plan, video, step, false), state),
        call_ensures(allocate_channel, (), first),
    ensures
        first == AllocationState::At(AllocationStep::Enter),
        state is Failed <==> !(step is ConfigureCompletion || step is InstallVideo),
        state matches AllocationState::Failed(cleanup) ==> {
            &&& cleanup is Nothing <==> step is Enter || step is AdmitSignals || step is FindFormat
                || step is ConfigureMetadata || step is Allocate
            &&& cleanup is WithdrawAndQueueUnavailable <==> step is DisableVideo || step is HandOff
        },
{
}

/// Steps that succeed follow each other in their order, without those that this
/// channel does not need.
pub proof fn law_allocations_take_the_steps_they_need(
    plan: AllocationPlan,
    video: AllocatedVideo,
    format: AllocationState,
    borrowed: AllocationState,
    completed: AllocationState,
    applied: AllocationState,
    picked: AllocationState,
    published: AllocationState,
    installed: AllocationState,
)
    requires
        call_ensures(
            after_allocation_step,
            (plan, video, AllocationStep::FindFormat, true),
            format,
        ),
        call_ensures(
            after_allocation_step,
            (plan, video, AllocationStep::BorrowChannel, true),
            borrowed,
        ),
        call_ensures(
            after_allocation_step,
            (plan, video, AllocationStep::ConfigureCompletion, true),
            completed,
        ),
        call_ensures(
            after_allocation_step,
            (plan, video, AllocationStep::ApplyMetadata, true),
            applied,
        ),
        call_ensures(
            after_allocation_step,
            (plan, video, AllocationStep::ConfigurePickup, true),
            picked,
        ),
        call_ensures(
            after_allocation_step,
            (plan, video, AllocationStep::PublishBinding, true),
            published,
        ),
        call_ensures(
            after_allocation_step,
            (plan, video, AllocationStep::InstallVideo, true),
            installed,
        ),
    ensures
        plan.configure_metadata ==> format == AllocationState::At(AllocationStep::ConfigureMetadata),
        !plan.configure_metadata ==> format == AllocationState::At(AllocationStep::Allocate),
        borrowed == AllocationState::At(AllocationStep::ConfigureCompletion),
        plan.has_requestor ==> completed == AllocationState::At(AllocationStep::BorrowRequestor),
        !plan.has_requestor ==> completed == AllocationState::At(AllocationStep::ApplyMetadata),
        plan.jitter_buffer ==> applied == AllocationState::At(
            AllocationStep::ConfigureJitterBuffer,
        ),
        !plan.jitter_buffer ==> applied == AllocationState::At(AllocationStep::ConfigurePickup),
        plan.parking_lot ==> picked == AllocationState::At(AllocationStep::SetParkingLot),
        !plan.parking_lot ==> picked == AllocationState::At(AllocationStep::RetainChannel),
        published == AllocationState::At(AllocationStep::InstallVideo),
        video.allocated && !video.kept ==> installed == AllocationState::At(
            AllocationStep::DisableVideo,
        ),
        !(video.allocated && !video.kept) && plan.owner == ChannelAllocationOwner::Asterisk
            ==> installed == AllocationState::At(AllocationStep::HandOff),
        !(video.allocated && !video.kept) && plan.owner == ChannelAllocationOwner::Module
            ==> installed == AllocationState::Allocated,
{
    assert(AllocationStep::ConfigureMetadata.rank() == 3 && AllocationStep::Allocate.rank() == 4);
    assert(AllocationStep::ConfigureCompletion.rank() == 6);
    assert(AllocationStep::BorrowRequestor.rank() == 7);
    assert(AllocationStep::InheritVariables.rank() == 8);
    assert(AllocationStep::ApplyMetadata.rank() == 9);
    assert(AllocationStep::ConfigureJitterBuffer.rank() == 10);
    assert(AllocationStep::ConfigurePickup.rank() == 11);
    assert(AllocationStep::SetParkingLot.rank() == 12);
    assert(AllocationStep::RetainChannel.rank() == 13);
    assert(AllocationStep::InstallVideo.rank() == 15);
    assert(AllocationStep::DisableVideo.rank() == 16);
    assert(AllocationStep::HandOff.rank() == 17);
}

/// Video is installed exactly if it was agreed, the switch has a stream for it and
/// the address at hand suits the agreement; each other case leaves audio for its
/// own reason. A stream is kept exactly if video was installed.
pub proof fn law_video_is_installed_where_it_can_run(
    selection: VideoSelection,
    allocation: VideoRtpAllocation,
    local_endpoint: Option<MediaEndpointAddress>,
    installation: VideoInstallation,
    suits: bool,
    installed: bool,
    video: AllocatedVideo,
)
    requires
        call_ensures(video_installation, (selection, allocation, local_endpoint), installation),
        selection is Ready && local_endpoint is Some ==> call_ensures(
            video_endpoint_is_supported,
            (&selection->Ready_0, local_endpoint->0),
            suits,
        ),
        call_ensures(allocated_video, (allocation, &installation, installed), video),
    ensures
        installation is Nothing <==> selection is Disabled,
        installation is Install <==> selection is Ready && allocation == VideoRtpAllocation::Active
            && local_endpoint is Some && suits,
        installation matches VideoInstallation::Install { plan, selected } ==> selection
            == VideoSelection::Ready(selected) && plan.session_generation
            == selected.session_generation && plan.protocol == selected.protocol && plan.payload
            == selected.payload && local_endpoint == Some(plan.local_endpoint),
        selection matches VideoSelection::AudioOnly { session_generation, reason } ==> installation
            == (VideoInstallation::AudioOnly { session_generation, reason }),
        selection is Ready ==> (installation matches VideoInstallation::AudioOnly {
            session_generation,
            reason,
        } ==> session_generation == selection->Ready_0.session_generation && (reason
            == VideoFallbackReason::NativeRtpUnavailable <==> allocation
            != VideoRtpAllocation::Active) && (reason
            == VideoFallbackReason::LocalEndpointUnavailable <==> allocation
            == VideoRtpAllocation::Active)),
        video.allocated <==> allocation == VideoRtpAllocation::Active,
        video.kept <==> installed && installation is Install,
{
}

/// The metadata of a channel are made of the call, its line and its station, each
/// from where it belongs; a number counts as dialed once there are digits.
pub proof fn law_metadata_come_from_call_line_and_station<'a>(
    access: &'a Access,
    binding: &'a LineBinding,
    pbx_id: PbxCallId,
    inputs: Option<ConfiguredChannelMetadata<'a>>,
    c: int,
    d: int,
)
    requires
        call_ensures(channel_metadata_inputs, (access, binding, pbx_id), inputs),
        0 <= c <= access.shared.controller.calls@.len(),
        forall|j: int|
            0 <= j < c ==> (#[trigger] access.shared.controller.calls@[j]).pbx_id != pbx_id,
        c < access.shared.controller.calls@.len() ==> access.shared.controller.calls@[c].pbx_id
            == pbx_id,
        0 <= d < access.shared.config.devices@.len(),
        access.shared.config.devices@[d].id@ == binding.device_id@,
        forall|j: int|
            0 <= j < d ==> (#[trigger] access.shared.config.devices@[j]).id@
                != binding.device_id@,
    ensures
        inputs is Some <==> c < access.shared.controller.calls@.len(),
        inputs matches Some(inputs) ==> {
            let call = access.shared.controller.calls@[c];
            &&& *inputs.call == call.metadata
            &&& inputs.direction == call.direction
            &&& inputs.caller_number@ == binding.line.caller_number@
            &&& inputs.dialed_number is Some <==> call.digits@.len() > 0
            &&& inputs.dialed_number matches Some(number) ==> number@ == call.digits@
            &&& inputs.account_code is Some <==> binding.line.account_code is Some
            &&& inputs.account_code matches Some(code) ==> code@ == binding.line.account_code->0@
            &&& inputs.language@ == binding.line.language@
            &&& inputs.device_variables is Some && *inputs.device_variables->0
                == access.shared.config.devices@[d].channel_variables
            &&& *inputs.line_variables == binding.line.channel_variables
        },
{
    let p = controller::is_pbx_call(pbx_id);
    if c == access.shared.controller.calls@.len() {
        lookup::lemma_first_none(access.shared.controller.calls@, p);
    } else {
        lookup::lemma_first_is(access.shared.controller.calls@, p, c);
    }
    lookup::lemma_first_is(
        access.shared.config.devices@,
        config::is_device(binding.device_id@),
        d,
    );
}

/// Composed metadata are kept with their call where they were accepted, and change
/// no other call; else nothing is kept.
pub proof fn law_accepted_metadata_are_kept(
    access: &mut Access,
    pbx_id: PbxCallId,
    composed: Option<CallMetadata>,
    accepted: bool,
    metadata: Option<CallMetadata>,
    c: int,
    k: int,
)
    requires
        call_ensures(configured_channel_metadata, (access, pbx_id, composed, accepted), metadata),
        0 <= c <= old(access).shared.controller.calls@.len(),
        forall|j: int|
            0 <= j < c ==> (#[trigger] old(access).shared.controller.calls@[j]).pbx_id != pbx_id,
        c < old(access).shared.controller.calls@.len()
            ==> old(access).shared.controller.calls@[c].pbx_id == pbx_id,
        0 <= k < old(access).shared.controller.calls@.len(),
    ensures
        metadata is Some <==> accepted && composed is Some && c
            < old(access).shared.controller.calls@.len(),
        metadata is Some ==> metadata == composed,
        metadata is None ==> *final(access) == *old(access),
        final(access).shared.controller.calls@.len() == old(access).shared.controller.calls@.len(),
        k != c ==> final(access).shared.controller.calls@[k]
            == old(access).shared.controller.calls@[k],
        final(access).shared.controller.calls@[k].state
            == old(access).shared.controller.calls@[k].state,
        final(access).shared.config == old(access).shared.config,
        metadata is Some ==> model::same_metadata(
            final(access).shared.controller.calls@[c].metadata,
            composed->0,
        ),
{
    let p = controller::is_pbx_call(pbx_id);
    if c == old(access).shared.controller.calls@.len() {
        lookup::lemma_first_none(old(access).shared.controller.calls@, p);
    } else {
        lookup::lemma_first_is(old(access).shared.controller.calls@, p, c);
    }
}

/// The groups of a channel are those of its line, called and picked up each for
/// itself, numbered and named; a call is private as it was asked to be.
pub proof fn law_channels_join_the_groups_of_their_line(
    access: &Access,
    binding: LineBinding,
    channel_valid: bool,
    private_call: bool,
    policy: Result<PickupPolicy, CallFeatureError>,
    group: u8,
    f: int,
)
    requires
        call_ensures(
            configure_pickup_policy,
            (access, &binding, channel_valid, private_call),
            policy,
        ),
        group < 64,
        0 <= f <= access.shared.config.line_features@.len(),
        forall|j: int|
            0 <= j < f ==> (#[trigger] access.shared.config.line_features@[j]).line@
                != binding.line.number@,
        f < access.shared.config.line_features@.len()
            ==> access.shared.config.line_features@[f].line@ == binding.line.number@,
    ensures
        policy is Ok <==> channel_valid,
        policy matches Ok(policy) ==> {
            let pickup = access.shared.config.line_features@[f].pickup;
            &&& policy.private_call == private_call
            &&& f == access.shared.config.line_features@.len() ==> policy.call_groups == 0
                && policy.pickup_groups == 0
            &&& f < access.shared.config.line_features@.len() ==> {
                &&& (policy.call_groups >> (group as u64)) & 1 == 1 <==> pickup.call_groups@.contains(
                    group,
                )
                &&& (policy.pickup_groups >> (group as u64)) & 1 == 1
                    <==> pickup.pickup_groups@.contains(group)
                &&& policy.named_call_groups@ == text::joined(pickup.named_call_groups@, ","@)
                &&& policy.named_pickup_groups@ == text::joined(pickup.named_pickup_groups@, ","@)
            }
        },
{
    let p = config::features_of_line(binding.line.number@);
    if f == access.shared.config.line_features@.len() {
        lookup::lemma_first_none(access.shared.config.line_features@, p);
    } else {
        lookup::lemma_first_is(access.shared.config.line_features@, p, f);
        if let Ok(policy) = policy {
            let pickup = access.shared.config.line_features@[f].pickup;
            assert(in_mask(policy.call_groups, group) <==> pickup.call_groups@.contains(group));
            assert(in_mask(policy.pickup_groups, group) <==> pickup.pickup_groups@.contains(group));
        }
    }
}

/// Routing a call goes to the destination in the context that were named, and the
/// call keeps what is known of it except that it has dialed that destination; it
/// fails exactly where a word cannot be held or the call is not there.
pub proof fn law_routing_goes_where_it_was_sent(
    access: &Access,
    call_id: PbxCallId,
    context: &str,
    destination: &str,
    routing: Result<Routing, AsteriskBackendError>,
    c: int,
)
    requires
        call_ensures(start_routing, (access, call_id, context, destination), routing),
        0 <= c <= access.shared.controller.calls@.len(),
        forall|j: int|
            0 <= j < c ==> (#[trigger] access.shared.controller.calls@[j]).pbx_id != call_id,
        c < access.shared.controller.calls@.len() ==> access.shared.controller.calls@[c].pbx_id
            == call_id,
    ensures
        routing is Ok <==> text::is_native(context@) && text::is_native(destination@) && c
            < access.shared.controller.calls@.len(),
        routing matches Ok(routing) ==> {
            &&& routing.call_id == call_id
            &&& routing.text.context.text@ == context@
            &&& routing.text.destination.text@ == destination@
            &&& routing.metadata.dnid matches Some(dialed) && dialed@ == destination@
        },
{
    let p = controller::is_pbx_call(call_id);
    if c == access.shared.controller.calls@.len() {
        lookup::lemma_first_none(access.shared.controller.calls@, p);
    } else {
        lookup::lemma_first_is(access.shared.controller.calls@, p, c);
    }
}

/// A call is routed by validating, applying and committing its metadata before the
/// dial plan is started, each once the one before succeeded; anything else ends the
/// routing with a failure, and it succeeds only once the dial plan runs.
pub proof fn law_routing_takes_its_steps_in_order<'a>(
    access: &mut Access,
    routing: &'a Routing,
    stage: RoutingStage,
    reply: RoutingReply,
    next: RoutingStage,
    action: RoutingAction<'a>,
)
    requires
        call_ensures(continue_routing, (access, routing, stage, reply), (next, action)),
    ensures
        ({
            let live = old(access).shared.live_channel_spec(routing.call_id) is Some;
            &&& action is Apply <==> stage is Validating && live && (reply matches
                RoutingReply::Validated(done) && done is Ok)
            &&& action is Commit <==> stage is Applying && (reply matches RoutingReply::Applied(
                Some(done),
            ) && done is Ok)
            &&& action is StartDialplan <==> stage is Committing && reply
                == RoutingReply::Committed(true) && live
            &&& action matches RoutingAction::Apply(metadata) ==> *metadata == routing.metadata
            &&& action matches RoutingAction::Commit(metadata) ==> *metadata == routing.metadata
            &&& action matches RoutingAction::StartDialplan(words) ==> *words == routing.text
            &&& next is Applying <==> action is Apply
            &&& next is Committing <==> action is Commit
            &&& next is Starting <==> action is StartDialplan
            &&& action matches RoutingAction::Finish(outcome) ==> (outcome is Ok
                <==> stage is Starting && reply == RoutingReply::Started(true))
            &&& !(stage is Committing && reply == RoutingReply::Committed(true)) ==> *final(access)
                == *old(access)
        }),
{
}

/// An operation reaches a live channel, and succeeds where the switch accepted it; a
/// digit has to be one that the switch can express. Each failure names the
/// operation.
pub proof fn law_operations_need_a_live_channel(
    access: &Access,
    call_id: PbxCallId,
    operation: ChannelOperation,
    accepted: bool,
    outcome: Result<(), AsteriskBackendError>,
    present: bool,
    cause: Option<HangupCause>,
    allocated: Result<(), ChannelAllocationError>,
    created: Result<(), AsteriskBackendError>,
)
    requires
        call_ensures(channel_operation, (access, call_id, operation, accepted), outcome),
        call_ensures(queue_unavailable, (present,), cause),
        call_ensures(channel_created, (call_id, allocated), created),
    ensures
        ({
            let live = access.shared.live_channel_spec(call_id) is Some;
            let expressible = match operation {
                ChannelOperation::SendDigit(digit) => digit as u32 <= 255,
                _ => true,
            };
            &&& outcome is Ok <==> live && accepted && expressible
            &&& outcome matches Err(error) ==> (error is CallUnavailable <==> !live) && (
            error is Failed <==> live)
            &&& outcome matches Err(AsteriskBackendError::CallUnavailable { operation: named, call_id: of })
                ==> of == call_id && (operation is Hold ==> named@ == "hold"@) && (
            operation is Resume ==> named@ == "resume"@) && (operation is Answer ==> named@
                == "answer"@) && (operation is Hangup ==> named@ == "hangup"@)
            &&& cause is Some <==> present
            &&& cause matches Some(cause) ==> cause == HangupCause::RequestedChannelUnavailable
            &&& created is Ok <==> allocated is Ok
            &&& allocated matches Err(allocation) ==> created == Err::<(), AsteriskBackendError>(
                AsteriskBackendError::ChannelAllocation { call_id, allocation },
            )
        }),
{
}

/// A new channel is asked for with the numbers, line and codec of its call; one for
/// a consultation names the live channel that it is made for, any other none.
pub proof fn law_channels_are_requested_for_their_call<'a>(
    access: &Access,
    source_call_id: PbxCallId,
    handset_call_id: CallId,
    call_id: PbxCallId,
    binding: &'a LineBinding,
    codec: Codec,
    bind_address: &str,
    prepared: Result<ChannelAllocationText, ChannelAllocationError>,
    source: Option<&crate::access::ChannelBinding>,
    consulting: Result<ChannelAllocationRequest<'a>, AsteriskBackendError>,
    plain: Result<ChannelAllocationRequest<'a>, AsteriskBackendError>,
)
    requires
        call_ensures(
            prepare_channel_allocation_text,
            (access, binding, call_id, bind_address),
            prepared,
        ),
        call_ensures(with_channel, (access, source_call_id), source),
        call_ensures(
            create_consultation_channel,
            (access, source_call_id, handset_call_id, call_id, binding, codec, bind_address),
            consulting,
        ),
        call_ensures(
            create_channel,
            (access, handset_call_id, call_id, binding, codec, bind_address),
            plain,
        ),
    ensures
        plain is Ok <==> prepared is Ok,
        consulting is Ok <==> prepared is Ok && source is Some,
        plain matches Ok(request) ==> request.sccp_id == handset_call_id && request.pbx_id
            == call_id && *request.binding == *binding && request.codec == codec
            && request.requestor is None && request.metadata is None && request.owner
            == ChannelAllocationOwner::Module,
        consulting matches Ok(request) ==> request.sccp_id == handset_call_id && request.pbx_id
            == call_id && *request.binding == *binding && request.codec == codec
            && request.requestor == Some(source->0.handle) && request.metadata is None
            && request.owner == ChannelAllocationOwner::Module,
{
}

/// Every step of an allocation works with what the request holds: its numbers,
/// codec, requestor, words and line; metadata that were given go before those that
/// were made.
pub proof fn law_allocation_steps_work_on_the_request<'a>(
    access: &'a Access,
    request: &'a ChannelAllocationRequest<'a>,
    facts: &'a AllocationFacts<'a>,
    step: AllocationStep,
    work: AllocationWork<'a>,
    policy: AllocationPolicy,
)
    requires
        call_ensures(allocation_work, (access, request, facts, step), work),
        call_ensures(
            allocation_policy,
            (access, &request.binding.device_id, &facts.selection, facts.symmetric),
            policy,
        ),
    ensures
        work is Enter <==> step is Enter,
        step is AdmitSignals ==> work == (AllocationWork::AdmitSignals {
            pbx_id: request.pbx_id,
            handset_call_id: request.sccp_id,
        }),
        step is FindFormat ==> work == (AllocationWork::FindFormat { codec: request.codec }),
        work is ConfigureMetadata <==> step is ConfigureMetadata,
        step is Allocate ==> (work matches AllocationWork::Allocate {
            text,
            pbx_id,
            handset_call_id,
            codec,
            requestor,
            policy: used,
        } && *text == request.text && pbx_id == request.pbx_id && handset_call_id
            == request.sccp_id && codec == request.codec && requestor == request.requestor && used
            == policy),
        work is BorrowChannel <==> step is BorrowChannel,
        work is ConfigureCompletion <==> step is ConfigureCompletion,
        step is BorrowRequestor ==> work == (AllocationWork::BorrowRequestor {
            requestor: request.requestor,
        }),
        step is InheritVariables ==> work == (AllocationWork::InheritVariables {
            requestor: request.requestor,
        }),
        step is ApplyMetadata ==> (work matches AllocationWork::ApplyMetadata { metadata } && (
        request.metadata is Some ==> metadata == request.metadata) && (request.metadata is None
            ==> metadata == facts.configured)),
        work is ConfigureJitterBuffer <==> step is ConfigureJitterBuffer,
        step is ConfigurePickup ==> (work matches AllocationWork::ConfigurePickup(pickup)
            && pickup.private_call == (facts.privacy == Some(true))),
        work is SetParkingLot <==> step is SetParkingLot,
        work is RetainChannel <==> step is RetainChannel,
        step is PublishBinding ==> work == (AllocationWork::PublishBinding {
            pbx_id: request.pbx_id,
        }),
        step is InstallVideo ==> (work matches AllocationWork::InstallVideo {
            device_id,
            handset_call_id,
            ..
        } && *device_id == request.binding.device_id && handset_call_id == request.sccp_id),
        work is DisableVideo <==> step is DisableVideo,
        work is HandOff <==> step is HandOff,
{
}

/// A mask has the bit of a group exactly if the group is listed.
pub proof fn law_masks_have_the_listed_groups(groups: Vec<u8>, mask: u64, group: u8)
    requires
        call_ensures(group_mask, (&groups,), mask),
        group < 64,
    ensures
        (mask >> (group as u64)) & 1 == 1 <==> groups@.contains(group),
{
    assert(in_mask(mask, group) <==> groups@.contains(group));
}

/// Text is taken as it is exactly if it can be handed to native code, and a refusal
/// names what was refused, the context before the destination.
pub proof fn law_native_text_is_taken_as_it_is(
    field: &'static str,
    value: &str,
    taken: Result<NativeText, ChannelAllocationError>,
    call_id: PbxCallId,
    context: &str,
    destination: &str,
    routing: Result<RoutingText, AsteriskBackendError>,
)
    requires
        call_ensures(allocation_text, (field, value), taken),
        call_ensures(prepare_routing_text, (call_id, context, destination), routing),
    ensures
        taken is Ok <==> !value@.contains('\0'),
        taken matches Ok(text) ==> text.text@ == value@,
        routing is Ok <==> !context@.contains('\0') && !destination@.contains('\0'),
        routing matches Ok(text) ==> text.context.text@ == context@ && text.destination.text@
            == destination@,
        routing matches Err(AsteriskBackendError::NativeText { call_id: of, operation, .. }) ==> of
            == call_id && (context@.contains('\0') ==> operation@ == "routing context"@) && (
        !context@.contains('\0') ==> operation@ == "routing destination"@),
{
}

} // verus!
