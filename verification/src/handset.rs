//! Turning an effect for a handset into the commands that bring it about.

use vstd::prelude::*;
use vstd::string::*;

use crate::access::Access;
use crate::commands::{
    IpAddressType, MediaTrafficClass, MultimediaReceiveDescriptor, MultimediaTransmitDescriptor,
    PhoneCommand, PhoneCommandAction, ReceiveChannelPurpose,
};
use crate::effects::{CallInfo, HandsetEffect, PhoneCallState};
use crate::ids::{CallId, ConferenceId, DeviceId, SessionGeneration};
use crate::media::{
    self, audio_framing, configured_audio_processing, configured_audio_traffic_class,
    configured_dtmf_mode, configured_video_traffic_class, start_media_command, AudioFramingError,
};
use crate::model::{Codec, IpAddress, MediaEndpointAddress};
use crate::text::{self, decimal_text};

verus! {

/// Parameters of a video call that is being set up.
#[derive(Clone, Copy, Debug, PartialEq, Eq, Structural)]
pub struct VideoPlan {
    pub session_generation: SessionGeneration,
    pub protocol: u32,
    pub payload: u32,
    pub local_endpoint: MediaEndpointAddress,
}

/// The first protocol version that names the source of a video stream.
pub const VIDEO_SOURCE_PROTOCOL: u32 = 12;

/// One thing to have a handset do.
#[derive(Debug, PartialEq, Eq)]
pub enum HandsetCommand {
    /// Send and wait until the handset has it.
    Send(PhoneCommand),
    /// Send and wait, but no longer than a control may take.
    SendInTime(PhoneCommand),
    /// Send a call state and, once the handset has it, publish it.
    ShowState { device_id: DeviceId, call_id: CallId, state: PhoneCallState, privacy: bool },
    BeginMedia { device_id: DeviceId, call_id: CallId, codec: Codec, state: PhoneCallState },
    BeginAnswerMedia { device_id: DeviceId, call_id: CallId, codec: Codec },
    BeginOutboundMedia { device_id: DeviceId, call_id: CallId, codec: Codec },
}

/// What a failed command means for those after it.
#[derive(Clone, Copy, Debug, PartialEq, Eq, Structural)]
pub enum FailurePolicy {
    /// They are not sent.
    StopAtFirst,
    /// They are sent all the same, and the first failure is reported.
    SendAll,
}

/// Why an effect cannot be brought about.
#[derive(Debug, PartialEq, Eq)]
pub enum HandsetFailure {
    NoVideoPlan,
    VideoIdentity,
    VideoTrafficClass,
    /// The protocol of the handset takes no such video.
    VideoDescriptor(String),
    AudioTrafficClass,
    Framing(AudioFramingError),
    /// No endpoint of the switch can be announced.
    Source(String),
    /// The controller does not know the call any more.
    PickupIdentity(String),
}

/// The commands of an effect, and what is reported once they have all
/// succeeded.
#[derive(Debug, PartialEq, Eq)]
pub struct HandsetPlan {
    pub commands: Vec<HandsetCommand>,
    pub policy: FailurePolicy,
    pub refusal: Option<HandsetFailure>,
}

/// What the controller knows of the call that an effect is for.
#[derive(Debug, PartialEq, Eq)]
pub struct HandsetFacts {
    /// The video plan that is being opened in the direction of the effect.
    pub video_plan: Option<VideoPlan>,
    /// Why the protocol of the handset does not take the video of the plan.
    pub video_refusal: Option<String>,
    /// The stream to refresh is still the one that plays.
    pub refresh_is_current: bool,
    /// Whether the call is private, if it is known.
    pub privacy: Option<bool>,
    pub call_info: Option<CallInfo>,
    /// What the call shows after a pickup.
    pub pickup_info: Result<CallInfo, String>,
    /// The endpoint of the switch that the handset receives from.
    pub receive_source: Result<MediaEndpointAddress, String>,
}

/// The conference number that identifies the video of `call_id`.
pub open spec fn video_conference_spec(call_id: CallId) -> Option<ConferenceId> {
    if call_id.0 <= u32::MAX {
        Some(ConferenceId(call_id.0 as u32))
    } else {
        None
    }
}

pub fn video_conference_id(call_id: CallId) -> (id: Option<ConferenceId>)
    ensures
        id == video_conference_spec(call_id),
{
    if call_id.0 <= u32::MAX as u64 {
        Some(ConferenceId(call_id.0 as u32))
    } else {
        None
    }
}

pub open spec fn address_type_spec(endpoint: MediaEndpointAddress) -> IpAddressType {
    match endpoint.address {
        IpAddress::V4(_) => IpAddressType::Ipv4,
        IpAddress::V6(_) => IpAddressType::Ipv6,
    }
}

pub fn endpoint_address_type(endpoint: MediaEndpointAddress) -> (kind: IpAddressType)
    ensures
        kind == address_type_spec(endpoint),
{
    match endpoint.address {
        IpAddress::V4(_) => IpAddressType::Ipv4,
        IpAddress::V6(_) => IpAddressType::Ipv6,
    }
}

/// Where a handset is told that video comes from: older protocols are not told.
pub open spec fn video_source_spec(plan: VideoPlan) -> MediaEndpointAddress {
    if plan.protocol < VIDEO_SOURCE_PROTOCOL {
        MediaEndpointAddress { address: IpAddress::V4(0), port: 0 }
    } else {
        plan.local_endpoint
    }
}

/// The descriptor under which a handset opens its video receiver.
pub open spec fn receive_descriptor_spec(call_id: CallId, plan: VideoPlan) -> Option<
    MultimediaReceiveDescriptor,
> {
    match video_conference_spec(call_id) {
        Some(conference_id) => Some(
            MultimediaReceiveDescriptor {
                conference_id,
                payload: plan.payload,
                conference_creator: false,
                stream_passthrough_id: 0,
                associated_stream_id: 0,
                source: video_source_spec(plan),
                requested_address_type: address_type_spec(video_source_spec(plan)),
            },
        ),
        None => None,
    }
}

pub fn video_receive_descriptor(call_id: CallId, plan: &VideoPlan) -> (descriptor: Option<
    MultimediaReceiveDescriptor,
>)
    ensures
        descriptor == receive_descriptor_spec(call_id, *plan),
{
    let source = if plan.protocol < VIDEO_SOURCE_PROTOCOL {
        MediaEndpointAddress { address: IpAddress::V4(0), port: 0 }
    } else {
        plan.local_endpoint
    };
    match video_conference_id(call_id) {
        Some(conference_id) => Some(
            MultimediaReceiveDescriptor {
                conference_id,
                payload: plan.payload,
                conference_creator: false,
                stream_passthrough_id: 0,
                associated_stream_id: 0,
                source,
                requested_address_type: endpoint_address_type(source),
            },
        ),
        None => None,
    }
}

/// The descriptor under which a handset starts its video transmitter.
pub open spec fn transmit_descriptor_spec(
    call_id: CallId,
    plan: VideoPlan,
    traffic_class: Option<MediaTrafficClass>,
) -> Result<MultimediaTransmitDescriptor, HandsetFailure> {
    match traffic_class {
        None => Err(HandsetFailure::VideoTrafficClass),
        Some(traffic_class) => match video_conference_spec(call_id) {
            None => Err(HandsetFailure::VideoIdentity),
            Some(conference_id) => Ok(
                MultimediaTransmitDescriptor {
                    conference_id,
                    endpoint: plan.local_endpoint,
                    payload: plan.payload,
                    traffic_class,
                    stream_passthrough_id: 0,
                    associated_stream_id: 0,
                },
            ),
        },
    }
}

pub fn video_transmit_descriptor(
    access: &Access,
    device_id: &DeviceId,
    call_id: CallId,
    plan: &VideoPlan,
) -> (descriptor: Result<MultimediaTransmitDescriptor, HandsetFailure>)
    ensures
        descriptor == transmit_descriptor_spec(
            call_id,
            *plan,
            MediaTrafficClass::of(access.qos_spec(device_id@).video.dscp),
        ),
{
    let traffic_class = match configured_video_traffic_class(access, device_id) {
        Some(traffic_class) => traffic_class,
        None => return Err(HandsetFailure::VideoTrafficClass),
    };
    match video_conference_id(call_id) {
        None => Err(HandsetFailure::VideoIdentity),
        Some(conference_id) => Ok(
            MultimediaTransmitDescriptor {
                conference_id,
                endpoint: plan.local_endpoint,
                payload: plan.payload,
                traffic_class,
                stream_passthrough_id: 0,
                associated_stream_id: 0,
            },
        ),
    }
}

/// The mathematical content of a plan.
#[verifier::ext_equal]
pub struct PlanView {
    pub commands: Seq<HandsetCommand>,
    pub policy: FailurePolicy,
    pub refusal: Option<HandsetFailure>,
}

impl View for HandsetPlan {
    type V = PlanView;

    open spec fn view(&self) -> PlanView {
        PlanView { commands: self.commands@, policy: self.policy, refusal: self.refusal }
    }
}

/// One command.
pub open spec fn single(command: HandsetCommand) -> PlanView {
    PlanView { commands: seq![command], policy: FailurePolicy::StopAtFirst, refusal: None }
}

/// One command that is sent and confirmed.
pub open spec fn sent(device_id: DeviceId, action: PhoneCommandAction) -> PlanView {
    single(HandsetCommand::Send(PhoneCommand { device_id, action }))
}

/// Nothing but a refusal.
pub open spec fn refused(failure: HandsetFailure) -> PlanView {
    PlanView {
        commands: Seq::empty(),
        policy: FailurePolicy::StopAtFirst,
        refusal: Some(failure),
    }
}

/// Nothing to do.
pub open spec fn nothing() -> PlanView {
    PlanView { commands: Seq::empty(), policy: FailurePolicy::StopAtFirst, refusal: None }
}

/// The privacy that a call state is published with; an unknown call is private.
pub open spec fn published_privacy(privacy: Option<bool>) -> bool {
    match privacy {
        Some(privacy) => privacy,
        None => true,
    }
}

/// The commands of a call state. Media that stops is closed in both directions
/// first. A call that goes on hook is closed in place of showing a state; a
/// connected call shows its parties again.
pub open spec fn call_state_plan(
    facts: HandsetFacts,
    device_id: DeviceId,
    call_id: CallId,
    state: PhoneCallState,
    stop_media: bool,
) -> PlanView {
    let stop = if stop_media {
        seq![
            HandsetCommand::Send(
                PhoneCommand {
                    device_id,
                    action: PhoneCommandAction::CloseReceiveChannel { call_id },
                },
            ),
            HandsetCommand::Send(
                PhoneCommand { device_id, action: PhoneCommandAction::StopMedia { call_id } },
            ),
        ]
    } else {
        Seq::empty()
    };
    let show = if state == PhoneCallState::OnHook {
        seq![
            HandsetCommand::Send(
                PhoneCommand { device_id, action: PhoneCommandAction::CloseCall { call_id } },
            ),
        ]
    } else {
        seq![
            HandsetCommand::ShowState {
                device_id,
                call_id,
                state,
                privacy: published_privacy(facts.privacy),
            },
        ]
    };
    let parties = match facts.call_info {
        Some(info) if state == PhoneCallState::Connected => seq![
            HandsetCommand::Send(
                PhoneCommand {
                    device_id,
                    action: PhoneCommandAction::SetCallInfo { call_id, info },
                },
            ),
        ],
        _ => Seq::empty(),
    };
    PlanView {
        commands: stop + show + parties,
        policy: FailurePolicy::SendAll,
        refusal: None,
    }
}

/// The commands of a pickup: the handset shows the new parties, then rings, or
/// answers at once.
pub open spec fn pickup_plan(
    access: Access,
    facts: HandsetFacts,
    device_id: DeviceId,
    call_id: CallId,
    codec: Codec,
    answer: bool,
) -> PlanView {
    match facts.pickup_info {
        Err(text) => refused(HandsetFailure::PickupIdentity(text)),
        Ok(info) => {
            let shown = HandsetCommand::Send(
                PhoneCommand {
                    device_id,
                    action: PhoneCommandAction::SetCallInfo { call_id, info },
                },
            );
            let privacy = published_privacy(facts.privacy);
            if !answer {
                PlanView {
                    commands: seq![
                        shown,
                        HandsetCommand::Send(
                            PhoneCommand {
                                device_id,
                                action: PhoneCommandAction::StartRinging { call_id },
                            },
                        ),
                        HandsetCommand::ShowState {
                            device_id,
                            call_id,
                            state: PhoneCallState::RingIn,
                            privacy,
                        },
                    ],
                    policy: FailurePolicy::StopAtFirst,
                    refusal: None,
                }
            } else {
                match (access.framing_spec(device_id@, call_id, codec), facts.receive_source) {
                    (Err(error), _) => PlanView {
                        commands: seq![shown],
                        policy: FailurePolicy::StopAtFirst,
                        refusal: Some(HandsetFailure::Framing(error)),
                    },
                    (Ok(_), Err(text)) => PlanView {
                        commands: seq![shown],
                        policy: FailurePolicy::StopAtFirst,
                        refusal: Some(HandsetFailure::Source(text)),
                    },
                    (Ok(framing), Ok(source)) => PlanView {
                        commands: seq![
                            shown,
                            HandsetCommand::Send(
                                PhoneCommand {
                                    device_id,
                                    action: PhoneCommandAction::StopRinging { call_id },
                                },
                            ),
                            HandsetCommand::ShowState {
                                device_id,
                                call_id,
                                state: PhoneCallState::Connected,
                                privacy,
                            },
                            HandsetCommand::Send(
                                PhoneCommand {
                                    device_id,
                                    action: PhoneCommandAction::OpenReceiveChannel {
                                        call_id,
                                        purpose: ReceiveChannelPurpose::Media,
                                        source,
                                        codec,
                                        packet_ms: framing.packet_ms,
                                        max_frames_per_packet: framing.max_frames_per_packet,
                                        dtmf_mode: access.dtmf_mode_spec(device_id@, call_id),
                                        audio_processing: access.audio_processing_spec(
                                            device_id@,
                                            call_id,
                                        ),
                                    },
                                },
                            ),
                        ],
                        policy: FailurePolicy::StopAtFirst,
                        refusal: None,
                    },
                }
            }
        },
    }
}

/// The commands of an effect.
pub open spec fn effect_plan(access: Access, facts: HandsetFacts, effect: HandsetEffect) -> PlanView {
    match effect {
        HandsetEffect::BeginCall { device_id, line_instance, call_id, codec } => sent(
            device_id,
            PhoneCommandAction::BeginCall { line_instance, call_id, codec },
        ),
        HandsetEffect::BeginTransfer {
            device_id,
            source_call_id,
            consultation_call_id,
            consultation_line_instance,
            codec,
        } => sent(
            device_id,
            PhoneCommandAction::BeginTransfer {
                source_call_id,
                consultation_line_instance,
                consultation_call_id,
                codec,
            },
        ),
        HandsetEffect::StartTone { device_id, call_id, tone } => sent(
            device_id,
            PhoneCommandAction::StartTone { call_id, tone },
        ),
        HandsetEffect::CommitOutboundCall { device_id, call_id, info } => sent(
            device_id,
            PhoneCommandAction::CommitOutboundCall { call_id, info },
        ),
        HandsetEffect::PresentOutboundProceeding { device_id, call_id, info } => sent(
            device_id,
            PhoneCommandAction::PresentOutboundProceeding { call_id, info },
        ),
        HandsetEffect::PresentOutboundRinging { device_id, call_id, info } => sent(
            device_id,
            PhoneCommandAction::PresentOutboundRinging { call_id, info },
        ),
        HandsetEffect::SetCallInfo { device_id, call_id, info } => sent(
            device_id,
            PhoneCommandAction::SetCallInfo { call_id, info },
        ),
        HandsetEffect::BeginMedia { device_id, call_id, codec } => single(
            HandsetCommand::BeginMedia {
                device_id,
                call_id,
                codec,
                state: PhoneCallState::Connected,
            },
        ),
        HandsetEffect::BeginOneWayMedia { device_id, call_id, codec } => single(
            HandsetCommand::BeginMedia {
                device_id,
                call_id,
                codec,
                state: PhoneCallState::IntercomOneWay,
            },
        ),
        HandsetEffect::BeginEarlyMedia { device_id, call_id, codec } => single(
            HandsetCommand::BeginMedia {
                device_id,
                call_id,
                codec,
                state: PhoneCallState::Proceed,
            },
        ),
        HandsetEffect::BeginAnswerMedia { device_id, call_id, codec } => single(
            HandsetCommand::BeginAnswerMedia { device_id, call_id, codec },
        ),
        HandsetEffect::BeginOutboundMedia { device_id, call_id, codec } => single(
            HandsetCommand::BeginOutboundMedia { device_id, call_id, codec },
        ),
        HandsetEffect::OpenVideoReceive { device_id, call_id, .. } => match facts.video_plan {
            None => refused(HandsetFailure::NoVideoPlan),
            Some(plan) => match receive_descriptor_spec(call_id, plan) {
                None => refused(HandsetFailure::VideoIdentity),
                Some(receive) => match facts.video_refusal {
                    Some(text) => refused(HandsetFailure::VideoDescriptor(text)),
                    None => sent(
                        device_id,
                        PhoneCommandAction::OpenMultimediaReceiveChannel { call_id, receive },
                    ),
                },
            },
        },
        HandsetEffect::StartVideoTransmit { device_id, call_id, .. } => match facts.video_plan {
            None => refused(HandsetFailure::NoVideoPlan),
            Some(plan) => match transmit_descriptor_spec(
                call_id,
                plan,
                MediaTrafficClass::of(access.qos_spec(device_id@).video.dscp),
            ) {
                Err(failure) => refused(failure),
                Ok(transmit) => match facts.video_refusal {
                    Some(text) => refused(HandsetFailure::VideoDescriptor(text)),
                    None => sent(
                        device_id,
                        PhoneCommandAction::StartMultimediaTransmission { call_id, transmit },
                    ),
                },
            },
        },
        HandsetEffect::RefreshVideo { device_id, call_id, passthrough_party_id, .. } => if facts.refresh_is_current {
            sent(
                device_id,
                PhoneCommandAction::FastPictureUpdate {
                    call_id,
                    passthrough_party_id,
                    first_gob: 0,
                    gob_count: 0,
                },
            )
        } else {
            nothing()
        },
        HandsetEffect::StopVideo { device_id, call_id, session_generation } => if access.shared.controller.session_current_spec(
            device_id@,
            session_generation,
        ) {
            PlanView {
                commands: seq![
                    HandsetCommand::Send(
                        PhoneCommand {
                            device_id,
                            action: PhoneCommandAction::CloseMultimediaReceiveChannel { call_id },
                        },
                    ),
                    HandsetCommand::Send(
                        PhoneCommand {
                            device_id,
                            action: PhoneCommandAction::StopMultimediaTransmission { call_id },
                        },
                    ),
                ],
                policy: FailurePolicy::SendAll,
                refusal: None,
            }
        } else {
            nothing()
        },
        HandsetEffect::StartMedia { device_id, call_id, endpoint } => match (
            access.framing_spec(device_id@, call_id, endpoint.codec),
            MediaTrafficClass::of(access.qos_spec(device_id@).audio.dscp),
        ) {
            (Err(error), _) => refused(HandsetFailure::Framing(error)),
            (Ok(_), None) => refused(HandsetFailure::AudioTrafficClass),
            (Ok(framing), Some(traffic_class)) => single(
                HandsetCommand::Send(
                    media::start_media_spec(
                        access,
                        device_id,
                        call_id,
                        endpoint,
                        framing,
                        traffic_class,
                    ),
                ),
            ),
        },
        HandsetEffect::PickupCompleted { device_id, call_id, codec, answer } => pickup_plan(
            access,
            facts,
            device_id,
            call_id,
            codec,
            answer,
        ),
        HandsetEffect::ShowConferenceList {
            device_id,
            call_id,
            conference_id,
            participants,
        } => sent(
            device_id,
            PhoneCommandAction::ShowConferenceList { call_id, conference_id, participants },
        ),
        HandsetEffect::ShowConferenceParticipantActions {
            device_id,
            call_id,
            conference_id,
            participant,
            removable,
            demotable,
        } => sent(
            device_id,
            PhoneCommandAction::ShowConferenceParticipantActions {
                call_id,
                conference_id,
                participant,
                removable,
                demotable,
            },
        ),
        HandsetEffect::SetCallState { device_id, call_id, state, stop_media } => call_state_plan(
            facts,
            device_id,
            call_id,
            state,
            stop_media,
        ),
        HandsetEffect::SetMicrophoneMode { device_id, enabled, .. } => single(
            HandsetCommand::SendInTime(
                PhoneCommand { device_id, action: PhoneCommandAction::SetMicrophoneMode { enabled } },
            ),
        ),
    }
}

fn plan_one(command: HandsetCommand) -> (plan: HandsetPlan)
    ensures
        plan@ == single(command),
{
    let mut commands: Vec<HandsetCommand> = Vec::new();
    commands.push(command);
    HandsetPlan { commands, policy: FailurePolicy::StopAtFirst, refusal: None }
}

fn plan_send(device_id: DeviceId, action: PhoneCommandAction) -> (plan: HandsetPlan)
    ensures
        plan@ == sent(device_id, action),
{
    plan_one(HandsetCommand::Send(PhoneCommand::new(device_id, action)))
}

fn plan_refusal(failure: HandsetFailure) -> (plan: HandsetPlan)
    ensures
        plan@ == refused(failure),
{
    HandsetPlan {
        commands: Vec::new(),
        policy: FailurePolicy::StopAtFirst,
        refusal: Some(failure),
    }
}

fn plan_nothing() -> (plan: HandsetPlan)
    ensures
        plan@ == nothing(),
{
    HandsetPlan { commands: Vec::new(), policy: FailurePolicy::StopAtFirst, refusal: None }
}

fn state_privacy(privacy: Option<bool>) -> (shown: bool)
    ensures
        shown == published_privacy(privacy),
{
    match privacy {
        Some(privacy) => privacy,
        None => true,
    }
}

/// Shows a call state and publishes it.
pub fn send_handset_call_state(
    device_id: DeviceId,
    call_id: CallId,
    state: PhoneCallState,
    privacy: Option<bool>,
) -> (command: HandsetCommand)
    ensures
        command == (HandsetCommand::ShowState {
            device_id,
            call_id,
            state,
            privacy: published_privacy(privacy),
        }),
{
    HandsetCommand::ShowState { device_id, call_id, state, privacy: state_privacy(privacy) }
}

fn plan_call_state(
    facts: HandsetFacts,
    device_id: DeviceId,
    call_id: CallId,
    state: PhoneCallState,
    stop_media: bool,
) -> (plan: HandsetPlan)
    ensures
        plan@ == call_state_plan(facts, device_id, call_id, state, stop_media),
{
    let mut commands: Vec<HandsetCommand> = Vec::new();
    if stop_media {
        commands.push(
            HandsetCommand::Send(
                PhoneCommand::new(
                    device_id.clone(),
                    PhoneCommandAction::CloseReceiveChannel { call_id },
                ),
            ),
        );
        commands.push(
            HandsetCommand::Send(
                PhoneCommand::new(device_id.clone(), PhoneCommandAction::StopMedia { call_id }),
            ),
        );
    }
    if state == PhoneCallState::OnHook {
        commands.push(
            HandsetCommand::Send(
                PhoneCommand::new(device_id, PhoneCommandAction::CloseCall { call_id }),
            ),
        );
    } else {
        commands.push(
            send_handset_call_state(device_id.clone(), call_id, state, facts.privacy),
        );
        if state == PhoneCallState::Connected {
            if let Some(info) = facts.call_info {
                commands.push(
                    HandsetCommand::Send(
                        PhoneCommand::new(
                            device_id,
                            PhoneCommandAction::SetCallInfo { call_id, info },
                        ),
                    ),
                );
            }
        }
    }
    let plan = HandsetPlan { commands, policy: FailurePolicy::SendAll, refusal: None };
    proof {
        assert(plan@ =~= call_state_plan(facts, device_id, call_id, state, stop_media));
    }
    plan
}

fn plan_pickup(
    access: &Access,
    facts: HandsetFacts,
    device_id: DeviceId,
    call_id: CallId,
    codec: Codec,
    answer: bool,
) -> (plan: HandsetPlan)
    ensures
        plan@ == pickup_plan(*access, facts, device_id, call_id, codec, answer),
{
    let ghost wanted = pickup_plan(*access, facts, device_id, call_id, codec, answer);
    let info = match facts.pickup_info {
        Ok(info) => info,
        Err(text) => return plan_refusal(HandsetFailure::PickupIdentity(text)),
    };
    let mut commands: Vec<HandsetCommand> = Vec::new();
    commands.push(
        HandsetCommand::Send(
            PhoneCommand::new(
                device_id.clone(),
                PhoneCommandAction::SetCallInfo { call_id, info },
            ),
        ),
    );
    if !answer {
        commands.push(
            HandsetCommand::Send(
                PhoneCommand::new(device_id.clone(), PhoneCommandAction::StartRinging { call_id }),
            ),
        );
        commands.push(
            send_handset_call_state(device_id, call_id, PhoneCallState::RingIn, facts.privacy),
        );
        let plan = HandsetPlan { commands, policy: FailurePolicy::StopAtFirst, refusal: None };
        proof {
            assert(plan@ =~= wanted);
        }
        return plan;
    }
    let framing = match audio_framing(access, &device_id, call_id, codec) {
        Ok(framing) => framing,
        Err(error) => {
            let plan = HandsetPlan {
                commands,
                policy: FailurePolicy::StopAtFirst,
                refusal: Some(HandsetFailure::Framing(error)),
            };
            proof {
                assert(plan@ =~= wanted);
            }
            return plan;
        },
    };
    let source = match facts.receive_source {
        Ok(source) => source,
        Err(text) => {
            let plan = HandsetPlan {
                commands,
                policy: FailurePolicy::StopAtFirst,
                refusal: Some(HandsetFailure::Source(text)),
            };
            proof {
                assert(plan@ =~= wanted);
            }
            return plan;
        },
    };
    let dtmf_mode = configured_dtmf_mode(access, &device_id, call_id);
    let audio_processing = configured_audio_processing(access, &device_id, call_id);
    commands.push(
        HandsetCommand::Send(
            PhoneCommand::new(device_id.clone(), PhoneCommandAction::StopRinging { call_id }),
        ),
    );
    commands.push(
        send_handset_call_state(
            device_id.clone(),
            call_id,
            PhoneCallState::Connected,
            facts.privacy,
        ),
    );
    commands.push(
        HandsetCommand::Send(
            PhoneCommand::new(
                device_id,
                PhoneCommandAction::OpenReceiveChannel {
                    call_id,
                    purpose: ReceiveChannelPurpose::Media,
                    source,
                    codec,
                    packet_ms: framing.packet_ms,
                    max_frames_per_packet: framing.max_frames_per_packet,
                    dtmf_mode,
                    audio_processing,
                },
            ),
        ),
    );
    let plan = HandsetPlan { commands, policy: FailurePolicy::StopAtFirst, refusal: None };
    proof {
        assert(plan@ =~= wanted);
    }
    plan
}

/// The commands that bring an effect about, in the order in which they are
/// sent.
pub fn execute_handset_effect(access: &Access, facts: HandsetFacts, effect: HandsetEffect) -> (plan:
    HandsetPlan)
    ensures
        plan@ == effect_plan(*access, facts, effect),
{
    match effect {
        HandsetEffect::BeginCall { device_id, line_instance, call_id, codec } => plan_send(
            device_id,
            PhoneCommandAction::BeginCall { line_instance, call_id, codec },
        ),
        HandsetEffect::BeginTransfer {
            device_id,
            source_call_id,
            consultation_call_id,
            consultation_line_instance,
            codec,
        } => plan_send(
            device_id,
            PhoneCommandAction::BeginTransfer {
                source_call_id,
                consultation_line_instance,
                consultation_call_id,
                codec,
            },
        ),
        HandsetEffect::StartTone { device_id, call_id, tone } => plan_send(
            device_id,
            PhoneCommandAction::StartTone { call_id, tone },
        ),
        HandsetEffect::CommitOutboundCall { device_id, call_id, info } => plan_send(
            device_id,
            PhoneCommandAction::CommitOutboundCall { call_id, info },
        ),
        HandsetEffect::PresentOutboundProceeding { device_id, call_id, info } => plan_send(
            device_id,
            PhoneCommandAction::PresentOutboundProceeding { call_id, info },
        ),
        HandsetEffect::PresentOutboundRinging { device_id, call_id, info } => plan_send(
            device_id,
            PhoneCommandAction::PresentOutboundRinging { call_id, info },
        ),
        HandsetEffect::SetCallInfo { device_id, call_id, info } => plan_send(
            device_id,
            PhoneCommandAction::SetCallInfo { call_id, info },
        ),
        HandsetEffect::BeginMedia { device_id, call_id, codec } => plan_one(
            HandsetCommand::BeginMedia {
                device_id,
                call_id,
                codec,
                state: PhoneCallState::Connected,
            },
        ),
        HandsetEffect::BeginOneWayMedia { device_id, call_id, codec } => plan_one(
            HandsetCommand::BeginMedia {
                device_id,
                call_id,
                codec,
                state: PhoneCallState::IntercomOneWay,
            },
        ),
        HandsetEffect::BeginEarlyMedia { device_id, call_id, codec } => plan_one(
            HandsetCommand::BeginMedia {
                device_id,
                call_id,
                codec,
                state: PhoneCallState::Proceed,
            },
        ),
        HandsetEffect::BeginAnswerMedia { device_id, call_id, codec } => plan_one(
            HandsetCommand::BeginAnswerMedia { device_id, call_id, codec },
        ),
        HandsetEffect::BeginOutboundMedia { device_id, call_id, codec } => plan_one(
            HandsetCommand::BeginOutboundMedia { device_id, call_id, codec },
        ),
        HandsetEffect::OpenVideoReceive { device_id, call_id, .. } => match facts.video_plan {
            None => plan_refusal(HandsetFailure::NoVideoPlan),
            Some(plan) => match video_receive_descriptor(call_id, &plan) {
                None => plan_refusal(HandsetFailure::VideoIdentity),
                Some(receive) => match facts.video_refusal {
                    Some(text) => plan_refusal(HandsetFailure::VideoDescriptor(text)),
                    None => plan_send(
                        device_id,
                        PhoneCommandAction::OpenMultimediaReceiveChannel { call_id, receive },
                    ),
                },
            },
        },
        HandsetEffect::StartVideoTransmit { device_id, call_id, .. } => match facts.video_plan {
            None => plan_refusal(HandsetFailure::NoVideoPlan),
            Some(plan) => match video_transmit_descriptor(access, &device_id, call_id, &plan) {
                Err(failure) => plan_refusal(failure),
                Ok(transmit) => match facts.video_refusal {
                    Some(text) => plan_refusal(HandsetFailure::VideoDescriptor(text)),
                    None => plan_send(
                        device_id,
                        PhoneCommandAction::StartMultimediaTransmission { call_id, transmit },
                    ),
                },
            },
        },
        HandsetEffect::RefreshVideo { device_id, call_id, passthrough_party_id, .. } => {
            if facts.refresh_is_current {
                plan_send(
                    device_id,
                    PhoneCommandAction::FastPictureUpdate {
                        call_id,
                        passthrough_party_id,
                        first_gob: 0,
                        gob_count: 0,
                    },
                )
            } else {
                plan_nothing()
            }
        },
        HandsetEffect::StopVideo { device_id, call_id, session_generation } => {
            if access.shared.controller.session_is_current(&device_id, session_generation) {
                let mut commands: Vec<HandsetCommand> = Vec::new();
                commands.push(
                    HandsetCommand::Send(
                        PhoneCommand::new(
                            device_id.clone(),
                            PhoneCommandAction::CloseMultimediaReceiveChannel { call_id },
                        ),
                    ),
                );
                commands.push(
                    HandsetCommand::Send(
                        PhoneCommand::new(
                            device_id,
                            PhoneCommandAction::StopMultimediaTransmission { call_id },
                        ),
                    ),
                );
                HandsetPlan { commands, policy: FailurePolicy::SendAll, refusal: None }
            } else {
                plan_nothing()
            }
        },
        HandsetEffect::StartMedia { device_id, call_id, endpoint } => {
            let framing = match audio_framing(access, &device_id, call_id, endpoint.codec) {
                Ok(framing) => framing,
                Err(error) => return plan_refusal(HandsetFailure::Framing(error)),
            };
            match configured_audio_traffic_class(access, &device_id) {
                None => plan_refusal(HandsetFailure::AudioTrafficClass),
                Some(traffic_class) => plan_one(
                    HandsetCommand::Send(
                        start_media_command(
                            access,
                            device_id,
                            call_id,
                            endpoint,
                            framing,
                            traffic_class,
                        ),
                    ),
                ),
            }
        },
        HandsetEffect::PickupCompleted { device_id, call_id, codec, answer } => plan_pickup(
            access,
            facts,
            device_id,
            call_id,
            codec,
            answer,
        ),
        HandsetEffect::ShowConferenceList { device_id, call_id, conference_id, participants } => {
            plan_send(
                device_id,
                PhoneCommandAction::ShowConferenceList { call_id, conference_id, participants },
            )
        },
        HandsetEffect::ShowConferenceParticipantActions {
            device_id,
            call_id,
            conference_id,
            participant,
            removable,
            demotable,
        } => plan_send(
            device_id,
            PhoneCommandAction::ShowConferenceParticipantActions {
                call_id,
                conference_id,
                participant,
                removable,
                demotable,
            },
        ),
        HandsetEffect::SetCallState { device_id, call_id, state, stop_media } => plan_call_state(
            facts,
            device_id,
            call_id,
            state,
            stop_media,
        ),
        HandsetEffect::SetMicrophoneMode { device_id, enabled, .. } => plan_one(
            HandsetCommand::SendInTime(
                PhoneCommand::new(device_id, PhoneCommandAction::SetMicrophoneMode { enabled }),
            ),
        ),
    }
}

/// The call that an effect is about.
pub open spec fn subject_spec(effect: HandsetEffect) -> CallId {
    match effect {
        HandsetEffect::BeginCall { call_id, .. } => call_id,
        HandsetEffect::BeginTransfer { consultation_call_id, .. } => consultation_call_id,
        HandsetEffect::StartTone { call_id, .. } => call_id,
        HandsetEffect::CommitOutboundCall { call_id, .. } => call_id,
        HandsetEffect::PresentOutboundProceeding { call_id, .. } => call_id,
        HandsetEffect::PresentOutboundRinging { call_id, .. } => call_id,
        HandsetEffect::SetCallInfo { call_id, .. } => call_id,
        HandsetEffect::BeginMedia { call_id, .. } => call_id,
        HandsetEffect::BeginAnswerMedia { call_id, .. } => call_id,
        HandsetEffect::BeginOutboundMedia { call_id, .. } => call_id,
        HandsetEffect::BeginOneWayMedia { call_id, .. } => call_id,
        HandsetEffect::BeginEarlyMedia { call_id, .. } => call_id,
        HandsetEffect::OpenVideoReceive { call_id, .. } => call_id,
        HandsetEffect::StartVideoTransmit { call_id, .. } => call_id,
        HandsetEffect::RefreshVideo { call_id, .. } => call_id,
        HandsetEffect::StopVideo { call_id, .. } => call_id,
        HandsetEffect::StartMedia { call_id, .. } => call_id,
        HandsetEffect::PickupCompleted { call_id, .. } => call_id,
        HandsetEffect::ShowConferenceList { call_id, .. } => call_id,
        HandsetEffect::ShowConferenceParticipantActions { call_id, .. } => call_id,
        HandsetEffect::SetCallState { call_id, .. } => call_id,
        HandsetEffect::SetMicrophoneMode { call_id, .. } => call_id,
    }
}

pub fn handset_effect_call_id(effect: &HandsetEffect) -> (call_id: Option<CallId>)
    ensures
        call_id == Some(subject_spec(*effect)),
{
    Some(
        match effect {
            HandsetEffect::BeginCall { call_id, .. } => *call_id,
            HandsetEffect::BeginTransfer { consultation_call_id, .. } => *consultation_call_id,
            HandsetEffect::StartTone { call_id, .. } => *call_id,
            HandsetEffect::CommitOutboundCall { call_id, .. } => *call_id,
            HandsetEffect::PresentOutboundProceeding { call_id, .. } => *call_id,
            HandsetEffect::PresentOutboundRinging { call_id, .. } => *call_id,
            HandsetEffect::SetCallInfo { call_id, .. } => *call_id,
            HandsetEffect::BeginMedia { call_id, .. } => *call_id,
            HandsetEffect::BeginAnswerMedia { call_id, .. } => *call_id,
            HandsetEffect::BeginOutboundMedia { call_id, .. } => *call_id,
            HandsetEffect::BeginOneWayMedia { call_id, .. } => *call_id,
            HandsetEffect::BeginEarlyMedia { call_id, .. } => *call_id,
            HandsetEffect::OpenVideoReceive { call_id, .. } => *call_id,
            HandsetEffect::StartVideoTransmit { call_id, .. } => *call_id,
            HandsetEffect::RefreshVideo { call_id, .. } => *call_id,
            HandsetEffect::StopVideo { call_id, .. } => *call_id,
            HandsetEffect::StartMedia { call_id, .. } => *call_id,
            HandsetEffect::PickupCompleted { call_id, .. } => *call_id,
            HandsetEffect::ShowConferenceList { call_id, .. } => *call_id,
            HandsetEffect::ShowConferenceParticipantActions { call_id, .. } => *call_id,
            HandsetEffect::SetCallState { call_id, .. } => *call_id,
            HandsetEffect::SetMicrophoneMode { call_id, .. } => *call_id,
        },
    )
}

/// What a command that has to be confirmed in time came to; none is the answer of a
/// handset that took too long.
pub fn sent_in_time(reply: Option<Result<(), String>>) -> (outcome: Result<(), String>)
    ensures
        match reply {
            Some(answer) => outcome == answer,
            None => outcome matches Err(words) && words@
                == "handset microphone command timed out"@,
        },
{
    match reply {
        Some(answer) => answer,
        None => Err("handset microphone command timed out".to_owned()),
    }
}

/// How far the commands of a plan have come.
#[derive(Clone, Copy, Debug, PartialEq, Eq, Structural)]
pub struct PlanProgress {
    pub sent: usize,
    /// The first command that failed.
    pub first_failure: Option<usize>,
}

impl PlanProgress {
    pub open spec fn wf(self, plan: HandsetPlan) -> bool {
        &&& self.sent <= plan.commands@.len()
        &&& self.first_failure matches Some(index) ==> index < self.sent
    }

    pub open spec fn next_spec(self, plan: HandsetPlan) -> Option<usize> {
        if self.sent < plan.commands@.len() && (plan.policy == FailurePolicy::SendAll
            || self.first_failure is None) {
            Some(self.sent)
        } else {
            None
        }
    }

    pub fn start() -> (progress: PlanProgress)
        ensures
            progress == (PlanProgress { sent: 0, first_failure: None }),
    {
        PlanProgress { sent: 0, first_failure: None }
    }

    /// The command to send next, if any is left to send.
    pub fn next(self, plan: &HandsetPlan) -> (index: Option<usize>)
        requires
            self.wf(*plan),
        ensures
            index == self.next_spec(*plan),
    {
        if self.sent < plan.commands.len() && (plan.policy == FailurePolicy::SendAll
            || self.first_failure.is_none()) {
            Some(self.sent)
        } else {
            None
        }
    }

    /// The progress once the next command has succeeded or failed.
    pub open spec fn after(self, succeeded: bool) -> PlanProgress {
        PlanProgress {
            sent: (self.sent + 1) as usize,
            first_failure: if succeeded || self.first_failure is Some {
                self.first_failure
            } else {
                Some(self.sent)
            },
        }
    }

    pub fn record(self, plan: &HandsetPlan, succeeded: bool) -> (progress: PlanProgress)
        requires
            self.wf(*plan),
            self.next_spec(*plan) is Some,
        ensures
            progress == self.after(succeeded),
            progress.wf(*plan),
    {
        let length: usize = plan.commands.len();
        assert(self.sent < length);
        PlanProgress {
            sent: self.sent + 1,
            first_failure: if succeeded || self.first_failure.is_some() {
                self.first_failure
            } else {
                Some(self.sent)
            },
        }
    }
}

/// What a plan came to when no command is left to send.
#[derive(Clone, Copy, Debug, PartialEq, Eq, Structural)]
pub enum PlanOutcome {
    Done,
    /// A command failed.
    Failed(usize),
    /// Every command succeeded and the effect is refused all the same.
    Refused,
}

pub open spec fn outcome_spec(plan: HandsetPlan, progress: PlanProgress) -> PlanOutcome {
    match progress.first_failure {
        Some(index) => PlanOutcome::Failed(index),
        None => if plan.refusal is Some {
            PlanOutcome::Refused
        } else {
            PlanOutcome::Done
        },
    }
}

pub fn plan_outcome(plan: &HandsetPlan, progress: PlanProgress) -> (outcome: PlanOutcome)
    requires
        progress.wf(*plan),
        progress.next_spec(*plan) is None,
    ensures
        outcome == outcome_spec(*plan, progress),
{
    match progress.first_failure {
        Some(index) => PlanOutcome::Failed(index),
        None => if plan.refusal.is_some() {
            PlanOutcome::Refused
        } else {
            PlanOutcome::Done
        },
    }
}

/// The progress of a plan whose commands succeed and fail as `results` say.
pub open spec fn run_results(plan: HandsetPlan, results: Seq<bool>, count: nat) -> PlanProgress
    decreases count,
{
    if count == 0 {
        PlanProgress { sent: 0, first_failure: None }
    } else {
        let before = run_results(plan, results, (count - 1) as nat);
        if before.next_spec(plan) is Some {
            before.after(results[before.sent as int])
        } else {
            before
        }
    }
}

/// A plan that sends everything reports the first of its failures although the
/// commands after it were sent; a plan that stops at the first failure sends
/// none after it. Either way a failure is never forgotten.
pub proof fn law_first_failure_is_reported(plan: HandsetPlan, results: Seq<bool>, count: nat)
    requires
        results.len() == plan.commands@.len(),
        plan.commands@.len() <= usize::MAX,
    ensures
        ({
            let progress = run_results(plan, results, count);
            &&& progress.wf(plan)
            &&& progress.first_failure matches Some(index) ==> {
                &&& !results[index as int]
                &&& forall|i: int| 0 <= i < index ==> results[i]
                &&& plan.policy == FailurePolicy::StopAtFirst ==> progress.sent == index + 1
            }
            &&& progress.first_failure is None ==> forall|i: int|
                0 <= i < progress.sent ==> results[i]
            &&& plan.policy == FailurePolicy::SendAll ==> progress.sent == if count
                <= plan.commands@.len() {
                count as int
            } else {
                plan.commands@.len() as int
            }
        }),
    decreases count,
{
    if count > 0 {
        law_first_failure_is_reported(plan, results, (count - 1) as nat);
    }
}

/// A call that goes on hook is closed, and shows no other state before; in
/// every other state it is shown exactly once.
pub proof fn law_call_states_are_shown_once(
    facts: HandsetFacts,
    device_id: DeviceId,
    call_id: CallId,
    state: PhoneCallState,
    stop_media: bool,
)
    ensures
        ({
            let commands = call_state_plan(facts, device_id, call_id, state, stop_media).commands;
            let close = HandsetCommand::Send(
                PhoneCommand { device_id, action: PhoneCommandAction::CloseCall { call_id } },
            );
            &&& state == PhoneCallState::OnHook ==> commands.last() == close && forall|i: int|
                0 <= i < commands.len() ==> !(#[trigger] commands[i] is ShowState)
            &&& state != PhoneCallState::OnHook ==> !commands.contains(close) && exists|i: int|
                0 <= i < commands.len() && #[trigger] commands[i] is ShowState && forall|j: int|
                    0 <= j < commands.len() && #[trigger] commands[j] is ShowState ==> i == j
        }),
{
    let commands = call_state_plan(facts, device_id, call_id, state, stop_media).commands;
    if state != PhoneCallState::OnHook {
        let i: int = if stop_media {
            2
        } else {
            0
        };
        assert(commands[i] is ShowState);
        assert forall|j: int| 0 <= j < commands.len() && #[trigger] commands[j] is ShowState implies i
            == j by {}
    }
}

/// The words for an effect that cannot be brought about.
pub open spec fn failure_words(
    failure: HandsetFailure,
    device: Seq<char>,
    call_id: CallId,
) -> Seq<char> {
    match failure {
        HandsetFailure::NoVideoPlan => "call CallId("@ + text::decimal(call_id.0 as nat)
            + ") has no current video plan for "@ + device,
        HandsetFailure::VideoIdentity => "call CallId("@ + text::decimal(call_id.0 as nat)
            + ") exceeds the video conference identity space"@,
        HandsetFailure::VideoTrafficClass => "invalid video traffic class for "@ + device,
        HandsetFailure::AudioTrafficClass => "invalid audio traffic class for "@ + device,
        HandsetFailure::Framing(error) => media::framing_error_words(error),
        HandsetFailure::VideoDescriptor(text) => text@,
        HandsetFailure::Source(text) => text@,
        HandsetFailure::PickupIdentity(text) => text@,
    }
}

impl HandsetFailure {
    pub fn text(&self, device_id: &DeviceId, call_id: CallId) -> (words: String)
        ensures
            words@ == failure_words(*self, device_id@, call_id),
    {
        match self {
            HandsetFailure::NoVideoPlan => {
                let mut words = "call CallId(".to_owned();
                words.append(decimal_text(call_id.0).as_str());
                words.append(") has no current video plan for ");
                words.append(device_id.as_str());
                words
            },
            HandsetFailure::VideoIdentity => {
                let mut words = "call CallId(".to_owned();
                words.append(decimal_text(call_id.0).as_str());
                words.append(") exceeds the video conference identity space");
                words
            },
            HandsetFailure::VideoTrafficClass => {
                let mut words = "invalid video traffic class for ".to_owned();
                words.append(device_id.as_str());
                words
            },
            HandsetFailure::AudioTrafficClass => {
                let mut words = "invalid audio traffic class for ".to_owned();
                words.append(device_id.as_str());
                words
            },
            HandsetFailure::Framing(error) => error.text(),
            HandsetFailure::VideoDescriptor(text) => text.clone(),
            HandsetFailure::Source(text) => text.clone(),
            HandsetFailure::PickupIdentity(text) => text.clone(),
        }
    }
}

/// What an effect shows on a station is sent to that station, for the call that it
/// names and with what it carries.
pub proof fn law_effects_reach_their_station(
    access: &Access,
    facts: HandsetFacts,
    effect: HandsetEffect,
    plan: HandsetPlan,
)
    requires
        call_ensures(execute_handset_effect, (access, facts, effect), plan),
    ensures
        effect matches HandsetEffect::BeginCall { device_id, line_instance, call_id, codec } ==> {
            &&& plan.refusal is None && plan.commands@.len() == 1
            &&& plan.commands@[0] matches HandsetCommand::Send(command) && command.device_id
                == device_id && command.action == (PhoneCommandAction::BeginCall {
                line_instance,
                call_id,
                codec,
            })
        },
        effect matches HandsetEffect::BeginTransfer {
            device_id,
            source_call_id,
            consultation_call_id,
            consultation_line_instance,
            codec,
        } ==> {
            &&& plan.refusal is None && plan.commands@.len() == 1
            &&& plan.commands@[0] matches HandsetCommand::Send(command) && command.device_id
                == device_id && command.action == (PhoneCommandAction::BeginTransfer {
                source_call_id,
                consultation_line_instance,
                consultation_call_id,
                codec,
            })
        },
        effect matches HandsetEffect::StartTone { device_id, call_id, tone } ==> {
            &&& plan.commands@.len() == 1
            &&& plan.commands@[0] matches HandsetCommand::Send(command) && command.device_id
                == device_id && command.action == (PhoneCommandAction::StartTone { call_id, tone })
        },
        effect matches HandsetEffect::CommitOutboundCall { device_id, call_id, info } ==> {
            &&& plan.commands@.len() == 1
            &&& plan.commands@[0] matches HandsetCommand::Send(command) && command.device_id
                == device_id && command.action == (PhoneCommandAction::CommitOutboundCall {
                call_id,
                info,
            })
        },
        effect matches HandsetEffect::PresentOutboundProceeding { device_id, call_id, info } ==> {
            &&& plan.commands@.len() == 1
            &&& plan.commands@[0] matches HandsetCommand::Send(command) && command.device_id
                == device_id && command.action == (PhoneCommandAction::PresentOutboundProceeding {
                call_id,
                info,
            })
        },
        effect matches HandsetEffect::PresentOutboundRinging { device_id, call_id, info } ==> {
            &&& plan.commands@.len() == 1
            &&& plan.commands@[0] matches HandsetCommand::Send(command) && command.device_id
                == device_id && command.action == (PhoneCommandAction::PresentOutboundRinging {
                call_id,
                info,
            })
        },
        effect matches HandsetEffect::SetCallInfo { device_id, call_id, info } ==> {
            &&& plan.commands@.len() == 1
            &&& plan.commands@[0] matches HandsetCommand::Send(command) && command.device_id
                == device_id && command.action == (PhoneCommandAction::SetCallInfo {
                call_id,
                info,
            })
        },
        effect matches HandsetEffect::ShowConferenceList {
            device_id,
            call_id,
            conference_id,
            participants,
        } ==> {
            &&& plan.commands@.len() == 1
            &&& plan.commands@[0] matches HandsetCommand::Send(command) && command.device_id
                == device_id && command.action == (PhoneCommandAction::ShowConferenceList {
                call_id,
                conference_id,
                participants,
            })
        },
        effect matches HandsetEffect::ShowConferenceParticipantActions {
            device_id,
            call_id,
            conference_id,
            participant,
            removable,
            demotable,
        } ==> {
            &&& plan.commands@.len() == 1
            &&& plan.commands@[0] matches HandsetCommand::Send(command) && command.device_id
                == device_id && command.action == (
            PhoneCommandAction::ShowConferenceParticipantActions {
                call_id,
                conference_id,
                participant,
                removable,
                demotable,
            })
        },
        effect matches HandsetEffect::SetMicrophoneMode { device_id, enabled, .. } ==> {
            &&& plan.commands@.len() == 1
            &&& plan.commands@[0] matches HandsetCommand::SendInTime(command) && command.device_id
                == device_id && command.action == (PhoneCommandAction::SetMicrophoneMode {
                enabled,
            })
        },
{
}

/// Media begin in the state that they are for: full media in a connected call, one
/// way in an intercom call, early ones while the call proceeds.
pub proof fn law_media_begin_in_their_state(
    access: &Access,
    facts: HandsetFacts,
    effect: HandsetEffect,
    plan: HandsetPlan,
)
    requires
        call_ensures(execute_handset_effect, (access, facts, effect), plan),
    ensures
        effect is BeginMedia || effect is BeginOneWayMedia || effect is BeginEarlyMedia ==> {
            &&& plan.commands@.len() == 1 && plan.refusal is None
            &&& plan.commands@[0] matches HandsetCommand::BeginMedia {
                device_id,
                call_id,
                codec,
                state,
            } && (state == PhoneCallState::Connected <==> effect == (HandsetEffect::BeginMedia {
                device_id,
                call_id,
                codec,
            })) && (state == PhoneCallState::IntercomOneWay <==> effect == (
            HandsetEffect::BeginOneWayMedia { device_id, call_id, codec })) && (state
                == PhoneCallState::Proceed <==> effect == (HandsetEffect::BeginEarlyMedia {
                device_id,
                call_id,
                codec,
            }))
        },
        effect matches HandsetEffect::BeginAnswerMedia { device_id, call_id, codec }
            ==> plan.commands@.len() == 1 && plan.commands@[0] == (
        HandsetCommand::BeginAnswerMedia { device_id, call_id, codec }),
        effect matches HandsetEffect::BeginOutboundMedia { device_id, call_id, codec }
            ==> plan.commands@.len() == 1 && plan.commands@[0] == (
        HandsetCommand::BeginOutboundMedia { device_id, call_id, codec }),
{
}

/// A call that goes on hook is closed, any other state is shown with the privacy
/// that is known and private where none is. Media are stopped first, where asked,
/// and the parties are shown once the call is connected.
pub proof fn law_call_states_are_shown(
    access: &Access,
    facts: HandsetFacts,
    device_id: DeviceId,
    call_id: CallId,
    state: PhoneCallState,
    stop_media: bool,
    plan: HandsetPlan,
    shown: HandsetCommand,
)
    requires
        call_ensures(
            execute_handset_effect,
            (
                access,
                facts,
                (HandsetEffect::SetCallState { device_id, call_id, state, stop_media }),
            ),
            plan,
        ),
        call_ensures(
            send_handset_call_state,
            (device_id, call_id, state, facts.privacy),
            shown,
        ),
    ensures
        shown matches HandsetCommand::ShowState {
            device_id: on,
            call_id: of,
            state: as_,
            privacy,
        } && on == device_id && of == call_id && as_ == state && (facts.privacy matches Some(private)
            ==> privacy == private) && (facts.privacy is None ==> privacy),
        plan.policy == FailurePolicy::SendAll && plan.refusal is None,
        ({
            let first = if stop_media {
                2int
            } else {
                0int
            };
            let told = state == PhoneCallState::Connected && facts.call_info is Some;
            &&& plan.commands@.len() == first + (if told {
                2int
            } else {
                1int
            })
            &&& stop_media ==> plan.commands@[0] == HandsetCommand::Send(
                PhoneCommand {
                    device_id,
                    action: PhoneCommandAction::CloseReceiveChannel { call_id },
                },
            ) && plan.commands@[1] == HandsetCommand::Send(
                PhoneCommand { device_id, action: PhoneCommandAction::StopMedia { call_id } },
            )
            &&& state == PhoneCallState::OnHook ==> plan.commands@[first] == HandsetCommand::Send(
                PhoneCommand { device_id, action: PhoneCommandAction::CloseCall { call_id } },
            )
            &&& state != PhoneCallState::OnHook ==> plan.commands@[first] == shown
            &&& told ==> plan.commands@[first + 1] == HandsetCommand::Send(
                PhoneCommand {
                    device_id,
                    action: PhoneCommandAction::SetCallInfo { call_id, info: facts.call_info->0 },
                },
            )
        }),
{
}

/// A call that was picked up shows its parties, then rings or is answered, as was
/// asked; an answered one stops ringing, is shown as connected and opens its audio
/// with the packets and settings of the call.
pub proof fn law_picked_up_calls_ring_or_are_answered(
    access: &Access,
    facts: HandsetFacts,
    device_id: DeviceId,
    call_id: CallId,
    codec: Codec,
    answer: bool,
    framing: Result<crate::model::AudioFraming, AudioFramingError>,
    plan: HandsetPlan,
)
    requires
        call_ensures(audio_framing, (access, &device_id, call_id, codec), framing),
        call_ensures(
            execute_handset_effect,
            (
                access,
                facts,
                (HandsetEffect::PickupCompleted { device_id, call_id, codec, answer }),
            ),
            plan,
        ),
    ensures
        plan.policy == FailurePolicy::StopAtFirst,
        facts.pickup_info is Err ==> plan.commands@.len() == 0 && plan.refusal == Some(
            HandsetFailure::PickupIdentity(facts.pickup_info->Err_0),
        ),
        facts.pickup_info matches Ok(info) ==> {
            &&& plan.commands@[0] == HandsetCommand::Send(
                PhoneCommand {
                    device_id,
                    action: PhoneCommandAction::SetCallInfo { call_id, info },
                },
            )
            &&& !answer ==> plan.refusal is None && plan.commands@.len() == 3 && plan.commands@[1]
                == HandsetCommand::Send(
                PhoneCommand { device_id, action: PhoneCommandAction::StartRinging { call_id } },
            ) && (plan.commands@[2] matches HandsetCommand::ShowState {
                device_id: on,
                call_id: of,
                state,
                ..
            } && on == device_id && of == call_id && state == PhoneCallState::RingIn)
            &&& answer ==> (plan.refusal is None <==> framing is Ok && facts.receive_source is Ok)
            &&& answer ==> (framing matches Err(error) ==> plan.refusal == Some(
                HandsetFailure::Framing(error),
            ))
            &&& answer && plan.refusal is Some ==> plan.commands@.len() == 1
            &&& answer && plan.refusal is None ==> plan.commands@.len() == 4 && plan.commands@[1]
                == HandsetCommand::Send(
                PhoneCommand { device_id, action: PhoneCommandAction::StopRinging { call_id } },
            ) && (plan.commands@[2] matches HandsetCommand::ShowState { state, .. } && state
                == PhoneCallState::Connected) && (plan.commands@[3] matches HandsetCommand::Send(
                command,
            ) && command.device_id == device_id && (command.action matches
                PhoneCommandAction::OpenReceiveChannel {
                call_id: of,
                source,
                codec: with,
                packet_ms,
                max_frames_per_packet,
                ..
            } && of == call_id && facts.receive_source == Ok::<MediaEndpointAddress, String>(source)
                && with == codec && packet_ms == framing->Ok_0.packet_ms && max_frames_per_packet
                == framing->Ok_0.max_frames_per_packet))
        },
{
}

/// Video is opened and sent by a plan that is current, for a call whose number fits
/// the identity of a conference; a refusal of the plan is passed on. It is stopped
/// both ways in the session that it belongs to, and refreshed while that is
/// current.
pub proof fn law_video_effects_need_a_plan(
    access: &Access,
    facts: HandsetFacts,
    effect: HandsetEffect,
    plan: HandsetPlan,
    class: Option<MediaTrafficClass>,
    device_id: DeviceId,
    call_id: CallId,
)
    requires
        call_ensures(execute_handset_effect, (access, facts, effect), plan),
        call_ensures(configured_video_traffic_class, (access, &device_id), class),
        (effect matches HandsetEffect::OpenVideoReceive { device_id: on, call_id: of, .. } && on
            == device_id && of == call_id) || (effect matches HandsetEffect::StartVideoTransmit {
            device_id: on,
            call_id: of,
            ..
        } && on == device_id && of == call_id) || (effect matches HandsetEffect::StopVideo {
            device_id: on,
            call_id: of,
            ..
        } && on == device_id && of == call_id) || (effect matches HandsetEffect::RefreshVideo {
            device_id: on,
            call_id: of,
            ..
        } && on == device_id && of == call_id),
    ensures
        effect is OpenVideoReceive ==> {
            &&& plan.refusal is None <==> facts.video_plan is Some && call_id.0 <= u32::MAX
                && facts.video_refusal is None
            &&& plan.refusal == Some(HandsetFailure::NoVideoPlan) <==> facts.video_plan is None
            &&& plan.refusal is None ==> plan.commands@.len() == 1 && (plan.commands@[0] matches
                HandsetCommand::Send(command) && command.device_id == device_id && (
            command.action matches PhoneCommandAction::OpenMultimediaReceiveChannel {
                call_id: of,
                receive,
            } && of == call_id && receive.conference_id.0 == call_id.0 && receive.payload
                == facts.video_plan->0.payload && (facts.video_plan->0.protocol >= 12
                ==> receive.source == facts.video_plan->0.local_endpoint) && (
            facts.video_plan->0.protocol < 12 ==> receive.source.port == 0) && (
            receive.requested_address_type == IpAddressType::Ipv6
                <==> receive.source.address is V6)))
        },
        effect is StartVideoTransmit ==> {
            &&& plan.refusal is None <==> facts.video_plan is Some && class is Some && call_id.0
                <= u32::MAX && facts.video_refusal is None
            &&& plan.refusal is None ==> plan.commands@.len() == 1 && (plan.commands@[0] matches
                HandsetCommand::Send(command) && command.device_id == device_id && (
            command.action matches PhoneCommandAction::StartMultimediaTransmission {
                call_id: of,
                transmit,
            } && of == call_id && transmit.conference_id.0 == call_id.0 && transmit.payload
                == facts.video_plan->0.payload && transmit.endpoint
                == facts.video_plan->0.local_endpoint && class == Some(transmit.traffic_class)))
        },
        effect matches HandsetEffect::StopVideo { session_generation, .. } ==> {
            let current = access.shared.controller.session_current_spec(
                device_id@,
                session_generation,
            );
            &&& plan.refusal is None
            &&& !current ==> plan.commands@.len() == 0
            &&& current ==> plan.commands@.len() == 2 && plan.commands@[0] == HandsetCommand::Send(
                PhoneCommand {
                    device_id,
                    action: PhoneCommandAction::CloseMultimediaReceiveChannel { call_id },
                },
            ) && plan.commands@[1] == HandsetCommand::Send(
                PhoneCommand {
                    device_id,
                    action: PhoneCommandAction::StopMultimediaTransmission { call_id },
                },
            ) && plan.policy == FailurePolicy::SendAll
        },
        effect matches HandsetEffect::RefreshVideo { passthrough_party_id, .. } ==> {
            &&& plan.refusal is None
            &&& !facts.refresh_is_current ==> plan.commands@.len() == 0
            &&& facts.refresh_is_current ==> plan.commands@.len() == 1 && plan.commands@[0]
                == HandsetCommand::Send(
                PhoneCommand {
                    device_id,
                    action: PhoneCommandAction::FastPictureUpdate {
                        call_id,
                        passthrough_party_id,
                        first_gob: 0,
                        gob_count: 0,
                    },
                },
            )
        },
{
}

/// Audio is started with the packets, settings and mark of the call, and refused
/// where there are no such packets or mark.
pub proof fn law_audio_starts_as_configured(
    access: &Access,
    facts: HandsetFacts,
    device_id: DeviceId,
    call_id: CallId,
    endpoint: crate::model::MediaEndpoint,
    framing: Result<crate::model::AudioFraming, AudioFramingError>,
    class: Option<MediaTrafficClass>,
    mode: crate::model::DtmfMode,
    plan: HandsetPlan,
)
    requires
        call_ensures(audio_framing, (access, &device_id, call_id, endpoint.codec), framing),
        call_ensures(configured_audio_traffic_class, (access, &device_id), class),
        call_ensures(configured_dtmf_mode, (access, &device_id, call_id), mode),
        call_ensures(
            execute_handset_effect,
            (access, facts, (HandsetEffect::StartMedia { device_id, call_id, endpoint })),
            plan,
        ),
    ensures
        plan.refusal is None <==> framing is Ok && class is Some,
        framing matches Err(error) ==> plan.refusal == Some(HandsetFailure::Framing(error)),
        framing is Ok && class is None ==> plan.refusal == Some(HandsetFailure::AudioTrafficClass),
        plan.refusal is Some ==> plan.commands@.len() == 0,
        plan.refusal is None ==> plan.commands@.len() == 1 && (plan.commands@[0] matches
            HandsetCommand::Send(command) && command.device_id == device_id && (
        command.action matches PhoneCommandAction::StartMedia {
            call_id: of,
            endpoint: at,
            dtmf_mode,
            traffic_class,
            ..
        } && of == call_id && at.address == endpoint.address && at.rtp_port == endpoint.rtp_port
            && at.codec == endpoint.codec && at.packet_ms == framing->Ok_0.packet_ms && dtmf_mode
            == mode && class == Some(traffic_class))),
{
}

/// The commands of a plan are sent in their order, each once; a plan that stops at a
/// failure sends nothing after it, the first failure is what is told, and a refusal
/// only where nothing failed.
pub proof fn law_plans_are_sent_in_order(
    plan: HandsetPlan,
    progress: PlanProgress,
    next: Option<usize>,
    succeeded: bool,
    first: PlanProgress,
    after: PlanProgress,
    outcome: PlanOutcome,
)
    requires
        progress.wf(plan),
        call_ensures(PlanProgress::start, (), first),
        call_ensures(PlanProgress::next, (progress, &plan), next),
        next is Some ==> call_ensures(PlanProgress::record, (progress, &plan, succeeded), after),
        next is None ==> call_ensures(plan_outcome, (&plan, progress), outcome),
    ensures
        first.sent == 0 && first.first_failure is None,
        next is Some <==> progress.sent < plan.commands@.len() && !(plan.policy
            == FailurePolicy::StopAtFirst && progress.first_failure is Some),
        next matches Some(index) ==> {
            &&& index == progress.sent
            &&& after.sent == progress.sent + 1
            &&& progress.first_failure is Some ==> after.first_failure == progress.first_failure
            &&& progress.first_failure is None ==> (after.first_failure is Some <==> !succeeded)
            &&& progress.first_failure is None && !succeeded ==> after.first_failure == Some(index)
        },
        next is None ==> {
            &&& progress.first_failure matches Some(index) ==> outcome == PlanOutcome::Failed(index)
            &&& progress.first_failure is None ==> (outcome == PlanOutcome::Refused
                <==> plan.refusal is Some)
            &&& progress.first_failure is None ==> (outcome == PlanOutcome::Done
                <==> plan.refusal is None)
        },
{
    assert(plan.commands.len() == plan.commands@.len());
}

/// An effect is about the call that it names; a transfer is about the consultation.
pub proof fn law_effects_name_their_call(
    effect: HandsetEffect,
    call_id: Option<CallId>,
    reply: Option<Result<(), String>>,
    outcome: Result<(), String>,
)
    requires
        call_ensures(handset_effect_call_id, (&effect,), call_id),
        call_ensures(sent_in_time, (reply,), outcome),
    ensures
        call_id is Some,
        effect matches HandsetEffect::BeginTransfer { consultation_call_id, .. } ==> call_id
            == Some(consultation_call_id),
        effect matches HandsetEffect::SetCallState { call_id: of, .. } ==> call_id == Some(of),
        effect matches HandsetEffect::BeginCall { call_id: of, .. } ==> call_id == Some(of),
        effect matches HandsetEffect::StartMedia { call_id: of, .. } ==> call_id == Some(of),
        effect matches HandsetEffect::SetMicrophoneMode { call_id: of, .. } ==> call_id == Some(of),
        effect matches HandsetEffect::PickupCompleted { call_id: of, .. } ==> call_id == Some(of),
        outcome is Ok <==> (reply matches Some(answer) && answer is Ok),
        reply matches Some(answer) ==> outcome == answer,
{
}

/// Video is described under the number of its call, where that fits; the source is
/// told only to the protocols that have one, and the address is of its own kind.
pub proof fn law_video_is_described_under_its_call(
    access: &Access,
    device_id: DeviceId,
    call_id: CallId,
    plan: VideoPlan,
    id: Option<ConferenceId>,
    receive: Option<MultimediaReceiveDescriptor>,
    transmit: Result<MultimediaTransmitDescriptor, HandsetFailure>,
    kind: IpAddressType,
)
    requires
        call_ensures(video_conference_id, (call_id,), id),
        call_ensures(video_receive_descriptor, (call_id, &plan), receive),
        call_ensures(video_transmit_descriptor, (access, &device_id, call_id, &plan), transmit),
        call_ensures(endpoint_address_type, (plan.local_endpoint,), kind),
    ensures
        id is Some <==> call_id.0 <= u32::MAX,
        id matches Some(number) ==> number.0 == call_id.0,
        kind is Ipv4 <==> plan.local_endpoint.address is V4,
        kind is Ipv6 <==> plan.local_endpoint.address is V6,
        receive is Some <==> id is Some,
        receive matches Some(told) ==> {
            &&& id == Some(told.conference_id)
            &&& told.payload == plan.payload
            &&& plan.protocol >= VIDEO_SOURCE_PROTOCOL ==> told.source == plan.local_endpoint
                && told.requested_address_type == kind
            &&& plan.protocol < VIDEO_SOURCE_PROTOCOL ==> told.source.port == 0
                && told.requested_address_type is Ipv4
        },
        transmit is Ok ==> id is Some,
        transmit matches Ok(told) ==> id == Some(told.conference_id) && told.endpoint
            == plan.local_endpoint && told.payload == plan.payload,
        id is None ==> transmit is Err,
{
}

} // verus!
