//! Handset effects, registrations and subscriptions on concrete values.

#![allow(dead_code)]

use chan_sccp2::access::{Access, ChannelBinding, Shared};
use chan_sccp2::config::{
    AdvertisedAddresses, ConferenceConfig, ConfigurationSource, DeviceConfig, DndButton,
    DndButtonMode, FeatureDefaults, GeneralConfig, GeneralNetwork, ModuleConfig, ParkingLotButton,
    ParkingRetrievalBehavior, SignalingConfig,
};
use chan_sccp2::ids::{CallId, DeviceId, PbxCallId, SessionGeneration};
use chan_sccp2::lifecycle::{CallAnswerOrder, FallbackDecision, FallbackRegistration};
use chan_sccp2::model::{
    AppearanceRingMode, AudioEncryptionCapabilities, AudioEncryptionPolicy, AudioFraming,
    AudioProcessingPolicy, CallAppearance, CallDirection, CallMetadata, CallState, Codec,
    ControllerSnapshot, DeviceFeatureState, DeviceRegistration, DndMode, DtmfMode,
    ForwardingState, IpAddress, LineAppearance, LineBinding, LineConfig, MediaCapability, MediaPolicy, MediaStreamState, NatMode, NetworkPolicy, PbxCall,
    QosMark, QosPolicy, RegisteredDevice, StationMediaCapabilities, StationTransport,
    VideoMediaState, VideoMode, VideoStreamState,
};
use chan_sccp2::backend::{ChannelAllocationError, NativeTextError};
use chan_sccp2::channel::{
    allocation_plan, allocation_policy, allocation_video, allocation_work,
    configure_pickup_policy, create_channel, AllocationFacts, AllocationPlan, AllocationStep,
    AllocationWork, ChannelAllocationOwner, JitterBufferDecision, VideoRtpAllocation,
};
use chan_sccp2::codecs::VideoSelection;
use chan_sccp2::commands::{
    IpAddressType, PhoneCommand, PhoneCommandAction, ReceiveChannelPurpose,
};
use chan_sccp2::conference::{ConferencePhase, ConferenceSession};
use chan_sccp2::config::{BlfTarget, DialTones, LineFeatures, PickupConfig};
use chan_sccp2::dnd_schedule::stage_reply;
use chan_sccp2::effects::{CallInfo, DriverEffect, HandsetEffect, PhoneCallState};
use chan_sccp2::handset::{
    execute_handset_effect, handset_effect_call_id, plan_outcome, sent_in_time, FailurePolicy,
    HandsetCommand, HandsetFacts, HandsetFailure, HandsetPlan, PlanOutcome, PlanProgress,
    VideoPlan,
};
use chan_sccp2::ids::ConferenceId;
use chan_sccp2::model::{MediaEndpoint, MediaEndpointAddress};
use chan_sccp2::presence_owner::{
    retry_blf, uninstall_device_blf, uninstall_device_blf_for_session, uninstall_mwi,
    BlfEvent, BlfStep, ConfigVersion, Discard, DueHint, ExtensionRequest, HintStep, MwiKey, MwiReplacement,
    MwiStageRefusal, PresenceCommand, PresenceFacts, PresenceOwner, PresenceReply,
    RegistrationRegistryError, RuntimeRegistrationContexts, UpdateKey,
};
use chan_sccp2::presence::MwiSubscription;
use chan_sccp2::recording::AsteriskRecordingServiceError;
use chan_sccp2::session::{
    execute_prepared_session_event, handle_prepared_session_event, PreparedSessionEvent,
    SessionPhase, SessionPreparation, SessionProgress, SessionTask,
};

fn mark(dscp: u8) -> QosMark {
    QosMark { dscp, cos: 5 }
}

fn qos() -> QosPolicy {
    QosPolicy { signaling: mark(24), audio: mark(46), video: mark(34) }
}

fn media(codecs: Vec<Codec>) -> MediaPolicy {
    MediaPolicy {
        codecs,
        dtmf_mode: DtmfMode::Rfc2833,
        audio_processing: AudioProcessingPolicy { echo_cancellation: true, silence_suppression: false },
        early_media: true,
        direct_media: true,
        video_mode: VideoMode::Auto,
        audio_encryption: AudioEncryptionPolicy(1),
    }
}

fn line(number: &str) -> LineConfig {
    LineConfig {
        number: number.to_owned(),
        label: "Desk".to_owned(),
        context: "from-sccp".to_owned(),
        caller_name: "Desk".to_owned(),
        caller_number: number.to_owned(),
        mailbox: Some(format!("{number}@default")),
        language: "en".to_owned(),
        account_code: None,
        channel_variables: Vec::new(),
    }
}

fn binding(device: &str, instance: u32, number: &str) -> LineBinding {
    LineBinding {
        device_id: DeviceId::named(device),
        line_instance: instance,
        appearance: LineAppearance {
            id: 10 + instance,
            label: "Desk".to_owned(),
            ring_mode: AppearanceRingMode::Normal,
            privacy: false,
            subscription_identity: None,
        },
        line: line(number),
        media: Some(media(vec![Codec::G722, Codec::Pcma, Codec::Pcmu])),
        hotline: None,
        conference_dialing: None,
    }
}

fn device(name: &str) -> DeviceConfig {
    DeviceConfig {
        id: DeviceId::named(name),
        description: "Reception".to_owned(),
        channel_variables: Vec::new(),
        lines: vec!["1001".to_owned()],
        buttons: Vec::new(),
        blf_targets: Vec::new(),
        dnd_buttons: vec![DndButton { instance: 3, mode: DndButtonMode::Silent }],
        recording_buttons: vec![4],
        dnd_schedules: Vec::new(),
        parking_enabled: true,
        parking_buttons: vec![ParkingLotButton {
            instance: 5,
            lot: "lobby".to_owned(),
            retrieval: ParkingRetrievalBehavior::RetrieveSingle,
        }],
        feature_defaults: FeatureDefaults {
            dnd_enabled: true,
            privacy_enabled: true,
            forward_all_enabled: true,
            forward_busy_enabled: false,
            forward_no_answer_enabled: true,
        },
        network: NetworkPolicy { nat: NatMode::Auto, qos: qos() },
        conference: ConferenceConfig {
            allowed: true,
            show_conference_list: true,
            music_on_hold_class: "default".to_owned(),
            mute_on_entry: false,
            play_general_announcements: true,
            play_participant_announcements: true,
        },
        allow_overlap: false,
    }
}

fn signaling() -> SignalingConfig {
    SignalingConfig {
        clear_listener: None,
        advertised_address: None,
        server_name: "switch".to_owned(),
        keepalive_seconds: 60,
        secondary_keepalive_seconds: 60,
        signaling_servers: Vec::new(),
        fallback_registration: FallbackRegistration {
            decision: FallbackDecision::Reject,
            backoff_seconds: 30,
            server_priority: 1,
        },
        dial_terminator: Some('#'),
        record_dial_terminator: false,
        simulate_enbloc: true,
        first_digit_timeout_ms: 16000,
        interdigit_timeout_ms: 8000,
        call_answer_order: CallAnswerOrder::OldestFirst,
        timezone_offset_minutes: 0,
        date_template: "D.M.Y".to_owned(),
    }
}

fn config() -> ModuleConfig {
    ModuleConfig {
        general: GeneralConfig {
            configuration_source: ConfigurationSource::File,
            bind: IpAddress::V4(0),
            codecs: vec![Codec::Pcma, Codec::Pcmu],
            qos: qos(),
            network: GeneralNetwork {
                nat: NatMode::Off,
                local_networks: Vec::new(),
                advertised: AdvertisedAddresses { ipv4: None, ipv6: None },
            },
            jitter_buffer_forced: false,
            transfer_on_hangup: true,
            audio_processing_default: AudioProcessingPolicy {
                echo_cancellation: false,
                silence_suppression: false,
            },
            audio_framing_default: AudioFraming { packet_ms: 20, max_frames_per_packet: 1 },
            timezone: None,
            audio_encryption: AudioEncryptionPolicy(7),
            signaling: signaling(),
        },
        devices: vec![device("SEP001122334455")],
        lines: vec![line("1001")],
        line_features: Vec::new(),
        bindings: vec![binding("SEP001122334455", 1, "1001")],
        guest_bindings: vec![binding("SEPGUEST00000", 1, "guest")],
    }
}

fn registered(name: &str) -> RegisteredDevice {
    RegisteredDevice {
        id: DeviceId::named(name),
        session_generation: SessionGeneration(3),
        registration: DeviceRegistration {
            id: DeviceId::named(name),
            device_type: 436,
            protocol: 20,
            peer: IpAddress::V4(0x0a00_0001),
            reported_address: None,
            firmware: "9.4".to_owned(),
            transport: StationTransport::Clear,
        },
        capabilities: Some(StationMediaCapabilities::from_audio(vec![MediaCapability {
            codec: Codec::G722,
            max_packet_ms: 40,
            codec_parameters: [0; 8],
        }])),
        audio_encryption: AudioEncryptionCapabilities(5),
        selected_calls: Vec::new(),
        selected_line: None,
    }
}

fn appearance(call: u64, pbx: u64, device: &str, state: CallState) -> CallAppearance {
    CallAppearance {
        sccp_id: CallId(call),
        pbx_id: PbxCallId(pbx),
        device_id: DeviceId::named(device),
        line_instance: 1,
        state,
        privacy: false,
        party_restrictions: 0,
        codec: Codec::G722,
        audio: MediaStreamState::Closed,
        audio_transmit: MediaStreamState::Closed,
        video: VideoMediaState {
            receive: VideoStreamState::Closed,
            transmit: VideoStreamState::Closed,
        },
    }
}

fn pbx_call(pbx: u64, state: CallState) -> PbxCall {
    PbxCall {
        pbx_id: PbxCallId(pbx),
        line: "1001".to_owned(),
        context: "from-sccp".to_owned(),
        state,
        direction: CallDirection::Outbound,
        digits: "4000".to_owned(),
        privacy: false,
        metadata: CallMetadata {
            ani: Some("1001".to_owned()),
            ani_visible: true,
            rdnis: None,
            rdnis_visible: true,
            dnid: None,
            account_code: None,
            language: None,
            variables: Vec::new(),
        },
        active_call_id: Some(CallId(7)),
        conference_id: None,
        barged: false,
    }
}

fn access() -> Access {
    Access {
        shared: Shared {
            config: config(),
            controller: ControllerSnapshot {
                registered: vec![registered("SEP001122334455")],
                features: Vec::new(),
                calls: vec![pbx_call(1, CallState::Connected)],
                appearances: vec![appearance(7, 1, "SEP001122334455", CallState::Connected)],
                runtime: Vec::new(),
                mobility: Vec::new(),
                forwarding_entries: Vec::new(),
            },
            channels: vec![ChannelBinding {
                handle: 1,
                pbx_id: PbxCallId(1),
                closed: false,
                name: Some("SCCP/1001-1".to_owned()),
            }],
            retired: Vec::new(),
            destinations: Vec::new(),
            anchored: Vec::new(),
        },
    }
}

fn station() -> DeviceId {
    DeviceId::named("SEP001122334455")
}

fn info() -> CallInfo {
    CallInfo {
        direction: CallDirection::Outbound,
        calling_name: "Desk".to_owned(),
        calling_number: "1001".to_owned(),
        called_name: String::new(),
        called_number: "4000".to_owned(),
        party_restrictions: 0,
    }
}

fn endpoint(port: u16) -> MediaEndpointAddress {
    MediaEndpointAddress { address: IpAddress::V4(0x0a00_0002), port }
}

fn facts() -> HandsetFacts {
    HandsetFacts {
        video_plan: None,
        video_refusal: None,
        refresh_is_current: false,
        privacy: Some(false),
        call_info: Some(info()),
        pickup_info: Ok(info()),
        receive_source: Ok(endpoint(4000)),
    }
}

fn send(action: PhoneCommandAction) -> HandsetCommand {
    HandsetCommand::Send(PhoneCommand { device_id: station(), action })
}

fn show(state: PhoneCallState, privacy: bool) -> HandsetCommand {
    HandsetCommand::ShowState { device_id: station(), call_id: CallId(7), state, privacy }
}

fn state_effect(state: PhoneCallState, stop_media: bool) -> HandsetEffect {
    HandsetEffect::SetCallState { device_id: station(), call_id: CallId(7), state, stop_media }
}

#[test]
fn a_connected_call_is_shown_with_its_parties() {
    let plan = execute_handset_effect(
        &access(),
        facts(),
        state_effect(PhoneCallState::Connected, true),
    );
    assert_eq!(
        plan,
        HandsetPlan {
            commands: vec![
                send(PhoneCommandAction::CloseReceiveChannel { call_id: CallId(7) }),
                send(PhoneCommandAction::StopMedia { call_id: CallId(7) }),
                show(PhoneCallState::Connected, false),
                send(PhoneCommandAction::SetCallInfo { call_id: CallId(7), info: info() }),
            ],
            policy: FailurePolicy::SendAll,
            refusal: None,
        }
    );
}

#[test]
fn a_call_on_hook_is_closed_and_not_shown() {
    let plan =
        execute_handset_effect(&access(), facts(), state_effect(PhoneCallState::OnHook, false));
    assert_eq!(
        plan.commands,
        vec![send(PhoneCommandAction::CloseCall { call_id: CallId(7) })]
    );
}

#[test]
fn calls_of_unknown_privacy_are_published_as_private() {
    let mut facts = facts();
    facts.privacy = None;
    let plan = execute_handset_effect(&access(), facts, state_effect(PhoneCallState::Hold, false));
    assert_eq!(plan.commands, vec![show(PhoneCallState::Hold, true)]);
}

#[test]
fn an_answered_pickup_stops_ringing_before_media_opens() {
    let effect = HandsetEffect::PickupCompleted {
        device_id: station(),
        call_id: CallId(7),
        codec: Codec::G722,
        answer: true,
    };
    let plan = execute_handset_effect(&access(), facts(), effect);
    assert_eq!(plan.commands.len(), 4);
    assert_eq!(
        plan.commands[0],
        send(PhoneCommandAction::SetCallInfo { call_id: CallId(7), info: info() })
    );
    assert_eq!(plan.commands[1], send(PhoneCommandAction::StopRinging { call_id: CallId(7) }));
    assert_eq!(plan.commands[2], show(PhoneCallState::Connected, false));
    assert_eq!(
        plan.commands[3],
        send(PhoneCommandAction::OpenReceiveChannel {
            call_id: CallId(7),
            purpose: ReceiveChannelPurpose::Media,
            source: endpoint(4000),
            codec: Codec::G722,
            packet_ms: 20,
            max_frames_per_packet: 1,
            dtmf_mode: DtmfMode::Rfc2833,
            audio_processing: AudioProcessingPolicy {
                echo_cancellation: true,
                silence_suppression: false,
            },
        })
    );
}

#[test]
fn a_pickup_without_an_endpoint_is_shown_and_then_refused() {
    let mut facts = facts();
    facts.receive_source = Err("no endpoint".to_owned());
    let effect = HandsetEffect::PickupCompleted {
        device_id: station(),
        call_id: CallId(7),
        codec: Codec::G722,
        answer: true,
    };
    let plan = execute_handset_effect(&access(), facts, effect);
    assert_eq!(plan.commands.len(), 1);
    assert_eq!(plan.refusal, Some(HandsetFailure::Source("no endpoint".to_owned())));
    let done = PlanProgress::start().record(&plan, true);
    assert_eq!(plan_outcome(&plan, done), PlanOutcome::Refused);
}

#[test]
fn a_pickup_that_only_rings_shows_an_incoming_call() {
    let effect = HandsetEffect::PickupCompleted {
        device_id: station(),
        call_id: CallId(7),
        codec: Codec::G722,
        answer: false,
    };
    let plan = execute_handset_effect(&access(), facts(), effect);
    assert_eq!(plan.commands[1], send(PhoneCommandAction::StartRinging { call_id: CallId(7) }));
    assert_eq!(plan.commands[2], show(PhoneCallState::RingIn, false));
}

#[test]
fn started_media_take_the_framing_of_the_call() {
    let reported = MediaEndpoint {
        address: IpAddress::V4(1),
        rtp_port: 4000,
        rtcp_port: 4001,
        codec: Codec::G722,
        packet_ms: 90,
        max_frames_per_packet: 9,
        telephone_event_payload: 101,
    };
    let effect =
        HandsetEffect::StartMedia { device_id: station(), call_id: CallId(7), endpoint: reported };
    let plan = execute_handset_effect(&access(), facts(), effect);
    match &plan.commands[0] {
        HandsetCommand::Send(PhoneCommand {
            action: PhoneCommandAction::StartMedia { endpoint, traffic_class, .. },
            ..
        }) => {
            assert_eq!(endpoint.packet_ms, 20);
            assert_eq!(endpoint.max_frames_per_packet, 1);
            assert_eq!(endpoint.rtp_port, 4000);
            assert_eq!(traffic_class.dscp, 46);
        }
        other => panic!("unexpected command {other:?}"),
    }
    let unsupported = MediaEndpoint { codec: Codec::Opus, ..reported };
    let effect = HandsetEffect::StartMedia {
        device_id: station(),
        call_id: CallId(7),
        endpoint: unsupported,
    };
    let refused = execute_handset_effect(&access(), facts(), effect);
    assert!(refused.commands.is_empty());
    assert!(matches!(refused.refusal, Some(HandsetFailure::Framing(_))));
}

#[test]
fn media_need_a_traffic_class() {
    let mut access = access();
    access.shared.config.devices[0].network.qos.audio.dscp = 64;
    let effect = HandsetEffect::StartMedia {
        device_id: station(),
        call_id: CallId(7),
        endpoint: MediaEndpoint {
            address: IpAddress::V4(1),
            rtp_port: 4000,
            rtcp_port: 4001,
            codec: Codec::G722,
            packet_ms: 20,
            max_frames_per_packet: 1,
            telephone_event_payload: 101,
        },
    };
    let plan = execute_handset_effect(&access, facts(), effect);
    assert_eq!(plan.refusal, Some(HandsetFailure::AudioTrafficClass));
}

fn video_plan(protocol: u32) -> VideoPlan {
    VideoPlan {
        session_generation: SessionGeneration(3),
        protocol,
        payload: 97,
        local_endpoint: endpoint(5000),
    }
}

fn receive_video(call: u64) -> HandsetEffect {
    HandsetEffect::OpenVideoReceive {
        device_id: station(),
        call_id: CallId(call),
        session_generation: SessionGeneration(3),
    }
}

#[test]
fn old_protocols_name_no_video_source() {
    let mut old = facts();
    old.video_plan = Some(video_plan(11));
    let plan = execute_handset_effect(&access(), old, receive_video(7));
    match &plan.commands[0] {
        HandsetCommand::Send(PhoneCommand {
            action: PhoneCommandAction::OpenMultimediaReceiveChannel { receive, .. },
            ..
        }) => {
            assert_eq!(receive.conference_id, ConferenceId(7));
            assert_eq!(receive.payload, 97);
            assert_eq!(
                receive.source,
                MediaEndpointAddress { address: IpAddress::V4(0), port: 0 }
            );
            assert_eq!(receive.requested_address_type, IpAddressType::Ipv4);
        }
        other => panic!("unexpected command {other:?}"),
    }
    let mut new = facts();
    new.video_plan = Some(video_plan(12));
    let plan = execute_handset_effect(&access(), new, receive_video(7));
    match &plan.commands[0] {
        HandsetCommand::Send(PhoneCommand {
            action: PhoneCommandAction::OpenMultimediaReceiveChannel { receive, .. },
            ..
        }) => assert_eq!(receive.source, endpoint(5000)),
        other => panic!("unexpected command {other:?}"),
    }
}

#[test]
fn video_needs_a_plan_and_a_small_call_number() {
    let none = execute_handset_effect(&access(), facts(), receive_video(7));
    assert_eq!(none.refusal, Some(HandsetFailure::NoVideoPlan));
    let mut planned = facts();
    planned.video_plan = Some(video_plan(20));
    let large = execute_handset_effect(&access(), planned, receive_video(1 << 32));
    assert_eq!(large.refusal, Some(HandsetFailure::VideoIdentity));
    let mut unfit = facts();
    unfit.video_plan = Some(video_plan(20));
    unfit.video_refusal = Some("bad payload".to_owned());
    let unfit = execute_handset_effect(&access(), unfit, receive_video(7));
    let failure = HandsetFailure::VideoDescriptor("bad payload".to_owned());
    assert_eq!(failure.text(&station(), CallId(7)), "bad payload");
    assert_eq!(unfit.refusal, Some(failure));
    assert!(unfit.commands.is_empty());
    let mut planned = facts();
    planned.video_plan = Some(video_plan(20));
    let transmit = HandsetEffect::StartVideoTransmit {
        device_id: station(),
        call_id: CallId(7),
        session_generation: SessionGeneration(3),
    };
    let plan = execute_handset_effect(&access(), planned, transmit);
    match &plan.commands[0] {
        HandsetCommand::Send(PhoneCommand {
            action: PhoneCommandAction::StartMultimediaTransmission { transmit, .. },
            ..
        }) => {
            assert_eq!(transmit.endpoint, endpoint(5000));
            assert_eq!(transmit.traffic_class.dscp, 34);
        }
        other => panic!("unexpected command {other:?}"),
    }
}

#[test]
fn video_of_ended_registrations_is_left_alone() {
    let stop = |generation: u64| HandsetEffect::StopVideo {
        device_id: station(),
        call_id: CallId(7),
        session_generation: SessionGeneration(generation),
    };
    let current = execute_handset_effect(&access(), facts(), stop(3));
    assert_eq!(
        current.commands,
        vec![
            send(PhoneCommandAction::CloseMultimediaReceiveChannel { call_id: CallId(7) }),
            send(PhoneCommandAction::StopMultimediaTransmission { call_id: CallId(7) }),
        ]
    );
    assert_eq!(current.policy, FailurePolicy::SendAll);
    let ended = execute_handset_effect(&access(), facts(), stop(2));
    assert!(ended.commands.is_empty());
    assert!(ended.refusal.is_none());
    let refresh = HandsetEffect::RefreshVideo {
        device_id: station(),
        call_id: CallId(7),
        session_generation: SessionGeneration(3),
        passthrough_party_id: 9,
    };
    assert!(execute_handset_effect(&access(), facts(), refresh).commands.is_empty());
}

#[test]
fn the_first_of_several_failures_is_reported() {
    let all = execute_handset_effect(
        &access(),
        facts(),
        state_effect(PhoneCallState::Connected, true),
    );
    let mut progress = PlanProgress::start();
    for succeeded in [true, false, false, true] {
        assert!(progress.next(&all).is_some());
        progress = progress.record(&all, succeeded);
    }
    assert_eq!(progress.next(&all), None);
    assert_eq!(plan_outcome(&all, progress), PlanOutcome::Failed(1));
    let ring = HandsetEffect::PickupCompleted {
        device_id: station(),
        call_id: CallId(7),
        codec: Codec::G722,
        answer: false,
    };
    let first = execute_handset_effect(&access(), facts(), ring);
    let stopped = PlanProgress::start().record(&first, false);
    assert_eq!(stopped.next(&first), None);
    assert_eq!(plan_outcome(&first, stopped), PlanOutcome::Failed(0));
}

#[test]
fn microphone_commands_are_sent_in_time() {
    let effect = HandsetEffect::SetMicrophoneMode {
        device_id: station(),
        call_id: CallId(7),
        enabled: false,
    };
    assert_eq!(handset_effect_call_id(&effect), Some(CallId(7)));
    let plan = execute_handset_effect(&access(), facts(), effect);
    assert_eq!(
        plan.commands,
        vec![HandsetCommand::SendInTime(PhoneCommand {
            device_id: station(),
            action: PhoneCommandAction::SetMicrophoneMode { enabled: false },
        })]
    );
    assert_eq!(sent_in_time(Some(Ok(()))), Ok(()));
    assert_eq!(sent_in_time(None), Err("handset microphone command timed out".to_owned()));
}

#[test]
fn a_transfer_effect_is_about_its_consultation() {
    let effect = HandsetEffect::BeginTransfer {
        device_id: station(),
        source_call_id: CallId(7),
        consultation_call_id: CallId(8),
        consultation_line_instance: 1,
        codec: Codec::G722,
    };
    assert_eq!(handset_effect_call_id(&effect), Some(CallId(8)));
    assert!(matches!(
        &execute_handset_effect(&access(), facts(), HandsetEffect::BeginEarlyMedia {
            device_id: station(),
            call_id: CallId(7),
            codec: Codec::G722,
        })
        .commands[0],
        HandsetCommand::BeginMedia { state: PhoneCallState::Proceed, .. }
    ));
}

fn conference(owner: &str) -> ConferenceSession {
    ConferenceSession {
        id: ConferenceId(5),
        device_id: DeviceId::named(owner),
        phase: ConferencePhase::Active,
        original_handset_call_id: CallId(7),
        consultation_handset_call_id: CallId(8),
        consultation_call_id: PbxCallId(2),
        participants: Vec::new(),
        pending_invite: None,
    }
}

fn prepared(preparation: SessionPreparation) -> PreparedSessionEvent {
    PreparedSessionEvent {
        device_id: station(),
        session_generation: SessionGeneration(3),
        preparation,
    }
}

fn features() -> DeviceFeatureState {
    DeviceFeatureState {
        dnd: DndMode::Off,
        privacy: false,
        forwarding: ForwardingState { all: None, busy: None, no_answer: None },
        buttons: Vec::new(),
        recording_armed: false,
    }
}

fn registration() -> DeviceRegistration {
    registered("SEP001122334455").registration
}

fn effect(call_id: u64) -> DriverEffect {
    DriverEffect::Handset(HandsetEffect::SetCallState {
        device_id: station(),
        call_id: CallId(call_id),
        state: PhoneCallState::OnHook,
        stop_media: true,
    })
}

#[test]
fn a_replaced_registration_ends_its_announcements_first() {
    let event = prepared(SessionPreparation::Registered {
        registration: registration(),
        replaced: true,
        cleanup: vec![effect(9)],
        affected_conferences: vec![ConferenceId(5)],
        surviving_conferences: vec![conference("SEP001122334455"), conference("SEPUNKNOWN")],
    });
    let (phase, tasks) = execute_prepared_session_event(&access(), event);
    assert_eq!(phase, SessionPhase::AwaitTransaction { registration: registration() });
    assert_eq!(
        tasks,
        vec![
            SessionTask::CancelAnnouncement(ConferenceId(5)),
            SessionTask::ExecuteCleanup(vec![effect(9)]),
            SessionTask::PruneRecordings,
            SessionTask::ShowConferenceList { device_id: station(), call_id: CallId(7) },
            SessionTask::BeginTransaction { timeout_seconds: 3 },
        ]
    );
    let event = prepared(SessionPreparation::Registered {
        registration: registration(),
        replaced: false,
        cleanup: Vec::new(),
        affected_conferences: vec![ConferenceId(5)],
        surviving_conferences: Vec::new(),
    });
    let (_, tasks) = execute_prepared_session_event(&access(), event);
    assert_eq!(tasks[0], SessionTask::ExecuteCleanup(Vec::new()));
}

#[test]
fn rejected_registrations_are_disconnected() {
    let event = prepared(SessionPreparation::RejectedRegistration);
    assert!(!event.is_disconnected());
    assert_eq!(
        execute_prepared_session_event(&access(), event),
        (
            SessionPhase::Finished,
            vec![SessionTask::DisconnectSession {
                device_id: station(),
                generation: SessionGeneration(3),
            }],
        )
    );
}

#[test]
fn an_ended_registration_is_published_only_where_none_followed() {
    let event = prepared(SessionPreparation::Disconnected {
        cleanup: vec![effect(9)],
        affected_conferences: vec![ConferenceId(5)],
        surviving_conferences: Vec::new(),
    });
    assert!(event.is_disconnected());
    let (phase, tasks) = execute_prepared_session_event(&access(), event);
    assert_eq!(phase, SessionPhase::AwaitCleanup { device_id: station() });
    assert_eq!(
        tasks,
        vec![
            SessionTask::UninstallBlf { device_id: station(), generation: SessionGeneration(3) },
            SessionTask::RetireContexts,
            SessionTask::PublishLines(station()),
            SessionTask::CancelAnnouncement(ConferenceId(5)),
            SessionTask::ExecuteCleanup(vec![effect(9)]),
        ]
    );
    let step = |access: &Access| {
        handle_prepared_session_event(
            access,
            SessionGeneration(3),
            SessionPhase::AwaitCleanup { device_id: station() },
            SessionProgress::Succeeded(true),
        )
    };
    assert_eq!(step(&access()), (SessionPhase::Finished, Vec::new()));
    let mut gone = access();
    gone.shared.controller.registered.clear();
    assert_eq!(
        step(&gone),
        (SessionPhase::Finished, vec![SessionTask::PublishDisconnected(station())])
    );
}

fn session_step(
    generation: u64,
    phase: SessionPhase,
    progress: SessionProgress,
) -> (SessionPhase, Vec<SessionTask>) {
    handle_prepared_session_event(&access(), SessionGeneration(generation), phase, progress)
}

#[test]
fn a_registration_is_published_after_the_transaction_is_released() {
    let mut private = features();
    private.privacy = true;
    let phase = SessionPhase::AwaitTransaction { registration: registration() };
    let (phase, tasks) = session_step(3, phase, SessionProgress::Succeeded(true));
    assert_eq!(tasks, vec![SessionTask::LoadFeatures { device_id: station() }]);
    let (phase, tasks) = session_step(3, phase, SessionProgress::Features(private.clone()));
    assert_eq!(
        tasks,
        vec![SessionTask::CommitFeatures {
            device_id: station(),
            generation: SessionGeneration(3),
            features: private.clone(),
        }]
    );
    let (phase, tasks) = session_step(3, phase, SessionProgress::Succeeded(true));
    assert_eq!(
        tasks,
        vec![SessionTask::PublishContexts {
            device_id: station(),
            registered: access().shared.controller.registered.iter().map(|d| d.id.clone()).collect(),
        }]
    );
    let (phase, tasks) = session_step(3, phase, SessionProgress::Succeeded(true));
    assert_eq!(phase, SessionPhase::Finished);
    assert_eq!(
        tasks,
        vec![
            SessionTask::InstallBlf(station()),
            SessionTask::PublishLines(station()),
            SessionTask::PublishFeatures { device_id: station(), features: private },
            SessionTask::PublishRecordingButton(station()),
            SessionTask::ReleaseTransaction,
            SessionTask::PublishRegistered(registration()),
            SessionTask::RestoreSystemMessage(station()),
            SessionTask::RestoreMobility(station()),
            SessionTask::ApplyBackground(station()),
        ]
    );
}

#[test]
fn failed_registrations_are_taken_back() {
    let waiting = || SessionPhase::AwaitTransaction { registration: registration() };
    let publishing =
        || SessionPhase::AwaitContexts { registration: registration(), features: features() };
    let end = || SessionTask::PrepareDisconnect {
        device_id: station(),
        generation: SessionGeneration(3),
    };
    let disconnect = || SessionTask::DisconnectSession {
        device_id: station(),
        generation: SessionGeneration(3),
    };
    let (phase, tasks) = session_step(3, waiting(), SessionProgress::Succeeded(false));
    assert_eq!(tasks, vec![end()]);
    assert_eq!(
        session_step(3, phase, SessionProgress::Cleanup(vec![effect(4)])).1,
        vec![
            SessionTask::RetireContexts,
            SessionTask::ExecuteCleanup(vec![effect(4)]),
            disconnect(),
        ]
    );
    let (phase, tasks) = session_step(3, publishing(), SessionProgress::Succeeded(false));
    assert_eq!(tasks, vec![end()]);
    assert_eq!(
        session_step(3, phase, SessionProgress::Cleanup(vec![effect(4)])).1,
        vec![
            SessionTask::RetireContexts,
            SessionTask::ReleaseTransaction,
            disconnect(),
            SessionTask::ExecuteCleanup(vec![effect(4)]),
            SessionTask::PruneRecordings,
        ]
    );
    for phase in [waiting(), publishing()] {
        assert_eq!(
            session_step(2, phase, SessionProgress::Succeeded(true)),
            (SessionPhase::Finished, vec![SessionTask::ReleaseTransaction])
        );
    }
    let committing =
        SessionPhase::AwaitCommit { registration: registration(), features: features() };
    assert_eq!(
        session_step(3, committing, SessionProgress::Succeeded(false)),
        (SessionPhase::Finished, vec![SessionTask::ReleaseTransaction])
    );
}

fn hint(instance: u32) -> BlfTarget {
    BlfTarget { instance, target: format!("{instance}@hints") }
}

fn presence_facts(hints: usize, due: Vec<DueHint>) -> PresenceFacts {
    PresenceFacts { hints, due, subscribed: Vec::new(), reconciled: Ok(()) }
}

fn install(generation: u64) -> PresenceCommand {
    PresenceCommand::InstallBlf {
        device: station(),
        session: SessionGeneration(generation),
        plan: vec![hint(2), hint(3), hint(4)],
    }
}

fn hints_changed() -> PresenceReply {
    PresenceReply::Hints { changed: true, discarded: Some(Discard::Hints(station())) }
}

fn mailboxes(lines: &[&str]) -> Vec<MwiSubscription> {
    lines
        .iter()
        .map(|line| MwiSubscription {
            line: (*line).to_owned(),
            mailbox: format!("{line}@default"),
        })
        .collect()
}

#[test]
fn refused_subscriptions_are_discarded() {
    let access = access();
    let mut owner = PresenceOwner::new(4);
    let answers = |subscribed| PresenceFacts {
        hints: 0,
        due: Vec::new(),
        subscribed,
        reconciled: Ok(()),
    };
    let install =
        |lines: &[&str]| PresenceCommand::InstallMwi { subscriptions: mailboxes(lines) };
    let reply = owner.execute(
        &access,
        install(&["1001", "1002"]),
        &answers(vec![Err("no mailbox".to_owned()), Ok(())]),
    );
    let key = |line: &str, generation| MwiKey { line: line.to_owned(), generation };
    // The switch is asked for one subscription after the other.
    let change = PresenceCommand::StageMwi { changes: mailboxes(&["1001", "1002"]) };
    let attempt = |answered: Vec<Result<(), String>>| {
        owner
            .next_attempt(&change, 0, &answered)
            .map(|attempt| (attempt.subscription.line.clone(), attempt.generation))
    };
    assert_eq!(attempt(Vec::new()), Some(("1001".to_owned(), 3)));
    assert_eq!(attempt(vec![Ok(())]), Some(("1002".to_owned(), 4)));
    assert_eq!(attempt(vec![Err("no mailbox".to_owned())]), None);
    assert_eq!(attempt(vec![Ok(()), Ok(())]), None);
    assert_eq!(
        reply,
        PresenceReply::Replaced(MwiReplacement {
            admitted: true,
            refused: vec![key("1001", 1)],
            retired: Vec::new(),
        })
    );
    assert_eq!(owner.mwi.len(), 1);
    // Without room nothing is asked of the switch.
    let reply = owner.execute(
        &access,
        install(&["1001", "1002", "1003", "1004"]),
        &answers(Vec::new()),
    );
    assert_eq!(
        reply,
        PresenceReply::Replaced(MwiReplacement {
            admitted: false,
            refused: Vec::new(),
            retired: Vec::new(),
        })
    );
    assert_eq!(owner.next_attempt(&install(&["1", "2", "3", "4"]), 0, &Vec::new()), None);
    // A change ends at the first failure, and the switch is asked no further.
    let staged = owner.execute(
        &access,
        PresenceCommand::StageMwi { changes: mailboxes(&["1001", "1002", "1003"]) },
        &answers(vec![Ok(()), Err("no mailbox".to_owned())]),
    );
    assert_eq!(
        staged,
        PresenceReply::StagedMwi(Err(MwiStageRefusal {
            words: "unable to subscribe MWI for SCCP/1002: no mailbox".to_owned(),
            refused: Some(key("1002", 4)),
            retired: vec![key("1001", 3)],
        }))
    );
    assert!(owner.staged.is_empty());
    let discarded = Discard::Mailbox(key("1002", 4));
    assert!(discarded.covers(&UpdateKey::Mwi { line: "1002".to_owned(), generation: 4 }));
    assert!(!discarded.covers(&UpdateKey::Mwi { line: "1002".to_owned(), generation: 5 }));
}

#[test]
fn hints_are_tried_again_while_there_is_room() {
    let access = access();
    let mut owner = PresenceOwner::new(8);
    let installed = owner.execute(&access, install(3), &presence_facts(0, Vec::new()));
    assert_eq!(installed, hints_changed());
    let due = || {
        vec![
            DueHint { device: station(), instance: 2 },
            DueHint { device: station(), instance: 4 },
            DueHint { device: DeviceId::named("SEPOTHER"), instance: 3 },
        ]
    };
    let instances = |reply: PresenceReply| match reply {
        PresenceReply::Retry(retries) => {
            retries.iter().map(|retry| retry.target.instance).collect::<Vec<_>>()
        }
        other => panic!("unexpected reply {other:?}"),
    };
    let command = || retry_blf(100);
    assert_eq!(
        instances(owner.execute(&access, command(), &presence_facts(6, due()))),
        vec![2, 4]
    );
    assert_eq!(
        instances(owner.execute(&access, command(), &presence_facts(7, due()))),
        vec![2]
    );
    assert!(instances(owner.execute(&access, command(), &presence_facts(8, due()))).is_empty());
    let mut renewed = access_with_generation(4);
    assert!(instances(owner.execute(&renewed, command(), &presence_facts(0, due()))).is_empty());
    renewed.shared.controller.registered.clear();
    assert!(instances(owner.execute(&renewed, command(), &presence_facts(0, due()))).is_empty());
}

fn access_with_generation(generation: u64) -> Access {
    let mut access = access();
    access.shared.controller.registered[0].session_generation = SessionGeneration(generation);
    access
}

#[test]
fn hints_of_a_new_plan_are_deferred_once_there_is_no_room() {
    let owner = PresenceOwner::new(2);
    let plan = vec![hint(2), hint(3)];
    assert_eq!(owner.hint_step(&plan, 0, 1), HintStep::Subscribe);
    assert_eq!(owner.hint_step(&plan, 1, 2), HintStep::Defer);
    assert_eq!(owner.hint_step(&plan, 2, 0), HintStep::Finished);
}

#[test]
fn plans_belong_to_a_registration() {
    let access = access();
    let mut owner = PresenceOwner::new(8);
    let none = presence_facts(0, Vec::new());
    let unchanged = || PresenceReply::Hints { changed: false, discarded: None };
    assert_eq!(owner.execute(&access, install(2), &none), unchanged());
    assert!(owner.plans.is_empty());
    owner.execute(&access, install(3), &none);
    let other = uninstall_device_blf_for_session(&station(), SessionGeneration(2));
    assert_eq!(owner.execute(&access, other, &none), unchanged());
    let event = |terminal| BlfEvent {
        device_id: station(),
        instance: 2,
        terminal,
        state: "in use",
        caller: Some("2000"),
    };
    let controller = &access.shared.controller;
    let retry = |terminal| BlfStep::Retry { device_id: station(), instance: 2, terminal };
    let show = || BlfStep::SetBlfStatus {
        device_id: station(),
        instance: 2,
        state: "in use",
        caller: Some("2000"),
    };
    assert_eq!(owner.update_blf(controller, event(false), true), vec![retry(false), show()]);
    let ended = Discard::Hint { device: station(), instance: 2 };
    assert!(ended.covers(&UpdateKey::Blf { device: station(), instance: 2 }));
    assert!(!ended.covers(&UpdateKey::Blf { device: station(), instance: 3 }));
    assert_eq!(
        owner.update_blf(controller, event(true), true),
        vec![retry(true), BlfStep::Discard(ended), show()]
    );
    assert!(owner.update_blf(controller, event(false), false).is_empty());
    let renewed = access_with_generation(4);
    assert!(owner.update_blf(&renewed.shared.controller, event(false), true).is_empty());
    let retired = owner.retire_blf_sessions(&renewed.shared.controller);
    assert_eq!(retired.plans.len(), 1);
    assert_eq!(retired.discarded, vec![Discard::Hints(station())]);
    assert!(retired.discarded[0].covers(&UpdateKey::Blf { device: station(), instance: 9 }));
    assert!(owner.plans.is_empty());
    assert_eq!(
        owner.execute(&access, uninstall_device_blf(&station()), &none),
        hints_changed()
    );
    assert_eq!(
        owner.execute(&access, uninstall_mwi(), &none),
        PresenceReply::Retired(Vec::new())
    );
}

#[test]
fn stations_whose_extensions_failed_are_kept_out() {
    let access = access();
    let mut owner = PresenceOwner::new(8);
    let register = || PresenceCommand::RegisterContexts {
        config: ConfigVersion(1),
        registered: vec![station(), DeviceId::named("SEPGONE")],
        device: station(),
    };
    let mut failed = presence_facts(0, Vec::new());
    failed.reconciled = Err(RegistrationRegistryError::Backend);
    assert_eq!(
        owner.execute(&access, register(), &failed),
        PresenceReply::Registered(Err(RegistrationRegistryError::Backend))
    );
    assert_eq!(owner.contexts.suppressed_devices, vec![station()]);
    assert_eq!(owner.contexts.active_target_count(), 0);
    // A station that is kept out counts for nothing until it asks again.
    let registered = vec![station(), DeviceId::named("SEPGONE")];
    let other = DeviceId::named("SEPOTHER");
    let controller = &access.shared.controller;
    assert!(owner.registration_targets(controller, &registered, &other).is_empty());
    assert_eq!(
        owner.registration_targets(controller, &registered, &station()),
        vec![station()]
    );
    assert!(owner.staging_targets(controller, &registered).is_empty());
    assert_eq!(
        owner.command_extensions(controller, &register()),
        Some(ExtensionRequest { config: ConfigVersion(1), targets: vec![station()] })
    );
    assert_eq!(owner.command_extensions(controller, &uninstall_mwi()), None);
    assert_eq!(owner.retirement_extensions(controller), None);
    let mut kept_out = RuntimeRegistrationContexts::new();
    kept_out.suppressed_devices.push(station());
    kept_out.reconcile(ConfigVersion(1), vec![station()], Ok(())).unwrap();
    assert_eq!(kept_out.registered, vec![station()]);
    assert_eq!(kept_out.active_target_count(), 0);
    assert!(owner.contexts.published_devices(&vec![station()]).is_empty());
    assert_eq!(
        owner.execute(&access, register(), &presence_facts(0, Vec::new())),
        PresenceReply::Registered(Ok(()))
    );
    assert!(owner.contexts.suppressed_devices.is_empty());
    assert_eq!(owner.contexts.config, Some(ConfigVersion(1)));
    assert_eq!(owner.contexts.registered, vec![station()]);
    assert_eq!(owner.contexts.published_devices(&vec![station()]), vec![station()]);
    assert_eq!(owner.contexts.active_target_count(), 1);
    assert_eq!(RuntimeRegistrationContexts::new().active_target_count(), 0);
}

fn line_features(line: &str, parking_lot: Option<&str>) -> LineFeatures {
    LineFeatures {
        line: line.to_owned(),
        voicemail_number: None,
        voicemail_divert: None,
        pickup: PickupConfig {
            call_groups: vec![2],
            pickup_groups: Vec::new(),
            named_call_groups: Vec::new(),
            named_pickup_groups: Vec::new(),
            directed: false,
            directed_context: None,
            answer_directed: false,
        },
        parking_lot: parking_lot.map(str::to_owned),
        dial_tones: DialTones { inside: 33, outside: 34 },
        incoming_limit: None,
    }
}

fn call_metadata() -> CallMetadata {
    CallMetadata {
        ani: None,
        ani_visible: true,
        rdnis: None,
        rdnis_visible: true,
        dnid: Some("2002".to_owned()),
        account_code: None,
        language: None,
        variables: Vec::new(),
    }
}

#[test]
fn allocations_are_planned_from_the_configuration() {
    let mut access = access();
    let line = binding("SEP001122334455", 1, "1001");
    let jitter = JitterBufferDecision { direct_media: false, anchored_media: true };
    let metadata = call_metadata();
    let mut brought = create_channel(&access, CallId(7), PbxCallId(1), &line, Codec::Pcmu, "::")
        .unwrap();
    brought.metadata = Some(&metadata);
    assert_eq!(
        allocation_plan(&access, &brought, jitter),
        AllocationPlan {
            configure_metadata: false,
            has_requestor: false,
            jitter_buffer: false,
            parking_lot: false,
            owner: ChannelAllocationOwner::Module,
        }
    );
    access.shared.config.line_features.push(line_features("1001", Some("lobby")));
    let mut anchored = binding("SEP001122334455", 1, "1001");
    anchored.media.as_mut().unwrap().direct_media = false;
    let mut asked =
        create_channel(&access, CallId(7), PbxCallId(1), &anchored, Codec::Pcmu, "::").unwrap();
    asked.requestor = Some(4);
    asked.owner = ChannelAllocationOwner::Asterisk;
    let plan = allocation_plan(&access, &asked, jitter);
    assert!(plan.configure_metadata && plan.has_requestor && plan.jitter_buffer);
    assert!(plan.parking_lot);
    assert_eq!(plan.owner, ChannelAllocationOwner::Asterisk);
}

#[test]
fn every_step_of_an_allocation_works_for_its_request() {
    let mut access = access();
    access.shared.config.line_features.push(line_features("1001", Some("lobby")));
    let line = binding("SEP001122334455", 1, "1001");
    let request =
        create_channel(&access, CallId(7), PbxCallId(1), &line, Codec::Pcmu, "::").unwrap();
    let metadata = call_metadata();
    let selection = allocation_video(&access, &request, None);
    let facts = AllocationFacts {
        symmetric: true,
        selection,
        configured: Some(&metadata),
        privacy: None,
        video: VideoRtpAllocation::NotRequested,
        local_endpoint: None,
    };
    let work = |step| allocation_work(&access, &request, &facts, step);
    assert_eq!(
        work(AllocationStep::AdmitSignals),
        AllocationWork::AdmitSignals { pbx_id: PbxCallId(1), handset_call_id: CallId(7) }
    );
    assert_eq!(
        work(AllocationStep::FindFormat),
        AllocationWork::FindFormat { codec: Codec::Pcmu }
    );
    assert_eq!(
        work(AllocationStep::Allocate),
        AllocationWork::Allocate {
            text: &request.text,
            pbx_id: PbxCallId(1),
            handset_call_id: CallId(7),
            codec: Codec::Pcmu,
            requestor: None,
            policy: allocation_policy(&access, &station(), &selection, true),
        }
    );
    assert_eq!(
        work(AllocationStep::ApplyMetadata),
        AllocationWork::ApplyMetadata { metadata: Some(&metadata) }
    );
    assert_eq!(
        work(AllocationStep::ConfigurePickup),
        AllocationWork::ConfigurePickup(
            configure_pickup_policy(&access, &line, true, false).unwrap()
        )
    );
    assert_eq!(
        work(AllocationStep::SetParkingLot),
        AllocationWork::SetParkingLot { lot: Some("lobby") }
    );
    assert_eq!(
        work(AllocationStep::PublishBinding),
        AllocationWork::PublishBinding { pbx_id: PbxCallId(1) }
    );
    assert!(matches!(
        work(AllocationStep::InstallVideo),
        AllocationWork::InstallVideo { handset_call_id: CallId(7), .. }
    ));
    assert_eq!(work(AllocationStep::HandOff), AllocationWork::HandOff);
}

#[test]
fn channels_are_marked_as_their_station_is() {
    let mut access = access();
    let policy = allocation_policy(&access, &station(), &VideoSelection::Disabled, false);
    assert_eq!(policy.audio.mark.dscp, 46);
    assert!(policy.video.is_none());
    assert!(!policy.signaling_secure);
    access.shared.controller.registered[0].registration.transport = StationTransport::Secure;
    assert!(
        allocation_policy(&access, &station(), &VideoSelection::Disabled, false).signaling_secure
    );
    let unknown = DeviceId::named("SEPUNKNOWN");
    let policy = allocation_policy(&access, &unknown, &VideoSelection::Disabled, true);
    assert!(!policy.audio.symmetric);
}

#[test]
fn failures_have_their_words() {
    let refused = ChannelAllocationError::NativeText { field: "context", source: NativeTextError };
    assert_eq!(refused.text("interior NUL"), "invalid native text in context: interior NUL");
    assert_eq!(
        ChannelAllocationError::Failed.text("unused"),
        "native channel allocation failed"
    );
    assert_eq!(
        AsteriskRecordingServiceError::CallUnavailable(PbxCallId(12)).text(),
        "PBX call 12 is unavailable for recording"
    );
    assert_eq!(stage_reply(Some(Ok(1u8))), Ok(1));
    assert_eq!(
        stage_reply::<u8>(None),
        Err("DND schedule staging unavailable".to_owned())
    );
}
