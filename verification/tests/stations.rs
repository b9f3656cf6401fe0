//! Features, roaming, schedules, bridges and channels on concrete values.

#![allow(dead_code)]

use chan_sccp2::access::{Access, ChannelBinding, Shared};
use chan_sccp2::config::{
    AdvertisedAddresses, ConferenceConfig, ConfigurationSource, DeviceConfig, DndButton,
    DndButtonMode, FeatureDefaults, GeneralConfig, GeneralNetwork, ModuleConfig, ParkingLotButton,
    ParkingRetrievalBehavior, SignalingConfig,
};
use chan_sccp2::ids::{CallId, DeviceId, PbxCallId, SessionGeneration};
use chan_sccp2::lifecycle::{CallAnswerOrder, FallbackDecision, FallbackRegistration};
use chan_sccp2::model::{
    AppearanceRingMode, AudioEncryptionCapabilities, AudioEncryptionPolicy, AudioFraming,
    AudioProcessingPolicy, CallAppearance, CallDirection, CallMetadata, CallState, Codec,
    ControllerSnapshot, DeviceRegistration, DtmfMode, IpAddress, LineAppearance, LineBinding,
    LineConfig, MediaCapability, MediaPolicy, MediaStreamState, NatMode, NetworkPolicy, PbxCall,
    QosMark, QosPolicy, RegisteredDevice, StationMediaCapabilities, StationTransport,
    VideoMediaState, VideoMode, VideoStreamState,
};
use chan_sccp2::access::referenced_channels;
use chan_sccp2::backend::{AsteriskBackendError, CallFeatureError, ChannelAllocationError};
use chan_sccp2::background::{
    effective_background, execute_cli_operation, finish_reset_background, registered_device_type,
    resolve_configured_background, BackgroundRuntime, BackgroundRuntimeError, EffectiveBackground,
    ResolvedDeviceBackground,
};
use chan_sccp2::bridge::{
    barge_acquired, barge_added, barge_released, barge_removed, execute_barge, execute_bridge,
    finish_drain, finish_transfer, BargeBridgeSession, BargeStep, BridgeSession,
};
use chan_sccp2::call_control::{
    handle_handset_hangup, hang_up_after_forwarding, HandsetHangUpAction, HangUpAction,
};
use chan_sccp2::call_service::{retrieved_id, PendingRetrieval};
use chan_sccp2::channel::{
    channel_created, channel_metadata_inputs, configured_channel_metadata, create_channel,
    create_consultation_channel, prepare_channel_allocation_text, queue_unavailable,
    ChannelAllocationOwner, ChannelAllocationRequest, HangupCause, VideoOffer,
};
use chan_sccp2::codecs::{
    audio_negotiation, preferred_video, NegotiatedVideo, PbxVideoFormat, VideoSelection,
};
use chan_sccp2::commands::{
    HandsetStatusMessage, PhoneCommand, PhoneCommandAction, PhoneDndButtonMode, PhoneDndMode,
};
use chan_sccp2::config::{ButtonDefinition, ButtonType, DndSchedule, DndScheduleMode};
use chan_sccp2::dnd_schedule::{
    add_parsed_rule, finish_mutation, install_mutation, DeviceDndSchedule, DndSchedulePhase,
    DndScheduleRegistry, DndScheduleSource, RuleChecks, ScheduleCli, ScheduleMutation,
};
use chan_sccp2::effects::{
    BargeOperation, BridgeOperation, TransactionId, TransferCompletion, TransferCompletionKind,
    TransferLeg,
};
use chan_sccp2::events::{PhoneServicePayload, PhoneServiceRouting};
use chan_sccp2::features::{
    begin_feature_update, finish_feature_change, finish_recording_change,
    publish_current_device_features, publish_device_features, publish_feature_changes,
    update_device_features_locked, FeatureEvent, FeatureStoreError, FeatureStored, FeatureTask,
    RuntimeDndMutationError,
};
use chan_sccp2::forwarding::{
    cancel_forwarding_entry_for_call, cancel_forwarding_entry_for_device, commit_forwarding_entry,
    execute_no_answer_route, handle_forwarding_backspace, replace_and_commit_forwarding_entry,
    no_answer_operation, replace_forwarding_entry, ForwardingInputAction, ForwardingOperation,
    ForwardingReplaceAction, ForwardingRouteReason, NoAnswerOutcome, NoAnswerTimer,
};
use chan_sccp2::ids::{ConferenceId, PbxBridgeId};
use chan_sccp2::media::{
    configured_early_media, enqueue_media_retarget, local_video_endpoint, outbound_media_mode,
    retarget_possible, DirectMediaCall, MediaRetargetRollback, OutboundMediaMode,
};
use chan_sccp2::mobility::{
    cancel_mobility_response, check_mobility_response, finish_mobility_change,
    handle_mobility_response, mobility_login_refused, mobility_write, route_mobility_response,
    finish_mobility_prompt, mobility_logout, send_mobility_prompt, show_mobility_prompt,
    MobilityChange, MobilityPreparation, MobilityPrompt, MobilityPromptStep,
    MobilityResponseRoute, PhoneServicePriority,
    MobilityResponseStep, MobilitySlot, MobilityWrite, StationTarget,
};
use chan_sccp2::model::{
    DeviceFeatureState, DeviceFeatures, DndMode,
    FeatureButtonState, ForwardingEntryKey, ForwardingState, MediaEndpoint, MediaEndpointAddress,
    MobilityAppearance,
};
use chan_sccp2::parking::ParkedCall;
use chan_sccp2::preferences::{
    replace_preferences, CodecPreferenceProviderError, PreferenceAction, PreferenceChange,
    PreferenceReply,
};
use chan_sccp2::prompts::Prompt;
use chan_sccp2::recording::{
    enqueue_recording_session_change, ConfirmedRecordingAnchor, MediaAnchorLease, RecordedCall,
    RecordingError, RecordingState, RuntimeRecordingSession, RuntimeRecordingTriggerQueue,
    RuntimeRecordings,
};
use chan_sccp2::voicemail::voicemail_refused;

fn mark(dscp: u8) -> QosMark {
    QosMark { dscp, cos: 5 }
}

fn qos() -> QosPolicy {
    QosPolicy { signaling: mark(24), audio: mark(46), video: mark(34) }
}

fn media(codecs: Vec<Codec>) -> MediaPolicy {
    MediaPolicy {
        codecs,
        dtmf_mode: DtmfMode::Rfc2833,
        audio_processing: AudioProcessingPolicy { echo_cancellation: true, silence_suppression: false },
        early_media: true,
        direct_media: true,
        video_mode: VideoMode::Auto,
        audio_encryption: AudioEncryptionPolicy(1),
    }
}

fn line(number: &str) -> LineConfig {
    LineConfig {
        number: number.to_owned(),
        label: "Desk".to_owned(),
        context: "from-sccp".to_owned(),
        caller_name: "Desk".to_owned(),
        caller_number: number.to_owned(),
        mailbox: Some(format!("{number}@default")),
        language: "en".to_owned(),
        account_code: None,
        channel_variables: Vec::new(),
    }
}

fn binding(device: &str, instance: u32, number: &str) -> LineBinding {
    LineBinding {
        device_id: DeviceId::named(device),
        line_instance: instance,
        appearance: LineAppearance {
            id: 10 + instance,
            label: "Desk".to_owned(),
            ring_mode: AppearanceRingMode::Normal,
            privacy: false,
            subscription_identity: None,
        },
        line: line(number),
        media: Some(media(vec![Codec::G722, Codec::Pcma, Codec::Pcmu])),
        hotline: None,
        conference_dialing: None,
    }
}

fn device(name: &str) -> DeviceConfig {
    DeviceConfig {
        id: DeviceId::named(name),
        description: "Reception".to_owned(),
        channel_variables: Vec::new(),
        lines: vec!["1001".to_owned()],
        buttons: Vec::new(),
        blf_targets: Vec::new(),
        dnd_buttons: vec![DndButton { instance: 3, mode: DndButtonMode::Silent }],
        recording_buttons: vec![4],
        dnd_schedules: Vec::new(),
        parking_enabled: true,
        parking_buttons: vec![ParkingLotButton {
            instance: 5,
            lot: "lobby".to_owned(),
            retrieval: ParkingRetrievalBehavior::RetrieveSingle,
        }],
        feature_defaults: FeatureDefaults {
            dnd_enabled: true,
            privacy_enabled: true,
            forward_all_enabled: true,
            forward_busy_enabled: false,
            forward_no_answer_enabled: true,
        },
        network: NetworkPolicy { nat: NatMode::Auto, qos: qos() },
        conference: ConferenceConfig {
            allowed: true,
            show_conference_list: true,
            music_on_hold_class: "default".to_owned(),
            mute_on_entry: false,
            play_general_announcements: true,
            play_participant_announcements: true,
        },
        allow_overlap: false,
    }
}

fn signaling() -> SignalingConfig {
    SignalingConfig {
        clear_listener: None,
        advertised_address: None,
        server_name: "switch".to_owned(),
        keepalive_seconds: 60,
        secondary_keepalive_seconds: 60,
        signaling_servers: Vec::new(),
        fallback_registration: FallbackRegistration {
            decision: FallbackDecision::Reject,
            backoff_seconds: 30,
            server_priority: 1,
        },
        dial_terminator: Some('#'),
        record_dial_terminator: false,
        simulate_enbloc: true,
        first_digit_timeout_ms: 16000,
        interdigit_timeout_ms: 8000,
        call_answer_order: CallAnswerOrder::OldestFirst,
        timezone_offset_minutes: 0,
        date_template: "D.M.Y".to_owned(),
    }
}

fn config() -> ModuleConfig {
    ModuleConfig {
        general: GeneralConfig {
            configuration_source: ConfigurationSource::File,
            bind: IpAddress::V4(0),
            codecs: vec![Codec::Pcma, Codec::Pcmu],
            qos: qos(),
            network: GeneralNetwork {
                nat: NatMode::Off,
                local_networks: Vec::new(),
                advertised: AdvertisedAddresses { ipv4: None, ipv6: None },
            },
            jitter_buffer_forced: false,
            transfer_on_hangup: true,
            audio_processing_default: AudioProcessingPolicy {
                echo_cancellation: false,
                silence_suppression: false,
            },
            audio_framing_default: AudioFraming { packet_ms: 20, max_frames_per_packet: 1 },
            timezone: None,
            audio_encryption: AudioEncryptionPolicy(7),
            signaling: signaling(),
        },
        devices: vec![device("SEP001122334455")],
        lines: vec![line("1001")],
        line_features: Vec::new(),
        bindings: vec![binding("SEP001122334455", 1, "1001")],
        guest_bindings: vec![binding("SEPGUEST00000", 1, "guest")],
    }
}

fn registered(name: &str) -> RegisteredDevice {
    RegisteredDevice {
        id: DeviceId::named(name),
        session_generation: SessionGeneration(3),
        registration: DeviceRegistration {
            id: DeviceId::named(name),
            device_type: 436,
            protocol: 20,
            peer: IpAddress::V4(0x0a00_0001),
            reported_address: None,
            firmware: "9.4".to_owned(),
            transport: StationTransport::Clear,
        },
        capabilities: Some(StationMediaCapabilities::from_audio(vec![MediaCapability {
            codec: Codec::G722,
            max_packet_ms: 40,
            codec_parameters: [0; 8],
        }])),
        audio_encryption: AudioEncryptionCapabilities(5),
        selected_calls: Vec::new(),
        selected_line: None,
    }
}

fn appearance(call: u64, pbx: u64, device: &str, state: CallState) -> CallAppearance {
    CallAppearance {
        sccp_id: CallId(call),
        pbx_id: PbxCallId(pbx),
        device_id: DeviceId::named(device),
        line_instance: 1,
        state,
        privacy: false,
        party_restrictions: 0,
        codec: Codec::G722,
        audio: MediaStreamState::Closed,
        audio_transmit: MediaStreamState::Closed,
        video: VideoMediaState {
            receive: VideoStreamState::Closed,
            transmit: VideoStreamState::Closed,
        },
    }
}

fn pbx_call(pbx: u64, state: CallState) -> PbxCall {
    PbxCall {
        pbx_id: PbxCallId(pbx),
        line: "1001".to_owned(),
        context: "from-sccp".to_owned(),
        state,
        direction: CallDirection::Outbound,
        digits: "4000".to_owned(),
        privacy: false,
        metadata: CallMetadata {
            ani: Some("1001".to_owned()),
            ani_visible: true,
            rdnis: None,
            rdnis_visible: true,
            dnid: None,
            account_code: None,
            language: None,
            variables: Vec::new(),
        },
        active_call_id: Some(CallId(7)),
        conference_id: None,
        barged: false,
    }
}

fn access() -> Access {
    Access {
        shared: Shared {
            config: config(),
            controller: ControllerSnapshot {
                registered: vec![registered("SEP001122334455")],
                features: Vec::new(),
                calls: vec![pbx_call(1, CallState::Connected)],
                appearances: vec![appearance(7, 1, "SEP001122334455", CallState::Connected)],
                runtime: Vec::new(),
                mobility: Vec::new(),
                forwarding_entries: Vec::new(),
            },
            channels: vec![ChannelBinding {
                handle: 1,
                pbx_id: PbxCallId(1),
                closed: false,
                name: Some("SCCP/1001-1".to_owned()),
            }],
            retired: Vec::new(),
            destinations: Vec::new(),
            anchored: Vec::new(),
        },
    }
}

fn station() -> DeviceId {
    DeviceId::named("SEP001122334455")
}

fn prompt(prompt: Prompt) -> PhoneCommand {
    PhoneCommand {
        device_id: station(),
        action: PhoneCommandAction::DisplayPrompt {
            call_id: CallId(7),
            timeout_seconds: 4,
            prompt,
        },
    }
}

fn notice(prompt: Prompt) -> PhoneCommand {
    PhoneCommand {
        device_id: station(),
        action: PhoneCommandAction::SetStatusMessage {
            message: HandsetStatusMessage::Notice { prompt, timeout_seconds: 4 },
            beep: false,
        },
    }
}

fn features() -> DeviceFeatureState {
    DeviceFeatureState {
        dnd: DndMode::Silent,
        privacy: false,
        forwarding: ForwardingState { all: Some("4000".to_owned()), busy: None, no_answer: None },
        buttons: vec![FeatureButtonState { instance: 6, enabled: true }],
        recording_armed: false,
    }
}

fn collecting(device: &str) -> Access {
    let mut access = access();
    access.shared.controller.forwarding_entries.push(ForwardingEntryKey {
        device_id: DeviceId::named(device),
        call_id: CallId(7),
    });
    access
}

#[test]
fn numbers_replace_what_this_station_collects() {
    let mine = collecting("SEP001122334455");
    let theirs = collecting("SEPOTHER");
    let replace = |access: &Access, accepted| {
        replace_forwarding_entry(access, station(), CallId(7), accepted)
    };
    assert_eq!(replace(&access(), true), ForwardingReplaceAction::NotCollecting);
    assert_eq!(replace(&theirs, true), ForwardingReplaceAction::Taken);
    assert_eq!(replace(&mine, true), ForwardingReplaceAction::Taken);
    assert_eq!(
        replace(&mine, false),
        ForwardingReplaceAction::Show(prompt(Prompt::InvalidForwardingDestination))
    );
    assert_eq!(
        replace_and_commit_forwarding_entry(&mine, station(), CallId(7), true),
        ForwardingReplaceAction::BeginCommit
    );
    assert!(handle_forwarding_backspace(&mine, &station(), CallId(7)));
    assert!(!handle_forwarding_backspace(&theirs, &station(), CallId(7)));
    assert_eq!(
        commit_forwarding_entry(&mine, station(), CallId(7), None),
        ForwardingInputAction::Show(prompt(Prompt::EnterAForwardingDestination))
    );
    assert_eq!(
        commit_forwarding_entry(&theirs, station(), CallId(7), None),
        ForwardingInputAction::NotCollecting
    );
    assert!(cancel_forwarding_entry_for_call(&mine, &station(), CallId(7), true));
    assert!(!cancel_forwarding_entry_for_call(&theirs, &station(), CallId(7), true));
    assert!(cancel_forwarding_entry_for_device(&mine, &station(), true));
    assert!(!cancel_forwarding_entry_for_device(&theirs, &station(), true));
}

#[test]
fn unanswered_calls_are_published_once_they_are_sent_on() {
    let timer = NoAnswerTimer {
        id: 31,
        call_id: PbxCallId(6),
        context: "from-sccp".to_owned(),
        destination: "2000".to_owned(),
    };
    assert_eq!(
        no_answer_operation(&timer),
        ForwardingOperation {
            call_id: PbxCallId(6),
            context: "from-sccp".to_owned(),
            destination: "2000".to_owned(),
            reason: ForwardingRouteReason::NoAnswer,
        }
    );
    assert_eq!(
        execute_no_answer_route(&timer, true, Some("1001".to_owned())),
        NoAnswerOutcome {
            call_id: PbxCallId(6),
            timer_id: 31,
            routed: true,
            publish: Some("1001".to_owned()),
            execute_effects: true,
        }
    );
    let refused = execute_no_answer_route(&timer, false, Some("1001".to_owned()));
    assert!(!refused.routed && !refused.execute_effects);
    assert_eq!((refused.timer_id, refused.publish), (31, None));
}

fn parked(lot: &str) -> ParkedCall {
    ParkedCall {
        lot: lot.to_owned(),
        slot: 701,
        parkee_unique_id: "1700000000.4".to_owned(),
        caller_name: "Ann".to_owned(),
        caller_number: "4000".to_owned(),
        connected_name: String::new(),
        connected_number: String::new(),
    }
}

#[test]
fn stations_are_told_about_their_features_in_order() {
    let mut access = access();
    access.shared.config.devices[0].buttons = vec![
        ButtonDefinition::Feature { instance: 3, feature: ButtonType::DoNotDisturb },
        ButtonDefinition::Feature { instance: 4, feature: ButtonType::ForwardAll },
        ButtonDefinition::Feature { instance: 5, feature: ButtonType::ParkingLot },
        ButtonDefinition::Feature { instance: 6, feature: ButtonType::Feature },
        ButtonDefinition::Feature { instance: 7, feature: ButtonType::Feature },
        ButtonDefinition::Other,
    ];
    let sent = publish_device_features(
        &access,
        &station(),
        &features(),
        &vec![1],
        &vec![parked("lobby"), parked("roof")],
    );
    let status = |instance: u32, enabled: bool| PhoneCommandAction::SetFeatureStatus {
        instance,
        enabled,
    };
    assert_eq!(
        sent.into_iter().map(|command| command.action).collect::<Vec<_>>(),
        vec![
            PhoneCommandAction::SetForwardStatus {
                line_instance: 1,
                forward_all: Some("4000".to_owned()),
                forward_busy: None,
                forward_no_answer: None,
            },
            PhoneCommandAction::SetStatusMessage {
                message: HandsetStatusMessage::DoNotDisturb(DndMode::Silent),
                beep: false,
            },
            PhoneCommandAction::SetDoNotDisturbStatus {
                instance: 3,
                mode: PhoneDndMode::Silent,
                button_mode: PhoneDndButtonMode::Silent,
            },
            status(4, true),
            status(5, true),
            status(6, true),
            status(7, false),
        ]
    );
    let unknown = DeviceId::named("SEPUNKNOWN");
    let sent =
        publish_device_features(&access, &unknown, &features(), &vec![1], &Vec::new());
    assert!(sent.is_empty());
    let lines = access.shared.config.appearances_for_device(&station());
    assert_eq!(lines.len(), 1);
    assert_eq!(lines[0].line.number, "1001");
}

#[test]
fn changes_start_from_the_present_state() {
    let mut access = access();
    let defaults = features();
    assert!(publish_current_device_features(&access, &station()).is_none());
    let update = begin_feature_update(&access, &station(), Some(&defaults)).unwrap();
    assert_eq!(update.current, &defaults);
    assert_eq!(update.defaults, &defaults);
    let mut present = features();
    present.privacy = true;
    access
        .shared
        .controller
        .features
        .push(DeviceFeatures { device_id: station(), state: present });
    let update = begin_feature_update(&access, &station(), Some(&defaults)).unwrap();
    assert!(update.current.privacy && !update.defaults.privacy);
    assert!(begin_feature_update(&access, &station(), None).is_none());
    assert!(publish_current_device_features(&access, &station()).unwrap().privacy);
}

#[test]
fn every_change_of_a_feature_is_published_in_order() {
    let event = |change| FeatureEvent { device_id: station(), change };
    assert_eq!(
        publish_feature_changes(&station(), vec!["dnd", "all"]),
        vec![event("dnd"), event("all")]
    );
    assert!(publish_feature_changes::<u8>(&station(), vec![]).is_empty());
}

#[test]
fn stored_backgrounds_come_before_configured_ones() {
    let access = access();
    let picture = || Some(ResolvedDeviceBackground::Display("http://a".to_owned()));
    assert_eq!(
        effective_background(&access, &station(), Ok(Some(picture())), None),
        Ok(EffectiveBackground::Override(picture()))
    );
    assert_eq!(
        effective_background(&access, &station(), Err("lost".to_owned()), None),
        Err(BackgroundRuntimeError::Store("lost".to_owned()))
    );
    assert_eq!(
        effective_background(&access, &station(), Ok(None), None),
        Ok(EffectiveBackground::Unconfigured)
    );
}

#[test]
fn transfers_connect_two_open_channels() {
    let mut access = access();
    let leg = |call| TransferLeg {
        handset_call_id: CallId(call),
        pbx_call_id: PbxCallId(call),
    };
    let transfer = TransferCompletion {
        device_id: station(),
        transaction_id: TransactionId(4),
        kind: TransferCompletionKind::Direct,
        source: leg(1),
        consultation: leg(2),
    };
    assert!(finish_transfer(&access, &transfer, true).is_err());
    access.shared.channels.push(ChannelBinding {
        handle: 2,
        pbx_id: PbxCallId(2),
        closed: false,
        name: None,
    });
    assert!(finish_transfer(&access, &transfer, false).is_err());
    assert!(finish_transfer(&access, &transfer, true).is_ok());
}

#[test]
fn stored_changes_replace_the_present_state() {
    let mut access = access();
    let mut next = features();
    next.privacy = true;
    let lost = FeatureStoreError::Other { reason: "full".to_owned() };
    let failed =
        update_device_features_locked(&mut access, &station(), Some(features()), Err(lost));
    assert!(failed.is_err());
    assert!(publish_current_device_features(&access, &station()).is_none());
    let (previous, current) =
        update_device_features_locked(&mut access, &station(), Some(features()), Ok(next.clone()))
            .unwrap()
            .unwrap();
    assert_eq!(previous, features());
    assert_eq!(current, next);
    assert!(publish_current_device_features(&access, &station()).unwrap().privacy);
    let unknown = update_device_features_locked(&mut access, &station(), None, Ok(features()));
    assert_eq!(FeatureStored::of(unknown), FeatureStored::NoDevice);
    assert!(publish_current_device_features(&access, &station()).unwrap().privacy);
}

#[test]
fn stored_changes_are_published_and_failed_ones_put_back() {
    let failed =
        FeatureStored::Failed(FeatureStoreError::Other { reason: "full".to_owned() });
    assert_eq!(
        finish_feature_change(&FeatureStored::Stored),
        vec![FeatureTask::PublishFeatures, FeatureTask::PublishChanges]
    );
    assert_eq!(finish_feature_change(&failed), vec![FeatureTask::PublishCurrent]);
    assert!(finish_feature_change(&FeatureStored::NoDevice).is_empty());
    assert_eq!(finish_recording_change(&failed), vec![FeatureTask::PublishRecordingButton]);
    assert!(finish_recording_change(&FeatureStored::NoDevice).is_empty());
}

#[test]
fn backgrounds_of_registered_stations_are_numbered() {
    let mut runtime = BackgroundRuntime { next_transaction_id: 5 };
    let effective = || {
        Ok(EffectiveBackground::Override(Some(ResolvedDeviceBackground::Display(
            "http://example/a.png".to_owned(),
        ))))
    };
    let command = runtime.apply_registered(station(), effective()).unwrap().unwrap();
    assert_eq!(
        command.action,
        PhoneCommandAction::DisplayBackgroundImage {
            transaction_id: 5,
            image_url: "http://example/a.png".to_owned(),
        }
    );
    assert_eq!(runtime.next_transaction_id, 6);
    assert_eq!(
        runtime.apply_registered(station(), Ok(EffectiveBackground::Unconfigured)),
        Ok(None)
    );
    let failed = BackgroundRuntimeError::Stopped;
    assert_eq!(
        runtime.apply_registered(station(), Err(failed)),
        Err(BackgroundRuntimeError::Stopped)
    );
    assert_eq!(runtime.next_transaction_id, 6);
    assert_eq!(registered_device_type(&access(), &station()), Some(436));
    assert_eq!(registered_device_type(&access(), &DeviceId::named("SEPGONE")), None);
    assert_eq!(resolve_configured_background(None), Ok(None));
    assert_eq!(
        resolve_configured_background(Some(Err("no pattern".to_owned()))),
        Err("no pattern".to_owned())
    );
}

#[test]
fn background_resets_say_how_they_went() {
    assert_eq!(
        finish_reset_background(&station(), true),
        "SEP001122334455: background reset to configuration and queued\n"
    );
    assert_eq!(
        finish_reset_background(&station(), false),
        "SEP001122334455: background override removed, but configured background delivery failed\n"
    );
    assert_eq!(execute_cli_operation(&access(), &station()), None);
    assert!(execute_cli_operation(&access(), &DeviceId::named("SEPGONE")).is_some());
}

fn slot() -> MobilitySlot {
    MobilitySlot { device_id: station(), button_instance: 6 }
}

fn roaming_button() -> Access {
    let mut access = access();
    access.shared.config.devices[0].buttons =
        vec![ButtonDefinition::Feature { instance: 6, feature: ButtonType::Mobility }];
    access
}

#[test]
fn login_forms_are_answered_under_their_number() {
    let target =
        || StationTarget { device_id: station(), session_generation: SessionGeneration(3) };
    let cancelled = cancel_mobility_response(target(), 9, 4);
    assert_eq!(cancelled.target, target());
    let routing = cancelled.routing;
    assert_eq!(
        routing,
        PhoneServiceRouting {
            application_id: 9,
            line_instance: 0,
            call_reference: 0,
            transaction_id: 4,
        }
    );
    assert_eq!(route_mobility_response(routing, 9, true), MobilityResponseRoute::TakePrompt);
    assert_eq!(route_mobility_response(routing, 8, true), MobilityResponseRoute::Ignore);
    assert_eq!(route_mobility_response(routing, 9, false), MobilityResponseRoute::Ignore);
    let entered = PhoneServicePayload::Submission("1001:1234".to_owned());
    assert!(matches!(
        check_mobility_response(station(), Some(&slot()), routing, &entered),
        MobilityResponseStep::Parse(text) if text == "1001:1234"
    ));
    assert_eq!(
        check_mobility_response(station(), None, routing, &entered),
        MobilityResponseStep::Ignore
    );
    let rejected = MobilityResponseStep::Reject(notice(Prompt::MobilityLoginRejected));
    assert_eq!(
        check_mobility_response(station(), Some(&slot()), routing, &PhoneServicePayload::Other),
        rejected
    );
    let on_a_line = PhoneServiceRouting { line_instance: 1, ..routing };
    assert_eq!(
        check_mobility_response(station(), Some(&slot()), on_a_line, &entered),
        rejected
    );
}

#[test]
fn logins_need_a_button_a_free_line_and_the_right_words() {
    let access = roaming_button();
    let respond = |access: &Access, line: Option<&str>, authenticated| {
        format!("{:?}", handle_mobility_response(
            access,
            station(),
            &slot(),
            line,
            authenticated,
        ))
    };
    assert_eq!(
        respond(&access, Some("2002"), true),
        "Prepare { configured_instances: [1] }"
    );
    for refused in [
        respond(&access, Some("1001"), true),
        respond(&access, Some("2002"), false),
        respond(&access, None, true),
        respond(&crate::access(), Some("2002"), true),
    ] {
        assert!(refused.contains("MobilityLoginRejected"), "{refused}");
    }
    assert_eq!(
        mobility_login_refused(station(), MobilityPreparation::Unchanged),
        Some(notice(Prompt::MobilityAlreadyActive))
    );
    assert_eq!(mobility_login_refused(station(), MobilityPreparation::Transaction), None);
    assert_eq!(
        finish_mobility_change(station(), true, false),
        notice(Prompt::MobilityLoginFailed)
    );
    assert_eq!(
        finish_mobility_change(station(), false, true),
        notice(Prompt::MobilityLogoutComplete)
    );
}

#[test]
fn login_forms_replace_earlier_ones() {
    let target =
        || StationTarget { device_id: station(), session_generation: SessionGeneration(3) };
    let prompt = MobilityPrompt { target: target(), transaction_id: 12, replaced: vec![10, 11] };
    assert_eq!(
        show_mobility_prompt(station(), 9, None),
        MobilityPromptStep::Unavailable(notice(Prompt::MobilityUnavailable))
    );
    assert_eq!(
        show_mobility_prompt(station(), 9, Some(&prompt)),
        MobilityPromptStep::Cancel(vec![
            cancel_mobility_response(target(), 9, 10),
            cancel_mobility_response(target(), 9, 11),
        ])
    );
    assert_eq!(
        send_mobility_prompt(station(), 9, &prompt, false),
        MobilityPromptStep::TakeBack {
            transaction_id: 12,
            shown: notice(Prompt::MobilityUnavailable),
        }
    );
    match send_mobility_prompt(station(), 9, &prompt, true) {
        MobilityPromptStep::Show(form) => {
            assert_eq!(form.routing.transaction_id, 12);
            assert_eq!(form.routing.application_id, 9);
            assert_eq!(form.priority, PhoneServicePriority::Normal);
        }
        other => panic!("unexpected step {other:?}"),
    }
    assert_eq!(finish_mobility_prompt(9, &prompt, true), MobilityPromptStep::Shown);
    assert_eq!(
        finish_mobility_prompt(9, &prompt, false),
        MobilityPromptStep::Withdraw {
            transaction_id: 12,
            cancelled: cancel_mobility_response(target(), 9, 12),
        }
    );
    // A logout that the controller refuses to prepare shows nothing.
    assert_eq!(mobility_logout(&roaming_button(), station(), false, None), None);
    assert_eq!(
        mobility_logout(&roaming_button(), station(), true, None),
        Some(MobilityChange::Apply)
    );
}

#[test]
fn roaming_lines_are_shown_on_registered_stations_only() {
    let mut access = access();
    let appearance = MobilityAppearance {
        device_id: station(),
        button_instance: 6,
        binding: binding("SEP001122334455", 9, "2002"),
    };
    let shown = |appearance_id| {
        MobilityWrite::Send(PhoneCommand {
            device_id: station(),
            action: PhoneCommandAction::SetMobilityAppearance {
                mobility_instance: 6,
                appearance_id,
            },
        })
    };
    assert_eq!(mobility_write(&access, &appearance, true), shown(Some(19)));
    assert_eq!(mobility_write(&access, &appearance, false), shown(None));
    access.shared.controller.registered.clear();
    assert_eq!(mobility_write(&access, &appearance, true), MobilityWrite::Fail);
    assert_eq!(mobility_write(&access, &appearance, false), MobilityWrite::Skip);
}

fn schedule(source: DndScheduleSource, texts: &[&str]) -> DeviceDndSchedule {
    let rules = texts
        .iter()
        .map(|text| DndSchedule { mode: DndScheduleMode::Reject, text: (*text).to_owned() })
        .collect();
    let checks = RuleChecks { invalid: None, segments: Vec::new() };
    DeviceDndSchedule::compile(source, rules, &checks, None).unwrap()
}

fn registry(schedule: DeviceDndSchedule) -> DndScheduleRegistry {
    let mut registry = DndScheduleRegistry::new();
    registry.put(station(), schedule);
    registry
}

#[test]
fn changed_rules_are_taken_back_where_they_cannot_be_carried_out() {
    let mut rules = registry(schedule(DndScheduleSource::Configuration, &["09:00-10:00 mon"]));
    let next = schedule(DndScheduleSource::Override, &["11:00-12:00 tue", "13:00-14:00 wed"]);
    let previous = install_mutation(&mut rules, &station(), next);
    assert_eq!(previous.as_ref().unwrap().rules.len(), 1);
    assert_eq!(rules.devices[0].schedule.rules.len(), 2);
    let text = finish_mutation(
        &mut rules,
        &station(),
        previous,
        DndSchedulePhase::Reject,
        false,
        Err(RuntimeDndMutationError::DeviceNotFound),
        Ok(()),
    );
    assert!(text.starts_with("DND schedule command failed and was rolled back: "), "{text}");
    assert_eq!(rules.devices[0].schedule.rules.len(), 1);
    let next = schedule(DndScheduleSource::Override, &["11:00-12:00 tue", "13:00-14:00 wed"]);
    let previous = install_mutation(&mut rules, &station(), next);
    finish_mutation(
        &mut rules,
        &station(),
        previous,
        DndSchedulePhase::Reject,
        false,
        Ok(()),
        Ok(()),
    );
    assert_eq!(rules.devices[0].schedule.last_phase, Some(DndSchedulePhase::Reject));
    assert!(!rules.devices[0].schedule.pending_catchup);
    assert_eq!(DndSchedulePhase::Reject.runtime_mode(), DndMode::Reject);
    assert_eq!(DndSchedulePhase::Inactive.runtime_mode(), DndMode::Off);
}

#[test]
fn unchanged_rules_go_on_where_they_were() {
    let mut live = registry(schedule(DndScheduleSource::Configuration, &["09:00-10:00 mon"]));
    live.devices[0].schedule.last_phase = Some(DndSchedulePhase::Reject);
    live.devices[0].schedule.pending_catchup = false;
    let mut same = registry(schedule(DndScheduleSource::Configuration, &["09:00-10:00 mon"]));
    same.preserve_unchanged_phases(&live);
    assert_eq!(same.devices[0].schedule.last_phase, Some(DndSchedulePhase::Reject));
    let mut other = registry(schedule(DndScheduleSource::Configuration, &["09:00-11:00 mon"]));
    other.preserve_unchanged_phases(&live);
    assert_eq!(other.devices[0].schedule.last_phase, None);
    let configured = registry(schedule(DndScheduleSource::Configuration, &["09:00-10:00 mon"]));
    let mut reloaded =
        registry(schedule(DndScheduleSource::Configuration, &["09:00-10:00 mon"]));
    reloaded.reconcile_live_ownership(&configured, &live);
    assert_eq!(reloaded.devices[0].schedule.last_phase, Some(DndSchedulePhase::Reject));
}

#[test]
fn configured_rules_are_taken_up_for_every_station() {
    let mut config = config();
    config.devices[0].dnd_schedules =
        vec![DndSchedule { mode: DndScheduleMode::Silent, text: "08:00-09:00 sun".to_owned() }];
    let fine = || RuleChecks { invalid: None, segments: Vec::new() };
    let loaded = DndScheduleRegistry::from_configuration(&config, vec![fine()]).unwrap();
    assert_eq!(loaded.devices.len(), 1);
    assert_eq!(loaded.devices[0].schedule.source, DndScheduleSource::Configuration);
    let invalid = RuleChecks { invalid: Some("overlap".to_owned()), segments: Vec::new() };
    assert!(DndScheduleRegistry::from_configuration(&config, vec![invalid]).is_err());
    let rule = DndSchedule { mode: DndScheduleMode::Silent, text: "08:00-09:00 sun".to_owned() };
    assert!(matches!(
        add_parsed_rule(Ok(rule)),
        ScheduleCli::Mutate(ScheduleMutation::Add(_))
    ));
    assert!(matches!(add_parsed_rule(Err("no minutes".to_owned())), ScheduleCli::Reply(_)));
}

fn join() -> BargeOperation {
    BargeOperation::Join {
        bridge_id: PbxBridgeId(1),
        target_call_id: PbxCallId(1),
        barger_call_id: PbxCallId(2),
    }
}

fn leave(last_participant: bool) -> BargeOperation {
    BargeOperation::Leave {
        bridge_id: PbxBridgeId(1),
        barger_call_id: PbxCallId(2),
        last_participant,
    }
}

fn two_channels() -> Access {
    let mut access = access();
    access.shared.channels.push(ChannelBinding {
        handle: 2,
        pbx_id: PbxCallId(2),
        closed: false,
        name: None,
    });
    access
}

fn refused() -> CallFeatureError {
    CallFeatureError::Native("refused".to_owned())
}

#[test]
fn the_first_to_barge_borrows_the_bridge() {
    let access = two_channels();
    let mut session = None;
    assert_eq!(
        execute_barge(&access, &mut session, join()),
        BargeStep::Acquire { bridge_id: PbxBridgeId(1), target_call_id: PbxCallId(1) }
    );
    let step = barge_acquired(
        &access,
        &mut session,
        PbxCallId(1),
        PbxCallId(2),
        Some(Ok(BargeBridgeSession(8))),
    );
    assert_eq!(step, BargeStep::Add { barger_call_id: PbxCallId(2), acquired: true });
    assert_eq!(session, Some(BargeBridgeSession(8)));
    assert_eq!(
        execute_barge(&access, &mut session, join()),
        BargeStep::Add { barger_call_id: PbxCallId(2), acquired: false }
    );
    let step = barge_added(&mut session, PbxCallId(2), true, Some(Err(refused())));
    assert!(matches!(step, BargeStep::GiveUp { session: BargeBridgeSession(8), .. }));
    assert_eq!(session, None);
    let mut kept = Some(BargeBridgeSession(9));
    let step = barge_added(&mut kept, PbxCallId(2), false, Some(Err(refused())));
    assert!(matches!(step, BargeStep::Finished(Err(_))));
    assert_eq!(kept, Some(BargeBridgeSession(9)));
    let gone = crate::access();
    let mut none = None;
    let step = barge_acquired(
        &gone,
        &mut none,
        PbxCallId(1),
        PbxCallId(2),
        Some(Ok(BargeBridgeSession(8))),
    );
    assert!(matches!(
        step,
        BargeStep::GiveUp {
            session: BargeBridgeSession(8),
            error: AsteriskBackendError::CallUnavailable { operation: "add barge participant", .. },
        }
    ));
}

#[test]
fn the_last_to_leave_gives_the_bridge_back() {
    let access = two_channels();
    let mut session = Some(BargeBridgeSession(8));
    assert_eq!(
        execute_barge(&access, &mut session, leave(true)),
        BargeStep::Remove { barger_call_id: PbxCallId(2) }
    );
    let step = barge_removed(
        &mut session,
        PbxBridgeId(1),
        PbxCallId(2),
        true,
        Some(Err(refused())),
    );
    assert!(matches!(
        step,
        BargeStep::Release { session: BargeBridgeSession(8), removal: Err(_) }
    ));
    assert_eq!(session, None);
    let mut shared = Some(BargeBridgeSession(8));
    let step =
        barge_removed(&mut shared, PbxBridgeId(1), PbxCallId(2), false, Some(Ok(())));
    assert_eq!(step, BargeStep::Finished(Ok(())));
    assert_eq!(shared, Some(BargeBridgeSession(8)));
    let first = AsteriskBackendError::CallUnavailable {
        operation: "remove barge participant",
        call_id: PbxCallId(2),
    };
    assert!(matches!(
        barge_released(Err(first), Err(refused())),
        Err(AsteriskBackendError::CallUnavailable { .. })
    ));
    assert!(matches!(
        barge_released(Ok(()), Err(refused())),
        Err(AsteriskBackendError::CallFeature(_))
    ));
    assert_eq!(barge_released(Ok(()), Ok(())), Ok(()));
}

#[test]
fn bridges_are_created_once_and_used_after() {
    let access = access();
    let create = BridgeOperation::Create { bridge_id: PbxBridgeId(1) };
    assert!(execute_bridge(&access, None, &create).is_ok());
    assert!(matches!(
        execute_bridge(&access, Some(BridgeSession(5)), &create),
        Err(AsteriskBackendError::BridgeConflict { bridge_id: PbxBridgeId(1) })
    ));
    let add = |call: u64| BridgeOperation::AddParticipant {
        bridge_id: PbxBridgeId(1),
        call_id: PbxCallId(call),
    };
    assert!(execute_bridge(&access, Some(BridgeSession(5)), &add(1)).is_ok());
    assert!(matches!(
        execute_bridge(&access, None, &add(1)),
        Err(AsteriskBackendError::BridgeUnavailable { .. })
    ));
    assert!(matches!(
        execute_bridge(&access, Some(BridgeSession(5)), &add(2)),
        Err(AsteriskBackendError::CallUnavailable { call_id: PbxCallId(2), .. })
    ));
    assert_eq!(finish_drain(vec![Ok(())], Vec::new()), Ok(()));
    assert!(finish_drain(vec![Ok(()), Err(refused())], Vec::new()).is_err());
    assert!(finish_drain(Vec::new(), vec![Err(refused())]).is_err());
}

#[test]
fn hung_up_calls_leave_their_conference() {
    let access = access();
    assert_eq!(
        handle_handset_hangup(&access, Some(ConferenceId(5)), Some((station(), CallId(7)))),
        HandsetHangUpAction::CleanUpAndList {
            device_id: station(),
            call_id: CallId(7),
            show_list: true,
        }
    );
    assert_eq!(
        handle_handset_hangup(&access, Some(ConferenceId(5)), None),
        HandsetHangUpAction::CleanUpAndSilence { conference_id: ConferenceId(5) }
    );
    assert_eq!(
        handle_handset_hangup(&access, None, None),
        HandsetHangUpAction::ExecuteEffects
    );
    assert!(matches!(
        hang_up_after_forwarding(station(), CallId(7), true),
        HangUpAction::Close(_)
    ));
    assert_eq!(
        hang_up_after_forwarding(station(), CallId(7), false),
        HangUpAction::OfferToTransfer
    );
    assert_eq!(
        voicemail_refused(station(), CallId(7)),
        prompt(Prompt::VoicemailActionUnavailable)
    );
}

#[test]
fn channels_are_created_with_their_texts_only() {
    let access = access();
    let line = binding("SEP001122334455", 1, "1001");
    let text = prepare_channel_allocation_text(&access, &line, PbxCallId(3), "0.0.0.0").unwrap();
    let request = create_channel(
        &access,
        CallId(9),
        PbxCallId(3),
        &line,
        Codec::Pcma,
        "0.0.0.0",
    )
    .unwrap();
    assert_eq!(
        request,
        ChannelAllocationRequest {
            sccp_id: CallId(9),
            pbx_id: PbxCallId(3),
            binding: &line,
            codec: Codec::Pcma,
            video_formats: VideoOffer::All,
            requestor: None,
            metadata: None,
            text,
            owner: ChannelAllocationOwner::Module,
        }
    );
    assert_eq!(channel_created(PbxCallId(3), Ok(())), Ok(()));
    assert!(matches!(
        channel_created(PbxCallId(3), Err(ChannelAllocationError::Failed)),
        Err(AsteriskBackendError::ChannelAllocation { call_id: PbxCallId(3), .. })
    ));
    let consult = |source: u64, line: &LineBinding| {
        create_consultation_channel(
            &access,
            PbxCallId(source),
            CallId(9),
            PbxCallId(3),
            line,
            Codec::Pcmu,
            "0.0.0.0",
        )
        .map(|request| (request.requestor, request.codec, request.owner))
    };
    assert_eq!(
        consult(1, &line),
        Ok((
            Some(access.shared.channels[0].handle),
            Codec::Pcmu,
            ChannelAllocationOwner::Module
        ))
    );
    assert!(matches!(
        consult(2, &line),
        Err(AsteriskBackendError::CallUnavailable {
            operation: "create consultation channel",
            call_id: PbxCallId(2),
        })
    ));
    // A text that the switch cannot take is refused before anything else.
    let mut broken = binding("SEP001122334455", 1, "1001");
    broken.line.context = "from\0sccp".to_owned();
    assert!(matches!(
        consult(2, &broken),
        Err(AsteriskBackendError::ChannelAllocation { call_id: PbxCallId(3), .. })
    ));
    assert_eq!(queue_unavailable(true), Some(HangupCause::RequestedChannelUnavailable));
    assert_eq!(queue_unavailable(false), None);
    assert_eq!(referenced_channels(&access.shared).len(), 1);
}

#[test]
fn metadata_are_composed_from_the_call_and_its_line() {
    let mut access = access();
    let line = binding("SEP001122334455", 1, "1001");
    let inputs = channel_metadata_inputs(&access, &line, PbxCallId(1)).unwrap();
    assert_eq!(inputs.dialed_number, Some("4000"));
    assert_eq!(inputs.caller_number, "1001");
    assert_eq!(inputs.language, "en");
    assert!(channel_metadata_inputs(&access, &line, PbxCallId(9)).is_none());
    let composed = || {
        let mut metadata = pbx_call(1, CallState::Connected).metadata;
        metadata.dnid = Some("4711".to_owned());
        Some(metadata)
    };
    assert!(configured_channel_metadata(&mut access, PbxCallId(1), composed(), false).is_none());
    assert!(configured_channel_metadata(&mut access, PbxCallId(9), composed(), true).is_none());
    assert_eq!(access.shared.controller.calls[0].metadata.dnid, None);
    assert!(configured_channel_metadata(&mut access, PbxCallId(1), composed(), true).is_some());
    assert_eq!(
        access.shared.controller.calls[0].metadata.dnid,
        Some("4711".to_owned())
    );
}

#[test]
fn codecs_and_video_come_from_line_and_station() {
    let mut access = access();
    let inputs = audio_negotiation(&access, &station(), 1).unwrap();
    assert_eq!(inputs.configured, vec![Codec::G722, Codec::Pcma, Codec::Pcmu]);
    assert_eq!(inputs.station.unwrap().len(), 1);
    assert_eq!(
        preferred_video(&access, &DeviceId::named("SEPGONE"), 1, None),
        VideoSelection::Disabled
    );
    let negotiated = NegotiatedVideo {
        format: PbxVideoFormat { codec: Codec::G722, payload_type: Some(97) },
        payload: Some(40),
        address_type: None,
    };
    match preferred_video(&access, &station(), 1, Some(negotiated)) {
        VideoSelection::Ready(selected) => {
            assert_eq!(selected.payload_type, 97);
            assert_eq!(selected.payload, 40);
            assert_eq!(selected.session_generation, SessionGeneration(3));
        }
        other => panic!("unexpected selection {other:?}"),
    }
    assert!(matches!(
        preferred_video(&access, &station(), 1, None),
        VideoSelection::AudioOnly { .. }
    ));
    assert!(configured_early_media(&access, &station(), CallId(7)));
    access.shared.config.bindings[0].media.as_mut().unwrap().early_media = false;
    assert!(!configured_early_media(&access, &station(), CallId(7)));
    assert!(configured_early_media(&access, &station(), CallId(99)));
}

fn audio(port: u16) -> MediaEndpoint {
    MediaEndpoint {
        address: IpAddress::V4(1),
        rtp_port: port,
        rtcp_port: port + 1,
        codec: Codec::G722,
        packet_ms: 20,
        max_frames_per_packet: 1,
        telephone_event_payload: 101,
    }
}

fn direct() -> DirectMediaCall {
    DirectMediaCall {
        pbx_id: PbxCallId(1),
        device_id: station(),
        call_id: CallId(7),
        line_instance: 1,
        codec: Codec::G722,
        phone_endpoint: audio(4000),
        transmit_endpoint: audio(5000),
    }
}

#[test]
fn retargets_keep_what_they_replace() {
    let mut access = access();
    let processing =
        AudioProcessingPolicy { echo_cancellation: true, silence_suppression: false };
    let retarget = |access: &Access, previous| {
        enqueue_media_retarget(
            access,
            &direct(),
            audio(6000),
            DtmfMode::Rfc2833,
            processing,
            previous,
        )
    };
    let moved = retarget(&access, Some(audio(5000))).unwrap();
    assert_eq!(moved.call_id, CallId(7));
    assert_eq!(moved.rollback, MediaRetargetRollback::Anchor(audio(5000)));
    assert!(matches!(
        moved.command.action,
        PhoneCommandAction::StartMedia { endpoint, .. } if endpoint == audio(6000)
    ));
    assert!(retarget(&access, None).is_none());
    assert!(retarget_possible(&access, &direct()));
    access.shared.config.devices[0].network.qos.audio.dscp = 64;
    assert!(retarget(&access, Some(audio(5000))).is_none());
    assert!(!retarget_possible(&access, &direct()));
}

#[test]
fn announced_endpoints_need_a_live_channel_and_known_addresses() {
    let access = access();
    let native = MediaEndpointAddress { address: IpAddress::V4(0), port: 6000 };
    let advertised = Some(IpAddress::V4(77));
    assert_eq!(
        local_video_endpoint(&access, PbxCallId(1), &station(), Some(native), advertised),
        Some(MediaEndpointAddress { address: IpAddress::V4(77), port: 6000 })
    );
    assert_eq!(
        local_video_endpoint(&access, PbxCallId(2), &station(), Some(native), advertised),
        None
    );
    assert_eq!(
        local_video_endpoint(&access, PbxCallId(1), &station(), None, advertised),
        None
    );
    assert_eq!(outbound_media_mode(&access, &station(), true), OutboundMediaMode::Coupled);
    assert_eq!(outbound_media_mode(&access, &station(), false), OutboundMediaMode::Staged);
    assert_eq!(
        outbound_media_mode(&access, &DeviceId::named("SEPGONE"), true),
        OutboundMediaMode::Staged
    );
}

#[test]
fn refused_formats_put_the_former_codec_back() {
    let (state, action) = replace_preferences(
        PreferenceChange::Negotiating,
        PreferenceReply::Negotiated(Some(Codec::Pcma)),
    );
    assert_eq!(action, PreferenceAction::SetCodec(Codec::Pcma));
    let (state, action) =
        replace_preferences(state, PreferenceReply::Changed(Ok(Codec::G722)));
    assert_eq!(action, PreferenceAction::ApplyFormat);
    let (state, action) = replace_preferences(state, PreferenceReply::Applied(false));
    assert_eq!(action, PreferenceAction::Restore(Codec::G722));
    assert_eq!(
        replace_preferences(state, PreferenceReply::Restored(false)),
        (
            PreferenceChange::Done,
            PreferenceAction::Fail(CodecPreferenceProviderError::RollbackFailed),
        )
    );
    assert_eq!(
        replace_preferences(
            PreferenceChange::Negotiating,
            PreferenceReply::Negotiated(None),
        )
        .1,
        PreferenceAction::Fail(CodecPreferenceProviderError::FormatUnavailable)
    );
}

#[test]
fn recordings_are_stopped_once() {
    let mut session = RuntimeRecordingSession::new(
        9,
        ConfirmedRecordingAnchor { lease: MediaAnchorLease(4) },
        station(),
        CallId(7),
    );
    session.state = Some(RecordingState::Active);
    assert!(session.stop_native());
    assert!(!session.stopped);
    assert!(session.finish_stop(Err(RecordingError { reason: "busy".to_owned() })).is_err());
    assert!(!session.stopped);
    assert!(session.finish_stop(Ok(())).is_ok());
    assert!(!session.stop_native());
    let mut recordings = RuntimeRecordings::default();
    recordings.automatic_attempts = vec![PbxCallId(1), PbxCallId(2)];
    let mut active = RuntimeRecordingSession::new(
        9,
        ConfirmedRecordingAnchor { lease: MediaAnchorLease(4) },
        station(),
        CallId(7),
    );
    active.state = Some(RecordingState::Active);
    recordings.sessions.push(RecordedCall { pbx_id: PbxCallId(1), session: active });
    assert!(recordings.is_active_call(PbxCallId(1)));
    assert!(!recordings.is_active_call(PbxCallId(2)));
    assert!(recordings.device_is_active(&station()));
    recordings.forget_call(PbxCallId(1));
    assert_eq!(recordings.automatic_attempts, vec![PbxCallId(2)]);
    let mut queue = RuntimeRecordingTriggerQueue::default();
    assert!(enqueue_recording_session_change(&mut queue, PbxCallId(1)));
    assert!(!enqueue_recording_session_change(&mut queue, PbxCallId(1)));
}

#[test]
fn retrievals_name_the_parked_call() {
    let parked = vec![ParkedCall {
        lot: "lobby".to_owned(),
        slot: 701,
        parkee_unique_id: "id-701".to_owned(),
        caller_name: String::new(),
        caller_number: String::new(),
        connected_name: String::new(),
        connected_number: String::new(),
    }];
    let attempts =
        vec![PendingRetrieval { pbx_id: PbxCallId(4), lot: "lobby".to_owned(), slot: 701 }];
    assert_eq!(
        retrieved_id(&attempts, &parked, PbxCallId(4)).map(String::as_str),
        Some("id-701")
    );
    assert_eq!(retrieved_id(&attempts, &parked, PbxCallId(5)), None);
    assert_eq!(retrieved_id(&attempts, &Vec::new(), PbxCallId(4)), None);
}
