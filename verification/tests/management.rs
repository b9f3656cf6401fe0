//! Queries, preferences, the command line, and the driver's life.

#![allow(dead_code)]

use chan_sccp2::access::{Access, ChannelBinding, Shared};
use chan_sccp2::config::{
    AdvertisedAddresses, ConferenceConfig, ConfigurationSource, DeviceConfig, DndButton,
    DndButtonMode, FeatureDefaults, GeneralConfig, GeneralNetwork, ModuleConfig, ParkingLotButton,
    ParkingRetrievalBehavior, SignalingConfig,
};
use chan_sccp2::ids::{CallId, DeviceId, PbxCallId, SessionGeneration};
use chan_sccp2::model::{
    AppearanceRingMode, AudioEncryptionCapabilities, AudioEncryptionPolicy, AudioFraming,
    AudioProcessingPolicy, CallAppearance, CallDirection, CallMetadata, CallState, Codec,
    ControllerSnapshot, DeviceRegistration, DtmfMode, IpAddress, LineAppearance, LineBinding,
    LineConfig, MediaCapability, MediaPolicy, MediaStreamState, NatMode, NetworkPolicy, PbxCall,
    QosMark, QosPolicy, RegisteredDevice, StationMediaCapabilities, StationTransport,
    VideoMediaState, VideoMode, VideoStreamState,
};
use chan_sccp2::access::ChannelQueryLookupError;
use chan_sccp2::cli::{
    complete_runtime_cli_inventory, cli_features, render_runtime_cli_inventory,
    runtime_cli_inventory_snapshot, CliCapabilityStatus, CliInventoryError, InventoryDevice,
    InventorySnapshot, RuntimeCliInventoryError,
};
use chan_sccp2::codecs::AudioFormat;
use chan_sccp2::commands::{HandsetStatusMessage, PhoneCommandAction};
use chan_sccp2::completion::complete_configured_device;
use chan_sccp2::diagnostics::{
    complete_runtime_cli_diagnostics, render_runtime_cli_diagnostics,
    runtime_cli_diagnostic_snapshot, CliDiagnosticCommand, CliDiagnosticError, NamedQueue,
    QueueSnapshot, RuntimeCliDiagnosticError, RuntimeQueues,
};
use chan_sccp2::effects::{DriverEffect, HandsetEffect, PbxEffect, PhoneCallState};
use chan_sccp2::encryption::{
    admit_clear_audio_media, audio_encryption_admission, audio_encryption_retained, AdmissionStep,
    MediaEncryptionDecision,
};
use chan_sccp2::features::{FeatureStoreError, FeatureTask, RuntimeDndMutationError};
use chan_sccp2::forwarding::ForwardingKind;
use chan_sccp2::lifecycle::{
    accept_station_socket, begin_reload, bind_runtime_listeners, config_path, module_access,
    overlap_devices, reconcile_mobility_after_reload, reconfigured_devices, registered_after,
    registration_tokens, reload, reload_selected, reload_selected_inner, reload_sorcery,
    reload_tasks, start_steps, stop_failure, worker_failures, AppliedReload, CallAnswerOrder,
    CallSelectionOrder,
    CancelledPrompt, ChannelIdentity, ChannelState, ConfigReconciliationTrigger, FallbackDecision,
    FallbackRegistration, MobilityReloadTask, Module, RegistrationFallback, ReloadAction, ReloadPlan, ReloadReply,
    ReloadSelection, ReloadState, ReloadTask, RuntimeCallSignalKind, StartAction, StartStep,
    StopStep,
};
use chan_sccp2::config::{DialTones, LineFeatures, PickupConfig};
use chan_sccp2::mobility::StationTarget;
use chan_sccp2::startup::{controller_policy, server_settings, DialDigit};
use chan_sccp2::management::{
    called_party_commands, called_party_info, dnd_control_outcome, execute_forwarding_mutation,
    finish_called_party,
    feature_control_store_error, finish_forwarding_mutation, replace_called_party, service_reply,
    CalledPartyOverride, CalledPartyProviderError, ConnectedLineSource, ConnectedLineUpdate,
    NameCharset, NumberPlan, PartyIdentity, Presentation, FeatureControlProviderError, FeatureOutcome,
    ForwardingStored, HandsetCall, HandsetCallIndication, HandsetProviderError,
    RuntimeDndMutationOutcome,
};
use chan_sccp2::model::{
    AudioEncryptionAdmission, CallRuntimeRecord, DeviceFeatureState, DeviceFeatures, DndMode,
    FeatureButtonState, ForwardingState, MobilityAppearance, PbxAudioFormat,
};
use chan_sccp2::preferences::{
    check_preferences, codec_preference_context, keep_preferences, CodecPreferenceProviderError,
};
use chan_sccp2::providers::{
    DeviceQueryLookupError, LineQueryLookupError, RuntimeCalledPartyProvider,
    RuntimeChannelQueryProvider, RuntimeCodecPreferenceProvider, RuntimeDeviceQueryProvider,
    RuntimeFeatureControlProvider, RuntimeHandsetCallIndicationProvider,
    RuntimeHandsetMessageProvider, RuntimeInventoryProvider, RuntimeLineQueryProvider,
};
use chan_sccp2::queries::{
    video_media_state_summary, ChannelMediaStateSummary, ChannelQueryTarget, QueryTarget,
};
use chan_sccp2::status::{status_snapshot, InventoryValue, MediaStatistics, MediaStatisticsPrivacy,
    StationStatistics};

fn mark(dscp: u8) -> QosMark {
    QosMark { dscp, cos: 5 }
}

fn qos() -> QosPolicy {
    QosPolicy { signaling: mark(24), audio: mark(46), video: mark(34) }
}

fn media(codecs: Vec<Codec>) -> MediaPolicy {
    MediaPolicy {
        codecs,
        dtmf_mode: DtmfMode::Rfc2833,
        audio_processing: AudioProcessingPolicy { echo_cancellation: true, silence_suppression: false },
        early_media: true,
        direct_media: true,
        video_mode: VideoMode::Auto,
        audio_encryption: AudioEncryptionPolicy(1),
    }
}

fn line(number: &str) -> LineConfig {
    LineConfig {
        number: number.to_owned(),
        label: "Desk".to_owned(),
        context: "from-sccp".to_owned(),
        caller_name: "Desk".to_owned(),
        caller_number: number.to_owned(),
        mailbox: Some(format!("{number}@default")),
        language: "en".to_owned(),
        account_code: None,
        channel_variables: Vec::new(),
    }
}

fn binding(device: &str, instance: u32, number: &str) -> LineBinding {
    LineBinding {
        device_id: DeviceId::named(device),
        line_instance: instance,
        appearance: LineAppearance {
            id: 10 + instance,
            label: "Desk".to_owned(),
            ring_mode: AppearanceRingMode::Normal,
            privacy: false,
            subscription_identity: None,
        },
        line: line(number),
        media: Some(media(vec![Codec::G722, Codec::Pcma, Codec::Pcmu])),
        hotline: None,
        conference_dialing: None,
    }
}

fn device(name: &str) -> DeviceConfig {
    DeviceConfig {
        id: DeviceId::named(name),
        description: "Reception".to_owned(),
        channel_variables: Vec::new(),
        lines: vec!["1001".to_owned()],
        buttons: Vec::new(),
        blf_targets: Vec::new(),
        dnd_buttons: vec![DndButton { instance: 3, mode: DndButtonMode::Silent }],
        recording_buttons: vec![4],
        dnd_schedules: Vec::new(),
        parking_enabled: true,
        parking_buttons: vec![ParkingLotButton {
            instance: 5,
            lot: "lobby".to_owned(),
            retrieval: ParkingRetrievalBehavior::RetrieveSingle,
        }],
        feature_defaults: FeatureDefaults {
            dnd_enabled: true,
            privacy_enabled: true,
            forward_all_enabled: true,
            forward_busy_enabled: false,
            forward_no_answer_enabled: true,
        },
        network: NetworkPolicy { nat: NatMode::Auto, qos: qos() },
        conference: ConferenceConfig {
            allowed: true,
            show_conference_list: true,
            music_on_hold_class: "default".to_owned(),
            mute_on_entry: false,
            play_general_announcements: true,
            play_participant_announcements: true,
        },
        allow_overlap: false,
    }
}

fn signaling() -> SignalingConfig {
    SignalingConfig {
        clear_listener: None,
        advertised_address: None,
        server_name: "switch".to_owned(),
        keepalive_seconds: 60,
        secondary_keepalive_seconds: 60,
        signaling_servers: Vec::new(),
        fallback_registration: FallbackRegistration {
            decision: FallbackDecision::Reject,
            backoff_seconds: 30,
            server_priority: 1,
        },
        dial_terminator: Some('#'),
        record_dial_terminator: false,
        simulate_enbloc: true,
        first_digit_timeout_ms: 16000,
        interdigit_timeout_ms: 8000,
        call_answer_order: CallAnswerOrder::OldestFirst,
        timezone_offset_minutes: 0,
        date_template: "D.M.Y".to_owned(),
    }
}

fn config() -> ModuleConfig {
    ModuleConfig {
        general: GeneralConfig {
            configuration_source: ConfigurationSource::File,
            bind: IpAddress::V4(0),
            codecs: vec![Codec::Pcma, Codec::Pcmu],
            qos: qos(),
            network: GeneralNetwork {
                nat: NatMode::Off,
                local_networks: Vec::new(),
                advertised: AdvertisedAddresses { ipv4: None, ipv6: None },
            },
            jitter_buffer_forced: false,
            transfer_on_hangup: true,
            audio_processing_default: AudioProcessingPolicy {
                echo_cancellation: false,
                silence_suppression: false,
            },
            audio_framing_default: AudioFraming { packet_ms: 20, max_frames_per_packet: 1 },
            timezone: None,
            audio_encryption: AudioEncryptionPolicy(7),
            signaling: signaling(),
        },
        devices: vec![device("SEP001122334455")],
        lines: vec![line("1001")],
        line_features: Vec::new(),
        bindings: vec![binding("SEP001122334455", 1, "1001")],
        guest_bindings: vec![binding("SEPGUEST00000", 1, "guest")],
    }
}

fn registered(name: &str) -> RegisteredDevice {
    RegisteredDevice {
        id: DeviceId::named(name),
        session_generation: SessionGeneration(3),
        registration: DeviceRegistration {
            id: DeviceId::named(name),
            device_type: 436,
            protocol: 20,
            peer: IpAddress::V4(0x0a00_0001),
            reported_address: None,
            firmware: "9.4".to_owned(),
            transport: StationTransport::Clear,
        },
        capabilities: Some(StationMediaCapabilities::from_audio(vec![MediaCapability {
            codec: Codec::G722,
            max_packet_ms: 40,
            codec_parameters: [0; 8],
        }])),
        audio_encryption: AudioEncryptionCapabilities(5),
        selected_calls: Vec::new(),
        selected_line: None,
    }
}

fn appearance(call: u64, pbx: u64, device: &str, state: CallState) -> CallAppearance {
    CallAppearance {
        sccp_id: CallId(call),
        pbx_id: PbxCallId(pbx),
        device_id: DeviceId::named(device),
        line_instance: 1,
        state,
        privacy: false,
        party_restrictions: 0,
        codec: Codec::G722,
        audio: MediaStreamState::Closed,
        audio_transmit: MediaStreamState::Closed,
        video: VideoMediaState {
            receive: VideoStreamState::Closed,
            transmit: VideoStreamState::Closed,
        },
    }
}

fn pbx_call(pbx: u64, state: CallState) -> PbxCall {
    PbxCall {
        pbx_id: PbxCallId(pbx),
        line: "1001".to_owned(),
        context: "from-sccp".to_owned(),
        state,
        direction: CallDirection::Outbound,
        digits: "4000".to_owned(),
        privacy: false,
        metadata: CallMetadata {
            ani: Some("1001".to_owned()),
            ani_visible: true,
            rdnis: None,
            rdnis_visible: true,
            dnid: None,
            account_code: None,
            language: None,
            variables: Vec::new(),
        },
        active_call_id: Some(CallId(7)),
        conference_id: None,
        barged: false,
    }
}

fn access() -> Access {
    Access {
        shared: Shared {
            config: config(),
            controller: ControllerSnapshot {
                registered: vec![registered("SEP001122334455")],
                features: Vec::new(),
                calls: vec![pbx_call(1, CallState::Connected)],
                appearances: vec![appearance(7, 1, "SEP001122334455", CallState::Connected)],
                runtime: Vec::new(),
                mobility: Vec::new(),
                forwarding_entries: Vec::new(),
            },
            channels: vec![ChannelBinding {
                handle: 1,
                pbx_id: PbxCallId(1),
                closed: false,
                name: Some("SCCP/1001-1".to_owned()),
            }],
            retired: Vec::new(),
            destinations: Vec::new(),
            anchored: Vec::new(),
        },
    }
}

fn station() -> DeviceId {
    DeviceId::named("SEP001122334455")
}

fn features() -> DeviceFeatureState {
    DeviceFeatureState {
        dnd: DndMode::Silent,
        privacy: true,
        forwarding: ForwardingState {
            all: Some("5000".to_owned()),
            busy: None,
            no_answer: None,
        },
        buttons: vec![
            FeatureButtonState { instance: 6, enabled: true },
            FeatureButtonState { instance: 7, enabled: false },
        ],
        recording_armed: false,
    }
}

fn formats() -> Vec<AudioFormat> {
    vec![
        AudioFormat { codec: Codec::G722, format: PbxAudioFormat::G722 },
        AudioFormat { codec: Codec::Pcma, format: PbxAudioFormat::Alaw },
        AudioFormat { codec: Codec::Pcmu, format: PbxAudioFormat::Ulaw },
    ]
}

#[test]
fn stations_are_described_if_configured_or_registered() {
    let mut access = access();
    access.shared.controller.features.push(DeviceFeatures {
        device_id: station(),
        state: features(),
    });
    let provider = RuntimeDeviceQueryProvider { shared: Some(&access.shared) };
    let found = provider.snapshot(QueryTarget::Named(station()), None).unwrap().unwrap();
    assert!(found.configured);
    assert_eq!(found.line_count, 1);
    assert_eq!(found.registration.as_ref().unwrap().capability_count, 1);
    assert_eq!(found.features.dnd, DndMode::Silent);
    assert_eq!(found.features.enabled_feature_buttons, 1);
    assert_eq!(found.calls.calls.connected, 1);
    assert_eq!(provider.snapshot(QueryTarget::Named(DeviceId::named("SEP0")), None), Ok(None));
    assert_eq!(
        provider.snapshot(QueryTarget::Current, None),
        Err(DeviceQueryLookupError::CurrentDeviceUnavailable)
    );
    let stopped = RuntimeDeviceQueryProvider { shared: None };
    assert_eq!(
        stopped.snapshot(QueryTarget::Current, None),
        Err(DeviceQueryLookupError::Unavailable)
    );
}

#[test]
fn lines_are_described_with_their_appearances() {
    let access = access();
    let provider = RuntimeLineQueryProvider { shared: Some(&access.shared) };
    let found =
        provider.snapshot(QueryTarget::Named("1001".to_owned()), None).unwrap().unwrap();
    assert_eq!(found.context, "from-sccp");
    assert_eq!(found.appearances.len(), 1);
    assert!(found.appearances[0].registered);
    assert_eq!(found.calls.total, 1);
    assert_eq!(found.calls.connected, 1);
    assert_eq!(provider.snapshot(QueryTarget::Named("9".to_owned()), None), Ok(None));
    assert_eq!(
        provider.snapshot(QueryTarget::Current, None),
        Err(LineQueryLookupError::CurrentLineUnavailable)
    );
    // A call that stands on two appearances counts once for the line.
    let mut access = access;
    access.shared.config.bindings.push(binding("SEP9", 1, "1001"));
    let second = appearance(8, 1, "SEP9", CallState::RemoteInUse);
    access.shared.controller.appearances.push(second);
    let provider = RuntimeLineQueryProvider { shared: Some(&access.shared) };
    let shared_call =
        provider.snapshot(QueryTarget::Named("1001".to_owned()), None).unwrap().unwrap();
    assert_eq!(shared_call.calls.total, 1);
    assert_eq!(
        shared_call.appearances.iter().map(|shown| shown.calls.total).collect::<Vec<_>>(),
        vec![1, 1]
    );
}

#[test]
fn calls_are_found_by_channel_number_or_name() {
    let access = access();
    let provider = RuntimeChannelQueryProvider { shared: Some(&access.shared) };
    for target in [
        ChannelQueryTarget::Pbx(PbxCallId(1)),
        ChannelQueryTarget::Call(CallId(7)),
        ChannelQueryTarget::Name("SCCP/1001-1".to_owned()),
    ] {
        let found = provider.snapshot(&target, None, &formats(), 20).unwrap().unwrap();
        assert_eq!(found.pbx_id, PbxCallId(1));
        assert_eq!(found.dialed_number, "4000");
        assert_eq!(found.appearances.len(), 1);
    }
    assert_eq!(
        provider.snapshot(&ChannelQueryTarget::Current, None, &formats(), 20),
        Err(ChannelQueryLookupError::CurrentChannelUnavailable)
    );
    assert_eq!(
        provider.snapshot(&ChannelQueryTarget::Pbx(PbxCallId(9)), None, &formats(), 20),
        Ok(None)
    );
    let stopped = RuntimeChannelQueryProvider { shared: None };
    assert_eq!(
        stopped.snapshot(&ChannelQueryTarget::Pbx(PbxCallId(1)), None, &formats(), 20),
        Err(ChannelQueryLookupError::Unavailable)
    );
}

#[test]
fn hidden_callers_are_not_shown() {
    let mut access = access();
    access.shared.controller.calls[0].metadata.ani_visible = false;
    let provider = RuntimeChannelQueryProvider { shared: Some(&access.shared) };
    let target = ChannelQueryTarget::Pbx(PbxCallId(1));
    let found = provider.snapshot(&target, None, &formats(), 20).unwrap().unwrap();
    assert_eq!(found.ani, None);
}

#[test]
fn video_is_open_when_both_directions_are() {
    let open = VideoStreamState::Open {
        endpoint: chan_sccp2::model::MediaEndpointAddress {
            address: IpAddress::V4(1),
            port: 5000,
        },
    };
    let both = VideoMediaState { receive: open, transmit: open };
    assert_eq!(video_media_state_summary(&both), ChannelMediaStateSummary::Open);
    let one = VideoMediaState { receive: open, transmit: VideoStreamState::Closed };
    assert_eq!(video_media_state_summary(&one), ChannelMediaStateSummary::Opening);
}

#[test]
fn preferences_are_among_the_configured_formats() {
    let mut access = access();
    let context = codec_preference_context(&access.shared, PbxCallId(1), &formats(), 20).unwrap();
    assert_eq!(context.configured, vec![PbxAudioFormat::G722]);
    assert_eq!(context.effective, context.configured);
    assert_eq!(
        check_preferences(&context.configured, &vec![PbxAudioFormat::G722]),
        Ok(PbxAudioFormat::G722)
    );
    assert_eq!(
        check_preferences(&context.configured, &vec![PbxAudioFormat::Opus]),
        Err(CodecPreferenceProviderError::FormatUnavailable)
    );
    assert_eq!(
        check_preferences(&context.configured, &vec![]),
        Err(CodecPreferenceProviderError::FormatUnavailable)
    );
    let provider = RuntimeCodecPreferenceProvider { shared: Some(&access.shared) };
    assert_eq!(
        provider.replace(Some(PbxCallId(1)), &vec![PbxAudioFormat::G722], &formats(), 20),
        Ok(PbxAudioFormat::G722)
    );
    assert_eq!(
        provider.replace(None, &vec![PbxAudioFormat::G722], &formats(), 20),
        Err(CodecPreferenceProviderError::NotDriverChannel)
    );
    assert_eq!(
        provider.context(Some(PbxCallId(5)), &formats(), 20),
        Err(CodecPreferenceProviderError::Unavailable)
    );
    let configured = vec![PbxAudioFormat::G722];
    keep_preferences(&mut access, PbxCallId(1), &configured, vec![PbxAudioFormat::Alaw]);
    assert_eq!(
        access.shared.controller.runtime[0].audio_preferences,
        Some(vec![PbxAudioFormat::Alaw])
    );
    keep_preferences(&mut access, PbxCallId(1), &configured, vec![PbxAudioFormat::G722]);
    assert_eq!(access.shared.controller.runtime[0].audio_preferences, None);
}

#[test]
fn shared_calls_have_no_preferences() {
    let mut access = access();
    access
        .shared
        .controller
        .appearances
        .push(appearance(8, 1, "SEP112233445566", CallState::RemoteInUse));
    assert_eq!(
        codec_preference_context(&access.shared, PbxCallId(1), &formats(), 20),
        Err(CodecPreferenceProviderError::AmbiguousChannel)
    );
}

#[test]
fn private_calls_keep_their_numbers_in_the_status() {
    let mut access = access();
    let reports = vec![StationStatistics {
        device_id: station(),
        statistics: MediaStatistics {
            call_id: CallId(7),
            packets_sent: 1,
            packets_received: 2,
            packets_lost: 3,
        },
    }];
    let status = status_snapshot(&access.shared.controller, &vec![], &reports);
    assert_eq!(status.calls[0].dialed_number, InventoryValue::Public("4000".to_owned()));
    assert_eq!(status.media_statistics[0].privacy, MediaStatisticsPrivacy::Public);
    access.shared.controller.calls[0].privacy = true;
    let provider = RuntimeInventoryProvider { shared: Some(&access.shared) };
    let status = provider.snapshot(&vec![], &reports).unwrap();
    assert_eq!(status.calls[0].dialed_number, InventoryValue::Redacted);
    assert_eq!(status.media_statistics[0].privacy, MediaStatisticsPrivacy::Private);
    assert_eq!(provider.registrations().unwrap()[0].model_id, 436);
    let stopped = RuntimeInventoryProvider { shared: None };
    assert!(stopped.snapshot(&vec![], &reports).is_none());
}

#[test]
fn feature_changes_are_refused_where_they_are_not_allowed() {
    let access = access();
    assert_eq!(
        execute_forwarding_mutation(&access, &station(), "1001", ForwardingKind::All, true),
        None
    );
    assert_eq!(
        execute_forwarding_mutation(&access, &station(), "1001", ForwardingKind::Busy, true),
        Some(FeatureControlProviderError::FeatureDisabled)
    );
    assert_eq!(
        execute_forwarding_mutation(&access, &station(), "9", ForwardingKind::All, true),
        Some(FeatureControlProviderError::LineNotFound)
    );
    assert_eq!(
        execute_forwarding_mutation(&access, &DeviceId::named("SEP0"), "1", ForwardingKind::All, true),
        Some(FeatureControlProviderError::DeviceNotFound)
    );
    let outcome = || FeatureOutcome::Forwarding {
        device_id: station(),
        line: "1001".to_owned(),
        kind: ForwardingKind::All,
    };
    assert_eq!(
        finish_forwarding_mutation(outcome(), ForwardingStored::NoDevice),
        (Vec::new(), Err(FeatureControlProviderError::DeviceNotFound))
    );
    let lost = FeatureStoreError::Rollback { reason: "disk".to_owned() };
    assert_eq!(
        feature_control_store_error(&lost),
        FeatureControlProviderError::PersistenceDiverged
    );
    assert_eq!(
        finish_forwarding_mutation(outcome(), ForwardingStored::Failed(lost)),
        (Vec::new(), Err(FeatureControlProviderError::PersistenceDiverged))
    );
    let stored = RuntimeDndMutationOutcome { previous: features(), current: features() };
    let (tasks, told) = finish_forwarding_mutation(outcome(), ForwardingStored::Stored(stored));
    assert_eq!(tasks, vec![FeatureTask::PublishFeatures, FeatureTask::PublishChanges]);
    assert!(matches!(
        told,
        Ok(chan_sccp2::management::FeatureControlOutcome::Forwarding { changed: false, .. })
    ));
    let changed = RuntimeDndMutationOutcome { previous: features(), current: features() };
    assert!(matches!(
        dnd_control_outcome(station(), Ok(changed)),
        Ok(chan_sccp2::management::FeatureControlOutcome::Dnd { changed: false, .. })
    ));
    assert_eq!(
        dnd_control_outcome(station(), Err(RuntimeDndMutationError::ButtonNotFound)),
        Err(FeatureControlProviderError::DeviceNotFound)
    );
    assert_eq!(service_reply(None, 5), Err::<u8, i32>(5));
    assert!(access.feature_control_provider().access().is_ok());
    let stopped = RuntimeFeatureControlProvider { access: None };
    assert_eq!(stopped.access(), Err(FeatureControlProviderError::Unavailable));
}

#[test]
fn handsets_of_calls_are_told() {
    let access = access();
    let call = || Some(HandsetCall { device_id: station(), call_id: CallId(7) });
    let messages = RuntimeHandsetMessageProvider { access: Some(&access) };
    let message = || HandsetStatusMessage::DoNotDisturb(DndMode::Off);
    let sent = messages.apply(true, call(), message()).unwrap();
    assert!(matches!(sent.action, PhoneCommandAction::SetStatusMessage { beep: false, .. }));
    assert_eq!(
        messages.apply(false, call(), message()),
        Err(HandsetProviderError::NotDriverChannel)
    );
    assert_eq!(messages.apply(true, None, message()), Err(HandsetProviderError::Unavailable));
    let gone = Some(HandsetCall { device_id: DeviceId::named("SEP0"), call_id: CallId(7) });
    assert_eq!(messages.apply(true, gone, message()), Err(HandsetProviderError::NotRegistered));
    let indications = RuntimeHandsetCallIndicationProvider { access: Some(&access) };
    let busy = indications.apply(true, call(), HandsetCallIndication::Busy).unwrap();
    assert_eq!(busy.len(), 1);
    assert!(matches!(
        busy[0].action,
        PhoneCommandAction::SetCallState { state: PhoneCallState::Busy, .. }
    ));
    let unavailable =
        indications.apply(true, call(), HandsetCallIndication::Unavailable).unwrap();
    assert_eq!(unavailable.len(), 2);
}

#[test]
fn called_parties_are_replaced_step_by_step() {
    let access = access();
    let party =
        CalledPartyOverride { name: Some("Front desk".to_owned()), number: "4000".to_owned() };
    let provider = RuntimeCalledPartyProvider { shared: Some(&access.shared) };
    assert_eq!(
        provider.replace(None, &party),
        Err(CalledPartyProviderError::NotDriverChannel)
    );
    assert_eq!(
        provider.replace(Some(false), &party),
        Err(CalledPartyProviderError::Unavailable)
    );
    let gone = RuntimeCalledPartyProvider { shared: None };
    assert_eq!(gone.replace(Some(true), &party), Err(CalledPartyProviderError::Unavailable));
    let told = ConnectedLineUpdate {
        party: PartyIdentity {
            name: Some("Front desk".to_owned()),
            number: Some("4000".to_owned()),
            name_charset: NameCharset::Utf8,
            name_presentation: Presentation::AllowedNotScreened,
            number_plan: NumberPlan::Unknown,
            number_presentation: Presentation::AllowedNotScreened,
        },
        private_party: None,
        source: ConnectedLineSource::Unknown,
    };
    assert_eq!(provider.replace(Some(true), &party).as_ref(), Ok(&told));
    assert_eq!(replace_called_party(Some(true), &party), Ok(told));
    assert_eq!(
        finish_called_party(false, true),
        Err(CalledPartyProviderError::NativeRejected)
    );
    assert_eq!(
        finish_called_party(true, false),
        Err(CalledPartyProviderError::HandsetRejected)
    );
    assert_eq!(finish_called_party(true, true), Ok(()));
    let info = chan_sccp2::effects::CallInfo {
        direction: CallDirection::Outbound,
        calling_name: "Desk".to_owned(),
        calling_number: "1001".to_owned(),
        called_name: "Old".to_owned(),
        called_number: "1".to_owned(),
        party_restrictions: 0,
    };
    let party = CalledPartyOverride { name: None, number: "4000".to_owned() };
    let shown = called_party_info(&info, &party);
    assert_eq!((shown.called_name.as_str(), shown.called_number.as_str()), ("", "4000"));
    assert_eq!(shown.calling_name, "Desk");
    let effects = vec![
        DriverEffect::Backend(PbxEffect::Resume { call_id: PbxCallId(1) }),
        DriverEffect::Handset(HandsetEffect::SetCallInfo {
            device_id: station(),
            call_id: CallId(7),
            info: shown,
        }),
    ];
    let commands = called_party_commands(&effects);
    assert_eq!(commands.len(), 1);
    assert_eq!(commands[0].device_id, station());
    assert!(matches!(
        &commands[0].action,
        PhoneCommandAction::SetCallInfo { call_id: CallId(7), info }
            if info.called_number == "4000"
    ));
}

#[test]
fn the_command_line_shows_features_without_destinations() {
    let lines = cli_features(&features());
    let shown: Vec<(String, InventoryValue)> =
        lines.into_iter().map(|feature| (feature.name, feature.value)).collect();
    let public = |text: &str| InventoryValue::Public(text.to_owned());
    assert_eq!(
        shown,
        vec![
            ("dnd".to_owned(), public("silent")),
            ("privacy".to_owned(), public("on")),
            ("forward-all".to_owned(), public("on")),
            ("forward-busy".to_owned(), public("off")),
            ("forward-no-answer".to_owned(), public("off")),
            ("button:6".to_owned(), public("on")),
            ("button:7".to_owned(), public("off")),
        ]
    );
}

#[test]
fn the_command_line_tells_capabilities_apart() {
    let mut access = access();
    let inventory = || {
        Some(InventorySnapshot {
            devices: vec![
                InventoryDevice { id: station() },
                InventoryDevice { id: DeviceId::named("SEP0") },
            ],
        })
    };
    let status = |access: &Access| Some(status_snapshot(&access.shared.controller, &vec![], &vec![]));
    let now = status(&access);
    let shown = runtime_cli_inventory_snapshot(&access, inventory(), now).unwrap();
    assert_eq!(shown.device_runtime[0].capability_status, CliCapabilityStatus::Ready);
    assert_eq!(shown.device_runtime[0].capabilities[0].max_packet_ms, 40);
    assert_eq!(shown.device_runtime[1].capability_status, CliCapabilityStatus::Unavailable);
    assert_eq!(shown.channels[0].call_id, Some(7));
    access.shared.controller.registered[0].capabilities = None;
    let now = status(&access);
    let shown = runtime_cli_inventory_snapshot(&access, inventory(), now).unwrap();
    assert_eq!(shown.device_runtime[0].capability_status, CliCapabilityStatus::Pending);
    access.shared.controller.registered[0].capabilities = Some(StationMediaCapabilities::default());
    let now = status(&access);
    let shown = runtime_cli_inventory_snapshot(&access, inventory(), now).unwrap();
    assert_eq!(shown.device_runtime[0].capability_status, CliCapabilityStatus::ReportedEmpty);
    let error = runtime_cli_inventory_snapshot(&access, inventory(), None).unwrap_err();
    assert_eq!(error.text(), "CLI inventory is unavailable");
    assert_eq!(
        render_runtime_cli_inventory(Err(error), Ok("text".to_owned())),
        Err(RuntimeCliInventoryError::Unavailable)
    );
    let refused = CliInventoryError { message: "no such device".to_owned() };
    let refused = render_runtime_cli_inventory(Ok(()), Err(refused)).unwrap_err();
    assert_eq!(refused.text(), "no such device");
    assert_eq!(
        complete_runtime_cli_inventory(Ok(()), Some("SEP".to_owned())),
        Some("SEP".to_owned())
    );
}

#[test]
fn station_names_are_completed_in_order() {
    let mut access = access();
    access.shared.config.devices =
        vec![device("SEPc"), device("sepA"), device("SEPb"), device("ATA1")];
    let complete = |prefix: &str, ordinal| complete_configured_device(&access, prefix, ordinal);
    assert_eq!(complete("sep", 0).as_deref(), Some("sepA"));
    assert_eq!(complete("SEP", 1).as_deref(), Some("SEPb"));
    assert_eq!(complete("SEP", 2).as_deref(), Some("SEPc"));
    assert_eq!(complete("SEP", 3), None);
    assert_eq!(complete("", 0).as_deref(), Some("ATA1"));
    assert_eq!(complete("SEP\u{7}", 0), None);
    assert_eq!(complete(&"S".repeat(129), 0), None);
    assert_eq!(complete("SEPcc", 0), None);
}

fn queue(queued: u64) -> QueueSnapshot {
    QueueSnapshot {
        queued,
        outstanding: 2,
        capacity: 64,
        high_water: 9,
        admission_failures: 1,
        expired: 0,
    }
}

fn queues() -> RuntimeQueues {
    RuntimeQueues {
        controls: queue(3),
        services: queue(0),
        ami_publication: queue(0),
        presence: queue(0),
        backgrounds: queue(0),
        parking_callbacks: queue(0),
        dnd_schedules: queue(0),
        controller: queue(0),
        controller_completions: queue(0),
        media: queue(0),
        bridges: queue(0),
        call_delivery: queue(0),
        configuration_transactions: queue(0),
        effect_workers: queue(0),
    }
}

#[test]
fn session_diagnostics_end_with_the_queues() {
    let events = vec![NamedQueue { name: "phone events".to_owned(), queue: queue(5) }];
    let shown = render_runtime_cli_diagnostics(
        CliDiagnosticCommand::Sessions,
        0,
        Ok(()),
        Ok("sessions".to_owned()),
        queues(),
        &events,
    )
    .unwrap();
    assert!(shown.starts_with(
        "sessions\nRuntime queues (admission retained through completion):\n  controls: queued=3 \
         outstanding=2 capacity=64 high-water=9 admission-failures=1 expired=0\n  services: "
    ));
    assert!(shown.ends_with(
        "  phone events: queued=5 outstanding=2 capacity=64 high-water=9 admission-failures=1 \
         expired=0\n"
    ));
    assert_eq!(shown.lines().count(), 2 + 14 + 1);
    let plain = render_runtime_cli_diagnostics(
        CliDiagnosticCommand::Sessions,
        1,
        Ok(()),
        Ok("one".to_owned()),
        queues(),
        &events,
    );
    assert_eq!(plain, Ok("one".to_owned()));
    let error = RuntimeCliDiagnosticError::from(CliDiagnosticError { message: "no".to_owned() });
    assert_eq!(error.text(), "no");
    assert_eq!(RuntimeCliDiagnosticError::Unavailable.text(), "CLI diagnostics are unavailable");
    assert_eq!(
        complete_runtime_cli_diagnostics(
            Err(RuntimeCliDiagnosticError::Unavailable),
            Some("x".to_owned())
        ),
        None
    );
    let access = access();
    let snapshot = runtime_cli_diagnostic_snapshot(
        &access,
        Some(InventorySnapshot { devices: vec![] }),
        Some(status_snapshot(&access.shared.controller, &vec![], &vec![])),
    )
    .unwrap();
    assert_eq!(snapshot.session_calls[0].call_id, CallId(7));
}

#[test]
fn protection_is_settled_once_per_call() {
    let mut access = access();
    assert_eq!(
        audio_encryption_admission(&access, &station(), CallId(7)),
        Ok(AdmissionStep::Retain {
            generation: SessionGeneration(3),
            policy: AudioEncryptionPolicy(1),
            station: AudioEncryptionCapabilities(5),
        })
    );
    assert_eq!(
        audio_encryption_admission(&access, &DeviceId::named("SEP0"), CallId(7)),
        Err("call CallId(7) is not owned by device SEP0".to_owned())
    );
    let settled = AudioEncryptionAdmission {
        policy: AudioEncryptionPolicy(9),
        station: AudioEncryptionCapabilities(5),
        local: AudioEncryptionCapabilities(3),
    };
    access.shared.controller.runtime.push(CallRuntimeRecord {
        pbx_id: PbxCallId(1),
        assigned_channel_id: None,
        audio_packet_ms: None,
        audio_preferences: None,
        audio_encryption: Some(settled),
    });
    access.shared.controller.registered.clear();
    assert_eq!(
        audio_encryption_admission(&access, &station(), CallId(7)),
        Ok(AdmissionStep::Retained(settled))
    );
    access.shared.controller.runtime.clear();
    assert_eq!(
        audio_encryption_admission(&access, &station(), CallId(7)),
        Err("call CallId(7) has no registered station".to_owned())
    );
    assert_eq!(
        audio_encryption_retained(CallId(7), Ok(None)),
        Err("call CallId(7) changed during audio-encryption admission".to_owned())
    );
    assert_eq!(
        audio_encryption_retained(CallId(7), Err("gone".to_owned())),
        Err("audio-encryption owner unavailable: gone".to_owned())
    );
    assert_eq!(admit_clear_audio_media(Ok(()), Ok(MediaEncryptionDecision::Clear)), Ok(()));
    assert_eq!(
        admit_clear_audio_media(
            Ok(()),
            Ok(MediaEncryptionDecision::Encrypted("AES_CM_128".to_owned()))
        ),
        Err("audio media profile AES_CM_128 requires a protected stream adapter".to_owned())
    );
    assert_eq!(
        admit_clear_audio_media(Ok(()), Err("mismatch".to_owned())),
        Err("audio media admission rejected: mismatch".to_owned())
    );
}

fn step(state: ReloadState, outcome: Result<(), String>) -> (ReloadState, ReloadAction) {
    reload_selected_inner(state, ReloadReply::Step(outcome))
}

fn reload_plan(restart: &[&str]) -> ReloadPlan {
    ReloadPlan {
        restart_required: restart.iter().map(|name| (*name).to_owned()).collect(),
        affected: vec![station()],
        added: vec![DeviceId::named("SEP9")],
        mwi_add: vec!["1002".to_owned()],
        mwi_remove: vec!["1001".to_owned()],
    }
}

fn planned(restart: &[&str], pending: bool) -> ReloadReply {
    ReloadReply::Planned {
        plan: reload_plan(restart),
        selection: Ok(()),
        mobility_pending: pending,
    }
}

fn changed_features() -> DeviceFeatures {
    let mut state = features();
    state.privacy = !state.privacy;
    DeviceFeatures { device_id: station(), state }
}

fn to_planning() -> ReloadState {
    let (state, action) = begin_reload();
    assert_eq!(action, ReloadAction::Begin);
    let (state, action) = step(state, Ok(()));
    assert_eq!(action, ReloadAction::Refresh);
    let (state, action) = step(state, Ok(()));
    assert_eq!(action, ReloadAction::StageSchedules);
    let (state, action) = step(state, Ok(()));
    assert_eq!(action, ReloadAction::Plan);
    state
}

fn to_staging_contexts() -> ReloadState {
    let (state, action) = reload_selected_inner(to_planning(), planned(&[], false));
    assert_eq!(action, ReloadAction::LoadFeatures);
    let (state, action) =
        reload_selected_inner(state, ReloadReply::Loaded(Ok(vec![changed_features()])));
    assert_eq!(action, ReloadAction::StageMwi { added: vec!["1002".to_owned()] });
    let (state, action) = reload_selected_inner(
        state,
        ReloadReply::MwiStaged(Ok(vec![station(), DeviceId::named("SEP1")])),
    );
    assert_eq!(
        action,
        ReloadAction::StageContexts {
            registered_after: vec![DeviceId::named("SEP1")],
            registered_before: vec![station(), DeviceId::named("SEP1")],
        }
    );
    state
}

fn to_committing() -> ReloadState {
    let (state, action) = step(to_staging_contexts(), Ok(()));
    assert_eq!(action, ReloadAction::DefineHotline);
    let (state, action) = step(state, Ok(()));
    assert_eq!(
        action,
        ReloadAction::Reconfigure { devices: vec![station(), DeviceId::named("SEP9")] }
    );
    let (state, action) = step(state, Ok(()));
    assert_eq!(
        action,
        ReloadAction::Commit {
            features: vec![changed_features()],
            registered: vec![DeviceId::named("SEP1")],
        }
    );
    state
}

#[test]
fn reloads_prepare_everything_before_they_apply() {
    let previous = vec![DeviceFeatures { device_id: station(), state: features() }];
    let (state, action) = reload_selected_inner(
        to_committing(),
        ReloadReply::Committed(Ok((vec![station()], previous))),
    );
    assert_eq!(action, ReloadAction::CommitContexts { affected: vec![station()] });
    let (state, action) = step(state, Ok(()));
    let applied = match action {
        ReloadAction::Apply(applied) => applied,
        other => panic!("{other:?}"),
    };
    let (state, action) = step(state, Ok(()));
    assert_eq!(state, ReloadState::Done);
    assert_eq!(action, ReloadAction::Succeed);
    let previous = vec![DeviceFeatures { device_id: station(), state: features() }];
    assert_eq!(
        applied,
        AppliedReload {
            plan: reload_plan(&[]),
            registered: vec![station()],
            previous,
            current: vec![changed_features()],
        }
    );
    let tasks = reload_tasks(&applied);
    assert_eq!(
        tasks,
        vec![
            ReloadTask::SetCallAnswerOrder,
            ReloadTask::ConfigureExternalAddress,
            ReloadTask::InstallConfiguration,
            ReloadTask::ReconcileMobility,
            ReloadTask::CommitMwi { removed: &vec!["1001".to_owned()] },
            ReloadTask::ReconcileFeatureStore(&applied.current),
            ReloadTask::UninstallBlf(&station()),
            ReloadTask::PublishFeatures { device: &station(), state: &applied.current[0].state },
            ReloadTask::ReconcileBackgrounds { registered: &applied.registered },
            ReloadTask::PublishFeatureChanges {
                device: &station(),
                previous: &features(),
                current: &applied.current[0].state,
            },
            ReloadTask::InstallSchedules,
            ReloadTask::NoteActivation,
        ]
    );
}

#[test]
fn reloads_that_need_a_restart_are_refused() {
    let (_, action) = reload_selected_inner(to_planning(), planned(&["bind", "tls"], false));
    assert_eq!(
        action,
        ReloadAction::Fail {
            error: "bind, tls changes require a module restart".to_owned(),
            cancel_mwi: false,
            abort_contexts: false,
        }
    );
    let (_, action) = reload_selected_inner(to_planning(), planned(&[], true));
    assert!(matches!(
        action,
        ReloadAction::Fail { error, .. }
            if error == "a mobility mutation is in progress; retry reload"
    ));
}

#[test]
fn refused_commits_are_rolled_back() {
    let (state, action) = reload_selected_inner(
        to_committing(),
        ReloadReply::Committed(Err("busy".to_owned())),
    );
    assert_eq!(action, ReloadAction::DefineFormerHotline);
    let (state, action) = step(state, Ok(()));
    assert_eq!(
        action,
        ReloadAction::ReconfigureFormer { devices: vec![station(), DeviceId::named("SEP9")] }
    );
    let (state, action) = step(state, Err("gone".to_owned()));
    assert_eq!(action, ReloadAction::AbortContexts);
    let (_, action) = step(state, Ok(()));
    assert_eq!(
        action,
        ReloadAction::Fail {
            error: "controller reload commit failed: busy; handset rollback: false; registration \
                    rollback: true"
                .to_owned(),
            cancel_mwi: true,
            abort_contexts: false,
        }
    );
}

#[test]
fn failed_preparations_are_given_up() {
    let (state, _) = reload_selected_inner(to_planning(), planned(&[], false));
    let (_, action) = reload_selected_inner(state, ReloadReply::Loaded(Err("lost".to_owned())));
    assert!(matches!(
        action,
        ReloadAction::Fail { error, cancel_mwi: false, abort_contexts: false }
            if error == "unable to restore reloaded feature state: lost"
    ));
    let (state, _) = step(to_staging_contexts(), Ok(()));
    let (_, action) = step(state, Err("no line".to_owned()));
    assert_eq!(
        action,
        ReloadAction::Fail {
            error: "no line".to_owned(),
            cancel_mwi: true,
            abort_contexts: true,
        }
    );
}

#[test]
fn reloads_are_published_for_stored_objects() {
    let mut access = access();
    assert_eq!(reload(&access).published, None);
    access.shared.config.general.configuration_source = ConfigurationSource::Sorcery;
    assert_eq!(reload(&access).published, Some(ConfigReconciliationTrigger::Reload));
    let request = reload_selected(&access, ReloadSelection::Line("1001".to_owned()));
    assert_eq!(request.selection, ReloadSelection::Line("1001".to_owned()));
    assert_eq!(
        reload_sorcery(ConfigReconciliationTrigger::Observed(4)).published,
        Some(ConfigReconciliationTrigger::Observed(4))
    );
}

#[test]
fn affected_stations_register_again() {
    let plan = ReloadPlan {
        restart_required: vec![],
        affected: vec![station()],
        added: vec![DeviceId::named("SEP9")],
        mwi_add: vec![],
        mwi_remove: vec![],
    };
    assert_eq!(reconfigured_devices(&plan), vec![station(), DeviceId::named("SEP9")]);
    let registered = vec![station(), DeviceId::named("SEP1")];
    assert_eq!(registered_after(&plan, &registered), vec![DeviceId::named("SEP1")]);
    let access = access();
    let removed = vec![MobilityAppearance {
        device_id: station(),
        button_instance: 8,
        binding: binding("SEP001122334455", 2, "2002"),
    }];
    let prompts = vec![CancelledPrompt {
        target: StationTarget {
            device_id: station(),
            session_generation: SessionGeneration(3),
        },
        transaction_id: 4,
    }];
    let tasks = reconcile_mobility_after_reload(&access, 9, &prompts, &removed);
    assert_eq!(tasks.len(), 2);
    match &tasks[0] {
        MobilityReloadTask::Cancel(cancelled) => {
            assert_eq!(cancelled.target, prompts[0].target);
            assert_eq!(cancelled.routing.application_id, 9);
            assert_eq!(cancelled.routing.transaction_id, 4);
        }
        other => panic!("unexpected task {other:?}"),
    }
    match &tasks[1] {
        MobilityReloadTask::Remove(removal) => {
            assert_eq!(removal.line, "2002");
            assert!(matches!(
                removal.command.as_ref().unwrap().action,
                PhoneCommandAction::SetMobilityAppearance {
                    mobility_instance: 8,
                    appearance_id: None,
                }
            ));
        }
        other => panic!("unexpected task {other:?}"),
    }
}

#[test]
fn signals_need_a_channel_and_hangups_always_arrive() {
    let access = access();
    let hangup = RuntimeCallSignalKind::Hangup { handset_call_id: CallId(7) };
    assert!(access.enqueue_call_signal(PbxCallId(1), hangup, false));
    assert!(!access.enqueue_call_signal(PbxCallId(2), hangup, true));
    assert!(!access.enqueue_call_signal(PbxCallId(1), RuntimeCallSignalKind::Ringing, false));
    assert!(access.enqueue_call_signal(PbxCallId(1), RuntimeCallSignalKind::Ringing, true));
    assert!(access.enqueue_confirmed_answer_signal(PbxCallId(1), true));
    assert_eq!(
        access.spawn_phone(Err("full".to_owned())),
        Some("unable to enqueue SCCP command: full".to_owned())
    );
}

#[test]
fn configurations_are_found_where_they_are_named() {
    assert_eq!(config_path(Some("/tmp/a.conf"), Some("/etc")), "/tmp/a.conf");
    assert_eq!(config_path(None, Some("/srv/asterisk")), "/srv/asterisk/sccp.conf");
    assert_eq!(config_path(None, Some("/srv/")), "/srv/sccp.conf");
    assert_eq!(config_path(None, None), "/etc/asterisk/sccp.conf");
}

#[test]
fn starting_undoes_what_it_set_up_when_it_fails() {
    let steps = start_steps();
    assert_eq!(steps[0], StartStep::Runtime);
    let mut current = steps[0];
    let mut seen = vec![current];
    while let StartAction::Continue(next) = Module::start(current, Ok(())) {
        current = next;
        seen.push(current);
    }
    assert_eq!(seen, steps);
    match Module::start(StartStep::Controller, Err("no thread".to_owned())) {
        StartAction::Fail { error, undo } => {
            assert_eq!(error, "unable to start controller owner: no thread");
            assert_eq!(undo, vec![StartStep::Media, StartStep::Bridges, StartStep::Parking]);
        }
        _ => panic!("the start went on"),
    }
    // The list of management actions is given up from its front.
    match Module::start(StartStep::LineQuery, Err("taken".to_owned())) {
        StartAction::Fail { undo, .. } => assert_eq!(
            undo,
            vec![
                StartStep::DeviceQuery,
                StartStep::Inventory,
                StartStep::Status,
                StartStep::FeatureControl,
                StartStep::Controls,
                StartStep::Services,
                StartStep::Directory,
                StartStep::Configuration,
                StartStep::Controller,
                StartStep::Media,
                StartStep::Bridges,
                StartStep::Parking,
            ]
        ),
        other => panic!("unexpected action {other:?}"),
    }
    match Module::start(StartStep::Bind, Err("in use".to_owned())) {
        StartAction::Fail { error, undo } => {
            assert_eq!(error, "in use");
            assert!(undo.is_empty());
        }
        _ => panic!("the start went on"),
    }
    assert_eq!(Module::start(StartStep::CallIndication, Ok(())), StartAction::Run);
}

#[test]
fn stopping_ends_with_the_controller() {
    let module = Module { access: access() };
    assert!(module_access(Some(&module)).is_some());
    assert!(module_access(None).is_none());
    let steps = module.stop();
    assert_eq!(steps[0], StopStep::SuspendAllocations);
    assert_eq!(steps[steps.len() - 1], StopStep::JoinController);
    let place = |step| steps.iter().position(|other| *other == step).unwrap();
    assert!(place(StopStep::JoinSignals) < place(StopStep::ShutDownRemoteHangups));
    assert!(place(StopStep::ShutDownRemoteHangups) < place(StopStep::ShutDownTransport));
    assert_eq!(
        stop_failure(StopStep::JoinParking, "gone"),
        Some("parking event owner failed during unload: gone".to_owned())
    );
    assert_eq!(
        stop_failure(StopStep::JoinMedia, "gone"),
        Some("media owner failed during unload".to_owned())
    );
    assert_eq!(stop_failure(StopStep::ShutDownConferences, "gone"), None);
    assert_eq!(worker_failures(0), None);
    assert_eq!(worker_failures(2), Some("2 runtime workers failed before unload".to_owned()));
}

#[test]
fn policies_are_carried_over_to_the_transport() {
    assert_eq!(
        registration_tokens(FallbackRegistration {
            decision: FallbackDecision::Accept,
            backoff_seconds: 60,
            server_priority: 1,
        })
        .fallback,
        RegistrationFallback::ReturnToPrimary
    );
    assert_eq!(
        RegistrationFallback::from(FallbackDecision::DeviceIdOdd),
        RegistrationFallback::DeviceIdOdd
    );
    assert_eq!(
        CallSelectionOrder::from(CallAnswerOrder::LastFirst),
        CallSelectionOrder::LastFirst
    );
    let state = ChannelState { pbx_id: PbxCallId(4), sccp_id: CallId(9) };
    assert_eq!(ChannelState::from(ChannelIdentity::from(state)), state);
    let mut config = config();
    assert!(overlap_devices(&config).is_empty());
    config.devices[0].allow_overlap = true;
    assert_eq!(overlap_devices(&config).len(), 1);
    config.line_features.push(LineFeatures {
        line: "1001".to_owned(),
        voicemail_number: None,
        voicemail_divert: None,
        pickup: PickupConfig {
            call_groups: Vec::new(),
            pickup_groups: Vec::new(),
            named_call_groups: Vec::new(),
            named_pickup_groups: Vec::new(),
            directed: true,
            directed_context: None,
            answer_directed: true,
        },
        parking_lot: None,
        dial_tones: DialTones { inside: 33, outside: 34 },
        incoming_limit: Some(4),
    });
    let policy = controller_policy(&config);
    assert_eq!(policy.first_digit_timeout_ms, 16000);
    assert_eq!(policy.interdigit_timeout_ms, 8000);
    assert_eq!(policy.dial_terminator, Some('#'));
    assert!(policy.simulated_enbloc);
    assert_eq!(policy.overlap_devices[0].id, station());
    assert_eq!(policy.dial_tones[0].line, "1001");
    assert_eq!(policy.dial_tones[0].tones, &DialTones { inside: 33, outside: 34 });
    assert_eq!(policy.incoming_limits[0].limit, Some(4));
    let settings = server_settings(&config, Ok(Some(DialDigit(12))), Ok(None)).unwrap();
    assert_eq!(settings.server_name, "switch");
    assert_eq!(settings.firmware_version, "");
    assert_eq!(settings.dial_terminator, Some(DialDigit(12)));
    assert_eq!(settings.registration_tokens.fallback, RegistrationFallback::Reject);
    assert_eq!(settings.call_answer_order, CallSelectionOrder::OldestFirst);
    assert_eq!(
        server_settings(&config, Err("digit".to_owned()), Err("line".to_owned())),
        Err("digit".to_owned())
    );
    assert_eq!(
        server_settings(&config, Ok(None), Err("line".to_owned())),
        Err("line".to_owned())
    );
}

#[test]
fn sockets_are_bound_and_accepted_in_order() {
    assert_eq!(bind_runtime_listeners(Ok(()), None), Ok(false));
    assert_eq!(bind_runtime_listeners(Ok(()), Some(Ok(()))), Ok(true));
    assert_eq!(
        bind_runtime_listeners(Err("in use".to_owned()), None),
        Err("unable to bind clear signaling listener: in use".to_owned())
    );
    assert_eq!(
        bind_runtime_listeners(Ok(()), Some(Err("in use".to_owned()))),
        Err("unable to bind secure signaling listener: in use".to_owned())
    );
    assert_eq!(accept_station_socket("clear", Ok(()), Ok(()), Ok(())), Ok(()));
    assert_eq!(
        accept_station_socket("clear", Ok(()), Err("closed".to_owned()), Err("x".to_owned())),
        Err("unable to configure clear signaling socket: closed".to_owned())
    );
}
