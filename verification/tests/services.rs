//! Services around calls: conferences, transfers, parking, bridges, recordings,
//! backgrounds, schedules and presence.

#![allow(dead_code)]

use chan_sccp2::access::{enter_channel, Access, ChannelBinding, Shared};
use chan_sccp2::config::{
    AdvertisedAddresses, ConferenceConfig, ConfigurationSource, DeviceConfig, DndButton,
    DndButtonMode, FeatureDefaults, GeneralConfig, GeneralNetwork, ModuleConfig, ParkingLotButton,
    ParkingRetrievalBehavior, SignalingConfig,
};
use chan_sccp2::ids::{CallId, DeviceId, PbxCallId, SessionGeneration};
use chan_sccp2::lifecycle::{CallAnswerOrder, FallbackDecision, FallbackRegistration};
use chan_sccp2::model::{
    AppearanceRingMode, AudioEncryptionCapabilities, AudioEncryptionPolicy, AudioFraming,
    AudioProcessingPolicy, CallAppearance, CallDirection, CallMetadata, CallState, Codec,
    ControllerSnapshot, DeviceRegistration, DtmfMode, IpAddress, LineAppearance, LineBinding,
    LineConfig, MediaCapability, MediaPolicy, MediaStreamState, NatMode, NetworkPolicy, PbxCall,
    QosMark, QosPolicy, RegisteredDevice, StationMediaCapabilities, StationTransport,
    VideoMediaState, VideoMode, VideoStreamState,
};
use chan_sccp2::backend::{AsteriskBackendError, CallFeatureError, ServiceProviderError};
use chan_sccp2::background::{
    background_cli_result, background_reply, execute_background_cli, finish_set_background,
    parse_operation, reconcile_background, reset_background, set_background, show_background,
    BackgroundCli, BackgroundCliOperation, BackgroundCliStep, BackgroundReconciliation,
    BackgroundReply, BackgroundRuntime, BackgroundRuntimeError, ReconciledBackground,
    EffectiveBackground, ResolvedDeviceBackground, StationBackground,
};
use chan_sccp2::bridge::{
    BridgeAction, BridgeCompletion, BridgeReply, BridgeResource, BridgeSession, BridgeState,
    BridgeStep, OperationId,
};
use chan_sccp2::call_control::BargeMode;
use chan_sccp2::call_service::{
    begin_pickup, continue_parking, parking, pickup, ParkingOperation, ParkingReply, ParkingState,
    ParkingStep, PickupOperation, PickupReply,
};
use chan_sccp2::commands::{PhoneCommand, PhoneCommandAction};
use chan_sccp2::conference::{
    barge_rejection_prompt, compensation, conference_rejection_prompt, execute_conference_merge_effect,
    finish_conference_end, finish_mute, handle_barge_soft_key, show_conference_list,
    BargeKeyAction, BargeRejection, ConferenceAnnouncement, ConferenceEndRejection,
    ConferenceParticipant, ConferencePhase, ConferenceRejection, ConferenceRequest,
    ConferenceSession, MergeAttempt, MergeError, MergeEvent,
};
use chan_sccp2::config::{DndSchedule, DndScheduleMode};
use chan_sccp2::dnd_schedule::{
    asterisk_timing_spec, dnd_mutation_error_name, execute_dnd_schedule_cli, format_minute,
    mutate_schedule, phase, rule_matches, run_dnd_schedule_tick, runtime_dnd_mode_name,
    schedule_reply, show_schedule, DeviceDndSchedule, DndSchedulePhase, DndScheduleLimits,
    DndScheduleRegistry, DndScheduleSegment, DndScheduleSource, DueTransition, RuleChecks,
    ScheduleCli, ScheduleMutation, ScheduleReply, ScheduleRequest,
};
use chan_sccp2::effects::{
    BridgeOperation, DriverEffect, PbxEffect, TransactionId, TransferCompletion,
    TransferCompletionKind, TransferLeg,
};
use chan_sccp2::events::{PhoneDeviceEvent, PhoneDeviceEventKind, SoftKey};
use chan_sccp2::features::RuntimeDndMutationError;
use chan_sccp2::ids::{ConferenceId, ParticipantId, PbxBridgeId};
use chan_sccp2::mobility::{
    apply_mobility_transaction, begin_mobility_transaction, configured_mobility_button,
    handle_mobility_button, mobility_change, restore_mobility_appearances, MobilityButtonStep,
    MobilityChange, MobilitySlot, MobilityTransactionAction, MobilityTransactionState,
};
use chan_sccp2::config::{ButtonDefinition, ButtonType};
use chan_sccp2::model::{DndMode, MobilityAppearance};
use chan_sccp2::parking::{
    begin_parking_retrieval, continue_parking_retrieval, finish_park_request,
    handle_parking_lot_button, parking_menu_entries, parking_retrieval_call_info, ParkedCall,
    ParkingButtonAction, Retrieval, RetrievalAction, RetrievalBegun, RetrievalReply,
    RetrievalState,
};
use chan_sccp2::presence::{DeviceState, MwiSubscription};
use chan_sccp2::presence_owner::{
    registration_reply, retire_registration_contexts, ConfigVersion, MwiUpdate, PresenceLoop,
    PresenceOwner, PresenceTurn, RegistrationRegistryError, StageAnswer, StageFinish, StageId,
    StagedMwiSubscriptions,
};
use chan_sccp2::prompts::Prompt;
use chan_sccp2::recording::{
    enqueue_recording_eligibility, recording_woken, start_recording, take_recording_triggers,
    AsteriskRecordingServiceError, ConfirmedRecordingAnchor, MediaAnchorLease, RecordedCall,
    RecordingError, RecordingWake, RuntimeRecordingSession, RuntimeRecordingTriggerQueue,
    RuntimeRecordings,
};
use chan_sccp2::session::{
    handle_session_event, prepare_session_event, SessionPreparation, SessionReply, SessionRoute,
};
use chan_sccp2::transfer::{
    cancel_transfer, finish_transfer_completion, handle_transfer_hangup, handle_transfer_soft_key,
    CompletionStep, TransferHangup, TransferKeyAction, TransferMode, TransferPhase,
    TransferTransaction,
};
use chan_sccp2::voicemail::{
    continue_voicemail_plan, execute_voicemail_plan, handle_voicemail_soft_key, voicemail_line,
    VoicemailAction, VoicemailCompletion, VoicemailKeyAction, VoicemailPlan, VoicemailReply,
    VoicemailState, VoicemailTransaction,
};

fn mark(dscp: u8) -> QosMark {
    QosMark { dscp, cos: 5 }
}

fn qos() -> QosPolicy {
    QosPolicy { signaling: mark(24), audio: mark(46), video: mark(34) }
}

fn media(codecs: Vec<Codec>) -> MediaPolicy {
    MediaPolicy {
        codecs,
        dtmf_mode: DtmfMode::Rfc2833,
        audio_processing: AudioProcessingPolicy { echo_cancellation: true, silence_suppression: false },
        early_media: true,
        direct_media: true,
        video_mode: VideoMode::Auto,
        audio_encryption: AudioEncryptionPolicy(1),
    }
}

fn line(number: &str) -> LineConfig {
    LineConfig {
        number: number.to_owned(),
        label: "Desk".to_owned(),
        context: "from-sccp".to_owned(),
        caller_name: "Desk".to_owned(),
        caller_number: number.to_owned(),
        mailbox: Some(format!("{number}@default")),
        language: "en".to_owned(),
        account_code: None,
        channel_variables: Vec::new(),
    }
}

fn binding(device: &str, instance: u32, number: &str) -> LineBinding {
    LineBinding {
        device_id: DeviceId::named(device),
        line_instance: instance,
        appearance: LineAppearance {
            id: 10 + instance,
            label: "Desk".to_owned(),
            ring_mode: AppearanceRingMode::Normal,
            privacy: false,
            subscription_identity: None,
        },
        line: line(number),
        media: Some(media(vec![Codec::G722, Codec::Pcma, Codec::Pcmu])),
        hotline: None,
        conference_dialing: None,
    }
}

fn device(name: &str) -> DeviceConfig {
    DeviceConfig {
        id: DeviceId::named(name),
        description: "Reception".to_owned(),
        channel_variables: Vec::new(),
        lines: vec!["1001".to_owned()],
        buttons: Vec::new(),
        blf_targets: Vec::new(),
        dnd_buttons: vec![DndButton { instance: 3, mode: DndButtonMode::Silent }],
        recording_buttons: vec![4],
        dnd_schedules: Vec::new(),
        parking_enabled: true,
        parking_buttons: vec![ParkingLotButton {
            instance: 5,
            lot: "lobby".to_owned(),
            retrieval: ParkingRetrievalBehavior::RetrieveSingle,
        }],
        feature_defaults: FeatureDefaults {
            dnd_enabled: true,
            privacy_enabled: true,
            forward_all_enabled: true,
            forward_busy_enabled: false,
            forward_no_answer_enabled: true,
        },
        network: NetworkPolicy { nat: NatMode::Auto, qos: qos() },
        conference: ConferenceConfig {
            allowed: true,
            show_conference_list: true,
            music_on_hold_class: "default".to_owned(),
            mute_on_entry: false,
            play_general_announcements: true,
            play_participant_announcements: true,
        },
        allow_overlap: false,
    }
}

fn signaling() -> SignalingConfig {
    SignalingConfig {
        clear_listener: None,
        advertised_address: None,
        server_name: "switch".to_owned(),
        keepalive_seconds: 60,
        secondary_keepalive_seconds: 60,
        signaling_servers: Vec::new(),
        fallback_registration: FallbackRegistration {
            decision: FallbackDecision::Reject,
            backoff_seconds: 30,
            server_priority: 1,
        },
        dial_terminator: Some('#'),
        record_dial_terminator: false,
        simulate_enbloc: true,
        first_digit_timeout_ms: 16000,
        interdigit_timeout_ms: 8000,
        call_answer_order: CallAnswerOrder::OldestFirst,
        timezone_offset_minutes: 0,
        date_template: "D.M.Y".to_owned(),
    }
}

fn config() -> ModuleConfig {
    ModuleConfig {
        general: GeneralConfig {
            configuration_source: ConfigurationSource::File,
            bind: IpAddress::V4(0),
            codecs: vec![Codec::Pcma, Codec::Pcmu],
            qos: qos(),
            network: GeneralNetwork {
                nat: NatMode::Off,
                local_networks: Vec::new(),
                advertised: AdvertisedAddresses { ipv4: None, ipv6: None },
            },
            jitter_buffer_forced: false,
            transfer_on_hangup: true,
            audio_processing_default: AudioProcessingPolicy {
                echo_cancellation: false,
                silence_suppression: false,
            },
            audio_framing_default: AudioFraming { packet_ms: 20, max_frames_per_packet: 1 },
            timezone: None,
            audio_encryption: AudioEncryptionPolicy(7),
            signaling: signaling(),
        },
        devices: vec![device("SEP001122334455")],
        lines: vec![line("1001")],
        line_features: Vec::new(),
        bindings: vec![binding("SEP001122334455", 1, "1001")],
        guest_bindings: vec![binding("SEPGUEST00000", 1, "guest")],
    }
}

fn registered(name: &str) -> RegisteredDevice {
    RegisteredDevice {
        id: DeviceId::named(name),
        session_generation: SessionGeneration(3),
        registration: DeviceRegistration {
            id: DeviceId::named(name),
            device_type: 436,
            protocol: 20,
            peer: IpAddress::V4(0x0a00_0001),
            reported_address: None,
            firmware: "9.4".to_owned(),
            transport: StationTransport::Clear,
        },
        capabilities: Some(StationMediaCapabilities::from_audio(vec![MediaCapability {
            codec: Codec::G722,
            max_packet_ms: 40,
            codec_parameters: [0; 8],
        }])),
        audio_encryption: AudioEncryptionCapabilities(5),
        selected_calls: Vec::new(),
        selected_line: None,
    }
}

fn appearance(call: u64, pbx: u64, device: &str, state: CallState) -> CallAppearance {
    CallAppearance {
        sccp_id: CallId(call),
        pbx_id: PbxCallId(pbx),
        device_id: DeviceId::named(device),
        line_instance: 1,
        state,
        privacy: false,
        party_restrictions: 0,
        codec: Codec::G722,
        audio: MediaStreamState::Closed,
        audio_transmit: MediaStreamState::Closed,
        video: VideoMediaState {
            receive: VideoStreamState::Closed,
            transmit: VideoStreamState::Closed,
        },
    }
}

fn pbx_call(pbx: u64, state: CallState) -> PbxCall {
    PbxCall {
        pbx_id: PbxCallId(pbx),
        line: "1001".to_owned(),
        context: "from-sccp".to_owned(),
        state,
        direction: CallDirection::Outbound,
        digits: "4000".to_owned(),
        privacy: false,
        metadata: CallMetadata {
            ani: Some("1001".to_owned()),
            ani_visible: true,
            rdnis: None,
            rdnis_visible: true,
            dnid: None,
            account_code: None,
            language: None,
            variables: Vec::new(),
        },
        active_call_id: Some(CallId(7)),
        conference_id: None,
        barged: false,
    }
}

fn access() -> Access {
    Access {
        shared: Shared {
            config: config(),
            controller: ControllerSnapshot {
                registered: vec![registered("SEP001122334455")],
                features: Vec::new(),
                calls: vec![pbx_call(1, CallState::Connected)],
                appearances: vec![appearance(7, 1, "SEP001122334455", CallState::Connected)],
                runtime: Vec::new(),
                mobility: Vec::new(),
                forwarding_entries: Vec::new(),
            },
            channels: vec![ChannelBinding {
                handle: 1,
                pbx_id: PbxCallId(1),
                closed: false,
                name: Some("SCCP/1001-1".to_owned()),
            }],
            retired: Vec::new(),
            destinations: Vec::new(),
            anchored: Vec::new(),
        },
    }
}

fn station() -> DeviceId {
    DeviceId::named("SEP001122334455")
}

fn prompt_of(command: &PhoneCommand) -> Prompt {
    match command.action {
        PhoneCommandAction::DisplayPrompt { prompt, .. } => prompt,
        _ => panic!("the command shows no prompt"),
    }
}

#[test]
fn voicemail_plans_end_in_one_of_three_ways() {
    let access = access();
    let plan = |effects| VoicemailPlan {
        transaction: VoicemailTransaction {
            id: TransactionId(4),
            device_id: station(),
            handset_call_id: CallId(7),
            pbx_call_id: PbxCallId(1),
        },
        effects,
    };
    let routed = plan(vec![
        DriverEffect::Backend(PbxEffect::Hold { call_id: PbxCallId(1) }),
        DriverEffect::Backend(PbxEffect::Voicemail { call_id: PbxCallId(1) }),
    ]);
    let line = voicemail_line(&access, &routed);
    assert_eq!(line, Some(&access.shared.controller.calls[0].line));
    let (state, action) = execute_voicemail_plan(&routed, true);
    assert_eq!(action, VoicemailAction::Route { call_id: PbxCallId(1) });
    assert_eq!(
        execute_voicemail_plan(&routed, false),
        (VoicemailState::Done, VoicemailAction::Finish)
    );
    assert_eq!(
        execute_voicemail_plan(&plan(Vec::new()), true),
        (VoicemailState::Done, VoicemailAction::Abort)
    );
    let go_on = |state, reply| continue_voicemail_plan(&routed.transaction, line, state, reply);
    assert!(matches!(
        go_on(state, VoicemailReply::Routed(false)),
        (VoicemailState::Done, VoicemailAction::AbortAndShow(shown))
            if prompt_of(&shown) == Prompt::UnableToReachVoicemail
    ));
    let (state, action) = go_on(state, VoicemailReply::Routed(true));
    assert_eq!(action, VoicemailAction::Complete);
    assert_eq!(
        go_on(state, VoicemailReply::Completed(VoicemailCompletion::Committed)),
        (VoicemailState::Done, VoicemailAction::PublishAndExecute { line })
    );
    assert_eq!(
        go_on(state, VoicemailReply::Completed(VoicemailCompletion::CallAlreadyEnded)),
        (VoicemailState::Done, VoicemailAction::Finish)
    );
    // No voicemail is configured for the line.
    assert!(matches!(
        handle_voicemail_soft_key(
            &access,
            station(),
            Some(CallId(7)),
            SoftKey::ImmediateDivert,
            true
        ),
        VoicemailKeyAction::Show(_)
    ));
}

fn session(phase: ConferencePhase) -> ConferenceSession {
    let participant = |id: u32, call: u64, moderator: bool| ConferenceParticipant {
        id: ParticipantId(id),
        handset_call_id: CallId(call),
        pbx_call_id: PbxCallId(call),
        moderator,
        display_name: "Desk".to_owned(),
        number: "1001".to_owned(),
    };
    ConferenceSession {
        id: ConferenceId(2),
        device_id: station(),
        phase,
        original_handset_call_id: CallId(7),
        consultation_handset_call_id: CallId(8),
        consultation_call_id: PbxCallId(8),
        participants: vec![participant(1, 7, true), participant(2, 8, false)],
        pending_invite: None,
    }
}

#[test]
fn barges_need_a_line_and_a_codec() {
    let access = access();
    assert!(matches!(
        handle_barge_soft_key(&access, station(), CallId(7), 9, Some(Codec::Pcma), BargeMode::Directed),
        BargeKeyAction::Ignore
    ));
    match handle_barge_soft_key(&access, station(), CallId(7), 1, None, BargeMode::Directed) {
        BargeKeyAction::Show(shown) => assert_eq!(prompt_of(&shown), Prompt::BargeCodecUnavailable),
        _ => panic!("the barge was not refused"),
    }
    assert!(matches!(
        handle_barge_soft_key(&access, station(), CallId(7), 1, Some(Codec::Pcma), BargeMode::Directed),
        BargeKeyAction::Barge { codec: Codec::Pcma, mode: BargeMode::Directed, .. }
    ));
    assert_eq!(barge_rejection_prompt(BargeRejection::Private), Prompt::PrivateCall);
    assert_eq!(
        conference_rejection_prompt(ConferenceRequest::Start, ConferenceRejection::Disabled),
        Prompt::ConferenceDisabled
    );
}

#[test]
fn conference_lists_and_ends_are_refused_with_words() {
    let refused = show_conference_list(None, station(), CallId(7)).unwrap();
    assert_eq!(prompt_of(&refused), Prompt::NoActiveConference);
    let active = session(ConferencePhase::Active);
    assert_eq!(show_conference_list(Some(&active), station(), CallId(7)), None);
    assert_eq!(finish_conference_end(&active, None), None);
    assert!(finish_conference_end(&active, Some(ConferenceEndRejection::NotModerator)).is_some());
    let end = finish_mute(ParticipantId(2), true, true);
    assert_eq!(end.announce, Some(ConferenceAnnouncement::ParticipantMuted(ParticipantId(2))));
    assert_eq!(end.outcome, Ok(()));
    assert!(finish_mute(ParticipantId(2), true, false).outcome.is_err());
}

#[test]
fn compensation_takes_the_done_effects_back_in_reverse() {
    let music = |call: u64, enabled: bool| {
        DriverEffect::Backend(PbxEffect::Bridge {
            operation: BridgeOperation::SetParticipantMusicOnHold {
                bridge_id: PbxBridgeId(1),
                participant_id: ParticipantId(call as u32),
                call_id: PbxCallId(call),
                class: "default".to_owned(),
                enabled,
            },
        })
    };
    let hold = DriverEffect::Backend(PbxEffect::Hold { call_id: PbxCallId(9) });
    let effects = vec![music(1, true), hold, music(2, true), music(3, true)];
    assert_eq!(compensation(&effects, 3), vec![music(2, false), music(1, false)]);
    assert!(compensation(&effects, 0).is_empty());
}

#[test]
fn merging_waits_a_moment_for_the_bridge() {
    let merge = DriverEffect::Backend(PbxEffect::Bridge {
        operation: BridgeOperation::MergeCalls { bridge_id: PbxBridgeId(1), call_ids: vec![] },
    });
    assert_eq!(
        execute_conference_merge_effect(&merge, &MergeEvent::Succeeded),
        MergeAttempt::Succeeded
    );
    let failed =
        |error, elapsed_ms, active| MergeEvent::Failed { error, elapsed_ms, active };
    assert_eq!(
        execute_conference_merge_effect(&merge, &failed(MergeError::Other, 0, true)),
        MergeAttempt::Failed
    );
    let missing = || MergeError::NotFound { operation: "merge conference consultation" };
    assert_eq!(
        execute_conference_merge_effect(&merge, &failed(missing(), 0, true)),
        MergeAttempt::Failed
    );
    let consultation = DriverEffect::Backend(PbxEffect::Bridge {
        operation: BridgeOperation::MergeConsultation {
            bridge_id: PbxBridgeId(1),
            original_call_id: PbxCallId(1),
            consultation_call_id: PbxCallId(2),
        },
    });
    assert_eq!(
        execute_conference_merge_effect(&consultation, &failed(missing(), 999, true)),
        MergeAttempt::Wait { interval_ms: 20 }
    );
    assert_eq!(
        execute_conference_merge_effect(&consultation, &failed(missing(), 1000, true)),
        MergeAttempt::Failed
    );
    assert_eq!(
        execute_conference_merge_effect(&consultation, &failed(missing(), 0, false)),
        MergeAttempt::Stale
    );
    // The reservation has to hold after the wait, too.
    for (active, attempt) in [(true, MergeAttempt::Retry), (false, MergeAttempt::Stale)] {
        assert_eq!(
            execute_conference_merge_effect(&consultation, &MergeEvent::Waited { active }),
            attempt
        );
    }
}

fn leg(call: u64) -> TransferLeg {
    TransferLeg { handset_call_id: CallId(call), pbx_call_id: PbxCallId(call) }
}

fn transaction(phase: TransferPhase) -> TransferTransaction {
    TransferTransaction {
        id: TransactionId(4),
        device_id: station(),
        phase,
        mode: TransferMode::Consultation,
        source: leg(7),
        consultation: Some(leg(8)),
    }
}

#[test]
fn transfer_keys_prepare_or_complete() {
    let access = access();
    assert!(matches!(
        handle_transfer_soft_key(&access, None, &station(), Some(CallId(7)), 1, Some(Codec::Pcma)),
        TransferKeyAction::Prepare { source_call_id: CallId(7), complete_on_hangup: true, .. }
    ));
    assert!(matches!(
        handle_transfer_soft_key(&access, None, &station(), Some(CallId(7)), 9, Some(Codec::Pcma)),
        TransferKeyAction::Ignore
    ));
    let existing = transaction(TransferPhase::Consulting);
    assert!(matches!(
        handle_transfer_soft_key(
            &access,
            Some(&existing),
            &station(),
            Some(CallId(8)),
            1,
            Some(Codec::Pcma)
        ),
        TransferKeyAction::Complete { .. }
    ));
}

#[test]
fn transfers_in_completion_are_not_cancelled() {
    let completing = transaction(TransferPhase::Completing);
    assert!(matches!(
        handle_transfer_hangup(Some(&completing), station(), CallId(8), true),
        TransferHangup::Defer { .. }
    ));
    let consulting = transaction(TransferPhase::Consulting);
    assert!(matches!(
        handle_transfer_hangup(Some(&consulting), station(), CallId(7), true),
        TransferHangup::Cancel { source_hung_up: true, .. }
    ));
    assert!(matches!(
        handle_transfer_hangup(None, station(), CallId(7), true),
        TransferHangup::NotTransferring
    ));
    assert_eq!(cancel_transfer(&consulting, true), Some(Some(PbxCallId(8))));
    assert_eq!(cancel_transfer(&consulting, false), None);
    let completion = TransferCompletion {
        device_id: station(),
        transaction_id: TransactionId(4),
        kind: TransferCompletionKind::Attended,
        source: leg(7),
        consultation: leg(8),
    };
    assert!(matches!(
        finish_transfer_completion(&completion, true, true),
        CompletionStep::Succeed { source: PbxCallId(7), consultation: PbxCallId(8) }
    ));
    assert!(matches!(
        finish_transfer_completion(&completion, true, false),
        CompletionStep::Abort
    ));
}

fn parked(slot: u32) -> ParkedCall {
    ParkedCall {
        lot: "lobby".to_owned(),
        slot,
        parkee_unique_id: format!("id-{slot}"),
        caller_name: "Alice".to_owned(),
        caller_number: "2000".to_owned(),
        connected_name: "Bob".to_owned(),
        connected_number: "3000".to_owned(),
    }
}

#[test]
fn parking_buttons_park_retrieve_or_list() {
    let access = access();
    assert!(matches!(
        handle_parking_lot_button(&access, &station(), 5, Some(CallId(7)), &vec![]),
        ParkingButtonAction::Park { call_id: CallId(7), lot } if lot == "lobby"
    ));
    assert!(matches!(
        handle_parking_lot_button(&access, &station(), 5, None, &vec![parked(701)]),
        ParkingButtonAction::Retrieve { slot: 701, .. }
    ));
    assert!(matches!(
        handle_parking_lot_button(&access, &station(), 5, None, &vec![parked(701), parked(702)]),
        ParkingButtonAction::ShowMenu { .. }
    ));
    // Calls in other lots do not count.
    let elsewhere = ParkedCall { lot: "roof".to_owned(), ..parked(801) };
    assert!(matches!(
        handle_parking_lot_button(&access, &station(), 5, None, &vec![elsewhere, parked(702)]),
        ParkingButtonAction::Retrieve { slot: 702, .. }
    ));
    assert!(matches!(
        handle_parking_lot_button(&access, &station(), 9, None, &vec![parked(701)]),
        ParkingButtonAction::Ignore
    ));
    let entries = parking_menu_entries(&vec![parked(701), parked(702), parked(703)], 2);
    assert_eq!(entries.iter().map(|entry| entry.slot).collect::<Vec<_>>(), vec![701, 702]);
}

#[test]
fn retrievals_show_the_parked_party() {
    let info = parking_retrieval_call_info(parked(701));
    assert_eq!(info.direction, CallDirection::Inbound);
    assert_eq!(info.calling_name, "Alice");
    assert_eq!(info.called_name, "Bob");
    assert_eq!(info.called_number, "701");
    let mut unnamed = parked(702);
    unnamed.connected_name = String::new();
    assert_eq!(parking_retrieval_call_info(unnamed).called_name, "Parked call 702");
    let access = access();
    let waiting = vec![parked(701)];
    let begin = |codec, lot: &str, slot| {
        begin_parking_retrieval(&access, &station(), 0, codec, &waiting, lot, slot)
    };
    let retrieval = match begin(Some(Codec::Pcma), "lobby", 701) {
        RetrievalBegun::Reserve { line_instance, codec, call } => {
            assert_eq!(call, &waiting[0]);
            Retrieval { device_id: station(), call_id: CallId(9), line_instance, codec }
        }
        other => panic!("unexpected beginning {other:?}"),
    };
    assert_eq!(retrieval.line_instance, 1);
    assert_eq!(
        begin(None, "lobby", 701),
        RetrievalBegun::Fail(ServiceProviderError::CallState)
    );
    for (lot, slot) in [("lobby", 702), ("roof", 701)] {
        assert_eq!(
            begin(Some(Codec::Pcma), lot, slot),
            RetrievalBegun::PublishLot(ServiceProviderError::ParkingNotFound)
        );
    }
    let (state, action) = continue_parking_retrieval(
        &retrieval,
        RetrievalState::Reserving,
        RetrievalReply::Reserved,
    );
    assert!(matches!(action, RetrievalAction::Claim));
    let (state, action) =
        continue_parking_retrieval(&retrieval, state, RetrievalReply::Claimed(true));
    assert!(matches!(action, RetrievalAction::Send(_)));
    // The slot is released where the handset cannot be reached.
    let (state, action) =
        continue_parking_retrieval(&retrieval, state, RetrievalReply::Begun(false));
    assert!(matches!(state, RetrievalState::Done));
    assert!(matches!(action, RetrievalAction::Release(ServiceProviderError::Delivery)));
    let confirmed = finish_park_request(station(), CallId(7), 5, true, None);
    assert_eq!(confirmed.device_id, station());
}

fn roaming() -> MobilityAppearance {
    MobilityAppearance {
        device_id: station(),
        button_instance: 8,
        binding: binding("SEP001122334455", 2, "2002"),
    }
}

#[test]
fn mobility_buttons_log_out_or_ask_for_a_login() {
    let mut access = access();
    let slot = MobilitySlot { device_id: station(), button_instance: 8 };
    assert!(!configured_mobility_button(&access.shared.config, &slot));
    access.shared.config.devices[0].buttons.push(ButtonDefinition::Feature {
        instance: 8,
        feature: ButtonType::Mobility,
    });
    assert!(configured_mobility_button(&access.shared.config, &slot));
    assert_eq!(
        handle_mobility_button(&access, &slot, true, true),
        MobilityButtonStep::ReservePrompt
    );
    assert_eq!(handle_mobility_button(&access, &slot, false, true), MobilityButtonStep::Ignore);
    access.shared.controller.mobility.push(roaming());
    assert_eq!(
        handle_mobility_button(&access, &slot, true, true),
        MobilityButtonStep::PrepareLogout
    );
    assert_eq!(restore_mobility_appearances(&access, &station()).len(), 1);
}

#[test]
fn busy_roaming_lines_stay() {
    let mut access = access();
    let shown = roaming();
    assert!(matches!(mobility_change(&access, station(), Some(&shown)), MobilityChange::Apply));
    let mut call = appearance(9, 2, "SEP001122334455", CallState::Connected);
    call.line_instance = 2;
    access.shared.controller.appearances.push(call);
    assert!(matches!(mobility_change(&access, station(), Some(&shown)), MobilityChange::InUse(_)));
}

#[test]
fn failed_roaming_is_rolled_back() {
    let (state, action) = begin_mobility_transaction();
    assert_eq!(action, MobilityTransactionAction::Write);
    let (state, action) = apply_mobility_transaction(state, true);
    assert_eq!(action, MobilityTransactionAction::Commit);
    let (state, action) = apply_mobility_transaction(state, false);
    assert_eq!(state, MobilityTransactionState::Done);
    assert_eq!(action, MobilityTransactionAction::RollBackAndAbort);
    let (_, action) = apply_mobility_transaction(MobilityTransactionState::Writing, false);
    assert_eq!(action, MobilityTransactionAction::Abort);
}

#[test]
fn pickups_replace_the_channel_of_the_call() {
    let mut access = access();
    let before = access.shared.channels[0].handle;
    let group = PickupOperation::Group { call_id: PbxCallId(1), answer: true };
    assert!(begin_pickup(&access, &group).is_ok());
    let missing = PickupOperation::Group { call_id: PbxCallId(2), answer: true };
    assert!(begin_pickup(&access, &missing).is_err());
    let outcome = pickup(
        &mut access,
        &group,
        PickupReply::PickedUp {
            handle: 90,
            name: Some("SCCP/2000-9".to_owned()),
            parties: ("2000", "3000"),
        },
    );
    assert_eq!(outcome, Ok(("2000", "3000")));
    assert_eq!(access.shared.channels.len(), 1);
    assert_eq!(access.shared.channels[0].name.as_deref(), Some("SCCP/2000-9"));
    assert_eq!(access.shared.channels[0].handle, 90);
    // Whoever held the channel that picked up finds it closed.
    assert_eq!(access.shared.retired.len(), 1);
    assert!(access.shared.retired[0].closed);
    assert_eq!(access.shared.retired[0].handle, before);
    assert!(enter_channel(&access, before).is_none());
    assert!(enter_channel(&access, 90).is_some());
    let refused: Result<(), _> = pickup(
        &mut access,
        &group,
        PickupReply::Refused(CallFeatureError::InvalidInput { operation: "pickup" }),
    );
    assert_eq!(
        refused,
        Err(AsteriskBackendError::CallFeature(CallFeatureError::InvalidInput { operation: "pickup" }))
    );
    assert_eq!(access.shared.retired.len(), 1);
}

#[test]
fn parking_reserves_before_it_parks() {
    let access = access();
    let operation = ParkingOperation::Park { call_id: PbxCallId(1), lot: None };
    let state = parking(&access, &operation).unwrap();
    let (state, step) = continue_parking(&operation, state, ParkingReply::Identified(true));
    assert!(matches!(step, ParkingStep::Reserve));
    let (state, step) = continue_parking(&operation, state, ParkingReply::Reserved(true));
    assert!(matches!(step, ParkingStep::Note | ParkingStep::Perform));
    assert!(!matches!(state, ParkingState::Done));
    let missing = ParkingOperation::Park { call_id: PbxCallId(3), lot: None };
    assert!(matches!(
        parking(&access, &missing),
        Err(AsteriskBackendError::CallUnavailable { .. })
    ));
}

#[test]
fn bridge_sessions_are_lent_to_one_operation() {
    let mut state = BridgeState::new();
    let create = || BridgeAction::Bridge(BridgeOperation::Create { bridge_id: PbxBridgeId(1) });
    let resources = state.admit_operation(OperationId(1), &create());
    assert_eq!(resources, vec![BridgeResource::Bridge(PbxBridgeId(1))]);
    let effect = match state.prepare(OperationId(1), create()) {
        BridgeStep::Effect(effect) => effect,
        BridgeStep::Finished(_) => panic!("nothing was to be done"),
    };
    assert_eq!(effect.bridge, None);
    let outcome = state.complete(
        OperationId(1),
        BridgeCompletion {
            bridge_id: Some(PbxBridgeId(1)),
            bridge: Some(BridgeSession(50)),
            barge: None,
            result: Ok(()),
        },
    );
    assert!(outcome.is_ok());
    assert_eq!(state.snapshot_keys().0, vec![PbxBridgeId(1)]);
    let add = || {
        BridgeAction::Bridge(BridgeOperation::AddParticipant {
            bridge_id: PbxBridgeId(1),
            call_id: PbxCallId(7),
        })
    };
    state.admit_operation(OperationId(2), &add());
    match state.prepare(OperationId(2), add()) {
        BridgeStep::Effect(effect) => assert_eq!(effect.bridge, Some(BridgeSession(50))),
        BridgeStep::Finished(_) => panic!("nothing was to be done"),
    }
}

#[test]
fn created_bridges_are_kept_unless_creation_failed() {
    let mut session = None;
    let create = BridgeOperation::Create { bridge_id: PbxBridgeId(1) };
    assert!(chan_sccp2::bridge::finish_bridge(
        &mut session,
        &create,
        BridgeReply::Created(Ok(BridgeSession(5))),
    )
    .is_ok());
    assert_eq!(session, Some(BridgeSession(5)));
    let mut none = None;
    assert!(chan_sccp2::bridge::finish_bridge(
        &mut none,
        &create,
        BridgeReply::Created(Err(CallFeatureError::Native("no".to_owned()))),
    )
    .is_err());
    assert_eq!(none, None);
    assert!(chan_sccp2::bridge::execute(None).is_err());
}

#[test]
fn recording_triggers_wake_the_owner_once() {
    let mut queue = RuntimeRecordingTriggerQueue::default();
    assert!(enqueue_recording_eligibility(&mut queue, PbxCallId(1)));
    assert!(!enqueue_recording_eligibility(&mut queue, PbxCallId(1)));
    assert!(!recording_woken(&mut queue, RecordingWake::Pending));
    assert_eq!(take_recording_triggers(&mut queue).len(), 1);
    assert!(take_recording_triggers(&mut queue).is_empty());
    enqueue_recording_eligibility(&mut queue, PbxCallId(2));
    assert!(recording_woken(&mut queue, RecordingWake::Closed));
    assert!(take_recording_triggers(&mut queue).is_empty());
}

#[test]
fn recordings_need_a_channel_and_belong_to_their_station() {
    let access = access();
    assert_eq!(start_recording(&access, PbxCallId(1), Some(Ok(9))), Ok(9));
    assert_eq!(
        start_recording(&access, PbxCallId(2), Some(Ok(9))),
        Err(AsteriskRecordingServiceError::CallUnavailable(PbxCallId(2)))
    );
    let failure = RecordingError { reason: "full".to_owned() };
    assert!(matches!(
        start_recording(&access, PbxCallId(1), Some(Err(failure))),
        Err(AsteriskRecordingServiceError::Recording(_))
    ));
    let mut recordings = RuntimeRecordings::default();
    recordings.sessions.push(RecordedCall {
        pbx_id: PbxCallId(1),
        session: RuntimeRecordingSession::new(
            9,
            ConfirmedRecordingAnchor { lease: MediaAnchorLease(4) },
            station(),
            CallId(7),
        ),
    });
    assert_eq!(recordings.owner(PbxCallId(1)).unwrap().handset_call_id, CallId(7));
    let extracted = recordings.extract_calls(&vec![PbxCallId(1)]);
    assert_eq!(extracted.sessions.len(), 1);
    assert!(recordings.owner(PbxCallId(1)).is_none());
    recordings.return_sessions(extracted);
    assert!(recordings.owner(PbxCallId(1)).is_some());
}

fn shown(url: &str) -> Option<ResolvedDeviceBackground> {
    Some(ResolvedDeviceBackground::Display(url.to_owned()))
}

#[test]
fn backgrounds_are_sent_where_they_changed() {
    assert_eq!(
        reconcile_background(Ok(false), Ok(shown("a")), Ok(shown("b"))),
        BackgroundReconciliation::Deliver(ResolvedDeviceBackground::Display("b".to_owned()))
    );
    assert_eq!(
        reconcile_background(Ok(false), Ok(shown("a")), Ok(shown("a"))),
        BackgroundReconciliation::Keep
    );
    assert_eq!(
        reconcile_background(Ok(true), Ok(shown("a")), Ok(shown("b"))),
        BackgroundReconciliation::Keep
    );
    assert_eq!(
        reconcile_background(Err("lost".to_owned()), Ok(None), Ok(None)),
        BackgroundReconciliation::Fail(BackgroundRuntimeError::Store("lost".to_owned()))
    );
    assert_eq!(
        reconcile_background(Ok(false), Ok(None), Err("bad".to_owned())),
        BackgroundReconciliation::Fail(BackgroundRuntimeError::Resolution("bad".to_owned()))
    );
}

#[test]
fn background_numbers_skip_zero() {
    let mut runtime = BackgroundRuntime::new();
    runtime.next_transaction_id = u32::MAX;
    assert_eq!(runtime.next_transaction_id(), u32::MAX);
    assert_ne!(runtime.next_transaction_id(), 0);
    let sent = runtime.deliver(station(), ResolvedDeviceBackground::Display("a".to_owned()));
    assert!(matches!(sent.action, PhoneCommandAction::DisplayBackgroundImage { .. }));
    assert!(background_reply(BackgroundReply::<u8>::QueueFull).is_err());
    assert_eq!(background_reply(BackgroundReply::Answered(3)), Ok(3));
}

#[test]
fn background_commands_are_parsed_and_answered() {
    let words = |list: &[&str]| list.iter().map(|word| (*word).to_owned()).collect::<Vec<_>>();
    assert_eq!(parse_operation(&words(&["SEP", "SHOW"])), Some(BackgroundCliOperation::Show));
    assert_eq!(
        parse_operation(&words(&["SEP", "set", "http://a"])),
        Some(BackgroundCliOperation::Put { image_url: "http://a".to_owned(), thumbnail_url: None })
    );
    assert_eq!(parse_operation(&words(&["SEP", "drop"])), None);
    let access = access();
    assert_eq!(
        execute_background_cli(&access, &words(&["SEP"]), true),
        BackgroundCli::Reply("Invalid background command arguments\n".to_owned())
    );
    assert_eq!(
        execute_background_cli(&access, &words(&["?", "show"]), false),
        BackgroundCli::Reply("Invalid device selector\n".to_owned())
    );
    assert_eq!(
        execute_background_cli(&access, &words(&["SEP9", "show"]), true),
        BackgroundCli::Reply(
            "Background command failed: device SEP9 is not configured\n".to_owned()
        )
    );
    assert_eq!(
        execute_background_cli(&access, &words(&["SEP001122334455", "reset"]), true),
        BackgroundCli::Execute { device: station(), operation: BackgroundCliOperation::Reset }
    );
    assert_eq!(
        background_cli_result(Err(BackgroundRuntimeError::Store("lost".to_owned()))),
        format!(
            "Background command failed: {}\n",
            BackgroundRuntimeError::Store("lost".to_owned()).text()
        )
    );
    let step = set_background(&access, &station(), Ok(()), shown("http://a"));
    assert!(matches!(step, BackgroundCliStep::Deliver(_)));
    let unregistered = DeviceId::named("SEP9");
    assert_eq!(
        set_background(&access, &unregistered, Ok(()), shown("http://a")),
        BackgroundCliStep::Reply(
            "SEP9: background override saved for the next registration\n".to_owned()
        )
    );
    assert_eq!(
        reset_background(&access, &unregistered, Ok(()), Some(Ok(shown("http://a")))),
        BackgroundCliStep::Reply(
            "SEP9: background reset to configuration for the next registration\n".to_owned()
        )
    );
    assert!(matches!(
        reset_background(&access, &station(), Ok(()), Some(Ok(shown("http://a")))),
        BackgroundCliStep::Deliver(_)
    ));
    assert_eq!(
        finish_set_background(&station(), true),
        "SEP001122334455: background override saved and queued\n"
    );
    assert!(matches!(
        reset_background(&access, &station(), Err("lost".to_owned()), None),
        BackgroundCliStep::Reply(_)
    ));
    assert!(show_background(&access, &station(), Ok(EffectiveBackground::Unconfigured))
        .contains("SEP001122334455"));
}

#[test]
fn reloads_send_only_what_changed() {
    let other = DeviceId::named("SEP9");
    let reloaded = |device: DeviceId, overridden, previous, current| StationBackground {
        device,
        overridden,
        previous: Ok(previous),
        current: Ok(current),
    };
    let mut runtime = BackgroundRuntime::new();
    let reconciled = runtime.reconcile_backgrounds(vec![
        reloaded(station(), Ok(true), shown("http://a"), shown("http://b")),
        reloaded(station(), Ok(false), shown("http://a"), shown("http://a")),
        reloaded(other.clone(), Err("lost".to_owned()), None, shown("http://b")),
        reloaded(station(), Ok(false), None, shown("http://b")),
        reloaded(station(), Ok(false), shown("http://b"), None),
    ]);
    assert_eq!(reconciled.len(), 2);
    assert_eq!(
        reconciled[0],
        ReconciledBackground::Failed {
            device: other,
            error: BackgroundRuntimeError::Store("lost".to_owned()),
        }
    );
    assert!(matches!(
        &reconciled[1],
        ReconciledBackground::Deliver(command) if command.device_id == station()
    ));
    assert_eq!(runtime.next_transaction_id, 2);
}

fn rule(mode: DndScheduleMode, text: &str) -> DndSchedule {
    DndSchedule { mode, text: text.to_owned() }
}

#[test]
fn the_first_rule_that_holds_decides() {
    let rules =
        vec![rule(DndScheduleMode::Silent, "a"), rule(DndScheduleMode::Reject, "b")];
    assert_eq!(phase(&rules, &vec![false, false]), DndSchedulePhase::Inactive);
    assert_eq!(phase(&rules, &vec![true, false]), DndSchedulePhase::Silent);
    assert_eq!(phase(&rules, &vec![true, true]), DndSchedulePhase::Silent);
    assert_eq!(phase(&rules, &vec![false, true]), DndSchedulePhase::Reject);
    assert!(rule_matches(Some(true), &vec![false]));
    assert!(!rule_matches(Some(false), &vec![true]));
    assert!(rule_matches(None, &vec![false, true]));
    assert!(!rule_matches(None, &vec![]));
    assert_eq!(runtime_dnd_mode_name(DndMode::Silent), "silent");
    assert_eq!(
        dnd_mutation_error_name(&RuntimeDndMutationError::FeatureDisabled),
        "DND feature disabled"
    );
}

#[test]
fn timings_are_written_with_inclusive_ends() {
    assert_eq!(format_minute(0), "00:00");
    assert_eq!(format_minute(605), "10:05");
    let segment = |start, end| DndScheduleSegment {
        start_minute: start,
        end_minute_exclusive: end,
        weekdays: "mon-fri".to_owned(),
    };
    assert_eq!(asterisk_timing_spec(&segment(480, 1020)).unwrap(), "08:00-16:59,mon-fri,*,*");
    assert!(asterisk_timing_spec(&segment(0, 0)).is_err());
}

fn checks() -> RuleChecks {
    RuleChecks { invalid: None, segments: Vec::new() }
}

fn scheduled() -> DndScheduleRegistry {
    let mut registry = DndScheduleRegistry::new();
    let schedule = DeviceDndSchedule::compile(
        DndScheduleSource::Override,
        vec![rule(DndScheduleMode::Reject, "09:00-17:00 mon-fri")],
        &checks(),
        None,
    )
    .unwrap();
    registry.put(station(), schedule);
    registry
}

#[test]
fn schedules_act_once_per_change() {
    let mut registry = scheduled();
    let due = registry.due(&vec![DndSchedulePhase::Reject]);
    assert_eq!(due.len(), 1);
    assert_eq!(due[0].phase, DndSchedulePhase::Reject);
    assert!(!registry.finish_transition(&due[0], true, 0));
    assert!(registry.due(&vec![DndSchedulePhase::Reject]).is_empty());
    assert_eq!(registry.due(&vec![DndSchedulePhase::Inactive]).len(), 1);
    let again = DueTransition {
        device: station(),
        phase: DndSchedulePhase::Inactive,
        has_rules: true,
    };
    assert!(registry.finish_transition(&again, false, 1_000));
    let mut pending = false;
    assert!(run_dnd_schedule_tick(&mut pending));
    assert!(pending);
    assert!(!run_dnd_schedule_tick(&mut pending));
}

#[test]
fn schedule_commands_are_checked() {
    let words = |list: &[&str]| list.iter().map(|word| (*word).to_owned()).collect::<Vec<_>>();
    let access = access();
    let limits = DndScheduleLimits { rules: 8, bytes: 256 };
    let typed = |rest: &[&str]| {
        let line = words(&[&["SEP001122334455"], rest].concat());
        execute_dnd_schedule_cli(&access, &line, true, limits)
    };
    assert_eq!(
        typed(&["show"]),
        ScheduleRequest::Accepted { device: station(), cli: ScheduleCli::Show }
    );
    assert_eq!(
        typed(&["remove", "1"]),
        ScheduleRequest::Accepted {
            device: station(),
            cli: ScheduleCli::Mutate(ScheduleMutation::Remove(1)),
        }
    );
    assert!(matches!(
        typed(&["dance"]),
        ScheduleRequest::Accepted { cli: ScheduleCli::Reply(_), .. }
    ));
    assert_eq!(
        execute_dnd_schedule_cli(&access, &words(&["?", "show"]), false, limits),
        ScheduleRequest::Refused("Invalid device selector\n".to_owned())
    );
    assert_eq!(
        execute_dnd_schedule_cli(&access, &words(&["SEP9", "show"]), true, limits),
        ScheduleRequest::Refused(
            "DND schedule command failed: device SEP9 is not configured\n".to_owned()
        )
    );
    let registry = scheduled();
    let plan = mutate_schedule(
        &access,
        &registry,
        &station(),
        ScheduleMutation::Add(rule(DndScheduleMode::Silent, "18:00-20:00 sat")),
        limits,
    )
    .unwrap();
    assert_eq!(plan.rules.len(), 2);
    assert_eq!(plan.source, DndScheduleSource::Override);
    let removed =
        mutate_schedule(&access, &registry, &station(), ScheduleMutation::Remove(1), limits)
            .unwrap();
    assert!(removed.rules.is_empty());
    assert!(mutate_schedule(&access, &registry, &station(), ScheduleMutation::Remove(2), limits)
        .is_err());
    let full = DndScheduleLimits { rules: 1, bytes: 256 };
    assert!(mutate_schedule(
        &access,
        &registry,
        &station(),
        ScheduleMutation::Add(rule(DndScheduleMode::Silent, "18:00-20:00 sat")),
        full,
    )
    .is_err());
    assert_eq!(schedule_reply(ScheduleReply::Answered("done\n".to_owned())), "done\n");
    assert!(show_schedule(&access, &registry, &station(), DndSchedulePhase::Reject)
        .contains("09:00-17:00 mon-fri"));
}

#[test]
fn message_waiting_changes_are_staged_and_committed() {
    let mut owner = PresenceOwner::new(8);
    let changes = vec![MwiSubscription {
        line: "1001".to_owned(),
        mailbox: "1001@default".to_owned(),
    }];
    let stage = owner.stage_mwi(0, &changes, &vec![Ok(())]).unwrap();
    assert!(owner.mwi.is_empty());
    let finish = owner.finish_mwi(stage, Some(Vec::new()));
    assert!(finish.retired.is_empty());
    assert_eq!(owner.mwi.len(), 1);
    let generation = owner.mwi[0].generation;
    assert_eq!(owner.update_mwi("1001", generation, true), MwiUpdate::Announce);
    assert_eq!(owner.update_mwi("1001", generation + 1, true), MwiUpdate::Ignored);
    // What is given up leaves everything as it was.
    let stage = owner.stage_mwi(0, &changes, &vec![Ok(())]).unwrap();
    let finish = owner.finish_mwi(stage, None);
    assert_eq!(finish.retired.len(), 1);
    assert_eq!(owner.mwi[0].generation, generation);
    assert!(owner.stage_mwi(8, &changes, &vec![Ok(())]).is_err());
}

#[test]
fn line_states_are_announced_once() {
    let mut owner = PresenceOwner::new(8);
    let config = config();
    assert!(owner.publish_line(&config, "1001".to_owned(), DeviceState::InUse));
    assert!(!owner.publish_line(&config, "1001".to_owned(), DeviceState::InUse));
    assert!(owner.publish_line(&config, "1001".to_owned(), DeviceState::NotInUse));
}

#[test]
fn extensions_follow_registrations() {
    let access = access();
    let mut owner = PresenceOwner::new(8);
    assert_eq!(
        owner.register_contexts(
            &access.shared.controller,
            ConfigVersion(1),
            vec![station()],
            station(),
            Ok(())
        ),
        Ok(())
    );
    assert_eq!(owner.contexts.registered, vec![station()]);
    let stage = owner
        .stage_registrations(
            &access.shared.controller,
            ConfigVersion(2),
            vec![],
            ConfigVersion(1),
            vec![station()],
            Ok(()),
        )
        .unwrap();
    let result = owner.finish(
        &access.shared.controller,
        Some(&access.shared.config),
        StageFinish::Registrations { stage, affected: None },
        Ok(()),
    );
    assert!(matches!(
        result,
        chan_sccp2::presence_owner::StageResult::Registrations(Ok(()))
    ));
    assert_eq!(owner.contexts.registered, vec![station()]);
    assert_eq!(registration_reply(None), Err(RegistrationRegistryError::Unavailable));
    assert_eq!(registration_reply(Some(Ok(()))), Ok(()));
    let mut turns = PresenceLoop::new();
    let work = turns.run(retire_registration_contexts(), false);
    assert!(work.retire_contexts);
    assert_eq!(retire_registration_contexts(), PresenceTurn::RetiredContexts);
}

#[test]
fn staged_subscriptions_are_settled_once() {
    let mut staged = StagedMwiSubscriptions::new(StageAnswer::Replied(Ok(StageId(3)))).unwrap();
    assert!(staged.commit(vec!["1001".to_owned()]).is_some());
    assert!(staged.cancel().is_none());
    assert!(StagedMwiSubscriptions::new(StageAnswer::NoReply).is_err());
}

#[test]
fn sessions_are_prepared_from_what_the_controller_says() {
    let event = PhoneDeviceEvent {
        device_id: station(),
        session_generation: SessionGeneration(3),
        event: PhoneDeviceEventKind::Disconnected,
    };
    assert_eq!(handle_session_event(&event.event), SessionRoute::Prepare);
    assert!(prepare_session_event(&event, SessionReply::Ignored).is_none());
    let prepared = prepare_session_event(
        &event,
        SessionReply::Disconnected {
            cleanup: vec![],
            affected_conferences: vec![ConferenceId(2)],
            surviving_conferences: vec![],
        },
    )
    .unwrap();
    assert!(prepared.is_disconnected());
    assert!(matches!(prepared.preparation, SessionPreparation::Disconnected { .. }));
}
