//! Conferences, transfers, parking and pickup on concrete values.

#![allow(dead_code)]

use chan_sccp2::access::{Access, ChannelBinding, Shared};
use chan_sccp2::config::{
    AdvertisedAddresses, ConferenceConfig, ConfigurationSource, DeviceConfig, DndButton,
    DndButtonMode, FeatureDefaults, GeneralConfig, GeneralNetwork, ModuleConfig, ParkingLotButton,
    ParkingRetrievalBehavior, SignalingConfig,
};
use chan_sccp2::ids::{CallId, DeviceId, PbxCallId, SessionGeneration};
use chan_sccp2::lifecycle::{CallAnswerOrder, FallbackDecision, FallbackRegistration};
use chan_sccp2::model::{
    AppearanceRingMode, AudioEncryptionCapabilities, AudioEncryptionPolicy, AudioFraming,
    AudioProcessingPolicy, CallAppearance, CallDirection, CallMetadata, CallState, Codec,
    ControllerSnapshot, DeviceRegistration, DtmfMode, IpAddress, LineAppearance, LineBinding,
    LineConfig, MediaCapability, MediaPolicy, MediaStreamState, NatMode, NetworkPolicy, PbxCall,
    QosMark, QosPolicy, RegisteredDevice, StationMediaCapabilities, StationTransport,
    VideoMediaState, VideoMode, VideoStreamState,
};
use chan_sccp2::backend::ServiceProviderError;
use chan_sccp2::commands::{PhoneCommand, PhoneCommandAction};
use chan_sccp2::call_control::BargeMode;
use chan_sccp2::conference::{
    conference_destination_begun, conference_list_target, destination_mutation, display_conference_prompt,
    execute_conference_destination_start, execute_conference_invite_merge,
    execute_conference_invite_start, execute_conference_merge, execute_conference_start,
    execute_selected_conference_merge, finish_barge, finish_failed_removal, finish_merge,
    finish_removal, finish_role_change, handle_barge_soft_key, handle_conference_destination,
    handle_conference_list_action, handle_conference_soft_key, handle_join_soft_key,
    participant_rejection_prompt, remove_conference_participant,
    set_conference_participant_moderator, set_conference_participant_muted, show_conference_list,
    show_conference_list_if_configured, start_conference_invite, BargeKeyAction,
    ConferenceAnnouncement, ConferenceKeyAction, ConferenceListStep, ConferenceParticipant,
    ConferencePhase, ConferenceSession, ConferenceStartProgress, ConsultationAction,
    ConsultationEnd, DestinationAction, DestinationBegun, JoinKeyAction, MergeEnd, MergeKind, MergeShown,
    ParticipantChange,
    ParticipantStep,
};
use chan_sccp2::config::{DialTones, LineFeatures, PickupConfig};
use chan_sccp2::effect_run::RunState;
use chan_sccp2::effects::{
    BridgeOperation, ConferenceMutationToken, DriverEffect, HandsetEffect, PbxEffect,
    PhoneCallState, Tone, TransactionId, TransferCompletion, TransferCompletionKind, TransferLeg,
};
use chan_sccp2::events::ConferenceListAction;
use chan_sccp2::hold::ConferenceParticipantRejection;
use chan_sccp2::ids::{ConferenceId, ParticipantId, PbxBridgeId};
use chan_sccp2::model::ConferenceDialing;
use chan_sccp2::parking::{
    handle_park_request, handle_parking_event, parking_event_applied, handle_pickup_soft_key,
    prompt_for_pickup, publish_parking_lot, reject_pickup, retrieval_binding, show_parking_menu,
    ApplyParkingEvent, ParkAction, ParkedCall, ParkingClosure, ParkingEvent, ParkingUpdate, ParkingEventTask, ParkingPrompt, PickupKeyAction,
    PickupRejection,
};
use chan_sccp2::prompts::Prompt;
use chan_sccp2::transfer::{
    abort_transfer_execution, close_stale_transfer_consultation,
    compensate_unrecorded_transfer_setup, completion_succeeded, execute_transfer_completion,
    finish_failed_completion, handle_direct_transfer, show_transfer_rejection,
    transfer_hangup_handled, transfer_key_completed, transfer_prepared, DeferredTransferAction, PreparedConsultation, TransferCompensation, TransferMode, TransferPhase, TransferRejection,
    TransferSetupMilestone, TransferTransaction,
};

fn mark(dscp: u8) -> QosMark {
    QosMark { dscp, cos: 5 }
}

fn qos() -> QosPolicy {
    QosPolicy { signaling: mark(24), audio: mark(46), video: mark(34) }
}

fn media(codecs: Vec<Codec>) -> MediaPolicy {
    MediaPolicy {
        codecs,
        dtmf_mode: DtmfMode::Rfc2833,
        audio_processing: AudioProcessingPolicy { echo_cancellation: true, silence_suppression: false },
        early_media: true,
        direct_media: true,
        video_mode: VideoMode::Auto,
        audio_encryption: AudioEncryptionPolicy(1),
    }
}

fn line(number: &str) -> LineConfig {
    LineConfig {
        number: number.to_owned(),
        label: "Desk".to_owned(),
        context: "from-sccp".to_owned(),
        caller_name: "Desk".to_owned(),
        caller_number: number.to_owned(),
        mailbox: Some(format!("{number}@default")),
        language: "en".to_owned(),
        account_code: None,
        channel_variables: Vec::new(),
    }
}

fn binding(device: &str, instance: u32, number: &str) -> LineBinding {
    LineBinding {
        device_id: DeviceId::named(device),
        line_instance: instance,
        appearance: LineAppearance {
            id: 10 + instance,
            label: "Desk".to_owned(),
            ring_mode: AppearanceRingMode::Normal,
            privacy: false,
            subscription_identity: None,
        },
        line: line(number),
        media: Some(media(vec![Codec::G722, Codec::Pcma, Codec::Pcmu])),
        hotline: None,
        conference_dialing: None,
    }
}

fn device(name: &str) -> DeviceConfig {
    DeviceConfig {
        id: DeviceId::named(name),
        description: "Reception".to_owned(),
        channel_variables: Vec::new(),
        lines: vec!["1001".to_owned()],
        buttons: Vec::new(),
        blf_targets: Vec::new(),
        dnd_buttons: vec![DndButton { instance: 3, mode: DndButtonMode::Silent }],
        recording_buttons: vec![4],
        dnd_schedules: Vec::new(),
        parking_enabled: true,
        parking_buttons: vec![ParkingLotButton {
            instance: 5,
            lot: "lobby".to_owned(),
            retrieval: ParkingRetrievalBehavior::RetrieveSingle,
        }],
        feature_defaults: FeatureDefaults {
            dnd_enabled: true,
            privacy_enabled: true,
            forward_all_enabled: true,
            forward_busy_enabled: false,
            forward_no_answer_enabled: true,
        },
        network: NetworkPolicy { nat: NatMode::Auto, qos: qos() },
        conference: ConferenceConfig {
            allowed: true,
            show_conference_list: true,
            music_on_hold_class: "default".to_owned(),
            mute_on_entry: false,
            play_general_announcements: true,
            play_participant_announcements: true,
        },
        allow_overlap: false,
    }
}

fn signaling() -> SignalingConfig {
    SignalingConfig {
        clear_listener: None,
        advertised_address: None,
        server_name: "switch".to_owned(),
        keepalive_seconds: 60,
        secondary_keepalive_seconds: 60,
        signaling_servers: Vec::new(),
        fallback_registration: FallbackRegistration {
            decision: FallbackDecision::Reject,
            backoff_seconds: 30,
            server_priority: 1,
        },
        dial_terminator: Some('#'),
        record_dial_terminator: false,
        simulate_enbloc: true,
        first_digit_timeout_ms: 16000,
        interdigit_timeout_ms: 8000,
        call_answer_order: CallAnswerOrder::OldestFirst,
        timezone_offset_minutes: 0,
        date_template: "D.M.Y".to_owned(),
    }
}

fn config() -> ModuleConfig {
    ModuleConfig {
        general: GeneralConfig {
            configuration_source: ConfigurationSource::File,
            bind: IpAddress::V4(0),
            codecs: vec![Codec::Pcma, Codec::Pcmu],
            qos: qos(),
            network: GeneralNetwork {
                nat: NatMode::Off,
                local_networks: Vec::new(),
                advertised: AdvertisedAddresses { ipv4: None, ipv6: None },
            },
            jitter_buffer_forced: false,
            transfer_on_hangup: true,
            audio_processing_default: AudioProcessingPolicy {
                echo_cancellation: false,
                silence_suppression: false,
            },
            audio_framing_default: AudioFraming { packet_ms: 20, max_frames_per_packet: 1 },
            timezone: None,
            audio_encryption: AudioEncryptionPolicy(7),
            signaling: signaling(),
        },
        devices: vec![device("SEP001122334455")],
        lines: vec![line("1001")],
        line_features: Vec::new(),
        bindings: vec![binding("SEP001122334455", 1, "1001")],
        guest_bindings: vec![binding("SEPGUEST00000", 1, "guest")],
    }
}

fn registered(name: &str) -> RegisteredDevice {
    RegisteredDevice {
        id: DeviceId::named(name),
        session_generation: SessionGeneration(3),
        registration: DeviceRegistration {
            id: DeviceId::named(name),
            device_type: 436,
            protocol: 20,
            peer: IpAddress::V4(0x0a00_0001),
            reported_address: None,
            firmware: "9.4".to_owned(),
            transport: StationTransport::Clear,
        },
        capabilities: Some(StationMediaCapabilities::from_audio(vec![MediaCapability {
            codec: Codec::G722,
            max_packet_ms: 40,
            codec_parameters: [0; 8],
        }])),
        audio_encryption: AudioEncryptionCapabilities(5),
        selected_calls: Vec::new(),
        selected_line: None,
    }
}

fn appearance(call: u64, pbx: u64, device: &str, state: CallState) -> CallAppearance {
    CallAppearance {
        sccp_id: CallId(call),
        pbx_id: PbxCallId(pbx),
        device_id: DeviceId::named(device),
        line_instance: 1,
        state,
        privacy: false,
        party_restrictions: 0,
        codec: Codec::G722,
        audio: MediaStreamState::Closed,
        audio_transmit: MediaStreamState::Closed,
        video: VideoMediaState {
            receive: VideoStreamState::Closed,
            transmit: VideoStreamState::Closed,
        },
    }
}

fn pbx_call(pbx: u64, state: CallState) -> PbxCall {
    PbxCall {
        pbx_id: PbxCallId(pbx),
        line: "1001".to_owned(),
        context: "from-sccp".to_owned(),
        state,
        direction: CallDirection::Outbound,
        digits: "4000".to_owned(),
        privacy: false,
        metadata: CallMetadata {
            ani: Some("1001".to_owned()),
            ani_visible: true,
            rdnis: None,
            rdnis_visible: true,
            dnid: None,
            account_code: None,
            language: None,
            variables: Vec::new(),
        },
        active_call_id: Some(CallId(7)),
        conference_id: None,
        barged: false,
    }
}

fn access() -> Access {
    Access {
        shared: Shared {
            config: config(),
            controller: ControllerSnapshot {
                registered: vec![registered("SEP001122334455")],
                features: Vec::new(),
                calls: vec![pbx_call(1, CallState::Connected)],
                appearances: vec![appearance(7, 1, "SEP001122334455", CallState::Connected)],
                runtime: Vec::new(),
                mobility: Vec::new(),
                forwarding_entries: Vec::new(),
            },
            channels: vec![ChannelBinding {
                handle: 1,
                pbx_id: PbxCallId(1),
                closed: false,
                name: Some("SCCP/1001-1".to_owned()),
            }],
            retired: Vec::new(),
            destinations: Vec::new(),
            anchored: Vec::new(),
        },
    }
}

fn station() -> DeviceId {
    DeviceId::named("SEP001122334455")
}

fn prompt(seconds: u32, prompt: Prompt) -> PhoneCommand {
    PhoneCommand {
        device_id: station(),
        action: PhoneCommandAction::DisplayPrompt {
            call_id: CallId(7),
            timeout_seconds: seconds,
            prompt,
        },
    }
}

fn participant(id: u32, call: u64, moderator: bool) -> ConferenceParticipant {
    ConferenceParticipant {
        id: ParticipantId(id),
        handset_call_id: CallId(call),
        pbx_call_id: PbxCallId(call),
        moderator,
        display_name: String::new(),
        number: "4000".to_owned(),
    }
}

fn session(phase: ConferencePhase) -> ConferenceSession {
    ConferenceSession {
        id: ConferenceId(5),
        device_id: station(),
        phase,
        original_handset_call_id: CallId(7),
        consultation_handset_call_id: CallId(8),
        consultation_call_id: PbxCallId(2),
        participants: vec![participant(1, 7, true), participant(2, 9, false)],
        pending_invite: None,
    }
}

fn key(session: Option<&ConferenceSession>, call: u64) -> String {
    format!(
        "{:?}",
        handle_conference_soft_key(&access(), session, station(), CallId(call), 1, None)
    )
}

#[test]
fn the_conference_key_brings_a_consulted_party_in() {
    let consulting = session(ConferencePhase::Consultation);
    assert_eq!(key(Some(&consulting), 8), "Confirm");
    assert!(key(Some(&consulting), 7).contains("ConferenceAlreadyActive"));
    assert!(key(Some(&session(ConferencePhase::Merging)), 8).contains("ConferenceAlreadyActive"));
}

#[test]
fn the_conference_key_invites_into_a_running_conference() {
    let mut running = session(ConferencePhase::Active);
    assert_eq!(key(Some(&running), 7), "Invite");
    assert!(key(Some(&running), 9).contains("ConferenceInvitePending"));
    running.pending_invite = Some(participant(3, 10, false));
    assert_eq!(key(Some(&running), 10), "ConfirmInvite");
    assert!(key(Some(&running), 7).contains("ConferenceInvitePending"));
}

#[test]
fn the_conference_key_consults_outside_a_conference() {
    let access = access();
    let consult = |call: u64, line: u32, codec| {
        handle_conference_soft_key(&access, None, station(), CallId(call), line, codec)
    };
    match consult(7, 0, Some(Codec::G722)) {
        ConferenceKeyAction::Consult(ConsultationAction::Prepare {
            binding,
            codec,
            permitted,
            policy,
        }) => {
            assert_eq!(binding.line_instance, 1);
            assert_eq!(codec, Codec::G722);
            assert!(permitted);
            assert_eq!(policy.unwrap().music_on_hold_class, "default");
        }
        other => panic!("unexpected action {other:?}"),
    }
    assert_eq!(
        consult(7, 1, None),
        ConferenceKeyAction::Consult(ConsultationAction::Show(prompt(
            4,
            Prompt::ConferenceCodecUnavailable
        )))
    );
    assert_eq!(
        consult(99, 1, Some(Codec::G722)),
        ConferenceKeyAction::Consult(ConsultationAction::Ignore)
    );
    assert_eq!(
        consult(7, 4, Some(Codec::G722)),
        ConferenceKeyAction::Consult(ConsultationAction::Ignore)
    );
}

#[test]
fn invitations_need_permission() {
    let mut access = access();
    access.shared.config.devices[0].conference.allowed = false;
    assert_eq!(
        start_conference_invite(&access, station(), CallId(7), 1, Some(Codec::G722)),
        ConsultationAction::Show(prompt(4, Prompt::ConferenceDisabled))
    );
    // A consultation leaves the refusal to the controller.
    assert!(matches!(
        handle_conference_soft_key(&access, None, station(), CallId(7), 1, Some(Codec::G722)),
        ConferenceKeyAction::Consult(ConsultationAction::Prepare { permitted: false, .. })
    ));
}

#[test]
fn barging_needs_a_line_and_a_codec() {
    let access = access();
    let mode = BargeMode::Conference;
    let barge =
        |line: u32, codec| handle_barge_soft_key(&access, station(), CallId(7), line, codec, mode);
    assert_eq!(barge(4, Some(Codec::G722)), BargeKeyAction::Ignore);
    assert_eq!(barge(1, None), BargeKeyAction::Show(prompt(4, Prompt::BargeCodecUnavailable)));
    assert!(matches!(
        barge(1, Some(Codec::Pcmu)),
        BargeKeyAction::Barge { codec: Codec::Pcmu, mode: BargeMode::Conference, .. }
    ));
    assert_eq!(finish_barge(&access, CallId(7), true), Some(PbxCallId(1)));
    assert_eq!(finish_barge(&access, CallId(7), false), None);
    assert_eq!(finish_barge(&access, CallId(99), true), None);
}

#[test]
fn joining_a_call_of_another_station_barges() {
    let mut access = access();
    assert!(matches!(
        handle_join_soft_key(&access, &station(), CallId(7)),
        JoinKeyAction::Join { permitted: true, policy: Some(_) }
    ));
    access.shared.controller.appearances[0].state = CallState::RemoteInUse;
    assert_eq!(handle_join_soft_key(&access, &station(), CallId(7)), JoinKeyAction::Barge { mode: BargeMode::Conference });
}

#[test]
fn only_the_owner_of_a_running_conference_acts_on_its_list() {
    let running = session(ConferencePhase::Active);
    let act = |session: Option<&ConferenceSession>, action, available| {
        handle_conference_list_action(session, station(), action, available)
    };
    let choose = |participant: u32| ConferenceListAction::Participant {
        conference_id: ConferenceId(5),
        participant_id: ParticipantId(participant),
    };
    assert_eq!(conference_list_target(choose(2)), ConferenceId(5));
    assert_eq!(
        act(Some(&running), choose(2), true),
        ConferenceListStep::ShowParticipantActions(ParticipantId(2))
    );
    assert_eq!(
        act(Some(&running), choose(2), false),
        ConferenceListStep::ShowLabel(PhoneCommand {
            device_id: station(),
            action: PhoneCommandAction::DisplayText {
                call_id: CallId(7),
                timeout_seconds: 4,
                text: "4000".to_owned(),
            },
        })
    );
    assert_eq!(act(Some(&running), choose(3), true), ConferenceListStep::Ignore);
    assert_eq!(
        act(
            Some(&running),
            ConferenceListAction::Demote {
                conference_id: ConferenceId(5),
                participant_id: ParticipantId(2),
            },
            true,
        ),
        ConferenceListStep::SetModerator { participant_id: ParticipantId(2), moderator: false }
    );
    assert_eq!(
        act(Some(&running), ConferenceListAction::End { conference_id: ConferenceId(5) }, true),
        ConferenceListStep::End
    );
    let consulting = session(ConferencePhase::Consultation);
    assert_eq!(act(Some(&consulting), choose(2), true), ConferenceListStep::Ignore);
    assert_eq!(act(None, choose(2), true), ConferenceListStep::Ignore);
    let mut foreign = session(ConferencePhase::Active);
    foreign.device_id = DeviceId::named("SEPOTHER");
    assert_eq!(act(Some(&foreign), choose(2), true), ConferenceListStep::Ignore);
    assert_eq!(show_conference_list(Some(&running), station(), CallId(7)), None);
    assert_eq!(
        show_conference_list(Some(&foreign), station(), CallId(7)),
        Some(prompt(4, Prompt::NoActiveConference))
    );
    assert_eq!(show_conference_list_if_configured(&access(), &running), Some(CallId(7)));
    assert_eq!(show_conference_list_if_configured(&access(), &foreign), None);
}

fn music(call: u64, enabled: bool) -> DriverEffect {
    DriverEffect::Backend(PbxEffect::Bridge {
        operation: BridgeOperation::SetParticipantMusicOnHold {
            bridge_id: PbxBridgeId(1),
            participant_id: ParticipantId(2),
            call_id: PbxCallId(call),
            class: "default".to_owned(),
            enabled,
        },
    })
}

#[test]
fn changes_of_role_are_taken_back_in_reverse() {
    let running = session(ConferencePhase::Active);
    let effects = vec![music(1, true), music(2, false), music(3, true)];
    let step = set_conference_participant_moderator(
        &running,
        true,
        &effects,
        RunState::Failed { done: 2 },
    );
    assert_eq!(
        step,
        ParticipantStep::Abort {
            undo: vec![music(2, true), music(1, false)],
            shown: prompt(4, Prompt::UnableToUpdateParticipant),
            error: ServiceProviderError::Delivery,
        }
    );
    assert_eq!(
        set_conference_participant_moderator(
            &running,
            true,
            &effects,
            RunState::Stale { done: 1 },
        ),
        ParticipantStep::Undo {
            undo: vec![music(1, false)],
            error: ServiceProviderError::ConferenceConflict,
        }
    );
    let refused = finish_role_change(&effects, false);
    assert_eq!(refused.undo, vec![music(3, false), music(2, true), music(1, false)]);
    assert_eq!(refused.outcome, Err(ServiceProviderError::ConferenceConflict));
    let made = finish_role_change(&effects, true);
    assert!(made.undo.is_empty() && made.list && made.outcome.is_ok());
}

#[test]
fn muting_undoes_nothing() {
    let running = session(ConferencePhase::Active);
    let effects = vec![music(1, true)];
    let mute = |run| set_conference_participant_muted(&running, true, &effects, run);
    assert_eq!(mute(RunState::Complete), ParticipantStep::Commit);
    assert_eq!(mute(RunState::Before { done: 0 }), ParticipantStep::Continue);
    assert_eq!(
        mute(RunState::Failed { done: 0 }),
        ParticipantStep::Abort {
            undo: Vec::new(),
            shown: prompt(4, Prompt::UnableToUpdateParticipant),
            error: ServiceProviderError::Delivery,
        }
    );
}

#[test]
fn a_removal_may_have_been_overtaken_by_another() {
    let running = session(ConferencePhase::Active);
    assert_eq!(
        remove_conference_participant(
            &running,
            &vec![music(1, true)],
            RunState::Failed { done: 0 },
        ),
        ParticipantStep::AbortRemoval
    );
    assert!(finish_failed_removal(&running, false, true).outcome.is_ok());
    let failed = finish_failed_removal(&running, true, true);
    assert_eq!(failed.outcome, Err(ServiceProviderError::Delivery));
    assert_eq!(failed.shown, Some(prompt(4, Prompt::UnableToRemoveParticipant)));
    let removed = finish_removal(ParticipantId(2), true, true);
    assert_eq!(
        removed.announce,
        Some(ConferenceAnnouncement::ParticipantRemoved(ParticipantId(2)))
    );
    assert!(removed.list);
    let by_another = finish_removal(ParticipantId(2), false, true);
    assert!(by_another.announce.is_none() && !by_another.list && by_another.outcome.is_ok());
    assert_eq!(
        finish_removal(ParticipantId(2), true, false).outcome,
        Err(ServiceProviderError::ConferenceConflict)
    );
}

#[test]
fn refused_changes_of_participants_say_why() {
    let why = |change, rejection| participant_rejection_prompt(change, rejection).text();
    assert_eq!(
        why(ParticipantChange::Remove, ConferenceParticipantRejection::Moderator),
        "Moderator cannot be removed"
    );
    assert_eq!(
        why(ParticipantChange::Mute(true), ConferenceParticipantRejection::Moderator),
        "Moderator cannot be muted"
    );
    assert_eq!(
        why(ParticipantChange::Remove, ConferenceParticipantRejection::Conflict),
        "Participant cannot be removed"
    );
    assert_eq!(
        why(ParticipantChange::Role(false), ConferenceParticipantRejection::LastModerator),
        "At least one moderator is required"
    );
}

fn dialing(enabled: bool, destination: Option<&str>) -> Access {
    let mut access = access();
    access.shared.config.bindings[0].conference_dialing = Some(ConferenceDialing {
        enabled,
        destination: destination.map(str::to_owned),
        application_options: "M".to_owned(),
    });
    access
}

#[test]
fn rooms_are_dialed_only_where_the_line_allows_it() {
    match handle_conference_destination(&dialing(true, Some("900")), station(), CallId(7), 1) {
        DestinationAction::Begin { destination, application_options } => {
            assert_eq!(destination, "900");
            assert_eq!(application_options, "M");
        }
        other => panic!("unexpected action {other:?}"),
    }
    let refusal =
        DestinationAction::RefuseAndHangUp(prompt(4, Prompt::ConferenceDialingUnavailable));
    for access in [dialing(false, Some("900")), dialing(true, None), access()] {
        assert_eq!(handle_conference_destination(&access, station(), CallId(7), 1), refusal);
    }
    assert_eq!(
        handle_conference_destination(&dialing(true, Some("900")), station(), CallId(7), 2),
        DestinationAction::Ignore
    );
    assert_eq!(
        conference_destination_begun(station(), CallId(7), None),
        DestinationBegun::RefuseAndHangUp(prompt(4, Prompt::ConferenceDialingUnavailable))
    );
    assert_eq!(
        conference_destination_begun(station(), CallId(7), Some(vec![hold(1)])),
        DestinationBegun::Start(vec![hold(1)])
    );
}

fn hold(call: u64) -> DriverEffect {
    DriverEffect::Backend(PbxEffect::Hold { call_id: PbxCallId(call) })
}

fn resume(call: u64) -> DriverEffect {
    DriverEffect::Backend(PbxEffect::Resume { call_id: PbxCallId(call) })
}

#[test]
fn a_failed_room_resumes_what_it_held() {
    let effects = vec![
        hold(1),
        hold(2),
        DriverEffect::Backend(PbxEffect::StartConferenceDestination {
            mutation: ConferenceMutationToken(6),
            call_id: PbxCallId(3),
        }),
    ];
    assert_eq!(destination_mutation(&effects), Some(ConferenceMutationToken(6)));
    assert_eq!(destination_mutation(&vec![hold(1)]), None);
    let failure = execute_conference_destination_start(
        station(),
        CallId(7),
        &effects,
        RunState::Failed { done: 1 },
    )
    .unwrap();
    assert_eq!(failure.held, vec![PbxCallId(1), PbxCallId(2)]);
    assert_eq!(failure.completed, vec![PbxCallId(1)]);
    assert_eq!(failure.shown, prompt(4, Prompt::ConferenceDialingFailed));
    assert!(execute_conference_destination_start(
        station(),
        CallId(7),
        &effects,
        RunState::Complete,
    )
    .is_none());
}

#[test]
fn a_failed_consultation_undoes_what_it_reached() {
    let nothing = ConferenceStartProgress {
        channel_created: false,
        active_leg_held: false,
        active_handset_held: false,
    };
    let effects = vec![
        ConferenceStartProgress { active_leg_held: true, ..nothing },
        ConferenceStartProgress { channel_created: true, ..nothing },
        ConferenceStartProgress { active_handset_held: true, ..nothing },
    ];
    let channel = Some(PbxCallId(2));
    assert_eq!(
        execute_conference_start(&effects, channel, RunState::Failed { done: 1 }),
        ConsultationEnd::Abort {
            progress: ConferenceStartProgress { active_leg_held: true, ..nothing },
            remove: None,
        }
    );
    assert_eq!(
        execute_conference_invite_start(&effects, channel, RunState::Stale { done: 2 }),
        ConsultationEnd::Stale { remove: channel }
    );
    assert_eq!(
        execute_conference_start(&effects, channel, RunState::Complete),
        ConsultationEnd::Complete
    );
}

fn create_bridge() -> DriverEffect {
    DriverEffect::Backend(PbxEffect::Bridge {
        operation: BridgeOperation::Create { bridge_id: PbxBridgeId(1) },
    })
}

#[test]
fn failed_merges_know_what_they_created_and_resumed() {
    let merging = session(ConferencePhase::Merging);
    let effects = vec![create_bridge(), resume(1), resume(2)];
    assert_eq!(
        execute_conference_merge(&merging, &effects, RunState::Failed { done: 1 }),
        MergeEnd::Abort {
            bridge_created: true,
            leg_held: true,
            channel: PbxCallId(2),
            shown: prompt(4, Prompt::UnableToCreateConference),
        }
    );
    assert!(matches!(
        execute_conference_merge(&merging, &effects, RunState::Failed { done: 2 }),
        MergeEnd::Abort { leg_held: false, .. }
    ));
    assert_eq!(
        execute_selected_conference_merge(&merging, &effects, RunState::Failed { done: 2 }),
        MergeEnd::AbortJoin {
            bridge_created: true,
            resumed: vec![PbxCallId(1)],
            shown: prompt(4, Prompt::UnableToJoinCalls),
        }
    );
    assert_eq!(
        execute_selected_conference_merge(&merging, &effects, RunState::Stale { done: 3 }),
        MergeEnd::Stale { remove: None }
    );
    assert_eq!(
        execute_conference_invite_merge(&merging, &effects, RunState::Complete),
        None
    );
    let mut inviting = session(ConferencePhase::Active);
    inviting.pending_invite = Some(participant(3, 10, false));
    assert_eq!(
        execute_conference_invite_merge(&inviting, &effects, RunState::Stale { done: 0 }),
        Some(MergeEnd::Stale { remove: Some(PbxCallId(10)) })
    );
    // Each merge shows its end on a call of its own, then the list.
    let access = access();
    let mut listed = crate::access();
    listed.shared.config.devices[0].conference.show_conference_list = true;
    let shown = |access: &Access, session: &ConferenceSession, kind| {
        finish_merge(access, session, kind, true).unwrap()
    };
    let connected = |call| MergeShown {
        prompt: display_conference_prompt(station(), call, Prompt::ConferenceConnected),
        list: None,
    };
    let mut plain = crate::access();
    plain.shared.config.devices[0].conference.show_conference_list = false;
    assert_eq!(
        shown(&plain, &merging, MergeKind::Consultation),
        connected(merging.consultation_handset_call_id)
    );
    assert_eq!(
        shown(&plain, &merging, MergeKind::Selected),
        connected(merging.original_handset_call_id)
    );
    let added = shown(&listed, &inviting, MergeKind::Invitation);
    let invited = inviting.pending_invite.as_ref().unwrap().handset_call_id;
    assert_eq!(
        added.prompt,
        display_conference_prompt(station(), invited, Prompt::ParticipantAdded)
    );
    assert_eq!(added.list, Some(inviting.original_handset_call_id));
    assert_eq!(finish_merge(&access, &merging, MergeKind::Invitation, true), None);
    assert_eq!(finish_merge(&access, &merging, MergeKind::Selected, false), None);
}

fn leg(call: u64) -> TransferLeg {
    TransferLeg { handset_call_id: CallId(call), pbx_call_id: PbxCallId(100 + call) }
}

fn transfer(consultation: Option<TransferLeg>) -> TransferTransaction {
    TransferTransaction {
        id: TransactionId(3),
        device_id: station(),
        phase: TransferPhase::Consulting,
        mode: TransferMode::Consultation,
        source: leg(7),
        consultation,
    }
}

#[test]
fn refused_consultations_are_shown_on_the_source() {
    let refusal = |rejection| show_transfer_rejection(station(), CallId(7), rejection);
    assert_eq!(
        transfer_prepared(station(), CallId(7), None),
        Err(refusal(TransferRejection::Conflict))
    );
    assert_eq!(
        transfer_prepared(
            station(),
            CallId(7),
            Some(Err(TransferRejection::CompletionInProgress)),
        ),
        Err(refusal(TransferRejection::CompletionInProgress))
    );
    let prepared = |transaction| {
        Some(Ok(PreparedConsultation { effects: vec![hold(107)], transaction }))
    };
    assert_eq!(
        transfer_prepared(station(), CallId(7), prepared(None)),
        Err(refusal(TransferRejection::Conflict))
    );
    assert_eq!(
        transfer_prepared(station(), CallId(7), prepared(Some(transfer(Some(leg(8)))))),
        Ok((transfer(Some(leg(8))), vec![hold(107)]))
    );
    assert_eq!(transfer_key_completed(station(), CallId(7), Some(Ok(3))), Ok(3));
    assert_eq!(
        transfer_key_completed::<u8>(station(), CallId(7), None),
        Err(refusal(TransferRejection::Conflict))
    );
}

fn completion(kind: TransferCompletionKind) -> TransferCompletion {
    TransferCompletion {
        device_id: station(),
        transaction_id: TransactionId(3),
        kind,
        source: leg(7),
        consultation: leg(8),
    }
}

#[test]
fn milestones_that_were_not_noted_are_taken_back() {
    let back = |consultation, milestone| {
        compensate_unrecorded_transfer_setup(&transfer(consultation), milestone)
    };
    assert_eq!(
        back(Some(leg(8)), TransferSetupMilestone::SourceBackendHeld),
        TransferCompensation::Resume(PbxCallId(107))
    );
    assert_eq!(
        back(Some(leg(8)), TransferSetupMilestone::SourceHandsetHeld),
        TransferCompensation::Handset(HandsetEffect::SetCallState {
            device_id: station(),
            call_id: CallId(7),
            state: PhoneCallState::Connected,
            stop_media: false,
        })
    );
    assert_eq!(
        back(Some(leg(8)), TransferSetupMilestone::ConsultationChannelCreated),
        TransferCompensation::HangUpAndRemove(PbxCallId(108))
    );
    assert_eq!(
        back(Some(leg(8)), TransferSetupMilestone::ConsultationHandsetStarted),
        TransferCompensation::Send(PhoneCommand {
            device_id: station(),
            action: PhoneCommandAction::CloseCall { call_id: CallId(8) },
        })
    );
    assert_eq!(
        back(None, TransferSetupMilestone::ConsultationChannelCreated),
        TransferCompensation::Nothing
    );
}

#[test]
fn given_up_transfers_lose_their_consultation() {
    assert_eq!(
        abort_transfer_execution(&transfer(Some(leg(8))), Some(true)),
        Some(Some(PbxCallId(108)))
    );
    assert_eq!(abort_transfer_execution(&transfer(Some(leg(8))), Some(false)), Some(None));
    assert_eq!(abort_transfer_execution(&transfer(Some(leg(8))), None), None);
    assert_eq!(
        close_stale_transfer_consultation(&transfer(Some(leg(8)))),
        Some(HandsetEffect::SetCallState {
            device_id: station(),
            call_id: CallId(8),
            state: PhoneCallState::OnHook,
            stop_media: true,
        })
    );
    assert_eq!(close_stale_transfer_consultation(&transfer(None)), None);
}

#[test]
fn failed_completions_are_refused_and_may_hang_up() {
    assert!(completion_succeeded(true, true));
    assert!(!completion_succeeded(false, true));
    let shown = execute_transfer_completion(&completion(TransferCompletionKind::Attended), true);
    assert_eq!(
        shown,
        Some(PhoneCommand {
            device_id: station(),
            action: PhoneCommandAction::DisplayPrompt {
                call_id: CallId(8),
                timeout_seconds: 0,
                prompt: Prompt::CompletingTransfer,
            },
        })
    );
    assert_eq!(
        execute_transfer_completion(&completion(TransferCompletionKind::Attended), false),
        None
    );
    let attended = finish_failed_completion(
        &completion(TransferCompletionKind::Attended),
        Some(Some(DeferredTransferAction::OnHook)),
    )
    .unwrap();
    assert_eq!(attended.remove, Some(PbxCallId(108)));
    assert_eq!(attended.hang_up, Some(CallId(7)));
    assert_eq!(attended.refusal.prompt, prompt(4, Prompt::CanNotCompleteTransfer));
    assert_eq!(
        attended.refusal.tone.action,
        PhoneCommandAction::StartTone { call_id: CallId(7), tone: Tone::BeepBonk }
    );
    let direct = finish_failed_completion(
        &completion(TransferCompletionKind::Direct),
        Some(Some(DeferredTransferAction::EndCall)),
    )
    .unwrap();
    assert_eq!(direct.remove, None);
    assert_eq!(direct.hang_up, None);
    assert!(
        finish_failed_completion(&completion(TransferCompletionKind::Blind), None).is_none()
    );
}

#[test]
fn refused_direct_transfers_are_shown_on_an_active_call() {
    assert_eq!(
        handle_direct_transfer(
            station(),
            Some(CallId(7)),
            Some(TransferRejection::CompletionInProgress),
        )
        .unwrap()
        .prompt,
        prompt(4, Prompt::TransferInProgress)
    );
    assert!(
        handle_direct_transfer(station(), None, Some(TransferRejection::Conflict)).is_none()
    );
    assert!(handle_direct_transfer(station(), Some(CallId(7)), None).is_none());
    assert!(!transfer_hangup_handled(true, true));
    assert!(transfer_hangup_handled(true, false));
    assert!(transfer_hangup_handled(false, true));
}

fn features(groups: Vec<u8>) -> LineFeatures {
    LineFeatures {
        line: "1001".to_owned(),
        voicemail_number: None,
        voicemail_divert: None,
        pickup: PickupConfig {
            call_groups: Vec::new(),
            pickup_groups: groups,
            named_call_groups: Vec::new(),
            named_pickup_groups: Vec::new(),
            directed: true,
            directed_context: None,
            answer_directed: true,
        },
        parking_lot: Some("default".to_owned()),
        dial_tones: DialTones { inside: 33, outside: 34 },
        incoming_limit: None,
    }
}

#[test]
fn pickup_follows_the_line() {
    let mut access = access();
    assert_eq!(
        handle_pickup_soft_key(&access, &station(), 1, true),
        PickupKeyAction::Reject(PickupRejection::Unavailable)
    );
    access.shared.config.line_features.push(features(vec![4]));
    match handle_pickup_soft_key(&access, &station(), 1, true) {
        PickupKeyAction::Directed { permitted, enabled, context, answer } => {
            assert!(permitted && enabled && answer);
            assert_eq!(context, "from-sccp");
        }
        other => panic!("unexpected action {other:?}"),
    }
    access.shared.config.line_features[0] = features(Vec::new());
    assert_eq!(
        handle_pickup_soft_key(&access, &station(), 1, false),
        PickupKeyAction::Group { permitted: false, answer: true }
    );
    assert_eq!(
        prompt_for_pickup(station(), CallId(7)),
        prompt(0, Prompt::EnterPickupExtension)
    );
    let refused = reject_pickup(&access, station(), CallId(7), PickupRejection::Conflict);
    assert_eq!(refused.prompt, prompt(4, Prompt::AnotherPickupAttemptWon));
    assert!(refused.close.is_none());
    access.shared.controller.appearances[0].state = CallState::Collecting;
    assert!(
        reject_pickup(&access, station(), CallId(7), PickupRejection::Disabled).close.is_some()
    );
}

#[test]
fn calls_are_parked_in_the_lot_of_the_button_or_of_the_line() {
    let mut access = access();
    access.shared.config.line_features.push(features(Vec::new()));
    let lobby = "lobby".to_owned();
    let line_lot = "default".to_owned();
    assert_eq!(
        handle_park_request(&access, &station(), 1, Some(&lobby)),
        ParkAction::Prepare { enabled: true, lot: Some(&lobby) }
    );
    assert_eq!(
        handle_park_request(&access, &station(), 1, None),
        ParkAction::Prepare { enabled: true, lot: Some(&line_lot) }
    );
    assert!(matches!(
        handle_park_request(&access, &station(), 9, None),
        ParkAction::Reject(_)
    ));
    assert_eq!(retrieval_binding(&access, &station(), 0).unwrap().line_instance, 1);
    assert!(retrieval_binding(&access, &station(), 9).is_none());
}

fn parked(lot: &str) -> ParkedCall {
    ParkedCall {
        lot: lot.to_owned(),
        slot: 701,
        parkee_unique_id: "1700000000.4".to_owned(),
        caller_name: "Ann".to_owned(),
        caller_number: "4000".to_owned(),
        connected_name: String::new(),
        connected_number: String::new(),
    }
}

#[test]
fn stations_with_a_button_for_a_lot_show_it() {
    let access = access();
    assert_eq!(
        publish_parking_lot(&access, "lobby", &vec![parked("roof"), parked("lobby")]),
        vec![PhoneCommand {
            device_id: station(),
            action: PhoneCommandAction::SetFeatureStatus { instance: 5, enabled: true },
        }]
    );
    assert_eq!(
        publish_parking_lot(&access, "lobby", &vec![parked("roof")]),
        vec![PhoneCommand {
            device_id: station(),
            action: PhoneCommandAction::SetFeatureStatus { instance: 5, enabled: false },
        }]
    );
    assert!(publish_parking_lot(&access, "roof", &vec![parked("roof")]).is_empty());
    let event = || ParkingEvent {
        lot: "lobby".to_owned(),
        slot: 701,
        retriever_channel: "SCCP/1001-7".to_owned(),
    };
    let (lot, apply) = handle_parking_event(event(), Some(CallId(7)));
    assert_eq!(apply, ApplyParkingEvent { event: event(), retriever: Some(CallId(7)) });
    let update = ParkingUpdate {
        retired_peers: vec!["SCCP/1001-9".to_owned()],
        effects: vec![hold(1)],
        prompts: vec![ParkingPrompt {
            device_id: station(),
            call_id: CallId(7),
            timeout_seconds: 5,
            text: "Parked at 701".to_owned(),
        }],
        close: vec![ParkingClosure { device_id: station(), call_id: CallId(8) }],
    };
    let send = |action| {
        ParkingEventTask::Send(PhoneCommand { device_id: station(), action })
    };
    assert_eq!(
        parking_event_applied(lot, Some(update)),
        vec![
            ParkingEventTask::RetirePeer("SCCP/1001-9".to_owned()),
            ParkingEventTask::ExecuteEffects(vec![hold(1)]),
            send(PhoneCommandAction::DisplayText {
                call_id: CallId(7),
                timeout_seconds: 5,
                text: "Parked at 701".to_owned(),
            }),
            send(PhoneCommandAction::CloseCall { call_id: CallId(8) }),
            ParkingEventTask::PublishLot { lot: "lobby".to_owned() },
        ]
    );
    // The lot is published although the controller failed.
    assert_eq!(
        parking_event_applied("roof".to_owned(), None),
        vec![ParkingEventTask::PublishLot { lot: "roof".to_owned() }]
    );
}

#[test]
fn menus_hold_as_many_calls_as_fit() {
    let parked = |slot: u32| ParkedCall {
        lot: "lobby".to_owned(),
        slot,
        parkee_unique_id: format!("id-{slot}"),
        caller_name: "Caller".to_owned(),
        caller_number: "4000".to_owned(),
        connected_name: String::new(),
        connected_number: String::new(),
    };
    let command = show_parking_menu(
        station(),
        5,
        &"lobby".to_owned(),
        &vec![
            parked(701),
            ParkedCall { lot: "roof".to_owned(), ..parked(801) },
            parked(702),
            parked(703),
        ],
        2,
    );
    match command.action {
        PhoneCommandAction::ShowParkingMenu { instance, transaction_id, lot, calls } => {
            assert_eq!((instance, transaction_id), (5, 5));
            assert_eq!(lot, "lobby");
            assert_eq!(calls.iter().map(|call| call.slot).collect::<Vec<_>>(), vec![701, 702]);
        }
        other => panic!("unexpected action {other:?}"),
    }
}
