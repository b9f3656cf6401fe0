//! Events of handsets and what the driver makes of them.

#![allow(dead_code)]

use chan_sccp2::access::{Access, ChannelBinding, Shared};
use chan_sccp2::config::{
    AdvertisedAddresses, ConferenceConfig, ConfigurationSource, DeviceConfig, DndButton,
    DndButtonMode, FeatureDefaults, GeneralConfig, GeneralNetwork, ModuleConfig, ParkingLotButton,
    ParkingRetrievalBehavior, SignalingConfig,
};
use chan_sccp2::ids::{CallId, DeviceId, PbxCallId, SessionGeneration};
use chan_sccp2::lifecycle::{CallAnswerOrder, FallbackDecision, FallbackRegistration};
use chan_sccp2::model::{
    AppearanceRingMode, AudioEncryptionCapabilities, AudioEncryptionPolicy, AudioFraming,
    AudioProcessingPolicy, CallAppearance, CallDirection, CallMetadata, CallState, Codec,
    ControllerSnapshot, DeviceRegistration, DtmfMode, IpAddress, LineAppearance, LineBinding,
    LineConfig, MediaCapability, MediaPolicy, MediaStreamState, NatMode, NetworkPolicy, PbxCall,
    QosMark, QosPolicy, RegisteredDevice, StationMediaCapabilities, StationTransport,
    VideoMediaState, VideoMode, VideoStreamState,
};
use chan_sccp2::call_control::{
    callback_prompt, forwarding_collector, hang_up_after_transfer, handle_call_control_event,
    selection_command, CallControlAction, ForwardingCollector, HangUpAction, HookFlashAction,
};
use chan_sccp2::commands::{show_prompt, PhoneCommand, PhoneCommandAction};
use chan_sccp2::effect_run::{next_state, start_run, RunEvent, RunRequest, RunState};
use chan_sccp2::effects::{
    ConferenceMutationToken, DriverEffect, HandsetEffect, PbxEffect, TransactionId,
    TransferLeg,
};
use chan_sccp2::transfer::{
    TransferCancellationReason, TransferMode, TransferPhase, TransferTransaction,
};
use chan_sccp2::events::{
    phone_event_family, MediaStatus, PhoneDeviceEvent, PhoneDeviceEventKind, PhoneEventFamily,
    SoftKey, TransmitOpenOutcome,
};
use chan_sccp2::features::{
    execute_dnd_mutation, finish_call_privacy, finish_dnd_mutation, handle_dnd_button,
    handle_feature_button, handle_feature_soft_key, handle_recording_button,
    log_feature_store_error, publish_ami_event, toggle_forwarding, DndMutation, FeatureKeyAction,
    FeatureStateChange, FeatureStoreError, FeatureStored, FeatureTask, LogLevel,
    RecordingButtonAction, RuntimeDndMutation, RuntimeDndMutationError,
};
use chan_sccp2::startup::DialDigit;
use chan_sccp2::forwarding::{
    begin_collection, cancel_no_answer_timer, continue_forwarding_commit, expire_forwarding_entry,
    finish_forwarding_commit, handle_forwarding_digit, handle_forwarding_soft_key,
    send_confirmed_forwarding, CollectionAction, CollectionReply, CollectionState, CommitAction,
    CommitReply, CommitState, ForwardingCommit, ForwardingDigitOutcome, ForwardingEntryId,
    ForwardingCollection, ForwardingExpiry, ForwardingInputAction, ForwardingKeyAction,
    ForwardingKind,
    ForwardingRejection, ForwardingWriteOutcome,
};
use chan_sccp2::ids::{ConferenceId, ParticipantId};
use chan_sccp2::hold::{
    handle_hold_or_resume, hold_rejection_prompt, ConferenceListTarget,
    ConferenceParticipantRejection, HoldAction, HoldEvent, HoldPlan, HoldRequest, HoldReservation,
    HoldState, ReservedHold,
};
use chan_sccp2::media_events::{
    continue_media_event, handle_media_event, MediaEventAction, MediaEventReply, MediaEventState,
    PublishedMediaState,
};
use chan_sccp2::model::{
    DeviceFeatureState, DndMode, FeatureButtonState, ForwardingEntryKey, ForwardingState,
    MediaEndpoint,
};
use chan_sccp2::phone_events::{handle_phone_event, PhoneEvent, PhoneEventRoute};
use chan_sccp2::prompts::Prompt;

fn mark(dscp: u8) -> QosMark {
    QosMark { dscp, cos: 5 }
}

fn qos() -> QosPolicy {
    QosPolicy { signaling: mark(24), audio: mark(46), video: mark(34) }
}

fn media(codecs: Vec<Codec>) -> MediaPolicy {
    MediaPolicy {
        codecs,
        dtmf_mode: DtmfMode::Rfc2833,
        audio_processing: AudioProcessingPolicy { echo_cancellation: true, silence_suppression: false },
        early_media: true,
        direct_media: true,
        video_mode: VideoMode::Auto,
        audio_encryption: AudioEncryptionPolicy(1),
    }
}

fn line(number: &str) -> LineConfig {
    LineConfig {
        number: number.to_owned(),
        label: "Desk".to_owned(),
        context: "from-sccp".to_owned(),
        caller_name: "Desk".to_owned(),
        caller_number: number.to_owned(),
        mailbox: Some(format!("{number}@default")),
        language: "en".to_owned(),
        account_code: None,
        channel_variables: Vec::new(),
    }
}

fn binding(device: &str, instance: u32, number: &str) -> LineBinding {
    LineBinding {
        device_id: DeviceId::named(device),
        line_instance: instance,
        appearance: LineAppearance {
            id: 10 + instance,
            label: "Desk".to_owned(),
            ring_mode: AppearanceRingMode::Normal,
            privacy: false,
            subscription_identity: None,
        },
        line: line(number),
        media: Some(media(vec![Codec::G722, Codec::Pcma, Codec::Pcmu])),
        hotline: None,
        conference_dialing: None,
    }
}

fn device(name: &str) -> DeviceConfig {
    DeviceConfig {
        id: DeviceId::named(name),
        description: "Reception".to_owned(),
        channel_variables: Vec::new(),
        lines: vec!["1001".to_owned()],
        buttons: Vec::new(),
        blf_targets: Vec::new(),
        dnd_buttons: vec![DndButton { instance: 3, mode: DndButtonMode::Silent }],
        recording_buttons: vec![4],
        dnd_schedules: Vec::new(),
        parking_enabled: true,
        parking_buttons: vec![ParkingLotButton {
            instance: 5,
            lot: "lobby".to_owned(),
            retrieval: ParkingRetrievalBehavior::RetrieveSingle,
        }],
        feature_defaults: FeatureDefaults {
            dnd_enabled: true,
            privacy_enabled: true,
            forward_all_enabled: true,
            forward_busy_enabled: false,
            forward_no_answer_enabled: true,
        },
        network: NetworkPolicy { nat: NatMode::Auto, qos: qos() },
        conference: ConferenceConfig {
            allowed: true,
            show_conference_list: true,
            music_on_hold_class: "default".to_owned(),
            mute_on_entry: false,
            play_general_announcements: true,
            play_participant_announcements: true,
        },
        allow_overlap: false,
    }
}

fn signaling() -> SignalingConfig {
    SignalingConfig {
        clear_listener: None,
        advertised_address: None,
        server_name: "switch".to_owned(),
        keepalive_seconds: 60,
        secondary_keepalive_seconds: 60,
        signaling_servers: Vec::new(),
        fallback_registration: FallbackRegistration {
            decision: FallbackDecision::Reject,
            backoff_seconds: 30,
            server_priority: 1,
        },
        dial_terminator: Some('#'),
        record_dial_terminator: false,
        simulate_enbloc: true,
        first_digit_timeout_ms: 16000,
        interdigit_timeout_ms: 8000,
        call_answer_order: CallAnswerOrder::OldestFirst,
        timezone_offset_minutes: 0,
        date_template: "D.M.Y".to_owned(),
    }
}

fn config() -> ModuleConfig {
    ModuleConfig {
        general: GeneralConfig {
            configuration_source: ConfigurationSource::File,
            bind: IpAddress::V4(0),
            codecs: vec![Codec::Pcma, Codec::Pcmu],
            qos: qos(),
            network: GeneralNetwork {
                nat: NatMode::Off,
                local_networks: Vec::new(),
                advertised: AdvertisedAddresses { ipv4: None, ipv6: None },
            },
            jitter_buffer_forced: false,
            transfer_on_hangup: true,
            audio_processing_default: AudioProcessingPolicy {
                echo_cancellation: false,
                silence_suppression: false,
            },
            audio_framing_default: AudioFraming { packet_ms: 20, max_frames_per_packet: 1 },
            timezone: None,
            audio_encryption: AudioEncryptionPolicy(7),
            signaling: signaling(),
        },
        devices: vec![device("SEP001122334455")],
        lines: vec![line("1001")],
        line_features: Vec::new(),
        bindings: vec![binding("SEP001122334455", 1, "1001")],
        guest_bindings: vec![binding("SEPGUEST00000", 1, "guest")],
    }
}

fn registered(name: &str) -> RegisteredDevice {
    RegisteredDevice {
        id: DeviceId::named(name),
        session_generation: SessionGeneration(3),
        registration: DeviceRegistration {
            id: DeviceId::named(name),
            device_type: 436,
            protocol: 20,
            peer: IpAddress::V4(0x0a00_0001),
            reported_address: None,
            firmware: "9.4".to_owned(),
            transport: StationTransport::Clear,
        },
        capabilities: Some(StationMediaCapabilities::from_audio(vec![MediaCapability {
            codec: Codec::G722,
            max_packet_ms: 40,
            codec_parameters: [0; 8],
        }])),
        audio_encryption: AudioEncryptionCapabilities(5),
        selected_calls: Vec::new(),
        selected_line: None,
    }
}

fn appearance(call: u64, pbx: u64, device: &str, state: CallState) -> CallAppearance {
    CallAppearance {
        sccp_id: CallId(call),
        pbx_id: PbxCallId(pbx),
        device_id: DeviceId::named(device),
        line_instance: 1,
        state,
        privacy: false,
        party_restrictions: 0,
        codec: Codec::G722,
        audio: MediaStreamState::Closed,
        audio_transmit: MediaStreamState::Closed,
        video: VideoMediaState {
            receive: VideoStreamState::Closed,
            transmit: VideoStreamState::Closed,
        },
    }
}

fn pbx_call(pbx: u64, state: CallState) -> PbxCall {
    PbxCall {
        pbx_id: PbxCallId(pbx),
        line: "1001".to_owned(),
        context: "from-sccp".to_owned(),
        state,
        direction: CallDirection::Outbound,
        digits: "4000".to_owned(),
        privacy: false,
        metadata: CallMetadata {
            ani: Some("1001".to_owned()),
            ani_visible: true,
            rdnis: None,
            rdnis_visible: true,
            dnid: None,
            account_code: None,
            language: None,
            variables: Vec::new(),
        },
        active_call_id: Some(CallId(7)),
        conference_id: None,
        barged: false,
    }
}

fn access() -> Access {
    Access {
        shared: Shared {
            config: config(),
            controller: ControllerSnapshot {
                registered: vec![registered("SEP001122334455")],
                features: Vec::new(),
                calls: vec![pbx_call(1, CallState::Connected)],
                appearances: vec![appearance(7, 1, "SEP001122334455", CallState::Connected)],
                runtime: Vec::new(),
                mobility: Vec::new(),
                forwarding_entries: Vec::new(),
            },
            channels: vec![ChannelBinding {
                handle: 1,
                pbx_id: PbxCallId(1),
                closed: false,
                name: Some("SCCP/1001-1".to_owned()),
            }],
            retired: Vec::new(),
            destinations: Vec::new(),
            anchored: Vec::new(),
        },
    }
}

fn station() -> DeviceId {
    DeviceId::named("SEP001122334455")
}

fn event(kind: PhoneDeviceEventKind) -> PhoneDeviceEvent {
    PhoneDeviceEvent { device_id: station(), session_generation: SessionGeneration(3), event: kind }
}

fn endpoint(port: u16) -> MediaEndpoint {
    MediaEndpoint {
        address: IpAddress::V4(0x0a00_0002),
        rtp_port: port,
        rtcp_port: port + 1,
        codec: Codec::G722,
        packet_ms: 20,
        max_frames_per_packet: 1,
        telephone_event_payload: 101,
    }
}

fn features() -> DeviceFeatureState {
    DeviceFeatureState {
        dnd: DndMode::Off,
        privacy: false,
        forwarding: ForwardingState { all: None, busy: None, no_answer: None },
        buttons: vec![FeatureButtonState { instance: 6, enabled: false }],
        recording_armed: false,
    }
}

#[test]
fn events_belong_to_one_family() {
    assert_eq!(
        phone_event_family(&PhoneDeviceEventKind::Disconnected),
        PhoneEventFamily::Session
    );
    assert_eq!(
        phone_event_family(&PhoneDeviceEventKind::Digit { call_id: CallId(7), digit: '1' }),
        PhoneEventFamily::CallControl
    );
    assert_eq!(
        phone_event_family(&PhoneDeviceEventKind::HandsetAcknowledgementTimedOut {
            call_id: CallId(7),
        }),
        PhoneEventFamily::Media
    );
    assert_eq!(phone_event_family(&PhoneDeviceEventKind::Alarm), PhoneEventFamily::Telemetry);
}

#[test]
fn events_of_former_sessions_are_stale() {
    let access = access();
    let current = PhoneEvent::Device(event(PhoneDeviceEventKind::Alarm));
    assert_eq!(
        handle_phone_event(&access, &current),
        PhoneEventRoute::Handle(PhoneEventFamily::Telemetry)
    );
    let mut former = event(PhoneDeviceEventKind::Alarm);
    former.session_generation = SessionGeneration(2);
    assert_eq!(
        handle_phone_event(&access, &PhoneEvent::Device(former)),
        PhoneEventRoute::Stale
    );
    assert_eq!(handle_phone_event(&access, &PhoneEvent::SessionError), PhoneEventRoute::Report);
}

#[test]
fn going_off_hook_begins_a_call_or_is_refused() {
    let access = access();
    let off_hook = || event(PhoneDeviceEventKind::OffHook { call_id: CallId(9), line_instance: 1 });
    assert!(matches!(
        handle_call_control_event(&access, Some(Codec::G722), HookFlashAction::Ignore, off_hook()),
        CallControlAction::BeginCall { call_id: CallId(9), codec: Codec::G722, .. }
    ));
    match handle_call_control_event(&access, None, HookFlashAction::Ignore, off_hook()) {
        CallControlAction::RefuseCall { prompt, close } => {
            assert!(matches!(
                prompt.action,
                PhoneCommandAction::DisplayPrompt { prompt: Prompt::NoCompatibleAudioCodec, .. }
            ));
            assert!(matches!(close.action, PhoneCommandAction::CloseCall { call_id: CallId(9) }));
        }
        _ => panic!("the call was not refused"),
    }
}

#[test]
fn hotlines_dial_when_they_go_off_hook() {
    let mut access = access();
    access.shared.config.bindings[0].hotline = Some("5000".to_owned());
    let action = handle_call_control_event(
        &access,
        Some(Codec::Pcma),
        HookFlashAction::Ignore,
        event(PhoneDeviceEventKind::OffHook { call_id: CallId(9), line_instance: 1 }),
    );
    assert!(matches!(
        action,
        CallControlAction::BeginHotlineCall { destination, .. } if destination == "5000"
    ));
}

#[test]
fn digits_go_to_a_collection_of_the_same_station_only() {
    let mut access = access();
    let digit = || event(PhoneDeviceEventKind::Digit { call_id: CallId(7), digit: '5' });
    assert!(matches!(
        handle_call_control_event(&access, None, HookFlashAction::Ignore, digit()),
        CallControlAction::DialDigit { call_id: CallId(7), digit: '5' }
    ));
    access.shared.controller.forwarding_entries.push(ForwardingEntryKey {
        device_id: station(),
        call_id: CallId(7),
    });
    assert_eq!(
        forwarding_collector(&access, &station(), CallId(7)),
        ForwardingCollector::ThisStation
    );
    assert!(matches!(
        handle_call_control_event(&access, None, HookFlashAction::Ignore, digit()),
        CallControlAction::ForwardingDigit { digit: '5', .. }
    ));
    access.shared.controller.forwarding_entries[0].device_id = DeviceId::named("SEP0");
    assert_eq!(
        forwarding_collector(&access, &station(), CallId(7)),
        ForwardingCollector::AnotherStation
    );
    assert!(matches!(
        handle_call_control_event(&access, None, HookFlashAction::Ignore, digit()),
        CallControlAction::Ignore
    ));
}

#[test]
fn soft_keys_reach_their_services() {
    let access = access();
    let key = |soft_key| {
        event(PhoneDeviceEventKind::SoftKey {
            key_call_id: Some(CallId(7)),
            line_instance: 1,
            soft_key,
        })
    };
    assert!(matches!(
        handle_call_control_event(&access, None, HookFlashAction::Ignore, key(SoftKey::Hold)),
        CallControlAction::Hold { call_id: CallId(7) }
    ));
    assert!(matches!(
        handle_call_control_event(&access, None, HookFlashAction::Ignore, key(SoftKey::Park)),
        CallControlAction::Park { call_id: CallId(7), line_instance: 1, .. }
    ));
    assert!(matches!(
        handle_call_control_event(&access, None, HookFlashAction::Ignore, key(SoftKey::Pickup)),
        CallControlAction::Pickup { directed: true, .. }
    ));
    assert!(matches!(
        handle_call_control_event(
            &access,
            None,
            HookFlashAction::Ignore,
            key(SoftKey::GroupPickup)
        ),
        CallControlAction::Pickup { directed: false, .. }
    ));
    let other = DeviceId::named("SEPOTHER");
    let mut access = access;
    let request = |access: &Access| {
        let action =
            handle_call_control_event(access, None, HookFlashAction::Ignore, key(SoftKey::Callback));
        match action {
            CallControlAction::RequestCallback { device_id, call_id, owner } => {
                assert_eq!((device_id, call_id), (station(), CallId(7)));
                owner.map(|owner| (owner.device_id.clone(), owner.call_id, owner.channel))
            }
            other => panic!("unexpected action {other:?}"),
        }
    };
    // The call may belong to another station than the one that asks.
    access.shared.controller.appearances[0].device_id = other.clone();
    assert_eq!(request(&access), Some((other, CallId(7), PbxCallId(1))));
    access.shared.channels[0].closed = true;
    assert_eq!(request(&access), None);
}

#[test]
fn callbacks_and_selections_are_confirmed() {
    let shown = callback_prompt(station(), CallId(7), None);
    assert!(matches!(
        shown.action,
        PhoneCommandAction::DisplayPrompt { prompt: Prompt::CallbackRequested, .. }
    ));
    assert_eq!(selection_command(station(), CallId(7), None), None);
    assert!(matches!(
        selection_command(station(), CallId(7), Some(true)).unwrap().action,
        PhoneCommandAction::SetCallSelected { call_id: CallId(7), selected: true }
    ));
    assert!(matches!(hang_up_after_transfer(true, true), HangUpAction::Finish));
    assert!(matches!(
        hang_up_after_transfer(true, false),
        HangUpAction::EndCall { physical: true }
    ));
}

#[test]
fn effects_run_once_and_in_order() {
    let mut state = start_run(2);
    let mut performed = Vec::new();
    loop {
        match state.request() {
            RunRequest::CheckActive => state = next_state(2, state, RunEvent::Active(true)),
            RunRequest::Perform(index) => {
                performed.push(index);
                state = next_state(2, state, RunEvent::Performed(true));
            }
            RunRequest::Stop => break,
        }
    }
    assert_eq!(performed, vec![0, 1]);
    assert_eq!(state, RunState::Complete);
    let stale = next_state(2, start_run(2), RunEvent::Active(false));
    assert_eq!(stale, RunState::Stale { done: 0 });
    assert_eq!(stale.request(), RunRequest::Stop);
}

fn transfer_of(call: u64) -> TransferTransaction {
    TransferTransaction {
        id: TransactionId(4),
        device_id: station(),
        phase: TransferPhase::Consulting,
        mode: TransferMode::Consultation,
        source: TransferLeg { handset_call_id: CallId(call), pbx_call_id: PbxCallId(1) },
        consultation: None,
    }
}

#[test]
fn holding_cancels_a_transfer_of_the_call_first() {
    let request = HoldRequest { call_id: CallId(7), held: false, pbx_originated: false };
    let access = access();
    let (_, action) = handle_hold_or_resume(
        &access,
        request,
        HoldState::CheckingTransfer,
        HoldEvent::Transfer(Some(transfer_of(7))),
    );
    assert_eq!(
        action,
        HoldAction::CancelTransfer {
            transaction: transfer_of(7),
            reason: TransferCancellationReason::SourceResume,
        }
    );
    let request = HoldRequest { call_id: CallId(7), held: false, pbx_originated: false };
    let (state, action) = handle_hold_or_resume(
        &access,
        request,
        HoldState::CheckingTransfer,
        HoldEvent::Transfer(Some(transfer_of(6))),
    );
    assert!(matches!(state, HoldState::Planning));
    assert_eq!(action, HoldAction::PrepareHold { call_id: CallId(7), held: false });
    let request = HoldRequest { call_id: CallId(7), held: false, pbx_originated: false };
    let (state, action) = handle_hold_or_resume(
        &access,
        request,
        state,
        HoldEvent::Planned(HoldPlan::Regular(vec![DriverEffect::Backend(PbxEffect::Resume {
            call_id: PbxCallId(1),
        })])),
    );
    assert!(matches!(state, HoldState::Done));
    assert!(matches!(action, HoldAction::Execute { handset_only: false, .. }));
}

fn reservation() -> HoldReservation {
    HoldReservation {
        device_id: station(),
        conference_id: ConferenceId(5),
        participant_id: ParticipantId(2),
        mutation: ConferenceMutationToken(8),
        effects: vec![DriverEffect::Backend(PbxEffect::Hold { call_id: PbxCallId(1) })],
    }
}

#[test]
fn reserved_holds_name_their_reservation() {
    let mut access = access();
    let request = |held| HoldRequest { call_id: CallId(7), held, pbx_originated: false };
    let run = |held: bool, events: Vec<RunEvent>| {
        let (mut state, mut action) = handle_hold_or_resume(
            &access,
            request(held),
            HoldState::Planning,
            HoldEvent::Planned(HoldPlan::Reserved(reservation())),
        );
        for event in events {
            (state, action) =
                handle_hold_or_resume(&access, request(held), state, HoldEvent::Run(event));
        }
        (state, action)
    };
    let reserved = |held| ReservedHold {
        mutation: ConferenceMutationToken(8),
        conference_id: ConferenceId(5),
        participant_id: ParticipantId(2),
        held,
    };
    let undo = || vec![DriverEffect::Backend(PbxEffect::Resume { call_id: PbxCallId(1) })];
    let (state, action) = run(true, vec![RunEvent::Active(true), RunEvent::Performed(false)]);
    assert_eq!(
        action,
        HoldAction::Abort {
            reserved: reserved(true),
            completed_music: vec![],
            handset_attempted: false,
        }
    );
    let (_, action) =
        handle_hold_or_resume(&access, request(true), state, HoldEvent::Aborted(undo()));
    assert_eq!(
        action,
        HoldAction::CleanUpAndShow {
            rollback: undo(),
            shown: show_prompt(station(), CallId(7), 4, Prompt::UnableToHoldConference),
        }
    );
    let whole = || vec![RunEvent::Active(true), RunEvent::Performed(true), RunEvent::Active(true)];
    let (state, action) = run(false, whole());
    assert_eq!(
        action,
        HoldAction::Commit {
            reserved: reserved(false),
            completed_music: vec![],
            handset_attempted: false,
        }
    );
    let (refused, _) = run(false, whole());
    let (_, action) = handle_hold_or_resume(
        &access,
        request(false),
        refused,
        HoldEvent::Committed { committed: false, rollback: undo() },
    );
    assert_eq!(action, HoldAction::CleanUp { rollback: undo() });
    let (state, action) = handle_hold_or_resume(
        &access,
        request(false),
        state,
        HoldEvent::Committed { committed: true, rollback: vec![] },
    );
    assert_eq!(action, HoldAction::LookUpList(ConferenceId(5)));
    assert_eq!(state, HoldState::LookingUpList);
    let target = || {
        HoldEvent::List(Some(ConferenceListTarget {
            device_id: station(),
            original_handset_call_id: CallId(6),
        }))
    };
    access.shared.config.devices[0].conference.show_conference_list = false;
    let (_, action) =
        handle_hold_or_resume(&access, request(false), HoldState::LookingUpList, target());
    assert_eq!(action, HoldAction::Finish);
    access.shared.config.devices[0].conference.show_conference_list = true;
    let (_, action) =
        handle_hold_or_resume(&access, request(false), HoldState::LookingUpList, target());
    assert_eq!(
        action,
        HoldAction::ShowConferenceList { device_id: station(), call_id: CallId(6) }
    );
}

#[test]
fn refused_holds_say_why() {
    assert_eq!(
        hold_rejection_prompt(ConferenceParticipantRejection::NotModerator),
        Prompt::ModeratorActionRequired
    );
    assert_eq!(
        hold_rejection_prompt(ConferenceParticipantRejection::Conflict),
        Prompt::ConferenceActionInProgress
    );
    assert_eq!(
        hold_rejection_prompt(ConferenceParticipantRejection::Unavailable),
        Prompt::ConferenceUnavailable
    );
}

#[test]
fn received_audio_is_accepted_at_a_selected_address() {
    let access = access();
    let (state, action) = handle_media_event(event(PhoneDeviceEventKind::ReceiveChannelOpened {
        call_id: CallId(7),
        status: MediaStatus::Success,
        endpoint: endpoint(4000),
    }));
    assert!(matches!(action, MediaEventAction::SelectAddress { .. }));
    let (state, action) = continue_media_event(
        &access,
        state,
        MediaEventReply::Selected(Ok(IpAddress::V4(9))),
    );
    match action {
        MediaEventAction::AcceptReceive { endpoint, .. } => {
            assert_eq!(endpoint.address, IpAddress::V4(9));
        }
        _ => panic!("the stream was not accepted"),
    }
    let (state, action) = continue_media_event(&access, state, MediaEventReply::Accepted(true));
    assert!(matches!(state, MediaEventState::Done));
    match action {
        MediaEventAction::Publish(report) => {
            assert_eq!(report.state, PublishedMediaState::Open);
            assert_eq!(report.packet_ms, Some(20));
        }
        _ => panic!("nothing was published"),
    }
}

#[test]
fn refused_streams_and_silent_handsets_are_hung_up() {
    let (state, action) = handle_media_event(event(
        PhoneDeviceEventKind::HandsetAcknowledgementTimedOut { call_id: CallId(7) },
    ));
    assert!(matches!(state, MediaEventState::Done));
    assert!(matches!(action, MediaEventAction::HangUp { call_id: CallId(7) }));
    let (_, action) = handle_media_event(event(PhoneDeviceEventKind::TransmitChannelOpen {
        call_id: CallId(7),
        outcome: TransmitOpenOutcome::Rejected(MediaStatus::Failed(3)),
        endpoint: endpoint(5000),
    }));
    assert!(!matches!(action, MediaEventAction::AcceptTransmit { .. }));
}

#[test]
fn dnd_changes_only_where_it_is_enabled() {
    let mut access = access();
    assert_eq!(
        execute_dnd_mutation(
            &access,
            &station(),
            RuntimeDndMutation::Button(3),
            Some(DndMode::Reject),
            true,
            true,
        ),
        Ok(DndMutation::Toggle(DndButtonMode::Silent))
    );
    assert_eq!(
        execute_dnd_mutation(
            &access,
            &station(),
            RuntimeDndMutation::Button(9),
            Some(DndMode::Reject),
            true,
            true,
        ),
        Err(RuntimeDndMutationError::ButtonNotFound)
    );
    assert_eq!(
        execute_dnd_mutation(
            &access,
            &station(),
            RuntimeDndMutation::SoftKey,
            Some(DndMode::Reject),
            false,
            true,
        ),
        Err(RuntimeDndMutationError::Unavailable)
    );
    assert_eq!(
        execute_dnd_mutation(
            &access,
            &DeviceId::named("SEP0"),
            RuntimeDndMutation::SoftKey,
            Some(DndMode::Reject),
            true,
            true,
        ),
        Err(RuntimeDndMutationError::DeviceNotFound)
    );
    access.shared.config.devices[0].feature_defaults.dnd_enabled = false;
    assert_eq!(
        execute_dnd_mutation(
            &access,
            &station(),
            RuntimeDndMutation::Mode(DndMode::Silent),
            Some(DndMode::Reject),
            true,
            true,
        ),
        Err(RuntimeDndMutationError::FeatureDisabled)
    );
    assert_eq!(
        execute_dnd_mutation(
            &access,
            &station(),
            RuntimeDndMutation::Scheduled(DndMode::Silent),
            Some(DndMode::Reject),
            true,
            true,
        ),
        Ok(DndMutation::Mode(DndMode::Silent))
    );
}

#[test]
fn stored_dnd_changes_are_published() {
    let (tasks, result) = finish_dnd_mutation(FeatureStored::Stored);
    assert_eq!(
        tasks,
        vec![FeatureTask::PublishFeatures, FeatureTask::PublishLines, FeatureTask::PublishChanges]
    );
    assert_eq!(result, Ok(()));
    let failed = FeatureStored::Failed(FeatureStoreError::Other { reason: "full".to_owned() });
    let (tasks, result) = finish_dnd_mutation(failed);
    assert_eq!(tasks, vec![FeatureTask::PublishCurrent]);
    let (level, words) = handle_dnd_button(&station(), &result).unwrap();
    assert_eq!(level, LogLevel::Warning);
    assert_eq!(words, "unable to persist handset DND mutation for SEP001122334455: full");
    assert_eq!(handle_dnd_button(&station(), &Ok(())), None);
}

#[test]
fn lost_rollbacks_are_errors() {
    let (level, words) = log_feature_store_error(
        "store it",
        None,
        &FeatureStoreError::Rollback { reason: "disk".to_owned() },
    );
    assert_eq!(level, LogLevel::Error);
    assert_eq!(words, "unable to store it: disk");
    assert_eq!(publish_ami_event(Ok(())), None);
    assert_eq!(
        publish_ami_event(Err("closed".to_owned())),
        Some((LogLevel::Warning, "unable to publish a management event: closed".to_owned()))
    );
}

#[test]
fn toggles_undo_themselves() {
    let mut state = features();
    FeatureStateChange::TogglePrivacy.apply(&mut state);
    FeatureStateChange::ToggleButton(6).apply(&mut state);
    FeatureStateChange::ToggleRecordingArmed.apply(&mut state);
    assert!(state.privacy && state.buttons[0].enabled && state.recording_armed);
    FeatureStateChange::TogglePrivacy.apply(&mut state);
    FeatureStateChange::ToggleButton(6).apply(&mut state);
    FeatureStateChange::ToggleRecordingArmed.apply(&mut state);
    assert_eq!(state, features());
    FeatureStateChange::SetDnd(DndMode::Reject).apply(&mut state);
    assert_eq!(state.dnd, DndMode::Reject);
    let configured = Some("5000".to_owned());
    assert_eq!(toggle_forwarding(None, configured.clone()), configured);
    assert_eq!(toggle_forwarding(Some("1".to_owned()), configured), None);
}

#[test]
fn feature_keys_and_buttons_are_told_apart() {
    let access = access();
    assert_eq!(
        handle_feature_soft_key(&access, &station(), None, SoftKey::Private),
        FeatureKeyAction::TogglePrivacy
    );
    assert_eq!(
        handle_feature_soft_key(&access, &station(), Some(CallId(7)), SoftKey::Private),
        FeatureKeyAction::CallPrivacy(CallId(7))
    );
    assert_eq!(
        handle_feature_soft_key(&access, &station(), None, SoftKey::ForwardAll),
        FeatureKeyAction::Forwarding
    );
    assert_eq!(
        handle_feature_soft_key(&access, &DeviceId::named("SEP0"), None, SoftKey::Private),
        FeatureKeyAction::Ignore
    );
    assert_eq!(handle_feature_button(&access, &station(), 77), None);
    assert_eq!(
        handle_recording_button(&access, &station(), 4, Some(CallId(7)), &vec![]),
        RecordingButtonAction::ToggleRecording(CallId(7))
    );
    assert_eq!(
        handle_recording_button(&access, &station(), 4, None, &vec![]),
        RecordingButtonAction::ToggleArmed
    );
    assert_eq!(
        handle_recording_button(&access, &station(), 5, Some(CallId(7)), &vec![]),
        RecordingButtonAction::Ignore
    );
}

#[test]
fn refused_privacy_is_put_back() {
    let access = access();
    let refused = finish_call_privacy(&access, station(), CallId(7), true, false);
    assert_eq!(refused.restore, Some(true));
    assert_eq!(refused.publish, None);
    let granted = finish_call_privacy(&access, station(), CallId(7), false, true);
    assert_eq!(granted.restore, None);
    assert_eq!(granted.publish, Some(true));
    assert!(matches!(
        granted.prompt.action,
        PhoneCommandAction::DisplayPrompt {
            prompt: Prompt::PrivacyEnabled,
            timeout_seconds: 3,
            ..
        }
    ));
}

#[test]
fn forwarding_keys_switch_off_or_collect() {
    let mut access = access();
    let signaling = &access.shared.config.general.signaling;
    assert_eq!(
        handle_forwarding_soft_key(
            &access,
            &station(),
            1,
            SoftKey::ForwardAll,
            Ok(Some(DialDigit(11))),
            Some(Codec::Pcma)
        ),
        ForwardingKeyAction::Collect(ForwardingCollection {
            line_instance: 1,
            kind: ForwardingKind::All,
            codec: Codec::Pcma,
            dial_terminator: Some(DialDigit(11)),
            first_digit_timeout_ms: signaling.first_digit_timeout_ms,
            interdigit_timeout_ms: signaling.interdigit_timeout_ms,
        })
    );
    assert_eq!(
        handle_forwarding_soft_key(
            &access,
            &station(),
            1,
            SoftKey::ForwardAll,
            Err("no key".to_owned()),
            Some(Codec::Pcma)
        ),
        ForwardingKeyAction::Ignore
    );
    // That kind is not enabled for the station.
    assert!(matches!(
        handle_forwarding_soft_key(
            &access,
            &station(),
            1,
            SoftKey::ForwardBusy,
            Ok(None),
            Some(Codec::Pcma)
        ),
        ForwardingKeyAction::Ignore
    ));
    let mut state = features();
    state.forwarding.all = Some("5000".to_owned());
    access.shared.controller.features.push(chan_sccp2::model::DeviceFeatures {
        device_id: station(),
        state,
    });
    assert!(matches!(
        handle_forwarding_soft_key(
            &access,
            &station(),
            1,
            SoftKey::ForwardAll,
            Ok(None),
            Some(Codec::Pcma)
        ),
        ForwardingKeyAction::Disable { kind: ForwardingKind::All, .. }
    ));
}

#[test]
fn collections_that_begin_are_prompted() {
    assert_eq!(send_confirmed_forwarding(true, true), ForwardingWriteOutcome::Written);
    assert_eq!(send_confirmed_forwarding(false, true), ForwardingWriteOutcome::Failed);
    assert_eq!(send_confirmed_forwarding(true, false), ForwardingWriteOutcome::Failed);
    let entry = ForwardingEntryId(5);
    let step = |state, reply| {
        begin_collection(station(), CallId(7), 1, Codec::Pcma, state, reply)
    };
    let (state, action) = step(CollectionState::Entering, CollectionReply::Entered(Some(entry)));
    assert!(matches!(action, CollectionAction::Send(_)));
    let (state, action) = step(state, CollectionReply::Sent(ForwardingWriteOutcome::Written));
    assert!(matches!(action, CollectionAction::Settle { .. }));
    let (state, action) = step(state, CollectionReply::Settled(true));
    assert!(matches!(state, CollectionState::Prompting(ForwardingEntryId(5))));
    assert!(matches!(action, CollectionAction::Send(_)));
    let (state, action) = step(CollectionState::Entering, CollectionReply::Entered(None));
    assert!(matches!(state, CollectionState::Done));
    assert!(matches!(action, CollectionAction::Finish));
}

fn commit() -> ForwardingCommit {
    ForwardingCommit {
        entry: ForwardingEntryId(5),
        device_id: station(),
        call_id: CallId(7),
        line_instance: 1,
        kind: ForwardingKind::All,
        destination: "5000".to_owned(),
    }
}

#[test]
fn destinations_are_set_after_the_collection_is_closed() {
    let access = access();
    let (state, action) = finish_forwarding_commit(&commit());
    assert!(matches!(
        action,
        CommitAction::Send(PhoneCommand {
            action: PhoneCommandAction::CloseCall { call_id: CallId(7) },
            ..
        })
    ));
    let commit = commit();
    let (state, action) = continue_forwarding_commit(
        &access,
        &commit,
        state,
        CommitReply::Sent(ForwardingWriteOutcome::Written),
    );
    assert!(matches!(action, CommitAction::Settle(ForwardingWriteOutcome::Written)));
    let (state, action) =
        continue_forwarding_commit(&access, &commit, state, CommitReply::Settled(true));
    assert!(matches!(action, CommitAction::SetForwarding { line } if line == "1001"));
    let (state, action) =
        continue_forwarding_commit(&access, &commit, state, CommitReply::Mutated(true));
    assert!(matches!(state, CommitState::Done));
    assert!(matches!(action, CommitAction::Commit));
}

#[test]
fn digits_of_a_collection_are_taken_shown_or_committed() {
    let mut access = access();
    assert!(matches!(
        handle_forwarding_digit(
            &access,
            station(),
            CallId(7),
            ForwardingDigitOutcome::Collected
        ),
        ForwardingInputAction::NotCollecting
    ));
    access.shared.controller.forwarding_entries.push(ForwardingEntryKey {
        device_id: station(),
        call_id: CallId(7),
    });
    assert!(matches!(
        handle_forwarding_digit(
            &access,
            station(),
            CallId(7),
            ForwardingDigitOutcome::Collected
        ),
        ForwardingInputAction::Taken
    ));
    assert!(matches!(
        handle_forwarding_digit(
            &access,
            station(),
            CallId(7),
            ForwardingDigitOutcome::Refused(ForwardingRejection::TooLong)
        ),
        ForwardingInputAction::Show(_)
    ));
    assert!(matches!(
        expire_forwarding_entry(ForwardingExpiry::Cancel {
            device_id: station(),
            call_id: CallId(7),
        }),
        ForwardingInputAction::Show(PhoneCommand {
            action: PhoneCommandAction::CloseCall { .. },
            ..
        })
    ));
    assert!(matches!(
        expire_forwarding_entry(ForwardingExpiry::Commit(commit())),
        ForwardingInputAction::Commit(_)
    ));
    assert!(!cancel_no_answer_timer(None));
    assert!(cancel_no_answer_timer(Some(true)));
}

fn handset() -> DriverEffect {
    DriverEffect::Handset(HandsetEffect::BeginMedia {
        device_id: station(),
        call_id: CallId(7),
        codec: Codec::Pcma,
    })
}

#[test]
fn only_media_and_states_count_as_shown() {
    let effects =
        vec![DriverEffect::Backend(PbxEffect::Hold { call_id: PbxCallId(1) }), handset()];
    assert!(!chan_sccp2::hold::handset_attempted(&effects, 1));
    assert!(chan_sccp2::hold::handset_attempted(&effects, 2));
    assert!(chan_sccp2::hold::completed_music(&effects, 2).is_empty());
}
