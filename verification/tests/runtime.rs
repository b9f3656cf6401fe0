//! The driver's rules on concrete values: routing texts, codecs, sockets, presence,
//! recordings, backgrounds and statistics.

use chan_sccp2::backend::{AsteriskBackendError, ChannelAllocationError};
use chan_sccp2::background::{
    resolve_effective_background, BackgroundThumbnailSource, DeviceBackground,
    DeviceBackgroundSelection, EffectiveBackground, ResolvedDeviceBackground,
};
use chan_sccp2::channel::{allocation_text, prepare_routing_text};
use chan_sccp2::codecs::{codec_upgrade, constrain_unreported_audio_codecs};
use chan_sccp2::ids::{CallId, DeviceId, PbxCallId};
use chan_sccp2::lifecycle::{
    accepted_socket_error, report_socket_qos_failures, secure_handshake_limiter,
    AcceptedSocketStage, MAX_CONCURRENT_SECURE_HANDSHAKES,
};
use chan_sccp2::model::{
    CallAppearance, CallDirection, CallMetadata, CallState, Codec, ControllerSnapshot, DndMode,
    MediaCapability, MediaStreamState, PbxCall, StationMediaCapabilities, VideoMediaState,
    VideoStreamState,
};
use chan_sccp2::presence::{aggregate_device_state, DeviceState};
use chan_sccp2::presence_owner::{ConfigVersion, RuntimeRegistrationContexts};
use chan_sccp2::recording::{
    RuntimeRecordingTrigger, RuntimeRecordingTriggerQueue, RuntimeRecordings,
};
use chan_sccp2::status::{media_statistics_privacy, MediaStatisticsPrivacy};

#[test]
fn rejects_context_before_routing_can_mutate_state() {
    let error = prepare_routing_text(PbxCallId(7), "from\0internal", "4000").unwrap_err();
    assert!(matches!(
        error,
        AsteriskBackendError::NativeText {
            operation: "routing context",
            call_id: PbxCallId(7),
            ..
        }
    ));
}

#[test]
fn rejects_destination_before_routing_can_mutate_state() {
    let error = prepare_routing_text(PbxCallId(8), "from-internal", "40\0 00").unwrap_err();
    assert!(matches!(
        error,
        AsteriskBackendError::NativeText {
            operation: "routing destination",
            call_id: PbxCallId(8),
            ..
        }
    ));
}

fn installed(url: &str, source: BackgroundThumbnailSource) -> ResolvedDeviceBackground {
    ResolvedDeviceBackground::Install(DeviceBackground {
        image_url: url.to_owned(),
        thumbnail_url: url.to_owned(),
        thumbnail_source: source,
    })
}

fn rendered() -> ResolvedDeviceBackground {
    installed(
        "https://images.example.test/render.png?w=320&h=212&bitdepth=16",
        BackgroundThumbnailSource::Dynamic,
    )
}

#[test]
fn durable_override_takes_precedence_over_dynamic_configuration() {
    let override_url = "https://assets.example.test/override.jpg";
    let effective = resolve_effective_background(
        Some(Some(installed(override_url, BackgroundThumbnailSource::Derived))),
        Some(DeviceBackgroundSelection::Dynamic(Ok(Some(rendered())))),
        true,
    )
    .unwrap();
    assert!(matches!(
        effective,
        EffectiveBackground::Override(Some(ResolvedDeviceBackground::Install(background)))
            if background.image_url == override_url
    ));
}

#[test]
fn dynamic_configuration_waits_for_a_model_and_skips_unsupported_models() {
    // The model is not known yet.
    assert!(matches!(
        resolve_effective_background(
            None,
            Some(DeviceBackgroundSelection::Dynamic(Ok(Some(rendered())))),
            false,
        )
        .unwrap(),
        EffectiveBackground::ConfiguredDynamic(None)
    ));
    // The model takes no backgrounds.
    assert!(matches!(
        resolve_effective_background(
            None,
            Some(DeviceBackgroundSelection::Dynamic(Ok(None))),
            true,
        )
        .unwrap(),
        EffectiveBackground::ConfiguredDynamic(None)
    ));
    let supported = resolve_effective_background(
        None,
        Some(DeviceBackgroundSelection::Dynamic(Ok(Some(rendered())))),
        true,
    )
    .unwrap();
    assert!(matches!(
        supported,
        EffectiveBackground::ConfiguredDynamic(Some(ResolvedDeviceBackground::Install(background)))
            if background.image_url
                == "https://images.example.test/render.png?w=320&h=212&bitdepth=16"
    ));
}

#[test]
fn every_native_channel_text_family_rejects_interior_nul() {
    for field in [
        "line",
        "context",
        "caller number",
        "caller name",
        "media bind address",
        "assigned unique ID",
    ] {
        let error = allocation_text(field, "safe\0suffix").unwrap_err();
        assert!(matches!(
            error,
            ChannelAllocationError::NativeText {
                field: actual,
                ..
            } if actual == field
        ));
    }
}

#[test]
fn codec_upgrade_only_moves_toward_the_front_of_the_policy() {
    let configured = [Codec::Wideband256k, Codec::Pcma, Codec::Pcmu];
    assert_eq!(
        codec_upgrade(&configured, Codec::Pcma, Codec::Wideband256k),
        Some(Codec::Wideband256k)
    );
    assert_eq!(
        codec_upgrade(&configured, Codec::Wideband256k, Codec::Pcma),
        None
    );
    assert_eq!(codec_upgrade(&configured, Codec::Pcma, Codec::Pcma), None);
}

#[test]
fn pending_and_empty_capabilities_retain_only_configured_g711_codecs() {
    let configured = vec![Codec::G729, Codec::Pcma, Codec::Wideband256k, Codec::Pcmu];
    let empty = StationMediaCapabilities::default();
    for capabilities in [None, Some(&empty)] {
        let mut codecs = configured.clone();
        constrain_unreported_audio_codecs(&mut codecs, capabilities);
        assert_eq!(codecs, [Codec::Pcma, Codec::Pcmu]);
    }
}

#[test]
fn reported_capabilities_preserve_configured_order_for_negotiation() {
    let capabilities = StationMediaCapabilities::from_audio(vec![MediaCapability {
        codec: Codec::G729,
        max_packet_ms: 80,
        codec_parameters: [0; 8],
    }]);
    let mut codecs = vec![Codec::Pcma, Codec::G729, Codec::Pcmu];
    constrain_unreported_audio_codecs(&mut codecs, Some(&capabilities));
    assert_eq!(codecs, [Codec::Pcma, Codec::G729, Codec::Pcmu]);
}

#[test]
fn clear_and_secure_accept_failures_keep_the_listener_family() {
    for kind in ["clear", "secure"] {
        for (stage, expected) in [
            (
                AcceptedSocketStage::Accept,
                format!("{kind} signaling listener failed: closed"),
            ),
            (
                AcceptedSocketStage::ConfigureNoDelay,
                format!("unable to configure {kind} signaling socket: closed"),
            ),
            (
                AcceptedSocketStage::InspectLocalAddress,
                format!("unable to inspect {kind} signaling socket: closed"),
            ),
        ] {
            assert_eq!(accepted_socket_error(kind, stage, "closed"), expected);
        }
    }
}

#[test]
fn secure_handshake_limiter_holds_the_sixty_fifth_handshake() {
    let mut permits = secure_handshake_limiter();
    for _ in 0..MAX_CONCURRENT_SECURE_HANDSHAKES {
        assert!(permits.acquire());
    }
    assert_eq!(permits.available_permits(), 0);
    assert!(!permits.acquire());
    permits.release();
    assert!(permits.acquire());
}

#[test]
fn qos_application_failures_are_reported_with_listener_identity() {
    let warnings = report_socket_qos_failures(
        &vec!["unable to apply socket DSCP: denied".to_owned()],
        "secure",
        "127.0.0.1:2000",
    );
    assert_eq!(warnings.len(), 1);
    assert!(warnings[0].contains("secure signaling socket 127.0.0.1:2000"));
    assert!(warnings[0].contains("unable to apply socket DSCP"));
}

#[test]
fn registration_context_default_is_empty_and_reconciles_empty_registration_set() {
    let mut contexts = RuntimeRegistrationContexts::default();
    assert!(contexts.suppressed_devices.is_empty());
    assert_eq!(contexts.active_target_count(), 0);
    contexts.reconcile(ConfigVersion(1), Vec::new(), Ok(())).unwrap();
    assert_eq!(contexts.active_target_count(), 0);
}

fn empty_controller() -> ControllerSnapshot {
    ControllerSnapshot {
        registered: Vec::new(),
        features: Vec::new(),
        calls: Vec::new(),
        appearances: Vec::new(),
        runtime: Vec::new(),
        mobility: Vec::new(),
        forwarding_entries: Vec::new(),
    }
}

#[test]
fn statistics_privacy_requires_an_exact_live_public_appearance() {
    let device_id = DeviceId::named("SEP001122334455");
    let other_device = DeviceId::named("SEP112233445566");
    let call_id = CallId(7);
    let mut controller = empty_controller();

    assert_eq!(
        media_statistics_privacy(&controller, &device_id, call_id),
        MediaStatisticsPrivacy::Private
    );

    controller.calls.push(PbxCall {
        pbx_id: PbxCallId(1),
        line: "1001".to_owned(),
        context: "from-sccp".to_owned(),
        state: CallState::Collecting,
        direction: CallDirection::Outbound,
        digits: String::new(),
        privacy: false,
        metadata: CallMetadata {
            ani: None,
            ani_visible: true,
            rdnis: None,
            rdnis_visible: true,
            dnid: None,
            account_code: None,
            language: None,
            variables: Vec::new(),
        },
        active_call_id: Some(call_id),
        conference_id: None,
        barged: false,
    });
    controller.appearances.push(CallAppearance {
        sccp_id: call_id,
        pbx_id: PbxCallId(1),
        device_id: device_id.clone(),
        line_instance: 1,
        state: CallState::Collecting,
        privacy: false,
        party_restrictions: 0,
        codec: Codec::Pcmu,
        audio: MediaStreamState::Closed,
        audio_transmit: MediaStreamState::Closed,
        video: VideoMediaState {
            receive: VideoStreamState::Closed,
            transmit: VideoStreamState::Closed,
        },
    });
    assert_eq!(
        media_statistics_privacy(&controller, &device_id, call_id),
        MediaStatisticsPrivacy::Public
    );
    assert_eq!(
        media_statistics_privacy(&controller, &other_device, call_id),
        MediaStatisticsPrivacy::Private
    );

    controller.calls[0].privacy = true;
    assert_eq!(
        media_statistics_privacy(&controller, &device_id, call_id),
        MediaStatisticsPrivacy::Private
    );

    controller.calls.clear();
    controller.appearances.clear();
    assert_eq!(
        media_statistics_privacy(&controller, &device_id, call_id),
        MediaStatisticsPrivacy::Private
    );
}

fn state(registered_dnd: &[DndMode], calls: &[CallState]) -> DeviceState {
    aggregate_device_state(true, registered_dnd, calls)
}

#[test]
fn absent_and_unregistered_lines_have_distinct_states() {
    assert_eq!(
        aggregate_device_state(false, &[], &[]),
        DeviceState::Removed
    );
    assert_eq!(state(&[], &[]), DeviceState::Unavailable);
}

#[test]
fn idle_dnd_is_busy_only_when_every_registered_appearance_rejects() {
    assert_eq!(state(&[DndMode::Reject], &[]), DeviceState::Busy);
    assert_eq!(
        state(&[DndMode::Reject, DndMode::Reject], &[]),
        DeviceState::Busy
    );
    assert_eq!(state(&[DndMode::Silent], &[]), DeviceState::NotInUse);
    assert_eq!(
        state(&[DndMode::Reject, DndMode::Off], &[]),
        DeviceState::NotInUse
    );
    assert_eq!(
        state(&[DndMode::Reject, DndMode::Silent], &[]),
        DeviceState::NotInUse
    );
}

#[test]
fn call_activity_takes_precedence_over_idle_dnd() {
    assert_eq!(
        state(&[DndMode::Reject], &[CallState::Connected]),
        DeviceState::InUse
    );
    assert_eq!(
        state(&[DndMode::Reject], &[CallState::Held]),
        DeviceState::OnHold
    );
}

#[test]
fn active_held_and_ringing_calls_publish_rich_states() {
    assert_eq!(
        state(&[DndMode::Off], &[CallState::Ringing]),
        DeviceState::Ringing
    );
    assert_eq!(
        state(&[DndMode::Off], &[CallState::SharedHeld]),
        DeviceState::OnHold
    );
    assert_eq!(
        state(&[DndMode::Off], &[CallState::Held, CallState::Connected]),
        DeviceState::InUse
    );
    assert_eq!(
        state(&[DndMode::Off], &[CallState::Ringing, CallState::Connected]),
        DeviceState::RingInUse
    );
    assert_eq!(
        state(
            &[DndMode::Off],
            &[CallState::Ringing, CallState::SharedHeld]
        ),
        DeviceState::RingInUse
    );
}

#[test]
fn every_live_nonterminal_call_state_is_accounted_for() {
    for call in [
        CallState::Collecting,
        CallState::PickupCollecting,
        CallState::Calling,
        CallState::Connected,
        CallState::Parking,
        CallState::Retrieving,
        CallState::RemoteInUse,
        CallState::Barged,
        CallState::TransferCollecting,
    ] {
        assert_eq!(state(&[DndMode::Off], &[call]), DeviceState::InUse);
    }
    assert_eq!(
        state(&[DndMode::Off], &[CallState::Ended]),
        DeviceState::NotInUse
    );
}

#[test]
fn automatic_attempts_are_one_shot_until_the_call_is_reaped() {
    let call = PbxCallId(42);
    let stopped_call = PbxCallId(43);
    let mut recordings = RuntimeRecordings::default();

    assert!(recordings.claim_automatic_start(call));
    assert!(!recordings.claim_automatic_start(call));
    recordings.suppress_automatic_start(stopped_call);
    assert!(!recordings.claim_automatic_start(stopped_call));
    recordings.retain_live_calls(&Vec::new());
    assert!(recordings.claim_automatic_start(call));
    assert!(recordings.claim_automatic_start(stopped_call));
}

#[test]
fn trigger_queue_deduplicates_without_reordering_distinct_work() {
    let call = PbxCallId(42);
    let eligible = RuntimeRecordingTrigger::Eligible { pbx_id: call };
    let changed = RuntimeRecordingTrigger::SessionChanged { pbx_id: call };
    let mut queue = RuntimeRecordingTriggerQueue::default();

    assert!(queue.push(eligible));
    assert!(!queue.push(eligible));
    assert!(queue.push(changed));
    assert_eq!(queue.drain(), [eligible, changed]);
}
