//! Lines, codecs, media and channels on concrete values.

#![allow(dead_code)]

use chan_sccp2::access::{Access, ChannelBinding, Shared};
use chan_sccp2::config::{
    AdvertisedAddresses, ConferenceConfig, ConfigurationSource, DeviceConfig, DndButton,
    DndButtonMode, FeatureDefaults, GeneralConfig, GeneralNetwork, ModuleConfig, ParkingLotButton,
    ParkingRetrievalBehavior, SignalingConfig,
};
use chan_sccp2::ids::{CallId, DeviceId, PbxCallId, SessionGeneration};
use chan_sccp2::lifecycle::{CallAnswerOrder, FallbackDecision, FallbackRegistration};
use chan_sccp2::model::{
    AppearanceRingMode, AudioEncryptionCapabilities, AudioEncryptionPolicy, AudioFraming,
    AudioProcessingPolicy, CallAppearance, CallDirection, CallMetadata, CallState, Codec,
    ControllerSnapshot, DeviceRegistration, DtmfMode, IpAddress, LineAppearance, LineBinding,
    LineConfig, MediaCapability, MediaPolicy, MediaStreamState, NatMode, NetworkPolicy, PbxCall,
    QosMark, QosPolicy, RegisteredDevice, StationMediaCapabilities, StationTransport,
    VideoMediaState, VideoMode, VideoStreamState,
};
use chan_sccp2::access::{
    channel_availability, enter_channel, pbx_id_for_channel_name, registered_device_ids,
    remove_channel, retain_two_channels, with_channel, with_channels, ChannelAvailability,
    ChannelQueryLookupError, RetiredCall,
};
use chan_sccp2::backend::{AsteriskBackendError, CallFeatureError};
use chan_sccp2::channel::{
    after_allocation_step, allocate_channel, allocated_video, channel_operation,
    configure_pickup_policy, continue_routing, group_mask, prepare_channel_allocation_text, start_routing,
    video_installation, AllocatedVideo, AllocationCleanup, AllocationPlan, AllocationState,
    AllocationStep, ChannelAllocationOwner, ChannelOperation, RoutingAction, RoutingReply,
    RoutingStage, VideoInstallation, VideoRtpAllocation,
};
use chan_sccp2::codecs::{
    codec_policy, inbound_candidates, inbound_destinations, preferred_codec_upgrade,
    preferred_inbound_codec, representable_formats, video_endpoint_is_supported, AudioFormat,
    PbxVideoFormat, SelectedVideo, VideoSelection,
};
use chan_sccp2::commands::{IpAddressType, MediaTrafficClass, PhoneCommandAction};
use chan_sccp2::media::{
    audio_framing, configured_audio_processing, configured_audio_traffic_class,
    configured_dtmf_mode, direct_media_call, framed_anchor, local_media_endpoint, normalize_phone_media_endpoint,
    media_failure_disposition, recover_failed_media_transmission, retarget_to_anchor, retarget_to_direct, settle_retarget,
    set_remote_video_endpoint, station_nat_active, AddressError, AudioFramingError,
    DirectMediaCall, MediaFailureDisposition, MediaRecovery, MediaRetargetRollback,
    RemoteVideoError, RetargetAction,
};
use chan_sccp2::media_events::VideoFallbackReason;
use chan_sccp2::model::{
    CallRuntimeRecord, MediaEndpoint, MediaEndpointAddress, MobilityAppearance, PbxAudioFormat,
};
use chan_sccp2::presence::{device_state, install_mwi, publish_device_lines, DeviceState};
use chan_sccp2::presence_owner::PresenceCommand;

fn mark(dscp: u8) -> QosMark {
    QosMark { dscp, cos: 5 }
}

fn qos() -> QosPolicy {
    QosPolicy { signaling: mark(24), audio: mark(46), video: mark(34) }
}

fn media(codecs: Vec<Codec>) -> MediaPolicy {
    MediaPolicy {
        codecs,
        dtmf_mode: DtmfMode::Rfc2833,
        audio_processing: AudioProcessingPolicy { echo_cancellation: true, silence_suppression: false },
        early_media: true,
        direct_media: true,
        video_mode: VideoMode::Auto,
        audio_encryption: AudioEncryptionPolicy(1),
    }
}

fn line(number: &str) -> LineConfig {
    LineConfig {
        number: number.to_owned(),
        label: "Desk".to_owned(),
        context: "from-sccp".to_owned(),
        caller_name: "Desk".to_owned(),
        caller_number: number.to_owned(),
        mailbox: Some(format!("{number}@default")),
        language: "en".to_owned(),
        account_code: None,
        channel_variables: Vec::new(),
    }
}

fn binding(device: &str, instance: u32, number: &str) -> LineBinding {
    LineBinding {
        device_id: DeviceId::named(device),
        line_instance: instance,
        appearance: LineAppearance {
            id: 10 + instance,
            label: "Desk".to_owned(),
            ring_mode: AppearanceRingMode::Normal,
            privacy: false,
            subscription_identity: None,
        },
        line: line(number),
        media: Some(media(vec![Codec::G722, Codec::Pcma, Codec::Pcmu])),
        hotline: None,
        conference_dialing: None,
    }
}

fn device(name: &str) -> DeviceConfig {
    DeviceConfig {
        id: DeviceId::named(name),
        description: "Reception".to_owned(),
        channel_variables: Vec::new(),
        lines: vec!["1001".to_owned()],
        buttons: Vec::new(),
        blf_targets: Vec::new(),
        dnd_buttons: vec![DndButton { instance: 3, mode: DndButtonMode::Silent }],
        recording_buttons: vec![4],
        dnd_schedules: Vec::new(),
        parking_enabled: true,
        parking_buttons: vec![ParkingLotButton {
            instance: 5,
            lot: "lobby".to_owned(),
            retrieval: ParkingRetrievalBehavior::RetrieveSingle,
        }],
        feature_defaults: FeatureDefaults {
            dnd_enabled: true,
            privacy_enabled: true,
            forward_all_enabled: true,
            forward_busy_enabled: false,
            forward_no_answer_enabled: true,
        },
        network: NetworkPolicy { nat: NatMode::Auto, qos: qos() },
        conference: ConferenceConfig {
            allowed: true,
            show_conference_list: true,
            music_on_hold_class: "default".to_owned(),
            mute_on_entry: false,
            play_general_announcements: true,
            play_participant_announcements: true,
        },
        allow_overlap: false,
    }
}

fn signaling() -> SignalingConfig {
    SignalingConfig {
        clear_listener: None,
        advertised_address: None,
        server_name: "switch".to_owned(),
        keepalive_seconds: 60,
        secondary_keepalive_seconds: 60,
        signaling_servers: Vec::new(),
        fallback_registration: FallbackRegistration {
            decision: FallbackDecision::Reject,
            backoff_seconds: 30,
            server_priority: 1,
        },
        dial_terminator: Some('#'),
        record_dial_terminator: false,
        simulate_enbloc: true,
        first_digit_timeout_ms: 16000,
        interdigit_timeout_ms: 8000,
        call_answer_order: CallAnswerOrder::OldestFirst,
        timezone_offset_minutes: 0,
        date_template: "D.M.Y".to_owned(),
    }
}

fn config() -> ModuleConfig {
    ModuleConfig {
        general: GeneralConfig {
            configuration_source: ConfigurationSource::File,
            bind: IpAddress::V4(0),
            codecs: vec![Codec::Pcma, Codec::Pcmu],
            qos: qos(),
            network: GeneralNetwork {
                nat: NatMode::Off,
                local_networks: Vec::new(),
                advertised: AdvertisedAddresses { ipv4: None, ipv6: None },
            },
            jitter_buffer_forced: false,
            transfer_on_hangup: true,
            audio_processing_default: AudioProcessingPolicy {
                echo_cancellation: false,
                silence_suppression: false,
            },
            audio_framing_default: AudioFraming { packet_ms: 20, max_frames_per_packet: 1 },
            timezone: None,
            audio_encryption: AudioEncryptionPolicy(7),
            signaling: signaling(),
        },
        devices: vec![device("SEP001122334455")],
        lines: vec![line("1001")],
        line_features: Vec::new(),
        bindings: vec![binding("SEP001122334455", 1, "1001")],
        guest_bindings: vec![binding("SEPGUEST00000", 1, "guest")],
    }
}

fn registered(name: &str) -> RegisteredDevice {
    RegisteredDevice {
        id: DeviceId::named(name),
        session_generation: SessionGeneration(3),
        registration: DeviceRegistration {
            id: DeviceId::named(name),
            device_type: 436,
            protocol: 20,
            peer: IpAddress::V4(0x0a00_0001),
            reported_address: None,
            firmware: "9.4".to_owned(),
            transport: StationTransport::Clear,
        },
        capabilities: Some(StationMediaCapabilities::from_audio(vec![MediaCapability {
            codec: Codec::G722,
            max_packet_ms: 40,
            codec_parameters: [0; 8],
        }])),
        audio_encryption: AudioEncryptionCapabilities(5),
        selected_calls: Vec::new(),
        selected_line: None,
    }
}

fn appearance(call: u64, pbx: u64, device: &str, state: CallState) -> CallAppearance {
    CallAppearance {
        sccp_id: CallId(call),
        pbx_id: PbxCallId(pbx),
        device_id: DeviceId::named(device),
        line_instance: 1,
        state,
        privacy: false,
        party_restrictions: 0,
        codec: Codec::G722,
        audio: MediaStreamState::Closed,
        audio_transmit: MediaStreamState::Closed,
        video: VideoMediaState {
            receive: VideoStreamState::Closed,
            transmit: VideoStreamState::Closed,
        },
    }
}

fn pbx_call(pbx: u64, state: CallState) -> PbxCall {
    PbxCall {
        pbx_id: PbxCallId(pbx),
        line: "1001".to_owned(),
        context: "from-sccp".to_owned(),
        state,
        direction: CallDirection::Outbound,
        digits: "4000".to_owned(),
        privacy: false,
        metadata: CallMetadata {
            ani: Some("1001".to_owned()),
            ani_visible: true,
            rdnis: None,
            rdnis_visible: true,
            dnid: None,
            account_code: None,
            language: None,
            variables: Vec::new(),
        },
        active_call_id: Some(CallId(7)),
        conference_id: None,
        barged: false,
    }
}

fn access() -> Access {
    Access {
        shared: Shared {
            config: config(),
            controller: ControllerSnapshot {
                registered: vec![registered("SEP001122334455")],
                features: Vec::new(),
                calls: vec![pbx_call(1, CallState::Connected)],
                appearances: vec![appearance(7, 1, "SEP001122334455", CallState::Connected)],
                runtime: Vec::new(),
                mobility: Vec::new(),
                forwarding_entries: Vec::new(),
            },
            channels: vec![ChannelBinding {
                handle: 1,
                pbx_id: PbxCallId(1),
                closed: false,
                name: Some("SCCP/1001-1".to_owned()),
            }],
            retired: Vec::new(),
            destinations: Vec::new(),
            anchored: Vec::new(),
        },
    }
}

fn station() -> DeviceId {
    DeviceId::named("SEP001122334455")
}

fn endpoint(port: u16) -> MediaEndpoint {
    MediaEndpoint {
        address: IpAddress::V4(0x0a00_0002),
        rtp_port: port,
        rtcp_port: port + 1,
        codec: Codec::G722,
        packet_ms: 20,
        max_frames_per_packet: 1,
        telephone_event_payload: 101,
    }
}

#[test]
fn configured_lines_come_before_guest_lines() {
    let access = access();
    assert_eq!(access.line_binding(&station(), 1).unwrap().line.number, "1001");
    assert!(access.line_binding(&station(), 2).is_none());
    let guest = DeviceId::named("SEPGUEST00000");
    assert_eq!(access.line_binding(&guest, 1).unwrap().line.number, "guest");
    assert_eq!(registered_device_ids(&access.shared), vec![station()]);
}

#[test]
fn inbound_addresses_choose_one_line_or_one_appearance() {
    let mut access = access();
    access.shared.config.bindings.push(binding("SEP112233445566", 1, "1001"));
    let dialed = binding("SEP001122334455", 1, "1001");
    // With a device part, one appearance rings.
    let one = access.inbound_line_bindings("SEP001122334455/1001", Some(&dialed), true);
    assert_eq!(one.len(), 1);
    assert_eq!(one[0].device_id, station());
    // Without one, every appearance of the line rings.
    assert_eq!(access.inbound_line_bindings("1001", Some(&dialed), true).len(), 2);
    // More than one slash makes no device part.
    assert_eq!(access.inbound_line_bindings("a/b/1001", Some(&dialed), true).len(), 2);
    // Unknown appearances are looked for among those that roam.
    access.shared.controller.mobility.push(MobilityAppearance {
        device_id: DeviceId::named("SEP112233445566"),
        button_instance: 2,
        binding: binding("SEP112233445566", 2, "1001"),
    });
    let roaming = access.inbound_line_bindings(" SEP112233445566 / 1001 ", None, true);
    assert_eq!(roaming.len(), 1);
    assert_eq!(roaming[0].line_instance, 2);
    assert!(access.inbound_line_bindings("?/1001", None, false).is_empty());
    assert!(access.inbound_line_bindings("1001", None, true).is_empty());
}

#[test]
fn closed_channels_are_retiring_and_unknown_ones_missing() {
    let mut access = access();
    assert_eq!(channel_availability(&access, PbxCallId(1)), ChannelAvailability::Live);
    assert_eq!(channel_availability(&access, PbxCallId(2)), ChannelAvailability::Missing);
    access.shared.channels[0].closed = true;
    assert_eq!(channel_availability(&access, PbxCallId(1)), ChannelAvailability::Retiring);
    assert!(with_channel(&access, PbxCallId(1)).is_none());
}

#[test]
fn groups_of_channels_are_found_together_or_not_at_all() {
    let mut access = access();
    assert!(with_channels(&access, &vec![PbxCallId(1), PbxCallId(2)]).is_none());
    access.shared.channels.push(ChannelBinding {
        handle: 2,
        pbx_id: PbxCallId(2),
        closed: false,
        name: Some("SCCP/1001-2".to_owned()),
    });
    assert_eq!(with_channels(&access, &vec![PbxCallId(2), PbxCallId(1)]).unwrap().len(), 2);
    assert!(retain_two_channels(&access, PbxCallId(1), PbxCallId(2)).is_some());
}

#[test]
fn channel_names_must_be_unambiguous() {
    let mut access = access();
    assert_eq!(
        pbx_id_for_channel_name(&access.shared, "SCCP/1001-1"),
        Ok(Some(PbxCallId(1)))
    );
    assert_eq!(pbx_id_for_channel_name(&access.shared, "SCCP/none"), Ok(None));
    access.shared.channels.push(ChannelBinding {
        handle: 2,
        pbx_id: PbxCallId(2),
        closed: false,
        name: Some("SCCP/1001-1".to_owned()),
    });
    assert_eq!(
        pbx_id_for_channel_name(&access.shared, "SCCP/1001-1"),
        Err(ChannelQueryLookupError::AmbiguousChannelName)
    );
}

#[test]
fn removed_channels_leave_nothing_of_their_call() {
    let mut access = access();
    access.shared.anchored.push(PbxCallId(1));
    access.shared.anchored.push(PbxCallId(9));
    access.shared.controller.runtime.push(CallRuntimeRecord {
        pbx_id: PbxCallId(1),
        assigned_channel_id: None,
        audio_packet_ms: Some(30),
        audio_preferences: None,
        audio_encryption: None,
    });
    access.shared.destinations = vec![PbxCallId(9), PbxCallId(1)];
    let handle = with_channel(&access, PbxCallId(1)).unwrap().handle;
    assert_eq!(enter_channel(&access, handle).unwrap().pbx_id, PbxCallId(1));
    let retired = remove_channel(&mut access, PbxCallId(1));
    assert_eq!(retired, RetiredCall { pbx_id: PbxCallId(1), cancels_destination: true });
    assert_eq!(channel_availability(&access, PbxCallId(1)), ChannelAvailability::Missing);
    assert!(with_channel(&access, PbxCallId(1)).is_none());
    assert_eq!(access.shared.anchored, vec![PbxCallId(9)]);
    assert_eq!(access.shared.destinations, vec![PbxCallId(9)]);
    assert!(access.shared.controller.runtime.is_empty());
    // Whoever still holds the channel finds it closed.
    assert!(enter_channel(&access, handle).is_none());
    assert!(access.shared.retired[0].closed);
    let again = remove_channel(&mut access, PbxCallId(1));
    assert!(!again.cancels_destination);
    assert_eq!(access.shared.retired.len(), 1);
}

#[test]
fn codec_policies_follow_the_line_and_the_station() {
    let mut access = access();
    let (codecs, capabilities) = codec_policy(&access, &station(), 1).unwrap();
    assert_eq!(codecs, [Codec::G722, Codec::Pcma, Codec::Pcmu]);
    assert_eq!(capabilities.unwrap().audio[0].codec, Codec::G722);
    // While nothing is reported, only the basic codecs are left.
    access.shared.controller.registered[0].capabilities = None;
    assert_eq!(codec_policy(&access, &station(), 1).unwrap().0, [Codec::Pcma, Codec::Pcmu]);
    assert!(codec_policy(&access, &station(), 8).is_none());
}

#[test]
fn upgrades_need_a_better_negotiated_codec() {
    let access = access();
    assert_eq!(
        preferred_codec_upgrade(&access, &station(), 1, Codec::Pcma, Some(Codec::G722)),
        Some(Codec::G722)
    );
    assert_eq!(
        preferred_codec_upgrade(&access, &station(), 1, Codec::G722, Some(Codec::Pcma)),
        None
    );
    assert_eq!(preferred_codec_upgrade(&access, &station(), 1, Codec::Pcma, None), None);
}

#[test]
fn inbound_codecs_are_those_that_a_station_can_take() {
    let access = access();
    let formats = [
        AudioFormat { codec: Codec::Pcma, format: PbxAudioFormat::Alaw },
        AudioFormat { codec: Codec::G722, format: PbxAudioFormat::G722 },
    ];
    let candidates = inbound_candidates(&access, &station(), 1, &formats);
    let destinations = inbound_destinations(&candidates);
    assert!(destinations.contains(&PbxAudioFormat::G722));
    assert_eq!(
        preferred_inbound_codec(&candidates, Some(PbxAudioFormat::G722)),
        Some(Codec::G722)
    );
    assert_eq!(preferred_inbound_codec(&candidates, None), None);
    assert_eq!(preferred_inbound_codec(&candidates, Some(PbxAudioFormat::Opus)), None);
}

fn selected(protocol: u32, address_type: Option<IpAddressType>) -> SelectedVideo {
    SelectedVideo {
        session_generation: SessionGeneration(3),
        protocol,
        mode: VideoMode::Auto,
        address_type,
        format: PbxVideoFormat { codec: Codec::H264, payload_type: Some(97) },
        payload_type: 97,
        payload: 103,
    }
}

#[test]
fn video_endpoints_need_a_protocol_and_an_address_that_fit() {
    let v4 = MediaEndpointAddress { address: IpAddress::V4(1), port: 5000 };
    let v6 = MediaEndpointAddress { address: IpAddress::V6(1), port: 5000 };
    assert!(video_endpoint_is_supported(&selected(16, None), v4));
    assert!(!video_endpoint_is_supported(&selected(16, Some(IpAddressType::Ipv4AndIpv6)), v6));
    assert!(video_endpoint_is_supported(&selected(17, Some(IpAddressType::Ipv4AndIpv6)), v6));
    assert!(video_endpoint_is_supported(&selected(17, Some(IpAddressType::Ipv6)), v6));
    assert!(!video_endpoint_is_supported(&selected(17, Some(IpAddressType::Ipv6)), v4));
    assert!(!video_endpoint_is_supported(&selected(17, Some(IpAddressType::Invalid)), v4));
}

#[test]
fn video_formats_without_a_payload_are_not_offered() {
    let kept = representable_formats(&[
        PbxVideoFormat { codec: Codec::H264, payload_type: Some(97) },
        PbxVideoFormat { codec: Codec::H263, payload_type: None },
    ]);
    assert_eq!(kept.len(), 1);
    assert_eq!(kept[0].codec, Codec::H264);
}

#[test]
fn framing_follows_what_was_asked_and_what_the_station_takes() {
    let mut access = access();
    assert_eq!(
        audio_framing(&access, &station(), CallId(7), Codec::G722),
        Ok(AudioFraming { packet_ms: 20, max_frames_per_packet: 1 })
    );
    assert_eq!(
        audio_framing(&access, &station(), CallId(7), Codec::Opus),
        Err(AudioFramingError::UnsupportedCodec { codec: Codec::Opus })
    );
    access.shared.controller.runtime.push(CallRuntimeRecord {
        pbx_id: PbxCallId(1),
        assigned_channel_id: None,
        audio_packet_ms: Some(60),
        audio_preferences: None,
        audio_encryption: None,
    });
    let refused = audio_framing(&access, &station(), CallId(7), Codec::G722).unwrap_err();
    assert_eq!(refused.text(), "audio packet duration 60 ms exceeds station maximum 40 ms");
    access.shared.controller.runtime[0].audio_packet_ms = Some(0);
    assert_eq!(
        audio_framing(&access, &station(), CallId(7), Codec::G722).unwrap_err().text(),
        "audio packet duration must be non-zero"
    );
    access.shared.controller.runtime.clear();
    access.shared.controller.registered.clear();
    assert_eq!(
        audio_framing(&access, &station(), CallId(7), Codec::G722).unwrap_err().text(),
        "station is unavailable"
    );
}

#[test]
fn media_settings_come_from_the_line_of_a_call() {
    let access = access();
    assert_eq!(configured_dtmf_mode(&access, &station(), CallId(7)), DtmfMode::Rfc2833);
    assert!(configured_audio_processing(&access, &station(), CallId(7)).echo_cancellation);
    // Unknown calls use what is generally configured.
    assert!(!configured_audio_processing(&access, &station(), CallId(8)).echo_cancellation);
    assert_eq!(
        configured_audio_traffic_class(&access, &station()),
        MediaTrafficClass::from_dscp(46)
    );
    assert_eq!(MediaTrafficClass::from_dscp(64), None);
}

#[test]
fn reported_endpoints_are_normalized_for_registered_stations() {
    let mut access = access();
    let mut reported = endpoint(4000);
    assert_eq!(
        normalize_phone_media_endpoint(&access, &station(), &mut reported, Ok(IpAddress::V4(9))),
        Ok(())
    );
    assert_eq!(reported.address, IpAddress::V4(9));
    assert_eq!(reported.rtp_port, 4000);
    access.shared.controller.registered.clear();
    let error = normalize_phone_media_endpoint(
        &access,
        &station(),
        &mut reported,
        Ok(IpAddress::V4(8)),
    )
    .unwrap_err();
    assert_eq!(error.text(&station()), "device SEP001122334455 is not registered");
    assert_eq!(reported.address, IpAddress::V4(9));
    let unknown = DeviceId::named("SEP0");
    assert_eq!(
        normalize_phone_media_endpoint(&access, &unknown, &mut reported, Ok(IpAddress::V4(8))),
        Err(AddressError::NoPolicy)
    );
    assert_eq!(station_nat_active(&access, &access.shared.config, &station(), true), None);
}

#[test]
fn local_endpoints_announce_the_next_port_for_control() {
    let access = access();
    let native = MediaEndpointAddress { address: IpAddress::V4(5), port: 6000 };
    let local = local_media_endpoint(
        &access,
        PbxCallId(1),
        &station(),
        Codec::Pcma,
        Some(native),
        Some(IpAddress::V4(7)),
    )
    .unwrap();
    assert_eq!(local.address, IpAddress::V4(7));
    assert_eq!((local.rtp_port, local.rtcp_port), (6000, 6001));
    assert_eq!(local.telephone_event_payload, 101);
    let last = MediaEndpointAddress { address: IpAddress::V4(5), port: u16::MAX };
    let local = local_media_endpoint(
        &access,
        PbxCallId(1),
        &station(),
        Codec::Pcma,
        Some(last),
        Some(IpAddress::V4(7)),
    )
    .unwrap();
    assert_eq!(local.rtcp_port, u16::MAX);
}

#[test]
fn remote_video_needs_a_channel_with_video() {
    let access = access();
    assert_eq!(set_remote_video_endpoint(&access, PbxCallId(1), true), Ok(()));
    let no_stream = set_remote_video_endpoint(&access, PbxCallId(1), false).unwrap_err();
    assert_eq!(no_stream.text(PbxCallId(1)), "call PbxCallId(1) has no active video RTP instance");
    assert_eq!(
        set_remote_video_endpoint(&access, PbxCallId(2), true),
        Err(RemoteVideoError::NoChannel)
    );
}

fn talking() -> Access {
    let mut access = access();
    access.shared.controller.appearances[0].audio = MediaStreamState::Open(endpoint(4000));
    access.shared.controller.appearances[0].audio_transmit = MediaStreamState::Open(endpoint(5000));
    access
}

#[test]
fn anchored_calls_keep_their_media_with_the_switch() {
    let mut access = talking();
    let direct = direct_media_call(&access, PbxCallId(1)).unwrap();
    assert_eq!(direct.call_id, CallId(7));
    access.shared.anchored.push(PbxCallId(1));
    assert!(direct_media_call(&access, PbxCallId(1)).is_none());
}

fn direct() -> DirectMediaCall {
    DirectMediaCall {
        pbx_id: PbxCallId(1),
        device_id: station(),
        call_id: CallId(7),
        line_instance: 1,
        codec: Codec::G722,
        phone_endpoint: endpoint(4000),
        transmit_endpoint: endpoint(5000),
    }
}

#[test]
fn retargets_succeed_when_queued_or_taken_back() {
    let access = talking();
    let call = direct();
    let anchor = Some(endpoint(7000));
    let previous = Some(endpoint(5000));
    assert!(retarget_to_anchor(&access, &call, anchor, previous, true, None));
    assert!(!retarget_to_anchor(&access, &call, anchor, previous, false, None));
    assert!(!retarget_to_anchor(&access, &call, anchor, previous, false, Some(false)));
    assert!(retarget_to_anchor(&access, &call, anchor, previous, false, Some(true)));
    assert!(!retarget_to_anchor(&access, &call, None, previous, true, None));
    assert!(retarget_to_direct(&access, &call, Some(MediaStreamState::Opening), true, None));
    assert!(!retarget_to_direct(&access, &call, None, true, None));
    assert_eq!(settle_retarget(None, true), RetargetAction::GiveUp);
}

#[test]
fn calls_that_would_be_left_without_media_are_hung_up() {
    let mut access = talking();
    let call = direct();
    let kept = access.restore_cancelled_anchor(
        PbxCallId(1),
        &call,
        Some(MediaStreamState::Opening),
        true,
        None,
    );
    assert_eq!(kept, None);
    assert_eq!(channel_availability(&access, PbxCallId(1)), ChannelAvailability::Live);
    let hung_up = access.restore_cancelled_anchor(PbxCallId(1), &call, None, true, None);
    assert_eq!(
        hung_up,
        Some(RetiredCall { pbx_id: PbxCallId(1), cancels_destination: false })
    );
    assert_eq!(channel_availability(&access, PbxCallId(1)), ChannelAvailability::Missing);
}

#[test]
fn failed_transmissions_are_retried_over_the_switch() {
    let access = talking();
    let recover = |failed, anchor, previous| {
        recover_failed_media_transmission(
            &access,
            &station(),
            CallId(7),
            failed,
            anchor,
            previous,
        )
    };
    let anchor = Some(endpoint(7000));
    let previous = Some(endpoint(5000));
    assert_eq!(recover(endpoint(5001), anchor, previous), MediaRecovery::Ignored);
    let sent_to = direct().transmit_endpoint;
    assert_eq!(recover(sent_to, None, previous), MediaRecovery::Hangup);
    assert_eq!(recover(sent_to, anchor, None), MediaRecovery::Hangup);
    let retarget = recover(sent_to, anchor, previous);
    match &retarget {
        MediaRecovery::Retarget(pending) => {
            assert_eq!(pending.rollback, MediaRetargetRollback::Anchor(endpoint(5000)));
            assert!(matches!(
                pending.command.action,
                PhoneCommandAction::StartMedia { endpoint: told, .. } if told == endpoint(7000)
            ));
        }
        other => panic!("unexpected recovery {other:?}"),
    }
    assert_eq!(
        media_failure_disposition(&retarget, true, false),
        MediaFailureDisposition::Retrying
    );
    assert_eq!(
        media_failure_disposition(&retarget, false, true),
        MediaFailureDisposition::Retrying
    );
    assert_eq!(
        media_failure_disposition(&retarget, false, false),
        MediaFailureDisposition::Hangup
    );
    assert_eq!(
        media_failure_disposition(&MediaRecovery::Ignored, true, true),
        MediaFailureDisposition::Ignored
    );
    let native = Some(MediaEndpointAddress { address: IpAddress::V4(9), port: 7000 });
    let framed = framed_anchor(&access, &direct(), native, Some(IpAddress::V4(5))).unwrap();
    assert_eq!(framed.address, IpAddress::V4(5));
    assert_eq!(framed.packet_ms, 20);
    assert_eq!(framed.codec, direct().codec);
    assert!(framed_anchor(&access, &direct(), None, Some(IpAddress::V4(5))).is_none());
}

#[test]
fn channel_texts_come_from_the_line() {
    let access = access();
    let line = binding("SEP001122334455", 1, "1001");
    let prepared =
        prepare_channel_allocation_text(&access, &line, PbxCallId(1), "0.0.0.0").unwrap();
    assert_eq!(prepared.line.text, "1001");
    assert_eq!(prepared.context.text, "from-sccp");
    assert_eq!(prepared.media_bind_address.text, "0.0.0.0");
    assert!(prepared.assigned_uniqueid.is_none());
    let mut bad = binding("SEP001122334455", 1, "1001");
    bad.line.caller_name = "a\0b".to_owned();
    assert!(prepare_channel_allocation_text(&access, &bad, PbxCallId(1), "0.0.0.0").is_err());
}

fn plan(owner: ChannelAllocationOwner) -> AllocationPlan {
    AllocationPlan {
        configure_metadata: false,
        has_requestor: false,
        jitter_buffer: false,
        parking_lot: false,
        owner,
    }
}

#[test]
fn allocation_skips_what_is_not_planned() {
    let video = AllocatedVideo { allocated: false, kept: false };
    let mut state = allocate_channel();
    let mut steps = Vec::new();
    loop {
        match state {
            AllocationState::At(step) => {
                steps.push(step);
                state = after_allocation_step(
                    plan(ChannelAllocationOwner::Module),
                    video,
                    step,
                    true,
                );
            }
            AllocationState::Allocated => break,
            AllocationState::Failed(_) => panic!("allocation failed"),
        }
    }
    assert_eq!(
        steps,
        vec![
            AllocationStep::Enter,
            AllocationStep::AdmitSignals,
            AllocationStep::FindFormat,
            AllocationStep::Allocate,
            AllocationStep::BorrowChannel,
            AllocationStep::ConfigureCompletion,
            AllocationStep::ApplyMetadata,
            AllocationStep::ConfigurePickup,
            AllocationStep::RetainChannel,
            AllocationStep::PublishBinding,
            AllocationStep::InstallVideo,
        ]
    );
}

#[test]
fn failed_allocations_are_cleaned_up_as_far_as_they_came() {
    let video = AllocatedVideo { allocated: true, kept: false };
    let plan = plan(ChannelAllocationOwner::Asterisk);
    assert_eq!(
        after_allocation_step(plan, video, AllocationStep::Allocate, false),
        AllocationState::Failed(AllocationCleanup::Nothing)
    );
    assert_eq!(
        after_allocation_step(plan, video, AllocationStep::ApplyMetadata, false),
        AllocationState::Failed(AllocationCleanup::QueueUnavailable)
    );
    assert_eq!(
        after_allocation_step(plan, video, AllocationStep::HandOff, false),
        AllocationState::Failed(AllocationCleanup::WithdrawAndQueueUnavailable)
    );
    // Unplanned video is switched off before the channel is handed over.
    assert_eq!(
        after_allocation_step(plan, video, AllocationStep::InstallVideo, true),
        AllocationState::At(AllocationStep::DisableVideo)
    );
    // Completion is optional.
    assert_eq!(
        after_allocation_step(plan, video, AllocationStep::ConfigureCompletion, false),
        AllocationState::At(AllocationStep::ApplyMetadata)
    );
}

#[test]
fn video_is_installed_only_where_everything_fits() {
    let v4 = MediaEndpointAddress { address: IpAddress::V4(1), port: 5000 };
    let ready = VideoSelection::Ready(selected(17, Some(IpAddressType::Ipv4)));
    let installed = video_installation(ready, VideoRtpAllocation::Active, Some(v4));
    assert!(matches!(installed, VideoInstallation::Install { .. }));
    assert!(allocated_video(VideoRtpAllocation::Active, &installed, true).kept);
    let ready = VideoSelection::Ready(selected(17, Some(IpAddressType::Ipv4)));
    assert!(matches!(
        video_installation(ready, VideoRtpAllocation::Unavailable, Some(v4)),
        VideoInstallation::AudioOnly { reason: VideoFallbackReason::NativeRtpUnavailable, .. }
    ));
    let ready = VideoSelection::Ready(selected(17, Some(IpAddressType::Ipv6)));
    assert!(matches!(
        video_installation(ready, VideoRtpAllocation::Active, Some(v4)),
        VideoInstallation::AudioOnly { reason: VideoFallbackReason::LocalEndpointUnavailable, .. }
    ));
    assert!(matches!(
        video_installation(VideoSelection::Disabled, VideoRtpAllocation::NotRequested, None),
        VideoInstallation::Nothing
    ));
}

#[test]
fn pickup_groups_become_masks() {
    assert_eq!(group_mask(&vec![0, 3]), 0b1001);
    assert_eq!(group_mask(&vec![]), 0);
    assert_eq!(group_mask(&vec![63]), 1 << 63);
    let access = access();
    let line = binding("SEP001122334455", 1, "1001");
    assert!(matches!(
        configure_pickup_policy(&access, &line, false, false),
        Err(CallFeatureError::InvalidInput { operation: "configure pickup policy" })
    ));
    assert_eq!(configure_pickup_policy(&access, &line, true, true).unwrap().call_groups, 0);
}

#[test]
fn channel_operations_need_a_live_channel() {
    let access = access();
    assert!(channel_operation(&access, PbxCallId(1), ChannelOperation::Answer, true).is_ok());
    assert!(matches!(
        channel_operation(&access, PbxCallId(2), ChannelOperation::Hold, true),
        Err(AsteriskBackendError::CallUnavailable { operation: "hold", call_id: PbxCallId(2) })
    ));
    assert!(channel_operation(&access, PbxCallId(1), ChannelOperation::Resume, false).is_err());
}

#[test]
fn routing_starts_only_after_every_step() {
    let mut access = access();
    assert!(start_routing(&access, PbxCallId(1), "a\0", "4711").is_err());
    assert!(start_routing(&access, PbxCallId(2), "from-sccp", "4711").is_err());
    let routing = start_routing(&access, PbxCallId(1), "from-sccp", "4711").unwrap();
    assert_eq!(routing.metadata.dnid, Some("4711".to_owned()));
    let refused = continue_routing(
        &mut access,
        &routing,
        RoutingStage::Validating,
        RoutingReply::Validated(Err("too long".to_owned())),
    );
    assert!(matches!(refused, (RoutingStage::Done, RoutingAction::Finish(Err(_)))));
    let (stage, action) = continue_routing(
        &mut access,
        &routing,
        RoutingStage::Validating,
        RoutingReply::Validated(Ok(())),
    );
    assert_eq!(action, RoutingAction::Apply(&routing.metadata));
    let (stage, action) =
        continue_routing(&mut access, &routing, stage, RoutingReply::Applied(Some(Ok(()))));
    assert_eq!(action, RoutingAction::Commit(&routing.metadata));
    assert_eq!(access.shared.controller.calls[0].metadata.dnid, None);
    let (stage, action) =
        continue_routing(&mut access, &routing, stage, RoutingReply::Committed(true));
    assert_eq!(action, RoutingAction::StartDialplan(&routing.text));
    assert_eq!(
        access.shared.controller.calls[0].metadata.dnid,
        Some("4711".to_owned())
    );
    let failed = continue_routing(&mut access, &routing, stage, RoutingReply::Started(false));
    assert!(matches!(failed, (RoutingStage::Done, RoutingAction::Finish(Err(_)))));
    let (_, action) = continue_routing(
        &mut access,
        &routing,
        RoutingStage::Starting,
        RoutingReply::Started(true),
    );
    assert_eq!(action, RoutingAction::Finish(Ok(())));
}

#[test]
fn line_states_reflect_calls_and_registration() {
    let mut access = access();
    assert_eq!(device_state(&access, "1001"), DeviceState::InUse);
    assert_eq!(device_state(&access, "9999"), DeviceState::Removed);
    access.shared.controller.appearances.clear();
    access.shared.controller.calls.clear();
    assert_eq!(device_state(&access, "1001"), DeviceState::NotInUse);
    access.shared.controller.registered.clear();
    assert_eq!(device_state(&access, "1001"), DeviceState::Unavailable);
}

#[test]
fn mailboxes_of_lines_are_subscribed_once() {
    let access = access();
    let subscriptions = install_mwi(&access);
    assert_eq!(subscriptions.len(), 1);
    assert_eq!(subscriptions[0].line, "1001");
    assert_eq!(subscriptions[0].mailbox, "1001@default");
}

#[test]
fn the_lines_of_a_station_are_published_in_order_and_once() {
    let mut access = access();
    access.shared.config.devices[0].lines =
        vec!["b".to_owned(), "1001".to_owned(), "a".to_owned(), "b".to_owned()];
    let mut roaming = MobilityAppearance {
        device_id: station(),
        button_instance: 6,
        binding: binding("SEP001122334455", 9, "aa"),
    };
    access.shared.controller.mobility.push(roaming);
    roaming = MobilityAppearance {
        device_id: DeviceId::named("SEPOTHER"),
        button_instance: 6,
        binding: binding("SEPOTHER", 9, "other"),
    };
    access.shared.controller.mobility.push(roaming);
    let published = publish_device_lines(&access, &station());
    let expect = |line: &str, state| PresenceCommand::PublishLine { line: line.to_owned(), state };
    assert_eq!(
        published,
        vec![
            expect("1001", DeviceState::InUse),
            expect("a", DeviceState::Removed),
            expect("aa", DeviceState::NotInUse),
            expect("b", DeviceState::Removed),
        ]
    );
}
