//! Media parameters of a call: framing, addresses, traffic classes and the way
//! back when direct media fails.

use vstd::prelude::*;
use vstd::string::*;

use crate::access::{self, remove_channel, with_channel, Access, RetiredCall};
use crate::commands::{MediaTrafficClass, PhoneCommand, PhoneCommandAction};
use crate::config::{self, AdvertisedAddresses, ModuleConfig, NetworkRange};
use crate::controller;
use crate::ids::{CallId, DeviceId, PbxCallId};
use crate::lookup;
use crate::model::{
    AudioFraming, AudioProcessingPolicy, CallAppearance, CallState, Codec, DtmfMode, IpAddress,
    MediaCapability, MediaEndpoint, MediaEndpointAddress, MediaPolicy, MediaStreamState, NatMode,
    QosPolicy, StationMediaCapabilities,
};
use crate::text::{self, decimal_text};

verus! {

#[derive(Clone, Copy, Debug, PartialEq, Eq, Structural)]
pub enum AudioFramingError {
    StationUnavailable,
    InvalidRequestedPacketDuration,
    UnsupportedCodec { codec: Codec },
    PacketDurationExceedsStationMaximum { requested_packet_ms: u32, maximum_packet_ms: u32 },
}

/// The words for framing that a station does not take.
pub open spec fn framing_error_words(error: AudioFramingError) -> Seq<char> {
    match error {
        AudioFramingError::StationUnavailable => "station is unavailable"@,
        AudioFramingError::InvalidRequestedPacketDuration =>
            "audio packet duration must be non-zero"@,
        AudioFramingError::UnsupportedCodec { codec } => "codec "@ + codec.name_spec()
            + " is not advertised by the station"@,
        AudioFramingError::PacketDurationExceedsStationMaximum {
            requested_packet_ms,
            maximum_packet_ms,
        } => "audio packet duration "@ + text::decimal(requested_packet_ms as nat)
            + " ms exceeds station maximum "@ + text::decimal(maximum_packet_ms as nat) + " ms"@,
    }
}

impl AudioFramingError {
    pub fn text(&self) -> (words: String)
        ensures
            words@ == framing_error_words(*self),
    {
        match self {
            AudioFramingError::StationUnavailable => "station is unavailable".to_owned(),
            AudioFramingError::InvalidRequestedPacketDuration => {
                "audio packet duration must be non-zero".to_owned()
            },
            AudioFramingError::UnsupportedCodec { codec } => {
                let mut words = "codec ".to_owned();
                words.append(codec.name().as_str());
                words.append(" is not advertised by the station");
                words
            },
            AudioFramingError::PacketDurationExceedsStationMaximum {
                requested_packet_ms,
                maximum_packet_ms,
            } => {
                let mut words = "audio packet duration ".to_owned();
                words.append(decimal_text(*requested_packet_ms as u64).as_str());
                words.append(" ms exceeds station maximum ");
                words.append(decimal_text(*maximum_packet_ms as u64).as_str());
                words.append(" ms");
                words
            },
        }
    }
}

/// How long a packet of one codec may be for a station.
#[derive(Clone, Copy, Debug, PartialEq, Eq, Structural)]
pub enum StationPacketLimit {
    Unavailable,
    /// The station has not reported its capabilities yet.
    Pending,
    Maximum(u32),
    Unsupported,
}

/// The capability is for `codec`.
pub open spec fn for_codec(codec: Codec) -> spec_fn(MediaCapability) -> bool {
    |c: MediaCapability| c.codec == codec
}

impl Access {
    pub open spec fn packet_limit_spec(self, device: Seq<char>, codec: Codec) -> StationPacketLimit {
        match lookup::first(self.shared.controller.registered@, controller::is_station(device)) {
            None => StationPacketLimit::Unavailable,
            Some(station) => match station.capabilities {
                None => StationPacketLimit::Pending,
                Some(capabilities) => match lookup::first(
                    capabilities.audio@,
                    for_codec(codec),
                ) {
                    Some(capability) => StationPacketLimit::Maximum(capability.max_packet_ms),
                    None => StationPacketLimit::Unsupported,
                },
            },
        }
    }

    /// The packet duration that `call_id` asks for.
    pub open spec fn requested_packet_ms_spec(self, call_id: CallId) -> u32 {
        let default = self.shared.config.general.audio_framing_default.packet_ms;
        match lookup::first(self.shared.controller.appearances@, controller::is_call(call_id)) {
            None => default,
            Some(call) => match lookup::first(
                self.shared.controller.runtime@,
                controller::record_of(call.pbx_id),
            ) {
                None => default,
                Some(record) => match record.audio_packet_ms {
                    Some(packet_ms) => packet_ms,
                    None => default,
                },
            },
        }
    }

    /// The framing for `codec` on `call_id`, as far as the station takes it.
    pub open spec fn framing_spec(self, device: Seq<char>, call_id: CallId, codec: Codec) -> Result<
        AudioFraming,
        AudioFramingError,
    > {
        let requested = self.requested_packet_ms_spec(call_id);
        if requested == 0 {
            Err(AudioFramingError::InvalidRequestedPacketDuration)
        } else {
            match self.packet_limit_spec(device, codec) {
                StationPacketLimit::Unavailable => Err(AudioFramingError::StationUnavailable),
                StationPacketLimit::Unsupported => Err(
                    AudioFramingError::UnsupportedCodec { codec },
                ),
                StationPacketLimit::Maximum(maximum) if requested > maximum => Err(
                    AudioFramingError::PacketDurationExceedsStationMaximum {
                        requested_packet_ms: requested,
                        maximum_packet_ms: maximum,
                    },
                ),
                _ => Ok(
                    AudioFraming {
                        packet_ms: requested,
                        max_frames_per_packet: self.shared.config.general.audio_framing_default.max_frames_per_packet,
                    },
                ),
            }
        }
    }

    /// The media policy of the line that `call_id` uses on `device`.
    pub open spec fn media_policy_spec(self, device: Seq<char>, call_id: CallId) -> Option<
        MediaPolicy,
    > {
        match lookup::first(self.shared.controller.appearances@, controller::is_call(call_id)) {
            None => None,
            Some(call) => match self.shared.binding_spec(device, call.line_instance) {
                None => None,
                Some(binding) => binding.media,
            },
        }
    }

    pub open spec fn dtmf_mode_spec(self, device: Seq<char>, call_id: CallId) -> DtmfMode {
        match self.media_policy_spec(device, call_id) {
            Some(media) => media.dtmf_mode,
            None => DtmfMode::Auto,
        }
    }

    pub open spec fn audio_processing_spec(self, device: Seq<char>, call_id: CallId) ->
        AudioProcessingPolicy {
        match self.media_policy_spec(device, call_id) {
            Some(media) => media.audio_processing,
            None => self.shared.config.general.audio_processing_default,
        }
    }

    /// The marks of a station: its own, or the general ones for a guest.
    pub open spec fn qos_spec(self, device: Seq<char>) -> QosPolicy {
        match lookup::first(self.shared.config.devices@, config::is_device(device)) {
            Some(found) => found.network.qos,
            None => self.shared.config.general.qos,
        }
    }
}

fn station_packet_limit(access: &Access, device: &DeviceId, codec: Codec) -> (limit:
    StationPacketLimit)
    ensures
        limit == access.packet_limit_spec(device@, codec),
{
    let station = match access.shared.controller.registered_device(device) {
        Some(station) => station,
        None => return StationPacketLimit::Unavailable,
    };
    match &station.capabilities {
        None => StationPacketLimit::Pending,
        Some(capabilities) => match audio_capability(capabilities, codec) {
            Some(capability) => StationPacketLimit::Maximum(capability.max_packet_ms),
            None => StationPacketLimit::Unsupported,
        },
    }
}

/// What a station reported for `codec`.
pub fn audio_capability(capabilities: &StationMediaCapabilities, codec: Codec) -> (found: Option<
    MediaCapability,
>)
    ensures
        found == lookup::first(capabilities.audio@, for_codec(codec)),
{
    let ghost p = for_codec(codec);
    let mut i: usize = 0;
    while i < capabilities.audio.len()
        invariant
            p == for_codec(codec),
            0 <= i <= capabilities.audio@.len(),
            lookup::first_at(capabilities.audio@, p, 0) == lookup::first_at(
                capabilities.audio@,
                p,
                i as int,
            ),
        decreases capabilities.audio@.len() - i,
    {
        if capabilities.audio[i].codec == codec {
            return Some(capabilities.audio[i]);
        }
        i += 1;
    }
    None
}

fn requested_packet_ms(access: &Access, call_id: CallId) -> (requested: u32)
    ensures
        requested == access.requested_packet_ms_spec(call_id),
{
    if let Some(call) = access.shared.controller.call(call_id) {
        if let Some(record) = access.shared.controller.call_runtime_record(call.pbx_id) {
            if let Some(packet_ms) = record.audio_packet_ms {
                return packet_ms;
            }
        }
    }
    access.shared.config.general.audio_framing_default.packet_ms
}

/// The framing for `codec` on a call of `device`.
pub fn audio_framing(access: &Access, device: &DeviceId, call_id: CallId, codec: Codec) -> (framing:
    Result<AudioFraming, AudioFramingError>)
    ensures
        framing == access.framing_spec(device@, call_id, codec),
{
    let limit = station_packet_limit(access, device, codec);
    let requested: u32 = requested_packet_ms(access, call_id);
    if requested == 0 {
        return Err(AudioFramingError::InvalidRequestedPacketDuration);
    }
    match limit {
        StationPacketLimit::Unavailable => return Err(AudioFramingError::StationUnavailable),
        StationPacketLimit::Unsupported => {
            return Err(AudioFramingError::UnsupportedCodec { codec });
        },
        StationPacketLimit::Maximum(maximum) => if requested > maximum {
            return Err(
                AudioFramingError::PacketDurationExceedsStationMaximum {
                    requested_packet_ms: requested,
                    maximum_packet_ms: maximum,
                },
            );
        },
        StationPacketLimit::Pending => {},
    }
    Ok(
        AudioFraming {
            packet_ms: requested,
            max_frames_per_packet: access.shared.config.general.audio_framing_default.max_frames_per_packet,
        },
    )
}

fn call_media_policy<'a>(access: &'a Access, device: &DeviceId, call_id: CallId) -> (policy: Option<
    &'a MediaPolicy,
>)
    ensures
        lookup::target(policy) == access.media_policy_spec(device@, call_id),
{
    match access.shared.controller.call(call_id) {
        None => None,
        Some(call) => match access.line_binding(device, call.line_instance) {
            None => None,
            Some(binding) => match &binding.media {
                Some(media) => Some(media),
                None => None,
            },
        },
    }
}

pub fn configured_dtmf_mode(access: &Access, device: &DeviceId, call_id: CallId) -> (mode: DtmfMode)
    ensures
        mode == access.dtmf_mode_spec(device@, call_id),
{
    match call_media_policy(access, device, call_id) {
        Some(media) => media.dtmf_mode,
        None => DtmfMode::Auto,
    }
}

pub fn configured_audio_processing(access: &Access, device: &DeviceId, call_id: CallId) -> (policy:
    AudioProcessingPolicy)
    ensures
        policy == access.audio_processing_spec(device@, call_id),
{
    match call_media_policy(access, device, call_id) {
        Some(media) => media.audio_processing,
        None => access.shared.config.general.audio_processing_default,
    }
}

/// Whether a call may carry audio before it is answered; it may unless its line
/// says otherwise.
pub fn configured_early_media(access: &Access, device: &DeviceId, call_id: CallId) -> (early: bool)
    ensures
        early == match access.media_policy_spec(device@, call_id) {
            Some(media) => media.early_media,
            None => true,
        },
{
    match call_media_policy(access, device, call_id) {
        Some(media) => media.early_media,
        None => true,
    }
}

fn configured_qos(access: &Access, device: &DeviceId) -> (qos: QosPolicy)
    ensures
        qos == access.qos_spec(device@),
{
    match access.shared.config.device(device) {
        Some(found) => found.network.qos,
        None => access.shared.config.general.qos,
    }
}

pub fn configured_audio_traffic_class(access: &Access, device: &DeviceId) -> (class: Option<
    MediaTrafficClass,
>)
    ensures
        class == MediaTrafficClass::of(access.qos_spec(device@).audio.dscp),
{
    MediaTrafficClass::from_dscp(configured_qos(access, device).audio.dscp)
}

pub fn configured_video_traffic_class(access: &Access, device: &DeviceId) -> (class: Option<
    MediaTrafficClass,
>)
    ensures
        class == MediaTrafficClass::of(access.qos_spec(device@).video.dscp),
{
    MediaTrafficClass::from_dscp(configured_qos(access, device).video.dscp)
}

/// Addresses learned for the driver's own side of a translated network.
#[derive(Clone, Copy, Debug, PartialEq, Eq, Structural)]
pub struct ResolvedExternalAddresses {
    pub ipv4: Option<IpAddress>,
    pub ipv6: Option<IpAddress>,
}

/// What decides which address stands for which side of a call.
#[derive(Debug, PartialEq, Eq)]
pub struct AddressSelectionPolicy<'a> {
    pub nat: NatMode,
    pub local_networks: &'a Vec<NetworkRange>,
    pub advertised: AdvertisedAddresses,
    pub external: ResolvedExternalAddresses,
}

/// The translation mode of `device`: its own, or the general one for a guest.
pub open spec fn nat_mode_spec(config: ModuleConfig, device: Seq<char>) -> Option<NatMode> {
    match lookup::first(config.devices@, config::is_device(device)) {
        Some(found) => Some(found.network.nat),
        None => match lookup::first(config.guest_bindings@, config::bound_at(device, 1)) {
            Some(_) => Some(config.general.network.nat),
            None => None,
        },
    }
}

/// The policy for `device`; a station that is neither configured nor a guest has
/// none.
pub fn address_selection_policy<'a>(
    config: &'a ModuleConfig,
    device_id: &DeviceId,
    external: ResolvedExternalAddresses,
) -> (policy: Option<AddressSelectionPolicy<'a>>)
    ensures
        match nat_mode_spec(*config, device_id@) {
            Some(mode) => policy == Some(
                AddressSelectionPolicy {
                    nat: mode,
                    local_networks: &config.general.network.local_networks,
                    advertised: config.general.network.advertised,
                    external,
                },
            ),
            None => policy is None,
        },
{
    let mode = match config.device(device_id) {
        Some(found) => found.network.nat,
        None => match config.guest_hotline_binding(device_id, 1) {
            Some(_) => config.general.network.nat,
            None => return None,
        },
    };
    Some(
        AddressSelectionPolicy {
            nat: mode,
            local_networks: &config.general.network.local_networks,
            advertised: config.general.network.advertised,
            external,
        },
    )
}

/// Where a registered station connects from, and what it reports of itself.
pub open spec fn address_context_spec(access: Access, device: Seq<char>) -> Option<
    (IpAddress, Option<IpAddress>),
> {
    match lookup::first(access.shared.controller.registered@, controller::is_station(device)) {
        Some(station) => Some(
            (station.registration.peer, station.registration.reported_address),
        ),
        None => None,
    }
}

pub fn station_address_context(access: &Access, device_id: &DeviceId) -> (context: Option<
    (IpAddress, Option<IpAddress>),
>)
    ensures
        context == address_context_spec(*access, device_id@),
{
    match access.shared.controller.registered_device(device_id) {
        Some(station) => Some((station.registration.peer, station.registration.reported_address)),
        None => None,
    }
}

/// The translation policy and the addresses of `device` are both known.
pub open spec fn address_known_spec(access: Access, device: Seq<char>) -> bool {
    nat_mode_spec(access.shared.config, device) is Some && address_context_spec(access, device)
        is Some
}

/// Why an address cannot be normalized.
#[derive(Debug, PartialEq, Eq)]
pub enum AddressError {
    NoPolicy,
    NotRegistered,
    /// The selection itself found no usable address.
    Selection(String),
}

/// The address that stands for a station, where `selected` is what the
/// selection under its policy finds.
pub open spec fn normalized_spec(
    access: Access,
    device: Seq<char>,
    selected: Result<IpAddress, String>,
) -> Result<IpAddress, AddressError> {
    if nat_mode_spec(access.shared.config, device) is None {
        Err(AddressError::NoPolicy)
    } else if address_context_spec(access, device) is None {
        Err(AddressError::NotRegistered)
    } else {
        match selected {
            Ok(address) => Ok(address),
            Err(text) => Err(AddressError::Selection(text)),
        }
    }
}

fn normalized_phone_address(
    access: &Access,
    device_id: &DeviceId,
    selected: Result<IpAddress, String>,
) -> (address: Result<IpAddress, AddressError>)
    ensures
        address == normalized_spec(*access, device_id@, selected),
{
    let external = ResolvedExternalAddresses { ipv4: None, ipv6: None };
    if address_selection_policy(&access.shared.config, device_id, external).is_none() {
        return Err(AddressError::NoPolicy);
    }
    if station_address_context(access, device_id).is_none() {
        return Err(AddressError::NotRegistered);
    }
    match selected {
        Ok(address) => Ok(address),
        Err(text) => Err(AddressError::Selection(text)),
    }
}

/// Puts the selected address into an endpoint that a phone reported. Where none
/// can be selected the endpoint stays as it was.
pub fn normalize_phone_media_endpoint(
    access: &Access,
    device_id: &DeviceId,
    endpoint: &mut MediaEndpoint,
    selected: Result<IpAddress, String>,
) -> (outcome: Result<(), AddressError>)
    ensures
        match normalized_spec(*access, device_id@, selected) {
            Ok(address) => outcome is Ok && *final(endpoint) == (MediaEndpoint {
                address,
                ..*old(endpoint)
            }),
            Err(error) => outcome == Err::<(), AddressError>(error) && *final(endpoint) == *old(
                endpoint,
            ),
        },
{
    match normalized_phone_address(access, device_id, selected) {
        Ok(address) => {
            endpoint.address = address;
            Ok(())
        },
        Err(error) => Err(error),
    }
}

/// Puts the selected address into a video endpoint that a phone reported.
pub fn normalize_phone_video_endpoint(
    access: &Access,
    device_id: &DeviceId,
    endpoint: &mut MediaEndpointAddress,
    selected: Result<IpAddress, String>,
) -> (outcome: Result<(), AddressError>)
    ensures
        match normalized_spec(*access, device_id@, selected) {
            Ok(address) => outcome is Ok && *final(endpoint) == (MediaEndpointAddress {
                address,
                ..*old(endpoint)
            }),
            Err(error) => outcome == Err::<(), AddressError>(error) && *final(endpoint) == *old(
                endpoint,
            ),
        },
{
    match normalized_phone_address(access, device_id, selected) {
        Ok(address) => {
            endpoint.address = address;
            Ok(())
        },
        Err(error) => Err(error),
    }
}

/// The words for an address that cannot be normalized.
pub open spec fn address_error_words(error: AddressError, device: Seq<char>) -> Seq<char> {
    match error {
        AddressError::NoPolicy => "device "@ + device + " has no address-selection policy"@,
        AddressError::NotRegistered => "device "@ + device + " is not registered"@,
        AddressError::Selection(text) => text@,
    }
}

impl AddressError {
    pub fn text(&self, device_id: &DeviceId) -> (words: String)
        ensures
            words@ == address_error_words(*self, device_id@),
    {
        match self {
            AddressError::NoPolicy => {
                let mut words = "device ".to_owned();
                words.append(device_id.as_str());
                words.append(" has no address-selection policy");
                words
            },
            AddressError::NotRegistered => {
                let mut words = "device ".to_owned();
                words.append(device_id.as_str());
                words.append(" is not registered");
                words
            },
            AddressError::Selection(text) => text.clone(),
        }
    }
}

/// Whether the address of `device` is translated, where `decided` is what the
/// decision under its policy and addresses says; unknown for a station without
/// either.
pub fn station_nat_active(
    access: &Access,
    config: &ModuleConfig,
    device_id: &DeviceId,
    decided: bool,
) -> (active: Option<bool>)
    ensures
        active == if nat_mode_spec(*config, device_id@) is Some && address_context_spec(
            *access,
            device_id@,
        ) is Some {
            Some(decided)
        } else {
            None
        },
{
    let external = ResolvedExternalAddresses { ipv4: None, ipv6: None };
    if address_selection_policy(config, device_id, external).is_none() {
        return None;
    }
    if station_address_context(access, device_id).is_none() {
        return None;
    }
    Some(decided)
}

/// How the two directions of a call's audio are opened.
#[derive(Clone, Copy, Debug, PartialEq, Eq, Structural)]
pub enum OutboundMediaMode {
    /// Both at once, for a station behind a translated address.
    Coupled,
    /// One after the other, each when the last is acknowledged.
    Staged,
}

/// The mode for `device`. A station of which too little is known gets the
/// staged one.
pub fn outbound_media_mode(access: &Access, device_id: &DeviceId, decided: bool) -> (mode:
    OutboundMediaMode)
    ensures
        mode == OutboundMediaMode::Coupled <==> decided && address_known_spec(*access, device_id@),
{
    match station_nat_active(access, &access.shared.config, device_id, decided) {
        Some(true) => OutboundMediaMode::Coupled,
        _ => OutboundMediaMode::Staged,
    }
}

/// Why a video endpoint could not be handed to the switch.
#[derive(Clone, Copy, Debug, PartialEq, Eq, Structural)]
pub enum RemoteVideoError {
    NoChannel,
    NoVideoStream,
}

/// What handing a video endpoint to the channel of `pbx_id` comes to, where
/// `accepted` is the channel's answer.
pub fn set_remote_video_endpoint(access: &Access, pbx_id: PbxCallId, accepted: bool) -> (outcome:
    Result<(), RemoteVideoError>)
    ensures
        outcome == match access.shared.live_channel_spec(pbx_id) {
            None => Err(RemoteVideoError::NoChannel),
            Some(_) => if accepted {
                Ok(())
            } else {
                Err(RemoteVideoError::NoVideoStream)
            },
        },
{
    match with_channel(access, pbx_id) {
        None => Err(RemoteVideoError::NoChannel),
        Some(_) => if accepted {
            Ok(())
        } else {
            Err(RemoteVideoError::NoVideoStream)
        },
    }
}

impl RemoteVideoError {
    pub fn text(self, pbx_id: PbxCallId) -> (words: String)
        ensures
            words@ == "call PbxCallId("@ + text::decimal(pbx_id.0 as nat) + match self {
                RemoteVideoError::NoChannel => ") has no native channel"@,
                RemoteVideoError::NoVideoStream => ") has no active video RTP instance"@,
            },
    {
        let mut words = "call PbxCallId(".to_owned();
        words.append(decimal_text(pbx_id.0).as_str());
        match self {
            RemoteVideoError::NoChannel => words.append(") has no native channel"),
            RemoteVideoError::NoVideoStream => words.append(") has no active video RTP instance"),
        }
        words
    }
}

/// The payload type that announces telephone events.
pub const TELEPHONE_EVENT_PAYLOAD: u8 = 101;

/// The port that carries the control packets of a stream: the next one, where
/// there is a next one.
pub open spec fn rtcp_port_spec(rtp_port: u16) -> u16 {
    if rtp_port < u16::MAX {
        (rtp_port + 1) as u16
    } else {
        u16::MAX
    }
}

fn rtcp_port(rtp_port: u16) -> (port: u16)
    ensures
        port == rtcp_port_spec(rtp_port),
{
    if rtp_port < u16::MAX {
        rtp_port + 1
    } else {
        u16::MAX
    }
}

/// The switch's end of a call's audio as it is announced to `device`.
pub open spec fn local_media_spec(
    access: Access,
    pbx_id: PbxCallId,
    device: Seq<char>,
    codec: Codec,
    native: Option<MediaEndpointAddress>,
    advertised: Option<IpAddress>,
) -> Option<MediaEndpoint> {
    if access.shared.live_channel_spec(pbx_id) is Some && address_known_spec(access, device) {
        match (native, advertised) {
            (Some(native), Some(address)) => Some(
                MediaEndpoint {
                    address,
                    rtp_port: native.port,
                    rtcp_port: rtcp_port_spec(native.port),
                    codec,
                    packet_ms: access.shared.config.general.audio_framing_default.packet_ms,
                    max_frames_per_packet: access.shared.config.general.audio_framing_default.max_frames_per_packet,
                    telephone_event_payload: TELEPHONE_EVENT_PAYLOAD,
                },
            ),
            _ => None,
        }
    } else {
        None
    }
}

/// `native` is where the call's channel listens, `advertised` the address that
/// the selection announces for it.
pub fn local_media_endpoint(
    access: &Access,
    pbx_id: PbxCallId,
    device_id: &DeviceId,
    codec: Codec,
    native: Option<MediaEndpointAddress>,
    advertised: Option<IpAddress>,
) -> (endpoint: Option<MediaEndpoint>)
    ensures
        endpoint == local_media_spec(*access, pbx_id, device_id@, codec, native, advertised),
{
    if with_channel(access, pbx_id).is_none() {
        return None;
    }
    if station_nat_active(access, &access.shared.config, device_id, false).is_none() {
        return None;
    }
    match (native, advertised) {
        (Some(native), Some(address)) => Some(
            MediaEndpoint {
                address,
                rtp_port: native.port,
                rtcp_port: rtcp_port(native.port),
                codec,
                packet_ms: access.shared.config.general.audio_framing_default.packet_ms,
                max_frames_per_packet: access.shared.config.general.audio_framing_default.max_frames_per_packet,
                telephone_event_payload: TELEPHONE_EVENT_PAYLOAD,
            },
        ),
        _ => None,
    }
}

/// The switch's end of a call's video as it is announced to `device_id`.
pub fn local_video_endpoint(
    access: &Access,
    pbx_id: PbxCallId,
    device_id: &DeviceId,
    native: Option<MediaEndpointAddress>,
    advertised: Option<IpAddress>,
) -> (endpoint: Option<MediaEndpointAddress>)
    ensures
        endpoint == match (native, advertised) {
            (Some(native), Some(address)) => if access.shared.live_channel_spec(pbx_id) is Some
                && address_known_spec(*access, device_id@) {
                Some(MediaEndpointAddress { address, port: native.port })
            } else {
                None
            },
            _ => None,
        },
{
    if with_channel(access, pbx_id).is_none() {
        return None;
    }
    if station_nat_active(access, &access.shared.config, device_id, false).is_none() {
        return None;
    }
    match (native, advertised) {
        (Some(native), Some(address)) => Some(
            MediaEndpointAddress { address, port: native.port },
        ),
        _ => None,
    }
}

/// A connected call whose audio can flow between the endpoints directly.
#[derive(Debug, PartialEq, Eq)]
pub struct DirectMediaCall {
    pub pbx_id: PbxCallId,
    pub device_id: DeviceId,
    pub call_id: CallId,
    pub line_instance: u32,
    pub codec: Codec,
    pub phone_endpoint: MediaEndpoint,
    pub transmit_endpoint: MediaEndpoint,
}

/// The call as a direct-media call, where both its streams are open.
pub open spec fn open_call_spec(call: CallAppearance) -> Option<DirectMediaCall> {
    match (call.state, call.audio, call.audio_transmit) {
        (
            CallState::Connected,
            MediaStreamState::Open(phone_endpoint),
            MediaStreamState::Open(transmit_endpoint),
        ) => Some(
            DirectMediaCall {
                pbx_id: call.pbx_id,
                device_id: call.device_id,
                call_id: call.sccp_id,
                line_instance: call.line_instance,
                codec: call.codec,
                phone_endpoint,
                transmit_endpoint,
            },
        ),
        _ => None,
    }
}

fn open_call(call: &CallAppearance) -> (direct: Option<DirectMediaCall>)
    ensures
        direct == open_call_spec(*call),
{
    match (call.state, call.audio, call.audio_transmit) {
        (
            CallState::Connected,
            MediaStreamState::Open(phone_endpoint),
            MediaStreamState::Open(transmit_endpoint),
        ) => Some(
            DirectMediaCall {
                pbx_id: call.pbx_id,
                device_id: call.device_id.clone(),
                call_id: call.sccp_id,
                line_instance: call.line_instance,
                codec: call.codec,
                phone_endpoint,
                transmit_endpoint,
            },
        ),
        _ => None,
    }
}

/// The call of a channel, if its media may leave the switch: nothing anchors
/// it, it is in no conference, nobody has barged in, and both its streams are
/// open.
pub open spec fn direct_media_call_spec(access: Access, pbx_id: PbxCallId) -> Option<
    DirectMediaCall,
> {
    if access.shared.anchored@.contains(pbx_id) {
        None
    } else {
        match lookup::first(access.shared.controller.calls@, controller::is_pbx_call(pbx_id)) {
            None => None,
            Some(pbx_call) => if pbx_call.conference_id is Some || pbx_call.barged {
                None
            } else {
                match pbx_call.active_call_id {
                    None => None,
                    Some(call_id) => match lookup::first(
                        access.shared.controller.appearances@,
                        controller::is_call(call_id),
                    ) {
                        None => None,
                        Some(call) => if call.pbx_id == pbx_id {
                            open_call_spec(call)
                        } else {
                            None
                        },
                    },
                }
            },
        }
    }
}

/// Whether the media of `pbx_id` has to pass through the switch.
pub fn is_anchored(access: &Access, pbx_id: PbxCallId) -> (anchored: bool)
    ensures
        anchored == access.shared.anchored@.contains(pbx_id),
{
    let mut i: usize = 0;
    while i < access.shared.anchored.len()
        invariant
            0 <= i <= access.shared.anchored@.len(),
            forall|j: int| 0 <= j < i ==> access.shared.anchored@[j] != pbx_id,
        decreases access.shared.anchored@.len() - i,
    {
        if access.shared.anchored[i] == pbx_id {
            return true;
        }
        i += 1;
    }
    false
}

pub fn direct_media_call(access: &Access, pbx_id: PbxCallId) -> (direct: Option<DirectMediaCall>)
    ensures
        direct == direct_media_call_spec(*access, pbx_id),
{
    if is_anchored(access, pbx_id) {
        return None;
    }
    let pbx_call = match access.shared.controller.pbx_call(pbx_id) {
        Some(found) => found,
        None => return None,
    };
    if pbx_call.conference_id.is_some() || pbx_call.barged {
        return None;
    }
    let call_id = match pbx_call.active_call_id {
        Some(call_id) => call_id,
        None => return None,
    };
    match access.shared.controller.call(call_id) {
        None => None,
        Some(call) => if call.pbx_id == pbx_id {
            open_call(call)
        } else {
            None
        },
    }
}

/// What decides whether two endpoints may exchange media directly.
#[derive(Debug, PartialEq, Eq)]
pub struct DirectMediaPolicy<'a> {
    pub enabled: bool,
    pub forced_jitter_buffer: bool,
    pub nat: NatMode,
    pub local_networks: &'a Vec<NetworkRange>,
}

pub open spec fn direct_media_policy_spec<'a>(
    access: Access,
    config: ModuleConfig,
    call: DirectMediaCall,
) -> Option<DirectMediaPolicy<'a>> {
    match (
        access.shared.binding_spec(call.device_id@, call.line_instance),
        lookup::first(config.devices@, config::is_device(call.device_id@)),
    ) {
        (Some(binding), Some(device)) => match binding.media {
            Some(media) => Some(
                DirectMediaPolicy {
                    enabled: media.direct_media,
                    forced_jitter_buffer: config.general.jitter_buffer_forced,
                    nat: device.network.nat,
                    local_networks: &config.general.network.local_networks,
                },
            ),
            None => None,
        },
        _ => None,
    }
}

/// The policy for a call; a call of a station that is not configured has none.
pub fn direct_media_policy<'a>(
    access: &Access,
    config: &'a ModuleConfig,
    call: &DirectMediaCall,
) -> (policy: Option<DirectMediaPolicy<'a>>)
    ensures
        policy == direct_media_policy_spec(*access, *config, *call),
{
    let binding = match access.line_binding(&call.device_id, call.line_instance) {
        Some(binding) => binding,
        None => return None,
    };
    let media = match &binding.media {
        Some(media) => media,
        None => return None,
    };
    match config.device(&call.device_id) {
        Some(device) => Some(
            DirectMediaPolicy {
                enabled: media.direct_media,
                forced_jitter_buffer: config.general.jitter_buffer_forced,
                nat: device.network.nat,
                local_networks: &config.general.network.local_networks,
            },
        ),
        None => None,
    }
}

/// What becomes of a call whose transmission failed.
#[derive(Clone, Copy, Debug, PartialEq, Eq, Structural)]
pub enum MediaFailureDisposition {
    Ignored,
    Retrying,
    Hangup,
}

/// The call that a failure concerns: the failed endpoint is the one that the
/// call is sending to, and the station is the one that shows it.
pub open spec fn failed_call_spec(
    access: Access,
    device: Seq<char>,
    call_id: CallId,
    failed_endpoint: MediaEndpoint,
) -> Option<DirectMediaCall> {
    match lookup::first(access.shared.controller.appearances@, controller::is_call(call_id)) {
        None => None,
        Some(call) => if call.device_id@ == device && call.audio_transmit == MediaStreamState::Open(
            failed_endpoint,
        ) {
            open_call_spec(call)
        } else {
            None
        },
    }
}

pub fn failed_call(
    access: &Access,
    device_id: &DeviceId,
    call_id: CallId,
    failed_endpoint: MediaEndpoint,
) -> (failed: Option<DirectMediaCall>)
    ensures
        failed == failed_call_spec(*access, device_id@, call_id, failed_endpoint),
{
    match access.shared.controller.call(call_id) {
        None => None,
        Some(call) => {
            let sends_there = match call.audio_transmit {
                MediaStreamState::Open(endpoint) => endpoint == failed_endpoint,
                _ => false,
            };
            if call.device_id.same(device_id) && sends_there {
                open_call(call)
            } else {
                None
            }
        },
    }
}

/// The switch's end of a call, framed as its station takes it; none where it
/// takes no framing. `native` and `advertised` are as for
/// [`local_media_endpoint`].
pub open spec fn framed_anchor_spec(
    access: Access,
    call: DirectMediaCall,
    native: Option<MediaEndpointAddress>,
    advertised: Option<IpAddress>,
) -> Option<MediaEndpoint> {
    match (
        local_media_spec(
            access,
            call.pbx_id,
            call.device_id@,
            call.codec,
            native,
            advertised,
        ),
        access.framing_spec(call.device_id@, call.call_id, call.codec),
    ) {
        (Some(endpoint), Ok(framing)) => Some(
            MediaEndpoint {
                packet_ms: framing.packet_ms,
                max_frames_per_packet: framing.max_frames_per_packet,
                ..endpoint
            },
        ),
        _ => None,
    }
}

/// The endpoint that could take over the media of a failed call.
pub fn framed_anchor(
    access: &Access,
    call: &DirectMediaCall,
    native: Option<MediaEndpointAddress>,
    advertised: Option<IpAddress>,
) -> (anchor: Option<MediaEndpoint>)
    ensures
        anchor == framed_anchor_spec(*access, *call, native, advertised),
{
    let mut endpoint = match local_media_endpoint(
        access,
        call.pbx_id,
        &call.device_id,
        call.codec,
        native,
        advertised,
    ) {
        Some(endpoint) => endpoint,
        None => return None,
    };
    match audio_framing(access, &call.device_id, call.call_id, call.codec) {
        Ok(framing) => {
            endpoint.packet_ms = framing.packet_ms;
            endpoint.max_frames_per_packet = framing.max_frames_per_packet;
            Some(endpoint)
        },
        Err(_) => None,
    }
}

/// What is done about a failed transmission.
#[derive(Debug, PartialEq, Eq)]
pub enum MediaRecovery {
    Ignored,
    /// Tell the handset to send to the switch.
    Retarget(PendingMediaRetarget),
    Hangup,
}

/// Decides what is done about a call whose transmission to `failed_endpoint`
/// failed. `anchor` is what the selection made of the [`framed_anchor`] of the
/// call, of the failed endpoint and of whether the call is anchored already;
/// `previous` is what the controller took out of use for the retarget.
pub fn recover_failed_media_transmission(
    access: &Access,
    device_id: &DeviceId,
    call_id: CallId,
    failed_endpoint: MediaEndpoint,
    anchor: Option<MediaEndpoint>,
    previous: Option<MediaEndpoint>,
) -> (recovery: MediaRecovery)
    ensures
        recovery == match failed_call_spec(*access, device_id@, call_id, failed_endpoint) {
            None => MediaRecovery::Ignored,
            Some(call) => match anchor {
                None => MediaRecovery::Hangup,
                Some(endpoint) => match anchor_retarget_spec(
                    *access,
                    call,
                    endpoint,
                    access.dtmf_mode_spec(call.device_id@, call.call_id),
                    access.audio_processing_spec(call.device_id@, call.call_id),
                    previous,
                ) {
                    Some(retarget) => MediaRecovery::Retarget(retarget),
                    None => MediaRecovery::Hangup,
                },
            },
        },
{
    let call = match failed_call(access, device_id, call_id, failed_endpoint) {
        Some(call) => call,
        None => return MediaRecovery::Ignored,
    };
    let endpoint = match anchor {
        Some(endpoint) => endpoint,
        None => return MediaRecovery::Hangup,
    };
    let dtmf_mode = configured_dtmf_mode(access, &call.device_id, call.call_id);
    let audio_processing = configured_audio_processing(access, &call.device_id, call.call_id);
    match enqueue_media_retarget(access, &call, endpoint, dtmf_mode, audio_processing, previous) {
        Some(retarget) => MediaRecovery::Retarget(retarget),
        None => MediaRecovery::Hangup,
    }
}

/// How a retarget ended: `queued` says whether the handset was told, `restored`
/// whether the controller took the endpoint back in use otherwise.
pub fn media_failure_disposition(
    recovery: &MediaRecovery,
    queued: bool,
    restored: bool,
) -> (disposition: MediaFailureDisposition)
    ensures
        disposition == match *recovery {
            MediaRecovery::Ignored => MediaFailureDisposition::Ignored,
            MediaRecovery::Hangup => MediaFailureDisposition::Hangup,
            MediaRecovery::Retarget(_) => if queued || restored {
                MediaFailureDisposition::Retrying
            } else {
                MediaFailureDisposition::Hangup
            },
        },
{
    match recovery {
        MediaRecovery::Ignored => MediaFailureDisposition::Ignored,
        MediaRecovery::Hangup => MediaFailureDisposition::Hangup,
        MediaRecovery::Retarget(_) => if queued || restored {
            MediaFailureDisposition::Retrying
        } else {
            MediaFailureDisposition::Hangup
        },
    }
}

/// A failure concerns the reported call of the reported station alone, and the
/// endpoint that may take its media over has the call's codec and the framing
/// that the station takes.
pub proof fn law_anchors_keep_codec_and_framing(
    access: Access,
    device: Seq<char>,
    call_id: CallId,
    failed_endpoint: MediaEndpoint,
    native: Option<MediaEndpointAddress>,
    advertised: Option<IpAddress>,
)
    ensures
        failed_call_spec(access, device, call_id, failed_endpoint) matches Some(call) ==> {
            &&& call.call_id == call_id
            &&& call.device_id@ == device
            &&& call.transmit_endpoint == failed_endpoint
            &&& framed_anchor_spec(access, call, native, advertised) matches Some(anchor) ==> {
                &&& anchor.codec == call.codec
                &&& access.framing_spec(device, call_id, call.codec) == Ok::<
                    AudioFraming,
                    AudioFramingError,
                >(
                    AudioFraming {
                        packet_ms: anchor.packet_ms,
                        max_frames_per_packet: anchor.max_frames_per_packet,
                    },
                )
            }
        },
{
    lookup::lemma_first_is_some(
        access.shared.controller.appearances@,
        controller::is_call(call_id),
    );
}

/// What is restored when a handset could not be told of its new endpoint.
#[derive(Clone, Copy, Debug, PartialEq, Eq, Structural)]
pub enum MediaRetargetRollback {
    /// The endpoint that the call was sending to before it was anchored.
    Anchor(MediaEndpoint),
    /// The stream state before direct media was restored.
    Direct(MediaStreamState),
}

/// A command that moves a call's media, and the way back.
#[derive(Debug, PartialEq, Eq)]
pub struct PendingMediaRetarget {
    pub command: PhoneCommand,
    pub call_id: CallId,
    pub rollback: MediaRetargetRollback,
}

/// The command that has `call` send to `endpoint` under `framing`.
pub open spec fn start_media_spec(
    access: Access,
    device_id: DeviceId,
    call_id: CallId,
    endpoint: MediaEndpoint,
    framing: AudioFraming,
    traffic_class: MediaTrafficClass,
) -> PhoneCommand {
    PhoneCommand {
        device_id,
        action: PhoneCommandAction::StartMedia {
            call_id,
            endpoint: MediaEndpoint {
                packet_ms: framing.packet_ms,
                max_frames_per_packet: framing.max_frames_per_packet,
                ..endpoint
            },
            dtmf_mode: access.dtmf_mode_spec(device_id@, call_id),
            audio_processing: access.audio_processing_spec(device_id@, call_id),
            traffic_class,
        },
    }
}

/// The command that has a call of `device_id` send to `endpoint`, framed as the
/// station takes it.
pub fn start_media_command(
    access: &Access,
    device_id: DeviceId,
    call_id: CallId,
    endpoint: MediaEndpoint,
    framing: AudioFraming,
    traffic_class: MediaTrafficClass,
) -> (command: PhoneCommand)
    ensures
        command == start_media_spec(
            *access,
            device_id,
            call_id,
            endpoint,
            framing,
            traffic_class,
        ),
{
    let dtmf_mode = configured_dtmf_mode(access, &device_id, call_id);
    let audio_processing = configured_audio_processing(access, &device_id, call_id);
    let mut framed = endpoint;
    framed.packet_ms = framing.packet_ms;
    framed.max_frames_per_packet = framing.max_frames_per_packet;
    PhoneCommand::new(
        device_id,
        PhoneCommandAction::StartMedia {
            call_id,
            endpoint: framed,
            dtmf_mode,
            audio_processing,
            traffic_class,
        },
    )
}

/// Moving the media of `call` to `endpoint` is possible: the framing and the
/// traffic class of its station are known.
pub open spec fn retarget_spec(
    access: Access,
    call: DirectMediaCall,
    endpoint: MediaEndpoint,
    rollback: MediaRetargetRollback,
) -> Option<PendingMediaRetarget> {
    match (
        access.framing_spec(call.device_id@, call.call_id, call.codec),
        MediaTrafficClass::of(access.qos_spec(call.device_id@).audio.dscp),
    ) {
        (Ok(framing), Some(traffic_class)) => Some(
            PendingMediaRetarget {
                command: start_media_spec(
                    access,
                    call.device_id,
                    call.call_id,
                    endpoint,
                    framing,
                    traffic_class,
                ),
                call_id: call.call_id,
                rollback,
            },
        ),
        _ => None,
    }
}

fn prepare_retarget(
    access: &Access,
    call: &DirectMediaCall,
    endpoint: MediaEndpoint,
    rollback: MediaRetargetRollback,
) -> (retarget: Option<PendingMediaRetarget>)
    ensures
        retarget == retarget_spec(*access, *call, endpoint, rollback),
{
    let framing = match audio_framing(access, &call.device_id, call.call_id, call.codec) {
        Ok(framing) => framing,
        Err(_) => return None,
    };
    match configured_audio_traffic_class(access, &call.device_id) {
        Some(traffic_class) => Some(
            PendingMediaRetarget {
                command: start_media_command(
                    access,
                    call.device_id.clone(),
                    call.call_id,
                    endpoint,
                    framing,
                    traffic_class,
                ),
                call_id: call.call_id,
                rollback,
            },
        ),
        None => None,
    }
}

/// Whether the media of `call` can be moved at all. The controller is told of a
/// move to the switch only where it can.
pub fn retarget_possible(access: &Access, call: &DirectMediaCall) -> (possible: bool)
    ensures
        forall|endpoint: MediaEndpoint, rollback: MediaRetargetRollback|
            possible == (#[trigger] retarget_spec(*access, *call, endpoint, rollback) is Some),
{
    audio_framing(access, &call.device_id, call.call_id, call.codec).is_ok()
        && configured_audio_traffic_class(access, &call.device_id).is_some()
}

/// The move of `call` to the switch's own endpoint. `previous` is the endpoint
/// that the controller took out of use when the move was announced to it;
/// without one nothing is moved.
pub fn prepare_anchor_retarget(
    access: &Access,
    call: &DirectMediaCall,
    anchor: Option<MediaEndpoint>,
    previous: Option<MediaEndpoint>,
) -> (retarget: Option<PendingMediaRetarget>)
    ensures
        retarget == match (anchor, previous) {
            (Some(anchor), Some(previous)) => retarget_spec(
                *access,
                *call,
                anchor,
                MediaRetargetRollback::Anchor(previous),
            ),
            _ => None,
        },
{
    match (anchor, previous) {
        (Some(anchor), Some(previous)) => prepare_retarget(
            access,
            call,
            anchor,
            MediaRetargetRollback::Anchor(previous),
        ),
        _ => None,
    }
}

/// The move of `call` back to its peer. `previous` is the stream state that the
/// controller replaced when the move was announced to it.
pub fn prepare_direct_retarget(
    access: &Access,
    call: &DirectMediaCall,
    previous: Option<MediaStreamState>,
) -> (retarget: Option<PendingMediaRetarget>)
    ensures
        retarget == match previous {
            Some(previous) => retarget_spec(
                *access,
                *call,
                call.transmit_endpoint,
                MediaRetargetRollback::Direct(previous),
            ),
            None => None,
        },
{
    match previous {
        Some(previous) => prepare_retarget(
            access,
            call,
            call.transmit_endpoint,
            MediaRetargetRollback::Direct(previous),
        ),
        None => None,
    }
}

/// What a retarget does next.
#[derive(Debug, PartialEq, Eq)]
pub enum RetargetAction {
    /// Nothing was changed.
    GiveUp,
    /// The handset was told.
    Confirmed,
    /// Restore what the controller had; the move succeeds if that does.
    RollBack { call_id: CallId, rollback: MediaRetargetRollback },
}

/// What follows when the command of a retarget was handed to the handset's
/// queue, or could not be.
pub fn settle_retarget(retarget: Option<PendingMediaRetarget>, queued: bool) -> (action:
    RetargetAction)
    ensures
        action == match retarget {
            None => RetargetAction::GiveUp,
            Some(retarget) => if queued {
                RetargetAction::Confirmed
            } else {
                RetargetAction::RollBack { call_id: retarget.call_id, rollback: retarget.rollback }
            },
        },
{
    match retarget {
        None => RetargetAction::GiveUp,
        Some(retarget) => if queued {
            RetargetAction::Confirmed
        } else {
            RetargetAction::RollBack { call_id: retarget.call_id, rollback: retarget.rollback }
        },
    }
}

/// A retarget is undone as far as the controller undoes it; `restored` is what the
/// controller says, and none where it has gone.
pub open spec fn retargeted(action: RetargetAction, restored: Option<bool>) -> bool {
    match action {
        RetargetAction::GiveUp => false,
        RetargetAction::Confirmed => true,
        RetargetAction::RollBack { .. } => restored == Some(true),
    }
}

impl PendingMediaRetarget {
    /// Whether taking the move back left the call with media.
    pub fn rollback(self, restored: Option<bool>) -> (left: bool)
        ensures
            left == retargeted(
                RetargetAction::RollBack { call_id: self.call_id, rollback: self.rollback },
                restored,
            ),
    {
        match restored {
            Some(restored) => restored,
            None => false,
        }
    }
}

/// Moves the media of a call to the switch. `queued` says whether the command was
/// handed over.
pub fn retarget_to_anchor(
    access: &Access,
    call: &DirectMediaCall,
    anchor: Option<MediaEndpoint>,
    previous: Option<MediaEndpoint>,
    queued: bool,
    restored: Option<bool>,
) -> (moved: bool)
    ensures
        moved == match (anchor, previous) {
            (Some(anchor), Some(previous)) => retarget_spec(
                *access,
                *call,
                anchor,
                MediaRetargetRollback::Anchor(previous),
            ) is Some && (queued || restored == Some(true)),
            _ => false,
        },
{
    match prepare_anchor_retarget(access, call, anchor, previous) {
        None => false,
        Some(retarget) => queued || retarget.rollback(restored),
    }
}

/// Moves the media of a call back to its peer.
pub fn retarget_to_direct(
    access: &Access,
    call: &DirectMediaCall,
    previous: Option<MediaStreamState>,
    queued: bool,
    restored: Option<bool>,
) -> (moved: bool)
    ensures
        moved == match previous {
            Some(previous) => retarget_spec(
                *access,
                *call,
                call.transmit_endpoint,
                MediaRetargetRollback::Direct(previous),
            ) is Some && (queued || restored == Some(true)),
            None => false,
        },
{
    match prepare_direct_retarget(access, call, previous) {
        None => false,
        Some(retarget) => queued || retarget.rollback(restored),
    }
}

impl Access {
    /// Gives the media of a call back to its peer once the switch need not carry it
    /// any more. A call that would be left without media is hung up and forgotten.
    pub fn restore_cancelled_anchor(
        &mut self,
        call_id: PbxCallId,
        restore: &DirectMediaCall,
        previous: Option<MediaStreamState>,
        queued: bool,
        restored: Option<bool>,
    ) -> (hung_up: Option<RetiredCall>)
        ensures
            match previous {
                Some(previous) if retarget_spec(
                    *old(self),
                    *restore,
                    restore.transmit_endpoint,
                    MediaRetargetRollback::Direct(previous),
                ) is Some && (queued || restored == Some(true)) => {
                    &&& hung_up is None
                    &&& *final(self) == *old(self)
                },
                _ => {
                    &&& hung_up == Some(
                        RetiredCall {
                            pbx_id: call_id,
                            cancels_destination: old(self).shared.destinations@.contains(call_id),
                        },
                    )
                    &&& access::without_call(old(self).shared, final(self).shared, call_id)
                },
            },
    {
        if retarget_to_direct(self, restore, previous, queued, restored) {
            return None;
        }
        Some(remove_channel(self, call_id))
    }
}

/// The command that has a failed call send to `endpoint`, and the way back.
pub open spec fn anchor_retarget_spec(
    access: Access,
    call: DirectMediaCall,
    endpoint: MediaEndpoint,
    dtmf_mode: DtmfMode,
    audio_processing: AudioProcessingPolicy,
    previous: Option<MediaEndpoint>,
) -> Option<PendingMediaRetarget> {
    match (MediaTrafficClass::of(access.qos_spec(call.device_id@).audio.dscp), previous) {
        (Some(traffic_class), Some(previous)) => Some(
            PendingMediaRetarget {
                command: PhoneCommand {
                    device_id: call.device_id,
                    action: PhoneCommandAction::StartMedia {
                        call_id: call.call_id,
                        endpoint,
                        dtmf_mode,
                        audio_processing,
                        traffic_class,
                    },
                },
                call_id: call.call_id,
                rollback: MediaRetargetRollback::Anchor(previous),
            },
        ),
        _ => None,
    }
}

/// The retarget of a failed call to `endpoint` under given parameters.
/// `previous` is what the controller took out of use; without it, or without a
/// traffic class, nothing is sent.
pub fn enqueue_media_retarget(
    access: &Access,
    call: &DirectMediaCall,
    endpoint: MediaEndpoint,
    dtmf_mode: DtmfMode,
    audio_processing: AudioProcessingPolicy,
    previous: Option<MediaEndpoint>,
) -> (retarget: Option<PendingMediaRetarget>)
    ensures
        retarget == anchor_retarget_spec(
            *access,
            *call,
            endpoint,
            dtmf_mode,
            audio_processing,
            previous,
        ),
{
    let traffic_class = match configured_audio_traffic_class(access, &call.device_id) {
        Some(traffic_class) => traffic_class,
        None => return None,
    };
    match previous {
        Some(previous) => Some(
            PendingMediaRetarget {
                command: PhoneCommand::new(
                    call.device_id.clone(),
                    PhoneCommandAction::StartMedia {
                        call_id: call.call_id,
                        endpoint,
                        dtmf_mode,
                        audio_processing,
                        traffic_class,
                    },
                ),
                call_id: call.call_id,
                rollback: MediaRetargetRollback::Anchor(previous),
            },
        ),
        None => None,
    }
}

/// A framing that was granted is one that the station takes: it is not empty,
/// and no longer than the maximum that the station reported for the codec.
pub proof fn law_framing_respects_station(
    access: Access,
    device: Seq<char>,
    call_id: CallId,
    codec: Codec,
)
    ensures
        access.framing_spec(device, call_id, codec) matches Ok(framing) ==> {
            &&& framing.packet_ms > 0
            &&& match access.packet_limit_spec(device, codec) {
                StationPacketLimit::Maximum(maximum) => framing.packet_ms <= maximum,
                StationPacketLimit::Pending => true,
                _ => false,
            }
        },
{
}

/// Direct media never bypasses an anchor, a conference or a barge: while one of
/// these holds a call, its media stays with the switch.
pub proof fn law_held_media_stays_anchored(access: Access, pbx_id: PbxCallId)
    ensures
        direct_media_call_spec(access, pbx_id) matches Some(direct) ==> {
            &&& !access.shared.anchored@.contains(pbx_id)
            &&& direct.pbx_id == pbx_id
            &&& lookup::first(access.shared.controller.calls@, controller::is_pbx_call(pbx_id))
                matches Some(call)
            &&& call.conference_id is None
            &&& !call.barged
        },
{
}

/// Packets are as long as the call asks for, and as configured where it asks for
/// nothing; a length of zero, one beyond what the station takes, a codec that it
/// does not have and a station that is not there are refused, and a station that
/// has not told its abilities takes any length.
pub proof fn law_packets_fit_the_station(
    access: &Access,
    device: DeviceId,
    call_id: CallId,
    codec: Codec,
    framing: Result<AudioFraming, AudioFramingError>,
    c: int,
    r: int,
    s: int,
    a: int,
)
    requires
        call_ensures(audio_framing, (access, &device, call_id, codec), framing),
        0 <= c < access.shared.controller.appearances@.len(),
        access.shared.controller.appearances@[c].sccp_id == call_id,
        forall|j: int|
            0 <= j < c ==> (#[trigger] access.shared.controller.appearances@[j]).sccp_id
                != call_id,
        0 <= r < access.shared.controller.runtime@.len(),
        access.shared.controller.runtime@[r].pbx_id
            == access.shared.controller.appearances@[c].pbx_id,
        forall|j: int|
            0 <= j < r ==> (#[trigger] access.shared.controller.runtime@[j]).pbx_id
                != access.shared.controller.appearances@[c].pbx_id,
        0 <= s <= access.shared.controller.registered@.len(),
        forall|j: int|
            0 <= j < s ==> (#[trigger] access.shared.controller.registered@[j]).id@ != device@,
        s < access.shared.controller.registered@.len()
            ==> access.shared.controller.registered@[s].id@ == device@,
        s < access.shared.controller.registered@.len() ==> (
        access.shared.controller.registered@[s].capabilities matches Some(reported) ==> {
            &&& 0 <= a <= reported.audio@.len()
            &&& forall|j: int| 0 <= j < a ==> (#[trigger] reported.audio@[j]).codec != codec
            &&& a < reported.audio@.len() ==> reported.audio@[a].codec == codec
        }),
    ensures
        ({
            let default = access.shared.config.general.audio_framing_default;
            let asked = access.shared.controller.runtime@[r].audio_packet_ms;
            let wanted = if asked is Some {
                asked->0
            } else {
                default.packet_ms
            };
            let present = s < access.shared.controller.registered@.len();
            let reported = access.shared.controller.registered@[s].capabilities;
            let limited = present && reported is Some;
            &&& framing is Ok <==> wanted != 0 && present && (reported is Some ==> a
                < reported->0.audio@.len() && wanted <= reported->0.audio@[a].max_packet_ms)
            &&& framing matches Ok(framing) ==> framing.packet_ms == wanted
                && framing.max_frames_per_packet == default.max_frames_per_packet
            &&& framing matches Err(error) ==> {
                &&& error is InvalidRequestedPacketDuration <==> wanted == 0
                &&& error is StationUnavailable <==> wanted != 0 && !present
                &&& error is UnsupportedCodec <==> wanted != 0 && limited && a
                    == reported->0.audio@.len()
                &&& error matches AudioFramingError::UnsupportedCodec { codec: lacking }
                    ==> lacking == codec
                &&& error matches AudioFramingError::PacketDurationExceedsStationMaximum {
                    requested_packet_ms,
                    maximum_packet_ms,
                } ==> requested_packet_ms == wanted && maximum_packet_ms
                    == reported->0.audio@[a].max_packet_ms && wanted > maximum_packet_ms
            }
        }),
{
    lookup::lemma_first_is(
        access.shared.controller.appearances@,
        controller::is_call(call_id),
        c,
    );
    lookup::lemma_first_is(
        access.shared.controller.runtime@,
        controller::record_of(access.shared.controller.appearances@[c].pbx_id),
        r,
    );
    let p = controller::is_station(device@);
    if s == access.shared.controller.registered@.len() {
        lookup::lemma_first_none(access.shared.controller.registered@, p);
    } else {
        lookup::lemma_first_is(access.shared.controller.registered@, p, s);
        if let Some(reported) = access.shared.controller.registered@[s].capabilities {
            let q = for_codec(codec);
            if a == reported.audio@.len() {
                lookup::lemma_first_none(reported.audio@, q);
            } else {
                lookup::lemma_first_is(reported.audio@, q, a);
            }
        }
    }
}

/// The media of a call follow the policy of the line that it is on, each setting
/// for itself; a line without a policy follows the general one.
pub proof fn law_media_follow_the_policy_of_the_line(
    access: &Access,
    device: DeviceId,
    call_id: CallId,
    mode: DtmfMode,
    processing: AudioProcessingPolicy,
    early: bool,
    c: int,
)
    requires
        call_ensures(configured_dtmf_mode, (access, &device, call_id), mode),
        call_ensures(configured_audio_processing, (access, &device, call_id), processing),
        call_ensures(configured_early_media, (access, &device, call_id), early),
        0 <= c < access.shared.controller.appearances@.len(),
        access.shared.controller.appearances@[c].sccp_id == call_id,
        forall|j: int|
            0 <= j < c ==> (#[trigger] access.shared.controller.appearances@[j]).sccp_id
                != call_id,
    ensures
        ({
            let line = access.shared.binding_spec(
                device@,
                access.shared.controller.appearances@[c].line_instance,
            );
            let governed = line is Some && line->0.media is Some;
            let media = line->0.media->0;
            &&& governed ==> mode == media.dtmf_mode && processing == media.audio_processing
                && early == media.early_media
            &&& !governed ==> mode == DtmfMode::Auto && early && processing
                == access.shared.config.general.audio_processing_default
        }),
{
    lookup::lemma_first_is(
        access.shared.controller.appearances@,
        controller::is_call(call_id),
        c,
    );
}

/// Audio and video are marked as the station is configured, each with its own mark,
/// and as in general where it is not.
pub proof fn law_media_are_marked_by_their_kind(
    access: &Access,
    device: DeviceId,
    audio: Option<MediaTrafficClass>,
    video: Option<MediaTrafficClass>,
    d: int,
)
    requires
        call_ensures(configured_audio_traffic_class, (access, &device), audio),
        call_ensures(configured_video_traffic_class, (access, &device), video),
        0 <= d <= access.shared.config.devices@.len(),
        forall|j: int|
            0 <= j < d ==> (#[trigger] access.shared.config.devices@[j]).id@ != device@,
        d < access.shared.config.devices@.len() ==> access.shared.config.devices@[d].id@
            == device@,
    ensures
        ({
            let qos = if d < access.shared.config.devices@.len() {
                access.shared.config.devices@[d].network.qos
            } else {
                access.shared.config.general.qos
            };
            &&& audio is Some <==> qos.audio.dscp < 64
            &&& video is Some <==> qos.video.dscp < 64
            &&& audio matches Some(class) ==> class.dscp == qos.audio.dscp
            &&& video matches Some(class) ==> class.dscp == qos.video.dscp
        }),
{
    let p = config::is_device(device@);
    if d == access.shared.config.devices@.len() {
        lookup::lemma_first_none(access.shared.config.devices@, p);
    } else {
        lookup::lemma_first_is(access.shared.config.devices@, p, d);
    }
}

/// An address is chosen by the settings of the station, for a guest by the general
/// ones; a station that is neither gets no policy. The context of a registered
/// station is where it is connected from and what it told.
pub proof fn law_addresses_follow_the_station<'a>(
    access: &Access,
    config: &'a ModuleConfig,
    device_id: DeviceId,
    external: ResolvedExternalAddresses,
    policy: Option<AddressSelectionPolicy<'a>>,
    context: Option<(IpAddress, Option<IpAddress>)>,
    d: int,
    s: int,
)
    requires
        call_ensures(address_selection_policy, (config, &device_id, external), policy),
        call_ensures(station_address_context, (access, &device_id), context),
        0 <= d <= config.devices@.len(),
        forall|j: int| 0 <= j < d ==> (#[trigger] config.devices@[j]).id@ != device_id@,
        d < config.devices@.len() ==> config.devices@[d].id@ == device_id@,
        0 <= s <= access.shared.controller.registered@.len(),
        forall|j: int|
            0 <= j < s ==> (#[trigger] access.shared.controller.registered@[j]).id@ != device_id@,
        s < access.shared.controller.registered@.len()
            ==> access.shared.controller.registered@[s].id@ == device_id@,
    ensures
        d < config.devices@.len() ==> policy is Some && policy->0.nat
            == config.devices@[d].network.nat,
        d == config.devices@.len() && policy is Some ==> policy->0.nat == config.general.network.nat,
        d == config.devices@.len() ==> (policy is Some <==> exists|g: int|
            0 <= g < config.guest_bindings@.len() && (#[trigger] config.guest_bindings@[g]).device_id@
                == device_id@ && config.guest_bindings@[g].line_instance == 1),
        policy matches Some(policy) ==> *policy.local_networks
            == config.general.network.local_networks && policy.advertised
            == config.general.network.advertised && policy.external == external,
        context is Some <==> s < access.shared.controller.registered@.len(),
        context matches Some((peer, told)) ==> peer
            == access.shared.controller.registered@[s].registration.peer && told
            == access.shared.controller.registered@[s].registration.reported_address,
{
    let p = config::is_device(device_id@);
    if d == config.devices@.len() {
        lookup::lemma_first_none(config.devices@, p);
    } else {
        lookup::lemma_first_is(config.devices@, p, d);
    }
    let g = config::bound_at(device_id@, 1);
    lookup::lemma_first_at(config.guest_bindings@, g, 0);
    if let Some(i) = lookup::first_at(config.guest_bindings@, g, 0) {
        assert(g(config.guest_bindings@[i]));
    } else {
        assert forall|k: int| 0 <= k < config.guest_bindings@.len() implies !((
        #[trigger] config.guest_bindings@[k]).device_id@ == device_id@
            && config.guest_bindings@[k].line_instance == 1) by {
            assert(!g(config.guest_bindings@[k]));
        }
    }
    let q = controller::is_station(device_id@);
    if s == access.shared.controller.registered@.len() {
        lookup::lemma_first_none(access.shared.controller.registered@, q);
    } else {
        lookup::lemma_first_is(access.shared.controller.registered@, q, s);
    }
}

/// The address that was chosen for a station replaces the reported one and nothing
/// else, where the station has a policy and is registered; else the endpoint stays
/// and the reason is told.
pub proof fn law_endpoints_take_the_chosen_address<'a>(
    access: &'a Access,
    device_id: DeviceId,
    audio: &mut MediaEndpoint,
    video: &mut MediaEndpointAddress,
    selected: Result<IpAddress, String>,
    external: ResolvedExternalAddresses,
    policy: Option<AddressSelectionPolicy<'a>>,
    context: Option<(IpAddress, Option<IpAddress>)>,
    outcome: Result<(), AddressError>,
    seen: Result<(), AddressError>,
    decided: bool,
    active: Option<bool>,
    mode: OutboundMediaMode,
)
    requires
        call_ensures(
            address_selection_policy,
            (&access.shared.config, &device_id, external),
            policy,
        ),
        call_ensures(station_address_context, (access, &device_id), context),
        call_ensures(
            normalize_phone_media_endpoint,
            (access, &device_id, audio, selected),
            outcome,
        ),
        call_ensures(
            normalize_phone_video_endpoint,
            (access, &device_id, video, selected),
            seen,
        ),
        call_ensures(
            station_nat_active,
            (access, &access.shared.config, &device_id, decided),
            active,
        ),
        call_ensures(outbound_media_mode, (access, &device_id, decided), mode),
    ensures
        outcome is Ok <==> policy is Some && context is Some && selected is Ok,
        seen is Ok <==> outcome is Ok,
        seen is Err ==> seen == outcome,
        outcome is Ok ==> selected == Ok::<IpAddress, String>(final(audio).address)
            && final(audio).rtp_port == old(audio).rtp_port && final(audio).rtcp_port == old(
            audio,
        ).rtcp_port && final(audio).codec == old(audio).codec && final(audio).packet_ms == old(
            audio,
        ).packet_ms && selected == Ok::<IpAddress, String>(final(video).address)
            && final(video).port == old(video).port,
        outcome is Err ==> *final(audio) == *old(audio) && *final(video) == *old(video),
        policy is None ==> outcome == Err::<(), AddressError>(AddressError::NoPolicy),
        policy is Some && context is None ==> outcome == Err::<(), AddressError>(
            AddressError::NotRegistered,
        ),
        policy is Some && context is Some ==> (selected matches Err(words) ==> outcome == Err::<
            (),
            AddressError,
        >(AddressError::Selection(words))),
        active is Some <==> policy is Some && context is Some,
        active matches Some(active) ==> active == decided,
        mode == OutboundMediaMode::Coupled <==> decided && policy is Some && context is Some,
{
}

/// An endpoint of the switch is offered under the advertised address and its own
/// port, while the channel is open and the station can be addressed. Control data
/// use the next port, where there is one.
pub proof fn law_local_endpoints_are_advertised(
    access: &Access,
    pbx_id: PbxCallId,
    device_id: DeviceId,
    codec: Codec,
    native: Option<MediaEndpointAddress>,
    advertised: Option<IpAddress>,
    mode: OutboundMediaMode,
    audio: Option<MediaEndpoint>,
    video: Option<MediaEndpointAddress>,
    accepted: bool,
    remote: Result<(), RemoteVideoError>,
)
    requires
        call_ensures(outbound_media_mode, (access, &device_id, true), mode),
        call_ensures(
            local_media_endpoint,
            (access, pbx_id, &device_id, codec, native, advertised),
            audio,
        ),
        call_ensures(
            local_video_endpoint,
            (access, pbx_id, &device_id, native, advertised),
            video,
        ),
        call_ensures(set_remote_video_endpoint, (access, pbx_id, accepted), remote),
    ensures
        ({
            let open = access.shared.live_channel_spec(pbx_id) is Some;
            &&& audio is Some <==> open && mode == OutboundMediaMode::Coupled && native is Some
                && advertised is Some
            &&& video is Some <==> audio is Some
            &&& audio matches Some(endpoint) ==> {
                &&& advertised == Some(endpoint.address)
                &&& endpoint.rtp_port == native->0.port
                &&& endpoint.codec == codec
                &&& native->0.port < 65535 ==> endpoint.rtcp_port == native->0.port + 1
                &&& native->0.port == 65535 ==> endpoint.rtcp_port == 65535
                &&& endpoint.packet_ms
                    == access.shared.config.general.audio_framing_default.packet_ms
                &&& endpoint.max_frames_per_packet
                    == access.shared.config.general.audio_framing_default.max_frames_per_packet
                &&& endpoint.telephone_event_payload == 101
            }
            &&& video matches Some(endpoint) ==> advertised == Some(endpoint.address)
                && endpoint.port == native->0.port
            &&& remote is Ok <==> open && accepted
            &&& remote == Err::<(), RemoteVideoError>(RemoteVideoError::NoChannel) <==> !open
        }),
{
}

/// Media go past the switch only for a call that is not anchored, is in no
/// conference and not barged, and is connected with audio open both ways on the
/// appearance that is active.
pub proof fn law_direct_media_need_an_open_plain_call(
    access: &Access,
    pbx_id: PbxCallId,
    direct: Option<DirectMediaCall>,
    anchored: bool,
    c: int,
    a: int,
)
    requires
        call_ensures(direct_media_call, (access, pbx_id), direct),
        call_ensures(is_anchored, (access, pbx_id), anchored),
        0 <= c < access.shared.controller.calls@.len(),
        access.shared.controller.calls@[c].pbx_id == pbx_id,
        forall|j: int|
            0 <= j < c ==> (#[trigger] access.shared.controller.calls@[j]).pbx_id != pbx_id,
        0 <= a < access.shared.controller.appearances@.len(),
        access.shared.controller.calls@[c].active_call_id matches Some(active) ==> {
            &&& access.shared.controller.appearances@[a].sccp_id == active
            &&& forall|j: int|
                0 <= j < a ==> (#[trigger] access.shared.controller.appearances@[j]).sccp_id
                    != active
        },
    ensures
        ({
            let call = access.shared.controller.calls@[c];
            let shown = access.shared.controller.appearances@[a];
            &&& anchored <==> access.shared.anchored@.contains(pbx_id)
            &&& direct is Some <==> !anchored && call.conference_id is None && !call.barged
                && call.active_call_id is Some && shown.pbx_id == pbx_id && shown.state
                == CallState::Connected && shown.audio is Open && shown.audio_transmit is Open
            &&& direct matches Some(found) ==> {
                &&& found.pbx_id == pbx_id
                &&& found.device_id == shown.device_id
                &&& call.active_call_id == Some(found.call_id)
                &&& found.line_instance == shown.line_instance
                &&& found.codec == shown.codec
                &&& shown.audio == MediaStreamState::Open(found.phone_endpoint)
                &&& shown.audio_transmit == MediaStreamState::Open(found.transmit_endpoint)
            }
        }),
{
    lookup::lemma_first_is(
        access.shared.controller.calls@,
        controller::is_pbx_call(pbx_id),
        c,
    );
    if let Some(active) = access.shared.controller.calls@[c].active_call_id {
        lookup::lemma_first_is(
            access.shared.controller.appearances@,
            controller::is_call(active),
            a,
        );
    }
}

/// Whether media may go past the switch is told by the policy of the line of the
/// call and by the network of its station.
pub proof fn law_direct_media_follow_line_and_station<'a>(
    access: &Access,
    config: &'a ModuleConfig,
    call: DirectMediaCall,
    policy: Option<DirectMediaPolicy<'a>>,
    d: int,
)
    requires
        call_ensures(direct_media_policy, (access, config, &call), policy),
        0 <= d <= config.devices@.len(),
        forall|j: int| 0 <= j < d ==> (#[trigger] config.devices@[j]).id@ != call.device_id@,
        d < config.devices@.len() ==> config.devices@[d].id@ == call.device_id@,
    ensures
        ({
            let line = access.shared.binding_spec(call.device_id@, call.line_instance);
            &&& policy is Some <==> line is Some && line->0.media is Some && d
                < config.devices@.len()
            &&& policy matches Some(policy) ==> {
                &&& policy.enabled == line->0.media->0.direct_media
                &&& policy.forced_jitter_buffer == config.general.jitter_buffer_forced
                &&& policy.nat == config.devices@[d].network.nat
                &&& *policy.local_networks == config.general.network.local_networks
            }
        }),
{
    let p = config::is_device(call.device_id@);
    if d == config.devices@.len() {
        lookup::lemma_first_none(config.devices@, p);
    } else {
        lookup::lemma_first_is(config.devices@, p, d);
    }
}

/// A transmission that failed is dealt with while the call of the station still
/// sends there: it is moved to the switch where that can be reached, and the call
/// ends otherwise. What does not concern such a call is ignored.
pub proof fn law_failed_transmissions_move_to_the_switch(
    access: &Access,
    device_id: DeviceId,
    call_id: CallId,
    failed_endpoint: MediaEndpoint,
    anchor: Option<MediaEndpoint>,
    previous: Option<MediaEndpoint>,
    queued: bool,
    restored: bool,
    failed: Option<DirectMediaCall>,
    class: Option<MediaTrafficClass>,
    mode: DtmfMode,
    processing: AudioProcessingPolicy,
    recovery: MediaRecovery,
    disposition: MediaFailureDisposition,
    c: int,
)
    requires
        call_ensures(failed_call, (access, &device_id, call_id, failed_endpoint), failed),
        call_ensures(configured_audio_traffic_class, (access, &device_id), class),
        call_ensures(configured_dtmf_mode, (access, &device_id, call_id), mode),
        call_ensures(configured_audio_processing, (access, &device_id, call_id), processing),
        call_ensures(
            recover_failed_media_transmission,
            (access, &device_id, call_id, failed_endpoint, anchor, previous),
            recovery,
        ),
        call_ensures(media_failure_disposition, (&recovery, queued, restored), disposition),
        0 <= c < access.shared.controller.appearances@.len(),
        access.shared.controller.appearances@[c].sccp_id == call_id,
        forall|j: int|
            0 <= j < c ==> (#[trigger] access.shared.controller.appearances@[j]).sccp_id
                != call_id,
    ensures
        ({
            let call = access.shared.controller.appearances@[c];
            &&& failed is Some <==> call.device_id@ == device_id@ && call.audio_transmit
                == MediaStreamState::Open(failed_endpoint) && call.state == CallState::Connected
                && call.audio is Open
            &&& recovery is Ignored <==> failed is None
            &&& recovery is Retarget <==> failed is Some && anchor is Some && previous is Some
                && class is Some
            &&& recovery matches MediaRecovery::Retarget(retarget) ==> {
                &&& retarget.call_id == call_id
                &&& retarget.rollback == MediaRetargetRollback::Anchor(previous->0)
                &&& retarget.command.device_id == call.device_id
                &&& retarget.command.action == (PhoneCommandAction::StartMedia {
                    call_id,
                    endpoint: anchor->0,
                    dtmf_mode: mode,
                    audio_processing: processing,
                    traffic_class: class->0,
                })
            }
            &&& disposition == MediaFailureDisposition::Ignored <==> failed is None
            &&& disposition == MediaFailureDisposition::Retrying <==> recovery is Retarget && (
            queued || restored)
        }),
{
    lookup::lemma_first_is(
        access.shared.controller.appearances@,
        controller::is_call(call_id),
        c,
    );
}

/// Media are moved by one command to the station of the call, to the switch or
/// straight to the other party, with the length of packets and the settings of the
/// call; what was before is kept to be restored.
pub proof fn law_media_are_moved_by_one_command(
    access: &Access,
    call: DirectMediaCall,
    anchor: Option<MediaEndpoint>,
    before: Option<MediaEndpoint>,
    previous: Option<MediaStreamState>,
    framing: Result<AudioFraming, AudioFramingError>,
    class: Option<MediaTrafficClass>,
    mode: DtmfMode,
    processing: AudioProcessingPolicy,
    anchored: Option<PendingMediaRetarget>,
    direct: Option<PendingMediaRetarget>,
)
    requires
        call_ensures(
            audio_framing,
            (access, &call.device_id, call.call_id, call.codec),
            framing,
        ),
        call_ensures(configured_audio_traffic_class, (access, &call.device_id), class),
        call_ensures(configured_dtmf_mode, (access, &call.device_id, call.call_id), mode),
        call_ensures(
            configured_audio_processing,
            (access, &call.device_id, call.call_id),
            processing,
        ),
        call_ensures(prepare_anchor_retarget, (access, &call, anchor, before), anchored),
        call_ensures(prepare_direct_retarget, (access, &call, previous), direct),
    ensures
        anchored is Some <==> anchor is Some && before is Some && framing is Ok && class is Some,
        direct is Some <==> previous is Some && framing is Ok && class is Some,
        anchored matches Some(retarget) ==> {
            &&& retarget.call_id == call.call_id
            &&& retarget.rollback == MediaRetargetRollback::Anchor(before->0)
            &&& retarget.command.device_id == call.device_id
            &&& retarget.command.action == (PhoneCommandAction::StartMedia {
                call_id: call.call_id,
                endpoint: MediaEndpoint {
                    packet_ms: framing->Ok_0.packet_ms,
                    max_frames_per_packet: framing->Ok_0.max_frames_per_packet,
                    ..anchor->0
                },
                dtmf_mode: mode,
                audio_processing: processing,
                traffic_class: class->0,
            })
        },
        direct matches Some(retarget) ==> {
            &&& retarget.call_id == call.call_id
            &&& retarget.rollback == MediaRetargetRollback::Direct(previous->0)
            &&& retarget.command.device_id == call.device_id
            &&& retarget.command.action == (PhoneCommandAction::StartMedia {
                call_id: call.call_id,
                endpoint: MediaEndpoint {
                    packet_ms: framing->Ok_0.packet_ms,
                    max_frames_per_packet: framing->Ok_0.max_frames_per_packet,
                    ..call.transmit_endpoint
                },
                dtmf_mode: mode,
                audio_processing: processing,
                traffic_class: class->0,
            })
        },
{
}

/// Media count as moved where the command was queued; where it was not, they are
/// put back, and count as moved only if that succeeded.
pub proof fn law_moves_hold_or_are_put_back(
    access: &Access,
    call: DirectMediaCall,
    anchor: Option<MediaEndpoint>,
    before: Option<MediaEndpoint>,
    previous: Option<MediaStreamState>,
    queued: bool,
    restored: Option<bool>,
    anchored: Option<PendingMediaRetarget>,
    direct: Option<PendingMediaRetarget>,
    retarget: Option<PendingMediaRetarget>,
    action: RetargetAction,
    to_anchor: bool,
    to_direct: bool,
)
    requires
        call_ensures(prepare_anchor_retarget, (access, &call, anchor, before), anchored),
        call_ensures(prepare_direct_retarget, (access, &call, previous), direct),
        call_ensures(settle_retarget, (retarget, queued), action),
        call_ensures(
            retarget_to_anchor,
            (access, &call, anchor, before, queued, restored),
            to_anchor,
        ),
        call_ensures(
            retarget_to_direct,
            (access, &call, previous, queued, restored),
            to_direct,
        ),
    ensures
        to_anchor <==> anchored is Some && (queued || restored == Some(true)),
        to_direct <==> direct is Some && (queued || restored == Some(true)),
        action is GiveUp <==> retarget is None,
        action is Confirmed <==> retarget is Some && queued,
        action matches RetargetAction::RollBack { call_id, rollback } ==> !queued && call_id
            == retarget->0.call_id && rollback == retarget->0.rollback,
{
}

/// The switch as an endpoint of a call is offered with the packets of that call.
pub proof fn law_anchors_use_the_packets_of_the_call(
    access: &Access,
    call: DirectMediaCall,
    native: Option<MediaEndpointAddress>,
    advertised: Option<IpAddress>,
    local: Option<MediaEndpoint>,
    framing: Result<AudioFraming, AudioFramingError>,
    anchor: Option<MediaEndpoint>,
)
    requires
        call_ensures(
            local_media_endpoint,
            (access, call.pbx_id, &call.device_id, call.codec, native, advertised),
            local,
        ),
        call_ensures(
            audio_framing,
            (access, &call.device_id, call.call_id, call.codec),
            framing,
        ),
        call_ensures(framed_anchor, (access, &call, native, advertised), anchor),
    ensures
        anchor is Some <==> local is Some && framing is Ok,
        anchor matches Some(anchor) ==> anchor.address == local->0.address && anchor.rtp_port
            == local->0.rtp_port && anchor.codec == local->0.codec && anchor.packet_ms
            == framing->Ok_0.packet_ms && anchor.max_frames_per_packet
            == framing->Ok_0.max_frames_per_packet,
{
}

/// An anchor that is cancelled gives its call back to the other party; where that
/// cannot be done, the call is taken down, and otherwise nothing changes.
pub proof fn law_cancelled_anchors_restore_or_end_the_call(
    access: &mut Access,
    call_id: PbxCallId,
    restore: DirectMediaCall,
    previous: Option<MediaStreamState>,
    queued: bool,
    restored: Option<bool>,
    before: Access,
    moved: bool,
    hung_up: Option<RetiredCall>,
)
    requires
        before == *old(access),
        call_ensures(
            retarget_to_direct,
            (&before, &restore, previous, queued, restored),
            moved,
        ),
        call_ensures(
            Access::restore_cancelled_anchor,
            (access, call_id, &restore, previous, queued, restored),
            hung_up,
        ),
    ensures
        hung_up is None <==> moved,
        moved ==> *final(access) == *old(access),
        hung_up matches Some(retired) ==> retired.pbx_id == call_id && retired.cancels_destination
            == old(access).shared.destinations@.contains(call_id),
{
}

/// A retarget asks the station to send the call's media where it is told, framed as
/// given, and notes what to go back to; it needs a class of traffic and something
/// to go back to.
pub proof fn law_retargets_can_be_taken_back(
    access: &Access,
    call: DirectMediaCall,
    endpoint: MediaEndpoint,
    dtmf_mode: DtmfMode,
    audio_processing: AudioProcessingPolicy,
    previous: Option<MediaEndpoint>,
    retarget: Option<PendingMediaRetarget>,
    restored: Option<bool>,
    left: bool,
)
    requires
        call_ensures(
            enqueue_media_retarget,
            (access, &call, endpoint, dtmf_mode, audio_processing, previous),
            retarget,
        ),
        retarget matches Some(pending) ==> call_ensures(
            PendingMediaRetarget::rollback,
            (pending, restored),
            left,
        ),
    ensures
        previous is None ==> retarget is None,
        retarget matches Some(pending) ==> {
            &&& pending.call_id == call.call_id
            &&& previous matches Some(former) && pending.rollback
                == MediaRetargetRollback::Anchor(former)
            &&& pending.command.device_id == call.device_id
            &&& pending.command.action matches PhoneCommandAction::StartMedia {
                call_id,
                endpoint: to,
                dtmf_mode: mode,
                audio_processing: processing,
                ..
            } && call_id == call.call_id && to == endpoint && mode == dtmf_mode && processing
                == audio_processing
            &&& left <==> restored == Some(true)
        },
{
}

/// Media is started on the station and call that are named, to the endpoint that is
/// given with the framing and the class that go with it.
pub proof fn law_media_is_started_as_framed(
    access: &Access,
    device_id: DeviceId,
    call_id: CallId,
    endpoint: MediaEndpoint,
    framing: AudioFraming,
    traffic_class: MediaTrafficClass,
    command: PhoneCommand,
    mode: DtmfMode,
    policy: AudioProcessingPolicy,
)
    requires
        call_ensures(
            start_media_command,
            (access, device_id, call_id, endpoint, framing, traffic_class),
            command,
        ),
        call_ensures(configured_dtmf_mode, (access, &device_id, call_id), mode),
        call_ensures(configured_audio_processing, (access, &device_id, call_id), policy),
    ensures
        command.device_id == device_id,
        command.action matches PhoneCommandAction::StartMedia {
            call_id: on,
            endpoint: to,
            dtmf_mode,
            audio_processing,
            traffic_class: class,
        } && on == call_id && to.packet_ms == framing.packet_ms && to.max_frames_per_packet
            == framing.max_frames_per_packet && to.codec == endpoint.codec && to.address
            == endpoint.address && class == traffic_class && dtmf_mode == mode && audio_processing
            == policy,
{
}

/// What a station can do with a codec is the first that it reported for it.
pub proof fn law_capabilities_are_found_by_codec(
    capabilities: StationMediaCapabilities,
    codec: Codec,
    found: Option<MediaCapability>,
    i: int,
)
    requires
        call_ensures(audio_capability, (&capabilities, codec), found),
        0 <= i <= capabilities.audio@.len(),
        forall|j: int| 0 <= j < i ==> (#[trigger] capabilities.audio@[j]).codec != codec,
        i < capabilities.audio@.len() ==> capabilities.audio@[i].codec == codec,
    ensures
        found is Some <==> i < capabilities.audio@.len(),
        found matches Some(able) ==> able == capabilities.audio@[i],
{
    if i == capabilities.audio@.len() {
        lookup::lemma_first_none(capabilities.audio@, for_codec(codec));
    } else {
        lookup::lemma_first_is(capabilities.audio@, for_codec(codec), i);
    }
}

} // verus!
