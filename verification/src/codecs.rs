//! Which codec a call uses: configured order, what the station reported and
//! what the switch can translate.

use vstd::prelude::*;

use crate::access::{Access, Shared};
use crate::commands::IpAddressType;
use crate::config;
use crate::controller;
use crate::ids::{DeviceId, SessionGeneration};
use crate::lookup;
use crate::media_events::VideoFallbackReason;
use crate::model::{
    Codec, IpAddress, MediaCapability, MediaEndpointAddress, PbxAudioFormat, RegisteredDevice,
    StationMediaCapabilities, VideoMode,
};

verus! {

/// The codecs that every station can be expected to know.
pub open spec fn is_g711() -> spec_fn(Codec) -> bool {
    |codec: Codec| codec == Codec::Pcma || codec == Codec::Pcmu
}

/// The entry is this codec.
pub open spec fn is_codec(codec: Codec) -> spec_fn(Codec) -> bool {
    |entry: Codec| entry == codec
}

/// The station has reported audio capabilities.
pub open spec fn reports_audio(capabilities: Option<StationMediaCapabilities>) -> bool {
    match capabilities {
        Some(capabilities) => capabilities.audio@.len() > 0,
        None => false,
    }
}

/// The configured codecs that may be used before a station has reported any.
pub open spec fn constrained(
    codecs: Seq<Codec>,
    capabilities: Option<StationMediaCapabilities>,
) -> Seq<Codec> {
    if reports_audio(capabilities) {
        codecs
    } else {
        codecs.filter(is_g711())
    }
}

/// Leaves only what every station knows, unless the station has reported.
pub fn constrain_unreported_audio_codecs(
    codecs: &mut Vec<Codec>,
    capabilities: Option<&StationMediaCapabilities>,
)
    ensures
        final(codecs)@ == constrained(old(codecs)@, lookup::target(capabilities)),
{
    let reported = match capabilities {
        Some(capabilities) => capabilities.audio.len() > 0,
        None => false,
    };
    if reported {
        return;
    }
    let ghost before = codecs@;
    let mut kept: Vec<Codec> = Vec::new();
    let mut i: usize = 0;
    while i < codecs.len()
        invariant
            codecs@ == before,
            0 <= i <= codecs@.len(),
            kept@ == before.take(i as int).filter(is_g711()),
        decreases codecs@.len() - i,
    {
        let codec = codecs[i];
        if codec == Codec::Pcma || codec == Codec::Pcmu {
            kept.push(codec);
        }
        proof {
            lookup::lemma_filter_step(before, is_g711(), i as int);
        }
        i += 1;
    }
    proof {
        assert(before.take(i as int) =~= before);
    }
    *codecs = kept;
}

/// The candidate, where the policy ranks it before the codec in use.
pub open spec fn upgrade_spec(configured: Seq<Codec>, current: Codec, candidate: Codec) -> Option<
    Codec,
> {
    match (
        lookup::first_at(configured, is_codec(current), 0),
        lookup::first_at(configured, is_codec(candidate), 0),
    ) {
        (Some(rank), Some(candidate_rank)) => if candidate_rank < rank {
            Some(candidate)
        } else {
            None
        },
        _ => None,
    }
}

fn codec_rank(configured: &[Codec], codec: Codec) -> (rank: Option<usize>)
    ensures
        match rank {
            Some(rank) => lookup::first_at(configured@, is_codec(codec), 0) == Some(rank as int),
            None => lookup::first_at(configured@, is_codec(codec), 0) is None,
        },
{
    let ghost p = is_codec(codec);
    let mut i: usize = 0;
    while i < configured.len()
        invariant
            p == is_codec(codec),
            0 <= i <= configured@.len(),
            lookup::first_at(configured@, p, 0) == lookup::first_at(configured@, p, i as int),
        decreases configured@.len() - i,
    {
        if configured[i] == codec {
            return Some(i);
        }
        i += 1;
    }
    None
}

/// A codec only ever changes towards the front of the policy.
pub fn codec_upgrade(configured: &[Codec], current: Codec, candidate: Codec) -> (upgrade: Option<
    Codec,
>)
    ensures
        upgrade == upgrade_spec(configured@, current, candidate),
{
    match (codec_rank(configured, current), codec_rank(configured, candidate)) {
        (Some(rank), Some(candidate_rank)) => if candidate_rank < rank {
            Some(candidate)
        } else {
            None
        },
        _ => None,
    }
}

impl Shared {
    /// What a registered station has reported.
    pub open spec fn capabilities_spec(self, device: Seq<char>) -> Option<
        StationMediaCapabilities,
    > {
        match lookup::first(self.controller.registered@, controller::is_station(device)) {
            Some(station) => station.capabilities,
            None => None,
        }
    }

    /// The codecs of a line in the order of preference: those of its media
    /// policy, else the general ones where a guest may use the line.
    pub open spec fn configured_codecs_spec(self, device: Seq<char>, instance: u32) -> Option<
        Seq<Codec>,
    > {
        match self.binding_spec(device, instance) {
            None => None,
            Some(binding) => match binding.media {
                Some(media) => Some(media.codecs@),
                None => if lookup::first(
                    self.config.guest_bindings@,
                    config::bound_at(device, instance),
                ) is Some {
                    Some(self.config.general.codecs@)
                } else {
                    None
                },
            },
        }
    }

    /// The codecs that may be negotiated for a line.
    pub open spec fn codec_policy_spec(self, device: Seq<char>, instance: u32) -> Option<
        Seq<Codec>,
    > {
        match self.configured_codecs_spec(device, instance) {
            Some(codecs) => Some(constrained(codecs, self.capabilities_spec(device))),
            None => None,
        }
    }

    /// The audio capabilities that take part in a negotiation: none where the
    /// station has not reported any.
    pub open spec fn station_audio_spec(self, device: Seq<char>) -> Option<Seq<MediaCapability>> {
        let capabilities = self.capabilities_spec(device);
        if reports_audio(capabilities) {
            Some(capabilities->0.audio@)
        } else {
            None
        }
    }
}

fn copied_codecs(codecs: &Vec<Codec>) -> (copy: Vec<Codec>)
    ensures
        copy@ == codecs@,
{
    let mut copy: Vec<Codec> = Vec::new();
    let mut i: usize = 0;
    while i < codecs.len()
        invariant
            0 <= i <= codecs@.len(),
            copy@ == codecs@.take(i as int),
        decreases codecs@.len() - i,
    {
        copy.push(codecs[i]);
        proof {
            assert(codecs@.take(i + 1) =~= codecs@.take(i as int).push(codecs@[i as int]));
        }
        i += 1;
    }
    proof {
        assert(codecs@.take(i as int) =~= codecs@);
    }
    copy
}

fn reported_capabilities<'a>(access: &'a Access, device: &DeviceId) -> (capabilities: Option<
    &'a StationMediaCapabilities,
>)
    ensures
        lookup::target(capabilities) == access.shared.capabilities_spec(device@),
{
    match access.shared.controller.registered_device(device) {
        Some(station) => match &station.capabilities {
            Some(capabilities) => Some(capabilities),
            None => None,
        },
        None => None,
    }
}

/// The codecs that may be negotiated for a line, with what the station
/// reported.
pub fn codec_policy<'a>(access: &'a Access, device: &DeviceId, line_instance: u32) -> (policy:
    Option<(Vec<Codec>, Option<&'a StationMediaCapabilities>)>)
    ensures
        match policy {
            Some((codecs, capabilities)) => {
                &&& access.shared.codec_policy_spec(device@, line_instance) == Some(codecs@)
                &&& lookup::target(capabilities) == access.shared.capabilities_spec(device@)
            },
            None => access.shared.codec_policy_spec(device@, line_instance) is None,
        },
{
    let capabilities = reported_capabilities(access, device);
    let binding = match access.line_binding(device, line_instance) {
        Some(binding) => binding,
        None => return None,
    };
    let mut codecs = match &binding.media {
        Some(media) => copied_codecs(&media.codecs),
        None => match access.shared.config.guest_hotline_binding(device, line_instance) {
            Some(_) => copied_codecs(&access.shared.config.general.codecs),
            None => return None,
        },
    };
    constrain_unreported_audio_codecs(&mut codecs, capabilities);
    Some((codecs, capabilities))
}

/// What a negotiation of audio starts from.
#[derive(Debug, PartialEq, Eq)]
pub struct AudioNegotiation<'a> {
    pub configured: Vec<Codec>,
    pub station: Option<&'a Vec<MediaCapability>>,
}

/// The codecs and capabilities that are compared for a line.
pub fn audio_negotiation<'a>(access: &'a Access, device: &DeviceId, line_instance: u32) -> (inputs:
    Option<AudioNegotiation<'a>>)
    ensures
        match inputs {
            Some(inputs) => {
                &&& access.shared.codec_policy_spec(device@, line_instance) == Some(
                    inputs.configured@,
                )
                &&& match inputs.station {
                    Some(station) => access.shared.station_audio_spec(device@) == Some(station@),
                    None => access.shared.station_audio_spec(device@) is None,
                }
            },
            None => access.shared.codec_policy_spec(device@, line_instance) is None,
        },
{
    match codec_policy(access, device, line_instance) {
        Some((configured, capabilities)) => {
            let station = match capabilities {
                Some(capabilities) => if capabilities.audio.len() > 0 {
                    Some(&capabilities.audio)
                } else {
                    None
                },
                None => None,
            };
            Some(AudioNegotiation { configured, station })
        },
        None => None,
    }
}

/// The codec of a new call, where `negotiated` is what the negotiation over the
/// line's inputs found.
pub fn preferred_codec(
    access: &Access,
    device: &DeviceId,
    line_instance: u32,
    negotiated: Option<Codec>,
) -> (codec: Option<Codec>)
    ensures
        codec == if access.shared.codec_policy_spec(device@, line_instance) is Some {
            negotiated
        } else {
            None
        },
{
    match codec_policy(access, device, line_instance) {
        Some(_) => negotiated,
        None => None,
    }
}

/// A better codec for a call that already uses `current`.
pub fn preferred_codec_upgrade(
    access: &Access,
    device: &DeviceId,
    line_instance: u32,
    current: Codec,
    negotiated: Option<Codec>,
) -> (codec: Option<Codec>)
    ensures
        codec == match (access.shared.codec_policy_spec(device@, line_instance), negotiated) {
            (Some(codecs), Some(candidate)) => upgrade_spec(codecs, current, candidate),
            _ => None,
        },
{
    let codecs = match codec_policy(access, device, line_instance) {
        Some((codecs, _)) => codecs,
        None => return None,
    };
    match negotiated {
        Some(candidate) => codec_upgrade(codecs.as_slice(), current, candidate),
        None => None,
    }
}

/// Which format of the switch carries a codec.
#[derive(Clone, Copy, Debug, PartialEq, Eq, Structural)]
pub struct AudioFormat {
    pub codec: Codec,
    pub format: PbxAudioFormat,
}

/// The entry carries this codec.
pub open spec fn carries(codec: Codec) -> spec_fn(AudioFormat) -> bool {
    |entry: AudioFormat| entry.codec == codec
}

/// The entry is of this format.
pub open spec fn is_format(format: PbxAudioFormat) -> spec_fn(AudioFormat) -> bool {
    |entry: AudioFormat| entry.format == format
}

/// The codec of a reported capability.
pub open spec fn capability_codec() -> spec_fn(MediaCapability) -> Codec {
    |capability: MediaCapability| capability.codec
}

/// The capability covers the codec with packets of at least `packet_ms`.
pub open spec fn covers(codec: Codec, packet_ms: u32) -> spec_fn(MediaCapability) -> bool {
    |capability: MediaCapability|
        capability.codec == codec && capability.max_packet_ms >= packet_ms
}

/// The codec is in the policy.
pub open spec fn is_configured(codecs: Seq<Codec>) -> spec_fn(Codec) -> bool {
    |codec: Codec| codecs.contains(codec)
}

/// The codecs that are tried for an inbound call: in the order of the station
/// where it has reported, else in the configured one.
pub open spec fn inbound_order(codecs: Seq<Codec>, station: Option<Seq<MediaCapability>>) -> Seq<
    Codec,
> {
    match station {
        Some(capabilities) => lookup::distinct(
            capabilities.map_values(capability_codec()).filter(is_configured(codecs)),
        ),
        None => codecs,
    }
}

/// The codec together with its format, where the switch has one and the
/// station takes packets of the usual length.
pub open spec fn inbound_candidate(
    station: Option<Seq<MediaCapability>>,
    packet_ms: u32,
    formats: Seq<AudioFormat>,
) -> spec_fn(Codec) -> Option<AudioFormat> {
    |codec: Codec|
        {
            let supported = match station {
                Some(capabilities) => lookup::some(capabilities, covers(codec, packet_ms)),
                None => true,
            };
            if supported {
                lookup::first(formats, carries(codec))
            } else {
                None
            }
        }
}

impl Shared {
    /// Codecs and formats that an inbound call on a line may use.
    pub open spec fn inbound_candidates_spec(
        self,
        device: Seq<char>,
        instance: u32,
        formats: Seq<AudioFormat>,
    ) -> Seq<AudioFormat> {
        match self.codec_policy_spec(device, instance) {
            Some(codecs) => {
                let station = self.station_audio_spec(device);
                inbound_order(codecs, station).filter_map(
                    inbound_candidate(
                        station,
                        self.config.general.audio_framing_default.packet_ms,
                        formats,
                    ),
                )
            },
            None => Seq::empty(),
        }
    }
}

fn codec_listed(codecs: &Vec<Codec>, codec: Codec) -> (listed: bool)
    ensures
        listed == codecs@.contains(codec),
{
    let mut i: usize = 0;
    while i < codecs.len()
        invariant
            0 <= i <= codecs@.len(),
            forall|j: int| 0 <= j < i ==> codecs@[j] != codec,
        decreases codecs@.len() - i,
    {
        if codecs[i] == codec {
            return true;
        }
        i += 1;
    }
    false
}

fn ordered_by_station(capabilities: &Vec<MediaCapability>, codecs: &Vec<Codec>) -> (ordered: Vec<
    Codec,
>)
    ensures
        ordered@ == inbound_order(codecs@, Some(capabilities@)),
{
    let ghost named = capabilities@.map_values(capability_codec());
    let ghost kept = is_configured(codecs@);
    let mut shared: Vec<Codec> = Vec::new();
    let mut i: usize = 0;
    while i < capabilities.len()
        invariant
            named == capabilities@.map_values(capability_codec()),
            kept == is_configured(codecs@),
            0 <= i <= capabilities@.len(),
            shared@ == named.take(i as int).filter(kept),
        decreases capabilities@.len() - i,
    {
        let codec = capabilities[i].codec;
        if codec_listed(codecs, codec) {
            shared.push(codec);
        }
        proof {
            lookup::lemma_filter_step(named, kept, i as int);
        }
        i += 1;
    }
    proof {
        assert(named.take(i as int) =~= named);
    }
    let mut ordered: Vec<Codec> = Vec::new();
    let mut j: usize = 0;
    while j < shared.len()
        invariant
            0 <= j <= shared@.len(),
            ordered@ == lookup::distinct(shared@.take(j as int)),
        decreases shared@.len() - j,
    {
        let codec = shared[j];
        if !codec_listed(&ordered, codec) {
            ordered.push(codec);
        }
        proof {
            lookup::lemma_distinct_step(shared@, j as int);
        }
        j += 1;
    }
    proof {
        assert(shared@.take(j as int) =~= shared@);
    }
    ordered
}

fn station_covers(capabilities: &Vec<MediaCapability>, codec: Codec, packet_ms: u32) -> (covered:
    bool)
    ensures
        covered == lookup::some(capabilities@, covers(codec, packet_ms)),
{
    let mut i: usize = 0;
    while i < capabilities.len()
        invariant
            0 <= i <= capabilities@.len(),
            forall|j: int| 0 <= j < i ==> !covers(codec, packet_ms)(#[trigger] capabilities@[j]),
        decreases capabilities@.len() - i,
    {
        if capabilities[i].codec == codec && capabilities[i].max_packet_ms >= packet_ms {
            assert(covers(codec, packet_ms)(capabilities@[i as int]));
            return true;
        }
        i += 1;
    }
    false
}

fn format_of(formats: &[AudioFormat], codec: Codec) -> (found: Option<AudioFormat>)
    ensures
        found == lookup::first(formats@, carries(codec)),
{
    let ghost p = carries(codec);
    let mut i: usize = 0;
    while i < formats.len()
        invariant
            p == carries(codec),
            0 <= i <= formats@.len(),
            lookup::first_at(formats@, p, 0) == lookup::first_at(formats@, p, i as int),
        decreases formats@.len() - i,
    {
        if formats[i].codec == codec {
            return Some(formats[i]);
        }
        i += 1;
    }
    None
}

/// Codecs that an inbound call on a line may use, best first. `formats` says
/// which format of the switch carries a codec.
pub fn inbound_candidates(
    access: &Access,
    device: &DeviceId,
    line_instance: u32,
    formats: &[AudioFormat],
) -> (candidates: Vec<AudioFormat>)
    ensures
        candidates@ == access.shared.inbound_candidates_spec(device@, line_instance, formats@),
{
    let mut candidates: Vec<AudioFormat> = Vec::new();
    let inputs = match audio_negotiation(access, device, line_instance) {
        Some(inputs) => inputs,
        None => return candidates,
    };
    let packet_ms: u32 = access.shared.config.general.audio_framing_default.packet_ms;
    let ghost station = access.shared.station_audio_spec(device@);
    let ordered = match inputs.station {
        Some(capabilities) => ordered_by_station(capabilities, &inputs.configured),
        None => inputs.configured,
    };
    let ghost f = inbound_candidate(station, packet_ms, formats@);
    let mut i: usize = 0;
    while i < ordered.len()
        invariant
            0 <= i <= ordered@.len(),
            f == inbound_candidate(station, packet_ms, formats@),
            match inputs.station {
                Some(capabilities) => station == Some(capabilities@),
                None => station is None,
            },
            candidates@ == ordered@.take(i as int).filter_map(f),
        decreases ordered@.len() - i,
    {
        let codec = ordered[i];
        let supported = match inputs.station {
            Some(capabilities) => station_covers(capabilities, codec, packet_ms),
            None => true,
        };
        if supported {
            match format_of(formats, codec) {
                Some(candidate) => candidates.push(candidate),
                None => {},
            }
        }
        proof {
            lookup::lemma_filter_map_step(ordered@, f, i as int);
        }
        i += 1;
    }
    proof {
        assert(ordered@.take(i as int) =~= ordered@);
        assert(Seq::<Codec>::empty().filter_map(f) =~= Seq::<AudioFormat>::empty()) by {
            reveal(Seq::filter_map);
        }
    }
    candidates
}

/// The format of an entry.
pub open spec fn format_part() -> spec_fn(AudioFormat) -> PbxAudioFormat {
    |entry: AudioFormat| entry.format
}

/// The formats that the switch is asked to translate to, each once.
pub fn inbound_destinations(candidates: &Vec<AudioFormat>) -> (formats: Vec<PbxAudioFormat>)
    ensures
        formats@ == lookup::distinct(candidates@.map_values(format_part())),
{
    let ghost all = candidates@.map_values(format_part());
    let mut formats: Vec<PbxAudioFormat> = Vec::new();
    let mut i: usize = 0;
    while i < candidates.len()
        invariant
            all == candidates@.map_values(format_part()),
            0 <= i <= candidates@.len(),
            formats@ == lookup::distinct(all.take(i as int)),
        decreases candidates@.len() - i,
    {
        let format = candidates[i].format;
        let mut listed = false;
        let mut j: usize = 0;
        while j < formats.len()
            invariant
                0 <= j <= formats@.len(),
                listed == exists|k: int| 0 <= k < j && formats@[k] == format,
            decreases formats@.len() - j,
        {
            if formats[j] == format {
                listed = true;
            }
            j += 1;
        }
        proof {
            assert(listed == formats@.contains(format));
            lookup::lemma_distinct_step(all, i as int);
        }
        if !listed {
            formats.push(format);
        }
        i += 1;
    }
    proof {
        assert(all.take(i as int) =~= all);
    }
    formats
}

/// The codec of an inbound call: the first candidate in the format that the
/// switch translates to best.
pub fn preferred_inbound_codec(candidates: &Vec<AudioFormat>, translated: Option<PbxAudioFormat>) ->
    (codec: Option<Codec>)
    ensures
        codec == match translated {
            Some(format) => match lookup::first(candidates@, is_format(format)) {
                Some(candidate) => Some(candidate.codec),
                None => None,
            },
            None => None,
        },
{
    let format = match translated {
        Some(format) => format,
        None => return None,
    };
    let ghost p = is_format(format);
    let mut i: usize = 0;
    while i < candidates.len()
        invariant
            translated == Some(format),
            p == is_format(format),
            0 <= i <= candidates@.len(),
            lookup::first_at(candidates@, p, 0) == lookup::first_at(candidates@, p, i as int),
        decreases candidates@.len() - i,
    {
        if candidates[i].format == format {
            return Some(candidates[i].codec);
        }
        i += 1;
    }
    None
}

/// A video format of the switch, with the payload number that stands for it.
#[derive(Clone, Copy, Debug, PartialEq, Eq, Structural)]
pub struct PbxVideoFormat {
    pub codec: Codec,
    pub payload_type: Option<u8>,
}

/// The format can be named in a stream.
pub open spec fn is_representable() -> spec_fn(PbxVideoFormat) -> bool {
    |format: PbxVideoFormat| format.payload_type is Some
}

/// What a negotiation of video found.
#[derive(Clone, Copy, Debug, PartialEq, Eq, Structural)]
pub struct NegotiatedVideo {
    pub format: PbxVideoFormat,
    /// The stream's parameters as the station reads them, where it can.
    pub payload: Option<u32>,
    /// Addresses that the station takes video on.
    pub address_type: Option<IpAddressType>,
}

#[derive(Clone, Copy, Debug, PartialEq, Eq, Structural)]
pub struct SelectedVideo {
    pub session_generation: SessionGeneration,
    pub protocol: u32,
    pub mode: VideoMode,
    pub address_type: Option<IpAddressType>,
    pub format: PbxVideoFormat,
    pub payload_type: u8,
    pub payload: u32,
}

/// Whether a call has video.
#[derive(Clone, Copy, Debug, PartialEq, Eq, Structural)]
pub enum VideoSelection {
    Disabled,
    AudioOnly { session_generation: SessionGeneration, reason: VideoFallbackReason },
    Ready(SelectedVideo),
}

impl VideoSelection {
    pub fn ready(&self) -> (selected: Option<SelectedVideo>)
        ensures
            selected == match *self {
                VideoSelection::Ready(selected) => Some(selected),
                _ => None,
            },
    {
        match self {
            VideoSelection::Ready(selected) => Some(*selected),
            _ => None,
        }
    }
}

/// The policy of a line asks for video.
pub open spec fn video_mode_spec(shared: Shared, device: Seq<char>, instance: u32) -> Option<
    VideoMode,
> {
    match shared.binding_spec(device, instance) {
        Some(binding) => match binding.media {
            Some(media) => if media.video_mode == VideoMode::Off {
                None
            } else {
                Some(media.video_mode)
            },
            None => None,
        },
        None => None,
    }
}

/// What comes of the negotiation for a registered station.
pub open spec fn negotiated_selection(
    mode: VideoMode,
    station: RegisteredDevice,
    negotiated: Option<NegotiatedVideo>,
) -> VideoSelection {
    let session_generation = station.session_generation;
    if station.capabilities is None {
        VideoSelection::AudioOnly { session_generation, reason: VideoFallbackReason::NotNegotiated }
    } else {
        match negotiated {
            None => VideoSelection::AudioOnly {
                session_generation,
                reason: VideoFallbackReason::NotNegotiated,
            },
            Some(video) => match (video.format.payload_type, video.payload) {
                (Some(payload_type), Some(payload)) => VideoSelection::Ready(
                    SelectedVideo {
                        session_generation,
                        protocol: station.registration.protocol,
                        mode,
                        address_type: video.address_type,
                        format: video.format,
                        payload_type,
                        payload,
                    },
                ),
                _ => VideoSelection::AudioOnly {
                    session_generation,
                    reason: VideoFallbackReason::DescriptorUnavailable,
                },
            },
        }
    }
}

pub open spec fn preferred_video_spec(
    shared: Shared,
    device: Seq<char>,
    instance: u32,
    negotiated: Option<NegotiatedVideo>,
) -> VideoSelection {
    match (
        video_mode_spec(shared, device, instance),
        lookup::first(shared.controller.registered@, controller::is_station(device)),
    ) {
        (Some(mode), Some(station)) => negotiated_selection(mode, station, negotiated),
        _ => VideoSelection::Disabled,
    }
}

/// The formats that a negotiation may offer.
pub fn representable_formats(formats: &[PbxVideoFormat]) -> (kept: Vec<PbxVideoFormat>)
    ensures
        kept@ == formats@.filter(is_representable()),
{
    let mut kept: Vec<PbxVideoFormat> = Vec::new();
    let mut i: usize = 0;
    while i < formats.len()
        invariant
            0 <= i <= formats@.len(),
            kept@ == formats@.take(i as int).filter(is_representable()),
        decreases formats@.len() - i,
    {
        let format = formats[i];
        if format.payload_type.is_some() {
            kept.push(format);
        }
        proof {
            lookup::lemma_filter_step(formats@, is_representable(), i as int);
        }
        i += 1;
    }
    proof {
        assert(formats@.take(i as int) =~= formats@);
    }
    kept
}

/// Decides whether a call on a line has video, where `negotiated` is what the
/// policy, the station and the switch have in common.
pub fn preferred_video(
    access: &Access,
    device: &DeviceId,
    line_instance: u32,
    negotiated: Option<NegotiatedVideo>,
) -> (selection: VideoSelection)
    ensures
        selection == preferred_video_spec(access.shared, device@, line_instance, negotiated),
{
    let media = match access.line_binding(device, line_instance) {
        Some(binding) => match &binding.media {
            Some(media) => media,
            None => return VideoSelection::Disabled,
        },
        None => return VideoSelection::Disabled,
    };
    if media.video_mode == VideoMode::Off {
        return VideoSelection::Disabled;
    }
    let station = match access.shared.controller.registered_device(device) {
        Some(station) => station,
        None => return VideoSelection::Disabled,
    };
    let session_generation = station.session_generation;
    if station.capabilities.is_none() {
        return VideoSelection::AudioOnly {
            session_generation,
            reason: VideoFallbackReason::NotNegotiated,
        };
    }
    match negotiated {
        None => VideoSelection::AudioOnly {
            session_generation,
            reason: VideoFallbackReason::NotNegotiated,
        },
        Some(video) => match (video.format.payload_type, video.payload) {
            (Some(payload_type), Some(payload)) => VideoSelection::Ready(
                SelectedVideo {
                    session_generation,
                    protocol: station.registration.protocol,
                    mode: media.video_mode,
                    address_type: video.address_type,
                    format: video.format,
                    payload_type,
                    payload,
                },
            ),
            _ => VideoSelection::AudioOnly {
                session_generation,
                reason: VideoFallbackReason::DescriptorUnavailable,
            },
        },
    }
}

/// The first protocol version whose video messages have room for the longer
/// addresses.
pub const IPV6_VIDEO_PROTOCOL: u32 = 17;

pub open spec fn video_endpoint_supported_spec(
    selected: SelectedVideo,
    endpoint: MediaEndpointAddress,
) -> bool {
    let long = endpoint.address is V6;
    &&& long ==> selected.protocol >= IPV6_VIDEO_PROTOCOL
    &&& match selected.address_type {
        None | Some(IpAddressType::Ipv4) => !long,
        Some(IpAddressType::Ipv6) => long,
        Some(IpAddressType::Ipv4AndIpv6) => true,
        Some(IpAddressType::Invalid) | Some(IpAddressType::Unknown(_)) => false,
    }
}

/// Whether the station can be told to send video to `endpoint`.
pub fn video_endpoint_is_supported(selected: &SelectedVideo, endpoint: MediaEndpointAddress) ->
    (supported: bool)
    ensures
        supported == video_endpoint_supported_spec(*selected, endpoint),
{
    let long = match endpoint.address {
        IpAddress::V4(_) => false,
        IpAddress::V6(_) => true,
    };
    if selected.protocol < IPV6_VIDEO_PROTOCOL && long {
        return false;
    }
    match selected.address_type {
        None | Some(IpAddressType::Ipv4) => !long,
        Some(IpAddressType::Ipv6) => long,
        Some(IpAddressType::Ipv4AndIpv6) => true,
        Some(IpAddressType::Invalid) | Some(IpAddressType::Unknown(_)) => false,
    }
}

/// An upgrade is in the policy, strictly before the codec that it replaces, and
/// an upgraded call is not sent back.
pub proof fn law_upgrades_only_improve(configured: Seq<Codec>, current: Codec, candidate: Codec)
    ensures
        upgrade_spec(configured, current, candidate) matches Some(codec) ==> {
            &&& codec == candidate
            &&& codec != current
            &&& configured.contains(codec)
            &&& upgrade_spec(configured, codec, current) is None
        },
{
    lookup::lemma_first_at(configured, is_codec(current), 0);
    lookup::lemma_first_at(configured, is_codec(candidate), 0);
}

/// A station that has not reported is offered nothing but codecs that every
/// station knows.
pub proof fn law_unreported_stations_get_g711(
    shared: Shared,
    device: Seq<char>,
    instance: u32,
    i: int,
)
    requires
        shared.codec_policy_spec(device, instance) is Some,
        !reports_audio(shared.capabilities_spec(device)),
        0 <= i < shared.codec_policy_spec(device, instance)->0.len(),
    ensures
        is_g711()(shared.codec_policy_spec(device, instance)->0[i]),
{
    lookup::lemma_filter_member(
        shared.configured_codecs_spec(device, instance)->0,
        is_g711(),
        i,
    );
}

/// An inbound call never gets a codec that the policy of its line leaves out.
pub proof fn law_inbound_codecs_are_configured(
    codecs: Seq<Codec>,
    station: Option<Seq<MediaCapability>>,
    codec: Codec,
)
    requires
        inbound_order(codecs, station).contains(codec),
    ensures
        codecs.contains(codec),
{
    match station {
        Some(capabilities) => {
            let named = capabilities.map_values(capability_codec());
            let kept = named.filter(is_configured(codecs));
            lookup::lemma_distinct(kept);
            assert(kept.contains(codec));
            let i = choose|i: int| 0 <= i < kept.len() && kept[i] == codec;
            lookup::lemma_filter_member(named, is_configured(codecs), i);
        },
        None => {},
    }
}

/// Until a station tells its audio abilities only the two codecs that every station
/// has are used; after that all that are configured, in their order.
pub proof fn law_silent_stations_get_the_common_codecs(
    codecs: &mut Vec<Codec>,
    capabilities: Option<&StationMediaCapabilities>,
    codec: Codec,
)
    requires
        call_ensures(constrain_unreported_audio_codecs, (codecs, capabilities), ()),
    ensures
        capabilities is Some && capabilities->0.audio@.len() > 0 ==> final(codecs)@ == old(codecs)@,
        !(capabilities is Some && capabilities->0.audio@.len() > 0) ==> (final(codecs)@.contains(
            codec,
        ) <==> old(codecs)@.contains(codec) && (codec == Codec::Pcma || codec == Codec::Pcmu)),
{
    lookup::lemma_filter_holds(old(codecs)@, is_g711(), codec);
}

/// A codec is an upgrade exactly if it stands before the present one in the
/// configured order.
pub proof fn law_upgrades_stand_before_the_present_codec(
    configured: &[Codec],
    current: Codec,
    candidate: Codec,
    upgrade: Option<Codec>,
    i: int,
    k: int,
)
    requires
        call_ensures(codec_upgrade, (configured, current, candidate), upgrade),
        0 <= i <= configured@.len(),
        forall|j: int| 0 <= j < i ==> (#[trigger] configured@[j]) != current,
        i < configured@.len() ==> configured@[i] == current,
        0 <= k <= configured@.len(),
        forall|j: int| 0 <= j < k ==> (#[trigger] configured@[j]) != candidate,
        k < configured@.len() ==> configured@[k] == candidate,
    ensures
        upgrade is Some <==> k < i && i < configured@.len(),
        upgrade matches Some(codec) ==> codec == candidate,
{
    let p = is_codec(current);
    let q = is_codec(candidate);
    if i == configured@.len() {
        lookup::lemma_first_none(configured@, p);
    } else {
        lookup::lemma_first_is(configured@, p, i);
    }
    if k == configured@.len() {
        lookup::lemma_first_none(configured@, q);
    } else {
        lookup::lemma_first_is(configured@, q, k);
    }
}

/// The codecs of a call are those of its line; guests without any get the general
/// ones, and other lines without any none. They are negotiated with what the
/// station told, and a codec is chosen or upgraded only where there is such a list.
pub proof fn law_codecs_come_from_the_line<'a>(
    access: &'a Access,
    device: DeviceId,
    line_instance: u32,
    current: Codec,
    negotiated: Option<Codec>,
    policy: Option<(Vec<Codec>, Option<&'a StationMediaCapabilities>)>,
    inputs: Option<AudioNegotiation<'a>>,
    chosen: Option<Codec>,
    upgraded: Option<Codec>,
    codec: Codec,
    s: int,
)
    requires
        call_ensures(codec_policy, (access, &device, line_instance), policy),
        call_ensures(audio_negotiation, (access, &device, line_instance), inputs),
        call_ensures(preferred_codec, (access, &device, line_instance, negotiated), chosen),
        call_ensures(
            preferred_codec_upgrade,
            (access, &device, line_instance, current, negotiated),
            upgraded,
        ),
        0 <= s < access.shared.controller.registered@.len(),
        access.shared.controller.registered@[s].id@ == device@,
        forall|j: int|
            0 <= j < s ==> (#[trigger] access.shared.controller.registered@[j]).id@ != device@,
    ensures
        ({
            let line = access.shared.binding_spec(device@, line_instance);
            let told = access.shared.controller.registered@[s].capabilities;
            let reports = told is Some && told->0.audio@.len() > 0;
            &&& line is None ==> policy is None
            &&& line is Some && line->0.media is Some ==> policy is Some
            &&& policy matches Some((codecs, capabilities)) ==> {
                &&& lookup::target(capabilities) == told
                &&& reports && line->0.media is Some ==> codecs@ == line->0.media->0.codecs@
                &&& reports && line->0.media is None ==> codecs@
                    == access.shared.config.general.codecs@
                &&& !reports && codecs@.contains(codec) ==> codec == Codec::Pcma || codec
                    == Codec::Pcmu
            }
            &&& inputs is Some <==> policy is Some
            &&& inputs matches Some(inputs) ==> (policy matches Some(given)
                ==> inputs.configured@ == given.0@) && (
            inputs.station is Some <==> reports) && (inputs.station matches Some(station)
                ==> station@ == told->0.audio@)
            &&& policy is None ==> chosen is None && upgraded is None
            &&& policy is Some ==> chosen == negotiated
            &&& upgraded matches Some(codec) ==> negotiated == Some(codec)
        }),
{
    lookup::lemma_first_is(
        access.shared.controller.registered@,
        controller::is_station(device@),
        s,
    );
    let line = access.shared.binding_spec(device@, line_instance);
    if line is Some {
        if let Some(media) = line->0.media {
            lookup::lemma_filter_holds(media.codecs@, is_g711(), codec);
        } else {
            lookup::lemma_filter_holds(access.shared.config.general.codecs@, is_g711(), codec);
        }
    }
}

/// The codec of an incoming call is the first candidate of the format that the
/// switch translates to; each candidate is offered once.
pub proof fn law_incoming_calls_take_the_translated_format(
    candidates: Vec<AudioFormat>,
    translated: Option<PbxAudioFormat>,
    codec: Option<Codec>,
    i: int,
)
    requires
        call_ensures(preferred_inbound_codec, (&candidates, translated), codec),
        0 <= i <= candidates@.len(),
        translated matches Some(format) ==> {
            &&& forall|j: int| 0 <= j < i ==> (#[trigger] candidates@[j]).format != format
            &&& i < candidates@.len() ==> candidates@[i].format == format
        },
    ensures
        codec is Some <==> translated is Some && i < candidates@.len(),
        codec matches Some(codec) ==> codec == candidates@[i].codec,
{
    if let Some(format) = translated {
        let p = is_format(format);
        if i == candidates@.len() {
            lookup::lemma_first_none(candidates@, p);
        } else {
            lookup::lemma_first_is(candidates@, p, i);
        }
    }
}

/// A candidate for an incoming call is a format of its codec, of a codec that the
/// line allows, and where the station told its abilities one that it can take with
/// packets of the configured length.
pub proof fn law_incoming_candidates_suit_line_and_station<'a>(
    access: &'a Access,
    device: DeviceId,
    line_instance: u32,
    formats: &[AudioFormat],
    inputs: Option<AudioNegotiation<'a>>,
    candidates: Vec<AudioFormat>,
    k: int,
)
    requires
        call_ensures(audio_negotiation, (access, &device, line_instance), inputs),
        call_ensures(
            inbound_candidates,
            (access, &device, line_instance, formats),
            candidates,
        ),
        0 <= k < candidates@.len(),
    ensures
        inputs is Some,
        formats@.contains(candidates@[k]),
        inputs->0.configured@.contains(candidates@[k].codec),
        inputs->0.station matches Some(station) ==> exists|i: int|
            0 <= i < station@.len() && (#[trigger] station@[i]).codec == candidates@[k].codec
                && station@[i].max_packet_ms
                >= access.shared.config.general.audio_framing_default.packet_ms,
{
    let station = access.shared.station_audio_spec(device@);
    let packet_ms = access.shared.config.general.audio_framing_default.packet_ms;
    let codecs = access.shared.codec_policy_spec(device@, line_instance)->0;
    let order = inbound_order(codecs, station);
    let f = inbound_candidate(station, packet_ms, formats@);
    let found = candidates@[k];
    lookup::lemma_filter_map_member(order, f, found);
    assert(order.filter_map(f).contains(found));
    let i = choose|i: int| 0 <= i < order.len() && f(#[trigger] order[i]) == Some(found);
    let codec = order[i];
    lookup::lemma_first_at(formats@, carries(codec), 0);
    let at = lookup::first_at(formats@, carries(codec), 0)->0;
    assert(formats@[at] == found && found.codec == codec);
    if let Some(capabilities) = station {
        let c = choose|c: int|
            0 <= c < capabilities.len() && covers(codec, packet_ms)(#[trigger] capabilities[c]);
        assert(capabilities[c].codec == codec);
        let mapped = capabilities.map_values(capability_codec());
        lookup::lemma_distinct(mapped.filter(is_configured(codecs)));
        lookup::lemma_filter_holds(mapped, is_configured(codecs), codec);
        assert(order.contains(codec));
    } else {
        assert(codecs.contains(codec));
    }
}

/// Video is used on a line that has it, with a station that told its abilities and
/// a format that can be described; it keeps the session, protocol and mode that
/// apply. Without a description or an agreement the call stays with audio, for that
/// reason.
pub proof fn law_video_needs_an_agreement(
    access: &Access,
    device: DeviceId,
    line_instance: u32,
    negotiated: Option<NegotiatedVideo>,
    selection: VideoSelection,
    ready: Option<SelectedVideo>,
    formats: &[PbxVideoFormat],
    kept: Vec<PbxVideoFormat>,
    format: PbxVideoFormat,
    s: int,
)
    requires
        call_ensures(preferred_video, (access, &device, line_instance, negotiated), selection),
        call_ensures(VideoSelection::ready, (&selection,), ready),
        call_ensures(representable_formats, (formats,), kept),
        0 <= s <= access.shared.controller.registered@.len(),
        forall|j: int|
            0 <= j < s ==> (#[trigger] access.shared.controller.registered@[j]).id@ != device@,
        s < access.shared.controller.registered@.len()
            ==> access.shared.controller.registered@[s].id@ == device@,
    ensures
        kept@.contains(format) <==> formats@.contains(format) && format.payload_type is Some,
        ready is Some <==> selection is Ready,
        ready matches Some(selected) ==> selection == VideoSelection::Ready(selected),
        ({
            let line = access.shared.binding_spec(device@, line_instance);
            let wanted = line is Some && line->0.media is Some && line->0.media->0.video_mode
                != VideoMode::Off;
            let present = s < access.shared.controller.registered@.len();
            let station = access.shared.controller.registered@[s];
            let agreed = station.capabilities is Some && negotiated is Some;
            let described = agreed && negotiated->0.format.payload_type is Some
                && negotiated->0.payload is Some;
            &&& selection is Disabled <==> !wanted || !present
            &&& selection is Ready <==> wanted && present && described
            &&& selection matches VideoSelection::AudioOnly { session_generation, reason } ==> {
                &&& session_generation == station.session_generation
                &&& reason == VideoFallbackReason::NotNegotiated <==> !agreed
                &&& reason == VideoFallbackReason::DescriptorUnavailable <==> agreed
            }
            &&& selection matches VideoSelection::Ready(selected) ==> {
                &&& selected.session_generation == station.session_generation
                &&& selected.protocol == station.registration.protocol
                &&& selected.mode == line->0.media->0.video_mode
                &&& selected.format == negotiated->0.format
                &&& negotiated->0.format.payload_type == Some(selected.payload_type)
                &&& negotiated->0.payload == Some(selected.payload)
                &&& selected.address_type == negotiated->0.address_type
            }
        }),
{
    let p = controller::is_station(device@);
    if s == access.shared.controller.registered@.len() {
        lookup::lemma_first_none(access.shared.controller.registered@, p);
    } else {
        lookup::lemma_first_is(access.shared.controller.registered@, p, s);
    }
    lookup::lemma_filter_holds(formats@, is_representable(), format);
}

/// A long address suits a station that agreed to long addresses and speaks a
/// protocol that has them; a short one suits a station that did not ask for long
/// ones alone.
pub proof fn law_video_addresses_suit_the_agreement(
    selected: SelectedVideo,
    endpoint: MediaEndpointAddress,
    supported: bool,
)
    requires
        call_ensures(video_endpoint_is_supported, (&selected, endpoint), supported),
    ensures
        endpoint.address is V6 ==> (supported <==> selected.protocol >= 17 && (
        selected.address_type == Some(IpAddressType::Ipv6) || selected.address_type == Some(
            IpAddressType::Ipv4AndIpv6,
        ))),
        endpoint.address is V4 ==> (supported <==> selected.address_type is None
            || selected.address_type == Some(IpAddressType::Ipv4) || selected.address_type == Some(
            IpAddressType::Ipv4AndIpv6,
        )),
{
}

} // verus!
