//! Which audio formats a call prefers, and changing that before it is dialed.

use vstd::prelude::*;

use crate::access::{runtime_line_binding, Access, Shared};
use crate::codecs::{self, AudioFormat};
use crate::collect::{any, find, gather, position};
use crate::controller;
use crate::ids::{DeviceId, PbxCallId};
use crate::lookup;
use crate::model::{
    CallAppearance, CallRuntimeRecord, Codec, ControllerSnapshot, MediaCapability, PbxAudioFormat,
    StationMediaCapabilities,
};

verus! {

#[derive(Clone, Copy, Debug, PartialEq, Eq, Structural)]
pub enum CodecPreferenceProviderError {
    Unavailable,
    NotDriverChannel,
    AmbiguousChannel,
    NotPreDial,
    FormatUnavailable,
    NativeRejected,
    RollbackFailed,
}

/// Why the controller refused to change the codec of a call.
#[derive(Clone, Copy, Debug, PartialEq, Eq, Structural)]
pub enum CodecPreferenceRejection {
    Unavailable,
    NotPreDial,
    Ambiguous,
}

pub open spec fn rejection_spec(rejection: CodecPreferenceRejection) ->
    CodecPreferenceProviderError {
    match rejection {
        CodecPreferenceRejection::Unavailable => CodecPreferenceProviderError::Unavailable,
        CodecPreferenceRejection::NotPreDial => CodecPreferenceProviderError::NotPreDial,
        CodecPreferenceRejection::Ambiguous => CodecPreferenceProviderError::AmbiguousChannel,
    }
}

pub fn map_codec_preference_rejection(rejection: CodecPreferenceRejection) -> (error:
    CodecPreferenceProviderError)
    ensures
        error == rejection_spec(rejection),
{
    match rejection {
        CodecPreferenceRejection::Unavailable => CodecPreferenceProviderError::Unavailable,
        CodecPreferenceRejection::NotPreDial => CodecPreferenceProviderError::NotPreDial,
        CodecPreferenceRejection::Ambiguous => CodecPreferenceProviderError::AmbiguousChannel,
    }
}

/// The call of a channel; only channels of the driver have one.
pub fn codec_preference_pbx_id(pbx_id: Option<PbxCallId>) -> (found: Result<
    PbxCallId,
    CodecPreferenceProviderError,
>)
    ensures
        found == match pbx_id {
            Some(pbx_id) => Ok::<PbxCallId, CodecPreferenceProviderError>(pbx_id),
            None => Err(CodecPreferenceProviderError::NotDriverChannel),
        },
{
    match pbx_id {
        Some(pbx_id) => Ok(pbx_id),
        None => Err(CodecPreferenceProviderError::NotDriverChannel),
    }
}

/// The appearance shows this call.
pub open spec fn shows_call(pbx_id: PbxCallId) -> spec_fn(CallAppearance) -> bool {
    |call: CallAppearance| call.pbx_id == pbx_id
}

/// The one appearance of a call.
pub open spec fn single_appearance(shared: Shared, pbx_id: PbxCallId) -> Result<
    CallAppearance,
    CodecPreferenceProviderError,
> {
    let shown = shared.controller.appearances@.filter(shows_call(pbx_id));
    if lookup::first(shared.controller.calls@, controller::is_pbx_call(pbx_id)) is None
        || shown.len() == 0 {
        Err(CodecPreferenceProviderError::Unavailable)
    } else if shown.len() > 1 {
        Err(CodecPreferenceProviderError::AmbiguousChannel)
    } else {
        Ok(shown[0])
    }
}

/// Where a call stands; only calls on a single appearance have preferences.
pub fn codec_preference_appearance(shared: &Shared, pbx_id: PbxCallId) -> (found: Result<
    (&DeviceId, u32),
    CodecPreferenceProviderError,
>)
    ensures
        match single_appearance(*shared, pbx_id) {
            Ok(call) => found matches Ok((device, instance)) && *device == call.device_id
                && instance == call.line_instance,
            Err(error) => found matches Err(reported) && reported == error,
        },
{
    if shared.controller.pbx_call(pbx_id).is_none() {
        return Err(CodecPreferenceProviderError::Unavailable);
    }
    let calls = &shared.controller.appearances;
    let ghost p = shows_call(pbx_id);
    let mut first: Option<usize> = None;
    proof {
        assert(calls@.take(0).filter(p) =~= Seq::empty()) by {
            reveal(Seq::filter);
        }
    }
    let mut i: usize = 0;
    while i < calls.len()
        invariant
            p == shows_call(pbx_id),
            calls@ == shared.controller.appearances@,
            lookup::first(shared.controller.calls@, controller::is_pbx_call(pbx_id)) is Some,
            0 <= i <= calls@.len(),
            match first {
                None => calls@.take(i as int).filter(p).len() == 0,
                Some(k) => k < i && calls@.take(i as int).filter(p) == seq![calls@[k as int]],
            },
        decreases calls@.len() - i,
    {
        proof {
            lookup::lemma_filter_step(calls@, p, i as int);
        }
        if calls[i].pbx_id == pbx_id {
            if first.is_some() {
                proof {
                    let rest = calls@.skip(i + 1);
                    assert(calls@ =~= calls@.take(i + 1) + rest);
                    Seq::filter_distributes_over_add(calls@.take(i + 1), rest, p);
                }
                return Err(CodecPreferenceProviderError::AmbiguousChannel);
            }
            first = Some(i);
            proof {
                assert(calls@.take(i + 1).filter(p) =~= seq![calls@[i as int]]);
            }
        }
        i += 1;
    }
    proof {
        assert(calls@.take(i as int) =~= calls@);
    }
    match first {
        Some(k) => Ok((&calls[k].device_id, calls[k].line_instance)),
        None => Err(CodecPreferenceProviderError::Unavailable),
    }
}

/// What a call on an appearance may use.
#[derive(Debug, PartialEq, Eq)]
pub struct AudioPreferencePolicy<'a> {
    /// The formats that may be preferred, best first.
    pub configured: Vec<PbxAudioFormat>,
    pub codecs: &'a Vec<Codec>,
    /// What the station reported, unless that was nothing.
    pub station: Option<&'a StationMediaCapabilities>,
}

pub open spec fn receives(codec: Codec, packet_ms: u32) -> spec_fn(MediaCapability) -> bool {
    |capability: MediaCapability|
        capability.codec == codec && capability.max_packet_ms >= packet_ms
}

/// The format of a codec that the station can use: one of the basic codecs while the
/// station has not said what it can, else one that it takes in ordinary packets.
pub open spec fn usable_format(
    station: Option<StationMediaCapabilities>,
    formats: Seq<AudioFormat>,
    packet_ms: u32,
) -> spec_fn(Codec) -> Option<PbxAudioFormat> {
    |codec: Codec|
        match lookup::first(formats, codecs::carries(codec)) {
            None => None,
            Some(entry) => match station {
                None => if codecs::is_g711()(codec) {
                    Some(entry.format)
                } else {
                    None
                },
                Some(capabilities) => if lookup::some(
                    capabilities.audio@,
                    receives(codec, packet_ms),
                ) {
                    Some(entry.format)
                } else {
                    None
                },
            },
        }
}

fn usable(
    station: Option<&StationMediaCapabilities>,
    formats: &Vec<AudioFormat>,
    packet_ms: u32,
    codec: Codec,
) -> (format: Option<PbxAudioFormat>)
    ensures
        format == usable_format(lookup::target(station), formats@, packet_ms)(codec),
{
    let entry = find(
        formats,
        |entry: &AudioFormat| -> (found: bool)
            ensures
                found == (entry.codec == codec)
            { entry.codec == codec },
        Ghost(codecs::carries(codec)),
    );
    match (entry, station) {
        (None, _) => None,
        (Some(entry), None) => if codec == Codec::Pcma || codec == Codec::Pcmu {
            Some(entry.format)
        } else {
            None
        },
        (Some(entry), Some(capabilities)) => {
            if any(
                &capabilities.audio,
                |capability: &MediaCapability| -> (found: bool)
                    ensures
                        found == (capability.codec == codec && capability.max_packet_ms
                            >= packet_ms)
                    { capability.codec == codec && capability.max_packet_ms >= packet_ms },
                Ghost(receives(codec, packet_ms)),
            ) {
                Some(entry.format)
            } else {
                None
            }
        },
    }
}

/// What the station reported, unless that was nothing.
pub open spec fn reported(shared: Shared, device: Seq<char>) -> Option<StationMediaCapabilities> {
    match lookup::first(shared.controller.registered@, controller::is_station(device)) {
        Some(registered) => match registered.capabilities {
            Some(capabilities) => if capabilities.audio@.len() > 0 {
                Some(capabilities)
            } else {
                None
            },
            None => None,
        },
        None => None,
    }
}

/// The formats that calls on an appearance may prefer.
pub open spec fn configured_formats(
    shared: Shared,
    device: Seq<char>,
    instance: u32,
    formats: Seq<AudioFormat>,
    packet_ms: u32,
) -> Result<Seq<PbxAudioFormat>, CodecPreferenceProviderError> {
    match shared.binding_spec(device, instance) {
        None => Err(CodecPreferenceProviderError::Unavailable),
        Some(binding) => match binding.media {
            None => Err(CodecPreferenceProviderError::Unavailable),
            Some(media) => if !shared.controller.registered_spec(device) {
                Err(CodecPreferenceProviderError::Unavailable)
            } else {
                let configured = lookup::distinct(
                    media.codecs@.filter_map(
                        usable_format(reported(shared, device), formats, packet_ms),
                    ),
                );
                if configured.len() == 0 {
                    Err(CodecPreferenceProviderError::FormatUnavailable)
                } else {
                    Ok(configured)
                }
            },
        },
    }
}

fn has_format(formats: &Vec<PbxAudioFormat>, format: PbxAudioFormat) -> (found: bool)
    ensures
        found == formats@.contains(format),
{
    let mut i: usize = 0;
    while i < formats.len()
        invariant
            0 <= i <= formats@.len(),
            forall|j: int| 0 <= j < i ==> #[trigger] formats@[j] != format,
        decreases formats@.len() - i,
    {
        if formats[i] == format {
            return true;
        }
        i += 1;
    }
    false
}

fn without_repetitions(formats: &Vec<PbxAudioFormat>) -> (kept: Vec<PbxAudioFormat>)
    ensures
        kept@ == lookup::distinct(formats@),
{
    let mut kept: Vec<PbxAudioFormat> = Vec::new();
    let mut i: usize = 0;
    while i < formats.len()
        invariant
            0 <= i <= formats@.len(),
            kept@ == lookup::distinct(formats@.take(i as int)),
        decreases formats@.len() - i,
    {
        proof {
            lookup::lemma_distinct_step(formats@, i as int);
        }
        if !has_format(&kept, formats[i]) {
            kept.push(formats[i]);
        }
        i += 1;
    }
    proof {
        assert(formats@.take(i as int) =~= formats@);
    }
    kept
}

/// What a call on an appearance may use. `packet_ms` is the length of an ordinary
/// packet.
pub fn audio_preference_policy<'a>(
    shared: &'a Shared,
    device_id: &DeviceId,
    line_instance: u32,
    formats: &Vec<AudioFormat>,
    packet_ms: u32,
) -> (policy: Result<AudioPreferencePolicy<'a>, CodecPreferenceProviderError>)
    ensures
        match configured_formats(*shared, device_id@, line_instance, formats@, packet_ms) {
            Err(error) => policy matches Err(reported) && reported == error,
            Ok(configured) => {
                &&& policy matches Ok(policy)
                &&& policy.configured@ == configured
                &&& lookup::target(policy.station) == reported(*shared, device_id@)
                &&& shared.binding_spec(device_id@, line_instance) matches Some(binding)
                    && binding.media matches Some(media) && *policy.codecs == media.codecs
            },
        },
{
    let binding = match runtime_line_binding(shared, device_id, line_instance) {
        Some(binding) => binding,
        None => {
            return Err(CodecPreferenceProviderError::Unavailable);
        },
    };
    let media = match &binding.media {
        Some(media) => media,
        None => {
            return Err(CodecPreferenceProviderError::Unavailable);
        },
    };
    proof {
        lookup::lemma_first_is_some(
            shared.controller.registered@,
            controller::is_station(device_id@),
        );
    }
    let registered = match shared.controller.registered_device(device_id) {
        Some(registered) => registered,
        None => {
            return Err(CodecPreferenceProviderError::Unavailable);
        },
    };
    let station = match &registered.capabilities {
        Some(capabilities) => if capabilities.audio.len() > 0 {
            Some(capabilities)
        } else {
            None
        },
        None => None,
    };
    let ghost f = usable_format(reported(*shared, device_id@), formats@, packet_ms);
    let gathered = gather(
        &media.codecs,
        media.codecs.len(),
        |codec: &Codec| -> (format: Option<PbxAudioFormat>)
            ensures
                format == usable_format(lookup::target(station), formats@, packet_ms)(*codec)
            { usable(station, formats, packet_ms, *codec) },
        Ghost(f),
    );
    proof {
        assert(media.codecs@.take(media.codecs@.len() as int) =~= media.codecs@);
    }
    let configured = without_repetitions(&gathered);
    if configured.len() == 0 {
        return Err(CodecPreferenceProviderError::FormatUnavailable);
    }
    Ok(AudioPreferencePolicy { configured, codecs: &media.codecs, station })
}

/// What a call may prefer, and what it prefers.
#[derive(Debug, PartialEq, Eq)]
pub struct CodecPreferenceContext {
    pub configured: Vec<PbxAudioFormat>,
    pub effective: Vec<PbxAudioFormat>,
}

pub open spec fn is_among(formats: Seq<PbxAudioFormat>) -> spec_fn(PbxAudioFormat) -> bool {
    |format: PbxAudioFormat| formats.contains(format)
}

/// What a call prefers: what was set for it and still is configured, else what is
/// configured.
pub open spec fn effective_formats(
    configured: Seq<PbxAudioFormat>,
    record: Option<CallRuntimeRecord>,
) -> Seq<PbxAudioFormat> {
    match record {
        Some(record) => match record.audio_preferences {
            Some(preferences) => {
                let kept = preferences@.filter(is_among(configured));
                if kept.len() == 0 {
                    configured
                } else {
                    kept
                }
            },
            None => configured,
        },
        None => configured,
    }
}

/// The context of a call, or why it has none.
pub open spec fn context_spec(
    shared: Shared,
    pbx_id: PbxCallId,
    formats: Seq<AudioFormat>,
    packet_ms: u32,
) -> Result<(Seq<PbxAudioFormat>, Seq<PbxAudioFormat>), CodecPreferenceProviderError> {
    match single_appearance(shared, pbx_id) {
        Err(error) => Err(error),
        Ok(call) => match configured_formats(
            shared,
            call.device_id@,
            call.line_instance,
            formats,
            packet_ms,
        ) {
            Err(error) => Err(error),
            Ok(configured) => Ok(
                (
                    configured,
                    effective_formats(
                        configured,
                        lookup::first(shared.controller.runtime@, controller::record_of(pbx_id)),
                    ),
                ),
            ),
        },
    }
}

fn copied_formats(formats: &Vec<PbxAudioFormat>) -> (copy: Vec<PbxAudioFormat>)
    ensures
        copy@ == formats@,
{
    let mut copy: Vec<PbxAudioFormat> = Vec::new();
    let mut i: usize = 0;
    while i < formats.len()
        invariant
            0 <= i <= formats@.len(),
            copy@ == formats@.take(i as int),
        decreases formats@.len() - i,
    {
        copy.push(formats[i]);
        i += 1;
    }
    assert(formats@.take(i as int) =~= formats@);
    copy
}

/// The formats in force: those that were chosen for the call, else the configured
/// ones.
pub fn effective(configured: &Vec<PbxAudioFormat>, record: Option<&CallRuntimeRecord>) -> (formats: Vec<
    PbxAudioFormat,
>)
    ensures
        formats@ == effective_formats(configured@, lookup::target(record)),
{
    let preferences = match record {
        Some(record) => match &record.audio_preferences {
            Some(preferences) => preferences,
            None => {
                return copied_formats(configured);
            },
        },
        None => {
            return copied_formats(configured);
        },
    };
    let ghost p = is_among(configured@);
    let mut kept: Vec<PbxAudioFormat> = Vec::new();
    proof {
        assert(preferences@.take(0).filter(p) =~= Seq::empty()) by {
            reveal(Seq::filter);
        }
    }
    let mut i: usize = 0;
    while i < preferences.len()
        invariant
            p == is_among(configured@),
            0 <= i <= preferences@.len(),
            kept@ == preferences@.take(i as int).filter(p),
        decreases preferences@.len() - i,
    {
        proof {
            lookup::lemma_filter_step(preferences@, p, i as int);
        }
        if has_format(configured, preferences[i]) {
            kept.push(preferences[i]);
        }
        i += 1;
    }
    proof {
        assert(preferences@.take(i as int) =~= preferences@);
    }
    if kept.len() == 0 {
        return copied_formats(configured);
    }
    kept
}

/// What a call may prefer, and what it prefers.
pub fn codec_preference_context(
    shared: &Shared,
    pbx_id: PbxCallId,
    formats: &Vec<AudioFormat>,
    packet_ms: u32,
) -> (context: Result<CodecPreferenceContext, CodecPreferenceProviderError>)
    ensures
        match context_spec(*shared, pbx_id, formats@, packet_ms) {
            Ok((configured, effective)) => context matches Ok(context) && context.configured@
                == configured && context.effective@ == effective,
            Err(error) => context matches Err(reported) && reported == error,
        },
{
    let (device_id, line_instance) = match codec_preference_appearance(shared, pbx_id) {
        Ok(found) => found,
        Err(error) => {
            return Err(error);
        },
    };
    let policy = match audio_preference_policy(
        shared,
        device_id,
        line_instance,
        formats,
        packet_ms,
    ) {
        Ok(policy) => policy,
        Err(error) => {
            return Err(error);
        },
    };
    let effective = effective(
        &policy.configured,
        shared.controller.call_runtime_record(pbx_id),
    );
    Ok(CodecPreferenceContext { configured: policy.configured, effective })
}

/// Whether these preferences can be set: there has to be one, and all have to be
/// configured.
pub fn check_preferences(configured: &Vec<PbxAudioFormat>, preferences: &Vec<PbxAudioFormat>) -> (
checked: Result<PbxAudioFormat, CodecPreferenceProviderError>)
    ensures
        checked == if preferences@.len() > 0 && lookup::all(preferences@, is_among(configured@)) {
            Ok::<PbxAudioFormat, CodecPreferenceProviderError>(preferences@[0])
        } else {
            Err(CodecPreferenceProviderError::FormatUnavailable)
        },
{
    if preferences.len() == 0 {
        return Err(CodecPreferenceProviderError::FormatUnavailable);
    }
    let mut i: usize = 0;
    while i < preferences.len()
        invariant
            0 <= i <= preferences@.len(),
            forall|j: int| 0 <= j < i ==> is_among(configured@)(#[trigger] preferences@[j]),
        decreases preferences@.len() - i,
    {
        if !has_format(configured, preferences[i]) {
            assert(!is_among(configured@)(preferences@[i as int]));
            return Err(CodecPreferenceProviderError::FormatUnavailable);
        }
        i += 1;
    }
    Ok(preferences[0])
}

/// Where a change of preferences stands.
#[derive(Clone, Copy, Debug, PartialEq, Eq, Structural)]
pub enum PreferenceChange {
    /// The codec for the first preference is being looked for.
    Negotiating,
    /// The controller changes the codec of the call.
    Setting { codec: Codec },
    /// The switch changes the format of the channel.
    Applying { previous: Codec },
    /// The controller puts the former codec back.
    Restoring,
    Done,
}

#[derive(Clone, Copy, Debug, PartialEq, Eq)]
pub enum PreferenceReply {
    Negotiated(Option<Codec>),
    Changed(Result<Codec, CodecPreferenceRejection>),
    Applied(bool),
    Restored(bool),
}

#[derive(Clone, Copy, Debug, PartialEq, Eq, Structural)]
pub enum PreferenceAction {
    SetCodec(Codec),
    ApplyFormat,
    /// Put this codec back.
    Restore(Codec),
    /// Keep the preferences for the call.
    Keep,
    Fail(CodecPreferenceProviderError),
}

pub open spec fn preference_step(state: PreferenceChange, reply: PreferenceReply) -> (
    PreferenceChange,
    PreferenceAction,
) {
    match (state, reply) {
        (PreferenceChange::Negotiating, PreferenceReply::Negotiated(Some(codec))) => (
            PreferenceChange::Setting { codec },
            PreferenceAction::SetCodec(codec),
        ),
        (PreferenceChange::Negotiating, PreferenceReply::Negotiated(None)) => (
            PreferenceChange::Done,
            PreferenceAction::Fail(CodecPreferenceProviderError::FormatUnavailable),
        ),
        (PreferenceChange::Setting { .. }, PreferenceReply::Changed(Ok(previous))) => (
            PreferenceChange::Applying { previous },
            PreferenceAction::ApplyFormat,
        ),
        (PreferenceChange::Setting { .. }, PreferenceReply::Changed(Err(rejection))) => (
            PreferenceChange::Done,
            PreferenceAction::Fail(rejection_spec(rejection)),
        ),
        (PreferenceChange::Applying { .. }, PreferenceReply::Applied(true)) => (
            PreferenceChange::Done,
            PreferenceAction::Keep,
        ),
        (PreferenceChange::Applying { previous }, PreferenceReply::Applied(false)) => (
            PreferenceChange::Restoring,
            PreferenceAction::Restore(previous),
        ),
        (PreferenceChange::Restoring, PreferenceReply::Restored(true)) => (
            PreferenceChange::Done,
            PreferenceAction::Fail(CodecPreferenceProviderError::NativeRejected),
        ),
        (PreferenceChange::Restoring, PreferenceReply::Restored(false)) => (
            PreferenceChange::Done,
            PreferenceAction::Fail(CodecPreferenceProviderError::RollbackFailed),
        ),
        _ => (
            PreferenceChange::Done,
            PreferenceAction::Fail(CodecPreferenceProviderError::Unavailable),
        ),
    }
}

/// Goes on with a change of preferences that was checked.
pub fn replace_preferences(state: PreferenceChange, reply: PreferenceReply) -> (step: (
    PreferenceChange,
    PreferenceAction,
))
    ensures
        step == preference_step(state, reply),
{
    match (state, reply) {
        (PreferenceChange::Negotiating, PreferenceReply::Negotiated(Some(codec))) => (
            PreferenceChange::Setting { codec },
            PreferenceAction::SetCodec(codec),
        ),
        (PreferenceChange::Negotiating, PreferenceReply::Negotiated(None)) => (
            PreferenceChange::Done,
            PreferenceAction::Fail(CodecPreferenceProviderError::FormatUnavailable),
        ),
        (PreferenceChange::Setting { .. }, PreferenceReply::Changed(Ok(previous))) => (
            PreferenceChange::Applying { previous },
            PreferenceAction::ApplyFormat,
        ),
        (PreferenceChange::Setting { .. }, PreferenceReply::Changed(Err(rejection))) => (
            PreferenceChange::Done,
            PreferenceAction::Fail(map_codec_preference_rejection(rejection)),
        ),
        (PreferenceChange::Applying { .. }, PreferenceReply::Applied(true)) => (
            PreferenceChange::Done,
            PreferenceAction::Keep,
        ),
        (PreferenceChange::Applying { previous }, PreferenceReply::Applied(false)) => (
            PreferenceChange::Restoring,
            PreferenceAction::Restore(previous),
        ),
        (PreferenceChange::Restoring, PreferenceReply::Restored(true)) => (
            PreferenceChange::Done,
            PreferenceAction::Fail(CodecPreferenceProviderError::NativeRejected),
        ),
        (PreferenceChange::Restoring, PreferenceReply::Restored(false)) => (
            PreferenceChange::Done,
            PreferenceAction::Fail(CodecPreferenceProviderError::RollbackFailed),
        ),
        _ => (
            PreferenceChange::Done,
            PreferenceAction::Fail(CodecPreferenceProviderError::Unavailable),
        ),
    }
}

fn same_formats(left: &Vec<PbxAudioFormat>, right: &Vec<PbxAudioFormat>) -> (same: bool)
    ensures
        same == (left@ == right@),
{
    if left.len() != right.len() {
        return false;
    }
    let mut i: usize = 0;
    while i < left.len()
        invariant
            left@.len() == right@.len(),
            0 <= i <= left@.len(),
            forall|j: int| 0 <= j < i ==> left@[j] == right@[j],
        decreases left@.len() - i,
    {
        if left[i] != right[i] {
            assert(left@[i as int] != right@[i as int]);
            return false;
        }
        i += 1;
    }
    assert(left@ =~= right@);
    true
}

/// The preferences kept for a call.
pub open spec fn kept_preferences(access: Access, pbx_id: PbxCallId) -> Option<
    Seq<PbxAudioFormat>,
> {
    match lookup::first(access.shared.controller.runtime@, controller::record_of(pbx_id)) {
        Some(record) => match record.audio_preferences {
            Some(preferences) => Some(preferences@),
            None => None,
        },
        None => None,
    }
}

/// The record of a call, blank where there is none yet.
pub open spec fn record_before(shared: Shared, pbx_id: PbxCallId) -> CallRuntimeRecord {
    match lookup::first(shared.controller.runtime@, controller::record_of(pbx_id)) {
        Some(record) => record,
        None => CallRuntimeRecord {
            pbx_id,
            assigned_channel_id: None,
            audio_packet_ms: None,
            audio_preferences: None,
            audio_encryption: None,
        },
    }
}

/// Keeps the preferences of a call; none are kept where they are just what is
/// configured.
pub fn keep_preferences(
    access: &mut Access,
    pbx_id: PbxCallId,
    configured: &Vec<PbxAudioFormat>,
    preferences: Vec<PbxAudioFormat>,
)
    ensures
        kept_preferences(*final(access), pbx_id) == if preferences@ == configured@ {
            None
        } else {
            Some(preferences@)
        },
        lookup::first(final(access).shared.controller.runtime@, controller::record_of(pbx_id))
            == Some(
            CallRuntimeRecord {
                audio_preferences: if preferences@ == configured@ {
                    None
                } else {
                    Some(preferences)
                },
                ..record_before(old(access).shared, pbx_id)
            },
        ),
        forall|other: PbxCallId|
            other != pbx_id ==> #[trigger] lookup::first(
                final(access).shared.controller.runtime@,
                controller::record_of(other),
            ) == lookup::first(
                old(access).shared.controller.runtime@,
                controller::record_of(other),
            ),
        final(access).shared == (Shared {
            controller: ControllerSnapshot {
                runtime: final(access).shared.controller.runtime,
                ..old(access).shared.controller
            },
            ..old(access).shared
        }),
{
    let ghost before = access.shared.controller.runtime@;
    let ghost p = controller::record_of(pbx_id);
    let audio_preferences = if same_formats(&preferences, configured) {
        None
    } else {
        Some(preferences)
    };
    let found = position(
        &access.shared.controller.runtime,
        |record: &CallRuntimeRecord| -> (found: bool)
            ensures
                found == (record.pbx_id == pbx_id)
            { record.pbx_id == pbx_id },
        Ghost(p),
    );
    proof {
        lookup::lemma_first_at(before, p, 0);
    }
    let mut record = match found {
        Some(i) => {
            let record = access.shared.controller.runtime.remove(i);
            proof {
                assert forall|other: PbxCallId| other != pbx_id implies #[trigger] lookup::first(
                    access.shared.controller.runtime@,
                    controller::record_of(other),
                ) == lookup::first(before, controller::record_of(other)) by {
                    lookup::lemma_first_remove(before, controller::record_of(other), i as int);
                }
            }
            record
        },
        None => CallRuntimeRecord {
            pbx_id,
            assigned_channel_id: None,
            audio_packet_ms: None,
            audio_preferences: None,
            audio_encryption: None,
        },
    };
    record.audio_preferences = audio_preferences;
    let ghost rest = access.shared.controller.runtime@;
    access.shared.controller.runtime.insert(0, record);
    proof {
        assert(access.shared.controller.runtime@ =~= seq![record] + rest);
        lookup::lemma_first_cons(record, rest, p);
        assert forall|other: PbxCallId| other != pbx_id implies #[trigger] lookup::first(
            access.shared.controller.runtime@,
            controller::record_of(other),
        ) == lookup::first(before, controller::record_of(other)) by {
            lookup::lemma_first_cons(record, rest, controller::record_of(other));
        }
    }
}

/// A refused change never leaves the codec of the call changed: once it was changed,
/// the call either keeps its new preferences or gets the former codec back.
pub proof fn law_refused_preferences_are_put_back(previous: Codec, applied: bool)
    ensures
        ({
            let (next, action) = preference_step(
                PreferenceChange::Applying { previous },
                PreferenceReply::Applied(applied),
            );
            action == PreferenceAction::Keep && applied || action == PreferenceAction::Restore(
                previous,
            ) && next == PreferenceChange::Restoring && !applied
        }),
{
}

/// What a call prefers is configured, and it prefers something.
pub proof fn law_preferences_are_configured(
    configured: Seq<PbxAudioFormat>,
    record: Option<CallRuntimeRecord>,
    i: int,
)
    requires
        configured.len() > 0,
    ensures
        effective_formats(configured, record).len() > 0,
        0 <= i < effective_formats(configured, record).len() ==> configured.contains(
            effective_formats(configured, record)[i],
        ),
{
    let formats = effective_formats(configured, record);
    if 0 <= i < formats.len() && formats != configured {
        let preferences = record.unwrap().audio_preferences.unwrap()@;
        lookup::lemma_filter_member(preferences, is_among(configured), i);
    }
}

/// A call has preferences of its own where the switch knows it and exactly one
/// appearance shows it; refusals keep their reason.
pub proof fn law_preferences_need_one_appearance(
    shared: &Shared,
    pbx_id: PbxCallId,
    rejection: CodecPreferenceRejection,
    error: CodecPreferenceProviderError,
    channel: Option<PbxCallId>,
    driven: Result<PbxCallId, CodecPreferenceProviderError>,
    found: Result<(&DeviceId, u32), CodecPreferenceProviderError>,
    i: int,
    k: int,
)
    requires
        call_ensures(map_codec_preference_rejection, (rejection,), error),
        call_ensures(codec_preference_pbx_id, (channel,), driven),
        call_ensures(codec_preference_appearance, (shared, pbx_id), found),
        0 <= i < shared.controller.appearances@.len(),
        shared.controller.appearances@[i].pbx_id == pbx_id,
        0 <= k < shared.controller.appearances@.len(),
    ensures
        error is Unavailable <==> rejection is Unavailable,
        error is NotPreDial <==> rejection is NotPreDial,
        error is AmbiguousChannel <==> rejection is Ambiguous,
        driven is Ok <==> channel is Some,
        driven matches Ok(driven) ==> channel == Some(driven),
        driven matches Err(error) ==> error is NotDriverChannel,
        found matches Ok((device, instance)) ==> device@
            == shared.controller.appearances@[i].device_id@ && instance
            == shared.controller.appearances@[i].line_instance,
        k != i && shared.controller.appearances@[k].pbx_id == pbx_id ==> found is Err,
        found == Err::<(&DeviceId, u32), CodecPreferenceProviderError>(
            CodecPreferenceProviderError::AmbiguousChannel,
        ) ==> exists|c: int|
            0 <= c < shared.controller.calls@.len() && (#[trigger] shared.controller.calls@[c]).pbx_id
                == pbx_id,
{
    let calls = shared.controller.appearances@;
    let p = shows_call(pbx_id);
    let shown = calls.filter(p);
    calls.lemma_filter_contains(p, i);
    if k != i && calls[k].pbx_id == pbx_id {
        lemma_two_selected(calls, p, i, k);
    }
    if shown.len() == 1 {
        assert(shown.contains(calls[i]));
        assert(shown[0] == calls[i]);
    }
    let q = controller::is_pbx_call(pbx_id);
    lookup::lemma_first_at(shared.controller.calls@, q, 0);
    if let Some(c) = lookup::first_at(shared.controller.calls@, q, 0) {
        assert(q(shared.controller.calls@[c]));
    }
}

proof fn lemma_two_selected<T>(s: Seq<T>, p: spec_fn(T) -> bool, i: int, k: int)
    requires
        0 <= i < s.len(),
        0 <= k < s.len(),
        i != k,
        p(s[i]),
        p(s[k]),
    ensures
        s.filter(p).len() >= 2,
    decreases s.len(),
{
    reveal(Seq::filter);
    let rest = s.drop_last();
    let last = s.len() - 1;
    if i == last {
        rest.lemma_filter_contains(p, k);
        assert(rest[k] == s[k]);
        assert(rest.filter(p).contains(s[k]));
    } else if k == last {
        rest.lemma_filter_contains(p, i);
        assert(rest[i] == s[i]);
        assert(rest.filter(p).contains(s[i]));
    } else {
        assert(rest[i] == s[i] && rest[k] == s[k]);
        lemma_two_selected(rest, p, i, k);
    }
}

/// The formats of a line are those of its codecs that the switch has a format for
/// and the station can take: until the station told its abilities the two that all
/// have, and after that those with packets of this length.
pub proof fn law_preferred_formats_suit_the_station<'a>(
    shared: &'a Shared,
    device_id: DeviceId,
    line_instance: u32,
    formats: Vec<AudioFormat>,
    packet_ms: u32,
    policy: Result<AudioPreferencePolicy<'a>, CodecPreferenceProviderError>,
    s: int,
    k: int,
)
    requires
        call_ensures(
            audio_preference_policy,
            (shared, &device_id, line_instance, &formats, packet_ms),
            policy,
        ),
        0 <= s < shared.controller.registered@.len(),
        shared.controller.registered@[s].id@ == device_id@,
        forall|j: int|
            0 <= j < s ==> (#[trigger] shared.controller.registered@[j]).id@ != device_id@,
        policy matches Ok(policy) ==> 0 <= k < policy.configured@.len(),
    ensures
        ({
            let line = shared.binding_spec(device_id@, line_instance);
            let told = shared.controller.registered@[s].capabilities;
            let reports = told is Some && told->0.audio@.len() > 0;
            &&& policy is Ok ==> line is Some && line->0.media is Some
            &&& policy matches Err(error) ==> (error is Unavailable <==> line is None
                || line->0.media is None) && (error is FormatUnavailable <==> line is Some
                && line->0.media is Some)
            &&& policy matches Ok(policy) ==> {
                &&& *policy.codecs == line->0.media->0.codecs
                &&& policy.station is Some <==> reports
                &&& exists|c: int, f: int|
                    #![trigger line->0.media->0.codecs@[c], formats@[f]]
                    0 <= c < line->0.media->0.codecs@.len() && 0 <= f < formats@.len()
                        && formats@[f].codec == line->0.media->0.codecs@[c] && formats@[f].format
                        == policy.configured@[k] && (!reports ==> formats@[f].codec == Codec::Pcma
                        || formats@[f].codec == Codec::Pcmu) && (reports ==> exists|a: int|
                        0 <= a < told->0.audio@.len() && (#[trigger] told->0.audio@[a]).codec
                            == formats@[f].codec && told->0.audio@[a].max_packet_ms >= packet_ms)
            }
        }),
{
    let p = controller::is_station(device_id@);
    lookup::lemma_first_is(shared.controller.registered@, p, s);
    assert(p(shared.controller.registered@[s]));
    if let Ok(policy) = policy {
        let media = shared.binding_spec(device_id@, line_instance)->0.media->0;
        let station = reported(*shared, device_id@);
        let u = usable_format(station, formats@, packet_ms);
        let all = media.codecs@.filter_map(u);
        let wanted = policy.configured@[k];
        lookup::lemma_distinct(all);
        assert(lookup::distinct(all).contains(wanted));
        lookup::lemma_filter_map_member(media.codecs@, u, wanted);
        let c = choose|c: int|
            0 <= c < media.codecs@.len() && u(#[trigger] media.codecs@[c]) == Some(wanted);
        let codec = media.codecs@[c];
        lookup::lemma_first_at(formats@, codecs::carries(codec), 0);
        let f = lookup::first_at(formats@, codecs::carries(codec), 0)->0;
        assert(formats@[f].codec == codec && formats@[f].format == wanted);
        if let Some(capabilities) = station {
            let a = choose|a: int|
                0 <= a < capabilities.audio@.len() && receives(codec, packet_ms)(
                    #[trigger] capabilities.audio@[a],
                );
            assert(capabilities.audio@[a].codec == codec);
        }
    }
}

/// Wishes count as far as they are configured, in the order in which they were
/// made; without any that counts the configured order stays. New wishes are
/// accepted exactly if there are some and all are configured.
pub proof fn law_wishes_count_where_they_are_configured(
    configured: Vec<PbxAudioFormat>,
    record: Option<&CallRuntimeRecord>,
    formats: Vec<PbxAudioFormat>,
    preferences: Vec<PbxAudioFormat>,
    checked: Result<PbxAudioFormat, CodecPreferenceProviderError>,
    format: PbxAudioFormat,
)
    requires
        call_ensures(effective, (&configured, record), formats),
        call_ensures(check_preferences, (&configured, &preferences), checked),
    ensures
        record is None || record->0.audio_preferences is None ==> formats@ == configured@,
        record is Some && record->0.audio_preferences is Some ==> (formats@ == configured@ || (
        formats@.contains(format) <==> record->0.audio_preferences->0@.contains(format)
            && configured@.contains(format))),
        record is Some && record->0.audio_preferences is Some
            && record->0.audio_preferences->0@.contains(format) && configured@.contains(format)
            ==> formats@.contains(format),
        checked is Ok <==> preferences@.len() > 0 && forall|i: int|
            0 <= i < preferences@.len() ==> configured@.contains(#[trigger] preferences@[i]),
        checked matches Ok(first) ==> first == preferences@[0],
        checked matches Err(error) ==> error is FormatUnavailable,
{
    let p = is_among(configured@);
    assert(lookup::all(preferences@, p) == forall|i: int|
        0 <= i < preferences@.len() ==> configured@.contains(#[trigger] preferences@[i])) by {
        assert forall|i: int| 0 <= i < preferences@.len() implies p(#[trigger] preferences@[i])
            == configured@.contains(preferences@[i]) by {}
    }
    if let Some(record) = record {
        if let Some(wishes) = record.audio_preferences {
            lookup::lemma_filter_holds(wishes@, p, format);
        }
    }
}

/// A change of the preferences sets the negotiated codec, then the format of the
/// channel; where the format is refused, the codec that was before is restored, and
/// only a change that was applied is kept.
pub proof fn law_refused_formats_restore_the_codec(
    state: PreferenceChange,
    reply: PreferenceReply,
    after: PreferenceChange,
    action: PreferenceAction,
)
    requires
        call_ensures(replace_preferences, (state, reply), (after, action)),
    ensures
        action matches PreferenceAction::SetCodec(codec) ==> state is Negotiating && reply
            == PreferenceReply::Negotiated(Some(codec)) && after == (PreferenceChange::Setting {
            codec,
        }),
        state is Negotiating && (reply matches PreferenceReply::Negotiated(found) && found is Some)
            ==> action is SetCodec,
        action is ApplyFormat <==> state is Setting && (reply matches PreferenceReply::Changed(done)
            && done is Ok),
        action is ApplyFormat ==> (reply matches PreferenceReply::Changed(Ok(previous)) && after
            == (PreferenceChange::Applying { previous })),
        action is Keep <==> state is Applying && reply == PreferenceReply::Applied(true),
        action is Restore <==> state is Applying && reply == PreferenceReply::Applied(false),
        action matches PreferenceAction::Restore(codec) ==> state == (PreferenceChange::Applying {
            previous: codec,
        }) && after is Restoring,
        state is Restoring ==> (reply == PreferenceReply::Restored(true) <==> action
            == PreferenceAction::Fail(CodecPreferenceProviderError::NativeRejected)),
        state is Restoring ==> (reply == PreferenceReply::Restored(false) <==> action
            == PreferenceAction::Fail(CodecPreferenceProviderError::RollbackFailed)),
        state is Setting ==> (reply matches PreferenceReply::Changed(Err(rejection)) ==> (
        action matches PreferenceAction::Fail(error) && (error is NotPreDial
            <==> rejection is NotPreDial))),
{
}

/// Kept preferences are those of their call afterwards, or none where they are what
/// is configured; no other call changes.
pub proof fn law_kept_preferences_stay_with_their_call(
    access: &mut Access,
    pbx_id: PbxCallId,
    configured: Vec<PbxAudioFormat>,
    preferences: Vec<PbxAudioFormat>,
    other: PbxCallId,
    r: int,
)
    requires
        call_ensures(keep_preferences, (access, pbx_id, &configured, preferences), ()),
        other != pbx_id,
        0 <= r < old(access).shared.controller.runtime@.len(),
        old(access).shared.controller.runtime@[r].pbx_id == pbx_id,
        forall|j: int|
            0 <= j < r ==> (#[trigger] old(access).shared.controller.runtime@[j]).pbx_id != pbx_id,
    ensures
        lookup::first(final(access).shared.controller.runtime@, controller::record_of(pbx_id))
            matches Some(record) && (record.audio_preferences is None <==> preferences@
            == configured@) && (record.audio_preferences matches Some(kept) ==> kept@
            == preferences@) && record.audio_packet_ms
            == old(access).shared.controller.runtime@[r].audio_packet_ms
            && record.assigned_channel_id
            == old(access).shared.controller.runtime@[r].assigned_channel_id
            && record.audio_encryption
            == old(access).shared.controller.runtime@[r].audio_encryption,
        lookup::first(final(access).shared.controller.runtime@, controller::record_of(other))
            == lookup::first(
            old(access).shared.controller.runtime@,
            controller::record_of(other),
        ),
        final(access).shared.controller.calls == old(access).shared.controller.calls,
        final(access).shared.config == old(access).shared.config,
{
    lookup::lemma_first_is(
        old(access).shared.controller.runtime@,
        controller::record_of(pbx_id),
        r,
    );
}

} // verus!
