//! What runs at this moment: calls, their media streams, conferences and their
//! participants, and the statistics of streams that ended.

use vstd::prelude::*;

use crate::collect::{self, insert_ascending, select};
use crate::conference::ConferencePhase;
use crate::controller;
use crate::ids::{CallId, ConferenceId, DeviceId, ParticipantId, PbxBridgeId, PbxCallId};
use crate::lookup;
use crate::media_events::{MediaDirection, MediaKind};
use crate::model::{
    CallAppearance, ControllerSnapshot, MediaEndpoint, MediaStreamState, PbxCall, VideoStreamState,
};
use crate::preferences;
use crate::queries::{
    self, channel_direction_summary, channel_media_state_summary, channel_state_summary,
    video_stream_state_summary, ChannelDirectionSummary, ChannelMediaStateSummary,
    ChannelStateSummary,
};

verus! {

/// A value that may be kept back.
#[derive(Debug, PartialEq, Eq)]
pub enum InventoryValue {
    Public(String),
    Redacted,
}

impl Clone for InventoryValue {
    fn clone(&self) -> (copy: Self)
        ensures
            copy == *self,
    {
        match self {
            InventoryValue::Public(text) => InventoryValue::Public(text.clone()),
            InventoryValue::Redacted => InventoryValue::Redacted,
        }
    }
}

pub open spec fn redacted_unless(public: bool, text: String) -> InventoryValue {
    if public {
        InventoryValue::Public(text)
    } else {
        InventoryValue::Redacted
    }
}

fn redact_unless(public: bool, text: &String) -> (value: InventoryValue)
    ensures
        value == redacted_unless(public, *text),
{
    if public {
        InventoryValue::Public(text.clone())
    } else {
        InventoryValue::Redacted
    }
}

#[derive(Debug, PartialEq, Eq)]
pub struct CallStatus {
    pub pbx_id: PbxCallId,
    pub line: String,
    pub context: String,
    pub state: ChannelStateSummary,
    pub direction: ChannelDirectionSummary,
    pub dialed_number: InventoryValue,
    pub privacy: bool,
    pub active_call_id: Option<CallId>,
    pub appearance_count: usize,
    pub conference_id: Option<ConferenceId>,
}

#[derive(Debug, PartialEq, Eq)]
pub struct MediaStreamStatus {
    pub pbx_id: PbxCallId,
    pub call_id: CallId,
    pub device_id: DeviceId,
    pub line_instance: u32,
    pub kind: MediaKind,
    pub direction: MediaDirection,
    pub state: ChannelMediaStateSummary,
    pub privacy: bool,
    pub endpoint: Option<MediaEndpoint>,
}

pub open spec fn audio_stream(
    call: CallAppearance,
    privacy: bool,
    kind: MediaKind,
    direction: MediaDirection,
    state: MediaStreamState,
) -> MediaStreamStatus {
    MediaStreamStatus {
        pbx_id: call.pbx_id,
        call_id: call.sccp_id,
        device_id: call.device_id,
        line_instance: call.line_instance,
        kind,
        direction,
        state: queries::audio_summary(state),
        privacy,
        endpoint: match state {
            MediaStreamState::Open(endpoint) => Some(endpoint),
            _ => None,
        },
    }
}

/// One audio stream of a call; only an open one has an endpoint.
pub fn runtime_media_stream(
    appearance: &CallAppearance,
    privacy: bool,
    kind: MediaKind,
    direction: MediaDirection,
    state: MediaStreamState,
) -> (status: MediaStreamStatus)
    ensures
        status == audio_stream(*appearance, privacy, kind, direction, state),
{
    MediaStreamStatus {
        pbx_id: appearance.pbx_id,
        call_id: appearance.sccp_id,
        device_id: appearance.device_id.clone(),
        line_instance: appearance.line_instance,
        kind,
        direction,
        state: channel_media_state_summary(state),
        privacy,
        endpoint: match state {
            MediaStreamState::Open(endpoint) => Some(endpoint),
            MediaStreamState::Closed => None,
            MediaStreamState::Opening => None,
        },
    }
}

pub open spec fn video_stream(
    call: CallAppearance,
    privacy: bool,
    direction: MediaDirection,
    state: VideoStreamState,
) -> MediaStreamStatus {
    MediaStreamStatus {
        pbx_id: call.pbx_id,
        call_id: call.sccp_id,
        device_id: call.device_id,
        line_instance: call.line_instance,
        kind: MediaKind::Video,
        direction,
        state: queries::video_summary(state),
        privacy,
        endpoint: None,
    }
}

/// One video stream of a call; its endpoint is not shown.
pub fn runtime_video_stream(
    appearance: &CallAppearance,
    privacy: bool,
    direction: MediaDirection,
    state: VideoStreamState,
) -> (status: MediaStreamStatus)
    ensures
        status == video_stream(*appearance, privacy, direction, state),
{
    MediaStreamStatus {
        pbx_id: appearance.pbx_id,
        call_id: appearance.sccp_id,
        device_id: appearance.device_id.clone(),
        line_instance: appearance.line_instance,
        kind: MediaKind::Video,
        direction,
        state: video_stream_state_summary(state),
        privacy,
        endpoint: None,
    }
}

/// Who takes part in a conference.
#[derive(Debug, PartialEq, Eq)]
pub struct ConferenceMember {
    pub id: ParticipantId,
    pub pbx_call_id: PbxCallId,
    pub handset_call_id: CallId,
    pub device_id: DeviceId,
    pub display_name: String,
    pub number: String,
    pub moderator: bool,
    pub muted: bool,
}

/// How a conference came about, as the controller numbers it.
#[derive(Clone, Copy, Debug, PartialEq, Eq, Structural)]
pub struct ConferenceOrigin(pub u32);

/// A conference, as the controller keeps it.
#[derive(Debug, PartialEq, Eq)]
pub struct ConferenceRecord {
    pub id: ConferenceId,
    pub bridge_id: PbxBridgeId,
    pub device_id: DeviceId,
    pub phase: ConferencePhase,
    pub origin: ConferenceOrigin,
    pub participants: Vec<ConferenceMember>,
    pub pending_invite: bool,
    pub pending_mutation: bool,
    pub music_on_hold_class: String,
    pub general_announcements: bool,
    pub participant_announcements: bool,
}

#[derive(Debug, PartialEq, Eq)]
pub struct ConferenceStatus {
    pub id: ConferenceId,
    pub bridge_id: PbxBridgeId,
    pub owner_device_id: DeviceId,
    pub phase: ConferencePhase,
    pub origin: ConferenceOrigin,
    pub participant_count: usize,
    pub moderator_count: usize,
    pub pending_invite: bool,
    pub pending_mutation: bool,
    pub music_on_hold_class: String,
    pub general_announcements: bool,
    pub participant_announcements: bool,
}

#[derive(Debug, PartialEq, Eq)]
pub struct ConferenceParticipantStatus {
    pub conference_id: ConferenceId,
    pub participant_id: ParticipantId,
    pub pbx_id: PbxCallId,
    pub call_id: CallId,
    pub device_id: DeviceId,
    pub display_name: InventoryValue,
    pub number: InventoryValue,
    pub identity_presented: bool,
    pub moderator: bool,
    pub muted: bool,
}

#[derive(Clone, Copy, Debug, PartialEq, Eq, Structural)]
pub enum MediaStatisticsPrivacy {
    Public,
    Private,
}

/// What a station reported of a stream.
#[derive(Clone, Copy, Debug, PartialEq, Eq, Structural)]
pub struct MediaStatistics {
    pub call_id: CallId,
    pub packets_sent: u32,
    pub packets_received: u32,
    pub packets_lost: u32,
}

/// A report and the station that it came from.
#[derive(Debug, PartialEq, Eq)]
pub struct StationStatistics {
    pub device_id: DeviceId,
    pub statistics: MediaStatistics,
}

#[derive(Debug, PartialEq, Eq)]
pub struct MediaStatisticsStatus {
    pub device_id: DeviceId,
    pub privacy: MediaStatisticsPrivacy,
    pub statistics: MediaStatistics,
}

#[derive(Debug, PartialEq, Eq)]
pub struct RuntimeStatusSnapshot {
    pub calls: Vec<CallStatus>,
    pub media_streams: Vec<MediaStreamStatus>,
    pub conferences: Vec<ConferenceStatus>,
    pub participants: Vec<ConferenceParticipantStatus>,
    pub media_statistics: Vec<MediaStatisticsStatus>,
}

/// The appearance hides who is on the call.
pub open spec fn hides(call: CallAppearance) -> bool {
    call.privacy || call.party_restrictions != 0
}

pub open spec fn hiding() -> spec_fn(CallAppearance) -> bool {
    |call: CallAppearance| hides(call)
}

/// Whether statistics of a call may be shown: only those of a call that the station
/// still shows and that hides nothing.
pub open spec fn statistics_privacy(
    snapshot: ControllerSnapshot,
    device: Seq<char>,
    call_id: CallId,
) -> MediaStatisticsPrivacy {
    match lookup::first(snapshot.appearances@, controller::is_call(call_id)) {
        Some(call) => match lookup::first(snapshot.calls@, controller::is_pbx_call(call.pbx_id)) {
            Some(pbx_call) => if call.device_id@ == device && !pbx_call.privacy && !hides(call) {
                MediaStatisticsPrivacy::Public
            } else {
                MediaStatisticsPrivacy::Private
            },
            None => MediaStatisticsPrivacy::Private,
        },
        None => MediaStatisticsPrivacy::Private,
    }
}

pub fn media_statistics_privacy(
    snapshot: &ControllerSnapshot,
    device_id: &DeviceId,
    call_id: CallId,
) -> (privacy: MediaStatisticsPrivacy)
    ensures
        privacy == statistics_privacy(*snapshot, device_id@, call_id),
{
    let call = match snapshot.call(call_id) {
        Some(call) => call,
        None => {
            return MediaStatisticsPrivacy::Private;
        },
    };
    match snapshot.pbx_call(call.pbx_id) {
        Some(pbx_call) => if call.device_id.same(device_id) && !pbx_call.privacy && !call.privacy
            && call.party_restrictions == 0 {
            MediaStatisticsPrivacy::Public
        } else {
            MediaStatisticsPrivacy::Private
        },
        None => MediaStatisticsPrivacy::Private,
    }
}

pub open spec fn is_conference(id: ConferenceId) -> spec_fn(ConferenceRecord) -> bool {
    |conference: ConferenceRecord| conference.id == id
}

/// The conference that a call takes part in.
pub open spec fn conference_of(conferences: Seq<ConferenceRecord>, call: PbxCall) -> Option<
    ConferenceRecord,
> {
    match call.conference_id {
        Some(id) => lookup::first(conferences, is_conference(id)),
        None => None,
    }
}

fn find_conference<'a>(conferences: &'a Vec<ConferenceRecord>, call: &PbxCall) -> (found: Option<
    &'a ConferenceRecord,
>)
    ensures
        lookup::target(found) == conference_of(conferences@, *call),
{
    match call.conference_id {
        Some(id) => collect::find(
            conferences,
            |conference: &ConferenceRecord| -> (found: bool)
                ensures
                    found == (conference.id == id)
                { conference.id == id },
            Ghost(is_conference(id)),
        ),
        None => None,
    }
}

/// The appearances of a call.
pub open spec fn shown(snapshot: ControllerSnapshot, pbx_id: PbxCallId) -> Seq<CallAppearance> {
    snapshot.appearances@.filter(preferences::shows_call(pbx_id))
}

/// Some appearance hides who is on the call.
pub open spec fn restricted(snapshot: ControllerSnapshot, pbx_id: PbxCallId) -> bool {
    lookup::some(shown(snapshot, pbx_id), hiding())
}

/// The status of a call, by its number.
pub open spec fn call_status(
    snapshot: ControllerSnapshot,
    conferences: Seq<ConferenceRecord>,
) -> spec_fn(u64) -> Option<CallStatus> {
    |id: u64|
        match lookup::first(snapshot.calls@, controller::is_pbx_call(PbxCallId(id))) {
            None => None,
            Some(call) => {
                let hidden = call.privacy || restricted(snapshot, PbxCallId(id));
                Some(
                    CallStatus {
                        pbx_id: PbxCallId(id),
                        line: call.line,
                        context: call.context,
                        state: queries::state_summary(call.state),
                        direction: queries::direction_summary(call.direction),
                        dialed_number: redacted_unless(!hidden, call.digits),
                        privacy: hidden,
                        active_call_id: call.active_call_id,
                        appearance_count: shown(snapshot, PbxCallId(id)).len() as usize,
                        conference_id: match conference_of(conferences, call) {
                            Some(conference) => Some(conference.id),
                            None => None,
                        },
                    },
                )
            },
        }
}

fn shown_appearances(snapshot: &ControllerSnapshot, pbx_id: PbxCallId) -> (calls: Vec<
    &CallAppearance,
>)
    ensures
        calls@.map_values(|call: &CallAppearance| *call) == shown(*snapshot, pbx_id),
{
    select(
        &snapshot.appearances,
        |call: &CallAppearance| -> (found: bool)
            ensures
                found == (call.pbx_id == pbx_id)
            { call.pbx_id == pbx_id },
        Ghost(preferences::shows_call(pbx_id)),
    )
}

fn some_hide(calls: &Vec<&CallAppearance>) -> (found: bool)
    ensures
        found == lookup::some(calls@.map_values(|call: &CallAppearance| *call), hiding()),
{
    let ghost viewed = calls@.map_values(|call: &CallAppearance| *call);
    let mut i: usize = 0;
    while i < calls.len()
        invariant
            viewed == calls@.map_values(|call: &CallAppearance| *call),
            0 <= i <= calls@.len(),
            forall|j: int| 0 <= j < i ==> !hiding()(#[trigger] viewed[j]),
        decreases calls@.len() - i,
    {
        let call = calls[i];
        assert(viewed[i as int] == *call);
        if call.privacy || call.party_restrictions != 0 {
            assert(hiding()(viewed[i as int]));
            return true;
        }
        i += 1;
    }
    false
}

fn describe_call(
    snapshot: &ControllerSnapshot,
    conferences: &Vec<ConferenceRecord>,
    id: u64,
) -> (status: Option<CallStatus>)
    ensures
        status == call_status(*snapshot, conferences@)(id),
{
    let pbx_id = PbxCallId(id);
    let call = match snapshot.pbx_call(pbx_id) {
        Some(call) => call,
        None => {
            return None;
        },
    };
    let calls = shown_appearances(snapshot, pbx_id);
    let hidden = some_hide(&calls) || call.privacy;
    let conference_id = match find_conference(conferences, call) {
        Some(conference) => Some(conference.id),
        None => None,
    };
    let appearance_count: usize = calls.len();
    proof {
        assert(shown(*snapshot, pbx_id).len() == calls@.len());
    }
    Some(
        CallStatus {
            pbx_id,
            line: call.line.clone(),
            context: call.context.clone(),
            state: channel_state_summary(call.state),
            direction: channel_direction_summary(call.direction),
            dialed_number: redact_unless(!hidden, &call.digits),
            privacy: hidden,
            active_call_id: call.active_call_id,
            appearance_count,
            conference_id,
        },
    )
}

/// The four streams of an appearance.
pub open spec fn appearance_streams(call: CallAppearance, private: bool) -> Seq<MediaStreamStatus> {
    let privacy = private || hides(call);
    seq![
        audio_stream(call, privacy, MediaKind::Audio, MediaDirection::Receive, call.audio),
        audio_stream(
            call,
            privacy,
            MediaKind::Audio,
            MediaDirection::Transmit,
            call.audio_transmit,
        ),
        video_stream(call, privacy, MediaDirection::Receive, call.video.receive),
        video_stream(call, privacy, MediaDirection::Transmit, call.video.transmit),
    ]
}

/// The streams of several appearances of one call.
pub open spec fn call_streams(calls: Seq<CallAppearance>, private: bool) -> Seq<MediaStreamStatus>
    decreases calls.len(),
{
    if calls.len() == 0 {
        Seq::empty()
    } else {
        call_streams(calls.drop_last(), private) + appearance_streams(calls.last(), private)
    }
}

/// The streams of several calls, by their numbers.
pub open spec fn all_streams(snapshot: ControllerSnapshot, ids: Seq<u64>) -> Seq<MediaStreamStatus>
    decreases ids.len(),
{
    if ids.len() == 0 {
        Seq::empty()
    } else {
        let rest = all_streams(snapshot, ids.drop_last());
        let pbx_id = PbxCallId(ids.last());
        match lookup::first(snapshot.calls@, controller::is_pbx_call(pbx_id)) {
            Some(call) => rest + call_streams(shown(snapshot, pbx_id), call.privacy),
            None => rest,
        }
    }
}

fn add_streams(streams: &mut Vec<MediaStreamStatus>, calls: &Vec<&CallAppearance>, private: bool)
    ensures
        final(streams)@ == old(streams)@ + call_streams(
            calls@.map_values(|call: &CallAppearance| *call),
            private,
        ),
{
    let ghost viewed = calls@.map_values(|call: &CallAppearance| *call);
    let ghost before = streams@;
    proof {
        assert(before + call_streams(viewed.take(0), private) =~= before);
    }
    let mut i: usize = 0;
    while i < calls.len()
        invariant
            viewed == calls@.map_values(|call: &CallAppearance| *call),
            0 <= i <= calls@.len(),
            streams@ == before + call_streams(viewed.take(i as int), private),
        decreases calls@.len() - i,
    {
        let call = calls[i];
        let privacy = private || call.privacy || call.party_restrictions != 0;
        let ghost here = streams@;
        streams.push(
            runtime_media_stream(
                call,
                privacy,
                MediaKind::Audio,
                MediaDirection::Receive,
                call.audio,
            ),
        );
        streams.push(
            runtime_media_stream(
                call,
                privacy,
                MediaKind::Audio,
                MediaDirection::Transmit,
                call.audio_transmit,
            ),
        );
        streams.push(
            runtime_video_stream(call, privacy, MediaDirection::Receive, call.video.receive),
        );
        streams.push(
            runtime_video_stream(call, privacy, MediaDirection::Transmit, call.video.transmit),
        );
        proof {
            assert(viewed[i as int] == *call);
            assert(viewed.take(i + 1).drop_last() =~= viewed.take(i as int));
            assert(streams@ =~= here + appearance_streams(*call, private));
            assert(streams@ =~= before + (call_streams(viewed.take(i as int), private)
                + appearance_streams(*call, private)));
        }
        i += 1;
    }
    proof {
        assert(viewed.take(i as int) =~= viewed);
    }
}

/// The call numbers are those of all appearances, in ascending order.
pub open spec fn is_call_order(snapshot: ControllerSnapshot, ids: Seq<u64>) -> bool {
    &&& collect::ascending(ids)
    &&& forall|id: u64| #[trigger]
        ids.contains(id) <==> lookup::some(
            snapshot.appearances@,
            preferences::shows_call(PbxCallId(id)),
        )
}

fn call_order(snapshot: &ControllerSnapshot) -> (ids: Vec<u64>)
    ensures
        is_call_order(*snapshot, ids@),
{
    let calls = &snapshot.appearances;
    let mut ids: Vec<u64> = Vec::new();
    let mut i: usize = 0;
    while i < calls.len()
        invariant
            calls@ == snapshot.appearances@,
            0 <= i <= calls@.len(),
            collect::ascending(ids@),
            forall|id: u64| #[trigger]
                ids@.contains(id) <==> exists|j: int|
                    0 <= j < i && (#[trigger] calls@[j]).pbx_id.0 == id,
        decreases calls@.len() - i,
    {
        let ghost before = ids@;
        insert_ascending(&mut ids, calls[i].pbx_id.0);
        proof {
            assert forall|id: u64| #[trigger]
                ids@.contains(id) == exists|j: int|
                    0 <= j < i + 1 && (#[trigger] calls@[j]).pbx_id.0 == id by {
                assert(ids@.contains(id) == (before.contains(id) || id
                    == calls@[i as int].pbx_id.0));
            }
        }
        i += 1;
    }
    proof {
        assert forall|id: u64| #[trigger]
            ids@.contains(id) == lookup::some(
                snapshot.appearances@,
                preferences::shows_call(PbxCallId(id)),
            ) by {
            let p = preferences::shows_call(PbxCallId(id));
            if ids@.contains(id) {
                let j = choose|j: int| 0 <= j < i && (#[trigger] calls@[j]).pbx_id.0 == id;
                assert(p(snapshot.appearances@[j]));
            }
            if lookup::some(snapshot.appearances@, p) {
                let j = choose|j: int|
                    0 <= j < snapshot.appearances@.len() && p(#[trigger] snapshot.appearances@[j]);
                assert(calls@[j].pbx_id.0 == id);
            }
        }
    }
    ids
}

/// The conference numbers are those of the conferences that these calls take part
/// in, in ascending order.
pub open spec fn is_conference_order(
    snapshot: ControllerSnapshot,
    conferences: Seq<ConferenceRecord>,
    calls: Seq<u64>,
    ids: Seq<u64>,
) -> bool {
    &&& collect::ascending(ids)
    &&& forall|id: u64| #[trigger]
        ids.contains(id) <==> exists|k: int|
            0 <= k < calls.len() && conferenced(snapshot, conferences, #[trigger] calls[k], id)
}

/// A call takes part in this conference.
pub open spec fn conferenced(
    snapshot: ControllerSnapshot,
    conferences: Seq<ConferenceRecord>,
    call_id: u64,
    id: u64,
) -> bool {
    match lookup::first(snapshot.calls@, controller::is_pbx_call(PbxCallId(call_id))) {
        Some(call) => match conference_of(conferences, call) {
            Some(conference) => conference.id.0 == id,
            None => false,
        },
        None => false,
    }
}

pub open spec fn moderates() -> spec_fn(ConferenceMember) -> bool {
    |member: ConferenceMember| member.moderator
}

/// The status of a conference, by its number.
pub open spec fn conference_status(conferences: Seq<ConferenceRecord>) -> spec_fn(u64) -> Option<
    ConferenceStatus,
> {
    |id: u64|
        match lookup::first(conferences, is_conference(ConferenceId(id as u32))) {
            None => None,
            Some(conference) => Some(
                ConferenceStatus {
                    id: conference.id,
                    bridge_id: conference.bridge_id,
                    owner_device_id: conference.device_id,
                    phase: conference.phase,
                    origin: conference.origin,
                    participant_count: conference.participants@.len() as usize,
                    moderator_count: conference.participants@.filter(moderates()).len() as usize,
                    pending_invite: conference.pending_invite,
                    pending_mutation: conference.pending_mutation,
                    music_on_hold_class: conference.music_on_hold_class,
                    general_announcements: conference.general_announcements,
                    participant_announcements: conference.participant_announcements,
                },
            ),
        }
}

/// The identity of a participant may be shown.
pub open spec fn presented(snapshot: ControllerSnapshot, member: ConferenceMember) -> bool {
    &&& lookup::first(snapshot.calls@, controller::is_pbx_call(member.pbx_call_id)) matches Some(
        call,
    ) && !call.privacy
    &&& lookup::first(
        snapshot.appearances@,
        controller::is_call(member.handset_call_id),
    ) matches Some(call) && !hides(call)
}

pub open spec fn participant_status(
    snapshot: ControllerSnapshot,
    conference: ConferenceId,
) -> spec_fn(ConferenceMember) -> ConferenceParticipantStatus {
    |member: ConferenceMember|
        ConferenceParticipantStatus {
            conference_id: conference,
            participant_id: member.id,
            pbx_id: member.pbx_call_id,
            call_id: member.handset_call_id,
            device_id: member.device_id,
            display_name: redacted_unless(presented(snapshot, member), member.display_name),
            number: redacted_unless(presented(snapshot, member), member.number),
            identity_presented: presented(snapshot, member),
            moderator: member.moderator,
            muted: member.muted,
        }
}

/// The participants of several conferences, by their numbers.
pub open spec fn all_participants(
    snapshot: ControllerSnapshot,
    conferences: Seq<ConferenceRecord>,
    ids: Seq<u64>,
) -> Seq<ConferenceParticipantStatus>
    decreases ids.len(),
{
    if ids.len() == 0 {
        Seq::empty()
    } else {
        let rest = all_participants(snapshot, conferences, ids.drop_last());
        match lookup::first(conferences, is_conference(ConferenceId(ids.last() as u32))) {
            Some(conference) => rest + conference.participants@.map_values(
                participant_status(snapshot, conference.id),
            ),
            None => rest,
        }
    }
}

/// One participant, as far as nothing about them is hidden.
pub fn describe_participant(
    snapshot: &ControllerSnapshot,
    conference_id: ConferenceId,
    member: &ConferenceMember,
) -> (status: ConferenceParticipantStatus)
    ensures
        status == participant_status(*snapshot, conference_id)(*member),
{
    let public_call = match snapshot.pbx_call(member.pbx_call_id) {
        Some(call) => !call.privacy,
        None => false,
    };
    let public_appearance = match snapshot.call(member.handset_call_id) {
        Some(call) => !call.privacy && call.party_restrictions == 0,
        None => false,
    };
    let identity_presented = public_call && public_appearance;
    ConferenceParticipantStatus {
        conference_id,
        participant_id: member.id,
        pbx_id: member.pbx_call_id,
        call_id: member.handset_call_id,
        device_id: member.device_id.clone(),
        display_name: redact_unless(identity_presented, &member.display_name),
        number: redact_unless(identity_presented, &member.number),
        identity_presented,
        moderator: member.moderator,
        muted: member.muted,
    }
}

fn add_participants(
    statuses: &mut Vec<ConferenceParticipantStatus>,
    snapshot: &ControllerSnapshot,
    conference: &ConferenceRecord,
)
    ensures
        final(statuses)@ == old(statuses)@ + conference.participants@.map_values(
            participant_status(*snapshot, conference.id),
        ),
{
    let ghost before = statuses@;
    let ghost f = participant_status(*snapshot, conference.id);
    proof {
        assert(before + conference.participants@.take(0).map_values(f) =~= before);
    }
    let mut i: usize = 0;
    while i < conference.participants.len()
        invariant
            f == participant_status(*snapshot, conference.id),
            0 <= i <= conference.participants@.len(),
            statuses@ == before + conference.participants@.take(i as int).map_values(f),
        decreases conference.participants@.len() - i,
    {
        statuses.push(
            describe_participant(snapshot, conference.id, &conference.participants[i]),
        );
        proof {
            assert(statuses@ =~= before + conference.participants@.take(i + 1).map_values(f));
        }
        i += 1;
    }
    proof {
        assert(conference.participants@.take(i as int) =~= conference.participants@);
    }
}

fn describe_conference(conference: &ConferenceRecord) -> (status: ConferenceStatus)
    ensures
        status == (ConferenceStatus {
            id: conference.id,
            bridge_id: conference.bridge_id,
            owner_device_id: conference.device_id,
            phase: conference.phase,
            origin: conference.origin,
            participant_count: conference.participants@.len() as usize,
            moderator_count: conference.participants@.filter(moderates()).len() as usize,
            pending_invite: conference.pending_invite,
            pending_mutation: conference.pending_mutation,
            music_on_hold_class: conference.music_on_hold_class,
            general_announcements: conference.general_announcements,
            participant_announcements: conference.participant_announcements,
        }),
{
    let moderators = select(
        &conference.participants,
        |member: &ConferenceMember| -> (found: bool)
            ensures
                found == member.moderator
            { member.moderator },
        Ghost(moderates()),
    );
    let participant_count: usize = conference.participants.len();
    let moderator_count: usize = moderators.len();
    proof {
        assert(conference.participants@.filter(moderates()).len() == moderators@.len());
    }
    ConferenceStatus {
        id: conference.id,
        bridge_id: conference.bridge_id,
        owner_device_id: conference.device_id.clone(),
        phase: conference.phase,
        origin: conference.origin,
        participant_count,
        moderator_count,
        pending_invite: conference.pending_invite,
        pending_mutation: conference.pending_mutation,
        music_on_hold_class: conference.music_on_hold_class.clone(),
        general_announcements: conference.general_announcements,
        participant_announcements: conference.participant_announcements,
    }
}

/// The status of a report.
pub open spec fn statistics_status(snapshot: ControllerSnapshot) -> spec_fn(StationStatistics) ->
    MediaStatisticsStatus {
    |report: StationStatistics|
        MediaStatisticsStatus {
            device_id: report.device_id,
            privacy: statistics_privacy(snapshot, report.device_id@, report.statistics.call_id),
            statistics: report.statistics,
        }
}

fn describe_statistics(snapshot: &ControllerSnapshot, reports: &Vec<StationStatistics>) -> (
statuses: Vec<MediaStatisticsStatus>)
    ensures
        statuses@ == reports@.map_values(statistics_status(*snapshot)),
{
    let ghost f = statistics_status(*snapshot);
    let mut statuses: Vec<MediaStatisticsStatus> = Vec::new();
    proof {
        assert(statuses@ =~= reports@.take(0).map_values(f));
    }
    let mut i: usize = 0;
    while i < reports.len()
        invariant
            f == statistics_status(*snapshot),
            0 <= i <= reports@.len(),
            statuses@ == reports@.take(i as int).map_values(f),
        decreases reports@.len() - i,
    {
        let report = &reports[i];
        statuses.push(
            MediaStatisticsStatus {
                device_id: report.device_id.clone(),
                privacy: media_statistics_privacy(
                    snapshot,
                    &report.device_id,
                    report.statistics.call_id,
                ),
                statistics: report.statistics,
            },
        );
        proof {
            assert(statuses@ =~= reports@.take(i + 1).map_values(f));
        }
        i += 1;
    }
    proof {
        assert(reports@.take(i as int) =~= reports@);
    }
    statuses
}

/// The status shows these calls and conferences, in this order.
pub open spec fn shows_order(
    status: RuntimeStatusSnapshot,
    snapshot: ControllerSnapshot,
    conferences: Seq<ConferenceRecord>,
    calls: Seq<u64>,
    ids: Seq<u64>,
) -> bool {
    &&& is_call_order(snapshot, calls)
    &&& is_conference_order(snapshot, conferences, calls, ids)
    &&& status.calls@ == calls.filter_map(call_status(snapshot, conferences))
    &&& status.media_streams@ == all_streams(snapshot, calls)
    &&& status.conferences@ == ids.filter_map(conference_status(conferences))
    &&& status.participants@ == all_participants(snapshot, conferences, ids)
}

/// Describes everything that runs. Calls and conferences come in the order of their
/// numbers, and whatever hides who is on a call is kept back.
pub fn status_snapshot(
    snapshot: &ControllerSnapshot,
    conferences: &Vec<ConferenceRecord>,
    reports: &Vec<StationStatistics>,
) -> (status: RuntimeStatusSnapshot)
    ensures
        exists|calls: Seq<u64>, ids: Seq<u64>| #[trigger]
            shows_order(status, *snapshot, conferences@, calls, ids),
        status.media_statistics@ == reports@.map_values(statistics_status(*snapshot)),
{
    let order = call_order(snapshot);
    let ghost f = call_status(*snapshot, conferences@);
    let ghost g = conference_status(conferences@);
    let mut calls: Vec<CallStatus> = Vec::new();
    let mut media_streams: Vec<MediaStreamStatus> = Vec::new();
    let mut ids: Vec<u64> = Vec::new();
    proof {
        assert(order@.take(0).filter_map(f) =~= Seq::empty()) by {
            reveal(Seq::filter_map);
        }
    }
    let mut i: usize = 0;
    while i < order.len()
        invariant
            f == call_status(*snapshot, conferences@),
            0 <= i <= order@.len(),
            calls@ == order@.take(i as int).filter_map(f),
            media_streams@ == all_streams(*snapshot, order@.take(i as int)),
            collect::ascending(ids@),
            forall|id: u64| #[trigger]
                ids@.contains(id) <==> exists|k: int|
                    0 <= k < i && conferenced(*snapshot, conferences@, #[trigger] order@[k], id),
        decreases order@.len() - i,
    {
        proof {
            lookup::lemma_filter_map_step(order@, f, i as int);
            assert(order@.take(i + 1).drop_last() =~= order@.take(i as int));
        }
        let pbx_id = PbxCallId(order[i]);
        let ghost before = ids@;
        match describe_call(snapshot, conferences, order[i]) {
            Some(status) => calls.push(status),
            None => {},
        }
        match snapshot.pbx_call(pbx_id) {
            Some(call) => {
                let appearances = shown_appearances(snapshot, pbx_id);
                add_streams(&mut media_streams, &appearances, call.privacy);
                match find_conference(conferences, call) {
                    Some(conference) => insert_ascending(&mut ids, conference.id.0 as u64),
                    None => {},
                }
            },
            None => {},
        }
        proof {
            assert forall|id: u64| #[trigger]
                ids@.contains(id) == exists|k: int|
                    0 <= k < i + 1 && conferenced(*snapshot, conferences@, #[trigger] order@[k], id)
                by {
                assert(ids@.contains(id) == (before.contains(id) || conferenced(
                    *snapshot,
                    conferences@,
                    order@[i as int],
                    id,
                )));
                if before.contains(id) {
                    let k = choose|k: int|
                        0 <= k < i && conferenced(
                            *snapshot,
                            conferences@,
                            #[trigger] order@[k],
                            id,
                        );
                    assert(0 <= k < i + 1 && conferenced(*snapshot, conferences@, order@[k], id));
                }
            }
        }
        i += 1;
    }
    proof {
        assert(order@.take(i as int) =~= order@);
        assert(is_conference_order(*snapshot, conferences@, order@, ids@));
        assert(ids@.take(0).filter_map(g) =~= Seq::empty()) by {
            reveal(Seq::filter_map);
        }
    }
    let mut statuses: Vec<ConferenceStatus> = Vec::new();
    let mut participants: Vec<ConferenceParticipantStatus> = Vec::new();
    let mut k: usize = 0;
    while k < ids.len()
        invariant
            g == conference_status(conferences@),
            0 <= k <= ids@.len(),
            statuses@ == ids@.take(k as int).filter_map(g),
            participants@ == all_participants(*snapshot, conferences@, ids@.take(k as int)),
        decreases ids@.len() - k,
    {
        proof {
            lookup::lemma_filter_map_step(ids@, g, k as int);
            assert(ids@.take(k + 1).drop_last() =~= ids@.take(k as int));
        }
        let id = ConferenceId(ids[k] as u32);
        match collect::find(
            conferences,
            |conference: &ConferenceRecord| -> (found: bool)
                ensures
                    found == (conference.id == id)
                { conference.id == id },
            Ghost(is_conference(id)),
        ) {
            Some(conference) => {
                statuses.push(describe_conference(conference));
                add_participants(&mut participants, snapshot, conference);
            },
            None => {},
        }
        k += 1;
    }
    proof {
        assert(ids@.take(k as int) =~= ids@);
    }
    let status = RuntimeStatusSnapshot {
        calls,
        media_streams,
        conferences: statuses,
        participants,
        media_statistics: describe_statistics(snapshot, reports),
    };
    proof {
        assert(shows_order(status, *snapshot, conferences@, order@, ids@));
    }
    status
}

/// A call that hides who is on it shows no number that was dialed, and a participant
/// who is hidden shows neither name nor number.
pub proof fn law_status_keeps_secrets(
    snapshot: ControllerSnapshot,
    conferences: Seq<ConferenceRecord>,
    id: u64,
    status: CallStatus,
    conference: ConferenceId,
    member: ConferenceMember,
)
    requires
        call_status(snapshot, conferences)(id) == Some(status),
        !presented(snapshot, member),
    ensures
        restricted(snapshot, PbxCallId(id)) ==> status.privacy && status.dialed_number
            == InventoryValue::Redacted,
        participant_status(snapshot, conference)(member).display_name == InventoryValue::Redacted,
        participant_status(snapshot, conference)(member).number == InventoryValue::Redacted,
{
}

/// Statistics are shown only of a call that the reporting station shows.
pub proof fn law_statistics_belong_to_live_calls(
    snapshot: ControllerSnapshot,
    device: Seq<char>,
    call_id: CallId,
)
    requires
        statistics_privacy(snapshot, device, call_id) == MediaStatisticsPrivacy::Public,
    ensures
        lookup::first(snapshot.appearances@, controller::is_call(call_id)) matches Some(call)
            && call.device_id@ == device && !call.privacy,
{
}

/// A stream is reported for the call, station and direction it belongs to; where it
/// goes is told of open audio alone.
pub proof fn law_streams_are_reported_for_their_call(
    call: CallAppearance,
    privacy: bool,
    kind: MediaKind,
    direction: MediaDirection,
    audio: MediaStreamState,
    video: VideoStreamState,
    heard: MediaStreamStatus,
    seen: MediaStreamStatus,
)
    requires
        call_ensures(runtime_media_stream, (&call, privacy, kind, direction, audio), heard),
        call_ensures(runtime_video_stream, (&call, privacy, direction, video), seen),
    ensures
        heard.pbx_id == call.pbx_id && heard.call_id == call.sccp_id && heard.device_id
            == call.device_id && heard.line_instance == call.line_instance,
        seen.pbx_id == call.pbx_id && seen.call_id == call.sccp_id && seen.device_id
            == call.device_id && seen.line_instance == call.line_instance,
        heard.kind == kind && heard.direction == direction && heard.privacy == privacy,
        seen.kind == MediaKind::Video && seen.direction == direction && seen.privacy == privacy,
        heard.endpoint is Some <==> audio is Open,
        heard.endpoint matches Some(endpoint) ==> audio == MediaStreamState::Open(endpoint),
        seen.endpoint is None,
        heard.state is Open <==> audio is Open,
        seen.state is Open <==> video is Open,
{
}

/// Statistics are public only for the station that has the call, and only if
/// neither the call nor its appearance hides anything.
pub proof fn law_statistics_of_private_calls_are_private(
    snapshot: ControllerSnapshot,
    device_id: DeviceId,
    call_id: CallId,
    privacy: MediaStatisticsPrivacy,
    a: int,
    c: int,
)
    requires
        call_ensures(media_statistics_privacy, (&snapshot, &device_id, call_id), privacy),
        0 <= a <= snapshot.appearances@.len(),
        forall|j: int| 0 <= j < a ==> (#[trigger] snapshot.appearances@[j]).sccp_id != call_id,
        a < snapshot.appearances@.len() ==> {
            &&& snapshot.appearances@[a].sccp_id == call_id
            &&& 0 <= c <= snapshot.calls@.len()
            &&& forall|j: int|
                0 <= j < c ==> (#[trigger] snapshot.calls@[j]).pbx_id
                    != snapshot.appearances@[a].pbx_id
            &&& c < snapshot.calls@.len() ==> snapshot.calls@[c].pbx_id
                == snapshot.appearances@[a].pbx_id
        },
    ensures
        privacy is Public <==> a < snapshot.appearances@.len() && c < snapshot.calls@.len()
            && snapshot.appearances@[a].device_id@ == device_id@ && !snapshot.calls@[c].privacy
            && !snapshot.appearances@[a].privacy && snapshot.appearances@[a].party_restrictions
            == 0,
{
    if a == snapshot.appearances@.len() {
        lookup::lemma_first_none(snapshot.appearances@, controller::is_call(call_id));
    } else {
        lookup::lemma_first_is(snapshot.appearances@, controller::is_call(call_id), a);
        let p = controller::is_pbx_call(snapshot.appearances@[a].pbx_id);
        if c == snapshot.calls@.len() {
            lookup::lemma_first_none(snapshot.calls@, p);
        } else {
            lookup::lemma_first_is(snapshot.calls@, p, c);
        }
    }
}

/// A call is reported as the switch knows it. The number that it dialed is told
/// exactly if neither the call nor any of its appearances hides anything, and the
/// report says so.
pub proof fn law_reported_calls_hide_private_numbers(
    snapshot: ControllerSnapshot,
    conferences: Vec<ConferenceRecord>,
    reports: Vec<StationStatistics>,
    status: RuntimeStatusSnapshot,
    k: int,
) -> (c: int)
    requires
        call_ensures(status_snapshot, (&snapshot, &conferences, &reports), status),
        0 <= k < status.calls@.len(),
    ensures
        0 <= c < snapshot.calls@.len(),
        ({
            let call = snapshot.calls@[c];
            let told = status.calls@[k];
            let hidden = call.privacy || exists|a: int|
                0 <= a < snapshot.appearances@.len() && (#[trigger] snapshot.appearances@[a]).pbx_id
                    == call.pbx_id && (snapshot.appearances@[a].privacy
                    || snapshot.appearances@[a].party_restrictions != 0);
            &&& told.pbx_id == call.pbx_id
            &&& told.line == call.line
            &&& told.context == call.context
            &&& told.active_call_id == call.active_call_id
            &&& told.privacy <==> hidden
            &&& told.dialed_number is Redacted <==> hidden
            &&& told.dialed_number matches InventoryValue::Public(number) ==> number == call.digits
        }),
{
    let (calls, ids) = choose|calls: Seq<u64>, ids: Seq<u64>| #[trigger]
        shows_order(status, snapshot, conferences@, calls, ids);
    let f = call_status(snapshot, conferences@);
    lookup::lemma_filter_map_member(calls, f, status.calls@[k]);
    assert(calls.filter_map(f).contains(status.calls@[k]));
    let i = choose|i: int| 0 <= i < calls.len() && f(#[trigger] calls[i]) == Some(status.calls@[k]);
    let pbx_id = PbxCallId(calls[i]);
    let p = controller::is_pbx_call(pbx_id);
    lookup::lemma_first_at(snapshot.calls@, p, 0);
    let c = lookup::first_at(snapshot.calls@, p, 0)->0;
    assert(p(snapshot.calls@[c]));
    let q = preferences::shows_call(pbx_id);
    let own = shown(snapshot, pbx_id);
    if lookup::some(own, hiding()) {
        let n = choose|n: int| 0 <= n < own.len() && hiding()(#[trigger] own[n]);
        lookup::lemma_filter_member(snapshot.appearances@, q, n);
        let a = choose|a: int|
            0 <= a < snapshot.appearances@.len() && snapshot.appearances@[a] == own[n];
        assert(snapshot.appearances@[a].pbx_id == pbx_id);
    }
    if exists|a: int|
        0 <= a < snapshot.appearances@.len() && (#[trigger] snapshot.appearances@[a]).pbx_id
            == pbx_id && (snapshot.appearances@[a].privacy
            || snapshot.appearances@[a].party_restrictions != 0) {
        let a = choose|a: int|
            0 <= a < snapshot.appearances@.len() && (#[trigger] snapshot.appearances@[a]).pbx_id
                == pbx_id && (snapshot.appearances@[a].privacy
                || snapshot.appearances@[a].party_restrictions != 0);
        snapshot.appearances@.lemma_filter_contains(q, a);
        let n = choose|n: int| 0 <= n < own.len() && own[n] == snapshot.appearances@[a];
        assert(hiding()(own[n]));
    }
    c
}

/// A conference is reported as it is recorded, each fact in its own place.
pub proof fn law_conferences_are_reported_as_recorded(
    snapshot: ControllerSnapshot,
    conferences: Vec<ConferenceRecord>,
    reports: Vec<StationStatistics>,
    status: RuntimeStatusSnapshot,
    k: int,
    r: int,
) -> (c: int)
    requires
        call_ensures(status_snapshot, (&snapshot, &conferences, &reports), status),
        0 <= k < status.conferences@.len(),
        0 <= r,
    ensures
        0 <= c < conferences@.len(),
        status.conferences@[k].id == conferences@[c].id,
        status.conferences@[k].bridge_id == conferences@[c].bridge_id,
        status.conferences@[k].owner_device_id == conferences@[c].device_id,
        status.conferences@[k].phase == conferences@[c].phase,
        status.conferences@[k].participant_count == conferences@[c].participants.len(),
        status.conferences@[k].pending_invite == conferences@[c].pending_invite,
        status.conferences@[k].pending_mutation == conferences@[c].pending_mutation,
        status.conferences@[k].general_announcements == conferences@[c].general_announcements,
        status.conferences@[k].participant_announcements
            == conferences@[c].participant_announcements,
        status.media_statistics@.len() == reports@.len(),
        r < reports@.len() ==> status.media_statistics@[r].device_id == reports@[r].device_id
            && status.media_statistics@[r].statistics == reports@[r].statistics,
{
    let (calls, ids) = choose|calls: Seq<u64>, ids: Seq<u64>| #[trigger]
        shows_order(status, snapshot, conferences@, calls, ids);
    let f = conference_status(conferences@);
    lookup::lemma_filter_map_member(ids, f, status.conferences@[k]);
    assert(ids.filter_map(f).contains(status.conferences@[k]));
    let i = choose|i: int|
        0 <= i < ids.len() && f(#[trigger] ids[i]) == Some(status.conferences@[k]);
    let p = is_conference(ConferenceId(ids[i] as u32));
    lookup::lemma_first_at(conferences@, p, 0);
    let c = lookup::first_at(conferences@, p, 0)->0;
    assert(conferences@[c].participants.len() == conferences@[c].participants@.len());
    c
}

/// Whoever is in a conference is shown by name and number exactly if neither their
/// call nor their appearance hides anything.
pub proof fn law_hidden_participants_are_not_named(
    snapshot: ControllerSnapshot,
    conference_id: ConferenceId,
    member: ConferenceMember,
    status: ConferenceParticipantStatus,
    c: int,
    a: int,
)
    requires
        call_ensures(describe_participant, (&snapshot, conference_id, &member), status),
        0 <= c < snapshot.calls@.len(),
        snapshot.calls@[c].pbx_id == member.pbx_call_id,
        forall|j: int|
            0 <= j < c ==> (#[trigger] snapshot.calls@[j]).pbx_id != member.pbx_call_id,
        0 <= a < snapshot.appearances@.len(),
        snapshot.appearances@[a].sccp_id == member.handset_call_id,
        forall|j: int|
            0 <= j < a ==> (#[trigger] snapshot.appearances@[j]).sccp_id
                != member.handset_call_id,
    ensures
        ({
            let open = !snapshot.calls@[c].privacy && !snapshot.appearances@[a].privacy
                && snapshot.appearances@[a].party_restrictions == 0;
            &&& status.identity_presented <==> open
            &&& open ==> status.display_name == InventoryValue::Public(member.display_name)
                && status.number == InventoryValue::Public(member.number)
            &&& !open ==> status.display_name is Redacted && status.number is Redacted
            &&& status.conference_id == conference_id && status.participant_id == member.id
            &&& status.pbx_id == member.pbx_call_id && status.call_id == member.handset_call_id
            &&& status.device_id == member.device_id
            &&& status.moderator == member.moderator && status.muted == member.muted
        }),
{
    lookup::lemma_first_is(
        snapshot.calls@,
        controller::is_pbx_call(member.pbx_call_id),
        c,
    );
    lookup::lemma_first_is(
        snapshot.appearances@,
        controller::is_call(member.handset_call_id),
        a,
    );
}

} // verus!
