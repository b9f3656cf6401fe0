//! The doors through which management clients and the dialplan reach the driver. Each
//! holds the shared state only while the driver runs, and says so where it does not.

use vstd::prelude::*;

use crate::access::{self, Access, ChannelQueryLookupError, Shared};
use crate::cli::{inventory_registrations, registration_of, InventoryRegistration};
use crate::codecs::AudioFormat;
use crate::commands::{HandsetStatusMessage, PhoneCommand, PhoneCommandAction};
use crate::config;
use crate::controller;
use crate::ids::{CallId, DeviceId, PbxCallId};
use crate::lookup;
use crate::management::{
    self, handset_indication, handset_message, handset_of_call, replace_called_party,
    CalledPartyOverride, CalledPartyProviderError, ConnectedLineUpdate,
    FeatureControlProviderError, HandsetCall, HandsetCallIndication, HandsetProviderError,
};
use crate::model::PbxAudioFormat;
use crate::preferences::{
    self, audio_preference_policy, check_preferences, codec_preference_appearance,
    codec_preference_context, codec_preference_pbx_id, CodecPreferenceContext,
    CodecPreferenceProviderError,
};
use crate::queries::{
    self, channel_query_snapshot, channel_query_target, device_query_snapshot, line_query_snapshot,
    query_target, ChannelQuerySnapshot, ChannelQueryTarget, DeviceQuerySnapshot, LineQuerySnapshot,
    QueryTarget,
};
use crate::status::{
    self, status_snapshot, ConferenceRecord, RuntimeStatusSnapshot, StationStatistics,
};

verus! {

/// Answers what is configured and what runs.
#[derive(Clone, Copy, Debug, PartialEq, Eq)]
pub struct RuntimeInventoryProvider<'a> {
    pub shared: Option<&'a Shared>,
}

impl<'a> RuntimeInventoryProvider<'a> {
    /// How the stations registered; none where the driver has stopped.
    pub fn registrations(&self) -> (registrations: Option<Vec<InventoryRegistration>>)
        ensures
            match self.shared {
                Some(shared) => registrations matches Some(found) && found@
                    == shared.controller.registered@.map_values(registration_of()),
                None => registrations is None,
            },
    {
        match self.shared {
            Some(shared) => Some(inventory_registrations(&shared.controller)),
            None => None,
        }
    }

    /// What runs at this moment; none where the driver has stopped.
    pub fn snapshot(
        &self,
        conferences: &Vec<ConferenceRecord>,
        reports: &Vec<StationStatistics>,
    ) -> (snapshot: Option<RuntimeStatusSnapshot>)
        ensures
            match self.shared {
                None => snapshot is None,
                Some(shared) => snapshot matches Some(found) && (exists|
                    calls: Seq<u64>,
                    ids: Seq<u64>,
                | #[trigger]
                    status::shows_order(found, shared.controller, conferences@, calls, ids))
                    && found.media_statistics@ == reports@.map_values(
                    status::statistics_status(shared.controller),
                ),
            },
    {
        match self.shared {
            Some(shared) => Some(status_snapshot(&shared.controller, conferences, reports)),
            None => None,
        }
    }
}

/// Changes features of stations.
#[derive(Clone, Copy, Debug, PartialEq, Eq)]
pub struct RuntimeFeatureControlProvider<'a> {
    pub access: Option<&'a Access>,
}

impl<'a> RuntimeFeatureControlProvider<'a> {
    /// The running driver.
    pub fn access(&self) -> (access: Result<&'a Access, FeatureControlProviderError>)
        ensures
            access == match self.access {
                Some(access) => Ok::<&'a Access, FeatureControlProviderError>(access),
                None => Err(FeatureControlProviderError::Unavailable),
            },
    {
        match self.access {
            Some(access) => Ok(access),
            None => Err(FeatureControlProviderError::Unavailable),
        }
    }
}

impl Access {
    /// The door through which features are changed.
    pub fn feature_control_provider(&self) -> (provider: RuntimeFeatureControlProvider<'_>)
        ensures
            provider.access == Some(self),
    {
        RuntimeFeatureControlProvider { access: Some(self) }
    }
}

#[derive(Clone, Copy, Debug, PartialEq, Eq, Structural)]
pub enum DeviceQueryLookupError {
    Unavailable,
    CurrentDeviceUnavailable,
}

/// Answers what is known of stations.
#[derive(Clone, Copy, Debug, PartialEq, Eq)]
pub struct RuntimeDeviceQueryProvider<'a> {
    pub shared: Option<&'a Shared>,
}

pub open spec fn queried<T>(target: QueryTarget<T>, current: Option<T>) -> Option<T> {
    match target {
        QueryTarget::Named(named) => Some(named),
        QueryTarget::Current => current,
    }
}

impl<'a> RuntimeDeviceQueryProvider<'a> {
    /// What is known of a station: the named one, or that of the call whose channel
    /// asks.
    pub fn snapshot(&self, target: QueryTarget<DeviceId>, current: Option<DeviceId>) -> (snapshot:
        Result<Option<DeviceQuerySnapshot>, DeviceQueryLookupError>)
        requires
            self.shared matches Some(shared) && queried(target, current) matches Some(device)
                ==> queries::countable(*shared, device@),
        ensures
            match (self.shared, queried(target, current)) {
                (None, _) => snapshot matches Err(error) && error
                    == DeviceQueryLookupError::Unavailable,
                (Some(_), None) => snapshot matches Err(error) && error
                    == DeviceQueryLookupError::CurrentDeviceUnavailable,
                (Some(shared), Some(device)) => match snapshot {
                    Ok(Some(found)) => queries::describes_device(found, *shared, device),
                    Ok(None) => lookup::first(
                        shared.config.devices@,
                        config::is_device(device@),
                    ) is None && !shared.controller.registered_spec(device@),
                    Err(_) => false,
                },
            },
    {
        match self.shared {
            None => Err(DeviceQueryLookupError::Unavailable),
            Some(shared) => match query_target(target, current) {
                None => Err(DeviceQueryLookupError::CurrentDeviceUnavailable),
                Some(device) => Ok(device_query_snapshot(shared, &device)),
            },
        }
    }
}

#[derive(Clone, Copy, Debug, PartialEq, Eq, Structural)]
pub enum LineQueryLookupError {
    Unavailable,
    CurrentLineUnavailable,
}

/// Answers what is known of lines.
#[derive(Clone, Copy, Debug, PartialEq, Eq)]
pub struct RuntimeLineQueryProvider<'a> {
    pub shared: Option<&'a Shared>,
}

impl<'a> RuntimeLineQueryProvider<'a> {
    /// What is known of a line: the named one, or that of the call whose channel asks.
    pub fn snapshot(&self, target: QueryTarget<String>, current: Option<String>) -> (snapshot:
        Result<Option<LineQuerySnapshot>, LineQueryLookupError>)
        ensures
            match (self.shared, queried(target, current)) {
                (None, _) => snapshot matches Err(error) && error
                    == LineQueryLookupError::Unavailable,
                (Some(_), None) => snapshot matches Err(error) && error
                    == LineQueryLookupError::CurrentLineUnavailable,
                (Some(shared), Some(number)) => match lookup::first(
                    shared.config.lines@,
                    config::is_line(number@),
                ) {
                    None => snapshot matches Ok(None),
                    Some(line) => snapshot matches Ok(Some(found)) && queries::describes_line(
                        found,
                        *shared,
                        line,
                        number@,
                    ),
                },
            },
    {
        match self.shared {
            None => Err(LineQueryLookupError::Unavailable),
            Some(shared) => match query_target(target, current) {
                None => Err(LineQueryLookupError::CurrentLineUnavailable),
                Some(number) => Ok(line_query_snapshot(shared, number.as_str())),
            },
        }
    }
}

/// Answers what is known of calls.
#[derive(Clone, Copy, Debug, PartialEq, Eq)]
pub struct RuntimeChannelQueryProvider<'a> {
    pub shared: Option<&'a Shared>,
}

/// The call that a query is about, and the appearance that it names.
pub open spec fn queried_call(
    shared: Shared,
    target: ChannelQueryTarget,
    current: Option<PbxCallId>,
) -> Result<Option<(PbxCallId, Option<CallId>)>, ChannelQueryLookupError> {
    match target {
        ChannelQueryTarget::Current => match current {
            Some(pbx_id) => Ok(Some((pbx_id, None))),
            None => Err(ChannelQueryLookupError::CurrentChannelUnavailable),
        },
        ChannelQueryTarget::Pbx(pbx_id) => Ok(Some((pbx_id, None))),
        ChannelQueryTarget::Call(call_id) => match lookup::first(
            shared.controller.appearances@,
            controller::is_call(call_id),
        ) {
            Some(call) => Ok(Some((call.pbx_id, Some(call_id)))),
            None => Ok(None),
        },
        ChannelQueryTarget::Name(name) => match access::named_call_spec(shared, name@) {
            Ok(Some(pbx_id)) => Ok(Some((pbx_id, None))),
            Ok(None) => Ok(None),
            Err(error) => Err(error),
        },
    }
}

impl<'a> RuntimeChannelQueryProvider<'a> {
    /// What is known of a call.
    pub fn snapshot(
        &self,
        target: &ChannelQueryTarget,
        current: Option<PbxCallId>,
        formats: &Vec<AudioFormat>,
        packet_ms: u32,
    ) -> (snapshot: Result<Option<ChannelQuerySnapshot>, ChannelQueryLookupError>)
        ensures
            match self.shared {
                None => snapshot matches Err(error) && error
                    == ChannelQueryLookupError::Unavailable,
                Some(shared) => match queried_call(*shared, *target, current) {
                    Err(error) => snapshot matches Err(reported) && reported == error,
                    Ok(None) => snapshot matches Ok(None),
                    Ok(Some((pbx_id, selected))) => match lookup::first(
                        shared.controller.calls@,
                        controller::is_pbx_call(pbx_id),
                    ) {
                        None => snapshot matches Ok(None),
                        Some(call) => snapshot matches Ok(Some(found)) && found.pbx_id == pbx_id
                            && queries::describes_call(
                            found,
                            *shared,
                            call,
                            selected,
                            formats@,
                            packet_ms,
                        ),
                    },
                },
            },
    {
        let shared = match self.shared {
            Some(shared) => shared,
            None => {
                return Err(ChannelQueryLookupError::Unavailable);
            },
        };
        match channel_query_target(shared, target, current) {
            Err(error) => Err(error),
            Ok(None) => Ok(None),
            Ok(Some((pbx_id, selected))) => Ok(
                channel_query_snapshot(shared, pbx_id, selected, formats, packet_ms),
            ),
        }
    }
}

/// Reads and sets which formats a call prefers.
#[derive(Clone, Copy, Debug, PartialEq, Eq)]
pub struct RuntimeCodecPreferenceProvider<'a> {
    pub shared: Option<&'a Shared>,
}

impl<'a> RuntimeCodecPreferenceProvider<'a> {
    /// What the call of a channel may prefer, and what it prefers.
    pub fn context(&self, channel: Option<PbxCallId>, formats: &Vec<AudioFormat>, packet_ms: u32) -> (
    context: Result<CodecPreferenceContext, CodecPreferenceProviderError>)
        ensures
            match (self.shared, channel) {
                (None, _) => context matches Err(error) && error
                    == CodecPreferenceProviderError::Unavailable,
                (Some(_), None) => context matches Err(error) && error
                    == CodecPreferenceProviderError::NotDriverChannel,
                (Some(shared), Some(pbx_id)) => match preferences::context_spec(
                    *shared,
                    pbx_id,
                    formats@,
                    packet_ms,
                ) {
                    Ok((configured, effective)) => context matches Ok(found) && found.configured@
                        == configured && found.effective@ == effective,
                    Err(error) => context matches Err(reported) && reported == error,
                },
            },
    {
        let shared = match self.shared {
            Some(shared) => shared,
            None => {
                return Err(CodecPreferenceProviderError::Unavailable);
            },
        };
        match codec_preference_pbx_id(channel) {
            Err(error) => Err(error),
            Ok(pbx_id) => codec_preference_context(shared, pbx_id, formats, packet_ms),
        }
    }

    /// The format that a call is to be changed to, if its preferences may be replaced
    /// by these: they name formats that are configured for it, and at least one.
    pub fn replace(
        &self,
        channel: Option<PbxCallId>,
        wanted: &Vec<PbxAudioFormat>,
        formats: &Vec<AudioFormat>,
        packet_ms: u32,
    ) -> (format: Result<PbxAudioFormat, CodecPreferenceProviderError>)
        ensures
            format == match (self.shared, channel) {
                (None, _) => Err(CodecPreferenceProviderError::Unavailable),
                (Some(_), None) => Err(CodecPreferenceProviderError::NotDriverChannel),
                (Some(shared), Some(pbx_id)) => match preferences::context_spec(
                    *shared,
                    pbx_id,
                    formats@,
                    packet_ms,
                ) {
                    Err(error) => Err(error),
                    Ok((configured, _)) => if wanted@.len() > 0 && lookup::all(
                        wanted@,
                        preferences::is_among(configured),
                    ) {
                        Ok(wanted@[0])
                    } else {
                        Err(CodecPreferenceProviderError::FormatUnavailable)
                    },
                },
            },
    {
        let shared = match self.shared {
            Some(shared) => shared,
            None => {
                return Err(CodecPreferenceProviderError::Unavailable);
            },
        };
        let pbx_id = match codec_preference_pbx_id(channel) {
            Err(error) => {
                return Err(error);
            },
            Ok(pbx_id) => pbx_id,
        };
        let (device_id, line_instance) = match codec_preference_appearance(shared, pbx_id) {
            Err(error) => {
                return Err(error);
            },
            Ok(found) => found,
        };
        match audio_preference_policy(shared, device_id, line_instance, formats, packet_ms) {
            Err(error) => Err(error),
            Ok(policy) => check_preferences(&policy.configured, wanted),
        }
    }
}

/// Replaces the called party of a call.
#[derive(Clone, Copy, Debug, PartialEq, Eq)]
pub struct RuntimeCalledPartyProvider<'a> {
    pub shared: Option<&'a Shared>,
}

impl<'a> RuntimeCalledPartyProvider<'a> {
    /// What the switch is told of the party: `owned` is none for a channel that is
    /// not of the driver, and says whether its call still exists. How it ends, see
    /// [`crate::management::finish_called_party`].
    pub fn replace(&self, owned: Option<bool>, party: &CalledPartyOverride) -> (update: Result<
        ConnectedLineUpdate,
        CalledPartyProviderError,
    >)
        ensures
            update == match (self.shared, owned) {
                (None, _) => Err(CalledPartyProviderError::Unavailable),
                (Some(_), None) => Err(CalledPartyProviderError::NotDriverChannel),
                (Some(_), Some(false)) => Err(CalledPartyProviderError::Unavailable),
                (Some(_), Some(true)) => Ok(management::connected_line_spec(*party)),
            },
    {
        if self.shared.is_none() {
            return Err(CalledPartyProviderError::Unavailable);
        }
        replace_called_party(owned, party)
    }
}

/// Shows messages on the handset of a call.
#[derive(Clone, Copy, Debug, PartialEq, Eq)]
pub struct RuntimeHandsetMessageProvider<'a> {
    pub access: Option<&'a Access>,
}

impl<'a> RuntimeHandsetMessageProvider<'a> {
    /// The command that shows a message on the handset of a call.
    pub fn apply(
        &self,
        driver_channel: bool,
        call: Option<HandsetCall>,
        message: HandsetStatusMessage,
    ) -> (command: Result<PhoneCommand, HandsetProviderError>)
        ensures
            command == match self.access {
                None => Err(HandsetProviderError::Unavailable),
                Some(access) => match management::handset_spec(*access, driver_channel, call) {
                    Err(error) => Err(error),
                    Ok(call) => Ok(
                        PhoneCommand {
                            device_id: call.device_id,
                            action: PhoneCommandAction::SetStatusMessage { message, beep: false },
                        },
                    ),
                },
            },
    {
        match self.access {
            None => Err(HandsetProviderError::Unavailable),
            Some(access) => match handset_of_call(access, driver_channel, call) {
                Err(error) => Err(error),
                Ok(call) => Ok(handset_message(call, message)),
            },
        }
    }
}

/// Signals states to the handset of a call.
#[derive(Clone, Copy, Debug, PartialEq, Eq)]
pub struct RuntimeHandsetCallIndicationProvider<'a> {
    pub access: Option<&'a Access>,
}

impl<'a> RuntimeHandsetCallIndicationProvider<'a> {
    /// The commands that signal something to the handset of a call.
    pub fn apply(
        &self,
        driver_channel: bool,
        call: Option<HandsetCall>,
        indication: HandsetCallIndication,
    ) -> (commands: Result<Vec<PhoneCommand>, HandsetProviderError>)
        ensures
            match self.access {
                None => commands matches Err(error) && error == HandsetProviderError::Unavailable,
                Some(access) => match management::handset_spec(*access, driver_channel, call) {
                    Err(error) => commands matches Err(reported) && reported == error,
                    Ok(call) => commands matches Ok(sent) && sent@
                        == management::indication_commands(call, indication),
                },
            },
    {
        match self.access {
            None => Err(HandsetProviderError::Unavailable),
            Some(access) => match handset_of_call(access, driver_channel, call) {
                Err(error) => Err(error),
                Ok(call) => Ok(handset_indication(&call, indication)),
            },
        }
    }
}

/// A provider that outlives the driver says that it is unavailable, whatever it is
/// asked.
pub proof fn law_providers_without_a_driver_are_unavailable<'a>(
    party: CalledPartyOverride,
    owned: Option<bool>,
    driver_channel: bool,
    call: Option<HandsetCall>,
    message: HandsetStatusMessage,
    indication: HandsetCallIndication,
    registrations: Option<Vec<InventoryRegistration>>,
    access: Result<&'a Access, FeatureControlProviderError>,
    update: Result<ConnectedLineUpdate, CalledPartyProviderError>,
    command: Result<PhoneCommand, HandsetProviderError>,
    commands: Result<Vec<PhoneCommand>, HandsetProviderError>,
)
    requires
        call_ensures(
            RuntimeInventoryProvider::<'a>::registrations,
            (&(RuntimeInventoryProvider::<'a> { shared: None }),),
            registrations,
        ),
        call_ensures(
            RuntimeFeatureControlProvider::<'a>::access,
            (&(RuntimeFeatureControlProvider::<'a> { access: None }),),
            access,
        ),
        call_ensures(
            RuntimeCalledPartyProvider::<'a>::replace,
            (&(RuntimeCalledPartyProvider::<'a> { shared: None }), owned, &party),
            update,
        ),
        call_ensures(
            RuntimeHandsetMessageProvider::<'a>::apply,
            (
                &(RuntimeHandsetMessageProvider::<'a> { access: None }),
                driver_channel,
                call,
                message,
            ),
            command,
        ),
        call_ensures(
            RuntimeHandsetCallIndicationProvider::<'a>::apply,
            (
                &(RuntimeHandsetCallIndicationProvider::<'a> { access: None }),
                driver_channel,
                call,
                indication,
            ),
            commands,
        ),
    ensures
        registrations is None,
        access is Err,
        update == Err::<ConnectedLineUpdate, CalledPartyProviderError>(
            CalledPartyProviderError::Unavailable,
        ),
        command == Err::<PhoneCommand, HandsetProviderError>(HandsetProviderError::Unavailable),
        commands is Err,
{
}

/// A provider of a running driver does what the driver does: it addresses the
/// station of the call and passes every refusal on.
pub proof fn law_providers_pass_on_what_the_driver_does<'a>(
    access: &'a Access,
    driver_channel: bool,
    call: Option<HandsetCall>,
    message: HandsetStatusMessage,
    found: Result<HandsetCall, HandsetProviderError>,
    provider: RuntimeFeatureControlProvider<'a>,
    granted: Result<&'a Access, FeatureControlProviderError>,
    command: Result<PhoneCommand, HandsetProviderError>,
    owned: Option<bool>,
    party: CalledPartyOverride,
    plain: Result<ConnectedLineUpdate, CalledPartyProviderError>,
    update: Result<ConnectedLineUpdate, CalledPartyProviderError>,
)
    requires
        call_ensures(handset_of_call, (access, driver_channel, call), found),
        call_ensures(Access::feature_control_provider, (access,), provider),
        call_ensures(RuntimeFeatureControlProvider::<'a>::access, (&provider,), granted),
        call_ensures(
            RuntimeHandsetMessageProvider::<'a>::apply,
            (
                &(RuntimeHandsetMessageProvider::<'a> { access: Some(access) }),
                driver_channel,
                call,
                message,
            ),
            command,
        ),
        call_ensures(replace_called_party, (owned, &party), plain),
        call_ensures(
            RuntimeCalledPartyProvider::<'a>::replace,
            (
                &(RuntimeCalledPartyProvider::<'a> { shared: Some(&access.shared) }),
                owned,
                &party,
            ),
            update,
        ),
    ensures
        granted is Ok && *granted->Ok_0 == *access,
        command is Ok <==> found is Ok,
        command matches Ok(command) ==> command.device_id == found->Ok_0.device_id
            && command.action == (PhoneCommandAction::SetStatusMessage { message, beep: false }),
        found matches Err(error) ==> command == Err::<PhoneCommand, HandsetProviderError>(error),
        update == plain,
{
}

/// Preferences are answered for the channel of the driver, and accepted exactly if
/// something is wanted and all of it is configured; the first wish is what counts.
pub proof fn law_preferences_are_answered_for_their_channel<'a>(
    shared: &'a Shared,
    channel: Option<PbxCallId>,
    wanted: Vec<PbxAudioFormat>,
    formats: Vec<AudioFormat>,
    packet_ms: u32,
    context: Result<CodecPreferenceContext, CodecPreferenceProviderError>,
    format: Result<PbxAudioFormat, CodecPreferenceProviderError>,
)
    requires
        call_ensures(
            RuntimeCodecPreferenceProvider::<'a>::context,
            (
                &(RuntimeCodecPreferenceProvider::<'a> { shared: Some(shared) }),
                channel,
                &formats,
                packet_ms,
            ),
            context,
        ),
        call_ensures(
            RuntimeCodecPreferenceProvider::<'a>::replace,
            (
                &(RuntimeCodecPreferenceProvider::<'a> { shared: Some(shared) }),
                channel,
                &wanted,
                &formats,
                packet_ms,
            ),
            format,
        ),
    ensures
        channel is None ==> context == Err::<CodecPreferenceContext, CodecPreferenceProviderError>(
            CodecPreferenceProviderError::NotDriverChannel,
        ) && format == Err::<PbxAudioFormat, CodecPreferenceProviderError>(
            CodecPreferenceProviderError::NotDriverChannel,
        ),
        context matches Err(error) ==> format == Err::<PbxAudioFormat, CodecPreferenceProviderError>(
            error,
        ),
        context matches Ok(context) ==> {
            &&& format is Ok <==> wanted@.len() > 0 && forall|i: int|
                0 <= i < wanted@.len() ==> context.configured@.contains(#[trigger] wanted@[i])
            &&& format matches Ok(format) ==> format == wanted@[0]
            &&& format matches Err(error) ==> error
                == CodecPreferenceProviderError::FormatUnavailable
        },
{
    if let Ok(context) = context {
        let p = preferences::is_among(context.configured@);
        assert(lookup::all(wanted@, p) == forall|i: int|
            0 <= i < wanted@.len() ==> context.configured@.contains(#[trigger] wanted@[i])) by {
            assert forall|i: int| 0 <= i < wanted@.len() implies p(#[trigger] wanted@[i])
                == context.configured@.contains(wanted@[i]) by {}
        }
    }
}

/// A call is asked about under its own number, that of its appearance, its name or
/// as the current one; one that is not there is not found.
pub proof fn law_queries_find_the_call_they_name<'a>(
    shared: &'a Shared,
    pbx_id: PbxCallId,
    call_id: CallId,
    formats: Vec<AudioFormat>,
    packet_ms: u32,
    by_number: Result<Option<ChannelQuerySnapshot>, ChannelQueryLookupError>,
    current: Result<Option<ChannelQuerySnapshot>, ChannelQueryLookupError>,
    missing: Result<Option<ChannelQuerySnapshot>, ChannelQueryLookupError>,
    by_call: Result<Option<ChannelQuerySnapshot>, ChannelQueryLookupError>,
    a: int,
    c: int,
)
    requires
        call_ensures(
            RuntimeChannelQueryProvider::<'a>::snapshot,
            (
                &(RuntimeChannelQueryProvider::<'a> { shared: Some(shared) }),
                &ChannelQueryTarget::Pbx(pbx_id),
                None::<PbxCallId>,
                &formats,
                packet_ms,
            ),
            by_number,
        ),
        call_ensures(
            RuntimeChannelQueryProvider::<'a>::snapshot,
            (
                &(RuntimeChannelQueryProvider::<'a> { shared: Some(shared) }),
                &ChannelQueryTarget::Current,
                Some(pbx_id),
                &formats,
                packet_ms,
            ),
            current,
        ),
        call_ensures(
            RuntimeChannelQueryProvider::<'a>::snapshot,
            (
                &(RuntimeChannelQueryProvider::<'a> { shared: Some(shared) }),
                &ChannelQueryTarget::Current,
                None::<PbxCallId>,
                &formats,
                packet_ms,
            ),
            missing,
        ),
        call_ensures(
            RuntimeChannelQueryProvider::<'a>::snapshot,
            (
                &(RuntimeChannelQueryProvider::<'a> { shared: Some(shared) }),
                &ChannelQueryTarget::Call(call_id),
                None::<PbxCallId>,
                &formats,
                packet_ms,
            ),
            by_call,
        ),
        0 <= c <= shared.controller.calls@.len(),
        forall|j: int| 0 <= j < c ==> (#[trigger] shared.controller.calls@[j]).pbx_id != pbx_id,
        c < shared.controller.calls@.len() ==> shared.controller.calls@[c].pbx_id == pbx_id,
        0 <= a < shared.controller.appearances@.len(),
        shared.controller.appearances@[a].sccp_id == call_id,
        shared.controller.appearances@[a].pbx_id == pbx_id,
        forall|j: int|
            0 <= j < a ==> (#[trigger] shared.controller.appearances@[j]).sccp_id != call_id,
    ensures
        by_number is Ok && current is Ok && by_call is Ok,
        by_number->Ok_0 is Some <==> c < shared.controller.calls@.len(),
        current->Ok_0 is Some <==> c < shared.controller.calls@.len(),
        by_call->Ok_0 is Some <==> c < shared.controller.calls@.len(),
        by_number->Ok_0 matches Some(found) ==> found.pbx_id == pbx_id,
        current->Ok_0 matches Some(found) ==> found.pbx_id == pbx_id,
        by_call->Ok_0 matches Some(found) ==> found.pbx_id == pbx_id,
        missing matches Err(error) && error == ChannelQueryLookupError::CurrentChannelUnavailable,
{
    let p = controller::is_pbx_call(pbx_id);
    if c == shared.controller.calls@.len() {
        lookup::lemma_first_none(shared.controller.calls@, p);
    } else {
        lookup::lemma_first_is(shared.controller.calls@, p, c);
    }
    lookup::lemma_first_is(shared.controller.appearances@, controller::is_call(call_id), a);
}

/// Without a driver a query is unavailable, and one about what asks is, where that
/// is nothing, told so; every other query is answered, a named line exactly if it
/// is configured.
pub proof fn law_queries_are_answered_for_what_they_name<'a>(
    devices: RuntimeDeviceQueryProvider<'a>,
    lines: RuntimeLineQueryProvider<'a>,
    station: QueryTarget<DeviceId>,
    asking: Option<DeviceId>,
    line: QueryTarget<String>,
    calling: Option<String>,
    found: Result<Option<DeviceQuerySnapshot>, DeviceQueryLookupError>,
    told: Result<Option<LineQuerySnapshot>, LineQueryLookupError>,
)
    requires
        call_ensures(
            RuntimeDeviceQueryProvider::<'a>::snapshot,
            (&devices, station, asking),
            found,
        ),
        call_ensures(RuntimeLineQueryProvider::<'a>::snapshot, (&lines, line, calling), told),
    ensures
        found is Err <==> devices.shared is None || (station is Current && asking is None),
        found matches Err(error) ==> (error is Unavailable <==> devices.shared is None),
        found matches Ok(Some(described)) ==> (station matches QueryTarget::Named(named)
            ==> described.id == named) && (station is Current ==> asking == Some(described.id)),
        told is Err <==> lines.shared is None || (line is Current && calling is None),
        told matches Err(error) ==> (error is Unavailable <==> lines.shared is None),
        told matches Ok(Some(described)) ==> (line matches QueryTarget::Named(named)
            ==> described.number@ == named@),
{
    if let Ok(Some(described)) = told {
        if let Some(shared) = lines.shared {
            if let Some(number) = queried(line, calling) {
                lookup::lemma_first_at(shared.config.lines@, config::is_line(number@), 0);
            }
        }
    }
}

} // verus!
