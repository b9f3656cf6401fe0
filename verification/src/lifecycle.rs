//! Starting, reloading and stopping the driver, and the sockets that stations
//! connect to.

use vstd::prelude::*;
use vstd::string::*;

use crate::access::{self, Access};
use crate::collect::{any, find, select};
use crate::commands::{PhoneCommand, PhoneCommandAction};
use crate::config::{ConfigurationSource, DeviceConfig, ModuleConfig};
use crate::controller;
use crate::ids::{CallId, DeviceId, PbxCallId};
use crate::lookup;
use crate::mobility::{
    self, cancel_mobility_response, mobility_device_registered, CancelledResponse, StationTarget,
};
use crate::model::{self, DeviceFeatureState, DeviceFeatures, MobilityAppearance};
use crate::text::{self, decimal_text};

verus! {

/// Which stations fall back to the primary server.
#[derive(Clone, Copy, Debug, PartialEq, Eq, Structural)]
pub enum FallbackDecision {
    Reject,
    Accept,
    DeviceIdOdd,
    DeviceIdEven,
}

/// How a station that asks for a token is answered.
#[derive(Clone, Copy, Debug, PartialEq, Eq, Structural)]
pub enum RegistrationFallback {
    Reject,
    ReturnToPrimary,
    DeviceIdOdd,
    DeviceIdEven,
}

impl From<FallbackDecision> for RegistrationFallback {
    fn from(value: FallbackDecision) -> (fallback: Self) {
        match value {
            FallbackDecision::Reject => RegistrationFallback::Reject,
            FallbackDecision::Accept => RegistrationFallback::ReturnToPrimary,
            FallbackDecision::DeviceIdOdd => RegistrationFallback::DeviceIdOdd,
            FallbackDecision::DeviceIdEven => RegistrationFallback::DeviceIdEven,
        }
    }
}

impl vstd::std_specs::convert::FromSpecImpl<FallbackDecision> for RegistrationFallback {
    open spec fn obeys_from_spec() -> bool {
        true
    }

    open spec fn from_spec(value: FallbackDecision) -> Self {
        match value {
            FallbackDecision::Reject => RegistrationFallback::Reject,
            FallbackDecision::Accept => RegistrationFallback::ReturnToPrimary,
            FallbackDecision::DeviceIdOdd => RegistrationFallback::DeviceIdOdd,
            FallbackDecision::DeviceIdEven => RegistrationFallback::DeviceIdEven,
        }
    }
}

/// Which waiting call is answered first.
#[derive(Clone, Copy, Debug, PartialEq, Eq, Structural)]
pub enum CallAnswerOrder {
    OldestFirst,
    LastFirst,
}

#[derive(Clone, Copy, Debug, PartialEq, Eq, Structural)]
pub enum CallSelectionOrder {
    OldestFirst,
    LastFirst,
}

impl From<CallAnswerOrder> for CallSelectionOrder {
    fn from(value: CallAnswerOrder) -> (order: Self) {
        match value {
            CallAnswerOrder::OldestFirst => CallSelectionOrder::OldestFirst,
            CallAnswerOrder::LastFirst => CallSelectionOrder::LastFirst,
        }
    }
}

impl vstd::std_specs::convert::FromSpecImpl<CallAnswerOrder> for CallSelectionOrder {
    open spec fn obeys_from_spec() -> bool {
        true
    }

    open spec fn from_spec(value: CallAnswerOrder) -> Self {
        match value {
            CallAnswerOrder::OldestFirst => CallSelectionOrder::OldestFirst,
            CallAnswerOrder::LastFirst => CallSelectionOrder::LastFirst,
        }
    }
}

/// Both numbers of the call that a channel belongs to.
#[derive(Clone, Copy, Debug, PartialEq, Eq, Structural)]
pub struct ChannelState {
    pub pbx_id: PbxCallId,
    pub sccp_id: CallId,
}

/// The same as the switch keeps them.
#[derive(Clone, Copy, Debug, PartialEq, Eq, Structural)]
pub struct ChannelIdentity {
    pub pbx_id: u64,
    pub sccp_id: u64,
}

impl From<ChannelIdentity> for ChannelState {
    fn from(identity: ChannelIdentity) -> (state: Self) {
        ChannelState { pbx_id: PbxCallId(identity.pbx_id), sccp_id: CallId(identity.sccp_id) }
    }
}

impl vstd::std_specs::convert::FromSpecImpl<ChannelIdentity> for ChannelState {
    open spec fn obeys_from_spec() -> bool {
        true
    }

    open spec fn from_spec(identity: ChannelIdentity) -> Self {
        ChannelState { pbx_id: PbxCallId(identity.pbx_id), sccp_id: CallId(identity.sccp_id) }
    }
}

impl From<ChannelState> for ChannelIdentity {
    fn from(state: ChannelState) -> (identity: Self) {
        ChannelIdentity { pbx_id: state.pbx_id.0, sccp_id: state.sccp_id.0 }
    }
}

impl vstd::std_specs::convert::FromSpecImpl<ChannelState> for ChannelIdentity {
    open spec fn obeys_from_spec() -> bool {
        true
    }

    open spec fn from_spec(state: ChannelState) -> Self {
        ChannelIdentity { pbx_id: state.pbx_id.0, sccp_id: state.sccp_id.0 }
    }
}

/// How far an accepted connection came.
#[derive(Clone, Copy, Debug, PartialEq, Eq, Structural)]
pub enum AcceptedSocketStage {
    Accept,
    ConfigureNoDelay,
    InspectLocalAddress,
}

/// Why a connection of a station was not accepted.
pub fn accepted_socket_error(kind: &str, stage: AcceptedSocketStage, error: &str) -> (text: String)
    ensures
        text@ == match stage {
            AcceptedSocketStage::Accept => kind@ + " signaling listener failed: "@ + error@,
            AcceptedSocketStage::ConfigureNoDelay => "unable to configure "@ + kind@
                + " signaling socket: "@ + error@,
            AcceptedSocketStage::InspectLocalAddress => "unable to inspect "@ + kind@
                + " signaling socket: "@ + error@,
        },
{
    match stage {
        AcceptedSocketStage::Accept => {
            let mut text = kind.to_owned();
            text.append(" signaling listener failed: ");
            text.append(error);
            text
        },
        AcceptedSocketStage::ConfigureNoDelay => {
            let mut text = "unable to configure ".to_owned();
            text.append(kind);
            text.append(" signaling socket: ");
            text.append(error);
            text
        },
        AcceptedSocketStage::InspectLocalAddress => {
            let mut text = "unable to inspect ".to_owned();
            text.append(kind);
            text.append(" signaling socket: ");
            text.append(error);
            text
        },
    }
}

/// What accepting a connection came to: it was accepted, set up and inspected, in this
/// order, or the first of these that failed is reported.
pub fn accept_station_socket(
    kind: &str,
    accepted: Result<(), String>,
    no_delay: Result<(), String>,
    inspected: Result<(), String>,
) -> (result: Result<(), String>)
    ensures
        match (accepted, no_delay, inspected) {
            (Err(error), _, _) => result matches Err(text) && text@ == kind@
                + " signaling listener failed: "@ + error@,
            (Ok(_), Err(error), _) => result matches Err(text) && text@ == "unable to configure "@
                + kind@ + " signaling socket: "@ + error@,
            (Ok(_), Ok(_), Err(error)) => result matches Err(text) && text@ == "unable to inspect "@
                + kind@ + " signaling socket: "@ + error@,
            (Ok(_), Ok(_), Ok(_)) => result is Ok,
        },
{
    match accepted {
        Err(error) => {
            return Err(accepted_socket_error(kind, AcceptedSocketStage::Accept, error.as_str()));
        },
        Ok(_) => {},
    }
    match no_delay {
        Err(error) => {
            return Err(
                accepted_socket_error(kind, AcceptedSocketStage::ConfigureNoDelay, error.as_str()),
            );
        },
        Ok(_) => {},
    }
    match inspected {
        Err(error) => Err(
            accepted_socket_error(kind, AcceptedSocketStage::InspectLocalAddress, error.as_str()),
        ),
        Ok(_) => Ok(()),
    }
}

/// What binding the sockets came to: the clear one has to be bound, and so has the
/// secure one where it is configured.
pub fn bind_runtime_listeners(
    clear: Result<(), String>,
    secure: Option<Result<(), String>>,
) -> (bound: Result<bool, String>)
    ensures
        match (clear, secure) {
            (Err(error), _) => bound matches Err(text) && text@
                == "unable to bind clear signaling listener: "@ + error@,
            (Ok(_), Some(Err(error))) => bound matches Err(text) && text@
                == "unable to bind secure signaling listener: "@ + error@,
            (Ok(_), Some(Ok(_))) => bound matches Ok(secured) && secured,
            (Ok(_), None) => bound matches Ok(secured) && !secured,
        },
{
    match clear {
        Err(error) => {
            let mut text = "unable to bind clear signaling listener: ".to_owned();
            text.append(error.as_str());
            return Err(text);
        },
        Ok(_) => {},
    }
    match secure {
        None => Ok(false),
        Some(Ok(_)) => Ok(true),
        Some(Err(error)) => {
            let mut text = "unable to bind secure signaling listener: ".to_owned();
            text.append(error.as_str());
            Err(text)
        },
    }
}

pub open spec fn qos_warning(kind: Seq<char>, endpoint: Seq<char>) -> spec_fn(String) -> Seq<char> {
    |failure: String| kind + " signaling socket "@ + endpoint + ": "@ + failure@
}

/// What is reported of marks that a socket did not take.
pub fn report_socket_qos_failures(failures: &Vec<String>, kind: &str, endpoint: &str) -> (warnings:
    Vec<String>)
    ensures
        warnings@.map_values(|text: String| text@) == failures@.map_values(
            qos_warning(kind@, endpoint@),
        ),
{
    let ghost f = qos_warning(kind@, endpoint@);
    let mut warnings: Vec<String> = Vec::new();
    proof {
        assert(warnings@.map_values(|text: String| text@) =~= failures@.take(0).map_values(f));
    }
    let mut i: usize = 0;
    while i < failures.len()
        invariant
            f == qos_warning(kind@, endpoint@),
            0 <= i <= failures@.len(),
            warnings@.map_values(|text: String| text@) == failures@.take(i as int).map_values(f),
        decreases failures@.len() - i,
    {
        let mut text = kind.to_owned();
        text.append(" signaling socket ");
        text.append(endpoint);
        text.append(": ");
        text.append(failures[i].as_str());
        let ghost before = warnings@;
        warnings.push(text);
        proof {
            assert(warnings@.map_values(|text: String| text@) =~= before.map_values(
                |text: String| text@,
            ).push(f(failures@[i as int])));
            assert(failures@.take(i + 1).map_values(f) =~= failures@.take(i as int).map_values(
                f,
            ).push(f(failures@[i as int])));
        }
        i += 1;
    }
    proof {
        assert(failures@.take(i as int) =~= failures@);
    }
    warnings
}

/// How many secure connections may be set up at once.
pub const MAX_CONCURRENT_SECURE_HANDSHAKES: usize = 64;

/// Counts the secure connections that are being set up.
#[derive(Debug, PartialEq, Eq)]
pub struct SecureHandshakeLimiter {
    pub occupied: usize,
}

/// A limiter under which nothing is being set up.
pub fn secure_handshake_limiter() -> (limiter: SecureHandshakeLimiter)
    ensures
        limiter.wf(),
        limiter.occupied == 0,
{
    SecureHandshakeLimiter { occupied: 0 }
}

impl SecureHandshakeLimiter {
    pub open spec fn wf(self) -> bool {
        self.occupied <= MAX_CONCURRENT_SECURE_HANDSHAKES
    }

    /// How many more can be set up.
    pub fn available_permits(&self) -> (available: usize)
        requires
            self.wf(),
        ensures
            available == MAX_CONCURRENT_SECURE_HANDSHAKES - self.occupied,
    {
        MAX_CONCURRENT_SECURE_HANDSHAKES - self.occupied
    }

    /// Takes a place, if one is free.
    pub fn acquire(&mut self) -> (acquired: bool)
        requires
            old(self).wf(),
        ensures
            final(self).wf(),
            acquired == (old(self).occupied < MAX_CONCURRENT_SECURE_HANDSHAKES),
            final(self).occupied == old(self).occupied + if acquired {
                1int
            } else {
                0
            },
    {
        if self.occupied < MAX_CONCURRENT_SECURE_HANDSHAKES {
            self.occupied = self.occupied + 1;
            true
        } else {
            false
        }
    }

    /// Gives a place back.
    pub fn release(&mut self)
        requires
            old(self).wf(),
            old(self).occupied > 0,
        ensures
            final(self).wf(),
            final(self).occupied == old(self).occupied - 1,
    {
        self.occupied = self.occupied - 1;
    }
}

/// What the switch tells a call.
#[derive(Clone, Copy, Debug, PartialEq, Eq, Structural)]
pub enum RuntimeCallSignalKind {
    StopTone,
    Answer,
    Hangup { handset_call_id: CallId },
    Proceeding,
    Ringing,
    Progress,
    Busy,
    Congestion,
    VideoUpdate,
    PartyUpdate,
}

/// A signal with its place in the order.
#[derive(Clone, Copy, Debug, PartialEq, Eq, Structural)]
pub struct RuntimeCallSignal {
    pub sequence: u64,
    pub pbx_id: PbxCallId,
    pub kind: RuntimeCallSignalKind,
}

/// A signal did not reach its call.
#[derive(Clone, Copy, Debug, PartialEq, Eq, Structural)]
pub struct RuntimeCallSignalDeliveryError;

/// How a signal is delivered.
#[derive(Clone, Copy, Debug, PartialEq, Eq, Structural)]
pub enum CallSignalDelivery {
    /// The call has no channel.
    NoChannel,
    /// The last signal of a call: it is kept for it whatever else waits.
    Retire,
    /// Into the queue of the call, if there is room.
    TrySend,
}

pub open spec fn delivery_spec(access: Access, pbx_id: PbxCallId, kind: RuntimeCallSignalKind) ->
    CallSignalDelivery {
    if lookup::first(access.shared.channels@, access::channel_of(pbx_id)) is None {
        CallSignalDelivery::NoChannel
    } else if kind is Hangup {
        CallSignalDelivery::Retire
    } else {
        CallSignalDelivery::TrySend
    }
}

impl Access {
    /// How a signal reaches its call.
    pub fn enqueue_call_signal_inner(&self, pbx_id: PbxCallId, kind: RuntimeCallSignalKind) -> (
    delivery: CallSignalDelivery)
        ensures
            delivery == delivery_spec(*self, pbx_id, kind),
    {
        if access::channel_binding(self, pbx_id).is_none() {
            return CallSignalDelivery::NoChannel;
        }
        match kind {
            RuntimeCallSignalKind::Hangup { .. } => CallSignalDelivery::Retire,
            _ => CallSignalDelivery::TrySend,
        }
    }

    /// Whether a signal was delivered; `accepted` says whether the queue of the call
    /// had room for it.
    pub fn enqueue_call_signal(
        &self,
        pbx_id: PbxCallId,
        kind: RuntimeCallSignalKind,
        accepted: bool,
    ) -> (delivered: bool)
        ensures
            delivered == match delivery_spec(*self, pbx_id, kind) {
                CallSignalDelivery::NoChannel => false,
                CallSignalDelivery::Retire => true,
                CallSignalDelivery::TrySend => accepted,
            },
    {
        match self.enqueue_call_signal_inner(pbx_id, kind) {
            CallSignalDelivery::NoChannel => false,
            CallSignalDelivery::Retire => true,
            CallSignalDelivery::TrySend => accepted,
        }
    }

    /// Whether the answer to a call was delivered, so that its outcome can be waited
    /// for.
    pub fn enqueue_confirmed_answer_signal(&self, pbx_id: PbxCallId, accepted: bool) -> (delivered:
        bool)
        ensures
            delivered == (accepted && lookup::first(
                self.shared.channels@,
                access::channel_of(pbx_id),
            ) is Some),
    {
        self.enqueue_call_signal(pbx_id, RuntimeCallSignalKind::Answer, accepted)
    }
}

impl Access {
    /// What is written to the log about a command that no handset will get.
    pub fn spawn_phone(&self, queued: Result<(), String>) -> (warning: Option<String>)
        ensures
            match queued {
                Ok(_) => warning is None,
                Err(error) => warning matches Some(text) && text@
                    == "unable to enqueue SCCP command: "@ + error@,
            },
    {
        match queued {
            Ok(_) => None,
            Err(error) => Some(words("unable to enqueue SCCP command: ", error.as_str())),
        }
    }
}

/// The place of the configuration: one that the environment names, else a file in
/// the directory of the switch or in the usual one.
pub open spec fn config_path_spec(named: Option<Seq<char>>, directory: Option<Seq<char>>) -> Seq<
    char,
> {
    match named {
        Some(path) => path,
        None => match directory {
            Some(directory) => if directory.len() == 0 || directory.last() == '/' {
                directory + "sccp.conf"@
            } else {
                directory + "/"@ + "sccp.conf"@
            },
            None => "/etc/asterisk/sccp.conf"@,
        },
    }
}

/// Where the configuration is read from.
pub fn config_path(named: Option<&str>, directory: Option<&str>) -> (path: String)
    ensures
        path@ == config_path_spec(
            match named {
                Some(named) => Some(named@),
                None => None,
            },
            match directory {
                Some(directory) => Some(directory@),
                None => None,
            },
        ),
{
    match named {
        Some(path) => {
            return path.to_owned();
        },
        None => {},
    }
    match directory {
        Some(directory) => {
            let mut path = directory.to_owned();
            let length: usize = directory.unicode_len();
            if length > 0 && directory.get_char(length - 1) != '/' {
                path.append("/");
            }
            path.append("sccp.conf");
            path
        },
        None => "/etc/asterisk/sccp.conf".to_owned(),
    }
}

/// The parts of the configuration that are read again.
#[derive(Debug, PartialEq, Eq)]
pub enum ReloadSelection {
    Complete,
    Device(DeviceId),
    Line(String),
}

/// What set a reload off.
#[derive(Clone, Copy, Debug, PartialEq, Eq, Structural)]
pub enum ConfigReconciliationTrigger {
    Reload,
    /// A change of the stored objects.
    Observed(u64),
}

/// A reload that is to be carried out.
#[derive(Debug, PartialEq, Eq)]
pub struct ReloadRequest {
    pub selection: ReloadSelection,
    /// How it came about, where its outcome is published.
    pub published: Option<ConfigReconciliationTrigger>,
}

/// Reloads everything.
pub fn reload(access: &Access) -> (request: ReloadRequest)
    ensures
        request == (ReloadRequest {
            selection: ReloadSelection::Complete,
            published: if access.shared.config.general.configuration_source
                == ConfigurationSource::Sorcery {
                Some(ConfigReconciliationTrigger::Reload)
            } else {
                None
            },
        }),
{
    reload_selected(access, ReloadSelection::Complete)
}

/// Reloads a part of the configuration. The outcome is published where the
/// configuration comes from stored objects.
pub fn reload_selected(access: &Access, selection: ReloadSelection) -> (request: ReloadRequest)
    ensures
        request == (ReloadRequest {
            selection,
            published: if access.shared.config.general.configuration_source
                == ConfigurationSource::Sorcery {
                Some(ConfigReconciliationTrigger::Reload)
            } else {
                None
            },
        }),
{
    let published = if access.shared.config.general.configuration_source
        == ConfigurationSource::Sorcery {
        Some(ConfigReconciliationTrigger::Reload)
    } else {
        None
    };
    ReloadRequest { selection, published }
}

/// Reloads everything because stored objects changed.
pub fn reload_sorcery(trigger: ConfigReconciliationTrigger) -> (request: ReloadRequest)
    ensures
        request == (ReloadRequest {
            selection: ReloadSelection::Complete,
            published: Some(trigger),
        }),
{
    ReloadRequest { selection: ReloadSelection::Complete, published: Some(trigger) }
}

/// What differs between the running configuration and the next one.
#[derive(Debug, PartialEq, Eq)]
pub struct ReloadPlan {
    /// Settings that only a restart changes.
    pub restart_required: Vec<String>,
    /// Stations that changed or were removed.
    pub affected: Vec<DeviceId>,
    pub added: Vec<DeviceId>,
    pub mwi_add: Vec<String>,
    pub mwi_remove: Vec<String>,
}

pub open spec fn is_named(device: Seq<char>) -> spec_fn(DeviceId) -> bool {
    |other: DeviceId| other@ == device
}

pub open spec fn unaffected(plan: ReloadPlan) -> spec_fn(DeviceId) -> bool {
    |device: DeviceId| !lookup::some(plan.affected@, is_named(device@))
}

/// The stations that the transport defines anew: those affected, then those added.
pub fn reconfigured_devices(plan: &ReloadPlan) -> (devices: Vec<DeviceId>)
    ensures
        devices@ == plan.affected@ + plan.added@,
{
    let mut devices = copied_devices(&plan.affected);
    let ghost affected = devices@;
    let mut i: usize = 0;
    while i < plan.added.len()
        invariant
            0 <= i <= plan.added@.len(),
            affected == plan.affected@,
            devices@ == affected + plan.added@.take(i as int),
        decreases plan.added@.len() - i,
    {
        devices.push(plan.added[i].clone());
        proof {
            assert(devices@ =~= affected + plan.added@.take(i + 1));
        }
        i += 1;
    }
    proof {
        assert(plan.added@.take(i as int) =~= plan.added@);
    }
    devices
}

fn copied_devices(devices: &Vec<DeviceId>) -> (copy: Vec<DeviceId>)
    ensures
        copy@ == devices@,
{
    let mut copy: Vec<DeviceId> = Vec::new();
    let mut i: usize = 0;
    while i < devices.len()
        invariant
            0 <= i <= devices@.len(),
            copy@ == devices@.take(i as int),
        decreases devices@.len() - i,
    {
        copy.push(devices[i].clone());
        i += 1;
    }
    assert(devices@.take(i as int) =~= devices@);
    copy
}

/// The stations that stay registered across a reload.
pub fn registered_after(plan: &ReloadPlan, registered: &Vec<DeviceId>) -> (kept: Vec<DeviceId>)
    ensures
        kept@ == registered@.filter(unaffected(*plan)),
{
    let ghost p = unaffected(*plan);
    let mut kept: Vec<DeviceId> = Vec::new();
    proof {
        assert(registered@.take(0).filter(p) =~= Seq::empty()) by {
            reveal(Seq::filter);
        }
    }
    let mut i: usize = 0;
    while i < registered.len()
        invariant
            p == unaffected(*plan),
            0 <= i <= registered@.len(),
            kept@ == registered@.take(i as int).filter(p),
        decreases registered@.len() - i,
    {
        proof {
            lookup::lemma_filter_step(registered@, p, i as int);
        }
        let device = &registered[i];
        let affected = any(
            &plan.affected,
            |other: &DeviceId| -> (found: bool)
                ensures
                    found == (other@ == device@)
                { other.same(device) },
            Ghost(is_named(device@)),
        );
        if !affected {
            kept.push(device.clone());
        }
        i += 1;
    }
    proof {
        assert(registered@.take(i as int) =~= registered@);
    }
    kept
}

fn copied_lines(lines: &Vec<String>) -> (copy: Vec<String>)
    ensures
        copy@ == lines@,
{
    let mut copy: Vec<String> = Vec::new();
    let mut i: usize = 0;
    while i < lines.len()
        invariant
            0 <= i <= lines@.len(),
            copy@ == lines@.take(i as int),
        decreases lines@.len() - i,
    {
        copy.push(lines[i].clone());
        i += 1;
    }
    assert(lines@.take(i as int) =~= lines@);
    copy
}

/// The same stations with the same features.
pub open spec fn same_states(left: Seq<DeviceFeatures>, right: Seq<DeviceFeatures>) -> bool {
    &&& left.len() == right.len()
    &&& forall|i: int|
        0 <= i < left.len() ==> (#[trigger] left[i]).device_id == right[i].device_id
            && model::same_features(left[i].state, right[i].state)
}

fn copied_states(states: &Vec<DeviceFeatures>) -> (copy: Vec<DeviceFeatures>)
    ensures
        same_states(copy@, states@),
{
    let mut copy: Vec<DeviceFeatures> = Vec::new();
    let mut i: usize = 0;
    while i < states.len()
        invariant
            0 <= i <= states@.len(),
            same_states(copy@, states@.take(i as int)),
        decreases states@.len() - i,
    {
        let ghost before = copy@;
        copy.push(
            DeviceFeatures {
                device_id: states[i].device_id.clone(),
                state: states[i].state.clone(),
            },
        );
        proof {
            assert forall|j: int| 0 <= j < copy@.len() implies (#[trigger] copy@[j]).device_id
                == states@.take(i + 1)[j].device_id && model::same_features(
                copy@[j].state,
                states@.take(i + 1)[j].state,
            ) by {
                if j < i {
                    assert(copy@[j] == before[j]);
                    assert(states@.take(i + 1)[j] == states@.take(i as int)[j]);
                }
            }
        }
        i += 1;
    }
    assert(states@.take(i as int) =~= states@);
    copy
}

/// What a reload works with once its extensions are prepared: what differs, the
/// features that the store holds for the next configuration, and the stations
/// that were registered.
#[derive(Debug, PartialEq, Eq)]
pub struct ReloadWork {
    pub plan: ReloadPlan,
    pub current: Vec<DeviceFeatures>,
    pub registered: Vec<DeviceId>,
}

/// Where a reload stands.
#[derive(Debug, PartialEq, Eq)]
pub enum ReloadState {
    /// The configuration is locked.
    Beginning,
    /// The next configuration is read.
    Refreshing,
    /// The next do-not-disturb rules are prepared.
    StagingSchedules,
    /// The two configurations are compared.
    Planning,
    /// The features of stations are read.
    LoadingFeatures { plan: ReloadPlan },
    /// Mailbox subscriptions are prepared.
    StagingMwi { plan: ReloadPlan, current: Vec<DeviceFeatures> },
    /// Extensions of registered stations are prepared.
    StagingContexts(ReloadWork),
    /// The line of anonymous stations is worked out.
    DefiningHotline(ReloadWork),
    /// The transport defines stations anew.
    Reconfiguring(ReloadWork),
    /// The transport refused; the extensions are put back.
    AbortingDefinitions { refused: String },
    /// The controller takes the new policy over.
    Committing(ReloadWork),
    /// The controller refused; the former line of anonymous stations is worked out.
    DefiningFormerHotline { plan: ReloadPlan, failed: String },
    /// The transport defines the former stations again.
    RollingBack { failed: String },
    /// The extensions are put back.
    AbortingCommit { failed: String, handsets: bool },
    /// The extensions are taken over.
    CommittingContexts(AppliedReload),
    /// Everything else follows.
    Applying { registration: Option<String> },
    Done,
}

/// A new configuration that the controller took over: the stations that it kept
/// registered, their features before, and those that the store holds.
#[derive(Debug, PartialEq, Eq)]
pub struct AppliedReload {
    pub plan: ReloadPlan,
    pub registered: Vec<DeviceId>,
    pub previous: Vec<DeviceFeatures>,
    pub current: Vec<DeviceFeatures>,
}

/// What came back.
#[derive(Debug, PartialEq, Eq)]
pub enum ReloadReply {
    /// The step succeeded, or failed with these words.
    Step(Result<(), String>),
    Planned {
        plan: ReloadPlan,
        /// What speaks against reloading just the selected part.
        selection: Result<(), String>,
        mobility_pending: bool,
    },
    /// The features that the store holds for the next configuration.
    Loaded(Result<Vec<DeviceFeatures>, String>),
    /// The subscriptions are prepared; these stations are registered now.
    MwiStaged(Result<Vec<DeviceId>, String>),
    /// The stations that the controller kept registered, and the features of
    /// before.
    Committed(Result<(Vec<DeviceId>, Vec<DeviceFeatures>), String>),
}

/// What a reload asks for.
#[derive(Debug, PartialEq, Eq)]
pub enum ReloadAction {
    Begin,
    Refresh,
    StageSchedules,
    Plan,
    LoadFeatures,
    /// Subscribe to what is new.
    StageMwi { added: Vec<String> },
    /// Prepare the extensions of the next configuration for the stations that
    /// stay registered, and keep those of the former one for all that were.
    StageContexts { registered_after: Vec<DeviceId>, registered_before: Vec<DeviceId> },
    DefineHotline,
    /// Have the transport take the next definitions and register these stations
    /// anew.
    Reconfigure { devices: Vec<DeviceId> },
    AbortContexts,
    /// Have the controller take the next policy over.
    Commit { features: Vec<DeviceFeatures>, registered: Vec<DeviceId> },
    DefineFormerHotline,
    /// Have the transport take the former definitions back for these stations.
    ReconfigureFormer { devices: Vec<DeviceId> },
    /// Take the extensions over; those of these stations wait for them to register.
    CommitContexts { affected: Vec<DeviceId> },
    /// Carry out the tasks of the reload, in order: see [`reload_tasks`].
    Apply(AppliedReload),
    /// Give up what was prepared and report.
    Fail { error: String, cancel_mwi: bool, abort_contexts: bool },
    Succeed,
}

/// The action reports these words and gives up exactly this.
pub open spec fn fails_with(
    action: ReloadAction,
    words: Seq<char>,
    cancels: bool,
    aborts: bool,
) -> bool {
    match action {
        ReloadAction::Fail { error, cancel_mwi, abort_contexts } => error@ == words && cancel_mwi
            == cancels && abort_contexts == aborts,
        _ => false,
    }
}

pub open spec fn truth(value: bool) -> Seq<char> {
    if value {
        "true"@
    } else {
        "false"@
    }
}

/// One step of a reload.
pub open spec fn reload_step(
    state: ReloadState,
    reply: ReloadReply,
    next: ReloadState,
    action: ReloadAction,
) -> bool {
    match (state, reply) {
        (ReloadState::Beginning, ReloadReply::Step(Ok(_))) => next is Refreshing && action
            is Refresh,
        (ReloadState::Beginning, ReloadReply::Step(Err(error))) => next is Done && fails_with(
            action,
            error@,
            false,
            false,
        ),
        (ReloadState::Refreshing, ReloadReply::Step(Ok(_))) => next is StagingSchedules && action
            is StageSchedules,
        (ReloadState::Refreshing, ReloadReply::Step(Err(error))) => next is Done && fails_with(
            action,
            error@,
            false,
            false,
        ),
        (ReloadState::StagingSchedules, ReloadReply::Step(Ok(_))) => next is Planning && action
            is Plan,
        (ReloadState::StagingSchedules, ReloadReply::Step(Err(error))) => next is Done
            && fails_with(action, error@, false, false),
        (
            ReloadState::Planning,
            ReloadReply::Planned { plan, selection, mobility_pending },
        ) => match selection {
            Err(error) => next is Done && fails_with(action, error@, false, false),
            Ok(_) => if plan.restart_required@.len() > 0 {
                next is Done && fails_with(
                    action,
                    text::joined(plan.restart_required@, ", "@)
                        + " changes require a module restart"@,
                    false,
                    false,
                )
            } else if mobility_pending {
                next is Done && fails_with(
                    action,
                    "a mobility mutation is in progress; retry reload"@,
                    false,
                    false,
                )
            } else {
                next == (ReloadState::LoadingFeatures { plan }) && action is LoadFeatures
            },
        },
        (ReloadState::LoadingFeatures { plan }, ReloadReply::Loaded(Ok(current))) => {
            &&& next == (ReloadState::StagingMwi { plan, current })
            &&& action matches ReloadAction::StageMwi { added }
            &&& added@ == plan.mwi_add@
        },
        (ReloadState::LoadingFeatures { .. }, ReloadReply::Loaded(Err(error))) => next is Done
            && fails_with(
            action,
            "unable to restore reloaded feature state: "@ + error@,
            false,
            false,
        ),
        (ReloadState::StagingMwi { plan, current }, ReloadReply::MwiStaged(Ok(registered))) => {
            &&& next == ReloadState::StagingContexts(ReloadWork { plan, current, registered })
            &&& action matches ReloadAction::StageContexts { registered_after, registered_before }
            &&& registered_after@ == registered@.filter(unaffected(plan))
            &&& registered_before@ == registered@
        },
        (ReloadState::StagingMwi { .. }, ReloadReply::MwiStaged(Err(error))) => next is Done
            && fails_with(action, error@, false, false),
        (ReloadState::StagingContexts(work), ReloadReply::Step(Ok(_))) => next
            == ReloadState::DefiningHotline(work) && action is DefineHotline,
        (ReloadState::StagingContexts(_), ReloadReply::Step(Err(error))) => next is Done
            && fails_with(
            action,
            "unable to apply registration-context extensions: "@ + error@,
            true,
            false,
        ),
        (ReloadState::DefiningHotline(work), ReloadReply::Step(Ok(_))) => {
            &&& next == ReloadState::Reconfiguring(work)
            &&& action matches ReloadAction::Reconfigure { devices }
            &&& devices@ == work.plan.affected@ + work.plan.added@
        },
        (ReloadState::DefiningHotline(_), ReloadReply::Step(Err(error))) => next is Done
            && fails_with(action, error@, true, true),
        (ReloadState::Reconfiguring(work), ReloadReply::Step(Ok(_))) => {
            &&& next == ReloadState::Committing(work)
            &&& action matches ReloadAction::Commit { features, registered }
            &&& same_states(features@, work.current@)
            &&& registered@ == work.registered@.filter(unaffected(work.plan))
        },
        (ReloadState::Reconfiguring(_), ReloadReply::Step(Err(error))) => next == (
        ReloadState::AbortingDefinitions { refused: error }) && action is AbortContexts,
        (ReloadState::AbortingDefinitions { refused }, ReloadReply::Step(Ok(_))) => next is Done
            && fails_with(
            action,
            "unable to apply SCCP definitions: "@ + refused@,
            true,
            false,
        ),
        (ReloadState::AbortingDefinitions { refused }, ReloadReply::Step(Err(_))) => next is Done
            && fails_with(
            action,
            "unable to apply SCCP definitions: "@ + refused@
                + "; registration-context rollback failed"@,
            true,
            false,
        ),
        (
            ReloadState::Committing(work),
            ReloadReply::Committed(Ok((registered, previous))),
        ) => {
            &&& next == ReloadState::CommittingContexts(
                AppliedReload { plan: work.plan, registered, previous, current: work.current },
            )
            &&& action matches ReloadAction::CommitContexts { affected }
            &&& affected@ == work.plan.affected@
        },
        (ReloadState::Committing(work), ReloadReply::Committed(Err(error))) => next == (
        ReloadState::DefiningFormerHotline { plan: work.plan, failed: error }) && action
            is DefineFormerHotline,
        (ReloadState::DefiningFormerHotline { plan, failed }, ReloadReply::Step(Ok(_))) => {
            &&& next == (ReloadState::RollingBack { failed })
            &&& action matches ReloadAction::ReconfigureFormer { devices }
            &&& devices@ == plan.affected@ + plan.added@
        },
        (ReloadState::DefiningFormerHotline { .. }, ReloadReply::Step(Err(error))) => next is Done
            && fails_with(action, error@, true, true),
        (ReloadState::RollingBack { failed }, ReloadReply::Step(outcome)) => next == (
        ReloadState::AbortingCommit { failed, handsets: outcome is Ok }) && action
            is AbortContexts,
        (ReloadState::AbortingCommit { failed, handsets }, ReloadReply::Step(outcome)) => next
            is Done && fails_with(
            action,
            "controller reload commit failed: "@ + failed@ + "; handset rollback: "@ + truth(
                handsets,
            ) + "; registration rollback: "@ + truth(outcome is Ok),
            true,
            false,
        ),
        (ReloadState::CommittingContexts(applied), ReloadReply::Step(outcome)) => next == (
        ReloadState::Applying {
            registration: match outcome {
                Ok(_) => None,
                Err(error) => Some(error),
            },
        }) && action == ReloadAction::Apply(applied),
        (ReloadState::Applying { registration }, ReloadReply::Step(_)) => next is Done
            && match registration {
            Some(error) => fails_with(
                action,
                "configuration applied, but registration-context owner failed during commit: "@
                    + error@,
                false,
                false,
            ),
            None => action is Succeed,
        },
        _ => next is Done && fails_with(
            action,
            "the reload is over"@,
            reload_staged(state).0,
            reload_staged(state).1,
        ),
    }
}

/// What is prepared while a reload stands somewhere: mailbox subscriptions, and
/// extensions.
pub open spec fn reload_staged(state: ReloadState) -> (bool, bool) {
    match state {
        ReloadState::Beginning
        | ReloadState::Refreshing
        | ReloadState::StagingSchedules
        | ReloadState::Planning
        | ReloadState::LoadingFeatures { .. }
        | ReloadState::StagingMwi { .. }
        | ReloadState::Applying { .. }
        | ReloadState::Done => (false, false),
        ReloadState::StagingContexts(_) => (true, false),
        _ => (true, true),
    }
}

fn staged_now(state: &ReloadState) -> (staged: (bool, bool))
    ensures
        staged == reload_staged(*state),
{
    match state {
        ReloadState::Beginning
        | ReloadState::Refreshing
        | ReloadState::StagingSchedules
        | ReloadState::Planning
        | ReloadState::LoadingFeatures { .. }
        | ReloadState::StagingMwi { .. }
        | ReloadState::Applying { .. }
        | ReloadState::Done => (false, false),
        ReloadState::StagingContexts(_) => (true, false),
        _ => (true, true),
    }
}

fn fail(error: String, cancel_mwi: bool, abort_contexts: bool) -> (step: (ReloadState, ReloadAction))
    ensures
        step.0 is Done,
        fails_with(step.1, error@, cancel_mwi, abort_contexts),
{
    (ReloadState::Done, ReloadAction::Fail { error, cancel_mwi, abort_contexts })
}

fn words(prefix: &str, reason: &str) -> (text: String)
    ensures
        text@ == prefix@ + reason@,
{
    let mut text = prefix.to_owned();
    text.append(reason);
    text
}

fn truth_text(value: bool) -> (text: &'static str)
    ensures
        text@ == truth(value),
{
    if value {
        "true"
    } else {
        "false"
    }
}

/// Where a reload begins.
pub fn begin_reload() -> (step: (ReloadState, ReloadAction))
    ensures
        step.0 is Beginning,
        step.1 is Begin,
{
    (ReloadState::Beginning, ReloadAction::Begin)
}

/// Goes on with a reload. Everything that can fail is prepared first; what was
/// prepared is given up again where a later step fails.
pub fn reload_selected_inner(state: ReloadState, reply: ReloadReply) -> (step: (
    ReloadState,
    ReloadAction,
))
    ensures
        reload_step(state, reply, step.0, step.1),
{
    let (cancel_mwi, abort_contexts) = staged_now(&state);
    match (state, reply) {
        (ReloadState::Beginning, ReloadReply::Step(outcome)) => match outcome {
            Ok(_) => (ReloadState::Refreshing, ReloadAction::Refresh),
            Err(error) => fail(error, false, false),
        },
        (ReloadState::Refreshing, ReloadReply::Step(outcome)) => match outcome {
            Ok(_) => (ReloadState::StagingSchedules, ReloadAction::StageSchedules),
            Err(error) => fail(error, false, false),
        },
        (ReloadState::StagingSchedules, ReloadReply::Step(outcome)) => match outcome {
            Ok(_) => (ReloadState::Planning, ReloadAction::Plan),
            Err(error) => fail(error, false, false),
        },
        (
            ReloadState::Planning,
            ReloadReply::Planned { plan, selection, mobility_pending },
        ) => {
            match selection {
                Err(error) => {
                    return fail(error, false, false);
                },
                Ok(_) => {},
            }
            if plan.restart_required.len() > 0 {
                let mut error = text::join(&plan.restart_required, ", ");
                error.append(" changes require a module restart");
                return fail(error, false, false);
            }
            if mobility_pending {
                return fail(
                    "a mobility mutation is in progress; retry reload".to_owned(),
                    false,
                    false,
                );
            }
            (ReloadState::LoadingFeatures { plan }, ReloadAction::LoadFeatures)
        },
        (ReloadState::LoadingFeatures { plan }, ReloadReply::Loaded(outcome)) => match outcome {
            Ok(current) => {
                let added = copied_lines(&plan.mwi_add);
                (ReloadState::StagingMwi { plan, current }, ReloadAction::StageMwi { added })
            },
            Err(error) => fail(
                words("unable to restore reloaded feature state: ", error.as_str()),
                false,
                false,
            ),
        },
        (ReloadState::StagingMwi { plan, current }, ReloadReply::MwiStaged(outcome)) => {
            match outcome {
                Ok(registered) => {
                    let action = ReloadAction::StageContexts {
                        registered_after: registered_after(&plan, &registered),
                        registered_before: copied_devices(&registered),
                    };
                    (
                        ReloadState::StagingContexts(ReloadWork { plan, current, registered }),
                        action,
                    )
                },
                Err(error) => fail(error, false, false),
            }
        },
        (ReloadState::StagingContexts(work), ReloadReply::Step(outcome)) => match outcome {
            Ok(_) => (ReloadState::DefiningHotline(work), ReloadAction::DefineHotline),
            Err(error) => fail(
                words("unable to apply registration-context extensions: ", error.as_str()),
                true,
                false,
            ),
        },
        (ReloadState::DefiningHotline(work), ReloadReply::Step(outcome)) => match outcome {
            Ok(_) => {
                let devices = reconfigured_devices(&work.plan);
                (ReloadState::Reconfiguring(work), ReloadAction::Reconfigure { devices })
            },
            Err(error) => fail(error, true, true),
        },
        (ReloadState::Reconfiguring(work), ReloadReply::Step(outcome)) => match outcome {
            Ok(_) => {
                let action = ReloadAction::Commit {
                    features: copied_states(&work.current),
                    registered: registered_after(&work.plan, &work.registered),
                };
                (ReloadState::Committing(work), action)
            },
            Err(error) => (
                ReloadState::AbortingDefinitions { refused: error },
                ReloadAction::AbortContexts,
            ),
        },
        (ReloadState::AbortingDefinitions { refused }, ReloadReply::Step(outcome)) => {
            let mut error = words("unable to apply SCCP definitions: ", refused.as_str());
            if outcome.is_err() {
                error.append("; registration-context rollback failed");
            }
            fail(error, true, false)
        },
        (ReloadState::Committing(work), ReloadReply::Committed(outcome)) => match outcome {
            Ok((registered, previous)) => {
                let affected = copied_devices(&work.plan.affected);
                (
                    ReloadState::CommittingContexts(
                        AppliedReload {
                            plan: work.plan,
                            registered,
                            previous,
                            current: work.current,
                        },
                    ),
                    ReloadAction::CommitContexts { affected },
                )
            },
            Err(error) => (
                ReloadState::DefiningFormerHotline { plan: work.plan, failed: error },
                ReloadAction::DefineFormerHotline,
            ),
        },
        (ReloadState::DefiningFormerHotline { plan, failed }, ReloadReply::Step(outcome)) => {
            match outcome {
                Ok(_) => (
                    ReloadState::RollingBack { failed },
                    ReloadAction::ReconfigureFormer { devices: reconfigured_devices(&plan) },
                ),
                Err(error) => fail(error, true, true),
            }
        },
        (ReloadState::RollingBack { failed }, ReloadReply::Step(outcome)) => (
            ReloadState::AbortingCommit { failed, handsets: outcome.is_ok() },
            ReloadAction::AbortContexts,
        ),
        (ReloadState::AbortingCommit { failed, handsets }, ReloadReply::Step(outcome)) => {
            let mut error = words("controller reload commit failed: ", failed.as_str());
            error.append("; handset rollback: ");
            error.append(truth_text(handsets));
            error.append("; registration rollback: ");
            error.append(truth_text(outcome.is_ok()));
            fail(error, true, false)
        },
        (ReloadState::CommittingContexts(applied), ReloadReply::Step(outcome)) => {
            let registration = match outcome {
                Ok(_) => None,
                Err(error) => Some(error),
            };
            (ReloadState::Applying { registration }, ReloadAction::Apply(applied))
        },
        (ReloadState::Applying { registration }, ReloadReply::Step(_)) => match registration {
            Some(error) => fail(
                words(
                    "configuration applied, but registration-context owner failed during commit: ",
                    error.as_str(),
                ),
                false,
                false,
            ),
            None => (ReloadState::Done, ReloadAction::Succeed),
        },
        _ => fail("the reload is over".to_owned(), cancel_mwi, abort_contexts),
    }
}

/// One thing that follows once a new configuration was taken over.
#[derive(Clone, Copy, Debug, PartialEq, Eq)]
pub enum ReloadTask<'a> {
    SetCallAnswerOrder,
    ConfigureExternalAddress,
    InstallConfiguration,
    /// See [`reconcile_mobility_after_reload`].
    ReconcileMobility,
    /// Keep the new subscriptions and end those of these lines.
    CommitMwi { removed: &'a Vec<String> },
    /// Have the store keep exactly these features.
    ReconcileFeatureStore(&'a Vec<DeviceFeatures>),
    UninstallBlf(&'a DeviceId),
    PublishFeatures { device: &'a DeviceId, state: &'a DeviceFeatureState },
    ReconcileBackgrounds { registered: &'a Vec<DeviceId> },
    PublishFeatureChanges {
        device: &'a DeviceId,
        previous: &'a DeviceFeatureState,
        current: &'a DeviceFeatureState,
    },
    InstallSchedules,
    NoteActivation,
}

/// What a station is told of its features, where it has any.
pub open spec fn features_told<'a>(current: Seq<DeviceFeatures>) -> spec_fn(DeviceId) -> Option<
    ReloadTask<'a>,
> {
    |device: DeviceId|
        match lookup::first(current, controller::features_of(device@)) {
            Some(features) => Some(
                ReloadTask::PublishFeatures { device: &device, state: &features.state },
            ),
            None => None,
        }
}

/// What is published of a station's changes, where it had features and has some.
pub open spec fn changes_told<'a>(
    previous: Seq<DeviceFeatures>,
    current: Seq<DeviceFeatures>,
) -> spec_fn(DeviceId) -> Option<ReloadTask<'a>> {
    |device: DeviceId|
        match (
            lookup::first(previous, controller::features_of(device@)),
            lookup::first(current, controller::features_of(device@)),
        ) {
            (Some(before), Some(after)) => Some(
                ReloadTask::PublishFeatureChanges {
                    device: &device,
                    previous: &before.state,
                    current: &after.state,
                },
            ),
            _ => None,
        }
}

/// The tasks of a reload, in their order.
pub open spec fn reload_tasks_spec<'a>(applied: AppliedReload) -> Seq<ReloadTask<'a>> {
    seq![
        ReloadTask::SetCallAnswerOrder,
        ReloadTask::ConfigureExternalAddress,
        ReloadTask::InstallConfiguration,
        ReloadTask::ReconcileMobility,
        ReloadTask::CommitMwi { removed: &applied.plan.mwi_remove },
        ReloadTask::ReconcileFeatureStore(&applied.current),
    ] + applied.plan.affected@.map_values(|device: DeviceId| ReloadTask::UninstallBlf(&device))
        + applied.registered@.filter_map(features_told(applied.current@)) + seq![
        ReloadTask::ReconcileBackgrounds { registered: &applied.registered },
    ] + applied.registered@.filter_map(changes_told(applied.previous@, applied.current@)) + seq![
        ReloadTask::InstallSchedules,
        ReloadTask::NoteActivation,
    ]
}

fn features_in<'a>(states: &'a Vec<DeviceFeatures>, device: &DeviceId) -> (found: Option<
    &'a DeviceFeatures,
>)
    ensures
        lookup::target(found) == lookup::first(states@, controller::features_of(device@)),
{
    find(
        states,
        |features: &DeviceFeatures| -> (matches: bool)
            ensures
                matches == (features.device_id@ == device@)
            { features.device_id.same(device) },
        Ghost(controller::features_of(device@)),
    )
}

/// Lists the tasks of a reload.
pub fn reload_tasks<'a>(applied: &'a AppliedReload) -> (tasks: Vec<ReloadTask<'a>>)
    ensures
        tasks@ == reload_tasks_spec::<'a>(*applied),
{
    let plan = &applied.plan;
    let registered = &applied.registered;
    let previous = &applied.previous;
    let current = &applied.current;
    let mut tasks: Vec<ReloadTask<'a>> = vec![
        ReloadTask::SetCallAnswerOrder,
        ReloadTask::ConfigureExternalAddress,
        ReloadTask::InstallConfiguration,
        ReloadTask::ReconcileMobility,
        ReloadTask::CommitMwi { removed: &plan.mwi_remove },
        ReloadTask::ReconcileFeatureStore(current),
    ];
    let ghost head = tasks@;
    let ghost uninstall = |device: DeviceId| ReloadTask::<'a>::UninstallBlf(&device);
    proof {
        assert(head =~= head + plan.affected@.take(0).map_values(uninstall));
    }
    let mut i: usize = 0;
    while i < plan.affected.len()
        invariant
            uninstall == (|device: DeviceId| ReloadTask::<'a>::UninstallBlf(&device)),
            0 <= i <= plan.affected@.len(),
            tasks@ == head + plan.affected@.take(i as int).map_values(uninstall),
        decreases plan.affected@.len() - i,
    {
        tasks.push(ReloadTask::UninstallBlf(&plan.affected[i]));
        proof {
            assert(tasks@ =~= head + plan.affected@.take(i + 1).map_values(uninstall));
        }
        i += 1;
    }
    let ghost ended = tasks@;
    let ghost told = features_told::<'a>(current@);
    proof {
        assert(plan.affected@.take(i as int) =~= plan.affected@);
        lemma_gathers_nothing(registered@, told);
        assert(ended =~= ended + Seq::<ReloadTask<'a>>::empty());
    }
    let mut j: usize = 0;
    while j < registered.len()
        invariant
            told == features_told::<'a>(current@),
            0 <= j <= registered@.len(),
            tasks@ == ended + registered@.take(j as int).filter_map(told),
        decreases registered@.len() - j,
    {
        proof {
            lookup::lemma_filter_map_step(registered@, told, j as int);
        }
        match features_in(current, &registered[j]) {
            Some(features) => {
                tasks.push(
                    ReloadTask::PublishFeatures {
                        device: &registered[j],
                        state: &features.state,
                    },
                );
                proof {
                    assert(tasks@ =~= ended + registered@.take(j + 1).filter_map(told));
                }
            },
            None => {},
        }
        j += 1;
    }
    tasks.push(ReloadTask::ReconcileBackgrounds { registered });
    let ghost shown = tasks@;
    let ghost changed = changes_told::<'a>(previous@, current@);
    proof {
        assert(registered@.take(j as int) =~= registered@);
        lemma_gathers_nothing(registered@, changed);
        assert(shown =~= shown + Seq::<ReloadTask<'a>>::empty());
    }
    let mut k: usize = 0;
    while k < registered.len()
        invariant
            changed == changes_told::<'a>(previous@, current@),
            0 <= k <= registered@.len(),
            tasks@ == shown + registered@.take(k as int).filter_map(changed),
        decreases registered@.len() - k,
    {
        proof {
            lookup::lemma_filter_map_step(registered@, changed, k as int);
        }
        match (features_in(previous, &registered[k]), features_in(current, &registered[k])) {
            (Some(before), Some(after)) => {
                tasks.push(
                    ReloadTask::PublishFeatureChanges {
                        device: &registered[k],
                        previous: &before.state,
                        current: &after.state,
                    },
                );
                proof {
                    assert(tasks@ =~= shown + registered@.take(k + 1).filter_map(changed));
                }
            },
            _ => {},
        }
        k += 1;
    }
    proof {
        assert(registered@.take(k as int) =~= registered@);
    }
    tasks.push(ReloadTask::InstallSchedules);
    tasks.push(ReloadTask::NoteActivation);
    proof {
        assert(tasks@ =~= reload_tasks_spec::<'a>(*applied));
    }
    tasks
}

proof fn lemma_gathers_nothing<T, U>(s: Seq<T>, f: spec_fn(T) -> Option<U>)
    ensures
        s.take(0).filter_map(f) == Seq::<U>::empty(),
{
    reveal(Seq::filter_map);
}

/// What is done about a roaming appearance that a reload removed.
#[derive(Debug, PartialEq, Eq)]
pub struct RemovedAppearance {
    /// Takes it from the station, if that is registered.
    pub command: Option<PhoneCommand>,
    /// The line whose state is published.
    pub line: String,
}

pub open spec fn removal(access: Access) -> spec_fn(MobilityAppearance) -> RemovedAppearance {
    |appearance: MobilityAppearance|
        RemovedAppearance {
            command: if access.shared.controller.registered_spec(appearance.device_id@) {
                Some(
                    PhoneCommand {
                        device_id: appearance.device_id,
                        action: PhoneCommandAction::SetMobilityAppearance {
                            mobility_instance: appearance.button_instance,
                            appearance_id: None,
                        },
                    },
                )
            } else {
                None
            },
            line: appearance.binding.line.number,
        }
}

/// A login form that a reload makes void.
#[derive(Debug, PartialEq, Eq)]
pub struct CancelledPrompt {
    pub target: StationTarget,
    pub transaction_id: u32,
}

/// One thing that a reload does about roaming.
#[derive(Debug, PartialEq, Eq)]
pub enum MobilityReloadTask {
    Cancel(CancelledResponse),
    /// Send the command, whatever comes of it, and publish the line.
    Remove(RemovedAppearance),
}

pub open spec fn cancellation(application_id: u32) -> spec_fn(
    CancelledPrompt,
) -> MobilityReloadTask {
    |prompt: CancelledPrompt|
        MobilityReloadTask::Cancel(
            CancelledResponse {
                target: prompt.target,
                routing: mobility::prompt_routing_spec(application_id, prompt.transaction_id),
            },
        )
}

/// What a reload does about roaming: it cancels the forms that are void, then
/// removes the appearances that are. `application_id` is the number of the login
/// form's application.
pub fn reconcile_mobility_after_reload(
    access: &Access,
    application_id: u32,
    cancelled: &Vec<CancelledPrompt>,
    removed: &Vec<MobilityAppearance>,
) -> (tasks: Vec<MobilityReloadTask>)
    ensures
        tasks@ == cancelled@.map_values(cancellation(application_id)) + removed@.map_values(
            |appearance: MobilityAppearance|
                MobilityReloadTask::Remove(removal(*access)(appearance)),
        ),
{
    let ghost c = cancellation(application_id);
    let mut tasks: Vec<MobilityReloadTask> = Vec::new();
    let mut k: usize = 0;
    while k < cancelled.len()
        invariant
            c == cancellation(application_id),
            0 <= k <= cancelled@.len(),
            tasks@ == cancelled@.take(k as int).map_values(c),
        decreases cancelled@.len() - k,
    {
        tasks.push(
            MobilityReloadTask::Cancel(
                cancel_mobility_response(
                    cancelled[k].target.clone(),
                    application_id,
                    cancelled[k].transaction_id,
                ),
            ),
        );
        proof {
            assert(tasks@ =~= cancelled@.take(k + 1).map_values(c));
        }
        k += 1;
    }
    let ghost head = tasks@;
    let ghost f = |appearance: MobilityAppearance|
        MobilityReloadTask::Remove(removal(*access)(appearance));
    proof {
        assert(cancelled@.take(k as int) =~= cancelled@);
        assert(head =~= head + removed@.take(0).map_values(f));
    }
    let mut i: usize = 0;
    while i < removed.len()
        invariant
            f == (|appearance: MobilityAppearance|
                MobilityReloadTask::Remove(removal(*access)(appearance))),
            0 <= i <= removed@.len(),
            tasks@ == head + removed@.take(i as int).map_values(f),
        decreases removed@.len() - i,
    {
        let appearance = &removed[i];
        let command = if mobility_device_registered(access, &appearance.device_id) {
            Some(
                PhoneCommand::new(
                    appearance.device_id.clone(),
                    PhoneCommandAction::SetMobilityAppearance {
                        mobility_instance: appearance.button_instance,
                        appearance_id: None,
                    },
                ),
            )
        } else {
            None
        };
        tasks.push(
            MobilityReloadTask::Remove(
                RemovedAppearance { command, line: appearance.binding.line.number.clone() },
            ),
        );
        proof {
            assert(tasks@ =~= head + removed@.take(i + 1).map_values(f));
        }
        i += 1;
    }
    proof {
        assert(removed@.take(i as int) =~= removed@);
    }
    tasks
}

/// What is stopped, in this order.
#[derive(Clone, Copy, Debug, PartialEq, Eq, Structural)]
pub enum StopStep {
    SuspendAllocations,
    CloseRequests,
    SignalEventShutdown,
    ClearRegistrations,
    AwaitOrdinaryEvents,
    ShutDownBackgrounds,
    JoinBackgrounds,
    ShutDownConferences,
    ShutDownMicrophones,
    JoinWorkers,
    UnsubscribeParking,
    JoinParking,
    JoinSignals,
    ShutDownRemoteHangups,
    JoinSchedules,
    JoinMedia,
    FinishEventShutdown,
    ShutDownTransport,
    JoinEvents,
    JoinTransport,
    JoinBridges,
    JoinPresence,
    JoinResolver,
    JoinPublication,
    JoinConfiguration,
    JoinController,
}

/// Where a step stands among all.
pub open spec fn stop_rank(step: StopStep) -> nat {
    match step {
        StopStep::SuspendAllocations => 0,
        StopStep::CloseRequests => 1,
        StopStep::SignalEventShutdown => 2,
        StopStep::ClearRegistrations => 3,
        StopStep::AwaitOrdinaryEvents => 4,
        StopStep::ShutDownBackgrounds => 5,
        StopStep::JoinBackgrounds => 6,
        StopStep::ShutDownConferences => 7,
        StopStep::ShutDownMicrophones => 8,
        StopStep::JoinWorkers => 9,
        StopStep::UnsubscribeParking => 10,
        StopStep::JoinParking => 11,
        StopStep::JoinSignals => 12,
        StopStep::ShutDownRemoteHangups => 13,
        StopStep::JoinSchedules => 14,
        StopStep::JoinMedia => 15,
        StopStep::FinishEventShutdown => 16,
        StopStep::ShutDownTransport => 17,
        StopStep::JoinEvents => 18,
        StopStep::JoinTransport => 19,
        StopStep::JoinBridges => 20,
        StopStep::JoinPresence => 21,
        StopStep::JoinResolver => 22,
        StopStep::JoinPublication => 23,
        StopStep::JoinConfiguration => 24,
        StopStep::JoinController => 25,
    }
}

/// How many steps there are.
pub const STOP_STEPS: usize = 26;

/// The driver while it runs.
#[derive(Debug, PartialEq, Eq)]
pub struct Module {
    pub access: Access,
}

/// The shared state of the driver, while it runs.
pub fn module_access(module: Option<&Module>) -> (access: Option<&Access>)
    ensures
        lookup::target(access) == match module {
            Some(module) => Some(module.access),
            None => None,
        },
{
    match module {
        Some(module) => Some(&module.access),
        None => None,
    }
}

impl Module {
    /// The steps that stop the driver. Work from outside ends first. Handsets stay
    /// reachable until everything that talks to them has ended, and the controller
    /// is the last to go.
    pub fn stop(self) -> (steps: Vec<StopStep>)
        ensures
            steps@.len() == STOP_STEPS,
            forall|i: int| 0 <= i < steps@.len() ==> stop_rank(#[trigger] steps@[i]) == i,
    {
        vec![
            StopStep::SuspendAllocations,
            StopStep::CloseRequests,
            StopStep::SignalEventShutdown,
            StopStep::ClearRegistrations,
            StopStep::AwaitOrdinaryEvents,
            StopStep::ShutDownBackgrounds,
            StopStep::JoinBackgrounds,
            StopStep::ShutDownConferences,
            StopStep::ShutDownMicrophones,
            StopStep::JoinWorkers,
            StopStep::UnsubscribeParking,
            StopStep::JoinParking,
            StopStep::JoinSignals,
            StopStep::ShutDownRemoteHangups,
            StopStep::JoinSchedules,
            StopStep::JoinMedia,
            StopStep::FinishEventShutdown,
            StopStep::ShutDownTransport,
            StopStep::JoinEvents,
            StopStep::JoinTransport,
            StopStep::JoinBridges,
            StopStep::JoinPresence,
            StopStep::JoinResolver,
            StopStep::JoinPublication,
            StopStep::JoinConfiguration,
            StopStep::JoinController,
        ]
    }
}

/// How a failed step is reported; steps that cannot fail have no words.
pub open spec fn stop_failure_words(step: StopStep) -> Option<Seq<char>> {
    match step {
        StopStep::ShutDownBackgrounds => Some("unable to stop the background runtime cleanly: "@),
        StopStep::JoinBackgrounds => Some("background owner failed during unload: "@),
        StopStep::JoinWorkers => Some("runtime worker owner failed during unload: "@),
        StopStep::JoinParking => Some("parking event owner failed during unload: "@),
        StopStep::JoinSignals => Some("call-signal owner failed during unload: "@),
        StopStep::JoinSchedules => Some("DND schedule owner failed during unload: "@),
        StopStep::JoinEvents => Some("event owner failed during unload: "@),
        StopStep::JoinTransport => Some("SCCP transport failed during unload: "@),
        StopStep::JoinBridges => Some("bridge owner failed during unload: "@),
        StopStep::JoinPresence => Some("presence owner failed during unload: "@),
        StopStep::JoinResolver => Some("resolver owner failed during unload: "@),
        StopStep::JoinPublication => Some("publication owner failed during unload: "@),
        _ => None,
    }
}

/// The owners on threads of their own end without saying why they failed.
pub open spec fn stop_panic_words(step: StopStep) -> Option<Seq<char>> {
    match step {
        StopStep::JoinMedia => Some("media owner failed during unload"@),
        StopStep::JoinConfiguration => Some(
            "configuration transaction owner failed during unload"@,
        ),
        StopStep::JoinController => Some("controller owner failed during unload"@),
        _ => None,
    }
}

/// What is reported of a step that failed.
pub fn stop_failure(step: StopStep, error: &str) -> (report: Option<String>)
    ensures
        match (stop_failure_words(step), stop_panic_words(step)) {
            (Some(words), _) => report matches Some(text) && text@ == words + error@,
            (None, Some(words)) => report matches Some(text) && text@ == words,
            (None, None) => report is None,
        },
{
    match step {
        StopStep::ShutDownBackgrounds => Some(
            words("unable to stop the background runtime cleanly: ", error),
        ),
        StopStep::JoinBackgrounds => Some(words("background owner failed during unload: ", error)),
        StopStep::JoinWorkers => Some(words("runtime worker owner failed during unload: ", error)),
        StopStep::JoinParking => Some(words("parking event owner failed during unload: ", error)),
        StopStep::JoinSignals => Some(words("call-signal owner failed during unload: ", error)),
        StopStep::JoinSchedules => Some(words("DND schedule owner failed during unload: ", error)),
        StopStep::JoinEvents => Some(words("event owner failed during unload: ", error)),
        StopStep::JoinTransport => Some(words("SCCP transport failed during unload: ", error)),
        StopStep::JoinBridges => Some(words("bridge owner failed during unload: ", error)),
        StopStep::JoinPresence => Some(words("presence owner failed during unload: ", error)),
        StopStep::JoinResolver => Some(words("resolver owner failed during unload: ", error)),
        StopStep::JoinPublication => Some(words("publication owner failed during unload: ", error)),
        StopStep::JoinMedia => Some("media owner failed during unload".to_owned()),
        StopStep::JoinConfiguration => Some(
            "configuration transaction owner failed during unload".to_owned(),
        ),
        StopStep::JoinController => Some("controller owner failed during unload".to_owned()),
        _ => None,
    }
}

/// What is reported of workers that failed while the driver ran.
pub fn worker_failures(failures: u64) -> (report: Option<String>)
    ensures
        if failures == 0 {
            report is None
        } else {
            report matches Some(text) && text@ == text::decimal(failures as nat)
                + " runtime workers failed before unload"@
        },
{
    if failures == 0 {
        return None;
    }
    let mut text = decimal_text(failures);
    text.append(" runtime workers failed before unload");
    Some(text)
}

/// What starting the driver sets up, in this order.
#[derive(Clone, Copy, Debug, PartialEq, Eq, Structural)]
pub enum StartStep {
    /// The threads that everything runs on.
    Runtime,
    /// The keys of the secure socket, where one is configured.
    Tls,
    /// The sockets that stations connect to.
    Bind,
    /// What stations are told about the server.
    Policy,
    /// The do-not-disturb rules.
    Schedules,
    /// What stations had switched on.
    Features,
    Parking,
    Listener,
    CompletionDelivery,
    ExternalAddress,
    /// The owner of bridges.
    Bridges,
    Media,
    ControllerCapacity,
    Controller,
    ConfigurationRuntime,
    Configuration,
    Directory,
    Inventory,
    Status,
    FeatureControl,
    Controls,
    Services,
    DeviceQuery,
    LineQuery,
    ChannelQuery,
    CodecPreference,
    CalledParty,
    HandsetMessage,
    CallIndication,
}

/// How many steps there are.
pub const START_STEPS: usize = 29;

/// Where a step stands among all.
pub open spec fn start_rank(step: StartStep) -> nat {
    match step {
        StartStep::Runtime => 0,
        StartStep::Tls => 1,
        StartStep::Bind => 2,
        StartStep::Policy => 3,
        StartStep::Schedules => 4,
        StartStep::Features => 5,
        StartStep::Parking => 6,
        StartStep::Listener => 7,
        StartStep::CompletionDelivery => 8,
        StartStep::ExternalAddress => 9,
        StartStep::Bridges => 10,
        StartStep::Media => 11,
        StartStep::ControllerCapacity => 12,
        StartStep::Controller => 13,
        StartStep::ConfigurationRuntime => 14,
        StartStep::Configuration => 15,
        StartStep::Directory => 16,
        StartStep::Inventory => 17,
        StartStep::Status => 18,
        StartStep::FeatureControl => 19,
        StartStep::Controls => 20,
        StartStep::Services => 21,
        StartStep::DeviceQuery => 22,
        StartStep::LineQuery => 23,
        StartStep::ChannelQuery => 24,
        StartStep::CodecPreference => 25,
        StartStep::CalledParty => 26,
        StartStep::HandsetMessage => 27,
        StartStep::CallIndication => 28,
    }
}

/// How a failed step is reported; some report the bare reason.
pub open spec fn start_words(step: StartStep) -> Option<Seq<char>> {
    match step {
        StartStep::Runtime => Some("unable to create SCCP runtime: "@),
        StartStep::Schedules => Some("unable to restore configured DND schedules: "@),
        StartStep::Features => Some("unable to restore configured feature state: "@),
        StartStep::Parking => Some("unable to subscribe to parking events: "@),
        StartStep::Listener => Some("unable to start SCCP listener: "@),
        StartStep::CompletionDelivery => Some("unable to reserve SCCP completion delivery: "@),
        StartStep::ExternalAddress => Some("external-address initialization failed: "@),
        StartStep::Media => Some("media owner initialization failed: "@),
        StartStep::ControllerCapacity => Some("unable to reserve controller completion capacity: "@),
        StartStep::Controller => Some("unable to start controller owner: "@),
        StartStep::ConfigurationRuntime => Some("unable to create configuration transaction runtime: "@),
        StartStep::Configuration => Some("unable to start configuration transaction owner: "@),
        StartStep::Directory => Some("unable to register phone directory HTTP service: "@),
        StartStep::Inventory => Some("unable to register management inventory actions: "@),
        StartStep::Status => Some("unable to register live management actions: "@),
        StartStep::FeatureControl => Some("unable to register feature-control actions: "@),
        StartStep::Controls => Some("unable to register management controls: "@),
        StartStep::Services => Some("unable to register management service controls: "@),
        StartStep::DeviceQuery => Some("unable to register device query function: "@),
        StartStep::LineQuery => Some("unable to register line query function: "@),
        StartStep::ChannelQuery => Some("unable to register channel query function: "@),
        StartStep::CodecPreference => Some("unable to register codec preference application: "@),
        StartStep::CalledParty => Some("unable to register called-party application: "@),
        StartStep::HandsetMessage => Some("unable to register handset-message application: "@),
        StartStep::CallIndication => Some("unable to register call-indication application: "@),
        _ => None,
    }
}

/// Whether a step leaves something that has to be given up again.
pub open spec fn leaves_something(step: StartStep) -> bool {
    !(step is Runtime || step is Tls || step is Bind || step is Policy || step is Schedules || step
        is Features || step is Listener || step is CompletionDelivery || step is ExternalAddress
        || step is ControllerCapacity || step is ConfigurationRuntime)
}

/// Why the driver did not start.
pub fn start_error(step: StartStep, error: String) -> (text: String)
    ensures
        match start_words(step) {
            Some(words) => text@ == words + error@,
            None => text == error,
        },
{
    let prefix = match step {
        StartStep::Runtime => "unable to create SCCP runtime: ",
        StartStep::Schedules => "unable to restore configured DND schedules: ",
        StartStep::Features => "unable to restore configured feature state: ",
        StartStep::Parking => "unable to subscribe to parking events: ",
        StartStep::Listener => "unable to start SCCP listener: ",
        StartStep::CompletionDelivery => "unable to reserve SCCP completion delivery: ",
        StartStep::ExternalAddress => "external-address initialization failed: ",
        StartStep::Media => "media owner initialization failed: ",
        StartStep::ControllerCapacity => "unable to reserve controller completion capacity: ",
        StartStep::Controller => "unable to start controller owner: ",
        StartStep::ConfigurationRuntime => "unable to create configuration transaction runtime: ",
        StartStep::Configuration => "unable to start configuration transaction owner: ",
        StartStep::Directory => "unable to register phone directory HTTP service: ",
        StartStep::Inventory => "unable to register management inventory actions: ",
        StartStep::Status => "unable to register live management actions: ",
        StartStep::FeatureControl => "unable to register feature-control actions: ",
        StartStep::Controls => "unable to register management controls: ",
        StartStep::Services => "unable to register management service controls: ",
        StartStep::DeviceQuery => "unable to register device query function: ",
        StartStep::LineQuery => "unable to register line query function: ",
        StartStep::ChannelQuery => "unable to register channel query function: ",
        StartStep::CodecPreference => "unable to register codec preference application: ",
        StartStep::CalledParty => "unable to register called-party application: ",
        StartStep::HandsetMessage => "unable to register handset-message application: ",
        StartStep::CallIndication => "unable to register call-indication application: ",
        _ => {
            return error;
        },
    };
    words(prefix, error.as_str())
}

/// All steps, in order.
pub fn start_steps() -> (steps: Vec<StartStep>)
    ensures
        steps@.len() == START_STEPS,
        forall|i: int| 0 <= i < steps@.len() ==> start_rank(#[trigger] steps@[i]) == i,
{
    vec![
        StartStep::Runtime,
        StartStep::Tls,
        StartStep::Bind,
        StartStep::Policy,
        StartStep::Schedules,
        StartStep::Features,
        StartStep::Parking,
        StartStep::Listener,
        StartStep::CompletionDelivery,
        StartStep::ExternalAddress,
        StartStep::Bridges,
        StartStep::Media,
        StartStep::ControllerCapacity,
        StartStep::Controller,
        StartStep::ConfigurationRuntime,
        StartStep::Configuration,
        StartStep::Directory,
        StartStep::Inventory,
        StartStep::Status,
        StartStep::FeatureControl,
        StartStep::Controls,
        StartStep::Services,
        StartStep::DeviceQuery,
        StartStep::LineQuery,
        StartStep::ChannelQuery,
        StartStep::CodecPreference,
        StartStep::CalledParty,
        StartStep::HandsetMessage,
        StartStep::CallIndication,
    ]
}

/// What comes after a step of starting the driver.
#[derive(Debug, PartialEq, Eq)]
pub enum StartAction {
    Continue(StartStep),
    /// Everything is set up: the owners run.
    Run,
    /// Give up what these steps left, in this order, and report.
    Fail { error: String, undo: Vec<StartStep> },
}

/// The step registers actions of the management interface. These are held in one
/// list.
pub open spec fn registers_actions(step: StartStep) -> bool {
    step is Inventory || step is Status || step is FeatureControl || step is Controls || step
        is Services
}

/// Where what a step left comes when everything is given up: the latest first,
/// except that the list of management actions is given up from its front.
pub open spec fn undo_rank(step: StartStep) -> int {
    if registers_actions(step) {
        start_rank(StartStep::Inventory) + start_rank(StartStep::Services) - start_rank(step)
    } else {
        start_rank(step) as int
    }
}

/// Exactly what the steps before `step` left is given up, in this order.
pub open spec fn undoes(undo: Seq<StartStep>, step: StartStep) -> bool {
    &&& forall|s: StartStep| #[trigger]
        undo.contains(s) <==> leaves_something(s) && start_rank(s) < start_rank(step)
    &&& forall|i: int, j: int|
        0 <= i < j < undo.len() ==> undo_rank(#[trigger] undo[i]) > undo_rank(#[trigger] undo[j])
}

fn step_position(step: StartStep) -> (position: usize)
    ensures
        position == start_rank(step),
        position < START_STEPS,
{
    match step {
        StartStep::Runtime => 0,
        StartStep::Tls => 1,
        StartStep::Bind => 2,
        StartStep::Policy => 3,
        StartStep::Schedules => 4,
        StartStep::Features => 5,
        StartStep::Parking => 6,
        StartStep::Listener => 7,
        StartStep::CompletionDelivery => 8,
        StartStep::ExternalAddress => 9,
        StartStep::Bridges => 10,
        StartStep::Media => 11,
        StartStep::ControllerCapacity => 12,
        StartStep::Controller => 13,
        StartStep::ConfigurationRuntime => 14,
        StartStep::Configuration => 15,
        StartStep::Directory => 16,
        StartStep::Inventory => 17,
        StartStep::Status => 18,
        StartStep::FeatureControl => 19,
        StartStep::Controls => 20,
        StartStep::Services => 21,
        StartStep::DeviceQuery => 22,
        StartStep::LineQuery => 23,
        StartStep::ChannelQuery => 24,
        StartStep::CodecPreference => 25,
        StartStep::CalledParty => 26,
        StartStep::HandsetMessage => 27,
        StartStep::CallIndication => 28,
    }
}

fn leaves(step: StartStep) -> (something: bool)
    ensures
        something == leaves_something(step),
{
    match step {
        StartStep::Runtime
        | StartStep::Tls
        | StartStep::Bind
        | StartStep::Policy
        | StartStep::Schedules
        | StartStep::Features
        | StartStep::Listener
        | StartStep::CompletionDelivery
        | StartStep::ExternalAddress
        | StartStep::ControllerCapacity
        | StartStep::ConfigurationRuntime => false,
        _ => true,
    }
}

proof fn lemma_ranks_differ(first: StartStep, second: StartStep)
    ensures
        start_rank(first) == start_rank(second) ==> first == second,
        undo_rank(first) == undo_rank(second) ==> first == second,
        0 <= undo_rank(first) < START_STEPS,
{
}

/// The step that is given up at `rank`.
fn undone_at(steps: &Vec<StartStep>, rank: usize) -> (step: StartStep)
    requires
        steps@.len() == START_STEPS,
        forall|i: int| 0 <= i < steps@.len() ==> start_rank(#[trigger] steps@[i]) == i,
        rank < START_STEPS,
    ensures
        undo_rank(step) == rank,
{
    let first: usize = step_position(StartStep::Inventory);
    let last: usize = step_position(StartStep::Services);
    if first <= rank && rank <= last {
        steps[first + last - rank]
    } else {
        steps[rank]
    }
}

/// What is given up where a step fails.
fn start_undo(step: StartStep) -> (undo: Vec<StartStep>)
    ensures
        undoes(undo@, step),
{
    let steps = start_steps();
    let mut undo: Vec<StartStep> = Vec::new();
    let mut i: usize = steps.len();
    while i > 0
        invariant
            steps@.len() == START_STEPS,
            forall|k: int| 0 <= k < steps@.len() ==> start_rank(#[trigger] steps@[k]) == k,
            i <= START_STEPS,
            forall|s: StartStep| #[trigger]
                undo@.contains(s) <==> leaves_something(s) && start_rank(s) < start_rank(step) && i
                    <= undo_rank(s) < START_STEPS,
            forall|k: int, l: int|
                0 <= k < l < undo@.len() ==> undo_rank(#[trigger] undo@[k]) > undo_rank(
                    #[trigger] undo@[l],
                ),
        decreases i,
    {
        i -= 1;
        let ghost before = undo@;
        let next = undone_at(&steps, i);
        if leaves(next) && step_position(next) < step_position(step) {
            undo.push(next);
        }
        proof {
            assert forall|s: StartStep| #[trigger]
                undo@.contains(s) <==> leaves_something(s) && start_rank(s) < start_rank(step) && i
                    <= undo_rank(s) < START_STEPS by {
                lemma_ranks_differ(s, next);
                lookup::lemma_push_set(before, next);
                assert(before.push(next).to_set().contains(s) == (before.to_set().contains(s) || s
                    == next));
                assert(before.contains(s) <==> leaves_something(s) && start_rank(s) < start_rank(
                    step,
                ) && i + 1 <= undo_rank(s) < START_STEPS);
            }
            assert forall|k: int, l: int| 0 <= k < l < undo@.len() implies undo_rank(
                #[trigger] undo@[k],
            ) > undo_rank(#[trigger] undo@[l]) by {
                if l == before.len() {
                    assert(before.contains(before[k]));
                }
            }
        }
    }
    proof {
        assert forall|s: StartStep| #[trigger]
            undo@.contains(s) <==> leaves_something(s) && start_rank(s) < start_rank(step) by {
            lemma_ranks_differ(s, s);
        }
    }
    undo
}

impl Module {
    /// What follows a step of starting the driver: the next one, or, where it failed,
    /// the report, after everything that was set up so far is given up.
    pub fn start(step: StartStep, outcome: Result<(), String>) -> (action: StartAction)
        ensures
            match outcome {
                Ok(_) => match action {
                    StartAction::Continue(next) => start_rank(next) == start_rank(step) + 1,
                    StartAction::Run => start_rank(step) == START_STEPS - 1,
                    StartAction::Fail { .. } => false,
                },
                Err(reason) => match action {
                    StartAction::Fail { error, undo } => undoes(undo@, step) && match start_words(
                        step,
                    ) {
                        Some(words) => error@ == words + reason@,
                        None => error == reason,
                    },
                    _ => false,
                },
            },
    {
        match outcome {
            Ok(_) => {
                let next: usize = step_position(step) + 1;
                let steps = start_steps();
                if next < steps.len() {
                    StartAction::Continue(steps[next])
                } else {
                    StartAction::Run
                }
            },
            Err(reason) => StartAction::Fail {
                error: start_error(step, reason),
                undo: start_undo(step),
            },
        }
    }
}

/// How stations that turn to this server are treated.
#[derive(Clone, Copy, Debug, PartialEq, Eq, Structural)]
pub struct RegistrationTokenPolicy {
    pub fallback: RegistrationFallback,
    pub backoff_seconds: u32,
    pub server_priority: u8,
}

/// What is configured about falling back.
#[derive(Clone, Copy, Debug, PartialEq, Eq, Structural)]
pub struct FallbackRegistration {
    pub decision: FallbackDecision,
    pub backoff_seconds: u32,
    pub server_priority: u8,
}

/// The policy that follows from the configuration.
pub open spec fn registration_tokens_spec(fallback: FallbackRegistration) -> RegistrationTokenPolicy {
    RegistrationTokenPolicy {
        fallback: match fallback.decision {
            FallbackDecision::Reject => RegistrationFallback::Reject,
            FallbackDecision::Accept => RegistrationFallback::ReturnToPrimary,
            FallbackDecision::DeviceIdOdd => RegistrationFallback::DeviceIdOdd,
            FallbackDecision::DeviceIdEven => RegistrationFallback::DeviceIdEven,
        },
        backoff_seconds: fallback.backoff_seconds,
        server_priority: fallback.server_priority,
    }
}

/// The order in which calls are answered, as stations are told.
pub open spec fn answer_order_spec(order: CallAnswerOrder) -> CallSelectionOrder {
    match order {
        CallAnswerOrder::OldestFirst => CallSelectionOrder::OldestFirst,
        CallAnswerOrder::LastFirst => CallSelectionOrder::LastFirst,
    }
}

pub fn registration_tokens(fallback: FallbackRegistration) -> (policy: RegistrationTokenPolicy)
    ensures
        policy == registration_tokens_spec(fallback),
{
    RegistrationTokenPolicy {
        fallback: RegistrationFallback::from(fallback.decision),
        backoff_seconds: fallback.backoff_seconds,
        server_priority: fallback.server_priority,
    }
}

pub open spec fn overlaps() -> spec_fn(DeviceConfig) -> bool {
    |device: DeviceConfig| device.allow_overlap
}

/// The stations whose calls may go on while digits are still dialled.
pub fn overlap_devices(config: &ModuleConfig) -> (devices: Vec<&DeviceConfig>)
    ensures
        devices@.map_values(|device: &DeviceConfig| *device) == config.devices@.filter(overlaps()),
{
    select(
        &config.devices,
        |device: &DeviceConfig| -> (overlap: bool)
            ensures
                overlap == device.allow_overlap
            { device.allow_overlap },
        Ghost(overlaps()),
    )
}

/// A start that fails leaves nothing behind of what it had set up, and keeps its
/// hands off what it had not.
pub proof fn law_failed_starts_leave_nothing_behind(undo: Seq<StartStep>, step: StartStep, s: StartStep)
    requires
        undoes(undo, step),
    ensures
        undo.contains(s) == (leaves_something(s) && start_rank(s) < start_rank(step)),
        !undo.contains(step),
        undo.no_duplicates(),
{
    assert forall|i: int, j: int| 0 <= i < undo.len() && 0 <= j < undo.len() && i != j implies undo[i]
        != undo[j] by {
        if i < j {
            assert(undo_rank(undo[i]) > undo_rank(undo[j]));
        } else {
            assert(undo_rank(undo[j]) > undo_rank(undo[i]));
        }
    }
}

/// Both numbers of a call survive being kept by the switch.
pub proof fn law_channel_identities_round_trip(state: ChannelState, identity: ChannelIdentity)
    ensures
        <ChannelState as vstd::std_specs::convert::FromSpec<ChannelIdentity>>::from_spec(
            <ChannelIdentity as vstd::std_specs::convert::FromSpec<ChannelState>>::from_spec(state),
        ) == state,
        <ChannelIdentity as vstd::std_specs::convert::FromSpec<ChannelState>>::from_spec(
            <ChannelState as vstd::std_specs::convert::FromSpec<ChannelIdentity>>::from_spec(
                identity,
            ),
        ) == identity,
{
}

/// A reload that fails gives up all that it had prepared and not yet given up
/// itself.
pub proof fn law_failed_reloads_leave_nothing_prepared(
    state: ReloadState,
    reply: ReloadReply,
    next: ReloadState,
    action: ReloadAction,
)
    requires
        reload_step(state, reply, next, action),
    ensures
        action matches ReloadAction::Fail { cancel_mwi, abort_contexts, .. } ==> {
            &&& cancel_mwi == reload_staged(state).0
            &&& abort_contexts == (reload_staged(state).1 && !(state is AbortingDefinitions
                && reply is Step) && !(state is AbortingCommit && reply is Step))
        },
{
}

/// The running configuration is touched only after everything was prepared, the
/// stations were defined anew and the controller took the new policy over.
pub proof fn law_reloads_apply_last(
    state: ReloadState,
    reply: ReloadReply,
    next: ReloadState,
    action: ReloadAction,
)
    requires
        reload_step(state, reply, next, action),
    ensures
        action is Apply ==> state is CommittingContexts,
        next is CommittingContexts ==> state is Committing && reply is Committed
            && reply->Committed_0 is Ok,
        next is Committing ==> state is Reconfiguring && reply->Step_0 is Ok,
        action is Succeed ==> state is Applying,
{
}

/// When the driver stops, nothing that talks to handsets outlives the transport, the
/// transport outlives what still needs it, and the controller outlives all.
pub proof fn law_stopping_keeps_handsets_reachable(step: StopStep)
    ensures
        stop_rank(StopStep::JoinSignals) < stop_rank(StopStep::ShutDownRemoteHangups),
        stop_rank(StopStep::ShutDownConferences) < stop_rank(StopStep::ShutDownTransport),
        stop_rank(StopStep::ShutDownRemoteHangups) < stop_rank(StopStep::ShutDownTransport),
        stop_rank(StopStep::FinishEventShutdown) < stop_rank(StopStep::ShutDownTransport),
        stop_rank(StopStep::ShutDownTransport) < stop_rank(StopStep::JoinEvents),
        stop_rank(step) <= stop_rank(StopStep::JoinController),
{
}

/// Every decision on registrations that arrive at this server has its own
/// counterpart, with the waiting time and priority that are configured, and so has
/// every order of answering.
pub proof fn law_settings_keep_their_meaning(
    fallback: FallbackRegistration,
    policy: RegistrationTokenPolicy,
    order: CallAnswerOrder,
    selection: CallSelectionOrder,
    state: ChannelState,
    identity: ChannelIdentity,
    back: ChannelState,
)
    requires
        call_ensures(registration_tokens, (fallback,), policy),
        call_ensures(CallSelectionOrder::from, (order,), selection),
        call_ensures(ChannelIdentity::from, (state,), identity),
        call_ensures(ChannelState::from, (identity,), back),
    ensures
        policy.backoff_seconds == fallback.backoff_seconds,
        policy.server_priority == fallback.server_priority,
        policy.fallback is Reject <==> fallback.decision is Reject,
        policy.fallback is ReturnToPrimary <==> fallback.decision is Accept,
        policy.fallback is DeviceIdOdd <==> fallback.decision is DeviceIdOdd,
        policy.fallback is DeviceIdEven <==> fallback.decision is DeviceIdEven,
        selection is OldestFirst <==> order is OldestFirst,
        back == state,
        identity.pbx_id == state.pbx_id.0 && identity.sccp_id == state.sccp_id.0,
{
}

/// A socket is taken exactly if it was accepted, configured and inspected, and the
/// listeners are bound exactly if none that is wanted failed; secured are those
/// that asked for it.
pub proof fn law_sockets_are_taken_whole(
    kind: &str,
    accepted: Result<(), String>,
    no_delay: Result<(), String>,
    inspected: Result<(), String>,
    result: Result<(), String>,
    clear: Result<(), String>,
    secure: Option<Result<(), String>>,
    bound: Result<bool, String>,
)
    requires
        call_ensures(accept_station_socket, (kind, accepted, no_delay, inspected), result),
        call_ensures(bind_runtime_listeners, (clear, secure), bound),
    ensures
        result is Ok <==> accepted is Ok && no_delay is Ok && inspected is Ok,
        bound is Ok <==> clear is Ok && (secure matches Some(done) ==> done is Ok),
        bound matches Ok(secured) ==> (secured <==> secure is Some),
{
}

/// Handshakes are admitted while fewer than the limit are under way; each admitted
/// one takes a place, and gives exactly that place back.
pub proof fn law_handshakes_are_limited(
    acquiring: &mut SecureHandshakeLimiter,
    releasing: &mut SecureHandshakeLimiter,
    acquired: bool,
    before: SecureHandshakeLimiter,
    available: usize,
    fresh: SecureHandshakeLimiter,
)
    requires
        before == *old(acquiring),
        before.wf(),
        call_ensures(SecureHandshakeLimiter::available_permits, (&before,), available),
        call_ensures(SecureHandshakeLimiter::acquire, (acquiring,), acquired),
        call_ensures(SecureHandshakeLimiter::release, (releasing,), ()),
        call_ensures(secure_handshake_limiter, (), fresh),
    ensures
        fresh.occupied == 0,
        available + before.occupied == 64,
        acquired <==> available > 0,
        acquired ==> final(acquiring).occupied == old(acquiring).occupied + 1,
        !acquired ==> final(acquiring).occupied == old(acquiring).occupied,
        final(releasing).occupied + 1 == old(releasing).occupied,
{
}

/// A signal reaches a call that has a channel: a hangup always, any other signal
/// where it was taken; a call without a channel gets none.
pub proof fn law_signals_need_a_channel(
    access: &Access,
    pbx_id: PbxCallId,
    kind: RuntimeCallSignalKind,
    accepted: bool,
    delivery: CallSignalDelivery,
    delivered: bool,
    answered: bool,
)
    requires
        call_ensures(Access::enqueue_call_signal_inner, (access, pbx_id, kind), delivery),
        call_ensures(Access::enqueue_call_signal, (access, pbx_id, kind, accepted), delivered),
        call_ensures(
            Access::enqueue_confirmed_answer_signal,
            (access, pbx_id, accepted),
            answered,
        ),
    ensures
        ({
            let present = exists|i: int|
                0 <= i < access.shared.channels@.len() && (
                #[trigger] access.shared.channels@[i]).pbx_id == pbx_id;
            &&& delivery is NoChannel <==> !present
            &&& delivery is Retire <==> present && kind is Hangup
            &&& delivery is TrySend <==> present && !(kind is Hangup)
            &&& delivered <==> present && (kind is Hangup || accepted)
            &&& answered <==> present && accepted
        }),
{
    let p = access::channel_of(pbx_id);
    lookup::lemma_first_at(access.shared.channels@, p, 0);
    if let Some(i) = lookup::first_at(access.shared.channels@, p, 0) {
        assert(p(access.shared.channels@[i]));
    } else {
        assert forall|i: int| 0 <= i < access.shared.channels@.len() implies (
        #[trigger] access.shared.channels@[i]).pbx_id != pbx_id by {
            assert(!p(access.shared.channels@[i]));
        }
    }
}

/// The file that is named is read, else the one of this name in the directory that
/// is named, else the one in the usual place.
pub proof fn law_configurations_are_read_from_the_named_place(
    named: Option<&str>,
    directory: Option<&str>,
    path: String,
)
    requires
        call_ensures(config_path, (named, directory), path),
    ensures
        named matches Some(file) ==> path@ == file@,
        named is None && directory is None ==> path@ == "/etc/asterisk/sccp.conf"@,
        named is None && directory is Some && directory->0@.len() > 0 && directory->0@.last()
            != '/' ==> path@ == directory->0@ + "/"@ + "sccp.conf"@,
        named is None && directory is Some && directory->0@.len() > 0 && directory->0@.last()
            == '/' ==> path@ == directory->0@ + "sccp.conf"@,
{
}

/// A reload takes all of the configuration or what was selected of it, and is
/// published where the configuration is kept elsewhere.
pub proof fn law_reloads_take_what_was_selected(
    access: &Access,
    selection: ReloadSelection,
    trigger: ConfigReconciliationTrigger,
    whole: ReloadRequest,
    selected: ReloadRequest,
    observed: ReloadRequest,
)
    requires
        call_ensures(reload, (access,), whole),
        call_ensures(reload_selected, (access, selection), selected),
        call_ensures(reload_sorcery, (trigger,), observed),
    ensures
        whole.selection is Complete,
        selected.selection == selection,
        whole.published is Some <==> access.shared.config.general.configuration_source
            == ConfigurationSource::Sorcery,
        whole.published matches Some(cause) ==> cause is Reload,
        selected.published == whole.published,
        observed.selection is Complete && observed.published == Some(trigger),
{
}

/// A reload goes on only after its last step succeeded, in a fixed order; what a
/// plan contains is what is carried out: its new subscriptions are staged, the
/// stations it affects and adds are reconfigured, and those it affects lose their
/// registration.
pub proof fn law_reloads_carry_out_their_plan(
    state: ReloadState,
    reply: ReloadReply,
    next: ReloadState,
    action: ReloadAction,
    device: DeviceId,
)
    requires
        call_ensures(reload_selected_inner, (state, reply), (next, action)),
    ensures
        action is Refresh ==> state is Beginning && (reply matches ReloadReply::Step(done)
            && done is Ok),
        action is StageSchedules ==> state is Refreshing && (reply matches ReloadReply::Step(done)
            && done is Ok),
        action is Plan ==> state is StagingSchedules && (reply matches ReloadReply::Step(done)
            && done is Ok),
        action is LoadFeatures ==> state is Planning && (reply matches ReloadReply::Planned {
            plan,
            selection,
            mobility_pending,
        } && selection is Ok && !mobility_pending && plan.restart_required@.len() == 0 && next == (
        ReloadState::LoadingFeatures { plan })),
        action matches ReloadAction::StageMwi { added } ==> (state matches
            ReloadState::LoadingFeatures { plan } && added@ == plan.mwi_add@ && (reply matches
            ReloadReply::Loaded(Ok(current)) && next == (ReloadState::StagingMwi {
            plan,
            current,
        }))),
        action matches ReloadAction::StageContexts { registered_after, registered_before } ==> (
        state matches ReloadState::StagingMwi { plan, current } && (reply matches
            ReloadReply::MwiStaged(Ok(registered)) && registered_before@ == registered@ && (
        registered_after@.contains(device) <==> registered@.contains(device) && !exists|i: int|
            0 <= i < plan.affected@.len() && (#[trigger] plan.affected@[i])@ == device@) && next
            == ReloadState::StagingContexts(ReloadWork { plan, current, registered }))),
        action is DefineHotline ==> (state matches ReloadState::StagingContexts(work) && next
            == ReloadState::DefiningHotline(work)) && (reply matches ReloadReply::Step(done)
            && done is Ok),
        action matches ReloadAction::Reconfigure { devices } ==> (state matches
            ReloadState::DefiningHotline(work) && devices@ == work.plan.affected@
            + work.plan.added@ && next == ReloadState::Reconfiguring(work)) && (reply matches
            ReloadReply::Step(done) && done is Ok),
        action matches ReloadAction::Commit { features, registered } ==> (state matches
            ReloadState::Reconfiguring(work) && features@.len() == work.current@.len() && (
        registered@.contains(device) <==> work.registered@.contains(device) && !exists|i: int|
            0 <= i < work.plan.affected@.len() && (#[trigger] work.plan.affected@[i])@ == device@)
            && next == ReloadState::Committing(work)) && (reply matches ReloadReply::Step(done)
            && done is Ok),
        action matches ReloadAction::CommitContexts { affected } ==> (state matches
            ReloadState::Committing(work) && affected@ == work.plan.affected@ && (reply matches
            ReloadReply::Committed(Ok((registered, previous))) && next
            == ReloadState::CommittingContexts(
            AppliedReload { plan: work.plan, registered, previous, current: work.current },
        ))),
        action matches ReloadAction::Apply(applied) ==> state == ReloadState::CommittingContexts(
            applied,
        ),
        action is Succeed ==> (state matches ReloadState::Applying { registration }
            && registration is None),
{
    match (state, reply) {
        (ReloadState::StagingMwi { plan, .. }, ReloadReply::MwiStaged(Ok(registered))) => {
            lemma_unaffected(plan, registered@, device);
        },
        (ReloadState::Reconfiguring(work), ReloadReply::Step(Ok(_))) => {
            lemma_unaffected(work.plan, work.registered@, device);
        },
        _ => {},
    }
}

proof fn lemma_unaffected(plan: ReloadPlan, registered: Seq<DeviceId>, device: DeviceId)
    ensures
        registered.filter(unaffected(plan)).contains(device) <==> registered.contains(device)
            && !exists|i: int|
            0 <= i < plan.affected@.len() && (#[trigger] plan.affected@[i])@ == device@,
{
    lookup::lemma_filter_holds(registered, unaffected(plan), device);
    let p = is_named(device@);
    if lookup::some(plan.affected@, p) {
        let i = choose|i: int| 0 <= i < plan.affected@.len() && p(#[trigger] plan.affected@[i]);
        assert(plan.affected@[i]@ == device@);
    }
    if exists|i: int| 0 <= i < plan.affected@.len() && (#[trigger] plan.affected@[i])@ == device@ {
        let i = choose|i: int|
            0 <= i < plan.affected@.len() && (#[trigger] plan.affected@[i])@ == device@;
        assert(p(plan.affected@[i]));
    }
}

/// A reload advances whenever its step succeeded, and its last step ends it.
pub proof fn law_reloads_advance_on_success(
    work: ReloadWork,
    applied: AppliedReload,
    begun: (ReloadState, ReloadAction),
    refreshed: (ReloadState, ReloadAction),
    staged: (ReloadState, ReloadAction),
    contexts: (ReloadState, ReloadAction),
    defined: (ReloadState, ReloadAction),
    configured: (ReloadState, ReloadAction),
    committed: (ReloadState, ReloadAction),
    ended: (ReloadState, ReloadAction),
)
    requires
        call_ensures(
            reload_selected_inner,
            (ReloadState::Beginning, ReloadReply::Step(Ok(()))),
            begun,
        ),
        call_ensures(
            reload_selected_inner,
            (ReloadState::Refreshing, ReloadReply::Step(Ok(()))),
            refreshed,
        ),
        call_ensures(
            reload_selected_inner,
            (ReloadState::StagingSchedules, ReloadReply::Step(Ok(()))),
            staged,
        ),
        call_ensures(
            reload_selected_inner,
            (ReloadState::StagingContexts(work), ReloadReply::Step(Ok(()))),
            contexts,
        ),
        call_ensures(
            reload_selected_inner,
            (ReloadState::DefiningHotline(work), ReloadReply::Step(Ok(()))),
            defined,
        ),
        call_ensures(
            reload_selected_inner,
            (ReloadState::Reconfiguring(work), ReloadReply::Step(Ok(()))),
            configured,
        ),
        call_ensures(
            reload_selected_inner,
            (ReloadState::CommittingContexts(applied), ReloadReply::Step(Ok(()))),
            committed,
        ),
        call_ensures(
            reload_selected_inner,
            ((ReloadState::Applying { registration: None }), ReloadReply::Step(Ok(()))),
            ended,
        ),
    ensures
        begun.1 is Refresh && begun.0 is Refreshing,
        refreshed.1 is StageSchedules && refreshed.0 is StagingSchedules,
        staged.1 is Plan && staged.0 is Planning,
        contexts.1 is DefineHotline && defined.1 is Reconfigure && configured.1 is Commit,
        committed.1 == ReloadAction::Apply(applied) && committed.0 == (ReloadState::Applying {
            registration: None,
        }),
        ended.1 is Succeed && ended.0 is Done,
{
}

/// A reload that fails takes back what it staged: its subscriptions once they were
/// staged, and its contexts once those were and unless they are taken back already.
/// A refused commit puts the former stations back first.
pub proof fn law_failed_reloads_are_taken_back(
    state: ReloadState,
    reply: ReloadReply,
    next: ReloadState,
    action: ReloadAction,
)
    requires
        call_ensures(reload_selected_inner, (state, reply), (next, action)),
    ensures
        action matches ReloadAction::Fail { error, cancel_mwi, abort_contexts } ==> next is Done && (
        cancel_mwi <==> !(state is Beginning || state is Refreshing || state is StagingSchedules
            || state is Planning || state is LoadingFeatures || state is StagingMwi
            || state is Applying || state is Done)),
        action matches ReloadAction::Fail { error, cancel_mwi, abort_contexts } ==> (abort_contexts
            ==> cancel_mwi && !(state is StagingContexts)),
        state is DefiningHotline && !(action is Reconfigure) ==> (action matches
            ReloadAction::Fail { cancel_mwi, abort_contexts, .. } && cancel_mwi && abort_contexts),
        state is Reconfiguring ==> (reply matches ReloadReply::Step(Err(refused)) ==> action
            is AbortContexts && next == (ReloadState::AbortingDefinitions { refused })),
        state matches ReloadState::Committing(work) ==> (reply matches ReloadReply::Committed(
            Err(failed),
        ) ==> action is DefineFormerHotline && next == (ReloadState::DefiningFormerHotline {
            plan: work.plan,
            failed,
        })),
        action matches ReloadAction::ReconfigureFormer { devices } ==> (state matches
            ReloadState::DefiningFormerHotline { plan, failed } && devices@ == plan.affected@
            + plan.added@ && next == (ReloadState::RollingBack { failed })),
        state is RollingBack && reply is Step ==> action is AbortContexts,
        state is AbortingDefinitions || state is AbortingCommit ==> next is Done
            && action is Fail,
        (state is AbortingDefinitions || state is AbortingCommit) && reply is Step ==> (
        action matches ReloadAction::Fail { abort_contexts, .. } && !abort_contexts),
{
}

/// A plan that needs a restart, was not selected or meets a pending change of a
/// roaming line is refused, and so is a reload whose first steps fail.
pub proof fn law_unfit_plans_are_refused(
    plan: ReloadPlan,
    selection: Result<(), String>,
    mobility_pending: bool,
    next: ReloadState,
    action: ReloadAction,
)
    requires
        call_ensures(
            reload_selected_inner,
            (
                ReloadState::Planning,
                (ReloadReply::Planned { plan, selection, mobility_pending }),
            ),
            (next, action),
        ),
    ensures
        action is LoadFeatures <==> selection is Ok && plan.restart_required@.len() == 0
            && !mobility_pending,
        !(action is LoadFeatures) ==> action is Fail && next is Done,
        selection matches Err(reason) ==> (action matches ReloadAction::Fail { error, .. } && error@
            == reason@),
{
}

/// A reload that was committed installs the configuration before anything is
/// published, tells every registered station that has features its present ones
/// and what changed of them, takes the watched states of every affected station
/// away, and notes itself last.
pub proof fn law_applied_reloads_publish_everything<'a>(
    applied: &'a AppliedReload,
    tasks: Vec<ReloadTask<'a>>,
    d: int,
    r: int,
    f: int,
)
    requires
        call_ensures(reload_tasks, (applied,), tasks),
        0 <= d,
        0 <= r < applied.registered@.len(),
        0 <= f < applied.current@.len(),
        applied.current@[f].device_id@ == applied.registered@[r]@,
        forall|j: int|
            0 <= j < f ==> (#[trigger] applied.current@[j]).device_id@
                != applied.registered@[r]@,
    ensures
        tasks@.len() >= 9,
        tasks@[0] is SetCallAnswerOrder && tasks@[1] is ConfigureExternalAddress
            && tasks@[2] is InstallConfiguration && tasks@[3] is ReconcileMobility,
        tasks@[4] == (ReloadTask::CommitMwi { removed: &applied.plan.mwi_remove }),
        tasks@[5] == ReloadTask::ReconcileFeatureStore(&applied.current),
        tasks@[tasks@.len() - 2] is InstallSchedules,
        tasks@[tasks@.len() - 1] is NoteActivation,
        d < applied.plan.affected@.len() ==> tasks@[6 + d] == ReloadTask::UninstallBlf(
            &applied.plan.affected@[d],
        ),
        tasks@.contains(ReloadTask::ReconcileBackgrounds { registered: &applied.registered }),
        tasks@.contains(
            ReloadTask::PublishFeatures {
                device: &applied.registered@[r],
                state: &applied.current@[f].state,
            },
        ),
{
    let device = applied.registered@[r];
    lookup::lemma_first_is(applied.current@, controller::features_of(device@), f);
    let told = features_told::<'a>(applied.current@);
    let wanted = ReloadTask::PublishFeatures { device: &device, state: &applied.current@[f].state };
    lookup::lemma_filter_map_member(applied.registered@, told, wanted);
    assert(told(applied.registered@[r]) == Some(wanted));
    let published = applied.registered@.filter_map(told);
    let k = choose|k: int| 0 <= k < published.len() && published[k] == wanted;
    let gone = applied.plan.affected@.len();
    assert(tasks@[6 + gone + k] == wanted);
    assert(tasks@[(6 + gone + published.len()) as int] == (ReloadTask::ReconcileBackgrounds {
        registered: &applied.registered,
    }));
}

/// Prompts that a reload cancelled are taken back from where they were shown, and
/// roaming lines that it removed from the stations that are registered.
pub proof fn law_reloads_withdraw_roaming_lines(
    access: &Access,
    application_id: u32,
    cancelled: Vec<CancelledPrompt>,
    removed: Vec<MobilityAppearance>,
    tasks: Vec<MobilityReloadTask>,
    i: int,
    k: int,
)
    requires
        call_ensures(
            reconcile_mobility_after_reload,
            (access, application_id, &cancelled, &removed),
            tasks,
        ),
        0 <= i,
        0 <= k,
    ensures
        tasks@.len() == cancelled@.len() + removed@.len(),
        i < cancelled@.len() ==> (tasks@[i] matches MobilityReloadTask::Cancel(response)
            && response.target == cancelled@[i].target && response.routing.application_id
            == application_id && response.routing.transaction_id == cancelled@[i].transaction_id),
        k < removed@.len() ==> (tasks@[cancelled@.len() + k] matches MobilityReloadTask::Remove(
            removal,
        ) && removal.line == removed@[k].binding.line.number && (removal.command is Some
            <==> access.shared.controller.registered_spec(removed@[k].device_id@)) && (
        removal.command matches Some(command) ==> command.device_id == removed@[k].device_id
            && command.action == (PhoneCommandAction::SetMobilityAppearance {
            mobility_instance: removed@[k].button_instance,
            appearance_id: None,
        }))),
{
}

/// Stopping first suspends allocations and closes requests, stops what makes work
/// before what carries it out, and leaves the controller last.
pub proof fn law_stopping_ends_with_the_controller(module: Module, steps: Vec<StopStep>)
    requires
        call_ensures(Module::stop, (module,), steps),
    ensures
        steps@.len() == 26,
        steps@[0] is SuspendAllocations && steps@[1] is CloseRequests
            && steps@[2] is SignalEventShutdown && steps@[3] is ClearRegistrations
            && steps@[4] is AwaitOrdinaryEvents && steps@[5] is ShutDownBackgrounds
            && steps@[6] is JoinBackgrounds && steps@[7] is ShutDownConferences
            && steps@[8] is ShutDownMicrophones && steps@[9] is JoinWorkers
            && steps@[10] is UnsubscribeParking && steps@[11] is JoinParking
            && steps@[12] is JoinSignals,
        steps@[13] is ShutDownRemoteHangups && steps@[14] is JoinSchedules
            && steps@[15] is JoinMedia && steps@[16] is FinishEventShutdown
            && steps@[17] is ShutDownTransport && steps@[18] is JoinEvents
            && steps@[19] is JoinTransport && steps@[20] is JoinBridges
            && steps@[21] is JoinPresence && steps@[22] is JoinResolver
            && steps@[23] is JoinPublication && steps@[24] is JoinConfiguration
            && steps@[25] is JoinController,
{
}

/// Starting takes its steps in their order. A step that fails undoes exactly the
/// earlier steps that left something, the later before the earlier, except that the
/// registered actions go in the order they came.
pub proof fn law_starting_undoes_what_it_did(
    step: StartStep,
    steps: Vec<StartStep>,
    reason: String,
    action: StartAction,
    went: StartAction,
    i: int,
)
    requires
        call_ensures(start_steps, (), steps),
        0 <= i < steps@.len(),
        steps@[i] == step,
        call_ensures(Module::start, (step, Err(reason)), action),
        call_ensures(Module::start, (step, Ok(())), went),
    ensures
        steps@.len() == 29,
        steps@[0] is Runtime && steps@[1] is Tls && steps@[2] is Bind && steps@[3] is Policy
            && steps@[4] is Schedules && steps@[5] is Features && steps@[6] is Parking
            && steps@[7] is Listener && steps@[8] is CompletionDelivery
            && steps@[9] is ExternalAddress && steps@[10] is Bridges && steps@[11] is Media
            && steps@[12] is ControllerCapacity && steps@[13] is Controller,
        steps@[14] is ConfigurationRuntime && steps@[15] is Configuration
            && steps@[16] is Directory && steps@[17] is Inventory && steps@[18] is Status
            && steps@[19] is FeatureControl && steps@[20] is Controls && steps@[21] is Services
            && steps@[22] is DeviceQuery && steps@[23] is LineQuery && steps@[24] is ChannelQuery
            && steps@[25] is CodecPreference && steps@[26] is CalledParty
            && steps@[27] is HandsetMessage && steps@[28] is CallIndication,
        i < 28 ==> went == StartAction::Continue(steps@[i + 1]),
        i == 28 ==> went is Run,
        action matches StartAction::Fail { undo, .. } && (undo@.contains(StartStep::Parking) <==> i
            > 6) && (undo@.contains(StartStep::Bridges) <==> i > 10) && (undo@.contains(
            StartStep::Controller,
        ) <==> i > 13) && (undo@.contains(StartStep::Directory) <==> i > 16) && (undo@.contains(
            StartStep::Media,
        ) <==> i > 11) && (undo@.contains(StartStep::Configuration) <==> i > 15) && !undo@.contains(
            StartStep::Runtime,
        ) && !undo@.contains(StartStep::Bind) && !undo@.contains(StartStep::Listener),
{
    if i < 28 {
        if let StartAction::Continue(next) = went {
            assert(start_rank(steps@[i + 1]) == i + 1);
        }
    }
}

/// A reload keeps the registrations of the stations that it does not affect, and
/// configures anew those that it affects or adds.
pub proof fn law_unaffected_stations_stay_registered(
    plan: ReloadPlan,
    registered: Vec<DeviceId>,
    kept: Vec<DeviceId>,
    anew: Vec<DeviceId>,
    device: DeviceId,
)
    requires
        call_ensures(registered_after, (&plan, &registered), kept),
        call_ensures(reconfigured_devices, (&plan,), anew),
    ensures
        kept@.contains(device) <==> registered@.contains(device) && forall|i: int|
            0 <= i < plan.affected@.len() ==> (#[trigger] plan.affected@[i])@ != device@,
        anew@.contains(device) <==> plan.affected@.contains(device) || plan.added@.contains(device),
{
    lookup::lemma_filter_holds(registered@, unaffected(plan), device);
    lookup::lemma_sum_holds(plan.affected@, plan.added@, device);
    let p = is_named(device@);
    if lookup::some(plan.affected@, p) {
        let i = choose|i: int| 0 <= i < plan.affected@.len() && p(#[trigger] plan.affected@[i]);
        assert(plan.affected@[i]@ == device@);
    } else {
        assert forall|i: int| 0 <= i < plan.affected@.len() implies (
        #[trigger] plan.affected@[i])@ != device@ by {
            assert(!p(plan.affected@[i]));
        }
    }
}

/// A report of what went wrong ends with what went wrong, and there is one exactly
/// where something did.
pub proof fn law_reports_say_what_went_wrong(
    kind: &str,
    stage: AcceptedSocketStage,
    error: &str,
    text: String,
    step: StartStep,
    cause: String,
    told: String,
    failures: u64,
    report: Option<String>,
)
    requires
        call_ensures(accepted_socket_error, (kind, stage, error), text),
        call_ensures(start_error, (step, cause), told),
        call_ensures(worker_failures, (failures,), report),
    ensures
        text@.len() >= error@.len(),
        text@.skip(text@.len() - error@.len()) == error@,
        told@.len() >= cause@.len(),
        told@.skip(told@.len() - cause@.len()) == cause@,
        report is Some <==> failures > 0,
{
    assert(text@.skip(text@.len() - error@.len()) =~= error@);
    assert(told@.skip(told@.len() - cause@.len()) =~= cause@);
}

} // verus!
