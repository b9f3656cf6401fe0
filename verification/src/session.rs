//! Registration of a station, its replacement by a later one, and its end.

use vstd::prelude::*;

use crate::access::{registered_device_ids, Access, Shared};
use crate::call_control::{self, shows_conference_list};
use crate::conference::ConferenceSession;
use crate::effects::DriverEffect;
use crate::events::{self, PhoneDeviceEvent, PhoneDeviceEventKind};
use crate::ids::{CallId, ConferenceId, DeviceId, SessionGeneration};
use crate::lookup;
use crate::model::{self, DeviceFeatureState, DeviceRegistration, RegisteredDevice};

verus! {

/// What the controller prepared for an event of a registration.
#[derive(Debug, PartialEq, Eq)]
pub enum SessionPreparation {
    RejectedRegistration,
    Registered {
        registration: DeviceRegistration,
        /// An earlier registration of the station ended.
        replaced: bool,
        /// What ends the calls of that one.
        cleanup: Vec<DriverEffect>,
        affected_conferences: Vec<ConferenceId>,
        surviving_conferences: Vec<ConferenceSession>,
    },
    Disconnected {
        /// What ends the station's calls.
        cleanup: Vec<DriverEffect>,
        affected_conferences: Vec<ConferenceId>,
        surviving_conferences: Vec<ConferenceSession>,
    },
}

/// An event whose effect on the calls is already prepared.
#[derive(Debug, PartialEq, Eq)]
pub struct PreparedSessionEvent {
    pub device_id: DeviceId,
    pub session_generation: SessionGeneration,
    pub preparation: SessionPreparation,
}

impl PreparedSessionEvent {
    pub fn is_disconnected(&self) -> (disconnected: bool)
        ensures
            disconnected == (self.preparation is Disconnected),
    {
        match &self.preparation {
            SessionPreparation::Disconnected { .. } => true,
            _ => false,
        }
    }
}

/// What the controller answers when a registration or its end is reported.
#[derive(Debug, PartialEq, Eq)]
pub enum SessionReply {
    /// The controller failed.
    Failed,
    /// The event does not concern a registration that stands.
    Ignored,
    Registered {
        replaced: bool,
        cleanup: Vec<DriverEffect>,
        affected_conferences: Vec<ConferenceId>,
        surviving_conferences: Vec<ConferenceSession>,
    },
    Disconnected {
        cleanup: Vec<DriverEffect>,
        affected_conferences: Vec<ConferenceId>,
        surviving_conferences: Vec<ConferenceSession>,
    },
}

/// What is prepared for an event with the controller's answer.
pub open spec fn preparation_spec(event: PhoneDeviceEventKind, reply: SessionReply) -> Option<
    SessionPreparation,
> {
    match (event, reply) {
        (PhoneDeviceEventKind::Registered(_), SessionReply::Failed) => Some(
            SessionPreparation::RejectedRegistration,
        ),
        (
            PhoneDeviceEventKind::Registered(registration),
            SessionReply::Registered {
                replaced,
                cleanup,
                affected_conferences,
                surviving_conferences,
            },
        ) => Some(
            SessionPreparation::Registered {
                registration,
                replaced,
                cleanup,
                affected_conferences,
                surviving_conferences,
            },
        ),
        (
            PhoneDeviceEventKind::Disconnected,
            SessionReply::Disconnected { cleanup, affected_conferences, surviving_conferences },
        ) => Some(
            SessionPreparation::Disconnected {
                cleanup,
                affected_conferences,
                surviving_conferences,
            },
        ),
        _ => None,
    }
}

/// Puts an event together with what the controller prepared for it. A
/// registration that the controller could not take is turned away; an end that
/// it could not take is ignored.
pub fn prepare_session_event(event: &PhoneDeviceEvent, reply: SessionReply) -> (prepared: Option<
    PreparedSessionEvent,
>)
    ensures
        prepared == match preparation_spec(event.event, reply) {
            Some(preparation) => Some(
                PreparedSessionEvent {
                    device_id: event.device_id,
                    session_generation: event.session_generation,
                    preparation,
                },
            ),
            None => None,
        },
{
    let preparation = match &event.event {
        PhoneDeviceEventKind::Registered(registration) => match reply {
            SessionReply::Failed => SessionPreparation::RejectedRegistration,
            SessionReply::Registered {
                replaced,
                cleanup,
                affected_conferences,
                surviving_conferences,
            } => SessionPreparation::Registered {
                registration: registration.clone(),
                replaced,
                cleanup,
                affected_conferences,
                surviving_conferences,
            },
            _ => return None,
        },
        PhoneDeviceEventKind::Disconnected => match reply {
            SessionReply::Disconnected { cleanup, affected_conferences, surviving_conferences } =>
                SessionPreparation::Disconnected {
                cleanup,
                affected_conferences,
                surviving_conferences,
            },
            _ => return None,
        },
        _ => return None,
    };
    Some(
        PreparedSessionEvent {
            device_id: event.device_id.clone(),
            session_generation: event.session_generation,
            preparation,
        },
    )
}

/// How long a change waits for the configuration to be free.
pub const TRANSACTION_TIMEOUT_SECONDS: u32 = 3;

/// One thing to do for a registration.
#[derive(Debug, PartialEq, Eq)]
pub enum SessionTask {
    CancelAnnouncement(ConferenceId),
    ExecuteCleanup(Vec<DriverEffect>),
    PruneRecordings,
    ShowConferenceList { device_id: DeviceId, call_id: CallId },
    /// Ask for the right to change the configuration's view of stations, and
    /// wait for it no longer than this.
    BeginTransaction { timeout_seconds: u32 },
    ReleaseTransaction,
    /// Restore the station's features, falling back to the present and to the
    /// configured ones.
    LoadFeatures { device_id: DeviceId },
    /// Have the controller take the features for the registration.
    CommitFeatures {
        device_id: DeviceId,
        generation: SessionGeneration,
        features: DeviceFeatureState,
    },
    /// Publish the station's extensions beside those of all that are registered.
    PublishContexts { device_id: DeviceId, registered: Vec<DeviceId> },
    /// Have the controller end the registration; it returns what ends its calls.
    PrepareDisconnect { device_id: DeviceId, generation: SessionGeneration },
    RetireContexts,
    DisconnectSession { device_id: DeviceId, generation: SessionGeneration },
    InstallBlf(DeviceId),
    UninstallBlf { device_id: DeviceId, generation: SessionGeneration },
    PublishLines(DeviceId),
    PublishFeatures { device_id: DeviceId, features: DeviceFeatureState },
    PublishRecordingButton(DeviceId),
    PublishRegistered(DeviceRegistration),
    PublishDisconnected(DeviceId),
    RestoreSystemMessage(DeviceId),
    RestoreMobility(DeviceId),
    ApplyBackground(DeviceId),
}

/// What an event waits for.
#[derive(Debug, PartialEq, Eq)]
pub enum SessionPhase {
    AwaitTransaction { registration: DeviceRegistration },
    AwaitFeatures { registration: DeviceRegistration },
    AwaitCommit { registration: DeviceRegistration, features: DeviceFeatureState },
    AwaitContexts { registration: DeviceRegistration, features: DeviceFeatureState },
    /// No transaction was granted, and the registration is being ended.
    Refusing { device_id: DeviceId },
    /// The extensions were not published, and the registration is being ended.
    Withdrawing { device_id: DeviceId },
    /// The tasks of an ended registration are done.
    AwaitCleanup { device_id: DeviceId },
    Finished,
}

/// What came back.
#[derive(Debug, PartialEq, Eq)]
pub enum SessionProgress {
    /// Whether the last task succeeded: whether the transaction was granted, the
    /// features were taken or the extensions were published.
    Succeeded(bool),
    Features(DeviceFeatureState),
    /// What ends the calls of a registration that was taken back.
    Cleanup(Vec<DriverEffect>),
}

impl SessionPhase {
    /// A transaction is held that has to be released.
    pub open spec fn holds_transaction(self) -> bool {
        self is AwaitFeatures || self is AwaitCommit || self is AwaitContexts
            || self is Withdrawing
    }
}

/// Ending the announcement of a conference.
pub open spec fn silence() -> spec_fn(ConferenceId) -> SessionTask {
    |conference: ConferenceId| SessionTask::CancelAnnouncement(conference)
}

/// Showing the list of a conference, where its owner's configuration asks for
/// it.
pub open spec fn list_of(shared: Shared) -> spec_fn(ConferenceSession) -> Option<SessionTask> {
    |conference: ConferenceSession|
        if call_control::shows_list_spec(shared, conference.device_id@) {
            Some(
                SessionTask::ShowConferenceList {
                    device_id: conference.device_id,
                    call_id: conference.original_handset_call_id,
                },
            )
        } else {
            None
        }
}

/// The first tasks of an event, and what it then waits for.
pub open spec fn begin_spec(shared: Shared, event: PreparedSessionEvent) -> (
    SessionPhase,
    Seq<SessionTask>,
) {
    let device_id = event.device_id;
    let generation = event.session_generation;
    match event.preparation {
        SessionPreparation::RejectedRegistration => (
            SessionPhase::Finished,
            seq![SessionTask::DisconnectSession { device_id, generation }],
        ),
        SessionPreparation::Registered {
            registration,
            replaced,
            cleanup,
            affected_conferences,
            surviving_conferences,
        } => (
            SessionPhase::AwaitTransaction { registration },
            (if replaced {
                affected_conferences@.map_values(silence())
            } else {
                Seq::empty()
            }) + seq![SessionTask::ExecuteCleanup(cleanup), SessionTask::PruneRecordings]
                + surviving_conferences@.filter_map(list_of(shared))
                + seq![SessionTask::BeginTransaction { timeout_seconds: TRANSACTION_TIMEOUT_SECONDS }],
        ),
        SessionPreparation::Disconnected {
            cleanup,
            affected_conferences,
            surviving_conferences,
        } => (
            SessionPhase::AwaitCleanup { device_id },
            seq![
                SessionTask::UninstallBlf { device_id, generation },
                SessionTask::RetireContexts,
                SessionTask::PublishLines(device_id),
            ] + affected_conferences@.map_values(silence()) + seq![
                SessionTask::ExecuteCleanup(cleanup),
            ] + surviving_conferences@.filter_map(list_of(shared)),
        ),
    }
}

fn push_silences(tasks: &mut Vec<SessionTask>, conferences: &Vec<ConferenceId>)
    ensures
        final(tasks)@ == old(tasks)@ + conferences@.map_values(silence()),
{
    let ghost before = tasks@;
    let mut i: usize = 0;
    while i < conferences.len()
        invariant
            0 <= i <= conferences@.len(),
            tasks@ == before + conferences@.take(i as int).map_values(silence()),
        decreases conferences@.len() - i,
    {
        tasks.push(SessionTask::CancelAnnouncement(conferences[i]));
        proof {
            assert(tasks@ =~= before + conferences@.take(i + 1).map_values(silence()));
        }
        i += 1;
    }
    proof {
        assert(conferences@.take(i as int) =~= conferences@);
    }
}

fn push_lists(access: &Access, tasks: &mut Vec<SessionTask>, conferences: &Vec<ConferenceSession>)
    ensures
        final(tasks)@ == old(tasks)@ + conferences@.filter_map(list_of(access.shared)),
{
    let ghost before = tasks@;
    let ghost f = list_of(access.shared);
    proof {
        assert(conferences@.take(0).filter_map(f) =~= Seq::<SessionTask>::empty()) by {
            reveal(Seq::filter_map);
        }
        assert(before + Seq::<SessionTask>::empty() =~= before);
    }
    let mut i: usize = 0;
    while i < conferences.len()
        invariant
            f == list_of(access.shared),
            0 <= i <= conferences@.len(),
            tasks@ == before + conferences@.take(i as int).filter_map(f),
        decreases conferences@.len() - i,
    {
        proof {
            lookup::lemma_filter_map_step(conferences@, f, i as int);
        }
        if shows_conference_list(access, &conferences[i].device_id) {
            let ghost so_far = tasks@;
            tasks.push(
                SessionTask::ShowConferenceList {
                    device_id: conferences[i].device_id.clone(),
                    call_id: conferences[i].original_handset_call_id,
                },
            );
            proof {
                assert(tasks@ =~= before + conferences@.take(i + 1).filter_map(f));
            }
        }
        i += 1;
    }
    proof {
        assert(conferences@.take(i as int) =~= conferences@);
    }
}

/// Begins to carry out a prepared event.
pub fn execute_prepared_session_event(access: &Access, event: PreparedSessionEvent) -> (step: (
    SessionPhase,
    Vec<SessionTask>,
))
    ensures
        (step.0, step.1@) == begin_spec(access.shared, event),
{
    let ghost expected = begin_spec(access.shared, event);
    let device_id = event.device_id;
    let generation = event.session_generation;
    let mut tasks: Vec<SessionTask> = Vec::new();
    let phase = match event.preparation {
        SessionPreparation::RejectedRegistration => {
            tasks.push(SessionTask::DisconnectSession { device_id, generation });
            SessionPhase::Finished
        },
        SessionPreparation::Registered {
            registration,
            replaced,
            cleanup,
            affected_conferences,
            surviving_conferences,
        } => {
            if replaced {
                push_silences(&mut tasks, &affected_conferences);
            }
            tasks.push(SessionTask::ExecuteCleanup(cleanup));
            tasks.push(SessionTask::PruneRecordings);
            push_lists(access, &mut tasks, &surviving_conferences);
            tasks.push(
                SessionTask::BeginTransaction { timeout_seconds: TRANSACTION_TIMEOUT_SECONDS },
            );
            SessionPhase::AwaitTransaction { registration }
        },
        SessionPreparation::Disconnected {
            cleanup,
            affected_conferences,
            surviving_conferences,
        } => {
            tasks.push(SessionTask::UninstallBlf { device_id: device_id.clone(), generation });
            tasks.push(SessionTask::RetireContexts);
            tasks.push(SessionTask::PublishLines(device_id.clone()));
            push_silences(&mut tasks, &affected_conferences);
            tasks.push(SessionTask::ExecuteCleanup(cleanup));
            push_lists(access, &mut tasks, &surviving_conferences);
            SessionPhase::AwaitCleanup { device_id }
        },
    };
    proof {
        assert(tasks@ =~= expected.1);
    }
    (phase, tasks)
}

/// What ends an event at `phase` without anything else being done.
pub open spec fn given_up(phase: SessionPhase) -> Seq<SessionTask> {
    if phase.holds_transaction() {
        seq![SessionTask::ReleaseTransaction]
    } else {
        Seq::empty()
    }
}

/// A registration stands in its last turn: the tasks that follow once its
/// extensions are published, with its features.
pub open spec fn published_tasks(
    registration: DeviceRegistration,
    features: DeviceFeatureState,
) -> Seq<SessionTask> {
    let device_id = registration.id;
    seq![
        SessionTask::InstallBlf(device_id),
        SessionTask::PublishLines(device_id),
        SessionTask::PublishFeatures { device_id, features },
        SessionTask::PublishRecordingButton(device_id),
        SessionTask::ReleaseTransaction,
        SessionTask::PublishRegistered(registration),
        SessionTask::RestoreSystemMessage(device_id),
        SessionTask::RestoreMobility(device_id),
        SessionTask::ApplyBackground(device_id),
    ]
}

/// The next tasks of an event, and what it then waits for. The registration has
/// to be the current one wherever it goes on.
pub open spec fn session_step(
    shared: Shared,
    generation: SessionGeneration,
    phase: SessionPhase,
    progress: SessionProgress,
    next: SessionPhase,
    tasks: Seq<SessionTask>,
) -> bool {
    match (phase, progress) {
        (SessionPhase::AwaitTransaction { registration }, SessionProgress::Succeeded(granted)) =>
            if !granted {
            &&& next == (SessionPhase::Refusing { device_id: registration.id })
            &&& tasks =~= seq![
                SessionTask::PrepareDisconnect { device_id: registration.id, generation },
            ]
        } else if shared.controller.session_current_spec(registration.id@, generation) {
            &&& next == (SessionPhase::AwaitFeatures { registration })
            &&& tasks =~= seq![SessionTask::LoadFeatures { device_id: registration.id }]
        } else {
            next is Finished && tasks =~= seq![SessionTask::ReleaseTransaction]
        },
        (SessionPhase::AwaitFeatures { registration }, SessionProgress::Features(features)) => {
            &&& next == (SessionPhase::AwaitCommit { registration, features })
            &&& tasks.len() == 1
            &&& tasks[0] matches SessionTask::CommitFeatures {
                device_id,
                generation: committed,
                features: handed,
            }
            &&& device_id == registration.id
            &&& committed == generation
            &&& model::same_features(handed, features)
        },
        (
            SessionPhase::AwaitCommit { registration, features },
            SessionProgress::Succeeded(true),
        ) => {
            &&& next == (SessionPhase::AwaitContexts { registration, features })
            &&& tasks.len() == 1
            &&& tasks[0] matches SessionTask::PublishContexts { device_id, registered }
            &&& device_id == registration.id
            &&& registered@ == shared.controller.registered@.map_values(
                |d: RegisteredDevice| d.id,
            )
        },
        (
            SessionPhase::AwaitContexts { registration, features },
            SessionProgress::Succeeded(published),
        ) => if !published {
            &&& next == (SessionPhase::Withdrawing { device_id: registration.id })
            &&& tasks =~= seq![
                SessionTask::PrepareDisconnect { device_id: registration.id, generation },
            ]
        } else if shared.controller.session_current_spec(registration.id@, generation) {
            next is Finished && tasks =~= published_tasks(registration, features)
        } else {
            next is Finished && tasks =~= seq![SessionTask::ReleaseTransaction]
        },
        (SessionPhase::Refusing { device_id }, SessionProgress::Cleanup(cleanup)) => {
            &&& next is Finished
            &&& tasks =~= seq![
                SessionTask::RetireContexts,
                SessionTask::ExecuteCleanup(cleanup),
                SessionTask::DisconnectSession { device_id, generation },
            ]
        },
        (SessionPhase::Withdrawing { device_id }, SessionProgress::Cleanup(cleanup)) => {
            &&& next is Finished
            &&& tasks =~= seq![
                SessionTask::RetireContexts,
                SessionTask::ReleaseTransaction,
                SessionTask::DisconnectSession { device_id, generation },
                SessionTask::ExecuteCleanup(cleanup),
                SessionTask::PruneRecordings,
            ]
        },
        (SessionPhase::AwaitCleanup { device_id }, _) => {
            &&& next is Finished
            &&& tasks =~= (if shared.controller.registered_spec(device_id@) {
                Seq::empty()
            } else {
                seq![SessionTask::PublishDisconnected(device_id)]
            })
        },
        _ => next is Finished && tasks =~= given_up(phase),
    }
}

fn push_published(
    tasks: &mut Vec<SessionTask>,
    registration: DeviceRegistration,
    features: DeviceFeatureState,
)
    ensures
        final(tasks)@ == old(tasks)@ + published_tasks(registration, features),
{
    let ghost before = tasks@;
    let ghost expected = published_tasks(registration, features);
    let device_id = registration.id.clone();
    tasks.push(SessionTask::InstallBlf(device_id.clone()));
    tasks.push(SessionTask::PublishLines(device_id.clone()));
    tasks.push(SessionTask::PublishFeatures { device_id: device_id.clone(), features });
    tasks.push(SessionTask::PublishRecordingButton(device_id.clone()));
    tasks.push(SessionTask::ReleaseTransaction);
    tasks.push(SessionTask::PublishRegistered(registration));
    tasks.push(SessionTask::RestoreSystemMessage(device_id.clone()));
    tasks.push(SessionTask::RestoreMobility(device_id.clone()));
    tasks.push(SessionTask::ApplyBackground(device_id));
    proof {
        assert(tasks@ =~= before + expected);
    }
}

/// Goes on with a prepared event.
pub fn handle_prepared_session_event(
    access: &Access,
    generation: SessionGeneration,
    phase: SessionPhase,
    progress: SessionProgress,
) -> (step: (SessionPhase, Vec<SessionTask>))
    ensures
        session_step(access.shared, generation, phase, progress, step.0, step.1@),
{
    let mut tasks: Vec<SessionTask> = Vec::new();
    let next = match (phase, progress) {
        (SessionPhase::AwaitTransaction { registration }, SessionProgress::Succeeded(granted)) => {
            if !granted {
                let device_id = registration.id;
                tasks.push(
                    SessionTask::PrepareDisconnect { device_id: device_id.clone(), generation },
                );
                SessionPhase::Refusing { device_id }
            } else if access.shared.controller.session_is_current(&registration.id, generation) {
                tasks.push(SessionTask::LoadFeatures { device_id: registration.id.clone() });
                SessionPhase::AwaitFeatures { registration }
            } else {
                tasks.push(SessionTask::ReleaseTransaction);
                SessionPhase::Finished
            }
        },
        (SessionPhase::AwaitFeatures { registration }, SessionProgress::Features(features)) => {
            tasks.push(
                SessionTask::CommitFeatures {
                    device_id: registration.id.clone(),
                    generation,
                    features: features.clone(),
                },
            );
            SessionPhase::AwaitCommit { registration, features }
        },
        (
            SessionPhase::AwaitCommit { registration, features },
            SessionProgress::Succeeded(committed),
        ) => {
            if committed {
                tasks.push(
                    SessionTask::PublishContexts {
                        device_id: registration.id.clone(),
                        registered: registered_device_ids(&access.shared),
                    },
                );
                SessionPhase::AwaitContexts { registration, features }
            } else {
                tasks.push(SessionTask::ReleaseTransaction);
                SessionPhase::Finished
            }
        },
        (
            SessionPhase::AwaitContexts { registration, features },
            SessionProgress::Succeeded(published),
        ) => {
            if !published {
                let device_id = registration.id;
                tasks.push(
                    SessionTask::PrepareDisconnect { device_id: device_id.clone(), generation },
                );
                SessionPhase::Withdrawing { device_id }
            } else if access.shared.controller.session_is_current(&registration.id, generation) {
                push_published(&mut tasks, registration, features);
                SessionPhase::Finished
            } else {
                tasks.push(SessionTask::ReleaseTransaction);
                SessionPhase::Finished
            }
        },
        (SessionPhase::Refusing { device_id }, SessionProgress::Cleanup(cleanup)) => {
            tasks.push(SessionTask::RetireContexts);
            tasks.push(SessionTask::ExecuteCleanup(cleanup));
            tasks.push(SessionTask::DisconnectSession { device_id, generation });
            SessionPhase::Finished
        },
        (SessionPhase::Withdrawing { device_id }, SessionProgress::Cleanup(cleanup)) => {
            tasks.push(SessionTask::RetireContexts);
            tasks.push(SessionTask::ReleaseTransaction);
            tasks.push(SessionTask::DisconnectSession { device_id, generation });
            tasks.push(SessionTask::ExecuteCleanup(cleanup));
            tasks.push(SessionTask::PruneRecordings);
            SessionPhase::Finished
        },
        (SessionPhase::AwaitCleanup { device_id }, _) => {
            if !access.shared.controller.is_registered(&device_id) {
                tasks.push(SessionTask::PublishDisconnected(device_id));
            }
            SessionPhase::Finished
        },
        (
            SessionPhase::AwaitFeatures { .. }
            | SessionPhase::AwaitCommit { .. }
            | SessionPhase::AwaitContexts { .. }
            | SessionPhase::Withdrawing { .. },
            _,
        ) => {
            tasks.push(SessionTask::ReleaseTransaction);
            SessionPhase::Finished
        },
        _ => SessionPhase::Finished,
    };
    (next, tasks)
}

/// How an event of a registration is handled.
#[derive(Clone, Copy, Debug, PartialEq, Eq, Structural)]
pub enum SessionRoute {
    UpdateCapabilities,
    Prepare,
}

/// What a station can do is noted at once; registrations and their ends are
/// prepared first.
pub fn handle_session_event(event: &PhoneDeviceEventKind) -> (route: SessionRoute)
    requires
        events::is_session_event(*event),
    ensures
        route == SessionRoute::UpdateCapabilities <==> *event is Capabilities,
{
    match event {
        PhoneDeviceEventKind::Capabilities { .. } => SessionRoute::UpdateCapabilities,
        _ => SessionRoute::Prepare,
    }
}

/// The tasks release a transaction.
pub open spec fn releases(tasks: Seq<SessionTask>) -> bool {
    tasks.contains(SessionTask::ReleaseTransaction)
}

/// A transaction that was granted is released when the event is over, whichever
/// way it goes, and not before.
pub proof fn law_granted_transactions_are_released(
    shared: Shared,
    generation: SessionGeneration,
    phase: SessionPhase,
    progress: SessionProgress,
    next: SessionPhase,
    tasks: Seq<SessionTask>,
)
    requires
        session_step(shared, generation, phase, progress, next, tasks),
    ensures
        ({
            let held = phase.holds_transaction() || (phase is AwaitTransaction && progress
                == SessionProgress::Succeeded(true));
            &&& held ==> (next.holds_transaction() <==> !releases(tasks))
            &&& !held ==> !releases(tasks) && !next.holds_transaction()
        }),
{
    let release = SessionTask::ReleaseTransaction;
    if tasks.len() == 9 {
        assert(tasks[4] == release);
    } else if tasks.len() == 5 {
        assert(tasks[1] == release);
    } else if tasks.len() == 1 && tasks[0] == release {
        assert(releases(tasks));
    }
}

/// A station is reported as registered only while its registration is the
/// current one, after its features were taken and its extensions published.
pub proof fn law_only_current_registrations_are_published(
    shared: Shared,
    generation: SessionGeneration,
    phase: SessionPhase,
    progress: SessionProgress,
    next: SessionPhase,
    tasks: Seq<SessionTask>,
    registration: DeviceRegistration,
)
    requires
        session_step(shared, generation, phase, progress, next, tasks),
        tasks.contains(SessionTask::PublishRegistered(registration)),
    ensures
        phase matches SessionPhase::AwaitContexts { registration: published, .. } && published
            == registration,
        progress == SessionProgress::Succeeded(true),
        shared.controller.session_current_spec(registration.id@, generation),
{
}

/// The features that are published for a station are those that the controller
/// took for its registration.
pub proof fn law_published_features_are_the_committed_ones(
    shared: Shared,
    later: Shared,
    last: Shared,
    generation: SessionGeneration,
    registration: DeviceRegistration,
    features: DeviceFeatureState,
    committing: SessionPhase,
    commit: Seq<SessionTask>,
    publishing: SessionPhase,
    contexts: Seq<SessionTask>,
    finished: SessionPhase,
    tasks: Seq<SessionTask>,
)
    requires
        session_step(
            shared,
            generation,
            SessionPhase::AwaitFeatures { registration },
            SessionProgress::Features(features),
            committing,
            commit,
        ),
        session_step(
            later,
            generation,
            committing,
            SessionProgress::Succeeded(true),
            publishing,
            contexts,
        ),
        session_step(
            last,
            generation,
            publishing,
            SessionProgress::Succeeded(true),
            finished,
            tasks,
        ),
        last.controller.session_current_spec(registration.id@, generation),
    ensures
        tasks.contains(SessionTask::PublishFeatures { device_id: registration.id, features }),
        commit[0] matches SessionTask::CommitFeatures { device_id, features: handed, .. }
            && device_id == registration.id && model::same_features(handed, features),
{
    assert(tasks[2] == (SessionTask::PublishFeatures { device_id: registration.id, features }));
}

/// A station that registered is prepared with its own registration and what the
/// controller cleaned up, one that could not register is rejected, and one that
/// left is cleaned up; nothing else is prepared. The event keeps its station and
/// session.
pub proof fn law_sessions_are_prepared_by_their_event(
    event: PhoneDeviceEvent,
    reply: SessionReply,
    prepared: Option<PreparedSessionEvent>,
    disconnected: bool,
)
    requires
        call_ensures(prepare_session_event, (&event, reply), prepared),
        prepared matches Some(prepared) ==> call_ensures(
            PreparedSessionEvent::is_disconnected,
            (&prepared,),
            disconnected,
        ),
    ensures
        prepared is Some <==> (event.event is Registered && (reply is Failed || reply is Registered))
            || (event.event is Disconnected && reply is Disconnected),
        prepared matches Some(prepared) ==> {
            &&& prepared.device_id == event.device_id
            &&& prepared.session_generation == event.session_generation
            &&& prepared.preparation is RejectedRegistration <==> reply is Failed
            &&& disconnected <==> event.event is Disconnected
            &&& prepared.preparation matches SessionPreparation::Registered {
                registration,
                replaced,
                cleanup,
                affected_conferences,
                surviving_conferences,
            } ==> event.event == PhoneDeviceEventKind::Registered(registration) && reply == (
            SessionReply::Registered {
                replaced,
                cleanup,
                affected_conferences,
                surviving_conferences,
            })
            &&& prepared.preparation matches SessionPreparation::Disconnected {
                cleanup,
                affected_conferences,
                surviving_conferences,
            } ==> reply == (SessionReply::Disconnected {
                cleanup,
                affected_conferences,
                surviving_conferences,
            })
        },
{
}

/// A rejected registration is only disconnected. A new registration runs its
/// cleanup, and asks for the transaction last; announcements are silenced only
/// where it replaced a session. A station that left gives up its presence first and
/// has its cleanup run.
pub proof fn law_sessions_begin_with_their_cleanup(
    access: &Access,
    event: PreparedSessionEvent,
    phase: SessionPhase,
    tasks: Vec<SessionTask>,
    conference: ConferenceId,
    survivor: ConferenceSession,
)
    requires
        call_ensures(execute_prepared_session_event, (access, event), (phase, tasks)),
    ensures
        event.preparation is RejectedRegistration ==> phase is Finished && tasks@.len() == 1
            && tasks@[0] == (SessionTask::DisconnectSession {
            device_id: event.device_id,
            generation: event.session_generation,
        }),
        event.preparation matches SessionPreparation::Registered {
            registration,
            replaced,
            cleanup,
            affected_conferences,
            surviving_conferences,
        } ==> {
            &&& phase == (SessionPhase::AwaitTransaction { registration })
            &&& tasks@.last() == (SessionTask::BeginTransaction {
                timeout_seconds: TRANSACTION_TIMEOUT_SECONDS,
            })
            &&& tasks@.contains(SessionTask::ExecuteCleanup(cleanup))
            &&& tasks@.contains(SessionTask::PruneRecordings)
            &&& tasks@.contains(SessionTask::CancelAnnouncement(conference)) <==> replaced
                && affected_conferences@.contains(conference)
            &&& surviving_conferences@.contains(survivor) && call_control::shows_list_spec(
                access.shared,
                survivor.device_id@,
            ) ==> tasks@.contains(
                (SessionTask::ShowConferenceList {
                    device_id: survivor.device_id,
                    call_id: survivor.original_handset_call_id,
                }),
            )
        },
        event.preparation matches SessionPreparation::Disconnected {
            cleanup,
            affected_conferences,
            surviving_conferences,
        } ==> {
            &&& phase == (SessionPhase::AwaitCleanup { device_id: event.device_id })
            &&& tasks@[0] == (SessionTask::UninstallBlf {
                device_id: event.device_id,
                generation: event.session_generation,
            })
            &&& tasks@[1] is RetireContexts
            &&& tasks@[2] == SessionTask::PublishLines(event.device_id)
            &&& tasks@.contains(SessionTask::ExecuteCleanup(cleanup))
            &&& affected_conferences@.contains(conference) ==> tasks@.contains(
                SessionTask::CancelAnnouncement(conference),
            )
            &&& surviving_conferences@.contains(survivor) && call_control::shows_list_spec(
                access.shared,
                survivor.device_id@,
            ) ==> tasks@.contains(
                (SessionTask::ShowConferenceList {
                    device_id: survivor.device_id,
                    call_id: survivor.original_handset_call_id,
                }),
            )
        },
{
    let f = list_of(access.shared);
    let shown = SessionTask::ShowConferenceList {
        device_id: survivor.device_id,
        call_id: survivor.original_handset_call_id,
    };
    match event.preparation {
        SessionPreparation::Registered {
            replaced,
            cleanup,
            affected_conferences,
            surviving_conferences,
            ..
        } => {
            let quiet = if replaced {
                affected_conferences@.map_values(silence())
            } else {
                Seq::<SessionTask>::empty()
            };
            let lists = surviving_conferences@.filter_map(f);
            assert(tasks@[quiet.len() as int] == SessionTask::ExecuteCleanup(cleanup));
            assert(tasks@[(quiet.len() + 1) as int] == SessionTask::PruneRecordings);
            lookup::lemma_filter_map_member(surviving_conferences@, f, shown);
            if surviving_conferences@.contains(survivor) && call_control::shows_list_spec(
                access.shared,
                survivor.device_id@,
            ) {
                let i = choose|i: int|
                    0 <= i < surviving_conferences@.len() && surviving_conferences@[i] == survivor;
                assert(f(surviving_conferences@[i]) == Some(shown));
                let k = choose|k: int| 0 <= k < lists.len() && lists[k] == shown;
                assert(tasks@[quiet.len() + 2 + k] == shown);
            }
            let wanted = SessionTask::CancelAnnouncement(conference);
            if tasks@.contains(wanted) {
                let i = choose|i: int| 0 <= i < tasks@.len() && tasks@[i] == wanted;
                if i < quiet.len() {
                    assert(affected_conferences@[i] == conference);
                } else if quiet.len() + 2 <= i < quiet.len() + 2 + lists.len() {
                    let k = i - quiet.len() - 2;
                    assert(lists[k] == wanted);
                    lookup::lemma_filter_map_member(surviving_conferences@, f, wanted);
                }
            }
            if replaced && affected_conferences@.contains(conference) {
                let i = choose|i: int|
                    0 <= i < affected_conferences@.len() && affected_conferences@[i] == conference;
                assert(tasks@[i] == wanted);
            }
        },
        SessionPreparation::Disconnected {
            cleanup,
            affected_conferences,
            surviving_conferences,
        } => {
            let quiet = affected_conferences@.map_values(silence());
            let lists = surviving_conferences@.filter_map(f);
            assert(tasks@[(3 + quiet.len()) as int] == SessionTask::ExecuteCleanup(cleanup));
            lookup::lemma_filter_map_member(surviving_conferences@, f, shown);
            if surviving_conferences@.contains(survivor) && call_control::shows_list_spec(
                access.shared,
                survivor.device_id@,
            ) {
                let i = choose|i: int|
                    0 <= i < surviving_conferences@.len() && surviving_conferences@[i] == survivor;
                assert(f(surviving_conferences@[i]) == Some(shown));
                let k = choose|k: int| 0 <= k < lists.len() && lists[k] == shown;
                assert(tasks@[3 + quiet.len() + 1 + k] == shown);
            }
            if affected_conferences@.contains(conference) {
                let i = choose|i: int|
                    0 <= i < affected_conferences@.len() && affected_conferences@[i] == conference;
                assert(tasks@[3 + i] == SessionTask::CancelAnnouncement(conference));
            }
        },
        _ => {},
    }
}

/// A registration loads its features only in the transaction and while its session
/// is current, commits what was loaded for that session, publishes its contexts
/// once that is committed, and is announced only after they were published.
pub proof fn law_registrations_publish_in_order(
    access: &Access,
    generation: SessionGeneration,
    phase: SessionPhase,
    progress: SessionProgress,
    next: SessionPhase,
    tasks: Vec<SessionTask>,
    k: int,
)
    requires
        call_ensures(
            handle_prepared_session_event,
            (access, generation, phase, progress),
            (next, tasks),
        ),
        0 <= k < tasks@.len(),
    ensures
        tasks@[k] matches SessionTask::LoadFeatures { device_id } ==> (phase matches
            SessionPhase::AwaitTransaction { registration } && device_id == registration.id
            && progress == SessionProgress::Succeeded(true)
            && access.shared.controller.session_current_spec(registration.id@, generation) && next
            == (SessionPhase::AwaitFeatures { registration })),
        tasks@[k] matches SessionTask::CommitFeatures { device_id, generation: of, features } ==> (
        phase matches SessionPhase::AwaitFeatures { registration } && device_id == registration.id
            && of == generation && (progress matches SessionProgress::Features(loaded)
            && features.dnd == loaded.dnd && features.privacy == loaded.privacy)),
        tasks@[k] matches SessionTask::PublishContexts { device_id, .. } ==> (phase matches
            SessionPhase::AwaitCommit { registration, .. } && device_id == registration.id
            && progress == SessionProgress::Succeeded(true)),
        tasks@[k] matches SessionTask::PublishRegistered(registered) ==> (phase matches
            SessionPhase::AwaitContexts { registration, .. } && registered == registration
            && progress == SessionProgress::Succeeded(true)
            && access.shared.controller.session_current_spec(registration.id@, generation)),
        tasks@[k] matches SessionTask::PublishFeatures { device_id, features } ==> (phase matches
            SessionPhase::AwaitContexts { registration, features: committed } && device_id
            == registration.id && features == committed),
        tasks@[k] matches SessionTask::InstallBlf(device_id) ==> (phase matches
            SessionPhase::AwaitContexts { registration, .. } && device_id == registration.id),
        tasks@[k] matches SessionTask::PrepareDisconnect { device_id, generation: of } ==> of
            == generation && progress == SessionProgress::Succeeded(false) && ((phase matches
            SessionPhase::AwaitTransaction { registration } && device_id == registration.id) || (
        phase matches SessionPhase::AwaitContexts { registration, .. } && device_id
            == registration.id)),
        tasks@[k] matches SessionTask::DisconnectSession { device_id, generation: of } ==> of
            == generation && (phase == (SessionPhase::Refusing { device_id }) || phase == (
        SessionPhase::Withdrawing { device_id })),
        tasks@[k] matches SessionTask::ExecuteCleanup(cleanup) ==> progress
            == SessionProgress::Cleanup(cleanup),
        tasks@[k] matches SessionTask::PublishDisconnected(device_id) ==> phase == (
        SessionPhase::AwaitCleanup { device_id }) && !access.shared.controller.registered_spec(
            device_id@,
        ),
{
}

/// A registration that goes well takes the next step each time: its features are
/// loaded, committed, its contexts published, and the station is announced with its
/// lines, features and message, once and in this order.
pub proof fn law_registrations_advance(
    access: &Access,
    generation: SessionGeneration,
    registration: DeviceRegistration,
    features: DeviceFeatureState,
    granted: (SessionPhase, Vec<SessionTask>),
    loaded: (SessionPhase, Vec<SessionTask>),
    committed: (SessionPhase, Vec<SessionTask>),
    published: (SessionPhase, Vec<SessionTask>),
    left: (SessionPhase, Vec<SessionTask>),
)
    requires
        access.shared.controller.session_current_spec(registration.id@, generation),
        call_ensures(
            handle_prepared_session_event,
            (
                access,
                generation,
                (SessionPhase::AwaitTransaction { registration }),
                SessionProgress::Succeeded(true),
            ),
            granted,
        ),
        call_ensures(
            handle_prepared_session_event,
            (
                access,
                generation,
                (SessionPhase::AwaitFeatures { registration }),
                SessionProgress::Features(features),
            ),
            loaded,
        ),
        call_ensures(
            handle_prepared_session_event,
            (
                access,
                generation,
                (SessionPhase::AwaitCommit { registration, features }),
                SessionProgress::Succeeded(true),
            ),
            committed,
        ),
        call_ensures(
            handle_prepared_session_event,
            (
                access,
                generation,
                (SessionPhase::AwaitContexts { registration, features }),
                SessionProgress::Succeeded(true),
            ),
            published,
        ),
        call_ensures(
            handle_prepared_session_event,
            (
                access,
                generation,
                (SessionPhase::AwaitCleanup { device_id: registration.id }),
                SessionProgress::Succeeded(true),
            ),
            left,
        ),
    ensures
        granted.1@.len() == 1 && granted.1@[0] is LoadFeatures && granted.0 is AwaitFeatures,
        loaded.1@.len() == 1 && loaded.1@[0] is CommitFeatures && loaded.0 == (
        SessionPhase::AwaitCommit { registration, features }),
        committed.1@.len() == 1 && committed.1@[0] is PublishContexts && committed.0 == (
        SessionPhase::AwaitContexts { registration, features }),
        committed.1@[0] matches SessionTask::PublishContexts { registered, .. } ==> registered@.len()
            == access.shared.controller.registered@.len() && forall|i: int|
            0 <= i < registered@.len() ==> (#[trigger] registered@[i])
                == access.shared.controller.registered@[i].id,
        published.0 is Finished && published.1@.len() == 9,
        published.1@[0] is InstallBlf && published.1@[1] == SessionTask::PublishLines(
            registration.id,
        ) && published.1@[2] is PublishFeatures && published.1@[3]
            == SessionTask::PublishRecordingButton(registration.id)
            && published.1@[4] is ReleaseTransaction && published.1@[5] is PublishRegistered
            && published.1@[6] == SessionTask::RestoreSystemMessage(registration.id)
            && published.1@[7] == SessionTask::RestoreMobility(registration.id) && published.1@[8]
            == SessionTask::ApplyBackground(registration.id),
        left.0 is Finished && (left.1@.len() == 0 <==> access.shared.controller.registered_spec(
            registration.id@,
        )),
{
}

/// A transaction that was granted is released whenever the station is done with,
/// and never otherwise.
pub proof fn law_transactions_are_released_at_the_end(
    access: &Access,
    generation: SessionGeneration,
    phase: SessionPhase,
    progress: SessionProgress,
    next: SessionPhase,
    tasks: Vec<SessionTask>,
)
    requires
        call_ensures(
            handle_prepared_session_event,
            (access, generation, phase, progress),
            (next, tasks),
        ),
    ensures
        tasks@.contains(SessionTask::ReleaseTransaction) <==> next is Finished && (
        phase is AwaitFeatures || phase is AwaitCommit || phase is AwaitContexts
            || phase is Withdrawing || (phase is AwaitTransaction && progress
            == SessionProgress::Succeeded(true))),
{
    let wanted = SessionTask::ReleaseTransaction;
    if next is Finished && phase is AwaitContexts && tasks@.len() == 9 {
        assert(tasks@[4] == wanted);
    }
    if next is Finished && phase is Withdrawing && tasks@.len() == 5 {
        assert(tasks@[1] == wanted);
    }
    if tasks@.len() == 1 {
        assert(tasks@.contains(wanted) <==> tasks@[0] == wanted);
    }
}

} // verus!
