//! Recordings: who owns which session, and which calls are to be recorded next.

use std::collections::VecDeque;

use vstd::prelude::*;
use vstd::string::*;

use crate::access::{with_channel, Access};
use crate::collect::{any, find, has_call, retain, split_off};
use crate::ids::{CallId, DeviceId, PbxCallId};
use crate::lookup;
use crate::media::DirectMediaCall;
use crate::text::{self, decimal_text};

verus! {

/// One wake-up stands for everything that waits.
pub const RECORDING_TRIGGER_WAKE_CAPACITY: usize = 1;

/// Why the recordings are looked at.
#[derive(Clone, Copy, Debug, PartialEq, Eq, Structural)]
pub enum RuntimeRecordingTrigger {
    Eligible { pbx_id: PbxCallId },
    SessionChanged { pbx_id: PbxCallId },
}

/// What waits to be looked at: nothing waits twice, and what came first is first.
#[derive(Debug, PartialEq, Eq)]
pub struct RuntimeRecordingTriggerQueue {
    pub order: VecDeque<RuntimeRecordingTrigger>,
}

impl View for RuntimeRecordingTriggerQueue {
    type V = Seq<RuntimeRecordingTrigger>;

    open spec fn view(&self) -> Seq<RuntimeRecordingTrigger> {
        self.order@
    }
}

impl Default for RuntimeRecordingTriggerQueue {
    fn default() -> (queue: Self)
        ensures
            queue@ == Seq::<RuntimeRecordingTrigger>::empty(),
    {
        RuntimeRecordingTriggerQueue { order: VecDeque::new() }
    }
}

impl RuntimeRecordingTriggerQueue {
    pub open spec fn wf(self) -> bool {
        self@.no_duplicates()
    }

    /// Puts a trigger last, unless it waits already; says whether it did.
    pub fn push(&mut self, trigger: RuntimeRecordingTrigger) -> (added: bool)
        ensures
            added == !old(self)@.contains(trigger),
            final(self)@ == if added {
                old(self)@.push(trigger)
            } else {
                old(self)@
            },
            old(self).wf() ==> final(self).wf(),
    {
        let mut i: usize = 0;
        while i < self.order.len()
            invariant
                0 <= i <= self.order@.len(),
                self@ == old(self)@,
                forall|j: int| 0 <= j < i ==> #[trigger] self.order@[j] != trigger,
            decreases self.order@.len() - i,
        {
            if self.order[i] == trigger {
                return false;
            }
            i += 1;
        }
        self.order.push_back(trigger);
        true
    }

    /// Hands out everything that waits.
    pub fn drain(&mut self) -> (triggers: Vec<RuntimeRecordingTrigger>)
        ensures
            triggers@ == old(self)@,
            final(self)@ == Seq::<RuntimeRecordingTrigger>::empty(),
    {
        let mut triggers: Vec<RuntimeRecordingTrigger> = Vec::new();
        while self.order.len() > 0
            invariant
                triggers@ + self.order@ == old(self)@,
            decreases self.order@.len(),
        {
            let ghost taken = triggers@;
            let ghost waiting = self.order@;
            match self.order.pop_front() {
                Some(trigger) => {
                    triggers.push(trigger);
                    proof {
                        assert(triggers@ + self.order@ =~= taken + waiting);
                    }
                },
                None => {},
            }
        }
        proof {
            assert(self.order@ =~= Seq::<RuntimeRecordingTrigger>::empty());
            assert(triggers@ =~= old(self)@);
        }
        triggers
    }

    pub fn clear(&mut self)
        ensures
            final(self)@ == Seq::<RuntimeRecordingTrigger>::empty(),
    {
        self.order.clear();
    }
}

/// Puts a trigger into the queue and says whether the one who works it off has to
/// be woken; nobody has to be for what waits already.
pub fn enqueue_recording_trigger(
    queue: &mut RuntimeRecordingTriggerQueue,
    trigger: RuntimeRecordingTrigger,
) -> (wake: bool)
    ensures
        wake == !old(queue)@.contains(trigger),
        final(queue)@ == if wake {
            old(queue)@.push(trigger)
        } else {
            old(queue)@
        },
        old(queue).wf() ==> final(queue).wf(),
{
    queue.push(trigger)
}

/// A call may be recorded.
pub fn enqueue_recording_eligibility(queue: &mut RuntimeRecordingTriggerQueue, pbx_id: PbxCallId) ->
    (wake: bool)
    ensures
        wake == !old(queue)@.contains(RuntimeRecordingTrigger::Eligible { pbx_id }),
        final(queue)@ == if wake {
            old(queue)@.push(RuntimeRecordingTrigger::Eligible { pbx_id })
        } else {
            old(queue)@
        },
{
    enqueue_recording_trigger(queue, RuntimeRecordingTrigger::Eligible { pbx_id })
}

/// The recording of a call changed.
pub fn enqueue_recording_session_change(
    queue: &mut RuntimeRecordingTriggerQueue,
    pbx_id: PbxCallId,
) -> (wake: bool)
    ensures
        wake == !old(queue)@.contains(RuntimeRecordingTrigger::SessionChanged { pbx_id }),
        final(queue)@ == if wake {
            old(queue)@.push(RuntimeRecordingTrigger::SessionChanged { pbx_id })
        } else {
            old(queue)@
        },
{
    enqueue_recording_trigger(queue, RuntimeRecordingTrigger::SessionChanged { pbx_id })
}

/// Whether waking found someone to work the queue off.
#[derive(Clone, Copy, Debug, PartialEq, Eq, Structural)]
pub enum RecordingWake {
    Woken,
    /// A wake-up is on its way already.
    Pending,
    /// Nobody is left.
    Closed,
}

/// Where nobody is left to work the queue off, nothing waits in it.
pub fn recording_woken(queue: &mut RuntimeRecordingTriggerQueue, wake: RecordingWake) -> (warn:
    bool)
    ensures
        warn == (wake == RecordingWake::Closed),
        final(queue)@ == if warn {
            Seq::<RuntimeRecordingTrigger>::empty()
        } else {
            old(queue)@
        },
{
    match wake {
        RecordingWake::Woken => false,
        RecordingWake::Pending => false,
        RecordingWake::Closed => {
            queue.clear();
            true
        },
    }
}

/// Hands out everything that waits.
pub fn take_recording_triggers(queue: &mut RuntimeRecordingTriggerQueue) -> (triggers: Vec<
    RuntimeRecordingTrigger,
>)
    ensures
        triggers@ == old(queue)@,
        final(queue)@ == Seq::<RuntimeRecordingTrigger>::empty(),
{
    queue.drain()
}

#[derive(Clone, Copy, Debug, PartialEq, Eq, Structural)]
pub enum RecordingState {
    Active,
    Stopped,
}

/// Why the switch refused something about a recording.
#[derive(Debug, PartialEq, Eq)]
pub struct RecordingError {
    pub reason: String,
}

/// A hold on the way that the media of a call take.
#[derive(Clone, Copy, Debug, PartialEq, Eq, Structural)]
pub struct MediaAnchorLease(pub u64);

/// Why a call could not be recorded.
#[derive(Debug, PartialEq, Eq)]
pub enum AsteriskRecordingServiceError {
    CallUnavailable(PbxCallId),
    Recording(RecordingError),
}

impl AsteriskRecordingServiceError {
    /// What went wrong.
    pub fn text(&self) -> (words: String)
        ensures
            words@ == match self {
                AsteriskRecordingServiceError::CallUnavailable(call_id) => "PBX call "@
                    + text::decimal(call_id.0 as nat) + " is unavailable for recording"@,
                AsteriskRecordingServiceError::Recording(error) => error.reason@,
            },
    {
        match self {
            AsteriskRecordingServiceError::CallUnavailable(call_id) => {
                let mut words = "PBX call ".to_owned();
                words.append(decimal_text(call_id.0).as_str());
                words.append(" is unavailable for recording");
                words
            },
            AsteriskRecordingServiceError::Recording(error) => error.reason.clone(),
        }
    }
}

/// The media of a call pass through the switch, though its recording has not
/// begun.
#[derive(Debug, PartialEq, Eq)]
pub struct PendingRecordingAnchor {
    pub lease: MediaAnchorLease,
    /// The call as it was while its media went directly.
    pub retarget_call: Option<DirectMediaCall>,
}

#[derive(Clone, Copy, Debug, PartialEq, Eq, Structural)]
pub struct ConfirmedRecordingAnchor {
    pub lease: MediaAnchorLease,
}

impl PendingRecordingAnchor {
    /// Sends the media of a call through the switch. The channel has to be there
    /// and `lease` has to be granted.
    pub fn acquire(
        access: &Access,
        call_id: PbxCallId,
        channel_valid: bool,
        lease: Option<MediaAnchorLease>,
        retarget_call: Option<DirectMediaCall>,
    ) -> (anchor: Result<Self, AsteriskRecordingServiceError>)
        ensures
            match lease {
                Some(lease) if channel_valid && access.shared.live_channel_spec(call_id) is Some =>
                    anchor == Ok::<Self, AsteriskRecordingServiceError>(
                    PendingRecordingAnchor { lease, retarget_call },
                ),
                _ => anchor == Err::<Self, AsteriskRecordingServiceError>(
                    AsteriskRecordingServiceError::CallUnavailable(call_id),
                ),
            },
    {
        if with_channel(access, call_id).is_none() || !channel_valid {
            return Err(AsteriskRecordingServiceError::CallUnavailable(call_id));
        }
        match lease {
            Some(lease) => Ok(PendingRecordingAnchor { lease, retarget_call }),
            None => Err(AsteriskRecordingServiceError::CallUnavailable(call_id)),
        }
    }

    pub fn direct_call(&self) -> (call: Option<&DirectMediaCall>)
        ensures
            lookup::target(call) == self.retarget_call,
    {
        match &self.retarget_call {
            Some(call) => Some(call),
            None => None,
        }
    }

    /// The recording has begun.
    pub fn confirm(self) -> (anchor: ConfirmedRecordingAnchor)
        ensures
            anchor.lease == self.lease,
    {
        ConfirmedRecordingAnchor { lease: self.lease }
    }
}

/// Starts a recording on the channel of a call; `reply` is what the switch says
/// to that, none where the channel has gone.
pub fn start_recording(
    access: &Access,
    call_id: PbxCallId,
    reply: Option<Result<u64, RecordingError>>,
) -> (started: Result<u64, AsteriskRecordingServiceError>)
    ensures
        match reply {
            Some(given) if access.shared.live_channel_spec(call_id) is Some => match given {
                Ok(session) => started == Ok::<u64, AsteriskRecordingServiceError>(session),
                Err(error) => started == Err::<u64, AsteriskRecordingServiceError>(
                    AsteriskRecordingServiceError::Recording(error),
                ),
            },
            _ => started == Err::<u64, AsteriskRecordingServiceError>(
                AsteriskRecordingServiceError::CallUnavailable(call_id),
            ),
        },
{
    if with_channel(access, call_id).is_none() {
        return Err(AsteriskRecordingServiceError::CallUnavailable(call_id));
    }
    match reply {
        None => Err(AsteriskRecordingServiceError::CallUnavailable(call_id)),
        Some(Ok(session)) => Ok(session),
        Some(Err(error)) => Err(AsteriskRecordingServiceError::Recording(error)),
    }
}

/// Whose handset shows a recording.
#[derive(Debug, PartialEq, Eq)]
pub struct RuntimeRecordingOwner {
    pub device_id: DeviceId,
    pub handset_call_id: CallId,
}

/// A recording with the media hold that it needs.
#[derive(Debug, PartialEq, Eq)]
pub struct RuntimeRecordingSession {
    /// The recording as the switch numbers it.
    pub session: u64,
    /// The state that the switch reports; none where it fails to.
    pub state: Option<RecordingState>,
    pub anchor: ConfirmedRecordingAnchor,
    pub stopped: bool,
    pub owner: RuntimeRecordingOwner,
}

impl RuntimeRecordingSession {
    pub open spec fn active_spec(self) -> bool {
        self.state != Some(RecordingState::Stopped)
    }

    pub fn new(
        session: u64,
        anchor: ConfirmedRecordingAnchor,
        device_id: DeviceId,
        handset_call_id: CallId,
    ) -> (recording: Self)
        ensures
            recording == (RuntimeRecordingSession {
                session,
                state: Some(RecordingState::Active),
                anchor,
                stopped: false,
                owner: RuntimeRecordingOwner { device_id, handset_call_id },
            }),
    {
        RuntimeRecordingSession {
            session,
            state: Some(RecordingState::Active),
            anchor,
            stopped: false,
            owner: RuntimeRecordingOwner { device_id, handset_call_id },
        }
    }

    pub fn owner(&self) -> (owner: &RuntimeRecordingOwner)
        ensures
            *owner == self.owner,
    {
        &self.owner
    }

    /// A recording is active until the switch says that it stopped.
    pub fn is_active(&self) -> (active: bool)
        ensures
            active == self.active_spec(),
    {
        match self.state {
            Some(RecordingState::Stopped) => false,
            _ => true,
        }
    }

    /// Whether the switch has to be asked to stop the recording.
    pub fn stop_native(&mut self) -> (ask: bool)
        ensures
            ask == (!old(self).stopped && old(self).active_spec()),
            *final(self) == (RuntimeRecordingSession {
                stopped: if ask {
                    old(self).stopped
                } else {
                    true
                },
                ..*old(self)
            }),
    {
        if self.stopped || !self.is_active() {
            self.stopped = true;
            return false;
        }
        true
    }

    /// Takes what the switch said to being asked to stop.
    pub fn finish_stop(&mut self, reply: Result<(), RecordingError>) -> (outcome: Result<
        (),
        RecordingError,
    >)
        ensures
            outcome == reply,
            *final(self) == (RuntimeRecordingSession {
                stopped: if reply is Ok {
                    true
                } else {
                    old(self).stopped
                },
                ..*old(self)
            }),
    {
        if reply.is_ok() {
            self.stopped = true;
        }
        reply
    }
}

/// The recording of a call.
#[derive(Debug, PartialEq, Eq)]
pub struct RecordedCall {
    pub pbx_id: PbxCallId,
    pub session: RuntimeRecordingSession,
}

/// Every recording, and the calls whose automatic start is used up.
#[derive(Debug, PartialEq, Eq)]
pub struct RuntimeRecordings {
    pub sessions: Vec<RecordedCall>,
    pub automatic_attempts: Vec<PbxCallId>,
}

pub open spec fn records(pbx_id: PbxCallId) -> spec_fn(RecordedCall) -> bool {
    |call: RecordedCall| call.pbx_id == pbx_id
}

pub open spec fn records_any(ids: Seq<PbxCallId>) -> spec_fn(RecordedCall) -> bool {
    |call: RecordedCall| ids.contains(call.pbx_id)
}

pub open spec fn active_on(device: Seq<char>) -> spec_fn(RecordedCall) -> bool {
    |call: RecordedCall| call.session.owner.device_id@ == device && call.session.active_spec()
}

pub open spec fn is_among(ids: Seq<PbxCallId>) -> spec_fn(PbxCallId) -> bool {
    |id: PbxCallId| ids.contains(id)
}

pub open spec fn is_not(pbx_id: PbxCallId) -> spec_fn(PbxCallId) -> bool {
    |id: PbxCallId| id != pbx_id
}

/// The session of a call among these.
pub open spec fn session_in(sessions: Seq<RecordedCall>, pbx_id: PbxCallId) -> Option<
    RuntimeRecordingSession,
> {
    match lookup::first(sessions, records(pbx_id)) {
        Some(call) => Some(call.session),
        None => None,
    }
}

impl Default for RuntimeRecordings {
    fn default() -> (recordings: Self)
        ensures
            recordings.sessions@.len() == 0,
            recordings.automatic_attempts@.len() == 0,
    {
        RuntimeRecordings { sessions: Vec::new(), automatic_attempts: Vec::new() }
    }
}

impl RuntimeRecordings {
    /// A call is recorded at most once.
    pub open spec fn wf(self) -> bool {
        &&& forall|i: int, j: int|
            0 <= i < j < self.sessions@.len() ==> self.sessions@[i].pbx_id
                != self.sessions@[j].pbx_id
        &&& self.automatic_attempts@.no_duplicates()
    }

    pub open spec fn session_spec(self, pbx_id: PbxCallId) -> Option<RuntimeRecordingSession> {
        session_in(self.sessions@, pbx_id)
    }

    fn session(&self, pbx_id: PbxCallId) -> (session: Option<&RuntimeRecordingSession>)
        ensures
            lookup::target(session) == self.session_spec(pbx_id),
    {
        match find(
            &self.sessions,
            |call: &RecordedCall| -> (found: bool)
                ensures
                    found == (call.pbx_id == pbx_id)
                { call.pbx_id == pbx_id },
            Ghost(records(pbx_id)),
        ) {
            Some(call) => Some(&call.session),
            None => None,
        }
    }

    /// Takes out what belongs to these calls: a worker has it to itself until it
    /// gives it back.
    pub fn extract_calls(&mut self, call_ids: &Vec<PbxCallId>) -> (extracted: Self)
        requires
            old(self).wf(),
        ensures
            final(self).wf(),
            extracted.wf(),
            extracted.sessions@ == old(self).sessions@.filter(records_any(call_ids@)),
            final(self).sessions@ == old(self).sessions@.filter(
                lookup::not(records_any(call_ids@)),
            ),
            extracted.automatic_attempts@ == old(self).automatic_attempts@.filter(
                is_among(call_ids@),
            ),
            final(self).automatic_attempts@ == old(self).automatic_attempts@.filter(
                lookup::not(is_among(call_ids@)),
            ),
    {
        let ghost before = *self;
        let sessions = split_off(
            &mut self.sessions,
            |call: &RecordedCall| -> (found: bool)
                ensures
                    found == call_ids@.contains(call.pbx_id)
                { has_call(call_ids, call.pbx_id) },
            Ghost(records_any(call_ids@)),
        );
        let automatic_attempts = split_off(
            &mut self.automatic_attempts,
            |id: &PbxCallId| -> (found: bool)
                ensures
                    found == call_ids@.contains(*id)
                { has_call(call_ids, *id) },
            Ghost(is_among(call_ids@)),
        );
        proof {
            let key = |call: RecordedCall| call.pbx_id.0;
            let id = |id: PbxCallId| id.0;
            lookup::lemma_filter_distinct(before.sessions@, records_any(call_ids@), key);
            lookup::lemma_filter_distinct(
                before.sessions@,
                lookup::not(records_any(call_ids@)),
                key,
            );
            assert(forall|i: int, j: int|
                0 <= i < j < before.automatic_attempts@.len() ==> before.automatic_attempts@[i]
                    != before.automatic_attempts@[j]);
            lookup::lemma_filter_distinct(before.automatic_attempts@, is_among(call_ids@), id);
            lookup::lemma_filter_distinct(
                before.automatic_attempts@,
                lookup::not(is_among(call_ids@)),
                id,
            );
        }
        RuntimeRecordings { sessions, automatic_attempts }
    }

    /// Gives back what a worker had to itself.
    pub fn return_sessions(&mut self, completed: Self)
        requires
            old(self).wf(),
            completed.wf(),
        ensures
            final(self).wf(),
            forall|pbx_id: PbxCallId| #[trigger]
                final(self).session_spec(pbx_id) == match completed.session_spec(pbx_id) {
                    Some(session) => Some(session),
                    None => old(self).session_spec(pbx_id),
                },
            forall|pbx_id: PbxCallId| #[trigger]
                final(self).automatic_attempts@.contains(pbx_id) <==> old(
                    self,
                ).automatic_attempts@.contains(pbx_id) || completed.automatic_attempts@.contains(
                    pbx_id,
                ),
    {
        let ghost before = *self;
        let ghost given = completed;
        let mut sessions = completed.sessions;
        while sessions.len() > 0
            invariant
                self.wf(),
                self.automatic_attempts@ == before.automatic_attempts@,
                0 <= sessions@.len() <= given.sessions@.len(),
                sessions@ == given.sessions@.take(sessions@.len() as int),
                given.wf(),
                forall|pbx_id: PbxCallId| #[trigger]
                    session_in(self.sessions@, pbx_id) == match session_in(
                        given.sessions@.skip(sessions@.len() as int),
                        pbx_id,
                    ) {
                        Some(session) => Some(session),
                        None => before.session_spec(pbx_id),
                    },
            decreases sessions@.len(),
        {
            let ghost left = sessions@;
            let ghost now = self.sessions@;
            let ghost rest = given.sessions@.skip(left.len() as int);
            let call = match sessions.pop() {
                Some(call) => call,
                None => {
                    return ;
                },
            };
            let pbx_id = call.pbx_id;
            let ghost p = lookup::not(records(pbx_id));
            let ghost returned = call;
            retain(
                &mut self.sessions,
                |call: &RecordedCall| -> (kept: bool)
                    ensures
                        kept == !(call.pbx_id == pbx_id)
                    { call.pbx_id != pbx_id },
                Ghost(lookup::not(records(pbx_id))),
            );
            let ghost kept = self.sessions@;
            self.sessions.push(call);
            proof {
                lookup::lemma_filter_distinct(now, p, |call: RecordedCall| call.pbx_id.0);
                assert forall|i: int| 0 <= i < kept.len() implies (#[trigger] kept[i]).pbx_id
                    != pbx_id by {
                    lookup::lemma_filter_member(now, p, i);
                }
                let longer = given.sessions@.skip(sessions@.len() as int);
                assert(longer =~= seq![returned] + rest);
                assert forall|id: PbxCallId| #[trigger]
                    session_in(self.sessions@, id) == match session_in(longer, id) {
                        Some(session) => Some(session),
                        None => before.session_spec(id),
                    } by {
                    assert(session_in(now, id) == match session_in(rest, id) {
                        Some(session) => Some(session),
                        None => before.session_spec(id),
                    });
                    lookup::lemma_first_cons(returned, rest, records(id));
                    lookup::lemma_first_push(kept, returned, records(id));
                    if id == pbx_id {
                        lookup::lemma_first_at(kept, records(id), 0);
                    } else {
                        lookup::lemma_first_of_filter(now, p, records(id));
                    }
                }
            }
        }
        proof {
            assert(given.sessions@.skip(0) =~= given.sessions@);
            assert forall|pbx_id: PbxCallId| #[trigger]
                self.session_spec(pbx_id) == match given.session_spec(pbx_id) {
                    Some(session) => Some(session),
                    None => before.session_spec(pbx_id),
                } by {
                assert(session_in(self.sessions@, pbx_id) == match session_in(
                    given.sessions@,
                    pbx_id,
                ) {
                    Some(session) => Some(session),
                    None => before.session_spec(pbx_id),
                });
            }
        }
        let mut i: usize = 0;
        let ghost sessions_now = self.sessions@;
        while i < completed.automatic_attempts.len()
            invariant
                0 <= i <= completed.automatic_attempts@.len(),
                self.wf(),
                self.sessions@ == sessions_now,
                forall|pbx_id: PbxCallId| #[trigger]
                    self.automatic_attempts@.contains(pbx_id) <==> (
                    before.automatic_attempts@.contains(pbx_id)
                        || completed.automatic_attempts@.take(i as int).contains(pbx_id)),
            decreases completed.automatic_attempts@.len() - i,
        {
            let id = completed.automatic_attempts[i];
            let ghost shorter = completed.automatic_attempts@.take(i as int);
            let ghost longer = completed.automatic_attempts@.take(i + 1);
            let ghost now = self.automatic_attempts@;
            if !has_call(&self.automatic_attempts, id) {
                self.automatic_attempts.push(id);
            }
            proof {
                assert(longer =~= shorter.push(id));
                lookup::lemma_push_set(shorter, id);
                lookup::lemma_push_set(now, id);
                assert forall|pbx_id: PbxCallId| #[trigger]
                    self.automatic_attempts@.contains(pbx_id) == (
                    before.automatic_attempts@.contains(pbx_id) || longer.contains(pbx_id)) by {
                    assert(longer.to_set().contains(pbx_id) == (shorter.contains(pbx_id) || pbx_id
                        == id));
                    assert(now.push(id).to_set().contains(pbx_id) == (now.contains(pbx_id)
                        || pbx_id == id));
                }
            }
            i += 1;
        }
        proof {
            assert(completed.automatic_attempts@.take(i as int)
                =~= completed.automatic_attempts@);
        }
    }

    pub fn is_active_call(&self, pbx_id: PbxCallId) -> (active: bool)
        ensures
            active == (self.session_spec(pbx_id) matches Some(session) && session.active_spec()),
    {
        match self.session(pbx_id) {
            Some(session) => session.is_active(),
            None => false,
        }
    }

    pub fn owner(&self, pbx_id: PbxCallId) -> (owner: Option<&RuntimeRecordingOwner>)
        ensures
            lookup::target(owner) == match self.session_spec(pbx_id) {
                Some(session) => Some(session.owner),
                None => None,
            },
    {
        match self.session(pbx_id) {
            Some(session) => Some(session.owner()),
            None => None,
        }
    }

    /// Whether a station has an active recording.
    pub fn device_is_active(&self, device_id: &DeviceId) -> (active: bool)
        ensures
            active == lookup::some(self.sessions@, active_on(device_id@)),
    {
        any(
            &self.sessions,
            |call: &RecordedCall| -> (found: bool)
                ensures
                    found == (call.session.owner.device_id@ == device_id@
                        && call.session.active_spec())
                { call.session.owner.device_id.same(device_id) && call.session.is_active() },
            Ghost(active_on(device_id@)),
        )
    }

    /// Uses up the automatic start of a call; says whether it was still there.
    pub fn claim_automatic_start(&mut self, pbx_id: PbxCallId) -> (claimed: bool)
        ensures
            claimed == !old(self).automatic_attempts@.contains(pbx_id),
            final(self).automatic_attempts@ == if claimed {
                old(self).automatic_attempts@.push(pbx_id)
            } else {
                old(self).automatic_attempts@
            },
            final(self).sessions == old(self).sessions,
            old(self).wf() ==> final(self).wf(),
    {
        if has_call(&self.automatic_attempts, pbx_id) {
            return false;
        }
        self.automatic_attempts.push(pbx_id);
        true
    }

    /// A call is not to be recorded automatically any more.
    pub fn suppress_automatic_start(&mut self, pbx_id: PbxCallId)
        ensures
            final(self).automatic_attempts@ == if old(self).automatic_attempts@.contains(pbx_id) {
                old(self).automatic_attempts@
            } else {
                old(self).automatic_attempts@.push(pbx_id)
            },
            final(self).sessions == old(self).sessions,
            old(self).wf() ==> final(self).wf(),
    {
        let _ = self.claim_automatic_start(pbx_id);
    }

    /// A call is over: its number may be used for another one.
    pub fn forget_call(&mut self, pbx_id: PbxCallId)
        ensures
            final(self).automatic_attempts@ == old(self).automatic_attempts@.filter(
                is_not(pbx_id),
            ),
            final(self).sessions == old(self).sessions,
    {
        retain(
            &mut self.automatic_attempts,
            |id: &PbxCallId| -> (kept: bool)
                ensures
                    kept == (*id != pbx_id)
                { *id != pbx_id },
            Ghost(is_not(pbx_id)),
        );
    }

    /// Forgets every call but these.
    pub fn retain_live_calls(&mut self, live: &Vec<PbxCallId>)
        ensures
            final(self).automatic_attempts@ == old(self).automatic_attempts@.filter(
                is_among(live@),
            ),
            final(self).sessions == old(self).sessions,
    {
        retain(
            &mut self.automatic_attempts,
            |id: &PbxCallId| -> (kept: bool)
                ensures
                    kept == live@.contains(*id)
                { has_call(live, *id) },
            Ghost(is_among(live@)),
        );
    }
}

/// A call is started automatically once: after its start was used up it is used up
/// still, until the call is forgotten.
pub proof fn law_automatic_starts_are_used_once(attempts: Seq<PbxCallId>, pbx_id: PbxCallId)
    ensures
        attempts.push(pbx_id).contains(pbx_id),
        !attempts.filter(is_not(pbx_id)).contains(pbx_id),
        forall|live: Seq<PbxCallId>|
            !live.contains(pbx_id) ==> !(#[trigger] attempts.filter(is_among(live))).contains(
                pbx_id,
            ),
{
    let grown = attempts.push(pbx_id);
    assert(grown[attempts.len() as int] == pbx_id);
    let kept = attempts.filter(is_not(pbx_id));
    if kept.contains(pbx_id) {
        let i = choose|i: int| 0 <= i < kept.len() && kept[i] == pbx_id;
        lookup::lemma_filter_member(attempts, is_not(pbx_id), i);
    }
    assert forall|live: Seq<PbxCallId>| !live.contains(pbx_id) implies !(
    #[trigger] attempts.filter(is_among(live))).contains(pbx_id) by {
        let kept = attempts.filter(is_among(live));
        if kept.contains(pbx_id) {
            let i = choose|i: int| 0 <= i < kept.len() && kept[i] == pbx_id;
            lookup::lemma_filter_member(attempts, is_among(live), i);
        }
    }
}

/// What was taken out and what stayed hold every session between them, each once:
/// nothing is lost or held by two at once.
pub proof fn law_extracted_sessions_are_exclusive(
    before: RuntimeRecordings,
    extracted: RuntimeRecordings,
    left: RuntimeRecordings,
    call_ids: Seq<PbxCallId>,
    pbx_id: PbxCallId,
)
    requires
        extracted.sessions@ == before.sessions@.filter(records_any(call_ids)),
        left.sessions@ == before.sessions@.filter(lookup::not(records_any(call_ids))),
    ensures
        call_ids.contains(pbx_id) ==> extracted.session_spec(pbx_id) == before.session_spec(pbx_id)
            && left.session_spec(pbx_id) is None,
        !call_ids.contains(pbx_id) ==> left.session_spec(pbx_id) == before.session_spec(pbx_id)
            && extracted.session_spec(pbx_id) is None,
{
    let p = records_any(call_ids);
    let q = lookup::not(p);
    if call_ids.contains(pbx_id) {
        lookup::lemma_first_of_filter(before.sessions@, p, records(pbx_id));
        lookup::lemma_first_at(left.sessions@, records(pbx_id), 0);
        assert forall|i: int| 0 <= i < left.sessions@.len() implies !records(pbx_id)(
            #[trigger] left.sessions@[i],
        ) by {
            lookup::lemma_filter_member(before.sessions@, q, i);
        }
    } else {
        lookup::lemma_first_of_filter(before.sessions@, q, records(pbx_id));
        lookup::lemma_first_at(extracted.sessions@, records(pbx_id), 0);
        assert forall|i: int| 0 <= i < extracted.sessions@.len() implies !records(pbx_id)(
            #[trigger] extracted.sessions@[i],
        ) by {
            lookup::lemma_filter_member(before.sessions@, p, i);
        }
    }
}

/// A trigger waits once however often it is given, at the end of the queue, and the
/// waiter is woken exactly if it was not waiting yet.
pub proof fn law_triggers_wait_once(
    queue: &mut RuntimeRecordingTriggerQueue,
    trigger: RuntimeRecordingTrigger,
    wake: bool,
    other: RuntimeRecordingTrigger,
)
    requires
        call_ensures(enqueue_recording_trigger, (queue, trigger), wake),
        other != trigger,
    ensures
        wake <==> !old(queue)@.contains(trigger),
        final(queue)@.contains(trigger),
        final(queue)@.contains(other) <==> old(queue)@.contains(other),
        wake ==> final(queue)@.len() == old(queue)@.len() + 1 && final(queue)@.last() == trigger,
        !wake ==> final(queue)@ == old(queue)@,
{
    if wake {
        assert(final(queue)@.last() == trigger);
        if old(queue)@.contains(other) {
            let i = choose|i: int| 0 <= i < old(queue)@.len() && old(queue)@[i] == other;
            assert(final(queue)@[i] == other);
        }
    }
}

/// Eligible calls and changed sessions wait as what they are, under their call.
pub proof fn law_triggers_say_what_happened(
    eligible: &mut RuntimeRecordingTriggerQueue,
    changed: &mut RuntimeRecordingTriggerQueue,
    pbx_id: PbxCallId,
    first: bool,
    second: bool,
)
    requires
        call_ensures(enqueue_recording_eligibility, (eligible, pbx_id), first),
        call_ensures(enqueue_recording_session_change, (changed, pbx_id), second),
    ensures
        first ==> final(eligible)@.last() == (RuntimeRecordingTrigger::Eligible { pbx_id }),
        !first ==> old(eligible)@.contains(RuntimeRecordingTrigger::Eligible { pbx_id }),
        second ==> final(changed)@.last() == (RuntimeRecordingTrigger::SessionChanged { pbx_id }),
        !second ==> old(changed)@.contains(RuntimeRecordingTrigger::SessionChanged { pbx_id }),
        first ==> final(eligible)@.len() == old(eligible)@.len() + 1,
        second ==> final(changed)@.len() == old(changed)@.len() + 1,
{
}

/// Taking the triggers hands all of them out in their order and leaves none; a
/// closed waiter is warned of and leaves none waiting either.
pub proof fn law_triggers_are_taken_whole(
    queue: &mut RuntimeRecordingTriggerQueue,
    woken: &mut RuntimeRecordingTriggerQueue,
    wake: RecordingWake,
    triggers: Vec<RuntimeRecordingTrigger>,
    warn: bool,
)
    requires
        call_ensures(take_recording_triggers, (queue,), triggers),
        call_ensures(recording_woken, (woken, wake), warn),
    ensures
        triggers@ == old(queue)@,
        final(queue)@.len() == 0,
        warn <==> wake == RecordingWake::Closed,
        warn ==> final(woken)@.len() == 0,
        !warn ==> final(woken)@ == old(woken)@,
{
}

/// A recording needs an open channel: an anchor is taken exactly if there is a lease
/// and the channel is valid too, and a refusal of the recorder is passed on.
pub proof fn law_recordings_need_their_channel(
    access: &Access,
    call_id: PbxCallId,
    channel_valid: bool,
    lease: Option<MediaAnchorLease>,
    retarget_call: Option<DirectMediaCall>,
    reply: Option<Result<u64, RecordingError>>,
    anchor: Result<PendingRecordingAnchor, AsteriskRecordingServiceError>,
    started: Result<u64, AsteriskRecordingServiceError>,
)
    requires
        call_ensures(
            PendingRecordingAnchor::acquire,
            (access, call_id, channel_valid, lease, retarget_call),
            anchor,
        ),
        call_ensures(start_recording, (access, call_id, reply), started),
    ensures
        ({
            let open = access.shared.live_channel_spec(call_id) is Some;
            &&& anchor is Ok <==> open && channel_valid && lease is Some
            &&& anchor matches Ok(anchor) ==> lease == Some(anchor.lease) && anchor.retarget_call
                == retarget_call
            &&& anchor matches Err(error) ==> error
                == AsteriskRecordingServiceError::CallUnavailable(call_id)
            &&& started is Ok <==> open && (reply matches Some(given) && given is Ok)
            &&& started matches Ok(session) ==> reply == Some(Ok::<u64, RecordingError>(session))
            &&& started matches Err(AsteriskRecordingServiceError::Recording(error)) ==> reply
                == Some(Err::<u64, RecordingError>(error))
            &&& !open || reply is None ==> started == Err::<u64, AsteriskRecordingServiceError>(
                AsteriskRecordingServiceError::CallUnavailable(call_id),
            )
        }),
{
}

/// A recording that runs is asked to stop once; it counts as stopped where it has
/// ended by itself or the recorder said so, and not where that failed.
pub proof fn law_recordings_are_stopped_once(
    asked: &mut RuntimeRecordingSession,
    finished: &mut RuntimeRecordingSession,
    reply: Result<(), RecordingError>,
    ask: bool,
    outcome: Result<(), RecordingError>,
)
    requires
        call_ensures(RuntimeRecordingSession::stop_native, (asked,), ask),
        call_ensures(RuntimeRecordingSession::finish_stop, (finished, reply), outcome),
    ensures
        ask <==> !old(asked).stopped && old(asked).state != Some(RecordingState::Stopped),
        ask ==> *final(asked) == *old(asked),
        !ask ==> final(asked).stopped,
        final(asked).session == old(asked).session && final(asked).owner == old(asked).owner,
        outcome == reply,
        reply is Ok ==> final(finished).stopped,
        reply is Err ==> final(finished).stopped == old(finished).stopped,
        final(finished).owner == old(finished).owner && final(finished).state
            == old(finished).state,
{
}

/// A new recording runs, for the call and station that asked for it.
pub proof fn law_new_recordings_run(
    session: u64,
    anchor: ConfirmedRecordingAnchor,
    device_id: DeviceId,
    handset_call_id: CallId,
    recording: RuntimeRecordingSession,
    active: bool,
)
    requires
        call_ensures(
            RuntimeRecordingSession::new,
            (session, anchor, device_id, handset_call_id),
            recording,
        ),
        call_ensures(RuntimeRecordingSession::is_active, (&recording,), active),
    ensures
        active && !recording.stopped,
        recording.session == session && recording.anchor == anchor,
        recording.owner.device_id == device_id && recording.owner.handset_call_id
            == handset_call_id,
{
}

/// Taking calls out parts the recordings by their call: each goes with the calls
/// that are taken or stays, and so does each automatic attempt.
pub proof fn law_extracted_calls_leave(
    recordings: &mut RuntimeRecordings,
    call_ids: Vec<PbxCallId>,
    extracted: RuntimeRecordings,
    call: RecordedCall,
    id: PbxCallId,
)
    requires
        call_ensures(RuntimeRecordings::extract_calls, (recordings, &call_ids), extracted),
    ensures
        extracted.sessions@.contains(call) <==> old(recordings).sessions@.contains(call)
            && call_ids@.contains(call.pbx_id),
        final(recordings).sessions@.contains(call) <==> old(recordings).sessions@.contains(call)
            && !call_ids@.contains(call.pbx_id),
        extracted.automatic_attempts@.contains(id) <==> old(
            recordings,
        ).automatic_attempts@.contains(id) && call_ids@.contains(id),
        final(recordings).automatic_attempts@.contains(id) <==> old(
            recordings,
        ).automatic_attempts@.contains(id) && !call_ids@.contains(id),
{
    let p = records_any(call_ids@);
    let q = is_among(call_ids@);
    lookup::lemma_filter_holds(old(recordings).sessions@, p, call);
    lookup::lemma_filter_holds(old(recordings).sessions@, lookup::not(p), call);
    lookup::lemma_filter_holds(old(recordings).automatic_attempts@, q, id);
    lookup::lemma_filter_holds(old(recordings).automatic_attempts@, lookup::not(q), id);
}

/// What is known of a call is that of its own recording; a station is active while
/// one of its recordings runs.
pub proof fn law_recordings_are_found_by_their_call(
    recordings: RuntimeRecordings,
    pbx_id: PbxCallId,
    device_id: DeviceId,
    active: bool,
    owner: Option<&RuntimeRecordingOwner>,
    busy: bool,
    i: int,
)
    requires
        call_ensures(RuntimeRecordings::is_active_call, (&recordings, pbx_id), active),
        call_ensures(RuntimeRecordings::owner, (&recordings, pbx_id), owner),
        call_ensures(RuntimeRecordings::device_is_active, (&recordings, &device_id), busy),
        0 <= i <= recordings.sessions@.len(),
        forall|j: int| 0 <= j < i ==> (#[trigger] recordings.sessions@[j]).pbx_id != pbx_id,
        i < recordings.sessions@.len() ==> recordings.sessions@[i].pbx_id == pbx_id,
    ensures
        active <==> i < recordings.sessions@.len() && recordings.sessions@[i].session.state
            != Some(RecordingState::Stopped),
        owner is Some <==> i < recordings.sessions@.len(),
        owner matches Some(owner) ==> *owner == recordings.sessions@[i].session.owner,
        busy <==> exists|k: int|
            0 <= k < recordings.sessions@.len() && (
            #[trigger] recordings.sessions@[k]).session.owner.device_id@ == device_id@
                && recordings.sessions@[k].session.state != Some(RecordingState::Stopped),
{
    let sessions = recordings.sessions@;
    let p = records(pbx_id);
    if i == sessions.len() {
        lookup::lemma_first_none(sessions, p);
    } else {
        lookup::lemma_first_is(sessions, p, i);
    }
    let q = active_on(device_id@);
    if lookup::some(sessions, q) {
        let k = choose|k: int| 0 <= k < sessions.len() && q(#[trigger] sessions[k]);
        assert(sessions[k].session.owner.device_id@ == device_id@);
    }
    if exists|k: int|
        0 <= k < sessions.len() && (#[trigger] sessions[k]).session.owner.device_id@ == device_id@
            && sessions[k].session.state != Some(RecordingState::Stopped) {
        let k = choose|k: int|
            0 <= k < sessions.len() && (#[trigger] sessions[k]).session.owner.device_id@
                == device_id@ && sessions[k].session.state != Some(RecordingState::Stopped);
        assert(q(sessions[k]));
    }
}

/// A call is started automatically at most once: whoever claims it first has it,
/// and a suppressed call cannot be claimed until it is forgotten. Attempts of calls
/// that are gone are dropped.
pub proof fn law_automatic_starts_are_claimed_once(
    claiming: &mut RuntimeRecordings,
    suppressing: &mut RuntimeRecordings,
    forgetting: &mut RuntimeRecordings,
    retaining: &mut RuntimeRecordings,
    live: Vec<PbxCallId>,
    pbx_id: PbxCallId,
    other: PbxCallId,
    claimed: bool,
)
    requires
        call_ensures(RuntimeRecordings::claim_automatic_start, (claiming, pbx_id), claimed),
        call_ensures(RuntimeRecordings::suppress_automatic_start, (suppressing, pbx_id), ()),
        call_ensures(RuntimeRecordings::forget_call, (forgetting, pbx_id), ()),
        call_ensures(RuntimeRecordings::retain_live_calls, (retaining, &live), ()),
        other != pbx_id,
    ensures
        claimed <==> !old(claiming).automatic_attempts@.contains(pbx_id),
        final(claiming).automatic_attempts@.contains(pbx_id),
        final(claiming).automatic_attempts@.contains(other) <==> old(
            claiming,
        ).automatic_attempts@.contains(other),
        final(suppressing).automatic_attempts@.contains(pbx_id),
        final(suppressing).automatic_attempts@.contains(other) <==> old(
            suppressing,
        ).automatic_attempts@.contains(other),
        !final(forgetting).automatic_attempts@.contains(pbx_id),
        final(forgetting).automatic_attempts@.contains(other) <==> old(
            forgetting,
        ).automatic_attempts@.contains(other),
        final(retaining).automatic_attempts@.contains(pbx_id) <==> old(
            retaining,
        ).automatic_attempts@.contains(pbx_id) && live@.contains(pbx_id),
        final(claiming).sessions == old(claiming).sessions,
        final(suppressing).sessions == old(suppressing).sessions,
        final(forgetting).sessions == old(forgetting).sessions,
        final(retaining).sessions == old(retaining).sessions,
{
    lookup::lemma_push_holds(old(claiming).automatic_attempts@, pbx_id, pbx_id);
    lookup::lemma_push_holds(old(claiming).automatic_attempts@, pbx_id, other);
    lookup::lemma_push_holds(old(suppressing).automatic_attempts@, pbx_id, pbx_id);
    lookup::lemma_push_holds(old(suppressing).automatic_attempts@, pbx_id, other);
    lookup::lemma_filter_holds(old(forgetting).automatic_attempts@, is_not(pbx_id), pbx_id);
    lookup::lemma_filter_holds(old(forgetting).automatic_attempts@, is_not(pbx_id), other);
    lookup::lemma_filter_holds(old(retaining).automatic_attempts@, is_among(live@), pbx_id);
}

/// A trigger is queued once and wakes once; draining hands out all of them in order
/// and leaves none.
pub proof fn law_triggers_are_queued_once(
    queue: &mut RuntimeRecordingTriggerQueue,
    emptied: &mut RuntimeRecordingTriggerQueue,
    cleared: &mut RuntimeRecordingTriggerQueue,
    trigger: RuntimeRecordingTrigger,
    added: bool,
    triggers: Vec<RuntimeRecordingTrigger>,
)
    requires
        call_ensures(RuntimeRecordingTriggerQueue::push, (queue, trigger), added),
        call_ensures(RuntimeRecordingTriggerQueue::drain, (emptied,), triggers),
        call_ensures(RuntimeRecordingTriggerQueue::clear, (cleared,), ()),
    ensures
        added <==> !old(queue)@.contains(trigger),
        final(queue)@.contains(trigger),
        final(queue)@.len() == old(queue)@.len() + if added {
            1int
        } else {
            0
        },
        added ==> final(queue)@.last() == trigger,
        triggers@ == old(emptied)@,
        final(emptied)@.len() == 0,
        final(cleared)@.len() == 0,
{
    if added {
        assert(final(queue)@[old(queue)@.len() as int] == trigger);
    }
}

/// Sessions that come back replace those of the same calls; every other session
/// stays, and an automatic attempt that was made stays made.
pub proof fn law_returned_sessions_are_the_latest(
    sessions: &mut RuntimeRecordings,
    completed: RuntimeRecordings,
    pbx_id: PbxCallId,
    c: int,
    o: int,
    k: int,
)
    requires
        old(sessions).wf(),
        completed.wf(),
        call_ensures(RuntimeRecordings::return_sessions, (sessions, completed), ()),
        0 <= k < final(sessions).sessions@.len(),
        final(sessions).sessions@[k].pbx_id == pbx_id,
    ensures
        0 <= c < completed.sessions@.len() && completed.sessions@[c].pbx_id == pbx_id ==> final(sessions).sessions@[k].session == completed.sessions@[c].session,
        0 <= o < old(sessions).sessions@.len() && old(sessions).sessions@[o].pbx_id == pbx_id && (
        forall|j: int|
            0 <= j < completed.sessions@.len() ==> (#[trigger] completed.sessions@[j]).pbx_id
                != pbx_id) ==> final(sessions).sessions@[k].session == old(sessions).sessions@[o].session,
        final(sessions).automatic_attempts@.contains(pbx_id) <==> old(
            sessions,
        ).automatic_attempts@.contains(pbx_id) || completed.automatic_attempts@.contains(pbx_id),
{
    let after = *final(sessions);
    let before = *old(sessions);
    assert(after.session_spec(pbx_id) == match completed.session_spec(pbx_id) {
        Some(session) => Some(session),
        None => before.session_spec(pbx_id),
    });
    assert(before.wf() && completed.wf() && after.wf());
    let p = records(pbx_id);
    lookup::lemma_first_is(after.sessions@, p, k);
    if 0 <= c < completed.sessions@.len() && completed.sessions@[c].pbx_id == pbx_id {
        lookup::lemma_first_is(completed.sessions@, p, c);
    }
    if forall|j: int|
        0 <= j < completed.sessions@.len() ==> (#[trigger] completed.sessions@[j]).pbx_id
            != pbx_id {
        lookup::lemma_first_none(completed.sessions@, p);
    }
    if 0 <= o < before.sessions@.len() && before.sessions@[o].pbx_id == pbx_id {
        lookup::lemma_first_is(before.sessions@, p, o);
    }
}

} // verus!
