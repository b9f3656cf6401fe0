//! Call features of the switch: picking a call up, parking it and retrieving
//! it.

use vstd::prelude::*;

use crate::access::{self, with_channel, Access, ChannelBinding, Shared};
use crate::backend::{AsteriskBackendError, CallFeatureError};
use crate::channel;
use crate::collect::{find, position};
use crate::ids::PbxCallId;
use crate::lookup;
use crate::parking::{self, ParkedCall};
use crate::text::same_text;

verus! {

/// Which call is picked up.
#[derive(Debug, PartialEq, Eq)]
pub enum PickupOperation {
    Group { call_id: PbxCallId, answer: bool },
    Directed { call_id: PbxCallId, extension: String, context: String, answer: bool },
}

/// What the switch answers to a pickup.
#[derive(Debug, PartialEq, Eq)]
pub enum PickupReply<P> {
    /// It handed over a channel of this name, which is held by `handle`, and
    /// told the parties of the call.
    PickedUp { handle: u64, name: Option<String>, parties: P },
    Refused(CallFeatureError),
}

/// The call that picks up, and the name under which that is reported.
pub open spec fn pickup_subject(operation: PickupOperation) -> (PbxCallId, Seq<char>) {
    match operation {
        PickupOperation::Group { call_id, .. } => (call_id, "group pickup"@),
        PickupOperation::Directed { call_id, .. } => (call_id, "directed pickup"@),
    }
}

/// Begins to pick up a call: the channel that picks up has to be there.
pub fn begin_pickup(access: &Access, operation: &PickupOperation) -> (begun: Result<
    (),
    AsteriskBackendError,
>)
    ensures
        ({
            let (call_id, name) = pickup_subject(*operation);
            match begun {
                Ok(_) => access.shared.live_channel_spec(call_id) is Some,
                Err(error) => access.shared.live_channel_spec(call_id) is None
                    && channel::is_unavailable(error, name, call_id),
            }
        }),
{
    let (call_id, name) = match operation {
        PickupOperation::Group { call_id, .. } => (*call_id, "group pickup"),
        PickupOperation::Directed { call_id, .. } => (*call_id, "directed pickup"),
    };
    if with_channel(access, call_id).is_none() {
        return Err(AsteriskBackendError::CallUnavailable { operation: name, call_id });
    }
    Ok(())
}

/// The channels once the one of `call_id` has been replaced.
pub open spec fn with_replacement(
    channels: Seq<ChannelBinding>,
    call_id: PbxCallId,
    handle: u64,
    name: Option<String>,
) -> Seq<ChannelBinding> {
    match lookup::first_at(channels, access::channel_of(call_id), 0) {
        Some(i) => channels.update(
            i,
            ChannelBinding { handle, pbx_id: call_id, closed: false, name },
        ),
        None => channels,
    }
}

/// What a pickup does to the channels: the call has the new one, and the one that
/// picked up is closed to everyone who holds it.
pub open spec fn channel_replaced(
    before: Shared,
    after: Shared,
    call_id: PbxCallId,
    handle: u64,
    name: Option<String>,
) -> bool {
    &&& after == (Shared { channels: after.channels, retired: after.retired, ..before })
    &&& after.channels@ == with_replacement(before.channels@, call_id, handle, name)
    &&& after.retired@ == match lookup::first(before.channels@, access::channel_of(call_id)) {
        Some(replaced) => before.retired@.push(access::closing()(replaced)),
        None => before.retired@,
    }
}

/// Picks up a call. The channel that the switch hands over replaces the one of
/// the call, which has to be open still; the replaced one is closed.
pub fn pickup<P>(access: &mut Access, operation: &PickupOperation, reply: PickupReply<P>) ->
    (outcome: Result<P, AsteriskBackendError>)
    ensures
        ({
            let (call_id, _) = pickup_subject(*operation);
            match reply {
                PickupReply::Refused(error) => outcome == Err::<P, AsteriskBackendError>(
                    AsteriskBackendError::CallFeature(error),
                ) && *final(access) == *old(access),
                PickupReply::PickedUp { handle, name, parties } => if old(
                    access,
                ).shared.live_channel_spec(call_id) is Some {
                    &&& outcome == Ok::<P, AsteriskBackendError>(parties)
                    &&& channel_replaced(
                        old(access).shared,
                        final(access).shared,
                        call_id,
                        handle,
                        name,
                    )
                } else {
                    &&& outcome matches Err(error) && channel::is_unavailable(
                        error,
                        "pickup replacement"@,
                        call_id,
                    )
                    &&& *final(access) == *old(access)
                },
            }
        }),
{
    let call_id = match operation {
        PickupOperation::Group { call_id, .. } => *call_id,
        PickupOperation::Directed { call_id, .. } => *call_id,
    };
    let (handle, name, parties) = match reply {
        PickupReply::Refused(error) => {
            return Err(AsteriskBackendError::CallFeature(error));
        },
        PickupReply::PickedUp { handle, name, parties } => (handle, name, parties),
    };
    let ghost channels = access.shared.channels@;
    let found = position(
        &access.shared.channels,
        |binding: &ChannelBinding| -> (found: bool)
            ensures
                found == (binding.pbx_id == call_id)
            { binding.pbx_id == call_id },
        Ghost(access::channel_of(call_id)),
    );
    match found {
        Some(i) => {
            if !access.shared.channels[i].closed {
                let mut replaced = access.shared.channels.remove(i);
                replaced.closed = true;
                access.shared.retired.push(replaced);
                access.shared.channels.insert(
                    i,
                    ChannelBinding { handle, pbx_id: call_id, closed: false, name },
                );
                proof {
                    assert(access.shared.channels@ =~= with_replacement(
                        channels,
                        call_id,
                        handle,
                        name,
                    ));
                }
                return Ok(parties);
            }
        },
        None => {},
    }
    Err(AsteriskBackendError::CallUnavailable { operation: "pickup replacement", call_id })
}

/// What is parked or retrieved.
#[derive(Debug, PartialEq, Eq)]
pub enum ParkingOperation {
    Park { call_id: PbxCallId, lot: Option<String> },
    Retrieve { call_id: PbxCallId, lot: Option<String>, slot: u32 },
}

/// A retrieval that is under way.
#[derive(Debug, PartialEq, Eq)]
pub struct PendingRetrieval {
    pub pbx_id: PbxCallId,
    pub lot: String,
    pub slot: u32,
}

pub open spec fn retrieves(call_id: PbxCallId) -> spec_fn(PendingRetrieval) -> bool {
    |attempt: PendingRetrieval| attempt.pbx_id == call_id
}

/// The identity of the call that `call_id` retrieves.
pub open spec fn retrieved_id_spec(
    attempts: Seq<PendingRetrieval>,
    parked: Seq<ParkedCall>,
    call_id: PbxCallId,
) -> Option<String> {
    match lookup::first(attempts, retrieves(call_id)) {
        Some(attempt) => match lookup::first(parked, parking::waits_at(attempt.lot@, attempt.slot)) {
            Some(call) => Some(call.parkee_unique_id),
            None => None,
        },
        None => None,
    }
}

/// The identity of the call that `call_id` retrieves.
pub fn retrieved_id<'a>(
    attempts: &Vec<PendingRetrieval>,
    parked: &'a Vec<ParkedCall>,
    call_id: PbxCallId,
) -> (id: Option<&'a String>)
    ensures
        lookup::target(id) == retrieved_id_spec(attempts@, parked@, call_id),
{
    match find(
        attempts,
        |attempt: &PendingRetrieval| -> (found: bool)
            ensures
                found == (attempt.pbx_id == call_id)
            { attempt.pbx_id == call_id },
        Ghost(retrieves(call_id)),
    ) {
        Some(attempt) => {
            let slot: u32 = attempt.slot;
            match find(
                parked,
                |call: &ParkedCall| -> (found: bool)
                    ensures
                        found == (call.lot@ == attempt.lot@ && call.slot == slot)
                    { same_text(call.lot.as_str(), attempt.lot.as_str()) && call.slot == slot },
                Ghost(parking::waits_at(attempt.lot@, slot)),
            ) {
                Some(call) => Some(&call.parkee_unique_id),
                None => None,
            }
        },
        None => None,
    }
}

/// Where parking or retrieving stands.
#[derive(Clone, Copy, Debug, PartialEq, Eq, Structural)]
pub enum ParkingState {
    /// The identity of the parked party is being found.
    Identifying,
    /// Room for its completion is being reserved.
    Reserving,
    /// The controller notes the identity.
    Noting,
    /// The switch is asked.
    Performing,
    Done,
}

/// What came back.
#[derive(Debug, PartialEq, Eq)]
pub enum ParkingReply {
    /// The identity is known.
    Identified(bool),
    /// The switch failed to tell it.
    IdentityFailed(CallFeatureError),
    Reserved(bool),
    Noted(bool),
    Performed(Result<(), CallFeatureError>),
}

#[derive(Debug, PartialEq, Eq)]
pub enum ParkingStep {
    Reserve,
    Note,
    Perform,
    /// The reservation stays, because the completion will come.
    CommitReservation,
    Fail(AsteriskBackendError),
}

/// The operation is parking, not retrieving.
pub open spec fn parks(operation: ParkingOperation) -> bool {
    operation is Park
}

pub open spec fn parking_call(operation: ParkingOperation) -> PbxCallId {
    match operation {
        ParkingOperation::Park { call_id, .. } => call_id,
        ParkingOperation::Retrieve { call_id, .. } => call_id,
    }
}

/// The step is a failure of this kind.
pub open spec fn fails_as(step: ParkingStep, name: Seq<char>, call_id: PbxCallId) -> bool {
    match step {
        ParkingStep::Fail(error) => channel::is_unavailable(error, name, call_id),
        _ => false,
    }
}

pub open spec fn parking_step_spec(
    operation: ParkingOperation,
    state: ParkingState,
    reply: ParkingReply,
    next: ParkingState,
    step: ParkingStep,
) -> bool {
    let call_id = parking_call(operation);
    match (state, reply) {
        (ParkingState::Identifying, ParkingReply::Identified(true)) => next
            == ParkingState::Reserving && step is Reserve,
        (ParkingState::Identifying, ParkingReply::Identified(false)) => next == ParkingState::Done
            && fails_as(
            step,
            if parks(operation) {
                "park peer identity"@
            } else {
                "parking retrieval identity"@
            },
            call_id,
        ),
        (ParkingState::Identifying, ParkingReply::IdentityFailed(error)) => next
            == ParkingState::Done && step == ParkingStep::Fail(
            AsteriskBackendError::CallFeature(error),
        ),
        (ParkingState::Reserving, ParkingReply::Reserved(true)) => if parks(operation) {
            next == ParkingState::Noting && step is Note
        } else {
            next == ParkingState::Performing && step is Perform
        },
        (ParkingState::Reserving, ParkingReply::Reserved(false)) => next == ParkingState::Done
            && fails_as(
            step,
            if parks(operation) {
                "park completion admission"@
            } else {
                "parking retrieval completion admission"@
            },
            call_id,
        ),
        (ParkingState::Noting, ParkingReply::Noted(true)) => next == ParkingState::Performing
            && step is Perform,
        (ParkingState::Noting, ParkingReply::Noted(false)) => next == ParkingState::Done
            && fails_as(step, "park peer identity"@, call_id),
        (ParkingState::Performing, ParkingReply::Performed(Ok(_))) => next == ParkingState::Done
            && step is CommitReservation,
        (ParkingState::Performing, ParkingReply::Performed(Err(error))) => next
            == ParkingState::Done && step == ParkingStep::Fail(
            AsteriskBackendError::CallFeature(error),
        ),
        _ => next == ParkingState::Done && fails_as(
            step,
            if parks(operation) {
                "park call"@
            } else {
                "retrieve parked call"@
            },
            call_id,
        ),
    }
}

/// Begins to park or retrieve a call: its channel has to be there.
pub fn parking(access: &Access, operation: &ParkingOperation) -> (begun: Result<
    ParkingState,
    AsteriskBackendError,
>)
    ensures
        match begun {
            Ok(state) => state == ParkingState::Identifying && access.shared.live_channel_spec(
                parking_call(*operation),
            ) is Some,
            Err(error) => {
                &&& access.shared.live_channel_spec(parking_call(*operation)) is None
                &&& channel::is_unavailable(
                    error,
                    if parks(*operation) {
                        "park call"@
                    } else {
                        "retrieve parked call"@
                    },
                    parking_call(*operation),
                )
            },
        },
{
    let (call_id, name) = match operation {
        ParkingOperation::Park { call_id, .. } => (*call_id, "park call"),
        ParkingOperation::Retrieve { call_id, .. } => (*call_id, "retrieve parked call"),
    };
    if with_channel(access, call_id).is_some() {
        Ok(ParkingState::Identifying)
    } else {
        Err(AsteriskBackendError::CallUnavailable { operation: name, call_id })
    }
}

/// Goes on with parking or retrieving. Nothing is asked of the switch before
/// room for the completion is reserved, and the reservation stays only where the
/// switch did as asked.
pub fn continue_parking(operation: &ParkingOperation, state: ParkingState, reply: ParkingReply) ->
    (result: (ParkingState, ParkingStep))
    ensures
        parking_step_spec(*operation, state, reply, result.0, result.1),
{
    let (call_id, parked) = match operation {
        ParkingOperation::Park { call_id, .. } => (*call_id, true),
        ParkingOperation::Retrieve { call_id, .. } => (*call_id, false),
    };
    match (state, reply) {
        (ParkingState::Identifying, ParkingReply::Identified(true)) => (
            ParkingState::Reserving,
            ParkingStep::Reserve,
        ),
        (ParkingState::Identifying, ParkingReply::Identified(false)) => {
            let name = if parked {
                "park peer identity"
            } else {
                "parking retrieval identity"
            };
            (
                ParkingState::Done,
                ParkingStep::Fail(AsteriskBackendError::CallUnavailable { operation: name, call_id }),
            )
        },
        (ParkingState::Identifying, ParkingReply::IdentityFailed(error)) => (
            ParkingState::Done,
            ParkingStep::Fail(AsteriskBackendError::CallFeature(error)),
        ),
        (ParkingState::Reserving, ParkingReply::Reserved(true)) => if parked {
            (ParkingState::Noting, ParkingStep::Note)
        } else {
            (ParkingState::Performing, ParkingStep::Perform)
        },
        (ParkingState::Reserving, ParkingReply::Reserved(false)) => {
            let name = if parked {
                "park completion admission"
            } else {
                "parking retrieval completion admission"
            };
            (
                ParkingState::Done,
                ParkingStep::Fail(AsteriskBackendError::CallUnavailable { operation: name, call_id }),
            )
        },
        (ParkingState::Noting, ParkingReply::Noted(true)) => (
            ParkingState::Performing,
            ParkingStep::Perform,
        ),
        (ParkingState::Noting, ParkingReply::Noted(false)) => (
            ParkingState::Done,
            ParkingStep::Fail(
                AsteriskBackendError::CallUnavailable { operation: "park peer identity", call_id },
            ),
        ),
        (ParkingState::Performing, ParkingReply::Performed(Ok(_))) => (
            ParkingState::Done,
            ParkingStep::CommitReservation,
        ),
        (ParkingState::Performing, ParkingReply::Performed(Err(error))) => (
            ParkingState::Done,
            ParkingStep::Fail(AsteriskBackendError::CallFeature(error)),
        ),
        _ => {
            let name = if parked {
                "park call"
            } else {
                "retrieve parked call"
            };
            (
                ParkingState::Done,
                ParkingStep::Fail(AsteriskBackendError::CallUnavailable { operation: name, call_id }),
            )
        },
    }
}

/// After a pickup the call has exactly the channel that the switch handed over,
/// and every other call keeps its own.
pub proof fn law_pickups_replace_one_channel(
    before: Shared,
    after: Shared,
    call_id: PbxCallId,
    handle: u64,
    name: Option<String>,
    other: PbxCallId,
)
    requires
        before.live_channel_spec(call_id) is Some,
        channel_replaced(before, after, call_id, handle, name),
        other != call_id,
    ensures
        after.live_channel_spec(call_id) == Some(
            ChannelBinding { handle, pbx_id: call_id, closed: false, name },
        ),
        after.live_channel_spec(other) == before.live_channel_spec(other),
{
    let channels = before.channels@;
    let p = access::channel_of(call_id);
    let q = access::channel_of(other);
    let later = after.channels@;
    lookup::lemma_first_at(channels, p, 0);
    lookup::lemma_first_at(later, p, 0);
    lookup::lemma_first_at(channels, q, 0);
    lookup::lemma_first_at(later, q, 0);
    let i = lookup::first_at(channels, p, 0).unwrap();
    assert(p(later[i]));
    assert(forall|j: int| 0 <= j < channels.len() ==> q(#[trigger] later[j]) == q(channels[j]));
    assert(forall|j: int| 0 <= j < i ==> p(#[trigger] later[j]) == p(channels[j]));
    match (lookup::first_at(channels, q, 0), lookup::first_at(later, q, 0)) {
        (Some(a), Some(b)) => {
            assert(q(later[a]) && q(channels[b]));
            assert(a == b);
        },
        (Some(a), None) => {
            assert(q(later[a]));
        },
        (None, Some(b)) => {
            assert(q(channels[b]));
        },
        (None, None) => {},
    }
}

/// Whoever holds the channel that picked up finds it closed, the new channel is
/// found by its own handle, and handles stay unique.
pub proof fn law_replaced_channels_are_closed_to_their_holders(
    before: Shared,
    after: Shared,
    call_id: PbxCallId,
    handle: u64,
    name: Option<String>,
    replaced: ChannelBinding,
)
    requires
        before.handles_wf(),
        !lookup::some(before.channels@ + before.retired@, access::held_by(handle)),
        before.live_channel_spec(call_id) == Some(replaced),
        channel_replaced(before, after, call_id, handle, name),
    ensures
        after.handles_wf(),
        after.held_channel_spec(replaced.handle) is None,
        after.held_channel_spec(handle) == Some(
            ChannelBinding { handle, pbx_id: call_id, closed: false, name },
        ),
{
    let old_all = before.channels@ + before.retired@;
    let all = after.channels@ + after.retired@;
    let p = access::channel_of(call_id);
    lookup::lemma_first_at(before.channels@, p, 0);
    let i = lookup::first_at(before.channels@, p, 0).unwrap();
    let n = before.channels@.len();
    assert(after.channels@.len() == n);
    assert(before.channels@[i] == replaced);
    assert forall|k: int| 0 <= k < n implies (#[trigger] before.channels@[k]).handle != handle by {
        assert(old_all[k] == before.channels@[k]);
        assert(!access::held_by(handle)(old_all[k]));
    }
    assert forall|k: int| 0 <= k < before.retired@.len() implies (
    #[trigger] before.retired@[k]).handle != handle by {
        assert(old_all[n + k] == before.retired@[k]);
        assert(!access::held_by(handle)(old_all[n + k]));
    }
    assert forall|k: int| 0 <= k < n && k != i implies (#[trigger] before.channels@[k]).handle
        != replaced.handle by {
        if k < i {
            assert(access::handle()(before.channels@[k]) != access::handle()(before.channels@[i]));
        } else {
            assert(access::handle()(before.channels@[i]) != access::handle()(before.channels@[k]));
        }
    }
    assert forall|a: int, b: int| 0 <= a < b < after.channels@.len() implies access::handle()(
        #[trigger] after.channels@[a],
    ) != access::handle()(#[trigger] after.channels@[b]) by {
        assert(access::handle()(before.channels@[a]) != access::handle()(before.channels@[b]));
    }
    assert forall|a: int, b: int| 0 <= a < b < after.retired@.len() implies access::handle()(
        #[trigger] after.retired@[a],
    ) != access::handle()(#[trigger] after.retired@[b]) by {
        if b < before.retired@.len() {
            assert(access::handle()(before.retired@[a]) != access::handle()(before.retired@[b]));
        } else {
            assert(before.channels@[i].handle != before.retired@[a].handle);
        }
    }
    assert forall|a: int, b: int|
        0 <= a < after.channels@.len() && 0 <= b < after.retired@.len() implies (
    #[trigger] after.channels@[a]).handle != (#[trigger] after.retired@[b]).handle by {
        if b < before.retired@.len() {
            assert(before.channels@[a].handle != before.retired@[b].handle);
        } else {
            assert(after.retired@[b].handle == replaced.handle);
            assert(before.channels@[a].handle != handle);
        }
    }
    assert forall|k: int| 0 <= k < after.retired@.len() implies lookup::not(access::is_open())(
        #[trigger] after.retired@[k],
    ) by {
        if k < before.retired@.len() {
            assert(lookup::not(access::is_open())(before.retired@[k]));
        }
    }
    assert(after.handles_wf());
    let last = all.len() - 1;
    assert(all[last] == access::closing()(replaced));
    lookup::lemma_first_at(all, access::held_by(replaced.handle), 0);
    lookup::lemma_first_at(all, access::held_by(handle), 0);
    assert(access::held_by(replaced.handle)(all[last]));
    assert(access::held_by(handle)(all[i]));
    assert forall|k: int| 0 <= k < last implies (#[trigger] all[k]).handle != replaced.handle by {
        if k < n {
            assert(all[k] == after.channels@[k]);
            assert(before.channels@[i].handle != handle);
        } else {
            assert(all[k] == before.retired@[k - n]);
            assert(before.channels@[i].handle != before.retired@[k - n].handle);
        }
    }
    assert forall|k: int| 0 <= k < i implies (#[trigger] all[k]).handle != handle by {
        assert(all[k] == before.channels@[k]);
    }
}

/// The switch is asked to park or retrieve only after room for the completion
/// was reserved.
pub proof fn law_parking_is_reserved_first(
    operation: ParkingOperation,
    state: ParkingState,
    reply: ParkingReply,
    next: ParkingState,
    step: ParkingStep,
)
    requires
        parking_step_spec(operation, state, reply, next, step),
        step is Perform,
    ensures
        reply == ParkingReply::Reserved(true) || (reply == ParkingReply::Noted(true) && state
            == ParkingState::Noting),
{
}

/// A pickup begins exactly if the channel that picks up is there and open.
pub proof fn law_pickups_need_their_channel(
    access: &Access,
    operation: PickupOperation,
    call_id: PbxCallId,
    begun: Result<(), AsteriskBackendError>,
    i: int,
)
    requires
        call_ensures(begin_pickup, (access, &operation), begun),
        (operation matches PickupOperation::Group { call_id: by, .. } && by == call_id) || (
        operation matches PickupOperation::Directed { call_id: by, .. } && by == call_id),
        0 <= i <= access.shared.channels@.len(),
        forall|j: int|
            0 <= j < i ==> (#[trigger] access.shared.channels@[j]).pbx_id != call_id,
        i < access.shared.channels@.len() ==> access.shared.channels@[i].pbx_id == call_id,
    ensures
        begun is Ok <==> i < access.shared.channels@.len() && !access.shared.channels@[i].closed,
{
    let p = access::channel_of(call_id);
    if i == access.shared.channels@.len() {
        lookup::lemma_first_none(access.shared.channels@, p);
    } else {
        lookup::lemma_first_is(access.shared.channels@, p, i);
    }
}

/// The channel that a pickup hands over takes the place of the one that picked up,
/// open and under its own name; no other channel changes, and the replaced one is
/// retired.
pub proof fn law_picked_up_channels_take_the_place(
    before: Shared,
    after: Shared,
    call_id: PbxCallId,
    handle: u64,
    name: Option<String>,
    i: int,
    k: int,
)
    requires
        channel_replaced(before, after, call_id, handle, name),
        0 <= i < before.channels@.len(),
        before.channels@[i].pbx_id == call_id,
        forall|j: int| 0 <= j < i ==> (#[trigger] before.channels@[j]).pbx_id != call_id,
        0 <= k < before.channels@.len(),
    ensures
        after.channels@.len() == before.channels@.len(),
        after.channels@[i].pbx_id == call_id,
        after.channels@[i].handle == handle,
        after.channels@[i].name == name,
        !after.channels@[i].closed,
        k != i ==> after.channels@[k] == before.channels@[k],
        after.retired@.len() == before.retired@.len() + 1,
        after.retired@.last().pbx_id == call_id,
        after.retired@.last().handle == before.channels@[i].handle,
        after.retired@.last().closed,
        after.controller == before.controller && after.config == before.config,
{
    lookup::lemma_first_is(before.channels@, access::channel_of(call_id), i);
}

/// The switch takes over the call in the slot that the attempt of this call claims.
pub proof fn law_retrievals_name_the_claimed_call<'a>(
    attempts: Vec<PendingRetrieval>,
    parked: &'a Vec<ParkedCall>,
    call_id: PbxCallId,
    id: Option<&'a String>,
    a: int,
    i: int,
)
    requires
        call_ensures(retrieved_id, (&attempts, parked, call_id), id),
        0 <= a < attempts@.len(),
        attempts@[a].pbx_id == call_id,
        forall|j: int| 0 <= j < a ==> (#[trigger] attempts@[j]).pbx_id != call_id,
        0 <= i <= parked@.len(),
        forall|j: int|
            0 <= j < i ==> !((#[trigger] parked@[j]).lot@ == attempts@[a].lot@ && parked@[j].slot
                == attempts@[a].slot),
        i < parked@.len() ==> parked@[i].lot@ == attempts@[a].lot@ && parked@[i].slot
            == attempts@[a].slot,
    ensures
        id is Some <==> i < parked@.len(),
        id matches Some(id) ==> *id == parked@[i].parkee_unique_id,
{
    lookup::lemma_first_is(attempts@, retrieves(call_id), a);
    let p = parking::waits_at(attempts@[a].lot@, attempts@[a].slot);
    if i == parked@.len() {
        lookup::lemma_first_none(parked@, p);
    } else {
        lookup::lemma_first_is(parked@, p, i);
    }
}

/// Parking and retrieving identify the call and reserve its completion before
/// anything is done; only parking notes the peer in between. The reservation is
/// kept exactly if the switch did what it was asked.
pub proof fn law_parking_reserves_before_it_acts(
    operation: ParkingOperation,
    state: ParkingState,
    reply: ParkingReply,
    next: ParkingState,
    step: ParkingStep,
)
    requires
        call_ensures(continue_parking, (&operation, state, reply), (next, step)),
    ensures
        step is Reserve <==> state is Identifying && reply == ParkingReply::Identified(true),
        step is Note <==> operation is Park && state is Reserving && reply
            == ParkingReply::Reserved(true),
        step is Perform <==> (operation is Park && state is Noting && reply == ParkingReply::Noted(
            true,
        )) || (operation is Retrieve && state is Reserving && reply == ParkingReply::Reserved(true))
            || (operation is Retrieve && state is Noting && reply == ParkingReply::Noted(true)),
        step is CommitReservation <==> state is Performing && (reply matches
            ParkingReply::Performed(done) && done is Ok),
        next is Reserving <==> step is Reserve,
        next is Noting <==> step is Note,
        next is Performing <==> step is Perform,
        next is Done <==> step is CommitReservation || step is Fail,
        state is Performing ==> (reply matches ParkingReply::Performed(Err(error)) ==> step
            == ParkingStep::Fail(AsteriskBackendError::CallFeature(error))),
        state is Identifying ==> (reply matches ParkingReply::IdentityFailed(error) ==> step
            == ParkingStep::Fail(AsteriskBackendError::CallFeature(error))),
{
}

/// A pickup that was refused changes nothing; one that was made replaces the channel
/// of the call that picked up, which has to be open.
pub proof fn law_pickups_replace_the_channel_of_their_call<P>(
    access: &mut Access,
    operation: PickupOperation,
    reply: PickupReply<P>,
    outcome: Result<P, AsteriskBackendError>,
    i: int,
)
    requires
        call_ensures(pickup::<P>, (access, &operation, reply), outcome),
        0 <= i <= old(access).shared.channels@.len(),
        forall|j: int|
            0 <= j < i ==> (#[trigger] old(access).shared.channels@[j]).pbx_id
                != pickup_subject(operation).0,
        i < old(access).shared.channels@.len() ==> old(access).shared.channels@[i].pbx_id
            == pickup_subject(operation).0,
    ensures
        outcome is Ok <==> reply is PickedUp && i < old(access).shared.channels@.len() && !old(
            access,
        ).shared.channels@[i].closed,
        outcome matches Ok(parties) ==> (reply matches PickupReply::PickedUp { parties: given, .. }
            && given == parties),
        outcome is Err ==> *final(access) == *old(access),
        reply matches PickupReply::Refused(error) ==> outcome == Err::<P, AsteriskBackendError>(
            AsteriskBackendError::CallFeature(error),
        ),
        outcome is Ok ==> final(access).shared.controller == old(access).shared.controller && final(
            access).shared.retired@.len() == old(access).shared.retired@.len() + 1,
        operation matches PickupOperation::Group { call_id, .. } ==> pickup_subject(operation).0
            == call_id,
        operation matches PickupOperation::Directed { call_id, .. } ==> pickup_subject(operation).0
            == call_id,
{
    let channels = old(access).shared.channels@;
    let p = access::channel_of(pickup_subject(operation).0);
    if i == channels.len() {
        lookup::lemma_first_none(channels, p);
    } else {
        lookup::lemma_first_is(channels, p, i);
    }
}

/// Parking and retrieving begin exactly if the channel of the call is open, and a
/// refusal names the operation and the call.
pub proof fn law_parking_begins_on_open_channels(
    access: &Access,
    operation: ParkingOperation,
    begun: Result<ParkingState, AsteriskBackendError>,
    call_id: PbxCallId,
    i: int,
)
    requires
        call_ensures(parking, (access, &operation), begun),
        operation matches ParkingOperation::Park { call_id: of, .. } ==> of == call_id,
        operation matches ParkingOperation::Retrieve { call_id: of, .. } ==> of == call_id,
        0 <= i <= access.shared.channels@.len(),
        forall|j: int| 0 <= j < i ==> (#[trigger] access.shared.channels@[j]).pbx_id != call_id,
        i < access.shared.channels@.len() ==> access.shared.channels@[i].pbx_id == call_id,
    ensures
        begun is Ok <==> i < access.shared.channels@.len() && !access.shared.channels@[i].closed,
        begun matches Ok(state) ==> state == ParkingState::Identifying,
        begun matches Err(error) ==> (error matches AsteriskBackendError::CallUnavailable {
            operation: named,
            call_id: of,
        } && of == call_id && (operation is Park ==> named@ == "park call"@) && (operation
            is Retrieve ==> named@ == "retrieve parked call"@)),
{
    let p = access::channel_of(call_id);
    if i == access.shared.channels@.len() {
        lookup::lemma_first_none(access.shared.channels@, p);
    } else {
        lookup::lemma_first_is(access.shared.channels@, p, i);
    }
}

} // verus!
