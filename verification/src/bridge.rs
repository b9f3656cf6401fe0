//! Mixing bridges: who owns which session, and what an operation on one comes
//! to.

use vstd::prelude::*;
use vstd::string::*;

use crate::access::{with_channel, with_channels, with_two_channels, Access, Shared};
use crate::backend::{AsteriskBackendError, CallFeatureError};
use crate::channel;
use crate::collect::{has_call, position, retain, split_off};
use crate::effects::{BargeOperation, BridgeOperation, TransferCompletion};
use crate::ids::{PbxBridgeId, PbxCallId};
use crate::lookup;
use crate::text::{self, decimal_text};

verus! {

/// A bridge that the switch holds open.
#[derive(Clone, Copy, Debug, PartialEq, Eq, Structural)]
pub struct BridgeSession(pub u64);

/// A bridge that a barge borrowed from a call.
#[derive(Clone, Copy, Debug, PartialEq, Eq, Structural)]
pub struct BargeBridgeSession(pub u64);

/// Operations are numbered in the order in which they were admitted.
#[derive(Clone, Copy, Debug, PartialEq, Eq, Structural)]
pub struct OperationId(pub u64);

/// What the owner of the bridges is asked for.
#[derive(Debug, PartialEq, Eq)]
pub enum BridgeAction {
    Bridge(BridgeOperation),
    Barge(BargeOperation),
    Transfer(TransferCompletion),
    /// Close everything.
    Drain,
}

/// What an operation must have to itself while it runs.
#[derive(Clone, Copy, Debug, PartialEq, Eq, Structural)]
pub enum BridgeResource {
    Bridge(PbxBridgeId),
    Call(PbxCallId),
}

/// The bridge that an operation changes.
pub open spec fn operation_bridge(operation: BridgeOperation) -> PbxBridgeId {
    match operation {
        BridgeOperation::Create { bridge_id } => bridge_id,
        BridgeOperation::Destroy { bridge_id } => bridge_id,
        BridgeOperation::AddParticipant { bridge_id, .. } => bridge_id,
        BridgeOperation::RemoveParticipant { bridge_id, .. } => bridge_id,
        BridgeOperation::MergeConsultation { bridge_id, .. } => bridge_id,
        BridgeOperation::MergeCalls { bridge_id, .. } => bridge_id,
        BridgeOperation::MergeParticipant { bridge_id, .. } => bridge_id,
        BridgeOperation::SetParticipantMuted { bridge_id, .. } => bridge_id,
        BridgeOperation::SetParticipantMusicOnHold { bridge_id, .. } => bridge_id,
        BridgeOperation::RemoveConferenceParticipant { bridge_id, .. } => bridge_id,
    }
}

/// The calls that an operation moves.
pub open spec fn operation_calls(operation: BridgeOperation) -> Seq<PbxCallId> {
    match operation {
        BridgeOperation::Create { .. } => seq![],
        BridgeOperation::Destroy { .. } => seq![],
        BridgeOperation::AddParticipant { call_id, .. } => seq![call_id],
        BridgeOperation::RemoveParticipant { call_id, .. } => seq![call_id],
        BridgeOperation::MergeParticipant { call_id, .. } => seq![call_id],
        BridgeOperation::SetParticipantMuted { call_id, .. } => seq![call_id],
        BridgeOperation::SetParticipantMusicOnHold { call_id, .. } => seq![call_id],
        BridgeOperation::RemoveConferenceParticipant { call_id, .. } => seq![call_id],
        BridgeOperation::MergeConsultation { original_call_id, consultation_call_id, .. } => seq![
            original_call_id,
            consultation_call_id,
        ],
        BridgeOperation::MergeCalls { call_ids, .. } => call_ids@,
    }
}

/// The bridge that an operation changes.
pub fn bridge_of(operation: &BridgeOperation) -> (bridge_id: PbxBridgeId)
    ensures
        bridge_id == operation_bridge(*operation),
{
    match operation {
        BridgeOperation::Create { bridge_id } => *bridge_id,
        BridgeOperation::Destroy { bridge_id } => *bridge_id,
        BridgeOperation::AddParticipant { bridge_id, .. } => *bridge_id,
        BridgeOperation::RemoveParticipant { bridge_id, .. } => *bridge_id,
        BridgeOperation::MergeConsultation { bridge_id, .. } => *bridge_id,
        BridgeOperation::MergeCalls { bridge_id, .. } => *bridge_id,
        BridgeOperation::MergeParticipant { bridge_id, .. } => *bridge_id,
        BridgeOperation::SetParticipantMuted { bridge_id, .. } => *bridge_id,
        BridgeOperation::SetParticipantMusicOnHold { bridge_id, .. } => *bridge_id,
        BridgeOperation::RemoveConferenceParticipant { bridge_id, .. } => *bridge_id,
    }
}

impl BridgeAction {
    pub open spec fn bridge_id_spec(self) -> Option<PbxBridgeId> {
        match self {
            BridgeAction::Bridge(operation) => Some(operation_bridge(operation)),
            BridgeAction::Barge(BargeOperation::Join { bridge_id, .. }) => Some(bridge_id),
            BridgeAction::Barge(BargeOperation::Leave { bridge_id, .. }) => Some(bridge_id),
            BridgeAction::Transfer(_) => None,
            BridgeAction::Drain => None,
        }
    }

    pub open spec fn call_ids_spec(self) -> Seq<PbxCallId> {
        match self {
            BridgeAction::Bridge(operation) => operation_calls(operation),
            BridgeAction::Barge(
                BargeOperation::Join { target_call_id, barger_call_id, .. },
            ) => seq![target_call_id, barger_call_id],
            BridgeAction::Barge(BargeOperation::Leave { barger_call_id, .. }) => seq![
                barger_call_id,
            ],
            BridgeAction::Transfer(transfer) => seq![
                transfer.source.pbx_call_id,
                transfer.consultation.pbx_call_id,
            ],
            BridgeAction::Drain => seq![],
        }
    }

    /// The bridge that the action is about.
    pub fn bridge_id(&self) -> (bridge_id: Option<PbxBridgeId>)
        ensures
            bridge_id == self.bridge_id_spec(),
    {
        match self {
            BridgeAction::Bridge(operation) => Some(bridge_of(operation)),
            BridgeAction::Barge(BargeOperation::Join { bridge_id, .. }) => Some(*bridge_id),
            BridgeAction::Barge(BargeOperation::Leave { bridge_id, .. }) => Some(*bridge_id),
            BridgeAction::Transfer(_) => None,
            BridgeAction::Drain => None,
        }
    }

    /// The calls that the action moves.
    pub fn call_ids(&self) -> (calls: Vec<PbxCallId>)
        ensures
            calls@ == self.call_ids_spec(),
    {
        match self {
            BridgeAction::Bridge(operation) => match operation {
                BridgeOperation::Create { .. } => Vec::new(),
                BridgeOperation::Destroy { .. } => Vec::new(),
                BridgeOperation::AddParticipant { call_id, .. } => vec![*call_id],
                BridgeOperation::RemoveParticipant { call_id, .. } => vec![*call_id],
                BridgeOperation::MergeParticipant { call_id, .. } => vec![*call_id],
                BridgeOperation::SetParticipantMuted { call_id, .. } => vec![*call_id],
                BridgeOperation::SetParticipantMusicOnHold { call_id, .. } => vec![*call_id],
                BridgeOperation::RemoveConferenceParticipant { call_id, .. } => vec![*call_id],
                BridgeOperation::MergeConsultation {
                    original_call_id,
                    consultation_call_id,
                    ..
                } => vec![*original_call_id, *consultation_call_id],
                BridgeOperation::MergeCalls { call_ids, .. } => copied_calls(call_ids),
            },
            BridgeAction::Barge(
                BargeOperation::Join { target_call_id, barger_call_id, .. },
            ) => vec![*target_call_id, *barger_call_id],
            BridgeAction::Barge(BargeOperation::Leave { barger_call_id, .. }) => vec![
                *barger_call_id,
            ],
            BridgeAction::Transfer(transfer) => vec![
                transfer.source.pbx_call_id,
                transfer.consultation.pbx_call_id,
            ],
            BridgeAction::Drain => Vec::new(),
        }
    }
}

fn copied_calls(calls: &Vec<PbxCallId>) -> (copy: Vec<PbxCallId>)
    ensures
        copy@ == calls@,
{
    let mut copy: Vec<PbxCallId> = Vec::new();
    let mut i: usize = 0;
    while i < calls.len()
        invariant
            0 <= i <= calls@.len(),
            copy@ == calls@.take(i as int),
        decreases calls@.len() - i,
    {
        copy.push(calls[i]);
        i += 1;
    }
    assert(calls@.take(i as int) =~= calls@);
    copy
}

/// The owner of the bridges cannot be reached, or no longer takes work.
pub open spec fn is_runtime_unavailable(error: AsteriskBackendError) -> bool {
    match error {
        AsteriskBackendError::Failed { operation, calls } => operation@
            == "bridge owner operation"@ && calls@ == "runtime unavailable"@,
        _ => false,
    }
}

pub fn unavailable() -> (error: AsteriskBackendError)
    ensures
        is_runtime_unavailable(error),
{
    AsteriskBackendError::Failed {
        operation: "bridge owner operation",
        calls: "runtime unavailable".to_owned(),
    }
}

/// What an action comes to once its reply is there; none came where the owner
/// has gone or gave the action up.
pub fn execute(reply: Option<Result<(), AsteriskBackendError>>) -> (outcome: Result<
    (),
    AsteriskBackendError,
>)
    ensures
        match reply {
            Some(given) => outcome == given,
            None => outcome matches Err(error) && is_runtime_unavailable(error),
        },
{
    match reply {
        Some(given) => given,
        None => Err(unavailable()),
    }
}

#[derive(Clone, Copy, Debug, PartialEq, Eq, Structural)]
pub struct HeldBridge {
    pub bridge_id: PbxBridgeId,
    pub session: BridgeSession,
}

#[derive(Clone, Copy, Debug, PartialEq, Eq, Structural)]
pub struct HeldBarge {
    pub bridge_id: PbxBridgeId,
    pub session: BargeBridgeSession,
}

/// Every call that an operation on the bridge has named so far.
#[derive(Debug, PartialEq, Eq)]
pub struct BridgeCalls {
    pub bridge_id: PbxBridgeId,
    pub calls: Vec<PbxCallId>,
}

/// What an admitted operation will touch.
#[derive(Debug, PartialEq, Eq)]
pub struct BridgeIntent {
    pub id: OperationId,
    pub bridge_id: Option<PbxBridgeId>,
    pub calls: Vec<PbxCallId>,
}

/// The bridges with a session, in the order of their numbers.
#[derive(Debug, PartialEq, Eq)]
pub struct BridgeSnapshot {
    pub bridges: Vec<PbxBridgeId>,
    pub barges: Vec<PbxBridgeId>,
}

/// Everything that the owner of the bridges keeps.
#[derive(Debug, PartialEq, Eq)]
pub struct BridgeState {
    pub snapshot: BridgeSnapshot,
    pub bridges: Vec<HeldBridge>,
    pub barges: Vec<HeldBarge>,
    pub calls: Vec<BridgeCalls>,
    pub intents: Vec<BridgeIntent>,
    pub retiring_after: Option<OperationId>,
}

pub open spec fn holds_bridge(bridge_id: PbxBridgeId) -> spec_fn(HeldBridge) -> bool {
    |held: HeldBridge| held.bridge_id == bridge_id
}

pub open spec fn holds_barge(bridge_id: PbxBridgeId) -> spec_fn(HeldBarge) -> bool {
    |held: HeldBarge| held.bridge_id == bridge_id
}

pub open spec fn calls_of(bridge_id: PbxBridgeId) -> spec_fn(BridgeCalls) -> bool {
    |held: BridgeCalls| held.bridge_id == bridge_id
}

pub open spec fn intends(id: OperationId) -> spec_fn(BridgeIntent) -> bool {
    |intent: BridgeIntent| intent.id == id
}

/// The numbers grow.
pub open spec fn ascending(ids: Seq<PbxBridgeId>) -> bool {
    forall|i: int, j: int| 0 <= i < j < ids.len() ==> ids[i].0 < ids[j].0
}

impl BridgeState {
    /// Each bridge has one session of a kind, one set of calls and one place in
    /// the snapshot, and each operation one intent.
    pub open spec fn wf(self) -> bool {
        &&& ascending(self.snapshot.bridges@)
        &&& ascending(self.snapshot.barges@)
        &&& forall|i: int, j: int|
            0 <= i < j < self.bridges@.len() ==> self.bridges@[i].bridge_id
                != self.bridges@[j].bridge_id
        &&& forall|i: int, j: int|
            0 <= i < j < self.barges@.len() ==> self.barges@[i].bridge_id
                != self.barges@[j].bridge_id
        &&& forall|i: int, j: int|
            0 <= i < j < self.calls@.len() ==> self.calls@[i].bridge_id
                != self.calls@[j].bridge_id
        &&& forall|i: int, j: int|
            0 <= i < j < self.intents@.len() ==> self.intents@[i].id != self.intents@[j].id
    }

    /// The session of a bridge that nobody works on.
    pub open spec fn bridge_spec(self, bridge_id: PbxBridgeId) -> Option<BridgeSession> {
        match lookup::first(self.bridges@, holds_bridge(bridge_id)) {
            Some(held) => Some(held.session),
            None => None,
        }
    }

    pub open spec fn barge_spec(self, bridge_id: PbxBridgeId) -> Option<BargeBridgeSession> {
        match lookup::first(self.barges@, holds_barge(bridge_id)) {
            Some(held) => Some(held.session),
            None => None,
        }
    }

    /// The calls that a bridge may hold.
    pub open spec fn participants_spec(self, bridge_id: PbxBridgeId) -> Set<PbxCallId> {
        match lookup::first(self.calls@, calls_of(bridge_id)) {
            Some(held) => held.calls@.to_set(),
            None => Set::empty(),
        }
    }
}

/// Every session, to be closed.
#[derive(Debug, PartialEq, Eq)]
pub struct BridgeDrain {
    pub bridges: Vec<HeldBridge>,
    pub barges: Vec<HeldBarge>,
}

/// An action with what it works on.
#[derive(Debug, PartialEq, Eq)]
pub struct BridgeEffect {
    pub action: BridgeAction,
    pub bridge: Option<BridgeSession>,
    pub barge: Option<BargeBridgeSession>,
    pub draining: Option<BridgeDrain>,
}

/// What became of an action.
#[derive(Debug, PartialEq, Eq)]
pub struct BridgeCompletion {
    pub bridge_id: Option<PbxBridgeId>,
    pub bridge: Option<BridgeSession>,
    pub barge: Option<BargeBridgeSession>,
    pub result: Result<(), AsteriskBackendError>,
}

#[derive(Debug, PartialEq, Eq)]
pub enum BridgeStep {
    Finished(Result<(), AsteriskBackendError>),
    Effect(BridgeEffect),
}

/// A call is claimed by one of these intents on a bridge of this kind.
pub open spec fn intent_claims(
    intents: Seq<BridgeIntent>,
    bridge_id: Option<PbxBridgeId>,
    resource: BridgeResource,
) -> bool {
    exists|i: int|
        #![trigger intents[i]]
        0 <= i < intents.len() && match resource {
            BridgeResource::Bridge(bridge) => bridge_id is None && intents[i].bridge_id == Some(
                bridge,
            ),
            BridgeResource::Call(call) => (bridge_id is None || intents[i].bridge_id == bridge_id)
                && intents[i].calls@.contains(call),
        }
}

/// A resource is claimed because a bridge may hold it.
pub open spec fn held_claims(
    held: Seq<BridgeCalls>,
    bridge_id: Option<PbxBridgeId>,
    resource: BridgeResource,
) -> bool {
    exists|i: int|
        #![trigger held[i]]
        0 <= i < held.len() && match resource {
            BridgeResource::Bridge(bridge) => bridge_id is None && held[i].bridge_id == bridge,
            BridgeResource::Call(call) => (bridge_id is None || Some(held[i].bridge_id)
                == bridge_id) && held[i].calls@.contains(call),
        }
}

impl BridgeState {
    /// What an action must have to itself: its own bridge and calls, and every
    /// call that its bridge holds or is about to hold. Closing everything takes
    /// all of it.
    pub open spec fn claims(self, action: BridgeAction, resource: BridgeResource) -> bool {
        ||| (resource matches BridgeResource::Call(call) && action.call_ids_spec().contains(call))
        ||| (resource matches BridgeResource::Bridge(bridge) && action.bridge_id_spec() == Some(
            bridge,
        ))
        ||| ((action is Drain || action.bridge_id_spec() is Some) && (intent_claims(
            self.intents@,
            action.bridge_id_spec(),
            resource,
        ) || held_claims(self.calls@, action.bridge_id_spec(), resource)))
    }

    /// What an action must have to itself.
    pub fn resources(&self, action: &BridgeAction) -> (resources: Vec<BridgeResource>)
        ensures
            forall|resource: BridgeResource|
                resources@.contains(resource) <==> #[trigger] self.claims(*action, resource),
    {
        let mut resources: Vec<BridgeResource> = Vec::new();
        let own = action.call_ids();
        add_calls(&mut resources, &own);
        let bridge_id = action.bridge_id();
        let draining = match action {
            BridgeAction::Drain => true,
            _ => false,
        };
        match bridge_id {
            Some(bridge) => add_resource(&mut resources, BridgeResource::Bridge(bridge)),
            None => {},
        }
        let ghost start = resources@;
        assert(forall|resource: BridgeResource| #[trigger]
            start.contains(resource) <==> {
                ||| (resource matches BridgeResource::Call(call)
                    && action.call_ids_spec().contains(call))
                ||| (resource matches BridgeResource::Bridge(bridge) && bridge_id == Some(bridge))
            });
        if !draining && bridge_id.is_none() {
            return resources;
        }
        add_intents(&mut resources, &self.intents, bridge_id);
        add_held(&mut resources, &self.calls, bridge_id);
        resources
    }

    /// Notes what an action will touch. Once everything is to be closed, later
    /// actions find nothing to work on.
    pub fn admit_operation(&mut self, id: OperationId, action: &BridgeAction) -> (resources: Vec<
        BridgeResource,
    >)
        requires
            old(self).wf(),
        ensures
            final(self).wf(),
            final(self).retiring_after == if *action is Drain {
                Some(id)
            } else {
                old(self).retiring_after
            },
            final(self).intents@.drop_last() == old(self).intents@.filter(
                lookup::not(intends(id)),
            ),
            final(self).intents@.len() > 0,
            final(self).intents@.last().id == id,
            final(self).intents@.last().bridge_id == action.bridge_id_spec(),
            final(self).intents@.last().calls@ == action.call_ids_spec(),
            final(self).snapshot == old(self).snapshot,
            final(self).bridges == old(self).bridges,
            final(self).barges == old(self).barges,
            final(self).calls == old(self).calls,
            forall|resource: BridgeResource|
                resources@.contains(resource) <==> #[trigger] final(self).claims(
                    *action,
                    resource,
                ),
    {
        match action {
            BridgeAction::Drain => {
                self.retiring_after = Some(id);
            },
            _ => {},
        }
        self.forget(id);
        let ghost kept = self.intents@;
        self.intents.push(
            BridgeIntent { id, bridge_id: action.bridge_id(), calls: action.call_ids() },
        );
        proof {
            assert(self.intents@.drop_last() =~= kept);
            assert forall|i: int| 0 <= i < kept.len() implies (#[trigger] kept[i]).id != id by {
                lookup::lemma_filter_member(old(self).intents@, lookup::not(intends(id)), i);
                assert(lookup::not(intends(id))(kept[i]));
            }
        }
        self.resources(action)
    }

    /// Drops the note of what an action will touch.
    fn forget(&mut self, id: OperationId)
        requires
            old(self).wf(),
        ensures
            final(self).wf(),
            final(self).intents@ == old(self).intents@.filter(lookup::not(intends(id))),
            final(self).snapshot == old(self).snapshot,
            final(self).bridges == old(self).bridges,
            final(self).barges == old(self).barges,
            final(self).calls == old(self).calls,
            final(self).retiring_after == old(self).retiring_after,
    {
        let ghost before = self.intents@;
        retain(
            &mut self.intents,
            |intent: &BridgeIntent| -> (kept: bool)
                ensures
                    kept == !(intent.id == id)
                { intent.id != id },
            Ghost(lookup::not(intends(id))),
        );
        proof {
            lookup::lemma_filter_distinct(
                before,
                lookup::not(intends(id)),
                |intent: BridgeIntent| intent.id.0,
            );
        }
    }

    /// An action was given up before it ran.
    pub fn expired(&mut self, id: OperationId)
        requires
            old(self).wf(),
        ensures
            final(self).wf(),
            final(self).intents@ == old(self).intents@.filter(lookup::not(intends(id))),
            final(self).snapshot == old(self).snapshot,
            final(self).bridges == old(self).bridges,
            final(self).barges == old(self).barges,
            final(self).calls == old(self).calls,
            final(self).retiring_after == old(self).retiring_after,
    {
        self.forget(id);
    }

    /// An action broke off while it ran.
    pub fn failed(&mut self, id: OperationId) -> (outcome: Result<(), AsteriskBackendError>)
        requires
            old(self).wf(),
        ensures
            outcome matches Err(error) && is_runtime_unavailable(error),
            final(self).wf(),
            final(self).intents@ == old(self).intents@.filter(lookup::not(intends(id))),
            final(self).snapshot == old(self).snapshot,
            final(self).bridges == old(self).bridges,
            final(self).barges == old(self).barges,
            final(self).calls == old(self).calls,
            final(self).retiring_after == old(self).retiring_after,
    {
        self.forget(id);
        Err(unavailable())
    }
}

fn add_resource(resources: &mut Vec<BridgeResource>, resource: BridgeResource)
    ensures
        forall|r: BridgeResource| #[trigger]
            final(resources)@.contains(r) <==> old(resources)@.contains(r) || r == resource,
{
    let ghost before = resources@;
    resources.push(resource);
    proof {
        assert forall|r: BridgeResource| #[trigger]
            resources@.contains(r) == (before.contains(r) || r == resource) by {
            if before.contains(r) {
                let i = choose|i: int| 0 <= i < before.len() && before[i] == r;
                assert(resources@[i] == r);
            }
            if r == resource {
                assert(resources@[before.len() as int] == r);
            }
        }
    }
}

fn add_calls(resources: &mut Vec<BridgeResource>, calls: &Vec<PbxCallId>)
    ensures
        forall|r: BridgeResource| #[trigger]
            final(resources)@.contains(r) <==> old(resources)@.contains(r) || (r matches
                BridgeResource::Call(call) && calls@.contains(call)),
{
    let ghost before = resources@;
    let mut i: usize = 0;
    while i < calls.len()
        invariant
            0 <= i <= calls@.len(),
            forall|r: BridgeResource| #[trigger]
                resources@.contains(r) <==> before.contains(r) || (r matches BridgeResource::Call(
                    call,
                ) && calls@.take(i as int).contains(call)),
        decreases calls@.len() - i,
    {
        let ghost shorter = calls@.take(i as int);
        let ghost longer = calls@.take(i + 1);
        add_resource(resources, BridgeResource::Call(calls[i]));
        proof {
            assert(longer =~= shorter.push(calls@[i as int]));
            assert forall|call: PbxCallId| #[trigger]
                longer.contains(call) == (shorter.contains(call) || call == calls@[i as int]) by {
                if shorter.contains(call) {
                    let k = choose|k: int| 0 <= k < shorter.len() && shorter[k] == call;
                    assert(longer[k] == call);
                }
                if call == calls@[i as int] {
                    assert(longer[i as int] == call);
                }
            }
        }
        i += 1;
    }
    assert(calls@.take(i as int) =~= calls@);
}

fn add_intents(
    resources: &mut Vec<BridgeResource>,
    intents: &Vec<BridgeIntent>,
    bridge_id: Option<PbxBridgeId>,
)
    ensures
        forall|r: BridgeResource| #[trigger]
            final(resources)@.contains(r) <==> old(resources)@.contains(r) || intent_claims(
                intents@,
                bridge_id,
                r,
            ),
{
    let ghost before = resources@;
    let mut i: usize = 0;
    while i < intents.len()
        invariant
            0 <= i <= intents@.len(),
            forall|r: BridgeResource| #[trigger]
                resources@.contains(r) <==> before.contains(r) || intent_claims(
                    intents@.take(i as int),
                    bridge_id,
                    r,
                ),
        decreases intents@.len() - i,
    {
        let ghost here = resources@;
        let ghost shorter = intents@.take(i as int);
        let ghost longer = intents@.take(i + 1);
        let intent = &intents[i];
        if bridge_id.is_none() || intent.bridge_id == bridge_id {
            match (bridge_id, intent.bridge_id) {
                (None, Some(bridge)) => add_resource(resources, BridgeResource::Bridge(bridge)),
                _ => {},
            }
            add_calls(resources, &intent.calls);
        }
        proof {
            assert(longer[i as int] == *intent);
            assert forall|r: BridgeResource| #[trigger]
                resources@.contains(r) == (before.contains(r) || intent_claims(
                    longer,
                    bridge_id,
                    r,
                )) by {
                assert(here.contains(r) == (before.contains(r) || intent_claims(
                    shorter,
                    bridge_id,
                    r,
                )));
                assert(forall|k: int| 0 <= k < i ==> #[trigger] longer[k] == shorter[k]);
                if intent_claims(shorter, bridge_id, r) {
                    let k = choose|k: int|
                        #![trigger shorter[k]]
                        0 <= k < shorter.len() && match r {
                            BridgeResource::Bridge(bridge) => bridge_id is None
                                && shorter[k].bridge_id == Some(bridge),
                            BridgeResource::Call(call) => (bridge_id is None
                                || shorter[k].bridge_id == bridge_id)
                                && shorter[k].calls@.contains(call),
                        };
                    assert(longer[k] == shorter[k]);
                    assert(intent_claims(longer, bridge_id, r));
                }
                if intent_claims(longer, bridge_id, r) {
                    let k = choose|k: int|
                        #![trigger longer[k]]
                        0 <= k < longer.len() && match r {
                            BridgeResource::Bridge(bridge) => bridge_id is None
                                && longer[k].bridge_id == Some(bridge),
                            BridgeResource::Call(call) => (bridge_id is None
                                || longer[k].bridge_id == bridge_id)
                                && longer[k].calls@.contains(call),
                        };
                    if k < i {
                        assert(longer[k] == shorter[k]);
                        assert(intent_claims(shorter, bridge_id, r));
                    }
                }
            }
        }
        i += 1;
    }
    assert(intents@.take(i as int) =~= intents@);
}

fn add_held(
    resources: &mut Vec<BridgeResource>,
    held: &Vec<BridgeCalls>,
    bridge_id: Option<PbxBridgeId>,
)
    ensures
        forall|r: BridgeResource| #[trigger]
            final(resources)@.contains(r) <==> old(resources)@.contains(r) || held_claims(
                held@,
                bridge_id,
                r,
            ),
{
    let ghost before = resources@;
    let mut i: usize = 0;
    while i < held.len()
        invariant
            0 <= i <= held@.len(),
            forall|r: BridgeResource| #[trigger]
                resources@.contains(r) <==> before.contains(r) || held_claims(
                    held@.take(i as int),
                    bridge_id,
                    r,
                ),
        decreases held@.len() - i,
    {
        let ghost here = resources@;
        let ghost shorter = held@.take(i as int);
        let ghost longer = held@.take(i + 1);
        let entry = &held[i];
        if bridge_id.is_none() {
            add_resource(resources, BridgeResource::Bridge(entry.bridge_id));
            add_calls(resources, &entry.calls);
        } else if bridge_id == Some(entry.bridge_id) {
            add_calls(resources, &entry.calls);
        }
        proof {
            assert(longer[i as int] == *entry);
            assert forall|r: BridgeResource| #[trigger]
                resources@.contains(r) == (before.contains(r) || held_claims(
                    longer,
                    bridge_id,
                    r,
                )) by {
                assert(here.contains(r) == (before.contains(r) || held_claims(
                    shorter,
                    bridge_id,
                    r,
                )));
                if held_claims(shorter, bridge_id, r) {
                    let k = choose|k: int|
                        #![trigger shorter[k]]
                        0 <= k < shorter.len() && match r {
                            BridgeResource::Bridge(bridge) => bridge_id is None
                                && shorter[k].bridge_id == bridge,
                            BridgeResource::Call(call) => (bridge_id is None || Some(
                                shorter[k].bridge_id,
                            ) == bridge_id) && shorter[k].calls@.contains(call),
                        };
                    assert(longer[k] == shorter[k]);
                    assert(held_claims(longer, bridge_id, r));
                }
                if held_claims(longer, bridge_id, r) {
                    let k = choose|k: int|
                        #![trigger longer[k]]
                        0 <= k < longer.len() && match r {
                            BridgeResource::Bridge(bridge) => bridge_id is None
                                && longer[k].bridge_id == bridge,
                            BridgeResource::Call(call) => (bridge_id is None || Some(
                                longer[k].bridge_id,
                            ) == bridge_id) && longer[k].calls@.contains(call),
                        };
                    if k < i {
                        assert(longer[k] == shorter[k]);
                        assert(held_claims(shorter, bridge_id, r));
                    }
                }
            }
        }
        i += 1;
    }
    assert(held@.take(i as int) =~= held@);
}

/// Makes an id a member of an ascending list, or takes it out.
fn set_member(ids: &mut Vec<PbxBridgeId>, id: PbxBridgeId, present: bool)
    requires
        ascending(old(ids)@),
    ensures
        ascending(final(ids)@),
        forall|other: PbxBridgeId| #[trigger]
            final(ids)@.contains(other) <==> if other == id {
                present
            } else {
                old(ids)@.contains(other)
            },
{
    let ghost before = ids@;
    let mut i: usize = 0;
    while i < ids.len() && ids[i].0 < id.0
        invariant
            0 <= i <= ids@.len(),
            ids@ == before,
            forall|j: int| 0 <= j < i ==> (#[trigger] ids@[j]).0 < id.0,
        decreases ids@.len() - i,
    {
        i += 1;
    }
    let there = i < ids.len() && ids[i].0 == id.0;
    if present && !there {
        ids.insert(i, id);
        proof {
            assert forall|other: PbxBridgeId| #[trigger]
                ids@.contains(other) == (other == id || before.contains(other)) by {
                if before.contains(other) {
                    let k = choose|k: int| 0 <= k < before.len() && before[k] == other;
                    if k < i {
                        assert(ids@[k] == other);
                    } else {
                        assert(ids@[k + 1] == other);
                    }
                }
                if other == id {
                    assert(ids@[i as int] == other);
                }
                if ids@.contains(other) && other != id {
                    let k = choose|k: int| 0 <= k < ids@.len() && ids@[k] == other;
                    if k < i {
                        assert(before[k] == other);
                    } else {
                        assert(before[k - 1] == other);
                    }
                }
            }
        }
    } else if !present && there {
        let _ = ids.remove(i);
        proof {
            assert forall|other: PbxBridgeId| #[trigger]
                ids@.contains(other) == (other != id && before.contains(other)) by {
                if before.contains(other) && other != id {
                    let k = choose|k: int| 0 <= k < before.len() && before[k] == other;
                    if k < i {
                        assert(ids@[k] == other);
                    } else {
                        assert(ids@[k - 1] == other);
                    }
                }
                if ids@.contains(other) {
                    let k = choose|k: int| 0 <= k < ids@.len() && ids@[k] == other;
                    if k < i {
                        assert(before[k] == other);
                    } else {
                        assert(before[k + 1] == other);
                    }
                }
            }
        }
    } else {
        proof {
            if there {
                assert(before[i as int] == id);
            } else {
                assert(!before.contains(id));
            }
        }
    }
}

/// The ids of one kind of session after an action on `bridge_id`.
pub open spec fn membership(
    before: Seq<PbxBridgeId>,
    after: Seq<PbxBridgeId>,
    bridge_id: PbxBridgeId,
    present: bool,
) -> bool {
    forall|other: PbxBridgeId| #[trigger]
        after.contains(other) <==> if other == bridge_id {
            present
        } else {
            before.contains(other)
        }
}

fn copied_ids(ids: &Vec<PbxBridgeId>) -> (copy: Vec<PbxBridgeId>)
    ensures
        copy@ == ids@,
{
    let mut copy: Vec<PbxBridgeId> = Vec::new();
    let mut i: usize = 0;
    while i < ids.len()
        invariant
            0 <= i <= ids@.len(),
            copy@ == ids@.take(i as int),
        decreases ids@.len() - i,
    {
        copy.push(ids[i]);
        i += 1;
    }
    assert(ids@.take(i as int) =~= ids@);
    copy
}

/// Adds calls to those that a bridge may hold.
fn note_calls(held: &mut Vec<BridgeCalls>, bridge_id: PbxBridgeId, calls: &Vec<PbxCallId>)
    requires
        forall|i: int, j: int|
            0 <= i < j < old(held)@.len() ==> old(held)@[i].bridge_id != old(held)@[j].bridge_id,
    ensures
        forall|i: int, j: int|
            0 <= i < j < final(held)@.len() ==> final(held)@[i].bridge_id
                != final(held)@[j].bridge_id,
        match lookup::first(final(held)@, calls_of(bridge_id)) {
            Some(noted) => noted.calls@.to_set() == match lookup::first(
                old(held)@,
                calls_of(bridge_id),
            ) {
                Some(before) => before.calls@.to_set(),
                None => Set::empty(),
            }.union(calls@.to_set()),
            None => false,
        },
        forall|other: PbxBridgeId|
            other != bridge_id ==> #[trigger] lookup::first(final(held)@, calls_of(other))
                == lookup::first(old(held)@, calls_of(other)),
{
    let ghost before = held@;
    let p = Ghost(calls_of(bridge_id));
    let found = position(
        held,
        |entry: &BridgeCalls| -> (found: bool)
            ensures
                found == (entry.bridge_id == bridge_id)
            { entry.bridge_id == bridge_id },
        p,
    );
    let mut noted = match found {
        Some(i) => {
            let entry = held.remove(i);
            proof {
                lookup::lemma_first_at(before, calls_of(bridge_id), 0);
                assert forall|other: PbxBridgeId| other != bridge_id implies #[trigger] lookup::first(
                    held@,
                    calls_of(other),
                ) == lookup::first(before, calls_of(other)) by {
                    lookup::lemma_first_remove(before, calls_of(other), i as int);
                }
            }
            entry
        },
        None => BridgeCalls { bridge_id, calls: Vec::new() },
    };
    let ghost kept = held@;
    let ghost start = noted.calls@;
    proof {
        lookup::lemma_first_at(before, calls_of(bridge_id), 0);
        if found is None {
            assert(start.to_set() =~= Set::empty());
        }
        assert forall|j: int| 0 <= j < kept.len() implies (#[trigger] kept[j]).bridge_id
            != bridge_id by {
            match found {
                Some(i) => {
                    if j < i {
                        assert(kept[j] == before[j]);
                    } else {
                        assert(kept[j] == before[j + 1]);
                    }
                },
                None => {
                    assert(!calls_of(bridge_id)(before[j]));
                },
            }
        }
    }
    let mut k: usize = 0;
    while k < calls.len()
        invariant
            0 <= k <= calls@.len(),
            noted.bridge_id == bridge_id,
            noted.calls@.to_set() == start.to_set().union(calls@.take(k as int).to_set()),
        decreases calls@.len() - k,
    {
        let ghost had = noted.calls@;
        let call = calls[k];
        if !has_call(&noted.calls, call) {
            noted.calls.push(call);
        }
        proof {
            let longer = calls@.take(k + 1);
            assert(longer =~= calls@.take(k as int).push(call));
            lookup::lemma_push_set(calls@.take(k as int), call);
            lookup::lemma_push_set(had, call);
            assert(noted.calls@.to_set() =~= start.to_set().union(longer.to_set()));
        }
        k += 1;
    }
    proof {
        assert(calls@.take(k as int) =~= calls@);
    }
    held.push(noted);
    proof {
        lookup::lemma_first_at(kept, calls_of(bridge_id), 0);
        lookup::lemma_first_push(kept, noted, calls_of(bridge_id));
        assert forall|other: PbxBridgeId| other != bridge_id implies #[trigger] lookup::first(
            held@,
            calls_of(other),
        ) == lookup::first(before, calls_of(other)) by {
            lookup::lemma_first_push(kept, noted, calls_of(other));
        }
    }
}

/// How preparing an action changes what the owner keeps.
pub open spec fn prepared(
    before: BridgeState,
    after: BridgeState,
    id: OperationId,
    action: BridgeAction,
    step: BridgeStep,
) -> bool {
    &&& after.retiring_after == before.retiring_after
    &&& if before.retiring_after matches Some(retiring) && id.0 > retiring.0 {
        &&& step matches BridgeStep::Finished(Err(error)) && is_runtime_unavailable(error)
        &&& after.intents@ == before.intents@.filter(lookup::not(intends(id)))
        &&& after.snapshot == before.snapshot
        &&& after.bridges == before.bridges
        &&& after.barges == before.barges
        &&& after.calls == before.calls
    } else {
        &&& after.intents == before.intents
        &&& step matches BridgeStep::Effect(effect) && {
            &&& effect.action == action
            &&& match action.bridge_id_spec() {
                Some(bridge_id) => {
                    &&& effect.bridge == before.bridge_spec(bridge_id)
                    &&& effect.barge == before.barge_spec(bridge_id)
                    &&& effect.draining is None
                    &&& after.snapshot == before.snapshot
                    &&& after.bridges@ == before.bridges@.filter(
                        lookup::not(holds_bridge(bridge_id)),
                    )
                    &&& after.barges@ == before.barges@.filter(lookup::not(holds_barge(bridge_id)))
                    &&& after.participants_spec(bridge_id) == before.participants_spec(
                        bridge_id,
                    ).union(action.call_ids_spec().to_set())
                    &&& forall|other: PbxBridgeId|
                        other != bridge_id ==> #[trigger] after.participants_spec(other)
                            == before.participants_spec(other)
                },
                None => {
                    &&& effect.bridge is None
                    &&& effect.barge is None
                    &&& if action is Drain {
                        &&& effect.draining matches Some(drain) && drain.bridges == before.bridges
                            && drain.barges == before.barges
                        &&& after.snapshot.bridges@ == Seq::<PbxBridgeId>::empty()
                        &&& after.snapshot.barges@ == Seq::<PbxBridgeId>::empty()
                        &&& after.bridges@ == Seq::<HeldBridge>::empty()
                        &&& after.barges@ == Seq::<HeldBarge>::empty()
                        &&& after.calls@ == Seq::<BridgeCalls>::empty()
                    } else {
                        &&& effect.draining is None
                        &&& after.snapshot == before.snapshot
                        &&& after.bridges == before.bridges
                        &&& after.barges == before.barges
                        &&& after.calls == before.calls
                    }
                },
            }
        }
    }
}

/// The sessions of one kind after an action that leaves `session`.
pub open spec fn bridges_with(
    held: Seq<HeldBridge>,
    bridge_id: PbxBridgeId,
    session: Option<BridgeSession>,
) -> Seq<HeldBridge> {
    match session {
        Some(session) => held.filter(lookup::not(holds_bridge(bridge_id))).push(
            HeldBridge { bridge_id, session },
        ),
        None => held,
    }
}

pub open spec fn barges_with(
    held: Seq<HeldBarge>,
    bridge_id: PbxBridgeId,
    session: Option<BargeBridgeSession>,
) -> Seq<HeldBarge> {
    match session {
        Some(session) => held.filter(lookup::not(holds_barge(bridge_id))).push(
            HeldBarge { bridge_id, session },
        ),
        None => held,
    }
}

/// How the end of an action changes what the owner keeps: the sessions come
/// back, and a bridge without one is forgotten with its calls.
pub open spec fn completed(
    before: BridgeState,
    after: BridgeState,
    id: OperationId,
    completion: BridgeCompletion,
) -> bool {
    &&& after.intents@ == before.intents@.filter(lookup::not(intends(id)))
    &&& after.retiring_after == before.retiring_after
    &&& match completion.bridge_id {
        Some(bridge_id) => {
            &&& membership(
                before.snapshot.bridges@,
                after.snapshot.bridges@,
                bridge_id,
                completion.bridge is Some,
            )
            &&& membership(
                before.snapshot.barges@,
                after.snapshot.barges@,
                bridge_id,
                completion.barge is Some,
            )
            &&& after.bridges@ == bridges_with(before.bridges@, bridge_id, completion.bridge)
            &&& after.barges@ == barges_with(before.barges@, bridge_id, completion.barge)
            &&& after.calls@ == if completion.bridge is None && completion.barge is None {
                before.calls@.filter(lookup::not(calls_of(bridge_id)))
            } else {
                before.calls@
            }
        },
        None => {
            &&& after.snapshot == before.snapshot
            &&& after.bridges == before.bridges
            &&& after.barges == before.barges
            &&& after.calls == before.calls
        },
    }
}

impl BridgeState {
    /// An owner that holds nothing.
    pub fn new() -> (state: Self)
        ensures
            state.wf(),
            state.snapshot.bridges@.len() == 0,
            state.snapshot.barges@.len() == 0,
            state.bridges@.len() == 0,
            state.barges@.len() == 0,
            state.calls@.len() == 0,
            state.intents@.len() == 0,
            state.retiring_after is None,
    {
        BridgeState {
            snapshot: BridgeSnapshot { bridges: Vec::new(), barges: Vec::new() },
            bridges: Vec::new(),
            barges: Vec::new(),
            calls: Vec::new(),
            intents: Vec::new(),
            retiring_after: None,
        }
    }

    /// The bridges with a session and those with a borrowed one, each in the
    /// order of their numbers.
    pub fn snapshot_keys(&self) -> (keys: (Vec<PbxBridgeId>, Vec<PbxBridgeId>))
        ensures
            keys.0@ == self.snapshot.bridges@,
            keys.1@ == self.snapshot.barges@,
    {
        (copied_ids(&self.snapshot.bridges), copied_ids(&self.snapshot.barges))
    }

    /// Hands an action what it works on. The sessions leave the owner until the
    /// action ends, and the calls stay noted until the bridge has gone.
    pub fn prepare(&mut self, id: OperationId, action: BridgeAction) -> (step: BridgeStep)
        requires
            old(self).wf(),
        ensures
            final(self).wf(),
            prepared(*old(self), *final(self), id, action, step),
    {
        match self.retiring_after {
            Some(retiring) => if id.0 > retiring.0 {
                self.forget(id);
                return BridgeStep::Finished(Err(unavailable()));
            },
            None => {},
        }
        match action.bridge_id() {
            Some(bridge_id) => {
                let calls = action.call_ids();
                note_calls(&mut self.calls, bridge_id, &calls);
                let ghost bridges_before = self.bridges@;
                let ghost barges_before = self.barges@;
                let mut bridges = split_off(
                    &mut self.bridges,
                    |held: &HeldBridge| -> (found: bool)
                        ensures
                            found == (held.bridge_id == bridge_id)
                        { held.bridge_id == bridge_id },
                    Ghost(holds_bridge(bridge_id)),
                );
                let mut barges = split_off(
                    &mut self.barges,
                    |held: &HeldBarge| -> (found: bool)
                        ensures
                            found == (held.bridge_id == bridge_id)
                        { held.bridge_id == bridge_id },
                    Ghost(holds_barge(bridge_id)),
                );
                proof {
                    lookup::lemma_filter_distinct(
                        bridges_before,
                        lookup::not(holds_bridge(bridge_id)),
                        |held: HeldBridge| held.bridge_id.0,
                    );
                    lookup::lemma_filter_distinct(
                        barges_before,
                        lookup::not(holds_barge(bridge_id)),
                        |held: HeldBarge| held.bridge_id.0,
                    );
                    lookup::lemma_first_is_filter_first(bridges_before, holds_bridge(bridge_id));
                    lookup::lemma_first_is_filter_first(barges_before, holds_barge(bridge_id));
                }
                let bridge = if bridges.len() > 0 {
                    Some(bridges[0].session)
                } else {
                    None
                };
                let barge = if barges.len() > 0 {
                    Some(barges[0].session)
                } else {
                    None
                };
                BridgeStep::Effect(BridgeEffect { action, bridge, barge, draining: None })
            },
            None => match action {
                BridgeAction::Drain => {
                    self.calls = Vec::new();
                    self.snapshot = BridgeSnapshot { bridges: Vec::new(), barges: Vec::new() };
                    let mut bridges: Vec<HeldBridge> = Vec::new();
                    let mut barges: Vec<HeldBarge> = Vec::new();
                    std::mem::swap(&mut bridges, &mut self.bridges);
                    std::mem::swap(&mut barges, &mut self.barges);
                    BridgeStep::Effect(
                        BridgeEffect {
                            action,
                            bridge: None,
                            barge: None,
                            draining: Some(BridgeDrain { bridges, barges }),
                        },
                    )
                },
                _ => BridgeStep::Effect(
                    BridgeEffect { action, bridge: None, barge: None, draining: None },
                ),
            },
        }
    }

    /// Takes back what an action worked on.
    pub fn complete(&mut self, id: OperationId, completion: BridgeCompletion) -> (outcome: Result<
        (),
        AsteriskBackendError,
    >)
        requires
            old(self).wf(),
        ensures
            final(self).wf(),
            completed(*old(self), *final(self), id, completion),
            outcome == completion.result,
    {
        self.forget(id);
        match completion.bridge_id {
            Some(bridge_id) => {
                set_member(&mut self.snapshot.bridges, bridge_id, completion.bridge.is_some());
                set_member(&mut self.snapshot.barges, bridge_id, completion.barge.is_some());
                if completion.bridge.is_none() && completion.barge.is_none() {
                    let ghost before = self.calls@;
                    retain(
                        &mut self.calls,
                        |held: &BridgeCalls| -> (kept: bool)
                            ensures
                                kept == !(held.bridge_id == bridge_id)
                            { held.bridge_id != bridge_id },
                        Ghost(lookup::not(calls_of(bridge_id))),
                    );
                    proof {
                        lookup::lemma_filter_distinct(
                            before,
                            lookup::not(calls_of(bridge_id)),
                            |held: BridgeCalls| held.bridge_id.0,
                        );
                    }
                }
                match completion.bridge {
                    Some(session) => {
                        let ghost before = self.bridges@;
                        let ghost p = lookup::not(holds_bridge(bridge_id));
                        retain(
                            &mut self.bridges,
                            |held: &HeldBridge| -> (kept: bool)
                                ensures
                                    kept == !(held.bridge_id == bridge_id)
                                { held.bridge_id != bridge_id },
                            Ghost(lookup::not(holds_bridge(bridge_id))),
                        );
                        proof {
                            lookup::lemma_filter_distinct(
                                before,
                                p,
                                |held: HeldBridge| held.bridge_id.0,
                            );
                            assert forall|i: int| 0 <= i < before.filter(p).len() implies (
                            #[trigger] before.filter(p)[i]).bridge_id != bridge_id by {
                                lookup::lemma_filter_member(before, p, i);
                            }
                        }
                        self.bridges.push(HeldBridge { bridge_id, session });
                    },
                    None => {},
                }
                match completion.barge {
                    Some(session) => {
                        let ghost before = self.barges@;
                        let ghost p = lookup::not(holds_barge(bridge_id));
                        retain(
                            &mut self.barges,
                            |held: &HeldBarge| -> (kept: bool)
                                ensures
                                    kept == !(held.bridge_id == bridge_id)
                                { held.bridge_id != bridge_id },
                            Ghost(lookup::not(holds_barge(bridge_id))),
                        );
                        proof {
                            lookup::lemma_filter_distinct(
                                before,
                                p,
                                |held: HeldBarge| held.bridge_id.0,
                            );
                            assert forall|i: int| 0 <= i < before.filter(p).len() implies (
                            #[trigger] before.filter(p)[i]).bridge_id != bridge_id by {
                                lookup::lemma_filter_member(before, p, i);
                            }
                        }
                        self.barges.push(HeldBarge { bridge_id, session });
                    },
                    None => {},
                }
            },
            None => {},
        }
        completion.result
    }
}

/// The name under which a failed operation is reported.
pub open spec fn operation_name(operation: BridgeOperation) -> Seq<char> {
    match operation {
        BridgeOperation::Create { .. } => "create bridge"@,
        BridgeOperation::Destroy { .. } => "destroy bridge"@,
        BridgeOperation::AddParticipant { .. } => "add bridge participant"@,
        BridgeOperation::RemoveParticipant { .. } => "remove bridge participant"@,
        BridgeOperation::MergeConsultation { .. } => "merge conference consultation"@,
        BridgeOperation::MergeCalls { .. } => "merge selected conference calls"@,
        BridgeOperation::MergeParticipant { .. } => "merge conference participant"@,
        BridgeOperation::SetParticipantMuted { .. } => "set conference participant mute"@,
        BridgeOperation::SetParticipantMusicOnHold { .. } =>
            "set conference participant music on hold"@,
        BridgeOperation::RemoveConferenceParticipant { .. } => "remove conference participant"@,
    }
}

fn name_of(operation: &BridgeOperation) -> (name: &'static str)
    ensures
        name@ == operation_name(*operation),
{
    match operation {
        BridgeOperation::Create { .. } => "create bridge",
        BridgeOperation::Destroy { .. } => "destroy bridge",
        BridgeOperation::AddParticipant { .. } => "add bridge participant",
        BridgeOperation::RemoveParticipant { .. } => "remove bridge participant",
        BridgeOperation::MergeConsultation { .. } => "merge conference consultation",
        BridgeOperation::MergeCalls { .. } => "merge selected conference calls",
        BridgeOperation::MergeParticipant { .. } => "merge conference participant",
        BridgeOperation::SetParticipantMuted { .. } => "set conference participant mute",
        BridgeOperation::SetParticipantMusicOnHold { .. } =>
            "set conference participant music on hold",
        BridgeOperation::RemoveConferenceParticipant { .. } => "remove conference participant",
    }
}

pub open spec fn is_bridge_unavailable(
    error: AsteriskBackendError,
    operation: Seq<char>,
    bridge_id: PbxBridgeId,
) -> bool {
    match error {
        AsteriskBackendError::BridgeUnavailable { operation: named, bridge_id: of } => named@
            == operation && of == bridge_id,
        _ => false,
    }
}

/// Every call has a channel that takes operations.
pub open spec fn all_live(shared: Shared, calls: Seq<PbxCallId>) -> bool {
    forall|i: int| 0 <= i < calls.len() ==> shared.live_channel_spec(#[trigger] calls[i]) is Some
}

/// What speaks against asking the switch for an operation.
pub open spec fn bridge_refusal(
    shared: Shared,
    session: Option<BridgeSession>,
    operation: BridgeOperation,
    error: AsteriskBackendError,
) -> bool {
    let bridge_id = operation_bridge(operation);
    match operation {
        BridgeOperation::Create { .. } => error == (AsteriskBackendError::BridgeConflict {
            bridge_id,
        }),
        BridgeOperation::Destroy { .. } => is_bridge_unavailable(
            error,
            "destroy bridge"@,
            bridge_id,
        ),
        _ => if session is None {
            is_bridge_unavailable(error, "modify bridge"@, bridge_id)
        } else {
            match operation {
                BridgeOperation::MergeCalls { .. } => is_runtime_unavailable(error),
                _ => channel::is_unavailable(
                    error,
                    operation_name(operation),
                    operation_calls(operation).last(),
                ),
            }
        },
    }
}

/// The switch can be asked for an operation.
pub open spec fn bridge_allowed(
    shared: Shared,
    session: Option<BridgeSession>,
    operation: BridgeOperation,
) -> bool {
    match operation {
        BridgeOperation::Create { .. } => session is None,
        BridgeOperation::Destroy { .. } => session is Some,
        _ => session is Some && all_live(shared, operation_calls(operation)),
    }
}

/// Whether the switch can be asked for an operation on a bridge: a new bridge
/// must not be there yet, any other must, and so must the channels of all the
/// calls.
pub fn execute_bridge(
    access: &Access,
    session: Option<BridgeSession>,
    operation: &BridgeOperation,
) -> (asked: Result<(), AsteriskBackendError>)
    ensures
        match asked {
            Ok(_) => bridge_allowed(access.shared, session, *operation),
            Err(error) => !bridge_allowed(access.shared, session, *operation) && bridge_refusal(
                access.shared,
                session,
                *operation,
                error,
            ),
        },
{
    let bridge_id = bridge_of(operation);
    match operation {
        BridgeOperation::Create { .. } => {
            if session.is_some() {
                return Err(AsteriskBackendError::BridgeConflict { bridge_id });
            }
            return Ok(());
        },
        BridgeOperation::Destroy { .. } => {
            if session.is_none() {
                return Err(
                    AsteriskBackendError::BridgeUnavailable {
                        operation: "destroy bridge",
                        bridge_id,
                    },
                );
            }
            return Ok(());
        },
        _ => {},
    }
    if session.is_none() {
        return Err(
            AsteriskBackendError::BridgeUnavailable { operation: "modify bridge", bridge_id },
        );
    }
    let name = name_of(operation);
    let ghost calls = operation_calls(*operation);
    match operation {
        BridgeOperation::MergeConsultation { original_call_id, consultation_call_id, .. } => {
            proof {
                assert(calls[0] == *original_call_id && calls[1] == *consultation_call_id);
            }
            if with_two_channels(access, *original_call_id, *consultation_call_id).is_none() {
                return Err(
                    AsteriskBackendError::CallUnavailable {
                        operation: name,
                        call_id: *consultation_call_id,
                    },
                );
            }
            Ok(())
        },
        BridgeOperation::MergeCalls { call_ids, .. } => {
            if with_channels(access, call_ids).is_none() {
                return Err(unavailable());
            }
            Ok(())
        },
        BridgeOperation::AddParticipant { call_id, .. } => participant_ready(
            access,
            name,
            *call_id,
        ),
        BridgeOperation::RemoveParticipant { call_id, .. } => participant_ready(
            access,
            name,
            *call_id,
        ),
        BridgeOperation::MergeParticipant { call_id, .. } => participant_ready(
            access,
            name,
            *call_id,
        ),
        BridgeOperation::SetParticipantMuted { call_id, .. } => participant_ready(
            access,
            name,
            *call_id,
        ),
        BridgeOperation::SetParticipantMusicOnHold { call_id, .. } => participant_ready(
            access,
            name,
            *call_id,
        ),
        BridgeOperation::RemoveConferenceParticipant { call_id, .. } => participant_ready(
            access,
            name,
            *call_id,
        ),
        BridgeOperation::Create { .. } => Err(unavailable()),
        BridgeOperation::Destroy { .. } => Err(unavailable()),
    }
}

/// Whether the one call of an operation has its channel.
fn participant_ready(access: &Access, operation: &'static str, call_id: PbxCallId) -> (ready:
    Result<(), AsteriskBackendError>)
    ensures
        match ready {
            Ok(_) => all_live(access.shared, seq![call_id]),
            Err(error) => !all_live(access.shared, seq![call_id]) && channel::is_unavailable(
                error,
                operation@,
                call_id,
            ),
        },
{
    proof {
        assert(seq![call_id][0] == call_id);
    }
    if with_channel(access, call_id).is_some() {
        Ok(())
    } else {
        Err(AsteriskBackendError::CallUnavailable { operation, call_id })
    }
}

/// What the switch answers to an operation on a bridge.
#[derive(Debug, PartialEq, Eq)]
pub enum BridgeReply {
    Created(Result<BridgeSession, CallFeatureError>),
    Done(Result<(), CallFeatureError>),
    /// The channel of this call has gone meanwhile.
    ChannelGone(PbxCallId),
}

/// The switch's own failure, as the driver reports it.
pub open spec fn feature_outcome(
    reply: Result<(), CallFeatureError>,
    outcome: Result<(), AsteriskBackendError>,
) -> bool {
    match reply {
        Ok(_) => outcome is Ok,
        Err(error) => outcome == Err::<(), AsteriskBackendError>(
            AsteriskBackendError::CallFeature(error),
        ),
    }
}

fn from_feature(reply: Result<(), CallFeatureError>) -> (outcome: Result<(), AsteriskBackendError>)
    ensures
        feature_outcome(reply, outcome),
{
    match reply {
        Ok(_) => Ok(()),
        Err(error) => Err(AsteriskBackendError::CallFeature(error)),
    }
}

/// What an operation on a bridge comes to, and the session that is left. A
/// bridge that was to be closed has gone even where the switch failed to close
/// it.
pub fn finish_bridge(
    session: &mut Option<BridgeSession>,
    operation: &BridgeOperation,
    reply: BridgeReply,
) -> (outcome: Result<(), AsteriskBackendError>)
    ensures
        match (*operation, reply) {
            (BridgeOperation::Create { .. }, BridgeReply::Created(Ok(created))) => {
                &&& outcome is Ok
                &&& *final(session) == Some(created)
            },
            (BridgeOperation::Create { .. }, BridgeReply::Created(Err(error))) => {
                &&& outcome == Err::<(), AsteriskBackendError>(
                    AsteriskBackendError::CallFeature(error),
                )
                &&& *final(session) == *old(session)
            },
            (BridgeOperation::Create { .. }, _) => {
                &&& outcome matches Err(error) && is_runtime_unavailable(error)
                &&& *final(session) == *old(session)
            },
            (_, BridgeReply::Created(_)) => {
                &&& outcome matches Err(error) && is_runtime_unavailable(error)
                &&& *final(session) == *old(session)
            },
            (BridgeOperation::Destroy { .. }, BridgeReply::Done(done)) => {
                &&& feature_outcome(done, outcome)
                &&& *final(session) is None
            },
            (_, BridgeReply::Done(done)) => {
                &&& feature_outcome(done, outcome)
                &&& *final(session) == *old(session)
            },
            (_, BridgeReply::ChannelGone(call_id)) => {
                &&& outcome matches Err(error) && channel::is_unavailable(
                    error,
                    operation_name(*operation),
                    call_id,
                )
                &&& *final(session) == *old(session)
            },
        },
{
    let creates = match operation {
        BridgeOperation::Create { .. } => true,
        _ => false,
    };
    match reply {
        BridgeReply::Created(created) => {
            if !creates {
                return Err(unavailable());
            }
            match created {
                Ok(created) => {
                    *session = Some(created);
                    Ok(())
                },
                Err(error) => Err(AsteriskBackendError::CallFeature(error)),
            }
        },
        BridgeReply::Done(done) => {
            if creates {
                return Err(unavailable());
            }
            match operation {
                BridgeOperation::Destroy { .. } => {
                    *session = None;
                },
                _ => {},
            }
            from_feature(done)
        },
        BridgeReply::ChannelGone(call_id) => {
            if creates {
                return Err(unavailable());
            }
            Err(AsteriskBackendError::CallUnavailable { operation: name_of(operation), call_id })
        },
    }
}

/// What a barge asks of the switch next.
#[derive(Debug, PartialEq, Eq)]
pub enum BargeStep {
    /// Borrow the bridge of the target call under this number.
    Acquire { bridge_id: PbxBridgeId, target_call_id: PbxCallId },
    /// Add the barging call; the bridge was borrowed for it or before.
    Add { barger_call_id: PbxCallId, acquired: bool },
    /// Take the barging call out.
    Remove { barger_call_id: PbxCallId },
    /// Give the bridge back; this is what taking the call out came to.
    Release { session: BargeBridgeSession, removal: Result<(), AsteriskBackendError> },
    /// Give the bridge back and fail, whatever comes of giving it back.
    GiveUp { session: BargeBridgeSession, error: AsteriskBackendError },
    Finished(Result<(), AsteriskBackendError>),
}

/// The step is over with this failure.
pub open spec fn finished_unavailable(step: BargeStep, operation: Seq<char>, call_id: PbxCallId) ->
    bool {
    step matches BargeStep::Finished(Err(error)) && channel::is_unavailable(
        error,
        operation,
        call_id,
    )
}

/// What leaving comes to once the call was taken out, or could not be.
pub open spec fn after_removal(
    bridge_id: PbxBridgeId,
    last_participant: bool,
    session: Option<BargeBridgeSession>,
    removal: Result<(), AsteriskBackendError>,
    step: BargeStep,
) -> bool {
    if !last_participant {
        step == BargeStep::Finished(removal)
    } else {
        match session {
            Some(session) => step == (BargeStep::Release { session, removal }),
            None => step matches BargeStep::Finished(Err(error)) && is_bridge_unavailable(
                error,
                "release barge bridge"@,
                bridge_id,
            ),
        }
    }
}

fn removed(
    bridge_id: PbxBridgeId,
    last_participant: bool,
    session: &mut Option<BargeBridgeSession>,
    removal: Result<(), AsteriskBackendError>,
) -> (step: BargeStep)
    ensures
        after_removal(bridge_id, last_participant, *old(session), removal, step),
        *final(session) == if last_participant {
            None
        } else {
            *old(session)
        },
{
    if !last_participant {
        return BargeStep::Finished(removal);
    }
    match session.take() {
        Some(session) => BargeStep::Release { session, removal },
        None => BargeStep::Finished(
            Err(
                AsteriskBackendError::BridgeUnavailable {
                    operation: "release barge bridge",
                    bridge_id,
                },
            ),
        ),
    }
}

/// Begins a barge. The first to join borrows the bridge of the target call, and
/// the last to leave gives it back.
pub fn execute_barge(
    access: &Access,
    session: &mut Option<BargeBridgeSession>,
    operation: BargeOperation,
) -> (step: BargeStep)
    ensures
        match operation {
            BargeOperation::Join { bridge_id, target_call_id, barger_call_id } => {
                &&& *final(session) == *old(session)
                &&& if *old(session) is None {
                    if access.shared.live_channel_spec(target_call_id) is Some {
                        step == (BargeStep::Acquire { bridge_id, target_call_id })
                    } else {
                        finished_unavailable(step, "acquire barge bridge"@, target_call_id)
                    }
                } else if access.shared.live_channel_spec(barger_call_id) is Some {
                    step == (BargeStep::Add { barger_call_id, acquired: false })
                } else {
                    finished_unavailable(step, "add barge participant"@, barger_call_id)
                }
            },
            BargeOperation::Leave { bridge_id, barger_call_id, last_participant } => {
                if access.shared.live_channel_spec(barger_call_id) is None {
                    &&& exists|error: AsteriskBackendError|
                        {
                            &&& #[trigger] channel::is_unavailable(
                                error,
                                "remove barge participant"@,
                                barger_call_id,
                            )
                            &&& after_removal(
                                bridge_id,
                                last_participant,
                                *old(session),
                                Err(error),
                                step,
                            )
                        }
                    &&& *final(session) == if last_participant {
                        None
                    } else {
                        *old(session)
                    }
                } else if *old(session) is None {
                    &&& exists|error: AsteriskBackendError|
                        {
                            &&& #[trigger] is_bridge_unavailable(
                                error,
                                "remove barge participant"@,
                                bridge_id,
                            )
                            &&& after_removal(bridge_id, last_participant, None, Err(error), step)
                        }
                    &&& *final(session) is None
                } else {
                    &&& step == (BargeStep::Remove { barger_call_id })
                    &&& *final(session) == *old(session)
                }
            },
        },
{
    match operation {
        BargeOperation::Join { bridge_id, target_call_id, barger_call_id } => {
            if session.is_none() {
                if with_channel(access, target_call_id).is_some() {
                    return BargeStep::Acquire { bridge_id, target_call_id };
                }
                return BargeStep::Finished(
                    Err(
                        AsteriskBackendError::CallUnavailable {
                            operation: "acquire barge bridge",
                            call_id: target_call_id,
                        },
                    ),
                );
            }
            if with_channel(access, barger_call_id).is_some() {
                return BargeStep::Add { barger_call_id, acquired: false };
            }
            BargeStep::Finished(
                Err(
                    AsteriskBackendError::CallUnavailable {
                        operation: "add barge participant",
                        call_id: barger_call_id,
                    },
                ),
            )
        },
        BargeOperation::Leave { bridge_id, barger_call_id, last_participant } => {
            if with_channel(access, barger_call_id).is_none() {
                let error = AsteriskBackendError::CallUnavailable {
                    operation: "remove barge participant",
                    call_id: barger_call_id,
                };
                proof {
                    assert(channel::is_unavailable(
                        error,
                        "remove barge participant"@,
                        barger_call_id,
                    ));
                }
                return removed(bridge_id, last_participant, session, Err(error));
            }
            if session.is_none() {
                let error = AsteriskBackendError::BridgeUnavailable {
                    operation: "remove barge participant",
                    bridge_id,
                };
                proof {
                    assert(is_bridge_unavailable(error, "remove barge participant"@, bridge_id));
                }
                return removed(bridge_id, last_participant, session, Err(error));
            }
            BargeStep::Remove { barger_call_id }
        },
    }
}

/// The bridge of the target call was borrowed, or not.
pub fn barge_acquired(
    access: &Access,
    session: &mut Option<BargeBridgeSession>,
    target_call_id: PbxCallId,
    barger_call_id: PbxCallId,
    reply: Option<Result<BargeBridgeSession, CallFeatureError>>,
) -> (step: BargeStep)
    ensures
        match reply {
            None => {
                &&& finished_unavailable(step, "acquire barge bridge"@, target_call_id)
                &&& *final(session) == *old(session)
            },
            Some(Err(error)) => {
                &&& step == BargeStep::Finished(Err(AsteriskBackendError::CallFeature(error)))
                &&& *final(session) == *old(session)
            },
            Some(Ok(acquired)) => if access.shared.live_channel_spec(barger_call_id) is Some {
                &&& step == (BargeStep::Add { barger_call_id, acquired: true })
                &&& *final(session) == Some(acquired)
            } else {
                &&& step matches BargeStep::GiveUp { session: given_up, error } && given_up
                    == acquired && channel::is_unavailable(
                    error,
                    "add barge participant"@,
                    barger_call_id,
                )
                &&& *final(session) is None
            },
        },
{
    let acquired = match reply {
        None => {
            return BargeStep::Finished(
                Err(
                    AsteriskBackendError::CallUnavailable {
                        operation: "acquire barge bridge",
                        call_id: target_call_id,
                    },
                ),
            );
        },
        Some(Err(error)) => {
            return BargeStep::Finished(Err(AsteriskBackendError::CallFeature(error)));
        },
        Some(Ok(acquired)) => acquired,
    };
    if with_channel(access, barger_call_id).is_some() {
        *session = Some(acquired);
        return BargeStep::Add { barger_call_id, acquired: true };
    }
    *session = None;
    BargeStep::GiveUp {
        session: acquired,
        error: AsteriskBackendError::CallUnavailable {
            operation: "add barge participant",
            call_id: barger_call_id,
        },
    }
}

/// What a refused reply about a participant is reported as.
pub open spec fn participant_failure(
    reply: Option<CallFeatureError>,
    operation: Seq<char>,
    call_id: PbxCallId,
    error: AsteriskBackendError,
) -> bool {
    match reply {
        Some(refused) => error == AsteriskBackendError::CallFeature(refused),
        None => channel::is_unavailable(error, operation, call_id),
    }
}

/// The barging call was added, or not: then a bridge that was borrowed for it is
/// given back.
pub fn barge_added(
    session: &mut Option<BargeBridgeSession>,
    barger_call_id: PbxCallId,
    acquired: bool,
    reply: Option<Result<(), CallFeatureError>>,
) -> (step: BargeStep)
    ensures
        match reply {
            Some(Ok(_)) => {
                &&& step matches BargeStep::Finished(Ok(_))
                &&& *final(session) == *old(session)
            },
            _ => {
                let refused = match reply {
                    Some(Err(error)) => Some(error),
                    _ => None,
                };
                match (*old(session), acquired) {
                    (Some(borrowed), true) => {
                        &&& step matches BargeStep::GiveUp { session: given_up, error } && given_up
                            == borrowed && participant_failure(
                            refused,
                            "add barge participant"@,
                            barger_call_id,
                            error,
                        )
                        &&& *final(session) is None
                    },
                    _ => {
                        &&& step matches BargeStep::Finished(Err(error)) && participant_failure(
                            refused,
                            "add barge participant"@,
                            barger_call_id,
                            error,
                        )
                        &&& *final(session) == *old(session)
                    },
                }
            },
        },
{
    let error = match reply {
        Some(Ok(_)) => {
            return BargeStep::Finished(Ok(()));
        },
        Some(Err(error)) => AsteriskBackendError::CallFeature(error),
        None => AsteriskBackendError::CallUnavailable {
            operation: "add barge participant",
            call_id: barger_call_id,
        },
    };
    if acquired {
        match session.take() {
            Some(session) => {
                return BargeStep::GiveUp { session, error };
            },
            None => {},
        }
    }
    BargeStep::Finished(Err(error))
}

/// The barging call was taken out, or not; the last to leave gives the bridge
/// back all the same.
pub fn barge_removed(
    session: &mut Option<BargeBridgeSession>,
    bridge_id: PbxBridgeId,
    barger_call_id: PbxCallId,
    last_participant: bool,
    reply: Option<Result<(), CallFeatureError>>,
) -> (step: BargeStep)
    ensures
        *final(session) == if last_participant {
            None
        } else {
            *old(session)
        },
        exists|removal: Result<(), AsteriskBackendError>|
            {
                &&& #[trigger] after_removal(
                    bridge_id,
                    last_participant,
                    *old(session),
                    removal,
                    step,
                )
                &&& match reply {
                    Some(Ok(_)) => removal is Ok,
                    Some(Err(refused)) => removal == Err::<(), AsteriskBackendError>(
                        AsteriskBackendError::CallFeature(refused),
                    ),
                    None => removal matches Err(error) && channel::is_unavailable(
                        error,
                        "remove barge participant"@,
                        barger_call_id,
                    ),
                }
            },
{
    let removal = match reply {
        Some(Ok(_)) => Ok(()),
        Some(Err(error)) => Err(AsteriskBackendError::CallFeature(error)),
        None => Err(
            AsteriskBackendError::CallUnavailable {
                operation: "remove barge participant",
                call_id: barger_call_id,
            },
        ),
    };
    removed(bridge_id, last_participant, session, removal)
}

/// What leaving comes to once the bridge was given back: the failure to take the
/// call out comes first.
pub fn barge_released(
    removal: Result<(), AsteriskBackendError>,
    release: Result<(), CallFeatureError>,
) -> (outcome: Result<(), AsteriskBackendError>)
    ensures
        match removal {
            Err(_) => outcome == removal,
            Ok(_) => feature_outcome(release, outcome),
        },
{
    match removal {
        Ok(_) => from_feature(release),
        Err(error) => Err(error),
    }
}

/// What a transfer comes to: both channels must be there and the switch must
/// connect them.
pub fn finish_transfer(access: &Access, transfer: &TransferCompletion, connected: bool) -> (outcome:
    Result<(), AsteriskBackendError>)
    ensures
        if all_live(access.shared, BridgeAction::Transfer(*transfer).call_ids_spec()) && connected {
            outcome is Ok
        } else {
            match outcome {
                Err(AsteriskBackendError::Failed { operation, calls }) => operation@
                    == "bridge transfer"@ && calls@ == text::decimal(
                    transfer.source.pbx_call_id.0 as nat,
                ) + " and "@ + text::decimal(transfer.consultation.pbx_call_id.0 as nat),
                _ => false,
            }
        },
{
    let first = transfer.source.pbx_call_id;
    let second = transfer.consultation.pbx_call_id;
    proof {
        let calls = BridgeAction::Transfer(*transfer).call_ids_spec();
        assert(calls[0] == first && calls[1] == second);
    }
    if with_two_channels(access, first, second).is_some() && connected {
        return Ok(());
    }
    let mut calls = decimal_text(first.0);
    calls.append(" and ");
    let other = decimal_text(second.0);
    calls.append(other.as_str());
    Err(AsteriskBackendError::Failed { operation: "bridge transfer", calls })
}

/// The first failure among what the switch answered.
pub open spec fn first_failure(replies: Seq<Result<(), CallFeatureError>>) -> Option<
    Result<(), CallFeatureError>,
> {
    lookup::first(replies, |reply: Result<(), CallFeatureError>| reply is Err)
}

/// What closing everything comes to: every session is closed, and the first
/// failure, of a bridge before that of a borrowed one, is reported.
pub fn finish_drain(
    bridges: Vec<Result<(), CallFeatureError>>,
    barges: Vec<Result<(), CallFeatureError>>,
) -> (outcome: Result<(), AsteriskBackendError>)
    ensures
        match first_failure(bridges@) {
            Some(failure) => feature_outcome(failure, outcome),
            None => match first_failure(barges@) {
                Some(failure) => feature_outcome(failure, outcome),
                None => outcome is Ok,
            },
        },
{
    let failed_bridge = take_failure(bridges);
    match failed_bridge {
        Some(error) => {
            return Err(AsteriskBackendError::CallFeature(error));
        },
        None => {},
    }
    match take_failure(barges) {
        Some(error) => Err(AsteriskBackendError::CallFeature(error)),
        None => Ok(()),
    }
}

fn take_failure(replies: Vec<Result<(), CallFeatureError>>) -> (failure: Option<CallFeatureError>)
    ensures
        match first_failure(replies@) {
            Some(reply) => reply matches Err(error) && failure == Some(error),
            None => failure is None,
        },
{
    let ghost p = |reply: Result<(), CallFeatureError>| reply is Err;
    let mut replies = replies;
    let found = position(
        &replies,
        |reply: &Result<(), CallFeatureError>| -> (failed: bool)
            ensures
                failed == (*reply is Err)
            { reply.is_err() },
        Ghost(p),
    );
    proof {
        lookup::lemma_first_at(replies@, p, 0);
    }
    match found {
        Some(i) => match replies.remove(i) {
            Ok(_) => None,
            Err(error) => Some(error),
        },
        None => None,
    }
}

/// While an action works on a bridge, the owner has no session of it: nobody
/// else can be handed the same one.
pub proof fn law_sessions_are_handed_out_once(
    before: BridgeState,
    after: BridgeState,
    id: OperationId,
    action: BridgeAction,
    step: BridgeStep,
    bridge_id: PbxBridgeId,
)
    requires
        prepared(before, after, id, action, step),
        step is Effect,
        action.bridge_id_spec() == Some(bridge_id),
    ensures
        after.bridge_spec(bridge_id) is None,
        after.barge_spec(bridge_id) is None,
{
    lookup::lemma_first_at(after.bridges@, holds_bridge(bridge_id), 0);
    lookup::lemma_first_at(after.barges@, holds_barge(bridge_id), 0);
    assert forall|i: int| 0 <= i < after.bridges@.len() implies !holds_bridge(bridge_id)(
        #[trigger] after.bridges@[i],
    ) by {
        lookup::lemma_filter_member(before.bridges@, lookup::not(holds_bridge(bridge_id)), i);
    }
    assert forall|i: int| 0 <= i < after.barges@.len() implies !holds_barge(bridge_id)(
        #[trigger] after.barges@[i],
    ) by {
        lookup::lemma_filter_member(before.barges@, lookup::not(holds_barge(bridge_id)), i);
    }
}

/// An action that leaves the sessions as they were gives the owner back what it
/// took, and the bridges of others are not touched.
pub proof fn law_sessions_come_back(
    before: BridgeState,
    between: BridgeState,
    after: BridgeState,
    id: OperationId,
    action: BridgeAction,
    effect: BridgeEffect,
    result: Result<(), AsteriskBackendError>,
    bridge_id: PbxBridgeId,
    other: PbxBridgeId,
)
    requires
        prepared(before, between, id, action, BridgeStep::Effect(effect)),
        action.bridge_id_spec() == Some(bridge_id),
        completed(
            between,
            after,
            id,
            (BridgeCompletion {
                bridge_id: Some(bridge_id),
                bridge: effect.bridge,
                barge: effect.barge,
                result,
            }),
        ),
        other != bridge_id,
    ensures
        after.bridge_spec(bridge_id) == before.bridge_spec(bridge_id),
        after.barge_spec(bridge_id) == before.barge_spec(bridge_id),
        after.bridge_spec(other) == before.bridge_spec(other),
        after.barge_spec(other) == before.barge_spec(other),
{
    law_sessions_are_handed_out_once(
        before,
        between,
        id,
        action,
        BridgeStep::Effect(effect),
        bridge_id,
    );
    let p = lookup::not(holds_bridge(bridge_id));
    let q = lookup::not(holds_barge(bridge_id));
    assert(lookup::all(between.bridges@, p)) by {
        lookup::lemma_first_at(between.bridges@, holds_bridge(bridge_id), 0);
        assert forall|i: int| 0 <= i < between.bridges@.len() implies p(
            #[trigger] between.bridges@[i],
        ) by {
            lookup::lemma_filter_member(before.bridges@, p, i);
        }
    }
    assert(lookup::all(between.barges@, q)) by {
        assert forall|i: int| 0 <= i < between.barges@.len() implies q(
            #[trigger] between.barges@[i],
        ) by {
            lookup::lemma_filter_member(before.barges@, q, i);
        }
    }
    lookup::lemma_filter_all(between.bridges@, p);
    lookup::lemma_filter_all(between.barges@, q);
    lookup::lemma_first_of_filter(before.bridges@, p, holds_bridge(other));
    lookup::lemma_first_of_filter(before.barges@, q, holds_barge(other));
    match effect.bridge {
        Some(session) => {
            let held = HeldBridge { bridge_id, session };
            lookup::lemma_first_push(between.bridges@, held, holds_bridge(bridge_id));
            lookup::lemma_first_push(between.bridges@, held, holds_bridge(other));
        },
        None => {},
    }
    match effect.barge {
        Some(session) => {
            let held = HeldBarge { bridge_id, session };
            lookup::lemma_first_push(between.barges@, held, holds_barge(bridge_id));
            lookup::lemma_first_push(between.barges@, held, holds_barge(other));
        },
        None => {},
    }
}

/// Two actions on one bridge need the same resource, and so do an action on a
/// bridge and one on a call that the bridge may hold: they never run at once.
pub proof fn law_shared_bridges_exclude_each_other(
    state: BridgeState,
    first: BridgeAction,
    second: BridgeAction,
    bridge_id: PbxBridgeId,
    call_id: PbxCallId,
)
    requires
        first.bridge_id_spec() == Some(bridge_id),
    ensures
        second.bridge_id_spec() == Some(bridge_id) ==> state.claims(
            first,
            BridgeResource::Bridge(bridge_id),
        ) && state.claims(second, BridgeResource::Bridge(bridge_id)),
        state.participants_spec(bridge_id).contains(call_id) && second.call_ids_spec().contains(
            call_id,
        ) ==> state.claims(first, BridgeResource::Call(call_id)) && state.claims(
            second,
            BridgeResource::Call(call_id),
        ),
{
    if state.participants_spec(bridge_id).contains(call_id) {
        lookup::lemma_first_at(state.calls@, calls_of(bridge_id), 0);
        let i = lookup::first_at(state.calls@, calls_of(bridge_id), 0).unwrap();
        assert(state.calls@[i].calls@.contains(call_id));
    }
}

/// Closing everything conflicts with whatever a bridge may hold, leaves the owner
/// with nothing, and every later action is turned away.
pub proof fn law_draining_is_final(
    before: BridgeState,
    drained: BridgeState,
    drain: OperationId,
    drain_step: BridgeStep,
    after: BridgeState,
    id: OperationId,
    action: BridgeAction,
    step: BridgeStep,
    bridge_id: PbxBridgeId,
)
    requires
        before.retiring_after == Some(drain),
        prepared(before, drained, drain, BridgeAction::Drain, drain_step),
        prepared(drained, after, id, action, step),
        id.0 > drain.0,
    ensures
        drained.bridge_spec(bridge_id) is None,
        drained.barge_spec(bridge_id) is None,
        drained.participants_spec(bridge_id) == Set::<PbxCallId>::empty(),
        step matches BridgeStep::Finished(Err(error)) && is_runtime_unavailable(error),
        after.bridges == drained.bridges,
        after.barges == drained.barges,
{
}

/// An action is about the bridge it names and the calls it names, each in its own
/// place; a transfer is about both of its legs and no bridge.
pub proof fn law_actions_name_their_bridge_and_calls(
    action: BridgeAction,
    bridge_id: Option<PbxBridgeId>,
    calls: Vec<PbxCallId>,
)
    requires
        call_ensures(BridgeAction::bridge_id, (&action,), bridge_id),
        call_ensures(BridgeAction::call_ids, (&action,), calls),
    ensures
        bridge_id is None <==> action is Transfer || action is Drain,
        action is Drain ==> calls@.len() == 0,
        action matches BridgeAction::Transfer(transfer) ==> calls@.len() == 2 && calls@[0]
            == transfer.source.pbx_call_id && calls@[1] == transfer.consultation.pbx_call_id,
        action matches BridgeAction::Barge(BargeOperation::Join {
            bridge_id: on,
            target_call_id,
            barger_call_id,
        }) ==> bridge_id == Some(on) && calls@.len() == 2 && calls@[0] == target_call_id && calls@[1]
            == barger_call_id,
        action matches BridgeAction::Barge(BargeOperation::Leave {
            bridge_id: on,
            barger_call_id,
            ..
        }) ==> bridge_id == Some(on) && calls@.len() == 1 && calls@[0] == barger_call_id,
        action matches BridgeAction::Bridge(BridgeOperation::Create { bridge_id: on }) ==> bridge_id
            == Some(on) && calls@.len() == 0,
        action matches BridgeAction::Bridge(BridgeOperation::Destroy { bridge_id: on })
            ==> bridge_id == Some(on) && calls@.len() == 0,
        action matches BridgeAction::Bridge(BridgeOperation::AddParticipant {
            bridge_id: on,
            call_id,
        }) ==> bridge_id == Some(on) && calls@ == seq![call_id],
        action matches BridgeAction::Bridge(BridgeOperation::RemoveParticipant {
            bridge_id: on,
            call_id,
        }) ==> bridge_id == Some(on) && calls@ == seq![call_id],
        action matches BridgeAction::Bridge(BridgeOperation::MergeConsultation {
            bridge_id: on,
            original_call_id,
            consultation_call_id,
        }) ==> bridge_id == Some(on) && calls@.len() == 2 && calls@[0] == original_call_id
            && calls@[1] == consultation_call_id,
        action matches BridgeAction::Bridge(BridgeOperation::MergeCalls { bridge_id: on, call_ids })
            ==> bridge_id == Some(on) && calls@ == call_ids@,
        action matches BridgeAction::Bridge(BridgeOperation::SetParticipantMuted {
            bridge_id: on,
            call_id,
            ..
        }) ==> bridge_id == Some(on) && calls@ == seq![call_id],
        action matches BridgeAction::Bridge(BridgeOperation::RemoveConferenceParticipant {
            bridge_id: on,
            call_id,
            ..
        }) ==> bridge_id == Some(on) && calls@ == seq![call_id],
{
}

/// An action claims what it names, and with a bridge the calls that are on it or
/// are to come to it; a drain claims every bridge and call that is in use.
pub proof fn law_actions_claim_what_they_touch(
    state: BridgeState,
    action: BridgeAction,
    bridge_id: Option<PbxBridgeId>,
    calls: Vec<PbxCallId>,
    resources: Vec<BridgeResource>,
    call: PbxCallId,
    bridge: PbxBridgeId,
    h: int,
    i: int,
)
    requires
        call_ensures(BridgeAction::bridge_id, (&action,), bridge_id),
        call_ensures(BridgeAction::call_ids, (&action,), calls),
        call_ensures(BridgeState::resources, (&state, &action), resources),
        0 <= h < state.calls@.len(),
        0 <= i < state.intents@.len(),
    ensures
        calls@.contains(call) ==> resources@.contains(BridgeResource::Call(call)),
        bridge_id == Some(bridge) ==> resources@.contains(BridgeResource::Bridge(bridge)),
        bridge_id == Some(state.calls@[h].bridge_id) && state.calls@[h].calls@.contains(call)
            ==> resources@.contains(BridgeResource::Call(call)),
        bridge_id is Some && state.intents@[i].bridge_id == bridge_id
            && state.intents@[i].calls@.contains(call) ==> resources@.contains(
            BridgeResource::Call(call),
        ),
        action is Drain ==> resources@.contains(BridgeResource::Bridge(state.calls@[h].bridge_id)),
        action is Drain && state.calls@[h].calls@.contains(call) ==> resources@.contains(
            BridgeResource::Call(call),
        ),
        action is Drain && state.intents@[i].bridge_id == Some(bridge) ==> resources@.contains(
            BridgeResource::Bridge(bridge),
        ),
        action is Transfer && resources@.contains(BridgeResource::Call(call)) ==> calls@.contains(
            call,
        ),
        bridge_id is Some && resources@.contains(BridgeResource::Bridge(bridge)) ==> bridge_id
            == Some(bridge),
{
    assert(state.claims(action, BridgeResource::Call(call)) == resources@.contains(
        BridgeResource::Call(call),
    ));
    assert(state.claims(action, BridgeResource::Bridge(bridge)) == resources@.contains(
        BridgeResource::Bridge(bridge),
    ));
    assert(state.claims(action, BridgeResource::Bridge(state.calls@[h].bridge_id))
        == resources@.contains(BridgeResource::Bridge(state.calls@[h].bridge_id)));
    assert(intent_claims(state.intents@, bridge_id, BridgeResource::Call(call)) <==> exists|k: int|
        #![trigger state.intents@[k]]
        0 <= k < state.intents@.len() && (bridge_id is None || state.intents@[k].bridge_id
            == bridge_id) && state.intents@[k].calls@.contains(call));
}

/// An operation that is admitted is noted as what it is about, in place of an older
/// one of its number; a drain is what everything after it waits for.
pub proof fn law_admitted_operations_are_noted(
    state: &mut BridgeState,
    id: OperationId,
    action: BridgeAction,
    bridge_id: Option<PbxBridgeId>,
    calls: Vec<PbxCallId>,
    resources: Vec<BridgeResource>,
    other: BridgeIntent,
)
    requires
        call_ensures(BridgeAction::bridge_id, (&action,), bridge_id),
        call_ensures(BridgeAction::call_ids, (&action,), calls),
        call_ensures(BridgeState::admit_operation, (state, id, &action), resources),
        other.id != id,
    ensures
        final(state).intents@.last().id == id,
        final(state).intents@.last().bridge_id == bridge_id,
        final(state).intents@.last().calls@ == calls@,
        final(state).intents@.contains(other) <==> old(state).intents@.contains(other),
        action is Drain ==> final(state).retiring_after == Some(id),
        !(action is Drain) ==> final(state).retiring_after == old(state).retiring_after,
        final(state).bridges == old(state).bridges && final(state).calls == old(state).calls,
{
    let before = old(state).intents@;
    let after = final(state).intents@;
    lookup::lemma_filter_holds(before, lookup::not(intends(id)), other);
    lookup::lemma_push_holds(after.drop_last(), after.last(), other);
    assert(after.drop_last().push(after.last()) =~= after);
}

/// An operation that expired or failed is forgotten and changes nothing else; a
/// failure tells that the switch cannot be reached.
pub proof fn law_lost_operations_are_forgotten(
    expiring: &mut BridgeState,
    failing: &mut BridgeState,
    id: OperationId,
    outcome: Result<(), AsteriskBackendError>,
    intent: BridgeIntent,
    reply: Option<Result<(), AsteriskBackendError>>,
    answered: Result<(), AsteriskBackendError>,
)
    requires
        call_ensures(BridgeState::expired, (expiring, id), ()),
        call_ensures(BridgeState::failed, (failing, id), outcome),
        call_ensures(execute, (reply,), answered),
    ensures
        final(expiring).intents@.contains(intent) <==> old(expiring).intents@.contains(intent)
            && intent.id != id,
        final(failing).intents@.contains(intent) <==> old(failing).intents@.contains(intent)
            && intent.id != id,
        final(expiring).bridges == old(expiring).bridges && final(expiring).barges == old(
            expiring,
        ).barges && final(expiring).calls == old(expiring).calls,
        final(failing).bridges == old(failing).bridges,
        outcome is Err,
        reply matches Some(given) ==> answered == given,
        reply is None ==> answered is Err,
{
    lookup::lemma_filter_holds(old(expiring).intents@, lookup::not(intends(id)), intent);
    lookup::lemma_filter_holds(old(failing).intents@, lookup::not(intends(id)), intent);
}

/// A bridge is made only where there is none and taken down only where there is
/// one; anything else needs the bridge and every call that it names.
pub proof fn law_bridge_operations_need_bridge_and_calls(
    access: &Access,
    session: Option<BridgeSession>,
    operation: BridgeOperation,
    calls: Vec<PbxCallId>,
    asked: Result<(), AsteriskBackendError>,
)
    requires
        call_ensures(BridgeAction::call_ids, (&BridgeAction::Bridge(operation),), calls),
        call_ensures(execute_bridge, (access, session, &operation), asked),
    ensures
        operation is Create ==> (asked is Ok <==> session is None),
        operation is Destroy ==> (asked is Ok <==> session is Some),
        !(operation is Create) && !(operation is Destroy) ==> (asked is Ok <==> session is Some
            && forall|i: int|
            0 <= i < calls@.len() ==> access.shared.live_channel_spec(#[trigger] calls@[i]) is Some),
        operation matches BridgeOperation::Create { bridge_id } ==> (asked matches Err(error)
            ==> error == (AsteriskBackendError::BridgeConflict { bridge_id })),
        !(operation is Create) && session is None ==> (asked matches Err(error)
            && error is BridgeUnavailable),
{
}

/// A made bridge is kept, one that was taken down is given up whatever the switch
/// said, and no other operation changes which bridge there is; what the switch
/// refused is passed on.
pub proof fn law_bridges_are_kept_until_taken_down(
    session: &mut Option<BridgeSession>,
    operation: BridgeOperation,
    reply: BridgeReply,
    outcome: Result<(), AsteriskBackendError>,
)
    requires
        call_ensures(finish_bridge, (session, &operation, reply), outcome),
    ensures
        operation is Create ==> (reply matches BridgeReply::Created(Ok(created))
            ==> *final(session) == Some(created) && outcome is Ok),
        operation is Destroy && reply is Done ==> *final(session) is None,
        !(operation is Create) && !(operation is Destroy) ==> *final(session) == *old(session),
        !(operation is Create) ==> (reply matches BridgeReply::Done(done) ==> (outcome is Ok
            <==> done is Ok)),
        reply matches BridgeReply::Done(Err(error)) ==> !(operation is Create) ==> outcome == Err::<
            (),
            AsteriskBackendError,
        >(AsteriskBackendError::CallFeature(error)),
        operation is Create ==> (reply matches BridgeReply::Created(Err(error)) ==> outcome == Err::<
            (),
            AsteriskBackendError,
        >(AsteriskBackendError::CallFeature(error)) && *final(session) == *old(session)),
        reply is ChannelGone ==> outcome is Err,
{
}

/// A barge takes the bridge of the call that it joins, once, and then adds whoever
/// barges; a bridge that was taken for nothing is given up again, and one that was
/// there before stays.
pub proof fn law_barges_take_the_bridge_once(
    access: &Access,
    joining: &mut Option<BargeBridgeSession>,
    acquiring: &mut Option<BargeBridgeSession>,
    adding: &mut Option<BargeBridgeSession>,
    bridge_id: PbxBridgeId,
    target_call_id: PbxCallId,
    barger_call_id: PbxCallId,
    reply: Option<Result<BargeBridgeSession, CallFeatureError>>,
    acquired: bool,
    added: Option<Result<(), CallFeatureError>>,
    joined: BargeStep,
    taken: BargeStep,
    ended: BargeStep,
)
    requires
        call_ensures(
            execute_barge,
            (
                access,
                joining,
                (BargeOperation::Join { bridge_id, target_call_id, barger_call_id }),
            ),
            joined,
        ),
        call_ensures(
            barge_acquired,
            (access, acquiring, target_call_id, barger_call_id, reply),
            taken,
        ),
        call_ensures(barge_added, (adding, barger_call_id, acquired, added), ended),
    ensures
        *final(joining) == *old(joining),
        joined is Acquire <==> *old(joining) is None && access.shared.live_channel_spec(
            target_call_id,
        ) is Some,
        joined matches BargeStep::Acquire { bridge_id: on, target_call_id: of } ==> on == bridge_id
            && of == target_call_id,
        joined is Add <==> *old(joining) is Some && access.shared.live_channel_spec(barger_call_id)
            is Some,
        joined matches BargeStep::Add { barger_call_id: who, acquired } ==> who == barger_call_id
            && !acquired,
        taken is Add <==> (reply matches Some(given) && given is Ok)
            && access.shared.live_channel_spec(barger_call_id) is Some,
        taken matches BargeStep::Add { barger_call_id: who, acquired } ==> who == barger_call_id
            && acquired && *final(acquiring) == Some(reply->0->Ok_0),
        taken is GiveUp <==> (reply matches Some(given) && given is Ok)
            && access.shared.live_channel_spec(barger_call_id) is None,
        taken matches BargeStep::GiveUp { session, .. } ==> session == reply->0->Ok_0 && *final(acquiring) is None,
        taken is Finished ==> *final(acquiring) == *old(acquiring),
        ended is GiveUp <==> acquired && *old(adding) is Some && !(added matches Some(done)
            && done is Ok),
        ended matches BargeStep::GiveUp { session, .. } ==> *old(adding) == Some(session) && *final(adding) is None,
        ended is Finished ==> *final(adding) == *old(adding),
        ended matches BargeStep::Finished(outcome) ==> (outcome is Ok <==> (added matches Some(done)
            && done is Ok)),
{
}

/// Whoever leaves a barge is removed from it; the last one releases the bridge that
/// is held for it, whether or not the removal worked, and nobody else does.
pub proof fn law_last_bargers_release_the_bridge(
    access: &Access,
    leaving: &mut Option<BargeBridgeSession>,
    removing: &mut Option<BargeBridgeSession>,
    bridge_id: PbxBridgeId,
    barger_call_id: PbxCallId,
    last_participant: bool,
    reply: Option<Result<(), CallFeatureError>>,
    removal: Result<(), AsteriskBackendError>,
    release: Result<(), CallFeatureError>,
    left: BargeStep,
    removed: BargeStep,
    outcome: Result<(), AsteriskBackendError>,
)
    requires
        call_ensures(
            execute_barge,
            (
                access,
                leaving,
                (BargeOperation::Leave { bridge_id, barger_call_id, last_participant }),
            ),
            left,
        ),
        call_ensures(
            barge_removed,
            (removing, bridge_id, barger_call_id, last_participant, reply),
            removed,
        ),
        call_ensures(barge_released, (removal, release), outcome),
    ensures
        left is Remove <==> access.shared.live_channel_spec(barger_call_id) is Some && *old(
            leaving,
        ) is Some,
        left matches BargeStep::Remove { barger_call_id: who } ==> who == barger_call_id
            && *final(leaving) == *old(leaving),
        !(left is Remove) && last_participant ==> *final(leaving) is None,
        !(left is Remove) && last_participant && *old(leaving) is Some ==> left is Release,
        removed is Release <==> last_participant && *old(removing) is Some,
        removed matches BargeStep::Release { session, .. } ==> *old(removing) == Some(session),
        last_participant ==> *final(removing) is None,
        !last_participant ==> *final(removing) == *old(removing),
        !last_participant ==> (removed matches BargeStep::Finished(done) && (done is Ok <==> (
        reply matches Some(given) && given is Ok))),
        outcome is Ok <==> removal is Ok && release is Ok,
        removal is Err ==> outcome == removal,
{
}

/// Calls are connected by a transfer exactly if both of its legs are live and the
/// switch did it, and a drain succeeds exactly if everything was taken down.
pub proof fn law_transfers_connect_live_legs(
    access: &Access,
    transfer: TransferCompletion,
    connected: bool,
    outcome: Result<(), AsteriskBackendError>,
    bridges: Vec<Result<(), CallFeatureError>>,
    barges: Vec<Result<(), CallFeatureError>>,
    drained: Result<(), AsteriskBackendError>,
)
    requires
        call_ensures(finish_transfer, (access, &transfer, connected), outcome),
        call_ensures(finish_drain, (bridges, barges), drained),
    ensures
        outcome is Ok <==> connected && access.shared.live_channel_spec(
            transfer.source.pbx_call_id,
        ) is Some && access.shared.live_channel_spec(transfer.consultation.pbx_call_id) is Some,
        drained is Ok <==> (forall|i: int|
            0 <= i < bridges@.len() ==> (#[trigger] bridges@[i]) is Ok) && (forall|i: int|
            0 <= i < barges@.len() ==> (#[trigger] barges@[i]) is Ok),
{
    let legs = BridgeAction::Transfer(transfer).call_ids_spec();
    assert(legs[0] == transfer.source.pbx_call_id);
    assert(legs[1] == transfer.consultation.pbx_call_id);
    let p = |reply: Result<(), CallFeatureError>| reply is Err;
    lookup::lemma_first_at(bridges@, p, 0);
    lookup::lemma_first_at(barges@, p, 0);
    if let Some(i) = lookup::first_at(bridges@, p, 0) {
        assert(bridges@[i] is Err);
    } else {
        assert forall|i: int| 0 <= i < bridges@.len() implies (#[trigger] bridges@[i]) is Ok by {
            assert(!p(bridges@[i]));
        }
    }
    if let Some(i) = lookup::first_at(barges@, p, 0) {
        assert(barges@[i] is Err);
    } else {
        assert forall|i: int| 0 <= i < barges@.len() implies (#[trigger] barges@[i]) is Ok by {
            assert(!p(barges@[i]));
        }
    }
}

/// An operation is about the bridge that it names.
pub proof fn law_operations_name_their_bridge(operation: BridgeOperation, bridge_id: PbxBridgeId)
    requires
        call_ensures(bridge_of, (&operation,), bridge_id),
    ensures
        operation matches BridgeOperation::Create { bridge_id: named } ==> bridge_id == named,
        operation matches BridgeOperation::Destroy { bridge_id: named } ==> bridge_id == named,
        operation matches BridgeOperation::AddParticipant { bridge_id: named, .. } ==> bridge_id
            == named,
        operation matches BridgeOperation::RemoveParticipant { bridge_id: named, .. } ==> bridge_id
            == named,
        operation matches BridgeOperation::MergeConsultation { bridge_id: named, .. } ==> bridge_id
            == named,
        operation matches BridgeOperation::MergeCalls { bridge_id: named, .. } ==> bridge_id
            == named,
        operation matches BridgeOperation::MergeParticipant { bridge_id: named, .. } ==> bridge_id
            == named,
        operation matches BridgeOperation::SetParticipantMuted { bridge_id: named, .. }
            ==> bridge_id == named,
        operation matches BridgeOperation::SetParticipantMusicOnHold { bridge_id: named, .. }
            ==> bridge_id == named,
        operation matches BridgeOperation::RemoveConferenceParticipant { bridge_id: named, .. }
            ==> bridge_id == named,
{
}

/// An operation that came after the owner began to retire is refused and takes
/// nothing. Any other is carried out with what is held of its bridge, which nobody
/// else is given meanwhile; draining takes everything.
pub proof fn law_operations_take_what_is_held_of_their_bridge(
    state: &mut BridgeState,
    id: OperationId,
    action: BridgeAction,
    step: BridgeStep,
    i: int,
    b: int,
)
    requires
        old(state).wf(),
        call_ensures(BridgeState::prepare, (state, id, action), step),
        0 <= i < old(state).bridges@.len(),
        0 <= b < old(state).barges@.len(),
    ensures
        step is Finished <==> (old(state).retiring_after matches Some(retiring) && id.0
            > retiring.0),
        step matches BridgeStep::Finished(outcome) ==> outcome is Err && final(state).bridges
            == old(state).bridges && final(state).barges == old(state).barges,
        step matches BridgeStep::Effect(effect) ==> {
            &&& effect.action == action
            &&& action is Drain <==> effect.draining is Some
            &&& action is Drain ==> final(state).bridges@.len() == 0 && final(state).barges@.len()
                == 0 && final(state).calls@.len() == 0 && (effect.draining matches Some(drain)
                && drain.bridges == old(state).bridges && drain.barges == old(state).barges)
            &&& action is Transfer ==> effect.bridge is None && effect.barge is None && final(
                state).bridges == old(state).bridges && final(state).barges == old(state).barges
            &&& action matches BridgeAction::Bridge(operation) ==> {
                let named = operation_bridge(operation);
                &&& final(state).bridges@.contains(old(state).bridges@[i]) <==> old(
                    state,
                ).bridges@[i].bridge_id != named
                &&& final(state).barges@.contains(old(state).barges@[b]) <==> old(
                    state,
                ).barges@[b].bridge_id != named
            }
            &&& action matches BridgeAction::Barge(BargeOperation::Join { bridge_id: named, .. })
                ==> (final(state).bridges@.contains(old(state).bridges@[i]) <==> old(
                state,
            ).bridges@[i].bridge_id != named)
        },
{
    let bridges = old(state).bridges@;
    let barges = old(state).barges@;
    if let Some(named) = action.bridge_id_spec() {
        lookup::lemma_filter_holds(bridges, lookup::not(holds_bridge(named)), bridges[i]);
        lookup::lemma_filter_holds(barges, lookup::not(holds_barge(named)), barges[b]);
    }
}

} // verus!
