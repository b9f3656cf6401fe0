//! The owner of all subscriptions to hints and mailboxes, of the published line
//! states and of the extensions of registered stations.
//!
//! Commands reach the owner one after the other. What the switch answers to a
//! request is handed in with the command that makes it.

use vstd::prelude::*;
use vstd::string::*;

use crate::access::Access;
use crate::collect::{any, find, gather, position, retain, split_off};
use crate::config::{self, BlfTarget, ModuleConfig};
use crate::ids::{DeviceId, SessionGeneration};
use crate::lookup;
use crate::model::ControllerSnapshot;
use crate::presence::{self, device_state, DeviceState, MwiSubscription};
use crate::text::same_text;

verus! {

/// A change that is prepared and either completed or given up.
#[derive(Clone, Copy, Debug, PartialEq, Eq, Structural)]
pub struct StageId(pub u64);

/// One reading of the configuration.
#[derive(Clone, Copy, Debug, PartialEq, Eq, Structural)]
pub struct ConfigVersion(pub u64);

#[derive(Clone, Copy, Debug, PartialEq, Eq, Structural)]
pub enum RegistrationRegistryError {
    /// The extensions could not be published.
    Unavailable,
    /// The switch refused one of them.
    Backend,
}

/// What the owner is asked to do.
#[derive(Debug, PartialEq, Eq)]
pub enum PresenceCommand {
    InstallBlf { device: DeviceId, session: SessionGeneration, plan: Vec<BlfTarget> },
    RemoveBlf { device: DeviceId, only_session: Option<SessionGeneration> },
    RetryBlf { now: u64 },
    InstallMwi { subscriptions: Vec<MwiSubscription> },
    ClearMwi,
    PublishLine { line: String, state: DeviceState },
    RegisterContexts { config: ConfigVersion, registered: Vec<DeviceId>, device: DeviceId },
    StageRegistrations {
        config: ConfigVersion,
        registered: Vec<DeviceId>,
        previous: ConfigVersion,
        previous_registered: Vec<DeviceId>,
    },
    StageMwi { changes: Vec<MwiSubscription> },
}

/// Publishes the state that `line` has now.
pub fn publish_line(access: &Access, line: &str) -> (command: PresenceCommand)
    ensures
        match command {
            PresenceCommand::PublishLine { line: named, state } => named@ == line@ && state
                == presence::device_state_spec(access.shared, line@),
            _ => false,
        },
{
    PresenceCommand::PublishLine { line: line.to_owned(), state: device_state(access, line) }
}

/// Publishes the extensions of a station that registered.
pub fn publish_registration_contexts(
    config: ConfigVersion,
    registered: Vec<DeviceId>,
    device: DeviceId,
) -> (command: PresenceCommand)
    ensures
        command == (PresenceCommand::RegisterContexts { config, registered, device }),
{
    PresenceCommand::RegisterContexts { config, registered, device }
}

/// What publishing came to; the owner may be gone.
pub fn registration_reply(reply: Option<Result<(), RegistrationRegistryError>>) -> (result: Result<
    (),
    RegistrationRegistryError,
>)
    ensures
        result == match reply {
            Some(answer) => answer,
            None => Err(registration_unavailable_spec()),
        },
{
    match reply {
        Some(answer) => answer,
        None => Err(registration_unavailable()),
    }
}

pub open spec fn registration_unavailable_spec() -> RegistrationRegistryError {
    RegistrationRegistryError::Unavailable
}

fn registration_unavailable() -> (error: RegistrationRegistryError)
    ensures
        error == registration_unavailable_spec(),
{
    RegistrationRegistryError::Unavailable
}

/// Has the owner drop the extensions of stations that are gone.
pub fn retire_registration_contexts() -> (turn: PresenceTurn)
    ensures
        turn == PresenceTurn::RetiredContexts,
{
    PresenceTurn::RetiredContexts
}

/// Tries again what could not be subscribed.
pub fn retry_blf(now: u64) -> (command: PresenceCommand)
    ensures
        command == (PresenceCommand::RetryBlf { now }),
{
    PresenceCommand::RetryBlf { now }
}

/// Ends everything that a station watches.
pub fn uninstall_device_blf(device_id: &DeviceId) -> (command: PresenceCommand)
    ensures
        command == (PresenceCommand::RemoveBlf { device: *device_id, only_session: None }),
{
    PresenceCommand::RemoveBlf { device: device_id.clone(), only_session: None }
}

/// Ends what a station watches under one registration.
pub fn uninstall_device_blf_for_session(device_id: &DeviceId, generation: SessionGeneration) ->
    (command: PresenceCommand)
    ensures
        command == (PresenceCommand::RemoveBlf {
            device: *device_id,
            only_session: Some(generation),
        }),
{
    PresenceCommand::RemoveBlf { device: device_id.clone(), only_session: Some(generation) }
}

/// Ends all announcements of messages.
pub fn uninstall_mwi() -> (command: PresenceCommand)
    ensures
        command == PresenceCommand::ClearMwi,
{
    PresenceCommand::ClearMwi
}

/// What a station watches, and the registration under which it asked for it.
#[derive(Debug, PartialEq, Eq)]
pub struct BlfPlan {
    pub device: DeviceId,
    pub session: SessionGeneration,
    pub plan: Vec<BlfTarget>,
}

/// A subscription to a mailbox. What arrives under another generation belongs to
/// an earlier subscription of the line.
#[derive(Debug, PartialEq, Eq)]
pub struct MwiEntry {
    pub line: String,
    pub generation: u64,
    /// What arrived before the subscription took effect.
    pub latest: Option<bool>,
}

impl Clone for MwiEntry {
    fn clone(&self) -> (copy: Self)
        ensures
            copy == *self,
    {
        MwiEntry {
            line: self.line.clone(),
            generation: self.generation,
            latest: self.latest,
        }
    }
}

/// A subscription that a prepared change would bring.
#[derive(Debug, PartialEq, Eq)]
pub struct StagedMwiEntry {
    pub stage: StageId,
    pub entry: MwiEntry,
}

#[derive(Debug, PartialEq, Eq)]
pub struct PublishedLine {
    pub line: String,
    pub state: DeviceState,
}

/// The extensions that exist for registered stations.
#[derive(Debug, PartialEq, Eq)]
pub struct RuntimeRegistrationContexts {
    /// Stations whose extensions are kept out.
    pub suppressed_devices: Vec<DeviceId>,
    pub config: Option<ConfigVersion>,
    pub registered: Vec<DeviceId>,
    /// Stations whose extensions exist: those that were registered and not kept
    /// out when the extensions were last published.
    pub targets: Vec<DeviceId>,
}

/// What a prepared change of the extensions goes back to.
#[derive(Debug, PartialEq, Eq)]
pub struct PendingRegistrationContexts {
    pub stage: StageId,
    pub previous: ConfigVersion,
    pub registered: Vec<DeviceId>,
}

#[derive(Debug, PartialEq, Eq)]
pub struct PresenceOwner {
    /// How many subscriptions there may be.
    pub capacity: usize,
    pub plans: Vec<BlfPlan>,
    pub mwi: Vec<MwiEntry>,
    /// Prepared changes of subscriptions.
    pub stages: Vec<StageId>,
    pub staged: Vec<StagedMwiEntry>,
    pub contexts: RuntimeRegistrationContexts,
    pub staged_contexts: Vec<PendingRegistrationContexts>,
    pub published: Vec<PublishedLine>,
    pub next_stage: u64,
    pub next_mwi_generation: u64,
}

/// What is done about one hint of a plan.
#[derive(Clone, Copy, Debug, PartialEq, Eq, Structural)]
pub enum HintStep {
    Subscribe,
    Defer,
    /// The plan holds no further hint.
    Finished,
}

/// A hint whose subscription failed or was deferred long enough ago.
#[derive(Debug, PartialEq, Eq)]
pub struct DueHint {
    pub device: DeviceId,
    pub instance: u32,
}

/// A hint that is tried again.
#[derive(Debug, PartialEq, Eq)]
pub struct HintRetry {
    pub device: DeviceId,
    pub target: BlfTarget,
}

pub open spec fn plan_of(device: Seq<char>) -> spec_fn(BlfPlan) -> bool {
    |plan: BlfPlan| plan.device@ == device
}

/// The plan belongs to a registration that no longer stands.
pub open spec fn plan_is_stale(controller: ControllerSnapshot) -> spec_fn(BlfPlan) -> bool {
    |plan: BlfPlan| !controller.session_current_spec(plan.device@, plan.session)
}

pub open spec fn entry_of(line: Seq<char>) -> spec_fn(MwiEntry) -> bool {
    |entry: MwiEntry| entry.line@ == line
}

/// The prepared subscription of a line with this generation.
pub open spec fn staged_as(line: Seq<char>, generation: u64) -> spec_fn(StagedMwiEntry) -> bool {
    |staged: StagedMwiEntry| staged.entry.line@ == line && staged.entry.generation == generation
}

pub open spec fn of_stage(stage: StageId) -> spec_fn(StagedMwiEntry) -> bool {
    |staged: StagedMwiEntry| staged.stage == stage
}

pub open spec fn is_stage(stage: StageId) -> spec_fn(StageId) -> bool {
    |other: StageId| other == stage
}

pub open spec fn pending_of(stage: StageId) -> spec_fn(PendingRegistrationContexts) -> bool {
    |pending: PendingRegistrationContexts| pending.stage == stage
}

pub open spec fn published_as(line: Seq<char>) -> spec_fn(PublishedLine) -> bool {
    |published: PublishedLine| published.line@ == line
}

/// The line is configured.
pub open spec fn still_configured(config: ModuleConfig) -> spec_fn(PublishedLine) -> bool {
    |published: PublishedLine| lookup::first(config.lines@, config::is_line(published.line@)) is Some
}

pub open spec fn is_named(device: Seq<char>) -> spec_fn(DeviceId) -> bool {
    |other: DeviceId| other@ == device
}

/// The station is registered.
pub open spec fn is_present(controller: ControllerSnapshot) -> spec_fn(DeviceId) -> bool {
    |device: DeviceId| controller.registered_spec(device@)
}

/// The station has a configuration.
pub open spec fn has_config(config: ModuleConfig) -> spec_fn(DeviceId) -> bool {
    |device: DeviceId| lookup::first(config.devices@, config::is_device(device@)) is Some
}

/// The station is not kept out.
pub open spec fn not_suppressed(suppressed: Seq<DeviceId>) -> spec_fn(DeviceId) -> bool {
    |device: DeviceId| !lookup::some(suppressed, is_named(device@))
}

impl PresenceOwner {
    pub open spec fn count_spec(self, hints: usize) -> int {
        hints + self.mwi@.len() + self.staged@.len()
    }

    /// Generations that were handed out lie below the next one.
    pub open spec fn wf(self) -> bool {
        &&& forall|i: int|
            0 <= i < self.mwi@.len() ==> (#[trigger] self.mwi@[i]).generation
                < self.next_mwi_generation
        &&& forall|i: int|
            0 <= i < self.staged@.len() ==> (#[trigger] self.staged@[i]).entry.generation
                < self.next_mwi_generation
        &&& forall|i: int|
            0 <= i < self.stages@.len() ==> (#[trigger] self.stages@[i]).0 < self.next_stage
        &&& forall|i: int|
            0 <= i < self.staged_contexts@.len() ==> (#[trigger] self.staged_contexts@[i]).stage.0
                < self.next_stage
    }

    /// An owner of nothing.
    pub fn new(capacity: usize) -> (owner: PresenceOwner)
        ensures
            owner.wf(),
            owner.capacity == capacity,
            owner.plans@.len() == 0,
            owner.mwi@.len() == 0,
            owner.stages@.len() == 0,
            owner.staged@.len() == 0,
            owner.staged_contexts@.len() == 0,
            owner.published@.len() == 0,
            owner.contexts.suppressed_devices@.len() == 0,
            owner.contexts.registered@.len() == 0,
            owner.contexts.targets@.len() == 0,
            owner.contexts.config is None,
            owner.next_stage == 1,
            owner.next_mwi_generation == 1,
    {
        PresenceOwner {
            capacity,
            plans: Vec::new(),
            mwi: Vec::new(),
            stages: Vec::new(),
            staged: Vec::new(),
            contexts: RuntimeRegistrationContexts::new(),
            staged_contexts: Vec::new(),
            published: Vec::new(),
            next_stage: 1,
            next_mwi_generation: 1,
        }
    }

    /// How many subscriptions there are, where `hints` watch hints.
    pub fn subscription_count(&self, hints: usize) -> (count: usize)
        ensures
            count == if self.count_spec(hints) <= usize::MAX {
                self.count_spec(hints)
            } else {
                usize::MAX as int
            },
    {
        hints.saturating_add(self.mwi.len()).saturating_add(self.staged.len())
    }

    /// What is done about the hint at `position` of a plan that is taken over,
    /// where `hints` hints are watched by then: it is watched while there is
    /// room, else tried again later.
    pub fn hint_step(&self, plan: &Vec<BlfTarget>, position: usize, hints: usize) -> (step: HintStep)
        ensures
            step == if position >= plan@.len() {
                HintStep::Finished
            } else if self.count_spec(hints) < self.capacity {
                HintStep::Subscribe
            } else {
                HintStep::Defer
            },
    {
        if position >= plan.len() {
            HintStep::Finished
        } else if self.subscription_count(hints) < self.capacity {
            HintStep::Subscribe
        } else {
            HintStep::Defer
        }
    }
}

/// A change that waits to be shown.
#[derive(Debug, PartialEq, Eq)]
pub enum UpdateKey {
    /// The state of a hint on a station's button.
    Blf { device: DeviceId, instance: u32 },
    /// The messages of a line, as one subscription reported them.
    Mwi { line: String, generation: u64 },
}

/// Waiting changes that are no longer wanted.
#[derive(Debug, PartialEq, Eq)]
pub enum Discard {
    /// Those of all hints of a station.
    Hints(DeviceId),
    /// Those of one hint.
    Hint { device: DeviceId, instance: u32 },
    /// Those of one subscription to a mailbox.
    Mailbox(MwiKey),
}

impl Discard {
    pub open spec fn covers_spec(self, key: UpdateKey) -> bool {
        match (self, key) {
            (Discard::Hints(retired), UpdateKey::Blf { device, .. }) => device@ == retired@,
            (
                Discard::Hint { device: retired, instance: ended },
                UpdateKey::Blf { device, instance },
            ) => device@ == retired@ && instance == ended,
            (Discard::Mailbox(retired), UpdateKey::Mwi { line, generation }) => line@
                == retired.line@ && generation == retired.generation,
            _ => false,
        }
    }

    /// Whether a waiting change is given up.
    pub fn covers(&self, key: &UpdateKey) -> (covered: bool)
        ensures
            covered == self.covers_spec(*key),
    {
        match (self, key) {
            (Discard::Hints(retired), UpdateKey::Blf { device, .. }) => device.same(retired),
            (
                Discard::Hint { device: retired, instance: ended },
                UpdateKey::Blf { device, instance },
            ) => device.same(retired) && *instance == *ended,
            (Discard::Mailbox(retired), UpdateKey::Mwi { line, generation }) => same_text(
                line.as_str(),
                retired.line.as_str(),
            ) && *generation == retired.generation,
            _ => false,
        }
    }
}

/// What is given up where a station's hints change.
pub open spec fn hints_discarded(device: DeviceId, changed: bool) -> Option<Discard> {
    if changed {
        Some(Discard::Hints(device))
    } else {
        None
    }
}

/// What became of the plan that a station watches hints by.
pub open spec fn blf_installed(
    before: PresenceOwner,
    after: PresenceOwner,
    controller: ControllerSnapshot,
    device: DeviceId,
    session: SessionGeneration,
    plan: Vec<BlfTarget>,
    installed: bool,
) -> bool {
    &&& after == (PresenceOwner { plans: after.plans, ..before })
    &&& installed == controller.session_current_spec(device@, session)
    &&& after.plans@ == if installed {
        before.plans@.filter(lookup::not(plan_of(device@))).push(BlfPlan { device, session, plan })
    } else {
        before.plans@
    }
}

pub open spec fn blf_removed(
    before: PresenceOwner,
    after: PresenceOwner,
    device: DeviceId,
    only_session: Option<SessionGeneration>,
    removed: bool,
) -> bool {
    &&& after == (PresenceOwner { plans: after.plans, ..before })
    &&& removed == match only_session {
        None => true,
        Some(session) => match lookup::first(before.plans@, plan_of(device@)) {
            Some(plan) => plan.session == session,
            None => false,
        },
    }
    &&& after.plans@ == if removed {
        before.plans@.filter(lookup::not(plan_of(device@)))
    } else {
        before.plans@
    }
}

/// Plans that were given up.
#[derive(Debug, PartialEq, Eq)]
pub struct RetiredHints {
    pub plans: Vec<BlfPlan>,
    pub discarded: Vec<Discard>,
}

/// What is given up with a plan.
pub open spec fn discard_of_plan() -> spec_fn(BlfPlan) -> Discard {
    |plan: BlfPlan| Discard::Hints(plan.device)
}

pub open spec fn is_due(device: Seq<char>, instance: u32) -> spec_fn(DueHint) -> bool {
    |hint: DueHint| hint.device@ == device && hint.instance == instance
}

/// The retry of a hint of `device`, where it is due.
pub open spec fn retry_of(device: DeviceId, due: Seq<DueHint>) -> spec_fn(BlfTarget) -> Option<
    HintRetry,
> {
    |target: BlfTarget|
        if lookup::some(due, is_due(device@, target.instance)) {
            Some(HintRetry { device, target })
        } else {
            None
        }
}

/// The hints that are due, of plans whose registrations still stand.
pub open spec fn due_retries(
    plans: Seq<BlfPlan>,
    controller: ControllerSnapshot,
    due: Seq<DueHint>,
) -> Seq<HintRetry>
    decreases plans.len(),
{
    if plans.len() == 0 {
        Seq::empty()
    } else {
        let before = due_retries(plans.drop_last(), controller, due);
        if controller.session_current_spec(plans.last().device@, plans.last().session) {
            before + plans.last().plan@.filter_map(retry_of(plans.last().device, due))
        } else {
            before
        }
    }
}

impl PresenceOwner {
    pub open spec fn budget_spec(self, hints: usize) -> int {
        if self.count_spec(hints) < self.capacity {
            self.capacity - self.count_spec(hints)
        } else {
            0
        }
    }

    /// The hints that are tried again: those that are due, as far as there is
    /// room for them.
    pub open spec fn retries_spec(
        self,
        controller: ControllerSnapshot,
        due: Seq<DueHint>,
        hints: usize,
    ) -> Seq<HintRetry> {
        let all = due_retries(self.plans@, controller, due);
        if all.len() <= self.budget_spec(hints) {
            all
        } else {
            all.take(self.budget_spec(hints))
        }
    }
}

impl PresenceOwner {
    /// Takes over what a station watches. A plan of an earlier registration is
    /// refused; otherwise what the station watched before ends.
    pub fn install_blf(
        &mut self,
        controller: &ControllerSnapshot,
        device: DeviceId,
        session: SessionGeneration,
        plan: Vec<BlfTarget>,
    ) -> (installed: bool)
        ensures
            blf_installed(
                *old(self),
                *final(self),
                *controller,
                device,
                session,
                plan,
                installed,
            ),
    {
        if !controller.session_is_current(&device, session) {
            return false;
        }
        let ghost p = lookup::not(plan_of(device@));
        retain(
            &mut self.plans,
            |entry: &BlfPlan| -> (keep: bool)
                ensures
                    keep == (entry.device@ != device@)
                { !entry.device.same(&device) },
            Ghost(p),
        );
        self.plans.push(BlfPlan { device, session, plan });
        true
    }

    /// Ends what a station watches; with a registration given, only what was
    /// installed under it.
    pub fn remove_blf(&mut self, device: &DeviceId, only_session: Option<SessionGeneration>) ->
        (removed: bool)
        ensures
            blf_removed(*old(self), *final(self), *device, only_session, removed),
    {
        match only_session {
            Some(session) => {
                let current = match find(
                    &self.plans,
                    |entry: &BlfPlan| -> (found: bool)
                        ensures
                            found == (entry.device@ == device@)
                        { entry.device.same(device) },
                    Ghost(plan_of(device@)),
                ) {
                    Some(plan) => plan.session == session,
                    None => false,
                };
                if !current {
                    return false;
                }
            },
            None => {},
        }
        let ghost p = lookup::not(plan_of(device@));
        retain(
            &mut self.plans,
            |entry: &BlfPlan| -> (keep: bool)
                ensures
                    keep == (entry.device@ != device@)
                { !entry.device.same(device) },
            Ghost(p),
        );
        true
    }

    /// Ends what stations watch under registrations that no longer stand, and
    /// gives up what waits to be shown of it.
    pub fn retire_blf_sessions(&mut self, controller: &ControllerSnapshot) -> (retired: RetiredHints)
        ensures
            *final(self) == (PresenceOwner { plans: final(self).plans, ..*old(self) }),
            retired.plans@ == old(self).plans@.filter(plan_is_stale(*controller)),
            retired.discarded@ == retired.plans@.map_values(discard_of_plan()),
            final(self).plans@ == old(self).plans@.filter(
                lookup::not(plan_is_stale(*controller)),
            ),
    {
        let plans = split_off(
            &mut self.plans,
            |plan: &BlfPlan| -> (stale: bool)
                ensures
                    stale == !controller.session_current_spec(plan.device@, plan.session)
                { !controller.session_is_current(&plan.device, plan.session) },
            Ghost(plan_is_stale(*controller)),
        );
        let mut discarded: Vec<Discard> = Vec::new();
        let mut i: usize = 0;
        while i < plans.len()
            invariant
                0 <= i <= plans@.len(),
                discarded@ == plans@.take(i as int).map_values(discard_of_plan()),
            decreases plans@.len() - i,
        {
            discarded.push(Discard::Hints(plans[i].device.clone()));
            proof {
                assert(discarded@ =~= plans@.take(i + 1).map_values(discard_of_plan()));
            }
            i += 1;
        }
        proof {
            assert(plans@.take(i as int) =~= plans@);
        }
        RetiredHints { plans, discarded }
    }

    /// How many hints may be tried again.
    pub fn retry_budget(&self, hints: usize) -> (remaining: usize)
        ensures
            remaining == self.budget_spec(hints),
    {
        self.capacity.saturating_sub(self.subscription_count(hints))
    }

    /// Selects the hints that are tried again.
    pub fn retry_hints(
        &self,
        controller: &ControllerSnapshot,
        due: &Vec<DueHint>,
        hints: usize,
    ) -> (retries: Vec<HintRetry>)
        ensures
            retries@ == self.retries_spec(*controller, due@, hints),
    {
        let mut retries: Vec<HintRetry> = Vec::new();
        let mut i: usize = 0;
        while i < self.plans.len()
            invariant
                0 <= i <= self.plans@.len(),
                retries@ == due_retries(self.plans@.take(i as int), *controller, due@),
            decreases self.plans@.len() - i,
        {
            let plan = &self.plans[i];
            proof {
                assert(self.plans@.take(i + 1).drop_last() =~= self.plans@.take(i as int));
            }
            if controller.session_is_current(&plan.device, plan.session) {
                let mut more = gather(
                    &plan.plan,
                    plan.plan.len(),
                    |target: &BlfTarget| -> (retry: Option<HintRetry>)
                        ensures
                            retry == retry_of(plan.device, due@)(*target)
                        {
                            if any(
                                due,
                                |hint: &DueHint| -> (found: bool)
                                    ensures
                                        found == (hint.device@ == plan.device@ && hint.instance
                                            == target.instance)
                                    {
                                        hint.device.same(&plan.device) && hint.instance
                                            == target.instance
                                    },
                                Ghost(is_due(plan.device@, target.instance)),
                            ) {
                                Some(
                                    HintRetry {
                                        device: plan.device.clone(),
                                        target: target.clone(),
                                    },
                                )
                            } else {
                                None
                            }
                        },
                    Ghost(retry_of(plan.device, due@)),
                );
                proof {
                    assert(plan.plan@.take(plan.plan@.len() as int) =~= plan.plan@);
                }
                retries.append(&mut more);
            }
            i += 1;
        }
        proof {
            assert(self.plans@.take(i as int) =~= self.plans@);
        }
        retries.truncate(self.retry_budget(hints));
        retries
    }
}

/// An update that is no longer wanted: those of a subscription that ended.
#[derive(Debug, PartialEq, Eq)]
pub struct MwiKey {
    pub line: String,
    pub generation: u64,
}

/// The key of a subscription.
pub open spec fn key_of() -> spec_fn(MwiEntry) -> MwiKey {
    |entry: MwiEntry| MwiKey { line: entry.line, generation: entry.generation }
}

fn mwi_keys(entries: Vec<MwiEntry>) -> (keys: Vec<MwiKey>)
    ensures
        keys@ == entries@.map_values(key_of()),
{
    let mut keys: Vec<MwiKey> = Vec::new();
    let mut i: usize = 0;
    while i < entries.len()
        invariant
            0 <= i <= entries@.len(),
            keys@ == entries@.take(i as int).map_values(key_of()),
        decreases entries@.len() - i,
    {
        keys.push(MwiKey { line: entries[i].line.clone(), generation: entries[i].generation });
        proof {
            assert(keys@ =~= entries@.take(i + 1).map_values(key_of()));
        }
        i += 1;
    }
    proof {
        assert(entries@.take(i as int) =~= entries@);
    }
    keys
}

pub open spec fn exhausted_words() -> Seq<char> {
    "MWI subscription generations exhausted"@
}

pub open spec fn refused_words(line: Seq<char>, reason: Seq<char>) -> Seq<char> {
    "unable to subscribe MWI for SCCP/"@ + line + ": "@ + reason
}

/// What one subscription comes to, where `outcome` is the switch's answer. Every
/// attempt that reaches the switch uses up a generation.
pub open spec fn subscribed_spec(
    next: u64,
    line: String,
    outcome: Result<(), String>,
    result: Result<MwiEntry, String>,
    after: u64,
) -> bool {
    if next == u64::MAX {
        &&& after == next
        &&& result matches Err(words)
        &&& words@ == exhausted_words()
    } else {
        &&& after == next + 1
        &&& match outcome {
            Ok(()) => result == Ok::<MwiEntry, String>(
                MwiEntry { line, generation: next, latest: None },
            ),
            Err(reason) => {
                &&& result matches Err(words)
                &&& words@ == refused_words(line@, reason@)
            },
        }
    }
}

fn subscribe_mwi(next: u64, line: &String, outcome: &Result<(), String>) -> (attempt: (
    Result<MwiEntry, String>,
    u64,
))
    requires
        next < u64::MAX,
    ensures
        subscribed_spec(next, *line, *outcome, attempt.0, attempt.1),
{
    match outcome {
        Ok(()) => (
            Ok(MwiEntry { line: line.clone(), generation: next, latest: None }),
            next + 1,
        ),
        Err(reason) => {
            let mut words = "unable to subscribe MWI for SCCP/".to_owned();
            words.append(line.as_str());
            words.append(": ");
            words.append(reason.as_str());
            (Err(words), next + 1)
        },
    }
}

/// The subscriptions with `entry` among them, in place of an earlier one of the
/// same line.
pub open spec fn with_entry(entries: Seq<MwiEntry>, entry: MwiEntry) -> Seq<MwiEntry> {
    entries.filter(lookup::not(entry_of(entry.line@))).push(entry)
}

/// How many of `wanted` attempts reach the switch: each uses up a generation,
/// and the last generation is never handed out.
pub open spec fn reached(wanted: nat, next: u64) -> nat {
    if wanted <= u64::MAX - next {
        wanted
    } else {
        (u64::MAX - next) as nat
    }
}

/// The attempts that the switch refused among the first `n` that reached it.
pub open spec fn refusals(
    subscriptions: Seq<MwiSubscription>,
    outcomes: Seq<Result<(), String>>,
    next: u64,
    n: nat,
) -> Seq<MwiKey>
    decreases n,
{
    if n == 0 {
        Seq::empty()
    } else {
        let before = refusals(subscriptions, outcomes, next, (n - 1) as nat);
        match outcomes[n - 1] {
            Ok(()) => before,
            Err(_) => before.push(
                MwiKey { line: subscriptions[n - 1].line, generation: (next + n - 1) as u64 },
            ),
        }
    }
}

/// The subscriptions that the first `n` attempts leave, and the generation after
/// them. Attempts that fail leave none.
pub open spec fn installed_spec(
    subscriptions: Seq<MwiSubscription>,
    outcomes: Seq<Result<(), String>>,
    next: u64,
    n: nat,
) -> (Seq<MwiEntry>, u64)
    decreases n,
{
    if n == 0 || n > subscriptions.len() {
        (Seq::empty(), next)
    } else {
        let (entries, generation) = installed_spec(subscriptions, outcomes, next, (n - 1) as nat);
        if generation == u64::MAX {
            (entries, generation)
        } else {
            match outcomes[n - 1] {
                Ok(()) => (
                    with_entry(
                        entries,
                        MwiEntry { line: subscriptions[n - 1].line, generation, latest: None },
                    ),
                    (generation + 1) as u64,
                ),
                Err(_) => (entries, (generation + 1) as u64),
            }
        }
    }
}

fn insert_entry(entries: &mut Vec<MwiEntry>, entry: MwiEntry)
    ensures
        final(entries)@ == with_entry(old(entries)@, entry),
{
    let ghost p = lookup::not(entry_of(entry.line@));
    retain(
        entries,
        |other: &MwiEntry| -> (keep: bool)
            ensures
                keep == (other.line@ != entry.line@)
            { !same_text(other.line.as_str(), entry.line.as_str()) },
        Ghost(p),
    );
    entries.push(entry);
}

/// All generations lie below `limit`.
pub open spec fn below(entries: Seq<MwiEntry>, limit: u64) -> bool {
    forall|i: int| 0 <= i < entries.len() ==> (#[trigger] entries[i]).generation < limit
}

proof fn lemma_below_filter(entries: Seq<MwiEntry>, p: spec_fn(MwiEntry) -> bool, limit: u64)
    requires
        below(entries, limit),
    ensures
        below(entries.filter(p), limit),
{
    assert forall|i: int| 0 <= i < entries.filter(p).len() implies (#[trigger] entries.filter(
        p,
    )[i]).generation < limit by {
        lookup::lemma_filter_member(entries, p, i);
        let x = entries.filter(p)[i];
        let j = choose|j: int| 0 <= j < entries.len() && entries[j] == x;
        assert(entries[j].generation < limit);
    }
}

proof fn lemma_below_staged(
    staged: Seq<StagedMwiEntry>,
    p: spec_fn(StagedMwiEntry) -> bool,
    limit: u64,
)
    requires
        forall|i: int| 0 <= i < staged.len() ==> (#[trigger] staged[i]).entry.generation < limit,
    ensures
        forall|i: int|
            0 <= i < staged.filter(p).len() ==> (#[trigger] staged.filter(p)[i]).entry.generation
                < limit,
{
    assert forall|i: int| 0 <= i < staged.filter(p).len() implies (#[trigger] staged.filter(
        p,
    )[i]).entry.generation < limit by {
        lookup::lemma_filter_member(staged, p, i);
        let x = staged.filter(p)[i];
        let j = choose|j: int| 0 <= j < staged.len() && staged[j] == x;
        assert(staged[j].entry.generation < limit);
    }
}

/// What replacing all subscriptions comes to.
#[derive(Debug, PartialEq, Eq)]
pub struct MwiReplacement {
    /// There was room for them.
    pub admitted: bool,
    /// Attempts that the switch refused.
    pub refused: Vec<MwiKey>,
    /// Subscriptions that ended.
    pub retired: Vec<MwiKey>,
}

pub open spec fn mwi_installed(
    before: PresenceOwner,
    after: PresenceOwner,
    hints: usize,
    subscriptions: Seq<MwiSubscription>,
    outcomes: Seq<Result<(), String>>,
    replacement: MwiReplacement,
) -> bool {
    let (entries, next) = installed_spec(
        subscriptions,
        outcomes,
        before.next_mwi_generation,
        subscriptions.len(),
    );
    &&& replacement.admitted == (before.count_spec(hints) + subscriptions.len() <= before.capacity)
    &&& if replacement.admitted {
        &&& after == (PresenceOwner { mwi: after.mwi, next_mwi_generation: next, ..before })
        &&& after.mwi@ == entries
        &&& replacement.refused@ == refusals(
            subscriptions,
            outcomes,
            before.next_mwi_generation,
            reached(subscriptions.len(), before.next_mwi_generation),
        )
        &&& replacement.retired@ == before.mwi@.map_values(key_of())
    } else {
        &&& after == before
        &&& replacement.refused@.len() == 0
        &&& replacement.retired@.len() == 0
    }
}

impl PresenceOwner {
    /// The answers to the attempts that replacing all subscriptions makes: none
    /// where they do not fit.
    pub open spec fn installation_answered(
        self,
        hints: usize,
        wanted: nat,
        outcomes: Seq<Result<(), String>>,
    ) -> bool {
        self.count_spec(hints) + wanted <= self.capacity ==> outcomes.len() >= reached(
            wanted,
            self.next_mwi_generation,
        )
    }

    /// The answers to the attempts that a prepared change makes: none where it is
    /// refused at once, and none after the first failure.
    pub open spec fn staging_answered(
        self,
        hints: usize,
        wanted: nat,
        outcomes: Seq<Result<(), String>>,
    ) -> bool {
        self.count_spec(hints) + wanted <= self.capacity && self.next_stage < u64::MAX ==> {
            ||| outcomes.len() >= reached(wanted, self.next_mwi_generation)
            ||| exists|i: int| 0 <= i < outcomes.len() && (#[trigger] outcomes[i]) is Err
        }
    }
}

impl PresenceOwner {
    /// Replaces the subscriptions of all lines. Where the new ones do not fit
    /// beside the present ones, nothing changes.
    pub fn install_mwi(
        &mut self,
        hints: usize,
        subscriptions: &Vec<MwiSubscription>,
        outcomes: &Vec<Result<(), String>>,
    ) -> (replacement: MwiReplacement)
        requires
            old(self).wf(),
            old(self).installation_answered(hints, subscriptions@.len(), outcomes@),
        ensures
            final(self).wf(),
            mwi_installed(
                *old(self),
                *final(self),
                hints,
                subscriptions@,
                outcomes@,
                replacement,
            ),
    {
        if !self.fits(hints, subscriptions.len()) {
            return MwiReplacement {
                admitted: false,
                refused: Vec::new(),
                retired: Vec::new(),
            };
        }
        let ghost owner = *self;
        let mut installed: Vec<MwiEntry> = Vec::new();
        let mut refused: Vec<MwiKey> = Vec::new();
        let mut next: u64 = self.next_mwi_generation;
        let ghost start = next;
        let mut i: usize = 0;
        while i < subscriptions.len()
            invariant
                *self == owner,
                outcomes@.len() >= reached(subscriptions@.len(), start),
                0 <= i <= subscriptions@.len(),
                next == start + reached(i as nat, start),
                refused@ == refusals(subscriptions@, outcomes@, start, reached(i as nat, start)),
                (installed@, next) == installed_spec(
                    subscriptions@,
                    outcomes@,
                    start,
                    i as nat,
                ),
                start <= next,
                below(installed@, next),
            decreases subscriptions@.len() - i,
        {
            if next == u64::MAX {
                i += 1;
                continue;
            }
            let ghost before = installed@;
            let generation: u64 = next;
            let (attempt, after) = subscribe_mwi(next, &subscriptions[i].line, &outcomes[i]);
            next = after;
            match attempt {
                Ok(entry) => {
                    proof {
                        lemma_below_filter(
                            before,
                            lookup::not(entry_of(entry.line@)),
                            generation,
                        );
                    }
                    insert_entry(&mut installed, entry);
                },
                Err(_) => refused.push(
                    MwiKey { line: subscriptions[i].line.clone(), generation },
                ),
            }
            i += 1;
        }
        let mut retired: Vec<MwiEntry> = installed;
        std::mem::swap(&mut self.mwi, &mut retired);
        self.next_mwi_generation = next;
        MwiReplacement { admitted: true, refused, retired: mwi_keys(retired) }
    }

    /// Whether `more` subscriptions fit beside the present ones.
    pub fn fits(&self, hints: usize, more: usize) -> (fits: bool)
        ensures
            fits == (self.count_spec(hints) + more <= self.capacity),
    {
        let present = match hints.checked_add(self.mwi.len()) {
            Some(sum) => sum.checked_add(self.staged.len()),
            None => None,
        };
        match present {
            Some(count) => match count.checked_add(more) {
                Some(total) => total <= self.capacity,
                None => false,
            },
            None => false,
        }
    }

    /// Ends all subscriptions to mailboxes.
    pub fn clear_mwi(&mut self) -> (retired: Vec<MwiKey>)
        requires
            old(self).wf(),
        ensures
            final(self).wf(),
            *final(self) == (PresenceOwner { mwi: final(self).mwi, ..*old(self) }),
            final(self).mwi@.len() == 0,
            retired@ == old(self).mwi@.map_values(key_of()),
    {
        let mut retired: Vec<MwiEntry> = Vec::new();
        std::mem::swap(&mut self.mwi, &mut retired);
        mwi_keys(retired)
    }
}

pub open spec fn line_published(
    before: PresenceOwner,
    after: PresenceOwner,
    config: ModuleConfig,
    line: String,
    state: DeviceState,
    announce: bool,
) -> bool {
    let kept = before.published@.filter(still_configured(config));
    &&& after == (PresenceOwner { published: after.published, ..before })
    &&& announce == match lookup::first(kept, published_as(line@)) {
        Some(published) => published.state != state,
        None => true,
    }
    &&& after.published@ == if announce {
        kept.filter(lookup::not(published_as(line@))).push(PublishedLine { line, state })
    } else {
        kept
    }
}

impl PresenceOwner {
    /// Notes the state of a line, and says whether it has to be announced: only
    /// where it differs from what was announced last. Lines that are no longer
    /// configured are forgotten.
    pub fn publish_line(&mut self, config: &ModuleConfig, line: String, state: DeviceState) ->
        (announce: bool)
        requires
            old(self).wf(),
        ensures
            final(self).wf(),
            line_published(*old(self), *final(self), *config, line, state, announce),
    {
        retain(
            &mut self.published,
            |published: &PublishedLine| -> (keep: bool)
                ensures
                    keep == (lookup::first(config.lines@, config::is_line(published.line@)) is Some)
                { config.line(published.line.as_str()).is_some() },
            Ghost(still_configured(*config)),
        );
        let unchanged = match find(
            &self.published,
            |published: &PublishedLine| -> (found: bool)
                ensures
                    found == (published.line@ == line@)
                { same_text(published.line.as_str(), line.as_str()) },
            Ghost(published_as(line@)),
        ) {
            Some(published) => published.state == state,
            None => false,
        };
        if unchanged {
            return false;
        }
        let ghost p = lookup::not(published_as(line@));
        retain(
            &mut self.published,
            |published: &PublishedLine| -> (keep: bool)
                ensures
                    keep == (published.line@ != line@)
                { !same_text(published.line.as_str(), line.as_str()) },
            Ghost(p),
        );
        self.published.push(PublishedLine { line, state });
        true
    }
}

/// The stations of a list that are registered.
pub fn present_devices(controller: &ControllerSnapshot, devices: Vec<DeviceId>) -> (present: Vec<
    DeviceId,
>)
    ensures
        present@ == devices@.filter(is_present(*controller)),
{
    let mut present = devices;
    retain(
        &mut present,
        |device: &DeviceId| -> (registered: bool)
            ensures
                registered == controller.registered_spec(device@)
            { controller.is_registered(device) },
        Ghost(is_present(*controller)),
    );
    present
}

pub open spec fn contexts_reconciled(
    before: RuntimeRegistrationContexts,
    after: RuntimeRegistrationContexts,
    config: ConfigVersion,
    registered: Vec<DeviceId>,
    outcome: Result<(), RegistrationRegistryError>,
) -> bool {
    match outcome {
        Ok(()) => {
            &&& after.config == Some(config)
            &&& after.registered == registered
            &&& after.suppressed_devices == before.suppressed_devices
            &&& after.targets@ == registered@.filter(not_suppressed(before.suppressed_devices@))
        },
        Err(_) => after == before,
    }
}

impl Default for RuntimeRegistrationContexts {
    fn default() -> (contexts: Self)
        ensures
            contexts.suppressed_devices@.len() == 0,
            contexts.config is None,
            contexts.registered@.len() == 0,
            contexts.targets@.len() == 0,
    {
        RuntimeRegistrationContexts::new()
    }
}

impl RuntimeRegistrationContexts {
    /// No extensions exist, and none are kept out.
    pub fn new() -> (contexts: Self)
        ensures
            contexts.suppressed_devices@.len() == 0,
            contexts.config is None,
            contexts.registered@.len() == 0,
            contexts.targets@.len() == 0,
    {
        RuntimeRegistrationContexts {
            suppressed_devices: Vec::new(),
            config: None,
            registered: Vec::new(),
            targets: Vec::new(),
        }
    }

    /// How many stations have their extensions.
    pub fn active_target_count(&self) -> (count: usize)
        ensures
            count == self.targets@.len(),
    {
        self.targets.len()
    }

    /// The stations whose extensions are to exist.
    pub fn published_devices(&self, registered: &Vec<DeviceId>) -> (published: Vec<DeviceId>)
        ensures
            published@ == registered@.filter(not_suppressed(self.suppressed_devices@)),
    {
        let ghost p = not_suppressed(self.suppressed_devices@);
        let mut published: Vec<DeviceId> = Vec::new();
        let mut i: usize = 0;
        while i < registered.len()
            invariant
                p == not_suppressed(self.suppressed_devices@),
                0 <= i <= registered@.len(),
                published@ == registered@.take(i as int).filter(p),
            decreases registered@.len() - i,
        {
            let device = &registered[i];
            let kept_out = any(
                &self.suppressed_devices,
                |other: &DeviceId| -> (found: bool)
                    ensures
                        found == (other@ == device@)
                    { other.same(device) },
                Ghost(is_named(device@)),
            );
            if !kept_out {
                published.push(device.clone());
            }
            proof {
                lookup::lemma_filter_step(registered@, p, i as int);
            }
            i += 1;
        }
        proof {
            assert(registered@.take(i as int) =~= registered@);
        }
        published
    }

    /// Notes what the extensions were brought to; a failure leaves what was.
    pub fn reconcile(
        &mut self,
        config: ConfigVersion,
        registered: Vec<DeviceId>,
        outcome: Result<(), RegistrationRegistryError>,
    ) -> (result: Result<(), RegistrationRegistryError>)
        ensures
            result == outcome,
            contexts_reconciled(*old(self), *final(self), config, registered, outcome),
    {
        if outcome.is_ok() {
            self.targets = self.published_devices(&registered);
            self.config = Some(config);
            self.registered = registered;
        }
        outcome
    }

    /// Drops the extensions of stations that have gone. Before anything was
    /// published there is nothing to drop.
    pub fn retire_disconnected(
        &mut self,
        controller: &ControllerSnapshot,
        outcome: Result<(), RegistrationRegistryError>,
    ) -> (result: Result<(), RegistrationRegistryError>)
        ensures
            match old(self).config {
                None => result is Ok && *final(self) == *old(self),
                Some(_) => {
                    &&& result == outcome
                    &&& final(self).config == old(self).config
                    &&& final(self).suppressed_devices == old(self).suppressed_devices
                    &&& if outcome is Ok {
                        &&& final(self).registered@ == old(self).registered@.filter(
                            is_present(*controller),
                        )
                        &&& final(self).targets@ == final(self).registered@.filter(
                            not_suppressed(old(self).suppressed_devices@),
                        )
                    } else {
                        *final(self) == *old(self)
                    }
                },
            },
    {
        if self.config.is_none() {
            return Ok(());
        }
        if outcome.is_ok() {
            retain(
                &mut self.registered,
                |device: &DeviceId| -> (registered: bool)
                    ensures
                        registered == controller.registered_spec(device@)
                    { controller.is_registered(device) },
                Ghost(is_present(*controller)),
            );
            self.targets = self.published_devices(&self.registered);
        }
        outcome
    }

    fn release(&mut self, device: &DeviceId)
        ensures
            *final(self) == (RuntimeRegistrationContexts {
                suppressed_devices: final(self).suppressed_devices,
                ..*old(self)
            }),
            final(self).suppressed_devices@ == old(self).suppressed_devices@.filter(
                lookup::not(is_named(device@)),
            ),
    {
        let ghost p = lookup::not(is_named(device@));
        retain(
            &mut self.suppressed_devices,
            |other: &DeviceId| -> (keep: bool)
                ensures
                    keep == (other@ != device@)
                { !other.same(device) },
            Ghost(p),
        );
    }

    fn suppress(&mut self, device: DeviceId)
        ensures
            *final(self) == (RuntimeRegistrationContexts {
                suppressed_devices: final(self).suppressed_devices,
                ..*old(self)
            }),
            final(self).suppressed_devices@ == suppressed_with(old(self).suppressed_devices@, device),
    {
        let present = any(
            &self.suppressed_devices,
            |other: &DeviceId| -> (found: bool)
                ensures
                    found == (other@ == device@)
                { other.same(&device) },
            Ghost(is_named(device@)),
        );
        if !present {
            self.suppressed_devices.push(device);
        }
    }
}

/// The kept-out stations with one more.
pub open spec fn suppressed_with(suppressed: Seq<DeviceId>, device: DeviceId) -> Seq<DeviceId> {
    if lookup::some(suppressed, is_named(device@)) {
        suppressed
    } else {
        suppressed.push(device)
    }
}

/// The kept-out stations with the first `n` of some more.
pub open spec fn suppressed_with_all(
    suppressed: Seq<DeviceId>,
    more: Seq<DeviceId>,
    n: nat,
) -> Seq<DeviceId>
    decreases n,
{
    if n == 0 || n > more.len() {
        suppressed
    } else {
        suppressed_with(suppressed_with_all(suppressed, more, (n - 1) as nat), more[n - 1])
    }
}

impl PresenceOwner {
    /// The stations that stay kept out once `device` asks for its extensions.
    pub open spec fn released_spec(self, controller: ControllerSnapshot, device: DeviceId) -> Seq<
        DeviceId,
    > {
        if controller.registered_spec(device@) {
            self.contexts.suppressed_devices@.filter(lookup::not(is_named(device@)))
        } else {
            self.contexts.suppressed_devices@
        }
    }

    /// The stations whose extensions are published when `device` asks for its
    /// own.
    pub open spec fn registration_targets_spec(
        self,
        controller: ControllerSnapshot,
        registered: Seq<DeviceId>,
        device: DeviceId,
    ) -> Seq<DeviceId> {
        registered.filter(is_present(controller)).filter(
            not_suppressed(self.released_spec(controller, device)),
        )
    }

    /// The stations whose extensions the switch is asked for when `device` asks
    /// for its own: those of the list that are registered and not kept out,
    /// where a registered `device` is itself kept out no longer.
    pub fn registration_targets(
        &self,
        controller: &ControllerSnapshot,
        registered: &Vec<DeviceId>,
        device: &DeviceId,
    ) -> (targets: Vec<DeviceId>)
        ensures
            targets@ == registered@.filter(is_present(*controller)).filter(
                not_suppressed(self.released_spec(*controller, *device)),
            ),
    {
        let mut contexts = RuntimeRegistrationContexts::new();
        contexts.suppressed_devices = copied_devices(&self.contexts.suppressed_devices);
        if controller.is_registered(device) {
            contexts.release(device);
        }
        contexts.published_devices(&present_devices(controller, copied_devices(registered)))
    }

    /// The stations of a list that are registered and not kept out.
    pub open spec fn targets_spec(
        self,
        controller: ControllerSnapshot,
        registered: Seq<DeviceId>,
    ) -> Seq<DeviceId> {
        registered.filter(is_present(controller)).filter(
            not_suppressed(self.contexts.suppressed_devices@),
        )
    }

    /// The stations whose extensions the switch is asked for when another
    /// configuration is prepared or an earlier one comes back.
    pub fn staging_targets(&self, controller: &ControllerSnapshot, registered: &Vec<DeviceId>) ->
        (targets: Vec<DeviceId>)
        ensures
            targets@ == registered@.filter(is_present(*controller)).filter(
                not_suppressed(self.contexts.suppressed_devices@),
            ),
    {
        self.contexts.published_devices(&present_devices(controller, copied_devices(registered)))
    }
}

pub open spec fn contexts_registered(
    before: PresenceOwner,
    after: PresenceOwner,
    controller: ControllerSnapshot,
    config: ConfigVersion,
    registered: Seq<DeviceId>,
    device: DeviceId,
    outcome: Result<(), RegistrationRegistryError>,
) -> bool {
    let released = before.released_spec(controller, device);
    &&& after == (PresenceOwner { contexts: after.contexts, ..before })
    &&& match outcome {
        Ok(()) => {
            &&& after.contexts.config == Some(config)
            &&& after.contexts.registered@ == registered.filter(is_present(controller))
            &&& after.contexts.suppressed_devices@ == released
            &&& after.contexts.targets@ == before.registration_targets_spec(
                controller,
                registered,
                device,
            )
        },
        Err(_) => {
            &&& after.contexts.config == before.contexts.config
            &&& after.contexts.registered == before.contexts.registered
            &&& after.contexts.targets == before.contexts.targets
            &&& after.contexts.suppressed_devices@ == suppressed_with(released, device)
        },
    }
}

impl PresenceOwner {
    /// Publishes the extensions of the registered stations, now that `device` is
    /// among them. Where that fails, the station is kept out.
    pub fn register_contexts(
        &mut self,
        controller: &ControllerSnapshot,
        config: ConfigVersion,
        registered: Vec<DeviceId>,
        device: DeviceId,
        outcome: Result<(), RegistrationRegistryError>,
    ) -> (result: Result<(), RegistrationRegistryError>)
        requires
            old(self).wf(),
        ensures
            final(self).wf(),
            result == outcome,
            contexts_registered(
                *old(self),
                *final(self),
                *controller,
                config,
                registered@,
                device,
                outcome,
            ),
    {
        let registered = present_devices(controller, registered);
        if controller.is_registered(&device) {
            self.contexts.release(&device);
        }
        let result = self.contexts.reconcile(config, registered, outcome);
        if result.is_err() {
            self.contexts.suppress(device);
        }
        result
    }
}

pub open spec fn registrations_staged(
    before: PresenceOwner,
    after: PresenceOwner,
    controller: ControllerSnapshot,
    config: ConfigVersion,
    registered: Seq<DeviceId>,
    previous: ConfigVersion,
    previous_registered: Vec<DeviceId>,
    outcome: Result<(), RegistrationRegistryError>,
    result: Result<StageId, RegistrationRegistryError>,
) -> bool {
    if before.next_stage == u64::MAX {
        &&& after == before
        &&& result == Err::<StageId, RegistrationRegistryError>(
            RegistrationRegistryError::Unavailable,
        )
    } else {
        let stage = StageId(before.next_stage);
        &&& after == (PresenceOwner {
            contexts: after.contexts,
            staged_contexts: after.staged_contexts,
            next_stage: (before.next_stage + 1) as u64,
            ..before
        })
        &&& match outcome {
            Ok(()) => {
                &&& result == Ok::<StageId, RegistrationRegistryError>(stage)
                &&& after.contexts.config == Some(config)
                &&& after.contexts.registered@ == registered.filter(is_present(controller))
                &&& after.contexts.suppressed_devices == before.contexts.suppressed_devices
                &&& after.contexts.targets@ == registered.filter(is_present(controller)).filter(
                    not_suppressed(before.contexts.suppressed_devices@),
                )
                &&& after.staged_contexts@ == before.staged_contexts@.push(
                    PendingRegistrationContexts {
                        stage,
                        previous,
                        registered: previous_registered,
                    },
                )
            },
            Err(error) => {
                &&& result == Err::<StageId, RegistrationRegistryError>(error)
                &&& after.contexts == before.contexts
                &&& after.staged_contexts == before.staged_contexts
            },
        }
    }
}

impl PresenceOwner {
    /// Prepares the extensions of another configuration, and notes how to go
    /// back.
    pub fn stage_registrations(
        &mut self,
        controller: &ControllerSnapshot,
        config: ConfigVersion,
        registered: Vec<DeviceId>,
        previous: ConfigVersion,
        previous_registered: Vec<DeviceId>,
        outcome: Result<(), RegistrationRegistryError>,
    ) -> (result: Result<StageId, RegistrationRegistryError>)
        requires
            old(self).wf(),
        ensures
            final(self).wf(),
            registrations_staged(
                *old(self),
                *final(self),
                *controller,
                config,
                registered@,
                previous,
                previous_registered,
                outcome,
                result,
            ),
    {
        if self.next_stage == u64::MAX {
            return Err(RegistrationRegistryError::Unavailable);
        }
        let stage = StageId(self.next_stage);
        self.next_stage = self.next_stage + 1;
        let registered = present_devices(controller, registered);
        match self.contexts.reconcile(config, registered, outcome) {
            Ok(()) => {
                self.staged_contexts.push(
                    PendingRegistrationContexts {
                        stage,
                        previous,
                        registered: previous_registered,
                    },
                );
                Ok(stage)
            },
            Err(error) => Err(error),
        }
    }
}

/// Why a change of subscriptions was not prepared, and what it had subscribed
/// until then.
#[derive(Debug, PartialEq, Eq)]
pub struct MwiStageRefusal {
    pub words: String,
    /// The attempt that the switch refused.
    pub refused: Option<MwiKey>,
    pub retired: Vec<MwiKey>,
}

/// How preparing failed.
pub ghost struct StagingFailure {
    pub words: Seq<char>,
    pub refused: Option<MwiKey>,
    pub entries: Seq<MwiEntry>,
    pub next: u64,
}

/// How far preparing gets: the subscriptions of the first `n` attempts, or the
/// attempt that fails.
pub open spec fn staging_spec(
    changes: Seq<MwiSubscription>,
    outcomes: Seq<Result<(), String>>,
    next: u64,
    n: nat,
) -> Result<(Seq<MwiEntry>, u64), StagingFailure>
    decreases n,
{
    if n == 0 || n > changes.len() {
        Ok((Seq::empty(), next))
    } else {
        match staging_spec(changes, outcomes, next, (n - 1) as nat) {
            Err(failure) => Err(failure),
            Ok((entries, generation)) => if generation == u64::MAX {
                Err(
                    StagingFailure {
                        words: exhausted_words(),
                        refused: None,
                        entries,
                        next: generation,
                    },
                )
            } else {
                match outcomes[n - 1] {
                    Ok(()) => Ok(
                        (
                            with_entry(
                                entries,
                                MwiEntry { line: changes[n - 1].line, generation, latest: None },
                            ),
                            (generation + 1) as u64,
                        ),
                    ),
                    Err(reason) => Err(
                        StagingFailure {
                            words: refused_words(changes[n - 1].line@, reason@),
                            refused: Some(MwiKey { line: changes[n - 1].line, generation }),
                            entries,
                            next: (generation + 1) as u64,
                        },
                    ),
                }
            },
        }
    }
}

/// The subscriptions as part of a prepared change.
pub open spec fn staged_under(stage: StageId) -> spec_fn(MwiEntry) -> StagedMwiEntry {
    |entry: MwiEntry| StagedMwiEntry { stage, entry }
}

/// A failure at one attempt is the failure of the whole.
proof fn lemma_staging_failure(
    changes: Seq<MwiSubscription>,
    outcomes: Seq<Result<(), String>>,
    next: u64,
    n: nat,
    m: nat,
)
    requires
        n <= m <= changes.len(),
        staging_spec(changes, outcomes, next, n) is Err,
    ensures
        staging_spec(changes, outcomes, next, m) == staging_spec(changes, outcomes, next, n),
    decreases m,
{
    if n < m {
        lemma_staging_failure(changes, outcomes, next, n, (m - 1) as nat);
    }
}

pub open spec fn mwi_staged(
    before: PresenceOwner,
    after: PresenceOwner,
    hints: usize,
    changes: Seq<MwiSubscription>,
    outcomes: Seq<Result<(), String>>,
    result: Result<StageId, MwiStageRefusal>,
) -> bool {
    if before.count_spec(hints) + changes.len() > before.capacity {
        &&& after == before
        &&& result matches Err(refusal)
        &&& refusal.words@ == "presence subscription capacity exhausted"@
        &&& refusal.refused is None
        &&& refusal.retired@.len() == 0
    } else if before.next_stage == u64::MAX {
        &&& after == before
        &&& result matches Err(refusal)
        &&& refusal.words@ == "presence transaction identifiers exhausted"@
        &&& refusal.refused is None
        &&& refusal.retired@.len() == 0
    } else {
        let stage = StageId(before.next_stage);
        match staging_spec(changes, outcomes, before.next_mwi_generation, changes.len()) {
            Ok((entries, next)) => {
                &&& after == (PresenceOwner {
                    stages: after.stages,
                    staged: after.staged,
                    next_stage: (before.next_stage + 1) as u64,
                    next_mwi_generation: next,
                    ..before
                })
                &&& result == Ok::<StageId, MwiStageRefusal>(stage)
                &&& after.stages@ == before.stages@.push(stage)
                &&& after.staged@ == before.staged@ + entries.map_values(staged_under(stage))
            },
            Err(failure) => {
                &&& after == (PresenceOwner {
                    next_stage: (before.next_stage + 1) as u64,
                    next_mwi_generation: failure.next,
                    ..before
                })
                &&& result matches Err(refusal)
                &&& refusal.words@ == failure.words
                &&& refusal.refused == failure.refused
                &&& refusal.retired@ == failure.entries.map_values(key_of())
            },
        }
    }
}

impl PresenceOwner {
    /// Prepares subscriptions that take effect when the change is completed. One
    /// that fails ends the whole change.
    pub fn stage_mwi(
        &mut self,
        hints: usize,
        changes: &Vec<MwiSubscription>,
        outcomes: &Vec<Result<(), String>>,
    ) -> (result: Result<StageId, MwiStageRefusal>)
        requires
            old(self).wf(),
            old(self).staging_answered(hints, changes@.len(), outcomes@),
        ensures
            final(self).wf(),
            mwi_staged(*old(self), *final(self), hints, changes@, outcomes@, result),
    {
        if !self.fits(hints, changes.len()) {
            return Err(
                MwiStageRefusal {
                    words: "presence subscription capacity exhausted".to_owned(),
                    refused: None,
                    retired: Vec::new(),
                },
            );
        }
        if self.next_stage == u64::MAX {
            return Err(
                MwiStageRefusal {
                    words: "presence transaction identifiers exhausted".to_owned(),
                    refused: None,
                    retired: Vec::new(),
                },
            );
        }
        let stage = StageId(self.next_stage);
        self.next_stage = self.next_stage + 1;
        let mut entries: Vec<MwiEntry> = Vec::new();
        let mut next: u64 = self.next_mwi_generation;
        let ghost start = next;
        let ghost owner = *self;
        let mut i: usize = 0;
        while i < changes.len()
            invariant
                *self == owner,
                owner.next_mwi_generation == start,
                owner.wf(),
                outcomes@.len() >= reached(changes@.len(), start) || exists|k: int|
                    0 <= k < outcomes@.len() && (#[trigger] outcomes@[k]) is Err,
                0 <= i <= changes@.len(),
                i <= outcomes@.len(),
                forall|k: int| 0 <= k < i ==> (#[trigger] outcomes@[k]) is Ok,
                staging_spec(changes@, outcomes@, start, i as nat) == Ok::<
                    (Seq<MwiEntry>, u64),
                    StagingFailure,
                >((entries@, next)),
                next == start + i,
                below(entries@, next),
                mwi_refusal_context(*old(self), owner, hints, changes@, start),
            decreases changes@.len() - i,
        {
            if next == u64::MAX {
                proof {
                    lemma_staging_failure(
                        changes@,
                        outcomes@,
                        start,
                        (i + 1) as nat,
                        changes@.len(),
                    );
                }
                self.next_mwi_generation = next;
                return Err(
                    MwiStageRefusal {
                        words: "MWI subscription generations exhausted".to_owned(),
                        refused: None,
                        retired: mwi_keys(entries),
                    },
                );
            }
            let ghost before = entries@;
            let generation: u64 = next;
            let (attempt, after) = subscribe_mwi(next, &changes[i].line, &outcomes[i]);
            next = after;
            match attempt {
                Ok(entry) => {
                    proof {
                        lemma_below_filter(
                            before,
                            lookup::not(entry_of(entry.line@)),
                            generation,
                        );
                    }
                    insert_entry(&mut entries, entry);
                },
                Err(words) => {
                    self.next_mwi_generation = next;
                    proof {
                        lemma_staging_failure(
                            changes@,
                            outcomes@,
                            start,
                            (i + 1) as nat,
                            changes@.len(),
                        );
                    }
                    return Err(
                        MwiStageRefusal {
                            words,
                            refused: Some(MwiKey { line: changes[i].line.clone(), generation }),
                            retired: mwi_keys(entries),
                        },
                    );
                },
            }
            i += 1;
        }
        self.next_mwi_generation = next;
        self.stages.push(stage);
        let ghost held = self.staged@;
        let mut j: usize = 0;
        let ghost owner = *self;
        while j < entries.len()
            invariant
                0 <= j <= entries@.len(),
                *self == (PresenceOwner { staged: self.staged, ..owner }),
                self.staged@ == held + entries@.take(j as int).map_values(staged_under(stage)),
            decreases entries@.len() - j,
        {
            self.staged.push(StagedMwiEntry { stage, entry: entries[j].clone() });
            proof {
                assert(self.staged@ =~= held + entries@.take(j + 1).map_values(
                    staged_under(stage),
                ));
            }
            j += 1;
        }
        proof {
            assert(entries@.take(j as int) =~= entries@);
            assert forall|k: int| 0 <= k < self.staged@.len() implies (
            #[trigger] self.staged@[k]).entry.generation < self.next_mwi_generation by {
                if k < held.len() {
                    assert(self.staged@[k] == held[k]);
                } else {
                    assert(self.staged@[k].entry == entries@[k - held.len()]);
                }
            }
        }
        Ok(stage)
    }
}

/// The state in which subscriptions are prepared.
pub open spec fn mwi_refusal_context(
    before: PresenceOwner,
    now: PresenceOwner,
    hints: usize,
    changes: Seq<MwiSubscription>,
    start: u64,
) -> bool {
    &&& before.count_spec(hints) + changes.len() <= before.capacity
    &&& before.next_stage < u64::MAX
    &&& before.next_mwi_generation == start
    &&& now == (PresenceOwner { next_stage: (before.next_stage + 1) as u64, ..before })
}

/// How a prepared change ends: completed with what it replaces, or given up.
#[derive(Debug, PartialEq, Eq)]
pub enum StageFinish {
    Mwi { stage: StageId, removed: Option<Vec<String>> },
    Registrations { stage: StageId, affected: Option<Vec<DeviceId>> },
}

/// Messages that waited on a line when its subscription took effect.
#[derive(Debug, PartialEq, Eq)]
pub struct MwiAnnouncement {
    pub line: String,
    pub active: bool,
}

/// What completing or giving up a change of subscriptions leads to.
#[derive(Debug, PartialEq, Eq)]
pub struct MwiFinish {
    /// Subscriptions that ended.
    pub retired: Vec<MwiKey>,
    pub announced: Vec<MwiAnnouncement>,
}

/// The subscription of a prepared change.
pub open spec fn entry_part() -> spec_fn(StagedMwiEntry) -> MwiEntry {
    |staged: StagedMwiEntry| staged.entry
}

/// The subscription gives way to the change: its line is named, or subscribed
/// anew.
pub open spec fn gives_way(removed: Seq<String>, taken: Seq<MwiEntry>) -> spec_fn(MwiEntry) -> bool {
    |entry: MwiEntry|
        presence::texts(removed).contains(entry.line@) || lookup::some(taken, entry_of(entry.line@))
}

/// What is announced of a subscription that takes effect.
pub open spec fn announcement() -> spec_fn(MwiEntry) -> Option<MwiAnnouncement> {
    |entry: MwiEntry|
        match entry.latest {
            Some(active) => Some(MwiAnnouncement { line: entry.line, active }),
            None => None,
        }
}

pub open spec fn mwi_finished(
    before: PresenceOwner,
    after: PresenceOwner,
    stage: StageId,
    removed: Option<Vec<String>>,
    finish: MwiFinish,
) -> bool {
    if !lookup::some(before.stages@, is_stage(stage)) {
        &&& after == before
        &&& finish.retired@.len() == 0
        &&& finish.announced@.len() == 0
    } else {
        let taken = before.staged@.filter(of_stage(stage)).map_values(entry_part());
        &&& after == (PresenceOwner {
            mwi: after.mwi,
            stages: after.stages,
            staged: after.staged,
            ..before
        })
        &&& after.stages@ == before.stages@.filter(lookup::not(is_stage(stage)))
        &&& after.staged@ == before.staged@.filter(lookup::not(of_stage(stage)))
        &&& match removed {
            Some(lines) => {
                let p = gives_way(lines@, taken);
                &&& after.mwi@ == before.mwi@.filter(lookup::not(p)) + taken
                &&& finish.retired@ == before.mwi@.filter(p).map_values(key_of())
                &&& finish.announced@ == taken.filter_map(announcement())
            },
            None => {
                &&& after.mwi == before.mwi
                &&& finish.retired@ == taken.map_values(key_of())
                &&& finish.announced@.len() == 0
            },
        }
    }
}

fn entries_of(staged: &Vec<StagedMwiEntry>) -> (entries: Vec<MwiEntry>)
    ensures
        entries@ == staged@.map_values(entry_part()),
{
    let mut entries: Vec<MwiEntry> = Vec::new();
    let mut i: usize = 0;
    while i < staged.len()
        invariant
            0 <= i <= staged@.len(),
            entries@ == staged@.take(i as int).map_values(entry_part()),
        decreases staged@.len() - i,
    {
        entries.push(staged[i].entry.clone());
        proof {
            assert(entries@ =~= staged@.take(i + 1).map_values(entry_part()));
        }
        i += 1;
    }
    proof {
        assert(staged@.take(i as int) =~= staged@);
    }
    entries
}

fn text_listed(lines: &Vec<String>, line: &str) -> (found: bool)
    ensures
        found == presence::texts(lines@).contains(line@),
{
    let mut i: usize = 0;
    while i < lines.len()
        invariant
            0 <= i <= lines@.len(),
            forall|j: int| 0 <= j < i ==> presence::texts(lines@)[j] != line@,
        decreases lines@.len() - i,
    {
        if same_text(lines[i].as_str(), line) {
            assert(presence::texts(lines@)[i as int] == line@);
            return true;
        }
        i += 1;
    }
    false
}

fn line_subscribed(entries: &Vec<MwiEntry>, line: &str) -> (found: bool)
    ensures
        found == lookup::some(entries@, entry_of(line@)),
{
    any(
        entries,
        |entry: &MwiEntry| -> (found: bool)
            ensures
                found == (entry.line@ == line@)
            { same_text(entry.line.as_str(), line) },
        Ghost(entry_of(line@)),
    )
}

fn announcements(entries: &Vec<MwiEntry>) -> (announced: Vec<MwiAnnouncement>)
    ensures
        announced@ == entries@.filter_map(announcement()),
{
    let mut announced: Vec<MwiAnnouncement> = Vec::new();
    proof {
        assert(entries@.take(0).filter_map(announcement()) =~= Seq::<MwiAnnouncement>::empty())
            by {
            reveal(Seq::filter_map);
        }
    }
    let mut i: usize = 0;
    while i < entries.len()
        invariant
            0 <= i <= entries@.len(),
            announced@ == entries@.take(i as int).filter_map(announcement()),
        decreases entries@.len() - i,
    {
        proof {
            lookup::lemma_filter_map_step(entries@, announcement(), i as int);
        }
        match entries[i].latest {
            Some(active) => announced.push(
                MwiAnnouncement { line: entries[i].line.clone(), active },
            ),
            None => {},
        }
        i += 1;
    }
    proof {
        assert(entries@.take(i as int) =~= entries@);
    }
    announced
}

impl PresenceOwner {
    /// Completes or gives up a change of subscriptions. A completed one replaces
    /// the subscriptions of its lines and ends those that it removes; one that is
    /// given up leaves everything as it was.
    pub fn finish_mwi(&mut self, stage: StageId, removed: Option<Vec<String>>) -> (finish:
        MwiFinish)
        requires
            old(self).wf(),
        ensures
            final(self).wf(),
            mwi_finished(*old(self), *final(self), stage, removed, finish),
    {
        let known = any(
            &self.stages,
            |other: &StageId| -> (found: bool)
                ensures
                    found == (*other == stage)
                { *other == stage },
            Ghost(is_stage(stage)),
        );
        if !known {
            return MwiFinish { retired: Vec::new(), announced: Vec::new() };
        }
        let ghost before = *self;
        let ghost limit = self.next_mwi_generation;
        retain(
            &mut self.stages,
            |other: &StageId| -> (keep: bool)
                ensures
                    keep == (*other != stage)
                { *other != stage },
            Ghost(lookup::not(is_stage(stage))),
        );
        let staged = split_off(
            &mut self.staged,
            |staged: &StagedMwiEntry| -> (found: bool)
                ensures
                    found == (staged.stage == stage)
                { staged.stage == stage },
            Ghost(of_stage(stage)),
        );
        proof {
            lemma_below_staged(before.staged@, of_stage(stage), limit);
            lemma_below_staged(before.staged@, lookup::not(of_stage(stage)), limit);
            lemma_stages_below(before.stages@, lookup::not(is_stage(stage)), before.next_stage);
        }
        let taken = entries_of(&staged);
        assert(below(taken@, limit)) by {
            assert forall|i: int| 0 <= i < taken@.len() implies (
            #[trigger] taken@[i]).generation < limit by {
                assert(taken@[i] == staged@[i].entry);
            }
        }
        match removed {
            Some(removed) => {
                let ghost p = gives_way(removed@, taken@);
                let retired = split_off(
                    &mut self.mwi,
                    |entry: &MwiEntry| -> (gives_way: bool)
                        ensures
                            gives_way == (presence::texts(removed@).contains(entry.line@)
                                || lookup::some(taken@, entry_of(entry.line@)))
                        {
                            text_listed(&removed, entry.line.as_str()) || line_subscribed(
                                &taken,
                                entry.line.as_str(),
                            )
                        },
                    Ghost(p),
                );
                proof {
                    lemma_below_filter(before.mwi@, lookup::not(p), limit);
                }
                let announced = announcements(&taken);
                let ghost kept = self.mwi@;
                let mut taken = taken;
                let ghost all = taken@;
                self.mwi.append(&mut taken);
                proof {
                    assert(self.mwi@ == kept + all);
                    assert forall|i: int| 0 <= i < self.mwi@.len() implies (
                    #[trigger] self.mwi@[i]).generation < limit by {
                        if i < kept.len() {
                            assert(self.mwi@[i] == kept[i]);
                        } else {
                            assert(self.mwi@[i] == all[i - kept.len()]);
                        }
                    }
                }
                MwiFinish { retired: mwi_keys(retired), announced }
            },
            None => MwiFinish { retired: mwi_keys(taken), announced: Vec::new() },
        }
    }
}

proof fn lemma_stages_below(stages: Seq<StageId>, p: spec_fn(StageId) -> bool, limit: u64)
    requires
        forall|i: int| 0 <= i < stages.len() ==> (#[trigger] stages[i]).0 < limit,
    ensures
        forall|i: int| 0 <= i < stages.filter(p).len() ==> (#[trigger] stages.filter(p)[i]).0
            < limit,
{
    assert forall|i: int| 0 <= i < stages.filter(p).len() implies (#[trigger] stages.filter(
        p,
    )[i]).0 < limit by {
        lookup::lemma_filter_member(stages, p, i);
        let x = stages.filter(p)[i];
        let j = choose|j: int| 0 <= j < stages.len() && stages[j] == x;
        assert(stages[j].0 < limit);
    }
}

proof fn lemma_pending_below(
    pending: Seq<PendingRegistrationContexts>,
    p: spec_fn(PendingRegistrationContexts) -> bool,
    limit: u64,
)
    requires
        forall|i: int| 0 <= i < pending.len() ==> (#[trigger] pending[i]).stage.0 < limit,
    ensures
        forall|i: int|
            0 <= i < pending.filter(p).len() ==> (#[trigger] pending.filter(p)[i]).stage.0 < limit,
{
    assert forall|i: int| 0 <= i < pending.filter(p).len() implies (#[trigger] pending.filter(
        p,
    )[i]).stage.0 < limit by {
        lookup::lemma_filter_member(pending, p, i);
        let x = pending.filter(p)[i];
        let j = choose|j: int| 0 <= j < pending.len() && pending[j] == x;
        assert(pending[j].stage.0 < limit);
    }
}

/// What completing or giving up a change of the extensions leads to. `config`
/// is the configuration that the extensions stand by, where there is one.
pub open spec fn registrations_finished(
    before: PresenceOwner,
    after: PresenceOwner,
    controller: ControllerSnapshot,
    config: Option<ModuleConfig>,
    stage: StageId,
    affected: Option<Vec<DeviceId>>,
    outcome: Result<(), RegistrationRegistryError>,
    result: Result<(), RegistrationRegistryError>,
) -> bool {
    match lookup::first(before.staged_contexts@, pending_of(stage)) {
        None => {
            &&& after == before
            &&& result == Err::<(), RegistrationRegistryError>(
                RegistrationRegistryError::Unavailable,
            )
        },
        Some(pending) => {
            &&& after == (PresenceOwner {
                contexts: after.contexts,
                staged_contexts: after.staged_contexts,
                ..before
            })
            &&& after.staged_contexts@ == before.staged_contexts@.filter(
                lookup::not(pending_of(stage)),
            )
            &&& match affected {
                Some(affected) => {
                    let kept_out = suppressed_with_all(
                        before.contexts.suppressed_devices@,
                        affected@,
                        affected@.len(),
                    );
                    &&& result is Ok
                    &&& after.contexts == (RuntimeRegistrationContexts {
                        suppressed_devices: after.contexts.suppressed_devices,
                        ..before.contexts
                    })
                    &&& after.contexts.suppressed_devices@ == match config {
                        Some(config) => kept_out.filter(has_config(config)),
                        None => kept_out,
                    }
                },
                None => {
                    &&& result == outcome
                    &&& after.contexts.suppressed_devices == before.contexts.suppressed_devices
                    &&& if outcome is Ok {
                        &&& after.contexts.config == Some(pending.previous)
                        &&& after.contexts.registered@ == pending.registered@.filter(
                            is_present(controller),
                        )
                        &&& after.contexts.targets@ == pending.registered@.filter(
                            is_present(controller),
                        ).filter(not_suppressed(before.contexts.suppressed_devices@))
                    } else {
                        after.contexts == before.contexts
                    }
                },
            }
        },
    }
}

impl PresenceOwner {
    /// Completes a change of the extensions, keeping the affected stations out
    /// until they register again; or gives it up and goes back to what was.
    pub fn finish_registrations(
        &mut self,
        controller: &ControllerSnapshot,
        config: Option<&ModuleConfig>,
        stage: StageId,
        affected: Option<Vec<DeviceId>>,
        outcome: Result<(), RegistrationRegistryError>,
    ) -> (result: Result<(), RegistrationRegistryError>)
        requires
            old(self).wf(),
        ensures
            final(self).wf(),
            registrations_finished(
                *old(self),
                *final(self),
                *controller,
                lookup::target(config),
                stage,
                affected,
                outcome,
                result,
            ),
    {
        let ghost before = *self;
        let index = match position(
            &self.staged_contexts,
            |pending: &PendingRegistrationContexts| -> (found: bool)
                ensures
                    found == (pending.stage == stage)
                { pending.stage == stage },
            Ghost(pending_of(stage)),
        ) {
            Some(index) => index,
            None => return Err(RegistrationRegistryError::Unavailable),
        };
        let previous = self.staged_contexts[index].previous;
        let registered = copied_devices(&self.staged_contexts[index].registered);
        retain(
            &mut self.staged_contexts,
            |pending: &PendingRegistrationContexts| -> (keep: bool)
                ensures
                    keep == (pending.stage != stage)
                { pending.stage != stage },
            Ghost(lookup::not(pending_of(stage))),
        );
        proof {
            lemma_pending_below(
                before.staged_contexts@,
                lookup::not(pending_of(stage)),
                before.next_stage,
            );
        }
        match affected {
            Some(affected) => {
                let mut i: usize = 0;
                let ghost now = *self;
                while i < affected.len()
                    invariant
                        0 <= i <= affected@.len(),
                        *self == (PresenceOwner { contexts: self.contexts, ..now }),
                        self.contexts == (RuntimeRegistrationContexts {
                            suppressed_devices: self.contexts.suppressed_devices,
                            ..now.contexts
                        }),
                        self.contexts.suppressed_devices@ == suppressed_with_all(
                            now.contexts.suppressed_devices@,
                            affected@,
                            i as nat,
                        ),
                    decreases affected@.len() - i,
                {
                    self.contexts.suppress(affected[i].clone());
                    i += 1;
                }
                match config {
                    Some(config) => {
                        retain(
                            &mut self.contexts.suppressed_devices,
                            |device: &DeviceId| -> (keep: bool)
                                ensures
                                    keep == (lookup::first(
                                        config.devices@,
                                        config::is_device(device@),
                                    ) is Some)
                                { config.device(device).is_some() },
                            Ghost(has_config(*config)),
                        );
                    },
                    None => {},
                }
                Ok(())
            },
            None => {
                let registered = present_devices(controller, registered);
                self.contexts.reconcile(previous, registered, outcome)
            },
        }
    }
}

/// What completing a prepared change led to.
#[derive(Debug, PartialEq, Eq)]
pub enum StageResult {
    Mwi(MwiFinish),
    Registrations(Result<(), RegistrationRegistryError>),
}

impl PresenceOwner {
    /// Completes or gives up a prepared change of either sort.
    pub fn finish(
        &mut self,
        controller: &ControllerSnapshot,
        config: Option<&ModuleConfig>,
        finish: StageFinish,
        outcome: Result<(), RegistrationRegistryError>,
    ) -> (result: StageResult)
        requires
            old(self).wf(),
        ensures
            final(self).wf(),
            match finish {
                StageFinish::Mwi { stage, removed } => result matches StageResult::Mwi(finished)
                    && mwi_finished(*old(self), *final(self), stage, removed, finished),
                StageFinish::Registrations { stage, affected } => result
                    matches StageResult::Registrations(finished) && registrations_finished(
                    *old(self),
                    *final(self),
                    *controller,
                    lookup::target(config),
                    stage,
                    affected,
                    outcome,
                    finished,
                ),
            },
    {
        match finish {
            StageFinish::Mwi { stage, removed } => StageResult::Mwi(
                self.finish_mwi(stage, removed),
            ),
            StageFinish::Registrations { stage, affected } => StageResult::Registrations(
                self.finish_registrations(controller, config, stage, affected, outcome),
            ),
        }
    }
}

fn copied_devices(devices: &Vec<DeviceId>) -> (copy: Vec<DeviceId>)
    ensures
        copy@ == devices@,
{
    let mut copy: Vec<DeviceId> = Vec::new();
    let mut i: usize = 0;
    while i < devices.len()
        invariant
            0 <= i <= devices@.len(),
            copy@ == devices@.take(i as int),
        decreases devices@.len() - i,
    {
        copy.push(devices[i].clone());
        proof {
            assert(devices@.take(i + 1) =~= devices@.take(i as int).push(devices@[i as int]));
        }
        i += 1;
    }
    proof {
        assert(devices@.take(i as int) =~= devices@);
    }
    copy
}

/// A change of a watched hint. What the switch says of its state and of the
/// calling party is carried through.
#[derive(Debug, PartialEq, Eq)]
pub struct BlfEvent<S, C> {
    pub device_id: DeviceId,
    pub instance: u32,
    /// The hint reports nothing further.
    pub terminal: bool,
    pub state: S,
    pub caller: C,
}

/// What follows from a change of a hint.
#[derive(Debug, PartialEq, Eq)]
pub enum BlfStep<S, C> {
    /// The watcher hears of it, and tries a hint that ended again.
    Retry { device_id: DeviceId, instance: u32, terminal: bool },
    /// What else waits of the hint is given up.
    Discard(Discard),
    /// The station's button shows the state.
    SetBlfStatus { device_id: DeviceId, instance: u32, state: S, caller: C },
}

impl PresenceOwner {
    /// The steps that follow from a change of a hint, in order.
    pub open spec fn blf_steps_spec<S, C>(
        self,
        controller: ControllerSnapshot,
        event: BlfEvent<S, C>,
        watched: bool,
    ) -> Seq<BlfStep<S, C>> {
        let current = match lookup::first(self.plans@, plan_of(event.device_id@)) {
            Some(plan) => controller.session_current_spec(event.device_id@, plan.session),
            None => false,
        };
        let BlfEvent { device_id, instance, terminal, state, caller } = event;
        let retry = BlfStep::<S, C>::Retry { device_id, instance, terminal };
        let show = BlfStep::<S, C>::SetBlfStatus { device_id, instance, state, caller };
        if !watched || !current {
            Seq::empty()
        } else if terminal {
            seq![retry, BlfStep::Discard(Discard::Hint { device: device_id, instance }), show]
        } else {
            seq![retry, show]
        }
    }
}

/// What becomes of news from a mailbox.
#[derive(Clone, Copy, Debug, PartialEq, Eq, Structural)]
pub enum MwiUpdate {
    /// The line's subscription sent it.
    Announce,
    /// A subscription that has yet to take effect sent it.
    Held,
    /// A subscription that ended sent it.
    Ignored,
}

/// The prepared subscription with what it last heard.
pub open spec fn having_heard(staged: StagedMwiEntry, active: bool) -> StagedMwiEntry {
    StagedMwiEntry { entry: MwiEntry { latest: Some(active), ..staged.entry }, ..staged }
}

pub open spec fn mwi_updated(
    before: PresenceOwner,
    after: PresenceOwner,
    line: Seq<char>,
    generation: u64,
    active: bool,
    update: MwiUpdate,
) -> bool {
    let current = match lookup::first(before.mwi@, entry_of(line)) {
        Some(entry) => entry.generation == generation,
        None => false,
    };
    if current {
        after == before && update == MwiUpdate::Announce
    } else {
        match lookup::first_at(before.staged@, staged_as(line, generation), 0) {
            Some(i) => {
                &&& update == MwiUpdate::Held
                &&& after == (PresenceOwner { staged: after.staged, ..before })
                &&& after.staged@ == before.staged@.update(
                    i,
                    having_heard(before.staged@[i], active),
                )
            },
            None => after == before && update == MwiUpdate::Ignored,
        }
    }
}

impl PresenceOwner {
    /// Takes news from a mailbox.
    pub fn update_mwi(&mut self, line: &str, generation: u64, active: bool) -> (update: MwiUpdate)
        requires
            old(self).wf(),
        ensures
            final(self).wf(),
            mwi_updated(*old(self), *final(self), line@, generation, active, update),
    {
        let current = match find(
            &self.mwi,
            |entry: &MwiEntry| -> (found: bool)
                ensures
                    found == (entry.line@ == line@)
                { same_text(entry.line.as_str(), line) },
            Ghost(entry_of(line@)),
        ) {
            Some(entry) => entry.generation == generation,
            None => false,
        };
        if current {
            return MwiUpdate::Announce;
        }
        match position(
            &self.staged,
            |staged: &StagedMwiEntry| -> (found: bool)
                ensures
                    found == (staged.entry.line@ == line@ && staged.entry.generation == generation)
                {
                    same_text(staged.entry.line.as_str(), line) && staged.entry.generation
                        == generation
                },
            Ghost(staged_as(line@, generation)),
        ) {
            Some(index) => {
                let ghost before = self.staged@;
                let mut staged = self.staged.remove(index);
                staged.entry.latest = Some(active);
                self.staged.insert(index, staged);
                proof {
                    let heard = having_heard(before[index as int], active);
                    assert(self.staged@ =~= before.update(index as int, heard));
                    assert forall|k: int| 0 <= k < self.staged@.len() implies (
                    #[trigger] self.staged@[k]).entry.generation < self.next_mwi_generation by {
                        assert(before[k].entry.generation < self.next_mwi_generation);
                    }
                }
                MwiUpdate::Held
            },
            None => MwiUpdate::Ignored,
        }
    }

    /// What follows from a change of a hint: nothing unless the hint is the one
    /// that is watched, under the registration that stands.
    pub fn update_blf<S, C>(
        &self,
        controller: &ControllerSnapshot,
        event: BlfEvent<S, C>,
        watched: bool,
    ) -> (steps: Vec<BlfStep<S, C>>)
        ensures
            steps@ == self.blf_steps_spec(*controller, event, watched),
    {
        if !watched {
            return Vec::new();
        }
        let BlfEvent { device_id, instance, terminal, state, caller } = event;
        let current = match find(
            &self.plans,
            |plan: &BlfPlan| -> (found: bool)
                ensures
                    found == (plan.device@ == device_id@)
                { plan.device.same(&device_id) },
            Ghost(plan_of(device_id@)),
        ) {
            Some(plan) => controller.session_is_current(&device_id, plan.session),
            None => false,
        };
        if !current {
            return Vec::new();
        }
        let mut steps: Vec<BlfStep<S, C>> = Vec::new();
        steps.push(BlfStep::Retry { device_id: device_id.clone(), instance, terminal });
        if terminal {
            steps.push(BlfStep::Discard(Discard::Hint { device: device_id.clone(), instance }));
        }
        steps.push(BlfStep::SetBlfStatus { device_id, instance, state, caller });
        steps
    }
}

/// What the switch answers to the requests of a command.
#[derive(Debug, PartialEq, Eq)]
pub struct PresenceFacts {
    /// How many hints are watched.
    pub hints: usize,
    /// The hints that may be tried again.
    pub due: Vec<DueHint>,
    /// The answers to the subscriptions that the command brings, in order.
    pub subscribed: Vec<Result<(), String>>,
    /// The answer to the extensions that the command brings.
    pub reconciled: Result<(), RegistrationRegistryError>,
}

/// What a command comes to.
#[derive(Debug, PartialEq, Eq)]
pub enum PresenceReply {
    /// Whether the plan of hints changed, and what is given up with it.
    Hints { changed: bool, discarded: Option<Discard> },
    /// The hints to try again.
    Retry(Vec<HintRetry>),
    Replaced(MwiReplacement),
    Retired(Vec<MwiKey>),
    /// Whether the state of the line has to be announced.
    Announce(bool),
    Registered(Result<(), RegistrationRegistryError>),
    StagedRegistrations(Result<StageId, RegistrationRegistryError>),
    StagedMwi(Result<StageId, MwiStageRefusal>),
}

/// The answers that the command needs are there.
pub open spec fn answers(
    owner: PresenceOwner,
    command: PresenceCommand,
    facts: PresenceFacts,
) -> bool {
    match command {
        PresenceCommand::InstallMwi { subscriptions } => owner.installation_answered(
            facts.hints,
            subscriptions@.len(),
            facts.subscribed@,
        ),
        PresenceCommand::StageMwi { changes } => owner.staging_answered(
            facts.hints,
            changes@.len(),
            facts.subscribed@,
        ),
        _ => true,
    }
}

pub open spec fn executed(
    before: PresenceOwner,
    after: PresenceOwner,
    access: Access,
    command: PresenceCommand,
    facts: PresenceFacts,
    reply: PresenceReply,
) -> bool {
    let controller = access.shared.controller;
    match command {
        PresenceCommand::InstallBlf { device, session, plan } => {
            &&& reply matches PresenceReply::Hints { changed, discarded }
            &&& blf_installed(before, after, controller, device, session, plan, changed)
            &&& discarded == hints_discarded(device, changed)
        },
        PresenceCommand::RemoveBlf { device, only_session } => {
            &&& reply matches PresenceReply::Hints { changed, discarded }
            &&& blf_removed(before, after, device, only_session, changed)
            &&& discarded == hints_discarded(device, changed)
        },
        PresenceCommand::RetryBlf { .. } => {
            &&& after == before
            &&& reply matches PresenceReply::Retry(retries)
            &&& retries@ == before.retries_spec(controller, facts.due@, facts.hints)
        },
        PresenceCommand::InstallMwi { subscriptions } => {
            &&& reply matches PresenceReply::Replaced(replacement)
            &&& mwi_installed(
                before,
                after,
                facts.hints,
                subscriptions@,
                facts.subscribed@,
                replacement,
            )
        },
        PresenceCommand::ClearMwi => {
            &&& reply matches PresenceReply::Retired(retired)
            &&& after == (PresenceOwner { mwi: after.mwi, ..before })
            &&& after.mwi@.len() == 0
            &&& retired@ == before.mwi@.map_values(key_of())
        },
        PresenceCommand::PublishLine { line, state } => {
            &&& reply matches PresenceReply::Announce(announce)
            &&& line_published(before, after, access.shared.config, line, state, announce)
        },
        PresenceCommand::RegisterContexts { config, registered, device } => {
            &&& reply == PresenceReply::Registered(facts.reconciled)
            &&& contexts_registered(
                before,
                after,
                controller,
                config,
                registered@,
                device,
                facts.reconciled,
            )
        },
        PresenceCommand::StageRegistrations {
            config,
            registered,
            previous,
            previous_registered,
        } => {
            &&& reply matches PresenceReply::StagedRegistrations(result)
            &&& registrations_staged(
                before,
                after,
                controller,
                config,
                registered@,
                previous,
                previous_registered,
                facts.reconciled,
                result,
            )
        },
        PresenceCommand::StageMwi { changes } => {
            &&& reply matches PresenceReply::StagedMwi(result)
            &&& mwi_staged(before, after, facts.hints, changes@, facts.subscribed@, result)
        },
    }
}

/// An attempt to subscribe that the switch is asked for.
#[derive(Debug, PartialEq, Eq)]
pub struct MwiAttempt<'a> {
    pub subscription: &'a MwiSubscription,
    pub generation: u64,
}

/// The extensions that the switch is asked for: those of these stations, as this
/// reading of the configuration has them.
#[derive(Debug, PartialEq, Eq)]
pub struct ExtensionRequest {
    pub config: ConfigVersion,
    pub targets: Vec<DeviceId>,
}

impl PresenceOwner {
    /// Whether a further attempt follows those that were answered.
    pub open spec fn attempts_on(
        self,
        command: PresenceCommand,
        hints: usize,
        answered: Seq<Result<(), String>>,
    ) -> bool {
        match command {
            PresenceCommand::InstallMwi { subscriptions } => {
                &&& self.count_spec(hints) + subscriptions@.len() <= self.capacity
                &&& answered.len() < reached(subscriptions@.len(), self.next_mwi_generation)
            },
            PresenceCommand::StageMwi { changes } => {
                &&& self.count_spec(hints) + changes@.len() <= self.capacity
                &&& self.next_stage < u64::MAX
                &&& answered.len() < reached(changes@.len(), self.next_mwi_generation)
                &&& forall|i: int| 0 <= i < answered.len() ==> (#[trigger] answered[i]) is Ok
            },
            _ => false,
        }
    }

    /// The subscriptions that a command brings.
    pub open spec fn subscriptions_of(command: PresenceCommand) -> Seq<MwiSubscription> {
        match command {
            PresenceCommand::InstallMwi { subscriptions } => subscriptions@,
            PresenceCommand::StageMwi { changes } => changes@,
            _ => Seq::empty(),
        }
    }

    /// The attempt that follows those that were answered, until the command has all
    /// the answers that it needs.
    pub fn next_attempt<'a>(
        &self,
        command: &'a PresenceCommand,
        hints: usize,
        answered: &Vec<Result<(), String>>,
    ) -> (attempt: Option<MwiAttempt<'a>>)
        ensures
            attempt == if self.attempts_on(*command, hints, answered@) {
                Some(
                    MwiAttempt {
                        subscription: &Self::subscriptions_of(
                            *command,
                        )[answered@.len() as int],
                        generation: (self.next_mwi_generation + answered@.len()) as u64,
                    },
                )
            } else {
                None
            },
            attempt is None ==> forall|facts: PresenceFacts|
                facts.hints == hints && facts.subscribed == *answered ==> #[trigger] answers(
                    *self,
                    *command,
                    facts,
                ),
    {
        let (wanted, staged) = match command {
            PresenceCommand::InstallMwi { subscriptions } => (subscriptions, false),
            PresenceCommand::StageMwi { changes } => (changes, true),
            _ => return None,
        };
        if !self.fits(hints, wanted.len()) {
            return None;
        }
        if staged {
            if self.next_stage == u64::MAX {
                return None;
            }
            let mut i: usize = 0;
            while i < answered.len()
                invariant
                    0 <= i <= answered@.len(),
                    forall|j: int| 0 <= j < i ==> (#[trigger] answered@[j]) is Ok,
                    command is StageMwi,
                    staged,
                decreases answered@.len() - i,
            {
                if answered[i].is_err() {
                    assert(answered@[i as int] is Err);
                    return None;
                }
                i += 1;
            }
        }
        let left: u64 = u64::MAX - self.next_mwi_generation;
        if answered.len() >= wanted.len() || answered.len() as u64 >= left {
            return None;
        }
        Some(
            MwiAttempt {
                subscription: &wanted[answered.len()],
                generation: self.next_mwi_generation + answered.len() as u64,
            },
        )
    }

    /// The extensions that a command asks the switch for.
    pub fn command_extensions(&self, controller: &ControllerSnapshot, command: &PresenceCommand) ->
        (request: Option<ExtensionRequest>)
        ensures
            match *command {
                PresenceCommand::RegisterContexts { config, registered, device } => {
                    &&& request matches Some(request)
                    &&& request.config == config
                    &&& request.targets@ == self.registration_targets_spec(
                        *controller,
                        registered@,
                        device,
                    )
                },
                PresenceCommand::StageRegistrations { config, registered, .. } => match request {
                    Some(request) => {
                        &&& self.next_stage < u64::MAX
                        &&& request.config == config
                        &&& request.targets@ == self.targets_spec(*controller, registered@)
                    },
                    None => self.next_stage == u64::MAX,
                },
                _ => request is None,
            },
    {
        match command {
            PresenceCommand::RegisterContexts { config, registered, device } => Some(
                ExtensionRequest {
                    config: *config,
                    targets: self.registration_targets(controller, registered, device),
                },
            ),
            PresenceCommand::StageRegistrations { config, registered, .. } => {
                if self.next_stage == u64::MAX {
                    None
                } else {
                    Some(
                        ExtensionRequest {
                            config: *config,
                            targets: self.staging_targets(controller, registered),
                        },
                    )
                }
            },
            _ => None,
        }
    }

    /// The extensions that the end of a change asks the switch for: those from before
    /// it, where it is given up.
    pub fn finish_extensions(&self, controller: &ControllerSnapshot, finish: &StageFinish) ->
        (request: Option<ExtensionRequest>)
        ensures
            match *finish {
                StageFinish::Registrations { stage, affected: None } => match lookup::first(
                    self.staged_contexts@,
                    pending_of(stage),
                ) {
                    Some(pending) => {
                        &&& request matches Some(request)
                        &&& request.config == pending.previous
                        &&& request.targets@ == self.targets_spec(
                            *controller,
                            pending.registered@,
                        )
                    },
                    None => request is None,
                },
                _ => request is None,
            },
    {
        match finish {
            StageFinish::Registrations { stage, affected: None } => {
                let given_up: StageId = *stage;
                match find(
                    &self.staged_contexts,
                    |pending: &PendingRegistrationContexts| -> (found: bool)
                        ensures
                            found == (pending.stage == given_up)
                        { pending.stage == given_up },
                    Ghost(pending_of(given_up)),
                ) {
                    Some(pending) => Some(
                        ExtensionRequest {
                            config: pending.previous,
                            targets: self.staging_targets(controller, &pending.registered),
                        },
                    ),
                    None => None,
                }
            },
            _ => None,
        }
    }

    /// The extensions that the switch is asked for where stations have gone; nothing
    /// before any were published.
    pub fn retirement_extensions(&self, controller: &ControllerSnapshot) -> (request: Option<
        ExtensionRequest,
    >)
        ensures
            match self.contexts.config {
                Some(config) => {
                    &&& request matches Some(request)
                    &&& request.config == config
                    &&& request.targets@ == self.targets_spec(
                        *controller,
                        self.contexts.registered@,
                    )
                },
                None => request is None,
            },
    {
        match self.contexts.config {
            Some(config) => Some(
                ExtensionRequest {
                    config,
                    targets: self.staging_targets(controller, &self.contexts.registered),
                },
            ),
            None => None,
        }
    }
}

impl PresenceOwner {
    /// Executes one command.
    pub fn execute(&mut self, access: &Access, command: PresenceCommand, facts: &PresenceFacts) ->
        (reply: PresenceReply)
        requires
            old(self).wf(),
            answers(*old(self), command, *facts),
        ensures
            final(self).wf(),
            executed(*old(self), *final(self), *access, command, *facts, reply),
    {
        let controller = &access.shared.controller;
        match command {
            PresenceCommand::InstallBlf { device, session, plan } => {
                let watcher = device.clone();
                let changed = self.install_blf(controller, device, session, plan);
                PresenceReply::Hints {
                    changed,
                    discarded: if changed {
                        Some(Discard::Hints(watcher))
                    } else {
                        None
                    },
                }
            },
            PresenceCommand::RemoveBlf { device, only_session } => {
                let changed = self.remove_blf(&device, only_session);
                PresenceReply::Hints {
                    changed,
                    discarded: if changed {
                        Some(Discard::Hints(device))
                    } else {
                        None
                    },
                }
            },
            PresenceCommand::RetryBlf { .. } => PresenceReply::Retry(
                self.retry_hints(controller, &facts.due, facts.hints),
            ),
            PresenceCommand::InstallMwi { subscriptions } => PresenceReply::Replaced(
                self.install_mwi(facts.hints, &subscriptions, &facts.subscribed),
            ),
            PresenceCommand::ClearMwi => PresenceReply::Retired(self.clear_mwi()),
            PresenceCommand::PublishLine { line, state } => PresenceReply::Announce(
                self.publish_line(&access.shared.config, line, state),
            ),
            PresenceCommand::RegisterContexts { config, registered, device } => {
                PresenceReply::Registered(
                    self.register_contexts(controller, config, registered, device, facts.reconciled),
                )
            },
            PresenceCommand::StageRegistrations {
                config,
                registered,
                previous,
                previous_registered,
            } => PresenceReply::StagedRegistrations(
                self.stage_registrations(
                    controller,
                    config,
                    registered,
                    previous,
                    previous_registered,
                    facts.reconciled,
                ),
            ),
            PresenceCommand::StageMwi { changes } => PresenceReply::StagedMwi(
                self.stage_mwi(facts.hints, &changes, &facts.subscribed),
            ),
        }
    }
}

/// What wakes the owner.
#[derive(Clone, Copy, Debug, PartialEq, Eq, Structural)]
pub enum PresenceTurn {
    /// No further command will come.
    CommandsClosed,
    /// A command came, in time or too late.
    Command { expired: bool },
    Finish,
    Updates,
    /// Registrations have ended.
    RetiredContexts,
}

/// Where the owner's loop stands.
#[derive(Clone, Copy, Debug, PartialEq, Eq, Structural)]
pub struct PresenceLoop {
    pub commands_open: bool,
    pub retired_contexts: bool,
}

/// What a turn goes on to.
#[derive(Clone, Copy, Debug, PartialEq, Eq, Structural)]
pub struct TurnWork {
    /// The command came too late and the turn ends.
    pub skipped: bool,
    /// Hints of ended registrations are given up.
    pub retire_hints: bool,
    /// Extensions of stations that have gone are dropped.
    pub retire_contexts: bool,
}

impl PresenceLoop {
    pub fn new() -> (turns: PresenceLoop)
        ensures
            turns == (PresenceLoop { commands_open: true, retired_contexts: false }),
    {
        PresenceLoop { commands_open: true, retired_contexts: false }
    }

    /// Whether the owner is done: no command will come, and every prepared change
    /// has ended.
    pub fn finished(&self, owner: &PresenceOwner) -> (finished: bool)
        ensures
            finished == (!self.commands_open && owner.stages@.len() == 0
                && owner.staged_contexts@.len() == 0),
    {
        !self.commands_open && owner.stages.len() == 0 && owner.staged_contexts.len() == 0
    }

    /// Takes one turn. `pending` says whether a change of the extensions is
    /// prepared once the turn's command or completion is done: until none is,
    /// the extensions of ended registrations stay.
    pub fn run(&mut self, turn: PresenceTurn, pending: bool) -> (work: TurnWork)
        ensures
            ({
                let retired = old(self).retired_contexts || turn == PresenceTurn::RetiredContexts;
                let skipped = turn == (PresenceTurn::Command { expired: true });
                &&& final(self).commands_open == (old(self).commands_open && turn
                    != PresenceTurn::CommandsClosed)
                &&& work.skipped == skipped
                &&& work.retire_hints == (retired && !skipped)
                &&& work.retire_contexts == (retired && !skipped && !pending)
                &&& final(self).retired_contexts == (retired && !work.retire_contexts)
            }),
    {
        match turn {
            PresenceTurn::CommandsClosed => {
                self.commands_open = false;
            },
            PresenceTurn::Command { expired } => {
                if expired {
                    return TurnWork {
                        skipped: true,
                        retire_hints: false,
                        retire_contexts: false,
                    };
                }
            },
            PresenceTurn::RetiredContexts => {
                self.retired_contexts = true;
            },
            PresenceTurn::Finish | PresenceTurn::Updates => {},
        }
        let retire_hints = self.retired_contexts;
        let retire_contexts = self.retired_contexts && !pending;
        if retire_contexts {
            self.retired_contexts = false;
        }
        TurnWork { skipped: false, retire_hints, retire_contexts }
    }
}

/// A prepared change of subscriptions, held by whoever asked for it.
#[derive(Debug, PartialEq, Eq)]
pub struct StagedMwiSubscriptions {
    pub stage: StageId,
    /// The change has not ended.
    pub pending: bool,
}

/// How far preparing a change got.
#[derive(Debug, PartialEq, Eq)]
pub enum StageAnswer<T, E> {
    /// There was no room for its completion.
    NoCapacity,
    /// The owner could not be asked.
    NotSent(E),
    /// The owner did not answer in time.
    NoReply,
    Replied(Result<T, E>),
}

impl StagedMwiSubscriptions {
    /// What came of asking for a change.
    pub fn new(answer: StageAnswer<StageId, String>) -> (staged: Result<
        StagedMwiSubscriptions,
        String,
    >)
        ensures
            match answer {
                StageAnswer::NoCapacity => staged matches Err(words) && words@
                    == "presence transaction completion capacity unavailable"@,
                StageAnswer::NotSent(words) => staged == Err::<StagedMwiSubscriptions, String>(
                    words,
                ),
                StageAnswer::NoReply => staged matches Err(words) && words@
                    == "presence transaction result unavailable"@,
                StageAnswer::Replied(Ok(stage)) => staged == Ok::<StagedMwiSubscriptions, String>(
                    StagedMwiSubscriptions { stage, pending: true },
                ),
                StageAnswer::Replied(Err(words)) => staged == Err::<
                    StagedMwiSubscriptions,
                    String,
                >(words),
            },
    {
        match answer {
            StageAnswer::NoCapacity => Err(
                "presence transaction completion capacity unavailable".to_owned(),
            ),
            StageAnswer::NotSent(words) => Err(words),
            StageAnswer::NoReply => Err("presence transaction result unavailable".to_owned()),
            StageAnswer::Replied(Ok(stage)) => Ok(StagedMwiSubscriptions { stage, pending: true }),
            StageAnswer::Replied(Err(words)) => Err(words),
        }
    }

    /// Completes the change; `removed` are the lines that lose theirs.
    pub fn commit(&mut self, removed: Vec<String>) -> (finish: Option<StageFinish>)
        ensures
            final(self).stage == old(self).stage,
            !final(self).pending,
            finish == if old(self).pending {
                Some(StageFinish::Mwi { stage: old(self).stage, removed: Some(removed) })
            } else {
                None
            },
    {
        if self.pending {
            self.pending = false;
            Some(StageFinish::Mwi { stage: self.stage, removed: Some(removed) })
        } else {
            None
        }
    }

    /// Gives the change up, unless it was completed.
    pub fn cancel(&mut self) -> (finish: Option<StageFinish>)
        ensures
            final(self).stage == old(self).stage,
            !final(self).pending,
            finish == if old(self).pending {
                Some(StageFinish::Mwi { stage: old(self).stage, removed: None })
            } else {
                None
            },
    {
        if self.pending {
            self.pending = false;
            Some(StageFinish::Mwi { stage: self.stage, removed: None })
        } else {
            None
        }
    }
}

/// A prepared change of the extensions, held by whoever asked for it.
#[derive(Debug, PartialEq, Eq)]
pub struct StagedRegistrationContexts {
    pub stage: StageId,
    pub pending: bool,
}

impl StagedRegistrationContexts {
    /// What came of asking for a change.
    pub fn new(answer: StageAnswer<StageId, RegistrationRegistryError>) -> (staged: Result<
        StagedRegistrationContexts,
        RegistrationRegistryError,
    >)
        ensures
            staged == match answer {
                StageAnswer::Replied(Ok(stage)) => Ok(
                    StagedRegistrationContexts { stage, pending: true },
                ),
                StageAnswer::Replied(Err(error)) => Err(error),
                _ => Err(RegistrationRegistryError::Unavailable),
            },
    {
        match answer {
            StageAnswer::Replied(Ok(stage)) => Ok(
                StagedRegistrationContexts { stage, pending: true },
            ),
            StageAnswer::Replied(Err(error)) => Err(error),
            _ => Err(RegistrationRegistryError::Unavailable),
        }
    }

    /// Completes the change.
    pub fn commit(&mut self, affected: Vec<DeviceId>) -> (finish: Option<StageFinish>)
        ensures
            final(self).stage == old(self).stage,
            !final(self).pending,
            finish == if old(self).pending {
                Some(
                    StageFinish::Registrations { stage: old(self).stage, affected: Some(affected) },
                )
            } else {
                None
            },
    {
        self.complete(Some(affected))
    }

    /// Goes back to what was before the change.
    pub fn abort(&mut self) -> (finish: Option<StageFinish>)
        ensures
            final(self).stage == old(self).stage,
            !final(self).pending,
            finish == if old(self).pending {
                Some(StageFinish::Registrations { stage: old(self).stage, affected: None })
            } else {
                None
            },
    {
        self.complete(None)
    }

    fn complete(&mut self, affected: Option<Vec<DeviceId>>) -> (finish: Option<StageFinish>)
        ensures
            final(self).stage == old(self).stage,
            !final(self).pending,
            finish == if old(self).pending {
                Some(StageFinish::Registrations { stage: old(self).stage, affected })
            } else {
                None
            },
    {
        if self.pending {
            self.pending = false;
            Some(StageFinish::Registrations { stage: self.stage, affected })
        } else {
            None
        }
    }
}

/// A new subscription never gets the generation of one that is held, so news of
/// an earlier subscription is not taken for its own.
pub proof fn law_generations_are_fresh(
    owner: PresenceOwner,
    line: String,
    outcome: Result<(), String>,
    entry: MwiEntry,
    after: u64,
    i: int,
)
    requires
        owner.wf(),
        subscribed_spec(owner.next_mwi_generation, line, outcome, Ok(entry), after),
    ensures
        0 <= i < owner.mwi@.len() ==> owner.mwi@[i].generation != entry.generation,
        0 <= i < owner.staged@.len() ==> owner.staged@[i].entry.generation != entry.generation,
{
}

/// Giving up a prepared change of subscriptions leaves the effective ones as
/// they were before it was prepared.
pub proof fn law_given_up_changes_leave_no_trace(
    before: PresenceOwner,
    prepared: PresenceOwner,
    after: PresenceOwner,
    hints: usize,
    changes: Seq<MwiSubscription>,
    outcomes: Seq<Result<(), String>>,
    stage: StageId,
    finish: MwiFinish,
)
    requires
        before.wf(),
        mwi_staged(before, prepared, hints, changes, outcomes, Ok(stage)),
        mwi_finished(prepared, after, stage, None, finish),
    ensures
        after.mwi == before.mwi,
        after.published == before.published,
        after.plans == before.plans,
        after.contexts == before.contexts,
{
}

/// Trying hints again never takes more subscriptions than there may be.
pub proof fn law_retried_hints_fit(
    owner: PresenceOwner,
    controller: ControllerSnapshot,
    due: Seq<DueHint>,
    hints: usize,
)
    requires
        owner.count_spec(hints) <= owner.capacity,
    ensures
        owner.count_spec(hints) + owner.retries_spec(controller, due, hints).len()
            <= owner.capacity,
{
}

/// What is announced of a line is never announced twice in a row.
pub proof fn law_states_are_announced_once(
    first: PresenceOwner,
    second: PresenceOwner,
    third: PresenceOwner,
    config: ModuleConfig,
    line: String,
    state: DeviceState,
    announced: bool,
    again: bool,
)
    requires
        line_published(first, second, config, line, state, announced),
        line_published(second, third, config, line, state, again),
        lookup::first(config.lines@, config::is_line(line@)) is Some,
    ensures
        !again,
{
    let kept = first.published@.filter(still_configured(config));
    let p = published_as(line@);
    let q = still_configured(config);
    if announced {
        let rest = kept.filter(lookup::not(p));
        let entry = PublishedLine { line, state };
        lookup::lemma_first_push(rest, entry, p);
        lemma_no_match_in_rest(kept, p);
        assert(lookup::first(second.published@, p) == Some(entry));
    }
    assert forall|x: PublishedLine| p(x) implies #[trigger] q(x) by {}
    lookup::lemma_first_of_filter(second.published@, q, p);
}

proof fn lemma_no_match_in_rest<T>(s: Seq<T>, p: spec_fn(T) -> bool)
    ensures
        lookup::first(s.filter(lookup::not(p)), p) is None,
{
    lookup::lemma_first_at(s.filter(lookup::not(p)), p, 0);
    let rest = s.filter(lookup::not(p));
    if lookup::first_at(rest, p, 0) is Some {
        let i = lookup::first_at(rest, p, 0)->0;
        lookup::lemma_filter_member(s, lookup::not(p), i);
    }
}

/// Every request to the owner says what it is for: the line with its present state,
/// the stations whose contexts are published, and the watched states of a station,
/// of one session where one is named.
pub proof fn law_requests_name_their_subject(
    access: &Access,
    line: &str,
    config: ConfigVersion,
    registered: Vec<DeviceId>,
    device: DeviceId,
    generation: SessionGeneration,
    now: u64,
    state: DeviceState,
    published: PresenceCommand,
    contexts: PresenceCommand,
    all: PresenceCommand,
    one: PresenceCommand,
    retried: PresenceCommand,
    cleared: PresenceCommand,
    reply: Option<Result<(), RegistrationRegistryError>>,
    result: Result<(), RegistrationRegistryError>,
)
    requires
        call_ensures(device_state, (access, line), state),
        call_ensures(publish_line, (access, line), published),
        call_ensures(publish_registration_contexts, (config, registered, device), contexts),
        call_ensures(uninstall_device_blf, (&device,), all),
        call_ensures(uninstall_device_blf_for_session, (&device, generation), one),
        call_ensures(retry_blf, (now,), retried),
        call_ensures(uninstall_mwi, (), cleared),
        call_ensures(registration_reply, (reply,), result),
    ensures
        published matches PresenceCommand::PublishLine { line: named, state: shown } && named@
            == line@ && shown == state,
        contexts == (PresenceCommand::RegisterContexts { config, registered, device }),
        all matches PresenceCommand::RemoveBlf { device: of, only_session } && of == device
            && only_session is None,
        one matches PresenceCommand::RemoveBlf { device: of, only_session } && of == device
            && only_session == Some(generation),
        retried == (PresenceCommand::RetryBlf { now }),
        cleared is ClearMwi,
        reply matches Some(answer) ==> result == answer,
        reply is None ==> result == Err::<(), RegistrationRegistryError>(
            RegistrationRegistryError::Unavailable,
        ),
{
}

/// A station watches by the plan of its current session alone: a plan is taken
/// exactly in that session and replaces the one before, and is removed where no
/// session is named or its own is.
pub proof fn law_stations_watch_by_one_plan(
    installing: &mut PresenceOwner,
    removing: &mut PresenceOwner,
    controller: ControllerSnapshot,
    device: DeviceId,
    session: SessionGeneration,
    plan: Vec<BlfTarget>,
    only_session: Option<SessionGeneration>,
    installed: bool,
    removed: bool,
    other: BlfPlan,
    i: int,
)
    requires
        call_ensures(
            PresenceOwner::install_blf,
            (installing, &controller, device, session, plan),
            installed,
        ),
        call_ensures(PresenceOwner::remove_blf, (removing, &device, only_session), removed),
        0 <= i <= old(removing).plans@.len(),
        forall|j: int|
            0 <= j < i ==> (#[trigger] old(removing).plans@[j]).device@ != device@,
        i < old(removing).plans@.len() ==> old(removing).plans@[i].device@ == device@,
    ensures
        installed <==> controller.session_current_spec(device@, session),
        installed ==> final(installing).plans@.last() == (BlfPlan { device, session, plan }),
        installed && other.device@ == device@ && final(installing).plans@.contains(other)
            ==> other == (BlfPlan { device, session, plan }),
        other.device@ != device@ ==> (final(installing).plans@.contains(other) <==> old(
            installing,
        ).plans@.contains(other)),
        !installed ==> final(installing).plans@ == old(installing).plans@,
        removed <==> only_session is None || (i < old(removing).plans@.len() && only_session
            == Some(old(removing).plans@[i].session)),
        removed ==> (final(removing).plans@.contains(other) <==> old(removing).plans@.contains(
            other,
        ) && other.device@ != device@),
        !removed ==> final(removing).plans@ == old(removing).plans@,
        final(installing).mwi == old(installing).mwi && final(removing).mwi == old(removing).mwi,
{
    let p = plan_of(device@);
    lookup::lemma_filter_holds(old(installing).plans@, lookup::not(p), other);
    lookup::lemma_push_holds(
        old(installing).plans@.filter(lookup::not(p)),
        (BlfPlan { device, session, plan }),
        other,
    );
    lookup::lemma_filter_holds(old(removing).plans@, lookup::not(p), other);
    if i == old(removing).plans@.len() {
        lookup::lemma_first_none(old(removing).plans@, p);
    } else {
        lookup::lemma_first_is(old(removing).plans@, p, i);
    }
}

/// Plans of sessions that are over are retired with all that they watched, and the
/// others stay.
pub proof fn law_plans_of_ended_sessions_are_retired(
    owner: &mut PresenceOwner,
    controller: ControllerSnapshot,
    retired: RetiredHints,
    plan: BlfPlan,
    k: int,
)
    requires
        call_ensures(PresenceOwner::retire_blf_sessions, (owner, &controller), retired),
        0 <= k,
    ensures
        retired.plans@.contains(plan) <==> old(owner).plans@.contains(plan)
            && !controller.session_current_spec(plan.device@, plan.session),
        final(owner).plans@.contains(plan) <==> old(owner).plans@.contains(plan)
            && controller.session_current_spec(plan.device@, plan.session),
        retired.discarded@.len() == retired.plans@.len(),
        k < retired.plans@.len() ==> retired.discarded@[k] == Discard::Hints(
            retired.plans@[k].device,
        ),
{
    let p = plan_is_stale(controller);
    lookup::lemma_filter_holds(old(owner).plans@, p, plan);
    lookup::lemma_filter_holds(old(owner).plans@, lookup::not(p), plan);
}

/// States and mailboxes together never exceed the capacity: another one is
/// subscribed while there is room and put off otherwise, and the room that is left
/// is what may be tried again.
pub proof fn law_subscriptions_stay_within_the_capacity(
    owner: PresenceOwner,
    hints: usize,
    more: usize,
    plan: Vec<BlfTarget>,
    position: usize,
    count: usize,
    step: HintStep,
    remaining: usize,
    fits: bool,
)
    requires
        call_ensures(PresenceOwner::subscription_count, (&owner, hints), count),
        call_ensures(PresenceOwner::hint_step, (&owner, &plan, position, hints), step),
        call_ensures(PresenceOwner::retry_budget, (&owner, hints), remaining),
        call_ensures(PresenceOwner::fits, (&owner, hints, more), fits),
        hints + owner.mwi@.len() + owner.staged@.len() <= usize::MAX,
    ensures
        count == hints + owner.mwi@.len() + owner.staged@.len(),
        step is Finished <==> position >= plan@.len(),
        step is Subscribe <==> position < plan@.len() && count < owner.capacity,
        step is Defer <==> position < plan@.len() && count >= owner.capacity,
        count <= owner.capacity ==> remaining + count == owner.capacity,
        count > owner.capacity ==> remaining == 0,
        fits <==> count + more <= owner.capacity,
{
}

/// What a discard covers is what it names: all states of a station, one of them, or
/// the mailbox of a line in one generation.
pub proof fn law_discards_cover_what_they_name(discard: Discard, key: UpdateKey, covered: bool)
    requires
        call_ensures(Discard::covers, (&discard, &key), covered),
    ensures
        key matches UpdateKey::Blf { device, instance } ==> (covered <==> (discard matches
            Discard::Hints(retired) && retired@ == device@) || (discard matches Discard::Hint {
            device: retired,
            instance: ended,
        } && retired@ == device@ && ended == instance)),
        key matches UpdateKey::Mwi { line, generation } ==> (covered <==> (discard matches
            Discard::Mailbox(retired) && retired.line@ == line@ && retired.generation
            == generation)),
{
}

/// A line is announced exactly if its state is not the one that was announced last;
/// lines that are not configured any more are forgotten.
pub proof fn law_lines_are_announced_when_they_change(
    owner: &mut PresenceOwner,
    config: ModuleConfig,
    line: String,
    state: DeviceState,
    announce: bool,
    other: PublishedLine,
)
    requires
        call_ensures(PresenceOwner::publish_line, (owner, &config, line, state), announce),
        other.line@ != line@,
    ensures
        announce ==> final(owner).published@.last() == (PublishedLine { line, state }),
        !announce ==> exists|i: int|
            0 <= i < old(owner).published@.len() && (#[trigger] old(owner).published@[i]).line@
                == line@ && old(owner).published@[i].state == state,
        (exists|i: int|
            0 <= i < config.lines@.len() && (#[trigger] config.lines@[i]).number@ == other.line@)
            ==> (final(owner).published@.contains(other) <==> old(owner).published@.contains(other)),
        (forall|i: int|
            0 <= i < config.lines@.len() ==> (#[trigger] config.lines@[i]).number@ != other.line@)
            ==> !final(owner).published@.contains(other),
{
    let before = old(owner).published@;
    let q = still_configured(config);
    let p = published_as(line@);
    let kept = before.filter(q);
    lookup::lemma_filter_holds(before, q, other);
    lookup::lemma_filter_holds(kept, lookup::not(p), other);
    lookup::lemma_push_holds(
        kept.filter(lookup::not(p)),
        (PublishedLine { line, state }),
        other,
    );
    let r = config::is_line(other.line@);
    lookup::lemma_first_at(config.lines@, r, 0);
    if let Some(i) = lookup::first_at(config.lines@, r, 0) {
        assert(config.lines@[i].number@ == other.line@);
    } else {
        assert forall|i: int| 0 <= i < config.lines@.len() implies (
        #[trigger] config.lines@[i]).number@ != other.line@ by {
            assert(!r(config.lines@[i]));
        }
    }
    lookup::lemma_first_at(kept, p, 0);
    if !announce {
        let i = lookup::first_at(kept, p, 0)->0;
        lookup::lemma_filter_member(before, q, i);
        let k = choose|k: int| 0 <= k < before.len() && before[k] == kept[i];
        assert(before[k].line@ == line@);
    }
}

/// A line whose announced state differs is announced again.
pub proof fn law_changed_lines_are_announced(
    owner: &mut PresenceOwner,
    config: ModuleConfig,
    line: String,
    state: DeviceState,
    announce: bool,
)
    requires
        call_ensures(PresenceOwner::publish_line, (owner, &config, line, state), announce),
        forall|i: int|
            0 <= i < old(owner).published@.len() && (#[trigger] old(owner).published@[i]).line@
                == line@ ==> old(owner).published@[i].state != state,
    ensures
        announce,
{
    let before = old(owner).published@;
    let q = still_configured(config);
    let p = published_as(line@);
    let kept = before.filter(q);
    lookup::lemma_first_at(kept, p, 0);
    if let Some(i) = lookup::first_at(kept, p, 0) {
        lookup::lemma_filter_member(before, q, i);
        let k = choose|k: int| 0 <= k < before.len() && before[k] == kept[i];
        assert(before[k].line@ == line@);
    }
}

/// Contexts are published for the registered stations that are still there and not
/// held back. A station that registers is not held back any longer, unless its
/// contexts could not be published.
pub proof fn law_contexts_are_published_for_present_stations(
    owner: PresenceOwner,
    controller: ControllerSnapshot,
    registered: Vec<DeviceId>,
    device: DeviceId,
    targets: Vec<DeviceId>,
    staged: Vec<DeviceId>,
    present: Vec<DeviceId>,
    station: DeviceId,
)
    requires
        call_ensures(
            PresenceOwner::registration_targets,
            (&owner, &controller, &registered, &device),
            targets,
        ),
        call_ensures(
            PresenceOwner::staging_targets,
            (&owner, &controller, &registered),
            staged,
        ),
        call_ensures(present_devices, (&controller, registered), present),
    ensures
        ({
            let held_back = exists|i: int|
                0 <= i < owner.contexts.suppressed_devices@.len() && (
                #[trigger] owner.contexts.suppressed_devices@[i])@ == station@;
            let here = registered@.contains(station) && controller.registered_spec(station@);
            &&& present@.contains(station) <==> here
            &&& staged@.contains(station) <==> here && !held_back
            &&& targets@.contains(station) <==> here && (!held_back || station@ == device@)
        }),
{
    let suppressed = owner.contexts.suppressed_devices@;
    let released = owner.released_spec(controller, device);
    let p = is_present(controller);
    lookup::lemma_filter_holds(registered@, p, station);
    lookup::lemma_filter_holds(registered@.filter(p), not_suppressed(suppressed), station);
    lookup::lemma_filter_holds(registered@.filter(p), not_suppressed(released), station);
    lemma_held_back(suppressed, station);
    lemma_held_back(released, station);
    let n = is_named(device@);
    if lookup::some(suppressed, is_named(station@)) {
        let i = choose|i: int|
            0 <= i < suppressed.len() && is_named(station@)(#[trigger] suppressed[i]);
        lookup::lemma_filter_holds(suppressed, lookup::not(n), suppressed[i]);
        if station@ != device@ && controller.registered_spec(device@) {
            assert(released.contains(suppressed[i]));
            let k = choose|k: int| 0 <= k < released.len() && released[k] == suppressed[i];
            assert(is_named(station@)(released[k]));
        }
    }
    if lookup::some(released, is_named(station@)) && controller.registered_spec(device@) {
        let k = choose|k: int| 0 <= k < released.len() && is_named(station@)(#[trigger] released[k]);
        lookup::lemma_filter_member(suppressed, lookup::not(n), k);
        let i = choose|i: int| 0 <= i < suppressed.len() && suppressed[i] == released[k];
        assert(is_named(station@)(suppressed[i]));
    }
}

proof fn lemma_held_back(suppressed: Seq<DeviceId>, station: DeviceId)
    ensures
        lookup::some(suppressed, is_named(station@)) <==> exists|i: int|
            0 <= i < suppressed.len() && (#[trigger] suppressed[i])@ == station@,
{
    let p = is_named(station@);
    if lookup::some(suppressed, p) {
        let i = choose|i: int| 0 <= i < suppressed.len() && p(#[trigger] suppressed[i]);
        assert(suppressed[i]@ == station@);
    }
    if exists|i: int| 0 <= i < suppressed.len() && (#[trigger] suppressed[i])@ == station@ {
        let i = choose|i: int| 0 <= i < suppressed.len() && (#[trigger] suppressed[i])@ == station@;
        assert(p(suppressed[i]));
    }
}

/// A registration that was published takes over the configuration and the stations
/// that it was published for; one that was not leaves them and holds its station
/// back.
pub proof fn law_published_registrations_take_over(
    owner: &mut PresenceOwner,
    controller: ControllerSnapshot,
    config: ConfigVersion,
    registered: Vec<DeviceId>,
    device: DeviceId,
    before: PresenceOwner,
    targets: Vec<DeviceId>,
    outcome: Result<(), RegistrationRegistryError>,
    result: Result<(), RegistrationRegistryError>,
)
    requires
        before == *old(owner),
        call_ensures(
            PresenceOwner::registration_targets,
            (&before, &controller, &registered, &device),
            targets,
        ),
        call_ensures(
            PresenceOwner::register_contexts,
            (owner, &controller, config, registered, device, outcome),
            result,
        ),
    ensures
        result == outcome,
        outcome is Ok ==> final(owner).contexts.config == Some(config)
            && final(owner).contexts.targets@ == targets@,
        outcome is Err ==> final(owner).contexts.config == old(owner).contexts.config
            && final(owner).contexts.targets == old(owner).contexts.targets && exists|i: int|
            0 <= i < final(owner).contexts.suppressed_devices@.len() && (
            #[trigger] final(owner).contexts.suppressed_devices@[i])@ == device@,
        final(owner).plans == old(owner).plans && final(owner).mwi == old(owner).mwi,
{
    if outcome is Err {
        let released = before.released_spec(controller, device);
        let held = final(owner).contexts.suppressed_devices@;
        if lookup::some(released, is_named(device@)) {
            let i = choose|i: int|
                0 <= i < released.len() && is_named(device@)(#[trigger] released[i]);
            assert(held[i]@ == device@);
        } else {
            assert(held.last()@ == device@);
        }
    }
}

/// A staged change of the contexts is done at once and kept with what was before,
/// under a new number; taken back it restores that, for the stations still there,
/// and a number that is not staged changes nothing.
pub proof fn law_staged_contexts_can_be_taken_back(
    staging: &mut PresenceOwner,
    finishing: &mut PresenceOwner,
    controller: ControllerSnapshot,
    config: ConfigVersion,
    registered: Vec<DeviceId>,
    previous: ConfigVersion,
    previous_registered: Vec<DeviceId>,
    outcome: Result<(), RegistrationRegistryError>,
    staged: Result<StageId, RegistrationRegistryError>,
    stage: StageId,
    result: Result<(), RegistrationRegistryError>,
    i: int,
)
    requires
        call_ensures(
            PresenceOwner::stage_registrations,
            (
                staging,
                &controller,
                config,
                registered,
                previous,
                previous_registered,
                outcome,
            ),
            staged,
        ),
        call_ensures(
            PresenceOwner::finish_registrations,
            (
                finishing,
                &controller,
                None::<&ModuleConfig>,
                stage,
                None::<Vec<DeviceId>>,
                outcome,
            ),
            result,
        ),
        0 <= i <= old(finishing).staged_contexts@.len(),
        forall|j: int|
            0 <= j < i ==> (#[trigger] old(finishing).staged_contexts@[j]).stage != stage,
        i < old(finishing).staged_contexts@.len()
            ==> old(finishing).staged_contexts@[i].stage == stage,
    ensures
        staged is Ok <==> outcome is Ok && old(staging).next_stage < u64::MAX,
        staged matches Ok(number) ==> number.0 == old(staging).next_stage
            && final(staging).contexts.config == Some(config)
            && final(staging).staged_contexts@.last().stage == number
            && final(staging).staged_contexts@.last().previous == previous
            && final(staging).staged_contexts@.last().registered == previous_registered,
        staged is Err ==> final(staging).contexts == old(staging).contexts
            && final(staging).staged_contexts == old(staging).staged_contexts,
        i == old(finishing).staged_contexts@.len() ==> *final(finishing) == *old(finishing)
            && result is Err,
        i < old(finishing).staged_contexts@.len() ==> result == outcome,
        i < old(finishing).staged_contexts@.len() && outcome is Ok
            ==> final(finishing).contexts.config == Some(
            old(finishing).staged_contexts@[i].previous,
        ),
        i < old(finishing).staged_contexts@.len() && outcome is Err
            ==> final(finishing).contexts == old(finishing).contexts,
{
    let p = pending_of(stage);
    if i == old(finishing).staged_contexts@.len() {
        lookup::lemma_first_none(old(finishing).staged_contexts@, p);
    } else {
        lookup::lemma_first_is(old(finishing).staged_contexts@, p, i);
    }
}

/// Mailboxes are replaced as a whole or not at all: where all fit, the former ones
/// are retired; else nothing changes. Clearing retires all of them.
pub proof fn law_mailboxes_are_replaced_whole(
    installing: &mut PresenceOwner,
    clearing: &mut PresenceOwner,
    hints: usize,
    subscriptions: Vec<MwiSubscription>,
    outcomes: Vec<Result<(), String>>,
    before: PresenceOwner,
    more: usize,
    fits: bool,
    replacement: MwiReplacement,
    retired: Vec<MwiKey>,
    k: int,
)
    requires
        before == *old(installing),
        more == subscriptions@.len(),
        call_ensures(PresenceOwner::fits, (&before, hints, more), fits),
        call_ensures(
            PresenceOwner::install_mwi,
            (installing, hints, &subscriptions, &outcomes),
            replacement,
        ),
        call_ensures(PresenceOwner::clear_mwi, (clearing,), retired),
        0 <= k,
    ensures
        replacement.admitted <==> fits,
        !fits ==> *final(installing) == *old(installing) && replacement.retired@.len() == 0
            && replacement.refused@.len() == 0,
        fits ==> replacement.retired@.len() == old(installing).mwi@.len(),
        fits && k < old(installing).mwi@.len() ==> replacement.retired@[k].line
            == old(installing).mwi@[k].line && replacement.retired@[k].generation
            == old(installing).mwi@[k].generation,
        final(installing).plans == old(installing).plans && final(installing).staged == old(
            installing,
        ).staged,
        final(clearing).mwi@.len() == 0,
        retired@.len() == old(clearing).mwi@.len(),
        k < old(clearing).mwi@.len() ==> retired@[k].line == old(clearing).mwi@[k].line,
{
}

/// What is heard of a mailbox counts for the subscription that it came from: it is
/// announced where that is in force, held where it is staged, and ignored
/// otherwise.
pub proof fn law_messages_count_for_their_subscription(
    owner: &mut PresenceOwner,
    line: &str,
    generation: u64,
    active: bool,
    update: MwiUpdate,
    i: int,
    s: int,
    k: int,
)
    requires
        call_ensures(PresenceOwner::update_mwi, (owner, line, generation, active), update),
        0 <= i <= old(owner).mwi@.len(),
        forall|j: int| 0 <= j < i ==> (#[trigger] old(owner).mwi@[j]).line@ != line@,
        i < old(owner).mwi@.len() ==> old(owner).mwi@[i].line@ == line@,
        0 <= s <= old(owner).staged@.len(),
        forall|j: int|
            0 <= j < s ==> !((#[trigger] old(owner).staged@[j]).entry.line@ == line@
                && old(owner).staged@[j].entry.generation == generation),
        s < old(owner).staged@.len() ==> old(owner).staged@[s].entry.line@ == line@
            && old(owner).staged@[s].entry.generation == generation,
        0 <= k < old(owner).staged@.len(),
    ensures
        ({
            let current = i < old(owner).mwi@.len() && old(owner).mwi@[i].generation == generation;
            &&& update is Announce <==> current
            &&& update is Held <==> !current && s < old(owner).staged@.len()
            &&& !(update is Held) ==> *final(owner) == *old(owner)
            &&& update is Held ==> final(owner).staged@[s].entry.latest == Some(active)
                && final(owner).staged@[s].stage == old(owner).staged@[s].stage && (k != s
                ==> final(owner).staged@[k] == old(owner).staged@[k]) && final(owner).mwi == old(
                owner,
            ).mwi
        }),
{
    let p = entry_of(line@);
    if i == old(owner).mwi@.len() {
        lookup::lemma_first_none(old(owner).mwi@, p);
    } else {
        lookup::lemma_first_is(old(owner).mwi@, p, i);
    }
    let q = staged_as(line@, generation);
    if s == old(owner).staged@.len() {
        lookup::lemma_first_none(old(owner).staged@, q);
    } else {
        lookup::lemma_first_is(old(owner).staged@, q, s);
    }
}

/// A state that is watched by the plan of the current session is shown on its
/// button; one that ended is tried again and discarded first, and any other event
/// is dropped.
pub proof fn law_watched_states_are_shown<S, C>(
    owner: PresenceOwner,
    controller: ControllerSnapshot,
    event: BlfEvent<S, C>,
    watched: bool,
    steps: Vec<BlfStep<S, C>>,
    i: int,
)
    requires
        call_ensures(PresenceOwner::update_blf::<S, C>, (&owner, &controller, event, watched), steps),
        0 <= i <= owner.plans@.len(),
        forall|j: int| 0 <= j < i ==> (#[trigger] owner.plans@[j]).device@ != event.device_id@,
        i < owner.plans@.len() ==> owner.plans@[i].device@ == event.device_id@,
    ensures
        ({
            let heard = watched && i < owner.plans@.len() && controller.session_current_spec(
                event.device_id@,
                owner.plans@[i].session,
            );
            &&& !heard ==> steps@.len() == 0
            &&& heard ==> steps@.len() == (if event.terminal {
                3int
            } else {
                2int
            })
            &&& heard ==> steps@[0] == (BlfStep::<S, C>::Retry {
                device_id: event.device_id,
                instance: event.instance,
                terminal: event.terminal,
            })
            &&& heard ==> steps@.last() == (BlfStep::<S, C>::SetBlfStatus {
                device_id: event.device_id,
                instance: event.instance,
                state: event.state,
                caller: event.caller,
            })
            &&& heard && event.terminal ==> steps@[1] == BlfStep::<S, C>::Discard(
                Discard::Hint { device: event.device_id, instance: event.instance },
            )
        }),
{
    let p = plan_of(event.device_id@);
    if i == owner.plans@.len() {
        lookup::lemma_first_none(owner.plans@, p);
    } else {
        lookup::lemma_first_is(owner.plans@, p, i);
    }
}

/// The owner goes on while commands may come or a stage is open; commands that came
/// too late are skipped, and what disconnected is retired, the contexts once
/// nothing is pending.
pub proof fn law_owners_run_until_all_is_settled(
    turns: &mut PresenceLoop,
    owner: PresenceOwner,
    turn: PresenceTurn,
    pending: bool,
    fresh: PresenceLoop,
    before: PresenceLoop,
    finished: bool,
    work: TurnWork,
)
    requires
        before == *old(turns),
        call_ensures(PresenceLoop::new, (), fresh),
        call_ensures(PresenceLoop::finished, (&before, &owner), finished),
        call_ensures(PresenceLoop::run, (turns, turn, pending), work),
    ensures
        fresh.commands_open && !fresh.retired_contexts,
        finished <==> !before.commands_open && owner.stages@.len() == 0
            && owner.staged_contexts@.len() == 0,
        final(turns).commands_open <==> old(turns).commands_open && !(turn is CommandsClosed),
        work.skipped <==> turn == (PresenceTurn::Command { expired: true }),
        work.skipped ==> !work.retire_hints && !work.retire_contexts,
        turn is RetiredContexts ==> work.retire_hints && (work.retire_contexts <==> !pending),
        work.retire_contexts ==> !final(turns).retired_contexts,
        turn is RetiredContexts && pending ==> final(turns).retired_contexts,
{
}

/// A stage is open exactly if the owner answered with one; it is finished once, as
/// committed with what was given or as taken back, and under its own number.
pub proof fn law_stages_are_finished_once(
    committing: &mut StagedRegistrationContexts,
    aborting: &mut StagedRegistrationContexts,
    keeping: &mut StagedMwiSubscriptions,
    cancelling: &mut StagedMwiSubscriptions,
    affected: Vec<DeviceId>,
    removed: Vec<String>,
    answer: StageAnswer<StageId, RegistrationRegistryError>,
    heard: StageAnswer<StageId, String>,
    staged: Result<StagedRegistrationContexts, RegistrationRegistryError>,
    subscribed: Result<StagedMwiSubscriptions, String>,
    committed: Option<StageFinish>,
    aborted: Option<StageFinish>,
    kept: Option<StageFinish>,
    cancelled: Option<StageFinish>,
)
    requires
        call_ensures(StagedRegistrationContexts::new, (answer,), staged),
        call_ensures(StagedMwiSubscriptions::new, (heard,), subscribed),
        call_ensures(StagedRegistrationContexts::commit, (committing, affected), committed),
        call_ensures(StagedRegistrationContexts::abort, (aborting,), aborted),
        call_ensures(StagedMwiSubscriptions::commit, (keeping, removed), kept),
        call_ensures(StagedMwiSubscriptions::cancel, (cancelling,), cancelled),
    ensures
        staged is Ok <==> (answer matches StageAnswer::Replied(given) && given is Ok),
        staged matches Ok(stage) ==> stage.pending && answer == StageAnswer::<
            StageId,
            RegistrationRegistryError,
        >::Replied(Ok(stage.stage)),
        subscribed is Ok <==> (heard matches StageAnswer::Replied(given) && given is Ok),
        subscribed matches Ok(stage) ==> stage.pending && heard == StageAnswer::<
            StageId,
            String,
        >::Replied(Ok(stage.stage)),
        committed is Some <==> old(committing).pending,
        committed matches Some(finish) ==> finish == (StageFinish::Registrations {
            stage: old(committing).stage,
            affected: Some(affected),
        }),
        aborted is Some <==> old(aborting).pending,
        aborted matches Some(finish) ==> finish == (StageFinish::Registrations {
            stage: old(aborting).stage,
            affected: None,
        }),
        kept is Some <==> old(keeping).pending,
        kept matches Some(finish) ==> finish == (StageFinish::Mwi {
            stage: old(keeping).stage,
            removed: Some(removed),
        }),
        cancelled is Some <==> old(cancelling).pending,
        cancelled matches Some(finish) ==> finish == (StageFinish::Mwi {
            stage: old(cancelling).stage,
            removed: None,
        }),
        !final(committing).pending && !final(aborting).pending && !final(keeping).pending
            && !final(cancelling).pending,
{
}

/// Finishing a stage of mailboxes takes its own entries: committed they come into
/// force in place of those of the same lines and of the lines that were removed;
/// taken back they are retired and what is in force stays.
pub proof fn law_staged_mailboxes_come_into_force(
    committing: &mut PresenceOwner,
    aborting: &mut PresenceOwner,
    stage: StageId,
    removed: Vec<String>,
    committed: MwiFinish,
    aborted: MwiFinish,
    k: int,
    i: int,
)
    requires
        call_ensures(PresenceOwner::finish_mwi, (committing, stage, Some(removed)), committed),
        call_ensures(PresenceOwner::finish_mwi, (aborting, stage, None::<Vec<String>>), aborted),
        0 <= k < old(committing).stages@.len(),
        old(committing).stages@[k] == stage,
        0 <= i < old(committing).staged@.len(),
        old(committing).staged@[i].stage == stage,
    ensures
        final(committing).mwi@.contains(old(committing).staged@[i].entry),
        !final(committing).staged@.contains(old(committing).staged@[i]),
        !final(committing).stages@.contains(stage),
        old(committing).staged@[i].entry.latest matches Some(active) ==> committed.announced@.contains(
            (MwiAnnouncement { line: old(committing).staged@[i].entry.line, active }),
        ),
        final(aborting).mwi == old(aborting).mwi,
        aborted.announced@.len() == 0,
        !final(aborting).stages@.contains(stage),
{
    let before = old(committing).staged@;
    assert(is_stage(stage)(old(committing).stages@[k]));
    let p = of_stage(stage);
    let own = before.filter(p);
    before.lemma_filter_contains(p, i);
    let taken = own.map_values(entry_part());
    let j = choose|j: int| 0 <= j < own.len() && own[j] == before[i];
    assert(taken[j] == before[i].entry);
    let kept = old(committing).mwi@.filter(lookup::not(gives_way(removed@, taken)));
    lookup::lemma_sum_holds(kept, taken, before[i].entry);
    assert(taken.contains(before[i].entry));
    lookup::lemma_filter_holds(before, lookup::not(p), before[i]);
    lookup::lemma_filter_holds(old(committing).stages@, lookup::not(is_stage(stage)), stage);
    if let Some(active) = before[i].entry.latest {
        let told = MwiAnnouncement { line: before[i].entry.line, active };
        lookup::lemma_filter_map_member(taken, announcement(), told);
        assert(announcement()(taken[j]) == Some(told));
    }
    lookup::lemma_filter_holds(old(aborting).stages@, lookup::not(is_stage(stage)), stage);
    if !lookup::some(old(aborting).stages@, is_stage(stage)) {
        if old(aborting).stages@.contains(stage) {
            let n = choose|n: int|
                0 <= n < old(aborting).stages@.len() && old(aborting).stages@[n] == stage;
            assert(is_stage(stage)(old(aborting).stages@[n]));
        }
    }
}

/// What a watched line became is shown on the station that watches it, while its
/// registration stands; a watch that ended is given up on the way.
pub proof fn law_watched_lines_are_shown<S, C>(
    owner: PresenceOwner,
    controller: ControllerSnapshot,
    event: BlfEvent<S, C>,
    watched: bool,
    steps: Vec<BlfStep<S, C>>,
    p: int,
    current: bool,
)
    requires
        call_ensures(
            PresenceOwner::update_blf::<S, C>,
            (&owner, &controller, event, watched),
            steps,
        ),
        0 <= p <= owner.plans@.len(),
        forall|j: int| 0 <= j < p ==> (#[trigger] owner.plans@[j]).device@ != event.device_id@,
        p < owner.plans@.len() ==> owner.plans@[p].device@ == event.device_id@,
        p < owner.plans@.len() ==> (current <==> controller.session_current_spec(
            event.device_id@,
            owner.plans@[p].session,
        )),
    ensures
        steps@.len() > 0 <==> watched && p < owner.plans@.len() && current,
        steps@.len() > 0 ==> {
            &&& steps@.last() == (BlfStep::<S, C>::SetBlfStatus {
                device_id: event.device_id,
                instance: event.instance,
                state: event.state,
                caller: event.caller,
            })
            &&& steps@[0] == (BlfStep::<S, C>::Retry {
                device_id: event.device_id,
                instance: event.instance,
                terminal: event.terminal,
            })
            &&& steps@.len() == 3 <==> event.terminal
            &&& steps@.len() == 2 <==> !event.terminal
            &&& event.terminal ==> steps@[1] is Discard
        },
{
    let q = plan_of(event.device_id@);
    if p == owner.plans@.len() {
        lookup::lemma_first_none(owner.plans@, q);
    } else {
        lookup::lemma_first_is(owner.plans@, q, p);
    }
}

/// What is published is for the registered stations that are not held back; a
/// reconciliation that succeeded takes the new configuration and one that failed
/// takes nothing.
pub proof fn law_contexts_are_for_stations_not_held_back(
    contexts: &mut RuntimeRegistrationContexts,
    before: RuntimeRegistrationContexts,
    config: ConfigVersion,
    registered: Vec<DeviceId>,
    outcome: Result<(), RegistrationRegistryError>,
    result: Result<(), RegistrationRegistryError>,
    published: Vec<DeviceId>,
    count: usize,
    device: DeviceId,
)
    requires
        before == *old(contexts),
        call_ensures(
            RuntimeRegistrationContexts::reconcile,
            (contexts, config, registered, outcome),
            result,
        ),
        call_ensures(
            RuntimeRegistrationContexts::published_devices,
            (&before, &registered),
            published,
        ),
        call_ensures(RuntimeRegistrationContexts::active_target_count, (&before,), count),
    ensures
        count == old(contexts).targets@.len(),
        published@.contains(device) <==> registered@.contains(device) && forall|i: int|
            0 <= i < old(contexts).suppressed_devices@.len() ==> (
            #[trigger] old(contexts).suppressed_devices@[i])@ != device@,
        result is Ok <==> outcome is Ok,
        outcome is Err ==> *final(contexts) == *old(contexts),
        outcome is Ok ==> final(contexts).config == Some(config) && final(contexts).registered
            == registered && final(contexts).suppressed_devices == old(
            contexts,
        ).suppressed_devices && final(contexts).targets@ == published@,
{
    let suppressed = old(contexts).suppressed_devices@;
    lookup::lemma_filter_holds(registered@, not_suppressed(suppressed), device);
    let p = is_named(device@);
    if lookup::some(suppressed, p) {
        let i = choose|i: int| 0 <= i < suppressed.len() && p(#[trigger] suppressed[i]);
        assert(suppressed[i]@ == device@);
    } else {
        assert forall|i: int| 0 <= i < suppressed.len() implies (#[trigger] suppressed[i])@
            != device@ by {
            assert(!p(suppressed[i]));
        }
    }
}

/// When registrations are looked over, the stations that are no longer registered
/// lose what was published for them; where that fails nothing changes.
pub proof fn law_absent_stations_are_retired(
    contexts: &mut RuntimeRegistrationContexts,
    controller: ControllerSnapshot,
    outcome: Result<(), RegistrationRegistryError>,
    result: Result<(), RegistrationRegistryError>,
    device: DeviceId,
)
    requires
        call_ensures(
            RuntimeRegistrationContexts::retire_disconnected,
            (contexts, &controller, outcome),
            result,
        ),
    ensures
        old(contexts).config is None ==> result is Ok,
        old(contexts).config is Some ==> result == outcome,
        old(contexts).config is None || outcome is Err ==> *final(contexts) == *old(contexts),
        old(contexts).config is Some && outcome is Ok ==> {
            &&& final(contexts).registered@.contains(device) <==> old(
                contexts,
            ).registered@.contains(device) && exists|s: int|
                0 <= s < controller.registered@.len()
                    && #[trigger] controller.registered@[s].id@ == device@
            &&& final(contexts).targets@.contains(device) ==> final(contexts).registered@.contains(device)
            &&& final(contexts).config == old(contexts).config
        },
{
    lookup::lemma_filter_holds(old(contexts).registered@, is_present(controller), device);
    lookup::lemma_filter_holds(
        final(contexts).registered@,
        not_suppressed(old(contexts).suppressed_devices@),
        device,
    );
}

/// Mailboxes are staged under a number of their own exactly if all of them could be
/// subscribed to, and only while there is room for them.
pub proof fn law_mailboxes_are_staged_together(
    owner: &mut PresenceOwner,
    hints: usize,
    changes: Vec<MwiSubscription>,
    outcomes: Vec<Result<(), String>>,
    result: Result<StageId, MwiStageRefusal>,
)
    requires
        old(owner).wf(),
        old(owner).staging_answered(hints, changes@.len(), outcomes@),
        call_ensures(PresenceOwner::stage_mwi, (owner, hints, &changes, &outcomes), result),
    ensures
        result matches Ok(stage) ==> {
            &&& stage.0 == old(owner).next_stage
            &&& final(owner).stages@ == old(owner).stages@.push(stage)
            &&& hints + old(owner).mwi@.len() + old(owner).staged@.len() + changes@.len() <= old(
                owner,
            ).capacity
        },
        final(owner).mwi == old(owner).mwi && final(owner).plans == old(owner).plans && final(owner).contexts == old(owner).contexts,
        result is Err ==> final(owner).stages == old(owner).stages && final(owner).staged == old(
            owner,
        ).staged,
        hints + old(owner).mwi@.len() + old(owner).staged@.len() + changes@.len() > old(
            owner,
        ).capacity ==> result is Err && *final(owner) == *old(owner),
{
}

/// Extensions are asked for only where a command changes what is registered, for
/// the configuration that it names and the stations that are there and not held
/// back.
pub proof fn law_extensions_are_asked_for_registered_stations(
    owner: PresenceOwner,
    controller: ControllerSnapshot,
    command: PresenceCommand,
    asked: Option<ExtensionRequest>,
    finish: StageFinish,
    taken_back: Option<ExtensionRequest>,
    retired: Option<ExtensionRequest>,
    device: DeviceId,
)
    requires
        call_ensures(
            PresenceOwner::command_extensions,
            (&owner, &controller, &command),
            asked,
        ),
        call_ensures(PresenceOwner::finish_extensions, (&owner, &controller, &finish), taken_back),
        call_ensures(PresenceOwner::retirement_extensions, (&owner, &controller), retired),
    ensures
        asked is Some ==> command is RegisterContexts || command is StageRegistrations,
        command is RegisterContexts ==> asked is Some,
        command is StageRegistrations ==> (asked is Some <==> owner.next_stage < u64::MAX),
        asked matches Some(request) ==> (command matches PresenceCommand::RegisterContexts {
            config,
            ..
        } ==> request.config == config),
        asked matches Some(request) ==> (command matches PresenceCommand::StageRegistrations {
            config,
            ..
        } ==> request.config == config),
        taken_back is Some ==> (finish matches StageFinish::Registrations { affected, .. }
            && affected is None),
        retired is Some <==> owner.contexts.config is Some,
        retired matches Some(request) ==> owner.contexts.config == Some(request.config),
        retired matches Some(request) ==> (request.targets@.contains(device)
            ==> owner.contexts.registered@.contains(device) && exists|s: int|
            0 <= s < controller.registered@.len() && #[trigger] controller.registered@[s].id@
                == device@),
{
    let present = owner.contexts.registered@.filter(is_present(controller));
    lookup::lemma_filter_holds(
        present,
        not_suppressed(owner.contexts.suppressed_devices@),
        device,
    );
    lookup::lemma_filter_holds(owner.contexts.registered@, is_present(controller), device);
}

/// Mailboxes are attempted one after the other, each under its own generation, and
/// none after a staged one was refused.
pub proof fn law_mailboxes_are_attempted_in_turn<'a>(
    owner: PresenceOwner,
    command: &'a PresenceCommand,
    hints: usize,
    answered: Vec<Result<(), String>>,
    attempt: Option<MwiAttempt<'a>>,
)
    requires
        call_ensures(
            PresenceOwner::next_attempt,
            (&owner, command, hints, &answered),
            attempt,
        ),
    ensures
        attempt matches Some(next) ==> {
            &&& next.generation == (owner.next_mwi_generation + answered@.len()) as u64
            &&& *command matches PresenceCommand::InstallMwi { subscriptions }
                ==> *next.subscription == subscriptions@[answered@.len() as int]
            &&& *command matches PresenceCommand::StageMwi { changes } ==> *next.subscription
                == changes@[answered@.len() as int] && forall|i: int|
                0 <= i < answered@.len() ==> (#[trigger] answered@[i]) is Ok
            &&& *command is InstallMwi || *command is StageMwi
        },
{
}

} // verus!
