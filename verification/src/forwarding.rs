//! Forwarding of calls: setting it up on the handset, collecting a destination,
//! and sending unanswered calls on.

use vstd::prelude::*;

use crate::access::{Access, Shared};
use crate::call_control::{self, forwarding_collector, ForwardingCollector};
use crate::collect::any;
use crate::commands::{
    self, close_call, show_prompt, PhoneCommand, PhoneCommandAction,
};
use crate::config;
use crate::controller;
use crate::events::SoftKey;
use crate::ids::{CallId, DeviceId, PbxCallId};
use crate::lookup;
use crate::model::{Codec, ForwardingEntryKey, ForwardingState};
use crate::prompts::Prompt;
use crate::startup::DialDigit;

verus! {

#[derive(Clone, Copy, Debug, PartialEq, Eq, Structural)]
pub enum ForwardingKind {
    All,
    Busy,
    NoAnswer,
}

/// The kind of forwarding that a key is for.
pub open spec fn kind_of(soft_key: SoftKey) -> Option<ForwardingKind> {
    match soft_key {
        SoftKey::ForwardAll => Some(ForwardingKind::All),
        SoftKey::ForwardBusy => Some(ForwardingKind::Busy),
        SoftKey::ForwardNoAnswer => Some(ForwardingKind::NoAnswer),
        _ => None,
    }
}

/// The destination of a kind.
pub open spec fn destination_of(state: ForwardingState, kind: ForwardingKind) -> Option<String> {
    match kind {
        ForwardingKind::All => state.all,
        ForwardingKind::Busy => state.busy,
        ForwardingKind::NoAnswer => state.no_answer,
    }
}

/// The station may use this kind of forwarding.
pub open spec fn forwarding_enabled(shared: Shared, device: Seq<char>, kind: ForwardingKind) -> bool {
    match lookup::first(shared.config.devices@, config::is_device(device)) {
        Some(found) => match kind {
            ForwardingKind::All => found.feature_defaults.forward_all_enabled,
            ForwardingKind::Busy => found.feature_defaults.forward_busy_enabled,
            ForwardingKind::NoAnswer => found.feature_defaults.forward_no_answer_enabled,
        },
        None => false,
    }
}

/// This kind of forwarding is on.
pub open spec fn forwarding_active(shared: Shared, device: Seq<char>, kind: ForwardingKind) -> bool {
    match lookup::first(shared.controller.features@, controller::features_of(device)) {
        Some(features) => destination_of(features.state.forwarding, kind) is Some,
        None => false,
    }
}

/// What a forwarding key asks for.
#[derive(Debug, PartialEq, Eq)]
pub enum ForwardingKeyAction<'a> {
    Ignore,
    /// Switch forwarding off.
    Disable { line: &'a String, kind: ForwardingKind },
    /// Collect a destination on a call of its own.
    Collect(ForwardingCollection),
}

/// What a destination is collected with.
#[derive(Clone, Copy, Debug, PartialEq, Eq, Structural)]
pub struct ForwardingCollection {
    pub line_instance: u32,
    pub kind: ForwardingKind,
    pub codec: Codec,
    /// The key that ends dialing.
    pub dial_terminator: Option<DialDigit>,
    /// How long the first digit and each further one is waited for.
    pub first_digit_timeout_ms: u64,
    pub interdigit_timeout_ms: u64,
}

pub open spec fn forwarding_key_spec<'a>(
    shared: Shared,
    device: Seq<char>,
    line_instance: u32,
    soft_key: SoftKey,
    dial_terminator: Result<Option<DialDigit>, String>,
    codec: Option<Codec>,
) -> ForwardingKeyAction<'a> {
    let signaling = shared.config.general.signaling;
    match (kind_of(soft_key), shared.binding_spec(device, line_instance), dial_terminator) {
        (Some(kind), Some(binding), Ok(dial_terminator)) => if !forwarding_enabled(
            shared,
            device,
            kind,
        ) {
            ForwardingKeyAction::Ignore
        } else if forwarding_active(shared, device, kind) {
            ForwardingKeyAction::Disable { line: &binding.line.number, kind }
        } else {
            match codec {
                Some(codec) => ForwardingKeyAction::Collect(
                    ForwardingCollection {
                        line_instance,
                        kind,
                        codec,
                        dial_terminator,
                        first_digit_timeout_ms: signaling.first_digit_timeout_ms,
                        interdigit_timeout_ms: signaling.interdigit_timeout_ms,
                    },
                ),
                None => ForwardingKeyAction::Ignore,
            }
        },
        _ => ForwardingKeyAction::Ignore,
    }
}

/// Decides what a forwarding key asks for: off where it is on, else a
/// destination. `codec` is the codec of a call on the line, and
/// `dial_terminator` the configured end-of-dialing key, if it can be one.
pub fn handle_forwarding_soft_key<'a>(
    access: &'a Access,
    device_id: &DeviceId,
    line_instance: u32,
    soft_key: SoftKey,
    dial_terminator: Result<Option<DialDigit>, String>,
    codec: Option<Codec>,
) -> (action: ForwardingKeyAction<'a>)
    ensures
        action == forwarding_key_spec(
            access.shared,
            device_id@,
            line_instance,
            soft_key,
            dial_terminator,
            codec,
        ),
{
    let kind = match soft_key {
        SoftKey::ForwardAll => ForwardingKind::All,
        SoftKey::ForwardBusy => ForwardingKind::Busy,
        SoftKey::ForwardNoAnswer => ForwardingKind::NoAnswer,
        _ => return ForwardingKeyAction::Ignore,
    };
    let enabled = match access.shared.config.device(device_id) {
        Some(found) => match kind {
            ForwardingKind::All => found.feature_defaults.forward_all_enabled,
            ForwardingKind::Busy => found.feature_defaults.forward_busy_enabled,
            ForwardingKind::NoAnswer => found.feature_defaults.forward_no_answer_enabled,
        },
        None => false,
    };
    let active = match access.shared.controller.feature_state(device_id) {
        Some(state) => match kind {
            ForwardingKind::All => state.forwarding.all.is_some(),
            ForwardingKind::Busy => state.forwarding.busy.is_some(),
            ForwardingKind::NoAnswer => state.forwarding.no_answer.is_some(),
        },
        None => false,
    };
    if !enabled {
        return ForwardingKeyAction::Ignore;
    }
    let dial_terminator = match dial_terminator {
        Ok(dial_terminator) => dial_terminator,
        Err(_) => return ForwardingKeyAction::Ignore,
    };
    let signaling = &access.shared.config.general.signaling;
    match access.line_binding(device_id, line_instance) {
        None => ForwardingKeyAction::Ignore,
        Some(binding) => if active {
            ForwardingKeyAction::Disable { line: &binding.line.number, kind }
        } else {
            match codec {
                Some(codec) => ForwardingKeyAction::Collect(
                    ForwardingCollection {
                        line_instance,
                        kind,
                        codec,
                        dial_terminator,
                        first_digit_timeout_ms: signaling.first_digit_timeout_ms,
                        interdigit_timeout_ms: signaling.interdigit_timeout_ms,
                    },
                ),
                None => ForwardingKeyAction::Ignore,
            }
        },
    }
}

/// A collection, by its own number.
#[derive(Clone, Copy, Debug, PartialEq, Eq, Structural)]
pub struct ForwardingEntryId(pub u64);

/// Whether a command reached the handset.
#[derive(Clone, Copy, Debug, PartialEq, Eq, Structural)]
pub enum ForwardingWriteOutcome {
    Written,
    Failed,
}

/// A command counts as written only if the handset confirmed it in time.
pub fn send_confirmed_forwarding(in_time: bool, confirmed: bool) -> (outcome:
    ForwardingWriteOutcome)
    ensures
        outcome == if in_time && confirmed {
            ForwardingWriteOutcome::Written
        } else {
            ForwardingWriteOutcome::Failed
        },
{
    if in_time && confirmed {
        ForwardingWriteOutcome::Written
    } else {
        ForwardingWriteOutcome::Failed
    }
}

/// Where setting up a collection stands.
#[derive(Clone, Copy, Debug, PartialEq, Eq, Structural)]
pub enum CollectionState {
    /// The collection is being entered.
    Entering,
    /// The handset is told to begin a call.
    Beginning(ForwardingEntryId),
    /// What came of that is being noted.
    SettlingBegin { entry: ForwardingEntryId, outcome: ForwardingWriteOutcome },
    Prompting(ForwardingEntryId),
    SettlingPrompt(ForwardingEntryId),
    Done,
}

#[derive(Clone, Copy, Debug, PartialEq, Eq, Structural)]
pub enum CollectionReply {
    /// The collection was entered; without a number it was refused.
    Entered(Option<ForwardingEntryId>),
    Sent(ForwardingWriteOutcome),
    /// The collection still stands and the command counts as written.
    Settled(bool),
}

#[derive(Debug, PartialEq, Eq)]
pub enum CollectionAction {
    Send(PhoneCommand),
    Settle { entry: ForwardingEntryId, outcome: ForwardingWriteOutcome },
    Finish,
}

pub open spec fn collection_spec(
    device_id: DeviceId,
    call_id: CallId,
    line_instance: u32,
    codec: Codec,
    state: CollectionState,
    reply: CollectionReply,
) -> (CollectionState, CollectionAction) {
    match (state, reply) {
        (CollectionState::Entering, CollectionReply::Entered(Some(entry))) => (
            CollectionState::Beginning(entry),
            CollectionAction::Send(
                PhoneCommand {
                    device_id,
                    action: PhoneCommandAction::BeginCall { line_instance, call_id, codec },
                },
            ),
        ),
        (CollectionState::Beginning(entry), CollectionReply::Sent(outcome)) => (
            CollectionState::SettlingBegin { entry, outcome },
            CollectionAction::Settle { entry, outcome },
        ),
        (
            CollectionState::SettlingBegin { entry, outcome },
            CollectionReply::Settled(settled),
        ) => if settled {
            (
                CollectionState::Prompting(entry),
                CollectionAction::Send(
                    commands::prompt_command(
                        device_id,
                        call_id,
                        0,
                        Prompt::EnterForwardingDestination,
                    ),
                ),
            )
        } else if outcome == ForwardingWriteOutcome::Written {
            (
                CollectionState::Done,
                CollectionAction::Send(commands::close_command(device_id, call_id)),
            )
        } else {
            (CollectionState::Done, CollectionAction::Finish)
        },
        (CollectionState::Prompting(entry), CollectionReply::Sent(outcome)) => (
            CollectionState::SettlingPrompt(entry),
            CollectionAction::Settle { entry, outcome },
        ),
        (CollectionState::SettlingPrompt(_), CollectionReply::Settled(false)) => (
            CollectionState::Done,
            CollectionAction::Send(commands::close_command(device_id, call_id)),
        ),
        _ => (CollectionState::Done, CollectionAction::Finish),
    }
}

/// Sets up a collection step by step. Where it does not stand any more, the
/// call on the handset is closed.
pub fn begin_collection(
    device_id: DeviceId,
    call_id: CallId,
    line_instance: u32,
    codec: Codec,
    state: CollectionState,
    reply: CollectionReply,
) -> (step: (CollectionState, CollectionAction))
    ensures
        step == collection_spec(device_id, call_id, line_instance, codec, state, reply),
{
    match (state, reply) {
        (CollectionState::Entering, CollectionReply::Entered(Some(entry))) => (
            CollectionState::Beginning(entry),
            CollectionAction::Send(
                PhoneCommand::new(
                    device_id,
                    PhoneCommandAction::BeginCall { line_instance, call_id, codec },
                ),
            ),
        ),
        (CollectionState::Beginning(entry), CollectionReply::Sent(outcome)) => (
            CollectionState::SettlingBegin { entry, outcome },
            CollectionAction::Settle { entry, outcome },
        ),
        (
            CollectionState::SettlingBegin { entry, outcome },
            CollectionReply::Settled(settled),
        ) => {
            if settled {
                (
                    CollectionState::Prompting(entry),
                    CollectionAction::Send(
                        show_prompt(device_id, call_id, 0, Prompt::EnterForwardingDestination),
                    ),
                )
            } else if outcome == ForwardingWriteOutcome::Written {
                (CollectionState::Done, CollectionAction::Send(close_call(device_id, call_id)))
            } else {
                (CollectionState::Done, CollectionAction::Finish)
            }
        },
        (CollectionState::Prompting(entry), CollectionReply::Sent(outcome)) => (
            CollectionState::SettlingPrompt(entry),
            CollectionAction::Settle { entry, outcome },
        ),
        (CollectionState::SettlingPrompt(_), CollectionReply::Settled(false)) => (
            CollectionState::Done,
            CollectionAction::Send(close_call(device_id, call_id)),
        ),
        _ => (CollectionState::Done, CollectionAction::Finish),
    }
}

/// Whether `device_id` collects a destination on `call_id`.
pub fn forwarding_entry_exists(access: &Access, device_id: &DeviceId, call_id: CallId) -> (exists_:
    bool)
    ensures
        exists_ == (call_control::collector_spec(access.shared, device_id@, call_id)
            == ForwardingCollector::ThisStation),
{
    forwarding_collector(access, device_id, call_id) == ForwardingCollector::ThisStation
}

/// Whether a collection was cancelled: it has to be one of this station, and
/// `cancelled` is what the collections answer.
pub fn cancel_forwarding_entry_for_call(
    access: &Access,
    device_id: &DeviceId,
    call_id: CallId,
    cancelled: bool,
) -> (done: bool)
    ensures
        done == (cancelled && call_control::collector_spec(access.shared, device_id@, call_id)
            == ForwardingCollector::ThisStation),
{
    forwarding_entry_exists(access, device_id, call_id) && cancelled
}

/// The collection belongs to this station.
pub open spec fn collected_by(device: Seq<char>) -> spec_fn(ForwardingEntryKey) -> bool {
    |entry: ForwardingEntryKey| entry.device_id@ == device
}

/// Whether the collection of a station was cancelled.
pub fn cancel_forwarding_entry_for_device(access: &Access, device_id: &DeviceId, cancelled: bool) ->
    (done: bool)
    ensures
        done == (cancelled && lookup::some(
            access.shared.controller.forwarding_entries@,
            collected_by(device_id@),
        )),
{
    any(
        &access.shared.controller.forwarding_entries,
        |entry: &ForwardingEntryKey| -> (found: bool)
            ensures
                found == (entry.device_id@ == device_id@)
            { entry.device_id.same(device_id) },
        Ghost(collected_by(device_id@)),
    ) && cancelled
}

/// Why a digit or a destination was refused.
#[derive(Clone, Copy, Debug, PartialEq, Eq, Structural)]
pub enum ForwardingRejection {
    InvalidDestination,
    TooLong,
    Stale,
}

/// A collection that is complete.
#[derive(Debug, PartialEq, Eq)]
pub struct ForwardingCommit {
    pub entry: ForwardingEntryId,
    pub device_id: DeviceId,
    pub call_id: CallId,
    pub line_instance: u32,
    pub kind: ForwardingKind,
    pub destination: String,
}

/// What the collections make of a digit.
#[derive(Debug, PartialEq, Eq)]
pub enum ForwardingDigitOutcome {
    Collected,
    Commit(ForwardingCommit),
    Refused(ForwardingRejection),
}

/// What a digit on a collection leads to.
#[derive(Debug, PartialEq, Eq)]
pub enum ForwardingInputAction {
    /// The digit belongs to the call itself.
    NotCollecting,
    /// Nothing further.
    Taken,
    Commit(ForwardingCommit),
    Show(PhoneCommand),
}

pub open spec fn forwarding_digit_spec(
    shared: Shared,
    device_id: DeviceId,
    call_id: CallId,
    outcome: ForwardingDigitOutcome,
) -> ForwardingInputAction {
    match call_control::collector_spec(shared, device_id@, call_id) {
        ForwardingCollector::Nobody => ForwardingInputAction::NotCollecting,
        ForwardingCollector::AnotherStation => ForwardingInputAction::Taken,
        ForwardingCollector::ThisStation => match outcome {
            ForwardingDigitOutcome::Collected => ForwardingInputAction::Taken,
            ForwardingDigitOutcome::Commit(commit) => ForwardingInputAction::Commit(commit),
            ForwardingDigitOutcome::Refused(rejection) => ForwardingInputAction::Show(
                commands::prompt_command(
                    device_id,
                    call_id,
                    4,
                    if rejection == ForwardingRejection::InvalidDestination {
                        Prompt::EnterAForwardingDestination
                    } else {
                        Prompt::ForwardingDestinationIsTooLong
                    },
                ),
            ),
        },
    }
}

/// Takes a digit. On a call on which another station collects, it is swallowed.
/// `outcome` is what the collections made of it, where it was handed to them.
pub fn handle_forwarding_digit(
    access: &Access,
    device_id: DeviceId,
    call_id: CallId,
    outcome: ForwardingDigitOutcome,
) -> (action: ForwardingInputAction)
    ensures
        action == forwarding_digit_spec(access.shared, device_id, call_id, outcome),
{
    match forwarding_collector(access, &device_id, call_id) {
        ForwardingCollector::Nobody => ForwardingInputAction::NotCollecting,
        ForwardingCollector::AnotherStation => ForwardingInputAction::Taken,
        ForwardingCollector::ThisStation => match outcome {
            ForwardingDigitOutcome::Collected => ForwardingInputAction::Taken,
            ForwardingDigitOutcome::Commit(commit) => ForwardingInputAction::Commit(commit),
            ForwardingDigitOutcome::Refused(rejection) => {
                let prompt = if rejection == ForwardingRejection::InvalidDestination {
                    Prompt::EnterAForwardingDestination
                } else {
                    Prompt::ForwardingDestinationIsTooLong
                };
                ForwardingInputAction::Show(show_prompt(device_id, call_id, 4, prompt))
            },
        },
    }
}

/// Whether a backspace is handed to the collections.
pub fn handle_forwarding_backspace(access: &Access, device_id: &DeviceId, call_id: CallId) ->
    (handed: bool)
    ensures
        handed == (call_control::collector_spec(access.shared, device_id@, call_id)
            == ForwardingCollector::ThisStation),
{
    forwarding_entry_exists(access, device_id, call_id)
}

/// What a whole number on a collection leads to.
#[derive(Debug, PartialEq, Eq)]
pub enum ForwardingReplaceAction {
    NotCollecting,
    Taken,
    /// Go on as if the end-of-dialing key had been pressed.
    BeginCommit,
    Show(PhoneCommand),
}

pub open spec fn replace_spec(
    shared: Shared,
    device_id: DeviceId,
    call_id: CallId,
    accepted: bool,
    commit: bool,
) -> ForwardingReplaceAction {
    match call_control::collector_spec(shared, device_id@, call_id) {
        ForwardingCollector::Nobody => ForwardingReplaceAction::NotCollecting,
        ForwardingCollector::AnotherStation => ForwardingReplaceAction::Taken,
        ForwardingCollector::ThisStation => if !accepted {
            ForwardingReplaceAction::Show(
                commands::prompt_command(
                    device_id,
                    call_id,
                    4,
                    Prompt::InvalidForwardingDestination,
                ),
            )
        } else if commit {
            ForwardingReplaceAction::BeginCommit
        } else {
            ForwardingReplaceAction::Taken
        },
    }
}

/// Takes a whole number as the destination; `accepted` is what the collections
/// answer.
pub fn replace_forwarding_entry(
    access: &Access,
    device_id: DeviceId,
    call_id: CallId,
    accepted: bool,
) -> (action: ForwardingReplaceAction)
    ensures
        action == replace_spec(access.shared, device_id, call_id, accepted, false),
{
    match forwarding_collector(access, &device_id, call_id) {
        ForwardingCollector::Nobody => ForwardingReplaceAction::NotCollecting,
        ForwardingCollector::AnotherStation => ForwardingReplaceAction::Taken,
        ForwardingCollector::ThisStation => if accepted {
            ForwardingReplaceAction::Taken
        } else {
            ForwardingReplaceAction::Show(
                show_prompt(device_id, call_id, 4, Prompt::InvalidForwardingDestination),
            )
        },
    }
}

/// Takes a whole number as the destination and ends the collection.
pub fn replace_and_commit_forwarding_entry(
    access: &Access,
    device_id: DeviceId,
    call_id: CallId,
    accepted: bool,
) -> (action: ForwardingReplaceAction)
    ensures
        action == replace_spec(access.shared, device_id, call_id, accepted, true),
{
    match forwarding_collector(access, &device_id, call_id) {
        ForwardingCollector::Nobody => ForwardingReplaceAction::NotCollecting,
        ForwardingCollector::AnotherStation => ForwardingReplaceAction::Taken,
        ForwardingCollector::ThisStation => if accepted {
            ForwardingReplaceAction::BeginCommit
        } else {
            ForwardingReplaceAction::Show(
                show_prompt(device_id, call_id, 4, Prompt::InvalidForwardingDestination),
            )
        },
    }
}

/// Ends a collection; `commit` is what the collections give, or none where they
/// hold no destination.
pub fn commit_forwarding_entry(
    access: &Access,
    device_id: DeviceId,
    call_id: CallId,
    commit: Option<ForwardingCommit>,
) -> (action: ForwardingInputAction)
    ensures
        action == if call_control::collector_spec(access.shared, device_id@, call_id)
            != ForwardingCollector::ThisStation {
            ForwardingInputAction::NotCollecting
        } else {
            match commit {
                Some(commit) => ForwardingInputAction::Commit(commit),
                None => ForwardingInputAction::Show(
                    commands::prompt_command(
                        device_id,
                        call_id,
                        4,
                        Prompt::EnterAForwardingDestination,
                    ),
                ),
            }
        },
{
    if !forwarding_entry_exists(access, &device_id, call_id) {
        return ForwardingInputAction::NotCollecting;
    }
    match commit {
        Some(commit) => ForwardingInputAction::Commit(commit),
        None => ForwardingInputAction::Show(
            show_prompt(device_id, call_id, 4, Prompt::EnterAForwardingDestination),
        ),
    }
}

/// Where completing a collection stands.
#[derive(Clone, Copy, Debug, PartialEq, Eq, Structural)]
pub enum CommitState {
    /// The call on the handset is being closed.
    Closing,
    /// What came of that is being noted.
    Settling,
    /// Forwarding is being set.
    Mutating,
    Done,
}

#[derive(Clone, Copy, Debug, PartialEq, Eq, Structural)]
pub enum CommitReply {
    Sent(ForwardingWriteOutcome),
    /// The collection still stands and the command counts as written.
    Settled(bool),
    /// Forwarding was set.
    Mutated(bool),
}

#[derive(Debug, PartialEq, Eq)]
pub enum CommitAction<'a> {
    Send(PhoneCommand),
    Settle(ForwardingWriteOutcome),
    SetForwarding { line: &'a String },
    /// The collection ends with its destination.
    Commit,
    /// The collection ends without effect.
    Cancel,
    Finish,
}

pub open spec fn commit_step_spec<'a>(
    shared: Shared,
    commit: ForwardingCommit,
    state: CommitState,
    reply: CommitReply,
) -> (CommitState, CommitAction<'a>) {
    match (state, reply) {
        (CommitState::Closing, CommitReply::Sent(outcome)) => (
            CommitState::Settling,
            CommitAction::Settle(outcome),
        ),
        (CommitState::Settling, CommitReply::Settled(true)) => match shared.binding_spec(
            commit.device_id@,
            commit.line_instance,
        ) {
            Some(binding) => (
                CommitState::Mutating,
                CommitAction::SetForwarding { line: &binding.line.number },
            ),
            None => (CommitState::Done, CommitAction::Cancel),
        },
        (CommitState::Mutating, CommitReply::Mutated(done)) => (
            CommitState::Done,
            if done {
                CommitAction::Commit
            } else {
                CommitAction::Cancel
            },
        ),
        _ => (CommitState::Done, CommitAction::Finish),
    }
}

/// The first step of completing a collection: closing its call.
pub fn finish_forwarding_commit<'a>(commit: &ForwardingCommit) -> (step: (
    CommitState,
    CommitAction<'a>,
))
    ensures
        step.0 == CommitState::Closing,
        step.1 == CommitAction::<'a>::Send(
            commands::close_command(commit.device_id, commit.call_id),
        ),
{
    (
        CommitState::Closing,
        CommitAction::Send(close_call(commit.device_id.clone(), commit.call_id)),
    )
}

/// Goes on with completing a collection. Forwarding is set only once the
/// handset has closed the call.
pub fn continue_forwarding_commit<'a>(
    access: &'a Access,
    commit: &ForwardingCommit,
    state: CommitState,
    reply: CommitReply,
) -> (step: (CommitState, CommitAction<'a>))
    ensures
        step == commit_step_spec::<'a>(access.shared, *commit, state, reply),
{
    match (state, reply) {
        (CommitState::Closing, CommitReply::Sent(outcome)) => (
            CommitState::Settling,
            CommitAction::Settle(outcome),
        ),
        (CommitState::Settling, CommitReply::Settled(true)) => match access.line_binding(
            &commit.device_id,
            commit.line_instance,
        ) {
            Some(binding) => (
                CommitState::Mutating,
                CommitAction::SetForwarding { line: &binding.line.number },
            ),
            None => (CommitState::Done, CommitAction::Cancel),
        },
        (CommitState::Mutating, CommitReply::Mutated(done)) => (
            CommitState::Done,
            if done {
                CommitAction::Commit
            } else {
                CommitAction::Cancel
            },
        ),
        _ => (CommitState::Done, CommitAction::Finish),
    }
}

/// What becomes of a collection whose time is up.
#[derive(Debug, PartialEq, Eq)]
pub enum ForwardingExpiry {
    Cancel { device_id: DeviceId, call_id: CallId },
    Commit(ForwardingCommit),
}

/// What an expired collection leads to: its call is closed, or what was entered
/// becomes the destination.
pub fn expire_forwarding_entry(expiry: ForwardingExpiry) -> (action: ForwardingInputAction)
    ensures
        action == match expiry {
            ForwardingExpiry::Cancel { device_id, call_id } => ForwardingInputAction::Show(
                commands::close_command(device_id, call_id),
            ),
            ForwardingExpiry::Commit(commit) => ForwardingInputAction::Commit(commit),
        },
{
    match expiry {
        ForwardingExpiry::Cancel { device_id, call_id } => ForwardingInputAction::Show(
            close_call(device_id, call_id),
        ),
        ForwardingExpiry::Commit(commit) => ForwardingInputAction::Commit(commit),
    }
}

/// A timer of an unanswered call, and where the call goes when it runs out.
#[derive(Debug, PartialEq, Eq)]
pub struct NoAnswerTimer {
    pub id: u64,
    pub call_id: PbxCallId,
    pub context: String,
    pub destination: String,
}

/// Why a call is sent on.
#[derive(Clone, Copy, Debug, PartialEq, Eq, Structural)]
pub enum ForwardingRouteReason {
    NoAnswer,
}

/// What the switch is asked to do with a call that is sent on.
#[derive(Debug, PartialEq, Eq)]
pub struct ForwardingOperation {
    pub call_id: PbxCallId,
    pub context: String,
    pub destination: String,
    pub reason: ForwardingRouteReason,
}

/// What the switch is asked to do with an unanswered call.
pub fn no_answer_operation(timer: &NoAnswerTimer) -> (operation: ForwardingOperation)
    ensures
        operation == (ForwardingOperation {
            call_id: timer.call_id,
            context: timer.context,
            destination: timer.destination,
            reason: ForwardingRouteReason::NoAnswer,
        }),
{
    ForwardingOperation {
        call_id: timer.call_id,
        context: timer.context.clone(),
        destination: timer.destination.clone(),
        reason: ForwardingRouteReason::NoAnswer,
    }
}

/// What follows an attempt to send an unanswered call on.
#[derive(Debug, PartialEq, Eq)]
pub struct NoAnswerOutcome {
    /// What the controller is told: of which call and timer, and how it went.
    pub call_id: PbxCallId,
    pub timer_id: u64,
    pub routed: bool,
    /// The line whose state is published.
    pub publish: Option<String>,
    /// The controller's effects are executed.
    pub execute_effects: bool,
}

/// Sends an unanswered call on; `routed` is what the switch answers to
/// [`no_answer_operation`]. Where it refuses, nothing else changes.
pub fn execute_no_answer_route(timer: &NoAnswerTimer, routed: bool, line: Option<String>) ->
    (outcome: NoAnswerOutcome)
    ensures
        outcome == (NoAnswerOutcome {
            call_id: timer.call_id,
            timer_id: timer.id,
            routed,
            publish: if routed {
                line
            } else {
                None
            },
            execute_effects: routed,
        }),
{
    NoAnswerOutcome {
        call_id: timer.call_id,
        timer_id: timer.id,
        routed,
        publish: if routed {
            line
        } else {
            None
        },
        execute_effects: routed,
    }
}

/// Whether the timer of an unanswered call was stopped; a controller that does
/// not answer has stopped none.
pub fn cancel_no_answer_timer(answer: Option<bool>) -> (cancelled: bool)
    ensures
        cancelled == (answer == Some(true)),
{
    match answer {
        Some(cancelled) => cancelled,
        None => false,
    }
}

/// A call that was begun on the handset for a collection is either prompted for
/// a destination or closed again.
pub proof fn law_begun_collections_are_prompted_or_closed(
    device_id: DeviceId,
    call_id: CallId,
    line_instance: u32,
    codec: Codec,
    entry: ForwardingEntryId,
    settled: bool,
)
    ensures
        ({
            let (state, action) = collection_spec(
                device_id,
                call_id,
                line_instance,
                codec,
                CollectionState::SettlingBegin { entry, outcome: ForwardingWriteOutcome::Written },
                CollectionReply::Settled(settled),
            );
            if settled {
                action == CollectionAction::Send(
                    commands::prompt_command(
                        device_id,
                        call_id,
                        0,
                        Prompt::EnterForwardingDestination,
                    ),
                )
            } else {
                &&& state == CollectionState::Done
                &&& action == CollectionAction::Send(commands::close_command(device_id, call_id))
            }
        }),
{
}

/// Forwarding is set only after the handset closed the collecting call, and the
/// collection counts as complete only if setting it succeeded.
pub proof fn law_forwarding_is_set_after_closing(
    shared: Shared,
    commit: ForwardingCommit,
    state: CommitState,
    reply: CommitReply,
)
    ensures
        commit_step_spec(shared, commit, state, reply).1 is SetForwarding ==> {
            &&& state == CommitState::Settling
            &&& reply == CommitReply::Settled(true)
        },
        commit_step_spec(shared, commit, state, reply).1 is Commit ==> reply
            == CommitReply::Mutated(true),
{
}

/// A forwarding key takes an active forwarding away, and collects a destination
/// where there is none, with the timing of the signaling; it does nothing where its
/// kind of forwarding is not enabled for the station. Each key stands for its own
/// kind.
pub proof fn law_forwarding_keys_toggle_their_kind<'a>(
    access: &'a Access,
    device_id: DeviceId,
    line_instance: u32,
    soft_key: SoftKey,
    dial_terminator: Result<Option<DialDigit>, String>,
    codec: Option<Codec>,
    action: ForwardingKeyAction<'a>,
    d: int,
    f: int,
)
    requires
        call_ensures(
            handle_forwarding_soft_key,
            (access, &device_id, line_instance, soft_key, dial_terminator, codec),
            action,
        ),
        0 <= d < access.shared.config.devices@.len(),
        access.shared.config.devices@[d].id@ == device_id@,
        forall|j: int|
            0 <= j < d ==> (#[trigger] access.shared.config.devices@[j]).id@ != device_id@,
        0 <= f < access.shared.controller.features@.len(),
        access.shared.controller.features@[f].device_id@ == device_id@,
        forall|j: int|
            0 <= j < f ==> (#[trigger] access.shared.controller.features@[j]).device_id@
                != device_id@,
    ensures
        ({
            let enabled = access.shared.config.devices@[d].feature_defaults;
            let active = access.shared.controller.features@[f].state.forwarding;
            let line = access.shared.binding_spec(device_id@, line_instance);
            let timing = access.shared.config.general.signaling;
            let can = line is Some && dial_terminator is Ok;
            &&& action is Disable <==> can && ((soft_key is ForwardAll
                && enabled.forward_all_enabled && active.all is Some) || (soft_key is ForwardBusy
                && enabled.forward_busy_enabled && active.busy is Some) || (
            soft_key is ForwardNoAnswer && enabled.forward_no_answer_enabled
                && active.no_answer is Some))
            &&& action is Collect <==> can && codec is Some && ((soft_key is ForwardAll
                && enabled.forward_all_enabled && active.all is None) || (soft_key is ForwardBusy
                && enabled.forward_busy_enabled && active.busy is None) || (
            soft_key is ForwardNoAnswer && enabled.forward_no_answer_enabled
                && active.no_answer is None))
            &&& action matches ForwardingKeyAction::Disable { line: number, kind } ==> *number
                == line->0.line.number && (kind == ForwardingKind::All <==> soft_key is ForwardAll)
                && (kind == ForwardingKind::Busy <==> soft_key is ForwardBusy) && (kind
                == ForwardingKind::NoAnswer <==> soft_key is ForwardNoAnswer)
            &&& action matches ForwardingKeyAction::Collect(entry) ==> {
                &&& entry.line_instance == line_instance
                &&& codec == Some(entry.codec)
                &&& dial_terminator == Ok::<Option<DialDigit>, String>(entry.dial_terminator)
                &&& entry.first_digit_timeout_ms == timing.first_digit_timeout_ms
                &&& entry.interdigit_timeout_ms == timing.interdigit_timeout_ms
                &&& entry.kind == ForwardingKind::All <==> soft_key is ForwardAll
                &&& entry.kind == ForwardingKind::Busy <==> soft_key is ForwardBusy
                &&& entry.kind == ForwardingKind::NoAnswer <==> soft_key is ForwardNoAnswer
            }
        }),
{
    lookup::lemma_first_is(access.shared.config.devices@, config::is_device(device_id@), d);
    lookup::lemma_first_is(
        access.shared.controller.features@,
        controller::features_of(device_id@),
        f,
    );
}

/// An entry begins a call on the station, then asks for the destination. What was
/// sent is reported for the entry with the outcome that it had, and a station that
/// may show the call is relieved of it where the entry is gone.
pub proof fn law_entries_begin_ask_and_settle(
    device_id: DeviceId,
    call_id: CallId,
    line_instance: u32,
    codec: Codec,
    state: CollectionState,
    reply: CollectionReply,
    after: CollectionState,
    action: CollectionAction,
)
    requires
        call_ensures(
            begin_collection,
            (device_id, call_id, line_instance, codec, state, reply),
            (after, action),
        ),
    ensures
        action matches CollectionAction::Settle { entry, outcome } ==> (reply
            == CollectionReply::Sent(outcome) && (state == CollectionState::Beginning(entry)
            || state == CollectionState::Prompting(entry))),
        (state is Beginning || state is Prompting) && reply is Sent ==> action is Settle,
        state is Beginning && reply is Sent ==> (after matches CollectionState::SettlingBegin {
            entry,
            outcome,
        } && state == CollectionState::Beginning(entry) && reply == CollectionReply::Sent(outcome)),
        state is Prompting && reply is Sent ==> (after matches CollectionState::SettlingPrompt(
            entry,
        ) && state == CollectionState::Prompting(entry)),
        state is Entering ==> (reply matches CollectionReply::Entered(Some(entry)) ==> after
            == CollectionState::Beginning(entry) && (action matches CollectionAction::Send(command)
            && command.device_id == device_id && command.action == (PhoneCommandAction::BeginCall {
            line_instance,
            call_id,
            codec,
        }))),
        state is SettlingBegin && reply == CollectionReply::Settled(true) ==> (action matches
            CollectionAction::Send(command) && command.device_id == device_id && command.action
            == (PhoneCommandAction::DisplayPrompt {
            call_id,
            timeout_seconds: 0,
            prompt: Prompt::EnterForwardingDestination,
        })) && after is Prompting,
        state is SettlingBegin && reply == CollectionReply::Settled(false) ==> after is Done && (
        action is Send <==> state->SettlingBegin_outcome == ForwardingWriteOutcome::Written),
        state is SettlingPrompt && reply == CollectionReply::Settled(false) ==> action is Send,
        after is Done ==> (action matches CollectionAction::Send(command) ==> command.device_id
            == device_id && command.action == (PhoneCommandAction::CloseCall { call_id })),
        state is Entering && reply == CollectionReply::Entered(None) ==> action is Finish,
        state is SettlingPrompt && reply == CollectionReply::Settled(true) ==> action is Finish,
{
}

/// What a station enters goes to its own entry and to no other; an entry of another
/// station on the call takes the input, and without one it is left to the call.
pub proof fn law_input_goes_to_the_entry_of_the_station(
    access: &Access,
    device_id: DeviceId,
    call_id: CallId,
    digit: ForwardingDigitOutcome,
    accepted: bool,
    prepared: Option<ForwardingCommit>,
    exists_: bool,
    taken: ForwardingInputAction,
    erased: bool,
    replaced: ForwardingReplaceAction,
    replaced_and_committed: ForwardingReplaceAction,
    committed: ForwardingInputAction,
    cancelled: bool,
)
    requires
        call_ensures(forwarding_entry_exists, (access, &device_id, call_id), exists_),
        call_ensures(handle_forwarding_digit, (access, device_id, call_id, digit), taken),
        call_ensures(handle_forwarding_backspace, (access, &device_id, call_id), erased),
        call_ensures(
            replace_forwarding_entry,
            (access, device_id, call_id, accepted),
            replaced,
        ),
        call_ensures(
            replace_and_commit_forwarding_entry,
            (access, device_id, call_id, accepted),
            replaced_and_committed,
        ),
        call_ensures(commit_forwarding_entry, (access, device_id, call_id, prepared), committed),
        call_ensures(
            cancel_forwarding_entry_for_call,
            (access, &device_id, call_id, true),
            cancelled,
        ),
    ensures
        erased == exists_ && cancelled == exists_,
        taken is NotCollecting <==> replaced is NotCollecting,
        taken is NotCollecting <==> replaced_and_committed is NotCollecting,
        exists_ ==> !(taken is NotCollecting),
        !exists_ && !(taken is NotCollecting) ==> taken is Taken && replaced is Taken
            && replaced_and_committed is Taken,
        committed is NotCollecting <==> !exists_,
        taken is Commit <==> exists_ && digit is Commit,
        taken matches ForwardingInputAction::Commit(commit) ==> digit
            == ForwardingDigitOutcome::Commit(commit),
        taken is Show <==> exists_ && digit is Refused,
        taken matches ForwardingInputAction::Show(command) ==> command.device_id == device_id && (
        command.action matches PhoneCommandAction::DisplayPrompt { call_id: on, prompt, .. } && on
            == call_id && (prompt == Prompt::EnterAForwardingDestination <==> digit
            == ForwardingDigitOutcome::Refused(ForwardingRejection::InvalidDestination)) && (prompt
            == Prompt::ForwardingDestinationIsTooLong <==> digit != ForwardingDigitOutcome::Refused(
            ForwardingRejection::InvalidDestination,
        ))),
        replaced is Show <==> exists_ && !accepted,
        replaced_and_committed is Show <==> exists_ && !accepted,
        !(replaced is BeginCommit),
        replaced_and_committed is BeginCommit <==> exists_ && accepted,
        committed is Commit <==> exists_ && prepared is Some,
        committed matches ForwardingInputAction::Commit(commit) ==> prepared == Some(commit),
        replaced matches ForwardingReplaceAction::Show(command) ==> command.device_id == device_id
            && command.action == (PhoneCommandAction::DisplayPrompt {
            call_id,
            timeout_seconds: 4,
            prompt: Prompt::InvalidForwardingDestination,
        }),
{
}

/// An entry of the station on the call is found by both; another station's entry on
/// the call is not its own.
pub proof fn law_entries_belong_to_station_and_call(
    access: &Access,
    device_id: DeviceId,
    call_id: CallId,
    exists_: bool,
    any_cancelled: bool,
    i: int,
)
    requires
        call_ensures(forwarding_entry_exists, (access, &device_id, call_id), exists_),
        call_ensures(
            cancel_forwarding_entry_for_device,
            (access, &device_id, true),
            any_cancelled,
        ),
        0 <= i <= access.shared.controller.forwarding_entries@.len(),
        forall|j: int|
            0 <= j < i ==> (#[trigger] access.shared.controller.forwarding_entries@[j]).call_id
                != call_id,
        i < access.shared.controller.forwarding_entries@.len()
            ==> access.shared.controller.forwarding_entries@[i].call_id == call_id,
    ensures
        exists_ <==> i < access.shared.controller.forwarding_entries@.len()
            && access.shared.controller.forwarding_entries@[i].device_id@ == device_id@,
        any_cancelled <==> exists|k: int|
            0 <= k < access.shared.controller.forwarding_entries@.len() && (
            #[trigger] access.shared.controller.forwarding_entries@[k]).device_id@ == device_id@,
{
    let entries = access.shared.controller.forwarding_entries@;
    let p = controller::collects_on(call_id);
    if i == entries.len() {
        lookup::lemma_first_none(entries, p);
    } else {
        lookup::lemma_first_is(entries, p, i);
    }
    let q = collected_by(device_id@);
    if lookup::some(entries, q) {
        let k = choose|k: int| 0 <= k < entries.len() && q(#[trigger] entries[k]);
        assert(entries[k].device_id@ == device_id@);
    }
    if exists|k: int|
        0 <= k < entries.len() && (#[trigger] entries[k]).device_id@ == device_id@ {
        let k = choose|k: int|
            0 <= k < entries.len() && (#[trigger] entries[k]).device_id@ == device_id@;
        assert(q(entries[k]));
    }
}

/// A finished entry closes its call first, settles with the outcome of that, sets
/// the forwarding of its line once it is settled, and is committed exactly if the
/// forwarding was set; an entry that runs out of time closes its call or is
/// finished like any other.
pub proof fn law_finished_entries_set_the_forwarding<'a>(
    access: &'a Access,
    commit: ForwardingCommit,
    state: CommitState,
    reply: CommitReply,
    first: (CommitState, CommitAction<'a>),
    after: CommitState,
    action: CommitAction<'a>,
    expiry: ForwardingExpiry,
    expired: ForwardingInputAction,
)
    requires
        call_ensures(finish_forwarding_commit, (&commit,), first),
        call_ensures(
            continue_forwarding_commit,
            (access, &commit, state, reply),
            (after, action),
        ),
        call_ensures(expire_forwarding_entry, (expiry,), expired),
    ensures
        first.0 is Closing && (first.1 matches CommitAction::Send(command) && command.device_id
            == commit.device_id && command.action == (PhoneCommandAction::CloseCall {
            call_id: commit.call_id,
        })),
        action is Settle <==> state is Closing && reply is Sent,
        action matches CommitAction::Settle(outcome) ==> reply == CommitReply::Sent(outcome),
        action is SetForwarding <==> state is Settling && reply == CommitReply::Settled(true)
            && access.shared.binding_spec(commit.device_id@, commit.line_instance) is Some,
        action matches CommitAction::SetForwarding { line } ==> *line == access.shared.binding_spec(
            commit.device_id@,
            commit.line_instance,
        )->0.line.number,
        action is Commit <==> state is Mutating && reply == CommitReply::Mutated(true),
        action is Cancel <==> (state is Mutating && reply == CommitReply::Mutated(false)) || (
        state is Settling && reply == CommitReply::Settled(true) && access.shared.binding_spec(
            commit.device_id@,
            commit.line_instance,
        ) is None),
        !(action is Send),
        after is Settling <==> action is Settle,
        after is Mutating <==> action is SetForwarding,
        expired is Commit <==> expiry is Commit,
        expired matches ForwardingInputAction::Commit(due) ==> expiry == ForwardingExpiry::Commit(
            due,
        ),
        expiry matches ForwardingExpiry::Cancel { device_id, call_id } ==> (expired matches
            ForwardingInputAction::Show(command) && command.device_id == device_id
            && command.action == (PhoneCommandAction::CloseCall { call_id })),
{
}

/// An unanswered call is routed where its timer says, and shown on its line exactly
/// if it was routed; a write counts only if it was confirmed in time, and a timer
/// as cancelled only if that was answered.
pub proof fn law_unanswered_calls_go_where_the_timer_says(
    timer: NoAnswerTimer,
    routed: bool,
    line: Option<String>,
    operation: ForwardingOperation,
    outcome: NoAnswerOutcome,
    in_time: bool,
    confirmed: bool,
    written: ForwardingWriteOutcome,
    answer: Option<bool>,
    cancelled: bool,
)
    requires
        call_ensures(no_answer_operation, (&timer,), operation),
        call_ensures(execute_no_answer_route, (&timer, routed, line), outcome),
        call_ensures(send_confirmed_forwarding, (in_time, confirmed), written),
        call_ensures(cancel_no_answer_timer, (answer,), cancelled),
    ensures
        operation.call_id == timer.call_id && operation.context == timer.context
            && operation.destination == timer.destination,
        outcome.call_id == timer.call_id && outcome.timer_id == timer.id,
        outcome.routed == routed && outcome.execute_effects == routed,
        routed ==> outcome.publish == line,
        !routed ==> outcome.publish is None,
        written == ForwardingWriteOutcome::Written <==> in_time && confirmed,
        cancelled <==> answer == Some(true),
{
}

/// A digit on a collection of this station ends it, goes on with it or is refused
/// with the reason; one on that of another station is swallowed, and one on no
/// collection belongs to the call.
pub proof fn law_digits_serve_the_collection_of_their_station(
    access: &Access,
    device_id: DeviceId,
    call_id: CallId,
    outcome: ForwardingDigitOutcome,
    collector: ForwardingCollector,
    action: ForwardingInputAction,
)
    requires
        call_ensures(handle_forwarding_digit, (access, device_id, call_id, outcome), action),
        call_ensures(forwarding_collector, (access, &device_id, call_id), collector),
    ensures
        action is NotCollecting <==> collector is Nobody,
        collector is AnotherStation ==> action is Taken,
        collector is ThisStation ==> {
            &&& action is Taken <==> outcome is Collected
            &&& action is Commit <==> outcome is Commit
            &&& outcome matches ForwardingDigitOutcome::Commit(commit) ==> action
                == ForwardingInputAction::Commit(commit)
            &&& outcome matches ForwardingDigitOutcome::Refused(rejection) ==> (
            action matches ForwardingInputAction::Show(told) && told.device_id == device_id && (
            told.action matches PhoneCommandAction::DisplayPrompt { call_id: on, prompt, .. } && on
                == call_id && (prompt == Prompt::EnterAForwardingDestination <==> rejection
                == ForwardingRejection::InvalidDestination) && (prompt
                == Prompt::ForwardingDestinationIsTooLong <==> rejection
                != ForwardingRejection::InvalidDestination)))
        },
{
}

} // verus!
