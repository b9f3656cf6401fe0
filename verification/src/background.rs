//! The picture behind what a handset shows: which one applies, how it is sent and
//! what the operator is told about it.

use vstd::prelude::*;
use vstd::string::*;

use crate::access::Access;
use crate::commands::{PhoneCommand, PhoneCommandAction};
use crate::config;
use crate::controller;
use crate::ids::DeviceId;
use crate::lookup;
use crate::text::{self, same_ignoring_case};

verus! {

/// Why a request about a background came to nothing.
#[derive(Debug, PartialEq, Eq)]
pub enum BackgroundRuntimeError {
    Store(String),
    Resolution(String),
    Delivery(String),
    QueueFull,
    Stopped,
    TimedOut,
}

impl BackgroundRuntimeError {
    pub open spec fn text_spec(self) -> Seq<char> {
        match self {
            BackgroundRuntimeError::Store(reason) => reason@,
            BackgroundRuntimeError::Resolution(reason) => reason@,
            BackgroundRuntimeError::Delivery(reason) => reason@,
            BackgroundRuntimeError::QueueFull => "background request queue is full"@,
            BackgroundRuntimeError::Stopped => "background runtime has stopped"@,
            BackgroundRuntimeError::TimedOut => "background request timed out"@,
        }
    }

    /// The error in words.
    pub fn text(&self) -> (text: &str)
        ensures
            text@ == self.text_spec(),
    {
        match self {
            BackgroundRuntimeError::Store(reason) => reason.as_str(),
            BackgroundRuntimeError::Resolution(reason) => reason.as_str(),
            BackgroundRuntimeError::Delivery(reason) => reason.as_str(),
            BackgroundRuntimeError::QueueFull => "background request queue is full",
            BackgroundRuntimeError::Stopped => "background runtime has stopped",
            BackgroundRuntimeError::TimedOut => "background request timed out",
        }
    }
}

/// What became of a request to the owner of the backgrounds.
#[derive(Debug, PartialEq, Eq)]
pub enum BackgroundReply<T> {
    Answered(T),
    QueueFull,
    Stopped,
    TimedOut,
}

/// The answer, or why there is none.
pub fn background_reply<T>(reply: BackgroundReply<T>) -> (result: Result<T, BackgroundRuntimeError>)
    ensures
        result == match reply {
            BackgroundReply::Answered(answer) => Ok::<T, BackgroundRuntimeError>(answer),
            BackgroundReply::QueueFull => Err(BackgroundRuntimeError::QueueFull),
            BackgroundReply::Stopped => Err(BackgroundRuntimeError::Stopped),
            BackgroundReply::TimedOut => Err(BackgroundRuntimeError::TimedOut),
        },
{
    match reply {
        BackgroundReply::Answered(answer) => Ok(answer),
        BackgroundReply::QueueFull => Err(BackgroundRuntimeError::QueueFull),
        BackgroundReply::Stopped => Err(BackgroundRuntimeError::Stopped),
        BackgroundReply::TimedOut => Err(BackgroundRuntimeError::TimedOut),
    }
}

/// Where a thumbnail comes from.
#[derive(Clone, Copy, Debug, PartialEq, Eq, Structural)]
pub enum BackgroundThumbnailSource {
    Explicit,
    Derived,
    Dynamic,
}

/// A picture with its thumbnail.
#[derive(Debug, PartialEq, Eq)]
pub struct DeviceBackground {
    pub image_url: String,
    pub thumbnail_url: String,
    pub thumbnail_source: BackgroundThumbnailSource,
}

/// What a model of station makes of a background.
#[derive(Debug, PartialEq, Eq)]
pub enum ResolvedDeviceBackground {
    /// The model takes over the picture with its thumbnail.
    Install(DeviceBackground),
    /// The model only displays pictures.
    Display(String),
}

/// A configured background, as the model of the station resolves it.
#[derive(Debug, PartialEq, Eq)]
pub enum DeviceBackgroundSelection {
    Static(Option<ResolvedDeviceBackground>),
    /// A pattern that depends on the model.
    Dynamic(Result<Option<ResolvedDeviceBackground>, String>),
}

/// The background that applies to a station.
#[derive(Debug, PartialEq, Eq)]
pub enum EffectiveBackground {
    Unconfigured,
    ConfiguredStatic(Option<ResolvedDeviceBackground>),
    ConfiguredDynamic(Option<ResolvedDeviceBackground>),
    Override(Option<ResolvedDeviceBackground>),
}

impl EffectiveBackground {
    pub open spec fn background_spec(self) -> Option<ResolvedDeviceBackground> {
        match self {
            EffectiveBackground::Unconfigured => None,
            EffectiveBackground::ConfiguredStatic(background) => background,
            EffectiveBackground::ConfiguredDynamic(background) => background,
            EffectiveBackground::Override(background) => background,
        }
    }

    /// What is sent to the station.
    pub fn into_background(self) -> (background: Option<ResolvedDeviceBackground>)
        ensures
            background == self.background_spec(),
    {
        match self {
            EffectiveBackground::Unconfigured => None,
            EffectiveBackground::ConfiguredStatic(background) => background,
            EffectiveBackground::ConfiguredDynamic(background) => background,
            EffectiveBackground::Override(background) => background,
        }
    }

    pub open spec fn description_spec(self) -> (Seq<char>, Seq<char>, Seq<char>) {
        match self {
            EffectiveBackground::Unconfigured => ("none"@, "none"@, "none"@),
            EffectiveBackground::ConfiguredStatic(background) => (
                "configuration"@,
                "static"@,
                thumbnail_words(background),
            ),
            EffectiveBackground::ConfiguredDynamic(_) => ("configuration"@, "dynamic"@, "dynamic"@),
            EffectiveBackground::Override(background) => (
                "override"@,
                "static"@,
                thumbnail_words(background),
            ),
        }
    }

    /// Where the background comes from, how it is made, and where its thumbnail
    /// comes from.
    pub fn description(&self) -> (words: (&'static str, &'static str, &'static str))
        ensures
            (words.0@, words.1@, words.2@) == self.description_spec(),
    {
        match self {
            EffectiveBackground::Unconfigured => ("none", "none", "none"),
            EffectiveBackground::ConfiguredStatic(background) => (
                "configuration",
                "static",
                thumbnail_description(background),
            ),
            EffectiveBackground::ConfiguredDynamic(_) => ("configuration", "dynamic", "dynamic"),
            EffectiveBackground::Override(background) => (
                "override",
                "static",
                thumbnail_description(background),
            ),
        }
    }
}

pub open spec fn thumbnail_words(background: Option<ResolvedDeviceBackground>) -> Seq<char> {
    match background {
        Some(ResolvedDeviceBackground::Install(background)) => match background.thumbnail_source {
            BackgroundThumbnailSource::Explicit => "explicit"@,
            BackgroundThumbnailSource::Derived => "derived"@,
            BackgroundThumbnailSource::Dynamic => "dynamic"@,
        },
        _ => "none"@,
    }
}

pub fn thumbnail_description(background: &Option<ResolvedDeviceBackground>) -> (words: &'static str)
    ensures
        words@ == thumbnail_words(*background),
{
    match background {
        Some(ResolvedDeviceBackground::Install(background)) => match background.thumbnail_source {
            BackgroundThumbnailSource::Explicit => "explicit",
            BackgroundThumbnailSource::Derived => "derived",
            BackgroundThumbnailSource::Dynamic => "dynamic",
        },
        _ => "none",
    }
}

pub open spec fn effective_spec(
    override_background: Option<Option<ResolvedDeviceBackground>>,
    selection: Option<DeviceBackgroundSelection>,
    model_known: bool,
) -> Result<EffectiveBackground, String> {
    match (override_background, selection) {
        (Some(background), _) => Ok(EffectiveBackground::Override(background)),
        (None, None) => Ok(EffectiveBackground::Unconfigured),
        (None, Some(DeviceBackgroundSelection::Static(background))) => Ok(
            EffectiveBackground::ConfiguredStatic(background),
        ),
        (None, Some(DeviceBackgroundSelection::Dynamic(resolved))) => if !model_known {
            Ok(EffectiveBackground::ConfiguredDynamic(None))
        } else {
            match resolved {
                Ok(background) => Ok(EffectiveBackground::ConfiguredDynamic(background)),
                Err(error) => Err(error),
            }
        },
    }
}

/// The background that applies: one that the operator set before a configured
/// one. A pattern waits until the model of the station is known.
pub fn resolve_effective_background(
    override_background: Option<Option<ResolvedDeviceBackground>>,
    selection: Option<DeviceBackgroundSelection>,
    model_known: bool,
) -> (effective: Result<EffectiveBackground, String>)
    ensures
        effective == effective_spec(override_background, selection, model_known),
{
    match (override_background, selection) {
        (Some(background), _) => Ok(EffectiveBackground::Override(background)),
        (None, None) => Ok(EffectiveBackground::Unconfigured),
        (None, Some(DeviceBackgroundSelection::Static(background))) => Ok(
            EffectiveBackground::ConfiguredStatic(background),
        ),
        (None, Some(DeviceBackgroundSelection::Dynamic(resolved))) => {
            if !model_known {
                return Ok(EffectiveBackground::ConfiguredDynamic(None));
            }
            match resolved {
                Ok(background) => Ok(EffectiveBackground::ConfiguredDynamic(background)),
                Err(error) => Err(error),
            }
        },
    }
}

/// The background that applies to a station, given what the store and the
/// configuration say; its model is known while it is registered.
pub fn effective_background(
    access: &Access,
    device: &DeviceId,
    stored: Result<Option<Option<ResolvedDeviceBackground>>, String>,
    selection: Option<DeviceBackgroundSelection>,
) -> (effective: Result<EffectiveBackground, BackgroundRuntimeError>)
    ensures
        match stored {
            Err(error) => effective == Err::<EffectiveBackground, BackgroundRuntimeError>(
                BackgroundRuntimeError::Store(error),
            ),
            Ok(override_background) => match effective_spec(
                override_background,
                selection,
                access.shared.controller.registered_spec(device@),
            ) {
                Ok(background) => effective == Ok::<EffectiveBackground, BackgroundRuntimeError>(
                    background,
                ),
                Err(error) => effective == Err::<EffectiveBackground, BackgroundRuntimeError>(
                    BackgroundRuntimeError::Resolution(error),
                ),
            },
        },
{
    match stored {
        Err(error) => Err(BackgroundRuntimeError::Store(error)),
        Ok(override_background) => match resolve_effective_background(
            override_background,
            selection,
            access.shared.controller.is_registered(device),
        ) {
            Ok(background) => Ok(background),
            Err(error) => Err(BackgroundRuntimeError::Resolution(error)),
        },
    }
}

/// The pictures are the same, whatever was known of where they come from.
pub open spec fn same_resources_spec(
    left: Option<ResolvedDeviceBackground>,
    right: Option<ResolvedDeviceBackground>,
) -> bool {
    match (left, right) {
        (
            Some(ResolvedDeviceBackground::Install(left)),
            Some(ResolvedDeviceBackground::Install(right)),
        ) => left.image_url@ == right.image_url@ && left.thumbnail_url@ == right.thumbnail_url@,
        (
            Some(ResolvedDeviceBackground::Display(left)),
            Some(ResolvedDeviceBackground::Display(right)),
        ) => left@ == right@,
        (None, None) => true,
        _ => false,
    }
}

pub fn same_resources(
    left: &Option<ResolvedDeviceBackground>,
    right: &Option<ResolvedDeviceBackground>,
) -> (same: bool)
    ensures
        same == same_resources_spec(*left, *right),
{
    match (left, right) {
        (
            Some(ResolvedDeviceBackground::Install(left)),
            Some(ResolvedDeviceBackground::Install(right)),
        ) => left.image_url == right.image_url && left.thumbnail_url == right.thumbnail_url,
        (
            Some(ResolvedDeviceBackground::Display(left)),
            Some(ResolvedDeviceBackground::Display(right)),
        ) => *left == *right,
        (None, None) => true,
        _ => false,
    }
}

/// What a reloaded configuration means for one station.
#[derive(Debug, PartialEq, Eq)]
pub enum BackgroundReconciliation {
    Keep,
    Deliver(ResolvedDeviceBackground),
    Fail(BackgroundRuntimeError),
}

pub open spec fn reconciliation_spec(
    overridden: Result<bool, String>,
    previous: Result<Option<ResolvedDeviceBackground>, String>,
    current: Result<Option<ResolvedDeviceBackground>, String>,
) -> BackgroundReconciliation {
    match overridden {
        Err(error) => BackgroundReconciliation::Fail(BackgroundRuntimeError::Store(error)),
        Ok(true) => BackgroundReconciliation::Keep,
        Ok(false) => match (previous, current) {
            (Err(error), _) => BackgroundReconciliation::Fail(
                BackgroundRuntimeError::Resolution(error),
            ),
            (Ok(_), Err(error)) => BackgroundReconciliation::Fail(
                BackgroundRuntimeError::Resolution(error),
            ),
            (Ok(previous), Ok(current)) => if same_resources_spec(previous, current) {
                BackgroundReconciliation::Keep
            } else {
                match current {
                    Some(background) => BackgroundReconciliation::Deliver(background),
                    None => BackgroundReconciliation::Keep,
                }
            },
        },
    }
}

/// Decides what a reloaded configuration means for one registered station: a
/// configured background is sent where it changed and the operator set no other.
pub fn reconcile_background(
    overridden: Result<bool, String>,
    previous: Result<Option<ResolvedDeviceBackground>, String>,
    current: Result<Option<ResolvedDeviceBackground>, String>,
) -> (step: BackgroundReconciliation)
    ensures
        step == reconciliation_spec(overridden, previous, current),
{
    match overridden {
        Err(error) => {
            return BackgroundReconciliation::Fail(BackgroundRuntimeError::Store(error));
        },
        Ok(true) => {
            return BackgroundReconciliation::Keep;
        },
        Ok(false) => {},
    }
    let previous = match previous {
        Ok(background) => background,
        Err(error) => {
            return BackgroundReconciliation::Fail(BackgroundRuntimeError::Resolution(error));
        },
    };
    let current = match current {
        Ok(background) => background,
        Err(error) => {
            return BackgroundReconciliation::Fail(BackgroundRuntimeError::Resolution(error));
        },
    };
    if same_resources(&previous, &current) {
        return BackgroundReconciliation::Keep;
    }
    match current {
        Some(background) => BackgroundReconciliation::Deliver(background),
        None => BackgroundReconciliation::Keep,
    }
}

/// What a configured background resolves to; none is configured without a
/// selection.
pub fn resolve_configured_background(
    selection: Option<Result<Option<ResolvedDeviceBackground>, String>>,
) -> (resolved: Result<Option<ResolvedDeviceBackground>, String>)
    ensures
        resolved == match selection {
            Some(resolved) => resolved,
            None => Ok(None),
        },
{
    match selection {
        Some(resolved) => resolved,
        None => Ok(None),
    }
}

/// The model of a registered station.
pub fn registered_device_type(access: &Access, device: &DeviceId) -> (device_type: Option<u32>)
    ensures
        device_type == match lookup::first(
            access.shared.controller.registered@,
            controller::is_station(device@),
        ) {
            Some(registered) => Some(registered.registration.device_type),
            None => None,
        },
{
    match access.shared.controller.registered_device(device) {
        Some(registered) => Some(registered.registration.device_type),
        None => None,
    }
}

/// Numbers the pictures that are sent.
#[derive(Debug, PartialEq, Eq)]
pub struct BackgroundRuntime {
    pub next_transaction_id: u32,
}

/// The number after this one; zero is left out.
pub open spec fn following(id: u32) -> u32 {
    if id == u32::MAX {
        1
    } else {
        (id + 1) as u32
    }
}

/// The command that sends a picture.
pub open spec fn background_command(
    device_id: DeviceId,
    transaction_id: u32,
    background: ResolvedDeviceBackground,
) -> PhoneCommand {
    PhoneCommand {
        device_id,
        action: match background {
            ResolvedDeviceBackground::Install(background) => PhoneCommandAction::SetBackgroundImage {
                transaction_id,
                image_url: background.image_url,
                thumbnail_url: background.thumbnail_url,
            },
            ResolvedDeviceBackground::Display(image_url) =>
                PhoneCommandAction::DisplayBackgroundImage { transaction_id, image_url },
        },
    }
}

/// What is known of a registered station when the configuration was reloaded.
#[derive(Debug, PartialEq, Eq)]
pub struct StationBackground {
    pub device: DeviceId,
    /// The operator set another background, or why that is not known.
    pub overridden: Result<bool, String>,
    /// What was configured, see [`resolve_configured_background`].
    pub previous: Result<Option<ResolvedDeviceBackground>, String>,
    /// What is configured now.
    pub current: Result<Option<ResolvedDeviceBackground>, String>,
}

/// What a reload comes to for a station where anything does.
#[derive(Debug, PartialEq, Eq)]
pub enum ReconciledBackground {
    Deliver(PhoneCommand),
    Failed { device: DeviceId, error: BackgroundRuntimeError },
}

/// What a reload comes to for some stations, in their order, and the number that is
/// next after it. Only what is sent takes a number.
pub open spec fn reconciled_spec(next: u32, stations: Seq<StationBackground>) -> (
    Seq<ReconciledBackground>,
    u32,
)
    decreases stations.len(),
{
    if stations.len() == 0 {
        (Seq::empty(), next)
    } else {
        let (done, id) = reconciled_spec(next, stations.drop_last());
        let station = stations.last();
        match reconciliation_spec(station.overridden, station.previous, station.current) {
            BackgroundReconciliation::Keep => (done, id),
            BackgroundReconciliation::Deliver(background) => (
                done.push(
                    ReconciledBackground::Deliver(
                        background_command(station.device, id, background),
                    ),
                ),
                following(id),
            ),
            BackgroundReconciliation::Fail(error) => (
                done.push(ReconciledBackground::Failed { device: station.device, error }),
                id,
            ),
        }
    }
}

impl BackgroundRuntime {
    /// Brings the registered stations up to date with a reloaded configuration.
    pub fn reconcile_backgrounds(&mut self, stations: Vec<StationBackground>) -> (reconciled: Vec<
        ReconciledBackground,
    >)
        requires
            old(self).wf(),
        ensures
            (reconciled@, final(self).next_transaction_id) == reconciled_spec(
                old(self).next_transaction_id,
                stations@,
            ),
            final(self).wf(),
    {
        let ghost all = stations@;
        let ghost first = self.next_transaction_id;
        let mut stations = stations;
        let mut reconciled: Vec<ReconciledBackground> = Vec::new();
        let ghost mut n: int = 0;
        proof {
            assert(all.take(0) =~= Seq::empty());
            assert(all.skip(0) =~= all);
        }
        while stations.len() > 0
            invariant
                0 <= n <= all.len(),
                stations@ == all.skip(n),
                (reconciled@, self.next_transaction_id) == reconciled_spec(first, all.take(n)),
                self.wf(),
            decreases stations@.len(),
        {
            proof {
                assert(all.skip(n)[0] == all[n]);
                assert(all.take(n + 1).drop_last() =~= all.take(n));
                assert(all.skip(n).remove(0) =~= all.skip(n + 1));
            }
            let station = stations.remove(0);
            match reconcile_background(station.overridden, station.previous, station.current) {
                BackgroundReconciliation::Keep => {},
                BackgroundReconciliation::Deliver(background) => {
                    let command = self.deliver(station.device, background);
                    reconciled.push(ReconciledBackground::Deliver(command));
                },
                BackgroundReconciliation::Fail(error) => {
                    reconciled.push(ReconciledBackground::Failed { device: station.device, error });
                },
            }
            proof {
                n = n + 1;
            }
        }
        proof {
            assert(all.take(n) =~= all);
        }
        reconciled
    }

    pub open spec fn wf(self) -> bool {
        self.next_transaction_id != 0
    }

    pub fn new() -> (runtime: Self)
        ensures
            runtime.wf(),
            runtime.next_transaction_id == 1,
    {
        BackgroundRuntime { next_transaction_id: 1 }
    }

    /// Takes the next number.
    pub fn next_transaction_id(&mut self) -> (id: u32)
        ensures
            id == old(self).next_transaction_id,
            final(self).next_transaction_id == following(old(self).next_transaction_id),
            final(self).wf(),
    {
        let current: u32 = self.next_transaction_id;
        self.next_transaction_id = if current == u32::MAX {
            1
        } else {
            current + 1
        };
        current
    }

    /// The command that sends a picture.
    pub fn deliver(&mut self, device: DeviceId, background: ResolvedDeviceBackground) -> (command:
        PhoneCommand)
        ensures
            command == background_command(device, old(self).next_transaction_id, background),
            final(self).next_transaction_id == following(old(self).next_transaction_id),
            final(self).wf(),
    {
        let transaction_id: u32 = self.next_transaction_id();
        let action = match background {
            ResolvedDeviceBackground::Install(background) => PhoneCommandAction::SetBackgroundImage {
                transaction_id,
                image_url: background.image_url,
                thumbnail_url: background.thumbnail_url,
            },
            ResolvedDeviceBackground::Display(image_url) =>
                PhoneCommandAction::DisplayBackgroundImage { transaction_id, image_url },
        };
        PhoneCommand::new(device, action)
    }

    /// What is sent to a station that registered.
    pub fn apply_registered(
        &mut self,
        device: DeviceId,
        effective: Result<EffectiveBackground, BackgroundRuntimeError>,
    ) -> (command: Result<Option<PhoneCommand>, BackgroundRuntimeError>)
        ensures
            match effective {
                Err(error) => {
                    &&& command == Err::<Option<PhoneCommand>, BackgroundRuntimeError>(error)
                    &&& *final(self) == *old(self)
                },
                Ok(effective) => match effective.background_spec() {
                    Some(background) => {
                        &&& command == Ok::<Option<PhoneCommand>, BackgroundRuntimeError>(
                            Some(
                                background_command(
                                    device,
                                    old(self).next_transaction_id,
                                    background,
                                ),
                            ),
                        )
                        &&& final(self).next_transaction_id == following(
                            old(self).next_transaction_id,
                        )
                    },
                    None => {
                        &&& command == Ok::<Option<PhoneCommand>, BackgroundRuntimeError>(None)
                        &&& *final(self) == *old(self)
                    },
                },
            },
    {
        match effective {
            Err(error) => Err(error),
            Ok(effective) => match effective.into_background() {
                Some(background) => Ok(Some(self.deliver(device, background))),
                None => Ok(None),
            },
        }
    }
}

/// What an operator asks about a background.
#[derive(Debug, PartialEq, Eq)]
pub enum BackgroundCliOperation {
    Show,
    Put { image_url: String, thumbnail_url: Option<String> },
    Reset,
}

/// What typed words come to.
#[derive(Debug, PartialEq, Eq)]
pub enum BackgroundCli {
    Reply(String),
    Execute { device: DeviceId, operation: BackgroundCliOperation },
}

pub open spec fn failure_text(reason: Seq<char>) -> Seq<char> {
    "Background command failed: "@ + reason + "\n"@
}

pub open spec fn not_configured_text(device: Seq<char>) -> Seq<char> {
    "Background command failed: device "@ + device + " is not configured\n"@
}

fn failure(reason: &str) -> (text: String)
    ensures
        text@ == failure_text(reason@),
{
    let mut text = "Background command failed: ".to_owned();
    text.append(reason);
    text.append("\n");
    text
}

fn not_configured(device: &DeviceId) -> (text: String)
    ensures
        text@ == not_configured_text(device@),
{
    let mut text = "Background command failed: device ".to_owned();
    text.append(device.as_str());
    text.append(" is not configured\n");
    text
}

fn about(device: &DeviceId, words: &str) -> (text: String)
    ensures
        text@ == device@ + words@,
{
    let mut text = device.as_str().to_owned();
    text.append(words);
    text
}

/// The operation that typed words ask for: the station comes first, then `show`,
/// `reset` or `set` in any case, and after `set` one or two addresses.
pub open spec fn parsed_operation(
    arguments: Seq<String>,
    operation: Option<BackgroundCliOperation>,
) -> bool {
    if arguments.len() == 2 && text::same_letters(arguments[1]@, "show"@) {
        operation == Some(BackgroundCliOperation::Show)
    } else if arguments.len() == 2 && text::same_letters(arguments[1]@, "reset"@) {
        operation == Some(BackgroundCliOperation::Reset)
    } else if arguments.len() == 3 && text::same_letters(arguments[1]@, "set"@) {
        operation == Some(
            BackgroundCliOperation::Put { image_url: arguments[2], thumbnail_url: None },
        )
    } else if arguments.len() == 4 && text::same_letters(arguments[1]@, "set"@) {
        operation == Some(
            BackgroundCliOperation::Put {
                image_url: arguments[2],
                thumbnail_url: Some(arguments[3]),
            },
        )
    } else {
        operation is None
    }
}

pub fn parse_operation(arguments: &Vec<String>) -> (operation: Option<BackgroundCliOperation>)
    ensures
        parsed_operation(arguments@, operation),
{
    let count: usize = arguments.len();
    if count < 2 {
        return None;
    }
    let word = arguments[1].as_str();
    if count == 2 && same_ignoring_case(word, "show") {
        Some(BackgroundCliOperation::Show)
    } else if count == 2 && same_ignoring_case(word, "reset") {
        Some(BackgroundCliOperation::Reset)
    } else if count == 3 && same_ignoring_case(word, "set") {
        Some(
            BackgroundCliOperation::Put { image_url: arguments[2].clone(), thumbnail_url: None },
        )
    } else if count == 4 && same_ignoring_case(word, "set") {
        Some(
            BackgroundCliOperation::Put {
                image_url: arguments[2].clone(),
                thumbnail_url: Some(arguments[3].clone()),
            },
        )
    } else {
        None
    }
}

/// The station is configured.
pub open spec fn configured_spec(access: Access, device: Seq<char>) -> bool {
    lookup::first(access.shared.config.devices@, config::is_device(device)) is Some
}

/// Reads what an operator typed. `valid` says whether its first word has the form
/// of a station name.
pub fn execute_background_cli(access: &Access, arguments: &Vec<String>, valid: bool) -> (cli:
    BackgroundCli)
    ensures
        exists|operation: Option<BackgroundCliOperation>|
            {
                &&& #[trigger] parsed_operation(arguments@, operation)
                &&& match operation {
                    None => cli matches BackgroundCli::Reply(text) && text@
                        == "Invalid background command arguments\n"@,
                    Some(operation) => if !valid {
                        cli matches BackgroundCli::Reply(text) && text@
                            == "Invalid device selector\n"@
                    } else if configured_spec(*access, arguments@[0]@) {
                        cli matches BackgroundCli::Execute { device, operation: asked } && device@
                            == arguments@[0]@ && asked == operation
                    } else {
                        cli matches BackgroundCli::Reply(text) && text@ == not_configured_text(
                            arguments@[0]@,
                        )
                    },
                }
            },
{
    let parsed = parse_operation(arguments);
    let ghost given = parsed;
    proof {
        assert(parsed_operation(arguments@, given));
    }
    let operation = match parsed {
        Some(operation) => operation,
        None => {
            return BackgroundCli::Reply("Invalid background command arguments\n".to_owned());
        },
    };
    if !valid {
        return BackgroundCli::Reply("Invalid device selector\n".to_owned());
    }
    let device = DeviceId::named(arguments[0].as_str());
    if access.shared.config.device(&device).is_none() {
        return BackgroundCli::Reply(not_configured(&device));
    }
    BackgroundCli::Execute { device, operation }
}

/// What the owner tells about a request that it did not get to.
pub fn background_cli_result(result: Result<String, BackgroundRuntimeError>) -> (text: String)
    ensures
        match result {
            Ok(output) => text == output,
            Err(error) => text@ == failure_text(error.text_spec()),
        },
{
    match result {
        Ok(output) => output,
        Err(error) => failure(error.text()),
    }
}

/// Whether the owner still carries a request out: one that waited too long is
/// dropped, and the station has to be configured when its turn comes.
pub fn execute_cli_operation(access: &Access, device: &DeviceId) -> (refused: Option<String>)
    ensures
        match refused {
            Some(text) => !configured_spec(*access, device@) && text@ == not_configured_text(
                device@,
            ),
            None => configured_spec(*access, device@),
        },
{
    if access.shared.config.device(device).is_none() {
        return Some(not_configured(device));
    }
    None
}

pub open spec fn shown_text(device: Seq<char>, words: (Seq<char>, Seq<char>, Seq<char>), registered: bool) ->
    Seq<char> {
    device + ": background source="@ + words.0 + ", mode="@ + words.1 + ", thumbnail="@ + words.2
        + ", registered="@ + if registered {
        "yes"@
    } else {
        "no"@
    } + "\n"@
}

/// Describes the background that applies to a station.
pub fn show_background(
    access: &Access,
    device: &DeviceId,
    effective: Result<EffectiveBackground, BackgroundRuntimeError>,
) -> (text: String)
    ensures
        text@ == match effective {
            Err(error) => failure_text(error.text_spec()),
            Ok(effective) => shown_text(
                device@,
                effective.description_spec(),
                access.shared.controller.registered_spec(device@),
            ),
        },
{
    let effective = match effective {
        Ok(effective) => effective,
        Err(error) => {
            return failure(error.text());
        },
    };
    let words = effective.description();
    let registered = if access.shared.controller.is_registered(device) {
        "yes"
    } else {
        "no"
    };
    let mut text = about(device, ": background source=");
    text.append(words.0);
    text.append(", mode=");
    text.append(words.1);
    text.append(", thumbnail=");
    text.append(words.2);
    text.append(", registered=");
    text.append(registered);
    text.append("\n");
    text
}

/// How setting a background goes on.
#[derive(Debug, PartialEq, Eq)]
pub enum BackgroundCliStep {
    Deliver(ResolvedDeviceBackground),
    Reply(String),
}

/// Goes on once the operator's background was checked and stored. `stored` is what
/// either said against it, and `resolved` what the model of the station makes of it
/// while it is registered.
pub fn set_background(
    access: &Access,
    device: &DeviceId,
    stored: Result<(), String>,
    resolved: Option<ResolvedDeviceBackground>,
) -> (step: BackgroundCliStep)
    ensures
        match (stored, access.shared.controller.registered_spec(device@), resolved) {
            (Err(error), _, _) => step matches BackgroundCliStep::Reply(text) && text@
                == failure_text(error@),
            (Ok(_), false, _) => step matches BackgroundCliStep::Reply(text) && text@ == device@
                + ": background override saved for the next registration\n"@,
            (Ok(_), true, None) => step matches BackgroundCliStep::Reply(text) && text@ == device@
                + ": background override saved, but the registered model has no compatible background command\n"@,
            (Ok(_), true, Some(background)) => step == BackgroundCliStep::Deliver(background),
        },
{
    match stored {
        Err(error) => {
            return BackgroundCliStep::Reply(failure(error.as_str()));
        },
        Ok(_) => {},
    }
    if !access.shared.controller.is_registered(device) {
        return BackgroundCliStep::Reply(
            about(device, ": background override saved for the next registration\n"),
        );
    }
    match resolved {
        None => BackgroundCliStep::Reply(
            about(
                device,
                ": background override saved, but the registered model has no compatible background command\n",
            ),
        ),
        Some(background) => BackgroundCliStep::Deliver(background),
    }
}

/// Tells how sending a background that the operator set went.
pub fn finish_set_background(device: &DeviceId, delivered: bool) -> (text: String)
    ensures
        text@ == device@ + if delivered {
            ": background override saved and queued\n"@
        } else {
            ": background override saved, but delivery failed; it will be retried on registration\n"@
        },
{
    if delivered {
        about(device, ": background override saved and queued\n")
    } else {
        about(
            device,
            ": background override saved, but delivery failed; it will be retried on registration\n",
        )
    }
}

/// Goes on once the operator's background was removed; `reset` is what the store
/// said against it. `configured` is what the model of the station makes of the
/// configuration, and none where nothing is configured.
pub fn reset_background(
    access: &Access,
    device: &DeviceId,
    reset: Result<(), String>,
    configured: Option<Result<Option<ResolvedDeviceBackground>, String>>,
) -> (step: BackgroundCliStep)
    ensures
        match (reset, configured, access.shared.controller.registered_spec(device@)) {
            (Err(error), _, _) => step matches BackgroundCliStep::Reply(text) && text@
                == failure_text(error@),
            (Ok(_), None, _) => step matches BackgroundCliStep::Reply(text) && text@ == device@
                + ": background override removed; no configured background is available to apply\n"@,
            (Ok(_), Some(_), false) => step matches BackgroundCliStep::Reply(text) && text@
                == device@ + ": background reset to configuration for the next registration\n"@,
            (Ok(_), Some(Ok(Some(background))), true) => step == BackgroundCliStep::Deliver(
                background,
            ),
            (Ok(_), Some(Ok(None)), true) => step matches BackgroundCliStep::Reply(text) && text@
                == device@
                + ": background override removed; the registered model has no compatible configured background\n"@,
            (Ok(_), Some(Err(error)), true) => step matches BackgroundCliStep::Reply(text) && text@
                == device@
                + ": background override removed, but configured background resolution failed: "@
                + error@ + "\n"@,
        },
{
    match reset {
        Err(error) => {
            return BackgroundCliStep::Reply(failure(error.as_str()));
        },
        Ok(_) => {},
    }
    let configured = match configured {
        Some(configured) => configured,
        None => {
            return BackgroundCliStep::Reply(
                about(
                    device,
                    ": background override removed; no configured background is available to apply\n",
                ),
            );
        },
    };
    if !access.shared.controller.is_registered(device) {
        return BackgroundCliStep::Reply(
            about(device, ": background reset to configuration for the next registration\n"),
        );
    }
    match configured {
        Ok(Some(background)) => BackgroundCliStep::Deliver(background),
        Ok(None) => BackgroundCliStep::Reply(
            about(
                device,
                ": background override removed; the registered model has no compatible configured background\n",
            ),
        ),
        Err(error) => {
            let mut text = about(
                device,
                ": background override removed, but configured background resolution failed: ",
            );
            text.append(error.as_str());
            text.append("\n");
            BackgroundCliStep::Reply(text)
        },
    }
}

/// Tells how sending the configured background went.
pub fn finish_reset_background(device: &DeviceId, delivered: bool) -> (text: String)
    ensures
        text@ == device@ + if delivered {
            ": background reset to configuration and queued\n"@
        } else {
            ": background override removed, but configured background delivery failed\n"@
        },
{
    if delivered {
        about(device, ": background reset to configuration and queued\n")
    } else {
        about(
            device,
            ": background override removed, but configured background delivery failed\n",
        )
    }
}

/// What the operator set applies whatever is configured, and a reloaded
/// configuration does not touch it.
pub proof fn law_overrides_come_first(
    background: Option<ResolvedDeviceBackground>,
    selection: Option<DeviceBackgroundSelection>,
    model_known: bool,
    previous: Result<Option<ResolvedDeviceBackground>, String>,
    current: Result<Option<ResolvedDeviceBackground>, String>,
)
    ensures
        effective_spec(Some(background), selection, model_known) == Ok::<
            EffectiveBackground,
            String,
        >(EffectiveBackground::Override(background)),
        reconciliation_spec(Ok(true), previous, current) == BackgroundReconciliation::Keep,
{
}

/// A configuration that resolves to the same pictures sends nothing.
pub proof fn law_unchanged_backgrounds_are_not_sent(
    background: Option<ResolvedDeviceBackground>,
    overridden: bool,
)
    ensures
        reconciliation_spec(Ok(overridden), Ok(background), Ok(background))
            == BackgroundReconciliation::Keep,
{
}

/// No picture is sent under the number zero, and two that follow each other have
/// different numbers.
pub proof fn law_numbers_skip_zero(id: u32)
    ensures
        following(id) != 0,
        following(id) != id,
{
}

/// The station keeps the background that it has: the operator set it, or the
/// configuration asks for the same.
pub open spec fn keeps_background(station: StationBackground) -> bool {
    match (station.overridden, station.previous, station.current) {
        (Ok(true), _, _) => true,
        (Ok(false), Ok(previous), Ok(current)) => same_resources_spec(previous, current),
        _ => false,
    }
}

/// A background that the operator set survives every reload, and a station whose
/// configured background stays the same is sent nothing.
pub proof fn law_reloads_keep_set_and_unchanged_backgrounds(
    next: u32,
    stations: Seq<StationBackground>,
)
    requires
        forall|i: int| 0 <= i < stations.len() ==> keeps_background(#[trigger] stations[i]),
    ensures
        reconciled_spec(next, stations) == (Seq::<ReconciledBackground>::empty(), next),
    decreases stations.len(),
{
    if stations.len() > 0 {
        let rest = stations.drop_last();
        assert forall|i: int| 0 <= i < rest.len() implies keeps_background(#[trigger] rest[i]) by {
            assert(rest[i] == stations[i]);
        }
        law_reloads_keep_set_and_unchanged_backgrounds(next, rest);
        assert(keeps_background(stations[stations.len() - 1]));
    }
}

/// What a station shows is its override where it has one, whatever is configured;
/// without one it is what is configured, and nothing where nothing is. A dynamic
/// choice needs to know the model of the station, and only its failure is one.
pub proof fn law_override_comes_before_configuration(
    override_background: Option<Option<ResolvedDeviceBackground>>,
    selection: Option<DeviceBackgroundSelection>,
    model_known: bool,
    effective: Result<EffectiveBackground, String>,
    shown: EffectiveBackground,
    background: Option<ResolvedDeviceBackground>,
)
    requires
        call_ensures(
            resolve_effective_background,
            (override_background, selection, model_known),
            effective,
        ),
        call_ensures(EffectiveBackground::into_background, (shown,), background),
        effective matches Ok(found) ==> found == shown,
    ensures
        effective is Err <==> override_background is None && model_known && (
        selection matches Some(DeviceBackgroundSelection::Dynamic(resolved)) && resolved is Err),
        effective matches Err(error) ==> selection == Some(
            DeviceBackgroundSelection::Dynamic(Err(error)),
        ),
        effective matches Ok(found) ==> {
            &&& found is Override <==> override_background is Some
            &&& override_background matches Some(own) ==> background == own
            &&& found is Unconfigured <==> override_background is None && selection is None
            &&& override_background is None && selection is None ==> background is None
            &&& override_background is None ==> (
            selection matches Some(DeviceBackgroundSelection::Static(configured)) ==> found
                is ConfiguredStatic && background == configured)
            &&& override_background is None ==> (
            selection matches Some(DeviceBackgroundSelection::Dynamic(resolved)) ==> found
                is ConfiguredDynamic && (!model_known ==> background is None) && (model_known
                ==> resolved == Ok::<Option<ResolvedDeviceBackground>, String>(background)))
        },
{
}

/// A station's background is asked of the store first, whose failure is told as
/// such; the model of the station is known exactly while it is registered.
pub proof fn law_backgrounds_are_resolved_for_registered_models(
    access: &Access,
    device: DeviceId,
    stored: Result<Option<Option<ResolvedDeviceBackground>>, String>,
    selection: Option<DeviceBackgroundSelection>,
    effective: Result<EffectiveBackground, BackgroundRuntimeError>,
    device_type: Option<u32>,
    s: int,
)
    requires
        call_ensures(effective_background, (access, &device, stored, selection), effective),
        call_ensures(registered_device_type, (access, &device), device_type),
        0 <= s <= access.shared.controller.registered@.len(),
        forall|j: int|
            0 <= j < s ==> (#[trigger] access.shared.controller.registered@[j]).id@ != device@,
        s < access.shared.controller.registered@.len()
            ==> access.shared.controller.registered@[s].id@ == device@,
    ensures
        device_type is Some <==> s < access.shared.controller.registered@.len(),
        device_type matches Some(model) ==> model
            == access.shared.controller.registered@[s].registration.device_type,
        stored matches Err(error) ==> effective == Err::<
            EffectiveBackground,
            BackgroundRuntimeError,
        >(BackgroundRuntimeError::Store(error)),
        stored matches Ok(Some(own)) ==> effective == Ok::<
            EffectiveBackground,
            BackgroundRuntimeError,
        >(EffectiveBackground::Override(own)),
        stored matches Ok(None) ==> {
            &&& effective matches Err(error) ==> error is Resolution
            &&& selection matches Some(DeviceBackgroundSelection::Dynamic(resolved))
                ==> if device_type is None {
                effective == Ok::<EffectiveBackground, BackgroundRuntimeError>(
                    EffectiveBackground::ConfiguredDynamic(None),
                )
            } else {
                effective is Ok <==> resolved is Ok
            }
        },
{
    let p = controller::is_station(device@);
    if s == access.shared.controller.registered@.len() {
        lookup::lemma_first_none(access.shared.controller.registered@, p);
        if access.shared.controller.registered_spec(device@) {
            let j = choose|j: int|
                0 <= j < access.shared.controller.registered@.len()
                    && #[trigger] access.shared.controller.registered@[j].id@ == device@;
        }
    } else {
        lookup::lemma_first_is(access.shared.controller.registered@, p, s);
        assert(p(access.shared.controller.registered@[s]));
    }
}

/// Two backgrounds are the same exactly if a station would fetch the same: of the
/// same kind, with the same addresses; where a thumbnail came from does not count.
pub proof fn law_same_backgrounds_fetch_the_same(
    left: Option<ResolvedDeviceBackground>,
    right: Option<ResolvedDeviceBackground>,
    same: bool,
)
    requires
        call_ensures(same_resources, (&left, &right), same),
    ensures
        same ==> (left is None <==> right is None),
        left is None && right is None ==> same,
        left matches Some(ResolvedDeviceBackground::Display(address)) ==> (same <==> (
        right matches Some(ResolvedDeviceBackground::Display(other)) && other@ == address@)),
        left matches Some(ResolvedDeviceBackground::Install(own)) ==> (same <==> (
        right matches Some(ResolvedDeviceBackground::Install(other)) && other.image_url@
            == own.image_url@ && other.thumbnail_url@ == own.thumbnail_url@)),
{
}

/// After a reload a station is sent its configured background exactly if it has no
/// override and what is configured changed to something; a failure to find out is
/// told, that of the store first.
pub proof fn law_changed_backgrounds_are_sent_again(
    overridden: Result<bool, String>,
    previous: Result<Option<ResolvedDeviceBackground>, String>,
    current: Result<Option<ResolvedDeviceBackground>, String>,
    before: Option<ResolvedDeviceBackground>,
    after: Option<ResolvedDeviceBackground>,
    same: bool,
    step: BackgroundReconciliation,
)
    requires
        call_ensures(reconcile_background, (overridden, previous, current), step),
        call_ensures(same_resources, (&before, &after), same),
        previous matches Ok(found) ==> found == before,
        current matches Ok(found) ==> found == after,
    ensures
        step is Deliver <==> overridden == Ok::<bool, String>(false) && previous is Ok && current
            is Ok && !same && after is Some,
        step matches BackgroundReconciliation::Deliver(sent) ==> after == Some(sent),
        step is Fail <==> overridden is Err || (overridden == Ok::<bool, String>(false) && (previous
            is Err || current is Err)),
        overridden matches Err(error) ==> step == BackgroundReconciliation::Fail(
            BackgroundRuntimeError::Store(error),
        ),
        overridden == Ok::<bool, String>(false) ==> (previous matches Err(error) ==> step
            == BackgroundReconciliation::Fail(BackgroundRuntimeError::Resolution(error))),
        overridden == Ok::<bool, String>(false) && previous is Ok ==> (
        current matches Err(error) ==> step == BackgroundReconciliation::Fail(
            BackgroundRuntimeError::Resolution(error),
        )),
{
}

/// A background goes to the station it is for, under the next number, by the
/// command that fits its kind; numbers go up by one and never come to zero.
pub proof fn law_backgrounds_are_sent_under_fresh_numbers(
    runtime: &mut BackgroundRuntime,
    device: DeviceId,
    background: ResolvedDeviceBackground,
    command: PhoneCommand,
)
    requires
        call_ensures(BackgroundRuntime::deliver, (runtime, device, background), command),
        old(runtime).next_transaction_id != 0,
    ensures
        command.device_id == device,
        background matches ResolvedDeviceBackground::Display(address) ==> command.action == (
        PhoneCommandAction::DisplayBackgroundImage {
            transaction_id: old(runtime).next_transaction_id,
            image_url: address,
        }),
        background matches ResolvedDeviceBackground::Install(image) ==> command.action == (
        PhoneCommandAction::SetBackgroundImage {
            transaction_id: old(runtime).next_transaction_id,
            image_url: image.image_url,
            thumbnail_url: image.thumbnail_url,
        }),
        final(runtime).next_transaction_id != 0,
        final(runtime).next_transaction_id != old(runtime).next_transaction_id,
        old(runtime).next_transaction_id < u32::MAX ==> final(runtime).next_transaction_id
            == old(runtime).next_transaction_id + 1,
        old(runtime).next_transaction_id == u32::MAX ==> final(runtime).next_transaction_id == 1,
{
}

/// A station that registers is sent what it is to show, if that is anything; a
/// failure is handed on and takes no number.
pub proof fn law_registering_stations_are_sent_their_background(
    runtime: &mut BackgroundRuntime,
    device: DeviceId,
    effective: Result<EffectiveBackground, BackgroundRuntimeError>,
    shown: EffectiveBackground,
    background: Option<ResolvedDeviceBackground>,
    command: Result<Option<PhoneCommand>, BackgroundRuntimeError>,
)
    requires
        call_ensures(BackgroundRuntime::apply_registered, (runtime, device, effective), command),
        call_ensures(EffectiveBackground::into_background, (shown,), background),
        effective matches Ok(found) ==> found == shown,
    ensures
        command is Err <==> effective is Err,
        effective matches Err(error) ==> command == Err::<
            Option<PhoneCommand>,
            BackgroundRuntimeError,
        >(error),
        command matches Ok(sent) ==> (sent is Some <==> background is Some),
        command matches Ok(Some(sent)) ==> sent.device_id == device && (background matches Some(
            shown,
        ) ==> (shown is Install <==> sent.action is SetBackgroundImage)),
        !(effective is Ok && background is Some) ==> *final(runtime) == *old(runtime),
{
}

/// A command of the console is one of showing, setting and resetting, by the number
/// of its words; setting takes the image and then the thumbnail.
pub proof fn law_background_commands_are_read(
    arguments: Vec<String>,
    operation: Option<BackgroundCliOperation>,
)
    requires
        call_ensures(parse_operation, (&arguments,), operation),
    ensures
        operation is Some ==> 2 <= arguments@.len() <= 4,
        operation matches Some(BackgroundCliOperation::Show) ==> arguments@.len() == 2
            && text::same_letters(arguments@[1]@, "show"@),
        operation matches Some(BackgroundCliOperation::Reset) ==> arguments@.len() == 2
            && text::same_letters(arguments@[1]@, "reset"@),
        operation matches Some(BackgroundCliOperation::Put { image_url, thumbnail_url })
            ==> arguments@.len() >= 3 && text::same_letters(arguments@[1]@, "set"@) && image_url
            == arguments@[2] && (thumbnail_url is Some <==> arguments@.len() == 4) && (
        thumbnail_url matches Some(thumbnail) ==> thumbnail == arguments@[3]),
        arguments@.len() == 2 && text::same_letters(arguments@[1]@, "show"@) ==> operation == Some(
            BackgroundCliOperation::Show,
        ),
        3 <= arguments@.len() <= 4 && text::same_letters(arguments@[1]@, "set"@) ==> operation
            is Some,
{
}

/// A well-formed command for a configured station is carried out on that station;
/// every other gets an answer at once.
pub proof fn law_background_commands_name_configured_stations(
    access: &Access,
    arguments: Vec<String>,
    valid: bool,
    operation: Option<BackgroundCliOperation>,
    cli: BackgroundCli,
    refused: Option<String>,
    device: DeviceId,
)
    requires
        call_ensures(execute_background_cli, (access, &arguments, valid), cli),
        call_ensures(parse_operation, (&arguments,), operation),
        call_ensures(execute_cli_operation, (access, &device), refused),
        device@ == arguments@[0]@,
    ensures
        refused is None <==> exists|d: int|
            0 <= d < access.shared.config.devices@.len() && (
            #[trigger] access.shared.config.devices@[d]).id@ == device@,
        cli is Execute <==> operation is Some && valid && refused is None,
        cli matches BackgroundCli::Execute { device: named, operation: asked } ==> named@
            == device@ && operation == Some(asked),
{
    let devices = access.shared.config.devices@;
    let p = config::is_device(device@);
    lookup::lemma_first_at(devices, p, 0);
    if exists|d: int| 0 <= d < devices.len() && (#[trigger] devices[d]).id@ == device@ {
        let d = choose|d: int| 0 <= d < devices.len() && (#[trigger] devices[d]).id@ == device@;
        assert(p(devices[d]));
    }
    if lookup::first(devices, p) is Some {
        let d = lookup::first_at(devices, p, 0)->0;
        assert(p(devices[d]));
    }
}

/// A new override is sent at once exactly if it was stored, the station is
/// registered and its model can show it; a reset sends what is configured under
/// the like conditions.
pub proof fn law_changes_reach_registered_stations(
    access: &Access,
    device: DeviceId,
    stored: Result<(), String>,
    resolved: Option<ResolvedDeviceBackground>,
    configured: Option<Result<Option<ResolvedDeviceBackground>, String>>,
    put: BackgroundCliStep,
    reset: BackgroundCliStep,
)
    requires
        call_ensures(set_background, (access, &device, stored, resolved), put),
        call_ensures(reset_background, (access, &device, stored, configured), reset),
    ensures
        put is Deliver <==> stored is Ok && resolved is Some && exists|s: int|
            0 <= s < access.shared.controller.registered@.len()
                && #[trigger] access.shared.controller.registered@[s].id@ == device@,
        put matches BackgroundCliStep::Deliver(sent) ==> resolved == Some(sent),
        reset is Deliver <==> stored is Ok && (configured matches Some(Ok(Some(_)))) && exists|
            s: int,
        |
            0 <= s < access.shared.controller.registered@.len()
                && #[trigger] access.shared.controller.registered@[s].id@ == device@,
        reset matches BackgroundCliStep::Deliver(sent) ==> configured == Some(
            Ok::<Option<ResolvedDeviceBackground>, String>(Some(sent)),
        ),
{
}

/// An answer is handed on as it is, and each way to get none is its own failure.
pub proof fn law_replies_are_handed_on<T>(
    reply: BackgroundReply<T>,
    result: Result<T, BackgroundRuntimeError>,
)
    requires
        call_ensures(background_reply::<T>, (reply,), result),
    ensures
        result is Ok <==> reply is Answered,
        reply matches BackgroundReply::Answered(answer) ==> result == Ok::<
            T,
            BackgroundRuntimeError,
        >(answer),
        result matches Err(error) ==> (error is QueueFull <==> reply is QueueFull) && (error
            is Stopped <==> reply is Stopped) && (error is TimedOut <==> reply is TimedOut),
{
}

} // verus!
