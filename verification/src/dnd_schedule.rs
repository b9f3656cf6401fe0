//! Recurring do-not-disturb times: which of them hold, who owns them and how the
//! operator changes them.

use vstd::prelude::*;
use vstd::string::*;

use crate::access::Access;
use crate::collect::{find, position};
use crate::config::{self, DndSchedule, DndScheduleMode, ModuleConfig, TimeZone};
use crate::controller;
use crate::features::RuntimeDndMutationError;
use crate::ids::DeviceId;
use crate::lookup;
use crate::model::DndMode;
use crate::text::{self, decimal_text, parse_number, precedes, same_ignoring_case};

verus! {

/// A station that cannot be changed is reported no more often than this.
pub const FAILURE_WARNING_INTERVAL_SECONDS: u64 = 30;

/// How many rules a station may have, and how long one may be.
#[derive(Clone, Copy, Debug, PartialEq, Eq, Structural)]
pub struct DndScheduleLimits {
    pub rules: usize,
    pub bytes: usize,
}

#[derive(Clone, Copy, Debug, PartialEq, Eq, Structural)]
pub enum DndScheduleSource {
    Configuration,
    Override,
}

impl DndScheduleSource {
    pub open spec fn name_spec(self) -> Seq<char> {
        match self {
            DndScheduleSource::Configuration => "config"@,
            DndScheduleSource::Override => "override"@,
        }
    }

    pub fn name(self) -> (name: &'static str)
        ensures
            name@ == self.name_spec(),
    {
        match self {
            DndScheduleSource::Configuration => "config",
            DndScheduleSource::Override => "override",
        }
    }
}

/// What the rules of a station say at some time.
#[derive(Clone, Copy, Debug, PartialEq, Eq, Structural)]
pub enum DndSchedulePhase {
    Inactive,
    Silent,
    Reject,
}

impl DndSchedulePhase {
    pub open spec fn mode_spec(self) -> DndMode {
        match self {
            DndSchedulePhase::Inactive => DndMode::Off,
            DndSchedulePhase::Silent => DndMode::Silent,
            DndSchedulePhase::Reject => DndMode::Reject,
        }
    }

    pub fn runtime_mode(self) -> (mode: DndMode)
        ensures
            mode == self.mode_spec(),
    {
        match self {
            DndSchedulePhase::Inactive => DndMode::Off,
            DndSchedulePhase::Silent => DndMode::Silent,
            DndSchedulePhase::Reject => DndMode::Reject,
        }
    }

    pub open spec fn name_spec(self) -> Seq<char> {
        match self {
            DndSchedulePhase::Inactive => "inactive"@,
            DndSchedulePhase::Silent => "active (silent)"@,
            DndSchedulePhase::Reject => "active (reject)"@,
        }
    }

    pub fn name(self) -> (name: &'static str)
        ensures
            name@ == self.name_spec(),
    {
        match self {
            DndSchedulePhase::Inactive => "inactive",
            DndSchedulePhase::Silent => "active (silent)",
            DndSchedulePhase::Reject => "active (reject)",
        }
    }
}

/// Whether a rule holds now: by the configured time zone where there is one, else
/// by the clock of the switch.
pub fn rule_matches(zoned: Option<bool>, timings: &Vec<bool>) -> (holds: bool)
    ensures
        holds == match zoned {
            Some(holds) => holds,
            None => timings@.contains(true),
        },
{
    match zoned {
        Some(holds) => {
            return holds;
        },
        None => {},
    }
    let mut i: usize = 0;
    while i < timings.len()
        invariant
            zoned is None,
            0 <= i <= timings@.len(),
            forall|j: int| 0 <= j < i ==> !(#[trigger] timings@[j]),
        decreases timings@.len() - i,
    {
        if timings[i] {
            assert(timings@[i as int] == true);
            return true;
        }
        i += 1;
    }
    false
}

pub open spec fn mode_phase(mode: DndScheduleMode) -> DndSchedulePhase {
    match mode {
        DndScheduleMode::Silent => DndSchedulePhase::Silent,
        DndScheduleMode::Reject => DndSchedulePhase::Reject,
    }
}

/// What the rules say: the first that holds decides.
pub open spec fn phase_spec(rules: Seq<DndSchedule>, holding: Seq<bool>) -> DndSchedulePhase {
    match lookup::first_at(holding, |holds: bool| holds, 0) {
        Some(i) => if i < rules.len() {
            mode_phase(rules[i].mode)
        } else {
            DndSchedulePhase::Inactive
        },
        None => DndSchedulePhase::Inactive,
    }
}

/// What the rules of a station say; `holding` says of each whether it holds now.
pub fn phase(rules: &Vec<DndSchedule>, holding: &Vec<bool>) -> (phase: DndSchedulePhase)
    ensures
        phase == phase_spec(rules@, holding@),
{
    match position(
        holding,
        |holds: &bool| -> (found: bool)
            ensures
                found == *holds
            { *holds },
        Ghost(|holds: bool| holds),
    ) {
        Some(i) => if i < rules.len() {
            match rules[i].mode {
                DndScheduleMode::Silent => DndSchedulePhase::Silent,
                DndScheduleMode::Reject => DndSchedulePhase::Reject,
            }
        } else {
            DndSchedulePhase::Inactive
        },
        None => DndSchedulePhase::Inactive,
    }
}

/// Minutes of a day, on some weekdays.
#[derive(Debug, PartialEq, Eq)]
pub struct DndScheduleSegment {
    pub start_minute: u16,
    pub end_minute_exclusive: u16,
    pub weekdays: String,
}

/// Why the rules of a station cannot be used.
#[derive(Debug, PartialEq, Eq)]
pub enum DeviceDndScheduleError {
    Validation(String),
    Timing(String),
    EmptySegment,
}

impl DeviceDndScheduleError {
    pub open spec fn text_spec(self) -> Seq<char> {
        match self {
            DeviceDndScheduleError::Validation(reason) => reason@,
            DeviceDndScheduleError::Timing(reason) => reason@,
            DeviceDndScheduleError::EmptySegment =>
                "DND schedule contains an empty timing segment"@,
        }
    }

    /// The error in words.
    pub fn text(&self) -> (text: &str)
        ensures
            text@ == self.text_spec(),
    {
        match self {
            DeviceDndScheduleError::Validation(reason) => reason.as_str(),
            DeviceDndScheduleError::Timing(reason) => reason.as_str(),
            DeviceDndScheduleError::EmptySegment => "DND schedule contains an empty timing segment",
        }
    }
}

/// A number with at least two digits.
pub open spec fn two_digits(n: nat) -> Seq<char> {
    if n < 10 {
        "0"@ + text::decimal(n)
    } else {
        text::decimal(n)
    }
}

fn two_digit_text(n: u16) -> (text: String)
    ensures
        text@ == two_digits(n as nat),
{
    if n < 10 {
        let mut text = "0".to_owned();
        let rest = decimal_text(n as u64);
        text.append(rest.as_str());
        text
    } else {
        decimal_text(n as u64)
    }
}

/// Hours and minutes.
pub open spec fn minute_text(minute: nat) -> Seq<char> {
    two_digits(minute / 60) + ":"@ + two_digits(minute % 60)
}

pub fn format_minute(minute: u16) -> (text: String)
    ensures
        text@ == minute_text(minute as nat),
{
    let mut text = two_digit_text(minute / 60);
    text.append(":");
    let rest = two_digit_text(minute % 60);
    text.append(rest.as_str());
    text
}

/// A segment as the switch reads it: its last minute belongs to it.
pub fn asterisk_timing_spec(segment: &DndScheduleSegment) -> (spec_text: Result<
    String,
    DeviceDndScheduleError,
>)
    ensures
        if segment.end_minute_exclusive == 0 {
            spec_text == Err::<String, DeviceDndScheduleError>(DeviceDndScheduleError::EmptySegment)
        } else {
            spec_text matches Ok(written) && written@ == minute_text(segment.start_minute as nat)
                + "-"@ + minute_text((segment.end_minute_exclusive - 1) as nat) + ","@
                + segment.weekdays@ + ",*,*"@
        },
{
    if segment.end_minute_exclusive == 0 {
        return Err(DeviceDndScheduleError::EmptySegment);
    }
    let mut written = format_minute(segment.start_minute);
    written.append("-");
    let end = format_minute(segment.end_minute_exclusive - 1);
    written.append(end.as_str());
    written.append(",");
    written.append(segment.weekdays.as_str());
    written.append(",*,*");
    Ok(written)
}

/// A segment with what the switch says against its timing.
#[derive(Debug, PartialEq, Eq)]
pub struct TimedSegment {
    pub segment: DndScheduleSegment,
    pub refused: Option<String>,
}

/// What was found of the rules of a station: what speaks against them as a whole,
/// and all their segments in order.
#[derive(Debug, PartialEq, Eq)]
pub struct RuleChecks {
    pub invalid: Option<String>,
    pub segments: Vec<TimedSegment>,
}

pub open spec fn is_refused() -> spec_fn(TimedSegment) -> bool {
    |timed: TimedSegment| timed.segment.end_minute_exclusive == 0 || timed.refused is Some
}

/// What speaks against the rules.
pub open spec fn rules_problem(checks: RuleChecks) -> Option<DeviceDndScheduleError> {
    match checks.invalid {
        Some(reason) => Some(DeviceDndScheduleError::Validation(reason)),
        None => match lookup::first(checks.segments@, is_refused()) {
            Some(timed) => if timed.segment.end_minute_exclusive == 0 {
                Some(DeviceDndScheduleError::EmptySegment)
            } else {
                match timed.refused {
                    Some(reason) => Some(DeviceDndScheduleError::Timing(reason)),
                    None => None,
                }
            },
            None => None,
        },
    }
}

fn find_problem(checks: &RuleChecks) -> (problem: Option<DeviceDndScheduleError>)
    ensures
        problem == rules_problem(*checks),
{
    match &checks.invalid {
        Some(reason) => {
            return Some(DeviceDndScheduleError::Validation(reason.clone()));
        },
        None => {},
    }
    match find(
        &checks.segments,
        |timed: &TimedSegment| -> (found: bool)
            ensures
                found == is_refused()(*timed)
            { timed.segment.end_minute_exclusive == 0 || timed.refused.is_some() },
        Ghost(is_refused()),
    ) {
        Some(timed) => {
            if timed.segment.end_minute_exclusive == 0 {
                return Some(DeviceDndScheduleError::EmptySegment);
            }
            match &timed.refused {
                Some(reason) => Some(DeviceDndScheduleError::Timing(reason.clone())),
                None => None,
            }
        },
        None => None,
    }
}

/// The rules of a station and how far they were carried out.
#[derive(Debug, PartialEq, Eq)]
pub struct DeviceDndSchedule {
    pub timezone: Option<TimeZone>,
    pub source: DndScheduleSource,
    pub rules: Vec<DndSchedule>,
    /// What the rules said when they were last carried out.
    pub last_phase: Option<DndSchedulePhase>,
    /// The rules have to be carried out, whatever they said before.
    pub pending_catchup: bool,
    /// When a failure was last reported, in seconds.
    pub last_failure_warning: Option<u64>,
}

/// The same with the rules as a sequence.
pub ghost struct ScheduleView {
    pub timezone: Option<TimeZone>,
    pub source: DndScheduleSource,
    pub rules: Seq<DndSchedule>,
    pub last_phase: Option<DndSchedulePhase>,
    pub pending_catchup: bool,
    pub last_failure_warning: Option<u64>,
}

impl View for DeviceDndSchedule {
    type V = ScheduleView;

    open spec fn view(&self) -> ScheduleView {
        ScheduleView {
            timezone: self.timezone,
            source: self.source,
            rules: self.rules@,
            last_phase: self.last_phase,
            pending_catchup: self.pending_catchup,
            last_failure_warning: self.last_failure_warning,
        }
    }
}

pub fn copied_rules(rules: &Vec<DndSchedule>) -> (copy: Vec<DndSchedule>)
    ensures
        copy@ == rules@,
{
    let mut copy: Vec<DndSchedule> = Vec::new();
    let mut i: usize = 0;
    while i < rules.len()
        invariant
            0 <= i <= rules@.len(),
            copy@ == rules@.take(i as int),
        decreases rules@.len() - i,
    {
        copy.push(rules[i].clone());
        i += 1;
    }
    assert(rules@.take(i as int) =~= rules@);
    copy
}

impl Clone for DeviceDndSchedule {
    fn clone(&self) -> (copy: Self)
        ensures
            copy@ == self@,
    {
        DeviceDndSchedule {
            timezone: self.timezone,
            source: self.source,
            rules: copied_rules(&self.rules),
            last_phase: self.last_phase,
            pending_catchup: self.pending_catchup,
            last_failure_warning: self.last_failure_warning,
        }
    }
}

/// Rules that were not carried out yet.
pub open spec fn fresh_schedule(
    source: DndScheduleSource,
    rules: Seq<DndSchedule>,
    timezone: Option<TimeZone>,
) -> ScheduleView {
    ScheduleView {
        timezone,
        source,
        rules,
        last_phase: None,
        pending_catchup: rules.len() > 0,
        last_failure_warning: None,
    }
}

impl DeviceDndSchedule {
    /// Takes up rules that nothing speaks against.
    pub fn compile(
        source: DndScheduleSource,
        rules: Vec<DndSchedule>,
        checks: &RuleChecks,
        timezone: Option<TimeZone>,
    ) -> (schedule: Result<Self, DeviceDndScheduleError>)
        ensures
            match rules_problem(*checks) {
                Some(problem) => schedule == Err::<Self, DeviceDndScheduleError>(problem),
                None => schedule matches Ok(schedule) && schedule@ == fresh_schedule(
                    source,
                    rules@,
                    timezone,
                ),
            },
    {
        match find_problem(checks) {
            Some(problem) => {
                return Err(problem);
            },
            None => {},
        }
        let pending_catchup = rules.len() > 0;
        Ok(
            DeviceDndSchedule {
                timezone,
                source,
                rules,
                last_phase: None,
                pending_catchup,
                last_failure_warning: None,
            },
        )
    }
}

#[derive(Debug, PartialEq, Eq)]
pub struct ScheduledDevice {
    pub device: DeviceId,
    pub schedule: DeviceDndSchedule,
}

pub open spec fn schedules(device: Seq<char>) -> spec_fn(ScheduledDevice) -> bool {
    |entry: ScheduledDevice| entry.device@ == device
}

/// The rules of every configured station, in the order of their names.
#[derive(Debug, PartialEq, Eq)]
pub struct DndScheduleRegistry {
    pub devices: Vec<ScheduledDevice>,
}

/// Names grow.
pub open spec fn in_order(devices: Seq<ScheduledDevice>) -> bool {
    forall|i: int, j: int|
        0 <= i < j < devices.len() ==> text::text_less(
            (#[trigger] devices[i]).device@,
            (#[trigger] devices[j]).device@,
        )
}

/// The rules of a station among these.
pub open spec fn schedule_in(devices: Seq<ScheduledDevice>, device: Seq<char>) -> Option<
    ScheduleView,
> {
    match lookup::first(devices, schedules(device)) {
        Some(entry) => Some(entry.schedule@),
        None => None,
    }
}

/// In an ordered list there is one entry of a name.
proof fn lemma_entry(devices: Seq<ScheduledDevice>, i: int)
    requires
        in_order(devices),
        0 <= i < devices.len(),
    ensures
        lookup::first(devices, schedules(devices[i].device@)) == Some(devices[i]),
        lookup::first_at(devices, schedules(devices[i].device@), 0) == Some(i),
{
    let p = schedules(devices[i].device@);
    lookup::lemma_first_at(devices, p, 0);
    assert(p(devices[i]));
    match lookup::first_at(devices, p, 0) {
        Some(k) => {
            text::lemma_text_order(devices[k].device@, devices[i].device@);
            if k < i {
                assert(text::text_less(devices[k].device@, devices[i].device@));
            }
        },
        None => {},
    }
}

#[derive(Debug, PartialEq, Eq)]
pub enum DndScheduleRegistryError {
    Store { device: DeviceId, source: String },
    InvalidSchedule { device: DeviceId, problem: DeviceDndScheduleError },
}

impl DndScheduleRegistryError {
    pub open spec fn text_spec(self) -> Seq<char> {
        match self {
            DndScheduleRegistryError::Store { device, .. } =>
                "unable to load DND schedule override for device "@ + device@,
            DndScheduleRegistryError::InvalidSchedule { device, .. } =>
                "invalid DND schedule for device "@ + device@,
        }
    }

    /// The error in words.
    pub fn text(&self) -> (text: String)
        ensures
            text@ == self.text_spec(),
    {
        match self {
            DndScheduleRegistryError::Store { device, .. } => {
                let mut text = "unable to load DND schedule override for device ".to_owned();
                text.append(device.as_str());
                text
            },
            DndScheduleRegistryError::InvalidSchedule { device, .. } => {
                let mut text = "invalid DND schedule for device ".to_owned();
                text.append(device.as_str());
                text
            },
        }
    }
}

/// Rules that the operator set.
#[derive(Debug, PartialEq, Eq)]
pub struct StoredRules {
    pub rules: Vec<DndSchedule>,
    pub checks: RuleChecks,
}

/// What is known of one configured station: the rules that the operator set, or
/// what the store said against reading them, and what was found of the configured
/// ones.
#[derive(Debug, PartialEq, Eq)]
pub struct ScheduleFacts {
    pub stored: Result<Option<StoredRules>, String>,
    pub configured: RuleChecks,
}

/// What speaks against the rules of a station.
pub open spec fn load_problem(device: config::DeviceConfig, facts: ScheduleFacts) -> Option<
    DndScheduleRegistryError,
> {
    match facts.stored {
        Err(source) => Some(DndScheduleRegistryError::Store { device: device.id, source }),
        Ok(stored) => match rules_problem(
            match stored {
                Some(stored) => stored.checks,
                None => facts.configured,
            },
        ) {
            Some(problem) => Some(
                DndScheduleRegistryError::InvalidSchedule { device: device.id, problem },
            ),
            None => None,
        },
    }
}

/// The rules that apply to a station: those that the operator set before the
/// configured ones.
pub open spec fn loaded_schedule(
    device: config::DeviceConfig,
    facts: ScheduleFacts,
    timezone: Option<TimeZone>,
) -> ScheduleView {
    match facts.stored {
        Ok(Some(stored)) => fresh_schedule(DndScheduleSource::Override, stored.rules@, timezone),
        _ => fresh_schedule(
            DndScheduleSource::Configuration,
            device.dnd_schedules@,
            timezone,
        ),
    }
}

/// Every configured name occurs once.
pub open spec fn names_differ(config: ModuleConfig) -> bool {
    forall|i: int, j: int|
        0 <= i < j < config.devices@.len() ==> config.devices@[i].id@ != config.devices@[j].id@
}

fn load_one(
    device: &config::DeviceConfig,
    facts: &ScheduleFacts,
    timezone: Option<TimeZone>,
) -> (loaded: Result<DeviceDndSchedule, DndScheduleRegistryError>)
    ensures
        match load_problem(*device, *facts) {
            Some(problem) => loaded == Err::<DeviceDndSchedule, DndScheduleRegistryError>(problem),
            None => loaded matches Ok(schedule) && schedule@ == loaded_schedule(
                *device,
                *facts,
                timezone,
            ),
        },
{
    let compiled = match &facts.stored {
        Err(source) => {
            return Err(
                DndScheduleRegistryError::Store {
                    device: device.id.clone(),
                    source: source.clone(),
                },
            );
        },
        Ok(Some(stored)) => DeviceDndSchedule::compile(
            DndScheduleSource::Override,
            copied_rules(&stored.rules),
            &stored.checks,
            timezone,
        ),
        Ok(None) => DeviceDndSchedule::compile(
            DndScheduleSource::Configuration,
            copied_rules(&device.dnd_schedules),
            &facts.configured,
            timezone,
        ),
    };
    match compiled {
        Ok(schedule) => Ok(schedule),
        Err(problem) => Err(
            DndScheduleRegistryError::InvalidSchedule { device: device.id.clone(), problem },
        ),
    }
}

impl DndScheduleRegistry {
    pub open spec fn wf(self) -> bool {
        in_order(self.devices@)
    }

    pub open spec fn schedule_spec(self, device: Seq<char>) -> Option<ScheduleView> {
        schedule_in(self.devices@, device)
    }

    /// A registry without stations.
    pub fn new() -> (registry: Self)
        ensures
            registry.wf(),
            registry.devices@.len() == 0,
    {
        DndScheduleRegistry { devices: Vec::new() }
    }

    fn index_of(&self, device: &DeviceId) -> (index: Option<usize>)
        ensures
            match index {
                Some(i) => i < self.devices@.len() && lookup::first_at(
                    self.devices@,
                    schedules(device@),
                    0,
                ) == Some(i as int) && self.schedule_spec(device@) == Some(
                    self.devices@[i as int].schedule@,
                ) && self.devices@[i as int].device@ == device@,
                None => self.schedule_spec(device@) is None && lookup::first_at(
                    self.devices@,
                    schedules(device@),
                    0,
                ) is None,
            },
    {
        proof {
            lookup::lemma_first_at(self.devices@, schedules(device@), 0);
        }
        position(
            &self.devices,
            |entry: &ScheduledDevice| -> (found: bool)
                ensures
                    found == (entry.device@ == device@)
                { entry.device.same(device) },
            Ghost(schedules(device@)),
        )
    }

    /// The rules of a station.
    pub fn get(&self, device: &DeviceId) -> (schedule: Option<&DeviceDndSchedule>)
        ensures
            match schedule {
                Some(schedule) => self.schedule_spec(device@) == Some(schedule@),
                None => self.schedule_spec(device@) is None,
            },
    {
        match self.index_of(device) {
            Some(i) => Some(&self.devices[i].schedule),
            None => None,
        }
    }

    /// Gives a station these rules and hands back those that it had.
    pub fn put(&mut self, device: DeviceId, schedule: DeviceDndSchedule) -> (previous: Option<
        DeviceDndSchedule,
    >)
        requires
            old(self).wf(),
        ensures
            final(self).wf(),
            match previous {
                Some(previous) => old(self).schedule_spec(device@) == Some(previous@),
                None => old(self).schedule_spec(device@) is None,
            },
            forall|name: Seq<char>| #[trigger]
                final(self).schedule_spec(name) == if name == device@ {
                    Some(schedule@)
                } else {
                    old(self).schedule_spec(name)
                },
    {
        let ghost before = self.devices@;
        let mut i: usize = 0;
        while i < self.devices.len() && precedes(self.devices[i].device.as_str(), device.as_str())
            invariant
                0 <= i <= self.devices@.len(),
                self.devices@ == before,
                in_order(before),
                forall|j: int|
                    0 <= j < i ==> text::text_less((#[trigger] before[j]).device@, device@),
            decreases self.devices@.len() - i,
        {
            i += 1;
        }
        let there = i < self.devices.len() && self.devices[i].device.same(&device);
        let ghost entry = ScheduledDevice { device, schedule };
        if there {
            proof {
                lemma_entry(before, i as int);
            }
            let ghost name = self.devices@[i as int].device;
            let given = self.devices.remove(i);
            self.devices.insert(i, ScheduledDevice { device: given.device, schedule });
            proof {
                let after = self.devices@;
                assert(after =~= before.update(
                    i as int,
                    ScheduledDevice { device: name, schedule },
                ));
                assert(in_order(after)) by {
                    assert forall|a: int, b: int| 0 <= a < b < after.len() implies text::text_less(
                        (#[trigger] after[a]).device@,
                        (#[trigger] after[b]).device@,
                    ) by {
                        assert(text::text_less(before[a].device@, before[b].device@));
                    }
                }
                assert forall|other: Seq<char>| #[trigger]
                    self.schedule_spec(other) == if other == device@ {
                        Some(schedule@)
                    } else {
                        schedule_in(before, other)
                    } by {
                    lemma_same_names(before, after, other);
                    if other == device@ {
                        lemma_entry(after, i as int);
                    }
                }
            }
            return Some(given.schedule);
        }
        proof {
            lookup::lemma_first_at(before, schedules(device@), 0);
            assert forall|j: int| i <= j < before.len() implies text::text_less(
                device@,
                (#[trigger] before[j]).device@,
            ) by {
                text::lemma_text_order(before[i as int].device@, device@);
                if i < j {
                    text::lemma_text_order_chains(
                        device@,
                        before[i as int].device@,
                        before[j].device@,
                    );
                }
            }
            match lookup::first_at(before, schedules(device@), 0) {
                Some(k) => {
                    text::lemma_text_order(before[k].device@, device@);
                },
                None => {},
            }
        }
        self.devices.insert(i, ScheduledDevice { device, schedule });
        proof {
            let after = self.devices@;
            assert(after =~= before.insert(i as int, entry));
            assert forall|a: int, b: int| 0 <= a < b < after.len() implies text::text_less(
                (#[trigger] after[a]).device@,
                (#[trigger] after[b]).device@,
            ) by {
                let left = if a < i {
                    before[a]
                } else if a == i {
                    entry
                } else {
                    before[a - 1]
                };
                let right = if b < i {
                    before[b]
                } else if b == i {
                    entry
                } else {
                    before[b - 1]
                };
                assert(after[a] == left && after[b] == right);
            }
            assert(in_order(after));
            assert forall|other: Seq<char>| #[trigger]
                self.schedule_spec(other) == if other == device@ {
                    Some(schedule@)
                } else {
                    schedule_in(before, other)
                } by {
                if other == device@ {
                    lemma_entry(after, i as int);
                } else {
                    assert(after.remove(i as int) =~= before);
                    lookup::lemma_first_remove(after, schedules(other), i as int);
                }
            }
        }
        None
    }

    /// Takes a station out.
    pub fn remove(&mut self, device: &DeviceId)
        requires
            old(self).wf(),
        ensures
            final(self).wf(),
            forall|name: Seq<char>| #[trigger]
                final(self).schedule_spec(name) == if name == device@ {
                    None
                } else {
                    old(self).schedule_spec(name)
                },
    {
        let ghost before = self.devices@;
        match self.index_of(device) {
            Some(i) => {
                let _ = self.devices.remove(i);
                proof {
                    let after = self.devices@;
                    assert forall|a: int, b: int| 0 <= a < b < after.len() implies text::text_less(
                        (#[trigger] after[a]).device@,
                        (#[trigger] after[b]).device@,
                    ) by {
                        let left = if a < i {
                            before[a]
                        } else {
                            before[a + 1]
                        };
                        let right = if b < i {
                            before[b]
                        } else {
                            before[b + 1]
                        };
                        assert(after[a] == left && after[b] == right);
                    }
                    assert forall|name: Seq<char>| #[trigger]
                        self.schedule_spec(name) == if name == device@ {
                            None
                        } else {
                            schedule_in(before, name)
                        } by {
                        if name == device@ {
                            lookup::lemma_first_at(after, schedules(name), 0);
                            match lookup::first_at(after, schedules(name), 0) {
                                Some(k) => {
                                    let was = if k < i {
                                        k
                                    } else {
                                        k + 1
                                    };
                                    assert(before[was] == after[k]);
                                    text::lemma_text_order(
                                        before[was].device@,
                                        before[i as int].device@,
                                    );
                                    if was < i {
                                        assert(text::text_less(
                                            before[was].device@,
                                            before[i as int].device@,
                                        ));
                                    } else {
                                        assert(text::text_less(
                                            before[i as int].device@,
                                            before[was].device@,
                                        ));
                                    }
                                },
                                None => {},
                            }
                        } else {
                            lookup::lemma_first_remove(before, schedules(name), i as int);
                        }
                    }
                }
            },
            None => {},
        }
    }
}

/// Lists with the same names find a name at the same place.
proof fn lemma_same_names(
    before: Seq<ScheduledDevice>,
    after: Seq<ScheduledDevice>,
    name: Seq<char>,
)
    requires
        before.len() == after.len(),
        forall|i: int|
            0 <= i < before.len() ==> (#[trigger] before[i]).device@ == after[i].device@,
    ensures
        lookup::first_at(before, schedules(name), 0) == lookup::first_at(after, schedules(name), 0),
        match lookup::first_at(before, schedules(name), 0) {
            Some(i) => 0 <= i < before.len() && before[i].device@ == name && lookup::first(
                after,
                schedules(name),
            ) == Some(after[i]) && lookup::first(before, schedules(name)) == Some(before[i]),
            None => lookup::first(after, schedules(name)) is None,
        },
{
    let p = schedules(name);
    lookup::lemma_first_at(before, p, 0);
    lookup::lemma_first_at(after, p, 0);
    match (lookup::first_at(before, p, 0), lookup::first_at(after, p, 0)) {
        (Some(a), Some(b)) => {
            assert(before[a].device@ == after[a].device@);
            assert(before[b].device@ == after[b].device@);
            if a < b {
                assert(!p(after[a]));
            }
            if b < a {
                assert(!p(before[b]));
            }
        },
        (Some(a), None) => {
            assert(!p(after[a]));
        },
        (None, Some(b)) => {
            assert(!p(before[b]));
        },
        (None, None) => {},
    }
}

/// The problem is that of the first station, by name, that has one.
pub open spec fn is_first_problem(
    devices: Seq<config::DeviceConfig>,
    facts: Seq<ScheduleFacts>,
    problem: DndScheduleRegistryError,
) -> bool {
    exists|k: int|
        {
            &&& 0 <= k < devices.len()
            &&& #[trigger] load_problem(devices[k], facts[k]) == Some(problem)
            &&& forall|j: int|
                #![trigger devices[j]]
                0 <= j < devices.len() && load_problem(devices[j], facts[j]) is Some
                    ==> !text::text_less(devices[j].id@, devices[k].id@)
        }
}

/// The registry holds the rules of exactly these stations.
pub open spec fn holds_all(
    registry: DndScheduleRegistry,
    devices: Seq<config::DeviceConfig>,
    facts: Seq<ScheduleFacts>,
    timezone: Option<TimeZone>,
) -> bool {
    &&& forall|j: int|
        #![trigger devices[j]]
        0 <= j < devices.len() ==> load_problem(devices[j], facts[j]) is None
            && registry.schedule_spec(devices[j].id@) == Some(
            loaded_schedule(devices[j], facts[j], timezone),
        )
    &&& forall|name: Seq<char>| #[trigger]
        registry.schedule_spec(name) is Some ==> exists|j: int|
            #![trigger devices[j]]
            0 <= j < devices.len() && devices[j].id@ == name
}

impl DndScheduleRegistry {
    /// Takes up the rules of every configured station. Where some cannot be used,
    /// the first station by name that has such rules is reported.
    pub fn load(config: &ModuleConfig, facts: &Vec<ScheduleFacts>) -> (loaded: Result<
        Self,
        DndScheduleRegistryError,
    >)
        requires
            names_differ(*config),
            facts@.len() == config.devices@.len(),
        ensures
            match loaded {
                Ok(registry) => registry.wf() && holds_all(
                    registry,
                    config.devices@,
                    facts@,
                    config.general.timezone,
                ),
                Err(problem) => is_first_problem(config.devices@, facts@, problem),
            },
    {
        let timezone = config.general.timezone;
        let mut registry = DndScheduleRegistry::new();
        let mut failure: Option<(usize, DndScheduleRegistryError)> = None;
        let mut i: usize = 0;
        proof {
            lookup::lemma_first_at(registry.devices@, schedules(Seq::empty()), 0);
            assert forall|name: Seq<char>| #[trigger] registry.schedule_spec(name) is None by {
                lookup::lemma_first_at(registry.devices@, schedules(name), 0);
            }
        }
        while i < config.devices.len()
            invariant
                0 <= i <= config.devices@.len(),
                facts@.len() == config.devices@.len(),
                names_differ(*config),
                timezone == config.general.timezone,
                registry.wf(),
                match failure {
                    None => holds_all(
                        registry,
                        config.devices@.take(i as int),
                        facts@.take(i as int),
                        timezone,
                    ),
                    Some((k, problem)) => {
                        &&& k < i
                        &&& load_problem(config.devices@[k as int], facts@[k as int]) == Some(
                            problem,
                        )
                        &&& forall|j: int|
                            #![trigger config.devices@[j]]
                            0 <= j < i && load_problem(config.devices@[j], facts@[j]) is Some
                                ==> !text::text_less(
                                config.devices@[j].id@,
                                config.devices@[k as int].id@,
                            )
                    },
                },
            decreases config.devices@.len() - i,
        {
            let ghost shorter = config.devices@.take(i as int);
            let ghost longer = config.devices@.take(i + 1);
            let ghost facts_longer = facts@.take(i + 1);
            let ghost before = registry;
            let device = &config.devices[i];
            match load_one(device, &facts[i], timezone) {
                Ok(schedule) => {
                    let ghost viewed = schedule@;
                    let _ = registry.put(device.id.clone(), schedule);
                    proof {
                        if failure is None {
                            assert forall|j: int|
                                #![trigger longer[j]]
                                0 <= j < longer.len() implies load_problem(
                                longer[j],
                                facts_longer[j],
                            ) is None && registry.schedule_spec(longer[j].id@) == Some(
                                loaded_schedule(longer[j], facts_longer[j], timezone),
                            ) by {
                                if j < i {
                                    assert(longer[j] == shorter[j]);
                                    assert(facts_longer[j] == facts@.take(i as int)[j]);
                                    assert(config.devices@[j].id@ != config.devices@[i as int].id@);
                                }
                            }
                            assert forall|name: Seq<char>| #[trigger]
                                registry.schedule_spec(name) is Some implies exists|j: int|
                                #![trigger longer[j]]
                                0 <= j < longer.len() && longer[j].id@ == name by {
                                if name == device.id@ {
                                    assert(longer[i as int].id@ == name);
                                } else {
                                    assert(before.schedule_spec(name) is Some);
                                    let j = choose|j: int|
                                        #![trigger shorter[j]]
                                        0 <= j < shorter.len() && shorter[j].id@ == name;
                                    assert(longer[j].id@ == name);
                                }
                            }
                            assert(holds_all(registry, longer, facts_longer, timezone));
                        }
                    }
                },
                Err(problem) => {
                    let first = match &failure {
                        None => true,
                        Some((k, _)) => precedes(
                            device.id.as_str(),
                            config.devices[*k].id.as_str(),
                        ),
                    };
                    proof {
                        text::lemma_text_order(device.id@, device.id@);
                        assert forall|j: int|
                            #![trigger config.devices@[j]]
                            first && 0 <= j < i && load_problem(
                                config.devices@[j],
                                facts@[j],
                            ) is Some implies !text::text_less(
                            config.devices@[j].id@,
                            device.id@,
                        ) by {
                            match failure {
                                None => {
                                    assert(shorter[j] == config.devices@[j]);
                                    assert(facts@.take(i as int)[j] == facts@[j]);
                                },
                                Some((k, _)) => {
                                    if text::text_less(config.devices@[j].id@, device.id@) {
                                        text::lemma_text_order_chains(
                                            config.devices@[j].id@,
                                            device.id@,
                                            config.devices@[k as int].id@,
                                        );
                                    }
                                },
                            }
                        }
                    }
                    if first {
                        failure = Some((i, problem));
                    }
                },
            }
            i += 1;
        }
        proof {
            assert(config.devices@.take(i as int) =~= config.devices@);
            assert(facts@.take(i as int) =~= facts@);
        }
        match failure {
            None => Ok(registry),
            Some((_, problem)) => Err(problem),
        }
    }

    /// Takes up the configured rules alone.
    pub fn from_configuration(config: &ModuleConfig, checks: Vec<RuleChecks>) -> (loaded: Result<
        Self,
        DndScheduleRegistryError,
    >)
        requires
            names_differ(*config),
            checks@.len() == config.devices@.len(),
        ensures
            match loaded {
                Ok(registry) => registry.wf() && holds_all(
                    registry,
                    config.devices@,
                    configured_only(checks@),
                    config.general.timezone,
                ),
                Err(problem) => is_first_problem(
                    config.devices@,
                    configured_only(checks@),
                    problem,
                ),
            },
    {
        let facts = configured_facts(checks);
        DndScheduleRegistry::load(config, &facts)
    }
}

/// Stations for which the operator set nothing.
pub open spec fn configured_only(checks: Seq<RuleChecks>) -> Seq<ScheduleFacts> {
    checks.map_values(
        |checks: RuleChecks| ScheduleFacts { stored: Ok(None), configured: checks },
    )
}

fn configured_facts(checks: Vec<RuleChecks>) -> (facts: Vec<ScheduleFacts>)
    ensures
        facts@ == configured_only(checks@),
{
    let ghost given = checks@;
    let ghost f = |checks: RuleChecks| ScheduleFacts { stored: Ok(None), configured: checks };
    let mut left = checks;
    let mut facts: Vec<ScheduleFacts> = Vec::new();
    while left.len() > 0
        invariant
            f == (|checks: RuleChecks| ScheduleFacts { stored: Ok(None), configured: checks }),
            left@.len() + facts@.len() == given.len(),
            left@ == given.skip(facts@.len() as int),
            facts@ == given.take(facts@.len() as int).map_values(f),
        decreases left@.len(),
    {
        let ghost done = facts@.len() as int;
        assert(left@[0] == given[done]);
        let checks = left.remove(0);
        facts.push(ScheduleFacts { stored: Ok(None), configured: checks });
        proof {
            assert(left@ =~= given.skip(done + 1));
            assert(facts@ =~= given.take(done + 1).map_values(f));
        }
    }
    assert(given.take(facts@.len() as int) =~= given);
    facts
}

/// The rules are written alike.
pub open spec fn same_rules(left: Seq<DndSchedule>, right: Seq<DndSchedule>) -> bool {
    &&& left.len() == right.len()
    &&& forall|i: int|
        0 <= i < left.len() ==> (#[trigger] left[i]).mode == right[i].mode && left[i].text@
            == right[i].text@
}

fn rules_agree(left: &Vec<DndSchedule>, right: &Vec<DndSchedule>) -> (agree: bool)
    ensures
        agree == same_rules(left@, right@),
{
    if left.len() != right.len() {
        return false;
    }
    let mut i: usize = 0;
    while i < left.len()
        invariant
            left@.len() == right@.len(),
            0 <= i <= left@.len(),
            forall|j: int|
                0 <= j < i ==> (#[trigger] left@[j]).mode == right@[j].mode && left@[j].text@
                    == right@[j].text@,
        decreases left@.len() - i,
    {
        if left[i].mode != right[i].mode || left[i].text != right[i].text {
            assert(!(left@[i as int].mode == right@[i as int].mode && left@[i as int].text@
                == right@[i as int].text@));
            return false;
        }
        i += 1;
    }
    true
}

/// Rules that did not change go on where they were; rules that were taken away are
/// carried out once more, so that the station is not left as they had put it.
pub open spec fn preserved(current: ScheduleView, old: Option<ScheduleView>) -> ScheduleView {
    match old {
        None => current,
        Some(old) => if same_rules(old.rules, current.rules) && old.timezone == current.timezone {
            ScheduleView {
                last_phase: old.last_phase,
                pending_catchup: old.pending_catchup,
                last_failure_warning: old.last_failure_warning,
                ..current
            }
        } else if current.rules.len() == 0 {
            ScheduleView { pending_catchup: true, ..current }
        } else {
            current
        },
    }
}

/// Who owns the rules of a station after a reload: what the operator set since the
/// reload began stays, and what the operator gave back is the configured one.
pub open spec fn reowned(
    candidate: ScheduleView,
    configured: Option<ScheduleView>,
    live: Option<ScheduleView>,
) -> ScheduleView {
    match live {
        None => candidate,
        Some(current) => match current.source {
            DndScheduleSource::Configuration => match configured {
                Some(configured) => configured,
                None => candidate,
            },
            DndScheduleSource::Override => if current.timezone != candidate.timezone {
                ScheduleView {
                    timezone: candidate.timezone,
                    last_phase: None,
                    pending_catchup: current.pending_catchup || current.rules.len() > 0,
                    ..current
                }
            } else {
                current
            },
        },
    }
}

fn preserve(current: DeviceDndSchedule, old: Option<&DeviceDndSchedule>) -> (kept: DeviceDndSchedule)
    ensures
        kept@ == preserved(
            current@,
            match old {
                Some(old) => Some(old@),
                None => None,
            },
        ),
{
    let mut current = current;
    match old {
        None => {},
        Some(old) => {
            if rules_agree(&old.rules, &current.rules) && old.timezone == current.timezone {
                current.last_phase = old.last_phase;
                current.pending_catchup = old.pending_catchup;
                current.last_failure_warning = old.last_failure_warning;
            } else if current.rules.len() == 0 {
                current.pending_catchup = true;
            }
        },
    }
    current
}

fn reown(
    candidate: DeviceDndSchedule,
    configured: Option<&DeviceDndSchedule>,
    live: Option<&DeviceDndSchedule>,
) -> (owned: DeviceDndSchedule)
    ensures
        owned@ == reowned(
            candidate@,
            match configured {
                Some(configured) => Some(configured@),
                None => None,
            },
            match live {
                Some(live) => Some(live@),
                None => None,
            },
        ),
{
    let current = match live {
        Some(current) => current,
        None => {
            return candidate;
        },
    };
    match current.source {
        DndScheduleSource::Configuration => match configured {
            Some(configured) => configured.clone(),
            None => candidate,
        },
        DndScheduleSource::Override => {
            let mut owned = current.clone();
            if owned.timezone != candidate.timezone {
                owned.timezone = candidate.timezone;
                owned.last_phase = None;
                owned.pending_catchup = owned.pending_catchup || owned.rules.len() > 0;
            }
            owned
        },
    }
}

impl DndScheduleRegistry {
    /// Settles who owns the rules of each station once a reloaded configuration is
    /// installed, and goes on where the rules stayed the same.
    pub fn reconcile_live_ownership(&mut self, configured: &Self, live: &Self)
        requires
            old(self).wf(),
        ensures
            final(self).wf(),
            final(self).devices@.len() == old(self).devices@.len(),
            forall|i: int|
                0 <= i < old(self).devices@.len() ==> {
                    let name = old(self).devices@[i].device@;
                    &&& (#[trigger] final(self).devices@[i]).device@ == name
                    &&& final(self).devices@[i].schedule@ == preserved(
                        reowned(
                            old(self).devices@[i].schedule@,
                            configured.schedule_spec(name),
                            live.schedule_spec(name),
                        ),
                        live.schedule_spec(name),
                    )
                },
    {
        let ghost before = self.devices@;
        let mut i: usize = 0;
        while i < self.devices.len()
            invariant
                0 <= i <= self.devices@.len(),
                self.devices@.len() == before.len(),
                forall|j: int| i <= j < before.len() ==> #[trigger] self.devices@[j] == before[j],
                forall|j: int|
                    0 <= j < i ==> {
                        let name = before[j].device@;
                        &&& (#[trigger] self.devices@[j]).device@ == name
                        &&& self.devices@[j].schedule@ == preserved(
                            reowned(
                                before[j].schedule@,
                                configured.schedule_spec(name),
                                live.schedule_spec(name),
                            ),
                            live.schedule_spec(name),
                        )
                    },
            decreases self.devices@.len() - i,
        {
            let ghost now = self.devices@;
            let entry = self.devices.remove(i);
            let device = entry.device;
            let owned = reown(entry.schedule, configured.get(&device), live.get(&device));
            let schedule = preserve(owned, live.get(&device));
            self.devices.insert(i, ScheduledDevice { device, schedule });
            proof {
                assert forall|j: int| 0 <= j < now.len() && j != i implies
                    #[trigger] self.devices@[j] == now[j] by {}
            }
            i += 1;
        }
        proof {
            lemma_renamed_order(before, self.devices@);
        }
    }

    /// Goes on where the rules stayed the same.
    pub fn preserve_unchanged_phases(&mut self, previous: &Self)
        requires
            old(self).wf(),
        ensures
            final(self).wf(),
            final(self).devices@.len() == old(self).devices@.len(),
            forall|i: int|
                0 <= i < old(self).devices@.len() ==> {
                    let name = old(self).devices@[i].device@;
                    &&& (#[trigger] final(self).devices@[i]).device@ == name
                    &&& final(self).devices@[i].schedule@ == preserved(
                        old(self).devices@[i].schedule@,
                        previous.schedule_spec(name),
                    )
                },
    {
        let ghost before = self.devices@;
        let mut i: usize = 0;
        while i < self.devices.len()
            invariant
                0 <= i <= self.devices@.len(),
                self.devices@.len() == before.len(),
                forall|j: int| i <= j < before.len() ==> #[trigger] self.devices@[j] == before[j],
                forall|j: int|
                    0 <= j < i ==> {
                        let name = before[j].device@;
                        &&& (#[trigger] self.devices@[j]).device@ == name
                        &&& self.devices@[j].schedule@ == preserved(
                            before[j].schedule@,
                            previous.schedule_spec(name),
                        )
                    },
            decreases self.devices@.len() - i,
        {
            let ghost now = self.devices@;
            let entry = self.devices.remove(i);
            let device = entry.device;
            let schedule = preserve(entry.schedule, previous.get(&device));
            self.devices.insert(i, ScheduledDevice { device, schedule });
            proof {
                assert forall|j: int| 0 <= j < now.len() && j != i implies
                    #[trigger] self.devices@[j] == now[j] by {}
            }
            i += 1;
        }
        proof {
            lemma_renamed_order(before, self.devices@);
        }
    }
}

/// A list with the names of an ordered one is ordered.
proof fn lemma_renamed_order(before: Seq<ScheduledDevice>, after: Seq<ScheduledDevice>)
    requires
        in_order(before),
        before.len() == after.len(),
        forall|i: int|
            0 <= i < before.len() ==> (#[trigger] after[i]).device@ == before[i].device@,
    ensures
        in_order(after),
{
    assert forall|a: int, b: int| 0 <= a < b < after.len() implies text::text_less(
        (#[trigger] after[a]).device@,
        (#[trigger] after[b]).device@,
    ) by {
        assert(text::text_less(before[a].device@, before[b].device@));
    }
}

/// A station whose mode has to change.
#[derive(Debug, PartialEq, Eq)]
pub struct DueTransition {
    pub device: DeviceId,
    pub phase: DndSchedulePhase,
    pub has_rules: bool,
}

/// The rules of a station have to be carried out.
pub open spec fn is_due(schedule: ScheduleView, phase: DndSchedulePhase) -> bool {
    &&& schedule.rules.len() > 0 || schedule.pending_catchup
    &&& schedule.pending_catchup || schedule.last_phase != Some(phase)
}

/// Every station whose rules have to be carried out, in order.
pub open spec fn due_spec(devices: Seq<ScheduledDevice>, phases: Seq<DndSchedulePhase>) -> Seq<
    DueTransition,
>
    decreases devices.len(),
{
    if devices.len() == 0 {
        Seq::empty()
    } else {
        let rest = due_spec(devices.drop_last(), phases.drop_last());
        let entry = devices.last();
        if is_due(entry.schedule@, phases.last()) {
            rest.push(
                DueTransition {
                    device: entry.device,
                    phase: phases.last(),
                    has_rules: entry.schedule.rules@.len() > 0,
                },
            )
        } else {
            rest
        }
    }
}

impl DndScheduleRegistry {
    /// Every station whose rules have to be carried out; `phases` is what the rules
    /// of each say now.
    pub fn due(&self, phases: &Vec<DndSchedulePhase>) -> (due: Vec<DueTransition>)
        requires
            phases@.len() == self.devices@.len(),
        ensures
            due@ == due_spec(self.devices@, phases@),
    {
        let mut due: Vec<DueTransition> = Vec::new();
        let mut i: usize = 0;
        while i < self.devices.len()
            invariant
                0 <= i <= self.devices@.len(),
                phases@.len() == self.devices@.len(),
                due@ == due_spec(self.devices@.take(i as int), phases@.take(i as int)),
            decreases self.devices@.len() - i,
        {
            proof {
                assert(self.devices@.take(i + 1).drop_last() =~= self.devices@.take(i as int));
                assert(phases@.take(i + 1).drop_last() =~= phases@.take(i as int));
            }
            let entry = &self.devices[i];
            let schedule = &entry.schedule;
            let phase = phases[i];
            let has_rules = schedule.rules.len() > 0;
            if (has_rules || schedule.pending_catchup) && (schedule.pending_catchup
                || schedule.last_phase != Some(phase)) {
                due.push(DueTransition { device: entry.device.clone(), phase, has_rules });
            }
            i += 1;
        }
        proof {
            assert(self.devices@.take(i as int) =~= self.devices@);
            assert(phases@.take(i as int) =~= phases@);
        }
        due
    }

    /// Notes how carrying out the rules of a station went, at a time in seconds, and
    /// says whether a failure is to be reported now.
    pub fn finish_transition(&mut self, due: &DueTransition, succeeded: bool, now: u64) -> (warn:
        bool)
        requires
            old(self).wf(),
        ensures
            final(self).wf(),
            warn == (!succeeded && (old(self).schedule_spec(due.device@) matches Some(schedule)
                && warning_due(schedule, now))),
            forall|name: Seq<char>| #[trigger]
                final(self).schedule_spec(name) == match old(self).schedule_spec(name) {
                    Some(schedule) if name == due.device@ => Some(
                        noted(schedule, *due, succeeded, now),
                    ),
                    unchanged => unchanged,
                },
    {
        let ghost before = self.devices@;
        let mut warn = false;
        match self.index_of(&due.device) {
            Some(i) => {
                let entry = self.devices.remove(i);
                let mut schedule = entry.schedule;
                if succeeded {
                    schedule.last_phase = if due.has_rules {
                        Some(due.phase)
                    } else {
                        None
                    };
                    schedule.pending_catchup = false;
                    schedule.last_failure_warning = None;
                } else {
                    warn = match schedule.last_failure_warning {
                        None => true,
                        Some(previous) => now >= previous && now - previous
                            >= FAILURE_WARNING_INTERVAL_SECONDS,
                    };
                    if warn {
                        schedule.last_failure_warning = Some(now);
                    }
                }
                self.devices.insert(i, ScheduledDevice { device: entry.device, schedule });
                proof {
                    let after = self.devices@;
                    assert forall|j: int| 0 <= j < before.len() implies (
                    #[trigger] after[j]).device@ == before[j].device@ by {}
                    lemma_renamed_order(before, after);
                    assert forall|name: Seq<char>| #[trigger]
                        self.schedule_spec(name) == match schedule_in(before, name) {
                            Some(schedule) if name == due.device@ => Some(
                                noted(schedule, *due, succeeded, now),
                            ),
                            unchanged => unchanged,
                        } by {
                        assert forall|j: int| 0 <= j < before.len() implies (
                        #[trigger] before[j]).device@ == after[j].device@ by {}
                        lemma_same_names(before, after, name);
                        if name != due.device@ {
                            match lookup::first_at(before, schedules(name), 0) {
                                Some(k) => {
                                    assert(k != i);
                                    assert(after[k] == before[k]);
                                },
                                None => {},
                            }
                        }
                    }
                }
            },
            None => {},
        }
        warn
    }
}

/// A failure has not been reported for a while.
pub open spec fn warning_due(schedule: ScheduleView, now: u64) -> bool {
    match schedule.last_failure_warning {
        None => true,
        Some(previous) => now - previous >= FAILURE_WARNING_INTERVAL_SECONDS,
    }
}

/// What is known of the rules after they were carried out, or not.
pub open spec fn noted(
    schedule: ScheduleView,
    due: DueTransition,
    succeeded: bool,
    now: u64,
) -> ScheduleView {
    if succeeded {
        ScheduleView {
            last_phase: if due.has_rules {
                Some(due.phase)
            } else {
                None
            },
            pending_catchup: false,
            last_failure_warning: None,
            ..schedule
        }
    } else if warning_due(schedule, now) {
        ScheduleView { last_failure_warning: Some(now), ..schedule }
    } else {
        schedule
    }
}

/// Whether a tick is to be carried out: one that is under way stands for it.
pub fn run_dnd_schedule_tick(pending: &mut bool) -> (begun: bool)
    ensures
        begun == !*old(pending),
        *final(pending),
{
    let begun = !*pending;
    *pending = true;
    begun
}

pub open spec fn mode_words(mode: DndMode) -> Seq<char> {
    match mode {
        DndMode::Off => "off"@,
        DndMode::Silent => "silent"@,
        DndMode::Reject => "reject"@,
    }
}

pub fn runtime_dnd_mode_name(mode: DndMode) -> (name: &'static str)
    ensures
        name@ == mode_words(mode),
{
    match mode {
        DndMode::Off => "off",
        DndMode::Silent => "silent",
        DndMode::Reject => "reject",
    }
}

pub open spec fn error_words(error: RuntimeDndMutationError) -> Seq<char> {
    match error {
        RuntimeDndMutationError::Unavailable => "runtime unavailable"@,
        RuntimeDndMutationError::DeviceNotFound => "device not found"@,
        RuntimeDndMutationError::FeatureDisabled => "DND feature disabled"@,
        RuntimeDndMutationError::ButtonNotFound => "DND button not found"@,
        RuntimeDndMutationError::Store(_) => "feature-state persistence failed"@,
    }
}

pub fn dnd_mutation_error_name(error: &RuntimeDndMutationError) -> (name: &'static str)
    ensures
        name@ == error_words(*error),
{
    match error {
        RuntimeDndMutationError::Unavailable => "runtime unavailable",
        RuntimeDndMutationError::DeviceNotFound => "device not found",
        RuntimeDndMutationError::FeatureDisabled => "DND feature disabled",
        RuntimeDndMutationError::ButtonNotFound => "DND button not found",
        RuntimeDndMutationError::Store(_) => "feature-state persistence failed",
    }
}

pub open spec fn failure_text(reason: Seq<char>) -> Seq<char> {
    "DND schedule command failed: "@ + reason + "\n"@
}

/// What the operator is told about a refused command.
pub fn schedule_failure(reason: &str) -> (text: String)
    ensures
        text@ == failure_text(reason@),
{
    let mut text = "DND schedule command failed: ".to_owned();
    text.append(reason);
    text.append("\n");
    text
}

pub open spec fn not_configured_text(device: Seq<char>) -> Seq<char> {
    "DND schedule command failed: device "@ + device + " is not configured\n"@
}

fn not_configured(device: &DeviceId) -> (text: String)
    ensures
        text@ == not_configured_text(device@),
{
    let mut text = "DND schedule command failed: device ".to_owned();
    text.append(device.as_str());
    text.append(" is not configured\n");
    text
}

/// What became of a command that was handed to the owner of the rules.
#[derive(Debug, PartialEq, Eq)]
pub enum ScheduleReply {
    Answered(String),
    /// The rules cannot be changed now.
    NoTransaction,
    /// The command was not taken.
    Refused(String),
    /// No answer came in time.
    Unanswered,
}

/// What the operator is told.
pub fn schedule_reply(reply: ScheduleReply) -> (text: String)
    ensures
        match reply {
            ScheduleReply::Answered(answer) => text == answer,
            ScheduleReply::NoTransaction => text@ == "DND schedule transaction unavailable\n"@,
            ScheduleReply::Refused(error) => text@ == failure_text(error@),
            ScheduleReply::Unanswered => text@ == "DND schedule command result unavailable\n"@,
        },
{
    match reply {
        ScheduleReply::Answered(answer) => answer,
        ScheduleReply::NoTransaction => "DND schedule transaction unavailable\n".to_owned(),
        ScheduleReply::Refused(error) => schedule_failure(error.as_str()),
        ScheduleReply::Unanswered => "DND schedule command result unavailable\n".to_owned(),
    }
}

/// What preparing schedules came to; the owner may be gone or take too long.
pub fn stage_reply<T>(reply: Option<Result<T, String>>) -> (staged: Result<T, String>)
    ensures
        match reply {
            Some(answer) => staged == answer,
            None => staged matches Err(words) && words@ == "DND schedule staging unavailable"@,
        },
{
    match reply {
        Some(answer) => answer,
        None => Err("DND schedule staging unavailable".to_owned()),
    }
}

/// What becomes of the rules of a reloaded configuration: both the rules that apply
/// and the configured ones must be usable.
pub fn stage(
    candidate: Result<DndScheduleRegistry, DndScheduleRegistryError>,
    configured: Result<DndScheduleRegistry, DndScheduleRegistryError>,
) -> (staged: Result<(DndScheduleRegistry, DndScheduleRegistry), String>)
    ensures
        match (candidate, configured) {
            (Ok(candidate), Ok(configured)) => staged == Ok::<
                (DndScheduleRegistry, DndScheduleRegistry),
                String,
            >((candidate, configured)),
            (Err(error), _) => staged matches Err(text) && text@ == error.text_spec(),
            (Ok(_), Err(error)) => staged matches Err(text) && text@ == error.text_spec(),
        },
{
    match candidate {
        Err(error) => Err(error.text()),
        Ok(candidate) => match configured {
            Err(error) => Err(error.text()),
            Ok(configured) => Ok((candidate, configured)),
        },
    }
}

/// How the operator changes the rules of a station.
#[derive(Debug, PartialEq, Eq)]
pub enum ScheduleMutation {
    Add(DndSchedule),
    /// By number, from one.
    Remove(usize),
    Clear,
    Reset,
}

/// What typed words come to.
#[derive(Debug, PartialEq, Eq)]
pub enum ScheduleCli {
    Reply(String),
    Show,
    Mutate(ScheduleMutation),
    /// Read the rule and add it.
    Parse(String),
}

/// The length of a text in bytes.
pub open spec fn byte_length(text: Seq<char>) -> nat {
    vstd::utf8::encode_utf8(text).len()
}

pub open spec fn configured_spec(access: Access, device: Seq<char>) -> bool {
    lookup::first(access.shared.config.devices@, config::is_device(device)) is Some
}

pub open spec fn replies(cli: ScheduleCli, words: Seq<char>) -> bool {
    cli matches ScheduleCli::Reply(text) && text@ == words
}

/// What the words of a command for a configured station come to.
pub open spec fn command_spec(
    arguments: Seq<String>,
    limits: DndScheduleLimits,
    cli: ScheduleCli,
) -> bool {
    let word = arguments[1]@;
    if arguments.len() == 2 && text::same_letters(word, "show"@) {
        cli is Show
    } else if arguments.len() == 2 && text::same_letters(word, "clear"@) {
        cli == ScheduleCli::Mutate(ScheduleMutation::Clear)
    } else if arguments.len() == 2 && text::same_letters(word, "reset"@) {
        cli == ScheduleCli::Mutate(ScheduleMutation::Reset)
    } else if arguments.len() == 3 && text::same_letters(word, "remove"@) {
        match text::number_value(arguments[2]@) {
            Some(n) if n <= usize::MAX => cli == ScheduleCli::Mutate(
                ScheduleMutation::Remove(n as usize),
            ),
            _ => replies(cli, "DND schedule remove requires a one-based rule index\n"@),
        }
    } else if arguments.len() == 5 && text::same_letters(word, "add"@) {
        let bytes = byte_length(arguments[2]@) + byte_length(arguments[3]@) + byte_length(
            arguments[4]@,
        ) + 4;
        if bytes > usize::MAX {
            replies(cli, failure_text("rule is too long"@))
        } else if bytes > limits.bytes {
            replies(
                cli,
                failure_text("rule exceeds "@ + text::decimal(limits.bytes as nat) + " bytes"@),
            )
        } else {
            cli matches ScheduleCli::Parse(raw) && raw@ == arguments[2]@ + ", "@ + arguments[3]@
                + ", "@ + arguments[4]@
        }
    } else {
        replies(cli, "Invalid DND schedule command arguments\n"@)
    }
}

fn read_command(arguments: &Vec<String>, limits: DndScheduleLimits) -> (cli: ScheduleCli)
    requires
        arguments@.len() > 0,
    ensures
        command_spec(arguments@, limits, cli),
{
    let count: usize = arguments.len();
    if count < 2 {
        return ScheduleCli::Reply("Invalid DND schedule command arguments\n".to_owned());
    }
    let word = arguments[1].as_str();
    if count == 2 && same_ignoring_case(word, "show") {
        return ScheduleCli::Show;
    }
    if count == 2 && same_ignoring_case(word, "clear") {
        return ScheduleCli::Mutate(ScheduleMutation::Clear);
    }
    if count == 2 && same_ignoring_case(word, "reset") {
        return ScheduleCli::Mutate(ScheduleMutation::Reset);
    }
    if count == 3 && same_ignoring_case(word, "remove") {
        return match parse_number(arguments[2].as_str()) {
            Some(index) => ScheduleCli::Mutate(ScheduleMutation::Remove(index)),
            None => ScheduleCli::Reply(
                "DND schedule remove requires a one-based rule index\n".to_owned(),
            ),
        };
    }
    if count == 5 && same_ignoring_case(word, "add") {
        return read_rule(
            arguments[2].as_str(),
            arguments[3].as_str(),
            arguments[4].as_str(),
            limits,
        );
    }
    ScheduleCli::Reply("Invalid DND schedule command arguments\n".to_owned())
}

fn too_long() -> (cli: ScheduleCli)
    ensures
        replies(cli, failure_text("rule is too long"@)),
{
    ScheduleCli::Reply(schedule_failure("rule is too long"))
}

fn read_rule(time: &str, days: &str, mode: &str, limits: DndScheduleLimits) -> (cli: ScheduleCli)
    ensures
        ({
            let bytes = byte_length(time@) + byte_length(days@) + byte_length(mode@) + 4;
            if bytes > usize::MAX {
                replies(cli, failure_text("rule is too long"@))
            } else if bytes > limits.bytes {
                replies(
                    cli,
                    failure_text("rule exceeds "@ + text::decimal(limits.bytes as nat) + " bytes"@),
                )
            } else {
                cli matches ScheduleCli::Parse(raw) && raw@ == time@ + ", "@ + days@ + ", "@ + mode@
            }
        }),
{
    let bytes: usize = match time.as_bytes().len().checked_add(days.as_bytes().len()) {
        Some(bytes) => bytes,
        None => {
            return too_long();
        },
    };
    let bytes: usize = match bytes.checked_add(mode.as_bytes().len()) {
        Some(bytes) => bytes,
        None => {
            return too_long();
        },
    };
    let bytes: usize = match bytes.checked_add(4) {
        Some(bytes) => bytes,
        None => {
            return too_long();
        },
    };
    if bytes > limits.bytes {
        let mut reason = "rule exceeds ".to_owned();
        let limit = decimal_text(limits.bytes as u64);
        reason.append(limit.as_str());
        reason.append(" bytes");
        return ScheduleCli::Reply(schedule_failure(reason.as_str()));
    }
    let mut raw = time.to_owned();
    raw.append(", ");
    raw.append(days);
    raw.append(", ");
    raw.append(mode);
    ScheduleCli::Parse(raw)
}

/// What an operator typed asks for, of which station.
#[derive(Debug, PartialEq, Eq)]
pub enum ScheduleRequest {
    Refused(String),
    Accepted { device: DeviceId, cli: ScheduleCli },
}

/// Reads what an operator typed. `valid` says whether its first word has the form
/// of a station name.
pub fn execute_dnd_schedule_cli(
    access: &Access,
    arguments: &Vec<String>,
    valid: bool,
    limits: DndScheduleLimits,
) -> (request: ScheduleRequest)
    ensures
        match request {
            ScheduleRequest::Refused(text) => if arguments@.len() == 0 {
                text@ == "Invalid DND schedule command arguments\n"@
            } else if !valid {
                text@ == "Invalid device selector\n"@
            } else {
                &&& !configured_spec(*access, arguments@[0]@)
                &&& text@ == not_configured_text(arguments@[0]@)
            },
            ScheduleRequest::Accepted { device, cli } => {
                &&& arguments@.len() > 0 && valid
                &&& device@ == arguments@[0]@
                &&& configured_spec(*access, device@)
                &&& command_spec(arguments@, limits, cli)
            },
        },
{
    if arguments.len() == 0 {
        return ScheduleRequest::Refused("Invalid DND schedule command arguments\n".to_owned());
    }
    if !valid {
        return ScheduleRequest::Refused("Invalid device selector\n".to_owned());
    }
    let device = DeviceId::named(arguments[0].as_str());
    if access.shared.config.device(&device).is_none() {
        return ScheduleRequest::Refused(not_configured(&device));
    }
    ScheduleRequest::Accepted { device, cli: read_command(arguments, limits) }
}

/// What a rule that was read comes to.
pub fn add_parsed_rule(parsed: Result<DndSchedule, String>) -> (cli: ScheduleCli)
    ensures
        match parsed {
            Ok(rule) => cli == ScheduleCli::Mutate(ScheduleMutation::Add(rule)),
            Err(error) => replies(cli, failure_text(error@)),
        },
{
    match parsed {
        Ok(rule) => ScheduleCli::Mutate(ScheduleMutation::Add(rule)),
        Err(error) => ScheduleCli::Reply(schedule_failure(error.as_str())),
    }
}

/// The rules after a change, or what speaks against it.
pub open spec fn mutated_rules(
    rules: Seq<DndSchedule>,
    configured: Seq<DndSchedule>,
    mutation: ScheduleMutation,
    limits: DndScheduleLimits,
) -> Result<Seq<DndSchedule>, Seq<char>> {
    match mutation {
        ScheduleMutation::Add(rule) => if rules.len() >= limits.rules {
            Err(failure_text("maximum is "@ + text::decimal(limits.rules as nat) + " rules"@))
        } else {
            Ok(rules.push(rule))
        },
        ScheduleMutation::Remove(index) => if index == 0 || index > rules.len() {
            Err(failure_text("rule index must be between 1 and "@ + text::decimal(rules.len())))
        } else {
            Ok(rules.remove(index - 1))
        },
        ScheduleMutation::Clear => Ok(Seq::empty()),
        ScheduleMutation::Reset => Ok(configured),
    }
}

/// Rules that are to be taken up.
#[derive(Debug, PartialEq, Eq)]
pub struct PlannedSchedule {
    pub source: DndScheduleSource,
    pub rules: Vec<DndSchedule>,
    pub timezone: Option<TimeZone>,
}

/// What a change comes to before anything is stored.
pub open spec fn planned(
    access: Access,
    registry: DndScheduleRegistry,
    device: Seq<char>,
    mutation: ScheduleMutation,
    limits: DndScheduleLimits,
    plan: Result<PlannedSchedule, String>,
) -> bool {
    match lookup::first(access.shared.config.devices@, config::is_device(device)) {
        None => plan matches Err(text) && text@ == not_configured_text(device),
        Some(found) => match registry.schedule_spec(device) {
            None => plan matches Err(text) && text@ == failure_text(
                "schedule state is unavailable"@,
            ),
            Some(current) => match mutated_rules(
                current.rules,
                found.dnd_schedules@,
                mutation,
                limits,
            ) {
                Err(words) => plan matches Err(text) && text@ == words,
                Ok(rules) => plan matches Ok(plan) && plan.rules@ == rules && plan.timezone
                    == access.shared.config.general.timezone && plan.source
                    == if mutation is Reset {
                    DndScheduleSource::Configuration
                } else {
                    DndScheduleSource::Override
                },
            },
        },
    }
}

/// Works out the rules after a change.
pub fn mutate_schedule(
    access: &Access,
    registry: &DndScheduleRegistry,
    device: &DeviceId,
    mutation: ScheduleMutation,
    limits: DndScheduleLimits,
) -> (plan: Result<PlannedSchedule, String>)
    ensures
        planned(*access, *registry, device@, mutation, limits, plan),
{
    let found = match access.shared.config.device(device) {
        Some(found) => found,
        None => {
            return Err(not_configured(device));
        },
    };
    let mut rules = match registry.get(device) {
        Some(current) => copied_rules(&current.rules),
        None => {
            return Err(schedule_failure("schedule state is unavailable"));
        },
    };
    let timezone = access.shared.config.general.timezone;
    match mutation {
        ScheduleMutation::Add(rule) => {
            if rules.len() >= limits.rules {
                let mut reason = "maximum is ".to_owned();
                let limit = decimal_text(limits.rules as u64);
                reason.append(limit.as_str());
                reason.append(" rules");
                return Err(schedule_failure(reason.as_str()));
            }
            rules.push(rule);
        },
        ScheduleMutation::Remove(index) => {
            let count: usize = rules.len();
            if index == 0 || index > count {
                let mut reason = "rule index must be between 1 and ".to_owned();
                let limit = decimal_text(count as u64);
                reason.append(limit.as_str());
                return Err(schedule_failure(reason.as_str()));
            }
            let _ = rules.remove(index - 1);
        },
        ScheduleMutation::Clear => {
            rules.clear();
        },
        ScheduleMutation::Reset => {
            return Ok(
                PlannedSchedule {
                    source: DndScheduleSource::Configuration,
                    rules: copied_rules(&found.dnd_schedules),
                    timezone,
                },
            );
        },
    }
    Ok(PlannedSchedule { source: DndScheduleSource::Override, rules, timezone })
}

/// Takes up the rules after a change that was stored, and hands back those before
/// it.
pub fn install_mutation(
    registry: &mut DndScheduleRegistry,
    device: &DeviceId,
    schedule: DeviceDndSchedule,
) -> (previous: Option<DeviceDndSchedule>)
    requires
        old(registry).wf(),
    ensures
        final(registry).wf(),
        match previous {
            Some(previous) => old(registry).schedule_spec(device@) == Some(previous@),
            None => old(registry).schedule_spec(device@) is None,
        },
        forall|name: Seq<char>| #[trigger]
            final(registry).schedule_spec(name) == if name == device@ {
                Some(schedule@)
            } else {
                old(registry).schedule_spec(name)
            },
{
    registry.put(device.clone(), schedule)
}

pub open spec fn updated_text(device: Seq<char>, reset: bool, count: nat) -> Seq<char> {
    device + ": DND schedule "@ + if reset {
        "reset to config"@
    } else {
        "override updated"@
    } + " ("@ + text::decimal(count) + " rule"@ + if count == 1 {
        ""@
    } else {
        "s"@
    } + ")\n"@
}

/// Ends a change once its rules were carried out, or could not be: then the rules
/// before it apply again. `restored` says what came of restoring what was stored.
pub fn finish_mutation(
    registry: &mut DndScheduleRegistry,
    device: &DeviceId,
    previous: Option<DeviceDndSchedule>,
    phase: DndSchedulePhase,
    reset: bool,
    transition: Result<(), RuntimeDndMutationError>,
    restored: Result<(), String>,
) -> (text: String)
    requires
        old(registry).wf(),
        old(registry).schedule_spec(device@) is Some,
    ensures
        final(registry).wf(),
        match transition {
            Err(error) => {
                &&& text@ == match restored {
                    Ok(_) => "DND schedule command failed and was rolled back: "@ + error_words(
                        error,
                    ) + "\n"@,
                    Err(rollback) => "DND schedule command failed: "@ + error_words(error)
                        + "; override rollback also failed: "@ + rollback@ + "\n"@,
                }
                &&& forall|name: Seq<char>| #[trigger]
                    final(registry).schedule_spec(name) == if name == device@ {
                        match previous {
                            Some(previous) => Some(previous@),
                            None => None,
                        }
                    } else {
                        old(registry).schedule_spec(name)
                    }
            },
            Ok(_) => {
                let installed = old(registry).schedule_spec(device@)->0;
                &&& text@ == updated_text(device@, reset, installed.rules.len())
                &&& forall|name: Seq<char>| #[trigger]
                    final(registry).schedule_spec(name) == if name == device@ {
                        Some(
                            ScheduleView {
                                last_phase: if installed.rules.len() > 0 {
                                    Some(phase)
                                } else {
                                    None
                                },
                                pending_catchup: false,
                                ..installed
                            },
                        )
                    } else {
                        old(registry).schedule_spec(name)
                    }
            },
        },
{
    match transition {
        Err(error) => {
            match previous {
                Some(previous) => {
                    let _ = registry.put(device.clone(), previous);
                },
                None => {
                    registry.remove(device);
                },
            }
            let words = dnd_mutation_error_name(&error);
            match restored {
                Ok(_) => {
                    let mut text = "DND schedule command failed and was rolled back: ".to_owned();
                    text.append(words);
                    text.append("\n");
                    text
                },
                Err(rollback) => {
                    let mut text = "DND schedule command failed: ".to_owned();
                    text.append(words);
                    text.append("; override rollback also failed: ");
                    text.append(rollback.as_str());
                    text.append("\n");
                    text
                },
            }
        },
        Ok(_) => {
            let mut count: usize = 0;
            match registry.get(device) {
                Some(installed) => {
                    let mut schedule = installed.clone();
                    count = schedule.rules.len();
                    schedule.last_phase = if count > 0 {
                        Some(phase)
                    } else {
                        None
                    };
                    schedule.pending_catchup = false;
                    let _ = registry.put(device.clone(), schedule);
                },
                None => {},
            }
            let mut text = device.as_str().to_owned();
            text.append(": DND schedule ");
            if reset {
                text.append("reset to config");
            } else {
                text.append("override updated");
            }
            text.append(" (");
            let number = decimal_text(count as u64);
            text.append(number.as_str());
            text.append(" rule");
            if count == 1 {
                text.append("");
            } else {
                text.append("s");
            }
            text.append(")\n");
            text
        },
    }
}

/// The rules as they are listed, numbered from one.
pub open spec fn listed(rules: Seq<DndSchedule>) -> Seq<char>
    decreases rules.len(),
{
    if rules.len() == 0 {
        Seq::empty()
    } else {
        listed(rules.drop_last()) + "  "@ + text::decimal(rules.len()) + ". "@ + rules.last().text@
            + "\n"@
    }
}

pub open spec fn shown_text(
    device: Seq<char>,
    schedule: ScheduleView,
    phase: DndSchedulePhase,
    actual: Option<DndMode>,
) -> Seq<char> {
    "Device: "@ + device + "\nSource: "@ + schedule.source.name_spec() + "\nScheduled phase: "@
        + if schedule.rules.len() == 0 {
        "disabled"@
    } else {
        phase.name_spec()
    } + "\nActual DND: "@ + match actual {
        Some(mode) => mode_words(mode),
        None => "unknown"@,
    } + "\nRules:\n"@ + if schedule.rules.len() == 0 {
        "  (none)\n"@
    } else {
        listed(schedule.rules)
    }
}

/// Describes the rules of a station; `phase` is what they say now.
pub fn show_schedule(
    access: &Access,
    registry: &DndScheduleRegistry,
    device: &DeviceId,
    phase: DndSchedulePhase,
) -> (text: String)
    ensures
        text@ == match registry.schedule_spec(device@) {
            None => failure_text("schedule state is unavailable"@),
            Some(schedule) => shown_text(
                device@,
                schedule,
                phase,
                match lookup::first(
                    access.shared.controller.features@,
                    controller::features_of(device@),
                ) {
                    Some(features) => Some(features.state.dnd),
                    None => None,
                },
            ),
        },
{
    let schedule = match registry.get(device) {
        Some(schedule) => schedule,
        None => {
            return schedule_failure("schedule state is unavailable");
        },
    };
    let actual = match access.shared.controller.feature_state(device) {
        Some(state) => runtime_dnd_mode_name(state.dnd),
        None => "unknown",
    };
    let phase_name = if schedule.rules.len() == 0 {
        "disabled"
    } else {
        phase.name()
    };
    let mut text = "Device: ".to_owned();
    text.append(device.as_str());
    text.append("\nSource: ");
    text.append(schedule.source.name());
    text.append("\nScheduled phase: ");
    text.append(phase_name);
    text.append("\nActual DND: ");
    text.append(actual);
    text.append("\nRules:\n");
    if schedule.rules.len() == 0 {
        text.append("  (none)\n");
        return text;
    }
    let rules = list_rules(&schedule.rules);
    text.append(rules.as_str());
    text
}

fn list_rules(rules: &Vec<DndSchedule>) -> (text: String)
    ensures
        text@ == listed(rules@),
{
    let mut text = String::new();
    let mut i: usize = 0;
    proof {
        assert(text@ =~= Seq::empty());
    }
    while i < rules.len()
        invariant
            0 <= i <= rules@.len(),
            text@ == listed(rules@.take(i as int)),
        decreases rules@.len() - i,
    {
        proof {
            assert(rules@.take(i + 1).drop_last() =~= rules@.take(i as int));
        }
        text.append("  ");
        let number = decimal_text((i + 1) as u64);
        text.append(number.as_str());
        text.append(". ");
        text.append(rules[i].text.as_str());
        text.append("\n");
        i += 1;
    }
    proof {
        assert(rules@.take(i as int) =~= rules@);
    }
    text
}

/// Every station is left alone by rules that say what they said before.
pub proof fn law_carried_out_rules_rest(
    schedule: ScheduleView,
    due: DueTransition,
    now: u64,
)
    requires
        due.has_rules == (schedule.rules.len() > 0),
    ensures
        !is_due(noted(schedule, due, true, now), due.phase),
{
}

/// A reload that changes neither the rules nor the time zone does not carry them
/// out again, and does not forget that they have to be.
pub proof fn law_unchanged_rules_go_on(schedule: ScheduleView, phase: DndSchedulePhase)
    ensures
        preserved(
            fresh_schedule(schedule.source, schedule.rules, schedule.timezone),
            Some(schedule),
        ) == schedule,
        schedule.source == DndScheduleSource::Override ==> preserved(
            reowned(
                fresh_schedule(schedule.source, schedule.rules, schedule.timezone),
                None,
                Some(schedule),
            ),
            Some(schedule),
        ) == schedule,
{
}

/// What the operator set outlives a reload, whatever the new configuration holds.
pub proof fn law_overrides_outlive_reloads(
    candidate: ScheduleView,
    configured: Option<ScheduleView>,
    live: ScheduleView,
)
    requires
        live.source == DndScheduleSource::Override,
    ensures
        preserved(reowned(candidate, configured, Some(live)), Some(live)).rules == live.rules,
        preserved(reowned(candidate, configured, Some(live)), Some(live)).source == live.source,
        preserved(reowned(candidate, configured, Some(live)), Some(live)).timezone
            == candidate.timezone,
{
}

/// Adding a rule and removing it again gives the rules back.
pub proof fn law_added_rules_can_be_removed(
    rules: Seq<DndSchedule>,
    configured: Seq<DndSchedule>,
    rule: DndSchedule,
    limits: DndScheduleLimits,
)
    requires
        rules.len() < limits.rules,
    ensures
        mutated_rules(rules, configured, ScheduleMutation::Add(rule), limits) == Ok::<
            Seq<DndSchedule>,
            Seq<char>,
        >(rules.push(rule)),
        mutated_rules(
            rules.push(rule),
            configured,
            ScheduleMutation::Remove((rules.len() + 1) as usize),
            limits,
        ) == Ok::<Seq<DndSchedule>, Seq<char>>(rules),
{
    assert(rules.push(rule).remove(rules.len() as int) =~= rules);
}

/// Loading gives every configured station the rules that the operator stored for
/// it, in their order, and the configured ones exactly if nothing was stored. None
/// of them counts as carried out yet.
pub proof fn law_loaded_stations_have_the_stored_rules(
    config: ModuleConfig,
    facts: Vec<ScheduleFacts>,
    registry: DndScheduleRegistry,
    i: int,
    k: int,
)
    requires
        names_differ(config),
        facts@.len() == config.devices@.len(),
        call_ensures(DndScheduleRegistry::load, (&config, &facts), Ok(registry)),
        0 <= i < config.devices@.len(),
    ensures
        facts@[i].stored is Ok,
        exists|j: int|
            0 <= j < registry.devices@.len() && (#[trigger] registry.devices@[j]).device@
                == config.devices@[i].id@,
        0 <= k < registry.devices@.len() && registry.devices@[k].device@ == config.devices@[i].id@
            ==> {
            let schedule = registry.devices@[k].schedule;
            &&& facts@[i].stored matches Ok(Some(stored)) ==> schedule.rules@ == stored.rules@
                && schedule.source == DndScheduleSource::Override
            &&& facts@[i].stored matches Ok(None) ==> schedule.rules@
                == config.devices@[i].dnd_schedules@ && schedule.source
                == DndScheduleSource::Configuration
            &&& schedule.timezone == config.general.timezone
            &&& schedule.last_phase is None
            &&& schedule.pending_catchup <==> schedule.rules@.len() > 0
        },
{
    let name = config.devices@[i].id@;
    let p = schedules(name);
    assert(load_problem(config.devices@[i], facts@[i]) is None);
    assert(registry.schedule_spec(name) is Some);
    lookup::lemma_first_at(registry.devices@, p, 0);
    if 0 <= k < registry.devices@.len() && registry.devices@[k].device@ == name {
        lemma_entry(registry.devices@, k);
    }
}

/// Loading is refused only over a station whose override cannot be read or whose
/// rules are refused: those that the operator stored where there are any, else
/// the configured ones.
pub proof fn law_loading_is_refused_over_a_station_with_a_problem(
    config: ModuleConfig,
    facts: Vec<ScheduleFacts>,
    problem: DndScheduleRegistryError,
) -> (i: int)
    requires
        names_differ(config),
        facts@.len() == config.devices@.len(),
        call_ensures(DndScheduleRegistry::load, (&config, &facts), Err(problem)),
    ensures
        0 <= i < config.devices@.len(),
        problem matches DndScheduleRegistryError::Store { device, source } ==> device
            == config.devices@[i].id && facts@[i].stored is Err && source
            == facts@[i].stored->Err_0,
        problem matches DndScheduleRegistryError::InvalidSchedule { device, .. } ==> device
            == config.devices@[i].id && facts@[i].stored is Ok,
        problem is InvalidSchedule ==> (facts@[i].stored matches Ok(Some(stored))
            ==> stored.checks.invalid is Some || exists|s: int|
            0 <= s < stored.checks.segments@.len() && (
            (#[trigger] stored.checks.segments@[s]).segment.end_minute_exclusive == 0
                || stored.checks.segments@[s].refused is Some)),
        problem is InvalidSchedule && facts@[i].stored == Ok::<Option<StoredRules>, String>(None)
            ==> facts@[i].configured.invalid is Some || exists|s: int|
            0 <= s < facts@[i].configured.segments@.len() && (
            (#[trigger] facts@[i].configured.segments@[s]).segment.end_minute_exclusive == 0
                || facts@[i].configured.segments@[s].refused is Some),
{
    assert(is_first_problem(config.devices@, facts@, problem));
    let i = choose|k: int|
        {
            &&& 0 <= k < config.devices@.len()
            &&& #[trigger] load_problem(config.devices@[k], facts@[k]) == Some(problem)
            &&& forall|j: int|
                #![trigger config.devices@[j]]
                0 <= j < config.devices@.len() && load_problem(
                    config.devices@[j],
                    facts@[j],
                ) is Some ==> !text::text_less(config.devices@[j].id@, config.devices@[k].id@)
        };
    assert(load_problem(config.devices@[i], facts@[i]) == Some(problem));
    match facts@[i].stored {
        Ok(Some(stored)) => {
            lookup::lemma_first_at(stored.checks.segments@, is_refused(), 0);
        },
        _ => {
            lookup::lemma_first_at(facts@[i].configured.segments@, is_refused(), 0);
        },
    }
    i
}

/// The first rule that holds decides what the rules say, silent as silent and
/// reject as reject; where none holds they say nothing. The station is put into
/// the mode of the same name.
pub proof fn law_the_first_rule_that_holds_decides(
    rules: Vec<DndSchedule>,
    holding: Vec<bool>,
    said: DndSchedulePhase,
    mode: DndMode,
    i: int,
)
    requires
        rules@.len() == holding@.len(),
        call_ensures(phase, (&rules, &holding), said),
        call_ensures(DndSchedulePhase::runtime_mode, (said,), mode),
        0 <= i <= holding@.len(),
        forall|j: int| 0 <= j < i ==> !(#[trigger] holding@[j]),
    ensures
        i == holding@.len() ==> said == DndSchedulePhase::Inactive && mode == DndMode::Off,
        i < holding@.len() && holding@[i] ==> {
            &&& rules@[i].mode == DndScheduleMode::Silent ==> said == DndSchedulePhase::Silent
                && mode == DndMode::Silent
            &&& rules@[i].mode == DndScheduleMode::Reject ==> said == DndSchedulePhase::Reject
                && mode == DndMode::Reject
        },
{
    let p = |holds: bool| holds;
    if i == holding@.len() {
        lookup::lemma_first_none(holding@, p);
    } else if holding@[i] {
        lookup::lemma_first_is(holding@, p, i);
    }
}

proof fn lemma_due(
    devices: Seq<ScheduledDevice>,
    phases: Seq<DndSchedulePhase>,
    transition: DueTransition,
)
    requires
        devices.len() == phases.len(),
    ensures
        due_spec(devices, phases).contains(transition) <==> exists|i: int|
            #![trigger devices[i]]
            0 <= i < devices.len() && is_due(devices[i].schedule@, phases[i]) && transition == (
            DueTransition {
                device: devices[i].device,
                phase: phases[i],
                has_rules: devices[i].schedule.rules@.len() > 0,
            }),
    decreases devices.len(),
{
    let all = due_spec(devices, phases);
    if devices.len() > 0 {
        let rest = due_spec(devices.drop_last(), phases.drop_last());
        lemma_due(devices.drop_last(), phases.drop_last(), transition);
        let last = devices.len() - 1;
        if all.contains(transition) {
            let k = choose|k: int| 0 <= k < all.len() && all[k] == transition;
            if k < rest.len() {
                assert(rest[k] == transition);
                let i = choose|i: int|
                    #![trigger devices.drop_last()[i]]
                    0 <= i < devices.len() - 1 && is_due(
                        devices.drop_last()[i].schedule@,
                        phases.drop_last()[i],
                    ) && transition == (DueTransition {
                        device: devices.drop_last()[i].device,
                        phase: phases.drop_last()[i],
                        has_rules: devices.drop_last()[i].schedule.rules@.len() > 0,
                    });
                assert(devices[i] == devices.drop_last()[i]);
            } else {
                assert(devices[last] == devices.last());
            }
        }
        if exists|i: int|
            #![trigger devices[i]]
            0 <= i < devices.len() && is_due(devices[i].schedule@, phases[i]) && transition == (
            DueTransition {
                device: devices[i].device,
                phase: phases[i],
                has_rules: devices[i].schedule.rules@.len() > 0,
            }) {
            let i = choose|i: int|
                #![trigger devices[i]]
                0 <= i < devices.len() && is_due(devices[i].schedule@, phases[i]) && transition == (
                DueTransition {
                    device: devices[i].device,
                    phase: phases[i],
                    has_rules: devices[i].schedule.rules@.len() > 0,
                });
            if i < last {
                assert(devices.drop_last()[i] == devices[i]);
                let k = choose|k: int| 0 <= k < rest.len() && rest[k] == transition;
                assert(all[k] == transition);
            } else {
                assert(all.last() == transition);
            }
        }
    }
}

/// The rules of a station are carried out exactly if they say something else than
/// when they were last carried out, or have to be caught up with; a station without
/// rules is left alone unless its last rules have to be taken back.
pub proof fn law_rules_are_carried_out_when_they_change(
    registry: DndScheduleRegistry,
    phases: Vec<DndSchedulePhase>,
    due: Vec<DueTransition>,
    i: int,
    transition: DueTransition,
)
    requires
        registry.wf(),
        phases@.len() == registry.devices@.len(),
        call_ensures(DndScheduleRegistry::due, (&registry, &phases), due),
        0 <= i < registry.devices@.len(),
        transition.device == registry.devices@[i].device,
    ensures
        ({
            let schedule = registry.devices@[i].schedule;
            due@.contains(transition) <==> {
                &&& transition.phase == phases@[i]
                &&& transition.has_rules <==> schedule.rules@.len() > 0
                &&& schedule.pending_catchup || (schedule.rules@.len() > 0 && schedule.last_phase
                    != Some(phases@[i]))
            }
        }),
{
    let devices = registry.devices@;
    lemma_due(devices, phases@, transition);
    if due@.contains(transition) {
        let k = choose|k: int|
            #![trigger devices[k]]
            0 <= k < devices.len() && is_due(devices[k].schedule@, phases@[k]) && transition == (
            DueTransition {
                device: devices[k].device,
                phase: phases@[k],
                has_rules: devices[k].schedule.rules@.len() > 0,
            });
        lemma_entry(devices, k);
        lemma_entry(devices, i);
    }
    assert(devices[i].device == devices[i].device);
}

/// Rules that were carried out are noted with what they said, and need no catching
/// up; rules that could not be are kept as they were, apart from when that was
/// last reported.
pub proof fn law_only_success_settles_a_phase(
    schedule: ScheduleView,
    due: DueTransition,
    succeeded: bool,
    now: u64,
)
    ensures
        ({
            let after = noted(schedule, due, succeeded, now);
            &&& after.rules == schedule.rules
            &&& after.source == schedule.source
            &&& after.timezone == schedule.timezone
            &&& succeeded && due.has_rules ==> after.last_phase == Some(due.phase)
            &&& succeeded && !due.has_rules ==> after.last_phase is None
            &&& succeeded ==> !after.pending_catchup && after.last_failure_warning is None
            &&& !succeeded ==> after.last_phase == schedule.last_phase && after.pending_catchup
                == schedule.pending_catchup
            &&& !succeeded && schedule.last_failure_warning is None ==> after.last_failure_warning
                == Some(now)
        }),
{
}

/// A change is made to the rules that apply: a rule is added at their end, the one
/// with the given number is taken out and the others stay in order, all are taken
/// out, or the configured ones apply again. Only the last is not an override.
pub proof fn law_changes_do_what_the_operator_asked(
    access: &Access,
    registry: DndScheduleRegistry,
    device: DeviceId,
    mutation: ScheduleMutation,
    limits: DndScheduleLimits,
    plan: PlannedSchedule,
    k: int,
    d: int,
)
    requires
        registry.wf(),
        call_ensures(
            mutate_schedule,
            (access, &registry, &device, mutation, limits),
            Ok::<PlannedSchedule, String>(plan),
        ),
        0 <= k < registry.devices@.len(),
        registry.devices@[k].device@ == device@,
        0 <= d < access.shared.config.devices@.len(),
        access.shared.config.devices@[d].id@ == device@,
        forall|j: int|
            0 <= j < d ==> (#[trigger] access.shared.config.devices@[j]).id@ != device@,
    ensures
        ({
            let before = registry.devices@[k].schedule.rules@;
            &&& plan.source == DndScheduleSource::Configuration <==> mutation is Reset
            &&& plan.timezone == access.shared.config.general.timezone
            &&& mutation matches ScheduleMutation::Add(rule) ==> {
                &&& before.len() < limits.rules
                &&& plan.rules@.len() == before.len() + 1
                &&& plan.rules@.last() == rule
                &&& forall|j: int|
                    0 <= j < before.len() ==> (#[trigger] plan.rules@[j]) == before[j]
            }
            &&& mutation matches ScheduleMutation::Remove(number) ==> {
                &&& 1 <= number <= before.len()
                &&& plan.rules@.len() == before.len() - 1
                &&& forall|j: int|
                    0 <= j < number - 1 ==> (#[trigger] plan.rules@[j]) == before[j]
                &&& forall|j: int|
                    number - 1 <= j < plan.rules@.len() ==> (#[trigger] plan.rules@[j]) == before[j
                        + 1]
            }
            &&& mutation is Clear ==> plan.rules@.len() == 0
            &&& mutation is Reset ==> plan.rules@
                == access.shared.config.devices@[d].dnd_schedules@
        }),
{
    lemma_entry(registry.devices@, k);
    lookup::lemma_first_is(access.shared.config.devices@, config::is_device(device@), d);
}

/// A change of the rules of a configured station is refused only where it would
/// add one too many or take out one that does not exist.
pub proof fn law_possible_changes_are_planned(
    access: &Access,
    registry: DndScheduleRegistry,
    device: DeviceId,
    mutation: ScheduleMutation,
    limits: DndScheduleLimits,
    plan: Result<PlannedSchedule, String>,
    k: int,
    d: int,
)
    requires
        registry.wf(),
        call_ensures(mutate_schedule, (access, &registry, &device, mutation, limits), plan),
        0 <= k < registry.devices@.len(),
        registry.devices@[k].device@ == device@,
        0 <= d < access.shared.config.devices@.len(),
        access.shared.config.devices@[d].id@ == device@,
        forall|j: int|
            0 <= j < d ==> (#[trigger] access.shared.config.devices@[j]).id@ != device@,
    ensures
        plan is Err <==> {
            ||| mutation is Add && registry.devices@[k].schedule.rules@.len() >= limits.rules
            ||| mutation matches ScheduleMutation::Remove(number) && (number == 0 || number
                > registry.devices@[k].schedule.rules@.len())
        },
{
    lemma_entry(registry.devices@, k);
    lookup::lemma_first_is(access.shared.config.devices@, config::is_device(device@), d);
}

/// A reload gives a station whose rules come from the configuration the newly
/// configured ones; where they are written as before they go on, and where the
/// last was taken away that is carried out.
pub proof fn law_reloads_take_the_configured_rules(
    candidate: ScheduleView,
    configured: ScheduleView,
    live: ScheduleView,
)
    requires
        live.source == DndScheduleSource::Configuration,
    ensures
        ({
            let after = preserved(reowned(candidate, Some(configured), Some(live)), Some(live));
            &&& after.rules == configured.rules
            &&& after.source == configured.source
            &&& after.timezone == configured.timezone
            &&& live.rules == configured.rules && live.timezone == configured.timezone
                ==> after.last_phase == live.last_phase && after.pending_catchup
                == live.pending_catchup
            &&& live.rules.len() > 0 && configured.rules.len() == 0 ==> after.pending_catchup
        }),
{
}

/// The words of a command for a configured station ask for what they say: to show
/// the rules, to clear them, to reset them, to take out the one with a number or to
/// read one to add; and nothing else does.
pub proof fn law_schedule_commands_mean_what_they_say(
    access: &Access,
    arguments: Vec<String>,
    limits: DndScheduleLimits,
    device: DeviceId,
    cli: ScheduleCli,
)
    requires
        call_ensures(
            execute_dnd_schedule_cli,
            (access, &arguments, true, limits),
            (ScheduleRequest::Accepted { device, cli }),
        ),
    ensures
        device@ == arguments@[0]@,
        cli is Show ==> arguments@.len() == 2 && text::same_letters(arguments@[1]@, "show"@),
        cli == ScheduleCli::Mutate(ScheduleMutation::Clear) ==> arguments@.len() == 2
            && text::same_letters(arguments@[1]@, "clear"@),
        cli == ScheduleCli::Mutate(ScheduleMutation::Reset) ==> arguments@.len() == 2
            && text::same_letters(arguments@[1]@, "reset"@),
        cli matches ScheduleCli::Mutate(ScheduleMutation::Remove(number)) ==> arguments@.len() == 3
            && text::same_letters(arguments@[1]@, "remove"@) && text::number_value(
            arguments@[2]@,
        ) == Some(number as nat),
        cli is Parse ==> arguments@.len() == 5 && text::same_letters(arguments@[1]@, "add"@),
        cli matches ScheduleCli::Mutate(change) ==> !(change is Add),
{
}

/// What is found for a station is what the registry has for it.
pub proof fn law_schedules_are_found_by_station(
    registry: DndScheduleRegistry,
    device: DeviceId,
    found: Option<&DeviceDndSchedule>,
    i: int,
)
    requires
        call_ensures(DndScheduleRegistry::get, (&registry, &device), found),
        0 <= i <= registry.devices@.len(),
        forall|j: int| 0 <= j < i ==> (#[trigger] registry.devices@[j]).device@ != device@,
        i < registry.devices@.len() ==> registry.devices@[i].device@ == device@,
    ensures
        found is Some <==> i < registry.devices@.len(),
        found matches Some(schedule) ==> {
            let entry = registry.devices@[i].schedule;
            &&& schedule.rules@ == entry.rules@
            &&& schedule.source == entry.source
            &&& schedule.timezone == entry.timezone
            &&& schedule.last_phase == entry.last_phase
            &&& schedule.pending_catchup == entry.pending_catchup
            &&& schedule.last_failure_warning == entry.last_failure_warning
        },
{
    if i == registry.devices@.len() {
        lookup::lemma_first_none(registry.devices@, schedules(device@));
    } else {
        lookup::lemma_first_is(registry.devices@, schedules(device@), i);
    }
}

/// Putting a schedule in gives the station that schedule and hands back the one it
/// had; taking it out leaves the station without one. Every other station keeps
/// what it had, and the installing of a change does no more.
pub proof fn law_schedules_change_for_one_station(
    putting: &mut DndScheduleRegistry,
    taking: &mut DndScheduleRegistry,
    installing: &mut DndScheduleRegistry,
    device: DeviceId,
    schedule: DeviceDndSchedule,
    previous: Option<DeviceDndSchedule>,
    replaced: Option<DeviceDndSchedule>,
    i: int,
    k: int,
)
    requires
        old(putting).wf(),
        *old(taking) == *old(putting),
        *old(installing) == *old(putting),
        call_ensures(DndScheduleRegistry::put, (putting, device, schedule), previous),
        call_ensures(DndScheduleRegistry::remove, (taking, &device), ()),
        call_ensures(install_mutation, (installing, &device, schedule), replaced),
        0 <= i < old(putting).devices@.len(),
    ensures
        old(putting).devices@[i].device@ == device@ ==> (previous matches Some(had) && had@
            == old(putting).devices@[i].schedule@) && (replaced matches Some(had) && had@
            == old(putting).devices@[i].schedule@),
        0 <= k < final(putting).devices@.len() ==> {
            let entry = final(putting).devices@[k];
            &&& entry.device@ == device@ ==> entry.schedule@ == schedule@
            &&& entry.device@ == old(putting).devices@[i].device@ && entry.device@ != device@
                ==> entry.schedule@ == old(putting).devices@[i].schedule@
        },
        0 <= k < final(installing).devices@.len() ==> {
            let entry = final(installing).devices@[k];
            &&& entry.device@ == device@ ==> entry.schedule@ == schedule@
            &&& entry.device@ == old(putting).devices@[i].device@ && entry.device@ != device@
                ==> entry.schedule@ == old(putting).devices@[i].schedule@
        },
        0 <= k < final(taking).devices@.len() ==> {
            let entry = final(taking).devices@[k];
            &&& entry.device@ != device@
            &&& entry.device@ == old(putting).devices@[i].device@ ==> entry.schedule@
                == old(putting).devices@[i].schedule@
        },
        exists|n: int|
            0 <= n < final(putting).devices@.len() && (
            #[trigger] final(putting).devices@[n]).device@ == device@,
{
    let before = *old(putting);
    lemma_entry(before.devices@, i);
    let name = before.devices@[i].device@;
    assert(before.schedule_spec(name) == Some(before.devices@[i].schedule@));
    let put = *final(putting);
    let installed = *final(installing);
    let taken = *final(taking);
    assert(put.schedule_spec(name) == if name == device@ {
        Some(schedule@)
    } else {
        before.schedule_spec(name)
    });
    assert(installed.schedule_spec(name) == if name == device@ {
        Some(schedule@)
    } else {
        before.schedule_spec(name)
    });
    assert(taken.schedule_spec(name) == if name == device@ {
        None
    } else {
        before.schedule_spec(name)
    });
    assert(put.schedule_spec(device@) == Some(schedule@));
    assert(installed.schedule_spec(device@) == Some(schedule@));
    assert(taken.schedule_spec(device@) is None);
    if 0 <= k < put.devices@.len() {
        lemma_entry(put.devices@, k);
    }
    if 0 <= k < installed.devices@.len() {
        lemma_entry(installed.devices@, k);
    }
    if 0 <= k < taken.devices@.len() {
        lemma_entry(taken.devices@, k);
    }
    lookup::lemma_first_at(put.devices@, schedules(device@), 0);
    let n = lookup::first_at(put.devices@, schedules(device@), 0)->0;
    assert(schedules(device@)(put.devices@[n]));
}

/// When a phase was carried out it is the one the station is in, and nothing is
/// left to catch up with. A failure changes nothing but the time of its warning,
/// and is warned of at most once in the interval. No other station is touched.
pub proof fn law_finished_phases_are_noted(
    registry: &mut DndScheduleRegistry,
    due: DueTransition,
    succeeded: bool,
    now: u64,
    warn: bool,
    i: int,
    k: int,
)
    requires
        old(registry).wf(),
        call_ensures(
            DndScheduleRegistry::finish_transition,
            (registry, &due, succeeded, now),
            warn,
        ),
        0 <= i < old(registry).devices@.len(),
    ensures
        0 <= k < final(registry).devices@.len() && final(registry).devices@[k].device@ == old(
            registry,
        ).devices@[i].device@ ==> {
            let had = old(registry).devices@[i].schedule;
            let kept = final(registry).devices@[k].schedule;
            &&& kept.rules@ == had.rules@ && kept.source == had.source && kept.timezone
                == had.timezone
            &&& old(registry).devices@[i].device@ != due.device@ ==> kept@ == had@
            &&& old(registry).devices@[i].device@ == due.device@ ==> {
                &&& warn <==> !succeeded && (had.last_failure_warning matches Some(previous) ==> now
                    - previous >= FAILURE_WARNING_INTERVAL_SECONDS)
                &&& succeeded ==> !kept.pending_catchup && kept.last_failure_warning is None
                &&& succeeded && due.has_rules ==> kept.last_phase == Some(due.phase)
                &&& succeeded && !due.has_rules ==> kept.last_phase is None
                &&& !succeeded ==> kept.last_phase == had.last_phase && kept.pending_catchup
                    == had.pending_catchup
                &&& warn ==> kept.last_failure_warning == Some(now)
                &&& !succeeded && !warn ==> kept@ == had@
            }
        },
{
    let before = *old(registry);
    let after = *final(registry);
    lemma_entry(before.devices@, i);
    let name = before.devices@[i].device@;
    assert(before.schedule_spec(name) == Some(before.devices@[i].schedule@));
    let kept = after.schedule_spec(name);
    assert(kept is Some);
    if 0 <= k < after.devices@.len() {
        lemma_entry(after.devices@, k);
        let found = after.devices@[k].schedule@;
        if after.devices@[k].device@ == name {
            assert(kept == Some(found));
        }
    }
}

/// A change whose phase could not be carried out is undone: the station has again
/// what it had before. One that was carried out stays, and the station is in the
/// phase that it was put into.
pub proof fn law_failed_changes_are_undone(
    registry: &mut DndScheduleRegistry,
    device: DeviceId,
    previous: Option<DeviceDndSchedule>,
    entered: DndSchedulePhase,
    reset: bool,
    transition: Result<(), RuntimeDndMutationError>,
    restored: Result<(), String>,
    text: String,
    i: int,
    k: int,
)
    requires
        old(registry).wf(),
        call_ensures(
            finish_mutation,
            (registry, &device, previous, entered, reset, transition, restored),
            text,
        ),
        0 <= i < old(registry).devices@.len(),
        old(registry).schedule_spec(device@) is Some,
    ensures
        0 <= k < final(registry).devices@.len() ==> {
            let had = old(registry).devices@[i];
            let kept = final(registry).devices@[k];
            &&& had.device@ == kept.device@ && kept.device@ != device@ ==> kept.schedule@
                == had.schedule@
            &&& kept.device@ == device@ && transition is Err ==> (previous matches Some(earlier)
                && kept.schedule@ == earlier@)
            &&& had.device@ == device@ && kept.device@ == device@ && transition is Ok ==> {
                &&& kept.schedule.rules@ == had.schedule.rules@
                &&& kept.schedule.source == had.schedule.source
                &&& !kept.schedule.pending_catchup
                &&& had.schedule.rules@.len() > 0 ==> kept.schedule.last_phase == Some(entered)
                &&& had.schedule.rules@.len() == 0 ==> kept.schedule.last_phase is None
            }
        },
{
    let before = *old(registry);
    let after = *final(registry);
    lemma_entry(before.devices@, i);
    let name = before.devices@[i].device@;
    assert(before.schedule_spec(name) == Some(before.devices@[i].schedule@));
    if 0 <= k < after.devices@.len() {
        lemma_entry(after.devices@, k);
        let other = after.devices@[k].device@;
        assert(after.schedule_spec(other) == Some(after.devices@[k].schedule@));
    }
}

/// Rules that did not change go on where they were; those that were all taken away
/// are still to be caught up with; new ones begin afresh.
pub proof fn law_reloads_keep_the_phase_of_unchanged_rules(
    registry: &mut DndScheduleRegistry,
    previous: DndScheduleRegistry,
    i: int,
    p: int,
)
    requires
        old(registry).wf(),
        call_ensures(DndScheduleRegistry::preserve_unchanged_phases, (registry, &previous), ()),
        0 <= i < old(registry).devices@.len(),
        0 <= p <= previous.devices@.len(),
        forall|j: int|
            0 <= j < p ==> (#[trigger] previous.devices@[j]).device@ != old(
                registry,
            ).devices@[i].device@,
        p < previous.devices@.len() ==> previous.devices@[p].device@ == old(
            registry,
        ).devices@[i].device@,
    ensures
        final(registry).devices@.len() == old(registry).devices@.len(),
        final(registry).devices@[i].device@ == old(registry).devices@[i].device@,
        ({
            let fresh = old(registry).devices@[i].schedule;
            let kept = final(registry).devices@[i].schedule;
            let had = previous.devices@[p].schedule;
            let unchanged = fresh.timezone == had.timezone && fresh.rules@.len()
                == had.rules@.len() && forall|r: int|
                0 <= r < had.rules@.len() ==> (#[trigger] had.rules@[r]).mode
                    == fresh.rules@[r].mode && had.rules@[r].text@ == fresh.rules@[r].text@;
            &&& kept.rules@ == fresh.rules@ && kept.source == fresh.source && kept.timezone
                == fresh.timezone
            &&& p == previous.devices@.len() ==> kept@ == fresh@
            &&& p < previous.devices@.len() && unchanged ==> kept.last_phase == had.last_phase
                && kept.pending_catchup == had.pending_catchup && kept.last_failure_warning
                == had.last_failure_warning
            &&& p < previous.devices@.len() && !unchanged ==> kept.last_phase == fresh.last_phase
                && kept.last_failure_warning == fresh.last_failure_warning
            &&& p < previous.devices@.len() && !unchanged && fresh.rules@.len() == 0
                ==> kept.pending_catchup
            &&& p < previous.devices@.len() && !unchanged && fresh.rules@.len() > 0
                ==> kept.pending_catchup == fresh.pending_catchup
        }),
{
    let name = old(registry).devices@[i].device@;
    if p == previous.devices@.len() {
        lookup::lemma_first_none(previous.devices@, schedules(name));
    } else {
        lookup::lemma_first_is(previous.devices@, schedules(name), p);
    }
    let kept = final(registry).devices@[i].schedule;
    assert(kept@ == preserved(old(registry).devices@[i].schedule@, previous.schedule_spec(name)));
}

/// A reload takes what is configured for the stations that have no override in
/// force, and leaves the rules of those that have one.
pub proof fn law_overrides_in_force_stay(
    registry: &mut DndScheduleRegistry,
    configured: DndScheduleRegistry,
    live: DndScheduleRegistry,
    i: int,
    c: int,
    l: int,
)
    requires
        old(registry).wf(),
        call_ensures(
            DndScheduleRegistry::reconcile_live_ownership,
            (registry, &configured, &live),
            (),
        ),
        0 <= i < old(registry).devices@.len(),
        0 <= c < configured.devices@.len(),
        configured.devices@[c].device@ == old(registry).devices@[i].device@,
        forall|j: int|
            0 <= j < c ==> (#[trigger] configured.devices@[j]).device@ != old(
                registry,
            ).devices@[i].device@,
        0 <= l <= live.devices@.len(),
        forall|j: int|
            0 <= j < l ==> (#[trigger] live.devices@[j]).device@ != old(
                registry,
            ).devices@[i].device@,
        l < live.devices@.len() ==> live.devices@[l].device@ == old(registry).devices@[i].device@,
    ensures
        final(registry).devices@[i].device@ == old(registry).devices@[i].device@,
        ({
            let kept = final(registry).devices@[i].schedule;
            let candidate = old(registry).devices@[i].schedule;
            let current = live.devices@[l].schedule;
            &&& l == live.devices@.len() ==> kept@ == candidate@
            &&& l < live.devices@.len() && current.source == DndScheduleSource::Override
                ==> kept.rules@ == current.rules@ && kept.source == DndScheduleSource::Override
                && kept.timezone == candidate.timezone
            &&& l < live.devices@.len() && current.source == DndScheduleSource::Configuration
                ==> kept.rules@ == configured.devices@[c].schedule.rules@ && kept.source
                == configured.devices@[c].schedule.source && kept.timezone
                == configured.devices@[c].schedule.timezone
        }),
{
    let name = old(registry).devices@[i].device@;
    lookup::lemma_first_is(configured.devices@, schedules(name), c);
    if l == live.devices@.len() {
        lookup::lemma_first_none(live.devices@, schedules(name));
    } else {
        lookup::lemma_first_is(live.devices@, schedules(name), l);
    }
    let kept = final(registry).devices@[i].schedule;
    assert(kept@ == preserved(
        reowned(
            old(registry).devices@[i].schedule@,
            configured.schedule_spec(name),
            live.schedule_spec(name),
        ),
        live.schedule_spec(name),
    ));
}

/// Rules are taken exactly if they are valid and every segment of time can be used;
/// the reason of a refusal is the first there is. Rules that were taken begin in no
/// phase, to be caught up with where there are any.
pub proof fn law_usable_rules_are_taken(
    source: DndScheduleSource,
    rules: Vec<DndSchedule>,
    checks: RuleChecks,
    timezone: Option<TimeZone>,
    schedule: Result<DeviceDndSchedule, DeviceDndScheduleError>,
    i: int,
)
    requires
        call_ensures(DeviceDndSchedule::compile, (source, rules, &checks, timezone), schedule),
        0 <= i <= checks.segments@.len(),
        forall|j: int|
            0 <= j < i ==> (#[trigger] checks.segments@[j]).refused is None
                && checks.segments@[j].segment.end_minute_exclusive != 0,
        i < checks.segments@.len() ==> checks.segments@[i].refused is Some
            || checks.segments@[i].segment.end_minute_exclusive == 0,
    ensures
        schedule is Ok <==> checks.invalid is None && i == checks.segments@.len(),
        checks.invalid matches Some(reason) ==> schedule == Err::<
            DeviceDndSchedule,
            DeviceDndScheduleError,
        >(DeviceDndScheduleError::Validation(reason)),
        checks.invalid is None && i < checks.segments@.len() ==> (schedule matches Err(error) && (
        error is EmptySegment <==> checks.segments@[i].segment.end_minute_exclusive == 0) && (
        error matches DeviceDndScheduleError::Timing(reason) ==> checks.segments@[i].refused
            == Some(reason)) && !(error is Validation)),
        schedule matches Ok(taken) ==> {
            &&& taken.source == source
            &&& taken.rules@ == rules@
            &&& taken.timezone == timezone
            &&& taken.last_phase is None
            &&& taken.last_failure_warning is None
            &&& taken.pending_catchup <==> rules@.len() > 0
        },
{
    if i == checks.segments@.len() {
        lookup::lemma_first_none(checks.segments@, is_refused());
    } else {
        lookup::lemma_first_is(checks.segments@, is_refused(), i);
    }
}

/// A minute of the day is written as hours and minutes, of two digits each.
pub proof fn law_minutes_are_written_as_hours_and_minutes(minute: u16, text: String)
    requires
        call_ensures(format_minute, (minute,), text),
        minute < 1440,
    ensures
        text@.len() == 5,
        text@[2] == ':',
        text@[0] == text::digit((minute / 600) as nat),
        text@[1] == text::digit((minute / 60 % 10) as nat),
        text@[3] == text::digit((minute % 60 / 10) as nat),
        text@[4] == text::digit((minute % 10) as nat),
{
    reveal_strlit("0");
    reveal_strlit(":");
    reveal_with_fuel(text::decimal, 3);
    let hours = (minute / 60) as nat;
    let rest = (minute % 60) as nat;
    assert(hours / 10 == (minute / 600) as nat);
    assert(rest % 10 == (minute % 10) as nat);
    assert(two_digits(hours).len() == 2);
    assert(two_digits(rest).len() == 2);
}

/// A segment is written as the times of its first and last minute and its days; one
/// that ends before it begins has no last minute.
pub proof fn law_segments_are_written_to_their_last_minute(
    segment: DndScheduleSegment,
    written: Result<String, DeviceDndScheduleError>,
    begins: String,
    ends: String,
)
    requires
        call_ensures(asterisk_timing_spec, (&segment,), written),
        call_ensures(format_minute, (segment.start_minute,), begins),
        segment.end_minute_exclusive > 0 ==> call_ensures(
            format_minute,
            ((segment.end_minute_exclusive - 1) as u16,),
            ends,
        ),
    ensures
        written is Ok <==> segment.end_minute_exclusive > 0,
        written matches Err(error) ==> error is EmptySegment,
        written matches Ok(text) ==> text@ == begins@ + "-"@ + ends@ + ","@ + segment.weekdays@
            + ",*,*"@,
{
}

/// A rule holds as its own time zone says; without one it holds while any of its
/// timings does.
pub proof fn law_rules_hold_while_a_timing_does(
    zoned: Option<bool>,
    timings: Vec<bool>,
    holds: bool,
    i: int,
)
    requires
        call_ensures(rule_matches, (zoned, &timings), holds),
        0 <= i < timings@.len(),
    ensures
        zoned matches Some(said) ==> holds == said,
        zoned is None && timings@[i] ==> holds,
        zoned is None && holds ==> exists|j: int| 0 <= j < timings@.len() && #[trigger] timings@[j],
{
}

/// The words for phases and modes tell them apart.
pub proof fn law_words_tell_modes_apart(
    source: DndScheduleSource,
    phase: DndSchedulePhase,
    mode: DndMode,
    from: &'static str,
    stage: &'static str,
    word: &'static str,
)
    requires
        call_ensures(DndScheduleSource::name, (source,), from),
        call_ensures(DndSchedulePhase::name, (phase,), stage),
        call_ensures(runtime_dnd_mode_name, (mode,), word),
    ensures
        from@ == "override"@ <==> source == DndScheduleSource::Override,
        from@ == "config"@ <==> source == DndScheduleSource::Configuration,
        stage@ == "inactive"@ <==> phase == DndSchedulePhase::Inactive,
        stage@ == "active (silent)"@ <==> phase == DndSchedulePhase::Silent,
        stage@ == "active (reject)"@ <==> phase == DndSchedulePhase::Reject,
        word@ == "off"@ <==> mode == DndMode::Off,
        word@ == "silent"@ <==> mode == DndMode::Silent,
        word@ == "reject"@ <==> mode == DndMode::Reject,
{
    reveal_strlit("override");
    reveal_strlit("config");
    reveal_strlit("inactive");
    reveal_strlit("active (silent)");
    reveal_strlit("active (reject)");
    reveal_strlit("off");
    reveal_strlit("silent");
    reveal_strlit("reject");
    assert("override"@.len() == 8 && "config"@.len() == 6);
    assert("inactive"@.len() == 8 && "active (silent)"@.len() == 15);
    assert("active (reject)"@.len() == 15);
    assert("off"@.len() == 3 && "silent"@.len() == 6 && "reject"@.len() == 6);
    assert("active (silent)"@[8] != "active (reject)"@[8]);
    assert("silent"@[0] != "reject"@[0]);
}

/// A tick begins work exactly if none is under way, so that a second one does not.
pub proof fn law_ticks_do_not_overlap(first: &mut bool, second: &mut bool, begun: bool, again: bool)
    requires
        call_ensures(run_dnd_schedule_tick, (first,), begun),
        call_ensures(run_dnd_schedule_tick, (second,), again),
        *old(second),
    ensures
        begun <==> !*old(first),
        *final(first),
        !again,
{
}

/// Both registries are staged exactly if both could be made; otherwise the first
/// failure is told.
pub proof fn law_registries_are_staged_together(
    candidate: Result<DndScheduleRegistry, DndScheduleRegistryError>,
    configured: Result<DndScheduleRegistry, DndScheduleRegistryError>,
    staged: Result<(DndScheduleRegistry, DndScheduleRegistry), String>,
    parsed: Result<DndSchedule, String>,
    cli: ScheduleCli,
)
    requires
        call_ensures(stage, (candidate, configured), staged),
        call_ensures(add_parsed_rule, (parsed,), cli),
    ensures
        staged is Ok <==> candidate is Ok && configured is Ok,
        staged matches Ok(both) ==> candidate == Ok::<
            DndScheduleRegistry,
            DndScheduleRegistryError,
        >(both.0) && configured == Ok::<DndScheduleRegistry, DndScheduleRegistryError>(both.1),
        cli is Mutate <==> parsed is Ok,
        parsed matches Ok(rule) ==> cli == ScheduleCli::Mutate(ScheduleMutation::Add(rule)),
{
}

} // verus!
