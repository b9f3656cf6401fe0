//! What other parts of the switch see of a line, and what the stations watch.

use vstd::prelude::*;

use crate::access::{self, Access, Shared};
use crate::config::{self, BlfTarget, ButtonDefinition};
use crate::controller;
use crate::ids::{DeviceId, SessionGeneration};
use crate::lookup;
use crate::model::{CallState, DndMode, LineBinding, LineConfig, MobilityAppearance, PbxCall};
use crate::presence_owner::{publish_line, PresenceCommand};
use crate::text::{self, insert_text, same_text};

verus! {

/// The state of a line.
#[derive(Clone, Copy, Debug, PartialEq, Eq, Structural)]
pub enum DeviceState {
    Removed,
    Unavailable,
    NotInUse,
    InUse,
    Busy,
    Ringing,
    RingInUse,
    OnHold,
}

/// Calls that wait for an answer.
pub open spec fn is_ringing() -> spec_fn(CallState) -> bool {
    |state: CallState| state == CallState::Ringing
}

/// Calls that are put aside.
pub open spec fn is_on_hold() -> spec_fn(CallState) -> bool {
    |state: CallState| state == CallState::Held || state == CallState::SharedHeld
}

/// Calls that occupy a line: all that are neither ringing, nor held, nor over.
pub open spec fn is_active() -> spec_fn(CallState) -> bool {
    |state: CallState|
        state != CallState::Ringing && state != CallState::Held && state != CallState::SharedHeld
            && state != CallState::Ended
}

/// The mode turns calls away.
pub open spec fn rejects() -> spec_fn(DndMode) -> bool {
    |mode: DndMode| mode == DndMode::Reject
}

/// The state of a line with the modes of its registered stations and the states
/// of its calls.
pub open spec fn aggregate_spec(
    has_appearance: bool,
    registered_dnd: Seq<DndMode>,
    states: Seq<CallState>,
) -> DeviceState {
    let ringing = lookup::some(states, is_ringing());
    let on_hold = lookup::some(states, is_on_hold());
    let in_use = lookup::some(states, is_active());
    if !has_appearance {
        DeviceState::Removed
    } else if registered_dnd.len() == 0 {
        DeviceState::Unavailable
    } else if ringing && (in_use || on_hold) {
        DeviceState::RingInUse
    } else if ringing {
        DeviceState::Ringing
    } else if in_use {
        DeviceState::InUse
    } else if on_hold {
        DeviceState::OnHold
    } else if lookup::all(registered_dnd, rejects()) {
        DeviceState::Busy
    } else {
        DeviceState::NotInUse
    }
}

/// Puts together the state of a line.
pub fn aggregate_device_state(
    has_appearance: bool,
    registered_dnd: &[DndMode],
    states: &[CallState],
) -> (state: DeviceState)
    ensures
        state == aggregate_spec(has_appearance, registered_dnd@, states@),
{
    if !has_appearance {
        return DeviceState::Removed;
    }
    if registered_dnd.len() == 0 {
        return DeviceState::Unavailable;
    }
    let mut ringing = false;
    let mut on_hold = false;
    let mut in_use = false;
    let mut i: usize = 0;
    while i < states.len()
        invariant
            0 <= i <= states@.len(),
            ringing == exists|j: int| 0 <= j < i && is_ringing()(#[trigger] states@[j]),
            on_hold == exists|j: int| 0 <= j < i && is_on_hold()(#[trigger] states@[j]),
            in_use == exists|j: int| 0 <= j < i && is_active()(#[trigger] states@[j]),
        decreases states@.len() - i,
    {
        let ghost state = states@[i as int];
        match states[i] {
            CallState::Ringing => {
                ringing = true;
                assert(is_ringing()(states@[i as int]));
            },
            CallState::Held | CallState::SharedHeld => {
                on_hold = true;
                assert(is_on_hold()(states@[i as int]));
            },
            CallState::Ended => {},
            CallState::Collecting
            | CallState::PickupCollecting
            | CallState::Calling
            | CallState::Connected
            | CallState::Parking
            | CallState::Retrieving
            | CallState::RemoteInUse
            | CallState::Barged
            | CallState::TransferCollecting => {
                in_use = true;
                assert(is_active()(states@[i as int]));
            },
        }
        i += 1;
    }
    let mut rejecting = true;
    let mut k: usize = 0;
    while k < registered_dnd.len()
        invariant
            0 <= k <= registered_dnd@.len(),
            rejecting == forall|j: int| 0 <= j < k ==> rejects()(#[trigger] registered_dnd@[j]),
        decreases registered_dnd@.len() - k,
    {
        if registered_dnd[k] != DndMode::Reject {
            rejecting = false;
            assert(!rejects()(registered_dnd@[k as int]));
        }
        k += 1;
    }
    if ringing && (in_use || on_hold) {
        DeviceState::RingInUse
    } else if ringing {
        DeviceState::Ringing
    } else if in_use {
        DeviceState::InUse
    } else if on_hold {
        DeviceState::OnHold
    } else if rejecting {
        DeviceState::Busy
    } else {
        DeviceState::NotInUse
    }
}

/// The mode of a station that shows a line, where the station is registered.
pub open spec fn registered_dnd_of(shared: Shared) -> spec_fn(LineBinding) -> Option<DndMode> {
    |binding: LineBinding|
        if shared.controller.registered_spec(binding.device_id@) {
            Some(dnd_spec(shared, binding.device_id@))
        } else {
            None
        }
}

/// The mode of a station; off where none is known.
pub open spec fn dnd_spec(shared: Shared, device: Seq<char>) -> DndMode {
    match lookup::first(shared.controller.features@, controller::features_of(device)) {
        Some(features) => features.state.dnd,
        None => DndMode::Off,
    }
}

/// The state of a call on this line.
pub open spec fn state_on_line(line: Seq<char>) -> spec_fn(PbxCall) -> Option<CallState> {
    |call: PbxCall|
        if call.line@ == line {
            Some(call.state)
        } else {
            None
        }
}

pub open spec fn device_state_spec(shared: Shared, line: Seq<char>) -> DeviceState {
    let appearances = access::line_appearances_spec(shared, line);
    aggregate_spec(
        appearances.len() > 0,
        appearances.filter_map(registered_dnd_of(shared)),
        shared.controller.calls@.filter_map(state_on_line(line)),
    )
}

/// The state of `line` as it is now.
pub fn device_state(access: &Access, line: &str) -> (state: DeviceState)
    ensures
        state == device_state_spec(access.shared, line@),
{
    let appearances = access.appearances_of_line(line);
    let ghost shown = access::line_appearances_spec(access.shared, line@);
    let ghost mode_of = registered_dnd_of(access.shared);
    let mut registered_dnd: Vec<DndMode> = Vec::new();
    proof {
        assert(shown.take(0).filter_map(mode_of) =~= Seq::<DndMode>::empty()) by {
            reveal(Seq::filter_map);
        }
        assert(shown.len() == appearances@.len());
    }
    let mut i: usize = 0;
    while i < appearances.len()
        invariant
            mode_of == registered_dnd_of(access.shared),
            shown == access::line_appearances_spec(access.shared, line@),
            shown == appearances@.map_values(|b: &LineBinding| *b),
            0 <= i <= appearances@.len(),
            registered_dnd@ == shown.take(i as int).filter_map(mode_of),
        decreases appearances@.len() - i,
    {
        let device = &appearances[i].device_id;
        proof {
            lookup::lemma_filter_map_step(shown, mode_of, i as int);
            assert(shown[i as int] == *appearances@[i as int]);
        }
        if access.shared.controller.is_registered(device) {
            let mode = match access.shared.controller.feature_state(device) {
                Some(features) => features.dnd,
                None => DndMode::Off,
            };
            registered_dnd.push(mode);
        }
        i += 1;
    }
    proof {
        assert(shown.take(i as int) =~= shown);
    }
    let calls = &access.shared.controller.calls;
    let ghost state_of = state_on_line(line@);
    let mut states: Vec<CallState> = Vec::new();
    proof {
        assert(calls@.take(0).filter_map(state_of) =~= Seq::<CallState>::empty()) by {
            reveal(Seq::filter_map);
        }
    }
    let mut j: usize = 0;
    while j < calls.len()
        invariant
            state_of == state_on_line(line@),
            0 <= j <= calls@.len(),
            states@ == calls@.take(j as int).filter_map(state_of),
        decreases calls@.len() - j,
    {
        proof {
            lookup::lemma_filter_map_step(calls@, state_of, j as int);
        }
        if same_text(calls[j].line.as_str(), line) {
            states.push(calls[j].state);
        }
        j += 1;
    }
    proof {
        assert(calls@.take(j as int) =~= calls@);
    }
    aggregate_device_state(
        appearances.len() > 0,
        registered_dnd.as_slice(),
        states.as_slice(),
    )
}

/// The texts of a list.
pub open spec fn texts(lines: Seq<String>) -> Seq<Seq<char>> {
    lines.map_values(|line: String| line@)
}

/// The roaming appearance stands on a station and shows a line.
pub open spec fn roams_with(device: Seq<char>, line: Seq<char>) -> spec_fn(
    MobilityAppearance,
) -> bool {
    |roaming: MobilityAppearance|
        roaming.device_id@ == device && roaming.binding.line.number@ == line
}

/// The line is on a button of the station or roams there.
pub open spec fn shows_line_spec(shared: Shared, device: Seq<char>, line: Seq<char>) -> bool {
    ||| lookup::first(shared.config.devices@, config::is_device(device)) matches Some(found)
        && text::lists(found.lines@, line)
    ||| lookup::some(shared.controller.mobility@, roams_with(device, line))
}

/// The line that a command publishes.
pub open spec fn published_line(command: PresenceCommand) -> Seq<char> {
    match command {
        PresenceCommand::PublishLine { line, .. } => line@,
        _ => Seq::empty(),
    }
}

/// The commands publish the present state of every line that a station shows:
/// each line once, in the order of a dictionary, and no other.
pub open spec fn device_lines_published(
    shared: Shared,
    device: Seq<char>,
    commands: Seq<PresenceCommand>,
) -> bool {
    &&& forall|i: int|
        0 <= i < commands.len() ==> {
            &&& (#[trigger] commands[i]) matches PresenceCommand::PublishLine { line, state }
                && state == device_state_spec(shared, line@)
            &&& shows_line_spec(shared, device, published_line(commands[i]))
        }
    &&& forall|i: int, j: int|
        0 <= i < j < commands.len() ==> text::text_less(
            published_line(#[trigger] commands[i]),
            published_line(#[trigger] commands[j]),
        )
    &&& forall|line: Seq<char>| #[trigger]
        shows_line_spec(shared, device, line) ==> exists|i: int|
            0 <= i < commands.len() && published_line(#[trigger] commands[i]) == line
}

fn device_lines(access: &Access, device: &DeviceId) -> (lines: Vec<String>)
    ensures
        text::texts_ascend(lines@),
        forall|line: Seq<char>| #[trigger]
            text::lists(lines@, line) <==> shows_line_spec(access.shared, device@, line),
{
    let mut lines: Vec<String> = Vec::new();
    match access.shared.config.device(device) {
        Some(found) => {
            let mut i: usize = 0;
            while i < found.lines.len()
                invariant
                    0 <= i <= found.lines@.len(),
                    text::texts_ascend(lines@),
                    forall|line: Seq<char>| #[trigger]
                        text::lists(lines@, line) <==> text::lists(
                            found.lines@.take(i as int),
                            line,
                        ),
                decreases found.lines@.len() - i,
            {
                insert_text(&mut lines, found.lines[i].as_str());
                proof {
                    lemma_lists_step(found.lines@, i as int);
                }
                i += 1;
            }
            proof {
                assert(found.lines@.take(i as int) =~= found.lines@);
            }
        },
        None => {},
    }
    let ghost configured = lines@;
    let roaming = &access.shared.controller.mobility;
    let mut k: usize = 0;
    while k < roaming.len()
        invariant
            0 <= k <= roaming@.len(),
            text::texts_ascend(lines@),
            forall|line: Seq<char>| #[trigger]
                text::lists(lines@, line) <==> text::lists(configured, line) || lookup::some(
                    roaming@.take(k as int),
                    roams_with(device@, line),
                ),
        decreases roaming@.len() - k,
    {
        proof {
            assert forall|line: Seq<char>| #[trigger]
                lookup::some(roaming@.take(k + 1), roams_with(device@, line)) == (lookup::some(
                    roaming@.take(k as int),
                    roams_with(device@, line),
                ) || roams_with(device@, line)(roaming@[k as int])) by {
                lemma_some_step(roaming@, roams_with(device@, line), k as int);
            }
        }
        if roaming[k].device_id.same(device) {
            insert_text(&mut lines, roaming[k].binding.line.number.as_str());
        }
        k += 1;
    }
    proof {
        assert(roaming@.take(k as int) =~= roaming@);
    }
    lines
}

proof fn lemma_lists_step(lines: Seq<String>, i: int)
    requires
        0 <= i < lines.len(),
    ensures
        forall|line: Seq<char>| #[trigger]
            text::lists(lines.take(i + 1), line) <==> text::lists(lines.take(i), line) || line
                == lines[i]@,
{
    assert forall|line: Seq<char>| #[trigger]
        text::lists(lines.take(i + 1), line) == (text::lists(lines.take(i), line) || line
            == lines[i]@) by {
        if text::lists(lines.take(i), line) {
            let k = choose|k: int| 0 <= k < i && (#[trigger] lines.take(i)[k])@ == line;
            assert(lines.take(i + 1)[k]@ == line);
        }
        if line == lines[i]@ {
            assert(lines.take(i + 1)[i]@ == line);
        }
        if text::lists(lines.take(i + 1), line) && line != lines[i]@ {
            let k = choose|k: int|
                0 <= k < lines.take(i + 1).len() && (#[trigger] lines.take(i + 1)[k])@ == line;
            assert(lines.take(i)[k]@ == line);
        }
    }
}

proof fn lemma_some_step<T>(s: Seq<T>, p: spec_fn(T) -> bool, i: int)
    requires
        0 <= i < s.len(),
    ensures
        lookup::some(s.take(i + 1), p) == (lookup::some(s.take(i), p) || p(s[i])),
{
    if lookup::some(s.take(i), p) {
        let k = choose|k: int| 0 <= k < i && p(#[trigger] s.take(i)[k]);
        assert(p(s.take(i + 1)[k]));
    }
    if p(s[i]) {
        assert(p(s.take(i + 1)[i]));
    }
    if lookup::some(s.take(i + 1), p) && !p(s[i]) {
        let k = choose|k: int| 0 <= k < s.take(i + 1).len() && p(#[trigger] s.take(i + 1)[k]);
        assert(p(s.take(i)[k]));
    }
}

/// Publishes the lines of a station that comes or goes.
pub fn publish_device_lines(access: &Access, device: &DeviceId) -> (commands: Vec<PresenceCommand>)
    ensures
        device_lines_published(access.shared, device@, commands@),
{
    let lines = device_lines(access, device);
    let mut commands: Vec<PresenceCommand> = Vec::new();
    let mut i: usize = 0;
    while i < lines.len()
        invariant
            0 <= i <= lines@.len(),
            commands@.len() == i,
            forall|j: int|
                0 <= j < i ==> {
                    &&& (#[trigger] commands@[j]) matches PresenceCommand::PublishLine {
                        line,
                        state,
                    } && state == device_state_spec(access.shared, line@)
                    &&& published_line(commands@[j]) == lines@[j]@
                },
        decreases lines@.len() - i,
    {
        commands.push(publish_line(access, lines[i].as_str()));
        i += 1;
    }
    proof {
        assert forall|j: int| 0 <= j < commands@.len() implies shows_line_spec(
            access.shared,
            device@,
            published_line(#[trigger] commands@[j]),
        ) by {
            assert(text::lists(lines@, lines@[j]@));
        }
        assert forall|line: Seq<char>| #[trigger]
            shows_line_spec(access.shared, device@, line) implies exists|j: int|
            0 <= j < commands@.len() && published_line(#[trigger] commands@[j]) == line by {
            assert(text::lists(lines@, line));
            let j = choose|j: int| 0 <= j < lines@.len() && (#[trigger] lines@[j])@ == line;
            assert(published_line(commands@[j]) == line);
        }
    }
    commands
}

/// The target has this instance.
pub open spec fn target_at(instance: u32) -> spec_fn(BlfTarget) -> bool {
    |target: BlfTarget| target.instance == instance
}

/// The target that a button watches.
pub open spec fn watched(targets: Seq<BlfTarget>) -> spec_fn(ButtonDefinition) -> Option<
    BlfTarget,
> {
    |button: ButtonDefinition|
        match button {
            ButtonDefinition::BlfSpeedDial { instance } => lookup::first(
                targets,
                target_at(instance),
            ),
            _ => None,
        }
}

/// What becomes of the hints that a station watches.
#[derive(Debug, PartialEq, Eq)]
pub enum BlfInstallation<'a> {
    /// The station is not configured: it watches nothing.
    Uninstall,
    /// The station is not registered: nothing changes.
    Keep,
    Install { generation: SessionGeneration, plan: Vec<&'a BlfTarget> },
}

fn blf_target(targets: &Vec<BlfTarget>, instance: u32) -> (found: Option<&BlfTarget>)
    ensures
        lookup::target(found) == lookup::first(targets@, target_at(instance)),
{
    let ghost p = target_at(instance);
    let mut i: usize = 0;
    while i < targets.len()
        invariant
            p == target_at(instance),
            0 <= i <= targets@.len(),
            lookup::first_at(targets@, p, 0) == lookup::first_at(targets@, p, i as int),
        decreases targets@.len() - i,
    {
        if targets[i].instance == instance {
            return Some(&targets[i]);
        }
        i += 1;
    }
    None
}

/// The hints that `device_id` watches from now on.
pub fn install_blf<'a>(access: &'a Access, device_id: &DeviceId) -> (installation: BlfInstallation<
    'a,
>)
    ensures
        match lookup::first(access.shared.config.devices@, config::is_device(device_id@)) {
            None => installation is Uninstall,
            Some(found) => match lookup::first(
                access.shared.controller.registered@,
                controller::is_station(device_id@),
            ) {
                None => installation is Keep,
                Some(station) => {
                    &&& installation matches BlfInstallation::Install { generation, plan }
                    &&& generation == station.session_generation
                    &&& plan@.map_values(|target: &BlfTarget| *target) == found.buttons@.filter_map(
                        watched(found.blf_targets@),
                    )
                },
            },
        },
{
    let found = match access.shared.config.device(device_id) {
        Some(found) => found,
        None => return BlfInstallation::Uninstall,
    };
    let generation = match access.shared.controller.registered_device(device_id) {
        Some(station) => station.session_generation,
        None => return BlfInstallation::Keep,
    };
    let ghost f = watched(found.blf_targets@);
    let mut plan: Vec<&BlfTarget> = Vec::new();
    proof {
        assert(plan@.map_values(|target: &BlfTarget| *target) =~= found.buttons@.take(0).filter_map(
            f,
        )) by {
            reveal(Seq::filter_map);
        }
    }
    let mut i: usize = 0;
    while i < found.buttons.len()
        invariant
            f == watched(found.blf_targets@),
            0 <= i <= found.buttons@.len(),
            plan@.map_values(|target: &BlfTarget| *target) == found.buttons@.take(
                i as int,
            ).filter_map(f),
        decreases found.buttons@.len() - i,
    {
        proof {
            lookup::lemma_filter_map_step(found.buttons@, f, i as int);
        }
        match found.buttons[i] {
            ButtonDefinition::BlfSpeedDial { instance } => {
                match blf_target(&found.blf_targets, instance) {
                    Some(target) => {
                        let ghost before = plan@;
                        plan.push(target);
                        proof {
                            assert(plan@.map_values(|target: &BlfTarget| *target)
                                =~= before.map_values(|target: &BlfTarget| *target).push(*target));
                        }
                    },
                    None => {},
                }
            },
            _ => {},
        }
        i += 1;
    }
    proof {
        assert(found.buttons@.take(i as int) =~= found.buttons@);
    }
    BlfInstallation::Install { generation, plan }
}

/// A mailbox whose messages are announced on a line.
#[derive(Debug, PartialEq, Eq)]
pub struct MwiSubscription {
    pub line: String,
    pub mailbox: String,
}

/// The subscription of a line that has a mailbox.
pub open spec fn mailbox_of() -> spec_fn(LineConfig) -> Option<MwiSubscription> {
    |line: LineConfig|
        match line.mailbox {
            Some(mailbox) => Some(MwiSubscription { line: line.number, mailbox }),
            None => None,
        }
}

/// The mailboxes of all configured lines.
pub fn install_mwi(access: &Access) -> (subscriptions: Vec<MwiSubscription>)
    ensures
        subscriptions@ == access.shared.config.lines@.filter_map(mailbox_of()),
{
    let lines = &access.shared.config.lines;
    let mut subscriptions: Vec<MwiSubscription> = Vec::new();
    proof {
        assert(lines@.take(0).filter_map(mailbox_of()) =~= Seq::<MwiSubscription>::empty()) by {
            reveal(Seq::filter_map);
        }
    }
    let mut i: usize = 0;
    while i < lines.len()
        invariant
            0 <= i <= lines@.len(),
            subscriptions@ == lines@.take(i as int).filter_map(mailbox_of()),
        decreases lines@.len() - i,
    {
        proof {
            lookup::lemma_filter_map_step(lines@, mailbox_of(), i as int);
        }
        match &lines[i].mailbox {
            Some(mailbox) => {
                subscriptions.push(
                    MwiSubscription { line: lines[i].number.clone(), mailbox: mailbox.clone() },
                );
            },
            None => {},
        }
        i += 1;
    }
    proof {
        assert(lines@.take(i as int) =~= lines@);
    }
    subscriptions
}

/// Calls decide the state of a line before do-not-disturb does: with a call
/// that is not over, no mode of any station matters.
pub proof fn law_activity_precedes_dnd(
    registered: Seq<DndMode>,
    others: Seq<DndMode>,
    states: Seq<CallState>,
    i: int,
)
    requires
        0 <= i < states.len(),
        states[i] != CallState::Ended,
        registered.len() > 0,
        others.len() > 0,
    ensures
        aggregate_spec(true, registered, states) == aggregate_spec(true, others, states),
        aggregate_spec(true, registered, states) != DeviceState::NotInUse,
        aggregate_spec(true, registered, states) != DeviceState::Busy,
{
    assert(is_ringing()(states[i]) || is_on_hold()(states[i]) || is_active()(states[i]));
}

/// An idle line is busy exactly if every registered station turns calls away.
pub proof fn law_idle_lines_are_busy_when_all_reject(
    registered: Seq<DndMode>,
    states: Seq<CallState>,
)
    requires
        registered.len() > 0,
        forall|i: int| 0 <= i < states.len() ==> #[trigger] states[i] == CallState::Ended,
    ensures
        aggregate_spec(true, registered, states) == if lookup::all(registered, rejects()) {
            DeviceState::Busy
        } else {
            DeviceState::NotInUse
        },
{
}

/// The order in which calls are listed does not matter: what counts is which
/// kinds of calls there are.
pub proof fn law_state_ignores_call_order(
    has_appearance: bool,
    registered: Seq<DndMode>,
    states: Seq<CallState>,
    reordered: Seq<CallState>,
)
    requires
        forall|state: CallState| #[trigger] states.contains(state) <==> reordered.contains(state),
    ensures
        aggregate_spec(has_appearance, registered, states) == aggregate_spec(
            has_appearance,
            registered,
            reordered,
        ),
{
    lemma_some_by_members(states, reordered, is_ringing());
    lemma_some_by_members(states, reordered, is_on_hold());
    lemma_some_by_members(states, reordered, is_active());
}

proof fn lemma_some_by_members(a: Seq<CallState>, b: Seq<CallState>, p: spec_fn(CallState) -> bool)
    requires
        forall|state: CallState| #[trigger] a.contains(state) <==> b.contains(state),
    ensures
        lookup::some(a, p) == lookup::some(b, p),
{
    if lookup::some(a, p) {
        let i = choose|i: int| 0 <= i < a.len() && p(#[trigger] a[i]);
        assert(a.contains(a[i]));
        assert(b.contains(a[i]));
        let j = choose|j: int| 0 <= j < b.len() && b[j] == a[i];
        assert(p(b[j]));
    }
    if lookup::some(b, p) {
        let i = choose|i: int| 0 <= i < b.len() && p(#[trigger] b[i]);
        assert(b.contains(b[i]));
        assert(a.contains(b[i]));
        let j = choose|j: int| 0 <= j < a.len() && a[j] == b[i];
        assert(p(a[j]));
    }
}

/// A line nobody shows is gone, one that no registered station shows cannot be
/// used. Else ringing counts before use, use before hold and hold before anything a
/// station wants of its own accord, and the line is busy exactly if it is free and
/// every station that shows it rejects calls.
pub proof fn law_line_states_are_ranked(
    has_appearance: bool,
    registered_dnd: &[DndMode],
    states: &[CallState],
    state: DeviceState,
)
    requires
        call_ensures(aggregate_device_state, (has_appearance, registered_dnd, states), state),
    ensures
        ({
            let usable = has_appearance && registered_dnd@.len() > 0;
            let ringing = exists|i: int|
                0 <= i < states@.len() && #[trigger] states@[i] == CallState::Ringing;
            let held = exists|i: int|
                0 <= i < states@.len() && ((#[trigger] states@[i]) == CallState::Held || states@[i]
                    == CallState::SharedHeld);
            let used = exists|i: int|
                0 <= i < states@.len() && (#[trigger] states@[i]) != CallState::Ringing
                    && states@[i] != CallState::Held && states@[i] != CallState::SharedHeld
                    && states@[i] != CallState::Ended;
            &&& state == DeviceState::Removed <==> !has_appearance
            &&& state == DeviceState::Unavailable <==> has_appearance && registered_dnd@.len() == 0
            &&& state == DeviceState::RingInUse <==> usable && ringing && (used || held)
            &&& state == DeviceState::Ringing <==> usable && ringing && !used && !held
            &&& state == DeviceState::InUse <==> usable && !ringing && used
            &&& state == DeviceState::OnHold <==> usable && !ringing && !used && held
            &&& state == DeviceState::Busy <==> usable && !ringing && !used && !held && forall|
                i: int,
            |
                0 <= i < registered_dnd@.len() ==> (#[trigger] registered_dnd@[i])
                    == DndMode::Reject
        }),
{
    assert(lookup::some(states@, is_ringing()) == exists|i: int|
        0 <= i < states@.len() && #[trigger] states@[i] == CallState::Ringing) by {
        assert forall|i: int| 0 <= i < states@.len() implies is_ringing()(#[trigger] states@[i])
            == (states@[i] == CallState::Ringing) by {}
    }
    assert(lookup::some(states@, is_on_hold()) == exists|i: int|
        0 <= i < states@.len() && ((#[trigger] states@[i]) == CallState::Held || states@[i]
            == CallState::SharedHeld)) by {
        assert forall|i: int| 0 <= i < states@.len() implies is_on_hold()(#[trigger] states@[i])
            == (states@[i] == CallState::Held || states@[i] == CallState::SharedHeld) by {}
    }
    assert(lookup::some(states@, is_active()) == exists|i: int|
        0 <= i < states@.len() && (#[trigger] states@[i]) != CallState::Ringing && states@[i]
            != CallState::Held && states@[i] != CallState::SharedHeld && states@[i]
            != CallState::Ended) by {
        assert forall|i: int| 0 <= i < states@.len() implies is_active()(#[trigger] states@[i])
            == (states@[i] != CallState::Ringing && states@[i] != CallState::Held && states@[i]
            != CallState::SharedHeld && states@[i] != CallState::Ended) by {}
    }
    assert(lookup::all(registered_dnd@, rejects()) == forall|i: int|
        0 <= i < registered_dnd@.len() ==> (#[trigger] registered_dnd@[i]) == DndMode::Reject) by {
        assert forall|i: int| 0 <= i < registered_dnd@.len() implies rejects()(
            #[trigger] registered_dnd@[i],
        ) == (registered_dnd@[i] == DndMode::Reject) by {}
    }
}

/// The state of a line is that of its own calls: with a registered station showing
/// it, it rings, or is in use, because of a call on the line and no other.
pub proof fn law_lines_show_their_own_calls(access: &Access, line: &str, state: DeviceState)
    requires
        call_ensures(device_state, (access, line), state),
    ensures
        state == DeviceState::Ringing || state == DeviceState::RingInUse ==> exists|i: int|
            0 <= i < access.shared.controller.calls@.len() && (
            #[trigger] access.shared.controller.calls@[i]).line@ == line@
                && access.shared.controller.calls@[i].state == CallState::Ringing,
        state == DeviceState::NotInUse || state == DeviceState::Busy ==> forall|i: int|
            0 <= i < access.shared.controller.calls@.len() && (
            #[trigger] access.shared.controller.calls@[i]).line@ == line@
                ==> access.shared.controller.calls@[i].state == CallState::Ended,
        state == DeviceState::OnHold ==> forall|i: int|
            0 <= i < access.shared.controller.calls@.len() && (
            #[trigger] access.shared.controller.calls@[i]).line@ == line@
                ==> access.shared.controller.calls@[i].state == CallState::Held
                || access.shared.controller.calls@[i].state == CallState::SharedHeld
                || access.shared.controller.calls@[i].state == CallState::Ended,
        state == DeviceState::InUse ==> forall|i: int|
            0 <= i < access.shared.controller.calls@.len() && (
            #[trigger] access.shared.controller.calls@[i]).line@ == line@
                ==> access.shared.controller.calls@[i].state != CallState::Ringing,
{
    let calls = access.shared.controller.calls@;
    let f = state_on_line(line@);
    let states = calls.filter_map(f);
    assert forall|i: int| 0 <= i < calls.len() && (#[trigger] calls[i]).line@ == line@ implies exists|
        k: int,
    | 0 <= k < states.len() && #[trigger] states[k] == calls[i].state by {
        lookup::lemma_filter_map_member(calls, f, calls[i].state);
        assert(f(calls[i]) == Some(calls[i].state));
        assert(states.contains(calls[i].state));
    }
    if lookup::some(states, is_ringing()) {
        let k = choose|k: int| 0 <= k < states.len() && is_ringing()(#[trigger] states[k]);
        lookup::lemma_filter_map_member(calls, f, CallState::Ringing);
        assert(states.contains(CallState::Ringing));
    }
    assert(forall|k: int|
        0 <= k < states.len() && !is_ringing()(#[trigger] states[k]) && !is_on_hold()(states[k])
            && !is_active()(states[k]) ==> states[k] == CallState::Ended);
}

/// A station watches, for each of its speed dials that show a state, the target of
/// that dial, in the session that it has; one that is not configured watches
/// nothing any more.
pub proof fn law_stations_watch_their_dials<'a>(
    access: &'a Access,
    device_id: DeviceId,
    installation: BlfInstallation<'a>,
    target: BlfTarget,
    d: int,
    s: int,
)
    requires
        call_ensures(install_blf, (access, &device_id), installation),
        0 <= d <= access.shared.config.devices@.len(),
        forall|j: int|
            0 <= j < d ==> (#[trigger] access.shared.config.devices@[j]).id@ != device_id@,
        d < access.shared.config.devices@.len() ==> access.shared.config.devices@[d].id@
            == device_id@,
        0 <= s <= access.shared.controller.registered@.len(),
        forall|j: int|
            0 <= j < s ==> (#[trigger] access.shared.controller.registered@[j]).id@ != device_id@,
        s < access.shared.controller.registered@.len()
            ==> access.shared.controller.registered@[s].id@ == device_id@,
    ensures
        installation is Uninstall <==> d == access.shared.config.devices@.len(),
        installation is Install <==> d < access.shared.config.devices@.len() && s
            < access.shared.controller.registered@.len(),
        installation matches BlfInstallation::Install { generation, plan } ==> {
            let device = access.shared.config.devices@[d];
            &&& generation == access.shared.controller.registered@[s].session_generation
            &&& plan@.contains(&target) ==> exists|b: int|
                0 <= b < device.buttons@.len() && (#[trigger] device.buttons@[b]) == (
                ButtonDefinition::BlfSpeedDial { instance: target.instance })
            &&& plan@.contains(&target) ==> device.blf_targets@.contains(target)
        },
{
    let p = config::is_device(device_id@);
    if d == access.shared.config.devices@.len() {
        lookup::lemma_first_none(access.shared.config.devices@, p);
    } else {
        lookup::lemma_first_is(access.shared.config.devices@, p, d);
        let device = access.shared.config.devices@[d];
        if let BlfInstallation::Install { plan, .. } = installation {
            let plain = plan@.map_values(|target: &BlfTarget| *target);
            if plan@.contains(&target) {
                let i = choose|i: int| 0 <= i < plan@.len() && plan@[i] == &target;
                assert(plain[i] == target);
                lookup::lemma_filter_map_member(
                    device.buttons@,
                    watched(device.blf_targets@),
                    target,
                );
                let b = choose|b: int|
                    0 <= b < device.buttons@.len() && watched(device.blf_targets@)(
                        #[trigger] device.buttons@[b],
                    ) == Some(target);
                if let ButtonDefinition::BlfSpeedDial { instance } = device.buttons@[b] {
                    lookup::lemma_first_at(device.blf_targets@, target_at(instance), 0);
                    assert(device.buttons@[b] == (ButtonDefinition::BlfSpeedDial {
                        instance: target.instance,
                    }));
                }
            }
        }
    }
    let q = controller::is_station(device_id@);
    if s == access.shared.controller.registered@.len() {
        lookup::lemma_first_none(access.shared.controller.registered@, q);
    } else {
        lookup::lemma_first_is(access.shared.controller.registered@, q, s);
    }
}

/// Every line with a mailbox is watched for messages in that mailbox, and no other.
pub proof fn law_mailboxes_are_watched_for_their_line(
    access: &Access,
    subscriptions: Vec<MwiSubscription>,
    subscription: MwiSubscription,
)
    requires
        call_ensures(install_mwi, (access,), subscriptions),
    ensures
        subscriptions@.contains(subscription) <==> exists|i: int|
            0 <= i < access.shared.config.lines@.len() && (
            #[trigger] access.shared.config.lines@[i]).number == subscription.line
                && access.shared.config.lines@[i].mailbox == Some(subscription.mailbox),
{
    let lines = access.shared.config.lines@;
    let f = mailbox_of();
    lookup::lemma_filter_map_member(lines, f, subscription);
    if subscriptions@.contains(subscription) {
        let i = choose|i: int|
            0 <= i < lines.len() && f(#[trigger] lines[i]) == Some(subscription);
        assert(lines[i].number == subscription.line);
    }
    if exists|i: int|
        0 <= i < lines.len() && (#[trigger] lines[i]).number == subscription.line && lines[i].mailbox
            == Some(subscription.mailbox) {
        let i = choose|i: int|
            0 <= i < lines.len() && (#[trigger] lines[i]).number == subscription.line
                && lines[i].mailbox == Some(subscription.mailbox);
        assert(f(lines[i]) == Some(subscription));
    }
}

} // verus!
