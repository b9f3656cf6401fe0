//! The state that every part of the driver reads, and the lines and channels
//! that can be found in it.

use vstd::prelude::*;

use crate::collect::{has_call, position, retain, split_off};
use crate::config::{self, ModuleConfig};
use crate::controller;
use crate::ids::{DeviceId, PbxCallId};
use crate::lookup;
use crate::model::{CallRuntimeRecord, ControllerSnapshot, LineBinding, MobilityAppearance, RegisteredDevice};
use crate::text::{self, address_parts, same_text};

verus! {

/// A channel of the switch that belongs to a call. Whoever looked it up holds it
/// by its handle. A closed channel takes no further operation.
#[derive(Debug, PartialEq, Eq)]
pub struct ChannelBinding {
    pub handle: u64,
    pub pbx_id: PbxCallId,
    pub closed: bool,
    pub name: Option<String>,
}

#[derive(Clone, Copy, Debug, PartialEq, Eq, Structural)]
pub enum ChannelAvailability {
    Live,
    Retiring,
    Missing,
}

#[derive(Clone, Copy, Debug, PartialEq, Eq, Structural)]
pub enum ChannelQueryLookupError {
    Unavailable,
    CurrentChannelUnavailable,
    AmbiguousChannelName,
}

/// Configuration, stations, calls and channels.
#[derive(Debug, PartialEq, Eq)]
pub struct Shared {
    pub config: ModuleConfig,
    pub controller: ControllerSnapshot,
    pub channels: Vec<ChannelBinding>,
    /// Channels that were taken out but may still be held.
    pub retired: Vec<ChannelBinding>,
    /// Calls for which a conference destination is being dialled.
    pub destinations: Vec<PbxCallId>,
    /// Calls whose audio has to pass through the switch.
    pub anchored: Vec<PbxCallId>,
}

/// The handle through which the driver's parts reach the shared state.
#[derive(Debug, PartialEq, Eq)]
pub struct Access {
    pub shared: Shared,
}

/// The channel belongs to `pbx_id`.
pub open spec fn channel_of(pbx_id: PbxCallId) -> spec_fn(ChannelBinding) -> bool {
    |c: ChannelBinding| c.pbx_id == pbx_id
}

/// What a channel is held by.
pub open spec fn handle() -> spec_fn(ChannelBinding) -> u64 {
    |c: ChannelBinding| c.handle
}

/// The channel is the one held by `handle`.
pub open spec fn held_by(handle: u64) -> spec_fn(ChannelBinding) -> bool {
    |c: ChannelBinding| c.handle == handle
}

/// The channel as it is left for those who still hold it.
pub open spec fn closing() -> spec_fn(ChannelBinding) -> ChannelBinding {
    |c: ChannelBinding| ChannelBinding { closed: true, ..c }
}

/// The channel takes operations.
pub open spec fn is_open() -> spec_fn(ChannelBinding) -> bool {
    |c: ChannelBinding| !c.closed
}

/// The channel takes operations and has this name.
pub open spec fn is_open_named(name: Seq<char>) -> spec_fn(ChannelBinding) -> bool {
    |c: ChannelBinding| !c.closed && (c.name matches Some(n) && n@ == name)
}

impl Shared {
    /// Every channel has a handle of its own, and those that were taken out are
    /// closed.
    pub open spec fn handles_wf(self) -> bool {
        &&& forall|i: int, j: int|
            0 <= i < j < self.channels@.len() ==> handle()(#[trigger] self.channels@[i])
                != handle()(#[trigger] self.channels@[j])
        &&& forall|i: int, j: int|
            0 <= i < j < self.retired@.len() ==> handle()(#[trigger] self.retired@[i]) != handle()(
                #[trigger] self.retired@[j],
            )
        &&& forall|i: int, j: int|
            0 <= i < self.channels@.len() && 0 <= j < self.retired@.len() ==> (
            #[trigger] self.channels@[i]).handle != (#[trigger] self.retired@[j]).handle
        &&& lookup::all(self.retired@, lookup::not(is_open()))
    }

    /// What holding the channel of `handle` gives: the channel while it is open.
    pub open spec fn held_channel_spec(self, handle: u64) -> Option<ChannelBinding> {
        match lookup::first(self.channels@ + self.retired@, held_by(handle)) {
            Some(channel) => if channel.closed {
                None
            } else {
                Some(channel)
            },
            None => None,
        }
    }

    /// The line of `device` at `instance`: a configured one before the one of a
    /// guest, and that before a roaming one.
    pub open spec fn binding_spec(self, device: Seq<char>, instance: u32) -> Option<LineBinding> {
        match lookup::first(self.config.bindings@, config::bound_at(device, instance)) {
            Some(binding) => Some(binding),
            None => match lookup::first(
                self.config.guest_bindings@,
                config::bound_at(device, instance),
            ) {
                Some(binding) => Some(binding),
                None => match lookup::first(
                    self.controller.mobility@,
                    controller::roams_at(device, instance),
                ) {
                    Some(roaming) => Some(roaming.binding),
                    None => None,
                },
            },
        }
    }

    /// The channel of `pbx_id` that still takes operations.
    pub open spec fn live_channel_spec(self, pbx_id: PbxCallId) -> Option<ChannelBinding> {
        match lookup::first(self.channels@, channel_of(pbx_id)) {
            Some(channel) => if channel.closed {
                None
            } else {
                Some(channel)
            },
            None => None,
        }
    }
}

/// The line of `device_id` at `line_instance`.
pub fn runtime_line_binding<'a>(
    shared: &'a Shared,
    device_id: &DeviceId,
    line_instance: u32,
) -> (binding: Option<&'a LineBinding>)
    ensures
        lookup::target(binding) == shared.binding_spec(device_id@, line_instance),
{
    match shared.config.line_for_device(device_id, line_instance) {
        Some(binding) => Some(binding),
        None => match shared.config.guest_hotline_binding(device_id, line_instance) {
            Some(binding) => Some(binding),
            None => shared.controller.binding_for_device(device_id, line_instance),
        },
    }
}

/// The stations that have registered, in the order of the snapshot.
pub fn registered_device_ids(shared: &Shared) -> (ids: Vec<DeviceId>)
    ensures
        ids@ == shared.controller.registered@.map_values(|d: RegisteredDevice| d.id),
{
    let mut ids: Vec<DeviceId> = Vec::new();
    let mut i: usize = 0;
    while i < shared.controller.registered.len()
        invariant
            0 <= i <= shared.controller.registered@.len(),
            ids@ == shared.controller.registered@.take(i as int).map_values(
                |d: RegisteredDevice| d.id,
            ),
        decreases shared.controller.registered@.len() - i,
    {
        ids.push(shared.controller.registered[i].id.clone());
        proof {
            assert(ids@ =~= shared.controller.registered@.take(i + 1).map_values(
                |d: RegisteredDevice| d.id,
            ));
        }
        i += 1;
    }
    proof {
        assert(shared.controller.registered@.take(i as int) =~= shared.controller.registered@);
    }
    ids
}

impl Access {
    pub fn config(&self) -> (config: &ModuleConfig)
        ensures
            *config == self.shared.config,
    {
        &self.shared.config
    }

    pub fn line_binding(&self, device_id: &DeviceId, line_instance: u32) -> (binding: Option<
        &LineBinding,
    >)
        ensures
            lookup::target(binding) == self.shared.binding_spec(device_id@, line_instance),
    {
        runtime_line_binding(&self.shared, device_id, line_instance)
    }

    /// The lines that a dialed address rings. `dialed` is the binding that the
    /// configuration finds for the address, and `device_valid` says whether the part
    /// before the slash can be the name of a device. With a device part the address
    /// names one appearance: the configured one, else the roaming appearances of that
    /// device that show the line, and none where that part names no device. Without
    /// one it names a line, and every appearance of it rings, configured ones before
    /// roaming ones.
    pub fn inbound_line_bindings<'a>(
        &'a self,
        address: &str,
        dialed: Option<&'a LineBinding>,
        device_valid: bool,
    ) -> (bindings: Vec<&'a LineBinding>)
        ensures
            bindings@.map_values(|b: &LineBinding| *b) == inbound_spec(
                self.shared,
                lookup::target(dialed),
                match text::parts_of(address@) {
                    Some((device, line)) => if device_valid {
                        Some((Some(device), line))
                    } else {
                        Some((None, line))
                    },
                    None => None,
                },
            ),
    {
        match address_parts(address) {
            None => self.dialed_bindings(dialed, None),
            Some((device, line)) => if device_valid {
                let device = DeviceId::named(device.as_str());
                self.dialed_bindings(dialed, Some((Some(&device), line.as_str())))
            } else {
                self.dialed_bindings(dialed, Some((None, line.as_str())))
            },
        }
    }

    fn dialed_bindings<'a>(
        &'a self,
        dialed: Option<&'a LineBinding>,
        device_and_line: Option<(Option<&DeviceId>, &str)>,
    ) -> (bindings: Vec<&'a LineBinding>)
        ensures
            bindings@.map_values(|b: &LineBinding| *b) == inbound_spec(
                self.shared,
                lookup::target(dialed),
                match device_and_line {
                    Some((Some(device), line)) => Some((Some(device@), line@)),
                    Some((None, line)) => Some((None, line@)),
                    None => None,
                },
            ),
    {
        let mut bindings: Vec<&'a LineBinding> = Vec::new();
        match device_and_line {
            Some((device, line)) => {
                if let Some(binding) = dialed {
                    bindings.push(binding);
                    proof {
                        assert(bindings@.map_values(|b: &LineBinding| *b) =~= seq![*binding]);
                    }
                    return bindings;
                }
                let device = match device {
                    Some(device) => device,
                    None => {
                        proof {
                            assert(bindings@.map_values(|b: &LineBinding| *b) =~= Seq::empty());
                        }
                        return bindings;
                    },
                };
                let ghost keep = roaming_on(device@, line@);
                let mut i: usize = 0;
                while i < self.shared.controller.mobility.len()
                    invariant
                        0 <= i <= self.shared.controller.mobility@.len(),
                        keep == roaming_on(device@, line@),
                        bindings@.map_values(|b: &LineBinding| *b)
                            == self.shared.controller.mobility@.take(i as int).filter_map(keep),
                    decreases self.shared.controller.mobility@.len() - i,
                {
                    let roaming = &self.shared.controller.mobility[i];
                    proof {
                        lookup::lemma_filter_map_step(
                            self.shared.controller.mobility@,
                            keep,
                            i as int,
                        );
                    }
                    if roaming.device_id.same(device) && same_text(
                        roaming.binding.line.number.as_str(),
                        line,
                    ) {
                        bindings.push(&roaming.binding);
                    }
                    proof {
                        assert(bindings@.map_values(|b: &LineBinding| *b)
                            =~= self.shared.controller.mobility@.take(i + 1).filter_map(keep));
                    }
                    i += 1;
                }
                proof {
                    assert(self.shared.controller.mobility@.take(i as int)
                        =~= self.shared.controller.mobility@);
                }
                bindings
            },
            None => match dialed {
                Some(found) => self.appearances_of_line(found.line.number.as_str()),
                None => {
                    proof {
                        assert(bindings@.map_values(|b: &LineBinding| *b) =~= Seq::empty());
                    }
                    bindings
                },
            },
        }
    }

    /// Every appearance of a line, configured ones before roaming ones.
    pub fn appearances_of_line(&self, number: &str) -> (bindings: Vec<&LineBinding>)
        ensures
            bindings@.map_values(|b: &LineBinding| *b) == line_appearances_spec(
                self.shared,
                number@,
            ),
    {
        let mut bindings: Vec<&LineBinding> = Vec::new();
        let ghost shows = config::shows_line(number@);
        let mut i: usize = 0;
        while i < self.shared.config.bindings.len()
            invariant
                0 <= i <= self.shared.config.bindings@.len(),
                shows == config::shows_line(number@),
                bindings@.map_values(|b: &LineBinding| *b) == self.shared.config.bindings@.take(
                    i as int,
                ).filter(shows),
            decreases self.shared.config.bindings@.len() - i,
        {
            proof {
                lookup::lemma_filter_step(self.shared.config.bindings@, shows, i as int);
            }
            if same_text(self.shared.config.bindings[i].line.number.as_str(), number) {
                bindings.push(&self.shared.config.bindings[i]);
            }
            proof {
                assert(bindings@.map_values(|b: &LineBinding| *b)
                    =~= self.shared.config.bindings@.take(i + 1).filter(shows));
            }
            i += 1;
        }
        proof {
            assert(self.shared.config.bindings@.take(i as int) =~= self.shared.config.bindings@);
        }
        let ghost configured = self.shared.config.bindings@.filter(shows);
        let ghost roams = roaming_line(number@);
        let mut j: usize = 0;
        while j < self.shared.controller.mobility.len()
            invariant
                0 <= j <= self.shared.controller.mobility@.len(),
                roams == roaming_line(number@),
                bindings@.map_values(|b: &LineBinding| *b) == configured
                    + self.shared.controller.mobility@.take(j as int).filter_map(roams),
            decreases self.shared.controller.mobility@.len() - j,
        {
            proof {
                lookup::lemma_filter_map_step(self.shared.controller.mobility@, roams, j as int);
            }
            if same_text(self.shared.controller.mobility[j].binding.line.number.as_str(), number) {
                bindings.push(&self.shared.controller.mobility[j].binding);
            }
            proof {
                let before = self.shared.controller.mobility@.take(j as int).filter_map(roams);
                let binding = self.shared.controller.mobility@[j as int].binding;
                assert(configured + before.push(binding) =~= (configured + before).push(binding));
                assert(bindings@.map_values(|b: &LineBinding| *b) =~= configured
                    + self.shared.controller.mobility@.take(j + 1).filter_map(roams));
            }
            j += 1;
        }
        proof {
            assert(self.shared.controller.mobility@.take(j as int)
                =~= self.shared.controller.mobility@);
        }
        bindings
    }
}

/// The binding of a roaming appearance on `device` that shows `line`.
pub open spec fn roaming_on(device: Seq<char>, line: Seq<char>) -> spec_fn(
    MobilityAppearance,
) -> Option<LineBinding> {
    |m: MobilityAppearance|
        if m.device_id@ == device && m.binding.line.number@ == line {
            Some(m.binding)
        } else {
            None
        }
}

/// The binding of a roaming appearance that shows `line`.
pub open spec fn roaming_line(line: Seq<char>) -> spec_fn(MobilityAppearance) -> Option<LineBinding> {
    |m: MobilityAppearance|
        if m.binding.line.number@ == line {
            Some(m.binding)
        } else {
            None
        }
}

/// Every appearance of a line.
pub open spec fn line_appearances_spec(shared: Shared, number: Seq<char>) -> Seq<LineBinding> {
    shared.config.bindings@.filter(config::shows_line(number))
        + shared.controller.mobility@.filter_map(roaming_line(number))
}

/// The lines that an address rings.
pub open spec fn inbound_spec(
    shared: Shared,
    dialed: Option<LineBinding>,
    device_and_line: Option<(Option<Seq<char>>, Seq<char>)>,
) -> Seq<LineBinding> {
    match (device_and_line, dialed) {
        (Some(_), Some(binding)) => seq![binding],
        (Some((None, _)), None) => Seq::empty(),
        (Some((Some(device), line)), None) => shared.controller.mobility@.filter_map(
            roaming_on(device, line),
        ),
        (None, Some(binding)) => line_appearances_spec(shared, binding.line.number@),
        (None, None) => Seq::empty(),
    }
}

/// The channel that belongs to `pbx_id`, closed or not.
pub fn channel_binding(access: &Access, pbx_id: PbxCallId) -> (binding: Option<&ChannelBinding>)
    ensures
        lookup::target(binding) == lookup::first(access.shared.channels@, channel_of(pbx_id)),
{
    find_channel(&access.shared, pbx_id)
}

fn find_channel(shared: &Shared, pbx_id: PbxCallId) -> (binding: Option<&ChannelBinding>)
    ensures
        lookup::target(binding) == lookup::first(shared.channels@, channel_of(pbx_id)),
{
    let ghost p = channel_of(pbx_id);
    let mut i: usize = 0;
    while i < shared.channels.len()
        invariant
            p == channel_of(pbx_id),
            0 <= i <= shared.channels@.len(),
            lookup::first_at(shared.channels@, p, 0) == lookup::first_at(
                shared.channels@,
                p,
                i as int,
            ),
        decreases shared.channels@.len() - i,
    {
        if shared.channels[i].pbx_id == pbx_id {
            return Some(&shared.channels[i]);
        }
        i += 1;
    }
    None
}

/// Whether operations on the channel of `pbx_id` are possible, no longer
/// possible, or never were.
pub fn channel_availability(access: &Access, pbx_id: PbxCallId) -> (availability:
    ChannelAvailability)
    ensures
        availability == match lookup::first(access.shared.channels@, channel_of(pbx_id)) {
            Some(channel) => if channel.closed {
                ChannelAvailability::Retiring
            } else {
                ChannelAvailability::Live
            },
            None => ChannelAvailability::Missing,
        },
{
    match channel_binding(access, pbx_id) {
        Some(binding) => if binding.closed {
            ChannelAvailability::Retiring
        } else {
            ChannelAvailability::Live
        },
        None => ChannelAvailability::Missing,
    }
}

/// The channel on which an operation for `pbx_id` may run.
pub fn with_channel(access: &Access, pbx_id: PbxCallId) -> (channel: Option<&ChannelBinding>)
    ensures
        lookup::target(channel) == access.shared.live_channel_spec(pbx_id),
{
    referenced_channel(&access.shared, pbx_id)
}

/// The channel of `pbx_id`, if it takes operations.
pub fn referenced_channel(shared: &Shared, pbx_id: PbxCallId) -> (channel: Option<&ChannelBinding>)
    ensures
        lookup::target(channel) == shared.live_channel_spec(pbx_id),
{
    match find_channel(shared, pbx_id) {
        Some(binding) => if binding.closed {
            None
        } else {
            Some(binding)
        },
        None => None,
    }
}

/// The channels of two calls, if both take operations.
pub fn retain_two_channels(access: &Access, first: PbxCallId, second: PbxCallId) -> (channels:
    Option<(&ChannelBinding, &ChannelBinding)>)
    ensures
        match (
            access.shared.live_channel_spec(first),
            access.shared.live_channel_spec(second),
        ) {
            (Some(a), Some(b)) => channels == Some((&a, &b)),
            _ => channels is None,
        },
{
    let first_channel = with_channel(access, first);
    let second_channel = with_channel(access, second);
    match (first_channel, second_channel) {
        (Some(a), Some(b)) => Some((a, b)),
        _ => None,
    }
}

/// The channels on which an operation for two calls may run.
pub fn with_two_channels(access: &Access, first: PbxCallId, second: PbxCallId) -> (channels: Option<
    (&ChannelBinding, &ChannelBinding),
>)
    ensures
        match (
            access.shared.live_channel_spec(first),
            access.shared.live_channel_spec(second),
        ) {
            (Some(a), Some(b)) => channels == Some((&a, &b)),
            _ => channels is None,
        },
{
    retain_two_channels(access, first, second)
}

/// The channels on which an operation for several calls may run, in the order
/// of the calls; `None` as soon as one of them takes no operation.
pub fn with_channels<'a>(access: &'a Access, call_ids: &Vec<PbxCallId>) -> (channels: Option<
    Vec<&'a ChannelBinding>,
>)
    ensures
        channels is Some <==> forall|i: int|
            0 <= i < call_ids@.len() ==> access.shared.live_channel_spec(#[trigger] call_ids@[i])
                is Some,
        channels matches Some(found) ==> {
            &&& found@.len() == call_ids@.len()
            &&& forall|i: int|
                0 <= i < call_ids@.len() ==> access.shared.live_channel_spec(
                    #[trigger] call_ids@[i],
                ) == Some(*found@[i])
        },
{
    let mut found: Vec<&'a ChannelBinding> = Vec::new();
    let mut i: usize = 0;
    while i < call_ids.len()
        invariant
            0 <= i <= call_ids@.len(),
            found@.len() == i,
            forall|j: int|
                0 <= j < i ==> access.shared.live_channel_spec(#[trigger] call_ids@[j]) == Some(
                    *found@[j],
                ),
        decreases call_ids@.len() - i,
    {
        match with_channel(access, call_ids[i]) {
            Some(channel) => found.push(channel),
            None => {
                proof {
                    assert(access.shared.live_channel_spec(call_ids@[i as int]) is None);
                }
                return None;
            },
        }
        i += 1;
    }
    Some(found)
}

/// Every channel that takes operations.
pub fn referenced_channels(shared: &Shared) -> (channels: Vec<&ChannelBinding>)
    ensures
        channels@.map_values(|c: &ChannelBinding| *c) == shared.channels@.filter(is_open()),
{
    let mut channels: Vec<&ChannelBinding> = Vec::new();
    let ghost p = is_open();
    let mut i: usize = 0;
    while i < shared.channels.len()
        invariant
            0 <= i <= shared.channels@.len(),
            p == is_open(),
            channels@.map_values(|c: &ChannelBinding| *c) == shared.channels@.take(
                i as int,
            ).filter(p),
        decreases shared.channels@.len() - i,
    {
        proof {
            lookup::lemma_filter_step(shared.channels@, p, i as int);
        }
        if !shared.channels[i].closed {
            channels.push(&shared.channels[i]);
        }
        proof {
            assert(channels@.map_values(|c: &ChannelBinding| *c) =~= shared.channels@.take(
                i + 1,
            ).filter(p));
        }
        i += 1;
    }
    proof {
        assert(shared.channels@.take(i as int) =~= shared.channels@);
    }
    channels
}

/// The name that the switch gave a channel.
pub fn channel_name(channel: &ChannelBinding) -> (name: Option<&str>)
    ensures
        match channel.name {
            Some(text) => name matches Some(n) && n@ == text@,
            None => name is None,
        },
{
    match &channel.name {
        Some(text) => Some(text.as_str()),
        None => None,
    }
}

/// What a search for a channel name finds: nothing, one call, or several calls
/// whose channels share the name.
pub open spec fn named_call_spec(shared: Shared, name: Seq<char>) -> Result<
    Option<PbxCallId>,
    ChannelQueryLookupError,
> {
    let p = is_open_named(name);
    match lookup::first(shared.channels@, p) {
        None => Ok(None),
        Some(channel) => if forall|i: int|
            0 <= i < shared.channels@.len() && p(#[trigger] shared.channels@[i])
                ==> shared.channels@[i].pbx_id == channel.pbx_id {
            Ok(Some(channel.pbx_id))
        } else {
            Err(ChannelQueryLookupError::AmbiguousChannelName)
        },
    }
}

/// The call whose channel has the requested name.
pub fn pbx_id_for_channel_name(shared: &Shared, requested: &str) -> (found: Result<
    Option<PbxCallId>,
    ChannelQueryLookupError,
>)
    ensures
        found == named_call_spec(*shared, requested@),
{
    let ghost p = is_open_named(requested@);
    let mut matching: Option<PbxCallId> = None;
    let mut i: usize = 0;
    proof {
        lookup::lemma_first_at(shared.channels@, p, 0);
    }
    while i < shared.channels.len()
        invariant
            0 <= i <= shared.channels@.len(),
            p == is_open_named(requested@),
            match matching {
                None => forall|j: int| 0 <= j < i ==> !p(#[trigger] shared.channels@[j]),
                Some(id) => {
                    &&& lookup::first_at(shared.channels@, p, 0) matches Some(k)
                    &&& k < i
                    &&& shared.channels@[k].pbx_id == id
                    &&& forall|j: int|
                        0 <= j < i && p(#[trigger] shared.channels@[j])
                            ==> shared.channels@[j].pbx_id == id
                },
            },
            match lookup::first_at(shared.channels@, p, 0) {
                Some(k) => {
                    &&& 0 <= k < shared.channels@.len()
                    &&& p(shared.channels@[k])
                    &&& forall|j: int| 0 <= j < k ==> !p(#[trigger] shared.channels@[j])
                },
                None => forall|j: int|
                    0 <= j < shared.channels@.len() ==> !p(#[trigger] shared.channels@[j]),
            },
        decreases shared.channels@.len() - i,
    {
        let channel = &shared.channels[i];
        let named = match channel_name(channel) {
            Some(name) => same_text(name, requested),
            None => false,
        };
        if !channel.closed && named {
            assert(p(shared.channels@[i as int]));
            match matching {
                None => matching = Some(channel.pbx_id),
                Some(id) => if id != channel.pbx_id {
                    return Err(ChannelQueryLookupError::AmbiguousChannelName);
                },
            }
        } else {
            assert(!p(shared.channels@[i as int]));
        }
        i += 1;
    }
    Ok(matching)
}

/// The channel belongs to another call.
pub open spec fn other_channel(pbx_id: PbxCallId) -> spec_fn(ChannelBinding) -> bool {
    |c: ChannelBinding| c.pbx_id != pbx_id
}

/// The call is another one.
pub open spec fn other_id(pbx_id: PbxCallId) -> spec_fn(PbxCallId) -> bool {
    |id: PbxCallId| id != pbx_id
}

/// The record belongs to another call.
pub open spec fn other_record(pbx_id: PbxCallId) -> spec_fn(CallRuntimeRecord) -> bool {
    |r: CallRuntimeRecord| r.pbx_id != pbx_id
}

/// The state without anything that belongs to the call `pbx_id`. Its channel is
/// left, closed, to those who hold it.
pub open spec fn without_call(before: Shared, after: Shared, pbx_id: PbxCallId) -> bool {
    &&& after.config == before.config
    &&& after.channels@ == before.channels@.filter(other_channel(pbx_id))
    &&& after.retired@ == before.retired@ + before.channels@.filter(channel_of(pbx_id)).map_values(
        closing(),
    )
    &&& after.destinations@ == before.destinations@.filter(other_id(pbx_id))
    &&& after.anchored@ == before.anchored@.filter(other_id(pbx_id))
    &&& after.controller.runtime@ == before.controller.runtime@.filter(other_record(pbx_id))
    &&& after.controller.registered == before.controller.registered
    &&& after.controller.features == before.controller.features
    &&& after.controller.calls == before.controller.calls
    &&& after.controller.appearances == before.controller.appearances
    &&& after.controller.mobility == before.controller.mobility
    &&& after.controller.forwarding_entries == before.controller.forwarding_entries
}

/// A call that has left the state.
#[derive(Clone, Copy, Debug, PartialEq, Eq, Structural)]
pub struct RetiredCall {
    pub pbx_id: PbxCallId,
    /// A conference destination was being dialled for it and has to stop.
    pub cancels_destination: bool,
}

/// Takes the channel of `pbx_id` out of the state and closes it, with the
/// destination that is dialled for it, its anchor and the values kept for the
/// call.
pub fn remove_channel(access: &mut Access, pbx_id: PbxCallId) -> (retired: RetiredCall)
    ensures
        without_call(old(access).shared, final(access).shared, pbx_id),
        retired == (RetiredCall {
            pbx_id,
            cancels_destination: old(access).shared.destinations@.contains(pbx_id),
        }),
{
    let ghost before = access.shared;
    let cancels_destination = has_call(&access.shared.destinations, pbx_id);
    retain(
        &mut access.shared.destinations,
        |id: &PbxCallId| -> (keeps: bool)
            ensures
                keeps == (*id != pbx_id)
            { *id != pbx_id },
        Ghost(other_id(pbx_id)),
    );
    retain(
        &mut access.shared.anchored,
        |id: &PbxCallId| -> (keeps: bool)
            ensures
                keeps == (*id != pbx_id)
            { *id != pbx_id },
        Ghost(other_id(pbx_id)),
    );
    retain(
        &mut access.shared.controller.runtime,
        |record: &CallRuntimeRecord| -> (keeps: bool)
            ensures
                keeps == (record.pbx_id != pbx_id)
            { record.pbx_id != pbx_id },
        Ghost(other_record(pbx_id)),
    );
    let mut taken = split_off(
        &mut access.shared.channels,
        |binding: &ChannelBinding| -> (takes: bool)
            ensures
                takes == (binding.pbx_id == pbx_id)
            { binding.pbx_id == pbx_id },
        Ghost(channel_of(pbx_id)),
    );
    proof {
        assert(lookup::not(channel_of(pbx_id)) =~= other_channel(pbx_id));
    }
    close_all(&mut taken);
    access.shared.retired.append(&mut taken);
    RetiredCall { pbx_id, cancels_destination }
}

/// Closes channels to those who hold them.
fn close_all(channels: &mut Vec<ChannelBinding>)
    ensures
        final(channels)@ == old(channels)@.map_values(closing()),
{
    let ghost before = channels@;
    let mut i: usize = 0;
    while i < channels.len()
        invariant
            0 <= i <= channels@.len(),
            channels@.len() == before.len(),
            forall|j: int| 0 <= j < i ==> #[trigger] channels@[j] == closing()(before[j]),
            forall|j: int| i <= j < channels@.len() ==> #[trigger] channels@[j] == before[j],
        decreases channels@.len() - i,
    {
        channels[i].closed = true;
        i += 1;
    }
    assert(channels@ =~= before.map_values(closing()));
}

/// The channel of `handle`, for someone who looked it up before. A channel that
/// has been closed since is not given any more.
pub fn enter_channel<'a>(access: &'a Access, handle: u64) -> (channel: Option<&'a ChannelBinding>)
    ensures
        lookup::target(channel) == access.shared.held_channel_spec(handle),
{
    let ghost channels = access.shared.channels@;
    let ghost retired = access.shared.retired@;
    let ghost p = held_by(handle);
    proof {
        lookup::lemma_first_at(channels + retired, p, 0);
        lookup::lemma_first_at(channels, p, 0);
        lookup::lemma_first_at(retired, p, 0);
    }
    let live = position(
        &access.shared.channels,
        |binding: &ChannelBinding| -> (found: bool)
            ensures
                found == (binding.handle == handle)
            { binding.handle == handle },
        Ghost(p),
    );
    let found: &'a ChannelBinding = match live {
        Some(i) => {
            assert((channels + retired)[i as int] == channels[i as int]);
            assert forall|j: int| 0 <= j < i implies !p(#[trigger] (channels + retired)[j]) by {
                assert((channels + retired)[j] == channels[j]);
            }
            &access.shared.channels[i]
        },
        None => {
            assert forall|j: int| 0 <= j < channels.len() implies !p(
                #[trigger] (channels + retired)[j],
            ) by {
                assert((channels + retired)[j] == channels[j]);
            }
            let gone = position(
                &access.shared.retired,
                |binding: &ChannelBinding| -> (found: bool)
                    ensures
                        found == (binding.handle == handle)
                    { binding.handle == handle },
                Ghost(p),
            );
            match gone {
                Some(k) => {
                    assert((channels + retired)[channels.len() + k] == retired[k as int]);
                    assert forall|j: int| channels.len() <= j < channels.len() + k implies !p(
                        #[trigger] (channels + retired)[j],
                    ) by {
                        assert((channels + retired)[j] == retired[j - channels.len()]);
                    }
                    &access.shared.retired[k]
                },
                None => {
                    assert forall|j: int| 0 <= j < (channels + retired).len() implies !p(
                        #[trigger] (channels + retired)[j],
                    ) by {
                        if j >= channels.len() {
                            assert((channels + retired)[j] == retired[j - channels.len()]);
                        }
                    }
                    return None;
                },
            }
        },
    };
    if found.closed {
        None
    } else {
        Some(found)
    }
}

/// After a channel was removed, its call has none: nothing can be performed on
/// it any more, while every other call keeps the channel that it had.
pub proof fn law_removed_channels_are_missing(
    before: Shared,
    after: Shared,
    removed: PbxCallId,
    other: PbxCallId,
)
    requires
        without_call(before, after, removed),
        other != removed,
    ensures
        lookup::first(after.channels@, channel_of(removed)) is None,
        after.live_channel_spec(removed) is None,
        lookup::first(after.channels@, channel_of(other)) == lookup::first(
            before.channels@,
            channel_of(other),
        ),
{
    let keep = other_channel(removed);
    lookup::lemma_first_at(after.channels@, channel_of(removed), 0);
    assert forall|i: int| 0 <= i < after.channels@.len() implies !channel_of(removed)(
        #[trigger] after.channels@[i],
    ) by {
        lookup::lemma_filter_member(before.channels@, keep, i);
    }
    lookup::lemma_first_of_filter(before.channels@, keep, channel_of(other));
}

/// The channel is one of `removed`, closed.
spec fn closed_of(channels: Seq<ChannelBinding>, removed: PbxCallId, channel: ChannelBinding) -> bool {
    exists|k: int|
        0 <= k < channels.len() && channel == closing()(#[trigger] channels[k])
            && channels[k].pbx_id == removed
}

/// Where the channels of a state with one call less come from.
proof fn lemma_remaining_channels(before: Shared, after: Shared, removed: PbxCallId)
    requires
        before.handles_wf(),
        without_call(before, after, removed),
    ensures
        forall|i: int|
            0 <= i < after.channels@.len() ==> before.channels@.contains(
                #[trigger] after.channels@[i],
            ) && after.channels@[i].pbx_id != removed,
        forall|i: int|
            before.retired@.len() <= i < after.retired@.len() ==> closed_of(
                before.channels@,
                removed,
                #[trigger] after.retired@[i],
            ),
{
    let keep = other_channel(removed);
    let gone = channel_of(removed);
    let closed = before.channels@.filter(gone);
    assert forall|i: int| 0 <= i < after.channels@.len() implies before.channels@.contains(
        #[trigger] after.channels@[i],
    ) && after.channels@[i].pbx_id != removed by {
        lookup::lemma_filter_member(before.channels@, keep, i);
    }
    assert forall|i: int| before.retired@.len() <= i < after.retired@.len() implies closed_of(
        before.channels@,
        removed,
        #[trigger] after.retired@[i],
    ) by {
        let j = i - before.retired@.len();
        assert(after.retired@[i] == closing()(closed[j]));
        lookup::lemma_filter_member(before.channels@, gone, j);
        let k = choose|k: int| 0 <= k < before.channels@.len() && before.channels@[k] == closed[j];
        assert(after.retired@[i] == closing()(before.channels@[k]));
    }
}

/// A removed channel is closed to whoever still holds it, every other channel
/// stays what it was to its holders, and handles stay unique.
pub proof fn law_removed_channels_are_closed_to_their_holders(
    before: Shared,
    after: Shared,
    removed: PbxCallId,
    held: ChannelBinding,
)
    requires
        before.handles_wf(),
        without_call(before, after, removed),
        before.channels@.contains(held),
    ensures
        held.pbx_id == removed ==> after.held_channel_spec(held.handle) is None,
        held.pbx_id != removed ==> after.held_channel_spec(held.handle)
            == before.held_channel_spec(held.handle),
        after.handles_wf(),
{
    lemma_remaining_channels(before, after, removed);
    let p = held_by(held.handle);
    let old_all = before.channels@ + before.retired@;
    let new_all = after.channels@ + after.retired@;
    let h = choose|h: int| 0 <= h < before.channels@.len() && before.channels@[h] == held;
    assert forall|i: int| 0 <= i < new_all.len() && p(#[trigger] new_all[i]) implies {
        ||| held.pbx_id != removed && new_all[i] == held
        ||| held.pbx_id == removed && new_all[i].closed
    } by {
        if i < after.channels@.len() {
            assert(new_all[i] == after.channels@[i]);
            let k = choose|k: int|
                0 <= k < before.channels@.len() && before.channels@[k] == after.channels@[i];
            assert(handle()(before.channels@[k]) == handle()(before.channels@[h]));
            assert(k == h);
        } else {
            let j = i - after.channels@.len();
            assert(new_all[i] == after.retired@[j]);
            if j < before.retired@.len() {
                assert(after.retired@[j] == before.retired@[j]);
                assert(before.channels@[h].handle != before.retired@[j].handle);
            } else {
                let k = choose|k: int|
                    0 <= k < before.channels@.len() && after.retired@[j] == closing()(
                        #[trigger] before.channels@[k],
                    ) && before.channels@[k].pbx_id == removed;
                assert(handle()(before.channels@[k]) == handle()(before.channels@[h]));
                assert(k == h);
            }
        }
    }
    lookup::lemma_first_at(new_all, p, 0);
    lookup::lemma_first_at(old_all, p, 0);
    assert(old_all[h] == held);
    assert forall|i: int| 0 <= i < old_all.len() && p(#[trigger] old_all[i]) implies old_all[i]
        == held by {
        if i < before.channels@.len() {
            assert(old_all[i] == before.channels@[i]);
            assert(handle()(before.channels@[i]) == handle()(before.channels@[h]));
        } else {
            assert(old_all[i] == before.retired@[i - before.channels@.len()]);
        }
    }
    if held.pbx_id != removed {
        assert(other_channel(removed)(before.channels@[h]));
        before.channels@.lemma_filter_contains(other_channel(removed), h);
        assert(after.channels@.contains(held));
        let k = choose|k: int| 0 <= k < after.channels@.len() && after.channels@[k] == held;
        assert(new_all[k] == held);
    }
    lemma_handles_stay_unique(before, after, removed);
}

/// Taking a call out keeps the handles apart.
proof fn lemma_handles_stay_unique(before: Shared, after: Shared, removed: PbxCallId)
    requires
        before.handles_wf(),
        without_call(before, after, removed),
    ensures
        after.handles_wf(),
{
    lemma_remaining_channels(before, after, removed);
    lookup::lemma_filter_distinct(before.channels@, other_channel(removed), handle());
    lookup::lemma_filter_distinct(before.channels@, channel_of(removed), handle());
    let closed = before.channels@.filter(channel_of(removed));
    let kept = before.retired@.len() as int;
    assert forall|i: int, j: int| 0 <= i < j < after.retired@.len() implies handle()(
        #[trigger] after.retired@[i],
    ) != handle()(#[trigger] after.retired@[j]) by {
        if j < kept {
            assert(after.retired@[i] == before.retired@[i]);
            assert(after.retired@[j] == before.retired@[j]);
        } else {
            assert(after.retired@[j] == closing()(closed[j - kept]));
            lookup::lemma_filter_member(before.channels@, channel_of(removed), j - kept);
            if i < kept {
                assert(after.retired@[i] == before.retired@[i]);
            } else {
                assert(after.retired@[i] == closing()(closed[i - kept]));
                assert(handle()(closed[i - kept]) != handle()(closed[j - kept]));
            }
        }
    }
    assert forall|i: int, j: int|
        0 <= i < after.channels@.len() && 0 <= j < after.retired@.len() implies (
    #[trigger] after.channels@[i]).handle != (#[trigger] after.retired@[j]).handle by {
        let a = choose|a: int|
            0 <= a < before.channels@.len() && before.channels@[a] == after.channels@[i];
        if j < kept {
            assert(after.retired@[j] == before.retired@[j]);
            assert(before.channels@[a].handle != before.retired@[j].handle);
        } else {
            assert(after.retired@[j] == closing()(closed[j - kept]));
            lookup::lemma_filter_member(before.channels@, channel_of(removed), j - kept);
            let b = choose|b: int|
                0 <= b < before.channels@.len() && before.channels@[b] == closed[j - kept];
            assert(a != b);
            if a < b {
                assert(handle()(before.channels@[a]) != handle()(before.channels@[b]));
            } else {
                assert(handle()(before.channels@[b]) != handle()(before.channels@[a]));
            }
        }
    }
    assert forall|j: int| 0 <= j < after.retired@.len() implies lookup::not(is_open())(
        #[trigger] after.retired@[j],
    ) by {
        if j < kept {
            assert(after.retired@[j] == before.retired@[j]);
        } else {
            assert(after.retired@[j] == closing()(closed[j - kept]));
        }
    }
}

/// Removing a channel again changes nothing of the channels, nor of what their
/// holders have.
pub proof fn law_removing_a_channel_again_changes_nothing(
    before: Shared,
    after: Shared,
    again: Shared,
    removed: PbxCallId,
)
    requires
        without_call(before, after, removed),
        without_call(after, again, removed),
    ensures
        again.channels@ == after.channels@,
        again.retired@ == after.retired@,
        again.destinations@ == after.destinations@,
        again.anchored@ == after.anchored@,
        again.controller.runtime@ == after.controller.runtime@,
{
    assert forall|i: int| 0 <= i < after.channels@.len() implies other_channel(removed)(
        #[trigger] after.channels@[i],
    ) by {
        lookup::lemma_filter_member(before.channels@, other_channel(removed), i);
    }
    lookup::lemma_filter_all(after.channels@, other_channel(removed));
    let gone = after.channels@.filter(channel_of(removed));
    if gone.len() > 0 {
        lookup::lemma_filter_member(after.channels@, channel_of(removed), 0);
        let k = choose|k: int| 0 <= k < after.channels@.len() && after.channels@[k] == gone[0];
        assert(other_channel(removed)(after.channels@[k]));
    }
    assert(gone.map_values(closing()) =~= Seq::empty());
    assert forall|i: int| 0 <= i < after.destinations@.len() implies other_id(removed)(
        #[trigger] after.destinations@[i],
    ) by {
        lookup::lemma_filter_member(before.destinations@, other_id(removed), i);
    }
    lookup::lemma_filter_all(after.destinations@, other_id(removed));
    assert forall|i: int| 0 <= i < after.anchored@.len() implies other_id(removed)(
        #[trigger] after.anchored@[i],
    ) by {
        lookup::lemma_filter_member(before.anchored@, other_id(removed), i);
    }
    lookup::lemma_filter_all(after.anchored@, other_id(removed));
    assert forall|i: int| 0 <= i < after.controller.runtime@.len() implies other_record(removed)(
        #[trigger] after.controller.runtime@[i],
    ) by {
        lookup::lemma_filter_member(before.controller.runtime@, other_record(removed), i);
    }
    lookup::lemma_filter_all(after.controller.runtime@, other_record(removed));
}

/// A line of a station is a configured one where there is one at the instance, else
/// one of a guest, else one that roams there.
pub proof fn law_configured_lines_come_before_guests_and_roaming_ones<'a>(
    shared: &'a Shared,
    device_id: DeviceId,
    line_instance: u32,
    binding: Option<&'a LineBinding>,
    b: int,
    g: int,
    m: int,
)
    requires
        call_ensures(runtime_line_binding, (shared, &device_id, line_instance), binding),
        0 <= b <= shared.config.bindings@.len(),
        forall|j: int|
            0 <= j < b ==> !((#[trigger] shared.config.bindings@[j]).device_id@ == device_id@
                && shared.config.bindings@[j].line_instance == line_instance),
        b < shared.config.bindings@.len() ==> shared.config.bindings@[b].device_id@ == device_id@
            && shared.config.bindings@[b].line_instance == line_instance,
        0 <= g <= shared.config.guest_bindings@.len(),
        forall|j: int|
            0 <= j < g ==> !((#[trigger] shared.config.guest_bindings@[j]).device_id@ == device_id@
                && shared.config.guest_bindings@[j].line_instance == line_instance),
        g < shared.config.guest_bindings@.len() ==> shared.config.guest_bindings@[g].device_id@
            == device_id@ && shared.config.guest_bindings@[g].line_instance == line_instance,
        0 <= m <= shared.controller.mobility@.len(),
        forall|j: int|
            0 <= j < m ==> !((#[trigger] shared.controller.mobility@[j]).device_id@ == device_id@
                && shared.controller.mobility@[j].binding.line_instance == line_instance),
        m < shared.controller.mobility@.len() ==> shared.controller.mobility@[m].device_id@
            == device_id@ && shared.controller.mobility@[m].binding.line_instance == line_instance,
    ensures
        shared.binding_spec(device_id@, line_instance) == lookup::target(binding),
        b < shared.config.bindings@.len() ==> binding is Some && *binding->0
            == shared.config.bindings@[b],
        b == shared.config.bindings@.len() && g < shared.config.guest_bindings@.len()
            ==> binding is Some && *binding->0 == shared.config.guest_bindings@[g],
        b == shared.config.bindings@.len() && g == shared.config.guest_bindings@.len() && m
            < shared.controller.mobility@.len() ==> binding is Some && *binding->0
            == shared.controller.mobility@[m].binding,
        b == shared.config.bindings@.len() && g == shared.config.guest_bindings@.len() && m
            == shared.controller.mobility@.len() ==> binding is None,
{
    let p = config::bound_at(device_id@, line_instance);
    let q = controller::roams_at(device_id@, line_instance);
    if b == shared.config.bindings@.len() {
        lookup::lemma_first_none(shared.config.bindings@, p);
    } else {
        lookup::lemma_first_is(shared.config.bindings@, p, b);
    }
    if g == shared.config.guest_bindings@.len() {
        lookup::lemma_first_none(shared.config.guest_bindings@, p);
    } else {
        lookup::lemma_first_is(shared.config.guest_bindings@, p, g);
    }
    if m == shared.controller.mobility@.len() {
        lookup::lemma_first_none(shared.controller.mobility@, q);
    } else {
        lookup::lemma_first_is(shared.controller.mobility@, q, m);
    }
}

/// A call is live while its channel is there and open, retiring while it is there
/// and closed, and operations get only live channels.
pub proof fn law_closed_channels_take_no_operations(
    access: &Access,
    pbx_id: PbxCallId,
    availability: ChannelAvailability,
    binding: Option<&ChannelBinding>,
    channel: Option<&ChannelBinding>,
    referenced: Option<&ChannelBinding>,
    i: int,
)
    requires
        call_ensures(channel_availability, (access, pbx_id), availability),
        call_ensures(channel_binding, (access, pbx_id), binding),
        call_ensures(with_channel, (access, pbx_id), channel),
        call_ensures(referenced_channel, (&access.shared, pbx_id), referenced),
        0 <= i <= access.shared.channels@.len(),
        forall|j: int|
            0 <= j < i ==> (#[trigger] access.shared.channels@[j]).pbx_id != pbx_id,
        i < access.shared.channels@.len() ==> access.shared.channels@[i].pbx_id == pbx_id,
    ensures
        availability == ChannelAvailability::Missing <==> i == access.shared.channels@.len(),
        availability == ChannelAvailability::Live <==> i < access.shared.channels@.len()
            && !access.shared.channels@[i].closed,
        binding is Some <==> i < access.shared.channels@.len(),
        binding matches Some(binding) ==> *binding == access.shared.channels@[i],
        channel is Some <==> availability == ChannelAvailability::Live,
        channel matches Some(channel) ==> *channel == access.shared.channels@[i],
        lookup::target(referenced) == lookup::target(channel),
        access.shared.live_channel_spec(pbx_id) == lookup::target(channel),
{
    let p = channel_of(pbx_id);
    if i == access.shared.channels@.len() {
        lookup::lemma_first_none(access.shared.channels@, p);
    } else {
        lookup::lemma_first_is(access.shared.channels@, p, i);
    }
}

/// Several channels are handed out together or not at all, each for its own call
/// and in the order that was asked for.
pub proof fn law_channels_are_handed_out_together<'a>(
    access: &'a Access,
    first: PbxCallId,
    second: PbxCallId,
    call_ids: Vec<PbxCallId>,
    one: Option<&'a ChannelBinding>,
    other: Option<&'a ChannelBinding>,
    pair: Option<(&'a ChannelBinding, &'a ChannelBinding)>,
    kept: Option<(&'a ChannelBinding, &'a ChannelBinding)>,
    all: Option<Vec<&'a ChannelBinding>>,
    k: int,
)
    requires
        call_ensures(with_channel, (access, first), one),
        call_ensures(with_channel, (access, second), other),
        call_ensures(with_two_channels, (access, first, second), pair),
        call_ensures(retain_two_channels, (access, first, second), kept),
        call_ensures(with_channels, (access, &call_ids), all),
        0 <= k < call_ids@.len(),
        call_ids@[k] == first,
    ensures
        pair is Some <==> one is Some && other is Some,
        pair matches Some(pair) ==> *pair.0 == *one->0 && *pair.1 == *other->0,
        kept == pair,
        all is Some ==> one is Some && *all->0@[k] == *one->0 && all->0@.len() == call_ids@.len(),
        one is None ==> all is None,
{
}

/// A name stands for the call of the open channels that have it; it is ambiguous
/// where they belong to different calls, and stands for nothing where none has it.
pub proof fn law_channel_names_stand_for_one_call(
    shared: &Shared,
    requested: &str,
    found: Result<Option<PbxCallId>, ChannelQueryLookupError>,
    i: int,
    k: int,
)
    requires
        call_ensures(pbx_id_for_channel_name, (shared, requested), found),
        0 <= i < shared.channels@.len(),
        !shared.channels@[i].closed,
        shared.channels@[i].name is Some && shared.channels@[i].name->0@ == requested@,
        0 <= k < shared.channels@.len(),
        !shared.channels@[k].closed,
        shared.channels@[k].name is Some && shared.channels@[k].name->0@ == requested@,
    ensures
        found matches Ok(call) ==> call == Some(shared.channels@[i].pbx_id),
        shared.channels@[i].pbx_id != shared.channels@[k].pbx_id ==> found is Err,
        found matches Err(error) ==> error == ChannelQueryLookupError::AmbiguousChannelName,
{
    let p = is_open_named(requested@);
    assert(p(shared.channels@[i]) && p(shared.channels@[k]));
    lookup::lemma_first_at(shared.channels@, p, 0);
}

/// A name that no open channel has stands for nothing.
pub proof fn law_unknown_channel_names_stand_for_nothing(
    shared: &Shared,
    requested: &str,
    found: Result<Option<PbxCallId>, ChannelQueryLookupError>,
)
    requires
        call_ensures(pbx_id_for_channel_name, (shared, requested), found),
        forall|i: int|
            0 <= i < shared.channels@.len() ==> (#[trigger] shared.channels@[i]).closed
                || shared.channels@[i].name is None || shared.channels@[i].name->0@ != requested@,
    ensures
        found == Ok::<Option<PbxCallId>, ChannelQueryLookupError>(None),
{
    lookup::lemma_first_none(shared.channels@, is_open_named(requested@));
}

/// An address with a part for the station rings the appearance that is configured
/// for it, else the lines of that number that roam on the station; one without
/// rings every appearance of the line, configured or roaming, and nobody else.
pub proof fn law_addresses_ring_their_lines<'a>(
    access: &'a Access,
    address: &str,
    dialed: Option<&'a LineBinding>,
    device_valid: bool,
    bindings: Vec<&'a LineBinding>,
    appearances: Vec<&'a LineBinding>,
    number: &str,
    binding: LineBinding,
)
    requires
        call_ensures(
            Access::inbound_line_bindings,
            (access, address, dialed, device_valid),
            bindings,
        ),
        call_ensures(Access::appearances_of_line, (access, number), appearances),
    ensures
        appearances@.contains(&binding) <==> binding.line.number@ == number@ && (
        access.shared.config.bindings@.contains(binding) || exists|m: int|
            0 <= m < access.shared.controller.mobility@.len() && (
            #[trigger] access.shared.controller.mobility@[m]).binding == binding),
        text::parts_of(address@) is Some && dialed is Some ==> bindings@.len() == 1
            && *bindings@[0] == *dialed->0,
        text::parts_of(address@) is Some && dialed is None && !device_valid ==> bindings@.len()
            == 0,
        text::parts_of(address@) is None && dialed is None ==> bindings@.len() == 0,
        text::parts_of(address@) is None && dialed is Some && dialed->0.line.number@ == number@
            ==> bindings@ == appearances@,
        text::parts_of(address@) is Some && dialed is None && device_valid ==> (bindings@.contains(
            &binding,
        ) <==> exists|m: int|
            0 <= m < access.shared.controller.mobility@.len() && (
            #[trigger] access.shared.controller.mobility@[m]).binding == binding
                && text::parts_of(address@) == Some(
                (access.shared.controller.mobility@[m].device_id@, binding.line.number@),
            )),
{
    let plain = |b: &LineBinding| *b;
    let roaming = access.shared.controller.mobility@;
    lemma_plain(appearances@, plain, binding);
    lemma_plain(bindings@, plain, binding);
    let p = config::shows_line(number@);
    let f = roaming_line(number@);
    lookup::lemma_filter_holds(access.shared.config.bindings@, p, binding);
    lookup::lemma_filter_map_member(roaming, f, binding);
    let own = access.shared.config.bindings@.filter(p);
    let away = roaming.filter_map(f);
    lookup::lemma_sum_holds(own, away, binding);
    if away.contains(binding) {
        let m = choose|m: int| 0 <= m < roaming.len() && f(#[trigger] roaming[m]) == Some(binding);
        assert(roaming[m].binding == binding);
    }
    if binding.line.number@ == number@ && exists|m: int|
        0 <= m < roaming.len() && (#[trigger] roaming[m]).binding == binding {
        let m = choose|m: int| 0 <= m < roaming.len() && (#[trigger] roaming[m]).binding == binding;
        assert(f(roaming[m]) == Some(binding));
    }
    if let Some((device, line)) = text::parts_of(address@) {
        let g = roaming_on(device, line);
        lookup::lemma_filter_map_member(roaming, g, binding);
        if exists|m: int|
            0 <= m < roaming.len() && (#[trigger] roaming[m]).binding == binding
                && roaming[m].device_id@ == device && binding.line.number@ == line {
            let m = choose|m: int|
                0 <= m < roaming.len() && (#[trigger] roaming[m]).binding == binding
                    && roaming[m].device_id@ == device && binding.line.number@ == line;
            assert(g(roaming[m]) == Some(binding));
        }
        if roaming.filter_map(g).contains(binding) {
            let m = choose|m: int|
                0 <= m < roaming.len() && g(#[trigger] roaming[m]) == Some(binding);
            assert(roaming[m].binding == binding);
        }
        if dialed is Some {
            assert(bindings@.map_values(plain).len() == 1);
            assert(bindings@.map_values(plain)[0] == *dialed->0);
        } else if !device_valid {
            assert(bindings@.map_values(plain).len() == 0);
        }
    } else if dialed is None {
        assert(bindings@.map_values(plain).len() == 0);
    } else if dialed->0.line.number@ == number@ {
        assert(bindings@.map_values(plain) == appearances@.map_values(plain));
        assert forall|k: int| 0 <= k < bindings@.len() implies bindings@[k] == appearances@[k] by {
            assert(bindings@.map_values(plain)[k] == appearances@.map_values(plain)[k]);
        }
        assert(bindings@.map_values(plain).len() == appearances@.map_values(plain).len());
        assert(bindings@ =~= appearances@);
    }
}

proof fn lemma_plain<'a>(
    s: Seq<&'a LineBinding>,
    plain: spec_fn(&'a LineBinding) -> LineBinding,
    binding: LineBinding,
)
    requires
        forall|b: &'a LineBinding| #[trigger] plain(b) == *b,
    ensures
        s.contains(&binding) <==> s.map_values(plain).contains(binding),
{
    if s.contains(&binding) {
        let k = choose|k: int| 0 <= k < s.len() && s[k] == &binding;
        assert(s.map_values(plain)[k] == binding);
    }
    if s.map_values(plain).contains(binding) {
        let k = choose|k: int|
            0 <= k < s.map_values(plain).len() && s.map_values(plain)[k] == binding;
        assert(s[k] == &binding);
    }
}

/// Removing a call takes its channels, its records and its reservations away, keeps
/// those of every other call, and retires its channels closed.
pub proof fn law_removed_calls_leave_nothing_behind(
    access: &mut Access,
    pbx_id: PbxCallId,
    retired: RetiredCall,
    channel: ChannelBinding,
    id: PbxCallId,
)
    requires
        call_ensures(remove_channel, (access, pbx_id), retired),
    ensures
        retired.pbx_id == pbx_id,
        retired.cancels_destination <==> old(access).shared.destinations@.contains(pbx_id),
        final(access).shared.channels@.contains(channel) <==> old(access).shared.channels@.contains(
            channel,
        ) && channel.pbx_id != pbx_id,
        final(access).shared.destinations@.contains(id) <==> old(
            access,
        ).shared.destinations@.contains(id) && id != pbx_id,
        final(access).shared.anchored@.contains(id) <==> old(access).shared.anchored@.contains(id)
            && id != pbx_id,
        old(access).shared.channels@.contains(channel) && channel.pbx_id == pbx_id
            ==> final(access).shared.retired@.contains(
            (ChannelBinding { closed: true, ..channel }),
        ),
        final(access).shared.config == old(access).shared.config,
        final(access).shared.controller.calls == old(access).shared.controller.calls,
        final(access).shared.controller.appearances == old(access).shared.controller.appearances,
{
    let before = old(access).shared;
    lookup::lemma_filter_holds(before.channels@, other_channel(pbx_id), channel);
    lookup::lemma_filter_holds(before.channels@, channel_of(pbx_id), channel);
    lookup::lemma_filter_holds(before.destinations@, other_id(pbx_id), id);
    lookup::lemma_filter_holds(before.anchored@, other_id(pbx_id), id);
    if before.channels@.contains(channel) && channel.pbx_id == pbx_id {
        let own = before.channels@.filter(channel_of(pbx_id));
        let k = choose|k: int| 0 <= k < own.len() && own[k] == channel;
        assert(own.map_values(closing())[k] == (ChannelBinding { closed: true, ..channel }));
        assert(final(access).shared.retired@[before.retired@.len() + k] == (ChannelBinding {
            closed: true,
            ..channel
        }));
    }
}

/// The line of a button is the configured one, before the one of a guest, and that
/// before a roaming one.
pub proof fn law_configured_lines_come_first(
    access: &Access,
    device_id: DeviceId,
    line_instance: u32,
    binding: Option<&LineBinding>,
    c: int,
    g: int,
    m: int,
)
    requires
        call_ensures(Access::line_binding, (access, &device_id, line_instance), binding),
        0 <= c <= access.shared.config.bindings@.len(),
        forall|j: int|
            0 <= j < c ==> !((#[trigger] access.shared.config.bindings@[j]).device_id@
                == device_id@ && access.shared.config.bindings@[j].line_instance == line_instance),
        c < access.shared.config.bindings@.len() ==> access.shared.config.bindings@[c].device_id@
            == device_id@ && access.shared.config.bindings@[c].line_instance == line_instance,
        0 <= g <= access.shared.config.guest_bindings@.len(),
        forall|j: int|
            0 <= j < g ==> !((#[trigger] access.shared.config.guest_bindings@[j]).device_id@
                == device_id@ && access.shared.config.guest_bindings@[j].line_instance
                == line_instance),
        g < access.shared.config.guest_bindings@.len()
            ==> access.shared.config.guest_bindings@[g].device_id@ == device_id@
            && access.shared.config.guest_bindings@[g].line_instance == line_instance,
        0 <= m <= access.shared.controller.mobility@.len(),
        forall|j: int|
            0 <= j < m ==> !((#[trigger] access.shared.controller.mobility@[j]).device_id@
                == device_id@ && access.shared.controller.mobility@[j].binding.line_instance
                == line_instance),
        m < access.shared.controller.mobility@.len()
            ==> access.shared.controller.mobility@[m].device_id@ == device_id@
            && access.shared.controller.mobility@[m].binding.line_instance == line_instance,
    ensures
        binding is Some <==> c < access.shared.config.bindings@.len() || g
            < access.shared.config.guest_bindings@.len() || m
            < access.shared.controller.mobility@.len(),
        c < access.shared.config.bindings@.len() ==> (binding matches Some(line) && *line
            == access.shared.config.bindings@[c]),
        c == access.shared.config.bindings@.len() && g < access.shared.config.guest_bindings@.len()
            ==> (binding matches Some(line) && *line == access.shared.config.guest_bindings@[g]),
        c == access.shared.config.bindings@.len() && g
            == access.shared.config.guest_bindings@.len() && m
            < access.shared.controller.mobility@.len() ==> (binding matches Some(line) && *line
            == access.shared.controller.mobility@[m].binding),
{
    let p = config::bound_at(device_id@, line_instance);
    let q = controller::roams_at(device_id@, line_instance);
    if c == access.shared.config.bindings@.len() {
        lookup::lemma_first_none(access.shared.config.bindings@, p);
    } else {
        lookup::lemma_first_is(access.shared.config.bindings@, p, c);
    }
    if g == access.shared.config.guest_bindings@.len() {
        lookup::lemma_first_none(access.shared.config.guest_bindings@, p);
    } else {
        lookup::lemma_first_is(access.shared.config.guest_bindings@, p, g);
    }
    if m == access.shared.controller.mobility@.len() {
        lookup::lemma_first_none(access.shared.controller.mobility@, q);
    } else {
        lookup::lemma_first_is(access.shared.controller.mobility@, q, m);
    }
}

/// A channel is entered by its handle while it is open, and the open channels are
/// those that are referenced.
pub proof fn law_channels_are_entered_while_open<'a>(
    access: &'a Access,
    handle: u64,
    channel: Option<&'a ChannelBinding>,
    referenced: Vec<&'a ChannelBinding>,
    ids: Vec<DeviceId>,
    i: int,
    k: int,
    s: int,
)
    requires
        call_ensures(enter_channel, (access, handle), channel),
        call_ensures(referenced_channels, (&access.shared,), referenced),
        call_ensures(registered_device_ids, (&access.shared,), ids),
        0 <= i < access.shared.channels@.len(),
        forall|j: int| 0 <= j < i ==> (#[trigger] access.shared.channels@[j]).handle != handle,
        access.shared.channels@[i].handle == handle,
        0 <= k < referenced@.len(),
        0 <= s < access.shared.controller.registered@.len(),
    ensures
        channel is Some <==> !access.shared.channels@[i].closed,
        channel matches Some(found) ==> *found == access.shared.channels@[i],
        !referenced@[k].closed,
        access.shared.channels@.contains(*referenced@[k]),
        ids@.len() == access.shared.controller.registered@.len(),
        ids@[s] == access.shared.controller.registered@[s].id,
{
    let all = access.shared.channels@ + access.shared.retired@;
    let p = held_by(handle);
    assert forall|j: int| 0 <= j < i implies !p(#[trigger] all[j]) by {
        assert(all[j] == access.shared.channels@[j]);
    }
    assert(all[i] == access.shared.channels@[i]);
    lookup::lemma_first_is(all, p, i);
    let open = access.shared.channels@.filter(is_open());
    assert(referenced@.map_values(|c: &ChannelBinding| *c)[k] == *referenced@[k]);
    assert(open[k] == *referenced@[k]);
    assert(open.contains(*referenced@[k]));
    lookup::lemma_filter_holds(access.shared.channels@, is_open(), *referenced@[k]);
}

} // verus!
