//! Lookups in a snapshot of stations and calls.

use vstd::prelude::*;

use crate::collect::{position, split_off};
use crate::ids::{CallId, DeviceId, PbxCallId, SessionGeneration};
use crate::lookup;
use crate::model::{
    CallAppearance, CallMetadata, CallRuntimeRecord, CallState, ControllerSnapshot, DeviceFeatureState,
    DeviceFeatures, ForwardingEntryKey, LineBinding, MobilityAppearance, PbxCall, RegisteredDevice,
};

verus! {

/// The station is `device`.
pub open spec fn is_station(device: Seq<char>) -> spec_fn(RegisteredDevice) -> bool {
    |d: RegisteredDevice| d.id@ == device
}

/// The features belong to `device`.
pub open spec fn features_of(device: Seq<char>) -> spec_fn(DeviceFeatures) -> bool {
    |f: DeviceFeatures| f.device_id@ == device
}

/// The call is the one the switch numbers `pbx_id`.
pub open spec fn is_pbx_call(pbx_id: PbxCallId) -> spec_fn(PbxCall) -> bool {
    |c: PbxCall| c.pbx_id == pbx_id
}

/// The appearance is the one the handset numbers `call_id`.
pub open spec fn is_call(call_id: CallId) -> spec_fn(CallAppearance) -> bool {
    |a: CallAppearance| a.sccp_id == call_id
}

/// The record belongs to the call `pbx_id`.
pub open spec fn record_of(pbx_id: PbxCallId) -> spec_fn(CallRuntimeRecord) -> bool {
    |r: CallRuntimeRecord| r.pbx_id == pbx_id
}

/// The roaming appearance stands on `device` at line `instance`.
pub open spec fn roams_at(device: Seq<char>, instance: u32) -> spec_fn(MobilityAppearance) -> bool {
    |m: MobilityAppearance| m.device_id@ == device && m.binding.line_instance == instance
}

/// The entry collects a destination on `call_id`.
pub open spec fn collects_on(call_id: CallId) -> spec_fn(ForwardingEntryKey) -> bool {
    |e: ForwardingEntryKey| e.call_id == call_id
}

impl ControllerSnapshot {
    /// `device` has registered and its registration still stands.
    pub open spec fn registered_spec(self, device: Seq<char>) -> bool {
        lookup::some(self.registered@, is_station(device))
    }

    /// The registration `generation` of `device` is the one that stands.
    pub open spec fn session_current_spec(
        self,
        device: Seq<char>,
        generation: SessionGeneration,
    ) -> bool {
        lookup::first(self.registered@, is_station(device)) matches Some(d) && d.session_generation
            == generation
    }

    /// The switch's number for `call_id`, where `device` shows that call.
    pub open spec fn owned_pbx_spec(self, device: Seq<char>, call_id: CallId) -> Option<PbxCallId> {
        match lookup::first(self.appearances@, is_call(call_id)) {
            Some(a) => if a.device_id@ == device {
                Some(a.pbx_id)
            } else {
                None
            },
            None => None,
        }
    }

    pub open spec fn call_state_spec(self, call_id: CallId) -> Option<CallState> {
        match lookup::first(self.appearances@, is_call(call_id)) {
            Some(a) => Some(a.state),
            None => None,
        }
    }

    /// The registration of `device` that stands.
    pub fn registered_device(&self, device: &DeviceId) -> (found: Option<&RegisteredDevice>)
        ensures
            lookup::target(found) == lookup::first(self.registered@, is_station(device@)),
    {
        let ghost p = is_station(device@);
        let mut i: usize = 0;
        while i < self.registered.len()
            invariant
                p == is_station(device@),
                0 <= i <= self.registered@.len(),
                lookup::first_at(self.registered@, p, 0) == lookup::first_at(self.registered@, p, i as int),
            decreases self.registered@.len() - i,
        {
            if self.registered[i].id.same(device) {
                return Some(&self.registered[i]);
            }
            i += 1;
        }
        None
    }

    /// The call that the switch numbers `pbx_id`.
    pub fn pbx_call(&self, pbx_id: PbxCallId) -> (found: Option<&PbxCall>)
        ensures
            lookup::target(found) == lookup::first(self.calls@, is_pbx_call(pbx_id)),
    {
        let ghost p = is_pbx_call(pbx_id);
        let mut i: usize = 0;
        while i < self.calls.len()
            invariant
                p == is_pbx_call(pbx_id),
                0 <= i <= self.calls@.len(),
                lookup::first_at(self.calls@, p, 0) == lookup::first_at(self.calls@, p, i as int),
            decreases self.calls@.len() - i,
        {
            if self.calls[i].pbx_id == pbx_id {
                return Some(&self.calls[i]);
            }
            i += 1;
        }
        None
    }

    /// The appearance that the handset numbers `call_id`.
    pub fn call(&self, call_id: CallId) -> (found: Option<&CallAppearance>)
        ensures
            lookup::target(found) == lookup::first(self.appearances@, is_call(call_id)),
    {
        let ghost p = is_call(call_id);
        let mut i: usize = 0;
        while i < self.appearances.len()
            invariant
                p == is_call(call_id),
                0 <= i <= self.appearances@.len(),
                lookup::first_at(self.appearances@, p, 0) == lookup::first_at(self.appearances@, p, i as int),
            decreases self.appearances@.len() - i,
        {
            if self.appearances[i].sccp_id == call_id {
                return Some(&self.appearances[i]);
            }
            i += 1;
        }
        None
    }

    /// Values kept for the call `pbx_id`.
    pub fn call_runtime_record(&self, pbx_id: PbxCallId) -> (found: Option<&CallRuntimeRecord>)
        ensures
            lookup::target(found) == lookup::first(self.runtime@, record_of(pbx_id)),
    {
        let ghost p = record_of(pbx_id);
        let mut i: usize = 0;
        while i < self.runtime.len()
            invariant
                p == record_of(pbx_id),
                0 <= i <= self.runtime@.len(),
                lookup::first_at(self.runtime@, p, 0) == lookup::first_at(self.runtime@, p, i as int),
            decreases self.runtime@.len() - i,
        {
            if self.runtime[i].pbx_id == pbx_id {
                return Some(&self.runtime[i]);
            }
            i += 1;
        }
        None
    }

    /// The destination entry open on `call_id`.
    pub fn forwarding_entry(&self, call_id: CallId) -> (found: Option<&ForwardingEntryKey>)
        ensures
            lookup::target(found) == lookup::first(self.forwarding_entries@, collects_on(call_id)),
    {
        let ghost p = collects_on(call_id);
        let mut i: usize = 0;
        while i < self.forwarding_entries.len()
            invariant
                p == collects_on(call_id),
                0 <= i <= self.forwarding_entries@.len(),
                lookup::first_at(self.forwarding_entries@, p, 0) == lookup::first_at(self.forwarding_entries@, p, i as int),
            decreases self.forwarding_entries@.len() - i,
        {
            if self.forwarding_entries[i].call_id == call_id {
                return Some(&self.forwarding_entries[i]);
            }
            i += 1;
        }
        None
    }

    /// The feature state kept for `device`.
    pub fn features_entry(&self, device: &DeviceId) -> (found: Option<&DeviceFeatures>)
        ensures
            lookup::target(found) == lookup::first(self.features@, features_of(device@)),
    {
        let ghost p = features_of(device@);
        let mut i: usize = 0;
        while i < self.features.len()
            invariant
                p == features_of(device@),
                0 <= i <= self.features@.len(),
                lookup::first_at(self.features@, p, 0) == lookup::first_at(self.features@, p, i as int),
            decreases self.features@.len() - i,
        {
            if self.features[i].device_id.same(device) {
                return Some(&self.features[i]);
            }
            i += 1;
        }
        None
    }

    /// The roaming appearance on `device` at line `instance`.
    pub fn mobility_appearance(&self, device: &DeviceId, instance: u32) -> (found: Option<&MobilityAppearance>)
        ensures
            lookup::target(found) == lookup::first(self.mobility@, roams_at(device@, instance)),
    {
        let ghost p = roams_at(device@, instance);
        let mut i: usize = 0;
        while i < self.mobility.len()
            invariant
                p == roams_at(device@, instance),
                0 <= i <= self.mobility@.len(),
                lookup::first_at(self.mobility@, p, 0) == lookup::first_at(self.mobility@, p, i as int),
            decreases self.mobility@.len() - i,
        {
            if self.mobility[i].device_id.same(device) && self.mobility[i].binding.line_instance
                == instance {
                return Some(&self.mobility[i]);
            }
            i += 1;
        }
        None
    }

    pub fn is_registered(&self, device: &DeviceId) -> (registered: bool)
        ensures
            registered == self.registered_spec(device@),
    {
        proof {
            lookup::lemma_first_is_some(self.registered@, is_station(device@));
        }
        self.registered_device(device).is_some()
    }

    pub fn session_is_current(&self, device: &DeviceId, generation: SessionGeneration) -> (current:
        bool)
        ensures
            current == self.session_current_spec(device@, generation),
    {
        match self.registered_device(device) {
            Some(found) => found.session_generation == generation,
            None => false,
        }
    }

    /// What `device` set up; `None` before it has a state.
    pub fn feature_state(&self, device: &DeviceId) -> (state: Option<&DeviceFeatureState>)
        ensures
            match lookup::first(self.features@, features_of(device@)) {
                Some(f) => state == Some(&f.state),
                None => state is None,
            },
    {
        match self.features_entry(device) {
            Some(found) => Some(&found.state),
            None => None,
        }
    }

    /// Gives `device` other features, and hands back those before.
    pub fn set_feature_state(&mut self, device: &DeviceId, state: DeviceFeatureState) -> (previous:
        Option<DeviceFeatureState>)
        ensures
            *final(self) == (ControllerSnapshot { features: final(self).features, ..*old(self) }),
            previous == match lookup::first(old(self).features@, features_of(device@)) {
                Some(found) => Some(found.state),
                None => None,
            },
            lookup::first(final(self).features@, features_of(device@)) matches Some(found)
                && found.state == state,
            forall|other: Seq<char>|
                other != device@ ==> #[trigger] lookup::first(
                    final(self).features@,
                    features_of(other),
                ) == lookup::first(old(self).features@, features_of(other)),
    {
        let ghost before = self.features@;
        let ghost p = features_of(device@);
        let mut taken = split_off(
            &mut self.features,
            |features: &DeviceFeatures| -> (found: bool)
                ensures
                    found == (features.device_id@ == device@)
                { features.device_id.same(device) },
            Ghost(p),
        );
        let ghost kept = self.features@;
        let entry = DeviceFeatures { device_id: device.clone(), state };
        self.features.push(entry);
        proof {
            lookup::lemma_first_is_filter_first(before, p);
            lookup::lemma_first_is_filter_first(kept, p);
            lookup::lemma_first_push(kept, entry, p);
            assert(kept.filter(p).len() == 0) by {
                if kept.filter(p).len() > 0 {
                    lookup::lemma_filter_member(kept, p, 0);
                    let x = kept.filter(p)[0];
                    let i = choose|i: int| 0 <= i < kept.len() && kept[i] == x;
                    lookup::lemma_filter_member(before, lookup::not(p), i);
                }
            }
            assert forall|other: Seq<char>| other != device@ implies #[trigger] lookup::first(
                self.features@,
                features_of(other),
            ) == lookup::first(before, features_of(other)) by {
                lookup::lemma_first_of_filter(before, lookup::not(p), features_of(other));
                lookup::lemma_first_push(kept, entry, features_of(other));
            }
        }
        if taken.len() > 0 {
            Some(taken.remove(0).state)
        } else {
            None
        }
    }

    /// Gives the call `pbx_id` other metadata, where there is such a call.
    pub fn set_call_metadata(&mut self, pbx_id: PbxCallId, metadata: CallMetadata) -> (found: bool)
        ensures
            *final(self) == (ControllerSnapshot { calls: final(self).calls, ..*old(self) }),
            match lookup::first_at(old(self).calls@, is_pbx_call(pbx_id), 0) {
                Some(i) => {
                    &&& found
                    &&& final(self).calls@ == old(self).calls@.update(
                        i,
                        PbxCall { metadata, ..old(self).calls@[i] },
                    )
                },
                None => !found && final(self).calls@ == old(self).calls@,
            },
    {
        let ghost before = self.calls@;
        match position(
            &self.calls,
            |call: &PbxCall| -> (found: bool)
                ensures
                    found == (call.pbx_id == pbx_id)
                { call.pbx_id == pbx_id },
            Ghost(is_pbx_call(pbx_id)),
        ) {
            Some(i) => {
                proof {
                    lookup::lemma_first_at(before, is_pbx_call(pbx_id), 0);
                }
                let call = self.calls.remove(i);
                let changed = PbxCall { metadata, ..call };
                self.calls.insert(i, changed);
                proof {
                    assert(self.calls@ =~= before.update(i as int, changed));
                }
                true
            },
            None => false,
        }
    }

    /// The binding of the roaming appearance on `device` at line `instance`.
    pub fn binding_for_device(&self, device: &DeviceId, instance: u32) -> (binding: Option<
        &LineBinding,
    >)
        ensures
            match lookup::first(self.mobility@, roams_at(device@, instance)) {
                Some(m) => binding == Some(&m.binding),
                None => binding is None,
            },
    {
        match self.mobility_appearance(device, instance) {
            Some(found) => Some(&found.binding),
            None => None,
        }
    }

    pub fn call_state(&self, call_id: CallId) -> (state: Option<CallState>)
        ensures
            state == self.call_state_spec(call_id),
    {
        match self.call(call_id) {
            Some(found) => Some(found.state),
            None => None,
        }
    }

    /// The switch's number of `call_id`, if `device` is the station that shows
    /// that call.
    pub fn owned_pbx_call(&self, device: &DeviceId, call_id: CallId) -> (owned: Option<PbxCallId>)
        ensures
            owned == self.owned_pbx_spec(device@, call_id),
    {
        match self.call(call_id) {
            Some(found) => if found.device_id.same(device) {
                Some(found.pbx_id)
            } else {
                None
            },
            None => None,
        }
    }
}

/// A station is found under its name and is registered exactly if it is found; its
/// session is current exactly if it is the one that it registered last.
pub proof fn law_stations_are_found_under_their_name(
    snapshot: ControllerSnapshot,
    device: DeviceId,
    generation: SessionGeneration,
    found: Option<&RegisteredDevice>,
    registered: bool,
    current: bool,
    i: int,
)
    requires
        call_ensures(ControllerSnapshot::registered_device, (&snapshot, &device), found),
        call_ensures(ControllerSnapshot::is_registered, (&snapshot, &device), registered),
        call_ensures(
            ControllerSnapshot::session_is_current,
            (&snapshot, &device, generation),
            current,
        ),
        0 <= i <= snapshot.registered@.len(),
        forall|j: int| 0 <= j < i ==> (#[trigger] snapshot.registered@[j]).id@ != device@,
        i < snapshot.registered@.len() ==> snapshot.registered@[i].id@ == device@,
    ensures
        found is Some <==> i < snapshot.registered@.len(),
        found matches Some(found) ==> *found == snapshot.registered@[i],
        registered <==> i < snapshot.registered@.len(),
        current <==> i < snapshot.registered@.len() && snapshot.registered@[i].session_generation
            == generation,
        snapshot.registered_spec(device@) == registered,
        snapshot.session_current_spec(device@, generation) == current,
{
    let p = is_station(device@);
    if i == snapshot.registered@.len() {
        lookup::lemma_first_none(snapshot.registered@, p);
    } else {
        lookup::lemma_first_is(snapshot.registered@, p, i);
        assert(p(snapshot.registered@[i]));
    }
}

/// A call is found under its number on the station, with its own state, and belongs
/// to the station that it is on.
pub proof fn law_calls_are_found_under_their_number(
    snapshot: ControllerSnapshot,
    device: DeviceId,
    call_id: CallId,
    found: Option<&CallAppearance>,
    state: Option<CallState>,
    owned: Option<PbxCallId>,
    i: int,
)
    requires
        call_ensures(ControllerSnapshot::call, (&snapshot, call_id), found),
        call_ensures(ControllerSnapshot::call_state, (&snapshot, call_id), state),
        call_ensures(ControllerSnapshot::owned_pbx_call, (&snapshot, &device, call_id), owned),
        0 <= i <= snapshot.appearances@.len(),
        forall|j: int| 0 <= j < i ==> (#[trigger] snapshot.appearances@[j]).sccp_id != call_id,
        i < snapshot.appearances@.len() ==> snapshot.appearances@[i].sccp_id == call_id,
    ensures
        found is Some <==> i < snapshot.appearances@.len(),
        found matches Some(found) ==> *found == snapshot.appearances@[i],
        state is Some <==> found is Some,
        state matches Some(state) ==> state == snapshot.appearances@[i].state,
        owned is Some <==> found is Some && snapshot.appearances@[i].device_id@ == device@,
        owned matches Some(owned) ==> owned == snapshot.appearances@[i].pbx_id,
        snapshot.call_state_spec(call_id) == state,
        snapshot.owned_pbx_spec(device@, call_id) == owned,
{
    let p = is_call(call_id);
    if i == snapshot.appearances@.len() {
        lookup::lemma_first_none(snapshot.appearances@, p);
    } else {
        lookup::lemma_first_is(snapshot.appearances@, p, i);
    }
}

/// What the switch calls a call, what is noted of it and who enters a destination
/// on it are found under its number.
pub proof fn law_records_are_found_under_their_call(
    snapshot: ControllerSnapshot,
    pbx_id: PbxCallId,
    call_id: CallId,
    call: Option<&PbxCall>,
    record: Option<&CallRuntimeRecord>,
    entry: Option<&ForwardingEntryKey>,
    c: int,
    r: int,
    e: int,
)
    requires
        call_ensures(ControllerSnapshot::pbx_call, (&snapshot, pbx_id), call),
        call_ensures(ControllerSnapshot::call_runtime_record, (&snapshot, pbx_id), record),
        call_ensures(ControllerSnapshot::forwarding_entry, (&snapshot, call_id), entry),
        0 <= c <= snapshot.calls@.len(),
        forall|j: int| 0 <= j < c ==> (#[trigger] snapshot.calls@[j]).pbx_id != pbx_id,
        c < snapshot.calls@.len() ==> snapshot.calls@[c].pbx_id == pbx_id,
        0 <= r <= snapshot.runtime@.len(),
        forall|j: int| 0 <= j < r ==> (#[trigger] snapshot.runtime@[j]).pbx_id != pbx_id,
        r < snapshot.runtime@.len() ==> snapshot.runtime@[r].pbx_id == pbx_id,
        0 <= e <= snapshot.forwarding_entries@.len(),
        forall|j: int|
            0 <= j < e ==> (#[trigger] snapshot.forwarding_entries@[j]).call_id != call_id,
        e < snapshot.forwarding_entries@.len() ==> snapshot.forwarding_entries@[e].call_id
            == call_id,
    ensures
        call is Some <==> c < snapshot.calls@.len(),
        call matches Some(call) ==> *call == snapshot.calls@[c],
        record is Some <==> r < snapshot.runtime@.len(),
        record matches Some(record) ==> *record == snapshot.runtime@[r],
        entry is Some <==> e < snapshot.forwarding_entries@.len(),
        entry matches Some(entry) ==> *entry == snapshot.forwarding_entries@[e],
{
    if c == snapshot.calls@.len() {
        lookup::lemma_first_none(snapshot.calls@, is_pbx_call(pbx_id));
    } else {
        lookup::lemma_first_is(snapshot.calls@, is_pbx_call(pbx_id), c);
    }
    if r == snapshot.runtime@.len() {
        lookup::lemma_first_none(snapshot.runtime@, record_of(pbx_id));
    } else {
        lookup::lemma_first_is(snapshot.runtime@, record_of(pbx_id), r);
    }
    if e == snapshot.forwarding_entries@.len() {
        lookup::lemma_first_none(snapshot.forwarding_entries@, collects_on(call_id));
    } else {
        lookup::lemma_first_is(snapshot.forwarding_entries@, collects_on(call_id), e);
    }
}

/// The features of a station are found under its name, and a roaming line at the
/// instance that it has on the station.
pub proof fn law_features_and_roaming_lines_are_found(
    snapshot: ControllerSnapshot,
    device: DeviceId,
    instance: u32,
    entry: Option<&DeviceFeatures>,
    state: Option<&DeviceFeatureState>,
    roaming: Option<&MobilityAppearance>,
    binding: Option<&LineBinding>,
    f: int,
    m: int,
)
    requires
        call_ensures(ControllerSnapshot::features_entry, (&snapshot, &device), entry),
        call_ensures(ControllerSnapshot::feature_state, (&snapshot, &device), state),
        call_ensures(
            ControllerSnapshot::mobility_appearance,
            (&snapshot, &device, instance),
            roaming,
        ),
        call_ensures(
            ControllerSnapshot::binding_for_device,
            (&snapshot, &device, instance),
            binding,
        ),
        0 <= f <= snapshot.features@.len(),
        forall|j: int| 0 <= j < f ==> (#[trigger] snapshot.features@[j]).device_id@ != device@,
        f < snapshot.features@.len() ==> snapshot.features@[f].device_id@ == device@,
        0 <= m <= snapshot.mobility@.len(),
        forall|j: int|
            0 <= j < m ==> !((#[trigger] snapshot.mobility@[j]).device_id@ == device@
                && snapshot.mobility@[j].binding.line_instance == instance),
        m < snapshot.mobility@.len() ==> snapshot.mobility@[m].device_id@ == device@
            && snapshot.mobility@[m].binding.line_instance == instance,
    ensures
        entry is Some <==> f < snapshot.features@.len(),
        entry matches Some(entry) ==> *entry == snapshot.features@[f],
        state is Some <==> entry is Some,
        state matches Some(state) ==> *state == snapshot.features@[f].state,
        roaming is Some <==> m < snapshot.mobility@.len(),
        roaming matches Some(roaming) ==> *roaming == snapshot.mobility@[m],
        binding is Some <==> roaming is Some,
        binding matches Some(binding) ==> *binding == snapshot.mobility@[m].binding,
{
    if f == snapshot.features@.len() {
        lookup::lemma_first_none(snapshot.features@, features_of(device@));
    } else {
        lookup::lemma_first_is(snapshot.features@, features_of(device@), f);
    }
    if m == snapshot.mobility@.len() {
        lookup::lemma_first_none(snapshot.mobility@, roams_at(device@, instance));
    } else {
        lookup::lemma_first_is(snapshot.mobility@, roams_at(device@, instance), m);
    }
}

/// Features that are set are those of the station afterwards, the former ones are
/// handed out, and nothing else changes; metadata are set on their own call alone.
pub proof fn law_changes_of_the_snapshot_stay_local(
    featured: &mut ControllerSnapshot,
    noted: &mut ControllerSnapshot,
    device: DeviceId,
    state: DeviceFeatureState,
    pbx_id: PbxCallId,
    metadata: CallMetadata,
    previous: Option<DeviceFeatureState>,
    found: bool,
    f: int,
    c: int,
    k: int,
)
    requires
        call_ensures(
            ControllerSnapshot::set_feature_state,
            (featured, &device, state),
            previous,
        ),
        call_ensures(ControllerSnapshot::set_call_metadata, (noted, pbx_id, metadata), found),
        0 <= f <= old(featured).features@.len(),
        forall|j: int|
            0 <= j < f ==> (#[trigger] old(featured).features@[j]).device_id@ != device@,
        f < old(featured).features@.len() ==> old(featured).features@[f].device_id@ == device@,
        0 <= c <= old(noted).calls@.len(),
        forall|j: int| 0 <= j < c ==> (#[trigger] old(noted).calls@[j]).pbx_id != pbx_id,
        c < old(noted).calls@.len() ==> old(noted).calls@[c].pbx_id == pbx_id,
        0 <= k < old(noted).calls@.len(),
    ensures
        previous is Some <==> f < old(featured).features@.len(),
        previous matches Some(previous) ==> previous == old(featured).features@[f].state,
        final(featured).appearances == old(featured).appearances && final(featured).calls == old(
            featured,
        ).calls && final(featured).registered == old(featured).registered,
        found <==> c < old(noted).calls@.len(),
        final(noted).calls@.len() == old(noted).calls@.len(),
        found && k == c ==> final(noted).calls@[k].metadata == metadata
            && final(noted).calls@[k].pbx_id == pbx_id && final(noted).calls@[k].state == old(
            noted,
        ).calls@[k].state && final(noted).calls@[k].line == old(noted).calls@[k].line,
        k != c ==> final(noted).calls@[k] == old(noted).calls@[k],
        final(noted).appearances == old(noted).appearances,
{
    if f == old(featured).features@.len() {
        lookup::lemma_first_none(old(featured).features@, features_of(device@));
    } else {
        lookup::lemma_first_is(old(featured).features@, features_of(device@), f);
    }
    if c == old(noted).calls@.len() {
        lookup::lemma_first_none(old(noted).calls@, is_pbx_call(pbx_id));
    } else {
        lookup::lemma_first_is(old(noted).calls@, is_pbx_call(pbx_id), c);
    }
}

} // verus!
