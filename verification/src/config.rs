//! Configured policy of the driver, of its stations and of its lines.

use vstd::prelude::*;

use crate::collect::select;
use crate::ids::DeviceId;
use crate::lifecycle::{CallAnswerOrder, FallbackRegistration};
use crate::lookup;
use crate::model::{
    AudioEncryptionPolicy, AudioFraming, AudioProcessingPolicy, Codec, IpAddress, LineBinding,
    LineConfig, NatMode, NetworkPolicy, QosPolicy,
};
use crate::text::same_text;

verus! {

#[derive(Clone, Copy, Debug, PartialEq, Eq, Structural)]
pub enum ConfigurationSource {
    File,
    Realtime,
    Sorcery,
}

/// A range of addresses that counts as local.
#[derive(Clone, Copy, Debug, PartialEq, Eq, Structural)]
pub struct NetworkRange {
    pub address: IpAddress,
    pub prefix: u8,
}

/// Addresses that are announced in place of the local ones.
#[derive(Clone, Copy, Debug, PartialEq, Eq, Structural)]
pub struct AdvertisedAddresses {
    pub ipv4: Option<IpAddress>,
    pub ipv6: Option<IpAddress>,
}

#[derive(Debug, PartialEq, Eq)]
pub struct GeneralNetwork {
    pub nat: NatMode,
    pub local_networks: Vec<NetworkRange>,
    pub advertised: AdvertisedAddresses,
}

#[derive(Debug, PartialEq, Eq)]
pub struct GeneralConfig {
    pub configuration_source: ConfigurationSource,
    pub bind: IpAddress,
    pub codecs: Vec<Codec>,
    pub qos: QosPolicy,
    pub network: GeneralNetwork,
    pub jitter_buffer_forced: bool,
    pub transfer_on_hangup: bool,
    /// Used where no policy of a line applies.
    pub audio_processing_default: AudioProcessingPolicy,
    /// Used where a call asks for nothing else.
    pub audio_framing_default: AudioFraming,
    pub timezone: Option<TimeZone>,
    pub audio_encryption: AudioEncryptionPolicy,
    pub signaling: SignalingConfig,
}

/// Where a socket listens.
#[derive(Clone, Copy, Debug, PartialEq, Eq, Structural)]
pub struct SocketBind {
    pub address: IpAddress,
    pub port: u16,
}

/// What stations are told when they register, and how they dial.
#[derive(Debug, PartialEq, Eq)]
pub struct SignalingConfig {
    pub clear_listener: Option<SocketBind>,
    pub advertised_address: Option<IpAddress>,
    pub server_name: String,
    pub keepalive_seconds: u32,
    pub secondary_keepalive_seconds: u32,
    pub signaling_servers: Vec<String>,
    pub fallback_registration: FallbackRegistration,
    pub dial_terminator: Option<char>,
    pub record_dial_terminator: bool,
    pub simulate_enbloc: bool,
    pub first_digit_timeout_ms: u64,
    pub interdigit_timeout_ms: u64,
    pub call_answer_order: CallAnswerOrder,
    pub timezone_offset_minutes: i32,
    pub date_template: String,
}

/// Tones that a line plays, as handsets number them.
#[derive(Debug, PartialEq, Eq)]
pub struct DialTones {
    pub inside: u32,
    pub outside: u32,
}

/// A time zone that stations can show.
#[derive(Clone, Copy, Debug, PartialEq, Eq, Structural)]
pub struct TimeZone(pub u32);

#[derive(Clone, Copy, Debug, PartialEq, Eq, Structural)]
pub enum DndScheduleMode {
    Silent,
    Reject,
}

/// A recurring time at which a station is not to be disturbed.
#[derive(Debug, PartialEq, Eq)]
pub struct DndSchedule {
    pub mode: DndScheduleMode,
    /// The rule as it is written.
    pub text: String,
}

impl Clone for DndSchedule {
    fn clone(&self) -> (copy: Self)
        ensures
            copy == *self,
    {
        DndSchedule { mode: self.mode, text: self.text.clone() }
    }
}

#[derive(Clone, Copy, Debug, PartialEq, Eq, Structural)]
pub enum ButtonType {
    DoNotDisturb,
    ForwardAll,
    ForwardBusy,
    ForwardNoAnswer,
    ParkingLot,
    Mobility,
    Feature,
    Other(u32),
}

/// A button of a station, as far as the driver acts on it.
#[derive(Clone, Copy, Debug, PartialEq, Eq, Structural)]
pub enum ButtonDefinition {
    BlfSpeedDial { instance: u32 },
    Feature { instance: u32, feature: ButtonType },
    Other,
}

/// The hint that a busy-lamp button watches.
#[derive(Debug, PartialEq, Eq)]
pub struct BlfTarget {
    pub instance: u32,
    pub target: String,
}

impl Clone for BlfTarget {
    fn clone(&self) -> (copy: Self)
        ensures
            copy == *self,
    {
        BlfTarget { instance: self.instance, target: self.target.clone() }
    }
}

#[derive(Clone, Copy, Debug, PartialEq, Eq, Structural)]
pub enum DndButtonMode {
    Cycle,
    Silent,
    Reject,
}

#[derive(Clone, Copy, Debug, PartialEq, Eq, Structural)]
pub struct DndButton {
    pub instance: u32,
    pub mode: DndButtonMode,
}

#[derive(Clone, Copy, Debug, PartialEq, Eq, Structural)]
pub enum ParkingRetrievalBehavior {
    RetrieveSingle,
    ShowMenu,
}

#[derive(Debug, PartialEq, Eq)]
pub struct ParkingLotButton {
    pub instance: u32,
    pub lot: String,
    pub retrieval: ParkingRetrievalBehavior,
}

/// Which features a station may use.
#[derive(Clone, Copy, Debug, PartialEq, Eq, Structural)]
pub struct FeatureDefaults {
    pub dnd_enabled: bool,
    pub privacy_enabled: bool,
    pub forward_all_enabled: bool,
    pub forward_busy_enabled: bool,
    pub forward_no_answer_enabled: bool,
}

#[derive(Debug, PartialEq, Eq)]
pub struct ConferenceConfig {
    pub allowed: bool,
    pub show_conference_list: bool,
    pub music_on_hold_class: String,
    pub mute_on_entry: bool,
    pub play_general_announcements: bool,
    pub play_participant_announcements: bool,
}

#[derive(Debug, PartialEq, Eq)]
pub struct DeviceConfig {
    pub id: DeviceId,
    pub description: String,
    pub channel_variables: Vec<(String, String)>,
    /// Numbers of the lines on the station's buttons.
    pub lines: Vec<String>,
    pub buttons: Vec<ButtonDefinition>,
    pub blf_targets: Vec<BlfTarget>,
    pub dnd_buttons: Vec<DndButton>,
    pub recording_buttons: Vec<u32>,
    pub dnd_schedules: Vec<DndSchedule>,
    pub parking_enabled: bool,
    pub parking_buttons: Vec<ParkingLotButton>,
    pub feature_defaults: FeatureDefaults,
    pub network: NetworkPolicy,
    pub conference: ConferenceConfig,
    /// Calls may go on while digits are still dialled.
    pub allow_overlap: bool,
}

#[derive(Debug, PartialEq, Eq)]
pub struct PickupConfig {
    pub call_groups: Vec<u8>,
    pub pickup_groups: Vec<u8>,
    pub named_call_groups: Vec<String>,
    pub named_pickup_groups: Vec<String>,
    pub directed: bool,
    pub directed_context: Option<String>,
    pub answer_directed: bool,
}

#[derive(Debug, PartialEq, Eq)]
pub struct LineFeatures {
    pub line: String,
    pub voicemail_number: Option<String>,
    pub voicemail_divert: Option<String>,
    pub pickup: PickupConfig,
    pub parking_lot: Option<String>,
    pub dial_tones: DialTones,
    /// How many calls the line takes at a time.
    pub incoming_limit: Option<u32>,
}

/// Everything that was configured.
#[derive(Debug, PartialEq, Eq)]
pub struct ModuleConfig {
    pub general: GeneralConfig,
    pub devices: Vec<DeviceConfig>,
    pub lines: Vec<LineConfig>,
    pub line_features: Vec<LineFeatures>,
    /// Every line on every button.
    pub bindings: Vec<LineBinding>,
    /// Lines offered to stations that are not configured.
    pub guest_bindings: Vec<LineBinding>,
}

/// The configured station is `device`.
pub open spec fn is_device(device: Seq<char>) -> spec_fn(DeviceConfig) -> bool {
    |d: DeviceConfig| d.id@ == device
}

/// The binding is line `instance` of `device`.
pub open spec fn bound_at(device: Seq<char>, instance: u32) -> spec_fn(LineBinding) -> bool {
    |b: LineBinding| b.device_id@ == device && b.line_instance == instance
}

/// The binding shows line `number`.
pub open spec fn shows_line(number: Seq<char>) -> spec_fn(LineBinding) -> bool {
    |b: LineBinding| b.line.number@ == number
}

/// The binding stands on `device`.
pub open spec fn stands_on(device: Seq<char>) -> spec_fn(LineBinding) -> bool {
    |b: LineBinding| b.device_id@ == device
}

/// The line has this number.
pub open spec fn is_line(number: Seq<char>) -> spec_fn(LineConfig) -> bool {
    |l: LineConfig| l.number@ == number
}

/// The features belong to this line.
pub open spec fn features_of_line(number: Seq<char>) -> spec_fn(LineFeatures) -> bool {
    |f: LineFeatures| f.line@ == number
}

impl ModuleConfig {
    /// The configuration of `device`.
    pub fn device(&self, device: &DeviceId) -> (found: Option<&DeviceConfig>)
        ensures
            lookup::target(found) == lookup::first(self.devices@, is_device(device@)),
    {
        let ghost p = is_device(device@);
        let mut i: usize = 0;
        while i < self.devices.len()
            invariant
                p == is_device(device@),
                0 <= i <= self.devices@.len(),
                lookup::first_at(self.devices@, p, 0) == lookup::first_at(
                    self.devices@,
                    p,
                    i as int,
                ),
            decreases self.devices@.len() - i,
        {
            if self.devices[i].id.same(device) {
                return Some(&self.devices[i]);
            }
            i += 1;
        }
        None
    }

    /// The line configured on `device` at `instance`.
    pub fn line_for_device(&self, device: &DeviceId, instance: u32) -> (found: Option<&LineBinding>)
        ensures
            lookup::target(found) == lookup::first(self.bindings@, bound_at(device@, instance)),
    {
        let ghost p = bound_at(device@, instance);
        let mut i: usize = 0;
        while i < self.bindings.len()
            invariant
                p == bound_at(device@, instance),
                0 <= i <= self.bindings@.len(),
                lookup::first_at(self.bindings@, p, 0) == lookup::first_at(
                    self.bindings@,
                    p,
                    i as int,
                ),
            decreases self.bindings@.len() - i,
        {
            if self.bindings[i].device_id.same(device) && self.bindings[i].line_instance == instance {
                return Some(&self.bindings[i]);
            }
            i += 1;
        }
        None
    }

    /// The line that a guest station gets at `instance`.
    pub fn guest_hotline_binding(&self, device: &DeviceId, instance: u32) -> (found: Option<&LineBinding>)
        ensures
            lookup::target(found) == lookup::first(self.guest_bindings@, bound_at(device@, instance)),
    {
        let ghost p = bound_at(device@, instance);
        let mut i: usize = 0;
        while i < self.guest_bindings.len()
            invariant
                p == bound_at(device@, instance),
                0 <= i <= self.guest_bindings@.len(),
                lookup::first_at(self.guest_bindings@, p, 0) == lookup::first_at(
                    self.guest_bindings@,
                    p,
                    i as int,
                ),
            decreases self.guest_bindings@.len() - i,
        {
            if self.guest_bindings[i].device_id.same(device) && self.guest_bindings[i].line_instance == instance {
                return Some(&self.guest_bindings[i]);
            }
            i += 1;
        }
        None
    }

    /// The lines configured on `device`, in their order.
    pub fn appearances_for_device(&self, device: &DeviceId) -> (found: Vec<&LineBinding>)
        ensures
            found@.map_values(|binding: &LineBinding| *binding) == self.bindings@.filter(
                stands_on(device@),
            ),
    {
        select(
            &self.bindings,
            |binding: &LineBinding| -> (stands: bool)
                ensures
                    stands == (binding.device_id@ == device@)
                { binding.device_id.same(device) },
            Ghost(stands_on(device@)),
        )
    }

    /// The first line configured on `device`.
    pub fn first_appearance(&self, device: &DeviceId) -> (found: Option<&LineBinding>)
        ensures
            lookup::target(found) == lookup::first(self.bindings@, stands_on(device@)),
    {
        let ghost p = stands_on(device@);
        let mut i: usize = 0;
        while i < self.bindings.len()
            invariant
                p == stands_on(device@),
                0 <= i <= self.bindings@.len(),
                lookup::first_at(self.bindings@, p, 0) == lookup::first_at(
                    self.bindings@,
                    p,
                    i as int,
                ),
            decreases self.bindings@.len() - i,
        {
            if self.bindings[i].device_id.same(device) {
                return Some(&self.bindings[i]);
            }
            i += 1;
        }
        None
    }

    /// The line with this number.
    pub fn line(&self, number: &str) -> (found: Option<&LineConfig>)
        ensures
            lookup::target(found) == lookup::first(self.lines@, is_line(number@)),
    {
        let ghost p = is_line(number@);
        let mut i: usize = 0;
        while i < self.lines.len()
            invariant
                p == is_line(number@),
                0 <= i <= self.lines@.len(),
                lookup::first_at(self.lines@, p, 0) == lookup::first_at(
                    self.lines@,
                    p,
                    i as int,
                ),
            decreases self.lines@.len() - i,
        {
            if same_text(self.lines[i].number.as_str(), number) {
                return Some(&self.lines[i]);
            }
            i += 1;
        }
        None
    }

    /// The features of the line with this number.
    pub fn features_for_line(&self, number: &str) -> (found: Option<&LineFeatures>)
        ensures
            lookup::target(found) == lookup::first(self.line_features@, features_of_line(number@)),
    {
        let ghost p = features_of_line(number@);
        let mut i: usize = 0;
        while i < self.line_features.len()
            invariant
                p == features_of_line(number@),
                0 <= i <= self.line_features@.len(),
                lookup::first_at(self.line_features@, p, 0) == lookup::first_at(
                    self.line_features@,
                    p,
                    i as int,
                ),
            decreases self.line_features@.len() - i,
        {
            if same_text(self.line_features[i].line.as_str(), number) {
                return Some(&self.line_features[i]);
            }
            i += 1;
        }
        None
    }

}

/// A station, a line and the settings of a line are found under their own name, the
/// first where a name occurs twice, and nothing is found under a name that does not
/// occur.
pub proof fn law_settings_are_found_under_their_name(
    config: ModuleConfig,
    device: DeviceId,
    number: &str,
    found: Option<&DeviceConfig>,
    line: Option<&LineConfig>,
    features: Option<&LineFeatures>,
    d: int,
    l: int,
    f: int,
)
    requires
        call_ensures(ModuleConfig::device, (&config, &device), found),
        call_ensures(ModuleConfig::line, (&config, number), line),
        call_ensures(ModuleConfig::features_for_line, (&config, number), features),
        0 <= d <= config.devices@.len(),
        forall|j: int| 0 <= j < d ==> (#[trigger] config.devices@[j]).id@ != device@,
        d < config.devices@.len() ==> config.devices@[d].id@ == device@,
        0 <= l <= config.lines@.len(),
        forall|j: int| 0 <= j < l ==> (#[trigger] config.lines@[j]).number@ != number@,
        l < config.lines@.len() ==> config.lines@[l].number@ == number@,
        0 <= f <= config.line_features@.len(),
        forall|j: int| 0 <= j < f ==> (#[trigger] config.line_features@[j]).line@ != number@,
        f < config.line_features@.len() ==> config.line_features@[f].line@ == number@,
    ensures
        found is Some <==> d < config.devices@.len(),
        found matches Some(found) ==> *found == config.devices@[d],
        line is Some <==> l < config.lines@.len(),
        line matches Some(line) ==> *line == config.lines@[l],
        features is Some <==> f < config.line_features@.len(),
        features matches Some(features) ==> *features == config.line_features@[f],
{
    if d == config.devices@.len() {
        lookup::lemma_first_none(config.devices@, is_device(device@));
    } else {
        lookup::lemma_first_is(config.devices@, is_device(device@), d);
    }
    if l == config.lines@.len() {
        lookup::lemma_first_none(config.lines@, is_line(number@));
    } else {
        lookup::lemma_first_is(config.lines@, is_line(number@), l);
    }
    if f == config.line_features@.len() {
        lookup::lemma_first_none(config.line_features@, features_of_line(number@));
    } else {
        lookup::lemma_first_is(config.line_features@, features_of_line(number@), f);
    }
}

/// The lines of a station are found at their instance, those of a guest among the
/// guests, and the first line of a station is the first that stands on it.
pub proof fn law_lines_are_found_at_their_instance(
    config: ModuleConfig,
    device: DeviceId,
    instance: u32,
    bound: Option<&LineBinding>,
    guest: Option<&LineBinding>,
    first: Option<&LineBinding>,
    all: Vec<&LineBinding>,
    binding: LineBinding,
    b: int,
    g: int,
    s: int,
)
    requires
        call_ensures(ModuleConfig::line_for_device, (&config, &device, instance), bound),
        call_ensures(ModuleConfig::guest_hotline_binding, (&config, &device, instance), guest),
        call_ensures(ModuleConfig::first_appearance, (&config, &device), first),
        call_ensures(ModuleConfig::appearances_for_device, (&config, &device), all),
        0 <= b <= config.bindings@.len(),
        forall|j: int|
            0 <= j < b ==> !((#[trigger] config.bindings@[j]).device_id@ == device@
                && config.bindings@[j].line_instance == instance),
        b < config.bindings@.len() ==> config.bindings@[b].device_id@ == device@
            && config.bindings@[b].line_instance == instance,
        0 <= g <= config.guest_bindings@.len(),
        forall|j: int|
            0 <= j < g ==> !((#[trigger] config.guest_bindings@[j]).device_id@ == device@
                && config.guest_bindings@[j].line_instance == instance),
        g < config.guest_bindings@.len() ==> config.guest_bindings@[g].device_id@ == device@
            && config.guest_bindings@[g].line_instance == instance,
        0 <= s <= config.bindings@.len(),
        forall|j: int| 0 <= j < s ==> (#[trigger] config.bindings@[j]).device_id@ != device@,
        s < config.bindings@.len() ==> config.bindings@[s].device_id@ == device@,
    ensures
        bound is Some <==> b < config.bindings@.len(),
        bound matches Some(bound) ==> *bound == config.bindings@[b],
        guest is Some <==> g < config.guest_bindings@.len(),
        guest matches Some(guest) ==> *guest == config.guest_bindings@[g],
        first is Some <==> s < config.bindings@.len(),
        first matches Some(first) ==> *first == config.bindings@[s],
        all@.contains(&binding) <==> config.bindings@.contains(binding) && binding.device_id@
            == device@,
{
    let p = bound_at(device@, instance);
    let q = stands_on(device@);
    if b == config.bindings@.len() {
        lookup::lemma_first_none(config.bindings@, p);
    } else {
        lookup::lemma_first_is(config.bindings@, p, b);
    }
    if g == config.guest_bindings@.len() {
        lookup::lemma_first_none(config.guest_bindings@, p);
    } else {
        lookup::lemma_first_is(config.guest_bindings@, p, g);
    }
    if s == config.bindings@.len() {
        lookup::lemma_first_none(config.bindings@, q);
    } else {
        lookup::lemma_first_is(config.bindings@, q, s);
    }
    let plain = all@.map_values(|binding: &LineBinding| *binding);
    lookup::lemma_filter_holds(config.bindings@, q, binding);
    if all@.contains(&binding) {
        let k = choose|k: int| 0 <= k < all@.len() && all@[k] == &binding;
        assert(plain[k] == binding);
    }
    if plain.contains(binding) {
        let k = choose|k: int| 0 <= k < plain.len() && plain[k] == binding;
        assert(all@[k] == &binding);
    }
}

} // verus!
