//! What stations and the controller are told from the configuration when the
//! driver starts.

use vstd::prelude::*;

use crate::config::{DeviceConfig, DialTones, LineFeatures, ModuleConfig, SocketBind, TimeZone};
use crate::lifecycle::{
    self, overlap_devices, registration_tokens, CallSelectionOrder, RegistrationTokenPolicy,
};
use crate::lookup;
use crate::model::{IpAddress, QosMark};

verus! {

/// A key of the handset's pad.
#[derive(Clone, Copy, Debug, PartialEq, Eq, Structural)]
pub struct DialDigit(pub u8);

/// The line that stations without a configuration ring.
#[derive(Debug, PartialEq, Eq)]
pub struct HotlineDefinition {
    pub label: String,
    pub destination: String,
}

/// What stations are told about the server.
#[derive(Debug, PartialEq, Eq)]
pub struct ServerSettings<'a> {
    pub bind: Option<SocketBind>,
    pub signaling_qos: QosMark,
    pub advertised_address: Option<IpAddress>,
    pub advertised_ipv6_address: Option<IpAddress>,
    pub server_name: &'a String,
    pub keepalive_seconds: u32,
    pub secondary_keepalive_seconds: u32,
    pub signaling_servers: &'a Vec<String>,
    pub registration_tokens: RegistrationTokenPolicy,
    /// Empty: stations are not asked to load another firmware.
    pub firmware_version: String,
    pub dial_terminator: Option<DialDigit>,
    pub record_dial_terminator: bool,
    pub call_answer_order: CallSelectionOrder,
    pub timezone_offset_minutes: i32,
    pub timezone: Option<TimeZone>,
    pub date_template: &'a String,
    pub anonymous_hotline: Option<HotlineDefinition>,
}

/// The settings that follow from the configuration.
pub open spec fn server_settings_spec<'a>(
    config: ModuleConfig,
    firmware_version: String,
    dial_terminator: Option<DialDigit>,
    anonymous_hotline: Option<HotlineDefinition>,
) -> ServerSettings<'a> {
    let signaling = config.general.signaling;
    ServerSettings {
        bind: signaling.clear_listener,
        signaling_qos: config.general.qos.signaling,
        advertised_address: signaling.advertised_address,
        advertised_ipv6_address: config.general.network.advertised.ipv6,
        server_name: &signaling.server_name,
        keepalive_seconds: signaling.keepalive_seconds,
        secondary_keepalive_seconds: signaling.secondary_keepalive_seconds,
        signaling_servers: &signaling.signaling_servers,
        registration_tokens: lifecycle::registration_tokens_spec(signaling.fallback_registration),
        firmware_version,
        dial_terminator,
        record_dial_terminator: signaling.record_dial_terminator,
        call_answer_order: lifecycle::answer_order_spec(signaling.call_answer_order),
        timezone_offset_minutes: signaling.timezone_offset_minutes,
        timezone: config.general.timezone,
        date_template: &signaling.date_template,
        anonymous_hotline,
    }
}

/// What stations are told about the server. `dial_terminator` is the key of the
/// configured character and `anonymous_hotline` the line for unknown stations;
/// either may be configured wrongly, and the key is looked at first.
pub fn server_settings<'a>(
    config: &'a ModuleConfig,
    dial_terminator: Result<Option<DialDigit>, String>,
    anonymous_hotline: Result<Option<HotlineDefinition>, String>,
) -> (settings: Result<ServerSettings<'a>, String>)
    ensures
        match (dial_terminator, anonymous_hotline) {
            (Err(error), _) => settings == Err::<ServerSettings<'a>, String>(error),
            (Ok(_), Err(error)) => settings == Err::<ServerSettings<'a>, String>(error),
            (Ok(digit), Ok(hotline)) => settings matches Ok(told) && told.firmware_version@
                == Seq::<char>::empty() && told == server_settings_spec::<'a>(
                *config,
                told.firmware_version,
                digit,
                hotline,
            ),
        },
{
    let dial_terminator = match dial_terminator {
        Ok(digit) => digit,
        Err(error) => return Err(error),
    };
    let anonymous_hotline = match anonymous_hotline {
        Ok(hotline) => hotline,
        Err(error) => return Err(error),
    };
    let signaling = &config.general.signaling;
    Ok(
        ServerSettings {
            bind: signaling.clear_listener,
            signaling_qos: config.general.qos.signaling,
            advertised_address: signaling.advertised_address,
            advertised_ipv6_address: config.general.network.advertised.ipv6,
            server_name: &signaling.server_name,
            keepalive_seconds: signaling.keepalive_seconds,
            secondary_keepalive_seconds: signaling.secondary_keepalive_seconds,
            signaling_servers: &signaling.signaling_servers,
            registration_tokens: registration_tokens(signaling.fallback_registration),
            firmware_version: String::new(),
            dial_terminator,
            record_dial_terminator: signaling.record_dial_terminator,
            call_answer_order: CallSelectionOrder::from(signaling.call_answer_order),
            timezone_offset_minutes: signaling.timezone_offset_minutes,
            timezone: config.general.timezone,
            date_template: &signaling.date_template,
            anonymous_hotline,
        },
    )
}

/// The tones that a line plays.
#[derive(Debug, PartialEq, Eq)]
pub struct LineDialTones<'a> {
    pub line: &'a String,
    pub tones: &'a DialTones,
}

/// How many calls a line takes at a time.
#[derive(Debug, PartialEq, Eq)]
pub struct LineIncomingLimit<'a> {
    pub line: &'a String,
    pub limit: Option<u32>,
}

/// What the controller goes by.
#[derive(Debug, PartialEq, Eq)]
pub struct ControllerPolicy<'a> {
    pub first_digit_timeout_ms: u64,
    pub interdigit_timeout_ms: u64,
    pub dial_terminator: Option<char>,
    pub simulated_enbloc: bool,
    pub overlap_devices: Vec<&'a DeviceConfig>,
    pub dial_tones: Vec<LineDialTones<'a>>,
    pub incoming_limits: Vec<LineIncomingLimit<'a>>,
}

pub open spec fn tones_of<'a>() -> spec_fn(LineFeatures) -> LineDialTones<'a> {
    |features: LineFeatures| LineDialTones { line: &features.line, tones: &features.dial_tones }
}

pub open spec fn limit_of<'a>() -> spec_fn(LineFeatures) -> LineIncomingLimit<'a> {
    |features: LineFeatures|
        LineIncomingLimit { line: &features.line, limit: features.incoming_limit }
}

/// The policy is the one that the configuration asks for.
pub open spec fn follows_configuration(policy: ControllerPolicy, config: ModuleConfig) -> bool {
    let signaling = config.general.signaling;
    &&& policy.first_digit_timeout_ms == signaling.first_digit_timeout_ms
    &&& policy.interdigit_timeout_ms == signaling.interdigit_timeout_ms
    &&& policy.dial_terminator == signaling.dial_terminator
    &&& policy.simulated_enbloc == signaling.simulate_enbloc
    &&& policy.overlap_devices@.map_values(|device: &DeviceConfig| *device)
        == config.devices@.filter(lifecycle::overlaps())
    &&& policy.dial_tones@ == config.line_features@.map_values(tones_of())
    &&& policy.incoming_limits@ == config.line_features@.map_values(limit_of())
}

/// What the controller goes by when it starts and after a reload.
pub fn controller_policy<'a>(config: &'a ModuleConfig) -> (policy: ControllerPolicy<'a>)
    ensures
        follows_configuration(policy, *config),
{
    let mut dial_tones: Vec<LineDialTones<'a>> = Vec::new();
    let mut incoming_limits: Vec<LineIncomingLimit<'a>> = Vec::new();
    let ghost all = config.line_features@;
    let mut i: usize = 0;
    while i < config.line_features.len()
        invariant
            0 <= i <= config.line_features@.len(),
            all == config.line_features@,
            dial_tones@ == all.take(i as int).map_values(tones_of()),
            incoming_limits@ == all.take(i as int).map_values(limit_of()),
        decreases config.line_features@.len() - i,
    {
        let features = &config.line_features[i];
        dial_tones.push(LineDialTones { line: &features.line, tones: &features.dial_tones });
        incoming_limits.push(
            LineIncomingLimit { line: &features.line, limit: features.incoming_limit },
        );
        proof {
            assert(dial_tones@ =~= all.take(i + 1).map_values(tones_of()));
            assert(incoming_limits@ =~= all.take(i + 1).map_values(limit_of()));
        }
        i += 1;
    }
    proof {
        assert(all.take(i as int) =~= all);
    }
    let signaling = &config.general.signaling;
    ControllerPolicy {
        first_digit_timeout_ms: signaling.first_digit_timeout_ms,
        interdigit_timeout_ms: signaling.interdigit_timeout_ms,
        dial_terminator: signaling.dial_terminator,
        simulated_enbloc: signaling.simulate_enbloc,
        overlap_devices: overlap_devices(config),
        dial_tones,
        incoming_limits,
    }
}

/// Every line has its own tones and its own limit, and a station dials on while a
/// call goes out only where its configuration says so.
pub proof fn law_controller_policy_covers_every_line(
    policy: ControllerPolicy,
    config: ModuleConfig,
    line: int,
    overlap: int,
)
    requires
        follows_configuration(policy, config),
        0 <= line < config.line_features@.len(),
        0 <= overlap < policy.overlap_devices@.len(),
    ensures
        policy.dial_tones@.len() == config.line_features@.len(),
        policy.dial_tones@[line].line == &config.line_features@[line].line,
        policy.dial_tones@[line].tones == &config.line_features@[line].dial_tones,
        policy.incoming_limits@.len() == config.line_features@.len(),
        policy.incoming_limits@[line].line == &config.line_features@[line].line,
        policy.incoming_limits@[line].limit == config.line_features@[line].incoming_limit,
        policy.overlap_devices@[overlap].allow_overlap,
        config.devices@.contains(*policy.overlap_devices@[overlap]),
{
    let kept = config.devices@.filter(lifecycle::overlaps());
    let shown = policy.overlap_devices@.map_values(|device: &DeviceConfig| *device);
    assert(shown.len() == policy.overlap_devices@.len());
    assert(shown[overlap] == *policy.overlap_devices@[overlap]);
    lookup::lemma_filter_member(config.devices@, lifecycle::overlaps(), overlap);
    assert(kept[overlap] == *policy.overlap_devices@[overlap]);
}

/// The server is set up from the settings that are for it, each in its own place,
/// unless a problem was found in the terminating digit or in the hotline, which is
/// then told.
pub proof fn law_servers_are_set_up_as_configured<'a>(
    config: &'a ModuleConfig,
    dial_terminator: Result<Option<DialDigit>, String>,
    anonymous_hotline: Result<Option<HotlineDefinition>, String>,
    settings: Result<ServerSettings<'a>, String>,
)
    requires
        call_ensures(server_settings, (config, dial_terminator, anonymous_hotline), settings),
    ensures
        settings is Ok <==> dial_terminator is Ok && anonymous_hotline is Ok,
        dial_terminator matches Err(problem) ==> settings == Err::<ServerSettings<'a>, String>(
            problem,
        ),
        dial_terminator is Ok ==> (anonymous_hotline matches Err(problem) ==> settings == Err::<
            ServerSettings<'a>,
            String,
        >(problem)),
        settings matches Ok(server) ==> {
            let signaling = config.general.signaling;
            &&& server.bind == signaling.clear_listener
            &&& server.signaling_qos == config.general.qos.signaling
            &&& server.advertised_address == signaling.advertised_address
            &&& server.advertised_ipv6_address == config.general.network.advertised.ipv6
            &&& *server.server_name == signaling.server_name
            &&& server.keepalive_seconds == signaling.keepalive_seconds
            &&& server.secondary_keepalive_seconds == signaling.secondary_keepalive_seconds
            &&& *server.signaling_servers == signaling.signaling_servers
            &&& dial_terminator == Ok::<Option<DialDigit>, String>(server.dial_terminator)
            &&& anonymous_hotline == Ok::<Option<HotlineDefinition>, String>(
                server.anonymous_hotline,
            )
            &&& server.record_dial_terminator == signaling.record_dial_terminator
            &&& server.timezone_offset_minutes == signaling.timezone_offset_minutes
            &&& server.timezone == config.general.timezone
            &&& *server.date_template == signaling.date_template
            &&& server.firmware_version@.len() == 0
        },
{
}

/// The controller gets the timing and the digits of the signaling, the stations
/// that take overlapping calls, and for every line its own tones and limit.
pub proof fn law_controllers_follow_the_configuration<'a>(
    config: &'a ModuleConfig,
    policy: ControllerPolicy<'a>,
    device: DeviceConfig,
    i: int,
)
    requires
        call_ensures(controller_policy, (config,), policy),
        0 <= i < config.line_features@.len(),
    ensures
        policy.first_digit_timeout_ms == config.general.signaling.first_digit_timeout_ms,
        policy.interdigit_timeout_ms == config.general.signaling.interdigit_timeout_ms,
        policy.dial_terminator == config.general.signaling.dial_terminator,
        policy.simulated_enbloc == config.general.signaling.simulate_enbloc,
        policy.dial_tones@.len() == config.line_features@.len(),
        policy.incoming_limits@.len() == config.line_features@.len(),
        *policy.dial_tones@[i].line == config.line_features@[i].line,
        *policy.dial_tones@[i].tones == config.line_features@[i].dial_tones,
        *policy.incoming_limits@[i].line == config.line_features@[i].line,
        policy.incoming_limits@[i].limit == config.line_features@[i].incoming_limit,
        policy.overlap_devices@.contains(&device) <==> config.devices@.contains(device)
            && device.allow_overlap,
{
    let plain = policy.overlap_devices@.map_values(|device: &DeviceConfig| *device);
    lookup::lemma_filter_holds(config.devices@, lifecycle::overlaps(), device);
    if policy.overlap_devices@.contains(&device) {
        let k = choose|k: int|
            0 <= k < policy.overlap_devices@.len() && policy.overlap_devices@[k] == &device;
        assert(plain[k] == device);
    }
    if plain.contains(device) {
        let k = choose|k: int| 0 <= k < plain.len() && plain[k] == device;
        assert(policy.overlap_devices@[k] == &device);
    }
}

} // verus!
