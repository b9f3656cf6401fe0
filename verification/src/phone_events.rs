//! Admission of station events.

use vstd::prelude::*;

use crate::access::{Access, Shared};
use crate::events::{
    self, phone_event_family, PhoneDeviceEvent, PhoneDeviceEventKind, PhoneEventFamily,
};
use crate::ids::DeviceId;

verus! {

/// What the station server reports.
#[derive(Debug, PartialEq, Eq)]
pub enum PhoneEvent {
    /// A connection ended with an error.
    SessionError,
    /// A message could not be read and was dropped.
    ProtocolWarning { device_id: Option<DeviceId>, message_id: u32 },
    Device(PhoneDeviceEvent),
}

/// What becomes of an event.
#[derive(Clone, Copy, Debug, PartialEq, Eq, Structural)]
pub enum PhoneEventRoute {
    /// It is written to the log.
    Report,
    /// It belongs to a registration that no longer stands.
    Stale,
    Handle(PhoneEventFamily),
}

/// The event may change something: it registers a station, or it comes from the
/// registration that stands.
pub open spec fn admitted(shared: Shared, event: PhoneDeviceEvent) -> bool {
    event.event is Registered || shared.controller.session_current_spec(
        event.device_id@,
        event.session_generation,
    )
}

/// Decides what becomes of an event.
pub fn handle_phone_event(access: &Access, event: &PhoneEvent) -> (route: PhoneEventRoute)
    ensures
        match *event {
            PhoneEvent::SessionError | PhoneEvent::ProtocolWarning { .. } => route
                == PhoneEventRoute::Report,
            PhoneEvent::Device(device_event) => if admitted(access.shared, device_event) {
                &&& route matches PhoneEventRoute::Handle(family)
                &&& family == PhoneEventFamily::Session <==> events::is_session_event(
                    device_event.event,
                )
                &&& family == PhoneEventFamily::CallControl <==> events::is_call_control_event(
                    device_event.event,
                )
                &&& family == PhoneEventFamily::Media <==> events::is_media_event(
                    device_event.event,
                )
                &&& family == PhoneEventFamily::Telemetry <==> events::is_telemetry_event(
                    device_event.event,
                )
            } else {
                route == PhoneEventRoute::Stale
            },
        },
{
    match event {
        PhoneEvent::SessionError => PhoneEventRoute::Report,
        PhoneEvent::ProtocolWarning { .. } => PhoneEventRoute::Report,
        PhoneEvent::Device(device_event) => {
            let registers = match &device_event.event {
                PhoneDeviceEventKind::Registered(_) => true,
                _ => false,
            };
            if !registers && !access.shared.controller.session_is_current(
                &device_event.device_id,
                device_event.session_generation,
            ) {
                return PhoneEventRoute::Stale;
            }
            PhoneEventRoute::Handle(phone_event_family(&device_event.event))
        },
    }
}

/// A station is heard while its session is current, and to register in any case;
/// what comes from a session that is over is dropped, and what comes from no
/// station is reported.
pub proof fn law_stale_sessions_are_not_heard(
    access: &Access,
    event: PhoneEvent,
    route: PhoneEventRoute,
)
    requires
        call_ensures(handle_phone_event, (access, &event), route),
    ensures
        route is Report <==> !(event is Device),
        event matches PhoneEvent::Device(heard) ==> {
            let current = access.shared.controller.session_current_spec(
                heard.device_id@,
                heard.session_generation,
            );
            &&& route is Handle <==> heard.event is Registered || current
            &&& route is Stale <==> !(heard.event is Registered) && !current
            &&& heard.event is Registered || (current && (heard.event is Disconnected
                || heard.event is Capabilities)) ==> route == PhoneEventRoute::Handle(
                PhoneEventFamily::Session,
            )
        },
{
}

} // verus!
