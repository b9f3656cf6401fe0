//! What the command line shows of sessions and of the driver's own queues.

use vstd::prelude::*;
use vstd::string::*;

use crate::access::Access;
use crate::cli::InventorySnapshot;
use crate::ids::{CallId, DeviceId, PbxCallId};
use crate::model::CallAppearance;
use crate::status::RuntimeStatusSnapshot;
use crate::text::{self, decimal_text};

verus! {

#[derive(Clone, Copy, Debug, PartialEq, Eq, Structural)]
pub enum CliDiagnosticCommand {
    Media,
    Sessions,
}

/// Why a command was not carried out, in words.
#[derive(Debug, PartialEq, Eq)]
pub struct CliDiagnosticError {
    pub message: String,
}

#[derive(Debug, PartialEq, Eq)]
pub enum RuntimeCliDiagnosticError {
    Unavailable,
    Diagnostic(CliDiagnosticError),
}

impl RuntimeCliDiagnosticError {
    /// What went wrong.
    pub fn text(&self) -> (text: &str)
        ensures
            text@ == match self {
                RuntimeCliDiagnosticError::Unavailable => "CLI diagnostics are unavailable"@,
                RuntimeCliDiagnosticError::Diagnostic(error) => error.message@,
            },
    {
        match self {
            RuntimeCliDiagnosticError::Unavailable => "CLI diagnostics are unavailable",
            RuntimeCliDiagnosticError::Diagnostic(error) => error.message.as_str(),
        }
    }
}

impl From<CliDiagnosticError> for RuntimeCliDiagnosticError {
    fn from(error: CliDiagnosticError) -> (wrapped: Self) {
        RuntimeCliDiagnosticError::Diagnostic(error)
    }
}

impl vstd::std_specs::convert::FromSpecImpl<CliDiagnosticError> for RuntimeCliDiagnosticError {
    open spec fn obeys_from_spec() -> bool {
        true
    }

    open spec fn from_spec(error: CliDiagnosticError) -> Self {
        RuntimeCliDiagnosticError::Diagnostic(error)
    }
}

/// A call at a station.
#[derive(Debug, PartialEq, Eq)]
pub struct CliSessionCall {
    pub device_id: DeviceId,
    pub pbx_id: PbxCallId,
    pub call_id: CallId,
}

/// Everything that is shown.
#[derive(Debug, PartialEq, Eq)]
pub struct CliDiagnosticSnapshot {
    pub inventory: InventorySnapshot,
    pub runtime: RuntimeStatusSnapshot,
    pub session_calls: Vec<CliSessionCall>,
}

pub open spec fn session_call() -> spec_fn(CallAppearance) -> CliSessionCall {
    |call: CallAppearance|
        CliSessionCall { device_id: call.device_id, pbx_id: call.pbx_id, call_id: call.sccp_id }
}

/// Everything that is shown, unless the inventory or the state of the driver cannot
/// be had.
pub fn runtime_cli_diagnostic_snapshot(
    access: &Access,
    inventory: Option<InventorySnapshot>,
    runtime: Option<RuntimeStatusSnapshot>,
) -> (snapshot: Result<CliDiagnosticSnapshot, RuntimeCliDiagnosticError>)
    ensures
        match (inventory, runtime) {
            (Some(inventory), Some(runtime)) => match snapshot {
                Ok(shown) => {
                    &&& shown.inventory == inventory
                    &&& shown.runtime == runtime
                    &&& shown.session_calls@ == access.shared.controller.appearances@.map_values(
                        session_call(),
                    )
                },
                Err(_) => false,
            },
            _ => snapshot matches Err(error) && error is Unavailable,
        },
{
    let (inventory, runtime) = match (inventory, runtime) {
        (Some(inventory), Some(runtime)) => (inventory, runtime),
        _ => {
            return Err(RuntimeCliDiagnosticError::Unavailable);
        },
    };
    let ghost f = session_call();
    let calls = &access.shared.controller.appearances;
    let mut session_calls: Vec<CliSessionCall> = Vec::new();
    let mut i: usize = 0;
    while i < calls.len()
        invariant
            f == session_call(),
            0 <= i <= calls@.len(),
            session_calls@ == calls@.take(i as int).map_values(f),
        decreases calls@.len() - i,
    {
        let call = &calls[i];
        session_calls.push(
            CliSessionCall {
                device_id: call.device_id.clone(),
                pbx_id: call.pbx_id,
                call_id: call.sccp_id,
            },
        );
        proof {
            assert(session_calls@ =~= calls@.take(i + 1).map_values(f));
        }
        i += 1;
    }
    proof {
        assert(calls@.take(i as int) =~= calls@);
    }
    Ok(CliDiagnosticSnapshot { inventory, runtime, session_calls })
}

/// How full a queue is and was.
#[derive(Clone, Copy, Debug, PartialEq, Eq, Structural)]
pub struct QueueSnapshot {
    pub queued: u64,
    pub outstanding: u64,
    pub capacity: u64,
    pub high_water: u64,
    pub admission_failures: u64,
    pub expired: u64,
}

/// A queue by name.
#[derive(Debug, PartialEq, Eq)]
pub struct NamedQueue {
    pub name: String,
    pub queue: QueueSnapshot,
}

/// The queues that the driver always has.
#[derive(Clone, Copy, Debug, PartialEq, Eq, Structural)]
pub struct RuntimeQueues {
    pub controls: QueueSnapshot,
    pub services: QueueSnapshot,
    pub ami_publication: QueueSnapshot,
    pub presence: QueueSnapshot,
    pub backgrounds: QueueSnapshot,
    pub parking_callbacks: QueueSnapshot,
    pub dnd_schedules: QueueSnapshot,
    pub controller: QueueSnapshot,
    pub controller_completions: QueueSnapshot,
    pub media: QueueSnapshot,
    pub bridges: QueueSnapshot,
    pub call_delivery: QueueSnapshot,
    pub configuration_transactions: QueueSnapshot,
    pub effect_workers: QueueSnapshot,
}

/// A queue in words.
pub open spec fn queue_line(name: Seq<char>, queue: QueueSnapshot) -> Seq<char> {
    "  "@ + name + ": queued="@ + text::decimal(queue.queued as nat) + " outstanding="@
        + text::decimal(queue.outstanding as nat) + " capacity="@ + text::decimal(
        queue.capacity as nat,
    ) + " high-water="@ + text::decimal(queue.high_water as nat) + " admission-failures="@
        + text::decimal(queue.admission_failures as nat) + " expired="@ + text::decimal(
        queue.expired as nat,
    ) + "\n"@
}

fn queue_text(name: &str, queue: QueueSnapshot) -> (line: String)
    ensures
        line@ == queue_line(name@, queue),
{
    let mut line = "  ".to_owned();
    line.append(name);
    line.append(": queued=");
    line.append(decimal_text(queue.queued).as_str());
    line.append(" outstanding=");
    line.append(decimal_text(queue.outstanding).as_str());
    line.append(" capacity=");
    line.append(decimal_text(queue.capacity).as_str());
    line.append(" high-water=");
    line.append(decimal_text(queue.high_water).as_str());
    line.append(" admission-failures=");
    line.append(decimal_text(queue.admission_failures).as_str());
    line.append(" expired=");
    line.append(decimal_text(queue.expired).as_str());
    line.append("\n");
    line
}

fn write_queue(rendered: &mut String, name: &str, queue: QueueSnapshot)
    ensures
        final(rendered)@ == old(rendered)@ + queue_line(name@, queue),
{
    let line = queue_text(name, queue);
    rendered.append(line.as_str());
}

/// The queues that the driver always has, in words.
pub open spec fn queue_lines(queues: RuntimeQueues) -> Seq<char> {
    queue_line("controls"@, queues.controls) + queue_line("services"@, queues.services)
        + queue_line("AMI publication"@, queues.ami_publication) + queue_line(
        "Presence"@,
        queues.presence,
    ) + queue_line("backgrounds"@, queues.backgrounds) + queue_line(
        "parking callbacks"@,
        queues.parking_callbacks,
    ) + queue_line("DND schedules"@, queues.dnd_schedules) + queue_line(
        "Controller"@,
        queues.controller,
    ) + queue_line("controller completions"@, queues.controller_completions) + queue_line(
        "media"@,
        queues.media,
    ) + queue_line("bridges"@, queues.bridges) + queue_line("call delivery"@, queues.call_delivery)
        + queue_line("configuration transactions"@, queues.configuration_transactions)
        + queue_line("effect workers"@, queues.effect_workers)
}

/// The queues of events, in words.
pub open spec fn event_lines(events: Seq<NamedQueue>) -> Seq<char>
    decreases events.len(),
{
    if events.len() == 0 {
        Seq::empty()
    } else {
        event_lines(events.drop_last()) + queue_line(events.last().name@, events.last().queue)
    }
}

fn queues_text(queues: RuntimeQueues) -> (lines: String)
    ensures
        lines@ == queue_lines(queues),
{
    let mut lines = queue_text("controls", queues.controls);
    write_queue(&mut lines, "services", queues.services);
    write_queue(&mut lines, "AMI publication", queues.ami_publication);
    write_queue(&mut lines, "Presence", queues.presence);
    write_queue(&mut lines, "backgrounds", queues.backgrounds);
    write_queue(&mut lines, "parking callbacks", queues.parking_callbacks);
    write_queue(&mut lines, "DND schedules", queues.dnd_schedules);
    write_queue(&mut lines, "Controller", queues.controller);
    write_queue(&mut lines, "controller completions", queues.controller_completions);
    write_queue(&mut lines, "media", queues.media);
    write_queue(&mut lines, "bridges", queues.bridges);
    write_queue(&mut lines, "call delivery", queues.call_delivery);
    write_queue(&mut lines, "configuration transactions", queues.configuration_transactions);
    write_queue(&mut lines, "effect workers", queues.effect_workers);
    lines
}

/// What a command prints. Where everything could be looked up, `rendered` is its text
/// or why there is none; the sessions as a whole are followed by the driver's queues.
pub fn render_runtime_cli_diagnostics(
    command: CliDiagnosticCommand,
    arguments: usize,
    snapshot: Result<(), RuntimeCliDiagnosticError>,
    rendered: Result<String, CliDiagnosticError>,
    queues: RuntimeQueues,
    events: &Vec<NamedQueue>,
) -> (output: Result<String, RuntimeCliDiagnosticError>)
    ensures
        match (snapshot, rendered) {
            (Err(error), _) => output == Err::<String, _>(error),
            (Ok(_), Err(error)) => output == Err::<String, _>(
                RuntimeCliDiagnosticError::Diagnostic(error),
            ),
            (Ok(_), Ok(text)) => match output {
                Ok(shown) => shown@ == if command is Sessions && arguments == 0 {
                    text@ + "\nRuntime queues (admission retained through completion):\n"@
                        + queue_lines(queues) + event_lines(events@)
                } else {
                    text@
                },
                Err(_) => false,
            },
        },
{
    match snapshot {
        Err(error) => {
            return Err(error);
        },
        Ok(_) => {},
    }
    let mut text = match rendered {
        Ok(text) => text,
        Err(error) => {
            return Err(RuntimeCliDiagnosticError::from(error));
        },
    };
    if command == CliDiagnosticCommand::Sessions && arguments == 0 {
        text.append("\nRuntime queues (admission retained through completion):\n");
        let lines = queues_text(queues);
        text.append(lines.as_str());
        let ghost start = text@;
        let mut i: usize = 0;
        proof {
            assert(text@ =~= start + event_lines(events@.take(0)));
        }
        while i < events.len()
            invariant
                0 <= i <= events@.len(),
                text@ == start + event_lines(events@.take(i as int)),
            decreases events@.len() - i,
        {
            write_queue(&mut text, events[i].name.as_str(), events[i].queue);
            proof {
                assert(events@.take(i + 1).drop_last() =~= events@.take(i as int));
                assert(text@ =~= start + event_lines(events@.take(i + 1)));
            }
            i += 1;
        }
        proof {
            assert(events@.take(i as int) =~= events@);
        }
    }
    Ok(text)
}

/// What a command is completed to: nothing where not everything could be looked up.
pub fn complete_runtime_cli_diagnostics(
    snapshot: Result<(), RuntimeCliDiagnosticError>,
    completed: Option<String>,
) -> (completion: Option<String>)
    ensures
        completion == if snapshot is Ok {
            completed
        } else {
            None
        },
{
    match snapshot {
        Ok(_) => completed,
        Err(_) => None,
    }
}

/// Diagnostics can be shown exactly if both of their halves are there, and name
/// every call of every station.
pub proof fn law_diagnostics_name_every_call(
    access: &Access,
    inventory: Option<InventorySnapshot>,
    runtime: Option<RuntimeStatusSnapshot>,
    snapshot: Result<CliDiagnosticSnapshot, RuntimeCliDiagnosticError>,
    i: int,
)
    requires
        call_ensures(runtime_cli_diagnostic_snapshot, (access, inventory, runtime), snapshot),
        0 <= i < access.shared.controller.appearances@.len(),
    ensures
        snapshot is Ok <==> inventory is Some && runtime is Some,
        snapshot matches Ok(shown) ==> {
            let call = access.shared.controller.appearances@[i];
            &&& inventory == Some(shown.inventory)
            &&& runtime == Some(shown.runtime)
            &&& shown.session_calls@.len() == access.shared.controller.appearances@.len()
            &&& shown.session_calls@[i].device_id == call.device_id
            &&& shown.session_calls@[i].pbx_id == call.pbx_id
            &&& shown.session_calls@[i].call_id == call.sccp_id
        },
{
}

/// What is rendered is shown as it is, and the queues follow it exactly where the
/// sessions are asked for as a whole.
pub proof fn law_queues_follow_the_sessions(
    command: CliDiagnosticCommand,
    arguments: usize,
    snapshot: Result<(), RuntimeCliDiagnosticError>,
    rendered: Result<String, CliDiagnosticError>,
    queues: RuntimeQueues,
    events: Vec<NamedQueue>,
    completed: Option<String>,
    output: Result<String, RuntimeCliDiagnosticError>,
    completion: Option<String>,
)
    requires
        call_ensures(
            render_runtime_cli_diagnostics,
            (command, arguments, snapshot, rendered, queues, &events),
            output,
        ),
        call_ensures(complete_runtime_cli_diagnostics, (snapshot, completed), completion),
    ensures
        output is Ok <==> snapshot is Ok && rendered is Ok,
        output matches Ok(shown) ==> (rendered matches Ok(text) && shown@.len() >= text@.len()
            && shown@.take(text@.len() as int) == text@ && (shown@.len() > text@.len() <==> command
            is Sessions && arguments == 0)),
        snapshot is Ok ==> completion == completed,
        snapshot is Err ==> completion is None,
{
    reveal_strlit("\nRuntime queues (admission retained through completion):\n");
    if let Ok(shown) = output {
        if let Ok(text) = rendered {
            assert(shown@.take(text@.len() as int) =~= text@);
        }
    }
}

} // verus!
