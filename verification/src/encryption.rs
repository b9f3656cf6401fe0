//! Whether the audio of a call may go over the network in clear.

use vstd::prelude::*;
use vstd::string::*;

use crate::access::Access;
use crate::config;
use crate::controller;
use crate::ids::{CallId, DeviceId, SessionGeneration};
use crate::lookup;
use crate::model::{
    AudioEncryptionAdmission, AudioEncryptionCapabilities, AudioEncryptionPolicy, CallAppearance,
};
use crate::text::{self, decimal_text};

verus! {

/// How the protection of a call is settled.
#[derive(Clone, Copy, Debug, PartialEq, Eq, Structural)]
pub enum AdmissionStep {
    /// It was settled before.
    Retained(AudioEncryptionAdmission),
    /// It is settled now, for as long as the call lasts.
    Retain {
        generation: SessionGeneration,
        policy: AudioEncryptionPolicy,
        station: AudioEncryptionCapabilities,
    },
}

pub open spec fn call_words(call_id: CallId) -> Seq<char> {
    "call CallId("@ + text::decimal(call_id.0 as nat) + ")"@
}

fn about_call(call_id: CallId, rest: &str) -> (words: String)
    ensures
        words@ == call_words(call_id) + rest@,
{
    let mut words = "call CallId(".to_owned();
    words.append(decimal_text(call_id.0).as_str());
    words.append(")");
    words.append(rest);
    words
}

/// The policy for the audio of a line: that of its media, else the general one for a
/// guest.
pub open spec fn policy_spec(access: Access, device: Seq<char>, instance: u32) -> Result<
    AudioEncryptionPolicy,
    Seq<char>,
> {
    match access.shared.binding_spec(device, instance) {
        None => Err(" has no configured media binding"@),
        Some(binding) => match binding.media {
            Some(media) => Ok(media.audio_encryption),
            None => if lookup::first(
                access.shared.config.guest_bindings@,
                config::bound_at(device, instance),
            ) is Some {
                Ok(access.shared.config.general.audio_encryption)
            } else {
                Err(" has no audio-encryption policy"@)
            },
        },
    }
}

/// How the protection of a call is settled, or what stands against it.
pub open spec fn admission_spec(access: Access, device: Seq<char>, call_id: CallId) -> Result<
    AdmissionStep,
    Seq<char>,
> {
    match lookup::first(access.shared.controller.appearances@, controller::is_call(call_id)) {
        None => Err(" is not owned by device "@ + device),
        Some(call) => if call.device_id@ != device {
            Err(" is not owned by device "@ + device)
        } else {
            match lookup::first(
                access.shared.controller.runtime@,
                controller::record_of(call.pbx_id),
            ) {
                Some(record) if record.audio_encryption is Some => Ok(
                    AdmissionStep::Retained(record.audio_encryption->0),
                ),
                _ => match lookup::first(
                    access.shared.controller.registered@,
                    controller::is_station(device),
                ) {
                    None => Err(" has no registered station"@),
                    Some(registered) => match policy_spec(access, device, call.line_instance) {
                        Err(words) => Err(words),
                        Ok(policy) => Ok(
                            AdmissionStep::Retain {
                                generation: registered.session_generation,
                                policy,
                                station: registered.audio_encryption,
                            },
                        ),
                    },
                },
            }
        },
    }
}

fn encryption_policy(access: &Access, device_id: &DeviceId, call: &CallAppearance) -> (policy: Result<
    AudioEncryptionPolicy,
    &'static str,
>)
    ensures
        match policy_spec(*access, device_id@, call.line_instance) {
            Ok(wanted) => policy matches Ok(found) && found == wanted,
            Err(words) => policy matches Err(reason) && reason@ == words,
        },
{
    match access.line_binding(device_id, call.line_instance) {
        None => Err(" has no configured media binding"),
        Some(binding) => match &binding.media {
            Some(media) => Ok(media.audio_encryption),
            None => match access.shared.config.guest_hotline_binding(
                device_id,
                call.line_instance,
            ) {
                Some(_) => Ok(access.shared.config.general.audio_encryption),
                None => Err(" has no audio-encryption policy"),
            },
        },
    }
}

/// How the protection of a call is settled, or why it cannot be. What was settled
/// once holds for the whole call, whatever is configured later.
pub fn audio_encryption_admission(access: &Access, device_id: &DeviceId, call_id: CallId) -> (step:
    Result<AdmissionStep, String>)
    ensures
        match admission_spec(*access, device_id@, call_id) {
            Ok(settled) => step matches Ok(found) && found == settled,
            Err(words) => step matches Err(reason) && reason@ == call_words(call_id) + words,
        },
{
    let controller = &access.shared.controller;
    let call = match controller.call(call_id) {
        Some(call) if call.device_id.same(device_id) => call,
        _ => {
            let mut reason = " is not owned by device ".to_owned();
            reason.append(device_id.as_str());
            return Err(about_call(call_id, reason.as_str()));
        },
    };
    match controller.call_runtime_record(call.pbx_id) {
        Some(record) => match record.audio_encryption {
            Some(retained) => {
                return Ok(AdmissionStep::Retained(retained));
            },
            None => {},
        },
        None => {},
    }
    let registered = match controller.registered_device(device_id) {
        Some(registered) => registered,
        None => {
            return Err(about_call(call_id, " has no registered station"));
        },
    };
    match encryption_policy(access, device_id, call) {
        Err(reason) => Err(about_call(call_id, reason)),
        Ok(policy) => Ok(
            AdmissionStep::Retain {
                generation: registered.session_generation,
                policy,
                station: registered.audio_encryption,
            },
        ),
    }
}

/// What the owner of calls made of a settled protection: it may be gone, or the call
/// may have changed meanwhile.
pub fn audio_encryption_retained(
    call_id: CallId,
    reply: Result<Option<AudioEncryptionAdmission>, String>,
) -> (admission: Result<AudioEncryptionAdmission, String>)
    ensures
        match reply {
            Ok(Some(kept)) => admission matches Ok(found) && found == kept,
            Ok(None) => admission matches Err(reason) && reason@ == call_words(call_id)
                + " changed during audio-encryption admission"@,
            Err(error) => admission matches Err(reason) && reason@
                == "audio-encryption owner unavailable: "@ + error@,
        },
{
    match reply {
        Ok(Some(kept)) => Ok(kept),
        Ok(None) => Err(about_call(call_id, " changed during audio-encryption admission")),
        Err(error) => {
            let mut reason = "audio-encryption owner unavailable: ".to_owned();
            reason.append(error.as_str());
            Err(reason)
        },
    }
}

/// How the audio of a call is to be protected.
#[derive(Debug, PartialEq, Eq)]
pub enum MediaEncryptionDecision {
    Clear,
    /// By the named way.
    Encrypted(String),
}

/// Whether audio may go in clear. Nothing here protects audio, so a call that has to
/// be protected is refused.
pub fn admit_clear_audio_media(
    admission: Result<(), String>,
    decision: Result<MediaEncryptionDecision, String>,
) -> (admitted: Result<(), String>)
    ensures
        match (admission, decision) {
            (Err(reason), _) => admitted matches Err(told) && told == reason,
            (Ok(_), Ok(MediaEncryptionDecision::Clear)) => admitted is Ok,
            (Ok(_), Ok(MediaEncryptionDecision::Encrypted(profile))) => admitted matches Err(told)
                && told@ == "audio media profile "@ + profile@
                + " requires a protected stream adapter"@,
            (Ok(_), Err(error)) => admitted matches Err(told) && told@
                == "audio media admission rejected: "@ + error@,
        },
{
    match admission {
        Err(reason) => {
            return Err(reason);
        },
        Ok(_) => {},
    }
    match decision {
        Ok(MediaEncryptionDecision::Clear) => Ok(()),
        Ok(MediaEncryptionDecision::Encrypted(profile)) => {
            let mut reason = "audio media profile ".to_owned();
            reason.append(profile.as_str());
            reason.append(" requires a protected stream adapter");
            Err(reason)
        },
        Err(error) => {
            let mut reason = "audio media admission rejected: ".to_owned();
            reason.append(error.as_str());
            Err(reason)
        },
    }
}

/// Once the protection of a call was settled, it stays what it is: nothing that is
/// configured, and no other registration of the station, changes it.
pub proof fn law_settled_protection_stays(
    before: Access,
    after: Access,
    device: Seq<char>,
    call_id: CallId,
    settled: AudioEncryptionAdmission,
)
    requires
        after.shared.controller.appearances@ == before.shared.controller.appearances@,
        after.shared.controller.runtime@ == before.shared.controller.runtime@,
        admission_spec(before, device, call_id) == Ok::<AdmissionStep, Seq<char>>(
            AdmissionStep::Retained(settled),
        ),
    ensures
        admission_spec(after, device, call_id) == Ok::<AdmissionStep, Seq<char>>(
            AdmissionStep::Retained(settled),
        ),
{
}

/// A call keeps the admission that it once had. A new one is decided for the
/// session and abilities of the station, by the policy of the line that the call is
/// on, and for a guest without one by the general policy; calls of other stations
/// and stations that are not registered get none.
pub proof fn law_encryption_is_decided_once(
    access: &Access,
    device_id: DeviceId,
    call_id: CallId,
    step: Result<AdmissionStep, String>,
    i: int,
    r: int,
    s: int,
)
    requires
        call_ensures(audio_encryption_admission, (access, &device_id, call_id), step),
        0 <= i < access.shared.controller.appearances@.len(),
        access.shared.controller.appearances@[i].sccp_id == call_id,
        forall|j: int|
            0 <= j < i ==> (#[trigger] access.shared.controller.appearances@[j]).sccp_id
                != call_id,
        0 <= r <= access.shared.controller.runtime@.len(),
        forall|j: int|
            0 <= j < r ==> (#[trigger] access.shared.controller.runtime@[j]).pbx_id
                != access.shared.controller.appearances@[i].pbx_id,
        r < access.shared.controller.runtime@.len() ==> access.shared.controller.runtime@[r].pbx_id
            == access.shared.controller.appearances@[i].pbx_id,
        0 <= s <= access.shared.controller.registered@.len(),
        forall|j: int|
            0 <= j < s ==> (#[trigger] access.shared.controller.registered@[j]).id@ != device_id@,
        s < access.shared.controller.registered@.len()
            ==> access.shared.controller.registered@[s].id@ == device_id@,
    ensures
        ({
            let call = access.shared.controller.appearances@[i];
            let own = call.device_id@ == device_id@;
            let decided = r < access.shared.controller.runtime@.len()
                && access.shared.controller.runtime@[r].audio_encryption is Some;
            let line = access.shared.binding_spec(device_id@, call.line_instance);
            &&& step matches Ok(AdmissionStep::Retained(kept)) ==> own && decided
                && access.shared.controller.runtime@[r].audio_encryption == Some(kept)
            &&& own && decided ==> (step matches Ok(found) && found is Retained)
            &&& step matches Ok(AdmissionStep::Retain { generation, policy, station }) ==> {
                &&& own && !decided && s < access.shared.controller.registered@.len()
                &&& generation == access.shared.controller.registered@[s].session_generation
                &&& station == access.shared.controller.registered@[s].audio_encryption
                &&& line is Some
                &&& line->0.media matches Some(media) ==> policy == media.audio_encryption
                &&& line->0.media is None ==> policy
                    == access.shared.config.general.audio_encryption
            }
            &&& own && !decided && s < access.shared.controller.registered@.len() && line is Some
                && line->0.media is Some ==> step is Ok
        }),
{
    lookup::lemma_first_is(
        access.shared.controller.appearances@,
        controller::is_call(call_id),
        i,
    );
    let call = access.shared.controller.appearances@[i];
    let p = controller::record_of(call.pbx_id);
    if r == access.shared.controller.runtime@.len() {
        lookup::lemma_first_none(access.shared.controller.runtime@, p);
    } else {
        lookup::lemma_first_is(access.shared.controller.runtime@, p, r);
    }
    let q = controller::is_station(device_id@);
    if s == access.shared.controller.registered@.len() {
        lookup::lemma_first_none(access.shared.controller.registered@, q);
    } else {
        lookup::lemma_first_is(access.shared.controller.registered@, q, s);
    }
}

/// Clear media are admitted exactly if nothing objected and the decision was for
/// clear media; an admission counts only if it was kept.
pub proof fn law_clear_media_need_a_clear_decision(
    call_id: CallId,
    reply: Result<Option<AudioEncryptionAdmission>, String>,
    kept: Result<AudioEncryptionAdmission, String>,
    admission: Result<(), String>,
    decision: Result<MediaEncryptionDecision, String>,
    admitted: Result<(), String>,
)
    requires
        call_ensures(audio_encryption_retained, (call_id, reply), kept),
        call_ensures(admit_clear_audio_media, (admission, decision), admitted),
    ensures
        kept is Ok <==> (reply matches Ok(found) && found is Some),
        kept matches Ok(kept) ==> reply == Ok::<Option<AudioEncryptionAdmission>, String>(
            Some(kept),
        ),
        admitted is Ok <==> admission is Ok && (decision matches Ok(found) && found is Clear),
        admission matches Err(reason) ==> admitted == Err::<(), String>(reason),
{
}

} // verus!
