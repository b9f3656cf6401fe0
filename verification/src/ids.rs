//! Identities shared by every part of the driver.

use vstd::prelude::*;

verus! {

/// A station name such as `SEP001122334455`.
#[derive(Debug, PartialEq, Eq)]
pub struct DeviceId {
    pub text: String,
}

impl View for DeviceId {
    type V = Seq<char>;

    open spec fn view(&self) -> Seq<char> {
        self.text@
    }
}

impl Clone for DeviceId {
    fn clone(&self) -> (copy: Self)
        ensures
            copy == *self,
    {
        DeviceId { text: self.text.clone() }
    }
}

impl DeviceId {
    pub fn named(text: &str) -> (id: Self)
        ensures
            id@ == text@,
    {
        DeviceId { text: text.to_owned() }
    }

    pub fn as_str(&self) -> (text: &str)
        ensures
            text@ == self@,
    {
        self.text.as_str()
    }

    /// Whether two names denote the same station.
    pub fn same(&self, other: &DeviceId) -> (equal: bool)
        ensures
            equal == (self@ == other@),
    {
        self.text == other.text
    }
}

/// A call as the handset numbers it.
#[derive(Clone, Copy, Debug, PartialEq, Eq, Structural)]
pub struct CallId(pub u64);

/// A call as the switch numbers it.
#[derive(Clone, Copy, Debug, PartialEq, Eq, Structural)]
pub struct PbxCallId(pub u64);

/// A mixing bridge owned by the switch.
#[derive(Clone, Copy, Debug, PartialEq, Eq, Structural)]
pub struct PbxBridgeId(pub u64);

#[derive(Clone, Copy, Debug, PartialEq, Eq, Structural)]
pub struct ConferenceId(pub u32);

#[derive(Clone, Copy, Debug, PartialEq, Eq, Structural)]
pub struct ParticipantId(pub u32);

/// One registration of a station; a later registration has another generation.
#[derive(Clone, Copy, Debug, PartialEq, Eq, Structural)]
pub struct SessionGeneration(pub u64);

} // verus!
