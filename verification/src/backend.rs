//! What can go wrong when the switch is asked for something.

use vstd::prelude::*;
use vstd::string::*;

use crate::hold::ConferenceParticipantRejection;
use crate::ids::{PbxBridgeId, PbxCallId};
use crate::text::{self, decimal_text};

verus! {

/// Text that the switch cannot hold, because it ends at its first zero.
#[derive(Clone, Copy, Debug, PartialEq, Eq, Structural)]
pub struct NativeTextError;

/// Why the switch refused a call feature.
#[derive(Debug, PartialEq, Eq)]
pub enum CallFeatureError {
    InvalidInput { operation: &'static str },
    Native(String),
}

#[derive(Debug, PartialEq, Eq)]
pub enum ChannelAllocationError {
    NativeText { field: &'static str, source: NativeTextError },
    Failed,
}

impl ChannelAllocationError {
    /// What went wrong; `source` are the words of the switch about a text.
    pub fn text(&self, source: &str) -> (words: String)
        ensures
            words@ == match self {
                ChannelAllocationError::NativeText { field, .. } => "invalid native text in "@
                    + field@ + ": "@ + source@,
                ChannelAllocationError::Failed => "native channel allocation failed"@,
            },
    {
        match self {
            ChannelAllocationError::NativeText { field, .. } => {
                let mut words = "invalid native text in ".to_owned();
                words.append(field);
                words.append(": ");
                words.append(source);
                words
            },
            ChannelAllocationError::Failed => "native channel allocation failed".to_owned(),
        }
    }
}

/// A failed operation of the switch.
#[derive(Debug, PartialEq, Eq)]
pub enum AsteriskBackendError {
    NativeText { operation: &'static str, call_id: PbxCallId, source: NativeTextError },
    CallUnavailable { operation: &'static str, call_id: PbxCallId },
    ChannelAllocation { call_id: PbxCallId, allocation: ChannelAllocationError },
    ChannelMetadata { call_id: PbxCallId, reason: String },
    CallFeature(CallFeatureError),
    BridgeConflict { bridge_id: PbxBridgeId },
    BridgeUnavailable { operation: &'static str, bridge_id: PbxBridgeId },
    Failed { operation: &'static str, calls: String },
    Management(String),
}

#[derive(Clone, Copy, Debug, PartialEq, Eq, Structural)]
pub enum ParkingRejection {
    Disabled,
    Conflict,
    Unavailable,
}

/// Why a service failed.
#[derive(Clone, Copy, Debug, PartialEq, Eq, Structural)]
pub enum ServiceProviderError {
    Participant(ConferenceParticipantRejection),
    Parking(ParkingRejection),
    ConferenceConflict,
    CallState,
    ParkingNotFound,
    ParkingConflict,
    /// The handset was not reached.
    Delivery,
}

/// What an operation on one channel comes to: it may find no channel, and the
/// switch may refuse it.
pub open spec fn operation_outcome(
    operation: Seq<char>,
    call_id: PbxCallId,
    result: Option<bool>,
    outcome: Result<(), AsteriskBackendError>,
) -> bool {
    match result {
        Some(true) => outcome is Ok,
        Some(false) => match outcome {
            Err(AsteriskBackendError::Failed { operation: named, calls }) => named@ == operation
                && calls@ == text::decimal(call_id.0 as nat),
            _ => false,
        },
        None => match outcome {
            Err(AsteriskBackendError::CallUnavailable { operation: named, call_id: of }) => named@
                == operation && of == call_id,
            _ => false,
        },
    }
}

/// `result` says whether the channel was there and, if so, whether the switch
/// did as asked.
pub fn typed_operation_result(operation: &'static str, call_id: PbxCallId, result: Option<bool>) ->
    (outcome: Result<(), AsteriskBackendError>)
    ensures
        operation_outcome(operation@, call_id, result, outcome),
{
    match result {
        Some(true) => Ok(()),
        Some(false) => Err(
            AsteriskBackendError::Failed { operation, calls: decimal_text(call_id.0) },
        ),
        None => Err(AsteriskBackendError::CallUnavailable { operation, call_id }),
    }
}

/// An operation succeeded exactly if the call was there and it took; the two ways to
/// fail are told apart, and name the operation.
pub proof fn law_operations_fail_by_name(
    operation: &'static str,
    call_id: PbxCallId,
    result: Option<bool>,
    outcome: Result<(), AsteriskBackendError>,
)
    requires
        call_ensures(typed_operation_result, (operation, call_id, result), outcome),
    ensures
        outcome is Ok <==> result == Some(true),
        result is None ==> (outcome matches Err(AsteriskBackendError::CallUnavailable {
            operation: named,
            call_id: of,
        }) && named@ == operation@ && of == call_id),
        result == Some(false) ==> (outcome matches Err(AsteriskBackendError::Failed {
            operation: named,
            ..
        }) && named@ == operation@),
{
}

} // verus!
