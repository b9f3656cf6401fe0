//! Media that a station opened, could not open or lost.
//!
//! An event is answered in turns: the driver asks for one thing, and what comes
//! back decides what it asks for next.

use vstd::prelude::*;

use crate::access::Access;
use crate::events::{
    self, MediaStatus, PhoneDeviceEvent, PhoneDeviceEventKind, TransmitOpenOutcome,
};
use crate::ids::{CallId, DeviceId, PbxCallId, SessionGeneration};
use crate::media::{
    self, normalize_phone_media_endpoint, normalize_phone_video_endpoint, MediaFailureDisposition,
};
use crate::model::{Codec, IpAddress, MediaEndpoint, MediaEndpointAddress};

verus! {

#[derive(Clone, Copy, Debug, PartialEq, Eq, Structural)]
pub enum MediaKind {
    Audio,
    Video,
}

#[derive(Clone, Copy, Debug, PartialEq, Eq, Structural)]
pub enum MediaDirection {
    Receive,
    Transmit,
}

#[derive(Clone, Copy, Debug, PartialEq, Eq, Structural)]
pub enum PublishedMediaState {
    Open,
    Failed,
}

/// A change of a stream as it is published.
#[derive(Debug, PartialEq, Eq)]
pub struct MediaReport {
    pub device_id: DeviceId,
    pub call_id: CallId,
    pub kind: MediaKind,
    pub direction: MediaDirection,
    pub state: PublishedMediaState,
    pub status: MediaStatus,
    pub codec: Codec,
    pub packet_ms: Option<u32>,
}

/// Why a video call goes on with audio alone.
#[derive(Clone, Copy, Debug, PartialEq, Eq, Structural)]
pub enum VideoFallbackReason {
    NotNegotiated,
    DescriptorUnavailable,
    NativeRtpUnavailable,
    LocalEndpointUnavailable,
    ReceiveFailed,
    TransmitFailed,
}

/// What an event waits for.
#[derive(Debug, PartialEq, Eq)]
pub enum MediaEventState {
    Done,
    SelectingReceive { device_id: DeviceId, call_id: CallId, endpoint: MediaEndpoint },
    AcceptingReceive { device_id: DeviceId, call_id: CallId, endpoint: MediaEndpoint },
    SelectingTransmit { device_id: DeviceId, call_id: CallId, endpoint: MediaEndpoint },
    AcceptingTransmit { device_id: DeviceId, call_id: CallId, endpoint: MediaEndpoint },
    SelectingVideo {
        device_id: DeviceId,
        generation: SessionGeneration,
        call_id: CallId,
        codec: Codec,
        address: MediaEndpointAddress,
    },
    OpeningVideo {
        device_id: DeviceId,
        generation: SessionGeneration,
        call_id: CallId,
        codec: Codec,
        address: MediaEndpointAddress,
        owner: Option<PbxCallId>,
    },
    ConfiguringVideo {
        device_id: DeviceId,
        generation: SessionGeneration,
        call_id: CallId,
        codec: Codec,
        pbx_id: PbxCallId,
    },
    /// A failure is published once the fallback applies; a timeout is not.
    FallingBack {
        device_id: DeviceId,
        call_id: CallId,
        codec: Codec,
        direction: MediaDirection,
        failure: Option<MediaStatus>,
    },
    AcceptingVideoTransmit { device_id: DeviceId, call_id: CallId, codec: Codec },
    Recovering {
        device_id: DeviceId,
        call_id: CallId,
        status: MediaStatus,
        endpoint: MediaEndpoint,
    },
}

/// What came back.
#[derive(Debug, PartialEq, Eq)]
pub enum MediaEventReply {
    Selected(Result<IpAddress, String>),
    Accepted(bool),
    Configured(bool),
    FallbackApplied(bool),
    Disposition(MediaFailureDisposition),
}

/// What an event asks for.
#[derive(Debug, PartialEq, Eq)]
pub enum MediaEventAction {
    /// Select the address that stands for the one the station reported.
    SelectAddress { device_id: DeviceId, reported: IpAddress },
    /// Have the controller take the stream, and execute the effects it returns.
    AcceptReceive { device_id: DeviceId, call_id: CallId, endpoint: MediaEndpoint },
    AcceptTransmit { device_id: DeviceId, call_id: CallId, endpoint: MediaEndpoint },
    AcceptVideoReceive {
        device_id: DeviceId,
        generation: SessionGeneration,
        call_id: CallId,
        codec: Codec,
        address: MediaEndpointAddress,
    },
    AcceptVideoTransmit {
        device_id: DeviceId,
        generation: SessionGeneration,
        call_id: CallId,
        codec: Codec,
        address: MediaEndpointAddress,
        passthrough_party_id: u32,
    },
    ConfigureRemoteVideo { pbx_id: PbxCallId, address: MediaEndpointAddress },
    /// Ask for a fresh frame, publish the stream and begin to transmit.
    StartVideo { pbx_id: PbxCallId, generation: SessionGeneration, report: MediaReport },
    FallBackToAudio {
        device_id: DeviceId,
        generation: SessionGeneration,
        call_id: CallId,
        reason: VideoFallbackReason,
    },
    RecoverAudio { device_id: DeviceId, call_id: CallId, endpoint: MediaEndpoint },
    Publish(MediaReport),
    PublishAndHangUp(MediaReport),
    HangUp { call_id: CallId },
    Finish,
}

pub open spec fn report(
    device_id: DeviceId,
    call_id: CallId,
    kind: MediaKind,
    direction: MediaDirection,
    state: PublishedMediaState,
    status: MediaStatus,
    codec: Codec,
    packet_ms: Option<u32>,
) -> MediaReport {
    MediaReport { device_id, call_id, kind, direction, state, status, codec, packet_ms }
}

/// The first turn of an event.
pub open spec fn begin_spec(event: PhoneDeviceEvent) -> (MediaEventState, MediaEventAction) {
    let device_id = event.device_id;
    let generation = event.session_generation;
    match event.event {
        PhoneDeviceEventKind::ReceiveChannelOpened { call_id, status, endpoint } => if status
            == MediaStatus::Success {
            (
                MediaEventState::SelectingReceive { device_id, call_id, endpoint },
                MediaEventAction::SelectAddress { device_id, reported: endpoint.address },
            )
        } else {
            (MediaEventState::Done, MediaEventAction::HangUp { call_id })
        },
        PhoneDeviceEventKind::TransmitChannelOpen { call_id, outcome, endpoint } => match outcome {
            TransmitOpenOutcome::Acknowledged => (
                MediaEventState::SelectingTransmit { device_id, call_id, endpoint },
                MediaEventAction::SelectAddress { device_id, reported: endpoint.address },
            ),
            TransmitOpenOutcome::Implied | TransmitOpenOutcome::NotReported => (
                MediaEventState::AcceptingTransmit { device_id, call_id, endpoint },
                MediaEventAction::AcceptTransmit { device_id, call_id, endpoint },
            ),
            TransmitOpenOutcome::Rejected(_) => (
                MediaEventState::Done,
                MediaEventAction::HangUp { call_id },
            ),
        },
        PhoneDeviceEventKind::HandsetAcknowledgementTimedOut { call_id } => (
            MediaEventState::Done,
            MediaEventAction::HangUp { call_id },
        ),
        PhoneDeviceEventKind::MediaTransmissionFailed { call_id, status, endpoint } => (
            MediaEventState::Recovering { device_id, call_id, status, endpoint },
            MediaEventAction::RecoverAudio { device_id, call_id, endpoint },
        ),
        PhoneDeviceEventKind::MultimediaReceiveChannelOpened { call_id, codec, address, .. } => (
            MediaEventState::SelectingVideo { device_id, generation, call_id, codec, address },
            MediaEventAction::SelectAddress { device_id, reported: address.address },
        ),
        PhoneDeviceEventKind::MultimediaReceiveChannelFailed { call_id, codec, status } => (
            MediaEventState::FallingBack {
                device_id,
                call_id,
                codec,
                direction: MediaDirection::Receive,
                failure: Some(status),
            },
            MediaEventAction::FallBackToAudio {
                device_id,
                generation,
                call_id,
                reason: VideoFallbackReason::ReceiveFailed,
            },
        ),
        PhoneDeviceEventKind::MultimediaReceiveChannelTimedOut { call_id, codec } => (
            MediaEventState::FallingBack {
                device_id,
                call_id,
                codec,
                direction: MediaDirection::Receive,
                failure: None,
            },
            MediaEventAction::FallBackToAudio {
                device_id,
                generation,
                call_id,
                reason: VideoFallbackReason::ReceiveFailed,
            },
        ),
        PhoneDeviceEventKind::MultimediaTransmitStarted {
            call_id,
            codec,
            address,
            passthrough_party_id,
        } => (
            MediaEventState::AcceptingVideoTransmit { device_id, call_id, codec },
            MediaEventAction::AcceptVideoTransmit {
                device_id,
                generation,
                call_id,
                codec,
                address,
                passthrough_party_id,
            },
        ),
        PhoneDeviceEventKind::MultimediaTransmitFailed { call_id, codec, status } => (
            MediaEventState::FallingBack {
                device_id,
                call_id,
                codec,
                direction: MediaDirection::Transmit,
                failure: Some(status),
            },
            MediaEventAction::FallBackToAudio {
                device_id,
                generation,
                call_id,
                reason: VideoFallbackReason::TransmitFailed,
            },
        ),
        PhoneDeviceEventKind::MultimediaTransmitTimedOut { call_id, codec } => (
            MediaEventState::FallingBack {
                device_id,
                call_id,
                codec,
                direction: MediaDirection::Transmit,
                failure: None,
            },
            MediaEventAction::FallBackToAudio {
                device_id,
                generation,
                call_id,
                reason: VideoFallbackReason::TransmitFailed,
            },
        ),
        _ => (MediaEventState::Done, MediaEventAction::Finish),
    }
}

/// Video that could not be set up goes on as audio.
pub open spec fn give_up_video(
    device_id: DeviceId,
    generation: SessionGeneration,
    call_id: CallId,
) -> (MediaEventState, MediaEventAction) {
    (
        MediaEventState::Done,
        MediaEventAction::FallBackToAudio {
            device_id,
            generation,
            call_id,
            reason: VideoFallbackReason::ReceiveFailed,
        },
    )
}

/// The next turn of an event.
pub open spec fn continue_spec(
    access: Access,
    state: MediaEventState,
    reply: MediaEventReply,
) -> (MediaEventState, MediaEventAction) {
    match (state, reply) {
        (
            MediaEventState::SelectingReceive { device_id, call_id, endpoint },
            MediaEventReply::Selected(selected),
        ) => match media::normalized_spec(access, device_id@, selected) {
            Ok(address) => {
                let endpoint = MediaEndpoint { address, ..endpoint };
                (
                    MediaEventState::AcceptingReceive { device_id, call_id, endpoint },
                    MediaEventAction::AcceptReceive { device_id, call_id, endpoint },
                )
            },
            Err(_) => (MediaEventState::Done, MediaEventAction::HangUp { call_id }),
        },
        (
            MediaEventState::SelectingTransmit { device_id, call_id, endpoint },
            MediaEventReply::Selected(selected),
        ) => match media::normalized_spec(access, device_id@, selected) {
            Ok(address) => {
                let endpoint = MediaEndpoint { address, ..endpoint };
                (
                    MediaEventState::AcceptingTransmit { device_id, call_id, endpoint },
                    MediaEventAction::AcceptTransmit { device_id, call_id, endpoint },
                )
            },
            Err(_) => (MediaEventState::Done, MediaEventAction::HangUp { call_id }),
        },
        (
            MediaEventState::AcceptingReceive { device_id, call_id, endpoint },
            MediaEventReply::Accepted(true),
        ) => (
            MediaEventState::Done,
            MediaEventAction::Publish(
                report(
                    device_id,
                    call_id,
                    MediaKind::Audio,
                    MediaDirection::Receive,
                    PublishedMediaState::Open,
                    MediaStatus::Success,
                    endpoint.codec,
                    Some(endpoint.packet_ms),
                ),
            ),
        ),
        (
            MediaEventState::AcceptingTransmit { device_id, call_id, endpoint },
            MediaEventReply::Accepted(true),
        ) => (
            MediaEventState::Done,
            MediaEventAction::Publish(
                report(
                    device_id,
                    call_id,
                    MediaKind::Audio,
                    MediaDirection::Transmit,
                    PublishedMediaState::Open,
                    MediaStatus::Success,
                    endpoint.codec,
                    Some(endpoint.packet_ms),
                ),
            ),
        ),
        (
            MediaEventState::SelectingVideo { device_id, generation, call_id, codec, address },
            MediaEventReply::Selected(selected),
        ) => match media::normalized_spec(access, device_id@, selected) {
            Ok(selected) => {
                let address = MediaEndpointAddress { address: selected, ..address };
                (
                    MediaEventState::OpeningVideo {
                        device_id,
                        generation,
                        call_id,
                        codec,
                        address,
                        owner: access.shared.controller.owned_pbx_spec(device_id@, call_id),
                    },
                    MediaEventAction::AcceptVideoReceive {
                        device_id,
                        generation,
                        call_id,
                        codec,
                        address,
                    },
                )
            },
            Err(_) => give_up_video(device_id, generation, call_id),
        },
        (
            MediaEventState::OpeningVideo { device_id, generation, call_id, codec, address, owner },
            MediaEventReply::Accepted(accepted),
        ) => match owner {
            Some(pbx_id) if accepted => (
                MediaEventState::ConfiguringVideo { device_id, generation, call_id, codec, pbx_id },
                MediaEventAction::ConfigureRemoteVideo { pbx_id, address },
            ),
            _ => give_up_video(device_id, generation, call_id),
        },
        (
            MediaEventState::ConfiguringVideo { device_id, generation, call_id, codec, pbx_id },
            MediaEventReply::Configured(configured),
        ) => if configured {
            (
                MediaEventState::Done,
                MediaEventAction::StartVideo {
                    pbx_id,
                    generation,
                    report: report(
                        device_id,
                        call_id,
                        MediaKind::Video,
                        MediaDirection::Receive,
                        PublishedMediaState::Open,
                        MediaStatus::Success,
                        codec,
                        None,
                    ),
                },
            )
        } else {
            give_up_video(device_id, generation, call_id)
        },
        (
            MediaEventState::FallingBack { device_id, call_id, codec, direction, failure },
            MediaEventReply::FallbackApplied(applied),
        ) => match failure {
            Some(status) if applied && access.shared.controller.owned_pbx_spec(
                device_id@,
                call_id,
            ) is Some => (
                MediaEventState::Done,
                MediaEventAction::Publish(
                    report(
                        device_id,
                        call_id,
                        MediaKind::Video,
                        direction,
                        PublishedMediaState::Failed,
                        status,
                        codec,
                        None,
                    ),
                ),
            ),
            _ => (MediaEventState::Done, MediaEventAction::Finish),
        },
        (
            MediaEventState::AcceptingVideoTransmit { device_id, call_id, codec },
            MediaEventReply::Accepted(accepted),
        ) => if accepted && access.shared.controller.owned_pbx_spec(device_id@, call_id) is Some {
            (
                MediaEventState::Done,
                MediaEventAction::Publish(
                    report(
                        device_id,
                        call_id,
                        MediaKind::Video,
                        MediaDirection::Transmit,
                        PublishedMediaState::Open,
                        MediaStatus::Success,
                        codec,
                        None,
                    ),
                ),
            )
        } else {
            (MediaEventState::Done, MediaEventAction::Finish)
        },
        (
            MediaEventState::Recovering { device_id, call_id, status, endpoint },
            MediaEventReply::Disposition(disposition),
        ) => {
            let failed = report(
                device_id,
                call_id,
                MediaKind::Audio,
                MediaDirection::Transmit,
                PublishedMediaState::Failed,
                status,
                endpoint.codec,
                Some(endpoint.packet_ms),
            );
            match disposition {
                MediaFailureDisposition::Ignored => (
                    MediaEventState::Done,
                    MediaEventAction::Finish,
                ),
                MediaFailureDisposition::Retrying => (
                    MediaEventState::Done,
                    MediaEventAction::Publish(failed),
                ),
                MediaFailureDisposition::Hangup => (
                    MediaEventState::Done,
                    MediaEventAction::PublishAndHangUp(failed),
                ),
            }
        },
        _ => (MediaEventState::Done, MediaEventAction::Finish),
    }
}

fn fall_back(
    device_id: DeviceId,
    generation: SessionGeneration,
    call_id: CallId,
    reason: VideoFallbackReason,
) -> (action: MediaEventAction)
    ensures
        action == (MediaEventAction::FallBackToAudio { device_id, generation, call_id, reason }),
{
    MediaEventAction::FallBackToAudio { device_id, generation, call_id, reason }
}

/// Begins to answer a media event.
pub fn handle_media_event(event: PhoneDeviceEvent) -> (step: (MediaEventState, MediaEventAction))
    requires
        events::is_media_event(event.event),
    ensures
        step == begin_spec(event),
{
    let device_id = event.device_id;
    let generation = event.session_generation;
    match event.event {
        PhoneDeviceEventKind::ReceiveChannelOpened { call_id, status, endpoint } => {
            if status == MediaStatus::Success {
                let action = MediaEventAction::SelectAddress {
                    device_id: device_id.clone(),
                    reported: endpoint.address,
                };
                (MediaEventState::SelectingReceive { device_id, call_id, endpoint }, action)
            } else {
                (MediaEventState::Done, MediaEventAction::HangUp { call_id })
            }
        },
        PhoneDeviceEventKind::TransmitChannelOpen { call_id, outcome, endpoint } => match outcome {
            TransmitOpenOutcome::Acknowledged => {
                let action = MediaEventAction::SelectAddress {
                    device_id: device_id.clone(),
                    reported: endpoint.address,
                };
                (MediaEventState::SelectingTransmit { device_id, call_id, endpoint }, action)
            },
            TransmitOpenOutcome::Implied | TransmitOpenOutcome::NotReported => {
                let action = MediaEventAction::AcceptTransmit {
                    device_id: device_id.clone(),
                    call_id,
                    endpoint,
                };
                (MediaEventState::AcceptingTransmit { device_id, call_id, endpoint }, action)
            },
            TransmitOpenOutcome::Rejected(_) => (
                MediaEventState::Done,
                MediaEventAction::HangUp { call_id },
            ),
        },
        PhoneDeviceEventKind::HandsetAcknowledgementTimedOut { call_id } => (
            MediaEventState::Done,
            MediaEventAction::HangUp { call_id },
        ),
        PhoneDeviceEventKind::MediaTransmissionFailed { call_id, status, endpoint } => {
            let action = MediaEventAction::RecoverAudio {
                device_id: device_id.clone(),
                call_id,
                endpoint,
            };
            (MediaEventState::Recovering { device_id, call_id, status, endpoint }, action)
        },
        PhoneDeviceEventKind::MultimediaReceiveChannelOpened { call_id, codec, address, .. } => {
            let action = MediaEventAction::SelectAddress {
                device_id: device_id.clone(),
                reported: address.address,
            };
            (
                MediaEventState::SelectingVideo { device_id, generation, call_id, codec, address },
                action,
            )
        },
        PhoneDeviceEventKind::MultimediaReceiveChannelFailed { call_id, codec, status } => {
            let action = fall_back(
                device_id.clone(),
                generation,
                call_id,
                VideoFallbackReason::ReceiveFailed,
            );
            (
                MediaEventState::FallingBack {
                    device_id,
                    call_id,
                    codec,
                    direction: MediaDirection::Receive,
                    failure: Some(status),
                },
                action,
            )
        },
        PhoneDeviceEventKind::MultimediaReceiveChannelTimedOut { call_id, codec } => {
            let action = fall_back(
                device_id.clone(),
                generation,
                call_id,
                VideoFallbackReason::ReceiveFailed,
            );
            (
                MediaEventState::FallingBack {
                    device_id,
                    call_id,
                    codec,
                    direction: MediaDirection::Receive,
                    failure: None,
                },
                action,
            )
        },
        PhoneDeviceEventKind::MultimediaTransmitStarted {
            call_id,
            codec,
            address,
            passthrough_party_id,
        } => {
            let action = MediaEventAction::AcceptVideoTransmit {
                device_id: device_id.clone(),
                generation,
                call_id,
                codec,
                address,
                passthrough_party_id,
            };
            (MediaEventState::AcceptingVideoTransmit { device_id, call_id, codec }, action)
        },
        PhoneDeviceEventKind::MultimediaTransmitFailed { call_id, codec, status } => {
            let action = fall_back(
                device_id.clone(),
                generation,
                call_id,
                VideoFallbackReason::TransmitFailed,
            );
            (
                MediaEventState::FallingBack {
                    device_id,
                    call_id,
                    codec,
                    direction: MediaDirection::Transmit,
                    failure: Some(status),
                },
                action,
            )
        },
        PhoneDeviceEventKind::MultimediaTransmitTimedOut { call_id, codec } => {
            let action = fall_back(
                device_id.clone(),
                generation,
                call_id,
                VideoFallbackReason::TransmitFailed,
            );
            (
                MediaEventState::FallingBack {
                    device_id,
                    call_id,
                    codec,
                    direction: MediaDirection::Transmit,
                    failure: None,
                },
                action,
            )
        },
        _ => (MediaEventState::Done, MediaEventAction::Finish),
    }
}

fn open_report(
    device_id: DeviceId,
    call_id: CallId,
    direction: MediaDirection,
    endpoint: MediaEndpoint,
) -> (published: MediaReport)
    ensures
        published == report(
            device_id,
            call_id,
            MediaKind::Audio,
            direction,
            PublishedMediaState::Open,
            MediaStatus::Success,
            endpoint.codec,
            Some(endpoint.packet_ms),
        ),
{
    MediaReport {
        device_id,
        call_id,
        kind: MediaKind::Audio,
        direction,
        state: PublishedMediaState::Open,
        status: MediaStatus::Success,
        codec: endpoint.codec,
        packet_ms: Some(endpoint.packet_ms),
    }
}

fn video_report(
    device_id: DeviceId,
    call_id: CallId,
    direction: MediaDirection,
    state: PublishedMediaState,
    status: MediaStatus,
    codec: Codec,
) -> (published: MediaReport)
    ensures
        published == report(
            device_id,
            call_id,
            MediaKind::Video,
            direction,
            state,
            status,
            codec,
            None,
        ),
{
    MediaReport {
        device_id,
        call_id,
        kind: MediaKind::Video,
        direction,
        state,
        status,
        codec,
        packet_ms: None,
    }
}

/// Goes on with a media event. A reply that was not asked for ends it.
pub fn continue_media_event(
    access: &Access,
    state: MediaEventState,
    reply: MediaEventReply,
) -> (step: (MediaEventState, MediaEventAction))
    ensures
        step == continue_spec(*access, state, reply),
{
    match (state, reply) {
        (
            MediaEventState::SelectingReceive { device_id, call_id, endpoint },
            MediaEventReply::Selected(selected),
        ) => {
            let mut endpoint = endpoint;
            match normalize_phone_media_endpoint(access, &device_id, &mut endpoint, selected) {
                Ok(()) => {
                    let action = MediaEventAction::AcceptReceive {
                        device_id: device_id.clone(),
                        call_id,
                        endpoint,
                    };
                    (MediaEventState::AcceptingReceive { device_id, call_id, endpoint }, action)
                },
                Err(_) => (MediaEventState::Done, MediaEventAction::HangUp { call_id }),
            }
        },
        (
            MediaEventState::SelectingTransmit { device_id, call_id, endpoint },
            MediaEventReply::Selected(selected),
        ) => {
            let mut endpoint = endpoint;
            match normalize_phone_media_endpoint(access, &device_id, &mut endpoint, selected) {
                Ok(()) => {
                    let action = MediaEventAction::AcceptTransmit {
                        device_id: device_id.clone(),
                        call_id,
                        endpoint,
                    };
                    (MediaEventState::AcceptingTransmit { device_id, call_id, endpoint }, action)
                },
                Err(_) => (MediaEventState::Done, MediaEventAction::HangUp { call_id }),
            }
        },
        (
            MediaEventState::AcceptingReceive { device_id, call_id, endpoint },
            MediaEventReply::Accepted(true),
        ) => (
            MediaEventState::Done,
            MediaEventAction::Publish(
                open_report(device_id, call_id, MediaDirection::Receive, endpoint),
            ),
        ),
        (
            MediaEventState::AcceptingTransmit { device_id, call_id, endpoint },
            MediaEventReply::Accepted(true),
        ) => (
            MediaEventState::Done,
            MediaEventAction::Publish(
                open_report(device_id, call_id, MediaDirection::Transmit, endpoint),
            ),
        ),
        (
            MediaEventState::SelectingVideo { device_id, generation, call_id, codec, address },
            MediaEventReply::Selected(selected),
        ) => {
            let owner = access.shared.controller.owned_pbx_call(&device_id, call_id);
            let mut address = address;
            match normalize_phone_video_endpoint(access, &device_id, &mut address, selected) {
                Ok(()) => {
                    let action = MediaEventAction::AcceptVideoReceive {
                        device_id: device_id.clone(),
                        generation,
                        call_id,
                        codec,
                        address,
                    };
                    (
                        MediaEventState::OpeningVideo {
                            device_id,
                            generation,
                            call_id,
                            codec,
                            address,
                            owner,
                        },
                        action,
                    )
                },
                Err(_) => (
                    MediaEventState::Done,
                    fall_back(device_id, generation, call_id, VideoFallbackReason::ReceiveFailed),
                ),
            }
        },
        (
            MediaEventState::OpeningVideo { device_id, generation, call_id, codec, address, owner },
            MediaEventReply::Accepted(accepted),
        ) => match owner {
            Some(pbx_id) => if accepted {
                (
                    MediaEventState::ConfiguringVideo {
                        device_id,
                        generation,
                        call_id,
                        codec,
                        pbx_id,
                    },
                    MediaEventAction::ConfigureRemoteVideo { pbx_id, address },
                )
            } else {
                (
                    MediaEventState::Done,
                    fall_back(device_id, generation, call_id, VideoFallbackReason::ReceiveFailed),
                )
            },
            None => (
                MediaEventState::Done,
                fall_back(device_id, generation, call_id, VideoFallbackReason::ReceiveFailed),
            ),
        },
        (
            MediaEventState::ConfiguringVideo { device_id, generation, call_id, codec, pbx_id },
            MediaEventReply::Configured(configured),
        ) => if configured {
            (
                MediaEventState::Done,
                MediaEventAction::StartVideo {
                    pbx_id,
                    generation,
                    report: video_report(
                        device_id,
                        call_id,
                        MediaDirection::Receive,
                        PublishedMediaState::Open,
                        MediaStatus::Success,
                        codec,
                    ),
                },
            )
        } else {
            (
                MediaEventState::Done,
                fall_back(device_id, generation, call_id, VideoFallbackReason::ReceiveFailed),
            )
        },
        (
            MediaEventState::FallingBack { device_id, call_id, codec, direction, failure },
            MediaEventReply::FallbackApplied(applied),
        ) => match failure {
            Some(status) => {
                if applied && access.shared.controller.owned_pbx_call(
                    &device_id,
                    call_id,
                ).is_some() {
                    (
                        MediaEventState::Done,
                        MediaEventAction::Publish(
                            video_report(
                                device_id,
                                call_id,
                                direction,
                                PublishedMediaState::Failed,
                                status,
                                codec,
                            ),
                        ),
                    )
                } else {
                    (MediaEventState::Done, MediaEventAction::Finish)
                }
            },
            None => (MediaEventState::Done, MediaEventAction::Finish),
        },
        (
            MediaEventState::AcceptingVideoTransmit { device_id, call_id, codec },
            MediaEventReply::Accepted(accepted),
        ) => {
            if accepted && access.shared.controller.owned_pbx_call(&device_id, call_id).is_some() {
                (
                    MediaEventState::Done,
                    MediaEventAction::Publish(
                        video_report(
                            device_id,
                            call_id,
                            MediaDirection::Transmit,
                            PublishedMediaState::Open,
                            MediaStatus::Success,
                            codec,
                        ),
                    ),
                )
            } else {
                (MediaEventState::Done, MediaEventAction::Finish)
            }
        },
        (
            MediaEventState::Recovering { device_id, call_id, status, endpoint },
            MediaEventReply::Disposition(disposition),
        ) => {
            let failed = MediaReport {
                device_id,
                call_id,
                kind: MediaKind::Audio,
                direction: MediaDirection::Transmit,
                state: PublishedMediaState::Failed,
                status,
                codec: endpoint.codec,
                packet_ms: Some(endpoint.packet_ms),
            };
            match disposition {
                MediaFailureDisposition::Ignored => (
                    MediaEventState::Done,
                    MediaEventAction::Finish,
                ),
                MediaFailureDisposition::Retrying => (
                    MediaEventState::Done,
                    MediaEventAction::Publish(failed),
                ),
                MediaFailureDisposition::Hangup => (
                    MediaEventState::Done,
                    MediaEventAction::PublishAndHangUp(failed),
                ),
            }
        },
        _ => (MediaEventState::Done, MediaEventAction::Finish),
    }
}

/// An event never asks for more than three things before it ends.
pub open spec fn turns_left(state: MediaEventState) -> nat {
    match state {
        MediaEventState::Done => 0,
        MediaEventState::SelectingVideo { .. } => 3,
        MediaEventState::OpeningVideo { .. } => 2,
        MediaEventState::SelectingReceive { .. } => 2,
        MediaEventState::SelectingTransmit { .. } => 2,
        _ => 1,
    }
}

/// Every reply brings an event closer to its end.
pub proof fn law_media_events_end(
    access: Access,
    event: PhoneDeviceEvent,
    state: MediaEventState,
    reply: MediaEventReply,
)
    ensures
        turns_left(begin_spec(event).0) <= 3,
        !(state is Done) ==> turns_left(continue_spec(access, state, reply).0) < turns_left(state),
        state is Done ==> continue_spec(access, state, reply) == (
            MediaEventState::Done,
            MediaEventAction::Finish,
        ),
{
}

/// A stream is published as open only after the controller took it; a video
/// receiver only after the switch was told of it too.
pub proof fn law_open_streams_were_accepted(
    access: Access,
    state: MediaEventState,
    reply: MediaEventReply,
)
    ensures
        match continue_spec(access, state, reply).1 {
            MediaEventAction::Publish(published) => published.state == PublishedMediaState::Open
                ==> reply == MediaEventReply::Accepted(true),
            MediaEventAction::StartVideo { .. } => reply == MediaEventReply::Configured(true),
            _ => true,
        },
{
}

/// A channel that was opened is accepted once its address is chosen; one that could
/// not be opened ends its call, and so does a station that does not answer. The
/// station is taken at its word where it acknowledges nothing.
pub proof fn law_opened_channels_are_accepted(
    event: PhoneDeviceEvent,
    step: (MediaEventState, MediaEventAction),
)
    requires
        call_ensures(handle_media_event, (event,), step),
    ensures
        event.event matches PhoneDeviceEventKind::ReceiveChannelOpened {
            call_id,
            status,
            endpoint,
        } ==> {
            &&& status == MediaStatus::Success ==> step.1 == (MediaEventAction::SelectAddress {
                device_id: event.device_id,
                reported: endpoint.address,
            }) && step.0 == (MediaEventState::SelectingReceive {
                device_id: event.device_id,
                call_id,
                endpoint,
            })
            &&& status != MediaStatus::Success ==> step.1 == (MediaEventAction::HangUp { call_id })
        },
        event.event matches PhoneDeviceEventKind::TransmitChannelOpen {
            call_id,
            outcome,
            endpoint,
        } ==> {
            &&& outcome is Acknowledged ==> step.1 == (MediaEventAction::SelectAddress {
                device_id: event.device_id,
                reported: endpoint.address,
            }) && step.0 == (MediaEventState::SelectingTransmit {
                device_id: event.device_id,
                call_id,
                endpoint,
            })
            &&& outcome is Implied || outcome is NotReported ==> step.1 == (
            MediaEventAction::AcceptTransmit { device_id: event.device_id, call_id, endpoint })
                && step.0 == (MediaEventState::AcceptingTransmit {
                device_id: event.device_id,
                call_id,
                endpoint,
            })
            &&& outcome is Rejected ==> step.1 == (MediaEventAction::HangUp { call_id })
        },
        event.event matches PhoneDeviceEventKind::HandsetAcknowledgementTimedOut { call_id }
            ==> step.1 == (MediaEventAction::HangUp { call_id }),
        event.event matches PhoneDeviceEventKind::MediaTransmissionFailed {
            call_id,
            status,
            endpoint,
        } ==> step.1 == (MediaEventAction::RecoverAudio {
            device_id: event.device_id,
            call_id,
            endpoint,
        }) && step.0 == (MediaEventState::Recovering {
            device_id: event.device_id,
            call_id,
            status,
            endpoint,
        }),
{
}

/// Video that fails or does not come up in either direction leaves audio to the
/// call, in the session that it failed in and for that direction's reason; what is
/// kept for the report is the status that the station gave, and none for silence.
pub proof fn law_failed_video_falls_back_to_audio(
    event: PhoneDeviceEvent,
    step: (MediaEventState, MediaEventAction),
)
    requires
        call_ensures(handle_media_event, (event,), step),
    ensures
        step.1 matches MediaEventAction::FallBackToAudio { device_id, generation, reason, .. }
            ==> device_id == event.device_id && generation == event.session_generation && (reason
            == VideoFallbackReason::ReceiveFailed
            <==> event.event is MultimediaReceiveChannelFailed
            || event.event is MultimediaReceiveChannelTimedOut) && (reason
            == VideoFallbackReason::TransmitFailed <==> event.event is MultimediaTransmitFailed
            || event.event is MultimediaTransmitTimedOut),
        event.event matches PhoneDeviceEventKind::MultimediaReceiveChannelFailed {
            call_id,
            codec,
            status,
        } ==> step.1 is FallBackToAudio && step.0 == (MediaEventState::FallingBack {
            device_id: event.device_id,
            call_id,
            codec,
            direction: MediaDirection::Receive,
            failure: Some(status),
        }),
        event.event matches PhoneDeviceEventKind::MultimediaTransmitFailed {
            call_id,
            codec,
            status,
        } ==> step.1 is FallBackToAudio && step.0 == (MediaEventState::FallingBack {
            device_id: event.device_id,
            call_id,
            codec,
            direction: MediaDirection::Transmit,
            failure: Some(status),
        }),
        event.event matches PhoneDeviceEventKind::MultimediaReceiveChannelTimedOut {
            call_id,
            codec,
        } ==> step.1 is FallBackToAudio && step.0 == (MediaEventState::FallingBack {
            device_id: event.device_id,
            call_id,
            codec,
            direction: MediaDirection::Receive,
            failure: None,
        }),
        event.event matches PhoneDeviceEventKind::MultimediaTransmitTimedOut { call_id, codec }
            ==> step.1 is FallBackToAudio && step.0 == (MediaEventState::FallingBack {
            device_id: event.device_id,
            call_id,
            codec,
            direction: MediaDirection::Transmit,
            failure: None,
        }),
        event.event matches PhoneDeviceEventKind::MultimediaReceiveChannelOpened {
            call_id,
            codec,
            address,
            ..
        } ==> step.1 == (MediaEventAction::SelectAddress {
            device_id: event.device_id,
            reported: address.address,
        }) && step.0 == (MediaEventState::SelectingVideo {
            device_id: event.device_id,
            generation: event.session_generation,
            call_id,
            codec,
            address,
        }),
        event.event matches PhoneDeviceEventKind::MultimediaTransmitStarted {
            call_id,
            codec,
            address,
            passthrough_party_id,
        } ==> step.1 == (MediaEventAction::AcceptVideoTransmit {
            device_id: event.device_id,
            generation: event.session_generation,
            call_id,
            codec,
            address,
            passthrough_party_id,
        }) && step.0 == (MediaEventState::AcceptingVideoTransmit {
            device_id: event.device_id,
            call_id,
            codec,
        }),
{
}

/// An audio channel whose address could be chosen is accepted in its own direction
/// under that address; else the call ends. Once accepted it is reported as open,
/// with its codec and packets.
pub proof fn law_audio_is_accepted_under_the_chosen_address(
    access: &Access,
    device_id: DeviceId,
    call_id: CallId,
    endpoint: MediaEndpoint,
    selected: Result<IpAddress, String>,
    known: Result<(), media::AddressError>,
    moved: &mut MediaEndpoint,
    receiving: (MediaEventState, MediaEventAction),
    transmitting: (MediaEventState, MediaEventAction),
    received: (MediaEventState, MediaEventAction),
    transmitted: (MediaEventState, MediaEventAction),
)
    requires
        call_ensures(
            normalize_phone_media_endpoint,
            (access, &device_id, moved, selected),
            known,
        ),
        call_ensures(
            continue_media_event,
            (
                access,
                (MediaEventState::SelectingReceive { device_id, call_id, endpoint }),
                MediaEventReply::Selected(selected),
            ),
            receiving,
        ),
        call_ensures(
            continue_media_event,
            (
                access,
                (MediaEventState::SelectingTransmit { device_id, call_id, endpoint }),
                MediaEventReply::Selected(selected),
            ),
            transmitting,
        ),
        call_ensures(
            continue_media_event,
            (
                access,
                (MediaEventState::AcceptingReceive { device_id, call_id, endpoint }),
                MediaEventReply::Accepted(true),
            ),
            received,
        ),
        call_ensures(
            continue_media_event,
            (
                access,
                (MediaEventState::AcceptingTransmit { device_id, call_id, endpoint }),
                MediaEventReply::Accepted(true),
            ),
            transmitted,
        ),
    ensures
        receiving.1 is AcceptReceive <==> known is Ok,
        transmitting.1 is AcceptTransmit <==> known is Ok,
        receiving.1 matches MediaEventAction::AcceptReceive {
            device_id: on,
            call_id: of,
            endpoint: at,
        } ==> on == device_id && of == call_id && selected == Ok::<IpAddress, String>(at.address)
            && at.rtp_port == endpoint.rtp_port && at.codec == endpoint.codec && receiving.0 == (
        MediaEventState::AcceptingReceive { device_id, call_id, endpoint: at }),
        transmitting.1 matches MediaEventAction::AcceptTransmit {
            device_id: on,
            call_id: of,
            endpoint: at,
        } ==> on == device_id && of == call_id && selected == Ok::<IpAddress, String>(at.address)
            && at.rtp_port == endpoint.rtp_port && at.codec == endpoint.codec && transmitting.0 == (
        MediaEventState::AcceptingTransmit { device_id, call_id, endpoint: at }),
        known is Err ==> receiving.1 == (MediaEventAction::HangUp { call_id }) && transmitting.1
            == (MediaEventAction::HangUp { call_id }),
        received.1 matches MediaEventAction::Publish(told) && told.device_id == device_id
            && told.call_id == call_id && told.kind == MediaKind::Audio && told.direction
            == MediaDirection::Receive && told.state == PublishedMediaState::Open && told.status
            == MediaStatus::Success && told.codec == endpoint.codec && told.packet_ms == Some(
            endpoint.packet_ms,
        ),
        transmitted.1 matches MediaEventAction::Publish(told) && told.device_id == device_id
            && told.call_id == call_id && told.kind == MediaKind::Audio && told.direction
            == MediaDirection::Transmit && told.state == PublishedMediaState::Open && told.status
            == MediaStatus::Success && told.codec == endpoint.codec && told.packet_ms == Some(
            endpoint.packet_ms,
        ),
{
}

/// Video is started after its address was chosen, the controller accepted it for a
/// call that the station owns, and the other end was told where to send; a failure
/// on that way leaves audio.
pub proof fn law_video_starts_in_order(
    access: &Access,
    state: MediaEventState,
    reply: MediaEventReply,
    after: MediaEventState,
    action: MediaEventAction,
)
    requires
        call_ensures(continue_media_event, (access, state, reply), (after, action)),
    ensures
        action matches MediaEventAction::AcceptVideoReceive {
            device_id,
            generation,
            call_id,
            codec,
            address,
        } ==> (state matches MediaEventState::SelectingVideo {
            device_id: on,
            generation: in_session,
            call_id: of,
            codec: with,
            address: reported,
        } && on == device_id && in_session == generation && of == call_id && with == codec
            && address.port == reported.port && reply == MediaEventReply::Selected(
            Ok::<IpAddress, String>(address.address),
        ) && after == (MediaEventState::OpeningVideo {
            device_id,
            generation,
            call_id,
            codec,
            address,
            owner: access.shared.controller.owned_pbx_spec(device_id@, call_id),
        })),
        action matches MediaEventAction::ConfigureRemoteVideo { pbx_id, address } ==> (
        state matches MediaEventState::OpeningVideo { address: at, owner, .. } && at == address
            && owner == Some(pbx_id) && reply == MediaEventReply::Accepted(true)),
        action matches MediaEventAction::StartVideo { pbx_id, generation, report: told } ==> (
        state matches MediaEventState::ConfiguringVideo {
            device_id,
            generation: in_session,
            call_id,
            codec,
            pbx_id: of,
        } && of == pbx_id && in_session == generation && reply == MediaEventReply::Configured(true)
            && told.device_id == device_id && told.call_id == call_id && told.kind
            == MediaKind::Video && told.direction == MediaDirection::Receive && told.state
            == PublishedMediaState::Open && told.codec == codec && told.packet_ms is None),
        state is OpeningVideo && reply == MediaEventReply::Accepted(true)
            && state->OpeningVideo_owner is Some ==> action is ConfigureRemoteVideo
            && after is ConfiguringVideo,
        state is ConfiguringVideo && reply == MediaEventReply::Configured(true)
            ==> action is StartVideo,
        state is ConfiguringVideo && reply == MediaEventReply::Configured(false)
            ==> action is FallBackToAudio,
        state is OpeningVideo && reply == MediaEventReply::Accepted(false)
            ==> action is FallBackToAudio,
        action matches MediaEventAction::FallBackToAudio { reason, .. } ==> reason
            == VideoFallbackReason::ReceiveFailed,
        !(action is SelectAddress || action is AcceptVideoTransmit || action is RecoverAudio),
{
}

/// A failure is reported as what it was: of video once audio was fallen back to and
/// the station still owns the call, of audio unless it did not concern the call,
/// and a call that cannot go on is hung up with the report.
pub proof fn law_media_failures_are_reported(
    access: &Access,
    state: MediaEventState,
    reply: MediaEventReply,
    after: MediaEventState,
    action: MediaEventAction,
)
    requires
        call_ensures(continue_media_event, (access, state, reply), (after, action)),
    ensures
        state matches MediaEventState::FallingBack {
            device_id,
            call_id,
            codec,
            direction,
            failure,
        } ==> {
            &&& action is Publish <==> failure is Some && reply
                == MediaEventReply::FallbackApplied(true)
                && access.shared.controller.owned_pbx_spec(device_id@, call_id) is Some
            &&& action matches MediaEventAction::Publish(told) ==> told.device_id == device_id
                && told.call_id == call_id && told.codec == codec && told.direction == direction
                && failure == Some(told.status) && told.kind == MediaKind::Video && told.state
                == PublishedMediaState::Failed
        },
        state matches MediaEventState::AcceptingVideoTransmit { device_id, call_id, codec } ==> {
            &&& action is Publish <==> reply == MediaEventReply::Accepted(true)
                && access.shared.controller.owned_pbx_spec(device_id@, call_id) is Some
            &&& action matches MediaEventAction::Publish(told) ==> told.device_id == device_id
                && told.call_id == call_id && told.codec == codec && told.direction
                == MediaDirection::Transmit && told.kind == MediaKind::Video && told.state
                == PublishedMediaState::Open
        },
        state matches MediaEventState::Recovering { device_id, call_id, status, endpoint } ==> {
            &&& action is Publish <==> reply == MediaEventReply::Disposition(
                MediaFailureDisposition::Retrying,
            )
            &&& action is PublishAndHangUp <==> reply == MediaEventReply::Disposition(
                MediaFailureDisposition::Hangup,
            )
            &&& action matches MediaEventAction::Publish(told) ==> told.call_id == call_id
                && told.status == status && told.state == PublishedMediaState::Failed && told.kind
                == MediaKind::Audio && told.direction == MediaDirection::Transmit
            &&& action matches MediaEventAction::PublishAndHangUp(told) ==> told.device_id
                == device_id && told.call_id == call_id && told.status == status && told.codec
                == endpoint.codec && told.state == PublishedMediaState::Failed
        },
{
}

} // verus!
