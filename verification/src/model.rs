//! The service as a state machine over plain values.
//!
//! A service is idle or waits for one reply of the platform. Starting a
//! pairing or a write moves it from idle to waiting; a reply moves it on to
//! the next request of the pairing, or back to idle with a result. Every
//! request is made on the object that the reply before it brought. Only the
//! last reply of a pairing installs a connection.

use crate::error::{BleError, PairingStep};
use crate::gatt::{GREEN_SIGNAL, PRIMARY_SERVICE_UUID, WRITE_CHARACTERISTIC_UUID};
use crate::platform::{DeviceView, ProgressView, ReplyView, RequestView};
use vstd::prelude::*;

verus! {

/// An established connection: the characteristic to write to, and the name
/// that the peripheral advertised.
pub struct ConnectionView<H> {
    pub name: Option<Seq<char>>,
    pub characteristic: H,
}

/// What a busy service waits on: the step of the pairing, with the device
/// that was picked and the object that the step's request is made on; or a
/// write.
pub enum PendingView<H> {
    /// Waiting for the user to pick a device.
    Selecting,
    /// Waiting for the GATT server `gatt` of the device to connect.
    Connecting { device: DeviceView, gatt: H },
    /// Waiting for the connected `server` to find the primary service.
    ResolvingService { device: DeviceView, server: H },
    /// Waiting for `service` to find the write characteristic.
    ResolvingCharacteristic { device: DeviceView, service: H },
    /// Waiting for the platform to take a write.
    Writing,
}

impl<H> PendingView<H> {
    /// The pairing step that is waited on; none while a write is.
    pub open spec fn step(self) -> Option<PairingStep> {
        match self {
            PendingView::Selecting => Some(PairingStep::SelectDevice),
            PendingView::Connecting { .. } => Some(PairingStep::ConnectGatt),
            PendingView::ResolvingService { .. } => Some(PairingStep::ResolveService),
            PendingView::ResolvingCharacteristic { .. } => Some(PairingStep::ResolveCharacteristic),
            PendingView::Writing => None,
        }
    }

    /// The error reported when the platform does not deliver what is waited
    /// on.
    pub open spec fn failure(self) -> BleError {
        match self {
            PendingView::Selecting => BleError::NoDeviceSelected,
            PendingView::Connecting { .. } => BleError::GattConnectFailed,
            PendingView::ResolvingService { .. } => BleError::ServiceNotFound,
            PendingView::ResolvingCharacteristic { .. } => BleError::CharacteristicNotFound,
            PendingView::Writing => BleError::WriteFailed,
        }
    }
}

/// The whole state of a service: the adapter it was made with, the
/// connection if a pairing has succeeded, and what it waits on if it is
/// busy.
pub struct ServiceView<H> {
    pub bluetooth: H,
    pub connection: Option<ConnectionView<H>>,
    pub pending: Option<PendingView<H>>,
}

impl<H> ServiceView<H> {
    /// A service as it is made: idle and unconnected.
    pub open spec fn fresh(bluetooth: H) -> Self {
        ServiceView { bluetooth, connection: None, pending: None }
    }

    /// This service, waiting on `pending`.
    pub open spec fn waiting_on(self, pending: PendingView<H>) -> Self {
        ServiceView { pending: Some(pending), ..self }
    }

    /// This service, idle.
    pub open spec fn idle(self) -> Self {
        ServiceView { pending: None, ..self }
    }

    /// This service, idle and connected through `characteristic` to
    /// `device`.
    pub open spec fn connected_to(self, device: DeviceView, characteristic: H) -> Self {
        ServiceView {
            connection: Some(ConnectionView { name: device.name, characteristic }),
            pending: None,
            ..self
        }
    }

    /// The request that the platform is working on: the call that belongs
    /// to what the service waits on, made on the object kept for it. The
    /// device chooser is asked of the adapter, for the primary service; a
    /// write goes to the characteristic of the connection.
    pub open spec fn request_in_flight(self) -> Option<RequestView<H>> {
        match self.pending {
            None => None,
            Some(PendingView::Selecting) => Some(
                RequestView::RequestDevice {
                    bluetooth: self.bluetooth,
                    service_uuid: PRIMARY_SERVICE_UUID@,
                },
            ),
            Some(PendingView::Connecting { gatt, .. }) => Some(RequestView::ConnectGatt { gatt }),
            Some(PendingView::ResolvingService { server, .. }) => Some(
                RequestView::GetPrimaryService { server, uuid: PRIMARY_SERVICE_UUID@ },
            ),
            Some(PendingView::ResolvingCharacteristic { service, .. }) => Some(
                RequestView::GetCharacteristic { service, uuid: WRITE_CHARACTERISTIC_UUID@ },
            ),
            Some(PendingView::Writing) => match self.connection {
                Some(connection) => Some(
                    RequestView::WriteWithoutResponse {
                        characteristic: connection.characteristic,
                        payload: GREEN_SIGNAL@,
                    },
                ),
                None => None,
            },
        }
    }

    /// Starting a pairing. A busy service refuses and stays as it is; an
    /// idle one asks the adapter for the device chooser.
    pub open spec fn try_connect(self) -> (Self, Result<RequestView<H>, BleError>) {
        if self.pending is Some {
            (self, Err(BleError::Busy))
        } else {
            (
                self.waiting_on(PendingView::Selecting),
                Ok(
                    RequestView::RequestDevice {
                        bluetooth: self.bluetooth,
                        service_uuid: PRIMARY_SERVICE_UUID@,
                    },
                ),
            )
        }
    }

    /// Starting a write of the green command. Without a connection there is
    /// nothing to write to; a busy service refuses. Either way the service
    /// stays as it is and no request is made. Otherwise the command goes to
    /// the characteristic of the connection.
    pub open spec fn write_green(self) -> (Self, Result<RequestView<H>, BleError>) {
        match self.connection {
            None => (self, Err(BleError::NotConnected)),
            Some(connection) => if self.pending is Some {
                (self, Err(BleError::Busy))
            } else {
                (
                    self.waiting_on(PendingView::Writing),
                    Ok(
                        RequestView::WriteWithoutResponse {
                            characteristic: connection.characteristic,
                            payload: GREEN_SIGNAL@,
                        },
                    ),
                )
            },
        }
    }

    /// Taking in a reply. An idle service has asked for nothing and drops
    /// it. A waiting service goes on if the reply brings what it waits on:
    /// the next request is made on the object that the reply brought, and
    /// the last reply of a pairing brings the characteristic of the new
    /// connection. Any other reply ends the operation with the error of the
    /// request in flight, and leaves the connection alone.
    pub open spec fn on_reply(self, reply: ReplyView<H>) -> (Self, Option<ProgressView<H>>) {
        match self.pending {
            None => (self, None),
            Some(pending) => match (pending, reply) {
                (
                    PendingView::Selecting,
                    ReplyView::DeviceSelected { device, gatt: Some(gatt) },
                ) => (
                    self.waiting_on(PendingView::Connecting { device, gatt }),
                    Some(ProgressView::Next(RequestView::ConnectGatt { gatt })),
                ),
                (PendingView::Selecting, ReplyView::DeviceSelected { device, gatt: None }) => (
                    self.idle(),
                    Some(ProgressView::Failed(BleError::NoGatt)),
                ),
                (PendingView::Connecting { device, gatt }, ReplyView::GattConnected { server }) => (
                    self.waiting_on(PendingView::ResolvingService { device, server }),
                    Some(
                        ProgressView::Next(
                            RequestView::GetPrimaryService { server, uuid: PRIMARY_SERVICE_UUID@ },
                        ),
                    ),
                ),
                (
                    PendingView::ResolvingService { device, server },
                    ReplyView::ServiceResolved { service },
                ) => (
                    self.waiting_on(PendingView::ResolvingCharacteristic { device, service }),
                    Some(
                        ProgressView::Next(
                            RequestView::GetCharacteristic {
                                service,
                                uuid: WRITE_CHARACTERISTIC_UUID@,
                            },
                        ),
                    ),
                ),
                (
                    PendingView::ResolvingCharacteristic { device, service },
                    ReplyView::CharacteristicResolved { characteristic },
                ) => (
                    self.connected_to(device, characteristic),
                    Some(ProgressView::Connected(device.id)),
                ),
                (PendingView::Writing, ReplyView::WriteAccepted) => (
                    self.idle(),
                    Some(ProgressView::Written),
                ),
                (pending, _) => (self.idle(), Some(ProgressView::Failed(pending.failure()))),
            },
        }
    }
}

} // verus!
