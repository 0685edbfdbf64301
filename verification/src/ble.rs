//! The service that pairs with a traffic light and switches it to green.

use crate::error::{BleError, NoWebBluetoothSupport};
use crate::gatt::{GREEN_SIGNAL, PRIMARY_SERVICE_UUID, WRITE_CHARACTERISTIC_UUID};
use crate::model::{ConnectionView, PendingView, ServiceView};
use crate::platform::{
    Device, PlatformReply, PlatformRequest, Progress, ProgressView, RequestView,
};
use vstd::prelude::*;

verus! {

/// A connection to a traffic light: the handle to the characteristic that
/// takes commands, and the name the peripheral advertised. Only a completed
/// pairing makes one, and nothing changes it afterwards.
#[derive(Debug)]
pub struct BleConnection<H> {
    name: Option<String>,
    characteristic: H,
}

impl<H> View for BleConnection<H> {
    type V = ConnectionView<H>;

    closed spec fn view(&self) -> ConnectionView<H> {
        ConnectionView { name: self.name.deep_view(), characteristic: self.characteristic }
    }
}

impl<H> BleConnection<H> {
    /// The name that the peripheral advertised, if it advertised one.
    pub fn name(&self) -> (name: Option<&String>)
        ensures
            name.deep_view() == self@.name,
    {
        self.name.as_ref()
    }

    /// The handle that commands are written to.
    pub fn characteristic(&self) -> (characteristic: &H)
        ensures
            *characteristic == self@.characteristic,
    {
        &self.characteristic
    }
}

/// What a busy service waits on.
#[derive(Debug)]
enum Pending<H> {
    Selecting,
    Connecting { device: Device, gatt: H },
    ResolvingService { device: Device, server: H },
    ResolvingCharacteristic { device: Device, service: H },
    Writing,
}

impl<H> View for Pending<H> {
    type V = PendingView<H>;

    closed spec fn view(&self) -> PendingView<H> {
        match *self {
            Pending::Selecting => PendingView::Selecting,
            Pending::Connecting { device, gatt } => PendingView::Connecting {
                device: device@,
                gatt,
            },
            Pending::ResolvingService { device, server } => PendingView::ResolvingService {
                device: device@,
                server,
            },
            Pending::ResolvingCharacteristic { device, service } => {
                PendingView::ResolvingCharacteristic { device: device@, service }
            },
            Pending::Writing => PendingView::Writing,
        }
    }
}

impl<H> Pending<H> {
    fn failure(&self) -> (error: BleError)
        ensures
            error == self@.failure(),
    {
        match self {
            Pending::Selecting => BleError::NoDeviceSelected,
            Pending::Connecting { .. } => BleError::GattConnectFailed,
            Pending::ResolvingService { .. } => BleError::ServiceNotFound,
            Pending::ResolvingCharacteristic { .. } => BleError::CharacteristicNotFound,
            Pending::Writing => BleError::WriteFailed,
        }
    }
}

/// The Bluetooth service of the application: the platform's adapter, the
/// connection once a pairing has succeeded, and what the service waits on
/// while it is busy.
///
/// The service makes no platform call itself. [`BleService::try_connect`]
/// and [`BleService::write_green`] hand out the first request of an
/// operation; the driver performs it and passes the outcome to
/// [`BleService::on_reply`], which hands out the next request or the result.
/// While one operation waits for the platform no other can start.
#[derive(Debug)]
pub struct BleService<H> {
    bluetooth: H,
    connection: Option<BleConnection<H>>,
    pending: Option<Pending<H>>,
}

impl<H> View for BleService<H> {
    type V = ServiceView<H>;

    closed spec fn view(&self) -> ServiceView<H> {
        ServiceView {
            bluetooth: self.bluetooth,
            connection: match self.connection {
                Some(connection) => Some(connection@),
                None => None,
            },
            pending: match self.pending {
                Some(pending) => Some(pending@),
                None => None,
            },
        }
    }
}

/// A request, or none, as plain values.
pub open spec fn request_view<H>(request: Option<PlatformRequest<'_, H>>) -> Option<
    RequestView<H>,
> {
    match request {
        Some(request) => Some(request@),
        None => None,
    }
}

/// The outcome of starting an operation, as plain values.
pub open spec fn started_view<H>(started: Result<PlatformRequest<'_, H>, BleError>) -> Result<
    RequestView<H>,
    BleError,
> {
    match started {
        Ok(request) => Ok(request@),
        Err(error) => Err(error),
    }
}

/// A result of [`BleService::on_reply`] as plain values.
pub open spec fn progress_view<H>(progress: Option<Progress<'_, H>>) -> Option<ProgressView<H>> {
    match progress {
        Some(progress) => Some(progress@),
        None => None,
    }
}

impl<H> BleService<H> {
    /// Makes the service from the adapter that the host offers. A host
    /// without Bluetooth offers none, and gets no service.
    pub fn new(bluetooth: Option<H>) -> (service: Result<Self, NoWebBluetoothSupport>)
        ensures
            match bluetooth {
                Some(adapter) => service is Ok && service->Ok_0@ == ServiceView::fresh(adapter),
                None => service is Err,
            },
    {
        match bluetooth {
            Some(adapter) => Ok(BleService { bluetooth: adapter, connection: None, pending: None }),
            None => Err(NoWebBluetoothSupport),
        }
    }

    /// The adapter that the service was made with.
    pub fn bluetooth(&self) -> (adapter: &H)
        ensures
            *adapter == self@.bluetooth,
    {
        &self.bluetooth
    }

    /// The current connection, if a pairing has succeeded.
    pub fn connection(&self) -> (connection: Option<&BleConnection<H>>)
        ensures
            match connection {
                Some(connection) => self@.connection == Some(connection@),
                None => self@.connection is None,
            },
    {
        self.connection.as_ref()
    }

    /// Whether a pairing has succeeded.
    pub fn is_connected(&self) -> (connected: bool)
        ensures
            connected == self@.connection is Some,
    {
        self.connection.is_some()
    }

    /// Whether an operation waits for the platform.
    pub fn is_busy(&self) -> (busy: bool)
        ensures
            busy == self@.pending is Some,
    {
        self.pending.is_some()
    }

    /// The request that the platform is working on, if the service is busy.
    pub fn request_in_flight(&self) -> (request: Option<PlatformRequest<'_, H>>)
        ensures
            request_view(request) == self@.request_in_flight(),
    {
        match &self.pending {
            None => None,
            Some(Pending::Selecting) => Some(
                PlatformRequest::RequestDevice {
                    bluetooth: &self.bluetooth,
                    service_uuid: PRIMARY_SERVICE_UUID,
                },
            ),
            Some(Pending::Connecting { gatt, .. }) => Some(PlatformRequest::ConnectGatt { gatt }),
            Some(Pending::ResolvingService { server, .. }) => Some(
                PlatformRequest::GetPrimaryService { server, uuid: PRIMARY_SERVICE_UUID },
            ),
            Some(Pending::ResolvingCharacteristic { service, .. }) => Some(
                PlatformRequest::GetCharacteristic { service, uuid: WRITE_CHARACTERISTIC_UUID },
            ),
            Some(Pending::Writing) => match &self.connection {
                Some(connection) => Some(
                    PlatformRequest::WriteWithoutResponse {
                        characteristic: &connection.characteristic,
                        payload: GREEN_SIGNAL,
                    },
                ),
                None => None,
            },
        }
    }

    /// Starts a pairing and returns its first request, the device chooser.
    /// A busy service returns [`BleError::Busy`] and stays as it is.
    pub fn try_connect(&mut self) -> (request: Result<PlatformRequest<'_, H>, BleError>)
        ensures
            (final(self)@, started_view(request)) == old(self)@.try_connect(),
    {
        if self.pending.is_some() {
            return Err(BleError::Busy);
        }
        self.pending = Some(Pending::Selecting);
        Ok(
            PlatformRequest::RequestDevice {
                bluetooth: &self.bluetooth,
                service_uuid: PRIMARY_SERVICE_UUID,
            },
        )
    }

    /// Starts a write of the green command and returns the request for it.
    /// Without a connection the result is [`BleError::NotConnected`], on a
    /// busy service [`BleError::Busy`]; the service then stays as it is and
    /// nothing is to be written.
    pub fn write_green(&mut self) -> (request: Result<PlatformRequest<'_, H>, BleError>)
        ensures
            (final(self)@, started_view(request)) == old(self)@.write_green(),
    {
        match &self.connection {
            None => Err(BleError::NotConnected),
            Some(connection) => {
                if self.pending.is_some() {
                    Err(BleError::Busy)
                } else {
                    self.pending = Some(Pending::Writing);
                    Ok(
                        PlatformRequest::WriteWithoutResponse {
                            characteristic: &connection.characteristic,
                            payload: GREEN_SIGNAL,
                        },
                    )
                }
            },
        }
    }

    /// Takes in the platform's reply to the request in flight and tells how
    /// the operation stands: the next request of the pairing, or the result.
    /// A reply that does not bring what the service waits on ends the
    /// operation with the error of that request. A service that waits on
    /// nothing returns `None` and stays as it is.
    ///
    /// The connection changes only where the result is
    /// [`Progress::Connected`].
    pub fn on_reply(&mut self, reply: PlatformReply<H>) -> (progress: Option<Progress<'_, H>>)
        ensures
            (final(self)@, progress_view(progress)) == old(self)@.on_reply(reply@),
    {
        let pending = match self.pending.take() {
            Some(pending) => pending,
            None => {
                return None;
            },
        };
        match (pending, reply) {
            (Pending::Selecting, PlatformReply::DeviceSelected { device, gatt: Some(gatt) }) => {
                self.pending = Some(Pending::Connecting { device, gatt });
                self.next()
            },
            (Pending::Selecting, PlatformReply::DeviceSelected { device: _, gatt: None }) => Some(
                Progress::Failed(BleError::NoGatt),
            ),
            (Pending::Connecting { device, gatt: _ }, PlatformReply::GattConnected { server }) => {
                self.pending = Some(Pending::ResolvingService { device, server });
                self.next()
            },
            (
                Pending::ResolvingService { device, server: _ },
                PlatformReply::ServiceResolved { service },
            ) => {
                self.pending = Some(Pending::ResolvingCharacteristic { device, service });
                self.next()
            },
            (
                Pending::ResolvingCharacteristic { device, service: _ },
                PlatformReply::CharacteristicResolved { characteristic },
            ) => {
                self.connection = Some(BleConnection { name: device.name, characteristic });
                Some(Progress::Connected(device.id))
            },
            (Pending::Writing, PlatformReply::WriteAccepted) => Some(Progress::Written),
            (pending, _) => Some(Progress::Failed(pending.failure())),
        }
    }

    /// The request in flight, as the next thing to do.
    fn next(&self) -> (progress: Option<Progress<'_, H>>)
        ensures
            progress_view(progress) == match self@.request_in_flight() {
                Some(request) => Some(ProgressView::Next(request)),
                None => None,
            },
    {
        match self.request_in_flight() {
            Some(request) => Some(Progress::Next(request)),
            None => None,
        }
    }
}

} // verus!
