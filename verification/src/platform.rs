//! The boundary to the host: the five calls that a driver makes on the
//! platform's Bluetooth API, and what it reports back.
//!
//! The platform's objects are opaque here. `H` is the driver's handle to
//! one of them, whatever its kind: the adapter, a GATT server, a service, a
//! characteristic. The library keeps the handles it is given and hands each
//! out again with the request that is to be made on it.

use crate::error::BleError;
use vstd::prelude::*;

verus! {

/// The platform's identifier of a peripheral.
pub type DeviceId = String;

/// The longest that a driver waits for the platform to answer one request,
/// in milliseconds. A request that is still open then is reported as
/// [`PlatformReply::Rejected`].
pub const REQUEST_TIMEOUT_MS: u32 = 60_000;

/// What the platform tells of the peripheral that the user picked.
#[derive(Debug, PartialEq, Eq)]
pub struct Device {
    pub id: DeviceId,
    /// The name that the peripheral advertises, if it advertises one.
    pub name: Option<String>,
}

/// A [`Device`] as plain text.
pub struct DeviceView {
    pub id: Seq<char>,
    pub name: Option<Seq<char>>,
}

impl View for Device {
    type V = DeviceView;

    open spec fn view(&self) -> DeviceView {
        DeviceView { id: self.id@, name: self.name.deep_view() }
    }
}

/// One call on the platform's Bluetooth API, with the object it is made on
/// and everything that is passed to it. The driver performs it and answers
/// with a [`PlatformReply`].
#[derive(Debug, PartialEq, Eq)]
pub enum PlatformRequest<'a, H> {
    /// On the adapter: let the user pick a peripheral among those that
    /// advertise the service `service_uuid`.
    RequestDevice { bluetooth: &'a H, service_uuid: &'static str },
    /// On the GATT server of the picked peripheral: connect.
    ConnectGatt { gatt: &'a H },
    /// On the connected server: look up the primary service `uuid`.
    GetPrimaryService { server: &'a H, uuid: &'static str },
    /// On the service: look up the characteristic `uuid`.
    GetCharacteristic { service: &'a H, uuid: &'static str },
    /// On the characteristic: write `payload`, without asking the
    /// peripheral to acknowledge it.
    WriteWithoutResponse { characteristic: &'a H, payload: [u8; 2] },
}

/// A [`PlatformRequest`] as plain values.
pub enum RequestView<H> {
    RequestDevice { bluetooth: H, service_uuid: Seq<char> },
    ConnectGatt { gatt: H },
    GetPrimaryService { server: H, uuid: Seq<char> },
    GetCharacteristic { service: H, uuid: Seq<char> },
    WriteWithoutResponse { characteristic: H, payload: Seq<u8> },
}

impl<'a, H> View for PlatformRequest<'a, H> {
    type V = RequestView<H>;

    open spec fn view(&self) -> RequestView<H> {
        match *self {
            PlatformRequest::RequestDevice { bluetooth, service_uuid } => {
                RequestView::RequestDevice { bluetooth: *bluetooth, service_uuid: service_uuid@ }
            },
            PlatformRequest::ConnectGatt { gatt } => RequestView::ConnectGatt { gatt: *gatt },
            PlatformRequest::GetPrimaryService { server, uuid } => RequestView::GetPrimaryService {
                server: *server,
                uuid: uuid@,
            },
            PlatformRequest::GetCharacteristic { service, uuid } => RequestView::GetCharacteristic {
                service: *service,
                uuid: uuid@,
            },
            PlatformRequest::WriteWithoutResponse { characteristic, payload } => {
                RequestView::WriteWithoutResponse {
                    characteristic: *characteristic,
                    payload: payload@,
                }
            },
        }
    }
}

/// How the platform answered a [`PlatformRequest`].
#[derive(Debug, PartialEq, Eq)]
pub enum PlatformReply<H> {
    /// The platform rejected the request, or did not answer within
    /// [`REQUEST_TIMEOUT_MS`].
    Rejected,
    /// The user picked `device`; `gatt` is its GATT server, if it has one.
    DeviceSelected { device: Device, gatt: Option<H> },
    /// The GATT connection is open on `server`.
    GattConnected { server: H },
    /// The primary service was found.
    ServiceResolved { service: H },
    /// The write characteristic was found.
    CharacteristicResolved { characteristic: H },
    /// The platform accepted the write.
    WriteAccepted,
}

/// A [`PlatformReply`] as plain values.
pub enum ReplyView<H> {
    Rejected,
    DeviceSelected { device: DeviceView, gatt: Option<H> },
    GattConnected { server: H },
    ServiceResolved { service: H },
    CharacteristicResolved { characteristic: H },
    WriteAccepted,
}

impl<H> View for PlatformReply<H> {
    type V = ReplyView<H>;

    open spec fn view(&self) -> ReplyView<H> {
        match *self {
            PlatformReply::Rejected => ReplyView::Rejected,
            PlatformReply::DeviceSelected { device, gatt } => ReplyView::DeviceSelected {
                device: device@,
                gatt,
            },
            PlatformReply::GattConnected { server } => ReplyView::GattConnected { server },
            PlatformReply::ServiceResolved { service } => ReplyView::ServiceResolved { service },
            PlatformReply::CharacteristicResolved { characteristic } => {
                ReplyView::CharacteristicResolved { characteristic }
            },
            PlatformReply::WriteAccepted => ReplyView::WriteAccepted,
        }
    }
}

/// Where an operation stands once a reply has been taken in.
#[derive(Debug, PartialEq, Eq)]
pub enum Progress<'a, H> {
    /// The pairing goes on: perform this request next.
    Next(PlatformRequest<'a, H>),
    /// The pairing is complete; the peripheral has this identifier.
    Connected(DeviceId),
    /// The platform has taken the write.
    Written,
    /// The operation is over and has failed.
    Failed(BleError),
}

/// A [`Progress`] as plain values.
pub enum ProgressView<H> {
    Next(RequestView<H>),
    Connected(Seq<char>),
    Written,
    Failed(BleError),
}

impl<'a, H> View for Progress<'a, H> {
    type V = ProgressView<H>;

    open spec fn view(&self) -> ProgressView<H> {
        match *self {
            Progress::Next(request) => ProgressView::Next(request@),
            Progress::Connected(id) => ProgressView::Connected(id@),
            Progress::Written => ProgressView::Written,
            Progress::Failed(error) => ProgressView::Failed(error),
        }
    }
}

} // verus!
