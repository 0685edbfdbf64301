//! What holds of every run of the service, proved over the state machine
//! that the contracts of [`crate::ble::BleService`] are written in.

use crate::error::{BleError, PairingStep};
use crate::gatt::{
    is_canonical_uuid, lemma_identifiers_are_canonical, GREEN_SIGNAL, PRIMARY_SERVICE_UUID,
    WRITE_CHARACTERISTIC_UUID,
};
use crate::model::{ConnectionView, PendingView, ServiceView};
use crate::platform::{DeviceView, ProgressView, ReplyView, RequestView};
use vstd::prelude::*;

verus! {

/// One call on a service.
pub enum Call<H> {
    TryConnect,
    WriteGreen,
    OnReply(ReplyView<H>),
}

/// The objects that the platform hands out in the course of a pairing that
/// it grants: the device that the user picks, its GATT server before and
/// after connecting, the primary service, and the write characteristic.
pub struct Granted<H> {
    pub device: DeviceView,
    pub gatt: H,
    pub server: H,
    pub service: H,
    pub characteristic: H,
}

impl<H> ServiceView<H> {
    /// The service after `call`.
    pub open spec fn after(self, call: Call<H>) -> Self {
        match call {
            Call::TryConnect => self.try_connect().0,
            Call::WriteGreen => self.write_green().0,
            Call::OnReply(reply) => self.on_reply(reply).0,
        }
    }

    /// The request that `call` hands out on this service, if it hands one
    /// out.
    pub open spec fn handed_out(self, call: Call<H>) -> Option<RequestView<H>> {
        match call {
            Call::TryConnect => match self.try_connect().1 {
                Ok(request) => Some(request),
                Err(_) => None,
            },
            Call::WriteGreen => match self.write_green().1 {
                Ok(request) => Some(request),
                Err(_) => None,
            },
            Call::OnReply(reply) => match self.on_reply(reply).1 {
                Some(ProgressView::Next(request)) => Some(request),
                _ => None,
            },
        }
    }

    /// Whether `call` completes a pairing on this service.
    pub open spec fn completes_pairing(self, call: Call<H>) -> bool {
        call matches Call::OnReply(reply) && self.on_reply(reply).1 matches Some(
            ProgressView::Connected(_),
        )
    }

    /// The service after `calls`, made in order.
    pub open spec fn after_all(self, calls: Seq<Call<H>>) -> Self
        decreases calls.len(),
    {
        if calls.len() == 0 {
            self
        } else {
            self.after_all(calls.drop_last()).after(calls.last())
        }
    }

    /// Whether some call among `calls`, made in order, completes a pairing.
    pub open spec fn pairing_completed_during(self, calls: Seq<Call<H>>) -> bool {
        exists|i: int|
            0 <= i < calls.len() && #[trigger] self.after_all(calls.take(i)).completes_pairing(
                calls[i],
            )
    }

    /// Whether the service, if it waits for a write to be taken, has a
    /// connection to write to.
    pub open spec fn write_has_target(self) -> bool {
        self.pending == Some(PendingView::<H>::Writing) ==> self.connection is Some
    }

    /// The service after a pairing in which the platform grants every
    /// request and hands out `granted`.
    pub open spec fn after_pairing(self, granted: Granted<H>) -> Self {
        self.try_connect().0.on_reply(
            ReplyView::DeviceSelected { device: granted.device, gatt: Some(granted.gatt) },
        ).0.on_reply(ReplyView::GattConnected { server: granted.server }).0.on_reply(
            ReplyView::ServiceResolved { service: granted.service },
        ).0.on_reply(ReplyView::CharacteristicResolved { characteristic: granted.characteristic }).0
    }
}

/// A pairing on an idle service makes the four requests in order: the
/// chooser on the adapter for the primary service, the connect on the GATT
/// server of the device picked, the service lookup on the connected server,
/// the characteristic lookup on the service found. Where the platform
/// grants them all the pairing ends with the device's identifier. The
/// service is then idle and holds a connection with the characteristic that
/// the platform supplied and the name that the device advertised, or no
/// name if it advertised none. Until then the connection stays as it was.
pub proof fn lemma_granted_pairing_connects<H>(service: ServiceView<H>, granted: Granted<H>)
    requires
        service.pending is None,
    ensures
        ({
            let (s0, first) = service.try_connect();
            let (s1, second) = s0.on_reply(
                ReplyView::DeviceSelected { device: granted.device, gatt: Some(granted.gatt) },
            );
            let (s2, third) = s1.on_reply(ReplyView::GattConnected { server: granted.server });
            let (s3, fourth) = s2.on_reply(ReplyView::ServiceResolved { service: granted.service });
            let (s4, result) = s3.on_reply(
                ReplyView::CharacteristicResolved { characteristic: granted.characteristic },
            );
            &&& first == Ok::<RequestView<H>, BleError>(
                RequestView::RequestDevice {
                    bluetooth: service.bluetooth,
                    service_uuid: PRIMARY_SERVICE_UUID@,
                },
            )
            &&& second == Some(ProgressView::Next(RequestView::ConnectGatt { gatt: granted.gatt }))
            &&& third == Some(
                ProgressView::Next(
                    RequestView::GetPrimaryService {
                        server: granted.server,
                        uuid: PRIMARY_SERVICE_UUID@,
                    },
                ),
            )
            &&& fourth == Some(
                ProgressView::Next(
                    RequestView::GetCharacteristic {
                        service: granted.service,
                        uuid: WRITE_CHARACTERISTIC_UUID@,
                    },
                ),
            )
            &&& result == Some(ProgressView::<H>::Connected(granted.device.id))
            &&& s0.connection == service.connection
            &&& s1.connection == service.connection
            &&& s2.connection == service.connection
            &&& s3.connection == service.connection
            &&& s4 == service.after_pairing(granted)
        }),
        service.after_pairing(granted) == (ServiceView {
            connection: Some(
                ConnectionView {
                    name: granted.device.name,
                    characteristic: granted.characteristic,
                },
            ),
            ..service
        }),
{
}

/// Whatever reply makes an operation fail, the service is afterwards idle
/// and otherwise as before: the connection, if there was one, is untouched.
/// During a pairing the error names the step that failed. That is the step
/// waited on, except that a device without GATT fails the step after it was
/// picked, the connecting.
pub proof fn lemma_failure_keeps_connection<H>(
    service: ServiceView<H>,
    reply: ReplyView<H>,
    error: BleError,
)
    requires
        service.on_reply(reply).1 == Some(ProgressView::<H>::Failed(error)),
    ensures
        service.pending is Some,
        service.on_reply(reply).0 == service.idle(),
        service.on_reply(reply).0.connection == service.connection,
        service.pending->0.step() is Some ==> error.step() == if reply is DeviceSelected
            && service.pending->0 is Selecting {
            Some(PairingStep::ConnectGatt)
        } else {
            service.pending->0.step()
        },
        service.pending->0 is Writing ==> error == BleError::WriteFailed,
{
}

/// A pairing that is rejected at any of its four requests, or whose device
/// has no GATT server, leaves an idle service exactly as it was before the
/// attempt, and reports the error of that step.
pub proof fn lemma_failed_attempt_changes_nothing<H>(service: ServiceView<H>, granted: Granted<H>)
    requires
        service.pending is None,
    ensures
        ({
            let s0 = service.try_connect().0;
            let s1 = s0.on_reply(
                ReplyView::DeviceSelected { device: granted.device, gatt: Some(granted.gatt) },
            ).0;
            let s2 = s1.on_reply(ReplyView::GattConnected { server: granted.server }).0;
            let s3 = s2.on_reply(ReplyView::ServiceResolved { service: granted.service }).0;
            &&& s0.on_reply(ReplyView::Rejected) == (
                service,
                Some(ProgressView::<H>::Failed(BleError::NoDeviceSelected)),
            )
            &&& s0.on_reply(ReplyView::DeviceSelected { device: granted.device, gatt: None }) == (
                service,
                Some(ProgressView::<H>::Failed(BleError::NoGatt)),
            )
            &&& s1.on_reply(ReplyView::Rejected) == (
                service,
                Some(ProgressView::<H>::Failed(BleError::GattConnectFailed)),
            )
            &&& s2.on_reply(ReplyView::Rejected) == (
                service,
                Some(ProgressView::<H>::Failed(BleError::ServiceNotFound)),
            )
            &&& s3.on_reply(ReplyView::Rejected) == (
                service,
                Some(ProgressView::<H>::Failed(BleError::CharacteristicNotFound)),
            )
        }),
{
}

/// Without a connection a write fails as not connected, whatever else the
/// service is doing, and changes nothing: no request is handed out, so the
/// platform is not called.
pub proof fn lemma_write_needs_connection<H>(service: ServiceView<H>)
    requires
        service.connection is None,
    ensures
        service.write_green() == (service, Err::<RequestView<H>, BleError>(BleError::NotConnected)),
        service.handed_out(Call::WriteGreen) is None,
{
}

/// On an idle, connected service a write hands out one request: the two
/// bytes `31`, for the characteristic of the connection, to be written
/// without response. Until the platform has answered, no second write is
/// handed out. Once the platform accepts, the write has succeeded and the
/// service is as before.
pub proof fn lemma_write_submits_green_once<H>(service: ServiceView<H>)
    requires
        service.connection is Some,
        service.pending is None,
    ensures
        ({
            let (s0, request) = service.write_green();
            &&& request == Ok::<RequestView<H>, BleError>(
                RequestView::WriteWithoutResponse {
                    characteristic: service.connection->0.characteristic,
                    payload: seq![0x33u8, 0x31u8],
                },
            )
            &&& s0.connection == service.connection
            &&& s0.write_green() == (s0, Err::<RequestView<H>, BleError>(BleError::Busy))
            &&& s0.on_reply(ReplyView::WriteAccepted) == (
                service,
                Some(ProgressView::<H>::Written),
            )
            &&& s0.on_reply(ReplyView::Rejected) == (
                service,
                Some(ProgressView::<H>::Failed(BleError::WriteFailed)),
            )
        }),
{
    assert(GREEN_SIGNAL@ =~= seq![0x33u8, 0x31u8]);
}

/// The connection changes with a call only if that call completes a
/// pairing, and then the new connection holds what that pairing brought and
/// nothing of the connection before it.
pub proof fn lemma_connection_replaced_only_by_pairing<H>(service: ServiceView<H>, call: Call<H>)
    ensures
        service.after(call).bluetooth == service.bluetooth,
        !service.completes_pairing(call) ==> service.after(call).connection == service.connection,
        service.completes_pairing(call) ==> {
            &&& call matches Call::OnReply(ReplyView::CharacteristicResolved { characteristic })
            &&& service.pending matches Some(PendingView::ResolvingCharacteristic { device, .. })
            &&& service.after(call).connection == Some(
                ConnectionView { name: device.name, characteristic },
            )
            &&& service.after(call).pending is None
        },
{
}

/// Two granted pairings in a row: the first connection stays in place while
/// the second pairing is under way, and is replaced as a whole when it
/// completes. The service then holds the second characteristic and name
/// only, and a write goes to the second characteristic.
pub proof fn lemma_second_pairing_replaces_first<H>(
    service: ServiceView<H>,
    first: Granted<H>,
    second: Granted<H>,
)
    requires
        service.pending is None,
    ensures
        ({
            let once = service.after_pairing(first);
            let s0 = once.try_connect().0;
            let s1 = s0.on_reply(
                ReplyView::DeviceSelected { device: second.device, gatt: Some(second.gatt) },
            ).0;
            let s2 = s1.on_reply(ReplyView::GattConnected { server: second.server }).0;
            let s3 = s2.on_reply(ReplyView::ServiceResolved { service: second.service }).0;
            let twice = once.after_pairing(second);
            &&& once.connection == Some(
                ConnectionView { name: first.device.name, characteristic: first.characteristic },
            )
            &&& s0.connection == once.connection
            &&& s1.connection == once.connection
            &&& s2.connection == once.connection
            &&& s3.connection == once.connection
            &&& twice.connection == Some(
                ConnectionView { name: second.device.name, characteristic: second.characteristic },
            )
            &&& twice == service.after_pairing(second)
            &&& twice.write_green().1 == Ok::<RequestView<H>, BleError>(
                RequestView::WriteWithoutResponse {
                    characteristic: second.characteristic,
                    payload: GREEN_SIGNAL@,
                },
            )
        }),
{
    lemma_granted_pairing_connects(service, first);
    lemma_granted_pairing_connects(service.after_pairing(first), second);
    lemma_granted_pairing_connects(service, second);
}

/// While one operation waits for the platform no other starts: a busy
/// service hands out neither a pairing nor a write, and stays as it is.
pub proof fn lemma_busy_service_starts_nothing<H>(service: ServiceView<H>)
    requires
        service.pending is Some,
    ensures
        service.try_connect() == (service, Err::<RequestView<H>, BleError>(BleError::Busy)),
        service.write_green().0 == service,
        service.write_green().1 is Err,
        service.handed_out(Call::TryConnect) is None,
        service.handed_out(Call::WriteGreen) is None,
{
}

/// Every identifier that is handed to the platform is one of the profile's,
/// in the canonical form that the platform asks for, and every payload is
/// the green command.
pub proof fn lemma_requests_are_well_formed<H>(service: ServiceView<H>, call: Call<H>)
    ensures
        match service.handed_out(call) {
            Some(RequestView::RequestDevice { service_uuid, .. }) => service_uuid
                == PRIMARY_SERVICE_UUID@ && is_canonical_uuid(service_uuid),
            Some(RequestView::GetPrimaryService { uuid, .. }) => uuid == PRIMARY_SERVICE_UUID@
                && is_canonical_uuid(uuid),
            Some(RequestView::GetCharacteristic { uuid, .. }) => uuid
                == WRITE_CHARACTERISTIC_UUID@ && is_canonical_uuid(uuid),
            Some(RequestView::WriteWithoutResponse { payload, .. }) => payload == GREEN_SIGNAL@,
            Some(RequestView::ConnectGatt { .. }) => true,
            None => true,
        },
{
    lemma_identifiers_are_canonical();
}

/// A request that a call hands out is the request in flight afterwards: the
/// service waits on exactly what it has asked for.
pub proof fn lemma_handed_out_request_is_in_flight<H>(service: ServiceView<H>, call: Call<H>)
    ensures
        service.handed_out(call) is Some ==> service.after(call).request_in_flight()
            == service.handed_out(call),
{
}

/// Over any calls, in any order: the adapter stays the same, a connected
/// service stays connected, and unless one of the calls completes a pairing
/// the connection is the one the service began with.
pub proof fn lemma_calls_preserve_connection<H>(service: ServiceView<H>, calls: Seq<Call<H>>)
    ensures
        service.after_all(calls).bluetooth == service.bluetooth,
        service.connection is Some ==> service.after_all(calls).connection is Some,
        !service.pairing_completed_during(calls) ==> service.after_all(calls).connection
            == service.connection,
    decreases calls.len(),
{
    if calls.len() > 0 {
        let earlier = calls.drop_last();
        let before = service.after_all(earlier);
        lemma_calls_preserve_connection(service, earlier);
        lemma_connection_replaced_only_by_pairing(before, calls.last());
        if !service.pairing_completed_during(calls) {
            assert(calls.take(calls.len() - 1) == earlier);
            assert(!before.completes_pairing(calls[calls.len() - 1]));
            assert(!service.pairing_completed_during(earlier)) by {
                if service.pairing_completed_during(earlier) {
                    let i = choose|i: int|
                        0 <= i < earlier.len() && #[trigger] service.after_all(
                            earlier.take(i),
                        ).completes_pairing(earlier[i]);
                    assert(earlier.take(i) == calls.take(i));
                    assert(service.after_all(calls.take(i)).completes_pairing(calls[i]));
                }
            }
        }
    }
}

/// However a service has been used since it was made, a write is in flight
/// only while there is a connection to write to, and a busy service always
/// has a request in flight.
pub proof fn lemma_busy_service_has_request<H>(bluetooth: H, calls: Seq<Call<H>>)
    ensures
        ServiceView::fresh(bluetooth).after_all(calls).write_has_target(),
        ServiceView::fresh(bluetooth).after_all(calls).pending is Some <==> ServiceView::fresh(
            bluetooth,
        ).after_all(calls).request_in_flight() is Some,
    decreases calls.len(),
{
    if calls.len() > 0 {
        lemma_busy_service_has_request(bluetooth, calls.drop_last());
    }
}

} // verus!
