use trafficlight::ble::BleService;
use trafficlight::error::BleError;
use trafficlight::gatt::{
    GREEN_SIGNAL, PRIMARY_SERVICE_UUID, READ_CHARACTERISTIC_UUID, WRITE_CHARACTERISTIC_UUID,
};
use trafficlight::platform::{
    Device, PlatformReply, PlatformRequest, Progress, REQUEST_TIMEOUT_MS,
};

type Service = BleService<u32>;

fn pair_with(service: &mut Service, id: &str, name: Option<&str>, characteristic: u32) {
    service.try_connect().unwrap();
    service.on_reply(PlatformReply::DeviceSelected {
        device: Device { id: id.to_string(), name: name.map(|n| n.to_string()) },
        gatt: Some(1),
    });
    service.on_reply(PlatformReply::GattConnected { server: 2 });
    service.on_reply(PlatformReply::ServiceResolved { service: 3 });
    service.on_reply(PlatformReply::CharacteristicResolved { characteristic });
}

fn connected(characteristic: u32) -> Service {
    let mut service = Service::new(Some(0)).unwrap();
    pair_with(&mut service, "dev-1", Some("Trafficlight"), characteristic);
    service
}

fn handle_of(service: &Service) -> Option<u32> {
    service.connection().map(|c| *c.characteristic())
}

#[test]
fn write_without_connection_is_not_connected() {
    let mut service = Service::new(Some(0)).unwrap();
    assert_eq!(service.write_green(), Err(BleError::NotConnected));
    assert!(!service.is_busy());
    assert!(!service.is_connected());
    assert_eq!(service.request_in_flight(), None);
    assert_eq!(service.on_reply(PlatformReply::WriteAccepted), None);
}

#[test]
fn write_without_connection_during_pairing_is_not_connected() {
    let mut service = Service::new(Some(0)).unwrap();
    service.try_connect().unwrap();
    assert_eq!(service.write_green(), Err(BleError::NotConnected));
    assert_eq!(
        service.on_reply(PlatformReply::Rejected),
        Some(Progress::Failed(BleError::NoDeviceSelected))
    );
}

#[test]
fn write_submits_the_two_bytes_31_to_the_characteristic() {
    let mut service = connected(7);
    assert_eq!(
        service.write_green(),
        Ok(PlatformRequest::WriteWithoutResponse { characteristic: &7, payload: *b"31" })
    );
    assert!(service.is_busy());
    assert_eq!(handle_of(&service), Some(7));
}

#[test]
fn accepted_write_succeeds() {
    let mut service = connected(7);
    service.write_green().unwrap();
    assert_eq!(service.on_reply(PlatformReply::WriteAccepted), Some(Progress::Written));
    assert!(!service.is_busy());
    assert_eq!(handle_of(&service), Some(7));
}

#[test]
fn rejected_write_fails_and_keeps_the_connection() {
    let mut service = connected(7);
    service.write_green().unwrap();
    assert_eq!(
        service.on_reply(PlatformReply::Rejected),
        Some(Progress::Failed(BleError::WriteFailed))
    );
    assert!(!service.is_busy());
    assert!(service.is_connected());
    assert_eq!(handle_of(&service), Some(7));
}

#[test]
fn write_is_handed_out_once_until_answered() {
    let mut service = connected(7);
    assert!(service.write_green().is_ok());
    assert_eq!(service.write_green(), Err(BleError::Busy));
    assert_eq!(service.try_connect(), Err(BleError::Busy));
    assert_eq!(service.on_reply(PlatformReply::WriteAccepted), Some(Progress::Written));
    assert_eq!(
        service.write_green(),
        Ok(PlatformRequest::WriteWithoutResponse { characteristic: &7, payload: [0x33, 0x31] })
    );
}

#[test]
fn write_during_a_new_pairing_is_refused() {
    let mut service = connected(7);
    service.try_connect().unwrap();
    assert_eq!(service.write_green(), Err(BleError::Busy));
    assert_eq!(handle_of(&service), Some(7));
}

#[test]
fn pairing_reply_fails_a_write_in_flight() {
    let mut service = connected(7);
    service.write_green().unwrap();
    assert_eq!(
        service.on_reply(PlatformReply::CharacteristicResolved { characteristic: 9 }),
        Some(Progress::Failed(BleError::WriteFailed))
    );
    assert_eq!(handle_of(&service), Some(7));
}

#[test]
fn write_goes_to_the_latest_connection() {
    let mut service = connected(7);
    pair_with(&mut service, "dev-2", None, 8);
    assert_eq!(
        service.write_green(),
        Ok(PlatformRequest::WriteWithoutResponse { characteristic: &8, payload: *b"31" })
    );
    assert_eq!(service.connection().and_then(|c| c.name().cloned()), None);
}

#[test]
fn identifiers_are_bit_exact() {
    assert_eq!(PRIMARY_SERVICE_UUID, "6f59f19e-2f39-49de-8525-5d2045f4d999");
    assert_eq!(WRITE_CHARACTERISTIC_UUID, "420ece2e-c66c-4059-9ceb-5fc19251e453");
    assert_eq!(READ_CHARACTERISTIC_UUID, "a9bf2905-ee69-4baa-8960-4358a9e3a558");
}

#[test]
fn green_signal_is_ascii_31() {
    assert_eq!(GREEN_SIGNAL, [0x33, 0x31]);
    assert_eq!(&GREEN_SIGNAL, b"31");
    assert_eq!(GREEN_SIGNAL.len(), 2);
}

#[test]
fn overdue_request_counts_as_rejected_after_a_minute() {
    assert_eq!(REQUEST_TIMEOUT_MS, 60_000);
    let mut service = connected(7);
    service.write_green().unwrap();
    assert_eq!(
        service.on_reply(PlatformReply::Rejected),
        Some(Progress::Failed(BleError::WriteFailed))
    );
}
