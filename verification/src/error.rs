//! What can go wrong, and the text shown for it.

use vstd::prelude::*;

verus! {

/// The host offers no Bluetooth adapter.
#[derive(Debug, Clone, Copy, PartialEq, Eq, Structural)]
pub struct NoWebBluetoothSupport;

/// The four platform calls of a pairing, in the order they are made.
#[derive(Debug, Clone, Copy, PartialEq, Eq, Structural)]
pub enum PairingStep {
    /// The user picks a peripheral.
    SelectDevice,
    /// A GATT connection to the peripheral is opened.
    ConnectGatt,
    /// The primary service is looked up on the peripheral.
    ResolveService,
    /// The write characteristic is looked up on the service.
    ResolveCharacteristic,
}

/// Why a pairing or a write came to nothing.
#[derive(Debug, Clone, Copy, PartialEq, Eq, Structural)]
pub enum BleError {
    /// The device chooser was dismissed, or offered nothing.
    NoDeviceSelected,
    /// The chosen device has no GATT server.
    NoGatt,
    /// The GATT connection could not be opened.
    GattConnectFailed,
    /// The device lacks the primary service.
    ServiceNotFound,
    /// The service lacks the write characteristic.
    CharacteristicNotFound,
    /// A write was asked for before any pairing succeeded.
    NotConnected,
    /// The platform refused the write.
    WriteFailed,
    /// Another pairing or write is still waiting for the platform.
    Busy,
}

impl BleError {
    /// The text shown for this error.
    pub open spec fn text(self) -> Seq<char> {
        match self {
            BleError::NoDeviceSelected => "No device actually selected"@,
            BleError::NoGatt => "No GATT found on device"@,
            BleError::GattConnectFailed => "Failed to connect to GATT"@,
            BleError::ServiceNotFound => "No trafficlight service"@,
            BleError::CharacteristicNotFound => "No trafficlight write characteristic"@,
            BleError::NotConnected => "Not connected to a trafficlight"@,
            BleError::WriteFailed => "Error writing green LED!"@,
            BleError::Busy => "Another Bluetooth operation is in progress"@,
        }
    }

    /// The pairing step that this error reports as failed, if it reports one.
    pub open spec fn step(self) -> Option<PairingStep> {
        match self {
            BleError::NoDeviceSelected => Some(PairingStep::SelectDevice),
            BleError::NoGatt => Some(PairingStep::ConnectGatt),
            BleError::GattConnectFailed => Some(PairingStep::ConnectGatt),
            BleError::ServiceNotFound => Some(PairingStep::ResolveService),
            BleError::CharacteristicNotFound => Some(PairingStep::ResolveCharacteristic),
            BleError::NotConnected => None,
            BleError::WriteFailed => None,
            BleError::Busy => None,
        }
    }

    /// The text shown for this error.
    pub fn message(&self) -> (m: &'static str)
        ensures
            m@ == self.text(),
    {
        match self {
            BleError::NoDeviceSelected => "No device actually selected",
            BleError::NoGatt => "No GATT found on device",
            BleError::GattConnectFailed => "Failed to connect to GATT",
            BleError::ServiceNotFound => "No trafficlight service",
            BleError::CharacteristicNotFound => "No trafficlight write characteristic",
            BleError::NotConnected => "Not connected to a trafficlight",
            BleError::WriteFailed => "Error writing green LED!",
            BleError::Busy => "Another Bluetooth operation is in progress",
        }
    }

    /// The pairing step that this error reports as failed, if it reports one.
    pub fn failed_step(&self) -> (s: Option<PairingStep>)
        ensures
            s == self.step(),
    {
        match self {
            BleError::NoDeviceSelected => Some(PairingStep::SelectDevice),
            BleError::NoGatt => Some(PairingStep::ConnectGatt),
            BleError::GattConnectFailed => Some(PairingStep::ConnectGatt),
            BleError::ServiceNotFound => Some(PairingStep::ResolveService),
            BleError::CharacteristicNotFound => Some(PairingStep::ResolveCharacteristic),
            BleError::NotConnected => None,
            BleError::WriteFailed => None,
            BleError::Busy => None,
        }
    }
}

/// No two errors share a text: whoever reads the text knows the error, and
/// with it the step that failed.
pub proof fn lemma_text_identifies_error(a: BleError, b: BleError)
    requires
        a.text() == b.text(),
    ensures
        a == b,
        a.step() == b.step(),
{
    reveal_strlit("No device actually selected");
    reveal_strlit("No GATT found on device");
    reveal_strlit("Failed to connect to GATT");
    reveal_strlit("No trafficlight service");
    reveal_strlit("No trafficlight write characteristic");
    reveal_strlit("Not connected to a trafficlight");
    reveal_strlit("Error writing green LED!");
    reveal_strlit("Another Bluetooth operation is in progress");
    assert(BleError::NoDeviceSelected.text().len() == 27);
    assert(BleError::NoGatt.text().len() == 23);
    assert(BleError::GattConnectFailed.text().len() == 25);
    assert(BleError::ServiceNotFound.text().len() == 23);
    assert(BleError::CharacteristicNotFound.text().len() == 36);
    assert(BleError::NotConnected.text().len() == 31);
    assert(BleError::WriteFailed.text().len() == 24);
    assert(BleError::Busy.text().len() == 42);
    assert(BleError::NoGatt.text()[3] == 'G');
    assert(BleError::ServiceNotFound.text()[3] == 't');
}

} // verus!
