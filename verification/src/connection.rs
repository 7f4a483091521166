//! The transports to the host and which of them is in use.

use rmk::types::ble::{BleState as RmkBle, BleStatus};
use rmk::types::connection::{
    ConnectionStatus as RmkStatus, ConnectionType as RmkType, UsbState as RmkUsb,
};
use vstd::prelude::*;

verus! {

/// What the radio is doing.
#[derive(Debug, Clone, Copy, PartialEq, Eq, Structural)]
pub enum BleState {
    Inactive,
    Advertising,
    Connected,
}

/// USB device lifecycle.
#[derive(Debug, Clone, Copy, PartialEq, Eq, Structural)]
pub enum UsbState {
    Disabled,
    Enabled,
    Configured,
    Suspended,
}

/// A transport.
#[derive(Debug, Clone, Copy, PartialEq, Eq, Structural)]
pub enum ConnectionType {
    Usb,
    Ble,
}

/// Availability of both transports, and which one wins when both are ready.
#[derive(Debug, Clone, Copy, PartialEq, Eq, Structural)]
pub struct ConnectionStatus {
    pub usb: UsbState,
    pub ble_state: BleState,
    pub profile: u8,
    pub preferred: ConnectionType,
}

impl ConnectionStatus {
    /// The USB leg can carry reports; a suspended one does so after a wakeup.
    pub open spec fn usb_ready(self) -> bool {
        self.usb is Configured || self.usb is Suspended
    }

    /// The radio leg can carry reports.
    pub open spec fn ble_ready(self) -> bool {
        self.ble_state is Connected
    }

    /// The transport in use: the one that is ready, the preferred one if both are.
    pub open spec fn active(self) -> Option<ConnectionType> {
        if self.usb_ready() && self.ble_ready() {
            Some(self.preferred)
        } else if self.usb_ready() {
            Some(ConnectionType::Usb)
        } else if self.ble_ready() {
            Some(ConnectionType::Ble)
        } else {
            None
        }
    }
}

/// `rmk::types::connection::ConnectionStatus::decide_active`: the transport that
/// is ready, the preferred one if both are, none if neither is.
#[verifier::external_body]
pub(crate) fn decide_active(s: ConnectionStatus) -> (r: Option<ConnectionType>)
    ensures
        r == s.active(),
{
    let usb = match s.usb {
        UsbState::Disabled => RmkUsb::Disabled, UsbState::Enabled => RmkUsb::Enabled,
        UsbState::Configured => RmkUsb::Configured, UsbState::Suspended => RmkUsb::Suspended,
    };
    let state = match s.ble_state {
        BleState::Inactive => RmkBle::Inactive, BleState::Advertising => RmkBle::Advertising,
        BleState::Connected => RmkBle::Connected,
    };
    let preferred = match s.preferred { ConnectionType::Usb => RmkType::Usb, ConnectionType::Ble => RmkType::Ble };
    let ble = BleStatus { profile: s.profile, state };
    match (RmkStatus { usb, ble, preferred }).decide_active() {
        Some(RmkType::Usb) => Some(ConnectionType::Usb),
        Some(RmkType::Ble) => Some(ConnectionType::Ble),
        None => None,
    }
}

} // verus!
