//! WiFi device protocol: management of 802.11 interfaces (scan,
//! association, authentication). Data transmission uses the Ethernet
//! protocol.

use vstd::prelude::*;

verus! {

/// Trigger a background scan.
pub const SCAN: usize = 0x01;

/// Retrieve scan results.
pub const GET_SCAN_RESULTS: usize = 0x02;

/// Associate with an access point.
pub const CONNECT: usize = 0x03;

/// Disassociate.
pub const DISCONNECT: usize = 0x04;

/// Get current connection information.
pub const GET_STATUS: usize = 0x05;

// Security capability flags
pub const SEC_OPEN: u8 = 0;
pub const SEC_WEP: u8 = 1;
pub const SEC_WPA2: u8 = 2;
pub const SEC_WPA3: u8 = 3;

// Connection status
pub const STATUS_DISCONNECTED: u8 = 0;
pub const STATUS_CONNECTING: u8 = 1;
pub const STATUS_CONNECTED: u8 = 2;
pub const STATUS_FAILED: u8 = 3;

/// One access point as reported by a scan.
#[derive(Clone, Copy, Debug)]
pub struct WifiApInfo {
    /// Network name bytes; only the first `ssid_len` are meaningful.
    pub ssid: [u8; 32],
    /// Length of the network name.
    pub ssid_len: u8,
    /// Hardware address of the access point.
    pub bssid: [u8; 6],
    /// Security mode (`SEC_*`).
    pub security: u8,
    /// Radio channel.
    pub channel: u8,
    /// Signal strength in dBm.
    pub rssi: i8,
}

/// A request to associate with an access point.
#[derive(Clone, Copy, Debug)]
pub struct WifiConnectReq {
    /// Network name bytes; only the first `ssid_len` are meaningful.
    pub ssid: [u8; 32],
    /// Length of the network name.
    pub ssid_len: u8,
    /// Passphrase bytes; only the first `password_len` are meaningful.
    pub password: [u8; 64],
    /// Length of the passphrase.
    pub password_len: u8,
    /// Security mode (`SEC_*`).
    pub security: u8,
}

} // verus!
