//! The driver interfaces: what a device server implements and what a
//! client facade exposes, one trait per device class.
//!
//! Payload parameters travel as owned byte vectors rather than borrowed
//! mutable slices, which the verifier does not take.

use vstd::prelude::*;
use crate::caps::Badge;
use crate::error::Error;
use crate::protocol::fb::FbInfo;
use crate::protocol::input::InputEvent;
use crate::protocol::net::MacAddress;
use crate::protocol::pci::PciAddress;
use crate::protocol::sdio::SdioCommand;
use crate::protocol::thermal::ThermalZones;
use crate::protocol::usb::UsbSetupPacket;
use crate::protocol::wifi::WifiApInfo;

verus! {

/// A device server's lifecycle.
pub trait DriverService {
    /// Brings the device up.
    fn init(&mut self) -> Result<(), Error>;

    /// Enables the device.
    fn enable(&mut self);

    /// Disables the device.
    fn disable(&mut self);
}

/// A client facade's lifecycle.
pub trait DriverClient {
    /// Runs the handshake with the server.
    fn connect(&mut self) -> Result<(), Error>;

    /// Tears the connection down; a no-op for this transport.
    fn disconnect(&mut self) -> Result<(), Error>;
}

/// Block storage access.
pub trait BlockDriver {
    /// Reads `count` sectors starting at `sector` into `buf`.
    fn read_blocks(&self, sector: u64, count: u32, buf: &mut Vec<u8>) -> Result<(), Error>;

    /// Writes `count` sectors starting at `sector` from `buf`.
    fn write_blocks(&self, sector: u64, count: u32, buf: &Vec<u8>) -> Result<(), Error>;

    /// Block size in bytes.
    fn block_size(&self) -> u32;

    /// Device capacity in sectors.
    fn capacity(&self) -> u64;
}

/// PCI configuration space access.
pub trait PciDriver {
    /// Reads `size` bytes of configuration space at `offset`.
    fn read_config(&self, offset: usize, size: usize) -> Result<u32, Error>;

    /// Writes `size` bytes of configuration space at `offset`.
    fn write_config(&self, offset: usize, value: u32, size: usize) -> Result<(), Error>;

    /// Enables bus mastering.
    fn enable_bus_master(&self) -> Result<(), Error>;

    /// Enables MSI delivery.
    fn enable_msi(&self, vector: u8, dest_id: u32) -> Result<(), Error>;

    /// The function this driver addresses.
    fn get_address(&self) -> PciAddress;
}

/// Network metadata.
pub trait NetDriver {
    /// The hardware address of the interface.
    fn mac_address(&self) -> MacAddress;
}

/// Serial communication.
pub trait UartDriver {
    /// Writes one character.
    fn put_char(&mut self, c: u8);

    /// Reads one character, if any.
    fn get_char(&mut self) -> Option<u8>;

    /// Writes a string.
    fn put_str(&mut self, s: &str);
}

/// Wireless network management.
pub trait WifiDriver {
    /// Triggers a background scan.
    fn scan(&mut self) -> Result<(), Error>;

    /// The access points the last scan found.
    fn get_scan_results(&mut self) -> Result<Vec<WifiApInfo>, Error>;

    /// Associates with an access point.
    fn connect(&mut self, ssid: &str, password: &str, security: u8) -> Result<(), Error>;

    /// Disassociates.
    fn disconnect(&mut self) -> Result<(), Error>;

    /// Connection status code.
    fn status(&self) -> Result<u8, Error>;
}

/// Human input events.
pub trait InputDriver {
    /// The next pending event, if any.
    fn poll_event(&mut self) -> Option<InputEvent>;
}

/// Display management.
pub trait FrameBufferDriver {
    /// Display geometry and pixel memory placement.
    fn get_info(&self) -> FbInfo;

    /// Flushes one rectangle to the screen.
    fn flush(&mut self, x: u32, y: u32, w: u32, h: u32) -> Result<(), Error>;
}

/// USB bus management.
pub trait UsbHostDriver {
    /// Sends a control packet: the setup stage and an optional data
    /// stage. Returns the bytes transferred.
    fn control_transfer(&mut self, addr: u8, ep: u8, setup: UsbSetupPacket, data: &mut Vec<u8>)
        -> Result<usize, Error>;

    /// Performs a bulk transfer. Returns the bytes transferred.
    fn bulk_transfer(&mut self, addr: u8, ep: u8, data: &mut Vec<u8>) -> Result<usize, Error>;

    /// Resets a root hub port.
    fn reset_port(&mut self, port: u8) -> Result<(), Error>;
}

/// Pin control.
pub trait GpioDriver {
    /// Selects a pin mode.
    fn set_mode(&mut self, pin: u32, mode: u8) -> Result<(), Error>;

    /// Drives a pin.
    fn write(&mut self, pin: u32, value: bool) -> Result<(), Error>;

    /// Samples a pin.
    fn read(&self, pin: u32) -> Result<bool, Error>;
}

/// Time and alarm services.
pub trait TimerDriver {
    /// Current UNIX time in seconds.
    fn get_time(&self) -> u64;

    /// Sets the current UNIX time in seconds.
    fn set_time(&mut self, timestamp: u64) -> Result<(), Error>;

    /// Arms an alarm for a UNIX timestamp.
    fn set_alarm(&mut self, timestamp: u64) -> Result<(), Error>;

    /// Stops the alarm.
    fn stop_alarm(&mut self) -> Result<(), Error>;
}

/// Random numbers.
pub trait RngDriver {
    /// Fills `buf` with random bytes. Returns how many were written.
    fn get_random_bytes(&mut self, buf: &mut Vec<u8>) -> Result<usize, Error>;
}

/// SPI bus access.
pub trait SpiDriver {
    /// Full-duplex transfer, modifying the data in place.
    fn transfer(&mut self, buf: &mut Vec<u8>) -> Result<(), Error>;

    /// Transmit-only transfer.
    fn send(&mut self, buf: &Vec<u8>) -> Result<(), Error>;

    /// Receive-only transfer.
    fn recv(&mut self, buf: &mut Vec<u8>) -> Result<(), Error>;
}

/// I2C bus access.
pub trait I2cDriver {
    /// Reads from a device into `buf`.
    fn read(&mut self, addr: u16, buf: &mut Vec<u8>) -> Result<(), Error>;

    /// Writes `buf` to a device.
    fn write(&mut self, addr: u16, buf: &Vec<u8>) -> Result<(), Error>;

    /// Writes a command, then reads the response under a repeated start.
    fn write_read(&mut self, addr: u16, w_buf: &Vec<u8>, r_buf: &mut Vec<u8>) -> Result<(), Error>;
}

/// SDIO bus access.
pub trait SdioDriver {
    /// Sends one command. Returns the four response words.
    fn send_command(&mut self, cmd: SdioCommand) -> Result<[u32; 4], Error>;

    /// Reads data blocks for one command.
    fn read_blocks(&mut self, cmd: SdioCommand, buf: &mut Vec<u8>) -> Result<(), Error>;

    /// Writes data blocks for one command.
    fn write_blocks(&mut self, cmd: SdioCommand, buf: &Vec<u8>) -> Result<(), Error>;

    /// Selects the bus width.
    fn set_bus_width(&mut self, width: u8) -> Result<(), Error>;

    /// Selects the clock rate in hertz.
    fn set_clock(&mut self, hz: u32) -> Result<(), Error>;
}

/// DMA remapping.
pub trait IommuDriver {
    /// Maps a device-visible range onto physical memory.
    fn map(&mut self, iova: usize, paddr: usize, size: usize, flags: u32) -> Result<(), Error>;

    /// Unmaps a device-visible range.
    fn unmap(&mut self, iova: usize, size: usize) -> Result<(), Error>;

    /// Flushes the remapping tables.
    fn flush(&mut self) -> Result<(), Error>;
}

/// System-wide power management.
pub trait PlatformDriver {
    /// Selects a sleep state, 1 to 4.
    fn set_sleep_state(&mut self, state: u32) -> Result<(), Error>;

    /// Resets the system, warm or cold.
    fn reset(&mut self, warm: bool) -> Result<(), Error>;

    /// Shuts the system down.
    fn shutdown(&mut self) -> Result<(), Error>;
}

/// Temperature monitoring.
pub trait ThermalDriver {
    /// The temperature of one zone, in tenths of a kelvin.
    fn get_temperature(&self, zone: u32) -> Result<u32, Error>;
}

/// Power source and battery information.
pub trait BatteryDriver {
    /// The power source: 1 for mains, 0 for battery.
    fn get_power_source(&self) -> Result<u32, Error>;

    /// The battery level, 0 to 100.
    fn get_level(&self) -> Result<u32, Error>;

    /// The charging status code.
    fn get_status(&self) -> Result<u32, Error>;
}

/// ACPI method evaluation.
pub trait AcpiDriver {
    /// Evaluates one firmware method under its path with the given
    /// arguments. Returns the result values.
    fn evaluate_method(&mut self, path: &str, args: &Vec<u64>) -> Result<Vec<u64>, Error>;
}

/// Device discovery by name.
pub trait ProbeDriver {
    /// The names of the devices found.
    fn probe(&mut self) -> Result<Vec<String>, Error>;
}

/// System-wide thermal monitoring.
pub trait ThermalService {
    /// All thermal zones of the system.
    fn get_thermal_zones(&mut self) -> Result<ThermalZones, Error>;

    /// Records zone information reported by one sensor driver.
    fn update_thermal_zones(&mut self, badge: Badge, zones: ThermalZones) -> Result<(), Error>;
}

} // verus!
