//! A device as the scanner reports it.

use vstd::prelude::*;

verus! {

/// One discovered device, with what is shown of it.
#[derive(Debug)]
pub struct Device {
    pub name: String,
    pub device_type: String,
    /// The fingerprint by which the device is recognised.
    pub mac: String,
    pub rssi: i16,
    /// Signal strength relative to the other devices in sight, 0 to 100.
    pub percent: u8,
    pub signal_text: String,
    pub signal_color: String,
    pub status: String,
    pub last: String,
}

impl Default for Device {
    /// A device of which nothing is known: empty texts, no signal.
    fn default() -> (device: Self)
        ensures
            device.name@.len() == 0,
            device.device_type@.len() == 0,
            device.mac@.len() == 0,
            device.rssi == 0,
            device.percent == 0,
            device.signal_text@.len() == 0,
            device.signal_color@.len() == 0,
            device.status@.len() == 0,
            device.last@.len() == 0,
    {
        Device {
            name: String::new(),
            device_type: String::new(),
            mac: String::new(),
            rssi: 0,
            percent: 0,
            signal_text: String::new(),
            signal_color: String::new(),
            status: String::new(),
            last: String::new(),
        }
    }
}

} // verus!
