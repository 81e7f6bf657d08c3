//! The persisted record.

use vstd::prelude::*;

verus! {

/// The two user-toggleable device settings, the unit of persistence.
#[derive(Debug)]
pub struct DeviceState {
    /// Whether the USB device is currently enabled.
    pub usb: bool,
    /// The headphone connection mode, stored verbatim and never validated here.
    pub headphone: String,
}

/// The mathematical value of a [`DeviceState`]: the flag and the mode's characters.
pub struct DeviceStateView {
    pub usb: bool,
    pub headphone: Seq<char>,
}

impl View for DeviceState {
    type V = DeviceStateView;

    open spec fn view(&self) -> DeviceStateView {
        DeviceStateView { usb: self.usb, headphone: self.headphone@ }
    }
}

/// The state of a device that has never been saved: USB off, headphone disconnected.
pub open spec fn default_state() -> DeviceStateView {
    DeviceStateView { usb: false, headphone: "Disconnected"@ }
}

impl Default for DeviceState {
    fn default() -> (state: DeviceState)
        ensures
            state@ == default_state(),
    {
        DeviceState { usb: false, headphone: String::from_str("Disconnected") }
    }
}


} // verus!
