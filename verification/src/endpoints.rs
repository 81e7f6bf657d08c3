//! The stateless endpoints: the greeter, the system report and the two
//! placeholders. None of them reads or writes the stored device state.

use vstd::prelude::*;
use crate::error::{DeviceError, DeviceErrorView};

verus! {

/// The greeting for `name`: a fixed sentence around the name, taken verbatim.
pub open spec fn greeting_text(name: Seq<char>) -> Seq<char> {
    "Hello, "@ + name + "! You've been greeted from Rust!"@
}

/// Greets `name`. Nothing is validated and nothing can fail.
pub fn greet(name: &str) -> (text: String)
    ensures
        text@ == greeting_text(name@),
{
    String::from_str("Hello, ").concat(name).concat("! You've been greeted from Rust!")
}

/// The report for a host whose operating system and CPU architecture are
/// identified by `os` and `arch`.
pub open spec fn system_info_text(os: Seq<char>, arch: Seq<char>) -> Seq<char> {
    "OS: "@ + os + ", Architecture: "@ + arch
}

/// Describes the host in one line. The caller supplies the two identifiers
/// of the machine it runs on.
pub fn get_system_info(os: &str, arch: &str) -> (text: String)
    ensures
        text@ == system_info_text(os@, arch@),
{
    String::from_str("OS: ").concat(os).concat(", Architecture: ").concat(arch)
}

/// Placeholder for toggling the USB device: touches no device and always
/// answers with the same success message.
pub fn toggle_usb_device() -> (text: String)
    ensures
        text@ == "USB device toggled successfully"@,
{
    String::from_str("USB device toggled successfully")
}

/// Whether `config` is exactly one of the three headphone modes. The match is
/// case-sensitive and admits no surrounding characters.
pub open spec fn is_headphone_mode(config: Seq<char>) -> bool {
    config == "3 Pin"@ || config == "4 Pin"@ || config == "Disconnected"@
}

/// The confirmation for an accepted configuration, which it repeats verbatim.
pub open spec fn confirmation_text(config: Seq<char>) -> Seq<char> {
    "Headphone configuration set to: "@ + config
}

/// Placeholder for configuring the headphone: accepts one of the three modes
/// and confirms it, rejects anything else. The stored device state is not
/// consulted and not changed.
pub fn set_headphone_config(config: String) -> (outcome: Result<String, DeviceError>)
    ensures
        is_headphone_mode(config@) ==> (outcome matches Ok(text) && text@ == confirmation_text(
            config@,
        )),
        !is_headphone_mode(config@) ==> (outcome matches Err(error) && error@
            == DeviceErrorView::InvalidConfiguration),
{
    if config == String::from_str("3 Pin") || config == String::from_str("4 Pin") || config
        == String::from_str("Disconnected") {
        Ok(String::from_str("Headphone configuration set to: ").concat(config.as_str()))
    } else {
        Err(DeviceError::InvalidConfiguration)
    }
}

} // verus!
