use device_controller::endpoints::{
    get_system_info, greet, set_headphone_config, toggle_usb_device,
};
use device_controller::error::{DeviceError, IoOperation};
use device_controller::state::DeviceState;

#[test]
fn greet_embeds_the_name() {
    assert_eq!(greet("Ada"), "Hello, Ada! You've been greeted from Rust!");
}

#[test]
fn greet_takes_the_name_verbatim() {
    assert_eq!(greet(""), "Hello, ! You've been greeted from Rust!");
    assert_eq!(greet("  {} \"é\"\n"), "Hello,   {} \"é\"\n! You've been greeted from Rust!");
}

#[test]
fn system_info_names_os_and_architecture() {
    assert_eq!(get_system_info("linux", "x86_64"), "OS: linux, Architecture: x86_64");
    assert_eq!(get_system_info("", ""), "OS: , Architecture: ");
}

#[test]
fn toggle_usb_device_always_reports_success() {
    assert_eq!(toggle_usb_device(), "USB device toggled successfully");
    assert_eq!(toggle_usb_device(), toggle_usb_device());
}

#[test]
fn headphone_config_accepts_three_pin() {
    let text = set_headphone_config("3 Pin".to_string()).unwrap();
    assert_eq!(text, "Headphone configuration set to: 3 Pin");
    assert!(text.contains("3 Pin"));
}

#[test]
fn headphone_config_accepts_four_pin() {
    let text = set_headphone_config("4 Pin".to_string()).unwrap();
    assert_eq!(text, "Headphone configuration set to: 4 Pin");
    assert!(text.contains("4 Pin"));
}

#[test]
fn headphone_config_accepts_disconnected() {
    let text = set_headphone_config("Disconnected".to_string()).unwrap();
    assert_eq!(text, "Headphone configuration set to: Disconnected");
    assert!(text.contains("Disconnected"));
}

#[test]
fn headphone_config_rejects_five_pin() {
    let error = set_headphone_config("5 Pin".to_string()).unwrap_err();
    assert!(matches!(error, DeviceError::InvalidConfiguration));
    assert_eq!(error.message(), "Invalid headphone configuration");
}

#[test]
fn headphone_config_rejects_the_empty_string() {
    let error = set_headphone_config(String::new()).unwrap_err();
    assert!(matches!(error, DeviceError::InvalidConfiguration));
}

#[test]
fn headphone_config_matches_exactly() {
    for config in ["3 pin", "3 PIN", " 3 Pin", "3 Pin ", "3Pin", "disconnected", "3 Pin\n", "4 Pin4 Pin"] {
        let outcome = set_headphone_config(config.to_string());
        assert!(matches!(outcome, Err(DeviceError::InvalidConfiguration)), "{config:?}");
    }
}

#[test]
fn default_state_is_usb_off_and_disconnected() {
    let state = DeviceState::default();
    assert!(!state.usb);
    assert_eq!(state.headphone, "Disconnected");
}

#[test]
fn every_error_has_its_message() {
    assert_eq!(DeviceError::DirectoryResolution.message(), "Failed to get app data directory");
    assert_eq!(
        DeviceError::Io { operation: IoOperation::CreateDirectory, detail: "denied".to_string() }
            .message(),
        "Failed to create app directory: denied"
    );
    assert_eq!(
        DeviceError::Io { operation: IoOperation::WriteFile, detail: "disk full".to_string() }
            .message(),
        "Failed to write state file: disk full"
    );
    assert_eq!(
        DeviceError::Io { operation: IoOperation::ReadFile, detail: "".to_string() }.message(),
        "Failed to read state file: "
    );
    assert_eq!(
        DeviceError::Serialization { detail: "why".to_string() }.message(),
        "Failed to serialize state: why"
    );
    assert_eq!(
        DeviceError::Deserialization { detail: "expected value".to_string() }.message(),
        "Failed to deserialize state: expected value"
    );
    assert_eq!(DeviceError::InvalidConfiguration.message(), "Invalid headphone configuration");
}
