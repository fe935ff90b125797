use just_gl::get_connector_name;
use just_gl::drm::{ConnectionState, ConnectorDescriptor};
use just_gl::naming::{connector_name, decimal_string, format_connector_name};

fn connector(interface: u32, interface_id: u32) -> ConnectorDescriptor {
    ConnectorDescriptor {
        handle: 1,
        interface,
        interface_id,
        state: ConnectionState::Connected,
        modes: Vec::new(),
        encoders: Vec::new(),
    }
}

#[test]
fn decimal_of_small_and_large_numbers() {
    assert_eq!(decimal_string(0), "0");
    assert_eq!(decimal_string(7), "7");
    assert_eq!(decimal_string(10), "10");
    assert_eq!(decimal_string(1920), "1920");
    assert_eq!(decimal_string(u32::MAX), "4294967295");
}

#[test]
fn label_and_number_are_joined_by_a_dash() {
    assert_eq!(format_connector_name("HDMI-A", 1), "HDMI-A-1");
    assert_eq!(format_connector_name("", 0), "-0");
    assert_eq!(format_connector_name("DP", 12), "DP-12");
}

#[test]
fn connector_names_use_the_interface_label() {
    // kernel connector type numbers: 10 DisplayPort, 11 HDMI-A, 14 eDP
    assert_eq!(get_connector_name(&connector(11, 1)), "HDMI-A-1");
    assert_eq!(get_connector_name(&connector(10, 2)), "DP-2");
    assert_eq!(get_connector_name(&connector(14, 1)), "eDP-1");
    assert_eq!(connector_name(1, 3), "VGA-3");
}

#[test]
fn unknown_interface_types_are_named_unknown() {
    assert_eq!(connector_name(0, 1), "Unknown-1");
    assert_eq!(connector_name(9999, 1), "Unknown-1");
}
