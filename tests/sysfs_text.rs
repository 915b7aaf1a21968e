use libtypec_rs::backends::sysfs::bcd_from_text;
use libtypec_rs::backends::sysfs::cable_type_from_text;
use libtypec_rs::backends::sysfs::connector_capability_for_mode;
use libtypec_rs::backends::sysfs::is_chrome_os;
use libtypec_rs::backends::sysfs::mode_support_from_text;
use libtypec_rs::backends::sysfs::negotiated_power_level;
use libtypec_rs::backends::sysfs::operation_mode_from_power_role;
use libtypec_rs::backends::sysfs::pd_revision_from_text;
use libtypec_rs::backends::sysfs::plug_end_type_from_text;
use libtypec_rs::backends::sysfs::u32_from_text;
use libtypec_rs::ucsi::CablePropertyPlugEndType;
use libtypec_rs::ucsi::CablePropertyType;
use libtypec_rs::ucsi::ConnectorCapabilityOperationMode;
use libtypec_rs::BcdWrapper;
use libtypec_rs::Error;

#[test]
fn revision_text_to_bcd() {
    assert_eq!(bcd_from_text("3.1\n").unwrap(), BcdWrapper(0x301));
    assert_eq!(bcd_from_text("2\n").unwrap(), BcdWrapper(0x200));
    assert!(matches!(bcd_from_text("x.1"), Err(Error::ParseStringError { .. })));
    assert!(matches!(bcd_from_text("3"), Err(Error::ParseStringError { .. })));
}

#[test]
fn pd_revision_text_is_packed() {
    assert_eq!(pd_revision_from_text("3.0\n").unwrap(), 0x30);
    assert_eq!(pd_revision_from_text("2.1").unwrap(), 0x21);
    assert!(matches!(pd_revision_from_text("3."), Err(Error::ParseStringError { .. })));
}

#[test]
fn decimal_text_keeps_only_digits() {
    assert_eq!(u32_from_text("5000000\n").unwrap(), 5_000_000);
    assert_eq!(u32_from_text("5000mV").unwrap(), 5000);
    assert_eq!(u32_from_text("4294967295").unwrap(), u32::MAX);
    assert!(matches!(u32_from_text("4294967296"), Err(Error::ParseStringError { .. })));
    assert!(matches!(u32_from_text("none\n"), Err(Error::ParseStringError { .. })));
}

#[test]
fn power_role_to_operation_mode() {
    assert_eq!(operation_mode_from_power_role("[source] sink\n"), ConnectorCapabilityOperationMode::Drp);
    assert_eq!(operation_mode_from_power_role("[source]\n"), ConnectorCapabilityOperationMode::RpOnly);
    assert_eq!(operation_mode_from_power_role("[sink]\n"), ConnectorCapabilityOperationMode::RdOnly);
}

#[test]
fn operation_mode_sets_power_roles() {
    let drp = connector_capability_for_mode(ConnectorCapabilityOperationMode::Drp);
    assert!(drp.provider && drp.consumer);
    let rd = connector_capability_for_mode(ConnectorCapabilityOperationMode::RdOnly);
    assert!(!rd.provider && rd.consumer);
    let rp = connector_capability_for_mode(ConnectorCapabilityOperationMode::RpOnly);
    assert!(rp.provider && !rp.consumer);
    assert_eq!(rp.operation_mode, ConnectorCapabilityOperationMode::RpOnly);
}

#[test]
fn cable_attributes() {
    assert_eq!(plug_end_type_from_text("type-c\n"), CablePropertyPlugEndType::UsbTypeC);
    assert_eq!(plug_end_type_from_text("type-a\n"), CablePropertyPlugEndType::UsbTypeA);
    assert_eq!(plug_end_type_from_text("type-b\n"), CablePropertyPlugEndType::UsbTypeB);
    assert_eq!(plug_end_type_from_text("captive\n"), CablePropertyPlugEndType::OtherNotUsb);
    assert_eq!(cable_type_from_text("active\n").unwrap(), CablePropertyType::Active);
    assert_eq!(cable_type_from_text("passive\n").unwrap(), CablePropertyType::Passive);
    match cable_type_from_text("unknown\n") {
        Err(Error::ParseStringError { field, value }) => {
            assert_eq!(field, "cable_type");
            assert_eq!(value, "unknown\n");
        }
        other => panic!("unexpected {:?}", other),
    }
    assert!(!mode_support_from_text("0\n").unwrap());
    assert!(mode_support_from_text("2\n").unwrap());
    assert!(matches!(mode_support_from_text(""), Err(Error::ParseStringError { .. })));
}

#[test]
fn power_level_from_supply_readings() {
    // 3 A at 20 V is 60 W, 240 units of 250 mW, both operating and highest
    assert_eq!(negotiated_power_level(3_000_000, 20_000_000, 3_000_000, 20_000_000), (240 << 10) | 240);
    assert_eq!(negotiated_power_level(0, 5_000_000, 3_000_000, 5_000_000), 60);
    // the highest power keeps only its low ten bits
    assert_eq!(negotiated_power_level(0, 0, 4_294_967_295, 4_294_967_295), 73_786_966 & 0x3ff);
}

#[test]
fn chrome_os_sysname() {
    assert!(is_chrome_os("chromeos"));
    assert!(!is_chrome_os("Linux"));
}
