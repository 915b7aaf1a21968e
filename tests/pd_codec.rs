use libtypec_rs::bitstream::BitReader;
use libtypec_rs::bitstream::BitWriter;
use libtypec_rs::pd::pd3p2::BatterySupplyPdo;
use libtypec_rs::pd::pd3p2::FastRoleSwap;
use libtypec_rs::pd::pd3p2::FixedSupplyPdo;
use libtypec_rs::pd::pd3p2::SprProgrammableSupplyPdo;
use libtypec_rs::pd::pd3p2::VariableSupplyPdo;
use libtypec_rs::pd::pd3p2::DiscoverIdentityResponse;
use libtypec_rs::pd::Command;
use libtypec_rs::pd::CommandType;
use libtypec_rs::pd::Pdo;
use libtypec_rs::pd::VdmHeader;
use libtypec_rs::vdo::ConnectorType;
use libtypec_rs::vdo::DfpProductType;
use libtypec_rs::vdo::Dfp;
use libtypec_rs::vdo::IdHeader;
use libtypec_rs::vdo::Product;
use libtypec_rs::vdo::ProductType;
use libtypec_rs::vdo::Ufp;
use libtypec_rs::vdo::UsbHighestSpeed;
use libtypec_rs::vdo::Vpd;
use libtypec_rs::vdo::VpdMaximumVbusVoltage;
use libtypec_rs::BcdWrapper;
use libtypec_rs::Error;
use libtypec_rs::MilliOhm;
use libtypec_rs::Milliamp;
use libtypec_rs::Millivolt;
use libtypec_rs::Milliwatt;

const REV: BcdWrapper = BcdWrapper(0x310);

#[test]
fn bcd_renders_decimal_digits() {
    assert_eq!(BcdWrapper(0x0310).to_string(), "3.10");
    assert_eq!(BcdWrapper(0x0120).to_string(), "1.20");
    assert_eq!(BcdWrapper(0x0200).to_string(), "2.0");
}

#[test]
fn quantities_render_with_units() {
    assert_eq!(Millivolt(5000).to_string(), "5000mV");
    assert_eq!(Milliamp(0).to_string(), "0mA");
    assert_eq!(Milliwatt(15000).to_string(), "15000mW");
    assert_eq!(MilliOhm(12).to_string(), "12mOhm");
    assert_eq!(Millivolt::from(7), Millivolt(7));
}

#[test]
fn fixed_supply_voltage_is_in_millivolts() {
    // voltage field 100 (50 mV units), current field 300 (10 mA units)
    let word: u32 = (100 << 10) | 300;
    match Pdo::from_word(word, REV).unwrap() {
        Pdo::Pd3p2FixedSupplyPdo(p) => {
            assert_eq!(p.voltage, Millivolt(5000));
            assert_eq!(p.operational_current, Milliamp(3000));
        }
        other => panic!("unexpected {:?}", other),
    }
}

#[test]
fn fixed_supply_fast_role_swap_codes() {
    let word: u32 = 2 << 23;
    match Pdo::from_word(word, REV).unwrap() {
        Pdo::Pd3p2FixedSupplyPdo(p) => assert_eq!(p.fast_role_swap, FastRoleSwap::OnePointFiveAAtFiveV),
        other => panic!("unexpected {:?}", other),
    }
    assert_eq!(FastRoleSwap::n(2), Some(FastRoleSwap::OnePointFiveAAtFiveV));
    assert_eq!(FastRoleSwap::n(4), None);
}

#[test]
fn fixed_supply_flags() {
    let word: u32 = (1 << 29) | (1 << 27) | (1 << 25);
    match Pdo::from_word(word, REV).unwrap() {
        Pdo::Pd3p2FixedSupplyPdo(p) => {
            assert!(p.dual_role_power);
            assert!(!p.higher_capability);
            assert!(p.unconstrained_power);
            assert!(!p.usb_communications_capable);
            assert!(p.dual_role_data);
        }
        other => panic!("unexpected {:?}", other),
    }
}

#[test]
fn battery_variable_and_programmable_pdos() {
    let battery: u32 = (1 << 30) | (420 << 20) | (100 << 10) | 60;
    assert_eq!(
        Pdo::from_word(battery, REV).unwrap(),
        Pdo::Pd3p2BatterySupplyPdo(BatterySupplyPdo {
            max_voltage: Millivolt(21000),
            min_voltage: Millivolt(5000),
            operational_power: Milliwatt(15000),
        })
    );
    let variable: u32 = (2 << 30) | (240 << 20) | (100 << 10) | 150;
    assert_eq!(
        Pdo::from_word(variable, REV).unwrap(),
        Pdo::Pd3p2VariableSupplyPdo(VariableSupplyPdo {
            max_voltage: Millivolt(12000),
            min_voltage: Millivolt(5000),
            max_current: Milliamp(1500),
        })
    );
    let pps: u32 = (3 << 30) | (210 << 17) | (33 << 8) | 60;
    assert_eq!(
        Pdo::from_word(pps, REV).unwrap(),
        Pdo::Pd3p2AugmentedPdo(SprProgrammableSupplyPdo {
            max_voltage: Millivolt(21000),
            min_voltage: Millivolt(3300),
            max_current: Milliamp(3000),
        })
    );
}

#[test]
fn pdo_round_trip_each_kind() {
    let pdos = [
        Pdo::Pd3p2FixedSupplyPdo(FixedSupplyPdo {
            dual_role_power: true,
            higher_capability: false,
            unconstrained_power: true,
            usb_communications_capable: true,
            dual_role_data: false,
            fast_role_swap: FastRoleSwap::ThreeAAtFiveV,
            voltage: Millivolt(9000),
            operational_current: Milliamp(2000),
        }),
        Pdo::Pd3p2BatterySupplyPdo(BatterySupplyPdo {
            max_voltage: Millivolt(20000),
            min_voltage: Millivolt(5000),
            operational_power: Milliwatt(45000),
        }),
        Pdo::Pd3p2VariableSupplyPdo(VariableSupplyPdo {
            max_voltage: Millivolt(15000),
            min_voltage: Millivolt(9000),
            max_current: Milliamp(1230),
        }),
        Pdo::Pd3p2AugmentedPdo(SprProgrammableSupplyPdo {
            max_voltage: Millivolt(11000),
            min_voltage: Millivolt(3300),
            max_current: Milliamp(5000),
        }),
    ];
    for p in pdos {
        assert_eq!(Pdo::from_word(p.to_word(), REV).unwrap(), p);
        let mut reader = BitReader::new(p.to_word().to_le_bytes().to_vec());
        assert_eq!(Pdo::from_bytes(&mut reader, REV).unwrap(), p);
        let mut writer = BitWriter::new();
        p.to_bytes(&mut writer).unwrap();
        let bytes = writer.into_bytes();
        assert_eq!(bytes, p.to_word().to_le_bytes().to_vec());
        let mut reader = BitReader::new(bytes);
        assert_eq!(Pdo::from_bytes(&mut reader, REV).unwrap(), p);
    }
}

#[test]
fn pdo_from_stream_reads_the_little_endian_word() {
    let word: u32 = (100 << 10) | 300;
    let mut bytes = word.to_le_bytes().to_vec();
    bytes.extend_from_slice(&((1u32 << 30) | 10).to_le_bytes());
    let mut reader = BitReader::new(bytes);
    assert!(matches!(Pdo::from_bytes(&mut reader, REV), Ok(Pdo::Pd3p2FixedSupplyPdo(_))));
    assert!(matches!(Pdo::from_bytes(&mut reader, REV), Ok(Pdo::Pd3p2BatterySupplyPdo(_))));
    assert!(matches!(Pdo::from_bytes(&mut reader, REV), Err(Error::IoError { .. })));
}

#[test]
fn unsupported_revision_reads_nothing() {
    let word: u32 = (100 << 10) | 300;
    let mut reader = BitReader::new(word.to_le_bytes().to_vec());
    match Pdo::from_bytes(&mut reader, BcdWrapper(0x300)) {
        Err(Error::UnsupportedUsbRevision { revision }) => assert_eq!(revision, BcdWrapper(0x300)),
        other => panic!("unexpected {:?}", other),
    }
    // the whole word is still there
    assert!(matches!(Pdo::from_bytes(&mut reader, REV), Ok(Pdo::Pd3p2FixedSupplyPdo(_))));
    assert!(matches!(
        Pdo::from_word(1 << 30, BcdWrapper(0x200)),
        Err(Error::UnsupportedUsbRevision { .. })
    ));
}

fn no_vendor(_: u16) -> Option<String> {
    None
}

#[test]
fn id_header_decodes_and_looks_up_the_vendor() {
    // host and device capable, PDUSB peripheral, modal, PDUSB host, Type-C receptacle, VID 0x18d1
    let word: u32 = (1 << 31) | (1 << 30) | (2 << 27) | (1 << 26) | (2 << 23) | (2 << 21) | 0x18d1;
    let h = IdHeader::from_word(word, |vid| if vid == 0x18d1 { Some("Google Inc.".to_string()) } else { None })
        .unwrap();
    assert!(h.usb_communications_capable_as_usb_host);
    assert!(h.usb_communications_capable_as_usb_device);
    assert_eq!(h.product_type_ufp, ProductType::PdUsbPeripheral);
    assert!(h.modal_operation_supported);
    assert_eq!(h.product_type_dfp, DfpProductType::PdUsbHost);
    assert_eq!(h.connector_type, ConnectorType::UsbTypeCReceptacle);
    assert_eq!(h.usb_vendor_id, 0x18d1);
    let mut expected = [0u8; 32];
    expected[..11].copy_from_slice(b"Google Inc.");
    assert_eq!(h.vendor_name, expected);
}

#[test]
fn id_header_falls_back_to_unknown() {
    let h = IdHeader::from_word(0x1234, no_vendor).unwrap();
    let mut expected = [0u8; 32];
    expected[..7].copy_from_slice(b"Unknown");
    assert_eq!(h.vendor_name, expected);
}

#[test]
fn id_header_truncates_long_names() {
    let long = "A vendor name that is much longer than thirty-one bytes";
    let h = IdHeader::from_word(0x1234, |_| Some(long.to_string())).unwrap();
    assert_eq!(&h.vendor_name[..31], &long.as_bytes()[..31]);
    assert_eq!(h.vendor_name[31], 0);
}

#[test]
fn id_header_rejects_reserved_product_type() {
    let word: u32 = 5 << 27;
    match IdHeader::from_word(word, no_vendor) {
        Err(Error::ParseError { field, value }) => {
            assert_eq!(field, "product_type_ufp");
            assert_eq!(value, 5);
        }
        other => panic!("unexpected {:?}", other),
    }
}

#[test]
fn ufp_rejects_in_range_but_undefined_speed() {
    match Ufp::from_word(5) {
        Err(Error::ParseError { field, value }) => {
            assert_eq!(field, "usb_highest_speed");
            assert_eq!(value, 5);
        }
        other => panic!("unexpected {:?}", other),
    }
    let ufp = Ufp::from_word((3 << 29) | (0b0100 << 24) | (1 << 6) | 2).unwrap();
    assert_eq!(ufp.ufp_vdo_version, 3);
    assert_eq!(ufp.device_capability, 0b0100);
    assert!(ufp.vbus_required);
    assert!(!ufp.vconn_required);
    assert_eq!(ufp.usb_highest_speed, UsbHighestSpeed::Usb32Gen2);
}

#[test]
fn other_vdos_decode() {
    let product = Product::from_word((0x5044 << 16) | 0x0101);
    assert_eq!(product.usb_product_id, 0x5044);
    assert_eq!(product.bcd_device, 0x0101);
    let dfp = Dfp::from_word((2 << 29) | (0b010 << 24) | 3);
    assert_eq!((dfp.dfp_vdo_version, dfp.host_capability, dfp.port_number), (2, 2, 3));
    let vpd = Vpd::from_word((1 << 28) | (2 << 24) | (10 << 7) | (5 << 1) | 1).unwrap();
    assert_eq!(vpd.hw_version, 1);
    assert_eq!(vpd.firmware_version, 2);
    assert_eq!(vpd.maximum_vbus_voltage, VpdMaximumVbusVoltage::TwentyVolts);
    assert_eq!(vpd.vbus_impedance, MilliOhm(20));
    assert_eq!(vpd.ground_impedance, MilliOhm(5));
    assert!(vpd.charge_through_support);
}

#[test]
fn vdm_header_decodes() {
    // structured, version 2.1, position 1, ACK, Discover Identity
    let word: u32 = (1 << 15) | (1 << 13) | (1 << 11) | (1 << 8) | (1 << 6) | 1;
    let h = VdmHeader::from_word(word).unwrap();
    assert!(h.structured);
    assert_eq!((h.major, h.minor, h.object_position), (1, 1, 1));
    assert_eq!(h.command_type, CommandType::Ack);
    assert_eq!(h.command, Command::DiscoverIdentity);
    assert_eq!(VdmHeader::from_word(20).unwrap().command, Command::SVIDSpecific);
    match VdmHeader::from_word(7) {
        Err(Error::ParseError { field, value }) => {
            assert_eq!(field, "command");
            assert_eq!(value, 7);
        }
        other => panic!("unexpected {:?}", other),
    }
}

#[test]
fn discover_identity_decodes() {
    let words: [u32; 7] = [
        (1 << 15) | (1 << 6) | 1,
        (1 << 30) | (2 << 27) | 0x18d1,
        0xdead_beef,
        (0x5044 << 16) | 0x0100,
        0x1111_1111,
        0,
        0,
    ];
    let bytes: Vec<u8> = words.iter().flat_map(|w| w.to_le_bytes()).collect();
    let mut reader = BitReader::new(bytes);
    let r = DiscoverIdentityResponse::from_bytes(&mut reader, no_vendor).unwrap();
    assert_eq!(r.header.command_type, CommandType::Ack);
    assert_eq!(r.id_header_vdo.usb_vendor_id, 0x18d1);
    assert_eq!(r.cert_stat.xid, 0xdead_beef);
    assert_eq!(r.product_vdo.usb_product_id, 0x5044);
    assert_eq!(r.product_type_vdo, [0x1111_1111, 0, 0]);
}
