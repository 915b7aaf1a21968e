use libtypec_rs::bitstream::BitReader;
use libtypec_rs::bitstream::BitWriter;
use libtypec_rs::ucsi::CablePropertyPlugEndType;
use libtypec_rs::ucsi::CablePropertySpeedExponent;
use libtypec_rs::ucsi::CablePropertyType;
use libtypec_rs::ucsi::ConnectorCapabilityExtendedOperationMode;
use libtypec_rs::ucsi::ConnectorCapabilityMiscellaneousCapabilities;
use libtypec_rs::ucsi::ConnectorCapabilityOperationMode;
use libtypec_rs::ucsi::ConnectorPartnerType;
use libtypec_rs::ucsi::GetAlternateModesRecipient;
use libtypec_rs::ucsi::PdMessage;
use libtypec_rs::ucsi::PdMessageRecipient;
use libtypec_rs::ucsi::PdMessageResponseType;
use libtypec_rs::ucsi::PdoSourceCapabilitiesType;
use libtypec_rs::ucsi::PdoType;
use libtypec_rs::ucsi::PowerDirection;
use libtypec_rs::ucsi::PowerOperationMode;
use libtypec_rs::ucsi::UcsiAlternateMode;
use libtypec_rs::ucsi::UcsiCableProperty;
use libtypec_rs::ucsi::UcsiCapability;
use libtypec_rs::ucsi::UcsiCommand;
use libtypec_rs::ucsi::UcsiConnectorCapability;
use libtypec_rs::ucsi::UcsiConnectorStatus;
use libtypec_rs::BcdWrapper;
use libtypec_rs::Error;

fn encode(cmd: &UcsiCommand) -> Result<Vec<u8>, Error> {
    let mut w = BitWriter::new();
    cmd.to_bytes(&mut w)?;
    Ok(w.into_bytes())
}

#[test]
fn connector_number_is_one_based_on_the_wire() {
    let bytes = encode(&UcsiCommand::GetConnectorCapability { connector_nr: 0 }).unwrap();
    assert_eq!(bytes, vec![0x07, 0x00, 0x01]);
}

#[test]
fn get_capability_writes_opcode_and_length() {
    let bytes = encode(&UcsiCommand::GetCapability).unwrap();
    assert_eq!(bytes, vec![0x06, 0x00]);
}

#[test]
fn get_alternate_modes_layout() {
    let cmd = UcsiCommand::GetAlternateModes {
        recipient: GetAlternateModesRecipient::SopPrime,
        connector_nr: 2,
    };
    // recipient 2 in bits 0..3, reserved 3..8, connector 3 in bits 8..15, reserved bit 15
    assert_eq!(encode(&cmd).unwrap(), vec![0x0c, 0x00, 0x02, 0x03]);
}

#[test]
fn get_pdos_layout() {
    let cmd = UcsiCommand::GetPdos {
        connector_nr: 1,
        partner_pdo: true,
        pdo_offset: 3,
        nr_pdos: 2,
        pdo_type: PdoType::Source,
        source_capabilities_type: PdoSourceCapabilitiesType::MaximumSupportedSourceCapabilities,
    };
    // connector 2 (7 bits), partner 1, offset 3 (8 bits), count 2 (2 bits),
    // source 1 (1 bit), capabilities type 2 (2 bits), then padding.
    // bits: 0100000 1 | 11000000 | 01 1 01 000
    assert_eq!(encode(&cmd).unwrap(), vec![0x10, 0x00, 0x82, 0x03, 0x16]);
}

#[test]
fn get_pd_message_layout() {
    let cmd = UcsiCommand::GetPdMessage {
        connector_nr: 0,
        recipient: PdMessageRecipient::Sop,
        message_type: PdMessageResponseType::DiscoverIdentity,
    };
    // connector 1 (7 bits), recipient 1 (3 bits), 16 zero bits, type 4 (6 bits)
    assert_eq!(encode(&cmd).unwrap(), vec![0x15, 0x00, 0x81, 0x00, 0x00, 0x10]);
}

#[test]
fn simple_commands_carry_their_opcodes() {
    let cases = [
        (UcsiCommand::GetCamSupported { connector_nr: 4 }, 0x0d),
        (UcsiCommand::GetCurrentCam { connector_nr: 4 }, 0x0e),
        (UcsiCommand::GetCableProperty { connector_nr: 4 }, 0x11),
        (UcsiCommand::GetConnectorStatus { connector_nr: 4 }, 0x12),
    ];
    for (cmd, opcode) in cases {
        assert_eq!(cmd.cmd_number(), opcode);
        assert_eq!(encode(&cmd).unwrap(), vec![opcode as u8, 0x00, 0x05]);
    }
}

#[test]
fn opcodes_of_every_command() {
    assert_eq!(UcsiCommand::GetCapability.cmd_number(), 0x06);
    assert_eq!(UcsiCommand::GetConnectorCapability { connector_nr: 0 }.cmd_number(), 0x07);
    let alt = UcsiCommand::GetAlternateModes {
        recipient: GetAlternateModesRecipient::Connector,
        connector_nr: 0,
    };
    assert_eq!(alt.cmd_number(), 0x0c);
}

#[test]
fn connector_number_too_large_is_refused() {
    assert!(encode(&UcsiCommand::GetConnectorStatus { connector_nr: 126 }).is_ok());
    let err = encode(&UcsiCommand::GetConnectorStatus { connector_nr: 127 }).unwrap_err();
    assert!(matches!(err, Error::IoError { .. }));
    let err = encode(&UcsiCommand::GetCableProperty { connector_nr: usize::MAX }).unwrap_err();
    assert!(matches!(err, Error::IoError { .. }));
}

#[test]
fn pdo_offset_too_large_is_refused() {
    let cmd = UcsiCommand::GetPdos {
        connector_nr: 0,
        partner_pdo: false,
        pdo_offset: 256,
        nr_pdos: 0,
        pdo_type: PdoType::Sink,
        source_capabilities_type: PdoSourceCapabilitiesType::CurrentSupportedSourceCapabilities,
    };
    assert!(matches!(encode(&cmd), Err(Error::IoError { .. })));
}

fn capability_bytes() -> Vec<u8> {
    let mut b = vec![0u8; 16];
    // bmAttributes: disabled state, PD, Type-C current; AC supply and VBUS power sources.
    b[0] = 0b0100_0101;
    b[1] = 0b0100_0001;
    // reserved upper half of bmAttributes
    b[2] = 0xff;
    b[3] = 0xff;
    // num_connectors = 2 with the reserved top bit set
    b[4] = 0x82;
    // bmOptionalFeatures: SET_CCOM and chunking; reserved bits set
    b[5] = 0x01;
    b[6] = 0x40;
    b[7] = 0xfe;
    // num_alt_modes = 3, then a reserved byte
    b[8] = 3;
    b[9] = 0xff;
    // bcdBCVersion = 0x0000, bcdPDVersion = 0x0300, bcdUSBTypeCVersion = 0x0120
    b[12] = 0x00;
    b[13] = 0x03;
    b[14] = 0x20;
    b[15] = 0x01;
    b
}

#[test]
fn capability_end_to_end() {
    let mut reader = BitReader::new(capability_bytes());
    let cap = UcsiCapability::from_bytes(&mut reader).unwrap();
    assert_eq!(cap.num_connectors, 2);
    assert_eq!(cap.bc_version, BcdWrapper(0x0000));
    assert_eq!(cap.pd_version, BcdWrapper(0x0300));
    assert_eq!(cap.usb_type_c_version, BcdWrapper(0x0120));
    assert_eq!(cap.num_alt_modes, 3);
    assert!(cap.bm_attributes.disabled_state_support);
    assert!(!cap.bm_attributes.battery_charging);
    assert!(cap.bm_attributes.usb_power_delivery);
    assert!(cap.bm_attributes.usb_type_c_current);
    assert!(cap.bm_attributes.bm_power_source.ac_supply);
    assert!(!cap.bm_attributes.bm_power_source.other);
    assert!(cap.bm_attributes.bm_power_source.uses_vbus);
    assert!(cap.bm_optional_features.set_ccom_supported);
    assert!(cap.bm_optional_features.chunking_supported);
    assert!(!cap.bm_optional_features.get_pd_message_supported);
    assert_eq!(cap.usb_type_c_version.to_string(), "1.20");
}

#[test]
fn capability_truncated() {
    let mut bytes = capability_bytes();
    bytes.pop();
    let mut reader = BitReader::new(bytes);
    assert!(matches!(UcsiCapability::from_bytes(&mut reader), Err(Error::IoError { .. })));
}

#[test]
fn connector_capability_decodes() {
    // operation mode DRP, provider and consumer, extended EPR sink, misc security,
    // reverse current protection, partner revision 3
    let bits: u32 = 2 | (1 << 8) | (1 << 9) | (2 << 14) | (1 << 22) | (1 << 26) | (3 << 27);
    let mut reader = BitReader::new(bits.to_le_bytes().to_vec());
    let cc = UcsiConnectorCapability::from_bytes(&mut reader).unwrap();
    assert_eq!(cc.operation_mode, ConnectorCapabilityOperationMode::Drp);
    assert!(cc.provider && cc.consumer);
    assert!(!cc.swap_to_dfp);
    assert_eq!(cc.extended_operation_mode, ConnectorCapabilityExtendedOperationMode::EprSink);
    assert_eq!(cc.miscellaneous_capabilities, ConnectorCapabilityMiscellaneousCapabilities::Security);
    assert!(cc.reverse_current_protection_support);
    assert_eq!(cc.partner_pd_revision, 3);
}

#[test]
fn connector_capability_rejects_unknown_operation_mode() {
    let mut reader = BitReader::new(vec![8, 0, 0, 0]);
    match UcsiConnectorCapability::from_bytes(&mut reader) {
        Err(Error::ParseError { field, value }) => {
            assert_eq!(field, "operation_mode");
            assert_eq!(value, 8);
        }
        other => panic!("unexpected {:?}", other.map(|_| ())),
    }
}

#[test]
fn connector_capability_rejects_unknown_extended_mode() {
    let bits: u32 = 5 << 14;
    let mut reader = BitReader::new(bits.to_le_bytes().to_vec());
    match UcsiConnectorCapability::from_bytes(&mut reader) {
        Err(Error::ParseError { field, value }) => {
            assert_eq!(field, "extended_operation_mode");
            assert_eq!(value, 5);
        }
        other => panic!("unexpected {:?}", other.map(|_| ())),
    }
}

#[test]
fn connector_capability_rejects_in_range_but_undefined_misc_value() {
    // a 4-bit field with two defined members: value 2 fits the field but is undefined
    let bits: u32 = 2 << 22;
    let mut reader = BitReader::new(bits.to_le_bytes().to_vec());
    match UcsiConnectorCapability::from_bytes(&mut reader) {
        Err(Error::ParseError { field, value }) => {
            assert_eq!(field, "miscellaneous_capabilities");
            assert_eq!(value, 2);
        }
        other => panic!("unexpected {:?}", other.map(|_| ())),
    }
}

#[test]
fn cable_property_decodes() {
    // Gbps, mantissa 10, 60 x 50 mA, VBUS, active, configurable, Type-C plug,
    // mode support, revision 2, latency 5
    let bits: u64 = 3
        | (10 << 2)
        | (60 << 16)
        | (1 << 24)
        | (1 << 25)
        | (1 << 26)
        | (2 << 27)
        | (1 << 29)
        | (2 << 30)
        | (5 << 32);
    let bytes = bits.to_le_bytes()[..5].to_vec();
    let mut reader = BitReader::new(bytes);
    let cp = UcsiCableProperty::from_bytes(&mut reader).unwrap();
    assert_eq!(cp.speed_exponent, CablePropertySpeedExponent::Gbps);
    assert_eq!(cp.speed_mantissa, 10);
    assert_eq!(cp.b_current_capability, 60);
    assert_eq!(cp.vbus_in_cable, 1);
    assert_eq!(cp.cable_type, CablePropertyType::Active);
    assert_eq!(cp.directionality, 1);
    assert_eq!(cp.plug_end_type, CablePropertyPlugEndType::UsbTypeC);
    assert!(cp.mode_support);
    assert_eq!(cp.cable_pd_revision, 2);
    assert_eq!(cp.latency, 5);
}

#[test]
fn alternate_mode_decodes() {
    let mut bytes = Vec::new();
    bytes.extend_from_slice(&0x8087u16.to_le_bytes());
    bytes.extend_from_slice(&0x0000_0001u32.to_le_bytes());
    bytes.extend_from_slice(&0xff01u16.to_le_bytes());
    bytes.extend_from_slice(&0x001c_1c46u32.to_le_bytes());
    let mut reader = BitReader::new(bytes);
    let am = UcsiAlternateMode::from_bytes(&mut reader).unwrap();
    assert_eq!(am.svid, [0x8087, 0xff01]);
    assert_eq!(am.vdo, [0x1, 0x001c_1c46]);
}

#[test]
fn connector_status_decodes() {
    let mut bits: u128 = 0;
    bits |= 1 << 1; // external supply change
    bits |= 3 << 16; // power operation mode: PD
    bits |= 1 << 19; // connected
    bits |= 1 << 20; // provider
    bits |= 2 << 29; // UFP attached
    bits |= 0x1234_5678 << 32; // request data object
    bits |= 0x0300 << 70; // PD version
    bits |= 1 << 86; // reverse orientation
    let mut bytes = bits.to_le_bytes().to_vec();
    bytes.push(0x00);
    bytes.push(0x00);
    bytes.push(0x00);
    let mut reader = BitReader::new(bytes);
    let st = UcsiConnectorStatus::from_bytes(&mut reader).unwrap();
    assert!(st.connector_status_change.external_supply_change);
    assert!(!st.connector_status_change.attention);
    assert_eq!(st.power_operation_mode, PowerOperationMode::PowerDelivery);
    assert!(st.connect_status);
    assert_eq!(st.power_direction, PowerDirection::Provider);
    assert_eq!(st.connector_partner_type, ConnectorPartnerType::UfpAttached);
    assert_eq!(st.negotiated_power_level, 0x1234_5678);
    assert_eq!(st.pd_version_operation_mode, 0x0300);
}

#[test]
fn reserved_pd_message_type_is_not_supported() {
    let mut reader = BitReader::new(vec![0; 32]);
    let r = PdMessage::from_bytes(&mut reader, PdMessageResponseType::Reserved, |_| None);
    assert!(matches!(r, Err(Error::NotSupported)));
}

#[test]
fn revision_message_decodes() {
    let word: u32 = (3 << 28) | (2 << 24) | (1 << 20) | (1 << 16);
    let mut reader = BitReader::new(word.to_le_bytes().to_vec());
    match PdMessage::from_bytes(&mut reader, PdMessageResponseType::Revision, |_| None) {
        Ok(PdMessage::Pd3p2Revision(r)) => {
            assert_eq!((r.revision_major, r.revision_minor), (3, 2));
            assert_eq!((r.version_major, r.version_minor), (1, 1));
        }
        other => panic!("unexpected {:?}", other.map(|_| ())),
    }
}
