//! Vendor Data Objects of USB Power Delivery 3.2.

use vstd::array::array_fill_for_copy_types;
use vstd::prelude::*;
use vstd::string::StringSliceAdditionalSpecFns;
use vstd::utf8::encode_utf8;

use crate::bitstream::get_field;
use crate::bitstream::word_field;
use crate::outcome_is;
use crate::reports;
use crate::Error;
use crate::Fault;
use crate::MilliOhm;
use crate::Result;

verus! {

/// The product type of a UFP in an ID Header VDO.
#[derive(Debug, Clone, Copy, PartialEq, Eq, Structural, Default)]
pub enum ProductType {
    /// Not a UFP.
    #[default]
    NotUfp,
    /// A PDUSB Hub.
    PdUsbHub,
    /// A PDUSB Peripheral.
    PdUsbPeripheral,
    /// A Power Sink Device.
    Psd,
}

impl ProductType {
    /// The member whose wire code is `v`, for `v` below the number of members.
    pub open spec fn from_code(v: nat) -> Self {
        if v == 0 {
            Self::NotUfp
        } else if v == 1 {
            Self::PdUsbHub
        } else if v == 2 {
            Self::PdUsbPeripheral
        } else {
            Self::Psd
        }
    }

    /// The member with wire code `value`, if there is one.
    pub fn n(value: u32) -> (r: Option<Self>)
        ensures
            r == (if value < 4 { Some(Self::from_code(value as nat)) } else { None::<Self> }),
    {
        match value {
            0 => Some(Self::NotUfp),
            1 => Some(Self::PdUsbHub),
            2 => Some(Self::PdUsbPeripheral),
            3 => Some(Self::Psd),
            _ => None,
        }
    }
}

/// The product type of a DFP in an ID Header VDO.
#[derive(Debug, Clone, Copy, PartialEq, Eq, Structural, Default)]
pub enum DfpProductType {
    /// Not a DFP.
    #[default]
    NotDfp,
    /// A PDUSB Hub.
    PdUsbHub,
    /// A PDUSB Host.
    PdUsbHost,
    /// A Power Brick.
    PowerBrick,
}

impl DfpProductType {
    /// The member whose wire code is `v`, for `v` below the number of members.
    pub open spec fn from_code(v: nat) -> Self {
        if v == 0 {
            Self::NotDfp
        } else if v == 1 {
            Self::PdUsbHub
        } else if v == 2 {
            Self::PdUsbHost
        } else {
            Self::PowerBrick
        }
    }

    /// The member with wire code `value`, if there is one.
    pub fn n(value: u32) -> (r: Option<Self>)
        ensures
            r == (if value < 4 { Some(Self::from_code(value as nat)) } else { None::<Self> }),
    {
        match value {
            0 => Some(Self::NotDfp),
            1 => Some(Self::PdUsbHub),
            2 => Some(Self::PdUsbHost),
            3 => Some(Self::PowerBrick),
            _ => None,
        }
    }
}

/// The connector type in an ID Header VDO; codes 0 and 1 are reserved members.
#[derive(Debug, Clone, Copy, PartialEq, Eq, Structural, Default)]
pub enum ConnectorType {
    #[default]
    Reserved,
    Reserved2,
    UsbTypeCReceptacle,
    UsbTypeCPlug,
}

impl ConnectorType {
    /// The member whose wire code is `v`, for `v` below the number of members.
    pub open spec fn from_code(v: nat) -> Self {
        if v == 0 {
            Self::Reserved
        } else if v == 1 {
            Self::Reserved2
        } else if v == 2 {
            Self::UsbTypeCReceptacle
        } else {
            Self::UsbTypeCPlug
        }
    }

    /// The member with wire code `value`, if there is one.
    pub fn n(value: u32) -> (r: Option<Self>)
        ensures
            r == (if value < 4 { Some(Self::from_code(value as nat)) } else { None::<Self> }),
    {
        match value {
            0 => Some(Self::Reserved),
            1 => Some(Self::Reserved2),
            2 => Some(Self::UsbTypeCReceptacle),
            3 => Some(Self::UsbTypeCPlug),
            _ => None,
        }
    }
}

/// The highest USB signalling speed of a UFP.
#[derive(Debug, Clone, Copy, PartialEq, Eq, Structural, Default)]
pub enum UsbHighestSpeed {
    #[default]
    Usb2Only,
    Usb32Gen1,
    Usb32Gen2,
    Usb4Gen3,
    Usb4Gen4,
}

impl UsbHighestSpeed {
    /// The member whose wire code is `v`, for `v` below the number of members.
    pub open spec fn from_code(v: nat) -> Self {
        if v == 0 {
            Self::Usb2Only
        } else if v == 1 {
            Self::Usb32Gen1
        } else if v == 2 {
            Self::Usb32Gen2
        } else if v == 3 {
            Self::Usb4Gen3
        } else {
            Self::Usb4Gen4
        }
    }

    /// The member with wire code `value`, if there is one.
    pub fn n(value: u32) -> (r: Option<Self>)
        ensures
            r == (if value < 5 { Some(Self::from_code(value as nat)) } else { None::<Self> }),
    {
        match value {
            0 => Some(Self::Usb2Only),
            1 => Some(Self::Usb32Gen1),
            2 => Some(Self::Usb32Gen2),
            3 => Some(Self::Usb4Gen3),
            4 => Some(Self::Usb4Gen4),
            _ => None,
        }
    }
}

/// The highest VBUS voltage that a VPD carries.
#[derive(Debug, Clone, Copy, PartialEq, Eq, Structural, Default)]
pub enum VpdMaximumVbusVoltage {
    #[default]
    TwentyVolts,
    ThirtyVolts,
    FortyVolts,
    FiftyVolts,
}

impl VpdMaximumVbusVoltage {
    /// The member whose wire code is `v`, for `v` below the number of members.
    pub open spec fn from_code(v: nat) -> Self {
        if v == 0 {
            Self::TwentyVolts
        } else if v == 1 {
            Self::ThirtyVolts
        } else if v == 2 {
            Self::FortyVolts
        } else {
            Self::FiftyVolts
        }
    }

    /// The member with wire code `value`, if there is one.
    pub fn n(value: u32) -> (r: Option<Self>)
        ensures
            r == (if value < 4 { Some(Self::from_code(value as nat)) } else { None::<Self> }),
    {
        match value {
            0 => Some(Self::TwentyVolts),
            1 => Some(Self::ThirtyVolts),
            2 => Some(Self::FortyVolts),
            3 => Some(Self::FiftyVolts),
            _ => None,
        }
    }
}


/// The vendor name stored when the vendor database has no entry.
pub open spec fn fallback_vendor_name() -> Seq<char> {
    "Unknown"@
}

/// The 32-byte, NUL-terminated form of the name whose bytes are `b`: at most
/// 31 bytes of the name are kept, and the rest of the buffer is zero.
pub open spec fn name_field(b: Seq<u8>) -> Seq<u8> {
    Seq::new(32, |i: int| if i < b.len() && i < 31 { b[i] } else { 0u8 })
}

/// The name that a vendor lookup result stands for.
pub open spec fn vendor_name_of(found: Option<String>) -> Seq<char> {
    match found {
        Some(s) => s@,
        None => fallback_vendor_name(),
    }
}

/// Copies the bytes of `name` into a 32-byte NUL-terminated buffer, cutting
/// the name to 31 bytes where it is longer.
pub fn vendor_name_buffer(name: &str) -> (r: [u8; 32])
    ensures
        r@ == name_field(name.spec_bytes()),
{
    let bytes = name.as_bytes();
    let mut buf: [u8; 32] = array_fill_for_copy_types(0u8);
    let n: usize = if bytes.len() < 31 { bytes.len() } else { 31 };
    let mut i: usize = 0;
    while i < n
        invariant
            n <= bytes@.len(),
            n <= 31,
            i <= n,
            bytes@ == name.spec_bytes(),
            buf@.len() == 32,
            forall|j: int| 0 <= j < i ==> buf@[j] == bytes@[j],
            forall|j: int| i <= j < 32 ==> buf@[j] == 0u8,
        decreases n - i,
    {
        buf[i] = bytes[i];
        i = i + 1;
    }
    assert(buf@ =~= name_field(name.spec_bytes()));
    buf
}

/// An ID Header VDO.
#[derive(Debug, Clone, Copy, PartialEq, Eq)]
pub struct IdHeader {
    /// The product can communicate over USB as a host.
    pub usb_communications_capable_as_usb_host: bool,
    /// The product can communicate over USB as a device.
    pub usb_communications_capable_as_usb_device: bool,
    /// The product type as a UFP.
    pub product_type_ufp: ProductType,
    /// The product supports Modal Operation.
    pub modal_operation_supported: bool,
    /// The product type as a DFP.
    pub product_type_dfp: DfpProductType,
    /// The connector type.
    pub connector_type: ConnectorType,
    /// The USB-IF vendor ID.
    pub usb_vendor_id: u16,
    /// The vendor name, NUL-terminated.
    pub vendor_name: [u8; 32],
}

impl IdHeader {
    /// The first field of `w` that holds a value outside its closed set, if any.
    pub open spec fn spec_fault(w: u32) -> Option<Fault> {
        if word_field(w, 27, 7) >= 4 {
            Some(Fault::Invalid { field: "product_type_ufp"@, value: word_field(w, 27, 7) })
        } else if word_field(w, 23, 7) >= 4 {
            Some(Fault::Invalid { field: "product_type_dfp"@, value: word_field(w, 23, 7) })
        } else if word_field(w, 21, 3) >= 4 {
            Some(Fault::Invalid { field: "connector_type"@, value: word_field(w, 21, 3) })
        } else {
            None
        }
    }

    /// `self` holds the fields of `w` and the vendor name `name`.
    pub open spec fn decoded_from(self, w: u32, name: Seq<char>) -> bool {
        &&& self.usb_communications_capable_as_usb_host == (word_field(w, 31, 1) == 1)
        &&& self.usb_communications_capable_as_usb_device == (word_field(w, 30, 1) == 1)
        &&& self.product_type_ufp == ProductType::from_code(word_field(w, 27, 7) as nat)
        &&& self.modal_operation_supported == (word_field(w, 26, 1) == 1)
        &&& self.product_type_dfp == DfpProductType::from_code(word_field(w, 23, 7) as nat)
        &&& self.connector_type == ConnectorType::from_code(word_field(w, 21, 3) as nat)
        &&& self.usb_vendor_id as u32 == word_field(w, 0, 0xffff)
        &&& self.vendor_name@ == name_field(encode_utf8(name))
    }

    /// Decodes an ID Header VDO. The vendor name comes from `lookup`, which is
    /// asked once with the vendor ID; where it has no entry, the name is
    /// "Unknown".
    pub fn from_word<F: Fn(u16) -> Option<String>>(w: u32, lookup: F) -> (r: Result<Self>)
        requires
            forall|v: u16| lookup.requires((v,)),
        ensures
            Self::spec_fault(w) is Some ==> r is Err && reports(r->Err_0, Self::spec_fault(w)->0),
            Self::spec_fault(w) is None ==> r is Ok && exists|found: Option<String>|
                lookup.ensures((word_field(w, 0, 0xffff) as u16,), found) && r->Ok_0.decoded_from(
                    w,
                    vendor_name_of(found),
                ),
    {
        let ufp = get_field(w, 27, 7);
        let product_type_ufp = match ProductType::n(ufp) {
            Some(v) => v,
            None => {
                return Err(Error::ParseError { field: "product_type_ufp".to_string(), value: ufp });
            },
        };
        let dfp = get_field(w, 23, 7);
        let product_type_dfp = match DfpProductType::n(dfp) {
            Some(v) => v,
            None => {
                return Err(Error::ParseError { field: "product_type_dfp".to_string(), value: dfp });
            },
        };
        let connector = get_field(w, 21, 3);
        let connector_type = match ConnectorType::n(connector) {
            Some(v) => v,
            None => {
                return Err(
                    Error::ParseError { field: "connector_type".to_string(), value: connector },
                );
            },
        };
        let usb_vendor_id = get_field(w, 0, 0xffff) as u16;
        let found = lookup(usb_vendor_id);
        let vendor_name = match &found {
            Some(name) => vendor_name_buffer(name.as_str()),
            None => vendor_name_buffer("Unknown"),
        };
        let r = IdHeader {
            usb_communications_capable_as_usb_host: get_field(w, 31, 1) == 1,
            usb_communications_capable_as_usb_device: get_field(w, 30, 1) == 1,
            product_type_ufp,
            modal_operation_supported: get_field(w, 26, 1) == 1,
            product_type_dfp,
            connector_type,
            usb_vendor_id,
            vendor_name,
        };
        assert(r.decoded_from(w, vendor_name_of(found)));
        Ok(r)
    }
}

/// A Cert Stat VDO.
#[derive(Debug, Clone, Copy, PartialEq, Eq, Structural, Default)]
pub struct CertStat {
    /// The XID that the USB-IF assigned.
    pub xid: u32,
}

impl CertStat {
    /// Decodes a Cert Stat VDO.
    pub fn from_word(w: u32) -> (r: Self)
        ensures
            r.xid == w,
    {
        CertStat { xid: w }
    }
}

/// A Product VDO.
#[derive(Debug, Clone, Copy, PartialEq, Eq, Structural, Default)]
pub struct Product {
    /// The USB product ID.
    pub usb_product_id: u16,
    /// The device release number, in BCD.
    pub bcd_device: u16,
}

impl Product {
    /// The value held in `w`.
    pub open spec fn spec_from_word(w: u32) -> Self {
        Product {
            usb_product_id: word_field(w, 16, 0xffff) as u16,
            bcd_device: word_field(w, 0, 0xffff) as u16,
        }
    }

    /// Decodes a Product VDO.
    pub fn from_word(w: u32) -> (r: Self)
        ensures
            r == Self::spec_from_word(w),
    {
        Product {
            usb_product_id: get_field(w, 16, 0xffff) as u16,
            bcd_device: get_field(w, 0, 0xffff) as u16,
        }
    }
}

/// A UFP VDO.
#[derive(Debug, Clone, Copy, PartialEq, Eq, Structural)]
pub struct Ufp {
    /// The version of the VDO layout.
    pub ufp_vdo_version: u8,
    /// The device capabilities, one bit each (USB 2.0, billboard only, USB 3.2, USB4).
    pub device_capability: u8,
    /// The legacy connector type.
    pub connector_type: u8,
    /// The VCONN power the product needs, as a code.
    pub vconn_power: u8,
    /// The product needs VCONN.
    pub vconn_required: bool,
    /// The product needs VBUS.
    pub vbus_required: bool,
    /// The Alternate Modes supported, one bit each.
    pub alternate_modes: u8,
    /// The highest USB signalling speed.
    pub usb_highest_speed: UsbHighestSpeed,
}

impl Ufp {
    /// The outcome of decoding `w`.
    pub open spec fn spec_from_word(w: u32) -> core::result::Result<Self, Fault> {
        if word_field(w, 0, 7) >= 5 {
            Err(Fault::Invalid { field: "usb_highest_speed"@, value: word_field(w, 0, 7) })
        } else {
            Ok(
                Ufp {
                    ufp_vdo_version: word_field(w, 29, 7) as u8,
                    device_capability: word_field(w, 24, 0xf) as u8,
                    connector_type: word_field(w, 22, 3) as u8,
                    vconn_power: word_field(w, 8, 7) as u8,
                    vconn_required: word_field(w, 7, 1) == 1,
                    vbus_required: word_field(w, 6, 1) == 1,
                    alternate_modes: word_field(w, 3, 7) as u8,
                    usb_highest_speed: UsbHighestSpeed::from_code(word_field(w, 0, 7) as nat),
                },
            )
        }
    }

    /// Decodes a UFP VDO.
    pub fn from_word(w: u32) -> (r: Result<Self>)
        ensures
            outcome_is(r, Self::spec_from_word(w)),
    {
        let speed = get_field(w, 0, 7);
        let usb_highest_speed = match UsbHighestSpeed::n(speed) {
            Some(v) => v,
            None => {
                return Err(Error::ParseError { field: "usb_highest_speed".to_string(), value: speed });
            },
        };
        Ok(
            Ufp {
                ufp_vdo_version: get_field(w, 29, 7) as u8,
                device_capability: get_field(w, 24, 0xf) as u8,
                connector_type: get_field(w, 22, 3) as u8,
                vconn_power: get_field(w, 8, 7) as u8,
                vconn_required: get_field(w, 7, 1) == 1,
                vbus_required: get_field(w, 6, 1) == 1,
                alternate_modes: get_field(w, 3, 7) as u8,
                usb_highest_speed,
            },
        )
    }
}

/// A DFP VDO.
#[derive(Debug, Clone, Copy, PartialEq, Eq, Structural, Default)]
pub struct Dfp {
    /// The version of the VDO layout.
    pub dfp_vdo_version: u8,
    /// The host capabilities, one bit each (USB 2.0, USB 3.2, USB4).
    pub host_capability: u8,
    /// The legacy connector type.
    pub connector_type: u8,
    /// The port number.
    pub port_number: u8,
}

impl Dfp {
    /// The value held in `w`.
    pub open spec fn spec_from_word(w: u32) -> Self {
        Dfp {
            dfp_vdo_version: word_field(w, 29, 7) as u8,
            host_capability: word_field(w, 24, 7) as u8,
            connector_type: word_field(w, 22, 3) as u8,
            port_number: word_field(w, 0, 0x1f) as u8,
        }
    }

    /// Decodes a DFP VDO.
    pub fn from_word(w: u32) -> (r: Self)
        ensures
            r == Self::spec_from_word(w),
    {
        Dfp {
            dfp_vdo_version: get_field(w, 29, 7) as u8,
            host_capability: get_field(w, 24, 7) as u8,
            connector_type: get_field(w, 22, 3) as u8,
            port_number: get_field(w, 0, 0x1f) as u8,
        }
    }
}

/// A VCONN-Powered Device (VPD) VDO.
#[derive(Debug, Clone, Copy, PartialEq, Eq, Structural)]
pub struct Vpd {
    /// The hardware version.
    pub hw_version: u8,
    /// The firmware version.
    pub firmware_version: u8,
    /// The version of the VDO layout.
    pub vdo_version: u8,
    /// The highest VBUS voltage carried.
    pub maximum_vbus_voltage: VpdMaximumVbusVoltage,
    /// The charge-through current is 5 A rather than 3 A.
    pub charge_through_current_support: bool,
    /// The VBUS impedance, from a field in 2 mOhm units.
    pub vbus_impedance: MilliOhm,
    /// The ground impedance, from a field in 1 mOhm units.
    pub ground_impedance: MilliOhm,
    /// The device supports charge through.
    pub charge_through_support: bool,
}

impl Vpd {
    /// The outcome of decoding `w`.
    pub open spec fn spec_from_word(w: u32) -> core::result::Result<Self, Fault> {
        if word_field(w, 15, 3) >= 4 {
            Err(Fault::Invalid { field: "maximum_vbus_voltage"@, value: word_field(w, 15, 3) })
        } else {
            Ok(
                Vpd {
                    hw_version: word_field(w, 28, 0xf) as u8,
                    firmware_version: word_field(w, 24, 0xf) as u8,
                    vdo_version: word_field(w, 21, 7) as u8,
                    maximum_vbus_voltage: VpdMaximumVbusVoltage::from_code(
                        word_field(w, 15, 3) as nat,
                    ),
                    charge_through_current_support: word_field(w, 14, 1) == 1,
                    vbus_impedance: MilliOhm((word_field(w, 7, 0x3f) * 2) as u32),
                    ground_impedance: MilliOhm(word_field(w, 1, 0x3f)),
                    charge_through_support: word_field(w, 0, 1) == 1,
                },
            )
        }
    }

    /// Decodes a VPD VDO.
    pub fn from_word(w: u32) -> (r: Result<Self>)
        ensures
            outcome_is(r, Self::spec_from_word(w)),
    {
        let voltage = get_field(w, 15, 3);
        let maximum_vbus_voltage = match VpdMaximumVbusVoltage::n(voltage) {
            Some(v) => v,
            None => {
                return Err(
                    Error::ParseError { field: "maximum_vbus_voltage".to_string(), value: voltage },
                );
            },
        };
        Ok(
            Vpd {
                hw_version: get_field(w, 28, 0xf) as u8,
                firmware_version: get_field(w, 24, 0xf) as u8,
                vdo_version: get_field(w, 21, 7) as u8,
                maximum_vbus_voltage,
                charge_through_current_support: get_field(w, 14, 1) == 1,
                vbus_impedance: MilliOhm(get_field(w, 7, 0x3f) * 2),
                ground_impedance: MilliOhm(get_field(w, 1, 0x3f)),
                charge_through_support: get_field(w, 0, 1) == 1,
            },
        )
    }
}

/// The kinds of VDO that the library decodes.
#[derive(Debug, Clone, Copy, PartialEq, Eq)]
pub enum Vdo {
    Pd3p2IdHeader(IdHeader),
    Pd3p2CertStat(CertStat),
    Pd3p2ProductType(ProductType),
    Pd3p2Vpd(Vpd),
    Pd3p2Ufp(Ufp),
    Pd3p2Dfp(Dfp),
}

} // verus!
