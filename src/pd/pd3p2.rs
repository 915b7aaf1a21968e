//! Structures of the USB Power Delivery specification, revision 3.2.

use vstd::prelude::*;

use crate::bitstream::bit_of;
use crate::bitstream::field;
use crate::bitstream::pass_bits;
use crate::bitstream::take_bit;
use crate::bitstream::take_bits;
use crate::bitstream::unread_bits;
use crate::bitstream::BitReader;
use crate::bitstream::get_field;
use crate::bitstream::word_field;
use crate::outcome_is;
use crate::pd::VdmHeader;
use crate::reports;
use crate::vdo::vendor_name_of;
use crate::vdo::CertStat;
use crate::vdo::IdHeader;
use crate::vdo::Product;
use crate::Error;
use crate::Fault;
use crate::FromBytes;
use crate::Milliamp;
use crate::Millivolt;
use crate::Milliwatt;
use crate::Result;

verus! {

/// The USB Type-C current that a Sink needs after a Fast Role Swap.
#[derive(Debug, Clone, Copy, PartialEq, Eq, Structural, Default)]
pub enum FastRoleSwap {
    /// Fast Role Swap is not supported.
    #[default]
    NotSupported,
    /// Default USB power.
    DefaultUsbPower,
    /// 1.5 A at 5 V.
    OnePointFiveAAtFiveV,
    /// 3.0 A at 5 V.
    ThreeAAtFiveV,
}

impl FastRoleSwap {
    /// The member whose wire code is `v`, for `v` below the number of members.
    pub open spec fn from_code(v: nat) -> Self {
        if v == 0 {
            Self::NotSupported
        } else if v == 1 {
            Self::DefaultUsbPower
        } else if v == 2 {
            Self::OnePointFiveAAtFiveV
        } else {
            Self::ThreeAAtFiveV
        }
    }

    /// The wire code of the member.
    pub open spec fn spec_code(self) -> nat {
        match self {
            Self::NotSupported => 0,
            Self::DefaultUsbPower => 1,
            Self::OnePointFiveAAtFiveV => 2,
            Self::ThreeAAtFiveV => 3,
        }
    }

    /// The wire code of the member.
    pub fn code(&self) -> (r: u32)
        ensures
            r as nat == self.spec_code(),
    {
        match self {
            Self::NotSupported => 0,
            Self::DefaultUsbPower => 1,
            Self::OnePointFiveAAtFiveV => 2,
            Self::ThreeAAtFiveV => 3,
        }
    }

    /// The member with wire code `value`, if there is one.
    pub fn n(value: u32) -> (r: Option<Self>)
        ensures
            r == (if value < 4 { Some(Self::from_code(value as nat)) } else { None::<Self> }),
    {
        match value {
            0 => Some(Self::NotSupported),
            1 => Some(Self::DefaultUsbPower),
            2 => Some(Self::OnePointFiveAAtFiveV),
            3 => Some(Self::ThreeAAtFiveV),
            _ => None,
        }
    }
}


/// A Fixed Supply PDO.
#[derive(Debug, Clone, Copy, PartialEq, Eq, Structural, Default)]
pub struct FixedSupplyPdo {
    /// The port can be a Source and a Sink.
    pub dual_role_power: bool,
    /// The Sink needs more than vSafe5V to work fully.
    pub higher_capability: bool,
    /// An external source of power is present.
    pub unconstrained_power: bool,
    /// The port can communicate over USB.
    pub usb_communications_capable: bool,
    /// The port can be a DFP and a UFP.
    pub dual_role_data: bool,
    /// The current needed after a Fast Role Swap.
    pub fast_role_swap: FastRoleSwap,
    /// The voltage, from a field in 50 mV units.
    pub voltage: Millivolt,
    /// The operational current, from a field in 10 mA units.
    pub operational_current: Milliamp,
}

impl FixedSupplyPdo {
    /// The outcome of decoding the low 30 bits of `w`.
    pub open spec fn spec_from_word(w: u32) -> core::result::Result<Self, Fault> {
        if word_field(w, 23, 3) >= 4 {
            Err(Fault::Invalid { field: "fast_role_swap"@, value: word_field(w, 23, 3) })
        } else {
            Ok(
                FixedSupplyPdo {
                    dual_role_power: word_field(w, 29, 1) == 1,
                    higher_capability: word_field(w, 28, 1) == 1,
                    unconstrained_power: word_field(w, 27, 1) == 1,
                    usb_communications_capable: word_field(w, 26, 1) == 1,
                    dual_role_data: word_field(w, 25, 1) == 1,
                    fast_role_swap: FastRoleSwap::from_code(word_field(w, 23, 3) as nat),
                    voltage: Millivolt((word_field(w, 10, 0x3ff) * 50) as u32),
                    operational_current: Milliamp((word_field(w, 0, 0x3ff) * 10) as u32),
                },
            )
        }
    }

    /// Decodes the low 30 bits of a Fixed Supply PDO word.
    pub fn from_word(w: u32) -> (r: Result<Self>)
        ensures
            outcome_is(r, Self::spec_from_word(w)),
    {
        let frs = get_field(w, 23, 3);
        let fast_role_swap = match FastRoleSwap::n(frs) {
            Some(v) => v,
            None => {
                return Err(Error::ParseError { field: "fast_role_swap".to_string(), value: frs });
            },
        };
        let voltage = get_field(w, 10, 0x3ff);
        let current = get_field(w, 0, 0x3ff);
        Ok(
            FixedSupplyPdo {
                dual_role_power: get_field(w, 29, 1) == 1,
                higher_capability: get_field(w, 28, 1) == 1,
                unconstrained_power: get_field(w, 27, 1) == 1,
                usb_communications_capable: get_field(w, 26, 1) == 1,
                dual_role_data: get_field(w, 25, 1) == 1,
                fast_role_swap,
                voltage: Millivolt(voltage * 50),
                operational_current: Milliamp(current * 10),
            },
        )
    }

    /// Every quantity is a whole number of its wire unit and fits its field.
    pub open spec fn wf(self) -> bool {
        &&& self.voltage.0 % 50 == 0
        &&& self.voltage.0 / 50 < 1024
        &&& self.operational_current.0 % 10 == 0
        &&& self.operational_current.0 / 10 < 1024
    }

    /// The word of the PDO, with the Fixed Supply discriminant and zero reserved bits.
    pub open spec fn spec_to_word(self) -> u32 {
        (bit_of(self.dual_role_power) << 29u32) | (bit_of(self.higher_capability) << 28u32) | (
        bit_of(self.unconstrained_power) << 27u32) | (bit_of(self.usb_communications_capable)
            << 26u32) | (bit_of(self.dual_role_data) << 25u32) | ((
        self.fast_role_swap.spec_code() as u32) << 23u32) | ((((self.voltage.0 / 50) as u32)
            & 0x3ff) << 10u32) | (((self.operational_current.0 / 10) as u32) & 0x3ff)
    }

    /// Encodes the PDO into its word.
    pub fn to_word(&self) -> (r: u32)
        ensures
            r == self.spec_to_word(),
    {
        let drp: u32 = if self.dual_role_power { 1 } else { 0 };
        let hc: u32 = if self.higher_capability { 1 } else { 0 };
        let up: u32 = if self.unconstrained_power { 1 } else { 0 };
        let ucc: u32 = if self.usb_communications_capable { 1 } else { 0 };
        let drd: u32 = if self.dual_role_data { 1 } else { 0 };
        (drp << 29) | (hc << 28) | (up << 27) | (ucc << 26) | (drd << 25) | (
        self.fast_role_swap.code() << 23) | (((self.voltage.0 / 50) & 0x3ff) << 10) | ((
        self.operational_current.0 / 10) & 0x3ff)
    }
}


/// A Battery Supply PDO.
#[derive(Debug, Clone, Copy, PartialEq, Eq, Structural, Default)]
pub struct BatterySupplyPdo {
    /// The highest voltage, from a field in 50 mV units.
    pub max_voltage: Millivolt,
    /// The lowest voltage, from a field in 50 mV units.
    pub min_voltage: Millivolt,
    /// The operational (or highest) power, from a field in 250 mW units.
    pub operational_power: Milliwatt,
}

impl BatterySupplyPdo {
    /// The value held in the low 30 bits of `w`.
    pub open spec fn spec_from_word(w: u32) -> Self {
        BatterySupplyPdo {
            max_voltage: Millivolt((word_field(w, 20, 0x3ff) * 50) as u32),
            min_voltage: Millivolt((word_field(w, 10, 0x3ff) * 50) as u32),
            operational_power: Milliwatt((word_field(w, 0, 0x3ff) * 250) as u32),
        }
    }

    /// Decodes the low 30 bits of a Battery Supply PDO word.
    pub fn from_word(w: u32) -> (r: Self)
        ensures
            r == Self::spec_from_word(w),
    {
        let max_voltage = get_field(w, 20, 0x3ff);
        let min_voltage = get_field(w, 10, 0x3ff);
        let power = get_field(w, 0, 0x3ff);
        BatterySupplyPdo {
            max_voltage: Millivolt(max_voltage * 50),
            min_voltage: Millivolt(min_voltage * 50),
            operational_power: Milliwatt(power * 250),
        }
    }

    /// Every quantity is a whole number of its wire unit and fits its field.
    pub open spec fn wf(self) -> bool {
        &&& self.max_voltage.0 % 50 == 0
        &&& self.max_voltage.0 / 50 < 1024
        &&& self.min_voltage.0 % 50 == 0
        &&& self.min_voltage.0 / 50 < 1024
        &&& self.operational_power.0 % 250 == 0
        &&& self.operational_power.0 / 250 < 1024
    }

    /// The word of the PDO, with the Battery Supply discriminant.
    pub open spec fn spec_to_word(self) -> u32 {
        (1u32 << 30u32) | ((((self.max_voltage.0 / 50) as u32) & 0x3ff) << 20u32) | ((((
        self.min_voltage.0 / 50) as u32) & 0x3ff) << 10u32) | (((self.operational_power.0
            / 250) as u32) & 0x3ff)
    }

    /// Encodes the PDO into its word.
    pub fn to_word(&self) -> (r: u32)
        ensures
            r == self.spec_to_word(),
    {
        (1u32 << 30) | (((self.max_voltage.0 / 50) & 0x3ff) << 20) | (((self.min_voltage.0 / 50)
            & 0x3ff) << 10) | ((self.operational_power.0 / 250) & 0x3ff)
    }
}

/// A Variable Supply (non-Battery) PDO.
#[derive(Debug, Clone, Copy, PartialEq, Eq, Structural, Default)]
pub struct VariableSupplyPdo {
    /// The highest voltage, from a field in 50 mV units.
    pub max_voltage: Millivolt,
    /// The lowest voltage, from a field in 50 mV units.
    pub min_voltage: Millivolt,
    /// The highest (or operational) current, from a field in 10 mA units.
    pub max_current: Milliamp,
}

impl VariableSupplyPdo {
    /// The value held in the low 30 bits of `w`.
    pub open spec fn spec_from_word(w: u32) -> Self {
        VariableSupplyPdo {
            max_voltage: Millivolt((word_field(w, 20, 0x3ff) * 50) as u32),
            min_voltage: Millivolt((word_field(w, 10, 0x3ff) * 50) as u32),
            max_current: Milliamp((word_field(w, 0, 0x3ff) * 10) as u32),
        }
    }

    /// Decodes the low 30 bits of a Variable Supply PDO word.
    pub fn from_word(w: u32) -> (r: Self)
        ensures
            r == Self::spec_from_word(w),
    {
        let max_voltage = get_field(w, 20, 0x3ff);
        let min_voltage = get_field(w, 10, 0x3ff);
        let current = get_field(w, 0, 0x3ff);
        VariableSupplyPdo {
            max_voltage: Millivolt(max_voltage * 50),
            min_voltage: Millivolt(min_voltage * 50),
            max_current: Milliamp(current * 10),
        }
    }

    /// Every quantity is a whole number of its wire unit and fits its field.
    pub open spec fn wf(self) -> bool {
        &&& self.max_voltage.0 % 50 == 0
        &&& self.max_voltage.0 / 50 < 1024
        &&& self.min_voltage.0 % 50 == 0
        &&& self.min_voltage.0 / 50 < 1024
        &&& self.max_current.0 % 10 == 0
        &&& self.max_current.0 / 10 < 1024
    }

    /// The word of the PDO, with the Variable Supply discriminant.
    pub open spec fn spec_to_word(self) -> u32 {
        (2u32 << 30u32) | ((((self.max_voltage.0 / 50) as u32) & 0x3ff) << 20u32) | ((((
        self.min_voltage.0 / 50) as u32) & 0x3ff) << 10u32) | (((self.max_current.0 / 10) as u32)
            & 0x3ff)
    }

    /// Encodes the PDO into its word.
    pub fn to_word(&self) -> (r: u32)
        ensures
            r == self.spec_to_word(),
    {
        (2u32 << 30) | (((self.max_voltage.0 / 50) & 0x3ff) << 20) | (((self.min_voltage.0 / 50)
            & 0x3ff) << 10) | ((self.max_current.0 / 10) & 0x3ff)
    }
}

/// An SPR Programmable Power Supply APDO.
#[derive(Debug, Clone, Copy, PartialEq, Eq, Structural, Default)]
pub struct SprProgrammableSupplyPdo {
    /// The highest voltage, from a field in 100 mV units.
    pub max_voltage: Millivolt,
    /// The lowest voltage, from a field in 100 mV units.
    pub min_voltage: Millivolt,
    /// The highest current, from a field in 50 mA units.
    pub max_current: Milliamp,
}

impl SprProgrammableSupplyPdo {
    /// The value held in the low 30 bits of `w`.
    pub open spec fn spec_from_word(w: u32) -> Self {
        SprProgrammableSupplyPdo {
            max_voltage: Millivolt((word_field(w, 17, 0xff) * 100) as u32),
            min_voltage: Millivolt((word_field(w, 8, 0xff) * 100) as u32),
            max_current: Milliamp((word_field(w, 0, 0x7f) * 50) as u32),
        }
    }

    /// Decodes the low 30 bits of an SPR Programmable Power Supply APDO word.
    pub fn from_word(w: u32) -> (r: Self)
        ensures
            r == Self::spec_from_word(w),
    {
        let max_voltage = get_field(w, 17, 0xff);
        let min_voltage = get_field(w, 8, 0xff);
        let current = get_field(w, 0, 0x7f);
        SprProgrammableSupplyPdo {
            max_voltage: Millivolt(max_voltage * 100),
            min_voltage: Millivolt(min_voltage * 100),
            max_current: Milliamp(current * 50),
        }
    }

    /// Every quantity is a whole number of its wire unit and fits its field.
    pub open spec fn wf(self) -> bool {
        &&& self.max_voltage.0 % 100 == 0
        &&& self.max_voltage.0 / 100 < 256
        &&& self.min_voltage.0 % 100 == 0
        &&& self.min_voltage.0 / 100 < 256
        &&& self.max_current.0 % 50 == 0
        &&& self.max_current.0 / 50 < 128
    }

    /// The word of the APDO, with the Augmented discriminant and the SPR
    /// Programmable Power Supply kind.
    pub open spec fn spec_to_word(self) -> u32 {
        (3u32 << 30u32) | ((((self.max_voltage.0 / 100) as u32) & 0xff) << 17u32) | ((((
        self.min_voltage.0 / 100) as u32) & 0xff) << 8u32) | (((self.max_current.0 / 50) as u32)
            & 0x7f)
    }

    /// Encodes the APDO into its word.
    pub fn to_word(&self) -> (r: u32)
        ensures
            r == self.spec_to_word(),
    {
        (3u32 << 30) | (((self.max_voltage.0 / 100) & 0xff) << 17) | (((self.min_voltage.0 / 100)
            & 0xff) << 8) | ((self.max_current.0 / 50) & 0x7f)
    }
}


/// Decoding the word of a well-formed Fixed Supply PDO gives it back.
pub proof fn lemma_fixed_round_trip(p: FixedSupplyPdo)
    requires
        p.wf(),
    ensures
        p.spec_to_word() >> 30u32 == 0,
        FixedSupplyPdo::spec_from_word(p.spec_to_word()) == Ok::<FixedSupplyPdo, Fault>(p),
{
    let a = bit_of(p.dual_role_power);
    let b = bit_of(p.higher_capability);
    let c = bit_of(p.unconstrained_power);
    let d = bit_of(p.usb_communications_capable);
    let e = bit_of(p.dual_role_data);
    let f = p.fast_role_swap.spec_code() as u32;
    let x = (p.voltage.0 / 50) as u32;
    let y = (p.operational_current.0 / 10) as u32;
    let w = p.spec_to_word();
    assert(w == (a << 29u32) | (b << 28u32) | (c << 27u32) | (d << 26u32) | (e << 25u32) | (f
        << 23u32) | ((x & 0x3ff) << 10u32) | (y & 0x3ff));
    assert({
        let w = (a << 29u32) | (b << 28u32) | (c << 27u32) | (d << 26u32) | (e << 25u32) | (f
            << 23u32) | ((x & 0x3ff) << 10u32) | (y & 0x3ff);
        &&& w >> 30u32 == 0
        &&& (w >> 29u32) & 1 == a
        &&& (w >> 28u32) & 1 == b
        &&& (w >> 27u32) & 1 == c
        &&& (w >> 26u32) & 1 == d
        &&& (w >> 25u32) & 1 == e
        &&& (w >> 23u32) & 3 == f
        &&& (w >> 10u32) & 0x3ff == x
        &&& (w >> 0u32) & 0x3ff == y
    }) by (bit_vector)
        requires
            a <= 1,
            b <= 1,
            c <= 1,
            d <= 1,
            e <= 1,
            f < 4,
            x < 1024,
            y < 1024,
    ;
}

/// Decoding the word of a well-formed Battery Supply PDO gives it back.
pub proof fn lemma_battery_round_trip(p: BatterySupplyPdo)
    requires
        p.wf(),
    ensures
        p.spec_to_word() >> 30u32 == 1,
        BatterySupplyPdo::spec_from_word(p.spec_to_word()) == p,
{
    let x = (p.max_voltage.0 / 50) as u32;
    let y = (p.min_voltage.0 / 50) as u32;
    let z = (p.operational_power.0 / 250) as u32;
    assert({
        let w = (1u32 << 30u32) | ((x & 0x3ff) << 20u32) | ((y & 0x3ff) << 10u32) | (z & 0x3ff);
        &&& w >> 30u32 == 1
        &&& (w >> 20u32) & 0x3ff == x
        &&& (w >> 10u32) & 0x3ff == y
        &&& (w >> 0u32) & 0x3ff == z
    }) by (bit_vector)
        requires
            x < 1024,
            y < 1024,
            z < 1024,
    ;
}

/// Decoding the word of a well-formed Variable Supply PDO gives it back.
pub proof fn lemma_variable_round_trip(p: VariableSupplyPdo)
    requires
        p.wf(),
    ensures
        p.spec_to_word() >> 30u32 == 2,
        VariableSupplyPdo::spec_from_word(p.spec_to_word()) == p,
{
    let x = (p.max_voltage.0 / 50) as u32;
    let y = (p.min_voltage.0 / 50) as u32;
    let z = (p.max_current.0 / 10) as u32;
    assert({
        let w = (2u32 << 30u32) | ((x & 0x3ff) << 20u32) | ((y & 0x3ff) << 10u32) | (z & 0x3ff);
        &&& w >> 30u32 == 2
        &&& (w >> 20u32) & 0x3ff == x
        &&& (w >> 10u32) & 0x3ff == y
        &&& (w >> 0u32) & 0x3ff == z
    }) by (bit_vector)
        requires
            x < 1024,
            y < 1024,
            z < 1024,
    ;
}

/// Decoding the word of a well-formed SPR Programmable Power Supply APDO gives it back.
pub proof fn lemma_programmable_round_trip(p: SprProgrammableSupplyPdo)
    requires
        p.wf(),
    ensures
        p.spec_to_word() >> 30u32 == 3,
        SprProgrammableSupplyPdo::spec_from_word(p.spec_to_word()) == p,
{
    let x = (p.max_voltage.0 / 100) as u32;
    let y = (p.min_voltage.0 / 100) as u32;
    let z = (p.max_current.0 / 50) as u32;
    assert({
        let w = (3u32 << 30u32) | ((x & 0xff) << 17u32) | ((y & 0xff) << 8u32) | (z & 0x7f);
        &&& w >> 30u32 == 3
        &&& (w >> 17u32) & 0xff == x
        &&& (w >> 8u32) & 0xff == y
        &&& (w >> 0u32) & 0x7f == z
    }) by (bit_vector)
        requires
            x < 256,
            y < 256,
            z < 128,
    ;
}


/// The Source Capabilities Extended Data Block.
#[derive(Debug, Clone, Copy, PartialEq, Eq, Structural, Default)]
pub struct SourceCapabilitiesExtended {
    /// The USB vendor ID.
    pub vid: u16,
    /// The USB product ID.
    pub pid: u16,
    /// The XID that the USB-IF assigned.
    pub xid: u32,
    /// The firmware version.
    pub fw_version: u8,
    /// The hardware version.
    pub hw_version: u8,
    /// The voltage regulation characteristics.
    pub voltage_regulation: u8,
    /// The holdup time, in ms.
    pub holdup_time: u8,
    /// The compliance flags.
    pub compliance: u8,
    /// The touch current flags.
    pub touch_current: u8,
    /// The first peak current setting.
    pub peak_current1: u16,
    /// The second peak current setting.
    pub peak_current2: u16,
    /// The third peak current setting.
    pub peak_current3: u16,
    /// The touch temperature standard.
    pub touch_temp: u8,
    /// The source inputs.
    pub source_inputs: u8,
    /// The numbers of fixed and hot-swappable batteries.
    pub num_batteries: u8,
    /// The Source PDP rating, in W.
    pub source_pdp_rating: u8,
}

impl SourceCapabilitiesExtended {
    /// The value laid out in the first 192 bits of `s`.
    pub open spec fn spec_from_bits(s: Seq<bool>) -> core::result::Result<Self, Fault> {
        if s.len() < 192 {
            Err(Fault::Truncated)
        } else {
            Ok(
                SourceCapabilitiesExtended {
                    vid: field(s, 0, 16) as u16,
                    pid: field(s, 16, 16) as u16,
                    xid: field(s, 32, 32) as u32,
                    fw_version: field(s, 64, 8) as u8,
                    hw_version: field(s, 72, 8) as u8,
                    voltage_regulation: field(s, 80, 8) as u8,
                    holdup_time: field(s, 88, 8) as u8,
                    compliance: field(s, 96, 8) as u8,
                    touch_current: field(s, 104, 8) as u8,
                    peak_current1: field(s, 112, 16) as u16,
                    peak_current2: field(s, 128, 16) as u16,
                    peak_current3: field(s, 144, 16) as u16,
                    touch_temp: field(s, 160, 8) as u8,
                    source_inputs: field(s, 168, 8) as u8,
                    num_batteries: field(s, 176, 8) as u8,
                    source_pdp_rating: field(s, 184, 8) as u8,
                },
            )
        }
    }

    /// Decodes the structure from the next 192 bits of `reader`.
    pub fn from_bytes(reader: &mut BitReader) -> (r: Result<Self>)
        ensures
            outcome_is(r, Self::spec_from_bits(unread_bits(*old(reader)))),
            r is Ok ==> unread_bits(*final(reader)) == unread_bits(*old(reader)).skip(192),
    {
        let ghost s = unread_bits(*reader);
        proof {
            assert(s.skip(0) =~= s);
        }
        let vid = take_bits(reader, 16, Ghost(s), Ghost(0))?;
        let pid = take_bits(reader, 16, Ghost(s), Ghost(16))?;
        let xid = take_bits(reader, 32, Ghost(s), Ghost(32))?;
        let fw_version = take_bits(reader, 8, Ghost(s), Ghost(64))?;
        let hw_version = take_bits(reader, 8, Ghost(s), Ghost(72))?;
        let voltage_regulation = take_bits(reader, 8, Ghost(s), Ghost(80))?;
        let holdup_time = take_bits(reader, 8, Ghost(s), Ghost(88))?;
        let compliance = take_bits(reader, 8, Ghost(s), Ghost(96))?;
        let touch_current = take_bits(reader, 8, Ghost(s), Ghost(104))?;
        let peak_current1 = take_bits(reader, 16, Ghost(s), Ghost(112))?;
        let peak_current2 = take_bits(reader, 16, Ghost(s), Ghost(128))?;
        let peak_current3 = take_bits(reader, 16, Ghost(s), Ghost(144))?;
        let touch_temp = take_bits(reader, 8, Ghost(s), Ghost(160))?;
        let source_inputs = take_bits(reader, 8, Ghost(s), Ghost(168))?;
        let num_batteries = take_bits(reader, 8, Ghost(s), Ghost(176))?;
        let source_pdp_rating = take_bits(reader, 8, Ghost(s), Ghost(184))?;
        Ok(
            SourceCapabilitiesExtended {
                vid: vid as u16,
                pid: pid as u16,
                xid,
                fw_version: fw_version as u8,
                hw_version: hw_version as u8,
                voltage_regulation: voltage_regulation as u8,
                holdup_time: holdup_time as u8,
                compliance: compliance as u8,
                touch_current: touch_current as u8,
                peak_current1: peak_current1 as u16,
                peak_current2: peak_current2 as u16,
                peak_current3: peak_current3 as u16,
                touch_temp: touch_temp as u8,
                source_inputs: source_inputs as u8,
                num_batteries: num_batteries as u8,
                source_pdp_rating: source_pdp_rating as u8,
            },
        )
    }
}

/// The Sink Capabilities Extended Data Block.
#[derive(Debug, Clone, Copy, PartialEq, Eq, Structural, Default)]
pub struct SinkCapabilitiesExtended {
    /// The USB vendor ID.
    pub vid: u16,
    /// The USB product ID.
    pub pid: u16,
    /// The XID that the USB-IF assigned.
    pub xid: u32,
    /// The firmware version.
    pub fw_version: u8,
    /// The hardware version.
    pub hw_version: u8,
    /// The version of the data block.
    pub skedb_version: u8,
    /// The load step slew rate.
    pub load_step: u8,
    /// The sink load characteristics.
    pub sink_load_characteristics: u16,
    /// The compliance flags.
    pub compliance: u8,
    /// The touch temperature standard.
    pub touch_temp: u8,
    /// The numbers of fixed and hot-swappable batteries.
    pub battery_info: u8,
    /// The sink modes.
    pub sink_modes: u8,
    /// The lowest PDP the Sink works with, in W.
    pub sink_minimum_pdp: u8,
    /// The PDP the Sink works best with, in W.
    pub sink_operational_pdp: u8,
    /// The highest PDP the Sink takes, in W.
    pub sink_maximum_pdp: u8,
    /// The lowest EPR PDP, in W.
    pub epr_sink_minimum_pdp: u8,
    /// The operational EPR PDP, in W.
    pub epr_sink_operational_pdp: u8,
    /// The highest EPR PDP, in W.
    pub epr_sink_maximum_pdp: u8,
}

impl SinkCapabilitiesExtended {
    /// The value laid out in the first 192 bits of `s`.
    pub open spec fn spec_from_bits(s: Seq<bool>) -> core::result::Result<Self, Fault> {
        if s.len() < 192 {
            Err(Fault::Truncated)
        } else {
            Ok(
                SinkCapabilitiesExtended {
                    vid: field(s, 0, 16) as u16,
                    pid: field(s, 16, 16) as u16,
                    xid: field(s, 32, 32) as u32,
                    fw_version: field(s, 64, 8) as u8,
                    hw_version: field(s, 72, 8) as u8,
                    skedb_version: field(s, 80, 8) as u8,
                    load_step: field(s, 88, 8) as u8,
                    sink_load_characteristics: field(s, 96, 16) as u16,
                    compliance: field(s, 112, 8) as u8,
                    touch_temp: field(s, 120, 8) as u8,
                    battery_info: field(s, 128, 8) as u8,
                    sink_modes: field(s, 136, 8) as u8,
                    sink_minimum_pdp: field(s, 144, 8) as u8,
                    sink_operational_pdp: field(s, 152, 8) as u8,
                    sink_maximum_pdp: field(s, 160, 8) as u8,
                    epr_sink_minimum_pdp: field(s, 168, 8) as u8,
                    epr_sink_operational_pdp: field(s, 176, 8) as u8,
                    epr_sink_maximum_pdp: field(s, 184, 8) as u8,
                },
            )
        }
    }

    /// Decodes the structure from the next 192 bits of `reader`.
    pub fn from_bytes(reader: &mut BitReader) -> (r: Result<Self>)
        ensures
            outcome_is(r, Self::spec_from_bits(unread_bits(*old(reader)))),
            r is Ok ==> unread_bits(*final(reader)) == unread_bits(*old(reader)).skip(192),
    {
        let ghost s = unread_bits(*reader);
        proof {
            assert(s.skip(0) =~= s);
        }
        let vid = take_bits(reader, 16, Ghost(s), Ghost(0))?;
        let pid = take_bits(reader, 16, Ghost(s), Ghost(16))?;
        let xid = take_bits(reader, 32, Ghost(s), Ghost(32))?;
        let fw_version = take_bits(reader, 8, Ghost(s), Ghost(64))?;
        let hw_version = take_bits(reader, 8, Ghost(s), Ghost(72))?;
        let skedb_version = take_bits(reader, 8, Ghost(s), Ghost(80))?;
        let load_step = take_bits(reader, 8, Ghost(s), Ghost(88))?;
        let sink_load_characteristics = take_bits(reader, 16, Ghost(s), Ghost(96))?;
        let compliance = take_bits(reader, 8, Ghost(s), Ghost(112))?;
        let touch_temp = take_bits(reader, 8, Ghost(s), Ghost(120))?;
        let battery_info = take_bits(reader, 8, Ghost(s), Ghost(128))?;
        let sink_modes = take_bits(reader, 8, Ghost(s), Ghost(136))?;
        let sink_minimum_pdp = take_bits(reader, 8, Ghost(s), Ghost(144))?;
        let sink_operational_pdp = take_bits(reader, 8, Ghost(s), Ghost(152))?;
        let sink_maximum_pdp = take_bits(reader, 8, Ghost(s), Ghost(160))?;
        let epr_sink_minimum_pdp = take_bits(reader, 8, Ghost(s), Ghost(168))?;
        let epr_sink_operational_pdp = take_bits(reader, 8, Ghost(s), Ghost(176))?;
        let epr_sink_maximum_pdp = take_bits(reader, 8, Ghost(s), Ghost(184))?;
        Ok(
            SinkCapabilitiesExtended {
                vid: vid as u16,
                pid: pid as u16,
                xid,
                fw_version: fw_version as u8,
                hw_version: hw_version as u8,
                skedb_version: skedb_version as u8,
                load_step: load_step as u8,
                sink_load_characteristics: sink_load_characteristics as u16,
                compliance: compliance as u8,
                touch_temp: touch_temp as u8,
                battery_info: battery_info as u8,
                sink_modes: sink_modes as u8,
                sink_minimum_pdp: sink_minimum_pdp as u8,
                sink_operational_pdp: sink_operational_pdp as u8,
                sink_maximum_pdp: sink_maximum_pdp as u8,
                epr_sink_minimum_pdp: epr_sink_minimum_pdp as u8,
                epr_sink_operational_pdp: epr_sink_operational_pdp as u8,
                epr_sink_maximum_pdp: epr_sink_maximum_pdp as u8,
            },
        )
    }
}

/// The Battery Capability Data Block.
#[derive(Debug, Clone, Copy, PartialEq, Eq, Structural, Default)]
pub struct BatteryCapData {
    /// The USB vendor ID.
    pub vid: u16,
    /// The USB product ID.
    pub pid: u16,
    /// The design capacity, in 0.1 Wh units.
    pub battery_design_capacity: u16,
    /// The last full charge capacity, in 0.1 Wh units.
    pub battery_last_full_charge_capacity: u16,
    /// The battery type flags; bit 0 marks an invalid battery reference.
    pub battery_type: u8,
}

impl BatteryCapData {
    /// The value laid out in the first 72 bits of `s`.
    pub open spec fn spec_from_bits(s: Seq<bool>) -> core::result::Result<Self, Fault> {
        if s.len() < 72 {
            Err(Fault::Truncated)
        } else {
            Ok(
                BatteryCapData {
                    vid: field(s, 0, 16) as u16,
                    pid: field(s, 16, 16) as u16,
                    battery_design_capacity: field(s, 32, 16) as u16,
                    battery_last_full_charge_capacity: field(s, 48, 16) as u16,
                    battery_type: field(s, 64, 8) as u8,
                },
            )
        }
    }

    /// Decodes the structure from the next 72 bits of `reader`.
    pub fn from_bytes(reader: &mut BitReader) -> (r: Result<Self>)
        ensures
            outcome_is(r, Self::spec_from_bits(unread_bits(*old(reader)))),
            r is Ok ==> unread_bits(*final(reader)) == unread_bits(*old(reader)).skip(72),
    {
        let ghost s = unread_bits(*reader);
        proof {
            assert(s.skip(0) =~= s);
        }
        let vid = take_bits(reader, 16, Ghost(s), Ghost(0))?;
        let pid = take_bits(reader, 16, Ghost(s), Ghost(16))?;
        let battery_design_capacity = take_bits(reader, 16, Ghost(s), Ghost(32))?;
        let battery_last_full_charge_capacity = take_bits(reader, 16, Ghost(s), Ghost(48))?;
        let battery_type = take_bits(reader, 8, Ghost(s), Ghost(64))?;
        Ok(
            BatteryCapData {
                vid: vid as u16,
                pid: pid as u16,
                battery_design_capacity: battery_design_capacity as u16,
                battery_last_full_charge_capacity: battery_last_full_charge_capacity as u16,
                battery_type: battery_type as u8,
            },
        )
    }
}

/// The Battery Status Data Object.
#[derive(Debug, Clone, Copy, PartialEq, Eq, Structural, Default)]
pub struct BatteryStatusData {
    /// The battery information flags.
    pub battery_info: u8,
    /// The present capacity, in 0.1 Wh units.
    pub battery_present_capacity: u16,
}

impl BatteryStatusData {
    /// The value laid out in the first 32 bits of `s`.
    pub open spec fn spec_from_bits(s: Seq<bool>) -> core::result::Result<Self, Fault> {
        if s.len() < 32 {
            Err(Fault::Truncated)
        } else {
            Ok(
                BatteryStatusData {
                    battery_info: field(s, 8, 8) as u8,
                    battery_present_capacity: field(s, 16, 16) as u16,
                },
            )
        }
    }

    /// Decodes the structure from the next 32 bits of `reader`.
    pub fn from_bytes(reader: &mut BitReader) -> (r: Result<Self>)
        ensures
            outcome_is(r, Self::spec_from_bits(unread_bits(*old(reader)))),
            r is Ok ==> unread_bits(*final(reader)) == unread_bits(*old(reader)).skip(32),
    {
        let ghost s = unread_bits(*reader);
        proof {
            assert(s.skip(0) =~= s);
        }
        pass_bits(reader, 8, Ghost(s), Ghost(0))?;
        let battery_info = take_bits(reader, 8, Ghost(s), Ghost(8))?;
        let battery_present_capacity = take_bits(reader, 16, Ghost(s), Ghost(16))?;
        Ok(
            BatteryStatusData {
                battery_info: battery_info as u8,
                battery_present_capacity: battery_present_capacity as u16,
            },
        )
    }
}

/// The Revision Message Data Object.
#[derive(Debug, Clone, Copy, PartialEq, Eq, Structural, Default)]
pub struct RevisionMessageData {
    /// The minor version of the specification.
    pub version_minor: u8,
    /// The major version of the specification.
    pub version_major: u8,
    /// The minor revision of the specification.
    pub revision_minor: u8,
    /// The major revision of the specification.
    pub revision_major: u8,
}

impl RevisionMessageData {
    /// The value laid out in the first 32 bits of `s`.
    pub open spec fn spec_from_bits(s: Seq<bool>) -> core::result::Result<Self, Fault> {
        if s.len() < 32 {
            Err(Fault::Truncated)
        } else {
            Ok(
                RevisionMessageData {
                    version_minor: field(s, 16, 4) as u8,
                    version_major: field(s, 20, 4) as u8,
                    revision_minor: field(s, 24, 4) as u8,
                    revision_major: field(s, 28, 4) as u8,
                },
            )
        }
    }

    /// Decodes the structure from the next 32 bits of `reader`.
    pub fn from_bytes(reader: &mut BitReader) -> (r: Result<Self>)
        ensures
            outcome_is(r, Self::spec_from_bits(unread_bits(*old(reader)))),
            r is Ok ==> unread_bits(*final(reader)) == unread_bits(*old(reader)).skip(32),
    {
        let ghost s = unread_bits(*reader);
        proof {
            assert(s.skip(0) =~= s);
        }
        pass_bits(reader, 16, Ghost(s), Ghost(0))?;
        let version_minor = take_bits(reader, 4, Ghost(s), Ghost(16))?;
        let version_major = take_bits(reader, 4, Ghost(s), Ghost(20))?;
        let revision_minor = take_bits(reader, 4, Ghost(s), Ghost(24))?;
        let revision_major = take_bits(reader, 4, Ghost(s), Ghost(28))?;
        Ok(
            RevisionMessageData {
                version_minor: version_minor as u8,
                version_major: version_major as u8,
                revision_minor: revision_minor as u8,
                revision_major: revision_major as u8,
            },
        )
    }
}


/// The response to a Discover Identity request: the VDM header, the ID
/// Header, Cert Stat and Product VDOs, then three Product Type VDOs (zero
/// where absent).
#[derive(Debug, Clone, Copy, PartialEq, Eq)]
pub struct DiscoverIdentityResponse {
    pub header: VdmHeader,
    pub id_header_vdo: IdHeader,
    pub cert_stat: CertStat,
    pub product_vdo: Product,
    pub product_type_vdo: [u32; 3],
}

impl DiscoverIdentityResponse {
    /// The first failure met when decoding the front of `s`, if any.
    pub open spec fn spec_fault(s: Seq<bool>) -> Option<Fault> {
        if s.len() < 32 {
            Some(Fault::Truncated)
        } else if VdmHeader::spec_from_word(field(s, 0, 32) as u32) is Err {
            Some(VdmHeader::spec_from_word(field(s, 0, 32) as u32)->Err_0)
        } else if s.len() < 64 {
            Some(Fault::Truncated)
        } else if IdHeader::spec_fault(field(s, 32, 32) as u32) is Some {
            IdHeader::spec_fault(field(s, 32, 32) as u32)
        } else if s.len() < 224 {
            Some(Fault::Truncated)
        } else {
            None
        }
    }

    /// `self` holds the 224 bits at the front of `s`, with the vendor name `name`.
    pub open spec fn decoded_from(self, s: Seq<bool>, name: Seq<char>) -> bool {
        &&& self.header == VdmHeader::spec_from_word(field(s, 0, 32) as u32)->Ok_0
        &&& self.id_header_vdo.decoded_from(field(s, 32, 32) as u32, name)
        &&& self.cert_stat.xid == field(s, 64, 32) as u32
        &&& self.product_vdo == Product::spec_from_word(field(s, 96, 32) as u32)
        &&& self.product_type_vdo@ == seq![
            field(s, 128, 32) as u32,
            field(s, 160, 32) as u32,
            field(s, 192, 32) as u32,
        ]
    }

    /// Decodes a Discover Identity response; the vendor name of the ID Header
    /// comes from `lookup`.
    pub fn from_bytes<F: Fn(u16) -> Option<String>>(reader: &mut BitReader, lookup: F) -> (r:
        Result<Self>)
        requires
            forall|v: u16| lookup.requires((v,)),
        ensures
            Self::spec_fault(unread_bits(*old(reader))) is Some ==> r is Err && reports(
                r->Err_0,
                Self::spec_fault(unread_bits(*old(reader)))->0,
            ),
            Self::spec_fault(unread_bits(*old(reader))) is None ==> r is Ok && exists|
                found: Option<String>,
            |
                lookup.ensures(
                    (word_field(field(unread_bits(*old(reader)), 32, 32) as u32, 0, 0xffff) as u16,),
                    found,
                )
                    && r->Ok_0.decoded_from(unread_bits(*old(reader)), vendor_name_of(found)),
            r is Ok ==> unread_bits(*final(reader)) == unread_bits(*old(reader)).skip(224),
    {
        let ghost s = unread_bits(*reader);
        proof {
            assert(s.skip(0) =~= s);
        }
        let header = take_bits(reader, 32, Ghost(s), Ghost(0))?;
        let header = VdmHeader::from_word(header)?;
        let id_header = take_bits(reader, 32, Ghost(s), Ghost(32))?;
        let id_header_vdo = IdHeader::from_word(id_header, lookup)?;
        let cert_stat = take_bits(reader, 32, Ghost(s), Ghost(64))?;
        let product = take_bits(reader, 32, Ghost(s), Ghost(96))?;
        let t0 = take_bits(reader, 32, Ghost(s), Ghost(128))?;
        let t1 = take_bits(reader, 32, Ghost(s), Ghost(160))?;
        let t2 = take_bits(reader, 32, Ghost(s), Ghost(192))?;
        let r = DiscoverIdentityResponse {
            header,
            id_header_vdo,
            cert_stat: CertStat::from_word(cert_stat),
            product_vdo: Product::from_word(product),
            product_type_vdo: [t0, t1, t2],
        };
        proof {
            assert(r.product_type_vdo@ =~= seq![t0, t1, t2]);
        }
        Ok(r)
    }
}



impl FromBytes for SourceCapabilitiesExtended {
    fn from_bytes(bit_reader: &mut BitReader) -> Result<Self> {
        SourceCapabilitiesExtended::from_bytes(bit_reader)
    }
}

impl FromBytes for SinkCapabilitiesExtended {
    fn from_bytes(bit_reader: &mut BitReader) -> Result<Self> {
        SinkCapabilitiesExtended::from_bytes(bit_reader)
    }
}

impl FromBytes for BatteryCapData {
    fn from_bytes(bit_reader: &mut BitReader) -> Result<Self> {
        BatteryCapData::from_bytes(bit_reader)
    }
}

impl FromBytes for BatteryStatusData {
    fn from_bytes(bit_reader: &mut BitReader) -> Result<Self> {
        BatteryStatusData::from_bytes(bit_reader)
    }
}

impl FromBytes for RevisionMessageData {
    fn from_bytes(bit_reader: &mut BitReader) -> Result<Self> {
        RevisionMessageData::from_bytes(bit_reader)
    }
}

} // verus!
