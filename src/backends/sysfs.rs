//! The meaning of the text attributes that Linux exposes under
//! /sys/class/typec and /sys/class/power_supply.

use vstd::prelude::*;
use vstd::string::StrSliceExecFns;

use crate::ucsi::CablePropertyPlugEndType;
use crate::ucsi::CablePropertyType;
use crate::ucsi::ConnectorCapabilityExtendedOperationMode;
use crate::ucsi::ConnectorCapabilityMiscellaneousCapabilities;
use crate::ucsi::ConnectorCapabilityOperationMode;
use crate::ucsi::UcsiConnectorCapability;
use crate::BcdWrapper;
use crate::Error;
use crate::Result;

verus! {

/// `p` occurs in `s`.
pub open spec fn has_substring(s: Seq<char>, p: Seq<char>) -> bool {
    exists|i: int| 0 <= i && i + p.len() <= s.len() && #[trigger] s.subrange(i, i + p.len()) == p
}

/// Relies on `str::contains` with a `&str` pattern: true exactly when the
/// pattern occurs in the text.
#[verifier::external_body]
fn text_contains(s: &str, p: &str) -> (r: bool)
    ensures
        r == has_substring(s@, p@),
{
    s.contains(p)
}

/// The operation mode named by a `power_role` attribute: a port that can be
/// a source and a sink is dual-role, one that can only source is Rp-only,
/// and any other is Rd-only.
pub fn operation_mode_from_power_role(content: &str) -> (r: ConnectorCapabilityOperationMode)
    ensures
        r == (if has_substring(content@, "source"@) {
            if has_substring(content@, "sink"@) {
                ConnectorCapabilityOperationMode::Drp
            } else {
                ConnectorCapabilityOperationMode::RpOnly
            }
        } else {
            ConnectorCapabilityOperationMode::RdOnly
        }),
{
    if text_contains(content, "source") {
        if text_contains(content, "sink") {
            ConnectorCapabilityOperationMode::Drp
        } else {
            ConnectorCapabilityOperationMode::RpOnly
        }
    } else {
        ConnectorCapabilityOperationMode::RdOnly
    }
}

/// The plug named by a cable's `plug_type` attribute.
pub fn plug_end_type_from_text(content: &str) -> (r: CablePropertyPlugEndType)
    ensures
        r == (if has_substring(content@, "type-c"@) {
            CablePropertyPlugEndType::UsbTypeC
        } else if has_substring(content@, "type-a"@) {
            CablePropertyPlugEndType::UsbTypeA
        } else if has_substring(content@, "type-b"@) {
            CablePropertyPlugEndType::UsbTypeB
        } else {
            CablePropertyPlugEndType::OtherNotUsb
        }),
{
    if text_contains(content, "type-c") {
        CablePropertyPlugEndType::UsbTypeC
    } else if text_contains(content, "type-a") {
        CablePropertyPlugEndType::UsbTypeA
    } else if text_contains(content, "type-b") {
        CablePropertyPlugEndType::UsbTypeB
    } else {
        CablePropertyPlugEndType::OtherNotUsb
    }
}

/// The cable type named by a cable's `type` attribute.
pub fn cable_type_from_text(content: &str) -> (r: Result<CablePropertyType>)
    ensures
        has_substring(content@, "active"@) ==> r is Ok && r->Ok_0
            == CablePropertyType::Active,
        !has_substring(content@, "active"@) && has_substring(content@, "passive"@) ==> r is Ok
            && r->Ok_0 == CablePropertyType::Passive,
        !has_substring(content@, "active"@) && !has_substring(content@, "passive"@) ==> (
        r matches Err(Error::ParseStringError { field, value }) && field@ == "cable_type"@
            && value@ == content@),
{
    if text_contains(content, "active") {
        Ok(CablePropertyType::Active)
    } else if text_contains(content, "passive") {
        Ok(CablePropertyType::Passive)
    } else {
        Err(Error::ParseStringError { field: "cable_type".to_string(), value: content.to_string() })
    }
}

/// Whether a plug's `number_of_alternate_modes` attribute says that the cable
/// supports Alternate Modes: any first character but '0' does.
pub fn mode_support_from_text(content: &str) -> (r: Result<bool>)
    ensures
        content@.len() > 0 ==> r is Ok && r->Ok_0 == (content@[0] != '0'),
        content@.len() == 0 ==> (r matches Err(Error::ParseStringError { field, value })
            && field@ == "cable_mode_support"@ && value@ == content@),
{
    if content.unicode_len() == 0 {
        Err(
            Error::ParseStringError {
                field: "cable_mode_support".to_string(),
                value: content.to_string(),
            },
        )
    } else {
        Ok(content.get_char(0) != '0')
    }
}

/// The value of a decimal digit character.
pub open spec fn digit_value(c: char) -> nat {
    (c as nat - '0' as nat) as nat
}

pub open spec fn is_digit(c: char) -> bool {
    '0' <= c && c <= '9'
}

/// The version that a revision attribute such as "3.1" or "2" names: the
/// first character is the major digit, the third (or '0' where the text is
/// only two characters long) the minor digit.
pub open spec fn spec_bcd_from_text(t: Seq<char>) -> Option<BcdWrapper> {
    if t.len() < 2 {
        None
    } else {
        let low = if t.len() >= 3 { t[2] } else { '0' };
        if is_digit(t[0]) && is_digit(low) {
            Some(BcdWrapper((digit_value(t[0]) * 256 + digit_value(low)) as u32))
        } else {
            None
        }
    }
}

/// Reads a revision attribute such as "3.1" into a BCD version (0x0301).
pub fn bcd_from_text(content: &str) -> (r: Result<BcdWrapper>)
    ensures
        spec_bcd_from_text(content@) is Some ==> r is Ok && r->Ok_0 == spec_bcd_from_text(
            content@,
        )->0,
        spec_bcd_from_text(content@) is None ==> (r matches Err(
            Error::ParseStringError { field, value },
        ) && field@ == "bcd"@ && value@ == content@),
{
    let len = content.unicode_len();
    if len < 2 {
        return Err(Error::ParseStringError { field: "bcd".to_string(), value: content.to_string() });
    }
    let high = content.get_char(0);
    let low = if len >= 3 { content.get_char(2) } else { '0' };
    if '0' <= high && high <= '9' && '0' <= low && low <= '9' {
        let h = (high as u32) - ('0' as u32);
        let l = (low as u32) - ('0' as u32);
        assert((h << 8u32) | l == h * 256 + l) by (bit_vector)
            requires
                h <= 9,
                l <= 9,
        ;
        Ok(BcdWrapper((h << 8) | l))
    } else {
        Err(Error::ParseStringError { field: "bcd".to_string(), value: content.to_string() })
    }
}

/// The major USB PD revision that a revision attribute such as "3.0" names,
/// as the two digits packed into the two nibbles of a byte (0x30).
pub open spec fn spec_pd_revision_from_text(t: Seq<char>) -> Option<u8> {
    if t.len() >= 3 && is_digit(t[0]) && is_digit(t[2]) {
        Some((digit_value(t[0]) * 16 + digit_value(t[2])) as u8)
    } else {
        None
    }
}

/// Reads a revision attribute such as "3.0" into the packed form 0x30.
pub fn pd_revision_from_text(content: &str) -> (r: Result<u8>)
    ensures
        spec_pd_revision_from_text(content@) is Some ==> r is Ok && r->Ok_0
            == spec_pd_revision_from_text(content@)->0,
        spec_pd_revision_from_text(content@) is None ==> (r matches Err(
            Error::ParseStringError { field, value },
        ) && field@ == "pd_revision"@ && value@ == content@),
{
    if content.unicode_len() >= 3 {
        let b0 = content.get_char(0);
        let b2 = content.get_char(2);
        if '0' <= b0 && b0 <= '9' && '0' <= b2 && b2 <= '9' {
            let high = (b0 as u32 - '0' as u32) as u8;
            let low = (b2 as u32 - '0' as u32) as u8;
            assert((high << 4u8) | low == high * 16 + low) by (bit_vector)
                requires
                    high <= 9,
                    low <= 9,
            ;
            return Ok((high << 4) | low);
        }
    }
    Err(Error::ParseStringError { field: "pd_revision".to_string(), value: content.to_string() })
}

/// The decimal digits of `t`, in order, with every other character left out.
pub open spec fn decimal_digits(t: Seq<char>) -> Seq<char>
    decreases t.len(),
{
    if t.len() == 0 {
        t
    } else if is_digit(t.last()) {
        decimal_digits(t.drop_last()).push(t.last())
    } else {
        decimal_digits(t.drop_last())
    }
}

/// The number that a sequence of decimal digits writes.
pub open spec fn decimal_value(d: Seq<char>) -> nat
    decreases d.len(),
{
    if d.len() == 0 {
        0
    } else {
        decimal_value(d.drop_last()) * 10 + digit_value(d.last())
    }
}

/// Reads a decimal attribute, such as "5000000" or "5000mV", from the digits
/// it holds: any other character is left out. It fails where no digit is
/// present or the number does not fit in 32 bits.
pub fn u32_from_text(content: &str) -> (r: Result<u32>)
    ensures
        decimal_digits(content@).len() > 0 && decimal_value(decimal_digits(content@))
            <= u32::MAX ==> r is Ok && r->Ok_0 as nat == decimal_value(decimal_digits(content@)),
        decimal_digits(content@).len() == 0 || decimal_value(decimal_digits(content@))
            > u32::MAX ==> (r matches Err(Error::ParseStringError { field, value }) && field@
            == "u32"@ && value@ == content@),
{
    let len = content.unicode_len();
    let mut i: usize = 0;
    let mut acc: u32 = 0;
    let mut seen: bool = false;
    let mut overflow: bool = false;
    while i < len
        invariant
            len == content@.len(),
            i <= len,
            seen == (decimal_digits(content@.subrange(0, i as int)).len() > 0),
            !overflow ==> acc as nat == decimal_value(decimal_digits(content@.subrange(0, i as int))),
            overflow ==> decimal_value(decimal_digits(content@.subrange(0, i as int))) > u32::MAX,
        decreases len - i,
    {
        let c = content.get_char(i);
        let ghost before = content@.subrange(0, i as int);
        let ghost after = content@.subrange(0, i + 1);
        proof {
            assert(after.drop_last() =~= before);
            assert(after.last() == c);
        }
        if '0' <= c && c <= '9' {
            let d = c as u32 - '0' as u32;
            let ghost old_value = decimal_value(decimal_digits(before));
            proof {
                assert(decimal_digits(after) == decimal_digits(before).push(c));
                assert(decimal_digits(before).push(c).drop_last() =~= decimal_digits(before));
                assert(decimal_value(decimal_digits(after)) == old_value * 10 + d);
            }
            seen = true;
            if !overflow {
                if acc > (u32::MAX - d) / 10 {
                    assert(acc * 10 + d > u32::MAX) by (nonlinear_arith)
                        requires
                            acc > (u32::MAX - d) / 10,
                            d <= 9,
                    ;
                    overflow = true;
                } else {
                    assert(acc * 10 + d <= u32::MAX) by (nonlinear_arith)
                        requires
                            acc <= (u32::MAX - d) / 10,
                            d <= 9,
                    ;
                    acc = acc * 10 + d;
                }
            } else {
                assert(old_value * 10 + d >= old_value) by (nonlinear_arith);
            }
        } else {
            proof {
                assert(decimal_digits(after) == decimal_digits(before));
            }
        }
        i = i + 1;
    }
    assert(content@.subrange(0, len as int) =~= content@);
    if seen && !overflow {
        Ok(acc)
    } else {
        Err(Error::ParseStringError { field: "u32".to_string(), value: content.to_string() })
    }
}

/// The capabilities that a port's operation mode alone tells: a dual-role
/// port provides and consumes power, an Rd-only port consumes it, and any
/// other provides it. Nothing else is known, so every other field is clear.
pub fn connector_capability_for_mode(operation_mode: ConnectorCapabilityOperationMode) -> (r:
    UcsiConnectorCapability)
    ensures
        r.operation_mode == operation_mode,
        r.provider == !(operation_mode is RdOnly),
        r.consumer == (operation_mode is Drp || operation_mode is RdOnly),
        !r.swap_to_dfp && !r.swap_to_ufp && !r.swap_to_src && !r.swap_to_snk,
        r.extended_operation_mode == ConnectorCapabilityExtendedOperationMode::Usb4Gen2,
        r.miscellaneous_capabilities == ConnectorCapabilityMiscellaneousCapabilities::FwUpdate,
        !r.reverse_current_protection_support,
        r.partner_pd_revision == 0,
{
    let (provider, consumer) = match operation_mode {
        ConnectorCapabilityOperationMode::Drp => (true, true),
        ConnectorCapabilityOperationMode::RdOnly => (false, true),
        _ => (true, false),
    };
    UcsiConnectorCapability {
        operation_mode,
        provider,
        consumer,
        swap_to_dfp: false,
        swap_to_ufp: false,
        swap_to_src: false,
        swap_to_snk: false,
        extended_operation_mode: ConnectorCapabilityExtendedOperationMode::Usb4Gen2,
        miscellaneous_capabilities: ConnectorCapabilityMiscellaneousCapabilities::FwUpdate,
        reverse_current_protection_support: false,
        partner_pd_revision: 0,
    }
}

/// Power in 250 mW units from a current in uA and a voltage in uV, each first
/// cut to whole mA and mV.
pub open spec fn power_units(current_ua: u32, voltage_uv: u32) -> nat {
    ((current_ua / 1000) as nat * (voltage_uv / 1000) as nat) / 250000
}

/// The negotiated power level that a power supply's readings give: the
/// operating power in 250 mW units shifted up by ten bits, over the low ten
/// bits of the highest power in the same units, cut to 32 bits.
pub open spec fn spec_negotiated_power_level(
    current_now_ua: u32,
    voltage_now_uv: u32,
    current_max_ua: u32,
    voltage_max_uv: u32,
) -> u32 {
    (((power_units(current_now_ua, voltage_now_uv) as u32) << 10u32) | ((power_units(
        current_max_ua,
        voltage_max_uv,
    ) as u32) & 0x3ff))
}

/// Computes the negotiated power level from a power supply's readings.
pub fn negotiated_power_level(
    current_now_ua: u32,
    voltage_now_uv: u32,
    current_max_ua: u32,
    voltage_max_uv: u32,
) -> (r: u32)
    ensures
        r == spec_negotiated_power_level(current_now_ua, voltage_now_uv, current_max_ua, voltage_max_uv),
{
    let op = power_in_units(current_now_ua, voltage_now_uv);
    let max = power_in_units(current_max_ua, voltage_max_uv);
    (op << 10) | (max & 0x3ff)
}

/// Power in 250 mW units from a current in uA and a voltage in uV.
fn power_in_units(current_ua: u32, voltage_uv: u32) -> (r: u32)
    ensures
        r == power_units(current_ua, voltage_uv) as u32,
        r as nat == power_units(current_ua, voltage_uv),
{
    let ma = (current_ua / 1000) as u64;
    let mv = (voltage_uv / 1000) as u64;
    assert(ma * mv <= 4294967 * 4294967) by (nonlinear_arith)
        requires
            ma <= 4294967,
            mv <= 4294967,
    ;
    let units = (ma * mv) / 250000;
    assert(units <= 73786976) by {
        assert(ma * mv <= 4294967 * 4294967);
    }
    units as u32
}

/// Whether an operating-system name (the `sysname` of `uname`) is that of ChromeOS.
pub fn is_chrome_os(sysname: &str) -> (r: bool)
    ensures
        r == has_substring(sysname@, "chrome"@),
{
    text_contains(sysname, "chrome")
}

} // verus!
