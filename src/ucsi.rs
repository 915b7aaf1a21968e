//! UCSI commands and the structures of their responses.

use vstd::prelude::*;

use vstd::arithmetic::power2::lemma2_to64;
use vstd::arithmetic::power2::lemma_pow2_pos;
use vstd::arithmetic::power2::pow2;

use crate::bitstream::align;
use crate::bitstream::field;
use crate::bitstream::word_field;
use crate::bitstream::lemma_zero_bits;
use crate::bitstream::padding;
use crate::bitstream::zeros;
use crate::bitstream::le_bits;
use crate::bitstream::pass_bits;
use crate::bitstream::put_bits;
use crate::bitstream::take_bit;
use crate::bitstream::take_bits;
use crate::bitstream::unread_bits;
use crate::bitstream::written_bits;
use crate::bitstream::BitReader;
use crate::bitstream::BitWriter;
use crate::outcome_is;
use crate::pd::pd3p2::BatteryCapData;
use crate::pd::pd3p2::BatteryStatusData;
use crate::pd::pd3p2::DiscoverIdentityResponse;
use crate::pd::pd3p2::RevisionMessageData;
use crate::pd::pd3p2::SinkCapabilitiesExtended;
use crate::pd::pd3p2::SourceCapabilitiesExtended;
use crate::reports;
use crate::vdo::vendor_name_of;
use crate::BcdWrapper;
use crate::Error;
use crate::Fault;
use crate::FromBytes;
use crate::Result;
use crate::ToBytes;

verus! {

/// The most Alternate Modes that a platform reports.
pub const UCSI_MAX_NUM_ALT_MODE: usize = 128;

/// The recipient of a GET_ALTERNATE_MODES command.
#[derive(Debug, Clone, Copy, PartialEq, Eq, Structural, Default)]
pub enum GetAlternateModesRecipient {
    /// The connector itself.
    #[default]
    Connector,
    /// The port partner (SOP).
    Sop,
    /// The cable plug (SOP').
    SopPrime,
    /// The far cable plug (SOP'').
    SopDoublePrime,
}

impl GetAlternateModesRecipient {
    /// The member whose wire code is `v`, for `v` below the number of members.
    pub open spec fn from_code(v: nat) -> Self {
        if v == 0 {
            Self::Connector
        } else if v == 1 {
            Self::Sop
        } else if v == 2 {
            Self::SopPrime
        } else {
            Self::SopDoublePrime
        }
    }

    /// The wire code of the member.
    pub open spec fn spec_code(self) -> nat {
        match self {
            Self::Connector => 0,
            Self::Sop => 1,
            Self::SopPrime => 2,
            Self::SopDoublePrime => 3,
        }
    }

    /// The wire code of the member.
    pub fn code(&self) -> (r: u32)
        ensures
            r as nat == self.spec_code(),
    {
        match self {
            Self::Connector => 0,
            Self::Sop => 1,
            Self::SopPrime => 2,
            Self::SopDoublePrime => 3,
        }
    }

    /// The member with wire code `value`, if there is one.
    pub fn n(value: u32) -> (r: Option<Self>)
        ensures
            r == (if value < 4 { Some(Self::from_code(value as nat)) } else { None::<Self> }),
    {
        match value {
            0 => Some(Self::Connector),
            1 => Some(Self::Sop),
            2 => Some(Self::SopPrime),
            3 => Some(Self::SopDoublePrime),
            _ => None,
        }
    }
}

/// Whether Sink or Source PDOs are requested.
#[derive(Debug, Clone, Copy, PartialEq, Eq, Structural, Default)]
pub enum PdoType {
    #[default]
    Sink,
    Source,
}

impl PdoType {
    /// The member whose wire code is `v`, for `v` below the number of members.
    pub open spec fn from_code(v: nat) -> Self {
        if v == 0 {
            Self::Sink
        } else {
            Self::Source
        }
    }

    /// The wire code of the member.
    pub open spec fn spec_code(self) -> nat {
        match self {
            Self::Sink => 0,
            Self::Source => 1,
        }
    }

    /// The wire code of the member.
    pub fn code(&self) -> (r: u32)
        ensures
            r as nat == self.spec_code(),
    {
        match self {
            Self::Sink => 0,
            Self::Source => 1,
        }
    }

    /// The member with wire code `value`, if there is one.
    pub fn n(value: u32) -> (r: Option<Self>)
        ensures
            r == (if value < 2 { Some(Self::from_code(value as nat)) } else { None::<Self> }),
    {
        match value {
            0 => Some(Self::Sink),
            1 => Some(Self::Source),
            _ => None,
        }
    }
}

/// Which Source capabilities are requested.
#[derive(Debug, Clone, Copy, PartialEq, Eq, Structural, Default)]
pub enum PdoSourceCapabilitiesType {
    #[default]
    CurrentSupportedSourceCapabilities,
    AdvertisedCapabilities,
    MaximumSupportedSourceCapabilities,
}

impl PdoSourceCapabilitiesType {
    /// The member whose wire code is `v`, for `v` below the number of members.
    pub open spec fn from_code(v: nat) -> Self {
        if v == 0 {
            Self::CurrentSupportedSourceCapabilities
        } else if v == 1 {
            Self::AdvertisedCapabilities
        } else {
            Self::MaximumSupportedSourceCapabilities
        }
    }

    /// The wire code of the member.
    pub open spec fn spec_code(self) -> nat {
        match self {
            Self::CurrentSupportedSourceCapabilities => 0,
            Self::AdvertisedCapabilities => 1,
            Self::MaximumSupportedSourceCapabilities => 2,
        }
    }

    /// The wire code of the member.
    pub fn code(&self) -> (r: u32)
        ensures
            r as nat == self.spec_code(),
    {
        match self {
            Self::CurrentSupportedSourceCapabilities => 0,
            Self::AdvertisedCapabilities => 1,
            Self::MaximumSupportedSourceCapabilities => 2,
        }
    }

    /// The member with wire code `value`, if there is one.
    pub fn n(value: u32) -> (r: Option<Self>)
        ensures
            r == (if value < 3 { Some(Self::from_code(value as nat)) } else { None::<Self> }),
    {
        match value {
            0 => Some(Self::CurrentSupportedSourceCapabilities),
            1 => Some(Self::AdvertisedCapabilities),
            2 => Some(Self::MaximumSupportedSourceCapabilities),
            _ => None,
        }
    }
}

/// The recipient of a GET_PD_MESSAGE command.
#[derive(Debug, Clone, Copy, PartialEq, Eq, Structural, Default)]
pub enum PdMessageRecipient {
    /// The identified connector.
    #[default]
    Connector,
    /// The port partner of the identified connector.
    Sop,
    /// The cable plug of the identified connector.
    SopPrime,
    /// The far cable plug of the identified connector.
    SopDoublePrime,
}

impl PdMessageRecipient {
    /// The member whose wire code is `v`, for `v` below the number of members.
    pub open spec fn from_code(v: nat) -> Self {
        if v == 0 {
            Self::Connector
        } else if v == 1 {
            Self::Sop
        } else if v == 2 {
            Self::SopPrime
        } else {
            Self::SopDoublePrime
        }
    }

    /// The wire code of the member.
    pub open spec fn spec_code(self) -> nat {
        match self {
            Self::Connector => 0,
            Self::Sop => 1,
            Self::SopPrime => 2,
            Self::SopDoublePrime => 3,
        }
    }

    /// The wire code of the member.
    pub fn code(&self) -> (r: u32)
        ensures
            r as nat == self.spec_code(),
    {
        match self {
            Self::Connector => 0,
            Self::Sop => 1,
            Self::SopPrime => 2,
            Self::SopDoublePrime => 3,
        }
    }

    /// The member with wire code `value`, if there is one.
    pub fn n(value: u32) -> (r: Option<Self>)
        ensures
            r == (if value < 4 { Some(Self::from_code(value as nat)) } else { None::<Self> }),
    {
        match value {
            0 => Some(Self::Connector),
            1 => Some(Self::Sop),
            2 => Some(Self::SopPrime),
            3 => Some(Self::SopDoublePrime),
            _ => None,
        }
    }
}

/// The type of PD message requested.
#[derive(Debug, Clone, Copy, PartialEq, Eq, Structural, Default)]
pub enum PdMessageResponseType {
    /// Sink Capabilities Extended (Extended Message).
    #[default]
    SinkCapabilitiesExtended,
    /// Source Capabilities Extended (Extended Message).
    SourceCapabilitiesExtended,
    /// Battery Capabilities (Extended Message).
    BatteryCapabilities,
    /// Battery Status (Data Message).
    BatteryStatus,
    /// Discover Identity response (Structured VDM).
    DiscoverIdentity,
    /// Revision (Data Message).
    Revision,
    /// Reserved values.
    Reserved,
}

impl PdMessageResponseType {
    /// The member whose wire code is `v`, for `v` below the number of members.
    pub open spec fn from_code(v: nat) -> Self {
        if v == 0 {
            Self::SinkCapabilitiesExtended
        } else if v == 1 {
            Self::SourceCapabilitiesExtended
        } else if v == 2 {
            Self::BatteryCapabilities
        } else if v == 3 {
            Self::BatteryStatus
        } else if v == 4 {
            Self::DiscoverIdentity
        } else if v == 5 {
            Self::Revision
        } else {
            Self::Reserved
        }
    }

    /// The wire code of the member.
    pub open spec fn spec_code(self) -> nat {
        match self {
            Self::SinkCapabilitiesExtended => 0,
            Self::SourceCapabilitiesExtended => 1,
            Self::BatteryCapabilities => 2,
            Self::BatteryStatus => 3,
            Self::DiscoverIdentity => 4,
            Self::Revision => 5,
            Self::Reserved => 6,
        }
    }

    /// The wire code of the member.
    pub fn code(&self) -> (r: u32)
        ensures
            r as nat == self.spec_code(),
    {
        match self {
            Self::SinkCapabilitiesExtended => 0,
            Self::SourceCapabilitiesExtended => 1,
            Self::BatteryCapabilities => 2,
            Self::BatteryStatus => 3,
            Self::DiscoverIdentity => 4,
            Self::Revision => 5,
            Self::Reserved => 6,
        }
    }

    /// The member with wire code `value`, if there is one.
    pub fn n(value: u32) -> (r: Option<Self>)
        ensures
            r == (if value < 7 { Some(Self::from_code(value as nat)) } else { None::<Self> }),
    {
        match value {
            0 => Some(Self::SinkCapabilitiesExtended),
            1 => Some(Self::SourceCapabilitiesExtended),
            2 => Some(Self::BatteryCapabilities),
            3 => Some(Self::BatteryStatus),
            4 => Some(Self::DiscoverIdentity),
            5 => Some(Self::Revision),
            6 => Some(Self::Reserved),
            _ => None,
        }
    }
}

/// The orientation of a connection.
#[derive(Debug, Clone, Copy, PartialEq, Eq, Structural, Default)]
pub enum ConnectorOrientation {
    #[default]
    Normal,
    Reverse,
}

impl ConnectorOrientation {
    /// The member whose wire code is `v`, for `v` below the number of members.
    pub open spec fn from_code(v: nat) -> Self {
        if v == 0 {
            Self::Normal
        } else {
            Self::Reverse
        }
    }

    /// The member with wire code `value`, if there is one.
    pub fn n(value: u32) -> (r: Option<Self>)
        ensures
            r == (if value < 2 { Some(Self::from_code(value as nat)) } else { None::<Self> }),
    {
        match value {
            0 => Some(Self::Normal),
            1 => Some(Self::Reverse),
            _ => None,
        }
    }
}

/// Whether the Sink path is ready.
#[derive(Debug, Clone, Copy, PartialEq, Eq, Structural, Default)]
pub enum SinkPathStatus {
    #[default]
    NotReady,
    Ready,
}

impl SinkPathStatus {
    /// The member whose wire code is `v`, for `v` below the number of members.
    pub open spec fn from_code(v: nat) -> Self {
        if v == 0 {
            Self::NotReady
        } else {
            Self::Ready
        }
    }

    /// The member with wire code `value`, if there is one.
    pub fn n(value: u32) -> (r: Option<Self>)
        ensures
            r == (if value < 2 { Some(Self::from_code(value as nat)) } else { None::<Self> }),
    {
        match value {
            0 => Some(Self::NotReady),
            1 => Some(Self::Ready),
            _ => None,
        }
    }
}

/// The power operation mode of a connector; codes 0 and 7 are reserved members.
#[derive(Debug, Clone, Copy, PartialEq, Eq, Structural, Default)]
pub enum PowerOperationMode {
    #[default]
    Reserved,
    UsbDefaultOperation,
    BatteryCharging,
    PowerDelivery,
    UsbTypeCCurrent1_5A,
    UsbTypeCCurrent3A,
    UsbTypeCCurrent5A,
    Reserved2,
}

impl PowerOperationMode {
    /// The member whose wire code is `v`, for `v` below the number of members.
    pub open spec fn from_code(v: nat) -> Self {
        if v == 0 {
            Self::Reserved
        } else if v == 1 {
            Self::UsbDefaultOperation
        } else if v == 2 {
            Self::BatteryCharging
        } else if v == 3 {
            Self::PowerDelivery
        } else if v == 4 {
            Self::UsbTypeCCurrent1_5A
        } else if v == 5 {
            Self::UsbTypeCCurrent3A
        } else if v == 6 {
            Self::UsbTypeCCurrent5A
        } else {
            Self::Reserved2
        }
    }

    /// The member with wire code `value`, if there is one.
    pub fn n(value: u32) -> (r: Option<Self>)
        ensures
            r == (if value < 8 { Some(Self::from_code(value as nat)) } else { None::<Self> }),
    {
        match value {
            0 => Some(Self::Reserved),
            1 => Some(Self::UsbDefaultOperation),
            2 => Some(Self::BatteryCharging),
            3 => Some(Self::PowerDelivery),
            4 => Some(Self::UsbTypeCCurrent1_5A),
            5 => Some(Self::UsbTypeCCurrent3A),
            6 => Some(Self::UsbTypeCCurrent5A),
            7 => Some(Self::Reserved2),
            _ => None,
        }
    }
}

/// Whether a connector consumes or provides power.
#[derive(Debug, Clone, Copy, PartialEq, Eq, Structural, Default)]
pub enum PowerDirection {
    #[default]
    Consumer,
    Provider,
}

impl PowerDirection {
    /// The member whose wire code is `v`, for `v` below the number of members.
    pub open spec fn from_code(v: nat) -> Self {
        if v == 0 {
            Self::Consumer
        } else {
            Self::Provider
        }
    }

    /// The member with wire code `value`, if there is one.
    pub fn n(value: u32) -> (r: Option<Self>)
        ensures
            r == (if value < 2 { Some(Self::from_code(value as nat)) } else { None::<Self> }),
    {
        match value {
            0 => Some(Self::Consumer),
            1 => Some(Self::Provider),
            _ => None,
        }
    }
}

/// The type of partner on a connector; codes 0 and 7 are reserved members.
#[derive(Debug, Clone, Copy, PartialEq, Eq, Structural, Default)]
pub enum ConnectorPartnerType {
    #[default]
    Reserved,
    DfpAttached,
    UfpAttached,
    PoweredCableNoUfpAttached,
    PoweredCableUfpAttached,
    DebugAccessoryAttached,
    AudioAdapterAccessoryAttached,
    Reserved2,
}

impl ConnectorPartnerType {
    /// The member whose wire code is `v`, for `v` below the number of members.
    pub open spec fn from_code(v: nat) -> Self {
        if v == 0 {
            Self::Reserved
        } else if v == 1 {
            Self::DfpAttached
        } else if v == 2 {
            Self::UfpAttached
        } else if v == 3 {
            Self::PoweredCableNoUfpAttached
        } else if v == 4 {
            Self::PoweredCableUfpAttached
        } else if v == 5 {
            Self::DebugAccessoryAttached
        } else if v == 6 {
            Self::AudioAdapterAccessoryAttached
        } else {
            Self::Reserved2
        }
    }

    /// The member with wire code `value`, if there is one.
    pub fn n(value: u32) -> (r: Option<Self>)
        ensures
            r == (if value < 8 { Some(Self::from_code(value as nat)) } else { None::<Self> }),
    {
        match value {
            0 => Some(Self::Reserved),
            1 => Some(Self::DfpAttached),
            2 => Some(Self::UfpAttached),
            3 => Some(Self::PoweredCableNoUfpAttached),
            4 => Some(Self::PoweredCableUfpAttached),
            5 => Some(Self::DebugAccessoryAttached),
            6 => Some(Self::AudioAdapterAccessoryAttached),
            7 => Some(Self::Reserved2),
            _ => None,
        }
    }
}

/// The battery charging rate of a Sink.
#[derive(Debug, Clone, Copy, PartialEq, Eq, Structural, Default)]
pub enum BatteryChargingCapabilityStatus {
    #[default]
    NotCharging,
    NominalChargingRate,
    SlowChargingRate,
    VerySlowChargingRate,
}

impl BatteryChargingCapabilityStatus {
    /// The member whose wire code is `v`, for `v` below the number of members.
    pub open spec fn from_code(v: nat) -> Self {
        if v == 0 {
            Self::NotCharging
        } else if v == 1 {
            Self::NominalChargingRate
        } else if v == 2 {
            Self::SlowChargingRate
        } else {
            Self::VerySlowChargingRate
        }
    }

    /// The member with wire code `value`, if there is one.
    pub fn n(value: u32) -> (r: Option<Self>)
        ensures
            r == (if value < 4 { Some(Self::from_code(value as nat)) } else { None::<Self> }),
    {
        match value {
            0 => Some(Self::NotCharging),
            1 => Some(Self::NominalChargingRate),
            2 => Some(Self::SlowChargingRate),
            3 => Some(Self::VerySlowChargingRate),
            _ => None,
        }
    }
}

/// The unit of a cable's speed mantissa.
#[derive(Debug, Clone, Copy, PartialEq, Eq, Structural, Default)]
pub enum CablePropertySpeedExponent {
    #[default]
    Bps,
    Kbps,
    Mbps,
    Gbps,
}

impl CablePropertySpeedExponent {
    /// The member whose wire code is `v`, for `v` below the number of members.
    pub open spec fn from_code(v: nat) -> Self {
        if v == 0 {
            Self::Bps
        } else if v == 1 {
            Self::Kbps
        } else if v == 2 {
            Self::Mbps
        } else {
            Self::Gbps
        }
    }

    /// The member with wire code `value`, if there is one.
    pub fn n(value: u32) -> (r: Option<Self>)
        ensures
            r == (if value < 4 { Some(Self::from_code(value as nat)) } else { None::<Self> }),
    {
        match value {
            0 => Some(Self::Bps),
            1 => Some(Self::Kbps),
            2 => Some(Self::Mbps),
            3 => Some(Self::Gbps),
            _ => None,
        }
    }
}

/// The plug at the far end of a cable.
#[derive(Debug, Clone, Copy, PartialEq, Eq, Structural, Default)]
pub enum CablePropertyPlugEndType {
    #[default]
    UsbTypeA,
    UsbTypeB,
    UsbTypeC,
    OtherNotUsb,
}

impl CablePropertyPlugEndType {
    /// The member whose wire code is `v`, for `v` below the number of members.
    pub open spec fn from_code(v: nat) -> Self {
        if v == 0 {
            Self::UsbTypeA
        } else if v == 1 {
            Self::UsbTypeB
        } else if v == 2 {
            Self::UsbTypeC
        } else {
            Self::OtherNotUsb
        }
    }

    /// The member with wire code `value`, if there is one.
    pub fn n(value: u32) -> (r: Option<Self>)
        ensures
            r == (if value < 4 { Some(Self::from_code(value as nat)) } else { None::<Self> }),
    {
        match value {
            0 => Some(Self::UsbTypeA),
            1 => Some(Self::UsbTypeB),
            2 => Some(Self::UsbTypeC),
            3 => Some(Self::OtherNotUsb),
            _ => None,
        }
    }
}

/// Whether a cable is passive or active.
#[derive(Debug, Clone, Copy, PartialEq, Eq, Structural, Default)]
pub enum CablePropertyType {
    #[default]
    Passive,
    Active,
}

impl CablePropertyType {
    /// The member whose wire code is `v`, for `v` below the number of members.
    pub open spec fn from_code(v: nat) -> Self {
        if v == 0 {
            Self::Passive
        } else {
            Self::Active
        }
    }

    /// The member with wire code `value`, if there is one.
    pub fn n(value: u32) -> (r: Option<Self>)
        ensures
            r == (if value < 2 { Some(Self::from_code(value as nat)) } else { None::<Self> }),
    {
        match value {
            0 => Some(Self::Passive),
            1 => Some(Self::Active),
            _ => None,
        }
    }
}

/// The operation mode that a connector supports.
#[derive(Debug, Clone, Copy, PartialEq, Eq, Structural, Default)]
pub enum ConnectorCapabilityOperationMode {
    #[default]
    RpOnly,
    RdOnly,
    Drp,
    AnalogAudioAccessoryMode,
    DebugAccessoryMode,
    Usb2,
    Usb3,
    AlternateMode,
}

impl ConnectorCapabilityOperationMode {
    /// The member whose wire code is `v`, for `v` below the number of members.
    pub open spec fn from_code(v: nat) -> Self {
        if v == 0 {
            Self::RpOnly
        } else if v == 1 {
            Self::RdOnly
        } else if v == 2 {
            Self::Drp
        } else if v == 3 {
            Self::AnalogAudioAccessoryMode
        } else if v == 4 {
            Self::DebugAccessoryMode
        } else if v == 5 {
            Self::Usb2
        } else if v == 6 {
            Self::Usb3
        } else {
            Self::AlternateMode
        }
    }

    /// The member with wire code `value`, if there is one.
    pub fn n(value: u32) -> (r: Option<Self>)
        ensures
            r == (if value < 8 { Some(Self::from_code(value as nat)) } else { None::<Self> }),
    {
        match value {
            0 => Some(Self::RpOnly),
            1 => Some(Self::RdOnly),
            2 => Some(Self::Drp),
            3 => Some(Self::AnalogAudioAccessoryMode),
            4 => Some(Self::DebugAccessoryMode),
            5 => Some(Self::Usb2),
            6 => Some(Self::Usb3),
            7 => Some(Self::AlternateMode),
            _ => None,
        }
    }
}

/// The extended operation mode that a connector supports.
#[derive(Debug, Clone, Copy, PartialEq, Eq, Structural, Default)]
pub enum ConnectorCapabilityExtendedOperationMode {
    #[default]
    Usb4Gen2,
    EprSource,
    EprSink,
    Usb4Gen3,
    Usb4Gen4,
}

impl ConnectorCapabilityExtendedOperationMode {
    /// The member whose wire code is `v`, for `v` below the number of members.
    pub open spec fn from_code(v: nat) -> Self {
        if v == 0 {
            Self::Usb4Gen2
        } else if v == 1 {
            Self::EprSource
        } else if v == 2 {
            Self::EprSink
        } else if v == 3 {
            Self::Usb4Gen3
        } else {
            Self::Usb4Gen4
        }
    }

    /// The member with wire code `value`, if there is one.
    pub fn n(value: u32) -> (r: Option<Self>)
        ensures
            r == (if value < 5 { Some(Self::from_code(value as nat)) } else { None::<Self> }),
    {
        match value {
            0 => Some(Self::Usb4Gen2),
            1 => Some(Self::EprSource),
            2 => Some(Self::EprSink),
            3 => Some(Self::Usb4Gen3),
            4 => Some(Self::Usb4Gen4),
            _ => None,
        }
    }
}

/// The miscellaneous capability of a connector.
#[derive(Debug, Clone, Copy, PartialEq, Eq, Structural, Default)]
pub enum ConnectorCapabilityMiscellaneousCapabilities {
    #[default]
    FwUpdate,
    Security,
}

impl ConnectorCapabilityMiscellaneousCapabilities {
    /// The member whose wire code is `v`, for `v` below the number of members.
    pub open spec fn from_code(v: nat) -> Self {
        if v == 0 {
            Self::FwUpdate
        } else {
            Self::Security
        }
    }

    /// The member with wire code `value`, if there is one.
    pub fn n(value: u32) -> (r: Option<Self>)
        ensures
            r == (if value < 2 { Some(Self::from_code(value as nat)) } else { None::<Self> }),
    {
        match value {
            0 => Some(Self::FwUpdate),
            1 => Some(Self::Security),
            _ => None,
        }
    }
}

/// The changes that a connector reports in its status.
#[derive(Debug, Clone, Copy, PartialEq, Eq, Structural, Default)]
pub struct ConnectorStatusChange {
    /// Bit 0, reserved.
    pub reserved1: bool,
    /// The external supply changed.
    pub external_supply_change: bool,
    /// The power operation mode changed.
    pub power_operation_mode_change: bool,
    /// An Attention came from the port partner.
    pub attention: bool,
    /// Bit 4, reserved.
    pub reserved2: bool,
    /// The supported provider capabilities changed.
    pub supported_provider_capabilities_change: bool,
    /// The negotiated power level changed.
    pub negotiated_power_level_change: bool,
    /// A PD Hard Reset that the partner asked for is complete.
    pub pd_reset_complete: bool,
    /// The supported Alternate Modes changed.
    pub supported_cam_change: bool,
    /// The battery charging status changed.
    pub battery_charging_status_change: bool,
    /// Bit 10, reserved.
    pub reserved3: bool,
    /// The connector partner type or flags changed.
    pub connector_partner_changed: bool,
}

impl ConnectorStatusChange {
    /// The value laid out in the first 16 bits of `s`.
    pub open spec fn spec_from_bits(s: Seq<bool>) -> core::result::Result<Self, Fault> {
        if s.len() < 16 {
            Err(Fault::Truncated)
        } else {
            Ok(
                ConnectorStatusChange {
                    reserved1: s[0],
                    external_supply_change: s[1],
                    power_operation_mode_change: s[2],
                    attention: s[3],
                    reserved2: s[4],
                    supported_provider_capabilities_change: s[5],
                    negotiated_power_level_change: s[6],
                    pd_reset_complete: s[7],
                    supported_cam_change: s[8],
                    battery_charging_status_change: s[9],
                    reserved3: s[10],
                    connector_partner_changed: s[11],
                },
            )
        }
    }

    /// Decodes the structure from the next 16 bits of `reader`.
    pub fn from_bytes(reader: &mut BitReader) -> (r: Result<Self>)
        ensures
            outcome_is(r, Self::spec_from_bits(unread_bits(*old(reader)))),
            r is Ok ==> unread_bits(*final(reader)) == unread_bits(*old(reader)).skip(16),
    {
        let ghost s = unread_bits(*reader);
        proof {
            assert(s.skip(0) =~= s);
            lemma2_to64();
        }
        let reserved1 = take_bit(reader, Ghost(s), Ghost(0))?;
        let external_supply_change = take_bit(reader, Ghost(s), Ghost(1))?;
        let power_operation_mode_change = take_bit(reader, Ghost(s), Ghost(2))?;
        let attention = take_bit(reader, Ghost(s), Ghost(3))?;
        let reserved2 = take_bit(reader, Ghost(s), Ghost(4))?;
        let supported_provider_capabilities_change = take_bit(reader, Ghost(s), Ghost(5))?;
        let negotiated_power_level_change = take_bit(reader, Ghost(s), Ghost(6))?;
        let pd_reset_complete = take_bit(reader, Ghost(s), Ghost(7))?;
        let supported_cam_change = take_bit(reader, Ghost(s), Ghost(8))?;
        let battery_charging_status_change = take_bit(reader, Ghost(s), Ghost(9))?;
        let reserved3 = take_bit(reader, Ghost(s), Ghost(10))?;
        let connector_partner_changed = take_bit(reader, Ghost(s), Ghost(11))?;
        pass_bits(reader, 4, Ghost(s), Ghost(12))?;
        Ok(
            ConnectorStatusChange {
                reserved1,
                external_supply_change,
                power_operation_mode_change,
                attention,
                reserved2,
                supported_provider_capabilities_change,
                negotiated_power_level_change,
                pd_reset_complete,
                supported_cam_change,
                battery_charging_status_change,
                reserved3,
                connector_partner_changed,
            },
        )
    }
}

/// The response to a GET_CONNECTOR_STATUS command.
#[derive(Debug, Clone, Copy, PartialEq, Eq, Structural, Default)]
pub struct UcsiConnectorStatus {
    /// The status changes on the connector.
    pub connector_status_change: ConnectorStatusChange,
    /// The power operation mode.
    pub power_operation_mode: PowerOperationMode,
    /// Something is attached to the connector.
    pub connect_status: bool,
    /// Whether the connector consumes or provides power.
    pub power_direction: PowerDirection,
    /// The modes the partner operates in (valid when connected).
    pub connector_partner_flags: u32,
    /// The type of partner.
    pub connector_partner_type: ConnectorPartnerType,
    /// The negotiated power level (the Request Data Object).
    pub negotiated_power_level: u32,
    /// The charging rate, when the connector is a Sink.
    pub battery_charging_capability_status: BatteryChargingCapabilityStatus,
    /// Why the Provider capabilities are limited, one bit per reason.
    pub provider_capabilities_limited_reason: u32,
    /// The USB PD revision of the explicit contract, in BCD.
    pub pd_version_operation_mode: u32,
    /// The orientation of the connection.
    pub orientation: ConnectorOrientation,
    /// Whether the Sink path is ready.
    pub sink_path_status: SinkPathStatus,
    /// Reverse Current Protection happened.
    pub reverse_current_protection_status: bool,
    /// The power readings are valid.
    pub power_reading_ready: bool,
    /// The current resolution.
    pub scale_current: u32,
    /// The peak current reading.
    pub peak_current: u32,
    /// The moving average of the current.
    pub average_current: u32,
    /// The voltage resolution.
    pub scale_voltage: u32,
    /// The latest VBUS voltage reading.
    pub voltage_reading: u32,
}

impl UcsiConnectorStatus {
    /// The value laid out in the first 145 bits of `s`.
    pub open spec fn spec_from_bits(s: Seq<bool>) -> core::result::Result<Self, Fault> {
        if s.len() < 145 {
            Err(Fault::Truncated)
        } else {
            Ok(
                UcsiConnectorStatus {
                    connector_status_change: ConnectorStatusChange::spec_from_bits(s.skip(0))->Ok_0,
                    power_operation_mode: PowerOperationMode::from_code(field(s, 16, 3)),
                    connect_status: s[19],
                    power_direction: PowerDirection::from_code(field(s, 20, 1)),
                    connector_partner_flags: field(s, 21, 8) as u32,
                    connector_partner_type: ConnectorPartnerType::from_code(field(s, 29, 3)),
                    negotiated_power_level: field(s, 32, 32) as u32,
                    battery_charging_capability_status: BatteryChargingCapabilityStatus::from_code(field(s, 64, 2)),
                    provider_capabilities_limited_reason: field(s, 66, 4) as u32,
                    pd_version_operation_mode: field(s, 70, 16) as u32,
                    orientation: ConnectorOrientation::from_code(field(s, 86, 1)),
                    sink_path_status: SinkPathStatus::from_code(field(s, 87, 1)),
                    reverse_current_protection_status: s[88],
                    power_reading_ready: s[89],
                    scale_current: field(s, 90, 3) as u32,
                    peak_current: field(s, 93, 16) as u32,
                    average_current: field(s, 109, 16) as u32,
                    scale_voltage: field(s, 125, 4) as u32,
                    voltage_reading: field(s, 129, 16) as u32,
                },
            )
        }
    }

    /// Decodes the structure from the next 145 bits of `reader`.
    pub fn from_bytes(reader: &mut BitReader) -> (r: Result<Self>)
        ensures
            outcome_is(r, Self::spec_from_bits(unread_bits(*old(reader)))),
            r is Ok ==> unread_bits(*final(reader)) == unread_bits(*old(reader)).skip(145),
    {
        let ghost s = unread_bits(*reader);
        proof {
            assert(s.skip(0) =~= s);
            lemma2_to64();
        }
        let connector_status_change = ConnectorStatusChange::from_bytes(reader)?;
        let value = take_bits(reader, 3, Ghost(s), Ghost(16))?;
        let power_operation_mode = match PowerOperationMode::n(value) {
            Some(v) => v,
            None => {
                return Err(Error::ParseError { field: "power_operation_mode".to_string(), value });
            },
        };
        let connect_status = take_bit(reader, Ghost(s), Ghost(19))?;
        let value = take_bits(reader, 1, Ghost(s), Ghost(20))?;
        let power_direction = match PowerDirection::n(value) {
            Some(v) => v,
            None => {
                return Err(Error::ParseError { field: "power_direction".to_string(), value });
            },
        };
        let connector_partner_flags = take_bits(reader, 8, Ghost(s), Ghost(21))?;
        let value = take_bits(reader, 3, Ghost(s), Ghost(29))?;
        let connector_partner_type = match ConnectorPartnerType::n(value) {
            Some(v) => v,
            None => {
                return Err(Error::ParseError { field: "connector_partner_type".to_string(), value });
            },
        };
        let negotiated_power_level = take_bits(reader, 32, Ghost(s), Ghost(32))?;
        let value = take_bits(reader, 2, Ghost(s), Ghost(64))?;
        let battery_charging_capability_status = match BatteryChargingCapabilityStatus::n(value) {
            Some(v) => v,
            None => {
                return Err(Error::ParseError { field: "battery_charging_capability_status".to_string(), value });
            },
        };
        let provider_capabilities_limited_reason = take_bits(reader, 4, Ghost(s), Ghost(66))?;
        let pd_version_operation_mode = take_bits(reader, 16, Ghost(s), Ghost(70))?;
        let value = take_bits(reader, 1, Ghost(s), Ghost(86))?;
        let orientation = match ConnectorOrientation::n(value) {
            Some(v) => v,
            None => {
                return Err(Error::ParseError { field: "orientation".to_string(), value });
            },
        };
        let value = take_bits(reader, 1, Ghost(s), Ghost(87))?;
        let sink_path_status = match SinkPathStatus::n(value) {
            Some(v) => v,
            None => {
                return Err(Error::ParseError { field: "sink_path_status".to_string(), value });
            },
        };
        let reverse_current_protection_status = take_bit(reader, Ghost(s), Ghost(88))?;
        let power_reading_ready = take_bit(reader, Ghost(s), Ghost(89))?;
        let scale_current = take_bits(reader, 3, Ghost(s), Ghost(90))?;
        let peak_current = take_bits(reader, 16, Ghost(s), Ghost(93))?;
        let average_current = take_bits(reader, 16, Ghost(s), Ghost(109))?;
        let scale_voltage = take_bits(reader, 4, Ghost(s), Ghost(125))?;
        let voltage_reading = take_bits(reader, 16, Ghost(s), Ghost(129))?;
        Ok(
            UcsiConnectorStatus {
                connector_status_change,
                power_operation_mode,
                connect_status,
                power_direction,
                connector_partner_flags,
                connector_partner_type,
                negotiated_power_level,
                battery_charging_capability_status,
                provider_capabilities_limited_reason,
                pd_version_operation_mode,
                orientation,
                sink_path_status,
                reverse_current_protection_status,
                power_reading_ready,
                scale_current,
                peak_current,
                average_current,
                scale_voltage,
                voltage_reading,
            },
        )
    }
}

/// The power sources that a platform supports.
#[derive(Debug, Clone, Copy, PartialEq, Eq, Structural, Default)]
pub struct UcsiBmPowerSource {
    pub ac_supply: bool,
    pub other: bool,
    pub uses_vbus: bool,
}

impl UcsiBmPowerSource {
    /// The value laid out in the first 8 bits of `s`.
    pub open spec fn spec_from_bits(s: Seq<bool>) -> core::result::Result<Self, Fault> {
        if s.len() < 8 {
            Err(Fault::Truncated)
        } else {
            Ok(UcsiBmPowerSource { ac_supply: s[0], other: s[2], uses_vbus: s[6] })
        }
    }

    /// Decodes the 8-bit power source field.
    pub fn from_bytes(reader: &mut BitReader) -> (r: Result<Self>)
        ensures
            outcome_is(r, Self::spec_from_bits(unread_bits(*old(reader)))),
            r is Ok ==> unread_bits(*final(reader)) == unread_bits(*old(reader)).skip(8),
    {
        let ghost s = unread_bits(*reader);
        proof {
            assert(s.skip(0) =~= s);
        }
        let ac_supply = take_bit(reader, Ghost(s), Ghost(0))?;
        pass_bits(reader, 1, Ghost(s), Ghost(1))?;
        let other = take_bit(reader, Ghost(s), Ghost(2))?;
        pass_bits(reader, 3, Ghost(s), Ghost(3))?;
        let uses_vbus = take_bit(reader, Ghost(s), Ghost(6))?;
        pass_bits(reader, 1, Ghost(s), Ghost(7))?;
        Ok(UcsiBmPowerSource { ac_supply, other, uses_vbus })
    }
}

/// The features of a platform (the bmAttributes field).
#[derive(Debug, Clone, Copy, PartialEq, Eq, Structural, Default)]
pub struct UcsiBmAttributes {
    /// The platform supports the Disabled State.
    pub disabled_state_support: bool,
    /// The platform supports Battery Charging.
    pub battery_charging: bool,
    /// The platform supports USB Power Delivery.
    pub usb_power_delivery: bool,
    /// The platform supports the USB Type-C current levels.
    pub usb_type_c_current: bool,
    /// The power sources that the platform supports.
    pub bm_power_source: UcsiBmPowerSource,
}

impl UcsiBmAttributes {
    /// The value laid out in the first 32 bits of `s`.
    pub open spec fn spec_from_bits(s: Seq<bool>) -> core::result::Result<Self, Fault> {
        if s.len() < 32 {
            Err(Fault::Truncated)
        } else {
            Ok(
                UcsiBmAttributes {
                    disabled_state_support: s[0],
                    battery_charging: s[1],
                    usb_power_delivery: s[2],
                    usb_type_c_current: s[6],
                    bm_power_source: UcsiBmPowerSource::spec_from_bits(s.skip(8))->Ok_0,
                },
            )
        }
    }

    /// Decodes the 32-bit bmAttributes field.
    pub fn from_bytes(reader: &mut BitReader) -> (r: Result<Self>)
        ensures
            outcome_is(r, Self::spec_from_bits(unread_bits(*old(reader)))),
            r is Ok ==> unread_bits(*final(reader)) == unread_bits(*old(reader)).skip(32),
    {
        let ghost s = unread_bits(*reader);
        proof {
            assert(s.skip(0) =~= s);
        }
        let disabled_state_support = take_bit(reader, Ghost(s), Ghost(0))?;
        let battery_charging = take_bit(reader, Ghost(s), Ghost(1))?;
        let usb_power_delivery = take_bit(reader, Ghost(s), Ghost(2))?;
        pass_bits(reader, 3, Ghost(s), Ghost(3))?;
        let usb_type_c_current = take_bit(reader, Ghost(s), Ghost(6))?;
        pass_bits(reader, 1, Ghost(s), Ghost(7))?;
        let bm_power_source = UcsiBmPowerSource::from_bytes(reader)?;
        proof {
            assert(s.skip(8).skip(8) =~= s.skip(16));
        }
        pass_bits(reader, 16, Ghost(s), Ghost(16))?;
        Ok(
            UcsiBmAttributes {
                disabled_state_support,
                battery_charging,
                usb_power_delivery,
                usb_type_c_current,
                bm_power_source,
            },
        )
    }
}

/// The optional features of a platform (the bmOptionalFeatures field).
#[derive(Debug, Clone, Copy, PartialEq, Eq, Structural, Default)]
pub struct UcsiBmOptionalFeatures {
    /// The SET_CCOM command is supported.
    pub set_ccom_supported: bool,
    /// The SET_POWER_LEVEL command is supported.
    pub set_power_level_supported: bool,
    /// Details of the supported Alternate Modes can be reported.
    pub alternate_mode_details_supported: bool,
    /// The negotiated Alternate Mode can be changed with SET_NEW_CAM.
    pub alternate_mode_override_supported: bool,
    /// Details of Power Data Objects can be reported.
    pub pdo_details_supported: bool,
    /// The GET_CABLE_PROPERTY command is supported.
    pub cable_details_supported: bool,
    /// The External Supply Change notification is supported.
    pub external_supply_notification_supported: bool,
    /// The PD Reset notification is supported.
    pub pd_reset_notification_supported: bool,
    /// The GET_PD_MESSAGE command is supported.
    pub get_pd_message_supported: bool,
    /// The GET_ATTENTION_VDO command is supported.
    pub get_attention_vdo_supported: bool,
    /// The FW_UPDATE_REQUEST command is supported.
    pub fw_update_request_supported: bool,
    /// Power Level notifications are supported.
    pub negotiated_power_level_change_supported: bool,
    /// The SECURITY_REQUEST command is supported.
    pub security_request_supported: bool,
    /// The SET_RETIMER_MODE command is supported.
    pub set_retimer_mode_supported: bool,
    /// Chunking of MESSAGE_IN and MESSAGE_OUT is supported.
    pub chunking_supported: bool,
}

impl UcsiBmOptionalFeatures {
    /// The value laid out in the first 24 bits of `s`.
    pub open spec fn spec_from_bits(s: Seq<bool>) -> core::result::Result<Self, Fault> {
        if s.len() < 24 {
            Err(Fault::Truncated)
        } else {
            Ok(
                UcsiBmOptionalFeatures {
                    set_ccom_supported: s[0],
                    set_power_level_supported: s[1],
                    alternate_mode_details_supported: s[2],
                    alternate_mode_override_supported: s[3],
                    pdo_details_supported: s[4],
                    cable_details_supported: s[5],
                    external_supply_notification_supported: s[6],
                    pd_reset_notification_supported: s[7],
                    get_pd_message_supported: s[8],
                    get_attention_vdo_supported: s[9],
                    fw_update_request_supported: s[10],
                    negotiated_power_level_change_supported: s[11],
                    security_request_supported: s[12],
                    set_retimer_mode_supported: s[13],
                    chunking_supported: s[14],
                },
            )
        }
    }

    /// Decodes the 24-bit bmOptionalFeatures field.
    pub fn from_bytes(reader: &mut BitReader) -> (r: Result<Self>)
        ensures
            outcome_is(r, Self::spec_from_bits(unread_bits(*old(reader)))),
            r is Ok ==> unread_bits(*final(reader)) == unread_bits(*old(reader)).skip(24),
    {
        let ghost s = unread_bits(*reader);
        proof {
            assert(s.skip(0) =~= s);
        }
        let set_ccom_supported = take_bit(reader, Ghost(s), Ghost(0))?;
        let set_power_level_supported = take_bit(reader, Ghost(s), Ghost(1))?;
        let alternate_mode_details_supported = take_bit(reader, Ghost(s), Ghost(2))?;
        let alternate_mode_override_supported = take_bit(reader, Ghost(s), Ghost(3))?;
        let pdo_details_supported = take_bit(reader, Ghost(s), Ghost(4))?;
        let cable_details_supported = take_bit(reader, Ghost(s), Ghost(5))?;
        let external_supply_notification_supported = take_bit(reader, Ghost(s), Ghost(6))?;
        let pd_reset_notification_supported = take_bit(reader, Ghost(s), Ghost(7))?;
        let get_pd_message_supported = take_bit(reader, Ghost(s), Ghost(8))?;
        let get_attention_vdo_supported = take_bit(reader, Ghost(s), Ghost(9))?;
        let fw_update_request_supported = take_bit(reader, Ghost(s), Ghost(10))?;
        let negotiated_power_level_change_supported = take_bit(reader, Ghost(s), Ghost(11))?;
        let security_request_supported = take_bit(reader, Ghost(s), Ghost(12))?;
        let set_retimer_mode_supported = take_bit(reader, Ghost(s), Ghost(13))?;
        let chunking_supported = take_bit(reader, Ghost(s), Ghost(14))?;
        // The field is 24 bits wide; the bits above the described features are reserved.
        pass_bits(reader, 9, Ghost(s), Ghost(15))?;
        Ok(
            UcsiBmOptionalFeatures {
                set_ccom_supported,
                set_power_level_supported,
                alternate_mode_details_supported,
                alternate_mode_override_supported,
                pdo_details_supported,
                cable_details_supported,
                external_supply_notification_supported,
                pd_reset_notification_supported,
                get_pd_message_supported,
                get_attention_vdo_supported,
                fw_update_request_supported,
                negotiated_power_level_change_supported,
                security_request_supported,
                set_retimer_mode_supported,
                chunking_supported,
            },
        )
    }
}

/// The response to a GET_CAPABILITY command.
#[derive(Debug, Clone, Copy, PartialEq, Eq, Structural)]
pub struct UcsiCapability {
    /// The supported platform features.
    pub bm_attributes: UcsiBmAttributes,
    /// The number of connectors; zero is illegal on the wire.
    pub num_connectors: usize,
    /// The optional features supported.
    pub bm_optional_features: UcsiBmOptionalFeatures,
    /// The number of Alternate Modes supported.
    pub num_alt_modes: usize,
    /// Battery Charging Specification release.
    pub bc_version: BcdWrapper,
    /// USB Power Delivery Specification revision.
    pub pd_version: BcdWrapper,
    /// USB Type-C Specification release.
    pub usb_type_c_version: BcdWrapper,
}

impl UcsiCapability {
    /// The value laid out in the first 128 bits of `s`.
    pub open spec fn spec_from_bits(s: Seq<bool>) -> core::result::Result<Self, Fault> {
        if s.len() < 128 {
            Err(Fault::Truncated)
        } else {
            Ok(
                UcsiCapability {
                    bm_attributes: UcsiBmAttributes::spec_from_bits(s)->Ok_0,
                    num_connectors: field(s, 32, 7) as usize,
                    bm_optional_features: UcsiBmOptionalFeatures::spec_from_bits(s.skip(40))->Ok_0,
                    num_alt_modes: field(s, 64, 8) as usize,
                    bc_version: BcdWrapper(field(s, 80, 16) as u32),
                    pd_version: BcdWrapper(field(s, 96, 16) as u32),
                    usb_type_c_version: BcdWrapper(field(s, 112, 16) as u32),
                },
            )
        }
    }

    /// Decodes a GET_CAPABILITY response; reserved bits are passed over.
    pub fn from_bytes(reader: &mut BitReader) -> (r: Result<Self>)
        ensures
            outcome_is(r, Self::spec_from_bits(unread_bits(*old(reader)))),
            r is Ok ==> unread_bits(*final(reader)) == unread_bits(*old(reader)).skip(128),
    {
        let ghost s = unread_bits(*reader);
        let bm_attributes = UcsiBmAttributes::from_bytes(reader)?;
        let num_connectors = take_bits(reader, 7, Ghost(s), Ghost(32))?;
        pass_bits(reader, 1, Ghost(s), Ghost(39))?;
        let bm_optional_features = UcsiBmOptionalFeatures::from_bytes(reader)?;
        proof {
            assert(s.skip(40).skip(24) =~= s.skip(64));
        }
        let num_alt_modes = take_bits(reader, 8, Ghost(s), Ghost(64))?;
        pass_bits(reader, 8, Ghost(s), Ghost(72))?;
        let bc_version = take_bits(reader, 16, Ghost(s), Ghost(80))?;
        let pd_version = take_bits(reader, 16, Ghost(s), Ghost(96))?;
        let usb_type_c_version = take_bits(reader, 16, Ghost(s), Ghost(112))?;
        Ok(
            UcsiCapability {
                bm_attributes,
                num_connectors: num_connectors as usize,
                bm_optional_features,
                num_alt_modes: num_alt_modes as usize,
                bc_version: BcdWrapper(bc_version),
                pd_version: BcdWrapper(pd_version),
                usb_type_c_version: BcdWrapper(usb_type_c_version),
            },
        )
    }
}

/// The response to a GET_CABLE_PROPERTY command.
#[derive(Debug, Clone, Copy, PartialEq, Eq, Structural, Default)]
pub struct UcsiCableProperty {
    /// The unit of the speed mantissa.
    pub speed_exponent: CablePropertySpeedExponent,
    /// The mantissa of the highest bit rate the cable supports.
    pub speed_mantissa: u32,
    /// The current the cable is designed for, in 50 mA units.
    pub b_current_capability: u32,
    /// One when the cable carries VBUS from end to end.
    pub vbus_in_cable: u32,
    /// Whether the cable is passive or active.
    pub cable_type: CablePropertyType,
    /// One when the lane directionality is configurable.
    pub directionality: u32,
    /// The plug at the far end.
    pub plug_end_type: CablePropertyPlugEndType,
    /// The cable supports Alternate Modes (valid for active cables).
    pub mode_support: bool,
    /// The cable's major USB PD revision.
    pub cable_pd_revision: u32,
    /// The cable's latency code.
    pub latency: u32,
}

impl UcsiCableProperty {
    /// The outcome of decoding the first 36 bits of `s`.
    pub open spec fn spec_from_bits(s: Seq<bool>) -> core::result::Result<Self, Fault> {
        if s.len() < 2 {
            Err(Fault::Truncated)
        } else if field(s, 0, 2) >= 4 {
            Err(Fault::Invalid { field: "speed_exponent"@, value: field(s, 0, 2) as u32 })
        } else if s.len() < 26 {
            Err(Fault::Truncated)
        } else if field(s, 25, 1) >= 2 {
            Err(Fault::Invalid { field: "cable_type"@, value: field(s, 25, 1) as u32 })
        } else if s.len() < 29 {
            Err(Fault::Truncated)
        } else if field(s, 27, 2) >= 4 {
            Err(Fault::Invalid { field: "plug_end_type"@, value: field(s, 27, 2) as u32 })
        } else if s.len() < 36 {
            Err(Fault::Truncated)
        } else {
            Ok(
                UcsiCableProperty {
                    speed_exponent: CablePropertySpeedExponent::from_code(field(s, 0, 2)),
                    speed_mantissa: field(s, 2, 14) as u32,
                    b_current_capability: field(s, 16, 8) as u32,
                    vbus_in_cable: field(s, 24, 1) as u32,
                    cable_type: CablePropertyType::from_code(field(s, 25, 1)),
                    directionality: field(s, 26, 1) as u32,
                    plug_end_type: CablePropertyPlugEndType::from_code(field(s, 27, 2)),
                    mode_support: s[29],
                    cable_pd_revision: field(s, 30, 2) as u32,
                    latency: field(s, 32, 4) as u32,
                },
            )
        }
    }

    /// Decodes a GET_CABLE_PROPERTY response.
    pub fn from_bytes(reader: &mut BitReader) -> (r: Result<Self>)
        ensures
            outcome_is(r, Self::spec_from_bits(unread_bits(*old(reader)))),
            r is Ok ==> unread_bits(*final(reader)) == unread_bits(*old(reader)).skip(36),
    {
        let ghost s = unread_bits(*reader);
        proof {
            assert(s.skip(0) =~= s);
        }
        let speed_exponent = take_bits(reader, 2, Ghost(s), Ghost(0))?;
        let speed_exponent = match CablePropertySpeedExponent::n(speed_exponent) {
            Some(v) => v,
            None => {
                return Err(
                    Error::ParseError { field: "speed_exponent".to_string(), value: speed_exponent },
                );
            },
        };
        let speed_mantissa = take_bits(reader, 14, Ghost(s), Ghost(2))?;
        let b_current_capability = take_bits(reader, 8, Ghost(s), Ghost(16))?;
        let vbus_in_cable = take_bits(reader, 1, Ghost(s), Ghost(24))?;
        let cable_type = take_bits(reader, 1, Ghost(s), Ghost(25))?;
        let cable_type = match CablePropertyType::n(cable_type) {
            Some(v) => v,
            None => {
                return Err(Error::ParseError { field: "cable_type".to_string(), value: cable_type });
            },
        };
        let directionality = take_bits(reader, 1, Ghost(s), Ghost(26))?;
        let plug_end_type = take_bits(reader, 2, Ghost(s), Ghost(27))?;
        let plug_end_type = match CablePropertyPlugEndType::n(plug_end_type) {
            Some(v) => v,
            None => {
                return Err(
                    Error::ParseError { field: "plug_end_type".to_string(), value: plug_end_type },
                );
            },
        };
        let mode_support = take_bit(reader, Ghost(s), Ghost(29))?;
        let cable_pd_revision = take_bits(reader, 2, Ghost(s), Ghost(30))?;
        let latency = take_bits(reader, 4, Ghost(s), Ghost(32))?;
        Ok(
            UcsiCableProperty {
                speed_exponent,
                speed_mantissa,
                b_current_capability,
                vbus_in_cable,
                cable_type,
                directionality,
                plug_end_type,
                mode_support,
                cable_pd_revision,
                latency,
            },
        )
    }
}

/// The response to a GET_CONNECTOR_CAPABILITY command.
#[derive(Debug, Clone, Copy, PartialEq, Eq, Structural, Default)]
pub struct UcsiConnectorCapability {
    /// The mode that the connector supports.
    pub operation_mode: ConnectorCapabilityOperationMode,
    /// The connector can provide power.
    pub provider: bool,
    /// The connector can consume power.
    pub consumer: bool,
    /// The connector accepts a swap to DFP.
    pub swap_to_dfp: bool,
    /// The connector accepts a swap to UFP.
    pub swap_to_ufp: bool,
    /// The connector accepts a swap to Source.
    pub swap_to_src: bool,
    /// The connector accepts a swap to Sink.
    pub swap_to_snk: bool,
    /// The extended operation mode.
    pub extended_operation_mode: ConnectorCapabilityExtendedOperationMode,
    /// The miscellaneous capability.
    pub miscellaneous_capabilities: ConnectorCapabilityMiscellaneousCapabilities,
    /// The LPM supports Reverse Current Protection.
    pub reverse_current_protection_support: bool,
    /// The partner's major USB PD revision.
    pub partner_pd_revision: u8,
}

impl UcsiConnectorCapability {
    /// The outcome of decoding the first 29 bits of `s`.
    pub open spec fn spec_from_bits(s: Seq<bool>) -> core::result::Result<Self, Fault> {
        if s.len() < 8 {
            Err(Fault::Truncated)
        } else if field(s, 0, 8) >= 8 {
            Err(Fault::Invalid { field: "operation_mode"@, value: field(s, 0, 8) as u32 })
        } else if s.len() < 22 {
            Err(Fault::Truncated)
        } else if field(s, 14, 8) >= 5 {
            Err(Fault::Invalid { field: "extended_operation_mode"@, value: field(s, 14, 8) as u32 })
        } else if s.len() < 26 {
            Err(Fault::Truncated)
        } else if field(s, 22, 4) >= 2 {
            Err(
                Fault::Invalid { field: "miscellaneous_capabilities"@, value: field(s, 22, 4) as u32 },
            )
        } else if s.len() < 29 {
            Err(Fault::Truncated)
        } else {
            Ok(
                UcsiConnectorCapability {
                    operation_mode: ConnectorCapabilityOperationMode::from_code(field(s, 0, 8)),
                    provider: s[8],
                    consumer: s[9],
                    swap_to_dfp: s[10],
                    swap_to_ufp: s[11],
                    swap_to_src: s[12],
                    swap_to_snk: s[13],
                    extended_operation_mode: ConnectorCapabilityExtendedOperationMode::from_code(
                        field(s, 14, 8),
                    ),
                    miscellaneous_capabilities:
                        ConnectorCapabilityMiscellaneousCapabilities::from_code(field(s, 22, 4)),
                    reverse_current_protection_support: s[26],
                    partner_pd_revision: field(s, 27, 2) as u8,
                },
            )
        }
    }

    /// Decodes a GET_CONNECTOR_CAPABILITY response.
    pub fn from_bytes(reader: &mut BitReader) -> (r: Result<Self>)
        ensures
            outcome_is(r, Self::spec_from_bits(unread_bits(*old(reader)))),
            r is Ok ==> unread_bits(*final(reader)) == unread_bits(*old(reader)).skip(29),
    {
        let ghost s = unread_bits(*reader);
        proof {
            assert(s.skip(0) =~= s);
        }
        let operation_mode_value = take_bits(reader, 8, Ghost(s), Ghost(0))?;
        let operation_mode = match ConnectorCapabilityOperationMode::n(operation_mode_value) {
            Some(v) => v,
            None => {
                return Err(
                    Error::ParseError {
                        field: "operation_mode".to_string(),
                        value: operation_mode_value,
                    },
                );
            },
        };
        let provider = take_bit(reader, Ghost(s), Ghost(8))?;
        let consumer = take_bit(reader, Ghost(s), Ghost(9))?;
        let swap_to_dfp = take_bit(reader, Ghost(s), Ghost(10))?;
        let swap_to_ufp = take_bit(reader, Ghost(s), Ghost(11))?;
        let swap_to_src = take_bit(reader, Ghost(s), Ghost(12))?;
        let swap_to_snk = take_bit(reader, Ghost(s), Ghost(13))?;
        let extended_value = take_bits(reader, 8, Ghost(s), Ghost(14))?;
        let extended_operation_mode = match ConnectorCapabilityExtendedOperationMode::n(
            extended_value,
        ) {
            Some(v) => v,
            None => {
                return Err(
                    Error::ParseError {
                        field: "extended_operation_mode".to_string(),
                        value: extended_value,
                    },
                );
            },
        };
        let miscellaneous_value = take_bits(reader, 4, Ghost(s), Ghost(22))?;
        let miscellaneous_capabilities = match ConnectorCapabilityMiscellaneousCapabilities::n(
            miscellaneous_value,
        ) {
            Some(v) => v,
            None => {
                return Err(
                    Error::ParseError {
                        field: "miscellaneous_capabilities".to_string(),
                        value: miscellaneous_value,
                    },
                );
            },
        };
        let reverse_current_protection_support = take_bit(reader, Ghost(s), Ghost(26))?;
        let partner_pd_revision = take_bits(reader, 2, Ghost(s), Ghost(27))?;
        Ok(
            UcsiConnectorCapability {
                operation_mode,
                provider,
                consumer,
                swap_to_dfp,
                swap_to_ufp,
                swap_to_src,
                swap_to_snk,
                extended_operation_mode,
                miscellaneous_capabilities,
                reverse_current_protection_support,
                partner_pd_revision: partner_pd_revision as u8,
            },
        )
    }
}

/// The response to a GET_ALTERNATE_MODES command: up to two modes, each an
/// SVID with its mode VDO.
#[derive(Debug, Clone, Copy, PartialEq, Eq, Default)]
pub struct UcsiAlternateMode {
    pub svid: [u32; 2],
    pub vdo: [u32; 2],
}

impl UcsiAlternateMode {
    /// `self` is what the first 96 bits of `s` hold.
    pub open spec fn decoded_from(self, s: Seq<bool>) -> bool {
        &&& self.svid@ == seq![field(s, 0, 16) as u32, field(s, 48, 16) as u32]
        &&& self.vdo@ == seq![field(s, 16, 32) as u32, field(s, 64, 32) as u32]
    }

    /// Decodes a GET_ALTERNATE_MODES response.
    pub fn from_bytes(reader: &mut BitReader) -> (r: Result<Self>)
        ensures
            r is Ok <==> unread_bits(*old(reader)).len() >= 96,
            r is Ok ==> r->Ok_0.decoded_from(unread_bits(*old(reader))),
            r is Ok ==> unread_bits(*final(reader)) == unread_bits(*old(reader)).skip(96),
            r is Err ==> r->Err_0 is IoError,
    {
        let ghost s = unread_bits(*reader);
        proof {
            assert(s.skip(0) =~= s);
        }
        let svid_0 = take_bits(reader, 16, Ghost(s), Ghost(0))?;
        let mid_0 = take_bits(reader, 32, Ghost(s), Ghost(16))?;
        let svid_1 = take_bits(reader, 16, Ghost(s), Ghost(48))?;
        let mid_1 = take_bits(reader, 32, Ghost(s), Ghost(64))?;
        let r = UcsiAlternateMode { svid: [svid_0, svid_1], vdo: [mid_0, mid_1] };
        proof {
            assert(r.svid@ =~= seq![svid_0, svid_1]);
            assert(r.vdo@ =~= seq![mid_0, mid_1]);
        }
        Ok(r)
    }
}

/// The response to a GET_CAM_SUPPORTED command.
#[derive(Debug, Clone, Copy, PartialEq, Eq, Structural)]
pub struct UcsiCamSupported {
    /// An Alternate Mode is supported.
    pub cam_supported: bool,
}

/// The response to a GET_CURRENT_CAM command.
#[derive(Debug, Clone, Copy)]
pub struct UcsiCurrentCam {
    /// Offsets into the list of Alternate Modes that the connector operates
    /// in; 0xFF where it operates in none.
    pub current_alternate_mode: [usize; UCSI_MAX_NUM_ALT_MODE],
}

/// A UCSI command, one of nine shapes.
#[derive(Debug, Clone, Copy, PartialEq, Eq, Structural)]
#[allow(inconsistent_fields)]
pub enum UcsiCommand {
    /// Get the platform capabilities.
    GetCapability,
    /// Get the capabilities of a connector.
    GetConnectorCapability {
        /// The connector queried, counted from zero.
        connector_nr: usize,
    },
    /// Get the Alternate Modes that a connector, cable or partner supports.
    GetAlternateModes {
        recipient: GetAlternateModesRecipient,
        /// The connector queried, counted from zero.
        connector_nr: usize,
    },
    /// Get the Alternate Modes that a connector supports now.
    GetCamSupported {
        /// The connector queried, counted from zero.
        connector_nr: usize,
    },
    /// Get the Alternate Modes that a connector operates in.
    GetCurrentCam {
        /// The connector queried, counted from zero.
        connector_nr: usize,
    },
    /// Get the Sink or Source PDOs of a connector or its partner.
    GetPdos {
        /// The connector queried, counted from zero.
        connector_nr: usize,
        /// Ask for the PDOs of the partner rather than of the connector.
        partner_pdo: bool,
        /// The offset of the first PDO returned.
        pdo_offset: u32,
        /// One less than the number of PDOs returned.
        nr_pdos: usize,
        /// Source or Sink PDOs.
        pdo_type: PdoType,
        /// Which Source capabilities.
        source_capabilities_type: PdoSourceCapabilitiesType,
    },
    /// Get the properties of the cable on a connector.
    GetCableProperty {
        /// The connector queried, counted from zero.
        connector_nr: usize,
    },
    /// Get the status of a connector.
    GetConnectorStatus {
        /// The connector queried, counted from zero.
        connector_nr: usize,
    },
    /// Get a PD message from a connector.
    GetPdMessage {
        /// The connector queried, counted from zero.
        connector_nr: u32,
        /// Where the message comes from.
        recipient: PdMessageRecipient,
        /// Which message.
        message_type: PdMessageResponseType,
    },
}

/// The 7-bit wire form of a connector number: one more than the number.
pub open spec fn connector_bits(connector_nr: nat) -> Seq<bool> {
    le_bits(connector_nr + 1, 7)
}

impl UcsiCommand {
    /// The command's opcode.
    pub open spec fn spec_cmd_number(self) -> nat {
        match self {
            UcsiCommand::GetCapability => 0x06,
            UcsiCommand::GetConnectorCapability { .. } => 0x07,
            UcsiCommand::GetAlternateModes { .. } => 0x0c,
            UcsiCommand::GetCamSupported { .. } => 0x0d,
            UcsiCommand::GetCurrentCam { .. } => 0x0e,
            UcsiCommand::GetPdos { .. } => 0x10,
            UcsiCommand::GetCableProperty { .. } => 0x11,
            UcsiCommand::GetConnectorStatus { .. } => 0x12,
            UcsiCommand::GetPdMessage { .. } => 0x15,
        }
    }

    /// The command's opcode.
    pub fn cmd_number(&self) -> (r: u32)
        ensures
            r as nat == self.spec_cmd_number(),
    {
        match self {
            UcsiCommand::GetCapability => 0x06,
            UcsiCommand::GetConnectorCapability { .. } => 0x07,
            UcsiCommand::GetAlternateModes { .. } => 0x0c,
            UcsiCommand::GetCamSupported { .. } => 0x0d,
            UcsiCommand::GetCurrentCam { .. } => 0xe,
            UcsiCommand::GetPdos { .. } => 0x10,
            UcsiCommand::GetCableProperty { .. } => 0x11,
            UcsiCommand::GetConnectorStatus { .. } => 0x12,
            UcsiCommand::GetPdMessage { .. } => 0x15,
        }
    }

    /// Every parameter fits in its field on the wire.
    pub open spec fn fits(self) -> bool {
        match self {
            UcsiCommand::GetCapability => true,
            UcsiCommand::GetConnectorCapability { connector_nr } => connector_nr + 1 < 128,
            UcsiCommand::GetAlternateModes { connector_nr, .. } => connector_nr + 1 < 128,
            UcsiCommand::GetCamSupported { connector_nr } => connector_nr + 1 < 128,
            UcsiCommand::GetCurrentCam { connector_nr } => connector_nr + 1 < 128,
            UcsiCommand::GetPdos { connector_nr, pdo_offset, nr_pdos, .. } => connector_nr + 1
                < 128 && pdo_offset < 256 && nr_pdos < 4,
            UcsiCommand::GetCableProperty { connector_nr } => connector_nr + 1 < 128,
            UcsiCommand::GetConnectorStatus { connector_nr } => connector_nr + 1 < 128,
            UcsiCommand::GetPdMessage { connector_nr, .. } => connector_nr + 1 < 128,
        }
    }

    /// The parameter block of the command.
    pub open spec fn spec_params(self) -> Seq<bool> {
        match self {
            UcsiCommand::GetCapability => Seq::empty(),
            UcsiCommand::GetConnectorCapability { connector_nr } => connector_bits(
                connector_nr as nat,
            ),
            UcsiCommand::GetAlternateModes { recipient, connector_nr } => le_bits(
                recipient.spec_code(),
                3,
            ) + zeros(5) + connector_bits(connector_nr as nat) + zeros(1),
            UcsiCommand::GetCamSupported { connector_nr } => connector_bits(connector_nr as nat),
            UcsiCommand::GetCurrentCam { connector_nr } => connector_bits(connector_nr as nat),
            UcsiCommand::GetPdos {
                connector_nr,
                partner_pdo,
                pdo_offset,
                nr_pdos,
                pdo_type,
                source_capabilities_type,
            } => connector_bits(connector_nr as nat) + le_bits(if partner_pdo { 1 } else { 0 }, 1)
                + le_bits(pdo_offset as nat, 8) + le_bits(nr_pdos as nat, 2) + le_bits(
                pdo_type.spec_code(),
                1,
            ) + le_bits(source_capabilities_type.spec_code(), 2),
            UcsiCommand::GetCableProperty { connector_nr } => connector_bits(connector_nr as nat),
            UcsiCommand::GetConnectorStatus { connector_nr } => connector_bits(connector_nr as nat),
            UcsiCommand::GetPdMessage { connector_nr, recipient, message_type } => connector_bits(
                connector_nr as nat,
            ) + le_bits(recipient.spec_code(), 3) + zeros(16) + le_bits(message_type.spec_code(), 6),
        }
    }

    /// The command on the wire before padding: opcode, a zero data length, then
    /// the parameters.
    pub open spec fn spec_wire(self) -> Seq<bool> {
        le_bits(self.spec_cmd_number(), 8) + zeros(8) + self.spec_params()
    }

    /// Writes the command: opcode byte, zero data-length byte, parameters, then
    /// zero bits up to the next byte boundary.
    pub fn to_bytes(&self, bw: &mut BitWriter) -> (r: Result<()>)
        ensures
            r is Ok <==> self.fits(),
            r is Err ==> r->Err_0 is IoError,
            r is Ok ==> written_bits(*final(bw)) == written_bits(*old(bw)) + self.spec_wire()
                + padding(written_bits(*old(bw)).len() + self.spec_wire().len()),
    {
        let ghost w0 = written_bits(*bw);
        proof {
            lemma2_to64();
        }
        put_bits(bw, 8, self.cmd_number())?;
        put_bits(bw, 8, 0)?;
        proof {
            lemma_zero_bits(8);
        }
        match self {
            UcsiCommand::GetCapability => {},
            UcsiCommand::GetConnectorCapability { connector_nr } => {
                put_bits(bw, 7, wire_connector(*connector_nr))?;
            },
            UcsiCommand::GetAlternateModes { recipient, connector_nr } => {
                put_bits(bw, 3, recipient.code())?;
                put_zeros(bw, 5)?;
                put_bits(bw, 7, wire_connector(*connector_nr))?;
                put_zeros(bw, 1)?;
            },
            UcsiCommand::GetCamSupported { connector_nr } => {
                put_bits(bw, 7, wire_connector(*connector_nr))?;
            },
            UcsiCommand::GetCurrentCam { connector_nr } => {
                put_bits(bw, 7, wire_connector(*connector_nr))?;
            },
            UcsiCommand::GetPdos {
                connector_nr,
                partner_pdo,
                pdo_offset,
                nr_pdos,
                pdo_type,
                source_capabilities_type,
            } => {
                put_bits(bw, 7, wire_connector(*connector_nr))?;
                put_bits(bw, 1, if *partner_pdo { 1 } else { 0 })?;
                put_bits(bw, 8, *pdo_offset)?;
                let nr: u32 = if *nr_pdos < 4 { *nr_pdos as u32 } else { 4 };
                put_bits(bw, 2, nr)?;
                put_bits(bw, 1, pdo_type.code())?;
                put_bits(bw, 2, source_capabilities_type.code())?;
            },
            UcsiCommand::GetCableProperty { connector_nr } => {
                put_bits(bw, 7, wire_connector(*connector_nr))?;
            },
            UcsiCommand::GetConnectorStatus { connector_nr } => {
                put_bits(bw, 7, wire_connector(*connector_nr))?;
            },
            UcsiCommand::GetPdMessage { connector_nr, recipient, message_type } => {
                put_bits(bw, 7, wire_connector(*connector_nr as usize))?;
                put_bits(bw, 3, recipient.code())?;
                put_zeros(bw, 16)?;
                put_bits(bw, 6, message_type.code())?;
            },
        }
        let ghost w1 = written_bits(*bw);
        proof {
            assert(w1 =~= w0 + self.spec_wire());
        }
        align(bw)?;
        Ok(())
    }
}

/// The wire value of a connector number, one more than the number; a number
/// too large for the 7-bit field gives a value that the field refuses.
fn wire_connector(connector_nr: usize) -> (r: u32)
    ensures
        connector_nr + 1 < 128 ==> r as nat == connector_nr + 1,
        connector_nr + 1 >= 128 ==> r >= 128,
{
    if connector_nr < 127 {
        connector_nr as u32 + 1
    } else {
        128
    }
}

/// Writes `n` zero bits.
fn put_zeros(bw: &mut BitWriter, n: u32) -> (r: Result<()>)
    requires
        1 <= n <= 32,
    ensures
        r is Ok,
        written_bits(*final(bw)) == written_bits(*old(bw)) + zeros(n as nat),
{
    proof {
        lemma_pow2_pos(n as nat);
        lemma_zero_bits(n as nat);
    }
    put_bits(bw, n, 0)
}


/// A PD message returned by GET_PD_MESSAGE.
#[derive(Debug, Clone, Copy, PartialEq, Eq)]
pub enum PdMessage {
    /// Sink Capabilities Extended (Extended Message).
    Pd3p2SinkCapabilitiesExtended(SinkCapabilitiesExtended),
    /// Source Capabilities Extended (Extended Message).
    Pd3p2SourceCapabilitiesExtended(SourceCapabilitiesExtended),
    /// Battery Capabilities (Extended Message).
    Pd3p2BatteryCapabilities(BatteryCapData),
    /// Battery Status (Data Message).
    Pd3p2BatteryStatus(BatteryStatusData),
    /// Discover Identity response (Structured VDM).
    Pd3p2DiscoverIdentityResponse(DiscoverIdentityResponse),
    /// Revision (Data Message).
    Pd3p2Revision(RevisionMessageData),
}

impl PdMessage {
    /// The outcome of decoding a message of type `t` from the front of `s`,
    /// for the five types whose decoding involves no vendor lookup; the
    /// contract of `from_bytes` states the two others.
    pub open spec fn spec_from_bits(s: Seq<bool>, t: PdMessageResponseType) -> core::result::Result<
        Self,
        Fault,
    > {
        match t {
            PdMessageResponseType::SinkCapabilitiesExtended => match SinkCapabilitiesExtended::spec_from_bits(s) {
                Ok(v) => Ok(PdMessage::Pd3p2SinkCapabilitiesExtended(v)),
                Err(f) => Err(f),
            },
            PdMessageResponseType::SourceCapabilitiesExtended => match SourceCapabilitiesExtended::spec_from_bits(s) {
                Ok(v) => Ok(PdMessage::Pd3p2SourceCapabilitiesExtended(v)),
                Err(f) => Err(f),
            },
            PdMessageResponseType::BatteryCapabilities => match BatteryCapData::spec_from_bits(s) {
                Ok(v) => Ok(PdMessage::Pd3p2BatteryCapabilities(v)),
                Err(f) => Err(f),
            },
            PdMessageResponseType::BatteryStatus => match BatteryStatusData::spec_from_bits(s) {
                Ok(v) => Ok(PdMessage::Pd3p2BatteryStatus(v)),
                Err(f) => Err(f),
            },
            PdMessageResponseType::Revision => match RevisionMessageData::spec_from_bits(s) {
                Ok(v) => Ok(PdMessage::Pd3p2Revision(v)),
                Err(f) => Err(f),
            },
            _ => Err(Fault::Truncated),
        }
    }

    /// Decodes the response to GET_PD_MESSAGE for message type `message_type`.
    /// A Discover Identity response takes its vendor name from `lookup`; the
    /// reserved type is not supported.
    pub fn from_bytes<F: Fn(u16) -> Option<String>>(
        reader: &mut BitReader,
        message_type: PdMessageResponseType,
        lookup: F,
    ) -> (r: Result<Self>)
        requires
            forall|v: u16| lookup.requires((v,)),
        ensures
            message_type is Reserved ==> r is Err && r->Err_0 is NotSupported,
            message_type is DiscoverIdentity ==> {
                let s = unread_bits(*old(reader));
                &&& DiscoverIdentityResponse::spec_fault(s) is Some ==> r is Err && reports(
                    r->Err_0,
                    DiscoverIdentityResponse::spec_fault(s)->0,
                )
                &&& DiscoverIdentityResponse::spec_fault(s) is None ==> r is Ok && exists|
                    found: Option<String>,
                |
                    #[trigger] lookup.ensures(
                        (word_field(field(s, 32, 32) as u32, 0, 0xffff) as u16,),
                        found,
                    ) && (r->Ok_0 matches PdMessage::Pd3p2DiscoverIdentityResponse(d)
                        && d.decoded_from(s, vendor_name_of(found)))
            },
            !(message_type is Reserved) && !(message_type is DiscoverIdentity) ==> outcome_is(
                r,
                Self::spec_from_bits(unread_bits(*old(reader)), message_type),
            ),
    {
        match message_type {
            PdMessageResponseType::SinkCapabilitiesExtended => {
                let v = SinkCapabilitiesExtended::from_bytes(reader)?;
                Ok(PdMessage::Pd3p2SinkCapabilitiesExtended(v))
            },
            PdMessageResponseType::SourceCapabilitiesExtended => {
                let v = SourceCapabilitiesExtended::from_bytes(reader)?;
                Ok(PdMessage::Pd3p2SourceCapabilitiesExtended(v))
            },
            PdMessageResponseType::BatteryCapabilities => {
                let v = BatteryCapData::from_bytes(reader)?;
                Ok(PdMessage::Pd3p2BatteryCapabilities(v))
            },
            PdMessageResponseType::BatteryStatus => {
                let v = BatteryStatusData::from_bytes(reader)?;
                Ok(PdMessage::Pd3p2BatteryStatus(v))
            },
            PdMessageResponseType::DiscoverIdentity => {
                let v = DiscoverIdentityResponse::from_bytes(reader, lookup)?;
                Ok(PdMessage::Pd3p2DiscoverIdentityResponse(v))
            },
            PdMessageResponseType::Revision => {
                let v = RevisionMessageData::from_bytes(reader)?;
                Ok(PdMessage::Pd3p2Revision(v))
            },
            PdMessageResponseType::Reserved => Err(Error::NotSupported),
        }
    }
}


impl FromBytes for ConnectorStatusChange {
    fn from_bytes(bit_reader: &mut BitReader) -> Result<Self> {
        ConnectorStatusChange::from_bytes(bit_reader)
    }
}

impl FromBytes for UcsiConnectorStatus {
    fn from_bytes(bit_reader: &mut BitReader) -> Result<Self> {
        UcsiConnectorStatus::from_bytes(bit_reader)
    }
}

impl FromBytes for UcsiBmPowerSource {
    fn from_bytes(bit_reader: &mut BitReader) -> Result<Self> {
        UcsiBmPowerSource::from_bytes(bit_reader)
    }
}

impl FromBytes for UcsiBmAttributes {
    fn from_bytes(bit_reader: &mut BitReader) -> Result<Self> {
        UcsiBmAttributes::from_bytes(bit_reader)
    }
}

impl FromBytes for UcsiBmOptionalFeatures {
    fn from_bytes(bit_reader: &mut BitReader) -> Result<Self> {
        UcsiBmOptionalFeatures::from_bytes(bit_reader)
    }
}

impl FromBytes for UcsiCapability {
    fn from_bytes(bit_reader: &mut BitReader) -> Result<Self> {
        UcsiCapability::from_bytes(bit_reader)
    }
}

impl FromBytes for UcsiCableProperty {
    fn from_bytes(bit_reader: &mut BitReader) -> Result<Self> {
        UcsiCableProperty::from_bytes(bit_reader)
    }
}

impl FromBytes for UcsiConnectorCapability {
    fn from_bytes(bit_reader: &mut BitReader) -> Result<Self> {
        UcsiConnectorCapability::from_bytes(bit_reader)
    }
}

impl FromBytes for UcsiAlternateMode {
    fn from_bytes(bit_reader: &mut BitReader) -> Result<Self> {
        UcsiAlternateMode::from_bytes(bit_reader)
    }
}

impl ToBytes for UcsiCommand {
    fn to_bytes(&self, bit_writer: &mut BitWriter) -> Result<()> {
        UcsiCommand::to_bytes(self, bit_writer)
    }
}

} // verus!
