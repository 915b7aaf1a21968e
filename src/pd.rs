//! USB Power Delivery data: Power Data Objects, VDM headers and messages.

use vstd::prelude::*;

pub mod pd3p2;

use vstd::arithmetic::power2::lemma2_to64;

use crate::bitstream::field;
use crate::bitstream::le_bits;
use crate::bitstream::lemma_le_bits_value;
use crate::bitstream::put_bits;
use crate::bitstream::written_bits;
use crate::bitstream::BitWriter;
use crate::bitstream::get_field;
use crate::bitstream::word_field;
use crate::bitstream::take_bits;
use crate::bitstream::unread_bits;
use crate::bitstream::BitReader;
use crate::outcome_is;
use crate::pd::pd3p2::lemma_battery_round_trip;
use crate::pd::pd3p2::lemma_fixed_round_trip;
use crate::pd::pd3p2::lemma_programmable_round_trip;
use crate::pd::pd3p2::lemma_variable_round_trip;
use crate::pd::pd3p2::BatteryCapData;
use crate::pd::pd3p2::BatteryStatusData;
use crate::pd::pd3p2::BatterySupplyPdo;
use crate::pd::pd3p2::DiscoverIdentityResponse;
use crate::pd::pd3p2::RevisionMessageData;
use crate::pd::pd3p2::SinkCapabilitiesExtended;
use crate::pd::pd3p2::SourceCapabilitiesExtended;
use crate::pd::pd3p2::FixedSupplyPdo;
use crate::pd::pd3p2::SprProgrammableSupplyPdo;
use crate::pd::pd3p2::VariableSupplyPdo;
use crate::BcdWrapper;
use crate::Error;
use crate::Fault;
use crate::Result;
use crate::ToBytes;

verus! {

/// A Power Data Object, one of four kinds selected by the top two bits of its word.
#[derive(Debug, Clone, Copy, PartialEq, Eq, Structural)]
pub enum Pdo {
    Pd3p2FixedSupplyPdo(FixedSupplyPdo),
    Pd3p2BatterySupplyPdo(BatterySupplyPdo),
    Pd3p2VariableSupplyPdo(VariableSupplyPdo),
    Pd3p2AugmentedPdo(SprProgrammableSupplyPdo),
}

/// The protocol revision, in BCD, at which the PDO layouts here are defined;
/// a PDO at any other revision is refused.
pub const PDO_REVISION: u32 = 0x310;

impl Pdo {
    /// The outcome of decoding the 32-bit PDO word `w` at protocol revision `revision`.
    pub open spec fn spec_from_word(w: u32, revision: u32) -> core::result::Result<Self, Fault> {
        if revision != PDO_REVISION {
            Err(Fault::Unsupported { revision })
        } else if w >> 30u32 == 0 {
            match FixedSupplyPdo::spec_from_word(w) {
                Ok(p) => Ok(Pdo::Pd3p2FixedSupplyPdo(p)),
                Err(f) => Err(f),
            }
        } else if w >> 30u32 == 1 {
            Ok(Pdo::Pd3p2BatterySupplyPdo(BatterySupplyPdo::spec_from_word(w)))
        } else if w >> 30u32 == 2 {
            Ok(Pdo::Pd3p2VariableSupplyPdo(VariableSupplyPdo::spec_from_word(w)))
        } else if w >> 30u32 == 3 {
            Ok(Pdo::Pd3p2AugmentedPdo(SprProgrammableSupplyPdo::spec_from_word(w)))
        } else {
            Err(Fault::Invalid { field: "pdo_type"@, value: w >> 30u32 })
        }
    }

    /// The outcome of decoding a PDO from the front of the bit sequence `s`.
    pub open spec fn spec_from_bits(s: Seq<bool>, revision: u32) -> core::result::Result<
        Self,
        Fault,
    > {
        if revision != PDO_REVISION {
            Err(Fault::Unsupported { revision })
        } else if s.len() < 32 {
            Err(Fault::Truncated)
        } else {
            Self::spec_from_word(field(s, 0, 32) as u32, revision)
        }
    }

    /// Decodes a 32-bit PDO word at protocol revision `revision`.
    pub fn from_word(w: u32, revision: BcdWrapper) -> (r: Result<Self>)
        ensures
            outcome_is(r, Self::spec_from_word(w, revision.0)),
    {
        if revision.0 != PDO_REVISION {
            return Err(Error::UnsupportedUsbRevision { revision });
        }
        let pdo_type = w >> 30;
        if pdo_type == 0 {
            let pdo = FixedSupplyPdo::from_word(w)?;
            Ok(Pdo::Pd3p2FixedSupplyPdo(pdo))
        } else if pdo_type == 1 {
            Ok(Pdo::Pd3p2BatterySupplyPdo(BatterySupplyPdo::from_word(w)))
        } else if pdo_type == 2 {
            Ok(Pdo::Pd3p2VariableSupplyPdo(VariableSupplyPdo::from_word(w)))
        } else if pdo_type == 3 {
            Ok(Pdo::Pd3p2AugmentedPdo(SprProgrammableSupplyPdo::from_word(w)))
        } else {
            Err(Error::ParseError { field: "pdo_type".to_string(), value: pdo_type })
        }
    }

    /// Decodes a PDO from the next 32 bits of `reader` at protocol revision
    /// `revision`. An unsupported revision is refused before any bit is read.
    pub fn from_bytes(reader: &mut BitReader, revision: BcdWrapper) -> (r: Result<Self>)
        ensures
            outcome_is(r, Self::spec_from_bits(unread_bits(*old(reader)), revision.0)),
            r is Ok ==> unread_bits(*final(reader)) == unread_bits(*old(reader)).skip(32),
            revision.0 != PDO_REVISION ==> unread_bits(*final(reader)) == unread_bits(
                *old(reader),
            ),
    {
        if revision.0 != PDO_REVISION {
            return Err(Error::UnsupportedUsbRevision { revision });
        }
        let ghost s = unread_bits(*reader);
        proof {
            assert(s.skip(0) =~= s);
        }
        let word = take_bits(reader, 32, Ghost(s), Ghost(0))?;
        Self::from_word(word, revision)
    }

    /// Every quantity of the PDO is a whole number of its wire unit and fits its field.
    pub open spec fn wf(self) -> bool {
        match self {
            Pdo::Pd3p2FixedSupplyPdo(p) => p.wf(),
            Pdo::Pd3p2BatterySupplyPdo(p) => p.wf(),
            Pdo::Pd3p2VariableSupplyPdo(p) => p.wf(),
            Pdo::Pd3p2AugmentedPdo(p) => p.wf(),
        }
    }

    /// The 32-bit word of the PDO.
    pub open spec fn spec_to_word(self) -> u32 {
        match self {
            Pdo::Pd3p2FixedSupplyPdo(p) => p.spec_to_word(),
            Pdo::Pd3p2BatterySupplyPdo(p) => p.spec_to_word(),
            Pdo::Pd3p2VariableSupplyPdo(p) => p.spec_to_word(),
            Pdo::Pd3p2AugmentedPdo(p) => p.spec_to_word(),
        }
    }

    /// Encodes the PDO into its 32-bit word.
    pub fn to_word(&self) -> (r: u32)
        ensures
            r == self.spec_to_word(),
    {
        match self {
            Pdo::Pd3p2FixedSupplyPdo(p) => p.to_word(),
            Pdo::Pd3p2BatterySupplyPdo(p) => p.to_word(),
            Pdo::Pd3p2VariableSupplyPdo(p) => p.to_word(),
            Pdo::Pd3p2AugmentedPdo(p) => p.to_word(),
        }
    }
}

impl Pdo {
    /// Writes the PDO's 32-bit word, least significant bit first.
    pub fn to_bytes(&self, bw: &mut BitWriter) -> (r: Result<()>)
        ensures
            r is Ok,
            written_bits(*final(bw)) == written_bits(*old(bw)) + le_bits(
                self.spec_to_word() as nat,
                32,
            ),
    {
        put_bits(bw, 32, self.to_word())
    }
}

impl ToBytes for Pdo {
    fn to_bytes(&self, bit_writer: &mut BitWriter) -> Result<()> {
        Pdo::to_bytes(self, bit_writer)
    }
}

/// Round trip: at the supported revision, decoding the word of any
/// well-formed PDO gives back that PDO.
pub proof fn lemma_pdo_round_trip(p: Pdo)
    requires
        p.wf(),
    ensures
        Pdo::spec_from_word(p.spec_to_word(), PDO_REVISION) == Ok::<Pdo, Fault>(p),
{
    match p {
        Pdo::Pd3p2FixedSupplyPdo(q) => lemma_fixed_round_trip(q),
        Pdo::Pd3p2BatterySupplyPdo(q) => lemma_battery_round_trip(q),
        Pdo::Pd3p2VariableSupplyPdo(q) => lemma_variable_round_trip(q),
        Pdo::Pd3p2AugmentedPdo(q) => lemma_programmable_round_trip(q),
    }
}

/// Round trip through the bit stream: at the supported revision, the bits
/// that `to_bytes` writes for a well-formed PDO read back as that PDO,
/// whatever follows them.
pub proof fn lemma_pdo_stream_round_trip(p: Pdo, rest: Seq<bool>)
    requires
        p.wf(),
    ensures
        Pdo::spec_from_bits(le_bits(p.spec_to_word() as nat, 32) + rest, PDO_REVISION) == Ok::<
            Pdo,
            Fault,
        >(p),
{
    let w = p.spec_to_word();
    let s = le_bits(w as nat, 32) + rest;
    assert(s.subrange(0, 32) =~= le_bits(w as nat, 32));
    lemma2_to64();
    lemma_le_bits_value(w as nat, 32);
    lemma_pdo_round_trip(p);
}

/// At any revision other than the supported one, decoding a PDO fails with
/// that revision and reads nothing, whatever the stream holds.
pub proof fn lemma_pdo_unsupported_revision(s: Seq<bool>, revision: u32)
    requires
        revision != PDO_REVISION,
    ensures
        Pdo::spec_from_bits(s, revision) == Err::<Pdo, Fault>(Fault::Unsupported { revision }),
{
}


/// The type of a structured VDM command.
#[derive(Debug, Clone, Copy, PartialEq, Eq, Structural, Default)]
pub enum CommandType {
    /// A request from the initiator.
    #[default]
    Request,
    /// An acknowledgement from the responder.
    Ack,
    /// A negative acknowledgement from the responder.
    Nak,
    /// A busy response from the responder.
    Busy,
}

impl CommandType {
    /// The member whose wire code is `v`, for `v` below the number of members.
    pub open spec fn from_code(v: nat) -> Self {
        if v == 0 {
            Self::Request
        } else if v == 1 {
            Self::Ack
        } else if v == 2 {
            Self::Nak
        } else {
            Self::Busy
        }
    }

    /// The member with wire code `value`, if there is one.
    pub fn n(value: u32) -> (r: Option<Self>)
        ensures
            r == (if value < 4 { Some(Self::from_code(value as nat)) } else { None::<Self> }),
    {
        match value {
            0 => Some(Self::Request),
            1 => Some(Self::Ack),
            2 => Some(Self::Nak),
            3 => Some(Self::Busy),
            _ => None,
        }
    }
}

/// The recipient of a PD message request.
#[derive(Debug, Clone, Copy, PartialEq, Eq, Structural, Default)]
pub enum PdMessageRecipient {
    /// The identified connector.
    #[default]
    Connector,
    /// The port partner of the identified connector.
    Sop,
    /// The cable plug of the identified connector.
    SopPrime,
    /// The far cable plug of the identified connector.
    SopDoublePrime,
}

impl PdMessageRecipient {
    /// The member whose wire code is `v`, for `v` below the number of members.
    pub open spec fn from_code(v: nat) -> Self {
        if v == 0 {
            Self::Connector
        } else if v == 1 {
            Self::Sop
        } else if v == 2 {
            Self::SopPrime
        } else {
            Self::SopDoublePrime
        }
    }

    /// The member with wire code `value`, if there is one.
    pub fn n(value: u32) -> (r: Option<Self>)
        ensures
            r == (if value < 4 { Some(Self::from_code(value as nat)) } else { None::<Self> }),
    {
        match value {
            0 => Some(Self::Connector),
            1 => Some(Self::Sop),
            2 => Some(Self::SopPrime),
            3 => Some(Self::SopDoublePrime),
            _ => None,
        }
    }
}

/// The type of a PD response message.
#[derive(Debug, Clone, Copy, PartialEq, Eq, Structural, Default)]
pub enum PdMessageResponseType {
    /// Sink Capabilities Extended (Extended Message).
    #[default]
    SinkCapabilitiesExtended,
    /// Source Capabilities Extended (Extended Message).
    SourceCapabilitiesExtended,
    /// Battery Capabilities (Extended Message).
    BatteryCapabilities,
    /// Battery Status (Data Message).
    BatteryStatus,
    /// Discover Identity response (Structured VDM).
    DiscoverIdentity,
    /// Revision (Data Message).
    Revision,
    /// Reserved values.
    Reserved,
}

impl PdMessageResponseType {
    /// The member whose wire code is `v`, for `v` below the number of members.
    pub open spec fn from_code(v: nat) -> Self {
        if v == 0 {
            Self::SinkCapabilitiesExtended
        } else if v == 1 {
            Self::SourceCapabilitiesExtended
        } else if v == 2 {
            Self::BatteryCapabilities
        } else if v == 3 {
            Self::BatteryStatus
        } else if v == 4 {
            Self::DiscoverIdentity
        } else if v == 5 {
            Self::Revision
        } else {
            Self::Reserved
        }
    }

    /// The member with wire code `value`, if there is one.
    pub fn n(value: u32) -> (r: Option<Self>)
        ensures
            r == (if value < 7 { Some(Self::from_code(value as nat)) } else { None::<Self> }),
    {
        match value {
            0 => Some(Self::SinkCapabilitiesExtended),
            1 => Some(Self::SourceCapabilitiesExtended),
            2 => Some(Self::BatteryCapabilities),
            3 => Some(Self::BatteryStatus),
            4 => Some(Self::DiscoverIdentity),
            5 => Some(Self::Revision),
            6 => Some(Self::Reserved),
            _ => None,
        }
    }
}


/// A structured VDM command.
#[derive(Debug, Clone, Copy, PartialEq, Eq, Structural, Default)]
pub enum Command {
    /// Discover Identity (wire code 1).
    #[default]
    DiscoverIdentity,
    /// Discover SVIDs (wire code 2).
    DiscoverSVIDs,
    /// Discover Modes (wire code 3).
    DiscoverModes,
    /// Enter Mode (wire code 4).
    EnterMode,
    /// Exit Mode (wire code 5).
    ExitMode,
    /// Attention (wire code 6).
    Attention,
    /// A command of the SVID (wire codes 16 to 31).
    SVIDSpecific,
}

impl Command {
    /// The command with wire code `v`, if there is one.
    pub open spec fn spec_from_wire(v: u32) -> Option<Self> {
        if v == 1 {
            Some(Command::DiscoverIdentity)
        } else if v == 2 {
            Some(Command::DiscoverSVIDs)
        } else if v == 3 {
            Some(Command::DiscoverModes)
        } else if v == 4 {
            Some(Command::EnterMode)
        } else if v == 5 {
            Some(Command::ExitMode)
        } else if v == 6 {
            Some(Command::Attention)
        } else if 16 <= v <= 31 {
            Some(Command::SVIDSpecific)
        } else {
            None
        }
    }

    /// The command with wire code `value`, if there is one.
    pub fn from_wire(value: u32) -> (r: Option<Self>)
        ensures
            r == Self::spec_from_wire(value),
    {
        if value == 1 {
            Some(Command::DiscoverIdentity)
        } else if value == 2 {
            Some(Command::DiscoverSVIDs)
        } else if value == 3 {
            Some(Command::DiscoverModes)
        } else if value == 4 {
            Some(Command::EnterMode)
        } else if value == 5 {
            Some(Command::ExitMode)
        } else if value == 6 {
            Some(Command::Attention)
        } else if 16 <= value && value <= 31 {
            Some(Command::SVIDSpecific)
        } else {
            None
        }
    }
}

/// The header of a structured VDM.
#[derive(Debug, Clone, Copy, PartialEq, Eq, Structural, Default)]
pub struct VdmHeader {
    /// The VDM is structured.
    pub structured: bool,
    /// The major version of the structured VDM.
    pub major: u8,
    /// The minor version of the structured VDM.
    pub minor: u8,
    /// For Enter Mode, Exit Mode and Attention, the position of the Mode's
    /// VDO (0b111 to exit every Mode); zero otherwise.
    pub object_position: u8,
    /// The command type.
    pub command_type: CommandType,
    /// The command.
    pub command: Command,
}

impl VdmHeader {
    /// The outcome of decoding the low 16 bits of `w`.
    pub open spec fn spec_from_word(w: u32) -> core::result::Result<Self, Fault> {
        if word_field(w, 6, 3) >= 4 {
            Err(Fault::Invalid { field: "command_type"@, value: word_field(w, 6, 3) })
        } else if Command::spec_from_wire(word_field(w, 0, 0x1f)) is None {
            Err(Fault::Invalid { field: "command"@, value: word_field(w, 0, 0x1f) })
        } else {
            Ok(
                VdmHeader {
                    structured: word_field(w, 15, 1) == 1,
                    major: word_field(w, 13, 3) as u8,
                    minor: word_field(w, 11, 3) as u8,
                    object_position: word_field(w, 8, 7) as u8,
                    command_type: CommandType::from_code(word_field(w, 6, 3) as nat),
                    command: Command::spec_from_wire(word_field(w, 0, 0x1f))->0,
                },
            )
        }
    }

    /// Decodes a structured VDM header from its word.
    pub fn from_word(w: u32) -> (r: Result<Self>)
        ensures
            outcome_is(r, Self::spec_from_word(w)),
    {
        let command_type_value = get_field(w, 6, 3);
        let command_type = match CommandType::n(command_type_value) {
            Some(v) => v,
            None => {
                return Err(
                    Error::ParseError { field: "command_type".to_string(), value: command_type_value },
                );
            },
        };
        let command_value = get_field(w, 0, 0x1f);
        let command = match Command::from_wire(command_value) {
            Some(v) => v,
            None => {
                return Err(Error::ParseError { field: "command".to_string(), value: command_value });
            },
        };
        Ok(
            VdmHeader {
                structured: get_field(w, 15, 1) == 1,
                major: get_field(w, 13, 3) as u8,
                minor: get_field(w, 11, 3) as u8,
                object_position: get_field(w, 8, 7) as u8,
                command_type,
                command,
            },
        )
    }
}


/// A USB PD message.
#[derive(Debug, Clone, Copy, PartialEq, Eq)]
pub enum Message {
    /// Sink Capabilities Extended (Extended Message).
    Pd3p2SinkCapabilitiesExtended(SinkCapabilitiesExtended),
    /// Source Capabilities Extended (Extended Message).
    Pd3p2SourceCapabilitiesExtended(SourceCapabilitiesExtended),
    /// Battery Capabilities (Extended Message).
    Pd3p2BatteryCapabilities(BatteryCapData),
    /// Battery Status (Data Message).
    Pd3p2BatteryStatus(BatteryStatusData),
    /// Discover Identity response (Structured VDM).
    Pd3p2DiscoverIdentityResponse(DiscoverIdentityResponse),
    /// Revision (Data Message).
    Pd3p2Revision(RevisionMessageData),
}

} // verus!
