//! Decoding and encoding of USB Type-C / USB Power Delivery platform state:
//! UCSI commands and responses, Power Data Objects and Vendor Data Objects,
//! read from and written to little-endian bit streams.

use vstd::prelude::*;
use vstd::string::StrSliceExecFns;
use vstd::string::StringExecFns;

pub mod backends;
pub mod bitstream;
pub mod pd;
pub mod ucsi;
pub mod vdo;

pub use bitstream::BitReader;
pub use bitstream::BitWriter;

verus! {

/// An error of the library.
#[derive(Debug)]
#[allow(inconsistent_fields)]
pub enum Error {
    /// An operating-system call failed with this error number.
    NixError { errno: i32 },
    /// The bit stream failed, most often because it ended early.
    IoError { source: std::io::Error },
    /// The operation is valid in the protocol but not supported here.
    NotSupported,
    /// A field held a value that the field does not define.
    ParseError { field: String, value: u32 },
    /// A textual field held text that the field does not define.
    ParseStringError { field: String, value: String },
    /// Bytes that were required to be UTF-8 were not.
    Utf8Error { valid_up_to: usize },
    /// No response came in time.
    TimeoutError,
    /// The structure is not defined for this protocol revision.
    UnsupportedUsbRevision { revision: BcdWrapper },
    /// A string that was required to hold no NUL byte held one.
    NulError { position: usize },
    /// Walking a directory failed.
    DirError { message: String },
}

pub type Result<T> = core::result::Result<T, Error>;

/// A value that can be written to a bit stream.
pub trait ToBytes {
    /// Writes the value.
    fn to_bytes(&self, bit_writer: &mut BitWriter) -> Result<()>;
}

/// A value that can be read from a bit stream.
pub trait FromBytes: Sized {
    /// Reads a value.
    fn from_bytes(bit_reader: &mut BitReader) -> Result<Self>;
}

/// A platform backend that reports the state of the USB Type-C ports.
pub trait OsBackend {
    fn capabilities(&mut self) -> Result<ucsi::UcsiCapability>;

    fn connector_capabilties(&mut self, connector_nr: usize) -> Result<ucsi::UcsiConnectorCapability>;

    fn alternate_modes(
        &mut self,
        recipient: ucsi::GetAlternateModesRecipient,
        connector_nr: usize,
    ) -> Result<Vec<ucsi::UcsiAlternateMode>>;

    fn cable_properties(&mut self, connector_nr: usize) -> Result<ucsi::UcsiCableProperty>;

    fn connector_status(&mut self, connector_nr: usize) -> Result<ucsi::UcsiConnectorStatus>;

    fn pd_message(
        &mut self,
        connector_nr: usize,
        recipient: ucsi::PdMessageRecipient,
        response_type: ucsi::PdMessageResponseType,
    ) -> Result<ucsi::PdMessage>;

    fn pdos(
        &mut self,
        connector_nr: usize,
        partner_pdo: bool,
        pdo_offset: u32,
        nr_pdos: usize,
        src_or_sink_pdos: ucsi::PdoType,
        pdo_type: ucsi::PdoSourceCapabilitiesType,
        revision: BcdWrapper,
    ) -> Result<Vec<pd::Pdo>>;
}

/// A decode failure, stated over plain values.
pub enum Fault {
    /// The stream ended before the structure did.
    Truncated,
    /// The named field held a value outside its closed set.
    Invalid { field: Seq<char>, value: u32 },
    /// The structure is not defined for this revision.
    Unsupported { revision: u32 },
}

/// `e` is the error that reports `f`.
pub open spec fn reports(e: Error, f: Fault) -> bool {
    match f {
        Fault::Truncated => e is IoError,
        Fault::Invalid { field, value } => match e {
            Error::ParseError { field: ef, value: ev } => ef@ == field && ev == value,
            _ => false,
        },
        Fault::Unsupported { revision } => match e {
            Error::UnsupportedUsbRevision { revision: r } => r.0 == revision,
            _ => false,
        },
    }
}

/// `r` is the outcome that `expected` describes.
pub open spec fn outcome_is<T>(r: Result<T>, expected: core::result::Result<T, Fault>) -> bool {
    match expected {
        Ok(v) => r is Ok && r->Ok_0 == v,
        Err(f) => r is Err && reports(r->Err_0, f),
    }
}

/// A 16-bit Binary-Coded Decimal version: the high byte is the major
/// number and the low byte the minor number, each as two decimal digits.
#[derive(Clone, Copy, PartialEq, Eq, Structural, Debug, Default)]
pub struct BcdWrapper(pub u32);

/// A voltage in millivolts.
#[derive(Clone, Copy, PartialEq, Eq, Structural, Debug, Default)]
pub struct Millivolt(pub u32);

/// A current in milliamperes.
#[derive(Clone, Copy, PartialEq, Eq, Structural, Debug, Default)]
pub struct Milliamp(pub u32);

/// A power in milliwatts.
#[derive(Clone, Copy, PartialEq, Eq, Structural, Debug, Default)]
pub struct Milliwatt(pub u32);

/// A resistance in milliohms.
#[derive(Clone, Copy, PartialEq, Eq, Structural, Debug, Default)]
pub struct MilliOhm(pub u32);

impl From<u32> for Millivolt {
    fn from(val: u32) -> Self {
        Millivolt(val)
    }
}

impl vstd::std_specs::convert::FromSpecImpl<u32> for Millivolt {
    open spec fn obeys_from_spec() -> bool {
        true
    }

    open spec fn from_spec(v: u32) -> Self {
        Millivolt(v)
    }
}

impl From<u32> for Milliamp {
    fn from(val: u32) -> Self {
        Milliamp(val)
    }
}

impl vstd::std_specs::convert::FromSpecImpl<u32> for Milliamp {
    open spec fn obeys_from_spec() -> bool {
        true
    }

    open spec fn from_spec(v: u32) -> Self {
        Milliamp(v)
    }
}

impl From<u32> for Milliwatt {
    fn from(val: u32) -> Self {
        Milliwatt(val)
    }
}

impl vstd::std_specs::convert::FromSpecImpl<u32> for Milliwatt {
    open spec fn obeys_from_spec() -> bool {
        true
    }

    open spec fn from_spec(v: u32) -> Self {
        Milliwatt(v)
    }
}

impl From<u32> for MilliOhm {
    fn from(val: u32) -> Self {
        MilliOhm(val)
    }
}

impl vstd::std_specs::convert::FromSpecImpl<u32> for MilliOhm {
    open spec fn obeys_from_spec() -> bool {
        true
    }

    open spec fn from_spec(v: u32) -> Self {
        MilliOhm(v)
    }
}

/// The digit `d` in base 16, lower case, for `d` below 16.
pub open spec fn hex_digit(d: nat) -> char {
    seq!['0', '1', '2', '3', '4', '5', '6', '7', '8', '9', 'a', 'b', 'c', 'd', 'e', 'f'][d as int]
}

/// A number below 256 in base 16, without leading zeros.
pub open spec fn hex_text(b: nat) -> Seq<char> {
    if b < 16 {
        seq![hex_digit(b)]
    } else {
        seq![hex_digit(b / 16), hex_digit(b % 16)]
    }
}

/// A number in base 10, without leading zeros.
pub open spec fn decimal_text(n: nat) -> Seq<char>
    decreases n,
{
    if n < 10 {
        seq![hex_digit(n)]
    } else {
        decimal_text(n / 10) + seq![hex_digit(n % 10)]
    }
}

/// Appends the digit `d`.
fn push_digit(s: &mut String, d: u32)
    requires
        d < 16,
    ensures
        final(s)@ == old(s)@ + seq![hex_digit(d as nat)],
{
    let digits = "0123456789abcdef";
    proof {
        reveal_strlit("0123456789abcdef");
    }
    let digit = digits.substring_char(d as usize, d as usize + 1);
    assert(digit@ =~= seq![hex_digit(d as nat)]);
    s.append(digit);
}

/// Appends a number below 256 in base 16.
fn push_hex(s: &mut String, b: u32)
    requires
        b < 256,
    ensures
        final(s)@ == old(s)@ + hex_text(b as nat),
{
    if b < 16 {
        push_digit(s, b);
    } else {
        push_digit(s, b / 16);
        push_digit(s, b % 16);
        assert(s@ =~= old(s)@ + hex_text(b as nat));
    }
}

/// Appends a number in base 10.
fn push_decimal(s: &mut String, n: u32)
    ensures
        final(s)@ == old(s)@ + decimal_text(n as nat),
    decreases n,
{
    if n < 10 {
        push_digit(s, n);
    } else {
        push_decimal(s, n / 10);
        push_digit(s, n % 10);
        assert(s@ =~= old(s)@ + decimal_text(n as nat));
    }
}

/// A number in base 10 followed by a unit.
fn decimal_with_unit(n: u32, unit: &str) -> (r: String)
    ensures
        r@ == decimal_text(n as nat) + unit@,
{
    let mut s = String::new();
    push_decimal(&mut s, n);
    s.append(unit);
    assert(s@ =~= decimal_text(n as nat) + unit@);
    s
}

impl BcdWrapper {
    /// The version as major and minor numbers, each byte read as two
    /// decimal digits: 0x0310 is "3.10".
    pub open spec fn spec_text(self) -> Seq<char> {
        hex_text(((self.0 >> 8u32) & 0xff) as nat) + seq!['.'] + hex_text((self.0 & 0xff) as nat)
    }

    /// Renders the version as major and minor numbers.
    pub fn to_string(&self) -> (r: String)
        ensures
            r@ == self.spec_text(),
    {
        let v = self.0;
        let major = (v >> 8) & 0xff;
        let minor = v & 0xff;
        assert(((v >> 8u32) & 0xff) < 256 && (v & 0xff) < 256) by (bit_vector);
        let mut s = String::new();
        push_hex(&mut s, major);
        proof {
            reveal_strlit(".");
        }
        s.append(".");
        push_hex(&mut s, minor);
        assert(s@ =~= self.spec_text());
        s
    }
}

impl Millivolt {
    /// Renders the voltage, as "5000mV".
    pub fn to_string(&self) -> (r: String)
        ensures
            r@ == decimal_text(self.0 as nat) + "mV"@,
    {
        decimal_with_unit(self.0, "mV")
    }
}

impl Milliamp {
    /// Renders the current, as "3000mA".
    pub fn to_string(&self) -> (r: String)
        ensures
            r@ == decimal_text(self.0 as nat) + "mA"@,
    {
        decimal_with_unit(self.0, "mA")
    }
}

impl Milliwatt {
    /// Renders the power, as "15000mW".
    pub fn to_string(&self) -> (r: String)
        ensures
            r@ == decimal_text(self.0 as nat) + "mW"@,
    {
        decimal_with_unit(self.0, "mW")
    }
}

impl MilliOhm {
    /// Renders the resistance, as "12mOhm".
    pub fn to_string(&self) -> (r: String)
        ensures
            r@ == decimal_text(self.0 as nat) + "mOhm"@,
    {
        decimal_with_unit(self.0, "mOhm")
    }
}

} // verus!
