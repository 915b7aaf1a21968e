//! Little-endian bit streams: a reader and a writer that move through bytes
//! least significant bit first.

use vstd::arithmetic::power2::lemma2_to64;
use vstd::arithmetic::power2::lemma_pow2_pos;
use vstd::arithmetic::power2::lemma_pow2_unfold;
use vstd::arithmetic::power2::pow2;
use vstd::arithmetic::div_mod::lemma_div_denominator;
use vstd::prelude::*;

use crate::Error;

verus! {

#[verifier::external_type_specification]
#[verifier::external_body]
pub struct ExIoError(std::io::Error);

/// A reader of bits over owned bytes, least significant bit of each byte first.
#[verifier::external_body]
pub struct BitReader {
    inner: bitstream_io::BitReader<std::io::Cursor<Vec<u8>>, bitstream_io::LittleEndian>,
}

/// A writer of bits into a growing byte vector, least significant bit of each
/// byte first.
#[verifier::external_body]
pub struct BitWriter {
    inner: bitstream_io::BitWriter<Vec<u8>, bitstream_io::LittleEndian>,
}

/// The bits that a reader has yet to hand out, in order.
pub uninterp spec fn unread_bits(r: BitReader) -> Seq<bool>;

/// The bits that have been written through a writer, in order, including
/// those that still wait for their byte to be completed.
pub uninterp spec fn written_bits(w: BitWriter) -> Seq<bool>;

pub open spec fn bit_value(b: bool) -> nat {
    if b { 1 } else { 0 }
}

/// The unsigned value of a bit sequence whose first bit is the least significant.
pub open spec fn le_value(s: Seq<bool>) -> nat
    decreases s.len(),
{
    if s.len() == 0 {
        0
    } else {
        bit_value(s[0]) + 2 * le_value(s.skip(1))
    }
}

/// The `n` lowest bits of `v`, least significant first.
pub open spec fn le_bits(v: nat, n: nat) -> Seq<bool> {
    Seq::new(n, |i: int| (v / pow2(i as nat)) % 2 == 1)
}

/// The bits of a byte sequence, each byte least significant bit first.
pub open spec fn bytes_bits(b: Seq<u8>) -> Seq<bool> {
    Seq::new(8 * b.len(), |i: int| (b[i / 8] >> ((i % 8) as u8)) & 1 == 1)
}

/// `n` zero bits.
pub open spec fn zeros(n: nat) -> Seq<bool> {
    Seq::new(n, |i: int| false)
}

/// The bits that bring a stream of `len` bits to a byte boundary.
pub open spec fn padding(len: nat) -> Seq<bool> {
    zeros(((8 - len % 8) % 8) as nat)
}

/// The bits of zero are all zero bits.
pub proof fn lemma_zero_bits(n: nat)
    ensures
        le_bits(0, n) == zeros(n),
{
    assert forall|i: int| 0 <= i < n implies (0nat / #[trigger] pow2(i as nat)) % 2 == 0 by {
        lemma_pow2_pos(i as nat);
    }
    assert(le_bits(0, n) =~= zeros(n));
}

/// The value of the `n` bits of `s` that start at `at`.
pub open spec fn field(s: Seq<bool>, at: int, n: int) -> nat {
    le_value(s.subrange(at, at + n))
}

/// `b` as a single bit.
pub open spec fn bit_of(b: bool) -> u32 {
    if b { 1 } else { 0 }
}

/// The field of `w` that starts at bit `at`, cut by `mask`.
pub open spec fn word_field(w: u32, at: u32, mask: u32) -> u32 {
    (w >> at) & mask
}

/// The field of `w` that starts at bit `at`, cut by `mask`.
pub(crate) fn get_field(w: u32, at: u32, mask: u32) -> (r: u32)
    requires
        at < 32,
    ensures
        r == word_field(w, at, mask),
        r <= mask,
{
    assert((w >> at) & mask <= mask) by (bit_vector);
    (w >> at) & mask
}


/// Relies on bitstream_io's `BitRead::read::<u32>` for `BitReader`: it hands out
/// the next `bits` bits as an integer, first bit least significant, and fails
/// when the underlying cursor runs out of bytes first.
#[verifier::external_body]
fn read_raw(r: &mut BitReader, bits: u32) -> (res: core::result::Result<u32, std::io::Error>)
    requires
        1 <= bits <= 32,
    ensures
        res is Ok <==> bits <= unread_bits(*old(r)).len(),
        res is Ok ==> res->Ok_0 as nat == le_value(unread_bits(*old(r)).take(bits as int)),
        res is Ok ==> unread_bits(*final(r)) == unread_bits(*old(r)).skip(bits as int),
{
    bitstream_io::BitRead::read::<u32>(&mut r.inner, bits)
}

/// Relies on bitstream_io's `BitRead::read_bit` for `BitReader`: it hands out the
/// next bit, and fails when the underlying cursor has no byte left.
#[verifier::external_body]
fn read_bit_raw(r: &mut BitReader) -> (res: core::result::Result<bool, std::io::Error>)
    ensures
        res is Ok <==> 1 <= unread_bits(*old(r)).len(),
        res is Ok ==> res->Ok_0 == unread_bits(*old(r))[0],
        res is Ok ==> unread_bits(*final(r)) == unread_bits(*old(r)).skip(1),
{
    bitstream_io::BitRead::read_bit(&mut r.inner)
}

/// Relies on bitstream_io's `BitRead::skip` for `BitReader`: it drops the next
/// `bits` bits, and fails when the underlying cursor runs out of bytes first.
#[verifier::external_body]
fn skip_raw(r: &mut BitReader, bits: u32) -> (res: core::result::Result<(), std::io::Error>)
    ensures
        res is Ok <==> bits <= unread_bits(*old(r)).len(),
        res is Ok ==> unread_bits(*final(r)) == unread_bits(*old(r)).skip(bits as int),
{
    bitstream_io::BitRead::skip(&mut r.inner, bits)
}

/// Relies on bitstream_io's `BitWrite::write::<u32>` for `BitWriter`: it appends
/// the `bits` lowest bits of `value`, least significant first, and refuses a
/// value that does not fit in `bits` bits; a `Vec` never runs out of room.
#[verifier::external_body]
fn write_raw(w: &mut BitWriter, bits: u32, value: u32) -> (res: core::result::Result<(), std::io::Error>)
    requires
        1 <= bits <= 32,
    ensures
        res is Ok <==> (bits == 32 || (value as nat) < pow2(bits as nat)),
        res is Ok ==> written_bits(*final(w)) == written_bits(*old(w)) + le_bits(value as nat, bits as nat),
        res is Err ==> written_bits(*final(w)) == written_bits(*old(w)),
{
    bitstream_io::BitWrite::write::<u32>(&mut w.inner, bits, value)
}

/// Relies on bitstream_io's `BitWrite::byte_align` for `BitWriter`: it appends
/// zero bits up to the next byte boundary; a `Vec` never runs out of room.
#[verifier::external_body]
fn byte_align_raw(w: &mut BitWriter) -> (res: core::result::Result<(), std::io::Error>)
    ensures
        res is Ok,
        written_bits(*final(w)) == written_bits(*old(w)) + Seq::new(
            ((8 - written_bits(*old(w)).len() % 8) % 8) as nat,
            |i: int| false,
        ),
{
    bitstream_io::BitWrite::byte_align(&mut w.inner)
}

impl BitReader {
    /// Relies on bitstream_io's `BitReader::new` over a `std::io::Cursor`: the
    /// reader hands out the bytes' bits in order, each byte least significant
    /// bit first.
    #[verifier::external_body]
    pub fn new(bytes: Vec<u8>) -> (r: BitReader)
        ensures
            unread_bits(r) == bytes_bits(bytes@),
    {
        BitReader { inner: bitstream_io::BitReader::new(std::io::Cursor::new(bytes)) }
    }
}

impl BitWriter {
    /// Relies on bitstream_io's `BitWriter::new` over an empty `Vec`.
    #[verifier::external_body]
    pub fn new() -> (w: BitWriter)
        ensures
            written_bits(w) == Seq::<bool>::empty(),
    {
        BitWriter { inner: bitstream_io::BitWriter::new(Vec::new()) }
    }

    /// Relies on bitstream_io's `BitWriter::into_writer`: the vector holds every
    /// completed byte; the bits of an unfinished byte are dropped.
    #[verifier::external_body]
    pub fn into_bytes(self) -> (r: Vec<u8>)
        ensures
            bytes_bits(r@) == written_bits(self).take(
                written_bits(self).len() - written_bits(self).len() % 8,
            ),
    {
        self.inner.into_writer()
    }
}

/// A sequence of `n` bits holds a value below 2 to the `n`.
pub proof fn lemma_le_value_bound(t: Seq<bool>)
    ensures
        le_value(t) < pow2(t.len()),
    decreases t.len(),
{
    if t.len() == 0 {
        lemma2_to64();
    } else {
        lemma_le_value_bound(t.skip(1));
        lemma_pow2_unfold(t.len());
    }
}

/// Reading back the `n` bits written for a value below 2 to the `n` gives
/// the value.
pub proof fn lemma_le_bits_value(v: nat, n: nat)
    requires
        v < pow2(n),
    ensures
        le_value(le_bits(v, n)) == v,
    decreases n,
{
    lemma2_to64();
    if n == 0 {
        assert(le_bits(v, n).len() == 0);
    } else {
        let s = le_bits(v, n);
        lemma_pow2_unfold(n);
        assert forall|i: int| 0 <= i < n - 1 implies s.skip(1)[i] == le_bits(v / 2, (n - 1) as nat)[i] by {
            lemma_pow2_unfold((i + 1) as nat);
            lemma_pow2_pos(i as nat);
            lemma_div_denominator(v as int, 2, pow2(i as nat) as int);
        }
        assert(s.skip(1) =~= le_bits(v / 2, (n - 1) as nat));
        lemma_le_bits_value(v / 2, (n - 1) as nat);
        assert(pow2(0) == 1);
        assert(v / 1 == v);
        assert(s[0] == ((v / pow2(0)) % 2 == 1));
        assert(bit_value(s[0]) == v % 2);
    }
}

proof fn lemma_window(s: Seq<bool>, at: int, n: int)
    requires
        0 <= at,
        0 <= n,
        at + n <= s.len(),
    ensures
        s.skip(at).take(n) == s.subrange(at, at + n),
        s.skip(at).skip(n) == s.skip(at + n),
{
    assert(s.skip(at).take(n) =~= s.subrange(at, at + n));
    assert(s.skip(at).skip(n) =~= s.skip(at + n));
}

/// Reads the `n` bits of `s` that start at `at`, where the reader stands at `at`.
pub(crate) fn take_bits(r: &mut BitReader, n: u32, Ghost(s): Ghost<Seq<bool>>, Ghost(at): Ghost<int>) -> (res:
    crate::Result<u32>)
    requires
        1 <= n <= 32,
        0 <= at <= s.len(),
        unread_bits(*old(r)) == s.skip(at),
    ensures
        res is Ok <==> at + n <= s.len(),
        res is Ok ==> res->Ok_0 as nat == field(s, at, n as int),
        res is Ok ==> (res->Ok_0 as nat) < pow2(n as nat),
        res is Ok ==> unread_bits(*final(r)) == s.skip(at + n),
        res is Err ==> res->Err_0 is IoError,
{
    match read_raw(r, n) {
        Ok(v) => {
            proof {
                lemma_window(s, at, n as int);
                lemma_le_value_bound(s.subrange(at, at + n));
            }
            Ok(v)
        },
        Err(e) => Err(Error::IoError { source: e }),
    }
}

/// Reads the bit of `s` at `at`, where the reader stands at `at`.
pub(crate) fn take_bit(r: &mut BitReader, Ghost(s): Ghost<Seq<bool>>, Ghost(at): Ghost<int>) -> (res:
    crate::Result<bool>)
    requires
        0 <= at <= s.len(),
        unread_bits(*old(r)) == s.skip(at),
    ensures
        res is Ok <==> at + 1 <= s.len(),
        res is Ok ==> res->Ok_0 == s[at],
        res is Ok ==> unread_bits(*final(r)) == s.skip(at + 1),
        res is Err ==> res->Err_0 is IoError,
{
    match read_bit_raw(r) {
        Ok(v) => {
            proof {
                lemma_window(s, at, 1);
            }
            Ok(v)
        },
        Err(e) => Err(Error::IoError { source: e }),
    }
}

/// Passes over the `n` bits of `s` that start at `at`, where the reader stands at `at`.
pub(crate) fn pass_bits(r: &mut BitReader, n: u32, Ghost(s): Ghost<Seq<bool>>, Ghost(at): Ghost<int>) -> (res:
    crate::Result<()>)
    requires
        0 <= at <= s.len(),
        unread_bits(*old(r)) == s.skip(at),
    ensures
        res is Ok <==> at + n <= s.len(),
        res is Ok ==> unread_bits(*final(r)) == s.skip(at + n),
        res is Err ==> res->Err_0 is IoError,
{
    match skip_raw(r, n) {
        Ok(v) => {
            proof {
                lemma_window(s, at, n as int);
            }
            Ok(v)
        },
        Err(e) => Err(Error::IoError { source: e }),
    }
}

/// Appends the `n` lowest bits of `value`, least significant first.
pub(crate) fn put_bits(w: &mut BitWriter, n: u32, value: u32) -> (res: crate::Result<()>)
    requires
        1 <= n <= 32,
    ensures
        res is Ok <==> (n == 32 || (value as nat) < pow2(n as nat)),
        res is Ok ==> written_bits(*final(w)) == written_bits(*old(w)) + le_bits(value as nat, n as nat),
        res is Err ==> res->Err_0 is IoError && written_bits(*final(w)) == written_bits(*old(w)),
{
    match write_raw(w, n, value) {
        Ok(v) => Ok(v),
        Err(e) => Err(Error::IoError { source: e }),
    }
}

/// Appends zero bits up to the next byte boundary.
pub(crate) fn align(w: &mut BitWriter) -> (res: crate::Result<()>)
    ensures
        res is Ok,
        written_bits(*final(w)) == written_bits(*old(w)) + Seq::new(
            ((8 - written_bits(*old(w)).len() % 8) % 8) as nat,
            |i: int| false,
        ),
{
    match byte_align_raw(w) {
        Ok(v) => Ok(v),
        Err(e) => Err(Error::IoError { source: e }),
    }
}

} // verus!
