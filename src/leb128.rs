//! Little Endian Base 128, the variable-length integer encoding that
//! WebAssembly uses for integer literals and indices.

use vstd::arithmetic::div_mod::{lemma_fundamental_div_mod, lemma_div_pos_is_pos};
use crate::emitter::Emittable;
use vstd::prelude::*;

verus! {

/// The marker of a byte after which more bytes follow.
pub const CONTINUATION_BIT: u64 = 128;

/// The signed encoding of `v`: seven bits at a time, least significant
/// first, stopping as soon as the sign bit of the last group matches the
/// remaining value.
pub open spec fn signed_leb(v: int) -> Seq<u8>
    decreases (if v >= 0 { v } else { -v }),
{
    let low = v % 128;
    let rest = v / 128;
    if (rest == 0 && low < 64) || (rest == -1 && low >= 64) {
        seq![low as u8]
    } else {
        proof {
            lemma_fundamental_div_mod(v, 128);
        }
        seq![(low + 128) as u8] + signed_leb(rest)
    }
}

/// The unsigned encoding of `v`: seven bits at a time, least significant
/// first; zero is a single zero byte.
pub open spec fn unsigned_leb(v: nat) -> Seq<u8>
    decreases v,
{
    if v < 128 {
        seq![v as u8]
    } else {
        seq![(v % 128 + 128) as u8] + unsigned_leb(v / 128)
    }
}

/// The integer that a signed encoding stands for.
pub open spec fn signed_leb_value(bytes: Seq<u8>) -> int
    decreases bytes.len(),
{
    if bytes.len() == 0 {
        0
    } else if bytes[0] < 128 {
        if bytes[0] >= 64 {
            bytes[0] - 128
        } else {
            bytes[0] as int
        }
    } else {
        (bytes[0] - 128) + 128 * signed_leb_value(bytes.drop_first())
    }
}

/// The integer that an unsigned encoding stands for.
pub open spec fn unsigned_leb_value(bytes: Seq<u8>) -> nat
    decreases bytes.len(),
{
    if bytes.len() == 0 {
        0
    } else if bytes[0] < 128 {
        bytes[0] as nat
    } else {
        ((bytes[0] - 128) + 128 * unsigned_leb_value(bytes.drop_first())) as nat
    }
}

/// Decoding the signed encoding of `v` gives `v` back.
pub proof fn lemma_signed_round_trip(v: int)
    ensures
        signed_leb_value(signed_leb(v)) == v,
    decreases (if v >= 0 { v } else { -v }),
{
    let low = v % 128;
    let rest = v / 128;
    lemma_fundamental_div_mod(v, 128);
    let e = signed_leb(v);
    if (rest == 0 && low < 64) || (rest == -1 && low >= 64) {
    } else {
        lemma_signed_round_trip(rest);
        assert(e.drop_first() =~= signed_leb(rest));
    }
}

/// Decoding the unsigned encoding of `v` gives `v` back.
pub proof fn lemma_unsigned_round_trip(v: nat)
    ensures
        unsigned_leb_value(unsigned_leb(v)) == v,
    decreases v,
{
    lemma_fundamental_div_mod(v as int, 128);
    if v >= 128 {
        lemma_div_pos_is_pos(v as int, 128);
        lemma_unsigned_round_trip(v / 128);
        assert(unsigned_leb(v).drop_first() =~= unsigned_leb(v / 128));
    }
}

/// Every encoding ends with its only byte that lacks the continuation bit.
pub proof fn lemma_signed_leb_shape(v: int)
    ensures
        signed_leb(v).len() >= 1,
        signed_leb(v).last() < 128,
        forall|i: int| 0 <= i < signed_leb(v).len() - 1 ==> signed_leb(v)[i] >= 128,
    decreases (if v >= 0 { v } else { -v }),
{
    let low = v % 128;
    let rest = v / 128;
    lemma_fundamental_div_mod(v, 128);
    if !((rest == 0 && low < 64) || (rest == -1 && low >= 64)) {
        lemma_signed_leb_shape(rest);
    }
}

/// LEB128 encoder for signed integers.
pub struct SignedLeb128 {
    value: i64,
}

/// LEB128 encoder for unsigned integers.
pub struct UnsignedLeb128 {
    value: u64,
}

impl SignedLeb128 {
    /// The integer this encoder writes.
    pub closed spec fn spec_value(&self) -> int {
        self.value as int
    }

    /// An encoder for `value`.
    pub fn new(value: i64) -> (r: Self)
        ensures
            r.spec_value() == value as int,
    {
        Self { value }
    }
}

impl Emittable for SignedLeb128 {
    open spec fn encoding(&self) -> Seq<u8> {
        signed_leb(self.spec_value())
    }

    open spec fn encodable(&self) -> bool {
        true
    }

    fn emit_to(&self, writer: &mut Vec<u8>) -> (n: usize) {
        let start = writer.len();
        let mut value = self.value;
        loop
            invariant
                writer@ + signed_leb(value as int) == old(writer)@ + self.encoding(),
                start == old(writer)@.len(),
                start <= writer@.len(),
            decreases (if value >= 0 { value as int } else { -value }),
        {
            let low: i64 = match value.checked_rem_euclid(128) {
                Some(l) => l,
                None => 0,
            };
            let rest: i64 = match value.checked_div_euclid(128) {
                Some(r) => r,
                None => 0,
            };
            proof {
                lemma_fundamental_div_mod(value as int, 128);
            }
            assert(low as int == value as int % 128);
            assert(rest as int == value as int / 128);
            if (rest == 0 && low < 64) || (rest == -1 && low >= 64) {
                writer.push(low as u8);
                proof {
                    assert(signed_leb(value as int) == seq![low as u8]);
                    assert(writer@ =~= old(writer)@ + self.encoding());
                }
                let end = writer.len();
                return end - start;
            }
            writer.push((low + 128) as u8);
            proof {
                assert(signed_leb(value as int) == seq![(low + 128) as u8] + signed_leb(rest as int));
                assert(writer@ + signed_leb(rest as int) =~= old(writer)@ + self.encoding());
            }
            value = rest;
        }
    }
}

impl UnsignedLeb128 {
    /// The integer this encoder writes.
    pub closed spec fn spec_value(&self) -> nat {
        self.value as nat
    }

    /// An encoder for `value`.
    pub fn new(value: u64) -> (r: Self)
        ensures
            r.spec_value() == value as nat,
    {
        Self { value }
    }
}

impl Emittable for UnsignedLeb128 {
    open spec fn encoding(&self) -> Seq<u8> {
        unsigned_leb(self.spec_value())
    }

    open spec fn encodable(&self) -> bool {
        true
    }

    fn emit_to(&self, writer: &mut Vec<u8>) -> (n: usize) {
        let start = writer.len();
        let mut value = self.value;
        if value == 0 {
            writer.push(0);
            return 1;
        }
        while value != 0
            invariant
                writer@ + (if value == 0 { seq![] } else { unsigned_leb(value as nat) })
                    == old(writer)@ + self.encoding(),
                start == old(writer)@.len(),
                start <= writer@.len(),
            decreases value,
        {
            let mut byte = low_bits(value);
            let ghost before = value;
            value = value / 128;
            if value != 0 {
                byte = byte + CONTINUATION_BIT as u8;
            }
            writer.push(byte);
            proof {
                if before >= 128 {
                    assert(unsigned_leb(before as nat) == seq![byte] + unsigned_leb(value as nat));
                }
                assert(writer@ + (if value == 0 { seq![] } else { unsigned_leb(value as nat) })
                    =~= old(writer)@ + self.encoding());
            }
        }
        let end = writer.len();
        end - start
    }
}

/// The low seven bits of `value`.
fn low_bits(value: u64) -> (r: u8)
    ensures
        r as int == value % 128,
{
    (value % CONTINUATION_BIT) as u8
}

impl From<i64> for SignedLeb128 {
    fn from(value: i64) -> (r: Self)
        ensures
            r.spec_value() == value as int,
    {
        Self::new(value)
    }
}

impl vstd::std_specs::convert::FromSpecImpl<i64> for SignedLeb128 {
    open spec fn obeys_from_spec() -> bool {
        true
    }

    closed spec fn from_spec(v: i64) -> Self {
        Self { value: v }
    }
}

impl From<u64> for UnsignedLeb128 {
    fn from(value: u64) -> (r: Self)
        ensures
            r.spec_value() == value as nat,
    {
        Self::new(value)
    }
}

impl vstd::std_specs::convert::FromSpecImpl<u64> for UnsignedLeb128 {
    open spec fn obeys_from_spec() -> bool {
        true
    }

    closed spec fn from_spec(v: u64) -> Self {
        Self { value: v }
    }
}

} // verus!
