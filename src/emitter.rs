//! The binary emitter: a byte sink with one operation per kind of node.

pub mod emittable;

pub use emittable::{Emittable, Emittable2};

use crate::ast::{ArithmeticOperation, Constant, NumericalValue, Program, Unreachable};
use crate::leb128::{signed_leb, SignedLeb128};
use crate::opcode::{const_opcode, ToOpcode};
use vstd::prelude::*;

verus! {

/// The magic number that opens every binary module: `\0asm`.
pub const MAGIC: [u8; 4] = [0x00, 0x61, 0x73, 0x6d];

/// The version marker written after the magic number: the text `1000`.
pub const VERSION: [u8; 4] = [0x31, 0x30, 0x30, 0x30];

/// The `n` low bytes of `v`, least significant first.
pub open spec fn le_bytes(v: nat, n: nat) -> Seq<u8>
    decreases n,
{
    if n == 0 {
        seq![]
    } else {
        seq![(v % 256) as u8] + le_bytes(v / 256, (n - 1) as nat)
    }
}

/// Writes the encoding of values into a growing buffer of bytes.
pub struct Emitter {
    /// Where this emitter writes to
    writer: Vec<u8>,
}

impl View for Emitter {
    type V = Seq<u8>;

    closed spec fn view(&self) -> Seq<u8> {
        self.writer@
    }
}

impl Emitter {
    /// Builds an emitter that appends to `writer`.
    pub fn new(writer: Vec<u8>) -> (r: Self)
        ensures
            r@ == writer@,
    {
        Self { writer }
    }

    /// Emits a single byte.
    pub fn emit_byte(&mut self, byte: u8) -> (n: usize)
        ensures
            final(self)@ == old(self)@.push(byte),
            n == 1,
    {
        self.writer.push(byte);
        1
    }

    /// Emits a sequence of bytes.
    pub fn emit_bytes(&mut self, bytes: &[u8])
        ensures
            final(self)@ == old(self)@ + bytes@,
    {
        let mut i: usize = 0;
        while i < bytes.len()
            invariant
                i <= bytes@.len(),
                self@ == old(self)@ + bytes@.subrange(0, i as int),
            decreases bytes@.len() - i,
        {
            self.emit_byte(bytes[i]);
            i = i + 1;
            assert(self@ =~= old(self)@ + bytes@.subrange(0, i as int));
        }
        assert(bytes@.subrange(0, i as int) =~= bytes@);
    }

    /// Emits the magic number.
    fn emit_magic(&mut self)
        ensures
            final(self)@ == old(self)@ + MAGIC@,
    {
        let magic = MAGIC;
        self.emit_bytes(magic.as_slice());
    }

    /// Emits the version marker.
    fn emit_version(&mut self)
        ensures
            final(self)@ == old(self)@ + VERSION@,
    {
        let version = VERSION;
        self.emit_bytes(version.as_slice());
    }

    /// Emits a program: the magic number and the version marker. Its
    /// sections are not assembled yet.
    pub fn emit_program(&mut self, _program: Program)
        ensures
            final(self)@ == old(self)@ + MAGIC@ + VERSION@,
    {
        self.emit_magic();
        self.emit_version();
    }

    /// The bytes written, with whatever the buffer held at the start.
    pub fn into_inner(self) -> (r: Vec<u8>)
        ensures
            r@ == self@,
    {
        self.writer
    }
}

impl<T: Emittable> Emittable2<T> for Emitter {
    open spec fn written(&self) -> Seq<u8> {
        self@
    }

    fn emit_element(&mut self, element: T) -> (n: usize) {
        element.emit_to(&mut self.writer)
    }
}

/// Appends the `width` low bytes of `value`, least significant first.
fn write_le(value: u64, width: usize, writer: &mut Vec<u8>)
    ensures
        final(writer)@ == old(writer)@ + le_bytes(value as nat, width as nat),
{
    let mut v = value;
    let mut i: usize = 0;
    while i < width
        invariant
            i <= width,
            writer@ + le_bytes(v as nat, (width - i) as nat) == old(writer)@ + le_bytes(
                value as nat,
                width as nat,
            ),
        decreases width - i,
    {
        let ghost before = writer@;
        writer.push((v % 256) as u8);
        proof {
            assert(le_bytes(v as nat, (width - i) as nat) == seq![(v % 256) as u8] + le_bytes(
                (v / 256) as nat,
                (width - i - 1) as nat,
            ));
            assert(writer@ + le_bytes((v / 256) as nat, (width - i - 1) as nat) =~= before
                + le_bytes(v as nat, (width - i) as nat));
        }
        v = v / 256;
        i = i + 1;
    }
    assert(writer@ + le_bytes(v as nat, 0) =~= writer@);
}

/// The little-endian bytes of a 32-bit floating-point bit pattern.
pub fn f32_to_bytes(bits: u32) -> (r: Vec<u8>)
    ensures
        r@ == le_bytes(bits as nat, 4),
{
    let mut r = Vec::new();
    write_le(bits as u64, 4, &mut r);
    assert(r@ =~= le_bytes(bits as nat, 4));
    r
}

/// The little-endian bytes of a 64-bit floating-point bit pattern.
pub fn f64_to_bytes(bits: u64) -> (r: Vec<u8>)
    ensures
        r@ == le_bytes(bits as nat, 8),
{
    let mut r = Vec::new();
    write_le(bits, 8, &mut r);
    assert(r@ =~= le_bytes(bits as nat, 8));
    r
}

/// The encoding of a value without its opcode: integers in signed LEB128,
/// floating-point numbers as their little-endian bit patterns.
pub open spec fn value_encoding(v: NumericalValue) -> Seq<u8> {
    match v {
        NumericalValue::Int32(n) => signed_leb(n as int),
        NumericalValue::Int64(n) => signed_leb(n as int),
        NumericalValue::Float32(bits) => le_bytes(bits as nat, 4),
        NumericalValue::Float64(bits) => le_bytes(bits as nat, 8),
    }
}

impl Emittable for NumericalValue {
    open spec fn encoding(&self) -> Seq<u8> {
        value_encoding(*self)
    }

    open spec fn encodable(&self) -> bool {
        true
    }

    fn emit_to(&self, writer: &mut Vec<u8>) -> (n: usize) {
        match *self {
            NumericalValue::Int32(v) => SignedLeb128::new(v as i64).emit_to(writer),
            NumericalValue::Int64(v) => SignedLeb128::new(v).emit_to(writer),
            NumericalValue::Float32(bits) => {
                let start = writer.len();
                write_le(bits as u64, 4, writer);
                writer.len() - start
            },
            NumericalValue::Float64(bits) => {
                let start = writer.len();
                write_le(bits, 8, writer);
                writer.len() - start
            },
        }
    }
}

impl Emittable for Constant {
    open spec fn encoding(&self) -> Seq<u8> {
        seq![const_opcode(self.value)] + value_encoding(self.value)
    }

    open spec fn encodable(&self) -> bool {
        true
    }

    fn emit_to(&self, writer: &mut Vec<u8>) -> (n: usize) {
        let start = writer.len();
        let opcode = self.value.to_opcode();
        writer.push(opcode);
        self.value.emit_to(writer);
        assert(writer@ =~= old(writer)@ + self.encoding());
        writer.len() - start
    }
}

impl Emittable for ArithmeticOperation {
    /// The opcode alone: the operands are emitted before it.
    open spec fn encoding(&self) -> Seq<u8> {
        seq![self.opcode_of()->0]
    }

    open spec fn encodable(&self) -> bool {
        self.opcode_of() is Some
    }

    fn emit_to(&self, writer: &mut Vec<u8>) -> (n: usize) {
        writer.push(self.to_opcode());
        assert(writer@ =~= old(writer)@ + self.encoding());
        1
    }
}

impl Emittable for Unreachable {
    open spec fn encoding(&self) -> Seq<u8> {
        seq![0x00u8]
    }

    open spec fn encodable(&self) -> bool {
        true
    }

    fn emit_to(&self, writer: &mut Vec<u8>) -> (n: usize) {
        writer.push(self.to_opcode());
        assert(writer@ =~= old(writer)@ + self.encoding());
        1
    }
}

} // verus!
