//! The streaming binary protocol's primitive types: fixed-width big-endian
//! integers and booleans, variable-length integers, and length-prefixed
//! UTF-8 text.

use vstd::prelude::*;

use crate::error::{DecodeError, VarWidth};
use crate::wire::{
    be_bytes, be_value, lemma_be_bytes_len, lemma_be_round_trip, lemma_be_value_bound,
    lemma_var_groups_len, lemma_var_groups_len_lower, lemma_var_groups_read_back,
    lemma_var_read_overflow, text_read,
    u16_bits, u32_bits, u64_bits, u8_bits, var_groups, var_read,
};
use vstd::utf8::{encode_utf8, valid_utf8};

verus! {

/// A value with a wire form in the streaming protocol. `wire` is the exact
/// byte sequence `write` appends; `read_rel` pins what `read` returns for
/// every input, including every error case.
pub trait Type: Sized {
    /// The exact wire form of this value.
    spec fn wire(&self) -> Seq<u8>;

    /// The exact relation between a buffer, a start position, and the
    /// decoder's result.
    spec fn read_rel(data: Seq<u8>, pos: usize, r: Result<(Self, usize), DecodeError>) -> bool;

    /// Whether this value fits on the wire at all; false only where a
    /// length would not fit the protocol's 32-bit count.
    spec fn writable(&self) -> bool;

    /// Append this value's wire form to `out`.
    fn write(&self, out: &mut Vec<u8>)
        requires
            self.writable(),
        ensures
            final(out)@ == old(out)@ + self.wire(),
    ;

    /// Decode one value from `data` starting at `pos`; on success the
    /// returned position is one past the last byte consumed.
    fn read(data: &Vec<u8>, pos: usize) -> (r: Result<(Self, usize), DecodeError>)
        requires
            pos <= data@.len(),
        ensures
            Self::read_rel(data@, pos, r),
    ;
}

/// A 32-bit signed integer carried on the wire as at most five 7-bit
/// groups, least significant group first, each byte but the last carrying a
/// continuation flag.
#[derive(Clone, Copy, Debug, PartialEq, Eq, Hash, PartialOrd, Ord)]
pub struct VarInt {
    pub value: i32,
}

impl VarInt {
    pub fn new(value: i32) -> (r: Self)
        ensures
            r.value == value,
    {
        VarInt { value }
    }
}

/// A 64-bit signed integer carried on the wire as at most ten 7-bit groups,
/// in the same format as [`VarInt`].
#[derive(Clone, Copy, Debug, PartialEq, Eq, Hash, PartialOrd, Ord)]
pub struct VarLong {
    pub value: i64,
}

impl VarLong {
    pub fn new(value: i64) -> (r: Self)
        ensures
            r.value == value,
    {
        VarLong { value }
    }
}

/// Append the minimal 7-bit-group encoding of `value` to `out`.
fn write_var_u32(value: u32, out: &mut Vec<u8>)
    ensures
        final(out)@ == old(out)@ + var_groups(value as nat),
{
    let mut v: u32 = value;
    while v >= 128
        invariant
            out@ + var_groups(v as nat) == old(out)@ + var_groups(value as nat),
        decreases v,
    {
        let b: u8 = (v % 128) as u8 + 128;
        proof {
            assert(var_groups(v as nat) == seq![b] + var_groups((v / 128) as nat));
            assert((out@ + seq![b]) + var_groups((v / 128) as nat) == out@ + (seq![b] + var_groups(
                (v / 128) as nat,
            )));
        }
        out.push(b);
        v = v / 128;
    }
    proof {
        assert(var_groups(v as nat) == seq![v as u8]);
    }
    out.push(v as u8);
}

/// Append the minimal 7-bit-group encoding of `value` to `out`.
fn write_var_u64(value: u64, out: &mut Vec<u8>)
    ensures
        final(out)@ == old(out)@ + var_groups(value as nat),
{
    let mut v: u64 = value;
    while v >= 128
        invariant
            out@ + var_groups(v as nat) == old(out)@ + var_groups(value as nat),
        decreases v,
    {
        let b: u8 = (v % 128) as u8 + 128;
        proof {
            assert(var_groups(v as nat) == seq![b] + var_groups((v / 128) as nat));
            assert((out@ + seq![b]) + var_groups((v / 128) as nat) == out@ + (seq![b] + var_groups(
                (v / 128) as nat,
            )));
        }
        out.push(b);
        v = v / 128;
    }
    proof {
        assert(var_groups(v as nat) == seq![v as u8]);
    }
    out.push(v as u8);
}

/// Decode at most `max_groups` 7-bit groups from `data` starting at `pos`,
/// returning the accumulated value before truncation to the target width.
/// The accumulator is wide enough (128 bits) that no group run of either
/// supported width can overflow it.
fn read_var_groups(data: &Vec<u8>, pos: usize, max_groups: usize, width: VarWidth) -> (r: Result<
    (u128, usize),
    DecodeError,
>)
    requires
        pos <= data@.len(),
        1 <= max_groups <= 10,
    ensures
        match (r, var_read(data@, pos as int, max_groups as int, width)) {
            (Ok((v, next)), Ok((n, end))) => v == n && next as int == end && pos < next
                <= data@.len(),
            (Err(e), Err(k)) => e == k,
            _ => false,
        },
{
    proof {
        reveal(vstd::arithmetic::power::pow);
    }
    let ghost spec_result = var_read(data@, pos as int, max_groups as int, width);
    let mut acc: u128 = 0;
    let mut mult: u128 = 1;
    let mut cur: usize = pos;
    let mut left: usize = max_groups;
    loop
        invariant
            spec_result == var_read(data@, pos as int, max_groups as int, width),
            pos <= cur <= data@.len(),
            1 <= left <= max_groups <= 10,
            cur - pos == max_groups - left,
            mult == vstd::arithmetic::power::pow(128, (max_groups - left) as nat),
            acc < mult,
            mult <= 0x40_0000_0000_0000_0000u128,
            spec_result == match var_read(data@, cur as int, left as int, width) {
                Ok((v, end)) => Ok::<(nat, int), DecodeError>((acc as nat + mult as nat * v, end)),
                Err(e) => Err::<(nat, int), DecodeError>(e),
            },
        decreases left,
    {
        if cur >= data.len() {
            proof {
                assert(var_read(data@, cur as int, left as int, width) == Err::<
                    (nat, int),
                    DecodeError,
                >(DecodeError::Truncated));
            }
            return Err(DecodeError::Truncated);
        }
        let b: u8 = data[cur];
        if b < 128 {
            proof {
                assert(var_read(data@, cur as int, left as int, width) == Ok::<
                    (nat, int),
                    DecodeError,
                >((b as nat, cur + 1)));
                assert(mult as nat * b as nat <= mult as nat * 127) by (nonlinear_arith)
                    requires
                        b as nat <= 127,
                        mult >= 1,
                ;
                assert(acc as nat + mult as nat * (b as nat) < 128 * (mult as nat)) by (nonlinear_arith)
                    requires
                        acc < mult,
                        mult as nat * b as nat <= mult as nat * 127,
                ;
            }
            return Ok((acc + mult * (b as u128), cur + 1));
        }
        if left <= 1 {
            proof {
                assert(var_read(data@, cur as int, left as int, width) == Err::<
                    (nat, int),
                    DecodeError,
                >(DecodeError::Overflow(width)));
            }
            return Err(DecodeError::Overflow(width));
        }
        let g: u8 = b - 128;
        proof {
            reveal(vstd::arithmetic::power::pow);
            let rec = var_read(data@, cur as int + 1, left as int - 1, width);
            assert(var_read(data@, cur as int, left as int, width) == match rec {
                Ok((v, end)) => Ok::<(nat, int), DecodeError>((g as nat + 128 * v, end)),
                Err(e) => Err::<(nat, int), DecodeError>(e),
            });
            if let Ok((v, end)) = rec {
                assert(acc as nat + mult as nat * (g as nat + 128 * v) == (acc as nat + mult as nat
                    * g as nat) + (mult as nat * 128) * v) by (nonlinear_arith);
            }
            assert(mult as nat * g as nat <= mult as nat * 127) by (nonlinear_arith)
                requires
                    g as nat <= 127,
                    mult >= 1,
            ;
            assert(acc as nat + mult as nat * (g as nat) < 128 * (mult as nat)) by (nonlinear_arith)
                requires
                    acc < mult,
                    mult as nat * g as nat <= mult as nat * 127,
            ;
            assert(vstd::arithmetic::power::pow(128, (max_groups - left + 1) as nat) == 128
                * vstd::arithmetic::power::pow(128, (max_groups - left) as nat));
            assert(vstd::arithmetic::power::pow(128, 10) == 0x40_0000_0000_0000_0000) by {
                reveal_with_fuel(vstd::arithmetic::power::pow, 11);
            }
            vstd::arithmetic::power::lemma_pow_increases(128, (max_groups - left + 1) as nat, 10);
        }
        acc = acc + mult * (g as u128);
        mult = mult * 128;
        cur = cur + 1;
        left = left - 1;
    }
}


/// Append the `width`-byte big-endian form of `value` to `out`.
fn write_be(value: u64, width: u8, out: &mut Vec<u8>)
    ensures
        final(out)@ == old(out)@ + be_bytes(value as nat, width as nat),
    decreases width,
{
    if width == 0 {
        proof {
            assert(out@ + be_bytes(value as nat, 0) =~= out@);
        }
        return ;
    }
    write_be(value / 256, width - 1, out);
    let b: u8 = (value % 256) as u8;
    proof {
        assert((old(out)@ + be_bytes((value / 256) as nat, (width - 1) as nat)).push(b) =~= old(
            out,
        )@ + be_bytes(value as nat, width as nat));
    }
    out.push(b);
}

/// Read the `width`-byte big-endian value at `pos`.
fn read_be(data: &Vec<u8>, pos: usize, width: usize) -> (r: u64)
    requires
        width <= 8,
        pos + width <= data@.len(),
    ensures
        r as nat == be_value(data@.subrange(pos as int, pos + width)),
    decreases width,
{
    if width == 0 {
        proof {
            assert(data@.subrange(pos as int, pos as int) =~= Seq::<u8>::empty());
        }
        return 0;
    }
    let hi = read_be(data, pos, width - 1);
    let n: usize = data.len();
    proof {
        assert(pos + width <= n);
    }
    let b: u8 = data[pos + width - 1];
    proof {
        let whole = data@.subrange(pos as int, pos + width);
        assert(whole.drop_last() =~= data@.subrange(pos as int, pos + (width - 1)));
        assert(whole.last() == b);
        lemma_be_value_bound(whole.drop_last());
        assert(vstd::arithmetic::power::pow(256, 7) == 0x100_0000_0000_0000) by {
            reveal_with_fuel(vstd::arithmetic::power::pow, 8);
        }
        vstd::arithmetic::power::lemma_pow_increases(256, (width - 1) as nat, 7);
    }
    hi * 256 + (b as u64)
}

/// The two's-complement 8-bit pattern of `v`.
pub fn u8_from_i8(v: i8) -> (r: u8)
    ensures
        r as nat == u8_bits(v),
{
    if v >= 0 {
        v as u8
    } else {
        ((v as i16) + 0x100) as u8
    }
}

/// The signed value with the 8-bit pattern `u`.
pub fn i8_from_u8(u: u8) -> (r: i8)
    ensures
        u8_bits(r) == u as nat,
{
    if u < 0x80 {
        u as i8
    } else {
        ((u as i16) - 0x100) as i8
    }
}

/// The two's-complement 16-bit pattern of `v`.
pub fn u16_from_i16(v: i16) -> (r: u16)
    ensures
        r as nat == u16_bits(v),
{
    if v >= 0 {
        v as u16
    } else {
        ((v as i32) + 0x1_0000) as u16
    }
}

/// The signed value with the 16-bit pattern `u`.
pub fn i16_from_u16(u: u16) -> (r: i16)
    ensures
        u16_bits(r) == u as nat,
{
    if u < 0x8000 {
        u as i16
    } else {
        ((u as i32) - 0x1_0000) as i16
    }
}

/// The two's-complement 32-bit pattern of `v`.
pub fn u32_from_i32(v: i32) -> (r: u32)
    ensures
        r as nat == u32_bits(v),
{
    if v >= 0 {
        v as u32
    } else {
        ((v as i64) + 0x1_0000_0000) as u32
    }
}

/// The signed value with the 32-bit pattern `u`.
pub fn i32_from_u32(u: u32) -> (r: i32)
    ensures
        u32_bits(r) == u as nat,
{
    if u < 0x8000_0000 {
        u as i32
    } else {
        ((u as i64) - 0x1_0000_0000) as i32
    }
}

/// The two's-complement 64-bit pattern of `v`.
pub fn u64_from_i64(v: i64) -> (r: u64)
    ensures
        r as nat == u64_bits(v),
{
    if v >= 0 {
        v as u64
    } else {
        ((v as i128) + 0x1_0000_0000_0000_0000) as u64
    }
}

/// The signed value with the 64-bit pattern `u`.
pub fn i64_from_u64(u: u64) -> (r: i64)
    ensures
        u64_bits(r) == u as nat,
{
    if u < 0x8000_0000_0000_0000 {
        u as i64
    } else {
        ((u as i128) - 0x1_0000_0000_0000_0000) as i64
    }
}

impl Type for VarInt {
    /// The minimal 7-bit-group run for the 32-bit pattern; negative values
    /// therefore always take the full five bytes.
    open spec fn wire(&self) -> Seq<u8> {
        var_groups(u32_bits(self.value))
    }

    open spec fn read_rel(data: Seq<u8>, pos: usize, r: Result<(Self, usize), DecodeError>) -> bool {
        match var_read(data, pos as int, 5, VarWidth::Bits32) {
            Ok((n, end)) => match r {
                Ok((v, next)) => u32_bits(v.value) == n % 0x1_0000_0000 && next as int == end,
                Err(_) => false,
            },
            Err(e) => r == Err::<(Self, usize), DecodeError>(e),
        }
    }

    open spec fn writable(&self) -> bool {
        true
    }

    fn write(&self, out: &mut Vec<u8>) {
        write_var_u32(u32_from_i32(self.value), out);
    }

    fn read(data: &Vec<u8>, pos: usize) -> (r: Result<(Self, usize), DecodeError>) {
        match read_var_groups(data, pos, 5, VarWidth::Bits32) {
            Ok((acc, next)) => {
                let u: u32 = (acc % 0x1_0000_0000) as u32;
                Ok((VarInt::new(i32_from_u32(u)), next))
            },
            Err(e) => Err(e),
        }
    }
}

impl Type for VarLong {
    /// The minimal 7-bit-group run for the 64-bit pattern; negative values
    /// therefore always take the full ten bytes.
    open spec fn wire(&self) -> Seq<u8> {
        var_groups(u64_bits(self.value))
    }

    open spec fn read_rel(data: Seq<u8>, pos: usize, r: Result<(Self, usize), DecodeError>) -> bool {
        match var_read(data, pos as int, 10, VarWidth::Bits64) {
            Ok((n, end)) => match r {
                Ok((v, next)) => u64_bits(v.value) == n % 0x1_0000_0000_0000_0000 && next as int
                    == end,
                Err(_) => false,
            },
            Err(e) => r == Err::<(Self, usize), DecodeError>(e),
        }
    }

    open spec fn writable(&self) -> bool {
        true
    }

    fn write(&self, out: &mut Vec<u8>) {
        write_var_u64(u64_from_i64(self.value), out);
    }

    fn read(data: &Vec<u8>, pos: usize) -> (r: Result<(Self, usize), DecodeError>) {
        match read_var_groups(data, pos, 10, VarWidth::Bits64) {
            Ok((acc, next)) => {
                let u: u64 = (acc % 0x1_0000_0000_0000_0000) as u64;
                Ok((VarLong::new(i64_from_u64(u)), next))
            },
            Err(e) => Err(e),
        }
    }
}

impl Type for bool {
    /// One byte: 1 for true, 0 for false.
    open spec fn wire(&self) -> Seq<u8> {
        seq![if *self { 1u8 } else { 0u8 }]
    }

    /// Any nonzero byte reads back as true.
    open spec fn read_rel(data: Seq<u8>, pos: usize, r: Result<(Self, usize), DecodeError>) -> bool {
        if pos < data.len() {
            r == Ok::<(bool, usize), DecodeError>((data[pos as int] != 0, (pos + 1) as usize))
        } else {
            r == Err::<(Self, usize), DecodeError>(DecodeError::Truncated)
        }
    }

    open spec fn writable(&self) -> bool {
        true
    }

    fn write(&self, out: &mut Vec<u8>) {
        out.push(if *self {
            1u8
        } else {
            0u8
        });
        proof {
            assert(old(out)@.push(if *self { 1u8 } else { 0u8 }) =~= old(out)@ + self.wire());
        }
    }

    fn read(data: &Vec<u8>, pos: usize) -> (r: Result<(Self, usize), DecodeError>) {
        if pos < data.len() {
            Ok((data[pos] != 0, pos + 1))
        } else {
            Err(DecodeError::Truncated)
        }
    }
}

impl Type for u8 {
    /// One raw byte.
    open spec fn wire(&self) -> Seq<u8> {
        seq![*self]
    }

    open spec fn read_rel(data: Seq<u8>, pos: usize, r: Result<(Self, usize), DecodeError>) -> bool {
        if pos < data.len() {
            r == Ok::<(u8, usize), DecodeError>((data[pos as int], (pos + 1) as usize))
        } else {
            r == Err::<(Self, usize), DecodeError>(DecodeError::Truncated)
        }
    }

    open spec fn writable(&self) -> bool {
        true
    }

    fn write(&self, out: &mut Vec<u8>) {
        out.push(*self);
        proof {
            assert(old(out)@.push(*self) =~= old(out)@ + self.wire());
        }
    }

    fn read(data: &Vec<u8>, pos: usize) -> (r: Result<(Self, usize), DecodeError>) {
        if pos < data.len() {
            Ok((data[pos], pos + 1))
        } else {
            Err(DecodeError::Truncated)
        }
    }
}

impl Type for i8 {
    /// One byte holding the two's-complement pattern.
    open spec fn wire(&self) -> Seq<u8> {
        seq![u8_bits(*self) as u8]
    }

    open spec fn read_rel(data: Seq<u8>, pos: usize, r: Result<(Self, usize), DecodeError>) -> bool {
        if pos < data.len() {
            match r {
                Ok((v, next)) => u8_bits(v) == data[pos as int] as nat && next == pos + 1,
                Err(_) => false,
            }
        } else {
            r == Err::<(Self, usize), DecodeError>(DecodeError::Truncated)
        }
    }

    open spec fn writable(&self) -> bool {
        true
    }

    fn write(&self, out: &mut Vec<u8>) {
        let b = u8_from_i8(*self);
        out.push(b);
        proof {
            assert(old(out)@.push(b) =~= old(out)@ + self.wire());
        }
    }

    fn read(data: &Vec<u8>, pos: usize) -> (r: Result<(Self, usize), DecodeError>) {
        if pos < data.len() {
            Ok((i8_from_u8(data[pos]), pos + 1))
        } else {
            Err(DecodeError::Truncated)
        }
    }
}

impl Type for u16 {
    /// Two bytes, big endian.
    open spec fn wire(&self) -> Seq<u8> {
        be_bytes(*self as nat, 2)
    }

    open spec fn read_rel(data: Seq<u8>, pos: usize, r: Result<(Self, usize), DecodeError>) -> bool {
        if pos + 2 <= data.len() {
            match r {
                Ok((v, next)) => v as nat == be_value(data.subrange(pos as int, pos + 2)) && next
                    == pos + 2,
                Err(_) => false,
            }
        } else {
            r == Err::<(Self, usize), DecodeError>(DecodeError::Truncated)
        }
    }

    open spec fn writable(&self) -> bool {
        true
    }

    fn write(&self, out: &mut Vec<u8>) {
        write_be(*self as u64, 2, out);
    }

    fn read(data: &Vec<u8>, pos: usize) -> (r: Result<(Self, usize), DecodeError>) {
        if data.len() - pos >= 2 {
            let v = read_be(data, pos, 2);
            proof {
                lemma_be_value_bound(data@.subrange(pos as int, pos + 2));
                assert(vstd::arithmetic::power::pow(256, 2) == 0x1_0000) by {
                    reveal_with_fuel(vstd::arithmetic::power::pow, 3);
                }
            }
            Ok(((v as u16), pos + 2))
        } else {
            Err(DecodeError::Truncated)
        }
    }
}

impl Type for i16 {
    /// Two bytes, big endian, two's complement.
    open spec fn wire(&self) -> Seq<u8> {
        be_bytes(u16_bits(*self), 2)
    }

    open spec fn read_rel(data: Seq<u8>, pos: usize, r: Result<(Self, usize), DecodeError>) -> bool {
        if pos + 2 <= data.len() {
            match r {
                Ok((v, next)) => u16_bits(v) == be_value(data.subrange(pos as int, pos + 2)) && next
                    == pos + 2,
                Err(_) => false,
            }
        } else {
            r == Err::<(Self, usize), DecodeError>(DecodeError::Truncated)
        }
    }

    open spec fn writable(&self) -> bool {
        true
    }

    fn write(&self, out: &mut Vec<u8>) {
        write_be(u16_from_i16(*self) as u64, 2, out);
    }

    fn read(data: &Vec<u8>, pos: usize) -> (r: Result<(Self, usize), DecodeError>) {
        if data.len() - pos >= 2 {
            let v = read_be(data, pos, 2);
            proof {
                lemma_be_value_bound(data@.subrange(pos as int, pos + 2));
                assert(vstd::arithmetic::power::pow(256, 2) == 0x1_0000) by {
                    reveal_with_fuel(vstd::arithmetic::power::pow, 3);
                }
            }
            Ok((i16_from_u16(v as u16), pos + 2))
        } else {
            Err(DecodeError::Truncated)
        }
    }
}

impl Type for i32 {
    /// Four bytes, big endian, two's complement.
    open spec fn wire(&self) -> Seq<u8> {
        be_bytes(u32_bits(*self), 4)
    }

    open spec fn read_rel(data: Seq<u8>, pos: usize, r: Result<(Self, usize), DecodeError>) -> bool {
        if pos + 4 <= data.len() {
            match r {
                Ok((v, next)) => u32_bits(v) == be_value(data.subrange(pos as int, pos + 4)) && next
                    == pos + 4,
                Err(_) => false,
            }
        } else {
            r == Err::<(Self, usize), DecodeError>(DecodeError::Truncated)
        }
    }

    open spec fn writable(&self) -> bool {
        true
    }

    fn write(&self, out: &mut Vec<u8>) {
        write_be(u32_from_i32(*self) as u64, 4, out);
    }

    fn read(data: &Vec<u8>, pos: usize) -> (r: Result<(Self, usize), DecodeError>) {
        if data.len() - pos >= 4 {
            let v = read_be(data, pos, 4);
            proof {
                lemma_be_value_bound(data@.subrange(pos as int, pos + 4));
                assert(vstd::arithmetic::power::pow(256, 4) == 0x1_0000_0000) by {
                    reveal_with_fuel(vstd::arithmetic::power::pow, 5);
                }
            }
            Ok((i32_from_u32(v as u32), pos + 4))
        } else {
            Err(DecodeError::Truncated)
        }
    }
}

impl Type for i64 {
    /// Eight bytes, big endian, two's complement.
    open spec fn wire(&self) -> Seq<u8> {
        be_bytes(u64_bits(*self), 8)
    }

    open spec fn read_rel(data: Seq<u8>, pos: usize, r: Result<(Self, usize), DecodeError>) -> bool {
        if pos + 8 <= data.len() {
            match r {
                Ok((v, next)) => u64_bits(v) == be_value(data.subrange(pos as int, pos + 8)) && next
                    == pos + 8,
                Err(_) => false,
            }
        } else {
            r == Err::<(Self, usize), DecodeError>(DecodeError::Truncated)
        }
    }

    open spec fn writable(&self) -> bool {
        true
    }

    fn write(&self, out: &mut Vec<u8>) {
        write_be(u64_from_i64(*self), 8, out);
    }

    fn read(data: &Vec<u8>, pos: usize) -> (r: Result<(Self, usize), DecodeError>) {
        if data.len() - pos >= 8 {
            let v = read_be(data, pos, 8);
            Ok((i64_from_u64(v), pos + 8))
        } else {
            Err(DecodeError::Truncated)
        }
    }
}


/// Relies on std's `String::from_utf8`: it returns `Ok` exactly on input
/// that is valid UTF-8, and the returned string's byte encoding is the
/// input itself.
#[verifier::external_body]
fn string_from_utf8(bytes: Vec<u8>) -> (r: Option<String>)
    ensures
        r is Some <==> valid_utf8(bytes@),
        r matches Some(s) ==> encode_utf8(s@) == bytes@,
{
    String::from_utf8(bytes).ok()
}

impl Type for String {
    /// A 32-bit variable-length byte count followed by the UTF-8 bytes.
    open spec fn wire(&self) -> Seq<u8> {
        var_groups(encode_utf8(self@).len()) + encode_utf8(self@)
    }

    open spec fn read_rel(data: Seq<u8>, pos: usize, r: Result<(Self, usize), DecodeError>) -> bool {
        match text_read(data, pos as int) {
            Ok((chars, end)) => match r {
                Ok((s, next)) => s@ == chars && next as int == end,
                Err(_) => false,
            },
            Err(e) => r == Err::<(Self, usize), DecodeError>(e),
        }
    }

    /// The byte count must fit the protocol's 32-bit signed length prefix.
    open spec fn writable(&self) -> bool {
        encode_utf8(self@).len() <= 0x7fff_ffff
    }

    fn write(&self, out: &mut Vec<u8>) {
        let mut bytes = self.as_str().as_bytes_vec();
        write_var_u32(bytes.len() as u32, out);
        out.append(&mut bytes);
    }

    fn read(data: &Vec<u8>, pos: usize) -> (r: Result<(Self, usize), DecodeError>) {
        let (count, start) = match read_var_groups(data, pos, 5, VarWidth::Bits32) {
            Ok((acc, next)) => ((acc % 0x1_0000_0000) as u32, next),
            Err(e) => {
                return Err(e);
            },
        };
        if count >= 0x8000_0000 {
            return Err(DecodeError::Truncated);
        }
        let len = count as usize;
        if len > data.len() - start {
            return Err(DecodeError::Truncated);
        }
        let n: usize = data.len();
        let mut bytes: Vec<u8> = Vec::new();
        let mut i: usize = 0;
        while i < len
            invariant
                i <= len,
                start + len <= n,
                n == data@.len(),
                bytes@ == data@.subrange(start as int, start + i),
            decreases len - i,
        {
            let b = data[start + i];
            proof {
                assert(data@.subrange(start as int, start + i).push(b) =~= data@.subrange(
                    start as int,
                    start + i + 1,
                ));
            }
            bytes.push(b);
            i = i + 1;
        }
        let ghost byte_view = bytes@;
        match string_from_utf8(bytes) {
            Some(s) => {
                proof {
                    vstd::utf8::encode_utf8_decode_utf8(s@);
                }
                Ok((s, start + len))
            },
            None => Err(DecodeError::InvalidUtf8),
        }
    }
}


/// Law: a 32-bit variable-length integer's wire form is 1 to 5 bytes, and
/// decoding that form from its own start yields the value back, consuming
/// the whole form.
pub proof fn lemma_var_int_round_trip(v: VarInt, r: Result<(VarInt, usize), DecodeError>)
    requires
        VarInt::read_rel(v.wire(), 0, r),
    ensures
        1 <= v.wire().len() <= 5,
        r == Ok::<(VarInt, usize), DecodeError>((v, v.wire().len() as usize)),
{
    let n = u32_bits(v.value);
    assert(n < 0x1_0000_0000);
    assert(vstd::arithmetic::power::pow(128, 5) == 0x8_0000_0000) by {
        reveal_with_fuel(vstd::arithmetic::power::pow, 6);
    }
    lemma_var_groups_len(n, 5);
    assert(v.wire().subrange(0, v.wire().len() as int) =~= v.wire());
    lemma_var_groups_read_back(n, v.wire(), 0, 5, VarWidth::Bits32);
    match r {
        Ok((w, next)) => {
            assert(u32_bits(w.value) == n % 0x1_0000_0000);
            assert(n % 0x1_0000_0000 == n) by {
                vstd::arithmetic::div_mod::lemma_small_mod(n, 0x1_0000_0000);
            }
            assert(w.value == v.value);
        },
        Err(_) => {
            assert(false);
        },
    }
}

/// Law: a 64-bit variable-length integer's wire form is 1 to 10 bytes, and
/// decoding that form from its own start yields the value back, consuming
/// the whole form.
pub proof fn lemma_var_long_round_trip(v: VarLong, r: Result<(VarLong, usize), DecodeError>)
    requires
        VarLong::read_rel(v.wire(), 0, r),
    ensures
        1 <= v.wire().len() <= 10,
        r == Ok::<(VarLong, usize), DecodeError>((v, v.wire().len() as usize)),
{
    let n = u64_bits(v.value);
    assert(n < 0x1_0000_0000_0000_0000);
    assert(vstd::arithmetic::power::pow(128, 10) == 0x40_0000_0000_0000_0000) by {
        reveal_with_fuel(vstd::arithmetic::power::pow, 11);
    }
    lemma_var_groups_len(n, 10);
    assert(v.wire().subrange(0, v.wire().len() as int) =~= v.wire());
    lemma_var_groups_read_back(n, v.wire(), 0, 10, VarWidth::Bits64);
    match r {
        Ok((w, next)) => {
            assert(u64_bits(w.value) == n % 0x1_0000_0000_0000_0000);
            assert(n % 0x1_0000_0000_0000_0000 == n) by {
                vstd::arithmetic::div_mod::lemma_small_mod(n, 0x1_0000_0000_0000_0000);
            }
            assert(w.value == v.value);
        },
        Err(_) => {
            assert(false);
        },
    }
}

/// Law: for every string whose byte count fits the 32-bit length prefix,
/// decoding its wire form from its own start yields an equal string and
/// consumes the whole form.
pub proof fn lemma_text_round_trip(s: String, r: Result<(String, usize), DecodeError>)
    requires
        s.writable(),
        String::read_rel(s.wire(), 0, r),
    ensures
        r matches Ok(p) && p.0@ == s@ && p.1 == s.wire().len(),
{
    let bytes = encode_utf8(s@);
    let l = bytes.len();
    let prefix = var_groups(l);
    let w = s.wire();
    assert(vstd::arithmetic::power::pow(128, 5) == 0x8_0000_0000) by {
        reveal_with_fuel(vstd::arithmetic::power::pow, 6);
    }
    lemma_var_groups_len(l, 5);
    assert(w.subrange(0, prefix.len() as int) =~= prefix);
    lemma_var_groups_read_back(l, w, 0, 5, VarWidth::Bits32);
    assert(l % 0x1_0000_0000 == l) by {
        vstd::arithmetic::div_mod::lemma_small_mod(l, 0x1_0000_0000);
    }
    assert(w.subrange(prefix.len() as int, (prefix.len() + l) as int) =~= bytes);
    vstd::utf8::encode_utf8_valid_utf8(s@);
    vstd::utf8::encode_utf8_decode_utf8(s@);
    assert(text_read(w, 0) == Ok::<(Seq<char>, int), DecodeError>((s@, w.len() as int)));
}


/// Law: a 32-bit integer's four-byte wire form reads back to the value,
/// consuming exactly the four bytes.
pub proof fn lemma_i32_round_trip(v: i32, r: Result<(i32, usize), DecodeError>)
    requires
        <i32 as Type>::read_rel(v.wire(), 0, r),
    ensures
        v.wire().len() == 4,
        r == Ok::<(i32, usize), DecodeError>((v, 4)),
{
    let n = u32_bits(v);
    lemma_be_bytes_len(n, 4);
    assert(vstd::arithmetic::power::pow(256, 4) == 0x1_0000_0000) by {
        reveal_with_fuel(vstd::arithmetic::power::pow, 5);
    }
    lemma_be_round_trip(n, 4);
    assert(v.wire().subrange(0, 4) =~= v.wire());
    match r {
        Ok((w, next)) => {
            assert(u32_bits(w) == u32_bits(v));
            assert(w == v);
        },
        Err(_) => {
            assert(false);
        },
    }
}

/// Law: a 64-bit integer's eight-byte wire form reads back to the value,
/// consuming exactly the eight bytes.
pub proof fn lemma_i64_round_trip(v: i64, r: Result<(i64, usize), DecodeError>)
    requires
        <i64 as Type>::read_rel(v.wire(), 0, r),
    ensures
        v.wire().len() == 8,
        r == Ok::<(i64, usize), DecodeError>((v, 8)),
{
    let n = u64_bits(v);
    lemma_be_bytes_len(n, 8);
    assert(vstd::arithmetic::power::pow(256, 8) == 0x1_0000_0000_0000_0000) by {
        reveal_with_fuel(vstd::arithmetic::power::pow, 9);
    }
    lemma_be_round_trip(n, 8);
    assert(v.wire().subrange(0, 8) =~= v.wire());
    match r {
        Ok((w, next)) => {
            assert(u64_bits(w) == u64_bits(v));
            assert(w == v);
        },
        Err(_) => {
            assert(false);
        },
    }
}


/// Law: a negative 32-bit value always occupies the full five bytes, since
/// its two's-complement bit pattern has the top bit set.
pub proof fn lemma_var_int_negative_full_width(v: VarInt)
    requires
        v.value < 0,
    ensures
        v.wire().len() == 5,
{
    let n = u32_bits(v.value);
    assert(vstd::arithmetic::power::pow(128, 4) == 0x1000_0000) by {
        reveal_with_fuel(vstd::arithmetic::power::pow, 5);
    }
    assert(vstd::arithmetic::power::pow(128, 5) == 0x8_0000_0000) by {
        reveal_with_fuel(vstd::arithmetic::power::pow, 6);
    }
    assert(n >= 0x8000_0000);
    lemma_var_groups_len_lower(n, 5);
    lemma_var_groups_len(n, 5);
}

/// Law: a negative 64-bit value always occupies the full ten bytes, since
/// its two's-complement bit pattern has the top bit set.
pub proof fn lemma_var_long_negative_full_width(v: VarLong)
    requires
        v.value < 0,
    ensures
        v.wire().len() == 10,
{
    let n = u64_bits(v.value);
    assert(vstd::arithmetic::power::pow(128, 9) == 0x8000_0000_0000_0000) by {
        reveal_with_fuel(vstd::arithmetic::power::pow, 10);
    }
    assert(vstd::arithmetic::power::pow(128, 10) == 0x40_0000_0000_0000_0000) by {
        reveal_with_fuel(vstd::arithmetic::power::pow, 11);
    }
    assert(n >= 0x8000_0000_0000_0000);
    lemma_var_groups_len_lower(n, 10);
    lemma_var_groups_len(n, 10);
}


/// Law: a stream carrying the continuation flag on five bytes in a row at
/// the read position (as any run of six or more flagged groups does) fails
/// as an overflow naming the 32-bit type.
pub proof fn lemma_var_int_overflow(
    data: Seq<u8>,
    pos: usize,
    r: Result<(VarInt, usize), DecodeError>,
)
    requires
        pos + 5 <= data.len(),
        forall|i: int| pos <= i < pos + 5 ==> data[i] >= 128,
        VarInt::read_rel(data, pos, r),
    ensures
        r == Err::<(VarInt, usize), DecodeError>(DecodeError::Overflow(VarWidth::Bits32)),
{
    lemma_var_read_overflow(data, pos as int, 5, VarWidth::Bits32);
}

/// Law: a stream carrying the continuation flag on ten bytes in a row at
/// the read position fails as an overflow naming the 64-bit type.
pub proof fn lemma_var_long_overflow(
    data: Seq<u8>,
    pos: usize,
    r: Result<(VarLong, usize), DecodeError>,
)
    requires
        pos + 10 <= data.len(),
        forall|i: int| pos <= i < pos + 10 ==> data[i] >= 128,
        VarLong::read_rel(data, pos, r),
    ensures
        r == Err::<(VarLong, usize), DecodeError>(DecodeError::Overflow(VarWidth::Bits64)),
{
    lemma_var_read_overflow(data, pos as int, 10, VarWidth::Bits64);
}

} // verus!
