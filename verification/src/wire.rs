//! Mathematical model of the two wire formats: variable-length integer
//! groups (7 payload bits plus a continuation flag per byte, least
//! significant group first) and fixed-width big-endian integers.

use vstd::prelude::*;

use crate::error::{DecodeError, VarWidth};
use vstd::utf8::{decode_utf8, valid_utf8};

verus! {

/// The minimal sequence of 7-bit groups encoding the unsigned value `n`:
/// every byte but the last carries the continuation flag (bit 7), and no
/// unnecessary trailing group is emitted.
pub open spec fn var_groups(n: nat) -> Seq<u8>
    decreases n,
{
    if n < 128 {
        seq![n as u8]
    } else {
        seq![(128 + n % 128) as u8] + var_groups(n / 128)
    }
}

/// The unsigned two's-complement bit pattern of an 8-bit signed integer.
pub open spec fn u8_bits(v: i8) -> nat {
    if v >= 0 {
        v as nat
    } else {
        (v + 0x100) as nat
    }
}

/// The unsigned two's-complement bit pattern of a 16-bit signed integer.
pub open spec fn u16_bits(v: i16) -> nat {
    if v >= 0 {
        v as nat
    } else {
        (v + 0x1_0000) as nat
    }
}

/// The unsigned two's-complement bit pattern of a 32-bit signed integer.
pub open spec fn u32_bits(v: i32) -> nat {
    if v >= 0 {
        v as nat
    } else {
        (v + 0x1_0000_0000) as nat
    }
}

/// The unsigned two's-complement bit pattern of a 64-bit signed integer.
pub open spec fn u64_bits(v: i64) -> nat {
    if v >= 0 {
        v as nat
    } else {
        (v + 0x1_0000_0000_0000_0000) as nat
    }
}

/// What a variable-length integer decoder yields on `data` starting at
/// `pos`, reading at most `max_groups` groups: the accumulated unsigned
/// value (exact, before any truncation to the target width) and the
/// position one past the last byte read. Groups are accumulated least
/// significant first; the first byte without the continuation flag ends the
/// run; reading past `max_groups` flagged groups is an overflow; running
/// out of bytes first is a truncation.
pub open spec fn var_read(data: Seq<u8>, pos: int, max_groups: int, width: VarWidth) -> Result<
    (nat, int),
    DecodeError,
>
    decreases max_groups,
{
    if pos < 0 || pos >= data.len() {
        Err(DecodeError::Truncated)
    } else if data[pos] < 128 {
        Ok((data[pos] as nat, pos + 1))
    } else if max_groups <= 1 {
        Err(DecodeError::Overflow(width))
    } else {
        match var_read(data, pos + 1, max_groups - 1, width) {
            Ok((v, end)) => Ok(((data[pos] - 128) as nat + 128 * v, end)),
            Err(e) => Err(e),
        }
    }
}

/// An encoding never exceeds one group per started run of 7 bits:
/// `n < 128^k` takes at most `k` groups (and always at least one).
pub proof fn lemma_var_groups_len(n: nat, k: nat)
    requires
        1 <= k,
        n < vstd::arithmetic::power::pow(128, k),
    ensures
        1 <= var_groups(n).len() <= k,
    decreases k,
{
    reveal(vstd::arithmetic::power::pow);
    vstd::arithmetic::power::lemma_pow_positive(128, (k - 1) as nat);
    if n < 128 {
    } else {
        assert(vstd::arithmetic::power::pow(128, k) == 128 * vstd::arithmetic::power::pow(
            128,
            (k - 1) as nat,
        ));
        assert(n / 128 < vstd::arithmetic::power::pow(128, (k - 1) as nat)) by (nonlinear_arith)
            requires
                n >= 128,
                n < 128 * vstd::arithmetic::power::pow(128, (k - 1) as nat),
                vstd::arithmetic::power::pow(128, (k - 1) as nat) >= 1,
        ;
        lemma_var_groups_len(n / 128, (k - 1) as nat);
    }
}

/// A value of at least `128^(k-1)` takes at least `k` groups.
pub proof fn lemma_var_groups_len_lower(n: nat, k: nat)
    requires
        1 <= k,
        n >= vstd::arithmetic::power::pow(128, (k - 1) as nat),
    ensures
        var_groups(n).len() >= k,
    decreases k,
{
    reveal(vstd::arithmetic::power::pow);
    if k == 1 {
    } else {
        vstd::arithmetic::power::lemma_pow_positive(128, (k - 2) as nat);
        assert(vstd::arithmetic::power::pow(128, (k - 1) as nat) == 128
            * vstd::arithmetic::power::pow(128, (k - 2) as nat));
        assert(n / 128 >= vstd::arithmetic::power::pow(128, (k - 2) as nat)) by (nonlinear_arith)
            requires
                n >= 128 * vstd::arithmetic::power::pow(128, (k - 2) as nat),
                vstd::arithmetic::power::pow(128, (k - 2) as nat) >= 1,
        ;
        lemma_var_groups_len_lower(n / 128, (k - 1) as nat);
    }
}

/// Reading back an encoding embedded in a larger buffer yields the encoded
/// value exactly and stops right after the encoding's last byte.
pub proof fn lemma_var_groups_read_back(n: nat, data: Seq<u8>, pos: int, max_groups: int, width: VarWidth)
    requires
        0 <= pos,
        pos + var_groups(n).len() <= data.len(),
        var_groups(n).len() <= max_groups,
        data.subrange(pos, pos + var_groups(n).len() as int) == var_groups(n),
    ensures
        var_read(data, pos, max_groups, width) == Ok::<(nat, int), DecodeError>(
            (n, pos + var_groups(n).len()),
        ),
    decreases n,
{
    let g = var_groups(n);
    assert(data[pos] == g[0]);
    if n < 128 {
        assert(g[0] == n as u8);
    } else {
        let rest = var_groups(n / 128);
        assert(g == seq![(128 + n % 128) as u8] + rest);
        assert(g[0] == (128 + n % 128) as u8);
        assert(data[pos] >= 128);
        assert(data.subrange(pos + 1, pos + g.len() as int) == rest) by {
            assert(data.subrange(pos + 1, pos + g.len() as int) =~= g.subrange(1, g.len() as int));
            assert(g.subrange(1, g.len() as int) =~= rest);
        }
        lemma_var_groups_read_back(n / 128, data, pos + 1, max_groups - 1, width);
        assert((data[pos] - 128) as nat == n % 128);
        assert(n % 128 + 128 * (n / 128) == n) by (nonlinear_arith)
            requires
                n >= 128,
        ;
    }
}

/// A run of `max_groups` bytes that all carry the continuation flag
/// overflows the decoder, whatever follows them.
pub proof fn lemma_var_read_overflow(data: Seq<u8>, pos: int, max_groups: int, width: VarWidth)
    requires
        1 <= max_groups,
        0 <= pos,
        pos + max_groups <= data.len(),
        forall|i: int| pos <= i < pos + max_groups ==> data[i] >= 128,
    ensures
        var_read(data, pos, max_groups, width) == Err::<(nat, int), DecodeError>(
            DecodeError::Overflow(width),
        ),
    decreases max_groups,
{
    assert(data[pos] >= 128);
    if max_groups > 1 {
        lemma_var_read_overflow(data, pos + 1, max_groups - 1, width);
    }
}

/// The fixed-width big-endian byte sequence of the unsigned value `n`,
/// `width` bytes long, most significant byte first.
pub open spec fn be_bytes(n: nat, width: nat) -> Seq<u8>
    decreases width,
{
    if width == 0 {
        Seq::empty()
    } else {
        be_bytes(n / 256, (width - 1) as nat).push((n % 256) as u8)
    }
}

/// The unsigned value read from a big-endian byte sequence.
pub open spec fn be_value(bytes: Seq<u8>) -> nat
    decreases bytes.len(),
{
    if bytes.len() == 0 {
        0
    } else {
        256 * be_value(bytes.drop_last()) + bytes.last() as nat
    }
}

/// A big-endian sequence is `width` bytes long.
pub proof fn lemma_be_bytes_len(n: nat, width: nat)
    ensures
        be_bytes(n, width).len() == width,
    decreases width,
{
    if width > 0 {
        lemma_be_bytes_len(n / 256, (width - 1) as nat);
    }
}

/// A big-endian sequence reads back to a value below `256^width`.
pub proof fn lemma_be_value_bound(bytes: Seq<u8>)
    ensures
        be_value(bytes) < vstd::arithmetic::power::pow(256, bytes.len()),
    decreases bytes.len(),
{
    reveal(vstd::arithmetic::power::pow);
    if bytes.len() == 0 {
    } else {
        lemma_be_value_bound(bytes.drop_last());
        assert(256 * be_value(bytes.drop_last()) + 255 < 256 * vstd::arithmetic::power::pow(
            256,
            (bytes.len() - 1) as nat,
        )) by (nonlinear_arith)
            requires
                be_value(bytes.drop_last()) < vstd::arithmetic::power::pow(
                    256,
                    (bytes.len() - 1) as nat,
                ),
        ;
    }
}

/// Reading back a big-endian encoding yields the encoded value, provided
/// the value fits in the width.
pub proof fn lemma_be_round_trip(n: nat, width: nat)
    requires
        n < vstd::arithmetic::power::pow(256, width),
    ensures
        be_value(be_bytes(n, width)) == n,
    decreases width,
{
    reveal(vstd::arithmetic::power::pow);
    if width == 0 {
    } else {
        let prefix = be_bytes(n / 256, (width - 1) as nat);
        lemma_be_bytes_len(n / 256, (width - 1) as nat);
        assert(be_bytes(n, width).drop_last() =~= prefix);
        assert(vstd::arithmetic::power::pow(256, width) == 256 * vstd::arithmetic::power::pow(
            256,
            (width - 1) as nat,
        ));
        assert(n / 256 < vstd::arithmetic::power::pow(256, (width - 1) as nat)) by (nonlinear_arith)
            requires
                n < 256 * vstd::arithmetic::power::pow(256, (width - 1) as nat),
        ;
        lemma_be_round_trip(n / 256, (width - 1) as nat);
        assert(256 * (n / 256) + n % 256 == n) by (nonlinear_arith);
    }
}


/// What the text decoder yields on `data` starting at `pos`: a 32-bit
/// variable-length byte count, then exactly that many bytes of UTF-8. A
/// count whose 32-bit pattern is negative, or larger than the bytes that
/// remain, is a truncation; a byte run that is not valid UTF-8 is its own
/// error kind.
pub open spec fn text_read(data: Seq<u8>, pos: int) -> Result<(Seq<char>, int), DecodeError> {
    match var_read(data, pos, 5, VarWidth::Bits32) {
        Err(e) => Err(e),
        Ok((n, end)) => {
            let len = n % 0x1_0000_0000;
            if len >= 0x8000_0000 || end + len > data.len() {
                Err(DecodeError::Truncated)
            } else {
                let bytes = data.subrange(end, end + len);
                if valid_utf8(bytes) {
                    Ok((decode_utf8(bytes), end + len))
                } else {
                    Err(DecodeError::InvalidUtf8)
                }
            }
        },
    }
}

} // verus!
