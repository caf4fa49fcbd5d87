//! Entity record shapes.

use vstd::prelude::*;

use crate::types::{i32_from_u32, u32_from_i32};
use crate::wire::{be_value, u32_bits};

pub mod display;
pub mod hanging;
pub mod mob;
pub mod projectile;
pub mod vehicle;

verus! {

/// An entity's unique id, carried in the persisted format as four 32-bit
/// big-endian sections of the 128-bit value, most significant first.
#[derive(Clone, Copy, Debug, PartialEq, Eq)]
pub struct McUuid {
    pub sections: [i32; 4],
}

/// The fuse length an unmarked primed-explosive record falls back to.
pub fn default_tnt_fuse() -> (r: i16)
    ensures
        r == 80,
{
    80
}

/// The value a four-byte big-endian run reads as, written out.
proof fn lemma_be_value4(s: Seq<u8>)
    requires
        s.len() == 4,
    ensures
        be_value(s) == ((s[0] * 256 + s[1]) * 256 + s[2]) * 256 + s[3],
{
    let s3 = s.drop_last();
    let s2 = s3.drop_last();
    let s1 = s2.drop_last();
    assert(s1.drop_last() =~= Seq::<u8>::empty());
    assert(s1[0] == s[0] && s2[1] == s[1] && s3[2] == s[2]);
    assert(be_value(s1.drop_last()) == 0);
    assert(be_value(s1) == s[0]);
    assert(be_value(s2) == s[0] * 256 + s[1]);
    assert(be_value(s3) == (s[0] * 256 + s[1]) * 256 + s[2]);
}

impl McUuid {
    /// Pack the sixteen raw bytes of the id, most significant first, into
    /// the four persisted sections.
    pub fn from_bytes(bytes: &[u8; 16]) -> (r: McUuid)
        ensures
            forall|k: int|
                0 <= k < 4 ==> u32_bits(#[trigger] r.sections[k]) == be_value(
                    bytes@.subrange(4 * k, 4 * k + 4),
                ),
    {
        let mut sections: [i32; 4] = [0; 4];
        let mut k: usize = 0;
        while k < 4
            invariant
                k <= 4,
                forall|j: int|
                    0 <= j < k ==> u32_bits(#[trigger] sections@[j]) == be_value(
                        bytes@.subrange(4 * j, 4 * j + 4),
                    ),
        decreases 4 - k,
        {
            let b0 = bytes[4 * k];
            let b1 = bytes[4 * k + 1];
            let b2 = bytes[4 * k + 2];
            let b3 = bytes[4 * k + 3];
            let section = ((b0 as u32) * 0x100_0000) + ((b1 as u32) * 0x1_0000) + ((b2 as u32)
                * 0x100) + (b3 as u32);
            proof {
                let run = bytes@.subrange(4 * k as int, 4 * k as int + 4);
                lemma_be_value4(run);
                assert(run[0] == b0 && run[1] == b1 && run[2] == b2 && run[3] == b3);
            }
            sections[k] = i32_from_u32(section);
            k = k + 1;
        }
        McUuid { sections }
    }

    /// Unpack the four persisted sections back into the sixteen raw bytes,
    /// most significant first.
    pub fn to_bytes(&self) -> (r: [u8; 16])
        ensures
            forall|k: int|
                0 <= k < 4 ==> be_value(r@.subrange(4 * k, 4 * k + 4)) == u32_bits(
                    #[trigger] self.sections[k],
                ),
    {
        let mut out: [u8; 16] = [0; 16];
        let mut k: usize = 0;
        while k < 4
            invariant
                k <= 4,
                forall|j: int|
                    0 <= j < k ==> be_value(#[trigger] out@.subrange(4 * j, 4 * j + 4)) == u32_bits(
                        self.sections[j],
                    ),
        decreases 4 - k,
        {
            let u = u32_from_i32(self.sections[k]);
            let ghost before = out@;
            out[4 * k] = (u / 0x100_0000) as u8;
            out[4 * k + 1] = ((u / 0x1_0000) % 256) as u8;
            out[4 * k + 2] = ((u / 0x100) % 256) as u8;
            out[4 * k + 3] = (u % 256) as u8;
            proof {
                let run = out@.subrange(4 * k as int, 4 * k as int + 4);
                lemma_be_value4(run);
                assert(u / 0x100_0000 < 256);
                assert((((u as nat / 0x100_0000) * 256 + (u as nat / 0x1_0000) % 256) * 256 + (
                u as nat / 0x100) % 256) * 256 + u as nat % 256 == u as nat) by (nonlinear_arith);
                assert(forall|j: int|
                    0 <= j < k ==> #[trigger] out@.subrange(4 * j, 4 * j + 4) =~= before.subrange(
                        4 * j,
                        4 * j + 4,
                    ));
            }
            k = k + 1;
        }
        out
    }
}

} // verus!
