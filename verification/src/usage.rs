//! The usage that a buffer is declared with.

use vstd::prelude::*;
use crate::flags::{
    has_flag, BUFFER_USAGE_TRANSFER_SRC_BIT, BUFFER_USAGE_TRANSFER_DST_BIT,
    BUFFER_USAGE_UNIFORM_TEXEL_BUFFER_BIT, BUFFER_USAGE_STORAGE_TEXEL_BUFFER_BIT,
    BUFFER_USAGE_UNIFORM_BUFFER_BIT, BUFFER_USAGE_STORAGE_BUFFER_BIT,
    BUFFER_USAGE_INDEX_BUFFER_BIT, BUFFER_USAGE_VERTEX_BUFFER_BIT,
    BUFFER_USAGE_INDIRECT_BUFFER_BIT,
};

verus! {

/// Describes how a buffer is going to be used. This is **not** an optimization.
///
/// If you try to use a buffer in a way that you didn't declare, a panic will happen.
#[derive(Debug, Copy, Clone)]
pub struct Usage {
    pub transfer_source: bool,
    pub transfer_dest: bool,
    pub uniform_texel_buffer: bool,
    pub storage_texel_buffer: bool,
    pub uniform_buffer: bool,
    pub storage_buffer: bool,
    pub index_buffer: bool,
    pub vertex_buffer: bool,
    pub indirect_buffer: bool,
}

/// `flag` when `set` holds, else no flag.
pub open spec fn flag_if(set: bool, flag: u32) -> u32 {
    if set { flag } else { 0 }
}

/// The Vulkan usage flags of a declared usage: the union of the flag of each
/// usage that is declared.
pub open spec fn usage_bits(u: Usage) -> u32 {
    flag_if(u.transfer_source, BUFFER_USAGE_TRANSFER_SRC_BIT)
        | flag_if(u.transfer_dest, BUFFER_USAGE_TRANSFER_DST_BIT)
        | flag_if(u.uniform_texel_buffer, BUFFER_USAGE_UNIFORM_TEXEL_BUFFER_BIT)
        | flag_if(u.storage_texel_buffer, BUFFER_USAGE_STORAGE_TEXEL_BUFFER_BIT)
        | flag_if(u.uniform_buffer, BUFFER_USAGE_UNIFORM_BUFFER_BIT)
        | flag_if(u.storage_buffer, BUFFER_USAGE_STORAGE_BUFFER_BIT)
        | flag_if(u.index_buffer, BUFFER_USAGE_INDEX_BUFFER_BIT)
        | flag_if(u.vertex_buffer, BUFFER_USAGE_VERTEX_BUFFER_BIT)
        | flag_if(u.indirect_buffer, BUFFER_USAGE_INDIRECT_BUFFER_BIT)
}

/// Each declared usage can be read back from the usage flags: a flag is set if and
/// only if its usage was declared, and no flag outside the nine buffer usages is set.
pub proof fn lemma_usage_bits_decode(u: Usage)
    ensures
        has_flag(usage_bits(u), BUFFER_USAGE_TRANSFER_SRC_BIT) == u.transfer_source,
        has_flag(usage_bits(u), BUFFER_USAGE_TRANSFER_DST_BIT) == u.transfer_dest,
        has_flag(usage_bits(u), BUFFER_USAGE_UNIFORM_TEXEL_BUFFER_BIT) == u.uniform_texel_buffer,
        has_flag(usage_bits(u), BUFFER_USAGE_STORAGE_TEXEL_BUFFER_BIT) == u.storage_texel_buffer,
        has_flag(usage_bits(u), BUFFER_USAGE_UNIFORM_BUFFER_BIT) == u.uniform_buffer,
        has_flag(usage_bits(u), BUFFER_USAGE_STORAGE_BUFFER_BIT) == u.storage_buffer,
        has_flag(usage_bits(u), BUFFER_USAGE_INDEX_BUFFER_BIT) == u.index_buffer,
        has_flag(usage_bits(u), BUFFER_USAGE_VERTEX_BUFFER_BIT) == u.vertex_buffer,
        has_flag(usage_bits(u), BUFFER_USAGE_INDIRECT_BUFFER_BIT) == u.indirect_buffer,
        usage_bits(u) & !0x1FFu32 == 0,
{
    let a = u.transfer_source;
    let b = u.transfer_dest;
    let c = u.uniform_texel_buffer;
    let d = u.storage_texel_buffer;
    let e = u.uniform_buffer;
    let f = u.storage_buffer;
    let g = u.index_buffer;
    let h = u.vertex_buffer;
    let i = u.indirect_buffer;
    let x: u32 = (if a { 1u32 } else { 0u32 }) | (if b { 2u32 } else { 0u32 }) | (if c { 4u32 } else { 0u32 })
        | (if d { 8u32 } else { 0u32 }) | (if e { 16u32 } else { 0u32 }) | (if f { 32u32 } else { 0u32 })
        | (if g { 64u32 } else { 0u32 }) | (if h { 128u32 } else { 0u32 }) | (if i { 256u32 } else { 0u32 });
    assert(x == usage_bits(u));
    assert({
        &&& (x & 1 != 0) == a
        &&& (x & 2 != 0) == b
        &&& (x & 4 != 0) == c
        &&& (x & 8 != 0) == d
        &&& (x & 16 != 0) == e
        &&& (x & 32 != 0) == f
        &&& (x & 64 != 0) == g
        &&& (x & 128 != 0) == h
        &&& (x & 256 != 0) == i
        &&& x & !0x1FFu32 == 0
    }) by (bit_vector)
        requires
            x == (if a { 1u32 } else { 0u32 }) | (if b { 2u32 } else { 0u32 }) | (if c { 4u32 } else { 0u32 })
                | (if d { 8u32 } else { 0u32 }) | (if e { 16u32 } else { 0u32 }) | (if f { 32u32 } else { 0u32 })
                | (if g { 64u32 } else { 0u32 }) | (if h { 128u32 } else { 0u32 }) | (if i { 256u32 } else { 0u32 }),
    ;
}

/// Setting a flag when a condition holds is taking the union with that flag, or
/// with no flag.
proof fn lemma_or_flag_if(r: u32, set: bool, flag: u32)
    ensures
        (if set { r | flag } else { r }) == r | flag_if(set, flag),
{
    assert(r | 0u32 == r) by (bit_vector);
}

/// The union of no flags and `x` is `x`.
proof fn lemma_zero_or(x: u32)
    ensures
        0u32 | x == x,
{
    assert(0u32 | x == x) by (bit_vector);
}

impl Usage {
    /// Builds a `Usage` with all values set to true. Can be used for quick prototyping.
    pub fn all() -> (r: Usage)
        ensures
            r.transfer_source,
            r.transfer_dest,
            r.uniform_texel_buffer,
            r.storage_texel_buffer,
            r.uniform_buffer,
            r.storage_buffer,
            r.index_buffer,
            r.vertex_buffer,
            r.indirect_buffer,
            usage_bits(r) == 0x1FF,
    {
        assert(0x1u32 | 0x2u32 | 0x4u32 | 0x8u32 | 0x10u32 | 0x20u32 | 0x40u32 | 0x80u32 | 0x100u32 == 0x1FFu32)
            by (bit_vector);
        Usage {
            transfer_source: true,
            transfer_dest: true,
            uniform_texel_buffer: true,
            storage_texel_buffer: true,
            uniform_buffer: true,
            storage_buffer: true,
            index_buffer: true,
            vertex_buffer: true,
            indirect_buffer: true,
        }
    }

    /// The Vulkan usage flags of this usage.
    pub fn to_usage_bits(&self) -> (r: u32)
        ensures
            r == usage_bits(*self),
    {
        let mut result: u32 = 0;
        let ghost before = result;
        if self.transfer_source {
            result = result | BUFFER_USAGE_TRANSFER_SRC_BIT;
        }
        proof {
            lemma_or_flag_if(before, self.transfer_source, BUFFER_USAGE_TRANSFER_SRC_BIT);
        }
        let ghost before = result;
        if self.transfer_dest {
            result = result | BUFFER_USAGE_TRANSFER_DST_BIT;
        }
        proof {
            lemma_or_flag_if(before, self.transfer_dest, BUFFER_USAGE_TRANSFER_DST_BIT);
        }
        let ghost before = result;
        if self.uniform_texel_buffer {
            result = result | BUFFER_USAGE_UNIFORM_TEXEL_BUFFER_BIT;
        }
        proof {
            lemma_or_flag_if(before, self.uniform_texel_buffer, BUFFER_USAGE_UNIFORM_TEXEL_BUFFER_BIT);
        }
        let ghost before = result;
        if self.storage_texel_buffer {
            result = result | BUFFER_USAGE_STORAGE_TEXEL_BUFFER_BIT;
        }
        proof {
            lemma_or_flag_if(before, self.storage_texel_buffer, BUFFER_USAGE_STORAGE_TEXEL_BUFFER_BIT);
        }
        let ghost before = result;
        if self.uniform_buffer {
            result = result | BUFFER_USAGE_UNIFORM_BUFFER_BIT;
        }
        proof {
            lemma_or_flag_if(before, self.uniform_buffer, BUFFER_USAGE_UNIFORM_BUFFER_BIT);
        }
        let ghost before = result;
        if self.storage_buffer {
            result = result | BUFFER_USAGE_STORAGE_BUFFER_BIT;
        }
        proof {
            lemma_or_flag_if(before, self.storage_buffer, BUFFER_USAGE_STORAGE_BUFFER_BIT);
        }
        let ghost before = result;
        if self.index_buffer {
            result = result | BUFFER_USAGE_INDEX_BUFFER_BIT;
        }
        proof {
            lemma_or_flag_if(before, self.index_buffer, BUFFER_USAGE_INDEX_BUFFER_BIT);
        }
        let ghost before = result;
        if self.vertex_buffer {
            result = result | BUFFER_USAGE_VERTEX_BUFFER_BIT;
        }
        proof {
            lemma_or_flag_if(before, self.vertex_buffer, BUFFER_USAGE_VERTEX_BUFFER_BIT);
        }
        let ghost before = result;
        if self.indirect_buffer {
            result = result | BUFFER_USAGE_INDIRECT_BUFFER_BIT;
        }
        proof {
            lemma_or_flag_if(before, self.indirect_buffer, BUFFER_USAGE_INDIRECT_BUFFER_BIT);
        }
        proof {
            lemma_zero_or(flag_if(self.transfer_source, BUFFER_USAGE_TRANSFER_SRC_BIT));
        }
        result
    }
}

} // verus!
