//! Reading SPIR-V shader code from bytes, in either byte order.
use vstd::prelude::*;

verus! {

/// The first word of every SPIR-V module.
pub const SPIRV_MAGIC: u32 = 0x07230203;

/// Word `i` of `bytes` read with the least significant byte first.
pub open spec fn le_word(bytes: Seq<u8>, i: int) -> int {
    bytes[4 * i] + 256 * bytes[4 * i + 1] + 65536 * bytes[4 * i + 2] + 16777216 * bytes[4 * i + 3]
}

/// Word `i` of `bytes` read with the most significant byte first.
pub open spec fn be_word(bytes: Seq<u8>, i: int) -> int {
    bytes[4 * i + 3] + 256 * bytes[4 * i + 2] + 65536 * bytes[4 * i + 1] + 16777216 * bytes[4 * i]
}

/// The words of a SPIR-V module stored in `bytes`, in whichever byte order
/// makes the first word the magic number; `None` when the length is not a
/// whole number of words or neither order gives the magic number.
pub open spec fn spirv_words(bytes: Seq<u8>) -> Option<Seq<u32>> {
    let n = bytes.len() / 4;
    if bytes.len() % 4 != 0 || n == 0 {
        None
    } else if le_word(bytes, 0) == SPIRV_MAGIC {
        Some(Seq::new(n, |i: int| le_word(bytes, i) as u32))
    } else if be_word(bytes, 0) == SPIRV_MAGIC {
        Some(Seq::new(n, |i: int| be_word(bytes, i) as u32))
    } else {
        None
    }
}

/// Word `i` of `bytes` in the given byte order.
fn word(bytes: &[u8], i: usize, big_endian: bool) -> (r: u32)
    requires
        4 * i + 3 < bytes.len(),
    ensures
        r == if big_endian {
            be_word(bytes@, i as int)
        } else {
            le_word(bytes@, i as int)
        },
{
    let b0 = bytes[4 * i] as u32;
    let b1 = bytes[4 * i + 1] as u32;
    let b2 = bytes[4 * i + 2] as u32;
    let b3 = bytes[4 * i + 3] as u32;
    if big_endian {
        b3 + 256 * b2 + 65536 * b1 + 16777216 * b0
    } else {
        b0 + 256 * b1 + 65536 * b2 + 16777216 * b3
    }
}

/// Decodes SPIR-V from bytes of either byte order into correctly aligned
/// words; `None` when the bytes are not a whole number of words or do not
/// start with the magic number in either order.
pub fn read_spv(bytes: &[u8]) -> (r: Option<Vec<u32>>)
    ensures
        match r {
            Some(words) => spirv_words(bytes@) == Some(words@),
            None => spirv_words(bytes@) is None,
        },
{
    let len = bytes.len();
    if len % 4 != 0 || len / 4 == 0 {
        return None;
    }
    let n = len / 4;
    let big_endian = if word(bytes, 0, false) == SPIRV_MAGIC {
        false
    } else if word(bytes, 0, true) == SPIRV_MAGIC {
        true
    } else {
        return None;
    };
    let mut words: Vec<u32> = Vec::new();
    let mut i: usize = 0;
    while i < n
        invariant
            n == bytes@.len() / 4,
            bytes@.len() % 4 == 0,
            i <= n,
            words@.len() == i,
            forall|j: int|
                0 <= j < i ==> words@[j] == if big_endian {
                    be_word(bytes@, j) as u32
                } else {
                    le_word(bytes@, j) as u32
                },
        decreases n - i,
    {
        let w = word(bytes, i, big_endian);
        words.push(w);
        i = i + 1;
    }
    let ghost expected = spirv_words(bytes@);
    proof {
        if big_endian {
            assert(le_word(bytes@, 0) != SPIRV_MAGIC);
            assert(expected == Some(Seq::new(n as nat, |j: int| be_word(bytes@, j) as u32)));
            assert(words@ =~= Seq::new(n as nat, |j: int| be_word(bytes@, j) as u32));
        } else {
            assert(words@ =~= Seq::new(n as nat, |j: int| le_word(bytes@, j) as u32));
        }
    }
    Some(words)
}

} // verus!
