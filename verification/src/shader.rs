use vstd::prelude::*;

verus! {

/// The SPIR-V magic number, the first word of every SPIR-V module.
pub const SPIRV_MAGIC_NUMBER: u32 = 0x0723_0203;

/// Word `i` of `bytes` read in little-endian byte order.
pub open spec fn le_word(bytes: Seq<u8>, i: int) -> u32 {
    (bytes[4 * i] as int + 0x100 * bytes[4 * i + 1] + 0x1_0000 * bytes[4 * i + 2] + 0x100_0000
        * bytes[4 * i + 3]) as u32
}

/// Word `i` of `bytes` read in big-endian byte order.
pub open spec fn be_word(bytes: Seq<u8>, i: int) -> u32 {
    (0x100_0000 * bytes[4 * i] + 0x1_0000 * bytes[4 * i + 1] + 0x100 * bytes[4 * i + 2]
        + bytes[4 * i + 3] as int) as u32
}

/// The SPIR-V module held in a shader file's bytes: whole 32-bit words, in the
/// byte order that makes the first word the magic number. `None` when the
/// length is not a positive multiple of four or neither byte order starts
/// with the magic number.
pub open spec fn spirv_words(bytes: Seq<u8>) -> Option<Seq<u32>> {
    if bytes.len() == 0 || bytes.len() % 4 != 0 {
        None
    } else if le_word(bytes, 0) == SPIRV_MAGIC_NUMBER {
        Some(Seq::new(bytes.len() / 4, |i: int| le_word(bytes, i)))
    } else if be_word(bytes, 0) == SPIRV_MAGIC_NUMBER {
        Some(Seq::new(bytes.len() / 4, |i: int| be_word(bytes, i)))
    } else {
        None
    }
}

/// `ash::util::read_spv` over the bytes in memory. It fails when the length
/// is not a multiple of four; it reads the words in the machine's byte order,
/// swaps every word when the first one is the byte-swapped magic number, and
/// fails unless the first word is then the magic number (so an empty input
/// fails too). Reading from an in-memory cursor cannot fail otherwise.
#[verifier::external_body]
fn read_spv_words(bytes: &Vec<u8>) -> (words: Option<Vec<u32>>)
    ensures
        match words {
            Some(w) => spirv_words(bytes@) == Some(w@),
            None => spirv_words(bytes@) is None,
        },
{
    ash::util::read_spv(&mut std::io::Cursor::new(&bytes[..])).ok()
}

/// Decodes the SPIR-V code of a shader file from its bytes, as handed to the
/// driver when the shader module is created.
pub fn decode_spirv(bytes: &Vec<u8>) -> (words: Option<Vec<u32>>)
    ensures
        match words {
            Some(w) => {
                &&& spirv_words(bytes@) == Some(w@)
                &&& w@.len() == bytes@.len() / 4
                &&& w@.len() > 0
                &&& w@[0] == SPIRV_MAGIC_NUMBER
            },
            None => spirv_words(bytes@) is None,
        },
{
    read_spv_words(bytes)
}

} // verus!
