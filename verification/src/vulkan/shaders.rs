//! Shader modules: from the bytes of a SPIR-V binary to its words.

use vstd::prelude::*;

use crate::vulkan::error::VkError;

verus! {

/// First word of every SPIR-V module.
pub const SPIRV_MAGIC: u32 = 0x0723_0203;

/// Number of bytes in a word.
pub const WORD_SIZE: usize = 4;

#[verifier::external_type_specification]
#[verifier::external_body]
pub struct ExIoError(std::io::Error);

/// The code of a shader module: the words to hand to the device.
#[derive(Debug, Clone)]
pub struct VkShaderModule {
    pub code: Vec<u32>,
}

/// The word at position `i` of `bytes`, read with the lowest byte first.
pub open spec fn spec_word_le(bytes: Seq<u8>, i: int) -> u32 {
    (bytes[4 * i] + 0x100 * bytes[4 * i + 1] + 0x1_0000 * bytes[4 * i + 2] + 0x100_0000 * bytes[4
        * i + 3]) as u32
}

/// The word at position `i` of `bytes`, read with the highest byte first.
pub open spec fn spec_word_be(bytes: Seq<u8>, i: int) -> u32 {
    (0x100_0000 * bytes[4 * i] + 0x1_0000 * bytes[4 * i + 1] + 0x100 * bytes[4 * i + 2] + bytes[4
        * i + 3]) as u32
}

/// The whole words of `bytes`, each read with the lowest byte first.
pub open spec fn spec_words_le(bytes: Seq<u8>) -> Seq<u32> {
    Seq::new((bytes.len() / 4) as nat, |i: int| spec_word_le(bytes, i))
}

/// The whole words of `bytes`, each read with the highest byte first.
pub open spec fn spec_words_be(bytes: Seq<u8>) -> Seq<u32> {
    Seq::new((bytes.len() / 4) as nat, |i: int| spec_word_be(bytes, i))
}

/// What ash's decoder makes of `bytes`: the words of a module that starts
/// with the magic number, in the byte order in which its first word reads as
/// the magic number; nothing for other input.
pub open spec fn spec_read_spv(bytes: Seq<u8>) -> Option<Seq<u32>> {
    if bytes.len() % 4 != 0 || bytes.len() == 0 {
        None
    } else if spec_word_le(bytes, 0) == SPIRV_MAGIC {
        Some(spec_words_le(bytes))
    } else if spec_word_be(bytes, 0) == SPIRV_MAGIC {
        Some(spec_words_be(bytes))
    } else {
        None
    }
}

/// Whether `bytes` start with the magic number, read with the lowest byte
/// first.
pub open spec fn spec_starts_with_magic(bytes: Seq<u8>) -> bool {
    bytes.len() >= 4 && spec_word_le(bytes, 0) == SPIRV_MAGIC
}

/// Calls `ash::util::read_spv` on a cursor over `bytes`.
///
/// Trusted, from the source of ash: the call fails on input whose length is
/// not a multiple of 4, and on input whose first word is not the SPIR-V
/// magic number in either byte order (empty input has no first word).
/// Otherwise it returns one word for every 4 bytes; where the first word
/// reads as the magic number only with the highest byte first, every word is
/// read that way, else every word is read with the lowest byte first.
#[verifier::external_body]
fn read_spv(bytes: &[u8]) -> (r: Result<Vec<u32>, std::io::Error>)
    ensures
        match r {
            Ok(words) => spec_read_spv(bytes@) == Some(words@),
            Err(_) => spec_read_spv(bytes@) is None,
        },
{
    ash::util::read_spv(&mut std::io::Cursor::new(bytes))
}

/// The whole words of `bytes`, each read with the lowest byte first.
fn words_le(bytes: &[u8]) -> (r: Vec<u32>)
    ensures
        r@ == spec_words_le(bytes@),
{
    let count: usize = bytes.len() / WORD_SIZE;
    let mut words: Vec<u32> = Vec::new();
    let mut i: usize = 0;
    while i < count
        invariant
            count == bytes@.len() / 4,
            4 * count <= bytes@.len() <= usize::MAX,
            i <= count,
            words@.len() == i,
            forall|k: int| 0 <= k < i ==> #[trigger] words@[k] == spec_word_le(bytes@, k),
        decreases count - i,
    {
        let b0: u32 = bytes[4 * i] as u32;
        let b1: u32 = bytes[4 * i + 1] as u32;
        let b2: u32 = bytes[4 * i + 2] as u32;
        let b3: u32 = bytes[4 * i + 3] as u32;
        words.push(b0 + 0x100 * b1 + 0x1_0000 * b2 + 0x100_0000 * b3);
        i += 1;
    }
    assert(words@ =~= spec_words_le(bytes@));
    words
}

/// Whether `bytes` start with the magic number, read with the lowest byte
/// first.
fn starts_with_magic(bytes: &[u8]) -> (r: bool)
    ensures
        r == spec_starts_with_magic(bytes@),
{
    if bytes.len() < WORD_SIZE {
        return false;
    }
    let b0: u32 = bytes[0] as u32;
    let b1: u32 = bytes[1] as u32;
    let b2: u32 = bytes[2] as u32;
    let b3: u32 = bytes[3] as u32;
    b0 + 0x100 * b1 + 0x1_0000 * b2 + 0x100_0000 * b3 == SPIRV_MAGIC
}

impl VkShaderModule {
    /// Decodes the bytes of a shader binary into the code of a shader
    /// module: its 32-bit words, each read with the lowest byte first.
    ///
    /// The only check is on the size, which must be a multiple of 4 bytes.
    /// Whether the words are valid SPIR-V is for the device to say. A module
    /// that starts with the magic number goes through ash's decoder, which
    /// reads such a module with the lowest byte first; any other input is
    /// read here.
    pub fn new(bytes: &[u8]) -> (r: Result<VkShaderModule, VkError>)
        ensures
            match r {
                Ok(module) => bytes@.len() % 4 == 0 && module.code@ == spec_words_le(bytes@),
                Err(e) => e == VkError::MalformedShader && bytes@.len() % 4 != 0,
            },
    {
        if bytes.len() % WORD_SIZE != 0 {
            return Err(VkError::MalformedShader);
        }
        let code = if starts_with_magic(bytes) {
            match read_spv(bytes) {
                Ok(words) => words,
                Err(_) => words_le(bytes),
            }
        } else {
            words_le(bytes)
        };
        Ok(VkShaderModule { code })
    }

    /// Size of the code in bytes, as the device wants it.
    pub fn code_size(&self) -> (r: Option<usize>)
        ensures
            match r {
                Some(size) => size == self.code@.len() * WORD_SIZE,
                None => self.code@.len() * WORD_SIZE > usize::MAX,
            },
    {
        self.code.len().checked_mul(WORD_SIZE)
    }
}

} // verus!
