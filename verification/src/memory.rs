//! The flat memory image: 16 MiB of bytes, read and written in big-endian
//! units of one, two, four and eight bytes at aligned addresses.

use vstd::prelude::*;
use crate::opcodes::{decoding_inverts_encoding, DecodeError, Opcode};
use crate::{Address, Byte, Halfword, Instruction, Word};

verus! {

/// The number of bytes in the memory image.
pub const MEMORY_SIZE: usize = 16777216;

/// The halfword whose big-endian bytes stand at `address` and `address + 1`.
#[verifier::opaque]
pub open spec fn halfword_at(bytes: Seq<u8>, address: int) -> Halfword {
    (bytes[address] * 0x100 + bytes[address + 1]) as Halfword
}

/// The word whose big-endian bytes stand at `address .. address + 4`.
#[verifier::opaque]
pub open spec fn word_at(bytes: Seq<u8>, address: int) -> Word {
    (bytes[address] * 0x100_0000 + bytes[address + 1] * 0x1_0000 + bytes[address + 2] * 0x100
        + bytes[address + 3]) as Word
}

/// The instruction whose big-endian bytes stand at `address .. address + 8`.
#[verifier::opaque]
pub open spec fn instruction_at(bytes: Seq<u8>, address: int) -> Instruction {
    (word_at(bytes, address) * 0x1_0000_0000 + word_at(bytes, address + 4)) as Instruction
}

/// The byte of `value` that has `position` less significant bytes behind it.
pub open spec fn byte_of(value: int, position: int) -> u8
    recommends
        0 <= position < 8,
{
    let place: int = if position == 0 {
        0x1
    } else if position == 1 {
        0x100
    } else if position == 2 {
        0x1_0000
    } else if position == 3 {
        0x100_0000
    } else if position == 4 {
        0x1_0000_0000
    } else if position == 5 {
        0x100_0000_0000
    } else if position == 6 {
        0x1_0000_0000_0000
    } else {
        0x100_0000_0000_0000
    };
    ((value / place) % 0x100) as u8
}

/// `bytes` with the two big-endian bytes of `value` at `address`.
#[verifier::opaque]
pub open spec fn with_halfword(bytes: Seq<u8>, address: int, value: Halfword) -> Seq<u8> {
    bytes.update(address, byte_of(value as int, 1)).update(address + 1, byte_of(value as int, 0))
}

/// `bytes` with the four big-endian bytes of `value` at `address`.
#[verifier::opaque]
pub open spec fn with_word(bytes: Seq<u8>, address: int, value: Word) -> Seq<u8> {
    bytes.update(address, byte_of(value as int, 3)).update(
        address + 1,
        byte_of(value as int, 2),
    ).update(address + 2, byte_of(value as int, 1)).update(address + 3, byte_of(value as int, 0))
}

/// `bytes` with the eight big-endian bytes of `value` at `address`.
#[verifier::opaque]
pub open spec fn with_instruction(bytes: Seq<u8>, address: int, value: Instruction) -> Seq<u8> {
    with_word(
        with_word(bytes, address, (value / 0x1_0000_0000) as Word),
        address + 4,
        (value % 0x1_0000_0000) as Word,
    )
}

/// Whether `width` bytes at `address` lie inside the memory image and start at
/// a multiple of `width`.
#[verifier::opaque]
pub open spec fn accessible(address: int, width: int) -> bool {
    &&& 0 <= address
    &&& address + width <= MEMORY_SIZE
    &&& address % width == 0
}

/// A byte that was written is the byte that is read.
pub proof fn byte_round_trip(bytes: Seq<u8>, address: int, value: Byte)
    requires
        0 <= address < bytes.len(),
    ensures
        bytes.update(address, value)[address] == value,
{
}

/// A halfword that was written is the halfword that is read at that address.
pub proof fn halfword_round_trip(bytes: Seq<u8>, address: int, value: Halfword)
    requires
        0 <= address,
        address + 2 <= bytes.len(),
    ensures
        halfword_at(with_halfword(bytes, address, value), address) == value,
{
    reveal(halfword_at);
    reveal(with_halfword);
}

/// A word that was written is the word that is read at that address.
pub proof fn word_round_trip(bytes: Seq<u8>, address: int, value: Word)
    requires
        0 <= address,
        address + 4 <= bytes.len(),
    ensures
        word_at(with_word(bytes, address, value), address) == value,
{
    reveal(word_at);
    reveal(with_word);
}

/// An instruction that was written is the instruction that is read at that
/// address.
pub proof fn instruction_round_trip(bytes: Seq<u8>, address: int, value: Instruction)
    requires
        0 <= address,
        address + 8 <= bytes.len(),
    ensures
        instruction_at(with_instruction(bytes, address, value), address) == value,
{
    reveal(instruction_at);
    reveal(with_instruction);
    let high = (value / 0x1_0000_0000) as Word;
    let low = (value % 0x1_0000_0000) as Word;
    let first = with_word(bytes, address, high);
    word_write_keeps_rest(bytes, address, high);
    word_round_trip(first, address + 4, low);
    word_round_trip(bytes, address, high);
    word_write_keeps_rest(first, address + 4, low);
    word_reads_its_bytes(first, with_word(first, address + 4, low), address);
}

/// A word is read from the four bytes at its address and from no others.
pub proof fn word_reads_its_bytes(a: Seq<u8>, b: Seq<u8>, address: int)
    requires
        forall|i: int| address <= i < address + 4 ==> a[i] == b[i],
    ensures
        word_at(a, address) == word_at(b, address),
{
    reveal(word_at);
}

/// What it takes for bytes to be accessible: they lie in the memory image and
/// start at a multiple of their number.
pub proof fn accessible_means(address: int, width: int)
    ensures
        accessible(address, width) <==> 0 <= address && address + width <= MEMORY_SIZE && address
            % width == 0,
{
    reveal(accessible);
}

/// Writing a word changes the four bytes at its address and no others, and
/// keeps the length of the image.
pub proof fn word_write_keeps_rest(bytes: Seq<u8>, address: int, value: Word)
    requires
        0 <= address,
        address + 4 <= bytes.len(),
    ensures
        with_word(bytes, address, value).len() == bytes.len(),
        forall|i: int|
            0 <= i < bytes.len() && !(address <= i < address + 4) ==> with_word(
                bytes,
                address,
                value,
            )[i] == bytes[i],
{
    reveal(with_word);
}

/// Writing a halfword changes the two bytes at its address and no others, and
/// keeps the length of the image.
pub proof fn halfword_write_keeps_rest(bytes: Seq<u8>, address: int, value: Halfword)
    requires
        0 <= address,
        address + 2 <= bytes.len(),
    ensures
        with_halfword(bytes, address, value).len() == bytes.len(),
        forall|i: int|
            0 <= i < bytes.len() && !(address <= i < address + 2) ==> with_halfword(
                bytes,
                address,
                value,
            )[i] == bytes[i],
{
    reveal(with_halfword);
}

/// Writing an instruction changes the eight bytes at its address and no
/// others, and keeps the length of the image.
pub proof fn instruction_write_keeps_rest(bytes: Seq<u8>, address: int, value: Instruction)
    requires
        0 <= address,
        address + 8 <= bytes.len(),
    ensures
        with_instruction(bytes, address, value).len() == bytes.len(),
        forall|i: int|
            0 <= i < bytes.len() && !(address <= i < address + 8) ==> with_instruction(
                bytes,
                address,
                value,
            )[i] == bytes[i],
{
    reveal(with_instruction);
    let high = (value / 0x1_0000_0000) as Word;
    let low = (value % 0x1_0000_0000) as Word;
    word_write_keeps_rest(bytes, address, high);
    word_write_keeps_rest(with_word(bytes, address, high), address + 4, low);
}

/// The four bytes of a word, the most significant first.
pub open spec fn word_bytes(word: Word) -> Seq<u8> {
    seq![
        byte_of(word as int, 3),
        byte_of(word as int, 2),
        byte_of(word as int, 1),
        byte_of(word as int, 0),
    ]
}

/// The bytes of `words`: the four bytes of each word, in the order of the
/// words.
pub open spec fn words_bytes(words: Seq<Word>) -> Seq<u8>
    decreases words.len(),
{
    if words.len() == 0 {
        Seq::empty()
    } else {
        words_bytes(words.drop_last()) + word_bytes(words.last())
    }
}

/// A word is read back from its own bytes, wherever they stand.
pub proof fn word_bytes_read_back(bytes: Seq<u8>, address: int, word: Word)
    requires
        0 <= address,
        address + 4 <= bytes.len(),
        bytes.subrange(address, address + 4) == word_bytes(word),
    ensures
        word_at(bytes, address) == word,
{
    reveal(word_at);
    let own = word_bytes(word);
    let part = bytes.subrange(address, address + 4);
    assert(part[0] == bytes[address] && own[0] == byte_of(word as int, 3));
    assert(part[1] == bytes[address + 1] && own[1] == byte_of(word as int, 2));
    assert(part[2] == bytes[address + 2] && own[2] == byte_of(word as int, 1));
    assert(part[3] == bytes[address + 3] && own[3] == byte_of(word as int, 0));
}

/// Puts the four bytes of `word` behind `code`, the most significant first.
pub fn push_word(code: &mut Vec<u8>, word: Word)
    ensures
        final(code)@ == old(code)@ + word_bytes(word),
{
    code.push((word / 0x100_0000) as u8);
    code.push(((word / 0x1_0000) % 0x100) as u8);
    code.push(((word / 0x100) % 0x100) as u8);
    code.push((word % 0x100) as u8);
    assert(code@ =~= old(code)@ + word_bytes(word));
}

/// The bytes of `words`, four for each word, the most significant first.
pub fn words_to_bytes(words: &[Word]) -> (bytes: Vec<u8>)
    ensures
        bytes@ == words_bytes(words@),
{
    let mut bytes: Vec<u8> = Vec::new();
    let mut done: usize = 0;
    while done < words.len()
        invariant
            done <= words@.len(),
            bytes@ == words_bytes(words@.take(done as int)),
        decreases words@.len() - done,
    {
        push_word(&mut bytes, words[done]);
        proof {
            let now = words@.take(done + 1);
            assert(now.drop_last() =~= words@.take(done as int));
            assert(now.last() == words@[done as int]);
        }
        done = done + 1;
    }
    assert(words@.take(done as int) =~= words@);
    bytes
}

pub struct Memory {
    data: Vec<u8>,
}

impl View for Memory {
    type V = Seq<u8>;

    closed spec fn view(&self) -> Seq<u8> {
        self.data@
    }
}

impl Memory {
    /// A memory image has exactly `MEMORY_SIZE` bytes.
    pub open spec fn wf(&self) -> bool {
        self@.len() == MEMORY_SIZE
    }

    /// A memory image in which every byte is zero.
    pub fn new() -> (memory: Self)
        ensures
            memory.wf(),
            forall|i: int| 0 <= i < MEMORY_SIZE ==> memory@[i] == 0,
    {
        Self { data: vec![0u8; MEMORY_SIZE] }
    }

    /// The whole image, byte by byte.
    pub fn data(&self) -> (bytes: &[u8])
        ensures
            bytes@ == self@,
    {
        self.data.as_slice()
    }

    pub fn read_byte(&self, address: Address) -> (value: Byte)
        requires
            self.wf(),
            accessible(address as int, 1),
        ensures
            value == self@[address as int],
    {
        proof {
            reveal(accessible);
        }
        self.data[address as usize]
    }

    pub fn read_halfword(&self, address: Address) -> (value: Halfword)
        requires
            self.wf(),
            accessible(address as int, 2),
        ensures
            value == halfword_at(self@, address as int),
    {
        proof {
            reveal(accessible);
            reveal(halfword_at);
        }
        let at: usize = address as usize;
        let high: u16 = self.data[at] as u16;
        let low: u16 = self.data[at + 1] as u16;
        high * 0x100 + low
    }

    /// Reads the word at `address`.
    pub fn read_data(&self, address: Address) -> (value: Word)
        requires
            self.wf(),
            accessible(address as int, 4),
        ensures
            value == word_at(self@, address as int),
    {
        proof {
            reveal(accessible);
            reveal(word_at);
        }
        let at: usize = address as usize;
        let b0: u32 = self.data[at] as u32;
        let b1: u32 = self.data[at + 1] as u32;
        let b2: u32 = self.data[at + 2] as u32;
        let b3: u32 = self.data[at + 3] as u32;
        b0 * 0x100_0000 + b1 * 0x1_0000 + b2 * 0x100 + b3
    }

    pub fn read_instruction(&self, address: Address) -> (value: Instruction)
        requires
            self.wf(),
            accessible(address as int, 8),
        ensures
            value == instruction_at(self@, address as int),
    {
        proof {
            reveal(accessible);
            reveal(instruction_at);
        }
        assert(accessible(address as int, 4) && accessible(address + 4, 4));
        let high: u64 = self.read_data(address) as u64;
        let low: u64 = self.read_data(address + 4) as u64;
        high * 0x1_0000_0000 + low
    }

    pub fn write_byte(&mut self, address: Address, value: Byte)
        requires
            old(self).wf(),
            accessible(address as int, 1),
        ensures
            final(self).wf(),
            final(self)@ == old(self)@.update(address as int, value),
    {
        proof {
            reveal(accessible);
        }
        self.data[address as usize] = value;
    }

    pub fn write_halfword(&mut self, address: Address, value: Halfword)
        requires
            old(self).wf(),
            accessible(address as int, 2),
        ensures
            final(self).wf(),
            final(self)@ == with_halfword(old(self)@, address as int, value),
    {
        proof {
            reveal(accessible);
            reveal(with_halfword);
        }
        let at: usize = address as usize;
        self.data[at] = (value / 0x100) as u8;
        self.data[at + 1] = (value % 0x100) as u8;
    }

    /// Writes the word `data` at `address`.
    pub fn write_data(&mut self, address: Address, data: Word)
        requires
            old(self).wf(),
            accessible(address as int, 4),
        ensures
            final(self).wf(),
            final(self)@ == with_word(old(self)@, address as int, data),
    {
        proof {
            reveal(accessible);
            reveal(with_word);
        }
        let at: usize = address as usize;
        self.data[at] = (data / 0x100_0000) as u8;
        self.data[at + 1] = ((data / 0x1_0000) % 0x100) as u8;
        self.data[at + 2] = ((data / 0x100) % 0x100) as u8;
        self.data[at + 3] = (data % 0x100) as u8;
    }

    pub fn write_instruction(&mut self, address: Address, value: Instruction)
        requires
            old(self).wf(),
            accessible(address as int, 8),
        ensures
            final(self).wf(),
            final(self)@ == with_instruction(old(self)@, address as int, value),
    {
        proof {
            reveal(accessible);
            reveal(with_instruction);
        }
        let high: u32 = (value / 0x1_0000_0000) as u32;
        let low: u32 = (value % 0x1_0000_0000) as u32;
        assert(accessible(address as int, 4) && accessible(address + 4, 4));
        self.write_data(address, high);
        self.write_data(address + 4, low);
    }

    /// Decodes the instruction at `address`.
    pub fn read_opcode(&self, address: Address) -> (decoded: Result<Opcode, DecodeError>)
        requires
            self.wf(),
            accessible(address as int, 8),
        ensures
            match decoded {
                Ok(opcode) => Opcode::decoding(instruction_at(self@, address as int)) == Some(
                    opcode,
                ),
                Err(error) => {
                    &&& Opcode::decoding(instruction_at(self@, address as int)) is None
                    &&& error.code == crate::opcodes::code_field(
                        instruction_at(self@, address as int),
                    )
                },
            },
    {
        Opcode::try_from(self.read_instruction(address))
    }

    /// Writes the instruction word of `opcode` at `address`.
    pub fn write_opcode(&mut self, address: Address, opcode: Opcode)
        requires
            old(self).wf(),
            accessible(address as int, 8),
        ensures
            final(self).wf(),
            final(self)@ == with_instruction(old(self)@, address as int, opcode.encoding()),
    {
        self.write_instruction(address, opcode.as_instruction());
    }

    /// Puts `bytes` into the image from `address` on.
    pub fn load(&mut self, address: Address, bytes: &[u8])
        requires
            old(self).wf(),
            address + bytes@.len() <= MEMORY_SIZE,
        ensures
            final(self).wf(),
            final(self)@ == old(self)@.subrange(0, address as int) + bytes@ + old(self)@.subrange(
                address + bytes@.len(),
                MEMORY_SIZE as int,
            ),
    {
        let start: usize = address as usize;
        let mut done: usize = 0;
        while done < bytes.len()
            invariant
                done <= bytes@.len(),
                start == address,
                start + bytes@.len() <= MEMORY_SIZE,
                self.data@.len() == MEMORY_SIZE,
                old(self).data@.len() == MEMORY_SIZE,
                self.data@ =~= old(self).data@.subrange(0, start as int) + bytes@.take(done as int)
                    + old(self).data@.subrange(start + done, MEMORY_SIZE as int),
            decreases bytes@.len() - done,
        {
            self.data[start + done] = bytes[done];
            done = done + 1;
        }
        assert(bytes@.take(done as int) =~= bytes@);
    }
}

/// An opcode that was written is the opcode that is decoded at that address.
pub proof fn opcode_round_trip(bytes: Seq<u8>, address: int, opcode: Opcode)
    requires
        0 <= address,
        address + 8 <= bytes.len(),
    ensures
        Opcode::decoding(
            instruction_at(with_instruction(bytes, address, opcode.encoding()), address),
        ) == Some(opcode),
{
    instruction_round_trip(bytes, address, opcode.encoding());
    decoding_inverts_encoding(opcode);
}

} // verus!
