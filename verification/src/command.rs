//! The command byte that opens every transfer.

use vstd::prelude::*;
use crate::register::{lemma_addr_injective, Register};

verus! {

/// What a transfer asks of the sensor: the register it starts at and how the
/// bytes that follow are to be taken.
///
/// On the wire a command is one byte. Bits 0 to 3 hold the register's address,
/// bit 4 asks for a block transfer, bit 5 for a word (two-byte) transfer, bit 6
/// clears a pending interrupt, and bit 7 marks the byte as a command. Bit 7 is
/// set in the byte of every command.
#[derive(Copy, Clone, PartialEq, Eq, Structural, Debug)]
pub struct Command {
    /// Clear a pending interrupt.
    pub clear: bool,
    /// Transfer two bytes, starting at `register`.
    pub word: bool,
    /// Transfer a block.
    pub block: bool,
    /// The register the transfer starts at.
    pub register: Register,
}

impl Command {
    /// The command's byte as a number: the register's address plus the
    /// weight of each bit that is set.
    pub open spec fn spec_value(self) -> u8 {
        (0x80int + (if self.clear { 0x40int } else { 0 }) + (if self.word { 0x20int } else { 0 })
            + (if self.block { 0x10int } else { 0 }) + self.register.spec_addr()) as u8
    }

    /// A plain single-byte access to `register`: no flag but the command bit.
    pub fn new(register: Register) -> (command: Self)
        ensures
            command == (Command { clear: false, word: false, block: false, register }),
    {
        Command { clear: false, word: false, block: false, register }
    }

    /// The same command as a word transfer.
    pub fn enable_word_protocol(self) -> (command: Self)
        ensures
            command == (Command { word: true, ..self }),
    {
        let mut command = self;
        command.word = true;
        command
    }

    /// The byte to send.
    #[verifier::when_used_as_spec(spec_value)]
    pub fn value(self) -> (byte: u8)
        ensures
            byte == self.spec_value(),
            byte & 0x80 == 0x80,
    {
        let addr: u8 = self.register.addr();
        let clear: u8 = self.clear as u8;
        let word: u8 = self.word as u8;
        let block: u8 = self.block as u8;
        let byte: u8 = addr | (1u8 << 7) | (clear << 6) | (word << 5) | (block << 4);
        assert(byte == 0x80 + 0x40 * clear + 0x20 * word + 0x10 * block + addr && byte & 0x80
            == 0x80) by (bit_vector)
            requires
                byte == addr | (1u8 << 7) | (clear << 6) | (word << 5) | (block << 4),
                addr <= 0x0F,
                clear <= 1,
                word <= 1,
                block <= 1,
        ;
        byte
    }
}

/// Where each part of a command sits in its byte: the register's address in
/// bits 0 to 3, the block flag in bit 4, the word flag in bit 5, the clear flag
/// in bit 6, and bit 7 always set.
pub proof fn lemma_value_layout(command: Command)
    ensures
        command.value() & 0x0F == command.register.addr(),
        (command.value() & 0x10 == 0x10) == command.block,
        (command.value() & 0x20 == 0x20) == command.word,
        (command.value() & 0x40 == 0x40) == command.clear,
        command.value() & 0x80 == 0x80,
{
    let byte: u8 = command.value();
    let addr: u8 = command.register.addr();
    let clear: u8 = if command.clear { 1 } else { 0 };
    let word: u8 = if command.word { 1 } else { 0 };
    let block: u8 = if command.block { 1 } else { 0 };
    assert(byte & 0x0F == addr && (byte & 0x10 == 0x10) == (block == 1) && (byte & 0x20 == 0x20)
        == (word == 1) && (byte & 0x40 == 0x40) == (clear == 1) && byte & 0x80 == 0x80)
        by (bit_vector)
        requires
            byte == 0x80 + 0x40 * clear + 0x20 * word + 0x10 * block + addr,
            addr <= 0x0F,
            clear <= 1,
            word <= 1,
            block <= 1,
    ;
}

/// A command can be read back from its byte: two commands with the same byte
/// are the same command.
pub proof fn lemma_value_injective(a: Command, b: Command)
    requires
        a.value() == b.value(),
    ensures
        a == b,
{
    lemma_value_layout(a);
    lemma_value_layout(b);
    lemma_addr_injective(a.register, b.register);
}

} // verus!
