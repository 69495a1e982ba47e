//! The two kinds of bus transfer the sensor is driven with, as values.
//!
//! A transfer says what to send and to whom. Whoever owns the bus performs it
//! and passes what the bus reported to `complete`, which turns it into the
//! operation's result.

use vstd::prelude::*;
use crate::word::{decode_word, word_of};

verus! {

/// A write of two bytes: a command byte, then the value for the register it
/// names.
#[derive(Copy, Clone, PartialEq, Eq, Debug)]
pub struct Write {
    /// The 7-bit address of the peer.
    pub address: u8,
    /// The bytes to send, in order.
    pub bytes: [u8; 2],
}

impl Write {
    /// The operation's result, given what the bus reported of the write: the
    /// report itself, success or failure, with nothing added or taken away.
    pub fn complete<E>(&self, outcome: Result<(), E>) -> (result: Result<(), E>)
        ensures
            result == outcome,
    {
        outcome
    }
}

/// A write of one command byte followed, in the same transfer, by a read of
/// `read_len` bytes.
#[derive(Copy, Clone, PartialEq, Eq, Debug)]
pub struct WriteRead {
    /// The 7-bit address of the peer.
    pub address: u8,
    /// The bytes to send, in order.
    pub bytes: [u8; 1],
    /// How many bytes to read back.
    pub read_len: usize,
}

impl WriteRead {
    /// The operation's result, given what the bus reported of the transfer.
    ///
    /// The two bytes of a successful read are a raw count, low byte first;
    /// every count from 0 to 65535 is a valid reading. A failure is handed on
    /// as it came.
    pub fn complete<E>(&self, outcome: Result<[u8; 2], E>) -> (result: Result<u16, E>)
        ensures
            match outcome {
                Ok(bytes) => result == Ok::<u16, E>(word_of(bytes[0], bytes[1])),
                Err(error) => result == Err::<u16, E>(error),
            },
    {
        match outcome {
            Ok(bytes) => Ok(decode_word(bytes[0], bytes[1])),
            Err(error) => Err(error),
        }
    }
}

} // verus!
