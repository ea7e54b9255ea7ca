pub mod inbound;
pub mod outbound;

use vstd::prelude::*;

verus! {

/// The two command bytes that identify the kind of a packet.
#[derive(Debug, Clone, Copy, PartialEq, Eq, Hash)]
pub struct Command(pub [u8; 2]);

/// A packet received from the earbuds: its command and its body.
#[derive(Debug, Clone, PartialEq, Eq, Hash)]
pub struct Inbound {
    pub command: Command,
    pub body: Vec<u8>,
}

impl Inbound {
    /// A packet with the given command and body.
    pub fn new(command: Command, body: Vec<u8>) -> (result: Self)
        ensures
            result.command == command,
            result.body@ == body@,
    {
        Inbound { command, body }
    }
}

/// Why a packet body could not be parsed.
#[derive(Debug, Clone, Copy, PartialEq, Eq, Hash)]
pub enum ParseError {
    /// The input ended in the middle of a value.
    UnexpectedEnd,
    /// Bytes were left over after a value that must take the whole input.
    TrailingBytes,
}

/// The boolean encoding used in packet bodies: the byte `1` is true, any other byte is false.
pub open spec fn spec_bool(byte: u8) -> bool {
    byte == 1
}

/// Reads one boolean byte.
pub fn take_bool(input: &[u8]) -> (result: Result<(&[u8], bool), ParseError>)
    ensures
        match result {
            Ok((rest, value)) => input@.len() >= 1 && value == spec_bool(input@[0]) && rest@
                == input@.skip(1),
            Err(e) => input@.len() == 0 && e == ParseError::UnexpectedEnd,
        },
{
    if input.len() == 0 {
        return Err(ParseError::UnexpectedEnd);
    }
    let value = input[0] == 1;
    let rest = &input[1..input.len()];
    Ok((rest, value))
}

} // verus!
