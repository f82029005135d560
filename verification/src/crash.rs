//! What is told of an abnormal end: the message of a failure, kept until the
//! terminal is restored, and then given as the error of the run.

use vstd::prelude::*;
use vstd::string::StringExecFns;

verus! {

/// What an abnormal end carries.
pub enum Payload {
    /// A message that was part of the program.
    Static(&'static str),
    /// A message that was made as the program ran.
    Owned(String),
    /// Anything that is no message.
    Unknown,
}

/// What stands for a payload that is no message.
pub const UNKNOWN_PAYLOAD: &'static str = "Box<dyn Any>";

impl Payload {
    /// The message of the payload.
    pub open spec fn message(self) -> Seq<char> {
        match self {
            Payload::Static(text) => text@,
            Payload::Owned(text) => text@,
            Payload::Unknown => UNKNOWN_PAYLOAD@,
        }
    }
}

/// Adds the message of the payload to the end of the buffer.
pub fn record(buffer: &mut String, payload: &Payload)
    ensures
        final(buffer)@ == old(buffer)@ + payload.message(),
{
    let message = match payload {
        Payload::Static(text) => *text,
        Payload::Owned(text) => text.as_str(),
        Payload::Unknown => UNKNOWN_PAYLOAD,
    };
    buffer.append(message);
}

/// The result of the run: the buffered message as its error if the run ended
/// abnormally, and success otherwise.
pub fn conclude(caught: bool, buffer: String) -> (result: Result<(), String>)
    ensures
        caught ==> result == Err::<(), String>(buffer),
        !caught ==> result is Ok,
{
    if caught {
        Err(buffer)
    } else {
        Ok(())
    }
}

} // verus!
