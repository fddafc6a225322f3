//! The failures a handle operation can report.
use vstd::prelude::*;

use crate::message::Message;

verus! {

/// What a fallible operation of the library returns on failure.
#[derive(Debug)]
pub enum Error {
    /// A native constructor returned null and gave no diagnostic.
    NullPointer,
    /// The toolkit reported a failure in words; the diagnostic is kept as given.
    Message(Message),
    /// A path or name cannot be written as a C string (it holds a NUL).
    InvalidPath,
    /// Reading or writing an external file failed; holds the cause's description.
    Io(String),
}

/// Converts a native status code (zero for success, anything else for failure)
/// and the diagnostic that came with it into a result.
pub fn check_status(status: i32, message: Message) -> (r: Result<(), Error>)
    ensures
        status == 0 <==> r is Ok,
        r matches Err(e) ==> e == Error::Message(message),
{
    if status == 0 {
        Ok(())
    } else {
        Err(Error::Message(message))
    }
}

} // verus!
