//! Byte ranges handed across the native boundary.
use vstd::prelude::*;
use vstd::string::StringExecFns;

use crate::error::Error;
use crate::message::Message;

verus! {

/// Whether `s` can be passed to the toolkit as a C string: it holds no NUL.
pub open spec fn c_compatible(s: Seq<char>) -> bool {
    !s.contains('\0')
}

/// Tests whether `s` can be passed to the toolkit as a C string.
pub fn is_c_compatible(s: &str) -> (r: bool)
    ensures
        r == c_compatible(s@),
{
    let n = s.unicode_len();
    let mut i: usize = 0;
    while i < n
        invariant
            n == s@.len(),
            i <= n,
            forall|j: int| 0 <= j < i ==> s@[j] != '\0',
        decreases n - i,
    {
        if s.get_char(i) == '\0' {
            assert(s@.contains('\0'));
            return false;
        }
        i = i + 1;
    }
    assert(!s@.contains('\0'));
    true
}

/// Checks a file path before it is handed to the toolkit: `None` stands for a
/// path that is not valid Unicode.
pub fn check_path(path: Option<&str>) -> (r: Result<(), Error>)
    ensures
        r is Ok <==> (path matches Some(p) && c_compatible(p@)),
        r matches Err(e) ==> e is InvalidPath,
{
    match path {
        None => Err(Error::InvalidPath),
        Some(p) => {
            if is_c_compatible(p) {
                Ok(())
            } else {
                Err(Error::InvalidPath)
            }
        },
    }
}

/// Copies `s` into a new vector.
fn copy_bytes(s: &[u8]) -> (r: Vec<u8>)
    ensures
        r@ == s@,
{
    let mut out: Vec<u8> = Vec::new();
    let mut i: usize = 0;
    while i < s.len()
        invariant
            i <= s@.len(),
            out@ == s@.subrange(0, i as int),
        decreases s@.len() - i,
    {
        out.push(s[i]);
        i = i + 1;
        assert(out@ =~= s@.subrange(0, i as int));
    }
    assert(out@ =~= s@);
    out
}

/// An owned byte range with a name, as the toolkit keeps bitcode, objects and
/// file contents. Its bytes are fixed once it is built.
#[derive(Debug)]
pub struct MemoryBuffer {
    name: String,
    data: Vec<u8>,
}

impl View for MemoryBuffer {
    type V = Seq<u8>;

    closed spec fn view(&self) -> Seq<u8> {
        self.data@
    }
}

impl MemoryBuffer {
    /// The buffer's name, as given when it was built.
    pub closed spec fn name_spec(&self) -> Seq<char> {
        self.name@
    }

    /// A buffer holding a copy of `s`, named `name`. The name must be a valid
    /// C string; the caller's slice need not outlive the call.
    pub fn from_slice(name: &str, s: &[u8]) -> (r: Result<MemoryBuffer, Error>)
        ensures
            r is Ok <==> c_compatible(name@),
            r matches Err(e) ==> e is InvalidPath,
            r matches Ok(b) ==> b@ == s@ && b.name_spec() == name@,
    {
        if !is_c_compatible(name) {
            return Err(Error::InvalidPath);
        }
        Ok(MemoryBuffer { name: String::from_str(name), data: copy_bytes(s) })
    }

    /// The outcome of the toolkit's read of file `path`: its status code (zero
    /// for success), the contents it produced (`None` when it gave none) and
    /// its diagnostic. A failure status yields the diagnostic as the error.
    pub fn from_file_outcome(
        path: &str,
        status: i32,
        contents: Option<Vec<u8>>,
        message: Message,
    ) -> (r: Result<MemoryBuffer, Error>)
        ensures
            status != 0 ==> r == Err::<MemoryBuffer, Error>(Error::Message(message)),
            status == 0 && contents is None ==> (r matches Err(e) && e is NullPointer),
            status == 0 && contents is Some ==> (r matches Ok(b) && b@ == contents->0@
                && b.name_spec() == path@),
    {
        if status != 0 {
            return Err(Error::Message(message));
        }
        match contents {
            None => Err(Error::NullPointer),
            Some(data) => Ok(MemoryBuffer { name: String::from_str(path), data }),
        }
    }

    /// Number of bytes in the buffer.
    pub fn len(&self) -> (r: usize)
        ensures
            r == self@.len(),
    {
        self.data.len()
    }

    /// The buffer's bytes.
    pub fn as_slice(&self) -> (r: &[u8])
        ensures
            r@ == self@,
    {
        self.data.as_slice()
    }

    /// The buffer's name.
    pub fn name(&self) -> (r: &str)
        ensures
            r@ == self.name_spec(),
    {
        self.name.as_str()
    }
}

} // verus!
