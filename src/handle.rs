//! Checked, non-null handles to native objects.
use vstd::prelude::*;

use crate::error::Error;

verus! {

/// A native object's address, known to be non-null.
///
/// The native toolkit hands out bare addresses and uses zero for "absent" and
/// "allocation failed" alike; a `Handle` can only be built from a non-zero one.
/// Marks the native context kind.
pub struct ContextRef;

/// Marks the native pass-manager kind.
pub struct PassManagerRef;

#[derive(Debug)]
pub struct Handle {
    addr: usize,
}

impl View for Handle {
    type V = usize;

    closed spec fn view(&self) -> usize {
        self.addr
    }
}

impl Handle {
    #[verifier::type_invariant]
    closed spec fn non_null(self) -> bool {
        self.addr != 0
    }

    /// The address this handle stands for; never zero.
    pub fn as_raw(&self) -> (r: usize)
        ensures
            r == self@,
            r != 0,
    {
        proof {
            use_type_invariant(self);
        }
        self.addr
    }
}

/// Turns an address returned by a native constructor into a handle, or into
/// `Error::NullPointer` when the constructor returned null.
pub fn wrap_inner(x: usize) -> (r: Result<Handle, Error>)
    ensures
        x == 0 <==> r is Err,
        r matches Err(e) ==> e is NullPointer,
        r matches Ok(h) ==> h@ == x,
{
    if x == 0 {
        Err(Error::NullPointer)
    } else {
        Ok(Handle { addr: x })
    }
}

/// Gives access to the native address behind a library value, for the
/// operations that pass it on to the toolkit. `T` names the native object kind.
pub trait LLVMInner<T> {
    /// The native address; a live handle never yields null.
    fn llvm_inner(&self) -> (r: usize)
        ensures
            r != 0,
    ;
}

} // verus!
