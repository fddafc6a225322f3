//! Queues of optimisation transforms run over a module or a function.
use vstd::prelude::*;

use crate::error::Error;
use crate::handle::{wrap_inner, Handle, LLVMInner, PassManagerRef};

verus! {

/// Selects one of the toolkit's optimisation transforms; passed through
/// unchanged.
#[derive(Clone, Copy, Debug)]
pub struct Transform {
    pub id: u32,
}

/// Appends `transforms` to `queue`, keeping their order.
fn enqueue(queue: &mut Vec<Transform>, transforms: &[Transform])
    ensures
        final(queue)@ == old(queue)@ + transforms@,
{
    let ghost start = queue@;
    let mut i: usize = 0;
    while i < transforms.len()
        invariant
            i <= transforms@.len(),
            queue@ == start + transforms@.subrange(0, i as int),
        decreases transforms@.len() - i,
    {
        queue.push(transforms[i]);
        i = i + 1;
        assert(queue@ =~= start + transforms@.subrange(0, i as int));
    }
    assert(transforms@.subrange(0, i as int) =~= transforms@);
}

/// What a pass manager does, whatever it runs over.
pub trait PassManager {
    /// The transforms enqueued so far, in the order they will be applied.
    spec fn queue(&self) -> Seq<Transform>;

    /// The native pass manager's address.
    spec fn raw(&self) -> usize;

    /// Enqueues `transforms` after those already there.
    fn add(&mut self, transforms: &[Transform])
        ensures
            final(self).queue() == old(self).queue() + transforms@,
            final(self).raw() == old(self).raw(),
    ;

    /// Whether running needs the toolkit at all: with nothing enqueued, a run
    /// changes nothing.
    fn needs_native_run(&self) -> (r: bool)
        ensures
            r == (self.queue().len() > 0),
    ;

    /// Whether a run changed its target, given the toolkit's status (non-zero
    /// when a transform modified it); an empty queue never changes anything.
    fn run_result(&self, status: i32) -> (r: bool)
        ensures
            r == (self.queue().len() > 0 && status != 0),
    ;
}

/// Runs its queue over a whole module.
#[derive(Debug)]
pub struct ModulePassManager {
    handle: Handle,
    queue: Vec<Transform>,
}

/// Runs its queue over one function of a module.
#[derive(Debug)]
pub struct FuncPassManager {
    handle: Handle,
    queue: Vec<Transform>,
}

impl ModulePassManager {
    /// Wraps the pass manager a native constructor returned at `raw`, with an
    /// empty queue; null yields `Error::NullPointer`.
    pub fn new(raw: usize) -> (r: Result<ModulePassManager, Error>)
        ensures
            raw == 0 <==> r is Err,
            r matches Err(e) ==> e is NullPointer,
            r matches Ok(p) ==> p.raw() == raw && p.queue() == Seq::<Transform>::empty(),
    {
        match wrap_inner(raw) {
            Ok(h) => Ok(ModulePassManager { handle: h, queue: Vec::new() }),
            Err(e) => Err(e),
        }
    }

    /// The enqueued transforms.
    pub fn transforms(&self) -> (r: &[Transform])
        ensures
            r@ == self.queue(),
    {
        self.queue.as_slice()
    }
}

impl FuncPassManager {
    /// Wraps the pass manager a native constructor returned at `raw`, with an
    /// empty queue; null yields `Error::NullPointer`.
    pub fn new(raw: usize) -> (r: Result<FuncPassManager, Error>)
        ensures
            raw == 0 <==> r is Err,
            r matches Err(e) ==> e is NullPointer,
            r matches Ok(p) ==> p.raw() == raw && p.queue() == Seq::<Transform>::empty(),
    {
        match wrap_inner(raw) {
            Ok(h) => Ok(FuncPassManager { handle: h, queue: Vec::new() }),
            Err(e) => Err(e),
        }
    }

    /// The enqueued transforms.
    pub fn transforms(&self) -> (r: &[Transform])
        ensures
            r@ == self.queue(),
    {
        self.queue.as_slice()
    }
}

impl PassManager for ModulePassManager {
    closed spec fn queue(&self) -> Seq<Transform> {
        self.queue@
    }

    closed spec fn raw(&self) -> usize {
        self.handle@
    }

    fn add(&mut self, transforms: &[Transform]) {
        enqueue(&mut self.queue, transforms);
    }

    fn needs_native_run(&self) -> (r: bool) {
        self.queue.len() > 0
    }

    fn run_result(&self, status: i32) -> (r: bool) {
        self.queue.len() > 0 && status != 0
    }
}

impl PassManager for FuncPassManager {
    closed spec fn queue(&self) -> Seq<Transform> {
        self.queue@
    }

    closed spec fn raw(&self) -> usize {
        self.handle@
    }

    fn add(&mut self, transforms: &[Transform]) {
        enqueue(&mut self.queue, transforms);
    }

    fn needs_native_run(&self) -> (r: bool) {
        self.queue.len() > 0
    }

    fn run_result(&self, status: i32) -> (r: bool) {
        self.queue.len() > 0 && status != 0
    }
}

impl LLVMInner<PassManagerRef> for ModulePassManager {
    fn llvm_inner(&self) -> (r: usize) {
        self.handle.as_raw()
    }
}

impl LLVMInner<PassManagerRef> for FuncPassManager {
    fn llvm_inner(&self) -> (r: usize) {
        self.handle.as_raw()
    }
}

} // verus!
