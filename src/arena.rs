//! The ownership ledger of one native context: which derived objects are still
//! live, which object is responsible for disposing each of them, and in which
//! order everything is released when the context goes away.
use vstd::prelude::*;

use crate::error::Error;
use crate::handle::{wrap_inner, ContextRef, Handle, LLVMInner};

verus! {

/// Which native destructor releases an object.
#[derive(Clone, Copy, Debug, PartialEq, Eq, Structural)]
pub enum Kind {
    Module,
    Builder,
    PassManager,
    ExecutionEngine,
    MemoryBuffer,
    Binary,
}

/// One native object that needs disposal (a module, a builder, a pass manager,
/// an execution engine, a buffer). Types and values are interned by the context
/// and never appear here.
#[derive(Clone, Copy, Debug)]
pub struct Slot {
    /// The native address, never zero.
    pub addr: usize,
    /// Which destructor releases it.
    pub kind: Kind,
    /// The slot whose disposal also disposes this object, if it was handed over.
    pub owner: Option<usize>,
    /// Whether the object has not been disposed yet.
    pub live: bool,
}

/// Names a slot of an [`Arena`]. Slots are never reused, so an id whose object
/// was disposed stays invalid for good.
#[derive(Clone, Copy, Debug)]
pub struct Id {
    index: usize,
}

impl Id {
    pub closed spec fn index_spec(self) -> nat {
        self.index as nat
    }

    /// The slot this id names.
    pub fn index(&self) -> (r: usize)
        ensures
            r == self.index_spec(),
    {
        self.index
    }
}

/// The slots after disposing root `i`: it and every object it owns are dead.
pub open spec fn release(s: Seq<Slot>, i: nat) -> Seq<Slot> {
    Seq::new(
        s.len(),
        |j: int|
            if j == i || s[j].owner == Some(i as usize) {
                Slot { live: false, ..s[j] }
            } else {
                s[j]
            },
    )
}

/// The live objects that dispose themselves, latest first.
pub open spec fn live_roots_rev(s: Seq<Slot>) -> Seq<Slot>
    decreases s.len(),
{
    if s.len() == 0 {
        Seq::empty()
    } else {
        let rest = live_roots_rev(s.drop_first());
        if s[0].live && s[0].owner is None {
            rest.push(s[0])
        } else {
            rest
        }
    }
}

/// Slot `i` has a non-null address, and its owner, if any, is another slot
/// that disposes itself and that is live while slot `i` is.
pub open spec fn slot_ok(s: Seq<Slot>, i: int) -> bool {
    &&& s[i].addr != 0
    &&& (s[i].owner matches Some(o) ==> {
        &&& o < s.len()
        &&& o != i
        &&& s[o as int].owner is None
        &&& (s[i].live ==> s[o as int].live)
    })
}

/// The ledger of native objects derived from one context.
#[derive(Debug)]
pub struct Arena {
    context: Handle,
    slots: Vec<Slot>,
}

impl View for Arena {
    type V = Seq<Slot>;

    closed spec fn view(&self) -> Seq<Slot> {
        self.slots@
    }
}

impl Arena {
    /// The context's own native address.
    pub closed spec fn context_spec(&self) -> usize {
        self.context@
    }

    /// Every slot is well formed (see [`slot_ok`]) and the context is non-null.
    pub open spec fn wf(&self) -> bool {
        &&& self.context_spec() != 0
        &&& forall|i: int| 0 <= i < self@.len() ==> #[trigger] slot_ok(self@, i)
    }

    pub open spec fn is_live(&self, id: Id) -> bool {
        id.index_spec() < self@.len() && self@[id.index_spec() as int].live
    }

    /// The object disposes itself (nobody took it over).
    pub open spec fn is_root(&self, id: Id) -> bool {
        id.index_spec() < self@.len() && self@[id.index_spec() as int].owner is None
    }

    /// Nothing was handed over to the object.
    pub open spec fn owns_nothing(&self, id: Id) -> bool {
        forall|j: int| 0 <= j < self@.len() ==> self@[j].owner != Some(id.index_spec() as usize)
    }

    /// A ledger for the context at native address `context`, which must not be
    /// null.
    pub fn new(context: usize) -> (r: Result<Arena, Error>)
        ensures
            context == 0 <==> r is Err,
            r matches Err(e) ==> e is NullPointer,
            r matches Ok(a) ==> a.wf() && a@.len() == 0 && a.context_spec() == context,
    {
        match wrap_inner(context) {
            Ok(h) => Ok(Arena { context: h, slots: Vec::new() }),
            Err(e) => Err(e),
        }
    }

    /// The context's native address.
    pub fn context(&self) -> (r: usize)
        ensures
            r == self.context_spec(),
    {
        self.context.as_raw()
    }

    /// Number of objects ever registered.
    pub fn len(&self) -> (r: usize)
        ensures
            r == self@.len(),
    {
        self.slots.len()
    }

    /// Records an object of kind `kind` that a native constructor returned at `addr`, owned by
    /// `owner` if given (a live object that disposes itself). A null address
    /// yields `Error::NullPointer` and records nothing.
    pub fn register(&mut self, addr: usize, kind: Kind, owner: Option<Id>) -> (r: Result<Id, Error>)
        requires
            old(self).wf(),
            old(self)@.len() < usize::MAX,
            owner matches Some(o) ==> old(self).is_live(o) && old(self).is_root(o),
        ensures
            final(self).wf(),
            final(self).context_spec() == old(self).context_spec(),
            addr == 0 <==> r is Err,
            r matches Err(e) ==> e is NullPointer && final(self)@ == old(self)@,
            r matches Ok(id) ==> id.index_spec() == old(self)@.len() && final(self)@ == old(
                self,
            )@.push(
                Slot {
                    addr,
                    kind,
                    owner: match owner {
                        None => None,
                        Some(o) => Some(o.index_spec() as usize),
                    },
                    live: true,
                },
            ),
    {
        let h = match wrap_inner(addr) {
            Ok(h) => h,
            Err(e) => return Err(e),
        };
        let index = self.slots.len();
        let owner_index = match owner {
            None => None,
            Some(o) => Some(o.index),
        };
        let ghost before = self.slots@;
        self.slots.push(Slot { addr: h.as_raw(), kind, owner: owner_index, live: true });
        proof {
            assert forall|i: int| 0 <= i < self@.len() implies #[trigger] slot_ok(self@, i) by {
                if i < before.len() {
                    assert(slot_ok(before, i));
                    assert(self@[i] == before[i]);
                    if let Some(o) = self@[i].owner {
                        assert(self@[o as int] == before[o as int]);
                    }
                } else if let Some(o) = owner {
                    assert(self@[o.index as int] == before[o.index as int]);
                }
            }
        }
        Ok(Id { index })
    }

    /// The native address behind `id`, while its object is live; `None` once
    /// it has been disposed.
    pub fn get(&self, id: Id) -> (r: Option<usize>)
        ensures
            r is Some <==> self.is_live(id),
            r matches Some(a) ==> a == self@[id.index_spec() as int].addr,
    {
        if id.index < self.slots.len() && self.slots[id.index].live {
            Some(self.slots[id.index].addr)
        } else {
            None
        }
    }

    /// Whether `id` is live and disposes itself.
    pub fn is_live_root(&self, id: Id) -> (r: bool)
        ensures
            r == (self.is_live(id) && self.is_root(id)),
    {
        id.index < self.slots.len() && self.slots[id.index].live && self.slots[id.index].owner.is_none()
    }

    /// Whether nothing was handed over to `id`.
    fn check_owns_nothing(&self, id: Id) -> (r: bool)
        ensures
            r == self.owns_nothing(id),
    {
        let mut j: usize = 0;
        while j < self.slots.len()
            invariant
                j <= self@.len(),
                forall|k: int| 0 <= k < j ==> self@[k].owner != Some(id.index_spec() as usize),
            decreases self@.len() - j,
        {
            if self.slots[j].owner == Some(id.index) {
                return false;
            }
            j = j + 1;
        }
        true
    }

    /// Whether `id` can be handed over to `to`: both are live and dispose
    /// themselves, they differ, and nothing was handed over to `id` before.
    pub open spec fn can_transfer(&self, id: Id, to: Id) -> bool {
        &&& self.is_live(id)
        &&& self.is_root(id)
        &&& self.owns_nothing(id)
        &&& self.is_live(to)
        &&& self.is_root(to)
        &&& id.index_spec() != to.index_spec()
    }

    /// Hands the object `id` over to `to` (a module to an execution engine):
    /// from then on disposing `to` disposes `id` too, and `id` is no longer
    /// disposed on its own. Returns whether the handover was allowed; when it
    /// was not, nothing changes.
    pub fn transfer(&mut self, id: Id, to: Id) -> (r: bool)
        requires
            old(self).wf(),
        ensures
            final(self).wf(),
            final(self).context_spec() == old(self).context_spec(),
            r == old(self).can_transfer(id, to),
            r ==> final(self)@ == old(self)@.update(
                id.index_spec() as int,
                Slot { owner: Some(to.index_spec() as usize), ..old(self)@[id.index_spec() as int] },
            ),
            !r ==> final(self)@ == old(self)@,
    {
        if !(self.is_live_root(id) && self.is_live_root(to) && id.index != to.index
            && self.check_owns_nothing(id)) {
            return false;
        }
        let ghost before = self.slots@;
        let s = self.slots[id.index];
        self.slots.set(id.index, Slot { addr: s.addr, kind: s.kind, owner: Some(to.index), live: s.live });
        proof {
            assert forall|i: int| 0 <= i < self@.len() implies #[trigger] slot_ok(self@, i) by {
                assert(slot_ok(before, i));
                assert(self@[to.index as int] == before[to.index as int]);
                if i != id.index {
                    assert(self@[i] == before[i]);
                    if let Some(o) = self@[i].owner {
                        assert(before[i].owner != Some(id.index));
                        assert(self@[o as int] == before[o as int]);
                    }
                }
            }
        }
        true
    }

    /// Disposes `id`: when it is live and disposes itself, it and everything
    /// handed over to it become dead, and its slot is returned for the one call
    /// of the native destructor. Otherwise nothing changes and `None` is
    /// returned, so no object is ever destroyed twice.
    pub fn dispose(&mut self, id: Id) -> (r: Option<Slot>)
        requires
            old(self).wf(),
        ensures
            final(self).wf(),
            final(self).context_spec() == old(self).context_spec(),
            r is Some <==> old(self).is_live(id) && old(self).is_root(id),
            r matches Some(a) ==> a == old(self)@[id.index_spec() as int] && final(self)@
                == release(old(self)@, id.index_spec()),
            r is None ==> final(self)@ == old(self)@,
    {
        if !(id.index < self.slots.len() && self.slots[id.index].live
            && self.slots[id.index].owner.is_none()) {
            return None;
        }
        let ghost before = self.slots@;
        let ghost root = id.index as nat;
        let slot = self.slots[id.index];
        let n = self.slots.len();
        let mut j: usize = 0;
        while j < n
            invariant
                n == self.slots@.len(),
                n == before.len(),
                root < n,
                root == id.index,
                j <= n,
                self.context_spec() == old(self).context_spec(),
                old(self).wf(),
                before == old(self)@,
                forall|k: int| 0 <= k < j ==> self.slots@[k] == release(before, root)[k],
                forall|k: int| j <= k < n ==> self.slots@[k] == before[k],
            decreases n - j,
        {
            let s = self.slots[j];
            if j == id.index || s.owner == Some(id.index) {
                self.slots.set(j, Slot { addr: s.addr, kind: s.kind, owner: s.owner, live: false });
            }
            j = j + 1;
        }
        assert(self.slots@ =~= release(before, root));
        assert(self.wf()) by {
            assert forall|i: int| 0 <= i < self@.len() implies #[trigger] slot_ok(self@, i) by {
                assert(slot_ok(before, i));
                assert(self@[i] == release(before, root)[i]);
                if let Some(o) = self@[i].owner {
                    assert(self@[o as int] == release(before, root)[o as int]);
                    if self@[i].live {
                        assert(o != root);
                    }
                }
            }
        }
        Some(slot)
    }

    /// Closes the context: returns, in the order the native destructors must
    /// run, every object still live that disposes itself, latest first, and
    /// then the context's own address, to be destroyed after all of them. The
    /// ledger is consumed, so no id of it can be used afterwards.
    pub fn close(self) -> (r: (Vec<Slot>, usize))
        requires
            self.wf(),
        ensures
            r.0@ == live_roots_rev(self@),
            r.1 == self.context_spec(),
    {
        let n = self.slots.len();
        let mut out: Vec<Slot> = Vec::new();
        let mut i: usize = n;
        while i > 0
            invariant
                n == self@.len(),
                i <= n,
                out@ == live_roots_rev(self@.subrange(i as int, n as int)),
            decreases i,
        {
            i = i - 1;
            let s = self.slots[i];
            proof {
                let t = self@.subrange(i as int, n as int);
                assert(t.drop_first() =~= self@.subrange(i + 1, n as int));
                assert(t[0] == s);
            }
            if s.live && s.owner.is_none() {
                out.push(s);
            }
        }
        assert(self@.subrange(0, n as int) =~= self@);
        (out, self.context.as_raw())
    }
}

impl LLVMInner<ContextRef> for Arena {
    fn llvm_inner(&self) -> (r: usize) {
        self.context.as_raw()
    }
}

/// Disposal happens at most once: after root `i` is disposed, neither it nor
/// anything handed over to it is live, so a second `dispose` of any of them
/// returns `None`, `get` rejects their ids, and `close` lists none of them.
/// Objects that were already dead stay dead.
pub proof fn lemma_dispose_once(s: Seq<Slot>, i: nat)
    requires
        i < s.len(),
        s[i as int].owner is None,
    ensures
        !release(s, i)[i as int].live,
        forall|j: int|
            0 <= j < s.len() && s[j].owner == Some(i as usize) ==> !(#[trigger] release(s, i)[j]).live,
        forall|j: int| 0 <= j < s.len() && !s[j].live ==> !(#[trigger] release(s, i)[j]).live,
        release(release(s, i), i) == release(s, i),
        release(s, i).len() == s.len(),
{
    assert(release(release(s, i), i) =~= release(s, i));
}

/// An object handed over to another one never disposes itself: its own
/// `dispose` returns `None` for as long as it belongs to its new owner, while
/// disposing that owner releases it.
pub proof fn lemma_transferred_not_root(s: Seq<Slot>, i: nat, to: nat)
    requires
        i < s.len(),
        to < s.len(),
        i != to,
    ensures
        ({
            let t = s.update(i as int, Slot { owner: Some(to as usize), ..s[i as int] });
            &&& t[i as int].owner is Some
            &&& !release(t, to)[i as int].live
        }),
{
}

/// Closing releases only objects that are still live and dispose themselves:
/// every slot it lists is one of those, so nothing disposed before, and nothing
/// handed over to another object, is released a second time.
pub proof fn lemma_close_lists_live_roots(s: Seq<Slot>)
    ensures
        live_roots_rev(s).len() <= s.len(),
        forall|k: int|
            0 <= k < live_roots_rev(s).len() ==> (#[trigger] live_roots_rev(s)[k]).live
                && live_roots_rev(s)[k].owner is None && s.contains(live_roots_rev(s)[k]),
    decreases s.len(),
{
    if s.len() > 0 {
        let t = s.drop_first();
        lemma_close_lists_live_roots(t);
        let rest = live_roots_rev(t);
        assert forall|k: int| 0 <= k < live_roots_rev(s).len() implies (#[trigger] live_roots_rev(
            s,
        )[k]).live && live_roots_rev(s)[k].owner is None && s.contains(live_roots_rev(s)[k]) by {
            let x = live_roots_rev(s)[k];
            if k < rest.len() {
                assert(x == rest[k]);
                assert(t.contains(x));
                let i = choose|i: int| 0 <= i < t.len() && t[i] == x;
                assert(s[i + 1] == x);
            } else {
                assert(x == s[0]);
                assert(s[0] == x);
            }
        }
    }
}

} // verus!
