use vstd::prelude::*;

use crate::owner::{release_step, Owned, Ownership};

verus! {

/// An execution group: the root allocation arena for one or more contexts.
/// Owns its group handle and releases it exactly once.
pub struct VM {
    group: Owned,
}

impl View for VM {
    type V = Ownership;

    closed spec fn view(&self) -> Ownership {
        self.group@
    }
}

impl VM {
    /// Takes ownership of a group handle that the engine just created.
    pub fn adopt(raw: usize) -> (r: VM)
        ensures
            r@ == (Ownership { handle: raw, live: true }),
    {
        VM { group: Owned::acquire(raw) }
    }

    /// The group handle, while it is held.
    pub fn raw(&self) -> (r: Option<usize>)
        ensures
            r == (if self@.live {
                Some(self@.handle)
            } else {
                None
            }),
    {
        self.group.get()
    }

    /// Hands the group handle out for release, the first time only.
    pub fn release(&mut self) -> (r: Option<usize>)
        ensures
            (final(self)@, r) == release_step(old(self)@),
    {
        self.group.release()
    }
}

/// An immutable engine string, used for source code, labels and string
/// values. Owns its string handle and releases it exactly once.
pub struct String {
    text: Owned,
}

impl View for String {
    type V = Ownership;

    closed spec fn view(&self) -> Ownership {
        self.text@
    }
}

impl String {
    /// Takes ownership of a string handle that the engine just created.
    pub fn adopt(raw: usize) -> (r: String)
        ensures
            r@ == (Ownership { handle: raw, live: true }),
    {
        String { text: Owned::acquire(raw) }
    }

    /// The string handle, while it is held.
    pub fn raw(&self) -> (r: Option<usize>)
        ensures
            r == (if self@.live {
                Some(self@.handle)
            } else {
                None
            }),
    {
        self.text.get()
    }

    /// Hands the string handle out for release, the first time only.
    pub fn release(&mut self) -> (r: Option<usize>)
        ensures
            (final(self)@, r) == release_step(old(self)@),
    {
        self.text.release()
    }
}

/// A global execution context, rooted in a VM's group. Owns its context
/// handle and releases it exactly once; it refers to its group without
/// owning it.
pub struct Context {
    global: Owned,
    group: usize,
}

impl View for Context {
    type V = Ownership;

    closed spec fn view(&self) -> Ownership {
        self.global@
    }
}

impl Context {
    /// The group handle that this context was created in.
    pub closed spec fn spec_group(&self) -> usize {
        self.group
    }

    /// Takes ownership of a context handle that the engine just created in
    /// the group of `vm`.
    pub fn adopt(vm: &VM, raw: usize) -> (r: Context)
        ensures
            r@ == (Ownership { handle: raw, live: true }),
            r.spec_group() == vm@.handle,
    {
        Context { global: Owned::acquire(raw), group: vm.group.handle() }
    }

    /// The context handle, while it is held.
    pub fn raw(&self) -> (r: Option<usize>)
        ensures
            r == (if self@.live {
                Some(self@.handle)
            } else {
                None
            }),
    {
        self.global.get()
    }

    /// The group handle that this context was created in.
    pub fn group(&self) -> (r: usize)
        ensures
            r == self.spec_group(),
    {
        self.group
    }

    /// Hands the context handle out for release, the first time only.
    pub fn release(&mut self) -> (r: Option<usize>)
        ensures
            (final(self)@, r) == release_step(old(self)@),
    {
        self.global.release()
    }
}

} // verus!
