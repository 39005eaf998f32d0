use vstd::prelude::*;

verus! {

/// The state of one owning engine handle: its address, and whether it is
/// still held (not yet handed to the release primitive).
pub struct Ownership {
    pub handle: usize,
    pub live: bool,
}

/// One release request: the handle is handed out for release only while it
/// is still held; afterwards it is held no more.
pub open spec fn release_step(s: Ownership) -> (Ownership, Option<usize>) {
    (Ownership { handle: s.handle, live: false }, if s.live {
        Some(s.handle)
    } else {
        None
    })
}

/// How many times the handle is handed out for release over `n` release
/// requests in a row, starting from `s`.
pub open spec fn releases(s: Ownership, n: nat) -> nat
    decreases n,
{
    if n == 0 {
        0
    } else {
        (if release_step(s).1 is Some {
            1nat
        } else {
            0nat
        }) + releases(release_step(s).0, (n - 1) as nat)
    }
}

/// Exclusive ownership of one engine handle, released exactly once.
pub struct Owned {
    handle: usize,
    live: bool,
}

impl View for Owned {
    type V = Ownership;

    closed spec fn view(&self) -> Ownership {
        Ownership { handle: self.handle, live: self.live }
    }
}

impl Owned {
    /// Takes ownership of a handle that the engine just created.
    pub fn acquire(handle: usize) -> (r: Owned)
        ensures
            r@ == (Ownership { handle, live: true }),
    {
        Owned { handle, live: true }
    }

    /// The handle, while it is held; nothing once it has been released.
    pub fn get(&self) -> (r: Option<usize>)
        ensures
            r == (if self@.live {
                Some(self@.handle)
            } else {
                None
            }),
    {
        if self.live {
            Some(self.handle)
        } else {
            None
        }
    }

    /// The address of the handle, held or not.
    pub fn handle(&self) -> (r: usize)
        ensures
            r == self@.handle,
    {
        self.handle
    }

    /// Whether the handle is still held.
    pub fn is_live(&self) -> (r: bool)
        ensures
            r == self@.live,
    {
        self.live
    }

    /// Hands the handle out for release the first time it is asked, and
    /// never again: the caller releases what it gets back.
    pub fn release(&mut self) -> (r: Option<usize>)
        ensures
            (final(self)@, r) == release_step(old(self)@),
    {
        if self.live {
            self.live = false;
            Some(self.handle)
        } else {
            None
        }
    }
}

/// Release happens exactly once: over any run of one or more release
/// requests, a held handle is handed out exactly once, and one already
/// released is never handed out again.
pub proof fn lemma_release_exactly_once(s: Ownership, n: nat)
    requires
        n >= 1,
    ensures
        releases(s, n) == (if s.live {
            1nat
        } else {
            0nat
        }),
    decreases n,
{
    if n > 1 {
        lemma_release_exactly_once(release_step(s).0, (n - 1) as nat);
    } else {
        assert(releases(release_step(s).0, 0) == 0);
    }
}

} // verus!
