use vstd::prelude::*;

verus! {

/// The engine handle that an address stands for: address zero is the empty
/// sentinel, any other address is a live handle.
pub open spec fn handle_of(addr: usize) -> Option<usize> {
    if addr == 0 {
        None
    } else {
        Some(addr)
    }
}

/// The address that a handle is passed to the engine as.
pub open spec fn addr_of(h: Option<usize>) -> usize {
    match h {
        Some(a) => a,
        None => 0,
    }
}

/// A non-owning reference to an engine-managed value of any dynamic type.
///
/// The engine's collector owns the value; this type never releases it. It is
/// either the empty sentinel or a handle, and the sentinel is a state of its
/// own, distinct from the engine's null and undefined values.
#[derive(Clone, Copy, Debug)]
pub struct Value {
    handle: Option<usize>,
}

impl View for Value {
    type V = Option<usize>;

    closed spec fn view(&self) -> Option<usize> {
        self.handle
    }
}

impl Value {
    #[verifier::type_invariant]
    closed spec fn inv(&self) -> bool {
        self.handle != Some(0usize)
    }

    /// Takes the address that the engine handed back.
    pub fn from_raw(addr: usize) -> (r: Value)
        ensures
            r@ == handle_of(addr),
    {
        if addr == 0 {
            Value { handle: None }
        } else {
            Value { handle: Some(addr) }
        }
    }

    /// The address to hand to the engine; zero for the empty sentinel.
    pub fn raw(&self) -> (r: usize)
        ensures
            r == addr_of(self@),
            handle_of(r) == self@,
    {
        proof {
            use_type_invariant(self);
        }
        match self.handle {
            Some(a) => a,
            None => 0,
        }
    }

    /// Whether this is the empty sentinel. Decided locally, without asking
    /// the engine: the engine's null value is not empty.
    pub fn is_empty(&self) -> (r: bool)
        ensures
            r == self@.is_none(),
    {
        self.handle.is_none()
    }
}

impl Default for Value {
    fn default() -> (r: Value)
        ensures
            r@.is_none(),
    {
        Value { handle: None }
    }
}

/// A non-owning reference to an engine-managed object (an array, a
/// function, ...): a value known to be an object. The same sentinel and
/// non-ownership rules hold as for `Value`.
#[derive(Clone, Copy, Debug)]
pub struct Object {
    handle: Option<usize>,
}

impl View for Object {
    type V = Option<usize>;

    closed spec fn view(&self) -> Option<usize> {
        self.handle
    }
}

impl Object {
    #[verifier::type_invariant]
    closed spec fn inv(&self) -> bool {
        self.handle != Some(0usize)
    }

    /// Takes the address of an object that the engine handed back.
    pub fn from_raw(addr: usize) -> (r: Object)
        ensures
            r@ == handle_of(addr),
    {
        if addr == 0 {
            Object { handle: None }
        } else {
            Object { handle: Some(addr) }
        }
    }

    /// The address to hand to the engine; zero for the empty sentinel.
    pub fn raw(&self) -> (r: usize)
        ensures
            r == addr_of(self@),
            handle_of(r) == self@,
    {
        proof {
            use_type_invariant(self);
        }
        match self.handle {
            Some(a) => a,
            None => 0,
        }
    }

    /// Whether this is the empty sentinel.
    pub fn is_empty(&self) -> (r: bool)
        ensures
            r == self@.is_none(),
    {
        self.handle.is_none()
    }

    /// The element addresses that the engine's array primitive is handed for
    /// `elements`: one for each, in the same order, duplicates and empty
    /// sentinels included.
    pub fn array_arguments(elements: &[Value]) -> (r: Vec<usize>)
        ensures
            r@.len() == elements@.len(),
            forall|i: int| 0 <= i < elements@.len() ==> r@[i] == addr_of(#[trigger] elements@[i]@),
    {
        let mut out: Vec<usize> = Vec::new();
        let mut i: usize = 0;
        while i < elements.len()
            invariant
                i <= elements@.len(),
                out@.len() == i,
                forall|j: int| 0 <= j < i ==> out@[j] == addr_of(#[trigger] elements@[j]@),
            decreases elements@.len() - i,
        {
            out.push(elements[i].raw());
            i = i + 1;
        }
        out
    }

    /// The same engine object, seen as a value of any dynamic type.
    pub fn as_value(&self) -> (r: Value)
        ensures
            r@ == self@,
    {
        proof {
            use_type_invariant(self);
        }
        Value::from_raw(self.raw())
    }
}

impl Default for Object {
    fn default() -> (r: Object)
        ensures
            r@.is_none(),
    {
        Object { handle: None }
    }
}

/// A handle that the engine hands back is never taken for the empty
/// sentinel, and the sentinel is never taken for a handle.
pub proof fn lemma_sentinel_distinct(addr: usize)
    ensures
        addr != 0 ==> handle_of(addr).is_some(),
        addr == 0 ==> handle_of(addr).is_none(),
        addr_of(handle_of(addr)) == addr,
{
}

} // verus!
