//! The runtime context: the "no value" sentinel, the distinguished type
//! objects, and the object factory that hands out fresh identities.

use vstd::prelude::*;

use crate::object::PyObjectRef;

verus! {

/// The pre-existing runtime type objects this core works with.
#[derive(Clone, Copy, PartialEq, Eq, Structural, Debug)]
pub struct PyTypes {
    /// The class of native-callable wrappers ("builtin function or method").
    pub builtin_function_or_method: PyObjectRef,
    /// The class of native method descriptors ("method descriptor").
    pub method_descriptor: PyObjectRef,
    /// The class of the bound wrappers the external factory constructs.
    pub bound_method: PyObjectRef,
}

/// The bound wrapper the external object system constructs on a qualifying
/// attribute access: a fresh object pairing the descriptor with the receiver
/// it was reached through.
#[derive(Clone, Copy, PartialEq, Eq, Structural, Debug)]
pub struct PyBoundMethod {
    /// The wrapper's own identity handle: fresh on every construction.
    pub id: u64,
    /// The descriptor (or plain callable) the wrapper binds.
    pub function: PyObjectRef,
    /// The receiver the wrapper supplies on invocation.
    pub receiver: PyObjectRef,
}

/// The runtime context, as far as this core reads and writes it.
///
/// Identity handles are handed out from a strictly growing cursor, so an
/// object allocated now is distinct from every object the runtime already
/// holds; that is what makes "a new bound wrapper on every qualifying
/// access" a provable statement.
#[derive(Clone, Copy, PartialEq, Eq, Structural, Debug)]
pub struct PyContext {
    /// The singleton "no value" sentinel.
    pub none: PyObjectRef,
    /// The distinguished type objects.
    pub types: PyTypes,
    /// The allocation cursor: every identity already handed out lies below it.
    pub next_id: u64,
}

impl PyContext {
    /// Whether the reference denotes an object this context has handed out.
    pub open spec fn owns(self, v: PyObjectRef) -> bool {
        v.id < self.next_id
    }

    /// Well-formedness: the sentinel and the three type objects were handed
    /// out by this context and are pairwise distinct objects.
    pub open spec fn wf(self) -> bool {
        &&& self.owns(self.none)
        &&& self.owns(self.types.builtin_function_or_method)
        &&& self.owns(self.types.method_descriptor)
        &&& self.owns(self.types.bound_method)
        &&& self.none.id != self.types.builtin_function_or_method.id
        &&& self.none.id != self.types.method_descriptor.id
        &&& self.none.id != self.types.bound_method.id
        &&& self.types.builtin_function_or_method.id != self.types.method_descriptor.id
        &&& self.types.builtin_function_or_method.id != self.types.bound_method.id
        &&& self.types.method_descriptor.id != self.types.bound_method.id
    }

    /// The distinguished objects agree in both contexts: allocation moves
    /// only the cursor, never the sentinel or the type objects.
    pub open spec fn same_runtime(self, other: PyContext) -> bool {
        &&& self.none == other.none
        &&& self.types == other.types
    }

    /// A fresh context whose distinguished objects are already allocated:
    /// the metatype, the sentinel's class, the sentinel, and the three type
    /// objects this core registers against.
    pub fn new() -> (r: PyContext)
        ensures
            r.wf(),
            r.none.class != r.none.id,
            r.next_id == 6,
    {
        PyContext {
            none: PyObjectRef { id: 2, class: 1, data: 0 },
            types: PyTypes {
                builtin_function_or_method: PyObjectRef { id: 3, class: 0, data: 0 },
                method_descriptor: PyObjectRef { id: 4, class: 0, data: 0 },
                bound_method: PyObjectRef { id: 5, class: 0, data: 0 },
            },
            next_id: 6,
        }
    }

    /// The singleton "no value" sentinel, for identity comparison.
    pub fn get_none(&self) -> (r: PyObjectRef)
        ensures
            r == self.none,
    {
        self.none
    }

    /// The external object factory: hands out a fresh object of the given
    /// class. The result's identity differs from that of every object the
    /// context already owned.
    pub fn new_object(&mut self, class: &PyObjectRef, data: i64) -> (r: PyObjectRef)
        requires
            old(self).next_id < u64::MAX,
        ensures
            r.id == old(self).next_id,
            r.class == class.id,
            r.data == data,
            !old(self).owns(r),
            final(self).owns(r),
            final(self).next_id == old(self).next_id + 1,
            final(self).same_runtime(*old(self)),
            old(self).wf() ==> final(self).wf(),
    {
        let id = self.next_id;
        self.next_id = self.next_id + 1;
        PyObjectRef { id, class: class.id, data }
    }

    /// The external bound-method factory: constructs a fresh bound wrapper
    /// pairing `function` with `object`. Nothing is cached: every call hands
    /// out a wrapper with an identity the context had not used.
    pub fn new_bound_method(&mut self, function: PyObjectRef, object: PyObjectRef) -> (r:
        PyBoundMethod)
        requires
            old(self).next_id < u64::MAX,
        ensures
            r.function == function,
            r.receiver == object,
            r.id == old(self).next_id,
            final(self).next_id == old(self).next_id + 1,
            final(self).same_runtime(*old(self)),
            old(self).wf() ==> final(self).wf(),
    {
        let id = self.next_id;
        self.next_id = self.next_id + 1;
        PyBoundMethod { id, function, receiver: object }
    }
}

} // verus!
