//! The model of runtime object references and the calling convention.

use vstd::prelude::*;

verus! {

/// A reference to one object of the interpreted runtime.
///
/// The runtime proper keeps its objects on a heap behind counted references;
/// this core only ever reads three things through such a reference: the
/// object's identity (pointer equality, `is` semantics), the identity of its
/// runtime class, and — at the boundary where tests drive the calling
/// convention — a plain payload. The model therefore carries exactly those.
#[derive(Clone, Copy, PartialEq, Eq, Structural, Debug)]
pub struct PyObjectRef {
    /// The identity handle: two references denote the same object exactly
    /// when their handles are equal.
    pub id: u64,
    /// The identity handle of the object's runtime class object.
    pub class: u64,
    /// The plain payload the object carries, where it carries one.
    pub data: i64,
}

impl PyObjectRef {
    /// Identity comparison (`is` semantics, not equality of contents).
    pub fn is(&self, other: &PyObjectRef) -> (r: bool)
        ensures
            r == (self.id == other.id),
    {
        self.id == other.id
    }
}

/// An argument a caller may leave out: the owning class handed to the
/// binding operation is optional.
#[derive(Clone, Copy, PartialEq, Eq, Structural, Debug)]
pub enum OptionalArg {
    /// The caller supplied the argument.
    Present(PyObjectRef),
    /// The caller left the argument out.
    Missing,
}

impl OptionalArg {
    /// Whether the optional owning class is present and is (identity-wise)
    /// the class object with the given handle.
    pub open spec fn matches_class(self, class: u64) -> bool {
        match self {
            OptionalArg::Present(c) => c.id == class,
            OptionalArg::Missing => false,
        }
    }
}

/// The argument container of the uniform calling convention.
pub type PyFuncArgs = Vec<PyObjectRef>;

/// What every call produces: a runtime value, or the error object the callee
/// raised, propagated unchanged.
pub type PyResult = Result<PyObjectRef, PyObjectRef>;

} // verus!
