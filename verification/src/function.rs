//! The wrapper that makes one native callable a first-class runtime object.

use vstd::prelude::*;
use vstd::string::StringExecFns;

use crate::context::PyContext;
use crate::object::{PyFuncArgs, PyObjectRef, PyResult};

verus! {

/// A natively implemented callable, wrapped as a runtime object.
///
/// The wrapper exclusively owns its native callable and is immutable after
/// construction. Calling it forwards the runtime context and the argument
/// list unchanged and returns the callable's result verbatim, error or
/// success; the wrapper neither validates arguments nor adds behaviour of
/// its own.
pub struct PyBuiltinFunction<F> where F: Fn(PyContext, PyFuncArgs) -> PyResult {
    value: F,
}

impl<F> PyBuiltinFunction<F> where F: Fn(PyContext, PyFuncArgs) -> PyResult {
    /// The wrapped native callable, as contracts see it.
    pub closed spec fn native(&self) -> F {
        self.value
    }

    /// Wraps a native callable; the wrapper owns it exclusively.
    pub fn new(value: F) -> (r: Self)
        ensures
            r.native() == value,
    {
        PyBuiltinFunction { value }
    }

    /// Read-only access to the owned native callable, for composition.
    pub fn as_func(&self) -> (r: &F)
        ensures
            *r == self.native(),
    {
        &self.value
    }

    /// Forwards `ctx` and `args` unchanged to the owned native callable and
    /// returns its result verbatim: the result is one the callable itself
    /// produced on exactly these inputs, error or success.
    pub fn call(&self, args: PyFuncArgs, ctx: &PyContext) -> (r: PyResult)
        requires
            call_requires(self.native(), (*ctx, args)),
        ensures
            call_ensures(self.native(), (*ctx, args), r),
    {
        (self.value)(*ctx, args)
    }

    /// The runtime type under which the wrapper is registered.
    pub fn class(ctx: &PyContext) -> (r: PyObjectRef)
        ensures
            r == ctx.types.builtin_function_or_method,
    {
        ctx.types.builtin_function_or_method
    }

    /// The fixed debug representation: it identifies the object kind alone,
    /// never the wrapped callable.
    pub fn repr(&self) -> (r: String)
        ensures
            r@ == "builtin function"@,
    {
        String::from_str("builtin function")
    }
}

} // verus!
