//! The method descriptor: call forwarding plus the attribute-binding
//! protocol.

use vstd::prelude::*;
use vstd::string::StringExecFns;

use crate::context::{PyBoundMethod, PyContext};
use crate::function::PyBuiltinFunction;
use crate::object::{OptionalArg, PyFuncArgs, PyObjectRef, PyResult};

verus! {

/// What the binding operation yields.
#[derive(Clone, Copy, PartialEq, Eq, Structural, Debug)]
pub enum Binding {
    /// Class-level (unbound) access: the descriptor itself, returned
    /// unchanged — the very same object reference, never a copy.
    Unbound(PyObjectRef),
    /// Instance access: a freshly constructed bound wrapper.
    Bound(PyBoundMethod),
}

/// The branch rule of the binding protocol: the access counts as
/// class-level (unbound) exactly when the accessed object is the runtime's
/// "no value" sentinel (identity comparison) and the requested owning class
/// is absent or is not that object's own class. An access that re-asserts
/// the sentinel's own class is treated as going through a genuine receiver.
///
/// The owning-class comparison is by object identity alone, as the decision
/// here: a subclass of the sentinel's class never counts as a match, so an
/// access that names such a subclass still reads as class-level.
pub open spec fn is_unbound_access(ctx: PyContext, obj: PyObjectRef, cls: OptionalArg) -> bool {
    obj.id == ctx.none.id && !cls.matches_class(obj.class)
}

/// A fresh construction of a bound wrapper by the external factory between
/// the contexts `pre` and `post`: the wrapper pairs the descriptor with the
/// receiver, carries an identity `pre` had not handed out, and only the
/// allocation cursor moved.
pub open spec fn bound_fresh(
    pre: PyContext,
    post: PyContext,
    bm: PyBoundMethod,
    function: PyObjectRef,
    receiver: PyObjectRef,
) -> bool {
    &&& bm.function == function
    &&& bm.receiver == receiver
    &&& bm.id == pre.next_id
    &&& post.next_id == pre.next_id + 1
    &&& post.same_runtime(pre)
}

/// The owning-class check of the binding rule: present and identical to the
/// class object with the given handle.
fn cls_is(cls: &OptionalArg, class: u64) -> (r: bool)
    ensures
        r == cls.matches_class(class),
{
    match cls {
        OptionalArg::Present(c) => c.id == class,
        OptionalArg::Missing => false,
    }
}

/// A native method descriptor: owns one [`PyBuiltinFunction`] (composition,
/// not sharing) and adds the binding-protocol operation on top of plain call
/// forwarding. Immutable after construction.
pub struct PyBuiltinMethod<F> where F: Fn(PyContext, PyFuncArgs) -> PyResult {
    function: PyBuiltinFunction<F>,
}

impl<F> PyBuiltinMethod<F> where F: Fn(PyContext, PyFuncArgs) -> PyResult {
    /// The native callable at the bottom of the composition.
    pub closed spec fn native(&self) -> F {
        self.function.native()
    }

    /// Wraps a native callable in a fresh descriptor.
    pub fn new(value: F) -> (r: Self)
        ensures
            r.native() == value,
    {
        PyBuiltinMethod { function: PyBuiltinFunction::new(value) }
    }

    /// Read-only access to the owned native callable.
    pub fn as_func(&self) -> (r: &F)
        ensures
            *r == self.native(),
    {
        self.function.as_func()
    }

    /// Delegates to the owned wrapper's `call`, unchanged semantics: the
    /// result is one the native callable itself produced on exactly these
    /// inputs, error or success.
    pub fn call(&self, args: PyFuncArgs, ctx: &PyContext) -> (r: PyResult)
        requires
            call_requires(self.native(), (*ctx, args)),
        ensures
            call_ensures(self.native(), (*ctx, args), r),
    {
        self.function.call(args, ctx)
    }

    /// The attribute-binding operation the generic attribute-lookup
    /// machinery invokes. `zelf` is the object reference under which the
    /// runtime holds this descriptor; the decision reads nothing else of
    /// the descriptor.
    ///
    /// On a class-level (unbound) access — the accessed object is the "no
    /// value" sentinel and the owning class does not re-assert the
    /// sentinel's own class — the descriptor itself is returned unchanged
    /// and nothing is allocated. On every other access a fresh bound
    /// wrapper pairing the descriptor with the accessed object is
    /// constructed by the factory. No error arises locally.
    pub fn get(&self, zelf: PyObjectRef, obj: PyObjectRef, cls: OptionalArg, ctx: &mut PyContext) -> (r:
        Result<Binding, PyObjectRef>)
        requires
            !is_unbound_access(*old(ctx), obj, cls) ==> old(ctx).next_id < u64::MAX,
        ensures
            is_unbound_access(*old(ctx), obj, cls) ==> r == Ok::<Binding, PyObjectRef>(
                Binding::Unbound(zelf),
            ) && *final (ctx) == *old(ctx),
            !is_unbound_access(*old(ctx), obj, cls) ==> (match r {
                Ok(Binding::Bound(bm)) => bound_fresh(*old(ctx), *final (ctx), bm, zelf, obj),
                _ => false,
            }),
    {
        if obj.is(&ctx.get_none()) && !cls_is(&cls, obj.class) {
            Ok(Binding::Unbound(zelf))
        } else {
            Ok(Binding::Bound(ctx.new_bound_method(zelf, obj)))
        }
    }

    /// Invoking a bound wrapper: the receiver is placed before the given
    /// arguments and the descriptor's callable is invoked with the result —
    /// the calling convention the external bound-method object honours.
    /// Errors of the native callable surface unchanged.
    pub fn call_bound(&self, receiver: PyObjectRef, args: PyFuncArgs, ctx: &PyContext) -> (r:
        PyResult)
        requires
            forall|full: PyFuncArgs|
                full@ == seq![receiver] + args@ ==> call_requires(self.native(), (*ctx, full)),
        ensures
            exists|full: PyFuncArgs|
                full@ == seq![receiver] + args@ && call_ensures(self.native(), (*ctx, full), r),
    {
        let ghost args0 = args;
        let mut full: PyFuncArgs = Vec::new();
        full.push(receiver);
        let mut rest = args;
        full.append(&mut rest);
        proof {
            assert(full@ =~= seq![receiver] + args0@);
        }
        let ghost gfull = full;
        let r = self.function.call(full, ctx);
        proof {
            assert(gfull@ == seq![receiver] + args0@ && call_ensures(
                self.native(),
                (*ctx, gfull),
                r,
            ));
        }
        r
    }

    /// The runtime type under which the descriptor is registered.
    pub fn class(ctx: &PyContext) -> (r: PyObjectRef)
        ensures
            r == ctx.types.method_descriptor,
    {
        ctx.types.method_descriptor
    }

    /// The fixed debug representation: it identifies the descriptor kind
    /// alone, never the wrapped callable.
    pub fn repr(&self) -> (r: String)
        ensures
            r@ == "method descriptor"@,
    {
        String::from_str("method descriptor")
    }
}

/// A bound wrapper constructed after another never reuses its identity:
/// repeated qualifying accesses — even with the same descriptor and the
/// same receiver — yield distinct wrapper objects; nothing is cached.
pub proof fn lemma_bound_wrappers_distinct(
    c0: PyContext,
    c1: PyContext,
    c2: PyContext,
    bm1: PyBoundMethod,
    bm2: PyBoundMethod,
    f1: PyObjectRef,
    r1: PyObjectRef,
    f2: PyObjectRef,
    r2: PyObjectRef,
)
    requires
        bound_fresh(c0, c1, bm1, f1, r1),
        bound_fresh(c1, c2, bm2, f2, r2),
    ensures
        bm1.id != bm2.id,
{
}

/// A bound wrapper is a genuinely new object: its identity differs from
/// that of every object the runtime had already handed out — in particular
/// from the descriptor and from the receiver themselves.
pub proof fn lemma_bound_wrapper_is_new(
    c0: PyContext,
    c1: PyContext,
    bm: PyBoundMethod,
    function: PyObjectRef,
    receiver: PyObjectRef,
    v: PyObjectRef,
)
    requires
        bound_fresh(c0, c1, bm, function, receiver),
        c0.owns(v),
    ensures
        bm.id != v.id,
{
}

/// The two fixed debug representations are distinct: a plain builtin
/// function never reads as a method descriptor.
pub proof fn lemma_reprs_distinct()
    ensures
        "builtin function"@ != "method descriptor"@,
{
    reveal_strlit("builtin function");
    reveal_strlit("method descriptor");
    assert("builtin function"@.len() != "method descriptor"@.len());
}

} // verus!
