use builtinfunc::context::PyContext;
use builtinfunc::function::PyBuiltinFunction;
use builtinfunc::method::PyBuiltinMethod;
use builtinfunc::object::{PyFuncArgs, PyResult};
use builtinfunc::registry::{init, MethodName, SlotFn, TypeRegistry};

#[test]
fn init_installs_call_on_both_classes() {
    let ctx = PyContext::new();
    let mut registry = TypeRegistry::new();
    init(&ctx, &mut registry);
    let bf = ctx.types.builtin_function_or_method.id;
    let md = ctx.types.method_descriptor.id;
    assert_eq!(
        registry.method_for(bf, MethodName::Call),
        Some(SlotFn::BuiltinFunctionCall)
    );
    assert_eq!(
        registry.method_for(md, MethodName::Call),
        Some(SlotFn::BuiltinMethodCall)
    );
}

#[test]
fn named_get_and_raw_slot_agree() {
    let ctx = PyContext::new();
    let mut registry = TypeRegistry::new();
    init(&ctx, &mut registry);
    let md = ctx.types.method_descriptor.id;
    let named = registry.method_for(md, MethodName::Get);
    let slot = registry.descr_get_slot_for(md);
    assert_eq!(named, Some(SlotFn::BuiltinMethodGet));
    assert_eq!(named, slot);
}

#[test]
fn nothing_installed_on_unrelated_class() {
    let ctx = PyContext::new();
    let mut registry = TypeRegistry::new();
    init(&ctx, &mut registry);
    let unrelated = ctx.none.class;
    assert_eq!(registry.method_for(unrelated, MethodName::Call), None);
    assert_eq!(registry.descr_get_slot_for(unrelated), None);
}

#[test]
fn no_binding_slot_on_plain_function_class() {
    let ctx = PyContext::new();
    let mut registry = TypeRegistry::new();
    init(&ctx, &mut registry);
    let bf = ctx.types.builtin_function_or_method.id;
    assert_eq!(registry.descr_get_slot_for(bf), None);
    assert_eq!(registry.method_for(bf, MethodName::Get), None);
}

#[test]
fn registered_classes_are_distinct() {
    let ctx = PyContext::new();
    let function_class = PyBuiltinFunction::<fn(PyContext, PyFuncArgs) -> PyResult>::class(&ctx);
    let method_class = PyBuiltinMethod::<fn(PyContext, PyFuncArgs) -> PyResult>::class(&ctx);
    assert_ne!(function_class.id, method_class.id);
    assert_eq!(function_class, ctx.types.builtin_function_or_method);
    assert_eq!(method_class, ctx.types.method_descriptor);
}
