use builtinfunc::context::PyContext;
use builtinfunc::function::PyBuiltinFunction;
use builtinfunc::method::{Binding, PyBuiltinMethod};
use builtinfunc::object::{OptionalArg, PyFuncArgs, PyObjectRef, PyResult};

fn int_value(data: i64) -> PyObjectRef {
    PyObjectRef {
        id: 0,
        class: 0,
        data,
    }
}

fn add(_c: PyContext, args: PyFuncArgs) -> PyResult {
    if args.len() == 2 {
        Ok(int_value(args[0].data + args[1].data))
    } else {
        Err(int_value(-1))
    }
}

fn raise_error(_c: PyContext, _args: PyFuncArgs) -> PyResult {
    Err(int_value(99))
}

#[test]
fn builtin_function_forwards_result() {
    let ctx = PyContext::new();
    let f = PyBuiltinFunction::new(add);
    let args = vec![int_value(2), int_value(40)];
    let direct = add(ctx, args.clone());
    assert_eq!(f.call(args, &ctx), direct);
    assert_eq!(direct, Ok(int_value(42)));
}

#[test]
fn builtin_function_forwards_error() {
    let ctx = PyContext::new();
    let f = PyBuiltinFunction::new(raise_error);
    assert_eq!(f.call(Vec::new(), &ctx), Err(int_value(99)));
}

#[test]
fn method_call_delegates_to_inner_function() {
    let ctx = PyContext::new();
    let f = PyBuiltinFunction::new(add);
    let m = PyBuiltinMethod::new(add);
    let args = vec![int_value(5), int_value(7)];
    assert_eq!(m.call(args.clone(), &ctx), f.call(args, &ctx));
}

#[test]
fn as_func_hands_out_the_wrapped_callable() {
    let ctx = PyContext::new();
    let f = PyBuiltinFunction::new(add);
    let m = PyBuiltinMethod::new(add);
    let args = vec![int_value(1), int_value(2)];
    assert_eq!((f.as_func())(ctx, args.clone()), Ok(int_value(3)));
    assert_eq!((m.as_func())(ctx, args), Ok(int_value(3)));
}

#[test]
fn bound_call_prepends_the_receiver() {
    let ctx = PyContext::new();
    let m = PyBuiltinMethod::new(add);
    let receiver = int_value(30);
    let r = m.call_bound(receiver, vec![int_value(12)], &ctx);
    assert_eq!(r, m.call(vec![receiver, int_value(12)], &ctx));
    assert_eq!(r, Ok(int_value(42)));
}

#[test]
fn error_surfaces_unchanged_through_bound_wrapper() {
    let ctx = PyContext::new();
    let m = PyBuiltinMethod::new(raise_error);
    let direct = m.call(Vec::new(), &ctx);
    let through_wrapper = m.call_bound(int_value(1), Vec::new(), &ctx);
    assert_eq!(direct, Err(int_value(99)));
    assert_eq!(through_wrapper, Err(int_value(99)));
}

#[test]
fn register_add_method_end_to_end() {
    let mut ctx = PyContext::new();
    let md_type = ctx.types.method_descriptor;
    let meta = ctx.types.builtin_function_or_method;
    let m = PyBuiltinMethod::new(add);
    let zelf = ctx.new_object(&md_type, 0);
    let class_c = ctx.new_object(&meta, 0);
    let instance = ctx.new_object(&class_c, 11);
    let sentinel = ctx.get_none();

    let class_level = m.get(zelf, sentinel, OptionalArg::Present(class_c), &mut ctx);
    assert_eq!(class_level, Ok(Binding::Unbound(zelf)));

    let instance_level = m.get(zelf, instance, OptionalArg::Present(class_c), &mut ctx);
    match instance_level {
        Ok(Binding::Bound(bm)) => {
            let b = int_value(31);
            let via_wrapper = m.call_bound(bm.receiver, vec![b], &ctx);
            let raw = add(ctx, vec![instance, b]);
            assert_eq!(via_wrapper, raw);
            assert_eq!(via_wrapper, Ok(int_value(42)));
        }
        other => panic!("expected a bound wrapper, got {:?}", other),
    }
}
