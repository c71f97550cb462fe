use builtinfunc::context::PyContext;
use builtinfunc::function::PyBuiltinFunction;
use builtinfunc::method::PyBuiltinMethod;
use builtinfunc::object::{PyFuncArgs, PyResult};

fn first(_c: PyContext, args: PyFuncArgs) -> PyResult {
    match args.first() {
        Some(v) => Ok(*v),
        None => Err(builtinfunc::object::PyObjectRef {
            id: 0,
            class: 0,
            data: 0,
        }),
    }
}

fn second(_c: PyContext, args: PyFuncArgs) -> PyResult {
    match args.get(1) {
        Some(v) => Ok(*v),
        None => Err(builtinfunc::object::PyObjectRef {
            id: 0,
            class: 0,
            data: 0,
        }),
    }
}

#[test]
fn builtin_function_repr_is_fixed() {
    let a = PyBuiltinFunction::new(first);
    let b = PyBuiltinFunction::new(second);
    assert_eq!(a.repr(), "builtin function");
    assert_eq!(b.repr(), "builtin function");
}

#[test]
fn method_descriptor_repr_is_fixed() {
    let a = PyBuiltinMethod::new(first);
    let b = PyBuiltinMethod::new(second);
    assert_eq!(a.repr(), "method descriptor");
    assert_eq!(b.repr(), "method descriptor");
}

#[test]
fn reprs_of_the_two_kinds_differ() {
    let f = PyBuiltinFunction::new(first);
    let m = PyBuiltinMethod::new(first);
    assert_ne!(f.repr(), m.repr());
}
