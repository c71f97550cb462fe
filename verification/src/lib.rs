//! Native callables as first-class objects of an interpreted runtime.
//!
//! The library models the core by which a dynamic-language runtime exposes
//! natively implemented functions inside its object system: a wrapper that
//! owns one native callable ([`function::PyBuiltinFunction`]), a method
//! descriptor that adds the attribute-binding protocol on top of plain call
//! forwarding ([`method::PyBuiltinMethod`]), and the registration step that
//! installs both with the runtime's pre-existing type objects
//! ([`registry::init`]).
//!
//! Runtime objects are modelled by plain reference values carrying an
//! identity handle ([`object::PyObjectRef`]); the runtime context
//! ([`context::PyContext`]) holds the singleton "no value" sentinel, the
//! distinguished type objects, and the allocation cursor from which the
//! external object factory hands out fresh identities.

pub mod context;
pub mod function;
pub mod method;
pub mod object;
pub mod registry;
