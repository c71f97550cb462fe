//! Registration: installing both kinds with the runtime's pre-existing
//! type objects, and wiring the binding operation into the generic
//! attribute-lookup machinery twice — as a named method and as the
//! low-level slot hook — pointing at one and the same logic.

use vstd::prelude::*;

use crate::context::PyContext;

verus! {

/// The entry points this core installs; each stands for the one piece of
/// logic the runtime stores a pointer to.
#[derive(Clone, Copy, PartialEq, Eq, Structural, Debug)]
pub enum SlotFn {
    /// Call forwarding of the plain wrapper.
    BuiltinFunctionCall,
    /// Call forwarding of the method descriptor.
    BuiltinMethodCall,
    /// The attribute-binding operation of the method descriptor.
    BuiltinMethodGet,
}

/// The names under which installed entries are reachable by ordinary
/// attribute lookup.
#[derive(Clone, Copy, PartialEq, Eq, Structural, Debug)]
pub enum MethodName {
    /// The invocation method (`__call__`).
    Call,
    /// The attribute-binding method (`__get__`).
    Get,
}

/// One named method installed on a class.
#[derive(Clone, Copy, PartialEq, Eq, Structural, Debug)]
pub struct MethodEntry {
    /// The identity handle of the class object extended.
    pub class: u64,
    /// The name the entry is reachable under.
    pub name: MethodName,
    /// The logic the entry points at.
    pub func: SlotFn,
}

/// One low-level binding-slot hook installed on a class: what the generic
/// attribute-lookup algorithm invokes directly, without named lookup.
#[derive(Clone, Copy, PartialEq, Eq, Structural, Debug)]
pub struct SlotEntry {
    /// The identity handle of the class object extended.
    pub class: u64,
    /// The logic the hook points at.
    pub func: SlotFn,
}

/// The runtime's type tables, as far as this core writes them. They are
/// filled once at initialisation and read-only thereafter.
pub struct TypeRegistry {
    /// Named methods, in installation order.
    pub methods: Vec<MethodEntry>,
    /// Binding-slot hooks, in installation order.
    pub descr_get_slots: Vec<SlotEntry>,
}

impl TypeRegistry {
    /// The named method a lookup on `class` finds among `entries`: the most
    /// recently installed matching entry wins.
    pub open spec fn find_method(entries: Seq<MethodEntry>, class: u64, name: MethodName) -> Option<
        SlotFn,
    >
        decreases entries.len(),
    {
        if entries.len() == 0 {
            None
        } else if entries.last().class == class && entries.last().name == name {
            Some(entries.last().func)
        } else {
            Self::find_method(entries.drop_last(), class, name)
        }
    }

    /// The binding-slot hook a lookup on `class` finds among `entries`: the
    /// most recently installed matching entry wins.
    pub open spec fn find_slot(entries: Seq<SlotEntry>, class: u64) -> Option<SlotFn>
        decreases entries.len(),
    {
        if entries.len() == 0 {
            None
        } else if entries.last().class == class {
            Some(entries.last().func)
        } else {
            Self::find_slot(entries.drop_last(), class)
        }
    }

    /// What named attribute lookup on `class` resolves `name` to.
    pub open spec fn spec_method(self, class: u64, name: MethodName) -> Option<SlotFn> {
        Self::find_method(self.methods@, class, name)
    }

    /// What the generic attribute machinery finds as the binding hook of
    /// `class`.
    pub open spec fn spec_descr_get_slot(self, class: u64) -> Option<SlotFn> {
        Self::find_slot(self.descr_get_slots@, class)
    }

    /// Empty tables: nothing registered yet.
    pub fn new() -> (r: TypeRegistry)
        ensures
            r.methods@ == Seq::<MethodEntry>::empty(),
            r.descr_get_slots@ == Seq::<SlotEntry>::empty(),
    {
        TypeRegistry { methods: Vec::new(), descr_get_slots: Vec::new() }
    }

    /// Named attribute lookup, executable: resolves `name` on `class` to
    /// the most recently installed matching entry.
    pub fn method_for(&self, class: u64, name: MethodName) -> (r: Option<SlotFn>)
        ensures
            r == self.spec_method(class, name),
    {
        let ghost all = self.methods@;
        let mut i: usize = self.methods.len();
        proof {
            assert(all.take(all.len() as int) =~= all);
        }
        loop
            invariant
                i <= self.methods.len(),
                all == self.methods@,
                Self::find_method(all, class, name) == Self::find_method(
                    all.take(i as int),
                    class,
                    name,
                ),
            decreases i,
        {
            if i == 0 {
                proof {
                    assert(all.take(0).len() == 0);
                }
                return None;
            }
            i = i - 1;
            let entry = self.methods[i];
            proof {
                assert(all.take(i as int + 1).last() == all[i as int]);
                assert(all.take(i as int + 1).drop_last() =~= all.take(i as int));
            }
            if entry.class == class && entry.name == name {
                return Some(entry.func);
            }
        }
    }

    /// Slot lookup, executable: resolves the binding hook of `class` to the
    /// most recently installed matching entry.
    pub fn descr_get_slot_for(&self, class: u64) -> (r: Option<SlotFn>)
        ensures
            r == self.spec_descr_get_slot(class),
    {
        let ghost all = self.descr_get_slots@;
        let mut i: usize = self.descr_get_slots.len();
        proof {
            assert(all.take(all.len() as int) =~= all);
        }
        loop
            invariant
                i <= self.descr_get_slots.len(),
                all == self.descr_get_slots@,
                Self::find_slot(all, class) == Self::find_slot(all.take(i as int), class),
            decreases i,
        {
            if i == 0 {
                proof {
                    assert(all.take(0).len() == 0);
                }
                return None;
            }
            i = i - 1;
            let entry = self.descr_get_slots[i];
            proof {
                assert(all.take(i as int + 1).last() == all[i as int]);
                assert(all.take(i as int + 1).drop_last() =~= all.take(i as int));
            }
            if entry.class == class {
                return Some(entry.func);
            }
        }
    }
}

/// Installs both kinds with the runtime's distinct, pre-existing type
/// objects, and installs the binding operation of the method descriptor
/// twice: as the named `__get__` method and as the raw binding-slot hook.
/// Both installation points carry one and the same logic, and lookups on
/// the two classes resolve to what was installed here.
pub fn init(ctx: &PyContext, registry: &mut TypeRegistry)
    requires
        ctx.wf(),
    ensures
        final (registry).methods@ == old(registry).methods@ + seq![
            MethodEntry {
                class: ctx.types.builtin_function_or_method.id,
                name: MethodName::Call,
                func: SlotFn::BuiltinFunctionCall,
            },
            MethodEntry {
                class: ctx.types.method_descriptor.id,
                name: MethodName::Call,
                func: SlotFn::BuiltinMethodCall,
            },
            MethodEntry {
                class: ctx.types.method_descriptor.id,
                name: MethodName::Get,
                func: SlotFn::BuiltinMethodGet,
            },
        ],
        final (registry).descr_get_slots@ == old(registry).descr_get_slots@.push(
            SlotEntry { class: ctx.types.method_descriptor.id, func: SlotFn::BuiltinMethodGet },
        ),
        final (registry).spec_method(ctx.types.builtin_function_or_method.id, MethodName::Call)
            == Some(SlotFn::BuiltinFunctionCall),
        final (registry).spec_method(ctx.types.method_descriptor.id, MethodName::Call) == Some(
            SlotFn::BuiltinMethodCall,
        ),
        final (registry).spec_method(ctx.types.method_descriptor.id, MethodName::Get) == Some(
            SlotFn::BuiltinMethodGet,
        ),
        final (registry).spec_descr_get_slot(ctx.types.method_descriptor.id) == Some(
            SlotFn::BuiltinMethodGet,
        ),
        final (registry).spec_method(ctx.types.method_descriptor.id, MethodName::Get) == final (
        registry).spec_descr_get_slot(ctx.types.method_descriptor.id),
{
    let e1 = MethodEntry {
        class: ctx.types.builtin_function_or_method.id,
        name: MethodName::Call,
        func: SlotFn::BuiltinFunctionCall,
    };
    let e2 = MethodEntry {
        class: ctx.types.method_descriptor.id,
        name: MethodName::Call,
        func: SlotFn::BuiltinMethodCall,
    };
    let e3 = MethodEntry {
        class: ctx.types.method_descriptor.id,
        name: MethodName::Get,
        func: SlotFn::BuiltinMethodGet,
    };
    let ghost before = registry.methods@;
    registry.methods.push(e1);
    registry.methods.push(e2);
    registry.methods.push(e3);
    registry.descr_get_slots.push(
        SlotEntry { class: ctx.types.method_descriptor.id, func: SlotFn::BuiltinMethodGet },
    );
    proof {
        reveal_with_fuel(TypeRegistry::find_method, 4);
        let all = registry.methods@;
        assert(all =~= before + seq![e1, e2, e3]);
        assert(all.drop_last() =~= before + seq![e1, e2]);
        assert(all.drop_last().drop_last() =~= before + seq![e1]);
        assert(all.last() == e3);
        assert(all.drop_last().last() == e2);
        assert(all.drop_last().drop_last().last() == e1);
    }
}

} // verus!
