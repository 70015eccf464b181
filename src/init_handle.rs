//! The registration session: during plugin initialization it registers native
//! classes with the host, in a fixed order, after checking the class registry.
//! The calls into the host are collected in order; the embedding performs them.
use vstd::prelude::*;
use vstd::string::StrSliceExecFns;
use crate::object::TypeTag;
use crate::registry::{ClassRecord, ClassRegistry, spec_register};

verus! {

/// A call into the host's registration interface.
pub enum HostCall {
    /// Registers class `name`, deriving from `base_name`, with the constructor
    /// and destructor trampolines bound to the type `type_id`.
    RegisterClass { type_id: u64, name: String, base_name: String, tool: bool },
    /// Attaches `tag` to the registered class `name`.
    SetTypeTag { name: String, tag: TypeTag },
    /// Runs the type's property registration for class `name`.
    RegisterProperties { type_id: u64, name: String },
    /// Runs the type's method registration for class `name`.
    RegisterMethods { type_id: u64, name: String },
}

/// The mathematical content of a [`HostCall`].
pub enum HostCallView {
    RegisterClass { type_id: u64, name: Seq<char>, base_name: Seq<char>, tool: bool },
    SetTypeTag { name: Seq<char>, tag: TypeTag },
    RegisterProperties { type_id: u64, name: Seq<char> },
    RegisterMethods { type_id: u64, name: Seq<char> },
}

impl View for HostCall {
    type V = HostCallView;

    open spec fn view(&self) -> HostCallView {
        match self {
            HostCall::RegisterClass { type_id, name, base_name, tool } => HostCallView::RegisterClass {
                type_id: *type_id,
                name: name@,
                base_name: base_name@,
                tool: *tool,
            },
            HostCall::SetTypeTag { name, tag } => HostCallView::SetTypeTag { name: name@, tag: *tag },
            HostCall::RegisterProperties { type_id, name } => HostCallView::RegisterProperties {
                type_id: *type_id,
                name: name@,
            },
            HostCall::RegisterMethods { type_id, name } => HostCallView::RegisterMethods {
                type_id: *type_id,
                name: name@,
            },
        }
    }
}

/// What the session needs to know of a native class type.
pub struct ClassDescriptor {
    /// The process-unique identity of the type.
    pub type_id: u64,
    /// The type's name in the source, for diagnostics.
    pub rust_name: String,
    /// The class name the type registers under by default.
    pub class_name: String,
    /// The name of the host class the type extends.
    pub base_name: String,
}

/// A configuration error that aborts initialization.
pub enum RegistrationError {
    /// The type was registered before, under `old_name`.
    AlreadyRegistered { rust_name: String, old_name: String },
    /// The class name or the base class name holds a NUL character, which no
    /// name passed to the host can hold.
    InvalidName { name: String },
}

/// Whether `s` can be passed to the host as a NUL-terminated name.
pub open spec fn valid_host_name(s: Seq<char>) -> bool {
    !s.contains('\0')
}

/// The host calls that register the type `type_id` as class `name`, in order.
pub open spec fn registration_calls(type_id: u64, name: Seq<char>, base_name: Seq<char>, tool: bool) -> Seq<
    HostCallView,
> {
    seq![
        HostCallView::RegisterClass { type_id, name, base_name, tool },
        HostCallView::SetTypeTag { name, tag: TypeTag { id: type_id } },
        HostCallView::RegisterProperties { type_id, name },
        HostCallView::RegisterMethods { type_id, name },
    ]
}

/// What registering `class` under `name` promises, from the registry and
/// calls before (`reg0`, `calls0`) to those after (`reg1`, `calls1`). A name
/// that cannot reach the host fails first, then a type registered before; a
/// failure changes nothing. Success records the type and appends, in order, the
/// class registration, the type tag, property and method registration.
pub open spec fn registration_outcome(
    reg0: Map<u64, ClassRecord>,
    reg1: Map<u64, ClassRecord>,
    calls0: Seq<HostCallView>,
    calls1: Seq<HostCallView>,
    class: &ClassDescriptor,
    name: Seq<char>,
    is_tool: bool,
    r: &Result<(), RegistrationError>,
) -> bool {
    let names_ok = valid_host_name(name) && valid_host_name(class.base_name@);
    &&& (r is Err ==> reg1 == reg0 && calls1 == calls0)
    &&& match r {
        Err(RegistrationError::InvalidName { name: bad }) => {
            &&& !names_ok
            &&& !valid_host_name(name) ==> bad@ == name
            &&& valid_host_name(name) ==> bad@ == class.base_name@
        },
        Err(RegistrationError::AlreadyRegistered { rust_name, old_name }) => {
            &&& names_ok
            &&& reg0.contains_key(class.type_id)
            &&& rust_name@ == class.rust_name@
            &&& old_name@ == reg0[class.type_id].name
        },
        Ok(()) => {
            &&& names_ok
            &&& !reg0.contains_key(class.type_id)
            &&& reg1 == spec_register(
                reg0,
                class.type_id,
                ClassRecord { name, base_name: class.base_name@ },
            ).1
            &&& calls1 == calls0 + registration_calls(class.type_id, name, class.base_name@, is_tool)
        },
    }
}

/// Whether `s` holds no NUL character.
fn check_host_name(s: &String) -> (r: bool)
    ensures
        r == valid_host_name(s@),
{
    let t = s.as_str();
    let n = t.unicode_len();
    let mut i: usize = 0;
    while i < n
        invariant
            n == t@.len(),
            t@ == s@,
            i <= n,
            forall|k: int| 0 <= k < i ==> t@[k] != '\0',
        decreases n - i,
    {
        if t.get_char(i) == '\0' {
            return false;
        }
        i = i + 1;
    }
    true
}

/// A handle that registers new classes with the host during initialization.
pub struct InitHandle {
    handle: u64,
    calls: Vec<HostCall>,
}

impl InitHandle {
    pub closed spec fn spec_handle(&self) -> u64 {
        self.handle
    }

    /// The host calls made so far, in order.
    pub closed spec fn spec_calls(&self) -> Seq<HostCallView> {
        self.calls@.map_values(|c: HostCall| c@)
    }

    /// A session on the host's registration handle `handle`.
    pub fn new(handle: u64) -> (r: InitHandle)
        ensures
            r.spec_handle() == handle,
            r.spec_calls() == Seq::<HostCallView>::empty(),
    {
        let r = InitHandle { handle, calls: Vec::new() };
        assert(r.spec_calls() =~= Seq::<HostCallView>::empty());
        r
    }

    /// The host's registration handle.
    pub fn handle(&self) -> (r: u64)
        ensures
            r == self.spec_handle(),
    {
        self.handle
    }

    /// Hands over the host calls made so far, leaving none.
    pub fn take_calls(&mut self) -> (r: Vec<HostCall>)
        ensures
            r@.map_values(|c: HostCall| c@) == old(self).spec_calls(),
            final(self).spec_calls() == Seq::<HostCallView>::empty(),
            final(self).spec_handle() == old(self).spec_handle(),
    {
        let mut r = Vec::new();
        core::mem::swap(&mut r, &mut self.calls);
        assert(self.spec_calls() =~= Seq::<HostCallView>::empty());
        r
    }

    fn push_call(&mut self, c: HostCall)
        ensures
            final(self).spec_calls() == old(self).spec_calls().push(c@),
            final(self).spec_handle() == old(self).spec_handle(),
    {
        let ghost before = self.spec_calls();
        self.calls.push(c);
        assert(self.spec_calls() =~= before.push(c@));
    }

    /// Registers `class` under its own class name. Fails, changing nothing, when a name holds a NUL character or the type was registered before.
    pub fn add_class(
        &mut self,
        registry: &mut ClassRegistry,
        class: &ClassDescriptor,
    ) -> (r: Result<(), RegistrationError>)
        requires
            old(registry).wf(),
        ensures
            final(registry).wf(),
            final(self).spec_handle() == old(self).spec_handle(),
            registration_outcome(
                old(registry)@,
                final(registry)@,
                old(self).spec_calls(),
                final(self).spec_calls(),
                class,
                class.class_name@,
                false,
                &r,
            ),
    {
        self.add_maybe_tool_class_as(registry, class, class.class_name.clone(), false)
    }

    /// Registers `class` under its own class name, as a tool class. Fails, changing nothing, when a name holds a NUL character or the type was registered before.
    pub fn add_tool_class(
        &mut self,
        registry: &mut ClassRegistry,
        class: &ClassDescriptor,
    ) -> (r: Result<(), RegistrationError>)
        requires
            old(registry).wf(),
        ensures
            final(registry).wf(),
            final(self).spec_handle() == old(self).spec_handle(),
            registration_outcome(
                old(registry)@,
                final(registry)@,
                old(self).spec_calls(),
                final(self).spec_calls(),
                class,
                class.class_name@,
                true,
                &r,
            ),
    {
        self.add_maybe_tool_class_as(registry, class, class.class_name.clone(), true)
    }

    /// Registers `class` under `name`, in place of its own class name. Fails, changing nothing, when a name holds a NUL character or the type was registered before.
    pub fn add_class_as(
        &mut self,
        registry: &mut ClassRegistry,
        class: &ClassDescriptor,
        name: String,
    ) -> (r: Result<(), RegistrationError>)
        requires
            old(registry).wf(),
        ensures
            final(registry).wf(),
            final(self).spec_handle() == old(self).spec_handle(),
            registration_outcome(
                old(registry)@,
                final(registry)@,
                old(self).spec_calls(),
                final(self).spec_calls(),
                class,
                name@,
                false,
                &r,
            ),
    {
        self.add_maybe_tool_class_as(registry, class, name, false)
    }

    /// Registers `class` under `name`, in place of its own class name, as a tool class. Fails, changing nothing, when a name holds a NUL character or the type was registered before.
    pub fn add_tool_class_as(
        &mut self,
        registry: &mut ClassRegistry,
        class: &ClassDescriptor,
        name: String,
    ) -> (r: Result<(), RegistrationError>)
        requires
            old(registry).wf(),
        ensures
            final(registry).wf(),
            final(self).spec_handle() == old(self).spec_handle(),
            registration_outcome(
                old(registry)@,
                final(registry)@,
                old(self).spec_calls(),
                final(self).spec_calls(),
                class,
                name@,
                true,
                &r,
            ),
    {
        self.add_maybe_tool_class_as(registry, class, name, true)
    }

    /// Registers `class` under `name`, as a tool class when `is_tool`.
    ///
    /// Fails, changing nothing, when a name holds a NUL character, or when the
    /// type was registered before: the error then names the type and the name
    /// it was registered under. Otherwise records the type in `registry` and
    /// appends, in order, the class registration, the type tag, property
    /// registration and method registration.
    pub fn add_maybe_tool_class_as(
        &mut self,
        registry: &mut ClassRegistry,
        class: &ClassDescriptor,
        name: String,
        is_tool: bool,
    ) -> (r: Result<(), RegistrationError>)
        requires
            old(registry).wf(),
        ensures
            final(registry).wf(),
            final(self).spec_handle() == old(self).spec_handle(),
            registration_outcome(
                old(registry)@,
                final(registry)@,
                old(self).spec_calls(),
                final(self).spec_calls(),
                class,
                name@,
                is_tool,
                &r,
            ),
    {
        let ghost calls0 = self.spec_calls();
        if !check_host_name(&name) {
            return Err(RegistrationError::InvalidName { name });
        }
        if !check_host_name(&class.base_name) {
            return Err(RegistrationError::InvalidName { name: class.base_name.clone() });
        }
        let prev = registry.register(class.type_id, name.clone(), class.base_name.clone());
        match prev {
            Some(info) => {
                return Err(
                    RegistrationError::AlreadyRegistered {
                        rust_name: class.rust_name.clone(),
                        old_name: info.name,
                    },
                );
            },
            None => {},
        }
        self.push_call(
            HostCall::RegisterClass {
                type_id: class.type_id,
                name: name.clone(),
                base_name: class.base_name.clone(),
                tool: is_tool,
            },
        );
        self.push_call(HostCall::SetTypeTag { name: name.clone(), tag: TypeTag::of(class.type_id) });
        self.push_call(HostCall::RegisterProperties { type_id: class.type_id, name: name.clone() });
        self.push_call(HostCall::RegisterMethods { type_id: class.type_id, name });
        assert(self.spec_calls() =~= calls0 + registration_calls(
            class.type_id,
            name@,
            class.base_name@,
            is_tool,
        ));
        Ok(())
    }
}

} // verus!
