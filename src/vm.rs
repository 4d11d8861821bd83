use vstd::prelude::*;
use crate::binding::{adapter_matches, has_kind, returns_nothing, Adapter, BindingDeclaration, ReceiverMode, WireKind};
use crate::params::script_name_spec;
use crate::callbacks::CallbackTable;
use crate::error::SquirrelError;
use crate::host::{args_of, run_adapter, run_spec, HostFunctions};
use crate::registry::{handle_removed, link_added, HandleRegistry};
use crate::value::{get_spec, slot_at, CanSquirrel, StackValue, ValueStack};

verus! {

/// Where a VM instance is in its life.
#[derive(Debug, Clone, Copy, PartialEq, Eq, Structural)]
pub enum VmState {
    Running,
    Suspended,
    Closed,
}

/// The options a VM instance is opened with.
pub struct SquirrelVMBuilder {
    pub stack_size: usize,
    pub enable_debug_info: bool,
    pub notify_all_exceptions: bool,
}

/// The stack depth a VM is opened with unless another is set.
pub const DEFAULT_STACK_SIZE: usize = 1024;

impl SquirrelVMBuilder {
    /// The default options: a stack of 1024 slots, no debug information, and
    /// only unhandled exceptions reported.
    pub fn new() -> (r: SquirrelVMBuilder)
        ensures
            r.stack_size == DEFAULT_STACK_SIZE,
            !r.enable_debug_info,
            !r.notify_all_exceptions,
    {
        SquirrelVMBuilder { stack_size: DEFAULT_STACK_SIZE, enable_debug_info: false, notify_all_exceptions: false }
    }

    pub fn set_stack_size(self, v: usize) -> (r: SquirrelVMBuilder)
        ensures
            r == (SquirrelVMBuilder { stack_size: v, ..self }),
    {
        SquirrelVMBuilder { stack_size: v, ..self }
    }

    pub fn set_enable_debug_info(self, v: bool) -> (r: SquirrelVMBuilder)
        ensures
            r == (SquirrelVMBuilder { enable_debug_info: v, ..self }),
    {
        SquirrelVMBuilder { enable_debug_info: v, ..self }
    }

    pub fn set_notify_all_exceptions(self, v: bool) -> (r: SquirrelVMBuilder)
        ensures
            r == (SquirrelVMBuilder { notify_all_exceptions: v, ..self }),
    {
        SquirrelVMBuilder { notify_all_exceptions: v, ..self }
    }

    /// Opens a running VM under the engine's `handle` and gives it a table in
    /// `registry` (an existing table of that handle stays as it is).
    pub fn build(self, handle: u64, registry: &mut HandleRegistry) -> (r: SquirrelVM)
        requires
            old(registry).wf(),
        ensures
            final(registry).wf(),
            r.handle_spec() == handle,
            r.state_spec() == VmState::Running,
            r.this_spec() is None,
            r.stack_spec() == Seq::<StackValue>::empty(),
            r.options_spec() == (self.stack_size, self.enable_debug_info, self.notify_all_exceptions),
            forall|g: u64| #[trigger] final(registry).is_live(g) == (old(registry).is_live(g) || g == handle),
            forall|g: u64, n: Seq<char>| #[trigger] final(registry).lookup_spec(g, n) == old(registry).lookup_spec(g, n),
    {
        registry.insert(handle);
        SquirrelVM {
            handle,
            stack: ValueStack::new(),
            state: VmState::Running,
            this: None,
            stack_size: self.stack_size,
            enable_debug_info: self.enable_debug_info,
            notify_all_exceptions: self.notify_all_exceptions,
        }
    }
}

impl SquirrelVMBuilder {
    /// Opens a VM as `build` does and installs its debug callbacks under its
    /// handle in `table`.
    pub fn build_with_callbacks<C>(self, handle: u64, registry: &mut HandleRegistry, table: &mut CallbackTable<C>, callbacks: C) -> (r: SquirrelVM)
        requires
            old(registry).wf(),
        ensures
            final(registry).wf(),
            r.handle_spec() == handle,
            r.state_spec() == VmState::Running,
            r.this_spec() is None,
            r.stack_spec() == Seq::<StackValue>::empty(),
            forall|g: u64| #[trigger] final(registry).is_live(g) == (old(registry).is_live(g) || g == handle),
            forall|g: u64, n: Seq<char>| #[trigger] final(registry).lookup_spec(g, n) == old(registry).lookup_spec(g, n),
            final(table).get_spec(handle) == Some(callbacks),
            forall|g: u64| g != handle ==> #[trigger] final(table).get_spec(g) == old(table).get_spec(g),
    {
        let vm = self.build(handle, registry);
        table.install(handle, callbacks);
        vm
    }
}

/// One VM instance: its engine handle, its value stack, its life state and the
/// object it holds as ambient `this`. The script interpreter, compiler and
/// collector are the engine's; this is what the bridge reads and changes of
/// an instance.
pub struct SquirrelVM {
    handle: u64,
    stack: ValueStack,
    state: VmState,
    this: Option<usize>,
    stack_size: usize,
    enable_debug_info: bool,
    notify_all_exceptions: bool,
}

/// What dispatching a script call to a native function comes to.
pub enum Dispatch<'a> {
    /// Nothing is run and no value is produced.
    NoOp,
    /// The adapter registered under the called name is run.
    Invoke(&'a Adapter),
}

/// What the trampoline resolves a call on VM `h` to: the registered adapter
/// of the innermost frame's function name, or nothing when the name is
/// unavailable, the VM has no table, or no function has that name.
pub open spec fn dispatch_spec(registry: HandleRegistry, h: u64, func_name: Option<Seq<char>>) -> Option<(usize, ReceiverMode, Seq<WireKind>, bool)> {
    match func_name {
        None => None,
        Some(n) => registry.lookup_spec(h, n),
    }
}

pub open spec fn name_view(o: Option<&str>) -> Option<Seq<char>> {
    match o {
        Some(n) => Some(n@),
        None => None,
    }
}

/// The single native entry point: resolves the function being called on VM
/// `h` by its name, without running it.
pub fn dispatch<'a>(registry: &'a HandleRegistry, h: u64, func_name: Option<&str>) -> (r: Dispatch<'a>)
    ensures
        r matches Dispatch::Invoke(a) ==> dispatch_spec(*registry, h, name_view(func_name)) == Some(a@),
        r is NoOp <==> dispatch_spec(*registry, h, name_view(func_name)) is None,
{
    match func_name {
        None => Dispatch::NoOp,
        Some(n) => match registry.lookup(h, n) {
            Some(a) => Dispatch::Invoke(a),
            None => Dispatch::NoOp,
        },
    }
}

/// Registry isolation: registering a function on VM `a` makes nothing new
/// resolvable on another VM `b`, and once `a` is torn down its table is gone, so
/// a stale dispatch against `a`'s handle resolves nothing and runs nothing.
pub proof fn lemma_registry_isolation(
    r0: HandleRegistry,
    r1: HandleRegistry,
    r2: HandleRegistry,
    a: u64,
    b: u64,
    name: Seq<char>,
    ad: (usize, ReceiverMode, Seq<WireKind>, bool),
    added: bool,
)
    requires
        a != b,
        link_added(r0, r1, a, name, ad, added),
        handle_removed(r1, r2, a),
    ensures
        forall|n: Seq<char>| #[trigger] r1.lookup_spec(b, n) == r0.lookup_spec(b, n),
        forall|n: Seq<char>| #[trigger] r2.lookup_spec(b, n) == r0.lookup_spec(b, n),
        !r2.is_live(a),
        forall|n: Option<Seq<char>>| #[trigger] dispatch_spec(r2, a, n) is None,
{
    assert forall|n: Seq<char>| #[trigger] r1.lookup_spec(b, n) == r0.lookup_spec(b, n) by {
        assert(r1.lookup_spec(b, n) == r0.lookup_spec(b, n));
    }
    assert forall|n: Seq<char>| #[trigger] r2.lookup_spec(b, n) == r0.lookup_spec(b, n) by {
        assert(r2.lookup_spec(b, n) == r1.lookup_spec(b, n));
        assert(r1.lookup_spec(b, n) == r0.lookup_spec(b, n));
    }
    assert forall|n: Option<Seq<char>>| #[trigger] dispatch_spec(r2, a, n) is None by {
        if let Some(m) = n {
            assert(r2.lookup_spec(a, m) is None);
        }
    }
}

/// What a host-to-script call of `name` with `args` does on a VM whose stack is
/// `stack` and whose ambient object is `this`: `None` when the VM has no such
/// function, else the host after the call and the returned value, or the error.
/// The call pushes a slot for the global namespace, then the arguments in order.
pub open spec fn call_spec<H: HostFunctions>(
    registry: HandleRegistry,
    h: u64,
    stack: Seq<StackValue>,
    this: Option<usize>,
    host: H::State,
    name: Seq<char>,
    args: Seq<StackValue>,
) -> Option<Result<(H::State, StackValue), SquirrelError>> {
    match registry.lookup_spec(h, name) {
        None => None,
        Some(a) => Some(
            match run_spec::<H>(a, stack.push(StackValue::Null) + args, this, host) {
                Err(_) => Err(SquirrelError::ErrorWhileCalling),
                Ok((h2, s2, c)) => Ok((h2, if c == 1 { s2.last() } else { StackValue::Null })),
            },
        ),
    }
}

/// The state after a suspend request in `s`, and whether it was granted.
pub open spec fn suspend_spec(s: VmState) -> (VmState, bool) {
    if s == VmState::Running {
        (VmState::Suspended, true)
    } else {
        (s, false)
    }
}

/// The state after a resume request in `s`, and whether it was granted.
pub open spec fn wakeup_spec(s: VmState) -> (VmState, bool) {
    if s == VmState::Suspended {
        (VmState::Running, true)
    } else {
        (s, false)
    }
}

/// Suspend and resume: a freshly built (running) VM can be suspended once; a
/// second suspend without a resume in between is refused, and so is a resume
/// of a VM that is not suspended. A suspended VM resumed runs again.
pub proof fn lemma_suspend_resume()
    ensures
        suspend_spec(VmState::Running) == (VmState::Suspended, true),
        !suspend_spec(suspend_spec(VmState::Running).0).1,
        !wakeup_spec(VmState::Running).1,
        !wakeup_spec(VmState::Closed).1,
        wakeup_spec(suspend_spec(VmState::Running).0) == (VmState::Running, true),
{
}

/// The receiver a call passes: the first argument in pointer-locality mode,
/// the ambient object in ambient mode.
pub open spec fn call_receiver(mode: ReceiverMode, args: Seq<StackValue>, this: Option<usize>) -> Option<usize> {
    match mode {
        ReceiverMode::NoReceiver => None,
        ReceiverMode::LocalPointer => match args[0] {
            StackValue::UserPointer(p) => Some(p),
            _ => None,
        },
        ReceiverMode::AmbientThis => this,
    }
}

/// The value arguments of a call: all of them, less the receiver slot in
/// pointer-locality mode.
pub open spec fn call_values(mode: ReceiverMode, args: Seq<StackValue>) -> Seq<StackValue> {
    if mode == ReceiverMode::LocalPointer {
        args.drop_first()
    } else {
        args
    }
}

/// Whether `args` is a valid call of an adapter: a receiver where its mode
/// needs one, and values whose tags are the declared ones.
pub open spec fn valid_call(a: (usize, ReceiverMode, Seq<WireKind>, bool), args: Seq<StackValue>, this: Option<usize>) -> bool {
    &&& a.1 == ReceiverMode::LocalPointer ==> args.len() > 0 && args[0] is UserPointer
    &&& a.1 == ReceiverMode::AmbientThis ==> this is Some
    &&& call_values(a.1, args).len() == a.2.len()
    &&& forall|k: int| 0 <= k < a.2.len() ==> has_kind(#[trigger] call_values(a.1, args)[k], a.2[k])
}

/// A generated binding called through the script call surface gives what the
/// host function gives when called directly: for a declaration `d` whose
/// adapter is registered under its script name on VM `h`, a valid call yields
/// the host state and result of running host function `target` on the same
/// receiver and values (null when the declaration returns nothing).
pub proof fn lemma_call_matches_direct<H: HostFunctions>(
    d: BindingDeclaration,
    target: usize,
    a: Adapter,
    registry: HandleRegistry,
    h: u64,
    stack: Seq<StackValue>,
    this: Option<usize>,
    host: H::State,
    args: Seq<StackValue>,
)
    requires
        adapter_matches(a, d, target),
        registry.lookup_spec(h, script_name_spec(d.params, d.ident)@) == Some(a@),
        valid_call(a@, args, this),
    ensures
        ({
            let (h2, out) = H::spec_invoke(host, target, call_receiver(a.receiver, args, this), call_values(a.receiver, args));
            call_spec::<H>(registry, h, stack, this, host, script_name_spec(d.params, d.ident)@, args)
                == Some(Ok::<(H::State, StackValue), SquirrelError>((h2, if !returns_nothing(d.return_type) {
                    match out {
                        Some(v) => v,
                        None => StackValue::Null,
                    }
                } else {
                    StackValue::Null
                })))
        }),
{
    let s = stack.push(StackValue::Null) + args;
    let n = a.params@.len() as int;
    let vals = call_values(a.receiver, args);
    assert(args_of(s, n) =~= vals);
    assert forall|k: int| 0 <= k < n implies has_kind(#[trigger] s[s.len() - n + k], a.params@[k]) by {
        assert(s[s.len() - n + k] == vals[k]);
    }
    if a.receiver == ReceiverMode::LocalPointer {
        assert(slot_at(s, n + 1) == Some(args[0]));
    }
}

impl SquirrelVM {
    pub closed spec fn handle_spec(&self) -> u64 {
        self.handle
    }

    pub closed spec fn state_spec(&self) -> VmState {
        self.state
    }

    pub closed spec fn this_spec(&self) -> Option<usize> {
        self.this
    }

    pub closed spec fn stack_spec(&self) -> Seq<StackValue> {
        self.stack@
    }

    /// Stack size, debug information, notification of all exceptions.
    pub closed spec fn options_spec(&self) -> (usize, bool, bool) {
        (self.stack_size, self.enable_debug_info, self.notify_all_exceptions)
    }

    /// The options of a VM with default settings.
    pub fn new() -> (r: SquirrelVMBuilder)
        ensures
            r.stack_size == DEFAULT_STACK_SIZE,
            !r.enable_debug_info,
            !r.notify_all_exceptions,
    {
        SquirrelVMBuilder::new()
    }

    /// The engine handle this VM is known by.
    pub fn handle(&self) -> (r: u64)
        ensures
            r == self.handle_spec(),
    {
        self.handle
    }

    pub fn state(&self) -> (r: VmState)
        ensures
            r == self.state_spec(),
    {
        self.state
    }

    pub fn get_stack_len(&self) -> (r: usize)
        ensures
            r == self.stack_spec().len(),
    {
        self.stack.len()
    }

    /// Suspends a running VM; any other state is refused.
    pub fn suspend(&mut self) -> (r: Result<(), SquirrelError>)
        ensures
            (final(self).state_spec(), r is Ok) == suspend_spec(old(self).state_spec()),
            r is Err ==> r == Err::<(), SquirrelError>(SquirrelError::CouldNotSuspendVM),
            final(self).handle_spec() == old(self).handle_spec(),
            final(self).this_spec() == old(self).this_spec(),
            final(self).stack_spec() == old(self).stack_spec(),
    {
        match self.state {
            VmState::Running => {
                self.state = VmState::Suspended;
                Ok(())
            },
            _ => Err(SquirrelError::CouldNotSuspendVM),
        }
    }

    /// Resumes a suspended VM; any other state is refused.
    pub fn wakeup(&mut self) -> (r: Result<(), SquirrelError>)
        ensures
            (final(self).state_spec(), r is Ok) == wakeup_spec(old(self).state_spec()),
            r is Err ==> r == Err::<(), SquirrelError>(SquirrelError::CouldNotWakeupVM),
            final(self).handle_spec() == old(self).handle_spec(),
            final(self).this_spec() == old(self).this_spec(),
            final(self).stack_spec() == old(self).stack_spec(),
    {
        match self.state {
            VmState::Suspended => {
                self.state = VmState::Running;
                Ok(())
            },
            _ => Err(SquirrelError::CouldNotWakeupVM),
        }
    }

    /// Closes the VM: its table leaves the registry first, so that no later
    /// dispatch can reach it, then the instance is closed for good.
    pub fn teardown(&mut self, registry: &mut HandleRegistry)
        requires
            old(registry).wf(),
        ensures
            final(registry).wf(),
            final(self).state_spec() == VmState::Closed,
            final(self).this_spec() is None,
            final(self).stack_spec() == Seq::<StackValue>::empty(),
            final(self).handle_spec() == old(self).handle_spec(),
            handle_removed(*old(registry), *final(registry), old(self).handle_spec()),
    {
        registry.remove(self.handle);
        self.this = None;
        self.stack = ValueStack::new();
        self.state = VmState::Closed;
    }

    /// Closes the VM as `teardown` does, removing its debug callbacks from
    /// `table` first.
    pub fn teardown_with_callbacks<C>(&mut self, registry: &mut HandleRegistry, table: &mut CallbackTable<C>)
        requires
            old(registry).wf(),
        ensures
            final(registry).wf(),
            final(self).state_spec() == VmState::Closed,
            final(self).this_spec() is None,
            final(self).handle_spec() == old(self).handle_spec(),
            handle_removed(*old(registry), *final(registry), old(self).handle_spec()),
            final(table).get_spec(old(self).handle_spec()) is None,
            forall|g: u64| g != old(self).handle_spec() ==> #[trigger] final(table).get_spec(g) == old(table).get_spec(g),
    {
        table.remove(self.handle);
        self.teardown(registry);
    }

    /// Registers `adapter` on this VM under `name`. A VM without a table in
    /// `registry` (a closed one) cannot take functions, and a name the VM
    /// already has is a collision; either way nothing changes.
    pub fn add_function(&self, registry: &mut HandleRegistry, name: String, adapter: Adapter) -> (r: Result<(), SquirrelError>)
        requires
            old(registry).wf(),
        ensures
            final(registry).wf(),
            r is Ok <==> (old(registry).is_live(self.handle_spec()) && old(registry).lookup_spec(self.handle_spec(), name@) is None),
            !old(registry).is_live(self.handle_spec()) ==> r == Err::<(), SquirrelError>(SquirrelError::CouldNotAddFunction),
            old(registry).is_live(self.handle_spec()) && r is Err ==> (r matches Err(SquirrelError::FunctionNameTaken(n)) && n@ == name@),
            r is Err ==> *final(registry) == *old(registry),
            link_added(*old(registry), *final(registry), self.handle_spec(), name@, adapter@, r is Ok),
    {
        if !registry.contains(self.handle) {
            return Err(SquirrelError::CouldNotAddFunction);
        }
        let taken = name.clone();
        if registry.add_function_link(self.handle, name, adapter) {
            Ok(())
        } else {
            Err(SquirrelError::FunctionNameTaken(taken))
        }
    }

    /// Binds `obj` as the ambient object.
    pub fn set_this(&mut self, obj: usize)
        ensures
            final(self).this_spec() == Some(obj),
            final(self).handle_spec() == old(self).handle_spec(),
            final(self).state_spec() == old(self).state_spec(),
            final(self).stack_spec() == old(self).stack_spec(),
    {
        self.this = Some(obj);
    }

    /// Unbinds the ambient object.
    pub fn clear_this(&mut self)
        ensures
            final(self).this_spec() is None,
            final(self).handle_spec() == old(self).handle_spec(),
            final(self).state_spec() == old(self).state_spec(),
            final(self).stack_spec() == old(self).stack_spec(),
    {
        self.this = None;
    }

    /// The ambient object; an error when none is bound.
    pub fn get_this(&self) -> (r: Result<usize, SquirrelError>)
        ensures
            r == match self.this_spec() {
                Some(p) => Ok::<usize, SquirrelError>(p),
                None => Err(SquirrelError::ForeignPointerNotSet),
            },
    {
        match self.this {
            Some(p) => Ok(p),
            None => Err(SquirrelError::ForeignPointerNotSet),
        }
    }

    /// Runs `body` with `obj` bound as the ambient object, and unbinds it
    /// afterwards whatever `body` gave back.
    pub fn using_this<R, F: FnOnce(SquirrelVM) -> (SquirrelVM, R)>(self, obj: usize, body: F) -> (r: (SquirrelVM, R))
        requires
            forall|vm: SquirrelVM| vm.this_spec() == Some(obj) && vm.handle_spec() == self.handle_spec() ==> call_requires(body, (vm,)),
        ensures
            r.0.this_spec() is None,
            exists|before: SquirrelVM, after: SquirrelVM|
                before.this_spec() == Some(obj)
                && before.handle_spec() == self.handle_spec()
                && before.state_spec() == self.state_spec()
                && before.stack_spec() == self.stack_spec()
                && after.handle_spec() == r.0.handle_spec()
                && after.state_spec() == r.0.state_spec()
                && after.stack_spec() == r.0.stack_spec()
                && #[trigger] call_ensures(body, (before,), (after, r.1)),
    {
        let mut vm = self;
        vm.set_this(obj);
        let ghost before = vm;
        let (mut after_vm, out) = body(vm);
        let ghost after = after_vm;
        after_vm.clear_this();
        let res = (after_vm, out);
        assert(call_ensures(body, (before,), (after, res.1)));
        res
    }

    /// Pushes a host value through its conversion.
    pub fn push<T: CanSquirrel>(&mut self, value: &T)
        ensures
            final(self).stack_spec() == old(self).stack_spec().push(value.spec_into_squirrel()),
            final(self).handle_spec() == old(self).handle_spec(),
            final(self).state_spec() == old(self).state_spec(),
            final(self).this_spec() == old(self).this_spec(),
    {
        self.stack.push_value(value);
    }

    /// Reads a host value `index` slots down from the top (`1` is the top).
    pub fn get<T: CanSquirrel>(&self, index: usize) -> (r: Result<T, SquirrelError>)
        ensures
            r == get_spec::<T>(self.stack_spec(), index as int),
    {
        self.stack.get_value(index)
    }

    /// Removes the `n` top slots.
    pub fn pop(&mut self, n: usize)
        requires
            n <= old(self).stack_spec().len(),
        ensures
            final(self).stack_spec() == old(self).stack_spec().subrange(0, old(self).stack_spec().len() - n),
            final(self).handle_spec() == old(self).handle_spec(),
            final(self).state_spec() == old(self).state_spec(),
            final(self).this_spec() == old(self).this_spec(),
    {
        self.stack.pop(n);
    }

    /// Removes the top slot.
    pub fn pop_top(&mut self)
        requires
            old(self).stack_spec().len() > 0,
        ensures
            final(self).stack_spec() == old(self).stack_spec().drop_last(),
            final(self).handle_spec() == old(self).handle_spec(),
            final(self).state_spec() == old(self).state_spec(),
            final(self).this_spec() == old(self).this_spec(),
    {
        self.stack.pop(1);
    }

    /// The native entry point of a script call on this VM: resolves the
    /// function being called by its name and runs its adapter on the stack.
    /// An unavailable name or an unknown function runs nothing and produces no
    /// value. Gives the number of values pushed.
    pub fn trampoline<H: HostFunctions>(&mut self, registry: &HandleRegistry, host: &mut H, func_name: Option<&str>) -> (r: Result<usize, SquirrelError>)
        ensures
            final(self).handle_spec() == old(self).handle_spec(),
            final(self).state_spec() == old(self).state_spec(),
            final(self).this_spec() == old(self).this_spec(),
            match dispatch_spec(*registry, old(self).handle_spec(), name_view(func_name)) {
                None => r == Ok::<usize, SquirrelError>(0) && *final(host) == *old(host) && final(self).stack_spec() == old(self).stack_spec(),
                Some(a) => match run_spec::<H>(a, old(self).stack_spec(), old(self).this_spec(), old(host).state()) {
                    Ok((h, s, c)) => r == Ok::<usize, SquirrelError>(c) && final(host).state() == h && final(self).stack_spec() == s,
                    Err(e) => r == Err::<usize, SquirrelError>(e) && *final(host) == *old(host) && final(self).stack_spec() == old(self).stack_spec(),
                },
            },
    {
        match dispatch(registry, self.handle, func_name) {
            Dispatch::NoOp => Ok(0),
            Dispatch::Invoke(a) => run_adapter(a, &mut self.stack, self.this, host),
        }
    }

    /// Calls the function that scripts know as `name` on this VM, as the engine
    /// does: pushes a slot for the global namespace and `args` in order, runs
    /// the function, reads the single result slot (null when the function
    /// pushes none) and restores the stack's depth.
    pub fn call<H: HostFunctions>(&mut self, registry: &HandleRegistry, host: &mut H, name: &str, args: &Vec<StackValue>) -> (r: Result<StackValue, SquirrelError>)
        ensures
            final(self).handle_spec() == old(self).handle_spec(),
            final(self).state_spec() == old(self).state_spec(),
            final(self).this_spec() == old(self).this_spec(),
            final(self).stack_spec() == old(self).stack_spec(),
            match call_spec::<H>(*registry, old(self).handle_spec(), old(self).stack_spec(), old(self).this_spec(), old(host).state(), name@, args@) {
                None => (r matches Err(SquirrelError::CouldNotFindFunction(s)) && s@ == name@) && *final(host) == *old(host),
                Some(Err(e)) => r == Err::<StackValue, SquirrelError>(e) && *final(host) == *old(host),
                Some(Ok((h2, v))) => r == Ok::<StackValue, SquirrelError>(v) && final(host).state() == h2,
            },
    {
        if registry.lookup(self.handle, name).is_none() {
            return Err(SquirrelError::CouldNotFindFunction(name.to_owned()));
        }
        let ghost s0 = self.stack@;
        let depth = self.stack.len();
        self.stack.push(StackValue::Null);
        let mut i: usize = 0;
        while i < args.len()
            invariant
                i <= args@.len(),
                depth == s0.len(),
                s0 == old(self).stack@,
                self.handle == old(self).handle,
                self.this == old(self).this,
                self.state == old(self).state,
                *host == *old(host),
                registry.lookup_spec(self.handle, name@) is Some,
                self.stack@ == s0.push(StackValue::Null) + args@.subrange(0, i as int),
            decreases args@.len() - i,
        {
            self.stack.push(args[i].duplicate());
            proof {
                assert(self.stack@ =~= s0.push(StackValue::Null) + args@.subrange(0, i + 1));
            }
            i += 1;
        }
        assert(args@.subrange(0, args@.len() as int) =~= args@);
        let ghost s1 = self.stack@;
        let res = self.trampoline(registry, host, Some(name));
        let out = match res {
            Ok(c) => {
                if c == 1 {
                    match self.stack.peek(1) {
                        Some(v) => Ok(v.duplicate()),
                        None => Ok(StackValue::Null),
                    }
                } else {
                    Ok(StackValue::Null)
                }
            },
            Err(_) => Err(SquirrelError::ErrorWhileCalling),
        };
        let extra = self.stack.len() - depth;
        self.stack.pop(extra);
        proof {
            assert(self.stack@ =~= s0);
        }
        out
    }
}

} // verus!
