use vstd::prelude::*;
use crate::debug::{CrabDebugger, DebuggerFlags};
use crate::domain::{bindings_added, can_register, Registrar};
use crate::error::SquirrelError;
use crate::host::HostFunctions;
use crate::registry::{handle_removed, HandleRegistry};
use crate::value::StackValue;
use crate::vm::{call_spec, SquirrelVM, SquirrelVMBuilder, VmState};

verus! {

/// The options of a scripting session: the VM's and the debugger's.
pub struct SqCrabBuilder {
    pub debug_flags: DebuggerFlags,
    pub inner: SquirrelVMBuilder,
}

impl SqCrabBuilder {
    /// Opens a running VM under the engine's `handle`, with a debugger of the
    /// configured flags.
    pub fn build(self, handle: u64, registry: &mut HandleRegistry) -> (r: SqCrab)
        requires
            old(registry).wf(),
        ensures
            final(registry).wf(),
            r.vm_spec().handle_spec() == handle,
            r.vm_spec().state_spec() == VmState::Running,
            r.vm_spec().this_spec() is None,
            r.debugger_spec().spec_flags() == self.debug_flags,
            forall|g: u64| #[trigger] final(registry).is_live(g) == (old(registry).is_live(g) || g == handle),
            forall|g: u64, n: Seq<char>| #[trigger] final(registry).lookup_spec(g, n) == old(registry).lookup_spec(g, n),
    {
        let sqvm = self.inner.build(handle, registry);
        SqCrab::from_parts(sqvm, CrabDebugger::new(self.debug_flags))
    }
}

/// A scripting session: a VM with its debugger.
pub struct SqCrab {
    debugger: CrabDebugger,
    sqvm: SquirrelVM,
}

impl SqCrab {
    pub closed spec fn vm_spec(&self) -> SquirrelVM {
        self.sqvm
    }

    pub closed spec fn debugger_spec(&self) -> CrabDebugger {
        self.debugger
    }

    /// The default options of a session.
    pub fn new() -> (r: SqCrabBuilder)
        ensures
            r.debug_flags.bits == 0x17,
            r.inner.stack_size == 1024,
    {
        SqCrabBuilder { debug_flags: DebuggerFlags::default_flags(), inner: SquirrelVM::new() }
    }

    pub fn from_parts(sqvm: SquirrelVM, debugger: CrabDebugger) -> (r: SqCrab)
        ensures
            r.vm_spec() == sqvm,
            r.debugger_spec() == debugger,
    {
        SqCrab { debugger, sqvm }
    }

    pub fn debugger(&self) -> (r: &CrabDebugger)
        ensures
            *r == self.debugger_spec(),
    {
        &self.debugger
    }

    pub fn vm(&self) -> (r: &SquirrelVM)
        ensures
            *r == self.vm_spec(),
    {
        &self.sqvm
    }

    /// Sets the debugger's flags.
    pub fn set_debugger_flags(&mut self, v: DebuggerFlags)
        ensures
            final(self).vm_spec() == old(self).vm_spec(),
            final(self).debugger_spec().spec_flags() == v,
    {
        self.debugger.set_flags(v);
    }

    /// Installs a domain's bindings on the session's VM.
    pub fn register(&self, registrar: &Registrar, registry: &mut HandleRegistry) -> (r: Result<(), SquirrelError>)
        requires
            old(registry).wf(),
        ensures
            final(registry).wf(),
            r is Ok <==> can_register(*old(registry), self.vm_spec().handle_spec(), registrar.bindings@),
            r is Err ==> *final(registry) == *old(registry),
            bindings_added(*old(registry), *final(registry), self.vm_spec().handle_spec(), registrar.bindings@, r is Ok),
    {
        registrar.add_functions(&self.sqvm, registry)
    }

    /// Calls a registered function by its script name (see `SquirrelVM::call`).
    pub fn call<H: HostFunctions>(&mut self, registry: &HandleRegistry, host: &mut H, name: &str, args: &Vec<StackValue>) -> (r: Result<StackValue, SquirrelError>)
        ensures
            final(self).vm_spec().this_spec() == old(self).vm_spec().this_spec(),
            final(self).vm_spec().handle_spec() == old(self).vm_spec().handle_spec(),
            final(self).vm_spec().state_spec() == old(self).vm_spec().state_spec(),
            final(self).vm_spec().stack_spec() == old(self).vm_spec().stack_spec(),
            final(self).debugger_spec() == old(self).debugger_spec(),
            match call_spec::<H>(*registry, old(self).vm_spec().handle_spec(), old(self).vm_spec().stack_spec(), old(self).vm_spec().this_spec(), old(host).state(), name@, args@) {
                None => (r matches Err(SquirrelError::CouldNotFindFunction(s)) && s@ == name@) && *final(host) == *old(host),
                Some(Err(e)) => r == Err::<StackValue, SquirrelError>(e) && *final(host) == *old(host),
                Some(Ok((h2, v))) => r == Ok::<StackValue, SquirrelError>(v) && final(host).state() == h2,
            },
    {
        self.sqvm.call(registry, host, name, args)
    }

    /// Ends the session: the VM leaves the registry and is closed.
    pub fn teardown(&mut self, registry: &mut HandleRegistry)
        requires
            old(registry).wf(),
        ensures
            final(registry).wf(),
            final(self).vm_spec().state_spec() == VmState::Closed,
            final(self).vm_spec().this_spec() is None,
            final(self).vm_spec().handle_spec() == old(self).vm_spec().handle_spec(),
            final(self).debugger_spec() == old(self).debugger_spec(),
            handle_removed(*old(registry), *final(registry), old(self).vm_spec().handle_spec()),
    {
        self.sqvm.teardown(registry);
    }

    /// Runs `body` on the session with `obj` bound as the VM's ambient object,
    /// and unbinds it afterwards whatever `body` gave back.
    pub fn using_this<R, F: FnOnce(SqCrab) -> (SqCrab, R)>(self, obj: usize, body: F) -> (r: (SqCrab, R))
        requires
            forall|s: SqCrab| s.vm_spec().this_spec() == Some(obj) && s.vm_spec().handle_spec() == self.vm_spec().handle_spec()
                ==> call_requires(body, (s,)),
        ensures
            r.0.vm_spec().this_spec() is None,
            exists|before: SqCrab, after: SqCrab|
                before.vm_spec().this_spec() == Some(obj)
                && before.vm_spec().handle_spec() == self.vm_spec().handle_spec()
                && before.vm_spec().state_spec() == self.vm_spec().state_spec()
                && before.vm_spec().stack_spec() == self.vm_spec().stack_spec()
                && before.debugger_spec() == self.debugger_spec()
                && after.vm_spec().handle_spec() == r.0.vm_spec().handle_spec()
                && after.vm_spec().state_spec() == r.0.vm_spec().state_spec()
                && after.vm_spec().stack_spec() == r.0.vm_spec().stack_spec()
                && after.debugger_spec() == r.0.debugger_spec()
                && #[trigger] call_ensures(body, (before,), (after, r.1)),
    {
        let mut s = self;
        s.sqvm.set_this(obj);
        let ghost before = s;
        let (mut after_s, out) = body(s);
        let ghost after = after_s;
        after_s.sqvm.clear_this();
        let res = (after_s, out);
        assert(call_ensures(body, (before,), (after, res.1)));
        res
    }
}

} // verus!
