use vstd::prelude::*;

verus! {

/// Which debug reports a debugger acts on, one bit each.
#[derive(Debug, Clone, Copy, PartialEq, Eq, Structural)]
pub struct DebuggerFlags {
    pub bits: u32,
}

impl DebuggerFlags {
    pub const RUN_PRINT_FUNC: u32 = 1;
    pub const RUN_ERROR_FUNC: u32 = 2;
    pub const RUN_COMPILER_ERROR: u32 = 4;
    pub const RUN_DEBUG_HOOK: u32 = 8;
    pub const RUN_EXCEPTION: u32 = 16;

    /// Printing, errors, compile errors and exceptions; no debug hook.
    pub fn default_flags() -> (r: DebuggerFlags)
        ensures
            r.bits == 0x17,
    {
        assert(1u32 | 2u32 | 4u32 | 16u32 == 0x17u32) by (bit_vector);
        DebuggerFlags {
            bits: Self::RUN_PRINT_FUNC | Self::RUN_ERROR_FUNC | Self::RUN_COMPILER_ERROR | Self::RUN_EXCEPTION,
        }
    }

    /// Whether every bit of `flag` is set.
    pub fn contains(&self, flag: u32) -> (r: bool)
        ensures
            r == (self.bits & flag == flag),
    {
        self.bits & flag == flag
    }
}

/// What debug event a hook report is about.
#[derive(Debug, Clone, Copy, PartialEq, Eq, Structural)]
pub enum DebugHookType {
    CallFunc,
    ExecLine,
    RetFunc,
    Unknown,
}

impl DebugHookType {
    /// Decodes the engine's event character: `c` a call, `l` a line, `r` a return.
    pub fn from_code(value: i64) -> (r: DebugHookType)
        ensures
            r == if value == 0x63 {
                DebugHookType::CallFunc
            } else if value == 0x6c {
                DebugHookType::ExecLine
            } else if value == 0x72 {
                DebugHookType::RetFunc
            } else {
                DebugHookType::Unknown
            },
    {
        if value == 0x63 {
            DebugHookType::CallFunc
        } else if value == 0x6c {
            DebugHookType::ExecLine
        } else if value == 0x72 {
            DebugHookType::RetFunc
        } else {
            DebugHookType::Unknown
        }
    }
}

/// Where in a function a breakpoint stops.
#[derive(Debug, Clone, Copy, PartialEq, Eq, Structural)]
pub enum FunctionBreakpointData {
    OnCall,
    OnLine(i64),
    OnReturn,
    Unknown,
}

/// A breakpoint on a named script function.
#[derive(Debug)]
pub struct FunctionBreakpoint {
    pub name: String,
    pub data: FunctionBreakpointData,
}

/// The bridge's debugger: which reports it acts on, and its breakpoints.
#[derive(Debug)]
pub struct CrabDebugger {
    debugger_flags: DebuggerFlags,
    breakpoints: Vec<FunctionBreakpoint>,
}

impl CrabDebugger {
    pub closed spec fn spec_flags(&self) -> DebuggerFlags {
        self.debugger_flags
    }

    pub closed spec fn spec_breakpoints(&self) -> Seq<FunctionBreakpoint> {
        self.breakpoints@
    }

    /// A debugger with the given flags and no breakpoints.
    pub fn new(debugger_flags: DebuggerFlags) -> (r: CrabDebugger)
        ensures
            r.spec_flags() == debugger_flags,
            r.spec_breakpoints().len() == 0,
    {
        CrabDebugger { debugger_flags, breakpoints: Vec::new() }
    }

    pub fn get_flags(&self) -> (r: DebuggerFlags)
        ensures
            r == self.spec_flags(),
    {
        self.debugger_flags
    }

    pub fn set_flags(&mut self, v: DebuggerFlags)
        ensures
            final(self).spec_flags() == v,
            final(self).spec_breakpoints() == old(self).spec_breakpoints(),
    {
        self.debugger_flags = v;
    }

    /// Turns on the bits of `rhs`.
    pub fn bitor_assign(&mut self, rhs: DebuggerFlags)
        ensures
            final(self).spec_flags().bits == old(self).spec_flags().bits | rhs.bits,
            final(self).spec_breakpoints() == old(self).spec_breakpoints(),
    {
        self.debugger_flags = DebuggerFlags { bits: self.debugger_flags.bits | rhs.bits };
    }

    /// Keeps only the bits that `rhs` has too.
    pub fn bitand_assign(&mut self, rhs: DebuggerFlags)
        ensures
            final(self).spec_flags().bits == old(self).spec_flags().bits & rhs.bits,
            final(self).spec_breakpoints() == old(self).spec_breakpoints(),
    {
        self.debugger_flags = DebuggerFlags { bits: self.debugger_flags.bits & rhs.bits };
    }

    /// Adds a breakpoint.
    pub fn add_breakpoint(&mut self, b: FunctionBreakpoint)
        ensures
            final(self).spec_flags() == old(self).spec_flags(),
            final(self).spec_breakpoints() == old(self).spec_breakpoints().push(b),
    {
        self.breakpoints.push(b);
    }

    pub fn breakpoint_count(&self) -> (r: usize)
        ensures
            r == self.spec_breakpoints().len(),
    {
        self.breakpoints.len()
    }
}

} // verus!
