use vstd::prelude::*;
use crate::binding::{has_kind, value_has_kind, Adapter, ReceiverMode, WireKind};
use crate::error::SquirrelError;
use crate::value::{slot_at, StackValue, ValueStack};

verus! {

/// The host side of the bindings: runs host function `target` on a receiver
/// (an index in the host's object arena) and the value arguments in declared
/// order, and gives back its result, if it has one.
pub trait HostFunctions: Sized {
    /// What the host functions read and change.
    type State;

    spec fn state(&self) -> Self::State;

    /// What running `target` does to the host's state and what it returns.
    spec fn spec_invoke(state: Self::State, target: usize, receiver: Option<usize>, args: Seq<StackValue>) -> (Self::State, Option<StackValue>);

    fn invoke(&mut self, target: usize, receiver: Option<usize>, args: &Vec<StackValue>) -> (r: Option<StackValue>)
        ensures
            (final(self).state(), r) == Self::spec_invoke(old(self).state(), target, receiver, args@),
    ;
}

/// The receiver that an adapter with `n` value parameters takes: from the slot
/// just below its arguments, or from the VM's ambient object.
pub open spec fn receiver_spec(mode: ReceiverMode, stack: Seq<StackValue>, n: int, this: Option<usize>) -> Result<Option<usize>, SquirrelError> {
    match mode {
        ReceiverMode::NoReceiver => Ok(None),
        ReceiverMode::LocalPointer => match slot_at(stack, n + 1) {
            Some(StackValue::UserPointer(p)) => Ok(Some(p)),
            _ => Err(SquirrelError::GetWrongObjectType),
        },
        ReceiverMode::AmbientThis => match this {
            Some(p) => Ok(Some(p)),
            None => Err(SquirrelError::ForeignPointerNotSet),
        },
    }
}

/// Whether the top slots of `stack` carry the tags `kinds`: the first declared
/// argument at the highest position, the last one on top.
pub open spec fn args_match(stack: Seq<StackValue>, kinds: Seq<WireKind>) -> bool {
    &&& kinds.len() <= stack.len()
    &&& forall|k: int| 0 <= k < kinds.len() ==> has_kind(#[trigger] stack[stack.len() - kinds.len() + k], kinds[k])
}

/// The arguments an adapter reads: the top `n` slots, in declared order.
pub open spec fn args_of(stack: Seq<StackValue>, n: int) -> Seq<StackValue> {
    stack.subrange(stack.len() - n, stack.len() as int)
}

/// What running adapter `a` does: on success the host after the call, the
/// stack after the result (if any) is pushed, and the count of pushed values.
pub open spec fn run_spec<H: HostFunctions>(a: (usize, ReceiverMode, Seq<WireKind>, bool), stack: Seq<StackValue>, this: Option<usize>, host: H::State)
    -> Result<(H::State, Seq<StackValue>, usize), SquirrelError>
{
    let n = a.2.len() as int;
    match receiver_spec(a.1, stack, n, this) {
        Err(e) => Err(e),
        Ok(recv) => if !args_match(stack, a.2) {
            Err(SquirrelError::GetWrongObjectType)
        } else {
            let (h, out) = H::spec_invoke(host, a.0, recv, args_of(stack, n));
            if a.3 {
                Ok((h, stack.push(match out { Some(v) => v, None => StackValue::Null }), 1))
            } else {
                Ok((h, stack, 0))
            }
        },
    }
}

/// Runs an adapter on the VM's stack: takes the receiver, reads and checks the
/// arguments, calls the host, and pushes the result if the adapter returns one.
/// Gives the number of values pushed.
pub fn run_adapter<H: HostFunctions>(a: &Adapter, stack: &mut ValueStack, this: Option<usize>, host: &mut H) -> (r: Result<usize, SquirrelError>)
    ensures
        match run_spec::<H>(a@, old(stack)@, this, old(host).state()) {
            Ok((h, s, c)) => r == Ok::<usize, SquirrelError>(c) && final(host).state() == h && final(stack)@ == s,
            Err(e) => r == Err::<usize, SquirrelError>(e) && *final(host) == *old(host) && final(stack)@ == old(stack)@,
        },
{
    let n = a.params.len();
    let recv: Option<usize> = match a.receiver {
        ReceiverMode::NoReceiver => None,
        ReceiverMode::LocalPointer => {
            if n >= stack.len() {
                return Err(SquirrelError::GetWrongObjectType);
            }
            match stack.peek(n + 1) {
                Some(StackValue::UserPointer(p)) => Some(*p),
                _ => {
                    return Err(SquirrelError::GetWrongObjectType);
                },
            }
        },
        ReceiverMode::AmbientThis => match this {
            Some(p) => Some(p),
            None => {
                return Err(SquirrelError::ForeignPointerNotSet);
            },
        },
    };
    if n > stack.len() {
        return Err(SquirrelError::GetWrongObjectType);
    }
    let ghost s = stack@;
    let mut args: Vec<StackValue> = Vec::new();
    let mut k: usize = 0;
    while k < n
        invariant
            n == a.params@.len(),
            n <= s.len(),
            s == stack@,
            *host == *old(host),
            receiver_spec(a.receiver, s, n as int, this) == Ok::<Option<usize>, SquirrelError>(recv),
            k <= n,
            args@ == s.subrange(s.len() - n, s.len() - n + k),
            forall|j: int| 0 <= j < k ==> has_kind(#[trigger] s[s.len() - n + j], a.params@[j]),
        decreases n - k,
    {
        let v = stack.peek(n - k).unwrap();
        if !value_has_kind(v, a.params[k]) {
            assert(!has_kind(s[s.len() - n + k], a.params@[k as int]));
            assert(!args_match(s, a.params@));
            return Err(SquirrelError::GetWrongObjectType);
        }
        args.push(v.duplicate());
        proof {
            assert(args@ =~= s.subrange(s.len() - n, s.len() - n + k + 1));
        }
        k += 1;
    }
    assert(args@ =~= args_of(s, n as int));
    let out = host.invoke(a.target, recv, &args);
    if a.pushes_result {
        match out {
            Some(v) => stack.push(v),
            None => stack.push(StackValue::Null),
        }
        Ok(1)
    } else {
        Ok(0)
    }
}

} // verus!
