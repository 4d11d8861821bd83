use vstd::prelude::*;
use crate::host::HostFunctions;
use crate::value::StackValue;

verus! {

/// A game unit whose hit and magic points scripts can read and change.
#[derive(Debug, Clone, Copy, PartialEq, Eq, Structural)]
pub struct Unit {
    pub id: u32,
    pub hp: u32,
    pub mp: u32,
}

impl Default for Unit {
    fn default() -> (r: Unit)
        ensures
            r == (Unit { id: 1, hp: 50, mp: 40 }),
    {
        Unit { id: 1, hp: 50, mp: 40 }
    }
}

impl Unit {
    pub fn get_hp(&self) -> (r: u32)
        ensures
            r == self.hp,
    {
        self.hp
    }

    pub fn set_hp(&mut self, v: u32)
        ensures
            *final(self) == (Unit { hp: v, ..*old(self) }),
    {
        self.hp = v;
    }

    pub fn get_mp(&self) -> (r: u32)
        ensures
            r == self.mp,
    {
        self.mp
    }

    pub fn set_mp(&mut self, v: u32)
        ensures
            *final(self) == (Unit { mp: v, ..*old(self) }),
    {
        self.mp = v;
    }

    /// Adds `delta` to the hit points, wrapping at the `u32` range.
    pub fn add_hp(&mut self, delta: u32)
        ensures
            *final(self) == (Unit { hp: old(self).hp.wrapping_add(delta), ..*old(self) }),
    {
        self.hp = self.hp.wrapping_add(delta);
    }
}

/// The square of `x`, wrapping at the `u32` range: the sample's free function.
pub fn square(x: u32) -> (r: u32)
    ensures
        r == x.wrapping_mul(x),
{
    x.wrapping_mul(x)
}

/// Host function numbers of the unit bindings.
pub const UNIT_GET_HP: usize = 0;
pub const UNIT_SET_HP: usize = 1;
pub const UNIT_GET_MP: usize = 2;
pub const UNIT_SET_MP: usize = 3;
pub const UNIT_ADD_HP: usize = 4;
pub const SQUARE: usize = 5;

/// The host objects that unit bindings work on; a script names a unit by its
/// index here.
pub struct UnitArena {
    pub units: Vec<Unit>,
}

/// The integer argument at `i`, read as a `u32` (its low 32 bits).
pub open spec fn u32_arg(args: Seq<StackValue>, i: int) -> Option<u32> {
    if 0 <= i < args.len() {
        match args[i] {
            StackValue::Integer(v) => Some(v as u32),
            _ => None,
        }
    } else {
        None
    }
}

/// What each binding does: `square` squares its integer argument; for the
/// unit bindings the receiver must name a unit, and setters and `add_hp` take
/// one integer argument. Anything else changes nothing.
pub open spec fn unit_invoke(units: Seq<Unit>, target: usize, receiver: Option<usize>, args: Seq<StackValue>) -> (Seq<Unit>, Option<StackValue>) {
    if target == SQUARE {
        match u32_arg(args, 0) {
            Some(x) => (units, Some(StackValue::Integer(x.wrapping_mul(x) as i64))),
            None => (units, None),
        }
    } else {
        match receiver {
            Some(i) if i < units.len() => {
                let u = units[i as int];
                if target == UNIT_GET_HP {
                    (units, Some(StackValue::Integer(u.hp as i64)))
                } else if target == UNIT_GET_MP {
                    (units, Some(StackValue::Integer(u.mp as i64)))
                } else if target == UNIT_SET_HP && u32_arg(args, 0) is Some {
                    (units.update(i as int, Unit { hp: u32_arg(args, 0)->Some_0, ..u }), None)
                } else if target == UNIT_SET_MP && u32_arg(args, 0) is Some {
                    (units.update(i as int, Unit { mp: u32_arg(args, 0)->Some_0, ..u }), None)
                } else if target == UNIT_ADD_HP && u32_arg(args, 0) is Some {
                    (units.update(i as int, Unit { hp: u.hp.wrapping_add(u32_arg(args, 0)->Some_0), ..u }), None)
                } else {
                    (units, None)
                }
            },
            _ => (units, None),
        }
    }
}

fn first_u32(args: &Vec<StackValue>) -> (r: Option<u32>)
    ensures
        r == u32_arg(args@, 0),
{
    if args.len() == 0 {
        return None;
    }
    match &args[0] {
        StackValue::Integer(v) => Some(*v as u32),
        _ => None,
    }
}

impl HostFunctions for UnitArena {
    type State = Seq<Unit>;

    open spec fn state(&self) -> Seq<Unit> {
        self.units@
    }

    open spec fn spec_invoke(state: Seq<Unit>, target: usize, receiver: Option<usize>, args: Seq<StackValue>) -> (Seq<Unit>, Option<StackValue>) {
        unit_invoke(state, target, receiver, args)
    }

    fn invoke(&mut self, target: usize, receiver: Option<usize>, args: &Vec<StackValue>) -> (r: Option<StackValue>) {
        if target == SQUARE {
            return match first_u32(args) {
                Some(x) => Some(StackValue::Integer(square(x) as i64)),
                None => None,
            };
        }
        let i = match receiver {
            Some(i) => i,
            None => {
                return None;
            },
        };
        if i >= self.units.len() {
            return None;
        }
        let mut u = self.units[i];
        let arg = first_u32(args);
        if target == UNIT_GET_HP {
            Some(StackValue::Integer(u.get_hp() as i64))
        } else if target == UNIT_GET_MP {
            Some(StackValue::Integer(u.get_mp() as i64))
        } else if target == UNIT_SET_HP && arg.is_some() {
            u.set_hp(arg.unwrap());
            self.units.set(i, u);
            None
        } else if target == UNIT_SET_MP && arg.is_some() {
            u.set_mp(arg.unwrap());
            self.units.set(i, u);
            None
        } else if target == UNIT_ADD_HP && arg.is_some() {
            u.add_hp(arg.unwrap());
            self.units.set(i, u);
            None
        } else {
            None
        }
    }
}

} // verus!
