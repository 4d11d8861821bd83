use vstd::prelude::*;
use crate::error::SquirrelError;

verus! {

/// One slot of a script VM's value stack, tagged with its type.
#[derive(Debug, PartialEq)]
pub enum StackValue {
    Null,
    Integer(i64),
    Bool(bool),
    Str(String),
    /// An opaque host object, named by its index in the host's object arena.
    UserPointer(usize),
}

impl StackValue {
    /// A copy of this value.
    pub fn duplicate(&self) -> (r: StackValue)
        ensures
            r == *self,
    {
        match self {
            StackValue::Null => StackValue::Null,
            StackValue::Integer(i) => StackValue::Integer(*i),
            StackValue::Bool(b) => StackValue::Bool(*b),
            StackValue::Str(s) => StackValue::Str(s.clone()),
            StackValue::UserPointer(p) => StackValue::UserPointer(*p),
        }
    }
}

/// The slot `position` places down from the top of `stack` (`1` is the top).
pub open spec fn slot_at(stack: Seq<StackValue>, position: int) -> Option<StackValue> {
    if 1 <= position <= stack.len() {
        Some(stack[stack.len() - position])
    } else {
        None
    }
}

/// What reading a `T` at `position` gives: the decoded value, or a type mismatch
/// when the slot is missing or holds another tag.
pub open spec fn get_spec<T: CanSquirrel>(stack: Seq<StackValue>, position: int) -> Result<T, SquirrelError> {
    match slot_at(stack, position) {
        Some(v) => match T::spec_from_squirrel(v) {
            Some(x) => Ok(x),
            None => Err(SquirrelError::GetWrongObjectType),
        },
        None => Err(SquirrelError::GetWrongObjectType),
    }
}

/// The conversion protocol of a host type: how a value is written to a stack
/// slot and read back from one.
pub trait CanSquirrel: Sized {
    spec fn spec_into_squirrel(&self) -> StackValue;

    spec fn spec_from_squirrel(v: StackValue) -> Option<Self>;

    fn into_squirrel(&self) -> (r: StackValue)
        ensures
            r == self.spec_into_squirrel(),
    ;

    fn from_squirrel(v: &StackValue) -> (r: Option<Self>)
        ensures
            r == Self::spec_from_squirrel(*v),
    ;

    /// Reading back what was written gives the value unchanged.
    proof fn lemma_round_trip(v: Self)
        ensures
            Self::spec_from_squirrel(v.spec_into_squirrel()) == Some(v),
    ;
}

/// A value stack: slots are pushed and popped at the top and read by their
/// position from the top.
pub struct ValueStack {
    slots: Vec<StackValue>,
}

impl View for ValueStack {
    type V = Seq<StackValue>;

    closed spec fn view(&self) -> Seq<StackValue> {
        self.slots@
    }
}

impl ValueStack {
    pub fn new() -> (r: ValueStack)
        ensures
            r@ == Seq::<StackValue>::empty(),
    {
        ValueStack { slots: Vec::new() }
    }

    pub fn len(&self) -> (r: usize)
        ensures
            r == self@.len(),
    {
        self.slots.len()
    }

    /// Writes `v` to a new slot on top.
    pub fn push(&mut self, v: StackValue)
        ensures
            final(self)@ == old(self)@.push(v),
    {
        self.slots.push(v);
    }

    /// Writes a host value to a new slot on top, through its conversion.
    pub fn push_value<T: CanSquirrel>(&mut self, v: &T)
        ensures
            final(self)@ == old(self)@.push(v.spec_into_squirrel()),
    {
        let s = v.into_squirrel();
        self.slots.push(s);
    }

    /// Removes the `n` top slots.
    pub fn pop(&mut self, n: usize)
        requires
            n <= old(self)@.len(),
        ensures
            final(self)@ == old(self)@.subrange(0, old(self)@.len() - n),
    {
        let target: usize = self.slots.len() - n;
        while self.slots.len() > target
            invariant
                target <= self.slots@.len() <= old(self)@.len(),
                target == old(self)@.len() - n,
                self.slots@ == old(self)@.subrange(0, self.slots@.len() as int),
            decreases self.slots@.len(),
        {
            self.slots.pop();
        }
        assert(self.slots@ =~= old(self)@.subrange(0, old(self)@.len() - n));
    }

    /// The slot `position` places down from the top, if there is one.
    pub fn peek(&self, position: usize) -> (r: Option<&StackValue>)
        ensures
            r matches Some(v) ==> slot_at(self@, position as int) == Some(*v),
            r is None <==> slot_at(self@, position as int) is None,
    {
        if 1 <= position && position <= self.slots.len() {
            Some(&self.slots[self.slots.len() - position])
        } else {
            None
        }
    }

    /// Reads a host value at `position`; a missing slot or another tag is a
    /// type mismatch.
    pub fn get_value<T: CanSquirrel>(&self, position: usize) -> (r: Result<T, SquirrelError>)
        ensures
            r == get_spec::<T>(self@, position as int),
    {
        match self.peek(position) {
            Some(v) => match T::from_squirrel(v) {
                Some(x) => Ok(x),
                None => Err(SquirrelError::GetWrongObjectType),
            },
            None => Err(SquirrelError::GetWrongObjectType),
        }
    }
}

/// Conversion round trip: pushing a host value and reading it at the top slot
/// gives the same value back, whatever was on the stack before.
pub proof fn lemma_push_get_round_trip<T: CanSquirrel>(stack: Seq<StackValue>, v: T)
    ensures
        get_spec::<T>(stack.push(v.spec_into_squirrel()), 1) == Ok::<T, SquirrelError>(v),
{
    T::lemma_round_trip(v);
    assert(slot_at(stack.push(v.spec_into_squirrel()), 1) == Some(v.spec_into_squirrel()));
}

/// A reference to a host object, by its index in the host's object arena.
#[derive(Debug, Clone, Copy, PartialEq, Eq, Structural)]
pub struct HostRef(pub usize);

impl CanSquirrel for HostRef {
    open spec fn spec_into_squirrel(&self) -> StackValue {
        StackValue::UserPointer(self.0)
    }

    open spec fn spec_from_squirrel(v: StackValue) -> Option<HostRef> {
        match v {
            StackValue::UserPointer(p) => Some(HostRef(p)),
            _ => None,
        }
    }

    fn into_squirrel(&self) -> (r: StackValue) {
        StackValue::UserPointer(self.0)
    }

    fn from_squirrel(v: &StackValue) -> (r: Option<HostRef>) {
        match v {
            StackValue::UserPointer(p) => Some(HostRef(*p)),
            _ => None,
        }
    }

    proof fn lemma_round_trip(v: HostRef) {
    }
}

impl CanSquirrel for bool {
    open spec fn spec_into_squirrel(&self) -> StackValue {
        StackValue::Bool(*self)
    }

    open spec fn spec_from_squirrel(v: StackValue) -> Option<bool> {
        match v {
            StackValue::Bool(b) => Some(b),
            _ => None,
        }
    }

    fn into_squirrel(&self) -> (r: StackValue) {
        StackValue::Bool(*self)
    }

    fn from_squirrel(v: &StackValue) -> (r: Option<bool>) {
        match v {
            StackValue::Bool(b) => Some(*b),
            _ => None,
        }
    }

    proof fn lemma_round_trip(v: bool) {
    }
}

impl CanSquirrel for () {
    open spec fn spec_into_squirrel(&self) -> StackValue {
        StackValue::Null
    }

    open spec fn spec_from_squirrel(v: StackValue) -> Option<()> {
        Some(())
    }

    fn into_squirrel(&self) -> (r: StackValue) {
        StackValue::Null
    }

    fn from_squirrel(v: &StackValue) -> (r: Option<()>) {
        Some(())
    }

    proof fn lemma_round_trip(v: ()) {
    }
}

impl CanSquirrel for String {
    open spec fn spec_into_squirrel(&self) -> StackValue {
        StackValue::Str(*self)
    }

    open spec fn spec_from_squirrel(v: StackValue) -> Option<String> {
        match v {
            StackValue::Str(s) => Some(s),
            _ => None,
        }
    }

    fn into_squirrel(&self) -> (r: StackValue) {
        StackValue::Str(self.clone())
    }

    fn from_squirrel(v: &StackValue) -> (r: Option<String>) {
        match v {
            StackValue::Str(s) => Some(s.clone()),
            _ => None,
        }
    }

    proof fn lemma_round_trip(v: String) {
    }
}

impl CanSquirrel for i64 {
    open spec fn spec_into_squirrel(&self) -> StackValue {
        StackValue::Integer(*self)
    }

    open spec fn spec_from_squirrel(v: StackValue) -> Option<i64> {
        match v {
            StackValue::Integer(i) => Some(i),
            _ => None,
        }
    }

    fn into_squirrel(&self) -> (r: StackValue) {
        StackValue::Integer(*self)
    }

    fn from_squirrel(v: &StackValue) -> (r: Option<i64>) {
        match v {
            StackValue::Integer(i) => Some(*i),
            _ => None,
        }
    }

    proof fn lemma_round_trip(v: i64) {
    }
}

impl CanSquirrel for u32 {
    open spec fn spec_into_squirrel(&self) -> StackValue {
        StackValue::Integer(*self as i64)
    }

    /// An integer slot is read as its low 32 bits.
    open spec fn spec_from_squirrel(v: StackValue) -> Option<u32> {
        match v {
            StackValue::Integer(i) => Some(i as u32),
            _ => None,
        }
    }

    fn into_squirrel(&self) -> (r: StackValue) {
        StackValue::Integer(*self as i64)
    }

    fn from_squirrel(v: &StackValue) -> (r: Option<u32>) {
        match v {
            StackValue::Integer(i) => Some(*i as u32),
            _ => None,
        }
    }

    proof fn lemma_round_trip(v: u32) {
    }
}

impl CanSquirrel for u8 {
    open spec fn spec_into_squirrel(&self) -> StackValue {
        StackValue::Integer(*self as i64)
    }

    /// An integer slot is read as its low bits.
    open spec fn spec_from_squirrel(v: StackValue) -> Option<u8> {
        match v {
            StackValue::Integer(i) => Some(i as u8),
            _ => None,
        }
    }

    fn into_squirrel(&self) -> (r: StackValue) {
        StackValue::Integer(*self as i64)
    }

    fn from_squirrel(v: &StackValue) -> (r: Option<u8>) {
        match v {
            StackValue::Integer(i) => Some(*i as u8),
            _ => None,
        }
    }

    proof fn lemma_round_trip(v: u8) {
    }
}

impl CanSquirrel for i8 {
    open spec fn spec_into_squirrel(&self) -> StackValue {
        StackValue::Integer(*self as i64)
    }

    /// An integer slot is read as its low bits.
    open spec fn spec_from_squirrel(v: StackValue) -> Option<i8> {
        match v {
            StackValue::Integer(i) => Some(i as i8),
            _ => None,
        }
    }

    fn into_squirrel(&self) -> (r: StackValue) {
        StackValue::Integer(*self as i64)
    }

    fn from_squirrel(v: &StackValue) -> (r: Option<i8>) {
        match v {
            StackValue::Integer(i) => Some(*i as i8),
            _ => None,
        }
    }

    proof fn lemma_round_trip(v: i8) {
    }
}

impl CanSquirrel for u16 {
    open spec fn spec_into_squirrel(&self) -> StackValue {
        StackValue::Integer(*self as i64)
    }

    /// An integer slot is read as its low bits.
    open spec fn spec_from_squirrel(v: StackValue) -> Option<u16> {
        match v {
            StackValue::Integer(i) => Some(i as u16),
            _ => None,
        }
    }

    fn into_squirrel(&self) -> (r: StackValue) {
        StackValue::Integer(*self as i64)
    }

    fn from_squirrel(v: &StackValue) -> (r: Option<u16>) {
        match v {
            StackValue::Integer(i) => Some(*i as u16),
            _ => None,
        }
    }

    proof fn lemma_round_trip(v: u16) {
    }
}

impl CanSquirrel for i16 {
    open spec fn spec_into_squirrel(&self) -> StackValue {
        StackValue::Integer(*self as i64)
    }

    /// An integer slot is read as its low bits.
    open spec fn spec_from_squirrel(v: StackValue) -> Option<i16> {
        match v {
            StackValue::Integer(i) => Some(i as i16),
            _ => None,
        }
    }

    fn into_squirrel(&self) -> (r: StackValue) {
        StackValue::Integer(*self as i64)
    }

    fn from_squirrel(v: &StackValue) -> (r: Option<i16>) {
        match v {
            StackValue::Integer(i) => Some(*i as i16),
            _ => None,
        }
    }

    proof fn lemma_round_trip(v: i16) {
    }
}

impl CanSquirrel for i32 {
    open spec fn spec_into_squirrel(&self) -> StackValue {
        StackValue::Integer(*self as i64)
    }

    /// An integer slot is read as its low bits.
    open spec fn spec_from_squirrel(v: StackValue) -> Option<i32> {
        match v {
            StackValue::Integer(i) => Some(i as i32),
            _ => None,
        }
    }

    fn into_squirrel(&self) -> (r: StackValue) {
        StackValue::Integer(*self as i64)
    }

    fn from_squirrel(v: &StackValue) -> (r: Option<i32>) {
        match v {
            StackValue::Integer(i) => Some(*i as i32),
            _ => None,
        }
    }

    proof fn lemma_round_trip(v: i32) {
    }
}

impl CanSquirrel for u64 {
    /// Stored in the slot's 64 bits; values above `i64::MAX` read as negative.
    open spec fn spec_into_squirrel(&self) -> StackValue {
        StackValue::Integer(*self as i64)
    }

    open spec fn spec_from_squirrel(v: StackValue) -> Option<u64> {
        match v {
            StackValue::Integer(i) => Some(i as u64),
            _ => None,
        }
    }

    fn into_squirrel(&self) -> (r: StackValue) {
        StackValue::Integer(*self as i64)
    }

    fn from_squirrel(v: &StackValue) -> (r: Option<u64>) {
        match v {
            StackValue::Integer(i) => Some(*i as u64),
            _ => None,
        }
    }

    proof fn lemma_round_trip(v: u64) {
        assert((v as i64) as u64 == v) by (bit_vector);
    }
}

} // verus!
