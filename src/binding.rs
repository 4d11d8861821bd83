use vstd::prelude::*;
use crate::error::BindingError;
use crate::params::{text_eq, SqcrabParams};
use crate::value::StackValue;

verus! {

/// The stack tag that a parameter or result is carried under.
#[derive(Debug, Clone, Copy, PartialEq, Eq, Structural)]
pub enum WireKind {
    Integer,
    Bool,
    Str,
    UserPointer,
    Null,
}

/// Whether a stack value carries the tag `k`.
pub open spec fn has_kind(v: StackValue, k: WireKind) -> bool {
    match k {
        WireKind::Integer => v is Integer,
        WireKind::Bool => v is Bool,
        WireKind::Str => v is Str,
        WireKind::UserPointer => v is UserPointer,
        WireKind::Null => v is Null,
    }
}

/// Whether a stack value carries the tag `k`.
pub fn value_has_kind(v: &StackValue, k: WireKind) -> (r: bool)
    ensures
        r == has_kind(*v, k),
{
    match k {
        WireKind::Integer => matches!(v, StackValue::Integer(_)),
        WireKind::Bool => matches!(v, StackValue::Bool(_)),
        WireKind::Str => matches!(v, StackValue::Str(_)),
        WireKind::UserPointer => matches!(v, StackValue::UserPointer(_)),
        WireKind::Null => matches!(v, StackValue::Null),
    }
}

/// Whether a function or a method is bound.
#[derive(Debug, Clone, Copy, PartialEq, Eq, Structural)]
pub enum TargetKind {
    Function,
    Method,
}

/// One parameter of a bound declaration.
pub enum Parameter {
    /// `self`, `&self` or `&mut self`.
    Receiver { is_reference: bool, is_mutable: bool },
    /// A typed parameter; `ty` is the type's last identifier, and
    /// `is_reference` / `is_mutable` say whether it is taken by `&` or `&mut`.
    Value { ty: String, is_reference: bool, is_mutable: bool },
}

/// A host function or method with its binding attribute, as the scanner found it.
pub struct BindingDeclaration {
    pub target_kind: TargetKind,
    /// The declaration's identifier.
    pub ident: String,
    /// For a method: the literal name of the enclosing type, when that is a plain name.
    pub enclosing_type: Option<String>,
    pub params: SqcrabParams,
    pub parameters: Vec<Parameter>,
    /// The declared return type's name; `None` for `()` and for no return type.
    pub return_type: Option<String>,
}

/// Where the adapter takes the receiver from.
#[derive(Debug, Clone, Copy, PartialEq, Eq, Structural)]
pub enum ReceiverMode {
    /// The binding has no receiver.
    NoReceiver,
    /// The receiver is an opaque reference in its stack slot.
    LocalPointer,
    /// The receiver is the object that the VM holds as the call's context.
    AmbientThis,
}

/// The marshaling plan of one binding: which host function it runs, where it
/// takes the receiver from, the tags of the value parameters in declared
/// order, and whether it pushes a result.
pub struct Adapter {
    pub target: usize,
    pub receiver: ReceiverMode,
    pub params: Vec<WireKind>,
    pub pushes_result: bool,
}

impl View for Adapter {
    type V = (usize, ReceiverMode, Seq<WireKind>, bool);

    open spec fn view(&self) -> (usize, ReceiverMode, Seq<WireKind>, bool) {
        (self.target, self.receiver, self.params@, self.pushes_result)
    }
}

impl Adapter {
    /// A copy of this adapter.
    pub fn duplicate(&self) -> (r: Adapter)
        ensures
            r@ == self@,
    {
        let mut params: Vec<WireKind> = Vec::new();
        let mut i: usize = 0;
        while i < self.params.len()
            invariant
                i <= self.params@.len(),
                params@ == self.params@.subrange(0, i as int),
            decreases self.params@.len() - i,
        {
            params.push(self.params[i]);
            i += 1;
        }
        assert(params@ =~= self.params@);
        Adapter { target: self.target, receiver: self.receiver, params, pushes_result: self.pushes_result }
    }
}

/// The stack tag of a declared type: integers, `bool`, `String`, any reference
/// (an opaque host object), and `()`.
pub open spec fn kind_of_spec(ty: Seq<char>, is_reference: bool) -> Option<WireKind> {
    if is_reference {
        Some(WireKind::UserPointer)
    } else if ty == "u8"@ || ty == "i8"@ || ty == "u16"@ || ty == "i16"@
        || ty == "u32"@ || ty == "i32"@ || ty == "i64"@ || ty == "u64"@ {
        Some(WireKind::Integer)
    } else if ty == "bool"@ {
        Some(WireKind::Bool)
    } else if ty == "String"@ {
        Some(WireKind::Str)
    } else if ty == "()"@ {
        Some(WireKind::Null)
    } else {
        None
    }
}

/// The stack tag of a declared type, if it has one.
pub fn kind_of(ty: &String, is_reference: bool) -> (r: Option<WireKind>)
    ensures
        r == kind_of_spec(ty@, is_reference),
{
    let t = ty.as_str();
    if is_reference {
        Some(WireKind::UserPointer)
    } else if text_eq(t, "u8") || text_eq(t, "i8") || text_eq(t, "u16") || text_eq(t, "i16")
        || text_eq(t, "u32") || text_eq(t, "i32") || text_eq(t, "i64") || text_eq(t, "u64") {
        Some(WireKind::Integer)
    } else if text_eq(t, "bool") {
        Some(WireKind::Bool)
    } else if text_eq(t, "String") {
        Some(WireKind::Str)
    } else if text_eq(t, "()") {
        Some(WireKind::Null)
    } else {
        None
    }
}

/// The receiver mode of a declaration whose parameters hold a receiver.
pub open spec fn receiver_mode_spec(d: BindingDeclaration) -> ReceiverMode {
    if exists|i: int| 0 <= i < d.parameters.len() && d.parameters[i] is Receiver {
        if d.params.local_pointer {
            ReceiverMode::LocalPointer
        } else {
            ReceiverMode::AmbientThis
        }
    } else {
        ReceiverMode::NoReceiver
    }
}

/// The tags of the value parameters in declared order, or the first
/// value-parameter type that has none.
pub open spec fn param_kinds_spec(ps: Seq<Parameter>) -> Result<Seq<WireKind>, BindingError>
    decreases ps.len(),
{
    if ps.len() == 0 {
        Ok(Seq::empty())
    } else {
        match param_kinds_spec(ps.drop_last()) {
            Err(e) => Err(e),
            Ok(ks) => match ps.last() {
                Parameter::Receiver { .. } => Ok(ks),
                Parameter::Value { ty, is_reference, .. } => match kind_of_spec(ty@, is_reference) {
                    Some(k) => Ok(ks.push(k)),
                    None => Err(BindingError::UnsupportedType(ty)),
                },
            },
        }
    }
}

/// Whether a declared return type is "none": absent or the empty tuple.
pub open spec fn returns_nothing(t: Option<String>) -> bool {
    match t {
        None => true,
        Some(n) => n@ == "()"@,
    }
}

/// What generating the adapter of `d` for host function `target` gives.
/// A method must name its enclosing type; every value parameter and a result,
/// if there is one, must have a stack tag.
pub open spec fn adapter_spec(d: BindingDeclaration, target: usize) -> Result<(ReceiverMode, Seq<WireKind>, bool), BindingError> {
    if d.target_kind == TargetKind::Method && d.enclosing_type is None {
        Err(BindingError::UnresolvedReceiver)
    } else {
        match param_kinds_spec(d.parameters@) {
            Err(e) => Err(e),
            Ok(ks) => if !returns_nothing(d.return_type) && kind_of_spec(d.return_type->Some_0@, false) is None {
                Err(BindingError::UnsupportedType(d.return_type->Some_0))
            } else {
                Ok((receiver_mode_spec(d), ks, !returns_nothing(d.return_type)))
            },
        }
    }
}

/// Whether `a` is the adapter that `adapter_spec` describes.
pub open spec fn adapter_matches(a: Adapter, d: BindingDeclaration, target: usize) -> bool {
    &&& a@.0 == target
    &&& adapter_spec(d, target) == Ok::<_, BindingError>((a@.1, a@.2, a@.3))
}

impl BindingDeclaration {
    /// Generates the marshaling adapter of this declaration for host function
    /// `target`: value parameters are read from the highest stack position down
    /// to the top in declared order, the receiver by the attribute's mode, and
    /// one value is pushed back unless the return type is none.
    pub fn build_adapter(&self, target: usize) -> (r: Result<Adapter, BindingError>)
        ensures
            r matches Ok(a) ==> adapter_matches(a, *self, target),
            r matches Err(e) ==> adapter_spec(*self, target) == Err::<(ReceiverMode, Seq<WireKind>, bool), BindingError>(e),
    {
        if self.target_kind == TargetKind::Method && self.enclosing_type.is_none() {
            return Err(BindingError::UnresolvedReceiver);
        }
        let mut kinds: Vec<WireKind> = Vec::new();
        let mut has_receiver = false;
        let mut i: usize = 0;
        while i < self.parameters.len()
            invariant
                !(self.target_kind == TargetKind::Method && self.enclosing_type is None),
                i <= self.parameters@.len(),
                param_kinds_spec(self.parameters@.subrange(0, i as int)) == Ok::<_, BindingError>(kinds@),
                has_receiver == exists|j: int| 0 <= j < i && self.parameters@[j] is Receiver,
            decreases self.parameters@.len() - i,
        {
            assert(self.parameters@.subrange(0, i + 1).drop_last() =~= self.parameters@.subrange(0, i as int));
            match &self.parameters[i] {
                Parameter::Receiver { .. } => {
                    has_receiver = true;
                },
                Parameter::Value { ty, is_reference, .. } => {
                    match kind_of(ty, *is_reference) {
                        Some(k) => {
                            kinds.push(k);
                        },
                        None => {
                            proof {
                                assert(self.parameters@.subrange(0, i + 1).last() == self.parameters@[i as int]);
                                lemma_kinds_error_sticks(self.parameters@, i as int + 1);
                                assert(param_kinds_spec(self.parameters@.subrange(0, i + 1)) == Err::<Seq<WireKind>, BindingError>(BindingError::UnsupportedType(*ty)));
                            }
                            return Err(BindingError::UnsupportedType(ty.clone()));
                        },
                    }
                },
            }
            i += 1;
        }
        assert(self.parameters@.subrange(0, i as int) =~= self.parameters@);
        let pushes_result = match &self.return_type {
            None => false,
            Some(t) => !text_eq(t.as_str(), "()"),
        };
        if pushes_result {
            let t = self.return_type.as_ref().unwrap();
            if kind_of(t, false).is_none() {
                return Err(BindingError::UnsupportedType(t.clone()));
            }
        }
        let receiver = if has_receiver {
            if self.params.local_pointer {
                ReceiverMode::LocalPointer
            } else {
                ReceiverMode::AmbientThis
            }
        } else {
            ReceiverMode::NoReceiver
        };
        Ok(Adapter { target, receiver, params: kinds, pushes_result })
    }
}

proof fn lemma_kinds_error_sticks(ps: Seq<Parameter>, k: int)
    requires
        0 <= k <= ps.len(),
        param_kinds_spec(ps.subrange(0, k)) is Err,
    ensures
        param_kinds_spec(ps) == param_kinds_spec(ps.subrange(0, k)),
    decreases ps.len() - k,
{
    if k < ps.len() {
        assert(ps.subrange(0, k + 1).drop_last() =~= ps.subrange(0, k));
        lemma_kinds_error_sticks(ps, k + 1);
    } else {
        assert(ps.subrange(0, k) =~= ps);
    }
}

} // verus!
