use vstd::prelude::*;
use crate::binding::{returns_nothing, BindingDeclaration, Parameter, TargetKind};
use crate::config::views;
use crate::error::BindingError;
use crate::params::text_eq;
use crate::render::{append_decimal, decimal};

verus! {

/// The module path prefix of the source file with module name `name` (its
/// path below the source root, components separated by `/`): `crate::`, the
/// components joined by `::`, and a final `::`.
pub open spec fn module_prefix_spec(name: Seq<char>) -> Seq<char> {
    "crate::"@ + slashes_to_colons(name) + "::"@
}

pub open spec fn slashes_to_colons(s: Seq<char>) -> Seq<char>
    decreases s.len(),
{
    if s.len() == 0 {
        Seq::empty()
    } else {
        slashes_to_colons(s.drop_last()) + if s.last() == '/' {
            "::"@
        } else {
            seq![s.last()]
        }
    }
}

/// The module path prefix of the source file with module name `name`.
pub fn module_prefix(name: &str) -> (r: String)
    ensures
        r@ == module_prefix_spec(name@),
{
    let mut out = String::from_str("crate::");
    let ghost start = out@;
    let n = name.unicode_len();
    let mut i: usize = 0;
    while i < n
        invariant
            n == name@.len(),
            i <= n,
            out@ == start + slashes_to_colons(name@.subrange(0, i as int)),
        decreases n - i,
    {
        let c = name.get_char(i);
        proof {
            assert(name@.subrange(0, i + 1).drop_last() =~= name@.subrange(0, i as int));
            assert(name@.subrange(i as int, i + 1) =~= seq![c]);
        }
        if c == '/' {
            out.append("::");
        } else {
            out.append(name.substring_char(i, i + 1));
        }
        assert(out@ =~= start + slashes_to_colons(name@.subrange(0, i + 1)));
        i += 1;
    }
    assert(name@.subrange(0, n as int) =~= name@);
    out.append("::");
    out
}

/// Whether a parameter list has a receiver.
pub open spec fn has_receiver(ps: Seq<Parameter>) -> bool {
    exists|j: int| 0 <= j < ps.len() && (#[trigger] ps[j]) is Receiver
}

/// The path of an enclosing type as generated code names it: with the
/// file's module path when the type is declared in the scanned file, bare
/// otherwise.
pub open spec fn type_path_spec(t: Seq<char>, declared: Seq<Seq<char>>, module_prefix: Seq<char>) -> Seq<char> {
    (if declared.contains(t) {
        module_prefix
    } else {
        Seq::<char>::empty()
    }) + t
}

/// The type that owns a bound declaration: none for a free function, the
/// enclosing type's path for a method. A method whose enclosing type is not a
/// plain name, or a free function with a receiver, has none to name.
pub open spec fn owner_spec(d: BindingDeclaration, declared: Seq<Seq<char>>, module_prefix: Seq<char>) -> Result<Option<Seq<char>>, BindingError> {
    match d.target_kind {
        TargetKind::Function => if has_receiver(d.parameters@) {
            Err(BindingError::UnresolvedReceiver)
        } else {
            Ok(None)
        },
        TargetKind::Method => match d.enclosing_type {
            None => Err(BindingError::UnresolvedReceiver),
            Some(t) => Ok(Some(type_path_spec(t@, declared, module_prefix))),
        },
    }
}

/// The path generated code calls a bound declaration by.
pub open spec fn method_path_spec(d: BindingDeclaration, declared: Seq<Seq<char>>, module_prefix: Seq<char>) -> Result<Seq<char>, BindingError> {
    match owner_spec(d, declared, module_prefix) {
        Err(e) => Err(e),
        Ok(None) => Ok(d.ident@),
        Ok(Some(o)) => Ok(o + "::"@ + d.ident@),
    }
}

fn contains_name(v: &Vec<String>, t: &str) -> (r: bool)
    ensures
        r == views(v@).contains(t@),
{
    let mut i: usize = 0;
    while i < v.len()
        invariant
            i <= v@.len(),
            forall|j: int| 0 <= j < i ==> v@[j]@ != t@,
        decreases v@.len() - i,
    {
        if text_eq(v[i].as_str(), t) {
            assert(views(v@)[i as int] == t@);
            return true;
        }
        i += 1;
    }
    proof {
        if views(v@).contains(t@) {
            let j = choose|j: int| 0 <= j < views(v@).len() && views(v@)[j] == t@;
            assert(v@[j]@ == t@);
        }
    }
    false
}

fn find_receiver(ps: &Vec<Parameter>) -> (r: Option<usize>)
    ensures
        r matches Some(j) ==> j < ps@.len() && ps@[j as int] is Receiver,
        r is None <==> !has_receiver(ps@),
{
    let mut j: usize = 0;
    while j < ps.len()
        invariant
            j <= ps@.len(),
            forall|k: int| 0 <= k < j ==> !(ps@[k] is Receiver),
        decreases ps@.len() - j,
    {
        if matches!(ps[j], Parameter::Receiver { .. }) {
            return Some(j);
        }
        j += 1;
    }
    None
}

/// The type that owns a bound declaration, as generated code names it.
pub fn owner_path(d: &BindingDeclaration, declared: &Vec<String>, module_prefix: &str) -> (r: Result<Option<String>, BindingError>)
    ensures
        match owner_spec(*d, views(declared@), module_prefix@) {
            Ok(Some(o)) => r matches Ok(Some(s)) && s@ == o,
            Ok(None) => r matches Ok(None),
            Err(e) => r == Err::<Option<String>, BindingError>(e),
        },
{
    match d.target_kind {
        TargetKind::Function => {
            if find_receiver(&d.parameters).is_some() {
                Err(BindingError::UnresolvedReceiver)
            } else {
                Ok(None)
            }
        },
        TargetKind::Method => match &d.enclosing_type {
            None => Err(BindingError::UnresolvedReceiver),
            Some(t) => {
                let mut s = if contains_name(declared, t.as_str()) {
                    String::from_str(module_prefix)
                } else {
                    String::new()
                };
                s.append(t.as_str());
                Ok(Some(s))
            },
        },
    }
}

/// The path generated code calls a bound declaration by: its identifier for
/// a free function, `<type path>::<identifier>` for a method.
pub fn method_call_path(d: &BindingDeclaration, declared: &Vec<String>, module_prefix: &str) -> (r: Result<String, BindingError>)
    ensures
        match method_path_spec(*d, views(declared@), module_prefix@) {
            Ok(p) => r matches Ok(s) && s@ == p,
            Err(e) => r == Err::<String, BindingError>(e),
        },
{
    match owner_path(d, declared, module_prefix) {
        Err(e) => Err(e),
        Ok(None) => Ok(d.ident.clone()),
        Ok(Some(o)) => {
            let mut s = o;
            s.append("::");
            s.append(d.ident.as_str());
            Ok(s)
        },
    }
}

/// How many value parameters `ps` has.
pub open spec fn value_count(ps: Seq<Parameter>) -> nat
    decreases ps.len(),
{
    if ps.len() == 0 {
        0
    } else {
        value_count(ps.drop_last()) + if ps.last() is Value {
            1nat
        } else {
            0nat
        }
    }
}

/// The expression that passes parameter `p`, at position `j`, to the call.
pub open spec fn param_name(p: Parameter, j: nat) -> Seq<char> {
    match p {
        Parameter::Receiver { is_reference, .. } => if is_reference {
            "r"@
        } else {
            "r.clone()"@
        },
        Parameter::Value { .. } => "p"@ + decimal(j),
    }
}

/// The argument list of the call, in declared order.
pub open spec fn call_args(ps: Seq<Parameter>) -> Seq<char>
    decreases ps.len(),
{
    if ps.len() == 0 {
        Seq::empty()
    } else {
        call_args(ps.drop_last()) + (if ps.len() > 1 {
            ", "@
        } else {
            Seq::<char>::empty()
        }) + param_name(ps.last(), (ps.len() - 1) as nat)
    }
}

/// The lines that convert each value argument: the `k`-th value argument
/// into the type of the parameter that takes it.
pub open spec fn fetch_lines(ps: Seq<Parameter>) -> Seq<char>
    decreases ps.len(),
{
    if ps.len() == 0 {
        Seq::empty()
    } else {
        fetch_lines(ps.drop_last()) + match ps.last() {
            Parameter::Receiver { .. } => Seq::<char>::empty(),
            Parameter::Value { ty, .. } => "            let p"@ + decimal((ps.len() - 1) as nat) + " = <"@ + ty@
                + " as ::sqcrab::value::CanSquirrel>::from_squirrel(args.get("@ + decimal(value_count(ps.drop_last()))
                + ")?)?;\n"@,
        }
    }
}

/// The match arm that runs host function `i`, the declaration `d` owned by `owner`.
pub open spec fn arm_text(d: BindingDeclaration, i: nat, owner: Option<Seq<char>>) -> Seq<char> {
    "        "@ + decimal(i) + " => {\n"@ + receiver_line(d, owner) + fetch_lines(d.parameters@) + "            let v = "@
        + call_path_text(d, owner) + "("@ + call_args(d.parameters@) + ");\n"@ + result_lines(d) + "        }\n"@
}

pub open spec fn arms_text(ds: Seq<BindingDeclaration>, owners: Seq<Option<Seq<char>>>) -> Seq<char>
    decreases ds.len(),
{
    if ds.len() == 0 || owners.len() < ds.len() {
        Seq::empty()
    } else {
        arms_text(ds.drop_last(), owners) + arm_text(ds.last(), (ds.len() - 1) as nat, owners[ds.len() - 1])
    }
}

pub const DISPATCH_HEAD: &'static str = "/// Runs host function `target` on the receiver object and the value arguments.\npub fn dispatch(target: usize, receiver: Option<&mut dyn ::std::any::Any>, args: &[::sqcrab::value::StackValue]) -> Option<::sqcrab::value::StackValue> {\n    match target {\n";

pub const DISPATCH_TAIL: &'static str = "        _ => None,\n    }\n}\n";

/// The generated dispatch function: host function `i` is declaration `ds[i]`,
/// called by its path on the receiver object (downcast to its owner type) and
/// the converted value arguments; its result, if it has one, is converted back.
pub open spec fn dispatch_text(ds: Seq<BindingDeclaration>, owners: Seq<Option<Seq<char>>>) -> Seq<char> {
    DISPATCH_HEAD@ + arms_text(ds, owners) + DISPATCH_TAIL@
}

/// Whether generated code can call `d` with owner `owner`: a receiver needs an
/// owner type, and no value parameter is taken by reference.
pub open spec fn dispatchable(d: BindingDeclaration, owner: Option<Seq<char>>) -> bool {
    &&& has_receiver(d.parameters@) ==> owner is Some
    &&& forall|j: int| 0 <= j < d.parameters@.len() ==> !((#[trigger] d.parameters@[j]) matches Parameter::Value { is_reference, .. } && is_reference)
}

pub open spec fn owner_views(owners: Seq<Option<String>>) -> Seq<Option<Seq<char>>> {
    owners.map_values(|o: Option<String>| opt_view(o))
}

fn append_call_args(out: &mut String, ps: &Vec<Parameter>)
    ensures
        final(out)@ == old(out)@ + call_args(ps@),
{
    let ghost start = out@;
    let mut j: usize = 0;
    while j < ps.len()
        invariant
            j <= ps@.len(),
            out@ == start + call_args(ps@.subrange(0, j as int)),
        decreases ps@.len() - j,
    {
        proof {
            assert(ps@.subrange(0, j + 1).drop_last() =~= ps@.subrange(0, j as int));
        }
        if j > 0 {
            out.append(", ");
        }
        match &ps[j] {
            Parameter::Receiver { is_reference, .. } => {
                if *is_reference {
                    out.append("r");
                } else {
                    out.append("r.clone()");
                }
            },
            Parameter::Value { .. } => {
                out.append("p");
                append_decimal(out, j);
            },
        }
        assert(out@ =~= start + call_args(ps@.subrange(0, j + 1)));
        j += 1;
    }
    assert(ps@.subrange(0, j as int) =~= ps@);
}

fn append_fetch_lines(out: &mut String, ps: &Vec<Parameter>)
    ensures
        final(out)@ == old(out)@ + fetch_lines(ps@),
{
    let ghost start = out@;
    let mut j: usize = 0;
    let mut v: usize = 0;
    while j < ps.len()
        invariant
            j <= ps@.len(),
            v == value_count(ps@.subrange(0, j as int)),
            v <= j,
            out@ == start + fetch_lines(ps@.subrange(0, j as int)),
        decreases ps@.len() - j,
    {
        proof {
            assert(ps@.subrange(0, j + 1).drop_last() =~= ps@.subrange(0, j as int));
        }
        match &ps[j] {
            Parameter::Receiver { .. } => {},
            Parameter::Value { ty, .. } => {
                out.append("            let p");
                append_decimal(out, j);
                out.append(" = <");
                out.append(ty.as_str());
                out.append(" as ::sqcrab::value::CanSquirrel>::from_squirrel(args.get(");
                append_decimal(out, v);
                out.append(")?)?;\n");
                v += 1;
            },
        }
        assert(out@ =~= start + fetch_lines(ps@.subrange(0, j + 1)));
        j += 1;
    }
    assert(ps@.subrange(0, j as int) =~= ps@);
}

pub open spec fn receiver_line(d: BindingDeclaration, owner: Option<Seq<char>>) -> Seq<char> {
    if has_receiver(d.parameters@) {
        "            let r = receiver?.downcast_mut::<"@ + owner->Some_0 + ">()?;\n"@
    } else {
        Seq::<char>::empty()
    }
}

pub open spec fn call_path_text(d: BindingDeclaration, owner: Option<Seq<char>>) -> Seq<char> {
    match owner {
        Some(o) => o + "::"@ + d.ident@,
        None => d.ident@,
    }
}

pub open spec fn result_lines(d: BindingDeclaration) -> Seq<char> {
    if !returns_nothing(d.return_type) {
        "            Some(::sqcrab::value::CanSquirrel::into_squirrel(&v))\n"@
    } else {
        "            let _ = v;\n            None\n"@
    }
}

pub open spec fn opt_view(o: Option<String>) -> Option<Seq<char>> {
    match o {
        Some(s) => Some(s@),
        None => None,
    }
}

fn append_receiver_line(out: &mut String, d: &BindingDeclaration, owner: &Option<String>)
    requires
        has_receiver(d.parameters@) ==> owner is Some,
    ensures
        final(out)@ == old(out)@ + receiver_line(*d, opt_view(*owner)),
{
    if find_receiver(&d.parameters).is_some() {
        let ghost start = out@;
        out.append("            let r = receiver?.downcast_mut::<");
        out.append(owner.as_ref().unwrap().as_str());
        out.append(">()?;\n");
        assert(out@ =~= start + receiver_line(*d, opt_view(*owner)));
    } else {
        assert(old(out)@ + receiver_line(*d, opt_view(*owner)) =~= old(out)@);
    }
}

fn append_call_path(out: &mut String, d: &BindingDeclaration, owner: &Option<String>)
    ensures
        final(out)@ == old(out)@ + call_path_text(*d, opt_view(*owner)),
{
    let ghost start = out@;
    match owner {
        Some(o) => {
            out.append(o.as_str());
            out.append("::");
            out.append(d.ident.as_str());
        },
        None => out.append(d.ident.as_str()),
    }
    assert(out@ =~= start + call_path_text(*d, opt_view(*owner)));
}

fn append_result_lines(out: &mut String, d: &BindingDeclaration)
    ensures
        final(out)@ == old(out)@ + result_lines(*d),
{
    let pushes = match &d.return_type {
        None => false,
        Some(t) => !text_eq(t.as_str(), "()"),
    };
    if pushes {
        out.append("            Some(::sqcrab::value::CanSquirrel::into_squirrel(&v))\n");
    } else {
        out.append("            let _ = v;\n            None\n");
    }
}

fn append_arm(out: &mut String, d: &BindingDeclaration, i: usize, owner: &Option<String>)
    requires
        has_receiver(d.parameters@) ==> owner is Some,
    ensures
        final(out)@ == old(out)@ + arm_text(*d, i as nat, opt_view(*owner)),
{
    let ghost start = out@;
    out.append("        ");
    append_decimal(out, i);
    out.append(" => {\n");
    append_receiver_line(out, d, owner);
    append_fetch_lines(out, &d.parameters);
    out.append("            let v = ");
    append_call_path(out, d, owner);
    out.append("(");
    append_call_args(out, &d.parameters);
    out.append(");\n");
    append_result_lines(out, d);
    out.append("        }\n");
    assert(out@ =~= start + arm_text(*d, i as nat, opt_view(*owner)));
}

fn check_dispatchable(d: &BindingDeclaration, owner: &Option<String>) -> (r: Result<(), BindingError>)
    ensures
        r is Ok <==> dispatchable(*d, opt_view(*owner)),
        r matches Err(e) ==> e is UnresolvedReceiver || e is UnsupportedType,
{
    if owner.is_none() && find_receiver(&d.parameters).is_some() {
        return Err(BindingError::UnresolvedReceiver);
    }
    let mut j: usize = 0;
    while j < d.parameters.len()
        invariant
            j <= d.parameters@.len(),
            !(has_receiver(d.parameters@) && owner is None),
            forall|k: int| 0 <= k < j ==> !((#[trigger] d.parameters@[k]) matches Parameter::Value { is_reference, .. } && is_reference),
        decreases d.parameters@.len() - j,
    {
        match &d.parameters[j] {
            Parameter::Value { ty, is_reference, .. } => {
                if *is_reference {
                    return Err(BindingError::UnsupportedType(ty.clone()));
                }
            },
            _ => {},
        }
        j += 1;
    }
    Ok(())
}

/// Renders the dispatch function of the declarations `decls`, host function
/// `i` being `decls[i]` owned by `owners[i]` (see `owner_path`). The host
/// hands it the object that a receiver index names, as `&mut dyn Any`. Fails
/// when a declaration cannot be called from generated code.
pub fn render_dispatch(decls: &Vec<BindingDeclaration>, owners: &Vec<Option<String>>) -> (r: Result<String, BindingError>)
    requires
        decls@.len() == owners@.len(),
    ensures
        r is Ok <==> forall|i: int| 0 <= i < decls@.len() ==> dispatchable(#[trigger] decls@[i], owner_views(owners@)[i]),
        r matches Ok(s) ==> s@ == dispatch_text(decls@, owner_views(owners@)),
        r matches Err(e) ==> e is UnresolvedReceiver || e is UnsupportedType,
{
    let mut k: usize = 0;
    while k < decls.len()
        invariant
            decls@.len() == owners@.len(),
            k <= decls@.len(),
            forall|i: int| 0 <= i < k ==> dispatchable(#[trigger] decls@[i], owner_views(owners@)[i]),
        decreases decls@.len() - k,
    {
        let c = check_dispatchable(&decls[k], &owners[k]);
        if c.is_err() {
            return match c {
                Err(e) => Err(e),
                Ok(()) => Err(BindingError::UnresolvedReceiver),
            };
        }
        k += 1;
    }
    let mut out = String::from_str(DISPATCH_HEAD);
    let mut i: usize = 0;
    while i < decls.len()
        invariant
            decls@.len() == owners@.len(),
            i <= decls@.len(),
            forall|j: int| 0 <= j < decls@.len() ==> dispatchable(#[trigger] decls@[j], owner_views(owners@)[j]),
            out@ == DISPATCH_HEAD@ + arms_text(decls@.subrange(0, i as int), owner_views(owners@)),
        decreases decls@.len() - i,
    {
        proof {
            let sub = decls@.subrange(0, i + 1);
            assert(sub.drop_last() =~= decls@.subrange(0, i as int));
            assert(dispatchable(decls@[i as int], owner_views(owners@)[i as int]));
        }
        append_arm(&mut out, &decls[i], i, &owners[i]);
        assert(out@ =~= DISPATCH_HEAD@ + arms_text(decls@.subrange(0, i + 1), owner_views(owners@)));
        i += 1;
    }
    assert(decls@.subrange(0, i as int) =~= decls@);
    out.append(DISPATCH_TAIL);
    Ok(out)
}

} // verus!
