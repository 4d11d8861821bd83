use sqcrab::binding::{BindingDeclaration, Parameter, TargetKind};
use sqcrab::dispatch::{method_call_path, module_prefix, owner_path, render_dispatch};
use sqcrab::error::BindingError;
use sqcrab::params::{AttrArg, AttrValue, SqcrabParams};
use sqcrab::unit::Unit;
use sqcrab::value::{CanSquirrel, StackValue};

fn named(name: &str) -> SqcrabParams {
    SqcrabParams::from_args(&vec![AttrArg { key: Some("name".to_string()), value: AttrValue::Str(name.to_string()) }]).unwrap()
}

fn unit_method(ident: &str, receiver_mut: bool, values: Vec<&str>, ret: Option<&str>) -> BindingDeclaration {
    let mut parameters = vec![Parameter::Receiver { is_reference: true, is_mutable: receiver_mut }];
    for v in values {
        parameters.push(Parameter::Value { ty: v.to_string(), is_reference: false, is_mutable: false });
    }
    BindingDeclaration {
        target_kind: TargetKind::Method,
        ident: ident.to_string(),
        enclosing_type: Some("Unit".to_string()),
        params: named(ident),
        parameters,
        return_type: ret.map(|s| s.to_string()),
    }
}

fn square_fn() -> BindingDeclaration {
    BindingDeclaration {
        target_kind: TargetKind::Function,
        ident: "square".to_string(),
        enclosing_type: None,
        params: named("square"),
        parameters: vec![Parameter::Value { ty: "u32".to_string(), is_reference: false, is_mutable: false }],
        return_type: Some("u32".to_string()),
    }
}

fn sample_decls() -> Vec<BindingDeclaration> {
    vec![unit_method("get_hp", false, vec![], Some("u32")), unit_method("set_hp", true, vec!["u32"], None), square_fn()]
}

/// What `render_dispatch` gives for `sample_decls` with `Unit` declared
/// elsewhere; compiled below.
const EXPECTED: &str = "/// Runs host function `target` on the receiver object and the value arguments.
pub fn dispatch(target: usize, receiver: Option<&mut dyn ::std::any::Any>, args: &[::sqcrab::value::StackValue]) -> Option<::sqcrab::value::StackValue> {
    match target {
        0 => {
            let r = receiver?.downcast_mut::<Unit>()?;
            let v = Unit::get_hp(r);
            Some(::sqcrab::value::CanSquirrel::into_squirrel(&v))
        }
        1 => {
            let r = receiver?.downcast_mut::<Unit>()?;
            let p1 = <u32 as ::sqcrab::value::CanSquirrel>::from_squirrel(args.get(0)?)?;
            let v = Unit::set_hp(r, p1);
            let _ = v;
            None
        }
        2 => {
            let p0 = <u32 as ::sqcrab::value::CanSquirrel>::from_squirrel(args.get(0)?)?;
            let v = square(p0);
            Some(::sqcrab::value::CanSquirrel::into_squirrel(&v))
        }
        _ => None,
    }
}
";

#[allow(clippy::let_unit_value)]
/// Runs host function `target` on the receiver object and the value arguments.
pub fn dispatch(target: usize, receiver: Option<&mut dyn ::std::any::Any>, args: &[::sqcrab::value::StackValue]) -> Option<::sqcrab::value::StackValue> {
    match target {
        0 => {
            let r = receiver?.downcast_mut::<Unit>()?;
            let v = Unit::get_hp(r);
            Some(::sqcrab::value::CanSquirrel::into_squirrel(&v))
        }
        1 => {
            let r = receiver?.downcast_mut::<Unit>()?;
            let p1 = <u32 as ::sqcrab::value::CanSquirrel>::from_squirrel(args.get(0)?)?;
            let v = Unit::set_hp(r, p1);
            let _ = v;
            None
        }
        2 => {
            let p0 = <u32 as ::sqcrab::value::CanSquirrel>::from_squirrel(args.get(0)?)?;
            let v = square(p0);
            Some(::sqcrab::value::CanSquirrel::into_squirrel(&v))
        }
        _ => None,
    }
}

fn square(x: u32) -> u32 {
    sqcrab::unit::square(x)
}

fn owners(decls: &Vec<BindingDeclaration>, declared: &Vec<String>, prefix: &str) -> Vec<Option<String>> {
    decls.iter().map(|d| owner_path(d, declared, prefix).unwrap()).collect()
}

#[test]
fn dispatch_text_is_rendered() {
    let decls = sample_decls();
    let text = render_dispatch(&decls, &owners(&decls, &vec![], "crate::unit::")).unwrap();
    assert_eq!(text, EXPECTED);
}

#[test]
fn rendered_dispatch_calls_host_functions() {
    let mut unit = Unit::default();
    assert_eq!(dispatch(1, Some(&mut unit), &[75u32.into_squirrel()]), None);
    assert_eq!(unit.hp, 75);
    assert_eq!(dispatch(0, Some(&mut unit), &[]), Some(StackValue::Integer(75)));
    assert_eq!(dispatch(2, None, &[6u32.into_squirrel()]), Some(StackValue::Integer(36)));
    assert_eq!(dispatch(0, None, &[]), None);
    assert_eq!(dispatch(9, Some(&mut unit), &[]), None);
}

#[test]
fn call_paths_get_module_prefix_for_local_types() {
    let d = unit_method("get_hp", false, vec![], Some("u32"));
    let local = vec!["Other".to_string(), "Unit".to_string()];
    assert_eq!(method_call_path(&d, &local, "crate::unit::").unwrap(), "crate::unit::Unit::get_hp");
    assert_eq!(method_call_path(&d, &vec![], "crate::unit::").unwrap(), "Unit::get_hp");
    assert_eq!(method_call_path(&square_fn(), &local, "crate::unit::").unwrap(), "square");
    let mut bad = d;
    bad.enclosing_type = None;
    assert!(matches!(method_call_path(&bad, &local, "crate::unit::"), Err(BindingError::UnresolvedReceiver)));
    let decls = vec![unit_method("get_hp", false, vec![], Some("u32"))];
    let text = render_dispatch(&decls, &owners(&decls, &local, "crate::unit::")).unwrap();
    assert!(text.contains("downcast_mut::<crate::unit::Unit>()?"));
    assert!(text.contains("let v = crate::unit::Unit::get_hp(r);"));
}

#[test]
fn module_prefix_of_nested_files() {
    assert_eq!(module_prefix("unit"), "crate::unit::");
    assert_eq!(module_prefix("world/map"), "crate::world::map::");
}

#[test]
fn dispatch_refuses_reference_arguments() {
    let mut d = unit_method("attack", true, vec![], None);
    d.parameters.push(Parameter::Value { ty: "Unit".to_string(), is_reference: true, is_mutable: false });
    let decls = vec![d];
    let r = render_dispatch(&decls, &owners(&decls, &vec![], ""));
    assert!(matches!(r, Err(BindingError::UnsupportedType(ref t)) if t == "Unit"));
    let decls = vec![unit_method("get_hp", false, vec![], Some("u32"))];
    assert!(matches!(render_dispatch(&decls, &vec![None]), Err(BindingError::UnresolvedReceiver)));
}
