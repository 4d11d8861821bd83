use sqcrab::binding::{Adapter, BindingDeclaration, Parameter, ReceiverMode, TargetKind, WireKind};
use sqcrab::domain::{build_domain_initalization, Registrar};
use sqcrab::error::{BindingError, SquirrelError};
use sqcrab::params::{AttrArg, AttrValue, SqcrabParams};
use sqcrab::registry::HandleRegistry;
use sqcrab::scan::{collect_declarations, SourceAttr, SourceFn, SourceItem};
use sqcrab::unit::{Unit, UnitArena, UNIT_ADD_HP, UNIT_GET_HP};
use sqcrab::value::{CanSquirrel, HostRef, StackValue, ValueStack};
use sqcrab::vm::{dispatch, Dispatch, SquirrelVM, VmState};

fn arg_str(key: &str, v: &str) -> AttrArg {
    AttrArg { key: Some(key.to_string()), value: AttrValue::Str(v.to_string()) }
}

fn arg_bool(key: &str, v: bool) -> AttrArg {
    AttrArg { key: Some(key.to_string()), value: AttrValue::Bool(v) }
}

fn params(name: &str, domain: &str, local_pointer: bool) -> SqcrabParams {
    SqcrabParams::from_args(&vec![arg_str("name", name), arg_str("domain", domain), arg_bool("local_pointer", local_pointer)])
        .unwrap()
}

fn receiver(is_mutable: bool) -> Parameter {
    Parameter::Receiver { is_reference: true, is_mutable }
}

fn value_param(ty: &str) -> Parameter {
    Parameter::Value { ty: ty.to_string(), is_reference: false, is_mutable: false }
}

fn method(ident: &str, p: SqcrabParams, parameters: Vec<Parameter>, ret: Option<&str>) -> BindingDeclaration {
    BindingDeclaration {
        target_kind: TargetKind::Method,
        ident: ident.to_string(),
        enclosing_type: Some("Unit".to_string()),
        params: p,
        parameters,
        return_type: ret.map(|s| s.to_string()),
    }
}

/// The unit bindings in host-function order, in pointer-locality mode.
fn unit_decls(local_pointer: bool) -> Vec<BindingDeclaration> {
    vec![
        method("get_hp", params("unit_get_hp", "Test", local_pointer), vec![receiver(false)], Some("u32")),
        method("set_hp", params("unit_set_hp", "Test", local_pointer), vec![receiver(true), value_param("u32")], None),
        method("get_mp", params("unit_get_mp", "Test", local_pointer), vec![receiver(false)], Some("u32")),
        method("set_mp", params("unit_set_mp", "Test", local_pointer), vec![receiver(true), value_param("u32")], None),
        method("add_hp", params("add_hp", "Test", local_pointer), vec![receiver(true), value_param("u32")], None),
    ]
}

fn unit_ref(i: usize) -> StackValue {
    HostRef(i).into_squirrel()
}

fn int_value(v: u32) -> StackValue {
    v.into_squirrel()
}

fn setup(local_pointer: bool) -> (HandleRegistry, SquirrelVM, Vec<Registrar>) {
    let mut registry = HandleRegistry::new();
    let vm = SquirrelVM::new().build(1, &mut registry);
    let rs = build_domain_initalization(&unit_decls(local_pointer)).unwrap();
    (registry, vm, rs)
}

#[test]
fn unit_pointer_locality_set_then_get() {
    let (mut registry, vm, rs) = setup(true);
    assert_eq!(rs.len(), 1);
    assert_eq!(rs[0].domain, "Test");
    rs[0].add_functions(&vm, &mut registry).unwrap();
    let mut vm = vm;
    let mut host = UnitArena { units: vec![Unit::default()] };
    let r = vm.call(&registry, &mut host, "unit_set_hp", &vec![unit_ref(0), int_value(75)]).unwrap();
    assert_eq!(r, StackValue::Null);
    let hp = vm.call(&registry, &mut host, "unit_get_hp", &vec![unit_ref(0)]).unwrap();
    assert_eq!(u32::from_squirrel(&hp), Some(75));
    assert_eq!(host.units[0].hp, 75);
    assert_eq!(vm.get_stack_len(), 0);
}

#[test]
fn add_hp_adds_exactly_once() {
    let (mut registry, mut vm, rs) = setup(true);
    rs[0].add_functions(&vm, &mut registry).unwrap();
    let mut host = UnitArena { units: vec![Unit::default()] };
    let before = host.units[0].hp;
    vm.call(&registry, &mut host, "add_hp", &vec![unit_ref(0), int_value(10)]).unwrap();
    assert_eq!(host.units[0].hp, before + 10);
    let hp = vm.call(&registry, &mut host, "unit_get_hp", &vec![unit_ref(0)]).unwrap();
    assert_eq!(hp, StackValue::Integer(60));
}

#[test]
fn call_matches_direct_host_call() {
    let (mut registry, mut vm, rs) = setup(true);
    rs[0].add_functions(&vm, &mut registry).unwrap();
    let mut host = UnitArena { units: vec![Unit { id: 7, hp: 3, mp: 9 }] };
    let mut direct = Unit { id: 7, hp: 3, mp: 9 };
    direct.set_mp(21);
    vm.call(&registry, &mut host, "unit_set_mp", &vec![unit_ref(0), int_value(21)]).unwrap();
    assert_eq!(host.units[0], direct);
    let mp = vm.call(&registry, &mut host, "unit_get_mp", &vec![unit_ref(0)]).unwrap();
    assert_eq!(mp, StackValue::Integer(direct.get_mp() as i64));
}

#[test]
fn ambient_this_is_scoped() {
    let (mut registry, vm, rs) = setup(false);
    rs[0].add_functions(&vm, &mut registry).unwrap();
    let mut host = UnitArena { units: vec![Unit::default(), Unit { id: 2, hp: 5, mp: 6 }] };
    let (vm, seen) = vm.using_this(1, |mut vm: SquirrelVM| {
        let seen = vm.get_this();
        let r = vm.call(&registry, &mut host, "unit_get_hp", &vec![]);
        (vm, (seen, r))
    });
    assert_eq!(seen.0.unwrap(), 1);
    assert_eq!(seen.1.unwrap(), StackValue::Integer(5));
    assert!(matches!(vm.get_this(), Err(SquirrelError::ForeignPointerNotSet)));
    let mut vm = vm;
    let r = vm.call(&registry, &mut host, "unit_get_hp", &vec![]);
    assert!(matches!(r, Err(SquirrelError::ErrorWhileCalling)));
}

#[test]
fn ambient_this_cleared_after_failing_body() {
    let (mut registry, vm, rs) = setup(false);
    rs[0].add_functions(&vm, &mut registry).unwrap();
    let mut host = UnitArena { units: vec![] };
    let (vm, r) = vm.using_this(3, |mut vm: SquirrelVM| {
        let r = vm.call(&registry, &mut host, "no_such_function", &vec![]);
        (vm, r)
    });
    assert!(matches!(r, Err(SquirrelError::CouldNotFindFunction(_))));
    assert!(vm.get_this().is_err());
}

#[test]
fn domains_are_isolated() {
    let decls = vec![
        method("get_hp", params("unit_get_hp", "Alpha", true), vec![receiver(false)], Some("u32")),
        method("set_hp", params("unit_set_hp", "Beta", true), vec![receiver(true), value_param("u32")], None),
    ];
    let rs = build_domain_initalization(&decls).unwrap();
    assert_eq!(rs.len(), 2);
    let alpha = rs.iter().find(|r| r.domain == "Alpha").unwrap();
    let mut registry = HandleRegistry::new();
    let mut vm = SquirrelVM::new().build(9, &mut registry);
    alpha.add_functions(&vm, &mut registry).unwrap();
    let mut host = UnitArena { units: vec![Unit::default()] };
    assert!(vm.call(&registry, &mut host, "unit_get_hp", &vec![unit_ref(0)]).is_ok());
    let r = vm.call(&registry, &mut host, "unit_set_hp", &vec![unit_ref(0), int_value(1)]);
    assert!(matches!(r, Err(SquirrelError::CouldNotFindFunction(ref n)) if n == "unit_set_hp"));
}

#[test]
fn duplicate_binding_is_refused() {
    let decls = vec![
        method("get_hp", params("same", "Test", true), vec![receiver(false)], Some("u32")),
        method("get_mp", params("same", "Test", true), vec![receiver(false)], Some("u32")),
    ];
    assert!(matches!(build_domain_initalization(&decls), Err(BindingError::DuplicateBinding(ref n)) if n == "same"));
}

#[test]
fn suspend_resume_state_machine() {
    let mut registry = HandleRegistry::new();
    let mut vm = SquirrelVM::new().build(4, &mut registry);
    assert_eq!(vm.state(), VmState::Running);
    assert!(matches!(vm.wakeup(), Err(SquirrelError::CouldNotWakeupVM)));
    assert!(vm.suspend().is_ok());
    assert_eq!(vm.state(), VmState::Suspended);
    assert!(matches!(vm.suspend(), Err(SquirrelError::CouldNotSuspendVM)));
    assert!(vm.wakeup().is_ok());
    assert_eq!(vm.state(), VmState::Running);
    vm.teardown(&mut registry);
    assert!(vm.suspend().is_err());
    assert!(vm.wakeup().is_err());
}

#[test]
fn registry_isolation_between_vms() {
    let mut registry = HandleRegistry::new();
    let mut a = SquirrelVM::new().build(10, &mut registry);
    let mut b = SquirrelVM::new().build(11, &mut registry);
    let ad = Adapter { target: UNIT_GET_HP, receiver: ReceiverMode::LocalPointer, params: vec![], pushes_result: true };
    a.add_function(&mut registry, "f".to_string(), ad).unwrap();
    let mut host = UnitArena { units: vec![Unit::default()] };
    assert!(a.call(&registry, &mut host, "f", &vec![unit_ref(0)]).is_ok());
    assert!(matches!(b.call(&registry, &mut host, "f", &vec![unit_ref(0)]), Err(SquirrelError::CouldNotFindFunction(_))));
    assert!(matches!(dispatch(&registry, 10, Some("f")), Dispatch::Invoke(_)));
    a.teardown(&mut registry);
    assert!(!registry.contains(10));
    assert!(registry.contains(11));
    assert!(matches!(dispatch(&registry, 10, Some("f")), Dispatch::NoOp));
    assert!(matches!(dispatch(&registry, 11, None), Dispatch::NoOp));
    let ad2 = Adapter { target: UNIT_GET_HP, receiver: ReceiverMode::LocalPointer, params: vec![], pushes_result: true };
    assert!(matches!(a.add_function(&mut registry, "g".to_string(), ad2), Err(SquirrelError::CouldNotAddFunction)));
}

#[test]
fn wrong_argument_tag_fails_the_call() {
    let (mut registry, mut vm, rs) = setup(true);
    rs[0].add_functions(&vm, &mut registry).unwrap();
    let mut host = UnitArena { units: vec![Unit::default()] };
    let r = vm.call(&registry, &mut host, "unit_set_hp", &vec![unit_ref(0), StackValue::Bool(true)]);
    assert!(matches!(r, Err(SquirrelError::ErrorWhileCalling)));
    let r = vm.call(&registry, &mut host, "unit_get_hp", &vec![int_value(0)]);
    assert!(matches!(r, Err(SquirrelError::ErrorWhileCalling)));
    assert_eq!(host.units[0].hp, 50);
    assert_eq!(vm.get_stack_len(), 0);
}

#[test]
fn conversion_round_trip() {
    let mut s = ValueStack::new();
    s.push_value(&7u32);
    assert_eq!(s.get_value::<u32>(1).unwrap(), 7);
    s.push_value(&-5i64);
    assert_eq!(s.get_value::<i64>(1).unwrap(), -5);
    s.push_value(&true);
    assert!(s.get_value::<bool>(1).unwrap());
    s.push_value(&"crab".to_string());
    assert_eq!(s.get_value::<String>(1).unwrap(), "crab");
    s.push_value(&HostRef(3));
    assert_eq!(s.get_value::<HostRef>(1).unwrap(), HostRef(3));
    assert_eq!(s.get_value::<bool>(3).unwrap(), true);
    assert!(matches!(s.get_value::<u32>(1), Err(SquirrelError::GetWrongObjectType)));
    assert!(matches!(s.get_value::<u32>(6), Err(SquirrelError::GetWrongObjectType)));
    assert!(matches!(s.get_value::<u32>(0), Err(SquirrelError::GetWrongObjectType)));
    s.pop(2);
    assert_eq!(s.len(), 3);
    assert!(s.get_value::<bool>(1).unwrap());
}

#[test]
fn attribute_defaults_and_errors() {
    let p = SqcrabParams::from_args(&vec![]).unwrap();
    assert!(p.name.is_none() && p.domain.is_none() && !p.type_checking && !p.local_pointer);
    assert_eq!(p.script_name(&"get_hp".to_string()), "get_hp");
    assert_eq!(p.domain_name(), "Default");
    let p = SqcrabParams::from_args(&vec![arg_bool("local_pointer", true), arg_bool("type_checking", true)]).unwrap();
    assert!(p.local_pointer && p.type_checking);
    let r = SqcrabParams::from_args(&vec![arg_str("name", "a"), arg_str("colour", "red")]);
    assert!(matches!(r, Err(BindingError::UnknownParameter(ref k)) if k == "colour"));
    let r = SqcrabParams::from_args(&vec![arg_bool("name", true)]);
    assert!(matches!(r, Err(BindingError::WrongValueType(ref k)) if k == "name"));
    let r = SqcrabParams::from_args(&vec![AttrArg { key: Some("local_pointer".to_string()), value: AttrValue::Other }]);
    assert!(matches!(r, Err(BindingError::WrongValueType(_))));
    let r = SqcrabParams::from_args(&vec![AttrArg { key: None, value: AttrValue::Bool(true) }]);
    assert!(matches!(r, Err(BindingError::MissingIdentifier)));
}

#[test]
fn adapter_generation() {
    let d = method("set_hp", params("unit_set_hp", "Test", true), vec![receiver(true), value_param("u32")], Some("()"));
    let a = d.build_adapter(3).unwrap();
    assert_eq!(a.target, 3);
    assert_eq!(a.receiver, ReceiverMode::LocalPointer);
    assert_eq!(a.params, vec![WireKind::Integer]);
    assert!(!a.pushes_result);
    let d = method("get_hp", params("x", "Test", false), vec![receiver(false)], Some("u32"));
    let a = d.build_adapter(0).unwrap();
    assert_eq!(a.receiver, ReceiverMode::AmbientThis);
    assert!(a.pushes_result);
    let f = BindingDeclaration {
        target_kind: TargetKind::Function,
        ident: "concat".to_string(),
        enclosing_type: None,
        params: SqcrabParams::from_args(&vec![]).unwrap(),
        parameters: vec![value_param("String"), value_param("bool"), Parameter::Value { ty: "Unit".to_string(), is_reference: true, is_mutable: true }],
        return_type: Some("String".to_string()),
    };
    let a = f.build_adapter(1).unwrap();
    assert_eq!(a.receiver, ReceiverMode::NoReceiver);
    assert_eq!(a.params, vec![WireKind::Str, WireKind::Bool, WireKind::UserPointer]);
    let mut bad = method("get_hp", params("x", "Test", false), vec![receiver(false)], Some("u32"));
    bad.enclosing_type = None;
    assert!(matches!(bad.build_adapter(0), Err(BindingError::UnresolvedReceiver)));
    let bad = method("get_hp", params("x", "Test", false), vec![receiver(false), value_param("Vec")], None);
    assert!(matches!(bad.build_adapter(0), Err(BindingError::UnsupportedType(ref t)) if t == "Vec"));
    let bad = method("get_hp", params("x", "Test", false), vec![receiver(false)], Some("Unit"));
    assert!(matches!(bad.build_adapter(0), Err(BindingError::UnsupportedType(ref t)) if t == "Unit"));
}

#[test]
fn default_domain_groups_unnamed_bindings() {
    let mut d = method("get_hp", SqcrabParams::from_args(&vec![]).unwrap(), vec![receiver(false)], Some("u32"));
    d.params.local_pointer = true;
    let rs = build_domain_initalization(&vec![d]).unwrap();
    assert_eq!(rs.len(), 1);
    assert_eq!(rs[0].domain, "Default");
    assert_eq!(rs[0].bindings[0].name, "get_hp");
}

#[test]
fn call_native_method_with_object() {
    let mut registry = HandleRegistry::new();
    let mut sqvm = SquirrelVM::new().build(1, &mut registry);
    let get_hp = Adapter { target: UNIT_GET_HP, receiver: ReceiverMode::LocalPointer, params: vec![], pushes_result: true };
    let add_hp = Adapter { target: UNIT_ADD_HP, receiver: ReceiverMode::LocalPointer, params: vec![WireKind::Integer], pushes_result: false };
    sqvm.add_function(&mut registry, "get_hp".to_string(), get_hp).unwrap();
    sqvm.add_function(&mut registry, "add_hp".to_string(), add_hp).unwrap();
    let mut units = UnitArena { units: vec![Unit { id: 1, hp: 50, mp: 30 }] };
    let hp = sqvm.call(&registry, &mut units, "get_hp", &vec![unit_ref(0)]).unwrap();
    assert_eq!(u32::from_squirrel(&hp), Some(50));
    sqvm.call(&registry, &mut units, "add_hp", &vec![unit_ref(0), 10u32.into_squirrel()]).unwrap();
    let hp = sqvm.call(&registry, &mut units, "get_hp", &vec![unit_ref(0)]).unwrap();
    assert_eq!(u32::from_squirrel(&hp), Some(60));
}

#[test]
fn builder_defaults() {
    let b = SquirrelVM::new();
    assert_eq!(b.stack_size, 1024);
    assert!(!b.enable_debug_info && !b.notify_all_exceptions);
    let b = b.set_stack_size(64);
    assert_eq!(b.stack_size, 64);
}

#[test]
fn session_registers_and_calls() {
    let mut registry = HandleRegistry::new();
    let builder = sqcrab::crab::SqCrab::new();
    assert_eq!(builder.debug_flags.bits, 0x17);
    let mut crab = builder.build(21, &mut registry);
    assert_eq!(crab.vm().handle(), 21);
    let rs = build_domain_initalization(&unit_decls(true)).unwrap();
    crab.register(&rs[0], &mut registry).unwrap();
    let mut host = UnitArena { units: vec![Unit::default()] };
    crab.call(&registry, &mut host, "unit_set_mp", &vec![unit_ref(0), int_value(7)]).unwrap();
    assert_eq!(host.units[0].mp, 7);
    crab.teardown(&mut registry);
    assert_eq!(crab.vm().state(), VmState::Closed);
    assert!(crab.register(&rs[0], &mut registry).is_err());
}

#[test]
fn trampoline_runs_or_noops() {
    let (mut registry, mut vm, rs) = setup(true);
    rs[0].add_functions(&vm, &mut registry).unwrap();
    let mut host = UnitArena { units: vec![Unit::default()] };
    vm.push(&HostRef(0));
    let pushed = vm.trampoline(&registry, &mut host, Some("unit_get_hp")).unwrap();
    assert_eq!(pushed, 1);
    assert_eq!(vm.get::<u32>(1).unwrap(), 50);
    assert_eq!(vm.trampoline(&registry, &mut host, Some("missing")).unwrap(), 0);
    assert_eq!(vm.trampoline(&registry, &mut host, None).unwrap(), 0);
    assert_eq!(vm.get_stack_len(), 2);
    vm.pop_top();
    vm.pop(1);
    assert_eq!(vm.get_stack_len(), 0);
}

fn source_fn(attrs: Vec<SourceAttr>, ident: &str, parameters: Vec<Parameter>) -> SourceFn {
    SourceFn { attrs, ident: ident.to_string(), parameters, return_type: Some("u32".to_string()) }
}

fn binding_attr(args: Vec<AttrArg>) -> SourceAttr {
    SourceAttr { name: "sqcrab".to_string(), args: Some(args) }
}

fn hint_attr() -> SourceAttr {
    SourceAttr { name: "sqcrab_hint".to_string(), args: None }
}

#[test]
fn scanning_finds_bound_items_in_order() {
    let items = vec![
        SourceItem::Other,
        SourceItem::Impl {
            attrs: vec![hint_attr()],
            self_type: Some("Unit".to_string()),
            methods: vec![
                source_fn(vec![binding_attr(vec![arg_str("name", "unit_get_hp")])], "get_hp", vec![receiver(false)]),
                source_fn(vec![], "helper", vec![receiver(false)]),
            ],
        },
        SourceItem::Impl {
            attrs: vec![],
            self_type: Some("Other".to_string()),
            methods: vec![source_fn(vec![binding_attr(vec![])], "skipped", vec![receiver(false)])],
        },
        SourceItem::Fn(source_fn(vec![binding_attr(vec![arg_str("domain", "Math")])], "square", vec![value_param("u32")])),
        SourceItem::Fn(source_fn(vec![], "unbound", vec![])),
    ];
    let ds = collect_declarations(items).unwrap();
    assert_eq!(ds.len(), 2);
    assert_eq!(ds[0].target_kind, TargetKind::Method);
    assert_eq!(ds[0].ident, "get_hp");
    assert_eq!(ds[0].enclosing_type.as_deref(), Some("Unit"));
    assert_eq!(ds[0].params.name.as_deref(), Some("unit_get_hp"));
    assert_eq!(ds[1].target_kind, TargetKind::Function);
    assert_eq!(ds[1].ident, "square");
    assert_eq!(ds[1].params.domain.as_deref(), Some("Math"));
}

#[test]
fn scanning_aborts_on_bad_attribute() {
    let items = vec![
        SourceItem::Fn(source_fn(vec![binding_attr(vec![])], "fine", vec![])),
        SourceItem::Fn(source_fn(vec![binding_attr(vec![arg_bool("bogus", true)])], "bad", vec![])),
    ];
    assert!(matches!(collect_declarations(items), Err(BindingError::UnknownParameter(ref k)) if k == "bogus"));
    let items = vec![SourceItem::Fn(source_fn(vec![SourceAttr { name: "sqcrab".to_string(), args: None }], "bare", vec![]))];
    assert!(matches!(collect_declarations(items), Err(BindingError::MalformedAttribute)));
}

#[test]
fn name_collision_is_refused_and_changes_nothing() {
    let mut registry = HandleRegistry::new();
    let mut vm = SquirrelVM::new().build(30, &mut registry);
    let first = Adapter { target: UNIT_GET_HP, receiver: ReceiverMode::LocalPointer, params: vec![], pushes_result: true };
    vm.add_function(&mut registry, "f".to_string(), first).unwrap();
    let second = Adapter { target: UNIT_ADD_HP, receiver: ReceiverMode::LocalPointer, params: vec![WireKind::Integer], pushes_result: false };
    let r = vm.add_function(&mut registry, "f".to_string(), second);
    assert!(matches!(r, Err(SquirrelError::FunctionNameTaken(ref n)) if n == "f"));
    let mut host = UnitArena { units: vec![Unit::default()] };
    assert_eq!(vm.call(&registry, &mut host, "f", &vec![unit_ref(0)]).unwrap(), StackValue::Integer(50));
}

#[test]
fn registrars_sharing_a_name_register_all_or_nothing() {
    let decls = vec![
        method("get_hp", params("shared", "Alpha", true), vec![receiver(false)], Some("u32")),
        method("get_mp", params("shared", "Beta", true), vec![receiver(false)], Some("u32")),
        method("set_mp", params("beta_only", "Beta", true), vec![receiver(true), value_param("u32")], None),
    ];
    let rs = build_domain_initalization(&decls).unwrap();
    let alpha = rs.iter().find(|r| r.domain == "Alpha").unwrap();
    let beta = rs.iter().find(|r| r.domain == "Beta").unwrap();
    let mut registry = HandleRegistry::new();
    let mut vm = SquirrelVM::new().build(31, &mut registry);
    alpha.add_functions(&vm, &mut registry).unwrap();
    assert!(matches!(beta.add_functions(&vm, &mut registry), Err(SquirrelError::FunctionNameTaken(ref n)) if n == "shared"));
    let mut host = UnitArena { units: vec![Unit::default()] };
    assert!(matches!(vm.call(&registry, &mut host, "beta_only", &vec![unit_ref(0), int_value(1)]), Err(SquirrelError::CouldNotFindFunction(_))));
    assert_eq!(vm.call(&registry, &mut host, "shared", &vec![unit_ref(0)]).unwrap(), StackValue::Integer(50));
}

#[test]
fn registrar_with_a_repeated_name_registers_nothing() {
    let ad = || Adapter { target: UNIT_GET_HP, receiver: ReceiverMode::LocalPointer, params: vec![], pushes_result: true };
    let reg = Registrar {
        domain: "Hand".to_string(),
        bindings: vec![
            sqcrab::domain::Binding { name: "a".to_string(), adapter: ad() },
            sqcrab::domain::Binding { name: "a".to_string(), adapter: ad() },
        ],
    };
    let mut registry = HandleRegistry::new();
    let mut vm = SquirrelVM::new().build(32, &mut registry);
    assert!(matches!(reg.add_functions(&vm, &mut registry), Err(SquirrelError::FunctionNameTaken(_))));
    let mut host = UnitArena { units: vec![Unit::default()] };
    assert!(vm.call(&registry, &mut host, "a", &vec![unit_ref(0)]).is_err());
}

#[test]
fn u64_round_trip_above_i64_max() {
    let mut s = ValueStack::new();
    let big = u64::MAX - 5;
    s.push_value(&big);
    assert_eq!(s.get_value::<u64>(1).unwrap(), big);
    let d = method("f", params("f", "Test", true), vec![receiver(false), value_param("u64")], Some("u64"));
    assert_eq!(d.build_adapter(0).unwrap().params, vec![WireKind::Integer]);
}

#[test]
fn call_native_function_with_object() {
    let mut registry = HandleRegistry::new();
    let mut sqvm = SquirrelVM::new().set_enable_debug_info(true).set_notify_all_exceptions(true).build(1, &mut registry);
    let square = Adapter { target: sqcrab::unit::SQUARE, receiver: ReceiverMode::NoReceiver, params: vec![WireKind::Integer], pushes_result: true };
    sqvm.add_function(&mut registry, "square".to_string(), square).unwrap();
    let mut host = UnitArena { units: vec![] };
    let r = sqvm.call(&registry, &mut host, "square", &vec![6u32.into_squirrel()]).unwrap();
    assert_eq!(u32::from_squirrel(&r), Some(36));
}

#[test]
fn callbacks_live_from_build_to_teardown() {
    let mut registry = HandleRegistry::new();
    let mut table = sqcrab::callbacks::CallbackTable::new();
    let mut a = SquirrelVM::new().build_with_callbacks(40, &mut registry, &mut table, "a-callbacks");
    let _b = SquirrelVM::new().build_with_callbacks(41, &mut registry, &mut table, "b-callbacks");
    assert_eq!(table.get(40), Some(&"a-callbacks"));
    a.teardown_with_callbacks(&mut registry, &mut table);
    assert_eq!(table.get(40), None);
    assert_eq!(table.get(41), Some(&"b-callbacks"));
    assert!(!registry.contains(40));
    table.install(41, "b2");
    assert_eq!(table.get(41), Some(&"b2"));
}

#[test]
fn session_using_this_is_scoped() {
    let mut registry = HandleRegistry::new();
    let crab = sqcrab::crab::SqCrab::new().build(42, &mut registry);
    let rs = build_domain_initalization(&unit_decls(false)).unwrap();
    crab.register(&rs[0], &mut registry).unwrap();
    let mut host = UnitArena { units: vec![Unit::default(), Unit { id: 2, hp: 8, mp: 1 }] };
    let (crab, hp) = crab.using_this(1, |mut c: sqcrab::crab::SqCrab| {
        let hp = c.call(&registry, &mut host, "unit_get_hp", &vec![]);
        (c, hp)
    });
    assert_eq!(hp.unwrap(), StackValue::Integer(8));
    assert!(crab.vm().get_this().is_err());
}

#[test]
fn struct_names_are_collected() {
    let items = vec![
        SourceItem::Struct { name: "Unit".to_string() },
        SourceItem::Other,
        SourceItem::Struct { name: "World".to_string() },
    ];
    assert_eq!(sqcrab::scan::declared_structs(&items), vec!["Unit".to_string(), "World".to_string()]);
    assert!(collect_declarations(items).unwrap().is_empty());
}
