use sqcrab::binary::{LineInfo, NutEnd, NutHeader};
use sqcrab::binding::{Adapter, ReceiverMode, WireKind};
use sqcrab::config::{ConfigError, DomainBuilderConfig};
use sqcrab::debug::{CrabDebugger, DebugHookType, DebuggerFlags, FunctionBreakpoint, FunctionBreakpointData};
use sqcrab::domain::{Binding, Registrar};
use sqcrab::endian::{BigEndian, Endianness, LittleEndian, NativeEndian};
use sqcrab::instruction::{
    AppendArrayType, BitWiseOP, CmpOP, Instruction, IntoInstructionArg, NewObjectType, SQOpcode, SquirrelBinaryError,
};
use sqcrab::render::render_registrars;

fn header_bytes() -> Vec<u8> {
    let mut b = vec![0xfa, 0xfa];
    b.extend_from_slice(&0x53514952u32.to_le_bytes());
    b.extend_from_slice(&1u32.to_le_bytes());
    b.extend_from_slice(&8u32.to_le_bytes());
    b.extend_from_slice(&4u32.to_le_bytes());
    b
}

#[test]
fn header_reads_sizes() {
    let h = NutHeader::new::<LittleEndian>(&header_bytes()).unwrap();
    assert_eq!(h.sizeof_char, 1);
    assert_eq!(h.sizeof_int, 8);
    assert_eq!(h.sizeof_float, 4);
}

#[test]
fn header_refuses_bad_magic_and_short_input() {
    let mut b = header_bytes();
    b[0] = 0;
    assert!(matches!(NutHeader::new::<LittleEndian>(&b), Err(SquirrelBinaryError::InvalidFAFAHeader)));
    let mut b = header_bytes();
    b[2] = 0;
    assert!(matches!(NutHeader::new::<LittleEndian>(&b), Err(SquirrelBinaryError::InvalidSQIRError)));
    assert!(matches!(NutHeader::new::<BigEndian>(&header_bytes()), Err(SquirrelBinaryError::InvalidSQIRError)));
    assert!(matches!(NutHeader::new::<LittleEndian>(&header_bytes()[..17]), Err(SquirrelBinaryError::OutOfRange)));
}

#[test]
fn tail_mark() {
    assert!(NutEnd::new::<LittleEndian>(&0x5441494cu32.to_le_bytes()).is_ok());
    assert!(matches!(NutEnd::new::<LittleEndian>(&[0, 0, 0, 0]), Err(SquirrelBinaryError::InvalidTail)));
    assert!(matches!(NutEnd::new::<LittleEndian>(&[0x4c]), Err(SquirrelBinaryError::OutOfRange)));
}

#[test]
fn line_info_record() {
    let mut b = 12i64.to_le_bytes().to_vec();
    b.extend_from_slice(&(-3i64).to_le_bytes());
    let l = LineInfo::new::<LittleEndian>(&b).unwrap();
    assert_eq!(l.line, 12);
    assert_eq!(l.op, -3);
    assert!(LineInfo::new::<LittleEndian>(&b[..15]).is_err());
}

#[test]
fn byte_orders() {
    assert_eq!(LittleEndian::get_u16([0x34, 0x12]), 0x1234);
    assert_eq!(BigEndian::get_u16([0x12, 0x34]), 0x1234);
    assert_eq!(LittleEndian::get_u32([1, 2, 3, 4]), 0x04030201);
    assert_eq!(BigEndian::get_u32([1, 2, 3, 4]), 0x01020304);
    assert_eq!(LittleEndian::get_u64([1, 0, 0, 0, 0, 0, 0, 0x80]), 0x8000_0000_0000_0001);
    assert_eq!(BigEndian::get_u64([0xff; 8]), u64::MAX);
    let n = NativeEndian::get_u32([1, 0, 0, 0]);
    assert!(n == 1 || n == 0x0100_0000);
    let n = NativeEndian::get_u16([1, 2]);
    assert!(n == 0x0201 || n == 0x0102);
    let n = NativeEndian::get_u64([0, 0, 0, 0, 0, 0, 0, 1]);
    assert!(n == 1 || n == 0x0100_0000_0000_0000);
}

#[test]
fn instruction_decoding() {
    let i = Instruction::new(&[0x2a, 0, 0, 0, 0x11, 3, 4, 5]).unwrap();
    assert_eq!(i.get_opcode(), SQOpcode::_OP_ADD);
    assert_eq!(i.arg_as::<u32>(), 42);
    assert_eq!(i.get_arg0(), 3);
    assert_eq!(i.get_arg2(), 4);
    assert_eq!(i.get_arg3(), 5);
    assert!(matches!(Instruction::new(&[0, 0, 0, 0, 0x3d, 0, 0, 0]), Err(SquirrelBinaryError::InvalidOpcode(0x3d))));
    assert!(matches!(Instruction::new(&[0, 0, 0, 0, 0x3c, 0, 0]), Err(SquirrelBinaryError::OutOfRange)));
    assert_eq!(Instruction::new(&[0, 0, 0, 0, 0x3c, 0, 0, 0]).unwrap().get_opcode(), SQOpcode::_OP_CLOSE);
    assert_eq!(<u32 as IntoInstructionArg>::into(&[0, 0, 0, 1]), 0x0100_0000);
}

#[test]
fn operand_enums() {
    assert_eq!(SQOpcode::try_from_u8(0x17).unwrap(), SQOpcode::_OP_RETURN);
    assert_eq!(SQOpcode::_OP_JCMP.code(), 0x1d);
    assert_eq!(BitWiseOP::try_from_u8(6).unwrap(), BitWiseOP::BW_USHIFTR);
    assert!(matches!(BitWiseOP::try_from_u8(1), Err(SquirrelBinaryError::InvalidBitwiseOp(1))));
    assert!(matches!(BitWiseOP::try_from_u8(7), Err(SquirrelBinaryError::InvalidBitwiseOp(7))));
    assert_eq!(CmpOP::try_from_u8(2).unwrap(), CmpOP::CMP_GE);
    assert!(matches!(CmpOP::try_from_u8(1), Err(SquirrelBinaryError::InvalidCmpOp(1))));
    assert_eq!(NewObjectType::try_from_u8(2).unwrap(), NewObjectType::NOT_CLASS);
    assert!(matches!(NewObjectType::try_from_u8(3), Err(SquirrelBinaryError::InvalidNewObjectType(3))));
    assert_eq!(AppendArrayType::try_from_u8(4).unwrap().code(), 4);
    assert!(matches!(AppendArrayType::try_from_u8(5), Err(SquirrelBinaryError::InvalidAppendArrayType(5))));
}

#[test]
fn config_from_toml() {
    let c = DomainBuilderConfig::from_toml("output = \"bindings\"\ninclude = [\"unit\", 3, \"world/map\"]\n").unwrap();
    assert_eq!(c.get_output_file(), "bindings.rs");
    assert_eq!(c.get_includes().unwrap(), &vec!["unit".to_string(), "world/map".to_string()]);
    assert!(c.is_source_file("unit"));
    assert!(c.is_source_file("world/map"));
    assert!(!c.is_source_file("main"));
    assert!(!c.is_source_file("bindings"));
    let d = DomainBuilderConfig::from_toml("").unwrap();
    assert_eq!(d.get_output_file(), "sqcrab_domains.rs");
    assert!(d.get_includes().is_none());
    assert!(d.is_source_file("main"));
    assert!(!d.is_source_file("sqcrab_domains"));
    assert!(matches!(DomainBuilderConfig::from_toml("output = "), Err(ConfigError::InvalidToml)));
    let e = DomainBuilderConfig::from_toml("output = 5").unwrap();
    assert_eq!(e.get_output_file(), "sqcrab_domains.rs");
}

#[test]
fn debugger_flags_and_hooks() {
    let flags = DebuggerFlags::default_flags();
    assert!(flags.contains(DebuggerFlags::RUN_PRINT_FUNC));
    assert!(flags.contains(DebuggerFlags::RUN_EXCEPTION));
    assert!(!flags.contains(DebuggerFlags::RUN_DEBUG_HOOK));
    let mut d = CrabDebugger::new(flags);
    assert_eq!(d.get_flags(), flags);
    assert_eq!(d.breakpoint_count(), 0);
    d.bitor_assign(DebuggerFlags { bits: DebuggerFlags::RUN_DEBUG_HOOK });
    assert!(d.get_flags().contains(DebuggerFlags::RUN_DEBUG_HOOK));
    d.bitand_assign(DebuggerFlags { bits: DebuggerFlags::RUN_DEBUG_HOOK });
    assert_eq!(d.get_flags().bits, DebuggerFlags::RUN_DEBUG_HOOK);
    d.add_breakpoint(FunctionBreakpoint { name: "main".to_string(), data: FunctionBreakpointData::OnLine(3) });
    assert_eq!(d.breakpoint_count(), 1);
    assert_eq!(DebugHookType::from_code(0x63), DebugHookType::CallFunc);
    assert_eq!(DebugHookType::from_code(0x6c), DebugHookType::ExecLine);
    assert_eq!(DebugHookType::from_code(0x72), DebugHookType::RetFunc);
    assert_eq!(DebugHookType::from_code(0), DebugHookType::Unknown);
}

#[test]
fn registrar_source_text() {
    let rs = vec![Registrar {
        domain: "Test".to_string(),
        bindings: vec![Binding {
            name: "say \"hi\"".to_string(),
            adapter: Adapter { target: 12, receiver: ReceiverMode::LocalPointer, params: vec![WireKind::Integer, WireKind::Str], pushes_result: true },
        }],
    }];
    let text = render_registrars(&rs);
    let expected = "/// The bindings of domain \"Test\".\npub fn registrar_0() -> ::sqcrab::domain::Registrar {\n    ::sqcrab::domain::Registrar { domain: \"Test\".to_string(), bindings: vec![\n        ::sqcrab::domain::Binding { name: \"say \\\"hi\\\"\".to_string(), adapter: ::sqcrab::binding::Adapter { target: 12, receiver: ::sqcrab::binding::ReceiverMode::LocalPointer, params: vec![::sqcrab::binding::WireKind::Integer, ::sqcrab::binding::WireKind::Str, ], pushes_result: true } },\n    ] }\n}\n\n";
    assert_eq!(text, expected);
    assert_eq!(render_registrars(&vec![]), "");
}
