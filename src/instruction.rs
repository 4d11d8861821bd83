use vstd::prelude::*;
use crate::endian::{le_value, read_le};

verus! {

/// Errors of reading compiled script containers.
#[derive(Debug)]
pub enum SquirrelBinaryError {
    InvalidFAFAHeader,
    InvalidSQIRError,
    InvalidTail,
    InvalidOpcode(u8),
    UnimplementedBinObject(i32),
    WrongBinObjectType(i32),
    OutOfRange,
    ExpectedPart,
    InvalidBitwiseOp(u8),
    InvalidCmpOp(u8),
    InvalidNewObjectType(u8),
    InvalidAppendArrayType(u8),
    Utf8Error,
    IoError,
}

/// The bitwise operation of a `_OP_BITW` instruction.
#[allow(non_camel_case_types)]
#[derive(Debug, Clone, Copy, PartialEq, Eq, Structural)]
pub enum BitWiseOP {
    BW_AND,
    BW_OR,
    BW_XOR,
    BW_SHIFTL,
    BW_SHIFTR,
    BW_USHIFTR,
}

impl BitWiseOP {
    /// The byte that encodes this value.
    pub open spec fn spec_code(self) -> u8 {
        match self {
            BitWiseOP::BW_AND => 0x00,
            BitWiseOP::BW_OR => 0x02,
            BitWiseOP::BW_XOR => 0x03,
            BitWiseOP::BW_SHIFTL => 0x04,
            BitWiseOP::BW_SHIFTR => 0x05,
            BitWiseOP::BW_USHIFTR => 0x06,
        }
    }

    pub fn code(&self) -> (r: u8)
        ensures
            r == self.spec_code(),
    {
        match self {
            BitWiseOP::BW_AND => 0x00,
            BitWiseOP::BW_OR => 0x02,
            BitWiseOP::BW_XOR => 0x03,
            BitWiseOP::BW_SHIFTL => 0x04,
            BitWiseOP::BW_SHIFTR => 0x05,
            BitWiseOP::BW_USHIFTR => 0x06,
        }
    }

    /// Decodes a byte; a byte that encodes no value is refused.
    pub fn try_from_u8(value: u8) -> (r: Result<BitWiseOP, SquirrelBinaryError>)
        ensures
            r matches Ok(v) ==> v.spec_code() == value,
            r is Err <==> value != 0x00 && value != 0x02 && value != 0x03 && value != 0x04 && value != 0x05 && value != 0x06,
            r is Err ==> r == Err::<BitWiseOP, SquirrelBinaryError>(SquirrelBinaryError::InvalidBitwiseOp(value)),
    {
        match value {
            0x00 => Ok(BitWiseOP::BW_AND),
            0x02 => Ok(BitWiseOP::BW_OR),
            0x03 => Ok(BitWiseOP::BW_XOR),
            0x04 => Ok(BitWiseOP::BW_SHIFTL),
            0x05 => Ok(BitWiseOP::BW_SHIFTR),
            0x06 => Ok(BitWiseOP::BW_USHIFTR),
            _ => Err(SquirrelBinaryError::InvalidBitwiseOp(value)),
        }
    }
}
/// The comparison of a `_OP_CMP` instruction.
#[allow(non_camel_case_types)]
#[derive(Debug, Clone, Copy, PartialEq, Eq, Structural)]
pub enum CmpOP {
    CMP_G,
    CMP_GE,
    CMP_L,
    CMP_LE,
    CMP_3W,
}

impl CmpOP {
    /// The byte that encodes this value.
    pub open spec fn spec_code(self) -> u8 {
        match self {
            CmpOP::CMP_G => 0x00,
            CmpOP::CMP_GE => 0x02,
            CmpOP::CMP_L => 0x03,
            CmpOP::CMP_LE => 0x04,
            CmpOP::CMP_3W => 0x05,
        }
    }

    pub fn code(&self) -> (r: u8)
        ensures
            r == self.spec_code(),
    {
        match self {
            CmpOP::CMP_G => 0x00,
            CmpOP::CMP_GE => 0x02,
            CmpOP::CMP_L => 0x03,
            CmpOP::CMP_LE => 0x04,
            CmpOP::CMP_3W => 0x05,
        }
    }

    /// Decodes a byte; a byte that encodes no value is refused.
    pub fn try_from_u8(value: u8) -> (r: Result<CmpOP, SquirrelBinaryError>)
        ensures
            r matches Ok(v) ==> v.spec_code() == value,
            r is Err <==> value != 0x00 && value != 0x02 && value != 0x03 && value != 0x04 && value != 0x05,
            r is Err ==> r == Err::<CmpOP, SquirrelBinaryError>(SquirrelBinaryError::InvalidCmpOp(value)),
    {
        match value {
            0x00 => Ok(CmpOP::CMP_G),
            0x02 => Ok(CmpOP::CMP_GE),
            0x03 => Ok(CmpOP::CMP_L),
            0x04 => Ok(CmpOP::CMP_LE),
            0x05 => Ok(CmpOP::CMP_3W),
            _ => Err(SquirrelBinaryError::InvalidCmpOp(value)),
        }
    }
}
/// The kind of object a `_OP_NEWOBJ` instruction creates.
#[allow(non_camel_case_types)]
#[derive(Debug, Clone, Copy, PartialEq, Eq, Structural)]
pub enum NewObjectType {
    NOT_TABLE,
    NOT_ARRAY,
    NOT_CLASS,
}

impl NewObjectType {
    /// The byte that encodes this value.
    pub open spec fn spec_code(self) -> u8 {
        match self {
            NewObjectType::NOT_TABLE => 0x00,
            NewObjectType::NOT_ARRAY => 0x01,
            NewObjectType::NOT_CLASS => 0x02,
        }
    }

    pub fn code(&self) -> (r: u8)
        ensures
            r == self.spec_code(),
    {
        match self {
            NewObjectType::NOT_TABLE => 0x00,
            NewObjectType::NOT_ARRAY => 0x01,
            NewObjectType::NOT_CLASS => 0x02,
        }
    }

    /// Decodes a byte; a byte that encodes no value is refused.
    pub fn try_from_u8(value: u8) -> (r: Result<NewObjectType, SquirrelBinaryError>)
        ensures
            r matches Ok(v) ==> v.spec_code() == value,
            r is Err <==> value != 0x00 && value != 0x01 && value != 0x02,
            r is Err ==> r == Err::<NewObjectType, SquirrelBinaryError>(SquirrelBinaryError::InvalidNewObjectType(value)),
    {
        match value {
            0x00 => Ok(NewObjectType::NOT_TABLE),
            0x01 => Ok(NewObjectType::NOT_ARRAY),
            0x02 => Ok(NewObjectType::NOT_CLASS),
            _ => Err(SquirrelBinaryError::InvalidNewObjectType(value)),
        }
    }
}
/// Where an `_OP_APPENDARRAY` instruction takes its value from.
#[allow(non_camel_case_types)]
#[derive(Debug, Clone, Copy, PartialEq, Eq, Structural)]
pub enum AppendArrayType {
    AAT_STACK,
    AAT_LITERAL,
    AAT_INT,
    AAT_FLOAT,
    AAT_BOOL,
}

impl AppendArrayType {
    /// The byte that encodes this value.
    pub open spec fn spec_code(self) -> u8 {
        match self {
            AppendArrayType::AAT_STACK => 0x00,
            AppendArrayType::AAT_LITERAL => 0x01,
            AppendArrayType::AAT_INT => 0x02,
            AppendArrayType::AAT_FLOAT => 0x03,
            AppendArrayType::AAT_BOOL => 0x04,
        }
    }

    pub fn code(&self) -> (r: u8)
        ensures
            r == self.spec_code(),
    {
        match self {
            AppendArrayType::AAT_STACK => 0x00,
            AppendArrayType::AAT_LITERAL => 0x01,
            AppendArrayType::AAT_INT => 0x02,
            AppendArrayType::AAT_FLOAT => 0x03,
            AppendArrayType::AAT_BOOL => 0x04,
        }
    }

    /// Decodes a byte; a byte that encodes no value is refused.
    pub fn try_from_u8(value: u8) -> (r: Result<AppendArrayType, SquirrelBinaryError>)
        ensures
            r matches Ok(v) ==> v.spec_code() == value,
            r is Err <==> value != 0x00 && value != 0x01 && value != 0x02 && value != 0x03 && value != 0x04,
            r is Err ==> r == Err::<AppendArrayType, SquirrelBinaryError>(SquirrelBinaryError::InvalidAppendArrayType(value)),
    {
        match value {
            0x00 => Ok(AppendArrayType::AAT_STACK),
            0x01 => Ok(AppendArrayType::AAT_LITERAL),
            0x02 => Ok(AppendArrayType::AAT_INT),
            0x03 => Ok(AppendArrayType::AAT_FLOAT),
            0x04 => Ok(AppendArrayType::AAT_BOOL),
            _ => Err(SquirrelBinaryError::InvalidAppendArrayType(value)),
        }
    }
}
/// The operation of one bytecode instruction.
#[allow(non_camel_case_types)]
#[derive(Debug, Clone, Copy, PartialEq, Eq, Structural)]
pub enum SQOpcode {
    _OP_LINE,
    _OP_LOAD,
    _OP_LOADINT,
    _OP_LOADFLOAT,
    _OP_DLOAD,
    _OP_TAILCALL,
    _OP_CALL,
    _OP_PREPCALL,
    _OP_PREPCALLK,
    _OP_GETK,
    _OP_MOVE,
    _OP_NEWSLOT,
    _OP_DELETE,
    _OP_SET,
    _OP_GET,
    _OP_EQ,
    _OP_NE,
    _OP_ADD,
    _OP_SUB,
    _OP_MUL,
    _OP_DIV,
    _OP_MOD,
    _OP_BITW,
    _OP_RETURN,
    _OP_LOADNULLS,
    _OP_LOADROOT,
    _OP_LOADBOOL,
    _OP_DMOVE,
    _OP_JMP,
    _OP_JCMP,
    _OP_JZ,
    _OP_SETOUTER,
    _OP_GETOUTER,
    _OP_NEWOBJ,
    _OP_APPENDARRAY,
    _OP_COMPARITH,
    _OP_INC,
    _OP_INCL,
    _OP_PINC,
    _OP_PINCL,
    _OP_CMP,
    _OP_EXISTS,
    _OP_INSTANCEOF,
    _OP_AND,
    _OP_OR,
    _OP_NEG,
    _OP_NOT,
    _OP_BWNOT,
    _OP_CLOSURE,
    _OP_YIELD,
    _OP_RESUME,
    _OP_FOREACH,
    _OP_POSTFOREACH,
    _OP_CLONE,
    _OP_TYPEOF,
    _OP_PUSHTRAP,
    _OP_POPTRAP,
    _OP_THROW,
    _OP_NEWSLOTA,
    _OP_GETBASE,
    _OP_CLOSE,
}

impl SQOpcode {
    /// The byte that encodes this value.
    pub open spec fn spec_code(self) -> u8 {
        match self {
            SQOpcode::_OP_LINE => 0x00,
            SQOpcode::_OP_LOAD => 0x01,
            SQOpcode::_OP_LOADINT => 0x02,
            SQOpcode::_OP_LOADFLOAT => 0x03,
            SQOpcode::_OP_DLOAD => 0x04,
            SQOpcode::_OP_TAILCALL => 0x05,
            SQOpcode::_OP_CALL => 0x06,
            SQOpcode::_OP_PREPCALL => 0x07,
            SQOpcode::_OP_PREPCALLK => 0x08,
            SQOpcode::_OP_GETK => 0x09,
            SQOpcode::_OP_MOVE => 0x0a,
            SQOpcode::_OP_NEWSLOT => 0x0b,
            SQOpcode::_OP_DELETE => 0x0c,
            SQOpcode::_OP_SET => 0x0d,
            SQOpcode::_OP_GET => 0x0e,
            SQOpcode::_OP_EQ => 0x0f,
            SQOpcode::_OP_NE => 0x10,
            SQOpcode::_OP_ADD => 0x11,
            SQOpcode::_OP_SUB => 0x12,
            SQOpcode::_OP_MUL => 0x13,
            SQOpcode::_OP_DIV => 0x14,
            SQOpcode::_OP_MOD => 0x15,
            SQOpcode::_OP_BITW => 0x16,
            SQOpcode::_OP_RETURN => 0x17,
            SQOpcode::_OP_LOADNULLS => 0x18,
            SQOpcode::_OP_LOADROOT => 0x19,
            SQOpcode::_OP_LOADBOOL => 0x1a,
            SQOpcode::_OP_DMOVE => 0x1b,
            SQOpcode::_OP_JMP => 0x1c,
            SQOpcode::_OP_JCMP => 0x1d,
            SQOpcode::_OP_JZ => 0x1e,
            SQOpcode::_OP_SETOUTER => 0x1f,
            SQOpcode::_OP_GETOUTER => 0x20,
            SQOpcode::_OP_NEWOBJ => 0x21,
            SQOpcode::_OP_APPENDARRAY => 0x22,
            SQOpcode::_OP_COMPARITH => 0x23,
            SQOpcode::_OP_INC => 0x24,
            SQOpcode::_OP_INCL => 0x25,
            SQOpcode::_OP_PINC => 0x26,
            SQOpcode::_OP_PINCL => 0x27,
            SQOpcode::_OP_CMP => 0x28,
            SQOpcode::_OP_EXISTS => 0x29,
            SQOpcode::_OP_INSTANCEOF => 0x2a,
            SQOpcode::_OP_AND => 0x2b,
            SQOpcode::_OP_OR => 0x2c,
            SQOpcode::_OP_NEG => 0x2d,
            SQOpcode::_OP_NOT => 0x2e,
            SQOpcode::_OP_BWNOT => 0x2f,
            SQOpcode::_OP_CLOSURE => 0x30,
            SQOpcode::_OP_YIELD => 0x31,
            SQOpcode::_OP_RESUME => 0x32,
            SQOpcode::_OP_FOREACH => 0x33,
            SQOpcode::_OP_POSTFOREACH => 0x34,
            SQOpcode::_OP_CLONE => 0x35,
            SQOpcode::_OP_TYPEOF => 0x36,
            SQOpcode::_OP_PUSHTRAP => 0x37,
            SQOpcode::_OP_POPTRAP => 0x38,
            SQOpcode::_OP_THROW => 0x39,
            SQOpcode::_OP_NEWSLOTA => 0x3a,
            SQOpcode::_OP_GETBASE => 0x3b,
            SQOpcode::_OP_CLOSE => 0x3c,
        }
    }

    pub fn code(&self) -> (r: u8)
        ensures
            r == self.spec_code(),
    {
        match self {
            SQOpcode::_OP_LINE => 0x00,
            SQOpcode::_OP_LOAD => 0x01,
            SQOpcode::_OP_LOADINT => 0x02,
            SQOpcode::_OP_LOADFLOAT => 0x03,
            SQOpcode::_OP_DLOAD => 0x04,
            SQOpcode::_OP_TAILCALL => 0x05,
            SQOpcode::_OP_CALL => 0x06,
            SQOpcode::_OP_PREPCALL => 0x07,
            SQOpcode::_OP_PREPCALLK => 0x08,
            SQOpcode::_OP_GETK => 0x09,
            SQOpcode::_OP_MOVE => 0x0a,
            SQOpcode::_OP_NEWSLOT => 0x0b,
            SQOpcode::_OP_DELETE => 0x0c,
            SQOpcode::_OP_SET => 0x0d,
            SQOpcode::_OP_GET => 0x0e,
            SQOpcode::_OP_EQ => 0x0f,
            SQOpcode::_OP_NE => 0x10,
            SQOpcode::_OP_ADD => 0x11,
            SQOpcode::_OP_SUB => 0x12,
            SQOpcode::_OP_MUL => 0x13,
            SQOpcode::_OP_DIV => 0x14,
            SQOpcode::_OP_MOD => 0x15,
            SQOpcode::_OP_BITW => 0x16,
            SQOpcode::_OP_RETURN => 0x17,
            SQOpcode::_OP_LOADNULLS => 0x18,
            SQOpcode::_OP_LOADROOT => 0x19,
            SQOpcode::_OP_LOADBOOL => 0x1a,
            SQOpcode::_OP_DMOVE => 0x1b,
            SQOpcode::_OP_JMP => 0x1c,
            SQOpcode::_OP_JCMP => 0x1d,
            SQOpcode::_OP_JZ => 0x1e,
            SQOpcode::_OP_SETOUTER => 0x1f,
            SQOpcode::_OP_GETOUTER => 0x20,
            SQOpcode::_OP_NEWOBJ => 0x21,
            SQOpcode::_OP_APPENDARRAY => 0x22,
            SQOpcode::_OP_COMPARITH => 0x23,
            SQOpcode::_OP_INC => 0x24,
            SQOpcode::_OP_INCL => 0x25,
            SQOpcode::_OP_PINC => 0x26,
            SQOpcode::_OP_PINCL => 0x27,
            SQOpcode::_OP_CMP => 0x28,
            SQOpcode::_OP_EXISTS => 0x29,
            SQOpcode::_OP_INSTANCEOF => 0x2a,
            SQOpcode::_OP_AND => 0x2b,
            SQOpcode::_OP_OR => 0x2c,
            SQOpcode::_OP_NEG => 0x2d,
            SQOpcode::_OP_NOT => 0x2e,
            SQOpcode::_OP_BWNOT => 0x2f,
            SQOpcode::_OP_CLOSURE => 0x30,
            SQOpcode::_OP_YIELD => 0x31,
            SQOpcode::_OP_RESUME => 0x32,
            SQOpcode::_OP_FOREACH => 0x33,
            SQOpcode::_OP_POSTFOREACH => 0x34,
            SQOpcode::_OP_CLONE => 0x35,
            SQOpcode::_OP_TYPEOF => 0x36,
            SQOpcode::_OP_PUSHTRAP => 0x37,
            SQOpcode::_OP_POPTRAP => 0x38,
            SQOpcode::_OP_THROW => 0x39,
            SQOpcode::_OP_NEWSLOTA => 0x3a,
            SQOpcode::_OP_GETBASE => 0x3b,
            SQOpcode::_OP_CLOSE => 0x3c,
        }
    }

    /// Decodes a byte; a byte that encodes no value is refused.
    pub fn try_from_u8(value: u8) -> (r: Result<SQOpcode, SquirrelBinaryError>)
        ensures
            r matches Ok(v) ==> v.spec_code() == value,
            r is Err <==> value > 0x3c,
            r is Err ==> r == Err::<SQOpcode, SquirrelBinaryError>(SquirrelBinaryError::InvalidOpcode(value)),
    {
        match value {
            0x00 => Ok(SQOpcode::_OP_LINE),
            0x01 => Ok(SQOpcode::_OP_LOAD),
            0x02 => Ok(SQOpcode::_OP_LOADINT),
            0x03 => Ok(SQOpcode::_OP_LOADFLOAT),
            0x04 => Ok(SQOpcode::_OP_DLOAD),
            0x05 => Ok(SQOpcode::_OP_TAILCALL),
            0x06 => Ok(SQOpcode::_OP_CALL),
            0x07 => Ok(SQOpcode::_OP_PREPCALL),
            0x08 => Ok(SQOpcode::_OP_PREPCALLK),
            0x09 => Ok(SQOpcode::_OP_GETK),
            0x0a => Ok(SQOpcode::_OP_MOVE),
            0x0b => Ok(SQOpcode::_OP_NEWSLOT),
            0x0c => Ok(SQOpcode::_OP_DELETE),
            0x0d => Ok(SQOpcode::_OP_SET),
            0x0e => Ok(SQOpcode::_OP_GET),
            0x0f => Ok(SQOpcode::_OP_EQ),
            0x10 => Ok(SQOpcode::_OP_NE),
            0x11 => Ok(SQOpcode::_OP_ADD),
            0x12 => Ok(SQOpcode::_OP_SUB),
            0x13 => Ok(SQOpcode::_OP_MUL),
            0x14 => Ok(SQOpcode::_OP_DIV),
            0x15 => Ok(SQOpcode::_OP_MOD),
            0x16 => Ok(SQOpcode::_OP_BITW),
            0x17 => Ok(SQOpcode::_OP_RETURN),
            0x18 => Ok(SQOpcode::_OP_LOADNULLS),
            0x19 => Ok(SQOpcode::_OP_LOADROOT),
            0x1a => Ok(SQOpcode::_OP_LOADBOOL),
            0x1b => Ok(SQOpcode::_OP_DMOVE),
            0x1c => Ok(SQOpcode::_OP_JMP),
            0x1d => Ok(SQOpcode::_OP_JCMP),
            0x1e => Ok(SQOpcode::_OP_JZ),
            0x1f => Ok(SQOpcode::_OP_SETOUTER),
            0x20 => Ok(SQOpcode::_OP_GETOUTER),
            0x21 => Ok(SQOpcode::_OP_NEWOBJ),
            0x22 => Ok(SQOpcode::_OP_APPENDARRAY),
            0x23 => Ok(SQOpcode::_OP_COMPARITH),
            0x24 => Ok(SQOpcode::_OP_INC),
            0x25 => Ok(SQOpcode::_OP_INCL),
            0x26 => Ok(SQOpcode::_OP_PINC),
            0x27 => Ok(SQOpcode::_OP_PINCL),
            0x28 => Ok(SQOpcode::_OP_CMP),
            0x29 => Ok(SQOpcode::_OP_EXISTS),
            0x2a => Ok(SQOpcode::_OP_INSTANCEOF),
            0x2b => Ok(SQOpcode::_OP_AND),
            0x2c => Ok(SQOpcode::_OP_OR),
            0x2d => Ok(SQOpcode::_OP_NEG),
            0x2e => Ok(SQOpcode::_OP_NOT),
            0x2f => Ok(SQOpcode::_OP_BWNOT),
            0x30 => Ok(SQOpcode::_OP_CLOSURE),
            0x31 => Ok(SQOpcode::_OP_YIELD),
            0x32 => Ok(SQOpcode::_OP_RESUME),
            0x33 => Ok(SQOpcode::_OP_FOREACH),
            0x34 => Ok(SQOpcode::_OP_POSTFOREACH),
            0x35 => Ok(SQOpcode::_OP_CLONE),
            0x36 => Ok(SQOpcode::_OP_TYPEOF),
            0x37 => Ok(SQOpcode::_OP_PUSHTRAP),
            0x38 => Ok(SQOpcode::_OP_POPTRAP),
            0x39 => Ok(SQOpcode::_OP_THROW),
            0x3a => Ok(SQOpcode::_OP_NEWSLOTA),
            0x3b => Ok(SQOpcode::_OP_GETBASE),
            0x3c => Ok(SQOpcode::_OP_CLOSE),
            _ => Err(SquirrelBinaryError::InvalidOpcode(value)),
        }
    }
}
/// One bytecode instruction: a four-byte argument, the operation, and three
/// one-byte arguments (the first names a stack target).
#[derive(Debug)]
pub struct Instruction {
    arg1: [u8; 4],
    op: SQOpcode,
    arg0: u8,
    arg2: u8,
    arg3: u8,
}

/// Reads an instruction argument from its four bytes.
pub trait IntoInstructionArg: Sized {
    spec fn spec_into(v: Seq<u8>) -> Self;

    fn into(v: &[u8]) -> (r: Self)
        requires
            v@.len() == 4,
        ensures
            r == Self::spec_into(v@),
    ;
}

impl IntoInstructionArg for u32 {
    /// The bytes read least significant first.
    open spec fn spec_into(v: Seq<u8>) -> u32 {
        le_value(v) as u32
    }

    fn into(v: &[u8]) -> (r: u32) {
        proof {
            crate::endian::lemma_le_bound_four(v@);
        }
        read_le(v) as u32
    }
}

/// The size of one encoded instruction.
pub const INSTRUCTION_SIZE: usize = 8;

impl Instruction {
    /// Decodes the instruction at the start of `bytes`: the argument bytes 0 to
    /// 3, the operation at 4, then the three one-byte arguments. Too few bytes
    /// or an unknown operation are refused.
    pub fn new(bytes: &[u8]) -> (r: Result<Instruction, SquirrelBinaryError>)
        ensures
            bytes@.len() < 8 ==> r == Err::<Instruction, SquirrelBinaryError>(SquirrelBinaryError::OutOfRange),
            bytes@.len() >= 8 && bytes@[4] > 0x3c ==> r == Err::<Instruction, SquirrelBinaryError>(SquirrelBinaryError::InvalidOpcode(bytes@[4])),
            r matches Ok(i) ==> {
                &&& i.spec_arg1() == bytes@.subrange(0, 4)
                &&& i.spec_opcode().spec_code() == bytes@[4]
                &&& i.spec_small_args() == (bytes@[5], bytes@[6], bytes@[7])
            },
            bytes@.len() >= 8 && bytes@[4] <= 0x3c ==> r is Ok,
    {
        if bytes.len() < INSTRUCTION_SIZE {
            return Err(SquirrelBinaryError::OutOfRange);
        }
        let op = match SQOpcode::try_from_u8(bytes[4]) {
            Ok(op) => op,
            Err(e) => {
                return Err(e);
            },
        };
        let arg1: [u8; 4] = [bytes[0], bytes[1], bytes[2], bytes[3]];
        assert(arg1@ =~= bytes@.subrange(0, 4));
        Ok(Instruction { arg1, op, arg0: bytes[5], arg2: bytes[6], arg3: bytes[7] })
    }

    pub closed spec fn spec_opcode(&self) -> SQOpcode {
        self.op
    }

    pub closed spec fn spec_arg1(&self) -> Seq<u8> {
        self.arg1@
    }

    /// The three one-byte arguments.
    pub closed spec fn spec_small_args(&self) -> (u8, u8, u8) {
        (self.arg0, self.arg2, self.arg3)
    }

    pub fn get_opcode(&self) -> (r: SQOpcode)
        ensures
            r == self.spec_opcode(),
    {
        self.op
    }

    /// The four-byte argument, read as a `T`.
    pub fn arg_as<T: IntoInstructionArg>(&self) -> (r: T)
        ensures
            r == T::spec_into(self.spec_arg1()),
    {
        T::into(self.arg1.as_slice())
    }

    /// The stack target.
    pub fn get_arg0(&self) -> (r: u8)
        ensures
            r == self.spec_small_args().0,
    {
        self.arg0
    }

    pub fn get_arg2(&self) -> (r: u8)
        ensures
            r == self.spec_small_args().1,
    {
        self.arg2
    }

    pub fn get_arg3(&self) -> (r: u8)
        ensures
            r == self.spec_small_args().2,
    {
        self.arg3
    }
}

} // verus!
